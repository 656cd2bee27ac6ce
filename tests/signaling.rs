use signaling_server::{
    decode, encode, episode_outcome, frame_message, handle_signaling_message, on_decoded_frame,
    on_inbound_event, ConnectionResult, ConnectionState, DecodeError, Duty, InboundAction,
    InboundEvent, ReconnectInfo, SessionInfo, SessionRegistry, SignalingMessage, SignalingState,
    INITIAL_RECONNECT_DELAY_MS, MAX_RECONNECT_ATTEMPTS, MAX_RECONNECT_DELAY_MS,
};

fn reply_text(a: InboundAction) -> String {
    match a {
        InboundAction::Reply(t) => t,
        other => panic!("expected a reply, got {:?}", other),
    }
}

fn session(id: &str, room: &str, at: u64) -> SessionInfo {
    SessionInfo { session_id: id.to_string(), room_id: room.to_string(), created_at: at }
}

#[test]
fn new_tracker_is_disconnected_with_initial_delay() {
    let r = ReconnectInfo::new();
    assert_eq!(r.attempts, 0);
    assert_eq!(r.next_delay_ms, 1000);
    assert_eq!(r.last_attempt, None);
    assert_eq!(r.state, ConnectionState::Disconnected);
}

#[test]
fn backoff_doubles_until_capped() {
    let mut r = ReconnectInfo::new();
    r.mark_connected();
    let expected = [2000u64, 4000, 8000, 16000, 30000];
    for (k, want) in expected.iter().enumerate() {
        assert!(r.record_failure(100 + k as u64));
        assert_eq!(r.attempts, k + 1);
        assert_eq!(r.next_delay_ms, *want);
        assert_eq!(r.state, ConnectionState::Reconnecting);
        assert_eq!(r.last_attempt, Some(100 + k as u64));
    }
}

#[test]
fn backoff_matches_formula_for_each_k() {
    for k in 0..=MAX_RECONNECT_ATTEMPTS {
        let mut r = ReconnectInfo::new();
        for i in 0..k {
            assert!(r.record_failure(i as u64));
        }
        let formula = std::cmp::min(INITIAL_RECONNECT_DELAY_MS * (1u64 << k), MAX_RECONNECT_DELAY_MS);
        assert_eq!(r.next_delay_ms, formula);
    }
}

#[test]
fn exhausted_attempts_fail_and_stay_failed() {
    let mut r = ReconnectInfo::new();
    for i in 0..MAX_RECONNECT_ATTEMPTS {
        assert!(r.record_failure(i as u64));
    }
    assert_eq!(r.attempts, MAX_RECONNECT_ATTEMPTS);
    assert!(!r.should_attempt_reconnect());
    assert!(!r.record_failure(50));
    assert_eq!(r.state, ConnectionState::Failed);
    for t in 51..60 {
        assert!(!r.record_failure(t));
        assert_eq!(r.attempts, MAX_RECONNECT_ATTEMPTS);
        assert_eq!(r.state, ConnectionState::Failed);
    }
}

#[test]
fn mark_connected_resets_from_any_state() {
    for state in [
        ConnectionState::Connected,
        ConnectionState::Disconnected,
        ConnectionState::Reconnecting,
        ConnectionState::Failed,
    ] {
        let mut r = ReconnectInfo { attempts: 4, next_delay_ms: 16000, last_attempt: Some(9), state };
        r.mark_connected();
        assert_eq!(r.attempts, 0);
        assert_eq!(r.state, ConnectionState::Connected);
        assert_eq!(r.next_delay_ms, INITIAL_RECONNECT_DELAY_MS);
        assert_eq!(r.last_attempt, None);
    }
}

#[test]
fn increment_attempt_caps_a_large_delay() {
    let mut r = ReconnectInfo { attempts: 0, next_delay_ms: 20000, last_attempt: None, state: ConnectionState::Connected };
    r.increment_attempt(3);
    assert_eq!(r.next_delay_ms, 30000);
    assert_eq!(r.attempts, 1);
    assert_eq!(r.last_attempt, Some(3));
    r.mark_failed();
    assert_eq!(r.state, ConnectionState::Failed);
    r.mark_disconnected();
    assert_eq!(r.state, ConnectionState::Disconnected);
    r.reset();
    assert_eq!(r.state, ConnectionState::Connected);
}

#[test]
fn registry_create_then_destroy_restores_count() {
    let mut reg = SessionRegistry::new();
    reg.register(session("a", "r", 1));
    let before = reg.count();
    reg.register(session("s1", "r1", 2));
    assert_eq!(reg.count(), before + 1);
    assert!(reg.destroy("s1"));
    assert_eq!(reg.count(), before);
    assert!(reg.contains("a"));
}

#[test]
fn registry_register_same_id_overwrites() {
    let mut reg = SessionRegistry::new();
    reg.register(session("s1", "r1", 1));
    reg.register(session("s1", "r2", 2));
    assert_eq!(reg.count(), 1);
    assert!(reg.contains("s1"));
}

#[test]
fn destroy_unknown_session_reports_absent() {
    let mut reg = SessionRegistry::new();
    assert!(!reg.destroy("ghost"));
    reg.register(session("s1", "r1", 1));
    assert!(!reg.destroy("ghost"));
    assert_eq!(reg.count(), 1);
    assert!(reg.destroy("s1"));
    assert!(!reg.destroy("s1"));
    assert_eq!(reg.count(), 0);
}

#[test]
fn decode_create_peer() {
    match decode(r#"{"type":"create-peer","session_id":"s1","room_id":"r1"}"#) {
        Ok(SignalingMessage::CreatePeer { session_id, room_id }) => {
            assert_eq!(session_id, "s1");
            assert_eq!(room_id, "r1");
        }
        other => panic!("unexpected {:?}", other),
    }
}

#[test]
fn decode_peer_created_reads_flag() {
    match decode(r#"{"success":false,"session_id":"x","type":"peer-created"}"#) {
        Ok(SignalingMessage::PeerCreated { session_id, success }) => {
            assert_eq!(session_id, "x");
            assert!(!success);
        }
        other => panic!("unexpected {:?}", other),
    }
}

#[test]
fn decode_errors() {
    assert_eq!(decode("not json").unwrap_err(), DecodeError::Malformed);
    assert_eq!(decode("[1,2]").unwrap_err(), DecodeError::Malformed);
    assert_eq!(decode(r#"{"session_id":"s1"}"#).unwrap_err(), DecodeError::MissingType);
    assert_eq!(decode(r#"{"type":7,"session_id":"s1"}"#).unwrap_err(), DecodeError::MissingType);
    assert_eq!(decode(r#"{"type":"unknown-tag"}"#).unwrap_err(), DecodeError::UnknownType);
    assert_eq!(decode(r#"{"type":"destroy-peer"}"#).unwrap_err(), DecodeError::MissingField);
    assert_eq!(decode(r#"{"type":"create-peer","session_id":"s1"}"#).unwrap_err(), DecodeError::MissingField);
    assert_eq!(
        decode(r#"{"type":"peer-created","session_id":"s1","success":"yes"}"#).unwrap_err(),
        DecodeError::MissingField
    );
}

#[test]
fn encode_replies() {
    let created = SignalingMessage::PeerCreated { session_id: "s1".to_string(), success: true };
    assert_eq!(encode(&created), r#"{"type":"peer-created","session_id":"s1","success":true}"#);
    let destroyed = SignalingMessage::PeerDestroyed { session_id: "s1".to_string() };
    assert_eq!(encode(&destroyed), r#"{"type":"peer-destroyed","session_id":"s1"}"#);
    let create = SignalingMessage::CreatePeer { session_id: "a".to_string(), room_id: "b".to_string() };
    assert_eq!(encode(&create), r#"{"type":"create-peer","session_id":"a","room_id":"b"}"#);
}

#[test]
fn encode_escapes_strings() {
    let m = SignalingMessage::PeerDestroyed { session_id: "a\"b\\c\n".to_string() };
    assert_eq!(encode(&m), r#"{"type":"peer-destroyed","session_id":"a\"b\\c\n"}"#);
    match decode(&encode(&m)) {
        Ok(SignalingMessage::PeerDestroyed { session_id }) => assert_eq!(session_id, "a\"b\\c\n"),
        other => panic!("unexpected {:?}", other),
    }
}

#[test]
fn frame_message_uses_given_literals() {
    let m = SignalingMessage::PeerCreated { session_id: "ignored".to_string(), success: false };
    assert_eq!(frame_message(&m, "\"q\"", ""), r#"{"type":"peer-created","session_id":"q","success":false}"#);
}

#[test]
fn malformed_frames_change_nothing() {
    let mut st = SignalingState::new();
    st.provide_turn_config("s0".to_string(), "r0".to_string(), 1);
    for text in [r#"{"type":"unknown-tag"}"#, r#"{"type":"create-peer","room_id":"r1"}"#, "garbage"] {
        let a = on_inbound_event(&mut st, InboundEvent::Text(text.to_string()), 2);
        assert!(matches!(a, InboundAction::Continue));
        assert_eq!(st.get_active_sessions_count(), 1);
    }
}

#[test]
fn end_to_end_create_and_destroy() {
    let mut st = SignalingState::new();
    st.connection_opened();
    let a = on_inbound_event(
        &mut st,
        InboundEvent::Text(r#"{"type":"create-peer","session_id":"s1","room_id":"r1"}"#.to_string()),
        10,
    );
    assert_eq!(reply_text(a), r#"{"type":"peer-created","session_id":"s1","success":true}"#);
    assert_eq!(st.get_active_sessions_count(), 1);
    let b = on_inbound_event(
        &mut st,
        InboundEvent::Text(r#"{"type":"destroy-peer","session_id":"s1"}"#.to_string()),
        11,
    );
    assert_eq!(reply_text(b), r#"{"type":"peer-destroyed","session_id":"s1"}"#);
    assert_eq!(st.get_active_sessions_count(), 0);
}

#[test]
fn read_timeout_ends_episode_with_one_attempt() {
    let mut st = SignalingState::new();
    st.connection_opened();
    assert_eq!(st.get_connection_state(), ConnectionState::Connected);
    let a = on_inbound_event(&mut st, InboundEvent::TimedOut, 5);
    let result = match a {
        InboundAction::Finish(r) => r,
        other => panic!("unexpected {:?}", other),
    };
    assert_eq!(result, ConnectionResult::NetworkError);
    let outcome = episode_outcome(Duty::Inbound(Some(result)));
    st.update_connection_state(ConnectionState::Disconnected);
    assert_eq!(st.get_connection_state(), ConnectionState::Disconnected);
    assert!(st.attempt_reconnect(6));
    assert_eq!(st.get_connection_state(), ConnectionState::Reconnecting);
    assert_eq!(st.reconnect_info.attempts, 1);
    let mut st2 = SignalingState::new();
    st2.connection_opened();
    assert!(st2.connection_closed(outcome, 6));
    assert_eq!(st2.get_connection_state(), ConnectionState::Reconnecting);
    assert_eq!(st2.reconnect_info.attempts, 1);
    assert_eq!(st2.reconnect_info.last_attempt, Some(6));
}

#[test]
fn clean_close_records_no_failure() {
    let mut st = SignalingState::new();
    st.connection_opened();
    let a = on_inbound_event(&mut st, InboundEvent::Close, 5);
    assert!(matches!(a, InboundAction::Finish(ConnectionResult::NormalClose)));
    assert!(!st.connection_closed(ConnectionResult::NormalClose, 5));
    assert_eq!(st.get_connection_state(), ConnectionState::Disconnected);
    assert_eq!(st.reconnect_info.attempts, 0);
}

#[test]
fn inbound_control_frames() {
    let mut st = SignalingState::new();
    match on_inbound_event(&mut st, InboundEvent::Ping(vec![1, 2]), 0) {
        InboundAction::Pong(p) => assert_eq!(p, vec![1, 2]),
        other => panic!("unexpected {:?}", other),
    }
    assert!(matches!(on_inbound_event(&mut st, InboundEvent::Pong, 0), InboundAction::Continue));
    assert!(matches!(on_inbound_event(&mut st, InboundEvent::Binary, 0), InboundAction::Continue));
    for ev in [InboundEvent::TransportError, InboundEvent::StreamEnded] {
        assert!(matches!(
            on_inbound_event(&mut st, ev, 0),
            InboundAction::Finish(ConnectionResult::NetworkError)
        ));
    }
}

#[test]
fn outbound_only_messages_are_ignored() {
    let mut st = SignalingState::new();
    let m = SignalingMessage::PeerCreated { session_id: "s".to_string(), success: true };
    assert!(handle_signaling_message(m, &mut st, 0).is_none());
    let a = on_decoded_frame(&mut st, Ok(SignalingMessage::PeerDestroyed { session_id: "s".to_string() }), 0);
    assert!(matches!(a, InboundAction::Continue));
    assert_eq!(st.get_active_sessions_count(), 0);
}

#[test]
fn episode_outcome_by_first_duty() {
    assert_eq!(episode_outcome(Duty::Outbound), ConnectionResult::NetworkError);
    assert_eq!(episode_outcome(Duty::Heartbeat), ConnectionResult::NetworkError);
    assert_eq!(episode_outcome(Duty::Inbound(None)), ConnectionResult::NetworkError);
    assert_eq!(episode_outcome(Duty::Inbound(Some(ConnectionResult::NormalClose))), ConnectionResult::NormalClose);
}

#[test]
fn status_snapshot() {
    let mut st = SignalingState::new();
    let s0 = st.connection_status();
    assert_eq!(s0.state, "disconnected");
    assert_eq!(s0.last_attempt, None);
    st.connection_opened();
    st.provide_turn_config("s1".to_string(), "r1".to_string(), 1);
    assert_eq!(st.connection_status().state, "connected");
    st.connection_closed(ConnectionResult::NetworkError, 1700000000);
    let s = st.connection_status();
    assert_eq!(s.state, "reconnecting");
    assert_eq!(s.active_sessions, 1);
    assert_eq!(s.reconnect_attempts, 1);
    assert_eq!(s.max_attempts, 5);
    assert_eq!(s.next_delay_seconds, 2);
    assert_eq!(s.last_attempt, Some("1700000000".to_string()));
    st.reconnect_info.mark_failed();
    assert_eq!(st.connection_status().state, "failed");
}
