//! Shared relay state and the decisions of the control connection: message
//! dispatch, the handling of each inbound frame, the outcome of an episode,
//! and the status snapshot.
use crate::codec::{
    decode, decode_spec, encode, encode_spec, DecodeError, MessageView, SignalingMessage,
};
use crate::reconnect::{
    connected_info, failure_step, may_retry, ConnectionState, ReconnectInfo,
    MAX_RECONNECT_ATTEMPTS,
};
use crate::registry::{
    destroyed, has_id, ids_distinct, lemma_create_destroy_restores_count, registered, SessionInfo,
    SessionRegistry, SessionView,
};
use vstd::prelude::*;
use vstd::string::*;

verus! {

/// The session registry and the tracker of the control connection.
#[derive(Debug, Clone)]
pub struct SignalingState {
    pub active_sessions: SessionRegistry,
    pub reconnect_info: ReconnectInfo,
}

/// How a connection episode ended.
#[derive(Debug, Clone, Copy, PartialEq, Eq, Structural)]
pub enum ConnectionResult {
    /// The backend closed the socket.
    NormalClose,
    /// A write, read or ping failed or timed out.
    NetworkError,
}

/// What the inbound duty read from the socket.
#[derive(Debug, Clone)]
pub enum InboundEvent {
    Text(String),
    Binary,
    Ping(Vec<u8>),
    Pong,
    Close,
    /// The transport reported an error.
    TransportError,
    /// The stream of frames ended without a close frame.
    StreamEnded,
    /// No frame arrived within the read timeout.
    TimedOut,
}

/// What the inbound duty does next.
#[derive(Debug, Clone)]
pub enum InboundAction {
    /// Read the next frame.
    Continue,
    /// Queue this text frame, then read on.
    Reply(String),
    /// Queue a pong with this payload, then read on.
    Pong(Vec<u8>),
    /// Stop: the episode is over.
    Finish(ConnectionResult),
}

/// The duty that ended first.
#[derive(Debug, Clone, Copy)]
pub enum Duty {
    Outbound,
    /// The inbound duty, with its result, or `None` if it did not return one.
    Inbound(Option<ConnectionResult>),
    Heartbeat,
}

/// The snapshot that the status endpoint reports.
#[derive(Debug, Clone)]
pub struct ConnectionStatus {
    pub state: String,
    pub active_sessions: usize,
    pub reconnect_attempts: usize,
    pub max_attempts: usize,
    pub next_delay_seconds: u64,
    pub last_attempt: Option<String>,
}

/// The sessions after `m` is handled at `now`.
pub open spec fn sessions_after(s: Seq<SessionView>, m: MessageView, now: u64) -> Seq<SessionView> {
    match m {
        MessageView::CreatePeer { session_id, room_id } => registered(
            s,
            SessionView { id: session_id, room: room_id, created_at: now },
        ),
        MessageView::DestroyPeer { session_id } => destroyed(s, session_id),
        _ => s,
    }
}

/// The reply owed to the backend for `m`.
pub open spec fn reply_to(m: MessageView) -> Option<MessageView> {
    match m {
        MessageView::CreatePeer { session_id, .. } => Some(
            MessageView::PeerCreated { session_id, success: true },
        ),
        MessageView::DestroyPeer { session_id } => Some(MessageView::PeerDestroyed { session_id }),
        _ => None,
    }
}

/// The tracker with its state set to `s`; `Connected` also starts a fresh episode.
pub open spec fn with_state(r: ReconnectInfo, s: ConnectionState) -> ReconnectInfo {
    if s == ConnectionState::Connected {
        connected_info()
    } else {
        ReconnectInfo { state: s, ..r }
    }
}

/// The outcome of an episode whose first finished duty is `d`.
pub open spec fn outcome_spec(d: Duty) -> ConnectionResult {
    match d {
        Duty::Inbound(Some(r)) => r,
        _ => ConnectionResult::NetworkError,
    }
}

/// The tracker after an episode that ended with `result` at `now`.
pub open spec fn after_episode(r: ReconnectInfo, result: ConnectionResult, now: u64) -> ReconnectInfo {
    let closed = ReconnectInfo { state: ConnectionState::Disconnected, ..r };
    if result == ConnectionResult::NetworkError {
        failure_step(closed, now)
    } else {
        closed
    }
}

/// The name that the status endpoint gives a state.
pub open spec fn state_name(s: ConnectionState) -> Seq<char> {
    match s {
        ConnectionState::Connected => "connected"@,
        ConnectionState::Disconnected => "disconnected"@,
        ConnectionState::Reconnecting => "reconnecting"@,
        ConnectionState::Failed => "failed"@,
    }
}

/// The decimal digits of `n`, without leading zeros.
pub open spec fn decimal(n: nat) -> Seq<char>
    decreases n,
{
    if n < 10 {
        seq![digit_char(n)]
    } else {
        decimal(n / 10).push(digit_char(n % 10))
    }
}

pub open spec fn digit_char(d: nat) -> char {
    ((d + '0' as nat) as u32) as char
}

impl SignalingState {
    pub open spec fn wf(&self) -> bool {
        self.active_sessions.wf()
    }

    pub fn new() -> (r: Self)
        ensures
            r.wf(),
            r.active_sessions@ == Seq::<SessionView>::empty(),
            r.reconnect_info == crate::reconnect::initial_info(),
    {
        SignalingState { active_sessions: SessionRegistry::new(), reconnect_info: ReconnectInfo::new() }
    }

    /// Records the session for `session_id` in room `room_id`, created at
    /// `now`; the TURN configuration itself is handed out by the browser side,
    /// so this always succeeds.
    pub fn provide_turn_config(&mut self, session_id: String, room_id: String, now: u64) -> (r: bool)
        requires
            old(self).wf(),
        ensures
            r,
            final(self).wf(),
            final(self).active_sessions@ == registered(
                old(self).active_sessions@,
                SessionView { id: session_id@, room: room_id@, created_at: now },
            ),
            final(self).reconnect_info == old(self).reconnect_info,
    {
        self.active_sessions.register(SessionInfo { session_id, room_id, created_at: now });
        true
    }

    /// Removes the session; returns whether it existed.
    pub fn destroy_session(&mut self, session_id: &str) -> (r: bool)
        requires
            old(self).wf(),
        ensures
            final(self).wf(),
            r == has_id(old(self).active_sessions@, session_id@),
            final(self).active_sessions@ == destroyed(old(self).active_sessions@, session_id@),
            final(self).reconnect_info == old(self).reconnect_info,
    {
        self.active_sessions.destroy(session_id)
    }

    pub fn get_active_sessions_count(&self) -> (r: usize)
        ensures
            r == self.active_sessions@.len(),
    {
        self.active_sessions.count()
    }

    /// Sets the state of the control connection; `Connected` also resets the
    /// attempt count and the delay.
    pub fn update_connection_state(&mut self, state: ConnectionState)
        ensures
            final(self).reconnect_info == with_state(old(self).reconnect_info, state),
            final(self).active_sessions == old(self).active_sessions,
    {
        self.reconnect_info.state = state;
        if state == ConnectionState::Connected {
            self.reconnect_info.reset();
        }
    }

    /// Records a failure at `now`; returns whether a retry is still due, after
    /// the tracker's `next_delay_ms`.
    pub fn attempt_reconnect(&mut self, now: u64) -> (r: bool)
        ensures
            r == may_retry(old(self).reconnect_info),
            final(self).reconnect_info == failure_step(old(self).reconnect_info, now),
            final(self).active_sessions == old(self).active_sessions,
    {
        self.reconnect_info.record_failure(now)
    }

    pub fn get_connection_state(&self) -> (r: ConnectionState)
        ensures
            r == self.reconnect_info.state,
    {
        self.reconnect_info.state
    }

    /// A socket was accepted: the connection is `Connected`, in a fresh episode.
    pub fn connection_opened(&mut self)
        ensures
            final(self).reconnect_info == connected_info(),
            final(self).active_sessions == old(self).active_sessions,
    {
        self.update_connection_state(ConnectionState::Connected);
    }

    /// The episode ended with `result` at `now`: the connection is
    /// `Disconnected`, and a network failure is recorded. Returns whether a
    /// failure was recorded and a retry is still due.
    pub fn connection_closed(&mut self, result: ConnectionResult, now: u64) -> (r: bool)
        ensures
            final(self).reconnect_info == after_episode(old(self).reconnect_info, result, now),
            r == (result == ConnectionResult::NetworkError && may_retry(
                ReconnectInfo { state: ConnectionState::Disconnected, ..old(self).reconnect_info },
            )),
            final(self).active_sessions == old(self).active_sessions,
    {
        self.update_connection_state(ConnectionState::Disconnected);
        match result {
            ConnectionResult::NetworkError => self.attempt_reconnect(now),
            ConnectionResult::NormalClose => false,
        }
    }

    /// The snapshot for the status endpoint.
    pub fn connection_status(&self) -> (r: ConnectionStatus)
        ensures
            r.state@ == state_name(self.reconnect_info.state),
            r.active_sessions == self.active_sessions@.len(),
            r.reconnect_attempts == self.reconnect_info.attempts,
            r.max_attempts == MAX_RECONNECT_ATTEMPTS,
            r.next_delay_seconds == self.reconnect_info.next_delay_ms / 1000,
            match self.reconnect_info.last_attempt {
                None => r.last_attempt is None,
                Some(t) => r.last_attempt matches Some(s) && s@ == decimal(t as nat),
            },
    {
        let name = match self.reconnect_info.state {
            ConnectionState::Connected => "connected",
            ConnectionState::Disconnected => "disconnected",
            ConnectionState::Reconnecting => "reconnecting",
            ConnectionState::Failed => "failed",
        };
        let last_attempt = match self.reconnect_info.last_attempt {
            Some(t) => Some(decimal_string(t)),
            None => None,
        };
        ConnectionStatus {
            state: String::from_str(name),
            active_sessions: self.active_sessions.count(),
            reconnect_attempts: self.reconnect_info.attempts,
            max_attempts: MAX_RECONNECT_ATTEMPTS,
            next_delay_seconds: self.reconnect_info.next_delay_ms / 1000,
            last_attempt,
        }
    }
}

/// Relies on `ToString` for `u64`, which writes the number through its
/// `Display` impl: its decimal digits, without sign or leading zeros.
#[verifier::external_body]
fn decimal_string(n: u64) -> (r: String)
    ensures
        r@ == decimal(n as nat),
{
    n.to_string()
}

/// Handles a message from the backend at `now` and returns the reply owed.
pub fn handle_signaling_message(message: SignalingMessage, state: &mut SignalingState, now: u64) -> (r:
    Option<SignalingMessage>)
    requires
        old(state).wf(),
    ensures
        final(state).wf(),
        final(state).active_sessions@ == sessions_after(old(state).active_sessions@, message@, now),
        final(state).reconnect_info == old(state).reconnect_info,
        match r {
            None => reply_to(message@) is None,
            Some(m) => reply_to(message@) == Some(m@),
        },
{
    match message {
        SignalingMessage::CreatePeer { session_id, room_id } => {
            let id = session_id.clone();
            let ok = state.provide_turn_config(session_id, room_id, now);
            Some(SignalingMessage::PeerCreated { session_id: id, success: ok })
        },
        SignalingMessage::DestroyPeer { session_id } => {
            state.destroy_session(session_id.as_str());
            Some(SignalingMessage::PeerDestroyed { session_id })
        },
        _ => None,
    }
}

/// Handles a decoded text frame at `now`: a message is dispatched and its
/// reply queued; a frame that is no message is skipped and changes nothing.
pub fn on_decoded_frame(state: &mut SignalingState, decoded: Result<SignalingMessage, DecodeError>, now: u64) -> (r: InboundAction)
    requires
        old(state).wf(),
    ensures
        final(state).wf(),
        final(state).reconnect_info == old(state).reconnect_info,
        match decoded {
            Err(_) => r is Continue && final(state).active_sessions@ == old(state).active_sessions@,
            Ok(m) => final(state).active_sessions@ == sessions_after(old(state).active_sessions@, m@, now)
                && match reply_to(m@) {
                None => r is Continue,
                Some(reply) => r matches InboundAction::Reply(t) && t@ == encode_spec(reply),
            },
        },
{
    match decoded {
        Ok(message) => match handle_signaling_message(message, state, now) {
            Some(reply) => InboundAction::Reply(encode(&reply)),
            None => InboundAction::Continue,
        },
        Err(_) => InboundAction::Continue,
    }
}

/// Handles one event of the inbound duty at `now`.
pub fn on_inbound_event(state: &mut SignalingState, event: InboundEvent, now: u64) -> (r: InboundAction)
    requires
        old(state).wf(),
    ensures
        final(state).wf(),
        final(state).reconnect_info == old(state).reconnect_info,
        match event {
            InboundEvent::Text(t) => match decode_spec(t@) {
                Err(_) => r is Continue && final(state).active_sessions@ == old(state).active_sessions@,
                Ok(m) => final(state).active_sessions@ == sessions_after(old(state).active_sessions@, m, now)
                    && match reply_to(m) {
                    None => r is Continue,
                    Some(reply) => r matches InboundAction::Reply(f) && f@ == encode_spec(reply),
                },
            },
            InboundEvent::Ping(p) => r == InboundAction::Pong(p) && final(state).active_sessions@ == old(state).active_sessions@,
            InboundEvent::Binary | InboundEvent::Pong => r is Continue && final(state).active_sessions@ == old(state).active_sessions@,
            InboundEvent::Close => r == InboundAction::Finish(ConnectionResult::NormalClose)
                && final(state).active_sessions@ == old(state).active_sessions@,
            _ => r == InboundAction::Finish(ConnectionResult::NetworkError)
                && final(state).active_sessions@ == old(state).active_sessions@,
        },
{
    match event {
        InboundEvent::Text(t) => on_decoded_frame(state, decode(t.as_str()), now),
        InboundEvent::Ping(p) => InboundAction::Pong(p),
        InboundEvent::Binary | InboundEvent::Pong => InboundAction::Continue,
        InboundEvent::Close => InboundAction::Finish(ConnectionResult::NormalClose),
        InboundEvent::TransportError | InboundEvent::StreamEnded | InboundEvent::TimedOut => {
            InboundAction::Finish(ConnectionResult::NetworkError)
        },
    }
}

/// The outcome of an episode: the inbound duty's result when it ended first
/// with one, else a network failure.
pub fn episode_outcome(first: Duty) -> (r: ConnectionResult)
    ensures
        r == outcome_spec(first),
{
    match first {
        Duty::Inbound(Some(result)) => result,
        _ => ConnectionResult::NetworkError,
    }
}

/// A `CreatePeer` for a session id that is not registered, followed by a
/// `DestroyPeer` for the same id, leaves the sessions, and so their count, as
/// they were.
pub proof fn lemma_peer_lifecycle_restores_count(
    s: Seq<SessionView>,
    session_id: Seq<char>,
    room_id: Seq<char>,
    created: u64,
    destroyed_at: u64,
)
    requires
        ids_distinct(s),
        !has_id(s, session_id),
    ensures
        sessions_after(
            sessions_after(s, MessageView::CreatePeer { session_id, room_id }, created),
            MessageView::DestroyPeer { session_id },
            destroyed_at,
        ) == s,
{
    lemma_create_destroy_restores_count(
        s,
        SessionView { id: session_id, room: room_id, created_at: created },
    );
}

} // verus!
