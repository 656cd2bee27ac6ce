//! The control-message codec: tagged JSON objects to messages and back.
use crate::registry::str_equal;
use vstd::prelude::*;
use vstd::string::*;

verus! {

/// A control message, inbound from the backend (`CreatePeer`, `DestroyPeer`)
/// or outbound to it (`PeerCreated`, `PeerDestroyed`).
#[derive(Debug, Clone)]
pub enum SignalingMessage {
    CreatePeer { session_id: String, room_id: String },
    DestroyPeer { session_id: String },
    PeerCreated { session_id: String, success: bool },
    PeerDestroyed { session_id: String },
}

/// A control message with its strings as character sequences.
pub enum MessageView {
    CreatePeer { session_id: Seq<char>, room_id: Seq<char> },
    DestroyPeer { session_id: Seq<char> },
    PeerCreated { session_id: Seq<char>, success: bool },
    PeerDestroyed { session_id: Seq<char> },
}

impl View for SignalingMessage {
    type V = MessageView;

    open spec fn view(&self) -> MessageView {
        match self {
            SignalingMessage::CreatePeer { session_id, room_id } => MessageView::CreatePeer {
                session_id: session_id@,
                room_id: room_id@,
            },
            SignalingMessage::DestroyPeer { session_id } => MessageView::DestroyPeer {
                session_id: session_id@,
            },
            SignalingMessage::PeerCreated { session_id, success } => MessageView::PeerCreated {
                session_id: session_id@,
                success: *success,
            },
            SignalingMessage::PeerDestroyed { session_id } => MessageView::PeerDestroyed {
                session_id: session_id@,
            },
        }
    }
}

/// Why a frame is not a control message.
#[derive(Debug, Clone, Copy, PartialEq, Eq, Structural)]
pub enum DecodeError {
    /// The text is not one JSON object.
    Malformed,
    /// No `type` member holding a string.
    MissingType,
    /// A `type` that names no message.
    UnknownType,
    /// A member that the message needs is absent or of another JSON type.
    MissingField,
}

/// The value of a member of a JSON object, as far as messages read it.
#[derive(Debug, Clone)]
pub enum JsonField {
    Text(String),
    Flag(bool),
    Other,
}

/// A member value with its string as a character sequence.
pub enum JsonFieldView {
    Text(Seq<char>),
    Flag(bool),
    Other,
}

impl View for JsonField {
    type V = JsonFieldView;

    open spec fn view(&self) -> JsonFieldView {
        match self {
            JsonField::Text(s) => JsonFieldView::Text(s@),
            JsonField::Flag(b) => JsonFieldView::Flag(*b),
            JsonField::Other => JsonFieldView::Other,
        }
    }
}

/// Members with their keys and values viewed.
pub open spec fn members_view(m: Seq<(String, JsonField)>) -> Seq<(Seq<char>, JsonFieldView)> {
    m.map_values(|p: (String, JsonField)| (p.0@, p.1@))
}

/// The members of the JSON object that `text` holds, or `None` when it holds
/// no single JSON object.
pub uninterp spec fn json_object_members(text: Seq<char>) -> Option<Seq<(Seq<char>, JsonFieldView)>>;

/// The JSON string literal, quotes and escapes included, for `s`.
pub uninterp spec fn json_string_literal(s: Seq<char>) -> Seq<char>;

/// Relies on serde_json::from_str into serde_json::Value: when the text is one
/// JSON object, its members as the object's map yields them, each value kept
/// as a string, a boolean, or neither.
#[verifier::external_body]
fn parse_object_members(text: &str) -> (r: Option<Vec<(String, JsonField)>>)
    ensures
        r is None <==> json_object_members(text@) is None,
        r matches Some(v) ==> json_object_members(text@) == Some(members_view(v@)),
{
    match serde_json::from_str::<serde_json::Value>(text) {
        Ok(serde_json::Value::Object(map)) => Some(map.into_iter().map(|(k, v)| (k, match v {
            serde_json::Value::String(s) => JsonField::Text(s),
            serde_json::Value::Bool(b) => JsonField::Flag(b),
            _ => JsonField::Other,
        })).collect()),
        _ => None,
    }
}

/// Relies on serde_json::to_string on a string slice, which cannot fail: the
/// JSON string literal for `s`.
#[verifier::external_body]
fn quote_json_string(s: &str) -> (r: String)
    ensures
        r@ == json_string_literal(s@),
{
    serde_json::to_string(s).unwrap_or_default()
}

/// The value of the first member of `m` from position `i` on whose key is `key`.
pub open spec fn member_from(m: Seq<(Seq<char>, JsonFieldView)>, key: Seq<char>, i: int) -> Option<
    JsonFieldView,
>
    decreases m.len() - i,
{
    if i < 0 || i >= m.len() {
        None
    } else if m[i].0 == key {
        Some(m[i].1)
    } else {
        member_from(m, key, i + 1)
    }
}

/// The string held by member `key`, if it is one.
pub open spec fn text_member(m: Seq<(Seq<char>, JsonFieldView)>, key: Seq<char>) -> Option<
    Seq<char>,
> {
    match member_from(m, key, 0) {
        Some(JsonFieldView::Text(s)) => Some(s),
        _ => None,
    }
}

/// The boolean held by member `key`, if it is one.
pub open spec fn flag_member(m: Seq<(Seq<char>, JsonFieldView)>, key: Seq<char>) -> Option<bool> {
    match member_from(m, key, 0) {
        Some(JsonFieldView::Flag(b)) => Some(b),
        _ => None,
    }
}

/// The message that the members of an object describe, by its `type` member.
pub open spec fn decode_members_spec(m: Seq<(Seq<char>, JsonFieldView)>) -> Result<
    MessageView,
    DecodeError,
> {
    match text_member(m, "type"@) {
        None => Err(DecodeError::MissingType),
        Some(tag) => {
            let sid = text_member(m, "session_id"@);
            if tag == "create-peer"@ {
                match (sid, text_member(m, "room_id"@)) {
                    (Some(s), Some(r)) => Ok(MessageView::CreatePeer { session_id: s, room_id: r }),
                    _ => Err(DecodeError::MissingField),
                }
            } else if tag == "destroy-peer"@ {
                match sid {
                    Some(s) => Ok(MessageView::DestroyPeer { session_id: s }),
                    None => Err(DecodeError::MissingField),
                }
            } else if tag == "peer-created"@ {
                match (sid, flag_member(m, "success"@)) {
                    (Some(s), Some(b)) => Ok(MessageView::PeerCreated { session_id: s, success: b }),
                    _ => Err(DecodeError::MissingField),
                }
            } else if tag == "peer-destroyed"@ {
                match sid {
                    Some(s) => Ok(MessageView::PeerDestroyed { session_id: s }),
                    None => Err(DecodeError::MissingField),
                }
            } else {
                Err(DecodeError::UnknownType)
            }
        },
    }
}

/// The message that a frame holds.
pub open spec fn decode_spec(text: Seq<char>) -> Result<MessageView, DecodeError> {
    match json_object_members(text) {
        None => Err(DecodeError::Malformed),
        Some(m) => decode_members_spec(m),
    }
}

/// The value of the first member named `key`.
fn member<'a>(members: &'a Vec<(String, JsonField)>, key: &str) -> (r: Option<&'a JsonField>)
    ensures
        match r {
            None => member_from(members_view(members@), key@, 0) is None,
            Some(f) => member_from(members_view(members@), key@, 0) == Some(f@),
        },
{
    let ghost mv = members_view(members@);
    let mut i: usize = 0;
    while i < members.len()
        invariant
            mv == members_view(members@),
            i <= members.len(),
            member_from(mv, key@, 0) == member_from(mv, key@, i as int),
        decreases members.len() - i,
    {
        if str_equal(members[i].0.as_str(), key) {
            return Some(&members[i].1);
        }
        i = i + 1;
    }
    None
}

/// The string held by member `key`, if it is one.
fn text_of(members: &Vec<(String, JsonField)>, key: &str) -> (r: Option<String>)
    ensures
        match r {
            None => text_member(members_view(members@), key@) is None,
            Some(s) => text_member(members_view(members@), key@) == Some(s@),
        },
{
    match member(members, key) {
        Some(JsonField::Text(s)) => Some(s.clone()),
        _ => None,
    }
}

/// The boolean held by member `key`, if it is one.
fn flag_of(members: &Vec<(String, JsonField)>, key: &str) -> (r: Option<bool>)
    ensures
        r == flag_member(members_view(members@), key@),
{
    match member(members, key) {
        Some(JsonField::Flag(b)) => Some(*b),
        _ => None,
    }
}

/// Reads a message from the members of a JSON object.
pub fn decode_members(members: &Vec<(String, JsonField)>) -> (r: Result<SignalingMessage, DecodeError>)
    ensures
        match r {
            Ok(msg) => decode_members_spec(members_view(members@)) == Ok::<MessageView, DecodeError>(msg@),
            Err(e) => decode_members_spec(members_view(members@)) == Err::<MessageView, DecodeError>(e),
        },
{
    let tag = match text_of(members, "type") {
        Some(t) => t,
        None => return Err(DecodeError::MissingType),
    };
    let sid = text_of(members, "session_id");
    if str_equal(tag.as_str(), "create-peer") {
        match (sid, text_of(members, "room_id")) {
            (Some(s), Some(room)) => Ok(SignalingMessage::CreatePeer { session_id: s, room_id: room }),
            _ => Err(DecodeError::MissingField),
        }
    } else if str_equal(tag.as_str(), "destroy-peer") {
        match sid {
            Some(s) => Ok(SignalingMessage::DestroyPeer { session_id: s }),
            None => Err(DecodeError::MissingField),
        }
    } else if str_equal(tag.as_str(), "peer-created") {
        match (sid, flag_of(members, "success")) {
            (Some(s), Some(b)) => Ok(SignalingMessage::PeerCreated { session_id: s, success: b }),
            _ => Err(DecodeError::MissingField),
        }
    } else if str_equal(tag.as_str(), "peer-destroyed") {
        match sid {
            Some(s) => Ok(SignalingMessage::PeerDestroyed { session_id: s }),
            None => Err(DecodeError::MissingField),
        }
    } else {
        Err(DecodeError::UnknownType)
    }
}

/// Reads a message from a text frame.
pub fn decode(text: &str) -> (r: Result<SignalingMessage, DecodeError>)
    ensures
        match r {
            Ok(msg) => decode_spec(text@) == Ok::<MessageView, DecodeError>(msg@),
            Err(e) => decode_spec(text@) == Err::<MessageView, DecodeError>(e),
        },
{
    match parse_object_members(text) {
        Some(members) => decode_members(&members),
        None => Err(DecodeError::Malformed),
    }
}

/// The frame for `m`, given the JSON literals of its session id and, for
/// `CreatePeer`, of its room id: members in the order `type`, `session_id`,
/// then `room_id` or `success`.
pub open spec fn frame_with(m: MessageView, quoted_session: Seq<char>, quoted_room: Seq<char>) -> Seq<
    char,
> {
    match m {
        MessageView::CreatePeer { .. } => "{\"type\":\"create-peer\",\"session_id\":"@ + quoted_session
            + ",\"room_id\":"@ + quoted_room + "}"@,
        MessageView::DestroyPeer { .. } => "{\"type\":\"destroy-peer\",\"session_id\":"@
            + quoted_session + "}"@,
        MessageView::PeerCreated { success, .. } => "{\"type\":\"peer-created\",\"session_id\":"@
            + quoted_session + if success {
            ",\"success\":true}"@
        } else {
            ",\"success\":false}"@
        },
        MessageView::PeerDestroyed { .. } => "{\"type\":\"peer-destroyed\",\"session_id\":"@
            + quoted_session + "}"@,
    }
}

/// The session id that a message carries.
pub open spec fn session_of(m: MessageView) -> Seq<char> {
    match m {
        MessageView::CreatePeer { session_id, .. } => session_id,
        MessageView::DestroyPeer { session_id } => session_id,
        MessageView::PeerCreated { session_id, .. } => session_id,
        MessageView::PeerDestroyed { session_id } => session_id,
    }
}

/// The frame that encodes `m`.
pub open spec fn encode_spec(m: MessageView) -> Seq<char> {
    match m {
        MessageView::CreatePeer { session_id, room_id } => frame_with(
            m,
            json_string_literal(session_id),
            json_string_literal(room_id),
        ),
        _ => frame_with(m, json_string_literal(session_of(m)), Seq::empty()),
    }
}

/// Writes the frame for `m` around the JSON literals of its strings.
pub fn frame_message(m: &SignalingMessage, quoted_session: &str, quoted_room: &str) -> (r: String)
    ensures
        r@ == frame_with(m@, quoted_session@, quoted_room@),
{
    let mut out = match m {
        SignalingMessage::CreatePeer { .. } => String::from_str(
            "{\"type\":\"create-peer\",\"session_id\":",
        ),
        SignalingMessage::DestroyPeer { .. } => String::from_str(
            "{\"type\":\"destroy-peer\",\"session_id\":",
        ),
        SignalingMessage::PeerCreated { .. } => String::from_str(
            "{\"type\":\"peer-created\",\"session_id\":",
        ),
        SignalingMessage::PeerDestroyed { .. } => String::from_str(
            "{\"type\":\"peer-destroyed\",\"session_id\":",
        ),
    };
    out.append(quoted_session);
    match m {
        SignalingMessage::CreatePeer { .. } => {
            out.append(",\"room_id\":");
            out.append(quoted_room);
            out.append("}");
        },
        SignalingMessage::PeerCreated { success, .. } => {
            if *success {
                out.append(",\"success\":true}");
            } else {
                out.append(",\"success\":false}");
            }
        },
        _ => {
            out.append("}");
        },
    }
    out
}

/// Writes the frame for `m`.
pub fn encode(m: &SignalingMessage) -> (r: String)
    ensures
        r@ == encode_spec(m@),
{
    match m {
        SignalingMessage::CreatePeer { session_id, room_id } => {
            let qs = quote_json_string(session_id.as_str());
            let qr = quote_json_string(room_id.as_str());
            frame_message(m, qs.as_str(), qr.as_str())
        },
        SignalingMessage::DestroyPeer { session_id } | SignalingMessage::PeerCreated {
            session_id,
            ..
        } | SignalingMessage::PeerDestroyed { session_id } => {
            let qs = quote_json_string(session_id.as_str());
            frame_message(m, qs.as_str(), "")
        },
    }
}

} // verus!
