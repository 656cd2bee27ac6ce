//! A signaling relay between a backend control process and browsers: session
//! bookkeeping, the control-message codec, and the liveness state machine of
//! the single control connection.
pub mod codec;
pub mod reconnect;
pub mod registry;
pub mod state;

pub use codec::{decode, decode_members, encode, frame_message, DecodeError, JsonField, SignalingMessage};
pub use reconnect::{
    ConnectionState, ReconnectInfo, CONNECTION_TIMEOUT_SECS, HEARTBEAT_INTERVAL_SECS,
    INITIAL_RECONNECT_DELAY_MS, MAX_RECONNECT_ATTEMPTS, MAX_RECONNECT_DELAY_MS,
};
pub use registry::{SessionInfo, SessionRegistry};
pub use state::{
    episode_outcome, handle_signaling_message, on_decoded_frame, on_inbound_event,
    ConnectionResult, ConnectionStatus, Duty, InboundAction, InboundEvent, SignalingState,
};
