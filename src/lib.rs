//! A streaming client engine for a publish/subscribe market-data feed carried
//! as JSON text frames over one full-duplex socket.
//!
//! The library holds the decisions: how control requests are framed, how an
//! inbound text frame is classified, and the session state machine that
//! answers pings, dispatches data frames, and ends the receive loop on idle
//! silence, remote close or failure. Performing the I/O is left to the caller.
pub mod codec;
pub mod session;
pub mod laws;
pub mod endpoint;
pub mod content_error;

pub use codec::{
    assemble_request, build_auth, build_request, build_subscribe, build_unsubscribe, classify,
    is_acknowledgement_frame, kind_from_members, orderbook_topic, topic, FrameKind,
};
pub use content_error::GateIOContentError;
pub use endpoint::{address, endpoint, EndpointError, Feed, Network};
pub use session::{Dispatched, Inbound, Input, LoopEnd, Phase, Session, Step, POLL_INTERVAL_MS};
