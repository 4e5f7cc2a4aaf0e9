//! Verified core of a small request/response IPC library: the wire protocol's
//! envelopes and their validation, length-prefixed framing, and the decisions
//! that the client and server runtimes take around each exchange.
pub mod api;
pub mod codec;
pub mod protocol;
pub mod runtime;
pub mod text;

pub use api::{CallOptions, Error, IpcAddress, RequestContext, ServiceError};
