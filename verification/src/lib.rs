//! Server-side implementation of the Debug Adapter Protocol (DAP): a typed
//! codec for the JSON wire format, HTTP-style framing, and the pure decision
//! logic of a per-connection reactor.

pub mod error;
pub mod event;
pub mod frame;
pub mod json;
pub mod models;
pub mod protocol;
pub mod reactor;
pub mod request;
pub mod response;
pub mod types;
pub mod utils;
