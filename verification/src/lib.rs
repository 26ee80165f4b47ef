//! A JSON-RPC 2.0 front for a single light-client instance.
//!
//! The crate holds the decisions of the gateway: which requests are well
//! formed, which client operation a request asks for and with which
//! arguments, how the outcome of that operation is reported, and when a
//! client may be installed. It performs no I/O; the host that owns the
//! client runs the operations and hands back what came of them.

pub mod dispatch;
pub mod gateway;
pub mod hex;
pub mod hex_laws;
pub mod json;
pub mod laws;
pub mod lifecycle;
pub mod method;
pub mod method_laws;
pub mod params;
pub mod response;
pub mod text;
