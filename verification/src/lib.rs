//! Verified core of an HTTP gateway that fronts a cluster of application
//! workers speaking a framed, multiplexed RPC protocol.
//!
//! The crate holds the decisions of the request path: routing, header
//! mapping, the safe-retry state machine, the dispatcher that rebuilds an HTTP
//! response from backend frames, and the error taxonomy. Sockets, timers and
//! the connection pool stay with the caller, which feeds events in and acts
//! on what comes back.

pub mod dispatch;
pub mod error;
pub mod message;
pub mod perf;
pub mod retry;
pub mod route;
pub mod service;
pub mod wire;
