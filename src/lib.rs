//! Serve a generic HTTP router over HTTP/3.
//!
//! `close` tells a graceful end of an HTTP/3 connection from a real
//! transport failure; `bridge` holds the decisions that carry one HTTP/3
//! request through the router and back, as a state machine that the
//! surrounding I/O loop drives; `laws` states what whole runs of it do.

pub mod bridge;
pub mod close;
pub mod laws;
