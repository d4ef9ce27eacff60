//! Progressive ad scoring over a bidirectional session.
//!
//! The library holds the protocol's logic: the deterministic scorer, the
//! server's per-session state machine, and the client's request, deadline and
//! buffering rules. Transport, timers and tasks are left to the caller.
pub mod model;
pub mod draws;
pub mod scoring;
pub mod server;
pub mod client;
