//! The logic of a small code-execution service: a shared slot holding the
//! last submitted code, the decisions of the `/run` endpoint, and the
//! per-connection WebSocket state machine. Network and process I/O are left
//! to the caller, which hands plain values in and carries the decisions out.

pub mod store;
pub mod text;
pub mod run;
pub mod session;
