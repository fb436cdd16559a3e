//! Call-lifecycle state machine for a peer-to-peer calling library.
//!
//! For a single call, identified by a [`types::CallId`], this crate tracks the
//! progression from initiation through ICE negotiation to an active session
//! and eventual teardown, including transient network loss and reconnection.
//! The state machine performs no I/O itself: given the current call state and
//! an event, it either computes the successor state together with the
//! side-effect directives that collaborators must execute, or rejects the
//! event as illegal and leaves the call record unchanged.

pub mod laws;
pub mod machine;
pub mod table;
pub mod types;
