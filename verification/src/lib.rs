//! Session authority and cancellation registry of a local request agent.
//!
//! The agent keeps one pairing passcode, one session token and one
//! registration key, each replaced as a whole when it is set again, and a
//! registry of cancellation handles keyed by request identifier. Every
//! operation on that state carries a contract over the state's view, and the
//! laws that relate the operations are proved beside it.

pub mod clock;
pub mod laws;
pub mod model;
pub mod registry;
pub mod request;
pub mod state;
pub mod text;
