//! Session management for driving the text console of another process.
//!
//! A console binding is exclusive and process-wide, so every console
//! operation is routed through one owner: the [`session::SessionManager`].
//! The manager never performs an operation itself. It is a transition system:
//! it is told what happened last and answers with the events to publish and
//! the one thing to do next. Whoever drives it performs that action, one at a
//! time, and reports the outcome.
pub mod text;
pub mod differ;
pub mod protocol;
pub mod session;
pub mod laws;
pub mod console;
pub mod worker;
pub mod client;
pub mod keys;
pub mod process;
