//! Lifecycle and socket-protection bridge between a host runtime and a
//! mesh-networking engine.
//!
//! The engine itself, the configuration loader and the host callback are
//! collaborators that live outside this library. Every decision the bridge
//! makes is a verified function from the bridge's state and the outcome of
//! the last outside step to the next state and the next outside step.

pub mod ident;
pub mod ledger;
pub mod bridge;
pub mod status;
