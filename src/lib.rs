//! Lifecycle of conversational agent sessions: the session entity and its
//! state machine, creation, the start transition, prompt assembly, the
//! liveness heartbeat and the inactivity reaper, and a registry of sessions.
pub mod backend;
mod clock;
pub mod creation;
pub mod inference;
pub mod manager;
pub mod prompt;
pub mod reaper;
pub mod registry;
pub mod session;
pub mod start;
