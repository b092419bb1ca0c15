//! Core of a long-running connected chat service: the scheduled shutdown
//! coordinator, the messages it emits, the termination-signal model, and the
//! service configuration.
//!
//! The coordinator owns the single optional pending delayed-shutdown task.
//! Every operation on it is a pure transition from the old state to the new
//! state plus a description of the effects (tasks to abort, tasks to spawn,
//! whether to disconnect) that the surrounding runtime must perform. The
//! `laws` module proves the protocol's guarantees over whole histories of
//! such operations; `text` renders the exact progress messages; `avatar`
//! builds the one pure value of the profile commands, the data URL.

pub mod avatar;
pub mod config;
pub mod coordinator;
pub mod laws;
pub mod signal;
pub mod text;
