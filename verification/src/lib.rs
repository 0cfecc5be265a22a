//! Lifecycle orchestration for an ephemeral local database-server cluster:
//! provisioning and ownership of its working directory, the ordered sequence
//! of administrative and server process launches, readiness detection on
//! server output, the exclusive controlling activity, signal-driven
//! interruption, and the cleanup policy for the directory.
//!
//! The library holds the decisions; everything it decides over — what is on
//! disk, how spawns and waits ended, which signals arrived — reaches it as
//! plain values, and the filesystem and process work itself is done by the
//! caller between steps of the [`orchestrator`] state machine.

pub mod args;
pub mod cleanup;
pub mod commands;
pub mod config;
pub mod errors;
pub mod numfmt;
pub mod orchestrator;
pub mod provision;
pub mod ready;
