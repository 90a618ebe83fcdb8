//! Core of a small process supervisor: bounded output logs, the per-process
//! supervision state machine, the registry of supervised processes and the
//! live output feed.

pub mod clock;
pub mod live;
pub mod log_buffer;
pub mod process;
pub mod registry;
