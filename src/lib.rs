//! Supervision of a batch of per-folder transcription jobs: preflight
//! validation, the runner's state machine, the decisions of the supervisory
//! loop and the argument list handed to each job.

pub mod export;
pub mod job;
pub mod preflight;
pub mod runner;
pub mod script;
pub mod supervisor;
pub mod text;

