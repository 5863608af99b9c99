//! Audio capture engine and helper-process supervision for a desktop
//! recording tool: the decisions, encodings and state machines, with their
//! contracts. The platform work (audio endpoints, files, processes, threads)
//! is done by the caller, which hands the results back as plain values.

pub mod errors;
pub mod device;
pub mod capture;
pub mod wav;
pub mod recording;
pub mod continuous;
pub mod helpers;
pub mod supervisor;
pub mod flag;
pub mod transcripts;
