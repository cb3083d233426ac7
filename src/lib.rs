//! Supervision of a desktop application's backend sidecar process: decide at
//! startup whether a backend must be launched, own the one launched process,
//! and hand it out for termination exactly once, however many lifecycle
//! events ask for shutdown.

pub mod lifecycle;
pub mod supervisor;
