//! Supervision core for a single long-lived local backend service process.
//!
//! The library decides whether a compatible backend is already running,
//! which port and command a new one should be launched with, when a launched
//! instance counts as ready, and how the owned-process record changes under
//! start, stop and status requests. All I/O (probing, spawning, file access)
//! is performed by the embedding application, which feeds its observations
//! into the verified decision functions defined here.

pub mod decimal;
pub mod discovery;
mod jsonio;
pub mod launcher;
pub mod logscan;
pub mod ports;
pub mod readiness;
pub mod stager;
pub mod supervisor;
pub mod text;
pub mod token;
