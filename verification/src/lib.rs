//! Supervisory monitor for a mining rig hosted in a virtual machine.
//!
//! The library decides when a worker reported by a pool API has gone stale
//! and drives a graceful-then-forced restart of the virtual machine hosting
//! it. All I/O (the HTTP request, the virtualization commands, the sleeps)
//! is left to the surrounding program; the library parses the API body,
//! computes staleness against a caller-supplied clock, and steps the restart
//! state machine.

pub mod config;
pub mod errors;
pub mod heartbeat;
pub mod json;
pub mod machine;
pub mod status;
pub mod supervisor;
pub mod time;
