//! A job-execution broker: a server routes user work to compute clients,
//! which run it behind a script-safety catalog; both sides track each unit of
//! work through one shared state machine.
use vstd::prelude::*;

pub mod client;
pub mod config;
pub mod dto;
pub mod filename;
pub mod job;
pub mod queue;
pub mod status;
pub mod tasks;
pub mod text;
pub mod transfer;

verus! {

} // verus!
