use vstd::prelude::*;

use crate::config::Config;
use crate::job::{Job, Payload};

verus! {

/// A batch of jobs loaded for one pass of a task loop, with the settings
/// that the pass runs under.
#[derive(Debug)]
pub struct Queue<'a> {
    pub jobs: Vec<Job>,
    pub config: &'a Config,
}

impl<'a> Queue<'a> {
    /// An empty batch under `config`.
    pub fn new(config: &'a Config) -> (r: Queue<'a>)
        ensures
            r.jobs@.len() == 0,
            r.config == config,
    {
        Queue { jobs: Vec::new(), config }
    }
}

/// A batch of payloads loaded for one pass of the runner, with the settings
/// that the pass runs under.
#[derive(Debug)]
pub struct PayloadQueue<'a> {
    pub jobs: Vec<Payload>,
    pub config: &'a Config,
}

impl<'a> PayloadQueue<'a> {
    /// An empty batch under `config`.
    pub fn new(config: &'a Config) -> (r: PayloadQueue<'a>)
        ensures
            r.jobs@.len() == 0,
            r.config == config,
    {
        PayloadQueue { jobs: Vec::new(), config }
    }
}

} // verus!
