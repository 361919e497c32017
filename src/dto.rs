use vstd::prelude::*;

verus! {

/// The answer of the health check.
#[derive(Debug)]
pub struct Health {
    pub status: String,
    pub database: String,
}

/// The answer of the liveness check.
#[derive(Debug)]
pub struct Ping {
    pub message: String,
}

} // verus!
