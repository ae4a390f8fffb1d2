use std::time::Instant;
use vstd::prelude::*;

verus! {

/// A point in time of the monotonic clock.
#[verifier::external_type_specification]
#[verifier::external_body]
pub struct ExInstant(Instant);

/// A pipeline once it has been started.
pub struct ActivePipeline {
    start_time: Instant,
}

impl ActivePipeline {
    /// Starting a running pipeline changes nothing.
    pub fn start(&mut self)
        ensures
            *final(self) == *old(self),
    {
    }

    /// Pausing changes nothing: no pause behaviour is defined.
    pub fn pause(&mut self)
        ensures
            *final(self) == *old(self),
    {
    }

    /// Ends the pipeline.
    pub fn kill(self) {
    }

    /// Always false: no running state is tracked.
    pub fn is_running(&self) -> (r: bool)
        ensures
            !r,
    {
        false
    }
}

} // verus!
