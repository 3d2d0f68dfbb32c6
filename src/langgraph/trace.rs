use vstd::prelude::*;
use std::time::Instant;

verus! {

/// A point in time, from the monotonic clock.
#[verifier::external_type_specification]
#[verifier::external_body]
pub struct ExInstant(Instant);

/// Relies on `Instant::now`: the current time; nothing is known of its value.
#[verifier::external_body]
fn now() -> (r: Instant) {
    Instant::now()
}

/// One executed node of a run.
#[derive(Debug)]
pub struct TraceStep {
    pub node: String,
    pub timestamp: Instant,
    pub duration_ms: u64,
}

/// Executed nodes of a run, in order.
#[derive(Debug)]
pub struct ExecutionTrace {
    pub steps: Vec<TraceStep>,
}

impl ExecutionTrace {
    pub fn new() -> (r: Self)
        ensures
            r.steps@.len() == 0,
    {
        ExecutionTrace { steps: Vec::new() }
    }

    /// Records that `node` ran for `duration_ms`, stamped with the current time.
    pub fn add_step(&mut self, node: String, duration_ms: u64)
        ensures
            final(self).steps@.len() == old(self).steps@.len() + 1,
            final(self).steps@.drop_last() == old(self).steps@,
            final(self).steps@.last().node == node,
            final(self).steps@.last().duration_ms == duration_ms,
    {
        let timestamp = now();
        self.steps.push(TraceStep { node, timestamp, duration_ms });
        assert(self.steps@.drop_last() =~= old(self).steps@);
    }
}

impl Default for ExecutionTrace {
    fn default() -> (r: Self)
        ensures
            r.steps@.len() == 0,
    {
        ExecutionTrace::new()
    }
}

} // verus!
