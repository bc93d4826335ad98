use vstd::prelude::*;

verus! {

/// A delayed one-shot job: the embedder runs the job's work once the
/// delay has elapsed, on its own scheduler.
pub struct Job {
    pub delay_seconds: u64,
}

impl Job {
    /// A job to be run after the given delay.
    pub fn new(delay_seconds: u64) -> (r: Job)
        ensures
            r.delay_seconds == delay_seconds,
    {
        Job { delay_seconds }
    }
}

} // verus!
