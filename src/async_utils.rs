use vstd::prelude::*;

verus! {

/// What a retry loop does after attempt `attempt` (counted from zero) failed.
#[derive(Debug, Clone, Copy, PartialEq, Eq, Structural)]
pub enum RetryStep {
    /// No retries left: the error is returned.
    GiveUp,
    /// Sleep for the delay at `delay` of the schedule (none when the
    /// schedule is empty), then make attempt `next`.
    Retry { delay: Option<usize>, next: usize },
}

/// The step after attempt `attempt` failed, with `retries` retries allowed
/// and a schedule of `delays` delays whose last one repeats once the
/// schedule is used up.
pub fn after_failure(attempt: usize, retries: usize, delays: usize) -> (r: RetryStep)
    ensures
        attempt >= retries ==> r == RetryStep::GiveUp,
        attempt < retries ==> r == (RetryStep::Retry {
            delay: if delays == 0 {
                None
            } else if attempt < delays {
                Some(attempt)
            } else {
                Some((delays - 1) as usize)
            },
            next: (attempt + 1) as usize,
        }),
{
    if attempt >= retries {
        return RetryStep::GiveUp;
    }
    let delay = if delays == 0 {
        None
    } else if attempt < delays {
        Some(attempt)
    } else {
        Some(delays - 1)
    };
    RetryStep::Retry { delay, next: attempt + 1 }
}

} // verus!
