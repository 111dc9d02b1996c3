use vstd::prelude::*;

verus! {

/// Classification of the readiness-probing effort after an attempt: the
/// service answered with a success status (`Ready`), it has not yet and
/// attempts remain (`Pending`), or every allowed attempt failed (`Timeout`).
#[derive(Clone, Copy, Debug, PartialEq, Eq, Structural)]
pub enum ReadinessOutcome {
    Ready,
    Pending { attempt: u32, max_attempts: u32 },
    Timeout,
}

/// What the outcome of one probe attempt must be: any success status ends
/// probing with `Ready`; a failure is `Pending` while attempts remain and
/// `Timeout` once the bound is reached. Transport errors, refused
/// connections and non-success statuses all count as failures here.
pub open spec fn classify_spec(attempt: u32, max_attempts: u32, success: bool) -> ReadinessOutcome {
    if success {
        ReadinessOutcome::Ready
    } else if attempt < max_attempts {
        ReadinessOutcome::Pending { attempt, max_attempts }
    } else {
        ReadinessOutcome::Timeout
    }
}

/// Classifies probe attempt number `attempt` (counted from one) out of
/// `max_attempts`, where `success` says whether the service answered with
/// a success (2xx) status.
pub fn classify_attempt(attempt: u32, max_attempts: u32, success: bool) -> (o: ReadinessOutcome)
    requires
        1 <= attempt <= max_attempts,
    ensures
        o == classify_spec(attempt, max_attempts, success),
{
    if success {
        ReadinessOutcome::Ready
    } else if attempt < max_attempts {
        ReadinessOutcome::Pending { attempt, max_attempts }
    } else {
        ReadinessOutcome::Timeout
    }
}

} // verus!
