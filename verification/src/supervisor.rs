use vstd::prelude::*;

use crate::errors::ServerError;

verus! {

/// What one polling cycle does once the fetch result is in.
#[derive(Clone, Copy, Debug, PartialEq, Eq, Structural)]
pub enum CycleDecision {
    /// The worker is online: nothing to do this cycle.
    LeaveRunning,
    /// The fetch succeeded and reports the worker offline: restart the
    /// machine.
    RestartMachine,
    /// The fetch failed: report the failure and skip the restart this
    /// cycle.
    SkipAfterError,
}

/// The cycle policy: only a successful fetch that reports the worker
/// offline triggers a restart; a fetch failure never does.
pub open spec fn decision_of(status: Result<bool, ServerError>) -> CycleDecision {
    match status {
        Ok(online) => if online {
            CycleDecision::LeaveRunning
        } else {
            CycleDecision::RestartMachine
        },
        Err(_) => CycleDecision::SkipAfterError,
    }
}

/// Decide the cycle's action from the fetch outcome.
pub fn decide_cycle(status: &Result<bool, ServerError>) -> (d: CycleDecision)
    ensures
        d == decision_of(*status),
{
    match status {
        Ok(online) => if *online {
            CycleDecision::LeaveRunning
        } else {
            CycleDecision::RestartMachine
        },
        Err(_) => CycleDecision::SkipAfterError,
    }
}

} // verus!
