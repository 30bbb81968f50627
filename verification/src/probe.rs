//! Interpretation of the service manager's two status checks for the
//! target unit. The checks themselves run outside the library; they
//! hand in plain exit codes, with `None` standing for a check that
//! yielded no code or could not be executed at all.

use crate::state::ActiveStateEnum;
use crate::state::FailedStateEnum;
use vstd::prelude::*;

verus! {

/// The active state that an `is-active` check's exit code denotes:
/// only a definitive zero exit means `Active`; every other outcome,
/// an unrunnable check included, defaults pessimistically to
/// `Inactive`.
pub open spec fn spec_active_of_code(code: Option<i32>) -> ActiveStateEnum {
    if code == Some(0i32) {
        ActiveStateEnum::Active
    } else {
        ActiveStateEnum::Inactive
    }
}

/// The failed state that an `is-failed` check's exit code denotes:
/// only a definitive zero exit means `Failed`; every other outcome
/// defaults to `Normal`.
pub open spec fn spec_failed_of_code(code: Option<i32>) -> FailedStateEnum {
    if code == Some(0i32) {
        FailedStateEnum::Failed
    } else {
        FailedStateEnum::Normal
    }
}

/// Interpret the exit codes of the `is-active` and `is-failed` status
/// checks. An indeterminate check is never an error: it maps to the
/// pessimistic default of its field.
pub fn current_unit_state(active_code: Option<i32>, failed_code: Option<i32>) -> (r: (
    ActiveStateEnum,
    FailedStateEnum,
))
    ensures
        r.0 == spec_active_of_code(active_code),
        r.1 == spec_failed_of_code(failed_code),
{
    let active_state = match active_code {
        Some(0) => ActiveStateEnum::Active,
        _ => ActiveStateEnum::Inactive,
    };
    let failed_state = match failed_code {
        Some(0) => FailedStateEnum::Failed,
        _ => FailedStateEnum::Normal,
    };
    (active_state, failed_state)
}

} // verus!
