//! The in-memory model of the service unit's run state, and the two
//! mutations it ever undergoes: a user-initiated transition attempt and
//! an unconditional reconciliation overwrite.

use vstd::prelude::*;

verus! {

/// Whether the service unit is currently believed to be running.
#[derive(Clone, Copy, Debug, PartialEq, Eq, Structural)]
pub enum ActiveStateEnum {
    Inactive,
    Active,
}

/// Whether the service unit, or the last control attempt on it, is in
/// an error condition.
#[derive(Clone, Copy, Debug, PartialEq, Eq, Structural)]
pub enum FailedStateEnum {
    Failed,
    Normal,
}

impl ActiveStateEnum {
    /// True exactly on `Active`.
    pub fn is_active(&self) -> (r: bool)
        ensures
            r == (*self == ActiveStateEnum::Active),
    {
        match self {
            ActiveStateEnum::Active => true,
            ActiveStateEnum::Inactive => false,
        }
    }
}

/// The cached model of the service unit's state: the sole stateful
/// entity. Both fields are closed enums, so every value is valid.
#[derive(Clone, Copy, Debug, PartialEq, Eq, Structural)]
pub struct ServiceState {
    pub active: ActiveStateEnum,
    pub failed: FailedStateEnum,
}

/// The state left behind when a reconciliation overwrites `prior` with
/// the probed pair `(active, failed)`: the prior state plays no part.
pub open spec fn spec_synced(
    prior: ServiceState,
    active: ActiveStateEnum,
    failed: FailedStateEnum,
) -> ServiceState {
    ServiceState { active: active, failed: failed }
}

/// The state and reported outcome of a transition attempt towards
/// `desired` from state `prior`, where `success` is whether the
/// privileged request reported success. On success the state becomes
/// exactly `(desired, Normal)`; on failure `active` is untouched and
/// the failure is recorded.
pub open spec fn spec_transition(
    prior: ServiceState,
    desired: ActiveStateEnum,
    success: bool,
) -> (ServiceState, FailedStateEnum) {
    if success {
        (
            ServiceState { active: desired, failed: FailedStateEnum::Normal },
            FailedStateEnum::Normal,
        )
    } else {
        (
            ServiceState { active: prior.active, failed: FailedStateEnum::Failed },
            FailedStateEnum::Failed,
        )
    }
}

impl ServiceState {
    /// Construct with explicit initial values, normally the result of
    /// an initial probe.
    pub fn new(active_state: ActiveStateEnum, failed_state: FailedStateEnum) -> (s: Self)
        ensures
            s == (ServiceState { active: active_state, failed: failed_state }),
    {
        ServiceState { active: active_state, failed: failed_state }
    }

    /// Unconditional overwrite of both fields with a freshly probed
    /// pair. Used only by the reconciler; never attempts a transition
    /// and always succeeds.
    pub fn sync_state(&mut self, active_state: ActiveStateEnum, failed_state: FailedStateEnum)
        ensures
            *final(self) == spec_synced(*old(self), active_state, failed_state),
    {
        self.active = active_state;
        self.failed = failed_state;
    }

    /// Record the outcome of a privileged request to start (`desired ==
    /// Active`) or stop (`desired == Inactive`) the unit, where
    /// `success` is whether the request reported a zero exit status.
    /// Returns the resulting failed field, which the caller uses to
    /// decide whether the control must be reverted.
    pub fn change_state(&mut self, desired_state: ActiveStateEnum, success: bool) -> (r:
        FailedStateEnum)
        ensures
            *final(self) == spec_transition(*old(self), desired_state, success).0,
            r == spec_transition(*old(self), desired_state, success).1,
            r == final(self).failed,
    {
        if success {
            self.active = desired_state;
            self.failed = FailedStateEnum::Normal;
            FailedStateEnum::Normal
        } else {
            self.failed = FailedStateEnum::Failed;
            FailedStateEnum::Failed
        }
    }
}

/// Law: reconciliation is idempotent. Overwriting twice with the same
/// probed pair leaves exactly the state that one overwrite leaves.
pub proof fn lemma_sync_idempotent(
    prior: ServiceState,
    active: ActiveStateEnum,
    failed: FailedStateEnum,
)
    ensures
        spec_synced(spec_synced(prior, active, failed), active, failed) == spec_synced(
            prior,
            active,
            failed,
        ),
{
}

/// Law: reconciliation overwrites. After a sync with `(active, failed)`
/// the state equals that pair exactly, whatever stood before, a prior
/// failure included.
pub proof fn lemma_sync_overwrites(
    prior: ServiceState,
    active: ActiveStateEnum,
    failed: FailedStateEnum,
)
    ensures
        spec_synced(prior, active, failed) == (ServiceState { active: active, failed: failed }),
{
}

/// Law: a successful transition lands exactly on `(desired, Normal)`
/// and reports `Normal`, whatever the prior state was.
pub proof fn lemma_transition_success(prior: ServiceState, desired: ActiveStateEnum)
    ensures
        spec_transition(prior, desired, true).0 == (ServiceState {
            active: desired,
            failed: FailedStateEnum::Normal,
        }),
        spec_transition(prior, desired, true).1 == FailedStateEnum::Normal,
{
}

/// Law: a failed transition leaves `active` unchanged, records the
/// failure, and reports `Failed`, whatever was desired.
pub proof fn lemma_transition_failure(prior: ServiceState, desired: ActiveStateEnum)
    ensures
        spec_transition(prior, desired, false).0.active == prior.active,
        spec_transition(prior, desired, false).0.failed == FailedStateEnum::Failed,
        spec_transition(prior, desired, false).1 == FailedStateEnum::Failed,
{
}

} // verus!
