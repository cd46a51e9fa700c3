//! The errors that the registry and the claim state machine report.

use vstd::prelude::*;

verus! {

/// Why an operation on the registry or on the claim status was refused.
#[derive(Clone, Copy, Debug, PartialEq, Eq, Structural)]
pub enum DelegationError {
    /// The address is already whitelisted.
    AlreadyRegistered,
    /// The address is not whitelisted.
    NotRegistered,
    /// A claim may only start from a draft whose status is `Idle` or `Pending`.
    InvalidDraftState,
    /// The previous claim cycle has not reached `Redelegated`.
    CycleNotClosed,
    /// The epoch is not past the epoch of the last claim.
    EpochNotAdvanced,
    /// There is no delegation contract to hand out.
    EmptyRegistry,
}

} // verus!
