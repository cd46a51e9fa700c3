//! The claim status and the guard on the start of a reward-claim cycle.

use vstd::prelude::*;

use crate::amount::Amount;
use crate::error::DelegationError;

verus! {

/// Where the reward-claim cycle stands.
#[derive(Clone, Copy, Debug, PartialEq, Eq, Structural)]
pub enum ClaimStatusType {
    /// No cycle has started.
    Idle,
    /// A cycle is in progress.
    Pending,
    /// Rewards are claimed; redelegation is still to come.
    Finished,
    /// The cycle is closed; a new one may begin.
    Redelegated,
}

/// The process-wide record of the claim cycle.
#[derive(Clone, Debug, PartialEq, Eq)]
pub struct ClaimStatus {
    pub status: ClaimStatusType,
    pub last_claim_epoch: u64,
    pub current_iteration: usize,
    /// The pool's reserve when the cycle started.
    pub starting_token_reserve: Amount,
}

/// A claim status with its reserve as a number.
pub struct ClaimStatusView {
    pub status: ClaimStatusType,
    pub last_claim_epoch: u64,
    pub current_iteration: usize,
    pub starting_token_reserve: nat,
}

impl View for ClaimStatus {
    type V = ClaimStatusView;

    open spec fn view(&self) -> ClaimStatusView {
        ClaimStatusView {
            status: self.status,
            last_claim_epoch: self.last_claim_epoch,
            current_iteration: self.current_iteration,
            starting_token_reserve: self.starting_token_reserve@,
        }
    }
}

/// The status before any cycle: `Idle`, epoch 0, iteration 1, reserve 0.
pub open spec fn initial_claim_status() -> ClaimStatusView {
    ClaimStatusView {
        status: ClaimStatusType::Idle,
        last_claim_epoch: 0,
        current_iteration: 1,
        starting_token_reserve: 0,
    }
}

impl Default for ClaimStatus {
    fn default() -> (r: ClaimStatus)
        ensures
            r@ == initial_claim_status(),
    {
        ClaimStatus {
            status: ClaimStatusType::Idle,
            last_claim_epoch: 0,
            current_iteration: 1,
            starting_token_reserve: Amount::zero(),
        }
    }
}

/// The error with which a claim cycle is refused to start, checked in this
/// order, or `None` when it may start: the draft must be `Idle` or `Pending`,
/// the persisted cycle must be `Redelegated`, and the epoch must be past the
/// persisted epoch of the last claim.
pub open spec fn claim_start_error(
    draft: ClaimStatusType,
    persisted: ClaimStatusView,
    epoch: u64,
) -> Option<DelegationError> {
    if draft != ClaimStatusType::Idle && draft != ClaimStatusType::Pending {
        Some(DelegationError::InvalidDraftState)
    } else if persisted.status != ClaimStatusType::Redelegated {
        Some(DelegationError::CycleNotClosed)
    } else if epoch <= persisted.last_claim_epoch {
        Some(DelegationError::EpochNotAdvanced)
    } else {
        None
    }
}

/// The draft once a cycle is allowed to start: an `Idle` draft becomes
/// `Pending` at `epoch` with the reserve snapshot `reserve`; a `Pending`
/// draft is kept as it is.
pub open spec fn started_claim(draft: ClaimStatusView, epoch: u64, reserve: nat) -> ClaimStatusView {
    if draft.status == ClaimStatusType::Idle {
        ClaimStatusView {
            status: ClaimStatusType::Pending,
            last_claim_epoch: epoch,
            starting_token_reserve: reserve,
            ..draft
        }
    } else {
        draft
    }
}

/// Decides whether a claim cycle may start from the draft `draft`, given the
/// persisted status `persisted`, the current epoch and the pool's current
/// reserve. Returns the draft, upgraded to `Pending` where it was `Idle`.
pub fn evaluate_claim_start(
    draft: ClaimStatus,
    persisted: &ClaimStatus,
    current_epoch: u64,
    current_reserve: Amount,
) -> (r: Result<ClaimStatus, DelegationError>)
    ensures
        r.is_ok() <==> claim_start_error(draft.status, persisted@, current_epoch).is_none(),
        r matches Ok(s) ==> s@ == started_claim(draft@, current_epoch, current_reserve@),
        r matches Err(e) ==> Some(e) == claim_start_error(draft.status, persisted@, current_epoch),
{
    if draft.status != ClaimStatusType::Idle && draft.status != ClaimStatusType::Pending {
        return Err(DelegationError::InvalidDraftState);
    }
    if persisted.status != ClaimStatusType::Redelegated {
        return Err(DelegationError::CycleNotClosed);
    }
    if current_epoch <= persisted.last_claim_epoch {
        return Err(DelegationError::EpochNotAdvanced);
    }
    let mut draft = draft;
    if draft.status == ClaimStatusType::Idle {
        draft.status = ClaimStatusType::Pending;
        draft.last_claim_epoch = current_epoch;
        draft.starting_token_reserve = current_reserve;
    }
    Ok(draft)
}

} // verus!
