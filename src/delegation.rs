//! The registry of delegation contracts, the round-robin allocator over it,
//! and the persisted claim status.

use vstd::prelude::*;

use crate::address::Address;
use crate::allocator::next_cursor;
use crate::amount::Amount;
use crate::claim::{
    claim_start_error, evaluate_claim_start, initial_claim_status, started_claim, ClaimStatus,
    ClaimStatusType, ClaimStatusView,
};
use crate::error::DelegationError;

verus! {

/// What the pool knows of one delegation contract.
#[derive(Clone, Debug, PartialEq, Eq)]
pub struct DelegationContractData {
    pub total_staked: Amount,
    pub delegation_contract_cap: u64,
    pub nr_nodes: u64,
    pub apy: u64,
    /// What this pool has staked with the contract.
    pub total_staked_from_ls_contract: Amount,
    /// What this pool has undelegated from the contract.
    pub total_undelegated_from_ls_contract: Amount,
}

/// A contract's data with its amounts as numbers.
pub struct DelegationContractDataView {
    pub total_staked: nat,
    pub delegation_contract_cap: u64,
    pub nr_nodes: u64,
    pub apy: u64,
    pub total_staked_from_ls_contract: nat,
    pub total_undelegated_from_ls_contract: nat,
}

impl View for DelegationContractData {
    type V = DelegationContractDataView;

    open spec fn view(&self) -> DelegationContractDataView {
        DelegationContractDataView {
            total_staked: self.total_staked@,
            delegation_contract_cap: self.delegation_contract_cap,
            nr_nodes: self.nr_nodes,
            apy: self.apy,
            total_staked_from_ls_contract: self.total_staked_from_ls_contract@,
            total_undelegated_from_ls_contract: self.total_undelegated_from_ls_contract@,
        }
    }
}

/// The data of a newly whitelisted contract: the given parameters, and
/// nothing staked or undelegated by the pool yet.
pub open spec fn whitelisted_data(
    total_staked: nat,
    delegation_contract_cap: u64,
    nr_nodes: u64,
    apy: u64,
) -> DelegationContractDataView {
    DelegationContractDataView {
        total_staked,
        delegation_contract_cap,
        nr_nodes,
        apy,
        total_staked_from_ls_contract: 0,
        total_undelegated_from_ls_contract: 0,
    }
}

/// The data of a contract after its parameters are replaced: the pool's
/// own counters are carried over from `old`.
pub open spec fn updated_data(
    old: DelegationContractDataView,
    total_staked: nat,
    delegation_contract_cap: u64,
    nr_nodes: u64,
    apy: u64,
) -> DelegationContractDataView {
    DelegationContractDataView {
        total_staked,
        delegation_contract_cap,
        nr_nodes,
        apy,
        total_staked_from_ls_contract: old.total_staked_from_ls_contract,
        total_undelegated_from_ls_contract: old.total_undelegated_from_ls_contract,
    }
}

/// The state of the delegation module: the whitelisted contracts in the
/// order of their registration with the data of each, the round-robin
/// cursor, and the persisted claim status.
pub struct DelegationModule {
    addresses: Vec<Address>,
    contracts: Vec<DelegationContractData>,
    last_index: usize,
    claim_status: ClaimStatus,
}

impl DelegationModule {
    /// The whitelisted addresses, in the order of registration.
    pub closed spec fn address_list(&self) -> Seq<Seq<u8>> {
        self.addresses@.map_values(|a: Address| a@)
    }

    /// The data of the whitelisted contracts, in the same order.
    pub closed spec fn contract_list(&self) -> Seq<DelegationContractDataView> {
        self.contracts@.map_values(|d: DelegationContractData| d@)
    }

    /// The 1-based position of the contract handed out last, 0 before any.
    pub closed spec fn cursor(&self) -> nat {
        self.last_index as nat
    }

    /// The persisted claim status.
    pub closed spec fn claim(&self) -> ClaimStatusView {
        self.claim_status@
    }

    /// Each address has one record, no address is whitelisted twice, and the
    /// cursor is within the list.
    pub open spec fn wf(&self) -> bool {
        &&& self.contract_list().len() == self.address_list().len()
        &&& self.address_list().no_duplicates()
        &&& self.cursor() <= self.address_list().len()
    }

    /// An empty registry, the cursor at 0 and the initial claim status.
    pub fn new() -> (r: DelegationModule)
        ensures
            r.wf(),
            r.address_list() == Seq::<Seq<u8>>::empty(),
            r.contract_list() == Seq::<DelegationContractDataView>::empty(),
            r.cursor() == 0,
            r.claim() == initial_claim_status(),
    {
        let r = DelegationModule {
            addresses: Vec::new(),
            contracts: Vec::new(),
            last_index: 0,
            claim_status: ClaimStatus::default(),
        };
        proof {
            assert(r.address_list() =~= Seq::<Seq<u8>>::empty());
            assert(r.contract_list() =~= Seq::<DelegationContractDataView>::empty());
        }
        r
    }

    /// Whitelists the contract `contract_address` with the given parameters
    /// and nothing staked or undelegated by the pool; it goes to the end of
    /// the list. Fails with `AlreadyRegistered`, changing nothing, where the
    /// address is whitelisted already.
    pub fn whitelist_delegation_contract(
        &mut self,
        contract_address: Address,
        total_staked: Amount,
        delegation_contract_cap: u64,
        nr_nodes: u64,
        apy: u64,
    ) -> (r: Result<(), DelegationError>)
        requires
            old(self).wf(),
        ensures
            final(self).wf(),
            r.is_ok() <==> !old(self).address_list().contains(contract_address@),
            r matches Err(e) ==> e == DelegationError::AlreadyRegistered,
            r.is_ok() ==> final(self).address_list() == old(self).address_list().push(
                contract_address@,
            ),
            r.is_ok() ==> final(self).contract_list() == old(self).contract_list().push(
                whitelisted_data(total_staked@, delegation_contract_cap, nr_nodes, apy),
            ),
            r.is_err() ==> final(self).address_list() == old(self).address_list(),
            r.is_err() ==> final(self).contract_list() == old(self).contract_list(),
            final(self).cursor() == old(self).cursor(),
            final(self).claim() == old(self).claim(),
    {
        if self.position_of(&contract_address).is_some() {
            return Err(DelegationError::AlreadyRegistered);
        }
        let contract_data = DelegationContractData {
            total_staked,
            delegation_contract_cap,
            nr_nodes,
            apy,
            total_staked_from_ls_contract: Amount::zero(),
            total_undelegated_from_ls_contract: Amount::zero(),
        };
        self.contracts.push(contract_data);
        self.addresses.push(contract_address);
        proof {
            assert(self.address_list() =~= old(self).address_list().push(contract_address@));
            assert(self.contract_list() =~= old(self).contract_list().push(
                whitelisted_data(total_staked@, delegation_contract_cap, nr_nodes, apy),
            ));
        }
        Ok(())
    }

    /// Hands out the next contract in round-robin order: the one after the
    /// contract handed out last, or the first once the end of the list is
    /// reached, and moves the cursor there. Fails with `EmptyRegistry`,
    /// changing nothing, where no contract is whitelisted.
    pub fn get_next_delegation_contract(&mut self) -> (r: Result<Address, DelegationError>)
        requires
            old(self).wf(),
        ensures
            final(self).wf(),
            r.is_err() <==> old(self).address_list().len() == 0,
            r matches Err(e) ==> e == DelegationError::EmptyRegistry,
            r.is_err() ==> final(self).cursor() == old(self).cursor(),
            r.is_ok() ==> final(self).cursor() == next_cursor(
                old(self).cursor(),
                old(self).address_list().len(),
            ),
            old(self).address_list().len() > 0 && old(self).cursor() == old(
                self,
            ).address_list().len() ==> final(self).cursor() == 1,
            r matches Ok(a) ==> a@ == old(self).address_list()[final(self).cursor() - 1],
            final(self).address_list() == old(self).address_list(),
            final(self).contract_list() == old(self).contract_list(),
            final(self).claim() == old(self).claim(),
    {
        let len = self.addresses.len();
        if len == 0 {
            return Err(DelegationError::EmptyRegistry);
        }
        let new_index: usize = if self.last_index >= len {
            1
        } else {
            self.last_index + 1
        };
        self.last_index = new_index;
        Ok(self.addresses[new_index - 1])
    }

    /// Decides whether a claim cycle may start from the draft status
    /// `new_claim_status` at epoch `current_epoch`, against the persisted
    /// claim status. `current_reserve` is the pool's reserve now. On success
    /// returns the draft to persist once the claim operation is done: an
    /// `Idle` draft becomes `Pending` at `current_epoch` with that reserve
    /// as its starting reserve, a `Pending` one comes back unchanged.
    pub fn can_proceed_claim_operation(
        &self,
        new_claim_status: ClaimStatus,
        current_epoch: u64,
        current_reserve: Amount,
    ) -> (r: Result<ClaimStatus, DelegationError>)
        ensures
            r.is_ok() <==> claim_start_error(new_claim_status.status, self.claim(), current_epoch).is_none(),
            r matches Ok(s) ==> s@ == started_claim(new_claim_status@, current_epoch, current_reserve@),
            r matches Err(e) ==> Some(e) == claim_start_error(
                new_claim_status.status,
                self.claim(),
                current_epoch,
            ),
            new_claim_status.status == ClaimStatusType::Idle && self.claim().status
                == ClaimStatusType::Redelegated && current_epoch > self.claim().last_claim_epoch
                ==> (r matches Ok(s) && s.status == ClaimStatusType::Pending && s.last_claim_epoch
                == current_epoch && s.current_iteration == new_claim_status.current_iteration
                && s.starting_token_reserve@ == current_reserve@),
            new_claim_status.status == ClaimStatusType::Pending && self.claim().status
                == ClaimStatusType::Redelegated && current_epoch > self.claim().last_claim_epoch
                ==> (r matches Ok(s) && s@ == new_claim_status@),
            (new_claim_status.status == ClaimStatusType::Idle || new_claim_status.status
                == ClaimStatusType::Pending) && self.claim().status == ClaimStatusType::Redelegated
                && current_epoch <= self.claim().last_claim_epoch ==> (r matches Err(e) && e
                == DelegationError::EpochNotAdvanced),
            (new_claim_status.status == ClaimStatusType::Idle || new_claim_status.status
                == ClaimStatusType::Pending) && self.claim().status != ClaimStatusType::Redelegated
                ==> (r matches Err(e) && e == DelegationError::CycleNotClosed),
    {
        evaluate_claim_start(new_claim_status, &self.claim_status, current_epoch, current_reserve)
    }

    /// Replaces the persisted claim status.
    pub fn set_delegation_claim_status(&mut self, claim_status: ClaimStatus)
        requires
            old(self).wf(),
        ensures
            final(self).wf(),
            final(self).claim() == claim_status@,
            final(self).address_list() == old(self).address_list(),
            final(self).contract_list() == old(self).contract_list(),
            final(self).cursor() == old(self).cursor(),
    {
        self.claim_status = claim_status;
    }

    /// Replaces the parameters of the whitelisted contract `contract_address`
    /// and keeps what the pool has staked with it and undelegated from it.
    /// Fails with `NotRegistered`, changing nothing, where the address is not
    /// whitelisted.
    pub fn change_delegation_contract_params(
        &mut self,
        contract_address: &Address,
        total_staked: Amount,
        delegation_contract_cap: u64,
        nr_nodes: u64,
        apy: u64,
    ) -> (r: Result<(), DelegationError>)
        requires
            old(self).wf(),
        ensures
            final(self).wf(),
            r.is_ok() <==> old(self).address_list().contains(contract_address@),
            r matches Err(e) ==> e == DelegationError::NotRegistered,
            final(self).address_list() == old(self).address_list(),
            final(self).contract_list().len() == old(self).contract_list().len(),
            forall|i: int|
                0 <= i < old(self).contract_list().len() ==> #[trigger] final(self).contract_list()[i]
                    == if old(self).address_list()[i] == contract_address@ {
                    updated_data(
                        old(self).contract_list()[i],
                        total_staked@,
                        delegation_contract_cap,
                        nr_nodes,
                        apy,
                    )
                } else {
                    old(self).contract_list()[i]
                },
            forall|i: int|
                0 <= i < old(self).contract_list().len() ==> {
                    &&& #[trigger] final(self).contract_list()[i].total_staked_from_ls_contract
                        == old(self).contract_list()[i].total_staked_from_ls_contract
                    &&& final(self).contract_list()[i].total_undelegated_from_ls_contract
                        == old(self).contract_list()[i].total_undelegated_from_ls_contract
                },
            final(self).cursor() == old(self).cursor(),
            final(self).claim() == old(self).claim(),
    {
        let index = match self.position_of(contract_address) {
            Some(i) => i,
            None => {
                return Err(DelegationError::NotRegistered);
            },
        };
        let old_contract_data = self.contracts.remove(index);
        let new_contract_data = DelegationContractData {
            total_staked,
            delegation_contract_cap,
            nr_nodes,
            apy,
            total_staked_from_ls_contract: old_contract_data.total_staked_from_ls_contract,
            total_undelegated_from_ls_contract: old_contract_data.total_undelegated_from_ls_contract,
        };
        self.contracts.insert(index, new_contract_data);
        proof {
            let old_list = old(self).contract_list();
            assert forall|i: int| 0 <= i < old_list.len() implies #[trigger] self.contract_list()[i]
                == if old(self).address_list()[i] == contract_address@ {
                updated_data(old_list[i], total_staked@, delegation_contract_cap, nr_nodes, apy)
            } else {
                old_list[i]
            } by {
                if i != index {
                    assert(old(self).address_list()[i] != old(self).address_list()[index as int]);
                }
            }
        }
        Ok(())
    }

    /// The whitelisted addresses, in the order of registration.
    pub fn delegation_addresses_list(&self) -> (r: &Vec<Address>)
        ensures
            r@.map_values(|a: Address| a@) == self.address_list(),
    {
        &self.addresses
    }

    /// The data of the contract `contract_address`, if it is whitelisted.
    pub fn delegation_address(&self, contract_address: &Address) -> (r: Option<
        &DelegationContractData,
    >)
        requires
            self.wf(),
        ensures
            r is Some <==> self.address_list().contains(contract_address@),
            forall|i: int|
                0 <= i < self.address_list().len() && self.address_list()[i] == contract_address@
                    ==> r is Some && r.unwrap()@ == #[trigger] self.contract_list()[i],
    {
        match self.position_of(contract_address) {
            Some(i) => {
                proof {
                    assert forall|j: int|
                        0 <= j < self.address_list().len() && self.address_list()[j]
                            == contract_address@ implies j == i by {
                        if j != i {
                            assert(self.address_list()[j] != self.address_list()[i as int]);
                        }
                    }
                    assert(self.contracts@[i as int]@ == self.contract_list()[i as int]);
                }
                Some(&self.contracts[i])
            },
            None => None,
        }
    }

    /// The persisted claim status.
    pub fn delegation_claim_status(&self) -> (r: &ClaimStatus)
        ensures
            r@ == self.claim(),
    {
        &self.claim_status
    }

    /// The 1-based position of the contract handed out last, 0 before any.
    pub fn delegation_addresses_last_index(&self) -> (r: usize)
        ensures
            r == self.cursor(),
    {
        self.last_index
    }

    /// The index of `contract_address` in the list, if it is whitelisted.
    fn position_of(&self, contract_address: &Address) -> (r: Option<usize>)
        requires
            self.wf(),
        ensures
            r matches Some(i) ==> i < self.address_list().len() && self.address_list()[i as int]
                == contract_address@,
            r is None ==> !self.address_list().contains(contract_address@),
    {
        let mut i: usize = 0;
        while i < self.addresses.len()
            invariant
                0 <= i <= self.addresses@.len(),
                self.address_list().len() == self.addresses@.len(),
                forall|j: int| 0 <= j < i ==> self.address_list()[j] != contract_address@,
            decreases self.addresses@.len() - i,
        {
            if self.addresses[i] == *contract_address {
                return Some(i);
            }
            i += 1;
        }
        None
    }
}

} // verus!
