use liquid_staking::address::Address;
use liquid_staking::amount::Amount;
use liquid_staking::claim::{evaluate_claim_start, ClaimStatus, ClaimStatusType};
use liquid_staking::delegation::DelegationModule;
use liquid_staking::error::DelegationError;

fn addr(b: u8) -> Address {
    Address::from_bytes([b; 32])
}

fn module_with(n: u8) -> DelegationModule {
    let mut m = DelegationModule::new();
    for b in 1..=n {
        m.whitelist_delegation_contract(addr(b), Amount::from_u64(1000 * b as u64), 5000, 3, 800)
            .unwrap();
    }
    m
}

fn persisted(status: ClaimStatusType, epoch: u64) -> ClaimStatus {
    ClaimStatus {
        status,
        last_claim_epoch: epoch,
        current_iteration: 1,
        starting_token_reserve: Amount::from_u64(10),
    }
}

#[test]
fn round_robin_visits_each_once_in_order() {
    let mut m = module_with(3);
    assert_eq!(m.get_next_delegation_contract(), Ok(addr(1)));
    assert_eq!(m.get_next_delegation_contract(), Ok(addr(2)));
    assert_eq!(m.get_next_delegation_contract(), Ok(addr(3)));
    assert_eq!(m.get_next_delegation_contract(), Ok(addr(1)));
    assert_eq!(m.delegation_addresses_last_index(), 1);
}

#[test]
fn round_robin_single_target_repeats() {
    let mut m = module_with(1);
    assert_eq!(m.get_next_delegation_contract(), Ok(addr(1)));
    assert_eq!(m.get_next_delegation_contract(), Ok(addr(1)));
}

#[test]
fn cursor_wraps_at_end_of_list() {
    let mut m = module_with(2);
    m.get_next_delegation_contract().unwrap();
    m.get_next_delegation_contract().unwrap();
    assert_eq!(m.delegation_addresses_last_index(), 2);
    assert_eq!(m.get_next_delegation_contract(), Ok(addr(1)));
    assert_eq!(m.delegation_addresses_last_index(), 1);
}

#[test]
fn contract_added_after_wrap_is_reached() {
    let mut m = module_with(2);
    m.get_next_delegation_contract().unwrap();
    m.get_next_delegation_contract().unwrap();
    m.whitelist_delegation_contract(addr(9), Amount::zero(), 1, 1, 1).unwrap();
    assert_eq!(m.get_next_delegation_contract(), Ok(addr(9)));
    assert_eq!(m.get_next_delegation_contract(), Ok(addr(1)));
}

#[test]
fn empty_registry_hands_out_nothing() {
    let mut m = DelegationModule::new();
    assert_eq!(m.get_next_delegation_contract(), Err(DelegationError::EmptyRegistry));
    assert_eq!(m.delegation_addresses_last_index(), 0);
}

#[test]
fn whitelist_records_contract() {
    let m = module_with(2);
    assert_eq!(m.delegation_addresses_list(), &vec![addr(1), addr(2)]);
    let d = m.delegation_address(&addr(2)).unwrap();
    assert_eq!(d.total_staked, Amount::from_u64(2000));
    assert_eq!(d.delegation_contract_cap, 5000);
    assert_eq!(d.nr_nodes, 3);
    assert_eq!(d.apy, 800);
    assert_eq!(d.total_staked_from_ls_contract, Amount::zero());
    assert_eq!(d.total_undelegated_from_ls_contract, Amount::zero());
    assert!(m.delegation_address(&addr(7)).is_none());
}

#[test]
fn whitelist_twice_fails_and_keeps_registry() {
    let mut m = module_with(2);
    let r = m.whitelist_delegation_contract(addr(1), Amount::from_u64(1), 1, 1, 1);
    assert_eq!(r, Err(DelegationError::AlreadyRegistered));
    assert_eq!(m.delegation_addresses_list().len(), 2);
    assert_eq!(m.delegation_address(&addr(1)).unwrap().total_staked, Amount::from_u64(1000));
}

#[test]
fn update_replaces_params_and_keeps_pool_counters() {
    let mut m = module_with(2);
    m.change_delegation_contract_params(&addr(2), Amount::from_u64(42), 9000, 7, 1200)
        .unwrap();
    let d = m.delegation_address(&addr(2)).unwrap();
    assert_eq!(d.total_staked, Amount::from_u64(42));
    assert_eq!(d.delegation_contract_cap, 9000);
    assert_eq!(d.nr_nodes, 7);
    assert_eq!(d.apy, 1200);
    assert_eq!(d.total_staked_from_ls_contract, Amount::zero());
    assert_eq!(d.total_undelegated_from_ls_contract, Amount::zero());
    let other = m.delegation_address(&addr(1)).unwrap();
    assert_eq!(other.total_staked, Amount::from_u64(1000));
    assert_eq!(other.delegation_contract_cap, 5000);
    assert_eq!(m.delegation_addresses_list(), &vec![addr(1), addr(2)]);
}

#[test]
fn update_unregistered_fails() {
    let mut m = module_with(1);
    let r = m.change_delegation_contract_params(&addr(5), Amount::from_u64(1), 1, 1, 1);
    assert_eq!(r, Err(DelegationError::NotRegistered));
    assert_eq!(m.delegation_address(&addr(1)).unwrap().total_staked, Amount::from_u64(1000));
}

#[test]
fn claim_starts_after_closed_cycle() {
    let mut m = DelegationModule::new();
    m.set_delegation_claim_status(persisted(ClaimStatusType::Redelegated, 5));
    let r = m.can_proceed_claim_operation(ClaimStatus::default(), 6, Amount::from_u64(12345));
    let expected = ClaimStatus {
        status: ClaimStatusType::Pending,
        last_claim_epoch: 6,
        current_iteration: 1,
        starting_token_reserve: Amount::from_u64(12345),
    };
    assert_eq!(r, Ok(expected));
}

#[test]
fn claim_refused_in_same_epoch() {
    let mut m = DelegationModule::new();
    m.set_delegation_claim_status(persisted(ClaimStatusType::Redelegated, 5));
    let r = m.can_proceed_claim_operation(ClaimStatus::default(), 5, Amount::from_u64(1));
    assert_eq!(r, Err(DelegationError::EpochNotAdvanced));
    let r = m.can_proceed_claim_operation(ClaimStatus::default(), 4, Amount::from_u64(1));
    assert_eq!(r, Err(DelegationError::EpochNotAdvanced));
}

#[test]
fn claim_refused_while_cycle_open() {
    let mut m = DelegationModule::new();
    for open in [ClaimStatusType::Pending, ClaimStatusType::Finished, ClaimStatusType::Idle] {
        m.set_delegation_claim_status(persisted(open, 5));
        for epoch in [0u64, 5, 6, u64::MAX] {
            for draft in [ClaimStatusType::Idle, ClaimStatusType::Pending] {
                let r = m.can_proceed_claim_operation(persisted(draft, 0), epoch, Amount::zero());
                assert_eq!(r, Err(DelegationError::CycleNotClosed));
            }
        }
    }
}

#[test]
fn claim_resume_keeps_pending_draft() {
    let mut m = DelegationModule::new();
    m.set_delegation_claim_status(persisted(ClaimStatusType::Redelegated, 5));
    let draft = ClaimStatus {
        status: ClaimStatusType::Pending,
        last_claim_epoch: 6,
        current_iteration: 3,
        starting_token_reserve: Amount::from_u64(500),
    };
    let r = m.can_proceed_claim_operation(draft.clone(), 7, Amount::from_u64(999));
    assert_eq!(r, Ok(draft));
}

#[test]
fn claim_refuses_closed_draft() {
    let mut m = DelegationModule::new();
    m.set_delegation_claim_status(persisted(ClaimStatusType::Pending, 5));
    for draft in [ClaimStatusType::Finished, ClaimStatusType::Redelegated] {
        let r = m.can_proceed_claim_operation(persisted(draft, 0), 9, Amount::zero());
        assert_eq!(r, Err(DelegationError::InvalidDraftState));
    }
}

#[test]
fn fresh_module_refuses_claim() {
    let m = DelegationModule::new();
    assert_eq!(m.delegation_claim_status(), &ClaimStatus::default());
    let r = m.can_proceed_claim_operation(ClaimStatus::default(), 1, Amount::zero());
    assert_eq!(r, Err(DelegationError::CycleNotClosed));
}

#[test]
fn evaluate_claim_start_upgrades_idle_draft() {
    let persisted_status = persisted(ClaimStatusType::Redelegated, 0);
    let r = evaluate_claim_start(ClaimStatus::default(), &persisted_status, 1, Amount::from_u64(3));
    let s = r.unwrap();
    assert_eq!(s.status, ClaimStatusType::Pending);
    assert_eq!(s.last_claim_epoch, 1);
    assert_eq!(s.current_iteration, 1);
    assert_eq!(s.starting_token_reserve, Amount::from_u64(3));
}

#[test]
fn default_claim_status() {
    let s = ClaimStatus::default();
    assert_eq!(s.status, ClaimStatusType::Idle);
    assert_eq!(s.last_claim_epoch, 0);
    assert_eq!(s.current_iteration, 1);
    assert_eq!(s.starting_token_reserve, Amount::zero());
}
