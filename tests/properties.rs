use multisig::address::Address;
use multisig::contract::{verify_members, Multisig};
use multisig::error::ContractError;
use multisig::quorum::quorum_reached;
use multisig::storage::{ProposalStatus, ProposalType};
use multisig::{ONE_HOUR, SEVEN_DAYS_EXPIRATION_DATE};

fn account(n: u128) -> Address {
    Address::account(0, n)
}

fn token() -> Address {
    Address::contract(1, 1)
}

fn vault(members: &[Address], quorum_bps: Option<u32>) -> Multisig {
    let mut v = Multisig::new();
    v.initialize("Vault".to_string(), "Shared funds".to_string(), members.to_vec(), quorum_bps)
        .unwrap();
    v
}

fn propose(v: &mut Multisig, sender: Address, amount: u64, now: u64) -> Result<(), ContractError> {
    v.create_transaction_proposal(
        sender,
        "Pay".to_string(),
        "Monthly payment".to_string(),
        account(100),
        amount,
        token(),
        None,
        now,
    )
}

#[test]
fn scenario_full_quorum_transfers_whole_amount() {
    let members = [account(1), account(2), account(3)];
    let mut v = vault(&members, Some(10_000));
    propose(&mut v, members[0], 10_000, 0).unwrap();
    for m in members {
        v.sign_proposal(m, 1).unwrap();
    }
    assert_eq!(
        v.query_signatures(1),
        vec![(members[0], true), (members[1], true), (members[2], true)]
    );
    match v.execute_proposal(members[0], 1, 10).unwrap() {
        ProposalType::Transaction(t) => {
            assert_eq!(t.amount, 10_000);
            assert_eq!(t.recipient, account(100));
            assert_eq!(t.token, token());
        }
        ProposalType::UpdateContract(_) => panic!("expected a transfer"),
    }
    assert_eq!(v.query_proposal(1).unwrap().status, ProposalStatus::Closed);
}

#[test]
fn scenario_one_of_three_meets_3300_bps() {
    let members = [account(1), account(2), account(3)];
    let mut v = vault(&members, Some(3_300));
    propose(&mut v, members[0], 5, 0).unwrap();
    v.sign_proposal(members[1], 1).unwrap();
    assert!(v.is_proposal_ready(1));
    assert!(v.execute_proposal(members[2], 1, 0).is_ok());
}

#[test]
fn scenario_one_of_three_misses_3400_bps() {
    let members = [account(1), account(2), account(3)];
    let mut v = vault(&members, Some(3_400));
    propose(&mut v, members[0], 5, 0).unwrap();
    v.sign_proposal(members[1], 1).unwrap();
    assert!(!v.is_proposal_ready(1));
    assert_eq!(v.execute_proposal(members[2], 1, 0), Err(ContractError::QuorumNotReached));
    assert_eq!(v.query_proposal(1).unwrap().status, ProposalStatus::Open);
}

#[test]
fn scenario_lifetime_below_one_hour_is_refused() {
    let members = [account(1)];
    let mut v = vault(&members, None);
    let r = v.create_transaction_proposal(
        members[0],
        "Pay".to_string(),
        String::new(),
        account(100),
        1,
        token(),
        Some(3_599),
        0,
    );
    assert_eq!(r, Err(ContractError::InvalidExpirationDate));
    assert_eq!(v.query_last_proposal_id(), 0);
    assert!(v.query_all_proposals().is_empty());
}

#[test]
fn lifetime_of_exactly_one_hour_is_accepted() {
    let members = [account(1)];
    let mut v = vault(&members, None);
    v.create_update_proposal(members[0], [1u8; 32], Some(ONE_HOUR), 500).unwrap();
    let p = v.query_proposal(1).unwrap();
    assert_eq!(p.creation_timestamp, 500);
    assert_eq!(p.expiration_timestamp, 500 + ONE_HOUR);
}

#[test]
fn default_lifetime_is_seven_days_after_creation() {
    let members = [account(1)];
    let mut v = vault(&members, None);
    propose(&mut v, members[0], 1, 1_000).unwrap();
    let p = v.query_proposal(1).unwrap();
    assert_eq!(p.expiration_timestamp, 1_000 + SEVEN_DAYS_EXPIRATION_DATE);
}

#[test]
fn second_initialize_keeps_configuration() {
    let mut v = vault(&[account(1), account(2)], Some(6_000));
    let before = v.query_multisig_info();
    let r = v.initialize("Other".to_string(), "Other".to_string(), vec![account(9)], Some(9_000));
    assert_eq!(r, Err(ContractError::AlreadyInitialized));
    assert_eq!(v.query_multisig_info(), before);
}

#[test]
fn failed_initialize_writes_nothing() {
    let mut v = Multisig::new();
    let r = v.initialize("Vault".to_string(), "x".repeat(257), vec![account(1)], None);
    assert_eq!(r, Err(ContractError::DescriptionTooLong));
    assert!(v.query_multisig_members().is_empty());
    // a later valid call still succeeds
    assert!(v.initialize("Vault".to_string(), "ok".to_string(), vec![account(1)], None).is_ok());
}

#[test]
fn initialize_checks_members_first() {
    let mut v = Multisig::new();
    assert_eq!(
        v.initialize("x".repeat(100), String::new(), vec![], Some(1)),
        Err(ContractError::MembersListEmpty)
    );
    assert_eq!(
        v.initialize("Vault".to_string(), String::new(), vec![account(1), Address::zero()], None),
        Err(ContractError::ZeroAddressProvided)
    );
}

#[test]
fn verify_members_reports_each_error() {
    assert_eq!(verify_members(&vec![]), Err(ContractError::MembersListEmpty));
    assert_eq!(
        verify_members(&vec![account(1), account(2), Address::zero()]),
        Err(ContractError::ZeroAddressProvided)
    );
    // a contract whose key is zero is not the null identity
    assert_eq!(verify_members(&vec![Address::contract(0, 0)]), Ok(()));
}

#[test]
fn duplicate_members_are_kept_once() {
    let v = vault(&[account(2), account(1), account(2), account(3), account(1)], None);
    assert_eq!(v.query_multisig_members(), vec![account(2), account(1), account(3)]);
}

#[test]
fn quorum_bounds_are_exclusive_below_inclusive_above() {
    let mut v = Multisig::new();
    assert_eq!(
        v.initialize("n".to_string(), "d".to_string(), vec![account(1)], Some(100)),
        Err(ContractError::InitializeTooLowQuorum)
    );
    assert_eq!(
        v.initialize("n".to_string(), "d".to_string(), vec![account(1)], Some(10_001)),
        Err(ContractError::InitializeTooHighQuorum)
    );
    assert!(v.initialize("n".to_string(), "d".to_string(), vec![account(1)], Some(101)).is_ok());
    assert_eq!(v.query_multisig_info().quorum_bps, 101);
}

#[test]
fn ids_increase_across_kinds() {
    let members = [account(1)];
    let mut v = vault(&members, None);
    propose(&mut v, members[0], 1, 0).unwrap();
    v.create_update_proposal(members[0], [2u8; 32], None, 0).unwrap();
    propose(&mut v, members[0], 3, 0).unwrap();
    let ids: Vec<u64> = v.query_all_proposals().iter().map(|p| p.id).collect();
    assert_eq!(ids, vec![1, 2, 3]);
    assert_eq!(v.query_last_proposal_id(), 3);
}

#[test]
fn non_member_signature_changes_nothing() {
    let members = [account(1), account(2)];
    let mut v = vault(&members, None);
    propose(&mut v, members[0], 1, 0).unwrap();
    v.sign_proposal(members[0], 1).unwrap();
    let before = v.query_signatures(1);
    assert_eq!(v.sign_proposal(account(9), 1), Err(ContractError::UnauthorizedNotAMember));
    assert_eq!(v.sign_proposal(account(9), 77), Err(ContractError::UnauthorizedNotAMember));
    assert_eq!(v.query_signatures(1), before);
}

#[test]
fn signing_twice_is_idempotent() {
    let members = [account(1), account(2)];
    let mut v = vault(&members, None);
    propose(&mut v, members[0], 1, 0).unwrap();
    v.sign_proposal(members[1], 1).unwrap();
    v.sign_proposal(members[1], 1).unwrap();
    assert_eq!(v.get_proposal_signatures(1), vec![members[1]]);
    assert_eq!(v.query_signatures(1), vec![(members[0], false), (members[1], true)]);
}

#[test]
fn execute_at_expiration_instant_succeeds_and_repeat_is_closed() {
    let members = [account(1)];
    let mut v = vault(&members, None);
    v.create_transaction_proposal(
        members[0],
        "Pay".to_string(),
        String::new(),
        account(100),
        1,
        token(),
        Some(ONE_HOUR),
        0,
    )
    .unwrap();
    v.sign_proposal(members[0], 1).unwrap();
    assert!(v.execute_proposal(members[0], 1, ONE_HOUR).is_ok());
    assert_eq!(v.execute_proposal(members[0], 1, ONE_HOUR), Err(ContractError::ProposalClosed));
    assert_eq!(v.sign_proposal(members[0], 1), Err(ContractError::ProposalClosed));
}

#[test]
fn expired_execution_closes_even_with_quorum() {
    let members = [account(1)];
    let mut v = vault(&members, None);
    v.create_update_proposal(members[0], [3u8; 32], Some(ONE_HOUR), 0).unwrap();
    v.sign_proposal(members[0], 1).unwrap();
    assert!(v.is_proposal_ready(1));
    assert_eq!(v.execute_proposal(members[0], 1, ONE_HOUR + 1), Err(ContractError::ProposalExpired));
    assert_eq!(v.query_proposal(1).unwrap().status, ProposalStatus::Closed);
    assert_eq!(v.query_multisig_info().version_proposal, 0);
    assert_eq!(v.execute_proposal(members[0], 1, 0), Err(ContractError::ProposalClosed));
}

#[test]
fn version_counts_only_upgrades() {
    let members = [account(1)];
    let mut v = vault(&members, None);
    propose(&mut v, members[0], 1, 0).unwrap();
    v.create_update_proposal(members[0], [4u8; 32], None, 0).unwrap();
    v.create_update_proposal(members[0], [5u8; 32], None, 0).unwrap();
    for id in 1..=3 {
        v.sign_proposal(members[0], id).unwrap();
    }
    v.execute_proposal(members[0], 1, 0).unwrap();
    assert_eq!(v.query_multisig_info().version_proposal, 0);
    assert_eq!(v.execute_proposal(members[0], 2, 0), Ok(ProposalType::UpdateContract([4u8; 32])));
    assert_eq!(v.query_multisig_info().version_proposal, 1);
    v.execute_proposal(members[0], 3, 0).unwrap();
    assert_eq!(v.query_multisig_info().version_proposal, 2);
}

#[test]
fn unknown_proposal_is_absent() {
    let members = [account(1)];
    let mut v = vault(&members, None);
    assert_eq!(v.query_proposal(0), None);
    assert_eq!(v.query_proposal(1), None);
    assert_eq!(v.query_signatures(5), vec![(members[0], false)]);
    assert_eq!(v.execute_proposal(members[0], 1, 0), Err(ContractError::ProposalNotFound));
    assert!(!v.is_proposal_ready(1));
}

#[test]
fn uninitialized_vault_accepts_no_proposal() {
    let mut v = Multisig::new();
    assert_eq!(propose(&mut v, account(1), 1, 0), Err(ContractError::UnauthorizedNotAMember));
    assert!(!v.is_proposal_ready(1));
}

#[test]
fn quorum_rule_by_cross_multiplication() {
    assert!(quorum_reached(1, 3, 3_300));
    assert!(!quorum_reached(1, 3, 3_400));
    assert!(quorum_reached(3, 3, 10_000));
    assert!(!quorum_reached(2, 3, 10_000));
    assert!(quorum_reached(9, 10, 9_000));
    assert!(!quorum_reached(9, 10, 9_001));
    assert!(quorum_reached(1, 4, 2_500));
    assert!(!quorum_reached(0, 1, 101));
}

#[test]
fn error_codes_follow_declaration_order() {
    assert_eq!(ContractError::Unauthorized.code(), 0);
    assert_eq!(ContractError::UnauthorizedNotAMember.code(), 4);
    assert_eq!(ContractError::InvalidExpirationDate.code(), 11);
    assert_eq!(ContractError::ZeroAddressProvided.code(), 13);
}

#[test]
fn address_helpers() {
    assert!(Address::zero().is_zero());
    assert!(!account(1).is_zero());
    assert!(!Address::contract(0, 0).is_zero());
}

#[test]
fn added_member_can_sign_and_earlier_signatures_stay() {
    let members = [account(1), account(2)];
    let mut v = vault(&members, Some(10_000));
    propose(&mut v, members[0], 1, 0).unwrap();
    v.sign_proposal(members[0], 1).unwrap();
    v.sign_proposal(members[1], 1).unwrap();
    v.add_multisig_member(account(3));
    v.add_multisig_member(account(3));
    assert_eq!(v.query_multisig_members(), vec![account(1), account(2), account(3)]);
    assert_eq!(
        v.query_signatures(1),
        vec![(account(1), true), (account(2), true), (account(3), false)]
    );
    assert_eq!(v.execute_proposal(account(1), 1, 0), Err(ContractError::QuorumNotReached));
    v.sign_proposal(account(3), 1).unwrap();
    assert!(v.execute_proposal(account(1), 1, 0).is_ok());
}
