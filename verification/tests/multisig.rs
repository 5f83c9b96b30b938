use stellarforge::address::Address;
use stellarforge::gate::Gated;
use stellarforge::multisig::{MultisigContract, MultisigError, MultisigSettings, Proposal};
use stellarforge::transfer::Direction;
use stellarforge::governor::{GovernorConfig, GovernorContract};

fn maddr(s: &str) -> Address {
    Address::from_bytes(s.as_bytes().to_vec())
}

fn mok<T: std::fmt::Debug>(g: Gated<T, MultisigError>) -> T {
    match g {
        Gated::Signed { outcome: Ok(v), .. } => v,
        other => panic!("expected success, got {:?}", other),
    }
}

fn merr<T: std::fmt::Debug>(g: Gated<T, MultisigError>) -> MultisigError {
    match g {
        Gated::Refused { error } => error,
        Gated::Signed { outcome: Err(e), .. } => e,
        other => panic!("expected an error, got {:?}", other),
    }
}

fn blank_settings() -> MultisigSettings {
    MultisigSettings { owners: None, threshold: None, timelock_delay: None }
}

/// Three owners, two approvals needed, no timelock.
fn multisig_setup() -> MultisigSettings {
    let mut settings = blank_settings();
    MultisigContract::initialize(&mut settings, vec![maddr("OWNER1"), maddr("OWNER2"), maddr("OWNER3")], 2, 0).unwrap();
    settings
}

/// Three owners, one approval needed, no timelock.
fn single_approval_setup() -> MultisigSettings {
    let mut settings = blank_settings();
    MultisigContract::initialize(&mut settings, vec![maddr("OWNER1"), maddr("OWNER2")], 1, 0).unwrap();
    settings
}

#[test]
fn test_test_initialize_success() {
    let settings = multisig_setup();
    assert_eq!(settings.owners.unwrap().len(), 3);
    assert_eq!(settings.threshold, Some(2));
    assert_eq!(settings.timelock_delay, Some(0));
    let mut stored: Option<GovernorConfig> = None;
    let config = GovernorConfig { admin: maddr("ADMIN"), vote_token: maddr("TOKEN"), voting_period: 3600, quorum: 1000, timelock_delay: 0 };
    assert_eq!(GovernorContract::initialize(&mut stored, config), Ok(()));
    assert_eq!(stored.unwrap().voting_period, 3600);
}

#[test]
fn test_propose_success() {
    let settings = multisig_setup();
    let mut next_id: Option<u64> = None;
    let mut committed: Option<i128> = None;
    let mut own_approval: Option<bool> = None;
    let (id, proposal) = mok(MultisigContract::propose(&settings, &mut next_id, &mut committed, &mut own_approval, maddr("OWNER1"), maddr("TO"), maddr("TOKEN"), 1000, 0));
    assert_eq!(id, 0);
    assert_eq!(proposal.approval_count, 1);
    assert_eq!(proposal.approved_at, None);
    assert_eq!(next_id, Some(1));
    assert_eq!(committed, None);
    assert_eq!(own_approval, Some(true));
}

#[test]
fn multisig_initialize_deduplicates_owners() {
    let mut settings = blank_settings();
    let owners = vec![maddr("A"), maddr("B"), maddr("A"), maddr("C"), maddr("B")];
    MultisigContract::initialize(&mut settings, owners, 3, 60).unwrap();
    assert_eq!(settings.owners.as_ref().unwrap(), &vec![maddr("A"), maddr("B"), maddr("C")]);
    let mut again = blank_settings();
    let r = MultisigContract::initialize(&mut again, vec![maddr("A"), maddr("A")], 2, 0);
    assert_eq!(r, Err(MultisigError::InvalidThreshold));
    assert!(again.owners.is_none());
    assert_eq!(MultisigContract::initialize(&mut again, vec![maddr("A")], 0, 0), Err(MultisigError::InvalidThreshold));
    assert_eq!(MultisigContract::initialize(&mut settings, vec![maddr("A")], 1, 0), Err(MultisigError::AlreadyInitialized));
}

#[test]
fn multisig_owner_membership() {
    let mut settings = blank_settings();
    MultisigContract::initialize(&mut settings, vec![maddr("A"), maddr("B"), maddr("A")], 2, 0).unwrap();
    assert_eq!(MultisigContract::require_owner(&settings, &maddr("A")), Ok(()));
    assert_eq!(MultisigContract::require_owner(&settings, &maddr("B")), Ok(()));
    assert_eq!(MultisigContract::require_owner(&settings, &maddr("C")), Err(MultisigError::Unauthorized));
    assert_eq!(MultisigContract::require_owner(&blank_settings(), &maddr("A")), Err(MultisigError::Unauthorized));
}

#[test]
fn multisig_full_lifecycle() {
    let settings = multisig_setup();
    let mut next_id: Option<u64> = Some(7);
    let mut committed: Option<i128> = Some(50);
    let mut approval1: Option<bool> = None;
    let (id, proposal) = mok(MultisigContract::propose(&settings, &mut next_id, &mut committed, &mut approval1, maddr("OWNER1"), maddr("TO"), maddr("TOKEN"), 1000, 10));
    assert_eq!(id, 7);
    let mut slot = Some(proposal);
    // Executing before the threshold is reached fails.
    assert_eq!(merr(MultisigContract::execute(&settings, &mut slot, &mut committed, 5_000, maddr("OWNER1"), 20)), MultisigError::InsufficientApprovals);
    let mut approval2: Option<bool> = None;
    mok(MultisigContract::approve(&settings, &mut slot, &mut approval2, None, &mut committed, maddr("OWNER2"), 30));
    assert_eq!(approval2, Some(true));
    assert_eq!(slot.as_ref().unwrap().approval_count, 2);
    assert_eq!(slot.as_ref().unwrap().approved_at, Some(30));
    assert_eq!(committed, Some(1050));
    // The treasury must cover everything committed.
    assert_eq!(merr(MultisigContract::execute(&settings, &mut slot, &mut committed, 1049, maddr("OWNER3"), 40)), MultisigError::InsufficientFunds);
    let s = mok(MultisigContract::execute(&settings, &mut slot, &mut committed, 1050, maddr("OWNER3"), 40));
    assert_eq!(s.transfers.len(), 1);
    assert_eq!(s.transfers[0].direction, Direction::Payout);
    assert_eq!(s.transfers[0].party, maddr("TO"));
    assert_eq!(s.transfers[0].amount, 1000);
    assert_eq!(committed, Some(50));
    assert!(slot.as_ref().unwrap().executed);
    assert_eq!(merr(MultisigContract::execute(&settings, &mut slot, &mut committed, 9_999, maddr("OWNER1"), 50)), MultisigError::AlreadyExecuted);
    let mut approval3: Option<bool> = None;
    assert_eq!(merr(MultisigContract::approve(&settings, &mut slot, &mut approval3, None, &mut committed, maddr("OWNER3"), 50)), MultisigError::AlreadyExecuted);
    assert_eq!(approval3, None);
}

#[test]
fn multisig_single_approval_threshold_commits_at_once() {
    let settings = single_approval_setup();
    let mut next_id: Option<u64> = None;
    let mut committed: Option<i128> = None;
    let mut approval: Option<bool> = None;
    let (_, proposal) = mok(MultisigContract::propose(&settings, &mut next_id, &mut committed, &mut approval, maddr("OWNER1"), maddr("TO"), maddr("TOKEN"), 300, 99));
    assert_eq!(proposal.approved_at, Some(99));
    assert_eq!(committed, Some(300));
}

#[test]
fn multisig_timelock_and_votes() {
    let mut settings = blank_settings();
    MultisigContract::initialize(&mut settings, vec![maddr("OWNER1"), maddr("OWNER2")], 2, 60).unwrap();
    let mut next_id: Option<u64> = None;
    let mut committed: Option<i128> = None;
    let mut approval1: Option<bool> = None;
    let (_, proposal) = mok(MultisigContract::propose(&settings, &mut next_id, &mut committed, &mut approval1, maddr("OWNER1"), maddr("TO"), maddr("TOKEN"), 10, 0));
    let mut slot: Option<Proposal> = Some(proposal);
    // The proposer's own approval was recorded, so approving again is refused.
    assert_eq!(merr(MultisigContract::approve(&settings, &mut slot, &mut approval1, None, &mut committed, maddr("OWNER1"), 1)), MultisigError::AlreadyVoted);
    let mut stranger: Option<bool> = None;
    assert_eq!(merr(MultisigContract::approve(&settings, &mut slot, &mut stranger, None, &mut committed, maddr("STRANGER"), 1)), MultisigError::Unauthorized);
    let mut rejected: Option<bool> = None;
    assert_eq!(merr(MultisigContract::approve(&settings, &mut slot, &mut rejected, Some(true), &mut committed, maddr("OWNER2"), 1)), MultisigError::AlreadyVoted);
    let mut approval2: Option<bool> = None;
    mok(MultisigContract::approve(&settings, &mut slot, &mut approval2, None, &mut committed, maddr("OWNER2"), 100));
    // The recorded approval blocks a second one.
    assert_eq!(merr(MultisigContract::approve(&settings, &mut slot, &mut approval2, None, &mut committed, maddr("OWNER2"), 101)), MultisigError::AlreadyVoted);
    assert_eq!(slot.as_ref().unwrap().approval_count, 2);
    assert_eq!(merr(MultisigContract::execute(&settings, &mut slot, &mut committed, 10, maddr("OWNER1"), 159)), MultisigError::TimelockNotElapsed);
    assert!(!MultisigContract::execute_consults_balance(&settings, &slot, &committed, &maddr("OWNER1"), 159));
    assert!(MultisigContract::execute_consults_balance(&settings, &slot, &committed, &maddr("OWNER1"), 160));
    mok(MultisigContract::execute(&settings, &mut slot, &mut committed, 10, maddr("OWNER1"), 160));
    let mut missing: Option<Proposal> = None;
    let mut approval3: Option<bool> = None;
    assert_eq!(merr(MultisigContract::approve(&settings, &mut missing, &mut approval3, None, &mut committed, maddr("OWNER2"), 1)), MultisigError::ProposalNotFound);
}

#[test]
fn multisig_propose_errors() {
    let settings = multisig_setup();
    let mut next_id: Option<u64> = None;
    let mut committed: Option<i128> = None;
    let mut approval: Option<bool> = None;
    assert_eq!(merr(MultisigContract::propose(&settings, &mut next_id, &mut committed, &mut approval, maddr("X"), maddr("TO"), maddr("T"), 10, 0)), MultisigError::Unauthorized);
    assert_eq!(merr(MultisigContract::propose(&settings, &mut next_id, &mut committed, &mut approval, maddr("OWNER1"), maddr("TO"), maddr("T"), 0, 0)), MultisigError::InvalidAmount);
    let no_threshold = MultisigSettings { owners: Some(vec![maddr("OWNER1")]), threshold: None, timelock_delay: None };
    assert_eq!(merr(MultisigContract::propose(&no_threshold, &mut next_id, &mut committed, &mut approval, maddr("OWNER1"), maddr("TO"), maddr("T"), 5, 0)), MultisigError::NotInitialized);
    assert_eq!(next_id, None);
    assert_eq!(approval, None);
}

#[test]
fn multisig_approval_time_is_set_once() {
    let settings = multisig_setup();
    let mut next_id: Option<u64> = None;
    let mut committed: Option<i128> = None;
    let mut approval1: Option<bool> = None;
    let (_, proposal) = mok(MultisigContract::propose(&settings, &mut next_id, &mut committed, &mut approval1, maddr("OWNER1"), maddr("TO"), maddr("TOKEN"), 40, 0));
    let mut slot = Some(proposal);
    let mut approval2: Option<bool> = None;
    let mut approval3: Option<bool> = None;
    mok(MultisigContract::approve(&settings, &mut slot, &mut approval2, None, &mut committed, maddr("OWNER2"), 10));
    mok(MultisigContract::approve(&settings, &mut slot, &mut approval3, None, &mut committed, maddr("OWNER3"), 20));
    let p = slot.unwrap();
    assert_eq!(p.approval_count, 3);
    assert_eq!(p.approved_at, Some(10));
    assert_eq!(committed, Some(40));
}

#[test]
fn multisig_precondition_checks() {
    let settings = multisig_setup();
    assert!(!MultisigContract::propose_computable(&settings, &Some(u64::MAX), &None, &maddr("OWNER1"), 5));
    assert!(MultisigContract::propose_computable(&settings, &Some(u64::MAX), &None, &maddr("X"), 5));
    let single = single_approval_setup();
    assert!(!MultisigContract::propose_computable(&single, &None, &Some(i128::MAX), &maddr("OWNER1"), 1));
    let near_full = Some(Proposal {
        proposer: maddr("OWNER1"), to: maddr("TO"), token: maddr("T"), amount: 10, approval_count: 1,
        rejection_count: 0, approved_at: None, executed: false, cancelled: false, is_native: false,
    });
    assert!(!MultisigContract::approve_computable(&settings, &near_full, &None, &None, &Some(i128::MAX), &maddr("OWNER2")));
    assert!(MultisigContract::approve_computable(&settings, &near_full, &Some(true), &None, &Some(i128::MAX), &maddr("OWNER2")));
    let approved = Some(Proposal {
        proposer: maddr("OWNER1"), to: maddr("TO"), token: maddr("T"), amount: 10, approval_count: 2,
        rejection_count: 0, approved_at: Some(u64::MAX), executed: false, cancelled: false, is_native: false,
    });
    let mut delayed = blank_settings();
    MultisigContract::initialize(&mut delayed, vec![maddr("OWNER1"), maddr("OWNER2")], 2, 1).unwrap();
    assert!(!MultisigContract::execute_computable(&delayed, &approved, &maddr("OWNER1")));
    assert!(MultisigContract::execute_computable(&settings, &approved, &maddr("OWNER1")));
}

#[test]
fn multisig_committed_tracks_pending_proposals() {
    let settings = multisig_setup();
    let mut next_id: Option<u64> = None;
    let mut committed: Option<i128> = None;
    let mut a1: Option<bool> = None;
    let mut b1: Option<bool> = None;
    let (_, first) = mok(MultisigContract::propose(&settings, &mut next_id, &mut committed, &mut a1, maddr("OWNER1"), maddr("TO"), maddr("TOKEN"), 100, 0));
    let (_, second) = mok(MultisigContract::propose(&settings, &mut next_id, &mut committed, &mut b1, maddr("OWNER1"), maddr("TO"), maddr("TOKEN"), 30, 0));
    let mut p1 = Some(first);
    let mut p2 = Some(second);
    assert_eq!(committed, None);
    let mut a2: Option<bool> = None;
    let mut b2: Option<bool> = None;
    mok(MultisigContract::approve(&settings, &mut p1, &mut a2, None, &mut committed, maddr("OWNER2"), 1));
    mok(MultisigContract::approve(&settings, &mut p2, &mut b2, None, &mut committed, maddr("OWNER2"), 1));
    assert_eq!(committed, Some(130));
    mok(MultisigContract::execute(&settings, &mut p1, &mut committed, 130, maddr("OWNER3"), 2));
    assert_eq!(committed, Some(30));
    mok(MultisigContract::execute(&settings, &mut p2, &mut committed, 30, maddr("OWNER3"), 2));
    assert_eq!(committed, Some(0));
}
