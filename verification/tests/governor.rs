use stellarforge::address::Address;
use stellarforge::gate::Gated;
use stellarforge::governor::{GovernorConfig, GovernorContract, GovernorError, Proposal, ProposalState, VoteDirection};

fn gaddr(s: &str) -> Address {
    Address::from_bytes(s.as_bytes().to_vec())
}

fn gok<T: std::fmt::Debug>(g: Gated<T, GovernorError>) -> T {
    match g {
        Gated::Signed { outcome: Ok(v), .. } => v,
        other => panic!("expected success, got {:?}", other),
    }
}

fn gerr<T: std::fmt::Debug>(g: Gated<T, GovernorError>) -> GovernorError {
    match g {
        Gated::Refused { error } => error,
        Gated::Signed { outcome: Err(e), .. } => e,
        other => panic!("expected an error, got {:?}", other),
    }
}

fn sample_config() -> GovernorConfig {
    GovernorConfig { admin: gaddr("ADMIN"), vote_token: gaddr("TOKEN"), voting_period: 3600, quorum: 1000, timelock_delay: 0 }
}

fn governor_setup() -> Option<GovernorConfig> {
    let mut stored: Option<GovernorConfig> = None;
    GovernorContract::initialize(&mut stored, sample_config()).unwrap();
    stored
}

fn open_proposal(config: &Option<GovernorConfig>, next_id: &mut Option<u64>, active: &mut Vec<u64>, now: u64) -> (u64, Proposal, u32) {
    gok(GovernorContract::propose(config, next_id, active, gaddr("PROPOSER"), b"title".to_vec(), b"text".to_vec(), now))
}

#[test]
fn governor_initialize_errors() {
    let mut stored = governor_setup();
    assert_eq!(stored.as_ref().unwrap().quorum, 1000);
    assert_eq!(GovernorContract::initialize(&mut stored, sample_config()), Err(GovernorError::AlreadyInitialized));
    let mut blank: Option<GovernorConfig> = None;
    let no_quorum = GovernorConfig { quorum: 0, ..sample_config() };
    assert_eq!(GovernorContract::initialize(&mut blank, no_quorum), Err(GovernorError::InvalidConfig));
    let no_period = GovernorConfig { voting_period: 0, ..sample_config() };
    assert_eq!(GovernorContract::initialize(&mut blank, no_period), Err(GovernorError::InvalidConfig));
    let token_is_admin = GovernorConfig { vote_token: gaddr("ADMIN"), ..sample_config() };
    assert_eq!(GovernorContract::initialize(&mut blank, token_is_admin), Err(GovernorError::InvalidConfig));
    assert!(blank.is_none());
}

#[test]
fn governor_proposal_passes_with_quorum() {
    let config = governor_setup();
    let mut next_id: Option<u64> = None;
    let mut active: Vec<u64> = Vec::new();
    let (id, proposal, index) = open_proposal(&config, &mut next_id, &mut active, 100);
    assert_eq!((id, index), (0, 0));
    assert_eq!(proposal.vote_end, 3700);
    let mut slot = Some(proposal);
    gok(GovernorContract::vote(&config, 900, &mut None, &mut slot, gaddr("V1"), VoteDirection::For, 700, 200));
    gok(GovernorContract::vote(&config, 900, &mut None, &mut slot, gaddr("V2"), VoteDirection::Against, 200, 300));
    gok(GovernorContract::vote(&config, 900, &mut None, &mut slot, gaddr("V3"), VoteDirection::Abstain, 100, 400));
    assert_eq!(GovernorContract::finalize(&mut slot, &config, &mut active, Some(index), 3700).unwrap_err(), GovernorError::VotingStillOpen);
    let (state, rewrites) = GovernorContract::finalize(&mut slot, &config, &mut active, Some(index), 3701).unwrap();
    assert_eq!(state, ProposalState::Passed);
    assert_eq!(slot.as_ref().unwrap().passed_at, Some(3700));
    assert!(active.is_empty());
    assert!(rewrites.is_empty());
    assert_eq!(GovernorContract::finalize(&mut slot, &config, &mut active, None, 4000).unwrap_err(), GovernorError::AlreadyFinalized);
}

#[test]
fn governor_proposal_fails_without_quorum() {
    let config = governor_setup();
    let mut next_id: Option<u64> = None;
    let mut active: Vec<u64> = Vec::new();
    let (_, proposal, index) = open_proposal(&config, &mut next_id, &mut active, 0);
    let mut slot = Some(proposal);
    gok(GovernorContract::vote(&config, 999, &mut None, &mut slot, gaddr("V1"), VoteDirection::For, 999, 10));
    let (state, _) = GovernorContract::finalize(&mut slot, &config, &mut active, Some(index), 4000).unwrap();
    assert_eq!(state, ProposalState::Failed);
    assert_eq!(slot.as_ref().unwrap().passed_at, None);
}

#[test]
fn governor_vote_errors() {
    let config = governor_setup();
    let mut next_id: Option<u64> = None;
    let mut active: Vec<u64> = Vec::new();
    let (_, proposal, _) = open_proposal(&config, &mut next_id, &mut active, 0);
    let mut slot = Some(proposal);
    assert_eq!(gerr(GovernorContract::vote(&config, 10, &mut None, &mut slot, gaddr("V"), VoteDirection::For, 11, 1)), GovernorError::InvalidWeight);
    assert_eq!(gerr(GovernorContract::vote(&config, 10, &mut Some(5), &mut slot, gaddr("V"), VoteDirection::For, 5, 1)), GovernorError::AlreadyVoted);
    assert_eq!(gerr(GovernorContract::vote(&config, 10, &mut None, &mut slot, gaddr("V"), VoteDirection::For, 0, 1)), GovernorError::InvalidWeight);
    assert_eq!(gerr(GovernorContract::vote(&config, 10, &mut None, &mut slot, gaddr("V"), VoteDirection::For, 5, 3601)), GovernorError::VotingClosed);
    let mut missing: Option<Proposal> = None;
    assert_eq!(gerr(GovernorContract::vote(&config, 10, &mut None, &mut missing, gaddr("V"), VoteDirection::For, 5, 1)), GovernorError::ProposalNotFound);
    assert_eq!(gerr(GovernorContract::vote(&None, 10, &mut None, &mut slot, gaddr("V"), VoteDirection::For, 5, 1)), GovernorError::NotInitialized);
    assert_eq!(slot.as_ref().unwrap().votes_for, 0);
}

#[test]
fn governor_active_list_reindexing() {
    let config = governor_setup();
    let mut next_id: Option<u64> = None;
    let mut active: Vec<u64> = Vec::new();
    for _ in 0..4 {
        open_proposal(&config, &mut next_id, &mut active, 0);
    }
    assert_eq!(active, vec![0, 1, 2, 3]);
    let rewrites = GovernorContract::remove_active_proposal(&mut active, Some(1));
    assert_eq!(active, vec![0, 2, 3]);
    assert_eq!(rewrites, vec![(2, 1), (3, 2)]);
    let none = GovernorContract::remove_active_proposal(&mut active, Some(9));
    assert_eq!(active, vec![0, 2, 3]);
    assert!(none.is_empty());
    assert!(GovernorContract::remove_active_proposal(&mut active, None).is_empty());
}

#[test]
fn governor_propose_requires_initialization() {
    let mut next_id: Option<u64> = None;
    let mut active: Vec<u64> = Vec::new();
    let g = GovernorContract::propose(&None, &mut next_id, &mut active, gaddr("P"), vec![], vec![], 0);
    assert_eq!(gerr(g), GovernorError::NotInitialized);
    assert!(active.is_empty());
}

#[test]
fn governor_votes_add_up() {
    let config = governor_setup();
    let mut next_id: Option<u64> = None;
    let mut active: Vec<u64> = Vec::new();
    let (_, proposal, _) = open_proposal(&config, &mut next_id, &mut active, 0);
    let mut slot = Some(proposal);
    gok(GovernorContract::vote(&config, 100, &mut None, &mut slot, gaddr("A"), VoteDirection::For, 40, 1));
    gok(GovernorContract::vote(&config, 100, &mut None, &mut slot, gaddr("B"), VoteDirection::For, 60, 2));
    gok(GovernorContract::vote(&config, 100, &mut None, &mut slot, gaddr("C"), VoteDirection::Against, 30, 3));
    let p = slot.unwrap();
    assert_eq!((p.votes_for, p.votes_against, p.abstentions), (100, 30, 0));
    assert_eq!(p.state, ProposalState::Active);
}

#[test]
fn governor_recorded_vote_blocks_another() {
    let config = governor_setup();
    let mut next_id: Option<u64> = None;
    let mut active: Vec<u64> = Vec::new();
    let (_, proposal, _) = open_proposal(&config, &mut next_id, &mut active, 0);
    let mut slot = Some(proposal);
    let mut record: Option<i128> = None;
    gok(GovernorContract::vote(&config, 100, &mut record, &mut slot, gaddr("A"), VoteDirection::For, 40, 1));
    assert_eq!(record, Some(40));
    assert_eq!(gerr(GovernorContract::vote(&config, 100, &mut record, &mut slot, gaddr("A"), VoteDirection::Against, 10, 2)), GovernorError::AlreadyVoted);
    assert_eq!(record, Some(40));
    let p = slot.as_ref().unwrap();
    assert_eq!((p.votes_for, p.votes_against), (40, 0));
}

#[test]
fn governor_precondition_checks() {
    let config = governor_setup();
    let mut next_id: Option<u64> = None;
    let mut active: Vec<u64> = Vec::new();
    assert!(GovernorContract::propose_computable(&config, &next_id, &active, 0));
    assert!(!GovernorContract::propose_computable(&config, &next_id, &active, u64::MAX));
    assert!(!GovernorContract::propose_computable(&config, &Some(u64::MAX), &active, 0));
    assert!(GovernorContract::propose_computable(&None, &Some(u64::MAX), &active, u64::MAX));
    let (_, mut proposal, _) = open_proposal(&config, &mut next_id, &mut active, 0);
    proposal.votes_for = i128::MAX;
    let slot = Some(proposal);
    assert!(!GovernorContract::vote_computable(&config, 100, &None, &slot, VoteDirection::For, 1, 1));
    assert!(GovernorContract::vote_computable(&config, 100, &None, &slot, VoteDirection::Against, 1, 1));
    assert!(GovernorContract::vote_computable(&config, 100, &Some(1), &slot, VoteDirection::For, 1, 1));
    let mut tied = slot;
    tied.as_mut().unwrap().votes_against = 1;
    assert!(!GovernorContract::finalize_computable(&tied, &config, 4000));
    assert!(GovernorContract::finalize_computable(&tied, &config, 100));
}
