//! On-chain governance with token-weighted voting: proposals are voted on for
//! a fixed period and then finalized as passed or failed.

use vstd::prelude::*;
use crate::address::Address;
use crate::gate::{Gated, Verdict, gated_agrees, gated_signers, gated_value, one_signer};

verus! {

/// Why a governor operation fails.
#[derive(Copy, Clone, Debug, PartialEq, Eq, Structural)]
pub enum GovernorError {
    AlreadyInitialized,
    NotInitialized,
    ProposalNotFound,
    VotingClosed,
    VotingStillOpen,
    AlreadyVoted,
    QuorumNotReached,
    ProposalNotPassed,
    TimelockNotElapsed,
    AlreadyExecuted,
    AlreadyCancelled,
    InvalidConfig,
    InvalidWeight,
    Unauthorized,
    AlreadyFinalized,
}

/// The governor contract.
pub struct GovernorContract;

/// Governor configuration.
#[derive(Debug)]
pub struct GovernorConfig {
    pub admin: Address,
    pub vote_token: Address,
    pub voting_period: u64,
    pub quorum: i128,
    pub timelock_delay: u64,
}

/// Proposal state.
#[derive(Copy, Clone, Debug, PartialEq, Eq, Structural)]
pub enum ProposalState {
    Active,
    Passed,
    Failed,
    Executed,
    Cancelled,
}

/// Direction of a vote cast on a proposal.
#[derive(Copy, Clone, Debug, PartialEq, Eq, Structural)]
pub enum VoteDirection {
    For,
    Against,
    Abstain,
}

/// Vote tally for a proposal.
#[derive(Copy, Clone, Debug, PartialEq, Eq, Structural)]
pub struct VoteTally {
    pub yes_votes: i128,
    pub no_votes: i128,
    pub abstain_votes: i128,
    pub total_votes: i128,
}

/// A governance proposal.
#[derive(Debug)]
pub struct Proposal {
    pub proposer: Address,
    pub title: Vec<u8>,
    pub description: Vec<u8>,
    pub vote_start: u64,
    pub vote_end: u64,
    pub votes_for: i128,
    pub votes_against: i128,
    pub abstentions: i128,
    pub passed_at: Option<u64>,
    pub state: ProposalState,
}

// ── Model ────────────────────────────────────────────────────────────────────

pub open spec fn initialize_error(stored: Option<GovernorConfig>, config: GovernorConfig) -> Option<GovernorError> {
    if stored is Some {
        Some(GovernorError::AlreadyInitialized)
    } else if config.quorum == 0 || config.voting_period == 0 {
        Some(GovernorError::InvalidConfig)
    } else if config.vote_token@ == config.admin@ {
        Some(GovernorError::InvalidConfig)
    } else {
        None
    }
}

pub open spec fn propose_verdict(config: Option<GovernorConfig>) -> Verdict<GovernorError> {
    if config is None {
        Verdict::Rejected(GovernorError::NotInitialized)
    } else {
        Verdict::Accepted
    }
}

pub open spec fn next_id_of(n: Option<u64>) -> u64 {
    match n {
        Some(v) => v,
        None => 0,
    }
}

pub open spec fn vote_verdict(
    config: Option<GovernorConfig>,
    voter_balance: i128,
    already_voted: bool,
    proposal: Option<Proposal>,
    weight: i128,
    now: u64,
) -> Verdict<GovernorError> {
    if config is None {
        Verdict::Rejected(GovernorError::NotInitialized)
    } else if weight > voter_balance {
        Verdict::Rejected(GovernorError::InvalidWeight)
    } else if already_voted {
        Verdict::Rejected(GovernorError::AlreadyVoted)
    } else {
        match proposal {
            None => Verdict::Rejected(GovernorError::ProposalNotFound),
            Some(p) => if p.state != ProposalState::Active {
                Verdict::Rejected(GovernorError::VotingClosed)
            } else if now > p.vote_end {
                Verdict::Rejected(GovernorError::VotingClosed)
            } else if weight <= 0 {
                Verdict::Rejected(GovernorError::InvalidWeight)
            } else {
                Verdict::Accepted
            },
        }
    }
}

/// The proposal with `weight` added to the tally of `direction`.
pub open spec fn with_vote(p: Proposal, direction: VoteDirection, weight: i128) -> Proposal {
    match direction {
        VoteDirection::For => Proposal { votes_for: (p.votes_for + weight) as i128, ..p },
        VoteDirection::Against => Proposal { votes_against: (p.votes_against + weight) as i128, ..p },
        VoteDirection::Abstain => Proposal { abstentions: (p.abstentions + weight) as i128, ..p },
    }
}

/// Whether adding `weight` to the tally of `direction` stays within `i128`.
pub open spec fn vote_fits(p: Proposal, direction: VoteDirection, weight: i128) -> bool {
    match direction {
        VoteDirection::For => i128::MIN <= p.votes_for + weight <= i128::MAX,
        VoteDirection::Against => i128::MIN <= p.votes_against + weight <= i128::MAX,
        VoteDirection::Abstain => i128::MIN <= p.abstentions + weight <= i128::MAX,
    }
}

/// All weight cast on a proposal.
pub open spec fn total_votes(p: Proposal) -> int {
    p.votes_for + p.votes_against + p.abstentions
}

/// Whether a proposal passes: quorum reached and more weight for than against.
pub open spec fn passes(p: Proposal, quorum: i128) -> bool {
    total_votes(p) >= quorum && p.votes_for > p.votes_against
}

pub open spec fn finalize_error(proposal: Option<Proposal>, config: Option<GovernorConfig>, now: u64) -> Option<GovernorError> {
    match proposal {
        None => Some(GovernorError::ProposalNotFound),
        Some(p) => if p.state != ProposalState::Active {
            Some(GovernorError::AlreadyFinalized)
        } else if now <= p.vote_end {
            Some(GovernorError::VotingStillOpen)
        } else if config is None {
            Some(GovernorError::NotInitialized)
        } else {
            None
        },
    }
}

/// The proposal once finalized under `quorum`.
pub open spec fn finalized(p: Proposal, quorum: i128) -> Proposal {
    if passes(p, quorum) {
        Proposal { state: ProposalState::Passed, passed_at: Some(p.vote_end), ..p }
    } else {
        Proposal { state: ProposalState::Failed, ..p }
    }
}

/// The index entries to rewrite after removing position `index` from a list
/// of active proposals, which is `ids` after the removal: each id from that
/// position on, with its new position.
pub open spec fn index_rewrites(ids: Seq<u64>, index: int) -> Seq<(u64, u32)> {
    let n: nat = if index <= ids.len() { (ids.len() - index) as nat } else { 0 };
    Seq::new(n, |j: int| (ids[index + j], (index + j) as u32))
}

/// `ids` after removing position `index`, or unchanged when it is past the end.
pub open spec fn removed_at(ids: Seq<u64>, index: int) -> Seq<u64> {
    if 0 <= index < ids.len() { ids.remove(index) } else { ids }
}

/// An index map records the position of every active proposal, and the
/// list names no proposal twice.
pub open spec fn index_consistent(ids: Seq<u64>, index: Map<u64, u32>) -> bool {
    &&& ids.no_duplicates()
    &&& forall|k: int| 0 <= k < ids.len() ==> #[trigger] index.contains_key(ids[k]) && index[ids[k]] == k
}

// ── Operations ───────────────────────────────────────────────────────────────

impl GovernorContract {
    /// Initialize the governor with `config`.
    pub fn initialize(stored: &mut Option<GovernorConfig>, config: GovernorConfig) -> (r: Result<(), GovernorError>)
        ensures
            initialize_error(*old(stored), config) matches Some(e) ==> {
                &&& r == Err::<(), GovernorError>(e)
                &&& *final(stored) == *old(stored)
            },
            initialize_error(*old(stored), config) is None ==> r is Ok && *final(stored) == Some(config),
    {
        if stored.is_some() {
            return Err(GovernorError::AlreadyInitialized);
        }
        if config.quorum == 0 || config.voting_period == 0 {
            return Err(GovernorError::InvalidConfig);
        }
        if config.vote_token.same(&config.admin) {
            return Err(GovernorError::InvalidConfig);
        }
        *stored = Some(config);
        Ok(())
    }

    /// Create a proposal at `now`, open for votes for the voting period. On
    /// success the value is its id, the proposal to store under it, and its
    /// position in the active list, which it joins at the end.
    pub fn propose(
        config: &Option<GovernorConfig>,
        next_id: &mut Option<u64>,
        active: &mut Vec<u64>,
        proposer: Address,
        title: Vec<u8>,
        description: Vec<u8>,
        now: u64,
    ) -> (r: Gated<(u64, Proposal, u32), GovernorError>)
        requires
            propose_verdict(*config) is Accepted ==> {
                &&& now + config.unwrap().voting_period <= u64::MAX
                &&& next_id_of(*old(next_id)) < u64::MAX
                &&& old(active)@.len() < u32::MAX
            },
        ensures
            gated_agrees(r, propose_verdict(*config)),
            gated_signers(r, seq![proposer@]),
            propose_verdict(*config) is Accepted ==> {
                let id = next_id_of(*old(next_id));
                &&& gated_value(r).0 == id
                &&& gated_value(r).1 == (Proposal {
                    proposer,
                    title,
                    description,
                    vote_start: now,
                    vote_end: (now + config.unwrap().voting_period) as u64,
                    votes_for: 0,
                    votes_against: 0,
                    abstentions: 0,
                    passed_at: None,
                    state: ProposalState::Active,
                })
                &&& gated_value(r).2 == old(active)@.len()
                &&& *final(next_id) == Some((id + 1) as u64)
                &&& final(active)@ == old(active)@.push(id)
            },
            !(propose_verdict(*config) is Accepted) ==> {
                &&& *final(next_id) == *old(next_id)
                &&& final(active)@ == old(active)@
            },
    {
        let signers = one_signer(&proposer);
        let c = match config {
            None => { return Gated::Signed { signers, outcome: Err(GovernorError::NotInitialized) }; },
            Some(c) => c,
        };
        let proposal_id: u64 = match *next_id {
            Some(v) => v,
            None => 0,
        };
        let proposal = Proposal {
            proposer,
            title,
            description,
            vote_start: now,
            vote_end: now + c.voting_period,
            votes_for: 0,
            votes_against: 0,
            abstentions: 0,
            passed_at: None,
            state: ProposalState::Active,
        };
        *next_id = Some(proposal_id + 1);
        let index = active.len() as u32;
        active.push(proposal_id);
        Gated::Signed { signers, outcome: Ok((proposal_id, proposal, index)) }
    }

    /// Cast a vote of `weight` in `direction` as `voter` at `now`.
    /// `voter_balance` is the voter's balance of the vote token and
    /// `vote_record` the weight recorded for the voter on this proposal, if
    /// any; a recorded vote blocks another, and success records `weight`.
    pub fn vote(
        config: &Option<GovernorConfig>,
        voter_balance: i128,
        vote_record: &mut Option<i128>,
        proposal: &mut Option<Proposal>,
        voter: Address,
        direction: VoteDirection,
        weight: i128,
        now: u64,
    ) -> (r: Gated<(), GovernorError>)
        requires
            vote_verdict(*config, voter_balance, old(vote_record).is_some(), *old(proposal), weight, now) is Accepted
                ==> vote_fits(old(proposal).unwrap(), direction, weight),
        ensures
            gated_agrees(r, vote_verdict(*config, voter_balance, old(vote_record).is_some(), *old(proposal), weight, now)),
            gated_signers(r, seq![voter@]),
            vote_verdict(*config, voter_balance, old(vote_record).is_some(), *old(proposal), weight, now) is Accepted
                ==> *final(proposal) == Some(with_vote(old(proposal).unwrap(), direction, weight))
                    && *final(vote_record) == Some(weight),
            !(vote_verdict(*config, voter_balance, old(vote_record).is_some(), *old(proposal), weight, now) is Accepted)
                ==> *final(proposal) == *old(proposal) && *final(vote_record) == *old(vote_record),
    {
        let signers = one_signer(&voter);
        if config.is_none() {
            return Gated::Signed { signers, outcome: Err(GovernorError::NotInitialized) };
        }
        if weight > voter_balance {
            return Gated::Signed { signers, outcome: Err(GovernorError::InvalidWeight) };
        }
        if vote_record.is_some() {
            return Gated::Signed { signers, outcome: Err(GovernorError::AlreadyVoted) };
        }
        let p = match &*proposal {
            None => { return Gated::Signed { signers, outcome: Err(GovernorError::ProposalNotFound) }; },
            Some(p) => p,
        };
        if p.state != ProposalState::Active {
            return Gated::Signed { signers, outcome: Err(GovernorError::VotingClosed) };
        }
        if now > p.vote_end {
            return Gated::Signed { signers, outcome: Err(GovernorError::VotingClosed) };
        }
        if weight <= 0 {
            return Gated::Signed { signers, outcome: Err(GovernorError::InvalidWeight) };
        }
        let mut p = proposal.take().unwrap();
        match direction {
            VoteDirection::For => p.votes_for = p.votes_for + weight,
            VoteDirection::Against => p.votes_against = p.votes_against + weight,
            VoteDirection::Abstain => p.abstentions = p.abstentions + weight,
        }
        *proposal = Some(p);
        *vote_record = Some(weight);
        Gated::Signed { signers, outcome: Ok(()) }
    }

    /// Finalize a proposal once its voting period is over, as passed when the
    /// quorum is reached and more weight is for than against, and as failed
    /// otherwise. The proposal leaves the active list; `index` is its
    /// position there, and the value lists the positions to record anew.
    pub fn finalize(
        proposal: &mut Option<Proposal>,
        config: &Option<GovernorConfig>,
        active: &mut Vec<u64>,
        index: Option<u32>,
        now: u64,
    ) -> (r: Result<(ProposalState, Vec<(u64, u32)>), GovernorError>)
        requires
            old(active)@.len() <= u32::MAX,
            finalize_error(*old(proposal), *config, now) is None ==> {
                let p = old(proposal).unwrap();
                i128::MIN <= total_votes(p) <= i128::MAX
                    && i128::MIN <= p.votes_for + p.votes_against <= i128::MAX
            },
        ensures
            finalize_error(*old(proposal), *config, now) matches Some(e) ==> {
                &&& r is Err && r->Err_0 == e
                &&& *final(proposal) == *old(proposal)
                &&& final(active)@ == old(active)@
            },
            finalize_error(*old(proposal), *config, now) is None ==> {
                let p = finalized(old(proposal).unwrap(), config.unwrap().quorum);
                &&& r is Ok
                &&& r->Ok_0.0 == p.state
                &&& *final(proposal) == Some(p)
                &&& match index {
                    Some(i) => {
                        &&& final(active)@ == removed_at(old(active)@, i as int)
                        &&& r->Ok_0.1@ == index_rewrites(final(active)@, i as int)
                    },
                    None => final(active)@ == old(active)@ && r->Ok_0.1@.len() == 0,
                }
            },
    {
        let p = match &*proposal {
            None => { return Err(GovernorError::ProposalNotFound); },
            Some(p) => p,
        };
        if p.state != ProposalState::Active {
            return Err(GovernorError::AlreadyFinalized);
        }
        if now <= p.vote_end {
            return Err(GovernorError::VotingStillOpen);
        }
        let c = match config {
            None => { return Err(GovernorError::NotInitialized); },
            Some(c) => c,
        };
        let mut p = proposal.take().unwrap();
        let total = p.votes_for + p.votes_against + p.abstentions;
        if total >= c.quorum && p.votes_for > p.votes_against {
            p.state = ProposalState::Passed;
            p.passed_at = Some(p.vote_end);
        } else {
            p.state = ProposalState::Failed;
        }
        let state = p.state;
        *proposal = Some(p);
        let rewrites = Self::remove_active_proposal(active, index);
        Ok((state, rewrites))
    }

    /// Removes the proposal at position `index` (when there is one) from the
    /// active list, and returns the ids that moved with their new positions.
    pub fn remove_active_proposal(active: &mut Vec<u64>, index: Option<u32>) -> (r: Vec<(u64, u32)>)
        requires
            old(active)@.len() <= u32::MAX,
        ensures
            match index {
                Some(i) => {
                    &&& final(active)@ == removed_at(old(active)@, i as int)
                    &&& r@ == index_rewrites(final(active)@, i as int)
                },
                None => final(active)@ == old(active)@ && r@.len() == 0,
            },
    {
        let mut rewrites: Vec<(u64, u32)> = Vec::new();
        let i = match index {
            None => { return rewrites; },
            Some(i) => i,
        };
        if (i as usize) < active.len() {
            active.remove(i as usize);
        }
        let n = active.len();
        let start = i as usize;
        if start < n {
            let mut k: usize = start;
            while k < n
                invariant
                    n == active@.len(),
                    n <= u32::MAX,
                    start <= k <= n,
                    start == i as usize,
                    active@ == removed_at(old(active)@, i as int),
                    rewrites@ == index_rewrites(active@, start as int).subrange(0, (k - start) as int),
                decreases n - k,
            {
                rewrites.push((active[k], k as u32));
                k += 1;
                proof {
                    assert(rewrites@ =~= index_rewrites(active@, start as int).subrange(0, (k - start) as int));
                }
            }
            proof {
                assert(index_rewrites(active@, start as int).subrange(0, (n - start) as int)
                    =~= index_rewrites(active@, start as int));
            }
        } else {
            proof {
                assert(rewrites@ =~= index_rewrites(active@, start as int));
            }
        }
        rewrites
    }
}

// ── Checks of the preconditions ───────────────────────────────────────────────

impl GovernorContract {
    /// Whether `propose` at `now` stays within range, as its `requires` states.
    pub fn propose_computable(config: &Option<GovernorConfig>, next_id: &Option<u64>, active: &Vec<u64>, now: u64) -> (r: bool)
        ensures
            r == (propose_verdict(*config) is Accepted ==> {
                &&& now + config.unwrap().voting_period <= u64::MAX
                &&& next_id_of(*next_id) < u64::MAX
                &&& active@.len() < u32::MAX
            }),
    {
        let c = match config {
            None => { return true; },
            Some(c) => c,
        };
        let id: u64 = match *next_id {
            Some(v) => v,
            None => 0,
        };
        now.checked_add(c.voting_period).is_some() && id < u64::MAX && active.len() < u32::MAX as usize
    }

    /// Whether `vote` keeps the tally within range, as its `requires` states.
    pub fn vote_computable(
        config: &Option<GovernorConfig>,
        voter_balance: i128,
        vote_record: &Option<i128>,
        proposal: &Option<Proposal>,
        direction: VoteDirection,
        weight: i128,
        now: u64,
    ) -> (r: bool)
        ensures
            r == (vote_verdict(*config, voter_balance, vote_record.is_some(), *proposal, weight, now) is Accepted
                ==> vote_fits(proposal.unwrap(), direction, weight)),
    {
        if config.is_none() || weight > voter_balance || vote_record.is_some() {
            return true;
        }
        let p = match proposal {
            None => { return true; },
            Some(p) => p,
        };
        if p.state != ProposalState::Active || now > p.vote_end || weight <= 0 {
            return true;
        }
        match direction {
            VoteDirection::For => p.votes_for.checked_add(weight).is_some(),
            VoteDirection::Against => p.votes_against.checked_add(weight).is_some(),
            VoteDirection::Abstain => p.abstentions.checked_add(weight).is_some(),
        }
    }

    /// Whether `finalize` keeps its sums within range, as its `requires`
    /// states.
    pub fn finalize_computable(proposal: &Option<Proposal>, config: &Option<GovernorConfig>, now: u64) -> (r: bool)
        ensures
            r == (finalize_error(*proposal, *config, now) is None ==> {
                let p = proposal.unwrap();
                i128::MIN <= total_votes(p) <= i128::MAX
                    && i128::MIN <= p.votes_for + p.votes_against <= i128::MAX
            }),
    {
        let p = match proposal {
            None => { return true; },
            Some(p) => p,
        };
        if p.state != ProposalState::Active || now <= p.vote_end || config.is_none() {
            return true;
        }
        match p.votes_for.checked_add(p.votes_against) {
            None => false,
            Some(s) => s.checked_add(p.abstentions).is_some(),
        }
    }
}

// ── Laws ─────────────────────────────────────────────────────────────────────

/// A proposal passes exactly when the quorum is reached and more weight is
/// for it than against it; a finalized proposal is no longer active, so it
/// can neither be voted on nor finalized again.
pub proof fn law_finalize_decides(
    p: Proposal,
    c: Option<GovernorConfig>,
    balance: i128,
    weight: i128,
    now: u64,
    later: u64,
)
    requires
        finalize_error(Some(p), c, now) is None,
    ensures
        finalized(p, c.unwrap().quorum).state == ProposalState::Passed
            <==> (total_votes(p) >= c.unwrap().quorum && p.votes_for > p.votes_against),
        finalized(p, c.unwrap().quorum).state == ProposalState::Passed
            ==> finalized(p, c.unwrap().quorum).passed_at == Some(p.vote_end),
        finalize_error(Some(finalized(p, c.unwrap().quorum)), c, later) == Some(GovernorError::AlreadyFinalized),
        vote_verdict(c, balance, false, Some(finalized(p, c.unwrap().quorum)), weight, later) is Rejected,
{
}

/// A vote adds its weight to exactly one side of the tally, so the total
/// weight cast grows by the vote's weight.
pub proof fn law_vote_adds_weight(p: Proposal, direction: VoteDirection, weight: i128)
    requires
        vote_fits(p, direction, weight),
    ensures
        total_votes(with_vote(p, direction, weight)) == total_votes(p) + weight,
        with_vote(p, direction, weight).state == p.state,
        with_vote(p, direction, weight).vote_end == p.vote_end,
{
}

/// A recorded vote blocks every later vote of the same voter on the
/// proposal, and nobody votes after the period.
pub proof fn law_vote_once_in_period(
    c: Option<GovernorConfig>,
    balance: i128,
    record: Option<i128>,
    p: Option<Proposal>,
    weight: i128,
    now: u64,
)
    requires
        c is Some,
    ensures
        record is Some ==> vote_verdict(c, balance, record is Some, p, weight, now) is Rejected,
        record is Some && weight <= balance
            ==> vote_verdict(c, balance, record is Some, p, weight, now) == Verdict::<GovernorError>::Rejected(GovernorError::AlreadyVoted),
        p matches Some(q) && now > q.vote_end && weight <= balance && record is None ==>
            vote_verdict(c, balance, record is Some, p, weight, now) == Verdict::<GovernorError>::Rejected(GovernorError::VotingClosed),
{
}

/// The index map once a proposal left the active list: its own entry
/// deleted, then each rewrite recorded in turn.
pub open spec fn index_after_removal(index: Map<u64, u32>, removed: u64, rewrites: Seq<(u64, u32)>) -> Map<u64, u32>
    decreases rewrites.len(),
{
    if rewrites.len() == 0 {
        index.remove(removed)
    } else {
        index_after_removal(index, removed, rewrites.drop_last()).insert(rewrites.last().0, rewrites.last().1)
    }
}

/// The index map names exactly the active proposals, each with its position.
pub open spec fn index_exact(ids: Seq<u64>, index: Map<u64, u32>) -> bool {
    &&& index_consistent(ids, index)
    &&& index.dom() == ids.to_set()
}

/// What the active list and its index map become under one operation.
pub enum ActiveListStep {
    /// A proposal is created with the next id and joins the list.
    Propose,
    /// The proposal with this id is finalized.
    Finalize(u64),
}

/// The active list, its index map and the next proposal id.
pub struct ActiveList {
    pub ids: Seq<u64>,
    pub index: Map<u64, u32>,
    pub next_id: u64,
}

/// One step: `propose` appends the next id at the end and records its
/// position; `finalize` removes the id at its recorded position (when it has
/// one), deletes its entry and records the rewritten positions.
pub open spec fn active_list_step(s: ActiveList, step: ActiveListStep) -> ActiveList {
    match step {
        ActiveListStep::Propose => if s.ids.len() < u32::MAX && s.next_id < u64::MAX {
            ActiveList {
                ids: s.ids.push(s.next_id),
                index: s.index.insert(s.next_id, s.ids.len() as u32),
                next_id: (s.next_id + 1) as u64,
            }
        } else {
            s
        },
        ActiveListStep::Finalize(id) => if s.index.contains_key(id) {
            let pos = s.index[id] as int;
            let after = removed_at(s.ids, pos);
            ActiveList {
                ids: after,
                index: index_after_removal(s.index, id, index_rewrites(after, pos)),
                next_id: s.next_id,
            }
        } else {
            s
        },
    }
}

pub open spec fn active_list_run(s: ActiveList, steps: Seq<ActiveListStep>) -> ActiveList
    decreases steps.len(),
{
    if steps.len() == 0 {
        s
    } else {
        active_list_step(active_list_run(s, steps.drop_last()), steps.last())
    }
}

/// The invariant of the active list: the index is exact and every listed id
/// was handed out already.
pub open spec fn active_list_valid(s: ActiveList) -> bool {
    &&& index_exact(s.ids, s.index)
    &&& forall|k: int| 0 <= k < s.ids.len() ==> #[trigger] s.ids[k] < s.next_id
}

proof fn lemma_index_after_removal(index: Map<u64, u32>, removed: u64, rw: Seq<(u64, u32)>, x: u64)
    requires
        forall|j: int| 0 <= j < rw.len() ==> #[trigger] rw[j].0 != removed,
        forall|i: int, j: int| 0 <= i < j < rw.len() ==> rw[i].0 != rw[j].0,
    ensures
        (exists|j: int| 0 <= j < rw.len() && #[trigger] rw[j].0 == x) ==> {
            let j = choose|j: int| 0 <= j < rw.len() && #[trigger] rw[j].0 == x;
            index_after_removal(index, removed, rw).contains_key(x)
                && index_after_removal(index, removed, rw)[x] == rw[j].1
        },
        !(exists|j: int| 0 <= j < rw.len() && #[trigger] rw[j].0 == x) ==> {
            &&& index_after_removal(index, removed, rw).contains_key(x) <==> (x != removed && index.contains_key(x))
            &&& index_after_removal(index, removed, rw).contains_key(x) ==> index_after_removal(index, removed, rw)[x] == index[x]
        },
    decreases rw.len(),
{
    if rw.len() > 0 {
        let init = rw.drop_last();
        lemma_index_after_removal(index, removed, init, x);
        let last = rw.len() - 1;
        if exists|j: int| 0 <= j < rw.len() && #[trigger] rw[j].0 == x {
            let j = choose|j: int| 0 <= j < rw.len() && #[trigger] rw[j].0 == x;
            if j < last {
                assert(init[j].0 == x);
                assert(rw[last].0 != x);
                let j2 = choose|j: int| 0 <= j < init.len() && #[trigger] init[j].0 == x;
                if j2 != j {
                    assert(rw[j2].0 == x);
                }
            }
        } else {
            assert forall|j: int| 0 <= j < init.len() implies #[trigger] init[j].0 != x by {
                assert(rw[j].0 != x);
            }
            assert(rw[last].0 != x);
        }
    }
}

/// Finalizing the proposal at position `pos`, once its entry is deleted and
/// the rewrites are recorded: the others keep their order, each is indexed at
/// its new position, and the removed id has no entry; where the index named
/// only the listed ids before, it still does.
pub proof fn law_active_index_stays_exact(ids: Seq<u64>, index: Map<u64, u32>, pos: int)
    requires
        index_consistent(ids, index),
        0 <= pos < ids.len(),
    ensures
        ({
            let after = removed_at(ids, pos);
            let idx = index_after_removal(index, ids[pos], index_rewrites(after, pos));
            &&& after == ids.remove(pos)
            &&& index_consistent(after, idx)
            &&& index.dom() == ids.to_set() ==> idx.dom() == after.to_set()
            &&& !idx.contains_key(ids[pos])
            &&& forall|k: int| 0 <= k < pos ==> #[trigger] after[k] == ids[k]
        }),
{
    let id = ids[pos];
    let after = ids.remove(pos);
    let rw = index_rewrites(after, pos);
    let idx = index_after_removal(index, id, rw);
    assert forall|i: int, j: int| 0 <= i < j < after.len() implies after[i] != after[j] by {
        let oi = if i < pos { i } else { i + 1 };
        let oj = if j < pos { j } else { j + 1 };
        assert(after[i] == ids[oi]);
        assert(after[j] == ids[oj]);
    }
    assert forall|k: int| 0 <= k < after.len() implies #[trigger] after[k] != id by {
        let ok = if k < pos { k } else { k + 1 };
        assert(after[k] == ids[ok]);
    }
    assert forall|j: int| 0 <= j < rw.len() implies #[trigger] rw[j].0 != id by {
        assert(rw[j].0 == after[pos + j]);
    }
    assert forall|i: int, j: int| 0 <= i < j < rw.len() implies rw[i].0 != rw[j].0 by {
        assert(rw[i].0 == after[pos + i]);
        assert(rw[j].0 == after[pos + j]);
    }
    assert forall|k: int| 0 <= k < after.len() implies #[trigger] idx.contains_key(after[k]) && idx[after[k]] == k by {
        let x = after[k];
        lemma_index_after_removal(index, id, rw, x);
        if k >= pos {
            assert(rw[k - pos].0 == x);
            let j = choose|j: int| 0 <= j < rw.len() && #[trigger] rw[j].0 == x;
            assert(rw[j].0 == after[pos + j]);
            assert(index_consistent(ids, index));
            assert(k <= u32::MAX) by {
                assert(index.contains_key(ids[k + 1]));
            }
        } else {
            assert(after[k] == ids[k]);
            assert(index[ids[k]] == k);
            if exists|j: int| 0 <= j < rw.len() && #[trigger] rw[j].0 == x {
                let j = choose|j: int| 0 <= j < rw.len() && #[trigger] rw[j].0 == x;
                assert(rw[j].0 == after[pos + j]);
            }
        }
    }
    if index.dom() == ids.to_set() {
        assert forall|x: u64| #[trigger] idx.contains_key(x) <==> after.to_set().contains(x) by {
            lemma_index_after_removal(index, id, rw, x);
            if exists|j: int| 0 <= j < rw.len() && #[trigger] rw[j].0 == x {
                let j = choose|j: int| 0 <= j < rw.len() && #[trigger] rw[j].0 == x;
                assert(rw[j].0 == after[pos + j]);
            } else if after.contains(x) {
                let k = choose|k: int| 0 <= k < after.len() && after[k] == x;
                if k >= pos {
                    assert(rw[k - pos].0 == x);
                }
            } else {
                if x != id && index.contains_key(x) {
                    assert(ids.to_set().contains(x));
                    let k = choose|k: int| 0 <= k < ids.len() && ids[k] == x;
                    let ak = if k < pos { k } else { k - 1 };
                    assert(after[ak] == x);
                }
            }
        }
        assert(idx.dom() =~= after.to_set());
    }
    lemma_index_after_removal(index, id, rw, id);
}

/// Creating a proposal keeps the index map exact.
proof fn lemma_propose_keeps_index(s: ActiveList)
    requires
        active_list_valid(s),
    ensures
        active_list_valid(active_list_step(s, ActiveListStep::Propose)),
{
    if s.ids.len() < u32::MAX && s.next_id < u64::MAX {
        let t = active_list_step(s, ActiveListStep::Propose);
        assert forall|k: int| 0 <= k < t.ids.len() implies #[trigger] t.index.contains_key(t.ids[k]) && t.index[t.ids[k]] == k by {
            if k < s.ids.len() {
                assert(t.ids[k] == s.ids[k]);
                assert(s.ids[k] < s.next_id);
            }
        }
        assert forall|i: int, j: int| 0 <= i < j < t.ids.len() implies t.ids[i] != t.ids[j] by {
            if j == s.ids.len() {
                assert(s.ids[i] < s.next_id);
            }
        }
        assert forall|x: u64| #[trigger] t.index.contains_key(x) <==> t.ids.to_set().contains(x) by {
            if x != s.next_id && t.ids.contains(x) {
                let k = choose|k: int| 0 <= k < t.ids.len() && t.ids[k] == x;
                assert(s.ids[k] == x);
            }
            if s.ids.contains(x) {
                let k = choose|k: int| 0 <= k < s.ids.len() && s.ids[k] == x;
                assert(t.ids[k] == x);
            }
            if x == s.next_id {
                assert(t.ids[s.ids.len() as int] == x);
            }
        }
        assert(t.index.dom() =~= t.ids.to_set());
    }
}

/// Over any sequence of proposals and finalizations, starting from an empty
/// list, the index map records exactly the active proposals, each with its
/// position, and no proposal is listed twice.
pub proof fn law_active_list_stays_exact(steps: Seq<ActiveListStep>, next_id: u64)
    ensures
        active_list_valid(active_list_run(ActiveList { ids: Seq::empty(), index: Map::empty(), next_id }, steps)),
    decreases steps.len(),
{
    let s0 = ActiveList { ids: Seq::empty(), index: Map::empty(), next_id };
    if steps.len() == 0 {
        assert(s0.index.dom() =~= s0.ids.to_set());
    } else {
        law_active_list_stays_exact(steps.drop_last(), next_id);
        let s = active_list_run(s0, steps.drop_last());
        match steps.last() {
            ActiveListStep::Propose => lemma_propose_keeps_index(s),
            ActiveListStep::Finalize(id) => {
                if s.index.contains_key(id) {
                    assert(s.ids.to_set().contains(id));
                    let k = choose|k: int| 0 <= k < s.ids.len() && s.ids[k] == id;
                    assert(s.index[s.ids[k]] == k);
                    law_active_index_stays_exact(s.ids, s.index, k);
                    let t = active_list_step(s, steps.last());
                    assert forall|j: int| 0 <= j < t.ids.len() implies #[trigger] t.ids[j] < t.next_id by {
                        let oj = if j < k { j } else { j + 1 };
                        assert(t.ids[j] == s.ids[oj]);
                    }
                }
            },
        }
    }
}

/// A vote changes only the tally of its own direction, by its weight: a
/// vote for adds to `votes_for`, a vote against to `votes_against`, and an
/// abstention to `abstentions`; the other tallies and the rest of the
/// proposal stay as they were.
pub proof fn law_vote_changes_its_tally_only(p: Proposal, weight: i128)
    ensures
        i128::MIN <= p.votes_for + weight <= i128::MAX ==> {
            let q = with_vote(p, VoteDirection::For, weight);
            &&& q.votes_for == p.votes_for + weight
            &&& q.votes_against == p.votes_against
            &&& q.abstentions == p.abstentions
            &&& q.state == p.state && q.vote_end == p.vote_end && q.passed_at == p.passed_at
        },
        i128::MIN <= p.votes_against + weight <= i128::MAX ==> {
            let q = with_vote(p, VoteDirection::Against, weight);
            &&& q.votes_for == p.votes_for
            &&& q.votes_against == p.votes_against + weight
            &&& q.abstentions == p.abstentions
            &&& q.state == p.state && q.vote_end == p.vote_end && q.passed_at == p.passed_at
        },
        i128::MIN <= p.abstentions + weight <= i128::MAX ==> {
            let q = with_vote(p, VoteDirection::Abstain, weight);
            &&& q.votes_for == p.votes_for
            &&& q.votes_against == p.votes_against
            &&& q.abstentions == p.abstentions + weight
            &&& q.state == p.state && q.vote_end == p.vote_end && q.passed_at == p.passed_at
        },
        vote_fits(p, VoteDirection::For, weight) <==> i128::MIN <= p.votes_for + weight <= i128::MAX,
        vote_fits(p, VoteDirection::Against, weight) <==> i128::MIN <= p.votes_against + weight <= i128::MAX,
        vote_fits(p, VoteDirection::Abstain, weight) <==> i128::MIN <= p.abstentions + weight <= i128::MAX,
{
}

/// Finalizing decides by the tallies: the proposal passes exactly when all
/// weight cast, for, against and abstaining together, reaches the quorum
/// and more weight is for it than against it.
pub proof fn law_finalize_by_tallies(p: Proposal, quorum: i128)
    ensures
        (finalized(p, quorum).state == ProposalState::Passed)
            <==> (p.votes_for + p.votes_against + p.abstentions >= quorum && p.votes_for > p.votes_against),
        (finalized(p, quorum).state == ProposalState::Failed)
            <==> !(p.votes_for + p.votes_against + p.abstentions >= quorum && p.votes_for > p.votes_against),
        finalized(p, quorum).votes_for == p.votes_for,
        finalized(p, quorum).votes_against == p.votes_against,
        finalized(p, quorum).abstentions == p.abstentions,
{
}

/// A vote is accepted exactly when the governor is initialized, the weight
/// is positive and within the voter's balance, the voter has no recorded
/// vote, and the proposal is active and still within its voting period.
pub proof fn law_vote_conditions(
    c: Option<GovernorConfig>,
    balance: i128,
    voted: bool,
    p: Option<Proposal>,
    weight: i128,
    now: u64,
)
    ensures
        vote_verdict(c, balance, voted, p, weight, now) is Accepted <==> (c is Some && 0 < weight <= balance && !voted
            && p is Some && p.unwrap().state == ProposalState::Active && now <= p.unwrap().vote_end),
        c is Some && weight > balance
            ==> vote_verdict(c, balance, voted, p, weight, now) == Verdict::<GovernorError>::Rejected(GovernorError::InvalidWeight),
{
}

/// A proposal is finalized exactly when it is active, its voting period has
/// ended and the governor is initialized.
pub proof fn law_finalize_conditions(p: Proposal, c: Option<GovernorConfig>, now: u64)
    ensures
        finalize_error(Some(p), c, now) is None <==> (p.state == ProposalState::Active && now > p.vote_end && c is Some),
        p.state == ProposalState::Active && now <= p.vote_end
            ==> finalize_error(Some(p), c, now) == Some(GovernorError::VotingStillOpen),
        finalize_error(None, c, now) == Some(GovernorError::ProposalNotFound),
{
}

} // verus!
