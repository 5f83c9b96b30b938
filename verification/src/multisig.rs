//! An N-of-M multisig treasury: owners propose token transfers, approve them,
//! and execute them once enough owners approved and a timelock has passed.

use vstd::prelude::*;
use crate::address::{Address, address_views};
use crate::distinct::{first_occurrences, lemma_first_occurrences};
use crate::gate::{Gated, Verdict, gated_agrees, gated_signers, gated_value, one_signer};
use crate::transfer::{Direction, Settlement, Transfer, transfer_views, payout};

verus! {

/// Why a multisig operation fails.
#[derive(Copy, Clone, Debug, PartialEq, Eq, Structural)]
pub enum MultisigError {
    AlreadyInitialized,
    NotInitialized,
    Unauthorized,
    ProposalNotFound,
    AlreadyVoted,
    TimelockNotElapsed,
    AlreadyExecuted,
    AlreadyCancelled,
    InsufficientApprovals,
    InvalidThreshold,
    InvalidAmount,
    CannotCancel,
    InsufficientFunds,
}

/// The multisig contract.
pub struct MultisigContract;

/// A pending treasury transaction proposal.
#[derive(Debug)]
pub struct Proposal {
    /// Who proposed this transaction.
    pub proposer: Address,
    /// Destination address for the transfer.
    pub to: Address,
    /// Token address.
    pub token: Address,
    /// Amount to transfer.
    pub amount: i128,
    /// Number of approvals recorded for this proposal.
    pub approval_count: u32,
    /// Number of rejections recorded for this proposal.
    pub rejection_count: u32,
    /// Ledger timestamp when approval threshold was reached.
    pub approved_at: Option<u64>,
    /// Whether the proposal has been executed.
    pub executed: bool,
    /// Whether the proposal has been cancelled.
    pub cancelled: bool,
    /// Whether this is a native XLM transfer proposal.
    pub is_native: bool,
}

/// The settings the contract keeps: its owners (each once), how many
/// approvals a proposal needs, and the delay between approval and execution.
#[derive(Debug)]
pub struct MultisigSettings {
    pub owners: Option<Vec<Address>>,
    pub threshold: Option<u32>,
    pub timelock_delay: Option<u64>,
}

// ── Model ────────────────────────────────────────────────────────────────────

pub open spec fn initialize_error(settings: MultisigSettings, owners: Seq<Seq<u8>>, threshold: u32) -> Option<MultisigError> {
    if settings.owners is Some {
        Some(MultisigError::AlreadyInitialized)
    } else if threshold == 0 || threshold > first_occurrences(owners).len() {
        Some(MultisigError::InvalidThreshold)
    } else {
        None
    }
}

/// Whether `who` is one of the stored owners.
pub open spec fn is_owner_of(settings: MultisigSettings, who: Seq<u8>) -> bool {
    settings.owners matches Some(v) && address_views(v@).contains(who)
}

/// A stored flag, false where nothing was written.
pub open spec fn flag_set(f: Option<bool>) -> bool {
    match f {
        Some(b) => b,
        None => false,
    }
}

pub open spec fn committed_of(c: Option<i128>) -> int {
    match c {
        Some(v) => v as int,
        None => 0,
    }
}

pub open spec fn id_of(n: Option<u64>) -> u64 {
    match n {
        Some(v) => v,
        None => 0,
    }
}

pub open spec fn propose_verdict(is_owner: bool, threshold: Option<u32>, amount: i128) -> Verdict<MultisigError> {
    if !is_owner {
        Verdict::Rejected(MultisigError::Unauthorized)
    } else if amount <= 0 {
        Verdict::Rejected(MultisigError::InvalidAmount)
    } else if threshold is None {
        Verdict::Rejected(MultisigError::NotInitialized)
    } else {
        Verdict::Accepted
    }
}

/// The checks shared by approving and executing a stored proposal.
pub open spec fn open_proposal_error(is_owner: bool, proposal: Option<Proposal>) -> Option<MultisigError> {
    if !is_owner {
        Some(MultisigError::Unauthorized)
    } else {
        match proposal {
            None => Some(MultisigError::ProposalNotFound),
            Some(p) => if p.executed {
                Some(MultisigError::AlreadyExecuted)
            } else if p.cancelled {
                Some(MultisigError::AlreadyCancelled)
            } else {
                None
            },
        }
    }
}

pub open spec fn approve_verdict(
    is_owner: bool,
    proposal: Option<Proposal>,
    has_approved: bool,
    has_rejected: bool,
    threshold: Option<u32>,
) -> Verdict<MultisigError> {
    match open_proposal_error(is_owner, proposal) {
        Some(e) => Verdict::Rejected(e),
        None => if has_approved || has_rejected {
            Verdict::Rejected(MultisigError::AlreadyVoted)
        } else if threshold is None {
            Verdict::Rejected(MultisigError::NotInitialized)
        } else {
            Verdict::Accepted
        },
    }
}

/// `x + 1`, or `u32::MAX` when that overflows.
pub open spec fn saturating_inc(x: u32) -> u32 {
    if x == u32::MAX { x } else { (x + 1) as u32 }
}

/// Whether an approval brings the proposal to its threshold for the first
/// time, which commits its amount.
pub open spec fn approval_reaches_threshold(p: Proposal, threshold: u32) -> bool {
    saturating_inc(p.approval_count) >= threshold && p.approved_at is None
}

/// The proposal after an approval at `now`.
pub open spec fn approved_proposal(p: Proposal, threshold: u32, now: u64) -> Proposal {
    Proposal {
        approval_count: saturating_inc(p.approval_count),
        approved_at: if approval_reaches_threshold(p, threshold) { Some(now) } else { p.approved_at },
        ..p
    }
}

pub open spec fn execute_verdict(
    is_owner: bool,
    proposal: Option<Proposal>,
    timelock_delay: Option<u64>,
    committed: Option<i128>,
    balance: i128,
    now: u64,
) -> Verdict<MultisigError> {
    match open_proposal_error(is_owner, proposal) {
        Some(e) => Verdict::Rejected(e),
        None => {
            let p = proposal.unwrap();
            let delay: int = match timelock_delay {
                Some(d) => d as int,
                None => 0,
            };
            match p.approved_at {
                None => Verdict::Rejected(MultisigError::InsufficientApprovals),
                Some(at) => if now < at + delay {
                    Verdict::Rejected(MultisigError::TimelockNotElapsed)
                } else if balance < committed_of(committed) {
                    Verdict::Rejected(MultisigError::InsufficientFunds)
                } else {
                    Verdict::Accepted
                },
            }
        },
    }
}

/// `x - y`, or `i128::MIN` / `i128::MAX` when that leaves `i128`.
pub open spec fn saturating_sub_i128(x: int, y: int) -> i128 {
    if x - y > i128::MAX {
        i128::MAX
    } else if x - y < i128::MIN {
        i128::MIN
    } else {
        (x - y) as i128
    }
}

// ── Operations ───────────────────────────────────────────────────────────────

/// Whether the address `a` is in `list`.
fn contains_address(list: &Vec<Address>, a: &Address) -> (r: bool)
    ensures
        r == address_views(list@).contains(a@),
{
    let n = list.len();
    let mut i: usize = 0;
    while i < n
        invariant
            n == list@.len(),
            i <= n,
            forall|j: int| 0 <= j < i ==> list@[j]@ != a@,
        decreases n - i,
    {
        if list[i].same(a) {
            proof {
                assert(address_views(list@)[i as int] == a@);
            }
            return true;
        }
        i += 1;
    }
    proof {
        if address_views(list@).contains(a@) {
            let k = choose|k: int| 0 <= k < address_views(list@).len() && address_views(list@)[k] == a@;
            assert(list@[k]@ == a@);
        }
    }
    false
}

/// `x - y`, clamped to the range of `i128`.
fn sub_saturating(x: i128, y: i128) -> (r: i128)
    ensures
        r == saturating_sub_i128(x as int, y as int),
{
    if y > 0 && x < i128::MIN + y {
        i128::MIN
    } else if y < 0 && x > i128::MAX + y {
        i128::MAX
    } else {
        x - y
    }
}

impl MultisigContract {
    /// Initialize the treasury with its owners (repeats dropped), the number
    /// of approvals a proposal needs, and the timelock delay.
    pub fn initialize(
        settings: &mut MultisigSettings,
        owners: Vec<Address>,
        threshold: u32,
        timelock_delay: u64,
    ) -> (r: Result<(), MultisigError>)
        ensures
            initialize_error(*old(settings), address_views(owners@), threshold) matches Some(e)
                ==> r == Err::<(), MultisigError>(e) && *final(settings) == *old(settings),
            initialize_error(*old(settings), address_views(owners@), threshold) is None ==> {
                &&& r is Ok
                &&& final(settings).owners is Some
                &&& address_views(final(settings).owners.unwrap()@) == first_occurrences(address_views(owners@))
                &&& final(settings).threshold == Some(threshold)
                &&& final(settings).timelock_delay == Some(timelock_delay)
            },
    {
        if settings.owners.is_some() {
            return Err(MultisigError::AlreadyInitialized);
        }
        let mut unique_owners: Vec<Address> = Vec::new();
        let n = owners.len();
        let ghost input = address_views(owners@);
        let mut i: usize = 0;
        while i < n
            invariant
                n == owners@.len(),
                input == address_views(owners@),
                i <= n,
                address_views(unique_owners@) == first_occurrences(input.subrange(0, i as int)),
            decreases n - i,
        {
            let owner = &owners[i];
            proof {
                assert(input.subrange(0, i + 1).drop_last() =~= input.subrange(0, i as int));
                assert(input.subrange(0, i + 1).last() == owner@);
            }
            if !contains_address(&unique_owners, owner) {
                let ghost before = unique_owners@;
                unique_owners.push(owner.duplicate());
                proof {
                    assert(address_views(unique_owners@) =~= address_views(before).push(owner@));
                }
            }
            i += 1;
        }
        proof {
            assert(input.subrange(0, n as int) =~= input);
        }
        if threshold == 0 || threshold as usize > unique_owners.len() {
            return Err(MultisigError::InvalidThreshold);
        }
        settings.owners = Some(unique_owners);
        settings.threshold = Some(threshold);
        settings.timelock_delay = Some(timelock_delay);
        Ok(())
    }

    /// Propose a transfer of `amount` of `token` to `to`; the proposer's
    /// approval counts at once and is recorded in `proposer_approval`, the
    /// proposer's approval flag for the new id. On success the value is the new
    /// proposal's id and the proposal to store under it.
    pub fn propose(
        settings: &MultisigSettings,
        next_id: &mut Option<u64>,
        committed: &mut Option<i128>,
        proposer_approval: &mut Option<bool>,
        proposer: Address,
        to: Address,
        token: Address,
        amount: i128,
        now: u64,
    ) -> (r: Gated<(u64, Proposal), MultisigError>)
        requires
            propose_verdict(is_owner_of(*settings, proposer@), settings.threshold, amount).is_accepted() ==> {
                &&& id_of(*old(next_id)) < u64::MAX
                &&& settings.threshold.unwrap() <= 1 ==> committed_of(*old(committed)) + amount <= i128::MAX
            },
        ensures
            gated_agrees(r, propose_verdict(is_owner_of(*settings, proposer@), settings.threshold, amount)),
            gated_signers(r, seq![proposer@]),
            propose_verdict(is_owner_of(*settings, proposer@), settings.threshold, amount).is_accepted() ==> {
                let id = id_of(*old(next_id));
                let approved = settings.threshold.unwrap() <= 1;
                &&& gated_value(r).0 == id
                &&& gated_value(r).1 == (Proposal {
                    proposer,
                    to,
                    token,
                    amount,
                    approval_count: 1,
                    rejection_count: 0,
                    approved_at: if approved { Some(now) } else { None },
                    executed: false,
                    cancelled: false,
                    is_native: false,
                })
                &&& *final(next_id) == Some((id + 1) as u64)
                &&& *final(proposer_approval) == Some(true)
                &&& *final(committed) == if approved {
                    Some((committed_of(*old(committed)) + amount) as i128)
                } else {
                    *old(committed)
                }
            },
            !propose_verdict(is_owner_of(*settings, proposer@), settings.threshold, amount).is_accepted() ==> {
                &&& *final(next_id) == *old(next_id)
                &&& *final(committed) == *old(committed)
                &&& *final(proposer_approval) == *old(proposer_approval)
            },
    {
        let signers = one_signer(&proposer);
        if let Err(e) = Self::require_owner(settings, &proposer) {
            return Gated::Signed { signers, outcome: Err(e) };
        }
        if amount <= 0 {
            return Gated::Signed { signers, outcome: Err(MultisigError::InvalidAmount) };
        }
        let proposal_id: u64 = match *next_id {
            Some(v) => v,
            None => 0,
        };
        let th = match settings.threshold {
            None => { return Gated::Signed { signers, outcome: Err(MultisigError::NotInitialized) }; },
            Some(t) => t,
        };
        let approved_at = if 1 >= th { Some(now) } else { None };
        *next_id = Some(proposal_id + 1);
        *proposer_approval = Some(true);
        if approved_at.is_some() {
            let c: i128 = match *committed {
                Some(v) => v,
                None => 0,
            };
            *committed = Some(c + amount);
        }
        let proposal = Proposal {
            proposer,
            to,
            token,
            amount,
            approval_count: 1,
            rejection_count: 0,
            approved_at,
            executed: false,
            cancelled: false,
            is_native: false,
        };
        Gated::Signed { signers, outcome: Ok((proposal_id, proposal)) }
    }

    /// Approve a proposal as `owner` at `now`. `approval` and `rejection` are
    /// the owner's stored approval and rejection flags for the proposal; on
    /// success the approval is recorded.
    pub fn approve(
        settings: &MultisigSettings,
        proposal: &mut Option<Proposal>,
        approval: &mut Option<bool>,
        rejection: Option<bool>,
        committed: &mut Option<i128>,
        owner: Address,
        now: u64,
    ) -> (r: Gated<(), MultisigError>)
        requires
            approve_verdict(is_owner_of(*settings, owner@), *old(proposal), flag_set(*old(approval)), flag_set(rejection), settings.threshold).is_accepted()
                && approval_reaches_threshold(old(proposal).unwrap(), settings.threshold.unwrap())
                ==> i128::MIN <= committed_of(*old(committed)) + old(proposal).unwrap().amount <= i128::MAX,
        ensures
            gated_agrees(r, approve_verdict(is_owner_of(*settings, owner@), *old(proposal), flag_set(*old(approval)), flag_set(rejection), settings.threshold)),
            gated_signers(r, seq![owner@]),
            approve_verdict(is_owner_of(*settings, owner@), *old(proposal), flag_set(*old(approval)), flag_set(rejection), settings.threshold).is_accepted() ==> {
                let p = old(proposal).unwrap();
                let th = settings.threshold.unwrap();
                &&& *final(proposal) == Some(approved_proposal(p, th, now))
                &&& *final(committed) == if approval_reaches_threshold(p, th) {
                    Some((committed_of(*old(committed)) + p.amount) as i128)
                } else {
                    *old(committed)
                }
                &&& *final(approval) == Some(true)
            },
            !approve_verdict(is_owner_of(*settings, owner@), *old(proposal), flag_set(*old(approval)), flag_set(rejection), settings.threshold).is_accepted() ==> {
                &&& *final(proposal) == *old(proposal)
                &&& *final(committed) == *old(committed)
                &&& *final(approval) == *old(approval)
            },
    {
        let signers = one_signer(&owner);
        if let Err(e) = Self::require_owner(settings, &owner) {
            return Gated::Signed { signers, outcome: Err(e) };
        }
        let p = match &*proposal {
            None => { return Gated::Signed { signers, outcome: Err(MultisigError::ProposalNotFound) }; },
            Some(p) => p,
        };
        if p.executed {
            return Gated::Signed { signers, outcome: Err(MultisigError::AlreadyExecuted) };
        }
        if p.cancelled {
            return Gated::Signed { signers, outcome: Err(MultisigError::AlreadyCancelled) };
        }
        let has_approved = match *approval {
            Some(b) => b,
            None => false,
        };
        let has_rejected = match rejection {
            Some(b) => b,
            None => false,
        };
        if has_approved || has_rejected {
            return Gated::Signed { signers, outcome: Err(MultisigError::AlreadyVoted) };
        }
        let th = match settings.threshold {
            None => { return Gated::Signed { signers, outcome: Err(MultisigError::NotInitialized) }; },
            Some(t) => t,
        };
        let mut p = proposal.take().unwrap();
        p.approval_count = p.approval_count.saturating_add(1);
        if p.approval_count >= th && p.approved_at.is_none() {
            p.approved_at = Some(now);
            let c: i128 = match *committed {
                Some(v) => v,
                None => 0,
            };
            *committed = Some(c + p.amount);
        }
        *proposal = Some(p);
        *approval = Some(true);
        Gated::Signed { signers, outcome: Ok(()) }
    }

    /// Execute an approved proposal as `executor` at `now`, paying its amount
    /// out of the treasury. `balance` is the treasury's balance of the
    /// proposal's token and `committed` the amount committed in that token.
    pub fn execute(
        settings: &MultisigSettings,
        proposal: &mut Option<Proposal>,
        committed: &mut Option<i128>,
        balance: i128,
        executor: Address,
        now: u64,
    ) -> (r: Gated<Settlement<()>, MultisigError>)
        requires
            open_proposal_error(is_owner_of(*settings, executor@), *old(proposal)) is None ==>
                (old(proposal).unwrap().approved_at matches Some(at) ==> at + match settings.timelock_delay {
                    Some(d) => d as int,
                    None => 0,
                } <= u64::MAX),
        ensures
            gated_agrees(r, execute_verdict(is_owner_of(*settings, executor@), *old(proposal), settings.timelock_delay, *old(committed), balance, now)),
            gated_signers(r, seq![executor@]),
            execute_verdict(is_owner_of(*settings, executor@), *old(proposal), settings.timelock_delay, *old(committed), balance, now).is_accepted() ==> {
                let p = old(proposal).unwrap();
                &&& *final(proposal) == Some(Proposal { executed: true, ..p })
                &&& *final(committed) == Some(saturating_sub_i128(committed_of(*old(committed)), p.amount as int))
                &&& transfer_views(gated_value(r).transfers@) == seq![payout(p.token@, p.to@, p.amount as int)]
            },
            !execute_verdict(is_owner_of(*settings, executor@), *old(proposal), settings.timelock_delay, *old(committed), balance, now).is_accepted() ==> {
                &&& *final(proposal) == *old(proposal)
                &&& *final(committed) == *old(committed)
            },
    {
        let signers = one_signer(&executor);
        if let Err(e) = Self::require_owner(settings, &executor) {
            return Gated::Signed { signers, outcome: Err(e) };
        }
        let p = match &*proposal {
            None => { return Gated::Signed { signers, outcome: Err(MultisigError::ProposalNotFound) }; },
            Some(p) => p,
        };
        if p.executed {
            return Gated::Signed { signers, outcome: Err(MultisigError::AlreadyExecuted) };
        }
        if p.cancelled {
            return Gated::Signed { signers, outcome: Err(MultisigError::AlreadyCancelled) };
        }
        let approved_at = match p.approved_at {
            None => { return Gated::Signed { signers, outcome: Err(MultisigError::InsufficientApprovals) }; },
            Some(at) => at,
        };
        let delay: u64 = match settings.timelock_delay {
            Some(d) => d,
            None => 0,
        };
        if now < approved_at + delay {
            return Gated::Signed { signers, outcome: Err(MultisigError::TimelockNotElapsed) };
        }
        let c: i128 = match *committed {
            Some(v) => v,
            None => 0,
        };
        if balance < c {
            return Gated::Signed { signers, outcome: Err(MultisigError::InsufficientFunds) };
        }
        let mut transfers: Vec<Transfer> = Vec::new();
        transfers.push(Transfer::new(Direction::Payout, &p.token, &p.to, p.amount));
        proof {
            assert(transfer_views(transfers@) =~= seq![payout(p.token@, p.to@, p.amount as int)]);
        }
        let mut done = proposal.take().unwrap();
        done.executed = true;
        let new_committed = sub_saturating(c, done.amount);
        *proposal = Some(done);
        *committed = Some(new_committed);
        Gated::Signed { signers, outcome: Ok(Settlement { value: (), transfers }) }
    }

    /// Fails with `Unauthorized` unless `who` is one of the stored owners.
    pub fn require_owner(settings: &MultisigSettings, who: &Address) -> (r: Result<(), MultisigError>)
        ensures
            is_owner_of(*settings, who@) ==> r is Ok,
            !is_owner_of(*settings, who@) ==> r == Err::<(), MultisigError>(MultisigError::Unauthorized),
    {
        let is_owner = match &settings.owners {
            None => false,
            Some(list) => contains_address(list, who),
        };
        if !is_owner {
            return Err(MultisigError::Unauthorized);
        }
        Ok(())
    }
}

// ── Checks of the preconditions ───────────────────────────────────────────────

impl MultisigContract {
    /// Whether `propose` can do its arithmetic within range on these values,
    /// as its `requires` states.
    pub fn propose_computable(
        settings: &MultisigSettings,
        next_id: &Option<u64>,
        committed: &Option<i128>,
        proposer: &Address,
        amount: i128,
    ) -> (r: bool)
        ensures
            r == (propose_verdict(is_owner_of(*settings, proposer@), settings.threshold, amount).is_accepted() ==> {
                &&& id_of(*next_id) < u64::MAX
                &&& settings.threshold.unwrap() <= 1 ==> committed_of(*committed) + amount <= i128::MAX
            }),
    {
        if Self::require_owner(settings, proposer).is_err() || amount <= 0 {
            return true;
        }
        let th = match settings.threshold {
            None => { return true; },
            Some(t) => t,
        };
        let id: u64 = match *next_id {
            Some(v) => v,
            None => 0,
        };
        let c: i128 = match *committed {
            Some(v) => v,
            None => 0,
        };
        id < u64::MAX && (th > 1 || c <= i128::MAX - amount)
    }

    /// Whether `approve` can do its arithmetic within range on these values,
    /// as its `requires` states.
    pub fn approve_computable(
        settings: &MultisigSettings,
        proposal: &Option<Proposal>,
        approval: &Option<bool>,
        rejection: &Option<bool>,
        committed: &Option<i128>,
        owner: &Address,
    ) -> (r: bool)
        ensures
            r == (approve_verdict(is_owner_of(*settings, owner@), *proposal, flag_set(*approval), flag_set(*rejection), settings.threshold).is_accepted()
                && approval_reaches_threshold(proposal.unwrap(), settings.threshold.unwrap())
                ==> i128::MIN <= committed_of(*committed) + proposal.unwrap().amount <= i128::MAX),
    {
        if Self::require_owner(settings, owner).is_err() {
            return true;
        }
        let p = match proposal {
            None => { return true; },
            Some(p) => p,
        };
        if p.executed || p.cancelled {
            return true;
        }
        let voted = match *approval {
            Some(b) => b,
            None => false,
        } || match *rejection {
            Some(b) => b,
            None => false,
        };
        if voted {
            return true;
        }
        let th = match settings.threshold {
            None => { return true; },
            Some(t) => t,
        };
        if !(p.approval_count.saturating_add(1) >= th && p.approved_at.is_none()) {
            return true;
        }
        let c: i128 = match *committed {
            Some(v) => v,
            None => 0,
        };
        c.checked_add(p.amount).is_some()
    }

    /// Whether `execute` can add the timelock to the approval time within
    /// range, as its `requires` states.
    pub fn execute_computable(settings: &MultisigSettings, proposal: &Option<Proposal>, executor: &Address) -> (r: bool)
        ensures
            r == (open_proposal_error(is_owner_of(*settings, executor@), *proposal) is None ==>
                (proposal.unwrap().approved_at matches Some(at) ==> at + match settings.timelock_delay {
                    Some(d) => d as int,
                    None => 0,
                } <= u64::MAX)),
    {
        if Self::require_owner(settings, executor).is_err() {
            return true;
        }
        let p = match proposal {
            None => { return true; },
            Some(p) => p,
        };
        if p.executed || p.cancelled {
            return true;
        }
        let delay: u64 = match settings.timelock_delay {
            Some(d) => d,
            None => 0,
        };
        match p.approved_at {
            None => true,
            Some(at) => at.checked_add(delay).is_some(),
        }
    }

    /// Whether `execute` reads the treasury's balance: only once every check
    /// before the funds check has passed. Where it does not, the balance
    /// makes no difference to the outcome.
    pub fn execute_consults_balance(
        settings: &MultisigSettings,
        proposal: &Option<Proposal>,
        committed: &Option<i128>,
        executor: &Address,
        now: u64,
    ) -> (r: bool)
        ensures
            r == (open_proposal_error(is_owner_of(*settings, executor@), *proposal) is None
                && proposal.unwrap().approved_at is Some
                && now >= proposal.unwrap().approved_at.unwrap() + match settings.timelock_delay {
                    Some(d) => d as int,
                    None => 0,
                }),
            !r ==> forall|b: i128|
                #[trigger] execute_verdict(is_owner_of(*settings, executor@), *proposal, settings.timelock_delay, *committed, b, now)
                    == execute_verdict(is_owner_of(*settings, executor@), *proposal, settings.timelock_delay, *committed, 0i128, now),
    {
        if Self::require_owner(settings, executor).is_err() {
            return false;
        }
        let p = match proposal {
            None => { return false; },
            Some(p) => p,
        };
        if p.executed || p.cancelled {
            return false;
        }
        let delay: u64 = match settings.timelock_delay {
            Some(d) => d,
            None => 0,
        };
        match p.approved_at {
            None => false,
            Some(at) => match at.checked_add(delay) {
                None => false,
                Some(due) => now >= due,
            },
        }
    }
}

// ── Laws ─────────────────────────────────────────────────────────────────────

/// An initialized treasury never needs more approvals than it has owners,
/// nor fewer than one.
pub proof fn law_threshold_reachable(settings: MultisigSettings, owners: Seq<Seq<u8>>, threshold: u32)
    requires
        initialize_error(settings, owners, threshold) is None,
    ensures
        1 <= threshold <= first_occurrences(owners).len(),
        first_occurrences(owners).len() <= owners.len(),
{
    lemma_first_occurrences(owners);
}

/// After initialization an address counts as an owner exactly when it was
/// among the owners given, however often it was given.
pub proof fn law_owner_membership(
    before: MultisigSettings,
    owners: Seq<Seq<u8>>,
    threshold: u32,
    after: MultisigSettings,
    who: Seq<u8>,
)
    requires
        initialize_error(before, owners, threshold) is None,
        after.owners is Some,
        address_views(after.owners.unwrap()@) == first_occurrences(owners),
    ensures
        is_owner_of(after, who) <==> owners.contains(who),
        address_views(after.owners.unwrap()@).no_duplicates(),
{
    lemma_first_occurrences(owners);
}

/// An owner votes at most once on a proposal: once `propose` or `approve`
/// has recorded the owner's approval, another approval is refused.
pub proof fn law_no_double_vote(
    settings: MultisigSettings,
    proposal: Option<Proposal>,
    rejection: Option<bool>,
    owner: Seq<u8>,
)
    requires
        open_proposal_error(is_owner_of(settings, owner), proposal) is None,
    ensures
        approve_verdict(is_owner_of(settings, owner), proposal, flag_set(Some(true)), flag_set(rejection), settings.threshold)
            == Verdict::<MultisigError>::Rejected(MultisigError::AlreadyVoted),
{
}

/// The approval time is set once: the approval that reaches the threshold
/// records it and commits the amount, and no later approval changes it.
pub proof fn law_approval_time_set_once(p: Proposal, th: u32, t1: u64, t2: u64)
    requires
        approval_reaches_threshold(p, th),
    ensures
        approved_proposal(p, th, t1).approved_at == Some(t1),
        !approval_reaches_threshold(approved_proposal(p, th, t1), th),
        approved_proposal(approved_proposal(p, th, t1), th, t2).approved_at == Some(t1),
{
}

/// A proposal is executed at most once, and only after its timelock.
pub proof fn law_execute_once_after_timelock(
    is_owner: bool,
    p: Proposal,
    timelock_delay: Option<u64>,
    committed: Option<i128>,
    balance: i128,
    now: u64,
    later: u64,
)
    requires
        execute_verdict(is_owner, Some(p), timelock_delay, committed, balance, now).is_accepted(),
    ensures
        p.approved_at is Some,
        now >= p.approved_at.unwrap() + match timelock_delay {
            Some(d) => d as int,
            None => 0,
        },
        balance >= committed_of(committed),
        execute_verdict(is_owner, Some(Proposal { executed: true, ..p }), timelock_delay, committed, balance, later)
            == Verdict::<MultisigError>::Rejected(MultisigError::AlreadyExecuted),
{
}

/// The committed amount tracks approved but unexecuted proposals: the
/// approval that reaches the threshold adds the proposal's amount, and its
/// execution takes the same amount off again.
pub proof fn law_commit_then_release(p: Proposal, th: u32, committed: int, now: u64)
    requires
        approval_reaches_threshold(p, th),
        i128::MIN <= committed <= i128::MAX,
        i128::MIN <= committed + p.amount <= i128::MAX,
    ensures
        approved_proposal(p, th, now).approved_at == Some(now),
        saturating_sub_i128(committed + p.amount, approved_proposal(p, th, now).amount as int) == committed,
{
}

// ── The committed amounts over any sequence of calls ─────────────────────────

/// A call on an initialized treasury, with the ledger time at which it is
/// made (and, for an execution, the treasury's balance of the token).
pub enum MultisigCall {
    Propose { proposer: Address, to: Address, token: Address, amount: i128, now: u64 },
    Approve { id: u64, owner: Address, now: u64 },
    Execute { id: u64, executor: Address, balance: i128, now: u64 },
}

/// What the treasury keeps besides its settings: the proposals by id, the
/// committed amount per token, and the recorded approvals as (id, owner).
pub struct Treasury {
    pub proposals: Seq<Proposal>,
    pub committed: Map<Seq<u8>, int>,
    pub approvals: Set<(int, Seq<u8>)>,
}

/// The committed amount of `token`, zero where nothing was written.
pub open spec fn committed_in(t: Treasury, token: Seq<u8>) -> int {
    if t.committed.contains_key(token) { t.committed[token] } else { 0 }
}

/// What a proposal adds to the committed amount of `token`: its amount while
/// it is approved and not executed, and nothing otherwise.
pub open spec fn pending_amount(p: Proposal, token: Seq<u8>) -> int {
    if p.token@ == token && p.approved_at is Some && !p.executed { p.amount as int } else { 0 }
}

/// The total of the amounts of `token` that the proposals hold pending.
pub open spec fn pending_total(ps: Seq<Proposal>, token: Seq<u8>) -> int
    decreases ps.len(),
{
    if ps.len() == 0 {
        0
    } else {
        pending_total(ps.drop_last(), token) + pending_amount(ps.last(), token)
    }
}

/// The treasury after one call. A call that fails, or whose arithmetic
/// would overflow (the host then aborts it), changes nothing.
pub open spec fn treasury_step(settings: MultisigSettings, t: Treasury, call: MultisigCall) -> Treasury {
    match call {
        MultisigCall::Propose { proposer, to, token, amount, now } => {
            let th = settings.threshold.unwrap();
            let approved = th <= 1;
            if propose_verdict(is_owner_of(settings, proposer@), settings.threshold, amount).is_accepted()
                && t.proposals.len() < u64::MAX
                && (approved ==> committed_in(t, token@) + amount <= i128::MAX)
            {
                Treasury {
                    proposals: t.proposals.push(Proposal {
                        proposer,
                        to,
                        token,
                        amount,
                        approval_count: 1,
                        rejection_count: 0,
                        approved_at: if approved { Some(now) } else { None },
                        executed: false,
                        cancelled: false,
                        is_native: false,
                    }),
                    committed: if approved {
                        t.committed.insert(token@, committed_in(t, token@) + amount)
                    } else {
                        t.committed
                    },
                    approvals: t.approvals.insert((t.proposals.len() as int, proposer@)),
                }
            } else {
                t
            }
        },
        MultisigCall::Approve { id, owner, now } => {
            if id < t.proposals.len() {
                let p = t.proposals[id as int];
                let th = settings.threshold.unwrap();
                let reaches = approval_reaches_threshold(p, th);
                if approve_verdict(is_owner_of(settings, owner@), Some(p), t.approvals.contains((id as int, owner@)), false, settings.threshold).is_accepted()
                    && (reaches ==> committed_in(t, p.token@) + p.amount <= i128::MAX)
                {
                    Treasury {
                        proposals: t.proposals.update(id as int, approved_proposal(p, th, now)),
                        committed: if reaches {
                            t.committed.insert(p.token@, committed_in(t, p.token@) + p.amount)
                        } else {
                            t.committed
                        },
                        approvals: t.approvals.insert((id as int, owner@)),
                    }
                } else {
                    t
                }
            } else {
                t
            }
        },
        MultisigCall::Execute { id, executor, balance, now } => {
            if id < t.proposals.len() {
                let p = t.proposals[id as int];
                let delay: int = match settings.timelock_delay {
                    Some(d) => d as int,
                    None => 0,
                };
                let c = committed_in(t, p.token@);
                if execute_verdict(is_owner_of(settings, executor@), Some(p), settings.timelock_delay, Some(c as i128), balance, now).is_accepted()
                    && p.approved_at.unwrap() + delay <= u64::MAX
                {
                    Treasury {
                        proposals: t.proposals.update(id as int, Proposal { executed: true, ..p }),
                        committed: t.committed.insert(p.token@, saturating_sub_i128(c, p.amount as int) as int),
                        approvals: t.approvals,
                    }
                } else {
                    t
                }
            } else {
                t
            }
        },
    }
}

/// The treasury after the calls in turn.
pub open spec fn run_treasury(settings: MultisigSettings, t: Treasury, calls: Seq<MultisigCall>) -> Treasury
    decreases calls.len(),
{
    if calls.len() == 0 {
        t
    } else {
        treasury_step(settings, run_treasury(settings, t, calls.drop_last()), calls.last())
    }
}

/// The committed amount of every token is the total of that token's
/// approved and unexecuted proposals, every proposal has a positive amount,
/// and every committed amount fits in `i128`.
pub open spec fn treasury_accounts(t: Treasury) -> bool {
    &&& forall|i: int| 0 <= i < t.proposals.len() ==> (#[trigger] t.proposals[i]).amount > 0
    &&& forall|token: Seq<u8>| #[trigger] committed_in(t, token) == pending_total(t.proposals, token)
    &&& forall|token: Seq<u8>| 0 <= #[trigger] committed_in(t, token) <= i128::MAX
}

proof fn lemma_pending_total_nonneg(ps: Seq<Proposal>, token: Seq<u8>)
    requires
        forall|i: int| 0 <= i < ps.len() ==> (#[trigger] ps[i]).amount > 0,
    ensures
        pending_total(ps, token) >= 0,
    decreases ps.len(),
{
    if ps.len() > 0 {
        let init = ps.drop_last();
        assert forall|i: int| 0 <= i < init.len() implies (#[trigger] init[i]).amount > 0 by {
            assert(init[i] == ps[i]);
        }
        lemma_pending_total_nonneg(init, token);
    }
}

proof fn lemma_pending_total_update(ps: Seq<Proposal>, i: int, q: Proposal, token: Seq<u8>)
    requires
        0 <= i < ps.len(),
    ensures
        pending_total(ps.update(i, q), token) == pending_total(ps, token) - pending_amount(ps[i], token) + pending_amount(q, token),
    decreases ps.len(),
{
    let up = ps.update(i, q);
    if i == ps.len() - 1 {
        assert(up.drop_last() =~= ps.drop_last());
    } else {
        assert(up.drop_last() =~= ps.drop_last().update(i, q));
        lemma_pending_total_update(ps.drop_last(), i, q, token);
    }
}

proof fn lemma_pending_total_push(ps: Seq<Proposal>, q: Proposal, token: Seq<u8>)
    ensures
        pending_total(ps.push(q), token) == pending_total(ps, token) + pending_amount(q, token),
{
    assert(ps.push(q).drop_last() =~= ps);
}

/// One call keeps the committed amounts exact.
proof fn lemma_step_keeps_accounts(settings: MultisigSettings, t: Treasury, call: MultisigCall)
    requires
        treasury_accounts(t),
    ensures
        treasury_accounts(treasury_step(settings, t, call)),
{
    let n = treasury_step(settings, t, call);
    match call {
        MultisigCall::Propose { proposer, to, token, amount, now } => {
            if n != t {
                let q = n.proposals.last();
                assert(n.proposals =~= t.proposals.push(q));
                assert forall|i: int| 0 <= i < n.proposals.len() implies (#[trigger] n.proposals[i]).amount > 0 by {
                    if i < t.proposals.len() {
                        assert(n.proposals[i] == t.proposals[i]);
                    }
                }
                assert forall|tk: Seq<u8>| #[trigger] committed_in(n, tk) == pending_total(n.proposals, tk) by {
                    lemma_pending_total_push(t.proposals, q, tk);
                    assert(committed_in(t, tk) == pending_total(t.proposals, tk));
                }
                assert forall|tk: Seq<u8>| 0 <= #[trigger] committed_in(n, tk) <= i128::MAX by {
                    assert(0 <= committed_in(t, tk) <= i128::MAX);
                }
            }
        },
        MultisigCall::Approve { id, owner, now } => {
            if n != t {
                let i = id as int;
                let p = t.proposals[i];
                let q = n.proposals[i];
                assert(n.proposals == t.proposals.update(i, q));
                assert forall|j: int| 0 <= j < n.proposals.len() implies (#[trigger] n.proposals[j]).amount > 0 by {
                    assert(t.proposals[j].amount > 0);
                }
                assert forall|tk: Seq<u8>| #[trigger] committed_in(n, tk) == pending_total(n.proposals, tk) by {
                    lemma_pending_total_update(t.proposals, i, q, tk);
                    assert(committed_in(t, tk) == pending_total(t.proposals, tk));
                }
                assert forall|tk: Seq<u8>| 0 <= #[trigger] committed_in(n, tk) <= i128::MAX by {
                    assert(0 <= committed_in(t, tk) <= i128::MAX);
                    assert(p.amount > 0);
                }
            }
        },
        MultisigCall::Execute { id, executor, balance, now } => {
            if n != t {
                let i = id as int;
                let p = t.proposals[i];
                let q = n.proposals[i];
                assert(n.proposals == t.proposals.update(i, q));
                assert forall|j: int| 0 <= j < n.proposals.len() implies (#[trigger] n.proposals[j]).amount > 0 by {
                    assert(t.proposals[j].amount > 0);
                }
                assert(committed_in(t, p.token@) == pending_total(t.proposals, p.token@));
                assert(0 <= committed_in(t, p.token@) <= i128::MAX);
                lemma_pending_total_update(t.proposals, i, q, p.token@);
                lemma_pending_total_nonneg(n.proposals, p.token@);
                assert forall|tk: Seq<u8>| #[trigger] committed_in(n, tk) == pending_total(n.proposals, tk) by {
                    lemma_pending_total_update(t.proposals, i, q, tk);
                    assert(committed_in(t, tk) == pending_total(t.proposals, tk));
                }
                assert forall|tk: Seq<u8>| 0 <= #[trigger] committed_in(n, tk) <= i128::MAX by {
                    assert(0 <= committed_in(t, tk) <= i128::MAX);
                }
            }
        },
    }
}

/// The committed amount of each token is the total of the amounts of that
/// token's proposals that are approved and not yet executed, after any
/// sequence of proposals, approvals and executions on a new treasury.
pub proof fn law_committed_is_pending_total(settings: MultisigSettings, calls: Seq<MultisigCall>, token: Seq<u8>)
    ensures
        ({
            let t = run_treasury(settings, Treasury { proposals: Seq::empty(), committed: Map::empty(), approvals: Set::empty() }, calls);
            &&& committed_in(t, token) == pending_total(t.proposals, token)
            &&& 0 <= committed_in(t, token) <= i128::MAX
        }),
{
    lemma_accounts_run(settings, calls);
}

proof fn lemma_accounts_run(settings: MultisigSettings, calls: Seq<MultisigCall>)
    ensures
        treasury_accounts(run_treasury(settings, Treasury { proposals: Seq::empty(), committed: Map::empty(), approvals: Set::empty() }, calls)),
    decreases calls.len(),
{
    let t0 = Treasury { proposals: Seq::empty(), committed: Map::empty(), approvals: Set::empty() };
    if calls.len() == 0 {
        assert forall|tk: Seq<u8>| #[trigger] committed_in(t0, tk) == pending_total(t0.proposals, tk) by {}
    } else {
        lemma_accounts_run(settings, calls.drop_last());
        lemma_step_keeps_accounts(settings, run_treasury(settings, t0, calls.drop_last()), calls.last());
    }
}

/// Only an owner proposes, and only a positive amount; a proposal made with
/// a threshold of one is approved at once.
pub proof fn law_propose_conditions(settings: MultisigSettings, proposer: Seq<u8>, amount: i128)
    ensures
        !is_owner_of(settings, proposer)
            ==> propose_verdict(is_owner_of(settings, proposer), settings.threshold, amount)
                == Verdict::<MultisigError>::Rejected(MultisigError::Unauthorized),
        is_owner_of(settings, proposer) && amount <= 0
            ==> propose_verdict(is_owner_of(settings, proposer), settings.threshold, amount)
                == Verdict::<MultisigError>::Rejected(MultisigError::InvalidAmount),
        propose_verdict(is_owner_of(settings, proposer), settings.threshold, amount).is_accepted()
            <==> (is_owner_of(settings, proposer) && amount > 0 && settings.threshold is Some),
{
}

/// An approval counts one more approval (saturating), and records the
/// approval time exactly when it is the first to bring the count to the
/// threshold; nothing else of the proposal changes. It succeeds only for an
/// owner who has neither approved nor rejected an open proposal.
pub proof fn law_approval_counts(
    settings: MultisigSettings,
    p: Proposal,
    owner: Seq<u8>,
    approved: bool,
    rejected: bool,
    now: u64,
)
    requires
        settings.threshold is Some,
    ensures
        ({
            let th = settings.threshold.unwrap();
            let q = approved_proposal(p, th, now);
            &&& p.approval_count < u32::MAX ==> q.approval_count == p.approval_count + 1
            &&& p.approval_count == u32::MAX ==> q.approval_count == u32::MAX
            &&& q.approved_at == if p.approved_at is None && q.approval_count >= th { Some(now) } else { p.approved_at }
            &&& q.proposer == p.proposer && q.to == p.to && q.token == p.token && q.amount == p.amount
            &&& q.rejection_count == p.rejection_count && q.executed == p.executed && q.cancelled == p.cancelled
            &&& approval_reaches_threshold(p, th) <==> (p.approved_at is None && q.approval_count >= th)
            &&& approve_verdict(is_owner_of(settings, owner), Some(p), approved, rejected, settings.threshold).is_accepted()
                <==> (is_owner_of(settings, owner) && !p.executed && !p.cancelled && !approved && !rejected)
        }),
{
}

/// An execution succeeds only for an owner, on an open proposal that has
/// been approved, once the timelock after its approval has passed, and while
/// the balance covers everything committed; a timelock not yet passed is
/// refused with `TimelockNotElapsed`, an uncovered commitment with
/// `InsufficientFunds`.
pub proof fn law_execute_conditions(
    settings: MultisigSettings,
    p: Proposal,
    executor: Seq<u8>,
    committed: Option<i128>,
    balance: i128,
    now: u64,
)
    ensures
        ({
            let delay: int = match settings.timelock_delay {
                Some(d) => d as int,
                None => 0,
            };
            let c: int = match committed {
                Some(v) => v as int,
                None => 0,
            };
            let v = execute_verdict(is_owner_of(settings, executor), Some(p), settings.timelock_delay, committed, balance, now);
            &&& v.is_accepted() <==> (is_owner_of(settings, executor) && !p.executed && !p.cancelled
                && p.approved_at is Some && now >= p.approved_at.unwrap() + delay && balance >= c)
            &&& (is_owner_of(settings, executor) && !p.executed && !p.cancelled && p.approved_at is Some
                && now < p.approved_at.unwrap() + delay)
                ==> v == Verdict::<MultisigError>::Rejected(MultisigError::TimelockNotElapsed)
            &&& (is_owner_of(settings, executor) && !p.executed && !p.cancelled && p.approved_at is Some
                && now >= p.approved_at.unwrap() + delay && balance < c)
                ==> v == Verdict::<MultisigError>::Rejected(MultisigError::InsufficientFunds)
            &&& (is_owner_of(settings, executor) && !p.executed && !p.cancelled && p.approved_at is None)
                ==> v == Verdict::<MultisigError>::Rejected(MultisigError::InsufficientApprovals)
        }),
{
}

} // verus!
