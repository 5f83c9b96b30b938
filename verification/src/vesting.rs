//! A single vesting schedule with a cliff and linear release, which its admin
//! can pause, resume and cancel.

use vstd::prelude::*;
use crate::address::Address;
use crate::gate::{Gated, Verdict, gated_agrees, gated_signers, gated_value, one_signer, two_signers};
use crate::schedule::{elapsed_since, linear_release, release_fits, valid_terms, release_after,
    lemma_release_bounded, lemma_release_monotone};
use crate::transfer::{Direction, Settlement, Transfer, transfer_views, payout, payout_if_positive,
    push_payout_if_positive};

verus! {

/// Why a vesting operation fails.
#[derive(Copy, Clone, Debug, PartialEq, Eq, Structural)]
pub enum VestingError {
    AlreadyInitialized,
    NotInitialized,
    Unauthorized,
    CliffNotReached,
    NothingToClaim,
    Cancelled,
    InvalidConfig,
    SameAdmin,
    SameBeneficiary,
    BeneficiaryAsAdmin,
    Paused,
    NotPaused,
    VestingComplete,
}

/// The vesting contract.
pub struct ForgeVesting;

/// The terms and the lifecycle flags of the schedule.
#[derive(Debug)]
pub struct VestingConfig {
    /// Token contract address
    pub token: Address,
    /// Beneficiary who receives vested tokens
    pub beneficiary: Address,
    /// Admin who can cancel vesting
    pub admin: Address,
    /// Total tokens to vest
    pub total_amount: i128,
    /// Timestamp when vesting starts
    pub start_time: u64,
    /// Seconds before any tokens unlock
    pub cliff_seconds: u64,
    /// Total vesting duration in seconds
    pub duration_seconds: u64,
    /// Whether vesting has been cancelled
    pub cancelled: bool,
    /// Whether vesting is currently paused
    pub paused: bool,
    /// Ledger timestamp when vesting was paused (None if not paused)
    pub paused_at: Option<u64>,
}

/// A snapshot of the schedule's progress.
#[derive(Copy, Clone, Debug, PartialEq, Eq, Structural)]
pub struct VestingStatus {
    pub total_amount: i128,
    pub claimed: i128,
    pub vested: i128,
    pub claimable: i128,
    pub cliff_reached: bool,
    pub fully_vested: bool,
    pub paused: bool,
}

/// Vesting schedule configuration (excludes admin and cancellation state).
#[derive(Debug)]
pub struct VestingSchedule {
    /// Token contract address
    pub token: Address,
    /// Beneficiary who receives vested tokens
    pub beneficiary: Address,
    /// Total tokens to vest
    pub total_amount: i128,
    /// Seconds before any tokens unlock
    pub cliff_seconds: u64,
    /// Total vesting duration in seconds
    pub duration_seconds: u64,
    /// Timestamp when vesting starts
    pub start_time: u64,
}

/// What the contract keeps in storage: the configuration, the amount claimed
/// so far, and the amount vested when the schedule was cancelled. `None`
/// stands for an entry that was never written.
#[derive(Debug)]
pub struct VestingState {
    pub config: Option<VestingConfig>,
    pub claimed: Option<i128>,
    pub vested_at_cancel: Option<i128>,
}

// ── Model ────────────────────────────────────────────────────────────────────

/// The time at which vesting is measured: the moment of pausing while paused.
pub open spec fn effective_time(c: VestingConfig, now: u64) -> u64 {
    if c.paused {
        match c.paused_at {
            Some(p) => p,
            None => now,
        }
    } else {
        now
    }
}

/// The amount vested at `now`: nothing once cancelled, else the linear
/// release measured at the effective time.
pub open spec fn vested_at(c: VestingConfig, now: u64) -> int {
    if c.cancelled {
        0
    } else {
        linear_release(
            c.total_amount as int,
            c.cliff_seconds as int,
            c.duration_seconds as int,
            elapsed_since(c.start_time, effective_time(c, now)),
        )
    }
}

/// Whether computing the vested amount at `now` stays within `i128`.
pub open spec fn vested_fits(c: VestingConfig, now: u64) -> bool {
    c.cancelled || release_fits(
        c.total_amount as int,
        c.cliff_seconds as int,
        c.duration_seconds as int,
        elapsed_since(c.start_time, effective_time(c, now)),
    )
}

/// The amount claimed so far.
pub open spec fn claimed_amount(s: VestingState) -> int {
    match s.claimed {
        Some(v) => v as int,
        None => 0,
    }
}

/// The configuration, for a state that has one.
pub open spec fn cfg(s: VestingState) -> VestingConfig {
    s.config.unwrap()
}

impl VestingState {
    /// What every operation keeps: sound terms, the pause flag and the pause
    /// time agreeing, and the claimed and cancelled-at amounts within the total.
    pub open spec fn wf(self) -> bool {
        match self.config {
            None => self.vested_at_cancel is None,
            Some(c) => {
                &&& valid_terms(c.total_amount as int, c.cliff_seconds as int, c.duration_seconds as int)
                &&& (c.paused <==> c.paused_at is Some)
                &&& 0 <= claimed_amount(self) <= c.total_amount
                &&& (self.vested_at_cancel matches Some(v) ==> 0 <= v <= c.total_amount)
            },
        }
    }
}

/// The configuration written by `initialize`.
pub open spec fn initial_config(
    token: Address,
    beneficiary: Address,
    admin: Address,
    total_amount: i128,
    cliff_seconds: u64,
    duration_seconds: u64,
    now: u64,
) -> VestingConfig {
    VestingConfig {
        token,
        beneficiary,
        admin,
        total_amount,
        start_time: now,
        cliff_seconds,
        duration_seconds,
        cancelled: false,
        paused: false,
        paused_at: None,
    }
}

pub open spec fn initialize_verdict(
    s: VestingState,
    beneficiary: Seq<u8>,
    admin: Seq<u8>,
    total_amount: i128,
    cliff_seconds: u64,
    duration_seconds: u64,
) -> Verdict<VestingError> {
    if s.config is Some {
        Verdict::Refused(VestingError::AlreadyInitialized)
    } else if !valid_terms(total_amount as int, cliff_seconds as int, duration_seconds as int) {
        Verdict::Refused(VestingError::InvalidConfig)
    } else if admin == beneficiary {
        Verdict::Refused(VestingError::BeneficiaryAsAdmin)
    } else {
        Verdict::Accepted
    }
}

pub open spec fn claim_verdict(s: VestingState, now: u64) -> Verdict<VestingError> {
    match s.config {
        None => Verdict::Refused(VestingError::NotInitialized),
        Some(c) => if c.cancelled {
            Verdict::Refused(VestingError::Cancelled)
        } else if c.paused {
            Verdict::Refused(VestingError::Paused)
        } else if elapsed_since(c.start_time, now) < c.cliff_seconds {
            Verdict::Rejected(VestingError::CliffNotReached)
        } else if vested_at(c, now) - claimed_amount(s) <= 0 {
            Verdict::Rejected(VestingError::NothingToClaim)
        } else {
            Verdict::Accepted
        },
    }
}

/// The state after a successful claim: everything vested counts as claimed.
pub open spec fn claim_next(s: VestingState, now: u64) -> VestingState {
    VestingState { claimed: Some(vested_at(cfg(s), now) as i128), ..s }
}

pub open spec fn cancel_verdict(s: VestingState, now: u64) -> Verdict<VestingError> {
    match s.config {
        None => Verdict::Refused(VestingError::NotInitialized),
        Some(c) => if c.cancelled {
            Verdict::Rejected(VestingError::Cancelled)
        } else if elapsed_since(c.start_time, now) >= c.duration_seconds {
            Verdict::Rejected(VestingError::VestingComplete)
        } else {
            Verdict::Accepted
        },
    }
}

/// The state after a cancellation at `now`: cancelled, with the vested amount
/// recorded and counted as claimed.
pub open spec fn cancelled_state(s: VestingState, now: u64) -> VestingState {
    let c = cfg(s);
    let vested = vested_at(c, now) as i128;
    VestingState {
        config: Some(VestingConfig { cancelled: true, ..c }),
        claimed: Some(vested),
        vested_at_cancel: Some(vested),
    }
}

/// The payouts of a cancellation: the vested but unclaimed part to the
/// beneficiary, then the unvested part to the admin, each only when positive.
pub open spec fn cancel_transfers(s: VestingState, now: u64) -> Seq<crate::transfer::TransferView> {
    let c = cfg(s);
    let vested = vested_at(c, now);
    payout_if_positive(c.token@, c.beneficiary@, vested - claimed_amount(s))
        + payout_if_positive(c.token@, c.admin@, c.total_amount - vested)
}

pub open spec fn cancel_and_claim_verdict(s: VestingState) -> Verdict<VestingError> {
    match s.config {
        None => Verdict::Refused(VestingError::NotInitialized),
        Some(c) => if c.cancelled {
            Verdict::Refused(VestingError::Cancelled)
        } else if c.paused {
            Verdict::Refused(VestingError::Paused)
        } else {
            Verdict::Accepted
        },
    }
}

pub open spec fn transfer_admin_verdict(s: VestingState, new_admin: Seq<u8>) -> Verdict<VestingError> {
    match s.config {
        None => Verdict::Refused(VestingError::NotInitialized),
        Some(c) => if c.admin@ == new_admin {
            Verdict::Rejected(VestingError::SameAdmin)
        } else if c.beneficiary@ == new_admin {
            Verdict::Rejected(VestingError::BeneficiaryAsAdmin)
        } else {
            Verdict::Accepted
        },
    }
}

pub open spec fn change_beneficiary_verdict(s: VestingState, new_beneficiary: Seq<u8>) -> Verdict<VestingError> {
    match s.config {
        None => Verdict::Refused(VestingError::NotInitialized),
        Some(c) => if c.cancelled {
            Verdict::Rejected(VestingError::Cancelled)
        } else if c.beneficiary@ == new_beneficiary {
            Verdict::Rejected(VestingError::SameBeneficiary)
        } else {
            Verdict::Accepted
        },
    }
}

pub open spec fn pause_verdict(s: VestingState) -> Verdict<VestingError> {
    match s.config {
        None => Verdict::Refused(VestingError::NotInitialized),
        Some(c) => if c.cancelled {
            Verdict::Rejected(VestingError::Cancelled)
        } else if c.paused {
            Verdict::Rejected(VestingError::Paused)
        } else {
            Verdict::Accepted
        },
    }
}

/// The state after pausing at `now`.
pub open spec fn paused_state(s: VestingState, now: u64) -> VestingState {
    VestingState { config: Some(VestingConfig { paused: true, paused_at: Some(now), ..cfg(s) }), ..s }
}

pub open spec fn unpause_verdict(s: VestingState) -> Verdict<VestingError> {
    match s.config {
        None => Verdict::Refused(VestingError::NotInitialized),
        Some(c) => if c.cancelled {
            Verdict::Rejected(VestingError::Cancelled)
        } else if !c.paused {
            Verdict::Rejected(VestingError::NotPaused)
        } else {
            Verdict::Accepted
        },
    }
}

/// `x + y`, or `u64::MAX` when that overflows.
pub open spec fn saturating_add(x: u64, y: int) -> u64 {
    if x + y > u64::MAX { u64::MAX } else { (x + y) as u64 }
}

/// The state after resuming at `now`: the start moves later by the time spent
/// paused, so that the paused interval does not count.
pub open spec fn resumed_state(s: VestingState, now: u64) -> VestingState {
    let c = cfg(s);
    let paused_at = match c.paused_at {
        Some(p) => p,
        None => now,
    };
    VestingState {
        config: Some(VestingConfig {
            start_time: saturating_add(c.start_time, elapsed_since(paused_at, now)),
            paused: false,
            paused_at: None,
            ..c
        }),
        ..s
    }
}

/// The status reported at `now`.
pub open spec fn status_at(s: VestingState, now: u64) -> VestingStatus {
    let c = cfg(s);
    let vested: int = if c.cancelled {
        match s.vested_at_cancel {
            Some(v) => v as int,
            None => 0,
        }
    } else {
        vested_at(c, now)
    };
    let claimable = vested - claimed_amount(s);
    VestingStatus {
        total_amount: c.total_amount,
        claimed: claimed_amount(s) as i128,
        vested: vested as i128,
        claimable: if claimable > 0 { claimable as i128 } else { 0 },
        cliff_reached: elapsed_since(c.start_time, now) >= c.cliff_seconds,
        fully_vested: vested >= c.total_amount,
        paused: c.paused,
    }
}

// ── Operations ───────────────────────────────────────────────────────────────

impl ForgeVesting {
    /// Initialize a new vesting schedule starting at `now`.
    pub fn initialize(
        state: &mut VestingState,
        token: Address,
        beneficiary: Address,
        admin: Address,
        total_amount: i128,
        cliff_seconds: u64,
        duration_seconds: u64,
        now: u64,
    ) -> (r: Gated<(), VestingError>)
        requires
            old(state).wf(),
        ensures
            final(state).wf(),
            gated_agrees(r, initialize_verdict(*old(state), beneficiary@, admin@, total_amount, cliff_seconds, duration_seconds)),
            gated_signers(r, seq![admin@]),
            initialize_verdict(*old(state), beneficiary@, admin@, total_amount, cliff_seconds, duration_seconds).is_accepted() ==>
                *final(state) == (VestingState {
                    config: Some(initial_config(token, beneficiary, admin, total_amount, cliff_seconds, duration_seconds, now)),
                    claimed: Some(0i128),
                    vested_at_cancel: old(state).vested_at_cancel,
                }),
            !initialize_verdict(*old(state), beneficiary@, admin@, total_amount, cliff_seconds, duration_seconds).is_accepted() ==>
                *final(state) == *old(state),
    {
        if state.config.is_some() {
            return Gated::Refused { error: VestingError::AlreadyInitialized };
        }
        if total_amount <= 0 || duration_seconds == 0 || cliff_seconds > duration_seconds {
            return Gated::Refused { error: VestingError::InvalidConfig };
        }
        if admin.same(&beneficiary) {
            return Gated::Refused { error: VestingError::BeneficiaryAsAdmin };
        }
        let signers = one_signer(&admin);
        state.config = Some(VestingConfig {
            token,
            beneficiary,
            admin,
            total_amount,
            start_time: now,
            cliff_seconds,
            duration_seconds,
            cancelled: false,
            paused: false,
            paused_at: None,
        });
        state.claimed = Some(0i128);
        Gated::Signed { signers, outcome: Ok(()) }
    }

    /// Claim all currently vested and unclaimed tokens; returns the amount paid.
    pub fn claim(state: &mut VestingState, now: u64) -> (r: Gated<Settlement<i128>, VestingError>)
        requires
            old(state).wf(),
            old(state).config matches Some(c) ==> (!c.paused ==> vested_fits(c, now)),
        ensures
            final(state).wf(),
            gated_agrees(r, claim_verdict(*old(state), now)),
            gated_signers(r, seq![cfg(*old(state)).beneficiary@]),
            claim_verdict(*old(state), now).is_accepted() ==> {
                let c = cfg(*old(state));
                let amount = vested_at(c, now) - claimed_amount(*old(state));
                &&& *final(state) == claim_next(*old(state), now)
                &&& gated_value(r).value == amount
                &&& transfer_views(gated_value(r).transfers@) == seq![payout(c.token@, c.beneficiary@, amount)]
            },
            !claim_verdict(*old(state), now).is_accepted() ==> *final(state) == *old(state),
    {
        let c = match &state.config {
            None => { return Gated::Refused { error: VestingError::NotInitialized }; },
            Some(c) => c,
        };
        if c.cancelled {
            return Gated::Refused { error: VestingError::Cancelled };
        }
        if c.paused {
            return Gated::Refused { error: VestingError::Paused };
        }
        let signers = one_signer(&c.beneficiary);
        let elapsed = now.saturating_sub(c.start_time);
        if elapsed < c.cliff_seconds {
            return Gated::Signed { signers, outcome: Err(VestingError::CliffNotReached) };
        }
        proof {
            lemma_vested_bounded(*c, now);
        }
        let vested = Self::compute_vested(c, now);
        let claimed = Self::get_claimed(state);
        let claimable = vested - claimed;
        if claimable <= 0 {
            return Gated::Signed { signers, outcome: Err(VestingError::NothingToClaim) };
        }
        let mut transfers: Vec<Transfer> = Vec::new();
        transfers.push(Transfer::new(Direction::Payout, &c.token, &c.beneficiary, claimable));
        proof {
            assert(transfer_views(transfers@) =~= seq![payout(c.token@, c.beneficiary@, claimable as int)]);
        }
        state.claimed = Some(claimed + claimable);
        Gated::Signed { signers, outcome: Ok(Settlement { value: claimable, transfers }) }
    }

    /// Cancel the vesting schedule: pay the vested but unclaimed tokens to the
    /// beneficiary and return the unvested tokens to the admin. The value is
    /// the beneficiary's share and the admin's share.
    pub fn cancel(state: &mut VestingState, now: u64) -> (r: Gated<Settlement<(i128, i128)>, VestingError>)
        requires
            old(state).wf(),
            old(state).config matches Some(c) ==> (elapsed_since(c.start_time, now) < c.duration_seconds
                ==> vested_fits(c, now)),
        ensures
            final(state).wf(),
            gated_agrees(r, cancel_verdict(*old(state), now)),
            gated_signers(r, seq![cfg(*old(state)).admin@]),
            cancel_verdict(*old(state), now).is_accepted() ==> {
                let c = cfg(*old(state));
                let vested = vested_at(c, now);
                &&& *final(state) == cancelled_state(*old(state), now)
                &&& gated_value(r).value.0 == vested - claimed_amount(*old(state))
                &&& gated_value(r).value.1 == c.total_amount - vested
                &&& transfer_views(gated_value(r).transfers@) == cancel_transfers(*old(state), now)
            },
            !cancel_verdict(*old(state), now).is_accepted() ==> *final(state) == *old(state),
    {
        let c = match &state.config {
            None => { return Gated::Refused { error: VestingError::NotInitialized }; },
            Some(c) => c,
        };
        let signers = one_signer(&c.admin);
        if c.cancelled {
            return Gated::Signed { signers, outcome: Err(VestingError::Cancelled) };
        }
        let elapsed = now.saturating_sub(c.start_time);
        if elapsed >= c.duration_seconds {
            return Gated::Signed { signers, outcome: Err(VestingError::VestingComplete) };
        }
        proof {
            lemma_vested_bounded(*c, now);
        }
        let vested = Self::compute_vested(c, now);
        let claimed = Self::get_claimed(state);
        let to_beneficiary = vested - claimed;
        let to_admin = c.total_amount - vested;
        let mut transfers: Vec<Transfer> = Vec::new();
        push_payout_if_positive(&mut transfers, &c.token, &c.beneficiary, to_beneficiary);
        push_payout_if_positive(&mut transfers, &c.token, &c.admin, to_admin);
        proof {
            assert(transfer_views(transfers@) =~= cancel_transfers(*old(state), now));
        }
        let mut cfg_now = state.config.take().unwrap();
        cfg_now.cancelled = true;
        state.config = Some(cfg_now);
        state.vested_at_cancel = Some(vested);
        state.claimed = Some(vested);
        Gated::Signed { signers, outcome: Ok(Settlement { value: (to_beneficiary, to_admin), transfers }) }
    }

    /// Atomically pay the beneficiary everything vested and unclaimed and
    /// return the unvested tokens to the admin; returns both amounts.
    pub fn cancel_and_claim(state: &mut VestingState, now: u64) -> (r: Gated<Settlement<(i128, i128)>, VestingError>)
        requires
            old(state).wf(),
            old(state).config matches Some(c) ==> (!c.paused ==> vested_fits(c, now)),
        ensures
            final(state).wf(),
            gated_agrees(r, cancel_and_claim_verdict(*old(state))),
            gated_signers(r, seq![cfg(*old(state)).admin@, cfg(*old(state)).beneficiary@]),
            cancel_and_claim_verdict(*old(state)).is_accepted() ==> {
                let c = cfg(*old(state));
                let vested = vested_at(c, now);
                &&& *final(state) == cancelled_state(*old(state), now)
                &&& gated_value(r).value.0 == vested - claimed_amount(*old(state))
                &&& gated_value(r).value.1 == c.total_amount - vested
                &&& transfer_views(gated_value(r).transfers@) == cancel_transfers(*old(state), now)
            },
            !cancel_and_claim_verdict(*old(state)).is_accepted() ==> *final(state) == *old(state),
    {
        let c = match &state.config {
            None => { return Gated::Refused { error: VestingError::NotInitialized }; },
            Some(c) => c,
        };
        if c.cancelled {
            return Gated::Refused { error: VestingError::Cancelled };
        }
        if c.paused {
            return Gated::Refused { error: VestingError::Paused };
        }
        let signers = two_signers(&c.admin, &c.beneficiary);
        proof {
            lemma_vested_bounded(*c, now);
        }
        let vested = Self::compute_vested(c, now);
        let claimed = Self::get_claimed(state);
        let to_beneficiary = vested - claimed;
        let to_admin = c.total_amount - vested;
        let mut transfers: Vec<Transfer> = Vec::new();
        push_payout_if_positive(&mut transfers, &c.token, &c.beneficiary, to_beneficiary);
        push_payout_if_positive(&mut transfers, &c.token, &c.admin, to_admin);
        proof {
            assert(transfer_views(transfers@) =~= cancel_transfers(*old(state), now));
        }
        let mut cfg_now = state.config.take().unwrap();
        cfg_now.cancelled = true;
        state.config = Some(cfg_now);
        state.vested_at_cancel = Some(vested);
        state.claimed = Some(claimed + to_beneficiary);
        Gated::Signed { signers, outcome: Ok(Settlement { value: (to_beneficiary, to_admin), transfers }) }
    }

    /// Transfer admin rights to a new address.
    pub fn transfer_admin(state: &mut VestingState, new_admin: Address) -> (r: Gated<(), VestingError>)
        requires
            old(state).wf(),
        ensures
            final(state).wf(),
            gated_agrees(r, transfer_admin_verdict(*old(state), new_admin@)),
            gated_signers(r, seq![cfg(*old(state)).admin@]),
            transfer_admin_verdict(*old(state), new_admin@).is_accepted() ==>
                *final(state) == (VestingState {
                    config: Some(VestingConfig { admin: new_admin, ..cfg(*old(state)) }),
                    ..*old(state)
                }),
            !transfer_admin_verdict(*old(state), new_admin@).is_accepted() ==> *final(state) == *old(state),
    {
        let c = match &state.config {
            None => { return Gated::Refused { error: VestingError::NotInitialized }; },
            Some(c) => c,
        };
        let signers = one_signer(&c.admin);
        if c.admin.same(&new_admin) {
            return Gated::Signed { signers, outcome: Err(VestingError::SameAdmin) };
        }
        if c.beneficiary.same(&new_admin) {
            return Gated::Signed { signers, outcome: Err(VestingError::BeneficiaryAsAdmin) };
        }
        let mut cfg_now = state.config.take().unwrap();
        cfg_now.admin = new_admin;
        state.config = Some(cfg_now);
        Gated::Signed { signers, outcome: Ok(()) }
    }

    /// Transfer beneficiary rights to a new address.
    pub fn change_beneficiary(state: &mut VestingState, new_beneficiary: Address) -> (r: Gated<(), VestingError>)
        requires
            old(state).wf(),
        ensures
            final(state).wf(),
            gated_agrees(r, change_beneficiary_verdict(*old(state), new_beneficiary@)),
            gated_signers(r, seq![cfg(*old(state)).beneficiary@]),
            change_beneficiary_verdict(*old(state), new_beneficiary@).is_accepted() ==>
                *final(state) == (VestingState {
                    config: Some(VestingConfig { beneficiary: new_beneficiary, ..cfg(*old(state)) }),
                    ..*old(state)
                }),
            !change_beneficiary_verdict(*old(state), new_beneficiary@).is_accepted() ==> *final(state) == *old(state),
    {
        let c = match &state.config {
            None => { return Gated::Refused { error: VestingError::NotInitialized }; },
            Some(c) => c,
        };
        let signers = one_signer(&c.beneficiary);
        if c.cancelled {
            return Gated::Signed { signers, outcome: Err(VestingError::Cancelled) };
        }
        if c.beneficiary.same(&new_beneficiary) {
            return Gated::Signed { signers, outcome: Err(VestingError::SameBeneficiary) };
        }
        let mut cfg_now = state.config.take().unwrap();
        cfg_now.beneficiary = new_beneficiary;
        state.config = Some(cfg_now);
        Gated::Signed { signers, outcome: Ok(()) }
    }

    /// Return a snapshot of the vesting status at `now`.
    pub fn get_status(state: &VestingState, now: u64) -> (r: Result<VestingStatus, VestingError>)
        requires
            state.wf(),
            state.config matches Some(c) ==> vested_fits(c, now),
        ensures
            state.config is None ==> r == Err::<VestingStatus, VestingError>(VestingError::NotInitialized),
            state.config is Some ==> r == Ok::<VestingStatus, VestingError>(status_at(*state, now)),
    {
        let c = match &state.config {
            None => { return Err(VestingError::NotInitialized); },
            Some(c) => c,
        };
        let elapsed = now.saturating_sub(c.start_time);
        let cliff_reached = elapsed >= c.cliff_seconds;
        proof {
            lemma_vested_bounded(*c, now);
        }
        let vested: i128 = if c.cancelled {
            match state.vested_at_cancel {
                Some(v) => v,
                None => 0,
            }
        } else {
            Self::compute_vested(c, now)
        };
        let claimed = Self::get_claimed(state);
        let diff = vested - claimed;
        let claimable = if diff > 0 { diff } else { 0 };
        let fully_vested = vested >= c.total_amount;
        Ok(VestingStatus {
            total_amount: c.total_amount,
            claimed,
            vested,
            claimable,
            cliff_reached,
            fully_vested,
            paused: c.paused,
        })
    }

    /// Return the full vesting configuration.
    pub fn get_config(state: &VestingState) -> (r: Result<&VestingConfig, VestingError>)
        ensures
            state.config is None ==> r is Err && r->Err_0 == VestingError::NotInitialized,
            state.config is Some ==> r is Ok && *r->Ok_0 == cfg(*state),
    {
        match &state.config {
            None => Err(VestingError::NotInitialized),
            Some(c) => Ok(c),
        }
    }

    /// Return the vesting schedule parameters.
    pub fn get_vesting_schedule(state: &VestingState) -> (r: Result<VestingSchedule, VestingError>)
        ensures
            state.config is None ==> r is Err && r->Err_0 == VestingError::NotInitialized,
            state.config is Some ==> r is Ok && {
                let c = cfg(*state);
                let s = r->Ok_0;
                &&& s.token@ == c.token@
                &&& s.beneficiary@ == c.beneficiary@
                &&& s.total_amount == c.total_amount
                &&& s.cliff_seconds == c.cliff_seconds
                &&& s.duration_seconds == c.duration_seconds
                &&& s.start_time == c.start_time
            },
    {
        match &state.config {
            None => Err(VestingError::NotInitialized),
            Some(c) => Ok(VestingSchedule {
                token: c.token.duplicate(),
                beneficiary: c.beneficiary.duplicate(),
                total_amount: c.total_amount,
                cliff_seconds: c.cliff_seconds,
                duration_seconds: c.duration_seconds,
                start_time: c.start_time,
            }),
        }
    }

    /// Pause the vesting schedule at `now`.
    pub fn pause(state: &mut VestingState, now: u64) -> (r: Gated<(), VestingError>)
        requires
            old(state).wf(),
        ensures
            final(state).wf(),
            gated_agrees(r, pause_verdict(*old(state))),
            gated_signers(r, seq![cfg(*old(state)).admin@]),
            pause_verdict(*old(state)).is_accepted() ==> *final(state) == paused_state(*old(state), now),
            !pause_verdict(*old(state)).is_accepted() ==> *final(state) == *old(state),
    {
        let c = match &state.config {
            None => { return Gated::Refused { error: VestingError::NotInitialized }; },
            Some(c) => c,
        };
        let signers = one_signer(&c.admin);
        if c.cancelled {
            return Gated::Signed { signers, outcome: Err(VestingError::Cancelled) };
        }
        if c.paused {
            return Gated::Signed { signers, outcome: Err(VestingError::Paused) };
        }
        let mut cfg_now = state.config.take().unwrap();
        cfg_now.paused = true;
        cfg_now.paused_at = Some(now);
        state.config = Some(cfg_now);
        Gated::Signed { signers, outcome: Ok(()) }
    }

    /// Resume the vesting schedule at `now`, moving its start later by the
    /// time it spent paused.
    pub fn unpause(state: &mut VestingState, now: u64) -> (r: Gated<(), VestingError>)
        requires
            old(state).wf(),
        ensures
            final(state).wf(),
            gated_agrees(r, unpause_verdict(*old(state))),
            gated_signers(r, seq![cfg(*old(state)).admin@]),
            unpause_verdict(*old(state)).is_accepted() ==> *final(state) == resumed_state(*old(state), now),
            !unpause_verdict(*old(state)).is_accepted() ==> *final(state) == *old(state),
    {
        let c = match &state.config {
            None => { return Gated::Refused { error: VestingError::NotInitialized }; },
            Some(c) => c,
        };
        let signers = one_signer(&c.admin);
        if c.cancelled {
            return Gated::Signed { signers, outcome: Err(VestingError::Cancelled) };
        }
        if !c.paused {
            return Gated::Signed { signers, outcome: Err(VestingError::NotPaused) };
        }
        let paused_at = match c.paused_at {
            Some(p) => p,
            None => now,
        };
        let delta = now.saturating_sub(paused_at);
        let mut cfg_now = state.config.take().unwrap();
        cfg_now.start_time = cfg_now.start_time.saturating_add(delta);
        cfg_now.paused = false;
        cfg_now.paused_at = None;
        state.config = Some(cfg_now);
        Gated::Signed { signers, outcome: Ok(()) }
    }

    /// The amount claimed so far.
    pub fn get_claimed(state: &VestingState) -> (r: i128)
        ensures
            r == claimed_amount(*state),
    {
        match state.claimed {
            Some(v) => v,
            None => 0,
        }
    }

    /// The amount vested at `now` under `config`.
    pub fn compute_vested(config: &VestingConfig, now: u64) -> (r: i128)
        requires
            valid_terms(config.total_amount as int, config.cliff_seconds as int, config.duration_seconds as int),
            vested_fits(*config, now),
        ensures
            r == vested_at(*config, now),
    {
        if config.cancelled {
            return 0;
        }
        let effective_now = if config.paused {
            match config.paused_at {
                Some(p) => p,
                None => now,
            }
        } else {
            now
        };
        let elapsed = effective_now.saturating_sub(config.start_time);
        release_after(config.total_amount, config.cliff_seconds, config.duration_seconds, elapsed)
    }
}

// ── Checks of the preconditions ───────────────────────────────────────────────

impl VestingState {
    /// Whether the stored values are well formed, as `wf` states.
    pub fn is_well_formed(&self) -> (r: bool)
        ensures
            r == self.wf(),
    {
        match &self.config {
            None => self.vested_at_cancel.is_none(),
            Some(c) => {
                let claimed = ForgeVesting::get_claimed(self);
                let cancel_ok = match self.vested_at_cancel {
                    Some(v) => 0 <= v && v <= c.total_amount,
                    None => true,
                };
                crate::schedule::terms_valid(c.total_amount, c.cliff_seconds, c.duration_seconds)
                    && (c.paused == c.paused_at.is_some())
                    && 0 <= claimed && claimed <= c.total_amount
                    && cancel_ok
            },
        }
    }
}

impl ForgeVesting {
    /// Whether the vested amount at `now` can be computed within `i128`, as
    /// `vested_fits` states.
    pub fn vested_computable(config: &VestingConfig, now: u64) -> (r: bool)
        ensures
            r == vested_fits(*config, now),
    {
        if config.cancelled {
            return true;
        }
        let effective_now = if config.paused {
            match config.paused_at {
                Some(p) => p,
                None => now,
            }
        } else {
            now
        };
        let elapsed = effective_now.saturating_sub(config.start_time);
        crate::schedule::release_computable(config.total_amount, config.cliff_seconds, config.duration_seconds, elapsed)
    }
}

// ── Laws ─────────────────────────────────────────────────────────────────────

/// The vested amount lies between zero and the total.
pub proof fn lemma_vested_bounded(c: VestingConfig, now: u64)
    requires
        valid_terms(c.total_amount as int, c.cliff_seconds as int, c.duration_seconds as int),
    ensures
        0 <= vested_at(c, now) <= c.total_amount,
{
    lemma_release_bounded(
        c.total_amount as int,
        c.cliff_seconds as int,
        c.duration_seconds as int,
        elapsed_since(c.start_time, effective_time(c, now)),
    );
}


/// The sum of the amounts of a sequence of transfers.
pub open spec fn amount_paid(ts: Seq<crate::transfer::TransferView>) -> int
    decreases ts.len(),
{
    if ts.len() == 0 {
        0
    } else {
        ts[0].amount + amount_paid(ts.drop_first())
    }
}

/// Linear release: while the schedule runs, the vested amount never
/// decreases as time passes.
pub proof fn law_vested_monotone(c: VestingConfig, t1: u64, t2: u64)
    requires
        valid_terms(c.total_amount as int, c.cliff_seconds as int, c.duration_seconds as int),
        !c.paused,
        t1 <= t2,
    ensures
        vested_at(c, t1) <= vested_at(c, t2),
{
    if !c.cancelled {
        lemma_release_monotone(
            c.total_amount as int,
            c.cliff_seconds as int,
            c.duration_seconds as int,
            elapsed_since(c.start_time, t1),
            elapsed_since(c.start_time, t2),
        );
    }
}

/// Before the cliff nothing is vested, and once the duration has passed the
/// whole amount is.
pub proof fn law_cliff_and_completion(c: VestingConfig, now: u64)
    requires
        valid_terms(c.total_amount as int, c.cliff_seconds as int, c.duration_seconds as int),
        !c.cancelled,
    ensures
        elapsed_since(c.start_time, effective_time(c, now)) < c.cliff_seconds ==> vested_at(c, now) == 0,
        elapsed_since(c.start_time, effective_time(c, now)) >= c.duration_seconds ==> vested_at(c, now) == c.total_amount,
{
}

/// While paused, the vested amount is frozen at its value when the schedule
/// was paused, and the beneficiary can claim nothing.
pub proof fn law_pause_freezes_vesting(s: VestingState, now: u64, later: u64)
    requires
        s.wf(),
        pause_verdict(s).is_accepted(),
    ensures
        vested_at(cfg(paused_state(s, now)), later) == vested_at(cfg(s), now),
        claim_verdict(paused_state(s, now), later) == Verdict::<VestingError>::Refused(VestingError::Paused),
        cancel_and_claim_verdict(paused_state(s, now)) == Verdict::<VestingError>::Refused(VestingError::Paused),
{
}

/// Resuming after a pause continues from the amount vested when paused: the
/// paused interval does not count towards vesting, so from then on the
/// schedule vests as an unpaused one would at a time earlier by that interval.
pub proof fn law_resume_continues(s: VestingState, paused_at: u64, now: u64, later: u64)
    requires
        s.wf(),
        unpause_verdict(s).is_accepted(),
        cfg(s).paused_at == Some(paused_at),
        cfg(s).start_time <= paused_at <= now <= later,
    ensures
        cfg(resumed_state(s, now)).start_time == cfg(s).start_time + (now - paused_at),
        vested_at(cfg(resumed_state(s, now)), now) == vested_at(cfg(s), now),
        vested_at(cfg(resumed_state(s, now)), later)
            == vested_at(VestingConfig { paused: false, paused_at: None, ..cfg(s) }, (later - (now - paused_at)) as u64),
        !cfg(resumed_state(s, now)).paused && cfg(resumed_state(s, now)).paused_at is None,
{
}

/// A claim pays exactly what it adds to the claimed amount, and never more
/// than the total in all.
pub proof fn law_claim_records_payout(s: VestingState, now: u64)
    requires
        s.wf(),
        claim_verdict(s, now).is_accepted(),
    ensures
        claimed_amount(claim_next(s, now)) - claimed_amount(s) == vested_at(cfg(s), now) - claimed_amount(s),
        claimed_amount(claim_next(s, now)) <= cfg(s).total_amount,
        claim_next(s, now).wf(),
{
    lemma_vested_bounded(cfg(s), now);
}

/// Claims add up: two successive claims pay together everything vested at
/// the second one, so no dust is lost to rounding.
pub proof fn law_claims_add_up(s: VestingState, t1: u64, t2: u64)
    requires
        s.wf(),
        claim_verdict(s, t1).is_accepted(),
        claim_verdict(claim_next(s, t1), t2).is_accepted(),
    ensures
        (vested_at(cfg(s), t1) - claimed_amount(s))
            + (vested_at(cfg(s), t2) - claimed_amount(claim_next(s, t1)))
            == vested_at(cfg(s), t2) - claimed_amount(s),
{
    lemma_vested_bounded(cfg(s), t1);
}

/// After the duration has passed, a claim brings the claimed amount to the
/// whole total.
pub proof fn law_full_claim(s: VestingState, now: u64)
    requires
        s.wf(),
        claim_verdict(s, now).is_accepted(),
        elapsed_since(cfg(s).start_time, now) >= cfg(s).duration_seconds,
    ensures
        claimed_amount(claim_next(s, now)) == cfg(s).total_amount,
{
}

/// Once cancelled, nothing more is paid out: the beneficiary can no longer
/// claim, and the schedule can be cancelled neither way again.
pub proof fn law_claim_after_cancel_fails(s: VestingState, t1: u64, t2: u64)
    requires
        s.wf(),
        cancel_verdict(s, t1).is_accepted() || cancel_and_claim_verdict(s).is_accepted(),
    ensures
        claim_verdict(cancelled_state(s, t1), t2) == Verdict::<VestingError>::Refused(VestingError::Cancelled),
        cancel_verdict(cancelled_state(s, t1), t2) == Verdict::<VestingError>::Rejected(VestingError::Cancelled),
        cancel_and_claim_verdict(cancelled_state(s, t1)) == Verdict::<VestingError>::Refused(VestingError::Cancelled),
{
}

/// A cancellation accounts for every token: what was claimed before, what it
/// pays the beneficiary and what it returns to the admin make up the total;
/// when nothing was over-claimed, the payouts empty the schedule.
pub proof fn law_cancel_conserves_tokens(s: VestingState, now: u64)
    requires
        s.wf(),
        cancel_verdict(s, now).is_accepted() || cancel_and_claim_verdict(s).is_accepted(),
    ensures
        claimed_amount(s) + (vested_at(cfg(s), now) - claimed_amount(s))
            + (cfg(s).total_amount - vested_at(cfg(s), now)) == cfg(s).total_amount,
        claimed_amount(s) <= vested_at(cfg(s), now)
            ==> amount_paid(cancel_transfers(s, now)) == cfg(s).total_amount - claimed_amount(s),
        cancelled_state(s, now).wf(),
{
    let c = cfg(s);
    let v = vested_at(c, now);
    lemma_vested_bounded(c, now);
    let a = payout_if_positive(c.token@, c.beneficiary@, v - claimed_amount(s));
    let b = payout_if_positive(c.token@, c.admin@, c.total_amount - v);
    lemma_paid_if_positive(c.token@, c.beneficiary@, v - claimed_amount(s));
    lemma_paid_if_positive(c.token@, c.admin@, c.total_amount - v);
    lemma_paid_append_short(a, b);
}

/// A conditional payout pays its amount when positive, and nothing otherwise.
pub proof fn lemma_paid_if_positive(token: Seq<u8>, to: Seq<u8>, amount: int)
    ensures
        amount_paid(payout_if_positive(token, to, amount)) == (if amount > 0 { amount } else { 0 }),
        payout_if_positive(token, to, amount).len() <= 1,
{
    let a = payout_if_positive(token, to, amount);
    if amount > 0 {
        assert(a.drop_first() =~= Seq::<crate::transfer::TransferView>::empty());
        assert(amount_paid(a.drop_first()) == 0);
    }
}

/// Paying a list of at most one transfer and then another list pays the sum.
pub proof fn lemma_paid_append_short(a: Seq<crate::transfer::TransferView>, b: Seq<crate::transfer::TransferView>)
    requires
        a.len() <= 1,
    ensures
        amount_paid(a + b) == amount_paid(a) + amount_paid(b),
{
    if a.len() == 0 {
        assert(a + b =~= b);
    } else {
        assert((a + b).drop_first() =~= b);
        assert(a.drop_first() =~= Seq::<crate::transfer::TransferView>::empty());
        assert(amount_paid(a.drop_first()) == 0);
    }
}

/// A paused schedule keeps its pause time, so resuming moves the start by
/// the paused interval; pausing and resuming at the same moment leaves the
/// schedule as it was.
pub proof fn law_pause_resume_same_moment(s: VestingState, now: u64)
    requires
        s.wf(),
        pause_verdict(s).is_accepted(),
    ensures
        unpause_verdict(paused_state(s, now)).is_accepted(),
        resumed_state(paused_state(s, now), now) == s,
{
    let c = cfg(s);
    assert(cfg(resumed_state(paused_state(s, now), now)) == c);
}

// ── Accounting over any sequence of calls ────────────────────────────────────

/// A call on an initialized schedule.
pub enum VestingCall {
    Claim,
    Cancel,
    CancelAndClaim,
    TransferAdmin(Address),
    ChangeBeneficiary(Address),
    Pause,
    Unpause,
}

/// The state after `call` at `now`: the new state where the call succeeds,
/// and the state unchanged where it fails.
pub open spec fn call_next(s: VestingState, call: VestingCall, now: u64) -> VestingState {
    match call {
        VestingCall::Claim => if claim_verdict(s, now).is_accepted() { claim_next(s, now) } else { s },
        VestingCall::Cancel => if cancel_verdict(s, now).is_accepted() { cancelled_state(s, now) } else { s },
        VestingCall::CancelAndClaim => if cancel_and_claim_verdict(s).is_accepted() { cancelled_state(s, now) } else { s },
        VestingCall::TransferAdmin(a) => if transfer_admin_verdict(s, a@).is_accepted() {
            VestingState { config: Some(VestingConfig { admin: a, ..cfg(s) }), ..s }
        } else {
            s
        },
        VestingCall::ChangeBeneficiary(b) => if change_beneficiary_verdict(s, b@).is_accepted() {
            VestingState { config: Some(VestingConfig { beneficiary: b, ..cfg(s) }), ..s }
        } else {
            s
        },
        VestingCall::Pause => if pause_verdict(s).is_accepted() { paused_state(s, now) } else { s },
        VestingCall::Unpause => if unpause_verdict(s).is_accepted() { resumed_state(s, now) } else { s },
    }
}

/// The payouts `call` at `now` asks for: those of a successful claim or
/// cancellation, and none otherwise.
pub open spec fn call_transfers(s: VestingState, call: VestingCall, now: u64) -> Seq<crate::transfer::TransferView> {
    let c = cfg(s);
    match call {
        VestingCall::Claim => if claim_verdict(s, now).is_accepted() {
            seq![payout(c.token@, c.beneficiary@, vested_at(c, now) - claimed_amount(s))]
        } else {
            Seq::empty()
        },
        VestingCall::Cancel => if cancel_verdict(s, now).is_accepted() { cancel_transfers(s, now) } else { Seq::empty() },
        VestingCall::CancelAndClaim => if cancel_and_claim_verdict(s).is_accepted() {
            cancel_transfers(s, now)
        } else {
            Seq::empty()
        },
        _ => Seq::empty(),
    }
}

/// The state after the calls, each with the ledger time at which it is made.
pub open spec fn run_calls(s: VestingState, calls: Seq<(VestingCall, u64)>) -> VestingState
    decreases calls.len(),
{
    if calls.len() == 0 {
        s
    } else {
        let prev = run_calls(s, calls.drop_last());
        call_next(prev, calls.last().0, calls.last().1)
    }
}

/// The total the calls pay out.
pub open spec fn paid_by_calls(s: VestingState, calls: Seq<(VestingCall, u64)>) -> int
    decreases calls.len(),
{
    if calls.len() == 0 {
        0
    } else {
        let prev = run_calls(s, calls.drop_last());
        paid_by_calls(s, calls.drop_last()) + amount_paid(call_transfers(prev, calls.last().0, calls.last().1))
    }
}

/// The bookkeeping that holds at time `t` of a schedule that has paid out
/// `paid` in all: while it runs, what was paid is what was claimed and never
/// exceeds what has vested; once cancelled, the whole total has been paid.
pub open spec fn vesting_accounts(s: VestingState, t: u64, paid: int) -> bool {
    &&& s.wf()
    &&& s.config is Some
    &&& cfg(s).start_time <= t
    &&& (cfg(s).paused_at matches Some(p) ==> cfg(s).start_time <= p <= t)
    &&& if cfg(s).cancelled {
        paid == cfg(s).total_amount
    } else {
        paid == claimed_amount(s) && claimed_amount(s) <= vested_at(cfg(s), t)
    }
}

/// The vested amount of a running schedule never decreases as time passes.
proof fn lemma_vested_later(c: VestingConfig, t1: u64, t2: u64)
    requires
        valid_terms(c.total_amount as int, c.cliff_seconds as int, c.duration_seconds as int),
        c.paused ==> c.paused_at is Some,
        t1 <= t2,
    ensures
        vested_at(c, t1) <= vested_at(c, t2),
{
    if !c.paused {
        law_vested_monotone(c, t1, t2);
    }
}

/// One call at a time no earlier than `t` keeps the bookkeeping.
proof fn lemma_call_keeps_accounts(s: VestingState, t: u64, paid: int, call: VestingCall, now: u64)
    requires
        vesting_accounts(s, t, paid),
        t <= now,
    ensures
        vesting_accounts(call_next(s, call, now), now, paid + amount_paid(call_transfers(s, call, now))),
{
    let c = cfg(s);
    lemma_vested_bounded(c, now);
    lemma_vested_later(c, t, now);
    assert(amount_paid(Seq::<crate::transfer::TransferView>::empty()) == 0);
    match call {
        VestingCall::Claim => {
            if claim_verdict(s, now).is_accepted() {
                let one = seq![payout(c.token@, c.beneficiary@, vested_at(c, now) - claimed_amount(s))];
                assert(one.drop_first() =~= Seq::<crate::transfer::TransferView>::empty());
                assert(amount_paid(one) == vested_at(c, now) - claimed_amount(s));
                law_claim_records_payout(s, now);
            }
        },
        VestingCall::Cancel => {
            if cancel_verdict(s, now).is_accepted() {
                law_cancel_conserves_tokens(s, now);
            }
        },
        VestingCall::CancelAndClaim => {
            if cancel_and_claim_verdict(s).is_accepted() {
                law_cancel_conserves_tokens(s, now);
            }
        },
        VestingCall::TransferAdmin(a) => {
            let n = call_next(s, call, now);
            assert(vested_at(cfg(n), now) == vested_at(c, now));
        },
        VestingCall::ChangeBeneficiary(b) => {
            let n = call_next(s, call, now);
            assert(vested_at(cfg(n), now) == vested_at(c, now));
        },
        VestingCall::Pause => {},
        VestingCall::Unpause => {
            if unpause_verdict(s).is_accepted() {
                let p = c.paused_at.unwrap();
                let n = resumed_state(s, now);
                assert(cfg(n).start_time == c.start_time + (now - p));
                assert(vested_at(cfg(n), now) == vested_at(c, t));
            }
        },
    }
}

/// The schedule as `initialize` leaves it at `t0`.
pub open spec fn initialized_state(
    token: Address,
    beneficiary: Address,
    admin: Address,
    total_amount: i128,
    cliff_seconds: u64,
    duration_seconds: u64,
    t0: u64,
) -> VestingState {
    VestingState {
        config: Some(initial_config(token, beneficiary, admin, total_amount, cliff_seconds, duration_seconds, t0)),
        claimed: Some(0i128),
        vested_at_cancel: None,
    }
}

/// Every token is accounted for over any sequence of calls made at
/// nondecreasing ledger times after initialization: the claimed amount stays
/// between zero and the total and, while the schedule runs, never exceeds
/// what has vested; all payouts together never exceed the total, equal the
/// claimed amount while the schedule runs, and equal the total once it is
/// cancelled.
pub proof fn law_vesting_accounts(
    token: Address,
    beneficiary: Address,
    admin: Address,
    total_amount: i128,
    cliff_seconds: u64,
    duration_seconds: u64,
    t0: u64,
    calls: Seq<(VestingCall, u64)>,
)
    requires
        valid_terms(total_amount as int, cliff_seconds as int, duration_seconds as int),
        forall|i: int| 0 <= i < calls.len() ==> t0 <= #[trigger] calls[i].1,
        forall|i: int, j: int| 0 <= i < j < calls.len() ==> calls[i].1 <= calls[j].1,
    ensures
        ({
            let s0 = initialized_state(token, beneficiary, admin, total_amount, cliff_seconds, duration_seconds, t0);
            let s = run_calls(s0, calls);
            let paid = paid_by_calls(s0, calls);
            let t = if calls.len() == 0 { t0 } else { calls.last().1 };
            &&& s.wf()
            &&& 0 <= claimed_amount(s) <= total_amount
            &&& 0 <= paid <= total_amount
            &&& !cfg(s).cancelled ==> paid == claimed_amount(s) && claimed_amount(s) <= vested_at(cfg(s), t)
            &&& cfg(s).cancelled ==> paid == total_amount
            &&& cfg(s).total_amount == total_amount
        }),
{
    let s0 = initialized_state(token, beneficiary, admin, total_amount, cliff_seconds, duration_seconds, t0);
    lemma_accounts_run(s0, t0, calls);
}

proof fn lemma_accounts_run(s0: VestingState, t0: u64, calls: Seq<(VestingCall, u64)>)
    requires
        vesting_accounts(s0, t0, 0),
        claimed_amount(s0) == 0,
        forall|i: int| 0 <= i < calls.len() ==> t0 <= #[trigger] calls[i].1,
        forall|i: int, j: int| 0 <= i < j < calls.len() ==> calls[i].1 <= calls[j].1,
    ensures
        vesting_accounts(
            run_calls(s0, calls),
            if calls.len() == 0 { t0 } else { calls.last().1 },
            paid_by_calls(s0, calls),
        ),
        cfg(run_calls(s0, calls)).total_amount == cfg(s0).total_amount,
    decreases calls.len(),
{
    if calls.len() > 0 {
        let init = calls.drop_last();
        assert forall|i: int| 0 <= i < init.len() implies t0 <= #[trigger] init[i].1 by {
            assert(init[i] == calls[i]);
        }
        assert forall|i: int, j: int| 0 <= i < j < init.len() implies init[i].1 <= init[j].1 by {
            assert(init[i] == calls[i]);
            assert(init[j] == calls[j]);
        }
        lemma_accounts_run(s0, t0, init);
        let t = if init.len() == 0 { t0 } else { init.last().1 };
        if init.len() > 0 {
            assert(init.last() == calls[init.len() - 1]);
            assert(calls[init.len() - 1].1 <= calls[calls.len() - 1].1);
        }
        assert(t0 <= calls[calls.len() - 1].1);
        lemma_call_keeps_accounts(run_calls(s0, init), t, paid_by_calls(s0, init), calls.last().0, calls.last().1);
    }
}

/// The vested amount: nothing once cancelled; while running, the release
/// of the schedule's terms after the seconds from the start to `now`; while
/// paused, what the running schedule had vested at the moment of pausing.
pub proof fn law_vested_amount(c: VestingConfig, now: u64)
    ensures
        c.cancelled ==> vested_at(c, now) == 0,
        !c.cancelled && !c.paused ==> vested_at(c, now) == linear_release(
            c.total_amount as int,
            c.cliff_seconds as int,
            c.duration_seconds as int,
            if now >= c.start_time { now - c.start_time } else { 0 },
        ),
        c.paused && c.paused_at is Some ==>
            vested_at(c, now) == vested_at(VestingConfig { paused: false, paused_at: None, ..c }, c.paused_at.unwrap()),
{
}

/// The status reports as claimable what a claim at that moment pays: the
/// vested amount less the claimed amount, never below zero. A claim on a
/// running schedule succeeds exactly when the cliff is reached and something
/// is claimable, pays that amount, and leaves nothing claimable.
pub proof fn law_status_claimable_is_claim(s: VestingState, now: u64)
    requires
        s.wf(),
        s.config is Some,
    ensures
        ({
            let st = status_at(s, now);
            let c = cfg(s);
            let e: int = if now >= c.start_time { now - c.start_time } else { 0 };
            &&& st.claimed == claimed_amount(s)
            &&& st.total_amount == c.total_amount
            &&& !c.cancelled ==> st.vested == vested_at(c, now)
            &&& c.cancelled ==> st.vested == match s.vested_at_cancel {
                Some(v) => v as int,
                None => 0,
            }
            &&& st.claimable == if st.vested - st.claimed > 0 { st.vested - st.claimed } else { 0 }
            &&& st.cliff_reached == (e >= c.cliff_seconds)
            &&& st.fully_vested == (st.vested >= c.total_amount)
            &&& (!c.cancelled && !c.paused) ==> (claim_verdict(s, now).is_accepted() <==> (st.cliff_reached && st.claimable > 0))
            &&& claim_verdict(s, now).is_accepted() ==> {
                &&& vested_at(c, now) - claimed_amount(s) == st.claimable
                &&& status_at(claim_next(s, now), now).claimable == 0
                &&& claimed_amount(claim_next(s, now)) == st.vested
            }
        }),
{
    lemma_vested_bounded(cfg(s), now);
}

/// A cancellation pays the beneficiary what the status reports claimable and
/// refunds the admin the unvested rest; before the cliff of a running
/// schedule nothing is vested, so the admin gets the whole total and the
/// beneficiary nothing.
pub proof fn law_cancel_pays_claimable_and_refunds_rest(s: VestingState, now: u64)
    requires
        s.wf(),
        cancel_verdict(s, now).is_accepted() || cancel_and_claim_verdict(s).is_accepted(),
    ensures
        ({
            let c = cfg(s);
            let st = status_at(s, now);
            let e: int = if now >= c.start_time { now - c.start_time } else { 0 };
            &&& cancel_transfers(s, now) == payout_if_positive(c.token@, c.beneficiary@, st.claimable as int)
                + payout_if_positive(c.token@, c.admin@, c.total_amount - st.vested)
            &&& (!c.paused && e < c.cliff_seconds) ==> cancel_transfers(s, now) == seq![payout(c.token@, c.admin@, c.total_amount as int)]
            &&& claimed_amount(cancelled_state(s, now)) == st.vested
            &&& cfg(cancelled_state(s, now)).cancelled
        }),
{
    let c = cfg(s);
    lemma_vested_bounded(c, now);
    let e: int = if now >= c.start_time { now - c.start_time } else { 0 };
    if !c.paused && e < c.cliff_seconds {
        assert(Seq::<crate::transfer::TransferView>::empty() + seq![payout(c.token@, c.admin@, c.total_amount as int)]
            =~= seq![payout(c.token@, c.admin@, c.total_amount as int)]);
    }
}

/// A claim succeeds only on a running, unpaused schedule past its cliff with
/// something vested and unclaimed, and it then counts everything vested as
/// claimed.
pub proof fn law_claim_conditions(s: VestingState, now: u64)
    requires
        s.wf(),
    ensures
        claim_verdict(s, now).is_accepted() ==> {
            let c = cfg(s);
            &&& s.config is Some
            &&& !c.cancelled
            &&& !c.paused
            &&& (if now >= c.start_time { now - c.start_time } else { 0 }) >= c.cliff_seconds
            &&& vested_at(c, now) > claimed_amount(s)
            &&& claimed_amount(claim_next(s, now)) == vested_at(c, now)
            &&& claim_next(s, now).config == s.config
        },
{
    if s.config is Some {
        lemma_vested_bounded(cfg(s), now);
    }
}

/// A schedule is set up exactly once, with a positive total and duration, a
/// cliff no longer than the duration, and an admin other than the
/// beneficiary; the checks come in that order.
pub proof fn law_initialize_conditions(
    s: VestingState,
    beneficiary: Seq<u8>,
    admin: Seq<u8>,
    total_amount: i128,
    cliff_seconds: u64,
    duration_seconds: u64,
)
    ensures
        ({
            let v = initialize_verdict(s, beneficiary, admin, total_amount, cliff_seconds, duration_seconds);
            let terms_ok = total_amount > 0 && duration_seconds > 0 && cliff_seconds <= duration_seconds;
            &&& v.is_accepted() <==> (s.config is None && terms_ok && admin != beneficiary)
            &&& s.config is Some ==> v == Verdict::<VestingError>::Refused(VestingError::AlreadyInitialized)
            &&& s.config is None && !terms_ok ==> v == Verdict::<VestingError>::Refused(VestingError::InvalidConfig)
            &&& s.config is None && terms_ok && admin == beneficiary
                ==> v == Verdict::<VestingError>::Refused(VestingError::BeneficiaryAsAdmin)
        }),
{
}

} // verus!
