//! Many vesting schedules managed by one contract, each under its own id.

use vstd::prelude::*;
use crate::address::Address;
use crate::gate::{Gated, Verdict, gated_agrees, gated_signers, gated_value, one_signer};
use crate::schedule::{elapsed_since, linear_release, release_fits, valid_terms, release_after,
    lemma_release_bounded};
use crate::transfer::{Direction, Settlement, Transfer, TransferView, transfer_views, payout, deposit,
    payout_if_positive, push_payout_if_positive};

verus! {

/// Why a factory operation fails.
#[derive(Copy, Clone, Debug, PartialEq, Eq, Structural)]
pub enum FactoryError {
    ScheduleNotFound,
    Unauthorized,
    CliffNotReached,
    NothingToClaim,
    Cancelled,
    InvalidConfig,
}

/// The factory contract.
pub struct ForgeVestingFactory;

/// One vesting schedule.
#[derive(Debug)]
pub struct ScheduleConfig {
    pub token: Address,
    pub beneficiary: Address,
    pub admin: Address,
    pub total_amount: i128,
    pub start_time: u64,
    pub cliff_seconds: u64,
    pub duration_seconds: u64,
    pub cancelled: bool,
}

/// Status snapshot for a vesting schedule.
#[derive(Copy, Clone, Debug, PartialEq, Eq, Structural)]
pub struct VestingStatus {
    pub schedule_id: u64,
    pub total_amount: i128,
    pub claimed: i128,
    pub vested: i128,
    pub claimable: i128,
    pub cliff_reached: bool,
    pub fully_vested: bool,
    pub cancelled: bool,
}

/// What the factory keeps in storage for one schedule id: its configuration
/// and the amount claimed from it, `None` where nothing was written.
#[derive(Debug)]
pub struct ScheduleRecord {
    pub config: Option<ScheduleConfig>,
    pub claimed: Option<i128>,
}

// ── Model ────────────────────────────────────────────────────────────────────

/// The amount of a schedule vested at `now`; nothing once cancelled.
pub open spec fn schedule_vested(c: ScheduleConfig, now: u64) -> int {
    if c.cancelled {
        0
    } else {
        linear_release(
            c.total_amount as int,
            c.cliff_seconds as int,
            c.duration_seconds as int,
            elapsed_since(c.start_time, now),
        )
    }
}

/// Whether computing the vested amount at `now` stays within `i128`.
pub open spec fn schedule_fits(c: ScheduleConfig, now: u64) -> bool {
    c.cancelled || release_fits(
        c.total_amount as int,
        c.cliff_seconds as int,
        c.duration_seconds as int,
        elapsed_since(c.start_time, now),
    )
}

pub open spec fn record_claimed(r: ScheduleRecord) -> int {
    match r.claimed {
        Some(v) => v as int,
        None => 0,
    }
}

pub open spec fn record_cfg(r: ScheduleRecord) -> ScheduleConfig {
    r.config.unwrap()
}

/// The counter after a schedule is created.
pub open spec fn count_after_create(count: Option<u64>) -> Option<u64> {
    Some((schedule_count(count) + 1) as u64)
}

/// The id the next schedule gets: the number of schedules created so far.
pub open spec fn schedule_count(count: Option<u64>) -> u64 {
    match count {
        Some(n) => n,
        None => 0,
    }
}

impl ScheduleRecord {
    /// What the factory keeps for every schedule: sound terms and a claimed
    /// amount within the total.
    pub open spec fn wf(self) -> bool {
        self.config matches Some(c) ==> {
            &&& valid_terms(c.total_amount as int, c.cliff_seconds as int, c.duration_seconds as int)
            &&& 0 <= record_claimed(self) <= c.total_amount
        }
    }
}

pub open spec fn create_verdict(total_amount: i128, cliff_seconds: u64, duration_seconds: u64) -> Verdict<FactoryError> {
    if !valid_terms(total_amount as int, cliff_seconds as int, duration_seconds as int) {
        Verdict::Rejected(FactoryError::InvalidConfig)
    } else {
        Verdict::Accepted
    }
}

pub open spec fn claim_verdict(r: ScheduleRecord, now: u64) -> Verdict<FactoryError> {
    match r.config {
        None => Verdict::Refused(FactoryError::ScheduleNotFound),
        Some(c) => if c.cancelled {
            Verdict::Rejected(FactoryError::Cancelled)
        } else if elapsed_since(c.start_time, now) < c.cliff_seconds {
            Verdict::Rejected(FactoryError::CliffNotReached)
        } else if schedule_vested(c, now) - record_claimed(r) <= 0 {
            Verdict::Rejected(FactoryError::NothingToClaim)
        } else {
            Verdict::Accepted
        },
    }
}

pub open spec fn cancel_verdict(r: ScheduleRecord) -> Verdict<FactoryError> {
    match r.config {
        None => Verdict::Refused(FactoryError::ScheduleNotFound),
        Some(c) => if c.cancelled {
            Verdict::Rejected(FactoryError::Cancelled)
        } else {
            Verdict::Accepted
        },
    }
}

/// The payouts of a cancellation: the vested but unclaimed part to the
/// beneficiary and the unvested part to the admin, each only when positive.
pub open spec fn cancel_transfers(r: ScheduleRecord, now: u64) -> Seq<TransferView> {
    let c = record_cfg(r);
    let vested = schedule_vested(c, now);
    payout_if_positive(c.token@, c.beneficiary@, vested - record_claimed(r))
        + payout_if_positive(c.token@, c.admin@, c.total_amount - vested)
}

/// The status of schedule `id` at `now`.
pub open spec fn status_at(r: ScheduleRecord, id: u64, now: u64) -> VestingStatus {
    let c = record_cfg(r);
    let vested = schedule_vested(c, now);
    let cliff_reached = elapsed_since(c.start_time, now) >= c.cliff_seconds;
    let unclaimed = vested - record_claimed(r);
    VestingStatus {
        schedule_id: id,
        total_amount: c.total_amount,
        claimed: record_claimed(r) as i128,
        vested: vested as i128,
        claimable: if cliff_reached && unclaimed > 0 { unclaimed as i128 } else { 0 },
        cliff_reached,
        fully_vested: vested >= c.total_amount,
        cancelled: c.cancelled,
    }
}

// ── Operations ───────────────────────────────────────────────────────────────

impl ForgeVestingFactory {
    /// Create a new vesting schedule starting at `now`, funded by the admin.
    /// On success the value is the new schedule's id and the configuration to
    /// store under it, and `count` is advanced past the id.
    pub fn create_schedule(
        count: &mut Option<u64>,
        token: Address,
        beneficiary: Address,
        admin: Address,
        total_amount: i128,
        cliff_seconds: u64,
        duration_seconds: u64,
        now: u64,
    ) -> (r: Gated<Settlement<(u64, ScheduleConfig)>, FactoryError>)
        requires
            create_verdict(total_amount, cliff_seconds, duration_seconds).is_accepted()
                ==> schedule_count(*old(count)) < u64::MAX,
        ensures
            gated_agrees(r, create_verdict(total_amount, cliff_seconds, duration_seconds)),
            gated_signers(r, seq![admin@]),
            create_verdict(total_amount, cliff_seconds, duration_seconds).is_accepted() ==> {
                let id = schedule_count(*old(count));
                let v = gated_value(r);
                &&& v.value.0 == id
                &&& v.value.1 == (ScheduleConfig {
                    token,
                    beneficiary,
                    admin,
                    total_amount,
                    start_time: now,
                    cliff_seconds,
                    duration_seconds,
                    cancelled: false,
                })
                &&& *final(count) == count_after_create(*old(count))
                &&& transfer_views(v.transfers@) == seq![deposit(token@, admin@, total_amount as int)]
            },
            !create_verdict(total_amount, cliff_seconds, duration_seconds).is_accepted() ==> *final(count) == *old(count),
    {
        let signers = one_signer(&admin);
        if total_amount <= 0 || duration_seconds == 0 || cliff_seconds > duration_seconds {
            return Gated::Signed { signers, outcome: Err(FactoryError::InvalidConfig) };
        }
        let id: u64 = Self::get_schedule_count(*count);
        let mut transfers: Vec<Transfer> = Vec::new();
        transfers.push(Transfer::new(Direction::Deposit, &token, &admin, total_amount));
        proof {
            assert(transfer_views(transfers@) =~= seq![deposit(token@, admin@, total_amount as int)]);
        }
        let config = ScheduleConfig {
            token,
            beneficiary,
            admin,
            total_amount,
            start_time: now,
            cliff_seconds,
            duration_seconds,
            cancelled: false,
        };
        *count = Some(id + 1);
        Gated::Signed { signers, outcome: Ok(Settlement { value: (id, config), transfers }) }
    }

    /// Claim all currently vested and unclaimed tokens of a schedule; returns
    /// the amount paid.
    pub fn claim(record: &mut ScheduleRecord, now: u64) -> (r: Gated<Settlement<i128>, FactoryError>)
        requires
            old(record).wf(),
            old(record).config matches Some(c) ==> schedule_fits(c, now),
        ensures
            final(record).wf(),
            gated_agrees(r, claim_verdict(*old(record), now)),
            gated_signers(r, seq![record_cfg(*old(record)).beneficiary@]),
            claim_verdict(*old(record), now).is_accepted() ==> {
                let c = record_cfg(*old(record));
                let amount = schedule_vested(c, now) - record_claimed(*old(record));
                &&& *final(record) == (ScheduleRecord { claimed: Some(schedule_vested(c, now) as i128), ..*old(record) })
                &&& gated_value(r).value == amount
                &&& transfer_views(gated_value(r).transfers@) == seq![payout(c.token@, c.beneficiary@, amount)]
            },
            !claim_verdict(*old(record), now).is_accepted() ==> *final(record) == *old(record),
    {
        let c = match &record.config {
            None => { return Gated::Refused { error: FactoryError::ScheduleNotFound }; },
            Some(c) => c,
        };
        let signers = one_signer(&c.beneficiary);
        if c.cancelled {
            return Gated::Signed { signers, outcome: Err(FactoryError::Cancelled) };
        }
        proof {
            lemma_schedule_vested_bounded(*c, now);
        }
        let vested = Self::compute_vested(c, now);
        let claimed: i128 = match record.claimed {
            Some(v) => v,
            None => 0,
        };
        let elapsed = now.saturating_sub(c.start_time);
        if elapsed < c.cliff_seconds {
            return Gated::Signed { signers, outcome: Err(FactoryError::CliffNotReached) };
        }
        let diff = vested - claimed;
        let claimable = if diff > 0 { diff } else { 0 };
        if claimable == 0 {
            return Gated::Signed { signers, outcome: Err(FactoryError::NothingToClaim) };
        }
        let mut transfers: Vec<Transfer> = Vec::new();
        transfers.push(Transfer::new(Direction::Payout, &c.token, &c.beneficiary, claimable));
        proof {
            assert(transfer_views(transfers@) =~= seq![payout(c.token@, c.beneficiary@, claimable as int)]);
        }
        record.claimed = Some(claimed + claimable);
        Gated::Signed { signers, outcome: Ok(Settlement { value: claimable, transfers }) }
    }

    /// Cancel a schedule: pay the beneficiary what is vested and unclaimed and
    /// return the unvested tokens to the admin.
    pub fn cancel(record: &mut ScheduleRecord, now: u64) -> (r: Gated<Settlement<()>, FactoryError>)
        requires
            old(record).wf(),
            old(record).config matches Some(c) ==> schedule_fits(c, now),
        ensures
            final(record).wf(),
            gated_agrees(r, cancel_verdict(*old(record))),
            gated_signers(r, seq![record_cfg(*old(record)).admin@]),
            cancel_verdict(*old(record)).is_accepted() ==> {
                &&& *final(record) == (ScheduleRecord {
                    config: Some(ScheduleConfig { cancelled: true, ..record_cfg(*old(record)) }),
                    ..*old(record)
                })
                &&& transfer_views(gated_value(r).transfers@) == cancel_transfers(*old(record), now)
            },
            !cancel_verdict(*old(record)).is_accepted() ==> *final(record) == *old(record),
    {
        let c = match &record.config {
            None => { return Gated::Refused { error: FactoryError::ScheduleNotFound }; },
            Some(c) => c,
        };
        let signers = one_signer(&c.admin);
        if c.cancelled {
            return Gated::Signed { signers, outcome: Err(FactoryError::Cancelled) };
        }
        proof {
            lemma_schedule_vested_bounded(*c, now);
        }
        let vested = Self::compute_vested(c, now);
        let claimed: i128 = match record.claimed {
            Some(v) => v,
            None => 0,
        };
        let mut transfers: Vec<Transfer> = Vec::new();
        let diff = vested - claimed;
        let beneficiary_amount = if diff > 0 { diff } else { 0 };
        push_payout_if_positive(&mut transfers, &c.token, &c.beneficiary, beneficiary_amount);
        let rest = c.total_amount - vested;
        let admin_amount = if rest > 0 { rest } else { 0 };
        push_payout_if_positive(&mut transfers, &c.token, &c.admin, admin_amount);
        proof {
            assert(transfer_views(transfers@) =~= cancel_transfers(*old(record), now));
        }
        let mut cfg_now = record.config.take().unwrap();
        cfg_now.cancelled = true;
        record.config = Some(cfg_now);
        Gated::Signed { signers, outcome: Ok(Settlement { value: (), transfers }) }
    }

    /// Return the status of schedule `schedule_id` at `now`.
    pub fn get_status(record: &ScheduleRecord, schedule_id: u64, now: u64) -> (r: Result<VestingStatus, FactoryError>)
        requires
            record.wf(),
            record.config matches Some(c) ==> schedule_fits(c, now),
        ensures
            record.config is None ==> r == Err::<VestingStatus, FactoryError>(FactoryError::ScheduleNotFound),
            record.config is Some ==> r == Ok::<VestingStatus, FactoryError>(status_at(*record, schedule_id, now)),
    {
        let c = match &record.config {
            None => { return Err(FactoryError::ScheduleNotFound); },
            Some(c) => c,
        };
        proof {
            lemma_schedule_vested_bounded(*c, now);
        }
        let vested = Self::compute_vested(c, now);
        let claimed: i128 = match record.claimed {
            Some(v) => v,
            None => 0,
        };
        let elapsed = now.saturating_sub(c.start_time);
        let claimable = if elapsed >= c.cliff_seconds {
            let diff = vested - claimed;
            if diff > 0 { diff } else { 0 }
        } else {
            0
        };
        Ok(VestingStatus {
            schedule_id,
            total_amount: c.total_amount,
            claimed,
            vested,
            claimable,
            cliff_reached: elapsed >= c.cliff_seconds,
            fully_vested: vested >= c.total_amount,
            cancelled: c.cancelled,
        })
    }

    /// Return the total number of schedules ever created.
    pub fn get_schedule_count(count: Option<u64>) -> (r: u64)
        ensures
            r == schedule_count(count),
    {
        match count {
            Some(n) => n,
            None => 0,
        }
    }

    /// The amount of a schedule vested at `now`.
    pub fn compute_vested(config: &ScheduleConfig, now: u64) -> (r: i128)
        requires
            valid_terms(config.total_amount as int, config.cliff_seconds as int, config.duration_seconds as int),
            schedule_fits(*config, now),
        ensures
            r == schedule_vested(*config, now),
    {
        if config.cancelled {
            return 0;
        }
        let elapsed = now.saturating_sub(config.start_time);
        release_after(config.total_amount, config.cliff_seconds, config.duration_seconds, elapsed)
    }
}

// ── Checks of the preconditions ───────────────────────────────────────────────

impl ScheduleRecord {
    /// Whether the stored values are well formed, as `wf` states.
    pub fn is_well_formed(&self) -> (r: bool)
        ensures
            r == self.wf(),
    {
        match &self.config {
            None => true,
            Some(c) => {
                let claimed: i128 = match self.claimed {
                    Some(v) => v,
                    None => 0,
                };
                crate::schedule::terms_valid(c.total_amount, c.cliff_seconds, c.duration_seconds)
                    && 0 <= claimed && claimed <= c.total_amount
            },
        }
    }
}

impl ForgeVestingFactory {
    /// Whether the vested amount at `now` can be computed within `i128`, as
    /// `schedule_fits` states.
    pub fn vested_computable(config: &ScheduleConfig, now: u64) -> (r: bool)
        ensures
            r == schedule_fits(*config, now),
    {
        if config.cancelled {
            return true;
        }
        let elapsed = now.saturating_sub(config.start_time);
        crate::schedule::release_computable(config.total_amount, config.cliff_seconds, config.duration_seconds, elapsed)
    }
}

// ── Laws ─────────────────────────────────────────────────────────────────────

/// The vested amount of a schedule lies between zero and its total.
pub proof fn lemma_schedule_vested_bounded(c: ScheduleConfig, now: u64)
    requires
        valid_terms(c.total_amount as int, c.cliff_seconds as int, c.duration_seconds as int),
    ensures
        0 <= schedule_vested(c, now) <= c.total_amount,
{
    lemma_release_bounded(c.total_amount as int, c.cliff_seconds as int, c.duration_seconds as int,
        elapsed_since(c.start_time, now));
}

/// Schedule ids are handed out in order: the schedule created after another
/// gets the next id, so no two schedules share one.
pub proof fn law_ids_are_sequential(count: Option<u64>)
    requires
        schedule_count(count) < u64::MAX,
    ensures
        schedule_count(count_after_create(count)) == schedule_count(count) + 1,
{
}

/// A new schedule is well formed and nothing of it is claimed yet.
pub proof fn law_created_schedule_is_fresh(c: ScheduleConfig, now: u64)
    requires
        valid_terms(c.total_amount as int, c.cliff_seconds as int, c.duration_seconds as int),
        !c.cancelled,
    ensures
        (ScheduleRecord { config: Some(c), claimed: None }).wf(),
        c.start_time == now ==> schedule_vested(c, now) == 0,
{
}

/// A cancellation accounts for every token: when nothing was over-claimed,
/// what was claimed before, the beneficiary's payout and the admin's refund
/// make up the schedule's total.
pub proof fn law_cancel_splits_total(r: ScheduleRecord, now: u64)
    requires
        r.wf(),
        cancel_verdict(r).is_accepted(),
        record_claimed(r) <= schedule_vested(record_cfg(r), now),
    ensures
        crate::vesting::amount_paid(cancel_transfers(r, now)) == record_cfg(r).total_amount - record_claimed(r),
{
    let c = record_cfg(r);
    let v = schedule_vested(c, now);
    lemma_schedule_vested_bounded(c, now);
    let a = payout_if_positive(c.token@, c.beneficiary@, v - record_claimed(r));
    let b = payout_if_positive(c.token@, c.admin@, c.total_amount - v);
    crate::vesting::lemma_paid_if_positive(c.token@, c.beneficiary@, v - record_claimed(r));
    crate::vesting::lemma_paid_if_positive(c.token@, c.admin@, c.total_amount - v);
    crate::vesting::lemma_paid_append_short(a, b);
}

/// A claim pays exactly what it adds to the schedule's claimed amount, which
/// never exceeds the total.
pub proof fn law_claim_records_payout(r: ScheduleRecord, now: u64)
    requires
        r.wf(),
        claim_verdict(r, now).is_accepted(),
    ensures
        schedule_vested(record_cfg(r), now) <= record_cfg(r).total_amount,
        (ScheduleRecord { claimed: Some(schedule_vested(record_cfg(r), now) as i128), ..r }).wf(),
{
    lemma_schedule_vested_bounded(record_cfg(r), now);
}

/// Once cancelled, a schedule can no longer be claimed nor cancelled again.
pub proof fn law_no_claim_after_cancel(r: ScheduleRecord, now: u64)
    requires
        cancel_verdict(r).is_accepted(),
    ensures
        ({
            let after = ScheduleRecord { config: Some(ScheduleConfig { cancelled: true, ..record_cfg(r) }), ..r };
            &&& claim_verdict(after, now) == Verdict::<FactoryError>::Rejected(FactoryError::Cancelled)
            &&& cancel_verdict(after) == Verdict::<FactoryError>::Rejected(FactoryError::Cancelled)
        }),
{
}

/// Before the cliff nothing can be claimed, and the status says so.
pub proof fn law_nothing_claimable_before_cliff(r: ScheduleRecord, id: u64, now: u64)
    requires
        r.wf(),
        r.config is Some,
        elapsed_since(record_cfg(r).start_time, now) < record_cfg(r).cliff_seconds,
    ensures
        status_at(r, id, now).claimable == 0,
        !status_at(r, id, now).cliff_reached,
        claim_verdict(r, now) is Rejected,
{
}

/// The amount of a running schedule vested at `now`, written out: nothing
/// before the cliff, everything from the end of the duration on, and the
/// proportional share rounded down in between.
proof fn lemma_vested_written_out(c: ScheduleConfig, now: u64)
    requires
        !c.cancelled,
    ensures
        ({
            let e: int = if now >= c.start_time { now - c.start_time } else { 0 };
            schedule_vested(c, now) == if e < c.cliff_seconds {
                0
            } else if e >= c.duration_seconds {
                c.total_amount as int
            } else {
                c.total_amount * e / (c.duration_seconds as int)
            }
        }),
{
}

/// The status reports as claimable what a claim at that moment pays: the
/// vested amount less the claimed amount once the cliff is reached (never
/// below zero), and nothing before the cliff. A claim succeeds exactly when
/// something is claimable, and right after it nothing is.
pub proof fn law_status_claimable_is_claim(r: ScheduleRecord, id: u64, now: u64)
    requires
        r.wf(),
        r.config is Some,
    ensures
        ({
            let st = status_at(r, id, now);
            let c = record_cfg(r);
            let e: int = if now >= c.start_time { now - c.start_time } else { 0 };
            let after = ScheduleRecord { claimed: Some(schedule_vested(c, now) as i128), ..r };
            &&& st.claimed == record_claimed(r)
            &&& st.vested == schedule_vested(c, now)
            &&& st.cliff_reached == (e >= c.cliff_seconds)
            &&& st.cliff_reached ==> st.claimable == if st.vested - st.claimed > 0 { st.vested - st.claimed } else { 0 }
            &&& !st.cliff_reached ==> st.claimable == 0
            &&& claim_verdict(r, now).is_accepted() <==> st.claimable > 0
            &&& claim_verdict(r, now).is_accepted() ==> schedule_vested(c, now) - record_claimed(r) == st.claimable
            &&& claim_verdict(r, now).is_accepted() ==> status_at(after, id, now).claimable == 0
        }),
{
    lemma_schedule_vested_bounded(record_cfg(r), now);
}

/// A cancellation pays the beneficiary what is vested and not yet claimed,
/// and refunds the admin what is not vested, each only when positive; the
/// vested amount is nothing before the cliff, so a cancellation before the
/// cliff refunds the whole total to the admin and pays the beneficiary
/// nothing. The beneficiary gets exactly what the status reports claimable.
pub proof fn law_cancel_pays_vested_and_refunds_rest(r: ScheduleRecord, id: u64, now: u64)
    requires
        r.wf(),
        cancel_verdict(r).is_accepted(),
    ensures
        ({
            let c = record_cfg(r);
            let e: int = if now >= c.start_time { now - c.start_time } else { 0 };
            let v: int = if e < c.cliff_seconds {
                0
            } else if e >= c.duration_seconds {
                c.total_amount as int
            } else {
                c.total_amount * e / (c.duration_seconds as int)
            };
            let to_beneficiary: Seq<TransferView> = if v - record_claimed(r) > 0 {
                seq![payout(c.token@, c.beneficiary@, v - record_claimed(r))]
            } else {
                Seq::empty()
            };
            let to_admin: Seq<TransferView> = if c.total_amount - v > 0 {
                seq![payout(c.token@, c.admin@, c.total_amount - v)]
            } else {
                Seq::empty()
            };
            &&& cancel_transfers(r, now) == to_beneficiary + to_admin
            &&& e < c.cliff_seconds ==> cancel_transfers(r, now) == seq![payout(c.token@, c.admin@, c.total_amount as int)]
            &&& cancel_transfers(r, now) == payout_if_positive(c.token@, c.beneficiary@, status_at(r, id, now).claimable as int)
                + payout_if_positive(c.token@, c.admin@, c.total_amount - v)
        }),
{
    let c = record_cfg(r);
    lemma_vested_written_out(c, now);
    lemma_schedule_vested_bounded(c, now);
    let e: int = if now >= c.start_time { now - c.start_time } else { 0 };
    if e < c.cliff_seconds {
        assert(Seq::<TransferView>::empty() + seq![payout(c.token@, c.admin@, c.total_amount as int)]
            =~= seq![payout(c.token@, c.admin@, c.total_amount as int)]);
    }
}

/// A schedule is created exactly when its total and duration are positive
/// and its cliff is no longer than its duration.
pub proof fn law_create_conditions(total_amount: i128, cliff_seconds: u64, duration_seconds: u64)
    ensures
        create_verdict(total_amount, cliff_seconds, duration_seconds).is_accepted()
            <==> (total_amount > 0 && duration_seconds > 0 && cliff_seconds <= duration_seconds),
        !create_verdict(total_amount, cliff_seconds, duration_seconds).is_accepted()
            ==> create_verdict(total_amount, cliff_seconds, duration_seconds)
                == Verdict::<FactoryError>::Rejected(FactoryError::InvalidConfig),
{
}

} // verus!
