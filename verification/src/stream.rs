//! Real-time token streaming: a sender deposits `rate × duration` tokens that
//! become withdrawable by the recipient second by second.

use vstd::prelude::*;
use crate::address::Address;
use crate::gate::{Gated, Verdict, gated_agrees, gated_signers, gated_value, one_signer};
use crate::transfer::{Direction, Settlement, Transfer, transfer_views, payout, deposit};

verus! {

/// Why a stream operation fails.
#[derive(Copy, Clone, Debug, PartialEq, Eq, Structural)]
pub enum StreamError {
    StreamNotFound,
    Unauthorized,
    NothingToWithdraw,
    AlreadyCancelled,
    InvalidConfig,
    StreamFinished,
    /// Sender's token balance is less than the total required to fund the stream
    InsufficientFunds,
    /// Withdrawal amount is below the minimum threshold
    BelowMinimumWithdrawal,
}

/// The streaming contract.
pub struct ForgeStream;

/// One stream.
#[derive(Debug)]
pub struct Stream {
    /// Unique stream ID
    pub id: u64,
    /// Token being streamed
    pub token: Address,
    /// Sender funding the stream
    pub sender: Address,
    /// Recipient receiving tokens
    pub recipient: Address,
    /// Tokens per second
    pub rate_per_second: i128,
    /// Stream start timestamp
    pub start_time: u64,
    /// Stream end timestamp
    pub end_time: u64,
    /// Total tokens already withdrawn
    pub withdrawn: i128,
    /// Whether the stream has been cancelled
    pub cancelled: bool,
    /// Amount streamed at the time of cancellation (if cancelled)
    pub streamed_at_cancel: i128,
    /// Whether the stream is currently paused
    pub is_paused: bool,
    /// Timestamp when stream was last paused (if paused)
    pub paused_at: Option<u64>,
    /// Total seconds the stream has been paused
    pub total_paused_time: u64,
    /// Whether this stream is currently counted as active in the global counter
    pub counted_active: bool,
    /// Minimum withdrawal amount to prevent dust withdrawals (0 means no minimum)
    pub min_withdrawal_amount: i128,
}

/// A snapshot of a stream's progress.
#[derive(Copy, Clone, Debug, PartialEq, Eq, Structural)]
pub struct StreamStatus {
    pub id: u64,
    pub streamed: i128,
    pub withdrawn: i128,
    pub withdrawable: i128,
    pub remaining: i128,
    pub is_active: bool,
    pub is_finished: bool,
    pub is_paused: bool,
    /// `true` when `withdrawable > 0`.
    pub is_claimable: bool,
}

/// The counters the contract keeps besides its streams.
#[derive(Debug)]
pub struct StreamCounters {
    /// The id the next stream gets.
    pub next_id: Option<u64>,
    /// How many streams are active.
    pub active_streams: Option<u64>,
}

// ── Model ────────────────────────────────────────────────────────────────────

/// The whole amount a stream pays over its life.
pub open spec fn deposit_of(s: Stream) -> int {
    s.rate_per_second * (s.end_time - s.start_time)
}

/// `x - y`, or zero when `y` is larger.
pub open spec fn sat_sub(x: int, y: int) -> int {
    if x >= y { x - y } else { 0 }
}

/// Seconds of the stream that have run by `now`: from the start to `now`
/// (capped at the end), less the time spent paused.
pub open spec fn active_seconds(s: Stream, now: u64) -> int {
    let effective = if now < s.end_time { now as int } else { s.end_time as int };
    sat_sub(sat_sub(effective, s.start_time as int), s.total_paused_time as int)
}

/// The amount streamed by `now`: fixed at cancellation, else the rate times
/// the active seconds.
pub open spec fn streamed_at(s: Stream, now: u64) -> int {
    if s.cancelled {
        s.streamed_at_cancel as int
    } else {
        s.rate_per_second * active_seconds(s, now)
    }
}

impl Stream {
    /// What holds of every stream the contract creates: a positive rate, a
    /// start no later than the end, a deposit that fits in `i128`, and
    /// withdrawn and cancelled-at amounts within the deposit.
    pub open spec fn wf(self) -> bool {
        &&& self.rate_per_second > 0
        &&& self.start_time <= self.end_time
        &&& deposit_of(self) <= i128::MAX
        &&& 0 <= self.withdrawn <= deposit_of(self)
        &&& 0 <= self.streamed_at_cancel <= deposit_of(self)
        &&& self.min_withdrawal_amount >= 0
    }
}

pub open spec fn next_id_of(c: StreamCounters) -> u64 {
    match c.next_id {
        Some(n) => n,
        None => 0,
    }
}

pub open spec fn active_count_of(c: StreamCounters) -> u64 {
    match c.active_streams {
        Some(n) => n,
        None => 0,
    }
}

/// The deposit asked for a stream paying `rate` per second for `duration`.
pub open spec fn stream_total(rate: i128, duration: u64) -> int {
    rate * duration
}

pub open spec fn create_verdict(
    rate_per_second: i128,
    duration_seconds: u64,
    min_withdrawal_amount: i128,
    sender_balance: i128,
) -> Verdict<StreamError> {
    if rate_per_second <= 0 || duration_seconds == 0 || min_withdrawal_amount < 0 {
        Verdict::Refused(StreamError::InvalidConfig)
    } else if stream_total(rate_per_second, duration_seconds) > i128::MAX {
        Verdict::Rejected(StreamError::InvalidConfig)
    } else if sender_balance < stream_total(rate_per_second, duration_seconds) {
        Verdict::Rejected(StreamError::InsufficientFunds)
    } else {
        Verdict::Accepted
    }
}

pub open spec fn withdraw_verdict(s: Option<Stream>, now: u64) -> Verdict<StreamError> {
    match s {
        None => Verdict::Refused(StreamError::StreamNotFound),
        Some(st) => {
            let withdrawable = streamed_at(st, now) - st.withdrawn;
            if st.cancelled {
                Verdict::Refused(StreamError::AlreadyCancelled)
            } else if withdrawable <= 0 {
                Verdict::Rejected(StreamError::NothingToWithdraw)
            } else if now < st.end_time && withdrawable < st.min_withdrawal_amount && st.min_withdrawal_amount > 0 {
                Verdict::Rejected(StreamError::BelowMinimumWithdrawal)
            } else {
                Verdict::Accepted
            }
        },
    }
}

// ── Operations ───────────────────────────────────────────────────────────────

impl ForgeStream {
    /// Create a stream from `sender` to `recipient` starting at `now`, funded
    /// from the sender's balance `sender_balance` of `token`. On success the
    /// value is the new stream's id and the stream to store under it.
    pub fn create_stream(
        counters: &mut StreamCounters,
        sender: Address,
        token: Address,
        recipient: Address,
        rate_per_second: i128,
        duration_seconds: u64,
        min_withdrawal_amount: i128,
        now: u64,
        sender_balance: i128,
    ) -> (r: Gated<Settlement<(u64, Stream)>, StreamError>)
        requires
            create_verdict(rate_per_second, duration_seconds, min_withdrawal_amount, sender_balance).is_accepted() ==> {
                &&& now + duration_seconds <= u64::MAX
                &&& next_id_of(*old(counters)) < u64::MAX
            },
        ensures
            gated_agrees(r, create_verdict(rate_per_second, duration_seconds, min_withdrawal_amount, sender_balance)),
            gated_signers(r, seq![sender@]),
            create_verdict(rate_per_second, duration_seconds, min_withdrawal_amount, sender_balance).is_accepted() ==> {
                let id = next_id_of(*old(counters));
                let v = gated_value(r);
                let count = active_count_of(*old(counters));
                &&& v.value.0 == id
                &&& v.value.1 == (Stream {
                    id,
                    token,
                    sender,
                    recipient,
                    rate_per_second,
                    start_time: now,
                    end_time: (now + duration_seconds) as u64,
                    withdrawn: 0,
                    cancelled: false,
                    streamed_at_cancel: 0,
                    is_paused: false,
                    paused_at: None,
                    total_paused_time: 0,
                    counted_active: true,
                    min_withdrawal_amount,
                })
                &&& v.value.1.wf()
                &&& final(counters).next_id == Some((id + 1) as u64)
                &&& final(counters).active_streams == Some(if count == u64::MAX { count } else { (count + 1) as u64 })
                &&& transfer_views(v.transfers@) == seq![deposit(token@, sender@, stream_total(rate_per_second, duration_seconds))]
            },
            !create_verdict(rate_per_second, duration_seconds, min_withdrawal_amount, sender_balance).is_accepted()
                ==> *final(counters) == *old(counters),
    {
        if rate_per_second <= 0 || duration_seconds == 0 || min_withdrawal_amount < 0 {
            return Gated::Refused { error: StreamError::InvalidConfig };
        }
        let signers = one_signer(&sender);
        let stream_id: u64 = match counters.next_id {
            Some(n) => n,
            None => 0,
        };
        let total = match rate_per_second.checked_mul(duration_seconds as i128) {
            Some(t) => t,
            None => { return Gated::Signed { signers, outcome: Err(StreamError::InvalidConfig) }; },
        };
        if sender_balance < total {
            return Gated::Signed { signers, outcome: Err(StreamError::InsufficientFunds) };
        }
        let mut transfers: Vec<Transfer> = Vec::new();
        transfers.push(Transfer::new(Direction::Deposit, &token, &sender, total));
        proof {
            assert(transfer_views(transfers@) =~= seq![deposit(token@, sender@, stream_total(rate_per_second, duration_seconds))]);
        }
        let stream = Stream {
            id: stream_id,
            token,
            sender,
            recipient,
            rate_per_second,
            start_time: now,
            end_time: now + duration_seconds,
            withdrawn: 0,
            cancelled: false,
            streamed_at_cancel: 0,
            is_paused: false,
            paused_at: None,
            total_paused_time: 0,
            counted_active: true,
            min_withdrawal_amount,
        };
        counters.next_id = Some(stream_id + 1);
        let active = Self::active_streams_count(counters);
        counters.active_streams = Some(active.saturating_add(1));
        Gated::Signed { signers, outcome: Ok(Settlement { value: (stream_id, stream), transfers }) }
    }

    /// Withdraw everything streamed and not yet withdrawn; returns the amount.
    pub fn withdraw(stream: &mut Option<Stream>, now: u64) -> (r: Gated<Settlement<i128>, StreamError>)
        requires
            *old(stream) matches Some(s) ==> s.wf(),
        ensures
            *final(stream) matches Some(s) ==> s.wf(),
            gated_agrees(r, withdraw_verdict(*old(stream), now)),
            gated_signers(r, seq![old(stream).unwrap().recipient@]),
            withdraw_verdict(*old(stream), now).is_accepted() ==> {
                let s = old(stream).unwrap();
                let amount = streamed_at(s, now) - s.withdrawn;
                &&& *final(stream) == Some(Stream { withdrawn: streamed_at(s, now) as i128, ..s })
                &&& gated_value(r).value == amount
                &&& transfer_views(gated_value(r).transfers@) == seq![payout(s.token@, s.recipient@, amount)]
            },
            !withdraw_verdict(*old(stream), now).is_accepted() ==> *final(stream) == *old(stream),
    {
        let s = match &*stream {
            None => { return Gated::Refused { error: StreamError::StreamNotFound }; },
            Some(s) => s,
        };
        if s.cancelled {
            return Gated::Refused { error: StreamError::AlreadyCancelled };
        }
        let signers = one_signer(&s.recipient);
        let streamed = Self::compute_streamed(s, now);
        let withdrawable = streamed - s.withdrawn;
        if withdrawable <= 0 {
            return Gated::Signed { signers, outcome: Err(StreamError::NothingToWithdraw) };
        }
        let is_finished = now >= s.end_time;
        if !is_finished && withdrawable < s.min_withdrawal_amount && s.min_withdrawal_amount > 0 {
            return Gated::Signed { signers, outcome: Err(StreamError::BelowMinimumWithdrawal) };
        }
        let mut transfers: Vec<Transfer> = Vec::new();
        transfers.push(Transfer::new(Direction::Payout, &s.token, &s.recipient, withdrawable));
        proof {
            assert(transfer_views(transfers@) =~= seq![payout(s.token@, s.recipient@, withdrawable as int)]);
        }
        let mut st = stream.take().unwrap();
        st.withdrawn = st.withdrawn + withdrawable;
        *stream = Some(st);
        Gated::Signed { signers, outcome: Ok(Settlement { value: withdrawable, transfers }) }
    }

    /// The amount a stream has streamed by `now`.
    pub fn compute_streamed(stream: &Stream, now: u64) -> (r: i128)
        requires
            stream.wf(),
        ensures
            r == streamed_at(*stream, now),
            0 <= r <= deposit_of(*stream),
    {
        if stream.cancelled {
            return stream.streamed_at_cancel;
        }
        let effective_now = if now < stream.end_time { now } else { stream.end_time };
        let elapsed = effective_now.saturating_sub(stream.start_time);
        let active_elapsed = elapsed.saturating_sub(stream.total_paused_time);
        proof {
            lemma_streamed_bounded(*stream, now);
        }
        stream.rate_per_second * active_elapsed as i128
    }

    /// How many streams are active.
    pub fn active_streams_count(counters: &StreamCounters) -> (r: u64)
        ensures
            r == active_count_of(*counters),
    {
        match counters.active_streams {
            Some(n) => n,
            None => 0,
        }
    }
}

// ── Checks of the preconditions ───────────────────────────────────────────────

impl ForgeStream {
    /// Whether creating a stream with these terms and this sender balance
    /// succeeds, as `create_verdict` states.
    pub fn creation_accepted(
        rate_per_second: i128,
        duration_seconds: u64,
        min_withdrawal_amount: i128,
        sender_balance: i128,
    ) -> (r: bool)
        ensures
            r == create_verdict(rate_per_second, duration_seconds, min_withdrawal_amount, sender_balance).is_accepted(),
    {
        if rate_per_second <= 0 || duration_seconds == 0 || min_withdrawal_amount < 0 {
            return false;
        }
        match rate_per_second.checked_mul(duration_seconds as i128) {
            None => false,
            Some(total) => sender_balance >= total,
        }
    }
}

impl ForgeStream {
    /// Whether `create_stream` reads the sender's balance: only once the terms
    /// are valid and their total fits. Where it does not, the balance makes
    /// no difference to the outcome.
    pub fn consults_balance(rate_per_second: i128, duration_seconds: u64, min_withdrawal_amount: i128) -> (r: bool)
        ensures
            r == (rate_per_second > 0 && duration_seconds > 0 && min_withdrawal_amount >= 0
                && stream_total(rate_per_second, duration_seconds) <= i128::MAX),
            !r ==> forall|b: i128|
                #[trigger] create_verdict(rate_per_second, duration_seconds, min_withdrawal_amount, b)
                    == create_verdict(rate_per_second, duration_seconds, min_withdrawal_amount, 0i128),
    {
        if rate_per_second <= 0 || duration_seconds == 0 || min_withdrawal_amount < 0 {
            return false;
        }
        rate_per_second.checked_mul(duration_seconds as i128).is_some()
    }
}

impl Stream {
    /// Whether a stored stream is well formed, as `wf` states.
    pub fn is_well_formed(&self) -> (r: bool)
        ensures
            r == self.wf(),
    {
        if self.rate_per_second <= 0 || self.start_time > self.end_time || self.min_withdrawal_amount < 0 {
            return false;
        }
        let span = (self.end_time - self.start_time) as i128;
        let total = match self.rate_per_second.checked_mul(span) {
            None => { return false; },
            Some(t) => t,
        };
        0 <= self.withdrawn && self.withdrawn <= total
            && 0 <= self.streamed_at_cancel && self.streamed_at_cancel <= total
    }
}

// ── Laws ─────────────────────────────────────────────────────────────────────

/// The amount streamed is never negative and never exceeds the deposit.
pub proof fn lemma_streamed_bounded(s: Stream, now: u64)
    requires
        s.wf(),
    ensures
        0 <= streamed_at(s, now) <= deposit_of(s),
        0 <= active_seconds(s, now) <= s.end_time - s.start_time,
{
    let a = active_seconds(s, now);
    let d = s.end_time - s.start_time;
    assert(0 <= s.rate_per_second * a <= s.rate_per_second * d) by (nonlinear_arith)
        requires s.rate_per_second > 0, 0 <= a <= d;
}

/// Streaming is monotone: an uncancelled stream never streams less later.
pub proof fn law_streamed_monotone(s: Stream, t1: u64, t2: u64)
    requires
        s.wf(),
        !s.cancelled,
        t1 <= t2,
    ensures
        streamed_at(s, t1) <= streamed_at(s, t2),
{
    let a1 = active_seconds(s, t1);
    let a2 = active_seconds(s, t2);
    assert(a1 <= a2);
    assert(s.rate_per_second * a1 <= s.rate_per_second * a2) by (nonlinear_arith)
        requires s.rate_per_second > 0, a1 <= a2;
}

/// A stream that was never paused has streamed its whole deposit once it
/// has ended.
pub proof fn law_stream_completes(s: Stream, now: u64)
    requires
        s.wf(),
        !s.cancelled,
        s.total_paused_time == 0,
        now >= s.end_time,
    ensures
        streamed_at(s, now) == deposit_of(s),
{
}

/// The deposit taken when a stream is created is exactly what the stream
/// pays over its life.
pub proof fn law_deposit_covers_stream(s: Stream, rate: i128, duration: u64, now: u64)
    requires
        s.rate_per_second == rate,
        s.start_time == now,
        s.end_time == now + duration,
    ensures
        deposit_of(s) == stream_total(rate, duration),
{
}

/// A withdrawal pays exactly what it adds to the withdrawn amount, and the
/// recipient can never withdraw more than the deposit.
pub proof fn law_withdraw_records_payout(s: Stream, now: u64)
    requires
        s.wf(),
        withdraw_verdict(Some(s), now).is_accepted(),
    ensures
        streamed_at(s, now) - s.withdrawn > 0,
        (Stream { withdrawn: streamed_at(s, now) as i128, ..s }).wf(),
        streamed_at(s, now) <= deposit_of(s),
{
    lemma_streamed_bounded(s, now);
}

/// Right after a withdrawal there is nothing more to withdraw at the same
/// moment.
pub proof fn law_withdraw_empties(s: Stream, now: u64)
    requires
        s.wf(),
        withdraw_verdict(Some(s), now).is_accepted(),
    ensures
        withdraw_verdict(Some(Stream { withdrawn: streamed_at(s, now) as i128, ..s }), now)
            == Verdict::<StreamError>::Rejected(StreamError::NothingToWithdraw),
{
    lemma_streamed_bounded(s, now);
}

/// The stream after a withdrawal at `now`: everything streamed counts as
/// withdrawn where the withdrawal succeeds, and nothing changes where it fails.
pub open spec fn withdraw_next(s: Stream, now: u64) -> Stream {
    if withdraw_verdict(Some(s), now).is_accepted() {
        Stream { withdrawn: streamed_at(s, now) as i128, ..s }
    } else {
        s
    }
}

/// What a withdrawal at `now` pays: the amount it returns where it succeeds,
/// and nothing where it fails.
pub open spec fn withdraw_paid(s: Stream, now: u64) -> int {
    if withdraw_verdict(Some(s), now).is_accepted() { streamed_at(s, now) - s.withdrawn } else { 0 }
}

/// The stream after withdrawals at each of `times` in turn.
pub open spec fn run_withdrawals(s: Stream, times: Seq<u64>) -> Stream
    decreases times.len(),
{
    if times.len() == 0 {
        s
    } else {
        withdraw_next(run_withdrawals(s, times.drop_last()), times.last())
    }
}

/// The sum of what withdrawals at each of `times` in turn pay.
pub open spec fn paid_by_withdrawals(s: Stream, times: Seq<u64>) -> int
    decreases times.len(),
{
    if times.len() == 0 {
        0
    } else {
        paid_by_withdrawals(s, times.drop_last()) + withdraw_paid(run_withdrawals(s, times.drop_last()), times.last())
    }
}

/// Withdrawals add up: over any sequence of withdrawals from a stream as it
/// is created, the amounts paid sum to the withdrawn amount, which never
/// exceeds the deposit; once a withdrawal succeeds at or after the end of a
/// stream that was never paused, the sum is the whole deposit.
pub proof fn law_withdrawals_add_up(s0: Stream, times: Seq<u64>)
    requires
        s0.wf(),
        !s0.cancelled,
        s0.withdrawn == 0,
    ensures
        ({
            let s = run_withdrawals(s0, times);
            let paid = paid_by_withdrawals(s0, times);
            &&& s.wf()
            &&& s == Stream { withdrawn: s.withdrawn, ..s0 }
            &&& paid == s.withdrawn
            &&& 0 <= paid <= deposit_of(s0)
        }),
        times.len() > 0 && s0.total_paused_time == 0 && times.last() >= s0.end_time
            && withdraw_verdict(Some(run_withdrawals(s0, times.drop_last())), times.last()).is_accepted()
            ==> paid_by_withdrawals(s0, times) == deposit_of(s0),
    decreases times.len(),
{
    if times.len() > 0 {
        let init = times.drop_last();
        law_withdrawals_add_up(s0, init);
        let prev = run_withdrawals(s0, init);
        let now = times.last();
        if withdraw_verdict(Some(prev), now).is_accepted() {
            law_withdraw_records_payout(prev, now);
            if s0.total_paused_time == 0 && now >= s0.end_time {
                law_stream_completes(prev, now);
            }
        }
    }
}

/// A withdrawal before the end of a stream with a positive minimum pays at
/// least that minimum: an accepted withdrawal pays what has streamed and not
/// been withdrawn, which is positive, and before the end it is no smaller
/// than the minimum. A smaller positive amount before the end is refused
/// with `BelowMinimumWithdrawal`; from the end on, any positive amount is paid.
pub proof fn law_withdraw_respects_minimum(s: Stream, now: u64)
    ensures
        withdraw_verdict(Some(s), now).is_accepted() ==> {
            &&& !s.cancelled
            &&& streamed_at(s, now) - s.withdrawn > 0
            &&& (now < s.end_time && s.min_withdrawal_amount > 0) ==> streamed_at(s, now) - s.withdrawn >= s.min_withdrawal_amount
        },
        (!s.cancelled && now < s.end_time && s.min_withdrawal_amount > 0
            && 0 < streamed_at(s, now) - s.withdrawn < s.min_withdrawal_amount)
            ==> withdraw_verdict(Some(s), now) == Verdict::<StreamError>::Rejected(StreamError::BelowMinimumWithdrawal),
        (!s.cancelled && now >= s.end_time && streamed_at(s, now) - s.withdrawn > 0)
            ==> withdraw_verdict(Some(s), now).is_accepted(),
        (!s.cancelled && streamed_at(s, now) - s.withdrawn >= s.min_withdrawal_amount && streamed_at(s, now) - s.withdrawn > 0)
            ==> withdraw_verdict(Some(s), now).is_accepted(),
{
}

/// An uncancelled stream that was never paused has streamed its rate times
/// the seconds from its start to `now`, counted up to its end.
pub proof fn law_streamed_written_out(s: Stream, now: u64)
    requires
        !s.cancelled,
        s.total_paused_time == 0,
        s.start_time <= s.end_time,
    ensures
        now <= s.start_time ==> streamed_at(s, now) == 0,
        s.start_time <= now <= s.end_time ==> streamed_at(s, now) == s.rate_per_second * (now - s.start_time),
        now >= s.end_time ==> streamed_at(s, now) == s.rate_per_second * (s.end_time - s.start_time),
{
}

/// A stream is created exactly when its rate and duration are positive, its
/// minimum is not negative, its deposit `rate × duration` fits in `i128`
/// and the sender's balance covers that deposit.
pub proof fn law_create_conditions(rate: i128, duration: u64, min: i128, balance: i128)
    ensures
        create_verdict(rate, duration, min, balance).is_accepted()
            <==> (rate > 0 && duration > 0 && min >= 0 && rate * duration <= i128::MAX && balance >= rate * duration),
        (rate > 0 && duration > 0 && min >= 0 && rate * duration <= i128::MAX && balance < rate * duration)
            ==> create_verdict(rate, duration, min, balance) == Verdict::<StreamError>::Rejected(StreamError::InsufficientFunds),
        (rate <= 0 || duration == 0 || min < 0)
            ==> create_verdict(rate, duration, min, balance) == Verdict::<StreamError>::Refused(StreamError::InvalidConfig),
{
}

} // verus!
