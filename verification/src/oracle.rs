//! A price feed: an admin submits prices for trading pairs, and readers get
//! them back as long as they are not stale.

use vstd::prelude::*;
use crate::address::{Address, Symbol};
use crate::gate::{Gated, Verdict, gated_agrees, gated_signers, one_signer};
use crate::distinct::{first_occurrences, lemma_first_occurrences};

verus! {

/// Why an oracle operation fails.
#[derive(Copy, Clone, Debug, PartialEq, Eq, Structural)]
pub enum OracleError {
    AlreadyInitialized,
    NotInitialized,
    Unauthorized,
    PriceNotFound,
    PriceStale,
    InvalidPrice,
    InvalidPair,
    PriceDeviationTooHigh,
}

/// The oracle contract.
pub struct ForgeOracle;

/// A trading pair.
#[derive(Debug)]
pub struct PricePair {
    pub base: Symbol,
    pub quote: Symbol,
}

/// A price entry with value and timestamp.
#[derive(Copy, Clone, Debug, PartialEq, Eq, Structural)]
pub struct PriceData {
    /// Price scaled to 7 decimal places (e.g. 1_0000000 = 1.0)
    pub price: i128,
    /// Ledger timestamp of last update
    pub updated_at: u64,
}

/// A single entry returned by `get_all_prices`.
#[derive(Debug)]
pub struct PriceEntry {
    pub base: Symbol,
    pub quote: Symbol,
    pub price: i128,
    pub updated_at: u64,
}

/// The settings the contract keeps: its admin, the staleness threshold and
/// the largest accepted move between two prices, in basis points.
#[derive(Debug)]
pub struct OracleSettings {
    pub admin: Option<Address>,
    pub staleness_threshold: Option<u64>,
    pub max_deviation_bps: Option<u32>,
}

/// What the contract keeps for one pair: its last price and when it was set.
#[derive(Copy, Clone, Debug, PartialEq, Eq, Structural)]
pub struct PriceSlot {
    pub price: Option<i128>,
    pub updated_at: Option<u64>,
}

/// A pair, taken by the views of its symbols.
pub open spec fn pair_key(p: PricePair) -> (Seq<u8>, Seq<u8>) {
    (p.base@, p.quote@)
}

/// The views of a list of pairs.
pub open spec fn pair_keys(s: Seq<PricePair>) -> Seq<(Seq<u8>, Seq<u8>)> {
    s.map_values(|p: PricePair| pair_key(p))
}

/// A price entry, taken by the views of its symbols.
pub open spec fn entry_view(e: PriceEntry) -> (Seq<u8>, Seq<u8>, i128, u64) {
    (e.base@, e.quote@, e.price, e.updated_at)
}

// ── Model ────────────────────────────────────────────────────────────────────

/// The relative move from `prev` to `price`, in basis points, rounded down.
pub open spec fn deviation_bps(prev: int, price: int) -> int {
    let diff = if price >= prev { price - prev } else { prev - price };
    diff * 10_000 / prev
}

/// Whether a submitted price moves too far from the stored one: only checked
/// when a limit is set and a positive previous price exists.
pub open spec fn deviates_too_much(settings: OracleSettings, slot: PriceSlot, price: i128) -> bool {
    let max = match settings.max_deviation_bps {
        Some(m) => m,
        None => 0,
    };
    match slot.price {
        Some(prev) => max > 0 && prev > 0 && deviation_bps(prev as int, price as int) > max,
        None => false,
    }
}

/// Whether computing the deviation stays within `i128`.
pub open spec fn deviation_fits(settings: OracleSettings, slot: PriceSlot, price: i128) -> bool {
    let max = match settings.max_deviation_bps {
        Some(m) => m,
        None => 0,
    };
    match slot.price {
        Some(prev) => (max > 0 && prev > 0) ==> {
            let diff = if price >= prev { price - prev } else { prev - price };
            diff * 10_000 <= i128::MAX
        },
        None => true,
    }
}

pub open spec fn initialize_verdict(settings: OracleSettings) -> Verdict<OracleError> {
    if settings.admin is Some {
        Verdict::Refused(OracleError::AlreadyInitialized)
    } else {
        Verdict::Accepted
    }
}

pub open spec fn submit_verdict(
    settings: OracleSettings,
    slot: PriceSlot,
    base: Seq<u8>,
    quote: Seq<u8>,
    price: i128,
) -> Verdict<OracleError> {
    if base == quote {
        Verdict::Refused(OracleError::InvalidPair)
    } else if settings.admin is None {
        Verdict::Refused(OracleError::NotInitialized)
    } else if price <= 0 {
        Verdict::Rejected(OracleError::InvalidPrice)
    } else if deviates_too_much(settings, slot, price) {
        Verdict::Rejected(OracleError::PriceDeviationTooHigh)
    } else {
        Verdict::Accepted
    }
}

/// An admin-only setting change: refused when not initialized.
pub open spec fn admin_verdict(settings: OracleSettings) -> Verdict<OracleError> {
    if settings.admin is None {
        Verdict::Refused(OracleError::NotInitialized)
    } else {
        Verdict::Accepted
    }
}

/// What reading a slot without the staleness check gives.
pub open spec fn raw_price(slot: PriceSlot) -> Result<PriceData, OracleError> {
    match (slot.price, slot.updated_at) {
        (Some(p), Some(t)) => Ok(PriceData { price: p, updated_at: t }),
        _ => Err(OracleError::PriceNotFound),
    }
}

/// What reading a slot at `now` gives: its price while younger than the
/// staleness threshold.
pub open spec fn fresh_price(settings: OracleSettings, slot: PriceSlot, now: u64) -> Result<PriceData, OracleError> {
    match raw_price(slot) {
        Err(e) => Err(e),
        Ok(d) => match settings.staleness_threshold {
            None => Err(OracleError::NotInitialized),
            Some(th) => if now >= d.updated_at + th {
                Err(OracleError::PriceStale)
            } else {
                Ok(d)
            },
        },
    }
}

/// The entries listed by `get_all_prices`: each listed pair with a stored
/// price, in list order, with its update time (zero when missing).
pub open spec fn listed_entries(keys: Seq<(Seq<u8>, Seq<u8>)>, slots: Seq<PriceSlot>) -> Seq<(Seq<u8>, Seq<u8>, i128, u64)>
    decreases keys.len(),
{
    if keys.len() == 0 || slots.len() == 0 {
        Seq::empty()
    } else {
        let rest = listed_entries(keys.drop_last(), slots.drop_last());
        let k = keys.last();
        let s = slots.last();
        match s.price {
            None => rest,
            Some(p) => rest.push((k.0, k.1, p, match s.updated_at {
                Some(t) => t,
                None => 0,
            })),
        }
    }
}

// ── Operations ───────────────────────────────────────────────────────────────

impl ForgeOracle {
    /// Initializes the oracle with its admin and staleness threshold.
    pub fn initialize(settings: &mut OracleSettings, admin: Address, staleness_threshold: u64) -> (r: Gated<(), OracleError>)
        ensures
            gated_agrees(r, initialize_verdict(*old(settings))),
            gated_signers(r, seq![admin@]),
            initialize_verdict(*old(settings)).is_accepted() ==> *final(settings) == (OracleSettings {
                admin: Some(admin),
                staleness_threshold: Some(staleness_threshold),
                ..*old(settings)
            }),
            !initialize_verdict(*old(settings)).is_accepted() ==> *final(settings) == *old(settings),
    {
        if settings.admin.is_some() {
            return Gated::Refused { error: OracleError::AlreadyInitialized };
        }
        let signers = one_signer(&admin);
        settings.admin = Some(admin);
        settings.staleness_threshold = Some(staleness_threshold);
        Gated::Signed { signers, outcome: Ok(()) }
    }

    /// Submits a new price for the pair `base`/`quote` at `now`. `slot` is
    /// what is stored for the pair and `pairs` the list of known pairs, which
    /// gains the pair when it had no price before.
    pub fn submit_price(
        settings: &OracleSettings,
        slot: &mut PriceSlot,
        pairs: &mut Option<Vec<PricePair>>,
        base: Symbol,
        quote: Symbol,
        price: i128,
        now: u64,
    ) -> (r: Gated<(), OracleError>)
        requires
            base@ != quote@ && settings.admin is Some && price > 0 ==> deviation_fits(*settings, *old(slot), price),
        ensures
            gated_agrees(r, submit_verdict(*settings, *old(slot), base@, quote@, price)),
            gated_signers(r, seq![settings.admin.unwrap()@]),
            submit_verdict(*settings, *old(slot), base@, quote@, price).is_accepted() ==> {
                &&& *final(slot) == (PriceSlot { price: Some(price), updated_at: Some(now) })
                &&& old(slot).price is Some ==> *final(pairs) == *old(pairs)
                &&& old(slot).price is None ==> *final(pairs) is Some && pair_keys((*final(pairs)).unwrap()@) == (match *old(pairs) {
                    Some(v) => pair_keys(v@),
                    None => Seq::empty(),
                }).push((base@, quote@))
            },
            !submit_verdict(*settings, *old(slot), base@, quote@, price).is_accepted() ==> {
                &&& *final(slot) == *old(slot)
                &&& *final(pairs) == *old(pairs)
            },
    {
        if base.same(&quote) {
            return Gated::Refused { error: OracleError::InvalidPair };
        }
        let admin = match &settings.admin {
            None => { return Gated::Refused { error: OracleError::NotInitialized }; },
            Some(a) => a,
        };
        let signers = one_signer(admin);
        if price <= 0 {
            return Gated::Signed { signers, outcome: Err(OracleError::InvalidPrice) };
        }
        let max_deviation_bps: u32 = match settings.max_deviation_bps {
            Some(m) => m,
            None => 0,
        };
        if max_deviation_bps > 0 {
            if let Some(prev_price) = slot.price {
                if prev_price > 0 {
                    let diff = if price >= prev_price { price - prev_price } else { prev_price - price };
                    let deviation = diff * 10_000 / prev_price;
                    if deviation > max_deviation_bps as i128 {
                        return Gated::Signed { signers, outcome: Err(OracleError::PriceDeviationTooHigh) };
                    }
                }
            }
        }
        if slot.price.is_none() {
            let mut list: Vec<PricePair> = match pairs.take() {
                Some(v) => v,
                None => Vec::new(),
            };
            let ghost before = list@;
            list.push(PricePair { base, quote });
            proof {
                assert(pair_keys(list@) =~= pair_keys(before).push((base@, quote@)));
            }
            *pairs = Some(list);
        }
        slot.price = Some(price);
        slot.updated_at = Some(now);
        Gated::Signed { signers, outcome: Ok(()) }
    }

    /// Retrieves the price of a pair, failing when it is stale at `now`.
    pub fn get_price(settings: &OracleSettings, slot: &PriceSlot, now: u64) -> (r: Result<PriceData, OracleError>)
        requires
            raw_price(*slot) matches Ok(d) ==> (settings.staleness_threshold matches Some(th)
                ==> d.updated_at + th <= u64::MAX),
        ensures
            r == fresh_price(*settings, *slot, now),
    {
        let data = Self::get_price_unsafe(slot)?;
        let threshold = match settings.staleness_threshold {
            None => { return Err(OracleError::NotInitialized); },
            Some(t) => t,
        };
        if now >= data.updated_at + threshold {
            return Err(OracleError::PriceStale);
        }
        Ok(data)
    }

    /// Retrieves the stored price of a pair without the staleness check.
    pub fn get_price_unsafe(slot: &PriceSlot) -> (r: Result<PriceData, OracleError>)
        ensures
            r == raw_price(*slot),
    {
        let price = match slot.price {
            None => { return Err(OracleError::PriceNotFound); },
            Some(p) => p,
        };
        let updated_at = match slot.updated_at {
            None => { return Err(OracleError::PriceNotFound); },
            Some(t) => t,
        };
        Ok(PriceData { price, updated_at })
    }

    /// Updates the staleness threshold.
    pub fn set_staleness_threshold(settings: &mut OracleSettings, new_threshold: u64) -> (r: Gated<(), OracleError>)
        ensures
            gated_agrees(r, admin_verdict(*old(settings))),
            gated_signers(r, seq![old(settings).admin.unwrap()@]),
            admin_verdict(*old(settings)).is_accepted() ==>
                *final(settings) == (OracleSettings { staleness_threshold: Some(new_threshold), ..*old(settings) }),
            !admin_verdict(*old(settings)).is_accepted() ==> *final(settings) == *old(settings),
    {
        let signers = match &settings.admin {
            None => { return Gated::Refused { error: OracleError::NotInitialized }; },
            Some(a) => one_signer(a),
        };
        settings.staleness_threshold = Some(new_threshold);
        Gated::Signed { signers, outcome: Ok(()) }
    }

    /// Transfers the admin role; the current admin must authorize it.
    pub fn transfer_admin(settings: &mut OracleSettings, new_admin: Address) -> (r: Gated<(), OracleError>)
        ensures
            gated_agrees(r, admin_verdict(*old(settings))),
            gated_signers(r, seq![old(settings).admin.unwrap()@]),
            admin_verdict(*old(settings)).is_accepted() ==>
                *final(settings) == (OracleSettings { admin: Some(new_admin), ..*old(settings) }),
            !admin_verdict(*old(settings)).is_accepted() ==> *final(settings) == *old(settings),
    {
        let signers = match &settings.admin {
            None => { return Gated::Refused { error: OracleError::NotInitialized }; },
            Some(a) => one_signer(a),
        };
        settings.admin = Some(new_admin);
        Gated::Signed { signers, outcome: Ok(()) }
    }

    /// Sets the maximum allowed price deviation, in basis points (zero turns
    /// the check off).
    pub fn set_max_price_deviation(settings: &mut OracleSettings, bps: u32) -> (r: Gated<(), OracleError>)
        ensures
            gated_agrees(r, admin_verdict(*old(settings))),
            gated_signers(r, seq![old(settings).admin.unwrap()@]),
            admin_verdict(*old(settings)).is_accepted() ==>
                *final(settings) == (OracleSettings { max_deviation_bps: Some(bps), ..*old(settings) }),
            !admin_verdict(*old(settings)).is_accepted() ==> *final(settings) == *old(settings),
    {
        let signers = match &settings.admin {
            None => { return Gated::Refused { error: OracleError::NotInitialized }; },
            Some(a) => one_signer(a),
        };
        settings.max_deviation_bps = Some(bps);
        Gated::Signed { signers, outcome: Ok(()) }
    }

    /// Returns every listed pair that has a price. `slots[i]` is what is
    /// stored for `pairs[i]`.
    pub fn get_all_prices(
        settings: &OracleSettings,
        pairs: &Option<Vec<PricePair>>,
        slots: &Vec<PriceSlot>,
    ) -> (r: Result<Vec<PriceEntry>, OracleError>)
        requires
            slots@.len() == (match *pairs {
                Some(v) => v@.len(),
                None => 0,
            }),
        ensures
            settings.admin is None ==> r is Err && r->Err_0 == OracleError::NotInitialized,
            settings.admin is Some ==> r is Ok && r->Ok_0@.map_values(|e: PriceEntry| entry_view(e))
                == listed_entries(match *pairs {
                    Some(v) => pair_keys(v@),
                    None => Seq::empty(),
                }, slots@),
    {
        if settings.admin.is_none() {
            return Err(OracleError::NotInitialized);
        }
        let mut result: Vec<PriceEntry> = Vec::new();
        match pairs {
            None => {
                proof {
                    assert(result@.map_values(|e: PriceEntry| entry_view(e)) =~= listed_entries(Seq::empty(), slots@));
                }
            },
            Some(list) => {
                let n = list.len();
                let ghost keys = pair_keys(list@);
                let mut i: usize = 0;
                while i < n
                    invariant
                        n == list@.len(),
                        n == slots@.len(),
                        i <= n,
                        keys == pair_keys(list@),
                        result@.map_values(|e: PriceEntry| entry_view(e))
                            == listed_entries(keys.subrange(0, i as int), slots@.subrange(0, i as int)),
                    decreases n - i,
                {
                    let slot = &slots[i];
                    let pair = &list[i];
                    proof {
                        assert(keys.subrange(0, i + 1).drop_last() =~= keys.subrange(0, i as int));
                        assert(slots@.subrange(0, i + 1).drop_last() =~= slots@.subrange(0, i as int));
                        assert(keys.subrange(0, i + 1).last() == pair_key(*pair));
                    }
                    match slot.price {
                        None => {},
                        Some(price) => {
                            let updated_at: u64 = match slot.updated_at {
                                Some(t) => t,
                                None => 0,
                            };
                            let ghost before = result@;
                            result.push(PriceEntry {
                                base: pair.base.duplicate(),
                                quote: pair.quote.duplicate(),
                                price,
                                updated_at,
                            });
                            proof {
                                assert(result@.map_values(|e: PriceEntry| entry_view(e))
                                    =~= before.map_values(|e: PriceEntry| entry_view(e)).push(entry_view(result@.last())));
                            }
                        },
                    }
                    i += 1;
                }
                proof {
                    assert(keys.subrange(0, n as int) =~= keys);
                    assert(slots@.subrange(0, n as int) =~= slots@);
                }
            },
        }
        Ok(result)
    }

    /// Retrieves the current admin address.
    pub fn get_admin(settings: &OracleSettings) -> (r: Result<&Address, OracleError>)
        ensures
            settings.admin is None ==> r is Err && r->Err_0 == OracleError::NotInitialized,
            settings.admin is Some ==> r is Ok && *r->Ok_0 == settings.admin.unwrap(),
    {
        match &settings.admin {
            None => Err(OracleError::NotInitialized),
            Some(a) => Ok(a),
        }
    }

    /// Return the current staleness threshold.
    pub fn get_staleness_threshold(settings: &OracleSettings) -> (r: Result<u64, OracleError>)
        ensures
            settings.staleness_threshold is None ==> r == Err::<u64, OracleError>(OracleError::NotInitialized),
            settings.staleness_threshold matches Some(t) ==> r == Ok::<u64, OracleError>(t),
    {
        match settings.staleness_threshold {
            None => Err(OracleError::NotInitialized),
            Some(t) => Ok(t),
        }
    }
}

// ── Checks of the preconditions ───────────────────────────────────────────────

impl ForgeOracle {
    /// Whether the deviation check for `price` can be computed within `i128`,
    /// as `deviation_fits` states.
    pub fn deviation_computable(settings: &OracleSettings, slot: &PriceSlot, price: i128) -> (r: bool)
        ensures
            r == deviation_fits(*settings, *slot, price),
    {
        let max: u32 = match settings.max_deviation_bps {
            Some(m) => m,
            None => 0,
        };
        match slot.price {
            None => true,
            Some(prev) => {
                if max == 0 || prev <= 0 {
                    return true;
                }
                let diff: i128 = if price >= prev {
                    match price.checked_sub(prev) {
                        Some(d) => d,
                        None => { return false; },
                    }
                } else {
                    match prev.checked_sub(price) {
                        Some(d) => d,
                        None => { return false; },
                    }
                };
                diff.checked_mul(10_000).is_some()
            },
        }
    }
}

// ── Laws ─────────────────────────────────────────────────────────────────────

/// Reading back a submitted price gives the price and the submission time;
/// with a positive staleness threshold it is fresh at that moment.
pub proof fn law_read_after_submit(settings: OracleSettings, price: i128, now: u64)
    requires
        settings.staleness_threshold matches Some(th) && th > 0 && now + th <= u64::MAX,
    ensures
        ({
            let slot = PriceSlot { price: Some(price), updated_at: Some(now) };
            &&& raw_price(slot) == Ok::<PriceData, OracleError>(PriceData { price, updated_at: now })
            &&& fresh_price(settings, slot, now) == Ok::<PriceData, OracleError>(PriceData { price, updated_at: now })
        }),
{
}

/// A stored price is served while younger than the threshold and refused as
/// stale from then on.
pub proof fn law_staleness(settings: OracleSettings, slot: PriceSlot, now: u64)
    requires
        raw_price(slot) is Ok,
        settings.staleness_threshold is Some,
    ensures
        fresh_price(settings, slot, now) is Ok
            <==> now < slot.updated_at.unwrap() + settings.staleness_threshold.unwrap(),
        fresh_price(settings, slot, now) is Err
            ==> fresh_price(settings, slot, now) == Err::<PriceData, OracleError>(OracleError::PriceStale),
{
}

/// An accepted price never moves further from a positive previous price than
/// the configured limit.
pub proof fn law_deviation_bounded(settings: OracleSettings, slot: PriceSlot, base: Seq<u8>, quote: Seq<u8>, price: i128)
    requires
        submit_verdict(settings, slot, base, quote, price).is_accepted(),
        settings.max_deviation_bps matches Some(m) && m > 0,
        slot.price matches Some(prev) && prev > 0,
    ensures
        deviation_bps(slot.price.unwrap() as int, price as int) <= settings.max_deviation_bps.unwrap(),
        price > 0,
        base != quote,
{
}

/// The pair list names each priced pair once: if it lists exactly the pairs
/// that have a price, with no repeats, it still does after a submission.
pub proof fn law_pair_list_stays_exact(
    keys: Seq<(Seq<u8>, Seq<u8>)>,
    priced: Set<(Seq<u8>, Seq<u8>)>,
    key: (Seq<u8>, Seq<u8>),
    was_priced: bool,
)
    requires
        keys.no_duplicates(),
        keys.to_set() == priced,
        was_priced <==> priced.contains(key),
    ensures
        ({
            let next = if was_priced { keys } else { keys.push(key) };
            &&& next.no_duplicates()
            &&& next.to_set() == priced.insert(key)
        }),
{
    if was_priced {
        assert(priced.insert(key) =~= priced);
    } else {
        let next = keys.push(key);
        assert(!keys.contains(key)) by {
            if keys.contains(key) {
                assert(keys.to_set().contains(key));
            }
        }
        assert forall|i: int, j: int| 0 <= i < j < next.len() implies next[i] != next[j] by {
            if j == keys.len() {
                assert(keys.contains(next[i]));
            }
        }
        assert forall|x| next.to_set().contains(x) <==> priced.insert(key).contains(x) by {
            if x == key {
                assert(next[keys.len() as int] == key);
            } else {
                if next.to_set().contains(x) {
                    let i = choose|i: int| 0 <= i < next.len() && next[i] == x;
                    assert(keys[i] == x);
                    assert(keys.to_set().contains(x));
                }
                if priced.contains(x) {
                    assert(keys.to_set().contains(x));
                    let i = choose|i: int| 0 <= i < keys.len() && keys[i] == x;
                    assert(next[i] == x);
                }
            }
        }
        assert(next.to_set() =~= priced.insert(key));
    }
}

/// A submission of `price` for the pair `base`/`quote` at `now`, under the
/// settings in force at that moment.
pub struct PriceSubmission {
    pub settings: OracleSettings,
    pub base: Seq<u8>,
    pub quote: Seq<u8>,
    pub price: i128,
    pub now: u64,
}

/// The pair list and the slot stored for each pair.
pub struct PriceBook {
    pub keys: Seq<(Seq<u8>, Seq<u8>)>,
    pub slots: Map<(Seq<u8>, Seq<u8>), PriceSlot>,
}

/// The slot stored for `key`, empty where nothing was written.
pub open spec fn slot_of(book: PriceBook, key: (Seq<u8>, Seq<u8>)) -> PriceSlot {
    if book.slots.contains_key(key) {
        book.slots[key]
    } else {
        PriceSlot { price: None, updated_at: None }
    }
}

/// Whether the submission succeeds on `book`.
pub open spec fn submission_accepted(book: PriceBook, sub: PriceSubmission) -> bool {
    submit_verdict(sub.settings, slot_of(book, (sub.base, sub.quote)), sub.base, sub.quote, sub.price).is_accepted()
}

/// The book after a submission: a successful one stores the price and its
/// time, and lists the pair when it had no price before.
pub open spec fn submit_step(book: PriceBook, sub: PriceSubmission) -> PriceBook {
    let key = (sub.base, sub.quote);
    if submission_accepted(book, sub) {
        PriceBook {
            keys: if slot_of(book, key).price is Some { book.keys } else { book.keys.push(key) },
            slots: book.slots.insert(key, PriceSlot { price: Some(sub.price), updated_at: Some(sub.now) }),
        }
    } else {
        book
    }
}

/// The book after the submissions in turn.
pub open spec fn run_submissions(book: PriceBook, subs: Seq<PriceSubmission>) -> PriceBook
    decreases subs.len(),
{
    if subs.len() == 0 {
        book
    } else {
        submit_step(run_submissions(book, subs.drop_last()), subs.last())
    }
}

/// The pairs of the submissions that succeeded, in order, repeats included.
pub open spec fn accepted_pairs(book: PriceBook, subs: Seq<PriceSubmission>) -> Seq<(Seq<u8>, Seq<u8>)>
    decreases subs.len(),
{
    if subs.len() == 0 {
        Seq::empty()
    } else {
        let prev = accepted_pairs(book, subs.drop_last());
        if submission_accepted(run_submissions(book, subs.drop_last()), subs.last()) {
            prev.push((subs.last().base, subs.last().quote))
        } else {
            prev
        }
    }
}

/// The book before any submission.
pub open spec fn empty_book() -> PriceBook {
    PriceBook { keys: Seq::empty(), slots: Map::empty() }
}

/// Every slot holds a price and its update time.
pub open spec fn all_priced(slots: Seq<PriceSlot>) -> bool {
    forall|i: int| 0 <= i < slots.len() ==> (#[trigger] slots[i]).price is Some && slots[i].updated_at is Some
}

/// The pair list holds every priced pair once: after any sequence of
/// submissions, it lists the pairs of the successful ones in the order of
/// their first success, each once; a pair has a price exactly when it is
/// listed, and a listed pair also has its update time.
pub proof fn law_pairs_listed_once(subs: Seq<PriceSubmission>)
    ensures
        ({
            let book = run_submissions(empty_book(), subs);
            &&& book.keys == first_occurrences(accepted_pairs(empty_book(), subs))
            &&& book.keys.no_duplicates()
            &&& forall|key: (Seq<u8>, Seq<u8>)| #[trigger] slot_of(book, key).price is Some <==> book.keys.contains(key)
            &&& forall|key: (Seq<u8>, Seq<u8>)| #[trigger] slot_of(book, key).price is Some ==> slot_of(book, key).updated_at is Some
            &&& all_priced(book.keys.map_values(|k: (Seq<u8>, Seq<u8>)| slot_of(book, k)))
        }),
    decreases subs.len(),
{
    let book = run_submissions(empty_book(), subs);
    let acc = accepted_pairs(empty_book(), subs);
    if subs.len() > 0 {
        let init = subs.drop_last();
        law_pairs_listed_once(init);
        let prev = run_submissions(empty_book(), init);
        let pacc = accepted_pairs(empty_book(), init);
        let sub = subs.last();
        let key = (sub.base, sub.quote);
        lemma_first_occurrences(pacc);
        if submission_accepted(prev, sub) {
            assert(acc.drop_last() =~= pacc);
            assert(acc.last() == key);
            assert(prev.keys.contains(key) <==> slot_of(prev, key).price is Some);
            assert forall|k: (Seq<u8>, Seq<u8>)| #[trigger] slot_of(book, k).price is Some <==> book.keys.contains(k) by {
                if k != key {
                    assert(slot_of(book, k) == slot_of(prev, k));
                    if slot_of(prev, k).price is None && book.keys.contains(k) {
                        let i = choose|i: int| 0 <= i < book.keys.len() && book.keys[i] == k;
                        assert(prev.keys[i] == k);
                    }
                    if prev.keys.contains(k) {
                        let i = choose|i: int| 0 <= i < prev.keys.len() && prev.keys[i] == k;
                        assert(book.keys[i] == k);
                    }
                } else {
                    if slot_of(prev, k).price is None {
                        assert(book.keys[prev.keys.len() as int] == k);
                    }
                }
            }
            assert forall|k: (Seq<u8>, Seq<u8>)| #[trigger] slot_of(book, k).price is Some implies slot_of(book, k).updated_at is Some by {
                if k != key {
                    assert(slot_of(book, k) == slot_of(prev, k));
                }
            }
        }
        lemma_first_occurrences(acc);
    }
    let views = book.keys.map_values(|k: (Seq<u8>, Seq<u8>)| slot_of(book, k));
    assert forall|i: int| 0 <= i < views.len() implies (#[trigger] views[i]).price is Some && views[i].updated_at is Some by {
        assert(book.keys.contains(book.keys[i]));
        assert(views[i] == slot_of(book, book.keys[i]));
    }
}

/// Where every listed pair has a price, `get_all_prices` gives one entry per
/// listed pair, in list order, with its stored price and update time.
pub proof fn law_all_prices_lists_every_pair(keys: Seq<(Seq<u8>, Seq<u8>)>, slots: Seq<PriceSlot>)
    requires
        keys.len() == slots.len(),
        all_priced(slots),
    ensures
        listed_entries(keys, slots) == Seq::new(keys.len(), |i: int| (keys[i].0, keys[i].1, slots[i].price.unwrap(), slots[i].updated_at.unwrap())),
    decreases keys.len(),
{
    if keys.len() > 0 {
        let ks = keys.drop_last();
        let ss = slots.drop_last();
        assert forall|i: int| 0 <= i < ss.len() implies (#[trigger] ss[i]).price is Some && ss[i].updated_at is Some by {
            assert(ss[i] == slots[i]);
        }
        law_all_prices_lists_every_pair(ks, ss);
        assert(slots[slots.len() - 1].price is Some);
        assert(listed_entries(keys, slots) =~= Seq::new(keys.len(), |i: int| (keys[i].0, keys[i].1, slots[i].price.unwrap(), slots[i].updated_at.unwrap())));
    }
}

/// With a deviation limit of `m` basis points and a positive previous price,
/// an accepted price moved by at most `m` basis points of the previous price
/// (the move rounded down), upwards or downwards alike; a price that moves
/// further, in either direction, is refused with `PriceDeviationTooHigh`,
/// and so is any price whose move is at least `m + 1` basis points.
pub proof fn law_deviation_limit_both_ways(
    settings: OracleSettings,
    slot: PriceSlot,
    base: Seq<u8>,
    quote: Seq<u8>,
    price: i128,
)
    requires
        settings.max_deviation_bps matches Some(m) && m > 0,
        slot.price matches Some(prev) && prev > 0,
    ensures
        ({
            let m = settings.max_deviation_bps.unwrap() as int;
            let prev = slot.price.unwrap() as int;
            let p = price as int;
            &&& submit_verdict(settings, slot, base, quote, price).is_accepted() ==> {
                &&& p >= prev ==> (p - prev) * 10_000 / prev <= m
                &&& p < prev ==> (prev - p) * 10_000 / prev <= m
            }
            &&& (base != quote && settings.admin is Some && p > 0 && (
                    (p >= prev && (p - prev) * 10_000 / prev > m) || (p < prev && (prev - p) * 10_000 / prev > m)))
                ==> submit_verdict(settings, slot, base, quote, price)
                    == Verdict::<OracleError>::Rejected(OracleError::PriceDeviationTooHigh)
            &&& (base != quote && settings.admin is Some && p > 0 && (
                    (p >= prev && (p - prev) * 10_000 >= (m + 1) * prev) || (p < prev && (prev - p) * 10_000 >= (m + 1) * prev)))
                ==> submit_verdict(settings, slot, base, quote, price)
                    == Verdict::<OracleError>::Rejected(OracleError::PriceDeviationTooHigh)
        }),
{
    let m = settings.max_deviation_bps.unwrap() as int;
    let prev = slot.price.unwrap() as int;
    let p = price as int;
    let d: int = if p >= prev { p - prev } else { prev - p };
    if d * 10_000 >= (m + 1) * prev {
        assert(d * 10_000 / prev >= m + 1) by (nonlinear_arith)
            requires d * 10_000 >= (m + 1) * prev, prev > 0;
    }
}

/// A submission is checked in order: a pair of one symbol twice, then a
/// missing admin, then a non-positive price; with no limit set or no positive
/// previous price any positive price is accepted.
pub proof fn law_submit_conditions(settings: OracleSettings, slot: PriceSlot, base: Seq<u8>, quote: Seq<u8>, price: i128)
    ensures
        base == quote ==> submit_verdict(settings, slot, base, quote, price)
            == Verdict::<OracleError>::Refused(OracleError::InvalidPair),
        base != quote && settings.admin is None ==> submit_verdict(settings, slot, base, quote, price)
            == Verdict::<OracleError>::Refused(OracleError::NotInitialized),
        base != quote && settings.admin is Some && price <= 0 ==> submit_verdict(settings, slot, base, quote, price)
            == Verdict::<OracleError>::Rejected(OracleError::InvalidPrice),
        (base != quote && settings.admin is Some && price > 0
            && (settings.max_deviation_bps is None || settings.max_deviation_bps == Some(0u32)
                || slot.price is None || slot.price.unwrap() <= 0))
            ==> submit_verdict(settings, slot, base, quote, price).is_accepted(),
{
}

} // verus!
