use stellarforge::address::{Address, Symbol};
use stellarforge::gate::Gated;
use stellarforge::oracle::{ForgeOracle, OracleError, OracleSettings, PriceData, PricePair, PriceSlot};

fn oaddr(s: &str) -> Address {
    Address::from_bytes(s.as_bytes().to_vec())
}

fn sym(s: &str) -> Symbol {
    Symbol::from_bytes(s.as_bytes().to_vec())
}

fn ook<T: std::fmt::Debug>(g: Gated<T, OracleError>) -> T {
    match g {
        Gated::Signed { outcome: Ok(v), .. } => v,
        other => panic!("expected success, got {:?}", other),
    }
}

fn oerr<T: std::fmt::Debug>(g: Gated<T, OracleError>) -> OracleError {
    match g {
        Gated::Refused { error } => error,
        Gated::Signed { outcome: Err(e), .. } => e,
        other => panic!("expected an error, got {:?}", other),
    }
}

fn empty_slot() -> PriceSlot {
    PriceSlot { price: None, updated_at: None }
}

/// An oracle initialized with a staleness threshold of 3600 seconds.
fn oracle_setup() -> OracleSettings {
    let mut settings = OracleSettings { admin: None, staleness_threshold: None, max_deviation_bps: None };
    ook(ForgeOracle::initialize(&mut settings, oaddr("ADMIN"), 3600));
    settings
}

#[test]
fn test_submit_and_get_price() {
    let settings = oracle_setup();
    let mut slot = empty_slot();
    let mut pairs: Option<Vec<PricePair>> = None;
    ook(ForgeOracle::submit_price(&settings, &mut slot, &mut pairs, sym("XLM"), sym("USDC"), 11_000_000, 1000));
    let data = ForgeOracle::get_price(&settings, &slot, 1000).unwrap();
    assert_eq!(data.price, 11_000_000);
    assert_eq!(data.updated_at, 1000);
}

#[test]
fn test_stale_price_rejected() {
    let settings = oracle_setup();
    let mut slot = empty_slot();
    let mut pairs: Option<Vec<PricePair>> = None;
    ook(ForgeOracle::submit_price(&settings, &mut slot, &mut pairs, sym("XLM"), sym("USDC"), 10_000_000, 0));
    let result = ForgeOracle::get_price(&settings, &slot, 7200);
    assert_eq!(result, Err(OracleError::PriceStale));
}

#[test]
fn oracle_initialize_once() {
    let mut settings = oracle_setup();
    assert_eq!(oerr(ForgeOracle::initialize(&mut settings, oaddr("OTHER"), 5)), OracleError::AlreadyInitialized);
    assert_eq!(ForgeOracle::get_staleness_threshold(&settings), Ok(3600));
    assert_eq!(ForgeOracle::get_admin(&settings).unwrap(), &oaddr("ADMIN"));
}

#[test]
fn oracle_submit_errors() {
    let blank = OracleSettings { admin: None, staleness_threshold: None, max_deviation_bps: None };
    let mut slot = empty_slot();
    let mut pairs: Option<Vec<PricePair>> = None;
    assert_eq!(oerr(ForgeOracle::submit_price(&blank, &mut slot, &mut pairs, sym("A"), sym("A"), 5, 0)), OracleError::InvalidPair);
    assert_eq!(oerr(ForgeOracle::submit_price(&blank, &mut slot, &mut pairs, sym("A"), sym("B"), 5, 0)), OracleError::NotInitialized);
    let settings = oracle_setup();
    assert_eq!(oerr(ForgeOracle::submit_price(&settings, &mut slot, &mut pairs, sym("A"), sym("B"), 0, 0)), OracleError::InvalidPrice);
    assert_eq!(slot, empty_slot());
    assert!(pairs.is_none());
}

#[test]
fn oracle_deviation_limit() {
    let mut settings = oracle_setup();
    ook(ForgeOracle::set_max_price_deviation(&mut settings, 1000));
    let mut slot = empty_slot();
    let mut pairs: Option<Vec<PricePair>> = None;
    ook(ForgeOracle::submit_price(&settings, &mut slot, &mut pairs, sym("XLM"), sym("USDC"), 1_000, 10));
    // A 10% move is allowed, an 11% move is not.
    ook(ForgeOracle::submit_price(&settings, &mut slot, &mut pairs, sym("XLM"), sym("USDC"), 1_100, 20));
    assert_eq!(
        oerr(ForgeOracle::submit_price(&settings, &mut slot, &mut pairs, sym("XLM"), sym("USDC"), 1_221, 30)),
        OracleError::PriceDeviationTooHigh
    );
    assert_eq!(ForgeOracle::get_price_unsafe(&slot), Ok(PriceData { price: 1_100, updated_at: 20 }));
    assert_eq!(pairs.as_ref().unwrap().len(), 1);
}

#[test]
fn oracle_pair_list_and_all_prices() {
    let settings = oracle_setup();
    let mut xlm = empty_slot();
    let mut btc = empty_slot();
    let mut pairs: Option<Vec<PricePair>> = None;
    ook(ForgeOracle::submit_price(&settings, &mut xlm, &mut pairs, sym("XLM"), sym("USDC"), 11, 5));
    ook(ForgeOracle::submit_price(&settings, &mut btc, &mut pairs, sym("BTC"), sym("USDC"), 60_000, 6));
    ook(ForgeOracle::submit_price(&settings, &mut xlm, &mut pairs, sym("XLM"), sym("USDC"), 12, 7));
    assert_eq!(pairs.as_ref().unwrap().len(), 2);
    let all = ForgeOracle::get_all_prices(&settings, &pairs, &vec![xlm, btc]).unwrap();
    assert_eq!(all.len(), 2);
    assert_eq!(all[0].base, sym("XLM"));
    assert_eq!(all[0].price, 12);
    assert_eq!(all[0].updated_at, 7);
    assert_eq!(all[1].base, sym("BTC"));
    assert_eq!(all[1].price, 60_000);
    let skipped = ForgeOracle::get_all_prices(&settings, &pairs, &vec![empty_slot(), btc]).unwrap();
    assert_eq!(skipped.len(), 1);
    let blank = OracleSettings { admin: None, staleness_threshold: None, max_deviation_bps: None };
    assert_eq!(ForgeOracle::get_all_prices(&blank, &None, &vec![]).unwrap_err(), OracleError::NotInitialized);
}

#[test]
fn oracle_admin_settings() {
    let mut settings = oracle_setup();
    let g = ForgeOracle::set_staleness_threshold(&mut settings, 10);
    match g {
        Gated::Signed { signers, outcome: Ok(()) } => assert_eq!(signers, vec![oaddr("ADMIN")]),
        other => panic!("unexpected {:?}", other),
    }
    assert_eq!(ForgeOracle::get_staleness_threshold(&settings), Ok(10));
    ook(ForgeOracle::transfer_admin(&mut settings, oaddr("NEW")));
    assert_eq!(ForgeOracle::get_admin(&settings).unwrap(), &oaddr("NEW"));
    let mut blank = OracleSettings { admin: None, staleness_threshold: None, max_deviation_bps: None };
    assert_eq!(oerr(ForgeOracle::transfer_admin(&mut blank, oaddr("X"))), OracleError::NotInitialized);
    assert_eq!(ForgeOracle::get_admin(&blank).unwrap_err(), OracleError::NotInitialized);
    assert_eq!(ForgeOracle::get_staleness_threshold(&blank), Err(OracleError::NotInitialized));
}

#[test]
fn oracle_price_not_found() {
    let settings = oracle_setup();
    assert_eq!(ForgeOracle::get_price(&settings, &empty_slot(), 0), Err(OracleError::PriceNotFound));
    assert_eq!(ForgeOracle::get_price_unsafe(&empty_slot()), Err(OracleError::PriceNotFound));
    let fresh = PriceSlot { price: Some(7), updated_at: Some(100) };
    assert_eq!(ForgeOracle::get_price(&settings, &fresh, 3699), Ok(PriceData { price: 7, updated_at: 100 }));
    assert_eq!(ForgeOracle::get_price(&settings, &fresh, 3700), Err(OracleError::PriceStale));
}
