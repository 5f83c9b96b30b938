use stellarforge::address::Address;
use stellarforge::factory::{FactoryError, ForgeVestingFactory, ScheduleConfig, ScheduleRecord};
use stellarforge::gate::Gated;
use stellarforge::transfer::{Direction, Transfer};

fn faddr(s: &str) -> Address {
    Address::from_bytes(s.as_bytes().to_vec())
}

fn fok<T: std::fmt::Debug>(g: Gated<T, FactoryError>) -> T {
    match g {
        Gated::Signed { outcome: Ok(v), .. } => v,
        other => panic!("expected success, got {:?}", other),
    }
}

fn ferr<T: std::fmt::Debug>(g: Gated<T, FactoryError>) -> FactoryError {
    match g {
        Gated::Refused { error } => error,
        Gated::Signed { outcome: Err(e), .. } => e,
        other => panic!("expected an error, got {:?}", other),
    }
}

/// Net token movement for `who`: payouts to it less deposits from it.
fn fbalance(transfers: &[Transfer], who: &str) -> i128 {
    transfers
        .iter()
        .filter(|t| t.party == faddr(who))
        .map(|t| if t.direction == Direction::Payout { t.amount } else { -t.amount })
        .sum()
}

/// A schedule created at `now`, with the factory's counter after it.
fn create_at(count: &mut Option<u64>, total: i128, cliff: u64, duration: u64, now: u64) -> (u64, ScheduleRecord) {
    let s = fok(ForgeVestingFactory::create_schedule(count, faddr("TOKEN"), faddr("BENEFICIARY"), faddr("ADMIN"), total, cliff, duration, now));
    let (id, config) = s.value;
    (id, ScheduleRecord { config: Some(config), claimed: None })
}

#[test]
fn test_create_schedule_success() {
    let mut count: Option<u64> = None;
    let s = fok(ForgeVestingFactory::create_schedule(&mut count, faddr("TOKEN"), faddr("BENEFICIARY"), faddr("ADMIN"), 1_000, 100, 1_000, 0));
    assert_eq!(s.value.0, 0);
    assert_eq!(ForgeVestingFactory::get_schedule_count(count), 1);
    assert_eq!(fbalance(&s.transfers, "ADMIN"), -1_000);
}

#[test]
fn test_claim_after_cliff() {
    let mut count: Option<u64> = None;
    let (id, mut record) = create_at(&mut count, 1_000, 100, 1_000, 0);
    let s = fok(ForgeVestingFactory::claim(&mut record, 500));
    assert_eq!(s.value, 500);
    let status = ForgeVestingFactory::get_status(&record, id, 500).unwrap();
    assert_eq!(status.claimed, 500);
}

#[test]
fn test_cancel_splits_tokens_correctly() {
    let mut count: Option<u64> = None;
    let (_, mut record) = create_at(&mut count, 1_000, 0, 1_000, 0);
    let s = fok(ForgeVestingFactory::cancel(&mut record, 300));
    assert_eq!(fbalance(&s.transfers, "BENEFICIARY"), 300);
    assert_eq!(fbalance(&s.transfers, "ADMIN"), 700);
}

#[test]
fn factory_ids_are_sequential() {
    let mut count: Option<u64> = None;
    let (a, _) = create_at(&mut count, 10, 0, 10, 0);
    let (b, _) = create_at(&mut count, 10, 0, 10, 0);
    let (c, _) = create_at(&mut count, 10, 0, 10, 0);
    assert_eq!((a, b, c), (0, 1, 2));
    assert_eq!(ForgeVestingFactory::get_schedule_count(count), 3);
}

#[test]
fn factory_invalid_config_is_rejected_after_authorization() {
    let mut count: Option<u64> = Some(4);
    let g = ForgeVestingFactory::create_schedule(&mut count, faddr("TOKEN"), faddr("B"), faddr("ADMIN"), 100, 20, 10, 0);
    match g {
        Gated::Signed { signers, outcome } => {
            assert_eq!(signers, vec![faddr("ADMIN")]);
            assert_eq!(outcome.unwrap_err(), FactoryError::InvalidConfig);
        }
        other => panic!("unexpected {:?}", other),
    }
    assert_eq!(count, Some(4));
}

#[test]
fn factory_claim_errors() {
    let mut missing = ScheduleRecord { config: None, claimed: None };
    assert_eq!(ferr(ForgeVestingFactory::claim(&mut missing, 10)), FactoryError::ScheduleNotFound);
    assert_eq!(ForgeVestingFactory::get_status(&missing, 3, 10).unwrap_err(), FactoryError::ScheduleNotFound);
    let mut count: Option<u64> = None;
    let (_, mut record) = create_at(&mut count, 1_000, 100, 1_000, 0);
    assert_eq!(ferr(ForgeVestingFactory::claim(&mut record, 50)), FactoryError::CliffNotReached);
    fok(ForgeVestingFactory::claim(&mut record, 200));
    assert_eq!(ferr(ForgeVestingFactory::claim(&mut record, 200)), FactoryError::NothingToClaim);
    fok(ForgeVestingFactory::cancel(&mut record, 300));
    assert_eq!(ferr(ForgeVestingFactory::claim(&mut record, 400)), FactoryError::Cancelled);
    assert_eq!(ferr(ForgeVestingFactory::cancel(&mut record, 400)), FactoryError::Cancelled);
}

#[test]
fn factory_status_before_and_after_cliff() {
    let mut count: Option<u64> = None;
    let (id, record) = create_at(&mut count, 1_000, 100, 1_000, 0);
    let before = ForgeVestingFactory::get_status(&record, id, 50).unwrap();
    assert!(!before.cliff_reached);
    assert_eq!(before.claimable, 0);
    assert_eq!(before.vested, 0);
    let after = ForgeVestingFactory::get_status(&record, id, 250).unwrap();
    assert!(after.cliff_reached);
    assert_eq!(after.vested, 250);
    assert_eq!(after.claimable, 250);
    let done = ForgeVestingFactory::get_status(&record, id, 5_000).unwrap();
    assert!(done.fully_vested);
    assert_eq!(done.vested, 1_000);
}

#[test]
fn factory_compute_vested_formula() {
    let config = ScheduleConfig {
        token: faddr("T"),
        beneficiary: faddr("B"),
        admin: faddr("A"),
        total_amount: 900,
        start_time: 10,
        cliff_seconds: 0,
        duration_seconds: 90,
        cancelled: false,
    };
    assert_eq!(ForgeVestingFactory::compute_vested(&config, 5), 0);
    assert_eq!(ForgeVestingFactory::compute_vested(&config, 40), 300);
    assert_eq!(ForgeVestingFactory::compute_vested(&config, 100), 900);
    let cancelled = ScheduleConfig { cancelled: true, ..config };
    assert_eq!(ForgeVestingFactory::compute_vested(&cancelled, 40), 0);
}
