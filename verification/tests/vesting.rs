use stellarforge::address::Address;
use stellarforge::gate::Gated;
use stellarforge::transfer::{Direction, Settlement, Transfer};
use stellarforge::vesting::{ForgeVesting, VestingConfig, VestingError, VestingState};

fn vaddr(s: &str) -> Address {
    Address::from_bytes(s.as_bytes().to_vec())
}

fn empty_state() -> VestingState {
    VestingState { config: None, claimed: None, vested_at_cancel: None }
}

/// The value of an operation that was authorized and succeeded.
fn accepted<T: std::fmt::Debug>(g: Gated<T, VestingError>) -> T {
    match g {
        Gated::Signed { outcome: Ok(v), .. } => v,
        other => panic!("expected success, got {:?}", other),
    }
}

/// The error of an operation, whether refused before or after authorization.
fn failure<T: std::fmt::Debug>(g: Gated<T, VestingError>) -> VestingError {
    match g {
        Gated::Refused { error } => error,
        Gated::Signed { outcome: Err(e), .. } => e,
        other => panic!("expected an error, got {:?}", other),
    }
}

/// What the transfers pay out to `who`.
fn paid_to(transfers: &[Transfer], who: &str) -> i128 {
    transfers
        .iter()
        .filter(|t| t.direction == Direction::Payout && t.party == vaddr(who))
        .map(|t| t.amount)
        .sum()
}

/// A state initialized at `now` with the usual token, beneficiary and admin.
fn init_at(total: i128, cliff: u64, duration: u64, now: u64) -> VestingState {
    let mut st = empty_state();
    accepted(ForgeVesting::initialize(&mut st, vaddr("TOKEN"), vaddr("BENEFICIARY"), vaddr("ADMIN"), total, cliff, duration, now));
    st
}

fn claim_amount(st: &mut VestingState, now: u64) -> i128 {
    let s: Settlement<i128> = accepted(ForgeVesting::claim(st, now));
    s.value
}

#[test]
fn test_initialize_success() {
    let mut st = empty_state();
    let r = ForgeVesting::initialize(&mut st, vaddr("TOKEN"), vaddr("BENEFICIARY"), vaddr("ADMIN"), 1_000_000, 100, 1000, 0);
    match r {
        Gated::Signed { signers, outcome } => {
            assert!(outcome.is_ok());
            assert_eq!(signers, vec![vaddr("ADMIN")]);
        }
        other => panic!("unexpected {:?}", other),
    }
    assert_eq!(ForgeVesting::get_claimed(&st), 0);
}

#[test]
fn test_cancel_after_full_vesting_fails() {
    let mut st = init_at(1_000_000, 100, 1000, 0);
    let r = ForgeVesting::cancel(&mut st, 1001);
    assert_eq!(failure(r), VestingError::VestingComplete);
}

#[test]
fn test_claim_after_failed_cancel_succeeds() {
    let mut st = init_at(1_000_000, 100, 1000, 0);
    let cancel = ForgeVesting::cancel(&mut st, 1000);
    assert_eq!(failure(cancel), VestingError::VestingComplete);
    let s = accepted(ForgeVesting::claim(&mut st, 1000));
    assert_eq!(s.value, 1_000_000);
    assert_eq!(paid_to(&s.transfers, "BENEFICIARY"), 1_000_000);
}

#[test]
fn test_compute_vested_dust_verification() {
    let mut st = init_at(1000, 0, 3, 0);
    let v1 = claim_amount(&mut st, 1);
    assert_eq!(v1, 333);
    let v2 = claim_amount(&mut st, 2);
    assert_eq!(v2, 333);
    let v3 = claim_amount(&mut st, 3);
    assert_eq!(v3, 334);
    assert_eq!(v1 + v2 + v3, 1000);
}

#[test]
fn test_double_initialize_fails() {
    let mut st = init_at(1_000_000, 100, 1000, 0);
    let r = ForgeVesting::initialize(&mut st, vaddr("TOKEN"), vaddr("OTHER_B"), vaddr("OTHER_A"), 9_999_999, 500, 5000, 0);
    assert_eq!(failure(r), VestingError::AlreadyInitialized);
}

#[test]
fn test_claim_before_cliff_fails() {
    let mut st = init_at(1_000_000, 500, 1000, 0);
    let r = ForgeVesting::claim(&mut st, 100);
    assert_eq!(failure(r), VestingError::CliffNotReached);
}

#[test]
fn test_get_status_before_cliff() {
    let st = init_at(1_000_000, 500, 1000, 0);
    let status = ForgeVesting::get_status(&st, 0).unwrap();
    assert!(!status.cliff_reached);
    assert_eq!(status.claimable, 0);
}

#[test]
fn test_get_vesting_schedule_returns_init_params() {
    let st = init_at(2_500_000, 200, 5000, 0);
    let schedule = ForgeVesting::get_vesting_schedule(&st).unwrap();
    assert_eq!(schedule.total_amount, 2_500_000);
    assert_eq!(schedule.cliff_seconds, 200);
    assert_eq!(schedule.duration_seconds, 5000);
}

#[test]
fn test_cancel_by_admin() {
    let mut st = init_at(1_000_000, 100, 1000, 0);
    let r = ForgeVesting::cancel(&mut st, 0);
    match r {
        Gated::Signed { signers, outcome } => {
            assert!(outcome.is_ok());
            assert_eq!(signers, vec![vaddr("ADMIN")]);
        }
        other => panic!("unexpected {:?}", other),
    }
}

#[test]
fn test_double_cancel_fails() {
    let mut st = init_at(1_000_000, 100, 1000, 0);
    accepted(ForgeVesting::cancel(&mut st, 0));
    let r = ForgeVesting::cancel(&mut st, 0);
    assert_eq!(failure(r), VestingError::Cancelled);
}

#[test]
fn test_claim_after_cancel_fails() {
    let mut st = init_at(1_000_000, 100, 1000, 0);
    accepted(ForgeVesting::cancel(&mut st, 0));
    let r = ForgeVesting::claim(&mut st, 200);
    assert_eq!(failure(r), VestingError::Cancelled);
}

#[test]
fn test_fully_vested_after_duration() {
    let st = init_at(1_000_000, 100, 1000, 0);
    let status = ForgeVesting::get_status(&st, 2000).unwrap();
    assert!(status.fully_vested);
    assert_eq!(status.vested, 1_000_000);
}

#[test]
fn test_get_status_after_partial_claim_then_time_advance() {
    let mut st = init_at(10_000, 0, 1000, 0);
    claim_amount(&mut st, 200);
    let s = ForgeVesting::get_status(&st, 200).unwrap();
    assert_eq!(s.vested, 2_000);
    assert_eq!(s.claimed, 2_000);
    assert_eq!(s.claimable, 0);
    let s = ForgeVesting::get_status(&st, 500).unwrap();
    assert_eq!(s.vested, 5_000);
    assert_eq!(s.claimed, 2_000);
    assert_eq!(s.claimable, 3_000);
}

#[test]
fn test_cancel_before_cliff_beneficiary_gets_zero_admin_gets_all() {
    let mut st = init_at(1_000_000, 500, 1000, 0);
    let s = accepted(ForgeVesting::cancel(&mut st, 100));
    assert_eq!(paid_to(&s.transfers, "BENEFICIARY"), 0);
    assert_eq!(paid_to(&s.transfers, "ADMIN"), 1_000_000);
    assert_eq!(s.transfers.len(), 1);
}

#[test]
fn test_transfer_admin_success() {
    let mut st = init_at(1_000_000, 100, 1000, 0);
    accepted(ForgeVesting::transfer_admin(&mut st, vaddr("NEW_ADMIN")));
    let config = ForgeVesting::get_config(&st).unwrap();
    assert_eq!(config.admin, vaddr("NEW_ADMIN"));
}

#[test]
fn test_pause_freezes_vested_amount_and_blocks_claim() {
    let mut st = init_at(1_000_000, 0, 1000, 0);
    accepted(ForgeVesting::pause(&mut st, 500));
    let status = ForgeVesting::get_status(&st, 500).unwrap();
    assert!(status.paused);
    assert_eq!(status.vested, 500_000);
    let r = ForgeVesting::claim(&mut st, 500);
    assert_eq!(failure(r), VestingError::Paused);
}

#[test]
fn test_unpause_shifts_timeline_correctly() {
    let mut st = init_at(1_000_000, 0, 1000, 0);
    let initial_start = ForgeVesting::get_config(&st).unwrap().start_time;
    accepted(ForgeVesting::pause(&mut st, 500));
    accepted(ForgeVesting::unpause(&mut st, 700));
    let config = ForgeVesting::get_config(&st).unwrap();
    assert_eq!(config.start_time, initial_start + 200);
}

// ── Further cases ────────────────────────────────────────────────────────────

#[test]
fn vesting_initialize_rejects_bad_terms() {
    for (total, cliff, duration) in [(0i128, 0u64, 10u64), (-5, 0, 10), (100, 0, 0), (100, 11, 10)] {
        let mut st = empty_state();
        let r = ForgeVesting::initialize(&mut st, vaddr("TOKEN"), vaddr("BENEFICIARY"), vaddr("ADMIN"), total, cliff, duration, 0);
        assert_eq!(failure(r), VestingError::InvalidConfig);
        assert!(st.config.is_none());
    }
}

#[test]
fn vesting_initialize_rejects_admin_as_beneficiary() {
    let mut st = empty_state();
    let r = ForgeVesting::initialize(&mut st, vaddr("TOKEN"), vaddr("SAME"), vaddr("SAME"), 100, 0, 10, 0);
    assert!(matches!(r, Gated::Refused { error: VestingError::BeneficiaryAsAdmin }));
}

#[test]
fn vesting_uninitialized_operations_fail() {
    let mut st = empty_state();
    assert_eq!(failure(ForgeVesting::claim(&mut st, 5)), VestingError::NotInitialized);
    assert_eq!(failure(ForgeVesting::cancel(&mut st, 5)), VestingError::NotInitialized);
    assert_eq!(failure(ForgeVesting::pause(&mut st, 5)), VestingError::NotInitialized);
    assert_eq!(failure(ForgeVesting::unpause(&mut st, 5)), VestingError::NotInitialized);
    assert_eq!(failure(ForgeVesting::transfer_admin(&mut st, vaddr("X"))), VestingError::NotInitialized);
    assert_eq!(failure(ForgeVesting::change_beneficiary(&mut st, vaddr("X"))), VestingError::NotInitialized);
    assert_eq!(failure(ForgeVesting::cancel_and_claim(&mut st, 5)), VestingError::NotInitialized);
    assert_eq!(ForgeVesting::get_status(&st, 5).unwrap_err(), VestingError::NotInitialized);
    assert_eq!(ForgeVesting::get_config(&st).unwrap_err(), VestingError::NotInitialized);
    assert_eq!(ForgeVesting::get_vesting_schedule(&st).unwrap_err(), VestingError::NotInitialized);
}

#[test]
fn vesting_claim_pays_the_beneficiary_and_nothing_twice() {
    let mut st = init_at(1000, 0, 100, 0);
    let g = ForgeVesting::claim(&mut st, 25);
    match g {
        Gated::Signed { signers, outcome: Ok(s) } => {
            assert_eq!(signers, vec![vaddr("BENEFICIARY")]);
            assert_eq!(s.value, 250);
            assert_eq!(s.transfers.len(), 1);
            assert_eq!(s.transfers[0].token, vaddr("TOKEN"));
            assert_eq!(paid_to(&s.transfers, "BENEFICIARY"), 250);
        }
        other => panic!("unexpected {:?}", other),
    }
    assert_eq!(failure(ForgeVesting::claim(&mut st, 25)), VestingError::NothingToClaim);
}

#[test]
fn vesting_cancel_splits_vested_and_unvested() {
    let mut st = init_at(1000, 0, 100, 0);
    claim_amount(&mut st, 10);
    let s = accepted(ForgeVesting::cancel(&mut st, 40));
    assert_eq!(paid_to(&s.transfers, "BENEFICIARY"), 300);
    assert_eq!(paid_to(&s.transfers, "ADMIN"), 600);
    let status = ForgeVesting::get_status(&st, 90).unwrap();
    assert_eq!(status.vested, 400);
    assert_eq!(status.claimed, 400);
    assert_eq!(status.claimable, 0);
}

#[test]
fn vesting_cancel_and_claim_returns_both_amounts() {
    let mut st = init_at(1000, 0, 100, 0);
    claim_amount(&mut st, 10);
    let g = ForgeVesting::cancel_and_claim(&mut st, 40);
    match g {
        Gated::Signed { signers, outcome: Ok(s) } => {
            assert_eq!(signers, vec![vaddr("ADMIN"), vaddr("BENEFICIARY")]);
            assert_eq!(s.value, (300, 600));
            assert_eq!(s.transfers.len(), 2);
        }
        other => panic!("unexpected {:?}", other),
    }
    assert_eq!(failure(ForgeVesting::cancel_and_claim(&mut st, 50)), VestingError::Cancelled);
}

#[test]
fn vesting_cancel_and_claim_refused_while_paused() {
    let mut st = init_at(1000, 0, 100, 0);
    accepted(ForgeVesting::pause(&mut st, 10));
    assert!(matches!(ForgeVesting::cancel_and_claim(&mut st, 20), Gated::Refused { error: VestingError::Paused }));
}

#[test]
fn vesting_pause_and_unpause_errors() {
    let mut st = init_at(1000, 0, 100, 0);
    assert_eq!(failure(ForgeVesting::unpause(&mut st, 5)), VestingError::NotPaused);
    accepted(ForgeVesting::pause(&mut st, 5));
    assert_eq!(failure(ForgeVesting::pause(&mut st, 6)), VestingError::Paused);
    accepted(ForgeVesting::cancel(&mut st, 7));
    assert_eq!(failure(ForgeVesting::unpause(&mut st, 8)), VestingError::Cancelled);
    assert_eq!(failure(ForgeVesting::pause(&mut st, 8)), VestingError::Cancelled);
}

#[test]
fn vesting_resume_continues_from_pause() {
    let mut st = init_at(1000, 0, 100, 0);
    accepted(ForgeVesting::pause(&mut st, 30));
    let frozen = ForgeVesting::get_status(&st, 80).unwrap();
    assert_eq!(frozen.vested, 300);
    accepted(ForgeVesting::unpause(&mut st, 80));
    assert_eq!(ForgeVesting::get_status(&st, 80).unwrap().vested, 300);
    assert_eq!(ForgeVesting::get_status(&st, 90).unwrap().vested, 400);
}

#[test]
fn vesting_admin_and_beneficiary_changes() {
    let mut st = init_at(1000, 0, 100, 0);
    assert_eq!(failure(ForgeVesting::transfer_admin(&mut st, vaddr("ADMIN"))), VestingError::SameAdmin);
    assert_eq!(failure(ForgeVesting::transfer_admin(&mut st, vaddr("BENEFICIARY"))), VestingError::BeneficiaryAsAdmin);
    assert_eq!(failure(ForgeVesting::change_beneficiary(&mut st, vaddr("BENEFICIARY"))), VestingError::SameBeneficiary);
    let g = ForgeVesting::change_beneficiary(&mut st, vaddr("NEW_B"));
    match g {
        Gated::Signed { signers, outcome: Ok(()) } => assert_eq!(signers, vec![vaddr("BENEFICIARY")]),
        other => panic!("unexpected {:?}", other),
    }
    let schedule = ForgeVesting::get_vesting_schedule(&st).unwrap();
    assert_eq!(schedule.beneficiary, vaddr("NEW_B"));
    assert_eq!(schedule.token, vaddr("TOKEN"));
    accepted(ForgeVesting::cancel(&mut st, 10));
    assert_eq!(failure(ForgeVesting::change_beneficiary(&mut st, vaddr("LATER"))), VestingError::Cancelled);
}

#[test]
fn vesting_compute_vested_formula() {
    let config = VestingConfig {
        token: vaddr("T"),
        beneficiary: vaddr("B"),
        admin: vaddr("A"),
        total_amount: 1000,
        start_time: 100,
        cliff_seconds: 10,
        duration_seconds: 300,
        cancelled: false,
        paused: false,
        paused_at: None,
    };
    assert_eq!(ForgeVesting::compute_vested(&config, 50), 0);
    assert_eq!(ForgeVesting::compute_vested(&config, 109), 0);
    assert_eq!(ForgeVesting::compute_vested(&config, 110), 33);
    assert_eq!(ForgeVesting::compute_vested(&config, 250), 500);
    assert_eq!(ForgeVesting::compute_vested(&config, 400), 1000);
    let paused = VestingConfig { paused: true, paused_at: Some(250), ..config };
    assert_eq!(ForgeVesting::compute_vested(&paused, 399), 500);
    let cancelled = VestingConfig { cancelled: true, ..paused };
    assert_eq!(ForgeVesting::compute_vested(&cancelled, 399), 0);
}

#[test]
fn vesting_pause_and_resume_at_once_changes_nothing() {
    let mut st = init_at(1000, 10, 100, 5);
    accepted(ForgeVesting::pause(&mut st, 40));
    accepted(ForgeVesting::unpause(&mut st, 40));
    let c = ForgeVesting::get_config(&st).unwrap();
    assert_eq!(c.start_time, 5);
    assert!(!c.paused);
    assert_eq!(c.paused_at, None);
    assert_eq!(ForgeVesting::get_status(&st, 55).unwrap().vested, 500);
}

#[test]
fn vesting_vested_never_decreases() {
    let st = init_at(7_777, 13, 997, 0);
    let mut last = 0;
    for t in 0..1100u64 {
        let v = ForgeVesting::get_status(&st, t).unwrap().vested;
        assert!(v >= last);
        assert!(v <= 7_777);
        last = v;
    }
    assert_eq!(last, 7_777);
}

#[test]
fn vesting_payouts_account_for_every_token() {
    let mut st = init_at(1000, 0, 100, 0);
    let mut paid: i128 = 0;
    paid += claim_amount(&mut st, 10);
    accepted(ForgeVesting::pause(&mut st, 20));
    let _ = ForgeVesting::claim(&mut st, 50);
    accepted(ForgeVesting::unpause(&mut st, 60));
    paid += claim_amount(&mut st, 70);
    assert_eq!(paid, ForgeVesting::get_claimed(&st));
    assert_eq!(paid, 300);
    let s = accepted(ForgeVesting::cancel(&mut st, 80));
    paid += s.value.0 + s.value.1;
    assert_eq!(paid, 1000);
    assert!(ForgeVesting::get_claimed(&st) <= 1000);
    assert_eq!(failure(ForgeVesting::claim(&mut st, 90)), VestingError::Cancelled);
}
