use token_vesting::curve::calculate_vested_amount;
use token_vesting::state::VestingSchedule;

fn sched(cliff: i64, vesting: i64, tge_bp: u16) -> VestingSchedule {
    VestingSchedule { cliff_period: cliff, vesting_period: vesting, tge_basis_points: tge_bp }
}

#[test]
fn curve_before_start_is_zero() {
    let s = sched(300, 1200, 1000);
    assert_eq!(calculate_vested_amount(1_000_000, 999, 1000, &s), 0);
}

#[test]
fn curve_at_funding_time_pays_tge() {
    let s = sched(300, 1200, 1000);
    assert_eq!(calculate_vested_amount(1_000_000, 1000, 1000, &s), 100_000);
}

#[test]
fn curve_before_cliff_pays_exactly_tge() {
    let s = sched(300, 1200, 1000);
    assert_eq!(calculate_vested_amount(1_000_000, 1299, 1000, &s), 100_000);
}

#[test]
fn curve_at_cliff_boundary_no_linear_progress_yet() {
    // elapsed == cliff: tge + floor(900000 * 0 / 900) == 100_000.
    let s = sched(300, 1200, 1000);
    assert_eq!(calculate_vested_amount(1_000_000, 1300, 1000, &s), 100_000);
}

#[test]
fn curve_mid_window_linear_interpolation() {
    // elapsed = 750: 100_000 + floor(900_000 * 450 / 900) == 550_000.
    let s = sched(300, 1200, 1000);
    assert_eq!(calculate_vested_amount(1_000_000, 1750, 1000, &s), 550_000);
}

#[test]
fn curve_saturates_at_total() {
    let s = sched(300, 1200, 1000);
    assert_eq!(calculate_vested_amount(1_000_000, 2200, 1000, &s), 1_000_000);
    assert_eq!(calculate_vested_amount(1_000_000, 1_000_000_000, 1000, &s), 1_000_000);
}

#[test]
fn curve_is_monotonic_over_sample_times() {
    let s = sched(300, 1200, 2500);
    let mut prev: u64 = 0;
    let mut t: i64 = 900;
    while t <= 2400 {
        let v = calculate_vested_amount(777_777, t, 1000, &s);
        assert!(v >= prev);
        prev = v;
        t += 25;
    }
    assert_eq!(prev, 777_777);
}

#[test]
fn curve_zero_tge_pays_nothing_before_cliff() {
    let s = sched(300, 1200, 0);
    assert_eq!(calculate_vested_amount(1_000_000, 1299, 1000, &s), 0);
}

#[test]
fn curve_full_tge_pays_everything_immediately() {
    let s = sched(300, 1200, 10000);
    assert_eq!(calculate_vested_amount(1_000_000, 1000, 1000, &s), 1_000_000);
}

#[test]
fn curve_rounds_down() {
    // total 1000, 33 bp tge: floor(1000 * 33 / 10000) == 3.
    let s = sched(300, 1200, 33);
    assert_eq!(calculate_vested_amount(1000, 1001, 1000, &s), 3);
}
