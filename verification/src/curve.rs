//! The vesting curve: a pure function from elapsed time and schedule to the
//! total amount released so far.  Deterministic and monotonic, so repeated
//! distributions can safely pay out deltas against it.

use vstd::prelude::*;
use vstd::arithmetic::mul::{lemma_mul_inequality, lemma_mul_is_commutative, lemma_mul_upper_bound};
use vstd::arithmetic::div_mod::{lemma_div_is_ordered, lemma_div_multiples_vanish};
use crate::state::{VestingSchedule, BASIS_POINTS_TOTAL};

verus! {

/// The share released at funding time: `floor(total * tge / 10000)`.
pub open spec fn spec_tge_amount(total: u64, tge_basis_points: u16) -> int {
    total * tge_basis_points / 10000
}

/// The total amount released once `now` has been reached, for a pool funded
/// with `total` at `start`: nothing before `start`; only the TGE share before
/// the cliff; everything from the end of the vesting period on; linear
/// interpolation over the post-cliff window in between.
pub open spec fn spec_vested_amount(total: u64, now: i64, start: i64, s: VestingSchedule) -> int {
    if now < start {
        0
    } else {
        let elapsed = now - start;
        if elapsed < s.cliff_period {
            spec_tge_amount(total, s.tge_basis_points)
        } else if elapsed >= s.vesting_period {
            total as int
        } else {
            let tge = spec_tge_amount(total, s.tge_basis_points);
            tge + (total - tge) * (elapsed - s.cliff_period) / (s.vesting_period
                - s.cliff_period)
        }
    }
}

/// A scaled-down share never exceeds the whole: `0 <= a*b/d <= a` when
/// `0 <= b <= d`.
pub proof fn lemma_mul_div_le(a: int, b: int, d: int)
    requires
        0 <= a,
        0 <= b <= d,
        0 < d,
    ensures
        0 <= a * b / d <= a,
{
    lemma_mul_inequality(b, d, a);
    lemma_mul_is_commutative(b, a);
    lemma_mul_is_commutative(d, a);
    lemma_div_is_ordered(a * b, d * a, d);
    lemma_div_multiples_vanish(a, d);
    lemma_mul_is_commutative(a, b);
    vstd::arithmetic::mul::lemma_mul_nonnegative(a, b);
    vstd::arithmetic::div_mod::lemma_div_pos_is_pos(a * b, d);
}

/// The curve stays between 0 and `total`; it returns exactly `total` from
/// the end of the vesting period on, exactly the TGE share before the
/// cliff, and never less than the TGE share once funded.
pub proof fn lemma_vested_bounds(total: u64, now: i64, start: i64, s: VestingSchedule)
    requires
        s.tge_basis_points <= BASIS_POINTS_TOTAL,
    ensures
        0 <= spec_vested_amount(total, now, start, s) <= total,
        now >= start && now - start >= s.vesting_period && s.cliff_period <= s.vesting_period
            ==> spec_vested_amount(total, now, start, s) == total,
        now >= start && now - start < s.cliff_period ==> spec_vested_amount(total, now, start, s)
            == spec_tge_amount(total, s.tge_basis_points),
        now >= start ==> spec_vested_amount(total, now, start, s) >= spec_tge_amount(
            total,
            s.tge_basis_points,
        ),
{
    lemma_mul_div_le(total as int, s.tge_basis_points as int, 10000);
    if now >= start {
        let elapsed = now - start;
        if elapsed >= s.cliff_period && elapsed < s.vesting_period {
            let tge = spec_tge_amount(total, s.tge_basis_points);
            lemma_mul_div_le(total - tge, elapsed - s.cliff_period, s.vesting_period
                - s.cliff_period);
        }
    }
}

/// The curve is monotonic non-decreasing in the current time.
pub proof fn lemma_vested_monotonic(total: u64, start: i64, now1: i64, now2: i64, s: VestingSchedule)
    requires
        s.tge_basis_points <= BASIS_POINTS_TOTAL,
        now1 <= now2,
    ensures
        spec_vested_amount(total, now1, start, s) <= spec_vested_amount(total, now2, start, s),
{
    lemma_mul_div_le(total as int, s.tge_basis_points as int, 10000);
    lemma_vested_bounds(total, now1, start, s);
    lemma_vested_bounds(total, now2, start, s);
    if now1 >= start {
        let tge = spec_tge_amount(total, s.tge_basis_points);
        let e1 = now1 - start;
        let e2 = now2 - start;
        if e1 >= s.cliff_period && e1 < s.vesting_period && e2 >= s.cliff_period && e2
            < s.vesting_period {
            lemma_mul_inequality(e1 - s.cliff_period, e2 - s.cliff_period, total - tge);
            lemma_mul_is_commutative(e1 - s.cliff_period, total - tge);
            lemma_mul_is_commutative(e2 - s.cliff_period, total - tge);
            lemma_div_is_ordered(
                (total - tge) * (e1 - s.cliff_period),
                (total - tge) * (e2 - s.cliff_period),
                s.vesting_period - s.cliff_period,
            );
        }
    }
}

/// Evaluates the curve.  Wide intermediates keep every step exact; the
/// result equals the specification for every input the record invariants
/// allow.
pub fn calculate_vested_amount(
    total_amount: u64,
    current_time: i64,
    start_time: i64,
    schedule: &VestingSchedule,
) -> (vested: u64)
    requires
        schedule.tge_basis_points <= BASIS_POINTS_TOTAL,
    ensures
        vested == spec_vested_amount(total_amount, current_time, start_time, *schedule),
        vested <= total_amount,
{
    if current_time < start_time {
        return 0;
    }
    proof {
        lemma_mul_upper_bound(
            total_amount as int,
            u64::MAX as int,
            schedule.tge_basis_points as int,
            10000,
        );
        lemma_mul_div_le(total_amount as int, schedule.tge_basis_points as int, 10000);
    }
    let tge_wide: u128 = total_amount as u128 * (schedule.tge_basis_points as u128) / 10000;
    let tge_amount: u64 = tge_wide as u64;
    let elapsed: i128 = current_time as i128 - start_time as i128;
    if elapsed < schedule.cliff_period as i128 {
        return tge_amount;
    }
    if elapsed >= schedule.vesting_period as i128 {
        return total_amount;
    }
    let vesting_amount: u128 = total_amount as u128 - tge_wide;
    let duration: u128 = (schedule.vesting_period as i128 - schedule.cliff_period as i128) as u128;
    let window_elapsed: u128 = (elapsed - schedule.cliff_period as i128) as u128;
    proof {
        lemma_mul_upper_bound(
            vesting_amount as int,
            u64::MAX as int,
            window_elapsed as int,
            0xffff_ffff_ffff_fffe_int,
        );
        lemma_mul_div_le(vesting_amount as int, window_elapsed as int, duration as int);
    }
    let linear: u128 = vesting_amount * window_elapsed / duration;
    tge_amount + (linear as u64)
}

} // verus!
