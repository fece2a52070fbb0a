//! Exponential moving average of the observed queue depth, in fixed point.
//!
//! The buffering controller keeps a running average of the image-queue length
//! and drops frames when it rises above the configured maximum. The average
//! and the history weight are held in millionths (`SCALE`), so the update
//! `avg' = avg * w + len * (1 - w)` becomes, over scaled integers,
//! `avg' = (avg * w + len * (SCALE - w) * SCALE) / SCALE`.

use vstd::prelude::*;

verus! {

/// Fixed-point unit: weights and averages are counted in millionths.
pub const SCALE: u64 = 1_000_000;

/// Largest admissible running average: `u64::MAX * SCALE`, enough to hold
/// `len * SCALE` for any queue length that fits in a `u64`.
pub const AVG_CAP: u128 = 18_446_744_073_709_551_615_000_000;

/// One update of the running average, over unbounded integers.
/// `avg` is scaled by `SCALE`, `len` is a plain length, `weight` is in
/// `[0, SCALE]`.
pub open spec fn avg_next(avg: int, len: int, weight: int) -> int {
    (avg * weight + len * (SCALE - weight) * SCALE) / (SCALE as int)
}

/// The update is a weighted mean: the new average never rises above the
/// larger of the previous average and the scaled sample, and never falls
/// below zero.
pub proof fn lemma_avg_next_within_bounds(avg: int, len: int, weight: int)
    requires
        0 <= avg,
        0 <= len,
        0 <= weight <= SCALE,
    ensures
        0 <= avg_next(avg, len, weight),
        avg_next(avg, len, weight) <= (if avg >= len * (SCALE as int) {
            avg
        } else {
            len * (SCALE as int)
        }),
{
    let s = SCALE as int;
    let m = if avg >= len * s {
        avg
    } else {
        len * s
    };
    let num = avg * weight + len * (s - weight) * s;
    assert(0 <= num && num <= m * s) by (nonlinear_arith)
        requires
            0 <= avg,
            0 <= len,
            0 <= weight <= s,
            s == SCALE as int,
            avg <= m,
            len * s <= m,
            num == avg * weight + len * (s - weight) * s,
    ;
    assert(num / s <= (m * s) / s) by {
        vstd::arithmetic::div_mod::lemma_div_is_ordered(num, m * s, s);
    }
    assert((m * s) / s == m) by (nonlinear_arith)
        requires
            s == SCALE as int,
    ;
    assert(num / s >= 0) by {
        vstd::arithmetic::div_mod::lemma_div_is_ordered(0, num, s);
    }
}

/// If the previous average and the sample are both within range, so is the
/// updated average.
pub proof fn lemma_avg_next_le_cap(avg: int, len: int, weight: int)
    requires
        0 <= avg <= AVG_CAP,
        0 <= len <= u64::MAX,
        0 <= weight <= SCALE,
    ensures
        0 <= avg_next(avg, len, weight) <= AVG_CAP,
{
    lemma_avg_next_within_bounds(avg, len, weight);
}

/// Performs one update of the buffering running average.
pub fn update_running_average(avg: u128, len: usize, weight: u64) -> (r: u128)
    requires
        avg <= AVG_CAP,
        weight <= SCALE,
    ensures
        r == avg_next(avg as int, len as int, weight as int),
        r <= AVG_CAP,
{
    let s: u128 = 1_000_000;
    let w: u128 = weight as u128;
    proof {
        assert(avg * w <= AVG_CAP * 1_000_000) by (nonlinear_arith)
            requires
                avg <= AVG_CAP,
                w <= 1_000_000,
        ;
        assert((len as u128) * (s - w) <= 18_446_744_073_709_551_615u128 * 1_000_000)
            by (nonlinear_arith)
            requires
                len <= u64::MAX,
                s == 1_000_000,
                w <= s,
        ;
        lemma_avg_next_le_cap(avg as int, len as int, weight as int);
    }
    let num: u128 = avg * w + (len as u128) * (s - w) * s;
    num / s
}

} // verus!
