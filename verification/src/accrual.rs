use vstd::prelude::*;
use vstd::arithmetic::div_mod::{
    lemma_div_is_ordered, lemma_fundamental_div_mod, lemma_fundamental_div_mod_converse,
};

verus! {

/// The part of `total` that corresponds to `elapsed` out of `duration` time
/// units, rounded down.
pub open spec fn prorated(total: int, elapsed: int, duration: int) -> int {
    (total * elapsed) / duration
}

/// The amount vested at time `at` by a commitment of `total` that vests
/// linearly from `start` to `end` and shows nothing before `cliff`.
///
/// Nothing is vested up to and including `start`, nor before `cliff`; all of
/// `total` is vested from `end` on; in between the vested amount is the linear
/// share of `total`, rounded down.
pub open spec fn accrued_at(total: int, start: int, cliff: int, end: int, at: int) -> int {
    if at <= start || at < cliff {
        0
    } else if at >= end {
        total
    } else {
        prorated(total, at - start, end - start)
    }
}

/// Splitting `total` into whole multiples of `duration` and a remainder gives
/// the same rounded-down share as multiplying first.
proof fn lemma_prorated_split(total: int, elapsed: int, duration: int)
    requires
        0 <= total,
        0 <= elapsed,
        0 < duration,
    ensures
        prorated(total, elapsed, duration) == (total / duration) * elapsed + ((total % duration)
            * elapsed) / duration,
{
    let q = total / duration;
    let rem = total % duration;
    let w = (rem * elapsed) / duration;
    let r2 = (rem * elapsed) % duration;
    lemma_fundamental_div_mod(total, duration);
    lemma_fundamental_div_mod(rem * elapsed, duration);
    assert(total * elapsed == (q * elapsed + w) * duration + r2) by (nonlinear_arith)
        requires
            total == duration * q + rem,
            rem * elapsed == duration * w + r2,
    ;
    lemma_fundamental_div_mod_converse(total * elapsed, duration, q * elapsed + w, r2);
}

/// A share never exceeds the whole, and falls short of it while time remains.
pub proof fn lemma_prorated_bounds(total: int, elapsed: int, duration: int)
    requires
        0 <= total,
        0 <= elapsed <= duration,
        0 < duration,
    ensures
        0 <= prorated(total, elapsed, duration) <= total,
        0 < total && elapsed < duration ==> prorated(total, elapsed, duration) < total,
{
    assert(0 <= total * elapsed <= total * duration) by (nonlinear_arith)
        requires
            0 <= total,
            0 <= elapsed <= duration,
    ;
    lemma_div_is_ordered(0, total * elapsed, duration);
    lemma_div_is_ordered(total * elapsed, total * duration, duration);
    assert((total * duration) / duration == total) by (nonlinear_arith)
        requires
            0 < duration,
    ;
    if 0 < total && elapsed < duration {
        assert(total * elapsed <= total * duration - total) by (nonlinear_arith)
            requires
                0 < total,
                0 <= elapsed < duration,
        ;
        lemma_div_is_ordered(total * elapsed, total * duration - total, duration);
        assert((total * duration - total) / duration < total) by (nonlinear_arith)
            requires
                0 < total,
                0 < duration,
        ;
    }
}

/// A later moment never has the smaller share.
pub proof fn lemma_prorated_monotonic(total: int, e1: int, e2: int, duration: int)
    requires
        0 <= total,
        e1 <= e2,
        0 < duration,
    ensures
        prorated(total, e1, duration) <= prorated(total, e2, duration),
{
    assert(total * e1 <= total * e2) by (nonlinear_arith)
        requires
            0 <= total,
            e1 <= e2,
    ;
    lemma_div_is_ordered(total * e1, total * e2, duration);
}

/// The vested amount lies between nothing and the whole commitment.
pub proof fn lemma_accrued_bounds(total: int, start: int, cliff: int, end: int, at: int)
    requires
        0 <= total,
    ensures
        0 <= accrued_at(total, start, cliff, end, at) <= total,
{
    if !(at <= start || at < cliff) && at < end {
        lemma_prorated_bounds(total, at - start, end - start);
    }
}

/// The vested amount never shrinks as time passes.
pub proof fn lemma_accrued_monotonic(total: int, start: int, cliff: int, end: int, t1: int, t2: int)
    requires
        0 <= total,
        t1 <= t2,
    ensures
        accrued_at(total, start, cliff, end, t1) <= accrued_at(total, start, cliff, end, t2),
{
    lemma_accrued_bounds(total, start, cliff, end, t1);
    lemma_accrued_bounds(total, start, cliff, end, t2);
    if !(t1 <= start || t1 < cliff) && t2 < end {
        lemma_prorated_monotonic(total, t1 - start, t2 - start, end - start);
    }
}

/// Nothing is vested at the start of the window, and everything at its end,
/// provided the window is not empty and the cliff lies within it.
pub proof fn lemma_accrued_boundaries(total: int, start: int, cliff: int, end: int)
    ensures
        accrued_at(total, start, cliff, end, start) == 0,
        start < end && cliff <= end ==> accrued_at(total, start, cliff, end, end) == total,
{
}

/// Before the end of the window a positive commitment is never fully vested.
pub proof fn lemma_accrued_partial_before_end(total: int, start: int, cliff: int, end: int, at: int)
    requires
        0 < total,
        at < end,
    ensures
        accrued_at(total, start, cliff, end, at) < total,
{
    if !(at <= start || at < cliff) {
        lemma_prorated_bounds(total, at - start, end - start);
    }
}

/// Computes the rounded-down share of `total` for `elapsed` out of `duration`
/// without ever forming the product `total * elapsed`, which need not fit.
fn prorate(total: u128, elapsed: u64, duration: u64) -> (share: u128)
    requires
        0 < duration,
        elapsed <= duration,
    ensures
        share == prorated(total as int, elapsed as int, duration as int),
{
    let d: u128 = duration as u128;
    let e: u128 = elapsed as u128;
    let q: u128 = total / d;
    let rem: u128 = total % d;
    proof {
        lemma_prorated_split(total as int, elapsed as int, duration as int);
        lemma_prorated_bounds(total as int, elapsed as int, duration as int);
        lemma_fundamental_div_mod(total as int, duration as int);
        assert(0 <= q * e <= total) by (nonlinear_arith)
            requires
                total == d * q + rem,
                0 <= e <= d,
                0 <= rem,
                0 <= q,
        ;
        assert(rem * e <= 0xffff_ffff_ffff_ffff * 0xffff_ffff_ffff_ffff) by (nonlinear_arith)
            requires
                0 <= rem <= 0xffff_ffff_ffff_ffff,
                0 <= e <= 0xffff_ffff_ffff_ffff,
        ;
        assert(0 <= (rem * e) / (d as int)) by (nonlinear_arith)
            requires
                0 <= rem,
                0 <= e,
                0 < d,
        ;
    }
    q * e + (rem * e) / d
}

/// The amount vested at `at_time` by a commitment of `total_amount` that vests
/// linearly from `start_ts` to `end_ts` and shows nothing before `cliff_ts`.
///
/// Exact for every input: the intermediate arithmetic cannot overflow, and the
/// result is rounded down, so it never exceeds `total_amount`.
pub fn accrued(total_amount: u128, start_ts: u64, cliff_ts: u64, end_ts: u64, at_time: u64) -> (vested:
    u128)
    ensures
        vested == accrued_at(
            total_amount as int,
            start_ts as int,
            cliff_ts as int,
            end_ts as int,
            at_time as int,
        ),
        vested <= total_amount,
{
    proof {
        lemma_accrued_bounds(
            total_amount as int,
            start_ts as int,
            cliff_ts as int,
            end_ts as int,
            at_time as int,
        );
    }
    if at_time <= start_ts || at_time < cliff_ts {
        0
    } else if at_time >= end_ts {
        total_amount
    } else {
        prorate(total_amount, at_time - start_ts, end_ts - start_ts)
    }
}

} // verus!
