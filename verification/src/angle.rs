//! Angles in millidegrees: wrap-around, signed difference, and the rounding
//! used by every scaled product in the controller.

use vstd::prelude::*;
use vstd::arithmetic::div_mod::{lemma_div_is_ordered, lemma_mod_multiples_vanish};

verus! {

/// One full turn, in millidegrees.
pub const FULL_TURN: i32 = 360_000;

/// Half a turn, in millidegrees.
pub const HALF_TURN: i32 = 180_000;

/// The heading in `[0, FULL_TURN)` that points the same way as `heading`.
pub open spec fn normalize(heading: int) -> int {
    heading % (FULL_TURN as int)
}

/// A raw difference of two headings moved by at most one full turn towards
/// `(-HALF_TURN, HALF_TURN]`.
pub open spec fn wrap_signed(diff: int) -> int {
    if diff > HALF_TURN {
        diff - FULL_TURN
    } else if diff <= -HALF_TURN {
        diff + FULL_TURN
    } else {
        diff
    }
}

/// How far `current` lies from `target`, signed: current minus target.
pub open spec fn heading_error_of(target: int, current: int) -> int {
    wrap_signed(current - target)
}

/// The quotient of `a` by a positive `b`, rounded towards zero.
pub open spec fn div_to_zero(a: int, b: int) -> int {
    if a >= 0 {
        a / b
    } else {
        -((-a) / b)
    }
}

/// `x` held to the closed interval `[lo, hi]`.
pub open spec fn clamp_to(x: int, lo: int, hi: int) -> int {
    if x < lo {
        lo
    } else if x > hi {
        hi
    } else {
        x
    }
}

/// The absolute value of `x`.
pub open spec fn magnitude(x: int) -> int {
    if x < 0 {
        -x
    } else {
        x
    }
}

/// Wraps `heading` into `[0, FULL_TURN)`.
pub fn normalize_heading(heading: i32) -> (r: i32)
    ensures
        r == normalize(heading as int),
        0 <= r < FULL_TURN,
{
    let rem: i32 = heading % FULL_TURN;
    if rem < 0 {
        rem + FULL_TURN
    } else {
        rem
    }
}

/// The signed error of `current` against `target`: their difference, moved by
/// one full turn where it lies outside `(-HALF_TURN, HALF_TURN]`.
pub fn heading_error(target: i32, current: i32) -> (e: i64)
    ensures
        e == heading_error_of(target as int, current as int),
{
    let diff: i64 = current as i64 - target as i64;
    if diff > HALF_TURN as i64 {
        diff - FULL_TURN as i64
    } else if diff <= -(HALF_TURN as i64) {
        diff + FULL_TURN as i64
    } else {
        diff
    }
}

/// Divides `a` by a positive `b`, rounding towards zero.
pub(crate) fn divide_to_zero(a: i128, b: i128) -> (q: i128)
    requires
        b > 0,
    ensures
        q == div_to_zero(a as int, b as int),
{
    a / b
}

/// Holds `x` to `[lo, hi]`.
pub(crate) fn clamp(x: i128, lo: i128, hi: i128) -> (r: i128)
    requires
        lo <= hi,
    ensures
        r == clamp_to(x as int, lo as int, hi as int),
        lo <= r <= hi,
{
    if x < lo {
        lo
    } else if x > hi {
        hi
    } else {
        x
    }
}

/// Division towards zero keeps the order of what is divided.
pub proof fn lemma_div_to_zero_ordered(a: int, b: int, divisor: int)
    requires
        a <= b,
        divisor > 0,
    ensures
        div_to_zero(a, divisor) <= div_to_zero(b, divisor),
{
    if a >= 0 {
        lemma_div_is_ordered(a, b, divisor);
    } else if b >= 0 {
        lemma_div_is_ordered(0, -a, divisor);
        lemma_div_is_ordered(0, b, divisor);
        assert(0int / divisor == 0) by (nonlinear_arith)
            requires
                divisor > 0,
        ;
    } else {
        lemma_div_is_ordered(-b, -a, divisor);
    }
}

/// A normalized heading lies in `[0, FULL_TURN)`, and whole turns added to a
/// heading do not change what it normalizes to.
pub proof fn lemma_normalize_periodic(heading: int, turns: int)
    ensures
        0 <= normalize(heading) < FULL_TURN,
        normalize(heading + FULL_TURN * turns) == normalize(heading),
        normalize(normalize(heading)) == normalize(heading),
{
    lemma_mod_multiples_vanish(turns, heading, FULL_TURN as int);
    assert(FULL_TURN * turns + heading == heading + FULL_TURN * turns);
}

/// Between two normalized headings the error lies in `(-HALF_TURN, HALF_TURN]`
/// and leads from the target back to the current heading. Unless the two
/// are exactly opposite, swapping them turns the sign of the error round.
pub proof fn lemma_heading_error_range(target: int, current: int)
    requires
        0 <= target < FULL_TURN,
        0 <= current < FULL_TURN,
    ensures
        -HALF_TURN < heading_error_of(target, current) <= HALF_TURN,
        normalize(target + heading_error_of(target, current)) == current,
        magnitude(current - target) != HALF_TURN ==> heading_error_of(current, target)
            == -heading_error_of(target, current),
{
    let e = heading_error_of(target, current);
    if current - target > HALF_TURN {
        lemma_mod_multiples_vanish(-1, current, FULL_TURN as int);
    } else if current - target <= -HALF_TURN {
        lemma_mod_multiples_vanish(1, current, FULL_TURN as int);
    }
}

} // verus!
