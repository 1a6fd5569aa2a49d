//! Fixed-point interpolation: progress through a span of time, the
//! overshooting ease curve, and linear blending between two offsets.
//!
//! Fractions are integers counted in millionths, so `UNIT` stands for one.

use vstd::prelude::*;
use vstd::arithmetic::div_mod::lemma_multiply_divide_lt;

verus! {

/// The fixed-point representation of one: fractions are counted in millionths.
pub const UNIT: u32 = 1_000_000;

/// Overshoot coefficient of the ease curve, 1.70158, in millionths.
pub const BACK_C1: u32 = 1_701_580;

/// Cubic coefficient of the ease curve, `BACK_C1` plus one, in millionths.
pub const BACK_C3: u32 = 2_701_580;

/// `UNIT` as a mathematical integer.
#[verifier::inline]
pub open spec fn unit() -> int {
    1_000_000
}

/// The fraction of `duration` that `elapsed` covers, in millionths, held to
/// at most one. A span that is already used up, an empty one included,
/// counts as fully covered.
pub open spec fn progress_of(elapsed: int, duration: int) -> int {
    if elapsed >= duration {
        unit()
    } else {
        elapsed * unit() / duration
    }
}

/// What is left of the way at fraction `t`: one minus `t`, with `t` held
/// between zero and one.
pub open spec fn remaining(t: int) -> int {
    if t >= unit() {
        0
    } else if t <= 0 {
        unit()
    } else {
        unit() - t
    }
}

/// The ease curve as a function of what is left of the way:
/// `1 + c1 w^2 - c3 w^3`, in millionths, rounded down. With `u` for `UNIT`
/// the three terms are brought to the common scale `u^4`, which is the first
/// number, and divided by `u^3`, which is the last; the second is `c1 u`.
pub open spec fn settle_curve(w: int) -> int {
    (1_000_000_000_000_000_000_000_000 + 1_701_580_000_000 * (w * w) - 2_701_580 * (w * w * w))
        / 1_000_000_000_000_000_000
}

/// The ease curve `1 + c3 (t - 1)^3 + c1 (t - 1)^2` on fractions in
/// millionths, rounded down. Arguments beyond zero or one count as zero or
/// one.
pub open spec fn eased(t: int) -> int {
    settle_curve(remaining(t))
}

/// The point `t` millionths of the way from `a` to `b`, rounded down:
/// `a + (b - a) * t`. Nothing holds `t` to the unit interval, so the point
/// may lie beyond `b`.
pub open spec fn lerp_value(a: int, b: int, t: int) -> int {
    a + ((b - a) * t) / unit()
}

/// Fraction of `duration` covered by `elapsed`, in millionths.
pub fn progress(elapsed: u64, duration: u64) -> (p: u32)
    ensures
        p == progress_of(elapsed as int, duration as int),
        p <= UNIT,
        p == UNIT <==> elapsed >= duration,
{
    if elapsed >= duration {
        UNIT
    } else {
        let one: u128 = UNIT as u128;
        assert(one == 1_000_000);
        let scaled: u128 = elapsed as u128 * one;
        let q: u128 = scaled / duration as u128;
        proof {
            assert(elapsed * unit() < duration * unit()) by (nonlinear_arith)
                requires
                    elapsed < duration,
                    unit() > 0,
            ;
            lemma_multiply_divide_lt(elapsed * unit(), duration as int, unit());
        }
        q as u32
    }
}

/// Back-ease-out: runs from zero to one, passing slightly beyond one on the
/// way before it settles.
pub fn ease_out_back(t: u32) -> (f: u32)
    ensures
        f == eased(t as int),
        t == 0 ==> f == 0,
        t >= UNIT ==> f == UNIT,
{
    let w: u128 = if t >= UNIT { 0 } else { (UNIT - t) as u128 };
    let one: u128 = UNIT as u128;
    let c1: u128 = BACK_C1 as u128;
    let c3: u128 = BACK_C3 as u128;
    assert(one == 1_000_000 && c1 == 1_701_580 && c3 == 2_701_580);
    proof {
        lemma_ease_terms(w as int);
    }
    let w2: u128 = w * w;
    let w3: u128 = w2 * w;
    let cube: u128 = one * one * one;
    let whole: u128 = cube * one;
    let gain: u128 = c1 * one;
    assert(cube == 1_000_000_000_000_000_000 && gain == 1_701_580_000_000);
    let rise: u128 = gain * w2;
    let fall: u128 = c3 * w3;
    let f: u128 = (whole + rise - fall) / cube;
    f as u32
}

/// Bounds on the square and the cube of `w`, for `w` between zero and one.
/// They keep the terms of the ease curve within range, and the cubic term
/// from outweighing the other two.
pub proof fn lemma_ease_terms(w: int)
    requires
        0 <= w <= unit(),
    ensures
        0 <= w * w <= 1_000_000_000_000,
        0 <= w * w * w <= 1_000_000_000_000_000_000,
        w * w * w <= 1_000_000 * (w * w),
{
    let u = unit();
    assert(0 <= w * w <= u * u) by (nonlinear_arith)
        requires
            0 <= w <= u,
    ;
    assert(0 <= w * w * w <= (w * w) * u) by (nonlinear_arith)
        requires
            0 <= w <= u,
            0 <= w * w,
    ;
    assert((w * w) * u <= u * u * u) by (nonlinear_arith)
        requires
            0 <= w * w <= u * u,
            0 <= u,
    ;
}

/// The ease curve starts at zero and ends at one, and arguments beyond
/// either end count as that end.
pub proof fn lemma_ease_endpoints(t: int)
    ensures
        t <= 0 ==> eased(t) == 0,
        t >= unit() ==> eased(t) == unit(),
{
    let w = remaining(t);
    if t >= unit() {
        assert(w * w == 0 && w * w * w == 0) by (nonlinear_arith)
            requires
                w == 0,
        ;
    } else if t <= 0 {
        assert(w * w == 1_000_000_000_000 && w * w * w == 1_000_000_000_000_000_000)
            by (nonlinear_arith)
            requires
                w == 1_000_000,
        ;
    }
}

/// Interpolation starts at `a` and reaches `b` at one; between zero and one
/// the point lies between `a` and `b`.
pub proof fn lemma_lerp_between(a: int, b: int, t: int)
    ensures
        lerp_value(a, b, 0) == a,
        lerp_value(a, b, unit()) == b,
        0 <= t <= unit() && a <= b ==> a <= lerp_value(a, b, t) <= b,
        0 <= t <= unit() && b <= a ==> b <= lerp_value(a, b, t) <= a,
{
    assert((b - a) * 0 == 0);
    if 0 <= t <= unit() {
        if a <= b {
            assert(0 <= (b - a) * t <= (b - a) * unit()) by (nonlinear_arith)
                requires
                    0 <= t <= unit(),
                    a <= b,
            ;
        } else {
            assert((b - a) * unit() <= (b - a) * t <= 0) by (nonlinear_arith)
                requires
                    0 <= t <= unit(),
                    b <= a,
            ;
        }
    }
}

/// The ease curve is at or beyond one exactly on the stretch where the
/// quadratic term outweighs the cubic one, from `1 - c1 / c3` of the way on.
/// It never falls below zero and never rises above `1 + c1`.
pub proof fn lemma_ease_overshoots(t: int)
    ensures
        eased(t) >= unit() <==> 2_701_580 * remaining(t) <= 1_701_580 * unit(),
        0 <= eased(t) <= unit() + 1_701_580,
{
    let w = remaining(t);
    lemma_ease_terms(w);
    let w2 = w * w;
    let w3 = w * w * w;
    if 2_701_580 * w <= 1_701_580 * unit() {
        assert(2_701_580 * w3 <= 1_701_580_000_000 * w2) by (nonlinear_arith)
            requires
                2_701_580 * w <= 1_701_580_000_000,
                w3 == w2 * w,
                w2 >= 0,
        ;
    } else {
        assert(w2 > 0) by (nonlinear_arith)
            requires
                w > 0,
                w2 == w * w,
        ;
        assert(2_701_580 * w3 > 1_701_580_000_000 * w2) by (nonlinear_arith)
            requires
                2_701_580 * w > 1_701_580_000_000,
                w3 == w2 * w,
                w2 > 0,
        ;
    }
}

/// Linear interpolation from `a` to `b` at `t` millionths of the way.
pub fn lerp(a: i32, b: i32, t: u32) -> (r: i64)
    ensures
        r == lerp_value(a as int, b as int, t as int),
        t == 0 ==> r == a,
        t == UNIT ==> r == b,
{
    let span: i64 = b as i64 - a as i64;
    if span >= 0 {
        let reach: u64 = span as u64;
        assert(reach * t <= 0xffff_ffff * 0xffff_ffff) by (nonlinear_arith)
            requires
                0 <= reach <= 0xffff_ffff,
                0 <= t <= 0xffff_ffff,
        ;
        let one: u64 = UNIT as u64;
        assert(one == 1_000_000);
        let travelled: u64 = reach * (t as u64) / one;
        assert((b - a) * t == reach * t);
        a as i64 + travelled as i64
    } else {
        let reach: u64 = (-span) as u64;
        assert(reach * t <= 0xffff_ffff * 0xffff_ffff) by (nonlinear_arith)
            requires
                0 <= reach <= 0xffff_ffff,
                0 <= t <= 0xffff_ffff,
        ;
        let one: u64 = UNIT as u64;
        assert(one == 1_000_000);
        let scaled: u64 = reach * (t as u64);
        let whole: u64 = scaled / one;
        let travelled: u64 = if scaled % one == 0 { whole } else { whole + 1 };
        assert((b - a) * t == -(reach * t)) by (nonlinear_arith)
            requires
                b - a == -reach,
        ;
        a as i64 - travelled as i64
    }
}

} // verus!
