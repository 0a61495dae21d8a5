//! Single-precision rounding of numbers that are whole multiples of one half.
//!
//! The engine computes a wave's reach in single precision. Every quantity in
//! that computation is a whole number of halves, so it is held here as an
//! integer count of halves and rounded exactly as single precision rounds:
//! to the nearest value with a 24-bit significand, ties to the even one.

use vstd::prelude::*;

verus! {

/// The number of values a 24-bit significand spans.
pub const SIGNIFICAND_SPAN: u64 = 16777216;

/// The spacing, in halves, of single-precision values near a magnitude of
/// `a` halves: the least power of two from `p` on under which `a` spans
/// fewer than `SIGNIFICAND_SPAN` steps.
pub open spec fn unit_from(a: nat, p: nat) -> nat
    decreases a - p,
{
    if p == 0 || a / p < SIGNIFICAND_SPAN {
        p
    } else {
        proof {
            assert(a >= 2 * p) by (nonlinear_arith)
                requires
                    p > 0,
                    a / p >= 16777216;
        }
        unit_from(a, 2 * p)
    }
}

/// The single-precision value nearest to `h` halves, in halves, ties going
/// to the value with an even significand.
pub open spec fn single_halves(h: int) -> int {
    let a: nat = if h < 0 { (-h) as nat } else { h as nat };
    let p = unit_from(a, 1);
    let q = a / p;
    let r = a % p;
    let m: int = if 2 * r > p || (2 * r == p && q % 2 == 1) { ((q + 1) * p) as int } else { (q * p) as int };
    if h < 0 { -m } else { m }
}

/// A whole number of halves rounded to whole units, half away from zero.
pub open spec fn rounded_halves(h: int) -> int {
    if h >= 0 { (h + 1) / 2 } else { -((-h + 1) / 2) }
}

/// An integer held to the bounds of an `i32`.
pub open spec fn clamped(v: int) -> i32 {
    if v > i32::MAX { i32::MAX } else if v < i32::MIN { i32::MIN } else { v as i32 }
}

/// The reach of a wave of level `level` whose first wave reaches
/// `twice_base` halves, computed as the engine computes it in single
/// precision: the level less one, times two hundred, plus the first reach,
/// each step rounded to single precision, then rounded half away from zero
/// and held to an `i32`.
pub open spec fn single_reach(twice_base: int, level: int) -> i32 {
    let steps = single_halves(2 * (level - 1));
    let extent = single_halves(steps * 200);
    clamped(rounded_halves(single_halves(twice_base + extent)))
}

/// The spacing of single-precision values is at least one half and at most
/// twice the magnitude over the significand's span.
proof fn lemma_unit_from(a: nat, p: nat)
    requires
        p >= 1,
        p == 1 || p * SIGNIFICAND_SPAN <= 2 * a,
    ensures
        unit_from(a, p) >= 1,
        a / unit_from(a, p) < SIGNIFICAND_SPAN,
        unit_from(a, p) == 1 || unit_from(a, p) * SIGNIFICAND_SPAN <= 2 * a,
    decreases a - p,
{
    if a / p >= SIGNIFICAND_SPAN {
        assert(a >= SIGNIFICAND_SPAN * p) by (nonlinear_arith)
            requires
                p > 0,
                a / p >= 16777216;
        lemma_unit_from(a, 2 * p);
    }
}

/// Rounds `h` halves to the nearest single-precision value, in halves.
pub fn round_single_halves(h: i64) -> (r: i64)
    requires
        -0x4_0000_0000_0000 < h < 0x4_0000_0000_0000,
    ensures
        r == single_halves(h as int),
        h >= 0 ==> 0 <= r <= 2 * h,
        h < 0 ==> 2 * h <= r <= 0,
{
    let a: u64 = if h < 0 { (-h) as u64 } else { h as u64 };
    let ghost an: nat = a as nat;
    let mut p: u64 = 1;
    while a / p >= SIGNIFICAND_SPAN
        invariant
            p >= 1,
            p == 1 || p * SIGNIFICAND_SPAN <= 2 * a,
            a < 0x4_0000_0000_0000,
            an == a as nat,
            unit_from(an, p as nat) == unit_from(an, 1),
        decreases a - p,
    {
        assert(a >= SIGNIFICAND_SPAN * p) by (nonlinear_arith)
            requires
                p > 0,
                a / p >= 16777216;
        assert(unit_from(an, p as nat) == unit_from(an, (2 * p) as nat));
        p = p * 2;
    }
    proof {
        lemma_unit_from(an, p as nat);
    }
    assert(p < 0x800_0000) by (nonlinear_arith)
        requires
            p >= 1,
            p == 1 || p * 16777216 <= 2 * a,
            a < 0x4_0000_0000_0000;
    let q = a / p;
    let r = a % p;
    assert(q < SIGNIFICAND_SPAN);
    let q2: u64 = if 2 * r > p || (2 * r == p && q % 2 == 1) { q + 1 } else { q };
    assert(p == 1 ==> r == 0);
    assert(q2 * p <= 0x80_0000_0000_0000) by (nonlinear_arith)
        requires
            q2 <= 16777216,
            p < 0x800_0000;
    let m: u64 = q2 * p;
    proof {
        assert(m as int == (if 2 * r > p || (2 * r == p && q % 2 == 1) { (q + 1) * p } else { q * p }));
    }
    assert(m <= 2 * a) by (nonlinear_arith)
        requires
            m == q2 * p,
            q2 <= q + 1,
            q == a / p,
            r == a % p,
            p == 1 ==> q2 == q,
            p >= 1,
            p == 1 || p * 16777216 <= 2 * a;
    if h < 0 { -(m as i64) } else { m as i64 }
}

/// Computes [`single_reach`] for a wave whose first wave reaches
/// `twice_base` halves.
pub(crate) fn wave_reach_for(twice_base: i64, level: i32) -> (r: i32)
    requires
        0 <= twice_base <= 1000,
        level > i32::MIN,
    ensures
        r == single_reach(twice_base as int, level as int),
{
    let steps = round_single_halves(2 * (level as i64 - 1));
    let extent = round_single_halves(steps * 200);
    let total = round_single_halves(twice_base + extent);
    let whole: i64 = if total >= 0 { (total + 1) / 2 } else { -((-total + 1) / 2) };
    if whole > i32::MAX as i64 {
        i32::MAX
    } else if whole < i32::MIN as i64 {
        i32::MIN
    } else {
        whole as i32
    }
}

} // verus!
