//! Fixed-point fractions and the scalar interpolation arithmetic.
//!
//! A transition position ("how far along are we?") is a fraction,
//! conventionally in `[0, 1]` but allowed to run out of that range.  It is
//! held exactly as an integer numerator over the fixed denominator [`SCALE`],
//! so that every blend is a pure, deterministic integer computation.
//!
//! Rounding mode: wherever a division by [`SCALE`] must round, it rounds to
//! the nearest integer, halves away from zero ([`div_round`]).

use vstd::prelude::*;
use vstd::arithmetic::div_mod::lemma_div_multiples_vanish_fancy;
use vstd::arithmetic::div_mod::lemma_div_is_ordered;
use vstd::arithmetic::div_mod::lemma_div_pos_is_pos;

verus! {

/// The fixed denominator: a fraction `f` is carried as the numerator
/// nearest to `f * SCALE`.
pub const SCALE: i64 = 1_000_000;

/// The numerator that stands for one half.
pub const HALF_SCALE: i64 = 500_000;

/// `x` clamped into `[lo, hi]`.
pub open spec fn sat_range(x: int, lo: int, hi: int) -> int {
    if x < lo {
        lo
    } else if x > hi {
        hi
    } else {
        x
    }
}

/// `x` clamped into the `i64` range.
pub open spec fn sat_i64(x: int) -> int {
    sat_range(x, i64::MIN as int, i64::MAX as int)
}

/// `n / d` rounded to the nearest integer, halves away from zero.
/// Meaningful for `d > 0`.
pub open spec fn div_round(n: int, d: int) -> int
    recommends
        d > 0,
{
    if n >= 0 {
        (n + d / 2) / d
    } else {
        -((-n + d / 2) / d)
    }
}

/// The interpolated value between `a` and `b` at the fraction `num / SCALE`:
/// `a + round(num * (b - a) / SCALE)`.  At `num == 0` this is exactly `a`,
/// at `num == SCALE` exactly `b`.
pub open spec fn lerp_num(a: int, b: int, num: int) -> int {
    a + div_round(num * (b - a), SCALE as int)
}

/// A transition position held as a fixed-point fraction: the represented
/// fraction is `num / SCALE`.  This is the default, reference progress
/// method; its view is the numerator.
#[derive(Clone, Copy, PartialEq, Eq, Debug)]
pub struct Frac {
    pub num: i64,
}

impl View for Frac {
    type V = int;

    open spec fn view(&self) -> int {
        self.num as int
    }
}

impl Frac {
    /// The fraction `num / SCALE`.
    pub fn new(num: i64) -> (r: Frac)
        ensures
            r@ == num as int,
    {
        Frac { num }
    }

    /// The fraction zero (the start of a transition).
    pub fn zero() -> (r: Frac)
        ensures
            r@ == 0,
    {
        Frac { num: 0 }
    }

    /// The fraction one (the end of a transition).
    pub fn one() -> (r: Frac)
        ensures
            r@ == SCALE as int,
    {
        Frac { num: SCALE }
    }
}

/// The `Frac` whose numerator is `n` clamped into the `i64` range.
pub open spec fn frac_of(n: int) -> Frac {
    Frac { num: sat_i64(n) as i64 }
}

/// Exact interpolation on wide integers: returns `lerp_num(a, b, num)`
/// without any clamping.  The bounds on `a`, `b` and their distance are the
/// machine limits under which the intermediate products fit in 128 bits;
/// every value pair of a 64-bit integer type satisfies them.
pub fn lerp_wide(a: i128, b: i128, num: i64) -> (r: i128)
    requires
        -0x8000_0000_0000_0000 <= a <= 0xFFFF_FFFF_FFFF_FFFF,
        -0x8000_0000_0000_0000 <= b <= 0xFFFF_FFFF_FFFF_FFFF,
        -0xFFFF_FFFF_FFFF_FFFF <= b - a <= 0xFFFF_FFFF_FFFF_FFFF,
    ensures
        r == lerp_num(a as int, b as int, num as int),
{
    let diff: i128 = b - a;
    proof {
        assert(-0x8000_0000_0000_0000 * 0xFFFF_FFFF_FFFF_FFFF <= (num as int) * (diff as int)
            <= 0x8000_0000_0000_0000 * 0xFFFF_FFFF_FFFF_FFFF) by (nonlinear_arith)
            requires
                -0x8000_0000_0000_0000 <= num as int <= 0x7FFF_FFFF_FFFF_FFFF,
                -0xFFFF_FFFF_FFFF_FFFF <= diff as int <= 0xFFFF_FFFF_FFFF_FFFF,
        ;
    }
    let prod: i128 = (num as i128) * diff;
    let q: i128 = if prod >= 0 {
        (((prod as u128) + 500_000u128) / 1_000_000u128) as i128
    } else {
        let mag: u128 = (-prod) as u128;
        -(((mag + 500_000u128) / 1_000_000u128) as i128)
    };
    assert(q == div_round(prod as int, SCALE as int));
    a + q
}

/// Dividing an exact multiple of `SCALE` by `SCALE` with rounding gives the
/// multiplier back: no rounding error on whole values.
pub proof fn lemma_div_round_scale_multiple(k: int)
    ensures
        div_round(SCALE as int * k, SCALE as int) == k,
{
    if k >= 0 {
        assert(1_000_000 * k >= 0) by (nonlinear_arith)
            requires
                k >= 0,
        ;
        lemma_div_multiples_vanish_fancy(k, 500_000, 1_000_000);
    } else {
        assert(1_000_000 * k < 0 && -(1_000_000 * k) == 1_000_000 * (-k)) by (nonlinear_arith)
            requires
                k < 0,
        ;
        lemma_div_multiples_vanish_fancy(-k, 500_000, 1_000_000);
    }
}

/// Interpolation is exact at the endpoints: the fraction zero yields the
/// first value and the fraction one yields the second, whatever the values.
pub proof fn lemma_lerp_num_endpoints(a: int, b: int)
    ensures
        lerp_num(a, b, 0) == a,
        lerp_num(a, b, SCALE as int) == b,
{
    assert(0 * (b - a) == 0);
    lemma_div_round_scale_multiple(b - a);
}

/// Endpoint exactness survives clamping into a type's range, as long as both
/// input values lie in that range.
pub proof fn lemma_sat_lerp_endpoints(a: int, b: int, lo: int, hi: int)
    requires
        lo <= a <= hi,
        lo <= b <= hi,
    ensures
        sat_range(lerp_num(a, b, 0), lo, hi) == a,
        sat_range(lerp_num(a, b, SCALE as int), lo, hi) == b,
{
    lemma_lerp_num_endpoints(a, b);
}

/// For an in-range fraction (between zero and one), the interpolated value
/// lies between the two endpoints, so clamping never alters it when the
/// endpoints themselves are in range.
pub proof fn lemma_lerp_num_between(a: int, b: int, num: int)
    requires
        0 <= num <= SCALE as int,
    ensures
        a <= b ==> a <= lerp_num(a, b, num) <= b,
        b <= a ==> b <= lerp_num(a, b, num) <= a,
{
    let k = b - a;
    let x = num * k;
    if k >= 0 {
        assert(0 <= x <= 1_000_000 * k) by (nonlinear_arith)
            requires
                0 <= num <= 1_000_000,
                k >= 0,
                x == num * k,
        ;
        lemma_div_pos_is_pos(x + 500_000, 1_000_000);
        lemma_div_is_ordered(x + 500_000, 1_000_000 * k + 500_000, 1_000_000);
        lemma_div_multiples_vanish_fancy(k, 500_000, 1_000_000);
    } else {
        assert(1_000_000 * k <= x <= 0 && -x == num * (-k) && -(1_000_000 * k) == 1_000_000 * (
        -k)) by (nonlinear_arith)
            requires
                0 <= num <= 1_000_000,
                k < 0,
                x == num * k,
        ;
        if x >= 0 {
            assert(x == 0);
            lemma_div_pos_is_pos(500_000, 1_000_000);
            lemma_div_is_ordered(500_000, 1_000_000, 1_000_000);
        } else {
            lemma_div_pos_is_pos(-x + 500_000, 1_000_000);
            lemma_div_is_ordered(-x + 500_000, 1_000_000 * (-k) + 500_000, 1_000_000);
            lemma_div_multiples_vanish_fancy(-k, 500_000, 1_000_000);
        }
    }
}

} // verus!
