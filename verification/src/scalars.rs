//! Numeric scalar blending.
//!
//! Every integer kind blends by promoting to a wide exact representation,
//! interpolating ([`crate::frac::lerp_num`]), and narrowing back, clamped
//! into the type's range.  For a fraction in `[0, 1]` the interpolated value
//! lies between the two inputs, so the clamp never acts; it can act only for
//! out-of-range fractions.  Rounding is to the nearest value, halves away
//! from zero.  An emerging or dissolving scalar is present whole: its
//! partial value is itself.

use vstd::prelude::*;
use crate::blend::Lerpable;
use crate::frac::Frac;
use crate::frac::lerp_num;
use crate::frac::lerp_wide;
use crate::frac::SCALE;
use crate::frac::lemma_sat_lerp_endpoints;
use crate::frac::sat_range;
use crate::progress::IsLerpingMethod;

verus! {

/// The blended `u8`: interpolate and clamp into the type's range.
pub open spec fn blend_u8(a: u8, b: u8, num: int) -> u8 {
    sat_range(lerp_num(a as int, b as int, num), 0, 0xFF) as u8
}

/// The blended `u16`.
pub open spec fn blend_u16(a: u16, b: u16, num: int) -> u16 {
    sat_range(lerp_num(a as int, b as int, num), 0, 0xFFFF) as u16
}

/// The blended `u64`.
pub open spec fn blend_u64(a: u64, b: u64, num: int) -> u64 {
    sat_range(lerp_num(a as int, b as int, num), 0, 0xFFFF_FFFF_FFFF_FFFF) as u64
}

/// The blended `usize`.
pub open spec fn blend_usize(a: usize, b: usize, num: int) -> usize {
    sat_range(lerp_num(a as int, b as int, num), 0, usize::MAX as int) as usize
}

/// The blended `i32`.
pub open spec fn blend_i32(a: i32, b: i32, num: int) -> i32 {
    sat_range(lerp_num(a as int, b as int, num), -0x8000_0000, 0x7FFF_FFFF) as i32
}

/// The blended `i64`.
pub open spec fn blend_i64(a: i64, b: i64, num: int) -> i64 {
    sat_range(lerp_num(a as int, b as int, num), i64::MIN as int, i64::MAX as int) as i64
}

impl<M: IsLerpingMethod> Lerpable<M> for u8 {
    open spec fn blend_rel(&self, other: &Self, m: &M, r: &Self) -> bool {
        *r == blend_u8(*self, *other, m.frac_num())
    }

    open spec fn partial_rel(&self, pct: Frac, r: &Self) -> bool {
        *r == *self
    }

    fn lerpify(&self, other: &Self, pct: &M) -> (r: Self) {
        let p = pct.lerp_pct();
        let wide: i128 = lerp_wide(*self as i128, *other as i128, p.num);
        if wide < 0i128 {
            0u8
        } else if wide > 0xFFi128 {
            0xFFu8
        } else {
            wide as u8
        }
    }

    #[allow(unused_variables)]
    fn lerp_partial(&self, pct: Frac) -> (r: Self) {
        *self
    }
}

impl<M: IsLerpingMethod> Lerpable<M> for u16 {
    open spec fn blend_rel(&self, other: &Self, m: &M, r: &Self) -> bool {
        *r == blend_u16(*self, *other, m.frac_num())
    }

    open spec fn partial_rel(&self, pct: Frac, r: &Self) -> bool {
        *r == *self
    }

    fn lerpify(&self, other: &Self, pct: &M) -> (r: Self) {
        let p = pct.lerp_pct();
        let wide: i128 = lerp_wide(*self as i128, *other as i128, p.num);
        if wide < 0i128 {
            0u16
        } else if wide > 0xFFFFi128 {
            0xFFFFu16
        } else {
            wide as u16
        }
    }

    #[allow(unused_variables)]
    fn lerp_partial(&self, pct: Frac) -> (r: Self) {
        *self
    }
}

impl<M: IsLerpingMethod> Lerpable<M> for u64 {
    open spec fn blend_rel(&self, other: &Self, m: &M, r: &Self) -> bool {
        *r == blend_u64(*self, *other, m.frac_num())
    }

    open spec fn partial_rel(&self, pct: Frac, r: &Self) -> bool {
        *r == *self
    }

    fn lerpify(&self, other: &Self, pct: &M) -> (r: Self) {
        let p = pct.lerp_pct();
        let wide: i128 = lerp_wide(*self as i128, *other as i128, p.num);
        if wide < 0i128 {
            0u64
        } else if wide > 0xFFFF_FFFF_FFFF_FFFFi128 {
            0xFFFF_FFFF_FFFF_FFFFu64
        } else {
            wide as u64
        }
    }

    #[allow(unused_variables)]
    fn lerp_partial(&self, pct: Frac) -> (r: Self) {
        *self
    }
}

impl<M: IsLerpingMethod> Lerpable<M> for usize {
    open spec fn blend_rel(&self, other: &Self, m: &M, r: &Self) -> bool {
        *r == blend_usize(*self, *other, m.frac_num())
    }

    open spec fn partial_rel(&self, pct: Frac, r: &Self) -> bool {
        *r == *self
    }

    fn lerpify(&self, other: &Self, pct: &M) -> (r: Self) {
        let p = pct.lerp_pct();
        let wide: i128 = lerp_wide(*self as i128, *other as i128, p.num);
        if wide < 0i128 {
            0usize
        } else if wide > usize::MAX as i128 {
            usize::MAX
        } else {
            wide as usize
        }
    }

    #[allow(unused_variables)]
    fn lerp_partial(&self, pct: Frac) -> (r: Self) {
        *self
    }
}

impl<M: IsLerpingMethod> Lerpable<M> for i32 {
    open spec fn blend_rel(&self, other: &Self, m: &M, r: &Self) -> bool {
        *r == blend_i32(*self, *other, m.frac_num())
    }

    open spec fn partial_rel(&self, pct: Frac, r: &Self) -> bool {
        *r == *self
    }

    fn lerpify(&self, other: &Self, pct: &M) -> (r: Self) {
        let p = pct.lerp_pct();
        let wide: i128 = lerp_wide(*self as i128, *other as i128, p.num);
        if wide < -0x8000_0000i128 {
            -0x8000_0000i32
        } else if wide > 0x7FFF_FFFFi128 {
            0x7FFF_FFFFi32
        } else {
            wide as i32
        }
    }

    #[allow(unused_variables)]
    fn lerp_partial(&self, pct: Frac) -> (r: Self) {
        *self
    }
}

impl<M: IsLerpingMethod> Lerpable<M> for i64 {
    open spec fn blend_rel(&self, other: &Self, m: &M, r: &Self) -> bool {
        *r == blend_i64(*self, *other, m.frac_num())
    }

    open spec fn partial_rel(&self, pct: Frac, r: &Self) -> bool {
        *r == *self
    }

    fn lerpify(&self, other: &Self, pct: &M) -> (r: Self) {
        let p = pct.lerp_pct();
        let wide: i128 = lerp_wide(*self as i128, *other as i128, p.num);
        if wide < -0x8000_0000_0000_0000i128 {
            -0x8000_0000_0000_0000i64
        } else if wide > 0x7FFF_FFFF_FFFF_FFFFi128 {
            0x7FFF_FFFF_FFFF_FFFFi64
        } else {
            wide as i64
        }
    }

    #[allow(unused_variables)]
    fn lerp_partial(&self, pct: Frac) -> (r: Self) {
        *self
    }
}

/// Blending is exact at the endpoints: at the fraction zero the first
/// value comes back unchanged, at the fraction one the second, for every
/// pair of values.
pub proof fn lemma_scalar_blend_endpoints_i64(a: i64, b: i64)
    ensures
        blend_i64(a, b, 0) == a,
        blend_i64(a, b, SCALE as int) == b,
{
    lemma_sat_lerp_endpoints(a as int, b as int, i64::MIN as int, i64::MAX as int);
}

/// A scalar blended with itself is itself, at any fraction: interpolation
/// between equal endpoints moves nowhere.
pub proof fn lemma_scalar_blend_self_i64(a: i64, num: int)
    ensures
        blend_i64(a, a, num) == a,
{
    assert(num * (a as int - a as int) == 0) by (nonlinear_arith);
}

} // verus!
