//! The progress-method capability: where are we in a transition?
//!
//! A lerping method supplies a fractional position, a stepped (boolean)
//! reading used by the atomic [`crate::step`] fallback, and a sub-fraction
//! for sequence elements that are emerging or dissolving.  The default
//! method is [`Frac`] itself; other implementations may carry extra policy
//! (a different threshold, an easing rule) while still reporting a fraction.

use vstd::prelude::*;
use crate::frac::Frac;
use crate::frac::HALF_SCALE;
use crate::frac::SCALE;
use crate::frac::sat_i64;

verus! {

/// The capability a progress value offers to the blending engine.
///
/// `frac_num`, `stepped` and `partial_num` are the mathematical readings of
/// an instance; the executable methods must report exactly them.  Whatever
/// the implementation, `with_lerp_pct` must build an instance of the same
/// kind carrying the given fraction: it is always called before a
/// substituted method is used, so a per-field override inherits the ambient
/// transition position (see [`crate::strategy`]).
pub trait IsLerpingMethod: Sized + Clone {
    /// The fraction this method reports, as a numerator over
    /// [`SCALE`].
    spec fn frac_num(&self) -> int;

    /// Whether the transition has stepped past this method's threshold.
    spec fn stepped(&self) -> bool;

    /// The sub-fraction (numerator over [`SCALE`]) handed to
    /// element `i` of `total` when sequence lengths differ.
    spec fn partial_num(&self, i: int, total: int) -> int;

    /// Atomic reading: has the transition stepped past the threshold?
    fn has_lerp_stepped(&self) -> (r: bool)
        ensures
            r == self.stepped(),
    ;

    /// The current fraction.
    fn lerp_pct(&self) -> (r: Frac)
        ensures
            r@ == self.frac_num(),
    ;

    /// The sub-fraction for element `i` of `total`, clamped into the
    /// representable numerator range.
    fn partial_lerp_pct(&self, i: usize, total: usize) -> (r: Frac)
        ensures
            r@ == sat_i64(self.partial_num(i as int, total as int)),
    ;

    /// A new instance of the same kind whose fraction is `pct`.
    fn with_lerp_pct(&self, pct: Frac) -> (r: Self)
        ensures
            r.frac_num() == pct@,
    ;
}

impl IsLerpingMethod for Frac {
    open spec fn frac_num(&self) -> int {
        self@
    }

    /// Past the threshold once the fraction exceeds one half.
    open spec fn stepped(&self) -> bool {
        self@ > HALF_SCALE as int
    }

    /// `fraction * total - i`: a locally rescaled progress, so that an
    /// element whose position shifts while the count changes still animates
    /// smoothly instead of snapping.
    open spec fn partial_num(&self, i: int, total: int) -> int {
        self@ * total - i * (SCALE as int)
    }

    fn has_lerp_stepped(&self) -> (r: bool) {
        self.num > HALF_SCALE
    }

    fn lerp_pct(&self) -> (r: Frac) {
        *self
    }

    fn partial_lerp_pct(&self, i: usize, total: usize) -> (r: Frac) {
        proof {
            assert(-0x8000_0000_0000_0000 * 0xFFFF_FFFF_FFFF_FFFF <= (self.num as int) * (
            total as int) <= 0x8000_0000_0000_0000 * 0xFFFF_FFFF_FFFF_FFFF) by (nonlinear_arith)
                requires
                    -0x8000_0000_0000_0000 <= self.num as int <= 0x7FFF_FFFF_FFFF_FFFF,
                    0 <= total as int <= 0xFFFF_FFFF_FFFF_FFFF,
            ;
            assert(0 <= (i as int) * 1_000_000 <= 0xFFFF_FFFF_FFFF_FFFF * 1_000_000) by (
            nonlinear_arith)
                requires
                    0 <= i as int <= 0xFFFF_FFFF_FFFF_FFFF,
            ;
        }
        let scaled: i128 = (self.num as i128) * (total as i128);
        // Window wide enough that subtracting `i * SCALE` (at most ~2^84)
        // cannot move a value from one side of the i64 range to the other.
        let windowed: i128 = if scaled > 0x10_0000_0000_0000_0000_0000_0000i128 {
            0x10_0000_0000_0000_0000_0000_0000i128
        } else if scaled < -0x10_0000_0000_0000_0000_0000_0000i128 {
            -0x10_0000_0000_0000_0000_0000_0000i128
        } else {
            scaled
        };
        let shifted: i128 = windowed - (i as i128) * 1_000_000i128;
        let clamped: i64 = if shifted > 0x7FFF_FFFF_FFFF_FFFFi128 {
            0x7FFF_FFFF_FFFF_FFFFi64
        } else if shifted < -0x8000_0000_0000_0000i128 {
            -0x8000_0000_0000_0000i64
        } else {
            shifted as i64
        };
        Frac { num: clamped }
    }

    fn with_lerp_pct(&self, pct: Frac) -> (r: Frac)
        ensures
            r == pct,
    {
        pct
    }
}

/// The default method's step threshold is the fraction one half: `step`
/// hands back the second value exactly when the fraction exceeds it.
pub proof fn lemma_frac_step_threshold(p: Frac)
    ensures
        p.stepped() <==> p@ > HALF_SCALE as int,
{
}

} // verus!
