//! The blending capability and its two scalar primitives, and the
//! sequence-combination algorithm.
//!
//! [`Lerpable`] is the contract a type implements to become interpolable:
//! `lerpify` produces the in-between value, `lerp_partial` the value an
//! element takes while it is emerging into or dissolving out of a sequence.
//! [`step`] is the atomic fallback for values with no meaningful halfway
//! point, [`lerp`] the numeric interpolation, and [`combine_vecs`]
//! reconciles two sequences of possibly different lengths.

use vstd::prelude::*;
use vstd::pervasive::cloned;
use crate::frac::Frac;
use crate::frac::SCALE;
use crate::frac::frac_of;
use crate::frac::lerp_num;
use crate::frac::lerp_wide;
use crate::frac::sat_i64;
use crate::frac::sat_range;
use crate::frac::lemma_lerp_num_endpoints;
use crate::frac::lemma_lerp_num_between;
use crate::progress::IsLerpingMethod;

verus! {

/// The capability a data type implements to participate in blending under
/// the progress method `M`.
///
/// `blend_spec` and `partial_spec` are the mathematical statements of what
/// blending does for the type; the executable methods must return exactly
/// them.  `lerp_partial` is the value of a newly emerging or dissolving
/// sequence element: by convention it is an identity copy (the element pops
/// into existence whole) unless the type chooses to fade in.  It always
/// receives the plain sub-fraction that `partial_lerp_pct` computed for the
/// element's position.
pub trait Lerpable<M: IsLerpingMethod>: Sized {
    /// What it means for `r` to be the blend of `self` toward `other` at
    /// the position `m`.  Every implementation in this crate pins `r` down
    /// exactly, by value or by view.
    spec fn blend_rel(&self, other: &Self, m: &M, r: &Self) -> bool;

    /// What it means for `r` to be the value this element takes while
    /// emerging or dissolving at the sub-fraction `pct`.
    spec fn partial_rel(&self, pct: Frac, r: &Self) -> bool;

    /// Blend `self` toward `other` at the position `pct`.
    fn lerpify(&self, other: &Self, pct: &M) -> (r: Self)
        ensures
            self.blend_rel(other, pct, &r),
    ;

    /// The partially present value of an emerging or dissolving element.
    fn lerp_partial(&self, pct: Frac) -> (r: Self)
        ensures
            self.partial_rel(pct, &r),
    ;
}

/// Atomic this-or-other snap: a copy of `other` exactly when the method has
/// stepped past its threshold, a copy of `this` otherwise.  Used wherever no
/// meaningful halfway point exists: opaque fields, mismatched union
/// variants.
pub fn step<T: Clone, M: IsLerpingMethod>(this: &T, other: &T, pct: &M) -> (r: T)
    ensures
        pct.stepped() ==> cloned(*other, r),
        !pct.stepped() ==> cloned(*this, r),
{
    if pct.has_lerp_stepped() {
        other.clone()
    } else {
        this.clone()
    }
}

/// Numeric interpolation between two signed 64-bit values at the method's
/// fraction, clamped into the `i64` range (clamping can only act when the
/// fraction runs outside `[0, 1]`).
pub fn lerp<M: IsLerpingMethod>(start: i64, end: i64, pct: &M) -> (r: i64)
    ensures
        r as int == sat_i64(lerp_num(start as int, end as int, pct.frac_num())),
{
    let p = pct.lerp_pct();
    let wide: i128 = lerp_wide(start as i128, end as i128, p.num);
    if wide > 0x7FFF_FFFF_FFFF_FFFFi128 {
        0x7FFF_FFFF_FFFF_FFFFi64
    } else if wide < -0x8000_0000_0000_0000i128 {
        -0x8000_0000_0000_0000i64
    } else {
        wide as i64
    }
}

/// How many elements the combination of sequences of lengths `n` and `m`
/// holds at the fraction `num / SCALE`.  Equal lengths short-circuit to that
/// common length, so no rounding can ever perturb the agreeing case; unequal
/// lengths interpolate and round, clamped between zero and the longer
/// length so that every output index draws on at least one input (for a
/// fraction in `[0, 1]` the clamp never acts: see
/// [`lemma_count_in_range`]).
pub open spec fn spec_count(n: int, m: int, num: int) -> int {
    if n == m {
        n
    } else {
        sat_range(lerp_num(n, m, num), 0, if n > m { n } else { m })
    }
}

/// What the element at output index `k` of combining `a` and `b` at `m`
/// with output length `count` is: a blend where both sides have the index,
/// an emerging partial of `b`'s element where only `b` does, a dissolving
/// partial of `a`'s element where only `a` does.
pub open spec fn spec_combine_rel<T: Lerpable<M>, M: IsLerpingMethod>(
    a: Seq<T>,
    b: Seq<T>,
    m: M,
    k: int,
    count: int,
    out: T,
) -> bool
    recommends
        0 <= k < count,
        k < a.len() || k < b.len(),
{
    if k < a.len() && k < b.len() {
        a[k].blend_rel(&b[k], &m, &out)
    } else if k < b.len() {
        b[k].partial_rel(frac_of(m.partial_num(k, count)), &out)
    } else {
        a[k].partial_rel(frac_of(m.partial_num(k, count)), &out)
    }
}

/// Reconcile two sequences of possibly different lengths into one blended
/// sequence.  Output index `i` corresponds positionally to index `i` of
/// whichever inputs are long enough; elements present on only one side
/// emerge or dissolve through their `lerp_partial` at the method's
/// sub-fraction for that position.
pub fn combine_vecs<T: Lerpable<M>, M: IsLerpingMethod>(this: &[T], other: &[T], pct: &M) -> (r:
    Vec<T>)
    ensures
        r@.len() == spec_count(this@.len() as int, other@.len() as int, pct.frac_num()),
        forall|k: int|
            0 <= k < r@.len() ==> spec_combine_rel(
                this@,
                other@,
                *pct,
                k,
                r@.len() as int,
                #[trigger] r@[k],
            ),
{
    let this_len: usize = this.len();
    let other_len: usize = other.len();
    let longer: usize = if this_len > other_len {
        this_len
    } else {
        other_len
    };
    let count: usize = if this_len == other_len {
        this_len
    } else {
        let p = pct.lerp_pct();
        let wide: i128 = lerp_wide(this_len as i128, other_len as i128, p.num);
        if wide < 0i128 {
            0
        } else if wide > longer as i128 {
            longer
        } else {
            wide as usize
        }
    };
    assert(count as int == spec_count(this@.len() as int, other@.len() as int, pct.frac_num()));
    assert(count <= longer);
    let mut v: Vec<T> = Vec::new();
    let mut idx: usize = 0;
    while idx < count
        invariant
            idx <= count,
            count <= longer,
            longer == if this_len > other_len { this_len } else { other_len },
            this_len == this@.len(),
            other_len == other@.len(),
            count as int == spec_count(this@.len() as int, other@.len() as int, pct.frac_num()),
            v@.len() == idx as int,
            forall|k: int|
                0 <= k < idx as int ==> spec_combine_rel(
                    this@,
                    other@,
                    *pct,
                    k,
                    count as int,
                    #[trigger] v@[k],
                ),
        decreases count - idx,
    {
        if idx < this_len && idx < other_len {
            let blended = this[idx].lerpify(&other[idx], pct);
            v.push(blended);
        } else if idx < other_len {
            let emerge_pct = pct.partial_lerp_pct(idx, count);
            let emerged = other[idx].lerp_partial(emerge_pct);
            v.push(emerged);
        } else {
            let emerge_pct = pct.partial_lerp_pct(idx, count);
            let dissolved = this[idx].lerp_partial(emerge_pct);
            v.push(dissolved);
        }
        idx = idx + 1;
    }
    v
}

/// Combining a sequence with itself gives the sequence back, element for
/// element, whenever the element type blends a value with itself only to
/// itself (every blend in this crate does: interpolation between equal
/// endpoints moves nowhere, and a step between equal values picks the same
/// value either way).
pub proof fn lemma_combine_with_self_identity<T: Lerpable<M>, M: IsLerpingMethod>(
    a: Seq<T>,
    m: M,
    out: Seq<T>,
)
    requires
        out.len() == spec_count(a.len() as int, a.len() as int, m.frac_num()),
        forall|k: int|
            0 <= k < out.len() ==> spec_combine_rel(a, a, m, k, out.len() as int, #[trigger] out[k]),
        forall|k: int, r: T|
            0 <= k < a.len() && #[trigger] a[k].blend_rel(&a[k], &m, &r) ==> r == a[k],
    ensures
        out =~= a,
{
}

/// Two sequences of one common length combine to exactly that length at any
/// fraction whatever: the equal-length short-circuit admits no drift.
pub proof fn lemma_equal_length_count(n: int, num: int)
    ensures
        spec_count(n, n, num) == n,
{
}

/// At the fraction zero the combined length is the first sequence's; at the
/// fraction one it is the second's.
pub proof fn lemma_count_endpoints(n: int, m: int)
    requires
        0 <= n,
        0 <= m,
    ensures
        spec_count(n, m, 0) == n,
        spec_count(n, m, SCALE as int) == m,
{
    lemma_lerp_num_endpoints(n, m);
}

/// For a fraction in `[0, 1]` the combined length lies between the two
/// input lengths, so the defensive clamp in [`spec_count`] never acts.
pub proof fn lemma_count_in_range(n: int, m: int, num: int)
    requires
        0 <= n,
        0 <= m,
        0 <= num <= SCALE as int,
    ensures
        n <= m ==> n <= spec_count(n, m, num) <= m,
        m <= n ==> m <= spec_count(n, m, num) <= n,
{
    lemma_lerp_num_between(n, m, num);
}

} // verus!
