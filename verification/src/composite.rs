//! Composite dispatch: records, tagged unions and wrappers blending field
//! by field under resolved strategies.
//!
//! The types here are the engine's reference composites, each with a
//! hand-written [`Lerpable`] implementation that encodes the strategies the
//! resolver ([`crate::strategy`]) assigns: [`BasicTypes`] is a record whose
//! fields take the shape-derived strategies (text snaps, numbers
//! interpolate, sequences combine positionally); [`BasicTypesWithOverrides`]
//! adds one field of each override kind (a custom function, a substituted
//! method, explicit skips); [`EnumTest`] is a tagged union that recurses on
//! matching variants and snaps wholesale on mismatched ones; and
//! [`SimpleNewtype`] is a single-field wrapper whose inner value's strategy
//! applies directly.
//!
//! Every implementation states its result exactly, over the view of the
//! type: a pure record of sequences and scalars.

use vstd::prelude::*;
use crate::blend::Lerpable;
use crate::blend::combine_vecs;
use crate::blend::spec_combine_rel;
use crate::blend::spec_count;
use crate::blend::step;
use crate::frac::Frac;
use crate::frac::frac_of;
use crate::frac::sat_i64;
use crate::progress::IsLerpingMethod;
use crate::scalars::blend_i64;
use crate::scalars::blend_usize;

verus! {

/// A substituted progress method for fields that need their own stepping
/// policy: it carries a fraction but never reports the transition as
/// stepped, so fields driven by it glide and never snap.
#[derive(Clone, Copy, PartialEq, Eq, Debug)]
pub struct CustomMethod {
    /// The carried fraction.
    pub pct: Frac,
}

impl IsLerpingMethod for CustomMethod {
    open spec fn frac_num(&self) -> int {
        self.pct@
    }

    /// Never stepped: a field under this method has no snap threshold.
    open spec fn stepped(&self) -> bool {
        false
    }

    /// Emerging elements under this method appear at sub-fraction zero.
    open spec fn partial_num(&self, i: int, total: int) -> int {
        0
    }

    fn has_lerp_stepped(&self) -> (r: bool) {
        false
    }

    fn lerp_pct(&self) -> (r: Frac) {
        self.pct
    }

    #[allow(unused_variables)]
    fn partial_lerp_pct(&self, i: usize, total: usize) -> (r: Frac) {
        Frac { num: 0 }
    }

    fn with_lerp_pct(&self, pct: Frac) -> (r: Self)
        ensures
            r == (CustomMethod { pct }),
    {
        CustomMethod { pct }
    }
}

/// A fresh [`CustomMethod`] at fraction zero: the constructor a field's
/// `method` override names.  The engine always refreshes the instance with
/// the ambient fraction through `with_lerp_pct` before using it.
pub fn custom_method() -> (r: CustomMethod)
    ensures
        r == (CustomMethod { pct: Frac { num: 0 } }),
{
    CustomMethod { pct: Frac { num: 0 } }
}

/// The method a `method`-overridden field is actually driven by: a fresh
/// instance carrying the ambient fraction.
pub open spec fn substituted_method<M: IsLerpingMethod>(m: &M) -> CustomMethod {
    CustomMethod { pct: frac_of(m.frac_num()) }
}

/// The substituted method of a field override reports the same fraction as
/// the ambient method it was refreshed from (every executable method
/// reports a fraction in the representable range, which the bound states).
pub proof fn lemma_custom_method_tracks_ambient<M: IsLerpingMethod>(m: &M)
    requires
        i64::MIN as int <= m.frac_num() <= i64::MAX as int,
    ensures
        substituted_method(m).frac_num() == m.frac_num(),
{
}

/// What the caller-supplied blend function computes: the difference of the
/// two field values, clamped into range.  It stands in for any function a
/// `func` override names; it bypasses the field's own blend capability
/// entirely and ignores the progress position.
pub open spec fn spec_custom_func(a: i64, b: i64) -> i64 {
    sat_i64(a as int - b as int) as i64
}

/// A caller-supplied blend function for `func` overrides: blends two
/// numbers to their clamped difference, whatever the progress says.
#[allow(unused_variables)]
pub fn custom_func<M: IsLerpingMethod>(this: &i64, other: &i64, pct: &M) -> (r: i64)
    ensures
        r == spec_custom_func(*this, *other),
{
    let wide: i128 = (*this as i128) - (*other as i128);
    if wide > 0x7FFF_FFFF_FFFF_FFFFi128 {
        0x7FFF_FFFF_FFFF_FFFFi64
    } else if wide < -0x8000_0000_0000_0000i128 {
        -0x8000_0000_0000_0000i64
    } else {
        wide as i64
    }
}

/// The combination of two integer sequences at the method `m`, as a pure
/// sequence: interpolated length (with the equal-length short circuit), a
/// blend where both sides have the index, and the surviving side's element
/// where only one does (an emerging or dissolving integer is present
/// whole).
pub open spec fn spec_combined_i64<M: IsLerpingMethod>(a: Seq<i64>, b: Seq<i64>, m: &M) -> Seq<
    i64,
> {
    Seq::new(
        spec_count(a.len() as int, b.len() as int, m.frac_num()) as nat,
        |k: int|
            if k < a.len() && k < b.len() {
                blend_i64(a[k], b[k], m.frac_num())
            } else if k < b.len() {
                b[k]
            } else if k < a.len() {
                a[k]
            } else {
                0
            },
    )
}

/// What [`combine_vecs`] guarantees element by element pins the whole
/// output down for integer sequences: it is exactly [`spec_combined_i64`].
pub proof fn lemma_combined_i64_from_rel<M: IsLerpingMethod>(
    a: Seq<i64>,
    b: Seq<i64>,
    m: M,
    out: Seq<i64>,
)
    requires
        out.len() == spec_count(a.len() as int, b.len() as int, m.frac_num()),
        forall|k: int|
            0 <= k < out.len() ==> spec_combine_rel(a, b, m, k, out.len() as int, #[trigger] out[k]),
    ensures
        out =~= spec_combined_i64(a, b, &m),
{
    assert forall|k: int| 0 <= k < out.len() implies out[k] == spec_combined_i64(a, b, &m)[k] by {
        assert(spec_combine_rel(a, b, m, k, out.len() as int, out[k]));
    }
}

/// Copy an integer vector.
fn clone_i64s(v: &Vec<i64>) -> (r: Vec<i64>)
    ensures
        r@ == v@,
{
    let mut out: Vec<i64> = Vec::new();
    let mut i: usize = 0;
    while i < v.len()
        invariant
            i <= v@.len(),
            out@ == v@.subrange(0, i as int),
        decreases v@.len() - i,
    {
        out.push(v[i]);
        proof {
            assert(out@ =~= v@.subrange(0, i as int + 1));
        }
        i = i + 1;
    }
    proof {
        assert(out@ =~= v@);
    }
    out
}

/// A little key-value table: inherently non-blendable data, so composite
/// fields of this type are skipped (they snap wholesale at the step
/// threshold, never interpolate).
#[derive(Debug)]
pub struct KvPairs {
    /// The entries, in order.
    pub pairs: Vec<(String, String)>,
}

impl View for KvPairs {
    type V = Seq<(Seq<char>, Seq<char>)>;

    open spec fn view(&self) -> Seq<(Seq<char>, Seq<char>)> {
        Seq::new(self.pairs@.len(), |k: int| (self.pairs@[k].0@, self.pairs@[k].1@))
    }
}

impl Clone for KvPairs {
    fn clone(&self) -> (res: Self)
        ensures
            res@ == self@,
    {
        let mut out: Vec<(String, String)> = Vec::new();
        let mut i: usize = 0;
        while i < self.pairs.len()
            invariant
                i <= self.pairs@.len(),
                out@.len() == i as int,
                forall|k: int|
                    0 <= k < i as int ==> (#[trigger] out@[k]).0@ == self.pairs@[k].0@
                        && out@[k].1@ == self.pairs@[k].1@,
            decreases self.pairs@.len() - i,
        {
            let key = self.pairs[i].0.clone();
            let value = self.pairs[i].1.clone();
            out.push((key, value));
            i = i + 1;
        }
        let res = KvPairs { pairs: out };
        proof {
            assert(res@ =~= self@);
        }
        res
    }
}

/// The view of [`BasicTypes`]: the same record over pure values.
pub struct BasicTypesV {
    /// Text: snaps.
    pub s: Seq<char>,
    /// A number: interpolates.
    pub a_number: i64,
    /// A count: interpolates.
    pub b_number: usize,
    /// A sequence: combines positionally.
    pub something: Seq<i64>,
}

/// A record whose fields take the shape-derived strategies: text snaps at
/// the step threshold, numbers interpolate, and the sequence combines
/// positionally with emerging and dissolving elements.
#[derive(Debug)]
pub struct BasicTypes {
    /// Text: non-blendable, snaps.
    pub s: String,
    /// A number: interpolates.
    pub a_number: i64,
    /// A count: interpolates.
    pub b_number: usize,
    /// A sequence: combines positionally.
    pub something: Vec<i64>,
}

impl View for BasicTypes {
    type V = BasicTypesV;

    open spec fn view(&self) -> BasicTypesV {
        BasicTypesV {
            s: self.s@,
            a_number: self.a_number,
            b_number: self.b_number,
            something: self.something@,
        }
    }
}

impl Clone for BasicTypes {
    fn clone(&self) -> (res: Self)
        ensures
            res@ == self@,
    {
        BasicTypes {
            s: self.s.clone(),
            a_number: self.a_number,
            b_number: self.b_number,
            something: clone_i64s(&self.something),
        }
    }
}

/// The blend of two [`BasicTypes`] records at `m`, field by field.
pub open spec fn blended_basic<M: IsLerpingMethod>(
    a: BasicTypesV,
    b: BasicTypesV,
    m: &M,
) -> BasicTypesV {
    BasicTypesV {
        s: if m.stepped() {
            b.s
        } else {
            a.s
        },
        a_number: blend_i64(a.a_number, b.a_number, m.frac_num()),
        b_number: blend_usize(a.b_number, b.b_number, m.frac_num()),
        something: spec_combined_i64(a.something, b.something, m),
    }
}

impl<M: IsLerpingMethod> Lerpable<M> for BasicTypes {
    open spec fn blend_rel(&self, other: &Self, m: &M, r: &Self) -> bool {
        r@ == blended_basic(self@, other@, m)
    }

    open spec fn partial_rel(&self, pct: Frac, r: &Self) -> bool {
        r@ == self@
    }

    fn lerpify(&self, other: &Self, pct: &M) -> (r: Self) {
        let s = step(&self.s, &other.s, pct);
        let a_number = self.a_number.lerpify(&other.a_number, pct);
        let b_number = self.b_number.lerpify(&other.b_number, pct);
        let something = combine_vecs(self.something.as_slice(), other.something.as_slice(), pct);
        proof {
            lemma_combined_i64_from_rel(self.something@, other.something@, *pct, something@);
        }
        let result = BasicTypes { s, a_number, b_number, something };
        proof {
            assert(result@.something == spec_combined_i64(self@.something, other@.something, pct));
        }
        result
    }

    #[allow(unused_variables)]
    fn lerp_partial(&self, pct: Frac) -> (r: Self) {
        self.clone()
    }
}

/// The view of [`BasicTypesWithOverrides`].
pub struct BasicTypesWithOverridesV {
    /// Blended by the caller-supplied function.
    pub a_number: i64,
    /// Combined under the substituted method.
    pub something: Seq<i64>,
    /// Skipped: snaps.
    pub label: Seq<char>,
    /// Skipped: snaps.
    pub b: Seq<(Seq<char>, Seq<char>)>,
}

/// A record with one field of each override kind: `a_number` goes through a
/// caller-supplied function (bypassing its own capability), `something`
/// combines under a substituted method refreshed to the ambient fraction,
/// and `label` and `b` are marked skip, so they snap wholesale at the
/// ambient step threshold and never interpolate.
#[derive(Debug)]
pub struct BasicTypesWithOverrides {
    /// Blended by [`custom_func`].
    pub a_number: i64,
    /// Combined under [`custom_method`]'s instance.
    pub something: Vec<i64>,
    /// Skipped text.
    pub label: String,
    /// A skipped key-value table.
    pub b: KvPairs,
}

impl View for BasicTypesWithOverrides {
    type V = BasicTypesWithOverridesV;

    open spec fn view(&self) -> BasicTypesWithOverridesV {
        BasicTypesWithOverridesV {
            a_number: self.a_number,
            something: self.something@,
            label: self.label@,
            b: self.b@,
        }
    }
}

impl Clone for BasicTypesWithOverrides {
    fn clone(&self) -> (res: Self)
        ensures
            res@ == self@,
    {
        BasicTypesWithOverrides {
            a_number: self.a_number,
            something: clone_i64s(&self.something),
            label: self.label.clone(),
            b: self.b.clone(),
        }
    }
}

/// The blend of two [`BasicTypesWithOverrides`] records at `m`: the custom
/// function for `a_number`, the substituted method for `something`, and the
/// ambient step for the two skipped fields.
pub open spec fn blended_overrides<M: IsLerpingMethod>(
    a: BasicTypesWithOverridesV,
    b: BasicTypesWithOverridesV,
    m: &M,
) -> BasicTypesWithOverridesV {
    BasicTypesWithOverridesV {
        a_number: spec_custom_func(a.a_number, b.a_number),
        something: spec_combined_i64(a.something, b.something, &substituted_method(m)),
        label: if m.stepped() {
            b.label
        } else {
            a.label
        },
        b: if m.stepped() {
            b.b
        } else {
            a.b
        },
    }
}

impl<M: IsLerpingMethod> Lerpable<M> for BasicTypesWithOverrides {
    open spec fn blend_rel(&self, other: &Self, m: &M, r: &Self) -> bool {
        r@ == blended_overrides(self@, other@, m)
    }

    open spec fn partial_rel(&self, pct: Frac, r: &Self) -> bool {
        r@ == self@
    }

    fn lerpify(&self, other: &Self, pct: &M) -> (r: Self) {
        let a_number = custom_func(&self.a_number, &other.a_number, pct);
        let sub = custom_method().with_lerp_pct(pct.lerp_pct());
        proof {
            assert(sub == substituted_method(pct));
        }
        let something = combine_vecs(self.something.as_slice(), other.something.as_slice(), &sub);
        proof {
            lemma_combined_i64_from_rel(self.something@, other.something@, sub, something@);
        }
        let label = step(&self.label, &other.label, pct);
        let b = step(&self.b, &other.b, pct);
        let result = BasicTypesWithOverrides { a_number, something, label, b };
        proof {
            assert(result@.something == spec_combined_i64(
                self@.something,
                other@.something,
                &substituted_method(pct),
            ));
        }
        result
    }

    #[allow(unused_variables)]
    fn lerp_partial(&self, pct: Frac) -> (r: Self) {
        self.clone()
    }
}

/// A value with no meaningful in-between at all; composite fields holding
/// one are stepped wholesale.
#[derive(Clone, Copy, PartialEq, Eq, Structural, Debug)]
pub struct UnLerpableType;

/// The view of [`EnumTest`].
pub enum EnumTestV {
    /// A unit variant.
    A,
    /// A variant carrying a blendable record.
    B(BasicTypesV),
    /// A variant carrying a non-blendable payload.
    C,
}

/// A tagged union: matching variants recurse into their payloads, and
/// mismatched variants snap wholesale at the step threshold, since there is
/// no partial state between two different variants.
#[derive(Debug)]
pub enum EnumTest {
    /// A unit variant.
    A,
    /// A variant carrying a blendable record.
    B(BasicTypes),
    /// A variant carrying a non-blendable payload.
    C(UnLerpableType),
}

impl View for EnumTest {
    type V = EnumTestV;

    open spec fn view(&self) -> EnumTestV {
        match self {
            EnumTest::A => EnumTestV::A,
            EnumTest::B(x) => EnumTestV::B(x@),
            EnumTest::C(_) => EnumTestV::C,
        }
    }
}

impl Clone for EnumTest {
    fn clone(&self) -> (res: Self)
        ensures
            res@ == self@,
    {
        match self {
            EnumTest::A => EnumTest::A,
            EnumTest::B(x) => EnumTest::B(x.clone()),
            EnumTest::C(u) => EnumTest::C(*u),
        }
    }
}

/// Whether two union values carry the same variant.
pub open spec fn same_variant(a: EnumTestV, b: EnumTestV) -> bool {
    match (a, b) {
        (EnumTestV::A, EnumTestV::A) => true,
        (EnumTestV::B(_), EnumTestV::B(_)) => true,
        (EnumTestV::C, EnumTestV::C) => true,
        _ => false,
    }
}

/// The blend of two union values at `m`: recurse on a matching variant,
/// snap wholesale on a mismatch.
pub open spec fn blended_enum<M: IsLerpingMethod>(a: EnumTestV, b: EnumTestV, m: &M) -> EnumTestV {
    match (a, b) {
        (EnumTestV::B(x), EnumTestV::B(y)) => EnumTestV::B(blended_basic(x, y, m)),
        (EnumTestV::A, EnumTestV::A) => EnumTestV::A,
        (EnumTestV::C, EnumTestV::C) => EnumTestV::C,
        _ => if m.stepped() {
            b
        } else {
            a
        },
    }
}

impl<M: IsLerpingMethod> Lerpable<M> for EnumTest {
    open spec fn blend_rel(&self, other: &Self, m: &M, r: &Self) -> bool {
        r@ == blended_enum(self@, other@, m)
    }

    open spec fn partial_rel(&self, pct: Frac, r: &Self) -> bool {
        r@ == self@
    }

    fn lerpify(&self, other: &Self, pct: &M) -> (r: Self) {
        match (self, other) {
            (EnumTest::B(x), EnumTest::B(y)) => EnumTest::B(x.lerpify(y, pct)),
            _ => step(self, other, pct),
        }
    }

    #[allow(unused_variables)]
    fn lerp_partial(&self, pct: Frac) -> (r: Self) {
        self.clone()
    }
}

/// A single-field wrapper: the wrapped value's strategy applies directly to
/// the inner value, and the wrapper is rebuilt around the blended result.
/// Its partial override makes an emerging or dissolving wrapper carry the
/// sub-fraction's numerator instead of popping in whole.
#[derive(Clone, Copy, PartialEq, Eq, Structural, Debug)]
pub struct SimpleNewtype(pub i64);

impl<M: IsLerpingMethod> Lerpable<M> for SimpleNewtype {
    open spec fn blend_rel(&self, other: &Self, m: &M, r: &Self) -> bool {
        r.0 == blend_i64(self.0, other.0, m.frac_num())
    }

    open spec fn partial_rel(&self, pct: Frac, r: &Self) -> bool {
        r.0 == pct.num
    }

    fn lerpify(&self, other: &Self, pct: &M) -> (r: Self) {
        SimpleNewtype(self.0.lerpify(&other.0, pct))
    }

    fn lerp_partial(&self, pct: Frac) -> (r: Self) {
        SimpleNewtype(pct.num)
    }
}

/// A skipped field never holds an interpolated value: below or at the step
/// threshold it is the first record's value unchanged, above it is the
/// second's, wholesale.
pub proof fn lemma_skip_field_never_interpolates<M: IsLerpingMethod>(
    a: BasicTypesWithOverridesV,
    b: BasicTypesWithOverridesV,
    m: &M,
)
    ensures
        !m.stepped() ==> blended_overrides(a, b, m).label == a.label && blended_overrides(
            a,
            b,
            m,
        ).b == a.b,
        m.stepped() ==> blended_overrides(a, b, m).label == b.label && blended_overrides(
            a,
            b,
            m,
        ).b == b.b,
{
}

/// Blending two different variants of a tagged union is pure step
/// behaviour: whichever whole variant the threshold selects, never a
/// partially merged one.
pub proof fn lemma_mismatched_variants_step<M: IsLerpingMethod>(
    a: EnumTestV,
    b: EnumTestV,
    m: &M,
)
    requires
        !same_variant(a, b),
    ensures
        blended_enum(a, b, m) == if m.stepped() {
            b
        } else {
            a
        },
{
}

} // verus!
