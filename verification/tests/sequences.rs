//! The sequence-combination algorithm: positional blending, the
//! equal-length invariant, and emerging and dissolving elements.

use lerpable::{combine_vecs, Frac, Lerpable, SimpleNewtype, SCALE};

#[test]
fn combine_with_itself_is_identity() {
    let a: Vec<i64> = vec![5, 7, 9];
    let out = combine_vecs(&a, &a, &Frac::new(314_159));
    assert_eq!(out, vec![5, 7, 9]);
}

#[test]
fn equal_lengths_never_drift() {
    let a: Vec<i64> = vec![1, 2, 3];
    let b: Vec<i64> = vec![4, 5, 6];
    for num in [0i64, 1, 333_333, 500_000, 999_999, SCALE, 2 * SCALE, -SCALE] {
        let out = combine_vecs(&a, &b, &Frac::new(num));
        assert_eq!(out.len(), 3);
    }
}

#[test]
fn equal_lengths_blend_elementwise() {
    let a: Vec<i64> = vec![1, 2, 3];
    let b: Vec<i64> = vec![4, 5, 6];
    let out = combine_vecs(&a, &b, &Frac::new(500_000));
    // each element moves by round(0.5 * 3) = 2
    assert_eq!(out, vec![3, 4, 5]);
}

#[test]
fn emergence_at_fraction_one_gives_other() {
    let a: Vec<i64> = vec![10, 20];
    let b: Vec<i64> = vec![1, 2, 3, 4, 5];
    let out = combine_vecs(&a, &b, &Frac::new(SCALE));
    // length 5; the first two are blends at fraction one (= b's), the rest
    // emerge whole under the default partial
    assert_eq!(out, vec![1, 2, 3, 4, 5]);
}

#[test]
fn dissolving_at_fraction_zero_gives_this() {
    let a: Vec<i64> = vec![1, 2, 3, 4, 5];
    let b: Vec<i64> = vec![9, 9];
    let out = combine_vecs(&a, &b, &Frac::new(0));
    // length rounds to 5 at fraction zero; nothing has transitioned
    assert_eq!(out, vec![1, 2, 3, 4, 5]);
}

#[test]
fn length_interpolates_between_unequal_lengths() {
    let a: Vec<i64> = vec![];
    let b: Vec<i64> = vec![7, 8];
    let out = combine_vecs(&a, &b, &Frac::new(500_000));
    // round(lerp(0, 2, 0.5)) = 1, and the lone element emerges whole
    assert_eq!(out, vec![7]);
}

#[test]
fn out_of_range_fraction_count_is_clamped() {
    let a: Vec<i64> = vec![1];
    let b: Vec<i64> = vec![4, 5, 6, 7, 8];
    // lerp(1, 5, 2.0) = 9 would leave indexes with no source; the count is
    // clamped to the longer input
    let out = combine_vecs(&a, &b, &Frac::new(2_000_000));
    assert_eq!(out.len(), 5);
}

#[test]
fn negative_fraction_count_clamps_to_zero() {
    let a: Vec<i64> = vec![1];
    let b: Vec<i64> = vec![4, 5, 6, 7, 8];
    let out = combine_vecs(&a, &b, &Frac::new(-2_000_000));
    assert_eq!(out.len(), 0);
}

#[test]
fn emerging_wrapper_fades_in_with_sub_fraction() {
    let a: Vec<SimpleNewtype> = vec![];
    let b: Vec<SimpleNewtype> = vec![SimpleNewtype(9), SimpleNewtype(9)];
    // count = round(lerp(0, 2, 0.5)) = 1; the emerging element carries its
    // sub-fraction 0.5 * 1 - 0 = 0.5 instead of popping in whole
    let out = combine_vecs(&a, &b, &Frac::new(500_000));
    assert_eq!(out.len(), 1);
    assert_eq!(out[0], SimpleNewtype(500_000));
}

#[test]
fn wrapper_blends_through_inner_value() {
    let a = SimpleNewtype(0);
    let b = SimpleNewtype(10);
    assert_eq!(a.lerpify(&b, &Frac::new(500_000)), SimpleNewtype(5));
    assert_eq!(a.lerpify(&b, &Frac::new(0)), SimpleNewtype(0));
    assert_eq!(a.lerpify(&b, &Frac::new(SCALE)), SimpleNewtype(10));
}

#[test]
fn wrapper_partial_carries_fraction() {
    let r = <SimpleNewtype as Lerpable<Frac>>::lerp_partial(&SimpleNewtype(3), Frac::new(123));
    assert_eq!(r, SimpleNewtype(123));
}
