//! Composite dispatch: records, overrides, and tagged unions.

use lerpable::{
    custom_func, custom_method, BasicTypes, BasicTypesWithOverrides, EnumTest, Frac,
    IsLerpingMethod, KvPairs, Lerpable, UnLerpableType, SCALE,
};

fn basic(s: &str, a: i64, b: usize, something: Vec<i64>) -> BasicTypes {
    BasicTypes { s: s.to_string(), a_number: a, b_number: b, something }
}

#[test]
fn record_blends_field_by_field() {
    let x = basic("old", 100, 10, vec![1, 2]);
    let y = basic("new", 200, 20, vec![3, 6]);
    let r = x.lerpify(&y, &Frac::new(250_000));
    // text snaps: below the threshold it stays the old value
    assert_eq!(r.s, "old");
    // numbers interpolate: 100 + round(0.25 * 100), 10 + round(0.25 * 10)
    assert_eq!(r.a_number, 125);
    assert_eq!(r.b_number, 13);
    // the sequence combines elementwise: 1 + round(0.25 * 2), 2 + round(0.25 * 4)
    assert_eq!(r.something, vec![2, 3]);
}

#[test]
fn record_text_snaps_past_threshold() {
    let x = basic("old", 0, 0, vec![]);
    let y = basic("new", 0, 0, vec![]);
    let r = x.lerpify(&y, &Frac::new(750_000));
    assert_eq!(r.s, "new");
}

#[test]
fn record_sequence_field_changes_length() {
    let x = basic("a", 0, 0, vec![1, 2, 3, 4]);
    let y = basic("a", 0, 0, vec![9]);
    let r = x.lerpify(&y, &Frac::new(SCALE));
    assert_eq!(r.something, vec![9]);
}

#[test]
fn custom_func_bypasses_blending() {
    // the supplied function computes the difference, whatever the fraction
    assert_eq!(custom_func(&10i64, &3i64, &Frac::new(500_000)), 7);
    assert_eq!(custom_func(&10i64, &3i64, &Frac::new(0)), 7);
}

#[test]
fn override_record_uses_custom_func() {
    let x = BasicTypesWithOverrides {
        a_number: 10,
        something: vec![],
        label: "left".to_string(),
        b: KvPairs { pairs: vec![] },
    };
    let y = BasicTypesWithOverrides {
        a_number: 3,
        something: vec![],
        label: "right".to_string(),
        b: KvPairs { pairs: vec![] },
    };
    let r = x.lerpify(&y, &Frac::new(900_000));
    // func override: 10 - 3, regardless of the fraction
    assert_eq!(r.a_number, 7);
    // skip override: past the threshold the label snaps wholesale
    assert_eq!(r.label, "right");
}

#[test]
fn skip_field_never_interpolates() {
    let x = BasicTypesWithOverrides {
        a_number: 0,
        something: vec![],
        label: "mine".to_string(),
        b: KvPairs { pairs: vec![("k".to_string(), "v".to_string())] },
    };
    let y = BasicTypesWithOverrides {
        a_number: 0,
        something: vec![],
        label: "theirs".to_string(),
        b: KvPairs { pairs: vec![] },
    };
    for num in [0i64, 100_000, 300_000, 500_000] {
        let r = x.lerpify(&y, &Frac::new(num));
        assert_eq!(r.label, "mine");
        assert_eq!(r.b.pairs.len(), 1);
        assert_eq!(r.b.pairs[0].0, "k");
        assert_eq!(r.b.pairs[0].1, "v");
    }
    for num in [500_001i64, 750_000, SCALE] {
        let r = x.lerpify(&y, &Frac::new(num));
        assert_eq!(r.label, "theirs");
        assert_eq!(r.b.pairs.len(), 0);
    }
}

#[test]
fn method_override_tracks_ambient_fraction() {
    let ambient = Frac::new(420_000);
    let substituted = custom_method().with_lerp_pct(ambient.lerp_pct());
    assert_eq!(substituted.lerp_pct().num, ambient.lerp_pct().num);
}

#[test]
fn method_override_never_steps() {
    let substituted = custom_method().with_lerp_pct(Frac::new(SCALE));
    assert!(!substituted.has_lerp_stepped());
}

#[test]
fn override_sequence_combines_under_substituted_method() {
    let x = BasicTypesWithOverrides {
        a_number: 0,
        something: vec![1, 2, 3],
        label: String::new(),
        b: KvPairs { pairs: vec![] },
    };
    let y = BasicTypesWithOverrides {
        a_number: 0,
        something: vec![5],
        label: String::new(),
        b: KvPairs { pairs: vec![] },
    };
    let r = x.lerpify(&y, &Frac::new(250_000));
    // count = round(lerp(3, 1, 0.25)) = 2; index 0 blends 1 toward 5,
    // index 1 dissolves whole
    assert_eq!(r.something, vec![2, 2]);
}

#[test]
fn union_same_variant_recurses() {
    let x = EnumTest::B(basic("s", 0, 0, vec![]));
    let y = EnumTest::B(basic("s", 100, 0, vec![]));
    let r = x.lerpify(&y, &Frac::new(500_000));
    match r {
        EnumTest::B(inner) => assert_eq!(inner.a_number, 50),
        _ => panic!("variant changed on a matching blend"),
    }
}

#[test]
fn union_mismatched_variants_step() {
    let x = EnumTest::A;
    let y = EnumTest::C(UnLerpableType);
    let early = x.lerpify(&y, &Frac::new(250_000));
    assert!(matches!(early, EnumTest::A));
    let late = x.lerpify(&y, &Frac::new(750_000));
    assert!(matches!(late, EnumTest::C(_)));
}

#[test]
fn union_mismatch_never_merges() {
    let x = EnumTest::B(basic("x", 7, 0, vec![1]));
    let y = EnumTest::A;
    let late = x.lerpify(&y, &Frac::new(999_999));
    assert!(matches!(late, EnumTest::A));
    let early = x.lerpify(&y, &Frac::new(1));
    match early {
        EnumTest::B(inner) => {
            // the whole old variant, untouched
            assert_eq!(inner.s, "x");
            assert_eq!(inner.a_number, 7);
            assert_eq!(inner.something, vec![1]);
        }
        _ => panic!("step picked the wrong side"),
    }
}

#[test]
fn record_partial_is_identity_copy() {
    let x = basic("keep", 5, 6, vec![7, 8]);
    let r = <BasicTypes as Lerpable<Frac>>::lerp_partial(&x, Frac::new(123_456));
    assert_eq!(r.s, "keep");
    assert_eq!(r.a_number, 5);
    assert_eq!(r.b_number, 6);
    assert_eq!(r.something, vec![7, 8]);
}
