//! The field-strategy resolver: classification by type shape, override
//! precedence, and the type-path model.

use lerpable::{
    ident_from_type, recursive_ident_from_path, FieldStrategy, HowToControlThis, MethodOverride,
    StructIdents, TypePath,
};

fn path(ident: &str) -> TypePath {
    TypePath { ident: ident.to_string(), argument: None }
}

fn path_with(ident: &str, inner: TypePath) -> TypePath {
    TypePath { ident: ident.to_string(), argument: Some(Box::new(inner)) }
}

fn field(ty: TypePath) -> StructIdents {
    StructIdents { ident: Some("field".to_string()), ty, method: None, func: None }
}

#[test]
fn from_type_str_classifies_sequences() {
    assert_eq!(HowToControlThis::from_type_str("Vec"), HowToControlThis::Vec);
}

#[test]
fn from_type_str_classifies_text_as_skip() {
    assert_eq!(HowToControlThis::from_type_str("String"), HowToControlThis::Skip);
}

#[test]
fn from_type_str_defaults_to_lerpify() {
    assert_eq!(HowToControlThis::from_type_str("i64"), HowToControlThis::LerpifyType);
    assert_eq!(HowToControlThis::from_type_str("SomeStruct"), HowToControlThis::LerpifyType);
    assert_eq!(HowToControlThis::from_type_str(""), HowToControlThis::LerpifyType);
}

#[test]
fn recursive_ident_collects_the_chain() {
    let ty = path_with("Vec", path_with("Wrapper", path("u8")));
    let mut acc: Vec<String> = Vec::new();
    recursive_ident_from_path(&ty, &mut acc);
    assert_eq!(acc, vec!["Vec".to_string(), "Wrapper".to_string(), "u8".to_string()]);
}

#[test]
fn ident_from_type_takes_the_head() {
    let ty = path_with("Vec", path("i64"));
    assert_eq!(ident_from_type(&ty), "Vec");
    assert_eq!(ident_from_type(&path("String")), "String");
}

#[test]
fn field_name_comes_back() {
    let f = field(path("i64"));
    assert_eq!(f.name(), "field");
}

#[test]
fn is_skip_only_on_the_skip_string() {
    let mut f = field(path("String"));
    assert!(!f.is_skip());
    f.method = Some("skip".to_string());
    assert!(f.is_skip());
    f.method = Some("my_method".to_string());
    assert!(!f.is_skip());
}

#[test]
fn how_to_control_skip_override_wins() {
    let mut f = field(path("Vec"));
    f.method = Some("skip".to_string());
    assert_eq!(f.how_to_control_this(), HowToControlThis::Skip);
}

#[test]
fn how_to_control_by_type_shape() {
    assert_eq!(field(path("Vec")).how_to_control_this(), HowToControlThis::Vec);
    assert_eq!(field(path("String")).how_to_control_this(), HowToControlThis::Skip);
    assert_eq!(field(path("f32")).how_to_control_this(), HowToControlThis::LerpifyType);
}

#[test]
fn method_override_ambient_by_default() {
    assert_eq!(field(path("i64")).to_method_override(), MethodOverride::Ambient);
}

#[test]
fn method_override_skip_is_ambient() {
    let mut f = field(path("String"));
    f.method = Some("skip".to_string());
    assert_eq!(f.to_method_override(), MethodOverride::Ambient);
}

#[test]
fn method_override_names_the_constructor() {
    let mut f = field(path("i64"));
    f.method = Some("custom_method".to_string());
    assert_eq!(f.to_method_override(), MethodOverride::Constructor("custom_method".to_string()));
}

#[test]
fn resolve_skip_beats_every_override() {
    let mut f = field(path("Vec"));
    f.method = Some("skip".to_string());
    f.func = Some("custom_func".to_string());
    assert_eq!(f.resolve_strategy(), FieldStrategy::Skip);
}

#[test]
fn resolve_func_beats_method() {
    let mut f = field(path("i64"));
    f.func = Some("custom_func".to_string());
    f.method = Some("custom_method".to_string());
    assert_eq!(f.resolve_strategy(), FieldStrategy::CustomFunc("custom_func".to_string()));
}

#[test]
fn resolve_method_beats_type_shape() {
    let mut f = field(path("Vec"));
    f.method = Some("custom_method".to_string());
    assert_eq!(f.resolve_strategy(), FieldStrategy::CustomMethod("custom_method".to_string()));
}

#[test]
fn resolve_sequences_combine() {
    assert_eq!(field(path_with("Vec", path("i64"))).resolve_strategy(), FieldStrategy::CombineSequence);
}

#[test]
fn resolve_everything_else_defaults() {
    assert_eq!(field(path("i64")).resolve_strategy(), FieldStrategy::DefaultBlend);
    assert_eq!(field(path("SomeStruct")).resolve_strategy(), FieldStrategy::DefaultBlend);
}
