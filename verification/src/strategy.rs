//! The per-field strategy resolver.
//!
//! Each field of a composite type is assigned exactly one blending strategy
//! from its declared type and its optional overrides, before any blending
//! runs.  The rules live here on plain values: a field's declared type is
//! modelled as a [`TypePath`] (its head identifier plus the first generic
//! argument, recursively), and its configuration as the optional `method` /
//! `func` override strings.  Resolution precedence: an explicit skip wins,
//! then a custom function, then a custom method constructor, then the shape
//! of the declared type (sequence types route to the positional
//! combination algorithm, everything else to the value's own blend).
//!
//! A field is marked skip by the override string `"skip"`; any other
//! `method` string names a constructor for a substituted progress method.

use vstd::prelude::*;

verus! {

/// Equality of two string slices, by their character sequences.
fn str_eq(a: &str, b: &str) -> (r: bool)
    ensures
        r == (a@ == b@),
{
    let owned_a: String = a.to_owned();
    let owned_b: String = b.to_owned();
    owned_a == owned_b
}

/// How a field of a composite type is driven through a transition, as the
/// shape-derived classification: left alone (skip), combined as a
/// sequence, or blended through its own capability.
#[derive(Clone, Debug, PartialEq, Eq, Structural)]
pub enum HowToControlThis {
    /// Return the old value until the step threshold, then the new one.
    Skip,
    /// Combine positionally through the sequence algorithm.
    Vec,
    /// Call the value's own blend capability.
    LerpifyType,
}

/// The classification a declared type's head identifier earns: sequence
/// types combine, text snaps, everything else blends through its own
/// capability.
pub open spec fn spec_from_type_str(s: Seq<char>) -> HowToControlThis {
    if s == "Vec"@ {
        HowToControlThis::Vec
    } else if s == "String"@ {
        HowToControlThis::Skip
    } else {
        HowToControlThis::LerpifyType
    }
}

impl HowToControlThis {
    /// Classify a declared type by its head identifier.
    pub fn from_type_str(value: &str) -> (r: HowToControlThis)
        ensures
            r == spec_from_type_str(value@),
    {
        if str_eq(value, "Vec") {
            HowToControlThis::Vec
        } else if str_eq(value, "String") {
            HowToControlThis::Skip
        } else {
            HowToControlThis::LerpifyType
        }
    }
}

/// A declared type, reduced to what strategy resolution reads: the head
/// identifier of its path's last segment, and the first generic type
/// argument, itself so reduced, if there is one.
pub struct TypePath {
    /// The head identifier (for `Vec<Thing>`, the text `Vec`).
    pub ident: String,
    /// The first generic type argument (for `Vec<Thing>`, `Thing`).
    pub argument: Option<Box<TypePath>>,
}

impl TypePath {
    /// The identifiers of the type, head first, through the chain of first
    /// generic arguments: `Vec<Wrapper<u8>>` yields `Vec`, `Wrapper`, `u8`.
    pub open spec fn ident_chain(self) -> Seq<Seq<char>>
        decreases self,
    {
        match self.argument {
            Some(inner) => seq![self.ident@] + inner.ident_chain(),
            None => seq![self.ident@],
        }
    }
}

/// Collect the identifiers of a declared type into `acc`, head first,
/// recursing through the chain of first generic arguments.
pub fn recursive_ident_from_path(t: &TypePath, acc: &mut Vec<String>)
    ensures
        final(acc).deep_view() == old(acc).deep_view() + t.ident_chain(),
    decreases *t,
{
    acc.push(t.ident.clone());
    match &t.argument {
        Some(inner) => {
            recursive_ident_from_path(inner, acc);
        },
        None => {
            proof {
                assert(final(acc).deep_view() =~= old(acc).deep_view() + t.ident_chain());
            }
        },
    }
    proof {
        assert(final(acc).deep_view() =~= old(acc).deep_view() + t.ident_chain());
    }
}

/// The head identifier of a declared type: the first entry of its
/// identifier chain.
pub fn ident_from_type(t: &TypePath) -> (r: String)
    ensures
        r@ == t.ident_chain()[0],
{
    let mut acc: Vec<String> = Vec::new();
    recursive_ident_from_path(t, &mut acc);
    // the chain always has at least its head
    acc[0].clone()
}

/// Which progress method drives a field's blend: the ambient one handed to
/// the enclosing blend call, or a fresh instance from a named constructor,
/// refreshed to the ambient fraction before use.
#[derive(Debug, PartialEq, Eq)]
pub enum MethodOverride {
    /// Use the ambient method unchanged.
    Ambient,
    /// Build a fresh method with the named constructor, then carry the
    /// ambient fraction into it through `with_lerp_pct`.
    Constructor(String),
}

/// The strategy a field resolves to, in falling precedence: skip, custom
/// function, custom method, and otherwise by the declared type's shape.
#[derive(Debug, PartialEq, Eq)]
pub enum FieldStrategy {
    /// Non-blendable: the whole field snaps at the step threshold.
    Skip,
    /// The named caller-supplied function blends the field directly,
    /// bypassing its own capability.
    CustomFunc(String),
    /// The field blends through its own capability, driven by a method from
    /// the named constructor instead of the ambient one.
    CustomMethod(String),
    /// A sequence-typed field: combine positionally, elements emerging and
    /// dissolving.
    CombineSequence,
    /// The field's own blend capability under the ambient method.
    DefaultBlend,
}

/// A field of a composite type as the strategy resolver sees it: its name
/// (absent for the single field of a tuple struct), its declared type, and
/// its optional override strings.
pub struct StructIdents {
    /// The field's name, if it has one.
    pub ident: Option<String>,
    /// The field's declared type.
    pub ty: TypePath,
    /// The method override: `"skip"` marks the field skip, any other string
    /// names a progress-method constructor.
    pub method: Option<String>,
    /// The function override: names a blend function that replaces the
    /// field's own capability.
    pub func: Option<String>,
}

/// Whether a field is marked skip: its method override is the string
/// `"skip"`.
pub open spec fn spec_is_skip(cfg: StructIdents) -> bool {
    match cfg.method {
        Some(m) => m@ == "skip"@,
        None => false,
    }
}

/// The method override a field's configuration asks for: a constructor name
/// unless the field is skip or has no override.
pub open spec fn spec_method_override(cfg: StructIdents) -> MethodOverride {
    match cfg.method {
        Some(m) => if m@ == "skip"@ {
            MethodOverride::Ambient
        } else {
            MethodOverride::Constructor(m)
        },
        None => MethodOverride::Ambient,
    }
}

/// The strategy a field resolves to, in the documented precedence.
pub open spec fn spec_resolve_strategy(cfg: StructIdents) -> FieldStrategy {
    if spec_is_skip(cfg) {
        FieldStrategy::Skip
    } else if cfg.func is Some {
        FieldStrategy::CustomFunc(cfg.func->0)
    } else if cfg.method is Some {
        FieldStrategy::CustomMethod(cfg.method->0)
    } else if cfg.ty.ident@ == "Vec"@ {
        FieldStrategy::CombineSequence
    } else {
        FieldStrategy::DefaultBlend
    }
}

impl StructIdents {
    /// The field's name.  Asking for the name of an unnamed field is a
    /// defect in the caller, so a name is required to be present.
    pub fn name(&self) -> (r: String)
        requires
            self.ident is Some,
        ensures
            r == self.ident->0,
    {
        match &self.ident {
            Some(n) => n.clone(),
            None => unreached(),
        }
    }

    /// Whether this field is marked skip.
    pub fn is_skip(&self) -> (r: bool)
        ensures
            r == spec_is_skip(*self),
    {
        match &self.method {
            Some(m) => str_eq(m.as_str(), "skip"),
            None => false,
        }
    }

    /// The shape-derived classification of this field: skip if marked so,
    /// otherwise by the head identifier of its declared type.
    pub fn how_to_control_this(&self) -> (r: HowToControlThis)
        ensures
            r == if spec_is_skip(*self) {
                HowToControlThis::Skip
            } else {
                spec_from_type_str(self.ty.ident@)
            },
    {
        if self.is_skip() {
            HowToControlThis::Skip
        } else {
            let type_ident = ident_from_type(&self.ty);
            HowToControlThis::from_type_str(type_ident.as_str())
        }
    }

    /// Which progress method drives this field's blend.
    pub fn to_method_override(&self) -> (r: MethodOverride)
        ensures
            r == spec_method_override(*self),
    {
        if self.is_skip() {
            MethodOverride::Ambient
        } else {
            match &self.method {
                Some(m) => MethodOverride::Constructor(m.clone()),
                None => MethodOverride::Ambient,
            }
        }
    }

    /// The strategy this field resolves to, under the precedence the module
    /// documentation states.
    pub fn resolve_strategy(&self) -> (r: FieldStrategy)
        ensures
            r == spec_resolve_strategy(*self),
    {
        if self.is_skip() {
            FieldStrategy::Skip
        } else if let Some(f) = &self.func {
            FieldStrategy::CustomFunc(f.clone())
        } else if let Some(m) = &self.method {
            FieldStrategy::CustomMethod(m.clone())
        } else {
            let type_ident = ident_from_type(&self.ty);
            if str_eq(type_ident.as_str(), "Vec") {
                FieldStrategy::CombineSequence
            } else {
                FieldStrategy::DefaultBlend
            }
        }
    }
}

} // verus!
