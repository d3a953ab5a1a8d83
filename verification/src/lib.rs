//! A generic interpolation ("lerp") engine for structured data.
//!
//! Given two snapshots of a value and a progress position between them, the
//! engine produces a third value standing at that point of the transition.
//! Scalars interpolate numerically, non-blendable data snaps atomically at a
//! threshold ("step"), sequences of unequal length reconcile positionally
//! with elements emerging or dissolving, and composite values dispatch
//! field by field under a declarative per-field strategy.

pub mod frac;
pub mod blend;
pub mod composite;
pub mod progress;
pub mod scalars;
pub mod strategy;

pub use frac::Frac;
pub use frac::SCALE;
pub use frac::HALF_SCALE;
pub use progress::IsLerpingMethod;
pub use blend::Lerpable;
pub use blend::step;
pub use blend::lerp;
pub use blend::combine_vecs;
pub use strategy::HowToControlThis;
pub use strategy::StructIdents;
pub use strategy::TypePath;
pub use strategy::MethodOverride;
pub use strategy::FieldStrategy;
pub use strategy::recursive_ident_from_path;
pub use strategy::ident_from_type;
pub use composite::BasicTypes;
pub use composite::BasicTypesWithOverrides;
pub use composite::CustomMethod;
pub use composite::EnumTest;
pub use composite::KvPairs;
pub use composite::SimpleNewtype;
pub use composite::UnLerpableType;
pub use composite::custom_func;
pub use composite::custom_method;
