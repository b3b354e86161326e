//! Compiles declarative type schemas into generator programs and runs them.
//!
//! A schema describes a struct or an enum together with the annotations on
//! its fields and variants. Compilation resolves, for every field and every
//! variant, which generation strategy applies, and yields a program: a small
//! tree that can be inspected, rendered, or evaluated against a caller's
//! context and a random source.

pub mod schema;
pub mod program;
pub mod collect;
pub mod resolve;
pub mod entity;
pub mod variant;
pub mod compile;
pub mod sampler;
pub mod selector;
pub mod value;
pub mod context;
pub mod registry;
pub mod generate;

pub use crate::compile::{
    expand_derive_rand, expand_derive_rand_enum, expand_derive_rand_struct,
    expand_derive_rand_union,
};
pub use crate::generate::{
    assemble_entity, generate_primitive, resolve_weights, GenerationError,
};
pub use crate::registry::Registry;
pub use crate::sampler::Rand;
pub use crate::selector::{select_variant, WeightError};
pub use crate::entity::build_entity_generator;
pub use crate::variant::{variant_generator, variant_weights_collector};
pub use crate::resolve::{get_attr_value, get_context_type, get_field_generator};
