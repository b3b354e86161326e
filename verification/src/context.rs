//! The context: the caller's object that every generator is handed.

use vstd::prelude::*;
use rand::rngs::StdRng;
use crate::value::Value;

verus! {

/// What a schema's directives refer to by name. The caller implements it;
/// the engine hands the context on unchanged and never looks inside.
pub trait Context {
    /// Runs the function that a field names as its generator. The function
    /// takes the random source alone: there is no context to consult.
    fn custom_field(name: &str, rng: &mut StdRng) -> Value;

    /// Runs the method of the context that a field names as its generator.
    fn custom_member(&self, name: &str, rng: &mut StdRng) -> Value;

    /// Runs the function that a variant names as its generator.
    fn custom_variant(&self, name: &str, rng: &mut StdRng) -> Value;

    /// Evaluates a weight that is written as an expression.
    fn weight(&self, expr: &str) -> i64;
}

} // verus!
