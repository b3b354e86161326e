//! The weighted variant selector, at compile time: one generator and one
//! weight per variant.

use vstd::prelude::*;
use crate::schema::{Annotation, AnnotationArg, SchemaError, VariantSchema};
use crate::schema::{custom_generator_directive, weight_directive};
use crate::program::{
    EntityName, EntityNameView, VariantGenerator, VariantGeneratorView, Weight, WeightView,
    weight_views,
};
use crate::resolve::{get_attr_value, lookup, Lookup};
use crate::entity::{build_entity_generator, entity_generator};

verus! {

/// The weight that an annotation's argument stands for.
pub open spec fn weight_of_arg(arg: AnnotationArg) -> WeightView {
    match arg {
        AnnotationArg::Integer(n) => WeightView::Literal(n),
        AnnotationArg::Ident(e) => WeightView::Symbolic(e@),
        AnnotationArg::Tokens(e) => WeightView::Symbolic(e@),
    }
}

/// The weight that the annotation at `from`, or the first weight annotation
/// after it, gives; 1 where there is none.
pub open spec fn weight_from(attrs: Seq<Annotation>, from: int) -> WeightView
    decreases attrs.len() - from,
{
    if from < 0 || from >= attrs.len() {
        WeightView::Literal(1)
    } else if attrs[from].is_named(weight_directive()) {
        weight_of_arg(attrs[from].arg)
    } else {
        weight_from(attrs, from + 1)
    }
}

/// The weight of a variant with the annotations `attrs`: that of its first
/// weight annotation, else 1.
pub open spec fn variant_weight(attrs: Seq<Annotation>) -> WeightView {
    weight_from(attrs, 0)
}

/// The weights of `variants`, in declaration order.
pub open spec fn variant_weights(variants: Seq<VariantSchema>) -> Seq<WeightView> {
    variants.map_values(|v: VariantSchema| variant_weight(v.attrs@))
}

fn weight_of(attrs: &Vec<Annotation>) -> (w: Weight)
    ensures
        w@ == variant_weight(attrs@),
{
    let wanted = "weight".to_owned();
    let mut i: usize = 0;
    while i < attrs.len()
        invariant
            i <= attrs.len(),
            wanted@ == weight_directive(),
            variant_weight(attrs@) == weight_from(attrs@, i as int),
        decreases attrs.len() - i,
    {
        let named = match &attrs[i].name {
            Some(n) => *n == wanted,
            None => false,
        };
        if named {
            return match &attrs[i].arg {
                AnnotationArg::Integer(n) => Weight::Literal(*n),
                AnnotationArg::Ident(e) => Weight::Symbolic(e.clone()),
                AnnotationArg::Tokens(e) => Weight::Symbolic(e.clone()),
            };
        }
        i += 1;
    }
    Weight::Literal(1)
}

/// Collects the weight of each variant, in declaration order.
pub fn variant_weights_collector(variants: &Vec<VariantSchema>) -> (r: Vec<Weight>)
    ensures
        weight_views(r@) == variant_weights(variants@),
{
    let mut out: Vec<Weight> = Vec::new();
    let mut i: usize = 0;
    while i < variants.len()
        invariant
            i <= variants.len(),
            out.len() == i,
            forall|k: int| 0 <= k < i ==> (#[trigger] out@[k])@ == variant_weight(variants@[k].attrs@),
        decreases variants.len() - i,
    {
        let w = weight_of(&variants[i].attrs);
        out.push(w);
        i += 1;
    }
    assert(weight_views(out@) =~= variant_weights(variants@));
    out
}

/// The generator of `variant` of the enum `enum_name`: the function that the
/// variant names for itself, else the variant field by field.
pub open spec fn variant_generator_of(enum_name: Seq<char>, variant: VariantSchema) -> Result<
    VariantGeneratorView,
    SchemaError,
> {
    match lookup(variant.attrs@, custom_generator_directive()) {
        Lookup::Found(f) => Ok(VariantGeneratorView::Custom(f)),
        Lookup::Invalid => Err(SchemaError::InvalidOverrideName),
        Lookup::Absent => match entity_generator(
            EntityNameView { ty: enum_name, variant: Some(variant.name@) },
            variant.fields,
        ) {
            Ok(g) => Ok(VariantGeneratorView::Entity(g)),
            Err(e) => Err(e),
        },
    }
}

/// Builds the generator of one variant of the enum `enum_name`.
pub fn variant_generator(enum_name: &String, variant: &VariantSchema) -> (r: Result<
    VariantGenerator,
    SchemaError,
>)
    ensures
        match variant_generator_of(enum_name@, *variant) {
            Ok(g) => r matches Ok(x) && x@ == g,
            Err(e) => r == Err::<VariantGenerator, SchemaError>(e),
        },
{
    match get_attr_value(&variant.attrs, "custom_rand") {
        Err(e) => Err(e),
        Ok(Some(f)) => Ok(VariantGenerator::Custom(f)),
        Ok(None) => {
            let entity = EntityName { ty: enum_name.clone(), variant: Some(variant.name.clone()) };
            match build_entity_generator(entity, &variant.fields) {
                Ok(g) => Ok(VariantGenerator::Entity(g)),
                Err(e) => Err(e),
            }
        },
    }
}

} // verus!
