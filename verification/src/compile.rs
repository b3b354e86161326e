//! The schema compiler: from one type definition to its generator program.

use vstd::prelude::*;
use crate::schema::{FieldList, SchemaError, TypeData, TypeSchema, VariantSchema};
use crate::schema::context_directive;
use crate::program::{
    EntityName, EntityNameView, GeneratorProgram, GeneratorProgramView, ProgramBody,
    ProgramBodyView, VariantGenerator, VariantGeneratorView, WeightedChoice,
    WeightedChoiceView, variant_views,
};
use crate::resolve::{context_type, get_context_type};
use crate::collect::{all_or_first_error, lemma_error_stays};
use crate::entity::{build_entity_generator, entity_generator};
use crate::variant::{
    variant_generator, variant_generator_of, variant_weights, variant_weights_collector,
};

verus! {

/// The program of the struct `name` with the fields `fields`.
pub open spec fn compile_struct(name: Seq<char>, context: Seq<char>, fields: FieldList) -> Result<
    GeneratorProgramView,
    SchemaError,
> {
    match entity_generator(EntityNameView { ty: name, variant: None }, fields) {
        Ok(g) => Ok(GeneratorProgramView { ty: name, context, body: ProgramBodyView::Struct(g) }),
        Err(e) => Err(e),
    }
}

/// What each variant of the enum `name` compiles to, in declaration order.
pub open spec fn variant_results(name: Seq<char>, variants: Seq<VariantSchema>) -> Seq<
    Result<VariantGeneratorView, SchemaError>,
> {
    variants.map_values(|v: VariantSchema| variant_generator_of(name, v))
}

/// The program of the enum `name` with the variants `variants`: none where
/// there is no variant.
pub open spec fn compile_enum(
    name: Seq<char>,
    context: Seq<char>,
    variants: Seq<VariantSchema>,
) -> Result<GeneratorProgramView, SchemaError> {
    if variants.len() == 0 {
        Err(SchemaError::EmptyEnum)
    } else {
        match all_or_first_error(variant_results(name, variants)) {
            Ok(gs) => Ok(
                GeneratorProgramView {
                    ty: name,
                    context,
                    body: ProgramBodyView::Enum(
                        WeightedChoiceView { variants: gs, weights: variant_weights(variants) },
                    ),
                },
            ),
            Err(e) => Err(e),
        }
    }
}

/// The program that `schema` compiles to, or why it has none. A union has
/// none, whatever else it holds. The context type is the one that the first
/// context annotation with an identifier names.
pub open spec fn compile(schema: TypeSchema) -> Result<GeneratorProgramView, SchemaError> {
    match schema.data {
        TypeData::Union => Err(SchemaError::UnionNotSupported),
        TypeData::Struct(fields) => match context_type(schema.attrs@, context_directive()) {
            Err(e) => Err(e),
            Ok(context) => compile_struct(schema.name@, context, fields),
        },
        TypeData::Enum(variants) => match context_type(schema.attrs@, context_directive()) {
            Err(e) => Err(e),
            Ok(context) => compile_enum(schema.name@, context, variants@),
        },
    }
}

/// Compiles a struct: its entry point runs the generator of the struct
/// itself.
pub fn expand_derive_rand_struct(
    struct_name: &String,
    usr_type_name: &String,
    fields: &FieldList,
) -> (r: Result<GeneratorProgram, SchemaError>)
    ensures
        match compile_struct(struct_name@, usr_type_name@, *fields) {
            Ok(p) => r matches Ok(x) && x@ == p,
            Err(e) => r == Err::<GeneratorProgram, SchemaError>(e),
        },
{
    let entity = EntityName { ty: struct_name.clone(), variant: None };
    match build_entity_generator(entity, fields) {
        Ok(g) => Ok(
            GeneratorProgram {
                ty: struct_name.clone(),
                context: usr_type_name.clone(),
                body: ProgramBody::Struct(g),
            },
        ),
        Err(e) => Err(e),
    }
}

/// Compiles an enum: its entry point picks one variant by weight and runs
/// that variant's generator. An enum without variants is refused.
pub fn expand_derive_rand_enum(
    enum_name: &String,
    usr_type_name: &String,
    variants: &Vec<VariantSchema>,
) -> (r: Result<GeneratorProgram, SchemaError>)
    ensures
        match compile_enum(enum_name@, usr_type_name@, variants@) {
            Ok(p) => r matches Ok(x) && x@ == p && x@.well_formed(),
            Err(e) => r == Err::<GeneratorProgram, SchemaError>(e),
        },
        variants.len() == 0 ==> r == Err::<GeneratorProgram, SchemaError>(SchemaError::EmptyEnum),
{
    if variants.len() == 0 {
        return Err(SchemaError::EmptyEnum);
    }
    let mut generators: Vec<VariantGenerator> = Vec::new();
    let mut i: usize = 0;
    let ghost results = variant_results(enum_name@, variants@);
    assert(results.take(0) =~= Seq::empty());
    assert(variant_views(generators@) =~= Seq::<
        VariantGeneratorView,
    >::empty());
    while i < variants.len()
        invariant
            i <= variants.len(),
            generators.len() == i,
            results == variant_results(enum_name@, variants@),
            all_or_first_error(results.take(i as int)) == Ok::<
                Seq<VariantGeneratorView>,
                SchemaError,
            >(variant_views(generators@)),
        decreases variants.len() - i,
    {
        assert(results.take(i + 1).drop_last() =~= results.take(i as int));
        assert(results.take(i + 1).last() == results[i as int]);
        let ghost before = variant_views(generators@);
        match variant_generator(enum_name, &variants[i]) {
            Err(e) => {
                proof {
                    lemma_error_stays(results, i + 1);
                }
                return Err(e);
            },
            Ok(g) => {
                generators.push(g);
                assert(variant_views(generators@) =~= before.push(g@));
            },
        }
        i += 1;
    }
    assert(results.take(variants.len() as int) =~= results);
    let weights = variant_weights_collector(variants);
    Ok(
        GeneratorProgram {
            ty: enum_name.clone(),
            context: usr_type_name.clone(),
            body: ProgramBody::Enum(WeightedChoice { variants: generators, weights }),
        },
    )
}

/// Refuses a union: it has no generator.
pub fn expand_derive_rand_union() -> (r: Result<GeneratorProgram, SchemaError>)
    ensures
        r == Err::<GeneratorProgram, SchemaError>(SchemaError::UnionNotSupported),
{
    Err(SchemaError::UnionNotSupported)
}

/// Compiles one type definition into its generator program.
///
/// A union is refused, and so is an enum without variants: neither has a
/// program. So is a type that does not name its context type, and one in
/// which an override that is consulted names no identifier.
pub fn expand_derive_rand(input: &TypeSchema) -> (r: Result<GeneratorProgram, SchemaError>)
    ensures
        match compile(*input) {
            Ok(p) => r matches Ok(x) && x@ == p && x@.well_formed(),
            Err(e) => r == Err::<GeneratorProgram, SchemaError>(e),
        },
        input.data is Union ==> r == Err::<GeneratorProgram, SchemaError>(
            SchemaError::UnionNotSupported,
        ),
        input.data matches TypeData::Enum(variants) && variants.len() == 0 ==> r is Err,
{
    if let TypeData::Union = input.data {
        return expand_derive_rand_union();
    }
    let usr_type = match get_context_type(&input.attrs, "usr") {
        Err(e) => {
            return Err(e);
        },
        Ok(c) => c,
    };
    match &input.data {
        TypeData::Struct(fields) => expand_derive_rand_struct(&input.name, &usr_type, fields),
        TypeData::Enum(variants) => expand_derive_rand_enum(&input.name, &usr_type, variants),
        TypeData::Union => expand_derive_rand_union(),
    }
}

} // verus!
