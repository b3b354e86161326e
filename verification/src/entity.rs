//! The entity generator builder: one generator per struct or variant.

use vstd::prelude::*;
use crate::schema::{FieldList, FieldSchema, NamedField, SchemaError};
use crate::program::{
    EntityFields, EntityFieldsView, EntityGenerator, EntityGeneratorView, EntityName,
    EntityNameView, FieldGenerator, FieldGeneratorView, NamedGenerator, NamedGeneratorView,
    field_views, named_views,
};
use crate::resolve::{field_generator, get_field_generator};
use crate::collect::{all_or_first_error, lemma_error_stays};

verus! {

/// What each field of `fields` resolves to, in declaration order.
pub open spec fn field_results(fields: Seq<FieldSchema>) -> Seq<
    Result<FieldGeneratorView, SchemaError>,
> {
    fields.map_values(|f: FieldSchema| field_generator(f))
}

/// What each field of a record resolves to, under its identifier, in
/// declaration order.
pub open spec fn named_results(fields: Seq<NamedField>) -> Seq<
    Result<NamedGeneratorView, SchemaError>,
> {
    fields.map_values(
        |f: NamedField|
            match field_generator(f.field) {
                Ok(g) => Ok(NamedGeneratorView { ident: f.ident@, generator: g }),
                Err(e) => Err(e),
            },
    )
}

/// The generators of `fields`, in declaration order; the error of the first
/// field that has none.
pub open spec fn positional_generators(fields: Seq<FieldSchema>) -> Result<
    Seq<FieldGeneratorView>,
    SchemaError,
> {
    all_or_first_error(field_results(fields))
}

/// The generators of the fields of a record, each under its identifier, in
/// declaration order; the error of the first field that has none.
pub open spec fn named_generators(fields: Seq<NamedField>) -> Result<
    Seq<NamedGeneratorView>,
    SchemaError,
> {
    all_or_first_error(named_results(fields))
}

/// The field generators of an entity with the fields `fields`.
pub open spec fn entity_fields(fields: FieldList) -> Result<EntityFieldsView, SchemaError> {
    match fields {
        FieldList::Unit => Ok(EntityFieldsView::Unit),
        FieldList::Positional(fs) => match positional_generators(fs@) {
            Ok(gs) => Ok(EntityFieldsView::Positional(gs)),
            Err(e) => Err(e),
        },
        FieldList::Named(fs) => match named_generators(fs@) {
            Ok(gs) => Ok(EntityFieldsView::Named(gs)),
            Err(e) => Err(e),
        },
    }
}

/// The generator that constructs the entity `entity` from `fields`.
pub open spec fn entity_generator(entity: EntityNameView, fields: FieldList) -> Result<
    EntityGeneratorView,
    SchemaError,
> {
    match entity_fields(fields) {
        Ok(fs) => Ok(EntityGeneratorView { entity, fields: fs }),
        Err(e) => Err(e),
    }
}

fn build_positional(fields: &Vec<FieldSchema>) -> (r: Result<Vec<FieldGenerator>, SchemaError>)
    ensures
        match positional_generators(fields@) {
            Ok(gs) => r matches Ok(out) && field_views(out@) == gs,
            Err(e) => r == Err::<Vec<FieldGenerator>, SchemaError>(e),
        },
{
    let mut out: Vec<FieldGenerator> = Vec::new();
    let mut i: usize = 0;
    let ghost results = field_results(fields@);
    assert(results.take(0) =~= Seq::empty());
    assert(field_views(out@) =~= Seq::<FieldGeneratorView>::empty());
    while i < fields.len()
        invariant
            i <= fields.len(),
            results == field_results(fields@),
            all_or_first_error(results.take(i as int)) == Ok::<Seq<FieldGeneratorView>, SchemaError>(
                field_views(out@),
            ),
        decreases fields.len() - i,
    {
        assert(results.take(i + 1).drop_last() =~= results.take(i as int));
        assert(results.take(i + 1).last() == field_generator(fields@[i as int]));
        let ghost before = field_views(out@);
        match get_field_generator(&fields[i]) {
            Err(e) => {
                proof {
                    lemma_error_stays(results, i + 1);
                }
                return Err(e);
            },
            Ok(g) => {
                out.push(g);
                assert(field_views(out@) =~= before.push(g@));
            },
        }
        i += 1;
    }
    assert(results.take(fields.len() as int) =~= results);
    Ok(out)
}

fn build_named(fields: &Vec<NamedField>) -> (r: Result<Vec<NamedGenerator>, SchemaError>)
    ensures
        match named_generators(fields@) {
            Ok(gs) => r matches Ok(out) && named_views(out@) == gs,
            Err(e) => r == Err::<Vec<NamedGenerator>, SchemaError>(e),
        },
{
    let mut out: Vec<NamedGenerator> = Vec::new();
    let mut i: usize = 0;
    let ghost results = named_results(fields@);
    assert(results.take(0) =~= Seq::empty());
    assert(named_views(out@) =~= Seq::<NamedGeneratorView>::empty());
    while i < fields.len()
        invariant
            i <= fields.len(),
            results == named_results(fields@),
            all_or_first_error(results.take(i as int)) == Ok::<Seq<NamedGeneratorView>, SchemaError>(
                named_views(out@),
            ),
        decreases fields.len() - i,
    {
        assert(results.take(i + 1).drop_last() =~= results.take(i as int));
        assert(results.take(i + 1).last() == results[i as int]);
        let ghost before = named_views(out@);
        match get_field_generator(&fields[i].field) {
            Err(e) => {
                proof {
                    lemma_error_stays(results, i + 1);
                }
                return Err(e);
            },
            Ok(g) => {
                let slot = NamedGenerator { ident: fields[i].ident.clone(), generator: g };
                out.push(slot);
                assert(named_views(out@) =~= before.push(slot@));
            },
        }
        i += 1;
    }
    assert(results.take(fields.len() as int) =~= results);
    Ok(out)
}

/// Builds the generator that constructs `entity_name` by running the
/// generator of each field in declaration order.
pub fn build_entity_generator(entity_name: EntityName, fields: &FieldList) -> (r: Result<
    EntityGenerator,
    SchemaError,
>)
    ensures
        match entity_generator(entity_name@, *fields) {
            Ok(g) => r matches Ok(x) && x@ == g,
            Err(e) => r == Err::<EntityGenerator, SchemaError>(e),
        },
{
    let built = match fields {
        FieldList::Unit => EntityFields::Unit,
        FieldList::Positional(fs) => match build_positional(fs) {
            Ok(gs) => EntityFields::Positional(gs),
            Err(e) => {
                return Err(e);
            },
        },
        FieldList::Named(fs) => match build_named(fs) {
            Ok(gs) => EntityFields::Named(gs),
            Err(e) => {
                return Err(e);
            },
        },
    };
    Ok(EntityGenerator { entity: entity_name, fields: built })
}

} // verus!
