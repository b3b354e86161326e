//! The evaluator: runs a registered program against a context and a random
//! source, and returns one instance.

use vstd::prelude::*;
use rand::rngs::StdRng;
use crate::context::Context;
use crate::program::{
    EntityFields, EntityFieldsView, EntityGenerator, EntityGeneratorView, EntityName,
    FieldGenerator, FieldGeneratorView, GeneratorProgram, GeneratorProgramView, NamedGenerator,
    NamedGeneratorView, PrimitiveType, ProgramBody, ProgramBodyView, VariantGenerator,
    VariantGeneratorView, Weight, WeightView, named_views, variant_views, weight_views,
};
use crate::registry::{
    Registry, entity_resolves, field_resolves, find_before, linked, position, program_resolves,
    program_views, variant_resolves,
};
use crate::sampler::Rand;
use crate::selector::{select_variant, weight_error, WeightError};
use crate::value::{NamedValue, Value, ValueFields};

verus! {

/// Why no value was generated.
#[derive(Debug, Clone, Copy, PartialEq, Eq, Structural)]
pub enum GenerationError {
    /// No program is registered for the type that was asked for.
    UnknownType,
    /// The weights of an enum have no distribution.
    Weights(WeightError),
    /// The type is no enum, or it has no variant at the place asked for.
    NoSuchVariant,
}

/// Whether `v` is a value that the field generator `g` can produce, where
/// `g` stands in a program that refers to the first `rank` of `programs`.
/// A function or a method that the schema names may return any value.
pub open spec fn field_fits(
    programs: Seq<GeneratorProgramView>,
    rank: int,
    g: FieldGeneratorView,
    v: Value,
) -> bool
    decreases rank, 0int,
{
    match g {
        FieldGeneratorView::Literal(_) => true,
        FieldGeneratorView::ContextMember(_) => true,
        FieldGeneratorView::Primitive(p) => v.primitive_type() == Some(p),
        FieldGeneratorView::Recursive(ty) => 0 <= rank <= programs.len() && match position(
            programs.take(rank),
            ty,
        ) {
            Some(k) => 0 <= k < rank && program_fits(programs, k, v),
            None => false,
        },
    }
}

/// Whether `vs` holds, place by place, a value that the generator at that
/// place of `gs` can produce.
pub open spec fn fields_fit(
    programs: Seq<GeneratorProgramView>,
    rank: int,
    gs: Seq<FieldGeneratorView>,
    vs: Seq<Value>,
) -> bool
    decreases rank, 1int,
{
    &&& vs.len() == gs.len()
    &&& forall|i: int| 0 <= i < gs.len() ==> field_fits(programs, rank, gs[i], #[trigger] vs[i])
}

/// Whether `vs` holds, place by place, the identifier of the generator at
/// that place of `gs` and a value that it can produce.
pub open spec fn named_fit(
    programs: Seq<GeneratorProgramView>,
    rank: int,
    gs: Seq<NamedGeneratorView>,
    vs: Seq<NamedValue>,
) -> bool
    decreases rank, 1int,
{
    &&& vs.len() == gs.len()
    &&& forall|i: int|
        0 <= i < gs.len() ==> (#[trigger] vs[i]).ident@ == gs[i].ident && field_fits(
            programs,
            rank,
            gs[i].generator,
            vs[i].value,
        )
}

/// Whether `v` is the entity of `e` with a value for each field, in
/// declaration order, that the field's generator can produce.
pub open spec fn entity_fits(
    programs: Seq<GeneratorProgramView>,
    rank: int,
    e: EntityGeneratorView,
    v: Value,
) -> bool
    decreases rank, 2int,
{
    match v {
        Value::Entity { entity, fields } => entity@ == e.entity && match (e.fields, fields) {
            (EntityFieldsView::Unit, ValueFields::Unit) => true,
            (EntityFieldsView::Positional(gs), ValueFields::Positional(vs)) => fields_fit(
                programs,
                rank,
                gs,
                vs@,
            ),
            (EntityFieldsView::Named(gs), ValueFields::Named(vs)) => named_fit(
                programs,
                rank,
                gs,
                vs@,
            ),
            _ => false,
        },
        _ => false,
    }
}

/// Whether `v` is a value that the variant generator `g` can produce.
pub open spec fn variant_fits(
    programs: Seq<GeneratorProgramView>,
    rank: int,
    g: VariantGeneratorView,
    v: Value,
) -> bool
    decreases rank, 3int,
{
    match g {
        VariantGeneratorView::Custom(_) => true,
        VariantGeneratorView::Entity(e) => entity_fits(programs, rank, e, v),
    }
}

/// Whether `v` is a value that the program at place `j` can produce: for a
/// struct the struct itself, for an enum one of its variants, and never a
/// variant whose weight is a number that is not positive.
pub open spec fn program_fits(programs: Seq<GeneratorProgramView>, j: int, v: Value) -> bool
    decreases j, 4int,
{
    0 <= j < programs.len() && match programs[j].body {
        ProgramBodyView::Struct(e) => entity_fits(programs, j, e, v),
        ProgramBodyView::Enum(c) => exists|i: int|
            0 <= i < c.variants.len() && !(c.weights[i] matches WeightView::Literal(w) && w <= 0)
                && variant_fits(programs, j, #[trigger] c.variants[i], v),
    }
}

/// Whether every weight is a number.
pub open spec fn all_literal(weights: Seq<WeightView>) -> bool {
    forall|i: int| 0 <= i < weights.len() ==> #[trigger] weights[i] is Literal
}

/// The numbers that the weights are, with 0 for one that is an expression.
pub open spec fn literal_values(weights: Seq<WeightView>) -> Seq<i64> {
    Seq::new(
        weights.len(),
        |i: int|
            match weights[i] {
                WeightView::Literal(n) => n,
                WeightView::Symbolic(_) => 0,
            },
    )
}

/// Whether `values` holds, for each weight that is a number, that number.
pub open spec fn agrees(weights: Seq<WeightView>, values: Seq<i64>) -> bool {
    &&& values.len() == weights.len()
    &&& forall|i: int|
        0 <= i < weights.len() ==> ((#[trigger] weights[i]) matches WeightView::Literal(n)
            ==> values[i] == n)
}

/// Whether the field generator `g` cannot fail.
pub open spec fn field_infallible(
    programs: Seq<GeneratorProgramView>,
    rank: int,
    g: FieldGeneratorView,
) -> bool
    decreases rank, 0int,
{
    match g {
        FieldGeneratorView::Recursive(ty) => 0 <= rank <= programs.len() && match position(
            programs.take(rank),
            ty,
        ) {
            Some(k) => 0 <= k < rank && program_infallible(programs, k),
            None => false,
        },
        _ => true,
    }
}

/// Whether no field generator of `e` can fail.
pub open spec fn entity_infallible(
    programs: Seq<GeneratorProgramView>,
    rank: int,
    e: EntityGeneratorView,
) -> bool
    decreases rank, 1int,
{
    match e.fields {
        EntityFieldsView::Unit => true,
        EntityFieldsView::Positional(gs) => forall|i: int|
            0 <= i < gs.len() ==> field_infallible(programs, rank, #[trigger] gs[i]),
        EntityFieldsView::Named(gs) => forall|i: int|
            0 <= i < gs.len() ==> field_infallible(programs, rank, (#[trigger] gs[i]).generator),
    }
}

/// Whether the variant generator `g` cannot fail.
pub open spec fn variant_infallible(
    programs: Seq<GeneratorProgramView>,
    rank: int,
    g: VariantGeneratorView,
) -> bool
    decreases rank, 2int,
{
    match g {
        VariantGeneratorView::Custom(_) => true,
        VariantGeneratorView::Entity(e) => entity_infallible(programs, rank, e),
    }
}

/// Whether the program at place `j` cannot fail: wherever it picks a
/// variant, here or in a program that it refers to, each weight is a number
/// and the weights have a distribution.
pub open spec fn program_infallible(programs: Seq<GeneratorProgramView>, j: int) -> bool
    decreases j, 3int,
{
    0 <= j < programs.len() && match programs[j].body {
        ProgramBodyView::Struct(e) => entity_infallible(programs, j, e),
        ProgramBodyView::Enum(c) => all_literal(c.weights) && weight_error(
            literal_values(c.weights),
        ) is None && forall|i: int|
            0 <= i < c.variants.len() ==> variant_infallible(programs, j, #[trigger] c.variants[i]),
    }
}

/// Whether the program at place `j` picks a variant by weights that are
/// numbers and have no distribution, and why they have none.
pub open spec fn weights_refused(programs: Seq<GeneratorProgramView>, j: int) -> Option<WeightError> {
    if 0 <= j < programs.len() {
        match programs[j].body {
            ProgramBodyView::Enum(c) => if all_literal(c.weights) {
                weight_error(literal_values(c.weights))
            } else {
                None
            },
            _ => None,
        }
    } else {
        None
    }
}

/// Evaluates the weights: a number is itself, an expression is what the
/// context makes of it.
pub fn resolve_weights<C: Context>(weights: &Vec<Weight>, usr: &C) -> (r: Vec<i64>)
    ensures
        agrees(weight_views(weights@), r@),
{
    let ghost views = weight_views(weights@);
    let mut out: Vec<i64> = Vec::new();
    let mut i: usize = 0;
    while i < weights.len()
        invariant
            i <= weights.len(),
            out.len() == i,
            views == weight_views(weights@),
            forall|k: int|
                0 <= k < i ==> ((#[trigger] views[k]) matches WeightView::Literal(n) ==> out@[k]
                    == n),
        decreases weights.len() - i,
    {
        assert(views[i as int] == weights@[i as int]@);
        let value = match &weights[i] {
            Weight::Literal(n) => *n,
            Weight::Symbolic(e) => usr.weight(e.as_str()),
        };
        out.push(value);
        i += 1;
    }
    out
}

/// Draws one value of the scalar type `p` from the type's default
/// distribution.
pub fn generate_primitive<C: Context>(p: PrimitiveType, usr: &C, rng: &mut StdRng) -> (v: Value)
    ensures
        v.primitive_type() == Some(p),
{
    match p {
        PrimitiveType::Bool => Value::Bool(<bool as Rand<C>>::rand(usr, rng)),
        PrimitiveType::U8 => Value::U8(<u8 as Rand<C>>::rand(usr, rng)),
        PrimitiveType::U16 => Value::U16(<u16 as Rand<C>>::rand(usr, rng)),
        PrimitiveType::U32 => Value::U32(<u32 as Rand<C>>::rand(usr, rng)),
        PrimitiveType::U64 => Value::U64(<u64 as Rand<C>>::rand(usr, rng)),
        PrimitiveType::I8 => Value::I8(<i8 as Rand<C>>::rand(usr, rng)),
        PrimitiveType::I16 => Value::I16(<i16 as Rand<C>>::rand(usr, rng)),
        PrimitiveType::I32 => Value::I32(<i32 as Rand<C>>::rand(usr, rng)),
        PrimitiveType::I64 => Value::I64(<i64 as Rand<C>>::rand(usr, rng)),
        PrimitiveType::U128 => Value::U128(<u128 as Rand<C>>::rand(usr, rng)),
        PrimitiveType::Usize => Value::Usize(<usize as Rand<C>>::rand(usr, rng)),
        PrimitiveType::I128 => Value::I128(<i128 as Rand<C>>::rand(usr, rng)),
        PrimitiveType::Isize => Value::Isize(<isize as Rand<C>>::rand(usr, rng)),
        PrimitiveType::Char => Value::Char(<char as Rand<C>>::rand(usr, rng)),
    }
}

fn generate_field<C: Context>(
    programs: &Vec<GeneratorProgram>,
    rank: usize,
    g: &FieldGenerator,
    usr: &C,
    rng: &mut StdRng,
) -> (r: Result<Value, WeightError>)
    requires
        linked(program_views(programs@)),
        rank <= programs.len(),
        field_resolves(program_views(programs@).take(rank as int), g@),
    ensures
        r matches Ok(v) ==> field_fits(program_views(programs@), rank as int, g@, v),
        field_infallible(program_views(programs@), rank as int, g@) ==> r is Ok,
    decreases rank, 0int,
{
    match g {
        FieldGenerator::Literal(f) => Ok(C::custom_field(f.as_str(), rng)),
        FieldGenerator::ContextMember(m) => Ok(usr.custom_member(m.as_str(), rng)),
        FieldGenerator::Primitive(p) => Ok(generate_primitive(*p, usr, rng)),
        FieldGenerator::Recursive(ty) => {
            match find_before(programs, ty, rank) {
                Some(k) => generate_program(programs, k, usr, rng),
                None => {
                    // A field that resolves has its type among the programs before it.
                    assert(false);
                    Err(WeightError::NoItem)
                },
            }
        },
    }
}

/// The field generators of an entity, in declaration order.
pub open spec fn field_generators(fields: EntityFieldsView) -> Seq<FieldGeneratorView> {
    match fields {
        EntityFieldsView::Unit => Seq::empty(),
        EntityFieldsView::Positional(gs) => gs,
        EntityFieldsView::Named(gs) => gs.map_values(|g: NamedGeneratorView| g.generator),
    }
}

/// How many fields an entity has.
pub open spec fn field_count(fields: EntityFieldsView) -> nat {
    field_generators(fields).len()
}

/// Whether `out` holds `values` as the fields of an entity with the field
/// generators `fields`: no value for a unit, the values as they came for
/// positional fields, and for a record the value at each place under the
/// identifier of that place.
pub open spec fn placed(fields: EntityFieldsView, values: Seq<Value>, out: ValueFields) -> bool {
    match fields {
        EntityFieldsView::Unit => out is Unit && values.len() == 0,
        EntityFieldsView::Positional(gs) => out matches ValueFields::Positional(vs) && vs@
            == values && values.len() == gs.len(),
        EntityFieldsView::Named(gs) => out matches ValueFields::Named(vs) && {
            &&& vs@.len() == gs.len()
            &&& values.len() == gs.len()
            &&& forall|i: int|
                0 <= i < gs.len() ==> (#[trigger] vs@[i]).ident@ == gs[i].ident && vs@[i].value
                    == values[i]
        },
    }
}

/// Whether the program at place `j` is a struct without fields, which takes
/// nothing from the random source.
pub open spec fn draws_nothing(programs: Seq<GeneratorProgramView>, j: int) -> bool {
    &&& 0 <= j < programs.len()
    &&& programs[j].body matches ProgramBodyView::Struct(e)
    &&& field_count(e.fields) == 0
}

fn count_fields(fields: &EntityFields) -> (n: usize)
    ensures
        n == field_count(fields@),
{
    match fields {
        EntityFields::Unit => 0,
        EntityFields::Positional(gs) => gs.len(),
        EntityFields::Named(gs) => gs.len(),
    }
}

fn generator_at(fields: &EntityFields, i: usize) -> (r: Option<&FieldGenerator>)
    ensures
        match r {
            Some(g) => i < field_count(fields@) && g@ == field_generators(fields@)[i as int],
            None => i >= field_count(fields@),
        },
{
    match fields {
        EntityFields::Unit => None,
        EntityFields::Positional(gs) => if i < gs.len() {
            Some(&gs[i])
        } else {
            None
        },
        EntityFields::Named(gs) => if i < gs.len() {
            assert(named_views(gs@)[i as int] == gs@[i as int]@);
            Some(&gs[i].generator)
        } else {
            None
        },
    }
}

/// Pairs the values, in the order in which they came, with the identifiers
/// of a record's fields.
fn name_values(gs: &Vec<NamedGenerator>, values: Vec<Value>) -> (out: Vec<NamedValue>)
    requires
        values.len() == gs.len(),
    ensures
        out.len() == gs.len(),
        forall|i: int|
            0 <= i < gs.len() ==> (#[trigger] out@[i]).ident@ == gs@[i].ident@ && out@[i].value
                == values@[i],
{
    let ghost given = values@;
    let mut values = values;
    let mut reversed: Vec<NamedValue> = Vec::new();
    while values.len() > 0
        invariant
            given.len() == gs.len(),
            values.len() + reversed.len() == gs.len(),
            values@ == given.take(values.len() as int),
            forall|k: int|
                0 <= k < reversed.len() ==> (#[trigger] reversed@[k]).ident@ == gs@[gs.len() - 1
                    - k].ident@ && reversed@[k].value == given[gs.len() - 1 - k],
        decreases values.len(),
    {
        let value = match values.pop() {
            Some(value) => value,
            None => {
                assert(false);
                Value::Bool(false)
            },
        };
        let i = values.len();
        reversed.push(NamedValue { ident: gs[i].ident.clone(), value });
    }
    let ghost backwards = reversed@;
    let mut out: Vec<NamedValue> = Vec::new();
    while reversed.len() > 0
        invariant
            backwards.len() == gs.len(),
            reversed.len() + out.len() == gs.len(),
            reversed@ == backwards.take(reversed.len() as int),
            forall|k: int| 0 <= k < out.len() ==> #[trigger] out@[k] == backwards[gs.len() - 1 - k],
        decreases reversed.len(),
    {
        match reversed.pop() {
            Some(named) => {
                out.push(named);
            },
            None => {
                assert(false);
            },
        }
    }
    out
}

/// Builds the entity of `e` from the values of its fields, given in the
/// order in which the field generators returned them: each value stands,
/// unchanged, at the place of its field. There is no entity where the
/// number of values is not the number of fields.
pub fn assemble_entity(e: &EntityGenerator, values: Vec<Value>) -> (r: Option<Value>)
    ensures
        match r {
            Some(v) => v matches Value::Entity { entity, fields } && entity@ == e@.entity && placed(
                e@.fields,
                values@,
                fields,
            ),
            None => values@.len() != field_count(e@.fields),
        },
{
    if values.len() != count_fields(&e.fields) {
        return None;
    }
    let fields = match &e.fields {
        EntityFields::Unit => ValueFields::Unit,
        EntityFields::Positional(_) => ValueFields::Positional(values),
        EntityFields::Named(gs) => {
            let named = name_values(gs, values);
            assert forall|i: int| 0 <= i < gs.len() implies (#[trigger] named@[i]).ident@
                == named_views(gs@)[i].ident by {
                assert(named_views(gs@)[i] == gs@[i]@);
            }
            ValueFields::Named(named)
        },
    };
    let entity = EntityName {
        ty: e.entity.ty.clone(),
        variant: match &e.entity.variant {
            Some(v) => Some(v.clone()),
            None => None,
        },
    };
    Some(Value::Entity { entity, fields })
}

/// Runs the field generators of `e` in declaration order and returns their
/// values in that order.
fn generate_values<C: Context>(
    programs: &Vec<GeneratorProgram>,
    rank: usize,
    e: &EntityGenerator,
    usr: &C,
    rng: &mut StdRng,
) -> (r: Result<Vec<Value>, WeightError>)
    requires
        linked(program_views(programs@)),
        rank <= programs.len(),
        entity_resolves(program_views(programs@).take(rank as int), e@),
    ensures
        r matches Ok(vs) ==> fields_fit(
            program_views(programs@),
            rank as int,
            field_generators(e@.fields),
            vs@,
        ),
        entity_infallible(program_views(programs@), rank as int, e@) ==> r is Ok,
        field_count(e@.fields) == 0 ==> r is Ok && *final(rng) == *old(rng),
    decreases rank, 1int,
{
    let ghost all = program_views(programs@);
    let ghost gs = field_generators(e@.fields);
    let n = count_fields(&e.fields);
    let mut out: Vec<Value> = Vec::new();
    let mut i: usize = 0;
    while i < n
        invariant
            i <= n,
            n == gs.len(),
            out.len() == i,
            all == program_views(programs@),
            gs == field_generators(e@.fields),
            linked(all),
            rank <= programs.len(),
            entity_resolves(all.take(rank as int), e@),
            forall|k: int| 0 <= k < i ==> field_fits(all, rank as int, gs[k], #[trigger] out@[k]),
            i == 0 ==> *rng == *old(rng),
        decreases n - i,
    {
        let g = match generator_at(&e.fields, i) {
            Some(g) => g,
            None => {
                // There is a generator at each place below the number of fields.
                assert(false);
                return Err(WeightError::NoItem);
            },
        };
        proof {
            lemma_entity_field(all.take(rank as int), all, rank as int, e@, i as int);
        }
        match generate_field(programs, rank, g, usr, rng) {
            Ok(v) => {
                out.push(v);
            },
            Err(err) => {
                return Err(err);
            },
        }
        i += 1;
    }
    Ok(out)
}

/// What holds of an entity's fields holds of the field at place `i`.
proof fn lemma_entity_field(
    known: Seq<GeneratorProgramView>,
    programs: Seq<GeneratorProgramView>,
    rank: int,
    e: EntityGeneratorView,
    i: int,
)
    requires
        0 <= i < field_count(e.fields),
    ensures
        entity_resolves(known, e) ==> field_resolves(known, field_generators(e.fields)[i]),
        entity_infallible(programs, rank, e) ==> field_infallible(
            programs,
            rank,
            field_generators(e.fields)[i],
        ),
{
    match e.fields {
        EntityFieldsView::Unit => {},
        EntityFieldsView::Positional(gs) => {
            assert(field_generators(e.fields)[i] == gs[i]);
        },
        EntityFieldsView::Named(gs) => {
            assert(field_generators(e.fields)[i] == gs[i].generator);
        },
    }
}

/// Values that fit the fields of `e`, once placed, are an entity that fits
/// `e`.
proof fn lemma_placed_fits(
    programs: Seq<GeneratorProgramView>,
    rank: int,
    e: EntityGeneratorView,
    values: Seq<Value>,
    v: Value,
)
    requires
        fields_fit(programs, rank, field_generators(e.fields), values),
        v matches Value::Entity { entity, fields } && entity@ == e.entity && placed(
            e.fields,
            values,
            fields,
        ),
    ensures
        entity_fits(programs, rank, e, v),
{
    match e.fields {
        EntityFieldsView::Unit => {},
        EntityFieldsView::Positional(gs) => {},
        EntityFieldsView::Named(gs) => {
            let vs = v->Entity_fields->Named_0@;
            assert forall|i: int| 0 <= i < gs.len() implies (#[trigger] vs[i]).ident@
                == gs[i].ident && field_fits(programs, rank, gs[i].generator, vs[i].value) by {
                assert(field_generators(e.fields)[i] == gs[i].generator);
                assert(field_fits(programs, rank, field_generators(e.fields)[i], values[i]));
            }
        },
    }
}

fn generate_entity<C: Context>(
    programs: &Vec<GeneratorProgram>,
    rank: usize,
    e: &EntityGenerator,
    usr: &C,
    rng: &mut StdRng,
) -> (r: Result<Value, WeightError>)
    requires
        linked(program_views(programs@)),
        rank <= programs.len(),
        entity_resolves(program_views(programs@).take(rank as int), e@),
    ensures
        r matches Ok(v) ==> entity_fits(program_views(programs@), rank as int, e@, v),
        entity_infallible(program_views(programs@), rank as int, e@) ==> r is Ok,
        field_count(e@.fields) == 0 ==> r is Ok && *final(rng) == *old(rng),
    decreases rank, 2int,
{
    let values = match generate_values(programs, rank, e, usr, rng) {
        Ok(values) => values,
        Err(err) => {
            return Err(err);
        },
    };
    let ghost given = values@;
    match assemble_entity(e, values) {
        Some(v) => {
            proof {
                lemma_placed_fits(program_views(programs@), rank as int, e@, given, v);
            }
            Ok(v)
        },
        None => {
            // One value came back for each field.
            assert(false);
            Err(WeightError::NoItem)
        },
    }
}

/// Runs the variant at place `index` of the enum at place `j`.
fn generate_variant_at<C: Context>(
    programs: &Vec<GeneratorProgram>,
    j: usize,
    index: usize,
    usr: &C,
    rng: &mut StdRng,
) -> (r: Result<Value, WeightError>)
    requires
        linked(program_views(programs@)),
        j < programs.len(),
        program_views(programs@)[j as int].body matches ProgramBodyView::Enum(c) && index
            < c.variants.len(),
    ensures
        program_views(programs@)[j as int].body matches ProgramBodyView::Enum(c) && {
            &&& r matches Ok(v) ==> variant_fits(
                program_views(programs@),
                j as int,
                c.variants[index as int],
                v,
            )
            &&& variant_infallible(program_views(programs@), j as int, c.variants[index as int])
                ==> r is Ok
        },
    decreases j, 3int,
{
    let ghost all = program_views(programs@);
    assert(all[j as int] == programs@[j as int]@);
    assert(program_resolves(all.take(j as int), all[j as int]));
    match &programs[j].body {
        ProgramBody::Struct(_) => {
            assert(false);
            Err(WeightError::NoItem)
        },
        ProgramBody::Enum(c) => {
            let ghost variants = variant_views(c.variants@);
            assert(variants[index as int] == c.variants@[index as int]@);
            assert(variant_resolves(all.take(j as int), variants[index as int]));
            match &c.variants[index] {
                VariantGenerator::Custom(f) => Ok(usr.custom_variant(f.as_str(), rng)),
                VariantGenerator::Entity(e) => generate_entity(programs, j, e, usr, rng),
            }
        },
    }
}

fn generate_program<C: Context>(
    programs: &Vec<GeneratorProgram>,
    j: usize,
    usr: &C,
    rng: &mut StdRng,
) -> (r: Result<Value, WeightError>)
    requires
        linked(program_views(programs@)),
        j < programs.len(),
    ensures
        r matches Ok(v) ==> program_fits(program_views(programs@), j as int, v),
        program_infallible(program_views(programs@), j as int) ==> r is Ok,
        weights_refused(program_views(programs@), j as int) matches Some(e) ==> r == Err::<
            Value,
            WeightError,
        >(e),
        draws_nothing(program_views(programs@), j as int) ==> r is Ok && *final(rng) == *old(rng),
    decreases j, 4int,
{
    let ghost all = program_views(programs@);
    assert(all[j as int] == programs@[j as int]@);
    assert(all[j as int].well_formed() && program_resolves(all.take(j as int), all[j as int]));
    match &programs[j].body {
        ProgramBody::Struct(e) => generate_entity(programs, j, e, usr, rng),
        ProgramBody::Enum(c) => {
            let ghost weights = weight_views(c.weights@);
            let values = resolve_weights(&c.weights, usr);
            proof {
                if all_literal(weights) {
                    assert(values@ =~= literal_values(weights));
                }
            }
            let index = match select_variant(&values, rng) {
                Ok(index) => index,
                Err(e) => {
                    return Err(e);
                },
            };
            let r = generate_variant_at(programs, j, index, usr, rng);
            proof {
                if r is Ok {
                    assert(!(weights[index as int] matches WeightView::Literal(w) && w <= 0));
                }
            }
            r
        },
    }
}

impl Registry {
    /// Generates one instance of the type `ty`: runs the type's program
    /// with the context `usr` and the random source `rng`.
    ///
    /// An instance that comes out is one that the program can produce, with
    /// the field values in declaration order. Generation fails only where
    /// the weights of an enum have no distribution; with weights that are
    /// numbers and have one, everywhere the program leads, it succeeds. A
    /// struct without fields leaves the random source as it was, and so
    /// does a type that is not registered.
    pub fn generate<C: Context>(&self, ty: &str, usr: &C, rng: &mut StdRng) -> (r: Result<
        Value,
        GenerationError,
    >)
        ensures
            match position(self@, ty@) {
                None => r == Err::<Value, GenerationError>(GenerationError::UnknownType)
                    && *final(rng) == *old(rng),
                Some(j) => {
                    &&& r matches Ok(v) ==> program_fits(self@, j, v)
                    &&& program_infallible(self@, j) ==> r is Ok
                    &&& r matches Err(e) ==> e is Weights
                    &&& weights_refused(self@, j) matches Some(e) ==> r == Err::<
                        Value,
                        GenerationError,
                    >(GenerationError::Weights(e))
                    &&& draws_nothing(self@, j) ==> r is Ok && *final(rng) == *old(rng)
                },
            },
    {
        let programs = self.programs();
        let name = ty.to_owned();
        assert(self@.take(programs.len() as int) =~= self@);
        match find_before(programs, &name, programs.len()) {
            None => Err(GenerationError::UnknownType),
            Some(j) => match generate_program(programs, j, usr, rng) {
                Ok(v) => Ok(v),
                Err(e) => Err(GenerationError::Weights(e)),
            },
        }
    }

    /// Runs the variant at place `index` of the enum `ty`, as generation
    /// does with the index that it drew: the instance that comes out is one
    /// that this variant's generator can produce.
    ///
    /// There is no such variant where `ty` is not registered, is no enum, or
    /// has fewer variants.
    pub fn generate_variant<C: Context>(
        &self,
        ty: &str,
        index: usize,
        usr: &C,
        rng: &mut StdRng,
    ) -> (r: Result<Value, GenerationError>)
        ensures
            match variant_at(self@, ty@, index as int) {
                None => r == Err::<Value, GenerationError>(
                    match position(self@, ty@) {
                        None => GenerationError::UnknownType,
                        Some(_) => GenerationError::NoSuchVariant,
                    },
                ) && *final(rng) == *old(rng),
                Some(g) => {
                    &&& r matches Ok(v) ==> variant_fits(self@, position(self@, ty@)->Some_0, g, v)
                    &&& variant_infallible(self@, position(self@, ty@)->Some_0, g) ==> r is Ok
                    &&& r matches Err(e) ==> e is Weights
                },
            },
    {
        let programs = self.programs();
        let name = ty.to_owned();
        assert(self@.take(programs.len() as int) =~= self@);
        let j = match find_before(programs, &name, programs.len()) {
            None => {
                return Err(GenerationError::UnknownType);
            },
            Some(j) => j,
        };
        assert(self@[j as int] == programs@[j as int]@);
        let known = match &programs[j].body {
            ProgramBody::Struct(_) => false,
            ProgramBody::Enum(c) => index < c.variants.len(),
        };
        if !known {
            return Err(GenerationError::NoSuchVariant);
        }
        match generate_variant_at(programs, j, index, usr, rng) {
            Ok(v) => Ok(v),
            Err(e) => Err(GenerationError::Weights(e)),
        }
    }
}

/// The generator of the variant at place `index` of the enum `ty`, if `ty`
/// is a registered enum with that many variants.
pub open spec fn variant_at(programs: Seq<GeneratorProgramView>, ty: Seq<char>, index: int) -> Option<
    VariantGeneratorView,
> {
    match position(programs, ty) {
        None => None,
        Some(j) => match programs[j].body {
            ProgramBodyView::Enum(c) => if 0 <= index < c.variants.len() {
                Some(c.variants[index])
            } else {
                None
            },
            ProgramBodyView::Struct(_) => None,
        },
    }
}

/// A variant whose weight is a number that is not positive is never
/// generated: where every variant of an enum is built field by field and no
/// two of them share a name, no value of the enum is that variant.
pub proof fn lemma_unweighted_variant_never_generated(
    programs: Seq<GeneratorProgramView>,
    j: int,
    i: int,
    v: Value,
)
    requires
        program_fits(programs, j, v),
        programs[j].body matches ProgramBodyView::Enum(c) && {
            &&& 0 <= i < c.variants.len()
            &&& c.weights[i] matches WeightView::Literal(w) && w <= 0
            &&& forall|k: int| 0 <= k < c.variants.len() ==> #[trigger] c.variants[k] is Entity
            &&& forall|a: int, b: int|
                0 <= a < c.variants.len() && 0 <= b < c.variants.len() && a != b ==> (
                #[trigger] c.variants[a])->Entity_0.entity != (
                #[trigger] c.variants[b])->Entity_0.entity
        },
    ensures
        programs[j].body matches ProgramBodyView::Enum(c) && !(v matches Value::Entity {
            entity,
            ..
        } && entity@ == c.variants[i]->Entity_0.entity),
{
    let c = programs[j].body->Enum_0;
    let k = choose|k: int|
        0 <= k < c.variants.len() && !(c.weights[k] matches WeightView::Literal(w) && w <= 0)
            && variant_fits(programs, j, #[trigger] c.variants[k], v);
    assert(k != i);
    assert(c.variants[k] is Entity);
    assert(c.variants[i] is Entity);
}

} // verus!
