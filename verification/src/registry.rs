//! The registry: the compiled programs, each under the name of its type.
//!
//! A field without an override is generated by the entry point of its
//! declared type. The registry is where that entry point is looked up: a
//! program is taken in only if each such type is a scalar or was registered
//! before it, so every reference leads to an earlier program.

use vstd::prelude::*;
use crate::schema::{SchemaError, TypeSchema};
use crate::program::{
    EntityFields, EntityFieldsView, EntityGenerator, EntityGeneratorView, FieldGenerator,
    FieldGeneratorView, GeneratorProgram, GeneratorProgramView, NamedGenerator,
    NamedGeneratorView, ProgramBody,
    ProgramBodyView, VariantGenerator, VariantGeneratorView, field_views, named_views,
    variant_views,
};
use crate::compile::{compile, expand_derive_rand};

verus! {

/// The place in `programs` of the program of the type `ty`: the last one
/// registered under that name.
pub open spec fn position(programs: Seq<GeneratorProgramView>, ty: Seq<char>) -> Option<int>
    decreases programs.len(),
{
    if programs.len() == 0 {
        None
    } else if programs.last().ty == ty {
        Some(programs.len() - 1)
    } else {
        position(programs.drop_last(), ty)
    }
}

/// A place that `position` gives holds a program of that type.
pub proof fn lemma_position_in_range(programs: Seq<GeneratorProgramView>, ty: Seq<char>)
    ensures
        position(programs, ty) matches Some(k) ==> 0 <= k < programs.len() && programs[k].ty == ty,
    decreases programs.len(),
{
    if programs.len() > 0 && programs.last().ty != ty {
        lemma_position_in_range(programs.drop_last(), ty);
    }
}

/// Whether the type that `g` refers to, if it refers to one, is among
/// `known`.
pub open spec fn field_resolves(known: Seq<GeneratorProgramView>, g: FieldGeneratorView) -> bool {
    g matches FieldGeneratorView::Recursive(ty) ==> position(known, ty) is Some
}

/// Whether every type that one of `gs` refers to is among `known`.
pub open spec fn fields_resolve(known: Seq<GeneratorProgramView>, gs: Seq<FieldGeneratorView>) -> bool {
    forall|i: int| 0 <= i < gs.len() ==> field_resolves(known, #[trigger] gs[i])
}

/// Whether every type that one of `gs` refers to is among `known`.
pub open spec fn named_resolve(known: Seq<GeneratorProgramView>, gs: Seq<NamedGeneratorView>) -> bool {
    forall|i: int| 0 <= i < gs.len() ==> field_resolves(known, (#[trigger] gs[i]).generator)
}

/// Whether every type that a field of `e` refers to is among `known`.
pub open spec fn entity_resolves(known: Seq<GeneratorProgramView>, e: EntityGeneratorView) -> bool {
    match e.fields {
        EntityFieldsView::Unit => true,
        EntityFieldsView::Positional(gs) => fields_resolve(known, gs),
        EntityFieldsView::Named(gs) => named_resolve(known, gs),
    }
}

/// Whether every type that a field of the variant refers to is among
/// `known`.
pub open spec fn variant_resolves(known: Seq<GeneratorProgramView>, v: VariantGeneratorView) -> bool {
    match v {
        VariantGeneratorView::Custom(_) => true,
        VariantGeneratorView::Entity(e) => entity_resolves(known, e),
    }
}

/// Whether every type that one of the variants refers to is among `known`.
pub open spec fn variants_resolve(
    known: Seq<GeneratorProgramView>,
    vs: Seq<VariantGeneratorView>,
) -> bool {
    forall|i: int| 0 <= i < vs.len() ==> variant_resolves(known, #[trigger] vs[i])
}

/// Whether every type that `p` refers to is among `known`.
pub open spec fn program_resolves(known: Seq<GeneratorProgramView>, p: GeneratorProgramView) -> bool {
    match p.body {
        ProgramBodyView::Struct(e) => entity_resolves(known, e),
        ProgramBodyView::Enum(c) => variants_resolve(known, c.variants),
    }
}

/// Whether each program is well formed and refers only to programs before
/// it.
pub open spec fn linked(programs: Seq<GeneratorProgramView>) -> bool {
    forall|j: int|
        0 <= j < programs.len() ==> (#[trigger] programs[j]).well_formed() && program_resolves(
            programs.take(j),
            programs[j],
        )
}

/// The views of `programs`, in order.
pub open spec fn program_views(programs: Seq<GeneratorProgram>) -> Seq<GeneratorProgramView> {
    programs.map_values(|p: GeneratorProgram| p@)
}

/// The place of the last of the first `limit` programs that is of the type
/// `ty`.
pub(crate) fn find_before(programs: &Vec<GeneratorProgram>, ty: &String, limit: usize) -> (r: Option<usize>)
    requires
        limit <= programs.len(),
    ensures
        match position(program_views(programs@).take(limit as int), ty@) {
            Some(k) => r == Some(k as usize) && 0 <= k < limit,
            None => r is None,
        },
{
    let ghost views = program_views(programs@);
    let mut found: Option<usize> = None;
    let mut i: usize = 0;
    assert(views.take(0) =~= Seq::empty());
    while i < limit
        invariant
            i <= limit <= programs.len(),
            views == program_views(programs@),
            match position(views.take(i as int), ty@) {
                Some(k) => found == Some(k as usize) && 0 <= k < i,
                None => found is None,
            },
        decreases limit - i,
    {
        assert(views.take(i + 1).drop_last() =~= views.take(i as int));
        assert(views.take(i + 1).last() == programs@[i as int]@);
        if programs[i].ty == *ty {
            found = Some(i);
        }
        i += 1;
    }
    found
}

fn check_field(programs: &Vec<GeneratorProgram>, g: &FieldGenerator) -> (r: bool)
    ensures
        r == field_resolves(program_views(programs@), g@),
{
    assert(program_views(programs@).take(programs.len() as int) =~= program_views(programs@));
    match g {
        FieldGenerator::Recursive(ty) => find_before(programs, ty, programs.len()).is_some(),
        _ => true,
    }
}

fn check_fields(programs: &Vec<GeneratorProgram>, gs: &Vec<FieldGenerator>) -> (r: bool)
    ensures
        r == fields_resolve(program_views(programs@), field_views(gs@)),
{
    let ghost known = program_views(programs@);
    let ghost views = field_views(gs@);
    let mut i: usize = 0;
    while i < gs.len()
        invariant
            i <= gs.len(),
            known == program_views(programs@),
            views == field_views(gs@),
            forall|k: int| 0 <= k < i ==> field_resolves(known, #[trigger] views[k]),
        decreases gs.len() - i,
    {
        assert(views[i as int] == gs@[i as int]@);
        if !check_field(programs, &gs[i]) {
            return false;
        }
        i += 1;
    }
    true
}

fn check_named(programs: &Vec<GeneratorProgram>, gs: &Vec<NamedGenerator>) -> (r: bool)
    ensures
        r == named_resolve(program_views(programs@), named_views(gs@)),
{
    let ghost known = program_views(programs@);
    let ghost views = named_views(gs@);
    let mut i: usize = 0;
    while i < gs.len()
        invariant
            i <= gs.len(),
            known == program_views(programs@),
            views == named_views(gs@),
            forall|k: int| 0 <= k < i ==> field_resolves(known, (#[trigger] views[k]).generator),
        decreases gs.len() - i,
    {
        assert(views[i as int] == gs@[i as int]@);
        if !check_field(programs, &gs[i].generator) {
            return false;
        }
        i += 1;
    }
    true
}

fn check_entity(programs: &Vec<GeneratorProgram>, e: &EntityGenerator) -> (r: bool)
    ensures
        r == entity_resolves(program_views(programs@), e@),
{
    match &e.fields {
        EntityFields::Unit => true,
        EntityFields::Positional(gs) => check_fields(programs, gs),
        EntityFields::Named(gs) => check_named(programs, gs),
    }
}

fn check_variants(programs: &Vec<GeneratorProgram>, vs: &Vec<VariantGenerator>) -> (r: bool)
    ensures
        r == variants_resolve(program_views(programs@), variant_views(vs@)),
{
    let ghost known = program_views(programs@);
    let ghost views = variant_views(vs@);
    let mut i: usize = 0;
    while i < vs.len()
        invariant
            i <= vs.len(),
            known == program_views(programs@),
            views == variant_views(vs@),
            forall|k: int| 0 <= k < i ==> variant_resolves(known, #[trigger] views[k]),
        decreases vs.len() - i,
    {
        assert(views[i as int] == vs@[i as int]@);
        let ok = match &vs[i] {
            VariantGenerator::Custom(_) => true,
            VariantGenerator::Entity(e) => check_entity(programs, e),
        };
        if !ok {
            return false;
        }
        i += 1;
    }
    true
}

fn check_program(programs: &Vec<GeneratorProgram>, p: &GeneratorProgram) -> (r: bool)
    ensures
        r == program_resolves(program_views(programs@), p@),
{
    match &p.body {
        ProgramBody::Struct(e) => check_entity(programs, e),
        ProgramBody::Enum(c) => check_variants(programs, &c.variants),
    }
}

/// What registering `schema` with the programs `known` yields: the program
/// of the schema, or why there is none. There is none where the schema does
/// not compile, and none where a field without an override has a declared
/// type that is neither a scalar nor among `known`.
pub open spec fn registration(known: Seq<GeneratorProgramView>, schema: TypeSchema) -> Result<
    GeneratorProgramView,
    SchemaError,
> {
    match compile(schema) {
        Err(e) => Err(e),
        Ok(p) => if program_resolves(known, p) {
            Ok(p)
        } else {
            Err(SchemaError::MissingEntryPoint)
        },
    }
}

/// The programs of the registered types, in the order in which they were
/// registered.
pub struct Registry {
    programs: Vec<GeneratorProgram>,
}

impl View for Registry {
    type V = Seq<GeneratorProgramView>;

    closed spec fn view(&self) -> Seq<GeneratorProgramView> {
        program_views(self.programs@)
    }
}

impl Registry {
    #[verifier::type_invariant]
    spec fn is_linked(self) -> bool {
        linked(program_views(self.programs@))
    }

    /// A registry without programs.
    pub fn new() -> (r: Registry)
        ensures
            r@ == Seq::<GeneratorProgramView>::empty(),
    {
        let programs: Vec<GeneratorProgram> = Vec::new();
        assert(program_views(programs@) =~= Seq::empty());
        Registry { programs }
    }

    /// The registered programs.
    pub(crate) fn programs(&self) -> (r: &Vec<GeneratorProgram>)
        ensures
            program_views(r@) == self@,
            linked(self@),
    {
        proof {
            use_type_invariant(self);
        }
        &self.programs
    }

    /// How many programs are registered.
    pub fn len(&self) -> (n: usize)
        ensures
            n == self@.len(),
    {
        self.programs.len()
    }

    /// The program of the type `ty`, if one is registered.
    pub fn program(&self, ty: &str) -> (r: Option<&GeneratorProgram>)
        ensures
            match position(self@, ty@) {
                Some(k) => r matches Some(p) && p@ == self@[k],
                None => r is None,
            },
    {
        let name = ty.to_owned();
        assert(self@.take(self.programs.len() as int) =~= self@);
        proof {
            lemma_position_in_range(self@, ty@);
        }
        match find_before(&self.programs, &name, self.programs.len()) {
            Some(k) => Some(&self.programs[k]),
            None => None,
        }
    }

    /// Compiles `schema` and registers its program, so that later schemas
    /// can refer to the type. Where there is no program the registry stays
    /// as it was.
    pub fn register(&mut self, schema: &TypeSchema) -> (r: Result<(), SchemaError>)
        ensures
            match registration(old(self)@, *schema) {
                Ok(p) => r is Ok && final(self)@ == old(self)@.push(p),
                Err(e) => r == Err::<(), SchemaError>(e) && final(self)@ == old(self)@,
            },
    {
        proof {
            use_type_invariant(&*self);
        }
        let program = match expand_derive_rand(schema) {
            Ok(p) => p,
            Err(e) => {
                return Err(e);
            },
        };
        if !check_program(&self.programs, &program) {
            return Err(SchemaError::MissingEntryPoint);
        }
        let ghost before = program_views(self.programs@);
        let mut taken = Registry::new();
        std::mem::swap(self, &mut taken);
        let mut programs = taken.programs;
        programs.push(program);
        proof {
            let after = program_views(programs@);
            assert(after =~= before.push(program@));
            assert forall|j: int| 0 <= j < after.len() implies (#[trigger] after[j]).well_formed()
                && program_resolves(after.take(j), after[j]) by {
                if j < before.len() {
                    assert(after.take(j) =~= before.take(j));
                    assert(after[j] == before[j]);
                } else {
                    assert(after.take(j) =~= before);
                }
            }
        }
        *self = Registry { programs };
        Ok(())
    }
}

} // verus!
