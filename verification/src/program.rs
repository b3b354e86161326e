//! The generator program: what compiling a schema yields.

use vstd::prelude::*;

verus! {

/// A scalar type with a default uniform distribution.
#[derive(Debug, Clone, Copy, PartialEq, Eq, Structural)]
pub enum PrimitiveType {
    Bool,
    U8,
    U16,
    U32,
    U64,
    I8,
    I16,
    I32,
    I64,
    U128,
    Usize,
    I128,
    Isize,
    Char,
}

impl PrimitiveType {
    /// The scalar type that `name` denotes, if any.
    pub open spec fn named(name: Seq<char>) -> Option<PrimitiveType> {
        if name == "bool"@ {
            Some(PrimitiveType::Bool)
        } else if name == "u8"@ {
            Some(PrimitiveType::U8)
        } else if name == "u16"@ {
            Some(PrimitiveType::U16)
        } else if name == "u32"@ {
            Some(PrimitiveType::U32)
        } else if name == "u64"@ {
            Some(PrimitiveType::U64)
        } else if name == "i8"@ {
            Some(PrimitiveType::I8)
        } else if name == "i16"@ {
            Some(PrimitiveType::I16)
        } else if name == "i32"@ {
            Some(PrimitiveType::I32)
        } else if name == "i64"@ {
            Some(PrimitiveType::I64)
        } else if name == "u128"@ {
            Some(PrimitiveType::U128)
        } else if name == "usize"@ {
            Some(PrimitiveType::Usize)
        } else if name == "i128"@ {
            Some(PrimitiveType::I128)
        } else if name == "isize"@ {
            Some(PrimitiveType::Isize)
        } else if name == "char"@ {
            Some(PrimitiveType::Char)
        } else {
            None
        }
    }

    /// Reads a type name as a scalar type.
    pub fn from_name(name: &String) -> (r: Option<PrimitiveType>)
        ensures
            r == PrimitiveType::named(name@),
    {
        if *name == "bool".to_owned() {
            Some(PrimitiveType::Bool)
        } else if *name == "u8".to_owned() {
            Some(PrimitiveType::U8)
        } else if *name == "u16".to_owned() {
            Some(PrimitiveType::U16)
        } else if *name == "u32".to_owned() {
            Some(PrimitiveType::U32)
        } else if *name == "u64".to_owned() {
            Some(PrimitiveType::U64)
        } else if *name == "i8".to_owned() {
            Some(PrimitiveType::I8)
        } else if *name == "i16".to_owned() {
            Some(PrimitiveType::I16)
        } else if *name == "i32".to_owned() {
            Some(PrimitiveType::I32)
        } else if *name == "i64".to_owned() {
            Some(PrimitiveType::I64)
        } else if *name == "u128".to_owned() {
            Some(PrimitiveType::U128)
        } else if *name == "usize".to_owned() {
            Some(PrimitiveType::Usize)
        } else if *name == "i128".to_owned() {
            Some(PrimitiveType::I128)
        } else if *name == "isize".to_owned() {
            Some(PrimitiveType::Isize)
        } else if *name == "char".to_owned() {
            Some(PrimitiveType::Char)
        } else {
            None
        }
    }
}

/// The strategy that produces one field.
#[derive(Debug, Clone, PartialEq, Eq)]
pub enum FieldGenerator {
    /// A named function of the random source alone.
    Literal(String),
    /// A named method of the context.
    ContextMember(String),
    /// The default distribution of a scalar type.
    Primitive(PrimitiveType),
    /// The entry point of the named type.
    Recursive(String),
}

/// A [`FieldGenerator`] as specifications see it: its strings are sequences of
/// characters, its vectors sequences.
pub enum FieldGeneratorView {
    Literal(Seq<char>),
    ContextMember(Seq<char>),
    Primitive(PrimitiveType),
    Recursive(Seq<char>),
}

impl View for FieldGenerator {
    type V = FieldGeneratorView;

    open spec fn view(&self) -> FieldGeneratorView {
        match self {
            FieldGenerator::Literal(f) => FieldGeneratorView::Literal(f@),
            FieldGenerator::ContextMember(m) => FieldGeneratorView::ContextMember(m@),
            FieldGenerator::Primitive(p) => FieldGeneratorView::Primitive(*p),
            FieldGenerator::Recursive(t) => FieldGeneratorView::Recursive(t@),
        }
    }
}

/// A field generator of a record, with the identifier it fills.
#[derive(Debug, Clone, PartialEq, Eq)]
pub struct NamedGenerator {
    pub ident: String,
    pub generator: FieldGenerator,
}

/// A [`NamedGenerator`] as specifications see it: its strings are sequences of
/// characters, its vectors sequences.
pub struct NamedGeneratorView {
    pub ident: Seq<char>,
    pub generator: FieldGeneratorView,
}

impl View for NamedGenerator {
    type V = NamedGeneratorView;

    open spec fn view(&self) -> NamedGeneratorView {
        NamedGeneratorView { ident: self.ident@, generator: self.generator@ }
    }
}

/// The identity of what an entity generator constructs: a struct, or one
/// variant of an enum.
#[derive(Debug, Clone, PartialEq, Eq)]
pub struct EntityName {
    pub ty: String,
    pub variant: Option<String>,
}

/// A [`EntityName`] as specifications see it: its strings are sequences of
/// characters, its vectors sequences.
pub struct EntityNameView {
    pub ty: Seq<char>,
    pub variant: Option<Seq<char>>,
}

impl View for EntityName {
    type V = EntityNameView;

    open spec fn view(&self) -> EntityNameView {
        EntityNameView {
            ty: self.ty@,
            variant: match self.variant {
                Some(v) => Some(v@),
                None => None,
            },
        }
    }
}

/// The views of `generators`, in order.
pub open spec fn field_views(generators: Seq<FieldGenerator>) -> Seq<FieldGeneratorView> {
    generators.map_values(|g: FieldGenerator| g@)
}

/// The views of `generators`, in order.
pub open spec fn named_views(generators: Seq<NamedGenerator>) -> Seq<NamedGeneratorView> {
    generators.map_values(|g: NamedGenerator| g@)
}

/// The field generators of an entity, in declaration order.
#[derive(Debug, Clone, PartialEq, Eq)]
pub enum EntityFields {
    Unit,
    Positional(Vec<FieldGenerator>),
    Named(Vec<NamedGenerator>),
}

/// A [`EntityFields`] as specifications see it: its strings are sequences of
/// characters, its vectors sequences.
pub enum EntityFieldsView {
    Unit,
    Positional(Seq<FieldGeneratorView>),
    Named(Seq<NamedGeneratorView>),
}

impl View for EntityFields {
    type V = EntityFieldsView;

    open spec fn view(&self) -> EntityFieldsView {
        match self {
            EntityFields::Unit => EntityFieldsView::Unit,
            EntityFields::Positional(gs) => EntityFieldsView::Positional(
                field_views(gs@),
            ),
            EntityFields::Named(gs) => EntityFieldsView::Named(
                named_views(gs@),
            ),
        }
    }
}

/// Constructs one entity from its fields, each produced by its generator, in
/// order.
#[derive(Debug, Clone, PartialEq, Eq)]
pub struct EntityGenerator {
    pub entity: EntityName,
    pub fields: EntityFields,
}

/// A [`EntityGenerator`] as specifications see it: its strings are sequences of
/// characters, its vectors sequences.
pub struct EntityGeneratorView {
    pub entity: EntityNameView,
    pub fields: EntityFieldsView,
}

impl View for EntityGenerator {
    type V = EntityGeneratorView;

    open spec fn view(&self) -> EntityGeneratorView {
        EntityGeneratorView { entity: self.entity@, fields: self.fields@ }
    }
}

/// The generator of one variant.
#[derive(Debug, Clone, PartialEq, Eq)]
pub enum VariantGenerator {
    /// A named function of the context and the random source that returns
    /// the whole variant.
    Custom(String),
    /// Field by field.
    Entity(EntityGenerator),
}

/// A [`VariantGenerator`] as specifications see it: its strings are sequences of
/// characters, its vectors sequences.
pub enum VariantGeneratorView {
    Custom(Seq<char>),
    Entity(EntityGeneratorView),
}

impl View for VariantGenerator {
    type V = VariantGeneratorView;

    open spec fn view(&self) -> VariantGeneratorView {
        match self {
            VariantGenerator::Custom(f) => VariantGeneratorView::Custom(f@),
            VariantGenerator::Entity(g) => VariantGeneratorView::Entity(g@),
        }
    }
}

/// The weight of one variant.
#[derive(Debug, Clone, PartialEq, Eq)]
pub enum Weight {
    /// A number.
    Literal(i64),
    /// An expression, evaluated when a value is generated.
    Symbolic(String),
}

/// A [`Weight`] as specifications see it: its strings are sequences of
/// characters, its vectors sequences.
pub enum WeightView {
    Literal(i64),
    Symbolic(Seq<char>),
}

impl View for Weight {
    type V = WeightView;

    open spec fn view(&self) -> WeightView {
        match self {
            Weight::Literal(n) => WeightView::Literal(*n),
            Weight::Symbolic(e) => WeightView::Symbolic(e@),
        }
    }
}

/// The views of `generators`, in order.
pub open spec fn variant_views(generators: Seq<VariantGenerator>) -> Seq<VariantGeneratorView> {
    generators.map_values(|g: VariantGenerator| g@)
}

/// The views of `weights`, in order.
pub open spec fn weight_views(weights: Seq<Weight>) -> Seq<WeightView> {
    weights.map_values(|w: Weight| w@)
}

/// Picks one variant by weight and runs its generator.
#[derive(Debug, Clone, PartialEq, Eq)]
pub struct WeightedChoice {
    pub variants: Vec<VariantGenerator>,
    pub weights: Vec<Weight>,
}

/// A [`WeightedChoice`] as specifications see it: its strings are sequences of
/// characters, its vectors sequences.
pub struct WeightedChoiceView {
    pub variants: Seq<VariantGeneratorView>,
    pub weights: Seq<WeightView>,
}

impl View for WeightedChoice {
    type V = WeightedChoiceView;

    open spec fn view(&self) -> WeightedChoiceView {
        WeightedChoiceView {
            variants: variant_views(self.variants@),
            weights: weight_views(self.weights@),
        }
    }
}

/// What the entry point of a type runs.
#[derive(Debug, Clone, PartialEq, Eq)]
pub enum ProgramBody {
    Struct(EntityGenerator),
    Enum(WeightedChoice),
}

/// A [`ProgramBody`] as specifications see it: its strings are sequences of
/// characters, its vectors sequences.
pub enum ProgramBodyView {
    Struct(EntityGeneratorView),
    Enum(WeightedChoiceView),
}

impl View for ProgramBody {
    type V = ProgramBodyView;

    open spec fn view(&self) -> ProgramBodyView {
        match self {
            ProgramBody::Struct(g) => ProgramBodyView::Struct(g@),
            ProgramBody::Enum(c) => ProgramBodyView::Enum(c@),
        }
    }
}

/// The generator program of one type: its entry point takes a context of
/// type `context` and a random source, and returns one instance of `ty`.
#[derive(Debug, Clone, PartialEq, Eq)]
pub struct GeneratorProgram {
    pub ty: String,
    pub context: String,
    pub body: ProgramBody,
}

/// A [`GeneratorProgram`] as specifications see it: its strings are sequences of
/// characters, its vectors sequences.
pub struct GeneratorProgramView {
    pub ty: Seq<char>,
    pub context: Seq<char>,
    pub body: ProgramBodyView,
}

impl View for GeneratorProgram {
    type V = GeneratorProgramView;

    open spec fn view(&self) -> GeneratorProgramView {
        GeneratorProgramView { ty: self.ty@, context: self.context@, body: self.body@ }
    }
}

impl WeightedChoiceView {
    /// There is a variant to pick, and each variant has its weight.
    pub open spec fn well_formed(self) -> bool {
        self.variants.len() > 0 && self.weights.len() == self.variants.len()
    }
}

impl GeneratorProgramView {
    /// The program picks among at least one variant where it picks at all.
    pub open spec fn well_formed(self) -> bool {
        self.body matches ProgramBodyView::Enum(choice) ==> choice.well_formed()
    }
}

} // verus!
