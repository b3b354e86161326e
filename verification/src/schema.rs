//! The schema: a type definition with the annotations attached to it.

use vstd::prelude::*;

verus! {

/// The argument list of one annotation, as the annotation reader classified it.
#[derive(Debug, Clone, PartialEq, Eq)]
pub enum AnnotationArg {
    /// Exactly one simple identifier.
    Ident(String),
    /// Exactly one integer literal.
    Integer(i64),
    /// Anything else, kept as written.
    Tokens(String),
}

/// One annotation on a type, a variant or a field.
#[derive(Debug, Clone, PartialEq, Eq)]
pub struct Annotation {
    /// The directive's name; `None` where the annotation's path is not a
    /// single identifier.
    pub name: Option<String>,
    pub arg: AnnotationArg,
}

/// One field: its declared type and its annotations.
#[derive(Debug, Clone, PartialEq, Eq)]
pub struct FieldSchema {
    pub ty: String,
    pub attrs: Vec<Annotation>,
}

/// A field of a record, with the identifier it is declared under.
#[derive(Debug, Clone, PartialEq, Eq)]
pub struct NamedField {
    pub ident: String,
    pub field: FieldSchema,
}

/// The fields of a struct or of a variant, in declaration order.
#[derive(Debug, Clone, PartialEq, Eq)]
pub enum FieldList {
    Unit,
    Positional(Vec<FieldSchema>),
    Named(Vec<NamedField>),
}

/// One variant of an enum.
#[derive(Debug, Clone, PartialEq, Eq)]
pub struct VariantSchema {
    pub name: String,
    pub fields: FieldList,
    pub attrs: Vec<Annotation>,
}

/// What kind of type a definition declares, with its contents.
#[derive(Debug, Clone, PartialEq, Eq)]
pub enum TypeData {
    Struct(FieldList),
    Enum(Vec<VariantSchema>),
    Union,
}

/// One type definition.
#[derive(Debug, Clone, PartialEq, Eq)]
pub struct TypeSchema {
    pub name: String,
    pub attrs: Vec<Annotation>,
    pub data: TypeData,
}

/// Why a schema cannot be compiled.
#[derive(Debug, Clone, Copy, PartialEq, Eq, Structural)]
pub enum SchemaError {
    /// An enum without variants.
    EmptyEnum,
    /// Unions have no generator.
    UnionNotSupported,
    /// A directive that names a type, a function or a method carries an
    /// argument that is not a simple identifier.
    InvalidOverrideName,
    /// The type does not name its context type.
    MissingContextType,
    /// A field without an override has a declared type that has no entry
    /// point.
    MissingEntryPoint,
}

/// The directive on a type that names its context type.
pub open spec fn context_directive() -> Seq<char> {
    "usr"@
}

/// The directive that names a function of the random source alone.
pub open spec fn custom_generator_directive() -> Seq<char> {
    "custom_rand"@
}

/// The directive on a field that names a method of the context.
pub open spec fn custom_member_directive() -> Seq<char> {
    "custom_rand_member"@
}

/// The directive on a variant that carries its weight.
pub open spec fn weight_directive() -> Seq<char> {
    "weight"@
}

impl Annotation {
    /// Whether this annotation is the directive called `name`.
    pub open spec fn is_named(self, name: Seq<char>) -> bool {
        self.name matches Some(n) && n@ == name
    }
}

} // verus!
