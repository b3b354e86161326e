//! The override resolver: which strategy applies to one field.

use vstd::prelude::*;
use crate::schema::{Annotation, AnnotationArg, FieldSchema, SchemaError};
use crate::schema::{custom_generator_directive, custom_member_directive};
use crate::program::{FieldGenerator, FieldGeneratorView, PrimitiveType};

verus! {

/// What a set of annotations says about one directive.
pub enum Lookup {
    /// No annotation carries the directive.
    Absent,
    /// The first annotation that carries it names this identifier.
    Found(Seq<char>),
    /// The first annotation that carries it has no identifier as argument.
    Invalid,
}

/// What the annotation at `from`, or the first one after it that is the
/// directive `name`, says.
pub open spec fn lookup_from(attrs: Seq<Annotation>, name: Seq<char>, from: int) -> Lookup
    decreases attrs.len() - from,
{
    if from < 0 || from >= attrs.len() {
        Lookup::Absent
    } else if attrs[from].is_named(name) {
        match attrs[from].arg {
            AnnotationArg::Ident(id) => Lookup::Found(id@),
            _ => Lookup::Invalid,
        }
    } else {
        lookup_from(attrs, name, from + 1)
    }
}

/// What `attrs` says about the directive `name`: the first annotation of
/// that name decides.
pub open spec fn lookup(attrs: Seq<Annotation>, name: Seq<char>) -> Lookup {
    lookup_from(attrs, name, 0)
}

/// The identifier that the directive `name` carries in `attrs`.
pub fn get_attr_value(attrs: &Vec<Annotation>, name: &str) -> (r: Result<Option<String>, SchemaError>)
    ensures
        match lookup(attrs@, name@) {
            Lookup::Absent => r == Ok::<Option<String>, SchemaError>(None),
            Lookup::Found(id) => r matches Ok(Some(s)) && s@ == id,
            Lookup::Invalid => r == Err::<Option<String>, SchemaError>(
                SchemaError::InvalidOverrideName,
            ),
        },
{
    let wanted = name.to_owned();
    let mut i: usize = 0;
    while i < attrs.len()
        invariant
            i <= attrs.len(),
            wanted@ == name@,
            lookup(attrs@, name@) == lookup_from(attrs@, name@, i as int),
        decreases attrs.len() - i,
    {
        let named = match &attrs[i].name {
            Some(n) => *n == wanted,
            None => false,
        };
        if named {
            match &attrs[i].arg {
                AnnotationArg::Ident(id) => {
                    return Ok(Some(id.clone()));
                },
                _ => {
                    return Err(SchemaError::InvalidOverrideName);
                },
            }
        }
        i += 1;
    }
    Ok(None)
}

/// The identifier of the annotation at `from`, or of the first one after it,
/// that is the directive `name` and carries an identifier.
pub open spec fn identifier_from(attrs: Seq<Annotation>, name: Seq<char>, from: int) -> Option<
    Seq<char>,
>
    decreases attrs.len() - from,
{
    if from < 0 || from >= attrs.len() {
        None
    } else if attrs[from].is_named(name) && attrs[from].arg is Ident {
        Some(attrs[from].arg->Ident_0@)
    } else {
        identifier_from(attrs, name, from + 1)
    }
}

/// The context type that `attrs` names: the identifier of the first
/// annotation that is the directive `name` and carries one. An annotation of
/// that name without an identifier is passed over; where none carries an
/// identifier, the type names no context.
pub open spec fn context_type(attrs: Seq<Annotation>, name: Seq<char>) -> Result<
    Seq<char>,
    SchemaError,
> {
    match identifier_from(attrs, name, 0) {
        Some(c) => Ok(c),
        None => match lookup(attrs, name) {
            Lookup::Absent => Err(SchemaError::MissingContextType),
            _ => Err(SchemaError::InvalidOverrideName),
        },
    }
}

/// The context type that the directive `name` gives in `attrs`.
pub fn get_context_type(attrs: &Vec<Annotation>, name: &str) -> (r: Result<String, SchemaError>)
    ensures
        match context_type(attrs@, name@) {
            Ok(c) => r matches Ok(s) && s@ == c,
            Err(e) => r == Err::<String, SchemaError>(e),
        },
{
    let wanted = name.to_owned();
    let mut i: usize = 0;
    while i < attrs.len()
        invariant
            i <= attrs.len(),
            wanted@ == name@,
            identifier_from(attrs@, name@, 0) == identifier_from(attrs@, name@, i as int),
        decreases attrs.len() - i,
    {
        let named = match &attrs[i].name {
            Some(n) => *n == wanted,
            None => false,
        };
        if named {
            if let AnnotationArg::Ident(id) = &attrs[i].arg {
                return Ok(id.clone());
            }
        }
        i += 1;
    }
    proof {
        lemma_no_identifier(attrs@, name@, 0);
    }
    match get_attr_value(attrs, name) {
        Err(e) => Err(e),
        Ok(_) => Err(SchemaError::MissingContextType),
    }
}

/// Where no annotation from `from` on carries an identifier under `name`,
/// none is found there.
proof fn lemma_no_identifier(attrs: Seq<Annotation>, name: Seq<char>, from: int)
    requires
        0 <= from,
        identifier_from(attrs, name, from) is None,
    ensures
        !(lookup_from(attrs, name, from) is Found),
    decreases attrs.len() - from,
{
    if from < attrs.len() {
        if !attrs[from].is_named(name) {
            lemma_no_identifier(attrs, name, from + 1);
        }
    }
}

/// The generator of a field's declared type: its default distribution where
/// the type is a scalar, else the type's own entry point.
pub open spec fn type_generator(ty: Seq<char>) -> FieldGeneratorView {
    match PrimitiveType::named(ty) {
        Some(p) => FieldGeneratorView::Primitive(p),
        None => FieldGeneratorView::Recursive(ty),
    }
}

/// The strategy that applies to `field`, by precedence: a function of the
/// random source, then a method of the context, then the declared type.
pub open spec fn field_generator(field: FieldSchema) -> Result<FieldGeneratorView, SchemaError> {
    match lookup(field.attrs@, custom_generator_directive()) {
        Lookup::Found(f) => Ok(FieldGeneratorView::Literal(f)),
        Lookup::Invalid => Err(SchemaError::InvalidOverrideName),
        Lookup::Absent => match lookup(field.attrs@, custom_member_directive()) {
            Lookup::Found(m) => Ok(FieldGeneratorView::ContextMember(m)),
            Lookup::Invalid => Err(SchemaError::InvalidOverrideName),
            Lookup::Absent => Ok(type_generator(field.ty@)),
        },
    }
}

/// Resolves the one strategy that generates `field`.
pub fn get_field_generator(field: &FieldSchema) -> (r: Result<FieldGenerator, SchemaError>)
    ensures
        match field_generator(*field) {
            Ok(g) => r matches Ok(x) && x@ == g,
            Err(e) => r == Err::<FieldGenerator, SchemaError>(e),
        },
{
    match get_attr_value(&field.attrs, "custom_rand") {
        Err(e) => {
            return Err(e);
        },
        Ok(Some(f)) => {
            return Ok(FieldGenerator::Literal(f));
        },
        Ok(None) => {},
    }
    match get_attr_value(&field.attrs, "custom_rand_member") {
        Err(e) => {
            return Err(e);
        },
        Ok(Some(m)) => {
            return Ok(FieldGenerator::ContextMember(m));
        },
        Ok(None) => {},
    }
    match PrimitiveType::from_name(&field.ty) {
        Some(p) => Ok(FieldGenerator::Primitive(p)),
        None => Ok(FieldGenerator::Recursive(field.ty.clone())),
    }
}

/// A function of the random source, where a field names one, is the field's
/// generator whatever else the field carries: a method of the context named
/// beside it is never consulted.
pub proof fn lemma_literal_generator_wins(field: FieldSchema, f: Seq<char>)
    requires
        lookup(field.attrs@, custom_generator_directive()) == Lookup::Found(f),
    ensures
        field_generator(field) == Ok::<FieldGeneratorView, SchemaError>(
            FieldGeneratorView::Literal(f),
        ),
{
}

} // verus!
