//! Generated values.

use vstd::prelude::*;
use crate::program::{EntityName, PrimitiveType};

verus! {

/// One generated instance.
#[derive(Debug, PartialEq, Eq)]
pub enum Value {
    Bool(bool),
    U8(u8),
    U16(u16),
    U32(u32),
    U64(u64),
    I8(i8),
    I16(i16),
    I32(i32),
    I64(i64),
    U128(u128),
    Usize(usize),
    I128(i128),
    Isize(isize),
    Char(char),
    /// A struct or a variant of an enum, with the values of its fields in
    /// declaration order.
    Entity { entity: EntityName, fields: ValueFields },
}

/// The field values of an entity, in declaration order.
#[derive(Debug, PartialEq, Eq)]
pub enum ValueFields {
    Unit,
    Positional(Vec<Value>),
    Named(Vec<NamedValue>),
}

/// The value of one field of a record, under the field's identifier.
#[derive(Debug, PartialEq, Eq)]
pub struct NamedValue {
    pub ident: String,
    pub value: Value,
}

impl Value {
    /// The scalar type of the value; `None` for an entity.
    pub open spec fn primitive_type(self) -> Option<PrimitiveType> {
        match self {
            Value::Bool(_) => Some(PrimitiveType::Bool),
            Value::U8(_) => Some(PrimitiveType::U8),
            Value::U16(_) => Some(PrimitiveType::U16),
            Value::U32(_) => Some(PrimitiveType::U32),
            Value::U64(_) => Some(PrimitiveType::U64),
            Value::I8(_) => Some(PrimitiveType::I8),
            Value::I16(_) => Some(PrimitiveType::I16),
            Value::I32(_) => Some(PrimitiveType::I32),
            Value::I64(_) => Some(PrimitiveType::I64),
            Value::U128(_) => Some(PrimitiveType::U128),
            Value::Usize(_) => Some(PrimitiveType::Usize),
            Value::I128(_) => Some(PrimitiveType::I128),
            Value::Isize(_) => Some(PrimitiveType::Isize),
            Value::Char(_) => Some(PrimitiveType::Char),
            Value::Entity { .. } => None,
        }
    }
}

} // verus!
