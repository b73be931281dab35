//! Typed attributes: the key-value pairs that a log event carries and that
//! it inherits from the logging scopes around it.

use vstd::prelude::*;
use crate::json::{json_model, JsonModel};

verus! {

/// The value of an attribute: one of a closed set of typed forms.
#[derive(Debug, PartialEq)]
pub enum AttributeValue {
    I8(i8),
    I16(i16),
    I32(i32),
    I64(i64),
    Isize(isize),
    U8(u8),
    U16(u16),
    U32(u32),
    U64(u64),
    Usize(usize),
    Bool(bool),
    /// A string.
    Str(String),
    /// Text that the caller has rendered with its own formatting.
    Arguments(String),
    /// The unit value.
    Unit,
    /// The absence of a value.
    Absent,
    /// A value that the caller has already converted to JSON. Floating-point
    /// attributes arrive in this form: the conversion of a floating-point
    /// number is not part of this library.
    Json(serde_json::Value),
}

impl AttributeValue {
    /// The JSON value that stands for this attribute value in a message.
    /// Integers keep sign and magnitude whatever their width, rendered text
    /// is a plain string, and unit and absence are both `null`.
    pub open spec fn model(self) -> JsonModel {
        match self {
            AttributeValue::I8(n) => JsonModel::Integer(n as int),
            AttributeValue::I16(n) => JsonModel::Integer(n as int),
            AttributeValue::I32(n) => JsonModel::Integer(n as int),
            AttributeValue::I64(n) => JsonModel::Integer(n as int),
            AttributeValue::Isize(n) => JsonModel::Integer(n as int),
            AttributeValue::U8(n) => JsonModel::Integer(n as int),
            AttributeValue::U16(n) => JsonModel::Integer(n as int),
            AttributeValue::U32(n) => JsonModel::Integer(n as int),
            AttributeValue::U64(n) => JsonModel::Integer(n as int),
            AttributeValue::Usize(n) => JsonModel::Integer(n as int),
            AttributeValue::Bool(b) => JsonModel::Bool(b),
            AttributeValue::Str(s) => JsonModel::Text(s@),
            AttributeValue::Arguments(s) => JsonModel::Text(s@),
            AttributeValue::Unit => JsonModel::Null,
            AttributeValue::Absent => JsonModel::Null,
            AttributeValue::Json(value) => json_model(value),
        }
    }

    /// The number that a value of an integer form holds.
    pub open spec fn integer(self) -> Option<int> {
        match self {
            AttributeValue::I8(n) => Some(n as int),
            AttributeValue::I16(n) => Some(n as int),
            AttributeValue::I32(n) => Some(n as int),
            AttributeValue::I64(n) => Some(n as int),
            AttributeValue::Isize(n) => Some(n as int),
            AttributeValue::U8(n) => Some(n as int),
            AttributeValue::U16(n) => Some(n as int),
            AttributeValue::U32(n) => Some(n as int),
            AttributeValue::U64(n) => Some(n as int),
            AttributeValue::Usize(n) => Some(n as int),
            _ => None,
        }
    }

    /// The text that a string or rendered text holds.
    pub open spec fn text(self) -> Option<Seq<char>> {
        match self {
            AttributeValue::Str(s) => Some(s@),
            AttributeValue::Arguments(s) => Some(s@),
            _ => None,
        }
    }

    /// The truth value that a boolean holds.
    pub open spec fn truth(self) -> Option<bool> {
        match self {
            AttributeValue::Bool(b) => Some(b),
            _ => None,
        }
    }
}

/// What serializing keeps of a typed value: two values have the same JSON
/// value exactly when they hold the same number, the same text or the same
/// truth value, or when both hold none of these, as unit and absence do. So
/// the JSON value gives back the number, text or truth value that went in;
/// the width of an integer, the difference between a string and rendered
/// text and the difference between unit and absence do not survive.
pub proof fn lemma_model_keeps_the_value(a: AttributeValue, b: AttributeValue)
    requires
        a !is Json,
        b !is Json,
    ensures
        a.model() == b.model() <==> (a.integer() == b.integer() && a.text() == b.text()
            && a.truth() == b.truth()),
{
}

impl Clone for AttributeValue {
    /// A copy of the same form that stands for the same JSON value. But for
    /// a value already in JSON, the copy is equal to the value it is made of.
    fn clone(&self) -> (copy: AttributeValue)
        ensures
            copy.model() == self.model(),
            copy is Json <==> self is Json,
            self !is Json ==> copy == *self,
    {
        match self {
            AttributeValue::I8(n) => AttributeValue::I8(*n),
            AttributeValue::I16(n) => AttributeValue::I16(*n),
            AttributeValue::I32(n) => AttributeValue::I32(*n),
            AttributeValue::I64(n) => AttributeValue::I64(*n),
            AttributeValue::Isize(n) => AttributeValue::Isize(*n),
            AttributeValue::U8(n) => AttributeValue::U8(*n),
            AttributeValue::U16(n) => AttributeValue::U16(*n),
            AttributeValue::U32(n) => AttributeValue::U32(*n),
            AttributeValue::U64(n) => AttributeValue::U64(*n),
            AttributeValue::Usize(n) => AttributeValue::Usize(*n),
            AttributeValue::Bool(b) => AttributeValue::Bool(*b),
            AttributeValue::Str(s) => AttributeValue::Str(s.clone()),
            AttributeValue::Arguments(s) => AttributeValue::Arguments(s.clone()),
            AttributeValue::Unit => AttributeValue::Unit,
            AttributeValue::Absent => AttributeValue::Absent,
            AttributeValue::Json(value) => AttributeValue::Json(value.clone()),
        }
    }
}

/// A named attribute.
#[derive(Debug, PartialEq)]
pub struct Attribute {
    pub key: String,
    pub value: AttributeValue,
}

impl Clone for Attribute {
    /// A copy with the same name that stands for the same JSON value.
    fn clone(&self) -> (copy: Attribute)
        ensures
            copy.key@ == self.key@,
            copy.value.model() == self.value.model(),
    {
        Attribute { key: self.key.clone(), value: self.value.clone() }
    }
}

impl Attribute {
    /// An attribute named `key` with the value `value`.
    pub fn new(key: &str, value: AttributeValue) -> (attribute: Attribute)
        ensures
            attribute.key@ == key@,
            attribute.value == value,
    {
        Attribute { key: key.to_owned(), value }
    }
}

} // verus!
