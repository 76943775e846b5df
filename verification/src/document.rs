//! What a command reads of the document that carries it: the fields in
//! order, and of each value its kind and, for the kinds that commands look
//! into, its content.

use vstd::prelude::*;
use vstd::string::*;
use crate::error::CommandError;

verus! {

/// The kinds of value that a document can hold.
#[derive(Clone, Copy, Debug, PartialEq, Eq, Structural)]
pub enum ElementType {
    Double,
    String,
    EmbeddedDocument,
    Array,
    Binary,
    Undefined,
    ObjectId,
    Boolean,
    DateTime,
    Null,
    RegularExpression,
    DbPointer,
    JavaScriptCode,
    Symbol,
    JavaScriptCodeWithScope,
    Int32,
    Timestamp,
    Int64,
    Decimal128,
    MaxKey,
    MinKey,
}

impl ElementType {
    /// The name of the kind, as error messages show it.
    pub open spec fn spec_name(self) -> Seq<char> {
        match self {
            ElementType::Double => "Double"@,
            ElementType::String => "String"@,
            ElementType::EmbeddedDocument => "EmbeddedDocument"@,
            ElementType::Array => "Array"@,
            ElementType::Binary => "Binary"@,
            ElementType::Undefined => "Undefined"@,
            ElementType::ObjectId => "ObjectId"@,
            ElementType::Boolean => "Boolean"@,
            ElementType::DateTime => "DateTime"@,
            ElementType::Null => "Null"@,
            ElementType::RegularExpression => "RegularExpression"@,
            ElementType::DbPointer => "DbPointer"@,
            ElementType::JavaScriptCode => "JavaScriptCode"@,
            ElementType::Symbol => "Symbol"@,
            ElementType::JavaScriptCodeWithScope => "JavaScriptCodeWithScope"@,
            ElementType::Int32 => "Int32"@,
            ElementType::Timestamp => "Timestamp"@,
            ElementType::Int64 => "Int64"@,
            ElementType::Decimal128 => "Decimal128"@,
            ElementType::MaxKey => "MaxKey"@,
            ElementType::MinKey => "MinKey"@,
        }
    }

    /// The name of the kind, as error messages show it.
    pub fn name(self) -> (r: &'static str)
        ensures
            r@ == self.spec_name(),
    {
        match self {
            ElementType::Double => "Double",
            ElementType::String => "String",
            ElementType::EmbeddedDocument => "EmbeddedDocument",
            ElementType::Array => "Array",
            ElementType::Binary => "Binary",
            ElementType::Undefined => "Undefined",
            ElementType::ObjectId => "ObjectId",
            ElementType::Boolean => "Boolean",
            ElementType::DateTime => "DateTime",
            ElementType::Null => "Null",
            ElementType::RegularExpression => "RegularExpression",
            ElementType::DbPointer => "DbPointer",
            ElementType::JavaScriptCode => "JavaScriptCode",
            ElementType::Symbol => "Symbol",
            ElementType::JavaScriptCodeWithScope => "JavaScriptCodeWithScope",
            ElementType::Int32 => "Int32",
            ElementType::Timestamp => "Timestamp",
            ElementType::Int64 => "Int64",
            ElementType::Decimal128 => "Decimal128",
            ElementType::MaxKey => "MaxKey",
            ElementType::MinKey => "MinKey",
        }
    }
}

/// A value that is no document: its content where commands read it, else
/// only its kind.
#[derive(Debug, Clone, PartialEq, Eq)]
pub enum Scalar {
    /// A binary64 number, as the 64 bits of its IEEE 754 form.
    Double(u64),
    String(String),
    Boolean(bool),
    Int32(i32),
    Int64(i64),
    Undefined,
    Null,
    /// A value of a kind whose content no command reads. A well-formed
    /// value names here only a kind that has no variant of its own.
    Other(ElementType),
}

/// One entry of an embedded document.
#[derive(Debug, Clone, PartialEq, Eq)]
pub struct Entry {
    pub key: String,
    pub value: Scalar,
}

/// The value of a field of a command.
#[derive(Debug, Clone, PartialEq, Eq)]
pub enum FieldValue {
    Scalar(Scalar),
    /// An embedded document as far as it could be read: its entries in
    /// order, and the error that ended the reading where one did. An entry
    /// that is itself a document or an array is known by its kind only.
    Document { entries: Vec<Entry>, unread: Option<CommandError> },
}

/// One field of a command document.
#[derive(Debug, Clone, PartialEq, Eq)]
pub struct Field {
    pub key: String,
    pub value: FieldValue,
}

/// The bits without the sign: zero for the number zero of either sign.
pub open spec fn double_magnitude(bits: u64) -> int {
    if bits >= 0x8000_0000_0000_0000 {
        bits - 0x8000_0000_0000_0000
    } else {
        bits as int
    }
}

/// Whether values of the kind are held with their content.
pub open spec fn held_with_content(kind: ElementType) -> bool {
    ||| kind == ElementType::Double
    ||| kind == ElementType::String
    ||| kind == ElementType::Boolean
    ||| kind == ElementType::Int32
    ||| kind == ElementType::Int64
    ||| kind == ElementType::Undefined
    ||| kind == ElementType::Null
}

impl Scalar {
    /// A value is well-formed where it is held by the variant of its kind:
    /// `Other` names no kind that has a variant of its own.
    pub open spec fn well_formed(self) -> bool {
        self matches Scalar::Other(kind) ==> !held_with_content(kind)
    }

    /// Whether the value is well-formed.
    pub fn is_well_formed(&self) -> (r: bool)
        ensures
            r == self.well_formed(),
    {
        match self {
            Scalar::Other(kind) => match kind {
                ElementType::Double => false,
                ElementType::String => false,
                ElementType::Boolean => false,
                ElementType::Int32 => false,
                ElementType::Int64 => false,
                ElementType::Undefined => false,
                ElementType::Null => false,
                _ => true,
            },
            _ => true,
        }
    }

    /// The kind of the value.
    pub open spec fn kind(self) -> ElementType {
        match self {
            Scalar::Double(_) => ElementType::Double,
            Scalar::String(_) => ElementType::String,
            Scalar::Boolean(_) => ElementType::Boolean,
            Scalar::Int32(_) => ElementType::Int32,
            Scalar::Int64(_) => ElementType::Int64,
            Scalar::Undefined => ElementType::Undefined,
            Scalar::Null => ElementType::Null,
            Scalar::Other(kind) => kind,
        }
    }

    /// The value as a truth value: a boolean is itself, a number is true
    /// unless it is zero, and no other kind is a truth value.
    pub open spec fn truth(self) -> Option<bool> {
        match self {
            Scalar::Boolean(b) => Some(b),
            Scalar::Int32(i) => Some(i != 0),
            Scalar::Int64(i) => Some(i != 0),
            Scalar::Double(bits) => Some(double_magnitude(bits) != 0),
            _ => None,
        }
    }

    /// The text of a string value.
    pub open spec fn text(self) -> Option<Seq<char>> {
        match self {
            Scalar::String(s) => Some(s@),
            _ => None,
        }
    }

    /// The kind of the value.
    pub fn element_type(&self) -> (r: ElementType)
        ensures
            r == self.kind(),
    {
        match self {
            Scalar::Double(_) => ElementType::Double,
            Scalar::String(_) => ElementType::String,
            Scalar::Boolean(_) => ElementType::Boolean,
            Scalar::Int32(_) => ElementType::Int32,
            Scalar::Int64(_) => ElementType::Int64,
            Scalar::Undefined => ElementType::Undefined,
            Scalar::Null => ElementType::Null,
            Scalar::Other(kind) => *kind,
        }
    }
}

impl FieldValue {
    /// A value is well-formed where it is held by the variant of its kind:
    /// an embedded document is a `Document`, and every scalar, also each
    /// entry of a document, is well-formed.
    pub open spec fn well_formed(self) -> bool {
        match self {
            FieldValue::Scalar(s) => s.well_formed() && s.kind() != ElementType::EmbeddedDocument,
            FieldValue::Document { entries, .. } => forall|i: int|
                0 <= i < entries.len() ==> (#[trigger] entries[i]).value.well_formed(),
        }
    }

    /// Whether the value is well-formed.
    pub fn is_well_formed(&self) -> (r: bool)
        ensures
            r == self.well_formed(),
    {
        match self {
            FieldValue::Scalar(s) => {
                s.is_well_formed() && !matches!(s, Scalar::Other(ElementType::EmbeddedDocument))
            },
            FieldValue::Document { entries, .. } => {
                let mut i: usize = 0;
                while i < entries.len()
                    invariant
                        *self matches FieldValue::Document { entries: held, .. } && held == *entries,
                        0 <= i <= entries.len(),
                        forall|j: int| 0 <= j < i ==> (#[trigger] entries[j]).value.well_formed(),
                    decreases entries.len() - i,
                {
                    if !entries[i].value.is_well_formed() {
                        assert(!entries[i as int].value.well_formed());
                        return false;
                    }
                    i = i + 1;
                }
                true
            },
        }
    }

    /// The kind of the value.
    pub open spec fn kind(self) -> ElementType {
        match self {
            FieldValue::Scalar(s) => s.kind(),
            FieldValue::Document { .. } => ElementType::EmbeddedDocument,
        }
    }

    /// The text of a string value.
    pub open spec fn text(self) -> Option<Seq<char>> {
        match self {
            FieldValue::Scalar(s) => s.text(),
            FieldValue::Document { .. } => None,
        }
    }

    /// The kind of the value.
    pub fn element_type(&self) -> (r: ElementType)
        ensures
            r == self.kind(),
    {
        match self {
            FieldValue::Scalar(s) => s.element_type(),
            FieldValue::Document { .. } => ElementType::EmbeddedDocument,
        }
    }

    /// The text of a string value.
    pub fn as_str(&self) -> (r: Option<&str>)
        ensures
            match r {
                Some(text) => self.text() == Some(text@),
                None => self.text() is None,
            },
    {
        match self {
            FieldValue::Scalar(Scalar::String(s)) => Some(s.as_str()),
            _ => None,
        }
    }
}

/// Of a well-formed value the kind decides whether it is a truth value:
/// booleans and numbers are, and nothing else is.
pub proof fn lemma_truth_by_kind(value: Scalar)
    requires
        value.well_formed(),
    ensures
        value.truth() is Some <==> (value.kind() == ElementType::Boolean || value.kind()
            == ElementType::Int32 || value.kind() == ElementType::Int64 || value.kind()
            == ElementType::Double),
        value.text() is Some <==> value.kind() == ElementType::String,
{
}

/// Reads a value as a truth value: a boolean is itself, a number is true
/// unless it is zero, and a value of any other kind is none.
pub fn convert_to_bool(value: &Scalar) -> (r: Option<bool>)
    requires
        value.well_formed(),
    ensures
        r == value.truth(),
{
    match value {
        Scalar::Boolean(b) => Some(*b),
        Scalar::Int32(i) => Some(*i != 0),
        Scalar::Int64(i) => Some(*i != 0),
        Scalar::Double(bits) => {
            let magnitude: u64 = if *bits >= 0x8000_0000_0000_0000 {
                *bits - 0x8000_0000_0000_0000
            } else {
                *bits
            };
            Some(magnitude != 0)
        },
        _ => None,
    }
}

} // verus!
