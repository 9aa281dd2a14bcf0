//! Literals, terms and the ends of ranges.

use crate::json::{JsonModel, JsonValue};
use crate::schema::engine::FieldKind;
use crate::schema::SearchFieldId;
use vstd::prelude::*;

verus! {

/// A literal of a query or of a document, by its runtime representation.
///
/// A float is held by the bits of its 64-bit IEEE 754 form, a date by the
/// microseconds since the Unix epoch, a hierarchical path by its text, and
/// an address by the 128 bits of its IPv6 form.
#[derive(Debug, PartialEq, Eq)]
pub enum FieldValue {
    Str(String),
    PreTokStr(String),
    U64(u64),
    I64(i64),
    F64(u64),
    Bool(bool),
    Date(i64),
    Facet(String),
    Bytes(Vec<u8>),
    JsonObject(JsonValue),
    IpAddr(u128),
}

/// The mathematical value of a [`FieldValue`].
pub enum ValueModel {
    Str(Seq<char>),
    PreTokStr(Seq<char>),
    U64(u64),
    I64(i64),
    F64(u64),
    Bool(bool),
    Date(i64),
    Facet(Seq<char>),
    Bytes(Seq<u8>),
    JsonObject(JsonModel),
    IpAddr(u128),
}

impl View for FieldValue {
    type V = ValueModel;

    open spec fn view(&self) -> ValueModel {
        match self {
            FieldValue::Str(text) => ValueModel::Str(text@),
            FieldValue::PreTokStr(text) => ValueModel::PreTokStr(text@),
            FieldValue::U64(number) => ValueModel::U64(*number),
            FieldValue::I64(number) => ValueModel::I64(*number),
            FieldValue::F64(bits) => ValueModel::F64(*bits),
            FieldValue::Bool(flag) => ValueModel::Bool(*flag),
            FieldValue::Date(micros) => ValueModel::Date(*micros),
            FieldValue::Facet(path) => ValueModel::Facet(path@),
            FieldValue::Bytes(bytes) => ValueModel::Bytes(bytes@),
            FieldValue::JsonObject(object) => ValueModel::JsonObject(object@),
            FieldValue::IpAddr(bits) => ValueModel::IpAddr(*bits),
        }
    }
}

impl ValueModel {
    /// Whether the value can stand in a term at all: a text that was split
    /// into tokens beforehand and a structured object cannot.
    pub open spec fn is_scalar(self) -> bool {
        !(self is PreTokStr) && !(self is JsonObject)
    }

    /// Whether a field of the given physical type holds values of this
    /// representation.
    pub open spec fn matches_kind(self, kind: FieldKind) -> bool {
        match self {
            ValueModel::Str(_) => kind == FieldKind::Str,
            ValueModel::PreTokStr(_) => false,
            ValueModel::U64(_) => kind == FieldKind::U64,
            ValueModel::I64(_) => kind == FieldKind::I64,
            ValueModel::F64(_) => kind == FieldKind::F64,
            ValueModel::Bool(_) => kind == FieldKind::Bool,
            ValueModel::Date(_) => kind == FieldKind::Date,
            ValueModel::Facet(_) => kind == FieldKind::Facet,
            ValueModel::Bytes(_) => kind == FieldKind::Bytes,
            ValueModel::JsonObject(_) => kind == FieldKind::JsonObject,
            ValueModel::IpAddr(_) => kind == FieldKind::IpAddr,
        }
    }
}

impl FieldValue {
    /// A copy of the value.
    pub fn duplicate(&self) -> (copy: FieldValue)
        ensures
            copy@ == self@,
    {
        match self {
            FieldValue::Str(text) => FieldValue::Str(text.clone()),
            FieldValue::PreTokStr(text) => FieldValue::PreTokStr(text.clone()),
            FieldValue::U64(number) => FieldValue::U64(*number),
            FieldValue::I64(number) => FieldValue::I64(*number),
            FieldValue::F64(bits) => FieldValue::F64(*bits),
            FieldValue::Bool(flag) => FieldValue::Bool(*flag),
            FieldValue::Date(micros) => FieldValue::Date(*micros),
            FieldValue::Facet(path) => FieldValue::Facet(path.clone()),
            FieldValue::Bytes(bytes) => FieldValue::Bytes(bytes.clone()),
            FieldValue::JsonObject(object) => FieldValue::JsonObject(object.duplicate()),
            FieldValue::IpAddr(bits) => FieldValue::IpAddr(*bits),
        }
    }

    /// Whether the value can stand in a term at all.
    pub fn is_scalar(&self) -> (scalar: bool)
        ensures
            scalar == self@.is_scalar(),
    {
        match self {
            FieldValue::PreTokStr(_) => false,
            FieldValue::JsonObject(_) => false,
            _ => true,
        }
    }

    /// Whether a field of the given physical type holds values of this
    /// representation.
    pub fn has_kind(&self, kind: FieldKind) -> (matches: bool)
        ensures
            matches == self@.matches_kind(kind),
    {
        match self {
            FieldValue::Str(_) => matches!(kind, FieldKind::Str),
            FieldValue::PreTokStr(_) => false,
            FieldValue::U64(_) => matches!(kind, FieldKind::U64),
            FieldValue::I64(_) => matches!(kind, FieldKind::I64),
            FieldValue::F64(_) => matches!(kind, FieldKind::F64),
            FieldValue::Bool(_) => matches!(kind, FieldKind::Bool),
            FieldValue::Date(_) => matches!(kind, FieldKind::Date),
            FieldValue::Facet(_) => matches!(kind, FieldKind::Facet),
            FieldValue::Bytes(_) => matches!(kind, FieldKind::Bytes),
            FieldValue::JsonObject(_) => matches!(kind, FieldKind::JsonObject),
            FieldValue::IpAddr(_) => matches!(kind, FieldKind::IpAddr),
        }
    }
}

impl Clone for FieldValue {
    fn clone(&self) -> (copy: Self)
        ensures
            copy@ == self@,
    {
        self.duplicate()
    }
}

/// A literal bound to a field: the unit of exact matches and of ranges.
#[derive(Debug, PartialEq, Eq)]
pub struct SearchTerm {
    /// The handle of the field.
    pub field: SearchFieldId,
    /// The literal, in the representation of the field's physical type.
    pub value: FieldValue,
}

/// The mathematical value of a [`SearchTerm`].
pub struct TermModel {
    pub field: SearchFieldId,
    pub value: ValueModel,
}

impl View for SearchTerm {
    type V = TermModel;

    open spec fn view(&self) -> TermModel {
        TermModel { field: self.field, value: self.value@ }
    }
}

impl Clone for SearchTerm {
    fn clone(&self) -> (copy: Self)
        ensures
            copy@ == self@,
    {
        SearchTerm { field: self.field, value: self.value.duplicate() }
    }
}

/// One end of a range.
#[derive(Debug, PartialEq, Eq)]
pub enum Bound<T> {
    /// The range reaches the value and holds it.
    Included(T),
    /// The range reaches the value and leaves it out.
    Excluded(T),
    /// The range has no end on this side.
    Unbounded,
}

} // verus!
