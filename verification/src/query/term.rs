//! Writing a literal as a term of a field.

use crate::query::engine::{parse_timestamp, timestamp_micros_of};
use crate::query::value::{FieldValue, SearchTerm, TermModel, ValueModel};
use crate::query::QueryError;
use crate::schema::engine::FieldKind;
use crate::schema::SearchFieldId;
use vstd::prelude::*;

verus! {

/// The moment that a text spells, in microseconds from the Unix epoch: an
/// ISO timestamp in UTC, to the second or with a fraction of a second.
pub open spec fn date_micros(text: Seq<char>) -> Option<i64> {
    match timestamp_micros_of(text, "%Y-%m-%dT%H:%M:%SZ"@) {
        Some(micros) => Some(micros),
        None => timestamp_micros_of(text, "%Y-%m-%dT%H:%M:%S%.fZ"@),
    }
}

/// The representation in which a literal is written as a term of a field
/// of the given physical type; nothing where the field cannot hold it.
///
/// A text is a term of a text field as it stands, and of a date field as
/// the moment that it spells. An unsigned integer is a term of an unsigned
/// field as it stands, and of a signed field as the signed integer of the
/// same bits. Any other literal is a term only of a field of its own
/// representation.
pub open spec fn encoded(value: ValueModel, kind: FieldKind) -> Option<ValueModel> {
    match value {
        ValueModel::Str(text) => match kind {
            FieldKind::Str => Some(value),
            FieldKind::Date => match date_micros(text) {
                Some(micros) => Some(ValueModel::Date(micros)),
                None => None,
            },
            _ => None,
        },
        ValueModel::U64(number) => match kind {
            FieldKind::U64 => Some(value),
            FieldKind::I64 => Some(ValueModel::I64(number as i64)),
            _ => None,
        },
        ValueModel::PreTokStr(_) => None,
        ValueModel::JsonObject(_) => None,
        _ => if value.matches_kind(kind) {
            Some(value)
        } else {
            None
        },
    }
}

/// The signed integer of the same bits as an unsigned one: the number
/// itself where it fits, and else the number less two to the power of 64.
pub proof fn lemma_read_as_signed(number: u64)
    ensures
        number <= i64::MAX ==> (number as i64) as int == number as int,
        number > i64::MAX ==> (number as i64) as int == number as int - 0x1_0000_0000_0000_0000,
{
    assert(number <= 0x7fff_ffff_ffff_ffffu64 ==> (number as i64) as int == number as int) by (bit_vector);
    assert(number > 0x7fff_ffff_ffff_ffffu64 ==> (number as i64) as int == number as int
        - 0x1_0000_0000_0000_0000) by (bit_vector);
}

/// The term of a field for a literal; nothing where the field cannot hold
/// the literal.
pub open spec fn term_of(field: SearchFieldId, value: ValueModel, kind: FieldKind) -> Option<TermModel> {
    match encoded(value, kind) {
        Some(written) => Some(TermModel { field, value: written }),
        None => None,
    }
}

/// Reads the moment that a text spells.
pub fn parse_date(text: &str) -> (micros: Option<i64>)
    ensures
        micros == date_micros(text@),
{
    match parse_timestamp(text, "%Y-%m-%dT%H:%M:%SZ") {
        Some(micros) => Some(micros),
        None => parse_timestamp(text, "%Y-%m-%dT%H:%M:%S%.fZ"),
    }
}

/// The date that a text stands for in a date field, given what reading the
/// text as a moment gave: the date of that moment, and nothing where the
/// text spells none.
pub fn date_of_moment(micros: Option<i64>) -> (written: Option<FieldValue>)
    ensures
        match micros {
            Some(read) => written matches Some(held) && held@ == ValueModel::Date(read),
            None => written is None,
        },
{
    match micros {
        Some(read) => Some(FieldValue::Date(read)),
        None => None,
    }
}

/// Writes a literal in the representation of a field of the given physical
/// type.
pub fn encode_value(value: &FieldValue, kind: FieldKind) -> (written: Option<FieldValue>)
    requires
        value@.is_scalar(),
    ensures
        match written {
            Some(held) => encoded(value@, kind) == Some(held@),
            None => encoded(value@, kind) is None,
        },
{
    match value {
        FieldValue::Str(text) => match kind {
            FieldKind::Str => Some(FieldValue::Str(text.clone())),
            FieldKind::Date => date_of_moment(parse_date(text.as_str())),
            _ => None,
        },
        FieldValue::U64(number) => match kind {
            FieldKind::U64 => Some(FieldValue::U64(*number)),
            FieldKind::I64 => Some(FieldValue::I64(#[verifier::truncate] (*number as i64))),
            _ => None,
        },
        _ => if value.has_kind(kind) {
            Some(value.duplicate())
        } else {
            None
        },
    }
}

/// The term of a field for a literal, or the error that the field cannot
/// hold the literal.
pub fn value_to_term(field: SearchFieldId, value: FieldValue, field_type: FieldKind) -> (term: Result<
    SearchTerm,
    QueryError,
>)
    requires
        value@.is_scalar(),
    ensures
        match term {
            Ok(made) => term_of(field, value@, field_type) == Some(made@),
            Err(error) => error == QueryError::FieldTypeMismatch && term_of(
                field,
                value@,
                field_type,
            ) is None,
        },
{
    match encode_value(&value, field_type) {
        Some(written) => Ok(SearchTerm { field, value: written }),
        None => Err(QueryError::FieldTypeMismatch),
    }
}

} // verus!
