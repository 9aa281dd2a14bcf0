//! Searches as trees of queries, and what knows the fields that they name.

pub mod compile;
pub mod engine;
pub mod laws;
pub mod plan;
pub mod term;
pub mod value;

pub use crate::query::compile::{answers, compiled};
pub use crate::query::plan::{DocumentField, MoreLikeThisLimits, TantivyQuery};
pub use crate::query::term::value_to_term;
pub use crate::query::value::{Bound, FieldValue, SearchTerm};

use crate::schema::engine::FieldKind;
use crate::schema::SearchFieldId;
use vstd::prelude::*;

verus! {

/// A search, as a caller writes it down: a tree of queries that name
/// fields and give literals.
///
/// A boost, a score, a tie breaker and a boost factor are the bits of a
/// 32-bit IEEE 754 float.
#[derive(Debug, PartialEq, Eq)]
#[allow(inconsistent_fields)]
pub enum SearchQueryInput {
    /// Every document.
    All,
    /// The documents that match every query of `must` and none of
    /// `must_not`; those of `should` count for the score.
    Boolean {
        must: Vec<SearchQueryInput>,
        should: Vec<SearchQueryInput>,
        must_not: Vec<SearchQueryInput>,
    },
    /// The documents of `query`, each score multiplied by `boost`.
    Boost { query: Box<SearchQueryInput>, boost: u32 },
    /// The documents of `query`, each with the score `score`.
    ConstScore { query: Box<SearchQueryInput>, score: u32 },
    /// The documents of any of `disjuncts`, scored by the best of them.
    DisjunctionMax { disjuncts: Vec<SearchQueryInput>, tie_breaker: Option<u32> },
    /// No document.
    Empty,
    /// The documents whose field of integers lies in the range.
    FastFieldRangeWeight { field: String, lower_bound: Bound<u64>, upper_bound: Bound<u64> },
    /// The documents with a term close to `value` in a text field: within
    /// `distance` edits, one where none is given. A transposition costs one
    /// edit only where that is asked for. With `prefix`, a term counts that
    /// begins with something close to `value`.
    FuzzyTerm {
        field: String,
        value: String,
        distance: Option<u8>,
        tranposition_cost_one: Option<bool>,
        prefix: Option<bool>,
    },
    /// The documents that are similar to one that holds the values of
    /// `fields`. A limit that is absent is left to the engine.
    MoreLikeThis {
        min_doc_frequency: Option<u64>,
        max_doc_frequency: Option<u64>,
        min_term_frequency: Option<usize>,
        max_query_terms: Option<usize>,
        min_word_length: Option<usize>,
        max_word_length: Option<usize>,
        boost_factor: Option<u32>,
        stop_words: Option<Vec<String>>,
        fields: Vec<(String, FieldValue)>,
    },
    /// What the free-text parser makes of the string.
    Parse { query_string: String },
    /// The documents that hold the texts next to each other in a text
    /// field, each text taken as one term.
    Phrase { field: String, phrases: Vec<String>, slop: Option<u32> },
    /// As `Phrase`, the last text taken as a beginning.
    PhrasePrefix { field: String, phrases: Vec<String>, max_expansions: Option<u32> },
    /// The documents whose field lies between the bounds.
    Range { field: String, lower_bound: Bound<FieldValue>, upper_bound: Bound<FieldValue> },
    /// The documents with a term of a text field that the pattern takes.
    Regex { field: String, pattern: String },
    /// The documents that hold the literal in the field, or, where no field
    /// is named, in any field that can hold it.
    Term { field: Option<String>, value: FieldValue },
    /// The documents that hold any of the named literals.
    TermSet { terms: Vec<(String, FieldValue)> },
}

impl Default for SearchQueryInput {
    fn default() -> (query: Self)
        ensures
            query is Empty,
    {
        SearchQueryInput::Empty
    }
}

/// Why a query cannot be compiled.
#[derive(Debug, PartialEq, Eq)]
pub enum QueryError {
    /// The field exists, but its type cannot serve the query.
    WrongFieldType(String),
    /// The schema has no field of that name.
    NonIndexedField(String),
    /// The literal cannot be written as a term of the field.
    FieldTypeMismatch,
    /// The engine does not take the pattern, the second part, as a regular
    /// expression; the first part is what it says against it.
    RegexError(String, String),
    /// The free-text parser does not take the query string, the second part;
    /// the first part is what it says against it.
    ParseError(String, String),
}

/// The mathematical value of a [`QueryError`].
pub enum QueryErrorModel {
    WrongFieldType(Seq<char>),
    NonIndexedField(Seq<char>),
    FieldTypeMismatch,
    RegexError(Seq<char>, Seq<char>),
    ParseError(Seq<char>, Seq<char>),
}

impl View for QueryError {
    type V = QueryErrorModel;

    open spec fn view(&self) -> QueryErrorModel {
        match self {
            QueryError::WrongFieldType(field) => QueryErrorModel::WrongFieldType(field@),
            QueryError::NonIndexedField(field) => QueryErrorModel::NonIndexedField(field@),
            QueryError::FieldTypeMismatch => QueryErrorModel::FieldTypeMismatch,
            QueryError::RegexError(said, pattern) => QueryErrorModel::RegexError(said@, pattern@),
            QueryError::ParseError(said, query) => QueryErrorModel::ParseError(said@, query@),
        }
    }
}

/// The handle of a resolved field, where the field has the wanted physical
/// type.
pub open spec fn of_kind(found: Option<(FieldKind, SearchFieldId)>, wanted: FieldKind) -> Option<
    SearchFieldId,
> {
    match found {
        Some(field) => if field.0 == wanted {
            Some(field.1)
        } else {
            None
        },
        None => None,
    }
}

/// Something that knows the fields of an index: for each its physical type
/// and its handle.
pub trait AsFieldType<T> {
    /// What must hold of the value for its fields to be asked for. A type
    /// that does not say what is asked of it cannot be asked at all.
    open spec fn valid(&self) -> bool {
        false
    }

    /// Every field, in the order of the schema.
    open spec fn field_table(&self) -> Seq<(FieldKind, SearchFieldId)> {
        Seq::empty()
    }

    /// The field that `from` names.
    open spec fn resolve(&self, from: &T) -> Option<(FieldKind, SearchFieldId)> {
        None
    }

    /// Every field, in the order of the schema.
    fn fields(&self) -> (all: Vec<(FieldKind, SearchFieldId)>)
        requires
            self.valid(),
        ensures
            all@ == self.field_table(),
    ;

    /// The field that `from` names.
    fn as_field_type(&self, from: &T) -> (found: Option<(FieldKind, SearchFieldId)>)
        requires
            self.valid(),
        ensures
            found == self.resolve(from),
    ;

    /// Whether `from` names a field whose physical type holds values of the
    /// representation of `value`.
    fn is_field_type(&self, from: &T, value: &FieldValue) -> (matches: bool)
        requires
            self.valid(),
        ensures
            matches == match self.resolve(from) {
                Some(found) => value@.matches_kind(found.0),
                None => false,
            },
    {
        match self.as_field_type(from) {
            Some(found) => value.has_kind(found.0),
            None => false,
        }
    }

    /// The field that `from` names, if it holds text.
    fn as_str(&self, from: &T) -> (field: Option<SearchFieldId>)
        requires
            self.valid(),
        ensures
            field == of_kind(self.resolve(from), FieldKind::Str),
    {
        match self.as_field_type(from) {
            Some((FieldKind::Str, field)) => Some(field),
            _ => None,
        }
    }

    /// The field that `from` names, if it holds unsigned integers.
    fn as_u64(&self, from: &T) -> (field: Option<SearchFieldId>)
        requires
            self.valid(),
        ensures
            field == of_kind(self.resolve(from), FieldKind::U64),
    {
        match self.as_field_type(from) {
            Some((FieldKind::U64, field)) => Some(field),
            _ => None,
        }
    }

    /// The field that `from` names, if it holds signed integers.
    fn as_i64(&self, from: &T) -> (field: Option<SearchFieldId>)
        requires
            self.valid(),
        ensures
            field == of_kind(self.resolve(from), FieldKind::I64),
    {
        match self.as_field_type(from) {
            Some((FieldKind::I64, field)) => Some(field),
            _ => None,
        }
    }

    /// The field that `from` names, if it holds floats.
    fn as_f64(&self, from: &T) -> (field: Option<SearchFieldId>)
        requires
            self.valid(),
        ensures
            field == of_kind(self.resolve(from), FieldKind::F64),
    {
        match self.as_field_type(from) {
            Some((FieldKind::F64, field)) => Some(field),
            _ => None,
        }
    }

    /// The field that `from` names, if it holds booleans.
    fn as_bool(&self, from: &T) -> (field: Option<SearchFieldId>)
        requires
            self.valid(),
        ensures
            field == of_kind(self.resolve(from), FieldKind::Bool),
    {
        match self.as_field_type(from) {
            Some((FieldKind::Bool, field)) => Some(field),
            _ => None,
        }
    }

    /// The field that `from` names, if it holds dates.
    fn as_date(&self, from: &T) -> (field: Option<SearchFieldId>)
        requires
            self.valid(),
        ensures
            field == of_kind(self.resolve(from), FieldKind::Date),
    {
        match self.as_field_type(from) {
            Some((FieldKind::Date, field)) => Some(field),
            _ => None,
        }
    }

    /// The field that `from` names, if it holds hierarchical paths.
    fn as_facet(&self, from: &T) -> (field: Option<SearchFieldId>)
        requires
            self.valid(),
        ensures
            field == of_kind(self.resolve(from), FieldKind::Facet),
    {
        match self.as_field_type(from) {
            Some((FieldKind::Facet, field)) => Some(field),
            _ => None,
        }
    }

    /// The field that `from` names, if it holds bytes.
    fn as_bytes(&self, from: &T) -> (field: Option<SearchFieldId>)
        requires
            self.valid(),
        ensures
            field == of_kind(self.resolve(from), FieldKind::Bytes),
    {
        match self.as_field_type(from) {
            Some((FieldKind::Bytes, field)) => Some(field),
            _ => None,
        }
    }

    /// The field that `from` names, if it holds structured objects.
    fn as_json_object(&self, from: &T) -> (field: Option<SearchFieldId>)
        requires
            self.valid(),
        ensures
            field == of_kind(self.resolve(from), FieldKind::JsonObject),
    {
        match self.as_field_type(from) {
            Some((FieldKind::JsonObject, field)) => Some(field),
            _ => None,
        }
    }

    /// The field that `from` names, if it holds addresses.
    fn as_ip_addr(&self, from: &T) -> (field: Option<SearchFieldId>)
        requires
            self.valid(),
        ensures
            field == of_kind(self.resolve(from), FieldKind::IpAddr),
    {
        match self.as_field_type(from) {
            Some((FieldKind::IpAddr, field)) => Some(field),
            _ => None,
        }
    }
}

} // verus!
