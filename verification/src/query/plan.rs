//! Compiled queries: searches in which nothing is left to resolve.

use crate::query::value::{Bound, FieldValue, SearchTerm, TermModel, ValueModel};
use crate::schema::engine::FieldKind;
use crate::schema::{IndexRecordOptionSchema, SearchFieldId};
use vstd::prelude::*;

verus! {

/// The values that a document holds in one field, for a search of similar
/// documents.
#[derive(Debug, PartialEq, Eq)]
pub struct DocumentField {
    /// The handle of the field.
    pub field: SearchFieldId,
    /// The values, in the order in which the query gave them.
    pub values: Vec<FieldValue>,
}

/// The mathematical value of a [`DocumentField`].
pub struct DocumentFieldModel {
    pub field: SearchFieldId,
    pub values: Seq<ValueModel>,
}

impl View for DocumentField {
    type V = DocumentFieldModel;

    open spec fn view(&self) -> DocumentFieldModel {
        DocumentFieldModel {
            field: self.field,
            values: self.values@.map_values(|value: FieldValue| value@),
        }
    }
}

/// The limits of a search of similar documents; a limit that is absent is
/// left to the engine.
#[derive(Debug, PartialEq, Eq)]
pub struct MoreLikeThisLimits {
    pub min_doc_frequency: Option<u64>,
    pub max_doc_frequency: Option<u64>,
    pub min_term_frequency: Option<usize>,
    pub max_query_terms: Option<usize>,
    pub min_word_length: Option<usize>,
    pub max_word_length: Option<usize>,
    /// The bits of a 32-bit IEEE 754 float.
    pub boost_factor: Option<u32>,
    pub stop_words: Option<Vec<String>>,
}

/// The mathematical value of [`MoreLikeThisLimits`].
pub struct MoreLikeThisLimitsModel {
    pub min_doc_frequency: Option<u64>,
    pub max_doc_frequency: Option<u64>,
    pub min_term_frequency: Option<usize>,
    pub max_query_terms: Option<usize>,
    pub min_word_length: Option<usize>,
    pub max_word_length: Option<usize>,
    pub boost_factor: Option<u32>,
    pub stop_words: Option<Seq<Seq<char>>>,
}

/// The texts of a list of strings.
pub open spec fn texts_of(strings: Seq<String>) -> Seq<Seq<char>> {
    strings.map_values(|text: String| text@)
}

/// The terms that a list of terms holds.
pub open spec fn terms_of(terms: Seq<SearchTerm>) -> Seq<TermModel> {
    terms.map_values(|term: SearchTerm| term@)
}

/// The fields that a list of document fields holds.
pub open spec fn document_fields_of(fields: Seq<DocumentField>) -> Seq<DocumentFieldModel> {
    fields.map_values(|field: DocumentField| field@)
}

impl View for MoreLikeThisLimits {
    type V = MoreLikeThisLimitsModel;

    open spec fn view(&self) -> MoreLikeThisLimitsModel {
        MoreLikeThisLimitsModel {
            min_doc_frequency: self.min_doc_frequency,
            max_doc_frequency: self.max_doc_frequency,
            min_term_frequency: self.min_term_frequency,
            max_query_terms: self.max_query_terms,
            min_word_length: self.min_word_length,
            max_word_length: self.max_word_length,
            boost_factor: self.boost_factor,
            stop_words: match self.stop_words {
                Some(words) => Some(texts_of(words@)),
                None => None,
            },
        }
    }
}

/// The end of a range of terms, by value.
pub open spec fn bound_of(bound: Bound<SearchTerm>) -> Bound<TermModel> {
    match bound {
        Bound::Included(term) => Bound::Included(term@),
        Bound::Excluded(term) => Bound::Excluded(term@),
        Bound::Unbounded => Bound::Unbounded,
    }
}

/// A query in which every field is resolved and every literal is encoded:
/// what is left to do is to hand each node to the engine.
///
/// A score, a boost and a tie breaker are the bits of a 32-bit IEEE 754
/// float.
#[derive(Debug, PartialEq, Eq)]
#[allow(inconsistent_fields)]
pub enum TantivyQuery {
    /// Every document.
    All,
    /// The documents that hold every query of `must`, none of `must_not`,
    /// and, for a better score, those of `should`.
    Boolean { must: Vec<TantivyQuery>, should: Vec<TantivyQuery>, must_not: Vec<TantivyQuery> },
    /// The documents of `query`, each score multiplied by `boost`.
    Boost { query: Box<TantivyQuery>, boost: u32 },
    /// The documents of `query`, each with the score `score`.
    ConstScore { query: Box<TantivyQuery>, score: u32 },
    /// The documents of any of `disjuncts`, scored by the best of them; with
    /// a tie breaker the others count by that factor.
    DisjunctionMax { disjuncts: Vec<TantivyQuery>, tie_breaker: Option<u32> },
    /// No document.
    Empty,
    /// The documents whose fast field of integers lies in the range.
    FastFieldRange { field: String, lower_bound: Bound<u64>, upper_bound: Bound<u64> },
    /// The documents with a term within `distance` edits of `term`, or,
    /// with `prefix`, of a beginning of it.
    Fuzzy { term: SearchTerm, distance: u8, transposition_cost_one: bool, prefix: bool },
    /// The documents that are similar to the one that holds `fields`.
    MoreLikeThis { limits: MoreLikeThisLimits, fields: Vec<DocumentField> },
    /// What the free-text parser makes of the string.
    Parse { query_string: String },
    /// The documents that hold the terms next to each other, in order.
    Phrase { terms: Vec<SearchTerm>, slop: Option<u32> },
    /// As `Phrase`, the last term taken as a beginning.
    PhrasePrefix { terms: Vec<SearchTerm>, max_expansions: Option<u32> },
    /// The documents whose field of type `kind` lies between the bounds.
    Range {
        field: String,
        kind: FieldKind,
        lower_bound: Bound<SearchTerm>,
        upper_bound: Bound<SearchTerm>,
    },
    /// The documents with a term of the field that the pattern takes.
    Regex { field: SearchFieldId, pattern: String },
    /// The documents that hold the term, read at the given level of detail.
    Term { term: SearchTerm, record: IndexRecordOptionSchema },
    /// The documents that hold any of the terms.
    TermSet { terms: Vec<SearchTerm> },
}

/// The mathematical value of a [`TantivyQuery`].
#[allow(inconsistent_fields)]
pub enum QueryModel {
    All,
    Boolean { must: Seq<QueryModel>, should: Seq<QueryModel>, must_not: Seq<QueryModel> },
    Boost { query: Box<QueryModel>, boost: u32 },
    ConstScore { query: Box<QueryModel>, score: u32 },
    DisjunctionMax { disjuncts: Seq<QueryModel>, tie_breaker: Option<u32> },
    Empty,
    FastFieldRange { field: Seq<char>, lower_bound: Bound<u64>, upper_bound: Bound<u64> },
    Fuzzy { term: TermModel, distance: u8, transposition_cost_one: bool, prefix: bool },
    MoreLikeThis { limits: MoreLikeThisLimitsModel, fields: Seq<DocumentFieldModel> },
    Parse { query_string: Seq<char> },
    Phrase { terms: Seq<TermModel>, slop: Option<u32> },
    PhrasePrefix { terms: Seq<TermModel>, max_expansions: Option<u32> },
    Range {
        field: Seq<char>,
        kind: FieldKind,
        lower_bound: Bound<TermModel>,
        upper_bound: Bound<TermModel>,
    },
    Regex { field: SearchFieldId, pattern: Seq<char> },
    Term { term: TermModel, record: IndexRecordOptionSchema },
    TermSet { terms: Seq<TermModel> },
}

/// The values of a list of queries.
pub open spec fn models_of(queries: Seq<TantivyQuery>) -> Seq<QueryModel>
    decreases queries,
{
    Seq::new(
        queries.len(),
        |i: int|
            if 0 <= i < queries.len() {
                queries[i].model()
            } else {
                QueryModel::Empty
            },
    )
}

impl TantivyQuery {
    /// The mathematical value of the query.
    pub open spec fn model(&self) -> QueryModel
        decreases self,
    {
        match self {
            TantivyQuery::All => QueryModel::All,
            TantivyQuery::Boolean { must, should, must_not } => QueryModel::Boolean {
                must: models_of(must@),
                should: models_of(should@),
                must_not: models_of(must_not@),
            },
            TantivyQuery::Boost { query, boost } => QueryModel::Boost {
                query: Box::new(query.model()),
                boost: *boost,
            },
            TantivyQuery::ConstScore { query, score } => QueryModel::ConstScore {
                query: Box::new(query.model()),
                score: *score,
            },
            TantivyQuery::DisjunctionMax { disjuncts, tie_breaker } => QueryModel::DisjunctionMax {
                disjuncts: models_of(disjuncts@),
                tie_breaker: *tie_breaker,
            },
            TantivyQuery::Empty => QueryModel::Empty,
            TantivyQuery::FastFieldRange { field, lower_bound, upper_bound } => {
                QueryModel::FastFieldRange {
                    field: field@,
                    lower_bound: *lower_bound,
                    upper_bound: *upper_bound,
                }
            },
            TantivyQuery::Fuzzy { term, distance, transposition_cost_one, prefix } => {
                QueryModel::Fuzzy {
                    term: term@,
                    distance: *distance,
                    transposition_cost_one: *transposition_cost_one,
                    prefix: *prefix,
                }
            },
            TantivyQuery::MoreLikeThis { limits, fields } => QueryModel::MoreLikeThis {
                limits: limits@,
                fields: document_fields_of(fields@),
            },
            TantivyQuery::Parse { query_string } => QueryModel::Parse { query_string: query_string@ },
            TantivyQuery::Phrase { terms, slop } => QueryModel::Phrase {
                terms: terms_of(terms@),
                slop: *slop,
            },
            TantivyQuery::PhrasePrefix { terms, max_expansions } => QueryModel::PhrasePrefix {
                terms: terms_of(terms@),
                max_expansions: *max_expansions,
            },
            TantivyQuery::Range { field, kind, lower_bound, upper_bound } => QueryModel::Range {
                field: field@,
                kind: *kind,
                lower_bound: bound_of(*lower_bound),
                upper_bound: bound_of(*upper_bound),
            },
            TantivyQuery::Regex { field, pattern } => QueryModel::Regex {
                field: *field,
                pattern: pattern@,
            },
            TantivyQuery::Term { term, record } => QueryModel::Term { term: term@, record: *record },
            TantivyQuery::TermSet { terms } => QueryModel::TermSet { terms: terms_of(terms@) },
        }
    }
}

impl View for TantivyQuery {
    type V = QueryModel;

    open spec fn view(&self) -> QueryModel {
        self.model()
    }
}

} // verus!
