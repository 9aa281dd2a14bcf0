//! Compiling a search: what each query comes to, and the function that
//! computes it.

use crate::query::engine::{check_query_string, check_regex, regex_rejection};
use crate::query::plan::{
    bound_of, document_fields_of, models_of, terms_of, texts_of, DocumentField,
    DocumentFieldModel, MoreLikeThisLimits, MoreLikeThisLimitsModel, QueryModel, TantivyQuery,
};
use crate::query::term::{encode_value, term_of};
use crate::query::value::{Bound, FieldValue, SearchTerm, TermModel, ValueModel};
use crate::query::{of_kind, AsFieldType, QueryError, QueryErrorModel, SearchQueryInput};
use crate::schema::engine::FieldKind;
use crate::schema::{IndexRecordOptionSchema, SearchFieldId};
use vstd::prelude::*;

verus! {

/// What compiling a query comes to: the compiled query, or the error.
pub type Outcome = Result<QueryModel, QueryErrorModel>;

/// The error of the first outcome that is one.
pub open spec fn first_failure(outcomes: Seq<Outcome>) -> Option<QueryErrorModel>
    decreases outcomes.len(),
{
    if outcomes.len() == 0 {
        None
    } else {
        match outcomes[0] {
            Err(error) => Some(error),
            Ok(_) => first_failure(outcomes.drop_first()),
        }
    }
}

/// The compiled queries of outcomes that are no errors.
pub open spec fn successes(outcomes: Seq<Outcome>) -> Seq<QueryModel> {
    Seq::new(
        outcomes.len(),
        |i: int|
            match outcomes[i] {
                Ok(query) => query,
                Err(_) => QueryModel::Empty,
            },
    )
}

/// The end of a range of terms of a field; nothing where the field cannot
/// hold the literal at that end.
pub open spec fn range_bound(bound: Bound<FieldValue>, field: SearchFieldId, kind: FieldKind) -> Option<
    Bound<TermModel>,
> {
    match bound {
        Bound::Included(value) => match term_of(field, value@, kind) {
            Some(term) => Some(Bound::Included(term)),
            None => None,
        },
        Bound::Excluded(value) => match term_of(field, value@, kind) {
            Some(term) => Some(Bound::Excluded(term)),
            None => None,
        },
        Bound::Unbounded => Some(Bound::Unbounded),
    }
}

/// Whether the literal at the end of a range can stand in a term.
pub open spec fn bound_is_scalar(bound: Bound<FieldValue>) -> bool {
    match bound {
        Bound::Included(value) => value@.is_scalar(),
        Bound::Excluded(value) => value@.is_scalar(),
        Bound::Unbounded => true,
    }
}

/// The terms of one text field for a list of texts, one each, in order.
pub open spec fn text_terms(field: SearchFieldId, texts: Seq<String>) -> Seq<TermModel> {
    Seq::new(
        texts.len(),
        |i: int| TermModel { field, value: ValueModel::Str(texts[i]@) },
    )
}

/// The terms of a literal in every field that can hold it, in the order of
/// the fields.
pub open spec fn terms_across(fields: Seq<(FieldKind, SearchFieldId)>, value: ValueModel) -> Seq<
    TermModel,
>
    decreases fields.len(),
{
    if fields.len() == 0 {
        Seq::empty()
    } else {
        let earlier = terms_across(fields.drop_last(), value);
        match term_of(fields.last().1, value, fields.last().0) {
            Some(term) => earlier.push(term),
            None => earlier,
        }
    }
}

/// The place of the values of a field among document fields.
pub open spec fn group_of(groups: Seq<DocumentFieldModel>, field: SearchFieldId) -> Option<int>
    decreases groups.len(),
{
    if groups.len() == 0 {
        None
    } else if groups.last().field == field {
        Some(groups.len() - 1)
    } else {
        group_of(groups.drop_last(), field)
    }
}

/// The document fields with one more value of a field: added to the values
/// of that field where it has some, and else as a new field at the end.
pub open spec fn with_value(groups: Seq<DocumentFieldModel>, field: SearchFieldId, value: ValueModel) -> Seq<
    DocumentFieldModel,
> {
    match group_of(groups, field) {
        Some(at) => groups.update(
            at,
            DocumentFieldModel { field, values: groups[at].values.push(value) },
        ),
        None => groups.push(DocumentFieldModel { field, values: seq![value] }),
    }
}

impl SearchQueryInput {
    /// Whether every literal that the query writes as a term can stand in
    /// one: none is a text that was split into tokens beforehand, and none
    /// is a structured object.
    pub open spec fn encodable(&self) -> bool
        decreases self,
    {
        match self {
            SearchQueryInput::Boolean { must, should, must_not } => {
                &&& forall|i: int| 0 <= i < must.len() ==> (#[trigger] must[i]).encodable()
                &&& forall|i: int| 0 <= i < should.len() ==> (#[trigger] should[i]).encodable()
                &&& forall|i: int| 0 <= i < must_not.len() ==> (#[trigger] must_not[i]).encodable()
            },
            SearchQueryInput::Boost { query, .. } => query.encodable(),
            SearchQueryInput::ConstScore { query, .. } => query.encodable(),
            SearchQueryInput::DisjunctionMax { disjuncts, .. } => forall|i: int|
                0 <= i < disjuncts.len() ==> (#[trigger] disjuncts[i]).encodable(),
            SearchQueryInput::Range { lower_bound, upper_bound, .. } => bound_is_scalar(*lower_bound)
                && bound_is_scalar(*upper_bound),
            SearchQueryInput::Term { value, .. } => value@.is_scalar(),
            SearchQueryInput::TermSet { terms } => forall|i: int|
                0 <= i < terms.len() ==> (#[trigger] terms[i]).1@.is_scalar(),
            _ => true,
        }
    }

    /// Whether the query hands the given string to the free-text parser.
    pub open spec fn mentions(&self, query_string: Seq<char>) -> bool
        decreases self,
    {
        match self {
            SearchQueryInput::Boolean { must, should, must_not } => {
                ||| exists|i: int| 0 <= i < must.len() && (#[trigger] must[i]).mentions(query_string)
                ||| exists|i: int| 0 <= i < should.len() && (#[trigger] should[i]).mentions(query_string)
                ||| exists|i: int|
                    0 <= i < must_not.len() && (#[trigger] must_not[i]).mentions(query_string)
            },
            SearchQueryInput::Boost { query, .. } => query.mentions(query_string),
            SearchQueryInput::ConstScore { query, .. } => query.mentions(query_string),
            SearchQueryInput::DisjunctionMax { disjuncts, .. } => exists|i: int|
                0 <= i < disjuncts.len() && (#[trigger] disjuncts[i]).mentions(query_string),
            SearchQueryInput::Parse { query_string: held } => held@ == query_string,
            _ => false,
        }
    }
}

/// The document fields of a list of named values: each value filed under
/// the field that its name resolves to. A name that resolves to no field, or
/// to one that does not hold values of that representation, is an error that
/// names it; the first such name decides.
pub open spec fn document_fields<L: AsFieldType<String>>(
    pairs: Seq<(String, FieldValue)>,
    lookup: &L,
) -> Result<Seq<DocumentFieldModel>, QueryErrorModel>
    decreases pairs.len(),
{
    if pairs.len() == 0 {
        Ok(Seq::empty())
    } else {
        match document_fields(pairs.drop_last(), lookup) {
            Err(error) => Err(error),
            Ok(groups) => match lookup.resolve(&pairs.last().0) {
                Some(found) => if pairs.last().1@.matches_kind(found.0) {
                    Ok(with_value(groups, found.1, pairs.last().1@))
                } else {
                    Err(QueryErrorModel::WrongFieldType(pairs.last().0@))
                },
                None => Err(QueryErrorModel::WrongFieldType(pairs.last().0@)),
            },
        }
    }
}

/// The term of a named literal: the name must resolve to a field, and the
/// field must hold the literal.
pub open spec fn named_term<L: AsFieldType<String>>(name: &String, value: ValueModel, lookup: &L) -> Option<
    TermModel,
> {
    match lookup.resolve(name) {
        Some(found) => term_of(found.1, value, found.0),
        None => None,
    }
}

/// The terms of a list of named literals, one each, in order. A literal
/// that has no term is an error that names its field as not indexed; the
/// first such literal decides.
pub open spec fn term_set<L: AsFieldType<String>>(pairs: Seq<(String, FieldValue)>, lookup: &L) -> Result<
    Seq<TermModel>,
    QueryErrorModel,
>
    decreases pairs.len(),
{
    if pairs.len() == 0 {
        Ok(Seq::empty())
    } else {
        match term_set(pairs.drop_last(), lookup) {
            Err(error) => Err(error),
            Ok(terms) => match named_term(&pairs.last().0, pairs.last().1@, lookup) {
                Some(term) => Ok(terms.push(term)),
                None => Err(QueryErrorModel::NonIndexedField(pairs.last().0@)),
            },
        }
    }
}

/// The outcomes of compiling each query of a list.
pub open spec fn compiled_all<L: AsFieldType<String>>(queries: Seq<SearchQueryInput>, lookup: &L) -> Seq<
    Outcome,
>
    decreases queries,
{
    Seq::new(
        queries.len(),
        |i: int|
            if 0 <= i < queries.len() {
                compiled(&queries[i], lookup)
            } else {
                Ok(QueryModel::Empty)
            },
    )
}

/// The outcome of compiling a query against the fields that `lookup` knows,
/// where the free-text parser takes every string handed to it.
///
/// Each field is resolved and held to the type that the query needs, each
/// literal is written as a term of its field, and each default is filled
/// in. In a query that holds others, these are compiled in order, and the
/// first error is the error of the whole.
pub open spec fn compiled<L: AsFieldType<String>>(query: &SearchQueryInput, lookup: &L) -> Outcome
    decreases query,
{
    match query {
        SearchQueryInput::All => Ok(QueryModel::All),
        SearchQueryInput::Boolean { must, should, must_not } => {
            let required = compiled_all(must@, lookup);
            let optional = compiled_all(should@, lookup);
            let excluded = compiled_all(must_not@, lookup);
            match first_failure(required + optional + excluded) {
                Some(error) => Err(error),
                None => Ok(
                    QueryModel::Boolean {
                        must: successes(required),
                        should: successes(optional),
                        must_not: successes(excluded),
                    },
                ),
            }
        },
        SearchQueryInput::Boost { query, boost } => match compiled(&**query, lookup) {
            Ok(inner) => Ok(QueryModel::Boost { query: Box::new(inner), boost: *boost }),
            Err(error) => Err(error),
        },
        SearchQueryInput::ConstScore { query, score } => match compiled(&**query, lookup) {
            Ok(inner) => Ok(QueryModel::ConstScore { query: Box::new(inner), score: *score }),
            Err(error) => Err(error),
        },
        SearchQueryInput::DisjunctionMax { disjuncts, tie_breaker } => {
            let outcomes = compiled_all(disjuncts@, lookup);
            match first_failure(outcomes) {
                Some(error) => Err(error),
                None => Ok(
                    QueryModel::DisjunctionMax {
                        disjuncts: successes(outcomes),
                        tie_breaker: *tie_breaker,
                    },
                ),
            }
        },
        SearchQueryInput::Empty => Ok(QueryModel::Empty),
        SearchQueryInput::FastFieldRangeWeight { field, lower_bound, upper_bound } => {
            if of_kind(lookup.resolve(field), FieldKind::U64) is Some || of_kind(
                lookup.resolve(field),
                FieldKind::I64,
            ) is Some {
                Ok(
                    QueryModel::FastFieldRange {
                        field: field@,
                        lower_bound: *lower_bound,
                        upper_bound: *upper_bound,
                    },
                )
            } else {
                Err(QueryErrorModel::WrongFieldType(field@))
            }
        },
        SearchQueryInput::FuzzyTerm { field, value, distance, tranposition_cost_one, prefix } => {
            match of_kind(lookup.resolve(field), FieldKind::Str) {
                Some(id) => Ok(
                    QueryModel::Fuzzy {
                        term: TermModel { field: id, value: ValueModel::Str(value@) },
                        distance: match distance {
                            Some(given) => *given,
                            None => 1,
                        },
                        transposition_cost_one: match tranposition_cost_one {
                            Some(given) => *given,
                            None => false,
                        },
                        prefix: match prefix {
                            Some(given) => *given,
                            None => false,
                        },
                    },
                ),
                None => Err(QueryErrorModel::WrongFieldType(field@)),
            }
        },
        SearchQueryInput::MoreLikeThis {
            min_doc_frequency,
            max_doc_frequency,
            min_term_frequency,
            max_query_terms,
            min_word_length,
            max_word_length,
            boost_factor,
            stop_words,
            fields,
        } => match document_fields(fields@, lookup) {
            Ok(groups) => Ok(
                QueryModel::MoreLikeThis {
                    limits: MoreLikeThisLimitsModel {
                        min_doc_frequency: *min_doc_frequency,
                        max_doc_frequency: *max_doc_frequency,
                        min_term_frequency: *min_term_frequency,
                        max_query_terms: *max_query_terms,
                        min_word_length: *min_word_length,
                        max_word_length: *max_word_length,
                        boost_factor: *boost_factor,
                        stop_words: match stop_words {
                            Some(words) => Some(texts_of(words@)),
                            None => None,
                        },
                    },
                    fields: groups,
                },
            ),
            Err(error) => Err(error),
        },
        SearchQueryInput::Parse { query_string } => Ok(
            QueryModel::Parse { query_string: query_string@ },
        ),
        SearchQueryInput::Phrase { field, phrases, slop } => match of_kind(
            lookup.resolve(field),
            FieldKind::Str,
        ) {
            Some(id) => Ok(QueryModel::Phrase { terms: text_terms(id, phrases@), slop: *slop }),
            None => Err(QueryErrorModel::WrongFieldType(field@)),
        },
        SearchQueryInput::PhrasePrefix { field, phrases, max_expansions } => match of_kind(
            lookup.resolve(field),
            FieldKind::Str,
        ) {
            Some(id) => Ok(
                QueryModel::PhrasePrefix {
                    terms: text_terms(id, phrases@),
                    max_expansions: *max_expansions,
                },
            ),
            None => Err(QueryErrorModel::WrongFieldType(field@)),
        },
        SearchQueryInput::Range { field, lower_bound, upper_bound } => match lookup.resolve(field) {
            Some(found) => match range_bound(*lower_bound, found.1, found.0) {
                Some(lower) => match range_bound(*upper_bound, found.1, found.0) {
                    Some(upper) => Ok(
                        QueryModel::Range {
                            field: field@,
                            kind: found.0,
                            lower_bound: lower,
                            upper_bound: upper,
                        },
                    ),
                    None => Err(QueryErrorModel::FieldTypeMismatch),
                },
                None => Err(QueryErrorModel::FieldTypeMismatch),
            },
            None => Err(QueryErrorModel::WrongFieldType(field@)),
        },
        SearchQueryInput::Regex { field, pattern } => match of_kind(
            lookup.resolve(field),
            FieldKind::Str,
        ) {
            Some(id) => match regex_rejection(pattern@) {
                Some(said) => Err(QueryErrorModel::RegexError(said, pattern@)),
                None => Ok(QueryModel::Regex { field: id, pattern: pattern@ }),
            },
            None => Err(QueryErrorModel::WrongFieldType(field@)),
        },
        SearchQueryInput::Term { field: Some(field), value } => match lookup.resolve(field) {
            Some(found) => match term_of(found.1, value@, found.0) {
                Some(term) => Ok(
                    QueryModel::Term { term, record: IndexRecordOptionSchema::WithFreqsAndPositions },
                ),
                None => Err(QueryErrorModel::WrongFieldType(field@)),
            },
            None => Err(QueryErrorModel::NonIndexedField(field@)),
        },
        SearchQueryInput::Term { field: None, value } => Ok(
            QueryModel::TermSet { terms: terms_across(lookup.field_table(), value@) },
        ),
        SearchQueryInput::TermSet { terms } => match term_set(terms@, lookup) {
            Ok(made) => Ok(QueryModel::TermSet { terms: made }),
            Err(error) => Err(error),
        },
    }
}

/// Whether compiling the queries of a list in order hands the given string
/// to the free-text parser: one of them does, and those before it compile.
pub open spec fn asks_in<L: AsFieldType<String>>(
    queries: Seq<SearchQueryInput>,
    lookup: &L,
    query_string: Seq<char>,
) -> bool
    decreases queries,
{
    exists|i: int|
        0 <= i < queries.len() && asks(&(#[trigger] queries[i]), lookup, query_string) && forall|
            j: int,
        |
            0 <= j < i ==> (#[trigger] compiled_all(queries, lookup)[j]) is Ok
}

/// Whether compiling the query hands the given string to the free-text
/// parser, where the parser takes every string before it: the string
/// stands in a free-text query that is reached before any error.
pub open spec fn asks<L: AsFieldType<String>>(
    query: &SearchQueryInput,
    lookup: &L,
    query_string: Seq<char>,
) -> bool
    decreases query,
{
    match query {
        SearchQueryInput::Boolean { must, should, must_not } => {
            ||| asks_in(must@, lookup, query_string)
            ||| (first_failure(compiled_all(must@, lookup)) is None && asks_in(
                should@,
                lookup,
                query_string,
            ))
            ||| (first_failure(compiled_all(must@, lookup)) is None && first_failure(
                compiled_all(should@, lookup),
            ) is None && asks_in(must_not@, lookup, query_string))
        },
        SearchQueryInput::Boost { query, .. } => asks(&**query, lookup, query_string),
        SearchQueryInput::ConstScore { query, .. } => asks(&**query, lookup, query_string),
        SearchQueryInput::DisjunctionMax { disjuncts, .. } => asks_in(
            disjuncts@,
            lookup,
            query_string,
        ),
        SearchQueryInput::Parse { query_string: held } => held@ == query_string,
        _ => false,
    }
}

/// An error at some place, with no error before it, is the first failure.
pub proof fn lemma_first_failure_at(outcomes: Seq<Outcome>, at: int)
    requires
        0 <= at < outcomes.len(),
        outcomes[at] is Err,
        forall|j: int| 0 <= j < at ==> (#[trigger] outcomes[j]) is Ok,
    ensures
        first_failure(outcomes) == Some(outcomes[at]->Err_0),
    decreases at,
{
    if at > 0 {
        let rest = outcomes.drop_first();
        assert(outcomes[0] is Ok);
        assert(rest[at - 1] == outcomes[at]);
        assert forall|j: int| 0 <= j < at - 1 implies (#[trigger] rest[j]) is Ok by {
            assert(rest[j] == outcomes[j + 1]);
        }
        lemma_first_failure_at(rest, at - 1);
    }
}

/// Where no outcome is an error, there is no first failure.
pub proof fn lemma_no_failure(outcomes: Seq<Outcome>)
    requires
        forall|j: int| 0 <= j < outcomes.len() ==> (#[trigger] outcomes[j]) is Ok,
    ensures
        first_failure(outcomes) is None,
    decreases outcomes.len(),
{
    if outcomes.len() > 0 {
        let rest = outcomes.drop_first();
        assert(outcomes[0] is Ok);
        assert forall|j: int| 0 <= j < rest.len() implies (#[trigger] rest[j]) is Ok by {
            assert(rest[j] == outcomes[j + 1]);
        }
        lemma_no_failure(rest);
    }
}

/// Where there is no first failure, no outcome is an error.
pub proof fn lemma_all_succeed(outcomes: Seq<Outcome>)
    requires
        first_failure(outcomes) is None,
    ensures
        forall|j: int| 0 <= j < outcomes.len() ==> (#[trigger] outcomes[j]) is Ok,
    decreases outcomes.len(),
{
    if outcomes.len() > 0 {
        let rest = outcomes.drop_first();
        lemma_all_succeed(rest);
        assert forall|j: int| 0 <= j < outcomes.len() implies (#[trigger] outcomes[j]) is Ok by {
            if j > 0 {
                assert(rest[j - 1] == outcomes[j]);
            }
        }
    }
}

/// The first failure of two lists on end is that of the first list, and
/// where it has none, that of the second.
pub proof fn lemma_first_failure_concat(first: Seq<Outcome>, second: Seq<Outcome>)
    ensures
        first_failure(first + second) == match first_failure(first) {
            Some(error) => Some(error),
            None => first_failure(second),
        },
    decreases first.len(),
{
    if first.len() == 0 {
        assert(first + second =~= second);
    } else {
        assert((first + second).drop_first() =~= first.drop_first() + second);
        assert((first + second)[0] == first[0]);
        lemma_first_failure_concat(first.drop_first(), second);
    }
}

/// Whether `result` is what compiling `query` may give: the outcome that
/// `compiled` states, or, in place of it, the error of a string that
/// compiling the query hands to the free-text parser.
pub open spec fn answers<L: AsFieldType<String>>(
    query: &SearchQueryInput,
    lookup: &L,
    result: Result<TantivyQuery, QueryError>,
) -> bool {
    match result {
        Ok(made) => compiled(query, lookup) == Ok::<QueryModel, QueryErrorModel>(made@),
        Err(error) => {
            ||| compiled(query, lookup) == Err::<QueryModel, QueryErrorModel>(error@)
            ||| (error matches QueryError::ParseError(_, rejected) && asks(query, lookup, rejected@))
        },
    }
}

/// Whether `result` is what compiling each query of `queries` in order may
/// give.
pub open spec fn answers_all<L: AsFieldType<String>>(
    queries: Seq<SearchQueryInput>,
    lookup: &L,
    result: Result<Vec<TantivyQuery>, QueryError>,
) -> bool {
    match result {
        Ok(made) => {
            &&& first_failure(compiled_all(queries, lookup)) is None
            &&& models_of(made@) == successes(compiled_all(queries, lookup))
        },
        Err(error) => {
            ||| first_failure(compiled_all(queries, lookup)) == Some(error@)
            ||| (error matches QueryError::ParseError(_, rejected) && asks_in(
                queries,
                lookup,
                rejected@,
            ))
        },
    }
}

/// A copy of a list of texts.
fn copy_texts(texts: &Vec<String>) -> (copies: Vec<String>)
    ensures
        texts_of(copies@) == texts_of(texts@),
{
    let mut copies: Vec<String> = Vec::new();
    let mut i: usize = 0;
    while i < texts.len()
        invariant
            i <= texts.len(),
            copies.len() == i,
            forall|j: int| 0 <= j < i ==> (#[trigger] copies[j])@ == texts[j]@,
        decreases texts.len() - i,
    {
        copies.push(texts[i].clone());
        i += 1;
    }
    assert(texts_of(copies@) =~= texts_of(texts@));
    copies
}

/// A copy of the end of a range of integers.
fn copy_range_end(bound: &Bound<u64>) -> (copy: Bound<u64>)
    ensures
        copy == *bound,
{
    match bound {
        Bound::Included(number) => Bound::Included(*number),
        Bound::Excluded(number) => Bound::Excluded(*number),
        Bound::Unbounded => Bound::Unbounded,
    }
}

/// The terms of one text field for a list of texts.
fn text_terms_of(field: SearchFieldId, phrases: &Vec<String>) -> (terms: Vec<SearchTerm>)
    ensures
        terms_of(terms@) == text_terms(field, phrases@),
{
    let mut terms: Vec<SearchTerm> = Vec::new();
    let mut i: usize = 0;
    while i < phrases.len()
        invariant
            i <= phrases.len(),
            terms.len() == i,
            forall|j: int|
                0 <= j < i ==> (#[trigger] terms[j])@ == (TermModel {
                    field,
                    value: ValueModel::Str(phrases[j]@),
                }),
        decreases phrases.len() - i,
    {
        terms.push(SearchTerm { field, value: FieldValue::Str(phrases[i].clone()) });
        i += 1;
    }
    assert(terms_of(terms@) =~= text_terms(field, phrases@));
    terms
}

/// Writes the literal at the end of a range as a term of the field.
fn compile_range_end(bound: &Bound<FieldValue>, field: SearchFieldId, kind: FieldKind) -> (end: Result<
    Bound<SearchTerm>,
    QueryError,
>)
    requires
        bound_is_scalar(*bound),
    ensures
        match end {
            Ok(made) => range_bound(*bound, field, kind) == Some(bound_of(made)),
            Err(error) => error == QueryError::FieldTypeMismatch && range_bound(*bound, field, kind) is None,
        },
{
    match bound {
        Bound::Included(value) => match encode_value(value, kind) {
            Some(written) => Ok(Bound::Included(SearchTerm { field, value: written })),
            None => Err(QueryError::FieldTypeMismatch),
        },
        Bound::Excluded(value) => match encode_value(value, kind) {
            Some(written) => Ok(Bound::Excluded(SearchTerm { field, value: written })),
            None => Err(QueryError::FieldTypeMismatch),
        },
        Bound::Unbounded => Ok(Bound::Unbounded),
    }
}

/// The terms of a literal in every field that can hold it.
fn terms_in_all_fields<L: AsFieldType<String>>(lookup: &L, value: &FieldValue) -> (terms: Vec<
    SearchTerm,
>)
    requires
        lookup.valid(),
        value@.is_scalar(),
    ensures
        terms_of(terms@) == terms_across(lookup.field_table(), value@),
{
    let all_fields = lookup.fields();
    let mut terms: Vec<SearchTerm> = Vec::new();
    let mut i: usize = 0;
    assert(all_fields@.take(0).len() == 0);
    assert(terms_of(terms@) =~= terms_across(all_fields@.take(0), value@));
    while i < all_fields.len()
        invariant
            i <= all_fields.len(),
            value@.is_scalar(),
            terms_of(terms@) == terms_across(all_fields@.take(i as int), value@),
        decreases all_fields.len() - i,
    {
        let kind = all_fields[i].0;
        let field = all_fields[i].1;
        proof {
            let next = all_fields@.take(i + 1);
            assert(next.drop_last() =~= all_fields@.take(i as int));
            assert(next.last() == all_fields@[i as int]);
        }
        let ghost before = terms@;
        match encode_value(value, kind) {
            Some(written) => {
                terms.push(SearchTerm { field, value: written });
                assert(terms_of(terms@) =~= terms_of(before).push(terms@.last()@));
            },
            None => {},
        }
        i += 1;
    }
    assert(all_fields@.take(all_fields.len() as int) =~= all_fields@);
    terms
}

/// The terms of a list of named literals, or the error of the first that has
/// none.
fn compile_term_set<L: AsFieldType<String>>(pairs: &Vec<(String, FieldValue)>, lookup: &L) -> (made:
    Result<Vec<SearchTerm>, QueryError>)
    requires
        lookup.valid(),
        forall|i: int| 0 <= i < pairs.len() ==> (#[trigger] pairs[i]).1@.is_scalar(),
    ensures
        match made {
            Ok(terms) => term_set(pairs@, lookup) == Ok::<Seq<TermModel>, QueryErrorModel>(
                terms_of(terms@),
            ),
            Err(error) => term_set(pairs@, lookup) == Err::<Seq<TermModel>, QueryErrorModel>(error@),
        },
{
    let mut terms: Vec<SearchTerm> = Vec::new();
    let mut i: usize = 0;
    assert(terms_of(terms@) =~= Seq::<TermModel>::empty());
    assert(pairs@.take(0).len() == 0);
    while i < pairs.len()
        invariant
            i <= pairs.len(),
            lookup.valid(),
            forall|j: int| 0 <= j < pairs.len() ==> (#[trigger] pairs[j]).1@.is_scalar(),
            term_set(pairs@.take(i as int), lookup) == Ok::<Seq<TermModel>, QueryErrorModel>(
                terms_of(terms@),
            ),
        decreases pairs.len() - i,
    {
        proof {
            let next = pairs@.take(i + 1);
            assert(next.drop_last() =~= pairs@.take(i as int));
            assert(next.last() == pairs@[i as int]);
        }
        let ghost before = terms@;
        let found = lookup.as_field_type(&pairs[i].0);
        let written = match found {
            Some(found) => match encode_value(&pairs[i].1, found.0) {
                Some(written) => Some(SearchTerm { field: found.1, value: written }),
                None => None,
            },
            None => None,
        };
        match written {
            Some(term) => {
                terms.push(term);
                assert(terms_of(terms@) =~= terms_of(before).push(terms@.last()@));
            },
            None => {
                proof {
                    lemma_term_set_error_stays(pairs@, lookup, i + 1);
                }
                return Err(QueryError::NonIndexedField(pairs[i].0.clone()));
            },
        }
        i += 1;
    }
    assert(pairs@.take(pairs.len() as int) =~= pairs@);
    Ok(terms)
}

/// An error among the first literals of a list is the error of the list.
pub proof fn lemma_term_set_error_stays<L: AsFieldType<String>>(
    pairs: Seq<(String, FieldValue)>,
    lookup: &L,
    upto: int,
)
    requires
        0 <= upto <= pairs.len(),
        term_set(pairs.take(upto), lookup) is Err,
    ensures
        term_set(pairs, lookup) == term_set(pairs.take(upto), lookup),
    decreases pairs.len() - upto,
{
    if upto < pairs.len() {
        let next = pairs.take(upto + 1);
        assert(next.drop_last() =~= pairs.take(upto));
        lemma_term_set_error_stays(pairs, lookup, upto + 1);
    } else {
        assert(pairs.take(upto) =~= pairs);
    }
}

/// An error among the first values of a list is the error of the list.
pub proof fn lemma_document_fields_error_stays<L: AsFieldType<String>>(
    pairs: Seq<(String, FieldValue)>,
    lookup: &L,
    upto: int,
)
    requires
        0 <= upto <= pairs.len(),
        document_fields(pairs.take(upto), lookup) is Err,
    ensures
        document_fields(pairs, lookup) == document_fields(pairs.take(upto), lookup),
    decreases pairs.len() - upto,
{
    if upto < pairs.len() {
        let next = pairs.take(upto + 1);
        assert(next.drop_last() =~= pairs.take(upto));
        lemma_document_fields_error_stays(pairs, lookup, upto + 1);
    } else {
        assert(pairs.take(upto) =~= pairs);
    }
}

/// A place that `group_of` gives holds the values of that field.
pub proof fn lemma_group_of(groups: Seq<DocumentFieldModel>, field: SearchFieldId)
    ensures
        match group_of(groups, field) {
            Some(at) => 0 <= at < groups.len() && groups[at].field == field && forall|j: int|
                at < j < groups.len() ==> (#[trigger] groups[j]).field != field,
            None => forall|j: int| 0 <= j < groups.len() ==> (#[trigger] groups[j]).field != field,
        },
    decreases groups.len(),
{
    if groups.len() > 0 && groups.last().field != field {
        let shorter = groups.drop_last();
        lemma_group_of(shorter, field);
        assert forall|j: int| 0 <= j < shorter.len() implies shorter[j] == groups[j] by {}
    }
}

/// Files one more value under its field.
fn file_value(groups: &mut Vec<DocumentField>, field: SearchFieldId, value: FieldValue)
    ensures
        document_fields_of(final(groups)@) == with_value(
            document_fields_of(old(groups)@),
            field,
            value@,
        ),
{
    let ghost before = document_fields_of(groups@);
    proof {
        lemma_group_of(before, field);
    }
    let mut at: usize = groups.len();
    let mut found = false;
    while at > 0 && !found
        invariant
            at <= groups.len(),
            before == document_fields_of(groups@),
            found ==> at < groups.len() && before[at as int].field == field,
            forall|j: int| at <= j < groups.len() && !(found && j == at) ==> (#[trigger] before[j]).field
                != field,
        decreases at,
    {
        assert(before[at - 1] == groups[at - 1]@);
        if groups[at - 1].field.0 == field.0 {
            found = true;
        }
        at -= 1;
    }
    if found {
        assert(group_of(before, field) == Some(at as int));
        let mut taken = groups.remove(at);
        taken.values.push(value);
        groups.insert(at, taken);
        assert(document_fields_of(groups@) =~= with_value(before, field, value@)) by {
            let after = document_fields_of(groups@);
            assert(after.len() == before.len());
            assert(after[at as int].values =~= before[at as int].values.push(value@));
        }
    } else {
        assert(group_of(before, field) is None);
        let mut values: Vec<FieldValue> = Vec::new();
        values.push(value);
        groups.push(DocumentField { field, values });
        assert(document_fields_of(groups@) =~= with_value(before, field, value@)) by {
            let after = document_fields_of(groups@);
            assert(after.last().values =~= seq![value@]);
        }
    }
}

/// Files the named values of a document under their fields, or gives the
/// error of the first that does not belong to its field.
fn compile_document_fields<L: AsFieldType<String>>(pairs: &Vec<(String, FieldValue)>, lookup: &L) -> (made:
    Result<Vec<DocumentField>, QueryError>)
    requires
        lookup.valid(),
    ensures
        match made {
            Ok(groups) => document_fields(pairs@, lookup) == Ok::<
                Seq<DocumentFieldModel>,
                QueryErrorModel,
            >(document_fields_of(groups@)),
            Err(error) => document_fields(pairs@, lookup) == Err::<
                Seq<DocumentFieldModel>,
                QueryErrorModel,
            >(error@),
        },
{
    let mut groups: Vec<DocumentField> = Vec::new();
    let mut i: usize = 0;
    assert(document_fields_of(groups@) =~= Seq::<DocumentFieldModel>::empty());
    assert(pairs@.take(0).len() == 0);
    while i < pairs.len()
        invariant
            i <= pairs.len(),
            lookup.valid(),
            document_fields(pairs@.take(i as int), lookup) == Ok::<
                Seq<DocumentFieldModel>,
                QueryErrorModel,
            >(document_fields_of(groups@)),
        decreases pairs.len() - i,
    {
        proof {
            let next = pairs@.take(i + 1);
            assert(next.drop_last() =~= pairs@.take(i as int));
            assert(next.last() == pairs@[i as int]);
        }
        if !lookup.is_field_type(&pairs[i].0, &pairs[i].1) {
            proof {
                lemma_document_fields_error_stays(pairs@, lookup, i + 1);
            }
            return Err(QueryError::WrongFieldType(pairs[i].0.clone()));
        }
        match lookup.as_field_type(&pairs[i].0) {
            Some(found) => {
                file_value(&mut groups, found.1, pairs[i].1.duplicate());
            },
            None => {
                proof {
                    lemma_document_fields_error_stays(pairs@, lookup, i + 1);
                }
                return Err(QueryError::WrongFieldType(pairs[i].0.clone()));
            },
        }
        i += 1;
    }
    assert(pairs@.take(pairs.len() as int) =~= pairs@);
    Ok(groups)
}

/// Compiles the queries of a list in order, up to the first error.
fn compile_all<L: AsFieldType<String>>(
    queries: &Vec<SearchQueryInput>,
    lookup: &L,
    parser: &tantivy::query::QueryParser,
) -> (made: Result<Vec<TantivyQuery>, QueryError>)
    requires
        lookup.valid(),
        forall|i: int| 0 <= i < queries.len() ==> (#[trigger] queries[i]).encodable(),
    ensures
        answers_all(queries@, lookup, made),
    decreases queries,
{
    let ghost outcomes = compiled_all(queries@, lookup);
    let mut plans: Vec<TantivyQuery> = Vec::new();
    let mut i: usize = 0;
    while i < queries.len()
        invariant
            i <= queries.len(),
            lookup.valid(),
            forall|j: int| 0 <= j < queries.len() ==> (#[trigger] queries[j]).encodable(),
            outcomes == compiled_all(queries@, lookup),
            plans.len() == i,
            forall|j: int|
                0 <= j < i ==> outcomes[j] == Ok::<QueryModel, QueryErrorModel>(
                    (#[trigger] plans[j]).model(),
                ),
        decreases queries.len() - i,
    {
        assert(decreases_to!(queries => queries[i as int]));
        let result = queries[i].compile(lookup, parser);
        assert(outcomes[i as int] == compiled(&queries[i as int], lookup));
        match result {
            Ok(plan) => {
                plans.push(plan);
            },
            Err(error) => {
                proof {
                    assert forall|j: int| 0 <= j < i implies (#[trigger] outcomes[j]) is Ok by {
                        assert(outcomes[j] == Ok::<QueryModel, QueryErrorModel>(plans[j].model()));
                    }
                    if compiled(&queries[i as int], lookup) == Err::<QueryModel, QueryErrorModel>(
                        error@,
                    ) {
                        lemma_first_failure_at(outcomes, i as int);
                    } else {
                        assert(asks(&queries@[i as int], lookup, error->ParseError_1@));
                    }
                }
                return Err(error);
            },
        }
        i += 1;
    }
    proof {
        assert forall|j: int| 0 <= j < outcomes.len() implies (#[trigger] outcomes[j]) is Ok by {
            assert(outcomes[j] == Ok::<QueryModel, QueryErrorModel>(plans[j].model()));
        }
        lemma_no_failure(outcomes);
        assert(models_of(plans@) =~= successes(outcomes)) by {
            assert forall|j: int| 0 <= j < plans.len() implies models_of(plans@)[j] == successes(
                outcomes,
            )[j] by {
                assert(outcomes[j] == Ok::<QueryModel, QueryErrorModel>(plans[j].model()));
            }
        }
    }
    Ok(plans)
}

impl SearchQueryInput {
    /// What a free-text query comes to once the parser has spoken: the
    /// query of the string where the parser has nothing against it, and
    /// else the error that holds what the parser said and the string.
    pub fn after_parsing(query_string: &String, rejection: Option<String>) -> (made: Result<
        TantivyQuery,
        QueryError,
    >)
        ensures
            match rejection {
                None => made matches Ok(query) && query@ == (QueryModel::Parse {
                    query_string: query_string@,
                }),
                Some(said) => made matches Err(error) && error@ == QueryErrorModel::ParseError(
                    said@,
                    query_string@,
                ),
            },
    {
        match rejection {
            Some(said) => Err(QueryError::ParseError(said, query_string.clone())),
            None => Ok(TantivyQuery::Parse { query_string: query_string.clone() }),
        }
    }

    /// What a pattern on a text field comes to once the engine has spoken:
    /// the query of the pattern where the engine has nothing against it,
    /// and else the error that holds what the engine said and the pattern.
    pub fn after_checking_pattern(
        field: SearchFieldId,
        pattern: &String,
        rejection: Option<String>,
    ) -> (made: Result<TantivyQuery, QueryError>)
        ensures
            match rejection {
                None => made matches Ok(query) && query@ == (QueryModel::Regex {
                    field,
                    pattern: pattern@,
                }),
                Some(said) => made matches Err(error) && error@ == QueryErrorModel::RegexError(
                    said@,
                    pattern@,
                ),
            },
    {
        match rejection {
            Some(said) => Err(QueryError::RegexError(said, pattern.clone())),
            None => Ok(TantivyQuery::Regex { field, pattern: pattern.clone() }),
        }
    }

    /// Compiles the query against the fields that `lookup` knows, handing
    /// each free-text string to the parser to see whether it takes it.
    ///
    /// The queries that a query holds are compiled in order, and the first
    /// error ends the compilation. The result is the outcome that
    /// [`compiled`] states, unless the parser refuses a string that is
    /// reached before any error: then it is the error of that string.
    pub fn compile<L: AsFieldType<String>>(
        &self,
        lookup: &L,
        parser: &tantivy::query::QueryParser,
    ) -> (made: Result<TantivyQuery, QueryError>)
        requires
            lookup.valid(),
            self.encodable(),
        ensures
            answers(self, lookup, made),
        decreases self,
    {
        match self {
            SearchQueryInput::All => Ok(TantivyQuery::All),
            SearchQueryInput::Boolean { must, should, must_not } => {
                let ghost required = compiled_all(must@, lookup);
                let ghost optional = compiled_all(should@, lookup);
                let ghost excluded = compiled_all(must_not@, lookup);
                proof {
                    lemma_first_failure_concat(required, optional);
                    lemma_first_failure_concat(required + optional, excluded);
                }
                let must_made = compile_all(must, lookup, parser)?;
                let should_made = compile_all(should, lookup, parser)?;
                let must_not_made = compile_all(must_not, lookup, parser)?;
                Ok(TantivyQuery::Boolean { must: must_made, should: should_made, must_not: must_not_made })
            },
            SearchQueryInput::Boost { query, boost } => {
                let inner = query.compile(lookup, parser)?;
                Ok(TantivyQuery::Boost { query: Box::new(inner), boost: *boost })
            },
            SearchQueryInput::ConstScore { query, score } => {
                let inner = query.compile(lookup, parser)?;
                Ok(TantivyQuery::ConstScore { query: Box::new(inner), score: *score })
            },
            SearchQueryInput::DisjunctionMax { disjuncts, tie_breaker } => {
                let made = compile_all(disjuncts, lookup, parser)?;
                Ok(TantivyQuery::DisjunctionMax { disjuncts: made, tie_breaker: *tie_breaker })
            },
            SearchQueryInput::Empty => Ok(TantivyQuery::Empty),
            SearchQueryInput::FastFieldRangeWeight { field, lower_bound, upper_bound } => {
                let unsigned = lookup.as_u64(field);
                let numeric = match unsigned {
                    Some(found) => Some(found),
                    None => lookup.as_i64(field),
                };
                match numeric {
                    Some(_) => Ok(
                        TantivyQuery::FastFieldRange {
                            field: field.clone(),
                            lower_bound: copy_range_end(lower_bound),
                            upper_bound: copy_range_end(upper_bound),
                        },
                    ),
                    None => Err(QueryError::WrongFieldType(field.clone())),
                }
            },
            SearchQueryInput::FuzzyTerm { field, value, distance, tranposition_cost_one, prefix } => {
                match lookup.as_str(field) {
                    Some(id) => Ok(
                        TantivyQuery::Fuzzy {
                            term: SearchTerm { field: id, value: FieldValue::Str(value.clone()) },
                            distance: match distance {
                                Some(given) => *given,
                                None => 1,
                            },
                            transposition_cost_one: match tranposition_cost_one {
                                Some(given) => *given,
                                None => false,
                            },
                            prefix: match prefix {
                                Some(given) => *given,
                                None => false,
                            },
                        },
                    ),
                    None => Err(QueryError::WrongFieldType(field.clone())),
                }
            },
            SearchQueryInput::MoreLikeThis {
                min_doc_frequency,
                max_doc_frequency,
                min_term_frequency,
                max_query_terms,
                min_word_length,
                max_word_length,
                boost_factor,
                stop_words,
                fields,
            } => {
                let limits = MoreLikeThisLimits {
                    min_doc_frequency: *min_doc_frequency,
                    max_doc_frequency: *max_doc_frequency,
                    min_term_frequency: *min_term_frequency,
                    max_query_terms: *max_query_terms,
                    min_word_length: *min_word_length,
                    max_word_length: *max_word_length,
                    boost_factor: *boost_factor,
                    stop_words: match stop_words {
                        Some(words) => Some(copy_texts(words)),
                        None => None,
                    },
                };
                match compile_document_fields(fields, lookup) {
                    Ok(groups) => Ok(TantivyQuery::MoreLikeThis { limits, fields: groups }),
                    Err(error) => Err(error),
                }
            },
            SearchQueryInput::Parse { query_string } => Self::after_parsing(
                query_string,
                check_query_string(parser, query_string.as_str()),
            ),
            SearchQueryInput::Phrase { field, phrases, slop } => match lookup.as_str(field) {
                Some(id) => Ok(TantivyQuery::Phrase { terms: text_terms_of(id, phrases), slop: *slop }),
                None => Err(QueryError::WrongFieldType(field.clone())),
            },
            SearchQueryInput::PhrasePrefix { field, phrases, max_expansions } => {
                match lookup.as_str(field) {
                    Some(id) => Ok(
                        TantivyQuery::PhrasePrefix {
                            terms: text_terms_of(id, phrases),
                            max_expansions: *max_expansions,
                        },
                    ),
                    None => Err(QueryError::WrongFieldType(field.clone())),
                }
            },
            SearchQueryInput::Range { field, lower_bound, upper_bound } => {
                match lookup.as_field_type(field) {
                    Some(found) => {
                        let lower = compile_range_end(lower_bound, found.1, found.0)?;
                        let upper = compile_range_end(upper_bound, found.1, found.0)?;
                        Ok(
                            TantivyQuery::Range {
                                field: field.clone(),
                                kind: found.0,
                                lower_bound: lower,
                                upper_bound: upper,
                            },
                        )
                    },
                    None => Err(QueryError::WrongFieldType(field.clone())),
                }
            },
            SearchQueryInput::Regex { field, pattern } => match lookup.as_str(field) {
                Some(id) => Self::after_checking_pattern(
                    id,
                    pattern,
                    check_regex(pattern.as_str(), id.0),
                ),
                None => Err(QueryError::WrongFieldType(field.clone())),
            },
            SearchQueryInput::Term { field, value } => match field {
                Some(field) => match lookup.as_field_type(field) {
                    Some(found) => match encode_value(value, found.0) {
                        Some(written) => Ok(
                            TantivyQuery::Term {
                                term: SearchTerm { field: found.1, value: written },
                                record: IndexRecordOptionSchema::WithFreqsAndPositions,
                            },
                        ),
                        None => Err(QueryError::WrongFieldType(field.clone())),
                    },
                    None => Err(QueryError::NonIndexedField(field.clone())),
                },
                None => Ok(TantivyQuery::TermSet { terms: terms_in_all_fields(lookup, value) }),
            },
            SearchQueryInput::TermSet { terms } => match compile_term_set(terms, lookup) {
                Ok(made) => Ok(TantivyQuery::TermSet { terms: made }),
                Err(error) => Err(error),
            },
        }
    }

    /// Compiles the query, which is used up by it, as [`Self::compile`]
    /// does. The compiled query holds nothing that is left to decide: the
    /// engine's query is made of it node by node.
    pub fn into_tantivy_query<L: AsFieldType<String>>(
        self,
        field_lookup: &L,
        parser: &tantivy::query::QueryParser,
    ) -> (made: Result<TantivyQuery, QueryError>)
        requires
            field_lookup.valid(),
            self.encodable(),
        ensures
            answers(&self, field_lookup, made),
    {
        self.compile(field_lookup, parser)
    }
}

/// Whether the literal at the end of a range can stand in a term.
fn range_end_is_scalar(bound: &Bound<FieldValue>) -> (scalar: bool)
    ensures
        scalar == bound_is_scalar(*bound),
{
    match bound {
        Bound::Included(value) => value.is_scalar(),
        Bound::Excluded(value) => value.is_scalar(),
        Bound::Unbounded => true,
    }
}

/// Whether each query of a list can be compiled at all.
fn all_encodable(queries: &Vec<SearchQueryInput>) -> (encodable: bool)
    ensures
        encodable == forall|i: int| 0 <= i < queries.len() ==> (#[trigger] queries[i]).encodable(),
    decreases queries,
{
    let mut i: usize = 0;
    while i < queries.len()
        invariant
            i <= queries.len(),
            forall|j: int| 0 <= j < i ==> (#[trigger] queries[j]).encodable(),
        decreases queries.len() - i,
    {
        assert(decreases_to!(queries => queries[i as int]));
        if !queries[i].is_encodable() {
            return false;
        }
        i += 1;
    }
    true
}

impl SearchQueryInput {
    /// Whether every literal that the query writes as a term can stand in
    /// one.
    pub fn is_encodable(&self) -> (encodable: bool)
        ensures
            encodable == self.encodable(),
        decreases self,
    {
        match self {
            SearchQueryInput::Boolean { must, should, must_not } => all_encodable(must)
                && all_encodable(should) && all_encodable(must_not),
            SearchQueryInput::Boost { query, .. } => query.is_encodable(),
            SearchQueryInput::ConstScore { query, .. } => query.is_encodable(),
            SearchQueryInput::DisjunctionMax { disjuncts, .. } => all_encodable(disjuncts),
            SearchQueryInput::Range { lower_bound, upper_bound, .. } => range_end_is_scalar(lower_bound)
                && range_end_is_scalar(upper_bound),
            SearchQueryInput::Term { value, .. } => value.is_scalar(),
            SearchQueryInput::TermSet { terms } => {
                let mut i: usize = 0;
                while i < terms.len()
                    invariant
                        i <= terms.len(),
                        self is TermSet && self->TermSet_terms == *terms,
                        forall|j: int| 0 <= j < i ==> (#[trigger] terms[j]).1@.is_scalar(),
                    decreases terms.len() - i,
                {
                    if !terms[i].1.is_scalar() {
                        return false;
                    }
                    i += 1;
                }
                true
            },
            _ => true,
        }
    }
}

} // verus!
