//! What holds of compiling a search, whatever the search and the fields.

use crate::query::compile::{
    answers, asks, asks_in, compiled, compiled_all, document_fields, first_failure,
    lemma_all_succeed, lemma_first_failure_concat, named_term, successes, term_set,
    terms_across, Outcome,
};
use crate::query::plan::{QueryModel, TantivyQuery};
use crate::query::term::encoded;
use crate::query::value::{FieldValue, TermModel, ValueModel};
use crate::query::{AsFieldType, QueryError, QueryErrorModel, SearchQueryInput};
use crate::schema::engine::FieldKind;
use crate::schema::{IndexRecordOptionSchema, SearchFieldId};
use vstd::prelude::*;

verus! {

/// A query that hands nothing to the free-text parser compiles to what
/// `compiled` states and to nothing else: it succeeds exactly where
/// `compiled` does, with that query, and fails with that error.
pub proof fn lemma_decided_without_parser<L: AsFieldType<String>>(
    query: &SearchQueryInput,
    lookup: &L,
    result: Result<TantivyQuery, QueryError>,
)
    requires
        answers(query, lookup, result),
        forall|query_string: Seq<char>| !query.mentions(query_string),
    ensures
        match result {
            Ok(made) => compiled(query, lookup) == Ok::<QueryModel, QueryErrorModel>(made@),
            Err(error) => compiled(query, lookup) == Err::<QueryModel, QueryErrorModel>(error@),
        },
{
    match result {
        Err(QueryError::ParseError(_, rejected)) => {
            if asks(query, lookup, rejected@) {
                lemma_asked_is_mentioned(query, lookup, rejected@);
            }
        },
        _ => {},
    }
}

/// A string that compiling a query hands to the parser stands in one of
/// its free-text queries.
pub proof fn lemma_asked_is_mentioned<L: AsFieldType<String>>(
    query: &SearchQueryInput,
    lookup: &L,
    query_string: Seq<char>,
)
    requires
        asks(query, lookup, query_string),
    ensures
        query.mentions(query_string),
    decreases query,
{
    match query {
        SearchQueryInput::Boolean { must, should, must_not } => {
            if asks_in(must@, lookup, query_string) {
                lemma_asked_in_is_mentioned(must@, lookup, query_string);
            } else if asks_in(should@, lookup, query_string) {
                lemma_asked_in_is_mentioned(should@, lookup, query_string);
            } else {
                lemma_asked_in_is_mentioned(must_not@, lookup, query_string);
            }
        },
        SearchQueryInput::Boost { query, .. } => {
            lemma_asked_is_mentioned(&**query, lookup, query_string);
        },
        SearchQueryInput::ConstScore { query, .. } => {
            lemma_asked_is_mentioned(&**query, lookup, query_string);
        },
        SearchQueryInput::DisjunctionMax { disjuncts, .. } => {
            lemma_asked_in_is_mentioned(disjuncts@, lookup, query_string);
        },
        _ => {},
    }
}

/// A string that compiling a list of queries hands to the parser stands
/// in a free-text query of one of them.
pub proof fn lemma_asked_in_is_mentioned<L: AsFieldType<String>>(
    queries: Seq<SearchQueryInput>,
    lookup: &L,
    query_string: Seq<char>,
)
    requires
        asks_in(queries, lookup, query_string),
    ensures
        exists|i: int| 0 <= i < queries.len() && (#[trigger] queries[i]).mentions(query_string),
    decreases queries,
{
    let at = choose|i: int|
        0 <= i < queries.len() && asks(&(#[trigger] queries[i]), lookup, query_string) && forall|
            j: int,
        |
            0 <= j < i ==> (#[trigger] compiled_all(queries, lookup)[j]) is Ok;
    lemma_asked_is_mentioned(&queries[at], lookup, query_string);
}

/// Whatever the parser says, a query that `compiled` rejects is rejected,
/// and one that is accepted is the query that `compiled` states.
pub proof fn lemma_static_errors_are_kept<L: AsFieldType<String>>(
    query: &SearchQueryInput,
    lookup: &L,
    result: Result<TantivyQuery, QueryError>,
)
    requires
        answers(query, lookup, result),
    ensures
        compiled(query, lookup) is Err ==> result is Err,
        result is Err && !(result->Err_0 is ParseError) ==> compiled(query, lookup) == Err::<
            QueryModel,
            QueryErrorModel,
        >(result->Err_0@),
{
}

/// A term of a named field fails exactly where the schema has no field of
/// that name, which is then said not to be indexed, or where the field
/// cannot hold the literal, which is then said to have the wrong type.
/// Otherwise it compiles to a term of the handle that the name resolves to.
pub proof fn lemma_term_of_named_field<L: AsFieldType<String>>(
    query: &SearchQueryInput,
    lookup: &L,
)
    requires
        query matches SearchQueryInput::Term { field: Some(_), .. },
    ensures
        ({
            let field = query->Term_field->Some_0;
            let value = query->Term_value;
            match lookup.resolve(&field) {
                None => compiled(query, lookup) == Err::<QueryModel, QueryErrorModel>(
                    QueryErrorModel::NonIndexedField(field@),
                ),
                Some(found) => match encoded(value@, found.0) {
                    None => compiled(query, lookup) == Err::<QueryModel, QueryErrorModel>(
                        QueryErrorModel::WrongFieldType(field@),
                    ),
                    Some(written) => compiled(query, lookup) == Ok::<QueryModel, QueryErrorModel>(
                        QueryModel::Term {
                            term: TermModel { field: found.1, value: written },
                            record: IndexRecordOptionSchema::WithFreqsAndPositions,
                        },
                    ),
                },
            }
        }),
{
}

/// One term is made for each field that can hold the literal.
pub proof fn lemma_terms_across_count(fields: Seq<(FieldKind, SearchFieldId)>, value: ValueModel)
    ensures
        terms_across(fields, value).len() == fields.filter(
            |field: (FieldKind, SearchFieldId)| encoded(value, field.0) is Some,
        ).len(),
    decreases fields.len(),
{
    reveal(Seq::filter);
    if fields.len() > 0 {
        lemma_terms_across_count(fields.drop_last(), value);
    }
}

/// A term without a field never fails: it compiles to the set of the
/// literal's terms in the fields that can hold it, as many as there are
/// such fields.
pub proof fn lemma_term_across_fields<L: AsFieldType<String>>(query: &SearchQueryInput, lookup: &L)
    requires
        query matches SearchQueryInput::Term { field: None, .. },
    ensures
        compiled(query, lookup) matches Ok(QueryModel::TermSet { terms }) && terms.len()
            == lookup.field_table().filter(
            |field: (FieldKind, SearchFieldId)| encoded(query->Term_value@, field.0) is Some,
        ).len(),
{
    lemma_terms_across_count(lookup.field_table(), query->Term_value@);
}

/// A list of named literals has terms exactly where each of them has one,
/// and then the terms are those of the literals, in order.
pub proof fn lemma_term_set_all_or_nothing<L: AsFieldType<String>>(
    pairs: Seq<(String, FieldValue)>,
    lookup: &L,
)
    ensures
        match term_set(pairs, lookup) {
            Ok(terms) => terms.len() == pairs.len() && forall|i: int|
                0 <= i < pairs.len() ==> named_term(&pairs[i].0, pairs[i].1@, lookup) == Some(
                    #[trigger] terms[i],
                ),
            Err(error) => exists|i: int|
                0 <= i < pairs.len() && named_term(&(#[trigger] pairs[i]).0, pairs[i].1@, lookup) is None
                    && error == QueryErrorModel::NonIndexedField(pairs[i].0@),
        },
    decreases pairs.len(),
{
    if pairs.len() > 0 {
        let earlier = pairs.drop_last();
        lemma_term_set_all_or_nothing(earlier, lookup);
        match term_set(earlier, lookup) {
            Ok(terms) => {
                if named_term(&pairs.last().0, pairs.last().1@, lookup) is None {
                    assert(pairs[pairs.len() - 1] == pairs.last());
                } else {
                    let made = term_set(pairs, lookup)->Ok_0;
                    assert forall|i: int| 0 <= i < pairs.len() implies named_term(
                        &pairs[i].0,
                        pairs[i].1@,
                        lookup,
                    ) == Some(#[trigger] made[i]) by {
                        if i < pairs.len() - 1 {
                            assert(earlier[i] == pairs[i]);
                            assert(made[i] == terms[i]);
                        }
                    }
                }
            },
            Err(error) => {
                let at = choose|i: int|
                    0 <= i < earlier.len() && named_term(&(#[trigger] earlier[i]).0, earlier[i].1@, lookup) is None
                        && error == QueryErrorModel::NonIndexedField(earlier[i].0@);
                assert(pairs[at] == earlier[at]);
            },
        }
    }
}

/// A set of terms fails as a whole as soon as one of its named literals
/// would fail as a term of its own: there is no set of the others.
pub proof fn lemma_term_set_fails_with_any<L: AsFieldType<String>>(
    query: &SearchQueryInput,
    single: &SearchQueryInput,
    lookup: &L,
    at: int,
)
    requires
        query is TermSet,
        0 <= at < query->TermSet_terms.len(),
        single matches SearchQueryInput::Term { field: Some(field), value } && field
            == query->TermSet_terms[at].0 && value == query->TermSet_terms[at].1,
        compiled(single, lookup) is Err,
    ensures
        compiled(query, lookup) is Err,
{
    lemma_term_set_all_or_nothing(query->TermSet_terms@, lookup);
    let pairs = query->TermSet_terms@;
    if term_set(pairs, lookup) is Ok {
        let terms = term_set(pairs, lookup)->Ok_0;
        assert(named_term(&pairs[at].0, pairs[at].1@, lookup) == Some(terms[at]));
    }
}

/// A boolean query compiles exactly where each query that it holds
/// compiles, and then it holds their compiled queries, each list in its
/// order; an error is the first error among the required, then the
/// optional, then the excluded queries.
pub proof fn lemma_boolean<L: AsFieldType<String>>(query: &SearchQueryInput, lookup: &L)
    requires
        query is Boolean,
    ensures
        ({
            let required = compiled_all(query->Boolean_must@, lookup);
            let optional = compiled_all(query->Boolean_should@, lookup);
            let excluded = compiled_all(query->Boolean_must_not@, lookup);
            match compiled(query, lookup) {
                Ok(made) => {
                    &&& forall|i: int| 0 <= i < required.len() ==> (#[trigger] required[i]) is Ok
                    &&& forall|i: int| 0 <= i < optional.len() ==> (#[trigger] optional[i]) is Ok
                    &&& forall|i: int| 0 <= i < excluded.len() ==> (#[trigger] excluded[i]) is Ok
                    &&& made == (QueryModel::Boolean {
                        must: successes(required),
                        should: successes(optional),
                        must_not: successes(excluded),
                    })
                },
                Err(error) => Some(error) == match first_failure(required) {
                    Some(first) => Some(first),
                    None => match first_failure(optional) {
                        Some(first) => Some(first),
                        None => first_failure(excluded),
                    },
                },
            }
        }),
{
    let required = compiled_all(query->Boolean_must@, lookup);
    let optional = compiled_all(query->Boolean_should@, lookup);
    let excluded = compiled_all(query->Boolean_must_not@, lookup);
    lemma_first_failure_concat(required, optional);
    lemma_first_failure_concat(required + optional, excluded);
    if compiled(query, lookup) is Ok {
        lemma_all_succeed(required);
        lemma_all_succeed(optional);
        lemma_all_succeed(excluded);
    }
}

/// A boolean query that requires one query and holds no other compiles to
/// the boolean query that requires the compiled query, and fails with the
/// error of the required query.
pub proof fn lemma_boolean_of_one_required<L: AsFieldType<String>>(
    query: &SearchQueryInput,
    lookup: &L,
)
    requires
        query is Boolean,
        query->Boolean_must.len() == 1,
        query->Boolean_should.len() == 0,
        query->Boolean_must_not.len() == 0,
    ensures
        compiled(query, lookup) == match compiled(&query->Boolean_must[0], lookup) {
            Ok(required) => Ok::<QueryModel, QueryErrorModel>(
                QueryModel::Boolean {
                    must: seq![required],
                    should: Seq::empty(),
                    must_not: Seq::empty(),
                },
            ),
            Err(error) => Err(error),
        },
{
    let required = compiled_all(query->Boolean_must@, lookup);
    let optional = compiled_all(query->Boolean_should@, lookup);
    let excluded = compiled_all(query->Boolean_must_not@, lookup);
    lemma_first_failure_concat(required, optional);
    lemma_first_failure_concat(required + optional, excluded);
    assert(required[0] == compiled(&query->Boolean_must[0], lookup));
    assert(first_failure(required.drop_first()) is None);
    match required[0] {
        Ok(made) => {
            assert(successes(required) =~= seq![made]);
            assert(successes(optional) =~= Seq::<QueryModel>::empty());
            assert(successes(excluded) =~= Seq::<QueryModel>::empty());
        },
        Err(_) => {},
    }
}

/// A boolean query that holds no query at all compiles, to the boolean
/// query that holds none.
pub proof fn lemma_empty_boolean<L: AsFieldType<String>>(query: &SearchQueryInput, lookup: &L)
    requires
        query is Boolean,
        query->Boolean_must.len() == 0,
        query->Boolean_should.len() == 0,
        query->Boolean_must_not.len() == 0,
    ensures
        compiled(query, lookup) == Ok::<QueryModel, QueryErrorModel>(
            QueryModel::Boolean {
                must: Seq::empty(),
                should: Seq::empty(),
                must_not: Seq::empty(),
            },
        ),
{
    let required = compiled_all(query->Boolean_must@, lookup);
    let optional = compiled_all(query->Boolean_should@, lookup);
    let excluded = compiled_all(query->Boolean_must_not@, lookup);
    assert(required + optional + excluded =~= Seq::<Outcome>::empty());
    assert(successes(required) =~= Seq::<QueryModel>::empty());
    assert(successes(optional) =~= Seq::<QueryModel>::empty());
    assert(successes(excluded) =~= Seq::<QueryModel>::empty());
}

/// The first failure of a list of outcomes is the error of one of them.
pub proof fn lemma_first_failure_is_one(outcomes: Seq<Outcome>)
    ensures
        first_failure(outcomes) matches Some(error) ==> exists|i: int|
            0 <= i < outcomes.len() && #[trigger] outcomes[i] == Err::<QueryModel, QueryErrorModel>(error),
    decreases outcomes.len(),
{
    if outcomes.len() > 0 {
        match outcomes[0] {
            Err(_) => {},
            Ok(_) => {
                let rest = outcomes.drop_first();
                lemma_first_failure_is_one(rest);
                match first_failure(rest) {
                    Some(error) => {
                        let at = choose|i: int|
                            0 <= i < rest.len() && #[trigger] rest[i] == Err::<
                                QueryModel,
                                QueryErrorModel,
                            >(error);
                        assert(outcomes[at + 1] == rest[at]);
                    },
                    None => {},
                }
            },
        }
    }
}

/// The values of a document are refused only for the type of a field.
pub proof fn lemma_document_fields_error<L: AsFieldType<String>>(
    pairs: Seq<(String, FieldValue)>,
    lookup: &L,
)
    ensures
        document_fields(pairs, lookup) matches Err(error) ==> error is WrongFieldType,
    decreases pairs.len(),
{
    if pairs.len() > 0 {
        lemma_document_fields_error(pairs.drop_last(), lookup);
    }
}

/// What `compiled` states of the queries of a list is never an error of
/// the free-text parser.
pub proof fn lemma_no_parse_error_in<L: AsFieldType<String>>(
    queries: Seq<SearchQueryInput>,
    lookup: &L,
)
    ensures
        forall|i: int|
            0 <= i < queries.len() ==> !((#[trigger] compiled_all(queries, lookup)[i]) matches Err(
                error,
            ) && error is ParseError),
    decreases queries,
{
    assert forall|i: int| 0 <= i < queries.len() implies !((#[trigger] compiled_all(
        queries,
        lookup,
    )[i]) matches Err(error) && error is ParseError) by {
        lemma_no_parse_error(&queries[i], lookup);
    }
}

/// What `compiled` states is never an error of the free-text parser: such
/// an error comes from the parser alone.
pub proof fn lemma_no_parse_error<L: AsFieldType<String>>(query: &SearchQueryInput, lookup: &L)
    ensures
        !(compiled(query, lookup) matches Err(error) && error is ParseError),
    decreases query,
{
    match query {
        SearchQueryInput::Boolean { must, should, must_not } => {
            let required = compiled_all(must@, lookup);
            let optional = compiled_all(should@, lookup);
            let excluded = compiled_all(must_not@, lookup);
            lemma_no_parse_error_in(must@, lookup);
            lemma_no_parse_error_in(should@, lookup);
            lemma_no_parse_error_in(must_not@, lookup);
            lemma_first_failure_concat(required, optional);
            lemma_first_failure_concat(required + optional, excluded);
            lemma_first_failure_is_one(required);
            lemma_first_failure_is_one(optional);
            lemma_first_failure_is_one(excluded);
        },
        SearchQueryInput::Boost { query, .. } => {
            lemma_no_parse_error(&**query, lookup);
        },
        SearchQueryInput::ConstScore { query, .. } => {
            lemma_no_parse_error(&**query, lookup);
        },
        SearchQueryInput::DisjunctionMax { disjuncts, .. } => {
            lemma_no_parse_error_in(disjuncts@, lookup);
            lemma_first_failure_is_one(compiled_all(disjuncts@, lookup));
        },
        SearchQueryInput::MoreLikeThis { fields, .. } => {
            lemma_document_fields_error(fields@, lookup);
        },
        SearchQueryInput::TermSet { terms } => {
            lemma_term_set_all_or_nothing(terms@, lookup);
        },
        _ => {},
    }
}

/// The error of a compilation is the error that `compiled` states, unless
/// it is an error of the free-text parser, which is then about a string
/// that compiling the query hands to the parser.
pub proof fn lemma_errors_told_apart<L: AsFieldType<String>>(
    query: &SearchQueryInput,
    lookup: &L,
    result: Result<TantivyQuery, QueryError>,
)
    requires
        answers(query, lookup, result),
    ensures
        match result {
            Ok(made) => compiled(query, lookup) == Ok::<QueryModel, QueryErrorModel>(made@),
            Err(QueryError::ParseError(_, rejected)) => asks(query, lookup, rejected@),
            Err(error) => compiled(query, lookup) == Err::<QueryModel, QueryErrorModel>(error@),
        },
{
    lemma_no_parse_error(query, lookup);
}

} // verus!
