//! The calls that compiling a query makes into other crates: reading a
//! timestamp, checking a regular expression, and showing a string to the
//! free-text parser. Their contracts are taken on trust.

use vstd::prelude::*;

verus! {

/// `tantivy::query::QueryParser`, of which nothing is known here.
#[verifier::external_type_specification]
#[verifier::external_body]
pub struct ExQueryParser(tantivy::query::QueryParser);

/// The microseconds from the Unix epoch to the moment that `text` spells in
/// the given `chrono` format, read as a time in UTC; nothing where `text`
/// does not follow the format.
pub uninterp spec fn timestamp_micros_of(text: Seq<char>, format: Seq<char>) -> Option<i64>;

/// What the engine has to say against a pattern that it does not take as a
/// regular expression; nothing for a pattern that it takes.
pub uninterp spec fn regex_rejection(pattern: Seq<char>) -> Option<Seq<char>>;

/// `chrono::NaiveDateTime::parse_from_str`, then `and_utc` and
/// `timestamp_micros` on what was read.
#[verifier::external_body]
pub(crate) fn parse_timestamp(text: &str, format: &str) -> (micros: Option<i64>)
    ensures
        micros == timestamp_micros_of(text@, format@),
{
    match chrono::NaiveDateTime::parse_from_str(text, format) {
        Ok(moment) => Some(moment.and_utc().timestamp_micros()),
        Err(_) => None,
    }
}

/// `tantivy::query::RegexQuery::from_pattern`: whether the engine takes the
/// pattern, and what it says where it does not.
#[verifier::external_body]
pub(crate) fn check_regex(pattern: &str, field: u32) -> (rejection: Option<String>)
    ensures
        match rejection {
            Some(diagnostic) => regex_rejection(pattern@) == Some(diagnostic@),
            None => regex_rejection(pattern@) is None,
        },
{
    let field = tantivy::schema::Field::from_field_id(field);
    match tantivy::query::RegexQuery::from_pattern(pattern, field) {
        Ok(_) => None,
        Err(error) => Some(error.to_string()),
    }
}

/// `tantivy::query::QueryParser::parse_query`: what the parser says against
/// the query string, if it does not take it. Nothing is claimed of which
/// strings a parser takes.
#[verifier::external_body]
pub(crate) fn check_query_string(parser: &tantivy::query::QueryParser, query_string: &str) -> (rejection:
    Option<String>) {
    match parser.parse_query(query_string) {
        Ok(_) => None,
        Err(error) => Some(error.to_string()),
    }
}

} // verus!
