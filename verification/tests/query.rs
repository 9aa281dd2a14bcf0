use pg_search::json::{JsonMember, JsonValue};
use pg_search::query::{
    value_to_term, AsFieldType, Bound, DocumentField, FieldValue, MoreLikeThisLimits, QueryError,
    SearchQueryInput, SearchTerm, TantivyQuery,
};
use pg_search::schema::{
    FieldKind, IndexRecordOptionSchema, SearchFieldConfig, SearchFieldId, SearchFieldName,
    SearchFieldType, SearchIndexSchema,
};

fn name(text: &str) -> SearchFieldName {
    SearchFieldName(text.to_string())
}

fn shoe_schema() -> SearchIndexSchema {
    let declarations = vec![
        (name("id"), SearchFieldConfig::default_numeric(), SearchFieldType::I64),
        (name("body"), SearchFieldConfig::default_text(), SearchFieldType::Text),
        (name("ctid"), SearchFieldConfig::Ctid, SearchFieldType::U64),
    ];
    SearchIndexSchema::new(declarations, 0).unwrap()
}

fn wide_schema() -> SearchIndexSchema {
    let declarations = vec![
        (name("id"), SearchFieldConfig::default_numeric(), SearchFieldType::I64),
        (name("body"), SearchFieldConfig::default_text(), SearchFieldType::Text),
        (name("title"), SearchFieldConfig::default_text(), SearchFieldType::Text),
        (name("price"), SearchFieldConfig::default_numeric(), SearchFieldType::F64),
        (name("stock"), SearchFieldConfig::default_numeric(), SearchFieldType::U64),
        (name("sold"), SearchFieldConfig::default_boolean(), SearchFieldType::Bool),
        (name("made"), SearchFieldConfig::default_date(), SearchFieldType::Date),
        (name("extra"), SearchFieldConfig::default_json(), SearchFieldType::Json),
        (name("ctid"), SearchFieldConfig::Ctid, SearchFieldType::U64),
    ];
    SearchIndexSchema::new(declarations, 0).unwrap()
}

fn parser_of(schema: &SearchIndexSchema) -> tantivy::query::QueryParser {
    let body = schema.schema.get_field("body").unwrap();
    tantivy::query::QueryParser::new(
        schema.schema.clone(),
        vec![body],
        tantivy::tokenizer::TokenizerManager::default(),
    )
}

fn compile(query: SearchQueryInput, schema: &SearchIndexSchema) -> Result<TantivyQuery, QueryError> {
    assert!(query.is_encodable());
    query.into_tantivy_query(schema, &parser_of(schema))
}

fn text(value: &str) -> FieldValue {
    FieldValue::Str(value.to_string())
}

fn term(field: u32, value: FieldValue) -> SearchTerm {
    SearchTerm { field: SearchFieldId(field), value }
}

fn term_query(field: &str, value: FieldValue) -> SearchQueryInput {
    SearchQueryInput::Term { field: Some(field.to_string()), value }
}

fn date_range(bound: &str) -> SearchQueryInput {
    SearchQueryInput::Range {
        field: "made".to_string(),
        lower_bound: Bound::Included(text(bound)),
        upper_bound: Bound::Unbounded,
    }
}

#[test]
fn all_and_empty_compile_to_themselves() {
    let schema = shoe_schema();
    assert_eq!(compile(SearchQueryInput::All, &schema), Ok(TantivyQuery::All));
    assert_eq!(compile(SearchQueryInput::Empty, &schema), Ok(TantivyQuery::Empty));
}

#[test]
fn a_term_of_a_named_field_has_the_handle_of_the_field() {
    let schema = shoe_schema();
    let resolved = schema.as_field_type(&"body".to_string()).unwrap();
    assert_eq!(
        compile(term_query("body", text("shoes")), &schema),
        Ok(TantivyQuery::Term {
            term: SearchTerm { field: resolved.1, value: text("shoes") },
            record: IndexRecordOptionSchema::WithFreqsAndPositions,
        })
    );
    assert_eq!(
        compile(term_query("id", FieldValue::I64(-7)), &schema),
        Ok(TantivyQuery::Term {
            term: term(0, FieldValue::I64(-7)),
            record: IndexRecordOptionSchema::WithFreqsAndPositions,
        })
    );
}

#[test]
fn a_term_of_a_missing_field_is_not_indexed() {
    let schema = shoe_schema();
    assert_eq!(
        compile(term_query("colour", text("red")), &schema),
        Err(QueryError::NonIndexedField("colour".to_string()))
    );
}

#[test]
fn a_term_that_the_field_cannot_hold_has_the_wrong_type() {
    let schema = wide_schema();
    assert_eq!(
        compile(term_query("id", text("shoes")), &schema),
        Err(QueryError::WrongFieldType("id".to_string()))
    );
    assert_eq!(
        compile(term_query("body", FieldValue::I64(3)), &schema),
        Err(QueryError::WrongFieldType("body".to_string()))
    );
    assert_eq!(
        compile(term_query("body", FieldValue::U64(3)), &schema),
        Err(QueryError::WrongFieldType("body".to_string()))
    );
    assert_eq!(
        compile(term_query("stock", FieldValue::I64(3)), &schema),
        Err(QueryError::WrongFieldType("stock".to_string()))
    );
    assert_eq!(
        compile(term_query("made", text("yesterday")), &schema),
        Err(QueryError::WrongFieldType("made".to_string()))
    );
    assert_eq!(
        compile(term_query("sold", FieldValue::F64(0)), &schema),
        Err(QueryError::WrongFieldType("sold".to_string()))
    );
}

#[test]
fn an_unsigned_literal_is_read_as_signed_by_a_signed_field() {
    let schema = wide_schema();
    assert_eq!(
        compile(term_query("id", FieldValue::U64(42)), &schema),
        Ok(TantivyQuery::Term {
            term: term(0, FieldValue::I64(42)),
            record: IndexRecordOptionSchema::WithFreqsAndPositions,
        })
    );
    assert_eq!(
        compile(term_query("id", FieldValue::U64(u64::MAX)), &schema),
        Ok(TantivyQuery::Term {
            term: term(0, FieldValue::I64(-1)),
            record: IndexRecordOptionSchema::WithFreqsAndPositions,
        })
    );
    assert_eq!(
        compile(term_query("stock", FieldValue::U64(42)), &schema),
        Ok(TantivyQuery::Term {
            term: term(4, FieldValue::U64(42)),
            record: IndexRecordOptionSchema::WithFreqsAndPositions,
        })
    );
}

#[test]
fn every_scalar_is_a_term_of_a_field_of_its_own_kind() {
    let id = SearchFieldId(9);
    let cases = vec![
        (FieldValue::I64(-1), FieldKind::I64),
        (FieldValue::F64(4613937818241073152), FieldKind::F64),
        (FieldValue::Bool(true), FieldKind::Bool),
        (FieldValue::Date(1720612800000000), FieldKind::Date),
        (FieldValue::Facet("/a/b".to_string()), FieldKind::Facet),
        (FieldValue::Bytes(vec![1, 2, 3]), FieldKind::Bytes),
        (FieldValue::IpAddr(1), FieldKind::IpAddr),
    ];
    for (value, kind) in cases {
        let copy = value.duplicate();
        assert_eq!(value_to_term(id, value, kind), Ok(SearchTerm { field: id, value: copy }));
    }
    assert_eq!(
        value_to_term(id, FieldValue::Bytes(vec![1]), FieldKind::Str),
        Err(QueryError::FieldTypeMismatch)
    );
    assert_eq!(
        value_to_term(id, FieldValue::Bool(true), FieldKind::U64),
        Err(QueryError::FieldTypeMismatch)
    );
    assert_eq!(
        value_to_term(id, text("a"), FieldKind::JsonObject),
        Err(QueryError::FieldTypeMismatch)
    );
}

#[test]
fn a_term_without_a_field_is_searched_in_every_field_that_can_hold_it() {
    let schema = wide_schema();
    let query = SearchQueryInput::Term { field: None, value: text("shoes") };
    assert_eq!(
        compile(query, &schema),
        Ok(TantivyQuery::TermSet { terms: vec![term(1, text("shoes")), term(2, text("shoes"))] })
    );
    let query = SearchQueryInput::Term { field: None, value: FieldValue::U64(7) };
    assert_eq!(
        compile(query, &schema),
        Ok(TantivyQuery::TermSet {
            terms: vec![
                term(0, FieldValue::I64(7)),
                term(4, FieldValue::U64(7)),
                term(8, FieldValue::U64(7)),
            ],
        })
    );
    let query = SearchQueryInput::Term { field: None, value: text("2024-07-10T12:00:00Z") };
    assert_eq!(
        compile(query, &schema),
        Ok(TantivyQuery::TermSet {
            terms: vec![
                term(1, text("2024-07-10T12:00:00Z")),
                term(2, text("2024-07-10T12:00:00Z")),
                term(6, FieldValue::Date(1720612800000000)),
            ],
        })
    );
    let query = SearchQueryInput::Term { field: None, value: FieldValue::IpAddr(1) };
    assert_eq!(compile(query, &schema), Ok(TantivyQuery::TermSet { terms: vec![] }));
}

#[test]
fn a_term_set_holds_the_terms_in_order() {
    let schema = shoe_schema();
    let query = SearchQueryInput::TermSet {
        terms: vec![
            ("body".to_string(), text("shoes")),
            ("id".to_string(), FieldValue::I64(3)),
            ("body".to_string(), text("boots")),
        ],
    };
    assert_eq!(
        compile(query, &schema),
        Ok(TantivyQuery::TermSet {
            terms: vec![term(1, text("shoes")), term(0, FieldValue::I64(3)), term(1, text("boots"))],
        })
    );
    assert_eq!(
        compile(SearchQueryInput::TermSet { terms: vec![] }, &schema),
        Ok(TantivyQuery::TermSet { terms: vec![] })
    );
}

#[test]
fn a_term_set_fails_as_a_whole() {
    let schema = shoe_schema();
    let query = SearchQueryInput::TermSet {
        terms: vec![("body".to_string(), text("shoes")), ("id".to_string(), text("shoes"))],
    };
    assert_eq!(compile(query, &schema), Err(QueryError::NonIndexedField("id".to_string())));
    let query = SearchQueryInput::TermSet {
        terms: vec![("colour".to_string(), text("red")), ("body".to_string(), text("shoes"))],
    };
    assert_eq!(compile(query, &schema), Err(QueryError::NonIndexedField("colour".to_string())));
    assert!(compile(term_query("id", text("shoes")), &schema).is_err());
    assert!(compile(term_query("body", text("shoes")), &schema).is_ok());
}

#[test]
fn a_boolean_query_holds_its_queries_in_three_lists() {
    let schema = shoe_schema();
    let required = term_query("body", text("shoes"));
    let query =
        SearchQueryInput::Boolean { must: vec![required], should: vec![], must_not: vec![] };
    assert_eq!(
        compile(query, &schema),
        Ok(TantivyQuery::Boolean {
            must: vec![TantivyQuery::Term {
                term: term(1, text("shoes")),
                record: IndexRecordOptionSchema::WithFreqsAndPositions,
            }],
            should: vec![],
            must_not: vec![],
        })
    );
    let query = SearchQueryInput::Boolean {
        must: vec![SearchQueryInput::All],
        should: vec![SearchQueryInput::Empty, SearchQueryInput::All],
        must_not: vec![SearchQueryInput::Empty],
    };
    assert_eq!(
        compile(query, &schema),
        Ok(TantivyQuery::Boolean {
            must: vec![TantivyQuery::All],
            should: vec![TantivyQuery::Empty, TantivyQuery::All],
            must_not: vec![TantivyQuery::Empty],
        })
    );
}

#[test]
fn an_empty_boolean_query_compiles() {
    let schema = shoe_schema();
    let query = SearchQueryInput::Boolean { must: vec![], should: vec![], must_not: vec![] };
    assert_eq!(
        compile(query, &schema),
        Ok(TantivyQuery::Boolean { must: vec![], should: vec![], must_not: vec![] })
    );
}

#[test]
fn the_first_error_in_a_boolean_query_decides() {
    let schema = shoe_schema();
    let query = SearchQueryInput::Boolean {
        must: vec![SearchQueryInput::All],
        should: vec![term_query("first", text("a"))],
        must_not: vec![term_query("second", text("b"))],
    };
    assert_eq!(compile(query, &schema), Err(QueryError::NonIndexedField("first".to_string())));
    let query = SearchQueryInput::Boolean {
        must: vec![term_query("zero", text("a"))],
        should: vec![term_query("first", text("a"))],
        must_not: vec![],
    };
    assert_eq!(compile(query, &schema), Err(QueryError::NonIndexedField("zero".to_string())));
    let query = SearchQueryInput::Boolean {
        must: vec![],
        should: vec![SearchQueryInput::Parse { query_string: "nowhere:shoes".to_string() }],
        must_not: vec![term_query("second", text("b"))],
    };
    match compile(query, &schema) {
        Err(QueryError::ParseError(_, rejected)) => assert_eq!(rejected, "nowhere:shoes"),
        other => panic!("the parser was not asked first: {other:?}"),
    }
}

#[test]
fn scores_wrap_the_compiled_query() {
    let schema = shoe_schema();
    let boost = 1.5f32.to_bits();
    let query = SearchQueryInput::Boost { query: Box::new(SearchQueryInput::All), boost };
    assert_eq!(
        compile(query, &schema),
        Ok(TantivyQuery::Boost { query: Box::new(TantivyQuery::All), boost })
    );
    let query = SearchQueryInput::ConstScore {
        query: Box::new(term_query("body", text("shoes"))),
        score: boost,
    };
    assert_eq!(
        compile(query, &schema),
        Ok(TantivyQuery::ConstScore {
            query: Box::new(TantivyQuery::Term {
                term: term(1, text("shoes")),
                record: IndexRecordOptionSchema::WithFreqsAndPositions,
            }),
            score: boost,
        })
    );
    let query = SearchQueryInput::Boost {
        query: Box::new(term_query("colour", text("red"))),
        boost,
    };
    assert_eq!(compile(query, &schema), Err(QueryError::NonIndexedField("colour".to_string())));
}

#[test]
fn a_disjunction_keeps_its_tie_breaker() {
    let schema = shoe_schema();
    let tie = 0.25f32.to_bits();
    let query = SearchQueryInput::DisjunctionMax {
        disjuncts: vec![SearchQueryInput::All, SearchQueryInput::Empty],
        tie_breaker: Some(tie),
    };
    assert_eq!(
        compile(query, &schema),
        Ok(TantivyQuery::DisjunctionMax {
            disjuncts: vec![TantivyQuery::All, TantivyQuery::Empty],
            tie_breaker: Some(tie),
        })
    );
    let query = SearchQueryInput::DisjunctionMax {
        disjuncts: vec![SearchQueryInput::All, term_query("colour", text("red"))],
        tie_breaker: None,
    };
    assert_eq!(compile(query, &schema), Err(QueryError::NonIndexedField("colour".to_string())));
}

#[test]
fn a_fast_field_range_needs_a_field_of_integers() {
    let schema = wide_schema();
    for field in ["id", "stock", "ctid"] {
        let query = SearchQueryInput::FastFieldRangeWeight {
            field: field.to_string(),
            lower_bound: Bound::Included(1),
            upper_bound: Bound::Excluded(9),
        };
        assert_eq!(
            compile(query, &schema),
            Ok(TantivyQuery::FastFieldRange {
                field: field.to_string(),
                lower_bound: Bound::Included(1),
                upper_bound: Bound::Excluded(9),
            })
        );
    }
    for field in ["body", "price", "sold", "made", "missing"] {
        let query = SearchQueryInput::FastFieldRangeWeight {
            field: field.to_string(),
            lower_bound: Bound::Unbounded,
            upper_bound: Bound::Unbounded,
        };
        assert_eq!(compile(query, &schema), Err(QueryError::WrongFieldType(field.to_string())));
    }
}

#[test]
fn a_fuzzy_term_of_a_prefix_has_distance_one_by_default() {
    let schema = shoe_schema();
    let query = SearchQueryInput::FuzzyTerm {
        field: "body".to_string(),
        value: "shoe".to_string(),
        distance: None,
        tranposition_cost_one: None,
        prefix: Some(true),
    };
    assert_eq!(
        compile(query, &schema),
        Ok(TantivyQuery::Fuzzy {
            term: term(1, text("shoe")),
            distance: 1,
            transposition_cost_one: false,
            prefix: true,
        })
    );
}

#[test]
fn a_fuzzy_term_keeps_what_it_is_given() {
    let schema = shoe_schema();
    let query = SearchQueryInput::FuzzyTerm {
        field: "body".to_string(),
        value: "shoe".to_string(),
        distance: Some(2),
        tranposition_cost_one: Some(true),
        prefix: None,
    };
    assert_eq!(
        compile(query, &schema),
        Ok(TantivyQuery::Fuzzy {
            term: term(1, text("shoe")),
            distance: 2,
            transposition_cost_one: true,
            prefix: false,
        })
    );
    let query = SearchQueryInput::FuzzyTerm {
        field: "id".to_string(),
        value: "shoe".to_string(),
        distance: None,
        tranposition_cost_one: None,
        prefix: None,
    };
    assert_eq!(compile(query, &schema), Err(QueryError::WrongFieldType("id".to_string())));
}

#[test]
fn a_phrase_is_one_term_for_each_text() {
    let schema = shoe_schema();
    let query = SearchQueryInput::Phrase {
        field: "body".to_string(),
        phrases: vec!["running shoes".to_string(), "sale".to_string()],
        slop: Some(2),
    };
    assert_eq!(
        compile(query, &schema),
        Ok(TantivyQuery::Phrase {
            terms: vec![term(1, text("running shoes")), term(1, text("sale"))],
            slop: Some(2),
        })
    );
    let query = SearchQueryInput::PhrasePrefix {
        field: "body".to_string(),
        phrases: vec!["running".to_string(), "sh".to_string()],
        max_expansions: None,
    };
    assert_eq!(
        compile(query, &schema),
        Ok(TantivyQuery::PhrasePrefix {
            terms: vec![term(1, text("running")), term(1, text("sh"))],
            max_expansions: None,
        })
    );
    let query =
        SearchQueryInput::Phrase { field: "id".to_string(), phrases: vec![], slop: None };
    assert_eq!(compile(query, &schema), Err(QueryError::WrongFieldType("id".to_string())));
    let query = SearchQueryInput::PhrasePrefix {
        field: "missing".to_string(),
        phrases: vec![],
        max_expansions: Some(3),
    };
    assert_eq!(compile(query, &schema), Err(QueryError::WrongFieldType("missing".to_string())));
}

#[test]
fn a_date_range_reads_timestamps_to_the_second() {
    let schema = wide_schema();
    assert_eq!(
        compile(date_range("2024-07-10T12:00:00Z"), &schema),
        Ok(TantivyQuery::Range {
            field: "made".to_string(),
            kind: FieldKind::Date,
            lower_bound: Bound::Included(term(6, FieldValue::Date(1720612800000000))),
            upper_bound: Bound::Unbounded,
        })
    );
}

#[test]
fn a_date_range_reads_timestamps_with_a_fraction() {
    let schema = wide_schema();
    assert_eq!(
        compile(date_range("2024-07-10T12:00:00.5Z"), &schema),
        Ok(TantivyQuery::Range {
            field: "made".to_string(),
            kind: FieldKind::Date,
            lower_bound: Bound::Included(term(6, FieldValue::Date(1720612800500000))),
            upper_bound: Bound::Unbounded,
        })
    );
}

#[test]
fn a_date_range_refuses_what_is_no_timestamp() {
    let schema = wide_schema();
    assert_eq!(compile(date_range("not-a-date"), &schema), Err(QueryError::FieldTypeMismatch));
}

#[test]
fn the_ends_of_a_range_are_independent() {
    let schema = wide_schema();
    let query = SearchQueryInput::Range {
        field: "id".to_string(),
        lower_bound: Bound::Unbounded,
        upper_bound: Bound::Excluded(FieldValue::U64(10)),
    };
    assert_eq!(
        compile(query, &schema),
        Ok(TantivyQuery::Range {
            field: "id".to_string(),
            kind: FieldKind::I64,
            lower_bound: Bound::Unbounded,
            upper_bound: Bound::Excluded(term(0, FieldValue::I64(10))),
        })
    );
    let query = SearchQueryInput::Range {
        field: "body".to_string(),
        lower_bound: Bound::Unbounded,
        upper_bound: Bound::Unbounded,
    };
    assert_eq!(
        compile(query, &schema),
        Ok(TantivyQuery::Range {
            field: "body".to_string(),
            kind: FieldKind::Str,
            lower_bound: Bound::Unbounded,
            upper_bound: Bound::Unbounded,
        })
    );
    let query = SearchQueryInput::Range {
        field: "id".to_string(),
        lower_bound: Bound::Included(FieldValue::I64(1)),
        upper_bound: Bound::Included(text("ten")),
    };
    assert_eq!(compile(query, &schema), Err(QueryError::FieldTypeMismatch));
    let query = SearchQueryInput::Range {
        field: "missing".to_string(),
        lower_bound: Bound::Unbounded,
        upper_bound: Bound::Unbounded,
    };
    assert_eq!(compile(query, &schema), Err(QueryError::WrongFieldType("missing".to_string())));
}

#[test]
fn a_pattern_must_be_a_regular_expression() {
    let schema = shoe_schema();
    let query =
        SearchQueryInput::Regex { field: "body".to_string(), pattern: "sho(e|es)".to_string() };
    assert_eq!(
        compile(query, &schema),
        Ok(TantivyQuery::Regex { field: SearchFieldId(1), pattern: "sho(e|es)".to_string() })
    );
    let query = SearchQueryInput::Regex { field: "body".to_string(), pattern: "sho(e".to_string() };
    match compile(query, &schema) {
        Err(QueryError::RegexError(said, pattern)) => {
            assert_eq!(pattern, "sho(e");
            assert!(!said.is_empty());
        }
        other => panic!("the pattern was taken: {other:?}"),
    }
    let query = SearchQueryInput::Regex { field: "id".to_string(), pattern: "sho(e".to_string() };
    assert_eq!(compile(query, &schema), Err(QueryError::WrongFieldType("id".to_string())));
}

#[test]
fn a_query_string_is_shown_to_the_parser() {
    let schema = shoe_schema();
    let query = SearchQueryInput::Parse { query_string: "body:shoes AND running".to_string() };
    assert_eq!(
        compile(query, &schema),
        Ok(TantivyQuery::Parse { query_string: "body:shoes AND running".to_string() })
    );
    let query = SearchQueryInput::Parse { query_string: "nowhere:shoes".to_string() };
    match compile(query, &schema) {
        Err(QueryError::ParseError(said, rejected)) => {
            assert_eq!(rejected, "nowhere:shoes");
            assert!(!said.is_empty());
        }
        other => panic!("the string was taken: {other:?}"),
    }
}

#[test]
fn document_values_are_filed_by_field() {
    let schema = wide_schema();
    let object = JsonValue::Object(vec![JsonMember {
        key: "size".to_string(),
        value: JsonValue::Number("9".to_string()),
    }]);
    let query = SearchQueryInput::MoreLikeThis {
        min_doc_frequency: Some(2),
        max_doc_frequency: None,
        min_term_frequency: Some(1),
        max_query_terms: None,
        min_word_length: None,
        max_word_length: Some(20),
        boost_factor: Some(1.0f32.to_bits()),
        stop_words: Some(vec!["the".to_string(), "a".to_string()]),
        fields: vec![
            ("body".to_string(), text("running shoes")),
            ("stock".to_string(), FieldValue::U64(3)),
            ("body".to_string(), text("boots")),
            ("extra".to_string(), FieldValue::JsonObject(object.duplicate())),
            ("stock".to_string(), FieldValue::U64(4)),
        ],
    };
    assert_eq!(
        compile(query, &schema),
        Ok(TantivyQuery::MoreLikeThis {
            limits: MoreLikeThisLimits {
                min_doc_frequency: Some(2),
                max_doc_frequency: None,
                min_term_frequency: Some(1),
                max_query_terms: None,
                min_word_length: None,
                max_word_length: Some(20),
                boost_factor: Some(1.0f32.to_bits()),
                stop_words: Some(vec!["the".to_string(), "a".to_string()]),
            },
            fields: vec![
                DocumentField {
                    field: SearchFieldId(1),
                    values: vec![text("running shoes"), text("boots")],
                },
                DocumentField {
                    field: SearchFieldId(4),
                    values: vec![FieldValue::U64(3), FieldValue::U64(4)],
                },
                DocumentField {
                    field: SearchFieldId(7),
                    values: vec![FieldValue::JsonObject(object)],
                },
            ],
        })
    );
}

fn similar_to(fields: Vec<(String, FieldValue)>) -> SearchQueryInput {
    SearchQueryInput::MoreLikeThis {
        min_doc_frequency: None,
        max_doc_frequency: None,
        min_term_frequency: None,
        max_query_terms: None,
        min_word_length: None,
        max_word_length: None,
        boost_factor: None,
        stop_words: None,
        fields,
    }
}

#[test]
fn a_document_value_must_have_the_representation_of_its_field() {
    let schema = wide_schema();
    let query = similar_to(vec![
        ("body".to_string(), text("shoes")),
        ("id".to_string(), FieldValue::U64(3)),
        ("missing".to_string(), text("x")),
    ]);
    assert_eq!(compile(query, &schema), Err(QueryError::WrongFieldType("id".to_string())));
    let query = similar_to(vec![("missing".to_string(), text("x"))]);
    assert_eq!(compile(query, &schema), Err(QueryError::WrongFieldType("missing".to_string())));
    let query = similar_to(vec![("body".to_string(), FieldValue::PreTokStr("x".to_string()))]);
    assert_eq!(compile(query, &schema), Err(QueryError::WrongFieldType("body".to_string())));
    let query = similar_to(vec![]);
    assert_eq!(
        compile(query, &schema),
        Ok(TantivyQuery::MoreLikeThis {
            limits: MoreLikeThisLimits {
                min_doc_frequency: None,
                max_doc_frequency: None,
                min_term_frequency: None,
                max_query_terms: None,
                min_word_length: None,
                max_word_length: None,
                boost_factor: None,
                stop_words: None,
            },
            fields: vec![],
        })
    );
}

#[test]
fn field_kinds_are_told_apart() {
    let schema = wide_schema();
    let body = "body".to_string();
    assert_eq!(schema.as_str(&body), Some(SearchFieldId(1)));
    assert_eq!(schema.as_u64(&body), None);
    assert_eq!(schema.as_i64(&"id".to_string()), Some(SearchFieldId(0)));
    assert_eq!(schema.as_u64(&"stock".to_string()), Some(SearchFieldId(4)));
    assert_eq!(schema.as_f64(&"price".to_string()), Some(SearchFieldId(3)));
    assert_eq!(schema.as_bool(&"sold".to_string()), Some(SearchFieldId(5)));
    assert_eq!(schema.as_date(&"made".to_string()), Some(SearchFieldId(6)));
    assert_eq!(schema.as_json_object(&"extra".to_string()), Some(SearchFieldId(7)));
    assert_eq!(schema.as_facet(&body), None);
    assert_eq!(schema.as_bytes(&body), None);
    assert_eq!(schema.as_ip_addr(&body), None);
    assert_eq!(schema.as_str(&"missing".to_string()), None);
    assert!(schema.is_field_type(&body, &text("x")));
    assert!(!schema.is_field_type(&body, &FieldValue::U64(1)));
    assert!(!schema.is_field_type(&"id".to_string(), &FieldValue::U64(1)));
    assert!(schema.is_field_type(&"id".to_string(), &FieldValue::I64(1)));
    assert!(!schema.is_field_type(&"missing".to_string(), &text("x")));
}

#[test]
fn literals_that_cannot_be_terms_are_found_beforehand() {
    let object = FieldValue::JsonObject(JsonValue::Object(vec![]));
    assert!(!object.is_scalar());
    assert!(!FieldValue::PreTokStr("x".to_string()).is_scalar());
    assert!(text("x").is_scalar());
    assert!(!term_query("body", object.duplicate()).is_encodable());
    let nested = SearchQueryInput::Boolean {
        must: vec![SearchQueryInput::All],
        should: vec![SearchQueryInput::Boost {
            query: Box::new(SearchQueryInput::TermSet {
                terms: vec![("body".to_string(), FieldValue::PreTokStr("x".to_string()))],
            }),
            boost: 0,
        }],
        must_not: vec![],
    };
    assert!(!nested.is_encodable());
    let range = SearchQueryInput::Range {
        field: "body".to_string(),
        lower_bound: Bound::Unbounded,
        upper_bound: Bound::Excluded(object.duplicate()),
    };
    assert!(!range.is_encodable());
    assert!(similar_to(vec![("extra".to_string(), object)]).is_encodable());
}

struct Drawer;

impl AsFieldType<String> for Drawer {
    fn fields(&self) -> Vec<(FieldKind, SearchFieldId)> {
        vec![
            (FieldKind::Facet, SearchFieldId(0)),
            (FieldKind::Bytes, SearchFieldId(1)),
            (FieldKind::IpAddr, SearchFieldId(2)),
        ]
    }

    fn as_field_type(&self, from: &String) -> Option<(FieldKind, SearchFieldId)> {
        match from.as_str() {
            "path" => Some((FieldKind::Facet, SearchFieldId(0))),
            "blob" => Some((FieldKind::Bytes, SearchFieldId(1))),
            "address" => Some((FieldKind::IpAddr, SearchFieldId(2))),
            _ => None,
        }
    }
}

#[test]
fn a_query_compiles_against_anything_that_knows_fields() {
    let schema = shoe_schema();
    let parser = parser_of(&schema);
    let query = SearchQueryInput::TermSet {
        terms: vec![
            ("path".to_string(), FieldValue::Facet("/shoes/running".to_string())),
            ("blob".to_string(), FieldValue::Bytes(vec![7, 8])),
            ("address".to_string(), FieldValue::IpAddr(1)),
        ],
    };
    assert_eq!(
        query.into_tantivy_query(&Drawer, &parser),
        Ok(TantivyQuery::TermSet {
            terms: vec![
                term(0, FieldValue::Facet("/shoes/running".to_string())),
                term(1, FieldValue::Bytes(vec![7, 8])),
                term(2, FieldValue::IpAddr(1)),
            ],
        })
    );
    let query = SearchQueryInput::Term { field: None, value: FieldValue::Bytes(vec![1]) };
    assert_eq!(
        query.into_tantivy_query(&Drawer, &parser),
        Ok(TantivyQuery::TermSet { terms: vec![term(1, FieldValue::Bytes(vec![1]))] })
    );
    let query = term_query("path", text("/shoes"));
    assert_eq!(
        query.into_tantivy_query(&Drawer, &parser),
        Err(QueryError::WrongFieldType("path".to_string()))
    );
    assert_eq!(Drawer.as_facet(&"path".to_string()), Some(SearchFieldId(0)));
    assert_eq!(Drawer.as_bytes(&"blob".to_string()), Some(SearchFieldId(1)));
    assert_eq!(Drawer.as_ip_addr(&"address".to_string()), Some(SearchFieldId(2)));
    assert!(Drawer.is_field_type(&"blob".to_string(), &FieldValue::Bytes(vec![])));
}
