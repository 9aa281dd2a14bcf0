use pg_search::query::AsFieldType;
use pg_search::schema::{
    can_reconcile, is_valid_field_name, FieldKind, IndexRecordOptionSchema, PgOid,
    SearchFieldConfig, SearchFieldId, SearchFieldName, SearchFieldType, SearchIndexSchema,
    SearchIndexSchemaError,
};
use pg_search::tokenizers::{SearchNormalizer, SearchTokenizer};

fn name(text: &str) -> SearchFieldName {
    SearchFieldName(text.to_string())
}

fn shoe_declarations() -> Vec<(SearchFieldName, SearchFieldConfig, SearchFieldType)> {
    vec![
        (name("id"), SearchFieldConfig::default_numeric(), SearchFieldType::I64),
        (name("body"), SearchFieldConfig::default_text(), SearchFieldType::Text),
        (name("ctid"), SearchFieldConfig::Ctid, SearchFieldType::U64),
    ]
}

fn shoe_schema() -> SearchIndexSchema {
    SearchIndexSchema::new(shoe_declarations(), 0).unwrap()
}

fn error_of(made: Result<SearchIndexSchema, SearchIndexSchemaError>) -> SearchIndexSchemaError {
    match made {
        Ok(_) => panic!("a schema was made"),
        Err(error) => error,
    }
}

#[test]
fn a_schema_resolves_its_fields() {
    let schema = shoe_schema();
    assert_eq!(schema.as_field_type(&"body".to_string()), Some((FieldKind::Str, SearchFieldId(1))));
    assert_eq!(schema.as_field_type(&"id".to_string()), Some((FieldKind::I64, SearchFieldId(0))));
    assert_eq!(schema.as_field_type(&"ctid".to_string()), Some((FieldKind::U64, SearchFieldId(2))));
    assert_eq!(schema.as_field_type(&"missing".to_string()), None);
}

#[test]
fn a_schema_lists_its_fields_in_order() {
    let schema = shoe_schema();
    assert_eq!(
        schema.fields(),
        vec![
            (FieldKind::I64, SearchFieldId(0)),
            (FieldKind::Str, SearchFieldId(1)),
            (FieldKind::U64, SearchFieldId(2)),
        ]
    );
}

#[test]
fn a_schema_records_the_key_and_the_row_locator() {
    let schema = shoe_schema();
    assert_eq!(schema.key, 0);
    assert_eq!(schema.ctid, 2);
    assert_eq!(schema.key_field().name, name("id"));
    assert_eq!(schema.key_field().id, SearchFieldId(0));
    assert_eq!(schema.ctid_field().name, name("ctid"));
    assert_eq!(schema.ctid_field().config, SearchFieldConfig::Ctid);
    let document = schema.new_document();
    assert_eq!(document.key, SearchFieldId(0));
    assert_eq!(document.ctid, SearchFieldId(2));
    assert!(document.doc.is_empty());
}

#[test]
fn the_first_row_locator_counts() {
    let mut declarations = shoe_declarations();
    declarations.push((name("ctid2"), SearchFieldConfig::Ctid, SearchFieldType::U64));
    let schema = SearchIndexSchema::new(declarations, 1).unwrap();
    assert_eq!(schema.ctid, 2);
    assert_eq!(schema.key, 1);
}

#[test]
fn a_schema_needs_a_row_locator() {
    let declarations = vec![
        (name("id"), SearchFieldConfig::default_numeric(), SearchFieldType::I64),
        (name("body"), SearchFieldConfig::default_text(), SearchFieldType::Text),
    ];
    assert_eq!(
        error_of(SearchIndexSchema::new(declarations, 0)),
        SearchIndexSchemaError::NoCtidFieldSpecified
    );
}

#[test]
fn a_schema_needs_a_key_among_its_fields() {
    assert_eq!(
        error_of(SearchIndexSchema::new(shoe_declarations(), 3)),
        SearchIndexSchemaError::NoKeyFieldSpecified
    );
    assert_eq!(
        error_of(SearchIndexSchema::new(Vec::new(), 0)),
        SearchIndexSchemaError::NoKeyFieldSpecified
    );
}

#[test]
fn the_engine_holds_the_fields_under_their_handles() {
    let schema = shoe_schema();
    for (place, expected) in ["id", "body", "ctid"].iter().enumerate() {
        let field = schema.schema.get_field(expected).unwrap();
        assert_eq!(field.field_id() as usize, place);
        assert_eq!(schema.fields[place].id, SearchFieldId(place as u32));
        assert_eq!(schema.fields[place].name, name(expected));
    }
    assert_eq!(schema.schema.num_fields(), 3);
}

#[test]
fn the_row_locator_is_indexed_stored_and_fast_whatever_its_type() {
    let declarations = vec![
        (name("key"), SearchFieldConfig::default_text(), SearchFieldType::Text),
        (name("ctid"), SearchFieldConfig::Ctid, SearchFieldType::Text),
    ];
    let schema = SearchIndexSchema::new(declarations, 0).unwrap();
    let field = schema.schema.get_field("ctid").unwrap();
    let entry = schema.schema.get_field_entry(field);
    match entry.field_type() {
        tantivy::schema::FieldType::U64(options) => {
            assert!(options.is_indexed());
            assert!(options.is_stored());
            assert!(options.is_fast());
            assert!(options.fieldnorms());
        }
        other => panic!("the row locator was registered as {other:?}"),
    }
    assert_eq!(schema.as_field_type(&"ctid".to_string()), Some((FieldKind::U64, SearchFieldId(1))));
}

#[test]
fn the_row_locator_has_the_options_of_all_three_flags() {
    let flags = tantivy::schema::INDEXED | tantivy::schema::STORED | tantivy::schema::FAST;
    let expected: tantivy::schema::NumericOptions = flags.into();
    assert_eq!(pg_search::schema::options::row_locator_options(), expected);
}

#[test]
fn every_logical_type_has_its_physical_type() {
    let declarations = vec![
        (name("a"), SearchFieldConfig::default_text(), SearchFieldType::Text),
        (name("b"), SearchFieldConfig::default_numeric(), SearchFieldType::I64),
        (name("c"), SearchFieldConfig::default_numeric(), SearchFieldType::U64),
        (name("d"), SearchFieldConfig::default_numeric(), SearchFieldType::F64),
        (name("e"), SearchFieldConfig::default_boolean(), SearchFieldType::Bool),
        (name("f"), SearchFieldConfig::default_json(), SearchFieldType::Json),
        (name("g"), SearchFieldConfig::default_date(), SearchFieldType::Date),
        (name("h"), SearchFieldConfig::Ctid, SearchFieldType::U64),
    ];
    let schema = SearchIndexSchema::new(declarations, 0).unwrap();
    let kinds: Vec<FieldKind> = schema.fields().into_iter().map(|field| field.0).collect();
    assert_eq!(
        kinds,
        vec![
            FieldKind::Str,
            FieldKind::I64,
            FieldKind::U64,
            FieldKind::F64,
            FieldKind::Bool,
            FieldKind::JsonObject,
            FieldKind::Date,
            FieldKind::U64,
        ]
    );
}

#[test]
fn lookups_agree_with_and_without_the_places_worked_out() {
    let mut schema = shoe_schema();
    let with_cache: Vec<Option<SearchFieldId>> = ["id", "body", "ctid", "missing"]
        .iter()
        .map(|field| schema.get_search_field(&name(field)).map(|found| found.id))
        .collect();
    schema.lookup = None;
    let without_cache: Vec<Option<SearchFieldId>> = ["id", "body", "ctid", "missing"]
        .iter()
        .map(|field| schema.get_search_field(&name(field)).map(|found| found.id))
        .collect();
    assert_eq!(with_cache, without_cache);
    assert_eq!(
        with_cache,
        vec![Some(SearchFieldId(0)), Some(SearchFieldId(1)), Some(SearchFieldId(2)), None]
    );
    assert_eq!(schema.as_field_type(&"body".to_string()), Some((FieldKind::Str, SearchFieldId(1))));
}

#[test]
fn handles_are_held_against_the_schema_of_the_engine() {
    let mut schema = shoe_schema();
    assert!(schema.has_fitting_handles());
    schema.fields[1].id = SearchFieldId(3);
    assert!(!schema.has_fitting_handles());
    schema.fields[1].id = SearchFieldId(2);
    assert!(schema.has_fitting_handles());
}

#[test]
fn the_lookup_gives_each_name_its_place() {
    let schema = shoe_schema();
    let lookup = SearchIndexSchema::build_lookup(&schema.fields);
    assert_eq!(lookup.len(), 3);
    assert_eq!(lookup.get("id"), Some(&0));
    assert_eq!(lookup.get("body"), Some(&1));
    assert_eq!(lookup.get("ctid"), Some(&2));
    assert_eq!(lookup.get("missing"), None);
}

#[test]
fn declarations_are_checked_before_a_schema_is_asked_for() {
    assert!(SearchIndexSchema::can_register(&shoe_declarations()));
    let mut twice = shoe_declarations();
    twice.push((name("body"), SearchFieldConfig::default_text(), SearchFieldType::Text));
    assert!(!SearchIndexSchema::can_register(&twice));
    let mut unnamed = shoe_declarations();
    unnamed.push((name(""), SearchFieldConfig::default_text(), SearchFieldType::Text));
    assert!(!SearchIndexSchema::can_register(&unnamed));
    let mut hyphen = shoe_declarations();
    hyphen.push((name("-x"), SearchFieldConfig::default_text(), SearchFieldType::Text));
    assert!(!SearchIndexSchema::can_register(&hyphen));
    let mut mismatch = shoe_declarations();
    mismatch.push((name("n"), SearchFieldConfig::default_numeric(), SearchFieldType::Text));
    assert!(!SearchIndexSchema::can_register(&mismatch));
    assert!(is_valid_field_name("x-y"));
    assert!(!is_valid_field_name("-"));
    assert!(!is_valid_field_name(""));
    assert!(can_reconcile(&SearchFieldConfig::default_boolean(), SearchFieldType::I64));
    assert!(can_reconcile(&SearchFieldConfig::Ctid, SearchFieldType::Date));
    assert!(!can_reconcile(&SearchFieldConfig::default_date(), SearchFieldType::Json));
}

#[test]
fn column_types_map_to_logical_types() {
    let cases = [
        (25, SearchFieldType::Text),
        (1043, SearchFieldType::Text),
        (2950, SearchFieldType::Text),
        (21, SearchFieldType::I64),
        (23, SearchFieldType::I64),
        (20, SearchFieldType::I64),
        (26, SearchFieldType::U64),
        (28, SearchFieldType::U64),
        (700, SearchFieldType::F64),
        (701, SearchFieldType::F64),
        (1700, SearchFieldType::F64),
        (16, SearchFieldType::Bool),
        (114, SearchFieldType::Json),
        (3802, SearchFieldType::Json),
        (1082, SearchFieldType::Date),
        (1114, SearchFieldType::Date),
        (1184, SearchFieldType::Date),
        (1083, SearchFieldType::Date),
        (1266, SearchFieldType::Date),
    ];
    for (oid, expected) in cases {
        assert_eq!(SearchFieldType::try_from(&PgOid::BuiltIn(oid)), Ok(expected));
    }
}

#[test]
fn other_column_types_are_refused() {
    for oid in [PgOid::BuiltIn(17), PgOid::BuiltIn(0), PgOid::Custom(25), PgOid::Invalid] {
        assert_eq!(SearchFieldType::try_from(&oid), Err(SearchIndexSchemaError::InvalidPgOid(oid)));
    }
}

#[test]
fn text_options_follow_the_configuration() {
    let config = SearchFieldConfig::Text {
        indexed: true,
        fast: true,
        stored: true,
        fieldnorms: false,
        tokenizer: SearchTokenizer::EnStem,
        record: IndexRecordOptionSchema::WithFreqs,
        normalizer: SearchNormalizer::Lowercase,
    };
    let options = config.text_options();
    assert!(options.is_stored());
    assert!(options.is_fast());
    assert_eq!(options.get_fast_field_tokenizer_name(), Some("lowercase"));
    let indexing = options.get_indexing_options().unwrap();
    assert_eq!(indexing.tokenizer(), "en_stem");
    assert!(!indexing.fieldnorms());
    assert_eq!(indexing.index_option(), tantivy::schema::IndexRecordOption::WithFreqs);

    let bare = SearchFieldConfig::Text {
        indexed: false,
        fast: false,
        stored: false,
        fieldnorms: true,
        tokenizer: SearchTokenizer::Default,
        record: IndexRecordOptionSchema::Basic,
        normalizer: SearchNormalizer::Raw,
    };
    let options = bare.text_options();
    assert!(!options.is_stored());
    assert!(!options.is_fast());
    assert!(options.get_indexing_options().is_none());
    assert_eq!(options, tantivy::schema::TextOptions::default());
}

#[test]
fn default_text_options_record_positions() {
    let options = SearchFieldConfig::default_text().text_options();
    let indexing = options.get_indexing_options().unwrap();
    assert_eq!(indexing.tokenizer(), "default");
    assert!(indexing.fieldnorms());
    assert_eq!(indexing.index_option(), tantivy::schema::IndexRecordOption::WithFreqsAndPositions);
    assert!(options.is_stored());
    assert!(!options.is_fast());
}

#[test]
fn numeric_options_follow_the_configuration() {
    let options = SearchFieldConfig::Numeric { indexed: true, fast: false, stored: true }
        .numeric_options();
    assert!(options.is_indexed());
    assert!(!options.is_fast());
    assert!(options.is_stored());
    assert!(!options.fieldnorms());
    let options = SearchFieldConfig::Boolean { indexed: false, fast: true, stored: false }
        .numeric_options();
    assert!(!options.is_indexed());
    assert!(options.is_fast());
    assert!(!options.is_stored());
    let none = SearchFieldConfig::Numeric { indexed: false, fast: false, stored: false };
    assert_eq!(none.numeric_options(), tantivy::schema::NumericOptions::default());
}

#[test]
fn json_options_follow_the_configuration() {
    let config = SearchFieldConfig::Json {
        indexed: true,
        fast: true,
        stored: true,
        expand_dots: true,
        tokenizer: SearchTokenizer::Raw,
        record: IndexRecordOptionSchema::WithFreqsAndPositions,
        normalizer: SearchNormalizer::Raw,
    };
    let options = config.json_options();
    assert!(options.is_stored());
    assert!(options.is_fast());
    assert!(options.is_indexed());
    assert!(options.is_expand_dots_enabled());
    assert_eq!(options.get_fast_field_tokenizer_name(), Some("raw"));
    let indexing = options.get_text_indexing_options().unwrap();
    assert_eq!(indexing.tokenizer(), "raw");
    assert!(indexing.fieldnorms());
    assert_eq!(indexing.index_option(), tantivy::schema::IndexRecordOption::WithFreqsAndPositions);

    let bare = SearchFieldConfig::Json {
        indexed: false,
        fast: false,
        stored: false,
        expand_dots: false,
        tokenizer: SearchTokenizer::Default,
        record: IndexRecordOptionSchema::Basic,
        normalizer: SearchNormalizer::Raw,
    };
    assert_eq!(bare.json_options(), tantivy::schema::JsonObjectOptions::default());
}

#[test]
fn date_options_follow_the_configuration() {
    let options = SearchFieldConfig::Date { indexed: true, fast: true, stored: false }.date_options();
    assert!(options.is_indexed());
    assert!(options.is_fast());
    assert!(!options.is_stored());
    let none = SearchFieldConfig::Date { indexed: false, fast: false, stored: false };
    assert_eq!(none.date_options(), tantivy::schema::DateOptions::default());
    let stored = SearchFieldConfig::Date { indexed: false, fast: false, stored: true };
    assert!(stored.date_options().is_stored());
}
