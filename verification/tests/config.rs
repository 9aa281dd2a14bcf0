use pg_search::json::{JsonMember, JsonValue};
use pg_search::schema::{
    default_as_freqs_and_positions, default_as_true, ConfigFamily, ConfigKey,
    IndexRecordOptionSchema, SearchFieldConfig, SearchFieldConfigError, ToString,
};
use pg_search::tokenizers::{SearchNormalizer, SearchTokenizer};

fn json(text: &str) -> serde_json::Value {
    serde_json::from_str(text).unwrap()
}

#[test]
fn default_flag_is_on() {
    assert!(default_as_true());
}

#[test]
fn default_record_is_frequencies_and_positions() {
    assert_eq!(default_as_freqs_and_positions(), IndexRecordOptionSchema::WithFreqsAndPositions);
}

#[test]
fn text_defaults_follow_the_table() {
    let expected = SearchFieldConfig::Text {
        indexed: true,
        fast: false,
        stored: true,
        fieldnorms: true,
        tokenizer: SearchTokenizer::Default,
        record: IndexRecordOptionSchema::WithFreqsAndPositions,
        normalizer: SearchNormalizer::Raw,
    };
    assert_eq!(SearchFieldConfig::text_from_json(json("{}")), Ok(expected));
    assert_eq!(SearchFieldConfig::default_text(), expected);
    assert_eq!(SearchFieldConfig::from_json(json(r#"{"Text": {}}"#)), expected);
}

#[test]
fn json_defaults_follow_the_table() {
    let expected = SearchFieldConfig::Json {
        indexed: true,
        fast: false,
        stored: true,
        expand_dots: true,
        tokenizer: SearchTokenizer::Default,
        record: IndexRecordOptionSchema::WithFreqsAndPositions,
        normalizer: SearchNormalizer::Raw,
    };
    assert_eq!(SearchFieldConfig::json_from_json(json("{}")), Ok(expected));
    assert_eq!(SearchFieldConfig::default_json(), expected);
    assert_eq!(SearchFieldConfig::from_json(json(r#"{"Json": {}}"#)), expected);
}

#[test]
fn numeric_boolean_and_date_defaults_follow_the_table() {
    let numeric = SearchFieldConfig::Numeric { indexed: true, fast: true, stored: true };
    let boolean = SearchFieldConfig::Boolean { indexed: true, fast: true, stored: true };
    let date = SearchFieldConfig::Date { indexed: true, fast: true, stored: true };
    assert_eq!(SearchFieldConfig::numeric_from_json(json("{}")), Ok(numeric));
    assert_eq!(SearchFieldConfig::boolean_from_json(json("{}")), Ok(boolean));
    assert_eq!(SearchFieldConfig::date_from_json(json("{}")), Ok(date));
    assert_eq!(SearchFieldConfig::default_numeric(), numeric);
    assert_eq!(SearchFieldConfig::default_boolean(), boolean);
    assert_eq!(SearchFieldConfig::default_date(), date);
    assert_eq!(SearchFieldConfig::from_json(json(r#"{"Numeric": {}}"#)), numeric);
    assert_eq!(SearchFieldConfig::from_json(json(r#"{"Boolean": {}}"#)), boolean);
    assert_eq!(SearchFieldConfig::from_json(json(r#"{"Date": {}}"#)), date);
}

#[test]
fn text_reads_every_key() {
    let value = json(
        r#"{"indexed": false, "fast": true, "stored": false, "fieldnorms": false,
            "tokenizer": {"type": "en_stem"}, "record": "freq", "normalizer": "lowercase"}"#,
    );
    assert_eq!(
        SearchFieldConfig::text_from_json(value),
        Ok(SearchFieldConfig::Text {
            indexed: false,
            fast: true,
            stored: false,
            fieldnorms: false,
            tokenizer: SearchTokenizer::EnStem,
            record: IndexRecordOptionSchema::WithFreqs,
            normalizer: SearchNormalizer::Lowercase,
        })
    );
}

#[test]
fn json_reads_every_key() {
    let value = json(
        r#"{"indexed": false, "fast": true, "stored": false, "expand_dots": false,
            "tokenizer": {"type": "whitespace"}, "record": "basic", "normalizer": "raw"}"#,
    );
    assert_eq!(
        SearchFieldConfig::json_from_json(value),
        Ok(SearchFieldConfig::Json {
            indexed: false,
            fast: true,
            stored: false,
            expand_dots: false,
            tokenizer: SearchTokenizer::WhiteSpace,
            record: IndexRecordOptionSchema::Basic,
            normalizer: SearchNormalizer::Raw,
        })
    );
}

#[test]
fn numeric_reads_every_key() {
    let value = json(r#"{"indexed": false, "fast": false, "stored": false}"#);
    assert_eq!(
        SearchFieldConfig::numeric_from_json(value),
        Ok(SearchFieldConfig::Numeric { indexed: false, fast: false, stored: false })
    );
}

#[test]
fn a_configuration_must_be_an_object() {
    assert_eq!(
        SearchFieldConfig::text_from_json(json("[]")),
        Err(SearchFieldConfigError::NotAnObject(ConfigFamily::Text))
    );
    assert_eq!(
        SearchFieldConfig::json_from_json(json("true")),
        Err(SearchFieldConfigError::NotAnObject(ConfigFamily::Json))
    );
    assert_eq!(
        SearchFieldConfig::numeric_from_json(json("3")),
        Err(SearchFieldConfigError::NotAnObject(ConfigFamily::Numeric))
    );
    assert_eq!(
        SearchFieldConfig::boolean_from_json(json("null")),
        Err(SearchFieldConfigError::NotAnObject(ConfigFamily::Boolean))
    );
    assert_eq!(
        SearchFieldConfig::date_from_json(json(r#""date""#)),
        Err(SearchFieldConfigError::NotAnObject(ConfigFamily::Date))
    );
}

#[test]
fn a_flag_must_be_a_boolean() {
    assert_eq!(
        SearchFieldConfig::text_from_json(json(r#"{"indexed": "yes"}"#)),
        Err(SearchFieldConfigError::NotABoolean(ConfigKey::Indexed))
    );
    assert_eq!(
        SearchFieldConfig::numeric_from_json(json(r#"{"fast": 1}"#)),
        Err(SearchFieldConfigError::NotABoolean(ConfigKey::Fast))
    );
    assert_eq!(
        SearchFieldConfig::date_from_json(json(r#"{"stored": null}"#)),
        Err(SearchFieldConfigError::NotABoolean(ConfigKey::Stored))
    );
    assert_eq!(
        SearchFieldConfig::text_from_json(json(r#"{"fieldnorms": []}"#)),
        Err(SearchFieldConfigError::NotABoolean(ConfigKey::Fieldnorms))
    );
    assert_eq!(
        SearchFieldConfig::json_from_json(json(r#"{"expand_dots": {}}"#)),
        Err(SearchFieldConfigError::NotABoolean(ConfigKey::ExpandDots))
    );
}

#[test]
fn the_first_bad_key_in_the_order_of_the_table_decides() {
    assert_eq!(
        SearchFieldConfig::text_from_json(json(r#"{"stored": 1, "fast": 2}"#)),
        Err(SearchFieldConfigError::NotABoolean(ConfigKey::Fast))
    );
}

#[test]
fn an_unknown_key_is_an_error() {
    assert_eq!(
        SearchFieldConfig::text_from_json(json(r#"{"indexed": true, "colour": "red"}"#)),
        Err(SearchFieldConfigError::UnknownKey(ConfigFamily::Text))
    );
    assert_eq!(
        SearchFieldConfig::numeric_from_json(json(r#"{"tokenizer": {"type": "raw"}}"#)),
        Err(SearchFieldConfigError::UnknownKey(ConfigFamily::Numeric))
    );
    assert_eq!(
        SearchFieldConfig::json_from_json(json(r#"{"fieldnorms": true}"#)),
        Err(SearchFieldConfigError::UnknownKey(ConfigFamily::Json))
    );
    assert_eq!(
        SearchFieldConfig::text_from_json(json(r#"{"expand_dots": true}"#)),
        Err(SearchFieldConfigError::UnknownKey(ConfigFamily::Text))
    );
}

#[test]
fn a_selection_must_name_something() {
    assert_eq!(
        SearchFieldConfig::text_from_json(json(r#"{"tokenizer": {"type": "klingon"}}"#)),
        Err(SearchFieldConfigError::InvalidTokenizer)
    );
    assert_eq!(
        SearchFieldConfig::text_from_json(json(r#"{"tokenizer": "default"}"#)),
        Err(SearchFieldConfigError::InvalidTokenizer)
    );
    assert_eq!(
        SearchFieldConfig::text_from_json(json(r#"{"record": "everything"}"#)),
        Err(SearchFieldConfigError::InvalidRecord)
    );
    assert_eq!(
        SearchFieldConfig::json_from_json(json(r#"{"normalizer": 7}"#)),
        Err(SearchFieldConfigError::InvalidNormalizer)
    );
}

#[test]
fn a_selection_may_be_an_object_with_one_null_member() {
    assert_eq!(
        SearchFieldConfig::text_from_json(json(r#"{"record": {"basic": null}}"#)),
        Ok(SearchFieldConfig::Text {
            indexed: true,
            fast: false,
            stored: true,
            fieldnorms: true,
            tokenizer: SearchTokenizer::Default,
            record: IndexRecordOptionSchema::Basic,
            normalizer: SearchNormalizer::Raw,
        })
    );
    assert_eq!(
        SearchFieldConfig::text_from_json(json(r#"{"record": {"basic": 1}}"#)),
        Err(SearchFieldConfigError::InvalidRecord)
    );
}

#[test]
fn a_tagged_configuration_names_its_family() {
    assert_eq!(SearchFieldConfig::try_from_json(json(r#""Ctid""#)), Ok(SearchFieldConfig::Ctid));
    assert_eq!(
        SearchFieldConfig::try_from_json(json(r#"{"Numeric": {"fast": false}}"#)),
        Ok(SearchFieldConfig::Numeric { indexed: true, fast: false, stored: true })
    );
    assert_eq!(
        SearchFieldConfig::try_from_json(json(r#"{"Colour": {}}"#)),
        Err(SearchFieldConfigError::UnknownFamily)
    );
    assert_eq!(
        SearchFieldConfig::try_from_json(json(r#"{"Text": {}, "Json": {}}"#)),
        Err(SearchFieldConfigError::UnknownFamily)
    );
    assert_eq!(
        SearchFieldConfig::try_from_json(json("12")),
        Err(SearchFieldConfigError::UnknownFamily)
    );
    assert_eq!(
        SearchFieldConfig::try_from_json(json(r#"{"Date": []}"#)),
        Err(SearchFieldConfigError::NotAnObject(ConfigFamily::Date))
    );
}

fn every_kind_of_configuration() -> Vec<SearchFieldConfig> {
    vec![
        SearchFieldConfig::Ctid,
        SearchFieldConfig::default_text(),
        SearchFieldConfig::default_json(),
        SearchFieldConfig::default_numeric(),
        SearchFieldConfig::default_boolean(),
        SearchFieldConfig::default_date(),
        SearchFieldConfig::Text {
            indexed: false,
            fast: true,
            stored: false,
            fieldnorms: false,
            tokenizer: SearchTokenizer::Raw,
            record: IndexRecordOptionSchema::Basic,
            normalizer: SearchNormalizer::Lowercase,
        },
        SearchFieldConfig::Json {
            indexed: true,
            fast: true,
            stored: false,
            expand_dots: false,
            tokenizer: SearchTokenizer::WhiteSpace,
            record: IndexRecordOptionSchema::WithFreqs,
            normalizer: SearchNormalizer::Lowercase,
        },
        SearchFieldConfig::Boolean { indexed: false, fast: true, stored: false },
    ]
}

#[test]
fn writing_then_reading_gives_the_configuration_back() {
    for config in every_kind_of_configuration() {
        let document = config.to_document();
        assert_eq!(SearchFieldConfig::from_document(&document), Ok(config));
    }
}

#[test]
fn defaults_written_out_read_as_the_short_form() {
    let short = SearchFieldConfig::try_from_json(json(r#"{"Text": {"fast": true}}"#)).unwrap();
    let spelled = short.to_document();
    assert_eq!(SearchFieldConfig::from_document(&spelled), Ok(short));
    let full = json(
        r#"{"Text": {"indexed": true, "fast": true, "stored": true, "fieldnorms": true,
            "tokenizer": {"type": "default"}, "record": "position", "normalizer": "raw"}}"#,
    );
    assert_eq!(SearchFieldConfig::try_from_json(full), Ok(short));
    for key in ["indexed", "fast", "stored", "fieldnorms", "tokenizer", "record", "normalizer"] {
        assert!(spelled.get("Text").unwrap().get(key).is_some());
    }
}

#[test]
fn a_written_configuration_spells_every_key() {
    let document = SearchFieldConfig::default_numeric().to_document();
    let expected = JsonValue::Object(vec![JsonMember {
        key: "Numeric".to_string(),
        value: JsonValue::Object(vec![
            JsonMember { key: "indexed".to_string(), value: JsonValue::Bool(true) },
            JsonMember { key: "fast".to_string(), value: JsonValue::Bool(true) },
            JsonMember { key: "stored".to_string(), value: JsonValue::Bool(true) },
        ]),
    }]);
    assert_eq!(document, expected);
    assert_eq!(SearchFieldConfig::Ctid.to_document(), JsonValue::String("Ctid".to_string()));
}

#[test]
fn a_serde_value_is_copied_variant_by_variant() {
    let value = json(r#"{"a": [1, -2, 2.5, "x", null, true], "b": {"c": false}}"#);
    let expected = JsonValue::Object(vec![
        JsonMember {
            key: "a".to_string(),
            value: JsonValue::Array(vec![
                JsonValue::Number("1".to_string()),
                JsonValue::Number("-2".to_string()),
                JsonValue::Number("2.5".to_string()),
                JsonValue::String("x".to_string()),
                JsonValue::Null,
                JsonValue::Bool(true),
            ]),
        },
        JsonMember {
            key: "b".to_string(),
            value: JsonValue::Object(vec![JsonMember {
                key: "c".to_string(),
                value: JsonValue::Bool(false),
            }]),
        },
    ]);
    let document = JsonValue::from_serde(&value);
    assert_eq!(document, expected);
    assert_eq!(document.duplicate(), expected);
}

#[test]
fn a_document_is_searched_by_key() {
    let document = JsonValue::from_serde(&json(r#"{"a": true, "b": "text"}"#));
    assert_eq!(document.get("a"), Some(&JsonValue::Bool(true)));
    assert_eq!(document.get("a").unwrap().as_bool(), Some(true));
    assert_eq!(document.get("b").unwrap().as_str(), Some("text"));
    assert_eq!(document.get("b").unwrap().as_bool(), None);
    assert_eq!(document.get("c"), None);
    assert!(document.is_object());
    assert_eq!(JsonValue::Null.get("a"), None);
    assert!(!JsonValue::Null.is_object());
    assert_eq!(JsonValue::String("raw".to_string()).as_selection(), Some("raw"));
    assert_eq!(JsonValue::from_serde(&json(r#"{"raw": null}"#)).as_selection(), Some("raw"));
    assert_eq!(document.as_selection(), None);
}

#[test]
fn tokenizers_and_normalizers_have_the_names_of_the_engine() {
    assert_eq!(SearchTokenizer::Default.name(), "default");
    assert_eq!(SearchTokenizer::Raw.name(), "raw");
    assert_eq!(SearchTokenizer::EnStem.name(), "en_stem");
    assert_eq!(SearchTokenizer::WhiteSpace.name(), "whitespace");
    assert_eq!(SearchNormalizer::Raw.name(), "raw");
    assert_eq!(SearchNormalizer::Lowercase.name(), "lowercase");
    for tokenizer in [
        SearchTokenizer::Default,
        SearchTokenizer::Raw,
        SearchTokenizer::EnStem,
        SearchTokenizer::WhiteSpace,
    ] {
        assert_eq!(SearchTokenizer::from_json_value(&tokenizer.to_json_value()), Some(tokenizer));
    }
    for normalizer in [SearchNormalizer::Raw, SearchNormalizer::Lowercase] {
        assert_eq!(SearchNormalizer::from_json_value(&normalizer.to_json_value()), Some(normalizer));
    }
}

#[test]
fn record_options_have_short_names() {
    assert_eq!(IndexRecordOptionSchema::Basic.to_string(), "basic");
    assert_eq!(IndexRecordOptionSchema::WithFreqs.to_string(), "freq");
    assert_eq!(IndexRecordOptionSchema::WithFreqsAndPositions.to_string(), "position");
    for record in [
        IndexRecordOptionSchema::Basic,
        IndexRecordOptionSchema::WithFreqs,
        IndexRecordOptionSchema::WithFreqsAndPositions,
    ] {
        assert_eq!(IndexRecordOptionSchema::from_json_value(&record.to_json_value()), Some(record));
    }
}
