//! Field configurations, and the documents that they are read from and
//! written to.
//!
//! A configuration of a family is an object of the keys of that family. A
//! missing key takes its default; a key that the family does not know, and
//! a value of the wrong kind, is an error.
//!
//! | Family  | Keys and defaults |
//! |---------|-------------------|
//! | Text    | `indexed` (true), `fast` (false), `stored` (true), `fieldnorms` (true), `tokenizer` (default), `record` (position), `normalizer` (raw) |
//! | Json    | `indexed` (true), `fast` (false), `stored` (true), `expand_dots` (true), `tokenizer` (default), `record` (position), `normalizer` (raw) |
//! | Numeric | `indexed` (true), `fast` (true), `stored` (true) |
//! | Boolean | `indexed` (true), `fast` (true), `stored` (true) |
//! | Date    | `indexed` (true), `fast` (true), `stored` (true) |

use crate::json::{
    json_content, lemma_member_at, read_json, same_text, JsonMember,
    JsonMemberModel, JsonModel, JsonValue,
};
use crate::schema::IndexRecordOptionSchema;
use crate::tokenizers::{SearchNormalizer, SearchTokenizer};
use vstd::prelude::*;

verus! {

/// The families of field configuration that a caller can write down.
#[derive(Debug, Clone, Copy, PartialEq, Eq, Structural)]
pub enum ConfigFamily {
    Text,
    Json,
    Numeric,
    Boolean,
    Date,
}

/// The keys of a field configuration.
#[derive(Debug, Clone, Copy, PartialEq, Eq, Structural)]
pub enum ConfigKey {
    Indexed,
    Fast,
    Stored,
    Fieldnorms,
    ExpandDots,
    Tokenizer,
    Record,
    Normalizer,
}

/// Why a document is no field configuration.
#[derive(Debug, Clone, Copy, PartialEq, Eq, Structural)]
pub enum SearchFieldConfigError {
    /// The configuration of the family is not a JSON object.
    NotAnObject(ConfigFamily),
    /// The object holds a key that the family does not know.
    UnknownKey(ConfigFamily),
    /// The value under the key is not a boolean.
    NotABoolean(ConfigKey),
    /// The value under `tokenizer` selects no tokenizer.
    InvalidTokenizer,
    /// The value under `record` selects no level of detail.
    InvalidRecord,
    /// The value under `normalizer` selects no normalizer.
    InvalidNormalizer,
    /// The document names no family, or does not hold exactly one.
    UnknownFamily,
}

/// How a field is indexed, stored and read back, by family.
#[derive(Debug, Clone, Copy, PartialEq, Eq, Structural)]
pub enum SearchFieldConfig {
    Text {
        indexed: bool,
        fast: bool,
        stored: bool,
        fieldnorms: bool,
        tokenizer: SearchTokenizer,
        record: IndexRecordOptionSchema,
        normalizer: SearchNormalizer,
    },
    Json {
        indexed: bool,
        fast: bool,
        stored: bool,
        expand_dots: bool,
        tokenizer: SearchTokenizer,
        record: IndexRecordOptionSchema,
        normalizer: SearchNormalizer,
    },
    Numeric { indexed: bool, fast: bool, stored: bool },
    Boolean { indexed: bool, fast: bool, stored: bool },
    Date { indexed: bool, fast: bool, stored: bool },
    Ctid,
}

impl ConfigKey {
    /// The key as it is written in a document.
    pub open spec fn name_text(self) -> Seq<char> {
        match self {
            ConfigKey::Indexed => "indexed"@,
            ConfigKey::Fast => "fast"@,
            ConfigKey::Stored => "stored"@,
            ConfigKey::Fieldnorms => "fieldnorms"@,
            ConfigKey::ExpandDots => "expand_dots"@,
            ConfigKey::Tokenizer => "tokenizer"@,
            ConfigKey::Record => "record"@,
            ConfigKey::Normalizer => "normalizer"@,
        }
    }

    /// The key as it is written in a document.
    pub fn name(&self) -> (name: &'static str)
        ensures
            name@ == self.name_text(),
    {
        match self {
            ConfigKey::Indexed => "indexed",
            ConfigKey::Fast => "fast",
            ConfigKey::Stored => "stored",
            ConfigKey::Fieldnorms => "fieldnorms",
            ConfigKey::ExpandDots => "expand_dots",
            ConfigKey::Tokenizer => "tokenizer",
            ConfigKey::Record => "record",
            ConfigKey::Normalizer => "normalizer",
        }
    }
}

impl ConfigFamily {
    /// The tag under which a configuration of the family is filed.
    pub open spec fn tag_text(self) -> Seq<char> {
        match self {
            ConfigFamily::Text => "Text"@,
            ConfigFamily::Json => "Json"@,
            ConfigFamily::Numeric => "Numeric"@,
            ConfigFamily::Boolean => "Boolean"@,
            ConfigFamily::Date => "Date"@,
        }
    }

    /// The family filed under a tag, if there is one.
    pub open spec fn of_tag(tag: Seq<char>) -> Option<ConfigFamily> {
        if tag == "Text"@ {
            Some(ConfigFamily::Text)
        } else if tag == "Json"@ {
            Some(ConfigFamily::Json)
        } else if tag == "Numeric"@ {
            Some(ConfigFamily::Numeric)
        } else if tag == "Boolean"@ {
            Some(ConfigFamily::Boolean)
        } else if tag == "Date"@ {
            Some(ConfigFamily::Date)
        } else {
            None
        }
    }

    /// Whether a configuration of the family may hold the key.
    pub open spec fn knows(self, key: Seq<char>) -> bool {
        ||| key == "indexed"@
        ||| key == "fast"@
        ||| key == "stored"@
        ||| (self == ConfigFamily::Text && key == "fieldnorms"@)
        ||| (self == ConfigFamily::Json && key == "expand_dots"@)
        ||| ((self == ConfigFamily::Text || self == ConfigFamily::Json) && (key == "tokenizer"@
            || key == "record"@ || key == "normalizer"@))
    }

    /// Whether a configuration of the family may hold every key of `members`.
    pub open spec fn knows_all(self, members: Seq<JsonMemberModel>) -> bool {
        forall|i: int| 0 <= i < members.len() ==> self.knows(#[trigger] members[i].key)
    }

    /// The tag under which a configuration of the family is filed.
    pub fn tag(&self) -> (tag: &'static str)
        ensures
            tag@ == self.tag_text(),
    {
        match self {
            ConfigFamily::Text => "Text",
            ConfigFamily::Json => "Json",
            ConfigFamily::Numeric => "Numeric",
            ConfigFamily::Boolean => "Boolean",
            ConfigFamily::Date => "Date",
        }
    }

    /// Whether a configuration of the family may hold the key.
    pub fn recognizes(&self, key: &str) -> (known: bool)
        ensures
            known == self.knows(key@),
    {
        let textual = match self {
            ConfigFamily::Text | ConfigFamily::Json => true,
            _ => false,
        };
        same_text(key, "indexed") || same_text(key, "fast") || same_text(key, "stored") || (
        matches!(self, ConfigFamily::Text) && same_text(key, "fieldnorms")) || (matches!(
            self,
            ConfigFamily::Json
        ) && same_text(key, "expand_dots")) || (textual && (same_text(key, "tokenizer")
            || same_text(key, "record") || same_text(key, "normalizer")))
    }

    /// Whether a configuration of the family may hold every key of the
    /// document, which holds none unless it is an object.
    pub fn recognizes_all(&self, document: &JsonValue) -> (known: bool)
        ensures
            known == self.knows_all(document@.members()),
    {
        match document {
            JsonValue::Object(members) => {
                let ghost all = document@.members();
                let mut i: usize = 0;
                while i < members.len()
                    invariant
                        i <= members.len(),
                        all == document@.members(),
                        all.len() == members.len(),
                        forall|j: int| 0 <= j < members.len() ==> all[j].key == (#[trigger] members[j]).key@,
                        forall|j: int| 0 <= j < i ==> self.knows(#[trigger] all[j].key),
                    decreases members.len() - i,
                {
                    if !self.recognizes(members[i].key.as_str()) {
                        assert(!self.knows(all[i as int].key));
                        return false;
                    }
                    i += 1;
                }
                true
            },
            _ => true,
        }
    }
}

/// The flag that a document holds under `key`: `default` where the key is
/// missing, and an error where its value is no boolean.
pub open spec fn flag_of(document: JsonModel, key: ConfigKey, default: bool) -> Result<
    bool,
    SearchFieldConfigError,
> {
    match document.member(key.name_text()) {
        None => Ok(default),
        Some(JsonModel::Bool(flag)) => Ok(flag),
        Some(_) => Err(SearchFieldConfigError::NotABoolean(key)),
    }
}

/// The tokenizer that a document selects under `tokenizer`, the default one
/// where the key is missing.
pub open spec fn tokenizer_of(document: JsonModel) -> Result<SearchTokenizer, SearchFieldConfigError> {
    match document.member("tokenizer"@) {
        None => Ok(SearchTokenizer::Default),
        Some(chosen) => match SearchTokenizer::of_json(chosen) {
            Some(tokenizer) => Ok(tokenizer),
            None => Err(SearchFieldConfigError::InvalidTokenizer),
        },
    }
}

/// The level of detail that a document selects under `record`: frequencies
/// and positions where the key is missing.
pub open spec fn record_of(document: JsonModel) -> Result<
    IndexRecordOptionSchema,
    SearchFieldConfigError,
> {
    match document.member("record"@) {
        None => Ok(IndexRecordOptionSchema::WithFreqsAndPositions),
        Some(chosen) => match IndexRecordOptionSchema::of_json(chosen) {
            Some(record) => Ok(record),
            None => Err(SearchFieldConfigError::InvalidRecord),
        },
    }
}

/// The normalizer that a document selects under `normalizer`, the raw one
/// where the key is missing.
pub open spec fn normalizer_of(document: JsonModel) -> Result<
    SearchNormalizer,
    SearchFieldConfigError,
> {
    match document.member("normalizer"@) {
        None => Ok(SearchNormalizer::Raw),
        Some(chosen) => match SearchNormalizer::of_json(chosen) {
            Some(normalizer) => Ok(normalizer),
            None => Err(SearchFieldConfigError::InvalidNormalizer),
        },
    }
}

/// What stands in the way of reading a configuration of `family` at all:
/// a document that is no object, or a key that the family does not know.
pub open spec fn shape_error(document: JsonModel, family: ConfigFamily) -> Option<
    SearchFieldConfigError,
> {
    if !(document is Object) {
        Some(SearchFieldConfigError::NotAnObject(family))
    } else if !family.knows_all(document.members()) {
        Some(SearchFieldConfigError::UnknownKey(family))
    } else {
        None
    }
}

/// The text configuration that a document holds.
pub open spec fn text_of(document: JsonModel) -> Result<SearchFieldConfig, SearchFieldConfigError> {
    let shape = shape_error(document, ConfigFamily::Text);
    let indexed = flag_of(document, ConfigKey::Indexed, true);
    let fast = flag_of(document, ConfigKey::Fast, false);
    let stored = flag_of(document, ConfigKey::Stored, true);
    let fieldnorms = flag_of(document, ConfigKey::Fieldnorms, true);
    let tokenizer = tokenizer_of(document);
    let record = record_of(document);
    let normalizer = normalizer_of(document);
    if shape is Some {
        Err(shape->Some_0)
    } else if indexed is Err {
        Err(indexed->Err_0)
    } else if fast is Err {
        Err(fast->Err_0)
    } else if stored is Err {
        Err(stored->Err_0)
    } else if fieldnorms is Err {
        Err(fieldnorms->Err_0)
    } else if tokenizer is Err {
        Err(tokenizer->Err_0)
    } else if record is Err {
        Err(record->Err_0)
    } else if normalizer is Err {
        Err(normalizer->Err_0)
    } else {
        Ok(
            SearchFieldConfig::Text {
                indexed: indexed->Ok_0,
                fast: fast->Ok_0,
                stored: stored->Ok_0,
                fieldnorms: fieldnorms->Ok_0,
                tokenizer: tokenizer->Ok_0,
                record: record->Ok_0,
                normalizer: normalizer->Ok_0,
            },
        )
    }
}

/// The JSON configuration that a document holds.
pub open spec fn json_of(document: JsonModel) -> Result<SearchFieldConfig, SearchFieldConfigError> {
    let shape = shape_error(document, ConfigFamily::Json);
    let indexed = flag_of(document, ConfigKey::Indexed, true);
    let fast = flag_of(document, ConfigKey::Fast, false);
    let stored = flag_of(document, ConfigKey::Stored, true);
    let expand_dots = flag_of(document, ConfigKey::ExpandDots, true);
    let tokenizer = tokenizer_of(document);
    let record = record_of(document);
    let normalizer = normalizer_of(document);
    if shape is Some {
        Err(shape->Some_0)
    } else if indexed is Err {
        Err(indexed->Err_0)
    } else if fast is Err {
        Err(fast->Err_0)
    } else if stored is Err {
        Err(stored->Err_0)
    } else if expand_dots is Err {
        Err(expand_dots->Err_0)
    } else if tokenizer is Err {
        Err(tokenizer->Err_0)
    } else if record is Err {
        Err(record->Err_0)
    } else if normalizer is Err {
        Err(normalizer->Err_0)
    } else {
        Ok(
            SearchFieldConfig::Json {
                indexed: indexed->Ok_0,
                fast: fast->Ok_0,
                stored: stored->Ok_0,
                expand_dots: expand_dots->Ok_0,
                tokenizer: tokenizer->Ok_0,
                record: record->Ok_0,
                normalizer: normalizer->Ok_0,
            },
        )
    }
}

/// The three flags that a numeric, boolean or date configuration holds, each
/// on unless the document switches it off.
pub open spec fn flags_of(document: JsonModel, family: ConfigFamily) -> Result<
    (bool, bool, bool),
    SearchFieldConfigError,
> {
    let shape = shape_error(document, family);
    let indexed = flag_of(document, ConfigKey::Indexed, true);
    let fast = flag_of(document, ConfigKey::Fast, true);
    let stored = flag_of(document, ConfigKey::Stored, true);
    if shape is Some {
        Err(shape->Some_0)
    } else if indexed is Err {
        Err(indexed->Err_0)
    } else if fast is Err {
        Err(fast->Err_0)
    } else if stored is Err {
        Err(stored->Err_0)
    } else {
        Ok((indexed->Ok_0, fast->Ok_0, stored->Ok_0))
    }
}

/// The numeric configuration that a document holds.
pub open spec fn numeric_of(document: JsonModel) -> Result<SearchFieldConfig, SearchFieldConfigError> {
    match flags_of(document, ConfigFamily::Numeric) {
        Ok(flags) => Ok(SearchFieldConfig::Numeric { indexed: flags.0, fast: flags.1, stored: flags.2 }),
        Err(error) => Err(error),
    }
}

/// The boolean configuration that a document holds.
pub open spec fn boolean_of(document: JsonModel) -> Result<SearchFieldConfig, SearchFieldConfigError> {
    match flags_of(document, ConfigFamily::Boolean) {
        Ok(flags) => Ok(SearchFieldConfig::Boolean { indexed: flags.0, fast: flags.1, stored: flags.2 }),
        Err(error) => Err(error),
    }
}

/// The date configuration that a document holds.
pub open spec fn date_of(document: JsonModel) -> Result<SearchFieldConfig, SearchFieldConfigError> {
    match flags_of(document, ConfigFamily::Date) {
        Ok(flags) => Ok(SearchFieldConfig::Date { indexed: flags.0, fast: flags.1, stored: flags.2 }),
        Err(error) => Err(error),
    }
}

/// The configuration of `family` that a document holds.
pub open spec fn family_config_of(document: JsonModel, family: ConfigFamily) -> Result<
    SearchFieldConfig,
    SearchFieldConfigError,
> {
    match family {
        ConfigFamily::Text => text_of(document),
        ConfigFamily::Json => json_of(document),
        ConfigFamily::Numeric => numeric_of(document),
        ConfigFamily::Boolean => boolean_of(document),
        ConfigFamily::Date => date_of(document),
    }
}

/// The configuration that a tagged document holds: the name `Ctid` alone, or
/// an object with one member, whose key is the tag of a family and whose
/// value is a configuration of that family.
pub open spec fn config_of(document: JsonModel) -> Result<SearchFieldConfig, SearchFieldConfigError> {
    if document.selection() == Some("Ctid"@) {
        Ok(SearchFieldConfig::Ctid)
    } else if document is Object && document.members().len() == 1 {
        match ConfigFamily::of_tag(document.members()[0].key) {
            Some(family) => family_config_of(document.members()[0].value, family),
            None => Err(SearchFieldConfigError::UnknownFamily),
        }
    } else {
        Err(SearchFieldConfigError::UnknownFamily)
    }
}

/// Reads the flag under a key, or takes its default.
fn read_flag(document: &JsonValue, key: ConfigKey, default: bool) -> (flag: Result<
    bool,
    SearchFieldConfigError,
>)
    ensures
        flag == flag_of(document@, key, default),
{
    match document.get(key.name()) {
        None => Ok(default),
        Some(member) => match member.as_bool() {
            Some(held) => Ok(held),
            None => Err(SearchFieldConfigError::NotABoolean(key)),
        },
    }
}

/// Reads the tokenizer that a document selects, or takes the default one.
fn read_tokenizer(document: &JsonValue) -> (tokenizer: Result<SearchTokenizer, SearchFieldConfigError>)
    ensures
        tokenizer == tokenizer_of(document@),
{
    match document.get("tokenizer") {
        None => Ok(SearchTokenizer::Default),
        Some(chosen) => match SearchTokenizer::from_json_value(chosen) {
            Some(tokenizer) => Ok(tokenizer),
            None => Err(SearchFieldConfigError::InvalidTokenizer),
        },
    }
}

/// Reads the level of detail that a document selects, or takes the default.
fn read_record(document: &JsonValue) -> (record: Result<IndexRecordOptionSchema, SearchFieldConfigError>)
    ensures
        record == record_of(document@),
{
    match document.get("record") {
        None => Ok(default_as_freqs_and_positions()),
        Some(chosen) => match IndexRecordOptionSchema::from_json_value(chosen) {
            Some(record) => Ok(record),
            None => Err(SearchFieldConfigError::InvalidRecord),
        },
    }
}

/// Reads the normalizer that a document selects, or takes the raw one.
fn read_normalizer(document: &JsonValue) -> (normalizer: Result<
    SearchNormalizer,
    SearchFieldConfigError,
>)
    ensures
        normalizer == normalizer_of(document@),
{
    match document.get("normalizer") {
        None => Ok(SearchNormalizer::Raw),
        Some(chosen) => match SearchNormalizer::from_json_value(chosen) {
            Some(normalizer) => Ok(normalizer),
            None => Err(SearchFieldConfigError::InvalidNormalizer),
        },
    }
}

/// Holds a document to the shape of a configuration of the family.
fn check_shape(document: &JsonValue, family: ConfigFamily) -> (shape: Result<
    (),
    SearchFieldConfigError,
>)
    ensures
        match shape {
            Ok(_) => shape_error(document@, family) is None,
            Err(error) => shape_error(document@, family) == Some(error),
        },
{
    if !document.is_object() {
        Err(SearchFieldConfigError::NotAnObject(family))
    } else if !family.recognizes_all(document) {
        Err(SearchFieldConfigError::UnknownKey(family))
    } else {
        Ok(())
    }
}

/// Reads the three flags of a configuration of numbers, booleans or dates.
fn read_flags(document: &JsonValue, family: ConfigFamily) -> (flags: Result<
    (bool, bool, bool),
    SearchFieldConfigError,
>)
    ensures
        flags == flags_of(document@, family),
{
    check_shape(document, family)?;
    let indexed = read_flag(document, ConfigKey::Indexed, default_as_true())?;
    let fast = read_flag(document, ConfigKey::Fast, default_as_true())?;
    let stored = read_flag(document, ConfigKey::Stored, default_as_true())?;
    Ok((indexed, fast, stored))
}

/// The default of every flag that is on unless a configuration switches it
/// off.
pub fn default_as_true() -> (flag: bool)
    ensures
        flag,
{
    true
}

/// The level of detail that is recorded unless a configuration says otherwise.
pub fn default_as_freqs_and_positions() -> (record: IndexRecordOptionSchema)
    ensures
        record == IndexRecordOptionSchema::WithFreqsAndPositions,
{
    IndexRecordOptionSchema::WithFreqsAndPositions
}

impl SearchFieldConfig {
    /// Reads a text configuration from a document; a missing key takes its
    /// default.
    pub fn text_from_document(document: &JsonValue) -> (config: Result<Self, SearchFieldConfigError>)
        ensures
            config == text_of(document@),
    {
        check_shape(document, ConfigFamily::Text)?;
        let indexed = read_flag(document, ConfigKey::Indexed, default_as_true())?;
        let fast = read_flag(document, ConfigKey::Fast, false)?;
        let stored = read_flag(document, ConfigKey::Stored, default_as_true())?;
        let fieldnorms = read_flag(document, ConfigKey::Fieldnorms, default_as_true())?;
        let tokenizer = read_tokenizer(document)?;
        let record = read_record(document)?;
        let normalizer = read_normalizer(document)?;
        Ok(SearchFieldConfig::Text { indexed, fast, stored, fieldnorms, tokenizer, record, normalizer })
    }

    /// Reads a JSON configuration from a document; a missing key takes its
    /// default.
    pub fn json_from_document(document: &JsonValue) -> (config: Result<Self, SearchFieldConfigError>)
        ensures
            config == json_of(document@),
    {
        check_shape(document, ConfigFamily::Json)?;
        let indexed = read_flag(document, ConfigKey::Indexed, default_as_true())?;
        let fast = read_flag(document, ConfigKey::Fast, false)?;
        let stored = read_flag(document, ConfigKey::Stored, default_as_true())?;
        let expand_dots = read_flag(document, ConfigKey::ExpandDots, default_as_true())?;
        let tokenizer = read_tokenizer(document)?;
        let record = read_record(document)?;
        let normalizer = read_normalizer(document)?;
        Ok(SearchFieldConfig::Json { indexed, fast, stored, expand_dots, tokenizer, record, normalizer })
    }

    /// Reads a numeric configuration from a document; a missing key takes
    /// its default.
    pub fn numeric_from_document(document: &JsonValue) -> (config: Result<
        Self,
        SearchFieldConfigError,
    >)
        ensures
            config == numeric_of(document@),
    {
        let flags = read_flags(document, ConfigFamily::Numeric)?;
        Ok(SearchFieldConfig::Numeric { indexed: flags.0, fast: flags.1, stored: flags.2 })
    }

    /// Reads a boolean configuration from a document; a missing key takes
    /// its default.
    pub fn boolean_from_document(document: &JsonValue) -> (config: Result<
        Self,
        SearchFieldConfigError,
    >)
        ensures
            config == boolean_of(document@),
    {
        let flags = read_flags(document, ConfigFamily::Boolean)?;
        Ok(SearchFieldConfig::Boolean { indexed: flags.0, fast: flags.1, stored: flags.2 })
    }

    /// Reads a date configuration from a document; a missing key takes its
    /// default.
    pub fn date_from_document(document: &JsonValue) -> (config: Result<Self, SearchFieldConfigError>)
        ensures
            config == date_of(document@),
    {
        let flags = read_flags(document, ConfigFamily::Date)?;
        Ok(SearchFieldConfig::Date { indexed: flags.0, fast: flags.1, stored: flags.2 })
    }

    /// Reads a text configuration from a `serde_json` value.
    pub fn text_from_json(value: serde_json::Value) -> (config: Result<Self, SearchFieldConfigError>)
        ensures
            config == text_of(json_content(value)),
    {
        Self::text_from_document(&read_json(&value))
    }

    /// Reads a JSON configuration from a `serde_json` value.
    pub fn json_from_json(value: serde_json::Value) -> (config: Result<Self, SearchFieldConfigError>)
        ensures
            config == json_of(json_content(value)),
    {
        Self::json_from_document(&read_json(&value))
    }

    /// Reads a numeric configuration from a `serde_json` value.
    pub fn numeric_from_json(value: serde_json::Value) -> (config: Result<Self, SearchFieldConfigError>)
        ensures
            config == numeric_of(json_content(value)),
    {
        Self::numeric_from_document(&read_json(&value))
    }

    /// Reads a boolean configuration from a `serde_json` value.
    pub fn boolean_from_json(value: serde_json::Value) -> (config: Result<Self, SearchFieldConfigError>)
        ensures
            config == boolean_of(json_content(value)),
    {
        Self::boolean_from_document(&read_json(&value))
    }

    /// Reads a date configuration from a `serde_json` value.
    pub fn date_from_json(value: serde_json::Value) -> (config: Result<Self, SearchFieldConfigError>)
        ensures
            config == date_of(json_content(value)),
    {
        Self::date_from_document(&read_json(&value))
    }
}

/// The member that holds a flag under its key.
pub open spec fn flag_member(key: ConfigKey, flag: bool) -> JsonMemberModel {
    JsonMemberModel { key: key.name_text(), value: JsonModel::Bool(flag) }
}

/// Writes a flag under its key.
fn write_flag(key: ConfigKey, flag: bool) -> (member: JsonMember)
    ensures
        member@ == flag_member(key, flag),
{
    JsonMember { key: key.name().to_owned(), value: JsonValue::Bool(flag) }
}

impl SearchFieldConfig {
    /// The family that the configuration belongs to; the row locator belongs
    /// to none.
    pub open spec fn family_of(self) -> Option<ConfigFamily> {
        match self {
            SearchFieldConfig::Text { .. } => Some(ConfigFamily::Text),
            SearchFieldConfig::Json { .. } => Some(ConfigFamily::Json),
            SearchFieldConfig::Numeric { .. } => Some(ConfigFamily::Numeric),
            SearchFieldConfig::Boolean { .. } => Some(ConfigFamily::Boolean),
            SearchFieldConfig::Date { .. } => Some(ConfigFamily::Date),
            SearchFieldConfig::Ctid => None,
        }
    }

    /// The members that spell the configuration out, every key written down.
    pub open spec fn members_of(self) -> Seq<JsonMemberModel> {
        match self {
            SearchFieldConfig::Text {
                indexed,
                fast,
                stored,
                fieldnorms,
                tokenizer,
                record,
                normalizer,
            } => seq![
                flag_member(ConfigKey::Indexed, indexed),
                flag_member(ConfigKey::Fast, fast),
                flag_member(ConfigKey::Stored, stored),
                flag_member(ConfigKey::Fieldnorms, fieldnorms),
                JsonMemberModel { key: "tokenizer"@, value: tokenizer.json_of() },
                JsonMemberModel { key: "record"@, value: record.json_of() },
                JsonMemberModel { key: "normalizer"@, value: normalizer.json_of() },
            ],
            SearchFieldConfig::Json {
                indexed,
                fast,
                stored,
                expand_dots,
                tokenizer,
                record,
                normalizer,
            } => seq![
                flag_member(ConfigKey::Indexed, indexed),
                flag_member(ConfigKey::Fast, fast),
                flag_member(ConfigKey::Stored, stored),
                flag_member(ConfigKey::ExpandDots, expand_dots),
                JsonMemberModel { key: "tokenizer"@, value: tokenizer.json_of() },
                JsonMemberModel { key: "record"@, value: record.json_of() },
                JsonMemberModel { key: "normalizer"@, value: normalizer.json_of() },
            ],
            SearchFieldConfig::Numeric { indexed, fast, stored }
            | SearchFieldConfig::Boolean { indexed, fast, stored }
            | SearchFieldConfig::Date { indexed, fast, stored } => seq![
                flag_member(ConfigKey::Indexed, indexed),
                flag_member(ConfigKey::Fast, fast),
                flag_member(ConfigKey::Stored, stored),
            ],
            SearchFieldConfig::Ctid => Seq::empty(),
        }
    }

    /// The tagged document that spells the configuration out: the name
    /// `Ctid` for the row locator, and for any other an object whose one
    /// member stands under the family's tag and holds every key.
    pub open spec fn document_of(self) -> JsonModel {
        match self.family_of() {
            Some(family) => JsonModel::Object(
                seq![
                    JsonMemberModel {
                        key: family.tag_text(),
                        value: JsonModel::Object(self.members_of()),
                    },
                ],
            ),
            None => JsonModel::String("Ctid"@),
        }
    }

/// Writes the members that spell the configuration out.
    fn write_members(&self) -> (members: Vec<JsonMember>)
        ensures
            members@.map_values(|member: JsonMember| member@) == self.members_of(),
    {
        let mut members: Vec<JsonMember> = Vec::new();
        match self {
            SearchFieldConfig::Text {
                indexed,
                fast,
                stored,
                fieldnorms,
                tokenizer,
                record,
                normalizer,
            } => {
                members.push(write_flag(ConfigKey::Indexed, *indexed));
                members.push(write_flag(ConfigKey::Fast, *fast));
                members.push(write_flag(ConfigKey::Stored, *stored));
                members.push(write_flag(ConfigKey::Fieldnorms, *fieldnorms));
                members.push(
                    JsonMember { key: "tokenizer".to_owned(), value: tokenizer.to_json_value() },
                );
                members.push(JsonMember { key: "record".to_owned(), value: record.to_json_value() });
                members.push(
                    JsonMember { key: "normalizer".to_owned(), value: normalizer.to_json_value() },
                );
            },
            SearchFieldConfig::Json {
                indexed,
                fast,
                stored,
                expand_dots,
                tokenizer,
                record,
                normalizer,
            } => {
                members.push(write_flag(ConfigKey::Indexed, *indexed));
                members.push(write_flag(ConfigKey::Fast, *fast));
                members.push(write_flag(ConfigKey::Stored, *stored));
                members.push(write_flag(ConfigKey::ExpandDots, *expand_dots));
                members.push(
                    JsonMember { key: "tokenizer".to_owned(), value: tokenizer.to_json_value() },
                );
                members.push(JsonMember { key: "record".to_owned(), value: record.to_json_value() });
                members.push(
                    JsonMember { key: "normalizer".to_owned(), value: normalizer.to_json_value() },
                );
            },
            SearchFieldConfig::Numeric { indexed, fast, stored }
            | SearchFieldConfig::Boolean { indexed, fast, stored }
            | SearchFieldConfig::Date { indexed, fast, stored } => {
                members.push(write_flag(ConfigKey::Indexed, *indexed));
                members.push(write_flag(ConfigKey::Fast, *fast));
                members.push(write_flag(ConfigKey::Stored, *stored));
            },
            SearchFieldConfig::Ctid => {},
        }
        assert(members@.map_values(|member: JsonMember| member@) =~= self.members_of());
        members
    }

    /// Writes the tagged document that spells the configuration out.
    pub fn to_document(&self) -> (document: JsonValue)
        ensures
            document@ == self.document_of(),
    {
        let tag = match self {
            SearchFieldConfig::Text { .. } => ConfigFamily::Text.tag(),
            SearchFieldConfig::Json { .. } => ConfigFamily::Json.tag(),
            SearchFieldConfig::Numeric { .. } => ConfigFamily::Numeric.tag(),
            SearchFieldConfig::Boolean { .. } => ConfigFamily::Boolean.tag(),
            SearchFieldConfig::Date { .. } => ConfigFamily::Date.tag(),
            SearchFieldConfig::Ctid => { return JsonValue::String("Ctid".to_owned()); },
        };
        let body = JsonValue::object(self.write_members());
        let mut outer: Vec<JsonMember> = Vec::new();
        outer.push(JsonMember { key: tag.to_owned(), value: body });
        let document = JsonValue::object(outer);
        assert(document@->Object_0 =~= self.document_of()->Object_0);
        document
    }

    /// Reads a configuration from a tagged document.
    pub fn from_document(document: &JsonValue) -> (config: Result<Self, SearchFieldConfigError>)
        ensures
            config == config_of(document@),
    {
        match document.as_selection() {
            Some(name) => {
                if same_text(name, "Ctid") {
                    return Ok(SearchFieldConfig::Ctid);
                }
            },
            None => {},
        }
        match document {
            JsonValue::Object(members) => {
                if members.len() != 1 {
                    return Err(SearchFieldConfigError::UnknownFamily);
                }
                let tag = members[0].key.as_str();
                let body = &members[0].value;
                assert(document@.members()[0] == members[0]@);
                if same_text(tag, "Text") {
                    Self::text_from_document(body)
                } else if same_text(tag, "Json") {
                    Self::json_from_document(body)
                } else if same_text(tag, "Numeric") {
                    Self::numeric_from_document(body)
                } else if same_text(tag, "Boolean") {
                    Self::boolean_from_document(body)
                } else if same_text(tag, "Date") {
                    Self::date_from_document(body)
                } else {
                    Err(SearchFieldConfigError::UnknownFamily)
                }
            },
            _ => Err(SearchFieldConfigError::UnknownFamily),
        }
    }

    /// Reads a configuration from a tagged `serde_json` value.
    pub fn try_from_json(value: serde_json::Value) -> (config: Result<Self, SearchFieldConfigError>)
        ensures
            config == config_of(json_content(value)),
    {
        Self::from_document(&read_json(&value))
    }

    /// Reads a configuration from a tagged `serde_json` value that holds one.
    pub fn from_json(value: serde_json::Value) -> (config: Self)
        requires
            config_of(json_content(value)) is Ok,
        ensures
            config_of(json_content(value)) == Ok::<Self, SearchFieldConfigError>(config),
    {
        match Self::try_from_json(value) {
            Ok(config) => config,
            Err(_) => unreached(),
        }
    }

    /// The text configuration in which every key has its default.
    pub fn default_text() -> (config: Self)
        ensures
            config == (SearchFieldConfig::Text {
                indexed: true,
                fast: false,
                stored: true,
                fieldnorms: true,
                tokenizer: SearchTokenizer::Default,
                record: IndexRecordOptionSchema::WithFreqsAndPositions,
                normalizer: SearchNormalizer::Raw,
            }),
    {
        SearchFieldConfig::Text {
            indexed: true,
            fast: false,
            stored: true,
            fieldnorms: true,
            tokenizer: SearchTokenizer::Default,
            record: IndexRecordOptionSchema::WithFreqsAndPositions,
            normalizer: SearchNormalizer::Raw,
        }
    }

    /// The numeric configuration in which every key has its default.
    pub fn default_numeric() -> (config: Self)
        ensures
            config == (SearchFieldConfig::Numeric { indexed: true, fast: true, stored: true }),
    {
        SearchFieldConfig::Numeric { indexed: true, fast: true, stored: true }
    }

    /// The boolean configuration in which every key has its default.
    pub fn default_boolean() -> (config: Self)
        ensures
            config == (SearchFieldConfig::Boolean { indexed: true, fast: true, stored: true }),
    {
        SearchFieldConfig::Boolean { indexed: true, fast: true, stored: true }
    }

    /// The JSON configuration in which every key has its default.
    pub fn default_json() -> (config: Self)
        ensures
            config == (SearchFieldConfig::Json {
                indexed: true,
                fast: false,
                stored: true,
                expand_dots: true,
                tokenizer: SearchTokenizer::Default,
                record: IndexRecordOptionSchema::WithFreqsAndPositions,
                normalizer: SearchNormalizer::Raw,
            }),
    {
        SearchFieldConfig::Json {
            indexed: true,
            fast: false,
            stored: true,
            expand_dots: true,
            tokenizer: SearchTokenizer::Default,
            record: IndexRecordOptionSchema::WithFreqsAndPositions,
            normalizer: SearchNormalizer::Raw,
        }
    }

    /// The date configuration in which every key has its default.
    pub fn default_date() -> (config: Self)
        ensures
            config == (SearchFieldConfig::Date { indexed: true, fast: true, stored: true }),
    {
        SearchFieldConfig::Date { indexed: true, fast: true, stored: true }
    }
}

/// No two keys of a configuration are the same text.
proof fn lemma_keys_differ()
    ensures
        "indexed"@ != "fast"@,
        "indexed"@ != "stored"@,
        "indexed"@ != "fieldnorms"@,
        "indexed"@ != "expand_dots"@,
        "indexed"@ != "tokenizer"@,
        "indexed"@ != "record"@,
        "indexed"@ != "normalizer"@,
        "fast"@ != "stored"@,
        "fast"@ != "fieldnorms"@,
        "fast"@ != "expand_dots"@,
        "fast"@ != "tokenizer"@,
        "fast"@ != "record"@,
        "fast"@ != "normalizer"@,
        "stored"@ != "fieldnorms"@,
        "stored"@ != "expand_dots"@,
        "stored"@ != "tokenizer"@,
        "stored"@ != "record"@,
        "stored"@ != "normalizer"@,
        "fieldnorms"@ != "tokenizer"@,
        "fieldnorms"@ != "record"@,
        "fieldnorms"@ != "normalizer"@,
        "expand_dots"@ != "tokenizer"@,
        "expand_dots"@ != "record"@,
        "expand_dots"@ != "normalizer"@,
        "tokenizer"@ != "record"@,
        "tokenizer"@ != "normalizer"@,
        "record"@ != "normalizer"@,
{
    reveal_strlit("indexed");
    reveal_strlit("fast");
    reveal_strlit("stored");
    reveal_strlit("fieldnorms");
    reveal_strlit("expand_dots");
    reveal_strlit("tokenizer");
    reveal_strlit("record");
    reveal_strlit("normalizer");
    assert("indexed"@.len() == 7);
    assert("fast"@.len() == 4);
    assert("stored"@.len() == 6 && "stored"@[0] == 's');
    assert("fieldnorms"@.len() == 10 && "fieldnorms"@[0] == 'f');
    assert("expand_dots"@.len() == 11);
    assert("tokenizer"@.len() == 9);
    assert("record"@.len() == 6 && "record"@[0] == 'r');
    assert("normalizer"@.len() == 10 && "normalizer"@[0] == 'n');
}

/// No two tags of a family are the same text.
proof fn lemma_tags_differ()
    ensures
        "Text"@ != "Json"@,
        "Text"@ != "Numeric"@,
        "Text"@ != "Boolean"@,
        "Text"@ != "Date"@,
        "Json"@ != "Numeric"@,
        "Json"@ != "Boolean"@,
        "Json"@ != "Date"@,
        "Numeric"@ != "Boolean"@,
        "Numeric"@ != "Date"@,
        "Boolean"@ != "Date"@,
{
    reveal_strlit("Text");
    reveal_strlit("Json");
    reveal_strlit("Numeric");
    reveal_strlit("Boolean");
    reveal_strlit("Date");
    assert("Text"@.len() == 4 && "Text"@[0] == 'T');
    assert("Json"@.len() == 4 && "Json"@[0] == 'J');
    assert("Numeric"@.len() == 7 && "Numeric"@[0] == 'N');
    assert("Boolean"@.len() == 7 && "Boolean"@[0] == 'B');
    assert("Date"@.len() == 4 && "Date"@[0] == 'D');
}

impl SearchFieldConfig {
    /// The members that spell a configuration out are read back as that
    /// configuration.
    pub proof fn lemma_members_round_trip(self)
        requires
            self.family_of() is Some,
        ensures
            family_config_of(JsonModel::Object(self.members_of()), self.family_of().unwrap()) == Ok::<
                Self,
                SearchFieldConfigError,
            >(self),
    {
        lemma_keys_differ();
        let members = self.members_of();
        let body = JsonModel::Object(members);
        let family = self.family_of().unwrap();
        assert(family.knows_all(members));
        match self {
            SearchFieldConfig::Text { tokenizer, record, normalizer, .. } => {
                lemma_member_at(members, "indexed"@, 0);
                lemma_member_at(members, "fast"@, 1);
                lemma_member_at(members, "stored"@, 2);
                lemma_member_at(members, "fieldnorms"@, 3);
                lemma_member_at(members, "tokenizer"@, 4);
                lemma_member_at(members, "record"@, 5);
                lemma_member_at(members, "normalizer"@, 6);
                tokenizer.lemma_json_round_trip();
                record.lemma_json_round_trip();
                normalizer.lemma_json_round_trip();
            },
            SearchFieldConfig::Json { tokenizer, record, normalizer, .. } => {
                lemma_member_at(members, "indexed"@, 0);
                lemma_member_at(members, "fast"@, 1);
                lemma_member_at(members, "stored"@, 2);
                lemma_member_at(members, "expand_dots"@, 3);
                lemma_member_at(members, "tokenizer"@, 4);
                lemma_member_at(members, "record"@, 5);
                lemma_member_at(members, "normalizer"@, 6);
                tokenizer.lemma_json_round_trip();
                record.lemma_json_round_trip();
                normalizer.lemma_json_round_trip();
            },
            _ => {
                lemma_member_at(members, "indexed"@, 0);
                lemma_member_at(members, "fast"@, 1);
                lemma_member_at(members, "stored"@, 2);
            },
        }
    }

    /// Reading the document that spells a configuration out gives the
    /// configuration back.
    pub proof fn lemma_document_round_trip(self)
        ensures
            config_of(self.document_of()) == Ok::<Self, SearchFieldConfigError>(self),
    {
        match self.family_of() {
            Some(family) => {
                lemma_tags_differ();
                reveal_strlit("Ctid");
                reveal_strlit("Text");
                reveal_strlit("Json");
                reveal_strlit("Numeric");
                reveal_strlit("Boolean");
                reveal_strlit("Date");
                let outer = self.document_of().members();
                assert(outer.len() == 1);
                assert(outer[0].key == family.tag_text());
                assert(ConfigFamily::of_tag(family.tag_text()) == Some(family));
                self.lemma_members_round_trip();
            },
            None => {},
        }
    }

    /// A document that leaves keys out holds the same configuration as the
    /// document that spells that configuration out with every default
    /// written down.
    pub proof fn lemma_defaults_made_explicit(document: JsonModel)
        requires
            config_of(document) is Ok,
        ensures
            config_of(config_of(document).unwrap().document_of()) == config_of(document),
    {
        config_of(document).unwrap().lemma_document_round_trip();
    }

    /// A configuration of a family that leaves keys out is the same as the
    /// one read from its members spelled out in full.
    pub proof fn lemma_family_defaults_made_explicit(document: JsonModel, family: ConfigFamily)
        requires
            family_config_of(document, family) is Ok,
        ensures
            family_config_of(
                JsonModel::Object(family_config_of(document, family).unwrap().members_of()),
                family,
            ) == family_config_of(document, family),
    {
        family_config_of(document, family).unwrap().lemma_members_round_trip();
    }

    /// The defaults are what an empty configuration of each family holds.
    pub proof fn lemma_defaults_of_empty()
        ensures
            text_of(JsonModel::Object(Seq::empty())) == Ok::<Self, SearchFieldConfigError>(
                SearchFieldConfig::Text {
                    indexed: true,
                    fast: false,
                    stored: true,
                    fieldnorms: true,
                    tokenizer: SearchTokenizer::Default,
                    record: IndexRecordOptionSchema::WithFreqsAndPositions,
                    normalizer: SearchNormalizer::Raw,
                },
            ),
            json_of(JsonModel::Object(Seq::empty())) == Ok::<Self, SearchFieldConfigError>(
                SearchFieldConfig::Json {
                    indexed: true,
                    fast: false,
                    stored: true,
                    expand_dots: true,
                    tokenizer: SearchTokenizer::Default,
                    record: IndexRecordOptionSchema::WithFreqsAndPositions,
                    normalizer: SearchNormalizer::Raw,
                },
            ),
            numeric_of(JsonModel::Object(Seq::empty())) == Ok::<Self, SearchFieldConfigError>(
                SearchFieldConfig::Numeric { indexed: true, fast: true, stored: true },
            ),
            boolean_of(JsonModel::Object(Seq::empty())) == Ok::<Self, SearchFieldConfigError>(
                SearchFieldConfig::Boolean { indexed: true, fast: true, stored: true },
            ),
            date_of(JsonModel::Object(Seq::empty())) == Ok::<Self, SearchFieldConfigError>(
                SearchFieldConfig::Date { indexed: true, fast: true, stored: true },
            ),
    {
    }
}

} // verus!
