//! The search engine's side of a schema: its option types, its schema
//! builder and its schema, each with a model of what it holds, and the calls
//! into the engine, whose contracts over those models are taken on trust.

use crate::schema::IndexRecordOptionSchema;
use vstd::prelude::*;

verus! {

/// `tantivy::schema::TextOptions`, of which nothing but its name is known
/// here; what it holds is told by `text_options_content`.
#[verifier::external_type_specification]
#[verifier::external_body]
pub struct ExTextOptions(tantivy::schema::TextOptions);

/// `tantivy::schema::TextFieldIndexing`; what it holds is told by
/// `text_indexing_content`.
#[verifier::external_type_specification]
#[verifier::external_body]
pub struct ExTextFieldIndexing(tantivy::schema::TextFieldIndexing);

/// `tantivy::schema::NumericOptions`; what it holds is told by
/// `numeric_options_content`.
#[verifier::external_type_specification]
#[verifier::external_body]
pub struct ExNumericOptions(tantivy::schema::NumericOptions);

/// `tantivy::schema::JsonObjectOptions`; what it holds is told by
/// `json_options_content`.
#[verifier::external_type_specification]
#[verifier::external_body]
pub struct ExJsonObjectOptions(tantivy::schema::JsonObjectOptions);

/// `tantivy::schema::DateOptions`; what it holds is told by
/// `date_options_content`.
#[verifier::external_type_specification]
#[verifier::external_body]
pub struct ExDateOptions(tantivy::schema::DateOptions);

/// `tantivy::schema::SchemaBuilder`; the fields added to it are told by
/// `builder_entries`.
/// `tantivy::schema::Schema`; its fields are told by `schema_entries`.
#[verifier::external_type_specification]
#[verifier::external_body]
pub struct ExSchemaBuilder(tantivy::schema::SchemaBuilder);

#[verifier::external_type_specification]
#[verifier::external_body]
pub struct ExSchema(tantivy::schema::Schema);

/// `tantivy::Document`; how many values it holds is told by `document_len`.
#[verifier::external_type_specification]
#[verifier::external_body]
pub struct ExDocument(tantivy::Document);

/// The physical type of a field, as the engine tells its fields apart.
#[derive(Debug, Copy, Clone, PartialEq, Eq, Structural)]
pub enum FieldKind {
    Str,
    U64,
    I64,
    F64,
    Bool,
    Date,
    Facet,
    Bytes,
    JsonObject,
    IpAddr,
}

/// How the terms of a text are indexed.
pub struct TextIndexingModel {
    pub record: IndexRecordOptionSchema,
    pub fieldnorms: bool,
    pub tokenizer: Seq<char>,
}

/// Whether a text is kept for fast retrieval, and under which normalizer.
pub enum FastTextModel {
    Off,
    On,
    Normalized(Seq<char>),
}

/// What the engine's options of a text field hold.
pub struct TextOptionsModel {
    pub indexing: Option<TextIndexingModel>,
    pub stored: bool,
    pub fast: FastTextModel,
}

/// What the engine's options of a number or a boolean hold.
pub struct NumericOptionsModel {
    pub indexed: bool,
    pub fieldnorms: bool,
    pub fast: bool,
    pub stored: bool,
}

/// What the engine's options of a JSON object hold.
pub struct JsonOptionsModel {
    pub stored: bool,
    pub indexing: Option<TextIndexingModel>,
    pub fast: FastTextModel,
    pub expand_dots: bool,
}

/// What the engine's options of a date hold.
pub struct DateOptionsModel {
    pub indexed: bool,
    pub fieldnorms: bool,
    pub fast: bool,
    pub stored: bool,
}

/// The physical type of a registered field together with its options.
pub enum FieldTypeModel {
    Str(TextOptionsModel),
    U64(NumericOptionsModel),
    I64(NumericOptionsModel),
    F64(NumericOptionsModel),
    Bool(NumericOptionsModel),
    Date(DateOptionsModel),
    Facet,
    Bytes,
    JsonObject(JsonOptionsModel),
    IpAddr,
}

/// One registered field: its name and its physical type.
pub struct FieldEntryModel {
    pub name: Seq<char>,
    pub field_type: FieldTypeModel,
}

impl FieldTypeModel {
    /// The physical type without its options.
    pub open spec fn kind(self) -> FieldKind {
        match self {
            FieldTypeModel::Str(_) => FieldKind::Str,
            FieldTypeModel::U64(_) => FieldKind::U64,
            FieldTypeModel::I64(_) => FieldKind::I64,
            FieldTypeModel::F64(_) => FieldKind::F64,
            FieldTypeModel::Bool(_) => FieldKind::Bool,
            FieldTypeModel::Date(_) => FieldKind::Date,
            FieldTypeModel::Facet => FieldKind::Facet,
            FieldTypeModel::Bytes => FieldKind::Bytes,
            FieldTypeModel::JsonObject(_) => FieldKind::JsonObject,
            FieldTypeModel::IpAddr => FieldKind::IpAddr,
        }
    }
}

/// Whether the engine takes a name for a field: it holds a character and
/// does not begin with a hyphen.
pub open spec fn valid_field_name(name: Seq<char>) -> bool {
    name.len() > 0 && name[0] != '-'
}

/// Whether `name` is the name of one of `entries`.
pub open spec fn names_field(entries: Seq<FieldEntryModel>, name: Seq<char>) -> bool {
    exists|i: int| 0 <= i < entries.len() && (#[trigger] entries[i]).name == name
}

/// What text options hold.
pub uninterp spec fn text_options_content(options: tantivy::schema::TextOptions) -> TextOptionsModel;

/// What the indexing options of a text hold.
pub uninterp spec fn text_indexing_content(
    indexing: tantivy::schema::TextFieldIndexing,
) -> TextIndexingModel;

/// What numeric options hold.
pub uninterp spec fn numeric_options_content(
    options: tantivy::schema::NumericOptions,
) -> NumericOptionsModel;

/// What the options of a JSON object hold.
pub uninterp spec fn json_options_content(
    options: tantivy::schema::JsonObjectOptions,
) -> JsonOptionsModel;

/// What date options hold.
pub uninterp spec fn date_options_content(options: tantivy::schema::DateOptions) -> DateOptionsModel;

/// The fields that were added to a schema under construction, in order.
pub uninterp spec fn builder_entries(builder: tantivy::schema::SchemaBuilder) -> Seq<FieldEntryModel>;

/// The fields of a schema, each at the place that its handle gives.
pub uninterp spec fn schema_entries(schema: tantivy::schema::Schema) -> Seq<FieldEntryModel>;

/// `TextOptions::default`: not indexed, not stored, not fast.
#[verifier::external_body]
pub(crate) fn text_options_default() -> (options: tantivy::schema::TextOptions)
    ensures
        text_options_content(options) == (TextOptionsModel {
            indexing: None,
            stored: false,
            fast: FastTextModel::Off,
        }),
{
    tantivy::schema::TextOptions::default()
}

/// `TextOptions::set_stored`: the same options, stored.
#[verifier::external_body]
pub(crate) fn text_options_stored(options: tantivy::schema::TextOptions) -> (stored:
    tantivy::schema::TextOptions)
    ensures
        text_options_content(stored) == (TextOptionsModel {
            stored: true,
            ..text_options_content(options)
        }),
{
    options.set_stored()
}

/// `TextOptions::set_fast` with a name: the same options, fast under the
/// normalizer of that name.
#[verifier::external_body]
pub(crate) fn text_options_fast(options: tantivy::schema::TextOptions, normalizer: &str) -> (fast:
    tantivy::schema::TextOptions)
    ensures
        text_options_content(fast) == (TextOptionsModel {
            fast: FastTextModel::Normalized(normalizer@),
            ..text_options_content(options)
        }),
{
    options.set_fast(Some(normalizer))
}

/// `TextOptions::set_indexing_options`: the same options, indexed as given.
#[verifier::external_body]
pub(crate) fn text_options_indexed(
    options: tantivy::schema::TextOptions,
    indexing: tantivy::schema::TextFieldIndexing,
) -> (indexed: tantivy::schema::TextOptions)
    ensures
        text_options_content(indexed) == (TextOptionsModel {
            indexing: Some(text_indexing_content(indexing)),
            ..text_options_content(options)
        }),
{
    options.set_indexing_options(indexing)
}

/// `TextFieldIndexing::default`: the tokenizer `default`, documents only,
/// with field norms.
#[verifier::external_body]
pub(crate) fn text_indexing_default() -> (indexing: tantivy::schema::TextFieldIndexing)
    ensures
        text_indexing_content(indexing) == (TextIndexingModel {
            record: IndexRecordOptionSchema::Basic,
            fieldnorms: true,
            tokenizer: "default"@,
        }),
{
    tantivy::schema::TextFieldIndexing::default()
}

/// `TextFieldIndexing::set_index_option`: the same indexing with the given
/// level of detail.
#[verifier::external_body]
pub(crate) fn text_indexing_record(
    indexing: tantivy::schema::TextFieldIndexing,
    record: IndexRecordOptionSchema,
) -> (changed: tantivy::schema::TextFieldIndexing)
    ensures
        text_indexing_content(changed) == (TextIndexingModel {
            record: record,
            ..text_indexing_content(indexing)
        }),
{
    indexing.set_index_option(
        match record {
            IndexRecordOptionSchema::Basic => tantivy::schema::IndexRecordOption::Basic,
            IndexRecordOptionSchema::WithFreqs => tantivy::schema::IndexRecordOption::WithFreqs,
            IndexRecordOptionSchema::WithFreqsAndPositions => {
                tantivy::schema::IndexRecordOption::WithFreqsAndPositions
            },
        },
    )
}

/// `TextFieldIndexing::set_fieldnorms`: the same indexing with field norms
/// as given.
#[verifier::external_body]
pub(crate) fn text_indexing_fieldnorms(
    indexing: tantivy::schema::TextFieldIndexing,
    fieldnorms: bool,
) -> (changed: tantivy::schema::TextFieldIndexing)
    ensures
        text_indexing_content(changed) == (TextIndexingModel {
            fieldnorms: fieldnorms,
            ..text_indexing_content(indexing)
        }),
{
    indexing.set_fieldnorms(fieldnorms)
}

/// `TextFieldIndexing::set_tokenizer`: the same indexing under the tokenizer
/// of the given name.
#[verifier::external_body]
pub(crate) fn text_indexing_tokenizer(
    indexing: tantivy::schema::TextFieldIndexing,
    tokenizer: &str,
) -> (changed: tantivy::schema::TextFieldIndexing)
    ensures
        text_indexing_content(changed) == (TextIndexingModel {
            tokenizer: tokenizer@,
            ..text_indexing_content(indexing)
        }),
{
    indexing.set_tokenizer(tokenizer)
}

/// `NumericOptions::default`: every flag off.
#[verifier::external_body]
pub(crate) fn numeric_options_default() -> (options: tantivy::schema::NumericOptions)
    ensures
        numeric_options_content(options) == (NumericOptionsModel {
            indexed: false,
            fieldnorms: false,
            fast: false,
            stored: false,
        }),
{
    tantivy::schema::NumericOptions::default()
}

/// `NumericOptions::set_stored`: the same options, stored.
#[verifier::external_body]
pub(crate) fn numeric_options_stored(options: tantivy::schema::NumericOptions) -> (stored:
    tantivy::schema::NumericOptions)
    ensures
        numeric_options_content(stored) == (NumericOptionsModel {
            stored: true,
            ..numeric_options_content(options)
        }),
{
    options.set_stored()
}

/// `NumericOptions::set_fast`: the same options, fast.
#[verifier::external_body]
pub(crate) fn numeric_options_fast(options: tantivy::schema::NumericOptions) -> (fast:
    tantivy::schema::NumericOptions)
    ensures
        numeric_options_content(fast) == (NumericOptionsModel {
            fast: true,
            ..numeric_options_content(options)
        }),
{
    options.set_fast()
}

/// `NumericOptions::set_indexed`: the same options, indexed.
#[verifier::external_body]
pub(crate) fn numeric_options_indexed(options: tantivy::schema::NumericOptions) -> (indexed:
    tantivy::schema::NumericOptions)
    ensures
        numeric_options_content(indexed) == (NumericOptionsModel {
            indexed: true,
            ..numeric_options_content(options)
        }),
{
    options.set_indexed()
}

/// `NumericOptions::set_fieldnorm`: the same options, with field norms.
#[verifier::external_body]
pub(crate) fn numeric_options_fieldnorm(options: tantivy::schema::NumericOptions) -> (normed:
    tantivy::schema::NumericOptions)
    ensures
        numeric_options_content(normed) == (NumericOptionsModel {
            fieldnorms: true,
            ..numeric_options_content(options)
        }),
{
    options.set_fieldnorm()
}

/// `JsonObjectOptions::default`: not indexed, not stored, not fast, dots
/// kept as they are.
#[verifier::external_body]
pub(crate) fn json_options_default() -> (options: tantivy::schema::JsonObjectOptions)
    ensures
        json_options_content(options) == (JsonOptionsModel {
            stored: false,
            indexing: None,
            fast: FastTextModel::Off,
            expand_dots: false,
        }),
{
    tantivy::schema::JsonObjectOptions::default()
}

/// `JsonObjectOptions::set_stored`: the same options, stored.
#[verifier::external_body]
pub(crate) fn json_options_stored(options: tantivy::schema::JsonObjectOptions) -> (stored:
    tantivy::schema::JsonObjectOptions)
    ensures
        json_options_content(stored) == (JsonOptionsModel {
            stored: true,
            ..json_options_content(options)
        }),
{
    options.set_stored()
}

/// `JsonObjectOptions::set_fast` with a name: the same options, fast under
/// the normalizer of that name.
#[verifier::external_body]
pub(crate) fn json_options_fast(options: tantivy::schema::JsonObjectOptions, normalizer: &str) -> (fast:
    tantivy::schema::JsonObjectOptions)
    ensures
        json_options_content(fast) == (JsonOptionsModel {
            fast: FastTextModel::Normalized(normalizer@),
            ..json_options_content(options)
        }),
{
    options.set_fast(Some(normalizer))
}

/// `JsonObjectOptions::set_expand_dots_enabled`: the same options, with
/// dots in keys taken as separators.
#[verifier::external_body]
pub(crate) fn json_options_expand_dots(options: tantivy::schema::JsonObjectOptions) -> (expanded:
    tantivy::schema::JsonObjectOptions)
    ensures
        json_options_content(expanded) == (JsonOptionsModel {
            expand_dots: true,
            ..json_options_content(options)
        }),
{
    options.set_expand_dots_enabled()
}

/// `JsonObjectOptions::set_indexing_options`: the same options, indexed as
/// given.
#[verifier::external_body]
pub(crate) fn json_options_indexed(
    options: tantivy::schema::JsonObjectOptions,
    indexing: tantivy::schema::TextFieldIndexing,
) -> (indexed: tantivy::schema::JsonObjectOptions)
    ensures
        json_options_content(indexed) == (JsonOptionsModel {
            indexing: Some(text_indexing_content(indexing)),
            ..json_options_content(options)
        }),
{
    options.set_indexing_options(indexing)
}

/// `DateOptions::default`: every flag off.
#[verifier::external_body]
pub(crate) fn date_options_default() -> (options: tantivy::schema::DateOptions)
    ensures
        date_options_content(options) == (DateOptionsModel {
            indexed: false,
            fieldnorms: false,
            fast: false,
            stored: false,
        }),
{
    tantivy::schema::DateOptions::default()
}

/// `DateOptions::set_stored`: the same options, stored.
#[verifier::external_body]
pub(crate) fn date_options_stored(options: tantivy::schema::DateOptions) -> (stored:
    tantivy::schema::DateOptions)
    ensures
        date_options_content(stored) == (DateOptionsModel {
            stored: true,
            ..date_options_content(options)
        }),
{
    options.set_stored()
}

/// `DateOptions::set_fast`: the same options, fast.
#[verifier::external_body]
pub(crate) fn date_options_fast(options: tantivy::schema::DateOptions) -> (fast:
    tantivy::schema::DateOptions)
    ensures
        date_options_content(fast) == (DateOptionsModel {
            fast: true,
            ..date_options_content(options)
        }),
{
    options.set_fast()
}

/// `DateOptions::set_indexed`: the same options, indexed.
#[verifier::external_body]
pub(crate) fn date_options_indexed(options: tantivy::schema::DateOptions) -> (indexed:
    tantivy::schema::DateOptions)
    ensures
        date_options_content(indexed) == (DateOptionsModel {
            indexed: true,
            ..date_options_content(options)
        }),
{
    options.set_indexed()
}

/// `Schema::builder`: a schema under construction without fields.
#[verifier::external_body]
pub(crate) fn schema_builder() -> (builder: tantivy::schema::SchemaBuilder)
    ensures
        builder_entries(builder) == Seq::<FieldEntryModel>::empty(),
{
    tantivy::schema::Schema::builder()
}

/// What a schema under construction must be given for a field to be added:
/// a name that the engine takes and that no earlier field has, and room for
/// one more handle.
pub open spec fn can_add_field(entries: Seq<FieldEntryModel>, name: Seq<char>) -> bool {
    &&& valid_field_name(name)
    &&& !names_field(entries, name)
    &&& entries.len() < u32::MAX
}

/// `SchemaBuilder::add_text_field`: the field is added last and its handle
/// is its place. The engine panics on a name that it does not take or has
/// already.
#[verifier::external_body]
pub(crate) fn add_text_field(
    builder: &mut tantivy::schema::SchemaBuilder,
    name: &str,
    options: tantivy::schema::TextOptions,
) -> (id: u32)
    requires
        can_add_field(builder_entries(*old(builder)), name@),
    ensures
        id == builder_entries(*old(builder)).len(),
        builder_entries(*final(builder)) == builder_entries(*old(builder)).push(
            FieldEntryModel {
                name: name@,
                field_type: FieldTypeModel::Str(text_options_content(options)),
            },
        ),
{
    builder.add_text_field(name, options).field_id()
}

/// `SchemaBuilder::add_i64_field`: as for a text field.
#[verifier::external_body]
pub(crate) fn add_i64_field(
    builder: &mut tantivy::schema::SchemaBuilder,
    name: &str,
    options: tantivy::schema::NumericOptions,
) -> (id: u32)
    requires
        can_add_field(builder_entries(*old(builder)), name@),
    ensures
        id == builder_entries(*old(builder)).len(),
        builder_entries(*final(builder)) == builder_entries(*old(builder)).push(
            FieldEntryModel {
                name: name@,
                field_type: FieldTypeModel::I64(numeric_options_content(options)),
            },
        ),
{
    builder.add_i64_field(name, options).field_id()
}

/// `SchemaBuilder::add_u64_field`: as for a text field.
#[verifier::external_body]
pub(crate) fn add_u64_field(
    builder: &mut tantivy::schema::SchemaBuilder,
    name: &str,
    options: tantivy::schema::NumericOptions,
) -> (id: u32)
    requires
        can_add_field(builder_entries(*old(builder)), name@),
    ensures
        id == builder_entries(*old(builder)).len(),
        builder_entries(*final(builder)) == builder_entries(*old(builder)).push(
            FieldEntryModel {
                name: name@,
                field_type: FieldTypeModel::U64(numeric_options_content(options)),
            },
        ),
{
    builder.add_u64_field(name, options).field_id()
}

/// `SchemaBuilder::add_f64_field`: as for a text field.
#[verifier::external_body]
pub(crate) fn add_f64_field(
    builder: &mut tantivy::schema::SchemaBuilder,
    name: &str,
    options: tantivy::schema::NumericOptions,
) -> (id: u32)
    requires
        can_add_field(builder_entries(*old(builder)), name@),
    ensures
        id == builder_entries(*old(builder)).len(),
        builder_entries(*final(builder)) == builder_entries(*old(builder)).push(
            FieldEntryModel {
                name: name@,
                field_type: FieldTypeModel::F64(numeric_options_content(options)),
            },
        ),
{
    builder.add_f64_field(name, options).field_id()
}

/// `SchemaBuilder::add_bool_field`: as for a text field.
#[verifier::external_body]
pub(crate) fn add_bool_field(
    builder: &mut tantivy::schema::SchemaBuilder,
    name: &str,
    options: tantivy::schema::NumericOptions,
) -> (id: u32)
    requires
        can_add_field(builder_entries(*old(builder)), name@),
    ensures
        id == builder_entries(*old(builder)).len(),
        builder_entries(*final(builder)) == builder_entries(*old(builder)).push(
            FieldEntryModel {
                name: name@,
                field_type: FieldTypeModel::Bool(numeric_options_content(options)),
            },
        ),
{
    builder.add_bool_field(name, options).field_id()
}

/// `SchemaBuilder::add_json_field`: as for a text field.
#[verifier::external_body]
pub(crate) fn add_json_field(
    builder: &mut tantivy::schema::SchemaBuilder,
    name: &str,
    options: tantivy::schema::JsonObjectOptions,
) -> (id: u32)
    requires
        can_add_field(builder_entries(*old(builder)), name@),
    ensures
        id == builder_entries(*old(builder)).len(),
        builder_entries(*final(builder)) == builder_entries(*old(builder)).push(
            FieldEntryModel {
                name: name@,
                field_type: FieldTypeModel::JsonObject(json_options_content(options)),
            },
        ),
{
    builder.add_json_field(name, options).field_id()
}

/// `SchemaBuilder::add_date_field`: as for a text field.
#[verifier::external_body]
pub(crate) fn add_date_field(
    builder: &mut tantivy::schema::SchemaBuilder,
    name: &str,
    options: tantivy::schema::DateOptions,
) -> (id: u32)
    requires
        can_add_field(builder_entries(*old(builder)), name@),
    ensures
        id == builder_entries(*old(builder)).len(),
        builder_entries(*final(builder)) == builder_entries(*old(builder)).push(
            FieldEntryModel {
                name: name@,
                field_type: FieldTypeModel::Date(date_options_content(options)),
            },
        ),
{
    builder.add_date_field(name, options).field_id()
}

/// `SchemaBuilder::build`: the schema of the fields that were added.
#[verifier::external_body]
pub(crate) fn build_schema(builder: tantivy::schema::SchemaBuilder) -> (schema:
    tantivy::schema::Schema)
    ensures
        schema_entries(schema) == builder_entries(builder),
{
    builder.build()
}

/// `Schema::num_fields`: how many fields the schema holds.
#[verifier::external_body]
pub(crate) fn schema_len(schema: &tantivy::schema::Schema) -> (fields: usize)
    ensures
        fields == schema_entries(*schema).len(),
{
    schema.num_fields()
}

/// `Schema::get_field_entry`, then `FieldEntry::field_type` and
/// `FieldType::value_type`: the physical type of the field with the given
/// handle. The engine panics on a handle that the schema did not give.
#[verifier::external_body]
pub(crate) fn schema_field_kind(schema: &tantivy::schema::Schema, id: u32) -> (kind: FieldKind)
    requires
        id < schema_entries(*schema).len(),
    ensures
        kind == schema_entries(*schema)[id as int].field_type.kind(),
{
    let field = tantivy::schema::Field::from_field_id(id);
    match schema.get_field_entry(field).field_type().value_type() {
        tantivy::schema::Type::Str => FieldKind::Str,
        tantivy::schema::Type::U64 => FieldKind::U64,
        tantivy::schema::Type::I64 => FieldKind::I64,
        tantivy::schema::Type::F64 => FieldKind::F64,
        tantivy::schema::Type::Bool => FieldKind::Bool,
        tantivy::schema::Type::Date => FieldKind::Date,
        tantivy::schema::Type::Facet => FieldKind::Facet,
        tantivy::schema::Type::Bytes => FieldKind::Bytes,
        tantivy::schema::Type::Json => FieldKind::JsonObject,
        tantivy::schema::Type::IpAddr => FieldKind::IpAddr,
    }
}

/// How many values a document holds.
pub uninterp spec fn document_len(document: tantivy::Document) -> nat;

/// `Document::new`: a document without values.
#[verifier::external_body]
pub(crate) fn empty_document() -> (document: tantivy::Document)
    ensures
        document_len(document) == 0,
{
    tantivy::Document::new()
}

} // verus!
