//! The fields of an index: their names, logical types and configurations,
//! the schema that the search engine makes of them, and the lookup of a
//! field by its name.

pub mod config;
pub mod engine;
pub mod options;

pub use crate::schema::config::{
    default_as_freqs_and_positions, default_as_true, ConfigFamily, ConfigKey, SearchFieldConfig,
    SearchFieldConfigError,
};
pub use crate::schema::engine::FieldKind;

use crate::json::{same_text, JsonModel, JsonValue};
use crate::query::AsFieldType;
use crate::schema::engine::{
    add_bool_field, add_date_field, add_f64_field, add_i64_field, add_json_field,
    add_text_field, add_u64_field, build_schema, builder_entries, document_len,
    empty_document, names_field, schema_builder, schema_entries, schema_field_kind,
    schema_len, valid_field_name, FieldEntryModel, FieldTypeModel,
};
use crate::schema::options::{row_locator_options, row_locator_options_model};
use vstd::hash_map::StringHashMap;
use vstd::prelude::*;

verus! {

/// The name of a field, as the caller knows it.
#[derive(Debug, Clone, PartialEq, Eq, Hash)]
pub struct SearchFieldName(pub String);

/// The handle that the engine gave a field when it was registered.
#[derive(Debug, Copy, Clone, PartialEq, Eq, Structural)]
pub struct SearchFieldId(pub u32);

/// The name of an index, as the caller knows it.
#[derive(Debug, Clone, PartialEq, Eq)]
pub struct SearchIndexName(pub String);

/// The logical type a field is declared as.
#[derive(Debug, Copy, Clone, PartialEq, Eq, Structural)]
pub enum SearchFieldType {
    Text,
    I64,
    F64,
    U64,
    Bool,
    Json,
    Date,
}

/// How much the index records of each term of a field.
#[derive(Debug, Copy, Clone, PartialEq, Eq, Structural)]
pub enum IndexRecordOptionSchema {
    /// The documents that hold the term.
    Basic,
    /// The documents and how often each holds the term.
    WithFreqs,
    /// The documents, the frequencies and the positions of the term.
    WithFreqsAndPositions,
}

/// A value that can be written as a short name.
pub trait ToString {
    /// Whether the type says what its names are.
    open spec fn names_known(&self) -> bool {
        false
    }

    /// The name of the value.
    open spec fn name_text(&self) -> Seq<char> {
        Seq::empty()
    }

    /// Writes the name of the value.
    fn to_string(&self) -> (name: String)
        ensures
            self.names_known() ==> name@ == self.name_text(),
    ;
}

impl ToString for IndexRecordOptionSchema {
    open spec fn names_known(&self) -> bool {
        true
    }

    open spec fn name_text(&self) -> Seq<char> {
        match self {
            IndexRecordOptionSchema::Basic => "basic"@,
            IndexRecordOptionSchema::WithFreqs => "freq"@,
            IndexRecordOptionSchema::WithFreqsAndPositions => "position"@,
        }
    }

    fn to_string(&self) -> (name: String) {
        match self {
            IndexRecordOptionSchema::Basic => "basic".to_owned(),
            IndexRecordOptionSchema::WithFreqs => "freq".to_owned(),
            IndexRecordOptionSchema::WithFreqsAndPositions => "position".to_owned(),
        }
    }
}

impl IndexRecordOptionSchema {
    /// The level of detail of a given name, if there is one.
    pub open spec fn of_name(name: Seq<char>) -> Option<IndexRecordOptionSchema> {
        if name == "basic"@ {
            Some(IndexRecordOptionSchema::Basic)
        } else if name == "freq"@ {
            Some(IndexRecordOptionSchema::WithFreqs)
        } else if name == "position"@ {
            Some(IndexRecordOptionSchema::WithFreqsAndPositions)
        } else {
            None
        }
    }

    /// The level of detail that a document selects by name.
    pub open spec fn of_json(document: JsonModel) -> Option<IndexRecordOptionSchema> {
        match document.selection() {
            Some(name) => Self::of_name(name),
            None => None,
        }
    }

    /// The document that selects the level of detail: its name as a string.
    pub open spec fn json_of(self) -> JsonModel {
        JsonModel::String(self.name_text())
    }

    /// Reads the level of detail that a document selects.
    pub fn from_json_value(value: &JsonValue) -> (record: Option<IndexRecordOptionSchema>)
        ensures
            record == Self::of_json(value@),
    {
        match value.as_selection() {
            Some(name) => {
                if same_text(name, "basic") {
                    Some(IndexRecordOptionSchema::Basic)
                } else if same_text(name, "freq") {
                    Some(IndexRecordOptionSchema::WithFreqs)
                } else if same_text(name, "position") {
                    Some(IndexRecordOptionSchema::WithFreqsAndPositions)
                } else {
                    None
                }
            },
            None => None,
        }
    }

    /// Writes the document that selects the level of detail.
    pub fn to_json_value(&self) -> (document: JsonValue)
        ensures
            document@ == self.json_of(),
    {
        JsonValue::String(self.to_string())
    }

    /// Reading what was written gives the level of detail back.
    pub proof fn lemma_json_round_trip(self)
        ensures
            Self::of_json(self.json_of()) == Some(self),
    {
        reveal_strlit("basic");
        reveal_strlit("freq");
        reveal_strlit("position");
        assert("basic"@.len() == 5);
        assert("freq"@.len() == 4);
        assert("position"@.len() == 8);
    }
}

/// The identifier of a column type in the host database.
#[derive(Debug, Copy, Clone, PartialEq, Eq, Structural)]
pub enum PgOid {
    /// No type at all.
    Invalid,
    /// A type that an extension or a user defined, by its number.
    Custom(u32),
    /// A type that the database defines by itself, by its number.
    BuiltIn(u32),
}

/// The number of the built-in column type `bool`.
pub const BOOLOID: u32 = 16;

/// The number of the built-in column type `int8`.
pub const INT8OID: u32 = 20;

/// The number of the built-in column type `int2`.
pub const INT2OID: u32 = 21;

/// The number of the built-in column type `int4`.
pub const INT4OID: u32 = 23;

/// The number of the built-in column type `text`.
pub const TEXTOID: u32 = 25;

/// The number of the built-in column type `oid`.
pub const OIDOID: u32 = 26;

/// The number of the built-in column type `xid`.
pub const XIDOID: u32 = 28;

/// The number of the built-in column type `json`.
pub const JSONOID: u32 = 114;

/// The number of the built-in column type `float4`.
pub const FLOAT4OID: u32 = 700;

/// The number of the built-in column type `float8`.
pub const FLOAT8OID: u32 = 701;

/// The number of the built-in column type `varchar`.
pub const VARCHAROID: u32 = 1043;

/// The number of the built-in column type `date`.
pub const DATEOID: u32 = 1082;

/// The number of the built-in column type `time`.
pub const TIMEOID: u32 = 1083;

/// The number of the built-in column type `timestamp`.
pub const TIMESTAMPOID: u32 = 1114;

/// The number of the built-in column type `timestamptz`.
pub const TIMESTAMPTZOID: u32 = 1184;

/// The number of the built-in column type `timetz`.
pub const TIMETZOID: u32 = 1266;

/// The number of the built-in column type `numeric`.
pub const NUMERICOID: u32 = 1700;

/// The number of the built-in column type `uuid`.
pub const UUIDOID: u32 = 2950;

/// The number of the built-in column type `jsonb`.
pub const JSONBOID: u32 = 3802;

/// Why a schema cannot be made.
#[derive(Debug, Copy, Clone, PartialEq, Eq, Structural)]
pub enum SearchIndexSchemaError {
    /// The logical type cannot hold numbers.
    InvalidNumericType(SearchFieldType),
    /// The column type has no logical type.
    InvalidPgOid(PgOid),
    /// The position of the key field is none of the fields.
    NoKeyFieldSpecified,
    /// No field is configured as the row locator.
    NoCtidFieldSpecified,
}

impl SearchFieldType {
    /// The logical type that a built-in column type is indexed as: text for
    /// texts and identifiers, integers of every width as signed integers,
    /// object and transaction numbers as unsigned integers, floats and
    /// decimals as floats, dates and times of every form as dates.
    pub open spec fn of_builtin(oid: u32) -> Option<SearchFieldType> {
        if oid == TEXTOID || oid == VARCHAROID || oid == UUIDOID {
            Some(SearchFieldType::Text)
        } else if oid == INT2OID || oid == INT4OID || oid == INT8OID {
            Some(SearchFieldType::I64)
        } else if oid == OIDOID || oid == XIDOID {
            Some(SearchFieldType::U64)
        } else if oid == FLOAT4OID || oid == FLOAT8OID || oid == NUMERICOID {
            Some(SearchFieldType::F64)
        } else if oid == BOOLOID {
            Some(SearchFieldType::Bool)
        } else if oid == JSONOID || oid == JSONBOID {
            Some(SearchFieldType::Json)
        } else if oid == DATEOID || oid == TIMESTAMPOID || oid == TIMESTAMPTZOID || oid == TIMEOID
            || oid == TIMETZOID {
            Some(SearchFieldType::Date)
        } else {
            None
        }
    }

    /// The logical type that a column type is indexed as, if it has one.
    pub open spec fn of_oid(oid: PgOid) -> Option<SearchFieldType> {
        match oid {
            PgOid::BuiltIn(number) => Self::of_builtin(number),
            _ => None,
        }
    }

    /// The logical type that a column type is indexed as; a column type
    /// without one is an error that names it.
    pub fn try_from(pg_oid: &PgOid) -> (field_type: Result<SearchFieldType, SearchIndexSchemaError>)
        ensures
            field_type == match Self::of_oid(*pg_oid) {
                Some(known) => Ok::<SearchFieldType, SearchIndexSchemaError>(known),
                None => Err(SearchIndexSchemaError::InvalidPgOid(*pg_oid)),
            },
    {
        match pg_oid {
            PgOid::BuiltIn(number) => {
                let oid = *number;
                if oid == TEXTOID || oid == VARCHAROID || oid == UUIDOID {
                    Ok(SearchFieldType::Text)
                } else if oid == INT2OID || oid == INT4OID || oid == INT8OID {
                    Ok(SearchFieldType::I64)
                } else if oid == OIDOID || oid == XIDOID {
                    Ok(SearchFieldType::U64)
                } else if oid == FLOAT4OID || oid == FLOAT8OID || oid == NUMERICOID {
                    Ok(SearchFieldType::F64)
                } else if oid == BOOLOID {
                    Ok(SearchFieldType::Bool)
                } else if oid == JSONOID || oid == JSONBOID {
                    Ok(SearchFieldType::Json)
                } else if oid == DATEOID || oid == TIMESTAMPOID || oid == TIMESTAMPTZOID || oid
                    == TIMEOID || oid == TIMETZOID {
                    Ok(SearchFieldType::Date)
                } else {
                    Err(SearchIndexSchemaError::InvalidPgOid(*pg_oid))
                }
            },
            _ => Err(SearchIndexSchemaError::InvalidPgOid(*pg_oid)),
        }
    }
}

/// One field of a schema.
#[derive(Debug)]
pub struct SearchField {
    /// The handle that the engine gave the field.
    pub id: SearchFieldId,
    /// The name of the field, as the caller knows it.
    pub name: SearchFieldName,
    /// How the field is indexed, stored and read back.
    pub config: SearchFieldConfig,
    /// The logical type of the field.
    pub type_: SearchFieldType,
}

/// Whether a configuration can be registered for a logical type: the row
/// locator for any, a text configuration for texts, one of numbers or of
/// booleans for integers, floats and booleans, and so on.
pub open spec fn reconciles(config: SearchFieldConfig, field_type: SearchFieldType) -> bool {
    match config {
        SearchFieldConfig::Ctid => true,
        _ => match field_type {
            SearchFieldType::Text => config is Text,
            SearchFieldType::I64 | SearchFieldType::U64 | SearchFieldType::F64
            | SearchFieldType::Bool => config.is_numeric(),
            SearchFieldType::Json => config is Json,
            SearchFieldType::Date => config is Date,
        },
    }
}

/// The physical type under which a field is registered with the engine:
/// the row locator as an unsigned integer that is indexed, stored and fast,
/// whatever its logical type; any other field by its logical type, with the
/// options of its configuration.
pub open spec fn physical_type(config: SearchFieldConfig, field_type: SearchFieldType) -> FieldTypeModel {
    match config {
        SearchFieldConfig::Ctid => FieldTypeModel::U64(row_locator_options_model()),
        _ => match field_type {
            SearchFieldType::Text => FieldTypeModel::Str(config.text_options_model()),
            SearchFieldType::I64 => FieldTypeModel::I64(config.numeric_options_model()),
            SearchFieldType::U64 => FieldTypeModel::U64(config.numeric_options_model()),
            SearchFieldType::F64 => FieldTypeModel::F64(config.numeric_options_model()),
            SearchFieldType::Bool => FieldTypeModel::Bool(config.numeric_options_model()),
            SearchFieldType::Json => FieldTypeModel::JsonObject(config.json_options_model()),
            SearchFieldType::Date => FieldTypeModel::Date(config.date_options_model()),
        },
    }
}

/// The place of the field of a given name, the last one if several have it.
pub open spec fn position_of(fields: Seq<SearchField>, name: Seq<char>) -> Option<int>
    decreases fields.len(),
{
    if fields.len() == 0 {
        None
    } else if fields.last().name.0@ == name {
        Some(fields.len() - 1)
    } else {
        position_of(fields.drop_last(), name)
    }
}

/// The places of the fields, by name.
pub open spec fn positions(fields: Seq<SearchField>) -> Map<Seq<char>, usize> {
    Map::new(
        |name: Seq<char>| position_of(fields, name) is Some,
        |name: Seq<char>| position_of(fields, name).unwrap() as usize,
    )
}

/// A place that `position_of` gives holds a field of that name.
pub proof fn lemma_position_of(fields: Seq<SearchField>, name: Seq<char>)
    ensures
        match position_of(fields, name) {
            Some(at) => 0 <= at < fields.len() && fields[at].name.0@ == name,
            None => forall|i: int| 0 <= i < fields.len() ==> (#[trigger] fields[i]).name.0@ != name,
        },
    decreases fields.len(),
{
    if fields.len() > 0 && fields.last().name.0@ != name {
        lemma_position_of(fields.drop_last(), name);
        assert forall|i: int| 0 <= i < fields.len() && position_of(fields, name) is None implies (
        #[trigger] fields[i]).name.0@ != name by {
            if i < fields.len() - 1 {
                assert(fields.drop_last()[i] == fields[i]);
            }
        }
    }
}

/// Where no two fields share a name, a field's name is found at its place.
pub proof fn lemma_position_of_distinct(fields: Seq<SearchField>, at: int)
    requires
        0 <= at < fields.len(),
        forall|i: int, j: int|
            0 <= i < j < fields.len() ==> (#[trigger] fields[i]).name.0@ != (#[trigger] fields[j]).name.0@,
    ensures
        position_of(fields, fields[at].name.0@) == Some(at),
    decreases fields.len(),
{
    if at < fields.len() - 1 {
        let shorter = fields.drop_last();
        assert(shorter[at] == fields[at]);
        assert forall|i: int, j: int| 0 <= i < j < shorter.len() implies (#[trigger] shorter[i]).name.0@
            != (#[trigger] shorter[j]).name.0@ by {
            assert(shorter[i] == fields[i]);
            assert(shorter[j] == fields[j]);
        }
        lemma_position_of_distinct(shorter, at);
    }
}

/// The fields of an index, the schema that the engine made of them, and the
/// places of the two fields that every index has.
pub struct SearchIndexSchema {
    /// The fields, in the order in which they were declared.
    pub fields: Vec<SearchField>,
    /// The place of the key field.
    pub key: usize,
    /// The place of the row locator.
    pub ctid: usize,
    /// The engine's schema.
    pub schema: tantivy::schema::Schema,
    /// The places of the fields by name, where they have been worked out.
    pub lookup: Option<StringHashMap<usize>>,
}

/// One declaration of a field: its name, its configuration and its logical
/// type.
pub open spec fn declared(declaration: (SearchFieldName, SearchFieldConfig, SearchFieldType), at: int) -> SearchField {
    SearchField {
        id: SearchFieldId(at as u32),
        name: declaration.0,
        config: declaration.1,
        type_: declaration.2,
    }
}

/// What the engine asks of the declarations of a schema: names that it
/// takes, no name twice, handles that fit, and for each logical type a
/// configuration that can be registered for it.
pub open spec fn registrable(
    declarations: Seq<(SearchFieldName, SearchFieldConfig, SearchFieldType)>,
) -> bool {
    &&& declarations.len() < u32::MAX
    &&& forall|i: int|
        0 <= i < declarations.len() ==> valid_field_name((#[trigger] declarations[i]).0.0@)
            && reconciles(declarations[i].1, declarations[i].2)
    &&& forall|i: int, j: int|
        0 <= i < j < declarations.len() ==> (#[trigger] declarations[i]).0.0@ != (
        #[trigger] declarations[j]).0.0@
}

impl Clone for SearchField {
    fn clone(&self) -> (copy: Self)
        ensures
            copy == *self,
    {
        self.duplicate()
    }
}

impl SearchField {
    /// The entry under which the engine registers the field.
    pub open spec fn entry(self) -> FieldEntryModel {
        FieldEntryModel { name: self.name.0@, field_type: physical_type(self.config, self.type_) }
    }

    /// A copy of the field.
    pub fn duplicate(&self) -> (copy: SearchField)
        ensures
            copy == *self,
    {
        SearchField {
            id: self.id,
            name: SearchFieldName(self.name.0.clone()),
            config: self.config,
            type_: self.type_,
        }
    }
}

impl SearchIndexSchema {
    /// Whether the places by name, where they have been worked out, are
    /// those of the fields.
    pub open spec fn lookup_agrees(&self) -> bool {
        self.lookup matches Some(lookup) ==> lookup@ == positions(self.fields@)
    }

    /// Whether every field has a handle that the engine's schema gave.
    pub open spec fn handles_fit(&self) -> bool {
        forall|i: int|
            0 <= i < self.fields.len() ==> (#[trigger] self.fields[i]).id.0 < schema_entries(
                self.schema,
            ).len()
    }

    /// What the schema must be for its fields to be asked for: every handle
    /// is one of the engine's schema, and the places by name, where they
    /// have been worked out, are those of the fields.
    pub open spec fn usable(&self) -> bool {
        self.handles_fit() && self.lookup_agrees()
    }

    /// What holds of every schema that `new` makes: the key and the row
    /// locator are fields, the row locator is the first field configured as
    /// one, the engine's schema holds the fields under their handles, which
    /// are their places, no two fields share a name, and the places by name
    /// are those of the fields.
    pub open spec fn wf(&self) -> bool {
        &&& self.key < self.fields.len()
        &&& self.ctid < self.fields.len()
        &&& self.fields[self.ctid as int].config is Ctid
        &&& forall|i: int| 0 <= i < self.ctid ==> !((#[trigger] self.fields[i]).config is Ctid)
        &&& schema_entries(self.schema).len() == self.fields.len()
        &&& self.fields.len() < u32::MAX
        &&& forall|i: int|
            0 <= i < self.fields.len() ==> (#[trigger] self.fields[i]).id.0 == i && schema_entries(
                self.schema,
            )[i] == self.fields[i].entry() && reconciles(self.fields[i].config, self.fields[i].type_)
        &&& forall|i: int, j: int|
            0 <= i < j < self.fields.len() ==> (#[trigger] self.fields[i]).name.0@ != (
            #[trigger] self.fields[j]).name.0@
        &&& self.lookup_agrees()
    }

    /// The field of a given name.
    pub open spec fn field_named(&self, name: Seq<char>) -> Option<SearchField> {
        match position_of(self.fields@, name) {
            Some(at) => Some(self.fields[at]),
            None => None,
        }
    }

    /// Works out the places of fields by name.
    pub fn build_lookup(search_fields: &Vec<SearchField>) -> (lookup: StringHashMap<usize>)
        ensures
            lookup@ == positions(search_fields@),
    {
        let mut lookup: StringHashMap<usize> = StringHashMap::new();
        let mut idx: usize = 0;
        assert(lookup@ =~= positions(search_fields@.take(0)));
        while idx < search_fields.len()
            invariant
                idx <= search_fields.len(),
                lookup@ == positions(search_fields@.take(idx as int)),
            decreases search_fields.len() - idx,
        {
            let name = search_fields[idx].name.0.clone();
            proof {
                let before = search_fields@.take(idx as int);
                let after = search_fields@.take(idx + 1);
                assert(after.drop_last() =~= before);
                assert(after.last() == search_fields@[idx as int]);
                assert(positions(after) =~= positions(before).insert(name@, idx));
            }
            lookup.insert(name, idx);
            idx += 1;
        }
        assert(search_fields@.take(search_fields.len() as int) =~= search_fields@);
        lookup
    }

    /// Registers the declared fields with the engine and makes the schema
    /// of them.
    ///
    /// Fails where `key_index` is the place of no declaration, and where no
    /// declaration is configured as the row locator.
    pub fn new(
        fields: Vec<(SearchFieldName, SearchFieldConfig, SearchFieldType)>,
        key_index: usize,
    ) -> (made: Result<Self, SearchIndexSchemaError>)
        requires
            registrable(fields@),
        ensures
            match made {
                Ok(schema) => {
                    &&& schema.wf()
                    &&& schema.key == key_index
                    &&& schema.lookup is Some
                    &&& schema.fields.len() == fields.len()
                    &&& forall|i: int|
                        0 <= i < fields.len() ==> #[trigger] schema.fields[i] == declared(fields[i], i)
                },
                Err(error) => {
                    &&& error == if key_index >= fields.len() {
                        SearchIndexSchemaError::NoKeyFieldSpecified
                    } else {
                        SearchIndexSchemaError::NoCtidFieldSpecified
                    }
                    &&& key_index < fields.len() ==> forall|i: int|
                        0 <= i < fields.len() ==> !((#[trigger] fields[i]).1 is Ctid)
                },
            },
            key_index < fields.len() && (exists|i: int|
                0 <= i < fields.len() && (#[trigger] fields[i]).1 is Ctid) ==> made is Ok,
    {
        if key_index >= fields.len() {
            return Err(SearchIndexSchemaError::NoKeyFieldSpecified);
        }
        let mut builder = schema_builder();
        let mut search_fields: Vec<SearchField> = Vec::new();
        let mut ctid_index: Option<usize> = None;
        let mut index: usize = 0;
        while index < fields.len()
            invariant
                index <= fields.len(),
                registrable(fields@),
                search_fields.len() == index,
                builder_entries(builder).len() == index,
                forall|i: int|
                    0 <= i < index ==> #[trigger] search_fields[i] == declared(fields[i], i)
                        && builder_entries(builder)[i] == search_fields[i].entry(),
                match ctid_index {
                    Some(first) => first < index && fields[first as int].1 is Ctid && forall|i: int|
                        0 <= i < first ==> !((#[trigger] fields[i]).1 is Ctid),
                    None => forall|i: int| 0 <= i < index ==> !((#[trigger] fields[i]).1 is Ctid),
                },
            decreases fields.len() - index,
        {
            let name = SearchFieldName(fields[index].0.0.clone());
            let config = fields[index].1;
            let field_type = fields[index].2;
            proof {
                let entries = builder_entries(builder);
                assert(!names_field(entries, name.0@)) by {
                    if names_field(entries, name.0@) {
                        let clash = choose|i: int|
                            0 <= i < entries.len() && (#[trigger] entries[i]).name == name.0@;
                        assert(search_fields[clash] == declared(fields[clash], clash));
                        assert(fields[clash].0.0@ != fields[index as int].0.0@);
                    }
                }
                assert(valid_field_name(fields[index as int].0.0@));
                assert(reconciles(fields[index as int].1, fields[index as int].2));
            }
            if ctid_index.is_none() && matches!(config, SearchFieldConfig::Ctid) {
                ctid_index = Some(index);
            }
            let id = match config {
                SearchFieldConfig::Ctid => add_u64_field(
                    &mut builder,
                    name.0.as_str(),
                    row_locator_options(),
                ),
                _ => match field_type {
                    SearchFieldType::Text => add_text_field(
                        &mut builder,
                        name.0.as_str(),
                        config.text_options(),
                    ),
                    SearchFieldType::I64 => add_i64_field(
                        &mut builder,
                        name.0.as_str(),
                        config.numeric_options(),
                    ),
                    SearchFieldType::U64 => add_u64_field(
                        &mut builder,
                        name.0.as_str(),
                        config.numeric_options(),
                    ),
                    SearchFieldType::F64 => add_f64_field(
                        &mut builder,
                        name.0.as_str(),
                        config.numeric_options(),
                    ),
                    SearchFieldType::Bool => add_bool_field(
                        &mut builder,
                        name.0.as_str(),
                        config.numeric_options(),
                    ),
                    SearchFieldType::Json => add_json_field(
                        &mut builder,
                        name.0.as_str(),
                        config.json_options(),
                    ),
                    SearchFieldType::Date => add_date_field(
                        &mut builder,
                        name.0.as_str(),
                        config.date_options(),
                    ),
                },
            };
            search_fields.push(SearchField { id: SearchFieldId(id), name, config, type_: field_type });
            index += 1;
        }
        let ctid = match ctid_index {
            Some(first) => first,
            None => { return Err(SearchIndexSchemaError::NoCtidFieldSpecified); },
        };
        let schema = build_schema(builder);
        let lookup = Self::build_lookup(&search_fields);
        let made = SearchIndexSchema {
            fields: search_fields,
            key: key_index,
            ctid,
            schema,
            lookup: Some(lookup),
        };
        Ok(made)
    }

    /// The row locator.
    pub fn ctid_field(&self) -> (field: SearchField)
        requires
            self.ctid < self.fields.len(),
        ensures
            field == self.fields[self.ctid as int],
    {
        self.fields[self.ctid].duplicate()
    }

    /// The key field.
    pub fn key_field(&self) -> (field: SearchField)
        requires
            self.key < self.fields.len(),
        ensures
            field == self.fields[self.key as int],
    {
        self.fields[self.key].duplicate()
    }

    /// The field of a given name, found by the places that were worked out
    /// or, where they were not, by working them out.
    pub fn get_search_field(&self, name: &SearchFieldName) -> (found: Option<&SearchField>)
        ensures
            self.lookup_agrees() ==> match found {
                Some(field) => self.field_named(name.0@) == Some(*field),
                None => self.field_named(name.0@) is None,
            },
    {
        proof {
            lemma_position_of(self.fields@, name.0@);
        }
        let at = match &self.lookup {
            Some(lookup) => match lookup.get(name.0.as_str()) {
                Some(at) => Some(*at),
                None => None,
            },
            None => {
                let lookup = Self::build_lookup(&self.fields);
                match lookup.get(name.0.as_str()) {
                    Some(at) => Some(*at),
                    None => None,
                }
            },
        };
        match at {
            Some(at) => if at < self.fields.len() {
                Some(&self.fields[at])
            } else {
                None
            },
            None => None,
        }
    }
}

impl SearchIndexSchema {
    /// The physical type and the handle of the field at a place, as the
    /// engine's schema has them.
    pub open spec fn resolved(&self, at: int) -> (FieldKind, SearchFieldId) {
        (
            schema_entries(self.schema)[self.fields[at].id.0 as int].field_type.kind(),
            self.fields[at].id,
        )
    }

    /// In a schema that `new` made, the physical type of a field is the one
    /// under which it was registered, and its handle is its place.
    pub proof fn lemma_resolved(&self, at: int)
        requires
            self.wf(),
            0 <= at < self.fields.len(),
        ensures
            self.resolved(at) == (
                physical_type(self.fields[at].config, self.fields[at].type_).kind(),
                SearchFieldId(at as u32),
            ),
    {
    }
}

impl AsFieldType<String> for SearchIndexSchema {
    open spec fn valid(&self) -> bool {
        self.usable()
    }

    open spec fn field_table(&self) -> Seq<(FieldKind, SearchFieldId)> {
        Seq::new(self.fields.len() as nat, |at: int| self.resolved(at))
    }

    open spec fn resolve(&self, from: &String) -> Option<(FieldKind, SearchFieldId)> {
        match position_of(self.fields@, from@) {
            Some(at) => Some(self.resolved(at)),
            None => None,
        }
    }

    fn fields(&self) -> (all: Vec<(FieldKind, SearchFieldId)>) {
        let mut all: Vec<(FieldKind, SearchFieldId)> = Vec::new();
        let mut at: usize = 0;
        while at < self.fields.len()
            invariant
                at <= self.fields.len(),
                self.usable(),
                all.len() == at,
                forall|i: int| 0 <= i < at ==> #[trigger] all[i] == self.resolved(i),
            decreases self.fields.len() - at,
        {
            let field = self.fields[at].id;
            let kind = schema_field_kind(&self.schema, field.0);
            all.push((kind, field));
            at += 1;
        }
        assert(all@ =~= self.field_table());
        all
    }

    fn as_field_type(&self, from: &String) -> (found: Option<(FieldKind, SearchFieldId)>) {
        proof {
            lemma_position_of(self.fields@, from@);
        }
        match self.get_search_field(&SearchFieldName(from.clone())) {
            Some(search_field) => {
                let field = search_field.id;
                let kind = schema_field_kind(&self.schema, field.0);
                Some((kind, field))
            },
            None => None,
        }
    }
}

impl SearchIndexSchema {
    /// In a schema that `new` made, the name of a field resolves to the
    /// physical type under which the field was registered and to its
    /// handle, which is its place.
    pub proof fn lemma_resolve_declared(&self, at: int)
        requires
            self.wf(),
            0 <= at < self.fields.len(),
        ensures
            self.resolve(&self.fields[at].name.0) == Some(
                (
                    physical_type(self.fields[at].config, self.fields[at].type_).kind(),
                    SearchFieldId(at as u32),
                ),
            ),
    {
        lemma_position_of_distinct(self.fields@, at);
        self.lemma_resolved(at);
    }

    /// A name resolves to a field exactly where a field has that name.
    pub proof fn lemma_resolve_unknown(&self, name: &String)
        ensures
            self.resolve(name) is None <==> forall|i: int|
                0 <= i < self.fields.len() ==> (#[trigger] self.fields[i]).name.0@ != name@,
    {
        lemma_position_of(self.fields@, name@);
    }
}

impl SearchIndexSchema {
    /// Whether every field has a handle that the engine's schema gave.
    pub fn has_fitting_handles(&self) -> (fit: bool)
        ensures
            fit == self.handles_fit(),
    {
        let known = schema_len(&self.schema);
        let mut i: usize = 0;
        while i < self.fields.len()
            invariant
                i <= self.fields.len(),
                known == schema_entries(self.schema).len(),
                forall|j: int|
                    0 <= j < i ==> (#[trigger] self.fields[j]).id.0 < schema_entries(self.schema).len(),
            decreases self.fields.len() - i,
        {
            if self.fields[i].id.0 as usize >= known {
                return false;
            }
            i += 1;
        }
        true
    }

    /// A schema that `new` made can be asked for its fields.
    pub proof fn lemma_usable(&self)
        requires
            self.wf(),
        ensures
            self.usable(),
    {
    }
}

/// Whether the engine takes a name for a field.
pub fn is_valid_field_name(name: &str) -> (valid: bool)
    ensures
        valid == valid_field_name(name@),
{
    if name.unicode_len() == 0 {
        false
    } else {
        name.get_char(0) != '-'
    }
}

/// Whether a configuration can be registered for a logical type.
pub fn can_reconcile(config: &SearchFieldConfig, field_type: SearchFieldType) -> (can: bool)
    ensures
        can == reconciles(*config, field_type),
{
    match config {
        SearchFieldConfig::Ctid => true,
        _ => match field_type {
            SearchFieldType::Text => matches!(config, SearchFieldConfig::Text { .. }),
            SearchFieldType::I64 | SearchFieldType::U64 | SearchFieldType::F64
            | SearchFieldType::Bool => matches!(
                config,
                SearchFieldConfig::Numeric { .. } | SearchFieldConfig::Boolean { .. }
            ),
            SearchFieldType::Json => matches!(config, SearchFieldConfig::Json { .. }),
            SearchFieldType::Date => matches!(config, SearchFieldConfig::Date { .. }),
        },
    }
}

impl SearchIndexSchema {
    /// Whether `new` can be asked for a schema of the declarations.
    pub fn can_register(fields: &Vec<(SearchFieldName, SearchFieldConfig, SearchFieldType)>) -> (can:
        bool)
        ensures
            can == registrable(fields@),
    {
        if fields.len() >= u32::MAX as usize {
            return false;
        }
        let mut i: usize = 0;
        while i < fields.len()
            invariant
                i <= fields.len(),
                fields.len() < u32::MAX,
                forall|j: int|
                    0 <= j < i ==> valid_field_name((#[trigger] fields[j]).0.0@) && reconciles(
                        fields[j].1,
                        fields[j].2,
                    ),
                forall|j: int, k: int|
                    0 <= j < k < i ==> (#[trigger] fields[j]).0.0@ != (#[trigger] fields[k]).0.0@,
            decreases fields.len() - i,
        {
            if !is_valid_field_name(fields[i].0.0.as_str()) || !can_reconcile(
                &fields[i].1,
                fields[i].2,
            ) {
                return false;
            }
            let mut earlier: usize = 0;
            while earlier < i
                invariant
                    earlier <= i < fields.len(),
                    forall|j: int|
                        0 <= j < earlier ==> (#[trigger] fields[j]).0.0@ != fields[i as int].0.0@,
                decreases i - earlier,
            {
                if same_text(fields[earlier].0.0.as_str(), fields[i].0.0.as_str()) {
                    return false;
                }
                earlier += 1;
            }
            i += 1;
        }
        true
    }
}

/// A document in the making, with the handles of the two fields that every
/// document fills.
pub struct SearchDocument {
    /// The engine's document.
    pub doc: tantivy::Document,
    /// The handle of the key field.
    pub key: SearchFieldId,
    /// The handle of the row locator.
    pub ctid: SearchFieldId,
}

impl SearchIndexSchema {
    /// A document without values, for the fields of this schema.
    pub fn new_document(&self) -> (document: SearchDocument)
        requires
            self.key < self.fields.len(),
            self.ctid < self.fields.len(),
        ensures
            document_len(document.doc) == 0,
            document.key == self.fields[self.key as int].id,
            document.ctid == self.fields[self.ctid as int].id,
    {
        let doc = empty_document();
        let key = self.key_field().id;
        let ctid = self.ctid_field().id;
        SearchDocument { doc, key, ctid }
    }
}

} // verus!
