//! From a field configuration to the options under which the engine
//! registers the field.

use crate::schema::config::SearchFieldConfig;
use crate::schema::engine::{
    date_options_content, date_options_default, date_options_fast, date_options_indexed,
    date_options_stored, json_options_content, json_options_default, json_options_expand_dots,
    json_options_fast, json_options_indexed, json_options_stored, numeric_options_content,
    numeric_options_default, numeric_options_fast, numeric_options_fieldnorm,
    numeric_options_indexed, numeric_options_stored, text_indexing_default, text_indexing_fieldnorms,
    text_indexing_record, text_indexing_tokenizer, text_options_content, text_options_default,
    text_options_fast, text_options_indexed, text_options_stored, DateOptionsModel,
    FastTextModel, JsonOptionsModel, NumericOptionsModel, TextIndexingModel, TextOptionsModel,
};
use vstd::prelude::*;

verus! {

/// The options of the row locator: indexed with field norms, stored and
/// fast.
pub open spec fn row_locator_options_model() -> NumericOptionsModel {
    NumericOptionsModel { indexed: true, fieldnorms: true, fast: true, stored: true }
}

/// The engine's options of the row locator.
pub fn row_locator_options() -> (options: tantivy::schema::NumericOptions)
    ensures
        numeric_options_content(options) == row_locator_options_model(),
{
    numeric_options_fast(
        numeric_options_stored(
            numeric_options_fieldnorm(numeric_options_indexed(numeric_options_default())),
        ),
    )
}

impl SearchFieldConfig {
    /// Whether the configuration is one of numbers or of booleans, which the
    /// engine gives the same options.
    pub open spec fn is_numeric(self) -> bool {
        self is Numeric || self is Boolean
    }

    /// The engine's text options of a text configuration: stored, fast and
    /// indexed each only where the configuration says so, fast under the
    /// configuration's normalizer, indexed under its tokenizer with its
    /// level of detail and its field norms.
    pub open spec fn text_options_model(self) -> TextOptionsModel
        recommends
            self is Text,
    {
        TextOptionsModel {
            indexing: if self->Text_indexed {
                Some(
                    TextIndexingModel {
                        record: self->Text_record,
                        fieldnorms: self->Text_fieldnorms,
                        tokenizer: self->Text_tokenizer.name_text(),
                    },
                )
            } else {
                None
            },
            stored: self->Text_stored,
            fast: if self->Text_fast {
                FastTextModel::Normalized(self->Text_normalizer.name_text())
            } else {
                FastTextModel::Off
            },
        }
    }

    /// The three flags of a configuration of numbers, booleans or dates.
    pub open spec fn flags(self) -> (bool, bool, bool) {
        match self {
            SearchFieldConfig::Numeric { indexed, fast, stored } => (indexed, fast, stored),
            SearchFieldConfig::Boolean { indexed, fast, stored } => (indexed, fast, stored),
            SearchFieldConfig::Date { indexed, fast, stored } => (indexed, fast, stored),
            _ => (false, false, false),
        }
    }

    /// The engine's numeric options of a configuration of numbers or of
    /// booleans: each flag as the configuration has it, without field norms.
    pub open spec fn numeric_options_model(self) -> NumericOptionsModel
        recommends
            self.is_numeric(),
    {
        NumericOptionsModel {
            indexed: self.flags().0,
            fieldnorms: false,
            fast: self.flags().1,
            stored: self.flags().2,
        }
    }

    /// The engine's options of a JSON configuration: as for a text, with the
    /// engine's own field norms, and with dots expanded where the
    /// configuration says so.
    pub open spec fn json_options_model(self) -> JsonOptionsModel
        recommends
            self is Json,
    {
        JsonOptionsModel {
            stored: self->Json_stored,
            indexing: if self->Json_indexed {
                Some(
                    TextIndexingModel {
                        record: self->Json_record,
                        fieldnorms: true,
                        tokenizer: self->Json_tokenizer.name_text(),
                    },
                )
            } else {
                None
            },
            fast: if self->Json_fast {
                FastTextModel::Normalized(self->Json_normalizer.name_text())
            } else {
                FastTextModel::Off
            },
            expand_dots: self->Json_expand_dots,
        }
    }

    /// The engine's date options of a date configuration: each flag as the
    /// configuration has it, without field norms.
    pub open spec fn date_options_model(self) -> DateOptionsModel
        recommends
            self is Date,
    {
        DateOptionsModel {
            indexed: self.flags().0,
            fieldnorms: false,
            fast: self.flags().1,
            stored: self.flags().2,
        }
    }

    /// The engine's text options of a text configuration.
    pub fn text_options(&self) -> (options: tantivy::schema::TextOptions)
        requires
            self is Text,
        ensures
            text_options_content(options) == self.text_options_model(),
    {
        let mut options = text_options_default();
        match self {
            SearchFieldConfig::Text {
                indexed,
                fast,
                stored,
                fieldnorms,
                tokenizer,
                record,
                normalizer,
            } => {
                if *stored {
                    options = text_options_stored(options);
                }
                if *fast {
                    options = text_options_fast(options, normalizer.name().as_str());
                }
                if *indexed {
                    let indexing = text_indexing_tokenizer(
                        text_indexing_fieldnorms(
                            text_indexing_record(text_indexing_default(), *record),
                            *fieldnorms,
                        ),
                        tokenizer.name().as_str(),
                    );
                    options = text_options_indexed(options, indexing);
                }
            },
            _ => {},
        }
        options
    }

    /// The engine's numeric options of a configuration of numbers or of
    /// booleans.
    pub fn numeric_options(&self) -> (options: tantivy::schema::NumericOptions)
        requires
            self.is_numeric(),
        ensures
            numeric_options_content(options) == self.numeric_options_model(),
    {
        let mut options = numeric_options_default();
        match self {
            SearchFieldConfig::Numeric { indexed, fast, stored }
            | SearchFieldConfig::Boolean { indexed, fast, stored } => {
                if *stored {
                    options = numeric_options_stored(options);
                }
                if *fast {
                    options = numeric_options_fast(options);
                }
                if *indexed {
                    options = numeric_options_indexed(options);
                }
            },
            _ => {},
        }
        options
    }

    /// The engine's options of a JSON configuration.
    pub fn json_options(&self) -> (options: tantivy::schema::JsonObjectOptions)
        requires
            self is Json,
        ensures
            json_options_content(options) == self.json_options_model(),
    {
        let mut options = json_options_default();
        match self {
            SearchFieldConfig::Json {
                indexed,
                fast,
                stored,
                expand_dots,
                tokenizer,
                record,
                normalizer,
            } => {
                if *stored {
                    options = json_options_stored(options);
                }
                if *fast {
                    options = json_options_fast(options, normalizer.name().as_str());
                }
                if *expand_dots {
                    options = json_options_expand_dots(options);
                }
                if *indexed {
                    let indexing = text_indexing_tokenizer(
                        text_indexing_record(text_indexing_default(), *record),
                        tokenizer.name().as_str(),
                    );
                    options = json_options_indexed(options, indexing);
                }
            },
            _ => {},
        }
        options
    }

    /// The engine's date options of a date configuration.
    pub fn date_options(&self) -> (options: tantivy::schema::DateOptions)
        requires
            self is Date,
        ensures
            date_options_content(options) == self.date_options_model(),
    {
        let mut options = date_options_default();
        match self {
            SearchFieldConfig::Date { indexed, fast, stored } => {
                if *stored {
                    options = date_options_stored(options);
                }
                if *fast {
                    options = date_options_fast(options);
                }
                if *indexed {
                    options = date_options_indexed(options);
                }
            },
            _ => {},
        }
        options
    }
}

} // verus!
