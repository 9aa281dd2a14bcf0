//! The tokenizers and normalizers that a field configuration can choose.

use crate::json::{
    lemma_member_at, same_text, JsonMember, JsonMemberModel, JsonModel, JsonValue,
};
use vstd::prelude::*;

verus! {

/// The tokenizer that splits the text of a field into terms, chosen among
/// those that the engine registers by itself.
#[derive(Debug, Clone, Copy, PartialEq, Eq, Structural)]
pub enum SearchTokenizer {
    Default,
    Raw,
    EnStem,
    WhiteSpace,
}

impl SearchTokenizer {
    /// The name under which the engine knows the tokenizer.
    pub open spec fn name_text(self) -> Seq<char> {
        match self {
            SearchTokenizer::Default => "default"@,
            SearchTokenizer::Raw => "raw"@,
            SearchTokenizer::EnStem => "en_stem"@,
            SearchTokenizer::WhiteSpace => "whitespace"@,
        }
    }

    /// The tokenizer of a given name, if there is one.
    pub open spec fn of_name(name: Seq<char>) -> Option<SearchTokenizer> {
        if name == "default"@ {
            Some(SearchTokenizer::Default)
        } else if name == "raw"@ {
            Some(SearchTokenizer::Raw)
        } else if name == "en_stem"@ {
            Some(SearchTokenizer::EnStem)
        } else if name == "whitespace"@ {
            Some(SearchTokenizer::WhiteSpace)
        } else {
            None
        }
    }

    /// The tokenizer that a document selects: an object whose member `type`
    /// is a string that names a tokenizer.
    pub open spec fn of_json(document: JsonModel) -> Option<SearchTokenizer> {
        match document.member("type"@) {
            Some(JsonModel::String(name)) => Self::of_name(name),
            _ => None,
        }
    }

    /// The document that selects the tokenizer.
    pub open spec fn json_of(self) -> JsonModel {
        JsonModel::Object(
            seq![JsonMemberModel { key: "type"@, value: JsonModel::String(self.name_text()) }],
        )
    }

    /// The name under which the engine knows the tokenizer.
    pub fn name(&self) -> (name: String)
        ensures
            name@ == self.name_text(),
    {
        match self {
            SearchTokenizer::Default => "default".to_owned(),
            SearchTokenizer::Raw => "raw".to_owned(),
            SearchTokenizer::EnStem => "en_stem".to_owned(),
            SearchTokenizer::WhiteSpace => "whitespace".to_owned(),
        }
    }

    /// Reads the tokenizer that a document selects.
    pub fn from_json_value(value: &JsonValue) -> (tokenizer: Option<SearchTokenizer>)
        ensures
            tokenizer == Self::of_json(value@),
    {
        let name = match value.get("type") {
            Some(member) => match member.as_str() {
                Some(name) => name,
                None => { return None; },
            },
            None => { return None; },
        };
        if same_text(name, "default") {
            Some(SearchTokenizer::Default)
        } else if same_text(name, "raw") {
            Some(SearchTokenizer::Raw)
        } else if same_text(name, "en_stem") {
            Some(SearchTokenizer::EnStem)
        } else if same_text(name, "whitespace") {
            Some(SearchTokenizer::WhiteSpace)
        } else {
            None
        }
    }

    /// Writes the document that selects the tokenizer.
    pub fn to_json_value(&self) -> (document: JsonValue)
        ensures
            document@ == self.json_of(),
    {
        let mut members: Vec<JsonMember> = Vec::new();
        members.push(JsonMember { key: "type".to_owned(), value: JsonValue::String(self.name()) });
        let document = JsonValue::Object(members);
        proof {
            reveal_with_fuel(JsonValue::model, 2);
            assert(document@->Object_0 =~= self.json_of()->Object_0);
        }
        document
    }

    /// Reading what was written gives the tokenizer back.
    pub proof fn lemma_json_round_trip(self)
        ensures
            Self::of_json(self.json_of()) == Some(self),
    {
        reveal_strlit("default");
        reveal_strlit("raw");
        reveal_strlit("en_stem");
        reveal_strlit("whitespace");
        lemma_member_at(self.json_of()->Object_0, "type"@, 0);
        assert("default"@.len() == 7 && "default"@[0] == 'd');
        assert("raw"@.len() == 3);
        assert("en_stem"@.len() == 7 && "en_stem"@[0] == 'e');
        assert("whitespace"@.len() == 10);
    }
}

/// The normalizer applied to the text of a field that is kept for fast
/// retrieval.
#[derive(Debug, Clone, Copy, PartialEq, Eq, Structural)]
pub enum SearchNormalizer {
    Raw,
    Lowercase,
}

impl SearchNormalizer {
    /// The name under which the engine knows the normalizer.
    pub open spec fn name_text(self) -> Seq<char> {
        match self {
            SearchNormalizer::Raw => "raw"@,
            SearchNormalizer::Lowercase => "lowercase"@,
        }
    }

    /// The normalizer of a given name, if there is one.
    pub open spec fn of_name(name: Seq<char>) -> Option<SearchNormalizer> {
        if name == "raw"@ {
            Some(SearchNormalizer::Raw)
        } else if name == "lowercase"@ {
            Some(SearchNormalizer::Lowercase)
        } else {
            None
        }
    }

    /// The normalizer that a document selects by name.
    pub open spec fn of_json(document: JsonModel) -> Option<SearchNormalizer> {
        match document.selection() {
            Some(name) => Self::of_name(name),
            None => None,
        }
    }

    /// The document that selects the normalizer: its name as a string.
    pub open spec fn json_of(self) -> JsonModel {
        JsonModel::String(self.name_text())
    }

    /// The name under which the engine knows the normalizer.
    pub fn name(&self) -> (name: String)
        ensures
            name@ == self.name_text(),
    {
        match self {
            SearchNormalizer::Raw => "raw".to_owned(),
            SearchNormalizer::Lowercase => "lowercase".to_owned(),
        }
    }

    /// Reads the normalizer that a document selects.
    pub fn from_json_value(value: &JsonValue) -> (normalizer: Option<SearchNormalizer>)
        ensures
            normalizer == Self::of_json(value@),
    {
        match value.as_selection() {
            Some(name) => {
                if same_text(name, "raw") {
                    Some(SearchNormalizer::Raw)
                } else if same_text(name, "lowercase") {
                    Some(SearchNormalizer::Lowercase)
                } else {
                    None
                }
            },
            None => None,
        }
    }

    /// Writes the document that selects the normalizer.
    pub fn to_json_value(&self) -> (document: JsonValue)
        ensures
            document@ == self.json_of(),
    {
        JsonValue::String(self.name())
    }

    /// Reading what was written gives the normalizer back.
    pub proof fn lemma_json_round_trip(self)
        ensures
            Self::of_json(self.json_of()) == Some(self),
    {
        reveal_strlit("raw");
        reveal_strlit("lowercase");
        assert("raw"@.len() == 3);
        assert("lowercase"@.len() == 9);
    }
}

} // verus!
