//! JSON documents as plain data.

use vstd::prelude::*;

verus! {

/// `serde_json::Value`; what it holds is told by `json_content`.
#[verifier::external_type_specification]
#[verifier::external_body]
pub struct ExSerdeValue(serde_json::Value);

/// A JSON document as plain data: what a configuration is read from and written to.
///
/// A number is kept by its decimal text, and an object by its members in order.
#[derive(Debug, PartialEq, Eq)]
pub enum JsonValue {
    Null,
    Bool(bool),
    Number(String),
    String(String),
    Array(Vec<JsonValue>),
    Object(Vec<JsonMember>),
}

/// One member of a JSON object: a key and the value filed under it.
#[derive(Debug, PartialEq, Eq)]
pub struct JsonMember {
    pub key: String,
    pub value: JsonValue,
}

/// The mathematical value of a [`JsonValue`].
pub enum JsonModel {
    Null,
    Bool(bool),
    Number(Seq<char>),
    String(Seq<char>),
    Array(Seq<JsonModel>),
    Object(Seq<JsonMemberModel>),
}

/// The mathematical value of a [`JsonMember`].
pub struct JsonMemberModel {
    pub key: Seq<char>,
    pub value: JsonModel,
}

/// The first member of `members` that is filed under `key`.
pub open spec fn member_of(members: Seq<JsonMemberModel>, key: Seq<char>) -> Option<JsonModel>
    decreases members.len(),
{
    if members.len() == 0 {
        None
    } else if members[0].key == key {
        Some(members[0].value)
    } else {
        member_of(members.drop_first(), key)
    }
}

impl JsonModel {
    /// The name that a value selects from a closed list: a string selects
    /// what it holds, and an object with a single member that is `null`
    /// selects that member's key.
    pub open spec fn selection(self) -> Option<Seq<char>> {
        match self {
            JsonModel::String(name) => Some(name),
            JsonModel::Object(members) => if members.len() == 1 && members[0].value is Null {
                Some(members[0].key)
            } else {
                None
            },
            _ => None,
        }
    }

    /// The member of an object under `key`; nothing for a missing key or for
    /// a value that is no object.
    pub open spec fn member(self, key: Seq<char>) -> Option<JsonModel> {
        match self {
            JsonModel::Object(members) => member_of(members, key),
            _ => None,
        }
    }

    /// The members of an object, and no members for any other value.
    pub open spec fn members(self) -> Seq<JsonMemberModel> {
        match self {
            JsonModel::Object(members) => members,
            _ => Seq::empty(),
        }
    }
}

impl JsonValue {
    /// The mathematical value of the document.
    pub open spec fn model(&self) -> JsonModel
        decreases self,
    {
        match self {
            JsonValue::Null => JsonModel::Null,
            JsonValue::Bool(flag) => JsonModel::Bool(*flag),
            JsonValue::Number(digits) => JsonModel::Number(digits@),
            JsonValue::String(text) => JsonModel::String(text@),
            JsonValue::Array(items) => JsonModel::Array(
                Seq::new(
                    items.len() as nat,
                    |i: int|
                        if 0 <= i < items.len() {
                            items[i].model()
                        } else {
                            JsonModel::Null
                        },
                ),
            ),
            JsonValue::Object(members) => JsonModel::Object(
                Seq::new(
                    members.len() as nat,
                    |i: int|
                        if 0 <= i < members.len() {
                            JsonMemberModel { key: members[i].key@, value: members[i].value.model() }
                        } else {
                            JsonMemberModel { key: Seq::empty(), value: JsonModel::Null }
                        },
                ),
            ),
        }
    }
}

impl View for JsonMember {
    type V = JsonMemberModel;

    open spec fn view(&self) -> JsonMemberModel {
        JsonMemberModel { key: self.key@, value: self.value.model() }
    }
}

impl View for JsonValue {
    type V = JsonModel;

    open spec fn view(&self) -> JsonModel {
        self.model()
    }
}

impl Clone for JsonMember {
    fn clone(&self) -> (copy: Self)
        ensures
            copy@ == self@,
    {
        JsonMember { key: self.key.clone(), value: self.value.duplicate() }
    }
}

impl Clone for JsonValue {
    fn clone(&self) -> (copy: Self)
        ensures
            copy@ == self@,
    {
        self.duplicate()
    }
}

/// Whether two pieces of text hold the same characters.
pub fn same_text(left: &str, right: &str) -> (same: bool)
    ensures
        same == (left@ == right@),
{
    let left_owned = left.to_owned();
    let right_owned = right.to_owned();
    left_owned == right_owned
}

impl JsonValue {
    /// Looks a key up in an object.
    pub fn get(&self, key: &str) -> (found: Option<&JsonValue>)
        ensures
            match found {
                Some(member) => self@.member(key@) == Some(member@),
                None => self@.member(key@) is None,
            },
    {
        match self {
            JsonValue::Object(members) => {
                let ghost all = self@.members();
                assert(all.skip(0) =~= all);
                let mut i: usize = 0;
                while i < members.len()
                    invariant
                        i <= members.len(),
                        self@ == JsonModel::Object(all),
                        all.len() == members.len(),
                        forall|j: int|
                            0 <= j < members.len() ==> all[j] == (JsonMemberModel {
                                key: (#[trigger] members[j]).key@,
                                value: members[j].value@,
                            }),
                        member_of(all, key@) == member_of(all.skip(i as int), key@),
                    decreases members.len() - i,
                {
                    let ghost rest = all.skip(i as int);
                    assert(rest[0] == all[i as int]);
                    assert(rest.drop_first() =~= all.skip(i + 1));
                    if same_text(members[i].key.as_str(), key) {
                        return Some(&members[i].value);
                    }
                    i += 1;
                }
                None
            },
            _ => None,
        }
    }

    /// The flag that a boolean value holds.
    pub fn as_bool(&self) -> (flag: Option<bool>)
        ensures
            flag == match self@ {
                JsonModel::Bool(held) => Some(held),
                _ => None,
            },
    {
        match self {
            JsonValue::Bool(held) => Some(*held),
            _ => None,
        }
    }

    /// The text that a string value holds.
    pub fn as_str(&self) -> (text: Option<&str>)
        ensures
            match text {
                Some(held) => self@ == JsonModel::String(held@),
                None => !(self@ is String),
            },
    {
        match self {
            JsonValue::String(held) => Some(held.as_str()),
            _ => None,
        }
    }

    /// The name that the value selects from a closed list.
    pub fn as_selection(&self) -> (name: Option<&str>)
        ensures
            match name {
                Some(held) => self@.selection() == Some(held@),
                None => self@.selection() is None,
            },
    {
        proof {
            reveal_with_fuel(JsonValue::model, 2);
        }
        match self {
            JsonValue::String(held) => Some(held.as_str()),
            JsonValue::Object(members) => {
                if members.len() == 1 {
                    match &members[0].value {
                        JsonValue::Null => Some(members[0].key.as_str()),
                        _ => None,
                    }
                } else {
                    None
                }
            },
            _ => None,
        }
    }

    /// Whether the value is an object.
    pub fn is_object(&self) -> (object: bool)
        ensures
            object == (self@ is Object),
    {
        match self {
            JsonValue::Object(_) => true,
            _ => false,
        }
    }
}

/// A key is found at the first place where it stands.
pub proof fn lemma_member_at(members: Seq<JsonMemberModel>, key: Seq<char>, at: int)
    requires
        0 <= at < members.len(),
        members[at].key == key,
        forall|j: int| 0 <= j < at ==> (#[trigger] members[j]).key != key,
    ensures
        member_of(members, key) == Some(members[at].value),
    decreases at,
{
    if at > 0 {
        let rest = members.drop_first();
        assert(rest[at - 1] == members[at]);
        assert forall|j: int| 0 <= j < at - 1 implies (#[trigger] rest[j]).key != key by {
            assert(rest[j] == members[j + 1]);
        }
        lemma_member_at(rest, key, at - 1);
    }
}

impl JsonValue {
    /// A copy of the document.
    pub fn duplicate(&self) -> (copy: JsonValue)
        ensures
            copy@ == self@,
        decreases self,
    {
        match self {
            JsonValue::Null => JsonValue::Null,
            JsonValue::Bool(flag) => JsonValue::Bool(*flag),
            JsonValue::Number(digits) => JsonValue::Number(digits.clone()),
            JsonValue::String(text) => JsonValue::String(text.clone()),
            JsonValue::Array(items) => {
                let mut copies: Vec<JsonValue> = Vec::new();
                let mut i: usize = 0;
                while i < items.len()
                    invariant
                        i <= items.len(),
                        self is Array && self->Array_0 == *items,
                        copies.len() == i,
                        forall|j: int| 0 <= j < i ==> (#[trigger] copies[j]).model() == items[j].model(),
                    decreases items.len() - i,
                {
                    assert(decreases_to!(self => self->Array_0));
                    assert(decreases_to!(self->Array_0 => items[i as int]));
                    copies.push(items[i].duplicate());
                    i += 1;
                }
                let copy = JsonValue::Array(copies);
                assert(copy@->Array_0 =~= self@->Array_0);
                copy
            },
            JsonValue::Object(members) => {
                let mut copies: Vec<JsonMember> = Vec::new();
                let mut i: usize = 0;
                while i < members.len()
                    invariant
                        i <= members.len(),
                        self is Object && self->Object_0 == *members,
                        copies.len() == i,
                        forall|j: int| 0 <= j < i ==> (#[trigger] copies[j])@ == members[j]@,
                    decreases members.len() - i,
                {
                    assert(decreases_to!(self => self->Object_0));
                    assert(decreases_to!(self->Object_0 => members[i as int]));
                    assert(decreases_to!(members[i as int] => members[i as int].value));
                    copies.push(
                        JsonMember {
                            key: members[i].key.clone(),
                            value: members[i].value.duplicate(),
                        },
                    );
                    i += 1;
                }
                let copy = JsonValue::Object(copies);
                assert(copy@->Object_0 =~= self@->Object_0);
                copy
            },
        }
    }

    /// An object made of the given members, in their order.
    pub fn object(members: Vec<JsonMember>) -> (document: JsonValue)
        ensures
            document@ == JsonModel::Object(members@.map_values(|member: JsonMember| member@)),
    {
        let document = JsonValue::Object(members);
        assert(document@->Object_0 =~= members@.map_values(|member: JsonMember| member@));
        document
    }
}

/// What a `serde_json` value holds, as a document of this crate.
pub uninterp spec fn json_content(value: serde_json::Value) -> JsonModel;

/// Copies a `serde_json::Value` into a [`JsonValue`], variant by variant.
///
/// Trusted: the result is taken to be what the value holds. A number is
/// carried over by `Number::to_string`, an object by its members in the order
/// in which `serde_json::Map::iter` yields them.
#[verifier::external_body]
pub(crate) fn read_json(value: &serde_json::Value) -> (document: JsonValue)
    ensures
        document@ == json_content(*value),
{
    match value {
        serde_json::Value::Null => JsonValue::Null,
        serde_json::Value::Bool(flag) => JsonValue::Bool(*flag),
        serde_json::Value::Number(number) => JsonValue::Number(number.to_string()),
        serde_json::Value::String(text) => JsonValue::String(text.clone()),
        serde_json::Value::Array(items) => JsonValue::Array(items.iter().map(read_json).collect()),
        serde_json::Value::Object(members) => JsonValue::Object(
            members
                .iter()
                .map(|(key, member)| JsonMember { key: key.clone(), value: read_json(member) })
                .collect(),
        ),
    }
}

impl JsonValue {
    /// The document that a `serde_json` value holds.
    pub fn from_serde(value: &serde_json::Value) -> (document: JsonValue)
        ensures
            document@ == json_content(*value),
    {
        read_json(value)
    }
}

} // verus!

