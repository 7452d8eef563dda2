//! JSON documents as the library reads them, and the way in and out of
//! `serde_json`, which does the parsing.

use vstd::prelude::*;

verus! {

/// `serde_json`'s number. The library never looks inside one: it carries
/// the numbers of a document along unchanged.
#[verifier::external_type_specification]
#[verifier::external_body]
pub struct ExNumber(serde_json::Number);

/// `serde_json`'s tree of values, as the parser returns it and as the
/// schema validator takes it.
#[verifier::external_type_specification]
#[verifier::external_body]
pub struct ExValue(serde_json::Value);

/// A JSON document as a mathematical value. An object is the sequence of
/// its members, in the order in which `serde_json` hands them out.
pub enum Json {
    Null,
    Bool(bool),
    Number(serde_json::Number),
    Text(Seq<char>),
    Array(Seq<Json>),
    Object(Seq<(Seq<char>, Json)>),
}

/// The value of the first member named `key`, if there is one.
pub open spec fn lookup(members: Seq<(Seq<char>, Json)>, key: Seq<char>) -> Option<Json>
    decreases members.len(),
{
    if members.len() == 0 {
        None
    } else if members[0].0 == key {
        Some(members[0].1)
    } else {
        lookup(members.drop_first(), key)
    }
}

impl Json {
    /// The members of an object; no members for any other value.
    pub open spec fn members(self) -> Seq<(Seq<char>, Json)> {
        match self {
            Json::Object(members) => members,
            _ => Seq::empty(),
        }
    }

    /// Whether this is an object with a member named `key`.
    pub open spec fn has_member(self, key: Seq<char>) -> bool {
        exists|i: int| 0 <= i < self.members().len() && (#[trigger] self.members()[i]).0 == key
    }

    /// The value of the member named `key`.
    pub open spec fn member(self, key: Seq<char>) -> Option<Json> {
        lookup(self.members(), key)
    }
}

/// A JSON document.
#[derive(Debug, PartialEq)]
pub enum JsonValue {
    Null,
    Bool(bool),
    Number(serde_json::Number),
    Text(String),
    Array(Vec<JsonValue>),
    Object(Vec<(String, JsonValue)>),
}

/// The members of an object as mathematical values.
pub open spec fn members_view(members: Seq<(String, JsonValue)>) -> Seq<(Seq<char>, Json)>
    decreases members,
{
    Seq::new(
        members.len(),
        |i: int|
            if 0 <= i < members.len() {
                (members[i].0@, members[i].1@)
            } else {
                (Seq::empty(), Json::Null)
            },
    )
}

/// The items of an array as mathematical values.
pub open spec fn items_view(items: Seq<JsonValue>) -> Seq<Json>
    decreases items,
{
    Seq::new(
        items.len(),
        |i: int|
            if 0 <= i < items.len() {
                items[i]@
            } else {
                Json::Null
            },
    )
}

impl View for JsonValue {
    type V = Json;

    open spec fn view(&self) -> Json
        decreases self,
    {
        match self {
            JsonValue::Null => Json::Null,
            JsonValue::Bool(b) => Json::Bool(*b),
            JsonValue::Number(n) => Json::Number(*n),
            JsonValue::Text(t) => Json::Text(t@),
            JsonValue::Array(items) => Json::Array(items_view(items@)),
            JsonValue::Object(members) => Json::Object(members_view(members@)),
        }
    }
}

/// The value of the first member named `key` among `members`.
pub fn find_member<'a>(members: &'a Vec<(String, JsonValue)>, key: &str) -> (found: Option<
    &'a JsonValue,
>)
    ensures
        match found {
            Some(value) => lookup(members_view(members@), key@) == Some(value@),
            None => lookup(members_view(members@), key@) is None,
        },
{
    let wanted = key.to_owned();
    let ghost all = members_view(members@);
    let mut i: usize = 0;
    proof {
        assert(all.skip(0) =~= all);
    }
    while i < members.len()
        invariant
            i <= members.len(),
            wanted@ == key@,
            all == members_view(members@),
            lookup(all, key@) == lookup(all.skip(i as int), key@),
        decreases members.len() - i,
    {
        proof {
            assert(all.skip(i as int).drop_first() =~= all.skip(i + 1));
        }
        if members[i].0 == wanted {
            return Some(&members[i].1);
        }
        i = i + 1;
    }
    None
}

impl JsonValue {
    /// The value of the first member named `key`. A value that is no
    /// object has no members.
    pub fn member(&self, key: &str) -> (found: Option<&JsonValue>)
        ensures
            match found {
                Some(value) => self@.member(key@) == Some(value@),
                None => self@.member(key@) is None,
            },
    {
        match self {
            JsonValue::Object(members) => find_member(members, key),
            _ => None,
        }
    }

    /// The characters of a string value.
    pub fn as_text(&self) -> (text: Option<&String>)
        ensures
            match text {
                Some(t) => self@ == Json::Text(t@),
                None => !(self@ is Text),
            },
    {
        match self {
            JsonValue::Text(t) => Some(t),
            _ => None,
        }
    }
}

/// What a `serde_json::Value` holds, as a document.
pub uninterp spec fn tree_model(tree: serde_json::Value) -> Json;

/// What `serde_json::from_str` makes of a text: the document it holds, or
/// the parser's message.
pub uninterp spec fn parse_outcome(text: Seq<char>) -> Result<Json, Seq<char>>;

/// What the `serde_json::Value` holds that `write_tree` builds from a
/// document, value by value and member by member.
pub uninterp spec fn written(doc: Json) -> Json;

/// `serde_json::from_str` on a text, for a `serde_json::Value`. The outcome
/// depends on the text alone. The parser's error comes back as the
/// message that it displays.
#[verifier::external_body]
pub(crate) fn parse_tree(text: &str) -> (parsed: Result<serde_json::Value, String>)
    ensures
        match parsed {
            Ok(tree) => parse_outcome(text@) == Ok::<Json, Seq<char>>(tree_model(tree)),
            Err(message) => parse_outcome(text@) == Err::<Json, Seq<char>>(message@),
        },
{
    match serde_json::from_str::<serde_json::Value>(text) {
        Ok(tree) => Ok(tree),
        Err(error) => Err(error.to_string()),
    }
}

/// Copies a `serde_json::Value` into a document, variant by variant: a
/// number and a string as they are, an array item by item, an object
/// member by member in the order in which its `serde_json::Map` hands
/// them out. The document holds what the value holds.
#[verifier::external_body]
pub(crate) fn read_tree(tree: &serde_json::Value) -> (doc: JsonValue)
    ensures
        doc@ == tree_model(*tree),
{
    match tree {
        serde_json::Value::Null => JsonValue::Null,
        serde_json::Value::Bool(b) => JsonValue::Bool(*b),
        serde_json::Value::Number(n) => JsonValue::Number(n.clone()),
        serde_json::Value::String(s) => JsonValue::Text(s.clone()),
        serde_json::Value::Array(items) => JsonValue::Array(items.iter().map(read_tree).collect()),
        serde_json::Value::Object(members) => JsonValue::Object(
            members.iter().map(|(key, value)| (key.clone(), read_tree(value))).collect(),
        ),
    }
}

/// Builds a `serde_json::Value` from a document, variant by variant: a
/// number and a string as they are, an array item by item, an object by
/// collecting its members into a `serde_json::Map`. The map keeps one
/// member for each key, in an order of its own, so what the value holds
/// is named, not stated; it depends on the document alone.
#[verifier::external_body]
pub(crate) fn write_tree(doc: &JsonValue) -> (tree: serde_json::Value)
    ensures
        tree_model(tree) == written(doc@),
{
    match doc {
        JsonValue::Null => serde_json::Value::Null,
        JsonValue::Bool(b) => serde_json::Value::Bool(*b),
        JsonValue::Number(n) => serde_json::Value::Number(n.clone()),
        JsonValue::Text(t) => serde_json::Value::String(t.clone()),
        JsonValue::Array(items) => serde_json::Value::Array(items.iter().map(write_tree).collect()),
        JsonValue::Object(members) => serde_json::Value::Object(
            members.iter().map(|(key, value)| (key.clone(), write_tree(value))).collect(),
        ),
    }
}

/// Parses a text into a document.
pub fn parse_document(text: &str) -> (parsed: Result<JsonValue, String>)
    ensures
        match parsed {
            Ok(doc) => parse_outcome(text@) == Ok::<Json, Seq<char>>(doc@),
            Err(message) => parse_outcome(text@) == Err::<Json, Seq<char>>(message@),
        },
{
    match parse_tree(text) {
        Ok(tree) => Ok(read_tree(&tree)),
        Err(message) => Err(message),
    }
}

} // verus!
