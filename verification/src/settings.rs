//! The settings of the shell: one JSON object in one file, a string under
//! each key. The shell reads and writes the file; what a stored text means
//! and what it becomes is decided here.

use vstd::prelude::*;
use crate::text::opt_str;
use crate::json::{
    lookup, parse_outcome, parse_tree, read_tree, tree_model, write_tree, written, Json,
    JsonValue,
};

verus! {

/// What the settings hold once `value` was stored under `key`.
pub uninterp spec fn with_text(doc: Json, key: Seq<char>, value: Seq<char>) -> Json;

/// What `serde_json::to_string_pretty` writes for a document, or its
/// message where it fails.
pub uninterp spec fn pretty_outcome(doc: Json) -> Result<Seq<char>, Seq<char>>;

/// `serde_json::Map::insert` on the map of a `serde_json::Value` that is
/// an object: the string `value` is stored under `key`, in place of what
/// was there, and every other member stays. A value that is no object
/// stays as it is. What the value then holds depends on what it held, the
/// key and the value alone.
#[verifier::external_body]
fn store_text(tree: &mut serde_json::Value, key: String, value: String)
    ensures
        tree_model(*final(tree)) == with_text(tree_model(*old(tree)), key@, value@),
        tree_model(*old(tree)) is Object ==> {
            &&& tree_model(*final(tree)) is Object
            &&& lookup(tree_model(*final(tree)).members(), key@) == Some(Json::Text(value@))
            &&& forall|other: Seq<char>|
                other != key@ ==> lookup(tree_model(*final(tree)).members(), other) == lookup(
                    tree_model(*old(tree)).members(),
                    other,
                )
        },
        !(tree_model(*old(tree)) is Object) ==> tree_model(*final(tree)) == tree_model(*old(tree)),
{
    if let serde_json::Value::Object(members) = tree {
        members.insert(key, serde_json::Value::String(value));
    }
}

/// `serde_json::to_string_pretty` on a `serde_json::Value`. What it writes
/// depends on what the value holds alone. A failure comes back as the
/// message it displays.
#[verifier::external_body]
fn pretty_text(tree: &serde_json::Value) -> (text: Result<String, String>)
    ensures
        match text {
            Ok(t) => pretty_outcome(tree_model(*tree)) == Ok::<Seq<char>, Seq<char>>(t@),
            Err(e) => pretty_outcome(tree_model(*tree)) == Err::<Seq<char>, Seq<char>>(e@),
        },
{
    match serde_json::to_string_pretty(tree) {
        Ok(text) => Ok(text),
        Err(error) => Err(error.to_string()),
    }
}

/// The string stored under `key`: empty where the document has no such
/// member, or one that is no string.
pub open spec fn stored_text(doc: Json, key: Seq<char>) -> Seq<char> {
    match doc.member(key) {
        Some(Json::Text(t)) => t,
        _ => Seq::empty(),
    }
}

/// What loading a setting comes to: the stored string, empty where there
/// is no file or no such setting; an error where the file is no JSON.
pub open spec fn load_outcome(stored: Option<Seq<char>>, key: Seq<char>) -> Result<
    Seq<char>,
    Seq<char>,
> {
    match stored {
        None => Ok(Seq::empty()),
        Some(text) => match parse_outcome(text) {
            Ok(doc) => Ok(stored_text(doc, key)),
            Err(message) => Err("Failed to parse configuration: "@ + message),
        },
    }
}

/// Reads the setting under `key` from the text of the settings file;
/// `stored` is `None` where there is no file.
pub fn load_config(stored: Option<&str>, key: &str) -> (setting: Result<String, String>)
    ensures
        crate::engine::says(setting, load_outcome(opt_str(stored), key@)),
{
    let text = match stored {
        None => {
            return Ok(String::new());
        },
        Some(text) => text,
    };
    match parse_tree(text) {
        Err(message) => {
            let mut why = String::from_str("Failed to parse configuration: ");
            why.append(message.as_str());
            Err(why)
        },
        Ok(tree) => {
            let doc = read_tree(&tree);
            match doc.member(key) {
                Some(value) => match value.as_text() {
                    Some(t) => Ok(t.clone()),
                    None => Ok(String::new()),
                },
                None => Ok(String::new()),
            }
        },
    }
}

/// The settings that a stored text holds: those of an empty object where
/// there is no file, or one that is no JSON.
pub open spec fn settings_of(stored: Option<Seq<char>>) -> Json {
    match stored {
        Some(text) => match parse_outcome(text) {
            Ok(doc) => doc,
            Err(_) => written(Json::Object(Seq::empty())),
        },
        None => written(Json::Object(Seq::empty())),
    }
}

/// What saving a setting comes to: the new text of the settings file.
pub open spec fn save_outcome(stored: Option<Seq<char>>, key: Seq<char>, value: Seq<char>) -> Result<
    Seq<char>,
    Seq<char>,
> {
    match pretty_outcome(with_text(settings_of(stored), key, value)) {
        Ok(text) => Ok(text),
        Err(message) => Err("Failed to save configuration: "@ + message),
    }
}

/// Stores `value` under `key` in the settings that the text of the
/// settings file holds, and writes the new text of the file; `stored` is
/// `None` where there is no file. A file that is no JSON is begun anew.
pub fn save_config(stored: Option<&str>, key: String, value: String) -> (text: Result<
    String,
    String,
>)
    ensures
        crate::engine::says(text, save_outcome(opt_str(stored), key@, value@)),
{
    let parsed = match stored {
        Some(text) => match parse_tree(text) {
            Ok(tree) => Some(tree),
            Err(_) => None,
        },
        None => None,
    };
    let mut tree = match parsed {
        Some(tree) => tree,
        None => {
            let empty = JsonValue::Object(Vec::new());
            assert(empty@ == Json::Object(Seq::empty())) by {
                assert(crate::json::members_view(Seq::<(String, JsonValue)>::empty())
                    =~= Seq::<(Seq<char>, Json)>::empty());
            }
            write_tree(&empty)
        },
    };
    store_text(&mut tree, key, value);
    match pretty_text(&tree) {
        Ok(text) => Ok(text),
        Err(message) => {
            let mut why = String::from_str("Failed to save configuration: ");
            why.append(message.as_str());
            Err(why)
        },
    }
}

} // verus!
