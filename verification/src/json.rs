//! JSON documents, built and written by `serde_json`.
//!
//! The payloads that cross the boundary as JSON are put together from
//! `serde_json` values and written out by `serde_json`. Verus cannot look
//! inside those values, so this module says what each one holds in terms of
//! [`Json`], a mathematical picture of a document, and gives the text that
//! `serde_json` writes for a document a name, [`json_text`]. Nothing in this
//! module is proved: every function below is a direct call into
//! `serde_json` whose contract is taken on trust.

use std::collections::HashMap;
use vstd::prelude::*;

verus! {

/// A JSON document without numbers. No function of this crate builds a
/// number, and of a value that holds one nothing is said here.
pub enum Json {
    Null,
    Bool(bool),
    Text(Seq<char>),
    List(Seq<Json>),
    Object(Map<Seq<char>, Json>),
}

/// `serde_json::Value`, carried through without a look inside.
#[verifier::external_type_specification]
#[verifier::external_body]
pub struct ExValue(serde_json::Value);

/// `serde_json::Map`, the object under construction.
#[verifier::external_type_specification]
#[verifier::external_body]
#[verifier::reject_recursive_types(K)]
#[verifier::reject_recursive_types(V)]
pub struct ExObject<K, V>(serde_json::Map<K, V>);

/// `serde_json::Error`, the reason a write failed.
#[verifier::external_type_specification]
#[verifier::external_body]
pub struct ExError(serde_json::Error);

/// The document that a `serde_json::Value` holds.
pub uninterp spec fn json_of(value: serde_json::Value) -> Json;

/// The entries that a `serde_json::Map` holds, by key.
pub uninterp spec fn entries_of(object: serde_json::Map<String, serde_json::Value>) -> Map<
    Seq<char>,
    Json,
>;

/// The compact text that `serde_json` writes for a document. An object is
/// written in the order of its keys, so the text depends on the document
/// alone. This rests on the sorted map that `serde_json` uses by default: a
/// build that turns on its `preserve_order` feature writes objects in
/// insertion order, and this name must not be used with it.
pub uninterp spec fn json_text(document: Json) -> Seq<char>;

/// One entry of a map from strings to strings, as the writer meets it.
pub struct Entry {
    pub key: Seq<char>,
    pub value: Seq<char>,
}

/// The compact text that `serde_json` writes for a map from strings to
/// strings whose entries it meets in this order.
pub uninterp spec fn object_text(entries: Seq<Entry>) -> Seq<char>;

/// True when `options` holds `entry`.
pub open spec fn has_entry(options: Map<String, String>, entry: Entry) -> bool {
    exists|key: String| #[trigger]
        options.contains_key(key) && key@ == entry.key && options[key]@ == entry.value
}

/// True when `walk` lists the entries of `options` in some order: no key
/// comes twice, every item is an entry, and every entry is an item.
pub open spec fn walk_of(walk: Seq<Entry>, options: Map<String, String>) -> bool {
    &&& forall|i: int, j: int|
        0 <= i < j < walk.len() ==> (#[trigger] walk[i]).key != (#[trigger] walk[j]).key
    &&& forall|i: int| 0 <= i < walk.len() ==> has_entry(options, #[trigger] walk[i])
    &&& forall|key: String| #[trigger]
        options.contains_key(key) ==> walk.contains(Entry { key: key@, value: options[key]@ })
}

/// True when the writer succeeded, met the entries of `options` in the order
/// of `walk`, and wrote `named`.
pub open spec fn walked(
    written: Result<String, serde_json::Error>,
    options: Map<String, String>,
    walk: Seq<Entry>,
    named: Seq<char>,
) -> bool {
    &&& walk_of(walk, options)
    &&& written matches Ok(text)
    &&& text@ == named
}

/// The entries of an empty object.
pub open spec fn no_entries() -> Map<Seq<char>, Json> {
    Map::empty()
}

/// The documents held by a sequence of values, in order.
pub open spec fn jsons_of(values: Seq<serde_json::Value>) -> Seq<Json> {
    values.map_values(|value: serde_json::Value| json_of(value))
}

/// `serde_json::Value::Bool`: the value that holds a boolean.
#[verifier::external_body]
pub(crate) fn json_bool(flag: bool) -> (value: serde_json::Value)
    ensures
        json_of(value) == Json::Bool(flag),
{
    serde_json::Value::Bool(flag)
}

/// `serde_json::Value::String`: the value that holds a copy of `text`.
#[verifier::external_body]
pub(crate) fn json_string(text: &String) -> (value: serde_json::Value)
    ensures
        json_of(value) == Json::Text(text@),
{
    serde_json::Value::String(text.clone())
}

/// `serde_json::Value::Array`: the value that holds `items`, in order.
#[verifier::external_body]
pub(crate) fn json_array(items: Vec<serde_json::Value>) -> (value: serde_json::Value)
    ensures
        json_of(value) == Json::List(jsons_of(items@)),
{
    serde_json::Value::Array(items)
}

/// `serde_json::Map::new`: a map without entries.
#[verifier::external_body]
pub(crate) fn json_object_new() -> (object: serde_json::Map<String, serde_json::Value>)
    ensures
        entries_of(object) == no_entries(),
{
    serde_json::Map::new()
}

/// `serde_json::Map::insert`: afterwards `key` leads to `value`, in place of
/// whatever it led to before; the other entries are untouched. The value
/// that the call hands back, the one replaced, is dropped.
#[verifier::external_body]
pub(crate) fn json_object_insert(
    object: &mut serde_json::Map<String, serde_json::Value>,
    key: &str,
    value: serde_json::Value,
)
    ensures
        entries_of(*final(object)) == entries_of(*old(object)).insert(key@, json_of(value)),
{
    let _ = object.insert(key.to_owned(), value);
}

/// `serde_json::Value::Object`: the value that holds the entries of
/// `object`.
#[verifier::external_body]
pub(crate) fn json_object(object: serde_json::Map<String, serde_json::Value>) -> (value:
    serde_json::Value)
    ensures
        json_of(value) == Json::Object(entries_of(object)),
{
    serde_json::Value::Object(object)
}

/// `to_string` on a `serde_json::Value`, which writes the compact form.
/// The writer escapes every control character, NUL among them, so no NUL
/// stands in the text.
#[verifier::external_body]
pub(crate) fn json_to_string(value: &serde_json::Value) -> (text: String)
    ensures
        text@ == json_text(json_of(*value)),
        !text@.contains('\0'),
{
    value.to_string()
}

/// `serde_json::to_string` on a map from strings to strings. With string
/// keys and string values the writer cannot fail. It writes one entry for
/// each entry of the map, in the order in which the map is walked: that
/// order is the map's own affair, so the contract speaks of some walk that
/// lists every entry once, and the text is what `object_text` names for that
/// walk. For a map without entries the text is `{}`. Control characters are
/// escaped, so no NUL stands in the text.
#[verifier::external_body]
pub(crate) fn options_to_string(options: &HashMap<String, String>) -> (written: Result<
    String,
    serde_json::Error,
>)
    ensures
        written is Ok,
        exists|walk: Seq<Entry>| walked(written, options@, walk, #[trigger] object_text(walk)),
        options@.is_empty() ==> (written matches Ok(text) ==> text@ == "{}"@),
        written matches Ok(text) ==> !text@.contains('\0'),
{
    serde_json::to_string(options)
}

} // verus!
