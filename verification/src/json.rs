//! JSON documents as the orchestrator sees them.
//!
//! Documents are `serde_json` values. Verified code never looks inside one
//! directly: it reads and builds them through the small functions of this
//! module, whose contracts speak of the document's mathematical model,
//! [`JsonView`].

use vstd::prelude::*;

verus! {

/// The mathematical model of a JSON document.
pub enum JsonView {
    Null,
    Bool(bool),
    /// A number, by its JSON text.
    Number(Seq<char>),
    Text(Seq<char>),
    Array(Seq<JsonView>),
    Object(Map<Seq<char>, JsonView>),
}

/// `serde_json::Value`, carried as it is: nothing of its inside is known but
/// what the functions below say.
#[verifier::external_type_specification]
#[verifier::external_body]
pub struct ExJsonValue(serde_json::Value);

/// `serde_json::Map`, carried as it is.
#[verifier::external_type_specification]
#[verifier::external_body]
#[verifier::reject_recursive_types(K)]
#[verifier::reject_recursive_types(V)]
pub struct ExJsonMap<K, V>(serde_json::Map<K, V>);

/// A JSON document.
pub type JsonValue = serde_json::Value;

/// The members of a JSON object under construction.
pub type JsonMembers = serde_json::Map<String, serde_json::Value>;

/// The document that a `serde_json::Value` holds.
pub uninterp spec fn json_model(value: JsonValue) -> JsonView;

/// The members that a `serde_json::Map` holds, by key.
pub uninterp spec fn object_members(members: JsonMembers) -> Map<Seq<char>, JsonView>;

/// What `serde_json::from_str` makes of a text: the document it denotes, or
/// `None` where the text is not one JSON document.
pub uninterp spec fn spec_parse(text: Seq<char>) -> Option<JsonView>;

/// What `serde_json::to_string` makes of a document: its compact text, or the
/// serializer's complaint.
pub uninterp spec fn spec_render(document: JsonView) -> Result<Seq<char>, Seq<char>>;

/// `serde_json::from_str::<Value>`: the parsed document is the one that
/// [`spec_parse`] names for the text; a text that does not parse gives `None`.
#[verifier::external_body]
pub(crate) fn parse(text: &str) -> (r: Option<JsonValue>)
    ensures
        match r {
            Some(v) => spec_parse(text@) == Some(json_model(v)),
            None => spec_parse(text@) is None,
        },
{
    serde_json::from_str::<serde_json::Value>(text).ok()
}

/// `serde_json::to_string` on a `Value`: the text (or the error's message) is
/// the one that [`spec_render`] names for the document. This rests on
/// `serde_json` keeping the members of an object ordered by key, as it does
/// unless its feature `preserve_order` is switched on: with that feature the
/// text would also depend on the order in which the members were put in.
#[verifier::external_body]
pub(crate) fn render(value: &JsonValue) -> (r: Result<String, String>)
    ensures
        text_result(r) == spec_render(json_model(*value)),
{
    serde_json::to_string(value).map_err(|e| e.to_string())
}

/// `Value::get` with a string index: the member of an object under `key`, and
/// `None` for a missing key or a document that is not an object.
#[verifier::external_body]
pub(crate) fn member<'a>(value: &'a JsonValue, key: &str) -> (r: Option<&'a JsonValue>)
    ensures
        match r {
            Some(found) => spec_member(json_model(*value), key@) == Some(json_model(*found)),
            None => spec_member(json_model(*value), key@) is None,
        },
{
    value.get(key)
}

/// `Value::as_str`: the text of a string document, `None` for any other.
#[verifier::external_body]
pub(crate) fn as_text<'a>(value: &'a JsonValue) -> (r: Option<&'a str>)
    ensures
        match r {
            Some(text) => json_model(*value) == JsonView::Text(text@),
            None => !(json_model(*value) is Text),
        },
{
    value.as_str()
}

/// `Value::is_null`.
#[verifier::external_body]
pub(crate) fn is_null(value: &JsonValue) -> (r: bool)
    ensures
        r == (json_model(*value) is Null),
{
    value.is_null()
}

/// `Value::is_object`.
#[verifier::external_body]
pub(crate) fn is_object(value: &JsonValue) -> (r: bool)
    ensures
        r == (json_model(*value) is Object),
{
    value.is_object()
}

/// `Value::String`: the string document with the given text.
#[verifier::external_body]
pub(crate) fn text(content: String) -> (r: JsonValue)
    ensures
        json_model(r) == JsonView::Text(content@),
{
    serde_json::Value::String(content)
}

/// `Value::Null`.
#[verifier::external_body]
pub(crate) fn null() -> (r: JsonValue)
    ensures
        json_model(r) == JsonView::Null,
{
    serde_json::Value::Null
}

/// `Value::Array`: the array document with the given items, in order.
#[verifier::external_body]
pub(crate) fn array(items: Vec<JsonValue>) -> (r: JsonValue)
    ensures
        json_model(r) == JsonView::Array(models(items@)),
{
    serde_json::Value::Array(items)
}

/// `Map::new`: no members.
#[verifier::external_body]
pub(crate) fn empty_members() -> (r: JsonMembers)
    ensures
        object_members(r) == no_members(),
{
    serde_json::Map::new()
}

/// `Map::insert`: the member under `key` is set to `value`, replacing an
/// earlier one; the other members stay.
#[verifier::external_body]
pub(crate) fn insert_member(members: &mut JsonMembers, key: String, value: JsonValue)
    ensures
        object_members(*final(members)) == object_members(*old(members)).insert(
            key@,
            json_model(value),
        ),
{
    members.insert(key, value);
}

/// `Value::Object`: the object document with the given members.
#[verifier::external_body]
pub(crate) fn object(members: JsonMembers) -> (r: JsonValue)
    ensures
        json_model(r) == JsonView::Object(object_members(members)),
{
    serde_json::Value::Object(members)
}

/// `Value::clone`: a copy holds the same document.
#[verifier::external_body]
pub(crate) fn duplicate(value: &JsonValue) -> (r: JsonValue)
    ensures
        json_model(r) == json_model(*value),
{
    value.clone()
}

/// An object without members.
pub open spec fn no_members() -> Map<Seq<char>, JsonView> {
    Map::empty()
}

/// A text-or-complaint result, by the views of its strings.
pub open spec fn text_result(r: Result<String, String>) -> Result<Seq<char>, Seq<char>> {
    match r {
        Ok(text) => Ok(text@),
        Err(why) => Err(why@),
    }
}

/// The models of a sequence of documents, item by item.
pub open spec fn models(items: Seq<JsonValue>) -> Seq<JsonView> {
    Seq::new(items.len(), |i: int| json_model(items[i]))
}

/// The member of an object under `key`; `None` for a missing key and for a
/// document that is not an object.
pub open spec fn spec_member(document: JsonView, key: Seq<char>) -> Option<JsonView> {
    match document {
        JsonView::Object(members) => if members.contains_key(key) {
            Some(members[key])
        } else {
            None
        },
        _ => None,
    }
}

/// The text under `key`, where the document is an object whose member under
/// that key is a string.
pub open spec fn spec_text_member(document: JsonView, key: Seq<char>) -> Option<Seq<char>> {
    match spec_member(document, key) {
        Some(JsonView::Text(text)) => Some(text),
        _ => None,
    }
}

/// Reads the string stored under `key`.
pub fn text_member(value: &JsonValue, key: &str) -> (r: Option<String>)
    ensures
        r.deep_view() == spec_text_member(json_model(*value), key@),
{
    match member(value, key) {
        Some(found) => match as_text(found) {
            Some(text) => Some(text.to_owned()),
            None => None,
        },
        None => None,
    }
}

} // verus!
