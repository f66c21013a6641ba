//! The JSON documents that the editors' configuration files hold.
//!
//! Documents are `serde_json::Value`s. The verifier does not look inside one:
//! contracts speak of its [`JsonModel`]. Every function of this file that is
//! marked `external_body` states, without proof, what one item of `serde_json`
//! does; everything else in the library is proved from those statements.
use vstd::prelude::*;

verus! {

/// The mathematical content of a JSON document.
pub ghost enum JsonModel {
    Null,
    Bool(bool),
    /// A number, by the text that `serde_json` prints for it.
    Number(Seq<char>),
    Str(Seq<char>),
    Array(Seq<JsonModel>),
    Object(Map<Seq<char>, JsonModel>),
}

/// `serde_json::Value`, carried through as an opaque document.
#[verifier::external_type_specification]
#[verifier::external_body]
pub struct ExValue(serde_json::Value);

/// `serde_json::Error`, carried from a failed parse or render to
/// [`error_text`].
#[verifier::external_type_specification]
#[verifier::external_body]
pub struct ExJsonError(serde_json::Error);

/// What a `serde_json::Value` holds: the tree of its variants, an object
/// being the map from its keys to its members.
pub uninterp spec fn value_model(v: serde_json::Value) -> JsonModel;

/// The models of a vector of documents, in order.
pub open spec fn models(items: Seq<serde_json::Value>) -> Seq<JsonModel> {
    items.map_values(|v: serde_json::Value| value_model(v))
}

/// What indexing a document by a key yields: the member of that name if the
/// document is an object that has one, and `Null` otherwise.
pub open spec fn member(doc: JsonModel, key: Seq<char>) -> JsonModel {
    match doc {
        JsonModel::Object(m) => if m.contains_key(key) { m[key] } else { JsonModel::Null },
        _ => JsonModel::Null,
    }
}

/// The members of an object; a document of any other kind has none.
pub open spec fn members(doc: JsonModel) -> Map<Seq<char>, JsonModel> {
    match doc {
        JsonModel::Object(m) => m,
        _ => Map::empty(),
    }
}

/// The items of a document that is an array.
pub open spec fn items_of(doc: JsonModel) -> Option<Seq<JsonModel>> {
    match doc {
        JsonModel::Array(a) => Some(a),
        _ => None,
    }
}

/// The text of a document that is a string.
pub open spec fn text_of(doc: JsonModel) -> Option<Seq<char>> {
    match doc {
        JsonModel::Str(s) => Some(s),
        _ => None,
    }
}

/// `Value::Null`.
#[verifier::external_body]
pub(crate) fn json_null() -> (v: serde_json::Value)
    ensures
        value_model(v) == JsonModel::Null,
{
    serde_json::Value::Null
}

/// `Value::String`: the document that is the given string.
#[verifier::external_body]
pub(crate) fn json_string(s: String) -> (v: serde_json::Value)
    ensures
        value_model(v) == JsonModel::Str(s@),
{
    serde_json::Value::String(s)
}

/// `Value::Array`: the document that is the array of the given documents.
#[verifier::external_body]
pub(crate) fn json_array(items: Vec<serde_json::Value>) -> (v: serde_json::Value)
    ensures
        value_model(v) == JsonModel::Array(models(items@)),
{
    serde_json::Value::Array(items)
}

/// Assignment through `IndexMut<&str>` of `Value`: sets the member `key` of an
/// object to `item`, adding it if the object has none; `Null` counts as the
/// empty object. On any other document the outside code panics.
#[verifier::external_body]
pub(crate) fn json_set(doc: &mut serde_json::Value, key: &str, item: serde_json::Value)
    requires
        value_model(*old(doc)) is Object || value_model(*old(doc)) is Null,
    ensures
        value_model(*final(doc)) == JsonModel::Object(
            members(value_model(*old(doc))).insert(key@, value_model(item)),
        ),
{
    doc[key] = item;
}

/// `Index<&str>` of `Value`: the member of that name, or `Null` where the
/// document is no object or has no such member.
#[verifier::external_body]
pub(crate) fn json_index<'a>(doc: &'a serde_json::Value, key: &str) -> (v: &'a serde_json::Value)
    ensures
        value_model(*v) == member(value_model(*doc), key@),
{
    &doc[key]
}

/// `Value::as_str`: the text of a string document, and nothing for any other.
#[verifier::external_body]
pub(crate) fn json_as_str<'a>(doc: &'a serde_json::Value) -> (s: Option<&'a str>)
    ensures
        match s {
            Some(t) => text_of(value_model(*doc)) == Some(t@),
            None => text_of(value_model(*doc)) is None,
        },
{
    doc.as_str()
}

/// `Value::as_array`: the items of an array document, and nothing for any
/// other.
#[verifier::external_body]
pub(crate) fn json_as_array<'a>(doc: &'a serde_json::Value) -> (a: Option<
    &'a Vec<serde_json::Value>,
>)
    ensures
        match a {
            Some(items) => items_of(value_model(*doc)) == Some(models(items@)),
            None => items_of(value_model(*doc)) is None,
        },
{
    doc.as_array()
}

/// `Clone` of `Value`: a document with the same content.
#[verifier::external_body]
pub(crate) fn json_clone(doc: &serde_json::Value) -> (v: serde_json::Value)
    ensures
        value_model(v) == value_model(*doc),
{
    doc.clone()
}

/// Copies a vector of documents, item by item.
pub fn clone_all(items: &Vec<serde_json::Value>) -> (copies: Vec<serde_json::Value>)
    ensures
        models(copies@) == models(items@),
{
    let mut copies: Vec<serde_json::Value> = Vec::new();
    let mut i: usize = 0;
    while i < items.len()
        invariant
            i <= items.len(),
            copies@.len() == i,
            forall|j: int|
                0 <= j < i ==> value_model(#[trigger] copies@[j]) == value_model(items@[j]),
        decreases items.len() - i,
    {
        copies.push(json_clone(&items[i]));
        i += 1;
    }
    assert(models(copies@) =~= models(items@));
    copies
}

/// What `serde_json::from_str` makes of a text read as one document of any
/// shape: the document, or nothing where it reports an error.
pub uninterp spec fn parsed_value(text: Seq<char>) -> Option<JsonModel>;

/// What `serde_json::from_str` makes of a text read as a sequence of
/// documents: the sequence, or nothing where it reports an error.
pub uninterp spec fn parsed_array(text: Seq<char>) -> Option<Seq<JsonModel>>;

/// What `serde_json::to_string_pretty` writes for one document, or nothing
/// where it reports an error.
pub uninterp spec fn pretty_value(doc: JsonModel) -> Option<Seq<char>>;

/// What `serde_json::to_string_pretty` writes for a sequence of documents, or
/// nothing where it reports an error.
pub uninterp spec fn pretty_array(docs: Seq<JsonModel>) -> Option<Seq<char>>;

/// `serde_json::from_str` at `Value`. The result is a function of the text
/// alone, named [`parsed_value`].
#[verifier::external_body]
pub(crate) fn parse_value(text: &str) -> (r: Result<serde_json::Value, serde_json::Error>)
    ensures
        match r {
            Ok(v) => parsed_value(text@) == Some(value_model(v)),
            Err(_) => parsed_value(text@) is None,
        },
{
    serde_json::from_str::<serde_json::Value>(text)
}

/// `serde_json::from_str` at `Vec<Value>`. The result is a function of the
/// text alone, named [`parsed_array`].
#[verifier::external_body]
pub(crate) fn parse_array(text: &str) -> (r: Result<Vec<serde_json::Value>, serde_json::Error>)
    ensures
        match r {
            Ok(items) => parsed_array(text@) == Some(models(items@)),
            Err(_) => parsed_array(text@) is None,
        },
{
    serde_json::from_str::<Vec<serde_json::Value>>(text)
}

/// `serde_json::to_string_pretty` at `Value`. The result is a function of the
/// document's content alone, named [`pretty_value`].
#[verifier::external_body]
pub(crate) fn render_value(doc: &serde_json::Value) -> (r: Result<String, serde_json::Error>)
    ensures
        match r {
            Ok(s) => pretty_value(value_model(*doc)) == Some(s@),
            Err(_) => pretty_value(value_model(*doc)) is None,
        },
{
    serde_json::to_string_pretty(doc)
}

/// `serde_json::to_string_pretty` at `Vec<Value>`. The result is a function of
/// the documents' content alone, named [`pretty_array`].
#[verifier::external_body]
pub(crate) fn render_array(docs: &Vec<serde_json::Value>) -> (r: Result<
    String,
    serde_json::Error,
>)
    ensures
        match r {
            Ok(s) => pretty_array(models(docs@)) == Some(s@),
            Err(_) => pretty_array(models(docs@)) is None,
        },
{
    serde_json::to_string_pretty(docs)
}

/// `Display` of `serde_json::Error`: the message of a failed parse or render.
/// Nothing is claimed of the text.
#[verifier::external_body]
pub(crate) fn error_text(e: &serde_json::Error) -> String {
    e.to_string()
}

} // verus!
