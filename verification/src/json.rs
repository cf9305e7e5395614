//! JSON text, as far as the envelope codec needs it: one object per line, read
//! field by field, and strings quoted for writing. The `serde_json` crate does
//! the reading and the quoting; what is taken on trust about it is stated on
//! the private functions of this module.

use crate::text::single_line;
use serde_json::Value;
use vstd::prelude::*;

verus! {

/// `serde_json::Value`: any JSON value. It is only carried from the parser to
/// [`field`].
#[verifier::external_type_specification]
#[verifier::external_body]
pub struct ExJsonValue(Value);

/// `serde_json::Map`: the fields of a JSON object. What it holds is named by
/// [`fields_of`].
#[verifier::external_type_specification]
#[verifier::external_body]
#[verifier::reject_recursive_types(K)]
#[verifier::reject_recursive_types(V)]
pub struct ExJsonMap<K, V>(serde_json::Map<K, V>);

/// What the codec tells apart in the value of a field.
#[derive(Debug, Clone, PartialEq, Eq)]
pub enum JsonField {
    /// `null`.
    Null,
    /// A number, with its value where that is a whole number from 0 to
    /// 2^64 - 1.
    Number(Option<u64>),
    /// A string, with its escapes resolved.
    Text(String),
    /// Any other value: `true`, `false`, an array, an object.
    Other,
}

/// The mathematical value of a [`JsonField`].
pub enum JsonFieldView {
    Null,
    Number(Option<u64>),
    Text(Seq<char>),
    Other,
}

impl View for JsonField {
    type V = JsonFieldView;

    open spec fn view(&self) -> JsonFieldView {
        match *self {
            JsonField::Null => JsonFieldView::Null,
            JsonField::Number(n) => JsonFieldView::Number(n),
            JsonField::Text(text) => JsonFieldView::Text(text@),
            JsonField::Other => JsonFieldView::Other,
        }
    }
}

/// The fields of a parsed object, by key.
pub type JsonFields = Map<Seq<char>, JsonFieldView>;

/// What reading `line` as one JSON object gives: its fields, or the parser's
/// complaint. Names what `serde_json::from_str` returns for a
/// `Map<String, Value>`, the error taken as its `Display` text.
pub uninterp spec fn json_object(line: Seq<char>) -> Result<JsonFields, Seq<char>>;

/// The fields that a parsed object holds: names the contents of a
/// `serde_json::Map`, each value as a [`JsonField`] sees it.
pub uninterp spec fn fields_of(object: serde_json::Map<String, Value>) -> JsonFields;

/// `text` as a JSON string: in double quotes, with the escapes that JSON asks
/// for. Names what `serde_json::to_string` returns for a `str`.
pub uninterp spec fn json_string(text: Seq<char>) -> Seq<char>;

/// The value under `key`, if the object has that key.
pub open spec fn field_at(fields: JsonFields, key: Seq<char>) -> Option<JsonFieldView> {
    if fields.dom().contains(key) {
        Some(fields[key])
    } else {
        None
    }
}

/// The value of an optional field.
pub open spec fn field_view(field: Option<JsonField>) -> Option<JsonFieldView> {
    match field {
        Some(value) => Some(value@),
        None => None,
    }
}

/// Calls `serde_json::from_str` for a `Map<String, Value>`. The result is a
/// function of the line alone and is only named: the object's fields where the
/// line is one JSON object, else the text of the crate's error.
#[verifier::external_body]
pub(crate) fn parse_object(line: &str) -> (r: Result<serde_json::Map<String, Value>, String>)
    ensures
        match r {
            Ok(object) => json_object(line@) == Ok::<JsonFields, Seq<char>>(fields_of(object)),
            Err(why) => json_object(line@) == Err::<JsonFields, Seq<char>>(why@),
        },
{
    match serde_json::from_str::<serde_json::Map<String, Value>>(line) {
        Ok(object) => Ok(object),
        Err(why) => Err(why.to_string()),
    }
}

/// Calls `Map::get` and tells the variants of the `Value` apart; of a number it
/// takes what `Number::as_u64` gives, which is `None` for a negative or
/// fractional one. The contract says that this is the value that [`fields_of`]
/// holds under the key, and `None` where the object has no such key.
#[verifier::external_body]
pub(crate) fn field(object: &serde_json::Map<String, Value>, key: &str) -> (r: Option<JsonField>)
    ensures
        field_view(r) == field_at(fields_of(*object), key@),
{
    match object.get(key) {
        None => None,
        Some(Value::Null) => Some(JsonField::Null),
        Some(Value::Number(n)) => Some(JsonField::Number(n.as_u64())),
        Some(Value::String(text)) => Some(JsonField::Text(text.clone())),
        Some(_) => Some(JsonField::Other),
    }
}

/// Calls `serde_json::to_string` on a `str`, which cannot fail: it writes
/// into memory, and a string always serializes. The result is a function of
/// the text alone and is named. One fact is stated of it: the crate escapes
/// every character below U+0020, so the result holds no line break.
#[verifier::external_body]
pub(crate) fn quote(text: &str) -> (r: String)
    ensures
        r@ == json_string(text@),
        single_line(r@),
{
    serde_json::to_string(text).unwrap_or_default()
}

} // verus!
