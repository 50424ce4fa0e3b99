//! The calls into `serde_json`, `base64` and `bytes`, each with the contract that the
//! rest of the library relies on. Nothing in this file is proved.

use crate::json::JsonView;
use crate::json::NumberView;
use base64::Engine;
use vstd::prelude::*;

verus! {

#[verifier::external_type_specification]
#[verifier::external_body]
pub struct ExValue(serde_json::Value);

#[verifier::external_type_specification]
#[verifier::external_body]
pub struct ExJsonError(serde_json::Error);

#[verifier::external_type_specification]
#[verifier::external_body]
pub struct ExBytes(bytes::Bytes);

#[verifier::external_type_specification]
#[verifier::external_body]
pub struct ExDecodeError(base64::DecodeError);

/// The document that a `serde_json::Value` holds: its tree, with each object as the map
/// from its members' names to their values.
pub uninterp spec fn value_document(value: serde_json::Value) -> JsonView;

/// What `serde_json::from_slice` reads from `text`: the document, or `None` where it
/// reports an error.
pub uninterp spec fn json_parsed(text: Seq<u8>) -> Option<JsonView>;

/// The compact JSON text that `serde_json` prints for a document. It keeps the members
/// of an object sorted by name, so the text depends on the document alone.
pub uninterp spec fn json_rendered(document: JsonView) -> Seq<char>;

/// The bytes that a `bytes::Bytes` holds.
pub uninterp spec fn bytes_contents(buffer: bytes::Bytes) -> Seq<u8>;

/// What the standard base64 engine decodes `text` to, or `None` where it reports an error.
pub uninterp spec fn base64_decoded(text: Seq<char>) -> Option<Seq<u8>>;

/// The text that the standard base64 engine encodes `data` to.
pub uninterp spec fn base64_encoded(data: Seq<u8>) -> Seq<char>;

/// `serde_json::from_slice` at type `Value`: the value it returns holds the document
/// named by `json_parsed`, and it fails exactly where that name is `None`.
#[verifier::external_body]
pub(crate) fn value_from_slice(text: &[u8]) -> (result: Result<serde_json::Value, serde_json::Error>)
    ensures
        match result {
            Ok(value) => json_parsed(text@) == Some(value_document(value)),
            Err(_) => json_parsed(text@) is None,
        },
{
    serde_json::from_slice::<serde_json::Value>(text)
}

/// `Value::get` with a string index: the member of that name where the value is an
/// object that has it, `None` for a missing name and for any value that is no object.
#[verifier::external_body]
pub(crate) fn value_get<'a>(value: &'a serde_json::Value, name: &str) -> (member: Option<
    &'a serde_json::Value,
>)
    ensures
        match member {
            Some(found) => value_document(*value).member(name@) == Some(value_document(*found)),
            None => value_document(*value).member(name@) is None,
        },
{
    value.get(name)
}

/// `Value::as_str`: the text of a string value, `None` for any other value.
#[verifier::external_body]
pub(crate) fn value_as_str<'a>(value: &'a serde_json::Value) -> (text: Option<&'a str>)
    ensures
        match text {
            Some(found) => value_document(*value).text() == Some(found@),
            None => value_document(*value).text() is None,
        },
{
    value.as_str()
}

/// `Value::as_array`: the items of an array value, in order, `None` for any other value.
#[verifier::external_body]
pub(crate) fn value_as_array<'a>(value: &'a serde_json::Value) -> (items: Option<
    &'a Vec<serde_json::Value>,
>)
    ensures
        match items {
            Some(found) => value_document(*value) == JsonView::Array(
                Seq::new(found@.len(), |i: int| value_document(found@[i])),
            ),
            None => !(value_document(*value) is Array),
        },
{
    value.as_array()
}

/// `Value`'s `Display`, through `to_string`: the compact JSON text of the document.
#[verifier::external_body]
pub(crate) fn value_to_string(value: &serde_json::Value) -> (text: String)
    ensures
        text@ == json_rendered(value_document(*value)),
{
    value.to_string()
}

/// `Value`'s `Clone`: a value that holds the same document.
#[verifier::external_body]
pub(crate) fn value_clone(value: &serde_json::Value) -> (copy: serde_json::Value)
    ensures
        value_document(copy) == value_document(*value),
{
    value.clone()
}

/// `Value::String`: the string value with the given text.
#[verifier::external_body]
pub(crate) fn value_from_string(text: String) -> (value: serde_json::Value)
    ensures
        value_document(value) == JsonView::String(text@),
{
    serde_json::Value::String(text)
}

/// `Value`'s `From<u64>`: the number value that holds the integer `n`.
#[verifier::external_body]
pub(crate) fn value_from_u64(n: u64) -> (value: serde_json::Value)
    ensures
        value_document(value) == JsonView::Number(NumberView::Integer(n as int)),
{
    serde_json::Value::from(n)
}

/// `Value::Array`: the array value with the given items, in order.
#[verifier::external_body]
pub(crate) fn value_from_array(items: Vec<serde_json::Value>) -> (value: serde_json::Value)
    ensures
        value_document(value) == JsonView::Array(
            Seq::new(items@.len(), |i: int| value_document(items@[i])),
        ),
{
    serde_json::Value::Array(items)
}

/// `Value::Object` of `Map::new`: the object with no member.
#[verifier::external_body]
pub(crate) fn value_empty_object() -> (value: serde_json::Value)
    ensures
        value_document(value) == JsonView::empty_object(),
{
    serde_json::Value::Object(serde_json::Map::new())
}

/// `Value`'s `IndexMut` with a string index, assigned to: on an object it sets the
/// member `name` to `member`, replacing one of that name, and leaves the others. It
/// panics on a value that is neither an object nor null, so only objects are admitted.
#[verifier::external_body]
pub(crate) fn value_set(value: &mut serde_json::Value, name: &str, member: serde_json::Value)
    requires
        value_document(*old(value)) is Object,
    ensures
        value_document(*final(value)) == value_document(*old(value)).with(
            name@,
            value_document(member),
        ),
{
    value[name] = member;
}

/// `Bytes`'s `From<Vec<u8>>`: a buffer that holds the vector's bytes.
#[verifier::external_body]
pub(crate) fn bytes_from_vec(data: Vec<u8>) -> (buffer: bytes::Bytes)
    ensures
        bytes_contents(buffer) == data@,
{
    bytes::Bytes::from(data)
}

/// `Bytes`'s `AsRef<[u8]>`: the buffer's bytes as a slice.
#[verifier::external_body]
pub(crate) fn bytes_as_slice(buffer: &bytes::Bytes) -> (data: &[u8])
    ensures
        data@ == bytes_contents(*buffer),
{
    buffer.as_ref()
}

/// `Bytes`'s `Clone`: a buffer that holds the same bytes.
#[verifier::external_body]
pub(crate) fn bytes_clone(buffer: &bytes::Bytes) -> (copy: bytes::Bytes)
    ensures
        bytes_contents(copy) == bytes_contents(*buffer),
{
    buffer.clone()
}

/// `Engine::decode` of the engine `STANDARD`: the bytes named by `base64_decoded`, and
/// an error exactly where that name is `None`.
#[verifier::external_body]
pub(crate) fn base64_decode(text: &str) -> (result: Result<Vec<u8>, base64::DecodeError>)
    ensures
        match result {
            Ok(data) => base64_decoded(text@) == Some(data@),
            Err(_) => base64_decoded(text@) is None,
        },
{
    base64::engine::general_purpose::STANDARD.decode(text)
}

/// `Engine::encode` of the engine `STANDARD`: the text named by `base64_encoded`, which
/// the same engine decodes to `data` again. It panics where the length of the text
/// does not fit in `usize`, so longer inputs are left out.
#[verifier::external_body]
pub(crate) fn base64_encode(data: &[u8]) -> (text: String)
    requires
        data@.len() <= usize::MAX / 4,
    ensures
        text@ == base64_encoded(data@),
        base64_decoded(text@) == Some(data@),
{
    base64::engine::general_purpose::STANDARD.encode(data)
}

} // verus!
