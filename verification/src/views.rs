//! Views of the values that the adapters hand out: what a contract says of an optional
//! text, or of a result that holds a text, a buffer or a JSON value.

use crate::error::AdapterError;
use crate::error::AdapterErrorView;
use crate::json::JsonView;
use crate::outside::bytes_contents;
use crate::outside::value_document;
use vstd::prelude::*;

verus! {

/// The view of an optional text.
pub open spec fn text_view(text: Option<String>) -> Option<Seq<char>> {
    match text {
        Some(text) => Some(text@),
        None => None,
    }
}

/// The view of an optional borrowed text.
pub open spec fn str_view(text: Option<&str>) -> Option<Seq<char>> {
    match text {
        Some(text) => Some(text@),
        None => None,
    }
}

/// The view of a text or the error in its place.
pub open spec fn text_result_view(result: Result<String, AdapterError>) -> Result<
    Seq<char>,
    AdapterErrorView,
> {
    match result {
        Ok(text) => Ok(text@),
        Err(error) => Err(error@),
    }
}

/// The document of a body or the error in its place.
pub open spec fn document_result_view(result: Result<serde_json::Value, AdapterError>) -> Result<
    JsonView,
    AdapterErrorView,
> {
    match result {
        Ok(value) => Ok(value_document(value)),
        Err(error) => Err(error@),
    }
}

/// The view of a borrowed text or the error in its place.
pub open spec fn str_result_view(result: Result<&str, AdapterError>) -> Result<
    Seq<char>,
    AdapterErrorView,
> {
    match result {
        Ok(text) => Ok(text@),
        Err(error) => Err(error@),
    }
}

/// The contents of a buffer or the error in its place.
pub open spec fn bytes_result_view(result: Result<bytes::Bytes, AdapterError>) -> Result<
    Seq<u8>,
    AdapterErrorView,
> {
    match result {
        Ok(buffer) => Ok(bytes_contents(buffer)),
        Err(error) => Err(error@),
    }
}

/// The document of an optional value.
pub open spec fn parsed_view(parsed: Option<&serde_json::Value>) -> Option<JsonView> {
    match parsed {
        Some(value) => Some(value_document(*value)),
        None => None,
    }
}

} // verus!
