//! What an adapter reports instead of a result.

use vstd::prelude::*;
use vstd::string::StringExecFns;

verus! {

/// The way in which a provider's response departs from the shape that it documents.
#[derive(Clone, Copy, Debug, PartialEq, Eq, Hash, Structural)]
pub enum Malformed {
    /// The audio member is missing or is no string.
    MissingAudio,
    /// The request id is missing or is no string.
    MissingRequestId,
    /// The output format is missing or is no string.
    MissingOutputFormat,
    /// The time points are missing or are no array.
    MissingTimepoints,
    /// The audio text does not start with the MIME prefix that the provider writes.
    MissingPrefix,
    /// The audio text is no base64.
    InvalidBase64,
    /// The list of choices is missing or empty.
    MissingChoice,
    /// The first choice holds no message with a text content.
    MissingContent,
}

/// The failure of a call.
#[derive(Clone, Debug, PartialEq, Eq)]
pub enum AdapterError {
    /// The provider does not offer the operation that was asked for.
    UnsupportedProvider,
    /// The response body is no JSON text.
    InvalidJson,
    /// The provider answered with an error of its own; the text is its message.
    Provider(String),
    /// The response does not have the documented shape.
    MalformedResponse(Malformed),
}

/// An `AdapterError` as a mathematical value.
pub enum AdapterErrorView {
    UnsupportedProvider,
    InvalidJson,
    Provider(Seq<char>),
    MalformedResponse(Malformed),
}

impl View for AdapterError {
    type V = AdapterErrorView;

    open spec fn view(&self) -> AdapterErrorView {
        match self {
            AdapterError::UnsupportedProvider => AdapterErrorView::UnsupportedProvider,
            AdapterError::InvalidJson => AdapterErrorView::InvalidJson,
            AdapterError::Provider(message) => AdapterErrorView::Provider(message@),
            AdapterError::MalformedResponse(what) => AdapterErrorView::MalformedResponse(*what),
        }
    }
}

impl Malformed {
    /// A short description of the defect.
    pub open spec fn spec_describe(self) -> Seq<char> {
        match self {
            Malformed::MissingAudio => "no audio in the response"@,
            Malformed::MissingRequestId => "no request id in the response"@,
            Malformed::MissingOutputFormat => "no output format in the response"@,
            Malformed::MissingTimepoints => "no time points in the response"@,
            Malformed::MissingPrefix => "no mp3 prefix before the audio"@,
            Malformed::InvalidBase64 => "the audio is not valid base64"@,
            Malformed::MissingChoice => "no choice in the response"@,
            Malformed::MissingContent => "no message content in the first choice"@,
        }
    }

    pub fn describe(&self) -> (text: String)
        ensures
            text@ == self.spec_describe(),
    {
        match self {
            Malformed::MissingAudio => String::from_str("no audio in the response"),
            Malformed::MissingRequestId => String::from_str("no request id in the response"),
            Malformed::MissingOutputFormat => String::from_str("no output format in the response"),
            Malformed::MissingTimepoints => String::from_str("no time points in the response"),
            Malformed::MissingPrefix => String::from_str("no mp3 prefix before the audio"),
            Malformed::InvalidBase64 => String::from_str("the audio is not valid base64"),
            Malformed::MissingChoice => String::from_str("no choice in the response"),
            Malformed::MissingContent => String::from_str("no message content in the first choice"),
        }
    }
}

impl AdapterErrorView {
    /// The text that describes the error to a reader.
    pub open spec fn message(self) -> Seq<char> {
        match self {
            AdapterErrorView::UnsupportedProvider => "unsupported provider"@,
            AdapterErrorView::InvalidJson => "the response is not JSON"@,
            AdapterErrorView::Provider(message) => message,
            AdapterErrorView::MalformedResponse(what) => "malformed response: "@
                + what.spec_describe(),
        }
    }
}

impl AdapterError {
    /// The text that describes the error to a reader. For an error of the provider's
    /// own it is the provider's message, unchanged.
    pub fn message(&self) -> (text: String)
        ensures
            text@ == self@.message(),
    {
        match self {
            AdapterError::UnsupportedProvider => String::from_str("unsupported provider"),
            AdapterError::InvalidJson => String::from_str("the response is not JSON"),
            AdapterError::Provider(message) => message.clone(),
            AdapterError::MalformedResponse(what) => {
                let mut text = String::from_str("malformed response: ");
                let detail = what.describe();
                text.append(detail.as_str());
                text
            },
        }
    }
}

} // verus!
