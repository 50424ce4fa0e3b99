//! Providers, credentials and the request headers they share.

use crate::error::AdapterError;
use crate::error::AdapterErrorView;
use crate::json::JsonView;
use crate::outside::value_document;
use vstd::prelude::*;
use vstd::string::StringExecFns;

verus! {

/// A vendor whose HTTP API the adapters can address.
#[derive(Clone, Copy, Debug, PartialEq, Eq, Hash, Structural)]
pub enum Provider {
    DeepInfra,
    Google,
    Groq,
    Hyperbolic,
    OpenAI,
}

/// A provider together with the credential that gives access to it.
#[derive(Debug)]
pub struct Key {
    pub provider: Provider,
    pub key: String,
}

/// A request header: its name and its value.
#[derive(Debug)]
pub struct Header {
    pub name: String,
    pub value: String,
}

impl Provider {
    /// The base of the provider's endpoints: scheme and host, without a trailing slash.
    pub open spec fn spec_domain(self) -> Seq<char> {
        match self {
            Provider::DeepInfra => "https://api.deepinfra.com"@,
            Provider::Google => "https://generativelanguage.googleapis.com"@,
            Provider::Groq => "https://api.groq.com/openai"@,
            Provider::Hyperbolic => "https://api.hyperbolic.xyz"@,
            Provider::OpenAI => "https://api.openai.com"@,
        }
    }

    /// The provider's name as it is written in messages.
    pub open spec fn spec_name(self) -> Seq<char> {
        match self {
            Provider::DeepInfra => "DeepInfra"@,
            Provider::Google => "Google"@,
            Provider::Groq => "Groq"@,
            Provider::Hyperbolic => "Hyperbolic"@,
            Provider::OpenAI => "OpenAI"@,
        }
    }

    pub fn domain(&self) -> (domain: String)
        ensures
            domain@ == self.spec_domain(),
    {
        match self {
            Provider::DeepInfra => String::from_str("https://api.deepinfra.com"),
            Provider::Google => String::from_str("https://generativelanguage.googleapis.com"),
            Provider::Groq => String::from_str("https://api.groq.com/openai"),
            Provider::Hyperbolic => String::from_str("https://api.hyperbolic.xyz"),
            Provider::OpenAI => String::from_str("https://api.openai.com"),
        }
    }

    pub fn name(&self) -> (name: String)
        ensures
            name@ == self.spec_name(),
    {
        match self {
            Provider::DeepInfra => String::from_str("DeepInfra"),
            Provider::Google => String::from_str("Google"),
            Provider::Groq => String::from_str("Groq"),
            Provider::Hyperbolic => String::from_str("Hyperbolic"),
            Provider::OpenAI => String::from_str("OpenAI"),
        }
    }
}

impl Key {
    pub fn new(provider: Provider, key: String) -> (result: Key)
        ensures
            result.provider == provider,
            result.key@ == key@,
    {
        Key { provider, key }
    }
}

impl View for Header {
    type V = (Seq<char>, Seq<char>);

    open spec fn view(&self) -> (Seq<char>, Seq<char>) {
        (self.name@, self.value@)
    }
}

/// The headers that every request carries: the credential as a bearer token, then the
/// content type of the body.
pub open spec fn spec_request_headers(credential: Seq<char>) -> Seq<(Seq<char>, Seq<char>)> {
    seq![
        ("Authorization"@, "Bearer "@ + credential),
        ("Content-Type"@, "application/json"@),
    ]
}

/// The views of `headers`, in order.
pub open spec fn headers_view(headers: Seq<Header>) -> Seq<(Seq<char>, Seq<char>)> {
    Seq::new(headers.len(), |i: int| headers[i]@)
}

pub fn request_headers(key: &Key) -> (headers: Vec<Header>)
    ensures
        headers_view(headers@) == spec_request_headers(key.key@),
{
    let mut headers: Vec<Header> = Vec::new();
    let mut bearer = String::from_str("Bearer ");
    bearer.append(key.key.as_str());
    headers.push(Header { name: String::from_str("Authorization"), value: bearer });
    headers.push(
        Header {
            name: String::from_str("Content-Type"),
            value: String::from_str("application/json"),
        },
    );
    assert(headers_view(headers@) =~= spec_request_headers(key.key@));
    headers
}

/// Everything that is sent to a provider in one call: a POST to `address` with the
/// given headers and the JSON text of `body`.
#[derive(Debug)]
pub struct Request {
    pub address: String,
    pub headers: Vec<Header>,
    pub body: serde_json::Value,
}

/// A `Request` as a mathematical value.
pub struct RequestView {
    pub address: Seq<char>,
    pub headers: Seq<(Seq<char>, Seq<char>)>,
    pub body: JsonView,
}

impl View for Request {
    type V = RequestView;

    open spec fn view(&self) -> RequestView {
        RequestView {
            address: self.address@,
            headers: headers_view(self.headers@),
            body: value_document(self.body),
        }
    }
}

/// The view of a request or the error in its place.
pub open spec fn request_result_view(result: Result<Request, AdapterError>) -> Result<
    RequestView,
    AdapterErrorView,
> {
    match result {
        Ok(request) => Ok(request@),
        Err(error) => Err(error@),
    }
}

} // verus!
