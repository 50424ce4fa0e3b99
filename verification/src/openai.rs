//! Chat completion over the API that OpenAI defined and other providers offer too.

use crate::error::AdapterError;
use crate::error::AdapterErrorView;
use crate::error::Malformed;
use crate::json::JsonView;
use crate::outside::bytes_as_slice;
use crate::outside::bytes_contents;
use crate::outside::json_parsed;
use crate::outside::value_as_array;
use crate::outside::value_as_str;
use crate::outside::value_document;
use crate::outside::value_empty_object;
use crate::outside::value_from_array;
use crate::outside::value_from_slice;
use crate::outside::value_from_string;
use crate::outside::value_get;
use crate::outside::value_set;
use crate::provider::request_headers;
use crate::provider::spec_request_headers;
use crate::provider::Key;
use crate::provider::Provider;
use crate::provider::Request;
use crate::provider::RequestView;
use crate::views::document_result_view;
use crate::views::text_result_view;
use vstd::prelude::*;
use vstd::string::StringExecFns;

verus! {

/// One turn of a conversation: who speaks, and what.
#[derive(Debug)]
pub struct Message {
    pub role: String,
    pub content: String,
}

/// A `Message` as a mathematical value.
pub struct MessageView {
    pub role: Seq<char>,
    pub content: Seq<char>,
}

impl View for Message {
    type V = MessageView;

    open spec fn view(&self) -> MessageView {
        MessageView { role: self.role@, content: self.content@ }
    }
}

impl Message {
    pub fn from_str(role: &str, content: &str) -> (message: Message)
        ensures
            message@ == (MessageView { role: role@, content: content@ }),
    {
        Message { role: String::from_str(role), content: String::from_str(content) }
    }
}

/// The endpoint of a chat completion: the same path under each provider's domain.
pub open spec fn spec_address(provider: Provider) -> Seq<char> {
    provider.spec_domain() + "/v1/chat/completions"@
}

/// A message as it stands in a request.
pub open spec fn message_document(message: MessageView) -> JsonView {
    JsonView::Object(
        map![
            "role"@ => JsonView::String(message.role),
            "content"@ => JsonView::String(message.content),
        ],
    )
}

/// The body of a chat completion request: the model, and the messages in their order.
pub open spec fn spec_request_body(model: Seq<char>, messages: Seq<MessageView>) -> JsonView {
    JsonView::Object(
        map![
            "model"@ => JsonView::String(model),
            "messages"@ => JsonView::Array(
                Seq::new(messages.len(), |i: int| message_document(messages[i])),
            ),
        ],
    )
}

/// The views of `messages`, in order.
pub open spec fn messages_view(messages: Seq<Message>) -> Seq<MessageView> {
    Seq::new(messages.len(), |i: int| messages[i]@)
}

/// The request for a chat completion.
pub open spec fn spec_request(
    provider: Provider,
    credential: Seq<char>,
    model: Seq<char>,
    messages: Seq<MessageView>,
) -> RequestView {
    RequestView {
        address: spec_address(provider),
        headers: spec_request_headers(credential),
        body: spec_request_body(model, messages),
    }
}

/// The text of the first choice's message in a response document. The list of choices
/// has to be there and to hold an item; that item has to hold a message whose content
/// is a string.
pub open spec fn spec_first_content(document: JsonView) -> Result<Seq<char>, AdapterErrorView> {
    match document.member("choices"@) {
        Some(JsonView::Array(choices)) if choices.len() > 0 => match choices[0].member(
            "message"@,
        ) {
            Some(message) if message.text_member("content"@) is Some => Ok(
                message.text_member("content"@)->0,
            ),
            _ => Err(AdapterErrorView::MalformedResponse(Malformed::MissingContent)),
        },
        _ => Err(AdapterErrorView::MalformedResponse(Malformed::MissingChoice)),
    }
}

/// The answer in a response, given what its body parses to.
pub open spec fn spec_answer_given(parsed: Option<JsonView>) -> Result<
    Seq<char>,
    AdapterErrorView,
> {
    match parsed {
        Some(document) => spec_first_content(document),
        None => Err(AdapterErrorView::InvalidJson),
    }
}

pub fn address(key: &Key) -> (address: String)
    ensures
        address@ == spec_address(key.provider),
{
    let mut address = key.provider.domain();
    address.append("/v1/chat/completions");
    address
}

/// The body of the request that asks `model` to continue `messages`.
pub fn request_body(model: &str, messages: &Vec<Message>) -> (body: serde_json::Value)
    ensures
        value_document(body) == spec_request_body(model@, messages_view(messages@)),
{
    let mut items: Vec<serde_json::Value> = Vec::new();
    let mut i: usize = 0;
    while i < messages.len()
        invariant
            i <= messages.len(),
            items@.len() == i,
            forall|j: int|
                0 <= j < i ==> value_document(#[trigger] items@[j]) == message_document(
                    messages@[j]@,
                ),
        decreases messages.len() - i,
    {
        let mut item = value_empty_object();
        value_set(&mut item, "role", value_from_string(messages[i].role.clone()));
        value_set(&mut item, "content", value_from_string(messages[i].content.clone()));
        assert(value_document(item)->Object_0 =~= message_document(messages@[i as int]@)->Object_0);
        items.push(item);
        i = i + 1;
    }
    let ghost listed = Seq::new(items@.len(), |i: int| value_document(items@[i]));
    assert(listed =~= Seq::new(
        messages@.len(),
        |i: int| message_document(messages_view(messages@)[i]),
    ));
    let mut body = value_empty_object();
    value_set(&mut body, "model", value_from_string(String::from_str(model)));
    value_set(&mut body, "messages", value_from_array(items));
    assert(value_document(body)->Object_0 =~= spec_request_body(
        model@,
        messages_view(messages@),
    )->Object_0);
    body
}

/// The request that asks `key`'s provider for a chat completion. Sending it, as a
/// POST, is left to the caller, who hands the response body to `ChatResponse::new`.
pub fn chat_request(key: &Key, model: &str, messages: &Vec<Message>) -> (request: Request)
    ensures
        request@ == spec_request(key.provider, key.key@, model@, messages_view(messages@)),
{
    Request {
        address: address(key),
        headers: request_headers(key),
        body: request_body(model, messages),
    }
}

/// The body of a provider's response to a chat completion request.
pub struct ChatResponse {
    resp: bytes::Bytes,
}

impl ChatResponse {
    /// The response with the body `resp`.
    pub fn new(resp: bytes::Bytes) -> (response: ChatResponse)
        ensures
            response.body() == bytes_contents(resp),
    {
        ChatResponse { resp }
    }

    /// The bytes of the body.
    pub closed spec fn body(&self) -> Seq<u8> {
        bytes_contents(self.resp)
    }

    pub fn bytes(&self) -> (resp: &bytes::Bytes)
        ensures
            bytes_contents(*resp) == self.body(),
    {
        &self.resp
    }

    /// The body as a JSON value, where it is JSON text.
    pub fn raw_value(&self) -> (result: Result<serde_json::Value, AdapterError>)
        ensures
            document_result_view(result) == match json_parsed(self.body()) {
                Some(document) => Ok::<JsonView, AdapterErrorView>(document),
                None => Err(AdapterErrorView::InvalidJson),
            },
    {
        match value_from_slice(bytes_as_slice(&self.resp)) {
            Ok(value) => Ok(value),
            Err(_) => Err(AdapterError::InvalidJson),
        }
    }

    /// The text of the first choice's message in a response document.
    pub fn first_content(document: &serde_json::Value) -> (result: Result<String, AdapterError>)
        ensures
            text_result_view(result) == spec_first_content(value_document(*document)),
    {
        let choices = match value_get(document, "choices") {
            Some(choices) => value_as_array(choices),
            None => None,
        };
        let first = match choices {
            Some(choices) if choices.len() > 0 => &choices[0],
            _ => {
                return Err(AdapterError::MalformedResponse(Malformed::MissingChoice));
            },
        };
        let content = match value_get(first, "message") {
            Some(message) => match value_get(message, "content") {
                Some(content) => value_as_str(content),
                None => None,
            },
            None => None,
        };
        match content {
            Some(content) => Ok(String::from_str(content)),
            None => Err(AdapterError::MalformedResponse(Malformed::MissingContent)),
        }
    }

    /// The answer in the response: the text of the first choice's message.
    pub fn structured(&self) -> (result: Result<String, AdapterError>)
        ensures
            text_result_view(result) == spec_answer_given(json_parsed(self.body())),
    {
        match value_from_slice(bytes_as_slice(&self.resp)) {
            Ok(value) => ChatResponse::first_content(&value),
            Err(_) => Err(AdapterError::InvalidJson),
        }
    }
}

} // verus!
