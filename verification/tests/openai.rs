use bytes::Bytes;
use serde_json::Value;
use transformrs::openai::address;
use transformrs::openai::chat_request;
use transformrs::openai::request_body;
use transformrs::openai::ChatResponse;
use transformrs::AdapterError;
use transformrs::Key;
use transformrs::Malformed;
use transformrs::Message;
use transformrs::Provider;

fn parsed(text: &str) -> Value {
    serde_json::from_str(text).unwrap()
}

fn chat_response(body: &str) -> ChatResponse {
    ChatResponse::new(Bytes::from(body.as_bytes().to_vec()))
}

#[test]
fn chat_address() {
    let key = Key::new(Provider::OpenAI, "k".to_string());
    assert_eq!(address(&key), "https://api.openai.com/v1/chat/completions");
    let key = Key::new(Provider::Hyperbolic, "k".to_string());
    assert_eq!(address(&key), "https://api.hyperbolic.xyz/v1/chat/completions");
}

#[test]
fn chat_body() {
    let messages = vec![
        Message::from_str("system", "You are a helpful assistant."),
        Message::from_str("user", "This is a test. Please respond with 'hello world'."),
    ];
    assert_eq!(
        request_body("meta-llama/Llama-3.3-70B-Instruct", &messages),
        parsed(
            r#"{"model":"meta-llama/Llama-3.3-70B-Instruct","messages":[
                {"role":"system","content":"You are a helpful assistant."},
                {"role":"user","content":"This is a test. Please respond with 'hello world'."}]}"#
        )
    );
    assert_eq!(request_body("m", &vec![]), parsed(r#"{"model":"m","messages":[]}"#));
}

#[test]
fn chat_request_parts() {
    let key = Key::new(Provider::DeepInfra, "k".to_string());
    let messages = vec![Message::from_str("user", "hi")];
    let request = chat_request(&key, "m", &messages);
    assert_eq!(request.address, "https://api.deepinfra.com/v1/chat/completions");
    assert_eq!(request.headers.len(), 2);
    assert_eq!(request.headers[0].name, "Authorization");
    assert_eq!(request.headers[0].value, "Bearer k");
    assert_eq!(
        request.body,
        parsed(r#"{"model":"m","messages":[{"role":"user","content":"hi"}]}"#)
    );
}

#[test]
fn chat_first_choice() {
    let body = r#"{"id":"c","choices":[
        {"index":0,"message":{"role":"assistant","content":"hello world"}},
        {"index":1,"message":{"role":"assistant","content":"second"}}]}"#;
    assert_eq!(chat_response(body).structured(), Ok("hello world".to_string()));
    assert_eq!(ChatResponse::first_content(&parsed(body)), Ok("hello world".to_string()));
}

#[test]
fn chat_malformed_responses() {
    let missing_choice = Err(AdapterError::MalformedResponse(Malformed::MissingChoice));
    let missing_content = Err(AdapterError::MalformedResponse(Malformed::MissingContent));
    assert_eq!(chat_response("{}").structured(), missing_choice);
    assert_eq!(chat_response(r#"{"choices":[]}"#).structured(), missing_choice);
    assert_eq!(chat_response(r#"{"choices":{"0":1}}"#).structured(), missing_choice);
    assert_eq!(chat_response(r#"{"choices":[{}]}"#).structured(), missing_content);
    assert_eq!(chat_response(r#"{"choices":[{"message":{}}]}"#).structured(), missing_content);
    assert_eq!(
        chat_response(r#"{"choices":[{"message":{"content":null}}]}"#).structured(),
        missing_content
    );
    assert_eq!(chat_response("not json").structured(), Err(AdapterError::InvalidJson));
}

#[test]
fn chat_raw_value_and_bytes() {
    let held = chat_response(r#"{"choices": []}"#);
    assert_eq!(&held.bytes()[..], br#"{"choices": []}"#);
    assert_eq!(held.raw_value(), Ok(parsed(r#"{"choices":[]}"#)));
    assert_eq!(chat_response("{").raw_value(), Err(AdapterError::InvalidJson));
}
