use transformrs::request_headers;
use transformrs::Key;
use transformrs::Provider;

#[test]
fn domains() {
    assert_eq!(Provider::DeepInfra.domain(), "https://api.deepinfra.com");
    assert_eq!(Provider::Hyperbolic.domain(), "https://api.hyperbolic.xyz");
    assert_eq!(Provider::OpenAI.domain(), "https://api.openai.com");
    assert_eq!(Provider::Google.domain(), "https://generativelanguage.googleapis.com");
    assert_eq!(Provider::Groq.domain(), "https://api.groq.com/openai");
}

#[test]
fn names() {
    assert_eq!(Provider::DeepInfra.name(), "DeepInfra");
    assert_eq!(Provider::Google.name(), "Google");
    assert_eq!(Provider::Groq.name(), "Groq");
    assert_eq!(Provider::Hyperbolic.name(), "Hyperbolic");
    assert_eq!(Provider::OpenAI.name(), "OpenAI");
}

#[test]
fn key_holds_provider_and_credential() {
    let key = Key::new(Provider::Hyperbolic, "abc".to_string());
    assert_eq!(key.provider, Provider::Hyperbolic);
    assert_eq!(key.key, "abc");
}

#[test]
fn shared_headers() {
    let key = Key::new(Provider::Google, "abc".to_string());
    let headers = request_headers(&key);
    assert_eq!(headers.len(), 2);
    assert_eq!(headers[0].name, "Authorization");
    assert_eq!(headers[0].value, "Bearer abc");
    assert_eq!(headers[1].name, "Content-Type");
    assert_eq!(headers[1].value, "application/json");
}
