use base64::Engine;
use bytes::Bytes;
use serde_json::Value;
use transformrs::text_to_speech::address;
use transformrs::text_to_speech::headers;
use transformrs::text_to_speech::request_body;
use transformrs::text_to_speech::tts_request;
use transformrs::text_to_speech::Speech;
use transformrs::text_to_speech::SpeechResponse;
use transformrs::text_to_speech::TTSConfig;
use transformrs::AdapterError;
use transformrs::Key;
use transformrs::Malformed;
use transformrs::Provider;

fn key_for(provider: Provider) -> Key {
    Key::new(provider, "secret".to_string())
}

fn json(text: &str) -> Value {
    serde_json::from_str(text).unwrap()
}

fn response(provider: Provider, body: &str) -> SpeechResponse {
    SpeechResponse::new(provider, Bytes::from(body.as_bytes().to_vec()))
}

fn request_and_response(
    provider: Provider,
    config: &TTSConfig,
    model: Option<&str>,
    body: &str,
) -> Speech {
    let key = key_for(provider);
    let request = tts_request(&key, config, model, "Hello, world!").unwrap();
    assert!(request.address.starts_with("https://"));
    response(provider, body).structured().unwrap()
}

#[test]
fn test_tts_deepinfra() {
    let mut config = TTSConfig::default();
    config.voice = Some("am_echo".to_string());
    let model = Some("hexgrad/Kokoro-82M");
    let provider = Provider::DeepInfra;
    let body = r#"{"request_id":"r-1","output_format":"mp3","audio":"data:audio/mp3;base64,SUQzBAA="}"#;
    let speech = request_and_response(provider, &config, model, body);
    assert_eq!(speech.file_format, "mp3");
    let bytes = speech.audio.clone();
    assert!(bytes.len() > 0);
}

#[test]
fn test_tts_hyperbolic() {
    let config = TTSConfig::default();
    let model = None;
    let provider = Provider::Hyperbolic;
    let speech = request_and_response(provider, &config, model, r#"{"audio":"SUQzBAA="}"#);
    let bytes = speech.audio.clone();
    assert!(bytes.len() > 0);
}

#[test]
fn test_tts_openai() {
    let mut config = TTSConfig::default();
    config.voice = Some("alloy".to_string());
    let model = Some("tts-1");
    let provider = Provider::OpenAI;
    let speech = request_and_response(provider, &config, model, "ID3\u{4}raw audio");
    assert_eq!(&speech.audio[..], "ID3\u{4}raw audio".as_bytes());
}

#[test]
fn test_tts_google() {
    let mut config = TTSConfig::default();
    config.voice = Some("en-US-Studio-Q".to_string());
    config.language_code = Some("en-US".to_string());
    let model = None;
    let provider = Provider::Google;
    let body = r#"{"audioContent":"SUQzBAA=","timepoints":[]}"#;
    let speech = request_and_response(provider, &config, model, body);
    assert_eq!(&speech.audio[..], &[0x49, 0x44, 0x33, 0x04, 0x00]);
}

#[test]
fn address_without_model() {
    assert_eq!(
        address(&key_for(Provider::DeepInfra), None).unwrap(),
        "https://api.deepinfra.com/v1/inference/hexgrad/Kokoro-82M"
    );
    assert_eq!(
        address(&key_for(Provider::Hyperbolic), None).unwrap(),
        "https://api.hyperbolic.xyz/v1/audio/generation"
    );
    assert_eq!(
        address(&key_for(Provider::OpenAI), None).unwrap(),
        "https://api.openai.com/v1/audio/speech"
    );
    assert_eq!(
        address(&key_for(Provider::Google), None).unwrap(),
        "https://texttospeech.googleapis.com/v1beta1/text:synthesize?key=secret"
    );
}

#[test]
fn address_with_model() {
    assert_eq!(
        address(&key_for(Provider::DeepInfra), Some("some/model")).unwrap(),
        "https://api.deepinfra.com/v1/inference/some/model"
    );
    assert_eq!(
        address(&key_for(Provider::OpenAI), Some("tts-1")).unwrap(),
        "https://api.openai.com/v1/audio/speech"
    );
    assert_eq!(
        address(&key_for(Provider::Hyperbolic), Some("any")).unwrap(),
        "https://api.hyperbolic.xyz/v1/audio/generation"
    );
    assert_eq!(
        address(&key_for(Provider::Google), Some("any")).unwrap(),
        "https://texttospeech.googleapis.com/v1beta1/text:synthesize?key=secret"
    );
}

#[test]
fn address_of_provider_without_speech() {
    assert_eq!(address(&key_for(Provider::Groq), None), Err(AdapterError::UnsupportedProvider));
    assert_eq!(
        address(&key_for(Provider::Groq), Some("m")),
        Err(AdapterError::UnsupportedProvider)
    );
}

#[test]
fn default_config_is_empty() {
    let config = TTSConfig::default();
    assert!(config.output_format.is_none());
    assert!(config.voice.is_none());
    assert!(config.speed.is_none());
    assert!(config.language_code.is_none());
    assert!(config.other.is_none());
}

#[test]
fn body_names_the_input_by_provider() {
    let config = TTSConfig::default();
    assert_eq!(
        request_body(&key_for(Provider::OpenAI), &config, None, "hi").unwrap(),
        json(r#"{"input":"hi"}"#)
    );
    assert_eq!(
        request_body(&key_for(Provider::Google), &config, None, "hi").unwrap(),
        json(r#"{"input":{"text":"hi"}}"#)
    );
    assert_eq!(
        request_body(&key_for(Provider::DeepInfra), &config, None, "hi").unwrap(),
        json(r#"{"text":"hi"}"#)
    );
    assert_eq!(
        request_body(&key_for(Provider::Hyperbolic), &config, None, "hi").unwrap(),
        json(r#"{"text":"hi"}"#)
    );
}

#[test]
fn body_names_the_model() {
    let config = TTSConfig::default();
    assert_eq!(
        request_body(&key_for(Provider::OpenAI), &config, Some("tts-1"), "hi").unwrap(),
        json(r#"{"input":"hi","model":"tts-1"}"#)
    );
}

#[test]
fn body_with_voice_by_provider() {
    let mut config = TTSConfig::default();
    config.voice = Some("alloy".to_string());
    assert_eq!(
        request_body(&key_for(Provider::OpenAI), &config, None, "hi").unwrap(),
        json(r#"{"input":"hi","voice":"alloy"}"#)
    );
    assert_eq!(
        request_body(&key_for(Provider::DeepInfra), &config, None, "hi").unwrap(),
        json(r#"{"text":"hi","preset_voice":"alloy"}"#)
    );
    assert_eq!(
        request_body(&key_for(Provider::Google), &config, None, "hi").unwrap(),
        json(
            r#"{"input":{"text":"hi"},"voice":{"name":"alloy"},
                "audioConfig":{"audioEncoding":"LINEAR16","pitch":0,"speakingRate":1}}"#
        )
    );
}

#[test]
fn body_with_google_language_code() {
    let mut config = TTSConfig::default();
    config.voice = Some("en-US-Studio-Q".to_string());
    config.language_code = Some("en-US".to_string());
    assert_eq!(
        request_body(&key_for(Provider::Google), &config, None, "hi").unwrap(),
        json(
            r#"{"input":{"text":"hi"},"voice":{"name":"en-US-Studio-Q","languageCode":"en-US"},
                "audioConfig":{"audioEncoding":"LINEAR16","pitch":0,"speakingRate":1}}"#
        )
    );
}

#[test]
fn language_code_without_voice_is_left_out() {
    let mut config = TTSConfig::default();
    config.language_code = Some("en-US".to_string());
    assert_eq!(
        request_body(&key_for(Provider::Google), &config, None, "hi").unwrap(),
        json(r#"{"input":{"text":"hi"}}"#)
    );
}

#[test]
fn voice_for_provider_without_voices() {
    let mut config = TTSConfig::default();
    config.voice = Some("v".to_string());
    assert_eq!(
        request_body(&key_for(Provider::Hyperbolic), &config, None, "hi"),
        Err(AdapterError::UnsupportedProvider)
    );
    assert_eq!(
        tts_request(&key_for(Provider::Hyperbolic), &config, None, "hi").err(),
        Some(AdapterError::UnsupportedProvider)
    );
}

#[test]
fn body_with_speed_only() {
    let mut config = TTSConfig::default();
    config.speed = Some(Value::from(1.5f32));
    let body = request_body(&key_for(Provider::OpenAI), &config, None, "hi").unwrap();
    assert_eq!(body.get("speed"), Some(&Value::from(1.5f32)));
    assert!(body.get("voice").is_none());
    assert!(body.get("preset_voice").is_none());
    assert!(body.get("output_format").is_none());
    assert_eq!(body, json(r#"{"input":"hi","speed":1.5}"#));
}

#[test]
fn body_with_output_format() {
    let mut config = TTSConfig::default();
    config.output_format = Some("wav".to_string());
    assert_eq!(
        request_body(&key_for(Provider::DeepInfra), &config, None, "hi").unwrap(),
        json(r#"{"text":"hi","output_format":"wav"}"#)
    );
}

#[test]
fn body_with_extension_member() {
    let mut config = TTSConfig::default();
    config.other = Some(vec![("foo".to_string(), Value::from("bar"))]);
    let body = request_body(&key_for(Provider::OpenAI), &config, None, "hi").unwrap();
    assert_eq!(body.get("foo"), Some(&Value::from("bar")));
    assert_eq!(body, json(r#"{"input":"hi","foo":"bar"}"#));
}

#[test]
fn extension_member_replaces_typed_member() {
    let mut config = TTSConfig::default();
    config.voice = Some("alloy".to_string());
    config.speed = Some(Value::from(2u64));
    config.other = Some(vec![
        ("voice".to_string(), Value::from("nova")),
        ("input".to_string(), json(r#"["a","b"]"#)),
        ("voice".to_string(), Value::from("echo")),
    ]);
    assert_eq!(
        request_body(&key_for(Provider::OpenAI), &config, Some("tts-1"), "hi").unwrap(),
        json(r#"{"input":["a","b"],"model":"tts-1","voice":"echo","speed":2}"#)
    );
}

#[test]
fn headers_carry_the_credential() {
    let found = headers(&key_for(Provider::OpenAI));
    assert_eq!(found.len(), 2);
    assert_eq!(found[0].name, "Authorization");
    assert_eq!(found[0].value, "Bearer secret");
    assert_eq!(found[1].name, "Content-Type");
    assert_eq!(found[1].value, "application/json");
}

#[test]
fn google_headers_carry_no_credential() {
    let found = headers(&key_for(Provider::Google));
    assert_eq!(found.len(), 1);
    assert_eq!(found[0].name, "Content-Type");
    assert_eq!(found[0].value, "application/json");
}

#[test]
fn request_holds_address_headers_and_body() {
    let mut config = TTSConfig::default();
    config.voice = Some("am_echo".to_string());
    let request = tts_request(&key_for(Provider::DeepInfra), &config, Some("m/x"), "Hello").unwrap();
    assert_eq!(request.address, "https://api.deepinfra.com/v1/inference/m/x");
    assert_eq!(request.headers.len(), 2);
    assert_eq!(request.headers[0].value, "Bearer secret");
    assert_eq!(request.body, json(r#"{"text":"Hello","model":"m/x","preset_voice":"am_echo"}"#));
}

#[test]
fn request_to_provider_without_speech() {
    let config = TTSConfig::default();
    assert_eq!(
        tts_request(&key_for(Provider::Groq), &config, None, "Hello").err(),
        Some(AdapterError::UnsupportedProvider)
    );
}

#[test]
fn base64_decode_without_prefix() {
    let audio = Speech::base64_decode("aGVsbG8=", &Provider::Hyperbolic).unwrap();
    assert_eq!(&audio[..], b"hello");
    let audio = Speech::base64_decode("", &Provider::Google).unwrap();
    assert_eq!(audio.len(), 0);
}

#[test]
fn base64_decode_with_prefix() {
    let audio =
        Speech::base64_decode("data:audio/mp3;base64,aGVsbG8=", &Provider::DeepInfra).unwrap();
    assert_eq!(&audio[..], b"hello");
    let audio = Speech::base64_decode("data:audio/mp3;base64,", &Provider::DeepInfra).unwrap();
    assert_eq!(audio.len(), 0);
}

#[test]
fn base64_text_strips_the_prefix_for_deepinfra_only() {
    assert_eq!(
        Speech::base64_text("data:audio/mp3;base64,QUJD", &Provider::DeepInfra),
        Ok("QUJD")
    );
    assert_eq!(
        Speech::base64_text("data:audio/mp3;base64,QUJD", &Provider::Hyperbolic),
        Ok("data:audio/mp3;base64,QUJD")
    );
    assert_eq!(
        Speech::base64_text("data:audio/mp3;base64,\u{e9}t\u{e9}", &Provider::DeepInfra),
        Ok("\u{e9}t\u{e9}")
    );
}

#[test]
fn base64_decode_missing_prefix() {
    let missing = Err(AdapterError::MalformedResponse(Malformed::MissingPrefix));
    assert_eq!(Speech::base64_decode("aGVsbG8=", &Provider::DeepInfra), missing);
    assert_eq!(Speech::base64_decode("", &Provider::DeepInfra), missing);
    assert_eq!(Speech::base64_decode("data:audio/mp3;base64", &Provider::DeepInfra), missing);
    assert_eq!(Speech::base64_decode("Data:audio/mp3;base64,aGVsbG8=", &Provider::DeepInfra), missing);
}

#[test]
fn base64_decode_invalid_text() {
    let invalid = Err(AdapterError::MalformedResponse(Malformed::InvalidBase64));
    assert_eq!(Speech::base64_decode("not base64!", &Provider::Hyperbolic), invalid);
    assert_eq!(Speech::base64_decode("aGVsbG8", &Provider::Google), invalid);
    assert_eq!(Speech::base64_decode("data:audio/mp3;base64,a", &Provider::DeepInfra), invalid);
}

#[test]
fn base64_encode_exact_text() {
    assert_eq!(Speech::base64_encode(b"hello", &Provider::Hyperbolic), "aGVsbG8=");
    assert_eq!(
        Speech::base64_encode(b"hello", &Provider::DeepInfra),
        "data:audio/mp3;base64,aGVsbG8="
    );
    assert_eq!(Speech::base64_encode(b"", &Provider::DeepInfra), "data:audio/mp3;base64,");
}

#[test]
fn base64_round_trip() {
    let mut samples: Vec<Vec<u8>> = vec![vec![], vec![0], vec![255, 254], vec![1, 2, 3]];
    samples.push((0..=255).collect());
    samples.push((0..1000).map(|i: u32| (i * 7 % 251) as u8).collect());
    for provider in [Provider::DeepInfra, Provider::Hyperbolic, Provider::Google] {
        for sample in &samples {
            let text = Speech::base64_encode(sample, &provider);
            let audio = Speech::base64_decode(&text, &provider).unwrap();
            assert_eq!(&audio[..], &sample[..]);
        }
    }
}

#[test]
fn round_trip_through_the_engine_with_prefix() {
    let sample: Vec<u8> = vec![73, 68, 51, 4, 0, 0, 0, 0, 0, 35];
    let text = format!(
        "data:audio/mp3;base64,{}",
        base64::engine::general_purpose::STANDARD.encode(&sample)
    );
    let audio = Speech::base64_decode(&text, &Provider::DeepInfra).unwrap();
    assert_eq!(&audio[..], &sample[..]);
}

#[test]
fn deepinfra_error_payload() {
    let result = response(Provider::DeepInfra, r#"{"detail": "x"}"#).structured();
    let error = result.unwrap_err();
    assert_eq!(error, AdapterError::Provider("DeepInfra returned an error: \"x\"".to_string()));
    assert!(error.message().contains("x"));
}

#[test]
fn deepinfra_error_payload_comes_first() {
    let body = r#"{"detail":{"code":7},"audio":"data:audio/mp3;base64,aGVsbG8=","request_id":"r","output_format":"mp3"}"#;
    assert_eq!(
        response(Provider::DeepInfra, body).structured().unwrap_err(),
        AdapterError::Provider("DeepInfra returned an error: {\"code\":7}".to_string())
    );
}

#[test]
fn openai_error_payload() {
    let result = response(Provider::OpenAI, r#"{"error": "x"}"#).structured();
    let error = result.unwrap_err();
    assert_eq!(error, AdapterError::Provider("\"x\"".to_string()));
    assert!(error.message().contains("x"));
    let body = r#"{"error": {"message": "bad key", "code": null}}"#;
    assert_eq!(
        response(Provider::OpenAI, body).structured().unwrap_err(),
        AdapterError::Provider("{\"code\":null,\"message\":\"bad key\"}".to_string())
    );
}

#[test]
fn google_error_payload() {
    let result = response(Provider::Google, r#"{"error": "x"}"#).structured();
    let error = result.unwrap_err();
    assert_eq!(error, AdapterError::Provider("\"x\"".to_string()));
    assert!(error.message().contains("x"));
}

#[test]
fn hyperbolic_checks_no_error_member() {
    let body = r#"{"error":"x","audio":"aGVsbG8="}"#;
    let speech = response(Provider::Hyperbolic, body).structured().unwrap();
    assert_eq!(&speech.audio[..], b"hello");
    assert_eq!(
        response(Provider::Hyperbolic, r#"{"error":"x"}"#).structured().unwrap_err(),
        AdapterError::MalformedResponse(Malformed::MissingAudio)
    );
}

#[test]
fn deepinfra_success_payload() {
    let body = r#"{"request_id":"abc-123","output_format":"wav","audio":"data:audio/mp3;base64,aGVsbG8="}"#;
    let speech = response(Provider::DeepInfra, body).structured().unwrap();
    assert_eq!(speech.request_id, Some("abc-123".to_string()));
    assert_eq!(speech.file_format, "wav");
    assert_eq!(&speech.audio[..], b"hello");
}

#[test]
fn hyperbolic_success_payload() {
    let speech = response(Provider::Hyperbolic, r#"{"audio": "aGVsbG8="}"#).structured().unwrap();
    assert_eq!(speech.request_id, None);
    assert_eq!(speech.file_format, "mp3");
    assert_eq!(&speech.audio[..], b"hello");
}

#[test]
fn openai_success_payload() {
    let raw: Vec<u8> = vec![0xff, 0xfb, 0x90, 0x00, 0x7b, 0x22];
    let speech = SpeechResponse::new(Provider::OpenAI, Bytes::from(raw.clone())).structured().unwrap();
    assert_eq!(speech.request_id, None);
    assert_eq!(speech.file_format, "mp3");
    assert_eq!(&speech.audio[..], &raw[..]);
}

#[test]
fn openai_json_without_error_is_audio() {
    let speech = response(Provider::OpenAI, r#"{"audio":"aGVsbG8="}"#).structured().unwrap();
    assert_eq!(&speech.audio[..], br#"{"audio":"aGVsbG8="}"#);
    let speech = response(Provider::OpenAI, "[1,2]").structured().unwrap();
    assert_eq!(&speech.audio[..], b"[1,2]");
    let speech = response(Provider::OpenAI, "").structured().unwrap();
    assert_eq!(speech.audio.len(), 0);
}

#[test]
fn google_success_payload() {
    let body = r#"{"audioContent":"aGVsbG8=","timepoints":[{"markName":"a","timeSeconds":0.5}],"audioConfig":{}}"#;
    let speech = response(Provider::Google, body).structured().unwrap();
    assert_eq!(speech.request_id, None);
    assert_eq!(speech.file_format, "mp3");
    assert_eq!(&speech.audio[..], b"hello");
}

#[test]
fn deepinfra_missing_members() {
    let malformed = |body: &str| response(Provider::DeepInfra, body).structured().unwrap_err();
    assert_eq!(
        malformed(r#"{"request_id":"r","output_format":"mp3"}"#),
        AdapterError::MalformedResponse(Malformed::MissingAudio)
    );
    assert_eq!(
        malformed(r#"{"request_id":"r","output_format":"mp3","audio":17}"#),
        AdapterError::MalformedResponse(Malformed::MissingAudio)
    );
    assert_eq!(
        malformed(r#"{"output_format":"mp3","audio":"data:audio/mp3;base64,aGVsbG8="}"#),
        AdapterError::MalformedResponse(Malformed::MissingRequestId)
    );
    assert_eq!(
        malformed(r#"{"request_id":"r","audio":"data:audio/mp3;base64,aGVsbG8="}"#),
        AdapterError::MalformedResponse(Malformed::MissingOutputFormat)
    );
    assert_eq!(
        malformed(r#"{"request_id":"r","output_format":"mp3","audio":"aGVsbG8="}"#),
        AdapterError::MalformedResponse(Malformed::MissingPrefix)
    );
    assert_eq!(
        malformed(r#"{"request_id":"r","output_format":"mp3","audio":"data:audio/mp3;base64,@@"}"#),
        AdapterError::MalformedResponse(Malformed::InvalidBase64)
    );
    assert_eq!(malformed("[]"), AdapterError::MalformedResponse(Malformed::MissingAudio));
}

#[test]
fn google_missing_members() {
    let malformed = |body: &str| response(Provider::Google, body).structured().unwrap_err();
    assert_eq!(
        malformed(r#"{"timepoints":[]}"#),
        AdapterError::MalformedResponse(Malformed::MissingAudio)
    );
    assert_eq!(
        malformed(r#"{"audioContent":"aGVsbG8="}"#),
        AdapterError::MalformedResponse(Malformed::MissingTimepoints)
    );
    assert_eq!(
        malformed(r#"{"audioContent":"aGVsbG8=","timepoints":{}}"#),
        AdapterError::MalformedResponse(Malformed::MissingTimepoints)
    );
    assert_eq!(
        malformed(r#"{"audioContent":"a","timepoints":[]}"#),
        AdapterError::MalformedResponse(Malformed::InvalidBase64)
    );
}

#[test]
fn body_that_is_no_json() {
    for provider in [Provider::DeepInfra, Provider::Hyperbolic, Provider::Google] {
        assert_eq!(
            response(provider, "<html>").structured().unwrap_err(),
            AdapterError::InvalidJson
        );
        assert_eq!(response(provider, "<html>").raw_value(), Err(AdapterError::InvalidJson));
        assert_eq!(
            response(provider, r#"{"audio":"aGVsbG8="} x"#).structured().unwrap_err(),
            AdapterError::InvalidJson
        );
    }
}

#[test]
fn response_of_provider_without_speech() {
    assert_eq!(
        response(Provider::Groq, r#"{"audio":"aGVsbG8="}"#).structured().unwrap_err(),
        AdapterError::UnsupportedProvider
    );
    assert_eq!(
        response(Provider::Groq, "<html>").structured().unwrap_err(),
        AdapterError::UnsupportedProvider
    );
}

#[test]
fn raw_value_and_bytes() {
    let held = response(Provider::Hyperbolic, r#"{"audio": "aGVsbG8=", "n": [1, 2]}"#);
    assert_eq!(&held.bytes()[..], br#"{"audio": "aGVsbG8=", "n": [1, 2]}"#);
    assert_eq!(held.raw_value().unwrap(), json(r#"{"n":[1,2],"audio":"aGVsbG8="}"#));
}

#[test]
fn from_document_reads_a_value() {
    let document = json(r#"{"audio":"aGVsbG8="}"#);
    let speech = Speech::from_document(&Provider::Hyperbolic, &document).unwrap();
    assert_eq!(&speech.audio[..], b"hello");
    assert_eq!(
        Speech::from_document(&Provider::OpenAI, &document).unwrap_err(),
        AdapterError::UnsupportedProvider
    );
    assert_eq!(
        Speech::from_document(&Provider::OpenAI, &json(r#"{"error":1}"#)).unwrap_err(),
        AdapterError::Provider("1".to_string())
    );
}

#[test]
fn structured_given_takes_the_parsed_body() {
    let held = response(Provider::OpenAI, "raw");
    let speech = held.structured_given(None).unwrap();
    assert_eq!(&speech.audio[..], b"raw");
    let speech = held.structured_given(Some(&json("{}"))).unwrap();
    assert_eq!(&speech.audio[..], b"raw");
    assert_eq!(
        held.structured_given(Some(&json(r#"{"error":"x"}"#))).unwrap_err(),
        AdapterError::Provider("\"x\"".to_string())
    );
    let held = response(Provider::Hyperbolic, "ignored");
    assert_eq!(held.structured_given(None).unwrap_err(), AdapterError::InvalidJson);
    let speech = held.structured_given(Some(&json(r#"{"audio":"aGVsbG8="}"#))).unwrap();
    assert_eq!(&speech.audio[..], b"hello");
}

#[test]
fn calls_for_two_providers_do_not_interfere() {
    let deepinfra_body = r#"{"request_id":"r","output_format":"mp3","audio":"data:audio/mp3;base64,aGVsbG8="}"#;
    let hyperbolic_body = r#"{"audio":"d29ybGQ="}"#;
    let alone_first = response(Provider::DeepInfra, deepinfra_body).structured().unwrap();
    let alone_second = response(Provider::Hyperbolic, hyperbolic_body).structured().unwrap();
    let first = response(Provider::DeepInfra, deepinfra_body);
    let second = response(Provider::Hyperbolic, hyperbolic_body);
    let second_speech = second.structured().unwrap();
    let first_speech = first.structured().unwrap();
    let second_again = second.structured().unwrap();
    assert_eq!(first_speech.audio, alone_first.audio);
    assert_eq!(first_speech.request_id, alone_first.request_id);
    assert_eq!(second_speech.audio, alone_second.audio);
    assert_eq!(second_again.audio, alone_second.audio);
    assert_eq!(&first_speech.audio[..], b"hello");
    assert_eq!(&second_speech.audio[..], b"world");
    let config = TTSConfig::default();
    let one = tts_request(&key_for(Provider::OpenAI), &config, None, "a").unwrap();
    let two = tts_request(&key_for(Provider::Google), &config, None, "b").unwrap();
    assert_eq!(one.body, json(r#"{"input":"a"}"#));
    assert_eq!(two.body, json(r#"{"input":{"text":"b"}}"#));
    assert_eq!(one.headers.len(), 2);
    assert_eq!(two.headers.len(), 1);
}

#[test]
fn error_messages() {
    assert_eq!(AdapterError::UnsupportedProvider.message(), "unsupported provider");
    assert_eq!(AdapterError::InvalidJson.message(), "the response is not JSON");
    assert_eq!(AdapterError::Provider("\"x\"".to_string()).message(), "\"x\"");
    assert_eq!(
        AdapterError::MalformedResponse(Malformed::MissingPrefix).message(),
        "malformed response: no mp3 prefix before the audio"
    );
    assert_eq!(Malformed::MissingAudio.describe(), "no audio in the response");
    assert_eq!(Malformed::InvalidBase64.describe(), "the audio is not valid base64");
}
