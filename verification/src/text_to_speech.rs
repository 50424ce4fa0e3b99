//! Text-to-speech: the request that each provider expects, and the speech that its
//! response holds.

use crate::error::AdapterError;
use crate::error::AdapterErrorView;
use crate::error::Malformed;
use crate::json::JsonView;
use crate::json::NumberView;
use crate::laws::round_trip_with_prefix;
use crate::outside::base64_decode;
use crate::outside::base64_decoded;
use crate::outside::base64_encode;
use crate::outside::base64_encoded;
use crate::outside::bytes_as_slice;
use crate::outside::bytes_clone;
use crate::outside::bytes_contents;
use crate::outside::bytes_from_vec;
use crate::outside::json_parsed;
use crate::outside::json_rendered;
use crate::outside::value_as_array;
use crate::outside::value_as_str;
use crate::outside::value_clone;
use crate::outside::value_document;
use crate::outside::value_empty_object;
use crate::outside::value_from_slice;
use crate::outside::value_from_string;
use crate::outside::value_from_u64;
use crate::outside::value_get;
use crate::outside::value_set;
use crate::outside::value_to_string;
use crate::provider::headers_view;
use crate::provider::request_headers;
use crate::provider::request_result_view;
use crate::provider::spec_request_headers;
use crate::provider::Header;
use crate::provider::Key;
use crate::provider::Provider;
use crate::provider::Request;
use crate::provider::RequestView;
use crate::views::bytes_result_view;
use crate::views::document_result_view;
use crate::views::parsed_view;
use crate::views::str_result_view;
use crate::views::str_view;
use crate::views::text_result_view;
use crate::views::text_view;
use vstd::prelude::*;
use vstd::string::StrSliceExecFns;
use vstd::string::StringExecFns;

verus! {

/// What a caller may ask of a synthesis. A field that is `None` leaves the matching
/// member out of the request, so that the provider's default applies.
#[derive(Clone, Debug)]
pub struct TTSConfig {
    pub output_format: Option<String>,
    pub voice: Option<String>,
    /// The speed, as the JSON value that the request is to carry.
    pub speed: Option<serde_json::Value>,
    pub language_code: Option<String>,
    /// Members that are written into the request as they are, after all others. Of two
    /// entries with one name the later one counts.
    pub other: Option<Vec<(String, serde_json::Value)>>,
}

/// A `TTSConfig` as a mathematical value.
pub struct TTSConfigView {
    pub output_format: Option<Seq<char>>,
    pub voice: Option<Seq<char>>,
    pub speed: Option<JsonView>,
    pub language_code: Option<Seq<char>>,
    pub other: Option<Map<Seq<char>, JsonView>>,
}

/// The map that a list of named values stands for: each name with its last value.
pub open spec fn members_of(entries: Seq<(String, serde_json::Value)>) -> Map<Seq<char>, JsonView>
    decreases entries.len(),
{
    if entries.len() == 0 {
        Map::empty()
    } else {
        members_of(entries.drop_last()).insert(
            entries.last().0@,
            value_document(entries.last().1),
        )
    }
}

impl View for TTSConfig {
    type V = TTSConfigView;

    open spec fn view(&self) -> TTSConfigView {
        TTSConfigView {
            output_format: text_view(self.output_format),
            voice: text_view(self.voice),
            speed: match self.speed {
                Some(speed) => Some(value_document(speed)),
                None => None,
            },
            language_code: text_view(self.language_code),
            other: match self.other {
                Some(entries) => Some(members_of(entries@)),
                None => None,
            },
        }
    }
}

impl Default for TTSConfig {
    fn default() -> (config: TTSConfig)
        ensures
            config.output_format is None,
            config.voice is None,
            config.speed is None,
            config.language_code is None,
            config.other is None,
    {
        TTSConfig { output_format: None, voice: None, speed: None, language_code: None, other: None }
    }
}

/// The model that DeepInfra is asked for where the caller names none.
pub open spec fn default_model() -> Seq<char> {
    "hexgrad/Kokoro-82M"@
}

/// The endpoint of a synthesis request. Only DeepInfra's depends on the model; Google's
/// carries the credential as a query parameter; a provider without speech synthesis has
/// none.
pub open spec fn spec_address(provider: Provider, credential: Seq<char>, model: Option<Seq<char>>)
    -> Result<Seq<char>, AdapterErrorView> {
    match provider {
        Provider::DeepInfra => Ok(
            provider.spec_domain() + "/v1/inference/"@ + match model {
                Some(model) => model,
                None => default_model(),
            },
        ),
        Provider::Hyperbolic => Ok(provider.spec_domain() + "/v1/audio/generation"@),
        Provider::OpenAI => Ok(provider.spec_domain() + "/v1/audio/speech"@),
        Provider::Google => Ok(
            "https://texttospeech.googleapis.com"@ + "/v1beta1/text:synthesize"@ + "?key="@
                + credential,
        ),
        Provider::Groq => Err(AdapterErrorView::UnsupportedProvider),
    }
}

pub fn address(key: &Key, model: Option<&str>) -> (result: Result<String, AdapterError>)
    ensures
        text_result_view(result) == spec_address(key.provider, key.key@, str_view(model)),
{
    match key.provider {
        Provider::DeepInfra => {
            let mut address = key.provider.domain();
            address.append("/v1/inference/");
            match model {
                Some(model) => address.append(model),
                None => address.append("hexgrad/Kokoro-82M"),
            }
            Ok(address)
        },
        Provider::Hyperbolic => {
            let mut address = key.provider.domain();
            address.append("/v1/audio/generation");
            Ok(address)
        },
        Provider::OpenAI => {
            let mut address = key.provider.domain();
            address.append("/v1/audio/speech");
            Ok(address)
        },
        Provider::Google => {
            let mut address = String::from_str("https://texttospeech.googleapis.com");
            address.append("/v1beta1/text:synthesize");
            address.append("?key=");
            address.append(key.key.as_str());
            Ok(address)
        },
        Provider::Groq => Err(AdapterError::UnsupportedProvider),
    }
}

/// Whether a voice can be asked of the provider.
pub open spec fn supports_voice(provider: Provider) -> bool {
    provider == Provider::OpenAI || provider == Provider::Google || provider
        == Provider::DeepInfra
}

/// The member that carries the text to speak; its name and shape differ by provider.
pub open spec fn input_members(provider: Provider, text: Seq<char>) -> Map<Seq<char>, JsonView> {
    match provider {
        Provider::OpenAI => map!["input"@ => JsonView::String(text)],
        Provider::Google => map!["input"@ => JsonView::Object(map!["text"@ => JsonView::String(text)])],
        _ => map!["text"@ => JsonView::String(text)],
    }
}

/// The member that names the model, where one is named.
pub open spec fn model_members(model: Option<Seq<char>>) -> Map<Seq<char>, JsonView> {
    match model {
        Some(model) => map!["model"@ => JsonView::String(model)],
        None => Map::empty(),
    }
}

/// The voice that Google is asked for: its name and, where given, its language code.
pub open spec fn google_voice(voice: Seq<char>, language_code: Option<Seq<char>>) -> JsonView {
    match language_code {
        Some(code) => JsonView::Object(
            map!["name"@ => JsonView::String(voice), "languageCode"@ => JsonView::String(code)],
        ),
        None => JsonView::Object(map!["name"@ => JsonView::String(voice)]),
    }
}

/// The audio settings that go to Google with every voice.
pub open spec fn google_audio_config() -> JsonView {
    JsonView::Object(
        map![
            "audioEncoding"@ => JsonView::String("LINEAR16"@),
            "pitch"@ => JsonView::Number(NumberView::Integer(0)),
            "speakingRate"@ => JsonView::Number(NumberView::Integer(1)),
        ],
    )
}

/// The members that a voice adds; their names and shapes differ by provider.
pub open spec fn voice_members(
    provider: Provider,
    voice: Option<Seq<char>>,
    language_code: Option<Seq<char>>,
) -> Map<Seq<char>, JsonView> {
    match voice {
        Some(voice) => match provider {
            Provider::OpenAI => map!["voice"@ => JsonView::String(voice)],
            Provider::Google => map![
                "voice"@ => google_voice(voice, language_code),
                "audioConfig"@ => google_audio_config(),
            ],
            Provider::DeepInfra => map!["preset_voice"@ => JsonView::String(voice)],
            _ => Map::empty(),
        },
        None => Map::empty(),
    }
}

/// The members `speed` and `output_format`, each where the configuration has it.
pub open spec fn tuning_members(config: TTSConfigView) -> Map<Seq<char>, JsonView> {
    let speed: Map<Seq<char>, JsonView> = match config.speed {
        Some(speed) => map!["speed"@ => speed],
        None => Map::empty(),
    };
    match config.output_format {
        Some(format) => speed.insert("output_format"@, JsonView::String(format)),
        None => speed,
    }
}

/// The members that the typed fields of the configuration give, without the extension
/// map.
pub open spec fn typed_members(
    provider: Provider,
    config: TTSConfigView,
    model: Option<Seq<char>>,
    text: Seq<char>,
) -> Map<Seq<char>, JsonView> {
    input_members(provider, text).union_prefer_right(model_members(model)).union_prefer_right(
        voice_members(provider, config.voice, config.language_code),
    ).union_prefer_right(tuning_members(config))
}

/// The extension map, empty where the configuration has none.
pub open spec fn other_members(config: TTSConfigView) -> Map<Seq<char>, JsonView> {
    match config.other {
        Some(other) => other,
        None => Map::empty(),
    }
}

/// The body of a synthesis request: an object with the typed members, over which the
/// extension map is laid. A voice asked of a provider that has none is an error.
pub open spec fn spec_request_body(
    provider: Provider,
    config: TTSConfigView,
    model: Option<Seq<char>>,
    text: Seq<char>,
) -> Result<JsonView, AdapterErrorView> {
    if config.voice is Some && !supports_voice(provider) {
        Err(AdapterErrorView::UnsupportedProvider)
    } else {
        Ok(
            JsonView::Object(
                typed_members(provider, config, model, text).union_prefer_right(
                    other_members(config),
                ),
            ),
        )
    }
}

/// The object whose only member is `name`, a string with the given text.
fn text_object(name: &str, text: &str) -> (value: serde_json::Value)
    ensures
        value_document(value) == JsonView::Object(map![name@ => JsonView::String(text@)]),
{
    let mut value = value_empty_object();
    value_set(&mut value, name, value_from_string(String::from_str(text)));
    assert(Map::<Seq<char>, JsonView>::empty().insert(name@, JsonView::String(text@))
        =~= map![name@ => JsonView::String(text@)]);
    value
}

/// The body of the request that asks `key`'s provider to speak `text`.
pub fn request_body(key: &Key, config: &TTSConfig, model: Option<&str>, text: &str) -> (result:
    Result<serde_json::Value, AdapterError>)
    ensures
        document_result_view(result) == spec_request_body(
            key.provider,
            config@,
            str_view(model),
            text@,
        ),
{
    let provider = key.provider;
    let mut body = value_empty_object();
    match provider {
        Provider::OpenAI => value_set(&mut body, "input", value_from_string(String::from_str(text))),
        Provider::Google => value_set(&mut body, "input", text_object("text", text)),
        _ => value_set(&mut body, "text", value_from_string(String::from_str(text))),
    }
    assert(value_document(body)->Object_0 =~= input_members(provider, text@));
    if let Some(model) = model {
        value_set(&mut body, "model", value_from_string(String::from_str(model)));
    }
    let ghost with_model = input_members(provider, text@).union_prefer_right(
        model_members(str_view(model)),
    );
    assert(value_document(body)->Object_0 =~= with_model);
    if let Some(voice) = &config.voice {
        match provider {
            Provider::OpenAI => value_set(&mut body, "voice", value_from_string(voice.clone())),
            Provider::Google => {
                let mut described = text_object("name", voice.as_str());
                if let Some(code) = &config.language_code {
                    value_set(&mut described, "languageCode", value_from_string(code.clone()));
                }
                assert(value_document(described)->Object_0 =~= google_voice(
                    voice@,
                    text_view(config.language_code),
                )->Object_0);
                value_set(&mut body, "voice", described);
                let mut audio = value_empty_object();
                value_set(&mut audio, "audioEncoding", value_from_string(String::from_str("LINEAR16")));
                value_set(&mut audio, "pitch", value_from_u64(0));
                value_set(&mut audio, "speakingRate", value_from_u64(1));
                assert(value_document(audio)->Object_0 =~= google_audio_config()->Object_0);
                value_set(&mut body, "audioConfig", audio);
            },
            Provider::DeepInfra => value_set(
                &mut body,
                "preset_voice",
                value_from_string(voice.clone()),
            ),
            _ => {
                return Err(AdapterError::UnsupportedProvider);
            },
        }
    }
    let ghost with_voice = with_model.union_prefer_right(
        voice_members(provider, config@.voice, config@.language_code),
    );
    assert(value_document(body)->Object_0 =~= with_voice);
    if let Some(speed) = &config.speed {
        value_set(&mut body, "speed", value_clone(speed));
    }
    if let Some(format) = &config.output_format {
        value_set(&mut body, "output_format", value_from_string(format.clone()));
    }
    let ghost typed = typed_members(provider, config@, str_view(model), text@);
    assert(value_document(body)->Object_0 =~= typed);
    if let Some(other) = &config.other {
        let mut i: usize = 0;
        assert(typed.union_prefer_right(members_of(other@.take(0))) =~= typed);
        while i < other.len()
            invariant
                i <= other.len(),
                value_document(body) == JsonView::Object(
                    typed.union_prefer_right(members_of(other@.take(i as int))),
                ),
            decreases other.len() - i,
        {
            value_set(&mut body, other[i].0.as_str(), value_clone(&other[i].1));
            proof {
                let before = other@.take(i as int);
                let after = other@.take(i + 1);
                assert(after.drop_last() =~= before);
                assert(after.last() == other@[i as int]);
                assert(typed.union_prefer_right(members_of(before)).insert(
                    other@[i as int].0@,
                    value_document(other@[i as int].1),
                ) =~= typed.union_prefer_right(members_of(after)));
            }
            i = i + 1;
        }
        assert(other@.take(i as int) =~= other@);
    } else {
        assert(typed.union_prefer_right(Map::empty()) =~= typed);
    }
    Ok(body)
}

/// The headers of a synthesis request. Google takes the credential in the address, so
/// its requests carry no `Authorization` header.
pub open spec fn spec_headers(provider: Provider, credential: Seq<char>) -> Seq<
    (Seq<char>, Seq<char>),
> {
    match provider {
        Provider::Google => spec_request_headers(credential).filter(
            |header: (Seq<char>, Seq<char>)| header.0 != "Authorization"@,
        ),
        _ => spec_request_headers(credential),
    }
}

/// `headers` without those named `name`, the others in their order.
fn without_header(headers: Vec<Header>, name: &str) -> (kept: Vec<Header>)
    ensures
        headers_view(kept@) == headers_view(headers@).filter(
            |header: (Seq<char>, Seq<char>)| header.0 != name@,
        ),
{
    let ghost all = headers_view(headers@);
    let ghost keep = |header: (Seq<char>, Seq<char>)| header.0 != name@;
    let unwanted = String::from_str(name);
    let mut kept: Vec<Header> = Vec::new();
    let mut i: usize = 0;
    proof {
        reveal(Seq::filter);
        assert(all.take(0).filter(keep) =~= headers_view(kept@));
    }
    while i < headers.len()
        invariant
            i <= headers.len(),
            all == headers_view(headers@),
            unwanted@ == name@,
            keep == (|header: (Seq<char>, Seq<char>)| header.0 != name@),
            headers_view(kept@) == all.take(i as int).filter(keep),
        decreases headers.len() - i,
    {
        let ghost before = headers_view(kept@);
        proof {
            reveal(Seq::filter);
            assert(all.take(i + 1).drop_last() =~= all.take(i as int));
            assert(all.take(i + 1).last() == headers@[i as int]@);
        }
        if headers[i].name != unwanted {
            kept.push(Header { name: headers[i].name.clone(), value: headers[i].value.clone() });
            assert(headers_view(kept@) =~= before.push(headers@[i as int]@));
        }
        i = i + 1;
    }
    assert(all.take(i as int) =~= all);
    kept
}

/// The headers of the request that goes to `key`'s provider.
pub fn headers(key: &Key) -> (result: Vec<Header>)
    ensures
        headers_view(result@) == spec_headers(key.provider, key.key@),
{
    match key.provider {
        Provider::Google => without_header(request_headers(key), "Authorization"),
        _ => request_headers(key),
    }
}

/// The audio that a synthesis gave, and what the provider said of it.
#[derive(Debug)]
pub struct Speech {
    pub request_id: Option<String>,
    pub file_format: String,
    pub audio: bytes::Bytes,
}

/// A `Speech` as a mathematical value.
pub struct SpeechView {
    pub request_id: Option<Seq<char>>,
    pub file_format: Seq<char>,
    pub audio: Seq<u8>,
}

impl View for Speech {
    type V = SpeechView;

    open spec fn view(&self) -> SpeechView {
        SpeechView {
            request_id: text_view(self.request_id),
            file_format: self.file_format@,
            audio: bytes_contents(self.audio),
        }
    }
}

/// What DeepInfra writes before the base64 text of its audio.
pub open spec fn mime_prefix() -> Seq<char> {
    "data:audio/mp3;base64,"@
}

/// The base64 part of the audio text of a response: DeepInfra's text without its MIME
/// prefix, which has to be there; any other provider's text as it is.
pub open spec fn spec_base64_text(audio: Seq<char>, provider: Provider) -> Result<
    Seq<char>,
    AdapterErrorView,
> {
    if provider == Provider::DeepInfra {
        if mime_prefix().is_prefix_of(audio) {
            Ok(audio.skip(mime_prefix().len() as int))
        } else {
            Err(AdapterErrorView::MalformedResponse(Malformed::MissingPrefix))
        }
    } else {
        Ok(audio)
    }
}

/// The bytes that the audio text of a response stands for.
pub open spec fn spec_base64_decode(audio: Seq<char>, provider: Provider) -> Result<
    Seq<u8>,
    AdapterErrorView,
> {
    match spec_base64_text(audio, provider) {
        Ok(text) => match base64_decoded(text) {
            Some(data) => Ok(data),
            None => Err(AdapterErrorView::MalformedResponse(Malformed::InvalidBase64)),
        },
        Err(error) => Err(error),
    }
}

/// The audio text that a provider would write for `audio`.
pub open spec fn spec_base64_encode(audio: Seq<u8>, provider: Provider) -> Seq<char> {
    if provider == Provider::DeepInfra {
        mime_prefix() + base64_encoded(audio)
    } else {
        base64_encoded(audio)
    }
}

impl Speech {
    /// The base64 part of the audio text of a response.
    pub fn base64_text<'a>(audio: &'a str, provider: &Provider) -> (result: Result<
        &'a str,
        AdapterError,
    >)
        ensures
            str_result_view(result) == spec_base64_text(audio@, *provider),
    {
        match provider {
            Provider::DeepInfra => {
                let prefix = "data:audio/mp3;base64,";
                let prefix_len = prefix.unicode_len();
                let audio_len = audio.unicode_len();
                if audio_len < prefix_len {
                    return Err(AdapterError::MalformedResponse(Malformed::MissingPrefix));
                }
                let mut i: usize = 0;
                while i < prefix_len
                    invariant
                        i <= prefix_len <= audio_len,
                        prefix_len == prefix@.len(),
                        audio_len == audio@.len(),
                        prefix@ == mime_prefix(),
                        *provider == Provider::DeepInfra,
                        forall|j: int| 0 <= j < i ==> audio@[j] == prefix@[j],
                    decreases prefix_len - i,
                {
                    if audio.get_char(i) != prefix.get_char(i) {
                        assert(mime_prefix()[i as int] != audio@.subrange(
                            0,
                            mime_prefix().len() as int,
                        )[i as int]);
                        return Err(AdapterError::MalformedResponse(Malformed::MissingPrefix));
                    }
                    i = i + 1;
                }
                assert(mime_prefix() =~= audio@.subrange(0, mime_prefix().len() as int));
                Ok(audio.substring_char(prefix_len, audio_len))
            },
            _ => Ok(audio),
        }
    }

    /// Convert the base64 encoded audio to bytes.
    ///
    /// These bytes can then, for example, be written to a file.
    pub fn base64_decode(audio: &str, provider: &Provider) -> (result: Result<
        bytes::Bytes,
        AdapterError,
    >)
        ensures
            bytes_result_view(result) == spec_base64_decode(audio@, *provider),
    {
        match Speech::base64_text(audio, provider) {
            Ok(text) => match base64_decode(text) {
                Ok(data) => Ok(bytes_from_vec(data)),
                Err(_) => Err(AdapterError::MalformedResponse(Malformed::InvalidBase64)),
            },
            Err(error) => Err(error),
        }
    }

    /// Write audio as the text that `provider` would send for it. What this writes,
    /// `base64_decode` reads back as the same bytes.
    pub fn base64_encode(audio: &[u8], provider: &Provider) -> (text: String)
        requires
            audio@.len() <= usize::MAX / 4,
        ensures
            text@ == spec_base64_encode(audio@, *provider),
            spec_base64_decode(text@, *provider) == Ok::<Seq<u8>, AdapterErrorView>(audio@),
    {
        let encoded = base64_encode(audio);
        proof {
            round_trip_with_prefix(audio@, *provider);
        }
        match provider {
            Provider::DeepInfra => {
                let mut text = String::from_str("data:audio/mp3;base64,");
                text.append(encoded.as_str());
                text
            },
            _ => encoded,
        }
    }
}

/// The body of a provider's response, with the provider that sent it. The provider
/// decides how the body is read, so it has to be the one that the request went to.
pub struct SpeechResponse {
    provider: Provider,
    resp: bytes::Bytes,
}

/// The message of the error that a response document reports, if it reports one.
/// DeepInfra reports under `detail`, OpenAI and Google under `error`; the text is the
/// JSON text of that member, which DeepInfra's message follows a fixed opening.
pub open spec fn spec_reported_error(provider: Provider, document: JsonView) -> Option<Seq<char>> {
    match provider {
        Provider::DeepInfra => match document.member("detail"@) {
            Some(detail) => Some("DeepInfra returned an error: "@ + json_rendered(detail)),
            None => None,
        },
        Provider::OpenAI | Provider::Google => match document.member("error"@) {
            Some(error) => Some(json_rendered(error)),
            None => None,
        },
        _ => None,
    }
}

/// The speech in a response document whose audio is the base64 text of the member
/// `audio_name`, with the request id and format given.
pub open spec fn spec_decoded_speech(
    provider: Provider,
    document: JsonView,
    audio_name: Seq<char>,
    request_id: Option<Seq<char>>,
    file_format: Seq<char>,
) -> Result<SpeechView, AdapterErrorView>
    recommends
        document.text_member(audio_name) is Some,
{
    match spec_base64_decode(document.text_member(audio_name)->0, provider) {
        Ok(audio) => Ok(SpeechView { request_id, file_format, audio }),
        Err(error) => Err(error),
    }
}

/// The speech that a response document of `provider` holds. A reported error comes
/// first; then each member that the provider documents has to be there, in the order
/// audio, request id, output format for DeepInfra and audio, time points for Google;
/// then the audio has to decode.
pub open spec fn spec_speech_from_document(provider: Provider, document: JsonView) -> Result<
    SpeechView,
    AdapterErrorView,
> {
    if spec_reported_error(provider, document) is Some {
        Err(AdapterErrorView::Provider(spec_reported_error(provider, document)->0))
    } else {
        match provider {
            Provider::DeepInfra => {
                if document.text_member("audio"@) is None {
                    Err(AdapterErrorView::MalformedResponse(Malformed::MissingAudio))
                } else if document.text_member("request_id"@) is None {
                    Err(AdapterErrorView::MalformedResponse(Malformed::MissingRequestId))
                } else if document.text_member("output_format"@) is None {
                    Err(AdapterErrorView::MalformedResponse(Malformed::MissingOutputFormat))
                } else {
                    spec_decoded_speech(
                        provider,
                        document,
                        "audio"@,
                        document.text_member("request_id"@),
                        document.text_member("output_format"@)->0,
                    )
                }
            },
            Provider::Hyperbolic => {
                if document.text_member("audio"@) is None {
                    Err(AdapterErrorView::MalformedResponse(Malformed::MissingAudio))
                } else {
                    spec_decoded_speech(provider, document, "audio"@, None, "mp3"@)
                }
            },
            Provider::Google => {
                if document.text_member("audioContent"@) is None {
                    Err(AdapterErrorView::MalformedResponse(Malformed::MissingAudio))
                } else if !(document.member("timepoints"@) matches Some(JsonView::Array(_))) {
                    Err(AdapterErrorView::MalformedResponse(Malformed::MissingTimepoints))
                } else {
                    spec_decoded_speech(provider, document, "audioContent"@, None, "mp3"@)
                }
            },
            _ => Err(AdapterErrorView::UnsupportedProvider),
        }
    }
}

/// The speech in a response, given the body and what the body parses to. OpenAI sends
/// the audio as the body itself and an error as a JSON object with a member `error`:
/// a body that is no JSON, or JSON without that member, is audio. The other providers
/// send a JSON document.
pub open spec fn spec_speech_given(provider: Provider, body: Seq<u8>, parsed: Option<JsonView>)
    -> Result<SpeechView, AdapterErrorView> {
    match provider {
        Provider::OpenAI => match parsed {
            Some(document) if spec_reported_error(provider, document) is Some => Err(
                AdapterErrorView::Provider(spec_reported_error(provider, document)->0),
            ),
            _ => Ok(SpeechView { request_id: None, file_format: "mp3"@, audio: body }),
        },
        Provider::DeepInfra | Provider::Hyperbolic | Provider::Google => match parsed {
            Some(document) => spec_speech_from_document(provider, document),
            None => Err(AdapterErrorView::InvalidJson),
        },
        Provider::Groq => Err(AdapterErrorView::UnsupportedProvider),
    }
}

/// The speech in a response of `provider` with the given body.
pub open spec fn spec_speech(provider: Provider, body: Seq<u8>) -> Result<
    SpeechView,
    AdapterErrorView,
> {
    spec_speech_given(provider, body, json_parsed(body))
}

/// The view of a speech or the error in its place.
pub open spec fn speech_result_view(result: Result<Speech, AdapterError>) -> Result<
    SpeechView,
    AdapterErrorView,
> {
    match result {
        Ok(speech) => Ok(speech@),
        Err(error) => Err(error@),
    }
}

/// The text of the string member `name` of `value`.
fn text_member<'a>(value: &'a serde_json::Value, name: &str) -> (text: Option<&'a str>)
    ensures
        str_view(text) == value_document(*value).text_member(name@),
{
    match value_get(value, name) {
        Some(member) => value_as_str(member),
        None => None,
    }
}

/// The message of the error that `value` reports, if it reports one.
fn reported_error(provider: Provider, value: &serde_json::Value) -> (message: Option<String>)
    ensures
        text_view(message) == spec_reported_error(provider, value_document(*value)),
{
    match provider {
        Provider::DeepInfra => match value_get(value, "detail") {
            Some(detail) => {
                let mut message = String::from_str("DeepInfra returned an error: ");
                let rendered = value_to_string(detail);
                message.append(rendered.as_str());
                Some(message)
            },
            None => None,
        },
        Provider::OpenAI | Provider::Google => match value_get(value, "error") {
            Some(error) => Some(value_to_string(error)),
            None => None,
        },
        _ => None,
    }
}

impl Speech {
    /// The speech that a response document of `provider` holds.
    pub fn from_document(provider: &Provider, document: &serde_json::Value) -> (result: Result<
        Speech,
        AdapterError,
    >)
        ensures
            speech_result_view(result) == spec_speech_from_document(
                *provider,
                value_document(*document),
            ),
    {
        if let Some(message) = reported_error(*provider, document) {
            return Err(AdapterError::Provider(message));
        }
        match provider {
            Provider::DeepInfra => {
                let audio = match text_member(document, "audio") {
                    Some(audio) => audio,
                    None => {
                        return Err(AdapterError::MalformedResponse(Malformed::MissingAudio));
                    },
                };
                let request_id = match text_member(document, "request_id") {
                    Some(request_id) => request_id,
                    None => {
                        return Err(AdapterError::MalformedResponse(Malformed::MissingRequestId));
                    },
                };
                let file_format = match text_member(document, "output_format") {
                    Some(file_format) => file_format,
                    None => {
                        return Err(
                            AdapterError::MalformedResponse(Malformed::MissingOutputFormat),
                        );
                    },
                };
                match Speech::base64_decode(audio, provider) {
                    Ok(audio) => Ok(
                        Speech {
                            request_id: Some(String::from_str(request_id)),
                            file_format: String::from_str(file_format),
                            audio,
                        },
                    ),
                    Err(error) => Err(error),
                }
            },
            Provider::Hyperbolic => {
                let audio = match text_member(document, "audio") {
                    Some(audio) => audio,
                    None => {
                        return Err(AdapterError::MalformedResponse(Malformed::MissingAudio));
                    },
                };
                match Speech::base64_decode(audio, provider) {
                    Ok(audio) => Ok(
                        Speech { request_id: None, file_format: String::from_str("mp3"), audio },
                    ),
                    Err(error) => Err(error),
                }
            },
            Provider::Google => {
                let audio = match text_member(document, "audioContent") {
                    Some(audio) => audio,
                    None => {
                        return Err(AdapterError::MalformedResponse(Malformed::MissingAudio));
                    },
                };
                let timepoints = match value_get(document, "timepoints") {
                    Some(timepoints) => value_as_array(timepoints),
                    None => None,
                };
                if timepoints.is_none() {
                    return Err(AdapterError::MalformedResponse(Malformed::MissingTimepoints));
                }
                match Speech::base64_decode(audio, provider) {
                    Ok(audio) => Ok(
                        Speech { request_id: None, file_format: String::from_str("mp3"), audio },
                    ),
                    Err(error) => Err(error),
                }
            },
            _ => Err(AdapterError::UnsupportedProvider),
        }
    }
}

impl SpeechResponse {
    /// The response of `provider` with the body `resp`.
    pub fn new(provider: Provider, resp: bytes::Bytes) -> (response: SpeechResponse)
        ensures
            response.provider() == provider,
            response.body() == bytes_contents(resp),
    {
        SpeechResponse { provider, resp }
    }

    /// The provider that sent the response.
    pub closed spec fn provider(&self) -> Provider {
        self.provider
    }

    /// The bytes of the body.
    pub closed spec fn body(&self) -> Seq<u8> {
        bytes_contents(self.resp)
    }

    pub fn bytes(&self) -> (resp: &bytes::Bytes)
        ensures
            bytes_contents(*resp) == self.body(),
    {
        &self.resp
    }

    /// The body as a JSON value, where it is JSON text.
    pub fn raw_value(&self) -> (result: Result<serde_json::Value, AdapterError>)
        ensures
            document_result_view(result) == match json_parsed(self.body()) {
                Some(document) => Ok::<JsonView, AdapterErrorView>(document),
                None => Err(AdapterErrorView::InvalidJson),
            },
    {
        match value_from_slice(bytes_as_slice(&self.resp)) {
            Ok(value) => Ok(value),
            Err(_) => Err(AdapterError::InvalidJson),
        }
    }

    /// The speech in the response, given what its body parses to: `None` where the
    /// body is no JSON.
    pub fn structured_given(&self, parsed: Option<&serde_json::Value>) -> (result: Result<
        Speech,
        AdapterError,
    >)
        ensures
            speech_result_view(result) == spec_speech_given(
                self.provider(),
                self.body(),
                parsed_view(parsed),
            ),
    {
        match self.provider {
            Provider::OpenAI => {
                if let Some(document) = parsed {
                    if let Some(message) = reported_error(self.provider, document) {
                        return Err(AdapterError::Provider(message));
                    }
                }
                Ok(
                    Speech {
                        request_id: None,
                        file_format: String::from_str("mp3"),
                        audio: bytes_clone(&self.resp),
                    },
                )
            },
            Provider::DeepInfra | Provider::Hyperbolic | Provider::Google => match parsed {
                Some(document) => Speech::from_document(&self.provider, document),
                None => Err(AdapterError::InvalidJson),
            },
            Provider::Groq => Err(AdapterError::UnsupportedProvider),
        }
    }

    /// The speech in the response.
    pub fn structured(&self) -> (result: Result<Speech, AdapterError>)
        ensures
            speech_result_view(result) == spec_speech(self.provider(), self.body()),
    {
        match value_from_slice(bytes_as_slice(&self.resp)) {
            Ok(value) => self.structured_given(Some(&value)),
            Err(_) => self.structured_given(None),
        }
    }
}

/// The request that asks a provider to speak `text`: its address, body and headers.
/// A provider without speech synthesis is reported before a voice that the provider
/// does not have.
pub open spec fn spec_request(
    provider: Provider,
    credential: Seq<char>,
    config: TTSConfigView,
    model: Option<Seq<char>>,
    text: Seq<char>,
) -> Result<RequestView, AdapterErrorView> {
    match spec_address(provider, credential, model) {
        Ok(address) => match spec_request_body(provider, config, model, text) {
            Ok(body) => Ok(
                RequestView { address, headers: spec_headers(provider, credential), body },
            ),
            Err(error) => Err(error),
        },
        Err(error) => Err(error),
    }
}

/// The request that asks `key`'s provider to speak `text`. Sending it, as a POST, is
/// left to the caller, who hands the response body to `SpeechResponse::new`.
pub fn tts_request(key: &Key, config: &TTSConfig, model: Option<&str>, text: &str) -> (result:
    Result<Request, AdapterError>)
    ensures
        request_result_view(result) == spec_request(
            key.provider,
            key.key@,
            config@,
            str_view(model),
            text@,
        ),
{
    let address = match address(key, model) {
        Ok(address) => address,
        Err(error) => {
            return Err(error);
        },
    };
    let body = match request_body(key, config, model, text) {
        Ok(body) => body,
        Err(error) => {
            return Err(error);
        },
    };
    Ok(Request { address, headers: headers(key), body })
}

} // verus!





