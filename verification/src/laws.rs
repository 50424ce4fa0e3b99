//! What holds of the adapters for every input, proved from the spec functions that
//! their contracts are written in.

use crate::error::AdapterErrorView;
use crate::json::JsonView;
use crate::outside::base64_decoded;
use crate::outside::base64_encoded;
use crate::outside::json_parsed;
use crate::outside::json_rendered;
use crate::outside::value_document;
use crate::provider::Provider;
use crate::provider::RequestView;
use crate::text_to_speech::default_model;
use crate::text_to_speech::members_of;
use crate::text_to_speech::mime_prefix;
use crate::text_to_speech::other_members;
use crate::text_to_speech::spec_address;
use crate::text_to_speech::spec_base64_decode;
use crate::text_to_speech::spec_base64_encode;
use crate::text_to_speech::spec_base64_text;
use crate::text_to_speech::spec_headers;
use crate::text_to_speech::spec_reported_error;
use crate::text_to_speech::spec_request;
use crate::text_to_speech::spec_request_body;
use crate::text_to_speech::spec_speech;
use crate::text_to_speech::supports_voice;
use crate::text_to_speech::typed_members;
use crate::text_to_speech::SpeechView;
use crate::text_to_speech::TTSConfigView;
use vstd::prelude::*;

verus! {

/// Every provider with speech synthesis has the address that it documents: DeepInfra's
/// ends in the model, the default one where none is given; Hyperbolic's and OpenAI's are
/// fixed; Google's ends in the credential. Groq has none.
pub proof fn address_of_each_provider(credential: Seq<char>, model: Seq<char>)
    ensures
        spec_address(Provider::DeepInfra, credential, None) == Ok::<Seq<char>, AdapterErrorView>(
            "https://api.deepinfra.com/v1/inference/hexgrad/Kokoro-82M"@,
        ),
        spec_address(Provider::DeepInfra, credential, Some(model)) == Ok::<
            Seq<char>,
            AdapterErrorView,
        >("https://api.deepinfra.com/v1/inference/"@ + model),
        spec_address(Provider::Hyperbolic, credential, None) == Ok::<Seq<char>, AdapterErrorView>(
            "https://api.hyperbolic.xyz/v1/audio/generation"@,
        ),
        spec_address(Provider::OpenAI, credential, None) == Ok::<Seq<char>, AdapterErrorView>(
            "https://api.openai.com/v1/audio/speech"@,
        ),
        spec_address(Provider::Google, credential, None) == Ok::<Seq<char>, AdapterErrorView>(
            "https://texttospeech.googleapis.com/v1beta1/text:synthesize?key="@ + credential,
        ),
        spec_address(Provider::Groq, credential, None) == Err::<Seq<char>, AdapterErrorView>(
            AdapterErrorView::UnsupportedProvider,
        ),
{
    reveal_strlit("https://api.deepinfra.com");
    reveal_strlit("/v1/inference/");
    reveal_strlit("hexgrad/Kokoro-82M");
    reveal_strlit("https://api.deepinfra.com/v1/inference/hexgrad/Kokoro-82M");
    reveal_strlit("https://api.deepinfra.com/v1/inference/");
    reveal_strlit("https://api.hyperbolic.xyz");
    reveal_strlit("/v1/audio/generation");
    reveal_strlit("https://api.hyperbolic.xyz/v1/audio/generation");
    reveal_strlit("https://api.openai.com");
    reveal_strlit("/v1/audio/speech");
    reveal_strlit("https://api.openai.com/v1/audio/speech");
    reveal_strlit("https://texttospeech.googleapis.com");
    reveal_strlit("/v1beta1/text:synthesize");
    reveal_strlit("?key=");
    reveal_strlit("https://texttospeech.googleapis.com/v1beta1/text:synthesize?key=");
    assert("https://api.deepinfra.com"@ + "/v1/inference/"@ + "hexgrad/Kokoro-82M"@
        =~= "https://api.deepinfra.com/v1/inference/hexgrad/Kokoro-82M"@);
    assert("https://api.deepinfra.com"@ + "/v1/inference/"@ + model
        =~= "https://api.deepinfra.com/v1/inference/"@ + model);
    assert("https://api.hyperbolic.xyz"@ + "/v1/audio/generation"@
        =~= "https://api.hyperbolic.xyz/v1/audio/generation"@);
    assert("https://api.openai.com"@ + "/v1/audio/speech"@
        =~= "https://api.openai.com/v1/audio/speech"@);
    assert("https://texttospeech.googleapis.com"@ + "/v1beta1/text:synthesize"@ + "?key="@
        + credential =~= "https://texttospeech.googleapis.com/v1beta1/text:synthesize?key="@
        + credential);
}

/// The model changes the address of DeepInfra alone.
pub proof fn address_depends_on_model_for_deepinfra_only(
    provider: Provider,
    credential: Seq<char>,
    first: Option<Seq<char>>,
    second: Option<Seq<char>>,
)
    requires
        provider != Provider::DeepInfra,
    ensures
        spec_address(provider, credential, first) == spec_address(provider, credential, second),
{
}

/// To name DeepInfra's default model is the same as to name none.
pub proof fn address_of_default_model(credential: Seq<char>)
    ensures
        spec_address(Provider::DeepInfra, credential, None) == spec_address(
            Provider::DeepInfra,
            credential,
            Some(default_model()),
        ),
{
}

/// A response that reports an error gives that error, whatever else it holds: for
/// DeepInfra a document with a member `detail`, for OpenAI and Google one with a member
/// `error`. The message carries the JSON text of that member.
pub proof fn reported_error_is_returned(provider: Provider, body: Seq<u8>, document: JsonView)
    requires
        json_parsed(body) == Some(document),
        provider == Provider::DeepInfra || provider == Provider::OpenAI || provider
            == Provider::Google,
        document.member(
            if provider == Provider::DeepInfra {
                "detail"@
            } else {
                "error"@
            },
        ) is Some,
    ensures
        spec_reported_error(provider, document) is Some,
        spec_speech(provider, body) == Err::<SpeechView, AdapterErrorView>(
            AdapterErrorView::Provider(spec_reported_error(provider, document)->0),
        ),
        provider == Provider::DeepInfra ==> spec_reported_error(provider, document)
            == Some("DeepInfra returned an error: "@ + json_rendered(document.member("detail"@)->0)),
        provider != Provider::DeepInfra ==> spec_reported_error(provider, document) == Some(
            json_rendered(document.member("error"@)->0),
        ),
{
}

/// A response with the members that its provider documents, and with audio that
/// decodes, gives a speech with exactly those fields: DeepInfra's request id and
/// output format, and for Hyperbolic and Google no request id and the format `mp3`.
pub proof fn well_formed_response_gives_speech(
    provider: Provider,
    body: Seq<u8>,
    document: JsonView,
    text: Seq<char>,
    audio: Seq<u8>,
)
    requires
        json_parsed(body) == Some(document),
        spec_reported_error(provider, document) is None,
        spec_base64_decode(text, provider) == Ok::<Seq<u8>, AdapterErrorView>(audio),
        provider == Provider::DeepInfra ==> document.text_member("audio"@) == Some(text)
            && document.text_member("request_id"@) is Some && document.text_member(
            "output_format"@,
        ) is Some,
        provider == Provider::Hyperbolic ==> document.text_member("audio"@) == Some(text),
        provider == Provider::Google ==> document.text_member("audioContent"@) == Some(text)
            && document.member("timepoints"@) matches Some(JsonView::Array(_)),
        provider == Provider::DeepInfra || provider == Provider::Hyperbolic || provider
            == Provider::Google,
    ensures
        spec_speech(provider, body) == Ok::<SpeechView, AdapterErrorView>(
            SpeechView {
                request_id: if provider == Provider::DeepInfra {
                    document.text_member("request_id"@)
                } else {
                    None
                },
                file_format: if provider == Provider::DeepInfra {
                    document.text_member("output_format"@)->0
                } else {
                    "mp3"@
                },
                audio,
            },
        ),
{
}

/// No response makes the parser give up: it yields a speech or says what is wrong.
/// A body that is no JSON is an error for every provider but OpenAI, whose audio is the
/// body itself.
pub proof fn body_without_json(provider: Provider, body: Seq<u8>)
    requires
        json_parsed(body) is None,
    ensures
        provider == Provider::OpenAI ==> spec_speech(provider, body) == Ok::<
            SpeechView,
            AdapterErrorView,
        >(SpeechView { request_id: None, file_format: "mp3"@, audio: body }),
        provider == Provider::DeepInfra || provider == Provider::Hyperbolic || provider
            == Provider::Google ==> spec_speech(provider, body) == Err::<
            SpeechView,
            AdapterErrorView,
        >(AdapterErrorView::InvalidJson),
{
}

/// A request can be built exactly for a provider with speech synthesis that is asked
/// for no voice or has voices; otherwise the provider is reported as unsupported.
pub proof fn request_exists_for_supported_provider(
    provider: Provider,
    credential: Seq<char>,
    config: TTSConfigView,
    model: Option<Seq<char>>,
    text: Seq<char>,
)
    ensures
        spec_request(provider, credential, config, model, text) is Ok <==> provider
            != Provider::Groq && (config.voice is None || supports_voice(provider)),
        spec_request(provider, credential, config, model, text) is Err ==> spec_request(
            provider,
            credential,
            config,
            model,
            text,
        ) == Err::<RequestView, AdapterErrorView>(AdapterErrorView::UnsupportedProvider),
{
}

/// A configuration that sets the speed and neither voice, output format nor extension
/// map gives a body with the member `speed` and without any member for a voice or an
/// output format.
pub proof fn speed_alone_adds_speed_only(
    provider: Provider,
    config: TTSConfigView,
    model: Option<Seq<char>>,
    text: Seq<char>,
)
    requires
        config.speed is Some,
        config.voice is None,
        config.output_format is None,
        config.other is None,
    ensures
        spec_request_body(provider, config, model, text) matches Ok(body) && {
            &&& body.member("speed"@) == config.speed
            &&& body.member("voice"@) is None
            &&& body.member("preset_voice"@) is None
            &&& body.member("audioConfig"@) is None
            &&& body.member("output_format"@) is None
        },
{
    reveal_strlit("input");
    reveal_strlit("text");
    reveal_strlit("model");
    reveal_strlit("speed");
    reveal_strlit("voice");
    reveal_strlit("preset_voice");
    reveal_strlit("audioConfig");
    reveal_strlit("output_format");
    assert("input"@.len() == 5 && "text"@.len() == 4 && "model"@.len() == 5 && "speed"@.len() == 5);
    assert("voice"@.len() == 5 && "preset_voice"@.len() == 12 && "audioConfig"@.len() == 11
        && "output_format"@.len() == 13);
    assert("voice"@[0] == 'v' && "input"@[0] == 'i' && "model"@[0] == 'm' && "speed"@[0] == 's');
    let typed = typed_members(provider, config, model, text);
    assert(typed.contains_key("speed"@) && typed["speed"@] == config.speed->0);
    assert(!typed.contains_key("voice"@));
    assert(!typed.contains_key("preset_voice"@));
    assert(!typed.contains_key("audioConfig"@));
    assert(!typed.contains_key("output_format"@));
}

/// The extension map is laid over the typed members: each of its members is in the
/// body with its value, whatever the typed fields say of that name, and every other
/// name has what the typed fields give it.
pub proof fn extension_members_come_last(
    provider: Provider,
    config: TTSConfigView,
    model: Option<Seq<char>>,
    text: Seq<char>,
    name: Seq<char>,
)
    requires
        config.voice is Some ==> supports_voice(provider),
    ensures
        spec_request_body(provider, config, model, text) matches Ok(body) && {
            &&& other_members(config).contains_key(name) ==> body.member(name) == Some(
                other_members(config)[name],
            )
            &&& !other_members(config).contains_key(name) ==> body.member(name)
                == JsonView::Object(typed_members(provider, config, model, text)).member(name)
        },
{
}

/// A list of named values holds a name exactly if one of its entries has it.
pub proof fn members_of_names(entries: Seq<(String, serde_json::Value)>, name: Seq<char>)
    ensures
        members_of(entries).contains_key(name) <==> exists|i: int|
            0 <= i < entries.len() && (#[trigger] entries[i]).0@ == name,
    decreases entries.len(),
{
    if entries.len() > 0 {
        let front = entries.drop_last();
        members_of_names(front, name);
        if members_of(entries).contains_key(name) {
            if entries.last().0@ == name {
                assert(entries[entries.len() - 1].0@ == name);
            } else {
                let i = choose|i: int| 0 <= i < front.len() && (#[trigger] front[i]).0@ == name;
                assert(entries[i].0@ == name);
            }
        }
        if exists|i: int| 0 <= i < entries.len() && (#[trigger] entries[i]).0@ == name {
            let i = choose|i: int| 0 <= i < entries.len() && (#[trigger] entries[i]).0@ == name;
            if i < front.len() {
                assert(front[i].0@ == name);
            }
        }
    }
}

/// In a list of named values, an entry whose name no later entry has gives the name
/// its value.
pub proof fn members_of_last_entry(entries: Seq<(String, serde_json::Value)>, i: int)
    requires
        0 <= i < entries.len(),
        forall|j: int| i < j < entries.len() ==> (#[trigger] entries[j]).0@ != entries[i].0@,
    ensures
        members_of(entries).contains_key(entries[i].0@),
        members_of(entries)[entries[i].0@] == value_document(entries[i].1),
    decreases entries.len(),
{
    if i < entries.len() - 1 {
        let front = entries.drop_last();
        assert(front[i] == entries[i]);
        assert forall|j: int| i < j < front.len() implies (#[trigger] front[j]).0@
            != front[i].0@ by {
            assert(front[j] == entries[j]);
        }
        members_of_last_entry(front, i);
        assert(entries[entries.len() - 1].0@ != entries[i].0@);
    }
}

/// No name occurs twice in a list of named values.
pub open spec fn distinct_names(entries: Seq<(String, serde_json::Value)>) -> bool {
    forall|i: int, j: int|
        0 <= i < j < entries.len() ==> (#[trigger] entries[i]).0@ != (#[trigger] entries[j]).0@
}

/// Each entry of `first` has an entry of `second` with its name and its value.
pub open spec fn entries_within(
    first: Seq<(String, serde_json::Value)>,
    second: Seq<(String, serde_json::Value)>,
) -> bool {
    forall|i: int|
        0 <= i < first.len() ==> exists|j: int|
            0 <= j < second.len() && (#[trigger] second[j]).0@ == (#[trigger] first[i]).0@
                && value_document(second[j].1) == value_document(first[i].1)
}

/// Where no name occurs twice, the order of the entries does not count: two lists with
/// the same entries stand for the same map.
pub proof fn members_of_ignores_order(
    first: Seq<(String, serde_json::Value)>,
    second: Seq<(String, serde_json::Value)>,
)
    requires
        distinct_names(first),
        distinct_names(second),
        entries_within(first, second),
        entries_within(second, first),
    ensures
        members_of(first) == members_of(second),
{
    assert forall|name: Seq<char>| #[trigger]
        members_of(first).dom().contains(name) implies members_of(second).dom().contains(name)
        && members_of(second)[name] == members_of(first)[name] by {
        members_of_names(first, name);
        let i = choose|i: int| 0 <= i < first.len() && (#[trigger] first[i]).0@ == name;
        let j = choose|j: int|
            0 <= j < second.len() && (#[trigger] second[j]).0@ == first[i].0@ && value_document(
                second[j].1,
            ) == value_document(first[i].1);
        members_of_last_entry(first, i);
        members_of_last_entry(second, j);
    }
    assert forall|name: Seq<char>| #[trigger]
        members_of(second).dom().contains(name) implies members_of(first).dom().contains(
        name,
    ) by {
        members_of_names(second, name);
        let j = choose|j: int| 0 <= j < second.len() && (#[trigger] second[j]).0@ == name;
        let i = choose|i: int|
            0 <= i < first.len() && (#[trigger] first[i]).0@ == second[j].0@ && value_document(
                first[i].1,
            ) == value_document(second[j].1);
        members_of_last_entry(first, i);
    }
    assert(members_of(first) =~= members_of(second));
}

/// The MIME prefix that is written before a text is the one that is taken off again:
/// for DeepInfra, a text behind the prefix reads as that text.
pub proof fn prefix_is_stripped(text: Seq<char>)
    ensures
        spec_base64_text(mime_prefix() + text, Provider::DeepInfra) == Ok::<
            Seq<char>,
            AdapterErrorView,
        >(text),
{
    let whole = mime_prefix() + text;
    assert(whole.subrange(0, mime_prefix().len() as int) =~= mime_prefix());
    assert(whole.skip(mime_prefix().len() as int) =~= text);
}

/// Encoding and then decoding gives the bytes back, whenever the base64 engine reads
/// its own text: the prefix written for DeepInfra changes nothing in that.
pub proof fn round_trip_with_prefix(audio: Seq<u8>, provider: Provider)
    requires
        base64_decoded(base64_encoded(audio)) == Some(audio),
    ensures
        spec_base64_decode(spec_base64_encode(audio, provider), provider) == Ok::<
            Seq<u8>,
            AdapterErrorView,
        >(audio),
{
    prefix_is_stripped(base64_encoded(audio));
}

/// A request to Google carries no `Authorization` header; a request to any other
/// provider carries the credential in one, as a bearer token.
pub proof fn authorization_header(provider: Provider, credential: Seq<char>)
    ensures
        provider == Provider::Google ==> spec_headers(provider, credential) == seq![
            ("Content-Type"@, "application/json"@),
        ],
        provider != Provider::Google ==> spec_headers(provider, credential) == seq![
            ("Authorization"@, "Bearer "@ + credential),
            ("Content-Type"@, "application/json"@),
        ],
{
    reveal_strlit("Authorization");
    reveal_strlit("Content-Type");
    reveal_with_fuel(Seq::filter, 3);
    let all = seq![
        ("Authorization"@, "Bearer "@ + credential),
        ("Content-Type"@, "application/json"@),
    ];
    let keep = |header: (Seq<char>, Seq<char>)| header.0 != "Authorization"@;
    assert(all.drop_last() =~= seq![("Authorization"@, "Bearer "@ + credential)]);
    assert(all.drop_last().drop_last() =~= Seq::<(Seq<char>, Seq<char>)>::empty());
    assert("Content-Type"@[0] != "Authorization"@[0]);
    assert(all.filter(keep) =~= seq![("Content-Type"@, "application/json"@)]);
}

} // verus!

