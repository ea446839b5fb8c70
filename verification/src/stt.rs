//! The transcription client: resolves the effective provider, endpoint,
//! model and credential; builds the provider-specific request (chat
//! completion with base64-embedded audio, or multipart upload); and
//! interprets responses, classifying failures. The HTTP transport itself is
//! outside work performed by the surrounding program.

use vstd::prelude::*;
use crate::classify::{http_failure_error, spec_http_failure_kind, spec_http_failure_message};
use crate::config::{
    normalize_base_url, spec_effective_base_url, spec_effective_model, trim_str, SttConfig,
};
use crate::errors::{ErrorKind, SttError};
use crate::json::{
    escape_chars, first_elem, json_escape, member_at, spec_first_elem, spec_member_at,
    spec_string_at, spec_valid_object_doc, string_at, valid_object_doc,
};
use crate::provider::{
    default_model_for_provider, normalize_provider, provider_of, spec_env_key,
    spec_normalize_provider, spec_provider_of, Provider,
};
use crate::text::{chars_to_string, eq_ignore_case, lower_seq, str_chars, trim_chars, trim_seq};

verus! {

use vstd::string::StringExecFns;

/// The provider-specific request a transcription call performs.
pub enum TranscriptionRequest {
    /// POST `url` with the JSON `body`, bearer `api_key`.
    Chat { url: String, api_key: String, body: String },
    /// POST `url` as a multipart form: the raw WAV bytes as field
    /// `file_field` under `file_name` with type `mime`, plus the model name;
    /// bearer `api_key`.
    Multipart {
        url: String,
        api_key: String,
        model: String,
        file_field: String,
        file_name: String,
        mime: String,
    },
}

/// The provider-specific request a connection test performs.
pub enum ProbeRequest {
    /// POST `url` with the one-token JSON `body`, bearer `api_key`.
    ChatProbe { url: String, api_key: String, body: String },
    /// GET `url` and check that `model` is among the listed model ids.
    ModelsProbe { url: String, api_key: String, model: String },
}

/// The credential a call uses: the configured key when non-blank, else the
/// environment value when non-blank.
pub open spec fn spec_resolved_key(api_key: Seq<char>, env: Option<Seq<char>>) -> Option<
    Seq<char>,
> {
    if trim_seq(api_key).len() != 0 {
        Some(trim_seq(api_key))
    } else {
        match env {
            Some(v) => if trim_seq(v).len() != 0 {
                Some(trim_seq(v))
            } else {
                None
            },
            None => None,
        }
    }
}

/// The message reported when no credential resolves, naming the expected
/// environment variable.
pub open spec fn spec_missing_key_message(provider_id: Seq<char>) -> Seq<char> {
    "the API key is empty (it can be provided through the environment variable "@ + spec_env_key(
        provider_id,
    ) + ")"@
}

/// Resolves the credential for a canonical provider identifier; the caller
/// passes the value of the provider's environment variable, if any.
pub fn resolve_api_key(api_key: &str, env_value: Option<&str>, provider_id: &str) -> (r: Result<
    String,
    SttError,
>)
    ensures
        (match spec_resolved_key(api_key@, match env_value {
            Some(v) => Some(v@),
            None => None,
        }) {
            Some(k) => r matches Ok(s) && s@ == k,
            None => r matches Err(e) && e.kind == ErrorKind::MissingCredential && e.message@
                == spec_missing_key_message(provider_id@),
        }),
{
    let own = trim_str(api_key);
    if !own.as_str().is_empty() {
        return Ok(own);
    }
    match env_value {
        Some(v) => {
            let t = trim_str(v);
            if !t.as_str().is_empty() {
                return Ok(t);
            }
        },
        None => {},
    }
    let mut message =
        "the API key is empty (it can be provided through the environment variable ".to_owned();
    message.append(crate::provider::env_key_for_provider(provider_id));
    message.append(")");
    proof {
        assert(message@ =~= spec_missing_key_message(provider_id@));
    }
    Err(SttError::new(ErrorKind::MissingCredential, message))
}

/// The chat-completion endpoint under the effective base URL.
pub open spec fn spec_chat_url(base_url: Seq<char>, provider_id: Seq<char>) -> Seq<char> {
    spec_effective_base_url(base_url, provider_id) + "/chat/completions"@
}

/// The multipart transcription endpoint under the effective base URL.
pub open spec fn spec_asr_url(base_url: Seq<char>, provider_id: Seq<char>) -> Seq<char> {
    spec_effective_base_url(base_url, provider_id) + "/audio/transcriptions"@
}

/// The model-listing endpoint under the effective base URL.
pub open spec fn spec_models_url(base_url: Seq<char>, provider_id: Seq<char>) -> Seq<char> {
    spec_effective_base_url(base_url, provider_id) + "/models"@
}

/// The chat-completion transcription body: the model, a provider-routing
/// hint, and one user message holding the fixed instruction prompt and the
/// base64-encoded audio as an `input_audio` part.
pub open spec fn spec_chat_body(model: Seq<char>, b64: Seq<char>) -> Seq<char> {
    "{\"model\":\""@ + json_escape(model)
        + "\",\"provider\":{\"allow_fallbacks\":true,\"ignore\":[\"Google AI Studio\"]},\"messages\":[{\"role\":\"user\",\"content\":[{\"type\":\"text\",\"text\":\"Transcribe this audio exactly. Keep the original language, do not translate. Output only the transcript.\"},{\"type\":\"input_audio\",\"input_audio\":{\"data\":\""@
        + b64 + "\",\"format\":\"wav\"}}]}]}"@
}

/// The one-token probe body used by the connection test.
pub open spec fn spec_probe_body(model: Seq<char>) -> Seq<char> {
    "{\"model\":\""@ + json_escape(model)
        + "\",\"messages\":[{\"role\":\"user\",\"content\":\"hi\"}],\"max_tokens\":1,\"temperature\":0}"@
}

/// Builds the chat transcription body for an effective model and an encoded
/// clip.
pub fn build_chat_body(model: &str, b64: &str) -> (r: String)
    ensures
        r@ == spec_chat_body(model@, b64@),
{
    let escaped = chars_to_string(&escape_chars(&str_chars(model)));
    let mut body = "{\"model\":\"".to_owned();
    body.append(escaped.as_str());
    body.append(
        "\",\"provider\":{\"allow_fallbacks\":true,\"ignore\":[\"Google AI Studio\"]},\"messages\":[{\"role\":\"user\",\"content\":[{\"type\":\"text\",\"text\":\"Transcribe this audio exactly. Keep the original language, do not translate. Output only the transcript.\"},{\"type\":\"input_audio\",\"input_audio\":{\"data\":\"",
    );
    body.append(b64);
    body.append("\",\"format\":\"wav\"}}]}]}");
    proof {
        assert(body@ =~= spec_chat_body(model@, b64@));
    }
    body
}

/// Builds the probe body for an effective model.
pub fn build_probe_body(model: &str) -> (r: String)
    ensures
        r@ == spec_probe_body(model@),
{
    let escaped = chars_to_string(&escape_chars(&str_chars(model)));
    let mut body = "{\"model\":\"".to_owned();
    body.append(escaped.as_str());
    body.append("\",\"messages\":[{\"role\":\"user\",\"content\":\"hi\"}],\"max_tokens\":1,\"temperature\":0}");
    proof {
        assert(body@ =~= spec_probe_body(model@));
    }
    body
}

/// What `prepare_transcription` must return: missing credential reported
/// with the provider's environment variable; otherwise the request matching
/// the normalized provider, with the effective endpoint, model and
/// credential, and the exact wire fields.
pub open spec fn spec_prepare_result(
    c: crate::config::ConfigView,
    env: Option<Seq<char>>,
    audio: Seq<u8>,
    r: Result<TranscriptionRequest, SttError>,
) -> bool {
    let p = spec_normalize_provider(c.provider);
    match spec_resolved_key(c.api_key, env) {
        None => r matches Err(e) && e.kind == ErrorKind::MissingCredential && e.message@
            == spec_missing_key_message(p),
        Some(k) => match r {
            Ok(req) => (match req {
                TranscriptionRequest::Chat { url, api_key, body } => {
                    &&& spec_provider_of(c.provider) is OpenRouter
                    &&& url@ == spec_chat_url(c.base_url, p)
                    &&& api_key@ == k
                    &&& body@ == spec_chat_body(spec_effective_model(c.model, p), base64_of(audio))
                },
                TranscriptionRequest::Multipart { url, api_key, model, file_field, file_name, mime } => {
                    &&& spec_provider_of(c.provider) is SiliconFlow
                    &&& url@ == spec_asr_url(c.base_url, p)
                    &&& api_key@ == k
                    &&& model@ == spec_effective_model(c.model, p)
                    &&& file_field@ == "file"@
                    &&& file_name@ == "audio.wav"@
                    &&& mime@ == "audio/wav"@
                },
            }),
            Err(_) => false,
        },
    }
}

/// Relies on the base64 crate's standard (padded) engine: the encoding is a
/// function of the bytes alone, four alphabet characters for every three
/// input bytes.
pub uninterp spec fn base64_of(bytes: Seq<u8>) -> Seq<char>;

/// A character of the standard base64 alphabet (or its padding).
pub open spec fn is_base64_char(c: char) -> bool {
    ('A' <= c && c <= 'Z') || ('a' <= c && c <= 'z') || ('0' <= c && c <= '9') || c == '+' || c
        == '/' || c == '='
}

/// Relies on `base64::engine::general_purpose::STANDARD.encode`: standard
/// alphabet with padding, so the result holds `4 * ceil(n / 3)` characters,
/// all from the base64 alphabet.
#[verifier::external_body]
pub fn base64_encode(bytes: &Vec<u8>) -> (r: String)
    ensures
        r@ == base64_of(bytes@),
        r@.len() == 4 * ((bytes@.len() + 2) / 3),
        forall|i: int| 0 <= i < r@.len() ==> is_base64_char(#[trigger] r@[i]),
{
    base64::Engine::encode(&base64::engine::general_purpose::STANDARD, bytes)
}

/// Builds the provider-specific transcription request from the
/// configuration, the provider's environment credential (read by the
/// caller), and the recorded audio bytes.
pub fn prepare_transcription(
    config: &SttConfig,
    env_value: Option<&str>,
    audio: &Vec<u8>,
) -> (r: Result<TranscriptionRequest, SttError>)
    ensures
        spec_prepare_result(config@, match env_value {
            Some(v) => Some(v@),
            None => None,
        }, audio@, r),
{
    let provider = normalize_provider(config.provider.as_str());
    let key = match resolve_api_key(config.api_key.as_str(), env_value, provider.as_str()) {
        Ok(k) => k,
        Err(e) => {
            return Err(e);
        },
    };
    let base = normalize_base_url(config.base_url.as_str(), provider.as_str());
    let model_trimmed = trim_str(config.model.as_str());
    let model = if model_trimmed.as_str().is_empty() {
        default_model_for_provider(provider.as_str()).to_owned()
    } else {
        model_trimmed
    };
    match provider_of(config.provider.as_str()) {
        Provider::OpenRouter => {
            let b64 = base64_encode(audio);
            let body = build_chat_body(model.as_str(), b64.as_str());
            let mut url = base;
            url.append("/chat/completions");
            Ok(TranscriptionRequest::Chat { url, api_key: key, body })
        },
        Provider::SiliconFlow => {
            let mut url = base;
            url.append("/audio/transcriptions");
            Ok(
                TranscriptionRequest::Multipart {
                    url,
                    api_key: key,
                    model,
                    file_field: "file".to_owned(),
                    file_name: "audio.wav".to_owned(),
                    mime: "audio/wav".to_owned(),
                },
            )
        },
    }
}

/// What `prepare_connection_probe` must return, by provider.
pub open spec fn spec_probe_prepare_result(
    c: crate::config::ConfigView,
    env: Option<Seq<char>>,
    r: Result<ProbeRequest, SttError>,
) -> bool {
    let p = spec_normalize_provider(c.provider);
    match spec_resolved_key(c.api_key, env) {
        None => r matches Err(e) && e.kind == ErrorKind::MissingCredential && e.message@
            == spec_missing_key_message(p),
        Some(k) => match r {
            Ok(req) => (match req {
                ProbeRequest::ChatProbe { url, api_key, body } => {
                    &&& spec_provider_of(c.provider) is OpenRouter
                    &&& url@ == spec_chat_url(c.base_url, p)
                    &&& api_key@ == k
                    &&& body@ == spec_probe_body(spec_effective_model(c.model, p))
                },
                ProbeRequest::ModelsProbe { url, api_key, model } => {
                    &&& spec_provider_of(c.provider) is SiliconFlow
                    &&& url@ == spec_models_url(c.base_url, p)
                    &&& api_key@ == k
                    &&& model@ == spec_effective_model(c.model, p)
                },
            }),
            Err(_) => false,
        },
    }
}

/// Builds the cheap connection-test request: a one-token completion for the
/// chat provider, a model listing for the multipart provider.
pub fn prepare_connection_probe(config: &SttConfig, env_value: Option<&str>) -> (r: Result<
    ProbeRequest,
    SttError,
>)
    ensures
        spec_probe_prepare_result(config@, match env_value {
            Some(v) => Some(v@),
            None => None,
        }, r),
{
    let provider = normalize_provider(config.provider.as_str());
    let key = match resolve_api_key(config.api_key.as_str(), env_value, provider.as_str()) {
        Ok(k) => k,
        Err(e) => {
            return Err(e);
        },
    };
    let base = normalize_base_url(config.base_url.as_str(), provider.as_str());
    let model_trimmed = trim_str(config.model.as_str());
    let model = if model_trimmed.as_str().is_empty() {
        default_model_for_provider(provider.as_str()).to_owned()
    } else {
        model_trimmed
    };
    match provider_of(config.provider.as_str()) {
        Provider::OpenRouter => {
            let body = build_probe_body(model.as_str());
            let mut url = base;
            url.append("/chat/completions");
            Ok(ProbeRequest::ChatProbe { url, api_key: key, body })
        },
        Provider::SiliconFlow => {
            let mut url = base;
            url.append("/models");
            Ok(ProbeRequest::ModelsProbe { url, api_key: key, model })
        },
    }
}

/// The envelope-level error message of a chat-completion response, if any:
/// the string member `message` of the object member `error`.
pub open spec fn spec_chat_error_message(s: Seq<char>) -> Option<Seq<char>> {
    match crate::json::spec_doc_member(s, "error"@) {
        Some(ep) => match spec_member_at(s, ep, "message"@) {
            Some(mp) => spec_string_at(s, mp),
            None => None,
        },
        None => None,
    }
}

/// The transcript of a chat-completion response, if any:
/// `choices[0].message.content` as a string.
pub open spec fn spec_chat_content(s: Seq<char>) -> Option<Seq<char>> {
    match crate::json::spec_doc_member(s, "choices"@) {
        Some(cp) => match spec_first_elem(s, cp) {
            Some(e) => match spec_member_at(s, e, "message"@) {
                Some(mp) => match spec_member_at(s, mp, "content"@) {
                    Some(vp) => spec_string_at(s, vp),
                    None => None,
                },
                None => None,
            },
            None => None,
        },
        None => None,
    }
}

/// The `text` member of a multipart transcription response, if any.
pub open spec fn spec_asr_text(s: Seq<char>) -> Option<Seq<char>> {
    match crate::json::spec_doc_member(s, "text"@) {
        Some(tp) => spec_string_at(s, tp),
        None => None,
    }
}

/// HTTP success: a status in the 200 range.
pub open spec fn spec_status_success(status: u16) -> bool {
    200 <= status < 300
}

/// What interpreting a chat-completion response must return: non-success
/// classified (region phrasing first); an unparseable body reported; an
/// envelope error short-circuiting; then the content, required non-blank.
pub open spec fn spec_chat_outcome(status: u16, body: Seq<char>, r: Result<String, SttError>) -> bool {
    if !spec_status_success(status) {
        r matches Err(e) && e.kind == spec_http_failure_kind(status, body) && e.message@
            == spec_http_failure_message(status, body)
    } else if !spec_valid_object_doc(body) {
        r matches Err(e) && e.kind == ErrorKind::Unknown && e.message@
            == "failed to parse the provider response"@
    } else {
        match spec_chat_error_message(body) {
            Some(m) => r matches Err(e) && e.kind == ErrorKind::Unknown && e.message@
                == "API error: "@ + m,
            None => match spec_chat_content(body) {
                Some(c) => if trim_seq(c).len() != 0 {
                    r matches Ok(t) && t@ == c
                } else {
                    r matches Err(e) && e.kind == ErrorKind::NoContentReturned && e.message@
                        == "no transcription content returned"@
                },
                None => r matches Err(e) && e.kind == ErrorKind::NoContentReturned && e.message@
                    == "no transcription content returned"@,
            },
        }
    }
}

/// Interprets the chat provider's transcription response.
pub fn interpret_chat_response(status: u16, body: &str) -> (r: Result<String, SttError>)
    ensures
        spec_chat_outcome(status, body@, r),
{
    if !(200 <= status && status < 300) {
        return Err(http_failure_error(status, body));
    }
    let cs = str_chars(body);
    let doc = valid_object_doc(&cs);
    if doc.is_none() {
        return Err(
            SttError::of_str(ErrorKind::Unknown, "failed to parse the provider response"),
        );
    }
    let error_key = str_chars("error");
    let message_key = str_chars("message");
    match crate::json::doc_member(&cs, &error_key) {
        Some(ep) => {
            match member_at(&cs, ep, &message_key) {
                Some(mp) => {
                    match string_at(&cs, mp) {
                        Some(m) => {
                            let mut message = "API error: ".to_owned();
                            message.append(chars_to_string(&m).as_str());
                            proof {
                                assert(message@ =~= "API error: "@
                                    + spec_chat_error_message(body@)->Some_0);
                            }
                            return Err(SttError::new(ErrorKind::Unknown, message));
                        },
                        None => {},
                    }
                },
                None => {},
            }
        },
        None => {},
    }
    let choices_key = str_chars("choices");
    let content_key = str_chars("content");
    match crate::json::doc_member(&cs, &choices_key) {
        Some(cp) => {
            match first_elem(&cs, cp) {
                Some(e) => {
                    match member_at(&cs, e, &message_key) {
                        Some(mp) => {
                            match member_at(&cs, mp, &content_key) {
                                Some(vp) => {
                                    match string_at(&cs, vp) {
                                        Some(c) => {
                                            let t = trim_chars(&c);
                                            if t.len() != 0 {
                                                return Ok(chars_to_string(&c));
                                            }
                                        },
                                        None => {},
                                    }
                                },
                                None => {},
                            }
                        },
                        None => {},
                    }
                },
                None => {},
            }
        },
        None => {},
    }
    Err(SttError::of_str(ErrorKind::NoContentReturned, "no transcription content returned"))
}

/// What interpreting a multipart transcription response must return: the
/// `text` member, trimmed, required non-blank.
pub open spec fn spec_asr_outcome(status: u16, body: Seq<char>, r: Result<String, SttError>) -> bool {
    if !spec_status_success(status) {
        r matches Err(e) && e.kind == spec_http_failure_kind(status, body) && e.message@
            == spec_http_failure_message(status, body)
    } else if !spec_valid_object_doc(body) {
        r matches Err(e) && e.kind == ErrorKind::Unknown && e.message@
            == "failed to parse the provider response"@
    } else {
        match spec_asr_text(body) {
            Some(c) => if trim_seq(c).len() != 0 {
                r matches Ok(t) && t@ == trim_seq(c)
            } else {
                r matches Err(e) && e.kind == ErrorKind::NoContentReturned && e.message@
                    == "no transcription content returned"@
            },
            None => r matches Err(e) && e.kind == ErrorKind::NoContentReturned && e.message@
                == "no transcription content returned"@,
        }
    }
}

/// Interprets the multipart provider's transcription response.
pub fn interpret_transcription_response(status: u16, body: &str) -> (r: Result<String, SttError>)
    ensures
        spec_asr_outcome(status, body@, r),
{
    if !(200 <= status && status < 300) {
        return Err(http_failure_error(status, body));
    }
    let cs = str_chars(body);
    let doc = valid_object_doc(&cs);
    if doc.is_none() {
        return Err(
            SttError::of_str(ErrorKind::Unknown, "failed to parse the provider response"),
        );
    }
    let text_key = str_chars("text");
    match crate::json::doc_member(&cs, &text_key) {
        Some(tp) => {
            match string_at(&cs, tp) {
                Some(c) => {
                    let t = trim_chars(&c);
                    if t.len() != 0 {
                        return Ok(chars_to_string(&t));
                    }
                },
                None => {},
            }
        },
        None => {},
    }
    Err(SttError::of_str(ErrorKind::NoContentReturned, "no transcription content returned"))
}

/// What interpreting a chat probe response must return: success is success,
/// anything else classifies.
pub open spec fn spec_chat_probe_outcome(status: u16, body: Seq<char>, r: Result<
    (),
    SttError,
>) -> bool {
    if spec_status_success(status) {
        r is Ok
    } else {
        r matches Err(e) && e.kind == spec_http_failure_kind(status, body) && e.message@
            == spec_http_failure_message(status, body)
    }
}

/// Interprets the chat provider's probe response.
pub fn interpret_chat_probe_response(status: u16, body: &str) -> (r: Result<(), SttError>)
    ensures
        spec_chat_probe_outcome(status, body@, r),
{
    if 200 <= status && status < 300 {
        Ok(())
    } else {
        Err(http_failure_error(status, body))
    }
}

/// Whether some element of the array (first element at `i`) is an object
/// whose `id` member is a string case-insensitively equal to `model`.
pub open spec fn spec_model_in_elems(s: Seq<char>, i: int, model: Seq<char>) -> bool
    decreases s.len() - i,
{
    if i < 0 || i >= s.len() {
        false
    } else {
        let m = spec_elem_id_matches(s, i, model);
        match crate::json::spec_skip_value(s, i) {
            Some(w) => {
                let j = crate::json::spec_skip_ws(s, w);
                if 0 <= j && j < s.len() && s[j] == ']' {
                    m
                } else if 0 <= j && j < s.len() && s[j] == ',' {
                    let k = crate::json::spec_skip_ws(s, j + 1);
                    if i < k && k <= s.len() {
                        m || spec_model_in_elems(s, k, model)
                    } else {
                        false
                    }
                } else {
                    false
                }
            },
            None => false,
        }
    }
}

/// Whether the element at `e` is an object whose `id` is the model,
/// compared case-insensitively.
pub open spec fn spec_elem_id_matches(s: Seq<char>, e: int, model: Seq<char>) -> bool {
    match spec_member_at(s, e, "id"@) {
        Some(v) => match spec_string_at(s, v) {
            Some(id) => lower_seq(id) == lower_seq(model),
            None => false,
        },
        None => false,
    }
}

/// Whether the model listing carries the model: some element of the `data`
/// array has it as its `id`.
pub open spec fn spec_models_has(s: Seq<char>, model: Seq<char>) -> bool {
    match crate::json::spec_doc_member(s, "data"@) {
        Some(dp) => match spec_first_elem(s, dp) {
            Some(e) => spec_model_in_elems(s, e, model),
            None => false,
        },
        None => false,
    }
}

/// Executable element search for the model id.
fn model_in_elems(s: &Vec<char>, i: usize, model: &Vec<char>) -> (r: bool)
    requires
        i <= s@.len(),
    ensures
        r == spec_model_in_elems(s@, i as int, model@),
    decreases s@.len() - i,
{
    if i >= s.len() {
        return false;
    }
    let id_key = str_chars("id");
    let m = match member_at(s, i, &id_key) {
        Some(v) => {
            match string_at(s, v) {
                Some(id) => eq_ignore_case(&id, model),
                None => false,
            }
        },
        None => false,
    };
    proof {
        assert(m == spec_elem_id_matches(s@, i as int, model@));
    }
    match crate::json::skip_value(s, i) {
        Some(w) => {
            let j = crate::json::skip_ws(s, w);
            if j < s.len() && s[j] == ']' {
                m
            } else if j < s.len() && s[j] == ',' {
                let k = crate::json::skip_ws(s, j + 1);
                if i < k && k <= s.len() {
                    if m {
                        true
                    } else {
                        model_in_elems(s, k, model)
                    }
                } else {
                    false
                }
            } else {
                false
            }
        },
        None => false,
    }
}

/// What interpreting a model-listing probe response must return: the model
/// must appear among the listed ids, else the probe fails with
/// `ModelNotFound`.
pub open spec fn spec_models_outcome(
    status: u16,
    body: Seq<char>,
    model: Seq<char>,
    r: Result<(), SttError>,
) -> bool {
    if !spec_status_success(status) {
        r matches Err(e) && e.kind == spec_http_failure_kind(status, body) && e.message@
            == spec_http_failure_message(status, body)
    } else if !spec_valid_object_doc(body) {
        r matches Err(e) && e.kind == ErrorKind::Unknown && e.message@
            == "failed to parse the models response"@
    } else if spec_models_has(body, model) {
        r is Ok
    } else {
        r matches Err(e) && e.kind == ErrorKind::ModelNotFound && e.message@
            == "the model does not exist: check the model name"@
    }
}

/// Interprets the multipart provider's probe response: lists the models and
/// checks the configured model id is present (case-insensitive exact match).
pub fn interpret_models_response(status: u16, body: &str, model: &str) -> (r: Result<(), SttError>)
    ensures
        spec_models_outcome(status, body@, model@, r),
{
    if !(200 <= status && status < 300) {
        return Err(http_failure_error(status, body));
    }
    let cs = str_chars(body);
    let doc = valid_object_doc(&cs);
    if doc.is_none() {
        return Err(SttError::of_str(ErrorKind::Unknown, "failed to parse the models response"));
    }
    let data_key = str_chars("data");
    let model_chars = str_chars(model);
    let listed = match crate::json::doc_member(&cs, &data_key) {
        Some(dp) => {
            match first_elem(&cs, dp) {
                Some(e) => model_in_elems(&cs, e, &model_chars),
                None => false,
            }
        },
        None => false,
    };
    if listed {
        Ok(())
    } else {
        Err(
            SttError::of_str(
                ErrorKind::ModelNotFound,
                "the model does not exist: check the model name",
            ),
        )
    }
}

} // verus!
