//! Request building and response interpretation for the two providers.

use aitotype::config::SttConfig;
use aitotype::errors::ErrorKind;
use aitotype::stt::{
    base64_encode, build_probe_body, interpret_chat_probe_response, interpret_chat_response,
    interpret_models_response, interpret_transcription_response, prepare_connection_probe,
    prepare_transcription, resolve_api_key, ProbeRequest, TranscriptionRequest,
};

fn blank_openrouter_config(api_key: &str) -> SttConfig {
    SttConfig {
        provider: "openrouter".to_string(),
        base_url: "".to_string(),
        api_key: api_key.to_string(),
        model: "".to_string(),
        auto_write: false,
        record_mode: "toggle".to_string(),
    }
}

#[test]
fn resolve_key_prefers_config_then_environment() {
    assert_eq!(resolve_api_key("  k  ", None, "openrouter").unwrap(), "k");
    assert_eq!(resolve_api_key("", Some(" env "), "openrouter").unwrap(), "env");
    let e = resolve_api_key("   ", Some("  "), "openrouter").unwrap_err();
    assert_eq!(e.kind, ErrorKind::MissingCredential);
    assert!(e.message.contains("OPENROUTER_API_KEY"));
    let e2 = resolve_api_key("", None, "siliconflow").unwrap_err();
    assert!(e2.message.contains("SILICONFLOW_API_KEY"));
}

#[test]
fn blank_openrouter_config_resolves_to_defaults_before_any_request() {
    let audio = vec![1u8, 2, 3];
    let req = prepare_transcription(&blank_openrouter_config("k"), None, &audio).unwrap();
    match req {
        TranscriptionRequest::Chat { url, api_key, body } => {
            assert_eq!(url, "https://openrouter.ai/api/v1/chat/completions");
            assert_eq!(api_key, "k");
            let v: serde_json::Value = serde_json::from_str(&body).unwrap();
            assert_eq!(v["model"], "google/gemini-3-flash-preview");
            assert_eq!(v["provider"]["allow_fallbacks"], true);
            assert_eq!(v["messages"][0]["role"], "user");
            let b64 = base64::Engine::encode(&base64::engine::general_purpose::STANDARD, &audio);
            assert_eq!(v["messages"][0]["content"][1]["input_audio"]["data"], b64);
            assert_eq!(v["messages"][0]["content"][1]["input_audio"]["format"], "wav");
        },
        _ => panic!("the default provider uses the chat protocol"),
    }
}

#[test]
fn base64_wrapper_matches_the_crate() {
    let audio = vec![0u8, 255, 17, 3, 9];
    let expected = base64::Engine::encode(&base64::engine::general_purpose::STANDARD, &audio);
    assert_eq!(base64_encode(&audio), expected);
    assert_eq!(base64_encode(&Vec::new()), "");
}

#[test]
fn multipart_request_carries_the_exact_wire_fields() {
    let c = SttConfig {
        provider: "siliconflow".to_string(),
        base_url: " https://api.siliconflow.cn/v1/ ".to_string(),
        api_key: "s".to_string(),
        model: "  ".to_string(),
        auto_write: false,
        record_mode: "toggle".to_string(),
    };
    let req = prepare_transcription(&c, None, &vec![9u8]).unwrap();
    match req {
        TranscriptionRequest::Multipart { url, api_key, model, file_field, file_name, mime } => {
            assert_eq!(url, "https://api.siliconflow.cn/v1/audio/transcriptions");
            assert_eq!(api_key, "s");
            assert_eq!(model, "TeleAI/TeleSpeechASR");
            assert_eq!(file_field, "file");
            assert_eq!(file_name, "audio.wav");
            assert_eq!(mime, "audio/wav");
        },
        _ => panic!("siliconflow uses the multipart protocol"),
    }
}

#[test]
fn missing_credential_names_the_environment_variable() {
    let e = match prepare_transcription(&blank_openrouter_config(""), None, &vec![1u8]) {
        Err(e) => e,
        Ok(_) => panic!("a blank key cannot prepare a request"),
    };
    assert_eq!(e.kind, ErrorKind::MissingCredential);
    assert!(e.message.contains("OPENROUTER_API_KEY"));
}

#[test]
fn probe_requests_per_provider() {
    let req = prepare_connection_probe(&blank_openrouter_config("k"), None).unwrap();
    match req {
        ProbeRequest::ChatProbe { url, api_key, body } => {
            assert_eq!(url, "https://openrouter.ai/api/v1/chat/completions");
            assert_eq!(api_key, "k");
            let v: serde_json::Value = serde_json::from_str(&body).unwrap();
            assert_eq!(v["max_tokens"], 1);
            assert_eq!(v["temperature"], 0);
            assert_eq!(v["messages"][0]["content"], "hi");
        },
        _ => panic!("openrouter probes with a one-token completion"),
    }
    let mut sf = blank_openrouter_config("k");
    sf.provider = "siliconflow".to_string();
    sf.model = "X".to_string();
    match prepare_connection_probe(&sf, None).unwrap() {
        ProbeRequest::ModelsProbe { url, api_key, model } => {
            assert_eq!(url, "https://api.siliconflow.cn/v1/models");
            assert_eq!(api_key, "k");
            assert_eq!(model, "X");
        },
        _ => panic!("siliconflow probes the model listing"),
    }
}

#[test]
fn probe_body_is_exact() {
    assert_eq!(
        build_probe_body("m"),
        "{\"model\":\"m\",\"messages\":[{\"role\":\"user\",\"content\":\"hi\"}],\"max_tokens\":1,\"temperature\":0}"
    );
}

#[test]
fn chat_response_returns_the_first_content() {
    let body = "{\"id\":\"r1\",\"choices\":[{\"index\":0,\"message\":{\"role\":\"assistant\",\"content\":\"hello world\"}}],\"usage\":{\"total_tokens\":5}}";
    assert_eq!(interpret_chat_response(200, body).unwrap(), "hello world");
}

#[test]
fn chat_envelope_error_short_circuits() {
    let body = "{\"error\":{\"message\":\"boom\",\"code\":400},\"choices\":[]}";
    let e = interpret_chat_response(200, body).unwrap_err();
    assert_eq!(e.kind, ErrorKind::Unknown);
    assert_eq!(e.message, "API error: boom");
}

#[test]
fn chat_blank_or_missing_content_is_no_content() {
    let blank = "{\"choices\":[{\"message\":{\"content\":\"   \"}}]}";
    assert_eq!(interpret_chat_response(200, blank).unwrap_err().kind, ErrorKind::NoContentReturned);
    let null_content = "{\"choices\":[{\"message\":{\"content\":null}}]}";
    assert_eq!(
        interpret_chat_response(200, null_content).unwrap_err().kind,
        ErrorKind::NoContentReturned
    );
    let no_choices = "{\"id\":\"x\"}";
    assert_eq!(
        interpret_chat_response(200, no_choices).unwrap_err().kind,
        ErrorKind::NoContentReturned
    );
}

#[test]
fn chat_non_success_is_classified() {
    assert_eq!(interpret_chat_response(401, "denied").unwrap_err().kind, ErrorKind::AuthFailed);
    let region = "User location is not supported for the API use.";
    assert_eq!(
        interpret_chat_response(403, region).unwrap_err().kind,
        ErrorKind::RegionRestricted
    );
}

#[test]
fn chat_unparseable_body_is_reported() {
    let e = interpret_chat_response(200, "not json at all").unwrap_err();
    assert_eq!(e.kind, ErrorKind::Unknown);
    assert_eq!(e.message, "failed to parse the provider response");
    let trailing = "{\"choices\":[]} trailing";
    assert_eq!(interpret_chat_response(200, trailing).unwrap_err().kind, ErrorKind::Unknown);
}

#[test]
fn transcription_text_is_trimmed_and_required_non_blank() {
    assert_eq!(
        interpret_transcription_response(200, "{\"text\":\"  hi there \"}").unwrap(),
        "hi there"
    );
    assert_eq!(
        interpret_transcription_response(200, "{\"text\":\"   \"}").unwrap_err().kind,
        ErrorKind::NoContentReturned
    );
    assert_eq!(
        interpret_transcription_response(200, "{\"other\":1}").unwrap_err().kind,
        ErrorKind::NoContentReturned
    );
    assert_eq!(
        interpret_transcription_response(502, "bad gateway").unwrap_err().kind,
        ErrorKind::Unknown
    );
}

#[test]
fn transcription_decodes_json_escapes() {
    assert_eq!(
        interpret_transcription_response(200, "{\"text\":\"caf\\u00e9\"}").unwrap(),
        "caf\u{e9}"
    );
    assert_eq!(
        interpret_transcription_response(200, "{\"text\":\"\\ud83d\\ude00\"}").unwrap(),
        "\u{1F600}"
    );
    assert_eq!(
        interpret_transcription_response(200, "{\"text\":\"a\\\"b\\\\c\\n\"}").unwrap(),
        "a\"b\\c"
    );
}

#[test]
fn chat_probe_success_is_success() {
    assert!(interpret_chat_probe_response(200, "{}").is_ok());
    assert_eq!(
        interpret_chat_probe_response(401, "denied").unwrap_err().kind,
        ErrorKind::AuthFailed
    );
}

#[test]
fn configured_model_absent_from_the_listing_is_model_not_found() {
    let listing = "{\"object\":\"list\",\"data\":[{\"id\":\"TeleAI/TeleSpeechASR\"},{\"id\":\"other/model\"}]}";
    assert!(interpret_models_response(200, listing, "teleai/telespeechasr").is_ok());
    assert!(interpret_models_response(200, listing, "TeleAI/TeleSpeechASR").is_ok());
    let e = interpret_models_response(200, listing, "X").unwrap_err();
    assert_eq!(e.kind, ErrorKind::ModelNotFound);
    let no_data = "{\"object\":\"list\"}";
    assert_eq!(
        interpret_models_response(200, no_data, "X").unwrap_err().kind,
        ErrorKind::ModelNotFound
    );
    let bad = "][";
    assert_eq!(interpret_models_response(200, bad, "X").unwrap_err().kind, ErrorKind::Unknown);
    assert_eq!(
        interpret_models_response(500, "whatever", "X").unwrap_err().kind,
        ErrorKind::Unknown
    );
}

#[test]
fn chat_body_survives_a_real_json_parser() {
    let c = SttConfig {
        provider: "openrouter".to_string(),
        base_url: "https://example.com/v1".to_string(),
        api_key: "k".to_string(),
        model: "odd \"model\" name\\with escapes".to_string(),
        auto_write: false,
        record_mode: "toggle".to_string(),
    };
    let req = prepare_transcription(&c, None, &vec![42u8; 7]).unwrap();
    match req {
        TranscriptionRequest::Chat { url, body, .. } => {
            assert_eq!(url, "https://example.com/v1/chat/completions");
            let v: serde_json::Value = serde_json::from_str(&body).unwrap();
            assert_eq!(v["model"], "odd \"model\" name\\with escapes");
        },
        _ => panic!("expected the chat protocol"),
    }
}
