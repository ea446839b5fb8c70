//! Serialization and parsing of the persisted configuration.

use aitotype::config::SttConfig;
use aitotype::persist::{config_to_json, parse_stt_config};

fn assert_config_eq(a: &SttConfig, b: &SttConfig) {
    assert_eq!(a.provider, b.provider);
    assert_eq!(a.base_url, b.base_url);
    assert_eq!(a.api_key, b.api_key);
    assert_eq!(a.model, b.model);
    assert_eq!(a.auto_write, b.auto_write);
    assert_eq!(a.record_mode, b.record_mode);
}

#[test]
fn serialized_form_is_exact() {
    let c = SttConfig {
        provider: "openrouter".to_string(),
        base_url: "https://x/v1".to_string(),
        api_key: "k".to_string(),
        model: "m".to_string(),
        auto_write: true,
        record_mode: "toggle".to_string(),
    };
    assert_eq!(
        config_to_json(&c),
        "{\"provider\":\"openrouter\",\"base_url\":\"https://x/v1\",\"api_key\":\"k\",\"model\":\"m\",\"auto_write\":true,\"record_mode\":\"toggle\"}"
    );
}

#[test]
fn serialize_then_parse_gives_the_fields_back() {
    let c = SttConfig {
        provider: "siliconflow".to_string(),
        base_url: "https://api.siliconflow.cn/v1".to_string(),
        api_key: "sk-123".to_string(),
        model: "TeleAI/TeleSpeechASR".to_string(),
        auto_write: false,
        record_mode: "hold".to_string(),
    };
    let back = parse_stt_config(&config_to_json(&c)).unwrap();
    assert_config_eq(&c, &back);
}

#[test]
fn round_trip_preserves_characters_that_need_escaping() {
    let c = SttConfig {
        provider: "openrouter".to_string(),
        base_url: "https://x/\"quoted\"".to_string(),
        api_key: "a\"b\\c\nnewline\ttab".to_string(),
        model: "caf\u{e9} \u{1F600}".to_string(),
        auto_write: true,
        record_mode: "toggle".to_string(),
    };
    let json = config_to_json(&c);
    let back = parse_stt_config(&json).unwrap();
    assert_config_eq(&c, &back);
}

#[test]
fn serialized_form_is_real_json_for_serde() {
    let c = SttConfig {
        provider: "openrouter".to_string(),
        base_url: "https://x".to_string(),
        api_key: "quote \" back \\ end".to_string(),
        model: "m".to_string(),
        auto_write: false,
        record_mode: "toggle".to_string(),
    };
    let v: serde_json::Value = serde_json::from_str(&config_to_json(&c)).unwrap();
    assert_eq!(v["provider"], "openrouter");
    assert_eq!(v["api_key"], "quote \" back \\ end");
    assert_eq!(v["auto_write"], false);
}

#[test]
fn serde_written_document_parses_back() {
    let mut m = serde_json::Map::new();
    m.insert("provider".to_string(), serde_json::Value::String("siliconflow".to_string()));
    m.insert("base_url".to_string(), serde_json::Value::String("https://b".to_string()));
    m.insert("api_key".to_string(), serde_json::Value::String("k".to_string()));
    m.insert("model".to_string(), serde_json::Value::String("m".to_string()));
    m.insert("auto_write".to_string(), serde_json::Value::Bool(true));
    m.insert("record_mode".to_string(), serde_json::Value::String("hold".to_string()));
    let doc = serde_json::Value::Object(m).to_string();
    let c = parse_stt_config(&doc).unwrap();
    assert_eq!(c.provider, "siliconflow");
    assert_eq!(c.base_url, "https://b");
    assert_eq!(c.api_key, "k");
    assert_eq!(c.model, "m");
    assert!(c.auto_write);
    assert_eq!(c.record_mode, "hold");
}

#[test]
fn missing_optional_fields_take_defaults() {
    let doc = "{\"base_url\":\"b\",\"api_key\":\"k\",\"model\":\"m\"}";
    let c = parse_stt_config(doc).unwrap();
    assert_eq!(c.provider, "openrouter");
    assert!(!c.auto_write);
    assert_eq!(c.record_mode, "toggle");
}

#[test]
fn whitespace_and_field_order_do_not_matter() {
    let doc = " {\n  \"model\" : \"m\" ,\n  \"api_key\" : \"k\" ,\n  \"base_url\" : \"b\"\n} ";
    let c = parse_stt_config(doc).unwrap();
    assert_eq!(c.base_url, "b");
    assert_eq!(c.api_key, "k");
    assert_eq!(c.model, "m");
}

#[test]
fn missing_required_fields_or_bad_documents_are_rejected() {
    assert!(parse_stt_config("{\"provider\":\"openrouter\"}").is_none());
    assert!(parse_stt_config("not json").is_none());
    assert!(parse_stt_config("{\"base_url\":\"b\",\"api_key\":\"k\",\"model\":\"m\"} extra").is_none());
    assert!(parse_stt_config("{\"base_url\":1,\"api_key\":\"k\",\"model\":\"m\"}").is_none());
    assert!(parse_stt_config("[1,2,3]").is_none());
}
