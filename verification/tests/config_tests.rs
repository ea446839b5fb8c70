//! Provider registry and configuration normalization.

use aitotype::config::{
    default_provider, default_record_mode, has_resolved_api_key, normalize_base_url,
    normalize_stt_config, trim_str, SttConfig,
};
use aitotype::errors::{u32_to_dec, u64_to_dec};
use aitotype::provider::{
    default_base_url_for_provider, default_model_for_provider, env_key_for_provider,
    normalize_provider, provider_of, Provider,
};
use aitotype::session::recording_file_name;

#[test]
fn provider_normalizes_to_known_set() {
    assert_eq!(normalize_provider("siliconflow"), "siliconflow");
    assert_eq!(normalize_provider("  SiliconFlow  "), "siliconflow");
    assert_eq!(normalize_provider("openrouter"), "openrouter");
    assert_eq!(normalize_provider(""), "openrouter");
    assert_eq!(normalize_provider("somebody-else"), "openrouter");
}

#[test]
fn provider_variant_matches_identifier() {
    assert_eq!(provider_of(" SILICONFLOW "), Provider::SiliconFlow);
    assert_eq!(provider_of("openrouter"), Provider::OpenRouter);
    assert_eq!(provider_of("unknown"), Provider::OpenRouter);
}

#[test]
fn registry_defaults_per_provider() {
    assert_eq!(
        default_base_url_for_provider("openrouter"),
        "https://openrouter.ai/api/v1"
    );
    assert_eq!(
        default_base_url_for_provider("siliconflow"),
        "https://api.siliconflow.cn/v1"
    );
    assert_eq!(
        default_model_for_provider("openrouter"),
        "google/gemini-3-flash-preview"
    );
    assert_eq!(default_model_for_provider("siliconflow"), "TeleAI/TeleSpeechASR");
    assert_eq!(env_key_for_provider("openrouter"), "OPENROUTER_API_KEY");
    assert_eq!(env_key_for_provider("siliconflow"), "SILICONFLOW_API_KEY");
}

#[test]
fn base_url_blank_falls_back_to_default() {
    assert_eq!(normalize_base_url("", "openrouter"), "https://openrouter.ai/api/v1");
    assert_eq!(normalize_base_url("   ", "siliconflow"), "https://api.siliconflow.cn/v1");
}

#[test]
fn base_url_trims_and_strips_trailing_slashes() {
    assert_eq!(normalize_base_url("  https://x/api/  ", "openrouter"), "https://x/api");
    assert_eq!(normalize_base_url("https://y//", "openrouter"), "https://y");
    assert_eq!(normalize_base_url("///", "openrouter"), "https://openrouter.ai/api/v1");
}

#[test]
fn default_config_fields() {
    let c = SttConfig::default();
    assert_eq!(c.provider, "openrouter");
    assert_eq!(c.base_url, "https://openrouter.ai/api/v1");
    assert_eq!(c.api_key, "");
    assert_eq!(c.model, "google/gemini-3-flash-preview");
    assert!(!c.auto_write);
    assert_eq!(c.record_mode, "toggle");
    assert_eq!(default_provider(), "openrouter");
    assert_eq!(default_record_mode(), "toggle");
}

#[test]
fn normalize_config_resolves_blank_fields() {
    let c = SttConfig {
        provider: " OpenRouter ".to_string(),
        base_url: "".to_string(),
        api_key: "  key  ".to_string(),
        model: "   ".to_string(),
        auto_write: true,
        record_mode: "hold".to_string(),
    };
    let n = normalize_stt_config(c);
    assert_eq!(n.provider, "openrouter");
    assert_eq!(n.base_url, "https://openrouter.ai/api/v1");
    assert_eq!(n.api_key, "key");
    assert_eq!(n.model, "google/gemini-3-flash-preview");
    assert!(n.auto_write);
    assert_eq!(n.record_mode, "hold");
}

#[test]
fn normalize_config_is_idempotent_on_a_sample() {
    let c = SttConfig {
        provider: "SILICONFLOW".to_string(),
        base_url: " https://api.example.com/v1// ".to_string(),
        api_key: " k ".to_string(),
        model: " m ".to_string(),
        auto_write: false,
        record_mode: "toggle".to_string(),
    };
    let once = normalize_stt_config(c);
    let twice = normalize_stt_config(once.clone());
    assert_eq!(once.provider, twice.provider);
    assert_eq!(once.base_url, twice.base_url);
    assert_eq!(once.api_key, twice.api_key);
    assert_eq!(once.model, twice.model);
    assert_eq!(once.auto_write, twice.auto_write);
    assert_eq!(once.record_mode, twice.record_mode);
    assert_eq!(once.base_url, "https://api.example.com/v1");
}

#[test]
fn resolved_api_key_prefers_config_then_environment() {
    let mut c = SttConfig::default();
    c.api_key = "  k  ".to_string();
    assert!(has_resolved_api_key(&c, None));
    c.api_key = "".to_string();
    assert!(has_resolved_api_key(&c, Some(" env-key ")));
    assert!(!has_resolved_api_key(&c, Some("   ")));
    assert!(!has_resolved_api_key(&c, None));
}

#[test]
fn trim_and_decimal_helpers() {
    assert_eq!(trim_str("  a b \t"), "a b");
    assert_eq!(trim_str(""), "");
    assert_eq!(u32_to_dec(0), "0");
    assert_eq!(u32_to_dec(407), "407");
    assert_eq!(u64_to_dec(18446744073709551615), "18446744073709551615");
}

#[test]
fn recording_file_name_is_pid_and_timestamp_unique() {
    assert_eq!(recording_file_name(1234, 567890), "aitotype_recording_1234_567890.wav");
    assert_eq!(recording_file_name(0, 0), "aitotype_recording_0_0.wav");
}
