//! Static knowledge of the supported speech-to-text providers: identifier
//! normalization and per-provider defaults (endpoint, model, credential
//! environment variable).

use vstd::prelude::*;
use crate::text::{
    chars_eq, chars_to_string, lower_chars, lower_seq, str_chars, str_eq, trim_chars, trim_seq,
};

verus! {

/// The two supported wire protocols, as a closed variant.
#[derive(Clone, Copy, Debug, PartialEq, Eq, Structural)]
pub enum Provider {
    /// Chat-completion style: JSON body with base64-embedded audio.
    OpenRouter,
    /// Multipart transcription style: form upload of the raw WAV bytes.
    SiliconFlow,
}

/// The canonical identifier that a provider string normalizes to: the
/// trimmed, case-folded string `"siliconflow"` names the multipart provider,
/// anything else falls back to the default provider `"openrouter"`.
pub open spec fn spec_normalize_provider(s: Seq<char>) -> Seq<char> {
    if lower_seq(trim_seq(s)) == "siliconflow"@ {
        "siliconflow"@
    } else {
        "openrouter"@
    }
}

/// The provider variant a provider string normalizes to.
pub open spec fn spec_provider_of(s: Seq<char>) -> Provider {
    if lower_seq(trim_seq(s)) == "siliconflow"@ {
        Provider::SiliconFlow
    } else {
        Provider::OpenRouter
    }
}

/// The default API base URL of each provider, keyed by the exact canonical
/// identifier.
pub open spec fn spec_default_base_url(provider: Seq<char>) -> Seq<char> {
    if provider == "siliconflow"@ {
        "https://api.siliconflow.cn/v1"@
    } else {
        "https://openrouter.ai/api/v1"@
    }
}

/// The default model of each provider.
pub open spec fn spec_default_model(provider: Seq<char>) -> Seq<char> {
    if provider == "siliconflow"@ {
        "TeleAI/TeleSpeechASR"@
    } else {
        "google/gemini-3-flash-preview"@
    }
}

/// The environment variable holding each provider's credential.
pub open spec fn spec_env_key(provider: Seq<char>) -> Seq<char> {
    if provider == "siliconflow"@ {
        "SILICONFLOW_API_KEY"@
    } else {
        "OPENROUTER_API_KEY"@
    }
}

/// Normalizes a provider identifier to the known set; unknown values fall
/// back to the default provider.
pub fn normalize_provider(provider: &str) -> (r: String)
    ensures
        r@ == spec_normalize_provider(provider@),
{
    let cs = str_chars(provider);
    let t = trim_chars(&cs);
    let l = lower_chars(&t);
    let lit = str_chars("siliconflow");
    if chars_eq(&l, &lit) {
        "siliconflow".to_owned()
    } else {
        "openrouter".to_owned()
    }
}

/// The provider variant of a (not necessarily normalized) identifier.
pub fn provider_of(provider: &str) -> (r: Provider)
    ensures
        r == spec_provider_of(provider@),
{
    let cs = str_chars(provider);
    let t = trim_chars(&cs);
    let l = lower_chars(&t);
    let lit = str_chars("siliconflow");
    if chars_eq(&l, &lit) {
        Provider::SiliconFlow
    } else {
        Provider::OpenRouter
    }
}

/// Default endpoint of the provider with the given canonical identifier.
pub fn default_base_url_for_provider(provider: &str) -> (r: &'static str)
    ensures
        r@ == spec_default_base_url(provider@),
{
    if str_eq(provider, "siliconflow") {
        "https://api.siliconflow.cn/v1"
    } else {
        "https://openrouter.ai/api/v1"
    }
}

/// Default model of the provider with the given canonical identifier.
pub fn default_model_for_provider(provider: &str) -> (r: &'static str)
    ensures
        r@ == spec_default_model(provider@),
{
    if str_eq(provider, "siliconflow") {
        "TeleAI/TeleSpeechASR"
    } else {
        "google/gemini-3-flash-preview"
    }
}

/// Environment variable consulted for the provider's credential.
pub fn env_key_for_provider(provider: &str) -> (r: &'static str)
    ensures
        r@ == spec_env_key(provider@),
{
    if str_eq(provider, "siliconflow") {
        "SILICONFLOW_API_KEY"
    } else {
        "OPENROUTER_API_KEY"
    }
}

/// Normalizing a provider identifier is idempotent: the canonical
/// identifiers are fixed points of trimming and case folding.
pub proof fn lemma_normalize_provider_idempotent(s: Seq<char>)
    ensures
        spec_normalize_provider(spec_normalize_provider(s)) == spec_normalize_provider(s),
{
    lemma_canonical_fixed_points();
}

/// The two canonical identifiers are unchanged by trimming and case folding,
/// and differ from each other.
pub proof fn lemma_canonical_fixed_points()
    ensures
        lower_seq(trim_seq("siliconflow"@)) == "siliconflow"@,
        lower_seq(trim_seq("openrouter"@)) == "openrouter"@,
        "openrouter"@ != "siliconflow"@,
{
    reveal_strlit("siliconflow");
    reveal_strlit("openrouter");
    assert(trim_seq("siliconflow"@) =~= "siliconflow"@);
    assert(lower_seq("siliconflow"@) =~= "siliconflow"@);
    assert(trim_seq("openrouter"@) =~= "openrouter"@);
    assert(lower_seq("openrouter"@) =~= "openrouter"@);
    assert("openrouter"@.len() != "siliconflow"@.len());
}

} // verus!
