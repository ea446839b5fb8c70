//! The transcription configuration value: normalization to canonical form
//! (known provider, effective defaults, trimmed fields) and its idempotence.

use vstd::prelude::*;
use crate::provider::{
    default_model_for_provider, lemma_canonical_fixed_points, lemma_normalize_provider_idempotent,
    normalize_provider, spec_default_base_url, spec_default_model, spec_normalize_provider,
};
use crate::text::{
    chars_to_string, is_ws_char, lemma_suffix_of, lemma_suffix_of_is, lemma_trim_idempotent,
    lemma_ws_prefix, lemma_ws_prefix_is, lemma_ws_suffix, lemma_ws_suffix_is, str_chars,
    suffix_len_of, trim_chars, trim_seq,
};

verus! {

/// Speech-to-text configuration, persisted as a JSON object.
#[derive(Clone, Debug)]
pub struct SttConfig {
    /// Provider identifier; normalized to a known set.
    pub provider: String,
    /// API base URL; blank means the provider default.
    pub base_url: String,
    /// API key; blank means: read the provider's environment variable.
    pub api_key: String,
    /// Model name; blank means the provider default.
    pub model: String,
    /// Whether recognized text is written out automatically.
    pub auto_write: bool,
    /// Recording mode consumed by the hotkey layer: toggle or hold.
    pub record_mode: String,
}

/// The mathematical value of a configuration.
pub struct ConfigView {
    pub provider: Seq<char>,
    pub base_url: Seq<char>,
    pub api_key: Seq<char>,
    pub model: Seq<char>,
    pub auto_write: bool,
    pub record_mode: Seq<char>,
}

impl View for SttConfig {
    type V = ConfigView;

    open spec fn view(&self) -> ConfigView {
        ConfigView {
            provider: self.provider@,
            base_url: self.base_url@,
            api_key: self.api_key@,
            model: self.model@,
            auto_write: self.auto_write,
            record_mode: self.record_mode@,
        }
    }
}

/// Characters stripped from the end of a base URL: trailing slashes and the
/// whitespace they may enclose.
pub open spec fn is_base_pad_char(c: char) -> bool {
    is_ws_char(c) || c == '/'
}

/// The padding predicate as a value, so every use names one function.
pub open spec fn base_pad_p() -> spec_fn(char) -> bool {
    |c: char| is_base_pad_char(c)
}

/// `s` without its trailing slash/whitespace padding.
pub open spec fn strip_base_suffix(s: Seq<char>) -> Seq<char> {
    s.subrange(0, s.len() - suffix_len_of(s, base_pad_p()))
}

/// The effective base URL: the trimmed value without trailing slashes, or the
/// provider default when nothing remains.
pub open spec fn spec_effective_base_url(base_url: Seq<char>, provider: Seq<char>) -> Seq<char> {
    let s = strip_base_suffix(trim_seq(base_url));
    if s.len() == 0 {
        spec_default_base_url(provider)
    } else {
        s
    }
}

/// The effective model: the trimmed value, or the provider default when
/// blank.
pub open spec fn spec_effective_model(model: Seq<char>, provider: Seq<char>) -> Seq<char> {
    if trim_seq(model).len() == 0 {
        spec_default_model(provider)
    } else {
        trim_seq(model)
    }
}

/// Canonical form of a configuration: known provider, effective base URL and
/// model, trimmed key; the behavior flags pass through.
pub open spec fn spec_normalize_config(c: ConfigView) -> ConfigView {
    let p = spec_normalize_provider(c.provider);
    ConfigView {
        provider: p,
        base_url: spec_effective_base_url(c.base_url, p),
        api_key: trim_seq(c.api_key),
        model: spec_effective_model(c.model, p),
        auto_write: c.auto_write,
        record_mode: c.record_mode,
    }
}

/// The configuration used when nothing is persisted.
pub open spec fn spec_default_config() -> ConfigView {
    ConfigView {
        provider: "openrouter"@,
        base_url: "https://openrouter.ai/api/v1"@,
        api_key: Seq::empty(),
        model: "google/gemini-3-flash-preview"@,
        auto_write: false,
        record_mode: "toggle"@,
    }
}

/// The default provider identifier.
pub fn default_provider() -> (r: String)
    ensures
        r@ == "openrouter"@,
{
    "openrouter".to_owned()
}

/// The default recording mode.
pub fn default_record_mode() -> (r: String)
    ensures
        r@ == "toggle"@,
{
    "toggle".to_owned()
}

impl Default for SttConfig {
    /// The out-of-the-box configuration: default provider with its default
    /// endpoint and model, no key, no auto-write, toggle mode.
    fn default() -> (c: SttConfig)
        ensures
            c@ == spec_default_config(),
    {
        let c = SttConfig {
            provider: default_provider(),
            base_url: "https://openrouter.ai/api/v1".to_owned(),
            api_key: String::new(),
            model: "google/gemini-3-flash-preview".to_owned(),
            auto_write: false,
            record_mode: default_record_mode(),
        };
        proof {
            assert(c@.api_key =~= spec_default_config().api_key);
        }
        c
    }
}

/// Resolves the effective base URL for a canonical provider identifier:
/// trims, strips trailing slashes, and falls back to the provider default
/// when nothing remains.
pub fn normalize_base_url(base_url: &str, provider: &str) -> (r: String)
    ensures
        r@ == spec_effective_base_url(base_url@, provider@),
{
    let cs = str_chars(base_url);
    let t = trim_chars(&cs);
    let mut b: usize = t.len();
    while b > 0 && is_base_pad(t[b - 1])
        invariant
            b <= t@.len(),
            forall|k: int| b <= k < t@.len() ==> is_base_pad_char(t@[k]),
        decreases b,
    {
        b -= 1;
    }
    proof {
        lemma_suffix_of_is(t@, base_pad_p(), t@.len() - b);
    }
    if b == 0 {
        let d = crate::provider::default_base_url_for_provider(provider);
        proof {
            assert(strip_base_suffix(trim_seq(base_url@)).len() == 0);
        }
        return d.to_owned();
    }
    let mut r: Vec<char> = Vec::new();
    let mut i: usize = 0;
    while i < b
        invariant
            i <= b <= t@.len(),
            r@ == t@.subrange(0, i as int),
        decreases b - i,
    {
        r.push(t[i]);
        proof {
            assert(t@.subrange(0, i as int).push(t@[i as int]) =~= t@.subrange(0, i + 1));
        }
        i += 1;
    }
    proof {
        assert(r@ =~= strip_base_suffix(trim_seq(base_url@)));
    }
    chars_to_string(&r)
}

/// Whether one character is base-URL padding.
pub fn is_base_pad(c: char) -> (r: bool)
    ensures
        r == is_base_pad_char(c),
{
    c == ' ' || c == '\t' || c == '\n' || c == '\r' || c == '/'
}

/// Trims a string slice.
pub fn trim_str(s: &str) -> (r: String)
    ensures
        r@ == trim_seq(s@),
{
    let cs = str_chars(s);
    let t = trim_chars(&cs);
    chars_to_string(&t)
}

/// Brings a configuration into canonical form: normalized provider,
/// effective base URL and model, trimmed API key.
pub fn normalize_stt_config(config: SttConfig) -> (r: SttConfig)
    ensures
        r@ == spec_normalize_config(config@),
{
    let provider = normalize_provider(config.provider.as_str());
    let base_url = normalize_base_url(config.base_url.as_str(), provider.as_str());
    let model_trimmed = trim_str(config.model.as_str());
    let model = if model_trimmed.as_str().is_empty() {
        default_model_for_provider(provider.as_str()).to_owned()
    } else {
        model_trimmed
    };
    let api_key = trim_str(config.api_key.as_str());
    SttConfig {
        provider,
        base_url,
        api_key,
        model,
        auto_write: config.auto_write,
        record_mode: config.record_mode,
    }
}

/// Whether a usable (non-blank) API key is available, either configured or
/// from the provider's environment variable, whose value the caller passes
/// in.
pub fn has_resolved_api_key(config: &SttConfig, env_value: Option<&str>) -> (r: bool)
    ensures
        r == spec_has_api_key(config@.api_key, match env_value {
            Some(v) => Some(v@),
            None => None,
        }),
{
    let own = trim_str(config.api_key.as_str());
    if !own.as_str().is_empty() {
        return true;
    }
    match env_value {
        Some(v) => {
            let t = trim_str(v);
            !t.as_str().is_empty()
        },
        None => false,
    }
}

/// A usable key exists: the configured one or the environment one is
/// non-blank.
pub open spec fn spec_has_api_key(api_key: Seq<char>, env_value: Option<Seq<char>>) -> bool {
    trim_seq(api_key).len() != 0 || (env_value matches Some(v) && trim_seq(v).len() != 0)
}

/// The four default endpoint/model literals are fixed points of
/// normalization: trimmed, non-blank, and without trailing padding.
pub proof fn lemma_default_literals_fixed()
    ensures
        trim_seq("https://openrouter.ai/api/v1"@) == "https://openrouter.ai/api/v1"@,
        trim_seq("https://api.siliconflow.cn/v1"@) == "https://api.siliconflow.cn/v1"@,
        trim_seq("google/gemini-3-flash-preview"@) == "google/gemini-3-flash-preview"@,
        trim_seq("TeleAI/TeleSpeechASR"@) == "TeleAI/TeleSpeechASR"@,
        strip_base_suffix("https://openrouter.ai/api/v1"@) == "https://openrouter.ai/api/v1"@,
        strip_base_suffix("https://api.siliconflow.cn/v1"@) == "https://api.siliconflow.cn/v1"@,
        "https://openrouter.ai/api/v1"@.len() != 0,
        "https://api.siliconflow.cn/v1"@.len() != 0,
        "google/gemini-3-flash-preview"@.len() != 0,
        "TeleAI/TeleSpeechASR"@.len() != 0,
{
    reveal_strlit("https://openrouter.ai/api/v1");
    reveal_strlit("https://api.siliconflow.cn/v1");
    reveal_strlit("google/gemini-3-flash-preview");
    reveal_strlit("TeleAI/TeleSpeechASR");
    assert(trim_seq("https://openrouter.ai/api/v1"@) =~= "https://openrouter.ai/api/v1"@);
    assert(trim_seq("https://api.siliconflow.cn/v1"@) =~= "https://api.siliconflow.cn/v1"@);
    assert(trim_seq("google/gemini-3-flash-preview"@) =~= "google/gemini-3-flash-preview"@);
    assert(trim_seq("TeleAI/TeleSpeechASR"@) =~= "TeleAI/TeleSpeechASR"@);
    assert(strip_base_suffix("https://openrouter.ai/api/v1"@) =~= "https://openrouter.ai/api/v1"@);
    assert(strip_base_suffix("https://api.siliconflow.cn/v1"@)
        =~= "https://api.siliconflow.cn/v1"@);
}

/// After stripping, a non-empty result starts with a non-whitespace character
/// and ends with a character that is neither whitespace nor a slash; so a
/// second trim-and-strip pass changes nothing.
proof fn lemma_effective_base_url_fixed(b: Seq<char>, p: Seq<char>)
    requires
        strip_base_suffix(trim_seq(b)).len() != 0,
    ensures
        spec_effective_base_url(strip_base_suffix(trim_seq(b)), p) == strip_base_suffix(
            trim_seq(b),
        ),
{
    let pad = base_pad_p();
    let t = trim_seq(b);
    lemma_ws_prefix(b);
    lemma_ws_suffix(b);
    lemma_suffix_of(t, pad);
    let s = strip_base_suffix(t);
    if !(crate::text::ws_prefix_len(b) + crate::text::ws_suffix_len(b) <= b.len()) {
        assert(t =~= Seq::<char>::empty());
        assert(s =~= Seq::<char>::empty());
        assert(false);
    }
    assert(s[0] == t[0]);
    assert(!is_ws_char(t[0])) by {
        assert(t[0] == b[crate::text::ws_prefix_len(b)]);
    }
    assert(!pad(t[t.len() - suffix_len_of(t, pad) - 1]));
    assert(s[s.len() - 1] == t[t.len() - suffix_len_of(t, pad) - 1]);
    assert(!is_ws_char(s[s.len() - 1]) && !is_base_pad_char(s[s.len() - 1]));
    lemma_ws_prefix_is(s, 0);
    lemma_ws_suffix_is(s, 0);
    assert(trim_seq(s) =~= s);
    lemma_suffix_of_is(s, pad, 0);
    assert(strip_base_suffix(s) =~= s);
}

/// Normalization is idempotent: normalizing an already-normalized
/// configuration yields the same configuration.
pub proof fn lemma_normalize_config_idempotent(c: ConfigView)
    ensures
        spec_normalize_config(spec_normalize_config(c)) == spec_normalize_config(c),
{
    lemma_normalize_provider_idempotent(c.provider);
    lemma_canonical_fixed_points();
    lemma_default_literals_fixed();
    let p = spec_normalize_provider(c.provider);
    let n = spec_normalize_config(c);
    // base URL
    if strip_base_suffix(trim_seq(c.base_url)).len() == 0 {
        assert(spec_effective_base_url(n.base_url, p) == n.base_url);
    } else {
        lemma_effective_base_url_fixed(c.base_url, p);
    }
    // model
    if trim_seq(c.model).len() == 0 {
        assert(spec_effective_model(n.model, p) == n.model);
    } else {
        lemma_trim_idempotent(c.model);
        assert(spec_effective_model(n.model, p) == n.model);
    }
    // API key
    lemma_trim_idempotent(c.api_key);
    assert(spec_normalize_config(n) == n);
}

} // verus!
