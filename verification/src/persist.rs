//! The persisted form of the configuration: one JSON object with the six
//! fields, written wholesale on save and read back at startup. Missing
//! `provider`, `auto_write` and `record_mode` fields take their defaults;
//! the other fields are required.

use vstd::prelude::*;
use crate::config::{ConfigView, SttConfig};
use crate::json::{
    bool_at, doc_member, escape_chars, json_escape, lemma_string_body_escaped,
    lemma_string_body_plain, plain_char, spec_bool_at, spec_doc_member, spec_find_field,
    spec_skip_members, spec_skip_value, spec_skip_ws, spec_string_at, spec_string_body,
    spec_valid_object_doc, string_at, valid_chars, valid_object_doc,
};
use crate::text::{chars_to_string, str_chars};

verus! {

use vstd::string::StringExecFns;

/// The serialized form: the six fields, in a fixed order, strings escaped.
#[verifier::opaque]
pub open spec fn spec_config_json(c: ConfigView) -> Seq<char> {
    "{\"provider\":\""@ + json_escape(c.provider) + "\",\"base_url\":\""@ + json_escape(c.base_url)
        + "\",\"api_key\":\""@ + json_escape(c.api_key) + "\",\"model\":\""@ + json_escape(c.model)
        + "\",\"auto_write\":"@ + (if c.auto_write {
        "true"@
    } else {
        "false"@
    }) + ",\"record_mode\":\""@ + json_escape(c.record_mode) + "\"}"@
}

/// Serializes a configuration to its persisted JSON form.
pub fn config_to_json(config: &SttConfig) -> (r: String)
    ensures
        r@ == spec_config_json(config@),
{
    let mut out = "{\"provider\":\"".to_owned();
    out.append(chars_to_string(&escape_chars(&str_chars(config.provider.as_str()))).as_str());
    out.append("\",\"base_url\":\"");
    out.append(chars_to_string(&escape_chars(&str_chars(config.base_url.as_str()))).as_str());
    out.append("\",\"api_key\":\"");
    out.append(chars_to_string(&escape_chars(&str_chars(config.api_key.as_str()))).as_str());
    out.append("\",\"model\":\"");
    out.append(chars_to_string(&escape_chars(&str_chars(config.model.as_str()))).as_str());
    out.append("\",\"auto_write\":");
    if config.auto_write {
        out.append("true");
    } else {
        out.append("false");
    }
    out.append(",\"record_mode\":\"");
    out.append(chars_to_string(&escape_chars(&str_chars(config.record_mode.as_str()))).as_str());
    out.append("\"}");
    proof {
        reveal(spec_config_json);
        assert(out@ =~= spec_config_json(config@));
    }
    out
}

/// A member that must be a string when present: `None` when present with
/// another type, `Some(None)` when missing, `Some(Some(content))` otherwise.
pub open spec fn spec_member_string(s: Seq<char>, key: Seq<char>) -> Option<Option<Seq<char>>> {
    match spec_doc_member(s, key) {
        None => Some(None),
        Some(p) => match spec_string_at(s, p) {
            Some(v) => Some(Some(v)),
            None => None,
        },
    }
}

/// A member that must be a boolean when present.
pub open spec fn spec_member_bool(s: Seq<char>, key: Seq<char>) -> Option<Option<bool>> {
    match spec_doc_member(s, key) {
        None => Some(None),
        Some(p) => match spec_bool_at(s, p) {
            Some(v) => Some(Some(v)),
            None => None,
        },
    }
}

/// The configuration a persisted JSON document denotes: the document must be
/// one JSON object; `base_url`, `api_key` and `model` must be present as
/// strings; `provider`, `auto_write` and `record_mode` default when missing.
pub open spec fn spec_config_from_json(s: Seq<char>) -> Option<ConfigView> {
    if !spec_valid_object_doc(s) {
        None
    } else {
        match (
            spec_member_string(s, "provider"@),
            spec_member_string(s, "base_url"@),
            spec_member_string(s, "api_key"@),
            spec_member_string(s, "model"@),
            spec_member_bool(s, "auto_write"@),
            spec_member_string(s, "record_mode"@),
        ) {
            (Some(p), Some(Some(b)), Some(Some(k)), Some(Some(m)), Some(aw), Some(rm)) => Some(
                ConfigView {
                    provider: match p {
                        Some(v) => v,
                        None => "openrouter"@,
                    },
                    base_url: b,
                    api_key: k,
                    model: m,
                    auto_write: match aw {
                        Some(v) => v,
                        None => false,
                    },
                    record_mode: match rm {
                        Some(v) => v,
                        None => "toggle"@,
                    },
                },
            ),
            _ => None,
        }
    }
}

/// Executable lookup of a string member.
fn member_string(cs: &Vec<char>, key: &str) -> (r: Option<Option<String>>)
    ensures
        (match r {
            Some(Some(v)) => spec_member_string(cs@, key@) == Some(Some(v@)),
            Some(None) => spec_member_string(cs@, key@) == Some(None::<Seq<char>>),
            None => spec_member_string(cs@, key@) is None,
        }),
{
    let k = str_chars(key);
    match doc_member(cs, &k) {
        None => Some(None),
        Some(p) => {
            match string_at(cs, p) {
                Some(v) => Some(Some(chars_to_string(&v))),
                None => None,
            }
        },
    }
}

/// Executable lookup of a boolean member.
fn member_bool(cs: &Vec<char>, key: &str) -> (r: Option<Option<bool>>)
    ensures
        (match r {
            Some(v) => spec_member_bool(cs@, key@) == Some(v),
            None => spec_member_bool(cs@, key@) is None,
        }),
{
    let k = str_chars(key);
    match doc_member(cs, &k) {
        None => Some(None),
        Some(p) => {
            match bool_at(cs, p) {
                Some(v) => Some(Some(v)),
                None => None,
            }
        },
    }
}

/// Parses a persisted configuration document.
pub fn parse_stt_config(s: &str) -> (r: Option<SttConfig>)
    ensures
        (match r {
            Some(c) => spec_config_from_json(s@) == Some(c@),
            None => spec_config_from_json(s@) is None,
        }),
{
    let cs = str_chars(s);
    if valid_object_doc(&cs).is_none() {
        return None;
    }
    let provider = match member_string(&cs, "provider") {
        Some(Some(v)) => v,
        Some(None) => "openrouter".to_owned(),
        None => {
            return None;
        },
    };
    let base_url = match member_string(&cs, "base_url") {
        Some(Some(v)) => v,
        Some(None) => {
            return None;
        },
        None => {
            return None;
        },
    };
    let api_key = match member_string(&cs, "api_key") {
        Some(Some(v)) => v,
        Some(None) => {
            return None;
        },
        None => {
            return None;
        },
    };
    let model = match member_string(&cs, "model") {
        Some(Some(v)) => v,
        Some(None) => {
            return None;
        },
        None => {
            return None;
        },
    };
    let auto_write = match member_bool(&cs, "auto_write") {
        Some(Some(v)) => v,
        Some(None) => false,
        None => {
            return None;
        },
    };
    let record_mode = match member_string(&cs, "record_mode") {
        Some(Some(v)) => v,
        Some(None) => "toggle".to_owned(),
        None => {
            return None;
        },
    };
    Some(SttConfig { provider, base_url, api_key, model, auto_write, record_mode })
}


/// Offsets of the pieces of the serialized form.
pub open spec fn cfg_o3(c: ConfigView) -> int {
    13 + json_escape(c.provider).len() as int
}

pub open spec fn cfg_o5(c: ConfigView) -> int {
    cfg_o3(c) + 14 + json_escape(c.base_url).len() as int
}

pub open spec fn cfg_o7(c: ConfigView) -> int {
    cfg_o5(c) + 13 + json_escape(c.api_key).len() as int
}

pub open spec fn cfg_o9(c: ConfigView) -> int {
    cfg_o7(c) + 11 + json_escape(c.model).len() as int
}

pub open spec fn cfg_o11(c: ConfigView) -> int {
    cfg_o9(c) + 15 + (if c.auto_write {
        4int
    } else {
        5int
    })
}

pub open spec fn cfg_o13(c: ConfigView) -> int {
    cfg_o11(c) + 16 + json_escape(c.record_mode).len() as int
}

/// Where each character of the serialized form sits.
#[verifier::rlimit(100)]
#[verifier::spinoff_prover]
proof fn lemma_cfg_layout(c: ConfigView)
    ensures
        spec_config_json(c).len() == cfg_o13(c) + 2,
        spec_config_json(c)[0] == '{',
        spec_config_json(c)[1] == '"',
        spec_config_json(c).subrange(2, 10) == "provider"@,
        spec_config_json(c)[10] == '"',
        spec_config_json(c)[11] == ':',
        spec_config_json(c)[12] == '"',
        spec_config_json(c).subrange(13, cfg_o3(c)) == json_escape(c.provider),
        spec_config_json(c)[cfg_o3(c)] == '"',
        spec_config_json(c)[cfg_o3(c) + 1] == ',',
        spec_config_json(c)[cfg_o3(c) + 2] == '"',
        spec_config_json(c).subrange(cfg_o3(c) + 3, cfg_o3(c) + 11) == "base_url"@,
        spec_config_json(c)[cfg_o3(c) + 11] == '"',
        spec_config_json(c)[cfg_o3(c) + 12] == ':',
        spec_config_json(c)[cfg_o3(c) + 13] == '"',
        spec_config_json(c).subrange(cfg_o3(c) + 14, cfg_o5(c)) == json_escape(c.base_url),
        spec_config_json(c)[cfg_o5(c)] == '"',
        spec_config_json(c)[cfg_o5(c) + 1] == ',',
        spec_config_json(c)[cfg_o5(c) + 2] == '"',
        spec_config_json(c).subrange(cfg_o5(c) + 3, cfg_o5(c) + 10) == "api_key"@,
        spec_config_json(c)[cfg_o5(c) + 10] == '"',
        spec_config_json(c)[cfg_o5(c) + 11] == ':',
        spec_config_json(c)[cfg_o5(c) + 12] == '"',
        spec_config_json(c).subrange(cfg_o5(c) + 13, cfg_o7(c)) == json_escape(c.api_key),
        spec_config_json(c)[cfg_o7(c)] == '"',
        spec_config_json(c)[cfg_o7(c) + 1] == ',',
        spec_config_json(c)[cfg_o7(c) + 2] == '"',
        spec_config_json(c).subrange(cfg_o7(c) + 3, cfg_o7(c) + 8) == "model"@,
        spec_config_json(c)[cfg_o7(c) + 8] == '"',
        spec_config_json(c)[cfg_o7(c) + 9] == ':',
        spec_config_json(c)[cfg_o7(c) + 10] == '"',
        spec_config_json(c).subrange(cfg_o7(c) + 11, cfg_o9(c)) == json_escape(c.model),
        spec_config_json(c)[cfg_o9(c)] == '"',
        spec_config_json(c)[cfg_o9(c) + 1] == ',',
        spec_config_json(c)[cfg_o9(c) + 2] == '"',
        spec_config_json(c).subrange(cfg_o9(c) + 3, cfg_o9(c) + 13) == "auto_write"@,
        spec_config_json(c)[cfg_o9(c) + 13] == '"',
        spec_config_json(c)[cfg_o9(c) + 14] == ':',
        spec_config_json(c).subrange(cfg_o9(c) + 15, cfg_o11(c)) == (if c.auto_write {
            "true"@
        } else {
            "false"@
        }),
        spec_config_json(c)[cfg_o9(c) + 15] == (if c.auto_write {
            't'
        } else {
            'f'
        }),
        spec_config_json(c)[cfg_o11(c)] == ',',
        spec_config_json(c)[cfg_o11(c) + 1] == '"',
        spec_config_json(c).subrange(cfg_o11(c) + 2, cfg_o11(c) + 13) == "record_mode"@,
        spec_config_json(c)[cfg_o11(c) + 13] == '"',
        spec_config_json(c)[cfg_o11(c) + 14] == ':',
        spec_config_json(c)[cfg_o11(c) + 15] == '"',
        spec_config_json(c).subrange(cfg_o11(c) + 16, cfg_o13(c)) == json_escape(c.record_mode),
        spec_config_json(c)[cfg_o13(c)] == '"',
        spec_config_json(c)[cfg_o13(c) + 1] == '}',
{
    reveal(spec_config_json);
    reveal_strlit("{\"provider\":\"");
    reveal_strlit("\",\"base_url\":\"");
    reveal_strlit("\",\"api_key\":\"");
    reveal_strlit("\",\"model\":\"");
    reveal_strlit("\",\"auto_write\":");
    reveal_strlit(",\"record_mode\":\"");
    reveal_strlit("\"}");
    reveal_strlit("provider");
    reveal_strlit("base_url");
    reveal_strlit("api_key");
    reveal_strlit("model");
    reveal_strlit("auto_write");
    reveal_strlit("record_mode");
    reveal_strlit("true");
    reveal_strlit("false");
    let s = spec_config_json(c);
    let ep = json_escape(c.provider);
    let eb = json_escape(c.base_url);
    let ek = json_escape(c.api_key);
    let em = json_escape(c.model);
    let erm = json_escape(c.record_mode);
    let s1 = "{\"provider\":\""@ + ep;
    let s2 = s1 + "\",\"base_url\":\""@;
    let s3 = s2 + eb;
    let s4 = s3 + "\",\"api_key\":\""@;
    let s5 = s4 + ek;
    let s6 = s5 + "\",\"model\":\""@;
    let s7 = s6 + em;
    let s8 = s7 + "\",\"auto_write\":"@;
    let s9 = s8 + (if c.auto_write {
        "true"@
    } else {
        "false"@
    });
    let s10 = s9 + ",\"record_mode\":\""@;
    let s11 = s10 + erm;
    assert(s == s11 + "\"}"@);
    assert(forall|j: int| 0 <= j < s11.len() ==> s[j] == s11[j]);
    assert(forall|j: int| 0 <= j < s10.len() ==> s11[j] == s10[j]);
    assert(forall|j: int| 0 <= j < s9.len() ==> s10[j] == s9[j]);
    assert(forall|j: int| 0 <= j < s8.len() ==> s9[j] == s8[j]);
    assert(forall|j: int| 0 <= j < s7.len() ==> s8[j] == s7[j]);
    assert(forall|j: int| 0 <= j < s6.len() ==> s7[j] == s6[j]);
    assert(forall|j: int| 0 <= j < s5.len() ==> s6[j] == s5[j]);
    assert(forall|j: int| 0 <= j < s4.len() ==> s5[j] == s4[j]);
    assert(forall|j: int| 0 <= j < s3.len() ==> s4[j] == s3[j]);
    assert(forall|j: int| 0 <= j < s2.len() ==> s3[j] == s2[j]);
    assert(forall|j: int| 0 <= j < s1.len() ==> s2[j] == s1[j]);
    assert(s.subrange(2, 10) =~= "provider"@);
    assert(s.subrange(13, cfg_o3(c)) =~= ep);
    assert(s.subrange(cfg_o3(c) + 3, cfg_o3(c) + 11) =~= "base_url"@);
    assert(s.subrange(cfg_o3(c) + 14, cfg_o5(c)) =~= eb);
    assert(s.subrange(cfg_o5(c) + 3, cfg_o5(c) + 10) =~= "api_key"@);
    assert(s.subrange(cfg_o5(c) + 13, cfg_o7(c)) =~= ek);
    assert(s.subrange(cfg_o7(c) + 3, cfg_o7(c) + 8) =~= "model"@);
    assert(s.subrange(cfg_o7(c) + 11, cfg_o9(c)) =~= em);
    assert(s.subrange(cfg_o9(c) + 3, cfg_o9(c) + 13) =~= "auto_write"@);
    if c.auto_write {
        assert(s.subrange(cfg_o9(c) + 15, cfg_o11(c)) =~= "true"@);
        assert(s[cfg_o9(c) + 15] == 't') by {
            assert(s.subrange(cfg_o9(c) + 15, cfg_o11(c))[0] == s[cfg_o9(c) + 15]);
        }
    } else {
        assert(s.subrange(cfg_o9(c) + 15, cfg_o11(c)) =~= "false"@);
        assert(s[cfg_o9(c) + 15] == 'f') by {
            assert(s.subrange(cfg_o9(c) + 15, cfg_o11(c))[0] == s[cfg_o9(c) + 15]);
        }
    }
    assert(s.subrange(cfg_o11(c) + 2, cfg_o11(c) + 13) =~= "record_mode"@);
    assert(s.subrange(cfg_o11(c) + 16, cfg_o13(c)) =~= erm);
}


/// The six keys and six values parse at their positions.
#[verifier::rlimit(100)]
#[verifier::spinoff_prover]
proof fn lemma_cfg_values(c: ConfigView)
    requires
        valid_chars(c.provider),
        valid_chars(c.base_url),
        valid_chars(c.api_key),
        valid_chars(c.model),
        valid_chars(c.record_mode),
    ensures
        spec_string_body(spec_config_json(c), 2) == Some(("provider"@, 11int)),
        spec_string_body(spec_config_json(c), cfg_o3(c) + 3) == Some(("base_url"@, cfg_o3(c) + 12)),
        spec_string_body(spec_config_json(c), cfg_o5(c) + 3) == Some(("api_key"@, cfg_o5(c) + 11)),
        spec_string_body(spec_config_json(c), cfg_o7(c) + 3) == Some(("model"@, cfg_o7(c) + 9)),
        spec_string_body(spec_config_json(c), cfg_o9(c) + 3) == Some(
            ("auto_write"@, cfg_o9(c) + 14),
        ),
        spec_string_body(spec_config_json(c), cfg_o11(c) + 2) == Some(
            ("record_mode"@, cfg_o11(c) + 14),
        ),
        spec_skip_value(spec_config_json(c), 12) == Some(cfg_o3(c) + 1),
        spec_skip_value(spec_config_json(c), cfg_o3(c) + 13) == Some(cfg_o5(c) + 1),
        spec_skip_value(spec_config_json(c), cfg_o5(c) + 12) == Some(cfg_o7(c) + 1),
        spec_skip_value(spec_config_json(c), cfg_o7(c) + 10) == Some(cfg_o9(c) + 1),
        spec_skip_value(spec_config_json(c), cfg_o9(c) + 15) == Some(cfg_o11(c)),
        spec_skip_value(spec_config_json(c), cfg_o11(c) + 15) == Some(cfg_o13(c) + 1),
        spec_string_at(spec_config_json(c), 12) == Some(c.provider),
        spec_string_at(spec_config_json(c), cfg_o3(c) + 13) == Some(c.base_url),
        spec_string_at(spec_config_json(c), cfg_o5(c) + 12) == Some(c.api_key),
        spec_string_at(spec_config_json(c), cfg_o7(c) + 10) == Some(c.model),
        spec_bool_at(spec_config_json(c), cfg_o9(c) + 15) == Some(c.auto_write),
        spec_string_at(spec_config_json(c), cfg_o11(c) + 15) == Some(c.record_mode),
{
    lemma_cfg_layout(c);
    reveal_strlit("provider");
    reveal_strlit("base_url");
    reveal_strlit("api_key");
    reveal_strlit("model");
    reveal_strlit("auto_write");
    reveal_strlit("record_mode");
    reveal_strlit("true");
    reveal_strlit("false");
    let s = spec_config_json(c);
    assert forall|k: int| 2 <= k < 10 implies plain_char(#[trigger] s[k]) by {
        assert(s.subrange(2, 10)[k - 2] == s[k]);
    }
    lemma_string_body_plain(s, 2, 8);
    assert(s.subrange(2, 10) == "provider"@);
    assert forall|k: int| cfg_o3(c) + 3 <= k < cfg_o3(c) + 11 implies plain_char(
        #[trigger] s[k],
    ) by {
        assert(s.subrange(cfg_o3(c) + 3, cfg_o3(c) + 11)[k - (cfg_o3(c) + 3)] == s[k]);
    }
    lemma_string_body_plain(s, cfg_o3(c) + 3, 8);
    assert forall|k: int| cfg_o5(c) + 3 <= k < cfg_o5(c) + 10 implies plain_char(
        #[trigger] s[k],
    ) by {
        assert(s.subrange(cfg_o5(c) + 3, cfg_o5(c) + 10)[k - (cfg_o5(c) + 3)] == s[k]);
    }
    lemma_string_body_plain(s, cfg_o5(c) + 3, 7);
    assert forall|k: int| cfg_o7(c) + 3 <= k < cfg_o7(c) + 8 implies plain_char(
        #[trigger] s[k],
    ) by {
        assert(s.subrange(cfg_o7(c) + 3, cfg_o7(c) + 8)[k - (cfg_o7(c) + 3)] == s[k]);
    }
    lemma_string_body_plain(s, cfg_o7(c) + 3, 5);
    assert forall|k: int| cfg_o9(c) + 3 <= k < cfg_o9(c) + 13 implies plain_char(
        #[trigger] s[k],
    ) by {
        assert(s.subrange(cfg_o9(c) + 3, cfg_o9(c) + 13)[k - (cfg_o9(c) + 3)] == s[k]);
    }
    lemma_string_body_plain(s, cfg_o9(c) + 3, 10);
    assert forall|k: int| cfg_o11(c) + 2 <= k < cfg_o11(c) + 13 implies plain_char(
        #[trigger] s[k],
    ) by {
        assert(s.subrange(cfg_o11(c) + 2, cfg_o11(c) + 13)[k - (cfg_o11(c) + 2)] == s[k]);
    }
    lemma_string_body_plain(s, cfg_o11(c) + 2, 11);
    lemma_string_body_escaped(s, 13, c.provider);
    lemma_string_body_escaped(s, cfg_o3(c) + 14, c.base_url);
    lemma_string_body_escaped(s, cfg_o5(c) + 13, c.api_key);
    lemma_string_body_escaped(s, cfg_o7(c) + 11, c.model);
    lemma_string_body_escaped(s, cfg_o11(c) + 16, c.record_mode);
    if c.auto_write {
        assert(s[cfg_o9(c) + 15] == 't');
        assert(s.subrange(cfg_o9(c) + 15, cfg_o9(c) + 19) == "true"@);
        assert(spec_skip_value(s, cfg_o9(c) + 15) == Some(cfg_o11(c)));
        assert(spec_bool_at(s, cfg_o9(c) + 15) == Some(true));
    } else {
        assert(s[cfg_o9(c) + 15] == 'f');
        assert(s.subrange(cfg_o9(c) + 15, cfg_o9(c) + 20) == "false"@);
        assert(s.subrange(cfg_o9(c) + 15, cfg_o9(c) + 19) != "true"@) by {
            assert(s.subrange(cfg_o9(c) + 15, cfg_o9(c) + 19)[0] == s[cfg_o9(c) + 15]);
            assert("true"@[0] == 't');
        }
        assert(spec_skip_value(s, cfg_o9(c) + 15) == Some(cfg_o11(c)));
        assert(spec_bool_at(s, cfg_o9(c) + 15) == Some(false));
    }
}

/// The member chain closes the object exactly at the end of the document.
#[verifier::rlimit(100)]
#[verifier::spinoff_prover]
proof fn lemma_cfg_doc(c: ConfigView)
    requires
        valid_chars(c.provider),
        valid_chars(c.base_url),
        valid_chars(c.api_key),
        valid_chars(c.model),
        valid_chars(c.record_mode),
    ensures
        spec_valid_object_doc(spec_config_json(c)),
        crate::json::spec_doc_start(spec_config_json(c)) == 0,
        spec_skip_ws(spec_config_json(c), 1) == 1,
{
    lemma_cfg_layout(c);
    lemma_cfg_values(c);
    let s = spec_config_json(c);
    let n = cfg_o13(c) + 2;
    assert(spec_skip_ws(s, 0) == 0 && spec_skip_ws(s, 1) == 1);
    assert(spec_skip_ws(s, 10) == 10 && spec_skip_ws(s, 11) == 11 && spec_skip_ws(s, 12) == 12);
    assert(spec_skip_ws(s, cfg_o3(c) + 1) == cfg_o3(c) + 1 && spec_skip_ws(s, cfg_o3(c) + 2)
        == cfg_o3(c) + 2);
    assert(spec_skip_ws(s, cfg_o3(c) + 12) == cfg_o3(c) + 12 && spec_skip_ws(s, cfg_o3(c) + 13)
        == cfg_o3(c) + 13);
    assert(spec_skip_ws(s, cfg_o5(c) + 1) == cfg_o5(c) + 1 && spec_skip_ws(s, cfg_o5(c) + 2)
        == cfg_o5(c) + 2);
    assert(spec_skip_ws(s, cfg_o5(c) + 11) == cfg_o5(c) + 11 && spec_skip_ws(s, cfg_o5(c) + 12)
        == cfg_o5(c) + 12);
    assert(spec_skip_ws(s, cfg_o7(c) + 1) == cfg_o7(c) + 1 && spec_skip_ws(s, cfg_o7(c) + 2)
        == cfg_o7(c) + 2);
    assert(spec_skip_ws(s, cfg_o7(c) + 9) == cfg_o7(c) + 9 && spec_skip_ws(s, cfg_o7(c) + 10)
        == cfg_o7(c) + 10);
    assert(spec_skip_ws(s, cfg_o9(c) + 1) == cfg_o9(c) + 1 && spec_skip_ws(s, cfg_o9(c) + 2)
        == cfg_o9(c) + 2);
    assert(spec_skip_ws(s, cfg_o9(c) + 14) == cfg_o9(c) + 14 && spec_skip_ws(s, cfg_o9(c) + 15)
        == cfg_o9(c) + 15);
    assert(spec_skip_ws(s, cfg_o11(c)) == cfg_o11(c) && spec_skip_ws(s, cfg_o11(c) + 1)
        == cfg_o11(c) + 1);
    assert(spec_skip_ws(s, cfg_o11(c) + 14) == cfg_o11(c) + 14 && spec_skip_ws(s, cfg_o11(c) + 15)
        == cfg_o11(c) + 15);
    assert(spec_skip_ws(s, cfg_o13(c) + 1) == cfg_o13(c) + 1);
    assert(spec_skip_ws(s, n) == n);
    assert(spec_skip_members(s, cfg_o11(c) + 1, false) == Some(n));
    assert(spec_skip_members(s, cfg_o9(c) + 2, false) == Some(n));
    assert(spec_skip_members(s, cfg_o7(c) + 2, false) == Some(n));
    assert(spec_skip_members(s, cfg_o5(c) + 2, false) == Some(n));
    assert(spec_skip_members(s, cfg_o3(c) + 2, false) == Some(n));
    assert(spec_skip_members(s, 1, true) == Some(n));
    assert(spec_skip_value(s, 0) == Some(n));
    assert(spec_valid_object_doc(s));
}

/// The lookup of `provider` lands on that field's value.
#[verifier::rlimit(100)]
#[verifier::spinoff_prover]
proof fn lemma_cfg_field_provider(c: ConfigView)
    requires
        valid_chars(c.provider),
        valid_chars(c.base_url),
        valid_chars(c.api_key),
        valid_chars(c.model),
        valid_chars(c.record_mode),
    ensures
        spec_doc_member(spec_config_json(c), "provider"@) == Some(12int),
{
    lemma_cfg_layout(c);
    lemma_cfg_values(c);
    lemma_cfg_doc(c);
    reveal_strlit("provider");
    reveal_strlit("base_url");
    reveal_strlit("api_key");
    reveal_strlit("model");
    reveal_strlit("auto_write");
    reveal_strlit("record_mode");
    let s = spec_config_json(c);
    assert(spec_skip_ws(s, 10) == 10 && spec_skip_ws(s, 11) == 11 && spec_skip_ws(s, 12) == 12);
    assert(spec_skip_ws(s, cfg_o3(c) + 1) == cfg_o3(c) + 1 && spec_skip_ws(s, cfg_o3(c) + 2)
        == cfg_o3(c) + 2);
    assert(spec_skip_ws(s, cfg_o3(c) + 12) == cfg_o3(c) + 12 && spec_skip_ws(s, cfg_o3(c) + 13)
        == cfg_o3(c) + 13);
    assert(spec_skip_ws(s, cfg_o5(c) + 1) == cfg_o5(c) + 1 && spec_skip_ws(s, cfg_o5(c) + 2)
        == cfg_o5(c) + 2);
    assert(spec_skip_ws(s, cfg_o5(c) + 11) == cfg_o5(c) + 11 && spec_skip_ws(s, cfg_o5(c) + 12)
        == cfg_o5(c) + 12);
    assert(spec_skip_ws(s, cfg_o7(c) + 1) == cfg_o7(c) + 1 && spec_skip_ws(s, cfg_o7(c) + 2)
        == cfg_o7(c) + 2);
    assert(spec_skip_ws(s, cfg_o7(c) + 9) == cfg_o7(c) + 9 && spec_skip_ws(s, cfg_o7(c) + 10)
        == cfg_o7(c) + 10);
    assert(spec_skip_ws(s, cfg_o9(c) + 1) == cfg_o9(c) + 1 && spec_skip_ws(s, cfg_o9(c) + 2)
        == cfg_o9(c) + 2);
    assert(spec_skip_ws(s, cfg_o9(c) + 14) == cfg_o9(c) + 14 && spec_skip_ws(s, cfg_o9(c) + 15)
        == cfg_o9(c) + 15);
    assert(spec_skip_ws(s, cfg_o11(c)) == cfg_o11(c) && spec_skip_ws(s, cfg_o11(c) + 1)
        == cfg_o11(c) + 1);
    assert(spec_skip_ws(s, cfg_o11(c) + 14) == cfg_o11(c) + 14 && spec_skip_ws(s, cfg_o11(c) + 15)
        == cfg_o11(c) + 15);
    assert("provider"@ != "base_url"@) by {
        assert("provider"@[0] == 'p' && "base_url"@[0] == 'b');
    }
    assert("provider"@.len() == 8 && "base_url"@.len() == 8 && "api_key"@.len() == 7
        && "model"@.len() == 5 && "auto_write"@.len() == 10 && "record_mode"@.len() == 11);
    assert(spec_find_field(s, 1, "provider"@) == Some(12int));
    assert(spec_doc_member(s, "provider"@) == Some(12int));
}

/// The lookup of `base_url` lands on that field's value.
#[verifier::rlimit(100)]
#[verifier::spinoff_prover]
proof fn lemma_cfg_field_base_url(c: ConfigView)
    requires
        valid_chars(c.provider),
        valid_chars(c.base_url),
        valid_chars(c.api_key),
        valid_chars(c.model),
        valid_chars(c.record_mode),
    ensures
        spec_doc_member(spec_config_json(c), "base_url"@) == Some(cfg_o3(c) + 13),
{
    lemma_cfg_layout(c);
    lemma_cfg_values(c);
    lemma_cfg_doc(c);
    reveal_strlit("provider");
    reveal_strlit("base_url");
    reveal_strlit("api_key");
    reveal_strlit("model");
    reveal_strlit("auto_write");
    reveal_strlit("record_mode");
    let s = spec_config_json(c);
    assert(spec_skip_ws(s, 10) == 10 && spec_skip_ws(s, 11) == 11 && spec_skip_ws(s, 12) == 12);
    assert(spec_skip_ws(s, cfg_o3(c) + 1) == cfg_o3(c) + 1 && spec_skip_ws(s, cfg_o3(c) + 2)
        == cfg_o3(c) + 2);
    assert(spec_skip_ws(s, cfg_o3(c) + 12) == cfg_o3(c) + 12 && spec_skip_ws(s, cfg_o3(c) + 13)
        == cfg_o3(c) + 13);
    assert(spec_skip_ws(s, cfg_o5(c) + 1) == cfg_o5(c) + 1 && spec_skip_ws(s, cfg_o5(c) + 2)
        == cfg_o5(c) + 2);
    assert(spec_skip_ws(s, cfg_o5(c) + 11) == cfg_o5(c) + 11 && spec_skip_ws(s, cfg_o5(c) + 12)
        == cfg_o5(c) + 12);
    assert(spec_skip_ws(s, cfg_o7(c) + 1) == cfg_o7(c) + 1 && spec_skip_ws(s, cfg_o7(c) + 2)
        == cfg_o7(c) + 2);
    assert(spec_skip_ws(s, cfg_o7(c) + 9) == cfg_o7(c) + 9 && spec_skip_ws(s, cfg_o7(c) + 10)
        == cfg_o7(c) + 10);
    assert(spec_skip_ws(s, cfg_o9(c) + 1) == cfg_o9(c) + 1 && spec_skip_ws(s, cfg_o9(c) + 2)
        == cfg_o9(c) + 2);
    assert(spec_skip_ws(s, cfg_o9(c) + 14) == cfg_o9(c) + 14 && spec_skip_ws(s, cfg_o9(c) + 15)
        == cfg_o9(c) + 15);
    assert(spec_skip_ws(s, cfg_o11(c)) == cfg_o11(c) && spec_skip_ws(s, cfg_o11(c) + 1)
        == cfg_o11(c) + 1);
    assert(spec_skip_ws(s, cfg_o11(c) + 14) == cfg_o11(c) + 14 && spec_skip_ws(s, cfg_o11(c) + 15)
        == cfg_o11(c) + 15);
    assert("provider"@ != "base_url"@) by {
        assert("provider"@[0] == 'p' && "base_url"@[0] == 'b');
    }
    assert("provider"@.len() == 8 && "base_url"@.len() == 8 && "api_key"@.len() == 7
        && "model"@.len() == 5 && "auto_write"@.len() == 10 && "record_mode"@.len() == 11);
    assert(spec_find_field(s, cfg_o3(c) + 2, "base_url"@) == Some(cfg_o3(c) + 13));
    assert(spec_find_field(s, 1, "base_url"@) == Some(cfg_o3(c) + 13));
    assert(spec_doc_member(s, "base_url"@) == Some(cfg_o3(c) + 13));
}

/// The lookup of `api_key` lands on that field's value.
#[verifier::rlimit(100)]
#[verifier::spinoff_prover]
proof fn lemma_cfg_field_api_key(c: ConfigView)
    requires
        valid_chars(c.provider),
        valid_chars(c.base_url),
        valid_chars(c.api_key),
        valid_chars(c.model),
        valid_chars(c.record_mode),
    ensures
        spec_doc_member(spec_config_json(c), "api_key"@) == Some(cfg_o5(c) + 12),
{
    lemma_cfg_layout(c);
    lemma_cfg_values(c);
    lemma_cfg_doc(c);
    reveal_strlit("provider");
    reveal_strlit("base_url");
    reveal_strlit("api_key");
    reveal_strlit("model");
    reveal_strlit("auto_write");
    reveal_strlit("record_mode");
    let s = spec_config_json(c);
    assert(spec_skip_ws(s, 10) == 10 && spec_skip_ws(s, 11) == 11 && spec_skip_ws(s, 12) == 12);
    assert(spec_skip_ws(s, cfg_o3(c) + 1) == cfg_o3(c) + 1 && spec_skip_ws(s, cfg_o3(c) + 2)
        == cfg_o3(c) + 2);
    assert(spec_skip_ws(s, cfg_o3(c) + 12) == cfg_o3(c) + 12 && spec_skip_ws(s, cfg_o3(c) + 13)
        == cfg_o3(c) + 13);
    assert(spec_skip_ws(s, cfg_o5(c) + 1) == cfg_o5(c) + 1 && spec_skip_ws(s, cfg_o5(c) + 2)
        == cfg_o5(c) + 2);
    assert(spec_skip_ws(s, cfg_o5(c) + 11) == cfg_o5(c) + 11 && spec_skip_ws(s, cfg_o5(c) + 12)
        == cfg_o5(c) + 12);
    assert(spec_skip_ws(s, cfg_o7(c) + 1) == cfg_o7(c) + 1 && spec_skip_ws(s, cfg_o7(c) + 2)
        == cfg_o7(c) + 2);
    assert(spec_skip_ws(s, cfg_o7(c) + 9) == cfg_o7(c) + 9 && spec_skip_ws(s, cfg_o7(c) + 10)
        == cfg_o7(c) + 10);
    assert(spec_skip_ws(s, cfg_o9(c) + 1) == cfg_o9(c) + 1 && spec_skip_ws(s, cfg_o9(c) + 2)
        == cfg_o9(c) + 2);
    assert(spec_skip_ws(s, cfg_o9(c) + 14) == cfg_o9(c) + 14 && spec_skip_ws(s, cfg_o9(c) + 15)
        == cfg_o9(c) + 15);
    assert(spec_skip_ws(s, cfg_o11(c)) == cfg_o11(c) && spec_skip_ws(s, cfg_o11(c) + 1)
        == cfg_o11(c) + 1);
    assert(spec_skip_ws(s, cfg_o11(c) + 14) == cfg_o11(c) + 14 && spec_skip_ws(s, cfg_o11(c) + 15)
        == cfg_o11(c) + 15);
    assert("provider"@ != "base_url"@) by {
        assert("provider"@[0] == 'p' && "base_url"@[0] == 'b');
    }
    assert("provider"@.len() == 8 && "base_url"@.len() == 8 && "api_key"@.len() == 7
        && "model"@.len() == 5 && "auto_write"@.len() == 10 && "record_mode"@.len() == 11);
    assert(spec_find_field(s, cfg_o5(c) + 2, "api_key"@) == Some(cfg_o5(c) + 12));
    assert(spec_find_field(s, cfg_o3(c) + 2, "api_key"@) == Some(cfg_o5(c) + 12));
    assert(spec_find_field(s, 1, "api_key"@) == Some(cfg_o5(c) + 12));
    assert(spec_doc_member(s, "api_key"@) == Some(cfg_o5(c) + 12));
}

/// The lookup of `model` lands on that field's value.
#[verifier::rlimit(100)]
#[verifier::spinoff_prover]
proof fn lemma_cfg_field_model(c: ConfigView)
    requires
        valid_chars(c.provider),
        valid_chars(c.base_url),
        valid_chars(c.api_key),
        valid_chars(c.model),
        valid_chars(c.record_mode),
    ensures
        spec_doc_member(spec_config_json(c), "model"@) == Some(cfg_o7(c) + 10),
{
    lemma_cfg_layout(c);
    lemma_cfg_values(c);
    lemma_cfg_doc(c);
    reveal_strlit("provider");
    reveal_strlit("base_url");
    reveal_strlit("api_key");
    reveal_strlit("model");
    reveal_strlit("auto_write");
    reveal_strlit("record_mode");
    let s = spec_config_json(c);
    assert(spec_skip_ws(s, 10) == 10 && spec_skip_ws(s, 11) == 11 && spec_skip_ws(s, 12) == 12);
    assert(spec_skip_ws(s, cfg_o3(c) + 1) == cfg_o3(c) + 1 && spec_skip_ws(s, cfg_o3(c) + 2)
        == cfg_o3(c) + 2);
    assert(spec_skip_ws(s, cfg_o3(c) + 12) == cfg_o3(c) + 12 && spec_skip_ws(s, cfg_o3(c) + 13)
        == cfg_o3(c) + 13);
    assert(spec_skip_ws(s, cfg_o5(c) + 1) == cfg_o5(c) + 1 && spec_skip_ws(s, cfg_o5(c) + 2)
        == cfg_o5(c) + 2);
    assert(spec_skip_ws(s, cfg_o5(c) + 11) == cfg_o5(c) + 11 && spec_skip_ws(s, cfg_o5(c) + 12)
        == cfg_o5(c) + 12);
    assert(spec_skip_ws(s, cfg_o7(c) + 1) == cfg_o7(c) + 1 && spec_skip_ws(s, cfg_o7(c) + 2)
        == cfg_o7(c) + 2);
    assert(spec_skip_ws(s, cfg_o7(c) + 9) == cfg_o7(c) + 9 && spec_skip_ws(s, cfg_o7(c) + 10)
        == cfg_o7(c) + 10);
    assert(spec_skip_ws(s, cfg_o9(c) + 1) == cfg_o9(c) + 1 && spec_skip_ws(s, cfg_o9(c) + 2)
        == cfg_o9(c) + 2);
    assert(spec_skip_ws(s, cfg_o9(c) + 14) == cfg_o9(c) + 14 && spec_skip_ws(s, cfg_o9(c) + 15)
        == cfg_o9(c) + 15);
    assert(spec_skip_ws(s, cfg_o11(c)) == cfg_o11(c) && spec_skip_ws(s, cfg_o11(c) + 1)
        == cfg_o11(c) + 1);
    assert(spec_skip_ws(s, cfg_o11(c) + 14) == cfg_o11(c) + 14 && spec_skip_ws(s, cfg_o11(c) + 15)
        == cfg_o11(c) + 15);
    assert("provider"@ != "base_url"@) by {
        assert("provider"@[0] == 'p' && "base_url"@[0] == 'b');
    }
    assert("provider"@.len() == 8 && "base_url"@.len() == 8 && "api_key"@.len() == 7
        && "model"@.len() == 5 && "auto_write"@.len() == 10 && "record_mode"@.len() == 11);
    assert(spec_find_field(s, cfg_o7(c) + 2, "model"@) == Some(cfg_o7(c) + 10));
    assert(spec_find_field(s, cfg_o5(c) + 2, "model"@) == Some(cfg_o7(c) + 10));
    assert(spec_find_field(s, cfg_o3(c) + 2, "model"@) == Some(cfg_o7(c) + 10));
    assert(spec_find_field(s, 1, "model"@) == Some(cfg_o7(c) + 10));
    assert(spec_doc_member(s, "model"@) == Some(cfg_o7(c) + 10));
}

/// The lookup of `auto_write` lands on that field's value.
#[verifier::rlimit(100)]
#[verifier::spinoff_prover]
proof fn lemma_cfg_field_auto_write(c: ConfigView)
    requires
        valid_chars(c.provider),
        valid_chars(c.base_url),
        valid_chars(c.api_key),
        valid_chars(c.model),
        valid_chars(c.record_mode),
    ensures
        spec_doc_member(spec_config_json(c), "auto_write"@) == Some(cfg_o9(c) + 15),
{
    lemma_cfg_layout(c);
    lemma_cfg_values(c);
    lemma_cfg_doc(c);
    reveal_strlit("provider");
    reveal_strlit("base_url");
    reveal_strlit("api_key");
    reveal_strlit("model");
    reveal_strlit("auto_write");
    reveal_strlit("record_mode");
    let s = spec_config_json(c);
    assert(spec_skip_ws(s, 10) == 10 && spec_skip_ws(s, 11) == 11 && spec_skip_ws(s, 12) == 12);
    assert(spec_skip_ws(s, cfg_o3(c) + 1) == cfg_o3(c) + 1 && spec_skip_ws(s, cfg_o3(c) + 2)
        == cfg_o3(c) + 2);
    assert(spec_skip_ws(s, cfg_o3(c) + 12) == cfg_o3(c) + 12 && spec_skip_ws(s, cfg_o3(c) + 13)
        == cfg_o3(c) + 13);
    assert(spec_skip_ws(s, cfg_o5(c) + 1) == cfg_o5(c) + 1 && spec_skip_ws(s, cfg_o5(c) + 2)
        == cfg_o5(c) + 2);
    assert(spec_skip_ws(s, cfg_o5(c) + 11) == cfg_o5(c) + 11 && spec_skip_ws(s, cfg_o5(c) + 12)
        == cfg_o5(c) + 12);
    assert(spec_skip_ws(s, cfg_o7(c) + 1) == cfg_o7(c) + 1 && spec_skip_ws(s, cfg_o7(c) + 2)
        == cfg_o7(c) + 2);
    assert(spec_skip_ws(s, cfg_o7(c) + 9) == cfg_o7(c) + 9 && spec_skip_ws(s, cfg_o7(c) + 10)
        == cfg_o7(c) + 10);
    assert(spec_skip_ws(s, cfg_o9(c) + 1) == cfg_o9(c) + 1 && spec_skip_ws(s, cfg_o9(c) + 2)
        == cfg_o9(c) + 2);
    assert(spec_skip_ws(s, cfg_o9(c) + 14) == cfg_o9(c) + 14 && spec_skip_ws(s, cfg_o9(c) + 15)
        == cfg_o9(c) + 15);
    assert(spec_skip_ws(s, cfg_o11(c)) == cfg_o11(c) && spec_skip_ws(s, cfg_o11(c) + 1)
        == cfg_o11(c) + 1);
    assert(spec_skip_ws(s, cfg_o11(c) + 14) == cfg_o11(c) + 14 && spec_skip_ws(s, cfg_o11(c) + 15)
        == cfg_o11(c) + 15);
    assert("provider"@ != "base_url"@) by {
        assert("provider"@[0] == 'p' && "base_url"@[0] == 'b');
    }
    assert("provider"@.len() == 8 && "base_url"@.len() == 8 && "api_key"@.len() == 7
        && "model"@.len() == 5 && "auto_write"@.len() == 10 && "record_mode"@.len() == 11);
    assert(spec_find_field(s, cfg_o9(c) + 2, "auto_write"@) == Some(cfg_o9(c) + 15));
    assert(spec_find_field(s, cfg_o7(c) + 2, "auto_write"@) == Some(cfg_o9(c) + 15));
    assert(spec_find_field(s, cfg_o5(c) + 2, "auto_write"@) == Some(cfg_o9(c) + 15));
    assert(spec_find_field(s, cfg_o3(c) + 2, "auto_write"@) == Some(cfg_o9(c) + 15));
    assert(spec_find_field(s, 1, "auto_write"@) == Some(cfg_o9(c) + 15));
    assert(spec_doc_member(s, "auto_write"@) == Some(cfg_o9(c) + 15));
}

/// The lookup of `record_mode` lands on that field's value.
#[verifier::rlimit(100)]
#[verifier::spinoff_prover]
proof fn lemma_cfg_field_record_mode(c: ConfigView)
    requires
        valid_chars(c.provider),
        valid_chars(c.base_url),
        valid_chars(c.api_key),
        valid_chars(c.model),
        valid_chars(c.record_mode),
    ensures
        spec_doc_member(spec_config_json(c), "record_mode"@) == Some(cfg_o11(c) + 15),
{
    lemma_cfg_layout(c);
    lemma_cfg_values(c);
    lemma_cfg_doc(c);
    reveal_strlit("provider");
    reveal_strlit("base_url");
    reveal_strlit("api_key");
    reveal_strlit("model");
    reveal_strlit("auto_write");
    reveal_strlit("record_mode");
    let s = spec_config_json(c);
    assert(spec_skip_ws(s, 10) == 10 && spec_skip_ws(s, 11) == 11 && spec_skip_ws(s, 12) == 12);
    assert(spec_skip_ws(s, cfg_o3(c) + 1) == cfg_o3(c) + 1 && spec_skip_ws(s, cfg_o3(c) + 2)
        == cfg_o3(c) + 2);
    assert(spec_skip_ws(s, cfg_o3(c) + 12) == cfg_o3(c) + 12 && spec_skip_ws(s, cfg_o3(c) + 13)
        == cfg_o3(c) + 13);
    assert(spec_skip_ws(s, cfg_o5(c) + 1) == cfg_o5(c) + 1 && spec_skip_ws(s, cfg_o5(c) + 2)
        == cfg_o5(c) + 2);
    assert(spec_skip_ws(s, cfg_o5(c) + 11) == cfg_o5(c) + 11 && spec_skip_ws(s, cfg_o5(c) + 12)
        == cfg_o5(c) + 12);
    assert(spec_skip_ws(s, cfg_o7(c) + 1) == cfg_o7(c) + 1 && spec_skip_ws(s, cfg_o7(c) + 2)
        == cfg_o7(c) + 2);
    assert(spec_skip_ws(s, cfg_o7(c) + 9) == cfg_o7(c) + 9 && spec_skip_ws(s, cfg_o7(c) + 10)
        == cfg_o7(c) + 10);
    assert(spec_skip_ws(s, cfg_o9(c) + 1) == cfg_o9(c) + 1 && spec_skip_ws(s, cfg_o9(c) + 2)
        == cfg_o9(c) + 2);
    assert(spec_skip_ws(s, cfg_o9(c) + 14) == cfg_o9(c) + 14 && spec_skip_ws(s, cfg_o9(c) + 15)
        == cfg_o9(c) + 15);
    assert(spec_skip_ws(s, cfg_o11(c)) == cfg_o11(c) && spec_skip_ws(s, cfg_o11(c) + 1)
        == cfg_o11(c) + 1);
    assert(spec_skip_ws(s, cfg_o11(c) + 14) == cfg_o11(c) + 14 && spec_skip_ws(s, cfg_o11(c) + 15)
        == cfg_o11(c) + 15);
    assert("provider"@ != "base_url"@) by {
        assert("provider"@[0] == 'p' && "base_url"@[0] == 'b');
    }
    assert("provider"@.len() == 8 && "base_url"@.len() == 8 && "api_key"@.len() == 7
        && "model"@.len() == 5 && "auto_write"@.len() == 10 && "record_mode"@.len() == 11);
    assert(spec_find_field(s, cfg_o11(c) + 1, "record_mode"@) == Some(cfg_o11(c) + 15));
    assert(spec_find_field(s, cfg_o9(c) + 2, "record_mode"@) == Some(cfg_o11(c) + 15));
    assert(spec_find_field(s, cfg_o7(c) + 2, "record_mode"@) == Some(cfg_o11(c) + 15));
    assert(spec_find_field(s, cfg_o5(c) + 2, "record_mode"@) == Some(cfg_o11(c) + 15));
    assert(spec_find_field(s, cfg_o3(c) + 2, "record_mode"@) == Some(cfg_o11(c) + 15));
    assert(spec_find_field(s, 1, "record_mode"@) == Some(cfg_o11(c) + 15));
    assert(spec_doc_member(s, "record_mode"@) == Some(cfg_o11(c) + 15));
}

/// Serializing a configuration and parsing it back yields the same
/// configuration, field for field. The hypotheses only state that the
/// configuration's strings hold genuine characters, which every real string
/// does.
pub proof fn lemma_config_json_round_trip(c: ConfigView)
    requires
        valid_chars(c.provider),
        valid_chars(c.base_url),
        valid_chars(c.api_key),
        valid_chars(c.model),
        valid_chars(c.record_mode),
    ensures
        spec_config_from_json(spec_config_json(c)) == Some(c),
{
    lemma_cfg_values(c);
    lemma_cfg_doc(c);
    lemma_cfg_field_provider(c);
    lemma_cfg_field_base_url(c);
    lemma_cfg_field_api_key(c);
    lemma_cfg_field_model(c);
    lemma_cfg_field_auto_write(c);
    lemma_cfg_field_record_mode(c);
    let s = spec_config_json(c);
    assert(spec_member_string(s, "provider"@) == Some(Some(c.provider)));
    assert(spec_member_string(s, "base_url"@) == Some(Some(c.base_url)));
    assert(spec_member_string(s, "api_key"@) == Some(Some(c.api_key)));
    assert(spec_member_string(s, "model"@) == Some(Some(c.model)));
    assert(spec_member_bool(s, "auto_write"@) == Some(Some(c.auto_write)));
    assert(spec_member_string(s, "record_mode"@) == Some(Some(c.record_mode)));
    assert(spec_config_from_json(s) == Some(c));
}

} // verus!
