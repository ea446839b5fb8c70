//! Classification of provider failures: HTTP status/body heuristics into the
//! stable error taxonomy, the region-restriction override, and transport
//! failures.

use vstd::prelude::*;
use crate::errors::{dec_str, u32_to_dec, ErrorKind, SttError};
use crate::text::{contains_chars, contains_seq, lower_chars, lower_seq, match_at, str_chars};

verus! {

use vstd::string::StringExecFns;

/// Timeout of a connection probe, in seconds.
pub const PROBE_TIMEOUT_SECS: u64 = 10;

/// Timeout of a transcription request, in seconds.
pub const TRANSCRIBE_TIMEOUT_SECS: u64 = 120;

/// Case-insensitive substring test on a response body.
pub open spec fn body_has(body: Seq<char>, needle: Seq<char>) -> bool {
    contains_seq(lower_seq(body), needle)
}

/// The kind an HTTP failure classifies to: status code first, body-text
/// heuristics second.
pub open spec fn spec_http_error_kind(status: u16, body: Seq<char>) -> ErrorKind {
    if status == 401 || status == 403 {
        ErrorKind::AuthFailed
    } else if status == 402 || status == 429 || body_has(body, "insufficient"@) || body_has(
        body,
        "quota"@,
    ) || body_has(body, "rate limit"@) {
        ErrorKind::QuotaExceeded
    } else if status == 404 || body_has(body, "model not found"@) || body_has(
        body,
        "invalid model"@,
    ) {
        ErrorKind::ModelNotFound
    } else {
        ErrorKind::Unknown
    }
}

/// The message attached to an unclassified HTTP failure.
pub open spec fn spec_unknown_http_message(status: u16, body: Seq<char>) -> Seq<char> {
    "API returned error "@ + dec_str(status as int) + ": "@ + body
}

/// The message attached to each classified HTTP failure.
pub open spec fn spec_http_error_message(status: u16, body: Seq<char>) -> Seq<char> {
    match spec_http_error_kind(status, body) {
        ErrorKind::AuthFailed => "authentication failed: check the API key"@,
        ErrorKind::QuotaExceeded => "quota exhausted or requests too frequent: check the account balance and rate limits"@,
        ErrorKind::ModelNotFound => "the model does not exist: check the model name"@,
        _ => spec_unknown_http_message(status, body),
    }
}

/// Classifies a non-success HTTP response: 401/403 mean bad credentials
/// regardless of the body; 402/429 or quota wording mean exhausted quota;
/// 404 or model wording mean an unknown model; anything else is reported
/// verbatim.
pub fn classify_http_error(status: u16, body: &str) -> (r: SttError)
    ensures
        r.kind == spec_http_error_kind(status, body@),
        r.message@ == spec_http_error_message(status, body@),
{
    let lower = lower_chars(&str_chars(body));
    if status == 401 || status == 403 {
        return SttError::of_str(ErrorKind::AuthFailed, "authentication failed: check the API key");
    }
    if status == 402 || status == 429 || contains_chars(&lower, &str_chars("insufficient"))
        || contains_chars(&lower, &str_chars("quota")) || contains_chars(
        &lower,
        &str_chars("rate limit"),
    ) {
        return SttError::of_str(
            ErrorKind::QuotaExceeded,
            "quota exhausted or requests too frequent: check the account balance and rate limits",
        );
    }
    if status == 404 || contains_chars(&lower, &str_chars("model not found")) || contains_chars(
        &lower,
        &str_chars("invalid model"),
    ) {
        return SttError::of_str(
            ErrorKind::ModelNotFound,
            "the model does not exist: check the model name",
        );
    }
    let mut message = "API returned error ".to_owned();
    let status_str = u32_to_dec(status as u32);
    message.append(status_str.as_str());
    message.append(": ");
    message.append(body);
    proof {
        assert(message@ =~= spec_unknown_http_message(status, body@));
    }
    SttError::new(ErrorKind::Unknown, message)
}

/// The region-restriction phrasing that overrides plain HTTP classification.
pub open spec fn spec_region_restricted(body: Seq<char>) -> bool {
    body_has(body, "location is not supported"@)
}

/// The remediation message for a region-restricted account.
pub open spec fn spec_region_message() -> Seq<char> {
    "the account is routed to a region-restricted backend: switch the model to a provider route available in your region or use a network in a supported region"@
}

/// The kind a non-success response finally maps to: the region-restriction
/// phrasing wins over the plain status/body classification.
pub open spec fn spec_http_failure_kind(status: u16, body: Seq<char>) -> ErrorKind {
    if spec_region_restricted(body) {
        ErrorKind::RegionRestricted
    } else {
        spec_http_error_kind(status, body)
    }
}

pub open spec fn spec_http_failure_message(status: u16, body: Seq<char>) -> Seq<char> {
    if spec_region_restricted(body) {
        spec_region_message()
    } else {
        spec_http_error_message(status, body)
    }
}

/// Turns a non-success HTTP response into a classified error; runs only after
/// the status check, so a success response is never classified.
pub fn http_failure_error(status: u16, body: &str) -> (r: SttError)
    ensures
        r.kind == spec_http_failure_kind(status, body@),
        r.message@ == spec_http_failure_message(status, body@),
{
    let lower = lower_chars(&str_chars(body));
    if contains_chars(&lower, &str_chars("location is not supported")) {
        return SttError::of_str(
            ErrorKind::RegionRestricted,
            "the account is routed to a region-restricted backend: switch the model to a provider route available in your region or use a network in a supported region",
        );
    }
    classify_http_error(status, body)
}

/// A body carrying the full "user location is not supported" phrasing always
/// classifies as region-restricted, whatever the status code says.
pub proof fn lemma_user_location_always_region_restricted(status: u16, body: Seq<char>)
    requires
        contains_seq(lower_seq(body), "user location is not supported"@),
    ensures
        spec_http_failure_kind(status, body) == ErrorKind::RegionRestricted,
        spec_http_failure_message(status, body) == spec_region_message(),
{
    reveal_strlit("user location is not supported");
    reveal_strlit("location is not supported");
    let long = "user location is not supported"@;
    let short = "location is not supported"@;
    let hay = lower_seq(body);
    let i = choose|i: int| match_at(hay, long, i);
    assert(hay.subrange(i, i + long.len()) == long);
    assert forall|k: int| 0 <= k < short.len() implies hay.subrange(
        i + 5,
        i + 5 + short.len(),
    )[k] == short[k] by {
        assert(hay.subrange(i, i + long.len())[k + 5] == long[k + 5]);
        assert(long[k + 5] == short[k]);
    }
    assert(hay.subrange(i + 5, i + 5 + short.len()) =~= short);
    assert(match_at(hay, short, i + 5));
}

/// The three transport-level outcomes that the HTTP client distinguishes.
#[derive(Clone, Copy, Debug, PartialEq, Eq, Structural)]
pub enum NetworkFailure {
    /// The request hit its timeout.
    Timeout,
    /// The connection could not be established.
    ConnectFailed,
    /// Any other transport failure.
    Other,
}

pub open spec fn spec_network_message(failure: NetworkFailure) -> Seq<char> {
    match failure {
        NetworkFailure::Timeout => "network timeout: check the network connection"@,
        NetworkFailure::ConnectFailed => "network connection failed: check the network or proxy settings"@,
        NetworkFailure::Other => "request failed"@,
    }
}

/// Classifies a transport-level failure; the kind is always `NetworkFailed`,
/// the message distinguishes timeout from connection failure.
pub fn classify_network_error(failure: NetworkFailure) -> (r: SttError)
    ensures
        r.kind == ErrorKind::NetworkFailed,
        r.message@ == spec_network_message(failure),
{
    match failure {
        NetworkFailure::Timeout => SttError::of_str(
            ErrorKind::NetworkFailed,
            "network timeout: check the network connection",
        ),
        NetworkFailure::ConnectFailed => SttError::of_str(
            ErrorKind::NetworkFailed,
            "network connection failed: check the network or proxy settings",
        ),
        NetworkFailure::Other => SttError::of_str(ErrorKind::NetworkFailed, "request failed"),
    }
}

} // verus!
