//! Classification of HTTP and transport failures.

use aitotype::classify::{
    classify_http_error, classify_network_error, http_failure_error, NetworkFailure,
    PROBE_TIMEOUT_SECS, TRANSCRIBE_TIMEOUT_SECS,
};
use aitotype::errors::ErrorKind;

#[test]
fn status_401_and_403_mean_auth_failed_regardless_of_body() {
    assert_eq!(classify_http_error(401, "").kind, ErrorKind::AuthFailed);
    assert_eq!(classify_http_error(401, "quota exceeded").kind, ErrorKind::AuthFailed);
    assert_eq!(classify_http_error(403, "model not found").kind, ErrorKind::AuthFailed);
}

#[test]
fn status_402_429_or_quota_wording_mean_quota_exceeded() {
    assert_eq!(classify_http_error(402, "").kind, ErrorKind::QuotaExceeded);
    assert_eq!(classify_http_error(429, "").kind, ErrorKind::QuotaExceeded);
    assert_eq!(classify_http_error(500, "QUOTA exhausted").kind, ErrorKind::QuotaExceeded);
    assert_eq!(classify_http_error(500, "Insufficient balance").kind, ErrorKind::QuotaExceeded);
    assert_eq!(classify_http_error(400, "Rate Limit reached").kind, ErrorKind::QuotaExceeded);
}

#[test]
fn status_404_or_model_wording_mean_model_not_found() {
    assert_eq!(classify_http_error(404, "").kind, ErrorKind::ModelNotFound);
    assert_eq!(classify_http_error(400, "Model Not Found").kind, ErrorKind::ModelNotFound);
    assert_eq!(classify_http_error(400, "invalid MODEL id").kind, ErrorKind::ModelNotFound);
}

#[test]
fn anything_else_is_unknown_with_status_and_body() {
    let e = classify_http_error(500, "oops");
    assert_eq!(e.kind, ErrorKind::Unknown);
    assert_eq!(e.message, "API returned error 500: oops");
    assert_eq!(classify_http_error(418, "teapot").kind, ErrorKind::Unknown);
}

#[test]
fn region_phrase_overrides_every_status() {
    let body = "Routing failed: User location is not supported for the API use.";
    assert_eq!(http_failure_error(401, body).kind, ErrorKind::RegionRestricted);
    assert_eq!(http_failure_error(404, body).kind, ErrorKind::RegionRestricted);
    assert_eq!(http_failure_error(500, body).kind, ErrorKind::RegionRestricted);
    let shouted = "USER LOCATION IS NOT SUPPORTED";
    assert_eq!(http_failure_error(429, shouted).kind, ErrorKind::RegionRestricted);
}

#[test]
fn without_region_phrase_the_plain_classification_applies() {
    assert_eq!(http_failure_error(401, "nope").kind, ErrorKind::AuthFailed);
    assert_eq!(http_failure_error(503, "server busy").kind, ErrorKind::Unknown);
}

#[test]
fn network_failures_keep_one_kind_and_distinguish_by_message() {
    let t = classify_network_error(NetworkFailure::Timeout);
    assert_eq!(t.kind, ErrorKind::NetworkFailed);
    assert_eq!(t.message, "network timeout: check the network connection");
    let c = classify_network_error(NetworkFailure::ConnectFailed);
    assert_eq!(c.kind, ErrorKind::NetworkFailed);
    assert_eq!(c.message, "network connection failed: check the network or proxy settings");
    let o = classify_network_error(NetworkFailure::Other);
    assert_eq!(o.kind, ErrorKind::NetworkFailed);
    assert_eq!(o.message, "request failed");
}

#[test]
fn timeout_budgets_match_the_protocol() {
    assert_eq!(PROBE_TIMEOUT_SECS, 10);
    assert_eq!(TRANSCRIBE_TIMEOUT_SECS, 120);
}
