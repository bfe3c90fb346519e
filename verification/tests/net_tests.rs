//! Tests for transport security URL checks.

use local_guard::net::is_https_endpoint;

#[test]
fn transport_security_tests_rejects_non_https_endpoints() {
    assert!(is_https_endpoint("https://api.example.test/ingest"));
    assert!(!is_https_endpoint("http://api.example.test/ingest"));
}

#[test]
fn unparsable_endpoints_are_not_https() {
    assert!(!is_https_endpoint("::not a url::"));
}
