//! Tests for the upload client: idempotency keys, failure classification,
//! backoff, and the bounded retry loop.

use std::sync::Mutex;

use local_guard::model::Frame;
use local_guard::pipeline::batch_to_payload;
use local_guard::upload::{
    backoff_delay_ms, classify_upload_error, idempotency_key_for_payload, FailureClass,
    RetryPolicy, TransportFailure, UploadClient, UploadEnvelope, UploadError, UploadTransport,
};

fn fixture_frames() -> Vec<Frame> {
    let mut frames = Vec::new();
    for index in 0..9_u64 {
        let value = index as u8;
        frames.push(
            Frame::new("display-1", 1, 1, 1_000 + index, vec![value, 0, 0, 255])
                .expect("frame fixture should be valid"),
        );
    }
    frames
}

fn fixture_payload() -> local_guard::model::MosaicPayload {
    batch_to_payload(&fixture_frames(), "session-xyz").expect("payload fixture should build")
}

#[test]
fn idempotency_key_tests_stable_for_identical_payloads() {
    let payload_a = fixture_payload();
    let payload_b = fixture_payload();

    let key_a = idempotency_key_for_payload(&payload_a);
    let key_b = idempotency_key_for_payload(&payload_b);

    assert_eq!(key_a, key_b);
}

#[test]
fn idempotency_key_changes_with_one_mosaic_byte() {
    let payload_a = fixture_payload();
    let mut payload_b = fixture_payload();
    payload_b.mosaic_rgba[0] ^= 1;

    let key_a = idempotency_key_for_payload(&payload_a);
    let key_b = idempotency_key_for_payload(&payload_b);

    assert_eq!(key_a.len(), 16);
    assert_ne!(key_a, key_b);
}

#[test]
fn upload_error_classification_tests_distinguish_transient_and_permanent() {
    assert_eq!(
        classify_upload_error(&UploadError::Server(503)),
        FailureClass::Retriable
    );
    assert_eq!(
        classify_upload_error(&UploadError::Client(400)),
        FailureClass::Permanent
    );
}

#[test]
fn timeouts_are_retriable() {
    assert_eq!(classify_upload_error(&UploadError::Timeout), FailureClass::Retriable);
}

#[derive(Debug)]
struct FlakyTransport {
    attempts: Mutex<u32>,
}

impl UploadTransport for FlakyTransport {
    fn send(&self, _envelope: &UploadEnvelope) -> Result<(), TransportFailure> {
        let mut attempts = self.attempts.lock().expect("attempt lock should work");
        *attempts += 1;
        if *attempts < 3 {
            Err(TransportFailure::Timeout)
        } else {
            Ok(())
        }
    }

    fn wait(&self, _delay_ms: u64) {}
}

#[test]
fn upload_retry_policy_tests_recovers_from_transient_failures() {
    let payload = fixture_payload();
    let transport = FlakyTransport {
        attempts: Mutex::new(0),
    };
    let client = UploadClient::new(
        "https://api.example.test/ingest",
        RetryPolicy {
            max_retries: 3,
            base_delay_ms: 1,
            max_delay_ms: 10,
            jitter_ms: 0,
        },
        transport,
    )
    .expect("upload client should build");

    let report = client
        .upload_payload(&payload, "token")
        .expect("upload should eventually succeed");
    assert_eq!(report.attempts, 3);
}

struct AlwaysFails {
    failure: TransportFailure,
}

impl UploadTransport for AlwaysFails {
    fn send(&self, _envelope: &UploadEnvelope) -> Result<(), TransportFailure> {
        Err(self.failure)
    }

    fn wait(&self, _delay_ms: u64) {}
}

#[test]
fn retries_exhaust_with_attempt_count() {
    let client = UploadClient::new(
        "https://api.example.test/ingest",
        RetryPolicy {
            max_retries: 2,
            base_delay_ms: 1,
            max_delay_ms: 10,
            jitter_ms: 0,
        },
        AlwaysFails {
            failure: TransportFailure::Server(503),
        },
    )
    .expect("upload client should build");

    match client.upload_payload(&fixture_payload(), "token") {
        Err(UploadError::Exhausted { attempts }) => assert_eq!(attempts, 3),
        other => panic!("expected exhaustion, got {other:?}"),
    }
}

#[test]
fn permanent_failures_are_not_retried() {
    let client = UploadClient::new(
        "https://api.example.test/ingest",
        RetryPolicy {
            max_retries: 5,
            base_delay_ms: 1,
            max_delay_ms: 10,
            jitter_ms: 0,
        },
        AlwaysFails {
            failure: TransportFailure::Client(400),
        },
    )
    .expect("upload client should build");

    assert!(matches!(
        client.upload_payload(&fixture_payload(), "token"),
        Err(UploadError::Client(400))
    ));
}

#[test]
fn upload_client_rejects_non_https_endpoints() {
    let result = UploadClient::new(
        "http://api.example.test/ingest",
        RetryPolicy {
            max_retries: 0,
            base_delay_ms: 0,
            max_delay_ms: 0,
            jitter_ms: 0,
        },
        AlwaysFails {
            failure: TransportFailure::Timeout,
        },
    );
    assert!(matches!(result, Err(UploadError::InvalidEndpoint(_))));
}

#[test]
fn backoff_doubles_and_clamps_without_jitter() {
    let policy = RetryPolicy {
        max_retries: 10,
        base_delay_ms: 1,
        max_delay_ms: 10,
        jitter_ms: 0,
    };
    assert_eq!(backoff_delay_ms(&policy, 1), 1);
    assert_eq!(backoff_delay_ms(&policy, 2), 2);
    assert_eq!(backoff_delay_ms(&policy, 3), 4);
    assert_eq!(backoff_delay_ms(&policy, 4), 8);
    assert_eq!(backoff_delay_ms(&policy, 5), 10);
    assert_eq!(backoff_delay_ms(&policy, 6), 10);
}

#[test]
fn jitter_stays_below_its_bound() {
    let policy = RetryPolicy {
        max_retries: 10,
        base_delay_ms: 4,
        max_delay_ms: 4,
        jitter_ms: 7,
    };
    for attempt in 1..12u32 {
        let delay = backoff_delay_ms(&policy, attempt);
        assert!((4..4 + 7).contains(&delay), "attempt {attempt} gave {delay}");
        // Deterministic: the same attempt always yields the same delay.
        assert_eq!(delay, backoff_delay_ms(&policy, attempt));
    }
}
