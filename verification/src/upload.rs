//! Upload client: failure classification, bounded exponential backoff with
//! deterministic jitter, a content-derived idempotency key, and the retry
//! loop over an injectable transport.

use vstd::prelude::*;
use crate::codec::spec_payload_json;
use crate::model::MosaicPayload;
use crate::net::{spec_is_https, is_https_endpoint};
use crate::num::sat_add_u64;
use crate::text::chars_to_string;

verus! {

/// Classification of one upload failure, driving the retry decision.
#[derive(Debug, Clone, Copy, PartialEq, Eq, Structural)]
pub enum FailureClass {
    /// Transient failure; the attempt may be retried.
    Retriable,
    /// Permanent failure; retrying cannot help.
    Permanent,
}

/// Errors produced by the upload client or its transport.
#[derive(Debug, Clone)]
pub enum UploadError {
    /// The configured endpoint is not an HTTPS URL.
    InvalidEndpoint(String),
    /// The transport timed out.
    Timeout,
    /// The server answered with a 5xx-style status.
    Server(u16),
    /// The server answered with a 4xx-style client error status.
    Client(u16),
    /// All configured attempts were used without success.
    Exhausted {
        /// Total number of attempts made.
        attempts: u32,
    },
}

/// The fixed classification rule: timeouts and server-side statuses are
/// retriable; client errors, endpoint misconfiguration and exhaustion are
/// permanent.
pub open spec fn spec_classify(error: UploadError) -> FailureClass {
    match error {
        UploadError::Timeout => FailureClass::Retriable,
        UploadError::Server(_) => FailureClass::Retriable,
        UploadError::Client(_) => FailureClass::Permanent,
        UploadError::InvalidEndpoint(_) => FailureClass::Permanent,
        UploadError::Exhausted { .. } => FailureClass::Permanent,
    }
}

/// Classifies one upload failure as retriable or permanent.
pub fn classify_upload_error(error: &UploadError) -> (r: FailureClass)
    ensures
        r == spec_classify(*error),
{
    match error {
        UploadError::Timeout => FailureClass::Retriable,
        UploadError::Server(_) => FailureClass::Retriable,
        UploadError::Client(_) => FailureClass::Permanent,
        UploadError::InvalidEndpoint(_) => FailureClass::Permanent,
        UploadError::Exhausted { .. } => FailureClass::Permanent,
    }
}

/// Retry configuration, immutable per upload client instance.
#[derive(Debug, Clone, Copy, PartialEq, Eq, Structural)]
pub struct RetryPolicy {
    /// Maximum number of retries after the first attempt.
    pub max_retries: u32,
    /// Base delay before the first retry, in milliseconds.
    pub base_delay_ms: u64,
    /// Upper bound on the exponential backoff delay, in milliseconds.
    pub max_delay_ms: u64,
    /// Upper bound on the added jitter, in milliseconds.
    pub jitter_ms: u64,
}

/// One payload handed to the transport.
#[derive(Debug, Clone)]
pub struct UploadEnvelope {
    /// Destination endpoint URL.
    pub endpoint: String,
    /// Content-derived idempotency key of the payload.
    pub idempotency_key: String,
    /// Bearer token for the protected API.
    pub access_token: String,
    /// Serialized payload bytes.
    pub body: Vec<u8>,
}

/// Result of a successful upload.
#[derive(Debug, Clone)]
pub struct UploadReport {
    /// Number of attempts taken, the successful one included.
    pub attempts: u32,
}

/// One transport-level failure; the client owns every other error kind.
#[derive(Debug, Clone, Copy, PartialEq, Eq, Structural)]
pub enum TransportFailure {
    /// The transport timed out.
    Timeout,
    /// The server answered with a 5xx-style status.
    Server(u16),
    /// The server answered with a 4xx-style client error status.
    Client(u16),
}

/// The upload error corresponding to one transport failure.
pub open spec fn spec_failure_error(f: TransportFailure) -> UploadError {
    match f {
        TransportFailure::Timeout => UploadError::Timeout,
        TransportFailure::Server(status) => UploadError::Server(status),
        TransportFailure::Client(status) => UploadError::Client(status),
    }
}

/// Maps a transport failure to the error surfaced to the caller.
pub fn failure_to_error(f: TransportFailure) -> (r: UploadError)
    ensures
        r == spec_failure_error(f),
{
    match f {
        TransportFailure::Timeout => UploadError::Timeout,
        TransportFailure::Server(status) => UploadError::Server(status),
        TransportFailure::Client(status) => UploadError::Client(status),
    }
}

/// Abstract transport used by the upload client; implementations perform
/// the actual send and any real waiting between attempts.
pub trait UploadTransport {
    /// Sends one envelope.
    fn send(&self, envelope: &UploadEnvelope) -> Result<(), TransportFailure>;

    /// Waits for the given delay between attempts.
    fn wait(&self, delay_ms: u64);
}

/// The FNV-1a hash of the first `n` bytes.
pub open spec fn spec_fnv1a(bytes: Seq<u8>, n: int) -> u64
    decreases n,
{
    if n <= 0 {
        0xcbf29ce484222325u64
    } else {
        vstd::wrapping::u64_specs::wrapping_mul(
            spec_fnv1a(bytes, n - 1) ^ (bytes[n - 1] as u64),
            0x100000001b3u64,
        )
    }
}

/// One lower-case hexadecimal digit as a character.
pub open spec fn spec_hex_char(d: u64) -> char {
    if d < 10 {
        ((48 + d) as u8) as char
    } else {
        ((87 + d) as u8) as char
    }
}

/// Sixteen hexadecimal digits of a 64-bit value, most significant first.
pub open spec fn spec_hex16(n: u64) -> Seq<char> {
    Seq::new(16, |i: int| spec_hex_char((n >> ((60 - 4 * i) as u64)) & 0xf))
}

/// The idempotency key of a payload: the FNV-1a hash of its canonical JSON
/// bytes, rendered as sixteen hexadecimal digits.
pub open spec fn spec_idempotency_key(p: MosaicPayload) -> Seq<char> {
    spec_hex16(spec_fnv1a(spec_payload_json(p), spec_payload_json(p).len() as int))
}

/// Computes the FNV-1a hash of a byte buffer.
fn fnv1a(bytes: &Vec<u8>) -> (r: u64)
    ensures
        r == spec_fnv1a(bytes@, bytes@.len() as int),
{
    let mut hash: u64 = 0xcbf29ce484222325;
    let mut i: usize = 0;
    while i < bytes.len()
        invariant
            i <= bytes@.len(),
            hash == spec_fnv1a(bytes@, i as int),
        decreases bytes@.len() - i,
    {
        hash = (hash ^ (bytes[i] as u64)).wrapping_mul(0x100000001b3);
        i = i + 1;
    }
    hash
}

/// Renders a 64-bit value as sixteen hexadecimal digits.
fn hex16(n: u64) -> (r: String)
    ensures
        r@ == spec_hex16(n),
{
    let mut chars: Vec<char> = Vec::new();
    let mut i: usize = 0;
    while i < 16
        invariant
            i <= 16,
            chars@.len() == i,
            forall|j: int| 0 <= j < i ==> chars@[j] == spec_hex_char((n >> ((60 - 4 * j) as u64)) & 0xf),
        decreases 16 - i,
    {
        let shift: u64 = 60 - 4 * (i as u64);
        let d = (n >> shift) & 0xf;
        proof {
            assert((n >> shift) & 0xf <= 15) by (bit_vector);
        }
        let c = (if d < 10 { (48 + d) as u8 } else { (87 + d) as u8 }) as char;
        chars.push(c);
        i = i + 1;
    }
    let s = chars_to_string(&chars);
    proof {
        assert(chars@ =~= spec_hex16(n));
    }
    s
}

/// Computes the stable idempotency key of a payload from its serialized
/// content, so that re-sending the identical payload produces the
/// identical key.
pub fn idempotency_key_for_payload(payload: &MosaicPayload) -> (r: String)
    ensures
        r@ == spec_idempotency_key(*payload),
{
    let body = match payload.to_json_bytes() {
        Ok(body) => body,
        Err(_) => vstd::pervasive::unreached(),
    };
    hex16(fnv1a(&body))
}

/// Two payloads carry the same content: schema version, metadata and
/// mosaic data agree.
pub open spec fn spec_payload_content_eq(a: MosaicPayload, b: MosaicPayload) -> bool {
    &&& a.schema_version@ == b.schema_version@
    &&& a.metadata.start_timestamp_ms == b.metadata.start_timestamp_ms
    &&& a.metadata.end_timestamp_ms == b.metadata.end_timestamp_ms
    &&& a.metadata.screen_id@ == b.metadata.screen_id@
    &&& a.metadata.source_width == b.metadata.source_width
    &&& a.metadata.source_height == b.metadata.source_height
    &&& a.metadata.session_id@ == b.metadata.session_id@
    &&& a.metadata.frame_count == b.metadata.frame_count
    &&& a.mosaic_width == b.mosaic_width
    &&& a.mosaic_height == b.mosaic_height
    &&& a.mosaic_rgba@ == b.mosaic_rgba@
}

/// Two builds of the identical payload content produce equal idempotency
/// keys.
pub proof fn lemma_idempotency_key_deterministic(a: MosaicPayload, b: MosaicPayload)
    requires
        spec_payload_content_eq(a, b),
    ensures
        spec_idempotency_key(a) == spec_idempotency_key(b),
{
    assert(spec_payload_json(a) == spec_payload_json(b));
}

/// The exponential backoff delay before retrying after attempt `attempt`:
/// the base delay doubled per attempt, clamped to the configured maximum.
pub open spec fn spec_backoff_ms(policy: RetryPolicy, attempt: u32) -> u64 {
    let e = if attempt > 64 {
        63u64
    } else {
        (attempt - 1) as u64
    };
    let raw = crate::num::sat_mul_u64(policy.base_delay_ms, (1u64 << e) as u64);
    if raw > policy.max_delay_ms {
        policy.max_delay_ms
    } else {
        raw
    }
}

/// The deterministic jitter added after attempt `attempt`: strictly below
/// the configured bound, and zero when the bound is zero.
pub open spec fn spec_jitter_ms(policy: RetryPolicy, attempt: u32) -> u64 {
    if policy.jitter_ms == 0 {
        0u64
    } else {
        vstd::wrapping::u64_specs::wrapping_mul(attempt as u64, 0x9e3779b97f4a7c15u64)
            % policy.jitter_ms
    }
}

/// Computes the delay before the retry that follows attempt `attempt`:
/// bounded exponential backoff plus up to `jitter_ms` of deterministic
/// jitter. With a zero jitter bound the delay is the pure backoff.
pub fn backoff_delay_ms(policy: &RetryPolicy, attempt: u32) -> (r: u64)
    requires
        attempt >= 1,
    ensures
        r == sat_add_u64(spec_backoff_ms(*policy, attempt), spec_jitter_ms(*policy, attempt)),
        spec_backoff_ms(*policy, attempt) <= policy.max_delay_ms,
        spec_jitter_ms(*policy, attempt) <= policy.jitter_ms,
{
    let e: u64 = if attempt > 64 {
        63
    } else {
        (attempt - 1) as u64
    };
    let factor: u64 = 1u64 << e;
    let raw = crate::num::saturating_mul_u64(policy.base_delay_ms, factor);
    let backoff = if raw > policy.max_delay_ms {
        policy.max_delay_ms
    } else {
        raw
    };
    let jitter = if policy.jitter_ms == 0 {
        0
    } else {
        (attempt as u64).wrapping_mul(0x9e3779b97f4a7c15) % policy.jitter_ms
    };
    backoff.saturating_add(jitter)
}

/// Upload client that validates its endpoint at construction and sends one
/// payload through an injectable transport with bounded retries.
pub struct UploadClient<T: UploadTransport> {
    endpoint: String,
    policy: RetryPolicy,
    transport: T,
}

impl<T: UploadTransport> UploadClient<T> {
    /// The configured endpoint.
    pub closed spec fn spec_endpoint(&self) -> Seq<char> {
        self.endpoint@
    }

    /// The configured retry policy.
    pub closed spec fn spec_policy(&self) -> RetryPolicy {
        self.policy
    }

    /// Creates a validated upload client; fails when the endpoint is not
    /// an HTTPS URL.
    pub fn new(endpoint: &str, policy: RetryPolicy, transport: T) -> (r: Result<
        UploadClient<T>,
        UploadError,
    >)
        ensures
            spec_is_https(endpoint@) ==> (r matches Ok(client) && client.spec_endpoint()
                == endpoint@ && client.spec_policy() == policy),
            !spec_is_https(endpoint@) ==> (r matches Err(e) && e matches
                UploadError::InvalidEndpoint(_)),
    {
        if !is_https_endpoint(endpoint) {
            return Err(
                UploadError::InvalidEndpoint(String::from_str("upload endpoint must use https")),
            );
        }
        Ok(UploadClient { endpoint: endpoint.to_owned(), policy, transport })
    }

    /// Uploads one payload, retrying retriable failures with bounded
    /// backoff.
    ///
    /// At most `max_retries + 1` attempts are made. A permanent failure is
    /// returned without further attempts; exhaustion of all attempts
    /// surfaces as a terminal error carrying the attempt count. The
    /// transport decides whether any given attempt succeeds.
    pub fn upload_payload(&self, payload: &MosaicPayload, token: &str) -> (r: Result<
        UploadReport,
        UploadError,
    >)
        requires
            self.spec_policy().max_retries < u32::MAX,
        ensures
            r matches Ok(report) ==> 1 <= report.attempts <= self.spec_policy().max_retries + 1,
            r matches Err(e) ==> (e matches UploadError::Exhausted { attempts } ==> attempts
                == self.spec_policy().max_retries + 1),
            r matches Err(e) ==> (e matches UploadError::Exhausted { .. } || exists|f:
                TransportFailure| e == spec_failure_error(f) && spec_classify(spec_failure_error(f))
                == FailureClass::Permanent),
    {
        let body = match payload.to_json_bytes() {
            Ok(body) => body,
            Err(_) => vstd::pervasive::unreached(),
        };
        let key = idempotency_key_for_payload(payload);
        let envelope = UploadEnvelope {
            endpoint: self.endpoint.clone(),
            idempotency_key: key,
            access_token: token.to_owned(),
            body,
        };
        let mut attempt: u32 = 1;
        loop
            invariant
                self.spec_policy().max_retries < u32::MAX,
                1 <= attempt <= self.spec_policy().max_retries + 1,
            decreases self.spec_policy().max_retries + 1 - attempt,
        {
            match self.transport.send(&envelope) {
                Ok(_) => {
                    return Ok(UploadReport { attempts: attempt });
                },
                Err(f) => {
                    let e = failure_to_error(f);
                    match classify_upload_error(&e) {
                        FailureClass::Permanent => {
                            proof {
                                assert(e == spec_failure_error(f));
                            }
                            return Err(e);
                        },
                        FailureClass::Retriable => {
                            if attempt == self.policy.max_retries + 1 {
                                return Err(UploadError::Exhausted { attempts: attempt });
                            }
                            let delay = backoff_delay_ms(&self.policy, attempt);
                            self.transport.wait(delay);
                            attempt = attempt + 1;
                        },
                    }
                },
            }
        }
    }
}

} // verus!
