//! Authentication primitives and session lifecycle: endpoint policy
//! validation, the login flow through an injectable transport, and the
//! time-driven session state machine that gates capture.

use vstd::prelude::*;
use crate::net::{spec_is_https, url_parts, parse_scheme_and_path};
use crate::num::{sat_add_u64, sat_mul_u64, saturating_mul_u64};
use crate::text::{spec_is_blank, spec_ends_with, is_blank, ends_with};

verus! {

/// User-provided login credentials.
#[derive(Debug, Clone)]
pub struct Credentials {
    /// Account username.
    pub username: String,
    /// Account password or secret.
    pub password: String,
}

/// Login request payload forwarded to the auth transport.
#[derive(Debug, Clone)]
pub struct LoginRequest {
    /// Username for account lookup.
    pub username: String,
    /// Password or secret for auth verification.
    pub password: String,
}

/// Login response payload returned by the auth transport.
#[derive(Debug, Clone)]
pub struct LoginResponse {
    /// Access token used for protected API calls.
    pub access_token: String,
    /// Server-issued session identifier.
    pub session_id: String,
    /// Lifetime duration in seconds.
    pub expires_in_seconds: u64,
}

/// Session token with an absolute expiry timestamp, so that expiry can be
/// re-derived from any caller-supplied wall-clock reading.
#[derive(Debug, Clone)]
pub struct SessionToken {
    /// Bearer token used by downstream APIs.
    pub access_token: String,
    /// Session id propagated to payload metadata.
    pub session_id: String,
    /// Absolute epoch milliseconds when the token expires.
    pub expires_at_ms: u64,
}

impl SessionToken {
    /// Returns `true` when the token has expired at `now_ms`.
    pub fn is_expired(&self, now_ms: u64) -> (r: bool)
        ensures
            r == (now_ms >= self.expires_at_ms),
    {
        now_ms >= self.expires_at_ms
    }
}

/// Runtime authentication state used by capture guard logic.
#[derive(Debug, Clone)]
pub enum AuthState {
    /// No valid session exists.
    Unauthenticated,
    /// A session token is held.
    Authenticated(SessionToken),
    /// The session expired; reauthentication is required.
    ReauthRequired,
}

/// Errors produced by auth client and state logic.
#[derive(Debug)]
pub enum AuthError {
    /// Endpoint violates security or contract requirements.
    InvalidEndpoint(String),
    /// Credentials are missing or blank.
    EmptyCredential,
    /// Transport failure from the auth backend.
    Transport(String),
    /// Response payload violated auth contract expectations.
    InvalidResponse(String),
}

/// Auth state machine with explicit legal transitions.
///
/// It starts `Unauthenticated`, moves to `Authenticated` only on an explicit
/// login-success event, and moves to `ReauthRequired` only when a tick
/// observes the held token expired; it never reverts to `Authenticated` on
/// its own.
#[derive(Debug, Clone)]
pub struct AuthStateMachine {
    state: AuthState,
}

impl AuthStateMachine {
    /// The machine's current state.
    pub closed spec fn spec_state(&self) -> AuthState {
        self.state
    }

    /// Creates a new state machine in the `Unauthenticated` state.
    pub fn new() -> (r: AuthStateMachine)
        ensures
            r.spec_state() == AuthState::Unauthenticated,
    {
        AuthStateMachine { state: AuthState::Unauthenticated }
    }

    /// Returns the current auth state snapshot.
    pub fn state(&self) -> (r: &AuthState)
        ensures
            *r == self.spec_state(),
    {
        &self.state
    }

    /// Applies the login-success transition, unconditionally entering
    /// `Authenticated` with the fresh token.
    pub fn on_login_success(&mut self, token: SessionToken)
        ensures
            final(self).spec_state() == AuthState::Authenticated(token),
    {
        self.state = AuthState::Authenticated(token);
    }

    /// Re-evaluates the state against the supplied wall-clock reading: an
    /// authenticated session whose token has expired moves to
    /// `ReauthRequired`; every other state is left unchanged.
    pub fn on_tick(&mut self, now_ms: u64)
        ensures
            (old(self).spec_state() matches AuthState::Authenticated(token) && now_ms
                >= token.expires_at_ms) ==> final(self).spec_state() == AuthState::ReauthRequired,
            !(old(self).spec_state() matches AuthState::Authenticated(token) && now_ms
                >= token.expires_at_ms) ==> final(self).spec_state() == old(self).spec_state(),
    {
        let expired = match &self.state {
            AuthState::Authenticated(token) => token.is_expired(now_ms),
            _ => false,
        };
        if expired {
            self.state = AuthState::ReauthRequired;
        }
    }

    /// Explicit logout transition from any state.
    pub fn logout(&mut self)
        ensures
            final(self).spec_state() == AuthState::Unauthenticated,
    {
        self.state = AuthState::Unauthenticated;
    }

    /// Returns `true` when capture is allowed: the machine is authenticated
    /// and the held token is not expired at `now_ms`, independently of any
    /// previous tick.
    pub fn can_capture(&self, now_ms: u64) -> (r: bool)
        ensures
            r == (self.spec_state() matches AuthState::Authenticated(token) && now_ms
                < token.expires_at_ms),
    {
        match &self.state {
            AuthState::Authenticated(token) => !token.is_expired(now_ms),
            _ => false,
        }
    }
}

impl Default for AuthStateMachine {
    /// The default machine is `Unauthenticated`.
    fn default() -> (r: Self)
        ensures
            r.spec_state() == AuthState::Unauthenticated,
    {
        AuthStateMachine::new()
    }
}

/// Abstract transport used by the auth client; implementations perform the
/// actual network call.
pub trait AuthTransport {
    /// Sends the login request to the auth backend.
    fn authenticate(&self, endpoint: &str, request: &LoginRequest) -> Result<
        LoginResponse,
        AuthError,
    >;
}

/// The endpoint satisfies the auth policy: it parses as an HTTPS URL whose
/// path ends with the required auth path suffix.
pub open spec fn spec_endpoint_valid(s: Seq<char>) -> bool {
    &&& spec_is_https(s)
    &&& (url_parts(s) matches Some(parts) && spec_ends_with(parts.1, "/r1/cstore-auth"@))
}

/// Returns the path suffix every auth endpoint must end with.
pub fn required_auth_path() -> (r: &'static str)
    ensures
        r@ == "/r1/cstore-auth"@,
{
    "/r1/cstore-auth"
}

/// Validates the auth endpoint policy: HTTPS, and a path ending with the
/// required suffix.
pub fn validate_auth_endpoint(endpoint: &str) -> (r: Result<(), AuthError>)
    ensures
        r is Ok <==> spec_endpoint_valid(endpoint@),
        r matches Err(e) ==> e matches AuthError::InvalidEndpoint(_),
{
    let parts = match parse_scheme_and_path(endpoint) {
        Some(parts) => parts,
        None => {
            return Err(AuthError::InvalidEndpoint(String::from_str("invalid auth url")));
        },
    };
    if !crate::text::str_eq(parts.0.as_str(), "https") {
        return Err(AuthError::InvalidEndpoint(String::from_str("auth endpoint must use https")));
    }
    if !ends_with(parts.1.as_str(), required_auth_path()) {
        return Err(
            AuthError::InvalidEndpoint(
                String::from_str("auth endpoint path must end with /r1/cstore-auth"),
            ),
        );
    }
    Ok(())
}

/// Auth client that validates the endpoint policy at construction and
/// executes the login flow through an injectable transport.
pub struct AuthClient<T: AuthTransport> {
    endpoint: String,
    transport: T,
}

/// Converts a transport login response into a session token.
///
/// A response carrying a blank token or session id is rejected; otherwise
/// the expiry deadline is `now_ms + expires_in_seconds * 1000` with
/// saturating arithmetic.
pub fn session_token_from_response(response: &LoginResponse, now_ms: u64) -> (r: Result<
    SessionToken,
    AuthError,
>)
    ensures
        spec_is_blank(response.access_token@) || spec_is_blank(response.session_id@) ==> (r matches
            Err(e) && e matches AuthError::InvalidResponse(_)),
        !spec_is_blank(response.access_token@) && !spec_is_blank(response.session_id@) ==> (r
            matches Ok(token) && token.access_token@ == response.access_token@ && token.session_id@
            == response.session_id@ && token.expires_at_ms == sat_add_u64(
            now_ms,
            sat_mul_u64(response.expires_in_seconds, 1000),
        )),
{
    if is_blank(response.access_token.as_str()) || is_blank(response.session_id.as_str()) {
        return Err(
            AuthError::InvalidResponse(String::from_str("response missing token or session id")),
        );
    }
    let expires_at_ms = now_ms.saturating_add(saturating_mul_u64(response.expires_in_seconds, 1000));
    Ok(
        SessionToken {
            access_token: response.access_token.clone(),
            session_id: response.session_id.clone(),
            expires_at_ms,
        },
    )
}

impl<T: AuthTransport> AuthClient<T> {
    /// The configured endpoint.
    pub closed spec fn spec_endpoint(&self) -> Seq<char> {
        self.endpoint@
    }

    /// Creates a validated auth client; fails when the endpoint is not
    /// HTTPS or its path does not end with the required auth suffix.
    pub fn new(endpoint: &str, transport: T) -> (r: Result<AuthClient<T>, AuthError>)
        ensures
            spec_endpoint_valid(endpoint@) ==> (r matches Ok(client) && client.spec_endpoint()
                == endpoint@),
            !spec_endpoint_valid(endpoint@) ==> (r matches Err(e) && e matches
                AuthError::InvalidEndpoint(_)),
    {
        match validate_auth_endpoint(endpoint) {
            Ok(_) => Ok(AuthClient { endpoint: endpoint.to_owned(), transport }),
            Err(e) => Err(e),
        }
    }

    /// Executes login and converts the server response into a session
    /// token.
    ///
    /// Blank credentials are rejected locally before any transport call.
    /// The transport decides whether login succeeds; any token this
    /// function returns carries a non-blank access token and session id.
    pub fn login(&self, credentials: &Credentials, now_ms: u64) -> (r: Result<
        SessionToken,
        AuthError,
    >)
        ensures
            spec_is_blank(credentials.username@) || spec_is_blank(credentials.password@) ==> r
                == Result::<SessionToken, AuthError>::Err(AuthError::EmptyCredential),
            r matches Ok(token) ==> !spec_is_blank(credentials.username@) && !spec_is_blank(
                credentials.password@,
            ) && !spec_is_blank(token.access_token@) && !spec_is_blank(token.session_id@),
    {
        if is_blank(credentials.username.as_str()) || is_blank(credentials.password.as_str()) {
            return Err(AuthError::EmptyCredential);
        }
        let request = LoginRequest {
            username: credentials.username.clone(),
            password: credentials.password.clone(),
        };
        let response = match self.transport.authenticate(self.endpoint.as_str(), &request) {
            Ok(response) => response,
            Err(e) => { return Err(e) },
        };
        session_token_from_response(&response, now_ms)
    }

    /// Returns the configured auth endpoint.
    pub fn endpoint(&self) -> (r: &str)
        ensures
            r@ == self.spec_endpoint(),
    {
        self.endpoint.as_str()
    }
}

} // verus!
