//! Tests for the auth state machine, endpoint policy, and login flow.

use local_guard::auth::{
    session_token_from_response, validate_auth_endpoint, AuthClient, AuthError, AuthState,
    AuthStateMachine, AuthTransport, Credentials, LoginRequest, LoginResponse, SessionToken,
};
use local_guard::pipeline::auth_allows_capture;

#[test]
fn state_machine_requires_reauth_after_expiry() {
    let mut machine = AuthStateMachine::new();
    machine.on_login_success(SessionToken {
        access_token: "token".to_string(),
        session_id: "session".to_string(),
        expires_at_ms: 1_000,
    });
    machine.on_tick(1_001);
    assert!(matches!(machine.state(), AuthState::ReauthRequired));
}

#[test]
fn auth_state_machine_tests_transitions_to_reauth_on_expiry() {
    let mut machine = AuthStateMachine::new();
    machine.on_login_success(SessionToken {
        access_token: "token".to_string(),
        session_id: "session".to_string(),
        expires_at_ms: 10,
    });
    machine.on_tick(11);
    assert!(matches!(machine.state(), AuthState::ReauthRequired));
}

#[test]
fn auth_guard_tests_blocks_capture_after_expiry() {
    let mut machine = AuthStateMachine::new();
    machine.on_login_success(SessionToken {
        access_token: "token".to_string(),
        session_id: "session".to_string(),
        expires_at_ms: 50,
    });

    assert!(auth_allows_capture(&machine, 49));
    assert!(!auth_allows_capture(&machine, 50));
}

#[test]
fn tick_before_expiry_keeps_session_and_logout_clears_it() {
    let mut machine = AuthStateMachine::new();
    machine.on_login_success(SessionToken {
        access_token: "token".to_string(),
        session_id: "session".to_string(),
        expires_at_ms: 100,
    });
    machine.on_tick(99);
    assert!(matches!(machine.state(), AuthState::Authenticated(_)));
    machine.logout();
    assert!(matches!(machine.state(), AuthState::Unauthenticated));
}

#[test]
fn validates_expected_endpoint_policy() {
    validate_auth_endpoint("https://example.test/r1/cstore-auth").expect("endpoint should pass");
    assert!(validate_auth_endpoint("http://example.test/r1/cstore-auth").is_err());
    assert!(validate_auth_endpoint("https://example.test/r2/other").is_err());
}

#[test]
fn endpoint_policy_rejects_unparsable_urls() {
    assert!(matches!(
        validate_auth_endpoint("not a url"),
        Err(AuthError::InvalidEndpoint(_))
    ));
}

struct StaticTransport {
    response: LoginResponse,
}

impl AuthTransport for StaticTransport {
    fn authenticate(
        &self,
        _endpoint: &str,
        _request: &LoginRequest,
    ) -> Result<LoginResponse, AuthError> {
        Ok(LoginResponse {
            access_token: self.response.access_token.clone(),
            session_id: self.response.session_id.clone(),
            expires_in_seconds: self.response.expires_in_seconds,
        })
    }
}

#[test]
fn login_rejects_blank_credentials_before_transport() {
    let client = AuthClient::new(
        "https://example.test/r1/cstore-auth",
        StaticTransport {
            response: LoginResponse {
                access_token: "token".to_string(),
                session_id: "session".to_string(),
                expires_in_seconds: 60,
            },
        },
    )
    .expect("client should build");

    let blank = Credentials {
        username: "  ".to_string(),
        password: "secret".to_string(),
    };
    assert!(matches!(client.login(&blank, 0), Err(AuthError::EmptyCredential)));
}

#[test]
fn login_computes_absolute_expiry_deadline() {
    let client = AuthClient::new(
        "https://example.test/r1/cstore-auth",
        StaticTransport {
            response: LoginResponse {
                access_token: "token".to_string(),
                session_id: "session".to_string(),
                expires_in_seconds: 60,
            },
        },
    )
    .expect("client should build");
    assert_eq!(client.endpoint(), "https://example.test/r1/cstore-auth");

    let credentials = Credentials {
        username: "user".to_string(),
        password: "secret".to_string(),
    };
    let token = client.login(&credentials, 1_000).expect("login should succeed");
    assert_eq!(token.access_token, "token");
    assert_eq!(token.session_id, "session");
    assert_eq!(token.expires_at_ms, 1_000 + 60 * 1_000);
    assert!(!token.is_expired(60_999));
    assert!(token.is_expired(61_000));
}

#[test]
fn response_with_blank_fields_is_rejected() {
    let response = LoginResponse {
        access_token: " ".to_string(),
        session_id: "session".to_string(),
        expires_in_seconds: 60,
    };
    assert!(matches!(
        session_token_from_response(&response, 0),
        Err(AuthError::InvalidResponse(_))
    ));
}

#[test]
fn expiry_deadline_saturates_instead_of_wrapping() {
    let response = LoginResponse {
        access_token: "token".to_string(),
        session_id: "session".to_string(),
        expires_in_seconds: u64::MAX,
    };
    let token = session_token_from_response(&response, 5).expect("token should build");
    assert_eq!(token.expires_at_ms, u64::MAX);
}
