use actixexp::auth::{error_response, AuthenticationError};
use actixexp::config::{AppConfig, ConfigError, ServerConfig};
use actixexp::decimal::{parse_dec_u64, u64_to_string};

use base64::Engine;

#[test]
fn bind_address_joins_host_and_port() {
    let config = ServerConfig {
        bind: "127.0.0.1".to_string(),
        port: 8000,
    };
    assert_eq!(config.bind_address(), "127.0.0.1:8000");
    let config = ServerConfig {
        bind: "0.0.0.0".to_string(),
        port: 0,
    };
    assert_eq!(config.bind_address(), "0.0.0.0:0");
}

#[test]
fn session_key_decodes_from_base64() {
    let encoded = base64::engine::general_purpose::STANDARD.encode([1u8, 2, 3, 255]);
    let config = AppConfig {
        session_key: encoded,
    };
    assert_eq!(config.raw_session_key().unwrap(), vec![1u8, 2, 3, 255]);
}

#[test]
fn malformed_session_key_is_rejected() {
    let config = AppConfig {
        session_key: "!!not base64!!".to_string(),
    };
    assert_eq!(config.raw_session_key().unwrap_err(), ConfigError::InvalidSessionKey);
}

#[test]
fn client_errors_answer_400_with_their_reason() {
    let r = error_response(&AuthenticationError::StateMissing);
    assert_eq!(r.status, 400);
    assert_eq!(r.status_text, "Bad Request");
    assert_eq!(r.reason, "No saved state found");

    let r = error_response(&AuthenticationError::StateNotMatch);
    assert_eq!(r.status, 400);
    assert_eq!(r.status_text, "Bad Request");
    assert_eq!(r.reason, "Callback state does not match saved one");
}

#[test]
fn other_errors_answer_a_generic_500() {
    for e in [
        AuthenticationError::TokenRequestFailed,
        AuthenticationError::InvalidTokenResponse,
        AuthenticationError::UserRequestFailed,
        AuthenticationError::InvalidUserResponse,
        AuthenticationError::StateSavingFailed,
        AuthenticationError::TokenSavingFailed,
        AuthenticationError::StateLoadingFailed,
        AuthenticationError::DatabaseConnectionFailed,
        AuthenticationError::IdentityRegistrationFailed,
        AuthenticationError::TokenSigningFailed,
        AuthenticationError::SystemTimeFailed,
    ] {
        let r = error_response(&e);
        assert_eq!(r.status, 500);
        assert_eq!(r.status_text, "internal server error");
        assert_eq!(r.reason, "internal server error");
    }
}

#[test]
fn error_messages_are_specific() {
    assert_eq!(
        AuthenticationError::TokenRequestFailed.message(),
        "Token request failed"
    );
    assert_eq!(
        AuthenticationError::InvalidUserResponse.message(),
        "Parsing user response failed"
    );
    assert_eq!(
        AuthenticationError::IdentityRegistrationFailed.message(),
        "Failed to find/register identity"
    );
}

#[test]
fn decimal_rendering_is_exact() {
    assert_eq!(u64_to_string(0), "0");
    assert_eq!(u64_to_string(7), "7");
    assert_eq!(u64_to_string(10), "10");
    assert_eq!(u64_to_string(409), "409");
    assert_eq!(u64_to_string(u64::MAX), "18446744073709551615");
}

#[test]
fn decimal_parsing_inverts_rendering() {
    let s = "1234567890";
    assert_eq!(parse_dec_u64(s, 0, s.len()), Some(1234567890));
    let max = u64_to_string(u64::MAX);
    assert_eq!(parse_dec_u64(&max, 0, max.len()), Some(u64::MAX));
}

#[test]
fn decimal_parsing_rejects_junk() {
    assert_eq!(parse_dec_u64("", 0, 0), None);
    assert_eq!(parse_dec_u64("12a4", 0, 4), None);
    // One past the largest value.
    let s = "18446744073709551616";
    assert_eq!(parse_dec_u64(s, 0, s.len()), None);
    // A middle slice parses alone.
    assert_eq!(parse_dec_u64("ab123cd", 2, 5), Some(123));
}
