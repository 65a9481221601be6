use actixexp::auth::{AuthenticationError, CallbackParams};
use actixexp::config::{
    AppConfig, ApplicationConfig, AuthConfig, DatabaseConfig, FrontendConfig, ServerConfig,
};
use actixexp::flow::{ExchangeFailure, FlowAction, IssueFailure, ResolutionFailure, TokenResponse, UserResponse};
use actixexp::handlers::{callback_begin, callback_finish, login_start, signout};
use actixexp::identity::IdentityStore;
use actixexp::login_required::{login_status, lookup_identity, SessionLookup};
use actixexp::session::SessionData;

fn test_config() -> ApplicationConfig {
    ApplicationConfig {
        server: ServerConfig {
            bind: "127.0.0.1".to_string(),
            port: 8000,
        },
        app: AppConfig {
            session_key: "c2VjcmV0LXNlc3Npb24ta2V5".to_string(),
        },
        auth: AuthConfig {
            client_id: "abc".to_string(),
            client_secret: "shhh".to_string(),
        },
        database: DatabaseConfig {
            host: "localhost".to_string(),
            port: 5432,
            database: "actixexp".to_string(),
            user: "postgres".to_string(),
            password: "postgres".to_string(),
        },
        frontend: FrontendConfig {
            base_uri: "http://localhost:3000".to_string(),
        },
    }
}

fn is_b64url(c: char) -> bool {
    c.is_ascii_alphanumeric() || c == '-' || c == '_'
}

#[test]
fn login_start_returns_client_id_and_state() {
    let config = test_config();
    let mut session = SessionData::new();
    let response = login_start(&config, &mut session);
    assert_eq!(response.client_id, "abc");
    assert_eq!(response.scope, "read:user");
    assert_eq!(response.state.len(), 43);
    assert!(response.state.chars().all(is_b64url));
    assert_eq!(session.get("auth-state"), Some(response.state.clone()));
}

#[test]
fn state_tokens_differ_between_logins() {
    let config = test_config();
    let mut s1 = SessionData::new();
    let mut s2 = SessionData::new();
    let r1 = login_start(&config, &mut s1);
    let r2 = login_start(&config, &mut s2);
    assert_ne!(r1.state, r2.state);
}

#[test]
fn full_login_flow_resolves_identity() {
    let config = test_config();
    let mut session = SessionData::new();
    let start = login_start(&config, &mut session);

    let params = CallbackParams {
        state: start.state.clone(),
        code: "provider-code".to_string(),
    };
    let (mut auth, action) = callback_begin(&config, &mut session, params);

    let token_request = match action {
        FlowAction::ExchangeToken(t) => t,
        _ => panic!("expected an exchange action"),
    };
    assert_eq!(token_request.client_id, "abc");
    assert_eq!(token_request.client_secret, "shhh");
    assert_eq!(token_request.code, "provider-code");
    assert_eq!(token_request.state, start.state);

    let action = auth.on_token_response(Ok(TokenResponse {
        access_token: "tok".to_string(),
    }));
    let user_request = match action {
        FlowAction::FetchProfile(u) => u,
        _ => panic!("expected a profile action"),
    };
    assert_eq!(user_request.access_token, "tok");

    let action = auth.on_user_response(Ok(UserResponse {
        id: 42,
        login: "alice".to_string(),
        name: "Alice".to_string(),
    }));
    let provider_identifier = match action {
        FlowAction::ResolveIdentity(p) => p,
        _ => panic!("expected a resolution action"),
    };
    assert_eq!(provider_identifier, "42");

    let mut store = IdentityStore::new();
    let identity = store.find_or_create(&provider_identifier).unwrap();
    assert_eq!(identity.provider_identifier, "42");
    assert!(identity.alive);

    let action = auth.on_identity_resolved(Ok(identity));
    let issued_for = match action {
        FlowAction::IssueCredential(i) => i,
        _ => panic!("expected an issuance action"),
    };
    assert_eq!(issued_for.provider_identifier, "42");

    let action = auth.on_credential_issued(Ok(()));
    assert!(matches!(action, FlowAction::Complete));

    let result = auth.finish().unwrap();
    assert_eq!(result.identity.provider_identifier, "42");
    assert_eq!(result.identifier, "42");
    assert_eq!(result.username, "alice");
    assert_eq!(result.name, "Alice");

    let response = callback_finish(&mut session, &result);
    assert_eq!(response.identifier, result.identity.id);
    assert_eq!(response.name, "Alice");
    assert_eq!(session.get("id"), Some(result.identity.id.clone()));
    assert_eq!(session.get("auth-state"), None);
}

#[test]
fn callback_without_login_start_is_state_missing() {
    let config = test_config();
    let mut session = SessionData::new();
    let params = CallbackParams {
        state: "whatever".to_string(),
        code: "code".to_string(),
    };
    let (auth, action) = callback_begin(&config, &mut session, params);
    assert!(matches!(action, FlowAction::Abort));
    let err = auth.finish().unwrap_err();
    assert_eq!(err, AuthenticationError::StateMissing);
}

#[test]
fn callback_with_wrong_state_is_state_not_match() {
    let config = test_config();
    let mut session = SessionData::new();
    let _ = login_start(&config, &mut session);
    let params = CallbackParams {
        state: "not-the-saved-state".to_string(),
        code: "code".to_string(),
    };
    let (auth, action) = callback_begin(&config, &mut session, params);
    assert!(matches!(action, FlowAction::Abort));
    let err = auth.finish().unwrap_err();
    assert_eq!(err, AuthenticationError::StateNotMatch);
}

#[test]
fn state_is_single_use() {
    let config = test_config();
    let mut session = SessionData::new();
    let start = login_start(&config, &mut session);
    let params = CallbackParams {
        state: start.state.clone(),
        code: "code".to_string(),
    };
    let (auth, _) = callback_begin(&config, &mut session, params);
    drop(auth);
    // The state was consumed, matching or not; presenting it again fails.
    let reuse = CallbackParams {
        state: start.state.clone(),
        code: "code".to_string(),
    };
    let (auth, action) = callback_begin(&config, &mut session, reuse);
    assert!(matches!(action, FlowAction::Abort));
    let err = auth.finish().unwrap_err();
    assert_eq!(err, AuthenticationError::StateMissing);
}

#[test]
fn failed_exchange_aborts_with_specific_error() {
    let config = test_config();
    let mut session = SessionData::new();
    let start = login_start(&config, &mut session);
    let params = CallbackParams {
        state: start.state,
        code: "code".to_string(),
    };
    let (mut auth, _) = callback_begin(&config, &mut session, params);
    let action = auth.on_token_response(Err(ExchangeFailure::Transport));
    assert!(matches!(action, FlowAction::Abort));
    assert_eq!(auth.finish().unwrap_err(), AuthenticationError::TokenRequestFailed);
}

#[test]
fn signout_clears_the_session() {
    let config = test_config();
    let mut session = SessionData::new();
    let start = login_start(&config, &mut session);
    let params = CallbackParams {
        state: start.state,
        code: "code".to_string(),
    };
    let (mut auth, _) = callback_begin(&config, &mut session, params);
    let _ = auth.on_token_response(Ok(TokenResponse {
        access_token: "tok".to_string(),
    }));
    let _ = auth.on_user_response(Ok(UserResponse {
        id: 7,
        login: "bob".to_string(),
        name: "Bob".to_string(),
    }));
    let mut store = IdentityStore::new();
    let identity = store.find_or_create("7").unwrap();
    let _ = auth.on_identity_resolved(Ok(identity));
    let _ = auth.on_credential_issued(Ok(()));
    let result = auth.finish().unwrap();
    let _ = callback_finish(&mut session, &result);

    // Signed in: the guard lets a protected request through.
    let lookup = lookup_identity(&session);
    assert!(login_status(&lookup).is_ok());

    let response = signout(&mut session);
    assert_eq!(response.result, "ok");

    // Signed out: the next protected request is unauthenticated.
    let lookup = lookup_identity(&session);
    assert!(matches!(lookup, SessionLookup::Missing));
    let denied = login_status(&lookup).unwrap_err();
    assert_eq!(denied.status, 401);
    assert_eq!(denied.error, "login required");
}

#[test]
fn unreadable_session_is_a_server_error() {
    let denied = login_status(&SessionLookup::Unreadable).unwrap_err();
    assert_eq!(denied.status, 500);
    assert_eq!(denied.error, "internal server error");
}

#[test]
fn each_failure_event_maps_to_its_error() {
    let config = test_config();

    let run_to_validated = |session: &mut SessionData| {
        let start = login_start(&config, session);
        let params = CallbackParams {
            state: start.state,
            code: "code".to_string(),
        };
        let (auth, _) = callback_begin(&config, session, params);
        auth
    };

    let mut session = SessionData::new();
    let mut auth = run_to_validated(&mut session);
    let _ = auth.on_token_response(Err(ExchangeFailure::MalformedResponse));
    assert_eq!(auth.finish().unwrap_err(), AuthenticationError::InvalidTokenResponse);

    let token = || {
        Ok(TokenResponse {
            access_token: "tok".to_string(),
        })
    };
    let mut session = SessionData::new();
    let mut auth = run_to_validated(&mut session);
    let _ = auth.on_token_response(token());
    let _ = auth.on_user_response(Err(ExchangeFailure::Transport));
    assert_eq!(auth.finish().unwrap_err(), AuthenticationError::UserRequestFailed);

    let mut session = SessionData::new();
    let mut auth = run_to_validated(&mut session);
    let _ = auth.on_token_response(token());
    let _ = auth.on_user_response(Err(ExchangeFailure::MalformedResponse));
    assert_eq!(auth.finish().unwrap_err(), AuthenticationError::InvalidUserResponse);

    let profile = || {
        Ok(UserResponse {
            id: 9,
            login: "carol".to_string(),
            name: "Carol".to_string(),
        })
    };
    let mut session = SessionData::new();
    let mut auth = run_to_validated(&mut session);
    let _ = auth.on_token_response(token());
    let _ = auth.on_user_response(profile());
    let _ = auth.on_identity_resolved(Err(ResolutionFailure::Connection));
    assert_eq!(auth.finish().unwrap_err(), AuthenticationError::DatabaseConnectionFailed);

    let mut session = SessionData::new();
    let mut auth = run_to_validated(&mut session);
    let _ = auth.on_token_response(token());
    let _ = auth.on_user_response(profile());
    let _ = auth.on_identity_resolved(Err(ResolutionFailure::Store));
    assert_eq!(auth.finish().unwrap_err(), AuthenticationError::IdentityRegistrationFailed);

    let resolved = || {
        let mut store = IdentityStore::new();
        store.find_or_create("9").map_err(|_| ResolutionFailure::Store)
    };
    let mut session = SessionData::new();
    let mut auth = run_to_validated(&mut session);
    let _ = auth.on_token_response(token());
    let _ = auth.on_user_response(profile());
    let _ = auth.on_identity_resolved(resolved());
    let _ = auth.on_credential_issued(Err(IssueFailure::SessionWrite));
    assert_eq!(auth.finish().unwrap_err(), AuthenticationError::TokenSavingFailed);

    let mut session = SessionData::new();
    let mut auth = run_to_validated(&mut session);
    let _ = auth.on_token_response(token());
    let _ = auth.on_user_response(profile());
    let _ = auth.on_identity_resolved(resolved());
    let _ = auth.on_credential_issued(Err(IssueFailure::Signing));
    assert_eq!(auth.finish().unwrap_err(), AuthenticationError::TokenSigningFailed);

    let mut session = SessionData::new();
    let mut auth = run_to_validated(&mut session);
    let _ = auth.on_token_response(token());
    let _ = auth.on_user_response(profile());
    let _ = auth.on_identity_resolved(resolved());
    let _ = auth.on_credential_issued(Err(IssueFailure::Clock));
    assert_eq!(auth.finish().unwrap_err(), AuthenticationError::SystemTimeFailed);
}
