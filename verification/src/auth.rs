//! Core types of the authentication flow: the anti-forgery request, the
//! untrusted callback parameters, the result handed to the caller, and the
//! error taxonomy with its HTTP rendering.

use vstd::prelude::*;

use crate::crypto::{b64url_encode, is_b64url_char, random_bytes_32};
use crate::identity::Identity;

verus! {

/// A login attempt about to be redirected to the provider, keyed by its
/// anti-forgery state token.
pub struct AuthorizationRequest {
    pub state: String,
}

impl AuthorizationRequest {
    /// A fresh request with an unguessable state: 32 bytes from a
    /// cryptographically secure generator, URL-safe base64 without padding,
    /// hence 43 characters.
    pub fn new() -> (r: Self)
        ensures
            r.state@.len() == 43,
            forall|i: int| 0 <= i < r.state@.len() ==> is_b64url_char(#[trigger] r.state@[i]),
    {
        Self { state: Self::generate_state() }
    }

    fn generate_state() -> (r: String)
        ensures
            r@.len() == 43,
            forall|i: int| 0 <= i < r@.len() ==> is_b64url_char(#[trigger] r@[i]),
    {
        let bytes = random_bytes_32();
        b64url_encode(&bytes)
    }
}

/// What the provider redirects back with; externally supplied, untrusted.
pub struct CallbackParams {
    pub state: String,
    pub code: String,
}

/// A completed login: the resolved identity and the profile fields the
/// provider reported.
#[derive(Debug)]
pub struct AuthenticationResult {
    pub identity: Identity,
    pub identifier: String,
    pub username: String,
    pub name: String,
}

/// Every way the flow can fail.
#[derive(Clone, Copy, Debug, PartialEq, Eq, Structural)]
pub enum AuthenticationError {
    /// No anti-forgery state was saved for this client.
    StateMissing,
    /// The submitted state differs from the saved one.
    StateNotMatch,
    /// The token endpoint could not be reached or answered non-success.
    TokenRequestFailed,
    /// The token endpoint's body could not be understood.
    InvalidTokenResponse,
    /// The profile endpoint could not be reached or answered non-success.
    UserRequestFailed,
    /// The profile endpoint's body could not be understood.
    InvalidUserResponse,
    /// The state could not be written to the session.
    StateSavingFailed,
    /// The identity could not be written to the session.
    TokenSavingFailed,
    /// The saved state could not be read back.
    StateLoadingFailed,
    /// No connection to the identity store.
    DatabaseConnectionFailed,
    /// The identity could not be found or registered.
    IdentityRegistrationFailed,
    /// The session credential could not be signed.
    TokenSigningFailed,
    /// The clock needed for the credential's validity window failed.
    SystemTimeFailed,
}

impl AuthenticationError {
    /// The reason text each failure carries.
    pub open spec fn spec_message(self) -> Seq<char> {
        match self {
            AuthenticationError::StateMissing => "No saved state found"@,
            AuthenticationError::StateNotMatch => "Callback state does not match saved one"@,
            AuthenticationError::TokenRequestFailed => "Token request failed"@,
            AuthenticationError::InvalidTokenResponse => "Parsing token response failed"@,
            AuthenticationError::UserRequestFailed => "User request failed"@,
            AuthenticationError::InvalidUserResponse => "Parsing user response failed"@,
            AuthenticationError::StateSavingFailed => "Failed to save state to session"@,
            AuthenticationError::TokenSavingFailed => "Failed to save token to session"@,
            AuthenticationError::StateLoadingFailed => "Failed to load state from session"@,
            AuthenticationError::DatabaseConnectionFailed => "Database connection failed"@,
            AuthenticationError::IdentityRegistrationFailed => "Failed to find/register identity"@,
            AuthenticationError::TokenSigningFailed => "Failed to sign session credential"@,
            AuthenticationError::SystemTimeFailed => "System clock failed"@,
        }
    }

    /// The reason text, owned.
    pub fn message(&self) -> (r: String)
        ensures
            r@ == self.spec_message(),
    {
        match self {
            AuthenticationError::StateMissing => "No saved state found".to_owned(),
            AuthenticationError::StateNotMatch => "Callback state does not match saved one"
                .to_owned(),
            AuthenticationError::TokenRequestFailed => "Token request failed".to_owned(),
            AuthenticationError::InvalidTokenResponse => "Parsing token response failed".to_owned(),
            AuthenticationError::UserRequestFailed => "User request failed".to_owned(),
            AuthenticationError::InvalidUserResponse => "Parsing user response failed".to_owned(),
            AuthenticationError::StateSavingFailed => "Failed to save state to session".to_owned(),
            AuthenticationError::TokenSavingFailed => "Failed to save token to session".to_owned(),
            AuthenticationError::StateLoadingFailed => "Failed to load state from session"
                .to_owned(),
            AuthenticationError::DatabaseConnectionFailed => "Database connection failed"
                .to_owned(),
            AuthenticationError::IdentityRegistrationFailed => "Failed to find/register identity"
                .to_owned(),
            AuthenticationError::TokenSigningFailed => "Failed to sign session credential"
                .to_owned(),
            AuthenticationError::SystemTimeFailed => "System clock failed".to_owned(),
        }
    }

    /// Whether the client caused the failure; such failures answer with a
    /// 400, everything else with a 500.
    pub open spec fn is_client_error(self) -> bool {
        self == AuthenticationError::StateMissing || self == AuthenticationError::StateNotMatch
    }
}

/// An HTTP rendering of a failure: status code, status text, and a reason.
pub struct ErrorResponse {
    pub status: u16,
    pub status_text: String,
    pub reason: String,
}

/// Map the error taxonomy to a status and body pair. Client-caused
/// failures carry their reason; everything else answers with a generic
/// body that leaks no internal detail.
pub fn error_response(e: &AuthenticationError) -> (r: ErrorResponse)
    ensures
        e.is_client_error() ==> r.status == 400 && r.status_text@ == "Bad Request"@ && r.reason@
            == e.spec_message(),
        !e.is_client_error() ==> r.status == 500 && r.status_text@ == "internal server error"@
            && r.reason@ == "internal server error"@,
{
    match e {
        AuthenticationError::StateMissing | AuthenticationError::StateNotMatch => ErrorResponse {
            status: 400,
            status_text: "Bad Request".to_owned(),
            reason: e.message(),
        },
        _ => ErrorResponse {
            status: 500,
            status_text: "internal server error".to_owned(),
            reason: "internal server error".to_owned(),
        },
    }
}

} // verus!
