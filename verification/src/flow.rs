//! The authentication flow as an explicit state machine.
//!
//! The flow validates the anti-forgery state, and then alternates between
//! outside work (the provider's token and profile endpoints, the identity
//! store, the credential issuer) and decisions. The decisions live here:
//! each step takes the outcome of the previous action and yields the next
//! action, and the contracts pin exactly which action follows which
//! outcome. The surrounding program merely performs the actions; a step
//! that fails yields `Abort` and the machine can never act again.

use vstd::prelude::*;

use crate::auth::{AuthenticationError, AuthenticationResult, CallbackParams};
use crate::config::ApplicationConfig;
use crate::decimal::dec_rep;
use crate::decimal::u64_to_string;
use crate::identity::Identity;

verus! {

/// The form parameters of the provider's token-endpoint request.
pub struct TokenRequest {
    pub client_id: String,
    pub client_secret: String,
    pub code: String,
    pub state: String,
}

impl TokenRequest {
    /// The exchange request for a given configuration and callback.
    pub fn new(config: &ApplicationConfig, code: String, state: String) -> (r: Self)
        ensures
            r.client_id == config.auth.client_id,
            r.client_secret == config.auth.client_secret,
            r.code == code,
            r.state == state,
    {
        Self {
            client_id: config.auth.client_id.clone(),
            client_secret: config.auth.client_secret.clone(),
            code,
            state,
        }
    }
}

/// The provider's answer to the code exchange.
pub struct TokenResponse {
    pub access_token: String,
}

/// The profile-endpoint request: authorized by the access token.
pub struct UserRequest {
    pub access_token: String,
}

impl UserRequest {
    pub fn new(access_token: String) -> (r: Self)
        ensures
            r.access_token == access_token,
    {
        Self { access_token }
    }
}

/// The provider's profile answer.
pub struct UserResponse {
    pub id: u64,
    pub login: String,
    pub name: String,
}

/// How a provider call can fail.
#[derive(Clone, Copy, Debug, PartialEq, Eq, Structural)]
pub enum ExchangeFailure {
    /// Transport error or non-success status.
    Transport,
    /// The body could not be understood.
    MalformedResponse,
}

/// How identity resolution can fail.
#[derive(Clone, Copy, Debug, PartialEq, Eq, Structural)]
pub enum ResolutionFailure {
    /// No connection to the store.
    Connection,
    /// The store refused the lookup or insert.
    Store,
}

/// How credential issuance can fail.
#[derive(Clone, Copy, Debug, PartialEq, Eq, Structural)]
pub enum IssueFailure {
    /// The session store refused the write.
    SessionWrite,
    /// The signing step failed.
    Signing,
    /// The clock could not be read.
    Clock,
}

/// Where the flow stands.
#[derive(Clone, Copy, Debug, PartialEq, Eq, Structural)]
pub enum FlowStage {
    Started,
    StateValidated,
    TokenExchanged,
    ProfileFetched,
    IdentityResolved,
    CredentialIssued,
    Failed,
}

/// What the surrounding program must do next.
pub enum FlowAction {
    /// POST this exchange request to the token endpoint.
    ExchangeToken(TokenRequest),
    /// GET the profile endpoint with this request.
    FetchProfile(UserRequest),
    /// Resolve this provider identifier in the identity store.
    ResolveIdentity(String),
    /// Issue the session credential for this identity.
    IssueCredential(Identity),
    /// The flow is complete; collect the result.
    Complete,
    /// The flow failed; collect the error.
    Abort,
}

/// One login callback being driven to a session credential.
pub struct Authentication {
    pub client_id: String,
    pub client_secret: String,
    pub params: CallbackParams,
    pub saved_state: Option<String>,
    pub stage: FlowStage,
    pub profile: Option<UserResponse>,
    pub identity: Option<Identity>,
    pub failure: Option<AuthenticationError>,
}

impl Authentication {
    /// Each stage holds what it needs.
    pub open spec fn wf(self) -> bool {
        &&& (self.stage == FlowStage::ProfileFetched || self.stage == FlowStage::IdentityResolved
            || self.stage == FlowStage::CredentialIssued) ==> self.profile is Some
        &&& (self.stage == FlowStage::IdentityResolved || self.stage
            == FlowStage::CredentialIssued) ==> self.identity is Some
        &&& self.stage == FlowStage::Failed ==> self.failure is Some
    }

    /// A flow at its start, holding the callback and the state that was
    /// saved for this client, if any.
    pub fn new(config: &ApplicationConfig, params: CallbackParams, saved_state: Option<String>) -> (r:
        Self)
        ensures
            r.wf(),
            r.stage == FlowStage::Started,
            r.client_id == config.auth.client_id,
            r.client_secret == config.auth.client_secret,
            r.params == params,
            r.saved_state == saved_state,
            r.profile is None,
            r.identity is None,
            r.failure is None,
    {
        Self {
            client_id: config.auth.client_id.clone(),
            client_secret: config.auth.client_secret.clone(),
            params,
            saved_state,
            stage: FlowStage::Started,
            profile: None,
            identity: None,
            failure: None,
        }
    }

    /// The fields no step ever changes.
    pub open spec fn frame(pre: Self, post: Self) -> bool {
        &&& post.client_id == pre.client_id
        &&& post.client_secret == pre.client_secret
        &&& post.params == pre.params
        &&& post.saved_state == pre.saved_state
    }

    /// A step that failed with `e`.
    pub open spec fn failed_with(self, e: AuthenticationError) -> bool {
        self.stage == FlowStage::Failed && self.failure == Some(e)
    }

    /// What validating the anti-forgery state does: with no saved state the
    /// flow fails with `StateMissing`; with a saved state that differs from
    /// the submitted one it fails with `StateNotMatch`; only an exact match
    /// yields the token-endpoint call.
    pub open spec fn start_post(pre: Self, post: Self, action: FlowAction) -> bool {
        &&& Self::frame(pre, post)
        &&& post.profile == pre.profile
        &&& post.identity == pre.identity
        &&& match pre.saved_state {
            None => post.failed_with(AuthenticationError::StateMissing) && action
                matches FlowAction::Abort,
            Some(saved) => if saved@ != pre.params.state@ {
                post.failed_with(AuthenticationError::StateNotMatch) && action
                    matches FlowAction::Abort
            } else {
                &&& post.stage == FlowStage::StateValidated
                &&& post.failure is None
                &&& action matches FlowAction::ExchangeToken(t) && t.client_id == pre.client_id
                    && t.client_secret == pre.client_secret && t.code == pre.params.code && t.state
                    == pre.params.state
            },
        }
    }

    /// Validate the saved anti-forgery state against the submitted one.
    pub fn start(&mut self) -> (action: FlowAction)
        requires
            old(self).wf(),
            old(self).stage == FlowStage::Started,
            old(self).failure is None,
        ensures
            final(self).wf(),
            Self::start_post(*old(self), *final(self), action),
    {
        let state_matches: Option<bool> = match &self.saved_state {
            None => None,
            Some(saved) => Some(self.params.state == *saved),
        };
        match state_matches {
            None => {
                self.stage = FlowStage::Failed;
                self.failure = Some(AuthenticationError::StateMissing);
                FlowAction::Abort
            },
            Some(false) => {
                self.stage = FlowStage::Failed;
                self.failure = Some(AuthenticationError::StateNotMatch);
                FlowAction::Abort
            },
            Some(true) => {
                self.stage = FlowStage::StateValidated;
                FlowAction::ExchangeToken(
                    TokenRequest {
                        client_id: self.client_id.clone(),
                        client_secret: self.client_secret.clone(),
                        code: self.params.code.clone(),
                        state: self.params.state.clone(),
                    },
                )
            },
        }
    }

    /// What the token-exchange outcome does: success carries the access
    /// token into the profile call; each failure halts the flow with its
    /// specific error.
    pub open spec fn token_step_post(
        pre: Self,
        post: Self,
        outcome: Result<TokenResponse, ExchangeFailure>,
        action: FlowAction,
    ) -> bool {
        &&& Self::frame(pre, post)
        &&& post.profile == pre.profile
        &&& post.identity == pre.identity
        &&& match outcome {
            Ok(t) => {
                &&& post.stage == FlowStage::TokenExchanged
                &&& post.failure == pre.failure
                &&& action matches FlowAction::FetchProfile(u) && u.access_token == t.access_token
            },
            Err(ExchangeFailure::Transport) => post.failed_with(
                AuthenticationError::TokenRequestFailed,
            ) && action matches FlowAction::Abort,
            Err(ExchangeFailure::MalformedResponse) => post.failed_with(
                AuthenticationError::InvalidTokenResponse,
            ) && action matches FlowAction::Abort,
        }
    }

    /// Consume the outcome of the token-endpoint call.
    pub fn on_token_response(&mut self, outcome: Result<TokenResponse, ExchangeFailure>) -> (action:
        FlowAction)
        requires
            old(self).wf(),
            old(self).stage == FlowStage::StateValidated,
        ensures
            final(self).wf(),
            Self::token_step_post(*old(self), *final(self), outcome, action),
    {
        match outcome {
            Ok(t) => {
                self.stage = FlowStage::TokenExchanged;
                FlowAction::FetchProfile(UserRequest { access_token: t.access_token })
            },
            Err(ExchangeFailure::Transport) => {
                self.stage = FlowStage::Failed;
                self.failure = Some(AuthenticationError::TokenRequestFailed);
                FlowAction::Abort
            },
            Err(ExchangeFailure::MalformedResponse) => {
                self.stage = FlowStage::Failed;
                self.failure = Some(AuthenticationError::InvalidTokenResponse);
                FlowAction::Abort
            },
        }
    }

    /// What the profile outcome does: success records the profile and asks
    /// for identity resolution keyed by the canonical decimal rendering of
    /// the provider's numeric user id.
    pub open spec fn profile_step_post(
        pre: Self,
        post: Self,
        outcome: Result<UserResponse, ExchangeFailure>,
        action: FlowAction,
    ) -> bool {
        &&& Self::frame(pre, post)
        &&& post.identity == pre.identity
        &&& match outcome {
            Ok(u) => {
                &&& post.stage == FlowStage::ProfileFetched
                &&& post.failure == pre.failure
                &&& post.profile == Some(u)
                &&& action matches FlowAction::ResolveIdentity(p) && p@ == dec_rep(u.id as nat)
            },
            Err(ExchangeFailure::Transport) => post.profile == pre.profile && post.failed_with(
                AuthenticationError::UserRequestFailed,
            ) && action matches FlowAction::Abort,
            Err(ExchangeFailure::MalformedResponse) => post.profile == pre.profile
                && post.failed_with(AuthenticationError::InvalidUserResponse) && action
                matches FlowAction::Abort,
        }
    }

    /// Consume the outcome of the profile call.
    pub fn on_user_response(&mut self, outcome: Result<UserResponse, ExchangeFailure>) -> (action:
        FlowAction)
        requires
            old(self).wf(),
            old(self).stage == FlowStage::TokenExchanged,
        ensures
            final(self).wf(),
            Self::profile_step_post(*old(self), *final(self), outcome, action),
    {
        match outcome {
            Ok(u) => {
                let provider_identifier = u64_to_string(u.id);
                self.profile = Some(u);
                self.stage = FlowStage::ProfileFetched;
                FlowAction::ResolveIdentity(provider_identifier)
            },
            Err(ExchangeFailure::Transport) => {
                self.stage = FlowStage::Failed;
                self.failure = Some(AuthenticationError::UserRequestFailed);
                FlowAction::Abort
            },
            Err(ExchangeFailure::MalformedResponse) => {
                self.stage = FlowStage::Failed;
                self.failure = Some(AuthenticationError::InvalidUserResponse);
                FlowAction::Abort
            },
        }
    }

    /// What the resolution outcome does: success records the identity and
    /// asks for the credential; failures map to the flow's error taxonomy.
    pub open spec fn identity_step_post(
        pre: Self,
        post: Self,
        outcome: Result<Identity, ResolutionFailure>,
        action: FlowAction,
    ) -> bool {
        &&& Self::frame(pre, post)
        &&& post.profile == pre.profile
        &&& match outcome {
            Ok(i) => {
                &&& post.stage == FlowStage::IdentityResolved
                &&& post.failure == pre.failure
                &&& post.identity == Some(i)
                &&& action matches FlowAction::IssueCredential(x) && x == i
            },
            Err(ResolutionFailure::Connection) => post.identity == pre.identity
                && post.failed_with(AuthenticationError::DatabaseConnectionFailed) && action
                matches FlowAction::Abort,
            Err(ResolutionFailure::Store) => post.identity == pre.identity && post.failed_with(
                AuthenticationError::IdentityRegistrationFailed,
            ) && action matches FlowAction::Abort,
        }
    }

    /// Consume the outcome of identity resolution.
    pub fn on_identity_resolved(&mut self, outcome: Result<Identity, ResolutionFailure>) -> (action:
        FlowAction)
        requires
            old(self).wf(),
            old(self).stage == FlowStage::ProfileFetched,
        ensures
            final(self).wf(),
            Self::identity_step_post(*old(self), *final(self), outcome, action),
    {
        match outcome {
            Ok(i) => {
                let copy = i.duplicate();
                self.identity = Some(i);
                self.stage = FlowStage::IdentityResolved;
                FlowAction::IssueCredential(copy)
            },
            Err(ResolutionFailure::Connection) => {
                self.stage = FlowStage::Failed;
                self.failure = Some(AuthenticationError::DatabaseConnectionFailed);
                FlowAction::Abort
            },
            Err(ResolutionFailure::Store) => {
                self.stage = FlowStage::Failed;
                self.failure = Some(AuthenticationError::IdentityRegistrationFailed);
                FlowAction::Abort
            },
        }
    }

    /// What the issuance outcome does.
    pub open spec fn credential_step_post(
        pre: Self,
        post: Self,
        outcome: Result<(), IssueFailure>,
        action: FlowAction,
    ) -> bool {
        &&& Self::frame(pre, post)
        &&& post.profile == pre.profile
        &&& post.identity == pre.identity
        &&& match outcome {
            Ok(_) => post.stage == FlowStage::CredentialIssued && post.failure == pre.failure
                && action matches FlowAction::Complete,
            Err(IssueFailure::SessionWrite) => post.failed_with(
                AuthenticationError::TokenSavingFailed,
            ) && action matches FlowAction::Abort,
            Err(IssueFailure::Signing) => post.failed_with(AuthenticationError::TokenSigningFailed)
                && action matches FlowAction::Abort,
            Err(IssueFailure::Clock) => post.failed_with(AuthenticationError::SystemTimeFailed)
                && action matches FlowAction::Abort,
        }
    }

    /// Consume the outcome of credential issuance.
    pub fn on_credential_issued(&mut self, outcome: Result<(), IssueFailure>) -> (action:
        FlowAction)
        requires
            old(self).wf(),
            old(self).stage == FlowStage::IdentityResolved,
        ensures
            final(self).wf(),
            Self::credential_step_post(*old(self), *final(self), outcome, action),
    {
        match outcome {
            Ok(_) => {
                self.stage = FlowStage::CredentialIssued;
                FlowAction::Complete
            },
            Err(IssueFailure::SessionWrite) => {
                self.stage = FlowStage::Failed;
                self.failure = Some(AuthenticationError::TokenSavingFailed);
                FlowAction::Abort
            },
            Err(IssueFailure::Signing) => {
                self.stage = FlowStage::Failed;
                self.failure = Some(AuthenticationError::TokenSigningFailed);
                FlowAction::Abort
            },
            Err(IssueFailure::Clock) => {
                self.stage = FlowStage::Failed;
                self.failure = Some(AuthenticationError::SystemTimeFailed);
                FlowAction::Abort
            },
        }
    }

    /// Collect the outcome of a finished flow: the result on success, the
    /// recorded error on failure.
    pub fn finish(self) -> (r: Result<AuthenticationResult, AuthenticationError>)
        requires
            self.wf(),
            self.stage == FlowStage::CredentialIssued || self.stage == FlowStage::Failed,
        ensures
            self.stage == FlowStage::CredentialIssued ==> (r matches Ok(res) && res.identity
                == self.identity->0 && res.identifier@ == dec_rep(self.profile->0.id as nat)
                && res.username == self.profile->0.login && res.name == self.profile->0.name),
            self.stage == FlowStage::Failed ==> r == Err::<AuthenticationResult,
                AuthenticationError,
            >(self.failure->0),
    {
        match self.stage {
            FlowStage::CredentialIssued => {
                let profile = self.profile.unwrap();
                let identity = self.identity.unwrap();
                let identifier = u64_to_string(profile.id);
                Ok(
                    AuthenticationResult {
                        identity,
                        identifier,
                        username: profile.login,
                        name: profile.name,
                    },
                )
            },
            _ => Err(self.failure.unwrap()),
        }
    }
}

/// A credential is never issued without a prior successful identity
/// resolution: a flow that reached `CredentialIssued` holds the identity
/// it was resolved to.
pub proof fn lemma_credential_needs_identity(m: Authentication)
    requires
        m.wf(),
        m.stage == FlowStage::CredentialIssued,
    ensures
        m.identity is Some,
        m.profile is Some,
{
}

/// With no saved state the flow halts with `StateMissing` before any
/// provider call: the start step yields `Abort`, never an exchange.
pub proof fn lemma_state_missing_halts(pre: Authentication, post: Authentication, action: FlowAction)
    requires
        Authentication::start_post(pre, post, action),
        pre.saved_state is None,
    ensures
        post.failed_with(AuthenticationError::StateMissing),
        action matches FlowAction::Abort,
{
}

/// A submitted state that differs from the saved one halts the flow with
/// `StateNotMatch` before any provider call: the start step yields
/// `Abort`, never an exchange.
pub proof fn lemma_state_mismatch_halts(
    pre: Authentication,
    post: Authentication,
    action: FlowAction,
)
    requires
        Authentication::start_post(pre, post, action),
        pre.saved_state matches Some(saved) && saved@ != pre.params.state@,
    ensures
        post.failed_with(AuthenticationError::StateNotMatch),
        action matches FlowAction::Abort,
{
}

} // verus!
