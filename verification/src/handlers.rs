//! What each authentication endpoint decides, against the session model.
//!
//! The surrounding program parses requests and renders responses; the
//! session reads and writes, the read-once consumption of the anti-forgery
//! state, and the post-login session rotation are all decided here.

use vstd::prelude::*;

use crate::auth::{AuthenticationResult, AuthorizationRequest, CallbackParams};
use crate::config::ApplicationConfig;
use crate::crypto::is_b64url_char;
use crate::flow::{Authentication, FlowAction, FlowStage};
use crate::session::SessionData;

verus! {

/// What the login-start endpoint answers: the provider-authorize
/// parameters the client redirects with.
pub struct LoginStartResponse {
    pub client_id: String,
    pub scope: String,
    pub state: String,
}

/// What a successful callback answers.
pub struct CallbackResponse {
    pub identifier: String,
    pub name: String,
}

/// What sign-out answers.
pub struct SignoutResponse {
    pub result: String,
}

/// Begin a login: generate a fresh anti-forgery state, save it in the
/// caller's session under `auth-state`, and return the authorize
/// parameters.
pub fn login_start(config: &ApplicationConfig, session: &mut SessionData) -> (r: LoginStartResponse)
    requires
        old(session).wf(),
    ensures
        final(session).wf(),
        final(session).as_map() == old(session).as_map().insert("auth-state"@, r.state@),
        final(session).gen_id() == old(session).gen_id(),
        r.client_id == config.auth.client_id,
        r.scope@ == "read:user"@,
        r.state@.len() == 43,
        forall|i: int| 0 <= i < r.state@.len() ==> is_b64url_char(#[trigger] r.state@[i]),
{
    let request = AuthorizationRequest::new();
    session.insert("auth-state", request.state.clone());
    LoginStartResponse {
        client_id: config.auth.client_id.clone(),
        scope: "read:user".to_owned(),
        state: request.state,
    }
}

/// What beginning a callback does: the saved state is consumed whatever
/// happens next (read once), and the flow either fails on the state check
/// or stands ready to call the token endpoint.
pub open spec fn callback_begin_post(
    pre_session: SessionData,
    post_session: SessionData,
    config: ApplicationConfig,
    params: CallbackParams,
    auth: Authentication,
    action: FlowAction,
) -> bool {
    &&& post_session.as_map() == pre_session.as_map().remove("auth-state"@)
    &&& post_session.gen_id() == pre_session.gen_id()
    &&& auth.client_id == config.auth.client_id
    &&& auth.client_secret == config.auth.client_secret
    &&& auth.params == params
    &&& auth.profile is None
    &&& auth.identity is None
    &&& if !pre_session.as_map().contains_key("auth-state"@) {
        auth.failed_with(crate::auth::AuthenticationError::StateMissing) && action
            matches FlowAction::Abort
    } else if pre_session.as_map()["auth-state"@] != params.state@ {
        auth.failed_with(crate::auth::AuthenticationError::StateNotMatch) && action
            matches FlowAction::Abort
    } else {
        &&& auth.stage == FlowStage::StateValidated
        &&& action matches FlowAction::ExchangeToken(t) && t.client_id == config.auth.client_id
            && t.client_secret == config.auth.client_secret && t.code == params.code && t.state
            == params.state
    }
}

/// Receive a callback: consume the saved anti-forgery state and start the
/// flow against it.
pub fn callback_begin(
    config: &ApplicationConfig,
    session: &mut SessionData,
    params: CallbackParams,
) -> (r: (Authentication, FlowAction))
    requires
        old(session).wf(),
    ensures
        final(session).wf(),
        r.0.wf(),
        callback_begin_post(*old(session), *final(session), *config, params, r.0, r.1),
{
    let saved_state = session.take("auth-state");
    let mut auth = Authentication::new(config, params, saved_state);
    let action = auth.start();
    (auth, action)
}

/// Complete a successful callback: the pre-login session is purged, its
/// identifier rotated against fixation, and the identity recorded; the
/// response carries the local identifier and the display name.
pub fn callback_finish(session: &mut SessionData, result: &AuthenticationResult) -> (r:
    CallbackResponse)
    requires
        old(session).wf(),
    ensures
        final(session).wf(),
        final(session).as_map() == Map::<Seq<char>, Seq<char>>::empty().insert(
            "id"@,
            result.identity.id@,
        ),
        final(session).gen_id() != old(session).gen_id(),
        r.identifier == result.identity.id,
        r.name == result.name,
{
    session.clear();
    session.renew();
    session.insert("id", result.identity.id.clone());
    CallbackResponse { identifier: result.identity.id.clone(), name: result.name.clone() }
}

/// Sign out: invalidate the session unconditionally.
pub fn signout(session: &mut SessionData) -> (r: SignoutResponse)
    ensures
        final(session).wf(),
        final(session).as_map() == Map::<Seq<char>, Seq<char>>::empty(),
        final(session).gen_id() != old(session).gen_id(),
        r.result@ == "ok"@,
{
    session.purge();
    SignoutResponse { result: "ok".to_owned() }
}

/// A submitted state that differs from the saved one is rejected with
/// `StateNotMatch`, and the flow yields no provider call: the callback's
/// only action is `Abort`.
pub proof fn lemma_wrong_state_rejected(
    s0: SessionData,
    s1: SessionData,
    config: ApplicationConfig,
    p: CallbackParams,
    a: Authentication,
    act: FlowAction,
)
    requires
        callback_begin_post(s0, s1, config, p, a, act),
        s0.as_map().contains_key("auth-state"@),
        s0.as_map()["auth-state"@] != p.state@,
    ensures
        a.failed_with(crate::auth::AuthenticationError::StateNotMatch),
        act matches FlowAction::Abort,
{
}

/// A state token is accepted at most once: a callback consumes the saved
/// state before anything else, so a second callback presenting the same
/// token (with no login started in between) finds none and fails with
/// `StateMissing` — and in every case a reused or wrong token ends the
/// flow with `StateMissing` or `StateNotMatch` before any provider call.
pub proof fn lemma_state_single_use(
    s0: SessionData,
    s1: SessionData,
    s2: SessionData,
    config: ApplicationConfig,
    first_params: CallbackParams,
    second_params: CallbackParams,
    a1: Authentication,
    act1: FlowAction,
    a2: Authentication,
    act2: FlowAction,
)
    requires
        callback_begin_post(s0, s1, config, first_params, a1, act1),
        callback_begin_post(s1, s2, config, second_params, a2, act2),
    ensures
        a2.failed_with(crate::auth::AuthenticationError::StateMissing),
        act2 matches FlowAction::Abort,
{
    assert(!s1.as_map().contains_key("auth-state"@));
}

} // verus!
