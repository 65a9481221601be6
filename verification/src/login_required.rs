//! The guard in front of protected routes: a request without a signed-in
//! identity in its session is answered before it reaches a handler.

use vstd::prelude::*;

use crate::session::SessionData;

verus! {

/// The middleware that guards protected routes; the surrounding program
/// wraps it around a service and feeds `login_status` what the session
/// lookup yielded.
pub struct LoginRequired {}

impl LoginRequired {
    pub fn new() -> (r: Self) {
        Self {}
    }
}

/// What reading the signed-in identity out of the caller's session
/// yielded.
pub enum SessionLookup {
    /// The session holds an identity.
    Found(String),
    /// The session holds none: the caller never signed in, or signed out.
    Missing,
    /// The session could not be read.
    Unreadable,
}

/// The early answer an unauthenticated or unreadable request gets.
pub struct AccessDenied {
    pub status: u16,
    pub error: String,
}

/// Read the signed-in identity from a session.
pub fn lookup_identity(session: &SessionData) -> (r: SessionLookup)
    requires
        session.wf(),
    ensures
        session.as_map().contains_key("id"@) ==> (r matches SessionLookup::Found(id) && id@
            == session.as_map()["id"@]),
        !session.as_map().contains_key("id"@) ==> r matches SessionLookup::Missing,
{
    match session.get("id") {
        Some(id) => SessionLookup::Found(id),
        None => SessionLookup::Missing,
    }
}

/// Decide whether a protected request may proceed: only a session holding
/// an identity passes; a missing identity is answered 401, an unreadable
/// session 500.
pub fn login_status(lookup: &SessionLookup) -> (r: Result<(), AccessDenied>)
    ensures
        r is Ok <==> lookup matches SessionLookup::Found(_),
        lookup matches SessionLookup::Missing ==> (r matches Err(d) && d.status == 401 && d.error@
            == "login required"@),
        lookup matches SessionLookup::Unreadable ==> (r matches Err(d) && d.status == 500
            && d.error@ == "internal server error"@),
{
    match lookup {
        SessionLookup::Found(_) => Ok(()),
        SessionLookup::Missing => Err(
            AccessDenied { status: 401, error: "login required".to_owned() },
        ),
        SessionLookup::Unreadable => Err(
            AccessDenied { status: 500, error: "internal server error".to_owned() },
        ),
    }
}

/// After a sign-out, a protected request is unauthenticated: the purged
/// session holds no identity, so the guard answers 401.
pub proof fn lemma_signed_out_is_unauthenticated(
    session: SessionData,
    lookup: SessionLookup,
    decision: Result<(), AccessDenied>,
)
    requires
        session.as_map() == Map::<Seq<char>, Seq<char>>::empty(),
        session.as_map().contains_key("id"@) ==> (lookup matches SessionLookup::Found(id) && id@
            == session.as_map()["id"@]),
        !session.as_map().contains_key("id"@) ==> lookup matches SessionLookup::Missing,
        decision is Ok <==> lookup matches SessionLookup::Found(_),
        lookup matches SessionLookup::Missing ==> (decision matches Err(d) && d.status == 401),
    ensures
        decision matches Err(d) && d.status == 401,
{
}

} // verus!
