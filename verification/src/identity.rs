//! Durable identities and the store that resolves them.
//!
//! An identity is the local record of an authenticated end-user, keyed by
//! the external provider's user id. The store enforces that a provider
//! identifier determines at most one identity, and resolves logins with
//! find-or-create: look the identifier up, create a record only when none
//! exists.

use vstd::prelude::*;

use crate::decimal::dec_rep;
use crate::decimal::u64_to_string;

verus! {

/// The local, durable representation of an authenticated end-user.
#[derive(Debug)]
pub struct Identity {
    /// Stable local identifier.
    pub id: String,
    /// The external provider's user id; unique across identities.
    pub provider_identifier: String,
    /// Soft-delete flag; never cleared by the login flow itself.
    pub alive: bool,
}

impl Identity {
    /// An owned copy.
    pub fn duplicate(&self) -> (r: Identity)
        ensures
            r == *self,
    {
        Identity {
            id: self.id.clone(),
            provider_identifier: self.provider_identifier.clone(),
            alive: self.alive,
        }
    }
}

/// A failure of the backing store.
#[derive(Clone, Copy, Debug, PartialEq, Eq, Structural)]
pub enum StorageError {
    /// The unique constraint on the provider identifier was violated.
    ConstraintViolation,
}

/// The identity stored under `pid`, scanning later records first.
spec fn find_in(s: Seq<Identity>, pid: Seq<char>) -> Option<Identity>
    decreases s.len(),
{
    if s.len() == 0 {
        None
    } else if s.last().provider_identifier@ == pid {
        Some(s.last())
    } else {
        find_in(s.drop_last(), pid)
    }
}

/// No provider identifier occurs twice.
spec fn providers_unique(s: Seq<Identity>) -> bool {
    forall|i: int, j: int|
        0 <= i < j < s.len() ==> s[i].provider_identifier@ != s[j].provider_identifier@
}

/// A lookup misses exactly when no record holds the identifier.
proof fn lemma_find_in_dom(s: Seq<Identity>, pid: Seq<char>)
    ensures
        find_in(s, pid) is Some <==> exists|i: int|
            0 <= i < s.len() && s[i].provider_identifier@ == pid,
    decreases s.len(),
{
    if s.len() > 0 {
        lemma_find_in_dom(s.drop_last(), pid);
        if s.last().provider_identifier@ == pid {
            assert(s[s.len() - 1].provider_identifier@ == pid);
        } else {
            if find_in(s, pid) is Some {
                let i = choose|i: int|
                    0 <= i < s.drop_last().len() && s.drop_last()[i].provider_identifier@ == pid;
                assert(s[i].provider_identifier@ == pid);
            }
            if exists|i: int| 0 <= i < s.len() && s[i].provider_identifier@ == pid {
                let i = choose|i: int| 0 <= i < s.len() && s[i].provider_identifier@ == pid;
                assert(s.drop_last()[i].provider_identifier@ == pid);
            }
        }
    }
}

/// A found record holds the identifier it was found under.
proof fn lemma_find_in_key(s: Seq<Identity>, pid: Seq<char>)
    ensures
        find_in(s, pid) matches Some(x) ==> x.provider_identifier@ == pid,
    decreases s.len(),
{
    if s.len() > 0 && s.last().provider_identifier@ != pid {
        lemma_find_in_key(s.drop_last(), pid);
    }
}

/// With unique identifiers, the lookup returns the record that holds one.
proof fn lemma_find_in_lookup(s: Seq<Identity>, i: int)
    requires
        providers_unique(s),
        0 <= i < s.len(),
    ensures
        find_in(s, s[i].provider_identifier@) == Some(s[i]),
    decreases s.len(),
{
    if i == s.len() - 1 {
    } else {
        lemma_find_in_lookup(s.drop_last(), i);
        assert(s.drop_last()[i] == s[i]);
        assert(s[i].provider_identifier@ != s.last().provider_identifier@);
    }
}

/// The store of identities: find-or-create keyed by provider identifier.
pub struct IdentityStore {
    identities: Vec<Identity>,
    next_id: u64,
}

impl IdentityStore {
    /// The identity resolved for a provider identifier, if any.
    pub closed spec fn spec_find(self, pid: Seq<char>) -> Option<Identity> {
        find_in(self.identities@, pid)
    }

    /// How many identities have ever been created; the next record's local
    /// id is this count, rendered in decimal.
    pub closed spec fn issued(self) -> u64 {
        self.next_id
    }

    /// Room for another local id.
    pub open spec fn can_issue(self) -> bool {
        self.issued() < u64::MAX
    }

    /// A provider identifier determines at most one identity.
    pub closed spec fn wf(self) -> bool {
        providers_unique(self.identities@)
    }

    /// An empty store.
    pub fn new() -> (r: Self)
        ensures
            r.wf(),
            r.issued() == 0,
            forall|pid: Seq<char>| #[trigger] r.spec_find(pid) is None,
    {
        Self { identities: Vec::new(), next_id: 0 }
    }

    /// The index of the record holding `identifier`, if any.
    fn find_index(&self, identifier: &str) -> (r: Option<usize>)
        ensures
            match r {
                Some(i) => i < self.identities@.len() && self.identities@[i as int]
                    .provider_identifier@ == identifier@,
                None => forall|i: int|
                    0 <= i < self.identities@.len() ==> (#[trigger] self.identities@[i])
                        .provider_identifier@ != identifier@,
            },
    {
        let needle = identifier.to_owned();
        let n = self.identities.len();
        let mut i: usize = 0;
        while i < n
            invariant
                n == self.identities@.len(),
                needle@ == identifier@,
                i <= n,
                forall|j: int|
                    0 <= j < i ==> (#[trigger] self.identities@[j]).provider_identifier@
                        != identifier@,
            decreases n - i,
        {
            if self.identities[i].provider_identifier == needle {
                return Some(i);
            }
            i = i + 1;
        }
        None
    }

    /// Look an identity up; absence is an empty result, not an error.
    pub fn find_by_provider_identifier(&self, identifier: &str) -> (r: Option<Identity>)
        requires
            self.wf(),
        ensures
            r == self.spec_find(identifier@),
    {
        match self.find_index(identifier) {
            Some(i) => {
                proof {
                    lemma_find_in_lookup(self.identities@, i as int);
                }
                Some(self.identities[i].duplicate())
            },
            None => {
                proof {
                    lemma_find_in_dom(self.identities@, identifier@);
                }
                None
            },
        }
    }

    /// Insert a new identity under a freshly generated local id; violating
    /// the unique constraint on the provider identifier is an error.
    pub fn create(&mut self, provider_identifier: &str) -> (r: Result<Identity, StorageError>)
        requires
            old(self).wf(),
            old(self).can_issue(),
        ensures
            final(self).wf(),
            match r {
                Ok(identity) => old(self).spec_find(provider_identifier@) is None
                    && identity.alive == true && identity.provider_identifier@
                    == provider_identifier@ && identity.id@ == dec_rep(old(self).issued() as nat)
                    && final(self).spec_find(provider_identifier@) == Some(identity)
                    && final(self).issued() == old(self).issued() + 1 && (forall|p: Seq<char>|
                    p != provider_identifier@ ==> #[trigger] final(self).spec_find(p) == old(
                        self,
                    ).spec_find(p)),
                Err(e) => old(self).spec_find(provider_identifier@) is Some && e
                    == StorageError::ConstraintViolation && *final(self) == *old(self),
            },
    {
        match self.find_index(provider_identifier) {
            Some(i) => {
                proof {
                    lemma_find_in_lookup(self.identities@, i as int);
                }
                Err(StorageError::ConstraintViolation)
            },
            None => {
                proof {
                    lemma_find_in_dom(self.identities@, provider_identifier@);
                }
                let identity = Identity {
                    id: u64_to_string(self.next_id),
                    provider_identifier: provider_identifier.to_owned(),
                    alive: true,
                };
                let result = identity.duplicate();
                let ghost pre = self.identities@;
                self.identities.push(identity);
                self.next_id = self.next_id + 1;
                proof {
                    assert(self.identities@.drop_last() =~= pre);
                    assert(self.identities@.last() == identity);
                    assert forall|p: Seq<char>|
                        p != provider_identifier@ implies #[trigger] self.spec_find(p) == old(
                        self,
                    ).spec_find(p) by {
                        assert(find_in(self.identities@, p) == find_in(pre, p));
                    }
                }
                Ok(result)
            },
        }
    }

    /// What resolving a provider identifier does to the store and returns:
    /// an existing identity is reused unchanged, otherwise a record is
    /// created under the next local id.
    pub open spec fn find_or_create_post(
        pre: IdentityStore,
        post: IdentityStore,
        pid: Seq<char>,
        identity: Identity,
    ) -> bool {
        &&& identity.provider_identifier@ == pid
        &&& post.spec_find(pid) == Some(identity)
        &&& (forall|p: Seq<char>| p != pid ==> #[trigger] post.spec_find(p) == pre.spec_find(p))
        &&& match pre.spec_find(pid) {
            Some(existing) => identity == existing && post == pre,
            None => identity.alive == true && identity.id@ == dec_rep(pre.issued() as nat)
                && post.issued() == pre.issued() + 1,
        }
    }

    /// Resolve a provider identifier: find, falling back to create. Always
    /// succeeds against this store; the `Result` mirrors the fallibility of
    /// a remote backing store.
    pub fn find_or_create(&mut self, provider_identifier: &str) -> (r: Result<
        Identity,
        StorageError,
    >)
        requires
            old(self).wf(),
            old(self).can_issue(),
        ensures
            final(self).wf(),
            match r {
                Ok(identity) => Self::find_or_create_post(
                    *old(self),
                    *final(self),
                    provider_identifier@,
                    identity,
                ),
                Err(_) => false,
            },
    {
        match self.find_by_provider_identifier(provider_identifier) {
            Some(identity) => {
                proof {
                    lemma_find_in_key(self.identities@, provider_identifier@);
                }
                Ok(identity)
            },
            None => self.create(provider_identifier),
        }
    }
}

/// Resolving the same provider identifier twice yields the same identity
/// both times, and the second resolution leaves the store unchanged:
/// find-or-create is idempotent.
pub proof fn lemma_find_or_create_idempotent(
    s0: IdentityStore,
    s1: IdentityStore,
    s2: IdentityStore,
    pid: Seq<char>,
    first: Identity,
    second: Identity,
)
    requires
        IdentityStore::find_or_create_post(s0, s1, pid, first),
        IdentityStore::find_or_create_post(s1, s2, pid, second),
    ensures
        second == first,
        second.id@ == first.id@,
        s2 == s1,
{
}

} // verus!
