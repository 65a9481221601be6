//! In-memory model of the per-client session store.
//!
//! The anti-forgery state and the signed-in identity both live in a small
//! per-client key-value store. This module gives that store explicit
//! semantics: values are read back exactly as stored, the anti-forgery
//! state is consumed with `take` (read-once), and `renew` rotates the
//! session identifier so a login never continues a pre-login session.

use vstd::prelude::*;

verus! {

/// The key-value pairs a sequence of entries denotes, later entries winning.
spec fn entries_map(s: Seq<(String, String)>) -> Map<Seq<char>, Seq<char>>
    decreases s.len(),
{
    if s.len() == 0 {
        Map::empty()
    } else {
        entries_map(s.drop_last()).insert(s.last().0@, s.last().1@)
    }
}

/// No key occurs twice.
spec fn keys_unique(s: Seq<(String, String)>) -> bool {
    forall|i: int, j: int| 0 <= i < j < s.len() ==> s[i].0@ != s[j].0@
}

/// A key is in the denoted map exactly when some entry holds it.
proof fn lemma_entries_map_dom(s: Seq<(String, String)>, k: Seq<char>)
    ensures
        entries_map(s).contains_key(k) <==> exists|i: int|
            0 <= i < s.len() && s[i].0@ == k,
    decreases s.len(),
{
    if s.len() > 0 {
        lemma_entries_map_dom(s.drop_last(), k);
        if entries_map(s).contains_key(k) {
            if s.last().0@ == k {
                assert(s[s.len() - 1].0@ == k);
            } else {
                let i = choose|i: int| 0 <= i < s.drop_last().len() && s.drop_last()[i].0@ == k;
                assert(s[i].0@ == k);
            }
        }
        if exists|i: int| 0 <= i < s.len() && s[i].0@ == k {
            let i = choose|i: int| 0 <= i < s.len() && s[i].0@ == k;
            if i < s.len() - 1 {
                assert(s.drop_last()[i].0@ == k);
            }
        }
    }
}

/// With unique keys, each entry is what the map holds for its key.
proof fn lemma_entries_map_lookup(s: Seq<(String, String)>, i: int)
    requires
        keys_unique(s),
        0 <= i < s.len(),
    ensures
        entries_map(s).contains_key(s[i].0@),
        entries_map(s)[s[i].0@] == s[i].1@,
    decreases s.len(),
{
    if i == s.len() - 1 {
    } else {
        lemma_entries_map_lookup(s.drop_last(), i);
        assert(s.drop_last()[i] == s[i]);
        assert(s[i].0@ != s.last().0@);
    }
}

/// With unique keys, removing an entry removes exactly its key.
proof fn lemma_entries_map_remove(s: Seq<(String, String)>, i: int)
    requires
        keys_unique(s),
        0 <= i < s.len(),
    ensures
        entries_map(s.remove(i)) =~= entries_map(s).remove(s[i].0@),
    decreases s.len(),
{
    if i == s.len() - 1 {
        assert(s.remove(i) =~= s.drop_last());
        lemma_entries_map_dom(s.drop_last(), s[i].0@);
        assert(!entries_map(s.drop_last()).contains_key(s[i].0@));
    } else {
        lemma_entries_map_remove(s.drop_last(), i);
        assert(s.remove(i).drop_last() =~= s.drop_last().remove(i));
        assert(s.remove(i).last() == s.last());
        assert(s[i].0@ != s.last().0@);
    }
}

/// A server-side session: a per-client key-value store plus a generation
/// that changes whenever the session identifier is rotated.
pub struct SessionData {
    entries: Vec<(String, String)>,
    generation: u64,
}

impl SessionData {
    /// The key-value pairs the session holds.
    pub closed spec fn as_map(self) -> Map<Seq<char>, Seq<char>> {
        entries_map(self.entries@)
    }

    /// The generation of the session identifier; `renew` changes it.
    pub closed spec fn gen_id(self) -> u64 {
        self.generation
    }

    /// Each key is stored at most once.
    pub closed spec fn wf(self) -> bool {
        keys_unique(self.entries@)
    }

    /// A fresh, empty session.
    pub fn new() -> (r: Self)
        ensures
            r.wf(),
            r.as_map() == Map::<Seq<char>, Seq<char>>::empty(),
            r.gen_id() == 0,
    {
        Self { entries: Vec::new(), generation: 0 }
    }

    /// The index of the entry holding `key`, if any.
    fn find_index(&self, key: &str) -> (r: Option<usize>)
        ensures
            match r {
                Some(i) => i < self.entries@.len() && self.entries@[i as int].0@ == key@,
                None => forall|i: int|
                    0 <= i < self.entries@.len() ==> (#[trigger] self.entries@[i]).0@ != key@,
            },
    {
        let needle = key.to_owned();
        let n = self.entries.len();
        let mut i: usize = 0;
        while i < n
            invariant
                n == self.entries@.len(),
                needle@ == key@,
                i <= n,
                forall|j: int| 0 <= j < i ==> (#[trigger] self.entries@[j]).0@ != key@,
            decreases n - i,
        {
            if self.entries[i].0 == needle {
                return Some(i);
            }
            i = i + 1;
        }
        None
    }

    /// Store `value` under `key`, replacing whatever was there.
    pub fn insert(&mut self, key: &str, value: String)
        requires
            old(self).wf(),
        ensures
            final(self).wf(),
            final(self).as_map() == old(self).as_map().insert(key@, value@),
            final(self).gen_id() == old(self).gen_id(),
    {
        let _ = self.take(key);
        let ghost pre = self.entries@;
        self.entries.push((key.to_owned(), value));
        proof {
            assert(self.entries@.drop_last() =~= pre);
            lemma_entries_map_dom(pre, key@);
            assert(forall|i: int| 0 <= i < pre.len() ==> (#[trigger] pre[i]).0@ != key@);
            assert(final(self).as_map() =~= old(self).as_map().insert(key@, value@));
        }
    }

    /// Read the value under `key`.
    pub fn get(&self, key: &str) -> (r: Option<String>)
        requires
            self.wf(),
        ensures
            match r {
                Some(v) => self.as_map().contains_key(key@) && v@ == self.as_map()[key@],
                None => !self.as_map().contains_key(key@),
            },
    {
        match self.find_index(key) {
            Some(i) => {
                proof {
                    lemma_entries_map_lookup(self.entries@, i as int);
                }
                Some(self.entries[i].1.clone())
            },
            None => {
                proof {
                    lemma_entries_map_dom(self.entries@, key@);
                }
                None
            },
        }
    }

    /// Read and remove in one step: the read-once semantics the
    /// anti-forgery state requires.
    pub fn take(&mut self, key: &str) -> (r: Option<String>)
        requires
            old(self).wf(),
        ensures
            final(self).wf(),
            final(self).gen_id() == old(self).gen_id(),
            final(self).as_map() == old(self).as_map().remove(key@),
            match r {
                Some(v) => old(self).as_map().contains_key(key@) && v@ == old(self).as_map()
                    .index(key@),
                None => !old(self).as_map().contains_key(key@),
            },
    {
        match self.find_index(key) {
            Some(i) => {
                proof {
                    lemma_entries_map_lookup(self.entries@, i as int);
                    lemma_entries_map_remove(self.entries@, i as int);
                }
                let entry = self.entries.remove(i);
                Some(entry.1)
            },
            None => {
                proof {
                    lemma_entries_map_dom(self.entries@, key@);
                    assert(old(self).as_map().remove(key@) =~= old(self).as_map());
                }
                None
            },
        }
    }

    /// Drop every entry, keeping the session identifier.
    pub fn clear(&mut self)
        ensures
            final(self).wf(),
            final(self).as_map() == Map::<Seq<char>, Seq<char>>::empty(),
            final(self).gen_id() == old(self).gen_id(),
    {
        self.entries = Vec::new();
    }

    /// Rotate the session identifier, keeping the entries: what a login
    /// does so it never continues a pre-login session.
    pub fn renew(&mut self)
        requires
            old(self).wf(),
        ensures
            final(self).wf(),
            final(self).as_map() == old(self).as_map(),
            final(self).gen_id() != old(self).gen_id(),
    {
        if self.generation == u64::MAX {
            self.generation = 0;
        } else {
            self.generation = self.generation + 1;
        }
    }

    /// Invalidate the session entirely: entries dropped, identifier
    /// rotated. What sign-out does.
    pub fn purge(&mut self)
        ensures
            final(self).wf(),
            final(self).as_map() == Map::<Seq<char>, Seq<char>>::empty(),
            final(self).gen_id() != old(self).gen_id(),
    {
        self.entries = Vec::new();
        if self.generation == u64::MAX {
            self.generation = 0;
        } else {
            self.generation = self.generation + 1;
        }
    }
}

} // verus!
