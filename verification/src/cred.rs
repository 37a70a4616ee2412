//! Credentials and the process-wide Credential Registry.
//!
//! The engine's authentication callback carries no caller-supplied
//! identity, so credentials are recovered through a side table keyed by
//! context identity (the context's native address).  The registry is that
//! table: an entry is inserted when a client is constructed and removed
//! when it is destroyed, and a lookup that misses fails safe by returning
//! the default (empty) credential set, since the callback may fire on an
//! engine-managed thread where a panic is not an option.

use vstd::prelude::*;

verus! {

/// Credential set of one client: where to connect and how to
/// authenticate.
pub struct SmbCredentials {
    /// Server URI, e.g. `smb://localhost:445`.
    pub server: String,
    /// Share name on that server.
    pub share: String,
    /// Workgroup handed to the authentication callback.
    pub workgroup: String,
    /// Username handed to the authentication callback.
    pub username: String,
    /// Password handed to the authentication callback.
    pub password: String,
}

impl SmbCredentials {
    /// The empty credential set: what a registry miss falls back to.
    pub open spec fn is_empty_set(self) -> bool {
        self.server@ == Seq::<char>::empty() && self.share@ == Seq::<char>::empty()
            && self.workgroup@ == Seq::<char>::empty() && self.username@ == Seq::<char>::empty()
            && self.password@ == Seq::<char>::empty()
    }

    /// Replace the server URI.
    pub fn server(self, v: &str) -> (r: Self)
        ensures
            r == (SmbCredentials { server: r.server, ..self }),
            r.server@ == v@,
    {
        SmbCredentials { server: v.to_owned(), ..self }
    }

    /// Replace the share name.
    pub fn share(self, v: &str) -> (r: Self)
        ensures
            r == (SmbCredentials { share: r.share, ..self }),
            r.share@ == v@,
    {
        SmbCredentials { share: v.to_owned(), ..self }
    }

    /// Replace the workgroup.
    pub fn workgroup(self, v: &str) -> (r: Self)
        ensures
            r == (SmbCredentials { workgroup: r.workgroup, ..self }),
            r.workgroup@ == v@,
    {
        SmbCredentials { workgroup: v.to_owned(), ..self }
    }

    /// Replace the username.
    pub fn username(self, v: &str) -> (r: Self)
        ensures
            r == (SmbCredentials { username: r.username, ..self }),
            r.username@ == v@,
    {
        SmbCredentials { username: v.to_owned(), ..self }
    }

    /// Replace the password.
    pub fn password(self, v: &str) -> (r: Self)
        ensures
            r == (SmbCredentials { password: r.password, ..self }),
            r.password@ == v@,
    {
        SmbCredentials { password: v.to_owned(), ..self }
    }
}

impl Default for SmbCredentials {
    /// The empty credential set.
    fn default() -> (r: Self)
        ensures
            r.is_empty_set(),
    {
        SmbCredentials {
            server: String::new(),
            share: String::new(),
            workgroup: String::new(),
            username: String::new(),
            password: String::new(),
        }
    }
}

impl Clone for SmbCredentials {
    /// An exact copy, field by field.
    fn clone(&self) -> (r: Self)
        ensures
            r == *self,
    {
        SmbCredentials {
            server: self.server.clone(),
            share: self.share.clone(),
            workgroup: self.workgroup.clone(),
            username: self.username.clone(),
            password: self.password.clone(),
        }
    }
}

/// The mapping denoted by an association list, later entries overriding
/// earlier ones.
pub open spec fn as_map(s: Seq<(u64, SmbCredentials)>) -> Map<u64, SmbCredentials>
    decreases s.len(),
{
    if s.len() == 0 {
        Map::empty()
    } else {
        as_map(s.drop_last()).insert(s.last().0, s.last().1)
    }
}

/// A key occurs in the mapping exactly when some entry carries it.
proof fn lemma_as_map_contains(s: Seq<(u64, SmbCredentials)>, k: u64)
    ensures
        as_map(s).contains_key(k) <==> exists|i: int| 0 <= i < s.len() && s[i].0 == k,
    decreases s.len(),
{
    if s.len() > 0 {
        lemma_as_map_contains(s.drop_last(), k);
        if s.last().0 != k && as_map(s).contains_key(k) {
            let i = choose|i: int| 0 <= i < s.drop_last().len() && s.drop_last()[i].0 == k;
            assert(s[i].0 == k);
        }
        if exists|i: int| 0 <= i < s.len() && s[i].0 == k {
            let i = choose|i: int| 0 <= i < s.len() && s[i].0 == k;
            if i < s.len() - 1 {
                assert(s.drop_last()[i].0 == k);
            }
        }
    }
}

/// With pairwise-distinct keys, the entry carrying a key decides its
/// value in the mapping.
proof fn lemma_as_map_value(s: Seq<(u64, SmbCredentials)>, i: int)
    requires
        0 <= i < s.len(),
        forall|p: int, q: int| 0 <= p < q < s.len() ==> s[p].0 != s[q].0,
    ensures
        as_map(s).contains_key(s[i].0),
        as_map(s)[s[i].0] == s[i].1,
    decreases s.len(),
{
    lemma_as_map_contains(s, s[i].0);
    if i < s.len() - 1 {
        assert(s.drop_last()[i] == s[i]);
        lemma_as_map_value(s.drop_last(), i);
    }
}

/// Removing the entry that carries a key removes exactly that key from
/// the mapping.
proof fn lemma_as_map_remove(s: Seq<(u64, SmbCredentials)>, i: int)
    requires
        0 <= i < s.len(),
        forall|p: int, q: int| 0 <= p < q < s.len() ==> s[p].0 != s[q].0,
    ensures
        as_map(s.remove(i)) == as_map(s).remove(s[i].0),
    decreases s.len(),
{
    let k = s[i].0;
    lemma_as_map_contains(s, k);
    if i == s.len() - 1 {
        assert(s.remove(i) =~= s.drop_last());
        lemma_as_map_contains(s.drop_last(), k);
        assert(!as_map(s.drop_last()).contains_key(k));
        assert(as_map(s.drop_last()) =~= as_map(s).remove(k));
    } else {
        assert(s.remove(i).drop_last() =~= s.drop_last().remove(i));
        assert(s.remove(i).last() == s.last());
        lemma_as_map_remove(s.drop_last(), i);
        assert(as_map(s.remove(i)) == as_map(s.drop_last()).remove(k).insert(
            s.last().0,
            s.last().1,
        ));
        assert(as_map(s.drop_last()).remove(k).insert(s.last().0, s.last().1) =~= as_map(
            s.drop_last(),
        ).insert(s.last().0, s.last().1).remove(k));
    }
}

/// Process-wide table from context identity to credentials.
///
/// The unverified shell holds exactly one of these behind its own lock;
/// every access from client construction, client destruction and the
/// authentication callback goes through the verified operations below.
pub struct CredentialRegistry {
    entries: Vec<(u64, SmbCredentials)>,
}

impl View for CredentialRegistry {
    type V = Map<u64, SmbCredentials>;

    closed spec fn view(&self) -> Map<u64, SmbCredentials> {
        as_map(self.entries@)
    }
}

impl CredentialRegistry {
    /// Keys are pairwise distinct, so each identity owns one entry.
    pub closed spec fn wf(&self) -> bool {
        forall|p: int, q: int|
            0 <= p < q < self.entries@.len() ==> self.entries@[p].0 != self.entries@[q].0
    }

    /// The empty registry.
    pub fn new() -> (r: CredentialRegistry)
        ensures
            r.wf(),
            r@ == Map::<u64, SmbCredentials>::empty(),
    {
        CredentialRegistry { entries: Vec::new() }
    }

    /// The index of the entry carrying `id`, if any.
    fn find(&self, id: u64) -> (r: Option<usize>)
        ensures
            r matches Some(i) ==> i < self.entries@.len() && self.entries@[i as int].0 == id,
            r is None ==> forall|i: int| 0 <= i < self.entries@.len() ==> self.entries@[i].0 != id,
    {
        let mut i: usize = 0;
        while i < self.entries.len()
            invariant
                i <= self.entries@.len(),
                forall|j: int| 0 <= j < i ==> self.entries@[j].0 != id,
            decreases self.entries@.len() - i,
        {
            if self.entries[i].0 == id {
                return Some(i);
            }
            i += 1;
        }
        None
    }

    /// Whether an entry for `id` is present.
    pub fn contains(&self, id: u64) -> (r: bool)
        ensures
            r == self@.contains_key(id),
    {
        proof {
            lemma_as_map_contains(self.entries@, id);
        }
        self.find(id).is_some()
    }

    /// Bind `id` to `creds`, replacing any earlier binding.
    pub fn insert(&mut self, id: u64, creds: SmbCredentials)
        requires
            old(self).wf(),
        ensures
            final(self).wf(),
            final(self)@ == old(self)@.insert(id, creds),
    {
        self.remove(id);
        proof {
            lemma_as_map_contains(self.entries@, id);
            assert(forall|i: int| 0 <= i < self.entries@.len() ==> self.entries@[i].0 != id);
        }
        let ghost cleared = *self;
        self.entries.push((id, creds));
        proof {
            assert(self.entries@.drop_last() =~= cleared.entries@);
            assert(self@ == cleared@.insert(id, creds));
            assert(old(self)@.remove(id).insert(id, creds) =~= old(self)@.insert(id, creds));
        }
    }

    /// The credentials bound to `id`; the default (empty) set when no
    /// entry is present, so a lookup never fails.
    pub fn get(&self, id: u64) -> (r: SmbCredentials)
        requires
            self.wf(),
        ensures
            self@.contains_key(id) ==> r == self@[id],
            !self@.contains_key(id) ==> r.is_empty_set(),
    {
        proof {
            lemma_as_map_contains(self.entries@, id);
        }
        match self.find(id) {
            Some(i) => {
                proof {
                    lemma_as_map_value(self.entries@, i as int);
                }
                self.entries[i].1.clone()
            },
            None => SmbCredentials::default(),
        }
    }

    /// Drop the entry bound to `id`, if any: what client destruction owes
    /// the registry.
    pub fn remove(&mut self, id: u64)
        requires
            old(self).wf(),
        ensures
            final(self).wf(),
            final(self)@ == old(self)@.remove(id),
    {
        proof {
            lemma_as_map_contains(self.entries@, id);
        }
        match self.find(id) {
            Some(i) => {
                proof {
                    lemma_as_map_remove(self.entries@, i as int);
                }
                self.entries.remove(i);
            },
            None => {
                proof {
                    assert(self@ =~= self@.remove(id));
                }
            },
        }
    }
}

/// No registry entry survives its client: after the removal that client
/// destruction performs, the destroyed context's identity has no entry,
/// and a later callback-triggering lookup for it falls back to the
/// default credential set rather than touching stale state.
pub proof fn lemma_no_entry_survives_destruction(
    before: Map<u64, SmbCredentials>,
    id: u64,
)
    ensures
        !before.remove(id).contains_key(id),
        forall|other: u64| other != id && before.contains_key(other) ==> before.remove(
            id,
        ).contains_key(other),
{
}

} // verus!
