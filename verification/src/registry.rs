//! The session registry and the connection-admission rules.
//!
//! The registry maps a session identifier to whatever the caller registers
//! for it (in the gateway: the pair of cross-channel event queues connecting
//! the two device connections of a session).  Registration replaces any
//! prior entry for the same identifier; lookup of an unregistered identifier
//! is an ordinary absence, not an error.
//!
//! Admission: both device connections must present a session identifier, as
//! a query parameter or a header; a blacklisted identifier is rejected with
//! a not-found status before any registry interaction.  The message
//! connection additionally waits, with a bounded retry budget, for its
//! audio-side sibling to appear in the registry.

use vstd::map::*;
use vstd::prelude::*;

verus! {

/// Whether some entry of `s` carries the key `k`.
pub open spec fn has_key<T>(s: Seq<(String, T)>, k: Seq<char>) -> bool {
    exists|i: int| 0 <= i < s.len() && #[trigger] s[i].0@ == k
}

/// Whether no two entries of `s` carry the same key.
pub open spec fn unique_keys<T>(s: Seq<(String, T)>) -> bool {
    forall|i: int, j: int| 0 <= i < j < s.len() ==> #[trigger] s[i].0@ != #[trigger] s[j].0@
}

/// The map an entry list stands for; later entries win, though with unique
/// keys the order never matters.
pub closed spec fn entries_map<T>(s: Seq<(String, T)>) -> Map<Seq<char>, T>
    decreases s,
{
    if s.len() == 0 {
        Map::empty()
    } else {
        entries_map(s.drop_last()).insert(s.last().0@, s.last().1)
    }
}

proof fn lemma_entries_map_dom<T>(s: Seq<(String, T)>, k: Seq<char>)
    ensures
        entries_map(s).dom().contains(k) <==> has_key(s, k),
    decreases s,
{
    if s.len() > 0 {
        lemma_entries_map_dom(s.drop_last(), k);
        if has_key(s.drop_last(), k) {
            let i = choose|i: int| 0 <= i < s.drop_last().len() && s.drop_last()[i].0@ == k;
            assert(s[i].0@ == k);
        }
        if has_key(s, k) && s.last().0@ != k {
            let i = choose|i: int| 0 <= i < s.len() && s[i].0@ == k;
            assert(s.drop_last()[i].0@ == k);
        }
    }
}

proof fn lemma_entries_map_at<T>(s: Seq<(String, T)>, i: int)
    requires
        unique_keys(s),
        0 <= i < s.len(),
    ensures
        entries_map(s).dom().contains(s[i].0@),
        entries_map(s)[s[i].0@] == s[i].1,
    decreases s,
{
    lemma_entries_map_dom(s, s[i].0@);
    if i < s.len() - 1 {
        assert(s[i].0@ != s.last().0@);
        lemma_entries_map_at(s.drop_last(), i);
    }
}

proof fn lemma_entries_map_remove<T>(s: Seq<(String, T)>, i: int)
    requires
        unique_keys(s),
        0 <= i < s.len(),
    ensures
        entries_map(s.remove(i)) == entries_map(s).remove(s[i].0@),
    decreases s,
{
    let k = s[i].0@;
    if i == s.len() - 1 {
        assert(s.remove(i) =~= s.drop_last());
        lemma_entries_map_dom(s.drop_last(), k);
        assert(!has_key(s.drop_last(), k)) by {
            if has_key(s.drop_last(), k) {
                let j = choose|j: int| 0 <= j < s.drop_last().len() && s.drop_last()[j].0@ == k;
                assert(s[j].0@ == s[i].0@);
            }
        }
        assert(entries_map(s.drop_last()) =~= entries_map(s).remove(k));
    } else {
        assert(s.remove(i).last() == s.last());
        assert(s.remove(i).drop_last() =~= s.drop_last().remove(i));
        lemma_entries_map_remove(s.drop_last(), i);
        assert(s.last().0@ != k);
        assert(entries_map(s.remove(i)) == entries_map(s.drop_last().remove(i)).insert(
            s.last().0@,
            s.last().1,
        ));
        assert(entries_map(s.drop_last()).remove(k).insert(s.last().0@, s.last().1)
            =~= entries_map(s.drop_last()).insert(s.last().0@, s.last().1).remove(k));
    }
}

proof fn lemma_unique_keys_remove<T>(s: Seq<(String, T)>, i: int)
    requires
        unique_keys(s),
        0 <= i < s.len(),
    ensures
        unique_keys(s.remove(i)),
{
    assert forall|a: int, b: int| 0 <= a < b < s.remove(i).len() implies #[trigger] s.remove(
        i,
    )[a].0@ != #[trigger] s.remove(i)[b].0@ by {
        let a0: int = if a < i {
            a
        } else {
            a + 1
        };
        let b0: int = if b < i {
            b
        } else {
            b + 1
        };
        assert(s.remove(i)[a] == s[a0]);
        assert(s.remove(i)[b] == s[b0]);
        assert(s[a0].0@ != s[b0].0@);
    }
}

/// The process-wide mapping from session identifier to whatever one session
/// registers: in the gateway, the cross-channel queue pair its two device
/// connections share.
pub struct Registry<T> {
    entries: Vec<(String, T)>,
}

impl<T> View for Registry<T> {
    type V = Map<Seq<char>, T>;

    closed spec fn view(&self) -> Map<Seq<char>, T> {
        entries_map(self.entries@)
    }
}

impl<T> Registry<T> {
    #[verifier::type_invariant]
    closed spec fn wf(self) -> bool {
        unique_keys(self.entries@)
    }

    /// An empty registry.
    pub fn new() -> (r: Self)
        ensures
            r@ == Map::<Seq<char>, T>::empty(),
    {
        Registry { entries: Vec::new() }
    }

    /// The index of the entry carrying `id`, if one does.
    fn position(&self, id: &String) -> (r: Option<usize>)
        ensures
            r matches Some(i) ==> i < self.entries@.len() && self.entries@[i as int].0@ == id@,
            r is None ==> !has_key(self.entries@, id@),
    {
        let mut i: usize = 0;
        while i < self.entries.len()
            invariant
                i <= self.entries@.len(),
                forall|j: int| 0 <= j < i ==> #[trigger] self.entries@[j].0@ != id@,
            decreases self.entries@.len() - i,
        {
            if self.entries[i].0.eq(id) {
                return Some(i);
            }
            i = i + 1;
        }
        None
    }

    /// Whether a registration for `id` currently exists.
    pub fn contains(&self, id: &String) -> (r: bool)
        ensures
            r == self@.dom().contains(id@),
    {
        proof {
            use_type_invariant(self);
            lemma_entries_map_dom(self.entries@, id@);
        }
        self.position(id).is_some()
    }

    /// The value registered for `id`, or absence when the session is not
    /// (or no longer) registered — absence is not an error.
    pub fn lookup(&self, id: &String) -> (r: Option<&T>)
        ensures
            r matches Some(v) ==> self@.dom().contains(id@) && *v == self@[id@],
            r is None ==> !self@.dom().contains(id@),
    {
        proof {
            use_type_invariant(self);
            lemma_entries_map_dom(self.entries@, id@);
        }
        match self.position(id) {
            Some(i) => {
                proof {
                    lemma_entries_map_at(self.entries@, i as int);
                }
                Some(&self.entries[i].1)
            },
            None => None,
        }
    }

    /// Registers `value` for `id`, replacing any prior entry for the same
    /// identifier; unrelated sessions are untouched.
    pub fn register(&mut self, id: String, value: T)
        ensures
            final(self)@ == old(self)@.insert(id@, value),
    {
        proof {
            use_type_invariant(&*self);
        }
        let position = self.position(&id);
        let mut entries: Vec<(String, T)> = Vec::new();
        core::mem::swap(&mut entries, &mut self.entries);
        match position {
            Some(i) => {
                proof {
                    lemma_entries_map_remove(entries@, i as int);
                    lemma_unique_keys_remove(entries@, i as int);
                }
                let _ = entries.remove(i);
            },
            None => {},
        }
        proof {
            lemma_entries_map_dom(entries@, id@);
            assert(unique_keys(entries@.push((id, value)))) by {
                assert forall|i: int, j: int|
                    0 <= i < j < entries@.push((id, value)).len() implies #[trigger] entries@.push(
                    (id, value),
                )[i].0@ != #[trigger] entries@.push((id, value))[j].0@ by {
                    if j < entries@.len() {
                        assert(entries@[i].0@ != entries@[j].0@);
                    } else {
                        assert(entries@[i].0@ != id@);
                    }
                }
            }
            assert(entries_map(entries@.push((id, value))) == entries_map(entries@).insert(
                id@,
                value,
            )) by {
                assert(entries@.push((id, value)).drop_last() =~= entries@);
            }
            assert(old(self)@.remove(id@).insert(id@, value) =~= old(self)@.insert(id@, value));
        }
        entries.push((id, value));
        core::mem::swap(&mut entries, &mut self.entries);
    }

    /// Removes the registration for `id`, telling whether one existed.
    pub fn remove(&mut self, id: &String) -> (r: bool)
        ensures
            final(self)@ == old(self)@.remove(id@),
            r == old(self)@.dom().contains(id@),
    {
        proof {
            use_type_invariant(&*self);
            lemma_entries_map_dom(self.entries@, id@);
        }
        let position = self.position(id);
        match position {
            Some(i) => {
                let mut entries: Vec<(String, T)> = Vec::new();
                core::mem::swap(&mut entries, &mut self.entries);
                proof {
                    lemma_entries_map_remove(entries@, i as int);
                    lemma_unique_keys_remove(entries@, i as int);
                }
                let _ = entries.remove(i);
                core::mem::swap(&mut entries, &mut self.entries);
                true
            },
            None => {
                proof {
                    assert(old(self)@ =~= old(self)@.remove(id@));
                }
                false
            },
        }
    }
}

/// Seconds between two registration lookups of the message connection.
pub const REGISTRATION_RETRY_SECONDS: u64 = 5;

/// How a connection attempt is admitted or refused before any registry
/// interaction.
pub enum Admission {
    /// The connection proceeds.
    Accept,
    /// The session identifier is blacklisted: reject with a not-found
    /// status.
    RejectNotFound,
    /// No session identifier was supplied: reject the attempt.
    RejectMissingId,
}

/// Resolves the session identifier of a connection attempt: the query
/// parameter wins over the header; absence of both is an admission error.
pub fn resolve_connection_id(query_param: Option<String>, header: Option<String>) -> (r: Option<
    String,
>)
    ensures
        r == if query_param is Some {
            query_param
        } else {
            header
        },
{
    match query_param {
        Some(q) => Some(q),
        None => header,
    }
}

/// Admits or refuses a connection attempt: a blacklisted session identifier
/// is refused with a not-found status, a missing one is refused outright,
/// anything else proceeds.  No registry state is read or written here.
pub fn admit_connection(blacklist: &crate::api::Blacklist, session_id: &Option<String>) -> (r:
    Admission)
    ensures
        session_id is None ==> r is RejectMissingId,
        (session_id matches Some(id) && blacklist.spec_contains(id@)) ==> r is RejectNotFound,
        (session_id matches Some(id) && !blacklist.spec_contains(id@)) ==> r is Accept,
{
    match session_id {
        None => Admission::RejectMissingId,
        Some(id) => {
            if blacklist.contains(id) {
                Admission::RejectNotFound
            } else {
                Admission::Accept
            }
        },
    }
}

/// What the message connection does after one registry lookup for its
/// audio-side sibling.
pub enum RegistrationWait {
    /// The sibling is registered: proceed with the connection.
    Proceed,
    /// Not registered yet and the budget is not exhausted: wait
    /// `REGISTRATION_RETRY_SECONDS` and look again.
    RetryAfterDelay,
    /// Not registered after the full budget: reject the attempt with a
    /// bad-request status.
    Reject,
}

/// The bounded retry policy of the message connection: it proceeds as soon
/// as a lookup finds the sibling, retries while fewer than five lookups
/// have failed, and rejects on the fifth failure.  `failed_attempts` counts
/// the lookups that failed before this one.
pub fn registration_wait_step(failed_attempts: u64, registered: bool) -> (r: RegistrationWait)
    ensures
        registered ==> r is Proceed,
        !registered && failed_attempts < 4 ==> r is RetryAfterDelay,
        !registered && failed_attempts >= 4 ==> r is Reject,
{
    if registered {
        RegistrationWait::Proceed
    } else if failed_attempts < 4 {
        RegistrationWait::RetryAfterDelay
    } else {
        RegistrationWait::Reject
    }
}

} // verus!
