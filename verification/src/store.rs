//! The credential store: a mapping from username to password, shared by all
//! connections of one process.
//!
//! The store is initialised empty and entries are created lazily on the first
//! login of an unknown username (auto-registration); nothing is ever deleted.
//! The combined lookup-then-insert step is exposed only as the single
//! operation [`CredentialStore::register_or_verify`], so a caller can never
//! split the lookup and the insert across a race window.

use vstd::prelude::*;

verus! {

/// Outcome of [`CredentialStore::register_or_verify`].
#[derive(Clone, Copy, Debug, PartialEq, Eq, Structural)]
pub enum RegisterOutcome {
    /// The username was absent; the pair was inserted.
    Created,
    /// The username was present and the stored password matches.
    Verified,
    /// The username was present and the stored password differs.
    Mismatch,
}

/// First-match lookup of key `k` in a sequence of (username, password) pairs.
pub open spec fn find_entry(s: Seq<(String, String)>, k: Seq<char>) -> Option<Seq<char>>
    decreases s.len(),
{
    if s.len() == 0 {
        None
    } else if s[0].0@ == k {
        Some(s[0].1@)
    } else {
        find_entry(s.drop_first(), k)
    }
}

/// A mapping from username (case-sensitive exact string) to password, with at
/// most one password per username.
pub struct CredentialStore {
    entries: Vec<(String, String)>,
}

impl View for CredentialStore {
    type V = Map<Seq<char>, Seq<char>>;

    closed spec fn view(&self) -> Map<Seq<char>, Seq<char>> {
        Map::new(
            |k: Seq<char>| find_entry(self.entries@, k) is Some,
            |k: Seq<char>| find_entry(self.entries@, k)->Some_0,
        )
    }
}

proof fn lemma_find_entry_skip(s: Seq<(String, String)>, k: Seq<char>, n: int)
    requires
        0 <= n <= s.len(),
        forall|m: int| 0 <= m < n ==> s[m].0@ != k,
    ensures
        find_entry(s, k) == find_entry(s.skip(n), k),
    decreases n,
{
    if n > 0 {
        assert(s.drop_first() =~= s.skip(1));
        lemma_find_entry_skip(s.drop_first(), k, n - 1);
        assert(s.drop_first().skip(n - 1) =~= s.skip(n));
    } else {
        assert(s.skip(0) =~= s);
    }
}

impl CredentialStore {
    /// A fresh, empty store, as established once per process start.
    pub fn new() -> (r: CredentialStore)
        ensures
            r@ == Map::<Seq<char>, Seq<char>>::empty(),
    {
        let r = CredentialStore { entries: Vec::new() };
        proof {
            assert(r@ =~= Map::<Seq<char>, Seq<char>>::empty());
        }
        r
    }

    /// The stored password of `username`, or `None` when the username is
    /// unknown.
    pub fn lookup(&self, username: &str) -> (r: Option<String>)
        ensures
            match r {
                Some(p) => self@.contains_key(username@) && self@[username@] == p@,
                None => !self@.contains_key(username@),
            },
    {
        let key = username.to_owned();
        let n = self.entries.len();
        let mut i: usize = 0;
        while i < n
            invariant
                n == self.entries@.len(),
                0 <= i <= n,
                forall|m: int| 0 <= m < i ==> self.entries@[m].0@ != key@,
                key@ == username@,
            decreases n - i,
        {
            if self.entries[i].0 == key {
                proof {
                    lemma_find_entry_skip(self.entries@, username@, i as int);
                    assert(self.entries@.skip(i as int)[0] == self.entries@[i as int]);
                }
                return Some(self.entries[i].1.clone());
            }
            i += 1;
        }
        proof {
            lemma_find_entry_skip(self.entries@, username@, n as int);
            assert(self.entries@.skip(n as int) =~= Seq::<(String, String)>::empty());
        }
        None
    }

    /// The one atomic lookup-then-insert step: if `username` is absent, insert
    /// the pair and answer `Created`; if present with an equal password,
    /// answer `Verified`; if present with a different password, answer
    /// `Mismatch`. The store changes only in the `Created` case.
    pub fn register_or_verify(&mut self, username: &str, password: &str) -> (r: RegisterOutcome)
        ensures
            r == RegisterOutcome::Created <==> !old(self)@.contains_key(username@),
            r == RegisterOutcome::Verified <==> old(self)@.contains_key(username@)
                && old(self)@[username@] == password@,
            r == RegisterOutcome::Mismatch <==> old(self)@.contains_key(username@)
                && old(self)@[username@] != password@,
            r == RegisterOutcome::Created ==> final(self)@ == old(self)@.insert(
                username@,
                password@,
            ),
            r != RegisterOutcome::Created ==> final(self)@ == old(self)@,
    {
        match self.lookup(username) {
            Some(stored) => {
                if stored == password.to_owned() {
                    RegisterOutcome::Verified
                } else {
                    RegisterOutcome::Mismatch
                }
            },
            None => {
                let ghost old_entries = self.entries@;
                let entry = (username.to_owned(), password.to_owned());
                self.entries.insert(0, entry);
                proof {
                    assert forall|k: Seq<char>| #![trigger find_entry(self.entries@, k)]
                        find_entry(self.entries@, k) == (if username@ == k {
                            Some(password@)
                        } else {
                            find_entry(old_entries, k)
                        }) by {
                        assert(self.entries@[0] == entry);
                        assert(self.entries@.drop_first() =~= old_entries);
                    }
                    assert(self@ =~= old(self)@.insert(username@, password@));
                }
                RegisterOutcome::Created
            },
        }
    }
}

} // verus!
