//! Credentials of instances: what is stored, and what to use where nothing is.

use vstd::prelude::*;
use crate::instance::opt_text;
use crate::text::{same, to_chars};

verus! {

/// A user name and a password.
#[derive(Debug, Clone)]
pub struct Credentials {
    pub username: String,
    pub password: String,
}

impl View for Credentials {
    type V = (Seq<char>, Seq<char>);

    open spec fn view(&self) -> (Seq<char>, Seq<char>) {
        (self.username@, self.password@)
    }
}

/// The credentials stored for one instance.
#[derive(Debug, Clone)]
pub struct StoredCredentials {
    pub instance_id: String,
    pub credentials: Credentials,
}

/// The stored credentials, at most one entry for an instance.
#[derive(Debug)]
pub struct CredentialStore {
    pub entries: Vec<StoredCredentials>,
}

/// The index of the first entry for `id` at or after `from`, or the number of
/// entries where there is none.
pub open spec fn entry_index(entries: Seq<StoredCredentials>, id: Seq<char>, from: int) -> int
    decreases entries.len() - from,
{
    if from < 0 || from >= entries.len() {
        entries.len() as int
    } else if entries[from].instance_id@ == id {
        from
    } else {
        entry_index(entries, id, from + 1)
    }
}

/// Where `entry_index` points: an entry for `id` with none before it, from
/// `from` on; or past the end, and then there is none.
pub proof fn lemma_entry_index(entries: Seq<StoredCredentials>, id: Seq<char>, from: int)
    requires
        0 <= from <= entries.len(),
    ensures
        from <= entry_index(entries, id, from) <= entries.len(),
        entry_index(entries, id, from) < entries.len() ==> entries[entry_index(
            entries,
            id,
            from,
        )].instance_id@ == id,
        forall|j: int|
            from <= j < entry_index(entries, id, from) ==> (#[trigger] entries[j]).instance_id@
                != id,
    decreases entries.len() - from,
{
    if from < entries.len() && entries[from].instance_id@ != id {
        lemma_entry_index(entries, id, from + 1);
    }
}

impl CredentialStore {
    /// No instance has two entries.
    pub open spec fn well_formed(&self) -> bool {
        forall|i: int, j: int|
            0 <= i < j < self.entries@.len() ==> (#[trigger] self.entries@[i]).instance_id@ != (
            #[trigger] self.entries@[j]).instance_id@
    }

    /// What is stored for `id`.
    pub open spec fn lookup(&self, id: Seq<char>) -> Option<(Seq<char>, Seq<char>)> {
        let i = entry_index(self.entries@, id, 0);
        if 0 <= i < self.entries@.len() {
            Some(self.entries@[i].credentials@)
        } else {
            None
        }
    }

    /// A store that holds nothing.
    pub fn new() -> (r: CredentialStore)
        ensures
            r.well_formed(),
            r.entries@.len() == 0,
    {
        CredentialStore { entries: Vec::new() }
    }

    /// The index of the entry for `id`.
    fn index_of(&self, id: &str) -> (r: Option<usize>)
        ensures
            match r {
                Some(i) => i < self.entries@.len() && entry_index(self.entries@, id@, 0) == i,
                None => entry_index(self.entries@, id@, 0) == self.entries@.len(),
            },
    {
        let wanted = to_chars(id);
        let mut i: usize = 0;
        while i < self.entries.len()
            invariant
                i <= self.entries.len(),
                wanted@ == id@,
                entry_index(self.entries@, id@, 0) == entry_index(self.entries@, id@, i as int),
            decreases self.entries.len() - i,
        {
            let held = to_chars(self.entries[i].instance_id.as_str());
            if same(&held, &wanted) {
                return Some(i);
            }
            i += 1;
        }
        None
    }

    /// The credentials stored for the instance `id`.
    pub fn get(&self, id: &str) -> (r: Option<Credentials>)
        ensures
            match r {
                Some(found) => self.lookup(id@) == Some(found@),
                None => self.lookup(id@) is None,
            },
    {
        match self.index_of(id) {
            Some(i) => Some(
                Credentials {
                    username: self.entries[i].credentials.username.clone(),
                    password: self.entries[i].credentials.password.clone(),
                },
            ),
            None => None,
        }
    }

    /// Stores `username` and `password` for the instance `id`, in place of
    /// what was stored for it.
    pub fn insert(&mut self, id: &str, username: &str, password: &str)
        requires
            old(self).well_formed(),
        ensures
            final(self).well_formed(),
            final(self).lookup(id@) == Some((username@, password@)),
            forall|other: Seq<char>| other != id@ ==> final(self).lookup(other) == old(self).lookup(other),
    {
        let entry = StoredCredentials {
            instance_id: id.to_owned(),
            credentials: Credentials { username: username.to_owned(), password: password.to_owned() },
        };
        let ghost before = self.entries@;
        match self.index_of(id) {
            Some(i) => {
                self.entries[i] = entry;
                proof {
                    let after = self.entries@;
                    lemma_entry_index(before, id@, 0);
                    lemma_entry_index(after, id@, 0);
                    assert forall|other: Seq<char>| other != id@ implies self.lookup(other)
                        == old(self).lookup(other) by {
                        lemma_same_lookup(before, after, other, i as int, 0);
                    }
                }
            },
            None => {
                self.entries.push(entry);
                proof {
                    let after = self.entries@;
                    lemma_entry_index(before, id@, 0);
                    lemma_entry_index(after, id@, 0);
                    assert(after[before.len() as int].instance_id@ == id@);
                    assert forall|other: Seq<char>| other != id@ implies self.lookup(other)
                        == old(self).lookup(other) by {
                        lemma_entry_index(before, other, 0);
                        lemma_entry_index(after, other, 0);
                        let a = entry_index(before, other, 0);
                        let b = entry_index(after, other, 0);
                        if a < before.len() {
                            assert(after[a] == before[a]);
                            if b < a {
                                assert(after[b] == before[b]);
                            }
                        } else if b < before.len() {
                            assert(after[b] == before[b]);
                        }
                    }
                }
            },
        }
    }

    /// Removes what is stored for the instance `id`.
    pub fn remove(&mut self, id: &str)
        requires
            old(self).well_formed(),
        ensures
            final(self).well_formed(),
            final(self).lookup(id@) is None,
            forall|other: Seq<char>| other != id@ ==> final(self).lookup(other) == old(self).lookup(other),
    {
        let ghost before = self.entries@;
        match self.index_of(id) {
            Some(i) => {
                self.entries.remove(i);
                proof {
                    let after = self.entries@;
                    lemma_entry_index(before, id@, 0);
                    lemma_entry_index(after, id@, 0);
                    assert forall|k: int| 0 <= k < after.len() implies after[k] == before[if k
                        < i {
                        k
                    } else {
                        k + 1
                    }] by {}
                    let c = entry_index(after, id@, 0);
                    if c < after.len() {
                        assert(after[c] == before[if c < i { c } else { c + 1 }]);
                    }
                    assert forall|other: Seq<char>| other != id@ implies self.lookup(other)
                        == old(self).lookup(other) by {
                        lemma_entry_index(before, other, 0);
                        lemma_entry_index(after, other, 0);
                        let a = entry_index(before, other, 0);
                        let b = entry_index(after, other, 0);
                        if a < before.len() {
                            let a2 = if a < i { a } else { a - 1 };
                            assert(after[a2] == before[a]);
                        }
                        if b < after.len() {
                            let b2 = if b < i { b } else { b + 1 };
                            assert(after[b] == before[b2]);
                        }
                    }
                }
            },
            None => {
                proof {
                    lemma_entry_index(before, id@, 0);
                }
            },
        }
    }
}

/// Replacing the entry at `at` by one for another instance than `other`,
/// where the old one was for another instance too, leaves what is found for
/// `other` as it was.
proof fn lemma_same_lookup(
    before: Seq<StoredCredentials>,
    after: Seq<StoredCredentials>,
    other: Seq<char>,
    at: int,
    from: int,
)
    requires
        0 <= from <= before.len(),
        0 <= at < before.len(),
        after.len() == before.len(),
        forall|k: int| 0 <= k < before.len() && k != at ==> after[k] == before[k],
        before[at].instance_id@ != other,
        after[at].instance_id@ != other,
    ensures
        entry_index(after, other, from) == entry_index(before, other, from),
        entry_index(before, other, from) != at,
    decreases before.len() - from,
{
    if from < before.len() {
        if from != at {
            assert(after[from] == before[from]);
        }
        if before[from].instance_id@ != other {
            lemma_same_lookup(before, after, other, at, from + 1);
        }
    }
}

/// The user name to use where none is stored or declared.
pub const DEFAULT_USERNAME: &'static str = "admin";

/// The password to use where none is stored.
pub const DEFAULT_PASSWORD: &'static str = "admin";

/// The credentials to use for an instance: those stored for it, or else the
/// declared user name, or `admin`, with the password `admin`.
pub open spec fn resolved(stored: Option<(Seq<char>, Seq<char>)>, declared: Option<Seq<char>>) -> (
    Seq<char>,
    Seq<char>,
) {
    match stored {
        Some(found) => found,
        None => (
            match declared {
                Some(name) => name,
                None => DEFAULT_USERNAME@,
            },
            DEFAULT_PASSWORD@,
        ),
    }
}

/// The credentials to use for the instance `instance_id`. Never fails: where
/// nothing is stored, the default pair stands in.
pub fn get_instance_credentials(
    store: &CredentialStore,
    instance_id: &str,
    default_username: &Option<String>,
) -> (r: Credentials)
    ensures
        r@ == resolved(store.lookup(instance_id@), opt_text(*default_username)),
{
    match store.get(instance_id) {
        Some(found) => found,
        None => {
            let username = match default_username {
                Some(name) => name.clone(),
                None => DEFAULT_USERNAME.to_owned(),
            };
            Credentials { username, password: DEFAULT_PASSWORD.to_owned() }
        },
    }
}

} // verus!
