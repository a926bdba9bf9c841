//! Stored credentials: one password hash under each username.
//!
//! The service proper keeps its credentials in a database that the caller
//! talks to. `CredentialStore` keeps them in memory and behaves as that
//! database is expected to: a username is stored once, and an insertion
//! either happens whole or not at all.

use vstd::prelude::*;
use crate::errors::AuthError;
use crate::models::option_view;

verus! {

/// A username with the hash of its password.
#[derive(Debug, Clone, PartialEq, Eq)]
pub struct Credential {
    pub username: String,
    pub password_hash: String,
}

/// What a `Credential` holds.
pub struct CredentialView {
    pub username: Seq<char>,
    pub password_hash: Seq<char>,
}

impl View for Credential {
    type V = CredentialView;

    open spec fn view(&self) -> CredentialView {
        CredentialView { username: self.username@, password_hash: self.password_hash@ }
    }
}

/// What the persistence layer answered when asked for a username.
#[derive(Debug, Clone, PartialEq, Eq)]
pub enum Lookup {
    Found(Credential),
    Absent,
    Unavailable,
}

/// What a `Lookup` holds.
pub enum LookupView {
    Found(CredentialView),
    Absent,
    Unavailable,
}

impl View for Lookup {
    type V = LookupView;

    open spec fn view(&self) -> LookupView {
        match self {
            Lookup::Found(credential) => LookupView::Found(credential@),
            Lookup::Absent => LookupView::Absent,
            Lookup::Unavailable => LookupView::Unavailable,
        }
    }
}

/// The hashes that a sequence of credentials stores, by username. A later
/// entry under a username that is already there would replace the earlier.
spec fn hashes_by_username(entries: Seq<CredentialView>) -> Map<Seq<char>, Seq<char>>
    decreases entries.len(),
{
    if entries.len() == 0 {
        Map::empty()
    } else {
        hashes_by_username(entries.drop_last()).insert(
            entries.last().username,
            entries.last().password_hash,
        )
    }
}

/// What storing `credential` in `stored` leads to: the stored hashes
/// afterwards, and what the caller is told. A username that is taken keeps
/// the hash it has.
pub open spec fn insertion(stored: Map<Seq<char>, Seq<char>>, credential: CredentialView) -> (
    Map<Seq<char>, Seq<char>>,
    Result<(), AuthError>,
) {
    if stored.dom().contains(credential.username) {
        (stored, Err(AuthError::AlreadyExists))
    } else {
        (stored.insert(credential.username, credential.password_hash), Ok(()))
    }
}

/// What asking `stored` for `username` yields.
pub open spec fn lookup_in(stored: Map<Seq<char>, Seq<char>>, username: Seq<char>) -> Option<
    CredentialView,
> {
    if stored.dom().contains(username) {
        Some(CredentialView { username, password_hash: stored[username] })
    } else {
        None
    }
}

/// No username occurs twice.
spec fn distinct_usernames(entries: Seq<CredentialView>) -> bool {
    forall|i: int, j: int|
        0 <= i < j < entries.len() ==> entries[i].username != entries[j].username
}

/// A username is stored exactly where some entry carries it.
proof fn lemma_domain(entries: Seq<CredentialView>, username: Seq<char>)
    ensures
        hashes_by_username(entries).dom().contains(username) <==> exists|i: int|
            0 <= i < entries.len() && #[trigger] entries[i].username == username,
    decreases entries.len(),
{
    if entries.len() > 0 {
        let front = entries.drop_last();
        lemma_domain(front, username);
        if exists|i: int| 0 <= i < entries.len() && #[trigger] entries[i].username == username {
            let i = choose|i: int|
                0 <= i < entries.len() && #[trigger] entries[i].username == username;
            if i < front.len() {
                assert(front[i].username == username);
            }
        }
    }
}

/// Where no username occurs twice, each entry's hash is the one stored
/// under its username.
proof fn lemma_stored_hash(entries: Seq<CredentialView>, i: int)
    requires
        distinct_usernames(entries),
        0 <= i < entries.len(),
    ensures
        hashes_by_username(entries).dom().contains(entries[i].username),
        hashes_by_username(entries)[entries[i].username] == entries[i].password_hash,
    decreases entries.len(),
{
    let front = entries.drop_last();
    if i < entries.len() - 1 {
        lemma_stored_hash(front, i);
    }
}

/// Credentials held in memory, one under each username.
pub struct CredentialStore {
    entries: Vec<Credential>,
}

impl View for CredentialStore {
    type V = Map<Seq<char>, Seq<char>>;

    /// The stored hashes, by username.
    closed spec fn view(&self) -> Map<Seq<char>, Seq<char>> {
        hashes_by_username(self.entry_views())
    }
}

impl CredentialStore {
    spec fn entry_views(&self) -> Seq<CredentialView> {
        self.entries@.map_values(|c: Credential| c@)
    }

    /// No username is stored twice. Every store that this module hands out
    /// is well formed, and its methods keep it so.
    pub closed spec fn wf(&self) -> bool {
        distinct_usernames(self.entry_views())
    }

    /// The number of credentials stored.
    pub closed spec fn spec_len(&self) -> nat {
        self.entries@.len()
    }

    /// A store that holds nothing.
    pub fn new() -> (store: CredentialStore)
        ensures
            store.wf(),
            store@ == Map::<Seq<char>, Seq<char>>::empty(),
            store.spec_len() == 0,
    {
        CredentialStore { entries: Vec::new() }
    }

    /// The number of credentials stored.
    pub fn len(&self) -> (n: usize)
        ensures
            n == self.spec_len(),
    {
        self.entries.len()
    }

    /// The credential stored under `username`, if there is one.
    pub fn find_credential(&self, username: &str) -> (found: Option<Credential>)
        requires
            self.wf(),
        ensures
            option_view(found) == lookup_in(self@, username@),
    {
        let wanted = username.to_owned();
        let ghost views = self.entry_views();
        let mut i: usize = 0;
        while i < self.entries.len()
            invariant
                i <= self.entries.len(),
                views == self.entry_views(),
                distinct_usernames(views),
                wanted@ == username@,
                forall|k: int| 0 <= k < i ==> (#[trigger] views[k]).username != username@,
            decreases self.entries.len() - i,
        {
            if self.entries[i].username == wanted {
                proof {
                    lemma_stored_hash(views, i as int);
                }
                return Some(
                    Credential {
                        username: self.entries[i].username.clone(),
                        password_hash: self.entries[i].password_hash.clone(),
                    },
                );
            }
            i += 1;
        }
        proof {
            lemma_domain(views, username@);
        }
        None
    }

    /// Stores `credential`, unless its username is taken: then nothing
    /// changes and the credential that was there first stays.
    pub fn insert_credential(&mut self, credential: Credential) -> (r: Result<(), AuthError>)
        requires
            old(self).wf(),
        ensures
            final(self).wf(),
            (final(self)@, r) == insertion(old(self)@, credential@),
            final(self).spec_len() == old(self).spec_len() + if r is Ok {
                1nat
            } else {
                0nat
            },
    {
        if self.find_credential(credential.username.as_str()).is_some() {
            return Err(AuthError::AlreadyExists);
        }
        let ghost before = self.entry_views();
        proof {
            lemma_domain(before, credential.username@);
        }
        self.entries.push(credential);
        proof {
            let after = self.entry_views();
            assert(after.drop_last() =~= before);
            assert(distinct_usernames(after)) by {
                assert forall|a: int, b: int| 0 <= a < b < after.len() implies after[a].username
                    != after[b].username by {
                    if b < before.len() {
                        assert(before[a].username != before[b].username);
                    } else {
                        assert(before[a].username != credential.username@);
                    }
                }
            }
        }
        Ok(())
    }
}

/// A username is registered once. After an insertion under a username, a
/// second one under the same username is refused as `AlreadyExists` and
/// changes nothing, so the hash stored first is the one that stays.
pub proof fn law_first_registration_stays(
    stored: Map<Seq<char>, Seq<char>>,
    first: CredentialView,
    second: CredentialView,
)
    requires
        first.username == second.username,
    ensures
        insertion(insertion(stored, first).0, second) == (
            insertion(stored, first).0,
            Err::<(), AuthError>(AuthError::AlreadyExists),
        ),
        insertion(stored, first).1 is Ok ==> insertion(insertion(stored, first).0, second).0[second.username]
            == first.password_hash,
        insertion(stored, first).1 is Err ==> insertion(stored, first).0 == stored,
{
}

/// An insertion happens whole or not at all: either the caller is told
/// `Ok` and exactly the new credential has been added, or the caller is told
/// `AlreadyExists` and nothing has changed. No other username is touched
/// either way.
pub proof fn law_insertion_is_atomic(stored: Map<Seq<char>, Seq<char>>, credential: CredentialView)
    ensures
        insertion(stored, credential).1 is Ok <==> !stored.dom().contains(credential.username),
        insertion(stored, credential).1 is Ok ==> lookup_in(
            insertion(stored, credential).0,
            credential.username,
        ) == Some(credential),
        insertion(stored, credential).1 is Err ==> insertion(stored, credential) == (
            stored,
            Err::<(), AuthError>(AuthError::AlreadyExists),
        ),
        forall|other: Seq<char>|
            other != credential.username ==> #[trigger] lookup_in(
                insertion(stored, credential).0,
                other,
            ) == lookup_in(stored, other),
{
}

} // verus!
