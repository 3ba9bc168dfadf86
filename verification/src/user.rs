//! Users and the credential store: the record of who may log in.

use crate::error::AuthError;
use crate::policy::same_text;
use vstd::prelude::*;

verus! {

/// A registered user. `password` holds the hash, never the plaintext.
#[derive(Debug, PartialEq, Eq)]
pub struct User {
    pub id: i64,
    pub username: String,
    pub password: String,
}

/// A user as contracts speak of it.
pub struct UserView {
    pub id: int,
    pub username: Seq<char>,
    pub password: Seq<char>,
}

impl View for User {
    type V = UserView;

    open spec fn view(&self) -> UserView {
        UserView { id: self.id as int, username: self.username@, password: self.password@ }
    }
}

impl Clone for User {
    fn clone(&self) -> (copy: Self)
        ensures
            copy@ == self@,
    {
        User { id: self.id, username: self.username.clone(), password: self.password.clone() }
    }
}

/// The view of an optional user.
pub open spec fn user_view(user: Option<User>) -> Option<UserView> {
    match user {
        Some(u) => Some(u@),
        None => None,
    }
}

/// The credential store as contracts speak of it: the users in the order of
/// their creation, and the identifier that the next one gets.
pub struct Credentials {
    pub rows: Seq<UserView>,
    pub next_id: int,
}

impl Credentials {
    /// The store before the first registration. Identifiers start at 1.
    pub open spec fn empty() -> Credentials {
        Credentials { rows: Seq::empty(), next_id: 1 }
    }

    /// No username occurs twice, identifiers grow with the order of creation,
    /// and each is below the next one to assign, so that none is used twice.
    pub open spec fn wf(self) -> bool {
        &&& 1 <= self.next_id <= i64::MAX
        &&& forall|i: int, j: int|
            0 <= i < j < self.rows.len() ==> (#[trigger] self.rows[i]).username != (
            #[trigger] self.rows[j]).username
        &&& forall|i: int, j: int|
            0 <= i < j < self.rows.len() ==> (#[trigger] self.rows[i]).id < (
            #[trigger] self.rows[j]).id
        &&& forall|i: int| 0 <= i < self.rows.len() ==> 1 <= (#[trigger] self.rows[i]).id < self.next_id
    }

    /// Whether a user has this username.
    pub open spec fn has_username(self, username: Seq<char>) -> bool {
        exists|i: int| 0 <= i < self.rows.len() && (#[trigger] self.rows[i]).username == username
    }

    /// The user with this username.
    pub open spec fn by_username(self, username: Seq<char>) -> Option<UserView> {
        if self.has_username(username) {
            Some(
                self.rows[choose|i: int|
                    0 <= i < self.rows.len() && (#[trigger] self.rows[i]).username == username],
            )
        } else {
            None
        }
    }

    /// Whether a user has this identifier.
    pub open spec fn has_id(self, id: int) -> bool {
        exists|i: int| 0 <= i < self.rows.len() && (#[trigger] self.rows[i]).id == id
    }

    /// The user with this identifier.
    pub open spec fn by_id(self, id: int) -> Option<UserView> {
        if self.has_id(id) {
            Some(self.rows[choose|i: int| 0 <= i < self.rows.len() && (#[trigger] self.rows[i]).id == id])
        } else {
            None
        }
    }

    /// How many users have this username.
    pub open spec fn count_username(self, username: Seq<char>) -> nat {
        self.rows.filter(|u: UserView| u.username == username).len()
    }

    /// The store with one more user, who gets the next identifier.
    pub open spec fn with_user(self, username: Seq<char>, password_hash: Seq<char>) -> Credentials {
        Credentials {
            rows: self.rows.push(
                UserView { id: self.next_id, username: username, password: password_hash },
            ),
            next_id: self.next_id + 1,
        }
    }

    /// What creating a user returns: the new identifier, `DuplicateUsername`
    /// where the username is taken, `StoreFull` where no identifier is left.
    pub open spec fn create_result(self, username: Seq<char>) -> Result<int, AuthError> {
        if self.has_username(username) {
            Err(AuthError::DuplicateUsername)
        } else if self.next_id >= i64::MAX {
            Err(AuthError::StoreFull)
        } else {
            Ok(self.next_id)
        }
    }

    /// The store after creating a user: one more user on success, unchanged
    /// on failure.
    pub open spec fn after_create(self, username: Seq<char>, password_hash: Seq<char>) -> Credentials {
        if self.create_result(username) is Ok {
            self.with_user(username, password_hash)
        } else {
            self
        }
    }
}

/// The users of the application, each with a unique username and a unique
/// identifier that is never assigned again.
pub struct CredentialStore {
    users: Vec<User>,
    next_id: i64,
}

impl View for CredentialStore {
    type V = Credentials;

    closed spec fn view(&self) -> Credentials {
        Credentials { rows: self.users@.map_values(|u: User| u@), next_id: self.next_id as int }
    }
}

impl CredentialStore {
    /// Every store is well-formed.
    #[verifier::type_invariant]
    pub open spec fn valid(&self) -> bool {
        self@.wf()
    }

    /// An empty store.
    pub fn new() -> (store: Self)
        ensures
            store@ == Credentials::empty(),
            store@.wf(),
    {
        let store = CredentialStore { users: Vec::new(), next_id: 1 };
        assert(store@.rows =~= Seq::empty());
        store
    }

    /// An empty store whose identifiers start at `first_id`, for a store that
    /// goes on where an earlier one stopped. Identifiers below 1 are refused.
    pub fn starting_at(first_id: i64) -> (store: Option<Self>)
        ensures
            match store {
                Some(store) => first_id >= 1 && store@.wf() && store@ == (Credentials {
                    rows: Seq::empty(),
                    next_id: first_id as int,
                }),
                None => first_id < 1,
            },
    {
        if first_id < 1 {
            return None;
        }
        let store = CredentialStore { users: Vec::new(), next_id: first_id };
        assert(store@.rows =~= Seq::empty());
        Some(store)
    }

    /// The position of the user with this username.
    fn position_of(&self, username: &str) -> (position: Option<usize>)
        ensures
            self@.wf(),
            match position {
                Some(i) => i < self@.rows.len() && self@.rows[i as int].username == username@
                    && self@.by_username(username@) == Some(self@.rows[i as int]),
                None => !self@.has_username(username@),
            },
    {
        proof {
            use_type_invariant(self);
        }
        let mut i: usize = 0;
        while i < self.users.len()
            invariant
                i <= self.users.len(),
                self@.wf(),
                self@.rows.len() == self.users.len(),
                forall|j: int| 0 <= j < i ==> (#[trigger] self@.rows[j]).username != username@,
            decreases self.users.len() - i,
        {
            if same_text(self.users[i].username.as_str(), username) {
                assert(self@.rows[i as int].username == username@);
                return Some(i);
            }
            i += 1;
        }
        None
    }

    /// The user with this username. Absence is no error.
    pub fn get_user_by_username(&self, username: &str) -> (found: Option<User>)
        ensures
            self@.wf(),
            user_view(found) == self@.by_username(username@),
    {
        match self.position_of(username) {
            Some(i) => Some(self.users[i].clone()),
            None => None,
        }
    }

    /// The user with this identifier. Absence is no error.
    pub fn get_user_by_id(&self, id: i64) -> (found: Option<User>)
        ensures
            self@.wf(),
            user_view(found) == self@.by_id(id as int),
    {
        proof {
            use_type_invariant(self);
        }
        let mut i: usize = 0;
        while i < self.users.len()
            invariant
                i <= self.users.len(),
                self@.wf(),
                self@.rows.len() == self.users.len(),
                forall|j: int| 0 <= j < i ==> (#[trigger] self@.rows[j]).id != id,
            decreases self.users.len() - i,
        {
            if self.users[i].id == id {
                assert(self@.rows[i as int].id == id);
                return Some(self.users[i].clone());
            }
            i += 1;
        }
        None
    }

    /// Creates a user with the next identifier. A username that is taken is
    /// refused and the store stays as it was.
    pub fn create_user(&mut self, username: String, password_hash: String) -> (result: Result<
        i64,
        AuthError,
    >)
        ensures
            old(self)@.wf(),
            final(self)@.wf(),
            final(self)@ == old(self)@.after_create(username@, password_hash@),
            match result {
                Ok(id) => old(self)@.create_result(username@) == Ok::<int, AuthError>(id as int),
                Err(e) => old(self)@.create_result(username@) == Err::<int, AuthError>(e),
            },
    {
        proof {
            use_type_invariant(&*self);
        }
        if self.position_of(username.as_str()).is_some() {
            return Err(AuthError::DuplicateUsername);
        }
        if self.next_id == i64::MAX {
            return Err(AuthError::StoreFull);
        }
        let ghost before = self@;
        let mut taken = CredentialStore::new();
        core::mem::swap(self, &mut taken);
        let CredentialStore { mut users, next_id: id } = taken;
        users.push(User { id, username, password: password_hash });
        proof {
            assert(users@.map_values(|u: User| u@) =~= before.with_user(
                username@,
                password_hash@,
            ).rows);
            lemma_with_user_wf(before, username@, password_hash@);
        }
        *self = CredentialStore { users, next_id: id + 1 };
        Ok(id)
    }
}

/// Adding a user under a free username keeps the store well-formed.
pub proof fn lemma_with_user_wf(store: Credentials, username: Seq<char>, password_hash: Seq<char>)
    requires
        store.wf(),
        !store.has_username(username),
        store.next_id < i64::MAX,
    ensures
        store.with_user(username, password_hash).wf(),
{
    let after = store.with_user(username, password_hash);
    assert forall|i: int, j: int| 0 <= i < j < after.rows.len() implies (#[trigger] after.rows[i]).username
        != (#[trigger] after.rows[j]).username by {
        if j < store.rows.len() {
            assert(after.rows[i] == store.rows[i]);
            assert(after.rows[j] == store.rows[j]);
        } else {
            assert(after.rows[i] == store.rows[i]);
        }
    }
    assert forall|i: int, j: int| 0 <= i < j < after.rows.len() implies (#[trigger] after.rows[i]).id < (
    #[trigger] after.rows[j]).id by {
        if j < store.rows.len() {
            assert(after.rows[i] == store.rows[i]);
            assert(after.rows[j] == store.rows[j]);
        } else {
            assert(after.rows[i] == store.rows[i]);
        }
    }
    assert forall|i: int| 0 <= i < after.rows.len() implies 1 <= (#[trigger] after.rows[i]).id
        < after.next_id by {
        if i < store.rows.len() {
            assert(after.rows[i] == store.rows[i]);
        }
    }
}

} // verus!
