//! The one user of the service and the backend that knows them.

use vstd::prelude::*;
use vstd::string::StringSliceAdditionalSpecFns;

verus! {

/// The mathematical content of a [`User`].
pub struct UserView {
    pub id: int,
    pub username: Seq<char>,
    pub password: Seq<char>,
}

/// A user of the service.
#[derive(Debug, Clone, PartialEq, Eq)]
pub struct User {
    id: i64,
    pub username: String,
    password: String,
}

impl View for User {
    type V = UserView;

    closed spec fn view(&self) -> UserView {
        UserView { id: self.id as int, username: self.username@, password: self.password@ }
    }
}

impl User {
    /// The user with the given name and password. There is one user, and its
    /// id is 1.
    pub fn new(username: String, password: String) -> (user: Self)
        ensures
            user@ == (UserView { id: 1, username: username@, password: password@ }),
    {
        User { id: 1, username, password }
    }

    /// The user's id.
    pub fn id(&self) -> (id: i64)
        ensures
            id == self@.id,
    {
        self.id
    }

    /// What a session of this user is bound to: the bytes of the password, so
    /// that a session ends when the password changes.
    pub fn session_auth_hash(&self) -> (hash: &[u8])
        ensures
            hash@ == vstd::utf8::encode_utf8(self@.password),
    {
        self.password.as_str().as_bytes()
    }

    /// A second value with the same content.
    pub fn duplicate(&self) -> (copy: Self)
        ensures
            copy == *self,
    {
        User { id: self.id, username: self.username.clone(), password: self.password.clone() }
    }
}

/// What a login form carries.
#[derive(Debug, Clone, PartialEq, Eq)]
pub struct Credentials {
    pub username: String,
    pub password: String,
    pub next: Option<String>,
}

/// Why the backend could not answer.
#[derive(Debug, PartialEq, Eq)]
pub struct AuthError(pub String);

impl AuthError {
    /// The words of the error.
    pub fn message(&self) -> (out: String)
        ensures
            out@ == self.0@,
    {
        self.0.clone()
    }
}

/// The authentication backend: it knows one user.
#[derive(Debug, Clone)]
pub struct Backend {
    user: User,
}

impl Backend {
    /// The user that this backend knows.
    pub closed spec fn user(&self) -> User {
        self.user
    }

    /// Whether name and password are those of the known user.
    pub open spec fn accepts(&self, username: Seq<char>, password: Seq<char>) -> bool {
        username == self.user()@.username && password == self.user()@.password
    }

    /// A backend that knows `user`.
    pub fn new(user: User) -> (backend: Self)
        ensures
            backend.user() == user,
    {
        Backend { user }
    }

    /// The known user, where the credentials carry its name and password;
    /// nobody otherwise. Never an error.
    pub fn authenticate(&self, creds: Credentials) -> (result: Result<Option<User>, AuthError>)
        ensures
            result is Ok,
            result->Ok_0 == if self.accepts(creds.username@, creds.password@) {
                Some(self.user())
            } else {
                None
            },
    {
        if creds.username == self.user.username && creds.password == self.user.password {
            Ok(Some(self.user.duplicate()))
        } else {
            Ok(None)
        }
    }

    /// The known user, where `user_id` is its id; nobody otherwise. Never an
    /// error.
    pub fn get_user(&self, user_id: &i64) -> (result: Result<Option<User>, AuthError>)
        ensures
            result is Ok,
            result->Ok_0 == if *user_id == self.user()@.id {
                Some(self.user())
            } else {
                None
            },
    {
        if *user_id == self.user.id {
            Ok(Some(self.user.duplicate()))
        } else {
            Ok(None)
        }
    }
}

} // verus!
