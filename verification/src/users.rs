//! The user records the repository manages: the persisted entity, the
//! inbound command shapes, the outbound representation, and the store's
//! error taxonomy.

use vstd::prelude::*;

verus! {

/// The store's error taxonomy. The in-memory store raises only
/// `UniqueViolation` (a uniqueness constraint was hit); `Unavailable` is the
/// generic failure class a durable backend may surface (connectivity loss,
/// malformed query), kept distinguishable so a caller can map a conflict and
/// a generic failure differently.
#[derive(Clone, Copy, Debug, PartialEq, Eq, Structural)]
pub enum StoreError {
    UniqueViolation,
    Unavailable,
}

/// A persisted user record. The identifier is the 128-bit value of a UUID;
/// the timestamps count microseconds of UTC since the epoch.
#[derive(Debug, PartialEq)]
pub struct User {
    pub id: u128,
    pub username: String,
    /// Stored exactly as supplied: no hashing happens at this layer, a gap a
    /// deployment must close before keeping real credentials.
    pub password: String,
    pub nickname: String,
    pub avatar_url: String,
    pub created_at: i64,
    pub updated_at: i64,
}

/// The mathematical value of a `User`: each string as its character sequence.
pub struct UserView {
    pub id: u128,
    pub username: Seq<char>,
    pub password: Seq<char>,
    pub nickname: Seq<char>,
    pub avatar_url: Seq<char>,
    pub created_at: i64,
    pub updated_at: i64,
}

impl View for User {
    type V = UserView;

    open spec fn view(&self) -> UserView {
        UserView {
            id: self.id,
            username: self.username@,
            password: self.password@,
            nickname: self.nickname@,
            avatar_url: self.avatar_url@,
            created_at: self.created_at,
            updated_at: self.updated_at,
        }
    }
}

impl Clone for User {
    fn clone(&self) -> (r: Self)
        ensures
            r@ == self@,
    {
        User {
            id: self.id,
            username: self.username.clone(),
            password: self.password.clone(),
            nickname: self.nickname.clone(),
            avatar_url: self.avatar_url.clone(),
            created_at: self.created_at,
            updated_at: self.updated_at,
        }
    }
}

/// The inbound "create account" command: `username` and `password` are
/// required; `nickname` and `avatar_url` are optional and get defaults.
pub struct CreateUser {
    pub username: String,
    pub password: String,
    pub nickname: Option<String>,
    pub avatar_url: Option<String>,
}

/// The mathematical value of a `CreateUser`.
pub struct CreateUserView {
    pub username: Seq<char>,
    pub password: Seq<char>,
    pub nickname: Option<Seq<char>>,
    pub avatar_url: Option<Seq<char>>,
}

impl View for CreateUser {
    type V = CreateUserView;

    open spec fn view(&self) -> CreateUserView {
        CreateUserView {
            username: self.username@,
            password: self.password@,
            nickname: match self.nickname {
                Option::Some(n) => Option::Some(n@),
                Option::None => Option::None,
            },
            avatar_url: match self.avatar_url {
                Option::Some(a) => Option::Some(a@),
                Option::None => Option::None,
            },
        }
    }
}

/// The inbound "update password" command shape. The repository operation
/// consumes only `new_password`; verifying `old_password` is the caller's
/// responsibility.
pub struct UpdateUserPassword {
    pub old_password: String,
    pub new_password: String,
}

/// The outbound representation of a user record: every field except the
/// password, which is never emitted.
pub struct UserOutput {
    pub id: u128,
    pub username: String,
    pub nickname: String,
    pub avatar_url: String,
    pub created_at: i64,
    pub updated_at: i64,
}

/// The mathematical value of a `UserOutput`.
pub struct UserOutputView {
    pub id: u128,
    pub username: Seq<char>,
    pub nickname: Seq<char>,
    pub avatar_url: Seq<char>,
    pub created_at: i64,
    pub updated_at: i64,
}

impl View for UserOutput {
    type V = UserOutputView;

    open spec fn view(&self) -> UserOutputView {
        UserOutputView {
            id: self.id,
            username: self.username@,
            nickname: self.nickname@,
            avatar_url: self.avatar_url@,
            created_at: self.created_at,
            updated_at: self.updated_at,
        }
    }
}

/// What the outbound representation of a user value holds: the password is
/// dropped, every other field is carried over unchanged.
pub open spec fn output_of(u: UserView) -> UserOutputView {
    UserOutputView {
        id: u.id,
        username: u.username,
        nickname: u.nickname,
        avatar_url: u.avatar_url,
        created_at: u.created_at,
        updated_at: u.updated_at,
    }
}

impl User {
    /// The outbound form of this record; the password does not appear in it.
    pub fn to_output(&self) -> (r: UserOutput)
        ensures
            r@ == output_of(self@),
    {
        UserOutput {
            id: self.id,
            username: self.username.clone(),
            nickname: self.nickname.clone(),
            avatar_url: self.avatar_url.clone(),
            created_at: self.created_at,
            updated_at: self.updated_at,
        }
    }
}

/// Password redaction: the outbound representation is a function of every
/// field of the record except the password, so two records that differ only
/// in their passwords have identical outbound representations.
pub proof fn lemma_output_redacts_password(u1: UserView, u2: UserView)
    requires
        u1.id == u2.id,
        u1.username == u2.username,
        u1.nickname == u2.nickname,
        u1.avatar_url == u2.avatar_url,
        u1.created_at == u2.created_at,
        u1.updated_at == u2.updated_at,
    ensures
        output_of(u1) == output_of(u2),
{
}

} // verus!
