//! User records as the use cases read and write them. Identifiers (UUIDs)
//! are held as their 128-bit values.
use vstd::prelude::*;

verus! {

/// What a user may do.
#[derive(Debug, Clone, Copy, PartialEq, Eq, Structural)]
pub enum UserRole {
    Admin,
    Player,
}

/// Whether a user's registration has been verified.
#[derive(Debug, Clone, Copy, PartialEq, Eq, Structural)]
pub enum UserStatus {
    Pending,
    Active,
}

/// A user account.
#[derive(Debug, PartialEq, Eq)]
pub struct User {
    pub uuid: u128,
    pub name: String,
    pub password_hash: String,
    pub email: String,
    pub role: UserRole,
    pub status: UserStatus,
}

/// Whether `u` may act on other users' accounts: an administrator whose
/// account is active.
pub open spec fn is_active_admin(u: User) -> bool {
    u.role == UserRole::Admin && u.status == UserStatus::Active
}

impl User {
    /// Whether this user is an administrator whose account is active.
    pub fn is_active_admin(&self) -> (b: bool)
        ensures
            b == is_active_admin(*self),
    {
        self.role == UserRole::Admin && self.status == UserStatus::Active
    }
}

/// A copy of `u`.
pub(crate) fn copy_user(u: &User) -> (c: User)
    ensures
        c == *u,
{
    User {
        uuid: u.uuid,
        name: u.name.clone(),
        password_hash: u.password_hash.clone(),
        email: u.email.clone(),
        role: u.role,
        status: u.status,
    }
}

} // verus!
