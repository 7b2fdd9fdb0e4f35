//! A user account as stored. Instants are microseconds since the epoch.
use vstd::prelude::*;

verus! {

/// A stored user; `password_hash` is empty for accounts made by Google sign-in.
#[derive(Debug, Clone, PartialEq, Eq)]
pub struct User {
    pub id: u128,
    pub email: String,
    pub password_hash: String,
    pub created_at: i64,
    pub updated_at: i64,
}

} // verus!
