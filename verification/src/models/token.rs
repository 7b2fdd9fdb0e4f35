//! A stored refresh token: only its hash is kept.
use vstd::prelude::*;
use crate::clock::Instant;

verus! {

#[derive(Debug, Clone, PartialEq, Eq)]
pub struct RefreshToken {
    pub id: u128,
    pub user_id: u128,
    pub token_hash: String,
    pub expires_at: i64,
    pub created_at: i64,
}

impl RefreshToken {
    /// The token has expired at `now`: its expiry (microseconds) lies strictly
    /// before now, compared at nanosecond precision.
    pub open spec fn spec_expired_at(&self, now: Instant) -> bool {
        (self.expires_at as int) * 1000 < now.total_nanos()
    }

    pub fn is_expired_at(&self, now: Instant) -> (r: bool)
        ensures
            r == self.spec_expired_at(now),
    {
        (self.expires_at as i128) * 1000 < (now.micros as i128) * 1000 + (now.nanos as i128)
    }
}

} // verus!
