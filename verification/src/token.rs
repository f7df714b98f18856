//! The claims that authentication tokens carry.
use vstd::prelude::*;
use crate::date::current_seconds;
use crate::models::user::{User, UserPublic};
use crate::object_id::encode_hex;

verus! {

/// How long a token is valid: seven days, in seconds.
pub const TOKEN_LIFETIME_SECONDS: i64 = 604800;

/// When a token issued at `now` (seconds since the epoch) expires.
pub open spec fn expiry_for(now: i64) -> usize {
    (now + TOKEN_LIFETIME_SECONDS) as usize
}

/// The claims of an authentication token.
#[derive(Debug, Clone, PartialEq, Eq)]
pub struct Claims {
    /// When the token expires, in seconds since the epoch.
    pub exp: usize,
    /// When the token was issued, in seconds since the epoch.
    pub iat: usize,
    pub user: UserPublic,
}

/// A token is valid for seven days from when it is issued: the expiry of a token issued
/// at any time since the epoch is that time plus seven days of seconds.
pub proof fn lemma_token_lifetime(now: i64)
    requires
        0 <= now,
        now + TOKEN_LIFETIME_SECONDS <= usize::MAX,
    ensures
        expiry_for(now) == now + 7 * 24 * 60 * 60,
        expiry_for(now) == (now as usize) + TOKEN_LIFETIME_SECONDS,
{
}

impl Claims {
    /// The claims for a user, issued at `iat` and expiring seven days after `now`
    /// (times in seconds since the epoch).
    pub fn issued(user: &User, now: i64, iat: i64) -> (r: Claims)
        requires
            user.id is Some,
            -10_000_000_000_000 <= now <= 10_000_000_000_000,
        ensures
            r.exp == expiry_for(now),
            r.iat == iat as usize,
            r.user.id@ == encode_hex(user.id->0.bytes@),
            r.user.email == user.email,
            r.user.name == user.name,
            r.user.slug == user.slug,
    {
        Claims {
            exp: (now + TOKEN_LIFETIME_SECONDS) as usize,
            iat: iat as usize,
            user: user.to_display(),
        }
    }

    /// The claims for a user, issued now (one clock reading, in seconds) and expiring
    /// seven days later.
    pub fn new(user: &User) -> (r: Claims)
        requires
            user.id is Some,
        ensures
            exists|now: i64|
                -10_000_000_000_000 <= now <= 10_000_000_000_000 && r.exp == #[trigger] expiry_for(now),
            exists|t: i64| -10_000_000_000_000 <= t <= 10_000_000_000_000 && r.iat == #[trigger] (t as usize),
            exists|t: i64|
                0 <= t <= 10_000_000_000_000 && r.iat == t as usize && r.exp == #[trigger] expiry_for(t) && (t
                    + TOKEN_LIFETIME_SECONDS <= usize::MAX ==> r.exp == r.iat + TOKEN_LIFETIME_SECONDS),
            r.user.id@ == encode_hex(user.id->0.bytes@),
            r.user.email == user.email,
            r.user.name == user.name,
            r.user.slug == user.slug,
    {
        let now = current_seconds();
        let r = Self::issued(user, now, now);
        assert(r.exp == expiry_for(now));
        assert(r.iat == (now as usize));
        proof {
            if now + TOKEN_LIFETIME_SECONDS <= usize::MAX {
                lemma_token_lifetime(now);
            }
        }
        assert(0 <= now <= 10_000_000_000_000 && r.iat == now as usize && r.exp == expiry_for(now) && (now
            + TOKEN_LIFETIME_SECONDS <= usize::MAX ==> r.exp == r.iat + TOKEN_LIFETIME_SECONDS));
        r
    }

    /// The user the token was issued for.
    pub fn to_public_user(&self) -> (r: UserPublic)
        ensures
            r == self.user,
    {
        UserPublic {
            id: self.user.id.clone(),
            email: self.user.email.clone(),
            name: self.user.name.clone(),
            slug: self.user.slug.clone(),
        }
    }
}

} // verus!
