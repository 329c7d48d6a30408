use vstd::prelude::*;

verus! {

/// A token counts as expired this many seconds before its actual expiry.
pub const EXPIRY_MARGIN_SECS: i64 = 300;

/// An access token as issued by the provider. Times are whole seconds
/// since the Unix epoch.
#[derive(Clone, Debug, PartialEq, Eq)]
pub struct AuthToken {
    pub access_token: String,
    pub token_type: String,
    /// Lifetime in seconds from issuance; `None` when the provider did not say.
    pub expires_in: Option<u64>,
    pub refresh_token: Option<String>,
    /// Issuance time as observed by the client.
    pub created_at: i64,
}

/// Whether a token issued at `created_at` with lifetime `expires_in` is
/// expired at `now`; an unknown lifetime never expires.
pub open spec fn expired_at(created_at: int, expires_in: Option<u64>, now: int) -> bool {
    match expires_in {
        Some(secs) => now + EXPIRY_MARGIN_SECS > created_at + secs,
        None => false,
    }
}

/// Whether a stored credential with absolute expiry `expires_at` is expired
/// at `now`; an unknown expiry never expires.
pub open spec fn credential_expired_at(expires_at: Option<i64>, now: int) -> bool {
    match expires_at {
        Some(at) => now + EXPIRY_MARGIN_SECS > at,
        None => false,
    }
}

/// The absolute expiry of a token, held to the range of `i64`.
pub open spec fn expiry_of(created_at: int, expires_in: Option<u64>) -> Option<i64> {
    match expires_in {
        Some(secs) => if created_at + secs > i64::MAX {
            Some(i64::MAX)
        } else {
            Some((created_at + secs) as i64)
        },
        None => None,
    }
}

/// Relies on chrono's `Utc::now` and `DateTime::timestamp`: the current
/// time in whole seconds since the Unix epoch. Nothing is promised of it.
#[verifier::external_body]
fn unix_now() -> (r: i64) {
    chrono::Utc::now().timestamp()
}

/// Whether the stored expiry `expires_at` has been reached at `now`, within
/// the safety margin.
pub fn credential_expired(expires_at: Option<i64>, now: i64) -> (r: bool)
    ensures
        r == credential_expired_at(expires_at, now as int),
{
    match expires_at {
        Some(at) => (now as i128) + (EXPIRY_MARGIN_SECS as i128) > at as i128,
        None => false,
    }
}

pub fn copy_string(s: &String) -> (r: String)
    ensures
        r == *s,
{
    s.clone()
}

pub fn copy_opt_string(s: &Option<String>) -> (r: Option<String>)
    ensures
        r == *s,
{
    match s {
        Some(v) => Some(v.clone()),
        None => None,
    }
}

impl AuthToken {
    /// A copy of the token, field for field.
    pub fn duplicate(&self) -> (r: AuthToken)
        ensures
            r == *self,
    {
        AuthToken {
            access_token: copy_string(&self.access_token),
            token_type: copy_string(&self.token_type),
            expires_in: self.expires_in,
            refresh_token: copy_opt_string(&self.refresh_token),
            created_at: self.created_at,
        }
    }

    pub open spec fn spec_expired_at(&self, now: int) -> bool {
        expired_at(self.created_at as int, self.expires_in, now)
    }

    pub open spec fn spec_expires_at(&self) -> Option<i64> {
        expiry_of(self.created_at as int, self.expires_in)
    }

    /// Whether the token is expired at `now` (seconds since the epoch):
    /// true iff its lifetime is known and `now + 5 min > created_at + expires_in`.
    pub fn is_expired_at(&self, now: i64) -> (r: bool)
        ensures
            r == self.spec_expired_at(now as int),
    {
        match self.expires_in {
            Some(secs) => (now as i128) + (EXPIRY_MARGIN_SECS as i128) > (self.created_at as i128)
                + (secs as i128),
            None => false,
        }
    }

    /// Whether the token is expired now, by the system clock. A token
    /// whose lifetime is unknown is never expired.
    pub fn is_expired(&self) -> (r: bool)
        ensures
            self.expires_in is None ==> !r,
    {
        let now = unix_now();
        self.is_expired_at(now)
    }

    /// The absolute expiry time to persist, if the lifetime is known.
    pub fn expires_at(&self) -> (r: Option<i64>)
        ensures
            r == self.spec_expires_at(),
    {
        match self.expires_in {
            Some(secs) => {
                let sum: i128 = (self.created_at as i128) + (secs as i128);
                if sum > i64::MAX as i128 {
                    Some(i64::MAX)
                } else {
                    Some(sum as i64)
                }
            },
            None => None,
        }
    }
}

} // verus!
