use crate::error::CredentialError;
use crate::time::{utc_from_secs, utc_representable, Timestamp};
use vstd::prelude::*;

verus! {

/// The access and refresh tokens of the push-driven source.
///
/// Usable while the current time is before `expires_at`; from then on it
/// must be refreshed before use.
pub struct TokenData {
    pub access_token: String,
    pub expires_at: Timestamp,
    pub refresh_token: String,
}

/// What a successful refresh exchange returns.
pub struct TokenGrant {
    pub access_token: String,
    pub refresh_token: String,
    /// Seconds since the Unix epoch.
    pub expires_at: i64,
}

impl TokenData {
    pub open spec fn spec_is_expired(self, now: Timestamp) -> bool {
        !now.spec_before(self.expires_at)
    }

    pub fn new(access_token: String, refresh_token: String, expires_at: Timestamp) -> (r: TokenData)
        ensures
            r.access_token == access_token,
            r.refresh_token == refresh_token,
            r.expires_at == expires_at,
    {
        TokenData { access_token, expires_at, refresh_token }
    }

    /// Whether the credential must be refreshed before use at `now`.
    pub fn is_expired(&self, now: Timestamp) -> (r: bool)
        ensures
            r == self.spec_is_expired(now),
    {
        !now.before(&self.expires_at)
    }

    /// Takes the tokens and expiry of a refresh exchange made at `now`.
    /// Fails as malformed, leaving the credential as it was, when the expiry
    /// is out of chrono's range or is not after `now`: a refresh must yield
    /// a credential that is usable.
    pub fn apply_grant(&mut self, grant: TokenGrant, now: Timestamp) -> (r: Result<(), CredentialError>)
        ensures
            r is Ok <==> utc_representable(grant.expires_at as int) && now.spec_before(
                Timestamp { secs: grant.expires_at, nanos: 0 },
            ),
            r is Ok ==> final(self).access_token == grant.access_token
                && final(self).refresh_token == grant.refresh_token
                && final(self).expires_at == (Timestamp { secs: grant.expires_at, nanos: 0 })
                && !final(self).spec_is_expired(now),
            r matches Err(e) ==> e == CredentialError::Malformed && *final(self) == *old(self),
    {
        let t = match utc_from_secs(grant.expires_at) {
            Some(t) => t,
            None => return Err(CredentialError::Malformed),
        };
        if !now.before(&t) {
            return Err(CredentialError::Malformed);
        }
        self.access_token = grant.access_token;
        self.refresh_token = grant.refresh_token;
        self.expires_at = t;
        Ok(())
    }
}

} // verus!
