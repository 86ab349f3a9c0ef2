use vstd::prelude::*;
use crate::errors::network_error::NetworkError;

verus! {

/// The result of a call to one of the outside services.
pub type NetworkResult<T> = Result<T, NetworkError>;

/// The reply of the game database's authorization server.
#[derive(Debug)]
pub struct AccessTokenResponse {
    pub access_token: String,
    pub expires_in: i64,
    pub token_type: String,
}

/// An access token and the instant at which it expires, in nanoseconds
/// since the Unix epoch.
#[derive(Debug)]
pub struct BearerToken {
    pub token: String,
    pub expiration: i128,
}

/// The earliest instant that a UTC date-time can hold (the start of year
/// -262143), in nanoseconds since the Unix epoch.
pub const MIN_INSTANT_NANOS: i128 = -8334601228800000000000;

/// The last instant that a UTC date-time can hold (the end of year
/// 262142), in nanoseconds since the Unix epoch.
pub const MAX_INSTANT_NANOS: i128 = 8210266876799999999999;

/// The largest number of seconds, either way, that a time span can hold.
pub const MAX_SPAN_SECONDS: i64 = 9223372036854775;

pub const NANOS_PER_SECOND: i128 = 1000000000;

/// An instant that a UTC date-time can hold.
pub open spec fn representable(instant: int) -> bool {
    MIN_INSTANT_NANOS <= instant <= MAX_INSTANT_NANOS
}

/// A token that has expired stays expired.
pub proof fn lemma_expired_stays_expired(token: BearerToken, earlier: i128, later: i128)
    requires
        earlier <= later,
        token.expired_at(earlier),
    ensures
        token.expired_at(later),
{
}

impl BearerToken {
    pub fn new(access_token: String, expiration: i128) -> (r: Self)
        ensures
            r.token == access_token,
            r.expiration == expiration,
    {
        BearerToken { token: access_token, expiration }
    }

    /// Whether the token has expired at instant `now`: its expiration lies
    /// strictly before `now`.
    pub open spec fn expired_at(self, now: i128) -> bool {
        self.expiration < now
    }

    pub fn is_expired(&self, now: i128) -> (r: bool)
        ensures
            r == self.expired_at(now),
    {
        self.expiration < now
    }

    /// The text of the token, as its display form shows it.
    pub fn display_text(&self) -> (r: String)
        ensures
            r@ == self.token@,
    {
        self.token.clone()
    }

    /// The token that the authorization server handed out at instant
    /// `now`: it expires `expires_in` seconds later, or `None` when that
    /// instant lies outside what a UTC date-time can hold.
    pub fn from_access_token(response: AccessTokenResponse, now: i128) -> (r: Option<Self>)
        requires
            representable(now as int),
            -MAX_SPAN_SECONDS <= response.expires_in <= MAX_SPAN_SECONDS,
        ensures
            representable(now + response.expires_in * NANOS_PER_SECOND) <==> r is Some,
            r matches Some(t) ==> t.token == response.access_token && t.expiration == now
                + response.expires_in * NANOS_PER_SECOND,
    {
        let expiration = now + (response.expires_in as i128) * NANOS_PER_SECOND;
        if MIN_INSTANT_NANOS <= expiration && expiration <= MAX_INSTANT_NANOS {
            Some(BearerToken::new(response.access_token, expiration))
        } else {
            None
        }
    }
}

} // verus!
