use vstd::prelude::*;
use crate::claims::{AccessClaimsView, AccessTokenClaims, RefreshClaimsView, RefreshTokenClaims};
use crate::codec::{access_verdict, decode_access_token, decode_refresh_token, refresh_verdict};
use crate::error::AuthError;

verus! {

/// Access guard: `bearer` is the token of the `Authorization: Bearer` header
/// (`None` when the header is absent or malformed), `secret` the access-token
/// secret (`None` when it is not configured), `now` the current time in
/// seconds since the Unix epoch.
pub fn authorize_access(bearer: Option<&str>, secret: Option<&[u8]>, now: u64) -> (r: Result<AccessTokenClaims, AuthError>)
    ensures
        bearer is None ==> r == Err::<AccessTokenClaims, AuthError>(AuthError::InvalidToken),
        bearer is Some && secret is None ==> r == Err::<AccessTokenClaims, AuthError>(AuthError::MissingSecret),
        bearer is Some && secret is Some ==> match r {
            Ok(c) => access_verdict(bearer->0@, secret->0@, now) == Ok::<AccessClaimsView, AuthError>(c@),
            Err(e) => access_verdict(bearer->0@, secret->0@, now) == Err::<AccessClaimsView, AuthError>(e),
        },
{
    match bearer {
        None => Err(AuthError::InvalidToken),
        Some(token) => match secret {
            None => Err(AuthError::MissingSecret),
            Some(key) => decode_access_token(token, key, now),
        },
    }
}

/// Refresh guard: the same as [`authorize_access`] with the refresh-token
/// secret and refresh claims.
pub fn authorize_refresh(bearer: Option<&str>, secret: Option<&[u8]>, now: u64) -> (r: Result<RefreshTokenClaims, AuthError>)
    ensures
        bearer is None ==> r == Err::<RefreshTokenClaims, AuthError>(AuthError::InvalidToken),
        bearer is Some && secret is None ==> r == Err::<RefreshTokenClaims, AuthError>(AuthError::MissingSecret),
        bearer is Some && secret is Some ==> match r {
            Ok(c) => refresh_verdict(bearer->0@, secret->0@, now) == Ok::<RefreshClaimsView, AuthError>(c@),
            Err(e) => refresh_verdict(bearer->0@, secret->0@, now) == Err::<RefreshClaimsView, AuthError>(e),
        },
{
    match bearer {
        None => Err(AuthError::InvalidToken),
        Some(token) => match secret {
            None => Err(AuthError::MissingSecret),
            Some(key) => decode_refresh_token(token, key, now),
        },
    }
}

} // verus!
