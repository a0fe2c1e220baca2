use vstd::prelude::*;
use jsonwebtoken::{Algorithm, DecodingKey, EncodingKey, Header, Validation};
use serde_json::{Map as JsonObject, Value};
use crate::claims::{
    access_of, access_set, refresh_of, refresh_set, AccessClaimsView, AccessTokenClaims, ClaimSet,
    ClaimSetView, RefreshClaimsView, RefreshTokenClaims,
};
use crate::error::AuthError;

verus! {

/// jsonwebtoken's error, carried opaquely from the signing call.
#[verifier::external_type_specification]
#[verifier::external_body]
pub struct ExJwtError(jsonwebtoken::errors::Error);

/// The claims object that a token signed with `secret` carries, or `None` when
/// the token is malformed, its signature does not check out under `secret`,
/// its header names another algorithm than HS256, its payload is not a JSON
/// object, or the payload holds an `aud` claim.
pub uninterp spec fn claims_in(token: Seq<char>, secret: Seq<u8>) -> Option<ClaimSetView>;

/// The compact token that signing the claims object `claims` with `secret`
/// gives (HS256, default header).
pub uninterp spec fn jwt_of(claims: ClaimSetView, secret: Seq<u8>) -> Seq<char>;

/// Relies on jsonwebtoken::encode with the default HS256 header: an HMAC key
/// from `secret` matches the header's algorithm, and neither serialising a
/// JSON object nor HMAC signing can fail, so a token always comes back; the
/// claims go in as one JSON object (keys in sorted order, HMAC deterministic,
/// so the token depends on claims and secret alone), and jsonwebtoken::decode
/// under the same secret (HS256, no time-based checks) gives back that
/// object; under any other secret decode either refuses the token or reads
/// the same payload.
#[verifier::external_body]
fn jwt_encode(claims: &ClaimSet, secret: &[u8]) -> (r: Result<String, jsonwebtoken::errors::Error>)
    ensures
        r is Ok,
        r is Ok ==> r->Ok_0@ == jwt_of(claims@, secret@),
        r is Ok ==> claims_in(r->Ok_0@, secret@) == Some(claims@),
        r is Ok ==> forall|other: Seq<u8>| #[trigger] claims_in(r->Ok_0@, other) is Some
            ==> claims_in(r->Ok_0@, other) == Some(claims@),
{
    let mut object = JsonObject::new();
    if let Some(v) = claims.ctr { object.insert("ctr".to_owned(), Value::from(v)); }
    if let Some(v) = claims.exp { object.insert("exp".to_owned(), Value::from(v)); }
    if let Some(v) = &claims.sub { object.insert("sub".to_owned(), Value::from(v.as_str())); }
    if let Some(v) = &claims.email { object.insert("email".to_owned(), Value::from(v.as_str())); }
    if let Some(v) = &claims.role { object.insert("role".to_owned(), Value::from(v.as_str())); }
    jsonwebtoken::encode(&Header::default(), &object, &EncodingKey::from_secret(secret))
}

/// Relies on jsonwebtoken::decode (HS256 only, signature checked, expiry and
/// required claims not checked): the claims object of a token signed with
/// `secret`; a field that is absent or of another JSON type reads as absent.
#[verifier::external_body]
fn jwt_decode(token: &str, secret: &[u8]) -> (r: Option<ClaimSet>)
    ensures
        match r {
            Some(c) => claims_in(token@, secret@) == Some(c@),
            None => claims_in(token@, secret@) is None,
        },
{
    let mut validation = Validation::new(Algorithm::HS256);
    validation.validate_exp = false;
    validation.required_spec_claims.clear();
    let key = DecodingKey::from_secret(secret);
    let o = jsonwebtoken::decode::<JsonObject<String, Value>>(token, &key, &validation).ok()?.claims;
    let text = |k: &str| o.get(k).and_then(Value::as_str).map(str::to_owned);
    let number = |k: &str| o.get(k).and_then(Value::as_u64);
    Some(ClaimSet { sub: text("sub"), email: text("email"), role: text("role"), exp: number("exp"), ctr: number("ctr") })
}

/// What decoding `token` under `secret` at time `now` gives for access claims:
/// the claims when the signature checks out, they are complete, and they have
/// not expired (`now <= exp`); `InvalidToken` otherwise.
pub open spec fn access_verdict(token: Seq<char>, secret: Seq<u8>, now: u64) -> Result<AccessClaimsView, AuthError> {
    match claims_in(token, secret) {
        Some(s) => match access_of(s) {
            Some(c) => if c.exp < now { Err(AuthError::InvalidToken) } else { Ok(c) },
            None => Err(AuthError::InvalidToken),
        },
        None => Err(AuthError::InvalidToken),
    }
}

/// The same for refresh claims.
pub open spec fn refresh_verdict(token: Seq<char>, secret: Seq<u8>, now: u64) -> Result<RefreshClaimsView, AuthError> {
    match claims_in(token, secret) {
        Some(s) => match refresh_of(s) {
            Some(c) => if c.exp < now { Err(AuthError::InvalidToken) } else { Ok(c) },
            None => Err(AuthError::InvalidToken),
        },
        None => Err(AuthError::InvalidToken),
    }
}

/// Whether `token` is a token signed with `secret` that carries access claims `c`.
pub open spec fn carries_access(token: Seq<char>, secret: Seq<u8>, c: AccessClaimsView) -> bool {
    claims_in(token, secret) == Some(access_set(c))
}

/// Whether `token` is refused by every refresh-token check, whatever the
/// secret and the time.
pub open spec fn never_a_refresh_token(token: Seq<char>) -> bool {
    forall|secret: Seq<u8>, now: u64| #[trigger] refresh_verdict(token, secret, now) is Err
}

/// Whether `token` is a token signed with `secret` that carries refresh claims `c`.
pub open spec fn carries_refresh(token: Seq<char>, secret: Seq<u8>, c: RefreshClaimsView) -> bool {
    claims_in(token, secret) == Some(refresh_set(c))
}

/// Signs access claims into a compact token.
pub fn encode_access_token(claims: &AccessTokenClaims, secret: &[u8]) -> (r: Result<String, AuthError>)
    ensures
        r is Ok,
        r is Ok ==> r->Ok_0@ == jwt_of(access_set(claims@), secret@),
        r is Ok ==> carries_access(r->Ok_0@, secret@, claims@),
        r is Ok ==> never_a_refresh_token(r->Ok_0@),
{
    match jwt_encode(&claims.to_claim_set(), secret) {
        Ok(token) => Ok(token),
        Err(_) => Err(AuthError::TokenCreation),
    }
}

/// Signs refresh claims into a compact token.
pub fn encode_refresh_token(claims: &RefreshTokenClaims, secret: &[u8]) -> (r: Result<String, AuthError>)
    ensures
        r is Ok,
        r is Ok ==> r->Ok_0@ == jwt_of(refresh_set(claims@), secret@),
        r is Ok ==> carries_refresh(r->Ok_0@, secret@, claims@),
{
    match jwt_encode(&claims.to_claim_set(), secret) {
        Ok(token) => Ok(token),
        Err(_) => Err(AuthError::TokenCreation),
    }
}

/// Checks the signature of an access token and its expiry against `now`
/// (seconds since the Unix epoch), with no leeway.
pub fn decode_access_token(token: &str, secret: &[u8], now: u64) -> (r: Result<AccessTokenClaims, AuthError>)
    ensures
        match r {
            Ok(c) => access_verdict(token@, secret@, now) == Ok::<AccessClaimsView, AuthError>(c@),
            Err(e) => access_verdict(token@, secret@, now) == Err::<AccessClaimsView, AuthError>(e),
        },
{
    match jwt_decode(token, secret) {
        Some(set) => match AccessTokenClaims::from_claim_set(set) {
            Some(c) => if c.exp < now { Err(AuthError::InvalidToken) } else { Ok(c) },
            None => Err(AuthError::InvalidToken),
        },
        None => Err(AuthError::InvalidToken),
    }
}

/// Checks the signature of a refresh token and its expiry against `now`
/// (seconds since the Unix epoch), with no leeway.
pub fn decode_refresh_token(token: &str, secret: &[u8], now: u64) -> (r: Result<RefreshTokenClaims, AuthError>)
    ensures
        match r {
            Ok(c) => refresh_verdict(token@, secret@, now) == Ok::<RefreshClaimsView, AuthError>(c@),
            Err(e) => refresh_verdict(token@, secret@, now) == Err::<RefreshClaimsView, AuthError>(e),
        },
{
    match jwt_decode(token, secret) {
        Some(set) => match RefreshTokenClaims::from_claim_set(set) {
            Some(c) => if c.exp < now { Err(AuthError::InvalidToken) } else { Ok(c) },
            None => Err(AuthError::InvalidToken),
        },
        None => Err(AuthError::InvalidToken),
    }
}

/// Round trip: a token that carries access claims `c` under `secret` decodes
/// under the same secret, at any time up to and including its expiry, to `c`.
pub proof fn lemma_access_round_trip(token: Seq<char>, secret: Seq<u8>, c: AccessClaimsView, now: u64)
    ensures
        carries_access(token, secret, c) && now <= c.exp ==>
            access_verdict(token, secret, now) == Ok::<AccessClaimsView, AuthError>(c),
{
    crate::claims::lemma_access_set_inverse(c);
}

/// Round trip for refresh claims.
pub proof fn lemma_refresh_round_trip(token: Seq<char>, secret: Seq<u8>, c: RefreshClaimsView, now: u64)
    ensures
        carries_refresh(token, secret, c) && now <= c.exp ==>
            refresh_verdict(token, secret, now) == Ok::<RefreshClaimsView, AuthError>(c),
{
    crate::claims::lemma_refresh_set_inverse(c);
}

/// Expiry is a strict cut with no leeway: a token carrying access claims `c`
/// decodes at `now` exactly when `now <= c.exp`; one whose expiry is one
/// second in the past fails with `InvalidToken`, one whose expiry is an hour
/// ahead decodes to `c`.
pub proof fn lemma_access_expiry_boundary(token: Seq<char>, secret: Seq<u8>, c: AccessClaimsView, now: u64)
    ensures
        carries_access(token, secret, c) ==> {
            &&& (access_verdict(token, secret, now) is Ok <==> now <= c.exp)
            &&& (c.exp + 1 == now ==> access_verdict(token, secret, now) == Err::<AccessClaimsView, AuthError>(AuthError::InvalidToken))
            &&& (c.exp == now + 3600 ==> access_verdict(token, secret, now) == Ok::<AccessClaimsView, AuthError>(c))
        },
{
    crate::claims::lemma_access_set_inverse(c);
}

/// The same strict cut for refresh tokens.
pub proof fn lemma_refresh_expiry_boundary(token: Seq<char>, secret: Seq<u8>, c: RefreshClaimsView, now: u64)
    ensures
        carries_refresh(token, secret, c) ==> {
            &&& (refresh_verdict(token, secret, now) is Ok <==> now <= c.exp)
            &&& (c.exp + 1 == now ==> refresh_verdict(token, secret, now) == Err::<RefreshClaimsView, AuthError>(AuthError::InvalidToken))
            &&& (c.exp == now + 3600 ==> refresh_verdict(token, secret, now) == Ok::<RefreshClaimsView, AuthError>(c))
        },
{
    crate::claims::lemma_refresh_set_inverse(c);
}

} // verus!
