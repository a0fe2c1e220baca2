use vstd::prelude::*;
use crate::claims::{AccessClaimsView, AccessTokenClaims, RefreshClaimsView, RefreshTokenClaims};
use crate::codec::{
    access_verdict, carries_access, carries_refresh, decode_refresh_token, encode_access_token,
    encode_refresh_token, never_a_refresh_token, refresh_verdict,
};
use crate::error::{AuthError, SessionError};
use crate::password::{
    create_hash, digest_well_formed, password_matches, validate_hash, verify_outcome, DEFAULT_COST,
    MAX_COST, MIN_COST,
};
use crate::validation::{check_email, check_signup_password, email_valid, signup_password_ok};
use crate::user::{NewUser, Tokens, UpdateUser, UpdateUserPayload, User, UserView};

verus! {

/// Lifetime of an access token, in seconds.
pub const ACCESS_TTL: u64 = 300;

/// Lifetime of a refresh token, in seconds.
pub const REFRESH_TTL: u64 = 604800;

/// Settings of the session service, built once at startup.
#[derive(Debug, Clone)]
pub struct AuthConfig {
    /// Signing key of access tokens.
    pub access_secret: Vec<u8>,
    /// Signing key of refresh tokens.
    pub refresh_secret: Vec<u8>,
    /// Lifetime of an access token, in seconds.
    pub access_ttl: u64,
    /// Lifetime of a refresh token, in seconds.
    pub refresh_ttl: u64,
    /// bcrypt work factor of new digests.
    pub hash_cost: u32,
}

impl AuthConfig {
    /// Settings with the given secrets, five-minute access tokens, seven-day
    /// refresh tokens and the default work factor.
    pub fn new(access_secret: Vec<u8>, refresh_secret: Vec<u8>) -> (r: AuthConfig)
        ensures
            r.access_secret@ == access_secret@,
            r.refresh_secret@ == refresh_secret@,
            r.access_ttl == ACCESS_TTL,
            r.refresh_ttl == REFRESH_TTL,
            r.hash_cost == DEFAULT_COST,
    {
        AuthConfig {
            access_secret,
            refresh_secret,
            access_ttl: ACCESS_TTL,
            refresh_ttl: REFRESH_TTL,
            hash_cost: DEFAULT_COST,
        }
    }

    /// Settings from secrets that may be missing from the configuration.
    pub fn from_secrets(access_secret: Option<Vec<u8>>, refresh_secret: Option<Vec<u8>>) -> (r: Result<AuthConfig, AuthError>)
        ensures
            (access_secret is None || refresh_secret is None) <==> r == Err::<AuthConfig, AuthError>(AuthError::MissingSecret),
            r is Ok ==> r->Ok_0.access_secret@ == access_secret->0@
                && r->Ok_0.refresh_secret@ == refresh_secret->0@
                && r->Ok_0.access_ttl == ACCESS_TTL
                && r->Ok_0.refresh_ttl == REFRESH_TTL
                && r->Ok_0.hash_cost == DEFAULT_COST,
    {
        match (access_secret, refresh_secret) {
            (Some(a), Some(b)) => Ok(AuthConfig::new(a, b)),
            _ => Err(AuthError::MissingSecret),
        }
    }
}

/// Whether a token lifetime added to `now` leaves the range of timestamps.
pub open spec fn ttl_overflows(cfg: AuthConfig, now: u64) -> bool {
    now + cfg.access_ttl > u64::MAX || now + cfg.refresh_ttl > u64::MAX
}

/// Whether the configured work factor is one bcrypt accepts.
pub open spec fn cost_ok(cfg: AuthConfig) -> bool {
    MIN_COST <= cfg.hash_cost <= MAX_COST
}

/// Whether `access` and `refresh` form the pair issued at `now` to an account:
/// access claims (id, email, role, now + access lifetime) under the access
/// secret, refresh claims (id, now + refresh lifetime, rotation counter `ctr`)
/// under the refresh secret; the access token is refused wherever a refresh
/// token is checked.
pub open spec fn issued_pair(
    access: Seq<char>,
    refresh: Seq<char>,
    cfg: AuthConfig,
    now: u64,
    id: Seq<char>,
    email: Seq<char>,
    role: Seq<char>,
    ctr: u64,
) -> bool {
    &&& !ttl_overflows(cfg, now)
    &&& carries_access(access, cfg.access_secret@, AccessClaimsView {
        sub: id,
        email,
        role,
        exp: (now + cfg.access_ttl) as u64,
    })
    &&& never_a_refresh_token(access)
    &&& carries_refresh(refresh, cfg.refresh_secret@, RefreshClaimsView {
        sub: id,
        exp: (now + cfg.refresh_ttl) as u64,
        ctr,
    })
}

/// Account `u` with its session anchor set to digest `h`.
pub open spec fn with_session(u: UserView, h: Seq<char>) -> UserView {
    UserView { hashed_rt: Some(h), ..u }
}

/// Account `u` with no session.
pub open spec fn logged_out(u: UserView) -> UserView {
    UserView { hashed_rt: None, ..u }
}

/// What login's password check says of `password` for account `u`: a pass,
/// a wrong password, or a stored digest that bcrypt cannot read.
pub open spec fn login_gate(u: UserView, password: Seq<char>) -> Option<SessionError> {
    match verify_outcome(password, u.password_hash) {
        Some(true) => None,
        Some(false) => Some(SessionError::InvalidPassword),
        None => Some(SessionError::Hashing),
    }
}

/// The checked claims of refresh token `token` at `now`, when they name
/// account `u`.
pub open spec fn redeemed_claims(u: UserView, token: Seq<char>, secret: Seq<u8>, now: u64) -> Option<RefreshClaimsView> {
    match refresh_verdict(token, secret, now) {
        Ok(c) => if c.sub == u.id { Some(c) } else { None },
        Err(_) => None,
    }
}

/// What refresh's checks say of the raw refresh token `token` for account
/// `u` at `now`: no session; a token that is invalid, expired, issued to
/// another account, or not the one whose digest is stored; a stored digest
/// that bcrypt cannot read; or a pass.
pub open spec fn refresh_gate(u: UserView, token: Seq<char>, secret: Seq<u8>, now: u64) -> Option<SessionError> {
    match u.hashed_rt {
        None => Some(SessionError::UseLoginInstead),
        Some(h) => if redeemed_claims(u, token, secret, now) is None {
            Some(SessionError::InvalidRefreshToken)
        } else {
            match verify_outcome(token, h) {
                Some(true) => None,
                Some(false) => Some(SessionError::InvalidRefreshToken),
                None => Some(SessionError::Hashing),
            }
        },
    }
}

/// What signup's checks say of an email and a password.
pub open spec fn signup_gate(email: Seq<char>, password: Seq<char>) -> Option<SessionError> {
    if !email_valid(email) {
        Some(SessionError::InvalidEmail)
    } else if !signup_password_ok(password) {
        Some(SessionError::InvalidPasswordLength)
    } else {
        None
    }
}

/// Whether `u` is an account as signup makes it from `id`, `email` and
/// `password`.
pub open spec fn signed_up(u: UserView, id: Seq<char>, email: Seq<char>, password: Seq<char>) -> bool {
    &&& u.id == id
    &&& u.email == email
    &&& u.role == "user"@
    &&& u.hashed_rt is None
    &&& digest_well_formed(u.password_hash)
    &&& password_matches(password, u.password_hash)
}

/// Whether `after`, the account `before` once a login or refresh at `now`
/// returned pair `t` with rotation counter `ctr`, differs from it only in
/// holding the session of `t`.
pub open spec fn rotated(before: UserView, after: User, t: Tokens, cfg: AuthConfig, now: u64, ctr: u64) -> bool {
    &&& issued_pair(t.access_token@, t.refresh_token@, cfg, now, before.id, before.email, before.role, ctr)
    &&& after.hashed_rt is Some
    &&& digest_well_formed(after.hashed_rt->0@)
    &&& password_matches(t.refresh_token@, after.hashed_rt->0@)
    &&& after@ == with_session(before, after.hashed_rt->0@)
}

/// Issues an access token and a refresh token with rotation counter `ctr`
/// for one account at time `now`; fails only when an expiry would leave the
/// range of timestamps.
pub fn create_tokens_pair(
    config: &AuthConfig,
    now: u64,
    id: &String,
    email: &String,
    role: &String,
    ctr: u64,
) -> (r: Result<Tokens, SessionError>)
    ensures
        r is Ok ==> issued_pair(r->Ok_0.access_token@, r->Ok_0.refresh_token@, *config, now, id@, email@, role@, ctr),
        r is Err <==> ttl_overflows(*config, now),
        r is Err ==> r == Err::<Tokens, SessionError>(SessionError::TokenCreation),
{
    let access_exp = match now.checked_add(config.access_ttl) {
        Some(e) => e,
        None => return Err(SessionError::TokenCreation),
    };
    let refresh_exp = match now.checked_add(config.refresh_ttl) {
        Some(e) => e,
        None => return Err(SessionError::TokenCreation),
    };
    let access_claims = AccessTokenClaims {
        sub: id.clone(),
        email: email.clone(),
        role: role.clone(),
        exp: access_exp,
    };
    let refresh_claims = RefreshTokenClaims { sub: id.clone(), exp: refresh_exp, ctr };
    let access_token = match encode_access_token(&access_claims, config.access_secret.as_slice()) {
        Ok(t) => t,
        Err(_) => return Err(SessionError::TokenCreation),
    };
    let refresh_token = match encode_refresh_token(&refresh_claims, config.refresh_secret.as_slice()) {
        Ok(t) => t,
        Err(_) => return Err(SessionError::TokenCreation),
    };
    Ok(Tokens { access_token, refresh_token })
}

/// Signup: checks the email's form and the password's length (6 to 50
/// characters), then makes a new account with identifier `id` (the text of a
/// fresh UUID, drawn by the caller), role "user", the digest of the password
/// at the configured work factor, and no session. Past the checks it fails
/// only when hashing does (a work factor out of range, or no salt drawn).
pub fn create_user(id: String, payload: NewUser, config: &AuthConfig) -> (r: Result<User, SessionError>)
    ensures
        signup_gate(payload.email@, payload.password@) matches Some(e) ==> r == Err::<User, SessionError>(e),
        signup_gate(payload.email@, payload.password@) is None ==>
            r is Ok || r == Err::<User, SessionError>(SessionError::Hashing),
        signup_gate(payload.email@, payload.password@) is None && !cost_ok(*config) ==>
            r == Err::<User, SessionError>(SessionError::Hashing),
        r is Ok ==> signup_gate(payload.email@, payload.password@) is None
            && signed_up(r->Ok_0@, id@, payload.email@, payload.password@),
{
    if !check_email(payload.email.as_str()) {
        return Err(SessionError::InvalidEmail);
    }
    if !check_signup_password(payload.password.as_str()) {
        return Err(SessionError::InvalidPasswordLength);
    }
    let password_hash = match create_hash(payload.password.as_str(), config.hash_cost) {
        Ok(h) => h,
        Err(e) => return Err(e),
    };
    let role = "user".to_string();
    Ok(User { id, email: payload.email, password_hash, hashed_rt: None, role })
}

/// Issues a pair with rotation counter `ctr` for `user` at `now` and stores
/// the digest of its refresh token as the account's session anchor,
/// replacing any earlier one. On failure the account is left as it was.
fn start_session(user: &mut User, config: &AuthConfig, now: u64, ctr: u64) -> (r: Result<Tokens, SessionError>)
    ensures
        r is Ok ==> rotated(old(user)@, *final(user), r->Ok_0, *config, now, ctr),
        r is Err ==> final(user)@ == old(user)@,
        ttl_overflows(*config, now) ==> r == Err::<Tokens, SessionError>(SessionError::TokenCreation),
        !ttl_overflows(*config, now) ==> r is Ok || r == Err::<Tokens, SessionError>(SessionError::Hashing),
        !ttl_overflows(*config, now) && !cost_ok(*config) ==> r == Err::<Tokens, SessionError>(SessionError::Hashing),
{
    let tokens = match create_tokens_pair(config, now, &user.id, &user.email, &user.role, ctr) {
        Ok(t) => t,
        Err(e) => return Err(e),
    };
    let digest = match create_hash(tokens.refresh_token.as_str(), config.hash_cost) {
        Ok(h) => h,
        Err(e) => return Err(e),
    };
    user.hashed_rt = Some(digest);
    Ok(tokens)
}

/// Login: checks `password` against the account's digest; on a match issues a
/// fresh pair at `now` (rotation counter 0) and makes its refresh token the
/// only redeemable one. A wrong password fails with `InvalidPassword`; past
/// the password check only an expiry out of range (`TokenCreation`) or the
/// hashing of the new refresh token (`Hashing`) can fail. Every failure
/// leaves the account as it was.
pub fn login_user(user: &mut User, password: &str, config: &AuthConfig, now: u64) -> (r: Result<Tokens, SessionError>)
    ensures
        login_gate(old(user)@, password@) matches Some(e) ==> r == Err::<Tokens, SessionError>(e),
        login_gate(old(user)@, password@) is None && ttl_overflows(*config, now) ==>
            r == Err::<Tokens, SessionError>(SessionError::TokenCreation),
        login_gate(old(user)@, password@) is None && !ttl_overflows(*config, now) ==>
            r is Ok || r == Err::<Tokens, SessionError>(SessionError::Hashing),
        login_gate(old(user)@, password@) is None && !ttl_overflows(*config, now) && !cost_ok(*config) ==>
            r == Err::<Tokens, SessionError>(SessionError::Hashing),
        r is Ok ==> login_gate(old(user)@, password@) is None
            && rotated(old(user)@, *final(user), r->Ok_0, *config, now, 0),
        r is Err ==> final(user)@ == old(user)@,
{
    match validate_hash(password, user.password_hash.as_str()) {
        Ok(true) => {},
        Ok(false) => return Err(SessionError::InvalidPassword),
        Err(e) => return Err(e),
    }
    start_session(user, config, now, 0)
}

/// Refresh: redeems `token`, the raw bearer refresh token presented for
/// `user`. Fails with `UseLoginInstead` when the account holds no session;
/// with `InvalidRefreshToken` when the token does not check out under the
/// refresh secret at `now`, names another account, or is not the one whose
/// digest is stored. Otherwise issues a fresh pair at `now` whose refresh
/// token carries the next rotation counter (so it differs from `token`) and
/// rotates the stored digest; past the checks only an expiry or counter out
/// of range (`TokenCreation`) or the hashing of the new refresh token
/// (`Hashing`) can fail. Every failure leaves the account as it was.
pub fn refresh_token(user: &mut User, token: &str, config: &AuthConfig, now: u64) -> (r: Result<Tokens, SessionError>)
    ensures
        refresh_gate(old(user)@, token@, config.refresh_secret@, now) matches Some(e) ==>
            r == Err::<Tokens, SessionError>(e),
        refresh_gate(old(user)@, token@, config.refresh_secret@, now) is None ==> {
            let c = redeemed_claims(old(user)@, token@, config.refresh_secret@, now)->0;
            &&& (ttl_overflows(*config, now) || c.ctr == u64::MAX) ==>
                r == Err::<Tokens, SessionError>(SessionError::TokenCreation)
            &&& !(ttl_overflows(*config, now) || c.ctr == u64::MAX) ==>
                r is Ok || r == Err::<Tokens, SessionError>(SessionError::Hashing)
            &&& !(ttl_overflows(*config, now) || c.ctr == u64::MAX) && !cost_ok(*config) ==>
                r == Err::<Tokens, SessionError>(SessionError::Hashing)
            &&& r is Ok ==> c.ctr < u64::MAX
                && rotated(old(user)@, *final(user), r->Ok_0, *config, now, (c.ctr + 1) as u64)
        },
        r is Ok ==> refresh_gate(old(user)@, token@, config.refresh_secret@, now) is None
            && r->Ok_0.refresh_token@ != token@,
        r is Err ==> final(user)@ == old(user)@,
{
    let stored = match &user.hashed_rt {
        None => return Err(SessionError::UseLoginInstead),
        Some(h) => h.clone(),
    };
    let claims = match decode_refresh_token(token, config.refresh_secret.as_slice(), now) {
        Ok(c) => c,
        Err(_) => return Err(SessionError::InvalidRefreshToken),
    };
    if !(claims.sub == user.id) {
        return Err(SessionError::InvalidRefreshToken);
    }
    match validate_hash(token, stored.as_str()) {
        Ok(true) => {},
        Ok(false) => return Err(SessionError::InvalidRefreshToken),
        Err(e) => return Err(e),
    }
    let ctr = match claims.ctr.checked_add(1) {
        Some(c) => c,
        None => return Err(SessionError::TokenCreation),
    };
    let ghost before = user@;
    let r = start_session(user, config, now, ctr);
    proof {
        if r is Ok {
            let issued = RefreshClaimsView { sub: before.id, exp: (now + config.refresh_ttl) as u64, ctr };
            crate::claims::lemma_refresh_set_inverse(issued);
        }
    }
    r
}

/// Logout: the account no longer holds a session. Logging out twice is the
/// same as once.
pub fn logout(user: &mut User)
    ensures
        final(user)@ == logged_out(old(user)@),
{
    user.hashed_rt = None;
}

/// What an account update's checks say: that something is to change, that a
/// new password comes with the current one, and that the current one matches
/// the stored digest.
pub open spec fn update_gate(user: UserView, payload: UpdateUserPayload) -> Option<SessionError> {
    if payload.email is None && payload.new_password is None {
        Some(SessionError::NothingToUpdate)
    } else if payload.new_password is Some && payload.current_password is None {
        Some(SessionError::CurrentPasswordRequired)
    } else if payload.new_password is Some {
        match verify_outcome(payload.current_password->0@, user.password_hash) {
            Some(true) => None,
            Some(false) => Some(SessionError::InvalidPassword),
            None => Some(SessionError::Hashing),
        }
    } else {
        None
    }
}

/// Account update: which columns to write for a request that changes the
/// email, the password, or both. A new password needs the current one, which
/// must match the stored digest; the new one is stored as its digest. Past
/// the checks, a request that changes only the email succeeds, and one that
/// changes the password fails only when hashing does.
pub fn update_user_email_or_password(user: &User, payload: UpdateUserPayload, cost: u32) -> (r: Result<UpdateUser, SessionError>)
    ensures
        update_gate(user@, payload) matches Some(e) ==> r == Err::<UpdateUser, SessionError>(e),
        update_gate(user@, payload) is None && payload.new_password is None ==> r is Ok,
        update_gate(user@, payload) is None && payload.new_password is Some ==>
            r is Ok || r == Err::<UpdateUser, SessionError>(SessionError::Hashing),
        update_gate(user@, payload) is None && payload.new_password is Some && !(MIN_COST <= cost <= MAX_COST) ==>
            r == Err::<UpdateUser, SessionError>(SessionError::Hashing),
        r is Ok ==> update_gate(user@, payload) is None
            && crate::claims::opt_view(r->Ok_0.email) == crate::claims::opt_view(payload.email)
            && (payload.new_password is None <==> r->Ok_0.password_hash is None)
            && (payload.new_password is Some ==> digest_well_formed(r->Ok_0.password_hash->0@)
                && password_matches(payload.new_password->0@, r->Ok_0.password_hash->0@)),
{
    if payload.email.is_none() && payload.new_password.is_none() {
        return Err(SessionError::NothingToUpdate);
    }
    if payload.new_password.is_some() && payload.current_password.is_none() {
        return Err(SessionError::CurrentPasswordRequired);
    }
    let password_hash = match (&payload.current_password, &payload.new_password) {
        (Some(current), Some(new)) => {
            match validate_hash(current.as_str(), user.password_hash.as_str()) {
                Ok(true) => {},
                Ok(false) => return Err(SessionError::InvalidPassword),
                Err(e) => return Err(e),
            }
            match create_hash(new.as_str(), cost) {
                Ok(h) => Some(h),
                Err(e) => return Err(e),
            }
        },
        _ => None,
    };
    Ok(UpdateUser { email: payload.email, password_hash })
}

/// Signup then login: an account that signup made from `id`, `email` and
/// `password` passes login's password check with `password`, and the access
/// token of a pair issued to it at `now` decodes, under the access secret at
/// that time, to claims whose subject is `id`.
pub proof fn lemma_signup_then_login(
    u: UserView,
    id: Seq<char>,
    email: Seq<char>,
    password: Seq<char>,
    access: Seq<char>,
    refresh: Seq<char>,
    cfg: AuthConfig,
    now: u64,
    ctr: u64,
)
    ensures
        signed_up(u, id, email, password) ==> login_gate(u, password) is None,
        signed_up(u, id, email, password) && issued_pair(access, refresh, cfg, now, u.id, u.email, u.role, ctr) ==>
            access_verdict(access, cfg.access_secret@, now) is Ok
            && access_verdict(access, cfg.access_secret@, now)->Ok_0.sub == id,
{
    let c = AccessClaimsView { sub: u.id, email: u.email, role: u.role, exp: (now + cfg.access_ttl) as u64 };
    crate::codec::lemma_access_round_trip(access, cfg.access_secret@, c, now);
}

/// Rotation: after a login or refresh at `now` that issued pair `t`, the new
/// refresh token passes refresh's checks at any time `later` up to its
/// expiry, and a token `earlier` is refused as not the stored one whenever
/// bcrypt rejects it against the new digest. That bcrypt rejects the token
/// just redeemed is assumed here, not shown: the digest keeps a bounded
/// number of bits, and only the first 72 bytes of a token reach it.
pub proof fn lemma_rotation(
    before: UserView,
    after: User,
    t: Tokens,
    cfg: AuthConfig,
    now: u64,
    ctr: u64,
    later: u64,
    earlier: Seq<char>,
)
    ensures
        rotated(before, after, t, cfg, now, ctr) && later <= now + cfg.refresh_ttl ==>
            refresh_gate(after@, t.refresh_token@, cfg.refresh_secret@, later) is None,
        rotated(before, after, t, cfg, now, ctr) && verify_outcome(earlier, after.hashed_rt->0@) == Some(false) ==>
            refresh_gate(after@, earlier, cfg.refresh_secret@, later) == Some(SessionError::InvalidRefreshToken),
{
    let c = RefreshClaimsView { sub: before.id, exp: (now + cfg.refresh_ttl) as u64, ctr };
    crate::codec::lemma_refresh_round_trip(t.refresh_token@, cfg.refresh_secret@, c, later);
}

/// Logout ends the session: afterwards every refresh token, however valid
/// before, is refused with `UseLoginInstead`.
pub proof fn lemma_logout_ends_session(u: UserView, token: Seq<char>, secret: Seq<u8>, now: u64)
    ensures
        refresh_gate(logged_out(u), token, secret, now) == Some(SessionError::UseLoginInstead),
{
}

} // verus!
