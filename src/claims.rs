use vstd::prelude::*;

verus! {

/// Claims of a short-lived access token: who the bearer is and until when.
#[derive(Debug, Clone, PartialEq, Eq)]
pub struct AccessTokenClaims {
    pub sub: String,
    pub email: String,
    pub role: String,
    /// Expiry, in seconds since the Unix epoch.
    pub exp: u64,
}

/// Claims of a long-lived refresh token.
#[derive(Debug, Clone, PartialEq, Eq)]
pub struct RefreshTokenClaims {
    pub sub: String,
    /// Expiry, in seconds since the Unix epoch.
    pub exp: u64,
    /// Rotation counter: 0 for the token issued at login, one more than the
    /// redeemed token's for each token issued by a refresh.
    pub ctr: u64,
}

pub struct AccessClaimsView {
    pub sub: Seq<char>,
    pub email: Seq<char>,
    pub role: Seq<char>,
    pub exp: u64,
}

pub struct RefreshClaimsView {
    pub sub: Seq<char>,
    pub exp: u64,
    pub ctr: u64,
}

/// The claims object carried inside a signed token, each field present or not.
#[derive(Debug, Clone)]
pub struct ClaimSet {
    pub sub: Option<String>,
    pub email: Option<String>,
    pub role: Option<String>,
    pub exp: Option<u64>,
    pub ctr: Option<u64>,
}

pub struct ClaimSetView {
    pub sub: Option<Seq<char>>,
    pub email: Option<Seq<char>>,
    pub role: Option<Seq<char>>,
    pub exp: Option<u64>,
    pub ctr: Option<u64>,
}

pub open spec fn opt_view(o: Option<String>) -> Option<Seq<char>> {
    match o {
        Some(s) => Some(s@),
        None => None,
    }
}

impl View for AccessTokenClaims {
    type V = AccessClaimsView;

    open spec fn view(&self) -> AccessClaimsView {
        AccessClaimsView { sub: self.sub@, email: self.email@, role: self.role@, exp: self.exp }
    }
}

impl View for RefreshTokenClaims {
    type V = RefreshClaimsView;

    open spec fn view(&self) -> RefreshClaimsView {
        RefreshClaimsView { sub: self.sub@, exp: self.exp, ctr: self.ctr }
    }
}

impl View for ClaimSet {
    type V = ClaimSetView;

    open spec fn view(&self) -> ClaimSetView {
        ClaimSetView {
            sub: opt_view(self.sub),
            email: opt_view(self.email),
            role: opt_view(self.role),
            exp: self.exp,
            ctr: self.ctr,
        }
    }
}

/// The claims object that carries access claims `c`.
pub open spec fn access_set(c: AccessClaimsView) -> ClaimSetView {
    ClaimSetView {
        sub: Some(c.sub),
        email: Some(c.email),
        role: Some(c.role),
        exp: Some(c.exp),
        ctr: None,
    }
}

/// The claims object that carries refresh claims `c`.
pub open spec fn refresh_set(c: RefreshClaimsView) -> ClaimSetView {
    ClaimSetView { sub: Some(c.sub), email: None, role: None, exp: Some(c.exp), ctr: Some(c.ctr) }
}

/// Access claims read from a claims object: present when subject, email, role
/// and expiry all are.
pub open spec fn access_of(s: ClaimSetView) -> Option<AccessClaimsView> {
    if s.sub is Some && s.email is Some && s.role is Some && s.exp is Some {
        Some(AccessClaimsView { sub: s.sub->0, email: s.email->0, role: s.role->0, exp: s.exp->0 })
    } else {
        None
    }
}

/// Refresh claims read from a claims object: present when subject, expiry and
/// rotation counter are.
pub open spec fn refresh_of(s: ClaimSetView) -> Option<RefreshClaimsView> {
    if s.sub is Some && s.exp is Some && s.ctr is Some {
        Some(RefreshClaimsView { sub: s.sub->0, exp: s.exp->0, ctr: s.ctr->0 })
    } else {
        None
    }
}

pub proof fn lemma_access_set_inverse(c: AccessClaimsView)
    ensures
        access_of(access_set(c)) == Some(c),
{
}

pub proof fn lemma_refresh_set_inverse(c: RefreshClaimsView)
    ensures
        refresh_of(refresh_set(c)) == Some(c),
{
}

impl AccessTokenClaims {
    pub fn to_claim_set(&self) -> (r: ClaimSet)
        ensures
            r@ == access_set(self@),
    {
        ClaimSet {
            sub: Some(self.sub.clone()),
            email: Some(self.email.clone()),
            role: Some(self.role.clone()),
            exp: Some(self.exp),
            ctr: None,
        }
    }

    pub fn from_claim_set(s: ClaimSet) -> (r: Option<AccessTokenClaims>)
        ensures
            match r {
                Some(c) => access_of(s@) == Some(c@),
                None => access_of(s@) is None,
            },
    {
        match (s.sub, s.email, s.role, s.exp) {
            (Some(sub), Some(email), Some(role), Some(exp)) => Some(
                AccessTokenClaims { sub, email, role, exp },
            ),
            _ => None,
        }
    }
}

impl RefreshTokenClaims {
    pub fn to_claim_set(&self) -> (r: ClaimSet)
        ensures
            r@ == refresh_set(self@),
    {
        ClaimSet {
            sub: Some(self.sub.clone()),
            email: None,
            role: None,
            exp: Some(self.exp),
            ctr: Some(self.ctr),
        }
    }

    pub fn from_claim_set(s: ClaimSet) -> (r: Option<RefreshTokenClaims>)
        ensures
            match r {
                Some(c) => refresh_of(s@) == Some(c@),
                None => refresh_of(s@) is None,
            },
    {
        match (s.sub, s.exp, s.ctr) {
            (Some(sub), Some(exp), Some(ctr)) => Some(RefreshTokenClaims { sub, exp, ctr }),
            _ => None,
        }
    }
}

} // verus!
