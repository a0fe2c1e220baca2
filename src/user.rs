use vstd::prelude::*;

verus! {

/// A stored account: identity, credentials and the session anchor.
#[derive(Debug, Clone)]
pub struct User {
    /// Hyphenated text of the account's UUID.
    pub id: String,
    pub email: String,
    /// bcrypt digest of the password; never sent to clients.
    pub password_hash: String,
    /// bcrypt digest of the one refresh token that may be redeemed, or `None`
    /// when the account holds no session.
    pub hashed_rt: Option<String>,
    pub role: String,
}

pub struct UserView {
    pub id: Seq<char>,
    pub email: Seq<char>,
    pub password_hash: Seq<char>,
    pub hashed_rt: Option<Seq<char>>,
    pub role: Seq<char>,
}

impl View for User {
    type V = UserView;

    open spec fn view(&self) -> UserView {
        UserView {
            id: self.id@,
            email: self.email@,
            password_hash: self.password_hash@,
            hashed_rt: crate::claims::opt_view(self.hashed_rt),
            role: self.role@,
        }
    }
}

/// What may be shown of an account.
#[derive(Debug, Clone)]
pub struct SafeUser {
    pub id: String,
    pub email: String,
    pub role: String,
}

/// Signup payload: the email and the plaintext password.
#[derive(Debug, Clone)]
pub struct NewUser {
    pub email: String,
    pub password: String,
}

/// Login payload.
#[derive(Debug, Clone)]
pub struct LoginUser {
    pub email: String,
    pub password: String,
}

/// Lookup payload.
#[derive(Debug, Clone)]
pub struct UserEmail {
    pub email: String,
}

/// Account update request: a new email, a new password, or both; a new
/// password needs the current one.
#[derive(Debug, Clone)]
pub struct UpdateUserPayload {
    pub email: Option<String>,
    pub current_password: Option<String>,
    pub new_password: Option<String>,
}

/// The columns an account update writes; `None` leaves a column as it is.
#[derive(Debug, Clone)]
pub struct UpdateUser {
    pub email: Option<String>,
    pub password_hash: Option<String>,
}

/// The pair handed to a client on login or refresh.
#[derive(Debug, Clone, PartialEq, Eq)]
pub struct Tokens {
    pub access_token: String,
    pub refresh_token: String,
}

/// An access token alone.
#[derive(Debug, Clone)]
pub struct AccessToken {
    pub access_token: String,
}

/// Coarse authorization tag carried in access claims.
#[derive(Debug, Clone, Copy, PartialEq, Eq, Structural)]
pub enum UserRole {
    User,
    Seller,
    Admin,
}

impl UserRole {
    /// The tag as stored and carried in claims.
    pub fn as_str(&self) -> (r: &'static str)
        ensures
            *self == UserRole::User ==> r@ == "user"@,
            *self == UserRole::Seller ==> r@ == "seller"@,
            *self == UserRole::Admin ==> r@ == "admin"@,
    {
        match self {
            UserRole::User => "user",
            UserRole::Seller => "seller",
            UserRole::Admin => "admin",
        }
    }
}

impl User {
    /// The account without its credentials and session anchor.
    pub fn to_safe(&self) -> (r: SafeUser)
        ensures
            r.id@ == self.id@,
            r.email@ == self.email@,
            r.role@ == self.role@,
    {
        SafeUser { id: self.id.clone(), email: self.email.clone(), role: self.role.clone() }
    }
}

} // verus!
