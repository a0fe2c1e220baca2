use vstd::prelude::*;

verus! {

/// Why a request guard rejected a request, or why the codec could not work.
#[derive(Debug, Clone, Copy, PartialEq, Eq, Structural)]
pub enum AuthError {
    WrongCredentials,
    MissingCredentials,
    TokenCreation,
    InvalidToken,
    FailedTask,
    MissingSecret,
}

/// Why a session operation (signup, login, refresh, account update) failed.
#[derive(Debug, Clone, Copy, PartialEq, Eq, Structural)]
pub enum SessionError {
    /// The password does not match the stored digest.
    InvalidPassword,
    /// The account holds no active session: a refresh token cannot be redeemed.
    UseLoginInstead,
    /// The presented refresh token is not the one currently stored.
    InvalidRefreshToken,
    /// An account update named neither a new email nor a new password.
    NothingToUpdate,
    /// A new password was given without the current one.
    CurrentPasswordRequired,
    /// The email is not in the form of an email address.
    InvalidEmail,
    /// The password is shorter than 6 characters, or too long.
    InvalidPasswordLength,
    /// The password hasher failed (bad cost, malformed digest, no randomness).
    Hashing,
    /// A token could not be signed, or its expiry does not fit in a timestamp.
    TokenCreation,
}

pub open spec fn auth_status_spec(e: AuthError) -> u16 {
    match e {
        AuthError::MissingSecret => 500,
        AuthError::FailedTask => 500,
        AuthError::WrongCredentials => 401,
        AuthError::MissingCredentials => 400,
        AuthError::TokenCreation => 500,
        AuthError::InvalidToken => 401,
    }
}

pub open spec fn session_status_spec(e: SessionError) -> u16 {
    match e {
        SessionError::InvalidPassword => 401,
        SessionError::UseLoginInstead => 401,
        SessionError::InvalidRefreshToken => 401,
        SessionError::NothingToUpdate => 400,
        SessionError::CurrentPasswordRequired => 401,
        SessionError::InvalidEmail => 400,
        SessionError::InvalidPasswordLength => 400,
        SessionError::Hashing => 500,
        SessionError::TokenCreation => 500,
    }
}

impl AuthError {
    /// The HTTP status that answers a request rejected with this error.
    pub fn status_code(&self) -> (r: u16)
        ensures
            r == auth_status_spec(*self),
    {
        match self {
            AuthError::MissingSecret => 500,
            AuthError::FailedTask => 500,
            AuthError::WrongCredentials => 401,
            AuthError::MissingCredentials => 400,
            AuthError::TokenCreation => 500,
            AuthError::InvalidToken => 401,
        }
    }

    /// The text sent with the status.
    pub fn message(&self) -> (r: &'static str)
        ensures
            *self == AuthError::MissingSecret ==> r@ == "Token secret must be set"@,
            *self == AuthError::FailedTask ==> r@ == "Task has failed"@,
            *self == AuthError::WrongCredentials ==> r@ == "Wrong credentials"@,
            *self == AuthError::MissingCredentials ==> r@ == "Missing credentials"@,
            *self == AuthError::TokenCreation ==> r@ == "Token creation error"@,
            *self == AuthError::InvalidToken ==> r@ == "Invalid token"@,
    {
        match self {
            AuthError::MissingSecret => "Token secret must be set",
            AuthError::FailedTask => "Task has failed",
            AuthError::WrongCredentials => "Wrong credentials",
            AuthError::MissingCredentials => "Missing credentials",
            AuthError::TokenCreation => "Token creation error",
            AuthError::InvalidToken => "Invalid token",
        }
    }
}

impl SessionError {
    /// The HTTP status that answers a request failed with this error.
    pub fn status_code(&self) -> (r: u16)
        ensures
            r == session_status_spec(*self),
    {
        match self {
            SessionError::InvalidPassword => 401,
            SessionError::UseLoginInstead => 401,
            SessionError::InvalidRefreshToken => 401,
            SessionError::NothingToUpdate => 400,
            SessionError::CurrentPasswordRequired => 401,
            SessionError::InvalidEmail => 400,
            SessionError::InvalidPasswordLength => 400,
            SessionError::Hashing => 500,
            SessionError::TokenCreation => 500,
        }
    }

    /// The text sent with the status.
    pub fn message(&self) -> (r: &'static str)
        ensures
            *self == SessionError::InvalidPassword ==> r@ == "Invalid password"@,
            *self == SessionError::UseLoginInstead ==> r@ == "Please, use login instead"@,
            *self == SessionError::InvalidRefreshToken ==> r@ == "Invalid or expired refresh token"@,
            *self == SessionError::NothingToUpdate ==> r@ == "At least one field to update must be provided"@,
            *self == SessionError::CurrentPasswordRequired ==> r@ == "Current password is required to update password"@,
            *self == SessionError::InvalidEmail ==> r@ == "Invalid email"@,
            *self == SessionError::InvalidPasswordLength ==> r@ == "Your password should be at least 6 symbols long"@,
            *self == SessionError::Hashing ==> r@ == "Password hashing failed"@,
            *self == SessionError::TokenCreation ==> r@ == "Token creation error"@,
    {
        match self {
            SessionError::InvalidPassword => "Invalid password",
            SessionError::UseLoginInstead => "Please, use login instead",
            SessionError::InvalidRefreshToken => "Invalid or expired refresh token",
            SessionError::NothingToUpdate => "At least one field to update must be provided",
            SessionError::CurrentPasswordRequired => "Current password is required to update password",
            SessionError::InvalidEmail => "Invalid email",
            SessionError::InvalidPasswordLength => "Your password should be at least 6 symbols long",
            SessionError::Hashing => "Password hashing failed",
            SessionError::TokenCreation => "Token creation error",
        }
    }
}

} // verus!
