use vstd::prelude::*;

verus! {

/// Whether `email` has the form of an email address (the HTML5 form).
pub uninterp spec fn email_valid(email: Seq<char>) -> bool;

/// Shortest password a new account accepts.
pub const MIN_PASSWORD_LEN: usize = 6;

/// Longest password a new account accepts.
pub const MAX_PASSWORD_LEN: usize = 50;

/// Relies on validator::ValidateEmail::validate_email for text: its verdict
/// depends on the text alone, and an empty text is refused.
#[verifier::external_body]
fn validate_email_text(email: &str) -> (r: bool)
    ensures
        r == email_valid(email@),
        email@.len() == 0 ==> !r,
{
    validator::ValidateEmail::validate_email(&email)
}

/// Whether `email` has the form of an email address.
pub fn check_email(email: &str) -> (r: bool)
    ensures
        r == email_valid(email@),
{
    validate_email_text(email)
}

/// Whether a new account's password has an accepted length, in characters.
pub open spec fn signup_password_ok(password: Seq<char>) -> bool {
    MIN_PASSWORD_LEN <= password.len() <= MAX_PASSWORD_LEN
}

/// Length check of a new account's password.
pub fn check_signup_password(password: &str) -> (r: bool)
    ensures
        r == signup_password_ok(password@),
{
    let n = password.unicode_len();
    MIN_PASSWORD_LEN <= n && n <= MAX_PASSWORD_LEN
}

} // verus!
