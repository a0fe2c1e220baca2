use vstd::prelude::*;
use crate::error::SessionError;

verus! {

/// bcrypt's error, carried opaquely from the hashing calls.
#[verifier::external_type_specification]
#[verifier::external_body]
pub struct ExBcryptError(bcrypt::BcryptError);

/// What bcrypt's check of `password` against `digest` gives: `Some(true)` on
/// a match, `Some(false)` on a mismatch, `None` when the digest is malformed
/// (not bcrypt's 60-character form, or a cost outside 4..=31).
pub uninterp spec fn verify_outcome(password: Seq<char>, digest: Seq<char>) -> Option<bool>;

/// Whether bcrypt accepts `password` against the stored `digest`.
pub open spec fn password_matches(password: Seq<char>, digest: Seq<char>) -> bool {
    verify_outcome(password, digest) == Some(true)
}

/// Whether `digest` is well formed: bcrypt checks every password against it
/// without failing.
pub open spec fn digest_well_formed(digest: Seq<char>) -> bool {
    forall|q: Seq<char>| #[trigger] verify_outcome(q, digest) is Some
}

/// The decimal digit `d` (0..=9) as a character.
pub open spec fn digit_char(d: u32) -> char {
    if d == 0 { '0' } else if d == 1 { '1' } else if d == 2 { '2' } else if d == 3 { '3' }
    else if d == 4 { '4' } else if d == 5 { '5' } else if d == 6 { '6' } else if d == 7 { '7' }
    else if d == 8 { '8' } else { '9' }
}

/// The start of a digest made at work factor `cost` (below 100): version
/// `2b`, then the cost in two digits, between `$` signs.
pub open spec fn digest_prefix(cost: u32) -> Seq<char> {
    seq!['$', '2', 'b', '$', digit_char(cost / 10), digit_char(cost % 10), '$']
}

/// Smallest work factor the hasher accepts.
pub const MIN_COST: u32 = 4;

/// Largest work factor the hasher accepts.
pub const MAX_COST: u32 = 31;

/// Work factor used when none is configured.
pub const DEFAULT_COST: u32 = 12;

/// Relies on bcrypt::hash: it draws a fresh salt from the OS (which may fail),
/// fails unless `cost` lies in 4..=31, and returns a 60-character digest
/// written as `$2b$`, the cost in two digits, `$`, salt and hash, in the form
/// that bcrypt::verify reads, which verify accepts for `password`.
#[verifier::external_body]
fn bcrypt_hash(password: &str, cost: u32) -> (r: Result<String, bcrypt::BcryptError>)
    ensures
        r is Ok ==> MIN_COST <= cost <= MAX_COST,
        r is Ok ==> r->Ok_0@.len() == 60,
        r is Ok ==> r->Ok_0@.subrange(0, 7) == digest_prefix(cost),
        r is Ok ==> digest_well_formed(r->Ok_0@),
        r is Ok ==> verify_outcome(password@, r->Ok_0@) == Some(true),
{
    bcrypt::hash(password, cost)
}

/// Relies on bcrypt::verify: recomputes the digest of `password` with the salt
/// and cost stored in `digest` and compares; fails only on a malformed digest.
#[verifier::external_body]
fn bcrypt_verify(password: &str, digest: &str) -> (r: Result<bool, bcrypt::BcryptError>)
    ensures
        match r {
            Ok(b) => verify_outcome(password@, digest@) == Some(b),
            Err(_) => verify_outcome(password@, digest@) is None,
        },
{
    bcrypt::verify(password, digest)
}

/// Salted, adaptive one-way digest of `password` at work factor `cost`. Fails
/// with `Hashing` when the cost is out of range or no salt can be drawn.
pub fn create_hash(password: &str, cost: u32) -> (r: Result<String, SessionError>)
    ensures
        r is Ok ==> r->Ok_0@.len() == 60
            && r->Ok_0@.subrange(0, 7) == digest_prefix(cost)
            && digest_well_formed(r->Ok_0@)
            && password_matches(password@, r->Ok_0@),
        !(MIN_COST <= cost <= MAX_COST) ==> r == Err::<String, SessionError>(SessionError::Hashing),
        r is Err ==> r == Err::<String, SessionError>(SessionError::Hashing),
{
    match bcrypt_hash(password, cost) {
        Ok(digest) => Ok(digest),
        Err(_) => Err(SessionError::Hashing),
    }
}

/// Checks `password` against a stored digest; fails with `Hashing` exactly
/// when the digest is malformed.
pub fn validate_hash(password: &str, digest: &str) -> (r: Result<bool, SessionError>)
    ensures
        match r {
            Ok(b) => verify_outcome(password@, digest@) == Some(b),
            Err(e) => verify_outcome(password@, digest@) is None && e == SessionError::Hashing,
        },
{
    match bcrypt_verify(password, digest) {
        Ok(ok) => Ok(ok),
        Err(_) => Err(SessionError::Hashing),
    }
}

} // verus!
