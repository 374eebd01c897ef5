//! Password hashing and matching, done by the `bcrypt` crate.
use vstd::prelude::*;

verus! {

/// `bcrypt::BcryptError`, carried through as an opaque value.
#[verifier::external_type_specification]
#[verifier::external_body]
pub struct ExBcryptError(bcrypt::BcryptError);

/// Whether `bcrypt::verify(password, hash)` answers `Ok(true)`: the password, hashed
/// again with the cost and salt written in `hash`, gives the digest written in `hash`.
/// The answer depends on the two texts alone.
pub uninterp spec fn bcrypt_accepts(password: Seq<char>, hash: Seq<char>) -> bool;

/// Calls `bcrypt::verify(password, hash)`.
/// Claimed: the call returns `Ok(true)` exactly when `bcrypt_accepts(password, hash)`.
/// Which of `Ok(false)` and `Err` comes back otherwise is left unsaid.
#[verifier::external_body]
fn bcrypt_verify(password: &str, hash: &str) -> (r: Result<bool, bcrypt::BcryptError>)
    ensures
        (r is Ok && r->Ok_0) == bcrypt_accepts(password@, hash@),
{
    bcrypt::verify(password, hash)
}

/// The shape of every hash `bcrypt::hash` writes at the default cost: 60 ASCII characters
/// that begin with `$2b$12$` (version, cost, then the salt and digest in bcrypt's base64).
pub open spec fn is_bcrypt_hash_text(h: Seq<char>) -> bool {
    &&& h.len() == 60
    &&& h.subrange(0, 7) == "$2b$12$"@
    &&& forall|i: int| 0 <= i < h.len() ==> (#[trigger] h[i] as u32) < 128
}

/// Calls `bcrypt::hash(password, bcrypt::DEFAULT_COST)`.
/// The salt comes from the system's random source, so the text is not named. Claimed: a
/// hash that comes back is one that `bcrypt::verify` accepts for the same password
/// (`verify` reads the cost and salt back out of the hash and re-derives the digest), and
/// that it has the shape `is_bcrypt_hash_text` describes (`HashParts::format` writes
/// `$2b$`, the two-digit cost, 22 characters of salt and 31 of digest).
/// With the default cost the call fails only when the random source fails; when that
/// happens is not stated.
#[verifier::external_body]
pub(crate) fn bcrypt_hash(password: &str) -> (r: Result<String, bcrypt::BcryptError>)
    ensures
        r matches Ok(h) ==> bcrypt_accepts(password@, h@) && is_bcrypt_hash_text(h@),
{
    bcrypt::hash(password, bcrypt::DEFAULT_COST)
}

/// Whether `password` matches the stored `hash`; an unreadable hash counts as a mismatch.
pub fn password_matches(password: &str, hash: &str) -> (r: bool)
    ensures
        r == bcrypt_accepts(password@, hash@),
{
    match bcrypt_verify(password, hash) {
        Ok(b) => b,
        Err(_) => false,
    }
}

} // verus!
