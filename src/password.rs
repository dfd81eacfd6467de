use vstd::prelude::*;

verus! {

/// `bcrypt::verify(password, hash)` returns `Ok(true)`: the password,
/// hashed again with the cost and salt written in `hash`, gives `hash`.
pub uninterp spec fn bcrypt_verifies(password: Seq<char>, hash: Seq<char>) -> bool;

/// Relies on `bcrypt::hash` at `bcrypt::DEFAULT_COST`. Each call draws a
/// fresh random salt, so the text itself is not named; `bcrypt::verify`
/// recomputes the hash from the salt it holds and so accepts the password.
/// It fails only where the operating system gives no randomness.
#[verifier::external_body]
pub(crate) fn hash_password(password: &str) -> (r: Option<String>)
    ensures
        r is Some ==> bcrypt_verifies(password@, r->0@),
{
    bcrypt::hash(password, bcrypt::DEFAULT_COST).ok()
}

/// Relies on `bcrypt::verify`; a stored hash that it cannot read counts as
/// a mismatch.
#[verifier::external_body]
pub(crate) fn verify_password(password: &str, hash: &str) -> (r: bool)
    ensures
        r == bcrypt_verifies(password@, hash@),
{
    match bcrypt::verify(password, hash) {
        Ok(b) => b,
        Err(_) => false,
    }
}

} // verus!
