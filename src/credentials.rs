use vstd::prelude::*;

verus! {

#[verifier::external_type_specification]
#[verifier::external_body]
pub struct ExBcryptError(bcrypt::BcryptError);

/// Whether `bcrypt::verify(password, hash)` returns `Ok(true)`.
pub uninterp spec fn bcrypt_accepts(password: Seq<char>, hash: Seq<char>) -> bool;

/// Relies on `bcrypt::hash` at the crate's default cost. The salt is random;
/// whatever hash comes back, `bcrypt::verify` accepts the same password
/// against it (the crate hashes the password again with the stored salt and
/// cost and compares).
#[verifier::external_body]
pub(crate) fn hash_password(password: &str) -> (r: Result<String, bcrypt::BcryptError>)
    ensures
        r matches Ok(h) ==> bcrypt_accepts(password@, h@),
{
    bcrypt::hash(password, bcrypt::DEFAULT_COST)
}

/// Relies on `bcrypt::verify`: checks a password against a stored hash.
#[verifier::external_body]
pub(crate) fn check_password(password: &str, hash: &str) -> (r: Result<bool, bcrypt::BcryptError>)
    ensures
        (r matches Ok(true)) <==> bcrypt_accepts(password@, hash@),
{
    bcrypt::verify(password, hash)
}

} // verus!
