//! Credential hashing and verification, built on the Argon2 password hash.
//!
//! The three executable functions here wrap the `argon2` crate and are the
//! only trusted boundary of the credential logic. Their contracts speak of
//! three named results: what the hash derivation returns, whether a string
//! parses as a hash, and whether a password reproduces a stored hash.

use vstd::prelude::*;

use argon2::password_hash::rand_core::OsRng;
use argon2::password_hash::{PasswordHash, SaltString};
use argon2::{Argon2, PasswordHasher, PasswordVerifier};

verus! {

/// The error type of the `argon2` crate's password-hash operations.
#[verifier::external_type_specification]
#[verifier::external_body]
pub struct ExPasswordHashError(argon2::password_hash::Error);

/// The PHC hash string that Argon2 with its default parameters derives from a
/// password and a B64 salt string, or `None` where the derivation rejects the
/// salt. The derivation reads nothing but its two arguments.
pub uninterp spec fn hash_of(password: Seq<char>, salt: Seq<char>) -> Option<Seq<char>>;

/// Whether a string parses as a well-formed PHC hash string.
pub uninterp spec fn is_wellformed_hash(hash: Seq<char>) -> bool;

/// Whether recomputing the hash function described by the well-formed hash
/// string `hash` over `password` reproduces the digest stored in it.
pub uninterp spec fn verify_of(password: Seq<char>, hash: Seq<char>) -> bool;

/// Relies on `SaltString::generate`: a fresh random 16-byte salt, B64-encoded.
/// The result is random, so nothing is assumed of its value; every claim about
/// a hash derived from it comes from `hash_password`'s own contract.
#[verifier::external_body]
pub fn generate_salt() -> (r: String)
{
    SaltString::generate(&mut OsRng).as_str().to_string()
}

/// Relies on `Argon2::hash_password` (and `SaltString::from_b64` to read the
/// salt): the returned PHC string is a function of password and salt alone; it
/// parses back as a well-formed hash; verification reproduces its digest from
/// exactly the password that produced it, and from no other.
#[verifier::external_body]
pub fn hash_password(password: &str, salt: &str) -> (r: Result<
    String,
    argon2::password_hash::Error,
>)
    ensures
        r is Ok <==> hash_of(password@, salt@) is Some,
        r is Ok ==> hash_of(password@, salt@) == Some(r->Ok_0@),
        r is Ok ==> is_wellformed_hash(r->Ok_0@),
        r is Ok ==> r->Ok_0@.len() > 0,
        r is Ok ==> verify_of(password@, r->Ok_0@),
        r is Ok ==> forall|other: Seq<char>| other != password@ ==> !verify_of(other, r->Ok_0@),
{
    let salt = SaltString::from_b64(salt)?;
    let hash = Argon2::default().hash_password(password.as_bytes(), &salt)?;
    Ok(hash.to_string())
}

/// Relies on `PasswordHash::new` (the parse, whose success `is_wellformed_hash`
/// names) and `Argon2::verify_password` (the recomputation, whose outcome
/// `verify_of` names). Both read nothing but their arguments.
#[verifier::external_body]
pub fn verify_password(password: &str, hash: &str) -> (r: Result<
    bool,
    argon2::password_hash::Error,
>)
    ensures
        r is Ok <==> is_wellformed_hash(hash@),
        r is Ok ==> r->Ok_0 == verify_of(password@, hash@),
{
    let parsed = PasswordHash::new(hash)?;
    Ok(Argon2::default().verify_password(password.as_bytes(), &parsed).is_ok())
}

} // verus!
