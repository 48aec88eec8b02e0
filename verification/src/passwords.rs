//! Password hashing with Argon2: storing a password as a PHC string, and
//! checking a password against a stored PHC string.
use argon2::password_hash::rand_core::OsRng;
use argon2::password_hash::{PasswordHash, PasswordHasher, PasswordVerifier, SaltString};
use argon2::Argon2;
use vstd::prelude::*;

verus! {

/// Whether `argon2::password_hash::PasswordHash::new` reads the text as a
/// PHC string.
pub uninterp spec fn phc_string_parses(phc: Seq<char>) -> bool;

/// Whether `Argon2::default().verify_password` accepts the password against
/// the PHC string.
pub uninterp spec fn argon2_verifies(password: Seq<char>, phc: Seq<char>) -> bool;

/// A password that the stored PHC string admits: the string parses and
/// Argon2 accepts the password against it.
pub open spec fn password_admitted(password: Seq<char>, phc: Seq<char>) -> bool {
    phc_string_parses(phc) && argon2_verifies(password, phc)
}

/// The most characters a password may have for Argon2 to hash it: Argon2
/// takes up to `0xFFFF_FFFF` bytes, and a character takes at most four.
pub open spec fn max_password_chars() -> int {
    0x3FFF_FFFF
}

/// Draws a fresh salt with `SaltString::generate(&mut OsRng)` and hashes the
/// password with `Argon2::default().hash_password(password, &salt)`, written
/// as a PHC string; `None` when hashing fails.
///
/// Trusted: the salt is always 16 random bytes, and Argon2 (default
/// parameters) fails only for a salt under 8 bytes or a password over
/// `0xFFFF_FFFF` bytes, so a password of at most `max_password_chars`
/// characters is hashed. A PHC string that comes back parses, and Argon2
/// accepts the same password against it (verification recomputes the hash
/// with the algorithm, version, parameters and salt that the string
/// records). The hash itself depends on the random salt and is not stated;
/// the call panics if the operating system's random source fails.
#[verifier::external_body]
pub(crate) fn argon2_hash_with_fresh_salt(password: &str) -> (phc: Option<String>)
    ensures
        password@.len() <= max_password_chars() ==> phc is Some,
        phc matches Some(phc) ==> password_admitted(password@, phc@),
{
    let salt = SaltString::generate(&mut OsRng);
    match Argon2::default().hash_password(password.as_bytes(), &salt) {
        Ok(hash) => Some(hash.to_string()),
        Err(_) => None,
    }
}

/// Calls `PasswordHash::new(phc)` and, when the text parses, checks the
/// password with `Argon2::default().verify_password`; `None` when the text
/// is no PHC string.
///
/// Trusted: the outcome is `phc_string_parses` and `argon2_verifies` of the
/// arguments.
#[verifier::external_body]
pub(crate) fn argon2_verify_password(password: &str, phc: &str) -> (r: Option<bool>)
    ensures
        r is Some <==> phc_string_parses(phc@),
        r matches Some(ok) ==> ok == argon2_verifies(password@, phc@),
{
    match PasswordHash::new(phc) {
        Ok(hash) => Some(Argon2::default().verify_password(password.as_bytes(), &hash).is_ok()),
        Err(_) => None,
    }
}

} // verus!
