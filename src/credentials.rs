use vstd::prelude::*;
use argon2::password_hash::{rand_core::OsRng, PasswordHasher, SaltString};
use argon2::PasswordVerifier;

verus! {

/// Whether argon2 accepts `password` against the PHC hash string `phc`.
pub uninterp spec fn password_verifies(password: Seq<char>, phc: Seq<char>) -> bool;

/// Relies on argon2::PasswordHash::new and Argon2's `verify_password`: the
/// hash string is parsed, the password hashed again with the salt and
/// parameters it names, and the outputs compared. A hash string that does
/// not parse matches no password.
#[verifier::external_body]
pub(crate) fn verify_password(password: &str, phc: &str) -> (r: bool)
    ensures
        r == password_verifies(password@, phc@),
{
    match argon2::PasswordHash::new(phc) {
        Ok(hash) => argon2::Argon2::default().verify_password(password.as_bytes(), &hash).is_ok(),
        Err(_) => false,
    }
}

/// `s` starts like an Argon2id PHC hash string.
pub open spec fn has_argon2id_prefix(s: Seq<char>) -> bool {
    s.len() >= 10 && s.subrange(0, 10) == "$argon2id$"@
}

/// Longest password, in characters, that argon2 hashes: a character takes at
/// most four UTF-8 bytes, and argon2 takes up to `0xFFFF_FFFF` bytes.
pub const MAX_PASSWORD_CHARS: usize = 0x3fff_ffff;

/// Relies on Argon2's `hash_password` with default parameters and a salt from
/// SaltString::generate over the operating system's generator. The PHC string
/// it gives records that salt and those parameters, so `verify_password`
/// accepts the same password against it; written out it begins with
/// `$argon2id$`, the default algorithm's identifier. With the default parameters and a
/// generated salt the one input check that can fail is argon2's password
/// length limit. The salt generator panics where the operating system's
/// random generator fails.
#[verifier::external_body]
pub(crate) fn hash_password(password: &str) -> (r: Option<String>)
    ensures
        password@.len() <= MAX_PASSWORD_CHARS ==> r is Some,
        r matches Some(h) ==> password_verifies(password@, h@) && has_argon2id_prefix(h@),
{
    let salt = SaltString::generate(OsRng);
    match argon2::Argon2::default().hash_password(password.as_bytes(), &salt) {
        Ok(hash) => Some(hash.to_string()),
        Err(_) => None,
    }
}

} // verus!
