//! Password hashing: salted Argon2 digests in PHC string form.

use vstd::prelude::*;

verus! {

/// Whether a text is a password hash in PHC string form, as the hashing
/// crates parse it.
pub uninterp spec fn phc_parses(digest: Seq<char>) -> bool;

/// Whether Argon2 accepts `password` for a digest in PHC string form: the
/// digest is computed anew with the digest's own parameters and salt, and
/// compared.
pub uninterp spec fn argon2_accepts(password: Seq<char>, digest: Seq<char>) -> bool;

/// The bytes that a salt decodes to as B64, if it decodes.
pub uninterp spec fn salt_bytes(salt: argon2::password_hash::SaltString) -> Option<Seq<u8>>;

/// The number of characters up to which every password can be hashed: no
/// text of so many characters has more bytes than Argon2 takes.
pub const MAX_PASSWORD_CHARS: usize = 0x3fff_ffff;

/// The number of bytes of a salt that is drawn for hashing.
pub const SALT_BYTES: usize = 16;

/// The least number of bytes of a salt that Argon2 takes.
pub const MIN_SALT_BYTES: usize = 8;

/// Whether `password` verifies against `digest`: the digest is a PHC string
/// and Argon2 accepts the password for it. A digest that is no PHC string
/// verifies for no password.
pub open spec fn password_verifies(password: Seq<char>, digest: Seq<char>) -> bool {
    phc_parses(digest) && argon2_accepts(password, digest)
}

/// Outside type: a random salt in its text form.
#[verifier::external_type_specification]
#[verifier::external_body]
pub struct ExSaltString(argon2::password_hash::SaltString);

/// Outside type: the error of the password hashing crates.
#[verifier::external_type_specification]
#[verifier::external_body]
pub struct ExPasswordHashError(argon2::password_hash::Error);

/// Hashing a password failed.
#[derive(Debug, Clone, Copy, PartialEq, Eq, Structural)]
pub struct HashingFailed;

/// Trusted: `SaltString::generate` on the operating system's random source.
/// The salt is random; what holds of every draw is that it is the B64 form of
/// 16 bytes, and so decodes to 16 bytes.
#[verifier::external_body]
fn fresh_salt() -> (salt: argon2::password_hash::SaltString)
    ensures
        salt_bytes(salt).is_some(),
        salt_bytes(salt).unwrap().len() == SALT_BYTES,
{
    argon2::password_hash::SaltString::generate(&mut argon2::password_hash::rand_core::OsRng)
}

/// Trusted: `Argon2::default().hash_password`, printed as a PHC string. Two
/// things are claimed. A digest, once produced, verifies for the password it
/// was made from, which is how the crate's verifier recomputes and compares
/// it. And under the default parameters the hasher refuses only a salt that
/// does not decode, a salt of under 8 bytes and a password of over
/// 0xFFFFFFFF bytes, so a salt that decodes to 8 bytes or more and a password
/// of at most `MAX_PASSWORD_CHARS` characters give a digest.
#[verifier::external_body]
fn argon2_hash(password: &str, salt: &argon2::password_hash::SaltString) -> (digest: Result<
    String,
    argon2::password_hash::Error,
>)
    ensures
        digest.is_ok() ==> password_verifies(password@, digest.unwrap()@),
        salt_bytes(*salt).is_some() && salt_bytes(*salt).unwrap().len() >= MIN_SALT_BYTES
            && password@.len() <= MAX_PASSWORD_CHARS ==> digest.is_ok(),
{
    match argon2::PasswordHasher::hash_password(&argon2::Argon2::default(), password.as_bytes(), salt) {
        Ok(hash) => Ok(hash.to_string()),
        Err(error) => Err(error),
    }
}

/// Trusted: `PasswordHash::new` on the digest and, where it parses,
/// `Argon2::default().verify_password` on the result. Nothing is returned
/// exactly where the digest does not parse; else whether the password was
/// accepted.
#[verifier::external_body]
fn argon2_verify(password: &str, digest: &str) -> (accepted: Option<bool>)
    ensures
        accepted.is_some() == phc_parses(digest@),
        accepted.is_some() ==> accepted.unwrap() == argon2_accepts(password@, digest@),
{
    match argon2::PasswordHash::new(digest) {
        Ok(hash) => Some(
            argon2::PasswordVerifier::verify_password(
                &argon2::Argon2::default(),
                password.as_bytes(),
                &hash,
            ).is_ok(),
        ),
        Err(_) => None,
    }
}

/// Hashes a password under a fresh random salt. A password of at most
/// `MAX_PASSWORD_CHARS` characters is always hashed; for a longer one the
/// hasher decides (see `finish_hash`). A digest that comes back verifies for
/// the password.
pub fn hash_password(password: &str) -> (digest: Result<String, HashingFailed>)
    ensures
        password@.len() <= MAX_PASSWORD_CHARS ==> digest.is_ok(),
        digest.is_ok() ==> password_verifies(password@, digest.unwrap()@),
{
    let salt = fresh_salt();
    finish_hash(argon2_hash(password, &salt))
}

/// Checks a password against a stored digest. A malformed digest is a failed
/// check, never a fault.
pub fn verify_password(password: &str, digest: &str) -> (accepted: bool)
    ensures
        accepted == password_verifies(password@, digest@),
        !phc_parses(digest@) ==> !accepted,
{
    match argon2_verify(password, digest) {
        Some(accepted) => accepted,
        None => false,
    }
}

/// What hashing returns for each outcome of the hasher: the digest as the
/// hasher printed it, or `HashingFailed` where the hasher reported an error.
pub open spec fn hashed(outcome: Result<String, argon2::password_hash::Error>) -> Result<
    String,
    HashingFailed,
> {
    match outcome {
        Ok(digest) => Ok(digest),
        Err(_) => Err(HashingFailed),
    }
}

/// Turns the outcome of the hasher into the result of hashing.
pub fn finish_hash(outcome: Result<String, argon2::password_hash::Error>) -> (digest: Result<
    String,
    HashingFailed,
>)
    ensures
        digest == hashed(outcome),
{
    match outcome {
        Ok(digest) => Ok(digest),
        Err(_) => Err(HashingFailed),
    }
}

} // verus!
