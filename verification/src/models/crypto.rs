//! Hashing, password hashing and random numbers, as the outside crates provide them.
use argon2::password_hash::PasswordHasher;
use argon2::password_hash::Error as PasswordHashError;
use argon2::PasswordVerifier;
use rand::{Rng, SeedableRng};
use sha2::Digest;
use vstd::prelude::*;

verus! {

/// The error that password hashing and verification report.
#[verifier::external_type_specification]
#[verifier::external_body]
pub struct ExPasswordHashError(PasswordHashError);

/// Names the SHA-256 digest of `data`.
pub uninterp spec fn sha256_of(data: Seq<u8>) -> Seq<u8>;

/// Names whether `password` (its UTF-8 bytes) matches the PHC-format `hash`, as Argon2
/// verification decides.
pub uninterp spec fn argon2_matches(password: Seq<char>, hash: Seq<char>) -> bool;

/// Calls `sha2::Sha256::digest`: the result is `sha256_of(data)`, 32 bytes long (the digest's
/// fixed output size).
#[verifier::external_body]
pub(crate) fn sha256_digest(data: &[u8]) -> (r: Vec<u8>)
    ensures
        r@ == sha256_of(data@),
        r@.len() == 32,
{
    sha2::Sha256::digest(data).to_vec()
}

/// Draws a `u128` from `rand_chacha::ChaCha20Rng` seeded from the operating system. Nothing is
/// claimed of the value.
#[verifier::external_body]
pub(crate) fn random_u128() -> u128 {
    let mut rng = rand_chacha::ChaCha20Rng::from_entropy();
    rng.gen::<u128>()
}

/// Calls `argon2::Argon2::default().hash_password` with a salt drawn by
/// `SaltString::generate(&mut OsRng)`, and renders the PHC string. The salt is random, so the
/// string itself is not named; what is claimed is that the password verifies against it, since
/// verification recomputes the hash with the same parameters and salt.
#[verifier::external_body]
pub(crate) fn argon2_hash(password: &str) -> (r: Result<String, PasswordHashError>)
    ensures
        r matches Ok(h) ==> argon2_matches(password@, h@),
{
    let salt = argon2::password_hash::SaltString::generate(&mut rand::rngs::OsRng);
    argon2::Argon2::default().hash_password(password.as_bytes(), &salt).map(|h| h.to_string())
}

/// Parses `hash` with `argon2::PasswordHash::new` and checks `password` against it with
/// `Argon2::default().verify_password`. The contract claims that the outcome is `Ok` exactly
/// when `argon2_matches(password@, hash@)`; which error comes back otherwise is left unsaid.
#[verifier::external_body]
pub(crate) fn argon2_verify(password: &str, hash: &str) -> (r: Result<(), PasswordHashError>)
    ensures
        r is Ok <==> argon2_matches(password@, hash@),
{
    let parsed = argon2::PasswordHash::new(hash)?;
    argon2::Argon2::default().verify_password(password.as_bytes(), &parsed)
}

/// Renders a password-hashing error with its `Display` impl. Nothing is claimed of the text.
#[verifier::external_body]
pub(crate) fn password_hash_error_text(e: &PasswordHashError) -> String {
    e.to_string()
}

} // verus!
