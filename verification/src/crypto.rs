//! Keyed hashing, constant-time comparison, password hashing and random
//! choice, from the `hmac`, `sha2`, `subtle`, `argon2` and `rand` crates.

use vstd::prelude::*;
use argon2::{PasswordHasher, PasswordVerifier};
use hmac::Mac;
use rand::Rng;
use subtle::ConstantTimeEq;

verus! {

/// The HMAC-SHA256 tag of `message` under `key`, as the `hmac` and `sha2`
/// crates compute it.
pub uninterp spec fn hmac_sha256(key: Seq<u8>, message: Seq<u8>) -> Seq<u8>;

/// Length of an HMAC-SHA256 tag in bytes.
pub const HMAC_SHA256_LEN: usize = 32;

/// `Hmac::<Sha256>::new_from_slice`, `update` and `finalize`. HMAC takes a
/// key of any length, so a tag always comes back; the contract names it and
/// claims its length, that of a SHA-256 digest.
#[verifier::external_body]
pub(crate) fn hmac_sha256_tag(key: &[u8], message: &[u8]) -> (tag: Option<Vec<u8>>)
    ensures
        tag is Some,
        tag matches Some(bytes) ==> bytes@ == hmac_sha256(key@, message@),
        tag matches Some(bytes) ==> bytes@.len() == HMAC_SHA256_LEN,
{
    let mut mac = hmac::Hmac::<sha2::Sha256>::new_from_slice(key).ok()?;
    mac.update(message);
    Some(mac.finalize().into_bytes().to_vec())
}

/// `ConstantTimeEq::ct_eq` on byte slices: true exactly where both hold the
/// same bytes. Its running time depends on the lengths alone.
#[verifier::external_body]
pub(crate) fn constant_time_eq(left: &[u8], right: &[u8]) -> (same: bool)
    ensures
        same == (left@ == right@),
{
    left.ct_eq(right).into()
}

/// The error of the `password_hash` interface of the `argon2` crate,
/// carried through as it is.
#[verifier::external_type_specification]
#[verifier::external_body]
pub struct ExPasswordHashError(argon2::password_hash::Error);

/// What checking `password` against the hash string `hash` gives: `None`
/// where `PasswordHash::new` of the `argon2` crate does not read `hash` as a
/// hash string, else whether `Argon2::default().verify_password` accepts
/// `password` for it.
pub uninterp spec fn argon2_verdict(password: Seq<u8>, hash: Seq<char>) -> Option<bool>;

/// `SaltString::generate` and `Argon2::default().hash_password`: hashes
/// `password` with Argon2id under a fresh random salt. The hash string that
/// comes back differs from call to call; the contract claims only that
/// checking `password` against it succeeds.
#[verifier::external_body]
pub(crate) fn argon2_hash(password: &[u8]) -> (hashed: Result<
    String,
    argon2::password_hash::Error,
>)
    ensures
        hashed matches Ok(hash) ==> argon2_verdict(password@, hash@) == Some(true),
{
    let salt = argon2::password_hash::SaltString::generate(
        &mut argon2::password_hash::rand_core::OsRng,
    );
    Ok(argon2::Argon2::default().hash_password(password, &salt)?.to_string())
}

/// `PasswordHash::new` and `Argon2::default().verify_password`: fails where
/// `hash` is no hash string, else tells whether `password` is accepted for
/// it. The contract names what comes back.
#[verifier::external_body]
pub(crate) fn argon2_verify(password: &[u8], hash: &str) -> (checked: Result<
    bool,
    argon2::password_hash::Error,
>)
    ensures
        checked is Ok <==> argon2_verdict(password@, hash@) is Some,
        checked matches Ok(accepted) ==> argon2_verdict(password@, hash@) == Some(accepted),
{
    let parsed = argon2::PasswordHash::new(hash)?;
    Ok(argon2::Argon2::default().verify_password(password, &parsed).is_ok())
}

/// `Rng::gen_range` on `rand::thread_rng()`: a random number below `bound`.
#[verifier::external_body]
pub(crate) fn random_below(bound: usize) -> (chosen: usize)
    requires
        bound > 0,
    ensures
        chosen < bound,
{
    rand::thread_rng().gen_range(0..bound)
}

} // verus!
