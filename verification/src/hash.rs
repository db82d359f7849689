use vstd::prelude::*;
use crate::error::AuthError;
use rand::Rng;

verus! {

/// What `argon2::hash_encoded` returns for a given plaintext and salt under
/// this crate's fixed cost parameters (`argon2::Config::default()`).
pub uninterp spec fn argon2_encoded(pwd: Seq<char>, salt: Seq<u8>) -> Seq<char>;

/// What `argon2::verify_encoded` decides for a stored record and a plaintext:
/// `None` when the record does not decode (a property of the record alone),
/// `Some(b)` when it decodes and recomputing the digest with the embedded
/// parameters and comparing in constant time yields `b`. Relies on the
/// 64-bit parameter limits of the crate.
pub uninterp spec fn argon2_verify(encoded: Seq<char>, pwd: Seq<char>) -> Option<bool>;

/// The salt a well-formed encoded record embeds; `argon2::hash_encoded`
/// writes the salt into the record it returns, base64-encoded between `$`
/// separators, so the record determines it.
pub uninterp spec fn argon2_salt(encoded: Seq<char>) -> Seq<u8>;

#[verifier::external_type_specification]
#[verifier::external_body]
pub struct ExArgon2Error(argon2::Error);

/// Relies on rand's `thread_rng().gen()`: 32 bytes from the thread-local
/// cryptographically secure generator. The bytes are random, so nothing
/// beyond the count is promised of them.
#[verifier::external_body]
fn random_salt() -> (salt: Vec<u8>)
    ensures
        salt@.len() == 32,
{
    let bytes: [u8; 32] = rand::thread_rng().gen();
    bytes.to_vec()
}

/// Relies on `argon2::hash_encoded` with `Config::default()`: with a salt of
/// 8 to 2^32 - 1 bytes and a plaintext within the crate's length limit every
/// parameter passes validation and the call returns `Ok`. The encoded record
/// is a nonempty `$`-separated string that embeds the salt, and verifying it
/// against the same plaintext succeeds.
#[verifier::external_body]
fn hash_encoded(pwd: &str, salt: &[u8]) -> (r: Result<String, argon2::Error>)
    requires
        8 <= salt@.len() <= 0xFFFF_FFFF,
        pwd@.len() <= 0x3FFF_FFFF,
    ensures
        r is Ok,
        r matches Ok(enc) ==> enc@ == argon2_encoded(pwd@, salt@) && enc@.len() > 0
            && argon2_salt(enc@) == salt@ && argon2_verify(enc@, pwd@) == Some(true),
{
    argon2::hash_encoded(pwd.as_bytes(), salt, &argon2::Config::default())
}

/// Relies on `argon2::verify_encoded`: returns `Err` exactly when the record
/// does not decode, and otherwise the constant-time digest comparison.
#[verifier::external_body]
fn verify_encoded(encoded: &str, pwd: &str) -> (r: Result<bool, argon2::Error>)
    requires
        pwd@.len() <= 0x3FFF_FFFF,
    ensures
        (match argon2_verify(encoded@, pwd@) {
            Some(b) => r == Ok::<bool, argon2::Error>(b),
            None => r is Err,
        }),
{
    argon2::verify_encoded(encoded, pwd.as_bytes())
}

/// Derives a salted credential record from a plaintext password: a fresh
/// random salt, then the memory-hard hash under the fixed cost parameters.
/// The record is the encoding of the plaintext under the 32-byte salt it
/// embeds, and always verifies against the plaintext it was derived from.
pub fn hash_password(plain: &str) -> (r: Result<String, AuthError>)
    requires
        plain@.len() <= 0x3FFF_FFFF,
    ensures
        r is Ok,
        r matches Ok(h) ==> h@.len() > 0 && argon2_verify(h@, plain@) == Some(true)
            && argon2_salt(h@).len() == 32 && h@ == argon2_encoded(plain@, argon2_salt(h@)),
{
    let salt = random_salt();
    match hash_encoded(plain, salt.as_slice()) {
        Ok(h) => Ok(h),
        Err(_) => Err(AuthError::Hashing),
    }
}

/// Verifies a plaintext against a stored credential record. A malformed
/// record is a `Hashing` error, distinguished from "password incorrect".
pub fn verify_password(encoded: &str, plain: &str) -> (r: Result<bool, AuthError>)
    requires
        plain@.len() <= 0x3FFF_FFFF,
    ensures
        (match argon2_verify(encoded@, plain@) {
            Some(b) => r == Ok::<bool, AuthError>(b),
            None => r == Err::<bool, AuthError>(AuthError::Hashing),
        }),
{
    match verify_encoded(encoded, plain) {
        Ok(b) => Ok(b),
        Err(_) => Err(AuthError::Hashing),
    }
}

/// Two encoded records that embed different salts are different records, so
/// repeated hashing of one plaintext yields distinct records as long as the
/// random source never repeats a salt (freshness of the salts themselves is
/// a property of the random source, not provable here).
pub proof fn lemma_distinct_salts_distinct_records(e1: Seq<char>, e2: Seq<char>)
    requires
        argon2_salt(e1) != argon2_salt(e2),
    ensures
        e1 != e2,
{
}

} // verus!
