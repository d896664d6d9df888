use vstd::prelude::*;
use rand::Rng;
use crate::error::Error;

verus! {

/// The encoded hash that Argon2 with its default parameters derives from a
/// password and a salt.
pub uninterp spec fn argon2_encoding(password: Seq<u8>, salt: Seq<u8>) -> Seq<char>;

/// What checking a password against an encoded Argon2 hash gives: `None` when
/// the encoding is malformed, else whether the password matches.
pub uninterp spec fn argon2_verdict(encoded: Seq<char>, password: Seq<u8>) -> Option<bool>;

/// Relies on rand's thread-local generator (`thread_rng().gen::<[u8; 32]>()`),
/// a cryptographically secure source, for 32 random bytes.
#[verifier::external_body]
fn random_salt() -> (r: Vec<u8>)
    ensures
        r@.len() == 32,
{
    rand::thread_rng().gen::<[u8; 32]>().to_vec()
}

/// Relies on argon2::hash_encoded with `Config::default()`: it fails only on a
/// password longer than `u32::MAX` bytes or a salt shorter than 8 or longer
/// than `u32::MAX` bytes, and the hash it returns verifies against the same
/// password.
#[verifier::external_body]
fn argon2_hash(password: &[u8], salt: &[u8]) -> (r: Option<String>)
    ensures
        password@.len() <= u32::MAX && 8 <= salt@.len() <= u32::MAX ==> r is Some,
        r matches Some(h) ==> h@ == argon2_encoding(password@, salt@),
        r matches Some(h) ==> argon2_verdict(h@, password@) == Some(true),
{
    argon2::hash_encoded(password, salt, &argon2::Config::default()).ok()
}

/// Relies on argon2::verify_encoded: it parses the encoding, recomputes the
/// digest and compares; it fails only on a malformed encoding.
#[verifier::external_body]
fn argon2_verify(encoded: &str, password: &[u8]) -> (r: Option<bool>)
    ensures
        r == argon2_verdict(encoded@, password@),
{
    argon2::verify_encoded(encoded, password).ok()
}

/// Hashes a password under a fresh 32-byte random salt. The result is the
/// self-describing Argon2 encoding, and it verifies against the password.
pub fn hash_password(password: &[u8]) -> (r: String)
    requires
        password@.len() <= u32::MAX,
    ensures
        exists|salt: Seq<u8>| salt.len() == 32 && r@ == argon2_encoding(password@, salt),
        argon2_verdict(r@, password@) == Some(true),
{
    let salt = random_salt();
    match argon2_hash(password, salt.as_slice()) {
        Some(h) => h,
        None => {
            proof {
                assert(false);
            }
            String::new()
        },
    }
}

/// What checking a password against a stored hash yields.
pub open spec fn password_check(encoded: Seq<char>, password: Seq<u8>) -> Result<bool, Error> {
    match argon2_verdict(encoded, password) {
        Some(b) => Ok(b),
        None => Err(Error::ArgonLibraryError),
    }
}

/// Checks a password against an encoded hash. A mismatch is `Ok(false)`; only
/// a malformed encoding is an error.
pub fn verify_password(hash: &str, password: &[u8]) -> (r: Result<bool, Error>)
    ensures
        r == password_check(hash@, password@),
{
    match argon2_verify(hash, password) {
        Some(b) => Ok(b),
        None => Err(Error::ArgonLibraryError),
    }
}

} // verus!
