use vstd::prelude::*;
use vstd::string::*;
use vstd::utf8::encode_utf8;
use crate::account::{Account, AccountId, NewAccount};
use crate::error::{Error, StoreError};
use crate::password::{argon2_encoding, argon2_verdict, hash_password, password_check, verify_password};
use crate::token::{expiry_of, issue_token_at, issued_token, now_seconds, valid_for_lifetime};

verus! {

/// Turns submitted credentials into the account to store: no id yet, the
/// same email, and the password replaced by its encoded hash under a fresh
/// 32-byte salt. The stored hash verifies against the submitted password.
pub fn register(account: NewAccount) -> (r: Account)
    requires
        encode_utf8(account.password@).len() <= u32::MAX,
    ensures
        r.id is None,
        r.email@ == account.email@,
        exists|salt: Seq<u8>|
            salt.len() == 32 && r.password@ == argon2_encoding(encode_utf8(account.password@), salt),
        argon2_verdict(r.password@, encode_utf8(account.password@)) == Some(true),
{
    let hashed = hash_password(account.password.as_str().as_bytes());
    Account { id: None, email: account.email, password: hashed }
}

/// What a registration replies, given what the store made of the insert.
pub open spec fn registration_outcome(stored: Result<AccountId, StoreError>) -> Result<Seq<char>, Error> {
    match stored {
        Ok(_) => Ok("Account added"@),
        Err(StoreError::DuplicateEmail) => Err(Error::DuplicateAccount),
        Err(_) => Err(Error::DatabaseQueryError),
    }
}

/// The reply to a registration: `"Account added"` once stored,
/// `DuplicateAccount` when the email is taken, `DatabaseQueryError` otherwise.
pub fn registration_reply(stored: Result<AccountId, StoreError>) -> (r: Result<String, Error>)
    ensures
        reply_matches(r, registration_outcome(stored)),
{
    match stored {
        Ok(_) => Ok(String::from_str("Account added")),
        Err(StoreError::DuplicateEmail) => Err(Error::DuplicateAccount),
        Err(_) => Err(Error::DatabaseQueryError),
    }
}

/// What a login replies at instant `now`, given what the store found for the
/// email: an unknown email and a wrong password both give `WrongPassword`; a
/// malformed stored hash gives `ArgonLibraryError`; a match gives the token
/// issued for the account at `now`.
pub open spec fn login_outcome(
    stored: Result<Account, StoreError>,
    password: Seq<char>,
    key: Seq<u8>,
    now: i64,
) -> Result<Seq<char>, Error> {
    match stored {
        Err(StoreError::NotFound) => Err(Error::WrongPassword),
        Err(_) => Err(Error::DatabaseQueryError),
        Ok(a) => match password_check(a.password@, encode_utf8(password)) {
            Err(e) => Err(e),
            Ok(false) => Err(Error::WrongPassword),
            Ok(true) => Ok(issued_token(a.id.unwrap(), key, now)),
        },
    }
}

/// Whether a reply agrees with the expected outcome.
pub open spec fn reply_matches(r: Result<String, Error>, expected: Result<Seq<char>, Error>) -> bool {
    match r {
        Ok(t) => expected == Ok::<Seq<char>, Error>(t@),
        Err(e) => expected == Err::<Seq<char>, Error>(e),
    }
}

/// Decides a login at instant `now` from the account that the store found
/// for the presented email and the presented password. When the password
/// matches the stored hash, the token returned is accepted by the request
/// guard for the stored account from `now` until its expiry.
pub fn login_at(stored: Result<Account, StoreError>, password: &str, key: &[u8], now: i64) -> (r:
    Result<String, Error>)
    requires
        stored matches Ok(a) ==> a.id is Some,
    ensures
        reply_matches(r, login_outcome(stored, password@, key@, now)),
        stored is Ok && argon2_verdict(stored->Ok_0.password@, encode_utf8(password@)) == Some(true)
            && expiry_of(now) >= 0 ==> r is Ok && valid_for_lifetime(
            r->Ok_0@,
            key@,
            stored->Ok_0.id.unwrap(),
            now,
        ),
{
    match stored {
        Err(StoreError::NotFound) => Err(Error::WrongPassword),
        Err(_) => Err(Error::DatabaseQueryError),
        Ok(account) => match verify_password(account.password.as_str(), password.as_bytes()) {
            Err(e) => Err(e),
            Ok(false) => Err(Error::WrongPassword),
            Ok(true) => match account.id {
                Some(id) => Ok(issue_token_at(id, key, now)),
                None => Err(Error::DatabaseQueryError),
            },
        },
    }
}

/// Decides a login at the current time.
pub fn login(stored: Result<Account, StoreError>, password: &str, key: &[u8]) -> (r: Result<
    String,
    Error,
>)
    requires
        stored matches Ok(a) ==> a.id is Some,
    ensures
        exists|now: i64| reply_matches(r, #[trigger] login_outcome(stored, password@, key@, now)),
{
    let now = now_seconds();
    login_at(stored, password, key, now)
}

} // verus!
