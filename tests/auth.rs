use qa_auth::account::{Account, AccountId, NewAccount};
use qa_auth::error::{Error, StoreError};
use qa_auth::handlers::{login, login_at, register, registration_reply};
use qa_auth::password::{hash_password, verify_password};
use qa_auth::token::{
    authenticate, authenticate_at, bearer_token, claims_at, issue_token, issue_token_at,
    verify_token, verify_token_at, TOKEN_LIFETIME,
};

const KEY: &[u8] = b"a signing key for tests";
const NOW: i64 = 1_700_000_000;

fn stored_account(id: i32, email: &str, password: &str) -> Account {
    let mut account = register(NewAccount { email: email.to_string(), password: password.to_string() });
    account.id = Some(AccountId(id));
    account
}

#[test]
fn hashed_password_verifies() {
    let h = hash_password(b"hunter2");
    assert!(h.starts_with("$argon2"));
    assert_eq!(verify_password(&h, b"hunter2"), Ok(true));
}

#[test]
fn other_password_does_not_verify() {
    let h = hash_password(b"hunter2");
    assert_eq!(verify_password(&h, b"hunter3"), Ok(false));
    assert_eq!(verify_password(&h, b""), Ok(false));
}

#[test]
fn two_hashes_of_one_password_differ() {
    let a = hash_password(b"hunter2");
    let b = hash_password(b"hunter2");
    assert_ne!(a, b);
    assert_eq!(verify_password(&b, b"hunter2"), Ok(true));
}

#[test]
fn malformed_hash_is_an_error() {
    assert_eq!(verify_password("not a hash", b"hunter2"), Err(Error::ArgonLibraryError));
}

#[test]
fn claims_span_one_day() {
    let c = claims_at(AccountId(7), NOW);
    assert_eq!(c.account_id, 7);
    assert_eq!(c.iat, NOW);
    assert_eq!(c.nbf, NOW);
    assert_eq!(c.exp, NOW + 86400);
    assert_eq!(TOKEN_LIFETIME, 86400);
    assert_eq!(claims_at(AccountId(1), i64::MAX - 10).exp, i64::MAX);
}

#[test]
fn issued_token_verifies_to_its_session() {
    let t = issue_token_at(AccountId(42), KEY, NOW);
    assert_eq!(t.matches('.').count(), 2);
    let s = verify_token_at(&t, KEY, NOW + 10).unwrap();
    assert_eq!(s.account_id, AccountId(42));
    assert_eq!(s.nbf, NOW);
    assert_eq!(s.exp - s.nbf, 86400);
}

#[test]
fn token_from_the_clock_verifies() {
    let t = issue_token(AccountId(-3), KEY);
    let s = verify_token(t, KEY).unwrap();
    assert_eq!(s.account_id, AccountId(-3));
    assert_eq!(s.exp - s.nbf, 86400);
}

#[test]
fn token_is_refused_at_and_after_expiry() {
    let t = issue_token_at(AccountId(42), KEY, NOW);
    assert!(verify_token_at(&t, KEY, NOW + 86399).is_ok());
    assert_eq!(verify_token_at(&t, KEY, NOW + 86400), Err(Error::CannotDecryptToken));
    assert_eq!(verify_token_at(&t, KEY, NOW + 90000), Err(Error::CannotDecryptToken));
}

#[test]
fn token_is_refused_before_not_before() {
    let t = issue_token_at(AccountId(42), KEY, NOW);
    assert_eq!(verify_token_at(&t, KEY, NOW - 1), Err(Error::CannotDecryptToken));
}

#[test]
fn token_under_another_key_is_refused() {
    let t = issue_token_at(AccountId(42), KEY, NOW);
    assert_eq!(verify_token_at(&t, b"another key", NOW), Err(Error::CannotDecryptToken));
}

#[test]
fn altered_token_is_refused() {
    let t = issue_token_at(AccountId(42), KEY, NOW);
    let bytes = t.as_bytes();
    for i in 0..bytes.len() {
        let mut altered = bytes.to_vec();
        altered[i] = if bytes[i] == b'A' { b'B' } else { b'A' };
        let altered = String::from_utf8(altered).unwrap();
        assert_eq!(verify_token_at(&altered, KEY, NOW + 1), Err(Error::CannotDecryptToken), "byte {}", i);
    }
}

#[test]
fn bearer_prefix_is_optional() {
    assert_eq!(bearer_token("Bearer abc.def.ghi"), "abc.def.ghi");
    assert_eq!(bearer_token("abc.def.ghi"), "abc.def.ghi");
    assert_eq!(bearer_token("Bearer"), "Bearer");
    assert_eq!(bearer_token(""), "");
}

#[test]
fn guard_accepts_a_login_token() {
    let t = issue_token_at(AccountId(5), KEY, NOW);
    assert_eq!(authenticate_at(&t, KEY, NOW + 1).unwrap().account_id, AccountId(5));
    let header = format!("Bearer {}", t);
    assert_eq!(authenticate_at(&header, KEY, NOW + 1).unwrap().account_id, AccountId(5));
}

#[test]
fn guard_refuses_garbage() {
    let e = authenticate("garbage", KEY).unwrap_err();
    assert_eq!(e, Error::CannotDecryptToken);
    assert_eq!(e.status_code(), 401);
}

#[test]
fn registration_stores_a_hash() {
    let a = register(NewAccount { email: "a@b.c".to_string(), password: "hunter2".to_string() });
    assert!(a.id.is_none());
    assert_eq!(a.email, "a@b.c");
    assert_ne!(a.password, "hunter2");
    assert_eq!(verify_password(&a.password, b"hunter2"), Ok(true));
}

#[test]
fn registration_replies() {
    assert_eq!(registration_reply(Ok(AccountId(1))), Ok("Account added".to_string()));
    let dup = registration_reply(Err(StoreError::DuplicateEmail)).unwrap_err();
    assert_eq!(dup, Error::DuplicateAccount);
    assert_eq!(dup.status_code(), 409);
    assert_eq!(registration_reply(Err(StoreError::Failed)), Err(Error::DatabaseQueryError));
}

#[test]
fn login_with_right_password_gives_a_token() {
    let stored = stored_account(11, "a@b.c", "hunter2");
    let t = login_at(Ok(stored), "hunter2", KEY, NOW).unwrap();
    assert_eq!(t.matches('.').count(), 2);
    assert_eq!(verify_token_at(&t, KEY, NOW).unwrap().account_id, AccountId(11));
}

#[test]
fn login_with_wrong_password_is_refused() {
    let stored = stored_account(11, "a@b.c", "hunter2");
    let e = login_at(Ok(stored), "WRONG", KEY, NOW).unwrap_err();
    assert_eq!(e, Error::WrongPassword);
    assert_eq!(e.status_code(), 401);
}

#[test]
fn login_with_unknown_email_is_refused_alike() {
    assert_eq!(login_at(Err(StoreError::NotFound), "hunter2", KEY, NOW), Err(Error::WrongPassword));
    assert_eq!(login_at(Err(StoreError::Failed), "hunter2", KEY, NOW), Err(Error::DatabaseQueryError));
}

#[test]
fn login_with_malformed_stored_hash_fails() {
    let stored = Account { id: Some(AccountId(1)), email: "a@b.c".to_string(), password: "plain".to_string() };
    let e = login_at(Ok(stored), "plain", KEY, NOW).unwrap_err();
    assert_eq!(e, Error::ArgonLibraryError);
    assert_eq!(e.status_code(), 500);
}

#[test]
fn register_then_login_then_guard() {
    let stored = stored_account(23, "a@b.c", "hunter2");
    let t = login(Ok(stored), "hunter2", KEY).unwrap();
    let session = authenticate(&format!("Bearer {}", t), KEY).unwrap();
    assert_eq!(session.account_id, AccountId(23));
    assert_eq!(session.exp - session.nbf, 86400);
}
