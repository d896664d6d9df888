use qa_auth::account::{Account, AccountId, NewAccount};
use qa_auth::error::{Error, StoreError};
use qa_auth::handlers::{login_at, register, registration_reply};
use qa_auth::store::AccountStore;
use qa_auth::token::authenticate_at;

const KEY: &[u8] = b"store test key";
const NOW: i64 = 1_700_000_000;

fn account(email: &str, password: &str) -> Account {
    Account { id: None, email: email.to_string(), password: password.to_string() }
}

#[test]
fn ids_are_assigned_in_order() {
    let mut s = AccountStore::new();
    assert_eq!(s.add_account(account("a@b.c", "h1")), Ok(AccountId(1)));
    assert_eq!(s.add_account(account("d@e.f", "h2")), Ok(AccountId(2)));
    let a = s.get_account("d@e.f").unwrap();
    assert_eq!(a.id, Some(AccountId(2)));
    assert_eq!(a.email, "d@e.f");
    assert_eq!(a.password, "h2");
}

#[test]
fn duplicate_email_is_refused() {
    let mut s = AccountStore::new();
    assert!(s.add_account(account("a@b.c", "h1")).is_ok());
    assert_eq!(s.add_account(account("a@b.c", "h2")), Err(StoreError::DuplicateEmail));
    assert_eq!(s.get_account("a@b.c").unwrap().password, "h1");
}

#[test]
fn unknown_email_is_not_found() {
    let s = AccountStore::new();
    assert_eq!(s.get_account("a@b.c").unwrap_err(), StoreError::NotFound);
}

#[test]
fn second_registration_of_an_email_conflicts() {
    let mut s = AccountStore::new();
    let creds = || NewAccount { email: "a@b.c".to_string(), password: "hunter2".to_string() };
    assert_eq!(registration_reply(s.add_account(register(creds()))), Ok("Account added".to_string()));
    let e = registration_reply(s.add_account(register(creds()))).unwrap_err();
    assert_eq!(e, Error::DuplicateAccount);
    assert_eq!(e.status_code(), 409);
}

#[test]
fn registered_account_logs_in_and_passes_the_guard() {
    let mut s = AccountStore::new();
    s.add_account(account("x@y.z", "h")).unwrap();
    let creds = NewAccount { email: "a@b.c".to_string(), password: "hunter2".to_string() };
    let id = s.add_account(register(creds)).unwrap();
    let token = login_at(s.get_account("a@b.c"), "hunter2", KEY, NOW).unwrap();
    assert_eq!(token.matches('.').count(), 2);
    let session = authenticate_at(&token, KEY, NOW + 60).unwrap();
    assert_eq!(session.account_id, id);
    assert_eq!(session.account_id, AccountId(2));
    assert_eq!(login_at(s.get_account("a@b.c"), "WRONG", KEY, NOW), Err(Error::WrongPassword));
    assert_eq!(login_at(s.get_account("q@q.q"), "hunter2", KEY, NOW), Err(Error::WrongPassword));
}
