use vstd::prelude::*;

verus! {

/// The identifier that the account store assigns to an account.
#[derive(Clone, Copy, Debug, PartialEq, Eq, Hash, Structural)]
pub struct AccountId(pub i32);

/// An account: `id` is absent until the store has assigned one; `password`
/// holds the encoded hash once the account has been registered.
#[derive(Clone, Debug)]
pub struct Account {
    pub id: Option<AccountId>,
    pub email: String,
    pub password: String,
}

/// Credentials as a client submits them.
#[derive(Clone, Debug)]
pub struct NewAccount {
    pub email: String,
    pub password: String,
}

/// The verified view of a token handed to protected handlers. Times are
/// unix seconds.
#[derive(Clone, Copy, Debug, PartialEq, Eq, Structural)]
pub struct Session {
    pub exp: i64,
    pub account_id: AccountId,
    pub nbf: i64,
}

/// The signed payload of a token. Times are unix seconds.
#[derive(Clone, Copy, Debug, PartialEq, Eq, Structural)]
pub struct Claims {
    pub account_id: i32,
    pub exp: i64,
    pub iat: i64,
    pub nbf: i64,
}

} // verus!
