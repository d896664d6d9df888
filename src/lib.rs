//! Authentication and session core: password hashing, signed bearer
//! tokens, the request guard, the registration and login decisions, an
//! in-memory account store, and the query-string pagination parser.
pub mod account;
pub mod error;
pub mod handlers;
pub mod moderation;
pub mod pagination;
pub mod password;
pub mod store;
pub mod text;
pub mod token;
