use vstd::prelude::*;

verus! {

/// Status and message of a failed call to the moderation upstream.
#[derive(Clone, Debug, PartialEq, Eq)]
pub struct APILayerError {
    pub status: u16,
    pub message: String,
}

/// The error kinds that the service distinguishes.
#[derive(Clone, Debug, PartialEq, Eq)]
pub enum Error {
    /// A query parameter could not be read as an integer.
    ParseError,
    /// A required query parameter is absent.
    MissingParameters,
    /// The presented credentials were not accepted (unknown email or bad password).
    WrongPassword,
    /// A bearer token failed to parse, to verify, or is outside its validity window.
    CannotDecryptToken,
    /// A stored password hash is malformed or the hasher failed.
    ArgonLibraryError,
    /// The account store failed for a reason other than a duplicate email.
    DatabaseQueryError,
    /// Registration conflicted with an existing account of the same email.
    DuplicateAccount,
    /// The request to the moderation upstream could not be sent.
    MiddlewareReqwestAPIError,
    /// The reply of the moderation upstream could not be read.
    ReqwestAPIError,
    /// The moderation upstream answered with a client error.
    ClientError(APILayerError),
    /// The moderation upstream answered with a server error, or with nothing usable.
    ServerError(APILayerError),
}

/// Failures reported by the account store.
#[derive(Clone, Copy, Debug, PartialEq, Eq, Structural)]
pub enum StoreError {
    /// An account with that email already exists.
    DuplicateEmail,
    /// No account has that email.
    NotFound,
    /// Any other failure of the store.
    Failed,
}

/// The HTTP status that an error maps to at the service boundary.
pub open spec fn status_of(e: Error) -> u16 {
    match e {
        Error::ParseError | Error::MissingParameters => 400,
        Error::WrongPassword | Error::CannotDecryptToken => 401,
        Error::ArgonLibraryError | Error::DatabaseQueryError => 500,
        Error::MiddlewareReqwestAPIError | Error::ReqwestAPIError => 500,
        Error::DuplicateAccount => 409,
        Error::ClientError(a) => a.status,
        Error::ServerError(a) => a.status,
    }
}

impl Error {
    /// The HTTP status for this error.
    pub fn status_code(&self) -> (r: u16)
        ensures
            r == status_of(*self),
    {
        match self {
            Error::ParseError | Error::MissingParameters => 400,
            Error::WrongPassword | Error::CannotDecryptToken => 401,
            Error::ArgonLibraryError | Error::DatabaseQueryError => 500,
            Error::MiddlewareReqwestAPIError | Error::ReqwestAPIError => 500,
            Error::DuplicateAccount => 409,
            Error::ClientError(a) => a.status,
            Error::ServerError(a) => a.status,
        }
    }
}

} // verus!
