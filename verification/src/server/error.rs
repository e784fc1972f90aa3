//! The errors of the server's use cases.
use vstd::prelude::*;
use vstd::std_specs::convert::FromSpecImpl;

verus! {

/// The errors a repository reports, as far as the use cases tell them
/// apart.
#[derive(Debug, Clone, PartialEq, Eq)]
pub enum RepositoryError {
    /// No row matched.
    NotFound,
    /// A unique or primary key constraint was violated.
    UniqueConstraint,
    /// Any other database failure, with its description.
    Database(String),
}

/// The errors of the rate limiter.
#[derive(Debug, Clone, PartialEq, Eq)]
pub enum LimitationError {
    /// The limiter's own infrastructure failed.
    Internal(String),
    /// The caller made too many requests.
    RateExhausted,
}

/// The errors the use cases return.
#[derive(Debug, Clone, PartialEq, Eq)]
pub enum ApplicationError {
    UniqueConstraint,
    PasswordTooLong(usize),
    PasswordTooShort(usize),
    UsernameInvalid,
    Unauthorized,
    MissingAuthentication,
    WrongUserCredentials,
    CorporationNameAlreadyTaken,
    CorporationForUserNotFound,
    UserNotPending,
    VerificationCodeExpired,
    VerificationCodeFalse,
    Limitation(LimitationError),
    Database(RepositoryError),
    Other(String),
}

impl From<RepositoryError> for ApplicationError {
    fn from(err: RepositoryError) -> (r: Self) {
        ApplicationError::Database(err)
    }
}

impl FromSpecImpl<RepositoryError> for ApplicationError {
    open spec fn obeys_from_spec() -> bool {
        true
    }

    open spec fn from_spec(err: RepositoryError) -> Self {
        ApplicationError::Database(err)
    }
}

impl From<LimitationError> for ApplicationError {
    fn from(err: LimitationError) -> (r: Self) {
        ApplicationError::Limitation(err)
    }
}

impl FromSpecImpl<LimitationError> for ApplicationError {
    open spec fn obeys_from_spec() -> bool {
        true
    }

    open spec fn from_spec(err: LimitationError) -> Self {
        ApplicationError::Limitation(err)
    }
}

/// A repository's result as a use case returns it: its error becomes a
/// database error.
pub open spec fn lifted<T>(r: Result<T, RepositoryError>) -> Result<T, ApplicationError> {
    match r {
        Ok(v) => Ok(v),
        Err(e) => Err(ApplicationError::Database(e)),
    }
}

/// Passes a repository's result on, turning its error into a database
/// error (what the listing and query use cases return).
pub fn from_repository<T>(r: Result<T, RepositoryError>) -> (out: Result<T, ApplicationError>)
    ensures
        out == lifted(r),
{
    match r {
        Ok(v) => Ok(v),
        Err(e) => Err(ApplicationError::Database(e)),
    }
}

} // verus!
