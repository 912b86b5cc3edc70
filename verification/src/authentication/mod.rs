//! The authenticator: it checks a claimed user name and password against
//! the credential store.

pub mod user;

use self::user::find_user;
use self::user::ExisitingUser;
use crate::schema::viewed;
use crate::response::ErrorResponse;
use crate::response::BAD_REQUEST;
use crate::response::INTERNAL_SERVER_ERROR;
use crate::response::UNAUTHORIZED;
use crate::schema::Credential;
use crate::schema::Database;
use crate::schema::StoreError;
use crate::schema::Tables;
use vstd::prelude::*;

verus! {

/// The user name and password that a request claims.
#[derive(Clone, Debug, PartialEq, Eq)]
pub struct Credentials {
    pub user_id: String,
    pub password: Option<String>,
}

impl View for Credentials {
    type V = Credential;

    open spec fn view(&self) -> Credential {
        Credential { name: self.user_id@, password: crate::schema::optional_text(self.password) }
    }
}

/// Why a request was not authenticated.
#[derive(Clone, Copy, Debug, PartialEq, Eq, Structural)]
pub enum SimpleAuthError {
    /// No user has that name with that password.
    CannotAuthenticate,
    /// The password is missing or empty, or the user name is empty.
    EmptyPasswordNotAllowed,
    /// The credentials could not be checked.
    InternalServerError,
}

impl SimpleAuthError {
    /// The status code the error is answered with.
    pub open spec fn status(self) -> u16 {
        match self {
            SimpleAuthError::CannotAuthenticate => UNAUTHORIZED,
            SimpleAuthError::EmptyPasswordNotAllowed => BAD_REQUEST,
            SimpleAuthError::InternalServerError => INTERNAL_SERVER_ERROR,
        }
    }

    /// The sentence the error is shown as.
    pub open spec fn text(self) -> Seq<char> {
        match self {
            SimpleAuthError::CannotAuthenticate => "Cannot authenticate user"@,
            SimpleAuthError::EmptyPasswordNotAllowed => "Password cannot be empty"@,
            SimpleAuthError::InternalServerError => "Internal server error"@,
        }
    }

    pub fn status_code(&self) -> (code: u16)
        ensures
            code == self.status(),
    {
        match self {
            SimpleAuthError::CannotAuthenticate => UNAUTHORIZED,
            SimpleAuthError::EmptyPasswordNotAllowed => BAD_REQUEST,
            SimpleAuthError::InternalServerError => INTERNAL_SERVER_ERROR,
        }
    }

    pub fn to_text(&self) -> (text: String)
        ensures
            text@ == self.text(),
    {
        match self {
            SimpleAuthError::CannotAuthenticate => "Cannot authenticate user".to_owned(),
            SimpleAuthError::EmptyPasswordNotAllowed => "Password cannot be empty".to_owned(),
            SimpleAuthError::InternalServerError => "Internal server error".to_owned(),
        }
    }

    /// The answer sent for the error: its status code, with its sentence as
    /// the body.
    pub fn error_response(&self) -> (response: ErrorResponse)
        ensures
            response.status == self.status(),
            response.body@ == self.text(),
    {
        ErrorResponse { status: self.status_code(), body: self.to_text() }
    }
}

/// The credentials are refused before the store is asked: the password is
/// missing or empty, or the user name is empty.
pub open spec fn incomplete(credentials: Credential) -> bool {
    ||| credentials.password is None
    ||| credentials.password.unwrap().len() == 0
    ||| credentials.name.len() == 0
}

/// What the answer of the credential store means for the request.
pub open spec fn verdict(lookup: Result<Credential, StoreError>) -> Result<(), SimpleAuthError> {
    match lookup {
        Ok(_) => Ok(()),
        Err(StoreError::NotFound) => Err(SimpleAuthError::CannotAuthenticate),
        Err(_) => Err(SimpleAuthError::InternalServerError),
    }
}

/// The outcome of authenticating `credentials` against `tables`.
pub open spec fn authentication(tables: Tables, credentials: Credential) -> Result<
    (),
    SimpleAuthError,
> {
    if incomplete(credentials) {
        Err(SimpleAuthError::EmptyPasswordNotAllowed)
    } else {
        verdict(tables.credential_of(credentials.name, credentials.password.unwrap()))
    }
}

/// Whether the credentials are refused before the store is asked.
pub fn is_incomplete(credentials: &Credentials) -> (refused: bool)
    ensures
        refused == incomplete(credentials@),
{
    match &credentials.password {
        None => true,
        Some(password) => password.as_str().is_empty() || credentials.user_id.as_str().is_empty(),
    }
}

/// Turns the answer of the credential store into the outcome of the
/// authentication: a row authenticates, no row does not, and any other
/// failure of the store is an internal error.
pub fn judge(lookup: &Result<ExisitingUser, StoreError>) -> (outcome: Result<(), SimpleAuthError>)
    ensures
        outcome == verdict(viewed(*lookup)),
{
    match lookup {
        Ok(_) => Ok(()),
        Err(StoreError::NotFound) => Err(SimpleAuthError::CannotAuthenticate),
        Err(_) => Err(SimpleAuthError::InternalServerError),
    }
}

/// Authenticates `credentials` against the credential store.
///
/// Incomplete credentials are refused without a lookup. Otherwise one point
/// lookup decides: the credentials are accepted exactly when a user with
/// that name has exactly that password stored.
pub fn authenticate(database: &Database, credentials: &Credentials) -> (outcome: Result<
    (),
    SimpleAuthError,
>)
    ensures
        outcome == authentication(database@, credentials@),
{
    if is_incomplete(credentials) {
        return Err(SimpleAuthError::EmptyPasswordNotAllowed);
    }
    let lookup = find_user(credentials, database);
    judge(&lookup)
}

/// Decides whether a request is let through, given what the worker that
/// ran the authentication handed back, if it handed anything back.
///
/// An accepted request is returned as it came. A refused one is returned
/// with the reason, and a worker that did not finish counts as an internal
/// error.
pub fn validate<R>(request: R, outcome: Option<Result<(), SimpleAuthError>>) -> (admitted: Result<
    R,
    (SimpleAuthError, R),
>)
    ensures
        admitted == match outcome {
            Some(Ok(_)) => Ok::<R, (SimpleAuthError, R)>(request),
            Some(Err(error)) => Err((error, request)),
            None => Err((SimpleAuthError::InternalServerError, request)),
        },
{
    match outcome {
        Some(Ok(_)) => Ok(request),
        Some(Err(error)) => Err((error, request)),
        None => Err((SimpleAuthError::InternalServerError, request)),
    }
}

} // verus!
