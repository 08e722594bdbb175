//! The errors that a request is answered with.
use vstd::prelude::*;

verus! {

/// Why a request fails.
#[derive(Debug)]
#[allow(missing_docs)]
pub enum ApiError {
    NotFound(String),
    BadRequest(String),
    Unauthorized(String),
    Forbidden(String),
    Conflict(String),
    Internal(String),
    Validation(String),
}

/// The kinds of `ApiError`.
#[derive(Debug, Clone, Copy, PartialEq, Eq, Structural)]
#[allow(missing_docs)]
pub enum ErrorKind {
    NotFound,
    BadRequest,
    Unauthorized,
    Forbidden,
    Conflict,
    Internal,
    Validation,
}

impl View for ApiError {
    type V = (ErrorKind, Seq<char>);

    open spec fn view(&self) -> (ErrorKind, Seq<char>) {
        match *self {
            ApiError::NotFound(m) => (ErrorKind::NotFound, m@),
            ApiError::BadRequest(m) => (ErrorKind::BadRequest, m@),
            ApiError::Unauthorized(m) => (ErrorKind::Unauthorized, m@),
            ApiError::Forbidden(m) => (ErrorKind::Forbidden, m@),
            ApiError::Conflict(m) => (ErrorKind::Conflict, m@),
            ApiError::Internal(m) => (ErrorKind::Internal, m@),
            ApiError::Validation(m) => (ErrorKind::Validation, m@),
        }
    }
}

/// The HTTP status that a kind is answered with.
pub open spec fn status_of(kind: ErrorKind) -> u16 {
    match kind {
        ErrorKind::NotFound => 404,
        ErrorKind::BadRequest => 400,
        ErrorKind::Unauthorized => 401,
        ErrorKind::Forbidden => 403,
        ErrorKind::Conflict => 409,
        ErrorKind::Internal => 500,
        ErrorKind::Validation => 422,
    }
}

/// The name that a kind goes by in the answer's body.
pub open spec fn name_of(kind: ErrorKind) -> &'static str {
    match kind {
        ErrorKind::NotFound => "not_found",
        ErrorKind::BadRequest => "bad_request",
        ErrorKind::Unauthorized => "unauthorized",
        ErrorKind::Forbidden => "forbidden",
        ErrorKind::Conflict => "conflict",
        ErrorKind::Internal => "internal",
        ErrorKind::Validation => "validation",
    }
}

/// The body of an error answer.
#[derive(Debug)]
pub struct ErrorResponse {
    /// The kind of the error.
    pub error: String,
    /// What went wrong.
    pub message: String,
}

impl ApiError {
    /// The status and the body that the error is answered with.
    pub fn into_response(self) -> (r: (u16, ErrorResponse))
        ensures
            r.0 == status_of(self@.0),
            r.1.error@ == name_of(self@.0)@,
            r.1.message@ == self@.1,
    {
        let (status, error, message): (u16, &'static str, String) = match self {
            ApiError::NotFound(m) => (404, "not_found", m),
            ApiError::BadRequest(m) => (400, "bad_request", m),
            ApiError::Unauthorized(m) => (401, "unauthorized", m),
            ApiError::Forbidden(m) => (403, "forbidden", m),
            ApiError::Conflict(m) => (409, "conflict", m),
            ApiError::Internal(m) => (500, "internal", m),
            ApiError::Validation(m) => (422, "validation", m),
        };
        (status, ErrorResponse { error: error.to_owned(), message })
    }
}

/// An error with `BadRequest`.
pub fn bad_request(message: &str) -> (r: ApiError)
    ensures
        r@ == (ErrorKind::BadRequest, message@),
{
    ApiError::BadRequest(message.to_owned())
}

/// An error with `Forbidden`.
pub fn forbidden(message: &str) -> (r: ApiError)
    ensures
        r@ == (ErrorKind::Forbidden, message@),
{
    ApiError::Forbidden(message.to_owned())
}

/// An error with `Unauthorized`.
pub fn unauthorized(message: &str) -> (r: ApiError)
    ensures
        r@ == (ErrorKind::Unauthorized, message@),
{
    ApiError::Unauthorized(message.to_owned())
}

/// An error with `NotFound`.
pub fn not_found(message: &str) -> (r: ApiError)
    ensures
        r@ == (ErrorKind::NotFound, message@),
{
    ApiError::NotFound(message.to_owned())
}

/// An error with `Internal`: what was attempted, then what came of it.
pub fn internal(attempt: &str, cause: &str) -> (r: ApiError)
    ensures
        r@ == (ErrorKind::Internal, attempt@ + cause@),
{
    ApiError::Internal(crate::text::cat2(attempt, cause))
}

/// Why the database layer fails; the database's own errors as their text.
#[derive(Debug)]
#[allow(missing_docs)]
pub enum DaoError {
    NotFound,
    DuplicateKey(String),
    Forbidden(String),
    Validation(String),
    Mongo(String),
    BsonSer(String),
    BsonDe(String),
}

/// What a database error is answered with.
pub open spec fn dao_answer(e: DaoError) -> (ErrorKind, Seq<char>) {
    match e {
        DaoError::NotFound => (ErrorKind::NotFound, "Resource not found"@),
        DaoError::DuplicateKey(m) => (ErrorKind::Conflict, m@),
        DaoError::Forbidden(m) => (ErrorKind::Forbidden, m@),
        DaoError::Validation(m) => (ErrorKind::Validation, m@),
        DaoError::Mongo(m) => (ErrorKind::Internal, m@),
        DaoError::BsonSer(m) => (ErrorKind::Internal, m@),
        DaoError::BsonDe(m) => (ErrorKind::Internal, m@),
    }
}

/// What a database error is answered with.
pub fn dao_error(e: DaoError) -> (r: ApiError)
    ensures
        r@ == dao_answer(e),
{
    match e {
        DaoError::NotFound => ApiError::NotFound("Resource not found".to_owned()),
        DaoError::DuplicateKey(m) => ApiError::Conflict(m),
        DaoError::Forbidden(m) => ApiError::Forbidden(m),
        DaoError::Validation(m) => ApiError::Validation(m),
        DaoError::Mongo(m) => ApiError::Internal(m),
        DaoError::BsonSer(m) => ApiError::Internal(m),
        DaoError::BsonDe(m) => ApiError::Internal(m),
    }
}

/// What the database gave, or the answer to its error.
pub fn settled<T>(r: Result<T, DaoError>) -> (s: Result<T, ApiError>)
    ensures
        match r {
            Ok(v) => s == Ok::<T, ApiError>(v),
            Err(e) => s matches Err(a) && a@ == dao_answer(e),
        },
{
    match r {
        Ok(v) => Ok(v),
        Err(e) => Err(dao_error(e)),
    }
}

/// Why a login or a token is not accepted.
#[derive(Debug)]
#[allow(missing_docs)]
pub enum AuthError {
    InvalidCredentials,
    TokenExpired,
    InvalidToken(String),
    HashError(String),
}

/// What an authentication error is answered with.
pub open spec fn auth_answer(e: AuthError) -> (ErrorKind, Seq<char>) {
    match e {
        AuthError::InvalidCredentials => (ErrorKind::Unauthorized, "Invalid credentials"@),
        AuthError::TokenExpired => (ErrorKind::Unauthorized, "Token expired"@),
        AuthError::InvalidToken(m) => (ErrorKind::Unauthorized, m@),
        AuthError::HashError(m) => (ErrorKind::Internal, m@),
    }
}

/// What an authentication error is answered with.
pub fn auth_error(e: AuthError) -> (r: ApiError)
    ensures
        r@ == auth_answer(e),
{
    match e {
        AuthError::InvalidCredentials => ApiError::Unauthorized("Invalid credentials".to_owned()),
        AuthError::TokenExpired => ApiError::Unauthorized("Token expired".to_owned()),
        AuthError::InvalidToken(m) => ApiError::Unauthorized(m),
        AuthError::HashError(m) => ApiError::Internal(m),
    }
}

/// Errors of different kinds are answered with different statuses.
pub proof fn kinds_have_their_own_status(a: ErrorKind, b: ErrorKind)
    requires
        status_of(a) == status_of(b),
    ensures
        a == b,
{
}

/// Every error answer has a client-error or server-error status, and only an
/// internal error is the server's.
pub proof fn errors_are_no_successes(kind: ErrorKind)
    ensures
        400 <= status_of(kind) <= 500,
        status_of(kind) == 500 <==> kind == ErrorKind::Internal,
{
}

} // verus!
