//! What the API answers to requests about spans, once the store has answered.
use vstd::prelude::*;

verus! {

/// The status of an answer without a body.
pub const NO_CONTENT: u16 = 204;

/// The status of an answer about something that there is not.
pub const NOT_FOUND: u16 = 404;

/// Why the store did not do what was asked of it.
#[derive(Debug, Clone, Copy, PartialEq, Eq, Structural)]
pub enum DbError {
    /// There is no such thing.
    NotFound,
    /// Anything else.
    Internal,
}

/// An error that any request may end in.
#[derive(Debug, Clone, Copy, PartialEq, Eq, Structural)]
#[non_exhaustive]
pub enum CommonError {
    /// Something failed that the client has no part in.
    InternalServerError,
}

/// An error that a request ends in: one that it alone has, or a common one.
#[derive(Debug, PartialEq, Eq)]
pub enum ApiServerError<E> {
    ServiceError(E),
    CommonError(CommonError),
}

/// Errors of a request for a span.
#[derive(Debug, Clone, Copy, PartialEq, Eq, Structural)]
#[non_exhaustive]
pub enum SpanGetError {
    /// Span not found
    SpanNotFound,
}

impl SpanGetError {
    /// The status of the answer.
    pub fn status_code(&self) -> (status: u16)
        ensures
            status == match self {
                SpanGetError::SpanNotFound => NOT_FOUND,
            },
            *self == SpanGetError::SpanNotFound ==> status == 404,
    {
        match self {
            SpanGetError::SpanNotFound => NOT_FOUND,
        }
    }

    /// What the error is called in the answer.
    pub fn error(&self) -> (name: String)
        ensures
            name@ == match self {
                SpanGetError::SpanNotFound => "spanNotFound"@,
            },
    {
        match self {
            SpanGetError::SpanNotFound => "spanNotFound".to_owned(),
        }
    }

    /// The error in words.
    pub fn message(&self) -> (message: String)
        ensures
            message@ == match self {
                SpanGetError::SpanNotFound => "Span not found"@,
            },
    {
        match self {
            SpanGetError::SpanNotFound => "Span not found".to_owned(),
        }
    }
}

/// Errors of a request for the spans of a trace: so far there are none.
#[derive(Debug, Clone, Copy, PartialEq, Eq)]
#[non_exhaustive]
pub enum SpanListError {
    Never(core::convert::Infallible),
}

/// Errors of a request to delete a span: so far there are none.
#[derive(Debug, Clone, Copy, PartialEq, Eq)]
#[non_exhaustive]
pub enum SpanDeleteError {
    Never(core::convert::Infallible),
}

/// The error that a failure of the store to give a span comes to.
pub open spec fn get_error(err: DbError) -> ApiServerError<SpanGetError> {
    match err {
        DbError::NotFound => ApiServerError::ServiceError(SpanGetError::SpanNotFound),
        DbError::Internal => ApiServerError::CommonError(CommonError::InternalServerError),
    }
}

impl From<DbError> for ApiServerError<SpanGetError> {
    fn from(err: DbError) -> (error: ApiServerError<SpanGetError>) {
        match err {
            DbError::NotFound => ApiServerError::ServiceError(SpanGetError::SpanNotFound),
            DbError::Internal => ApiServerError::CommonError(CommonError::InternalServerError),
        }
    }
}

impl vstd::std_specs::convert::FromSpecImpl<DbError> for ApiServerError<SpanGetError> {
    open spec fn obeys_from_spec() -> bool {
        true
    }

    open spec fn from_spec(err: DbError) -> ApiServerError<SpanGetError> {
        get_error(err)
    }
}

impl From<DbError> for ApiServerError<SpanListError> {
    fn from(err: DbError) -> (error: ApiServerError<SpanListError>) {
        ApiServerError::CommonError(CommonError::InternalServerError)
    }
}

impl vstd::std_specs::convert::FromSpecImpl<DbError> for ApiServerError<SpanListError> {
    open spec fn obeys_from_spec() -> bool {
        true
    }

    open spec fn from_spec(err: DbError) -> ApiServerError<SpanListError> {
        ApiServerError::CommonError(CommonError::InternalServerError)
    }
}

impl From<DbError> for ApiServerError<SpanDeleteError> {
    fn from(err: DbError) -> (error: ApiServerError<SpanDeleteError>) {
        ApiServerError::CommonError(CommonError::InternalServerError)
    }
}

impl vstd::std_specs::convert::FromSpecImpl<DbError> for ApiServerError<SpanDeleteError> {
    open spec fn obeys_from_spec() -> bool {
        true
    }

    open spec fn from_spec(err: DbError) -> ApiServerError<SpanDeleteError> {
        ApiServerError::CommonError(CommonError::InternalServerError)
    }
}

/// The answer to a request for a span, once the store has opened a transaction and
/// looked for it: the span, or the error that the first failure comes to.
pub fn span_get_handler<S>(stored: Result<S, DbError>) -> (answer: Result<
    S,
    ApiServerError<SpanGetError>,
>)
    ensures
        match stored {
            Ok(span) => answer == Ok::<S, ApiServerError<SpanGetError>>(span),
            Err(err) => answer == Err::<S, ApiServerError<SpanGetError>>(get_error(err)),
        },
{
    match stored {
        Ok(span) => Ok(span),
        Err(err) => Err(ApiServerError::from(err)),
    }
}

/// The answer to a request for the spans of a trace, once the store has opened a
/// transaction and looked for them: the spans, or a common error.
pub fn span_list_handler<S>(stored: Result<Vec<S>, DbError>) -> (answer: Result<
    Vec<S>,
    ApiServerError<SpanListError>,
>)
    ensures
        match stored {
            Ok(spans) => answer == Ok::<Vec<S>, ApiServerError<SpanListError>>(spans),
            Err(_) => answer == Err::<Vec<S>, ApiServerError<SpanListError>>(
                ApiServerError::CommonError(CommonError::InternalServerError),
            ),
        },
{
    match stored {
        Ok(spans) => Ok(spans),
        Err(err) => Err(ApiServerError::from(err)),
    }
}

/// The status of the answer to a request to delete a span, once the store has
/// opened a transaction and deleted it, or a common error.
pub fn span_delete_handler(stored: Result<(), DbError>) -> (answer: Result<
    u16,
    ApiServerError<SpanDeleteError>,
>)
    ensures
        match stored {
            Ok(_) => answer == Ok::<u16, ApiServerError<SpanDeleteError>>(NO_CONTENT),
            Err(_) => answer == Err::<u16, ApiServerError<SpanDeleteError>>(
                ApiServerError::CommonError(CommonError::InternalServerError),
            ),
        },
        stored is Ok ==> answer == Ok::<u16, ApiServerError<SpanDeleteError>>(204),
{
    match stored {
        Ok(_) => Ok(NO_CONTENT),
        Err(err) => Err(ApiServerError::from(err)),
    }
}

/// Only a request for a span says that something is not there, and only where
/// the store said so.
pub proof fn law_only_a_missing_span_is_not_found(err: DbError)
    ensures
        get_error(err) == ApiServerError::ServiceError(SpanGetError::SpanNotFound) <==> err
            == DbError::NotFound,
{
}

/// A failure of the store that is no missing span is a common error, whatever was
/// asked of it.
pub proof fn law_other_failures_are_common(err: DbError)
    ensures
        err == DbError::NotFound || get_error(err) == ApiServerError::<SpanGetError>::CommonError(
            CommonError::InternalServerError,
        ),
{
}

} // verus!
