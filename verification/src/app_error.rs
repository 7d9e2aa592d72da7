//! The errors the HTTP API answers with, and the status code of each.
use vstd::prelude::*;

verus! {

/// An error of a request handler; each kind maps to one HTTP status.
#[derive(Debug, Clone, PartialEq, Eq)]
pub enum AppError {
    /// 401: no API key, or one that no user holds.
    Unauthorized(&'static str),
    /// 403: the caller may not touch this resource.
    Forbidden(&'static str),
    /// 404: the question or answer does not exist.
    NotFound(&'static str),
    /// 409: the resource already exists.
    Conflict(&'static str),
    /// 500: a database or other internal failure, with its description.
    Internal(String),
}

/// The HTTP status of each kind of error.
pub open spec fn status_of(e: AppError) -> u16 {
    match e {
        AppError::Unauthorized(_) => 401,
        AppError::Forbidden(_) => 403,
        AppError::NotFound(_) => 404,
        AppError::Conflict(_) => 409,
        AppError::Internal(_) => 500,
    }
}

/// The text sent as the body of the error response.
pub open spec fn message_of(e: AppError) -> Seq<char> {
    match e {
        AppError::Unauthorized(m) => m@,
        AppError::Forbidden(m) => m@,
        AppError::NotFound(m) => m@,
        AppError::Conflict(m) => m@,
        AppError::Internal(m) => m@,
    }
}

impl AppError {
    /// The status code of the response this error turns into.
    pub fn status_code(&self) -> (r: u16)
        ensures
            r == status_of(*self),
    {
        match self {
            AppError::Unauthorized(_) => 401,
            AppError::Forbidden(_) => 403,
            AppError::NotFound(_) => 404,
            AppError::Conflict(_) => 409,
            AppError::Internal(_) => 500,
        }
    }

    /// The body text of the response this error turns into.
    pub fn message(&self) -> (r: String)
        ensures
            r@ == message_of(*self),
    {
        match self {
            AppError::Unauthorized(m) => crate::text::owned(m),
            AppError::Forbidden(m) => crate::text::owned(m),
            AppError::NotFound(m) => crate::text::owned(m),
            AppError::Conflict(m) => crate::text::owned(m),
            AppError::Internal(m) => m.clone(),
        }
    }

    /// An internal error with the description of what failed.
    pub fn internal(description: String) -> (r: AppError)
        ensures
            r == AppError::Internal(description),
    {
        AppError::Internal(description)
    }
}

} // verus!
