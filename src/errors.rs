//! Errors of the order endpoints, each with a machine-readable code.
use vstd::prelude::*;

verus! {

/// The body of an order-endpoint error.
#[derive(Debug, PartialEq)]
pub struct ApiError {
    pub code: &'static str,
    pub message: String,
}

/// An order-endpoint failure.
#[derive(Debug, PartialEq)]
pub enum AppError {
    /// The named resource does not exist.
    NotFound(&'static str),
    /// The request data is invalid.
    BadRequest(String),
    /// A database operation failed; the text stays on the server.
    Database(String),
}

impl AppError {
    /// The named resource does not exist.
    pub fn not_found(resource: &'static str) -> (r: Self)
        ensures
            r == AppError::NotFound(resource),
    {
        AppError::NotFound(resource)
    }

    /// The request data is invalid.
    pub fn bad_request(message: String) -> (r: Self)
        ensures
            r == AppError::BadRequest(message),
    {
        AppError::BadRequest(message)
    }

    /// The HTTP status and body that answer this error.
    pub fn into_parts(self) -> (r: (u16, ApiError))
        ensures
            match self {
                AppError::NotFound(resource) => r.0 == 404 && r.1.code@ == "NOT_FOUND"@
                    && r.1.message@ == resource@ + " not found"@,
                AppError::BadRequest(m) => r.0 == 400 && r.1.code@ == "BAD_REQUEST"@ && r.1.message
                    == m,
                AppError::Database(_) => r.0 == 500 && r.1.code@ == "DATABASE_ERROR"@
                    && r.1.message@ == "Database operation failed"@,
            },
    {
        match self {
            AppError::NotFound(resource) => (
                404,
                ApiError {
                    code: "NOT_FOUND",
                    message: String::from_str(resource).concat(" not found"),
                },
            ),
            AppError::BadRequest(m) => (400, ApiError { code: "BAD_REQUEST", message: m }),
            AppError::Database(_) => (
                500,
                ApiError {
                    code: "DATABASE_ERROR",
                    message: String::from_str("Database operation failed"),
                },
            ),
        }
    }
}

} // verus!
