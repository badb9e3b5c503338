//! The errors that the HTTP layer renders for the login flow and the API.
use vstd::prelude::*;

verus! {

/// An error returned to the HTTP layer.
#[derive(Debug, PartialEq)]
pub enum ApiError {
    NotFound,
    Database(String),
    /// No valid session on a protected request.
    Unauthorized,
    /// A rejected login: bad state, provider-reported error, refused code
    /// exchange, or a profile without an identity.
    Auth(String),
    /// The provider could not be reached.
    Http(String),
    Validation(String),
}

/// The body of an error response.
#[derive(Debug, PartialEq)]
pub struct ErrorResponse {
    pub error: String,
}

/// The text that describes an error.
pub open spec fn message_of(e: ApiError) -> Seq<char> {
    match e {
        ApiError::NotFound => "order not found"@,
        ApiError::Database(m) => "database error: "@ + m@,
        ApiError::Unauthorized => "authentication required"@,
        ApiError::Auth(m) => "oauth error: "@ + m@,
        ApiError::Http(m) => "http error: "@ + m@,
        ApiError::Validation(m) => "validation error: "@ + m@,
    }
}

/// The HTTP status an error is answered with.
pub open spec fn status_of(e: ApiError) -> u16 {
    match e {
        ApiError::NotFound => 404,
        ApiError::Database(_) => 500,
        ApiError::Unauthorized => 401,
        ApiError::Auth(_) => 400,
        ApiError::Http(_) => 500,
        ApiError::Validation(_) => 400,
    }
}

/// `r` is an `Auth` error with the text `msg`.
pub open spec fn is_auth_error<T>(r: Result<T, ApiError>, msg: Seq<char>) -> bool {
    match r {
        Err(ApiError::Auth(m)) => m@ == msg,
        _ => false,
    }
}

fn prefixed(prefix: &str, m: &String) -> (r: String)
    ensures
        r@ == prefix@ + m@,
{
    String::from_str(prefix).concat(m.as_str())
}

impl ApiError {
    /// The text that describes the error.
    pub fn message(&self) -> (r: String)
        ensures
            r@ == message_of(*self),
    {
        match self {
            ApiError::NotFound => String::from_str("order not found"),
            ApiError::Database(m) => prefixed("database error: ", m),
            ApiError::Unauthorized => String::from_str("authentication required"),
            ApiError::Auth(m) => prefixed("oauth error: ", m),
            ApiError::Http(m) => prefixed("http error: ", m),
            ApiError::Validation(m) => prefixed("validation error: ", m),
        }
    }

    /// The HTTP status the error is answered with.
    pub fn status_code(&self) -> (r: u16)
        ensures
            r == status_of(*self),
    {
        match self {
            ApiError::NotFound => 404,
            ApiError::Database(_) => 500,
            ApiError::Unauthorized => 401,
            ApiError::Auth(_) => 400,
            ApiError::Http(_) => 500,
            ApiError::Validation(_) => 400,
        }
    }

    /// The status and body of the response for this error.
    pub fn to_response(&self) -> (r: (u16, ErrorResponse))
        ensures
            r.0 == status_of(*self),
            r.1.error@ == message_of(*self),
    {
        (self.status_code(), ErrorResponse { error: self.message() })
    }
}

} // verus!
