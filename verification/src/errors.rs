//! Error taxonomy of the service core and its mapping to the HTTP surface.

use vstd::prelude::*;
use vstd::string::StringExecFns;

verus! {

/// Errors of the business-logic layer. Database failures carry the
/// lower-level error rendered as text.
#[derive(Debug)]
pub enum CoreError {
    DatabaseError(String),
    NotFound(String),
    BadRequest(String),
    Unauthorized(String),
    InternalError(String),
    KeycloakError(String),
}

/// The text a `CoreError` renders to, variant label first.
pub open spec fn spec_core_error_message(e: CoreError) -> Seq<char> {
    match e {
        CoreError::DatabaseError(m) => "Database error: "@ + m@,
        CoreError::NotFound(m) => "Not found: "@ + m@,
        CoreError::BadRequest(m) => "Bad request: "@ + m@,
        CoreError::Unauthorized(m) => "Unauthorized: "@ + m@,
        CoreError::InternalError(m) => "Internal error: "@ + m@,
        CoreError::KeycloakError(m) => "Keycloak error: "@ + m@,
    }
}

impl CoreError {
    /// Renders the error as text, variant label first.
    pub fn message(&self) -> (r: String)
        ensures
            r@ == spec_core_error_message(*self),
    {
        let mut s: String;
        match self {
            CoreError::DatabaseError(m) => {
                s = String::from_str("Database error: ");
                s.append(m.as_str());
            },
            CoreError::NotFound(m) => {
                s = String::from_str("Not found: ");
                s.append(m.as_str());
            },
            CoreError::BadRequest(m) => {
                s = String::from_str("Bad request: ");
                s.append(m.as_str());
            },
            CoreError::Unauthorized(m) => {
                s = String::from_str("Unauthorized: ");
                s.append(m.as_str());
            },
            CoreError::InternalError(m) => {
                s = String::from_str("Internal error: ");
                s.append(m.as_str());
            },
            CoreError::KeycloakError(m) => {
                s = String::from_str("Keycloak error: ");
                s.append(m.as_str());
            },
        }
        s
    }
}

/// Errors of the HTTP surface; each variant has a fixed status code.
#[derive(Debug)]
pub enum ApiError {
    Unauthorized(String),
    NotFound(String),
    BadRequest(String),
    ServiceUnavailable(String),
    InternalServerError(String),
}

impl ApiError {
    /// The HTTP status code of each variant.
    pub fn status_code(&self) -> (r: u16)
        ensures
            r == match *self {
                ApiError::Unauthorized(_) => 401int,
                ApiError::NotFound(_) => 404int,
                ApiError::BadRequest(_) => 400int,
                ApiError::ServiceUnavailable(_) => 503int,
                ApiError::InternalServerError(_) => 500int,
            },
    {
        match self {
            ApiError::Unauthorized(_) => 401,
            ApiError::NotFound(_) => 404,
            ApiError::BadRequest(_) => 400,
            ApiError::ServiceUnavailable(_) => 503,
            ApiError::InternalServerError(_) => 500,
        }
    }

    /// The message that crosses the trust boundary. Internal errors are
    /// masked: their detail is for logs, not for callers.
    pub fn response_message(&self) -> (r: String)
        ensures
            match *self {
                ApiError::Unauthorized(m) => r@ == m@,
                ApiError::NotFound(m) => r@ == m@,
                ApiError::BadRequest(m) => r@ == m@,
                ApiError::ServiceUnavailable(m) => r@ == m@,
                ApiError::InternalServerError(_) => r@ == "Internal server error"@,
            },
    {
        match self {
            ApiError::Unauthorized(m) => m.clone(),
            ApiError::NotFound(m) => m.clone(),
            ApiError::BadRequest(m) => m.clone(),
            ApiError::ServiceUnavailable(m) => m.clone(),
            ApiError::InternalServerError(_) => String::from_str("Internal server error"),
        }
    }

    /// Maps a business-logic error to the HTTP surface: database and internal
    /// faults become masked internal errors, provider faults surface as
    /// service-unavailable, the rest keep their message.
    pub fn from_core(err: CoreError) -> (r: ApiError)
        ensures
            err matches CoreError::DatabaseError(_) ==> (r matches ApiError::InternalServerError(
                m,
            ) && m@ == "Database error"@),
            err matches CoreError::NotFound(m) ==> r == ApiError::NotFound(m),
            err matches CoreError::BadRequest(m) ==> r == ApiError::BadRequest(m),
            err matches CoreError::Unauthorized(m) ==> r == ApiError::Unauthorized(m),
            err matches CoreError::InternalError(m) ==> r == ApiError::InternalServerError(m),
            err matches CoreError::KeycloakError(_) ==> (r matches ApiError::ServiceUnavailable(m)
                && m@ == "Authentication service error"@),
    {
        match err {
            CoreError::DatabaseError(_) => ApiError::InternalServerError(
                String::from_str("Database error"),
            ),
            CoreError::NotFound(m) => ApiError::NotFound(m),
            CoreError::BadRequest(m) => ApiError::BadRequest(m),
            CoreError::Unauthorized(m) => ApiError::Unauthorized(m),
            CoreError::InternalError(m) => ApiError::InternalServerError(m),
            CoreError::KeycloakError(_) => ApiError::ServiceUnavailable(
                String::from_str("Authentication service error"),
            ),
        }
    }
}

} // verus!
