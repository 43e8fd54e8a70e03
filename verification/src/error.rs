//! The errors request handlers answer with.

use vstd::prelude::*;
use vstd::string::StringExecFns;

verus! {

/// Everything a request handler can fail with; each variant maps to one
/// HTTP status.
pub enum AppError {
    InternalServerError(String),
    BadRequest(String),
    Unauthorized(String),
    CustomForbidden(String),
    WrongCredentials,
    NotFound(String),
    Conflict(String),
}

impl AppError {
    /// The HTTP status this error answers with.
    pub fn status_code(&self) -> (r: u16)
        ensures
            r == match self {
                AppError::InternalServerError(_) => 500int,
                AppError::BadRequest(_) => 400int,
                AppError::Unauthorized(_) => 401int,
                AppError::CustomForbidden(_) => 403int,
                AppError::WrongCredentials => 401int,
                AppError::NotFound(_) => 404int,
                AppError::Conflict(_) => 409int,
            },
    {
        match self {
            AppError::InternalServerError(_) => 500,
            AppError::BadRequest(_) => 400,
            AppError::Unauthorized(_) => 401,
            AppError::CustomForbidden(_) => 403,
            AppError::WrongCredentials => 401,
            AppError::NotFound(_) => 404,
            AppError::Conflict(_) => 409,
        }
    }

    /// The message this error answers with.
    pub fn message(&self) -> (r: String)
        ensures
            r@ == match self {
                AppError::InternalServerError(m) => m@,
                AppError::BadRequest(m) => m@,
                AppError::Unauthorized(m) => m@,
                AppError::CustomForbidden(m) => m@,
                AppError::WrongCredentials => "Wrong credentials"@,
                AppError::NotFound(m) => m@,
                AppError::Conflict(m) => m@,
            },
    {
        match self {
            AppError::InternalServerError(m) => m.clone(),
            AppError::BadRequest(m) => m.clone(),
            AppError::Unauthorized(m) => m.clone(),
            AppError::CustomForbidden(m) => m.clone(),
            AppError::WrongCredentials => String::from_str("Wrong credentials"),
            AppError::NotFound(m) => m.clone(),
            AppError::Conflict(m) => m.clone(),
        }
    }
}

} // verus!
