//! The single place that decides how a failure is answered over HTTP.

use vstd::prelude::*;

use crate::domain::license::{status_name, LicenseStatus};

verus! {

/// Declares sqlx's `Error` (defined in sqlx-core, re-exported as
/// `sqlx::Error`) as an opaque type, so that a database
/// failure can be carried inside `AppError`. Nothing is claimed about it: the
/// library never looks inside one.
#[verifier::external_type_specification]
#[verifier::external_body]
pub struct ExDatabaseError(sqlx::Error);

/// Every way a request can fail, each answered with its own HTTP status.
#[derive(Debug)]
pub enum AppError {
    NotFound,
    BadRequest(String),
    InvalidTransition { from: LicenseStatus, to: LicenseStatus },
    Database(sqlx::Error),
}

/// The HTTP status code with which an error is answered.
pub open spec fn status_code_of(e: AppError) -> u16 {
    match e {
        AppError::NotFound => 404,
        AppError::BadRequest(_) => 400,
        AppError::InvalidTransition { .. } => 409,
        AppError::Database(_) => 500,
    }
}

/// The human-readable description of an error.
pub open spec fn error_text(e: AppError) -> Seq<char> {
    match e {
        AppError::NotFound => "resource not found"@,
        AppError::BadRequest(message) => message@,
        AppError::InvalidTransition { from, to } => "cannot move license status from "@
            + status_name(from) + " to "@ + status_name(to),
        AppError::Database(_) => "internal server error"@,
    }
}

impl AppError {
    /// The HTTP status code this error is answered with: 404, 400, 409 or 500.
    pub fn status_code(&self) -> (code: u16)
        ensures
            code == status_code_of(*self),
    {
        match self {
            AppError::NotFound => 404,
            AppError::BadRequest(_) => 400,
            AppError::InvalidTransition { .. } => 409,
            AppError::Database(_) => 500,
        }
    }

    /// The text of the `error` field of the response body. A database
    /// failure is reported only as "internal server error": its details are
    /// never sent to the client.
    pub fn message(&self) -> (text: String)
        ensures
            text@ == error_text(*self),
    {
        match self {
            AppError::NotFound => String::from_str("resource not found"),
            AppError::BadRequest(message) => message.clone(),
            AppError::InvalidTransition { from, to } => {
                let mut text = String::from_str("cannot move license status from ");
                text.append(from.name());
                text.append(" to ");
                text.append(to.name());
                text
            },
            AppError::Database(_) => String::from_str("internal server error"),
        }
    }
}

impl From<sqlx::Error> for AppError {
    fn from(err: sqlx::Error) -> (converted: Self) {
        AppError::Database(err)
    }
}

impl vstd::std_specs::convert::FromSpecImpl<sqlx::Error> for AppError {
    open spec fn obeys_from_spec() -> bool {
        true
    }

    open spec fn from_spec(v: sqlx::Error) -> Self {
        AppError::Database(v)
    }
}

} // verus!
