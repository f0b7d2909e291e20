//! Errors reported by the library's operations.
use vstd::prelude::*;

verus! {

/// The kinds of failure an operation reports.
#[derive(Clone, Debug, PartialEq, Eq)]
pub enum AppError {
    Unauthorized(),
    AccountLocked(),
    Forbidden(),
    ServerBusy(),
    /// Malformed request; never retried.
    BadRequest(String),
    /// The id is absent.
    DataNotFound(String),
    /// Duplicate id on create, or the index is at capacity.
    DataConflict(String),
    /// More than one document for a unique id, or a corrupt read.
    Inconsistent(String),
    /// An infrastructure failure, described for the logs.
    Unexpected(String),
}

fn prefixed(prefix: &str, reason: &String) -> (r: String)
    ensures
        r@ == prefix@ + reason@,
{
    String::from_str(prefix).concat(reason.as_str())
}

impl AppError {
    /// The human-readable description of the error.
    pub fn message(&self) -> (r: String)
        ensures
            self matches AppError::BadRequest(s) ==> r@ == "Bad request: "@ + s@,
            self matches AppError::DataNotFound(s) ==> r@ == "Data not found: "@ + s@,
            self matches AppError::DataConflict(s) ==> r@ == "Data conflict: "@ + s@,
            self matches AppError::Inconsistent(s) ==> r@ == "Inconsistent: "@ + s@,
            self matches AppError::Unexpected(s) ==> r@ == "An unexpected infrastructure error occurred: "@ + s@,
            self is Unauthorized ==> r@ == "Unauthorized"@,
            self is AccountLocked ==> r@ == "Account locked"@,
            self is Forbidden ==> r@ == "Forbidden"@,
            self is ServerBusy ==> r@ == "Server busy"@,
    {
        match self {
            AppError::Unauthorized() => String::from_str("Unauthorized"),
            AppError::AccountLocked() => String::from_str("Account locked"),
            AppError::Forbidden() => String::from_str("Forbidden"),
            AppError::ServerBusy() => String::from_str("Server busy"),
            AppError::BadRequest(s) => prefixed("Bad request: ", s),
            AppError::DataNotFound(s) => prefixed("Data not found: ", s),
            AppError::DataConflict(s) => prefixed("Data conflict: ", s),
            AppError::Inconsistent(s) => prefixed("Inconsistent: ", s),
            AppError::Unexpected(s) => prefixed("An unexpected infrastructure error occurred: ", s),
        }
    }
}

/// An error as the HTTP layer reports it.
#[derive(Clone, Debug, PartialEq, Eq)]
pub struct ApiError(pub AppError);

impl ApiError {
    /// The HTTP status for the error.
    pub fn status(&self) -> (r: u16)
        ensures
            r == match self.0 {
                AppError::BadRequest(_) => 400u16,
                AppError::Unauthorized() => 401,
                AppError::AccountLocked() => 401,
                AppError::Forbidden() => 403,
                AppError::DataNotFound(_) => 404,
                AppError::Inconsistent(_) => 409,
                AppError::DataConflict(_) => 409,
                AppError::ServerBusy() => 503,
                AppError::Unexpected(_) => 500,
            },
    {
        match &self.0 {
            AppError::BadRequest(_) => 400,
            AppError::Unauthorized() => 401,
            AppError::AccountLocked() => 401,
            AppError::Forbidden() => 403,
            AppError::DataNotFound(_) => 404,
            AppError::Inconsistent(_) => 409,
            AppError::DataConflict(_) => 409,
            AppError::ServerBusy() => 503,
            AppError::Unexpected(_) => 500,
        }
    }

    /// The message shown to the client; infrastructure details stay internal.
    pub fn client_message(&self) -> (r: String)
        ensures
            self.0 matches AppError::BadRequest(s) ==> r@ == s@,
            self.0 matches AppError::DataNotFound(s) ==> r@ == s@,
            self.0 matches AppError::DataConflict(s) ==> r@ == s@,
            self.0 matches AppError::Inconsistent(s) ==> r@ == s@,
            self.0 is Unexpected ==> r@ == "An internal server error occurred"@,
            self.0 is Unauthorized ==> r@ == "Unauthorized"@,
            self.0 is AccountLocked ==> r@ == "Account locked"@,
            self.0 is Forbidden ==> r@ == "Forbidden"@,
            self.0 is ServerBusy ==> r@ == "Server busy"@,
    {
        match &self.0 {
            AppError::BadRequest(s) => s.clone(),
            AppError::DataNotFound(s) => s.clone(),
            AppError::DataConflict(s) => s.clone(),
            AppError::Inconsistent(s) => s.clone(),
            AppError::Unexpected(_) => String::from_str("An internal server error occurred"),
            AppError::Unauthorized() => String::from_str("Unauthorized"),
            AppError::AccountLocked() => String::from_str("Account locked"),
            AppError::Forbidden() => String::from_str("Forbidden"),
            AppError::ServerBusy() => String::from_str("Server busy"),
        }
    }
}

impl From<AppError> for ApiError {
    fn from(e: AppError) -> (r: ApiError)
        ensures
            r.0 == e,
    {
        ApiError(e)
    }
}

impl vstd::std_specs::convert::FromSpecImpl<AppError> for ApiError {
    open spec fn obeys_from_spec() -> bool {
        true
    }

    open spec fn from_spec(e: AppError) -> ApiError {
        ApiError(e)
    }
}

} // verus!
