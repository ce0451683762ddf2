//! The closed set of failure kinds, and the fixed policy that turns each into
//! a transport status and a caller-visible message.

use vstd::prelude::*;
use vstd::string::StringExecFns;

verus! {

/// A failure of any component. Kinds that carry a `String` hold an internal
/// detail; only `BadRequest` ever shows its detail to the caller.
#[derive(Debug)]
pub enum AppError {
    Unauthorized,
    Forbidden,
    NotFound,
    BadRequest(String),
    Internal(String),
    ExternalApi(String),
    Database(String),
    Config(String),
}

/// The inner object of an error response.
#[derive(Debug)]
pub struct ErrorBody {
    pub message: String,
    pub code: u16,
}

/// What the transport sends for a failure: the status line's code and the
/// body `{ "error": { "message": .., "code": .. } }`.
#[derive(Debug)]
pub struct ErrorResponse {
    pub status: u16,
    pub error: ErrorBody,
}

impl AppError {
    /// The transport status of each kind.
    pub open spec fn status(self) -> u16 {
        match self {
            AppError::Unauthorized => 401,
            AppError::Forbidden => 403,
            AppError::NotFound => 404,
            AppError::BadRequest(_) => 400,
            AppError::Internal(_) => 500,
            AppError::ExternalApi(_) => 502,
            AppError::Database(_) => 500,
            AppError::Config(_) => 500,
        }
    }

    /// The message the caller is shown.
    pub open spec fn caller_message(self) -> Seq<char> {
        match self {
            AppError::Unauthorized => "Authentication required"@,
            AppError::Forbidden => "Permission denied"@,
            AppError::NotFound => "Resource not found"@,
            AppError::BadRequest(detail) => detail@,
            AppError::Internal(_) => "Internal server error"@,
            AppError::ExternalApi(_) => "External service error"@,
            AppError::Database(_) => "Database error"@,
            AppError::Config(_) => "Server configuration error"@,
        }
    }

    /// The full description, internal detail included, as written to the log.
    pub open spec fn log_text(self) -> Seq<char> {
        match self {
            AppError::Unauthorized => "Authentication required"@,
            AppError::Forbidden => "Permission denied"@,
            AppError::NotFound => "Resource not found"@,
            AppError::BadRequest(detail) => "Invalid request: "@ + detail@,
            AppError::Internal(detail) => "Internal server error: "@ + detail@,
            AppError::ExternalApi(detail) => "External API error: "@ + detail@,
            AppError::Database(detail) => "Database error: "@ + detail@,
            AppError::Config(detail) => "Configuration error: "@ + detail@,
        }
    }

    /// Whether two errors are of the same kind, whatever detail they carry.
    pub open spec fn same_kind(self, other: AppError) -> bool {
        match (self, other) {
            (AppError::Unauthorized, AppError::Unauthorized) => true,
            (AppError::Forbidden, AppError::Forbidden) => true,
            (AppError::NotFound, AppError::NotFound) => true,
            (AppError::BadRequest(_), AppError::BadRequest(_)) => true,
            (AppError::Internal(_), AppError::Internal(_)) => true,
            (AppError::ExternalApi(_), AppError::ExternalApi(_)) => true,
            (AppError::Database(_), AppError::Database(_)) => true,
            (AppError::Config(_), AppError::Config(_)) => true,
            _ => false,
        }
    }

    pub fn status_code(&self) -> (code: u16)
        ensures
            code == self.status(),
    {
        match self {
            AppError::Unauthorized => 401,
            AppError::Forbidden => 403,
            AppError::NotFound => 404,
            AppError::BadRequest(_) => 400,
            AppError::Internal(_) => 500,
            AppError::ExternalApi(_) => 502,
            AppError::Database(_) => 500,
            AppError::Config(_) => 500,
        }
    }

    pub fn user_message(&self) -> (message: String)
        ensures
            message@ == self.caller_message(),
    {
        match self {
            AppError::Unauthorized => "Authentication required".to_owned(),
            AppError::Forbidden => "Permission denied".to_owned(),
            AppError::NotFound => "Resource not found".to_owned(),
            AppError::BadRequest(detail) => detail.clone(),
            AppError::Internal(_) => "Internal server error".to_owned(),
            AppError::ExternalApi(_) => "External service error".to_owned(),
            AppError::Database(_) => "Database error".to_owned(),
            AppError::Config(_) => "Server configuration error".to_owned(),
        }
    }

    /// The description with its detail, for logs; never for the caller.
    pub fn to_string(&self) -> (text: String)
        ensures
            text@ == self.log_text(),
    {
        match self {
            AppError::Unauthorized => "Authentication required".to_owned(),
            AppError::Forbidden => "Permission denied".to_owned(),
            AppError::NotFound => "Resource not found".to_owned(),
            AppError::BadRequest(detail) => "Invalid request: ".to_owned().concat(detail.as_str()),
            AppError::Internal(detail) => "Internal server error: ".to_owned().concat(
                detail.as_str(),
            ),
            AppError::ExternalApi(detail) => "External API error: ".to_owned().concat(
                detail.as_str(),
            ),
            AppError::Database(detail) => "Database error: ".to_owned().concat(detail.as_str()),
            AppError::Config(detail) => "Configuration error: ".to_owned().concat(
                detail.as_str(),
            ),
        }
    }

    /// Whether the detail is written to the log when the error is answered.
    pub fn is_logged(&self) -> (logged: bool)
        ensures
            logged == (self is Internal || self is ExternalApi || self is Database
                || self is Config),
    {
        match self {
            AppError::Internal(_) => true,
            AppError::ExternalApi(_) => true,
            AppError::Database(_) => true,
            AppError::Config(_) => true,
            _ => false,
        }
    }

    /// Maps the error to what the transport answers. The code in the body
    /// mirrors the status.
    pub fn into_response(self) -> (response: ErrorResponse)
        ensures
            response.status == self.status(),
            response.error.code == self.status(),
            response.error.message@ == self.caller_message(),
    {
        let status = self.status_code();
        let message = self.user_message();
        ErrorResponse { status, error: ErrorBody { message, code: status } }
    }

    /// A failed outbound call: transport failure, timeout, or a status
    /// outside 2xx.
    pub fn from_transport(detail: String) -> (error: AppError)
        ensures
            error == AppError::ExternalApi(detail),
    {
        AppError::ExternalApi(detail)
    }

    /// A variable that the process needs and its environment lacks.
    pub fn from_environment(detail: String) -> (error: AppError)
        ensures
            error == AppError::Config(detail),
    {
        AppError::Config(detail)
    }

    /// Any failure that no other kind describes.
    pub fn from_unexpected(detail: String) -> (error: AppError)
        ensures
            error == AppError::Internal(detail),
    {
        AppError::Internal(detail)
    }
}

/// Every kind has one status, and every kind but `BadRequest` one message:
/// two errors of the same kind are answered alike whatever detail they carry.
pub proof fn response_fixed_by_kind(a: AppError, b: AppError)
    requires
        a.same_kind(b),
    ensures
        a.status() == b.status(),
        !(a is BadRequest) ==> a.caller_message() == b.caller_message(),
{
}

/// The status of every kind is one of the five codes of the taxonomy, and a
/// bad request shows exactly its own detail.
pub proof fn status_policy(e: AppError)
    ensures
        e.status() == 400 || e.status() == 401 || e.status() == 403 || e.status() == 404
            || e.status() == 500 || e.status() == 502,
        e.status() == 400 <==> e is BadRequest,
        e.status() == 502 <==> e is ExternalApi,
        e is BadRequest ==> e.caller_message() == e->BadRequest_0@,
{
}

} // verus!
