//! Error bodies of the HTTP API and the mapping of domain errors to them.

use vstd::prelude::*;

verus! {

/// The errors of the legacy endpoints, each with its status and message.
#[derive(Debug)]
pub enum ApiError {
    /// 404.
    NotFound,
    /// 400, with the reason.
    InvalidInput(String),
    /// 500.
    InternalError,
}

impl ApiError {
    /// The HTTP status of the error.
    pub fn status_code(&self) -> (r: u16)
        ensures
            r == match self {
                ApiError::NotFound => 404u16,
                ApiError::InvalidInput(_) => 400u16,
                ApiError::InternalError => 500u16,
            },
    {
        match self {
            ApiError::NotFound => 404,
            ApiError::InvalidInput(_) => 400,
            ApiError::InternalError => 500,
        }
    }

    /// The message put under `error` in the JSON body.
    pub fn error_message(&self) -> (r: String)
        ensures
            r@ == match self {
                ApiError::NotFound => "Resource Not Found"@,
                ApiError::InvalidInput(m) => "Invalid Input: "@ + m@,
                ApiError::InternalError => "Internal Server Error"@,
            },
    {
        match self {
            ApiError::NotFound => String::from_str("Resource Not Found"),
            ApiError::InvalidInput(m) => String::from_str("Invalid Input: ").concat(m.as_str()),
            ApiError::InternalError => String::from_str("Internal Server Error"),
        }
    }
}

/// Machine-readable error code returned in every error body.
#[derive(Clone, Copy, Debug, PartialEq, Eq, Structural, Hash)]
pub enum ErrorCode {
    /// A domain field failed validation.
    AlertValidationFailed,
    /// The requested alert does not exist.
    AlertNotFound,
    /// The database returned an error for the query.
    DatabaseError,
    /// The connection to the database could not be established.
    DatabaseConnectionError,
    /// The request body could not be deserialised.
    InvalidRequestBody,
    /// The identifier in the URL path is not a valid alert identifier.
    InvalidIdentifier,
    /// An unexpected internal error occurred.
    InternalError,
}

/// The wire name of an error code.
pub open spec fn error_code_name(c: ErrorCode) -> Seq<char> {
    match c {
        ErrorCode::AlertValidationFailed => "ALERT_VALIDATION_FAILED"@,
        ErrorCode::AlertNotFound => "ALERT_NOT_FOUND"@,
        ErrorCode::DatabaseError => "DATABASE_ERROR"@,
        ErrorCode::DatabaseConnectionError => "DATABASE_CONNECTION_ERROR"@,
        ErrorCode::InvalidRequestBody => "INVALID_REQUEST_BODY"@,
        ErrorCode::InvalidIdentifier => "INVALID_IDENTIFIER"@,
        ErrorCode::InternalError => "INTERNAL_ERROR"@,
    }
}

impl ErrorCode {
    /// The wire name of the code, in screaming snake case.
    pub fn as_str(&self) -> (r: &'static str)
        ensures
            r@ == error_code_name(*self),
    {
        match self {
            ErrorCode::AlertValidationFailed => "ALERT_VALIDATION_FAILED",
            ErrorCode::AlertNotFound => "ALERT_NOT_FOUND",
            ErrorCode::DatabaseError => "DATABASE_ERROR",
            ErrorCode::DatabaseConnectionError => "DATABASE_CONNECTION_ERROR",
            ErrorCode::InvalidRequestBody => "INVALID_REQUEST_BODY",
            ErrorCode::InvalidIdentifier => "INVALID_IDENTIFIER",
            ErrorCode::InternalError => "INTERNAL_ERROR",
        }
    }
}

/// Unified error body returned by all endpoints.
#[derive(Debug)]
pub struct ApiErrorResponse {
    pub code: ErrorCode,
    pub message: String,
    pub status: u16,
}

/// The abstract contents of an error body: code, message and status.
pub open spec fn body_of(r: ApiErrorResponse) -> (ErrorCode, Seq<char>, u16) {
    (r.code, r.message@, r.status)
}

/// Whether `s` is a status that HTTP responses can carry (100 to 999).
pub open spec fn is_valid_status(s: u16) -> bool {
    100 <= s && s <= 999
}

impl ApiErrorResponse {
    /// An error body with the given code, message and status.
    pub fn new(code: ErrorCode, message: String, status: u16) -> (r: Self)
        ensures
            body_of(r) == (code, message@, status),
    {
        ApiErrorResponse { code, message, status }
    }

    /// The body for a request whose JSON body could not be read: code
    /// `INVALID_REQUEST_BODY`, status 422, and the reason as the message.
    pub fn from_body_rejection(message: String) -> (r: Self)
        ensures
            body_of(r) == (ErrorCode::InvalidRequestBody, message@, 422u16),
            r.status == status_of_code(r.code),
    {
        ApiErrorResponse::new(ErrorCode::InvalidRequestBody, message, 422)
    }

    /// The body for a path identifier that is not a valid alert identifier:
    /// code `INVALID_IDENTIFIER`, status 400, and the reason as the message.
    pub fn from_invalid_identifier(message: String) -> (r: Self)
        ensures
            body_of(r) == (ErrorCode::InvalidIdentifier, message@, 400u16),
            r.status == status_of_code(r.code),
    {
        ApiErrorResponse::new(ErrorCode::InvalidIdentifier, message, 400)
    }

    /// The status the response is sent with: the recorded one when HTTP
    /// allows it, and 500 otherwise.
    pub fn response_status(&self) -> (r: u16)
        ensures
            r == if is_valid_status(self.status) {
                self.status
            } else {
                500u16
            },
    {
        if 100 <= self.status && self.status <= 999 {
            self.status
        } else {
            500
        }
    }
}

/// Why creating an alert failed.
#[derive(Debug)]
pub enum CreateAlertError {
    ValidationError(String),
    DatabaseError(String),
    DatabaseConnectionError(String),
}

/// Why replacing an alert failed.
#[derive(Debug)]
pub enum UpdateAlertError {
    ValidationError(String),
    NotFound,
    DatabaseError(String),
    DatabaseConnectionError(String),
}

/// Why listing the latest alerts failed.
#[derive(Debug)]
pub enum GetLatestAlertsError {
    DatabaseError(String),
    DatabaseConnectionError(String),
    DataConversionError(String),
}

/// Why partially updating an alert failed.
#[derive(Debug)]
pub enum PatchAlertError {
    ValidationError(String),
    NotFound,
    DatabaseError(String),
    DatabaseConnectionError(String),
    DataConversionError(String),
}

/// Why listing today's alerts failed.
#[derive(Debug)]
pub enum GetDailyAlertsError {
    DatabaseError(String),
    DatabaseConnectionError(String),
    DataConversionError(String),
}

/// Why deleting an alert failed.
#[derive(Debug)]
pub enum DeleteAlertError {
    NotFound,
    DatabaseError(String),
    DatabaseConnectionError(String),
}

/// The body for a failed alert creation.
pub open spec fn create_alert_error_body(e: CreateAlertError) -> (ErrorCode, Seq<char>, u16) {
    match e {
        CreateAlertError::ValidationError(m) => (ErrorCode::AlertValidationFailed, m@, 400u16),
        CreateAlertError::DatabaseError(m) => (ErrorCode::DatabaseError, m@, 500u16),
        CreateAlertError::DatabaseConnectionError(m) => (
            ErrorCode::DatabaseConnectionError,
            m@,
            500u16,
        ),
    }
}

/// The body for a failed alert replacement.
pub open spec fn update_alert_error_body(e: UpdateAlertError) -> (ErrorCode, Seq<char>, u16) {
    match e {
        UpdateAlertError::ValidationError(m) => (ErrorCode::AlertValidationFailed, m@, 400u16),
        UpdateAlertError::NotFound => (ErrorCode::AlertNotFound, "alert not found"@, 404u16),
        UpdateAlertError::DatabaseError(m) => (ErrorCode::DatabaseError, m@, 500u16),
        UpdateAlertError::DatabaseConnectionError(m) => (
            ErrorCode::DatabaseConnectionError,
            m@,
            500u16,
        ),
    }
}

/// The body for a failed listing of the latest alerts.
pub open spec fn get_latest_alerts_error_body(e: GetLatestAlertsError) -> (
    ErrorCode,
    Seq<char>,
    u16,
) {
    match e {
        GetLatestAlertsError::DatabaseError(m) => (ErrorCode::DatabaseError, m@, 500u16),
        GetLatestAlertsError::DatabaseConnectionError(m) => (
            ErrorCode::DatabaseConnectionError,
            m@,
            500u16,
        ),
        GetLatestAlertsError::DataConversionError(m) => (ErrorCode::InternalError, m@, 500u16),
    }
}

/// The body for a failed partial update.
pub open spec fn patch_alert_error_body(e: PatchAlertError) -> (ErrorCode, Seq<char>, u16) {
    match e {
        PatchAlertError::ValidationError(m) => (ErrorCode::AlertValidationFailed, m@, 400u16),
        PatchAlertError::NotFound => (ErrorCode::AlertNotFound, "alert not found"@, 404u16),
        PatchAlertError::DatabaseError(m) => (ErrorCode::DatabaseError, m@, 500u16),
        PatchAlertError::DatabaseConnectionError(m) => (
            ErrorCode::DatabaseConnectionError,
            m@,
            500u16,
        ),
        PatchAlertError::DataConversionError(m) => (ErrorCode::InternalError, m@, 500u16),
    }
}

/// The body for a failed listing of today's alerts.
pub open spec fn get_daily_alerts_error_body(e: GetDailyAlertsError) -> (
    ErrorCode,
    Seq<char>,
    u16,
) {
    match e {
        GetDailyAlertsError::DatabaseError(m) => (ErrorCode::DatabaseError, m@, 500u16),
        GetDailyAlertsError::DatabaseConnectionError(m) => (
            ErrorCode::DatabaseConnectionError,
            m@,
            500u16,
        ),
        GetDailyAlertsError::DataConversionError(m) => (ErrorCode::InternalError, m@, 500u16),
    }
}

/// The body for a failed deletion.
pub open spec fn delete_alert_error_body(e: DeleteAlertError) -> (ErrorCode, Seq<char>, u16) {
    match e {
        DeleteAlertError::NotFound => (ErrorCode::AlertNotFound, "alert not found"@, 404u16),
        DeleteAlertError::DatabaseError(m) => (ErrorCode::DatabaseError, m@, 500u16),
        DeleteAlertError::DatabaseConnectionError(m) => (
            ErrorCode::DatabaseConnectionError,
            m@,
            500u16,
        ),
    }
}

/// The status that goes with each error code, whatever the operation: a
/// validation failure or a bad identifier is a client error (400), an
/// unreadable body 422, a missing alert 404, and a database or internal
/// failure a server error (500).
pub open spec fn status_of_code(c: ErrorCode) -> u16 {
    match c {
        ErrorCode::AlertValidationFailed => 400,
        ErrorCode::AlertNotFound => 404,
        ErrorCode::DatabaseError => 500,
        ErrorCode::DatabaseConnectionError => 500,
        ErrorCode::InvalidRequestBody => 422,
        ErrorCode::InvalidIdentifier => 400,
        ErrorCode::InternalError => 500,
    }
}

/// Whatever alert operation fails, a validation error is answered with code
/// `ALERT_VALIDATION_FAILED` and status 400, carrying the validation
/// message; a missing alert with `ALERT_NOT_FOUND` and 404; a database
/// error with `DATABASE_ERROR` and 500; a connection error with
/// `DATABASE_CONNECTION_ERROR` and 500; a conversion error with
/// `INTERNAL_ERROR` and 500. In every body the status is the one that goes
/// with its code.
pub proof fn lemma_error_bodies_follow_their_code(
    c: CreateAlertError,
    u: UpdateAlertError,
    l: GetLatestAlertsError,
    p: PatchAlertError,
    d: GetDailyAlertsError,
    x: DeleteAlertError,
)
    ensures
        create_alert_error_body(c).2 == status_of_code(create_alert_error_body(c).0),
        update_alert_error_body(u).2 == status_of_code(update_alert_error_body(u).0),
        get_latest_alerts_error_body(l).2 == status_of_code(get_latest_alerts_error_body(l).0),
        patch_alert_error_body(p).2 == status_of_code(patch_alert_error_body(p).0),
        get_daily_alerts_error_body(d).2 == status_of_code(get_daily_alerts_error_body(d).0),
        delete_alert_error_body(x).2 == status_of_code(delete_alert_error_body(x).0),
        c matches CreateAlertError::ValidationError(m) ==> create_alert_error_body(c) == (
            ErrorCode::AlertValidationFailed,
            m@,
            400u16,
        ),
        u matches UpdateAlertError::ValidationError(m) ==> update_alert_error_body(u) == (
            ErrorCode::AlertValidationFailed,
            m@,
            400u16,
        ),
        p matches PatchAlertError::ValidationError(m) ==> patch_alert_error_body(p) == (
            ErrorCode::AlertValidationFailed,
            m@,
            400u16,
        ),
        u is NotFound ==> update_alert_error_body(u).0 == ErrorCode::AlertNotFound
            && update_alert_error_body(u).2 == 404,
        p is NotFound ==> patch_alert_error_body(p).0 == ErrorCode::AlertNotFound
            && patch_alert_error_body(p).2 == 404,
        x is NotFound ==> delete_alert_error_body(x).0 == ErrorCode::AlertNotFound
            && delete_alert_error_body(x).2 == 404,
        c is DatabaseError ==> create_alert_error_body(c).0 == ErrorCode::DatabaseError,
        u is DatabaseError ==> update_alert_error_body(u).0 == ErrorCode::DatabaseError,
        l is DatabaseError ==> get_latest_alerts_error_body(l).0 == ErrorCode::DatabaseError,
        p is DatabaseError ==> patch_alert_error_body(p).0 == ErrorCode::DatabaseError,
        d is DatabaseError ==> get_daily_alerts_error_body(d).0 == ErrorCode::DatabaseError,
        x is DatabaseError ==> delete_alert_error_body(x).0 == ErrorCode::DatabaseError,
        c is DatabaseConnectionError ==> create_alert_error_body(c).0
            == ErrorCode::DatabaseConnectionError,
        u is DatabaseConnectionError ==> update_alert_error_body(u).0
            == ErrorCode::DatabaseConnectionError,
        l is DatabaseConnectionError ==> get_latest_alerts_error_body(l).0
            == ErrorCode::DatabaseConnectionError,
        p is DatabaseConnectionError ==> patch_alert_error_body(p).0
            == ErrorCode::DatabaseConnectionError,
        d is DatabaseConnectionError ==> get_daily_alerts_error_body(d).0
            == ErrorCode::DatabaseConnectionError,
        x is DatabaseConnectionError ==> delete_alert_error_body(x).0
            == ErrorCode::DatabaseConnectionError,
        l is DataConversionError ==> get_latest_alerts_error_body(l).0 == ErrorCode::InternalError,
        p is DataConversionError ==> patch_alert_error_body(p).0 == ErrorCode::InternalError,
        d is DataConversionError ==> get_daily_alerts_error_body(d).0 == ErrorCode::InternalError,
{
}

impl ApiErrorResponse {
    /// The body for a failed alert creation: a validation failure is 400,
    /// a database failure 500.
    pub fn from_create_alert_error(err: CreateAlertError) -> (r: Self)
        ensures
            body_of(r) == create_alert_error_body(err),
            r.status == status_of_code(r.code),
    {
        match err {
            CreateAlertError::ValidationError(msg) => ApiErrorResponse::new(
                ErrorCode::AlertValidationFailed,
                msg,
                400,
            ),
            CreateAlertError::DatabaseError(msg) => ApiErrorResponse::new(
                ErrorCode::DatabaseError,
                msg,
                500,
            ),
            CreateAlertError::DatabaseConnectionError(msg) => ApiErrorResponse::new(
                ErrorCode::DatabaseConnectionError,
                msg,
                500,
            ),
        }
    }

    /// The body for a failed alert replacement: a validation failure is
    /// 400, a missing alert 404, a database failure 500.
    pub fn from_update_alert_error(err: UpdateAlertError) -> (r: Self)
        ensures
            body_of(r) == update_alert_error_body(err),
            r.status == status_of_code(r.code),
    {
        match err {
            UpdateAlertError::ValidationError(msg) => ApiErrorResponse::new(
                ErrorCode::AlertValidationFailed,
                msg,
                400,
            ),
            UpdateAlertError::NotFound => ApiErrorResponse::new(
                ErrorCode::AlertNotFound,
                String::from_str("alert not found"),
                404,
            ),
            UpdateAlertError::DatabaseError(msg) => ApiErrorResponse::new(
                ErrorCode::DatabaseError,
                msg,
                500,
            ),
            UpdateAlertError::DatabaseConnectionError(msg) => ApiErrorResponse::new(
                ErrorCode::DatabaseConnectionError,
                msg,
                500,
            ),
        }
    }

    /// The body for a failed listing of the latest alerts: always 500.
    pub fn from_get_latest_alerts_error(err: GetLatestAlertsError) -> (r: Self)
        ensures
            body_of(r) == get_latest_alerts_error_body(err),
            r.status == status_of_code(r.code),
    {
        match err {
            GetLatestAlertsError::DatabaseError(msg) => ApiErrorResponse::new(
                ErrorCode::DatabaseError,
                msg,
                500,
            ),
            GetLatestAlertsError::DatabaseConnectionError(msg) => ApiErrorResponse::new(
                ErrorCode::DatabaseConnectionError,
                msg,
                500,
            ),
            GetLatestAlertsError::DataConversionError(msg) => ApiErrorResponse::new(
                ErrorCode::InternalError,
                msg,
                500,
            ),
        }
    }

    /// The body for a failed partial update: a validation failure is 400,
    /// a missing alert 404, anything else 500.
    pub fn from_patch_alert_error(err: PatchAlertError) -> (r: Self)
        ensures
            body_of(r) == patch_alert_error_body(err),
            r.status == status_of_code(r.code),
    {
        match err {
            PatchAlertError::ValidationError(msg) => ApiErrorResponse::new(
                ErrorCode::AlertValidationFailed,
                msg,
                400,
            ),
            PatchAlertError::NotFound => ApiErrorResponse::new(
                ErrorCode::AlertNotFound,
                String::from_str("alert not found"),
                404,
            ),
            PatchAlertError::DatabaseError(msg) => ApiErrorResponse::new(
                ErrorCode::DatabaseError,
                msg,
                500,
            ),
            PatchAlertError::DatabaseConnectionError(msg) => ApiErrorResponse::new(
                ErrorCode::DatabaseConnectionError,
                msg,
                500,
            ),
            PatchAlertError::DataConversionError(msg) => ApiErrorResponse::new(
                ErrorCode::InternalError,
                msg,
                500,
            ),
        }
    }

    /// The body for a failed listing of today's alerts: always 500.
    pub fn from_get_daily_alerts_error(err: GetDailyAlertsError) -> (r: Self)
        ensures
            body_of(r) == get_daily_alerts_error_body(err),
            r.status == status_of_code(r.code),
    {
        match err {
            GetDailyAlertsError::DatabaseError(msg) => ApiErrorResponse::new(
                ErrorCode::DatabaseError,
                msg,
                500,
            ),
            GetDailyAlertsError::DatabaseConnectionError(msg) => ApiErrorResponse::new(
                ErrorCode::DatabaseConnectionError,
                msg,
                500,
            ),
            GetDailyAlertsError::DataConversionError(msg) => ApiErrorResponse::new(
                ErrorCode::InternalError,
                msg,
                500,
            ),
        }
    }

    /// The body for a failed deletion: a missing alert is 404, a database
    /// failure 500.
    pub fn from_delete_alert_error(err: DeleteAlertError) -> (r: Self)
        ensures
            body_of(r) == delete_alert_error_body(err),
            r.status == status_of_code(r.code),
    {
        match err {
            DeleteAlertError::NotFound => ApiErrorResponse::new(
                ErrorCode::AlertNotFound,
                String::from_str("alert not found"),
                404,
            ),
            DeleteAlertError::DatabaseError(msg) => ApiErrorResponse::new(
                ErrorCode::DatabaseError,
                msg,
                500,
            ),
            DeleteAlertError::DatabaseConnectionError(msg) => ApiErrorResponse::new(
                ErrorCode::DatabaseConnectionError,
                msg,
                500,
            ),
        }
    }
}

} // verus!
