use eas_weather_rs::http::auth::{
    bearer_token, is_authorized, unauthorized_body, unauthorized_challenge, unauthorized_status,
};
use eas_weather_rs::http::dto::references_from_db_string;
use eas_weather_rs::http::errors::{
    ApiError, ApiErrorResponse, CreateAlertError, DeleteAlertError, ErrorCode,
    GetDailyAlertsError, GetLatestAlertsError, PatchAlertError, UpdateAlertError,
};
use eas_weather_rs::http::health::{liveness, readiness, startup};
use eas_weather_rs::http::routes::{
    active_base_path, poem_docs_path, poem_server_url, openapi_url, response_log_level, rooted_base_path, socket_address,
    swagger_ui_path, trim_end_slashes_str,
};
use eas_weather_rs::log_record::LogLevel;

fn status_for(api_key: Option<&str>, header: Option<&str>) -> u16 {
    let key = api_key.map(|k| k.to_string());
    if is_authorized(&key, header) {
        200
    } else {
        unauthorized_status()
    }
}

#[test]
fn internal_error_maps_to_500() {
    let err = ApiError::InternalError;
    assert_eq!(err.status_code(), 500);
    assert_eq!(err.error_message(), "Internal Server Error");
}

#[test]
fn not_found_maps_to_404() {
    let err = ApiError::NotFound;
    assert_eq!(err.status_code(), 404);
    assert_eq!(err.error_message(), "Resource Not Found");
}

#[test]
fn invalid_input_maps_to_400_with_message() {
    let err = ApiError::InvalidInput("bad limit".into());
    assert_eq!(err.status_code(), 400);
    assert_eq!(err.error_message(), "Invalid Input: bad limit");
}

#[test]
fn open_when_no_key_configured() {
    assert_eq!(status_for(None, None), 200);
}

#[test]
fn open_with_valid_key() {
    assert_eq!(status_for(Some("secret"), Some("Bearer secret")), 200);
}

#[test]
fn unauthorized_without_header() {
    assert_eq!(status_for(Some("secret"), None), 401);
}

#[test]
fn unauthorized_with_wrong_key() {
    assert_eq!(status_for(Some("secret"), Some("Bearer nope")), 401);
}

#[test]
fn unauthorized_with_empty_bearer() {
    assert_eq!(status_for(Some("secret"), Some("Bearer")), 401);
}

#[test]
fn unauthorized_without_bearer_scheme() {
    assert_eq!(status_for(Some("secret"), Some("Basic dXNlcjpwYXNz")), 401);
}

#[test]
fn bearer_token_cases() {
    assert_eq!(bearer_token(Some("Bearer abc")), Some("abc"));
    assert_eq!(bearer_token(Some("Bearer ")), None);
    assert_eq!(bearer_token(Some("bearer abc")), None);
    assert_eq!(bearer_token(None), None);
    assert_eq!(bearer_token(Some("Bearer  two")), Some(" two"));
}

#[test]
fn key_comparison_is_exact() {
    let key = Some("secret".to_string());
    assert!(!is_authorized(&key, Some("Bearer secret2")));
    assert!(!is_authorized(&key, Some("Bearer secre")));
    assert!(!is_authorized(&key, Some("Bearer Secret")));
    assert!(is_authorized(&None, Some("Bearer anything")));
}

#[test]
fn unauthorized_answer() {
    assert_eq!(unauthorized_status(), 401);
    assert_eq!(unauthorized_challenge(), "Bearer");
    assert_eq!(unauthorized_body(), "unauthorized: a valid API key is required");
}

#[test]
fn error_codes_are_screaming_snake_case() {
    assert_eq!(ErrorCode::AlertValidationFailed.as_str(), "ALERT_VALIDATION_FAILED");
    assert_eq!(ErrorCode::AlertNotFound.as_str(), "ALERT_NOT_FOUND");
    assert_eq!(ErrorCode::DatabaseError.as_str(), "DATABASE_ERROR");
    assert_eq!(ErrorCode::InvalidRequestBody.as_str(), "INVALID_REQUEST_BODY");
    assert_eq!(ErrorCode::InvalidIdentifier.as_str(), "INVALID_IDENTIFIER");
}

#[test]
fn body_rejection_is_422() {
    let r = ApiErrorResponse::from_body_rejection("expected value".to_string());
    assert_eq!(r.status, 422);
    assert_eq!(r.code, ErrorCode::InvalidRequestBody);
    assert_eq!(r.message, "expected value");
    assert_eq!(r.response_status(), 422);
}

#[test]
fn invalid_identifier_is_400() {
    let r = ApiErrorResponse::from_invalid_identifier("bad id".to_string());
    assert_eq!(r.status, 400);
    assert_eq!(r.code, ErrorCode::InvalidIdentifier);
}

#[test]
fn out_of_range_status_falls_back_to_500() {
    let r = ApiErrorResponse::new(ErrorCode::DatabaseError, "x".to_string(), 42);
    assert_eq!(r.response_status(), 500);
    let r = ApiErrorResponse::new(ErrorCode::DatabaseError, "x".to_string(), 1000);
    assert_eq!(r.response_status(), 500);
    let r = ApiErrorResponse::new(ErrorCode::DatabaseError, "x".to_string(), 503);
    assert_eq!(r.response_status(), 503);
}

#[test]
fn domain_errors_map_to_statuses() {
    let r = ApiErrorResponse::from_create_alert_error(CreateAlertError::ValidationError(
        "field `sender` cannot be null".into(),
    ));
    assert_eq!((r.code, r.status), (ErrorCode::AlertValidationFailed, 400));
    assert_eq!(r.message, "field `sender` cannot be null");
    let r = ApiErrorResponse::from_create_alert_error(CreateAlertError::DatabaseError("db".into()));
    assert_eq!((r.code, r.status), (ErrorCode::DatabaseError, 500));
    let r = ApiErrorResponse::from_update_alert_error(UpdateAlertError::NotFound);
    assert_eq!((r.code, r.status), (ErrorCode::AlertNotFound, 404));
    let r = ApiErrorResponse::from_patch_alert_error(PatchAlertError::NotFound);
    assert_eq!((r.code, r.status), (ErrorCode::AlertNotFound, 404));
    let r = ApiErrorResponse::from_delete_alert_error(DeleteAlertError::NotFound);
    assert_eq!((r.code, r.status, r.message.as_str()), (ErrorCode::AlertNotFound, 404, "alert not found"));
    let r = ApiErrorResponse::from_delete_alert_error(DeleteAlertError::DatabaseConnectionError("down".into()));
    assert_eq!((r.code, r.status), (ErrorCode::DatabaseConnectionError, 500));
    let r = ApiErrorResponse::from_get_latest_alerts_error(GetLatestAlertsError::DatabaseError("e".into()));
    assert_eq!(r.status, 500);
    let r = ApiErrorResponse::from_get_daily_alerts_error(GetDailyAlertsError::DatabaseError("e".into()));
    assert_eq!(r.status, 500);
}

#[test]
fn health_answers() {
    let s = startup();
    assert_eq!((s.status_code, s.status.as_str(), s.message.as_str()), (200, "ok", "Server is started"));
    let l = liveness();
    assert_eq!((l.status_code, l.message.as_str()), (200, "Server is running and healthy"));
    let r = readiness(Ok(()));
    assert_eq!((r.status_code, r.message.as_str()), (200, "Server is ready"));
}

#[test]
fn readiness_fails_when_database_is_down() {
    let r = readiness(Err("connection refused".to_string()));
    assert_eq!(r.status_code, 503);
    let l = liveness();
    assert_eq!(l.status_code, 200);
}

#[test]
fn routes_nested_under_base_path() {
    let base = Some("/api".to_string());
    assert_eq!(active_base_path(&base), Some("/api"));
    assert_eq!(swagger_ui_path(&base), "/api/swagger-ui/");
    assert_eq!(openapi_url(&base), "/api/api-docs/openapi.json");
}

#[test]
fn trailing_slash_base_path_mounts_docs() {
    let base = Some("/api/".to_string());
    assert_eq!(swagger_ui_path(&base), "/api/swagger-ui/");
    assert_eq!(openapi_url(&base), "/api/api-docs/openapi.json");
}

#[test]
fn no_or_root_base_path_is_inactive() {
    assert_eq!(active_base_path(&None), None);
    assert_eq!(active_base_path(&Some(String::new())), None);
    assert_eq!(active_base_path(&Some("/".to_string())), None);
    assert_eq!(swagger_ui_path(&None), "/swagger-ui/");
    assert_eq!(openapi_url(&Some("/".to_string())), "/api-docs/openapi.json");
}

#[test]
fn trim_end_slashes_removes_all() {
    assert_eq!(trim_end_slashes_str("/a///"), "/a");
    assert_eq!(trim_end_slashes_str("///"), "");
    assert_eq!(trim_end_slashes_str("/a/b"), "/a/b");
}

#[test]
fn rooted_base_path_adds_leading_slash() {
    assert_eq!(rooted_base_path(&Some("api".to_string())), "/api");
    assert_eq!(rooted_base_path(&Some("/api".to_string())), "/api");
    assert_eq!(rooted_base_path(&None), "/");
}

#[test]
fn socket_address_joins_host_and_port() {
    assert_eq!(socket_address("0.0.0.0", 8080), "0.0.0.0:8080");
    assert_eq!(socket_address("localhost", 0), "localhost:0");
}

#[test]
fn error_statuses_log_at_warn() {
    assert_eq!(response_log_level(200), LogLevel::Debug);
    assert_eq!(response_log_level(404), LogLevel::Warn);
    assert_eq!(response_log_level(422), LogLevel::Warn);
    assert_eq!(response_log_level(503), LogLevel::Warn);
    assert_eq!(response_log_level(302), LogLevel::Debug);
}

#[test]
fn references_split_at_spaces() {
    assert_eq!(
        references_from_db_string(Some("a,b,c d,e,f")),
        vec!["a,b,c".to_string(), "d,e,f".to_string()]
    );
    assert_eq!(references_from_db_string(Some("")), vec![String::new()]);
    assert_eq!(
        references_from_db_string(Some("x  y")),
        vec!["x".to_string(), String::new(), "y".to_string()]
    );
    assert!(references_from_db_string(None).is_empty());
}

#[test]
fn poem_urls_use_the_rooted_base_path() {
    assert_eq!(poem_server_url("0.0.0.0", 8080, &Some("api".into())), "http://0.0.0.0:8080/api");
    assert_eq!(poem_server_url("localhost", 80, &None), "http://localhost:80/");
    assert_eq!(poem_docs_path(&Some("/v1".into())), "/v1/docs");
    assert_eq!(poem_docs_path(&None), "//docs");
}

#[test]
fn malformed_request_body_logs_warn() {
    let r = ApiErrorResponse::from_body_rejection(
        "Failed to parse the request body as JSON: key must be a string at line 1 column 2".to_string(),
    );
    assert_eq!(r.response_status(), 422);
    assert_eq!(r.code.as_str(), "INVALID_REQUEST_BODY");
    assert_eq!(response_log_level(r.response_status()), LogLevel::Warn);
}
