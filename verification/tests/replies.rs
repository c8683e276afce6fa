use solana_service::envelope::ApiResponse;
use solana_service::error::AppError;
use solana_service::handlers::health_check;
use solana_service::models::{OperationKind, RecordStatus};

#[test]
fn success_envelope_carries_data_and_no_error() {
    let reply = ApiResponse::success(7u32);
    assert!(reply.success);
    assert_eq!(reply.data, Some(7));
    assert_eq!(reply.error, None);
}

#[test]
fn error_envelope_carries_message_and_no_data() {
    let reply: ApiResponse<u32> = ApiResponse::error("Invalid wallet address");
    assert!(!reply.success);
    assert_eq!(reply.data, None);
    assert_eq!(reply.error, Some("Invalid wallet address".to_string()));
}

#[test]
fn health_check_reports_running() {
    let reply = health_check();
    assert!(reply.success);
    assert_eq!(reply.data, Some("Solana service is running"));
    assert_eq!(reply.error, None);
}

#[test]
fn storage_failure_is_a_server_error_without_detail() {
    let reply = AppError::Database("relation does not exist".to_string()).into_response();
    assert_eq!(reply.status, 500);
    assert!(!reply.success);
    assert_eq!(reply.error, "Database error");
    assert_eq!(reply.code, Some("DB_ERROR".to_string()));
}

#[test]
fn transport_failure_is_a_client_error_with_detail() {
    let reply = AppError::Solana("insufficient funds".to_string()).into_response();
    assert_eq!(reply.status, 400);
    assert_eq!(reply.error, "Blockchain error: insufficient funds");
    assert_eq!(reply.code, Some("SOLANA_ERROR".to_string()));
}

#[test]
fn program_failure_is_a_client_error_with_detail() {
    let reply = AppError::SolanaProgram("incorrect program id".to_string()).into_response();
    assert_eq!(reply.status, 400);
    assert_eq!(reply.error, "Program error: incorrect program id");
    assert_eq!(reply.code, Some("PROGRAM_ERROR".to_string()));
}

#[test]
fn invalid_input_shows_its_message() {
    let reply = AppError::InvalidInput("Invalid mint address".to_string()).into_response();
    assert_eq!(reply.status, 400);
    assert_eq!(reply.error, "Invalid mint address");
    assert_eq!(reply.code, Some("INVALID_INPUT".to_string()));
}

#[test]
fn not_found_shows_its_message() {
    let reply = AppError::NotFound("No such mint".to_string()).into_response();
    assert_eq!(reply.status, 404);
    assert_eq!(reply.error, "No such mint");
    assert_eq!(reply.code, Some("NOT_FOUND".to_string()));
}

#[test]
fn unauthorized_has_a_fixed_reply() {
    let reply = AppError::Unauthorized.into_response();
    assert_eq!(reply.status, 401);
    assert_eq!(reply.error, "Unauthorized");
    assert_eq!(reply.code, Some("UNAUTHORIZED".to_string()));
}

#[test]
fn internal_failure_is_a_server_error_without_detail() {
    let error = AppError::Internal("stack trace".to_string());
    assert_eq!(error.status_code(), 500);
    assert_eq!(error.code(), "INTERNAL_ERROR");
    assert_eq!(error.message(), "Internal server error");
    let reply = error.into_response();
    assert_eq!(reply.status, 500);
    assert_eq!(reply.error, "Internal server error");
    assert_eq!(reply.code, Some("INTERNAL_ERROR".to_string()));
}

#[test]
fn kinds_are_named_and_read_back() {
    assert_eq!(OperationKind::Mint.label(), "mint");
    assert_eq!(OperationKind::Transfer.label(), "transfer");
    assert_eq!(OperationKind::from_label("mint"), Some(OperationKind::Mint));
    assert_eq!(OperationKind::from_label("transfer"), Some(OperationKind::Transfer));
    assert_eq!(OperationKind::from_label("burn"), None);
}

#[test]
fn statuses_are_named_and_read_back() {
    assert_eq!(RecordStatus::Pending.label(), "pending");
    assert_eq!(RecordStatus::Confirmed.label(), "confirmed");
    assert_eq!(RecordStatus::Failed.label(), "failed");
    assert_eq!(RecordStatus::NotFound.label(), "not_found");
    assert_eq!(RecordStatus::from_label("pending"), Some(RecordStatus::Pending));
    assert_eq!(RecordStatus::from_label("confirmed"), Some(RecordStatus::Confirmed));
    assert_eq!(RecordStatus::from_label("failed"), Some(RecordStatus::Failed));
    assert_eq!(RecordStatus::from_label("not_found"), Some(RecordStatus::NotFound));
    assert_eq!(RecordStatus::from_label("Confirmed"), None);
}
