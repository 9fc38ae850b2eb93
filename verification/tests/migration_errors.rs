use expense_core::app_error::{AppError, ErrorSeverity};
use expense_core::migrations::errors::{
    ErrorAction, MetadataValue, MigrationError, MigrationErrorHandler, RecordLevel, RetryStrategy,
};

#[test]
fn test_migration_error_severity() {
    let error = MigrationError::Permission {
        message: "テスト".to_string(),
        user_id: 123,
        required_permission: "admin".to_string(),
        resource: "migration".to_string(),
    };

    assert_eq!(error.severity(), ErrorSeverity::Critical);
    assert_eq!(error.category(), "permission");
    assert_eq!(error.error_code(), "MIG_PERMISSION");
    assert!(error.requires_security_audit());
    assert!(!error.is_retryable());
}

#[test]
fn test_migration_error_log_metadata() {
    let error = MigrationError::FileMigration {
        message: "テストエラー".to_string(),
        old_path: "old/path".to_string(),
        new_path: "new/path".to_string(),
        user_id: 456,
        error_code: "TEST_ERROR".to_string(),
    };
    let metadata = error.log_metadata();
    let keys: Vec<&str> = metadata.iter().map(|(k, _)| k.as_str()).collect();
    assert!(keys.contains(&"error_type"));
    let find = |key: &str| metadata.iter().find(|(k, _)| k == key).map(|(_, v)| v.clone());
    assert!(matches!(find("error_type"), Some(MetadataValue::Text(t)) if t == "file_migration"));
    assert!(matches!(find("message"), Some(MetadataValue::Text(t)) if t == "テストエラー"));
    assert!(matches!(find("old_path"), Some(MetadataValue::Text(t)) if t == "old/path"));
    assert!(matches!(find("new_path"), Some(MetadataValue::Text(t)) if t == "new/path"));
    assert!(matches!(find("user_id"), Some(MetadataValue::Signed(456))));
    assert!(matches!(find("error_code"), Some(MetadataValue::Text(t)) if t == "TEST_ERROR"));
}

#[test]
fn test_error_action_handling() {
    let permission_error = MigrationError::Permission {
        message: "権限なし".to_string(),
        user_id: 123,
        required_permission: "admin".to_string(),
        resource: "migration".to_string(),
    };

    let action = MigrationErrorHandler::handle_error(&permission_error);
    assert_eq!(action, ErrorAction::Abort);

    let timeout_error = MigrationError::Timeout {
        message: "タイムアウト".to_string(),
        operation: "upload".to_string(),
        timeout_seconds: 30,
    };

    let action = MigrationErrorHandler::handle_error(&timeout_error);
    assert_eq!(action, ErrorAction::Retry);
}

#[test]
fn test_retry_strategy() {
    let error = MigrationError::R2Operation {
        message: "R2エラー".to_string(),
        operation: "upload".to_string(),
        bucket: "test-bucket".to_string(),
        key: "test-key".to_string(),
        status_code: Some(500),
    };
    let strategy = MigrationErrorHandler::get_retry_strategy(&error);
    assert_eq!(
        strategy,
        Some(RetryStrategy { max_attempts: 3, initial_delay_ms: 1000, backoff_multiplier_tenths: 20, max_delay_ms: 30000 })
    );
    let not_retryable = MigrationError::PreValidation { message: "x".to_string(), details: "y".to_string() };
    assert_eq!(MigrationErrorHandler::get_retry_strategy(&not_retryable), None);
}

#[test]
fn test_migration_error_conversion() {
    let migration_error = MigrationError::DatabaseUpdate {
        message: "DB更新エラー".to_string(),
        table_name: "expenses".to_string(),
        operation: "UPDATE".to_string(),
        affected_rows: Some(0),
    };

    let app_error: AppError = migration_error.into_app_error();
    assert!(matches!(app_error, AppError::Database(_)));

    let app_error = AppError::Validation("バリデーションエラー".to_string());
    let migration_error: Result<MigrationError, _> = MigrationError::try_from_app_error(app_error);
    assert!(migration_error.is_ok());
    assert!(matches!(
        migration_error.unwrap(),
        MigrationError::PreValidation { .. }
    ));
}

#[test]
fn conversion_keeps_displayed_message_and_not_found_stays() {
    let e = MigrationError::Timeout { message: "遅い".to_string(), operation: "x".to_string(), timeout_seconds: 1 };
    match e.into_app_error() {
        AppError::ExternalService(m) => assert_eq!(m, "タイムアウトエラー: 遅い"),
        other => panic!("unexpected {other:?}"),
    }
    let back = MigrationError::try_from_app_error(AppError::NotFound("nf".to_string()));
    assert!(matches!(back, Err(AppError::NotFound(m)) if m == "nf"));
}

#[test]
fn test_user_message() {
    let error = MigrationError::IntegrityValidation {
        message: "ハッシュ不一致".to_string(),
        validation_type: "file_hash".to_string(),
        expected: "abc123".to_string(),
        actual: "def456".to_string(),
    };

    let user_msg = error.user_message();
    assert!(user_msg.contains("整合性チェック"));
    assert!(user_msg.contains("中止"));
}

#[test]
fn error_record_levels_and_text() {
    let error = MigrationError::Permission {
        message: "権限なし".to_string(),
        user_id: 1,
        required_permission: "admin".to_string(),
        resource: "r".to_string(),
    };
    let (level, text) = MigrationErrorHandler::log_error(&error, None);
    assert_eq!(level, RecordLevel::Error);
    assert_eq!(text, "CRITICAL Migration Error [MIG_PERMISSION]: 権限エラー: 権限なし | Context: unknown | Metadata: ");
    let low = MigrationError::Timeout { message: "t".to_string(), operation: "o".to_string(), timeout_seconds: 3 };
    let (level, _) = MigrationErrorHandler::log_error(&low, Some("ctx"));
    assert_eq!(level, RecordLevel::Warn);
}

#[test]
fn audited_errors_are_aborted_and_not_retried() {
    let errors = vec![
        MigrationError::Permission { message: "m".to_string(), user_id: 1, required_permission: "p".to_string(), resource: "r".to_string() },
        MigrationError::IntegrityValidation { message: "m".to_string(), validation_type: "v".to_string(), expected: "e".to_string(), actual: "a".to_string() },
        MigrationError::Configuration { message: "m".to_string(), config_key: "k".to_string(), expected_type: "t".to_string() },
    ];
    for e in &errors {
        assert!(e.requires_security_audit());
        assert!(!e.is_retryable());
        assert_eq!(MigrationErrorHandler::handle_error(e), ErrorAction::Abort);
    }
}
