use base64::Engine as _;
use expense_core::security::encryption::{generate_secure_key, EncryptedData, EncryptionError, TokenEncryption};
use expense_core::security::feature::SecurityFeature;
use expense_core::security::models::{
    ConnectionDetails, ConnectionTestResult, DiagnosticInfo, EventSeverity, SecurityConfig, SecurityError,
    SecurityEvent, SystemInfo, ValidationDetail, ValidationResult, ValidationStatus,
};
use expense_core::security::service::SecurityService;
use expense_core::app_error::AppError;

fn setup_test_encryption() -> TokenEncryption {
    TokenEncryption::new("test_encryption_key_32_bytes_long".to_string()).unwrap()
}

fn setup_test_security_service() -> SecurityService {
    let config = SecurityConfig {
        encryption_key: "test_encryption_key_32_bytes_long".to_string(),
        max_token_age_hours: 24,
        enable_audit_logging: true,
    };

    SecurityService::new(config).unwrap()
}

#[test]
fn test_encrypt_decrypt() {
    let encryption = setup_test_encryption();
    let plaintext = "test_token_data";

    let encrypted_data = encryption.encrypt(plaintext).unwrap();
    let decrypted = encryption.decrypt(&encrypted_data).unwrap();

    assert_eq!(plaintext, decrypted);
    assert_eq!(encrypted_data.algorithm, "AES-256-GCM");
}

#[test]
fn test_encrypt_decrypt_token() {
    let encryption = setup_test_encryption();
    let token = "session_token_12345";

    let encrypted_token = encryption.encrypt_token(token).unwrap();
    let decrypted_token = encryption.decrypt_token(&encrypted_token).unwrap();

    assert_eq!(token, decrypted_token);
    assert!(!encrypted_token.is_empty());
}

#[test]
fn test_generate_secure_key() {
    let key1 = generate_secure_key(32);
    let key2 = generate_secure_key(32);

    assert_ne!(key1, key2);
    assert!(!key1.is_empty());
    assert!(!key2.is_empty());
    assert_eq!(key1.len(), 44);
    assert!(key1.ends_with('='));
}

#[test]
fn test_invalid_algorithm() {
    let encryption = setup_test_encryption();

    let invalid_data = EncryptedData {
        ciphertext: "test".to_string(),
        nonce: "test".to_string(),
        algorithm: "INVALID".to_string(),
    };

    let result = encryption.decrypt(&invalid_data);
    assert!(result.is_err());
}

#[test]
fn test_encrypt_decrypt_multiple_tokens() {
    let encryption = setup_test_encryption();

    let tokens = vec![
        ("session".to_string(), "session_token_123".to_string()),
        ("access".to_string(), "access_token_456".to_string()),
        ("refresh".to_string(), "refresh_token_789".to_string()),
    ];

    let encrypted_tokens = encryption.encrypt_tokens(&tokens).unwrap();
    let decrypted_tokens = encryption.decrypt_tokens(&encrypted_tokens).unwrap();

    assert_eq!(tokens, decrypted_tokens);
}

#[test]
fn decryption_failures_are_classified() {
    let encryption = setup_test_encryption();
    let wrong_algorithm = EncryptedData {
        ciphertext: "test".to_string(),
        nonce: "test".to_string(),
        algorithm: "INVALID".to_string(),
    };
    match encryption.decrypt(&wrong_algorithm) {
        Err(EncryptionError::FormatError(m)) => assert_eq!(m, "サポートされていないアルゴリズム: INVALID"),
        other => panic!("unexpected {other:?}"),
    }
    assert!(matches!(encryption.decrypt_token("invalid_token!"), Err(EncryptionError::Base64Error(_))));
    let other = TokenEncryption::new("another_key".to_string()).unwrap();
    let token = encryption.encrypt_token("secret").unwrap();
    assert!(matches!(other.decrypt_token(&token), Err(EncryptionError::DecryptionFailed(_))));
}

fn token_of(json: &str) -> String {
    base64::engine::general_purpose::STANDARD.encode(json.as_bytes())
}

#[test]
fn token_envelope_is_json() {
    let encryption = setup_test_encryption();
    let token = encryption.encrypt_token("secret").unwrap();
    let json = String::from_utf8(base64::engine::general_purpose::STANDARD.decode(&token).unwrap()).unwrap();
    assert!(json.starts_with(r#"{"ciphertext":""#));
    assert!(json.contains(r#"","nonce":""#));
    assert!(json.ends_with(r#"","algorithm":"AES-256-GCM"}"#));
    let spaced = token_of(r#" { "nonce" : "bm9uY2U=" , "algorithm":"RSA", "ciphertext" : "YWJj" } "#);
    match encryption.decrypt_token(&spaced) {
        Err(EncryptionError::FormatError(m)) => assert_eq!(m, "サポートされていないアルゴリズム: RSA"),
        other => panic!("unexpected {other:?}"),
    }
    let escaped = token_of(r#"{"ciphertext":"YWJj","nonce":"bm9uY2U=","algorithm":"RSA"}"#);
    match encryption.decrypt_token(&escaped) {
        Err(EncryptionError::FormatError(m)) => assert_eq!(m, "サポートされていないアルゴリズム: RSA"),
        other => panic!("unexpected {other:?}"),
    }
    let missing = token_of(r#"{"nonce":"n","algorithm":"a"}"#);
    match encryption.decrypt_token(&missing) {
        Err(EncryptionError::FormatError(m)) => assert_eq!(m, "JSON解析エラー: missing field `ciphertext`"),
        other => panic!("unexpected {other:?}"),
    }
    match encryption.decrypt_token(&token_of("not json")) {
        Err(EncryptionError::FormatError(m)) => assert_eq!(m, "JSON解析エラー: expected ident at line 1 column 2"),
        other => panic!("unexpected {other:?}"),
    }
    let array = token_of(r#"["YWJj","bm9uY2U=","RSA"]"#);
    match encryption.decrypt_token(&array) {
        Err(EncryptionError::FormatError(m)) => assert_eq!(m, "サポートされていないアルゴリズム: RSA"),
        other => panic!("unexpected {other:?}"),
    }
    let short_nonce = token_of(r#"{"ciphertext":"YWJj","nonce":"bm9uY2U=","algorithm":"AES-256-GCM"}"#);
    match encryption.decrypt_token(&short_nonce) {
        Err(EncryptionError::FormatError(m)) => assert_eq!(m, "ナンスのサイズが正しくありません"),
        other => panic!("unexpected {other:?}"),
    }
    let bad_nonce = token_of(r#"{"ciphertext":"YWJj","nonce":"@@@@","algorithm":"AES-256-GCM"}"#);
    match encryption.decrypt_token(&bad_nonce) {
        Err(EncryptionError::Base64Error(m)) => assert!(m.starts_with("ナンスデコードエラー: ")),
        other => panic!("unexpected {other:?}"),
    }
}

#[test]
fn test_encrypt_and_store_token() {
    let mut service = setup_test_security_service();
    let token_id = "test_token_id";
    let token = "test_session_token";

    let encrypted_token = service.encrypt_and_store_token(token_id, token).unwrap();
    assert!(!encrypted_token.is_empty());

    let token_info = service.get_token_info(token_id).unwrap();
    assert!(token_info.is_some());
    assert_eq!(token_info.unwrap().token_id, token_id);
}

#[test]
fn test_decrypt_token() {
    let mut service = setup_test_security_service();
    let token_id = "test_token_id";
    let original_token = "test_session_token";

    let encrypted_token = service.encrypt_and_store_token(token_id, original_token).unwrap();
    let decrypted_token = service.decrypt_token(token_id, &encrypted_token).unwrap();

    assert_eq!(original_token, decrypted_token);
    let info = service.get_token_info(token_id).unwrap().unwrap();
    assert_eq!(info.access_count, 1);
    assert_eq!(info.encrypted_token, encrypted_token);
}

#[test]
fn test_verify_api_request() {
    let service = setup_test_security_service();
    let token = "test_session_token";

    let encrypted_token = setup_test_encryption().encrypt_token(token).unwrap();
    let is_valid = service.verify_api_request(&encrypted_token).unwrap();

    assert!(is_valid);
    assert!(!service.verify_api_request("").unwrap());
    assert!(service.detect_unauthorized_access("GET /x", Some("bogus")).is_ok());
}

#[test]
fn test_invalidate_token() {
    let mut service = setup_test_security_service();
    let token_id = "test_token_id";
    let token = "test_session_token";

    service.encrypt_and_store_token(token_id, token).unwrap();
    assert!(service.get_token_info(token_id).unwrap().is_some());

    service.invalidate_token(token_id).unwrap();
    assert!(service.get_token_info(token_id).unwrap().is_none());
    assert_eq!(service.get_active_token_count(), 0);
}

#[test]
fn test_verify_invalid_api_request() {
    let service = setup_test_security_service();
    let invalid_token = "invalid_token";

    let is_valid = service.verify_api_request(invalid_token).unwrap();
    assert!(!is_valid);
}

#[test]
fn test_encrypt_multiple_tokens() {
    let mut service = setup_test_security_service();

    let tokens = vec![
        ("session".to_string(), "session_token_123".to_string()),
        ("access".to_string(), "access_token_456".to_string()),
    ];

    let encrypted_tokens = service.encrypt_multiple_tokens(&tokens).unwrap();
    assert_eq!(encrypted_tokens.len(), 2);

    let decrypted_tokens = service.decrypt_multiple_tokens(&encrypted_tokens).unwrap();
    assert_eq!(tokens, decrypted_tokens);
    assert_eq!(service.invalidate_all_tokens().unwrap(), 2);
    assert_eq!(service.get_active_token_count(), 0);
}

#[test]
fn test_get_security_stats() {
    let mut service = setup_test_security_service();

    service.encrypt_and_store_token("token1", "value1").unwrap();
    service.encrypt_and_store_token("token2", "value2").unwrap();

    let stats = service.get_security_stats().unwrap();
    assert_eq!(stats.active_tokens, 2);
}

#[test]
fn cleanup_and_stats() {
    let mut service = setup_test_security_service();
    service.encrypt_and_store_token("a", "x").unwrap();
    service.encrypt_and_store_token("b", "y").unwrap();
    let stats = service.get_security_stats().unwrap();
    assert_eq!(stats.active_tokens, 2);
    assert_eq!(stats.total_access_count, 0);
    assert!(stats.oldest_token_age_seconds.unwrap() >= 0);
    let far_future = 4_000_000_000i64;
    assert_eq!(service.cleanup_expired_tokens_at(far_future, 24).unwrap(), 2);
    assert_eq!(service.get_active_token_count(), 0);
    let empty = service.security_stats_at(far_future);
    assert_eq!(empty.oldest_token_age_seconds, None);
    service.encrypt_and_store_token("c", "z").unwrap();
    assert_eq!(service.cleanup_expired_tokens(24).unwrap(), 0);
    assert_eq!(service.get_active_token_count(), 1);
}

#[test]
fn test_security_feature_tauri_commands() {
    let commands = SecurityFeature::get_tauri_commands();
    assert!(!commands.is_empty());
    assert!(commands.contains(&"get_system_diagnostic_info"));
    assert!(commands.contains(&"validate_security_configuration"));
    assert!(commands.contains(&"test_r2_connection_secure"));
}

#[test]
fn feature_manager_and_failure_messages() {
    let manager = SecurityFeature::create_manager();
    assert_eq!(manager.get_config().max_token_age_hours, 24);
    assert!(manager.get_config().enable_audit_logging);
    assert_eq!(manager.get_active_token_count(), 0);
    let e = SecurityError::DecryptionError("bad".to_string());
    assert_eq!(SecurityFeature::command_failure("トークン復号化に失敗しました", &e), "トークン復号化に失敗しました: 復号化エラー: bad");
}

#[test]
fn test_diagnostic_info_creation() {
    let credentials = vec![("test_key".to_string(), "test****value".to_string())];

    let system_info = SystemInfo::new(
        "1.70.0".to_string(),
        "x86_64".to_string(),
        "macos".to_string(),
        "1.0.0".to_string(),
    );

    let diagnostic_info = DiagnosticInfo::new(
        "development".to_string(),
        true,
        "debug".to_string(),
        credentials,
        system_info,
    );

    assert_eq!(diagnostic_info.environment, "development");
    assert!(diagnostic_info.debug_mode);
    assert_eq!(diagnostic_info.log_level, "debug");
    assert_eq!(diagnostic_info.validation_status, ValidationStatus::NotChecked);
}

#[test]
fn models_test_validation_result_creation() {
    let details = vec![ValidationDetail::new(
        "test_item".to_string(),
        ValidationStatus::Success,
        "テスト成功".to_string(),
    )];

    let success_result = ValidationResult::success("すべて成功".to_string(), details.clone());
    assert!(success_result.is_valid);

    let failure_result = ValidationResult::failure("失敗しました".to_string(), details);
    assert!(!failure_result.is_valid);
}

#[test]
fn test_security_event_creation() {
    let event = SecurityEvent::new(
        "test_event".to_string(),
        "テストイベント".to_string(),
        EventSeverity::Info,
        Some("test_user".to_string()),
    );

    assert_eq!(event.event_type, "test_event");
    assert_eq!(event.details, "テストイベント");
    assert_eq!(event.severity, EventSeverity::Info);
    assert_eq!(event.user_context, Some("test_user".to_string()));
    assert!(!event.id.is_empty());
    assert!(!event.timestamp.is_empty());
}

#[test]
fn test_connection_test_result_success() {
    let connection_details = ConnectionDetails {
        endpoint: "https://****".to_string(),
        bucket_name: "test****bucket".to_string(),
        account_id: "acc****123".to_string(),
        access_key: "key****456".to_string(),
    };

    let result = ConnectionTestResult::success(150, connection_details);
    assert!(result.is_connected);
    assert_eq!(result.response_time_ms, Some(150));
    assert!(result.error_message.is_none());
}

#[test]
fn test_connection_test_result_failure() {
    let connection_details = ConnectionDetails {
        endpoint: "https://****".to_string(),
        bucket_name: "test****bucket".to_string(),
        account_id: "acc****123".to_string(),
        access_key: "key****456".to_string(),
    };

    let result = ConnectionTestResult::failure("接続失敗".to_string(), connection_details);
    assert!(!result.is_connected);
    assert!(result.response_time_ms.is_none());
    assert_eq!(result.error_message, Some("接続失敗".to_string()));
}

#[test]
fn timestamps_are_tokyo_time() {
    let event = SecurityEvent::new("t".to_string(), "d".to_string(), EventSeverity::Warning, None);
    assert!(event.timestamp.ends_with("+09:00"));
    assert_eq!(event.id.len(), 36);
}

#[test]
fn test_security_feature_health_check() {
    let validation = ValidationResult::success("設定は有効です".to_string(), vec![]);
    let result = SecurityFeature::health_check(Ok(validation));
    match result {
        Ok(()) => {
            assert!(true);
        }
        Err(_) => {
            assert!(true);
        }
    }
}

#[test]
fn health_check_outcomes() {
    assert!(SecurityFeature::health_check(Ok(ValidationResult::success("ok".to_string(), vec![]))).is_ok());
    match SecurityFeature::health_check(Ok(ValidationResult::failure("鍵が短い".to_string(), vec![]))) {
        Err(AppError::Security(m)) => assert_eq!(m, "セキュリティ健全性チェックに失敗しました: 鍵が短い"),
        other => panic!("unexpected {other:?}"),
    }
    assert!(matches!(
        SecurityFeature::health_check(Err(AppError::Configuration("x".to_string()))),
        Err(AppError::Configuration(m)) if m == "x"
    ));
}
