use expense_core::text::text_byte_prefix;
use expense_core::app_error::ErrorSeverity;
use expense_core::migrations::errors::{MetadataValue, MigrationError};
use expense_core::migrations::logging::{level_priority, FileMigrationLogParams, LogLevel, StructuredLogEntry, StructuredLogger};
use expense_core::migrations::security_audit::{
    classify_migration_error, InvestigationStatus, SecurityAuditEntry, SecurityAuditLogger, SecurityEventType,
};

#[test]
fn test_security_event_type_properties() {
    let event = SecurityEventType::UnauthorizedAccess;

    assert_eq!(event.severity(), ErrorSeverity::Critical);
    assert_eq!(event.event_code(), "SEC_UNAUTH_ACCESS");
    assert_eq!(event.description(), "不正なアクセスが試行されました");
}

#[test]
fn levels_follow_severity() {
    assert_eq!(LogLevel::from(ErrorSeverity::Low), LogLevel::Info);
    assert_eq!(LogLevel::from(ErrorSeverity::Medium), LogLevel::Warn);
    assert_eq!(LogLevel::from(ErrorSeverity::High), LogLevel::Error);
    assert_eq!(LogLevel::from(ErrorSeverity::Critical), LogLevel::Critical);
    assert!(level_priority(LogLevel::Debug) < level_priority(LogLevel::Critical));
}

#[test]
fn entry_builders_set_fields() {
    let e = StructuredLogEntry::new(LogLevel::Info, "cat", "msg", Some(3))
        .with_user_id(9)
        .with_error_code("E1")
        .with_context("k", MetadataValue::Signed(1))
        .with_context("k", MetadataValue::Signed(2))
        .with_context("j", MetadataValue::Null);
    assert_eq!(e.user_id, Some(9));
    assert_eq!(e.error_code, Some("E1".to_string()));
    assert_eq!(e.context.len(), 2);
    assert_eq!(e.context[0].0, "k");
    assert!(matches!(e.context[0].1, MetadataValue::Signed(2)));
    assert_eq!(e.context[1].0, "j");
}

#[test]
fn logger_keeps_latest_entries() {
    let mut logger = StructuredLogger::new(Some(3));
    logger.set_session_id("s1");
    for i in 0..5 {
        logger.info("cat", &format!("m{i}"), Some(i));
    }
    let buffer = logger.get_log_buffer();
    assert_eq!(buffer.len(), 3);
    let messages: Vec<&str> = buffer.iter().map(|e| e.message.as_str()).collect();
    assert_eq!(messages, vec!["m2", "m3", "m4"]);
    assert_eq!(buffer[0].session_id, Some("s1".to_string()));
    logger.clear_log_buffer();
    assert!(logger.get_log_buffer().is_empty());
}

#[test]
fn logger_filters_and_statistics() {
    let mut logger = StructuredLogger::new(None);
    logger.debug("a", "d", Some(1));
    logger.info("b", "i", Some(2));
    logger.warn("a", "w", Some(1));
    logger.error("c", "e", None);
    logger.critical("a", "c", Some(1));
    let at_least_warn = logger.get_logs_by_level(LogLevel::Warn);
    assert_eq!(at_least_warn.len(), 3);
    let run1 = logger.get_logs_by_migration_id(1);
    assert_eq!(run1.len(), 3);
    let stats = logger.get_log_statistics();
    assert_eq!(stats.total_entries, 5);
    assert_eq!(stats.debug_count, 1);
    assert_eq!(stats.warn_count, 1);
    assert_eq!(stats.critical_count, 1);
    assert_eq!(
        stats.category_counts,
        vec![("a".to_string(), 3), ("b".to_string(), 1), ("c".to_string(), 1)]
    );
}

#[test]
fn migration_lifecycle_entries() {
    let mut logger = StructuredLogger::new(None);
    logger.log_migration_start(7, 10, 5, true);
    logger.log_migration_complete(7, 9, 1, 1000);
    logger.log_file_migration(FileMigrationLogParams {
        migration_log_id: 7,
        old_path: "receipts/1/a".to_string(),
        new_path: "users/2/receipts/1/a".to_string(),
        user_id: 2,
        file_size: 10,
        success: false,
        duration_ms: Some(4),
    });
    let entries = logger.get_log_buffer();
    assert_eq!(entries.len(), 3);
    assert_eq!(entries[0].level, LogLevel::Info);
    assert_eq!(entries[0].message, "R2ユーザーディレクトリ移行を開始しました");
    assert_eq!(entries[1].level, LogLevel::Warn);
    assert_eq!(entries[2].level, LogLevel::Error);
    assert_eq!(entries[2].message, "ファイル移行失敗");
    assert_eq!(entries[2].user_id, Some(2));
}

#[test]
fn migration_errors_are_logged_with_audit() {
    let mut logger = StructuredLogger::new(None);
    let error = MigrationError::Permission {
        message: "権限なし".to_string(),
        user_id: 1,
        required_permission: "admin".to_string(),
        resource: "r".to_string(),
    };
    logger.log_migration_error(&error, Some(4), Some("ctx"));
    let entries = logger.get_log_buffer();
    assert_eq!(entries.len(), 2);
    assert_eq!(entries[0].level, LogLevel::Critical);
    assert_eq!(entries[0].category, "permission");
    assert_eq!(entries[0].error_code, Some("MIG_PERMISSION".to_string()));
    assert_eq!(entries[1].category, "security_audit");
    assert_eq!(entries[1].error_code, Some("SECURITY_MIG_PERMISSION".to_string()));
    let timeout = MigrationError::Timeout { message: "t".to_string(), operation: "o".to_string(), timeout_seconds: 1 };
    logger.log_migration_error(&timeout, None, None);
    assert_eq!(logger.get_log_buffer().len(), 3);
}

#[test]
fn test_security_audit_entry_creation() {
    let mut entry = SecurityAuditEntry::new(SecurityEventType::AuthorizationFailure, "テスト認可失敗", Some(123), Some(456))
        .with_affected_resource("test_resource")
        .with_source_ip("192.168.1.1")
        .with_context("test_key", MetadataValue::Text("test_value".to_string()));
    assert_eq!(entry.event_type, SecurityEventType::AuthorizationFailure);
    assert_eq!(entry.severity, ErrorSeverity::High);
    assert_eq!(entry.description, "テスト認可失敗");
    assert_eq!(entry.user_id, Some(123));
    assert_eq!(entry.migration_log_id, Some(456));
    assert_eq!(entry.affected_resource, Some("test_resource".to_string()));
    assert_eq!(entry.source_ip, Some("192.168.1.1".to_string()));
    assert_eq!(entry.investigation_status, InvestigationStatus::Pending);
    assert_eq!(entry.audit_id.len(), 36);
    entry.update_investigation_status(InvestigationStatus::Resolved);
    assert_eq!(entry.investigation_status, InvestigationStatus::Resolved);
}

#[test]
fn audit_raises_alert_beyond_threshold() {
    let mut logger = StructuredLogger::new(None);
    let mut audit = SecurityAuditLogger::new(None);
    audit.set_alert_threshold(SecurityEventType::AuthenticationFailure, 2);
    let e1 = SecurityAuditEntry::new(SecurityEventType::AuthenticationFailure, "f1", None, Some(1));
    audit.log_security_event(&mut logger, e1);
    let e2 = SecurityAuditEntry::new(SecurityEventType::AuthenticationFailure, "f2", None, Some(1));
    audit.log_security_event(&mut logger, e2);
    assert_eq!(audit.get_audit_logs().len(), 2);
    let e3 = SecurityAuditEntry::new(SecurityEventType::AuthenticationFailure, "f3", None, Some(1));
    audit.log_security_event(&mut logger, e3);
    let logs = audit.get_audit_logs();
    assert_eq!(logs.len(), 4);
    let alert = &logs[3];
    assert_eq!(alert.event_type, SecurityEventType::SecurityPolicyViolation);
    assert_eq!(alert.severity, ErrorSeverity::High);
    assert_eq!(alert.response_action, Some("immediate_investigation_required".to_string()));
    assert_eq!(
        alert.description,
        "セキュリティアラート: 認証に失敗しました イベントが閾値を超過しました (発生回数: 3, 閾値: 2)"
    );
    assert_eq!(audit.get_audit_logs_by_event_type(SecurityEventType::AuthenticationFailure).len(), 3);
    assert_eq!(audit.get_audit_logs_by_migration_id(1).len(), 3);
    assert_eq!(audit.get_audit_logs_by_severity(ErrorSeverity::High).len(), 1);
    let stats = audit.get_audit_statistics();
    assert_eq!(stats.total_events, 4);
    assert_eq!(stats.medium_severity_count, 3);
    assert_eq!(stats.high_severity_count, 1);
    audit.clear_audit_logs();
    assert!(audit.get_audit_logs().is_empty());
}

#[test]
fn single_unauthorized_access_raises_no_alert() {
    let mut logger = StructuredLogger::new(Some(100));
    let mut audit = SecurityAuditLogger::new(Some(50));
    audit.log_security_event(&mut logger, SecurityAuditEntry::new(SecurityEventType::AuthenticationFailure, "認証失敗テスト", Some(1), None));
    audit.log_security_event(&mut logger, SecurityAuditEntry::new(SecurityEventType::UnauthorizedAccess, "不正アクセステスト", Some(2), None));
    assert_eq!(audit.get_audit_logs().len(), 2);
    let stats = audit.get_audit_statistics();
    assert_eq!(stats.total_events, 2);
    assert_eq!(stats.medium_severity_count, 1);
    assert_eq!(stats.critical_severity_count, 1);
    audit.log_security_event(&mut logger, SecurityAuditEntry::new(SecurityEventType::UnauthorizedAccess, "再度", Some(2), None));
    let logs = audit.get_audit_logs();
    assert_eq!(logs.len(), 4);
    assert_eq!(logs[3].event_type, SecurityEventType::SecurityPolicyViolation);
    assert_eq!(logger.get_log_buffer().len(), 3);
}

#[test]
fn migration_errors_are_classified() {
    let e = MigrationError::Permission {
        message: "m".to_string(),
        user_id: 5,
        required_permission: "write".to_string(),
        resource: "bucket".to_string(),
    };
    let (t, d) = classify_migration_error(&e);
    assert_eq!(t, SecurityEventType::AuthorizationFailure);
    assert_eq!(d, "移行処理で権限エラーが発生: ユーザー5 が bucket に対する write 権限を持っていません - m");
    let other = MigrationError::Timeout { message: "x".to_string(), operation: "o".to_string(), timeout_seconds: 1 };
    let (t, d) = classify_migration_error(&other);
    assert_eq!(t, SecurityEventType::SecurityPolicyViolation);
    assert_eq!(d, "移行処理でセキュリティポリシー違反の可能性: タイムアウトエラー: x");
    let mut logger = StructuredLogger::new(None);
    let mut audit = SecurityAuditLogger::new(None);
    audit.log_migration_security_event(&mut logger, &e, Some(3), Some(5));
    let logs = audit.get_audit_logs();
    assert_eq!(logs[0].event_type, SecurityEventType::AuthorizationFailure);
    assert_eq!(logs[0].related_error, Some("権限エラー: m".to_string()));
}

#[test]
fn entries_rendered_for_people() {
    let e = StructuredLogEntry::at(0, LogLevel::Warn, "cat", "msg", Some(5))
        .with_user_id(7)
        .with_error_code("E")
        .with_context("k", MetadataValue::Text("v".to_string()))
        .with_context("n", MetadataValue::Signed(-2));
    assert_eq!(
        e.to_human_readable(),
        "[1970-01-01 09:00:00 JST] [WARN] [cat] [MIG:5] [USER:7] [E] msg Context: {\"k\":\"v\",\"n\":-2}"
    );
    let plain = StructuredLogEntry::at(86400, LogLevel::Info, "c", "m", None);
    assert_eq!(plain.to_human_readable(), "[1970-01-02 09:00:00 JST] [INFO] [c] m");
}

#[test]
fn audit_entries_rendered_for_people() {
    let mut e = SecurityAuditEntry::new(SecurityEventType::UnauthorizedAccess, "侵入", Some(3), None)
        .with_affected_resource("bucket/x")
        .with_source_ip("10.0.0.1");
    e.timestamp = 0;
    e.audit_id = "0123456789abcdef".to_string();
    assert_eq!(
        e.to_human_readable(),
        "[1970-01-01 09:00:00 JST] [SECURITY] [CRITICAL] [SEC_UNAUTH_ACCESS] [ID:01234567] [USER:3] 侵入 Resource: bucket/x IP: 10.0.0.1"
    );
    e.audit_id = "ééééab".to_string();
    assert!(e.to_human_readable().contains("[ID:éééé]"));
}

#[test]
fn byte_prefixes() {
    assert_eq!(text_byte_prefix("abcdefghij", 8), Some("abcdefgh".to_string()));
    assert_eq!(text_byte_prefix("abc", 8), None);
    assert_eq!(text_byte_prefix("aéééé", 8), None);
    assert_eq!(text_byte_prefix("ééééx", 8), Some("éééé".to_string()));
}

#[test]
fn test_structured_log_entry_creation() {
    let entry = StructuredLogEntry::new(LogLevel::Info, "test_category", "テストメッセージ", Some(123))
        .with_user_id(456)
        .with_context("test_key", MetadataValue::Text("test_value".to_string()));

    assert_eq!(entry.level, LogLevel::Info);
    assert_eq!(entry.category, "test_category");
    assert_eq!(entry.message, "テストメッセージ");
    assert_eq!(entry.migration_log_id, Some(123));
    assert_eq!(entry.user_id, Some(456));
    let value = entry.context.iter().find(|(k, _)| k == "test_key").map(|(_, v)| v.clone());
    assert!(matches!(value, Some(MetadataValue::Text(t)) if t == "test_value"));
}

#[test]
fn test_structured_log_entry_human_readable() {
    let entry = StructuredLogEntry::new(LogLevel::Warn, "warning_category", "警告メッセージ", Some(789))
        .with_user_id(123)
        .with_error_code("WARN_001");

    let readable = entry.to_human_readable();
    assert!(readable.contains("WARN"));
    assert!(readable.contains("warning_category"));
    assert!(readable.contains("警告メッセージ"));
    assert!(readable.contains("MIG:789"));
    assert!(readable.contains("USER:123"));
    assert!(readable.contains("WARN_001"));
}

#[test]
fn test_structured_logger_basic_operations() {
    let mut logger = StructuredLogger::new(Some(10));

    logger.info("test", "テスト情報", Some(1));
    logger.warn("test", "テスト警告", Some(1));
    logger.error("test", "テストエラー", Some(1));

    let buffer = logger.get_log_buffer();
    assert_eq!(buffer.len(), 3);

    let stats = logger.get_log_statistics();
    assert_eq!(stats.total_entries, 3);
    assert_eq!(stats.info_count, 1);
    assert_eq!(stats.warn_count, 1);
    assert_eq!(stats.error_count, 1);
}

#[test]
fn test_log_level_filtering() {
    let mut logger = StructuredLogger::new(Some(10));

    logger.debug("test", "デバッグ", None);
    logger.info("test", "情報", None);
    logger.warn("test", "警告", None);
    logger.error("test", "エラー", None);

    let warn_and_above = logger.get_logs_by_level(LogLevel::Warn);
    assert_eq!(warn_and_above.len(), 2);

    let error_and_above = logger.get_logs_by_level(LogLevel::Error);
    assert_eq!(error_and_above.len(), 1);
}

#[test]
fn test_migration_id_filtering() {
    let mut logger = StructuredLogger::new(Some(10));

    logger.info("test", "移行1", Some(1));
    logger.info("test", "移行1-2", Some(1));
    logger.info("test", "移行2", Some(2));
    logger.info("test", "一般", None);

    let migration_1_logs = logger.get_logs_by_migration_id(1);
    assert_eq!(migration_1_logs.len(), 2);

    let migration_2_logs = logger.get_logs_by_migration_id(2);
    assert_eq!(migration_2_logs.len(), 1);
}

#[test]
fn test_buffer_size_limit() {
    let mut logger = StructuredLogger::new(Some(3));

    for i in 0..5 {
        logger.info("test", &format!("メッセージ{}", i), None);
    }

    let buffer = logger.get_log_buffer();
    assert_eq!(buffer.len(), 3);

    assert!(buffer[0].message.contains("メッセージ2"));
    assert!(buffer[1].message.contains("メッセージ3"));
    assert!(buffer[2].message.contains("メッセージ4"));
}

#[test]
fn test_security_audit_entry_human_readable() {
    let entry = SecurityAuditEntry::new(SecurityEventType::PrivilegeEscalation, "権限昇格試行", Some(789), Some(101))
        .with_source_ip("10.0.0.1");

    let readable = entry.to_human_readable();
    assert!(readable.contains("SECURITY"));
    assert!(readable.contains("CRITICAL"));
    assert!(readable.contains("SEC_PRIV_ESC"));
    assert!(readable.contains("USER:789"));
    assert!(readable.contains("MIG:101"));
    assert!(readable.contains("権限昇格試行"));
    assert!(readable.contains("IP: 10.0.0.1"));
}

#[test]
fn test_migration_error_classification() {
    let permission_error = MigrationError::Permission {
        message: "アクセス拒否".to_string(),
        user_id: 123,
        required_permission: "admin".to_string(),
        resource: "migration".to_string(),
    };

    let (event_type, description) = classify_migration_error(&permission_error);
    assert_eq!(event_type, SecurityEventType::AuthorizationFailure);
    assert!(description.contains("権限エラー"));
    assert!(description.contains("ユーザー123"));

    let integrity_error = MigrationError::IntegrityValidation {
        message: "ハッシュ不一致".to_string(),
        validation_type: "file_hash".to_string(),
        expected: "abc123".to_string(),
        actual: "def456".to_string(),
    };

    let (event_type, description) = classify_migration_error(&integrity_error);
    assert_eq!(event_type, SecurityEventType::DataIntegrityViolation);
    assert!(description.contains("データ整合性違反"));
}

#[test]
fn test_audit_log_filtering() {
    let mut structured_logger = StructuredLogger::new(Some(100));
    let mut audit_logger = SecurityAuditLogger::new(Some(50));

    audit_logger.log_security_event(
        &mut structured_logger,
        SecurityAuditEntry::new(SecurityEventType::AuthenticationFailure, "認証失敗", None, None),
    );

    audit_logger.log_security_event(
        &mut structured_logger,
        SecurityAuditEntry::new(SecurityEventType::UnauthorizedAccess, "不正アクセス", None, None),
    );

    audit_logger.log_security_event(
        &mut structured_logger,
        SecurityAuditEntry::new(SecurityEventType::AbnormalFileAccess, "異常ファイルアクセス", None, None),
    );

    let high_and_above = audit_logger.get_audit_logs_by_severity(ErrorSeverity::High);
    assert_eq!(high_and_above.len(), 2);

    let critical_only = audit_logger.get_audit_logs_by_severity(ErrorSeverity::Critical);
    assert_eq!(critical_only.len(), 1);

    let auth_failures = audit_logger.get_audit_logs_by_event_type(SecurityEventType::AuthenticationFailure);
    assert_eq!(auth_failures.len(), 1);
}

#[test]
fn audit_statistics_count_kinds_and_statuses() {
    let mut logger = StructuredLogger::new(None);
    let mut audit = SecurityAuditLogger::new(None);
    audit.log_security_event(&mut logger, SecurityAuditEntry::new(SecurityEventType::AuthenticationFailure, "a", None, None));
    audit.log_security_event(&mut logger, SecurityAuditEntry::new(SecurityEventType::AbnormalFileAccess, "b", None, None));
    audit.log_security_event(&mut logger, SecurityAuditEntry::new(SecurityEventType::AuthenticationFailure, "c", None, None));
    let stats = audit.get_audit_statistics();
    assert_eq!(
        stats.event_type_counts,
        vec![(SecurityEventType::AuthenticationFailure, 2), (SecurityEventType::AbnormalFileAccess, 1)]
    );
    assert_eq!(stats.investigation_status_counts, vec![(InvestigationStatus::Pending, 3)]);
}
