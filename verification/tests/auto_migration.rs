use expense_core::migrations::auto_migration::errors::MigrationErrorType;
use expense_core::migrations::auto_migration::executor::{
    ExecutableMigrationDefinition, MigrationExecutor, MigrationExecutorKind,
};
use expense_core::migrations::auto_migration::models::{
    AppliedMigration, AutoMigrationResult, MigrationDefinition, MigrationExecutionResult, MigrationStatusReport,
};
use expense_core::migrations::auto_migration::registry::MigrationRegistry;

fn create_test_migration(name: &str, version: &str) -> MigrationDefinition {
    MigrationDefinition::new(
        name.to_string(),
        version.to_string(),
        format!("テストマイグレーション {name}"),
        "a".repeat(64),
    )
}

#[test]
fn test_executor_creation() {
    let executor = MigrationExecutor::new();
    let _ = executor;
}

#[test]
fn test_migration_definition_validation() {
    let valid_migration = MigrationDefinition::new(
        "test_migration".to_string(),
        "1.0.0".to_string(),
        "テストマイグレーション".to_string(),
        "a".repeat(64),
    );
    assert!(valid_migration.validate().is_ok());

    let invalid_name = MigrationDefinition::new(
        "".to_string(),
        "1.0.0".to_string(),
        "テスト".to_string(),
        "a".repeat(64),
    );
    assert!(invalid_name.validate().is_err());

    let invalid_checksum = MigrationDefinition::new(
        "test".to_string(),
        "1.0.0".to_string(),
        "テスト".to_string(),
        "abc".to_string(),
    );
    assert!(invalid_checksum.validate().is_err());
}

#[test]
fn validation_reports_first_failed_check() {
    let no_version = MigrationDefinition::new("m".to_string(), "".to_string(), "d".to_string(), "a".repeat(64));
    assert_eq!(no_version.validate(), Err("バージョンが空です".to_string()));
    let short = MigrationDefinition::new("m".to_string(), "1".to_string(), "d".to_string(), "abc".to_string());
    assert_eq!(short.validate(), Err("チェックサムの長さが無効です（64文字のSHA-256が必要）".to_string()));
    let not_hex = MigrationDefinition::new("m".to_string(), "1".to_string(), "d".to_string(), "g".repeat(64));
    assert_eq!(not_hex.validate(), Err("チェックサムが無効な形式です（16進数文字列が必要）".to_string()));
    let upper = MigrationDefinition::new("m".to_string(), "1".to_string(), "d".to_string(), "AF".repeat(32));
    assert!(upper.validate().is_ok());
}

#[test]
fn test_applied_migration_checksum_verification() {
    let applied_migration = AppliedMigration::new(
        1,
        "test_migration".to_string(),
        "1.0.0".to_string(),
        Some("テスト".to_string()),
        "abc123".to_string(),
        "2024-01-01T00:00:00+09:00".to_string(),
        Some(1000),
        "2024-01-01T00:00:00+09:00".to_string(),
    );

    assert!(applied_migration.verify_checksum("abc123"));
    assert!(!applied_migration.verify_checksum("different"));
}

#[test]
fn status_report_pending() {
    let report = MigrationStatusReport::new(
        10,
        7,
        vec!["migration1".to_string(), "migration2".to_string()],
        Some("2024-01-01T00:00:00+09:00".to_string()),
        "1.0.0".to_string(),
    );
    assert!(report.has_pending_migrations());
    let complete = MigrationStatusReport::new(5, 5, vec![], None, "1.0.0".to_string());
    assert!(!complete.has_pending_migrations());
}

#[test]
fn test_auto_migration_result_creation() {
    let success_result = AutoMigrationResult::success(
        "マイグレーション完了".to_string(),
        vec!["migration1".to_string()],
        Some("backup.db".to_string()),
        5000,
    );

    assert!(success_result.success);
    assert_eq!(success_result.applied_migrations.len(), 1);
    assert_eq!(success_result.total_execution_time_ms, 5000);

    let failure_result = AutoMigrationResult::failure(
        "マイグレーション失敗".to_string(),
        Some("backup.db".to_string()),
    );

    assert!(!failure_result.success);
    assert!(failure_result.applied_migrations.is_empty());
    assert_eq!(failure_result.total_execution_time_ms, 0);
}

#[test]
fn test_registry_creation() {
    let registry = MigrationRegistry::new();
    assert!(registry.is_empty());
    assert_eq!(registry.count(), 0);
}

#[test]
fn test_executable_migration_registration() {
    let mut registry = MigrationRegistry::new();
    let definition = create_test_migration("test_migration", "1.0.0");
    let executable_migration =
        ExecutableMigrationDefinition::new(definition, MigrationExecutorKind::BasicSchema);

    assert!(registry.register_executable(executable_migration).is_ok());
    assert_eq!(registry.count(), 1);
    assert!(!registry.is_empty());
}

#[test]
fn test_duplicate_executable_migration_registration() {
    let mut registry = MigrationRegistry::new();
    let definition1 = create_test_migration("test_migration", "1.0.0");
    let executable_migration1 =
        ExecutableMigrationDefinition::new(definition1, MigrationExecutorKind::BasicSchema);

    let definition2 = create_test_migration("test_migration", "2.0.0");
    let executable_migration2 =
        ExecutableMigrationDefinition::new(definition2, MigrationExecutorKind::UserAuth);

    assert!(registry.register_executable(executable_migration1).is_ok());
    assert!(registry.register_executable(executable_migration2).is_err());
}

#[test]
fn invalid_definition_is_refused_by_registry() {
    let mut registry = MigrationRegistry::new();
    let bad = MigrationDefinition::new("x".to_string(), "1.0.0".to_string(), "d".to_string(), "abc".to_string());
    let err = registry
        .register_executable(ExecutableMigrationDefinition::new(bad, MigrationExecutorKind::BasicSchema))
        .unwrap_err();
    assert_eq!(err.error_type, MigrationErrorType::Validation);
    assert_eq!(registry.count(), 0);
}

#[test]
fn test_executable_migration_lookup() {
    let mut registry = MigrationRegistry::new();
    let definition = create_test_migration("test_migration", "1.0.0");
    let executable_migration =
        ExecutableMigrationDefinition::new(definition, MigrationExecutorKind::BasicSchema);

    registry.register_executable(executable_migration).unwrap();

    let found = registry.find_executable_migration("test_migration");
    assert!(found.is_some());
    assert_eq!(found.unwrap().name(), "test_migration");

    let not_found = registry.find_executable_migration("nonexistent");
    assert!(not_found.is_none());
}

#[test]
fn test_get_migration_names() {
    let mut registry = MigrationRegistry::new();
    let definition1 = create_test_migration("migration1", "1.0.0");
    let executable_migration1 =
        ExecutableMigrationDefinition::new(definition1, MigrationExecutorKind::BasicSchema);
    let definition2 = create_test_migration("migration2", "1.0.0");
    let executable_migration2 =
        ExecutableMigrationDefinition::new(definition2, MigrationExecutorKind::UserAuth);

    registry.register_executable(executable_migration1).unwrap();
    registry.register_executable(executable_migration2).unwrap();

    let names = registry.get_migration_names();
    assert_eq!(names.len(), 2);
    assert!(names.contains(&"migration1".to_string()));
    assert!(names.contains(&"migration2".to_string()));
}

#[test]
fn checksum_is_sha256_of_text() {
    assert_eq!(
        MigrationRegistry::calculate_checksum("test content"),
        "6ae8a75555209fd6c44157c0aed8016e763ff435a19cf186f76863140143ff72"
    );
    assert_eq!(
        MigrationRegistry::calculate_checksum("test content"),
        MigrationRegistry::calculate_checksum("test content")
    );
    assert_ne!(
        MigrationRegistry::calculate_checksum("test content"),
        MigrationRegistry::calculate_checksum("different content")
    );
}

#[test]
fn default_registry_holds_four_migrations() {
    let registry = MigrationRegistry::register_default_migrations().unwrap();
    assert_eq!(registry.count(), 4);
    assert_eq!(
        registry.get_migration_names(),
        vec![
            "001_create_basic_schema".to_string(),
            "002_add_user_authentication".to_string(),
            "003_migrate_receipt_url".to_string(),
            "r2_migration_schema".to_string(),
        ]
    );
    let first = registry.find_migration("001_create_basic_schema").unwrap();
    assert_eq!(first.checksum, "c90555b103316452ef4954967ae82ecf34085bb992e8d018ab5b8220d0ab304f");
}

#[test]
fn executor_steps_and_messages() {
    let executor = MigrationExecutor::new();
    let m = create_test_migration("002_add_user_authentication", "2.0.0");
    assert_eq!(executor.step_for(&m), Some(MigrationExecutorKind::UserAuth));
    let schema = create_test_migration("r2_migration_schema", "1.0.0");
    assert_eq!(executor.step_for(&schema), None);
    assert_eq!(
        executor.failure_message("m1", "boom", Some("b.db")),
        "マイグレーション 'm1' の実行に失敗しました: boom。バックアップファイル: b.db"
    );
    assert_eq!(executor.failure_message("m1", "boom", None), "マイグレーション 'm1' の実行に失敗しました: boom");
    assert_eq!(executor.unknown_migration_message("zz"), "未知のマイグレーション: zz");
    assert_eq!(MigrationExecutorKind::R2Schema.name(), "r2_migration_schema");
}

#[test]
fn displayed_forms() {
    let d = create_test_migration("m1", "1.0.0");
    assert_eq!(d.to_display_string(), "Migration[m1] v1.0.0: テストマイグレーション m1");
    let a = AppliedMigration::new(1, "m1".to_string(), "1.0.0".to_string(), None, "c".to_string(),
        "2024-01-01T00:00:00+09:00".to_string(), None, "2024-01-01T00:00:00+09:00".to_string());
    assert_eq!(a.to_display_string(), "Applied[m1] v1.0.0 at 2024-01-01T00:00:00+09:00");
    let ok = AutoMigrationResult::success("完了".to_string(), vec!["a".to_string(), "b".to_string()], None, 120);
    assert_eq!(ok.to_display_string(), "成功: 完了 (適用: 2, 実行時間: 120ms)");
    let failed = AutoMigrationResult::failure("失敗した".to_string(), None);
    assert_eq!(failed.to_display_string(), "失敗: 失敗した");
    let one = MigrationExecutionResult::success("m".to_string(), -5, None);
    assert_eq!(one.to_display_string(), "成功: m (実行時間: -5ms)");
    assert_eq!(MigrationExecutionResult::failure("x".to_string(), None).to_display_string(), "失敗: x");
}

#[test]
fn test_calculate_checksum() {
    let content1 = "test content";
    let content2 = "different content";
    let content3 = "test content";

    let checksum1 = MigrationRegistry::calculate_checksum(content1);
    let checksum2 = MigrationRegistry::calculate_checksum(content2);
    let checksum3 = MigrationRegistry::calculate_checksum(content3);

    assert_eq!(checksum1.len(), 64);
    assert!(checksum1.chars().all(|c| c.is_ascii_hexdigit()));

    assert_ne!(checksum1, checksum2);

    assert_eq!(checksum1, checksum3);
}

#[test]
fn test_register_default_migrations() {
    let registry = MigrationRegistry::register_default_migrations().unwrap();

    assert_eq!(registry.count(), 4);
    assert!(registry.find_executable_migration("001_create_basic_schema").is_some());
    assert!(registry.find_executable_migration("002_add_user_authentication").is_some());
    assert!(registry.find_executable_migration("003_migrate_receipt_url").is_some());
    assert!(registry.find_executable_migration("r2_migration_schema").is_some());

    let basic_schema = registry.find_executable_migration("001_create_basic_schema").unwrap();
    assert_eq!(basic_schema.definition.checksum, MigrationRegistry::calculate_checksum("run_migrations"));

    let user_auth = registry.find_executable_migration("002_add_user_authentication").unwrap();
    assert_eq!(user_auth.definition.checksum, MigrationRegistry::calculate_checksum("migrate_user_authentication"));

    let receipt_url = registry.find_executable_migration("003_migrate_receipt_url").unwrap();
    assert_eq!(receipt_url.definition.checksum, MigrationRegistry::calculate_checksum("migrate_receipt_path_to_url"));

    assert_eq!(basic_schema.executor.name(), "001_create_basic_schema");
    assert_eq!(user_auth.executor.name(), "002_add_user_authentication");
    assert_eq!(receipt_url.executor.name(), "003_migrate_receipt_url");
}
