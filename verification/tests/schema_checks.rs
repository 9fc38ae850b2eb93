use expense_core::migrations::auto_migration::service::AutoMigrationService;
use expense_core::app_error::AppError;
use expense_core::migrations::auto_migration::errors::{AutoMigrationError, MigrationErrorType};
use expense_core::migrations::auto_migration::models::{check_recorded_checksum, AppliedMigration};
use expense_core::migrations::schema_checks::{
    check_integrity_after_migration, check_integrity_before_migration, check_receipt_url_schema, check_user_auth_schema,
    contains_column, default_categories, expenses_schema_plan, receipt_url_migration_complete, user_auth_migration_complete,
    ExpensesSchemaStep, UserIdState,
};

fn cols(names: &[&str]) -> Vec<String> {
    names.iter().map(|s| s.to_string()).collect()
}

fn validation_message(r: Result<(), AppError>) -> String {
    match r {
        Err(AppError::Validation(m)) => m,
        other => panic!("unexpected {other:?}"),
    }
}

#[test]
fn receipt_url_schema_rules() {
    assert!(contains_column(&cols(&["id", "receipt_url"]), "receipt_url"));
    assert!(!contains_column(&cols(&[]), "x"));
    let good = cols(&["id", "date", "receipt_url"]);
    assert!(check_receipt_url_schema(&good, 3, true).is_ok());
    assert_eq!(validation_message(check_receipt_url_schema(&cols(&["id"]), 3, true)), "receipt_urlカラムが見つかりません");
    assert_eq!(
        validation_message(check_receipt_url_schema(&cols(&["receipt_url", "receipt_path"]), 3, true)),
        "receipt_pathカラムが残っています"
    );
    assert_eq!(validation_message(check_receipt_url_schema(&good, 2, true)), "必要なインデックスが不足しています");
    assert_eq!(validation_message(check_receipt_url_schema(&good, 3, false)), "receipt_cacheテーブルが作成されていません");
    assert!(receipt_url_migration_complete(false, &None));
    assert!(receipt_url_migration_complete(true, &None));
    assert!(receipt_url_migration_complete(true, &Some(good)));
    assert!(!receipt_url_migration_complete(true, &Some(cols(&["receipt_url", "receipt_path"]))));
}

#[test]
fn user_auth_schema_rules() {
    let tables = vec![("expenses".to_string(), true), ("subscriptions".to_string(), false), ("receipt_cache".to_string(), false)];
    assert_eq!(
        validation_message(check_user_auth_schema(true, true, true, &tables)),
        "subscriptionsテーブルにuser_idカラムが追加されていません"
    );
    assert_eq!(validation_message(check_user_auth_schema(false, true, true, &tables)), "usersテーブルが作成されていません");
    assert_eq!(validation_message(check_user_auth_schema(true, false, true, &tables)), "sessionsテーブルが作成されていません");
    assert_eq!(validation_message(check_user_auth_schema(true, true, false, &tables)), "デフォルトユーザーが作成されていません");
    assert!(check_user_auth_schema(true, true, true, &vec![("expenses".to_string(), true)]).is_ok());
    assert!(user_auth_migration_complete(Some(true), Some(true), &vec![(Some(true), true), (None, false), (Some(false), false)]));
    assert!(!user_auth_migration_complete(Some(true), Some(true), &vec![(Some(true), false)]));
    assert!(!user_auth_migration_complete(None, Some(true), &vec![]));
    assert!(!user_auth_migration_complete(Some(true), Some(false), &vec![]));
}

#[test]
fn data_integrity_rules() {
    assert!(check_integrity_before_migration("ok", true).is_ok());
    assert_eq!(validation_message(check_integrity_before_migration("page 3 broken", true)), "データベース整合性チェック失敗: page 3 broken");
    assert_eq!(validation_message(check_integrity_before_migration("ok", false)), "必要なテーブル 'expenses' が存在しません");
    let state = |t: &str, exists: bool, has: bool, nulls: i64| UserIdState { table: t.to_string(), exists, has_user_id: has, null_user_ids: nulls };
    assert_eq!(validation_message(check_integrity_after_migration(0, &vec![])), "usersテーブルにデフォルトユーザーが作成されていません");
    let tables = vec![state("expenses", true, true, 0), state("subscriptions", false, false, 0), state("receipt_cache", true, true, 4)];
    assert_eq!(validation_message(check_integrity_after_migration(1, &tables)), "receipt_cacheテーブルにuser_idがNULLのレコードが 4 件存在します");
    let missing = vec![state("expenses", true, false, 0)];
    assert_eq!(validation_message(check_integrity_after_migration(1, &missing)), "expensesテーブルにuser_idカラムが追加されていません");
    assert!(check_integrity_after_migration(2, &vec![state("expenses", true, true, 0)]).is_ok());
}

#[test]
fn recorded_checksums_are_compared() {
    let applied = AppliedMigration::new(1, "m".to_string(), "1".to_string(), None, "abc".to_string(), "t".to_string(), None, "t".to_string());
    assert!(check_recorded_checksum(None, "m", "abc").is_ok());
    assert!(check_recorded_checksum(Some(applied.clone()), "m", "abc").is_ok());
    let e: AutoMigrationError = check_recorded_checksum(Some(applied), "m", "def").unwrap_err();
    assert_eq!(e.error_type, MigrationErrorType::ChecksumMismatch);
    assert_eq!(e.message, "マイグレーション 'm' のチェックサムが一致しません");
    assert_eq!(e.details, Some("期待値: def, 実際値: abc".to_string()));
    let init = AutoMigrationError::initialization("x".to_string(), None);
    assert_eq!(init.error_type, MigrationErrorType::Initialization);
}

#[test]
fn startup_service_reports() {
    let conn = rusqlite::Connection::open_in_memory().unwrap();
    let service = AutoMigrationService::new(&conn).unwrap();
    let run = service.run_startup_migrations(&conn).unwrap();
    assert!(run.success);
    assert_eq!(run.message, "自動マイグレーション完了（仮実装）");
    assert!(run.applied_migrations.is_empty());
    let report = service.check_migration_status(&conn).unwrap();
    assert_eq!(report.total_available, 0);
    assert_eq!(report.database_version, "1.0.0");
}

#[test]
fn test_service_creation() {
    let conn = rusqlite::Connection::open_in_memory().unwrap();
    let service = AutoMigrationService::new(&conn);
    assert!(service.is_ok());
}

#[test]
fn expenses_schema_plans() {
    assert_eq!(expenses_schema_plan(false, false, true), vec![ExpensesSchemaStep::CreateTable]);
    assert_eq!(
        expenses_schema_plan(true, false, true),
        vec![ExpensesSchemaStep::AddReceiptUrl, ExpensesSchemaStep::DropReceiptPath]
    );
    assert_eq!(expenses_schema_plan(true, true, false), vec![]);
    assert_eq!(expenses_schema_plan(true, true, true), vec![ExpensesSchemaStep::DropReceiptPath]);
}

#[test]
fn default_categories_seed_empty_table() {
    let seeded = default_categories(0);
    assert_eq!(seeded.len(), 6);
    assert_eq!(seeded[0], ("交通費", "#3B82F6", "🚗"));
    assert_eq!(seeded[5], ("その他", "#6B7280", "📋"));
    assert!(default_categories(3).is_empty());
}
