//! Records that the migration commands exchange with the user interface,
//! and the small decisions the commands take on what the database reports.
use vstd::prelude::*;
use vstd::string::*;
use crate::migrations::auto_migration::models::{AppliedMigration, MigrationStatusReport};
use crate::text::same_text;

verus! {

/// The outcome of a schema migration.
#[derive(Debug)]
pub struct MigrationResult {
    pub success: bool,
    pub message: String,
    pub backup_path: Option<String>,
}

/// The outcome of restoring a backup.
#[derive(Debug)]
pub struct RestoreResult {
    pub success: bool,
    pub message: String,
}

/// Which schema migrations the database has had.
#[derive(Debug)]
pub struct MigrationStatus {
    pub receipt_url_migration_complete: bool,
    pub database_version: String,
    pub last_migration_date: Option<String>,
}

/// The outcome of the comprehensive data migration.
#[derive(Debug)]
pub struct DataMigrationResult {
    pub success: bool,
    pub message: String,
    pub backup_path: Option<String>,
    pub migrated_tables: Vec<String>,
    pub data_integrity_verified: bool,
}

/// Row counts and size of the database.
#[derive(Debug, Clone, Copy, PartialEq, Eq)]
pub struct DatabaseStats {
    pub expenses_count: i64,
    pub subscriptions_count: i64,
    pub receipt_cache_count: i64,
    pub categories_count: i64,
    pub users_count: i64,
    pub sessions_count: i64,
    pub database_size_bytes: i64,
    pub page_count: i64,
    pub page_size: i64,
    pub migrations_count: Option<i64>,
}

/// A migration as the user interface lists it.
#[derive(Debug, Clone)]
pub struct MigrationInfo {
    pub name: String,
    pub version: String,
    pub description: String,
    pub checksum: String,
    pub is_applied: bool,
    pub applied_at: Option<String>,
    pub execution_time_ms: Option<i64>,
}

/// Everything the user interface shows about migrations.
#[derive(Debug)]
pub struct DetailedMigrationInfo {
    pub status_report: MigrationStatusReport,
    pub available_migrations: Vec<MigrationInfo>,
    pub applied_migrations: Vec<AppliedMigration>,
    pub integrity_status: String,
    pub database_stats: DatabaseStats,
}

/// The schema version of a database by the migrations it has had: 3.0.0 with
/// user authentication, 2.0.0 with receipt URLs, 1.0.0 otherwise.
pub open spec fn schema_version(receipt_url_complete: bool, user_auth_complete: bool) -> Seq<char> {
    if user_auth_complete {
        "3.0.0"@
    } else if receipt_url_complete {
        "2.0.0"@
    } else {
        "1.0.0"@
    }
}

/// The schema version of a database by the migrations it has had.
pub fn database_version(receipt_url_complete: bool, user_auth_complete: bool) -> (r: String)
    ensures
        r@ == schema_version(receipt_url_complete, user_auth_complete),
{
    if user_auth_complete {
        String::from_str("3.0.0")
    } else if receipt_url_complete {
        String::from_str("2.0.0")
    } else {
        String::from_str("1.0.0")
    }
}

/// The migration status: the date is given (the current time, by the
/// caller) only when some migration was applied.
pub fn migration_status(receipt_url_complete: bool, user_auth_complete: bool, now: String) -> (r: MigrationStatus)
    ensures
        r.receipt_url_migration_complete == receipt_url_complete,
        r.database_version@ == schema_version(receipt_url_complete, user_auth_complete),
        (receipt_url_complete || user_auth_complete) ==> r.last_migration_date == Some(now),
        !(receipt_url_complete || user_auth_complete) ==> r.last_migration_date is None,
{
    MigrationStatus {
        receipt_url_migration_complete: receipt_url_complete,
        database_version: database_version(receipt_url_complete, user_auth_complete),
        last_migration_date: if user_auth_complete || receipt_url_complete { Some(now) } else { None },
    }
}

/// The message for what SQLite's integrity check reported.
pub fn integrity_message(check_result: &str) -> (r: String)
    ensures
        check_result@ == "ok"@ ==> r@ == "データベースの整合性に問題はありません"@,
        check_result@ != "ok"@ ==> r@ == "データベースの整合性に問題があります: "@ + check_result@,
{
    if same_text(check_result, "ok") {
        String::from_str("データベースの整合性に問題はありません")
    } else {
        let mut m = String::from_str("データベースの整合性に問題があります: ");
        m.append(check_result);
        m
    }
}

impl DatabaseStats {
    /// The statistics from the counts read; the size is pages times page size.
    pub fn from_counts(
        expenses_count: i64,
        subscriptions_count: i64,
        receipt_cache_count: i64,
        categories_count: i64,
        users_count: i64,
        sessions_count: i64,
        page_count: i64,
        page_size: i64,
        migrations_count: Option<i64>,
    ) -> (r: Self)
        requires
            i64::MIN <= page_count * page_size <= i64::MAX,
        ensures
            r.expenses_count == expenses_count,
            r.subscriptions_count == subscriptions_count,
            r.receipt_cache_count == receipt_cache_count,
            r.categories_count == categories_count,
            r.users_count == users_count,
            r.sessions_count == sessions_count,
            r.database_size_bytes == page_count * page_size,
            r.page_count == page_count,
            r.page_size == page_size,
            r.migrations_count == migrations_count,
    {
        DatabaseStats {
            expenses_count,
            subscriptions_count,
            receipt_cache_count,
            categories_count,
            users_count,
            sessions_count,
            database_size_bytes: page_count * page_size,
            page_count,
            page_size,
            migrations_count,
        }
    }
}

/// The start parameters of a storage migration.
#[derive(Debug)]
pub struct StartR2MigrationParams {
    pub dry_run: bool,
    pub batch_size: Option<usize>,
    pub created_by: Option<String>,
}

/// What the storage migration command reports.
#[derive(Debug)]
pub struct R2MigrationResult {
    pub success: bool,
    pub message: String,
    pub migration_log_id: Option<i64>,
    pub total_items: usize,
    pub success_count: usize,
    pub error_count: usize,
    pub duration_ms: u64,
}

/// What the storage migration's integrity check reports.
#[derive(Debug)]
pub struct ValidationResult {
    pub is_valid: bool,
    pub database_receipt_count: i64,
    pub r2_file_count: i64,
    pub orphaned_files: usize,
    pub corrupted_files: usize,
    pub warnings: Vec<String>,
    pub errors: Vec<String>,
}

/// What the storage migration command reports: a dry run finds no file; a
/// real run is not available yet.
pub fn start_r2_migration_result(params: &StartR2MigrationParams, duration_ms: u64) -> (r: R2MigrationResult)
    ensures
        r.success == params.dry_run,
        params.dry_run ==> r.message@ == "ドライラン完了: 移行対象ファイル数 0"@,
        !params.dry_run ==> r.message@ == "移行処理は未実装です"@,
        r.migration_log_id is None,
        r.total_items == 0,
        r.success_count == 0,
        r.error_count == 0,
        r.duration_ms == duration_ms,
{
    let message = if params.dry_run {
        String::from_str("ドライラン完了: 移行対象ファイル数 0")
    } else {
        String::from_str("移行処理は未実装です")
    };
    R2MigrationResult {
        success: params.dry_run,
        message,
        migration_log_id: None,
        total_items: 0,
        success_count: 0,
        error_count: 0,
        duration_ms,
    }
}

/// What the storage migration's integrity check reports while it has nothing
/// to compare: valid, with nothing counted.
pub fn empty_validation_result() -> (r: ValidationResult)
    ensures
        r.is_valid,
        r.database_receipt_count == 0,
        r.r2_file_count == 0,
        r.orphaned_files == 0,
        r.corrupted_files == 0,
        r.warnings@.len() == 0,
        r.errors@.len() == 0,
{
    ValidationResult {
        is_valid: true,
        database_receipt_count: 0,
        r2_file_count: 0,
        orphaned_files: 0,
        corrupted_files: 0,
        warnings: Vec::new(),
        errors: Vec::new(),
    }
}

} // verus!
