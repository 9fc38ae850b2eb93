//! Errors of the receipt-storage migration, their classification, the action
//! each one calls for, and the retry policy of the retryable ones.
use vstd::prelude::*;
use vstd::string::*;
use crate::app_error::{AppError, ErrorSeverity};

verus! {

/// An error raised while migrating stored receipts.
#[derive(Debug, Clone)]
pub enum MigrationError {
    PreValidation { message: String, details: String },
    TargetIdentification { message: String, file_count: usize },
    FileMigration { message: String, old_path: String, new_path: String, user_id: i64, error_code: String },
    DatabaseUpdate { message: String, table_name: String, operation: String, affected_rows: Option<usize> },
    IntegrityValidation { message: String, validation_type: String, expected: String, actual: String },
    BatchProcessing { message: String, batch_index: usize, total_batches: usize, failed_items: Vec<String> },
    Concurrency { message: String, max_concurrency: usize, active_tasks: usize },
    R2Operation { message: String, operation: String, bucket: String, key: String, status_code: Option<u16> },
    Permission { message: String, user_id: i64, required_permission: String, resource: String },
    Configuration { message: String, config_key: String, expected_type: String },
    Timeout { message: String, operation: String, timeout_seconds: u64 },
    ResourceExhaustion { message: String, resource_type: String, current_usage: u64, limit: u64 },
    MigrationState { message: String, current_state: String, expected_state: String, migration_id: i64 },
    ExternalDependency { message: String, service_name: String, endpoint: String, retry_count: usize },
}

/// What to do after an error.
#[derive(Debug, Clone, Copy, PartialEq, Eq, Structural)]
pub enum ErrorAction {
    Abort,
    Retry,
    Skip,
    Rollback,
    Pause,
    Reset,
}

/// A value recorded in the structured metadata of an error.
#[derive(Debug, Clone)]
pub enum MetadataValue {
    Text(String),
    Signed(i64),
    Unsigned(u64),
    Null,
    TextList(Vec<String>),
    Flag(bool),
}

/// The mathematical content of a metadata value.
pub enum MetadataView {
    Text(Seq<char>),
    Signed(int),
    Unsigned(int),
    Null,
    TextList(Seq<Seq<char>>),
    Flag(bool),
}

impl MetadataValue {
    pub open spec fn view(&self) -> MetadataView {
        match self {
            MetadataValue::Text(s) => MetadataView::Text(s@),
            MetadataValue::Signed(i) => MetadataView::Signed(*i as int),
            MetadataValue::Unsigned(u) => MetadataView::Unsigned(*u as int),
            MetadataValue::Null => MetadataView::Null,
            MetadataValue::TextList(v) => MetadataView::TextList(v@.map_values(|s: String| s@)),
            MetadataValue::Flag(b) => MetadataView::Flag(*b),
        }
    }

    /// A copy of the value.
    pub fn duplicate(&self) -> (r: MetadataValue)
        ensures
            r.view() == self.view(),
    {
        match self {
            MetadataValue::Text(s) => MetadataValue::Text(s.clone()),
            MetadataValue::Signed(i) => MetadataValue::Signed(*i),
            MetadataValue::Unsigned(u) => MetadataValue::Unsigned(*u),
            MetadataValue::Null => MetadataValue::Null,
            MetadataValue::TextList(v) => MetadataValue::TextList(clone_strings(v)),
            MetadataValue::Flag(b) => MetadataValue::Flag(*b),
        }
    }
}

/// The view of one metadata entry.
pub open spec fn entry_view(e: (String, MetadataValue)) -> (Seq<char>, MetadataView) {
    (e.0@, e.1.view())
}

pub open spec fn txt(k: Seq<char>, v: Seq<char>) -> (Seq<char>, MetadataView) {
    (k, MetadataView::Text(v))
}

pub open spec fn uns(k: Seq<char>, v: int) -> (Seq<char>, MetadataView) {
    (k, MetadataView::Unsigned(v))
}

pub open spec fn sgn(k: Seq<char>, v: int) -> (Seq<char>, MetadataView) {
    (k, MetadataView::Signed(v))
}

pub open spec fn opt_uns(k: Seq<char>, v: Option<int>) -> (Seq<char>, MetadataView) {
    match v {
        Some(x) => (k, MetadataView::Unsigned(x)),
        None => (k, MetadataView::Null),
    }
}

impl MigrationError {
    /// The error's own message field.
    pub open spec fn message_view(&self) -> Seq<char> {
        match self {
            MigrationError::PreValidation { message, .. } => message@,
            MigrationError::TargetIdentification { message, .. } => message@,
            MigrationError::FileMigration { message, .. } => message@,
            MigrationError::DatabaseUpdate { message, .. } => message@,
            MigrationError::IntegrityValidation { message, .. } => message@,
            MigrationError::BatchProcessing { message, .. } => message@,
            MigrationError::Concurrency { message, .. } => message@,
            MigrationError::R2Operation { message, .. } => message@,
            MigrationError::Permission { message, .. } => message@,
            MigrationError::Configuration { message, .. } => message@,
            MigrationError::Timeout { message, .. } => message@,
            MigrationError::ResourceExhaustion { message, .. } => message@,
            MigrationError::MigrationState { message, .. } => message@,
            MigrationError::ExternalDependency { message, .. } => message@,
        }
    }

    /// The severity that each kind of error carries.
    pub open spec fn severity_spec(&self) -> ErrorSeverity {
        match self {
            MigrationError::PreValidation { .. } => ErrorSeverity::High,
            MigrationError::TargetIdentification { .. } => ErrorSeverity::Medium,
            MigrationError::FileMigration { .. } => ErrorSeverity::High,
            MigrationError::DatabaseUpdate { .. } => ErrorSeverity::High,
            MigrationError::IntegrityValidation { .. } => ErrorSeverity::Critical,
            MigrationError::BatchProcessing { .. } => ErrorSeverity::High,
            MigrationError::Concurrency { .. } => ErrorSeverity::Medium,
            MigrationError::R2Operation { .. } => ErrorSeverity::Medium,
            MigrationError::Permission { .. } => ErrorSeverity::Critical,
            MigrationError::Configuration { .. } => ErrorSeverity::High,
            MigrationError::Timeout { .. } => ErrorSeverity::Medium,
            MigrationError::ResourceExhaustion { .. } => ErrorSeverity::High,
            MigrationError::MigrationState { .. } => ErrorSeverity::Medium,
            MigrationError::ExternalDependency { .. } => ErrorSeverity::Medium,
        }
    }

    /// The severity of the error.
    pub fn severity(&self) -> (r: ErrorSeverity)
        ensures
            r == self.severity_spec(),
    {
        match self {
            MigrationError::PreValidation { .. } => ErrorSeverity::High,
            MigrationError::TargetIdentification { .. } => ErrorSeverity::Medium,
            MigrationError::FileMigration { .. } => ErrorSeverity::High,
            MigrationError::DatabaseUpdate { .. } => ErrorSeverity::High,
            MigrationError::IntegrityValidation { .. } => ErrorSeverity::Critical,
            MigrationError::BatchProcessing { .. } => ErrorSeverity::High,
            MigrationError::Concurrency { .. } => ErrorSeverity::Medium,
            MigrationError::R2Operation { .. } => ErrorSeverity::Medium,
            MigrationError::Permission { .. } => ErrorSeverity::Critical,
            MigrationError::Configuration { .. } => ErrorSeverity::High,
            MigrationError::Timeout { .. } => ErrorSeverity::Medium,
            MigrationError::ResourceExhaustion { .. } => ErrorSeverity::High,
            MigrationError::MigrationState { .. } => ErrorSeverity::Medium,
            MigrationError::ExternalDependency { .. } => ErrorSeverity::Medium,
        }
    }

    /// The category name of each kind of error.
    pub open spec fn category_spec(&self) -> Seq<char> {
        match self {
            MigrationError::PreValidation { .. } => "validation"@,
            MigrationError::TargetIdentification { .. } => "identification"@,
            MigrationError::FileMigration { .. } => "file_operation"@,
            MigrationError::DatabaseUpdate { .. } => "database"@,
            MigrationError::IntegrityValidation { .. } => "integrity"@,
            MigrationError::BatchProcessing { .. } => "batch_processing"@,
            MigrationError::Concurrency { .. } => "concurrency"@,
            MigrationError::R2Operation { .. } => "r2_operation"@,
            MigrationError::Permission { .. } => "permission"@,
            MigrationError::Configuration { .. } => "configuration"@,
            MigrationError::Timeout { .. } => "timeout"@,
            MigrationError::ResourceExhaustion { .. } => "resource"@,
            MigrationError::MigrationState { .. } => "state"@,
            MigrationError::ExternalDependency { .. } => "external"@,
        }
    }

    /// The category name of the error.
    pub fn category(&self) -> (r: &'static str)
        ensures
            r@ == self.category_spec(),
    {
        match self {
            MigrationError::PreValidation { .. } => "validation",
            MigrationError::TargetIdentification { .. } => "identification",
            MigrationError::FileMigration { .. } => "file_operation",
            MigrationError::DatabaseUpdate { .. } => "database",
            MigrationError::IntegrityValidation { .. } => "integrity",
            MigrationError::BatchProcessing { .. } => "batch_processing",
            MigrationError::Concurrency { .. } => "concurrency",
            MigrationError::R2Operation { .. } => "r2_operation",
            MigrationError::Permission { .. } => "permission",
            MigrationError::Configuration { .. } => "configuration",
            MigrationError::Timeout { .. } => "timeout",
            MigrationError::ResourceExhaustion { .. } => "resource",
            MigrationError::MigrationState { .. } => "state",
            MigrationError::ExternalDependency { .. } => "external",
        }
    }

    /// The error code: the carried code for a file migration error, a fixed code otherwise.
    pub open spec fn error_code_spec(&self) -> Seq<char> {
        match self {
            MigrationError::PreValidation { .. } => "MIG_PRE_VALIDATION"@,
            MigrationError::TargetIdentification { .. } => "MIG_TARGET_ID"@,
            MigrationError::FileMigration { error_code, .. } => error_code@,
            MigrationError::DatabaseUpdate { .. } => "MIG_DB_UPDATE"@,
            MigrationError::IntegrityValidation { .. } => "MIG_INTEGRITY"@,
            MigrationError::BatchProcessing { .. } => "MIG_BATCH_PROC"@,
            MigrationError::Concurrency { .. } => "MIG_CONCURRENCY"@,
            MigrationError::R2Operation { .. } => "MIG_R2_OP"@,
            MigrationError::Permission { .. } => "MIG_PERMISSION"@,
            MigrationError::Configuration { .. } => "MIG_CONFIG"@,
            MigrationError::Timeout { .. } => "MIG_TIMEOUT"@,
            MigrationError::ResourceExhaustion { .. } => "MIG_RESOURCE"@,
            MigrationError::MigrationState { .. } => "MIG_STATE"@,
            MigrationError::ExternalDependency { .. } => "MIG_EXTERNAL"@,
        }
    }

    /// The error code of the error.
    pub fn error_code(&self) -> (r: String)
        ensures
            r@ == self.error_code_spec(),
    {
        match self {
            MigrationError::PreValidation { .. } => String::from_str("MIG_PRE_VALIDATION"),
            MigrationError::TargetIdentification { .. } => String::from_str("MIG_TARGET_ID"),
            MigrationError::FileMigration { error_code, .. } => error_code.clone(),
            MigrationError::DatabaseUpdate { .. } => String::from_str("MIG_DB_UPDATE"),
            MigrationError::IntegrityValidation { .. } => String::from_str("MIG_INTEGRITY"),
            MigrationError::BatchProcessing { .. } => String::from_str("MIG_BATCH_PROC"),
            MigrationError::Concurrency { .. } => String::from_str("MIG_CONCURRENCY"),
            MigrationError::R2Operation { .. } => String::from_str("MIG_R2_OP"),
            MigrationError::Permission { .. } => String::from_str("MIG_PERMISSION"),
            MigrationError::Configuration { .. } => String::from_str("MIG_CONFIG"),
            MigrationError::Timeout { .. } => String::from_str("MIG_TIMEOUT"),
            MigrationError::ResourceExhaustion { .. } => String::from_str("MIG_RESOURCE"),
            MigrationError::MigrationState { .. } => String::from_str("MIG_STATE"),
            MigrationError::ExternalDependency { .. } => String::from_str("MIG_EXTERNAL"),
        }
    }

    /// The message shown to users for each kind of error.
    pub open spec fn user_message_spec(&self) -> Seq<char> {
        match self {
            MigrationError::PreValidation { .. } => "移行前の検証でエラーが発生しました。システム管理者にお問い合わせください。"@,
            MigrationError::TargetIdentification { .. } => "移行対象ファイルの特定でエラーが発生しました。"@,
            MigrationError::FileMigration { .. } => "ファイルの移行処理でエラーが発生しました。"@,
            MigrationError::DatabaseUpdate { .. } => "データベースの更新でエラーが発生しました。"@,
            MigrationError::IntegrityValidation { .. } => "データの整合性チェックでエラーが発見されました。移行を中止します。"@,
            MigrationError::BatchProcessing { .. } => "バッチ処理でエラーが発生しました。"@,
            MigrationError::Concurrency { .. } => "並列処理でエラーが発生しました。"@,
            MigrationError::R2Operation { .. } => "クラウドストレージ操作でエラーが発生しました。"@,
            MigrationError::Permission { .. } => "アクセス権限が不足しています。システム管理者にお問い合わせください。"@,
            MigrationError::Configuration { .. } => "システム設定にエラーがあります。システム管理者にお問い合わせください。"@,
            MigrationError::Timeout { .. } => "処理がタイムアウトしました。しばらく時間をおいて再試行してください。"@,
            MigrationError::ResourceExhaustion { .. } => "システムリソースが不足しています。しばらく時間をおいて再試行してください。"@,
            MigrationError::MigrationState { .. } => "移行処理の状態が不正です。"@,
            MigrationError::ExternalDependency { .. } => "外部サービスとの通信でエラーが発生しました。"@,
        }
    }

    /// The message shown to users.
    pub fn user_message(&self) -> (r: String)
        ensures
            r@ == self.user_message_spec(),
    {
        let s: &str = match self {
            MigrationError::PreValidation { .. } => "移行前の検証でエラーが発生しました。システム管理者にお問い合わせください。",
            MigrationError::TargetIdentification { .. } => "移行対象ファイルの特定でエラーが発生しました。",
            MigrationError::FileMigration { .. } => "ファイルの移行処理でエラーが発生しました。",
            MigrationError::DatabaseUpdate { .. } => "データベースの更新でエラーが発生しました。",
            MigrationError::IntegrityValidation { .. } => "データの整合性チェックでエラーが発見されました。移行を中止します。",
            MigrationError::BatchProcessing { .. } => "バッチ処理でエラーが発生しました。",
            MigrationError::Concurrency { .. } => "並列処理でエラーが発生しました。",
            MigrationError::R2Operation { .. } => "クラウドストレージ操作でエラーが発生しました。",
            MigrationError::Permission { .. } => "アクセス権限が不足しています。システム管理者にお問い合わせください。",
            MigrationError::Configuration { .. } => "システム設定にエラーがあります。システム管理者にお問い合わせください。",
            MigrationError::Timeout { .. } => "処理がタイムアウトしました。しばらく時間をおいて再試行してください。",
            MigrationError::ResourceExhaustion { .. } => "システムリソースが不足しています。しばらく時間をおいて再試行してください。",
            MigrationError::MigrationState { .. } => "移行処理の状態が不正です。",
            MigrationError::ExternalDependency { .. } => "外部サービスとの通信でエラーが発生しました。",
        };
        String::from_str(s)
    }

    /// The prefix that names each kind of error in its displayed form.
    pub open spec fn display_prefix(&self) -> Seq<char> {
        match self {
            MigrationError::PreValidation { .. } => "移行前検証エラー: "@,
            MigrationError::TargetIdentification { .. } => "移行対象特定エラー: "@,
            MigrationError::FileMigration { .. } => "ファイル移行エラー: "@,
            MigrationError::DatabaseUpdate { .. } => "データベース更新エラー: "@,
            MigrationError::IntegrityValidation { .. } => "整合性検証エラー: "@,
            MigrationError::BatchProcessing { .. } => "バッチ処理エラー: "@,
            MigrationError::Concurrency { .. } => "並列処理エラー: "@,
            MigrationError::R2Operation { .. } => "R2操作エラー: "@,
            MigrationError::Permission { .. } => "権限エラー: "@,
            MigrationError::Configuration { .. } => "設定エラー: "@,
            MigrationError::Timeout { .. } => "タイムアウトエラー: "@,
            MigrationError::ResourceExhaustion { .. } => "リソース不足エラー: "@,
            MigrationError::MigrationState { .. } => "移行状態エラー: "@,
            MigrationError::ExternalDependency { .. } => "外部依存エラー: "@,
        }
    }

    /// The displayed form of the error: its kind's prefix, then its message.
    pub open spec fn display_view(&self) -> Seq<char> {
        self.display_prefix() + self.message_view()
    }

    /// The displayed form of the error.
    pub fn to_display_string(&self) -> (r: String)
        ensures
            r@ == self.display_view(),
    {
        let (prefix, message): (&str, &String) = match self {
            MigrationError::PreValidation { message, .. } => ("移行前検証エラー: ", message),
            MigrationError::TargetIdentification { message, .. } => ("移行対象特定エラー: ", message),
            MigrationError::FileMigration { message, .. } => ("ファイル移行エラー: ", message),
            MigrationError::DatabaseUpdate { message, .. } => ("データベース更新エラー: ", message),
            MigrationError::IntegrityValidation { message, .. } => ("整合性検証エラー: ", message),
            MigrationError::BatchProcessing { message, .. } => ("バッチ処理エラー: ", message),
            MigrationError::Concurrency { message, .. } => ("並列処理エラー: ", message),
            MigrationError::R2Operation { message, .. } => ("R2操作エラー: ", message),
            MigrationError::Permission { message, .. } => ("権限エラー: ", message),
            MigrationError::Configuration { message, .. } => ("設定エラー: ", message),
            MigrationError::Timeout { message, .. } => ("タイムアウトエラー: ", message),
            MigrationError::ResourceExhaustion { message, .. } => ("リソース不足エラー: ", message),
            MigrationError::MigrationState { message, .. } => ("移行状態エラー: ", message),
            MigrationError::ExternalDependency { message, .. } => ("外部依存エラー: ", message),
        };
        let mut s = String::from_str(prefix);
        s.append(message.as_str());
        s
    }

    /// Whether the error calls for a security audit.
    pub open spec fn requires_security_audit_spec(&self) -> bool {
        self is Permission || self is IntegrityValidation || self is Configuration
    }

    /// Whether the error calls for a security audit.
    pub fn requires_security_audit(&self) -> (r: bool)
        ensures
            r == self.requires_security_audit_spec(),
    {
        match self {
            MigrationError::Permission { .. } => true,
            MigrationError::IntegrityValidation { .. } => true,
            MigrationError::Configuration { .. } => true,
            _ => false,
        }
    }

    /// Whether the error may be retried automatically.
    pub open spec fn is_retryable_spec(&self) -> bool {
        self is R2Operation || self is Timeout || self is ExternalDependency || self is Concurrency
    }

    /// Whether the error may be retried automatically.
    pub fn is_retryable(&self) -> (r: bool)
        ensures
            r == self.is_retryable_spec(),
    {
        match self {
            MigrationError::R2Operation { .. } => true,
            MigrationError::Timeout { .. } => true,
            MigrationError::ExternalDependency { .. } => true,
            MigrationError::Concurrency { .. } => true,
            _ => false,
        }
    }

    /// The debug rendering of the error: std's `format!` with `{:?}`, through
    /// the derived `Debug`. Nothing is claimed of the text.
    #[verifier::external_body]
    pub fn debug_info(&self) -> String {
        format!("{self:?}")
    }

    /// The structured metadata of the error, key by key, in order.
    pub open spec fn metadata_spec(&self) -> Seq<(Seq<char>, MetadataView)> {
        match self {
            MigrationError::PreValidation { message, details } => seq![
                txt("error_type"@, "pre_validation"@), txt("message"@, message@), txt("details"@, details@)],
            MigrationError::TargetIdentification { message, file_count } => seq![
                txt("error_type"@, "target_identification"@), txt("message"@, message@),
                uns("file_count"@, *file_count as int)],
            MigrationError::FileMigration { message, old_path, new_path, user_id, error_code } => seq![
                txt("error_type"@, "file_migration"@), txt("message"@, message@), txt("old_path"@, old_path@),
                txt("new_path"@, new_path@), sgn("user_id"@, *user_id as int), txt("error_code"@, error_code@)],
            MigrationError::DatabaseUpdate { message, table_name, operation, affected_rows } => seq![
                txt("error_type"@, "database_update"@), txt("message"@, message@), txt("table_name"@, table_name@),
                txt("operation"@, operation@),
                opt_uns("affected_rows"@, match affected_rows { Some(r) => Some(*r as int), None => None })],
            MigrationError::IntegrityValidation { message, validation_type, expected, actual } => seq![
                txt("error_type"@, "integrity_validation"@), txt("message"@, message@),
                txt("validation_type"@, validation_type@), txt("expected"@, expected@), txt("actual"@, actual@)],
            MigrationError::BatchProcessing { message, batch_index, total_batches, failed_items } => seq![
                txt("error_type"@, "batch_processing"@), txt("message"@, message@),
                uns("batch_index"@, *batch_index as int), uns("total_batches"@, *total_batches as int),
                ("failed_items"@, MetadataView::TextList(failed_items@.map_values(|s: String| s@)))],
            MigrationError::Concurrency { message, max_concurrency, active_tasks } => seq![
                txt("error_type"@, "concurrency"@), txt("message"@, message@),
                uns("max_concurrency"@, *max_concurrency as int), uns("active_tasks"@, *active_tasks as int)],
            MigrationError::R2Operation { message, operation, bucket, key, status_code } => seq![
                txt("error_type"@, "r2_operation"@), txt("message"@, message@), txt("operation"@, operation@),
                txt("bucket"@, bucket@), txt("key"@, key@),
                opt_uns("status_code"@, match status_code { Some(c) => Some(*c as int), None => None })],
            MigrationError::Permission { message, user_id, required_permission, resource } => seq![
                txt("error_type"@, "permission"@), txt("message"@, message@), sgn("user_id"@, *user_id as int),
                txt("required_permission"@, required_permission@), txt("resource"@, resource@)],
            MigrationError::Configuration { message, config_key, expected_type } => seq![
                txt("error_type"@, "configuration"@), txt("message"@, message@), txt("config_key"@, config_key@),
                txt("expected_type"@, expected_type@)],
            MigrationError::Timeout { message, operation, timeout_seconds } => seq![
                txt("error_type"@, "timeout"@), txt("message"@, message@), txt("operation"@, operation@),
                uns("timeout_seconds"@, *timeout_seconds as int)],
            MigrationError::ResourceExhaustion { message, resource_type, current_usage, limit } => seq![
                txt("error_type"@, "resource_exhaustion"@), txt("message"@, message@),
                txt("resource_type"@, resource_type@), uns("current_usage"@, *current_usage as int),
                uns("limit"@, *limit as int)],
            MigrationError::MigrationState { message, current_state, expected_state, migration_id } => seq![
                txt("error_type"@, "migration_state"@), txt("message"@, message@),
                txt("current_state"@, current_state@), txt("expected_state"@, expected_state@),
                sgn("migration_id"@, *migration_id as int)],
            MigrationError::ExternalDependency { message, service_name, endpoint, retry_count } => seq![
                txt("error_type"@, "external_dependency"@), txt("message"@, message@),
                txt("service_name"@, service_name@), txt("endpoint"@, endpoint@),
                uns("retry_count"@, *retry_count as int)],
        }
    }

    /// The structured metadata of the error, as key/value entries in order.
    pub fn log_metadata(&self) -> (r: Vec<(String, MetadataValue)>)
        ensures
            r@.map_values(|e: (String, MetadataValue)| entry_view(e)) =~= self.metadata_spec(),
    {
        let mut v: Vec<(String, MetadataValue)> = Vec::new();
        match self {
            MigrationError::PreValidation { message, details } => {
                push_text(&mut v, "error_type", "pre_validation");
                push_text(&mut v, "message", message.as_str());
                push_text(&mut v, "details", details.as_str());
            },
            MigrationError::TargetIdentification { message, file_count } => {
                push_text(&mut v, "error_type", "target_identification");
                push_text(&mut v, "message", message.as_str());
                push_value(&mut v, "file_count", MetadataValue::Unsigned(*file_count as u64));
            },
            MigrationError::FileMigration { message, old_path, new_path, user_id, error_code } => {
                push_text(&mut v, "error_type", "file_migration");
                push_text(&mut v, "message", message.as_str());
                push_text(&mut v, "old_path", old_path.as_str());
                push_text(&mut v, "new_path", new_path.as_str());
                push_value(&mut v, "user_id", MetadataValue::Signed(*user_id));
                push_text(&mut v, "error_code", error_code.as_str());
            },
            MigrationError::DatabaseUpdate { message, table_name, operation, affected_rows } => {
                push_text(&mut v, "error_type", "database_update");
                push_text(&mut v, "message", message.as_str());
                push_text(&mut v, "table_name", table_name.as_str());
                push_text(&mut v, "operation", operation.as_str());
                let val = match affected_rows {
                    Some(r) => MetadataValue::Unsigned(*r as u64),
                    None => MetadataValue::Null,
                };
                push_value(&mut v, "affected_rows", val);
            },
            MigrationError::IntegrityValidation { message, validation_type, expected, actual } => {
                push_text(&mut v, "error_type", "integrity_validation");
                push_text(&mut v, "message", message.as_str());
                push_text(&mut v, "validation_type", validation_type.as_str());
                push_text(&mut v, "expected", expected.as_str());
                push_text(&mut v, "actual", actual.as_str());
            },
            MigrationError::BatchProcessing { message, batch_index, total_batches, failed_items } => {
                push_text(&mut v, "error_type", "batch_processing");
                push_text(&mut v, "message", message.as_str());
                push_value(&mut v, "batch_index", MetadataValue::Unsigned(*batch_index as u64));
                push_value(&mut v, "total_batches", MetadataValue::Unsigned(*total_batches as u64));
                let items = clone_strings(failed_items);
                push_value(&mut v, "failed_items", MetadataValue::TextList(items));
            },
            MigrationError::Concurrency { message, max_concurrency, active_tasks } => {
                push_text(&mut v, "error_type", "concurrency");
                push_text(&mut v, "message", message.as_str());
                push_value(&mut v, "max_concurrency", MetadataValue::Unsigned(*max_concurrency as u64));
                push_value(&mut v, "active_tasks", MetadataValue::Unsigned(*active_tasks as u64));
            },
            MigrationError::R2Operation { message, operation, bucket, key, status_code } => {
                push_text(&mut v, "error_type", "r2_operation");
                push_text(&mut v, "message", message.as_str());
                push_text(&mut v, "operation", operation.as_str());
                push_text(&mut v, "bucket", bucket.as_str());
                push_text(&mut v, "key", key.as_str());
                let val = match status_code {
                    Some(c) => MetadataValue::Unsigned(*c as u64),
                    None => MetadataValue::Null,
                };
                push_value(&mut v, "status_code", val);
            },
            MigrationError::Permission { message, user_id, required_permission, resource } => {
                push_text(&mut v, "error_type", "permission");
                push_text(&mut v, "message", message.as_str());
                push_value(&mut v, "user_id", MetadataValue::Signed(*user_id));
                push_text(&mut v, "required_permission", required_permission.as_str());
                push_text(&mut v, "resource", resource.as_str());
            },
            MigrationError::Configuration { message, config_key, expected_type } => {
                push_text(&mut v, "error_type", "configuration");
                push_text(&mut v, "message", message.as_str());
                push_text(&mut v, "config_key", config_key.as_str());
                push_text(&mut v, "expected_type", expected_type.as_str());
            },
            MigrationError::Timeout { message, operation, timeout_seconds } => {
                push_text(&mut v, "error_type", "timeout");
                push_text(&mut v, "message", message.as_str());
                push_text(&mut v, "operation", operation.as_str());
                push_value(&mut v, "timeout_seconds", MetadataValue::Unsigned(*timeout_seconds));
            },
            MigrationError::ResourceExhaustion { message, resource_type, current_usage, limit } => {
                push_text(&mut v, "error_type", "resource_exhaustion");
                push_text(&mut v, "message", message.as_str());
                push_text(&mut v, "resource_type", resource_type.as_str());
                push_value(&mut v, "current_usage", MetadataValue::Unsigned(*current_usage));
                push_value(&mut v, "limit", MetadataValue::Unsigned(*limit));
            },
            MigrationError::MigrationState { message, current_state, expected_state, migration_id } => {
                push_text(&mut v, "error_type", "migration_state");
                push_text(&mut v, "message", message.as_str());
                push_text(&mut v, "current_state", current_state.as_str());
                push_text(&mut v, "expected_state", expected_state.as_str());
                push_value(&mut v, "migration_id", MetadataValue::Signed(*migration_id));
            },
            MigrationError::ExternalDependency { message, service_name, endpoint, retry_count } => {
                push_text(&mut v, "error_type", "external_dependency");
                push_text(&mut v, "message", message.as_str());
                push_text(&mut v, "service_name", service_name.as_str());
                push_text(&mut v, "endpoint", endpoint.as_str());
                push_value(&mut v, "retry_count", MetadataValue::Unsigned(*retry_count as u64));
            },
        }
        v
    }
}

/// Copies a list of strings.
pub fn clone_strings(v: &Vec<String>) -> (r: Vec<String>)
    ensures
        r@.map_values(|s: String| s@) =~= v@.map_values(|s: String| s@),
{
    let mut r: Vec<String> = Vec::new();
    let mut i: usize = 0;
    while i < v.len()
        invariant
            i <= v.len(),
            r@.map_values(|s: String| s@) =~= v@.subrange(0, i as int).map_values(|s: String| s@),
        decreases v.len() - i,
    {
        let c = v[i].clone();
        let ghost old_r = r@;
        r.push(c);
        assert(r@.map_values(|s: String| s@) =~= old_r.map_values(|s: String| s@).push(c@));
        assert(v@.subrange(0, (i + 1) as int) =~= v@.subrange(0, i as int).push(v@[i as int]));
        assert(v@.subrange(0, (i + 1) as int).map_values(|s: String| s@) =~= v@.subrange(0, i as int).map_values(|s: String| s@).push(v@[i as int]@));
        i = i + 1;
    }
    assert(v@.subrange(0, i as int) =~= v@);
    r
}

fn push_text(v: &mut Vec<(String, MetadataValue)>, key: &str, value: &str)
    ensures
        final(v)@ == old(v)@.push(final(v)@.last()),
        entry_view(final(v)@.last()) == txt(key@, value@),
{
    v.push((String::from_str(key), MetadataValue::Text(String::from_str(value))));
}

fn push_value(v: &mut Vec<(String, MetadataValue)>, key: &str, value: MetadataValue)
    ensures
        final(v)@ == old(v)@.push(final(v)@.last()),
        entry_view(final(v)@.last()) == (key@, value.view()),
{
    v.push((String::from_str(key), value));
}

/// How many attempts an error may be retried, and how long to wait between them.
#[derive(Debug, Clone, Copy, PartialEq, Eq, Structural)]
pub struct RetryStrategy {
    /// Largest number of attempts.
    pub max_attempts: usize,
    /// Wait before the first retry, in milliseconds.
    pub initial_delay_ms: u64,
    /// Growth factor of the wait from one retry to the next, in tenths.
    pub backoff_multiplier_tenths: u32,
    /// Longest wait, in milliseconds.
    pub max_delay_ms: u64,
}

/// The strategy that the retryable kinds of error carry by default.
pub open spec fn default_retry_strategy(e: MigrationError) -> Option<RetryStrategy> {
    match e {
        MigrationError::R2Operation { .. } => Some(RetryStrategy {
            max_attempts: 3, initial_delay_ms: 1000, backoff_multiplier_tenths: 20, max_delay_ms: 30000 }),
        MigrationError::Timeout { .. } => Some(RetryStrategy {
            max_attempts: 2, initial_delay_ms: 5000, backoff_multiplier_tenths: 15, max_delay_ms: 60000 }),
        MigrationError::ExternalDependency { .. } => Some(RetryStrategy {
            max_attempts: 5, initial_delay_ms: 500, backoff_multiplier_tenths: 20, max_delay_ms: 15000 }),
        MigrationError::Concurrency { .. } => Some(RetryStrategy {
            max_attempts: 3, initial_delay_ms: 100, backoff_multiplier_tenths: 12, max_delay_ms: 5000 }),
        _ => None,
    }
}

/// The action that each kind of error calls for.
pub open spec fn action_for(e: MigrationError) -> ErrorAction {
    match e {
        MigrationError::PreValidation { .. } => ErrorAction::Abort,
        MigrationError::TargetIdentification { .. } => ErrorAction::Retry,
        MigrationError::FileMigration { .. } => ErrorAction::Skip,
        MigrationError::DatabaseUpdate { .. } => ErrorAction::Rollback,
        MigrationError::IntegrityValidation { .. } => ErrorAction::Abort,
        MigrationError::BatchProcessing { .. } => ErrorAction::Retry,
        MigrationError::Concurrency { .. } => ErrorAction::Retry,
        MigrationError::R2Operation { .. } => ErrorAction::Retry,
        MigrationError::Permission { .. } => ErrorAction::Abort,
        MigrationError::Configuration { .. } => ErrorAction::Abort,
        MigrationError::Timeout { .. } => ErrorAction::Retry,
        MigrationError::ResourceExhaustion { .. } => ErrorAction::Pause,
        MigrationError::MigrationState { .. } => ErrorAction::Reset,
        MigrationError::ExternalDependency { .. } => ErrorAction::Retry,
    }
}

/// The level at which an error record is written.
#[derive(Debug, Clone, Copy, PartialEq, Eq, Structural)]
pub enum RecordLevel {
    Error,
    Warn,
}

/// The severity tag written at the head of an error record.
pub open spec fn severity_tag(s: ErrorSeverity) -> Seq<char> {
    match s {
        ErrorSeverity::Critical => "CRITICAL"@,
        ErrorSeverity::High => "HIGH"@,
        ErrorSeverity::Medium => "MEDIUM"@,
        ErrorSeverity::Low => "LOW"@,
    }
}

/// The text of an error record up to its metadata: severity tag, code, displayed
/// error and context ("unknown" when none is given).
pub open spec fn error_record_text(e: MigrationError, context: Option<Seq<char>>) -> Seq<char> {
    severity_tag(e.severity_spec()) + " Migration Error ["@ + e.error_code_spec() + "]: "@
        + e.display_view() + " | Context: "@
        + (match context { Some(c) => c, None => "unknown"@ }) + " | Metadata: "@
}

/// Decisions taken on migration errors.
pub struct MigrationErrorHandler;

impl MigrationErrorHandler {
    /// The error record for `error`: its level (errors for critical and high
    /// severity, warnings otherwise) and its text, to which the caller appends the
    /// serialised metadata before writing it.
    pub fn log_error(error: &MigrationError, context: Option<&str>) -> (r: (RecordLevel, String))
        ensures
            r.0 == (if error.severity_spec() == ErrorSeverity::Critical || error.severity_spec() == ErrorSeverity::High {
                RecordLevel::Error } else { RecordLevel::Warn }),
            r.1@ == error_record_text(*error, match context { Some(c) => Some(c@), None => None }),
    {
        let sev = error.severity();
        let (level, tag): (RecordLevel, &str) = match sev {
            ErrorSeverity::Critical => (RecordLevel::Error, "CRITICAL"),
            ErrorSeverity::High => (RecordLevel::Error, "HIGH"),
            ErrorSeverity::Medium => (RecordLevel::Warn, "MEDIUM"),
            ErrorSeverity::Low => (RecordLevel::Warn, "LOW"),
        };
        let mut s = String::from_str(tag);
        s.append(" Migration Error [");
        let code = error.error_code();
        s.append(code.as_str());
        s.append("]: ");
        let shown = error.to_display_string();
        s.append(shown.as_str());
        s.append(" | Context: ");
        match context {
            Some(c) => s.append(c),
            None => s.append("unknown"),
        }
        s.append(" | Metadata: ");
        (level, s)
    }

    /// The action that `error` calls for.
    pub fn handle_error(error: &MigrationError) -> (r: ErrorAction)
        ensures
            r == action_for(*error),
    {
        match error {
            MigrationError::PreValidation { .. } => ErrorAction::Abort,
            MigrationError::TargetIdentification { .. } => ErrorAction::Retry,
            MigrationError::FileMigration { .. } => ErrorAction::Skip,
            MigrationError::DatabaseUpdate { .. } => ErrorAction::Rollback,
            MigrationError::IntegrityValidation { .. } => ErrorAction::Abort,
            MigrationError::BatchProcessing { .. } => ErrorAction::Retry,
            MigrationError::Concurrency { .. } => ErrorAction::Retry,
            MigrationError::R2Operation { .. } => ErrorAction::Retry,
            MigrationError::Permission { .. } => ErrorAction::Abort,
            MigrationError::Configuration { .. } => ErrorAction::Abort,
            MigrationError::Timeout { .. } => ErrorAction::Retry,
            MigrationError::ResourceExhaustion { .. } => ErrorAction::Pause,
            MigrationError::MigrationState { .. } => ErrorAction::Reset,
            MigrationError::ExternalDependency { .. } => ErrorAction::Retry,
        }
    }

    /// The default retry strategy of `error`: none unless the error is retryable.
    pub fn get_retry_strategy(error: &MigrationError) -> (r: Option<RetryStrategy>)
        ensures
            r == default_retry_strategy(*error),
            r is Some <==> error.is_retryable_spec(),
    {
        if !error.is_retryable() {
            return None;
        }
        match error {
            MigrationError::R2Operation { .. } => Some(RetryStrategy {
                max_attempts: 3, initial_delay_ms: 1000, backoff_multiplier_tenths: 20, max_delay_ms: 30000 }),
            MigrationError::Timeout { .. } => Some(RetryStrategy {
                max_attempts: 2, initial_delay_ms: 5000, backoff_multiplier_tenths: 15, max_delay_ms: 60000 }),
            MigrationError::ExternalDependency { .. } => Some(RetryStrategy {
                max_attempts: 5, initial_delay_ms: 500, backoff_multiplier_tenths: 20, max_delay_ms: 15000 }),
            MigrationError::Concurrency { .. } => Some(RetryStrategy {
                max_attempts: 3, initial_delay_ms: 100, backoff_multiplier_tenths: 12, max_delay_ms: 5000 }),
            _ => None,
        }
    }
}

/// The application error that a migration error becomes: by severity, a security,
/// database, external-service or validation error carrying the displayed error.
pub open spec fn app_error_of(e: MigrationError, r: AppError) -> bool {
    &&& r.message_view() == e.display_view()
    &&& match e.severity_spec() {
        ErrorSeverity::Critical => r is Security,
        ErrorSeverity::High => r is Database,
        ErrorSeverity::Medium => r is ExternalService,
        ErrorSeverity::Low => r is Validation,
    }
}

impl MigrationError {
    /// Converts the error into an application error according to its severity.
    pub fn into_app_error(self) -> (r: AppError)
        ensures
            app_error_of(self, r),
    {
        let text = self.to_display_string();
        match self.severity() {
            ErrorSeverity::Critical => AppError::Security(text),
            ErrorSeverity::High => AppError::Database(text),
            ErrorSeverity::Medium => AppError::ExternalService(text),
            ErrorSeverity::Low => AppError::Validation(text),
        }
    }

    /// Converts an application error back into a migration error where a kind
    /// corresponds, keeping the message and filling the other fields with
    /// placeholders; other application errors come back unchanged.
    pub fn try_from_app_error(app_error: AppError) -> (r: Result<MigrationError, AppError>)
        ensures
            match app_error {
                AppError::Database(m) => r matches Ok(MigrationError::DatabaseUpdate { message, table_name, operation, affected_rows })
                    && message@ == m@ && table_name@ == "unknown"@ && operation@ == "unknown"@ && affected_rows is None,
                AppError::Validation(m) => r matches Ok(MigrationError::PreValidation { message, details })
                    && message@ == m@ && details@ == "Converted from AppError::Validation"@,
                AppError::Security(m) => r matches Ok(MigrationError::Permission { message, user_id, required_permission, resource })
                    && message@ == m@ && user_id == 0 && required_permission@ == "unknown"@ && resource@ == "unknown"@,
                AppError::ExternalService(m) => r matches Ok(MigrationError::ExternalDependency { message, service_name, endpoint, retry_count })
                    && message@ == m@ && service_name@ == "unknown"@ && endpoint@ == "unknown"@ && retry_count == 0,
                AppError::Configuration(m) => r matches Ok(MigrationError::Configuration { message, config_key, expected_type })
                    && message@ == m@ && config_key@ == "unknown"@ && expected_type@ == "unknown"@,
                AppError::Concurrency(m) => r matches Ok(MigrationError::Concurrency { message, max_concurrency, active_tasks })
                    && message@ == m@ && max_concurrency == 0 && active_tasks == 0,
                AppError::R2(m) => r matches Ok(MigrationError::R2Operation { message, operation, bucket, key, status_code })
                    && message@ == m@ && operation@ == "unknown"@ && bucket@ == "unknown"@ && key@ == "unknown"@ && status_code is None,
                AppError::NotFound(m) => r matches Err(AppError::NotFound(m2)) && m2@ == m@,
            },
    {
        match app_error {
            AppError::Database(msg) => Ok(MigrationError::DatabaseUpdate {
                message: msg, table_name: String::from_str("unknown"), operation: String::from_str("unknown"), affected_rows: None }),
            AppError::Validation(msg) => Ok(MigrationError::PreValidation {
                message: msg, details: String::from_str("Converted from AppError::Validation") }),
            AppError::Security(msg) => Ok(MigrationError::Permission {
                message: msg, user_id: 0, required_permission: String::from_str("unknown"), resource: String::from_str("unknown") }),
            AppError::ExternalService(msg) => Ok(MigrationError::ExternalDependency {
                message: msg, service_name: String::from_str("unknown"), endpoint: String::from_str("unknown"), retry_count: 0 }),
            AppError::Configuration(msg) => Ok(MigrationError::Configuration {
                message: msg, config_key: String::from_str("unknown"), expected_type: String::from_str("unknown") }),
            AppError::Concurrency(msg) => Ok(MigrationError::Concurrency { message: msg, max_concurrency: 0, active_tasks: 0 }),
            AppError::R2(msg) => Ok(MigrationError::R2Operation {
                message: msg, operation: String::from_str("unknown"), bucket: String::from_str("unknown"),
                key: String::from_str("unknown"), status_code: None }),
            AppError::NotFound(msg) => Err(AppError::NotFound(msg)),
        }
    }
}

/// Errors that call for a security audit are never retried automatically.
pub proof fn lemma_audited_errors_not_retryable(e: MigrationError)
    ensures
        e.requires_security_audit_spec() ==> !e.is_retryable_spec(),
        e.requires_security_audit_spec() ==> action_for(e) == ErrorAction::Abort,
{
}

/// Every error whose action is to retry either has a default strategy or is
/// one of the kinds that are retried without one (target identification, batch
/// processing); an error with a default strategy is always one that calls for retry.
pub proof fn lemma_strategy_implies_retry_action(e: MigrationError)
    ensures
        default_retry_strategy(e) is Some ==> action_for(e) == ErrorAction::Retry,
        action_for(e) == ErrorAction::Retry ==> (default_retry_strategy(e) is Some
            || e is TargetIdentification || e is BatchProcessing),
{
}

} // verus!
