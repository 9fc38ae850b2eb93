//! Errors of the automatic migration system.
use vstd::prelude::*;
use vstd::string::*;

verus! {

/// What kind of failure an automatic migration met.
#[derive(Debug, Clone, Copy, PartialEq, Eq, Structural)]
pub enum MigrationErrorType {
    Validation,
    Execution,
    System,
    Initialization,
    ChecksumMismatch,
}

/// A failure of the automatic migration system.
#[derive(Debug, Clone)]
pub struct AutoMigrationError {
    pub error_type: MigrationErrorType,
    pub message: String,
    pub migration_name: Option<String>,
    pub details: Option<String>,
}

impl AutoMigrationError {
    /// A validation failure.
    pub fn validation(message: String, migration_name: Option<String>, details: Option<String>) -> (e: AutoMigrationError)
        ensures
            e.error_type == MigrationErrorType::Validation,
            e.message@ == message@,
            e.migration_name == migration_name,
            e.details == details,
    {
        AutoMigrationError { error_type: MigrationErrorType::Validation, message, migration_name, details }
    }

    /// A failure while running the named migration.
    pub fn execution(migration_name: String, message: String, details: Option<String>) -> (e: AutoMigrationError)
        ensures
            e.error_type == MigrationErrorType::Execution,
            e.message@ == message@,
            e.migration_name == Some(migration_name),
            e.details == details,
    {
        AutoMigrationError { error_type: MigrationErrorType::Execution, message, migration_name: Some(migration_name), details }
    }

    /// A failure of the surrounding system (backups, connections).
    pub fn system(message: String, details: Option<String>) -> (e: AutoMigrationError)
        ensures
            e.error_type == MigrationErrorType::System,
            e.message@ == message@,
            e.migration_name is None,
            e.details == details,
    {
        AutoMigrationError { error_type: MigrationErrorType::System, message, migration_name: None, details }
    }
    /// A failure while setting up the migration bookkeeping.
    pub fn initialization(message: String, details: Option<String>) -> (e: AutoMigrationError)
        ensures
            e.error_type == MigrationErrorType::Initialization,
            e.message@ == message@,
            e.migration_name is None,
            e.details == details,
    {
        AutoMigrationError { error_type: MigrationErrorType::Initialization, message, migration_name: None, details }
    }

    /// An applied migration whose recorded checksum is not the expected one.
    pub fn checksum_mismatch(migration_name: String, expected: String, actual: String) -> (e: AutoMigrationError)
        ensures
            e.error_type == MigrationErrorType::ChecksumMismatch,
            e.message@ == "マイグレーション '"@ + migration_name@ + "' のチェックサムが一致しません"@,
            e.migration_name == Some(migration_name),
            e.details matches Some(d) && d@ == "期待値: "@ + expected@ + ", 実際値: "@ + actual@,
    {
        let mut message = String::from_str("マイグレーション '");
        message.append(migration_name.as_str());
        message.append("' のチェックサムが一致しません");
        let mut details = String::from_str("期待値: ");
        details.append(expected.as_str());
        details.append(", 実際値: ");
        details.append(actual.as_str());
        AutoMigrationError {
            error_type: MigrationErrorType::ChecksumMismatch,
            message,
            migration_name: Some(migration_name),
            details: Some(details),
        }
    }
}

} // verus!
