//! Data of the automatic migration system.
use vstd::prelude::*;
use vstd::string::*;
use crate::checksum::is_hex_char;
use super::errors::{AutoMigrationError, MigrationErrorType};
use crate::text::{chars_of, i64_to_decimal, int_decimal, nat_decimal, u64_to_decimal};

verus! {

/// A migration that the application knows how to apply.
#[derive(Debug, Clone)]
pub struct MigrationDefinition {
    pub name: String,
    pub version: String,
    pub description: String,
    /// SHA-256 checksum of the migration's content, in hexadecimal.
    pub checksum: String,
}

/// A definition is valid when name and version are non-empty and the checksum
/// is 64 bytes of hexadecimal digits.
pub open spec fn valid_definition(d: MigrationDefinition) -> bool {
    &&& d.name@.len() > 0
    &&& d.version@.len() > 0
    &&& vstd::utf8::encode_utf8(d.checksum@).len() == 64
    &&& forall|i: int| 0 <= i < d.checksum@.len() ==> is_hex_char(#[trigger] d.checksum@[i])
}

/// The message of the first check that a definition fails.
pub open spec fn definition_error(d: MigrationDefinition) -> Seq<char> {
    if d.name@.len() == 0 {
        "マイグレーション名が空です"@
    } else if d.version@.len() == 0 {
        "バージョンが空です"@
    } else if vstd::utf8::encode_utf8(d.checksum@).len() != 64 {
        "チェックサムの長さが無効です（64文字のSHA-256が必要）"@
    } else {
        "チェックサムが無効な形式です（16進数文字列が必要）"@
    }
}

fn is_hex_exec(c: char) -> (r: bool)
    ensures
        r == is_hex_char(c),
{
    ('0' <= c && c <= '9') || ('a' <= c && c <= 'f') || ('A' <= c && c <= 'F')
}

/// Whether every character is a hexadecimal digit.
pub fn all_hex(s: &str) -> (r: bool)
    ensures
        r == (forall|i: int| 0 <= i < s@.len() ==> is_hex_char(#[trigger] s@[i])),
{
    let cs = chars_of(s);
    let mut i: usize = 0;
    while i < cs.len()
        invariant
            cs@ == s@,
            i <= cs@.len(),
            forall|j: int| 0 <= j < i ==> is_hex_char(#[trigger] s@[j]),
        decreases cs@.len() - i,
    {
        if !is_hex_exec(cs[i]) {
            return false;
        }
        i = i + 1;
    }
    true
}

impl MigrationDefinition {
    /// A definition from its four fields.
    pub fn new(name: String, version: String, description: String, checksum: String) -> (r: MigrationDefinition)
        ensures
            r.name == name,
            r.version == version,
            r.description == description,
            r.checksum == checksum,
    {
        MigrationDefinition { name, version, description, checksum }
    }

    /// Checks the definition; the error names the first failed check.
    pub fn validate(&self) -> (r: Result<(), String>)
        ensures
            r is Ok <==> valid_definition(*self),
            r matches Err(m) ==> m@ == definition_error(*self),
    {
        if self.name.as_str().is_empty() {
            return Err(String::from_str("マイグレーション名が空です"));
        }
        if self.version.as_str().is_empty() {
            return Err(String::from_str("バージョンが空です"));
        }
        if self.checksum.as_str().as_bytes().len() != 64 {
            return Err(String::from_str("チェックサムの長さが無効です（64文字のSHA-256が必要）"));
        }
        if !all_hex(self.checksum.as_str()) {
            return Err(String::from_str("チェックサムが無効な形式です（16進数文字列が必要）"));
        }
        Ok(())
    }
}

/// A migration recorded as applied in the database.
#[derive(Debug, Clone)]
pub struct AppliedMigration {
    pub id: i64,
    pub name: String,
    pub version: String,
    pub description: Option<String>,
    pub checksum: String,
    /// When it was applied (JST, RFC 3339).
    pub applied_at: String,
    pub execution_time_ms: Option<i64>,
    /// When the record was made (JST, RFC 3339).
    pub created_at: String,
}

impl AppliedMigration {
    /// A record from its fields.
    pub fn new(id: i64, name: String, version: String, description: Option<String>, checksum: String,
        applied_at: String, execution_time_ms: Option<i64>, created_at: String) -> (r: AppliedMigration)
        ensures
            r.id == id && r.name == name && r.version == version && r.description == description
                && r.checksum == checksum && r.applied_at == applied_at
                && r.execution_time_ms == execution_time_ms && r.created_at == created_at,
    {
        AppliedMigration { id, name, version, description, checksum, applied_at, execution_time_ms, created_at }
    }

    /// Whether the recorded checksum is the expected one.
    pub fn verify_checksum(&self, expected_checksum: &str) -> (r: bool)
        ensures
            r == (self.checksum@ == expected_checksum@),
    {
        let expected = String::from_str(expected_checksum);
        self.checksum == expected
    }
}

/// Outcome of an automatic migration run.
#[derive(Debug)]
pub struct AutoMigrationResult {
    pub success: bool,
    pub message: String,
    pub applied_migrations: Vec<String>,
    pub backup_path: Option<String>,
    pub total_execution_time_ms: i64,
}

impl AutoMigrationResult {
    /// A successful run.
    pub fn success(message: String, applied_migrations: Vec<String>, backup_path: Option<String>,
        total_execution_time_ms: i64) -> (r: AutoMigrationResult)
        ensures
            r.success && r.message == message && r.applied_migrations == applied_migrations
                && r.backup_path == backup_path && r.total_execution_time_ms == total_execution_time_ms,
    {
        AutoMigrationResult { success: true, message, applied_migrations, backup_path, total_execution_time_ms }
    }

    /// A failed run: nothing applied, no time counted.
    pub fn failure(message: String, backup_path: Option<String>) -> (r: AutoMigrationResult)
        ensures
            !r.success && r.message == message && r.applied_migrations@.len() == 0
                && r.backup_path == backup_path && r.total_execution_time_ms == 0,
    {
        AutoMigrationResult { success: false, message, applied_migrations: Vec::new(), backup_path, total_execution_time_ms: 0 }
    }
}

/// The state of the migrations of a database.
#[derive(Debug)]
pub struct MigrationStatusReport {
    pub total_available: usize,
    pub total_applied: usize,
    pub pending_migrations: Vec<String>,
    pub last_migration_date: Option<String>,
    pub database_version: String,
}

impl MigrationStatusReport {
    /// A report from its fields.
    pub fn new(total_available: usize, total_applied: usize, pending_migrations: Vec<String>,
        last_migration_date: Option<String>, database_version: String) -> (r: MigrationStatusReport)
        ensures
            r.total_available == total_available && r.total_applied == total_applied
                && r.pending_migrations == pending_migrations && r.last_migration_date == last_migration_date
                && r.database_version == database_version,
    {
        MigrationStatusReport { total_available, total_applied, pending_migrations, last_migration_date, database_version }
    }

    /// Whether some migration is still to be applied.
    pub fn has_pending_migrations(&self) -> (r: bool)
        ensures
            r == (self.pending_migrations@.len() > 0),
    {
        self.pending_migrations.len() > 0
    }
}

/// Outcome of one migration.
#[derive(Debug)]
pub struct MigrationExecutionResult {
    pub success: bool,
    pub message: String,
    pub execution_time_ms: i64,
    pub backup_path: Option<String>,
}

impl MigrationExecutionResult {
    /// A successful migration.
    pub fn success(message: String, execution_time_ms: i64, backup_path: Option<String>) -> (r: MigrationExecutionResult)
        ensures
            r.success && r.message == message && r.execution_time_ms == execution_time_ms && r.backup_path == backup_path,
    {
        MigrationExecutionResult { success: true, message, execution_time_ms, backup_path }
    }

    /// A failed migration: no time counted.
    pub fn failure(message: String, backup_path: Option<String>) -> (r: MigrationExecutionResult)
        ensures
            !r.success && r.message == message && r.execution_time_ms == 0 && r.backup_path == backup_path,
    {
        MigrationExecutionResult { success: false, message, execution_time_ms: 0, backup_path }
    }
}

impl MigrationDefinition {
    /// The displayed form: `Migration[{name}] v{version}: {description}`.
    pub fn to_display_string(&self) -> (r: String)
        ensures
            r@ == "Migration["@ + self.name@ + "] v"@ + self.version@ + ": "@ + self.description@,
    {
        let mut s = String::from_str("Migration[");
        s.append(self.name.as_str());
        s.append("] v");
        s.append(self.version.as_str());
        s.append(": ");
        s.append(self.description.as_str());
        s
    }
}

impl AppliedMigration {
    /// The displayed form: `Applied[{name}] v{version} at {applied_at}`.
    pub fn to_display_string(&self) -> (r: String)
        ensures
            r@ == "Applied["@ + self.name@ + "] v"@ + self.version@ + " at "@ + self.applied_at@,
    {
        let mut s = String::from_str("Applied[");
        s.append(self.name.as_str());
        s.append("] v");
        s.append(self.version.as_str());
        s.append(" at ");
        s.append(self.applied_at.as_str());
        s
    }
}

impl AutoMigrationResult {
    /// The displayed form: the message with the number of applied migrations
    /// and the time for a success, the message alone for a failure.
    pub fn to_display_string(&self) -> (r: String)
        ensures
            self.success ==> r@ == "成功: "@ + self.message@ + " (適用: "@ + nat_decimal(self.applied_migrations@.len())
                + ", 実行時間: "@ + int_decimal(self.total_execution_time_ms as int) + "ms)"@,
            !self.success ==> r@ == "失敗: "@ + self.message@,
    {
        if self.success {
            let mut s = String::from_str("成功: ");
            s.append(self.message.as_str());
            s.append(" (適用: ");
            s.append(u64_to_decimal(self.applied_migrations.len() as u64).as_str());
            s.append(", 実行時間: ");
            s.append(i64_to_decimal(self.total_execution_time_ms).as_str());
            s.append("ms)");
            s
        } else {
            let mut s = String::from_str("失敗: ");
            s.append(self.message.as_str());
            s
        }
    }
}

impl MigrationExecutionResult {
    /// The displayed form: the message with the time for a success, the
    /// message alone for a failure.
    pub fn to_display_string(&self) -> (r: String)
        ensures
            self.success ==> r@ == "成功: "@ + self.message@ + " (実行時間: "@ + int_decimal(self.execution_time_ms as int) + "ms)"@,
            !self.success ==> r@ == "失敗: "@ + self.message@,
    {
        if self.success {
            let mut s = String::from_str("成功: ");
            s.append(self.message.as_str());
            s.append(" (実行時間: ");
            s.append(i64_to_decimal(self.execution_time_ms).as_str());
            s.append("ms)");
            s
        } else {
            let mut s = String::from_str("失敗: ");
            s.append(self.message.as_str());
            s
        }
    }
}

/// The check of a migration's recorded checksum against the expected one: a
/// migration not recorded passes, a recorded one passes when its checksum is
/// the expected one.
pub fn check_recorded_checksum(applied: Option<AppliedMigration>, name: &str, expected_checksum: &str) -> (r: Result<(), AutoMigrationError>)
    ensures
        match applied {
            None => r is Ok,
            Some(a) => if a.checksum@ == expected_checksum@ {
                r is Ok
            } else {
                r matches Err(e) && e.error_type == MigrationErrorType::ChecksumMismatch
                    && e.message@ == "マイグレーション '"@ + name@ + "' のチェックサムが一致しません"@
                    && (e.migration_name matches Some(n) && n@ == name@)
                    && (e.details matches Some(d) && d@ == "期待値: "@ + expected_checksum@ + ", 実際値: "@ + a.checksum@)
            },
        },
{
    match applied {
        None => Ok(()),
        Some(a) => {
            if a.verify_checksum(expected_checksum) {
                Ok(())
            } else {
                Err(AutoMigrationError::checksum_mismatch(String::from_str(name), String::from_str(expected_checksum), a.checksum))
            }
        },
    }
}

} // verus!
