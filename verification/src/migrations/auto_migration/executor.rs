//! The migrations the application can run, and the decisions of the executor
//! that runs them.
use vstd::prelude::*;
use vstd::string::*;
use super::models::MigrationDefinition;

verus! {

/// The built-in procedures that apply a migration.
#[derive(Debug, Clone, Copy, PartialEq, Eq, Structural)]
pub enum MigrationExecutorKind {
    /// Creates the basic tables.
    BasicSchema,
    /// Adds user authentication.
    UserAuth,
    /// Moves receipt paths to receipt URLs.
    ReceiptUrl,
    /// Creates the tables that track the receipt-storage migration.
    R2Schema,
}

/// The name under which each procedure is known.
pub open spec fn executor_name(k: MigrationExecutorKind) -> Seq<char> {
    match k {
        MigrationExecutorKind::BasicSchema => "001_create_basic_schema"@,
        MigrationExecutorKind::UserAuth => "002_add_user_authentication"@,
        MigrationExecutorKind::ReceiptUrl => "003_migrate_receipt_url"@,
        MigrationExecutorKind::R2Schema => "r2_migration_schema"@,
    }
}

impl MigrationExecutorKind {
    /// The name of the procedure.
    pub fn name(&self) -> (r: &'static str)
        ensures
            r@ == executor_name(*self),
    {
        match self {
            MigrationExecutorKind::BasicSchema => "001_create_basic_schema",
            MigrationExecutorKind::UserAuth => "002_add_user_authentication",
            MigrationExecutorKind::ReceiptUrl => "003_migrate_receipt_url",
            MigrationExecutorKind::R2Schema => "r2_migration_schema",
        }
    }
}

/// The SQL of the receipt-storage migration schema: two tables and their indexes.
pub const R2_SCHEMA_SQL: &'static str = "CREATE TABLE IF NOT EXISTS migration_log (\n    id INTEGER PRIMARY KEY AUTOINCREMENT,\n    migration_type TEXT NOT NULL,\n    status TEXT NOT NULL CHECK(status IN ('started', 'in_progress', 'completed', 'failed', 'paused')),\n    total_items INTEGER NOT NULL DEFAULT 0,\n    processed_items INTEGER NOT NULL DEFAULT 0,\n    success_count INTEGER NOT NULL DEFAULT 0,\n    error_count INTEGER NOT NULL DEFAULT 0,\n    error_details TEXT,\n    started_at TEXT NOT NULL,\n    completed_at TEXT,\n    created_by TEXT,\n    metadata TEXT\n);\nCREATE TABLE IF NOT EXISTS migration_items (\n    id INTEGER PRIMARY KEY AUTOINCREMENT,\n    migration_log_id INTEGER NOT NULL,\n    old_path TEXT NOT NULL,\n    new_path TEXT NOT NULL,\n    user_id INTEGER NOT NULL,\n    file_size INTEGER NOT NULL,\n    status TEXT NOT NULL CHECK(status IN ('pending', 'processing', 'completed', 'failed')),\n    error_message TEXT,\n    started_at TEXT,\n    completed_at TEXT,\n    file_hash TEXT,\n    FOREIGN KEY (migration_log_id) REFERENCES migration_log(id)\n);\nCREATE INDEX IF NOT EXISTS idx_migration_log_type ON migration_log(migration_type);\nCREATE INDEX IF NOT EXISTS idx_migration_log_status ON migration_log(status);\nCREATE INDEX IF NOT EXISTS idx_migration_log_started_at ON migration_log(started_at);\nCREATE INDEX IF NOT EXISTS idx_migration_items_log_id ON migration_items(migration_log_id);\nCREATE INDEX IF NOT EXISTS idx_migration_items_status ON migration_items(status);\nCREATE INDEX IF NOT EXISTS idx_migration_items_user_id ON migration_items(user_id);\nCREATE INDEX IF NOT EXISTS idx_migration_items_old_path ON migration_items(old_path);\nCREATE INDEX IF NOT EXISTS idx_migration_items_new_path ON migration_items(new_path);\n";

/// The schema migration that creates the tables tracking the receipt-storage migration.
pub struct R2MigrationSchemaMigration;

impl R2MigrationSchemaMigration {
    /// The name of the migration.
    pub fn name(&self) -> (r: &'static str)
        ensures
            r@ == executor_name(MigrationExecutorKind::R2Schema),
    {
        "r2_migration_schema"
    }

    /// The SQL that the migration runs: its two tables and their indexes.
    pub fn schema_sql() -> (r: &'static str)
        ensures
            r@ == R2_SCHEMA_SQL@,
    {
        R2_SCHEMA_SQL
    }
}

/// A migration definition together with the procedure that applies it.
#[derive(Debug)]
pub struct ExecutableMigrationDefinition {
    pub definition: MigrationDefinition,
    pub executor: MigrationExecutorKind,
}

impl ExecutableMigrationDefinition {
    /// Pairs a definition with its procedure.
    pub fn new(definition: MigrationDefinition, executor: MigrationExecutorKind) -> (r: ExecutableMigrationDefinition)
        ensures
            r.definition == definition,
            r.executor == executor,
    {
        ExecutableMigrationDefinition { definition, executor }
    }

    /// The name of the migration.
    pub fn name(&self) -> (r: &str)
        ensures
            r@ == self.definition.name@,
    {
        self.definition.name.as_str()
    }
}

/// Runs migrations inside a transaction, after taking a backup.
pub struct MigrationExecutor;

/// The step that the executor runs for a migration name, or None for an
/// unknown migration (the schema of the receipt-storage migration is run by its
/// own procedure, not by this executor).
pub open spec fn step_for_name(name: Seq<char>) -> Option<MigrationExecutorKind> {
    if name == "001_create_basic_schema"@ {
        Some(MigrationExecutorKind::BasicSchema)
    } else if name == "002_add_user_authentication"@ {
        Some(MigrationExecutorKind::UserAuth)
    } else if name == "003_migrate_receipt_url"@ {
        Some(MigrationExecutorKind::ReceiptUrl)
    } else {
        None
    }
}

/// The message of a failed migration, naming the backup when one was taken.
pub open spec fn failure_message(name: Seq<char>, cause: Seq<char>, backup: Option<Seq<char>>) -> Seq<char> {
    match backup {
        Some(b) => "マイグレーション '"@ + name + "' の実行に失敗しました: "@ + cause + "。バックアップファイル: "@ + b,
        None => "マイグレーション '"@ + name + "' の実行に失敗しました: "@ + cause,
    }
}

impl MigrationExecutor {
    /// A new executor.
    pub fn new() -> (r: MigrationExecutor) {
        MigrationExecutor
    }

    /// The step to run for a migration.
    pub fn step_for(&self, migration: &MigrationDefinition) -> (r: Option<MigrationExecutorKind>)
        ensures
            r == step_for_name(migration.name@),
    {
        let n = &migration.name;
        if *n == String::from_str("001_create_basic_schema") {
            Some(MigrationExecutorKind::BasicSchema)
        } else if *n == String::from_str("002_add_user_authentication") {
            Some(MigrationExecutorKind::UserAuth)
        } else if *n == String::from_str("003_migrate_receipt_url") {
            Some(MigrationExecutorKind::ReceiptUrl)
        } else {
            None
        }
    }

    /// The message reported when a migration failed.
    pub fn failure_message(&self, name: &str, cause: &str, backup: Option<&str>) -> (r: String)
        ensures
            r@ == failure_message(name@, cause@, match backup { Some(b) => Some(b@), None => None }),
    {
        let mut m = String::from_str("マイグレーション '");
        m.append(name);
        m.append("' の実行に失敗しました: ");
        m.append(cause);
        match backup {
            Some(b) => {
                m.append("。バックアップファイル: ");
                m.append(b);
            },
            None => {},
        }
        m
    }

    /// The message reported when a migration succeeded.
    pub fn success_message(&self, name: &str) -> (r: String)
        ensures
            r@ == "マイグレーション '"@ + name@ + "' が正常に完了しました"@,
    {
        let mut m = String::from_str("マイグレーション '");
        m.append(name);
        m.append("' が正常に完了しました");
        m
    }

    /// The message reported for a migration the executor does not know.
    pub fn unknown_migration_message(&self, name: &str) -> (r: String)
        ensures
            r@ == "未知のマイグレーション: "@ + name@,
    {
        let mut m = String::from_str("未知のマイグレーション: ");
        m.append(name);
        m
    }
}

/// The executor has a step for exactly the procedures it owns, each found under
/// its own name: the step for a procedure's name is that procedure, but for the
/// schema of the receipt-storage migration, which its own runner applies; and a
/// name that has a step is that step's name.
pub proof fn lemma_step_names_round_trip(k: MigrationExecutorKind, name: Seq<char>)
    ensures
        k != MigrationExecutorKind::R2Schema ==> step_for_name(executor_name(k)) == Some(k),
        k == MigrationExecutorKind::R2Schema ==> step_for_name(executor_name(k)) is None,
        step_for_name(name) matches Some(s) ==> executor_name(s) == name,
{
    reveal_strlit("001_create_basic_schema");
    reveal_strlit("002_add_user_authentication");
    reveal_strlit("003_migrate_receipt_url");
    reveal_strlit("r2_migration_schema");
    let n1 = "001_create_basic_schema"@;
    let n2 = "002_add_user_authentication"@;
    let n3 = "003_migrate_receipt_url"@;
    let n4 = "r2_migration_schema"@;
    assert(n1 != n2) by { assert(n1[2] != n2[2]); }
    assert(n1 != n3) by { assert(n1[2] != n3[2]); }
    assert(n2 != n3) by { assert(n2[2] != n3[2]); }
    assert(n4 != n1) by { assert(n4[0] != n1[0]); }
    assert(n4 != n2) by { assert(n4[0] != n2[0]); }
    assert(n4 != n3) by { assert(n4[0] != n3[0]); }
}

} // verus!
