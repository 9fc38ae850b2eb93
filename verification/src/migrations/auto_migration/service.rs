//! The service that runs the automatic migrations when the application starts.
use vstd::prelude::*;
use vstd::string::*;
use super::errors::AutoMigrationError;
use super::executor::MigrationExecutor;
use super::models::{AutoMigrationResult, MigrationStatusReport};
use super::registry::MigrationRegistry;

verus! {

/// A database connection, carried as is.
#[verifier::external_type_specification]
#[verifier::external_body]
pub struct ExConnection(rusqlite::Connection);

/// The automatic migration service: its registry of migrations and its executor.
pub struct AutoMigrationService {
    registry: MigrationRegistry,
    executor: MigrationExecutor,
}

impl AutoMigrationService {
    /// The migrations it knows.
    pub closed spec fn registry_view(&self) -> MigrationRegistry {
        self.registry
    }

    /// A service with an empty registry; the connection is not read yet.
    pub fn new(_conn: &rusqlite::Connection) -> (r: Result<Self, AutoMigrationError>)
        ensures
            r matches Ok(s) && s.registry_view().wf() && s.registry_view().definitions().len() == 0,
    {
        Ok(AutoMigrationService { registry: MigrationRegistry::new(), executor: MigrationExecutor::new() })
    }

    /// The migrations at start-up: none is applied yet, and the run succeeds
    /// with nothing applied and no time counted.
    pub fn run_startup_migrations(&self, _conn: &rusqlite::Connection) -> (r: Result<AutoMigrationResult, AutoMigrationError>)
        ensures
            r matches Ok(res) && res.success && res.message@ == "自動マイグレーション完了（仮実装）"@
                && res.applied_migrations@.len() == 0 && res.backup_path is None && res.total_execution_time_ms == 0,
    {
        Ok(AutoMigrationResult::success(String::from_str("自動マイグレーション完了（仮実装）"), Vec::new(), None, 0))
    }

    /// The migration state: nothing available, nothing applied, version 1.0.0.
    pub fn check_migration_status(&self, _conn: &rusqlite::Connection) -> (r: Result<MigrationStatusReport, AutoMigrationError>)
        ensures
            r matches Ok(rep) && rep.total_available == 0 && rep.total_applied == 0 && rep.pending_migrations@.len() == 0
                && rep.last_migration_date is None && rep.database_version@ == "1.0.0"@,
    {
        Ok(MigrationStatusReport::new(0, 0, Vec::new(), None, String::from_str("1.0.0")))
    }
}

} // verus!
