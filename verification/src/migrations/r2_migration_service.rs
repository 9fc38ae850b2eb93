//! The course of a migration run that moves stored receipts into per-user
//! directories: each outcome that the service reports decides the next step.
//! The service itself runs the steps (storage, database, waits).
use vstd::prelude::*;
use vstd::string::*;
use crate::app_error::{error_view, AppResult};
use crate::migrations::batch_processor::{BatchProcessorStats, MigrationItem, MigrationResult, R2FileInfo};
use crate::migrations::errors::MigrationError;
use crate::receipts::user_path_manager::{moved_under_user, UserPathManager, LEGACY_RECEIPTS_PREFIX};

verus! {

/// The state of the batch processor as the service reports it.
#[derive(Debug, Clone, Copy, PartialEq, Eq)]
pub struct MigrationStatus {
    pub is_running: bool,
    pub is_paused: bool,
    pub is_cancelled: bool,
    pub max_concurrency: usize,
    pub available_permits: usize,
}

impl MigrationStatus {
    /// The status from the processor's state: running while not stopped and
    /// some permit is taken.
    pub fn from_stats(stats: BatchProcessorStats) -> (r: Self)
        ensures
            r.is_running == (!stats.is_cancelled && stats.available_permits < stats.max_concurrency),
            r.is_paused == stats.is_paused,
            r.is_cancelled == stats.is_cancelled,
            r.max_concurrency == stats.max_concurrency,
            r.available_permits == stats.available_permits,
    {
        MigrationStatus {
            is_running: !stats.is_cancelled && stats.available_permits < stats.max_concurrency,
            is_paused: stats.is_paused,
            is_cancelled: stats.is_cancelled,
            max_concurrency: stats.max_concurrency,
            available_permits: stats.available_permits,
        }
    }
}

/// The next thing the service does in a run.
#[derive(Debug)]
pub enum RunStep {
    /// Check the storage connection, the database and the permissions.
    Validate,
    /// List the legacy files and the users they belong to.
    IdentifyTargets,
    /// Create the migration log entry for `item_count` files.
    CreateLog { item_count: usize },
    /// Record the log of a dry run over `item_count` files with `status` and
    /// the counts given (nothing was moved); the run's outcome is
    /// [`MigrationResult::dry_run_success`].
    CompleteDryRun { log_id: i64, item_count: usize, status: String, processed_items: i64, success_count: i64, error_count: i64 },
    /// Back up the database.
    Backup { log_id: i64 },
    /// Record the log with `status` and the counts given (nothing moved yet),
    /// then move the files in batches.
    ProcessBatches { log_id: i64, status: String, processed_items: i64, success_count: i64, error_count: i64 },
    /// Check the moved files.
    ValidateResult { log_id: i64 },
    /// Record the final state of the log, then end with the batches' outcome.
    FinalizeLog { log_id: i64, status: String },
    /// Hand `error` to the error handler under `context`, then end with the
    /// failure that caused it.
    Fail { error: MigrationError, log_id: Option<i64>, context: String },
}

/// Where a run stands.
#[derive(Debug, Clone, Copy, PartialEq, Eq, Structural)]
pub enum RunPhase {
    Validating,
    Identifying,
    Logging,
    BackingUp,
    Processing,
    CheckingResult,
    Finishing,
    Over,
}

/// A migration run: whether it is a dry run, where it stands, and the log
/// entry and file count once known.
pub struct MigrationRun {
    dry_run: bool,
    phase: RunPhase,
    item_count: usize,
    log_id: i64,
}

impl MigrationRun {
    pub closed spec fn is_dry_run(&self) -> bool {
        self.dry_run
    }

    pub closed spec fn phase(&self) -> RunPhase {
        self.phase
    }

    pub closed spec fn items(&self) -> usize {
        self.item_count
    }

    pub closed spec fn log(&self) -> i64 {
        self.log_id
    }

    /// A run that begins with the checks.
    pub fn start(dry_run: bool) -> (r: (Self, RunStep))
        ensures
            r.0.is_dry_run() == dry_run,
            r.0.phase() == RunPhase::Validating,
            r.1 is Validate,
    {
        (MigrationRun { dry_run, phase: RunPhase::Validating, item_count: 0, log_id: 0 }, RunStep::Validate)
    }

    /// After the checks: a failure ends the run as a pre-validation error.
    pub fn on_validated(&mut self, outcome: Result<(), String>) -> (r: RunStep)
        requires
            old(self).phase() == RunPhase::Validating,
        ensures
            final(self).is_dry_run() == old(self).is_dry_run(),
            match outcome {
                Ok(_) => r is IdentifyTargets && final(self).phase() == RunPhase::Identifying,
                Err(m) => r matches RunStep::Fail { error, log_id, context }
                    && error matches MigrationError::PreValidation { message, details }
                    && message@ == m@ && details@ == "事前検証でエラーが発生しました"@
                    && log_id is None && context@ == "pre_validation"@ && final(self).phase() == RunPhase::Over,
            },
    {
        match outcome {
            Ok(_) => {
                self.phase = RunPhase::Identifying;
                RunStep::IdentifyTargets
            },
            Err(m) => {
                self.phase = RunPhase::Over;
                RunStep::Fail {
                    error: MigrationError::PreValidation { message: m, details: String::from_str("事前検証でエラーが発生しました") },
                    log_id: None,
                    context: String::from_str("pre_validation"),
                }
            },
        }
    }

    /// After listing the files: a failure ends the run; otherwise the log
    /// entry for the files comes next.
    pub fn on_targets(&mut self, outcome: Result<usize, String>) -> (r: RunStep)
        requires
            old(self).phase() == RunPhase::Identifying,
        ensures
            final(self).is_dry_run() == old(self).is_dry_run(),
            match outcome {
                Ok(n) => r == (RunStep::CreateLog { item_count: n }) && final(self).phase() == RunPhase::Logging
                    && final(self).items() == n,
                Err(m) => r matches RunStep::Fail { error, log_id, context }
                    && error matches MigrationError::TargetIdentification { message, file_count }
                    && message@ == m@ && file_count == 0 && log_id is None && context@ == "target_identification"@ && final(self).phase() == RunPhase::Over,
            },
    {
        match outcome {
            Ok(n) => {
                self.phase = RunPhase::Logging;
                self.item_count = n;
                RunStep::CreateLog { item_count: n }
            },
            Err(m) => {
                self.phase = RunPhase::Over;
                RunStep::Fail {
                    error: MigrationError::TargetIdentification { message: m, file_count: 0 },
                    log_id: None,
                    context: String::from_str("target_identification"),
                }
            },
        }
    }

    /// After the log entry is created: a dry run ends here; otherwise the
    /// database is backed up.
    pub fn on_log_created(&mut self, log_id: i64) -> (r: RunStep)
        requires
            old(self).phase() == RunPhase::Logging,
        ensures
            final(self).is_dry_run() == old(self).is_dry_run(),
            final(self).log() == log_id,
            final(self).items() == old(self).items(),
            old(self).is_dry_run() ==> (r matches RunStep::CompleteDryRun { log_id: l, item_count, status, processed_items, success_count, error_count }
                && l == log_id && item_count == old(self).items() && status@ == "completed"@ && processed_items == 0
                && success_count == 0 && error_count == 0) && final(self).phase() == RunPhase::Over,
            !old(self).is_dry_run() ==> r == (RunStep::Backup { log_id }) && final(self).phase() == RunPhase::BackingUp,
    {
        self.log_id = log_id;
        if self.dry_run {
            self.phase = RunPhase::Over;
            RunStep::CompleteDryRun {
                log_id,
                item_count: self.item_count,
                status: String::from_str("completed"),
                processed_items: 0,
                success_count: 0,
                error_count: 0,
            }
        } else {
            self.phase = RunPhase::BackingUp;
            RunStep::Backup { log_id }
        }
    }

    /// After the backup: a failure ends the run as a database error.
    pub fn on_backup(&mut self, outcome: Result<(), String>) -> (r: RunStep)
        requires
            old(self).phase() == RunPhase::BackingUp,
        ensures
            final(self).is_dry_run() == old(self).is_dry_run(),
            final(self).log() == old(self).log(),
            match outcome {
                Ok(_) => (r matches RunStep::ProcessBatches { log_id, status, processed_items, success_count, error_count }
                    && log_id == old(self).log() && status@ == "in_progress"@ && processed_items == 0 && success_count == 0
                    && error_count == 0) && final(self).phase() == RunPhase::Processing,
                Err(m) => r matches RunStep::Fail { error, log_id, context }
                    && error matches MigrationError::DatabaseUpdate { message, table_name, operation, affected_rows }
                    && message@ == m@ && table_name@ == "backup"@ && operation@ == "create_backup"@ && affected_rows is None
                    && log_id == Some(old(self).log()) && context@ == "database_backup"@
                    && final(self).phase() == RunPhase::Over,
            },
    {
        match outcome {
            Ok(_) => {
                self.phase = RunPhase::Processing;
                RunStep::ProcessBatches {
                    log_id: self.log_id,
                    status: String::from_str("in_progress"),
                    processed_items: 0,
                    success_count: 0,
                    error_count: 0,
                }
            },
            Err(m) => {
                self.phase = RunPhase::Over;
                RunStep::Fail {
                    error: MigrationError::DatabaseUpdate {
                        message: m,
                        table_name: String::from_str("backup"),
                        operation: String::from_str("create_backup"),
                        affected_rows: None,
                    },
                    log_id: Some(self.log_id),
                    context: String::from_str("database_backup"),
                }
            },
        }
    }

    /// After the batches: a run without errors checks its result; one with
    /// errors is recorded as failed.
    pub fn on_batches(&mut self, result: &MigrationResult) -> (r: RunStep)
        requires
            old(self).phase() == RunPhase::Processing,
        ensures
            final(self).is_dry_run() == old(self).is_dry_run(),
            final(self).log() == old(self).log(),
            result.error_count == 0 ==> r == (RunStep::ValidateResult { log_id: old(self).log() })
                && final(self).phase() == RunPhase::CheckingResult,
            result.error_count != 0 ==> (final(self).phase() == RunPhase::Finishing
                && (r matches RunStep::FinalizeLog { log_id, status } && log_id == old(self).log() && status@ == "failed"@)),
    {
        if result.error_count == 0 {
            self.phase = RunPhase::CheckingResult;
            RunStep::ValidateResult { log_id: self.log_id }
        } else {
            self.phase = RunPhase::Finishing;
            RunStep::FinalizeLog { log_id: self.log_id, status: String::from_str("failed") }
        }
    }

    /// After checking the result: a failed check is reported as an integrity
    /// error, but the run still completes.
    pub fn on_result_validated(&mut self, outcome: Result<(), String>) -> (r: (Option<MigrationError>, RunStep))
        requires
            old(self).phase() == RunPhase::CheckingResult,
        ensures
            final(self).is_dry_run() == old(self).is_dry_run(),
            final(self).log() == old(self).log(),
            final(self).phase() == RunPhase::Finishing,
            r.1 matches RunStep::FinalizeLog { log_id, status } && log_id == old(self).log() && status@ == "completed"@,
            match outcome {
                Ok(_) => r.0 is None,
                Err(m) => r.0 matches Some(MigrationError::IntegrityValidation { message, validation_type, expected, actual })
                    && message@ == m@ && validation_type@ == "post_migration"@ && expected@ == "no_errors"@
                    && actual@ == "validation_failed"@,
            },
    {
        self.phase = RunPhase::Finishing;
        let report = match outcome {
            Ok(_) => None,
            Err(m) => Some(
                MigrationError::IntegrityValidation {
                    message: m,
                    validation_type: String::from_str("post_migration"),
                    expected: String::from_str("no_errors"),
                    actual: String::from_str("validation_failed"),
                },
            ),
        };
        (report, RunStep::FinalizeLog { log_id: self.log_id, status: String::from_str("completed") })
    }

    /// After the final log update the run is over.
    pub fn on_finalized(&mut self)
        requires
            old(self).phase() == RunPhase::Finishing,
        ensures
            final(self).phase() == RunPhase::Over,
            final(self).log() == old(self).log(),
            final(self).is_dry_run() == old(self).is_dry_run(),
    {
        self.phase = RunPhase::Over;
    }
}

/// The file to move for a listed legacy file, if its user is known: its path
/// under that user's directory.
pub fn migration_item_for(file: &R2FileInfo, user_id: Option<i64>) -> (r: AppResult<Option<MigrationItem>>)
    ensures
        match user_id {
            None => r matches Ok(None),
            Some(uid) => match moved_under_user(file.key@, uid, LEGACY_RECEIPTS_PREFIX@, "無効なレガシーパス: "@) {
                Ok(p) => r matches Ok(Some(item)) && item.old_path@ == file.key@ && item.new_path@ == p
                    && item.user_id == uid && item.file_size == file.size && item.last_modified == file.last_modified,
                Err(e) => r matches Err(x) && error_view(x) == e,
            },
        },
{
    match user_id {
        None => Ok(None),
        Some(uid) => {
            match UserPathManager::convert_legacy_to_user_path(file.key.as_str(), uid) {
                Ok(new_path) => Ok(
                    Some(
                        MigrationItem {
                            old_path: file.key.clone(),
                            new_path,
                            user_id: uid,
                            file_size: file.size,
                            last_modified: file.last_modified,
                        },
                    ),
                ),
                Err(e) => Err(e),
            }
        },
    }
}

} // verus!
