//! Migrations: their errors, the automatic schema migrations, and the
//! bookkeeping of moving stored files into per-user directories.
pub mod auto_migration;
pub mod batch_processor;
pub mod commands;
pub mod database_updater;
pub mod error_handler;
pub mod errors;
pub mod logging;
pub mod r2_migration_service;
pub mod schema_checks;
pub mod security_audit;
