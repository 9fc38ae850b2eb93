//! Receipts: per-user object paths, file rules, the local cache and the
//! records of uploads.
pub mod cache;
pub mod files;
pub mod models;
pub mod user_path_manager;
