//! Automatic schema migrations: definitions, the registry of known
//! migrations, and the decisions of the executor.
pub mod errors;
pub mod executor;
pub mod models;
pub mod registry;
pub mod service;
