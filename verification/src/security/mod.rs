//! Security: token encryption, the token service and its records.
pub mod encryption;
pub mod models;
pub mod service;
pub mod feature;
