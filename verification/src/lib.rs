use vstd::prelude::*;

pub mod app_error;
pub mod checksum;
pub mod clock;
pub mod connection_cache;
pub mod migrations;
pub mod receipts;
pub mod security;
pub mod subscriptions;
pub mod text;
