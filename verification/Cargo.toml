[package]
name = "expense_core"
version = "0.1.0"
edition = "2021"
publish = false

[dependencies]
sha2 = "=0.10.9"
aes-gcm = "=0.10.3"
base64 = "=0.22.1"
rand = "=0.8.8"
regex = "=1.13.1"
uuid = { version = "=1.29.0", features = ["v4"] }
chrono = "=0.4.45"
chrono-tz = "=0.10.4"
serde = { version = "=1.0.229", features = ["derive"] }
serde_json = "=1.0.154"
log = "=0.4.35"
rusqlite = { version = "=0.41.1", features = ["bundled", "backup"] }
thiserror = "=2.0.21"
