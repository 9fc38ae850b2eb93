//! Records of the security feature: diagnostics, validation results,
//! connection tests, security events, and the token service's own types.
use vstd::prelude::*;
use vstd::string::*;
use crate::clock::random_uuid_text;

verus! {

/// chrono and chrono-tz: `Utc::now().with_timezone(&Asia::Tokyo).to_rfc3339()`.
/// Claimed: a non-empty text (the form is `YYYY-MM-DDThh:mm:ss[.f]+09:00`);
/// the time itself is the clock's.
#[verifier::external_body]
pub(crate) fn tokyo_now_rfc3339() -> (r: String)
    ensures
        r@.len() > 0,
{
    chrono::Utc::now().with_timezone(&chrono_tz::Asia::Tokyo).to_rfc3339()
}

/// The outcome of checking one setting.
#[derive(Debug, Clone, Copy, PartialEq, Eq, Structural)]
pub enum ValidationStatus {
    Success,
    Warning,
    Error,
    NotChecked,
}

impl Default for ValidationStatus {
    fn default() -> (r: Self)
        ensures
            r == ValidationStatus::NotChecked,
    {
        ValidationStatus::NotChecked
    }
}

/// How serious a security event is.
#[derive(Debug, Clone, Copy, PartialEq, Eq, Structural)]
pub enum EventSeverity {
    Info,
    Warning,
    Error,
    Critical,
}

impl Default for EventSeverity {
    fn default() -> (r: Self)
        ensures
            r == EventSeverity::Info,
    {
        EventSeverity::Info
    }
}

/// Where the configuration was read from.
#[derive(Debug, Clone, Copy, PartialEq, Eq, Structural)]
pub enum ConfigSource {
    Embedded,
    Environment,
    Default,
}

impl Default for ConfigSource {
    fn default() -> (r: Self)
        ensures
            r == ConfigSource::Default,
    {
        ConfigSource::Default
    }
}

/// The build the application runs on.
#[derive(Debug, Clone)]
pub struct SystemInfo {
    pub rust_version: String,
    pub target_arch: String,
    pub target_os: String,
    pub app_version: String,
}

impl SystemInfo {
    pub fn new(rust_version: String, target_arch: String, target_os: String, app_version: String) -> (r: Self)
        ensures
            r.rust_version == rust_version,
            r.target_arch == target_arch,
            r.target_os == target_os,
            r.app_version == app_version,
    {
        SystemInfo { rust_version, target_arch, target_os, app_version }
    }
}

/// A diagnostic snapshot; credentials are masked (name, masked value) pairs.
#[derive(Debug, Clone)]
pub struct DiagnosticInfo {
    pub environment: String,
    pub debug_mode: bool,
    pub log_level: String,
    pub credentials: Vec<(String, String)>,
    pub system_info: SystemInfo,
    pub validation_status: ValidationStatus,
}

impl DiagnosticInfo {
    /// A snapshot whose settings are not checked yet.
    pub fn new(
        environment: String,
        debug_mode: bool,
        log_level: String,
        credentials: Vec<(String, String)>,
        system_info: SystemInfo,
    ) -> (r: Self)
        ensures
            r.environment == environment,
            r.debug_mode == debug_mode,
            r.log_level == log_level,
            r.credentials == credentials,
            r.system_info == system_info,
            r.validation_status == ValidationStatus::NotChecked,
    {
        DiagnosticInfo {
            environment,
            debug_mode,
            log_level,
            credentials,
            system_info,
            validation_status: ValidationStatus::NotChecked,
        }
    }

    /// Records the outcome of checking the settings.
    pub fn set_validation_status(&mut self, status: ValidationStatus)
        ensures
            final(self).validation_status == status,
            final(self).environment == old(self).environment,
            final(self).debug_mode == old(self).debug_mode,
            final(self).log_level == old(self).log_level,
            final(self).credentials == old(self).credentials,
            final(self).system_info == old(self).system_info,
    {
        self.validation_status = status;
    }
}

/// The check of one setting.
#[derive(Debug, Clone)]
pub struct ValidationDetail {
    pub item: String,
    pub status: ValidationStatus,
    pub message: String,
}

impl ValidationDetail {
    pub fn new(item: String, status: ValidationStatus, message: String) -> (r: Self)
        ensures
            r.item == item,
            r.status == status,
            r.message == message,
    {
        ValidationDetail { item, status, message }
    }
}

/// The outcome of checking the settings.
#[derive(Debug, Clone)]
pub struct ValidationResult {
    pub is_valid: bool,
    pub message: String,
    pub details: Vec<ValidationDetail>,
}

impl ValidationResult {
    /// A passed check.
    pub fn success(message: String, details: Vec<ValidationDetail>) -> (r: Self)
        ensures
            r.is_valid,
            r.message == message,
            r.details == details,
    {
        ValidationResult { is_valid: true, message, details }
    }

    /// A failed check.
    pub fn failure(message: String, details: Vec<ValidationDetail>) -> (r: Self)
        ensures
            !r.is_valid,
            r.message == message,
            r.details == details,
    {
        ValidationResult { is_valid: false, message, details }
    }
}

/// The storage connection that a test used, with its secrets masked.
#[derive(Debug, Clone)]
pub struct ConnectionDetails {
    pub endpoint: String,
    pub bucket_name: String,
    pub account_id: String,
    pub access_key: String,
}

/// The outcome of a storage connection test, stamped with Tokyo time.
#[derive(Debug, Clone)]
pub struct ConnectionTestResult {
    pub is_connected: bool,
    pub tested_at: String,
    pub response_time_ms: Option<u64>,
    pub error_message: Option<String>,
    pub connection_details: ConnectionDetails,
}

impl ConnectionTestResult {
    /// A connection that answered in `response_time_ms`.
    pub fn success(response_time_ms: u64, connection_details: ConnectionDetails) -> (r: Self)
        ensures
            r.is_connected,
            r.tested_at@.len() > 0,
            r.response_time_ms == Some(response_time_ms),
            r.error_message is None,
            r.connection_details == connection_details,
    {
        ConnectionTestResult {
            is_connected: true,
            tested_at: tokyo_now_rfc3339(),
            response_time_ms: Some(response_time_ms),
            error_message: None,
            connection_details,
        }
    }

    /// A connection that failed with `error_message`.
    pub fn failure(error_message: String, connection_details: ConnectionDetails) -> (r: Self)
        ensures
            !r.is_connected,
            r.tested_at@.len() > 0,
            r.response_time_ms is None,
            r.error_message == Some(error_message),
            r.connection_details == connection_details,
    {
        ConnectionTestResult {
            is_connected: false,
            tested_at: tokyo_now_rfc3339(),
            response_time_ms: None,
            error_message: Some(error_message),
            connection_details,
        }
    }
}

/// A security event, with a random id and a Tokyo-time stamp.
#[derive(Debug, Clone)]
pub struct SecurityEvent {
    pub id: String,
    pub event_type: String,
    pub details: String,
    pub timestamp: String,
    pub severity: EventSeverity,
    pub user_context: Option<String>,
}

impl SecurityEvent {
    /// A new event, identified by a random UUID and stamped with the current
    /// Tokyo time.
    pub fn new(event_type: String, details: String, severity: EventSeverity, user_context: Option<String>) -> (r: Self)
        ensures
            r.id@.len() == 36,
            r.timestamp@.len() > 0,
            r.event_type == event_type,
            r.details == details,
            r.severity == severity,
            r.user_context == user_context,
    {
        let timestamp = tokyo_now_rfc3339();
        SecurityEvent { id: random_uuid_text(), event_type, details, timestamp, severity, user_context }
    }
}

/// A security audit log over a period.
#[derive(Debug, Clone)]
pub struct SecurityAuditLog {
    pub entries: Vec<SecurityEvent>,
    pub generated_at: String,
    pub period_start: String,
    pub period_end: String,
    pub total_events: usize,
}

/// The environment the application runs in.
#[derive(Debug, Clone)]
pub struct EnvironmentInfo {
    pub environment: String,
    pub debug_mode: bool,
    pub log_level: String,
    pub is_production: bool,
    pub is_development: bool,
    pub config_source: ConfigSource,
}

/// Settings of the token service.
#[derive(Debug, Clone)]
pub struct SecurityConfig {
    /// The passphrase the encryption key is made from.
    pub encryption_key: String,
    /// How long a stored token may live, in hours.
    pub max_token_age_hours: i64,
    pub enable_audit_logging: bool,
}

/// Failures of the token service.
#[derive(Debug, Clone)]
pub enum SecurityError {
    EncryptionError(String),
    DecryptionError(String),
}

impl SecurityError {
    /// The displayed form of the error: its kind's heading, then its message.
    pub fn to_display_string(&self) -> (r: String)
        ensures
            r@ == (match self {
                SecurityError::EncryptionError(m) => "暗号化エラー: "@ + m@,
                SecurityError::DecryptionError(m) => "復号化エラー: "@ + m@,
            }),
    {
        let (head, m): (&str, &String) = match self {
            SecurityError::EncryptionError(m) => ("暗号化エラー: ", m),
            SecurityError::DecryptionError(m) => ("復号化エラー: ", m),
        };
        let mut s = String::from_str(head);
        s.append(m.as_str());
        s
    }
}

/// A stored token: its id, its encrypted form, when it was stored and last
/// used (seconds since the Unix epoch), and how often it was decrypted.
#[derive(Debug, Clone)]
pub struct TokenInfo {
    pub token_id: String,
    pub encrypted_token: String,
    pub created_at: i64,
    pub last_accessed: i64,
    pub access_count: u64,
}

} // verus!
