//! The security feature's entry points and the records that its commands
//! exchange with the user interface.
use vstd::prelude::*;
use vstd::string::*;
use crate::security::encryption::padded_key;
use crate::app_error::{app_result_view, error_view, AppError, AppErrorKind, AppResult};
use crate::security::models::{SecurityConfig, SecurityError, ValidationResult};
use crate::security::service::{SecurityManager, SecurityService};

verus! {

/// The passphrase of the application's default token service.
pub const DEFAULT_ENCRYPTION_KEY: &'static str = "default_key_32_bytes_long_enough";
/// How long the default token service keeps a token, in hours.
pub const DEFAULT_MAX_TOKEN_AGE_HOURS: i64 = 24;

/// The commands that the security feature offers to the user interface.
pub open spec fn security_command_names() -> Seq<Seq<char>> {
    seq![
        "get_system_diagnostic_info"@,
        "validate_security_configuration"@,
        "test_r2_connection_secure"@,
        "get_environment_info"@,
        "log_security_event"@,
        "log_security_event_with_severity"@,
        "get_recent_security_events"@,
        "generate_security_audit_log"@,
        "get_r2_diagnostic_info"@,
        "perform_security_initialization_check"@,
    ]
}

/// The security feature's entry points.
pub struct SecurityFeature;

impl SecurityFeature {
    /// The application's default token service: the default passphrase,
    /// tokens kept for a day, audit logging on, and no token stored.
    pub fn create_manager() -> (r: SecurityManager)
        ensures
            r.config_view().encryption_key@ == DEFAULT_ENCRYPTION_KEY@,
            r.config_view().max_token_age_hours == DEFAULT_MAX_TOKEN_AGE_HOURS,
            r.config_view().enable_audit_logging,
            r.key() == padded_key(DEFAULT_ENCRYPTION_KEY@),
            r.tokens().len() == 0,
    {
        SecurityService::with_config(
            SecurityConfig {
                encryption_key: String::from_str(DEFAULT_ENCRYPTION_KEY),
                max_token_age_hours: DEFAULT_MAX_TOKEN_AGE_HOURS,
                enable_audit_logging: true,
            },
        )
    }

    /// The names of the commands that the security feature offers.
    pub fn get_tauri_commands() -> (r: Vec<&'static str>)
        ensures
            r@.len() == security_command_names().len(),
            forall|i: int| 0 <= i < r@.len() ==> #[trigger] r@[i]@ == security_command_names()[i],
    {
        let r = vec![
            "get_system_diagnostic_info",
            "validate_security_configuration",
            "test_r2_connection_secure",
            "get_environment_info",
            "log_security_event",
            "log_security_event_with_severity",
            "get_recent_security_events",
            "generate_security_audit_log",
            "get_r2_diagnostic_info",
            "perform_security_initialization_check",
        ];
        r
    }

    /// The health check of the security feature, given the outcome of
    /// checking the security configuration: its failure is passed on, and a
    /// configuration found invalid is a security error naming the check's message.
    pub fn health_check(validation: AppResult<ValidationResult>) -> (r: AppResult<()>)
        ensures
            match validation {
                Err(e) => r matches Err(x) && error_view(x) == error_view(e),
                Ok(v) => if v.is_valid {
                    r is Ok
                } else {
                    app_result_view(r) == Err::<(), (AppErrorKind, Seq<char>)>(
                        (AppErrorKind::Security, "セキュリティ健全性チェックに失敗しました: "@ + v.message@),
                    )
                },
            },
    {
        match validation {
            Err(e) => Err(e),
            Ok(v) => {
                if v.is_valid {
                    Ok(())
                } else {
                    let mut m = String::from_str("セキュリティ健全性チェックに失敗しました: ");
                    m.append(v.message.as_str());
                    Err(AppError::Security(m))
                }
            },
        }
    }

    /// The message a command reports when the service fails:
    /// `{heading}: {error}`.
    pub fn command_failure(heading: &str, e: &SecurityError) -> (r: String)
        ensures
            r@ == heading@ + ": "@ + (match e {
                SecurityError::EncryptionError(m) => "暗号化エラー: "@ + m@,
                SecurityError::DecryptionError(m) => "復号化エラー: "@ + m@,
            }),
    {
        let mut r = String::from_str(heading);
        r.append(": ");
        r.append(e.to_display_string().as_str());
        r
    }
}

/// A request to encrypt and store a token.
#[derive(Debug)]
pub struct EncryptTokenRequest {
    pub token_id: String,
    pub token: String,
}

/// The encrypted token.
#[derive(Debug)]
pub struct EncryptTokenResponse {
    pub encrypted_token: String,
}

/// A request to decrypt a token.
#[derive(Debug)]
pub struct DecryptTokenRequest {
    pub token_id: String,
    pub encrypted_token: String,
}

/// The decrypted token.
#[derive(Debug)]
pub struct DecryptTokenResponse {
    pub decrypted_token: String,
}

/// A request to encrypt several tokens, as (id, token) pairs.
#[derive(Debug)]
pub struct EncryptMultipleTokensRequest {
    pub tokens: Vec<(String, String)>,
}

/// The encrypted tokens, as (id, encrypted token) pairs.
#[derive(Debug)]
pub struct EncryptMultipleTokensResponse {
    pub encrypted_tokens: Vec<(String, String)>,
}

/// A request to check an API token.
#[derive(Debug)]
pub struct VerifyApiRequestRequest {
    pub token: String,
}

/// Whether the API token is valid.
#[derive(Debug)]
pub struct VerifyApiRequestResponse {
    pub is_valid: bool,
}

} // verus!
