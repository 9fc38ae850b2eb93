//! The security audit of the migration: kinds of security events, audit
//! entries, and a buffer of entries that raises an alert when events of a
//! kind pass their threshold within an hour.
use vstd::prelude::*;
use vstd::string::*;
use crate::app_error::{severity_rank, ErrorSeverity};
use crate::clock::{jst_stamp, jst_stamp_text, random_uuid_text, unix_time_now};
use crate::migrations::errors::severity_tag;
use crate::migrations::error_handler::{bumped, counted, distinct_keys};
use crate::migrations::logging::{id_part, push_id_part};
use crate::text::{byte_prefix, text_byte_prefix};
use crate::migrations::errors::{MetadataValue, MetadataView, MigrationError};
use crate::migrations::logging::{
    bounded_push, context_put, context_view, copy_context, copy_opt, level_of_severity, opt_view, put_context, LogEntryView, LogLevel,
    StructuredLogEntry, StructuredLogger,
};
use crate::text::{i64_to_decimal, int_decimal, nat_decimal, u64_to_decimal};

verus! {

/// A kind of security event.
#[derive(Debug, Clone, Copy, PartialEq, Eq, Structural)]
pub enum SecurityEventType {
    AuthenticationFailure,
    AuthorizationFailure,
    UnauthorizedAccess,
    DataIntegrityViolation,
    PrivilegeEscalation,
    ConfigurationTampering,
    AbnormalFileAccess,
    SecurityPolicyViolation,
    AuditLogTampering,
    SystemIntrusion,
}

impl SecurityEventType {
    pub open spec fn severity_spec(&self) -> ErrorSeverity {
        match self {
            SecurityEventType::AuthenticationFailure => ErrorSeverity::Medium,
            SecurityEventType::AuthorizationFailure => ErrorSeverity::High,
            SecurityEventType::UnauthorizedAccess => ErrorSeverity::Critical,
            SecurityEventType::DataIntegrityViolation => ErrorSeverity::Critical,
            SecurityEventType::PrivilegeEscalation => ErrorSeverity::Critical,
            SecurityEventType::ConfigurationTampering => ErrorSeverity::Critical,
            SecurityEventType::AbnormalFileAccess => ErrorSeverity::High,
            SecurityEventType::SecurityPolicyViolation => ErrorSeverity::High,
            SecurityEventType::AuditLogTampering => ErrorSeverity::Critical,
            SecurityEventType::SystemIntrusion => ErrorSeverity::Critical,
        }
    }

    /// How serious events of this kind are.
    pub fn severity(&self) -> (r: ErrorSeverity)
        ensures
            r == self.severity_spec(),
    {
        match self {
            SecurityEventType::AuthenticationFailure => ErrorSeverity::Medium,
            SecurityEventType::AuthorizationFailure => ErrorSeverity::High,
            SecurityEventType::UnauthorizedAccess => ErrorSeverity::Critical,
            SecurityEventType::DataIntegrityViolation => ErrorSeverity::Critical,
            SecurityEventType::PrivilegeEscalation => ErrorSeverity::Critical,
            SecurityEventType::ConfigurationTampering => ErrorSeverity::Critical,
            SecurityEventType::AbnormalFileAccess => ErrorSeverity::High,
            SecurityEventType::SecurityPolicyViolation => ErrorSeverity::High,
            SecurityEventType::AuditLogTampering => ErrorSeverity::Critical,
            SecurityEventType::SystemIntrusion => ErrorSeverity::Critical,
        }
    }

    pub open spec fn description_spec(&self) -> Seq<char> {
        match self {
            SecurityEventType::AuthenticationFailure => "認証に失敗しました"@,
            SecurityEventType::AuthorizationFailure => "認可に失敗しました"@,
            SecurityEventType::UnauthorizedAccess => "不正なアクセスが試行されました"@,
            SecurityEventType::DataIntegrityViolation => "データの整合性に問題が検出されました"@,
            SecurityEventType::PrivilegeEscalation => "権限昇格が試行されました"@,
            SecurityEventType::ConfigurationTampering => "設定の改ざんが検出されました"@,
            SecurityEventType::AbnormalFileAccess => "異常なファイルアクセスが検出されました"@,
            SecurityEventType::SecurityPolicyViolation => "セキュリティポリシーに違反しました"@,
            SecurityEventType::AuditLogTampering => "監査ログの改ざんが試行されました"@,
            SecurityEventType::SystemIntrusion => "システムへの侵入が検出されました"@,
        }
    }

    /// What an event of this kind means.
    pub fn description(&self) -> (r: &'static str)
        ensures
            r@ == self.description_spec(),
    {
        match self {
            SecurityEventType::AuthenticationFailure => "認証に失敗しました",
            SecurityEventType::AuthorizationFailure => "認可に失敗しました",
            SecurityEventType::UnauthorizedAccess => "不正なアクセスが試行されました",
            SecurityEventType::DataIntegrityViolation => "データの整合性に問題が検出されました",
            SecurityEventType::PrivilegeEscalation => "権限昇格が試行されました",
            SecurityEventType::ConfigurationTampering => "設定の改ざんが検出されました",
            SecurityEventType::AbnormalFileAccess => "異常なファイルアクセスが検出されました",
            SecurityEventType::SecurityPolicyViolation => "セキュリティポリシーに違反しました",
            SecurityEventType::AuditLogTampering => "監査ログの改ざんが試行されました",
            SecurityEventType::SystemIntrusion => "システムへの侵入が検出されました",
        }
    }

    pub open spec fn event_code_spec(&self) -> Seq<char> {
        match self {
            SecurityEventType::AuthenticationFailure => "SEC_AUTH_FAIL"@,
            SecurityEventType::AuthorizationFailure => "SEC_AUTHZ_FAIL"@,
            SecurityEventType::UnauthorizedAccess => "SEC_UNAUTH_ACCESS"@,
            SecurityEventType::DataIntegrityViolation => "SEC_DATA_INTEGRITY"@,
            SecurityEventType::PrivilegeEscalation => "SEC_PRIV_ESC"@,
            SecurityEventType::ConfigurationTampering => "SEC_CONFIG_TAMPER"@,
            SecurityEventType::AbnormalFileAccess => "SEC_ABNORMAL_FILE"@,
            SecurityEventType::SecurityPolicyViolation => "SEC_POLICY_VIOLATION"@,
            SecurityEventType::AuditLogTampering => "SEC_AUDIT_TAMPER"@,
            SecurityEventType::SystemIntrusion => "SEC_INTRUSION"@,
        }
    }

    /// The code of this kind of event.
    pub fn event_code(&self) -> (r: &'static str)
        ensures
            r@ == self.event_code_spec(),
    {
        match self {
            SecurityEventType::AuthenticationFailure => "SEC_AUTH_FAIL",
            SecurityEventType::AuthorizationFailure => "SEC_AUTHZ_FAIL",
            SecurityEventType::UnauthorizedAccess => "SEC_UNAUTH_ACCESS",
            SecurityEventType::DataIntegrityViolation => "SEC_DATA_INTEGRITY",
            SecurityEventType::PrivilegeEscalation => "SEC_PRIV_ESC",
            SecurityEventType::ConfigurationTampering => "SEC_CONFIG_TAMPER",
            SecurityEventType::AbnormalFileAccess => "SEC_ABNORMAL_FILE",
            SecurityEventType::SecurityPolicyViolation => "SEC_POLICY_VIOLATION",
            SecurityEventType::AuditLogTampering => "SEC_AUDIT_TAMPER",
            SecurityEventType::SystemIntrusion => "SEC_INTRUSION",
        }
    }

    pub open spec fn name_spec(&self) -> Seq<char> {
        match self {
            SecurityEventType::AuthenticationFailure => "AuthenticationFailure"@,
            SecurityEventType::AuthorizationFailure => "AuthorizationFailure"@,
            SecurityEventType::UnauthorizedAccess => "UnauthorizedAccess"@,
            SecurityEventType::DataIntegrityViolation => "DataIntegrityViolation"@,
            SecurityEventType::PrivilegeEscalation => "PrivilegeEscalation"@,
            SecurityEventType::ConfigurationTampering => "ConfigurationTampering"@,
            SecurityEventType::AbnormalFileAccess => "AbnormalFileAccess"@,
            SecurityEventType::SecurityPolicyViolation => "SecurityPolicyViolation"@,
            SecurityEventType::AuditLogTampering => "AuditLogTampering"@,
            SecurityEventType::SystemIntrusion => "SystemIntrusion"@,
        }
    }

    /// The name of this kind, as its debug rendering shows it.
    pub fn name(&self) -> (r: &'static str)
        ensures
            r@ == self.name_spec(),
    {
        match self {
            SecurityEventType::AuthenticationFailure => "AuthenticationFailure",
            SecurityEventType::AuthorizationFailure => "AuthorizationFailure",
            SecurityEventType::UnauthorizedAccess => "UnauthorizedAccess",
            SecurityEventType::DataIntegrityViolation => "DataIntegrityViolation",
            SecurityEventType::PrivilegeEscalation => "PrivilegeEscalation",
            SecurityEventType::ConfigurationTampering => "ConfigurationTampering",
            SecurityEventType::AbnormalFileAccess => "AbnormalFileAccess",
            SecurityEventType::SecurityPolicyViolation => "SecurityPolicyViolation",
            SecurityEventType::AuditLogTampering => "AuditLogTampering",
            SecurityEventType::SystemIntrusion => "SystemIntrusion",
        }
    }

    pub open spec fn index_spec(&self) -> int {
        match self {
            SecurityEventType::AuthenticationFailure => 0,
            SecurityEventType::AuthorizationFailure => 1,
            SecurityEventType::UnauthorizedAccess => 2,
            SecurityEventType::DataIntegrityViolation => 3,
            SecurityEventType::PrivilegeEscalation => 4,
            SecurityEventType::ConfigurationTampering => 5,
            SecurityEventType::AbnormalFileAccess => 6,
            SecurityEventType::SecurityPolicyViolation => 7,
            SecurityEventType::AuditLogTampering => 8,
            SecurityEventType::SystemIntrusion => 9,
        }
    }

    fn index(&self) -> (r: usize)
        ensures
            r as int == self.index_spec(),
            r < 10,
    {
        match self {
            SecurityEventType::AuthenticationFailure => 0,
            SecurityEventType::AuthorizationFailure => 1,
            SecurityEventType::UnauthorizedAccess => 2,
            SecurityEventType::DataIntegrityViolation => 3,
            SecurityEventType::PrivilegeEscalation => 4,
            SecurityEventType::ConfigurationTampering => 5,
            SecurityEventType::AbnormalFileAccess => 6,
            SecurityEventType::SecurityPolicyViolation => 7,
            SecurityEventType::AuditLogTampering => 8,
            SecurityEventType::SystemIntrusion => 9,
        }
    }
}

/// The number of events of a kind within an hour beyond which an alert is raised, by default.
pub open spec fn default_threshold(t: SecurityEventType) -> usize {
    match t {
        SecurityEventType::AuthenticationFailure => 5,
        SecurityEventType::AuthorizationFailure => 3,
        SecurityEventType::AbnormalFileAccess => 10,
        SecurityEventType::SecurityPolicyViolation => 3,
        _ => 1,
    }
}

/// Where the investigation of an entry stands.
#[derive(Debug, Clone, Copy, PartialEq, Eq, Structural)]
pub enum InvestigationStatus {
    Pending,
    InProgress,
    FalsePositive,
    ConfirmedThreat,
    Resolved,
    Ignored,
}

impl InvestigationStatus {
    pub open spec fn name_spec(&self) -> Seq<char> {
        match self {
            InvestigationStatus::Pending => "Pending"@,
            InvestigationStatus::InProgress => "InProgress"@,
            InvestigationStatus::FalsePositive => "FalsePositive"@,
            InvestigationStatus::ConfirmedThreat => "ConfirmedThreat"@,
            InvestigationStatus::Resolved => "Resolved"@,
            InvestigationStatus::Ignored => "Ignored"@,
        }
    }

    /// The name of the status, as its debug rendering shows it.
    pub fn name(&self) -> (r: &'static str)
        ensures
            r@ == self.name_spec(),
    {
        match self {
            InvestigationStatus::Pending => "Pending",
            InvestigationStatus::InProgress => "InProgress",
            InvestigationStatus::FalsePositive => "FalsePositive",
            InvestigationStatus::ConfirmedThreat => "ConfirmedThreat",
            InvestigationStatus::Resolved => "Resolved",
            InvestigationStatus::Ignored => "Ignored",
        }
    }
}

/// An entry of the security audit. The time is in seconds since the Unix
/// epoch.
#[derive(Debug)]
pub struct SecurityAuditEntry {
    pub audit_id: String,
    pub timestamp: i64,
    pub event_type: SecurityEventType,
    pub severity: ErrorSeverity,
    pub description: String,
    pub user_id: Option<i64>,
    pub migration_log_id: Option<i64>,
    pub affected_resource: Option<String>,
    pub source_ip: Option<String>,
    pub user_agent: Option<String>,
    pub session_id: Option<String>,
    pub context: Vec<(String, MetadataValue)>,
    pub related_error: Option<String>,
    pub response_action: Option<String>,
    pub investigation_status: InvestigationStatus,
}

/// The content of an audit entry.
pub struct AuditEntryView {
    pub audit_id: Seq<char>,
    pub timestamp: i64,
    pub event_type: SecurityEventType,
    pub severity: ErrorSeverity,
    pub description: Seq<char>,
    pub user_id: Option<i64>,
    pub migration_log_id: Option<i64>,
    pub affected_resource: Option<Seq<char>>,
    pub source_ip: Option<Seq<char>>,
    pub user_agent: Option<Seq<char>>,
    pub session_id: Option<Seq<char>>,
    pub context: Seq<(Seq<char>, MetadataView)>,
    pub related_error: Option<Seq<char>>,
    pub response_action: Option<Seq<char>>,
    pub investigation_status: InvestigationStatus,
}

/// The content of a new entry of kind `t`, but for its id and time.
pub open spec fn fresh_audit(
    audit_id: Seq<char>,
    timestamp: i64,
    t: SecurityEventType,
    description: Seq<char>,
    user_id: Option<i64>,
    migration_log_id: Option<i64>,
) -> AuditEntryView {
    AuditEntryView {
        audit_id,
        timestamp,
        event_type: t,
        severity: t.severity_spec(),
        description,
        user_id,
        migration_log_id,
        affected_resource: None,
        source_ip: None,
        user_agent: None,
        session_id: None,
        context: Seq::empty(),
        related_error: None,
        response_action: None,
        investigation_status: InvestigationStatus::Pending,
    }
}

impl SecurityAuditEntry {
    pub open spec fn view(&self) -> AuditEntryView {
        AuditEntryView {
            audit_id: self.audit_id@,
            timestamp: self.timestamp,
            event_type: self.event_type,
            severity: self.severity,
            description: self.description@,
            user_id: self.user_id,
            migration_log_id: self.migration_log_id,
            affected_resource: opt_view(self.affected_resource),
            source_ip: opt_view(self.source_ip),
            user_agent: opt_view(self.user_agent),
            session_id: opt_view(self.session_id),
            context: context_view(self.context@),
            related_error: opt_view(self.related_error),
            response_action: opt_view(self.response_action),
            investigation_status: self.investigation_status,
        }
    }

    /// A pending entry of kind `event_type`, with the kind's severity, a
    /// random id and the current time.
    pub fn new(event_type: SecurityEventType, description: &str, user_id: Option<i64>, migration_log_id: Option<i64>) -> (r: Self)
        ensures
            r.view() == fresh_audit(r.audit_id@, r.timestamp, event_type, description@, user_id, migration_log_id),
            r.audit_id@.len() == 36,
    {
        let r = SecurityAuditEntry {
            audit_id: random_uuid_text(),
            timestamp: unix_time_now(),
            severity: event_type.severity(),
            event_type,
            description: String::from_str(description),
            user_id,
            migration_log_id,
            affected_resource: None,
            source_ip: None,
            user_agent: None,
            session_id: None,
            context: Vec::new(),
            related_error: None,
            response_action: None,
            investigation_status: InvestigationStatus::Pending,
        };
        assert(context_view(r.context@) =~= Seq::<(Seq<char>, MetadataView)>::empty());
        r
    }

    pub fn with_affected_resource(self, resource: &str) -> (r: Self)
        ensures
            r.view() == (AuditEntryView { affected_resource: Some(resource@), ..self.view() }),
    {
        let mut e = self;
        e.affected_resource = Some(String::from_str(resource));
        e
    }

    pub fn with_source_ip(self, ip: &str) -> (r: Self)
        ensures
            r.view() == (AuditEntryView { source_ip: Some(ip@), ..self.view() }),
    {
        let mut e = self;
        e.source_ip = Some(String::from_str(ip));
        e
    }

    pub fn with_session_id(self, session_id: &str) -> (r: Self)
        ensures
            r.view() == (AuditEntryView { session_id: Some(session_id@), ..self.view() }),
    {
        let mut e = self;
        e.session_id = Some(String::from_str(session_id));
        e
    }

    /// Sets a context value, replacing an earlier value of the same key.
    pub fn with_context(self, key: &str, value: MetadataValue) -> (r: Self)
        ensures
            r.view() == (AuditEntryView { context: context_put(self.view().context, key@, value.view()), ..self.view() }),
    {
        let mut e = self;
        put_context(&mut e.context, String::from_str(key), value);
        e
    }

    pub fn with_related_error(self, error: &str) -> (r: Self)
        ensures
            r.view() == (AuditEntryView { related_error: Some(error@), ..self.view() }),
    {
        let mut e = self;
        e.related_error = Some(String::from_str(error));
        e
    }

    pub fn with_response_action(self, action: &str) -> (r: Self)
        ensures
            r.view() == (AuditEntryView { response_action: Some(action@), ..self.view() }),
    {
        let mut e = self;
        e.response_action = Some(String::from_str(action));
        e
    }

    pub fn update_investigation_status(&mut self, status: InvestigationStatus)
        ensures
            final(self).view() == (AuditEntryView { investigation_status: status, ..old(self).view() }),
    {
        self.investigation_status = status;
    }

    /// A copy of the entry.
    pub fn duplicate(&self) -> (r: Self)
        ensures
            r.view() == self.view(),
    {
        SecurityAuditEntry {
            audit_id: self.audit_id.clone(),
            timestamp: self.timestamp,
            event_type: self.event_type,
            severity: self.severity,
            description: self.description.clone(),
            user_id: self.user_id,
            migration_log_id: self.migration_log_id,
            affected_resource: copy_opt(&self.affected_resource),
            source_ip: copy_opt(&self.source_ip),
            user_agent: copy_opt(&self.user_agent),
            session_id: copy_opt(&self.session_id),
            context: copy_context(&self.context),
            related_error: copy_opt(&self.related_error),
            response_action: copy_opt(&self.response_action),
            investigation_status: self.investigation_status,
        }
    }
}

/// ` {label}{text}` for a text that is there, nothing otherwise.
pub open spec fn text_part(label: Seq<char>, t: Option<Seq<char>>) -> Seq<char> {
    match t {
        Some(x) => " "@ + label + x,
        None => Seq::empty(),
    }
}

/// An audit entry rendered for people, with `id_prefix` (the first eight
/// bytes of its id) standing for its id.
pub open spec fn audit_human_readable(e: AuditEntryView, id_prefix: Seq<char>) -> Seq<char> {
    "["@ + jst_stamp(e.timestamp) + "] [SECURITY] ["@ + severity_tag(e.severity) + "] ["@ + e.event_type.event_code_spec()
        + "] [ID:"@ + id_prefix + "]"@ + id_part("USER:"@, e.user_id) + id_part("MIG:"@, e.migration_log_id) + " "@
        + e.description + text_part("Resource: "@, e.affected_resource) + text_part("IP: "@, e.source_ip)
}

fn push_text_part(out: &mut String, label: &str, t: &Option<String>)
    ensures
        final(out)@ == old(out)@ + text_part(label@, opt_view(*t)),
{
    match t {
        Some(x) => {
            out.append(" ");
            out.append(label);
            out.append(x.as_str());
        },
        None => {
            assert(old(out)@ + text_part(label@, opt_view(*t)) =~= old(out)@);
        },
    }
}

impl SecurityAuditEntry {
    /// The entry rendered for people; the id is shortened to its first eight
    /// bytes, which must end on a character boundary.
    pub fn to_human_readable(&self) -> (r: String)
        requires
            byte_prefix(self.audit_id@, 8) is Some,
        ensures
            r@ == audit_human_readable(self.view(), byte_prefix(self.audit_id@, 8)->Some_0),
    {
        let severity: &str = match self.severity {
            ErrorSeverity::Low => "LOW",
            ErrorSeverity::Medium => "MEDIUM",
            ErrorSeverity::High => "HIGH",
            ErrorSeverity::Critical => "CRITICAL",
        };
        let short_id = match text_byte_prefix(self.audit_id.as_str(), 8) {
            Some(p) => p,
            None => String::new(),
        };
        let mut out = String::from_str("[");
        out.append(jst_stamp_text(self.timestamp).as_str());
        out.append("] [SECURITY] [");
        out.append(severity);
        out.append("] [");
        out.append(self.event_type.event_code());
        out.append("] [ID:");
        out.append(short_id.as_str());
        out.append("]");
        push_id_part(&mut out, "USER:", self.user_id);
        push_id_part(&mut out, "MIG:", self.migration_log_id);
        out.append(" ");
        out.append(self.description.as_str());
        push_text_part(&mut out, "Resource: ", &self.affected_resource);
        push_text_part(&mut out, "IP: ", &self.source_ip);
        assert(out@ =~= audit_human_readable(self.view(), byte_prefix(self.audit_id@, 8)->Some_0));
        out
    }
}

/// The kind and description of the audit entry of a migration error.
pub open spec fn classified(e: MigrationError) -> (SecurityEventType, Seq<char>) {
    match e {
        MigrationError::Permission { message, user_id, required_permission, resource } => (
            SecurityEventType::AuthorizationFailure,
            "移行処理で権限エラーが発生: ユーザー"@ + int_decimal(user_id as int) + " が "@ + resource@ + " に対する "@
                + required_permission@ + " 権限を持っていません - "@ + message@,
        ),
        MigrationError::IntegrityValidation { message, validation_type, expected, actual } => (
            SecurityEventType::DataIntegrityViolation,
            "データ整合性違反が検出: "@ + validation_type@ + " - 期待値: "@ + expected@ + ", 実際値: "@ + actual@ + " - "@
                + message@,
        ),
        MigrationError::Configuration { message, config_key, .. } => (
            SecurityEventType::ConfigurationTampering,
            "設定エラーが検出: "@ + config_key@ + " の設定に問題があります - "@ + message@,
        ),
        MigrationError::FileMigration { message, old_path, new_path, user_id, .. } => (
            SecurityEventType::AbnormalFileAccess,
            "ファイル移行で異常なアクセス: ユーザー"@ + int_decimal(user_id as int) + " が "@ + old_path@ + " から "@ + new_path@
                + " への移行で問題が発生 - "@ + message@,
        ),
        _ => (SecurityEventType::SecurityPolicyViolation, "移行処理でセキュリティポリシー違反の可能性: "@ + e.display_view()),
    }
}

/// The kind and description of the audit entry of a migration error.
pub fn classify_migration_error(error: &MigrationError) -> (r: (SecurityEventType, String))
    ensures
        r.0 == classified(*error).0,
        r.1@ == classified(*error).1,
{
    match error {
        MigrationError::Permission { message, user_id, required_permission, resource } => {
            let mut d = String::from_str("移行処理で権限エラーが発生: ユーザー");
            d.append(i64_to_decimal(*user_id).as_str());
            d.append(" が ");
            d.append(resource.as_str());
            d.append(" に対する ");
            d.append(required_permission.as_str());
            d.append(" 権限を持っていません - ");
            d.append(message.as_str());
            (SecurityEventType::AuthorizationFailure, d)
        },
        MigrationError::IntegrityValidation { message, validation_type, expected, actual } => {
            let mut d = String::from_str("データ整合性違反が検出: ");
            d.append(validation_type.as_str());
            d.append(" - 期待値: ");
            d.append(expected.as_str());
            d.append(", 実際値: ");
            d.append(actual.as_str());
            d.append(" - ");
            d.append(message.as_str());
            (SecurityEventType::DataIntegrityViolation, d)
        },
        MigrationError::Configuration { message, config_key, .. } => {
            let mut d = String::from_str("設定エラーが検出: ");
            d.append(config_key.as_str());
            d.append(" の設定に問題があります - ");
            d.append(message.as_str());
            (SecurityEventType::ConfigurationTampering, d)
        },
        MigrationError::FileMigration { message, old_path, new_path, user_id, .. } => {
            let mut d = String::from_str("ファイル移行で異常なアクセス: ユーザー");
            d.append(i64_to_decimal(*user_id).as_str());
            d.append(" が ");
            d.append(old_path.as_str());
            d.append(" から ");
            d.append(new_path.as_str());
            d.append(" への移行で問題が発生 - ");
            d.append(message.as_str());
            (SecurityEventType::AbnormalFileAccess, d)
        },
        _ => {
            let mut d = String::from_str("移行処理でセキュリティポリシー違反の可能性: ");
            d.append(error.to_display_string().as_str());
            (SecurityEventType::SecurityPolicyViolation, d)
        },
    }
}

/// Audit entries seen through their views.
pub open spec fn audits_view(s: Seq<SecurityAuditEntry>) -> Seq<AuditEntryView> {
    s.map_values(|e: SecurityAuditEntry| e.view())
}

/// How many entries of kind `t` are newer than `cutoff` (strictly).
pub open spec fn recent_count(s: Seq<AuditEntryView>, t: SecurityEventType, cutoff: int) -> nat
    decreases s.len(),
{
    if s.len() == 0 {
        0
    } else {
        recent_count(s.drop_last(), t, cutoff) + if s.last().event_type == t && s.last().timestamp > cutoff { 1nat } else { 0nat }
    }
}

/// The description of an alert about events of kind `t`.
pub open spec fn alert_text(t: SecurityEventType, count: nat, threshold: nat) -> Seq<char> {
    "セキュリティアラート: "@ + t.description_spec() + " イベントが閾値を超過しました (発生回数: "@ + nat_decimal(count)
        + ", 閾値: "@ + nat_decimal(threshold) + ")"@
}

/// An alert entry about events of kind `t`, as the logger adds it.
pub open spec fn is_alert(a: AuditEntryView, t: SecurityEventType, count: nat, threshold: nat) -> bool {
    &&& a.event_type == SecurityEventType::SecurityPolicyViolation
    &&& a.severity == ErrorSeverity::High
    &&& a.description == alert_text(t, count, threshold)
    &&& a.user_id is None
    &&& a.migration_log_id is None
    &&& a.response_action == Some("immediate_investigation_required"@)
    &&& a.investigation_status == InvestigationStatus::Pending
}

/// The buffer `after` is `before` once entry `e` was recorded at `now`: the
/// entry is added (the oldest entry leaving when over `capacity`), and an
/// alert follows when the entries of its kind within the last hour exceed
/// `threshold`.
pub open spec fn logged_at(
    before: Seq<AuditEntryView>,
    e: AuditEntryView,
    capacity: nat,
    threshold: nat,
    now: int,
    after: Seq<AuditEntryView>,
) -> bool {
    let b1 = crate::migrations::logging::bounded_push(before, e, capacity);
    let c = recent_count(b1, e.event_type, now - ALERT_WINDOW_SECONDS);
    if c > threshold {
        after.len() == b1.len() + 1 && after.drop_last() == b1 && is_alert(after.last(), e.event_type, c, threshold)
    } else {
        after == b1
    }
}

/// The structured log record of an audit entry, written at time `t`.
pub open spec fn audit_record(t: i64, e: AuditEntryView, session: Option<Seq<char>>) -> LogEntryView {
    let c1 = context_put(Seq::empty(), "audit_id"@, MetadataView::Text(e.audit_id));
    let c2 = context_put(c1, "event_type"@, MetadataView::Text(e.event_type.name_spec()));
    LogEntryView {
        timestamp: t,
        level: level_of_severity(e.severity),
        category: "security_audit"@,
        message: e.description,
        migration_log_id: e.migration_log_id,
        user_id: None,
        context: context_put(c2, "investigation_status"@, MetadataView::Text(e.investigation_status.name_spec())),
        error_code: Some(e.event_type.event_code_spec()),
        stack_trace: None,
        session_id: session,
        process_id: None,
    }
}

/// The audit entry of a migration error, with id `id` and time `ts`.
pub open spec fn migration_audit(id: Seq<char>, ts: i64, e: MigrationError, user_id: Option<i64>, migration_log_id: Option<i64>) -> AuditEntryView {
    let base = fresh_audit(id, ts, classified(e).0, classified(e).1, user_id, migration_log_id);
    let c1 = context_put(Seq::empty(), "error_code"@, MetadataView::Text(e.error_code_spec()));
    AuditEntryView {
        related_error: Some(e.display_view()),
        context: context_put(c1, "error_category"@, MetadataView::Text(e.category_spec())),
        ..base
    }
}

/// The window in which events count towards an alert, in seconds.
pub const ALERT_WINDOW_SECONDS: i64 = 3600;

/// How many entries the audit buffer keeps when nothing else is asked.
pub const DEFAULT_AUDIT_BUFFER_SIZE: usize = 10000;

/// Counters of the buffered audit entries.
#[derive(Debug)]
pub struct SecurityAuditStatistics {
    pub total_events: usize,
    pub low_severity_count: usize,
    pub medium_severity_count: usize,
    pub high_severity_count: usize,
    pub critical_severity_count: usize,
    /// Entries per kind, in the order the kinds first appear.
    pub event_type_counts: Vec<(SecurityEventType, usize)>,
    /// Entries per investigation status, in the order the statuses first appear.
    pub investigation_status_counts: Vec<(InvestigationStatus, usize)>,
}

/// The entries counted per kind, in the order the kinds first appear.
pub open spec fn type_tally(s: Seq<AuditEntryView>) -> Seq<(SecurityEventType, usize)>
    decreases s.len(),
{
    if s.len() == 0 {
        Seq::empty()
    } else {
        counted(type_tally(s.drop_last()), s.last().event_type)
    }
}

/// The entries counted per investigation status, in the order the statuses
/// first appear.
pub open spec fn status_tally(s: Seq<AuditEntryView>) -> Seq<(InvestigationStatus, usize)>
    decreases s.len(),
{
    if s.len() == 0 {
        Seq::empty()
    } else {
        counted(status_tally(s.drop_last()), s.last().investigation_status)
    }
}

/// How many entries have severity `v`.
pub open spec fn severity_count(s: Seq<AuditEntryView>, v: ErrorSeverity) -> nat
    decreases s.len(),
{
    if s.len() == 0 {
        0
    } else {
        severity_count(s.drop_last(), v) + if s.last().severity == v { 1nat } else { 0nat }
    }
}

/// The security audit: a buffer of at most `max_buffer_size` entries (alerts
/// are added beyond it), and an alert threshold per kind of event.
pub struct SecurityAuditLogger {
    audit_buffer: Vec<SecurityAuditEntry>,
    max_buffer_size: usize,
    alert_thresholds: Vec<usize>,
}

impl SecurityAuditLogger {
    #[verifier::type_invariant]
    spec fn well_formed(self) -> bool {
        self.alert_thresholds@.len() == 10
    }

    pub closed spec fn buffer(&self) -> Seq<AuditEntryView> {
        audits_view(self.audit_buffer@)
    }

    pub closed spec fn capacity(&self) -> usize {
        self.max_buffer_size
    }

    /// The alert threshold of a kind of event.
    pub closed spec fn threshold(&self, t: SecurityEventType) -> usize {
        self.alert_thresholds@[t.index_spec()]
    }

    /// An empty audit with the default thresholds, keeping `max_buffer_size`
    /// entries (ten thousand when not given).
    pub fn new(max_buffer_size: Option<usize>) -> (r: Self)
        ensures
            r.buffer().len() == 0,
            r.capacity() == match max_buffer_size {
                Some(n) => n,
                None => DEFAULT_AUDIT_BUFFER_SIZE,
            },
            forall|t: SecurityEventType| #[trigger] r.threshold(t) == default_threshold(t),
    {
        let thresholds: Vec<usize> = vec![5, 3, 1, 1, 1, 1, 10, 3, 1, 1];
        let r = SecurityAuditLogger {
            audit_buffer: Vec::new(),
            max_buffer_size: match max_buffer_size {
                Some(n) => n,
                None => DEFAULT_AUDIT_BUFFER_SIZE,
            },
            alert_thresholds: thresholds,
        };
        assert(audits_view(r.audit_buffer@) =~= Seq::<AuditEntryView>::empty());
        r
    }

    /// Sets the alert threshold of a kind of event.
    pub fn set_alert_threshold(&mut self, event_type: SecurityEventType, threshold: usize)
        ensures
            final(self).threshold(event_type) == threshold,
            forall|t: SecurityEventType| t != event_type ==> #[trigger] final(self).threshold(t) == old(self).threshold(t),
            final(self).buffer() == old(self).buffer(),
            final(self).capacity() == old(self).capacity(),
    {
        proof { use_type_invariant(&*self); }
        let i = event_type.index();
        let mut th: Vec<usize> = Vec::new();
        let mut k: usize = 0;
        while k < 10
            invariant
                k <= 10,
                self.alert_thresholds@.len() == 10,
                th@.len() == k,
                i < 10,
                forall|j: int| 0 <= j < k ==> #[trigger] th@[j] == if j == i { threshold } else { self.alert_thresholds@[j] },
            decreases 10 - k,
        {
            if k == i {
                th.push(threshold);
            } else {
                th.push(self.alert_thresholds[k]);
            }
            k = k + 1;
        }
        self.alert_thresholds = th;
    }

    fn count_recent(&self, event_type: SecurityEventType, cutoff: i64) -> (r: usize)
        ensures
            r == recent_count(self.buffer(), event_type, cutoff as int),
    {
        let ghost all = self.buffer();
        let mut count: usize = 0;
        let mut i: usize = 0;
        while i < self.audit_buffer.len()
            invariant
                i <= self.audit_buffer@.len(),
                all == audits_view(self.audit_buffer@),
                count == recent_count(all.subrange(0, i as int), event_type, cutoff as int),
                count <= i,
            decreases self.audit_buffer@.len() - i,
        {
            let ghost sub = all.subrange(0, i as int + 1);
            assert(sub.drop_last() =~= all.subrange(0, i as int));
            assert(sub.last() == self.audit_buffer@[i as int].view());
            if self.audit_buffer[i].event_type == event_type && self.audit_buffer[i].timestamp > cutoff {
                count = count + 1;
            }
            i = i + 1;
        }
        assert(all.subrange(0, i as int) =~= all);
        count
    }

    /// Records an entry at `now` (seconds since the Unix epoch): it goes to
    /// the structured log and to the buffer, whose oldest entry leaves when it
    /// is over its capacity; then, when the entries of the same kind within
    /// the last hour exceed the kind's threshold, an alert entry is added
    /// (beyond the capacity). Writing the entry to the text log is left to
    /// the caller.
    pub fn log_security_event_at(&mut self, logger: &mut StructuredLogger, entry: SecurityAuditEntry, now: i64)
        requires
            now >= i64::MIN + ALERT_WINDOW_SECONDS,
        ensures
            final(self).capacity() == old(self).capacity(),
            forall|t: SecurityEventType| #[trigger] final(self).threshold(t) == old(self).threshold(t),
            logged_at(
                old(self).buffer(),
                entry.view(),
                old(self).capacity() as nat,
                old(self).threshold(entry.event_type) as nat,
                now as int,
                final(self).buffer(),
            ),
            final(logger).capacity() == old(logger).capacity(),
            final(logger).session() == old(logger).session(),
            exists|t: i64| #[trigger] bounded_push(
                old(logger).buffer(),
                audit_record(t, entry.view(), old(logger).session()),
                old(logger).capacity() as nat,
            ) == final(logger).buffer(),
    {
        proof { use_type_invariant(&*self); }
        let record = StructuredLogEntry::new(
            LogLevel::from(entry.severity),
            "security_audit",
            entry.description.as_str(),
            entry.migration_log_id,
        )
            .with_error_code(entry.event_type.event_code())
            .with_context("audit_id", MetadataValue::Text(entry.audit_id.clone()))
            .with_context("event_type", MetadataValue::Text(String::from_str(entry.event_type.name())))
            .with_context("investigation_status", MetadataValue::Text(String::from_str(entry.investigation_status.name())));
        let ghost t = record.timestamp;
        assert(record.view() == (LogEntryView { session_id: None, ..audit_record(t, entry.view(), None) }));
        logger.log(record);
        assert(bounded_push(old(logger).buffer(), audit_record(t, entry.view(), old(logger).session()),
            old(logger).capacity() as nat) == logger.buffer());
        let event_type = entry.event_type;
        let ghost ev = entry.view();
        let mut buffer: Vec<SecurityAuditEntry> = Vec::new();
        std::mem::swap(&mut buffer, &mut self.audit_buffer);
        let ghost before = buffer@;
        buffer.push(entry);
        assert(audits_view(buffer@) =~= audits_view(before).push(ev));
        if buffer.len() > self.max_buffer_size {
            let ghost pushed = buffer@;
            let _ = buffer.remove(0);
            assert(audits_view(buffer@) =~= audits_view(pushed).drop_first());
        }
        self.audit_buffer = buffer;
        let threshold = self.alert_thresholds[event_type.index()];
        let count = self.count_recent(event_type, now - ALERT_WINDOW_SECONDS);
        if count > threshold {
            let mut text = String::from_str("セキュリティアラート: ");
            text.append(event_type.description());
            text.append(" イベントが閾値を超過しました (発生回数: ");
            text.append(u64_to_decimal(count as u64).as_str());
            text.append(", 閾値: ");
            text.append(u64_to_decimal(threshold as u64).as_str());
            text.append(")");
            let alert = SecurityAuditEntry::new(SecurityEventType::SecurityPolicyViolation, text.as_str(), None, None)
                .with_context("alert_type", MetadataValue::Text(String::from_str("threshold_exceeded")))
                .with_context("event_type", MetadataValue::Text(String::from_str(event_type.name())))
                .with_context("count", MetadataValue::Unsigned(count as u64))
                .with_context("threshold", MetadataValue::Unsigned(threshold as u64))
                .with_response_action("immediate_investigation_required");
            let ghost av = alert.view();
            let mut buffer2: Vec<SecurityAuditEntry> = Vec::new();
            std::mem::swap(&mut buffer2, &mut self.audit_buffer);
            let ghost b1 = buffer2@;
            buffer2.push(alert);
            assert(audits_view(buffer2@) =~= audits_view(b1).push(av));
            assert(audits_view(buffer2@).drop_last() =~= audits_view(b1));
            self.audit_buffer = buffer2;
        }
    }

    /// Records an entry now; see [`SecurityAuditLogger::log_security_event_at`].
    pub fn log_security_event(&mut self, logger: &mut StructuredLogger, entry: SecurityAuditEntry)
        ensures
            final(self).capacity() == old(self).capacity(),
            forall|t: SecurityEventType| #[trigger] final(self).threshold(t) == old(self).threshold(t),
            exists|now: int| #[trigger] logged_at(
                old(self).buffer(),
                entry.view(),
                old(self).capacity() as nat,
                old(self).threshold(entry.event_type) as nat,
                now,
                final(self).buffer(),
            ),
            final(logger).capacity() == old(logger).capacity(),
            final(logger).session() == old(logger).session(),
            exists|t: i64| #[trigger] bounded_push(
                old(logger).buffer(),
                audit_record(t, entry.view(), old(logger).session()),
                old(logger).capacity() as nat,
            ) == final(logger).buffer(),
    {
        let now = unix_time_now();
        let at = if now < i64::MIN + ALERT_WINDOW_SECONDS { i64::MIN + ALERT_WINDOW_SECONDS } else { now };
        let ghost ev = entry.view();
        let ghost th = self.threshold(entry.event_type) as nat;
        self.log_security_event_at(logger, entry, at);
        assert(logged_at(old(self).buffer(), ev, old(self).capacity() as nat, th, at as int, self.buffer()));
    }

    /// Records the audit entry of a migration error: classified by its kind,
    /// with the displayed error as related error and its code and category
    /// as context.
    pub fn log_migration_security_event(
        &mut self,
        logger: &mut StructuredLogger,
        error: &MigrationError,
        migration_log_id: Option<i64>,
        user_id: Option<i64>,
    )
        ensures
            final(self).capacity() == old(self).capacity(),
            forall|t: SecurityEventType| #[trigger] final(self).threshold(t) == old(self).threshold(t),
            exists|id: Seq<char>, ts: i64, now: int| #[trigger] logged_at(
                old(self).buffer(),
                migration_audit(id, ts, *error, user_id, migration_log_id),
                old(self).capacity() as nat,
                old(self).threshold(classified(*error).0) as nat,
                now,
                final(self).buffer(),
            ),
            final(logger).capacity() == old(logger).capacity(),
            final(logger).session() == old(logger).session(),
            exists|id: Seq<char>, ts: i64, t: i64| #[trigger] bounded_push(
                old(logger).buffer(),
                audit_record(t, migration_audit(id, ts, *error, user_id, migration_log_id), old(logger).session()),
                old(logger).capacity() as nat,
            ) == final(logger).buffer(),
    {
        let (event_type, description) = classify_migration_error(error);
        let entry = SecurityAuditEntry::new(event_type, description.as_str(), user_id, migration_log_id)
            .with_related_error(error.to_display_string().as_str())
            .with_context("error_code", MetadataValue::Text(error.error_code()))
            .with_context("error_category", MetadataValue::Text(String::from_str(error.category())));
        let ghost id = entry.audit_id@;
        let ghost ts = entry.timestamp;
        assert(entry.view() == migration_audit(id, ts, *error, user_id, migration_log_id));
        self.log_security_event(logger, entry);
    }

    /// A copy of the buffered entries, oldest first.
    pub fn get_audit_logs(&self) -> (r: Vec<SecurityAuditEntry>)
        ensures
            audits_view(r@) == self.buffer(),
    {
        let r = self.filtered(Ghost(|e: AuditEntryView| true), FilterKind::All, ErrorSeverity::Low, SecurityEventType::AuthenticationFailure, 0);
        proof { lemma_filter_all(self.buffer()); }
        r
    }

    /// The buffered entries at `min_severity` or above, oldest first.
    pub fn get_audit_logs_by_severity(&self, min_severity: ErrorSeverity) -> (r: Vec<SecurityAuditEntry>)
        ensures
            audits_view(r@) == self.buffer().filter(|e: AuditEntryView| severity_rank(e.severity) >= severity_rank(min_severity)),
    {
        self.filtered(
            Ghost(|e: AuditEntryView| severity_rank(e.severity) >= severity_rank(min_severity)),
            FilterKind::Severity,
            min_severity,
            SecurityEventType::AuthenticationFailure,
            0,
        )
    }

    /// The buffered entries of a kind, oldest first.
    pub fn get_audit_logs_by_event_type(&self, event_type: SecurityEventType) -> (r: Vec<SecurityAuditEntry>)
        ensures
            audits_view(r@) == self.buffer().filter(|e: AuditEntryView| e.event_type == event_type),
    {
        self.filtered(Ghost(|e: AuditEntryView| e.event_type == event_type), FilterKind::EventType, ErrorSeverity::Low, event_type, 0)
    }

    /// The buffered entries of a migration run, oldest first.
    pub fn get_audit_logs_by_migration_id(&self, migration_log_id: i64) -> (r: Vec<SecurityAuditEntry>)
        ensures
            audits_view(r@) == self.buffer().filter(|e: AuditEntryView| e.migration_log_id == Some(migration_log_id)),
    {
        self.filtered(
            Ghost(|e: AuditEntryView| e.migration_log_id == Some(migration_log_id)),
            FilterKind::Migration,
            ErrorSeverity::Low,
            SecurityEventType::AuthenticationFailure,
            migration_log_id,
        )
    }

    fn filtered(
        &self,
        Ghost(keep): Ghost<spec_fn(AuditEntryView) -> bool>,
        kind: FilterKind,
        min_severity: ErrorSeverity,
        event_type: SecurityEventType,
        migration_log_id: i64,
    ) -> (r: Vec<SecurityAuditEntry>)
        requires
            forall|e: AuditEntryView| #[trigger] keep(e) == filter_holds(kind, min_severity, event_type, migration_log_id, e),
        ensures
            audits_view(r@) == self.buffer().filter(keep),
    {
        let mut r: Vec<SecurityAuditEntry> = Vec::new();
        let mut i: usize = 0;
        let min_rank = crate::app_error::severity_priority(min_severity);
        while i < self.audit_buffer.len()
            invariant
                i <= self.audit_buffer@.len(),
                min_rank as int == severity_rank(min_severity),
                forall|e: AuditEntryView| #[trigger] keep(e) == filter_holds(kind, min_severity, event_type, migration_log_id, e),
                audits_view(r@) == audits_view(self.audit_buffer@.subrange(0, i as int)).filter(keep),
            decreases self.audit_buffer@.len() - i,
        {
            let ghost sub = audits_view(self.audit_buffer@.subrange(0, i as int));
            let ghost x = self.audit_buffer@[i as int].view();
            assert(audits_view(self.audit_buffer@.subrange(0, i as int + 1)) =~= sub.push(x));
            proof { sub.lemma_filter_push(x, keep); }
            let e = &self.audit_buffer[i];
            let holds = match kind {
                FilterKind::All => true,
                FilterKind::Severity => crate::app_error::severity_priority(e.severity) >= min_rank,
                FilterKind::EventType => e.event_type == event_type,
                FilterKind::Migration => e.migration_log_id == Some(migration_log_id),
            };
            if holds {
                let ghost r0 = r@;
                r.push(e.duplicate());
                assert(audits_view(r@) =~= audits_view(r0).push(x));
            }
            i = i + 1;
        }
        assert(self.audit_buffer@.subrange(0, i as int) =~= self.audit_buffer@);
        r
    }

    /// Counts the buffered entries by severity, kind and investigation
    /// status; the total is the number of entries.
    pub fn get_audit_statistics(&self) -> (r: SecurityAuditStatistics)
        ensures
            r.low_severity_count == severity_count(self.buffer(), ErrorSeverity::Low),
            r.medium_severity_count == severity_count(self.buffer(), ErrorSeverity::Medium),
            r.high_severity_count == severity_count(self.buffer(), ErrorSeverity::High),
            r.critical_severity_count == severity_count(self.buffer(), ErrorSeverity::Critical),
            r.total_events == self.buffer().len(),
            r.event_type_counts@ == type_tally(self.buffer()),
            r.investigation_status_counts@ == status_tally(self.buffer()),
    {
        let ghost all = self.buffer();
        let mut low: usize = 0;
        let mut medium: usize = 0;
        let mut high: usize = 0;
        let mut critical: usize = 0;
        let mut types: Vec<(SecurityEventType, usize)> = Vec::new();
        let mut statuses: Vec<(InvestigationStatus, usize)> = Vec::new();
        let mut i: usize = 0;
        while i < self.audit_buffer.len()
            invariant
                i <= self.audit_buffer@.len(),
                all == audits_view(self.audit_buffer@),
                low == severity_count(all.subrange(0, i as int), ErrorSeverity::Low),
                medium == severity_count(all.subrange(0, i as int), ErrorSeverity::Medium),
                high == severity_count(all.subrange(0, i as int), ErrorSeverity::High),
                critical == severity_count(all.subrange(0, i as int), ErrorSeverity::Critical),
                low + medium + high + critical == i,
                distinct_keys(types@),
                distinct_keys(statuses@),
                types@ == type_tally(all.subrange(0, i as int)),
                statuses@ == status_tally(all.subrange(0, i as int)),
            decreases self.audit_buffer@.len() - i,
        {
            let ghost sub = all.subrange(0, i as int + 1);
            assert(sub.drop_last() =~= all.subrange(0, i as int));
            assert(sub.last() == self.audit_buffer@[i as int].view());
            match self.audit_buffer[i].severity {
                ErrorSeverity::Low => { low = low + 1; },
                ErrorSeverity::Medium => { medium = medium + 1; },
                ErrorSeverity::High => { high = high + 1; },
                ErrorSeverity::Critical => { critical = critical + 1; },
            }
            count_type(&mut types, self.audit_buffer[i].event_type);
            count_status(&mut statuses, self.audit_buffer[i].investigation_status);
            i = i + 1;
        }
        assert(all.subrange(0, i as int) =~= all);
        SecurityAuditStatistics {
            total_events: low + medium + high + critical,
            low_severity_count: low,
            medium_severity_count: medium,
            high_severity_count: high,
            critical_severity_count: critical,
            event_type_counts: types,
            investigation_status_counts: statuses,
        }
    }

    pub fn clear_audit_logs(&mut self)
        ensures
            final(self).buffer().len() == 0,
            final(self).capacity() == old(self).capacity(),
            forall|t: SecurityEventType| #[trigger] final(self).threshold(t) == old(self).threshold(t),
    {
        proof { use_type_invariant(&*self); }
        self.audit_buffer = Vec::new();
        assert(audits_view(self.audit_buffer@) =~= Seq::<AuditEntryView>::empty());
    }
}

/// Which entries a query of the audit keeps.
#[derive(Clone, Copy)]
enum FilterKind {
    All,
    Severity,
    EventType,
    Migration,
}

spec fn filter_holds(kind: FilterKind, min_severity: ErrorSeverity, event_type: SecurityEventType, migration_log_id: i64, e: AuditEntryView) -> bool {
    match kind {
        FilterKind::All => true,
        FilterKind::Severity => severity_rank(e.severity) >= severity_rank(min_severity),
        FilterKind::EventType => e.event_type == event_type,
        FilterKind::Migration => e.migration_log_id == Some(migration_log_id),
    }
}

/// Counts `t` once more among the counters: its counter grows by one, or
/// a counter of one is added after the others.
fn count_type(v: &mut Vec<(SecurityEventType, usize)>, t: SecurityEventType)
    requires
        distinct_keys(old(v)@),
    ensures
        distinct_keys(final(v)@),
        final(v)@ == counted(old(v)@, t),
{
    let ghost c = v@;
    let mut i: usize = 0;
    while i < v.len()
        invariant
            i <= v@.len(),
            c == v@,
            c == old(v)@,
            distinct_keys(c),
            forall|k: int| 0 <= k < i ==> #[trigger] v@[k].0 != t,
        decreases v@.len() - i,
    {
        if v[i].0 == t {
            let n = v[i].1;
            proof {
                let j = choose|j: int| 0 <= j < c.len() && #[trigger] c[j].0 == t;
                if j != i as int {
                    if j < i {
                        assert(v@[j].0 != t);
                    } else {
                        assert(c[i as int].0 != c[j].0);
                    }
                }
            }
            v.set(i, (t, if n < usize::MAX { n + 1 } else { n }));
            proof {
                assert(v@ =~= c.update(i as int, (t, bumped(n))));
                assert forall|a: int, b: int| 0 <= a < b < v@.len() implies #[trigger] v@[a].0 != #[trigger] v@[b].0 by {
                    assert(v@[a].0 == c[a].0);
                    assert(v@[b].0 == c[b].0);
                }
            }
            return;
        }
        i = i + 1;
    }
    v.push((t, 1));
    proof {
        assert(v@ =~= c.push((t, 1usize)));
        assert forall|a: int, b: int| 0 <= a < b < v@.len() implies #[trigger] v@[a].0 != #[trigger] v@[b].0 by {
            assert(v@[a].0 == c[a].0);
        }
    }
}

/// Counts `s` once more among the counters: its counter grows by one, or
/// a counter of one is added after the others.
fn count_status(v: &mut Vec<(InvestigationStatus, usize)>, s: InvestigationStatus)
    requires
        distinct_keys(old(v)@),
    ensures
        distinct_keys(final(v)@),
        final(v)@ == counted(old(v)@, s),
{
    let ghost c = v@;
    let mut i: usize = 0;
    while i < v.len()
        invariant
            i <= v@.len(),
            c == v@,
            c == old(v)@,
            distinct_keys(c),
            forall|k: int| 0 <= k < i ==> #[trigger] v@[k].0 != s,
        decreases v@.len() - i,
    {
        if v[i].0 == s {
            let n = v[i].1;
            proof {
                let j = choose|j: int| 0 <= j < c.len() && #[trigger] c[j].0 == s;
                if j != i as int {
                    if j < i {
                        assert(v@[j].0 != s);
                    } else {
                        assert(c[i as int].0 != c[j].0);
                    }
                }
            }
            v.set(i, (s, if n < usize::MAX { n + 1 } else { n }));
            proof {
                assert(v@ =~= c.update(i as int, (s, bumped(n))));
                assert forall|a: int, b: int| 0 <= a < b < v@.len() implies #[trigger] v@[a].0 != #[trigger] v@[b].0 by {
                    assert(v@[a].0 == c[a].0);
                    assert(v@[b].0 == c[b].0);
                }
            }
            return;
        }
        i = i + 1;
    }
    v.push((s, 1));
    proof {
        assert(v@ =~= c.push((s, 1usize)));
        assert forall|a: int, b: int| 0 <= a < b < v@.len() implies #[trigger] v@[a].0 != #[trigger] v@[b].0 by {
            assert(v@[a].0 == c[a].0);
        }
    }
}

proof fn lemma_filter_all(s: Seq<AuditEntryView>)
    ensures
        s.filter(|e: AuditEntryView| true) == s,
    decreases s.len(),
{
    if s.len() > 0 {
        lemma_filter_all(s.drop_last());
        s.drop_last().lemma_filter_push(s.last(), |e: AuditEntryView| true);
        assert(s.drop_last().push(s.last()) =~= s);
    } else {
        reveal_with_fuel(Seq::<AuditEntryView>::filter, 1);
    }
}

/// The critical kinds of event (unauthorised access, data-integrity violation,
/// privilege escalation, configuration or audit-log tampering, intrusion) are
/// exactly those for which, by default, a second event within the window
/// already raises an alert. Among migration errors, the audit entry is critical
/// exactly for integrity and configuration errors, so the entry of an integrity
/// error passes the severity filter at every level.
pub proof fn lemma_critical_events(
    t: SecurityEventType,
    e: MigrationError,
    id: Seq<char>,
    ts: i64,
    user_id: Option<i64>,
    migration_log_id: Option<i64>,
    min_severity: ErrorSeverity,
)
    ensures
        t.severity_spec() == ErrorSeverity::Critical <==> default_threshold(t) == 1,
        classified(e).0.severity_spec() == ErrorSeverity::Critical <==> (e is IntegrityValidation || e is Configuration),
        e is IntegrityValidation ==> migration_audit(id, ts, e, user_id, migration_log_id).severity == ErrorSeverity::Critical
            && severity_rank(migration_audit(id, ts, e, user_id, migration_log_id).severity) >= severity_rank(min_severity),
{
}

/// The counts of the statistics add up to the number of entries.
pub proof fn lemma_severity_counts_sum(s: Seq<AuditEntryView>)
    ensures
        severity_count(s, ErrorSeverity::Low) + severity_count(s, ErrorSeverity::Medium) + severity_count(s, ErrorSeverity::High)
            + severity_count(s, ErrorSeverity::Critical) == s.len(),
    decreases s.len(),
{
    if s.len() > 0 {
        lemma_severity_counts_sum(s.drop_last());
    }
}

} // verus!
