//! Structured logging of the migration: log levels, log entries with their
//! context, and a bounded buffer of entries with filters and statistics.
use vstd::prelude::*;
use vstd::string::*;
use crate::app_error::{severity_rank, ErrorSeverity};
use crate::clock::{jst_stamp, jst_stamp_text, unix_time_now};
use crate::text::{i64_to_decimal, int_decimal};
use crate::migrations::errors::{entry_view, MetadataValue, MetadataView, MigrationError};
use crate::migrations::error_handler::{count_key, counted, counts_view, distinct_keys};

verus! {

/// The level of a log entry.
#[derive(Debug, Clone, Copy, PartialEq, Eq, Structural)]
pub enum LogLevel {
    Debug,
    Info,
    Warn,
    Error,
    Critical,
}

/// The rank of a level: Debug < Info < Warn < Error < Critical.
pub open spec fn level_rank(l: LogLevel) -> int {
    match l {
        LogLevel::Debug => 0,
        LogLevel::Info => 1,
        LogLevel::Warn => 2,
        LogLevel::Error => 3,
        LogLevel::Critical => 4,
    }
}

/// The level at which errors of a severity are logged.
pub open spec fn level_of_severity(s: ErrorSeverity) -> LogLevel {
    match s {
        ErrorSeverity::Low => LogLevel::Info,
        ErrorSeverity::Medium => LogLevel::Warn,
        ErrorSeverity::High => LogLevel::Error,
        ErrorSeverity::Critical => LogLevel::Critical,
    }
}

impl From<ErrorSeverity> for LogLevel {
    fn from(severity: ErrorSeverity) -> (r: Self) {
        match severity {
            ErrorSeverity::Low => LogLevel::Info,
            ErrorSeverity::Medium => LogLevel::Warn,
            ErrorSeverity::High => LogLevel::Error,
            ErrorSeverity::Critical => LogLevel::Critical,
        }
    }
}

impl vstd::std_specs::convert::FromSpecImpl<ErrorSeverity> for LogLevel {
    open spec fn obeys_from_spec() -> bool {
        true
    }

    open spec fn from_spec(severity: ErrorSeverity) -> LogLevel {
        level_of_severity(severity)
    }
}

/// Severities map to levels in order: a more serious error is never logged
/// at a lower level.
pub proof fn lemma_level_of_severity_monotone(a: ErrorSeverity, b: ErrorSeverity)
    ensures
        severity_rank(a) <= severity_rank(b) ==> level_rank(level_of_severity(a)) <= level_rank(level_of_severity(b)),
{
}

/// The rank of a level, computed.
pub fn level_priority(level: LogLevel) -> (r: u8)
    ensures
        r as int == level_rank(level),
{
    match level {
        LogLevel::Debug => 0,
        LogLevel::Info => 1,
        LogLevel::Warn => 2,
        LogLevel::Error => 3,
        LogLevel::Critical => 4,
    }
}

/// The view of an optional text.
pub open spec fn opt_view(o: Option<String>) -> Option<Seq<char>> {
    match o {
        Some(s) => Some(s@),
        None => None,
    }
}

pub(crate) fn copy_opt(o: &Option<String>) -> (r: Option<String>)
    ensures
        opt_view(r) == opt_view(*o),
{
    match o {
        Some(s) => Some(s.clone()),
        None => None,
    }
}

/// Context entries seen through their views.
pub open spec fn context_view(c: Seq<(String, MetadataValue)>) -> Seq<(Seq<char>, MetadataView)> {
    c.map_values(|e: (String, MetadataValue)| entry_view(e))
}

/// The first index from `i` on of an entry with key `k`, or the length.
pub open spec fn key_index(c: Seq<(Seq<char>, MetadataView)>, k: Seq<char>, i: int) -> int
    decreases c.len() - i,
{
    if i >= c.len() {
        c.len() as int
    } else if c[i].0 == k {
        i
    } else {
        key_index(c, k, i + 1)
    }
}

/// The context after setting `k` to `v`: the first entry with that key is
/// replaced, or the entry is added at the end.
pub open spec fn context_put(c: Seq<(Seq<char>, MetadataView)>, k: Seq<char>, v: MetadataView) -> Seq<(Seq<char>, MetadataView)> {
    if key_index(c, k, 0) < c.len() {
        c.update(key_index(c, k, 0), (k, v))
    } else {
        c.push((k, v))
    }
}

proof fn lemma_key_index_bounds(c: Seq<(Seq<char>, MetadataView)>, k: Seq<char>, i: int)
    requires
        0 <= i <= c.len(),
    ensures
        i <= key_index(c, k, i) <= c.len(),
    decreases c.len() - i,
{
    if i < c.len() && c[i].0 != k {
        lemma_key_index_bounds(c, k, i + 1);
    }
}

pub(crate) fn put_context(c: &mut Vec<(String, MetadataValue)>, key: String, value: MetadataValue)
    ensures
        context_view(final(c)@) == context_put(context_view(old(c)@), key@, value.view()),
{
    let ghost cv = context_view(c@);
    let mut i: usize = 0;
    while i < c.len()
        invariant
            i <= c@.len(),
            cv == context_view(c@),
            cv == context_view(old(c)@),
            key_index(cv, key@, 0) == key_index(cv, key@, i as int),
        decreases c@.len() - i,
    {
        assert(cv[i as int] == entry_view(c@[i as int]));
        if c[i].0 == key {
            proof { lemma_key_index_bounds(cv, key@, 0); }
            let ghost vv = value.view();
            c.set(i, (key, value));
            assert(context_view(c@) =~= cv.update(i as int, (key@, vv)));
            return;
        }
        i = i + 1;
    }
    let ghost vv = value.view();
    let ghost k = key@;
    c.push((key, value));
    assert(context_view(c@) =~= cv.push((k, vv)));
}

pub(crate) fn copy_context(c: &Vec<(String, MetadataValue)>) -> (r: Vec<(String, MetadataValue)>)
    ensures
        context_view(r@) == context_view(c@),
{
    let mut r: Vec<(String, MetadataValue)> = Vec::new();
    let mut i: usize = 0;
    while i < c.len()
        invariant
            i <= c@.len(),
            context_view(r@) == context_view(c@.subrange(0, i as int)),
        decreases c@.len() - i,
    {
        let ghost r0 = r@;
        let e = (c[i].0.clone(), c[i].1.duplicate());
        r.push(e);
        assert(context_view(r@) =~= context_view(r0).push(entry_view(c@[i as int])));
        assert(context_view(c@.subrange(0, i as int + 1)) =~= context_view(c@.subrange(0, i as int)).push(entry_view(c@[i as int])));
        i = i + 1;
    }
    assert(c@.subrange(0, i as int) =~= c@);
    r
}

/// The JSON text of a context: an object of its keys and values, as
/// serde_json writes it.
pub uninterp spec fn context_json(context: Seq<(Seq<char>, MetadataView)>) -> Seq<char>;

/// serde_json: `to_string` of the object holding the context's values (texts
/// as strings, numbers, null, lists of texts as arrays, flags as booleans).
/// Claimed: the text depends on the context alone.
#[verifier::external_body]
fn context_json_text(context: &Vec<(String, MetadataValue)>) -> (r: String)
    ensures
        r@ == context_json(context_view(context@)),
{
    let mut map = serde_json::Map::new();
    for (key, value) in context {
        let v = match value {
            MetadataValue::Text(t) => serde_json::Value::from(t.clone()),
            MetadataValue::Signed(i) => serde_json::Value::from(*i),
            MetadataValue::Unsigned(u) => serde_json::Value::from(*u),
            MetadataValue::Null => serde_json::Value::Null,
            MetadataValue::TextList(l) => serde_json::Value::from(l.clone()),
            MetadataValue::Flag(b) => serde_json::Value::from(*b),
        };
        map.insert(key.clone(), v);
    }
    serde_json::to_string(&map).unwrap_or_default()
}

/// A log entry. The time is in seconds since the Unix epoch; context values
/// are kept in the order in which their keys were first set.
#[derive(Debug)]
pub struct StructuredLogEntry {
    pub timestamp: i64,
    pub level: LogLevel,
    pub category: String,
    pub message: String,
    pub migration_log_id: Option<i64>,
    pub user_id: Option<i64>,
    pub context: Vec<(String, MetadataValue)>,
    pub error_code: Option<String>,
    pub stack_trace: Option<String>,
    pub session_id: Option<String>,
    pub process_id: Option<String>,
}

/// The content of a log entry.
pub struct LogEntryView {
    pub timestamp: i64,
    pub level: LogLevel,
    pub category: Seq<char>,
    pub message: Seq<char>,
    pub migration_log_id: Option<i64>,
    pub user_id: Option<i64>,
    pub context: Seq<(Seq<char>, MetadataView)>,
    pub error_code: Option<Seq<char>>,
    pub stack_trace: Option<Seq<char>>,
    pub session_id: Option<Seq<char>>,
    pub process_id: Option<Seq<char>>,
}

impl StructuredLogEntry {
    pub open spec fn view(&self) -> LogEntryView {
        LogEntryView {
            timestamp: self.timestamp,
            level: self.level,
            category: self.category@,
            message: self.message@,
            migration_log_id: self.migration_log_id,
            user_id: self.user_id,
            context: context_view(self.context@),
            error_code: opt_view(self.error_code),
            stack_trace: opt_view(self.stack_trace),
            session_id: opt_view(self.session_id),
            process_id: opt_view(self.process_id),
        }
    }

    /// An entry with no context or identifiers, stamped with `timestamp`.
    pub fn at(timestamp: i64, level: LogLevel, category: &str, message: &str, migration_log_id: Option<i64>) -> (r: Self)
        ensures
            r.view() == (LogEntryView {
                timestamp,
                level,
                category: category@,
                message: message@,
                migration_log_id,
                user_id: None,
                context: Seq::empty(),
                error_code: None,
                stack_trace: None,
                session_id: None,
                process_id: None,
            }),
    {
        let r = StructuredLogEntry {
            timestamp,
            level,
            category: String::from_str(category),
            message: String::from_str(message),
            migration_log_id,
            user_id: None,
            context: Vec::new(),
            error_code: None,
            stack_trace: None,
            session_id: None,
            process_id: None,
        };
        assert(context_view(r.context@) =~= Seq::<(Seq<char>, MetadataView)>::empty());
        r
    }

    /// An entry with no context or identifiers, stamped with the current time.
    pub fn new(level: LogLevel, category: &str, message: &str, migration_log_id: Option<i64>) -> (r: Self)
        ensures
            r.view() == (LogEntryView { timestamp: r.timestamp, ..Self::blank(level, category@, message@, migration_log_id) }),
    {
        Self::at(unix_time_now(), level, category, message, migration_log_id)
    }

    /// The content of an entry made by [`StructuredLogEntry::new`], but for its time.
    pub open spec fn blank(level: LogLevel, category: Seq<char>, message: Seq<char>, migration_log_id: Option<i64>) -> LogEntryView {
        LogEntryView {
            timestamp: 0,
            level,
            category,
            message,
            migration_log_id,
            user_id: None,
            context: Seq::empty(),
            error_code: None,
            stack_trace: None,
            session_id: None,
            process_id: None,
        }
    }

    /// Sets a context value, replacing an earlier value of the same key.
    pub fn with_context(self, key: &str, value: MetadataValue) -> (r: Self)
        ensures
            r.view() == (LogEntryView { context: context_put(self.view().context, key@, value.view()), ..self.view() }),
    {
        let mut e = self;
        put_context(&mut e.context, String::from_str(key), value);
        e
    }

    pub fn with_user_id(self, user_id: i64) -> (r: Self)
        ensures
            r.view() == (LogEntryView { user_id: Some(user_id), ..self.view() }),
    {
        let mut e = self;
        e.user_id = Some(user_id);
        e
    }

    pub fn with_error_code(self, error_code: &str) -> (r: Self)
        ensures
            r.view() == (LogEntryView { error_code: Some(error_code@), ..self.view() }),
    {
        let mut e = self;
        e.error_code = Some(String::from_str(error_code));
        e
    }

    pub fn with_stack_trace(self, stack_trace: &str) -> (r: Self)
        ensures
            r.view() == (LogEntryView { stack_trace: Some(stack_trace@), ..self.view() }),
    {
        let mut e = self;
        e.stack_trace = Some(String::from_str(stack_trace));
        e
    }

    pub fn with_session_id(self, session_id: &str) -> (r: Self)
        ensures
            r.view() == (LogEntryView { session_id: Some(session_id@), ..self.view() }),
    {
        let mut e = self;
        e.session_id = Some(String::from_str(session_id));
        e
    }

    pub fn with_process_id(self, process_id: &str) -> (r: Self)
        ensures
            r.view() == (LogEntryView { process_id: Some(process_id@), ..self.view() }),
    {
        let mut e = self;
        e.process_id = Some(String::from_str(process_id));
        e
    }

    /// A copy of the entry.
    pub fn duplicate(&self) -> (r: Self)
        ensures
            r.view() == self.view(),
    {
        StructuredLogEntry {
            timestamp: self.timestamp,
            level: self.level,
            category: self.category.clone(),
            message: self.message.clone(),
            migration_log_id: self.migration_log_id,
            user_id: self.user_id,
            context: copy_context(&self.context),
            error_code: copy_opt(&self.error_code),
            stack_trace: copy_opt(&self.stack_trace),
            session_id: copy_opt(&self.session_id),
            process_id: copy_opt(&self.process_id),
        }
    }
}

/// The tag of a level in a rendered entry.
pub open spec fn level_tag(l: LogLevel) -> Seq<char> {
    match l {
        LogLevel::Debug => "DEBUG"@,
        LogLevel::Info => "INFO"@,
        LogLevel::Warn => "WARN"@,
        LogLevel::Error => "ERROR"@,
        LogLevel::Critical => "CRITICAL"@,
    }
}

/// ` [{label}{id}]` for an id that is there, nothing otherwise.
pub open spec fn id_part(label: Seq<char>, id: Option<i64>) -> Seq<char> {
    match id {
        Some(n) => " ["@ + label + int_decimal(n as int) + "]"@,
        None => Seq::empty(),
    }
}

/// An entry rendered for people: its Tokyo time, level, category, run, user
/// and code in brackets, its message, and its context as JSON when it has one.
pub open spec fn human_readable(e: LogEntryView) -> Seq<char> {
    "["@ + jst_stamp(e.timestamp) + "] ["@ + level_tag(e.level) + "] ["@ + e.category + "]"@
        + id_part("MIG:"@, e.migration_log_id) + id_part("USER:"@, e.user_id)
        + (match e.error_code {
        Some(c) => " ["@ + c + "]"@,
        None => Seq::empty(),
    }) + " "@ + e.message + (if e.context.len() > 0 {
        " Context: "@ + context_json(e.context)
    } else {
        Seq::empty()
    })
}

/// Appends ` [{label}{id}]` when the id is there.
pub(crate) fn push_id_part(out: &mut String, label: &str, id: Option<i64>)
    ensures
        final(out)@ == old(out)@ + id_part(label@, id),
{
    match id {
        Some(n) => {
            out.append(" [");
            out.append(label);
            out.append(i64_to_decimal(n).as_str());
            out.append("]");
        },
        None => {
            assert(old(out)@ + id_part(label@, id) =~= old(out)@);
        },
    }
}

impl StructuredLogEntry {
    /// The entry rendered for people.
    pub fn to_human_readable(&self) -> (r: String)
        ensures
            r@ == human_readable(self.view()),
    {
        let level: &str = match self.level {
            LogLevel::Debug => "DEBUG",
            LogLevel::Info => "INFO",
            LogLevel::Warn => "WARN",
            LogLevel::Error => "ERROR",
            LogLevel::Critical => "CRITICAL",
        };
        let mut out = String::from_str("[");
        out.append(jst_stamp_text(self.timestamp).as_str());
        out.append("] [");
        out.append(level);
        out.append("] [");
        out.append(self.category.as_str());
        out.append("]");
        push_id_part(&mut out, "MIG:", self.migration_log_id);
        push_id_part(&mut out, "USER:", self.user_id);
        let ghost before_code = out@;
        match &self.error_code {
            Some(c) => {
                out.append(" [");
                out.append(c.as_str());
                out.append("]");
            },
            None => {},
        }
        out.append(" ");
        out.append(self.message.as_str());
        let ghost before_context = out@;
        if self.context.len() > 0 {
            out.append(" Context: ");
            out.append(context_json_text(&self.context).as_str());
        }
        proof {
            let v = self.view();
            assert(v.context.len() == self.context@.len());
            let code_part: Seq<char> = match v.error_code {
                Some(c) => " ["@ + c + "]"@,
                None => Seq::empty(),
            };
            let ctx_part: Seq<char> = if v.context.len() > 0 { " Context: "@ + context_json(v.context) } else { Seq::empty() };
            assert(out@ =~= before_code + code_part + " "@ + v.message + ctx_part);
        }
        out
    }
}

/// The content of a fresh entry once buffered: its time, level, category,
/// message, run, user and context, and the session it was given.
pub open spec fn entry_shape(
    t: i64,
    level: LogLevel,
    category: Seq<char>,
    message: Seq<char>,
    migration_log_id: Option<i64>,
    user_id: Option<i64>,
    context: Seq<(Seq<char>, MetadataView)>,
    session: Option<Seq<char>>,
) -> LogEntryView {
    LogEntryView {
        timestamp: t,
        level,
        category,
        message,
        migration_log_id,
        user_id,
        context,
        error_code: None,
        stack_trace: None,
        session_id: session,
        process_id: None,
    }
}

/// The level of the end-of-run entry: a warning when some file failed.
pub open spec fn completion_level(error_count: usize) -> LogLevel {
    if error_count > 0 { LogLevel::Warn } else { LogLevel::Info }
}

/// The level of the entry of one moved file.
pub open spec fn file_level(success: bool) -> LogLevel {
    if success { LogLevel::Debug } else { LogLevel::Error }
}

/// The message of the entry of one moved file.
pub open spec fn file_message(success: bool) -> Seq<char> {
    if success { "ファイル移行成功"@ } else { "ファイル移行失敗"@ }
}

/// A text argument that may be absent, seen through its view.
pub open spec fn opt_str_view(o: Option<&str>) -> Option<Seq<char>> {
    match o {
        Some(s) => Some(s@),
        None => None,
    }
}

/// The context after setting each entry of `ms`, in order, on `c`.
pub open spec fn puts_all(c: Seq<(Seq<char>, MetadataView)>, ms: Seq<(Seq<char>, MetadataView)>) -> Seq<(Seq<char>, MetadataView)>
    decreases ms.len(),
{
    if ms.len() == 0 {
        c
    } else {
        context_put(puts_all(c, ms.drop_last()), ms.last().0, ms.last().1)
    }
}

/// The context of the entry that logs an error: its metadata, then the
/// caller's context under `additional_context`.
pub open spec fn error_context(e: MigrationError, context: Option<Seq<char>>) -> Seq<(Seq<char>, MetadataView)> {
    let base = puts_all(Seq::empty(), e.metadata_spec());
    match context {
        Some(c) => context_put(base, "additional_context"@, MetadataView::Text(c)),
        None => base,
    }
}

/// The entry that logs an error at time `t`, with `trace` as its stack trace.
pub open spec fn error_entry(
    t: i64,
    e: MigrationError,
    migration_log_id: Option<i64>,
    context: Option<Seq<char>>,
    trace: Seq<char>,
    session: Option<Seq<char>>,
) -> LogEntryView {
    LogEntryView {
        timestamp: t,
        level: level_of_severity(e.severity_spec()),
        category: e.category_spec(),
        message: e.display_view(),
        migration_log_id,
        user_id: None,
        context: error_context(e, context),
        error_code: Some(e.error_code_spec()),
        stack_trace: Some(trace),
        session_id: session,
        process_id: None,
    }
}

/// The second entry of an error that calls for a security audit, at time `t`.
pub open spec fn audit_request_entry(t: i64, e: MigrationError, migration_log_id: Option<i64>, session: Option<Seq<char>>) -> LogEntryView {
    LogEntryView {
        timestamp: t,
        level: LogLevel::Critical,
        category: "security_audit"@,
        message: "セキュリティ監査要求: "@ + e.display_view(),
        migration_log_id,
        user_id: None,
        context: context_put(Seq::empty(), "audit_reason"@, MetadataView::Text("migration_security_violation"@)),
        error_code: Some("SECURITY_"@ + e.error_code_spec()),
        stack_trace: None,
        session_id: session,
        process_id: None,
    }
}

/// The buffer after logging an error: its entry, then, when the error calls
/// for a security audit, the audit request.
pub open spec fn error_logged(
    before: Seq<LogEntryView>,
    capacity: nat,
    session: Option<Seq<char>>,
    e: MigrationError,
    migration_log_id: Option<i64>,
    context: Option<Seq<char>>,
    t1: i64,
    t2: i64,
    trace: Seq<char>,
) -> Seq<LogEntryView> {
    let b1 = bounded_push(before, error_entry(t1, e, migration_log_id, context, trace, session), capacity);
    if e.requires_security_audit_spec() {
        bounded_push(b1, audit_request_entry(t2, e, migration_log_id, session), capacity)
    } else {
        b1
    }
}

/// The context of the entry that opens a run.
pub open spec fn start_context(total_items: usize, batch_size: usize, dry_run: bool) -> Seq<(Seq<char>, MetadataView)> {
    let c1 = context_put(Seq::empty(), "total_items"@, MetadataView::Unsigned(total_items as int));
    let c2 = context_put(c1, "batch_size"@, MetadataView::Unsigned(batch_size as int));
    let c3 = context_put(c2, "dry_run"@, MetadataView::Flag(dry_run));
    context_put(c3, "event_type"@, MetadataView::Text("migration_start"@))
}

/// The context of the entry that closes a run.
pub open spec fn completion_context(success_count: usize, error_count: usize, duration_ms: u64) -> Seq<(Seq<char>, MetadataView)> {
    let c1 = context_put(Seq::empty(), "success_count"@, MetadataView::Unsigned(success_count as int));
    let c2 = context_put(c1, "error_count"@, MetadataView::Unsigned(error_count as int));
    let c3 = context_put(c2, "duration_ms"@, MetadataView::Unsigned(duration_ms as int));
    context_put(c3, "event_type"@, MetadataView::Text("migration_complete"@))
}

/// The context of the entry of one moved file; the duration is set when known.
pub open spec fn file_context(old_path: Seq<char>, new_path: Seq<char>, file_size: u64, success: bool, duration_ms: Option<u64>)
    -> Seq<(Seq<char>, MetadataView)> {
    let c1 = context_put(Seq::empty(), "old_path"@, MetadataView::Text(old_path));
    let c2 = context_put(c1, "new_path"@, MetadataView::Text(new_path));
    let c3 = context_put(c2, "file_size"@, MetadataView::Unsigned(file_size as int));
    let c4 = context_put(c3, "success"@, MetadataView::Flag(success));
    match duration_ms {
        Some(d) => context_put(c4, "duration_ms"@, MetadataView::Unsigned(d as int)),
        None => c4,
    }
}

/// The buffer after adding an entry: the oldest entry leaves once the buffer
/// would hold more than `max` entries.
pub open spec fn bounded_push<A>(s: Seq<A>, x: A, max: nat) -> Seq<A> {
    if s.len() + 1 > max {
        s.push(x).drop_first()
    } else {
        s.push(x)
    }
}

/// Entries seen through their views.
pub open spec fn entries_view(s: Seq<StructuredLogEntry>) -> Seq<LogEntryView> {
    s.map_values(|e: StructuredLogEntry| e.view())
}

/// Counters of the buffered entries.
#[derive(Debug)]
pub struct LogStatistics {
    pub total_entries: usize,
    pub debug_count: usize,
    pub info_count: usize,
    pub warn_count: usize,
    pub error_count: usize,
    pub critical_count: usize,
    /// Entries per category, in the order the categories first appear.
    pub category_counts: Vec<(String, usize)>,
}

/// How many entries have level `l`.
pub open spec fn level_count(s: Seq<LogEntryView>, l: LogLevel) -> nat
    decreases s.len(),
{
    if s.len() == 0 {
        0
    } else {
        level_count(s.drop_last(), l) + if s.last().level == l { 1nat } else { 0nat }
    }
}

proof fn lemma_level_counts_sum(s: Seq<LogEntryView>)
    ensures
        level_count(s, LogLevel::Debug) + level_count(s, LogLevel::Info) + level_count(s, LogLevel::Warn)
            + level_count(s, LogLevel::Error) + level_count(s, LogLevel::Critical) == s.len(),
    decreases s.len(),
{
    if s.len() > 0 {
        lemma_level_counts_sum(s.drop_last());
    }
}

/// The parameters of the record of one moved file.
#[derive(Debug)]
pub struct FileMigrationLogParams {
    pub migration_log_id: i64,
    pub old_path: String,
    pub new_path: String,
    pub user_id: i64,
    pub file_size: u64,
    pub success: bool,
    pub duration_ms: Option<u64>,
}

/// How many entries the buffer keeps when nothing else is asked.
pub const DEFAULT_LOG_BUFFER_SIZE: usize = 1000;

/// A buffer of log entries that keeps at most `max_buffer_size` of the latest
/// ones, and the session id that entries without one receive.
pub struct StructuredLogger {
    log_buffer: Vec<StructuredLogEntry>,
    max_buffer_size: usize,
    session_id: Option<String>,
}

impl StructuredLogger {
    pub closed spec fn buffer(&self) -> Seq<LogEntryView> {
        entries_view(self.log_buffer@)
    }

    pub closed spec fn capacity(&self) -> usize {
        self.max_buffer_size
    }

    pub closed spec fn session(&self) -> Option<Seq<char>> {
        opt_view(self.session_id)
    }

    /// An empty buffer of `max_buffer_size` entries (a thousand when not given).
    pub fn new(max_buffer_size: Option<usize>) -> (r: Self)
        ensures
            r.buffer().len() == 0,
            r.capacity() == match max_buffer_size {
                Some(n) => n,
                None => DEFAULT_LOG_BUFFER_SIZE,
            },
            r.session() is None,
    {
        let r = StructuredLogger {
            log_buffer: Vec::new(),
            max_buffer_size: match max_buffer_size {
                Some(n) => n,
                None => DEFAULT_LOG_BUFFER_SIZE,
            },
            session_id: None,
        };
        assert(entries_view(r.log_buffer@) =~= Seq::<LogEntryView>::empty());
        r
    }

    pub fn set_session_id(&mut self, session_id: &str)
        ensures
            final(self).session() == Some(session_id@),
            final(self).buffer() == old(self).buffer(),
            final(self).capacity() == old(self).capacity(),
    {
        self.session_id = Some(String::from_str(session_id));
    }

    /// Buffers an entry, giving it the logger's session id when it has none;
    /// the oldest entry leaves when the buffer is over its capacity.
    pub fn log(&mut self, entry: StructuredLogEntry)
        ensures
            final(self).buffer() == bounded_push(
                old(self).buffer(),
                if entry.view().session_id is None {
                    LogEntryView { session_id: old(self).session(), ..entry.view() }
                } else {
                    entry.view()
                },
                old(self).capacity() as nat,
            ),
            final(self).capacity() == old(self).capacity(),
            final(self).session() == old(self).session(),
    {
        let mut e = entry;
        if e.session_id.is_none() {
            e.session_id = copy_opt(&self.session_id);
        }
        let ghost before = self.log_buffer@;
        let ghost ev = e.view();
        self.log_buffer.push(e);
        assert(entries_view(self.log_buffer@) =~= entries_view(before).push(ev));
        if self.log_buffer.len() > self.max_buffer_size {
            let ghost pushed = self.log_buffer@;
            let _ = self.log_buffer.remove(0);
            assert(entries_view(self.log_buffer@) =~= entries_view(pushed).drop_first());
        }
    }

    /// Logs a message at a level.
    pub fn log_message(&mut self, level: LogLevel, category: &str, message: &str, migration_log_id: Option<i64>)
        ensures
            final(self).buffer().len() == bounded_push(old(self).buffer(), Self::blank_at(level, category@, message@, migration_log_id), old(self).capacity() as nat).len(),
            exists|t: i64| #[trigger] bounded_push(
                old(self).buffer(),
                entry_shape(t, level, category@, message@, migration_log_id, None, Seq::empty(), old(self).session()),
                old(self).capacity() as nat,
            ) == final(self).buffer(),
            final(self).capacity() == old(self).capacity(),
            final(self).session() == old(self).session(),
    {
        let e = StructuredLogEntry::new(level, category, message, migration_log_id);
        let ghost t = e.timestamp;
        self.log(e);
        assert(bounded_push(
            old(self).buffer(),
            entry_shape(t, level, category@, message@, migration_log_id, None, Seq::empty(), old(self).session()),
            old(self).capacity() as nat,
        ) == self.buffer());
    }

    /// A placeholder entry of the shape that [`StructuredLogger::log_message`] buffers.
    pub open spec fn blank_at(level: LogLevel, category: Seq<char>, message: Seq<char>, migration_log_id: Option<i64>) -> LogEntryView {
        StructuredLogEntry::blank(level, category, message, migration_log_id)
    }

    pub fn debug(&mut self, category: &str, message: &str, migration_log_id: Option<i64>)
        ensures
            exists|t: i64| #[trigger] bounded_push(
                old(self).buffer(),
                entry_shape(t, LogLevel::Debug, category@, message@, migration_log_id, None, Seq::empty(), old(self).session()),
                old(self).capacity() as nat,
            ) == final(self).buffer(),
            final(self).capacity() == old(self).capacity(),
    {
        self.log_message(LogLevel::Debug, category, message, migration_log_id);
    }

    pub fn info(&mut self, category: &str, message: &str, migration_log_id: Option<i64>)
        ensures
            exists|t: i64| #[trigger] bounded_push(
                old(self).buffer(),
                entry_shape(t, LogLevel::Info, category@, message@, migration_log_id, None, Seq::empty(), old(self).session()),
                old(self).capacity() as nat,
            ) == final(self).buffer(),
            final(self).capacity() == old(self).capacity(),
    {
        self.log_message(LogLevel::Info, category, message, migration_log_id);
    }

    pub fn warn(&mut self, category: &str, message: &str, migration_log_id: Option<i64>)
        ensures
            exists|t: i64| #[trigger] bounded_push(
                old(self).buffer(),
                entry_shape(t, LogLevel::Warn, category@, message@, migration_log_id, None, Seq::empty(), old(self).session()),
                old(self).capacity() as nat,
            ) == final(self).buffer(),
            final(self).capacity() == old(self).capacity(),
    {
        self.log_message(LogLevel::Warn, category, message, migration_log_id);
    }

    pub fn error(&mut self, category: &str, message: &str, migration_log_id: Option<i64>)
        ensures
            exists|t: i64| #[trigger] bounded_push(
                old(self).buffer(),
                entry_shape(t, LogLevel::Error, category@, message@, migration_log_id, None, Seq::empty(), old(self).session()),
                old(self).capacity() as nat,
            ) == final(self).buffer(),
            final(self).capacity() == old(self).capacity(),
    {
        self.log_message(LogLevel::Error, category, message, migration_log_id);
    }

    pub fn critical(&mut self, category: &str, message: &str, migration_log_id: Option<i64>)
        ensures
            exists|t: i64| #[trigger] bounded_push(
                old(self).buffer(),
                entry_shape(t, LogLevel::Critical, category@, message@, migration_log_id, None, Seq::empty(), old(self).session()),
                old(self).capacity() as nat,
            ) == final(self).buffer(),
            final(self).capacity() == old(self).capacity(),
    {
        self.log_message(LogLevel::Critical, category, message, migration_log_id);
    }

    /// Logs a migration error: at the level of its severity, under its
    /// category, with its code, its metadata and the context as context, and
    /// its debug rendering as stack trace; an error that calls for a security
    /// audit is logged a second time under `security_audit`.
    pub fn log_migration_error(&mut self, error: &MigrationError, migration_log_id: Option<i64>, context: Option<&str>)
        ensures
            final(self).capacity() == old(self).capacity(),
            final(self).session() == old(self).session(),
            exists|t1: i64, t2: i64, trace: Seq<char>| #[trigger] error_logged(
                old(self).buffer(),
                old(self).capacity() as nat,
                old(self).session(),
                *error,
                migration_log_id,
                opt_str_view(context),
                t1,
                t2,
                trace,
            ) == final(self).buffer(),
    {
        let ghost ms = error.metadata_spec();
        let mut entry = StructuredLogEntry::new(
            LogLevel::from(error.severity()),
            error.category(),
            error.to_display_string().as_str(),
            migration_log_id,
        ).with_error_code(error.error_code().as_str());
        let ghost t1 = entry.timestamp;
        let ghost base = entry.view();
        let metadata = error.log_metadata();
        assert(context_view(metadata@) =~= ms);
        assert(ms.take(0) =~= Seq::<(Seq<char>, MetadataView)>::empty());
        let mut i: usize = 0;
        while i < metadata.len()
            invariant
                i <= metadata@.len(),
                context_view(metadata@) == ms,
                entry.view() == (LogEntryView { context: puts_all(Seq::empty(), ms.take(i as int)), ..base }),
            decreases metadata@.len() - i,
        {
            let ghost before = entry.view();
            entry = entry.with_context(metadata[i].0.as_str(), metadata[i].1.duplicate());
            proof {
                assert(ms.take(i as int + 1).drop_last() =~= ms.take(i as int));
                assert(ms[i as int] == entry_view(metadata@[i as int]));
            }
            i = i + 1;
        }
        assert(ms.take(i as int) =~= ms);
        match context {
            Some(c) => {
                entry = entry.with_context("additional_context", MetadataValue::Text(String::from_str(c)));
            },
            None => {},
        }
        let trace = error.debug_info();
        let ghost tr = trace@;
        entry = entry.with_stack_trace(trace.as_str());
        assert(entry.view() == error_entry(t1, *error, migration_log_id, opt_str_view(context), tr, None));
        self.log(entry);
        let ghost b1 = self.buffer();
        let ghost mut t2: i64 = 0;
        if error.requires_security_audit() {
            let mut message = String::from_str("セキュリティ監査要求: ");
            message.append(error.to_display_string().as_str());
            let mut code = String::from_str("SECURITY_");
            code.append(error.error_code().as_str());
            let audit = StructuredLogEntry::new(LogLevel::Critical, "security_audit", message.as_str(), migration_log_id)
                .with_error_code(code.as_str())
                .with_context("audit_reason", MetadataValue::Text(String::from_str("migration_security_violation")));
            proof { t2 = audit.timestamp; }
            assert(audit.view() == audit_request_entry(t2, *error, migration_log_id, None));
            self.log(audit);
        }
        assert(error_logged(old(self).buffer(), old(self).capacity() as nat, old(self).session(), *error, migration_log_id,
            opt_str_view(context), t1, t2, tr) == self.buffer());
    }

    /// Logs the start of a migration run.
    pub fn log_migration_start(&mut self, migration_log_id: i64, total_items: usize, batch_size: usize, dry_run: bool)
        ensures
            final(self).capacity() == old(self).capacity(),
            final(self).session() == old(self).session(),
            exists|t: i64| #[trigger] bounded_push(
                old(self).buffer(),
                entry_shape(
                    t,
                    LogLevel::Info,
                    "migration_lifecycle"@,
                    "R2ユーザーディレクトリ移行を開始しました"@,
                    Some(migration_log_id),
                    None,
                    start_context(total_items, batch_size, dry_run),
                    old(self).session(),
                ),
                old(self).capacity() as nat,
            ) == final(self).buffer(),
    {
        let entry = StructuredLogEntry::new(
            LogLevel::Info,
            "migration_lifecycle",
            "R2ユーザーディレクトリ移行を開始しました",
            Some(migration_log_id),
        )
            .with_context("total_items", MetadataValue::Unsigned(total_items as u64))
            .with_context("batch_size", MetadataValue::Unsigned(batch_size as u64))
            .with_context("dry_run", MetadataValue::Flag(dry_run))
            .with_context("event_type", MetadataValue::Text(String::from_str("migration_start")));
        let ghost t = entry.timestamp;
        self.log(entry);
        assert(bounded_push(
            old(self).buffer(),
            entry_shape(t, LogLevel::Info, "migration_lifecycle"@, "R2ユーザーディレクトリ移行を開始しました"@,
                Some(migration_log_id), None, start_context(total_items, batch_size, dry_run), old(self).session()),
            old(self).capacity() as nat,
        ) == self.buffer());
    }

    /// Logs the end of a migration run: a warning when some file failed.
    pub fn log_migration_complete(&mut self, migration_log_id: i64, success_count: usize, error_count: usize, duration_ms: u64)
        ensures
            final(self).capacity() == old(self).capacity(),
            final(self).session() == old(self).session(),
            exists|t: i64| #[trigger] bounded_push(
                old(self).buffer(),
                entry_shape(
                    t,
                    completion_level(error_count),
                    "migration_lifecycle"@,
                    "R2ユーザーディレクトリ移行が完了しました"@,
                    Some(migration_log_id),
                    None,
                    completion_context(success_count, error_count, duration_ms),
                    old(self).session(),
                ),
                old(self).capacity() as nat,
            ) == final(self).buffer(),
    {
        let level = if error_count > 0 { LogLevel::Warn } else { LogLevel::Info };
        let entry = StructuredLogEntry::new(level, "migration_lifecycle", "R2ユーザーディレクトリ移行が完了しました", Some(migration_log_id))
            .with_context("success_count", MetadataValue::Unsigned(success_count as u64))
            .with_context("error_count", MetadataValue::Unsigned(error_count as u64))
            .with_context("duration_ms", MetadataValue::Unsigned(duration_ms))
            .with_context("event_type", MetadataValue::Text(String::from_str("migration_complete")));
        let ghost t = entry.timestamp;
        self.log(entry);
        assert(bounded_push(
            old(self).buffer(),
            entry_shape(t, level, "migration_lifecycle"@, "R2ユーザーディレクトリ移行が完了しました"@, Some(migration_log_id), None,
                completion_context(success_count, error_count, duration_ms), old(self).session()),
            old(self).capacity() as nat,
        ) == self.buffer());
    }

    /// Logs one moved file: a debug entry when it succeeded, an error entry
    /// when it failed, with the user and the file's paths and size.
    pub fn log_file_migration(&mut self, params: FileMigrationLogParams)
        ensures
            final(self).capacity() == old(self).capacity(),
            final(self).session() == old(self).session(),
            exists|t: i64| #[trigger] bounded_push(
                old(self).buffer(),
                entry_shape(
                    t,
                    file_level(params.success),
                    "file_migration"@,
                    file_message(params.success),
                    Some(params.migration_log_id),
                    Some(params.user_id),
                    file_context(params.old_path@, params.new_path@, params.file_size, params.success, params.duration_ms),
                    old(self).session(),
                ),
                old(self).capacity() as nat,
            ) == final(self).buffer(),
    {
        let level = if params.success { LogLevel::Debug } else { LogLevel::Error };
        let message = if params.success { "ファイル移行成功" } else { "ファイル移行失敗" };
        let ghost success = params.success;
        let ghost uid = params.user_id;
        let ghost mid = params.migration_log_id;
        let ghost ctx = file_context(params.old_path@, params.new_path@, params.file_size, params.success, params.duration_ms);
        let mut entry = StructuredLogEntry::new(level, "file_migration", message, Some(params.migration_log_id))
            .with_user_id(params.user_id)
            .with_context("old_path", MetadataValue::Text(params.old_path))
            .with_context("new_path", MetadataValue::Text(params.new_path))
            .with_context("file_size", MetadataValue::Unsigned(params.file_size))
            .with_context("success", MetadataValue::Flag(params.success));
        match params.duration_ms {
            Some(d) => {
                entry = entry.with_context("duration_ms", MetadataValue::Unsigned(d));
            },
            None => {},
        }
        let ghost t = entry.timestamp;
        assert(entry.view().context == ctx);
        self.log(entry);
        assert(bounded_push(
            old(self).buffer(),
            entry_shape(t, file_level(success), "file_migration"@, file_message(success), Some(mid), Some(uid), ctx, old(self).session()),
            old(self).capacity() as nat,
        ) == self.buffer());
    }

    /// A copy of the buffered entries, oldest first.
    pub fn get_log_buffer(&self) -> (r: Vec<StructuredLogEntry>)
        ensures
            entries_view(r@) == self.buffer(),
    {
        let mut r: Vec<StructuredLogEntry> = Vec::new();
        let mut i: usize = 0;
        while i < self.log_buffer.len()
            invariant
                i <= self.log_buffer@.len(),
                entries_view(r@) == entries_view(self.log_buffer@.subrange(0, i as int)),
            decreases self.log_buffer@.len() - i,
        {
            let ghost r0 = r@;
            r.push(self.log_buffer[i].duplicate());
            assert(entries_view(r@) =~= entries_view(r0).push(self.log_buffer@[i as int].view()));
            assert(entries_view(self.log_buffer@.subrange(0, i as int + 1)) =~= entries_view(self.log_buffer@.subrange(0, i as int)).push(
                self.log_buffer@[i as int].view(),
            ));
            i = i + 1;
        }
        assert(self.log_buffer@.subrange(0, i as int) =~= self.log_buffer@);
        r
    }

    pub fn clear_log_buffer(&mut self)
        ensures
            final(self).buffer().len() == 0,
            final(self).capacity() == old(self).capacity(),
            final(self).session() == old(self).session(),
    {
        self.log_buffer = Vec::new();
        assert(entries_view(self.log_buffer@) =~= Seq::<LogEntryView>::empty());
    }

    /// The buffered entries at `min_level` or above, oldest first.
    pub fn get_logs_by_level(&self, min_level: LogLevel) -> (r: Vec<StructuredLogEntry>)
        ensures
            entries_view(r@) == self.buffer().filter(|e: LogEntryView| level_rank(e.level) >= level_rank(min_level)),
    {
        let ghost keep = |e: LogEntryView| level_rank(e.level) >= level_rank(min_level);
        let min = level_priority(min_level);
        let mut r: Vec<StructuredLogEntry> = Vec::new();
        let mut i: usize = 0;
        while i < self.log_buffer.len()
            invariant
                i <= self.log_buffer@.len(),
                min as int == level_rank(min_level),
                keep == (|e: LogEntryView| level_rank(e.level) >= level_rank(min_level)),
                entries_view(r@) == entries_view(self.log_buffer@.subrange(0, i as int)).filter(keep),
            decreases self.log_buffer@.len() - i,
        {
            let ghost sub = entries_view(self.log_buffer@.subrange(0, i as int));
            let ghost x = self.log_buffer@[i as int].view();
            assert(entries_view(self.log_buffer@.subrange(0, i as int + 1)) =~= sub.push(x));
            proof { sub.lemma_filter_push(x, keep); }
            if level_priority(self.log_buffer[i].level) >= min {
                let ghost r0 = r@;
                r.push(self.log_buffer[i].duplicate());
                assert(entries_view(r@) =~= entries_view(r0).push(x));
            }
            i = i + 1;
        }
        assert(self.log_buffer@.subrange(0, i as int) =~= self.log_buffer@);
        r
    }

    /// The buffered entries of a migration run, oldest first.
    pub fn get_logs_by_migration_id(&self, migration_log_id: i64) -> (r: Vec<StructuredLogEntry>)
        ensures
            entries_view(r@) == self.buffer().filter(|e: LogEntryView| e.migration_log_id == Some(migration_log_id)),
    {
        let ghost keep = |e: LogEntryView| e.migration_log_id == Some(migration_log_id);
        let mut r: Vec<StructuredLogEntry> = Vec::new();
        let mut i: usize = 0;
        while i < self.log_buffer.len()
            invariant
                i <= self.log_buffer@.len(),
                keep == (|e: LogEntryView| e.migration_log_id == Some(migration_log_id)),
                entries_view(r@) == entries_view(self.log_buffer@.subrange(0, i as int)).filter(keep),
            decreases self.log_buffer@.len() - i,
        {
            let ghost sub = entries_view(self.log_buffer@.subrange(0, i as int));
            let ghost x = self.log_buffer@[i as int].view();
            assert(entries_view(self.log_buffer@.subrange(0, i as int + 1)) =~= sub.push(x));
            proof { sub.lemma_filter_push(x, keep); }
            if self.log_buffer[i].migration_log_id == Some(migration_log_id) {
                let ghost r0 = r@;
                r.push(self.log_buffer[i].duplicate());
                assert(entries_view(r@) =~= entries_view(r0).push(x));
            }
            i = i + 1;
        }
        assert(self.log_buffer@.subrange(0, i as int) =~= self.log_buffer@);
        r
    }

    /// Counts the buffered entries by level and by category; the total is
    /// the number of entries.
    pub fn get_log_statistics(&self) -> (r: LogStatistics)
        ensures
            r.debug_count == level_count(self.buffer(), LogLevel::Debug),
            r.info_count == level_count(self.buffer(), LogLevel::Info),
            r.warn_count == level_count(self.buffer(), LogLevel::Warn),
            r.error_count == level_count(self.buffer(), LogLevel::Error),
            r.critical_count == level_count(self.buffer(), LogLevel::Critical),
            r.total_entries == self.buffer().len(),
            counts_view(r.category_counts@) == category_tally(self.buffer()),
    {
        let ghost all = entries_view(self.log_buffer@);
        let mut d: usize = 0;
        let mut n: usize = 0;
        let mut w: usize = 0;
        let mut e: usize = 0;
        let mut c: usize = 0;
        let mut categories: Vec<(String, usize)> = Vec::new();
        let mut i: usize = 0;
        while i < self.log_buffer.len()
            invariant
                i <= self.log_buffer@.len(),
                all == entries_view(self.log_buffer@),
                d == level_count(all.subrange(0, i as int), LogLevel::Debug),
                n == level_count(all.subrange(0, i as int), LogLevel::Info),
                w == level_count(all.subrange(0, i as int), LogLevel::Warn),
                e == level_count(all.subrange(0, i as int), LogLevel::Error),
                c == level_count(all.subrange(0, i as int), LogLevel::Critical),
                d + n + w + e + c == i,
                distinct_keys(counts_view(categories@)),
                counts_view(categories@) == category_tally(all.subrange(0, i as int)),
            decreases self.log_buffer@.len() - i,
        {
            let ghost sub = all.subrange(0, i as int + 1);
            assert(sub.drop_last() =~= all.subrange(0, i as int));
            assert(sub.last() == self.log_buffer@[i as int].view());
            match self.log_buffer[i].level {
                LogLevel::Debug => { d = d + 1; },
                LogLevel::Info => { n = n + 1; },
                LogLevel::Warn => { w = w + 1; },
                LogLevel::Error => { e = e + 1; },
                LogLevel::Critical => { c = c + 1; },
            }
            count_category(&mut categories, self.log_buffer[i].category.as_str());
            i = i + 1;
        }
        assert(all.subrange(0, i as int) =~= all);
        LogStatistics {
            total_entries: d + n + w + e + c,
            debug_count: d,
            info_count: n,
            warn_count: w,
            error_count: e,
            critical_count: c,
            category_counts: categories,
        }
    }
}

/// Counts `key` once more among the per-category counters.
fn count_category(v: &mut Vec<(String, usize)>, key: &str)
    requires
        distinct_keys(counts_view(old(v)@)),
    ensures
        distinct_keys(counts_view(final(v)@)),
        counts_view(final(v)@) == counted(counts_view(old(v)@), key@),
{
    count_key(v, String::from_str(key));
}

/// The entries counted per category, in the order the categories first appear.
pub open spec fn category_tally(s: Seq<LogEntryView>) -> Seq<(Seq<char>, usize)>
    decreases s.len(),
{
    if s.len() == 0 {
        Seq::empty()
    } else {
        counted(category_tally(s.drop_last()), s.last().category)
    }
}

/// The buffer never holds more entries than its capacity once it is within it.
pub proof fn lemma_bounded_push_within<A>(s: Seq<A>, x: A, max: nat)
    requires
        s.len() <= max,
    ensures
        bounded_push(s, x, max).len() <= max,
        max > 0 ==> bounded_push(s, x, max).last() == x,
{
}

} // verus!
