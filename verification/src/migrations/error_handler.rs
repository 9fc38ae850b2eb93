//! What to do about migration errors: the decision for one error, automatic
//! recovery, error statistics, and the bookkeeping of an operation that is
//! retried until it succeeds or may no longer be retried.
use vstd::prelude::*;
use vstd::string::*;
use crate::app_error::ErrorSeverity;
use crate::migrations::errors::{
    action_for, default_retry_strategy, ErrorAction, MigrationError, MigrationErrorHandler, RetryStrategy,
};
use crate::text::{before_char, same_text, text_before_char};

verus! {

/// What the migration does after an error.
#[derive(Debug, Clone)]
pub enum ErrorHandlingResult {
    /// Go on.
    Continue,
    /// Try again after `delay_ms` milliseconds.
    Retry { attempt: usize, delay_ms: u64 },
    /// Skip the item.
    Skip { reason: String },
    /// Stop the migration.
    Abort { reason: String },
    /// Roll back `target`.
    Rollback { target: String },
    /// Pause the migration.
    Pause { reason: String },
    /// Reset `target`.
    Reset { target: String },
}

/// The kind of a handling result with its text, or its attempt and delay.
pub enum HandlingView {
    Continue,
    Retry(int, int),
    Skip(Seq<char>),
    Abort(Seq<char>),
    Rollback(Seq<char>),
    Pause(Seq<char>),
    Reset(Seq<char>),
}

impl ErrorHandlingResult {
    pub open spec fn view(&self) -> HandlingView {
        match self {
            ErrorHandlingResult::Continue => HandlingView::Continue,
            ErrorHandlingResult::Retry { attempt, delay_ms } => HandlingView::Retry(*attempt as int, *delay_ms as int),
            ErrorHandlingResult::Skip { reason } => HandlingView::Skip(reason@),
            ErrorHandlingResult::Abort { reason } => HandlingView::Abort(reason@),
            ErrorHandlingResult::Rollback { target } => HandlingView::Rollback(target@),
            ErrorHandlingResult::Pause { reason } => HandlingView::Pause(reason@),
            ErrorHandlingResult::Reset { target } => HandlingView::Reset(target@),
        }
    }
}

/// The decision for an error taken without the comprehensive handler: the
/// action of its kind, with the displayed error as the reason, and a first
/// retry after the strategy's initial wait.
pub open spec fn basic_handling(e: MigrationError) -> HandlingView {
    match action_for(e) {
        ErrorAction::Abort => HandlingView::Abort(e.display_view()),
        ErrorAction::Retry => match default_retry_strategy(e) {
            Some(s) => HandlingView::Retry(1, s.initial_delay_ms as int),
            None => HandlingView::Skip("リトライ戦略が定義されていません"@),
        },
        ErrorAction::Skip => HandlingView::Skip(e.display_view()),
        ErrorAction::Rollback => HandlingView::Rollback("current_operation"@),
        ErrorAction::Pause => HandlingView::Pause(e.display_view()),
        ErrorAction::Reset => HandlingView::Reset("migration_state"@),
    }
}

/// Decides what to do about an error. Writing the error record and the
/// security audit entry is left to the caller (see
/// [`MigrationErrorHandler::log_error`] and the security audit logger).
pub fn handle_migration_error_sync(
    error: &MigrationError,
    migration_log_id: Option<i64>,
    user_id: Option<i64>,
    context: Option<&str>,
) -> (r: ErrorHandlingResult)
    ensures
        r.view() == basic_handling(*error),
{
    match MigrationErrorHandler::handle_error(error) {
        ErrorAction::Abort => ErrorHandlingResult::Abort { reason: error.to_display_string() },
        ErrorAction::Retry => match MigrationErrorHandler::get_retry_strategy(error) {
            Some(strategy) => ErrorHandlingResult::Retry { attempt: 1, delay_ms: strategy.initial_delay_ms },
            None => ErrorHandlingResult::Skip { reason: String::from_str("リトライ戦略が定義されていません") },
        },
        ErrorAction::Skip => ErrorHandlingResult::Skip { reason: error.to_display_string() },
        ErrorAction::Rollback => ErrorHandlingResult::Rollback { target: String::from_str("current_operation") },
        ErrorAction::Pause => ErrorHandlingResult::Pause { reason: error.to_display_string() },
        ErrorAction::Reset => ErrorHandlingResult::Reset { target: String::from_str("migration_state") },
    }
}

/// Errors are retried exactly when they are retryable: the basic decision is a
/// retry for a retryable error and never for another.
pub proof fn lemma_basic_handling_retries_retryable(e: MigrationError)
    ensures
        basic_handling(e) is Retry <==> e.is_retryable_spec(),
{
}

/// A failed move of one file is skipped and never stops the migration: the
/// action is to skip exactly for file-migration errors, and both the basic
/// decision and the handler's decision (with or without automatic recovery,
/// whatever its retry strategy) skip such an error with its displayed text as
/// the reason. The migration is stopped only for a failed pre-validation or for
/// an error that calls for a security audit.
pub proof fn lemma_file_failures_are_skipped(e: MigrationError, strategy: Option<RetryStrategy>, auto_recovery: bool)
    ensures
        action_for(e) == ErrorAction::Skip <==> e is FileMigration,
        action_for(e) == ErrorAction::Abort <==> (e is PreValidation || e.requires_security_audit_spec()),
        e is FileMigration ==> basic_handling(e) == HandlingView::Skip(e.display_view()),
        e is FileMigration ==> comprehensive_handling(e, strategy, auto_recovery)
            == HandlingView::Skip("回復不可能なエラーのためスキップ: "@ + e.display_view()),
{
}

/// What automatic recovery does about an error, if it applies.
pub open spec fn recovery_for(e: MigrationError) -> Option<HandlingView> {
    match e {
        MigrationError::ResourceExhaustion { resource_type, .. } => if resource_type@ == "memory"@ {
            Some(HandlingView::Pause("メモリ不足のため一時停止"@))
        } else if resource_type@ == "disk_space"@ {
            Some(HandlingView::Pause("ディスク容量不足のため一時停止"@))
        } else if resource_type@ == "network_bandwidth"@ {
            Some(HandlingView::Continue)
        } else {
            None
        },
        MigrationError::Concurrency { .. } => Some(HandlingView::Retry(1, 100)),
        MigrationError::R2Operation { operation, .. } => if operation@ == "upload"@ || operation@ == "download"@ {
            Some(HandlingView::Retry(1, 1000))
        } else if operation@ == "list"@ {
            Some(HandlingView::Retry(1, 500))
        } else {
            None
        },
        MigrationError::DatabaseUpdate { .. } => Some(HandlingView::Retry(1, 200)),
        _ => None,
    }
}

/// The automatic recovery for an error, if one applies.
pub fn attempt_auto_recovery(error: &MigrationError) -> (r: Option<ErrorHandlingResult>)
    ensures
        match recovery_for(*error) {
            Some(v) => r matches Some(x) && x.view() == v,
            None => r is None,
        },
{
    match error {
        MigrationError::ResourceExhaustion { resource_type, .. } => {
            if same_text(resource_type.as_str(), "memory") {
                Some(ErrorHandlingResult::Pause { reason: String::from_str("メモリ不足のため一時停止") })
            } else if same_text(resource_type.as_str(), "disk_space") {
                Some(ErrorHandlingResult::Pause { reason: String::from_str("ディスク容量不足のため一時停止") })
            } else if same_text(resource_type.as_str(), "network_bandwidth") {
                Some(ErrorHandlingResult::Continue)
            } else {
                None
            }
        },
        MigrationError::Concurrency { .. } => Some(ErrorHandlingResult::Retry { attempt: 1, delay_ms: 100 }),
        MigrationError::R2Operation { operation, .. } => {
            if same_text(operation.as_str(), "upload") || same_text(operation.as_str(), "download") {
                Some(ErrorHandlingResult::Retry { attempt: 1, delay_ms: 1000 })
            } else if same_text(operation.as_str(), "list") {
                Some(ErrorHandlingResult::Retry { attempt: 1, delay_ms: 500 })
            } else {
                None
            }
        },
        MigrationError::DatabaseUpdate { .. } => Some(ErrorHandlingResult::Retry { attempt: 1, delay_ms: 200 }),
        _ => None,
    }
}

/// The name under which the statistics count a severity.
pub open spec fn severity_name(s: ErrorSeverity) -> Seq<char> {
    match s {
        ErrorSeverity::Low => "Low"@,
        ErrorSeverity::Medium => "Medium"@,
        ErrorSeverity::High => "High"@,
        ErrorSeverity::Critical => "Critical"@,
    }
}

fn severity_name_text(s: ErrorSeverity) -> (r: String)
    ensures
        r@ == severity_name(s),
{
    match s {
        ErrorSeverity::Low => String::from_str("Low"),
        ErrorSeverity::Medium => String::from_str("Medium"),
        ErrorSeverity::High => String::from_str("High"),
        ErrorSeverity::Critical => String::from_str("Critical"),
    }
}

/// One more, stopping at the largest value.
pub open spec fn bumped(n: usize) -> usize {
    if n < usize::MAX { (n + 1) as usize } else { n }
}

fn bump(n: usize) -> (r: usize)
    ensures
        r == bumped(n),
{
    if n < usize::MAX { n + 1 } else { n }
}

/// Per-key counters seen through their keys' views.
pub open spec fn counts_view(v: Seq<(String, usize)>) -> Seq<(Seq<char>, usize)> {
    v.map_values(|p: (String, usize)| (p.0@, p.1))
}

/// The counters after counting `key` once more: its counter grows by one, or a
/// counter of one is added after the others.
pub open spec fn counted<K>(c: Seq<(K, usize)>, key: K) -> Seq<(K, usize)> {
    if exists|i: int| 0 <= i < c.len() && #[trigger] c[i].0 == key {
        let i = choose|i: int| 0 <= i < c.len() && #[trigger] c[i].0 == key;
        c.update(i, (key, bumped(c[i].1)))
    } else {
        c.push((key, 1usize))
    }
}

/// No two counters share a key.
pub open spec fn distinct_keys<K>(c: Seq<(K, usize)>) -> bool {
    forall|i: int, j: int| 0 <= i < j < c.len() ==> #[trigger] c[i].0 != #[trigger] c[j].0
}

pub(crate) fn count_key(v: &mut Vec<(String, usize)>, key: String)
    requires
        distinct_keys(counts_view(old(v)@)),
    ensures
        distinct_keys(counts_view(final(v)@)),
        counts_view(final(v)@) == counted(counts_view(old(v)@), key@),
{
    let ghost c = counts_view(v@);
    let mut i: usize = 0;
    while i < v.len()
        invariant
            i <= v@.len(),
            c == counts_view(v@),
            c == counts_view(old(v)@),
            distinct_keys(c),
            forall|k: int| 0 <= k < i ==> #[trigger] v@[k].0@ != key@,
        decreases v@.len() - i,
    {
        if v[i].0 == key {
            let n = v[i].1;
            let k = v[i].0.clone();
            proof {
                assert(c[i as int].0 == key@);
                let j = choose|j: int| 0 <= j < c.len() && #[trigger] c[j].0 == key@;
                if j != i as int {
                    if j < i {
                        assert(v@[j].0@ != key@);
                    } else {
                        assert(c[i as int].0 != c[j].0);
                    }
                }
            }
            v.set(i, (k, bump(n)));
            proof {
                assert(counts_view(v@) =~= c.update(i as int, (key@, bumped(n))));
                assert forall|a: int, b: int| 0 <= a < b < counts_view(v@).len() implies #[trigger] counts_view(v@)[a].0
                    != #[trigger] counts_view(v@)[b].0 by {
                    assert(counts_view(v@)[a].0 == c[a].0);
                    assert(counts_view(v@)[b].0 == c[b].0);
                }
            }
            return;
        }
        i = i + 1;
    }
    proof {
        assert forall|j: int| 0 <= j < c.len() implies #[trigger] c[j].0 != key@ by {
            assert(c[j].0 == v@[j].0@);
        }
    }
    v.push((key, 1));
    proof {
        assert(counts_view(v@) =~= c.push((key@, 1usize)));
        assert forall|a: int, b: int| 0 <= a < b < counts_view(v@).len() implies #[trigger] counts_view(v@)[a].0
            != #[trigger] counts_view(v@)[b].0 by {
            if b < c.len() {
                assert(counts_view(v@)[a].0 == c[a].0);
                assert(counts_view(v@)[b].0 == c[b].0);
            } else {
                assert(counts_view(v@)[a].0 == c[a].0);
            }
        }
    }
}

/// Counters of handled errors and of retries and recoveries.
#[derive(Debug, Clone)]
pub struct ErrorStatistics {
    pub total_errors: usize,
    /// Errors per type: the debug rendering of the error up to its first '('.
    pub error_type_counts: Vec<(String, usize)>,
    /// Errors per severity name.
    pub severity_counts: Vec<(String, usize)>,
    pub retry_success_count: usize,
    pub retry_failure_count: usize,
    pub auto_recovery_success_count: usize,
    pub auto_recovery_failure_count: usize,
}

impl ErrorStatistics {
    /// Counters that are all zero.
    pub fn empty() -> (r: Self)
        ensures
            r.is_empty_spec(),
    {
        ErrorStatistics {
            total_errors: 0,
            error_type_counts: Vec::new(),
            severity_counts: Vec::new(),
            retry_success_count: 0,
            retry_failure_count: 0,
            auto_recovery_success_count: 0,
            auto_recovery_failure_count: 0,
        }
    }

    pub open spec fn is_empty_spec(&self) -> bool {
        &&& self.total_errors == 0
        &&& self.error_type_counts@.len() == 0
        &&& self.severity_counts@.len() == 0
        &&& self.retry_success_count == 0
        &&& self.retry_failure_count == 0
        &&& self.auto_recovery_success_count == 0
        &&& self.auto_recovery_failure_count == 0
    }

    pub open spec fn well_formed(&self) -> bool {
        distinct_keys(counts_view(self.error_type_counts@)) && distinct_keys(counts_view(self.severity_counts@))
    }
}

/// The handler's settings that the retry bookkeeping reads.
pub open spec fn handler_strategy(overrides: Seq<(Seq<char>, RetryStrategy)>, e: MigrationError) -> Option<RetryStrategy> {
    if exists|i: int| 0 <= i < overrides.len() && #[trigger] overrides[i].0 == e.error_code_spec() {
        Some(overrides[choose|i: int| 0 <= i < overrides.len() && #[trigger] overrides[i].0 == e.error_code_spec()].1)
    } else {
        default_retry_strategy(e)
    }
}

/// Overrides seen through their codes' views.
pub open spec fn overrides_view(v: Seq<(String, RetryStrategy)>) -> Seq<(Seq<char>, RetryStrategy)> {
    v.map_values(|p: (String, RetryStrategy)| (p.0@, p.1))
}

/// No two overrides share an error code.
pub open spec fn distinct_codes(o: Seq<(Seq<char>, RetryStrategy)>) -> bool {
    forall|i: int, j: int| 0 <= i < j < o.len() ==> #[trigger] o[i].0 != #[trigger] o[j].0
}

/// The handler's decision for an error, given its retry strategy for it and
/// whether automatic recovery is on.
pub open spec fn comprehensive_handling(e: MigrationError, strategy: Option<RetryStrategy>, auto_recovery: bool) -> HandlingView {
    if auto_recovery && recovery_for(e) is Some {
        recovery_for(e)->Some_0
    } else {
        match action_for(e) {
            ErrorAction::Abort => HandlingView::Abort("致命的エラーのため処理を中止: "@ + e.display_view()),
            ErrorAction::Retry => match strategy {
                Some(s) => HandlingView::Retry(1, s.initial_delay_ms as int),
                None => HandlingView::Skip("リトライ戦略が定義されていません"@),
            },
            ErrorAction::Skip => HandlingView::Skip("回復不可能なエラーのためスキップ: "@ + e.display_view()),
            ErrorAction::Rollback => HandlingView::Rollback("current_operation"@),
            ErrorAction::Pause => HandlingView::Pause("リソース不足のため一時停止: "@ + e.display_view()),
            ErrorAction::Reset => HandlingView::Reset("migration_state"@),
        }
    }
}

/// The error handler of a migration run: retry overrides per error code,
/// automatic recovery, a limit on attempts, and statistics.
pub struct ComprehensiveErrorHandler {
    error_statistics: ErrorStatistics,
    retry_overrides: Vec<(String, RetryStrategy)>,
    auto_recovery_enabled: bool,
    max_retry_limit: usize,
}

impl ComprehensiveErrorHandler {
    #[verifier::type_invariant]
    spec fn well_formed(self) -> bool {
        self.error_statistics.well_formed() && distinct_codes(overrides_view(self.retry_overrides@))
    }

    /// The statistics kept so far.
    pub closed spec fn statistics(&self) -> ErrorStatistics {
        self.error_statistics
    }

    /// The retry overrides, by error code.
    pub closed spec fn overrides(&self) -> Seq<(Seq<char>, RetryStrategy)> {
        overrides_view(self.retry_overrides@)
    }

    pub closed spec fn auto_recovery(&self) -> bool {
        self.auto_recovery_enabled
    }

    pub closed spec fn retry_limit(&self) -> usize {
        self.max_retry_limit
    }

    /// The strategy the handler applies to an error: its override, else the default.
    pub open spec fn strategy_for(&self, e: MigrationError) -> Option<RetryStrategy> {
        handler_strategy(self.overrides(), e)
    }

    /// A handler with automatic recovery on, at most ten attempts, no override
    /// and empty statistics.
    pub fn new() -> (r: Self)
        ensures
            r.auto_recovery(),
            r.retry_limit() == 10,
            r.overrides().len() == 0,
            r.statistics().is_empty_spec(),
    {
        let h = ComprehensiveErrorHandler {
            error_statistics: ErrorStatistics::empty(),
            retry_overrides: Vec::new(),
            auto_recovery_enabled: true,
            max_retry_limit: 10,
        };
        assert(overrides_view(h.retry_overrides@) =~= Seq::<(Seq<char>, RetryStrategy)>::empty());
        h
    }

    pub fn set_auto_recovery_enabled(&mut self, enabled: bool)
        ensures
            final(self).auto_recovery() == enabled,
            final(self).retry_limit() == old(self).retry_limit(),
            final(self).overrides() == old(self).overrides(),
            final(self).statistics() == old(self).statistics(),
    {
        proof { use_type_invariant(&*self); }
        self.auto_recovery_enabled = enabled;
    }

    pub fn set_max_retry_limit(&mut self, limit: usize)
        ensures
            final(self).retry_limit() == limit,
            final(self).auto_recovery() == old(self).auto_recovery(),
            final(self).overrides() == old(self).overrides(),
            final(self).statistics() == old(self).statistics(),
    {
        proof { use_type_invariant(&*self); }
        self.max_retry_limit = limit;
    }

    /// Makes `strategy` the one for errors of `error_code`, in place of any earlier one.
    pub fn override_retry_strategy(&mut self, error_code: &str, strategy: RetryStrategy)
        ensures
            final(self).overrides() == (if exists|i: int| 0 <= i < old(self).overrides().len()
                && #[trigger] old(self).overrides()[i].0 == error_code@ {
                old(self).overrides().update(
                    choose|i: int| 0 <= i < old(self).overrides().len() && #[trigger] old(self).overrides()[i].0 == error_code@,
                    (error_code@, strategy),
                )
            } else {
                old(self).overrides().push((error_code@, strategy))
            }),
            final(self).auto_recovery() == old(self).auto_recovery(),
            final(self).retry_limit() == old(self).retry_limit(),
            final(self).statistics() == old(self).statistics(),
    {
        proof { use_type_invariant(&*self); }
        let mut v: Vec<(String, RetryStrategy)> = Vec::new();
        std::mem::swap(&mut v, &mut self.retry_overrides);
        let ghost o = overrides_view(v@);
        let key = String::from_str(error_code);
        let mut i: usize = 0;
        while i < v.len()
            invariant
                i <= v@.len(),
                o == overrides_view(v@),
                o == old(self).overrides(),
                self.error_statistics == old(self).error_statistics,
                self.error_statistics.well_formed(),
                self.auto_recovery_enabled == old(self).auto_recovery_enabled,
                self.max_retry_limit == old(self).max_retry_limit,
                key@ == error_code@,
                distinct_codes(o),
                forall|k: int| 0 <= k < i ==> #[trigger] v@[k].0@ != error_code@,
            decreases v@.len() - i,
        {
            if v[i].0 == key {
                proof {
                    assert(o[i as int].0 == error_code@);
                    let j = choose|j: int| 0 <= j < o.len() && #[trigger] o[j].0 == error_code@;
                    if j != i as int {
                        if j < i {
                            assert(v@[j].0@ != error_code@);
                        } else {
                            assert(o[i as int].0 != o[j].0);
                        }
                    }
                }
                v.set(i, (key, strategy));
                proof {
                    assert(overrides_view(v@) =~= o.update(i as int, (error_code@, strategy)));
                    assert forall|a: int, b: int| 0 <= a < b < overrides_view(v@).len() implies #[trigger] overrides_view(v@)[a].0
                        != #[trigger] overrides_view(v@)[b].0 by {
                        assert(overrides_view(v@)[a].0 == o[a].0);
                        assert(overrides_view(v@)[b].0 == o[b].0);
                    }
                }
                self.retry_overrides = v;
                return;
            }
            i = i + 1;
        }
        proof {
            assert forall|j: int| 0 <= j < o.len() implies #[trigger] o[j].0 != error_code@ by {
                assert(o[j].0 == v@[j].0@);
            }
        }
        v.push((key, strategy));
        proof {
            assert(overrides_view(v@) =~= o.push((error_code@, strategy)));
            assert forall|a: int, b: int| 0 <= a < b < overrides_view(v@).len() implies #[trigger] overrides_view(v@)[a].0
                != #[trigger] overrides_view(v@)[b].0 by {
                assert(overrides_view(v@)[a].0 == o[a].0);
                if b < o.len() {
                    assert(overrides_view(v@)[b].0 == o[b].0);
                }
            }
        }
        self.retry_overrides = v;
    }

    /// The retry strategy for an error: the override of its code, else its default.
    pub fn get_retry_strategy(&self, error: &MigrationError) -> (r: Option<RetryStrategy>)
        ensures
            r == self.strategy_for(*error),
    {
        proof { use_type_invariant(self); }
        let code = error.error_code();
        let ghost o = self.overrides();
        let mut i: usize = 0;
        while i < self.retry_overrides.len()
            invariant
                i <= self.retry_overrides@.len(),
                o == overrides_view(self.retry_overrides@),
                distinct_codes(o),
                code@ == error.error_code_spec(),
                forall|k: int| 0 <= k < i ==> #[trigger] self.retry_overrides@[k].0@ != code@,
            decreases self.retry_overrides@.len() - i,
        {
            if self.retry_overrides[i].0 == code {
                proof {
                    assert(o[i as int].0 == code@);
                    let j = choose|j: int| 0 <= j < o.len() && #[trigger] o[j].0 == error.error_code_spec();
                    if j != i as int {
                        if j < i {
                            assert(self.retry_overrides@[j].0@ != code@);
                        } else {
                            assert(o[i as int].0 != o[j].0);
                        }
                    }
                }
                return Some(self.retry_overrides[i].1);
            }
            i = i + 1;
        }
        proof {
            assert forall|j: int| 0 <= j < o.len() implies #[trigger] o[j].0 != error.error_code_spec() by {
                assert(o[j].0 == self.retry_overrides@[j].0@);
            }
        }
        MigrationErrorHandler::get_retry_strategy(error)
    }

    /// Counts an error: once in total, once under its type and once under its severity.
    pub fn update_error_statistics(&mut self, error: &MigrationError)
        ensures
            final(self).statistics().total_errors == bumped(old(self).statistics().total_errors),
            exists|rendering: Seq<char>| #[trigger] counted(
                counts_view(old(self).statistics().error_type_counts@),
                before_char(rendering, '('),
            ) == counts_view(final(self).statistics().error_type_counts@),
            counts_view(final(self).statistics().severity_counts@) == counted(
                counts_view(old(self).statistics().severity_counts@),
                severity_name(error.severity_spec()),
            ),
            final(self).statistics().retry_success_count == old(self).statistics().retry_success_count,
            final(self).statistics().retry_failure_count == old(self).statistics().retry_failure_count,
            final(self).statistics().auto_recovery_success_count == old(self).statistics().auto_recovery_success_count,
            final(self).statistics().auto_recovery_failure_count == old(self).statistics().auto_recovery_failure_count,
            final(self).overrides() == old(self).overrides(),
            final(self).auto_recovery() == old(self).auto_recovery(),
            final(self).retry_limit() == old(self).retry_limit(),
    {
        proof { use_type_invariant(&*self); }
        let mut stats = ErrorStatistics::empty();
        std::mem::swap(&mut stats, &mut self.error_statistics);
        stats.total_errors = bump(stats.total_errors);
        let debug = error.debug_info();
        let kind = text_before_char(debug.as_str(), '(');
        count_key(&mut stats.error_type_counts, kind);
        count_key(&mut stats.severity_counts, severity_name_text(error.severity()));
        self.error_statistics = stats;
        assert(counted(counts_view(old(self).statistics().error_type_counts@), before_char(debug@, '('))
            == counts_view(self.statistics().error_type_counts@));
    }

    pub fn update_retry_success_statistics(&mut self)
        ensures
            final(self).statistics() == (ErrorStatistics {
                retry_success_count: bumped(old(self).statistics().retry_success_count),
                ..old(self).statistics()
            }),
            final(self).overrides() == old(self).overrides(),
            final(self).auto_recovery() == old(self).auto_recovery(),
            final(self).retry_limit() == old(self).retry_limit(),
    {
        proof { use_type_invariant(&*self); }
        self.error_statistics.retry_success_count = bump(self.error_statistics.retry_success_count);
    }

    pub fn update_retry_failure_statistics(&mut self)
        ensures
            final(self).statistics() == (ErrorStatistics {
                retry_failure_count: bumped(old(self).statistics().retry_failure_count),
                ..old(self).statistics()
            }),
            final(self).overrides() == old(self).overrides(),
            final(self).auto_recovery() == old(self).auto_recovery(),
            final(self).retry_limit() == old(self).retry_limit(),
    {
        proof { use_type_invariant(&*self); }
        self.error_statistics.retry_failure_count = bump(self.error_statistics.retry_failure_count);
    }

    /// The decision for an error: the counters are updated, automatic recovery
    /// (when on) is tried first, and otherwise the action of the error's kind
    /// is taken, retrying with the handler's strategy. Writing the records is
    /// left to the caller.
    pub fn handle_error(
        &mut self,
        error: &MigrationError,
        migration_log_id: Option<i64>,
        user_id: Option<i64>,
        context: Option<&str>,
    ) -> (r: ErrorHandlingResult)
        ensures
            r.view() == comprehensive_handling(*error, old(self).strategy_for(*error), old(self).auto_recovery()),
            final(self).statistics().total_errors == bumped(old(self).statistics().total_errors),
            final(self).statistics().auto_recovery_success_count == (if old(self).auto_recovery() && recovery_for(*error) is Some {
                bumped(old(self).statistics().auto_recovery_success_count)
            } else {
                old(self).statistics().auto_recovery_success_count
            }),
            final(self).statistics().auto_recovery_failure_count == (if old(self).auto_recovery() && recovery_for(*error) is None {
                bumped(old(self).statistics().auto_recovery_failure_count)
            } else {
                old(self).statistics().auto_recovery_failure_count
            }),
            final(self).statistics().retry_success_count == old(self).statistics().retry_success_count,
            final(self).statistics().retry_failure_count == old(self).statistics().retry_failure_count,
            final(self).overrides() == old(self).overrides(),
            final(self).auto_recovery() == old(self).auto_recovery(),
            final(self).retry_limit() == old(self).retry_limit(),
    {
        proof { use_type_invariant(&*self); }
        self.update_error_statistics(error);
        if self.auto_recovery_enabled {
            match attempt_auto_recovery(error) {
                Some(action) => {
                    self.error_statistics.auto_recovery_success_count = bump(self.error_statistics.auto_recovery_success_count);
                    return action;
                },
                None => {
                    self.error_statistics.auto_recovery_failure_count = bump(self.error_statistics.auto_recovery_failure_count);
                },
            }
        }
        match MigrationErrorHandler::handle_error(error) {
            ErrorAction::Abort => {
                let mut reason = String::from_str("致命的エラーのため処理を中止: ");
                reason.append(error.to_display_string().as_str());
                ErrorHandlingResult::Abort { reason }
            },
            ErrorAction::Retry => match self.get_retry_strategy(error) {
                Some(strategy) => ErrorHandlingResult::Retry { attempt: 1, delay_ms: strategy.initial_delay_ms },
                None => ErrorHandlingResult::Skip { reason: String::from_str("リトライ戦略が定義されていません") },
            },
            ErrorAction::Skip => {
                let mut reason = String::from_str("回復不可能なエラーのためスキップ: ");
                reason.append(error.to_display_string().as_str());
                ErrorHandlingResult::Skip { reason }
            },
            ErrorAction::Rollback => ErrorHandlingResult::Rollback { target: String::from_str("current_operation") },
            ErrorAction::Pause => {
                let mut reason = String::from_str("リソース不足のため一時停止: ");
                reason.append(error.to_display_string().as_str());
                ErrorHandlingResult::Pause { reason }
            },
            ErrorAction::Reset => ErrorHandlingResult::Reset { target: String::from_str("migration_state") },
        }
    }

    /// The largest number of attempts of a retried operation.
    pub fn max_retry_limit_value(&self) -> (r: usize)
        ensures
            r == self.retry_limit(),
    {
        self.max_retry_limit
    }

    /// A copy of the statistics.
    pub fn get_error_statistics(&self) -> (r: ErrorStatistics)
        ensures
            r.total_errors == self.statistics().total_errors,
            counts_view(r.error_type_counts@) == counts_view(self.statistics().error_type_counts@),
            counts_view(r.severity_counts@) == counts_view(self.statistics().severity_counts@),
            r.retry_success_count == self.statistics().retry_success_count,
            r.retry_failure_count == self.statistics().retry_failure_count,
            r.auto_recovery_success_count == self.statistics().auto_recovery_success_count,
            r.auto_recovery_failure_count == self.statistics().auto_recovery_failure_count,
    {
        let s = &self.error_statistics;
        ErrorStatistics {
            total_errors: s.total_errors,
            error_type_counts: copy_counts(&s.error_type_counts),
            severity_counts: copy_counts(&s.severity_counts),
            retry_success_count: s.retry_success_count,
            retry_failure_count: s.retry_failure_count,
            auto_recovery_success_count: s.auto_recovery_success_count,
            auto_recovery_failure_count: s.auto_recovery_failure_count,
        }
    }

    /// Sets every counter back to zero.
    pub fn clear_error_statistics(&mut self)
        ensures
            final(self).statistics().is_empty_spec(),
            final(self).overrides() == old(self).overrides(),
            final(self).auto_recovery() == old(self).auto_recovery(),
            final(self).retry_limit() == old(self).retry_limit(),
    {
        proof { use_type_invariant(&*self); }
        self.error_statistics = ErrorStatistics::empty();
    }
}

fn copy_counts(v: &Vec<(String, usize)>) -> (r: Vec<(String, usize)>)
    ensures
        counts_view(r@) == counts_view(v@),
{
    let mut r: Vec<(String, usize)> = Vec::new();
    let mut i: usize = 0;
    while i < v.len()
        invariant
            i <= v@.len(),
            counts_view(r@) == counts_view(v@.subrange(0, i as int)),
        decreases v@.len() - i,
    {
        r.push((v[i].0.clone(), v[i].1));
        proof {
            assert(counts_view(v@.subrange(0, i as int + 1)) =~= counts_view(v@.subrange(0, i as int)).push(
                (v@[i as int].0@, v@[i as int].1),
            ));
            assert(counts_view(r@) =~= counts_view(v@.subrange(0, i as int)).push((v@[i as int].0@, v@[i as int].1)));
        }
        i = i + 1;
    }
    assert(v@.subrange(0, v@.len() as int) =~= v@);
    r
}

/// One attempt of a retried operation: its number, how long it took, its
/// outcome, and the wait before the next attempt when one follows.
#[derive(Debug)]
pub struct AttemptDetail {
    pub attempt_number: usize,
    pub duration_ms: u64,
    pub result: Result<(), MigrationError>,
    pub delay_ms: Option<u64>,
}

/// The outcome of a retried operation.
#[derive(Debug)]
pub struct RetryResult<T> {
    pub result: Result<T, MigrationError>,
    pub attempts: usize,
    pub total_duration_ms: u64,
    pub attempt_details: Vec<AttemptDetail>,
}

/// Whether a failed attempt is followed by another: the error is retryable,
/// the handler has a strategy for it, the attempt limit is not reached, and
/// the strategy allows another attempt (its `max_attempts` counts them all).
pub open spec fn retry_follows(strategy: Option<RetryStrategy>, e: MigrationError, attempts: usize, limit: usize) -> bool {
    &&& e.is_retryable_spec()
    &&& strategy is Some
    &&& attempts < limit
    &&& attempts < strategy->Some_0.max_attempts
}

/// Whether a failed attempt that ends the operation counts as a failed retry:
/// when the error was not retryable, had no strategy or hit the limit, only if
/// it was not the first attempt; when the strategy's attempts ran out, always.
pub open spec fn counts_as_failed_retry(strategy: Option<RetryStrategy>, e: MigrationError, attempts: usize, limit: usize) -> bool {
    if !e.is_retryable_spec() || strategy is None || attempts >= limit {
        attempts > 1
    } else {
        true
    }
}

/// The shape of the attempts of a finished run: numbered from 1 in order;
/// every attempt but the last failed and was followed by a wait; the last
/// was followed by none.
pub open spec fn completed_run(d: Seq<AttemptDetail>) -> bool {
    &&& d.len() >= 1
    &&& forall|i: int| 0 <= i < d.len() ==> #[trigger] d[i].attempt_number == i + 1
    &&& forall|i: int| 0 <= i < d.len() - 1 ==> (#[trigger] d[i]).result is Err && d[i].delay_ms is Some
    &&& d.last().delay_ms is None
}

/// Whether every element of `ls` is `limit`.
pub open spec fn all_equal_to(ls: Seq<usize>, limit: usize) -> bool {
    forall|i: int| 0 <= i < ls.len() ==> #[trigger] ls[i] == limit
}

/// The bookkeeping of an operation that is tried, and retried after waits,
/// until it succeeds or may no longer be retried. The caller runs the
/// operation and waits; this records the attempts and decides. Each begun
/// attempt is recorded once: as a success, as a failure that ends the run,
/// or as a failure followed by a wait.
pub struct RetryRun {
    attempts: usize,
    attempt_details: Vec<AttemptDetail>,
    ended: Ghost<bool>,
    limits: Ghost<Seq<usize>>,
    pending: Ghost<Option<usize>>,
}

impl RetryRun {
    #[verifier::type_invariant]
    spec fn well_formed(self) -> bool {
        let d = self.attempt_details@;
        &&& d.len() <= self.attempts <= d.len() + 1
        &&& forall|i: int| 0 <= i < d.len() ==> #[trigger] d[i].attempt_number == i + 1
        &&& self.ended@ ==> self.attempts == d.len() && completed_run(d)
        &&& !self.ended@ ==> forall|i: int| 0 <= i < d.len() ==> (#[trigger] d[i]).result is Err && d[i].delay_ms is Some
        &&& self.limits@.len() == (if self.ended@ { d.len() - 1 } else { d.len() as int })
        &&& forall|i: int| 0 <= i < self.limits@.len() ==> i + 1 < #[trigger] self.limits@[i]
        &&& self.pending@ matches Some(l) ==> !self.ended@ && self.attempts == d.len() + 1 && self.attempts < l
    }

    /// The handler's attempt limit at each retry so far, in order: the limit
    /// under which the failed attempt with that number was retried.
    pub closed spec fn retry_limits(&self) -> Seq<usize> {
        self.limits@
    }

    /// The limit under which the current failed attempt is to be retried,
    /// between [`RetryRun::record_failure`] deciding a retry and
    /// [`RetryRun::record_retry`] recording it.
    pub closed spec fn pending_limit(&self) -> Option<usize> {
        self.pending@
    }

    /// How many attempts have begun.
    pub closed spec fn attempts(&self) -> usize {
        self.attempts
    }

    /// The attempts recorded so far.
    pub closed spec fn details(&self) -> Seq<AttemptDetail> {
        self.attempt_details@
    }

    /// Whether the run has ended: its last attempt succeeded or may not be
    /// retried.
    pub closed spec fn ended(&self) -> bool {
        self.ended@
    }

    /// Whether an attempt has begun that is not recorded or decided yet.
    pub open spec fn in_attempt(&self) -> bool {
        !self.ended() && self.attempts() == self.details().len() + 1 && self.pending_limit() is None
    }

    /// Whether the current attempt failed and is to be retried.
    pub open spec fn retry_decided(&self) -> bool {
        !self.ended() && self.attempts() == self.details().len() + 1 && self.pending_limit() is Some
    }

    pub fn new() -> (r: Self)
        ensures
            r.attempts() == 0,
            r.details().len() == 0,
            !r.ended(),
            r.retry_limits().len() == 0,
            r.pending_limit() is None,
    {
        RetryRun { attempts: 0, attempt_details: Vec::new(), ended: Ghost(false), limits: Ghost(Seq::empty()), pending: Ghost(None) }
    }

    /// Begins the next attempt and tells its number.
    pub fn begin_attempt(&mut self) -> (n: usize)
        requires
            old(self).attempts() < usize::MAX,
            !old(self).ended(),
            old(self).attempts() == old(self).details().len(),
        ensures
            n == old(self).attempts() + 1,
            final(self).attempts() == n,
            final(self).details() == old(self).details(),
            final(self).in_attempt(),
            final(self).retry_limits() == old(self).retry_limits(),
    {
        proof { use_type_invariant(&*self); }
        self.attempts = self.attempts + 1;
        self.attempts
    }

    /// Records that the current attempt succeeded, which ends the run; a
    /// success after the first attempt counts as a successful retry.
    pub fn record_success(&mut self, handler: &mut ComprehensiveErrorHandler, duration_ms: u64)
        requires
            old(self).in_attempt(),
        ensures
            final(self).attempts() == old(self).attempts(),
            final(self).details() == old(self).details().push(
                AttemptDetail { attempt_number: old(self).attempts(), duration_ms, result: Ok(()), delay_ms: None },
            ),
            final(self).ended(),
            final(self).retry_limits() == old(self).retry_limits(),
            final(handler).statistics().retry_success_count == (if old(self).attempts() > 1 {
                bumped(old(handler).statistics().retry_success_count)
            } else {
                old(handler).statistics().retry_success_count
            }),
            final(handler).statistics().retry_failure_count == old(handler).statistics().retry_failure_count,
            final(handler).statistics().total_errors == old(handler).statistics().total_errors,
            final(handler).overrides() == old(handler).overrides(),
            final(handler).retry_limit() == old(handler).retry_limit(),
            final(handler).auto_recovery() == old(handler).auto_recovery(),
    {
        proof { use_type_invariant(&*self); }
        let ghost before = self.attempt_details@;
        self.push_final(AttemptDetail { attempt_number: self.attempts, duration_ms, result: Ok(()), delay_ms: None });
        if self.attempts > 1 {
            handler.update_retry_success_statistics();
        }
    }

    fn push_final(&mut self, detail: AttemptDetail)
        requires
            old(self).in_attempt(),
            detail.attempt_number == old(self).attempts(),
            detail.delay_ms is None,
        ensures
            final(self).attempts() == old(self).attempts(),
            final(self).details() == old(self).details().push(detail),
            final(self).ended(),
            final(self).retry_limits() == old(self).retry_limits(),
    {
        proof { use_type_invariant(&*self); }
        let mut taken = RetryRun::new();
        std::mem::swap(&mut taken, self);
        proof { use_type_invariant(&taken); }
        let RetryRun { attempts, attempt_details, ended: _, limits, pending } = taken;
        let mut details = attempt_details;
        details.push(detail);
        let ghost d = details@;
        assert forall|i: int| 0 <= i < d.len() - 1 implies (#[trigger] d[i]).result is Err && d[i].delay_ms is Some by {
            assert(d[i] == old(self).details()[i]);
        }
        assert(d.last() == detail);
        *self = RetryRun { attempts, attempt_details: details, ended: Ghost(true), limits, pending };
    }

    /// Records that the current attempt failed with `error`. When another
    /// attempt follows, returns the strategy whose wait the caller computes
    /// and records with [`RetryRun::record_retry`]; otherwise records the final
    /// failed attempt, which ends the run, counts a failed retry where it
    /// applies, and returns None.
    pub fn record_failure(
        &mut self,
        handler: &mut ComprehensiveErrorHandler,
        error: MigrationError,
        duration_ms: u64,
    ) -> (r: Option<RetryStrategy>)
        requires
            old(self).in_attempt(),
        ensures
            retry_follows(old(handler).strategy_for(error), error, old(self).attempts(), old(handler).retry_limit()) ==> (
                r == old(handler).strategy_for(error) && final(self).details() == old(self).details()
                && final(self).retry_decided() && final(self).pending_limit() == Some(old(handler).retry_limit())
                && final(handler).statistics() == old(handler).statistics()),
            !retry_follows(old(handler).strategy_for(error), error, old(self).attempts(), old(handler).retry_limit()) ==> (
                r is None && final(self).ended() && final(self).details() == old(self).details().push(
                    AttemptDetail { attempt_number: old(self).attempts(), duration_ms, result: Err(error), delay_ms: None },
                ) && final(handler).statistics().retry_failure_count == (if counts_as_failed_retry(
                    old(handler).strategy_for(error),
                    error,
                    old(self).attempts(),
                    old(handler).retry_limit(),
                ) {
                    bumped(old(handler).statistics().retry_failure_count)
                } else {
                    old(handler).statistics().retry_failure_count
                }) && final(handler).statistics().retry_success_count == old(handler).statistics().retry_success_count
                && final(handler).statistics().total_errors == old(handler).statistics().total_errors),
            final(self).attempts() == old(self).attempts(),
            final(self).retry_limits() == old(self).retry_limits(),
            final(handler).overrides() == old(handler).overrides(),
            final(handler).retry_limit() == old(handler).retry_limit(),
            final(handler).auto_recovery() == old(handler).auto_recovery(),
    {
        proof { use_type_invariant(&*self); }
        let strategy = handler.get_retry_strategy(&error);
        let limit = handler.max_retry_limit_value();
        let retryable = error.is_retryable();
        match strategy {
            Some(s) => {
                if retryable && self.attempts < limit {
                    if self.attempts < s.max_attempts {
                        self.pending = Ghost(Some(limit));
                        return Some(s);
                    }
                    self.push_final(
                        AttemptDetail { attempt_number: self.attempts, duration_ms, result: Err(error), delay_ms: None },
                    );
                    handler.update_retry_failure_statistics();
                    return None;
                }
            },
            None => {},
        }
        self.push_final(AttemptDetail { attempt_number: self.attempts, duration_ms, result: Err(error), delay_ms: None });
        if self.attempts > 1 {
            handler.update_retry_failure_statistics();
        }
        None
    }

    /// Records a failed attempt that another follows after `delay_ms`.
    pub fn record_retry(&mut self, error: MigrationError, duration_ms: u64, delay_ms: u64)
        requires
            old(self).retry_decided(),
        ensures
            final(self).retry_limits() == old(self).retry_limits().push(old(self).pending_limit()->Some_0),
            final(self).pending_limit() is None,
            final(self).attempts() == old(self).attempts(),
            final(self).details() == old(self).details().push(
                AttemptDetail { attempt_number: old(self).attempts(), duration_ms, result: Err(error), delay_ms: Some(delay_ms) },
            ),
            !final(self).ended(),
    {
        proof { use_type_invariant(&*self); }
        let mut taken = RetryRun::new();
        std::mem::swap(&mut taken, self);
        proof { use_type_invariant(&taken); }
        let RetryRun { attempts, attempt_details, ended, limits, pending } = taken;
        let ghost l = pending@->Some_0;
        let mut details = attempt_details;
        details.push(AttemptDetail { attempt_number: attempts, duration_ms, result: Err(error), delay_ms: Some(delay_ms) });
        let ghost d = details@;
        assert forall|i: int| 0 <= i < d.len() implies (#[trigger] d[i]).result is Err && d[i].delay_ms is Some by {
            if i < d.len() - 1 {
                assert(d[i] == old(self).details()[i]);
            }
        }
        *self = RetryRun { attempts, attempt_details: details, ended, limits: Ghost(limits@.push(l)), pending: Ghost(None) };
    }

    /// The outcome of an ended run, with its attempts: as many as were begun,
    /// numbered from 1, every one but the last a failure followed by a wait,
    /// and the outcome a success exactly when the last attempt succeeded.
    /// Each retry was under the handler's attempt limit then, so when that
    /// limit stayed the same the run made at most that many attempts.
    pub fn finish<T>(self, result: Result<T, MigrationError>, total_duration_ms: u64) -> (r: RetryResult<T>)
        requires
            self.ended(),
            (result is Ok) == (self.details().last().result is Ok),
        ensures
            r.result == result,
            r.attempts == self.attempts(),
            r.total_duration_ms == total_duration_ms,
            r.attempt_details@ == self.details(),
            r.attempts == r.attempt_details@.len(),
            completed_run(r.attempt_details@),
            (r.result is Ok) == (r.attempt_details@.last().result is Ok),
            self.retry_limits().len() == r.attempts - 1,
            forall|i: int| 0 <= i < self.retry_limits().len() ==> i + 1 < #[trigger] self.retry_limits()[i],
            forall|limit: usize| limit >= 1 && #[trigger] all_equal_to(self.retry_limits(), limit) ==> r.attempts <= limit,
    {
        proof {
            use_type_invariant(&self);
            assert forall|limit: usize| limit >= 1 && #[trigger] all_equal_to(self.retry_limits(), limit) implies self.attempts
                <= limit by {
                let ls = self.limits@;
                if ls.len() > 0 {
                    assert(ls[ls.len() - 1] == limit);
                    assert(ls.len() - 1 + 1 < ls[ls.len() - 1]);
                }
            }
        }
        RetryResult { result, attempts: self.attempts, total_duration_ms, attempt_details: self.attempt_details }
    }
}

} // verus!
