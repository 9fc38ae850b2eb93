use expense_core::app_error::{severity_priority, AppError, ErrorSeverity};
use expense_core::checksum::{calculate_bytes_checksum, calculate_text_checksum, to_hex_lower};
use expense_core::connection_cache::{cache_valid_at, R2ConnectionCache};
use expense_core::migrations::error_handler::{
    attempt_auto_recovery, handle_migration_error_sync, ComprehensiveErrorHandler, ErrorHandlingResult, RetryRun,
};
use expense_core::migrations::errors::{MigrationError, RetryStrategy};
use expense_core::subscriptions::{is_blank, validate_date_format, validate_subscription_form, AmountCheck};
use expense_core::text::{
    i64_to_decimal, parse_i64, same_text, starts_with, text_before_char, text_contains, text_find, text_replace,
    u64_to_decimal,
};

#[test]
fn decimal_rendering() {
    assert_eq!(u64_to_decimal(0), "0");
    assert_eq!(u64_to_decimal(18446744073709551615), "18446744073709551615");
    assert_eq!(i64_to_decimal(-42), "-42");
    assert_eq!(i64_to_decimal(i64::MIN), "-9223372036854775808");
}

#[test]
fn parsing_follows_std() {
    for s in ["0", "+12", "-12", "9223372036854775807", "-9223372036854775808", "", "-", "+", "1a", " 1", "9223372036854775808"] {
        assert_eq!(parse_i64(s), s.parse::<i64>().ok(), "input {s:?}");
    }
}

#[test]
fn text_searches_follow_std() {
    let cases = [("abcabc", "bc", "X"), ("aaaa", "aa", "b"), ("", "", "z"), ("abc", "", "-"), ("abc", "d", "e")];
    for (t, p, r) in cases {
        assert_eq!(text_find(t, p), t.find(p), "find {t:?} {p:?}");
        assert_eq!(text_contains(t, p), t.contains(p));
        assert_eq!(text_replace(t, p, r), t.replace(p, r), "replace {t:?} {p:?}");
    }
    assert!(starts_with("receipts/1", "receipts/"));
    assert!(!starts_with("rec", "receipts/"));
    assert!(same_text("a", "a"));
    assert!(!same_text("a", "b"));
    assert_eq!(text_before_char("12/x", '/'), "12");
    assert_eq!(text_before_char("12", '/'), "12");
}

#[test]
fn checksums_are_lower_hex_sha256() {
    assert_eq!(to_hex_lower(&[0x00, 0xab, 0xff]), "00abff");
    assert_eq!(calculate_text_checksum("abc"), "ba7816bf8f01cfea414140de5dae2223b00361a396177a9cb410ff61f20015ad");
    assert_eq!(calculate_bytes_checksum(b""), "e3b0c44298fc1c149afbf4c8996fb92427ae41e4649b934ca495991b7852b855");
}

#[test]
fn date_format_checks() {
    assert_eq!(validate_date_format("2024-02-29"), Ok(()));
    assert_eq!(validate_date_format("2024/02/29"), Err("日付はYYYY-MM-DD形式で入力してください".to_string()));
    assert_eq!(validate_date_format("2024-2-291"), Err("日付はYYYY-MM-DD形式で入力してください".to_string()));
    assert_eq!(validate_date_format("2024-1-010"), Err("日付はYYYY-MM-DD形式で入力してください".to_string()));
    assert_eq!(validate_date_format("abcd-02-01"), Err("年は数値で入力してください".to_string()));
    assert_eq!(validate_date_format("2024-ab-01"), Err("月は数値で入力してください".to_string()));
    assert_eq!(validate_date_format("2024-01-xx"), Err("日は数値で入力してください".to_string()));
    assert_eq!(validate_date_format("1899-01-01"), Err("年は1900年から2100年の間で入力してください".to_string()));
    assert_eq!(validate_date_format("2024-13-01"), Err("月は1から12の間で入力してください".to_string()));
    assert_eq!(validate_date_format("2024-12-32"), Err("日は1から31の間で入力してください".to_string()));
    assert_eq!(validate_date_format("2024--1-01"), Err("日付はYYYY-MM-DD形式で入力してください".to_string()));
    assert_eq!(validate_date_format("2024-+1-01"), Err("月は数値で入力してください".to_string()));
    assert_eq!(validate_date_format("+024-01-01"), Err("年は数値で入力してください".to_string()));
}

#[test]
fn severity_ranks() {
    assert!(severity_priority(ErrorSeverity::Low) < severity_priority(ErrorSeverity::Medium));
    assert!(severity_priority(ErrorSeverity::High) < severity_priority(ErrorSeverity::Critical));
    assert_eq!(AppError::validation("x").message(), "x");
    assert!(matches!(AppError::security("y"), AppError::Security(m) if m == "y"));
}

#[test]
fn connection_cache_reuses_fresh_result() {
    let mut cache = R2ConnectionCache::new();
    assert!(!cache.is_cache_valid());
    assert_eq!(cache.get_cached_result(), None);
    cache.update_cache(true);
    assert!(cache.is_cache_valid());
    assert_eq!(cache.get_cached_result(), Some(true));
    assert_eq!(cache.cache_duration, 300);
    assert_eq!(cache.cached_result_after(299), Some(true));
    assert_eq!(cache.cached_result_after(300), None);
    assert!(cache.is_valid_after(0));
    assert!(!cache.is_valid_after(300));
    assert!(cache_valid_at(1, 2));
    assert!(!cache_valid_at(2, 2));
    let empty = R2ConnectionCache::new();
    assert_eq!(empty.cached_result_after(0), None);
}

fn r2_error(operation: &str) -> MigrationError {
    MigrationError::R2Operation {
        message: "R2エラー".to_string(),
        operation: operation.to_string(),
        bucket: "b".to_string(),
        key: "k".to_string(),
        status_code: None,
    }
}

#[test]
fn basic_handling_decisions() {
    let permission = MigrationError::Permission {
        message: "m".to_string(),
        user_id: 1,
        required_permission: "p".to_string(),
        resource: "r".to_string(),
    };
    assert!(matches!(handle_migration_error_sync(&permission, None, None, None),
        ErrorHandlingResult::Abort { reason } if reason == "権限エラー: m"));
    assert!(matches!(handle_migration_error_sync(&r2_error("upload"), Some(1), Some(2), Some("c")),
        ErrorHandlingResult::Retry { attempt: 1, delay_ms: 1000 }));
    let batch = MigrationError::BatchProcessing { message: "b".to_string(), batch_index: 0, total_batches: 1, failed_items: vec![] };
    assert!(matches!(handle_migration_error_sync(&batch, None, None, None),
        ErrorHandlingResult::Skip { reason } if reason == "リトライ戦略が定義されていません"));
}

#[test]
fn automatic_recovery_rules() {
    let memory = MigrationError::ResourceExhaustion {
        message: "m".to_string(),
        resource_type: "memory".to_string(),
        current_usage: 1,
        limit: 1,
    };
    assert!(matches!(attempt_auto_recovery(&memory), Some(ErrorHandlingResult::Pause { reason }) if reason == "メモリ不足のため一時停止"));
    assert!(matches!(attempt_auto_recovery(&r2_error("list")), Some(ErrorHandlingResult::Retry { attempt: 1, delay_ms: 500 })));
    assert!(attempt_auto_recovery(&r2_error("delete")).is_none());
    let db = MigrationError::DatabaseUpdate { message: "d".to_string(), table_name: "t".to_string(), operation: "o".to_string(), affected_rows: None };
    assert!(matches!(attempt_auto_recovery(&db), Some(ErrorHandlingResult::Retry { attempt: 1, delay_ms: 200 })));
}

#[test]
fn comprehensive_handler_counts_and_decides() {
    let mut handler = ComprehensiveErrorHandler::new();
    let result = handler.handle_error(&r2_error("upload"), None, None, None);
    assert!(matches!(result, ErrorHandlingResult::Retry { attempt: 1, delay_ms: 1000 }));
    handler.set_auto_recovery_enabled(false);
    handler.override_retry_strategy(
        "MIG_R2_OP",
        RetryStrategy { max_attempts: 7, initial_delay_ms: 42, backoff_multiplier_tenths: 10, max_delay_ms: 100 },
    );
    let result = handler.handle_error(&r2_error("delete"), None, None, None);
    assert!(matches!(result, ErrorHandlingResult::Retry { attempt: 1, delay_ms: 42 }));
    let stats = handler.get_error_statistics();
    assert_eq!(stats.total_errors, 2);
    assert_eq!(stats.auto_recovery_success_count, 1);
    assert_eq!(stats.auto_recovery_failure_count, 0);
    assert_eq!(stats.severity_counts, vec![("Medium".to_string(), 2)]);
    assert_eq!(stats.error_type_counts.len(), 2);
    assert!(stats.error_type_counts.iter().all(|(k, n)| k.starts_with("R2Operation") && *n == 1));
    handler.clear_error_statistics();
    assert_eq!(handler.get_error_statistics().total_errors, 0);
}

#[test]
fn retry_run_records_attempts() {
    let mut handler = ComprehensiveErrorHandler::new();
    handler.set_max_retry_limit(10);
    assert_eq!(handler.max_retry_limit_value(), 10);
    let mut run = RetryRun::new();
    assert_eq!(run.begin_attempt(), 1);
    let strategy = run.record_failure(&mut handler, r2_error("upload"), 5);
    assert_eq!(strategy.map(|s| s.max_attempts), Some(3));
    run.record_retry(r2_error("upload"), 5, 1000);
    assert_eq!(run.begin_attempt(), 2);
    run.record_success(&mut handler, 3);
    let result = run.finish::<u32>(Ok(9), 1010);
    assert_eq!(result.attempts, 2);
    assert_eq!(result.attempt_details.len(), 2);
    assert_eq!(result.attempt_details[0].delay_ms, Some(1000));
    assert!(result.attempt_details[1].result.is_ok());
    assert_eq!(handler.get_error_statistics().retry_success_count, 1);

    let mut failing = RetryRun::new();
    failing.begin_attempt();
    let not_retryable = MigrationError::PreValidation { message: "p".to_string(), details: "d".to_string() };
    assert!(failing.record_failure(&mut handler, not_retryable, 1).is_none());
    let result = failing.finish::<()>(Err(MigrationError::PreValidation { message: "p".to_string(), details: "d".to_string() }), 1);
    assert_eq!(result.attempts, 1);
    assert_eq!(result.attempt_details.len(), 1);
    assert_eq!(handler.get_error_statistics().retry_failure_count, 0);
}

#[test]
fn test_error_statistics() {
    let mut handler = ComprehensiveErrorHandler::new();

    let error1 = MigrationError::R2Operation {
        message: "エラー1".to_string(),
        operation: "upload".to_string(),
        bucket: "test".to_string(),
        key: "test".to_string(),
        status_code: Some(500),
    };

    let error2 = MigrationError::Permission {
        message: "エラー2".to_string(),
        user_id: 123,
        required_permission: "admin".to_string(),
        resource: "test".to_string(),
    };

    handler.update_error_statistics(&error1);
    handler.update_error_statistics(&error2);
    handler.update_retry_success_statistics();

    let stats = handler.get_error_statistics();
    assert_eq!(stats.total_errors, 2);
    assert_eq!(stats.retry_success_count, 1);
    assert!(!stats.error_type_counts.is_empty());
    assert!(!stats.severity_counts.is_empty());
    assert_eq!(stats.severity_counts, vec![("Medium".to_string(), 1), ("Critical".to_string(), 1)]);
}

#[test]
fn test_retry_strategy_override() {
    let mut handler = ComprehensiveErrorHandler::new();

    let custom_strategy =
        RetryStrategy { max_attempts: 10, initial_delay_ms: 100, backoff_multiplier_tenths: 15, max_delay_ms: 5000 };

    handler.override_retry_strategy("MIG_R2_OP", custom_strategy);

    let error = MigrationError::R2Operation {
        message: "テストエラー".to_string(),
        operation: "upload".to_string(),
        bucket: "test".to_string(),
        key: "test".to_string(),
        status_code: Some(500),
    };

    let strategy = handler.get_retry_strategy(&error);
    assert!(strategy.is_some());

    let strategy = strategy.unwrap();
    assert_eq!(strategy.max_attempts, 10);
    assert_eq!(strategy.initial_delay_ms, 100);
}

#[test]
fn subscription_form_checks_in_order() {
    let ok = validate_subscription_form(Some("Netflix"), Some(AmountCheck::Valid), Some("monthly"), Some("2024-01-01"));
    assert_eq!(ok, Ok(()));
    assert_eq!(
        validate_subscription_form(Some(" \t\u{3000}"), Some(AmountCheck::NotPositive), Some("weekly"), None),
        Err("サービス名を入力してください".to_string())
    );
    assert_eq!(validate_subscription_form(Some(&"あ".repeat(40)), Some(AmountCheck::Valid), Some("monthly"), Some("2024-01-01")), Ok(()));
    assert_eq!(validate_subscription_form(Some(&"あ".repeat(100)), None, None, None), Ok(()));
    assert_eq!(
        validate_subscription_form(Some(&"あ".repeat(101)), None, None, None),
        Err("サービス名は100文字以内で入力してください".to_string())
    );
    assert_eq!(validate_subscription_form(Some(&"a".repeat(100)), None, None, None), Ok(()));
    assert_eq!(
        validate_subscription_form(Some("x"), Some(AmountCheck::NotPositive), Some("weekly"), None),
        Err("金額は正の数値である必要があります".to_string())
    );
    assert_eq!(
        validate_subscription_form(None, Some(AmountCheck::TooLarge), None, None),
        Err("金額は10桁以内で入力してください".to_string())
    );
    assert_eq!(
        validate_subscription_form(None, None, Some("weekly"), Some("bad")),
        Err("支払いサイクルは'monthly'または'annual'である必要があります".to_string())
    );
    assert_eq!(
        validate_subscription_form(None, None, Some("annual"), Some("2024-13-01")),
        Err("月は1から12の間で入力してください".to_string())
    );
    assert_eq!(validate_subscription_form(None, None, None, None), Ok(()));
    assert!(is_blank(""));
    assert!(is_blank(" \n\u{a0}"));
    assert!(!is_blank(" a "));
}

fn drive_retry_run(handler: &mut ComprehensiveErrorHandler, outcomes: Vec<Result<&'static str, MigrationError>>) -> (usize, usize, bool) {
    let mut run = RetryRun::new();
    for outcome in outcomes {
        run.begin_attempt();
        match outcome {
            Ok(v) => {
                run.record_success(handler, 1);
                let r = run.finish(Ok(v), 10);
                return (r.attempts, r.attempt_details.len(), r.result.is_ok());
            }
            Err(e) => match run.record_failure(handler, e.clone(), 1) {
                None => {
                    let r = run.finish::<&str>(Err(e), 10);
                    return (r.attempts, r.attempt_details.len(), r.result.is_ok());
                }
                Some(_) => run.record_retry(e, 1, 0),
            },
        }
    }
    panic!("the run did not end");
}

#[test]
fn retry_run_succeeds_on_third_attempt() {
    let mut handler = ComprehensiveErrorHandler::new();
    let transient = || MigrationError::R2Operation {
        message: "一時的エラー".to_string(),
        operation: "upload".to_string(),
        bucket: "test".to_string(),
        key: "test".to_string(),
        status_code: Some(500),
    };
    let (attempts, details, ok) = drive_retry_run(&mut handler, vec![Err(transient()), Err(transient()), Ok("成功")]);
    assert!(ok);
    assert_eq!(attempts, 3);
    assert_eq!(details, 3);
    assert_eq!(handler.get_error_statistics().retry_success_count, 1);
}

#[test]
fn retry_run_stops_at_permission_error() {
    let mut handler = ComprehensiveErrorHandler::new();
    let denied = MigrationError::Permission {
        message: "権限なし".to_string(),
        user_id: 123,
        required_permission: "admin".to_string(),
        resource: "test".to_string(),
    };
    let (attempts, details, ok) = drive_retry_run(&mut handler, vec![Err(denied)]);
    assert!(!ok);
    assert_eq!(attempts, 1);
    assert_eq!(details, 1);
}

#[test]
fn retry_run_makes_at_most_max_attempts() {
    let mut handler = ComprehensiveErrorHandler::new();
    let transient = || MigrationError::R2Operation {
        message: "一時的エラー".to_string(),
        operation: "upload".to_string(),
        bucket: "test".to_string(),
        key: "test".to_string(),
        status_code: Some(500),
    };
    let (attempts, details, ok) =
        drive_retry_run(&mut handler, vec![Err(transient()), Err(transient()), Err(transient()), Ok("never")]);
    assert!(!ok);
    assert_eq!(attempts, 3);
    assert_eq!(details, 3);
    assert_eq!(handler.get_error_statistics().retry_failure_count, 1);
}

#[test]
fn retry_run_stays_within_handler_limit() {
    let mut handler = ComprehensiveErrorHandler::new();
    handler.set_max_retry_limit(2);
    let transient = || r2_error("upload");
    let (attempts, details, ok) = drive_retry_run(&mut handler, vec![Err(transient()), Err(transient()), Err(transient()), Ok("never")]);
    assert!(!ok);
    assert_eq!(attempts, 2);
    assert_eq!(details, 2);
}
