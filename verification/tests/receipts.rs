use std::path::PathBuf;

use expense_core::app_error::AppError;
use expense_core::receipts::cache::CacheManager;
use expense_core::receipts::files::{
    extract_path_from_url, generate_file_key, get_content_type, path_extension, receipt_format, validate_file_format,
    validate_file_size, ReceiptFormat,
};
use expense_core::receipts::models::{MultipleUploadResult, SingleUploadResult, TestStepResult};
use expense_core::receipts::user_path_manager::UserPathManager;

#[test]
fn test_convert_legacy_to_user_path() {
    let legacy_path = "receipts/123/timestamp-uuid-filename.pdf";
    let user_id = 456;

    let result = UserPathManager::convert_legacy_to_user_path(legacy_path, user_id);
    assert!(result.is_ok());

    let user_path = result.unwrap();
    assert_eq!(user_path, "users/456/receipts/123/timestamp-uuid-filename.pdf");
}

#[test]
fn test_convert_legacy_to_user_path_invalid() {
    let invalid_path = "invalid/path/file.pdf";
    let user_id = 456;

    let result = UserPathManager::convert_legacy_to_user_path(invalid_path, user_id);
    assert!(result.is_err());
}

#[test]
fn converted_path_keeps_filename_and_is_no_longer_legacy() {
    let legacy = "receipts/77/a-b-c.png";
    let moved = UserPathManager::convert_legacy_to_user_path(legacy, 5).unwrap();
    assert!(!UserPathManager::is_legacy_path(&moved));
    assert!(UserPathManager::is_user_path(&moved));
    assert_eq!(
        UserPathManager::extract_filename_from_path(&moved).unwrap(),
        UserPathManager::extract_filename_from_path(legacy).unwrap()
    );
    assert_eq!(UserPathManager::extract_user_id_from_path(&moved).unwrap(), 5);
    assert_eq!(UserPathManager::extract_expense_id_from_user_path(&moved).unwrap(), 77);
    match UserPathManager::convert_legacy_to_user_path("x/1/a.pdf", 5) {
        Err(AppError::Validation(m)) => assert_eq!(m, "無効なレガシーパス: x/1/a.pdf"),
        other => panic!("unexpected {other:?}"),
    }
}

#[test]
fn subscription_paths() {
    let moved = UserPathManager::convert_legacy_subscription_to_user_path("subscriptions/9/f.pdf", 3).unwrap();
    assert_eq!(moved, "users/3/subscriptions/9/f.pdf");
    assert!(UserPathManager::is_user_subscription_path(&moved));
    assert_eq!(UserPathManager::extract_subscription_id_from_user_path(&moved).unwrap(), 9);
    assert!(UserPathManager::is_legacy_subscription_path("subscriptions/9/f.pdf"));
    assert!(!UserPathManager::is_legacy_subscription_path("subscriptions/users/9/f.pdf"));
    assert!(UserPathManager::convert_legacy_subscription_to_user_path("receipts/9/f.pdf", 3).is_err());
}

#[test]
fn user_and_expense_ids() {
    assert_eq!(UserPathManager::extract_user_id_from_path("users/123/receipts/456/file.pdf").unwrap(), 123);
    assert!(UserPathManager::extract_user_id_from_path("receipts/123/file.pdf").is_err());
    assert_eq!(UserPathManager::extract_expense_id_from_legacy_path("receipts/789/file.pdf").unwrap(), 789);
    match UserPathManager::extract_user_id_from_path("users/99999999999999999999/receipts/1/f") {
        Err(AppError::Validation(m)) => assert_eq!(m, "ユーザーIDの解析に失敗"),
        other => panic!("unexpected {other:?}"),
    }
    match UserPathManager::extract_user_id_from_path("other") {
        Err(AppError::Validation(m)) => assert_eq!(m, "ユーザーパス形式が無効"),
        other => panic!("unexpected {other:?}"),
    }
}

#[test]
fn test_validate_user_access() {
    let user_id = 123;
    let valid_path = "users/123/receipts/456/file.pdf";
    let invalid_path = "users/456/receipts/789/file.pdf";

    let result = UserPathManager::validate_user_access(user_id, valid_path);
    assert!(result.is_ok());

    let result = UserPathManager::validate_user_access(user_id, invalid_path);
    assert!(result.is_err());
}

#[test]
fn refused_access_is_a_security_error() {
    match UserPathManager::validate_user_access(1, "users/2/receipts/3/f") {
        Err(AppError::Security(m)) => assert_eq!(m, "アクセス権限がありません"),
        other => panic!("unexpected {other:?}"),
    }
}

#[test]
fn test_is_legacy_path() {
    assert!(UserPathManager::is_legacy_path("receipts/123/file.pdf"));
    assert!(UserPathManager::is_legacy_path("receipts/456/timestamp-uuid-file.jpg"));

    assert!(!UserPathManager::is_legacy_path("users/123/receipts/456/file.pdf"));

    assert!(!UserPathManager::is_legacy_path("other/path/file.pdf"));

    assert!(!UserPathManager::is_legacy_path("receipts/users/123/file.pdf"));
}

#[test]
fn user_paths_are_recognised() {
    assert!(UserPathManager::is_user_path("users/123/receipts/456/file.pdf"));
    assert!(UserPathManager::is_user_path("users/789/receipts/012/timestamp-uuid-file.jpg"));
    assert!(!UserPathManager::is_user_path("receipts/123/file.pdf"));
    assert!(!UserPathManager::is_user_path("other/path/file.pdf"));
}

#[test]
fn test_extract_filename_from_path() {
    let user_path = "users/123/receipts/456/timestamp-uuid-file.pdf";
    let legacy_path = "receipts/789/timestamp-uuid-file.jpg";

    let result1 = UserPathManager::extract_filename_from_path(user_path);
    let result2 = UserPathManager::extract_filename_from_path(legacy_path);

    assert!(result1.is_ok());
    assert_eq!(result1.unwrap(), "timestamp-uuid-file.pdf");

    assert!(result2.is_ok());
    assert_eq!(result2.unwrap(), "timestamp-uuid-file.jpg");
}

#[test]
fn filename_edge_cases() {
    assert_eq!(UserPathManager::extract_filename_from_path("plain.txt").unwrap(), "plain.txt");
    assert!(UserPathManager::extract_filename_from_path("dir/").is_err());
    assert!(UserPathManager::extract_filename_from_path("").is_err());
}

#[test]
fn normalize_and_trim() {
    assert_eq!(UserPathManager::normalize_path("//users//123//receipts//456//file.pdf"), "users/123/receipts/456/file.pdf");
    assert_eq!(UserPathManager::normalize_path("/receipts/123/file.pdf/"), "receipts/123/file.pdf");
    assert_eq!(UserPathManager::trim_slashes("///"), "");
    assert_eq!(UserPathManager::trim_slashes("/a/b/"), "a/b");
}

#[test]
fn test_validate_admin_or_user_access() {
    let user_id = 123;
    let admin_user_id = 456;
    let path = "users/123/receipts/789/file.pdf";

    let result = UserPathManager::validate_admin_or_user_access(admin_user_id, true, path);
    assert!(result.is_ok());

    let result = UserPathManager::validate_admin_or_user_access(user_id, false, path);
    assert!(result.is_ok());

    let result = UserPathManager::validate_admin_or_user_access(admin_user_id, false, path);
    assert!(result.is_err());
}

#[test]
fn generated_paths_have_expected_shape() {
    let p = UserPathManager::generate_user_receipt_path(123, 456, "receipt.pdf");
    assert!(p.starts_with("users/123/receipts/456/"));
    assert!(p.ends_with("-receipt.pdf"));
    let q = UserPathManager::generate_user_receipt_path(123, 456, "receipt.pdf");
    assert_ne!(p, q);
    let s = UserPathManager::generate_user_subscription_path(1, 2, "s.png");
    assert!(s.starts_with("users/1/subscriptions/2/"));
    assert!(s.ends_with("-s.png"));
    assert_eq!(
        UserPathManager::user_file_path(1, "receipts", 2, 3, "id", "f.pdf"),
        "users/1/receipts/2/3-id-f.pdf"
    );
    let k = generate_file_key(42, "a.jpg");
    assert!(k.starts_with("receipts/42/"));
    assert!(k.ends_with("-a.jpg"));
}

#[test]
fn file_formats_and_sizes() {
    assert!(validate_file_format("receipt.PNG").is_ok());
    assert!(validate_file_format("receipt.jpeg").is_ok());
    assert!(validate_file_format("receipt.pdf").is_ok());
    match validate_file_format("receipt.gif") {
        Err(AppError::Validation(m)) => assert_eq!(m, "サポートされていないファイル形式です（PNG、JPG、JPEG、PDFのみ対応）"),
        other => panic!("unexpected {other:?}"),
    }
    match validate_file_format("receipt") {
        Err(AppError::Validation(m)) => assert_eq!(m, "ファイル拡張子が取得できません"),
        other => panic!("unexpected {other:?}"),
    }
    assert!(validate_file_size(10485760).is_ok());
    assert!(validate_file_size(10485761).is_err());
    assert_eq!(receipt_format("x.JpG"), Some(ReceiptFormat::Jpeg));
    assert_eq!(path_extension("a/b.tar.gz"), Some("gz".to_string()));
    assert_eq!(path_extension(".hidden"), None);
    assert_eq!(path_extension("a.b/c"), None);
    assert_eq!(get_content_type("x.png"), "image/png");
    assert_eq!(get_content_type("x.pdf"), "application/pdf");
    assert_eq!(get_content_type("x.txt"), "application/octet-stream");
}

#[test]
fn paths_in_urls() {
    assert_eq!(extract_path_from_url("https://h/users/1/receipts/2/f").unwrap(), "users/1/receipts/2/f");
    assert_eq!(extract_path_from_url("https://h/receipts/2/f").unwrap(), "receipts/2/f");
    assert!(extract_path_from_url("https://h/other").is_err());
}

#[test]
fn cache_names_and_limits() {
    let cache = CacheManager::new(PathBuf::from("/tmp/c"), 100);
    assert_eq!(cache.max_cache_size, 100 * 1024 * 1024);
    assert_eq!(cache.max_age_days(), 7);
    assert!(cache.exceeds_limit(100 * 1024 * 1024 + 1));
    assert!(!cache.exceeds_limit(100 * 1024 * 1024));
    assert_eq!(CacheManager::cache_extension("https://x/a.pdf"), "pdf");
    assert_eq!(CacheManager::cache_extension("https://x/a.jpeg"), "jpg");
    assert_eq!(CacheManager::cache_extension("https://x/a"), "bin");
    let n = cache.generate_cache_filename("https://x/a.png");
    assert!(n.starts_with("receipt_"));
    assert!(n.ends_with(".png"));
    assert_eq!(n, cache.generate_cache_filename("https://x/a.png"));
    assert_ne!(n, cache.generate_cache_filename("https://x/b.png"));
}

#[test]
fn upload_results_are_counted() {
    let one = |ok: bool| SingleUploadResult {
        expense_id: 1,
        success: ok,
        url: None,
        error: None,
        file_size: 0,
        duration_ms: 0,
    };
    let r = MultipleUploadResult::from_results(vec![one(true), one(false), one(true)], 9);
    assert_eq!(r.total_files, 3);
    assert_eq!(r.successful_uploads, 2);
    assert_eq!(r.failed_uploads, 1);
    let step = TestStepResult::default();
    assert!(!step.success);
    assert_eq!(step.message, "未実行");
}

#[test]
fn test_file_key_generation() {
    let expense_id = 123;
    let filename = "receipt.pdf";

    let key1 = generate_file_key(expense_id, filename);
    let key2 = generate_file_key(expense_id, filename);

    assert_ne!(key1, key2);

    assert!(key1.starts_with("receipts/123/"));
    assert!(key1.ends_with("-receipt.pdf"));
}

#[test]
fn test_file_key_format() {
    let expense_id = 456;
    let filename = "test.jpg";

    let key = generate_file_key(expense_id, filename);

    let parts: Vec<&str> = key.split('/').collect();
    assert_eq!(parts.len(), 3);
    assert_eq!(parts[0], "receipts");
    assert_eq!(parts[1], "456");

    let file_part = parts[2];
    assert!(file_part.contains("test.jpg"));
}

#[test]
fn test_file_format_validation() {
    assert!(validate_file_format("test.pdf").is_ok());
    assert!(validate_file_format("test.png").is_ok());
    assert!(validate_file_format("test.jpg").is_ok());
    assert!(validate_file_format("test.jpeg").is_ok());

    assert!(validate_file_format("test.txt").is_err());
    assert!(validate_file_format("test.doc").is_err());
    assert!(validate_file_format("test").is_err());
}

#[test]
fn test_file_size_validation() {
    assert!(validate_file_size(1024).is_ok());
    assert!(validate_file_size(1024 * 1024).is_ok());
    assert!(validate_file_size(10 * 1024 * 1024).is_ok());

    assert!(validate_file_size(10 * 1024 * 1024 + 1).is_err());
    assert!(validate_file_size(20 * 1024 * 1024).is_err());
}

#[test]
fn test_content_type_detection() {
    assert_eq!(get_content_type("test.pdf"), "application/pdf");
    assert_eq!(get_content_type("test.png"), "image/png");
    assert_eq!(get_content_type("test.jpg"), "image/jpeg");
    assert_eq!(get_content_type("test.jpeg"), "image/jpeg");
    assert_eq!(get_content_type("test.unknown"), "application/octet-stream");
}

#[test]
fn test_generate_user_receipt_path() {
    let user_id = 123;
    let expense_id = 456;
    let filename = "receipt.pdf";

    let path1 = UserPathManager::generate_user_receipt_path(user_id, expense_id, filename);
    let path2 = UserPathManager::generate_user_receipt_path(user_id, expense_id, filename);

    assert_ne!(path1, path2);

    assert!(path1.starts_with("users/123/receipts/456/"));
    assert!(path1.ends_with("-receipt.pdf"));
}

#[test]
fn test_extract_user_id_from_path() {
    let path = "users/123/receipts/456/file.pdf";
    let result = UserPathManager::extract_user_id_from_path(path);

    assert!(result.is_ok());
    assert_eq!(result.unwrap(), 123);
}

#[test]
fn test_extract_user_id_from_path_invalid() {
    let invalid_path = "receipts/123/file.pdf";
    let result = UserPathManager::extract_user_id_from_path(invalid_path);

    assert!(result.is_err());
}

#[test]
fn test_is_user_path() {
    assert!(UserPathManager::is_user_path("users/123/receipts/456/file.pdf"));
    assert!(UserPathManager::is_user_path("users/789/receipts/012/timestamp-uuid-file.jpg"));

    assert!(!UserPathManager::is_user_path("receipts/123/file.pdf"));

    assert!(!UserPathManager::is_user_path("other/path/file.pdf"));
}

#[test]
fn test_extract_expense_id_from_user_path() {
    let path = "users/123/receipts/456/file.pdf";
    let result = UserPathManager::extract_expense_id_from_user_path(path);

    assert!(result.is_ok());
    assert_eq!(result.unwrap(), 456);
}

#[test]
fn test_extract_expense_id_from_legacy_path() {
    let path = "receipts/789/file.pdf";
    let result = UserPathManager::extract_expense_id_from_legacy_path(path);

    assert!(result.is_ok());
    assert_eq!(result.unwrap(), 789);
}

#[test]
fn test_normalize_path() {
    assert_eq!(
        UserPathManager::normalize_path("//users//123//receipts//456//file.pdf"),
        "users/123/receipts/456/file.pdf"
    );

    assert_eq!(UserPathManager::normalize_path("/receipts/123/file.pdf/"), "receipts/123/file.pdf");
}

#[test]
fn test_cache_filename_generation() {
    let cache_manager = CacheManager::new(PathBuf::from("/tmp/receipt-cache"), 100);

    let url1 = "https://example.com/receipt1.pdf";
    let url2 = "https://example.com/receipt2.jpg";

    let filename1 = cache_manager.generate_cache_filename(url1);
    let filename2 = cache_manager.generate_cache_filename(url2);

    assert_ne!(filename1, filename2);

    assert!(filename1.ends_with(".pdf"));
    assert!(filename2.ends_with(".jpg"));

    let filename1_again = cache_manager.generate_cache_filename(url1);
    assert_eq!(filename1, filename1_again);
}
