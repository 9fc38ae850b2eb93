//! Records of the receipt feature: cached files, uploads and their
//! progress, and the results of storage connection tests.
use vstd::prelude::*;
use vstd::string::*;

verus! {

/// A receipt file kept in the local cache.
#[derive(Debug, Clone)]
pub struct ReceiptCache {
    pub id: i64,
    pub receipt_url: String,
    pub local_path: String,
    pub cached_at: String,
    pub file_size: i64,
    pub last_accessed: String,
}

/// A file to upload for an expense.
#[derive(Debug, Clone)]
pub struct MultipleFileUploadInput {
    pub expense_id: i64,
    pub file_path: String,
}

/// The outcome of uploading one file of several.
#[derive(Debug, Clone)]
pub struct SingleUploadResult {
    pub expense_id: i64,
    pub success: bool,
    pub url: Option<String>,
    pub error: Option<String>,
    pub file_size: u64,
    pub duration_ms: u64,
}

/// The outcome of uploading several files.
#[derive(Debug, Clone)]
pub struct MultipleUploadResult {
    pub total_files: usize,
    pub successful_uploads: usize,
    pub failed_uploads: usize,
    pub results: Vec<SingleUploadResult>,
    pub total_duration_ms: u64,
}

impl MultipleUploadResult {
    /// The outcome of several uploads: the counts follow from the results.
    pub fn from_results(results: Vec<SingleUploadResult>, total_duration_ms: u64) -> (r: Self)
        ensures
            r.total_files == results@.len(),
            r.successful_uploads == successes(results@),
            r.successful_uploads + r.failed_uploads == r.total_files,
            r.results == results,
            r.total_duration_ms == total_duration_ms,
    {
        let mut ok: usize = 0;
        let mut i: usize = 0;
        while i < results.len()
            invariant
                i <= results@.len(),
                ok == successes(results@.subrange(0, i as int)),
                ok <= i,
            decreases results@.len() - i,
        {
            assert(results@.subrange(0, i as int + 1).drop_last() =~= results@.subrange(0, i as int));
            if results[i].success {
                ok = ok + 1;
            }
            i = i + 1;
        }
        assert(results@.subrange(0, i as int) =~= results@);
        let n = results.len();
        MultipleUploadResult { total_files: n, successful_uploads: ok, failed_uploads: n - ok, results, total_duration_ms }
    }
}

/// How many uploads succeeded.
pub open spec fn successes(rs: Seq<SingleUploadResult>) -> nat
    decreases rs.len(),
{
    if rs.len() == 0 {
        0
    } else {
        successes(rs.drop_last()) + if rs.last().success { 1nat } else { 0nat }
    }
}

/// The outcome of one step of a storage connection test.
#[derive(Debug, Clone)]
pub struct TestStepResult {
    pub success: bool,
    pub message: String,
    pub duration_ms: u64,
    pub details: Option<String>,
}

impl Default for TestStepResult {
    /// A step that has not run.
    fn default() -> (r: Self)
        ensures
            !r.success,
            r.message@ == "未実行"@,
            r.duration_ms == 0,
            r.details is None,
    {
        TestStepResult { success: false, message: String::from_str("未実行"), duration_ms: 0, details: None }
    }
}

/// Measured performance of the storage.
#[derive(Debug, Clone)]
pub struct PerformanceStats {
    pub latency_ms: u64,
    pub throughput_bps: u64,
    pub connection_status: String,
    pub last_measured: String,
}

/// The outcome of a full storage connection test.
#[derive(Debug, Clone)]
pub struct R2ConnectionTestResult {
    pub overall_success: bool,
    pub config_validation: TestStepResult,
    pub client_initialization: TestStepResult,
    pub bucket_access: TestStepResult,
    pub upload_test: TestStepResult,
    pub download_test: TestStepResult,
    pub delete_test: TestStepResult,
    pub performance_metrics: Option<PerformanceStats>,
    pub total_duration_ms: u64,
    pub environment: String,
}

/// Diagnostic information about the storage client, as (name, value) pairs.
#[derive(Debug, Clone)]
pub struct R2DebugInfo {
    pub environment_variables: Vec<(String, String)>,
    pub r2_config: Option<Vec<(String, String)>>,
    pub system_info: Vec<(String, String)>,
    pub database_stats: Vec<(String, String)>,
    pub recent_errors: Vec<String>,
    pub timestamp: String,
}

/// Where an upload stands.
#[derive(Debug, Clone, Copy, PartialEq, Eq, Structural)]
pub enum UploadStatus {
    Started,
    Completed,
    Failed,
}

/// The progress of one upload of several.
#[derive(Debug, Clone)]
pub struct UploadProgress {
    pub file_index: usize,
    pub file_key: String,
    pub status: UploadStatus,
    pub bytes_uploaded: u64,
    pub total_bytes: u64,
    pub speed_bps: u64,
}

/// The outcome of one upload.
#[derive(Debug)]
pub struct UploadResult {
    pub file_key: String,
    pub success: bool,
    pub url: Option<String>,
    pub error: Option<String>,
    pub file_size: u64,
    pub duration: std::time::Duration,
}

/// A file to upload with its content.
#[derive(Debug, Clone)]
pub struct MultipleFileUpload {
    pub file_key: String,
    pub file_data: Vec<u8>,
    pub content_type: String,
    pub expense_id: i64,
}

} // verus!
