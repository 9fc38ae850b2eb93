//! The batch processing of the move of stored files into per-user
//! directories: the control state (concurrency, pause, stop), the split into
//! batches and the tally of their results, and the decisions taken for each
//! file (the database requests, the integrity check of the copy, the receipt
//! URL to write).
use vstd::prelude::*;
use vstd::string::*;
use crate::app_error::{AppError, AppErrorKind, AppResult, app_result_view};
use crate::checksum::{bytes_checksum, calculate_bytes_checksum};
use crate::migrations::errors::MigrationError;
use crate::text::{before_char, find_from, i64_to_decimal, int_decimal, parse_i64, parsed_i64, replaced_from, text_before_char,
    text_contains, text_find, text_replace, chars_of, collect_chars, has_prefix, starts_with};

verus! {

/// A file to move: from `old_path` to `new_path`, owned by `user_id`.
#[derive(Debug, Clone)]
pub struct MigrationItem {
    pub old_path: String,
    pub new_path: String,
    pub user_id: i64,
    pub file_size: u64,
    /// Last change, in seconds since the Unix epoch.
    pub last_modified: i64,
}

/// A stored file as the storage lists it.
#[derive(Debug, Clone)]
pub struct R2FileInfo {
    pub key: String,
    pub size: u64,
    /// Last change, in seconds since the Unix epoch.
    pub last_modified: i64,
}

/// The outcome of a migration run.
#[derive(Debug)]
pub struct MigrationResult {
    pub total_items: usize,
    pub success_count: usize,
    pub error_count: usize,
    pub errors: Vec<String>,
    pub duration_ms: u64,
}

impl MigrationResult {
    /// The outcome of a dry run over `total_items` files: nothing moved, nothing failed.
    pub fn dry_run_success(total_items: usize) -> (r: Self)
        ensures
            r.total_items == total_items,
            r.success_count == 0,
            r.error_count == 0,
            r.errors@.len() == 0,
            r.duration_ms == 0,
    {
        MigrationResult { total_items, success_count: 0, error_count: 0, errors: Vec::new(), duration_ms: 0 }
    }
}

/// The control state of the batch processor, as reported.
#[derive(Debug, Clone, Copy, PartialEq, Eq)]
pub struct BatchProcessorStats {
    pub max_concurrency: usize,
    pub available_permits: usize,
    pub is_paused: bool,
    pub is_cancelled: bool,
}

/// How many files are moved at once when nothing else is asked.
pub const DEFAULT_MAX_CONCURRENCY: usize = 5;

/// The control state of the batch processor: how many files may move at
/// once, and whether the run is paused or stopped. The permits themselves are
/// held by the caller's semaphore.
pub struct BatchProcessor {
    max_concurrency: usize,
    paused: bool,
    cancelled: bool,
}

impl BatchProcessor {
    pub closed spec fn concurrency(&self) -> usize {
        self.max_concurrency
    }

    pub closed spec fn paused_spec(&self) -> bool {
        self.paused
    }

    pub closed spec fn cancelled_spec(&self) -> bool {
        self.cancelled
    }

    /// A running processor that moves `max_concurrency` files at once (five
    /// when not given).
    pub fn new(max_concurrency: Option<usize>) -> (r: Self)
        ensures
            r.concurrency() == match max_concurrency {
                Some(n) => n,
                None => DEFAULT_MAX_CONCURRENCY,
            },
            !r.paused_spec(),
            !r.cancelled_spec(),
    {
        let n = match max_concurrency {
            Some(n) => n,
            None => DEFAULT_MAX_CONCURRENCY,
        };
        BatchProcessor { max_concurrency: n, paused: false, cancelled: false }
    }

    pub fn pause(&mut self)
        ensures
            final(self).paused_spec(),
            final(self).cancelled_spec() == old(self).cancelled_spec(),
            final(self).concurrency() == old(self).concurrency(),
    {
        self.paused = true;
    }

    pub fn resume(&mut self)
        ensures
            !final(self).paused_spec(),
            final(self).cancelled_spec() == old(self).cancelled_spec(),
            final(self).concurrency() == old(self).concurrency(),
    {
        self.paused = false;
    }

    /// Stops the run for good: no later call clears it.
    pub fn stop(&mut self)
        ensures
            final(self).cancelled_spec(),
            final(self).paused_spec() == old(self).paused_spec(),
            final(self).concurrency() == old(self).concurrency(),
    {
        self.cancelled = true;
    }

    pub fn is_paused(&self) -> (r: bool)
        ensures
            r == self.paused_spec(),
    {
        self.paused
    }

    pub fn is_cancelled(&self) -> (r: bool)
        ensures
            r == self.cancelled_spec(),
    {
        self.cancelled
    }

    /// Sets how many files move at once; zero is refused. The caller makes a
    /// new semaphore when the number changed.
    pub fn adjust_concurrency(&mut self, new_concurrency: usize) -> (r: AppResult<()>)
        ensures
            new_concurrency == 0 ==> app_result_view(r) == Err::<(), (AppErrorKind, Seq<char>)>(
                (AppErrorKind::Validation, "並列数は1以上である必要があります"@),
            ) && final(self).concurrency() == old(self).concurrency(),
            new_concurrency > 0 ==> r is Ok && final(self).concurrency() == new_concurrency,
            final(self).paused_spec() == old(self).paused_spec(),
            final(self).cancelled_spec() == old(self).cancelled_spec(),
    {
        if new_concurrency == 0 {
            return Err(AppError::Validation(String::from_str("並列数は1以上である必要があります")));
        }
        if new_concurrency != self.max_concurrency {
            self.max_concurrency = new_concurrency;
        }
        Ok(())
    }

    /// The control state, with the permits that the semaphore has free.
    pub fn get_performance_stats(&self, available_permits: usize) -> (r: BatchProcessorStats)
        ensures
            r == (BatchProcessorStats {
                max_concurrency: self.concurrency(),
                available_permits,
                is_paused: self.paused_spec(),
                is_cancelled: self.cancelled_spec(),
            }),
    {
        BatchProcessorStats {
            max_concurrency: self.max_concurrency,
            available_permits,
            is_paused: self.paused,
            is_cancelled: self.cancelled,
        }
    }
}

/// The expense id in a receipt path: the number after a leading `receipts/`,
/// or else after the first `/receipts/`, up to the next '/' (or to the end).
pub open spec fn expense_id_in_path(path: Seq<char>) -> Option<i64> {
    if has_prefix(path, "receipts/"@) {
        parsed_i64(before_char(path.skip(9), '/'))
    } else {
        match find_from(path, "/receipts/"@, 0) {
            Some(p) => parsed_i64(before_char(path.skip(p + 10), '/')),
            None => None,
        }
    }
}

/// The bytes of a stored file and those of its copy agree: same checksum.
pub open spec fn copy_outcome(old_path: Seq<char>, original: Seq<u8>, copied: Seq<u8>) -> Result<Seq<char>, (Seq<char>, Seq<char>, Seq<char>)> {
    if bytes_checksum(original) == bytes_checksum(copied) {
        Ok(bytes_checksum(original))
    } else {
        Err(("ファイルハッシュが一致しません: "@ + old_path, bytes_checksum(original), bytes_checksum(copied)))
    }
}

/// A request to record the state of a moved file.
#[derive(Debug)]
pub struct ItemStatusUpdate {
    pub item_id: i64,
    pub status: String,
    pub error_message: Option<String>,
    pub file_hash: Option<String>,
}

/// A request to point an expense's receipt URL at the moved file.
#[derive(Debug)]
pub struct ReceiptUrlUpdate {
    pub old_path: String,
    pub new_path: String,
    pub user_id: i64,
    pub expense_id: Option<i64>,
}

impl BatchProcessor {
    /// The lower-case hexadecimal SHA-256 digest of a file.
    pub fn calculate_file_hash(data: &[u8]) -> (r: String)
        ensures
            r@ == bytes_checksum(data@),
            r@.len() == 64,
    {
        calculate_bytes_checksum(data)
    }

    /// The expense id that a receipt path names, if it names one.
    pub fn extract_expense_id_from_path(path: &str) -> (r: Option<i64>)
        ensures
            r == expense_id_in_path(path@),
    {
        if starts_with(path, "receipts/") {
            proof { reveal_strlit("receipts/"); }
            let cs = chars_of(path);
            let n = cs.len();
            let after = collect_chars(&cs, 9, n);
            assert(after@ =~= path@.skip(9));
            let digits = text_before_char(after.as_str(), '/');
            return parse_i64(digits.as_str());
        }
        match text_find(path, "/receipts/") {
            Some(p) => {
                proof {
                    reveal_strlit("/receipts/");
                    crate::text::lemma_find_from(path@, "/receipts/"@, 0);
                }
                let cs = chars_of(path);
                let n = cs.len();
                assert(p + 10 <= n);
                let after = collect_chars(&cs, p + 10, n);
                assert(after@ =~= path@.skip(p + 10));
                let digits = text_before_char(after.as_str(), '/');
                parse_i64(digits.as_str())
            },
            None => None,
        }
    }

    /// Checks a copied file against the original: the same digest is the
    /// file's hash, a different one is an integrity error naming both.
    pub fn verify_copy(old_path: &str, original: &[u8], copied: &[u8]) -> (r: Result<String, MigrationError>)
        ensures
            match copy_outcome(old_path@, original@, copied@) {
                Ok(h) => r matches Ok(x) && x@ == h,
                Err((m, e, a)) => r matches Err(MigrationError::IntegrityValidation { message, validation_type, expected, actual })
                    && message@ == m && validation_type@ == "file_hash"@ && expected@ == e && actual@ == a,
            },
    {
        let original_hash = Self::calculate_file_hash(original);
        let uploaded_hash = Self::calculate_file_hash(copied);
        if original_hash != uploaded_hash {
            let mut message = String::from_str("ファイルハッシュが一致しません: ");
            message.append(old_path);
            return Err(MigrationError::IntegrityValidation {
                message,
                validation_type: String::from_str("file_hash"),
                expected: original_hash,
                actual: uploaded_hash,
            });
        }
        Ok(original_hash)
    }

    /// The error for a failed transfer of `key`: `operation` is "download" or
    /// "upload", `cause` the storage client's message.
    pub fn transfer_failure(operation: &str, heading: &str, key: &str, cause: &str) -> (r: MigrationError)
        ensures
            r matches MigrationError::R2Operation { message, operation: op, bucket, key: k, status_code }
                && message@ == heading@ + cause@ && op@ == operation@ && bucket@ == "unknown"@ && k@ == key@
                && status_code is None,
    {
        let mut message = String::from_str(heading);
        message.append(cause);
        MigrationError::R2Operation {
            message,
            operation: String::from_str(operation),
            bucket: String::from_str("unknown"),
            key: String::from_str(key),
            status_code: None,
        }
    }

    /// The error for a failed download of `key`.
    pub fn download_failure(key: &str, cause: &str) -> (r: MigrationError)
        ensures
            r matches MigrationError::R2Operation { message, operation, bucket, key: k, status_code }
                && message@ == "ファイルダウンロードに失敗: "@ + cause@ && operation@ == "download"@ && bucket@ == "unknown"@
                && k@ == key@ && status_code is None,
    {
        Self::transfer_failure("download", "ファイルダウンロードに失敗: ", key, cause)
    }

    /// The error for a failed upload to `key`.
    pub fn upload_failure(key: &str, cause: &str) -> (r: MigrationError)
        ensures
            r matches MigrationError::R2Operation { message, operation, bucket, key: k, status_code }
                && message@ == "ファイルアップロードに失敗: "@ + cause@ && operation@ == "upload"@ && bucket@ == "unknown"@
                && k@ == key@ && status_code is None,
    {
        Self::transfer_failure("upload", "ファイルアップロードに失敗: ", key, cause)
    }

    /// The record of a file whose move has begun.
    pub fn processing_status(item_id: i64) -> (r: ItemStatusUpdate)
        ensures
            r.item_id == item_id,
            r.status@ == "processing"@,
            r.error_message is None,
            r.file_hash is None,
    {
        ItemStatusUpdate { item_id, status: String::from_str("processing"), error_message: None, file_hash: None }
    }

    /// The record of a file moved and checked, with its hash.
    pub fn completed_status(item_id: i64, file_hash: String) -> (r: ItemStatusUpdate)
        ensures
            r.item_id == item_id,
            r.status@ == "completed"@,
            r.error_message is None,
            r.file_hash == Some(file_hash),
    {
        ItemStatusUpdate { item_id, status: String::from_str("completed"), error_message: None, file_hash: Some(file_hash) }
    }

    /// The record of a file whose move failed, with the displayed error.
    pub fn failed_status(item_id: i64, error: &MigrationError) -> (r: ItemStatusUpdate)
        ensures
            r.item_id == item_id,
            r.status@ == "failed"@,
            r.error_message matches Some(m) && m@ == error.display_view(),
            r.file_hash is None,
    {
        ItemStatusUpdate {
            item_id,
            status: String::from_str("failed"),
            error_message: Some(error.to_display_string()),
            file_hash: None,
        }
    }

    /// The receipt URL update for a moved file: the expense it names, if any.
    pub fn receipt_url_update(item: &MigrationItem) -> (r: ReceiptUrlUpdate)
        ensures
            r.old_path@ == item.old_path@,
            r.new_path@ == item.new_path@,
            r.user_id == item.user_id,
            r.expense_id == expense_id_in_path(item.old_path@),
    {
        ReceiptUrlUpdate {
            old_path: item.old_path.clone(),
            new_path: item.new_path.clone(),
            user_id: item.user_id,
            expense_id: Self::extract_expense_id_from_path(item.old_path.as_str()),
        }
    }

    /// The receipt URL to write for an expense whose current URL is `current`:
    /// none when the expense has no URL or its URL does not hold `old_path`,
    /// else the URL with every `old_path` replaced by `new_path`.
    pub fn planned_receipt_url(current: Option<String>, old_path: &str, new_path: &str) -> (r: Option<String>)
        ensures
            match current {
                None => r is None,
                Some(url) => if find_from(url@, old_path@, 0) is Some {
                    r matches Some(n) && n@ == replaced_from(url@, old_path@, new_path@, 0)
                } else {
                    r is None
                },
            },
    {
        match current {
            None => None,
            Some(url) => {
                if !text_contains(url.as_str(), old_path) {
                    return None;
                }
                Some(text_replace(url.as_str(), old_path, new_path))
            },
        }
    }

    /// The check of an expense's receipt URL after it was written: a URL
    /// other than the expected one is a validation error naming both.
    pub fn check_written_url(expense_id: i64, expected: &str, written: Option<String>) -> (r: AppResult<()>)
        ensures
            match written {
                Some(w) => if w@ == expected@ {
                    r is Ok
                } else {
                    app_result_view(r) == Err::<(), (AppErrorKind, Seq<char>)>((
                        AppErrorKind::Validation,
                        "expense_id="@ + int_decimal(expense_id as int) + "の更新後整合性チェック失敗: 期待値="@ + expected@
                            + ", 実際値="@ + w@,
                    ))
                },
                None => r is Ok,
            },
    {
        match written {
            Some(w) => {
                if crate::text::same_text(w.as_str(), expected) {
                    Ok(())
                } else {
                    let mut m = String::from_str("expense_id=");
                    m.append(i64_to_decimal(expense_id).as_str());
                    m.append("の更新後整合性チェック失敗: 期待値=");
                    m.append(expected);
                    m.append(", 実際値=");
                    m.append(w.as_str());
                    Err(AppError::Validation(m))
                }
            },
            None => Ok(()),
        }
    }
}

/// Texts seen through their views.
pub open spec fn texts_view(v: Seq<String>) -> Seq<Seq<char>> {
    v.map_values(|m: String| m@)
}

/// The first index past the batch that starts at `start`.
pub open spec fn batch_end(start: int, batch_size: int, total: int) -> int {
    if start + batch_size < total { start + batch_size } else { total }
}

/// How many results of a batch succeeded.
pub open spec fn successes(rs: Seq<Result<(), String>>) -> nat
    decreases rs.len(),
{
    if rs.len() == 0 {
        0
    } else {
        successes(rs.drop_last()) + if rs.last() is Ok { 1nat } else { 0nat }
    }
}

/// The messages of the failed results of a batch, in order.
pub open spec fn failure_messages(rs: Seq<Result<(), String>>) -> Seq<Seq<char>>
    decreases rs.len(),
{
    if rs.len() == 0 {
        Seq::empty()
    } else {
        failure_messages(rs.drop_last()) + match rs.last() {
            Ok(_) => Seq::<Seq<char>>::empty(),
            Err(m) => seq![m@],
        }
    }
}

proof fn lemma_tally_bounds(rs: Seq<Result<(), String>>)
    ensures
        successes(rs) + failure_messages(rs).len() == rs.len(),
    decreases rs.len(),
{
    if rs.len() > 0 {
        lemma_tally_bounds(rs.drop_last());
    }
}

/// A run over `total_items` files in batches of `batch_size`: which batch
/// comes next, and the tally of the results so far.
pub struct BatchRun {
    total_items: usize,
    batch_size: usize,
    next_start: usize,
    success_count: usize,
    error_count: usize,
    errors: Vec<String>,
}

impl BatchRun {
    #[verifier::type_invariant]
    spec fn well_formed(self) -> bool {
        &&& self.batch_size > 0
        &&& self.next_start <= self.total_items
        &&& self.success_count + self.error_count == self.next_start
        &&& self.errors@.len() == self.error_count
    }

    pub closed spec fn total(&self) -> usize {
        self.total_items
    }

    pub closed spec fn size(&self) -> usize {
        self.batch_size
    }

    /// The index of the first file not yet processed.
    pub closed spec fn done(&self) -> usize {
        self.next_start
    }

    pub closed spec fn successes_so_far(&self) -> usize {
        self.success_count
    }

    pub closed spec fn failures_so_far(&self) -> Seq<Seq<char>> {
        texts_view(self.errors@)
    }

    /// A run that has processed nothing yet; batches must hold at least one
    /// file, as `slice::chunks` demands.
    pub fn new(total_items: usize, batch_size: usize) -> (r: Self)
        requires
            batch_size > 0,
        ensures
            r.total() == total_items,
            r.size() == batch_size,
            r.done() == 0,
            r.successes_so_far() == 0,
            r.failures_so_far().len() == 0,
    {
        let r = BatchRun { total_items, batch_size, next_start: 0, success_count: 0, error_count: 0, errors: Vec::new() };
        assert(texts_view(r.errors@) =~= Seq::<Seq<char>>::empty());
        r
    }

    /// The range of the next batch, or None when every file was processed.
    pub fn next_batch(&self) -> (r: Option<(usize, usize)>)
        ensures
            self.done() < self.total() ==> r == Some((self.done(), batch_end(self.done() as int, self.size() as int, self.total() as int) as usize)),
            self.done() >= self.total() ==> r is None,
    {
        proof { use_type_invariant(self); }
        if self.next_start >= self.total_items {
            return None;
        }
        let end = if self.batch_size < self.total_items - self.next_start {
            self.next_start + self.batch_size
        } else {
            self.total_items
        };
        Some((self.next_start, end))
    }

    /// Records the results of the next batch, one per file of it.
    pub fn record_batch(&mut self, results: &Vec<Result<(), String>>)
        requires
            old(self).done() < old(self).total(),
            results@.len() == batch_end(old(self).done() as int, old(self).size() as int, old(self).total() as int) - old(self).done(),
        ensures
            final(self).done() == batch_end(old(self).done() as int, old(self).size() as int, old(self).total() as int),
            final(self).successes_so_far() == old(self).successes_so_far() + successes(results@),
            final(self).failures_so_far() == old(self).failures_so_far() + failure_messages(results@),
            final(self).total() == old(self).total(),
            final(self).size() == old(self).size(),
    {
        proof { use_type_invariant(&*self); }
        let ghost failures0 = texts_view(self.errors@);
        let mut errors: Vec<String> = Vec::new();
        let mut k: usize = 0;
        while k < self.errors.len()
            invariant
                k <= self.errors@.len(),
                texts_view(errors@) == texts_view(self.errors@.subrange(0, k as int)),
                errors@.len() == k,
            decreases self.errors@.len() - k,
        {
            let ghost v0 = errors@;
            errors.push(self.errors[k].clone());
            assert(errors@ == v0.push(self.errors@[k as int]));
            assert forall|j: int| 0 <= j < k + 1 implies #[trigger] texts_view(errors@)[j]
                == texts_view(self.errors@.subrange(0, k as int + 1))[j] by {
                if j < k {
                    assert(errors@[j] == v0[j]);
                    assert(texts_view(v0)[j] == texts_view(self.errors@.subrange(0, k as int))[j]);
                }
            }
            assert(texts_view(errors@) =~= texts_view(self.errors@.subrange(0, k as int + 1)));
            k = k + 1;
        }
        assert(self.errors@.subrange(0, k as int) =~= self.errors@);
        assert(texts_view(errors@) == failures0 + failure_messages(results@.subrange(0, 0)));
        let mut successes_here: usize = 0;
        let mut i: usize = 0;
        while i < results.len()
            invariant
                i <= results@.len(),
                successes_here == successes(results@.subrange(0, i as int)),
                texts_view(errors@) == failures0 + failure_messages(results@.subrange(0, i as int)),
                successes_here + failure_messages(results@.subrange(0, i as int)).len() == i,
                errors@.len() == self.errors@.len() + failure_messages(results@.subrange(0, i as int)).len(),
            decreases results@.len() - i,
        {
            let ghost before = results@.subrange(0, i as int);
            let ghost after = results@.subrange(0, i as int + 1);
            assert(after.drop_last() =~= before);
            assert(after.last() == results@[i as int]);
            proof { lemma_tally_bounds(before); }
            match &results[i] {
                Ok(_) => {
                    successes_here = successes_here + 1;
                    assert(failure_messages(after) =~= failure_messages(before));
                },
                Err(m) => {
                    let ghost v0 = errors@;
                    errors.push(m.clone());
                    assert(texts_view(errors@) =~= texts_view(v0).push(m@));
                    assert(failure_messages(after) =~= failure_messages(before).push(m@));
                },
            }
            i = i + 1;
        }
        assert(results@.subrange(0, i as int) =~= results@);
        let failed_here = i - successes_here;
        let end = if self.batch_size < self.total_items - self.next_start {
            self.next_start + self.batch_size
        } else {
            self.total_items
        };
        *self = BatchRun {
            total_items: self.total_items,
            batch_size: self.batch_size,
            next_start: end,
            success_count: self.success_count + successes_here,
            error_count: self.error_count + failed_here,
            errors,
        };
    }

    /// The outcome of the run, after `duration_ms` milliseconds: every file
    /// processed is counted once, as a success or an error; when every batch
    /// ran, the counts add up to the number of files.
    pub fn finish(self, duration_ms: u64) -> (r: MigrationResult)
        ensures
            r.success_count + r.error_count <= r.total_items,
            self.done() == self.total() ==> r.success_count + r.error_count == r.total_items,
            r.total_items == self.total(),
            r.success_count == self.successes_so_far(),
            r.error_count == self.failures_so_far().len(),
            texts_view(r.errors@) == self.failures_so_far(),
            r.success_count + r.error_count == self.done(),
            r.duration_ms == duration_ms,
    {
        proof { use_type_invariant(&self); }
        MigrationResult {
            total_items: self.total_items,
            success_count: self.success_count,
            error_count: self.error_count,
            errors: self.errors,
            duration_ms,
        }
    }
}

/// Every file is counted once: a run that processed all its batches counts
/// as many successes and failures together as it has files.
pub proof fn lemma_batch_run_counts_every_file(run: BatchRun, result: MigrationResult, duration_ms: u64)
    requires
        run.done() == run.total(),
        result.total_items == run.total(),
        result.success_count + result.error_count == run.done(),
    ensures
        result.success_count + result.error_count == result.total_items,
{
}

} // verus!
