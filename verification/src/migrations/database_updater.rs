//! Rewriting the receipt URLs stored with expenses after their files moved
//! into per-user directories: the new URL of a legacy one, the tally of the
//! batched updates, and the checks made after them.
use vstd::prelude::*;
use vstd::string::*;
use crate::app_error::{AppError, AppErrorKind, AppResult, text_result_view};
use crate::migrations::batch_processor::{batch_end, texts_view};
use crate::text::{chars_of, collect_chars, find_from, i64_to_decimal, int_decimal, same_text, text_find};

verus! {

/// The outcome of rewriting receipt URLs.
#[derive(Debug)]
pub struct DatabaseUpdateResult {
    pub total_records: usize,
    pub updated_count: usize,
    pub failed_count: usize,
    pub verified_count: usize,
    pub errors: Vec<String>,
    pub duration_ms: u64,
}

/// One receipt URL to rewrite.
#[derive(Debug, Clone)]
pub struct UrlUpdateItem {
    pub expense_id: i64,
    pub old_url: String,
    pub new_url: String,
    pub user_id: i64,
}

/// Counts of expenses by the form of their receipt URL.
#[derive(Debug, Clone, Copy, PartialEq, Eq)]
pub struct DatabaseStatistics {
    pub total_expenses: usize,
    pub with_receipt_url: usize,
    pub legacy_urls: usize,
    pub user_urls: usize,
}

/// The URL of a receipt after its file moved under the user's directory:
/// `/users/{user_id}` is put before the first `/receipts/`.
pub open spec fn user_url_outcome(legacy_url: Seq<char>, user_id: i64) -> Result<Seq<char>, (AppErrorKind, Seq<char>)> {
    match find_from(legacy_url, "/receipts/"@, 0) {
        Some(p) => Ok(legacy_url.take(p) + "/users/"@ + int_decimal(user_id as int) + legacy_url.skip(p)),
        None => Err((AppErrorKind::Validation, "無効なレガシーURL形式: "@ + legacy_url)),
    }
}

/// The message of an integrity check of one rewritten URL.
pub open spec fn integrity_outcome(expense_id: i64, expected: Seq<char>, current: Option<Seq<char>>) -> Result<(), (AppErrorKind, Seq<char>)> {
    match current {
        Some(url) => if url == expected {
            Ok(())
        } else {
            Err((
                AppErrorKind::Validation,
                "expense_id="@ + int_decimal(expense_id as int) + "の整合性チェック失敗: 期待値="@ + expected + ", 実際値="@ + url,
            ))
        },
        None => Err((AppErrorKind::Validation, "expense_id="@ + int_decimal(expense_id as int) + "のレコードが見つかりません"@)),
    }
}

/// How many of the read-back URLs match the rewritten ones.
pub open spec fn matching_count(items: Seq<UrlUpdateItem>, current: Seq<Option<String>>) -> nat
    decreases items.len(),
{
    if items.len() == 0 || current.len() == 0 {
        0
    } else {
        matching_count(items.drop_last(), current.drop_last()) + if current.last() matches Some(u) && u@ == items.last().new_url@ {
            1nat
        } else {
            0nat
        }
    }
}

/// Rewrites receipt URLs of expenses.
pub struct DatabaseUpdater;

impl DatabaseUpdater {
    /// The URL of a legacy receipt after its file moved under the user's directory.
    pub fn convert_legacy_url_to_user_url(legacy_url: &str, user_id: i64) -> (r: AppResult<String>)
        ensures
            text_result_view(r) == user_url_outcome(legacy_url@, user_id),
    {
        match text_find(legacy_url, "/receipts/") {
            Some(p) => {
                proof {
                    reveal_strlit("/receipts/");
                    crate::text::lemma_find_from(legacy_url@, "/receipts/"@, 0);
                }
                let cs = chars_of(legacy_url);
                let n = cs.len();
                assert(p + 10 <= n);
                let base = collect_chars(&cs, 0, p);
                let stripped = collect_chars(&cs, p + 10, n);
                let mut out = base;
                out.append("/users/");
                out.append(i64_to_decimal(user_id).as_str());
                out.append("/receipts/");
                out.append(stripped.as_str());
                proof {
                    assert(legacy_url@.subrange(p as int, p + 10) == "/receipts/"@);
                    assert(legacy_url@.skip(p as int) =~= "/receipts/"@ + stripped@);
                    assert(out@ =~= legacy_url@.take(p as int) + "/users/"@ + int_decimal(user_id as int) + legacy_url@.skip(
                        p as int,
                    ));
                }
                Ok(out)
            },
            None => {
                let mut m = String::from_str("無効なレガシーURL形式: ");
                m.append(legacy_url);
                Err(AppError::Validation(m))
            },
        }
    }

    /// The integrity check of one rewritten URL against what the database holds.
    pub fn check_integrity(item: &UrlUpdateItem, current: Option<String>) -> (r: AppResult<()>)
        ensures
            crate::app_error::app_result_view(r) == integrity_outcome(
                item.expense_id,
                item.new_url@,
                match current {
                    Some(u) => Some(u@),
                    None => None,
                },
            ),
    {
        match current {
            Some(url) => {
                if same_text(url.as_str(), item.new_url.as_str()) {
                    Ok(())
                } else {
                    let mut m = String::from_str("expense_id=");
                    m.append(i64_to_decimal(item.expense_id).as_str());
                    m.append("の整合性チェック失敗: 期待値=");
                    m.append(item.new_url.as_str());
                    m.append(", 実際値=");
                    m.append(url.as_str());
                    Err(AppError::Validation(m))
                }
            },
            None => {
                let mut m = String::from_str("expense_id=");
                m.append(i64_to_decimal(item.expense_id).as_str());
                m.append("のレコードが見つかりません");
                Err(AppError::Validation(m))
            },
        }
    }

    /// How many rewritten URLs the database gives back as written; `current`
    /// holds what it gives back for the leading items, in order.
    pub fn count_verified(items: &Vec<UrlUpdateItem>, current: &Vec<Option<String>>) -> (r: usize)
        requires
            current@.len() <= items@.len(),
        ensures
            r == matching_count(items@.take(current@.len() as int), current@),
            r <= current@.len(),
    {
        let ghost its = items@.take(current@.len() as int);
        let mut count: usize = 0;
        let mut i: usize = 0;
        while i < current.len()
            invariant
                i <= current@.len() <= items@.len(),
                its == items@.take(current@.len() as int),
                count == matching_count(its.subrange(0, i as int), current@.subrange(0, i as int)),
                count <= i,
            decreases current@.len() - i,
        {
            let ghost a = its.subrange(0, i as int + 1);
            let ghost b = current@.subrange(0, i as int + 1);
            assert(a.drop_last() =~= its.subrange(0, i as int));
            assert(b.drop_last() =~= current@.subrange(0, i as int));
            assert(a.last() == items@[i as int] && b.last() == current@[i as int]);
            match &current[i] {
                Some(u) => {
                    if same_text(u.as_str(), items[i].new_url.as_str()) {
                        count = count + 1;
                    }
                },
                None => {},
            }
            i = i + 1;
        }
        assert(its.subrange(0, i as int) =~= its);
        assert(current@.subrange(0, i as int) =~= current@);
        count
    }
}

/// The batched rewrite of `total_records` receipt URLs: which batch comes
/// next, and the tally so far.
pub struct UrlUpdateRun {
    total_records: usize,
    batch_size: usize,
    next_start: usize,
    updated_count: usize,
    failed_count: usize,
    errors: Vec<String>,
    batch_index: usize,
}

/// How many URLs are rewritten in one transaction when nothing else is asked.
pub const DEFAULT_UPDATE_BATCH_SIZE: usize = 100;

impl UrlUpdateRun {
    #[verifier::type_invariant]
    spec fn well_formed(self) -> bool {
        &&& self.batch_size > 0
        &&& self.next_start <= self.total_records
        &&& self.failed_count <= self.next_start
        &&& self.batch_index <= self.next_start
    }

    pub closed spec fn total(&self) -> usize {
        self.total_records
    }

    pub closed spec fn size(&self) -> usize {
        self.batch_size
    }

    pub closed spec fn done(&self) -> usize {
        self.next_start
    }

    pub closed spec fn updated(&self) -> usize {
        self.updated_count
    }

    pub closed spec fn failed(&self) -> usize {
        self.failed_count
    }

    pub closed spec fn batches_done(&self) -> usize {
        self.batch_index
    }

    pub closed spec fn error_texts(&self) -> Seq<Seq<char>> {
        texts_view(self.errors@)
    }

    /// A run over `total_records` URLs in batches of `batch_size` (a hundred
    /// when not given); a batch must hold at least one URL.
    pub fn new(total_records: usize, batch_size: Option<usize>) -> (r: Self)
        requires
            batch_size != Some(0usize),
        ensures
            r.total() == total_records,
            r.size() == match batch_size {
                Some(n) => n,
                None => DEFAULT_UPDATE_BATCH_SIZE,
            },
            r.done() == 0,
            r.updated() == 0,
            r.failed() == 0,
            r.batches_done() == 0,
            r.error_texts().len() == 0,
    {
        let size = match batch_size {
            Some(n) => n,
            None => DEFAULT_UPDATE_BATCH_SIZE,
        };
        let r = UrlUpdateRun {
            total_records,
            batch_size: size,
            next_start: 0,
            updated_count: 0,
            failed_count: 0,
            errors: Vec::new(),
            batch_index: 0,
        };
        assert(texts_view(r.errors@) =~= Seq::<Seq<char>>::empty());
        r
    }

    /// The range of the next batch, or None when every URL was handled.
    pub fn next_batch(&self) -> (r: Option<(usize, usize)>)
        ensures
            self.done() < self.total() ==> r == Some((self.done(), batch_end(self.done() as int, self.size() as int, self.total() as int) as usize)),
            self.done() >= self.total() ==> r is None,
    {
        proof { use_type_invariant(self); }
        if self.next_start >= self.total_records {
            return None;
        }
        let end = if self.batch_size < self.total_records - self.next_start {
            self.next_start + self.batch_size
        } else {
            self.total_records
        };
        Some((self.next_start, end))
    }

    /// Records the outcome of the next batch's transaction: the rows it
    /// updated, or its failure, which counts every URL of the batch as failed
    /// and is noted as `バッチ{n}更新失敗: {message}`.
    pub fn record_batch(&mut self, outcome: Result<usize, String>)
        requires
            old(self).done() < old(self).total(),
        ensures
            final(self).done() == batch_end(old(self).done() as int, old(self).size() as int, old(self).total() as int),
            final(self).batches_done() == old(self).batches_done() + 1,
            final(self).total() == old(self).total(),
            final(self).size() == old(self).size(),
            match outcome {
                Ok(n) => final(self).updated() == (if old(self).updated() + n <= usize::MAX {
                    (old(self).updated() + n) as usize
                } else {
                    usize::MAX
                }) && final(self).failed() == old(self).failed() && final(self).error_texts() == old(self).error_texts(),
                Err(m) => final(self).updated() == old(self).updated()
                    && final(self).failed() == old(self).failed() + (final(self).done() - old(self).done())
                    && final(self).error_texts() == old(self).error_texts().push(
                        "バッチ"@ + crate::text::nat_decimal((old(self).batches_done() + 1) as nat) + "更新失敗: "@ + m@,
                    ),
            },
    {
        proof { use_type_invariant(&*self); }
        let end = if self.batch_size < self.total_records - self.next_start {
            self.next_start + self.batch_size
        } else {
            self.total_records
        };
        let number = self.batch_index + 1;
        match outcome {
            Ok(n) => {
                let updated = if self.updated_count <= usize::MAX - n { self.updated_count + n } else { usize::MAX };
                let mut errors: Vec<String> = Vec::new();
                let mut k: usize = 0;
                while k < self.errors.len()
                    invariant
                        k <= self.errors@.len(),
                        texts_view(errors@) == texts_view(self.errors@.subrange(0, k as int)),
                    decreases self.errors@.len() - k,
                {
                    let ghost v0 = errors@;
                    errors.push(self.errors[k].clone());
                    proof { lemma_texts_push(v0, self.errors@, k as int); }
                    k = k + 1;
                }
                assert(self.errors@.subrange(0, k as int) =~= self.errors@);
                *self = UrlUpdateRun {
                    total_records: self.total_records,
                    batch_size: self.batch_size,
                    next_start: end,
                    updated_count: updated,
                    failed_count: self.failed_count,
                    errors,
                    batch_index: number,
                };
            },
            Err(m) => {
                let mut message = String::from_str("バッチ");
                message.append(crate::text::u64_to_decimal(number as u64).as_str());
                message.append("更新失敗: ");
                message.append(m.as_str());
                let mut errors: Vec<String> = Vec::new();
                let mut k: usize = 0;
                while k < self.errors.len()
                    invariant
                        k <= self.errors@.len(),
                        texts_view(errors@) == texts_view(self.errors@.subrange(0, k as int)),
                    decreases self.errors@.len() - k,
                {
                    let ghost v0 = errors@;
                    errors.push(self.errors[k].clone());
                    proof { lemma_texts_push(v0, self.errors@, k as int); }
                    k = k + 1;
                }
                assert(self.errors@.subrange(0, k as int) =~= self.errors@);
                let ghost v1 = errors@;
                errors.push(message);
                assert(texts_view(errors@) =~= texts_view(v1).push(message@));
                *self = UrlUpdateRun {
                    total_records: self.total_records,
                    batch_size: self.batch_size,
                    next_start: end,
                    updated_count: self.updated_count,
                    failed_count: self.failed_count + (end - self.next_start),
                    errors,
                    batch_index: number,
                };
            },
        }
    }

    /// How many rows the batches updated so far.
    pub fn updated_count(&self) -> (r: usize)
        ensures
            r == self.updated(),
    {
        self.updated_count
    }

    /// How many leading URLs the check after the rewrite reads back: as many
    /// as rows were updated. There must not be more of them than URLs.
    pub fn verification_span(&self) -> (r: usize)
        requires
            self.updated() <= self.total(),
        ensures
            r == self.updated(),
    {
        self.updated_count
    }

    /// The outcome of the rewrite of `items`: `verification` is what the
    /// database gives back for the URLs of the verification span, of which
    /// those read back as written are counted, or the check's failure, noted
    /// as `更新後検証失敗: {message}` (None when no row was updated and nothing
    /// was checked).
    pub fn finish(
        self,
        items: &Vec<UrlUpdateItem>,
        verification: Option<Result<Vec<Option<String>>, String>>,
        duration_ms: u64,
    ) -> (r: DatabaseUpdateResult)
        requires
            items@.len() == self.total(),
            verification matches Some(Ok(current)) ==> current@.len() == self.updated() && self.updated() <= self.total(),
        ensures
            r.verified_count <= r.updated_count,
            r.total_records == self.total(),
            r.updated_count == self.updated(),
            r.failed_count == self.failed(),
            r.failed_count <= self.done() <= r.total_records,
            r.duration_ms == duration_ms,
            r.verified_count == match verification {
                Some(Ok(current)) => matching_count(items@.take(self.updated() as int), current@),
                _ => 0,
            },
            texts_view(r.errors@) == match verification {
                Some(Err(m)) => self.error_texts().push("更新後検証失敗: "@ + m@),
                _ => self.error_texts(),
            },
    {
        proof { use_type_invariant(&self); }
        let mut errors = self.errors;
        let ghost v0 = errors@;
        let verified_count = match verification {
            Some(Ok(current)) => DatabaseUpdater::count_verified(items, &current),
            Some(Err(m)) => {
                let mut message = String::from_str("更新後検証失敗: ");
                message.append(m.as_str());
                errors.push(message);
                assert(texts_view(errors@) =~= texts_view(v0).push(message@));
                0
            },
            None => 0,
        };
        DatabaseUpdateResult {
            total_records: self.total_records,
            updated_count: self.updated_count,
            failed_count: self.failed_count,
            verified_count,
            errors,
            duration_ms,
        }
    }
}

proof fn lemma_texts_push(v0: Seq<String>, all: Seq<String>, k: int)
    requires
        0 <= k < all.len(),
        texts_view(v0) == texts_view(all.subrange(0, k)),
    ensures
        texts_view(v0.push(all[k])) == texts_view(all.subrange(0, k + 1)),
{
    assert(texts_view(v0).len() == v0.len());
    assert(v0.len() == k);
    let w = v0.push(all[k]);
    assert forall|j: int| 0 <= j < k + 1 implies #[trigger] texts_view(w)[j] == texts_view(all.subrange(0, k + 1))[j] by {
        if j < k {
            assert(w[j] == v0[j]);
            assert(texts_view(v0)[j] == texts_view(all.subrange(0, k))[j]);
            assert(all.subrange(0, k)[j] == all.subrange(0, k + 1)[j]);
        } else {
            assert(w[j] == all[k]);
        }
    }
    assert(texts_view(w) =~= texts_view(all.subrange(0, k + 1)));
}

} // verus!
