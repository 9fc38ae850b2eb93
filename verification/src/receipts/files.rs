//! Rules on uploaded receipt files: accepted formats and size, content
//! types, storage keys, and the storage path inside a file's URL.
use vstd::prelude::*;
use vstd::string::*;
use crate::app_error::{AppError, AppErrorKind, AppResult, text_result_view, app_result_view};
use crate::clock::{random_uuid_text, unix_time_now};
use crate::text::{chars_of, collect_chars, find_from, i64_to_decimal, int_decimal, text_find};

verus! {

/// The largest accepted file, in bytes (10 MiB).
pub const MAX_FILE_SIZE: u64 = 10485760;

/// The segments of a path that name something: neither empty nor ".".
pub open spec fn named_segments(s: Seq<char>) -> Seq<Seq<char>>
    decreases s.len(),
{
    if s.len() == 0 {
        Seq::empty()
    } else {
        let i = last_index_of(s, '/');
        let seg = s.skip(i + 1);
        let tail = if seg.len() == 0 || seg == "."@ { Seq::empty() } else { seq![seg] };
        if i < 0 {
            tail
        } else {
            proof { lemma_last_index_below(s, '/'); }
            named_segments(s.take(i)) + tail
        }
    }
}

/// The index of the last `c` in `s`, or -1.
pub open spec fn last_index_of(s: Seq<char>, c: char) -> int
    decreases s.len(),
{
    if s.len() == 0 {
        -1
    } else if s.last() == c {
        s.len() - 1
    } else {
        last_index_of(s.drop_last(), c)
    }
}

/// The file name of a path, as `Path::file_name` gives it: its last named
/// segment, unless that is "..".
pub open spec fn file_name_of(path: Seq<char>) -> Option<Seq<char>> {
    let segs = named_segments(path);
    if segs.len() == 0 || segs.last() == ".."@ {
        None
    } else {
        Some(segs.last())
    }
}

/// The extension of a file name, as `Path::extension` gives it: what follows
/// its last '.', unless that '.' is its first character.
pub open spec fn extension_of_name(name: Seq<char>) -> Option<Seq<char>> {
    let i = last_index_of(name, '.');
    if i <= 0 { None } else { Some(name.skip(i + 1)) }
}

/// The extension of a path.
pub open spec fn extension_of(path: Seq<char>) -> Option<Seq<char>> {
    match file_name_of(path) {
        Some(n) => extension_of_name(n),
        None => None,
    }
}

/// A character with ASCII capitals lowered.
pub open spec fn ascii_lower(c: char) -> char {
    if 'A' <= c && c <= 'Z' { ((c as int) + 32) as char } else { c }
}

/// Whether `s`, lowered, is `lower` (which has no capitals).
pub open spec fn lowered_equals(s: Seq<char>, lower: Seq<char>) -> bool {
    s.len() == lower.len() && forall|i: int| 0 <= i < s.len() ==> #[trigger] ascii_lower(s[i]) == lower[i]
}

/// The kind of an accepted receipt file.
#[derive(Debug, Clone, Copy, PartialEq, Eq, Structural)]
pub enum ReceiptFormat {
    Png,
    Jpeg,
    Pdf,
}

/// The format that a file's extension names, if it is an accepted one.
pub open spec fn format_of(path: Seq<char>) -> Option<ReceiptFormat> {
    match extension_of(path) {
        Some(e) => if lowered_equals(e, "png"@) {
            Some(ReceiptFormat::Png)
        } else if lowered_equals(e, "jpg"@) || lowered_equals(e, "jpeg"@) {
            Some(ReceiptFormat::Jpeg)
        } else if lowered_equals(e, "pdf"@) {
            Some(ReceiptFormat::Pdf)
        } else {
            None
        },
        None => None,
    }
}

fn last_index_exec(cs: &Vec<char>, end: usize, c: char) -> (r: Option<usize>)
    requires
        end <= cs@.len(),
    ensures
        match r {
            Some(i) => i < end && last_index_of(cs@.take(end as int), c) == i,
            None => last_index_of(cs@.take(end as int), c) == -1,
        },
{
    let mut i = end;
    while i > 0
        invariant
            i <= end <= cs@.len(),
            last_index_of(cs@.take(end as int), c) == last_index_of(cs@.take(i as int), c),
        decreases i,
    {
        if cs[i - 1] == c {
            return Some(i - 1);
        }
        assert(cs@.take(i as int).drop_last() =~= cs@.take(i as int - 1));
        i = i - 1;
    }
    None
}

fn is_dot(cs: &Vec<char>, from: usize, to: usize) -> (r: bool)
    requires
        from <= to <= cs@.len(),
    ensures
        r == (cs@.subrange(from as int, to as int) == "."@),
{
    proof { reveal_strlit("."); }
    if to - from == 1 && cs[from] == '.' {
        assert(cs@.subrange(from as int, to as int) =~= "."@);
        true
    } else {
        if to - from == 1 {
            assert(cs@.subrange(from as int, to as int)[0] != "."@[0]);
        } else {
            assert(cs@.subrange(from as int, to as int).len() != "."@.len());
        }
        false
    }
}

/// The last named segment of `cs.take(end)`, as a range, if any.
fn last_named_segment(cs: &Vec<char>, end: usize) -> (r: Option<(usize, usize)>)
    requires
        end <= cs@.len(),
    ensures
        match r {
            Some((a, b)) => a <= b <= end && named_segments(cs@.take(end as int)).len() > 0
                && named_segments(cs@.take(end as int)).last() == cs@.subrange(a as int, b as int),
            None => named_segments(cs@.take(end as int)).len() == 0,
        },
    decreases end,
{
    if end == 0 {
        return None;
    }
    let ghost s = cs@.take(end as int);
    let slash = last_index_exec(cs, end, '/');
    let start = match slash {
        Some(i) => i + 1,
        None => 0,
    };
    let ghost i: int = match slash {
        Some(j) => j as int,
        None => -1,
    };
    assert(s.skip(i + 1) =~= cs@.subrange(start as int, end as int));
    if start < end && !is_dot(cs, start, end) {
        return Some((start, end));
    }
    match slash {
        Some(j) => {
            assert(s.take(j as int) =~= cs@.take(j as int));
            last_named_segment(cs, j)
        },
        None => None,
    }
}

/// The extension of a path, as `Path::extension` gives it.
pub fn path_extension(path: &str) -> (r: Option<String>)
    ensures
        match extension_of(path@) {
            Some(e) => r matches Some(x) && x@ == e,
            None => r is None,
        },
{
    let cs = chars_of(path);
    let n = cs.len();
    assert(cs@.take(n as int) =~= path@);
    match last_named_segment(&cs, n) {
        None => None,
        Some((a, b)) => {
            let ghost name = cs@.subrange(a as int, b as int);
            proof { reveal_strlit(".."); }
            if b - a == 2 && cs[a] == '.' && cs[a + 1] == '.' {
                assert(name =~= ".."@);
                return None;
            }
            if b - a == 2 {
                assert(name[0] != ".."@[0] || name[1] != ".."@[1]);
            }
            let dot = last_index_exec(&cs, b, '.');
            match dot {
                Some(d) => {
                    if d <= a {
                        assert(last_index_of(name, '.') <= 0) by {
                            lemma_last_index_window(cs@, a as int, b as int, '.');
                        }
                        None
                    } else {
                        proof { lemma_last_index_window(cs@, a as int, b as int, '.'); }
                        let e = collect_chars(&cs, d + 1, b);
                        assert(e@ =~= name.skip(last_index_of(name, '.') + 1));
                        Some(e)
                    }
                },
                None => {
                    proof { lemma_last_index_window(cs@, a as int, b as int, '.'); }
                    None
                },
            }
        },
    }
}

proof fn lemma_last_index_window(s: Seq<char>, a: int, b: int, c: char)
    requires
        0 <= a <= b <= s.len(),
    ensures
        last_index_of(s.take(b), c) >= a ==> last_index_of(s.subrange(a, b), c) == last_index_of(s.take(b), c) - a,
        last_index_of(s.take(b), c) < a ==> last_index_of(s.subrange(a, b), c) == -1,
    decreases b - a,
{
    if a < b {
        assert(s.take(b).drop_last() =~= s.take(b - 1));
        assert(s.subrange(a, b).drop_last() =~= s.subrange(a, b - 1));
        lemma_last_index_window(s, a, b - 1, c);
    } else {
        assert(s.subrange(a, b) =~= Seq::<char>::empty());
        lemma_last_index_below(s.take(b), c);
    }
}

pub proof fn lemma_last_index_below(s: Seq<char>, c: char)
    ensures
        -1 <= last_index_of(s, c) < s.len(),
    decreases s.len(),
{
    if s.len() > 0 && s.last() != c {
        lemma_last_index_below(s.drop_last(), c);
    }
}

fn lowered_is(e: &str, lower: &str) -> (r: bool)
    ensures
        r == lowered_equals(e@, lower@),
{
    let x = chars_of(e);
    let y = chars_of(lower);
    if x.len() != y.len() {
        return false;
    }
    let mut i: usize = 0;
    while i < x.len()
        invariant
            x@ == e@,
            y@ == lower@,
            x@.len() == y@.len(),
            i <= x@.len(),
            forall|k: int| 0 <= k < i ==> #[trigger] ascii_lower(x@[k]) == y@[k],
        decreases x@.len() - i,
    {
        let c = x[i];
        let l = if 'A' <= c && c <= 'Z' { ((c as u32) + 32) as u8 as char } else { c };
        proof {
            if 'A' <= c && c <= 'Z' {
                assert((c as u32 + 32) < 256);
            }
        }
        assert(l == ascii_lower(c));
        if l != y[i] {
            return false;
        }
        i = i + 1;
    }
    true
}

/// The format of an accepted receipt file, by its extension in any case.
pub fn receipt_format(filename: &str) -> (r: Option<ReceiptFormat>)
    ensures
        r == format_of(filename@),
{
    match path_extension(filename) {
        Some(e) => {
            if lowered_is(e.as_str(), "png") {
                Some(ReceiptFormat::Png)
            } else if lowered_is(e.as_str(), "jpg") || lowered_is(e.as_str(), "jpeg") {
                Some(ReceiptFormat::Jpeg)
            } else if lowered_is(e.as_str(), "pdf") {
                Some(ReceiptFormat::Pdf)
            } else {
                None
            }
        },
        None => None,
    }
}

/// Accepts PNG, JPEG and PDF files, by their extension in any case.
pub fn validate_file_format(filename: &str) -> (r: AppResult<()>)
    ensures
        app_result_view(r) == (match extension_of(filename@) {
            None => Err::<(), (AppErrorKind, Seq<char>)>((AppErrorKind::Validation, "ファイル拡張子が取得できません"@)),
            Some(_) => if format_of(filename@) is Some {
                Ok(())
            } else {
                Err((AppErrorKind::Validation, "サポートされていないファイル形式です（PNG、JPG、JPEG、PDFのみ対応）"@))
            },
        }),
{
    match path_extension(filename) {
        None => Err(AppError::Validation(String::from_str("ファイル拡張子が取得できません"))),
        Some(_) => match receipt_format(filename) {
            Some(_) => Ok(()),
            None => Err(
                AppError::Validation(String::from_str("サポートされていないファイル形式です（PNG、JPG、JPEG、PDFのみ対応）")),
            ),
        },
    }
}

/// Accepts files of at most 10 MiB.
pub fn validate_file_size(file_size: u64) -> (r: AppResult<()>)
    ensures
        file_size <= MAX_FILE_SIZE ==> r is Ok,
        file_size > MAX_FILE_SIZE ==> app_result_view(r) == Err::<(), (AppErrorKind, Seq<char>)>(
            (AppErrorKind::Validation, "ファイルサイズが10MBを超えています"@),
        ),
{
    if file_size > MAX_FILE_SIZE {
        return Err(AppError::Validation(String::from_str("ファイルサイズが10MBを超えています")));
    }
    Ok(())
}

/// The content type of a file, by its extension.
pub open spec fn content_type_of(path: Seq<char>) -> Seq<char> {
    match format_of(path) {
        Some(ReceiptFormat::Png) => "image/png"@,
        Some(ReceiptFormat::Jpeg) => "image/jpeg"@,
        Some(ReceiptFormat::Pdf) => "application/pdf"@,
        None => "application/octet-stream"@,
    }
}

/// The content type of a file, by its extension.
pub fn get_content_type(filename: &str) -> (r: String)
    ensures
        r@ == content_type_of(filename@),
{
    match receipt_format(filename) {
        Some(ReceiptFormat::Png) => String::from_str("image/png"),
        Some(ReceiptFormat::Jpeg) => String::from_str("image/jpeg"),
        Some(ReceiptFormat::Pdf) => String::from_str("application/pdf"),
        None => String::from_str("application/octet-stream"),
    }
}

/// The storage path inside a file URL: from the first `/users/`, else from
/// the first `/receipts/`, without the leading '/'.
pub open spec fn path_in_url(url: Seq<char>) -> Result<Seq<char>, (AppErrorKind, Seq<char>)> {
    match find_from(url, "/users/"@, 0) {
        Some(p) => Ok(url.skip(p + 1)),
        None => match find_from(url, "/receipts/"@, 0) {
            Some(p) => Ok(url.skip(p + 1)),
            None => Err((AppErrorKind::Validation, "無効なURL形式: "@ + url)),
        },
    }
}

/// The storage path inside a file URL.
pub fn extract_path_from_url(url: &str) -> (r: AppResult<String>)
    ensures
        text_result_view(r) == path_in_url(url@),
{
    let cs = chars_of(url);
    let n = cs.len();
    proof {
        reveal_strlit("/users/");
        reveal_strlit("/receipts/");
        crate::text::lemma_find_from(url@, "/users/"@, 0);
        crate::text::lemma_find_from(url@, "/receipts/"@, 0);
    }
    match text_find(url, "/users/") {
        Some(p) => {
            assert(p + 7 <= n);
            let r = collect_chars(&cs, p + 1, n);
            assert(r@ =~= url@.skip(p + 1));
            Ok(r)
        },
        None => match text_find(url, "/receipts/") {
            Some(p) => {
                assert(p + 10 <= n);
                let r = collect_chars(&cs, p + 1, n);
                assert(r@ =~= url@.skip(p + 1));
                Ok(r)
            },
            None => {
                let mut m = String::from_str("無効なURL形式: ");
                m.append(url);
                Err(AppError::Validation(m))
            },
        },
    }
}

/// A legacy storage key for a receipt: `receipts/{expense_id}/{timestamp}-{id}-{filename}`.
pub open spec fn legacy_file_key(expense_id: i64, timestamp: i64, id: Seq<char>, filename: Seq<char>) -> Seq<char> {
    "receipts/"@ + int_decimal(expense_id as int) + "/"@ + int_decimal(timestamp as int) + "-"@ + id + "-"@ + filename
}

/// A new legacy storage key for a receipt, made unique by the current time
/// and a random UUID.
pub fn generate_file_key(expense_id: i64, filename: &str) -> (r: String)
    ensures
        exists|timestamp: i64, id: Seq<char>| id.len() == 36 && r@ == #[trigger] legacy_file_key(expense_id, timestamp, id, filename@),
{
    let timestamp = unix_time_now();
    let id = random_uuid_text();
    let mut out = String::from_str("receipts/");
    out.append(i64_to_decimal(expense_id).as_str());
    out.append("/");
    out.append(i64_to_decimal(timestamp).as_str());
    out.append("-");
    out.append(id.as_str());
    out.append("-");
    out.append(filename);
    assert(out@ =~= legacy_file_key(expense_id, timestamp, id@, filename@));
    out
}

} // verus!
