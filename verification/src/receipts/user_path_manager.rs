//! Object paths of receipt and subscription files, one directory per user.
//!
//! Files uploaded before per-user directories existed live under
//! `receipts/{expense_id}/...` and `subscriptions/{subscription_id}/...`;
//! their new home is `users/{user_id}/` followed by the old path.
use vstd::prelude::*;
use vstd::string::*;
use regex::Regex;
use crate::app_error::{AppError, AppErrorKind, AppResult, app_result_view, text_result_view};
use crate::clock::{random_uuid_text, unix_time_now};
use crate::text::{chars_of, collect_chars, has_prefix, i64_to_decimal, int_decimal, parse_i64, parsed_i64, starts_with};

verus! {

/// Prefix of receipt paths from before per-user directories.
pub const LEGACY_RECEIPTS_PREFIX: &'static str = "receipts/";
/// Receipt paths under this prefix already name a user directory.
pub const LEGACY_RECEIPTS_USERS_PREFIX: &'static str = "receipts/users/";
/// Prefix of subscription paths from before per-user directories.
pub const LEGACY_SUBSCRIPTIONS_PREFIX: &'static str = "subscriptions/";
/// Subscription paths under this prefix already name a user directory.
pub const LEGACY_SUBSCRIPTIONS_USERS_PREFIX: &'static str = "subscriptions/users/";
/// A user receipt path, capturing the user id.
pub const USER_ID_PATTERN: &'static str = "^users/(\\d+)/receipts/";
/// A user receipt path.
pub const USER_RECEIPTS_PATTERN: &'static str = "^users/\\d+/receipts/";
/// A user subscription path, capturing the subscription id.
pub const SUBSCRIPTION_ID_PATTERN: &'static str = "^users/\\d+/subscriptions/(\\d+)/";
/// A user subscription path.
pub const USER_SUBSCRIPTIONS_PATTERN: &'static str = "^users/\\d+/subscriptions/";
/// A user receipt path, capturing the expense id.
pub const USER_EXPENSE_ID_PATTERN: &'static str = "^users/\\d+/receipts/(\\d+)/";
/// A legacy receipt path, capturing the expense id.
pub const LEGACY_EXPENSE_ID_PATTERN: &'static str = "^receipts/(\\d+)/";
/// A run of slashes.
pub const SLASH_RUN_PATTERN: &'static str = "/+";

/// What the `regex` crate reports for `pattern` on `text`: the error's text
/// when the pattern does not compile, else the text of the first capture group
/// of the leftmost match (`None` without a match or without that group).
pub uninterp spec fn regex_first_capture(pattern: Seq<char>, text: Seq<char>) -> Result<Option<Seq<char>>, Seq<char>>;

/// Whether `pattern` compiles and matches somewhere in `text`.
pub uninterp spec fn regex_matches(pattern: Seq<char>, text: Seq<char>) -> bool;

/// `text` with every leftmost non-overlapping match of `pattern` replaced by
/// `replacement` (`text` itself when the pattern does not compile).
pub uninterp spec fn regex_replaced_all(pattern: Seq<char>, text: Seq<char>, replacement: Seq<char>) -> Seq<char>;

/// regex: `Regex::new(pattern)`, then `captures(text)` and group 1 of it.
/// Claimed: the result is [`regex_first_capture`] of the two texts.
#[verifier::external_body]
fn first_capture(pattern: &str, text: &str) -> (r: Result<Option<String>, String>)
    ensures
        capture_view(r) == regex_first_capture(pattern@, text@),
{
    match Regex::new(pattern) {
        Ok(re) => match re.captures(text) {
            Some(c) => match c.get(1) {
                Some(m) => Ok(Some(m.as_str().to_string())),
                None => Ok(None),
            },
            None => Ok(None),
        },
        Err(e) => Err(e.to_string()),
    }
}

/// regex: `Regex::new(pattern)`, then `is_match(text)`; `false` when the
/// pattern does not compile. Claimed: the result is [`regex_matches`].
#[verifier::external_body]
fn pattern_matches(pattern: &str, text: &str) -> (r: bool)
    ensures
        r == regex_matches(pattern@, text@),
{
    match Regex::new(pattern) {
        Ok(re) => re.is_match(text),
        Err(_) => false,
    }
}

/// regex: `Regex::new(pattern)`, then `replace_all(text, replacement)`; the
/// text unchanged when the pattern does not compile. Claimed: the result is
/// [`regex_replaced_all`].
#[verifier::external_body]
fn replace_all_matches(pattern: &str, text: &str, replacement: &str) -> (r: String)
    ensures
        r@ == regex_replaced_all(pattern@, text@, replacement@),
{
    match Regex::new(pattern) {
        Ok(re) => re.replace_all(text, replacement).into_owned(),
        Err(_) => text.to_string(),
    }
}

/// A capture result seen through the views of its strings.
pub open spec fn capture_view(c: Result<Option<String>, String>) -> Result<Option<Seq<char>>, Seq<char>> {
    match c {
        Ok(Some(t)) => Ok(Some(t@)),
        Ok(None) => Ok(None),
        Err(e) => Err(e@),
    }
}

/// The id read from a capture: a compile error of the pattern, no match, and
/// a capture that is no `i64` are validation errors.
pub open spec fn capture_outcome(
    c: Result<Option<Seq<char>>, Seq<char>>,
    parse_failure: Seq<char>,
    mismatch: Seq<char>,
) -> Result<i64, (AppErrorKind, Seq<char>)> {
    match c {
        Err(e) => Err((AppErrorKind::Validation, "正規表現エラー: "@ + e)),
        Ok(None) => Err((AppErrorKind::Validation, mismatch)),
        Ok(Some(t)) => match parsed_i64(t) {
            Some(v) => Ok(v),
            None => Err((AppErrorKind::Validation, parse_failure)),
        },
    }
}

/// The user id that a path names.
pub open spec fn user_id_outcome(path: Seq<char>) -> Result<i64, (AppErrorKind, Seq<char>)> {
    capture_outcome(regex_first_capture(USER_ID_PATTERN@, path), "ユーザーIDの解析に失敗"@, "ユーザーパス形式が無効"@)
}

/// The subscription id that a user subscription path names.
pub open spec fn subscription_id_outcome(path: Seq<char>) -> Result<i64, (AppErrorKind, Seq<char>)> {
    capture_outcome(
        regex_first_capture(SUBSCRIPTION_ID_PATTERN@, path),
        "サブスクリプションIDの解析に失敗"@,
        "ユーザーサブスクリプションパス形式が無効"@,
    )
}

/// The expense id that a user receipt path names.
pub open spec fn user_expense_id_outcome(path: Seq<char>) -> Result<i64, (AppErrorKind, Seq<char>)> {
    capture_outcome(regex_first_capture(USER_EXPENSE_ID_PATTERN@, path), "expense_idの解析に失敗"@, "ユーザーパス形式が無効"@)
}

/// The expense id that a legacy receipt path names.
pub open spec fn legacy_expense_id_outcome(path: Seq<char>) -> Result<i64, (AppErrorKind, Seq<char>)> {
    capture_outcome(regex_first_capture(LEGACY_EXPENSE_ID_PATTERN@, path), "expense_idの解析に失敗"@, "レガシーパス形式が無効"@)
}

/// Whether `user_id` may reach `path`: only the user that the path names may.
pub open spec fn access_outcome(user_id: i64, path: Seq<char>) -> Result<(), (AppErrorKind, Seq<char>)> {
    match user_id_outcome(path) {
        Ok(owner) => if owner == user_id {
            Ok(())
        } else {
            Err((AppErrorKind::Security, "アクセス権限がありません"@))
        },
        Err(e) => Err(e),
    }
}

/// The directory of a user: `users/{user_id}/`.
pub open spec fn user_dir(user_id: i64) -> Seq<char> {
    "users/"@ + int_decimal(user_id as int) + "/"@
}

/// A legacy path moved under a user's directory, or the error naming it.
pub open spec fn moved_under_user(legacy: Seq<char>, user_id: i64, prefix: Seq<char>, message: Seq<char>)
    -> Result<Seq<char>, (AppErrorKind, Seq<char>)> {
    if has_prefix(legacy, prefix) {
        Ok(user_dir(user_id) + legacy)
    } else {
        Err((AppErrorKind::Validation, message + legacy))
    }
}

/// A legacy receipt path: under `receipts/`, but not under `receipts/users/`.
pub open spec fn is_legacy_receipt(path: Seq<char>) -> bool {
    has_prefix(path, LEGACY_RECEIPTS_PREFIX@) && !has_prefix(path, LEGACY_RECEIPTS_USERS_PREFIX@)
}

/// A legacy subscription path: under `subscriptions/`, but not under `subscriptions/users/`.
pub open spec fn is_legacy_subscription(path: Seq<char>) -> bool {
    has_prefix(path, LEGACY_SUBSCRIPTIONS_PREFIX@) && !has_prefix(path, LEGACY_SUBSCRIPTIONS_USERS_PREFIX@)
}

/// The index of the last '/' in `s`, or -1.
pub open spec fn last_slash(s: Seq<char>) -> int
    decreases s.len(),
{
    if s.len() == 0 {
        -1
    } else if s.last() == '/' {
        s.len() - 1
    } else {
        last_slash(s.drop_last())
    }
}

/// What follows the last '/' (the whole text without one).
pub open spec fn last_segment(s: Seq<char>) -> Seq<char> {
    s.skip(last_slash(s) + 1)
}

/// The file name of a path: its last segment, which must not be empty.
pub open spec fn filename_outcome(path: Seq<char>) -> Result<Seq<char>, (AppErrorKind, Seq<char>)> {
    if last_segment(path).len() == 0 {
        Err((AppErrorKind::Validation, "ファイル名が空です"@))
    } else {
        Ok(last_segment(path))
    }
}

pub proof fn lemma_last_slash_bounds(s: Seq<char>)
    ensures
        -1 <= last_slash(s) < s.len(),
        last_slash(s) >= 0 ==> s[last_slash(s)] == '/',
        forall|k: int| last_slash(s) < k < s.len() ==> s[k] != '/',
    decreases s.len(),
{
    if s.len() > 0 && s.last() != '/' {
        lemma_last_slash_bounds(s.drop_last());
        assert forall|k: int| last_slash(s) < k < s.len() implies s[k] != '/' by {
            if k < s.len() - 1 {
                assert(s[k] == s.drop_last()[k]);
            }
        }
    }
}

/// `s` without its leading `c`s.
pub open spec fn trim_start(s: Seq<char>, c: char) -> Seq<char>
    decreases s.len(),
{
    if s.len() > 0 && s[0] == c {
        trim_start(s.drop_first(), c)
    } else {
        s
    }
}

/// `s` without its trailing `c`s.
pub open spec fn trim_end(s: Seq<char>, c: char) -> Seq<char>
    decreases s.len(),
{
    if s.len() > 0 && s.last() == c {
        trim_end(s.drop_last(), c)
    } else {
        s
    }
}

/// `s` without its leading and trailing slashes.
pub open spec fn trim_slashes(s: Seq<char>) -> Seq<char> {
    trim_end(trim_start(s, '/'), '/')
}

/// The path of an uploaded file in a user's directory:
/// `users/{user_id}/{area}/{record_id}/{timestamp}-{id}-{filename}`.
pub open spec fn user_file_path(
    user_id: i64,
    area: Seq<char>,
    record_id: i64,
    timestamp: i64,
    id: Seq<char>,
    filename: Seq<char>,
) -> Seq<char> {
    user_dir(user_id) + area + "/"@ + int_decimal(record_id as int) + "/"@ + int_decimal(timestamp as int) + "-"@ + id
        + "-"@ + filename
}

proof fn lemma_last_slash_after_dir(x: Seq<char>, y: Seq<char>)
    requires
        x.len() > 0,
        x.last() == '/',
    ensures
        last_slash(x + y) == if last_slash(y) >= 0 { x.len() + last_slash(y) } else { x.len() - 1 },
    decreases y.len(),
{
    if y.len() == 0 {
        assert(x + y =~= x);
    } else {
        assert((x + y).drop_last() =~= x + y.drop_last());
        lemma_last_slash_after_dir(x, y.drop_last());
    }
}

proof fn lemma_user_dir_shape(user_id: i64)
    ensures
        user_dir(user_id).len() > 0,
        user_dir(user_id)[0] == 'u',
        user_dir(user_id).last() == '/',
{
    reveal_strlit("users/");
    reveal_strlit("/");
}

/// Moving a path under a user's directory keeps its file name: the file name
/// of `users/{user_id}/` followed by a path is the file name of the path.
pub proof fn lemma_move_keeps_filename(path: Seq<char>, user_id: i64)
    ensures
        filename_outcome(user_dir(user_id) + path) == filename_outcome(path),
{
    lemma_user_dir_shape(user_id);
    lemma_last_slash_after_dir(user_dir(user_id), path);
    lemma_last_slash_bounds(path);
    let x = user_dir(user_id);
    if last_slash(path) >= 0 {
        assert((x + path).skip(last_slash(x + path) + 1) =~= path.skip(last_slash(path) + 1));
    } else {
        assert((x + path).skip(last_slash(x + path) + 1) =~= path);
        assert(path.skip(0) =~= path);
    }
}

/// A legacy receipt path always converts, and its new path keeps the file
/// name and is no longer a legacy path of either kind.
pub proof fn lemma_legacy_receipt_converts(path: Seq<char>, user_id: i64, message: Seq<char>)
    requires
        is_legacy_receipt(path),
    ensures
        moved_under_user(path, user_id, LEGACY_RECEIPTS_PREFIX@, message) == Ok::<Seq<char>, (AppErrorKind, Seq<char>)>(
            user_dir(user_id) + path,
        ),
        filename_outcome(user_dir(user_id) + path) == filename_outcome(path),
        !is_legacy_receipt(user_dir(user_id) + path),
        !is_legacy_subscription(user_dir(user_id) + path),
{
    lemma_move_keeps_filename(path, user_id);
    lemma_moved_path_not_legacy(path, user_id);
}

/// A legacy subscription path always converts, and its new path keeps the
/// file name and is no longer a legacy path of either kind.
pub proof fn lemma_legacy_subscription_converts(path: Seq<char>, user_id: i64, message: Seq<char>)
    requires
        is_legacy_subscription(path),
    ensures
        moved_under_user(path, user_id, LEGACY_SUBSCRIPTIONS_PREFIX@, message) == Ok::<Seq<char>, (AppErrorKind, Seq<char>)>(
            user_dir(user_id) + path,
        ),
        filename_outcome(user_dir(user_id) + path) == filename_outcome(path),
        !is_legacy_receipt(user_dir(user_id) + path),
        !is_legacy_subscription(user_dir(user_id) + path),
{
    lemma_move_keeps_filename(path, user_id);
    lemma_moved_path_not_legacy(path, user_id);
}

/// A path under a user's directory is not a legacy path of either kind.
pub proof fn lemma_moved_path_not_legacy(path: Seq<char>, user_id: i64)
    ensures
        !is_legacy_receipt(user_dir(user_id) + path),
        !is_legacy_subscription(user_dir(user_id) + path),
{
    lemma_user_dir_shape(user_id);
    reveal_strlit("receipts/");
    reveal_strlit("subscriptions/");
    let moved = user_dir(user_id) + path;
    assert(moved[0] == 'u');
    if has_prefix(moved, LEGACY_RECEIPTS_PREFIX@) {
        assert(moved.subrange(0, 9)[0] == moved[0]);
    }
    if has_prefix(moved, LEGACY_SUBSCRIPTIONS_PREFIX@) {
        assert(moved.subrange(0, 14)[0] == moved[0]);
    }
}

/// Administrators reach every path; any other user reaches a path exactly
/// when the path names that user.
pub proof fn lemma_access_only_by_owner(user_id: i64, path: Seq<char>)
    ensures
        access_outcome(user_id, path) is Ok <==> user_id_outcome(path) == Ok::<i64, (AppErrorKind, Seq<char>)>(user_id),
{
}

/// Manages the object paths of receipt and subscription files.
pub struct UserPathManager;

impl UserPathManager {
    /// Reads an id from a capture of one of the path patterns.
    pub fn id_from_capture(capture: Result<Option<String>, String>, parse_failure: &str, mismatch: &str) -> (r: AppResult<i64>)
        ensures
            app_result_view(r) == capture_outcome(capture_view(capture), parse_failure@, mismatch@),
    {
        match capture {
            Err(e) => {
                let mut m = String::from_str("正規表現エラー: ");
                m.append(e.as_str());
                Err(AppError::Validation(m))
            },
            Ok(None) => Err(AppError::validation(mismatch)),
            Ok(Some(t)) => match parse_i64(t.as_str()) {
                Some(v) => Ok(v),
                None => Err(AppError::validation(parse_failure)),
            },
        }
    }

    /// The user id of a user receipt path (`users/{user_id}/receipts/...`).
    pub fn extract_user_id_from_path(path: &str) -> (r: AppResult<i64>)
        ensures
            app_result_view(r) == user_id_outcome(path@),
    {
        let capture = first_capture(USER_ID_PATTERN, path);
        Self::id_from_capture(capture, "ユーザーIDの解析に失敗", "ユーザーパス形式が無効")
    }

    /// The subscription id of a user subscription path
    /// (`users/{user_id}/subscriptions/{subscription_id}/...`).
    pub fn extract_subscription_id_from_user_path(path: &str) -> (r: AppResult<i64>)
        ensures
            app_result_view(r) == subscription_id_outcome(path@),
    {
        let capture = first_capture(SUBSCRIPTION_ID_PATTERN, path);
        Self::id_from_capture(capture, "サブスクリプションIDの解析に失敗", "ユーザーサブスクリプションパス形式が無効")
    }

    /// The expense id of a user receipt path (`users/{user_id}/receipts/{expense_id}/...`).
    pub fn extract_expense_id_from_user_path(path: &str) -> (r: AppResult<i64>)
        ensures
            app_result_view(r) == user_expense_id_outcome(path@),
    {
        let capture = first_capture(USER_EXPENSE_ID_PATTERN, path);
        Self::id_from_capture(capture, "expense_idの解析に失敗", "ユーザーパス形式が無効")
    }

    /// The expense id of a legacy receipt path (`receipts/{expense_id}/...`).
    pub fn extract_expense_id_from_legacy_path(path: &str) -> (r: AppResult<i64>)
        ensures
            app_result_view(r) == legacy_expense_id_outcome(path@),
    {
        let capture = first_capture(LEGACY_EXPENSE_ID_PATTERN, path);
        Self::id_from_capture(capture, "expense_idの解析に失敗", "レガシーパス形式が無効")
    }

    /// Grants access when the path names `user_id` as its owner.
    pub fn validate_user_access(user_id: i64, path: &str) -> (r: AppResult<()>)
        ensures
            app_result_view(r) == access_outcome(user_id, path@),
    {
        match Self::extract_user_id_from_path(path) {
            Ok(owner) => if user_id == owner {
                Ok(())
            } else {
                Err(AppError::security("アクセス権限がありません"))
            },
            Err(e) => Err(e),
        }
    }

    /// Grants access to administrators, and to other users as
    /// [`UserPathManager::validate_user_access`] does.
    pub fn validate_admin_or_user_access(user_id: i64, is_admin: bool, path: &str) -> (r: AppResult<()>)
        ensures
            is_admin ==> r is Ok,
            !is_admin ==> app_result_view(r) == access_outcome(user_id, path@),
    {
        if is_admin {
            Ok(())
        } else {
            Self::validate_user_access(user_id, path)
        }
    }

    fn move_under_user(legacy_path: &str, user_id: i64, prefix: &str, message: &str) -> (r: AppResult<String>)
        ensures
            text_result_view(r) == moved_under_user(legacy_path@, user_id, prefix@, message@),
    {
        if starts_with(legacy_path, prefix) {
            let cs = chars_of(legacy_path);
            let k = prefix.unicode_len();
            let stripped = collect_chars(&cs, k, cs.len());
            let mut out = String::from_str("users/");
            out.append(i64_to_decimal(user_id).as_str());
            out.append("/");
            out.append(prefix);
            out.append(stripped.as_str());
            proof {
                assert(legacy_path@ =~= prefix@ + stripped@);
                assert(out@ =~= user_dir(user_id) + legacy_path@);
            }
            Ok(out)
        } else {
            let mut m = String::from_str(message);
            m.append(legacy_path);
            Err(AppError::Validation(m))
        }
    }

    /// Moves a legacy receipt path (`receipts/{expense_id}/...`) under the
    /// user's directory: `users/{user_id}/receipts/{expense_id}/...`.
    pub fn convert_legacy_to_user_path(legacy_path: &str, user_id: i64) -> (r: AppResult<String>)
        ensures
            text_result_view(r) == moved_under_user(legacy_path@, user_id, LEGACY_RECEIPTS_PREFIX@, "無効なレガシーパス: "@),
    {
        Self::move_under_user(legacy_path, user_id, LEGACY_RECEIPTS_PREFIX, "無効なレガシーパス: ")
    }

    /// Moves a legacy subscription path (`subscriptions/{subscription_id}/...`)
    /// under the user's directory: `users/{user_id}/subscriptions/{subscription_id}/...`.
    pub fn convert_legacy_subscription_to_user_path(legacy_path: &str, user_id: i64) -> (r: AppResult<String>)
        ensures
            text_result_view(r) == moved_under_user(
                legacy_path@,
                user_id,
                LEGACY_SUBSCRIPTIONS_PREFIX@,
                "無効なレガシーサブスクリプションパス: "@,
            ),
    {
        Self::move_under_user(legacy_path, user_id, LEGACY_SUBSCRIPTIONS_PREFIX, "無効なレガシーサブスクリプションパス: ")
    }

    /// Whether a path is a legacy receipt path.
    pub fn is_legacy_path(path: &str) -> (r: bool)
        ensures
            r == is_legacy_receipt(path@),
    {
        starts_with(path, LEGACY_RECEIPTS_PREFIX) && !starts_with(path, LEGACY_RECEIPTS_USERS_PREFIX)
    }

    /// Whether a path is a legacy subscription path.
    pub fn is_legacy_subscription_path(path: &str) -> (r: bool)
        ensures
            r == is_legacy_subscription(path@),
    {
        starts_with(path, LEGACY_SUBSCRIPTIONS_PREFIX) && !starts_with(path, LEGACY_SUBSCRIPTIONS_USERS_PREFIX)
    }

    /// Whether a path is a user receipt path (`users/{digits}/receipts/...`).
    pub fn is_user_path(path: &str) -> (r: bool)
        ensures
            r == regex_matches(USER_RECEIPTS_PATTERN@, path@),
    {
        pattern_matches(USER_RECEIPTS_PATTERN, path)
    }

    /// Whether a path is a user subscription path (`users/{digits}/subscriptions/...`).
    pub fn is_user_subscription_path(path: &str) -> (r: bool)
        ensures
            r == regex_matches(USER_SUBSCRIPTIONS_PATTERN@, path@),
    {
        pattern_matches(USER_SUBSCRIPTIONS_PATTERN, path)
    }

    /// The file name of a path, whatever its form: what follows its last '/'.
    pub fn extract_filename_from_path(path: &str) -> (r: AppResult<String>)
        ensures
            text_result_view(r) == filename_outcome(path@),
    {
        let cs = chars_of(path);
        let n = cs.len();
        let mut i = n;
        assert(path@.subrange(0, n as int) =~= path@);
        while i > 0 && cs[i - 1] != '/'
            invariant
                cs@ == path@,
                n == cs@.len(),
                i <= n,
                last_slash(path@) == last_slash(path@.subrange(0, i as int)),
                forall|k: int| i <= k < n ==> cs@[k] != '/',
            decreases i,
        {
            assert(path@.subrange(0, i as int).drop_last() =~= path@.subrange(0, i as int - 1));
            i = i - 1;
        }
        proof {
            if i == 0 {
                assert(path@.subrange(0, 0) =~= Seq::<char>::empty());
            }
            assert(last_slash(path@) + 1 == i);
        }
        if i == n {
            Err(AppError::validation("ファイル名が空です"))
        } else {
            let name = collect_chars(&cs, i, n);
            assert(name@ =~= last_segment(path@));
            Ok(name)
        }
    }
    /// Trims leading and trailing slashes, as `str::trim_matches('/')` does.
    pub fn trim_slashes(text: &str) -> (r: String)
        ensures
            r@ == trim_slashes(text@),
    {
        let cs = chars_of(text);
        let n = cs.len();
        let mut i: usize = 0;
        assert(cs@.subrange(0, n as int) =~= cs@);
        while i < n && cs[i] == '/'
            invariant
                cs@ == text@,
                n == cs@.len(),
                i <= n,
                trim_start(text@, '/') == trim_start(cs@.subrange(i as int, n as int), '/'),
            decreases n - i,
        {
            assert(cs@.subrange(i as int, n as int).drop_first() =~= cs@.subrange(i as int + 1, n as int));
            i = i + 1;
        }
        assert(trim_start(text@, '/') == cs@.subrange(i as int, n as int));
        let mut j: usize = n;
        assert(cs@.subrange(i as int, n as int) =~= cs@.subrange(i as int, j as int));
        while j > i && cs[j - 1] == '/'
            invariant
                cs@ == text@,
                n == cs@.len(),
                i <= j <= n,
                trim_slashes(text@) == trim_end(cs@.subrange(i as int, j as int), '/'),
            decreases j,
        {
            assert(cs@.subrange(i as int, j as int).drop_last() =~= cs@.subrange(i as int, j as int - 1));
            j = j - 1;
        }
        collect_chars(&cs, i, j)
    }

    /// Collapses runs of slashes into one and trims the slashes at both ends.
    pub fn normalize_path(path: &str) -> (r: String)
        ensures
            r@ == trim_slashes(regex_replaced_all(SLASH_RUN_PATTERN@, path@, "/"@)),
    {
        let collapsed = replace_all_matches(SLASH_RUN_PATTERN, path, "/");
        Self::trim_slashes(collapsed.as_str())
    }

    /// The path of a file in a user's directory, from its parts.
    pub fn user_file_path(user_id: i64, area: &str, record_id: i64, timestamp: i64, id: &str, filename: &str) -> (r: String)
        ensures
            r@ == user_file_path(user_id, area@, record_id, timestamp, id@, filename@),
    {
        let mut out = String::from_str("users/");
        out.append(i64_to_decimal(user_id).as_str());
        out.append("/");
        out.append(area);
        out.append("/");
        out.append(i64_to_decimal(record_id).as_str());
        out.append("/");
        out.append(i64_to_decimal(timestamp).as_str());
        out.append("-");
        out.append(id);
        out.append("-");
        out.append(filename);
        assert(out@ =~= user_file_path(user_id, area@, record_id, timestamp, id@, filename@));
        out
    }

    /// A new path for a receipt file, made unique by the current time and a
    /// random UUID: `users/{user_id}/receipts/{expense_id}/{timestamp}-{uuid}-{filename}`.
    pub fn generate_user_receipt_path(user_id: i64, expense_id: i64, filename: &str) -> (r: String)
        ensures
            exists|timestamp: i64, id: Seq<char>|
                id.len() == 36 && r@ == #[trigger] user_file_path(user_id, "receipts"@, expense_id, timestamp, id, filename@),
    {
        let timestamp = unix_time_now();
        let id = random_uuid_text();
        Self::user_file_path(user_id, "receipts", expense_id, timestamp, id.as_str(), filename)
    }

    /// A new path for a subscription file, made unique by the current time and
    /// a random UUID: `users/{user_id}/subscriptions/{subscription_id}/{timestamp}-{uuid}-{filename}`.
    pub fn generate_user_subscription_path(user_id: i64, subscription_id: i64, filename: &str) -> (r: String)
        ensures
            exists|timestamp: i64, id: Seq<char>|
                id.len() == 36 && r@ == #[trigger] user_file_path(
                    user_id,
                    "subscriptions"@,
                    subscription_id,
                    timestamp,
                    id,
                    filename@,
                ),
    {
        let timestamp = unix_time_now();
        let id = random_uuid_text();
        Self::user_file_path(user_id, "subscriptions", subscription_id, timestamp, id.as_str(), filename)
    }
}

} // verus!
