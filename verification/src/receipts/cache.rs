//! The local cache of receipt files: its size limit, the age at which files
//! leave it, and the names of cached files.
use vstd::prelude::*;
use vstd::string::*;
use std::path::PathBuf;
use std::hash::{Hash, Hasher};
use crate::text::{find_from, text_contains};

verus! {

/// A file-system path (std's `PathBuf`), carried as is.
#[verifier::external_type_specification]
#[verifier::external_body]
pub struct ExPathBuf(std::path::PathBuf);

/// How long a file stays in the cache, in seconds (seven days).
pub const CACHE_MAX_AGE_SECONDS: u64 = 604800;

/// The extension that a cached file gets, by what the URL mentions.
pub open spec fn cache_extension(url: Seq<char>) -> Seq<char> {
    if find_from(url, ".pdf"@, 0) is Some {
        "pdf"@
    } else if find_from(url, ".png"@, 0) is Some {
        "png"@
    } else if find_from(url, ".jpg"@, 0) is Some || find_from(url, ".jpeg"@, 0) is Some {
        "jpg"@
    } else {
        "bin"@
    }
}

/// The hash of a text by std's `DefaultHasher::new()` (fixed keys).
pub uninterp spec fn default_hash(text: Seq<char>) -> u64;

/// std: `DefaultHasher::new()`, `str::hash`, `Hasher::finish`. Claimed: the
/// result is [`default_hash`] of the text (the hasher is built with fixed
/// keys, so equal texts hash equally within a build).
#[verifier::external_body]
fn hash_text(text: &str) -> (r: u64)
    ensures
        r == default_hash(text@),
{
    let mut hasher = std::collections::hash_map::DefaultHasher::new();
    text.hash(&mut hasher);
    hasher.finish()
}

/// The lower-case hexadecimal digit for a value below sixteen.
pub open spec fn hex_digit_of(d: int) -> char {
    if d < 10 { (('0' as int) + d) as char } else { (('a' as int) + d - 10) as char }
}

/// Lower-case hexadecimal rendering without leading zeros ("0" for zero).
pub open spec fn hex_of(n: nat) -> Seq<char>
    decreases n,
{
    if n < 16 {
        seq![hex_digit_of(n as int)]
    } else {
        hex_of(n / 16).push(hex_digit_of((n % 16) as int))
    }
}

fn hex_text(n: u64) -> (r: String)
    ensures
        r@ == hex_of(n as nat),
    decreases n,
{
    let d = (n % 16) as u8;
    let c = if d < 10 { (d + 48) as char } else { (d + 87) as char };
    if n < 16 {
        let mut s = String::new();
        crate::text::push_char(&mut s, c);
        assert(s@ =~= hex_of(n as nat));
        s
    } else {
        let mut s = hex_text(n / 16);
        crate::text::push_char(&mut s, c);
        s
    }
}

/// The name of the cached file of a receipt URL: `receipt_{hash}.{extension}`.
pub open spec fn cache_file_name(url: Seq<char>) -> Seq<char> {
    "receipt_"@ + hex_of(default_hash(url) as nat) + "."@ + cache_extension(url)
}

/// The local cache of receipt files.
pub struct CacheManager {
    cache_dir: PathBuf,
    /// The largest total size of the cache, in bytes.
    pub max_cache_size: u64,
    max_age_seconds: u64,
}

impl CacheManager {
    pub closed spec fn max_age_spec(&self) -> u64 {
        self.max_age_seconds
    }

    pub closed spec fn max_size_spec(&self) -> u64 {
        self.max_cache_size
    }

    pub closed spec fn dir_spec(&self) -> PathBuf {
        self.cache_dir
    }

    /// A cache in `cache_dir` of at most `max_size_mb` MiB, whose files leave
    /// after seven days.
    pub fn new(cache_dir: PathBuf, max_size_mb: u64) -> (r: Self)
        requires
            max_size_mb * 1048576 <= u64::MAX,
        ensures
            r.max_size_spec() == max_size_mb * 1048576,
            r.max_age_spec() == CACHE_MAX_AGE_SECONDS,
            r.dir_spec() == cache_dir,
    {
        CacheManager { cache_dir, max_cache_size: max_size_mb * 1024 * 1024, max_age_seconds: CACHE_MAX_AGE_SECONDS }
    }

    /// The directory of the cache.
    pub fn cache_dir(&self) -> (r: &PathBuf)
        ensures
            *r == self.dir_spec(),
    {
        &self.cache_dir
    }

    /// The age, in whole days, at which files leave the cache.
    pub fn max_age_days(&self) -> (r: u64)
        ensures
            r == self.max_age_spec() / 86400,
    {
        self.max_age_seconds / 86400
    }

    /// Whether a cache of `current_size` bytes must be cleaned up.
    pub fn exceeds_limit(&self, current_size: u64) -> (r: bool)
        ensures
            r == (current_size > self.max_size_spec()),
    {
        current_size > self.max_cache_size
    }

    /// The extension that a cached file of a receipt URL gets.
    pub fn cache_extension(receipt_url: &str) -> (r: &'static str)
        ensures
            r@ == cache_extension(receipt_url@),
    {
        if text_contains(receipt_url, ".pdf") {
            "pdf"
        } else if text_contains(receipt_url, ".png") {
            "png"
        } else if text_contains(receipt_url, ".jpg") || text_contains(receipt_url, ".jpeg") {
            "jpg"
        } else {
            "bin"
        }
    }

    /// The name of the cached file of a receipt URL.
    pub fn generate_cache_filename(&self, receipt_url: &str) -> (r: String)
        ensures
            r@ == cache_file_name(receipt_url@),
    {
        let hash = hash_text(receipt_url);
        let mut name = String::from_str("receipt_");
        name.append(hex_text(hash).as_str());
        name.append(".");
        name.append(Self::cache_extension(receipt_url));
        name
    }
}

} // verus!
