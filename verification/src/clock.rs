//! The wall clock and random identifiers.
use vstd::prelude::*;

verus! {

/// chrono: `Utc::now().timestamp()`, the seconds since the Unix epoch.
/// Nothing is claimed of the value: the clock decides it.
#[verifier::external_body]
pub(crate) fn unix_time_now() -> i64 {
    chrono::Utc::now().timestamp()
}

/// uuid: `Uuid::new_v4()` rendered with `to_string`. Claimed: the hyphenated
/// form, which has 36 characters; the digits themselves are random.
#[verifier::external_body]
pub(crate) fn random_uuid_text() -> (r: String)
    ensures
        r@.len() == 36,
{
    uuid::Uuid::new_v4().to_string()
}

/// The text `YYYY-MM-DD hh:mm:ss JST` of a moment, in Tokyo time.
pub uninterp spec fn jst_stamp(timestamp: i64) -> Seq<char>;

/// chrono and chrono-tz: the moment `timestamp` (seconds since the Unix epoch)
/// in Tokyo time, formatted with `%Y-%m-%d %H:%M:%S JST` (empty for a moment
/// beyond chrono's dates). Claimed: the text depends on the moment alone.
#[verifier::external_body]
pub(crate) fn jst_stamp_text(timestamp: i64) -> (r: String)
    ensures
        r@ == jst_stamp(timestamp),
{
    match chrono::DateTime::from_timestamp(timestamp, 0) {
        Some(t) => t.with_timezone(&chrono_tz::Asia::Tokyo).format("%Y-%m-%d %H:%M:%S JST").to_string(),
        None => String::new(),
    }
}

} // verus!
