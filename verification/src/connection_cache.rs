//! The cache of the storage connection test: a result is reused while it is
//! younger than the cache's duration.
use vstd::prelude::*;
use std::time::Instant;

verus! {

/// A moment of the monotonic clock (std's `Instant`), carried as is.
#[verifier::external_type_specification]
#[verifier::external_body]
pub struct ExInstant(std::time::Instant);

/// std: `Instant::now()`. Nothing is claimed of the moment.
#[verifier::external_body]
fn now_instant() -> Instant {
    Instant::now()
}

/// std: `Instant::elapsed` since `since`, in whole seconds
/// (`Duration::as_secs`). Nothing is claimed: the answer depends on the clock.
#[verifier::external_body]
fn elapsed_secs(since: &Instant) -> u64 {
    since.elapsed().as_secs()
}

/// How long a connection test result stays valid, in seconds (five minutes).
pub const CONNECTION_CACHE_SECONDS: u64 = 300;

/// The cache of the storage connection test.
#[derive(Debug)]
pub struct R2ConnectionCache {
    pub last_test_time: Option<Instant>,
    pub last_test_result: Option<bool>,
    /// How long a result stays valid, in seconds.
    pub cache_duration: u64,
}

/// Whether a result recorded `elapsed_secs` whole seconds ago is still valid
/// under a duration of `duration_secs` seconds: less time than the duration
/// has passed.
pub fn cache_valid_at(elapsed_secs: u64, duration_secs: u64) -> (r: bool)
    ensures
        r == (elapsed_secs < duration_secs),
{
    elapsed_secs < duration_secs
}

impl R2ConnectionCache {
    /// Whether the cache holds a valid result when `elapsed_secs` whole
    /// seconds have passed since its last test: a test was recorded and less
    /// than the cache's duration has passed.
    pub open spec fn valid_after(&self, elapsed_secs: u64) -> bool {
        self.last_test_time is Some && elapsed_secs < self.cache_duration
    }

    /// What the cache answers when `elapsed_secs` whole seconds have passed
    /// since its last test: the last result while it is valid, else nothing.
    pub open spec fn result_after(&self, elapsed_secs: u64) -> Option<bool> {
        if self.valid_after(elapsed_secs) {
            self.last_test_result
        } else {
            None
        }
    }

    /// An empty cache, whose results stay valid for five minutes.
    pub fn new() -> (r: Self)
        ensures
            r.last_test_time is None,
            r.last_test_result is None,
            r.cache_duration == CONNECTION_CACHE_SECONDS,
    {
        R2ConnectionCache { last_test_time: None, last_test_result: None, cache_duration: CONNECTION_CACHE_SECONDS }
    }

    /// Whether the cache holds a valid result after `elapsed_secs` seconds.
    pub fn is_valid_after(&self, elapsed_secs: u64) -> (r: bool)
        ensures
            r == self.valid_after(elapsed_secs),
    {
        self.last_test_time.is_some() && cache_valid_at(elapsed_secs, self.cache_duration)
    }

    /// What the cache answers after `elapsed_secs` seconds.
    pub fn cached_result_after(&self, elapsed_secs: u64) -> (r: Option<bool>)
        ensures
            r == self.result_after(elapsed_secs),
    {
        if self.is_valid_after(elapsed_secs) {
            self.last_test_result
        } else {
            None
        }
    }

    /// Whether the last result is still valid: there is one, and less than
    /// the cache's duration has passed since it was recorded (the time passed
    /// is the clock's).
    pub fn is_cache_valid(&self) -> (r: bool)
        ensures
            exists|elapsed_secs: u64| r == #[trigger] self.valid_after(elapsed_secs),
    {
        let elapsed = match &self.last_test_time {
            Some(t) => elapsed_secs(t),
            None => 0,
        };
        self.is_valid_after(elapsed)
    }

    /// Records a test result, as of now.
    pub fn update_cache(&mut self, result: bool)
        ensures
            final(self).last_test_time is Some,
            final(self).last_test_result == Some(result),
            final(self).cache_duration == old(self).cache_duration,
    {
        self.last_test_time = Some(now_instant());
        self.last_test_result = Some(result);
    }

    /// The last result while it is valid (the time passed since it was
    /// recorded is the clock's).
    pub fn get_cached_result(&self) -> (r: Option<bool>)
        ensures
            exists|elapsed_secs: u64| r == #[trigger] self.result_after(elapsed_secs),
    {
        let elapsed = match &self.last_test_time {
            Some(t) => elapsed_secs(t),
            None => 0,
        };
        self.cached_result_after(elapsed)
    }
}

} // verus!
