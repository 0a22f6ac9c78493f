//! Client configuration and its defaults, and the request pacing rule.

use vstd::prelude::*;
use std::path::PathBuf;
use std::time::Duration;

verus! {

/// Default API host.
pub const API_HOST: &'static str = "jumpg-api.tokyo-cdn.com";

/// `app_ver` query param we send: the reverse-engineered app version
/// (v2.3.0 = versionCode 250).
pub const APP_VER: &'static str = "250";

/// `os_ver` query param: the Android SDK level the official app sends.
pub const OS_VER_DEFAULT: &'static str = "36";

/// Max concurrent CDN image fetches.
pub const DEFAULT_MAX_CONCURRENT_IMAGES: usize = 12;

/// Per-image retry budget on transient failures (extra tries).
pub const DEFAULT_IMAGE_RETRY_ATTEMPTS: u32 = 2;

/// Base backoff for image retries (ms), doubled each subsequent retry.
pub const DEFAULT_IMAGE_RETRY_BACKOFF_MS: u64 = 250;

/// Default minimum interval between API requests (ms).
pub const DEFAULT_MIN_REQUEST_INTERVAL_MS: u64 = 500;

/// `std::path::PathBuf`, carried opaquely.
#[verifier::external_type_specification]
#[verifier::external_body]
pub struct ExPathBuf(PathBuf);

/// `<PathBuf as Clone>::clone`: a copy of the path; nothing is stated of it.
pub assume_specification[ <PathBuf as Clone>::clone ](p: &PathBuf) -> PathBuf;

/// `<Duration as Clone>::clone`: `Duration` is `Copy`, so the clone is the
/// same value.
pub assume_specification[ <Duration as Clone>::clone ](d: &Duration) -> (r: Duration)
    ensures
        r == *d,
;

/// The length of a duration in nanoseconds (`Duration::as_nanos`).
pub uninterp spec fn duration_nanos(d: Duration) -> nat;

/// `Duration::from_millis`: the duration of `ms` milliseconds.
#[verifier::external_body]
pub(crate) fn duration_from_millis(ms: u64) -> (d: Duration)
    ensures
        duration_nanos(d) == ms * 1_000_000,
{
    Duration::from_millis(ms)
}

/// `Duration::as_nanos`: the total number of nanoseconds of `d`.
#[verifier::external_body]
pub(crate) fn duration_as_nanos(d: &Duration) -> (r: u128)
    ensures
        r == duration_nanos(*d),
{
    d.as_nanos()
}

/// `Duration::checked_sub`: `a - b`, or none when that would be negative.
#[verifier::external_body]
pub(crate) fn duration_checked_sub(a: Duration, b: Duration) -> (r: Option<Duration>)
    ensures
        r is None <==> duration_nanos(a) < duration_nanos(b),
        r matches Some(d) ==> duration_nanos(d) == duration_nanos(a) - duration_nanos(b),
{
    a.checked_sub(b)
}

/// Builder/config for the API client.
#[derive(Clone, Debug)]
pub struct ClientConfig {
    pub host: String,
    pub app_ver: String,
    pub os_ver: String,
    pub secret: String,
    /// Minimum interval between outbound API requests; the server locks a
    /// session out after bursts of requests.
    pub min_request_interval: Duration,
    /// Where to cache fetched image bytes. `None` disables caching.
    pub image_cache_dir: Option<PathBuf>,
    /// Max concurrent CDN image fetches.
    pub max_concurrent_images: usize,
    /// Per-image retry budget on transient failures.
    pub image_retry_attempts: u32,
    /// Base backoff for image retries, in milliseconds.
    pub image_retry_backoff_ms: u64,
}

impl ClientConfig {
    /// The default configuration for the session `secret`.
    pub fn new(secret: &str) -> (r: Self)
        ensures
            r.host@ == API_HOST@,
            r.app_ver@ == APP_VER@,
            r.os_ver@ == OS_VER_DEFAULT@,
            r.secret@ == secret@,
            duration_nanos(r.min_request_interval) == DEFAULT_MIN_REQUEST_INTERVAL_MS * 1_000_000,
            r.image_cache_dir is None,
            r.max_concurrent_images == DEFAULT_MAX_CONCURRENT_IMAGES,
            r.image_retry_attempts == DEFAULT_IMAGE_RETRY_ATTEMPTS,
            r.image_retry_backoff_ms == DEFAULT_IMAGE_RETRY_BACKOFF_MS,
    {
        ClientConfig {
            host: API_HOST.to_owned(),
            app_ver: APP_VER.to_owned(),
            os_ver: OS_VER_DEFAULT.to_owned(),
            secret: secret.to_owned(),
            min_request_interval: duration_from_millis(DEFAULT_MIN_REQUEST_INTERVAL_MS),
            image_cache_dir: None,
            max_concurrent_images: DEFAULT_MAX_CONCURRENT_IMAGES,
            image_retry_attempts: DEFAULT_IMAGE_RETRY_ATTEMPTS,
            image_retry_backoff_ms: DEFAULT_IMAGE_RETRY_BACKOFF_MS,
        }
    }

    /// The number of concurrent image fetches allowed: the configured
    /// number, but at least one (zero would deadlock).
    pub fn image_permits(&self) -> (r: usize)
        ensures
            r == if self.max_concurrent_images == 0 { 1 } else { self.max_concurrent_images },
    {
        if self.max_concurrent_images == 0 {
            1
        } else {
            self.max_concurrent_images
        }
    }
}

/// How long a request waits before going out, given the time elapsed since
/// the previous request (none for the first request) and the minimum
/// interval: the rest of the interval when less than it has elapsed,
/// otherwise no wait.
pub fn throttle_wait(elapsed: Option<Duration>, min_interval: Duration) -> (r: Option<Duration>)
    ensures
        match elapsed {
            Some(e) => if duration_nanos(e) < duration_nanos(min_interval) {
                r matches Some(w) && duration_nanos(w) == duration_nanos(min_interval) - duration_nanos(e)
            } else {
                r is None
            },
            None => r is None,
        },
{
    match elapsed {
        Some(e) => {
            if duration_as_nanos(&e) < duration_as_nanos(&min_interval) {
                duration_checked_sub(min_interval, e)
            } else {
                None
            }
        },
        None => None,
    }
}

} // verus!
