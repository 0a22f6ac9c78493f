//! Image fetching policy: the content type guessed from a URL, the cache
//! key of a CDN URL, the retry schedule with exponential backoff, and the
//! checks applied to a CDN answer.

use vstd::prelude::*;
use vstd::arithmetic::power2::pow2;
use crate::error::{is_retriable, spec_is_retriable, ApiError, Result};
use crate::request::status_is_success;
use crate::text::{
    lemma_before_first_absent, lemma_before_first_concat,
    after_last, after_nth, before_first, chars_of, decimal, first_position, position_after_last,
    position_after_nth, prefix_chars, push_decimal, push_str, range_equals, starts_with_at,
    string_of_range,
};

verus! {

/// Hard cap on a single image body (bytes): well above any real manga page.
pub const MAX_IMAGE_BYTES: u64 = 32 * 1024 * 1024;

/// Cap on the exponential shift of the backoff: base × 256 at most.
pub const BACKOFF_SHIFT_CAP: u32 = 8;

/// The part of a URL before its query string.
pub open spec fn url_path(url: Seq<char>) -> Seq<char> {
    before_first(url, '?')
}

/// The extension of a URL's path: what follows its last '.'.
pub open spec fn url_extension(url: Seq<char>) -> Option<Seq<char>> {
    after_last(url_path(url), '.')
}

/// The content type of an image extension; WebP for anything unknown.
pub open spec fn extension_content_type(ext: Option<Seq<char>>) -> Seq<char> {
    match ext {
        Some(e) => if e == "png"@ {
            "image/png"@
        } else if e == "jpg"@ || e == "jpeg"@ {
            "image/jpeg"@
        } else if e == "gif"@ {
            "image/gif"@
        } else if e == "avif"@ {
            "image/avif"@
        } else if e == "heif"@ || e == "heic"@ {
            "image/heif"@
        } else {
            "image/webp"@
        },
        None => "image/webp"@,
    }
}

/// The content type to report for an image URL when the CDN sends none,
/// from the extension of its path (the query string is ignored).
pub fn content_type_from_ext(url: &str) -> (r: &'static str)
    ensures
        r@ == extension_content_type(url_extension(url@)),
{
    let v = chars_of(url);
    let k = first_position(&v, '?');
    let path = prefix_chars(&v, k);
    match position_after_last(&path, '.') {
        Some(e) => {
            let n = path.len();
            assert(path@.subrange(e as int, n as int) =~= path@.skip(e as int));
            if range_equals(&path, e, n, "png") {
                "image/png"
            } else if range_equals(&path, e, n, "jpg") || range_equals(&path, e, n, "jpeg") {
                "image/jpeg"
            } else if range_equals(&path, e, n, "gif") {
                "image/gif"
            } else if range_equals(&path, e, n, "avif") {
                "image/avif"
            } else if range_equals(&path, e, n, "heif") || range_equals(&path, e, n, "heic") {
                "image/heif"
            } else {
                "image/webp"
            }
        },
        None => "image/webp",
    }
}

/// After the last '.' of `s + "." + e`, where `e` holds no '.', comes `e`.
proof fn lemma_after_last_dot(s: Seq<char>, e: Seq<char>)
    requires
        !e.contains('.'),
    ensures
        after_last(s + seq!['.'] + e, '.') == Some(e),
    decreases e.len(),
{
    let w = s + seq!['.'] + e;
    if e.len() == 0 {
        assert(w =~= s.push('.'));
    } else {
        assert(e.last() != '.') by {
            assert(e[e.len() - 1] == e.last());
        }
        assert(!e.drop_last().contains('.')) by {
            if e.drop_last().contains('.') {
                let j = choose|j: int| 0 <= j < e.drop_last().len() && e.drop_last()[j] == '.';
                assert(e[j] == '.');
            }
        }
        lemma_after_last_dot(s, e.drop_last());
        assert(w.drop_last() =~= s + seq!['.'] + e.drop_last());
        assert(w.last() == e.last());
        assert(e.drop_last().push(e.last()) =~= e);
    }
}

/// The extension of a URL is what follows the last '.' of its path,
/// whatever dots come before (in the host name or the path), so the
/// content type of `p.e` is decided by `e` alone: jpg and jpeg give JPEG,
/// png PNG, gif GIF, avif AVIF, heif and heic HEIF.
pub proof fn law_content_type_from_last_extension(p: Seq<char>, e: Seq<char>)
    requires
        !p.contains('?'),
        !e.contains('?'),
        !e.contains('.'),
    ensures
        url_extension(p + seq!['.'] + e) == Some(e),
        extension_content_type(url_extension(p + seq!['.'] + e)) == extension_content_type(
            url_extension(seq!['x', '.'] + e),
        ),
        e == seq!['j', 'p', 'g'] ==> extension_content_type(url_extension(p + seq!['.'] + e))
            == seq!['i', 'm', 'a', 'g', 'e', '/', 'j', 'p', 'e', 'g'],
        e == seq!['p', 'n', 'g'] ==> extension_content_type(url_extension(p + seq!['.'] + e))
            == seq!['i', 'm', 'a', 'g', 'e', '/', 'p', 'n', 'g'],
        e == seq!['g', 'i', 'f'] ==> extension_content_type(url_extension(p + seq!['.'] + e))
            == seq!['i', 'm', 'a', 'g', 'e', '/', 'g', 'i', 'f'],
{
    let w = p + seq!['.'] + e;
    assert(!w.contains('?')) by {
        if w.contains('?') {
            let j = choose|j: int| 0 <= j < w.len() && w[j] == '?';
            if j < p.len() {
                assert(p[j] == '?');
            } else if j > p.len() {
                assert(e[j - p.len() - 1] == '?');
            }
        }
    }
    lemma_before_first_absent(w, '?');
    lemma_after_last_dot(p, e);
    let x = seq!['x', '.'] + e;
    assert(x =~= seq!['x'] + seq!['.'] + e);
    assert(!x.contains('?')) by {
        if x.contains('?') {
            let j = choose|j: int| 0 <= j < x.len() && x[j] == '?';
            if j >= 2 {
                assert(e[j - 2] == '?');
            }
        }
    }
    lemma_before_first_absent(x, '?');
    lemma_after_last_dot(seq!['x'], e);
    reveal_strlit("jpg");
    reveal_strlit("jpeg");
    reveal_strlit("png");
    reveal_strlit("gif");
    reveal_strlit("image/jpeg");
    reveal_strlit("image/png");
    reveal_strlit("image/gif");
    if e == seq!['j', 'p', 'g'] {
        assert("jpg"@ =~= e);
        assert("image/jpeg"@ =~= seq!['i', 'm', 'a', 'g', 'e', '/', 'j', 'p', 'e', 'g']);
    }
    if e == seq!['p', 'n', 'g'] {
        assert("png"@ =~= e);
        assert("jpg"@ != e) by { assert("jpg"@[0] != e[0]); }
        assert("jpeg"@ != e) by { assert("jpeg"@.len() != e.len()); }
        assert("image/png"@ =~= seq!['i', 'm', 'a', 'g', 'e', '/', 'p', 'n', 'g']);
    }
    if e == seq!['g', 'i', 'f'] {
        assert("gif"@ =~= e);
        assert("png"@ != e) by { assert("png"@[0] != e[0]); }
        assert("jpg"@ != e) by { assert("jpg"@[0] != e[0]); }
        assert("jpeg"@ != e) by { assert("jpeg"@.len() != e.len()); }
        assert("image/gif"@ =~= seq!['i', 'm', 'a', 'g', 'e', '/', 'g', 'i', 'f']);
    }
}

/// `s` without the prefix `pre`, or `s` when it does not start with it.
pub open spec fn strip_prefix(s: Seq<char>, pre: Seq<char>) -> Seq<char> {
    if pre.len() <= s.len() && s.take(pre.len() as int) == pre {
        s.skip(pre.len() as int)
    } else {
        s
    }
}

/// The cache key of a CDN image URL: its path without the query string,
/// without "scheme://host/" (what follows the third '/', when there is
/// one), and without a leading "secure/".
pub open spec fn spec_cache_key(url: Seq<char>) -> Seq<char> {
    let path = url_path(url);
    let after_host = match after_nth(path, '/', 3) {
        Some(t) => t,
        None => path,
    };
    strip_prefix(after_host, "secure/"@)
}

/// Map a CDN image URL to a stable path below the cache directory:
/// "https://host/secure/title/X/chapter/Y/manga_page/high/1.webp?hash=..."
/// becomes "title/X/chapter/Y/manga_page/high/1.webp".
pub fn cache_key(url: &str) -> (r: String)
    ensures
        r@ == spec_cache_key(url@),
{
    let v = chars_of(url);
    let k = first_position(&v, '?');
    let path = prefix_chars(&v, k);
    let start: usize = match position_after_nth(&path, '/', 3) {
        Some(s) => s,
        None => 0,
    };
    assert(path@.skip(0) =~= path@);
    let ghost after_host = path@.skip(start as int);
    let pre = chars_of("secure/");
    if starts_with_at(&path, start, "secure/") {
        assert(after_host.take(pre@.len() as int) =~= path@.subrange(
            start as int,
            start + pre@.len(),
        ));
        let r = string_of_range(&path, start + pre.len(), path.len());
        assert(r@ =~= after_host.skip(pre@.len() as int));
        r
    } else {
        assert(pre@.len() <= after_host.len() ==> after_host.take(pre@.len() as int) =~= path@.subrange(
            start as int,
            start + pre@.len(),
        ));
        let r = string_of_range(&path, start, path.len());
        assert(r@ =~= after_host);
        r
    }
}

/// A query string does not change the content type guessed from a URL,
/// nor its cache key.
pub proof fn law_query_string_ignored(url: Seq<char>, query: Seq<char>)
    requires
        !url.contains('?'),
    ensures
        url_extension(url + seq!['?'] + query) == url_extension(url),
        spec_cache_key(url + seq!['?'] + query) == spec_cache_key(url),
{
    assert(url + seq!['?'] + query =~= url + (seq!['?'] + query));
    lemma_before_first_concat(url, seq!['?'] + query, '?');
    lemma_before_first_absent(url, '?');
}

/// The backoff before retry number `attempt` (1-based; attempt 0 is the
/// first try and has none): `base_ms` doubled for each earlier retry, the
/// doubling capped at 256×, saturating at `u64::MAX`.
pub open spec fn spec_backoff_delay_ms(base_ms: u64, attempt: u32) -> u64 {
    if attempt == 0 {
        0
    } else {
        let shift: nat = if attempt - 1 < BACKOFF_SHIFT_CAP { (attempt - 1) as nat } else { BACKOFF_SHIFT_CAP as nat };
        let p = base_ms * pow2(shift);
        if p > u64::MAX {
            u64::MAX
        } else {
            p as u64
        }
    }
}

/// Pure backoff schedule for the image-fetch retry loop.
pub fn backoff_delay_ms(base_ms: u64, attempt: u32) -> (r: u64)
    ensures
        r == spec_backoff_delay_ms(base_ms, attempt),
{
    if attempt == 0 {
        return 0;
    }
    let shift: u32 = if attempt - 1 < BACKOFF_SHIFT_CAP { attempt - 1 } else { BACKOFF_SHIFT_CAP };
    proof {
        vstd::bits::lemma_u64_pow2_no_overflow(shift as nat);
        vstd::bits::lemma_u64_shl_is_mul(1u64, shift as u64);
    }
    let mult: u64 = 1u64 << (shift as u64);
    match base_ms.checked_mul(mult) {
        Some(p) => p,
        None => u64::MAX,
    }
}

/// The first try has no backoff; the first retry waits the base delay.
pub proof fn law_backoff_starts_at_base(base_ms: u64)
    ensures
        spec_backoff_delay_ms(base_ms, 0) == 0,
        spec_backoff_delay_ms(base_ms, 1) == base_ms,
{
    vstd::arithmetic::power2::lemma2_to64();
    assert(pow2(0) == 1);
    assert(base_ms * pow2(0) == base_ms);
}

/// Up to the cap, each retry waits twice as long as the one before,
/// saturating at `u64::MAX`.
pub proof fn law_backoff_doubles(base_ms: u64, attempt: u32)
    requires
        1 <= attempt <= BACKOFF_SHIFT_CAP,
    ensures
        spec_backoff_delay_ms(base_ms, (attempt + 1) as u32) == if 2 * spec_backoff_delay_ms(base_ms, attempt) > u64::MAX {
            u64::MAX
        } else {
            (2 * spec_backoff_delay_ms(base_ms, attempt)) as u64
        },
{
    let e: nat = (attempt - 1) as nat;
    vstd::arithmetic::power2::lemma_pow2_unfold(e + 1);
    let x = pow2(e);
    assert(base_ms * pow2(e + 1) == 2 * (base_ms * x)) by (nonlinear_arith)
        requires
            pow2(e + 1) == 2 * x,
    ;
}

/// From the ninth retry on, the delay no longer grows.
pub proof fn law_backoff_capped(base_ms: u64, attempt: u32)
    requires
        attempt > BACKOFF_SHIFT_CAP,
    ensures
        spec_backoff_delay_ms(base_ms, attempt) == spec_backoff_delay_ms(base_ms, (BACKOFF_SHIFT_CAP + 1) as u32),
{
}

/// From the ninth retry on, the delay is 256 times the base, saturating at
/// `u64::MAX`; the first retry waits the base itself and the second twice it.
pub proof fn law_backoff_values(base_ms: u64, attempt: u32)
    ensures
        attempt >= 9 ==> spec_backoff_delay_ms(base_ms, attempt) == if base_ms * 256 > u64::MAX {
            u64::MAX
        } else {
            (base_ms * 256) as u64
        },
        spec_backoff_delay_ms(base_ms, 2) == if base_ms * 2 > u64::MAX {
            u64::MAX
        } else {
            (base_ms * 2) as u64
        },
{
    vstd::arithmetic::power2::lemma2_to64();
    assert(pow2(8) == 256);
    assert(pow2(1) == 2);
}

/// The delay never decreases from one retry to a later one, and never
/// exceeds 256 times the base.
pub proof fn law_backoff_monotone_and_bounded(base_ms: u64, a1: u32, a2: u32)
    requires
        a1 <= a2,
    ensures
        spec_backoff_delay_ms(base_ms, a1) <= spec_backoff_delay_ms(base_ms, a2),
        spec_backoff_delay_ms(base_ms, a2) <= base_ms * 256,
{
    vstd::arithmetic::power2::lemma2_to64();
    if a1 > 0 {
        let e1: nat = if a1 - 1 < BACKOFF_SHIFT_CAP { (a1 - 1) as nat } else { BACKOFF_SHIFT_CAP as nat };
        let e2: nat = if a2 - 1 < BACKOFF_SHIFT_CAP { (a2 - 1) as nat } else { BACKOFF_SHIFT_CAP as nat };
        if e1 < e2 {
            vstd::arithmetic::power2::lemma_pow2_strictly_increases(e1, e2);
        }
        let p1 = pow2(e1);
        let p2 = pow2(e2);
        assert(base_ms * p1 <= base_ms * p2) by (nonlinear_arith)
            requires
                p1 <= p2,
        ;
    }
    if a2 > 0 {
        let e2: nat = if a2 - 1 < BACKOFF_SHIFT_CAP { (a2 - 1) as nat } else { BACKOFF_SHIFT_CAP as nat };
        if e2 < 8 {
            vstd::arithmetic::power2::lemma_pow2_strictly_increases(e2, 8);
        }
        let p2 = pow2(e2);
        assert(base_ms * p2 <= base_ms * 256) by (nonlinear_arith)
            requires
                p2 <= 256,
        ;
    }
}

/// What the fetch loop does after an attempt.
#[derive(Debug)]
pub enum RetryStep<T> {
    /// Stop and hand this outcome to the caller.
    Done(Result<T>),
    /// Sleep this many milliseconds (holding no permit), then try again.
    RetryAfter(u64),
}

/// The retry state of one image fetch: which attempt ran last, how many
/// are allowed in all, and the backoff base.
#[derive(Debug)]
pub struct ImageRetry {
    attempt: u32,
    max_attempts: u32,
    base_ms: u64,
}

impl ImageRetry {
    /// The number of the attempt that ran last (0 for the first try).
    pub closed spec fn attempt_spec(&self) -> u32 {
        self.attempt
    }

    /// The number of attempts allowed in all.
    pub closed spec fn max_attempts_spec(&self) -> u32 {
        self.max_attempts
    }

    /// The backoff base in milliseconds.
    pub closed spec fn base_spec(&self) -> u64 {
        self.base_ms
    }

    /// The state is consistent: the attempt that ran is one of those
    /// allowed.
    pub closed spec fn wf(&self) -> bool {
        self.attempt < self.max_attempts
    }

    /// The state before the first try, allowing `retry_attempts` extra tries
    /// (saturating) after it.
    pub fn new(retry_attempts: u32, base_ms: u64) -> (r: ImageRetry)
        ensures
            r.wf(),
            r.attempt_spec() == 0,
            r.max_attempts_spec() == if retry_attempts == u32::MAX { u32::MAX } else { (retry_attempts + 1) as u32 },
            r.base_spec() == base_ms,
    {
        ImageRetry { attempt: 0, max_attempts: retry_attempts.saturating_add(1), base_ms }
    }

    /// The number of the attempt that ran last.
    pub fn attempt(&self) -> (r: u32)
        ensures
            r == self.attempt_spec(),
    {
        self.attempt
    }

    /// Decide what follows an attempt's outcome: a success or a
    /// non-retriable error ends the fetch at once; a retriable error is
    /// retried after the backoff for the next attempt while attempts
    /// remain, and ends the fetch with that error when none remain.
    pub fn on_result<T>(&mut self, result: Result<T>) -> (r: RetryStep<T>)
        requires
            old(self).wf(),
        ensures
            final(self).wf(),
            retry_step(*old(self), *final(self), result, r),
            match result {
                Err(e) => {
                    &&& (transient_by_kind(e) && old(self).attempt_spec() + 1 < old(self).max_attempts_spec())
                        ==> (r matches RetryStep::RetryAfter(ms) && ms == spec_backoff_delay_ms(
                        old(self).base_spec(),
                        (old(self).attempt_spec() + 1) as u32,
                    ))
                    &&& (transient_by_kind(e) && old(self).attempt_spec() + 1 >= old(self).max_attempts_spec())
                        ==> (r matches RetryStep::Done(Err(x)) && x == e)
                },
                Ok(_) => true,
            },
    {
        match result {
            Ok(v) => RetryStep::Done(Ok(v)),
            Err(e) => {
                if is_retriable(&e) && self.attempt + 1 < self.max_attempts {
                    self.attempt = self.attempt + 1;
                    RetryStep::RetryAfter(backoff_delay_ms(self.base_ms, self.attempt))
                } else {
                    RetryStep::Done(Err(e))
                }
            },
        }
    }
}

/// One step of the retry loop: `before` and `after` are the states around
/// an attempt's outcome `result`, and `step` is what the loop does next.
pub open spec fn retry_step<T>(before: ImageRetry, after: ImageRetry, result: Result<T>, step: RetryStep<T>) -> bool {
    &&& after.max_attempts_spec() == before.max_attempts_spec()
    &&& after.base_spec() == before.base_spec()
    &&& match result {
        Ok(v) => step == RetryStep::<T>::Done(Ok(v)) && after.attempt_spec() == before.attempt_spec(),
        Err(e) => if spec_is_retriable(e) && before.attempt_spec() + 1 < before.max_attempts_spec() {
            &&& after.attempt_spec() == before.attempt_spec() + 1
            &&& step == RetryStep::<T>::RetryAfter(
                spec_backoff_delay_ms(before.base_spec(), after.attempt_spec()),
            )
        } else {
            &&& after.attempt_spec() == before.attempt_spec()
            &&& step == RetryStep::<T>::Done(Err(e))
        },
    }
}

/// The failures a fetch retries, by their kind: a transport timeout,
/// connection, request or body fault, or a 408, 429 or 5xx status.
pub open spec fn transient_by_kind(e: ApiError) -> bool {
    ||| e matches ApiError::Http(f) && (f.timeout || f.connect || f.request || f.body)
    ||| e matches ApiError::Status(c) && (c == 408 || c == 429 || (500 <= c && c < 600))
}

/// Transport faults (timeout, connection, request, body) and 408, 429 and
/// 5xx statuses are retried with the backoff of the next attempt while an
/// attempt remains, and end the fetch only when none does; every other
/// error ends it at once.
pub proof fn law_transient_failures_are_retried<T>(
    before: ImageRetry,
    after: ImageRetry,
    e: ApiError,
    step: RetryStep<T>,
)
    requires
        before.wf(),
        retry_step(before, after, Err::<T, ApiError>(e), step),
    ensures
        transient_by_kind(e) && before.attempt_spec() + 1 < before.max_attempts_spec() ==> {
            &&& after.attempt_spec() == before.attempt_spec() + 1
            &&& step matches RetryStep::RetryAfter(ms) && ms == spec_backoff_delay_ms(
                before.base_spec(),
                (before.attempt_spec() + 1) as u32,
            )
        },
        transient_by_kind(e) && before.attempt_spec() + 1 >= before.max_attempts_spec() ==> step
            is Done,
        !transient_by_kind(e) ==> step is Done,
{
}

/// A fetch makes at most `max_attempts` attempts: the attempt that ran is
/// always one of those allowed, and every retry moves one attempt closer to
/// the last; a success or a non-retriable error ends the fetch at once, and
/// the wait before attempt `k` is the backoff for `k`.
pub proof fn law_retry_bounded<T>(before: ImageRetry, after: ImageRetry, result: Result<T>, step: RetryStep<T>)
    requires
        before.wf(),
        after.wf(),
        retry_step(before, after, result, step),
    ensures
        after.attempt_spec() + 1 <= after.max_attempts_spec(),
        step is RetryAfter ==> after.max_attempts_spec() - after.attempt_spec() < before.max_attempts_spec() - before.attempt_spec(),
        step matches RetryStep::RetryAfter(ms) ==> ms == spec_backoff_delay_ms(after.base_spec(), after.attempt_spec()),
        (result is Ok || !spec_is_retriable(result->Err_0)) ==> step is Done,
{
}

/// The cached bytes are served only when the read worked and the file is
/// not empty.
pub fn usable_cache_hit(read: Option<Vec<u8>>) -> (r: Option<Vec<u8>>)
    ensures
        match read {
            Some(b) => if b@.len() > 0 { r == Some(b) } else { r is None },
            None => r is None,
        },
{
    match read {
        Some(b) => if b.len() > 0 {
            Some(b)
        } else {
            None
        },
        None => None,
    }
}

/// The error text for an image over the size cap.
pub open spec fn too_large_message(len: u64) -> Seq<char> {
    "image too large: "@ + decimal(len as nat) + " bytes (cap "@ + decimal(MAX_IMAGE_BYTES as nat) + ")"@
}

/// Check a CDN answer before reading its body: a non-2xx status is an
/// error, and so is a declared length above [`MAX_IMAGE_BYTES`].
pub fn check_image_response(status: u16, content_length: Option<u64>) -> (r: Result<()>)
    ensures
        !status_is_success(status) ==> (r matches Err(ApiError::Status(s)) && s == status),
        status_is_success(status) ==> match content_length {
            Some(len) => if len > MAX_IMAGE_BYTES {
                r matches Err(ApiError::Other(m)) && m@ == too_large_message(len)
            } else {
                r is Ok
            },
            None => r is Ok,
        },
{
    if !(200 <= status && status <= 299) {
        return Err(ApiError::Status(status));
    }
    match content_length {
        Some(len) => {
            if len > MAX_IMAGE_BYTES {
                let mut m = String::new();
                push_str(&mut m, "image too large: ");
                push_decimal(&mut m, len);
                push_str(&mut m, " bytes (cap ");
                push_decimal(&mut m, MAX_IMAGE_BYTES);
                push_str(&mut m, ")");
                assert(m@ =~= too_large_message(len));
                Err(ApiError::Other(m))
            } else {
                Ok(())
            }
        },
        None => Ok(()),
    }
}

/// The content type of a CDN answer: the server's header when it has a
/// readable one, else the type guessed from the URL.
pub fn image_content_type(header: Option<String>, fallback: &str) -> (r: String)
    ensures
        match header {
            Some(h) => r@ == h@,
            None => r@ == fallback@,
        },
{
    match header {
        Some(h) => h,
        None => fallback.to_owned(),
    }
}

} // verus!
