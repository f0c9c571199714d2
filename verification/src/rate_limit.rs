//! Sliding-window rate limiting: the decisions around one check of an
//! account's request log.
//!
//! A check removes the log entries older than the window, records the new
//! request, counts the entries inside the window and decides on that count.
//! The log itself lives in an outside store; this module computes what the
//! store is asked and what the count means.

use vstd::prelude::*;
use vstd::set_lib::{lemma_int_range, set_int_range};
use vstd::string::*;

verus! {

/// The answer to one rate limit check.
#[derive(Debug, Clone, Copy, PartialEq, Eq, Structural)]
pub struct RateLimitResult {
    /// Whether the request may go ahead.
    pub allowed: bool,
    /// Requests still allowed in the current window.
    pub remaining: u32,
    /// When the window resets, in seconds since the epoch.
    pub reset_at: u64,
}

/// The prefix of every request log key.
pub open spec fn rate_limit_key_prefix() -> Seq<char> {
    seq!['r', 'a', 't', 'e', '_', 'l', 'i', 'm', 'i', 't', ':']
}

/// The store key of the request log of `key`.
pub open spec fn rate_limit_key_of(key: Seq<char>) -> Seq<char> {
    rate_limit_key_prefix() + key
}

/// `max_requests` read as a signed 32-bit count, as the comparison with the
/// store's count reads it (two's complement wrap above `i32::MAX`).
pub open spec fn signed_limit(max_requests: u32) -> int {
    if max_requests <= i32::MAX {
        max_requests as int
    } else {
        max_requests - 0x1_0000_0000
    }
}

/// When a window that starts now resets, in seconds.
pub open spec fn reset_time(current_time_ms: u64, window_seconds: u64) -> int {
    (current_time_ms + window_seconds * 1000) / 1000
}

/// The answer for `count` requests in the window (the new one included).
pub open spec fn rate_limit_result(count: int, max_requests: u32, reset_at: u64) -> RateLimitResult {
    if count > signed_limit(max_requests) {
        RateLimitResult { allowed: false, remaining: 0, reset_at }
    } else {
        RateLimitResult {
            allowed: true,
            remaining: (signed_limit(max_requests) - count) as u32,
            reset_at,
        }
    }
}

/// The inputs on which one check can be computed: the window reaches back no
/// further than the epoch, and times in nanoseconds fit in 64 bits.
pub open spec fn check_in_range(window_seconds: u64, current_time_ms: u64) -> bool {
    &&& window_seconds * 1000 <= current_time_ms
    &&& current_time_ms * 1_000_000 <= u64::MAX
}

/// What one check asks of the store, computed before the store is touched.
pub struct RateLimitWindow {
    /// The store key of the request log.
    pub key: String,
    /// Entries scored at or below this time (in nanoseconds) are expired.
    pub window_start_nanos: u64,
    /// When the window resets, in seconds since the epoch.
    pub reset_at: u64,
    /// Lifetime given to the log after an allowed request, in seconds.
    pub expire_seconds: i64,
    /// The account's budget per window.
    pub max_requests: u32,
}

/// The store key of the request log of `key`: `rate_limit:` and the key.
pub fn rate_limit_key(key: &str) -> (s: String)
    ensures
        s@ == rate_limit_key_of(key@),
{
    let mut s = String::from_str("rate_limit:");
    proof {
        reveal_strlit("rate_limit:");
        assert("rate_limit:"@ =~= rate_limit_key_prefix());
    }
    s.append(key);
    s
}

/// Plans a check at `current_time_ms` (milliseconds since the epoch) of the
/// log of `key` against `max_requests` per `window_seconds`.
pub fn plan_rate_limit_check(
    key: &str,
    max_requests: u32,
    window_seconds: u64,
    current_time_ms: u64,
) -> (w: RateLimitWindow)
    requires
        check_in_range(window_seconds, current_time_ms),
    ensures
        w.key@ == rate_limit_key_of(key@),
        w.window_start_nanos == (current_time_ms - window_seconds * 1000) * 1_000_000,
        w.reset_at == reset_time(current_time_ms, window_seconds),
        w.reset_at * 1000 <= current_time_ms + window_seconds * 1000 < w.reset_at * 1000 + 1000,
        w.expire_seconds == window_seconds,
        w.max_requests == max_requests,
{
    let window_ms = window_seconds * 1000;
    let window_start = current_time_ms - window_ms;
    let window_start_nanos = window_start * 1_000_000;
    let reset_at = (current_time_ms + window_ms) / 1000;
    RateLimitWindow {
        key: rate_limit_key(key),
        window_start_nanos,
        reset_at,
        expire_seconds: window_seconds as i64,
        max_requests,
    }
}

/// The outcome of a check once the store has counted `count` requests in the
/// window: the answer, and whether the log's lifetime is renewed (only for
/// an allowed request).
pub struct RateLimitOutcome {
    pub result: RateLimitResult,
    pub refresh_expiry: bool,
}

/// Decides a check on the store's count of requests in the window.
pub fn rate_limit_outcome(window: &RateLimitWindow, count: i32) -> (o: RateLimitOutcome)
    requires
        count <= signed_limit(window.max_requests) ==> signed_limit(window.max_requests) - count
            <= i32::MAX,
    ensures
        o.result == rate_limit_result(count as int, window.max_requests, window.reset_at),
        o.refresh_expiry == o.result.allowed,
        o.result.allowed <==> count <= signed_limit(window.max_requests),
{
    let limit: i32 = if window.max_requests <= 0x7fff_ffff {
        window.max_requests as i32
    } else {
        ((window.max_requests as i64) - 0x1_0000_0000) as i32
    };
    if count > limit {
        return RateLimitOutcome {
            result: RateLimitResult { allowed: false, remaining: 0, reset_at: window.reset_at },
            refresh_expiry: false,
        };
    }
    let left = limit - count;
    let remaining: i32 = if left > 0 { left } else { 0 };
    RateLimitOutcome {
        result: RateLimitResult {
            allowed: true,
            remaining: remaining as u32,
            reset_at: window.reset_at,
        },
        refresh_expiry: true,
    }
}

/// The reset time is the end of the window that starts now, in whole
/// seconds: the last full second at or before `now + window`. A window longer
/// by `d` seconds resets exactly `d` seconds later.
pub proof fn lemma_reset_is_window_end(current_time_ms: u64, window_seconds: u64, d: nat)
    ensures
        reset_time(current_time_ms, window_seconds) * 1000 <= current_time_ms + window_seconds
            * 1000 < reset_time(current_time_ms, window_seconds) * 1000 + 1000,
        reset_time(current_time_ms, window_seconds) == current_time_ms / 1000 + window_seconds,
        window_seconds + d <= u64::MAX ==> reset_time(
            current_time_ms,
            (window_seconds + d) as u64,
        ) == reset_time(current_time_ms, window_seconds) + d,
{
    let c = current_time_ms as int;
    let w = window_seconds as int;
    assert((c + w * 1000) / 1000 == c / 1000 + w) by (nonlinear_arith);
    assert(reset_time(current_time_ms, window_seconds) == c / 1000 + w);
    assert(reset_time(current_time_ms, window_seconds) * 1000 <= c + w * 1000 < reset_time(
        current_time_ms,
        window_seconds,
    ) * 1000 + 1000) by (nonlinear_arith)
        requires
            reset_time(current_time_ms, window_seconds) == c / 1000 + w,
            c >= 0,
    ;
    if window_seconds + d <= u64::MAX {
        let w2 = (window_seconds + d) as u64;
        assert((c + w2 * 1000) / 1000 == c / 1000 + w2) by (nonlinear_arith);
    }
}

/// Distinct keys have distinct request logs: one account's requests never
/// count against another's.
pub proof fn lemma_rate_limit_keys_distinct(a: Seq<char>, b: Seq<char>)
    requires
        a != b,
    ensures
        rate_limit_key_of(a) != rate_limit_key_of(b),
{
    let p = rate_limit_key_prefix();
    if rate_limit_key_of(a) == rate_limit_key_of(b) {
        assert(rate_limit_key_of(a).skip(p.len() as int) =~= a);
        assert(rate_limit_key_of(b).skip(p.len() as int) =~= b);
    }
}

/// Within one window the store counts the first request as 1, the second as
/// 2, and so on; of the first `n` such requests exactly `min(n, max)` are
/// allowed, and the allowed ones are the first ones.
pub proof fn lemma_window_budget(max_requests: u32, reset_at: u64, n: nat)
    requires
        max_requests <= i32::MAX,
    ensures
        forall|k: int|
            1 <= k <= n ==> (#[trigger] rate_limit_result(k, max_requests, reset_at).allowed
                <==> k <= max_requests),
        Set::new(|k: int| 1 <= k <= n && rate_limit_result(k, max_requests, reset_at).allowed).len()
            == if n <= max_requests {
            n as int
        } else {
            max_requests as int
        },
{
    let m: int = if n <= max_requests {
        n as int
    } else {
        max_requests as int
    };
    let allowed = Set::new(
        |k: int| 1 <= k <= n && rate_limit_result(k, max_requests, reset_at).allowed,
    );
    assert(allowed =~= set_int_range(1, m + 1));
    lemma_int_range(1, m + 1);
}

/// An allowed request leaves `max - count` requests in the window: each
/// allowed request uses up exactly one.
pub proof fn lemma_remaining_counts_down(max_requests: u32, reset_at: u64, count: int)
    requires
        max_requests <= i32::MAX,
        1 <= count <= max_requests,
    ensures
        rate_limit_result(count, max_requests, reset_at).allowed,
        rate_limit_result(count, max_requests, reset_at).remaining + count == max_requests,
        rate_limit_result(count, max_requests, reset_at).remaining < max_requests,
{
}

} // verus!
