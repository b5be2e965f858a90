//! The rate limiter: a sliding window over the requests that an address has
//! made. At most three challenges are issued to one address within any 900
//! seconds.
//!
//! The store keeps one [`RateLimitRecord`] for each request. The functions
//! here take the times of the requests of one address as the store returned
//! them, and count only those inside the window, whatever else the store
//! handed over.

use vstd::prelude::*;
use vstd::string::*;
use crate::models::{RateLimitRecord, RateLimitRecordView};
use crate::text::{concat3, i64_to_string, signed_decimal};

verus! {

/// The length of the window, in seconds.
pub const WINDOW_SECONDS: i64 = 900;

/// How many requests one address may make within the window.
pub const MAX_REQUESTS: usize = 3;

/// A request made at `requested_at` lies inside the window that ends at
/// `now` when it is less than 900 seconds old.
pub open spec fn in_window(requested_at: int, now: int) -> bool {
    requested_at > now - 900
}

/// The number of requests inside the window that ends at `now`.
pub open spec fn window_count(entries: Seq<i64>, now: int) -> nat
    decreases entries.len(),
{
    if entries.len() == 0 {
        0
    } else {
        window_count(entries.drop_last(), now) + if in_window(
            entries.last() as int,
            now,
        ) {
            1nat
        } else {
            0nat
        }
    }
}

/// Another challenge may be issued while fewer than three requests lie
/// inside the window.
pub open spec fn rate_allowed(entries: Seq<i64>, now: int) -> bool {
    window_count(entries, now) < 3
}

/// The time of the oldest request inside the window, if there is one.
pub open spec fn oldest_in_window(entries: Seq<i64>, now: int) -> Option<int>
    decreases entries.len(),
{
    if entries.len() == 0 {
        None
    } else {
        let t = entries.last() as int;
        match oldest_in_window(entries.drop_last(), now) {
            Some(m) => if in_window(t, now) && t < m {
                Some(t)
            } else {
                Some(m)
            },
            None => if in_window(t, now) {
                Some(t)
            } else {
                None
            },
        }
    }
}

/// The seconds until the oldest request inside the window leaves it, if
/// there is one.
pub open spec fn reset_eta(entries: Seq<i64>, now: int) -> Option<int> {
    match oldest_in_window(entries, now) {
        Some(t) => Some(t + 900 - now),
        None => None,
    }
}

/// `v`, or the nearest `i64` where it does not fit.
pub open spec fn clamp_i64(v: int) -> i64 {
    if v > i64::MAX {
        i64::MAX
    } else if v < i64::MIN {
        i64::MIN
    } else {
        v as i64
    }
}

/// The whole minutes shown to a user who has to wait: those of the estimate,
/// and never less than one.
pub open spec fn reset_minutes_spec(eta: Option<i64>) -> int {
    match eta {
        Some(s) => if s >= 60 {
            s as int / 60
        } else {
            1
        },
        None => 1,
    }
}

/// What a user who has to wait is told.
pub open spec fn rate_limit_message(minutes: int) -> Seq<char> {
    "Too many requests. Try again in "@ + signed_decimal(minutes) + " minutes."@
}

/// The record of a request made at `now`: it is purged 900 seconds later.
pub open spec fn request_record(email: Seq<char>, now: int) -> RateLimitRecordView {
    RateLimitRecordView { email, request_timestamp: now, ttl: now + 900 }
}

/// Tells whether a request made at `requested_at` lies inside the window
/// that ends at `now`.
pub fn is_in_window(requested_at: i64, now: i64) -> (r: bool)
    ensures
        r == in_window(requested_at as int, now as int),
{
    if now < i64::MIN + WINDOW_SECONDS {
        true
    } else {
        requested_at > now - WINDOW_SECONDS
    }
}

/// Tells whether the address whose requests were made at `entries` may be issued
/// another challenge at `now`.
pub fn check_rate_limit(entries: &Vec<i64>, now: i64) -> (allowed: bool)
    ensures
        allowed == rate_allowed(entries@, now as int),
{
    let mut count: usize = 0;
    let mut i: usize = 0;
    while i < entries.len()
        invariant
            i <= entries.len(),
            count <= i,
            count == window_count(entries@.take(i as int), now as int),
        decreases entries.len() - i,
    {
        proof {
            assert(entries@.take(i + 1).drop_last() =~= entries@.take(i as int));
        }
        if is_in_window(entries[i], now) {
            count += 1;
        }
        i += 1;
    }
    proof {
        assert(entries@.take(i as int) =~= entries@);
    }
    count < MAX_REQUESTS
}

/// The seconds until the oldest request inside the window leaves it, or
/// `None` where no request lies inside the window.
pub fn get_rate_limit_reset_time(entries: &Vec<i64>, now: i64) -> (r: Option<i64>)
    ensures
        match reset_eta(entries@, now as int) {
            Some(eta) => r == Some(clamp_i64(eta)),
            None => r is None,
        },
        r matches Some(eta) ==> eta >= 1,
{
    let mut oldest: Option<i64> = None;
    let mut i: usize = 0;
    while i < entries.len()
        invariant
            i <= entries.len(),
            match oldest_in_window(entries@.take(i as int), now as int) {
                Some(m) => oldest == Some(m as i64) && m == m as i64,
                None => oldest is None,
            },
            oldest matches Some(m) ==> in_window(m as int, now as int),
        decreases entries.len() - i,
    {
        proof {
            assert(entries@.take(i + 1).drop_last() =~= entries@.take(i as int));
        }
        let t = entries[i];
        if is_in_window(t, now) {
            oldest = match oldest {
                Some(m) => if t < m {
                    Some(t)
                } else {
                    Some(m)
                },
                None => Some(t),
            };
        }
        i += 1;
    }
    proof {
        assert(entries@.take(i as int) =~= entries@);
    }
    match oldest {
        Some(t) => {
            let eta: i128 = t as i128 + 900 - now as i128;
            if eta > 9223372036854775807i128 {
                Some(i64::MAX)
            } else {
                Some(eta as i64)
            }
        },
        None => None,
    }
}

/// The whole minutes shown to a user who has to wait.
pub fn reset_minutes(eta: Option<i64>) -> (r: i64)
    ensures
        r == reset_minutes_spec(eta),
        r >= 1,
{
    match eta {
        Some(s) => if s >= 60 {
            s / 60
        } else {
            1
        },
        None => 1,
    }
}

/// What a user who has to wait `minutes` minutes is told.
pub fn rate_limit_text(minutes: i64) -> (r: String)
    ensures
        r@ == rate_limit_message(minutes as int),
{
    let n = i64_to_string(minutes);
    concat3("Too many requests. Try again in ", n.as_str(), " minutes.")
}

/// The record of a request that `email` makes at `now`.
pub fn record_request(email: &str, now: i64) -> (r: RateLimitRecord)
    requires
        now + 900 <= i64::MAX,
    ensures
        r@ == request_record(email@, now as int),
{
    RateLimitRecord {
        email: String::from_str(email),
        request_timestamp: now,
        ttl: now + WINDOW_SECONDS,
    }
}

/// The count of a list is that of its front and of its last entry.
pub proof fn lemma_window_count_push(entries: Seq<i64>, e: i64, now: int)
    ensures
        window_count(entries.push(e), now) == window_count(entries, now) + if in_window(
            e as int,
            now,
        ) {
            1nat
        } else {
            0nat
        },
{
    assert(entries.push(e).drop_last() =~= entries);
}

/// A request that has just been recorded counts: one more lies inside the
/// window.
pub proof fn lemma_new_request_counts(entries: Seq<i64>, e: i64, now: int)
    requires
        e == now,
    ensures
        window_count(entries.push(e), now) == window_count(entries, now) + 1,
{
    lemma_window_count_push(entries, e, now);
}

/// A request that is 900 seconds old or older does not count.
pub proof fn lemma_old_request_does_not_count(
    entries: Seq<i64>,
    e: i64,
    now: int,
)
    requires
        e + 900 <= now,
    ensures
        window_count(entries.push(e), now) == window_count(entries, now),
{
    lemma_window_count_push(entries, e, now);
}

/// As time passes the window only loses requests.
pub proof fn lemma_window_only_shrinks(entries: Seq<i64>, now: int, later: int)
    requires
        now <= later,
    ensures
        window_count(entries, later) <= window_count(entries, now),
    decreases entries.len(),
{
    if entries.len() > 0 {
        lemma_window_only_shrinks(entries.drop_last(), now, later);
    }
}

/// The count is at least the number of the entries, among any chosen places,
/// that lie inside the window: here stated for three places.
pub proof fn lemma_three_in_window(entries: Seq<i64>, now: int, i: int, j: int, k: int)
    requires
        0 <= i < j < k < entries.len(),
        in_window(entries[i] as int, now),
        in_window(entries[j] as int, now),
        in_window(entries[k] as int, now),
    ensures
        window_count(entries, now) >= 3,
        !rate_allowed(entries, now),
    decreases entries.len(),
{
    let front = entries.drop_last();
    if k < entries.len() - 1 {
        lemma_three_in_window(front, now, i, j, k);
    } else {
        lemma_two_in_window(front, now, i, j);
    }
}

/// Two entries inside the window make a count of at least two.
proof fn lemma_two_in_window(entries: Seq<i64>, now: int, i: int, j: int)
    requires
        0 <= i < j < entries.len(),
        in_window(entries[i] as int, now),
        in_window(entries[j] as int, now),
    ensures
        window_count(entries, now) >= 2,
    decreases entries.len(),
{
    let front = entries.drop_last();
    if j < entries.len() - 1 {
        lemma_two_in_window(front, now, i, j);
    } else {
        lemma_one_in_window(front, now, i);
    }
}

/// One entry inside the window makes a count of at least one.
proof fn lemma_one_in_window(entries: Seq<i64>, now: int, i: int)
    requires
        0 <= i < entries.len(),
        in_window(entries[i] as int, now),
    ensures
        window_count(entries, now) >= 1,
    decreases entries.len(),
{
    if i < entries.len() - 1 {
        lemma_one_in_window(entries.drop_last(), now, i);
    }
}

/// The cap and its release. Let an address have made exactly three requests,
/// at `t1 <= t2 <= t3`. Then a request at `now >= t3` is refused while the
/// first of them is less than 900 seconds old, and allowed from the moment it
/// is 900 seconds old.
pub proof fn lemma_fourth_request(entries: Seq<i64>, now: int)
    requires
        entries.len() == 3,
        entries[0] <= entries[1]
            <= entries[2] <= now,
    ensures
        now < entries[0] + 900 ==> !rate_allowed(entries, now),
        now >= entries[0] + 900 ==> rate_allowed(entries, now),
{
    reveal_with_fuel(window_count, 4);
    let a = entries.drop_last();
    let b = a.drop_last();
    assert(a.last() == entries[1]);
    assert(b.last() == entries[0]);
    assert(b.drop_last().len() == 0);
}

/// The oldest request inside the window is one of the entries and lies
/// inside the window; there is one exactly when the count is not zero.
pub proof fn lemma_oldest_in_window(entries: Seq<i64>, now: int)
    ensures
        oldest_in_window(entries, now) is Some <==> window_count(entries, now) > 0,
        oldest_in_window(entries, now) matches Some(m) ==> in_window(m, now) && (exists|i: int|
            0 <= i < entries.len() && (#[trigger] entries[i]) == m) && (forall|
            i: int,
        |
            0 <= i < entries.len() && in_window((#[trigger] entries[i]) as int, now)
                ==> m <= entries[i]),
    decreases entries.len(),
{
    if entries.len() > 0 {
        let front = entries.drop_last();
        lemma_oldest_in_window(front, now);
        let t = entries.last() as int;
        match oldest_in_window(entries, now) {
            Some(m) => {
                if m == t && in_window(t, now) {
                    assert(entries[entries.len() - 1] == m);
                } else {
                    let i = choose|i: int|
                        0 <= i < front.len() && (#[trigger] front[i]) == m;
                    assert(entries[i] == m);
                }
                assert forall|i: int|
                    0 <= i < entries.len() && in_window(
                        (#[trigger] entries[i]) as int,
                        now,
                    ) implies m <= entries[i] by {
                    if i < entries.len() - 1 {
                        assert(front[i] == entries[i]);
                        lemma_one_in_window(front, now, i);
                    }
                }
            },
            None => {},
        }
    }
}

/// A user who is refused is told of a wait: where the cap is reached there is
/// an estimate, and it is at least one second.
pub proof fn lemma_refused_has_estimate(entries: Seq<i64>, now: int)
    requires
        !rate_allowed(entries, now),
    ensures
        reset_eta(entries, now) is Some,
        reset_eta(entries, now)->0 >= 1,
{
    lemma_oldest_in_window(entries, now);
}

} // verus!
