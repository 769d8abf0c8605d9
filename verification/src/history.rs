//! Sequences of requests, and what holds of every one of them.
//!
//! The limiter deals with one request at a time, each in one indivisible
//! step. Whatever the order in which concurrent requests reach it, the
//! limiter sees one sequence; the statements below hold of all sequences and
//! so of every interleaving.

use vstd::prelude::*;
use vstd::math::min;
use axum::http::header::{HeaderMap, HeaderValue};
use crate::client::{
    all_visible_ascii, client_value, first_values, key_of, CLIENT_HEADER, UNKNOWN_CLIENT,
};
use crate::limiter::{after_request, passes, phase_of, Phase, QUOTA, RESET_INTERVAL_SECS};
use crate::window::Window;

verus! {

/// One request as the limiter sees it: when it arrives, and from whom.
pub struct Arrival {
    /// The second at which the request arrives.
    pub now: u64,
    /// The key of the client that makes it.
    pub key: Seq<char>,
}

/// The window after the limiter has dealt with `requests` in order.
pub open spec fn after_all(window: Window, requests: Seq<Arrival>) -> Window
    decreases requests.len(),
{
    if requests.len() == 0 {
        window
    } else {
        after_request(
            after_all(window, requests.drop_last()),
            requests.last().now,
            requests.last().key,
        )
    }
}

/// Whether the request at position `i` of `requests` passes, the limiter
/// having started from `window`.
pub open spec fn passes_at(window: Window, requests: Seq<Arrival>, i: int) -> bool {
    passes(after_all(window, requests.take(i)), requests[i].now, requests[i].key)
}

/// How many of `requests` come from the client `key`.
pub open spec fn seen(requests: Seq<Arrival>, key: Seq<char>) -> nat
    decreases requests.len(),
{
    if requests.len() == 0 {
        0
    } else {
        seen(requests.drop_last(), key) + if requests.last().key == key {
            1nat
        } else {
            0nat
        }
    }
}

/// How many requests of the client `key` among `requests` pass, the limiter
/// having started from `window`.
pub open spec fn passed(window: Window, requests: Seq<Arrival>, key: Seq<char>) -> nat
    decreases requests.len(),
{
    if requests.len() == 0 {
        0
    } else {
        passed(window, requests.drop_last(), key) + if requests.last().key == key && passes(
            after_all(window, requests.drop_last()),
            requests.last().now,
            requests.last().key,
        ) {
            1nat
        } else {
            0nat
        }
    }
}

/// Whether all of `requests` fall inside `window`: none arrives when the
/// window has expired, so none reopens it.
pub open spec fn in_one_window(window: Window, requests: Seq<Arrival>) -> bool {
    forall|i: int|
        0 <= i < requests.len() ==> !window.expired(
            (#[trigger] requests[i]).now,
            RESET_INTERVAL_SECS,
        )
}

/// How many more requests of `key` may pass in `window`.
pub open spec fn room(window: Window, key: Seq<char>) -> nat {
    if window.count_of(key) >= QUOTA {
        0
    } else {
        (QUOTA - window.count_of(key)) as nat
    }
}

/// The first `n` of requests that fall inside a window fall inside it too,
/// and the window is still the same one when the next request arrives.
proof fn lemma_prefix_in_one_window(window: Window, requests: Seq<Arrival>, n: int)
    requires
        in_one_window(window, requests),
        0 <= n <= requests.len(),
    ensures
        in_one_window(window, requests.take(n)),
        in_one_window(window, requests.subrange(0, n)),
        n < requests.len() ==> !window.expired(requests[n].now, RESET_INTERVAL_SECS),
{
    assert(requests.take(n) == requests.subrange(0, n));
    assert forall|i: int| 0 <= i < n implies !window.expired(
        (#[trigger] requests.take(n)[i]).now,
        RESET_INTERVAL_SECS,
    ) by {
        assert(requests.take(n)[i] == requests[i]);
    }
}

/// Inside one window no increment is lost: the window keeps its opening
/// second, and the count of every client is its count at the start plus the
/// number of its requests, up to the ceiling `usize::MAX`.
pub proof fn law_counts_add_up(window: Window, requests: Seq<Arrival>, key: Seq<char>)
    requires
        in_one_window(window, requests),
    ensures
        after_all(window, requests).start == window.start,
        after_all(window, requests).count_of(key) == min(
            window.count_of(key) + seen(requests, key),
            usize::MAX as int,
        ),
    decreases requests.len(),
{
    if requests.len() > 0 {
        let earlier = requests.drop_last();
        let last = requests.last();
        lemma_prefix_in_one_window(window, requests, requests.len() - 1);
        law_counts_add_up(window, earlier, key);
        law_counts_add_up(window, earlier, last.key);
        assert(after_all(window, earlier).rolled(last.now, RESET_INTERVAL_SECS) == after_all(
            window,
            earlier,
        ));
    }
}

/// Inside one window, a request passes if and only if the requests of its
/// client so far, itself and those counted before the sequence began, are no
/// more than the quota.
pub proof fn law_request_passes_iff_within_quota(window: Window, requests: Seq<Arrival>, i: int)
    requires
        in_one_window(window, requests),
        0 <= i < requests.len(),
    ensures
        passes_at(window, requests, i) <==> window.count_of(requests[i].key) + seen(
            requests.take(i + 1),
            requests[i].key,
        ) <= QUOTA,
{
    let earlier = requests.take(i);
    let key = requests[i].key;
    lemma_prefix_in_one_window(window, requests, i);
    law_counts_add_up(window, earlier, key);
    assert(requests.take(i + 1).drop_last() == earlier);
    assert(requests.take(i + 1).last() == requests[i]);
    assert(after_all(window, earlier).rolled(requests[i].now, RESET_INTERVAL_SECS) == after_all(
        window,
        earlier,
    ));
}

/// In a window in which a client has not been counted yet, its Nth request
/// passes if and only if N is at most the quota of five.
pub proof fn law_nth_request_passes_iff_n_at_most_quota(
    window: Window,
    requests: Seq<Arrival>,
    i: int,
)
    requires
        in_one_window(window, requests),
        0 <= i < requests.len(),
        window.count_of(requests[i].key) == 0,
    ensures
        passes_at(window, requests, i) <==> seen(requests.take(i + 1), requests[i].key) <= 5,
{
    law_request_passes_iff_within_quota(window, requests, i);
}

/// Inside one window, the number of a client's requests that pass is the
/// number it made or the room it had left at the start, whichever is less.
pub proof fn law_passed_fills_room(window: Window, requests: Seq<Arrival>, key: Seq<char>)
    requires
        in_one_window(window, requests),
    ensures
        passed(window, requests, key) == min(seen(requests, key) as int, room(window, key) as int),
    decreases requests.len(),
{
    if requests.len() > 0 {
        let earlier = requests.drop_last();
        let last = requests.last();
        lemma_prefix_in_one_window(window, requests, requests.len() - 1);
        law_passed_fills_room(window, earlier, key);
        law_counts_add_up(window, earlier, key);
        assert(after_all(window, earlier).rolled(last.now, RESET_INTERVAL_SECS) == after_all(
            window,
            earlier,
        ));
    }
}

/// Of any number of requests that one client fires into a window in which it
/// has not been counted yet, in whatever order they and the requests of
/// other clients reach the limiter, exactly the first five pass: the number
/// that pass is the number made or the quota, whichever is less.
pub proof fn law_burst_passes_up_to_quota(window: Window, requests: Seq<Arrival>, key: Seq<char>)
    requires
        in_one_window(window, requests),
        window.count_of(key) == 0,
    ensures
        passed(window, requests, key) == min(seen(requests, key) as int, 5),
{
    law_passed_fills_room(window, requests, key);
}

/// Inside one window no client has more than the quota of five requests
/// passed on, whatever its count at the start.
pub proof fn law_passed_at_most_quota(window: Window, requests: Seq<Arrival>, key: Seq<char>)
    requires
        in_one_window(window, requests),
    ensures
        passed(window, requests, key) <= 5,
{
    law_passed_fills_room(window, requests, key);
}

/// The first request that arrives once the window has lasted the reset
/// interval reopens it: the window starts at that second, the request passes
/// whatever its client's count was, it is the only request counted, and the
/// next request of any client passes as well.
pub proof fn law_expiry_resets_every_count(
    window: Window,
    now: u64,
    key: Seq<char>,
    later: u64,
    other: Seq<char>,
)
    requires
        window.expired(now, RESET_INTERVAL_SECS),
    ensures
        passes(window, now, key),
        after_request(window, now, key) == Window::opened_at(now).counted(key),
        after_request(window, now, key).start == now,
        after_request(window, now, key).count_of(key) == 1,
        other != key ==> after_request(window, now, key).count_of(other) == 0,
        passes(after_request(window, now, key), later, other),
{
}

/// A request that arrives inside the window takes nothing away: the window
/// keeps its opening second, every client counted before is still counted,
/// the count of the client that made the request does not go down, and the
/// count of every other client stays as it was.
pub proof fn law_counts_grow_inside_a_window(
    window: Window,
    now: u64,
    key: Seq<char>,
    other: Seq<char>,
)
    requires
        !window.expired(now, RESET_INTERVAL_SECS),
    ensures
        after_request(window, now, key).start == window.start,
        window.counts.contains_key(other) ==> after_request(window, now, key).counts.contains_key(
            other,
        ),
        after_request(window, now, key).count_of(key) >= window.count_of(key),
        other != key ==> after_request(window, now, key).count_of(other) == window.count_of(other),
{
}

/// One request moves its client through the phases: afterwards the client is
/// no longer fresh, and it is counting exactly when the request passed. A
/// blocked client stays blocked for as long as the window lasts, and a
/// request that reopens the window leaves every other client fresh.
pub proof fn law_phases(window: Window, now: u64, key: Seq<char>, other: Seq<char>)
    ensures
        phase_of(after_request(window, now, key).count_of(key)) != Phase::Fresh,
        passes(window, now, key) <==> phase_of(after_request(window, now, key).count_of(key))
            == Phase::Counting,
        !window.expired(now, RESET_INTERVAL_SECS) && phase_of(window.count_of(key))
            == Phase::Blocked ==> phase_of(after_request(window, now, key).count_of(key))
            == Phase::Blocked,
        window.expired(now, RESET_INTERVAL_SECS) && other != key ==> phase_of(
            after_request(window, now, key).count_of(other),
        ) == Phase::Fresh,
{
}

/// A window that has expired when the first of `requests` arrives counts for
/// nothing: every request is dealt with as if the limiter had started from a
/// fresh window opened by the first one.
pub proof fn law_expired_window_counts_for_nothing(
    window: Window,
    requests: Seq<Arrival>,
    i: int,
)
    requires
        0 <= i < requests.len(),
        window.expired(requests[0].now, RESET_INTERVAL_SECS),
    ensures
        after_all(window, requests) == after_all(Window::opened_at(requests[0].now), requests),
        passes_at(window, requests, i) == passes_at(
            Window::opened_at(requests[0].now),
            requests,
            i,
        ),
    decreases requests.len(),
{
    let fresh = Window::opened_at(requests[0].now);
    let earlier = requests.drop_last();
    if requests.len() == 1 {
        assert(after_all(window, earlier) == window);
        assert(after_all(fresh, earlier) == fresh);
    } else {
        assert(earlier[0] == requests[0]);
        law_expired_window_counts_for_nothing(window, earlier, 0);
    }
    let before = requests.take(i);
    if i == 0 {
        assert(after_all(window, before) == window);
        assert(after_all(fresh, before) == fresh);
    } else if i == requests.len() - 1 {
        assert(before == earlier);
    } else {
        assert(before[0] == requests[0]);
        law_expired_window_counts_for_nothing(window, before, 0);
    }
}

/// Requests that carry no identifying header, or one whose value is not
/// visible ASCII text, are all counted under the key of unknown clients, and
/// so share one quota.
pub proof fn law_unidentified_requests_share_one_key(
    first: HeaderMap<HeaderValue>,
    second: HeaderMap<HeaderValue>,
)
    requires
        !first_values(first).contains_key(CLIENT_HEADER@) || !all_visible_ascii(
            first_values(first)[CLIENT_HEADER@],
        ),
        !first_values(second).contains_key(CLIENT_HEADER@) || !all_visible_ascii(
            first_values(second)[CLIENT_HEADER@],
        ),
    ensures
        key_of(client_value(first)) == UNKNOWN_CLIENT@,
        key_of(client_value(second)) == key_of(client_value(first)),
{
}

} // verus!
