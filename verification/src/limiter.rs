//! The throttling policy: one decision for each request.
//!
//! The policy is fixed and global. Every client may make [`QUOTA`] requests
//! in a window; the window is shared by all clients and is reopened by the
//! first request that arrives [`RESET_INTERVAL_SECS`] or more after it
//! opened. Expiry is checked when a request arrives and at no other moment.

use vstd::prelude::*;
use axum::http::header::{HeaderMap, HeaderValue};
use std::time::SystemTime;
use crate::client::{client_key, client_value, key_of};
use crate::clock::{elapsed_since_epoch, now_secs, secs_of};
use crate::store::CounterStore;
use crate::window::Window;

verus! {

/// The number of requests that one client may make in one window.
pub const QUOTA: usize = 5;

/// The length of a window in seconds. A window is one minute long.
pub const RESET_INTERVAL_SECS: u64 = 60;

/// The HTTP status that answers a refused request: 429 Too Many Requests.
pub const TOO_MANY_REQUESTS: u16 = 429;

/// The plain-text body that answers a refused request.
pub const REJECTION_BODY: &'static str = "Too many requests";

/// The answer to a refused request.
#[derive(Debug, PartialEq, Eq)]
pub struct Rejection {
    /// The HTTP status of the answer.
    pub status: u16,
    /// The plain-text body of the answer.
    pub body: String,
}

/// What is to be done with a request.
#[derive(Debug, PartialEq, Eq)]
pub enum Decision {
    /// The request goes on, unchanged, to the next handler, whose answer is
    /// returned as it is.
    Forward,
    /// The request is answered at once and goes no further.
    Reject(Rejection),
}

impl Decision {
    /// Whether this is the refusal that the policy answers with: status 429
    /// and the fixed plain-text body.
    pub open spec fn is_too_many_requests(self) -> bool {
        self matches Decision::Reject(rejection) && rejection.status == TOO_MANY_REQUESTS
            && rejection.body@ == REJECTION_BODY@
    }

    /// Whether this is the decision owed to a request that `passes` or does
    /// not pass the quota.
    pub open spec fn is_decision_for(self, passes: bool) -> bool {
        if passes {
            self is Forward
        } else {
            self.is_too_many_requests()
        }
    }

    /// Whether the request goes on to the next handler.
    pub fn is_forward(&self) -> (forward: bool)
        ensures
            forward == (self is Forward),
    {
        match self {
            Decision::Forward => true,
            Decision::Reject(_) => false,
        }
    }
}

/// Where a client stands in the current window. A client is `Fresh` until
/// its first request, `Counting` while its requests pass, and `Blocked` once
/// it has used up the quota; when the window is reopened every client is
/// `Fresh` again.
#[derive(Debug, Clone, Copy, PartialEq, Eq)]
pub enum Phase {
    /// No request of the client has been counted in this window.
    Fresh,
    /// Between one request and the quota have been counted.
    Counting,
    /// More requests than the quota have been counted.
    Blocked,
}

/// The phase of a client with `count` requests counted in the window.
pub open spec fn phase_of(count: usize) -> Phase {
    if count == 0 {
        Phase::Fresh
    } else if count <= QUOTA {
        Phase::Counting
    } else {
        Phase::Blocked
    }
}

/// The window after a request of `key` that arrives at `now` has been dealt
/// with: the expiry check comes first and the request is counted after it,
/// whether it passes or not.
pub open spec fn after_request(window: Window, now: u64, key: Seq<char>) -> Window {
    window.rolled(now, RESET_INTERVAL_SECS).counted(key)
}

/// Whether a request of `key` that arrives at `now` is within the quota: its
/// count, taken after the expiry check and with itself counted, does not
/// exceed [`QUOTA`].
pub open spec fn passes(window: Window, now: u64, key: Seq<char>) -> bool {
    window.rolled(now, RESET_INTERVAL_SECS).next_count(key) <= QUOTA
}

/// The decision for a request whose client has `count` requests in the
/// current window, itself counted.
pub fn decide(count: usize) -> (decision: Decision)
    ensures
        decision.is_decision_for(count <= QUOTA),
{
    if count > QUOTA {
        Decision::Reject(
            Rejection { status: TOO_MANY_REQUESTS, body: REJECTION_BODY.to_string() },
        )
    } else {
        Decision::Forward
    }
}

/// The rate limiter: the counter store together with the fixed policy.
///
/// A limiter is created once and lives as long as the process; nothing is
/// persisted. Each `check` is one indivisible step on the store: the expiry
/// check, the wholesale clearing and the increment of one request cannot be
/// interleaved with those of another, because they happen under one `&mut`.
pub struct RateLimiter {
    store: CounterStore,
}

impl View for RateLimiter {
    type V = Window;

    closed spec fn view(&self) -> Window {
        self.store@
    }
}

impl RateLimiter {
    /// Creates a limiter with no counts whose first window opens at `now`.
    pub fn new(now: u64) -> (limiter: RateLimiter)
        ensures
            limiter@ == Window::opened_at(now),
    {
        RateLimiter { store: CounterStore::new(now) }
    }

    /// Creates a limiter with no counts whose first window opens at the
    /// current reading of the clock: at the whole seconds from the epoch to
    /// that reading, or at zero when the clock stands before the epoch.
    pub fn start() -> (limiter: RateLimiter)
        ensures
            exists|reading: SystemTime|
                limiter@ == Window::opened_at(secs_of(#[trigger] elapsed_since_epoch(reading))),
    {
        RateLimiter::new(now_secs())
    }

    /// Deals with one request of the client `key` that arrives at `now`:
    /// reopens the window if it has expired, counts the request, and decides
    /// whether it goes on.
    pub fn check(&mut self, now: u64, key: &str) -> (decision: Decision)
        ensures
            final(self)@ == after_request(old(self)@, now, key@),
            decision.is_decision_for(passes(old(self)@, now, key@)),
    {
        self.store.reset_if_expired(now, RESET_INTERVAL_SECS);
        let count: usize = self.store.increment(key);
        decide(count)
    }

    /// Deals with one request that arrives at `now` with the given headers.
    /// The client key is taken from the identifying header; requests without
    /// a usable one share the key of unknown clients.
    pub fn check_request(
        &mut self,
        now: u64,
        headers: &HeaderMap<HeaderValue>,
    ) -> (decision: Decision)
        ensures
            final(self)@ == after_request(old(self)@, now, key_of(client_value(*headers))),
            decision.is_decision_for(passes(old(self)@, now, key_of(client_value(*headers)))),
    {
        let key: String = client_key(headers);
        self.check(now, key.as_str())
    }

    /// Deals with one request that arrives at the current reading of the
    /// clock. The outcome is that of `check_request` at the second of that
    /// reading: the whole seconds from the epoch to it, or zero when the
    /// clock stands before the epoch.
    pub fn check_now(&mut self, headers: &HeaderMap<HeaderValue>) -> (decision: Decision)
        ensures
            exists|reading: SystemTime|
                {
                    &&& final(self)@ == after_request(
                        old(self)@,
                        secs_of(#[trigger] elapsed_since_epoch(reading)),
                        key_of(client_value(*headers)),
                    )
                    &&& decision.is_decision_for(
                        passes(
                            old(self)@,
                            secs_of(elapsed_since_epoch(reading)),
                            key_of(client_value(*headers)),
                        ),
                    )
                },
    {
        let now: u64 = now_secs();
        self.check_request(now, headers)
    }

    /// Whether a request that arrives at `now` finds the window expired and
    /// so reopens it.
    pub fn window_expired(&self, now: u64) -> (expired: bool)
        ensures
            expired == self@.expired(now, RESET_INTERVAL_SECS),
    {
        self.store.current_age(now) >= RESET_INTERVAL_SECS
    }

    /// The count recorded for `key` in the current window.
    pub fn count(&self, key: &str) -> (count: usize)
        ensures
            count == self@.count_of(key@),
    {
        self.store.count(key)
    }

    /// Where the client `key` stands in the current window.
    pub fn phase(&self, key: &str) -> (phase: Phase)
        ensures
            phase == phase_of(self@.count_of(key@)),
    {
        let count: usize = self.store.count(key);
        if count == 0 {
            Phase::Fresh
        } else if count <= QUOTA {
            Phase::Counting
        } else {
            Phase::Blocked
        }
    }

    /// Seconds elapsed at `now` since the current window opened.
    pub fn current_age(&self, now: u64) -> (age: u64)
        ensures
            age == self@.age(now),
    {
        self.store.current_age(now)
    }
}

} // verus!
