//! The mathematical model of a counting window.
//!
//! A [`Window`] is the abstract state of the counter store: the count of each
//! client seen since the window opened, and the second at which it opened.
//! Everything here is ghost code; the executable store refines it.

use vstd::prelude::*;

verus! {

/// The abstract state of one counting window.
pub struct Window {
    /// Requests counted so far for each client seen in this window.
    pub counts: Map<Seq<char>, usize>,
    /// The second (since the epoch) at which this window opened.
    pub start: u64,
}

impl Window {
    /// The window that opens at `now` with no client counted yet.
    pub open spec fn opened_at(now: u64) -> Window {
        Window { counts: Map::empty(), start: now }
    }

    /// Seconds elapsed at `now` since the window opened; zero when the clock
    /// reads earlier than the opening second.
    pub open spec fn age(self, now: u64) -> u64 {
        if now >= self.start {
            (now - self.start) as u64
        } else {
            0
        }
    }

    /// Whether the window has lasted at least `threshold` seconds at `now`.
    pub open spec fn expired(self, now: u64, threshold: u64) -> bool {
        self.age(now) >= threshold
    }

    /// The count recorded for `key`; a client not yet seen counts as zero.
    pub open spec fn count_of(self, key: Seq<char>) -> usize {
        if self.counts.contains_key(key) {
            self.counts[key]
        } else {
            0
        }
    }

    /// The count that `key` has after one more request. A counter that has
    /// reached `usize::MAX` stays there.
    pub open spec fn next_count(self, key: Seq<char>) -> usize {
        let count = self.count_of(key);
        if count < usize::MAX {
            (count + 1) as usize
        } else {
            count
        }
    }

    /// The window after the expiry check made at `now`: a fresh window opened
    /// at `now` if this one has expired, this one unchanged otherwise.
    pub open spec fn rolled(self, now: u64, threshold: u64) -> Window {
        if self.expired(now, threshold) {
            Window::opened_at(now)
        } else {
            self
        }
    }

    /// The window after one more request of `key` has been counted.
    pub open spec fn counted(self, key: Seq<char>) -> Window {
        Window { counts: self.counts.insert(key, self.next_count(key)), start: self.start }
    }
}

} // verus!
