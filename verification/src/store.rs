//! The counter store: per-client request counts and the window's opening time.

use vstd::prelude::*;
use vstd::hash_map::StringHashMap;
use crate::window::Window;

verus! {

/// Per-client request counts for the current window.
///
/// The store is an exclusively owned value: every operation that changes it
/// takes `&mut self`, so whoever shares it between tasks has to guard it, and
/// each operation runs as one indivisible step on the guarded value.
pub struct CounterStore {
    counts: StringHashMap<usize>,
    window_start: u64,
}

impl View for CounterStore {
    type V = Window;

    closed spec fn view(&self) -> Window {
        Window { counts: self.counts@, start: self.window_start }
    }
}

impl CounterStore {
    /// Creates a store with no counts whose window opens at `now`.
    pub fn new(now: u64) -> (store: CounterStore)
        ensures
            store@ == Window::opened_at(now),
    {
        CounterStore { counts: StringHashMap::new(), window_start: now }
    }

    /// Seconds elapsed at `now` since the window opened.
    pub fn current_age(&self, now: u64) -> (age: u64)
        ensures
            age == self@.age(now),
    {
        now.saturating_sub(self.window_start)
    }

    /// Clears every count and reopens the window at `now` if the window has
    /// lasted at least `threshold` seconds; does nothing otherwise. Returns
    /// whether the window was reopened.
    pub fn reset_if_expired(&mut self, now: u64, threshold: u64) -> (reset: bool)
        ensures
            reset == old(self)@.expired(now, threshold),
            final(self)@ == old(self)@.rolled(now, threshold),
    {
        if self.current_age(now) >= threshold {
            self.counts.clear();
            self.window_start = now;
            true
        } else {
            false
        }
    }

    /// Counts one more request of `key`, which need not have been seen
    /// before, and returns the count after it. A counter that has reached
    /// `usize::MAX` stays there.
    pub fn increment(&mut self, key: &str) -> (new_count: usize)
        ensures
            new_count == old(self)@.next_count(key@),
            final(self)@ == old(self)@.counted(key@),
    {
        let current: usize = match self.counts.get(key) {
            Some(count) => *count,
            None => 0,
        };
        let new_count: usize = current.saturating_add(1);
        self.counts.insert(key.to_string(), new_count);
        new_count
    }

    /// The count recorded for `key` in the current window.
    pub fn count(&self, key: &str) -> (count: usize)
        ensures
            count == self@.count_of(key@),
    {
        match self.counts.get(key) {
            Some(count) => *count,
            None => 0,
        }
    }

    /// The second at which the current window opened.
    pub fn window_start(&self) -> (start: u64)
        ensures
            start == self@.start,
    {
        self.window_start
    }
}

} // verus!
