//! The counter of the "About" page.

use vstd::prelude::*;

verus! {

/// A count of increment requests. It starts at zero and wraps around to zero
/// after `u32::MAX`.
pub struct Counter {
    value: u32,
}

impl View for Counter {
    type V = nat;

    closed spec fn view(&self) -> nat {
        self.value as nat
    }
}

/// The count that follows `count`.
pub open spec fn next_count(count: nat) -> nat {
    if count >= u32::MAX {
        0
    } else {
        count + 1
    }
}

impl Counter {
    /// A counter at zero.
    pub fn new() -> (counter: Counter)
        ensures
            counter@ == 0,
    {
        Counter { value: 0 }
    }

    /// A counter that stands at `count`.
    pub fn starting_at(count: u32) -> (counter: Counter)
        ensures
            counter@ == count,
    {
        Counter { value: count }
    }

    /// Adds one and returns the new count.
    pub fn increment(&mut self) -> (count: u32)
        ensures
            final(self)@ == next_count(old(self)@),
            count == final(self)@,
    {
        self.value = if self.value == u32::MAX {
            0
        } else {
            self.value + 1
        };
        self.value
    }

    /// The count.
    pub fn get(&self) -> (count: u32)
        ensures
            count == self@,
    {
        self.value
    }
}

} // verus!
