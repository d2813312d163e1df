//! A counter whose state lives on the host side.

use vstd::prelude::*;

verus! {

/// A signed 32-bit counter.
///
/// The embedded runtime holds a counter as an opaque object and drives it
/// through the methods below; the count itself is only ever touched here.
pub struct Counter {
    value: i32,
}

impl Clone for Counter {
    /// Makes a second counter with the same count; the two are independent
    /// afterwards.
    fn clone(&self) -> (copy: Counter)
        ensures
            copy@ == self@,
    {
        Counter { value: self.value }
    }
}

impl View for Counter {
    type V = int;

    /// The current count, as a mathematical integer.
    closed spec fn view(&self) -> int {
        self.value as int
    }
}

impl Counter {
    /// Creates a counter that starts at `initial`.
    pub fn new(initial: i32) -> (counter: Counter)
        ensures
            counter@ == initial,
    {
        Counter { value: initial }
    }

    /// Raises the count by one.
    ///
    /// The counter must not already stand at `i32::MAX`.
    pub fn increment(&mut self)
        requires
            old(self)@ < i32::MAX,
        ensures
            final(self)@ == old(self)@ + 1,
    {
        self.value += 1;
    }

    /// Lowers the count by one.
    ///
    /// The counter must not already stand at `i32::MIN`.
    pub fn decrement(&mut self)
        requires
            old(self)@ > i32::MIN,
        ensures
            final(self)@ == old(self)@ - 1,
    {
        self.value -= 1;
    }

    /// Returns the current count.
    pub fn get(&self) -> (value: i32)
        ensures
            value == self@,
    {
        self.value
    }

    /// Replaces the count with `value`.
    pub fn set(&mut self, value: i32)
        ensures
            final(self)@ == value,
    {
        self.value = value;
    }
}

} // verus!
