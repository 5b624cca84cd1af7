//! A guessing-game value validated at construction.

use vstd::prelude::*;

verus! {

/// A guess in a number game. A `Guess` can only be constructed from a value
/// between one and one hundred, so holders of a `Guess` never have to check
/// the range again.
pub struct Guess {
    value: i32,
}

impl Guess {
    /// The validated value.
    pub closed spec fn value_spec(&self) -> i32 {
        self.value
    }

    /// Wraps a value, which must lie between one and one hundred inclusive.
    pub fn new(value: i32) -> (g: Guess)
        requires
            1 <= value <= 100,
        ensures
            g.value_spec() == value,
    {
        Guess { value }
    }

    /// The wrapped value; always between one and one hundred inclusive.
    pub fn value(&self) -> (v: i32)
        ensures
            v == self.value_spec(),
    {
        self.value
    }
}

} // verus!
