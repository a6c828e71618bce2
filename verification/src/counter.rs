//! A cell that holds one number.

use crate::uint256::Uint256;
use vstd::prelude::*;

verus! {

/// A number that can be read and replaced.
pub struct Counter {
    number: Uint256,
}

impl View for Counter {
    type V = nat;

    closed spec fn view(&self) -> nat {
        self.number@
    }
}

impl Counter {
    /// A counter that holds zero.
    pub fn new() -> (counter: Counter)
        ensures
            counter@ == 0,
    {
        Counter { number: Uint256::zero() }
    }

    /// The number that the counter holds.
    pub fn get(&self) -> (number: Uint256)
        ensures
            number@ == self@,
    {
        self.number
    }

    /// Replaces the number that the counter holds by `value`.
    pub fn set(&mut self, value: Uint256)
        ensures
            final(self)@ == value@,
    {
        self.number = value;
    }
}

} // verus!
