//! The plain countdown cell.

use vstd::prelude::*;

use crate::timer::{counted_down, state_at_count, TimerState};

verus! {

/// A countdown cell in a plain byte. Nothing orders its accesses: the host
/// sees to it that the two cadences do not interrupt each other.
#[derive(Debug)]
pub struct Timer(u8);

impl View for Timer {
    type V = u8;

    closed spec fn view(&self) -> u8 {
        self.0
    }
}

impl Timer {
    /// A cell at zero.
    pub fn new() -> (timer: Self)
        ensures
            timer@ == 0,
    {
        Timer(0)
    }

    /// Overwrites the cell.
    #[inline]
    pub fn store(&mut self, value: u8)
        ensures
            final(self)@ == value,
    {
        self.0 = value;
    }

    /// Reads the cell.
    #[inline]
    pub fn load(&self) -> (value: u8)
        ensures
            value == self@,
    {
        self.0
    }

    /// Counts the cell down by one and reports where it stood: at zero it
    /// stays and is `Off`, from one it reaches zero and is `Finished`, and
    /// from above it is `On`.
    #[inline]
    pub fn decrement(&mut self) -> (state: TimerState)
        ensures
            final(self)@ == counted_down(old(self)@),
            state == state_at_count(old(self)@),
    {
        if self.0 > 0 {
            self.0 -= 1;
            if self.0 == 0 {
                TimerState::Finished
            } else {
                TimerState::On
            }
        } else {
            TimerState::Off
        }
    }
}

} // verus!
