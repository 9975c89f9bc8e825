//! The countdown cells behind the delay timer and the sound timer.
//!
//! A cell holds one byte. Sixty times a second it is counted down by one
//! until it reaches zero, and each count reports where the cell stands.
//! Two cells with the same contract are offered: [`racy::Timer`], a plain
//! byte for hosts on which the two cadences never interrupt each other, and
//! [`atomic::Timer`], an atomic byte for hosts on which they may.

use vstd::prelude::*;

pub mod atomic;
pub mod racy;

verus! {

/// Where a cell stands at a count.
#[derive(Copy, Clone, Debug, PartialEq, Eq, Structural)]
pub enum TimerState {
    /// The cell was above one and is still running.
    On,
    /// The cell was at zero already.
    Off,
    /// The cell was at one and has just reached zero.
    Finished,
}

/// The value of a cell after one count: one less, and zero stays zero.
pub open spec fn counted_down(value: u8) -> u8 {
    if value > 0 {
        (value - 1) as u8
    } else {
        0
    }
}

/// What a count reports of a cell that held `value` before it.
pub open spec fn state_at_count(value: u8) -> TimerState {
    if value == 0 {
        TimerState::Off
    } else if value == 1 {
        TimerState::Finished
    } else {
        TimerState::On
    }
}

/// The value that a count writes back.
pub fn next_count(value: u8) -> (next: Option<u8>)
    ensures
        next == Some(counted_down(value)),
{
    if value > 0 {
        Some(value - 1)
    } else {
        Some(value)
    }
}

/// What a count reports, from the value that the cell held before it.
pub fn state_for(previous: u8) -> (state: TimerState)
    ensures
        state == state_at_count(previous),
{
    match previous {
        0 => TimerState::Off,
        1 => TimerState::Finished,
        _ => TimerState::On,
    }
}

/// A cell that is counted down `ticks` times from `value` ends at
/// `value - ticks`, or at zero where `ticks` is the larger.
pub open spec fn counted_down_by(value: u8, ticks: nat) -> u8
    decreases ticks,
{
    if ticks == 0 {
        value
    } else {
        counted_down_by(counted_down(value), (ticks - 1) as nat)
    }
}

/// Counting down never passes zero: after `ticks` counts the cell holds
/// `value - ticks`, and zero once `ticks` has reached `value`.
pub proof fn lemma_counted_down_by(value: u8, ticks: nat)
    ensures
        counted_down_by(value, ticks) == (if ticks >= value {
            0
        } else {
            value - ticks
        }),
    decreases ticks,
{
    if ticks > 0 {
        lemma_counted_down_by(counted_down(value), (ticks - 1) as nat);
    }
}

} // verus!
