//! The atomic countdown cell.

use std::sync::atomic::AtomicU8;
use std::sync::atomic::Ordering;

use vstd::prelude::*;

use crate::timer::{counted_down, next_count, state_at_count, state_for, TimerState};

verus! {

/// The byte that an atomic cell holds.
///
/// The cells of this module are written only through `&mut`, so between
/// two writes every reader sees the same byte.
pub uninterp spec fn cell_value(cell: AtomicU8) -> u8;

/// `AtomicU8::new`. Trusted: the new cell holds the value given.
#[verifier::external_body]
fn cell_new(value: u8) -> (cell: AtomicU8)
    ensures
        cell_value(cell) == value,
{
    AtomicU8::new(value)
}

/// `AtomicU8::store` with release ordering. Trusted: afterwards the cell
/// holds the value given.
#[verifier::external_body]
fn cell_store(cell: &mut AtomicU8, value: u8)
    ensures
        cell_value(*final(cell)) == value,
{
    cell.store(value, Ordering::Release)
}

/// `AtomicU8::load` with acquire ordering. Trusted: the result is the byte
/// that the cell holds.
#[verifier::external_body]
fn cell_load(cell: &AtomicU8) -> (value: u8)
    ensures
        value == cell_value(*cell),
{
    cell.load(Ordering::Acquire)
}

/// `AtomicU8::fetch_update`, reading with acquire and writing with release
/// ordering, with [`next_count`] as the update.
///
/// Trusted: the result is the byte that the cell held, and the cell then
/// holds what the update made of that byte. The update never declines, so
/// both arms of the outcome carry the previous byte.
#[verifier::external_body]
fn cell_count_down(cell: &mut AtomicU8) -> (previous: u8)
    ensures
        previous == cell_value(*old(cell)),
        cell_value(*final(cell)) == counted_down(previous),
{
    match cell.fetch_update(Ordering::AcqRel, Ordering::Acquire, next_count) {
        Ok(previous) => previous,
        Err(previous) => previous,
    }
}

/// A countdown cell in an atomic byte, for hosts on which the timer
/// cadence may interrupt the instruction cadence.
#[derive(Debug)]
pub struct Timer(AtomicU8);

impl View for Timer {
    type V = u8;

    closed spec fn view(&self) -> u8 {
        cell_value(self.0)
    }
}

impl Timer {
    /// A cell at zero.
    pub fn new() -> (timer: Self)
        ensures
            timer@ == 0,
    {
        Timer(cell_new(0))
    }

    /// Overwrites the cell.
    #[inline]
    pub fn store(&mut self, value: u8)
        ensures
            final(self)@ == value,
    {
        cell_store(&mut self.0, value);
    }

    /// Reads the cell.
    #[inline]
    pub fn load(&self) -> (value: u8)
        ensures
            value == self@,
    {
        cell_load(&self.0)
    }

    /// Counts the cell down by one and reports where it stood: at zero it
    /// stays and is `Off`, from one it reaches zero and is `Finished`, and
    /// from above it is `On`.
    #[inline]
    pub fn decrement(&mut self) -> (state: TimerState)
        ensures
            final(self)@ == counted_down(old(self)@),
            state == state_at_count(old(self)@),
    {
        let previous = cell_count_down(&mut self.0);
        state_for(previous)
    }
}

} // verus!
