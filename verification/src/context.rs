//! What the machine needs from the platform it runs on.

use vstd::prelude::*;

use crate::frame::FrameView;

verus! {

/// The platform's side of the machine: a screen, a buzzer, a keypad and a
/// source of random bytes.
///
/// The machine owns its context and promises nothing of what the platform
/// does in these calls, nor relies on anything: whatever a call returns,
/// the machine carries on from it.
pub trait Context {
    /// Shows the current frame.
    ///
    /// Called by `tick_chip` at the end of every tick that succeeded. The
    /// view is valid during the call only.
    fn on_frame(&mut self, frame: FrameView<'_>);

    /// Turns the sound on.
    ///
    /// Called by `tick_timers` while the sound timer runs.
    fn sound_on(&mut self);

    /// Turns the sound off.
    ///
    /// Called by `tick_timers` while the sound timer is at rest.
    fn sound_off(&mut self);

    /// Whether each of the 16 keys is held; entry `k` is key `k`.
    ///
    /// Called by `tick_chip` once, at the start of every tick.
    fn get_keys(&mut self) -> [bool; 16];

    /// A random byte.
    ///
    /// Called by `tick_chip` once for every `CXNN` that it executes.
    fn gen_random(&mut self) -> u8;
}

} // verus!
