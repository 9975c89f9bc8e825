//! A CHIP-8 virtual machine whose interpreter core is verified with Verus.
//!
//! The machine interprets the 35 classic CHIP-8 instructions against a 4 KiB
//! memory image, sixteen 8-bit registers, a call stack, two countdown timers,
//! a 16-key keypad and a 64x32 monochrome frame buffer. Everything the
//! machine needs from its surroundings (key scanning, sound, random bytes,
//! frame presentation) reaches it through the [`Context`] trait.
//!
//! Two cadences drive the machine: [`Peach8::tick_chip`] at roughly 500 Hz
//! and [`Peach8::tick_timers`] at 60 Hz.

pub mod bits;
pub mod builder;
pub mod context;
pub mod error;
pub mod frame;
pub mod gfx;
pub mod keypad;
pub mod keys;
pub mod laws;
pub mod logger;
pub mod machine;
pub mod opcode;
pub mod peach;
pub mod stack;
pub mod timer;

pub use builder::Builder;
pub use context::Context;
pub use error::VmError;
pub use frame::{Frame, FrameView};
pub use logger::Severity;
pub use opcode::OpCode;
pub use peach::Peach8;
