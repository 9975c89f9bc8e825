//! The instruction set: the 35 instructions and the decoder that reads a
//! 16-bit instruction word.
//!
//! A word is four nibbles `a b c d`, most significant first. Depending on
//! the instruction, `b` is the register index `x`, `c` the register index
//! `y`, `d` the nibble `n`, `c d` the byte `nn` and `b c d` the address
//! `nnn`.

use vstd::prelude::*;
use vstd::std_specs::convert::TryFromSpecImpl;

use vstd::arithmetic::div_mod::{lemma_fundamental_div_mod, lemma_fundamental_div_mod_converse};

use crate::error::VmError;

verus! {

/// One decoded instruction.
#[derive(Debug, Copy, Clone, Eq, PartialEq, Structural)]
pub enum OpCode {
    /// Execute machine language subroutine at address NNN
    _0NNN { nnn: u16 },
    /// Clear the screen
    _00E0,
    /// Return from a subroutine
    _00EE,
    /// Jump to address NNN
    _1NNN { nnn: u16 },
    /// Execute subroutine starting at address NNN
    _2NNN { nnn: u16 },
    /// Skip the following instruction if the value of register VX equals NN
    _3XNN { x: u8, nn: u8 },
    /// Skip the following instruction if the value of register VX is not equal to NN
    _4XNN { x: u8, nn: u8 },
    /// Skip the following instruction if the value of register VX is equal to the value of register VY
    _5XY0 { x: u8, y: u8 },
    /// Store number NN in register VX
    _6XNN { x: u8, nn: u8 },
    /// Add the value NN to register VX
    _7XNN { x: u8, nn: u8 },
    /// Store the value of register VY in register VX
    _8XY0 { x: u8, y: u8 },
    /// Set VX to VX OR VY
    _8XY1 { x: u8, y: u8 },
    /// Set VX to VX AND VY
    _8XY2 { x: u8, y: u8 },
    /// Set VX to VX XOR VY
    _8XY3 { x: u8, y: u8 },
    /// Add the value of register VY to register VX, set VF to 01 on carry and to 00 otherwise
    _8XY4 { x: u8, y: u8 },
    /// Subtract the value of register VY from register VX, set VF to 00 on borrow and to 01 otherwise
    _8XY5 { x: u8, y: u8 },
    /// Store the value of register VY shifted right one bit in registers VX and VY, set VF to the bit shifted out
    _8XY6 { x: u8, y: u8 },
    /// Set register VX to the value of VY minus VX, set VF to 00 on borrow and to 01 otherwise
    _8XY7 { x: u8, y: u8 },
    /// Store the value of register VY shifted left one bit in registers VX and VY, set VF to the bit shifted out
    _8XYE { x: u8, y: u8 },
    /// Skip the following instruction if the value of register VX is not equal to the value of register VY
    _9XY0 { x: u8, y: u8 },
    /// Store memory address NNN in register I
    _ANNN { nnn: u16 },
    /// Jump to address NNN + V0
    _BNNN { nnn: u16 },
    /// Set VX to a random number with a mask of NN
    _CXNN { x: u8, nn: u8 },
    /// Draw a sprite at position VX, VY with N bytes of sprite data starting at the address stored in I
    _DXYN { x: u8, y: u8, n: u8 },
    /// Skip the following instruction if the key whose number is in register VX is held
    _EX9E { x: u8 },
    /// Skip the following instruction if the key whose number is in register VX is not held
    _EXA1 { x: u8 },
    /// Store the current value of the delay timer in register VX
    _FX07 { x: u8 },
    /// Wait for a key to be released and store its number in register VX
    _FX0A { x: u8 },
    /// Set the delay timer to the value of register VX
    _FX15 { x: u8 },
    /// Set the sound timer to the value of register VX
    _FX18 { x: u8 },
    /// Add the value stored in register VX to register I
    _FX1E { x: u8 },
    /// Set I to the address of the glyph for the hexadecimal digit stored in register VX
    _FX29 { x: u8 },
    /// Store the three decimal digits of register VX at addresses I, I+1 and I+2
    _FX33 { x: u8 },
    /// Store the values of registers V0 to VX inclusive in memory starting at address I
    _FX55 { x: u8 },
    /// Fill registers V0 to VX inclusive with the values stored in memory starting at address I
    _FX65 { x: u8 },
}

/// The most significant nibble of a word.
pub open spec fn first_of(raw: u16) -> u8 {
    (raw / 0x1000) as u8
}

/// The least significant nibble of a word.
pub open spec fn last_of(raw: u16) -> u8 {
    (raw % 0x10) as u8
}

/// The second nibble of a word: the register index `x`.
pub open spec fn x_of(raw: u16) -> u8 {
    (raw / 0x100 % 0x10) as u8
}

/// The third nibble of a word: the register index `y`.
pub open spec fn y_of(raw: u16) -> u8 {
    (raw / 0x10 % 0x10) as u8
}

/// The low byte of a word.
pub open spec fn nn_of(raw: u16) -> u8 {
    (raw % 0x100) as u8
}

/// The low twelve bits of a word.
pub open spec fn nnn_of(raw: u16) -> u16 {
    raw % 0x1000
}

/// The word made of a leading nibble and an address.
pub open spec fn word_annn(a: int, nnn: u16) -> int {
    a * 0x1000 + nnn
}

/// The word made of a leading nibble, a register index and a byte.
pub open spec fn word_axnn(a: int, x: u8, nn: u8) -> int {
    a * 0x1000 + x * 0x100 + nn
}

/// The word made of four nibbles.
pub open spec fn word_axyn(a: int, x: u8, y: u8, n: int) -> int {
    a * 0x1000 + x * 0x100 + y * 0x10 + n
}

/// Whether a word matches no instruction: `5XY_` and `9XY_` whose last
/// nibble is not 0, `8XY_` whose last nibble is none of 0 to 7 and E,
/// `EXnn` whose low byte is neither 9E nor A1, and `FXnn` whose low byte
/// is none of 07, 0A, 15, 18, 1E, 29, 33, 55 and 65.
pub open spec fn is_malformed(raw: u16) -> bool {
    let a = first_of(raw);
    let d = last_of(raw);
    let nn = nn_of(raw);
    ||| (a == 0x5 || a == 0x9) && d != 0
    ||| a == 0x8 && !(d <= 7 || d == 0xE)
    ||| a == 0xE && !(nn == 0x9E || nn == 0xA1)
    ||| a == 0xF && !(nn == 0x07 || nn == 0x0A || nn == 0x15 || nn == 0x18 || nn == 0x1E
        || nn == 0x29 || nn == 0x33 || nn == 0x55 || nn == 0x65)
}

/// The instruction that a word stands for, and `MalformedOp` for a word
/// that stands for none.
pub open spec fn decode(raw: u16) -> Result<OpCode, VmError> {
    let a = first_of(raw);
    let x = x_of(raw);
    let y = y_of(raw);
    let n = last_of(raw);
    let nn = nn_of(raw);
    let nnn = nnn_of(raw);
    if is_malformed(raw) {
        Err(VmError::MalformedOp)
    } else if a == 0x0 {
        if nnn == 0x0E0 {
            Ok(OpCode::_00E0)
        } else if nnn == 0x0EE {
            Ok(OpCode::_00EE)
        } else {
            Ok(OpCode::_0NNN { nnn })
        }
    } else if a == 0x1 {
        Ok(OpCode::_1NNN { nnn })
    } else if a == 0x2 {
        Ok(OpCode::_2NNN { nnn })
    } else if a == 0x3 {
        Ok(OpCode::_3XNN { x, nn })
    } else if a == 0x4 {
        Ok(OpCode::_4XNN { x, nn })
    } else if a == 0x5 {
        Ok(OpCode::_5XY0 { x, y })
    } else if a == 0x6 {
        Ok(OpCode::_6XNN { x, nn })
    } else if a == 0x7 {
        Ok(OpCode::_7XNN { x, nn })
    } else if a == 0x8 {
        if n == 0x0 {
            Ok(OpCode::_8XY0 { x, y })
        } else if n == 0x1 {
            Ok(OpCode::_8XY1 { x, y })
        } else if n == 0x2 {
            Ok(OpCode::_8XY2 { x, y })
        } else if n == 0x3 {
            Ok(OpCode::_8XY3 { x, y })
        } else if n == 0x4 {
            Ok(OpCode::_8XY4 { x, y })
        } else if n == 0x5 {
            Ok(OpCode::_8XY5 { x, y })
        } else if n == 0x6 {
            Ok(OpCode::_8XY6 { x, y })
        } else if n == 0x7 {
            Ok(OpCode::_8XY7 { x, y })
        } else {
            Ok(OpCode::_8XYE { x, y })
        }
    } else if a == 0x9 {
        Ok(OpCode::_9XY0 { x, y })
    } else if a == 0xA {
        Ok(OpCode::_ANNN { nnn })
    } else if a == 0xB {
        Ok(OpCode::_BNNN { nnn })
    } else if a == 0xC {
        Ok(OpCode::_CXNN { x, nn })
    } else if a == 0xD {
        Ok(OpCode::_DXYN { x, y, n })
    } else if a == 0xE {
        if nn == 0x9E {
            Ok(OpCode::_EX9E { x })
        } else {
            Ok(OpCode::_EXA1 { x })
        }
    } else {
        if nn == 0x07 {
            Ok(OpCode::_FX07 { x })
        } else if nn == 0x0A {
            Ok(OpCode::_FX0A { x })
        } else if nn == 0x15 {
            Ok(OpCode::_FX15 { x })
        } else if nn == 0x18 {
            Ok(OpCode::_FX18 { x })
        } else if nn == 0x1E {
            Ok(OpCode::_FX1E { x })
        } else if nn == 0x29 {
            Ok(OpCode::_FX29 { x })
        } else if nn == 0x33 {
            Ok(OpCode::_FX33 { x })
        } else if nn == 0x55 {
            Ok(OpCode::_FX55 { x })
        } else {
            Ok(OpCode::_FX65 { x })
        }
    }
}

impl OpCode {
    /// Whether the operands fit the fields of an instruction word: register
    /// indices and `n` are below 16, addresses below 4096.
    pub open spec fn fits(&self) -> bool {
        match *self {
            OpCode::_00E0 | OpCode::_00EE => true,
            OpCode::_0NNN { nnn }
            | OpCode::_1NNN { nnn }
            | OpCode::_2NNN { nnn }
            | OpCode::_ANNN { nnn }
            | OpCode::_BNNN { nnn } => nnn < 0x1000,
            OpCode::_3XNN { x, nn }
            | OpCode::_4XNN { x, nn }
            | OpCode::_6XNN { x, nn }
            | OpCode::_7XNN { x, nn }
            | OpCode::_CXNN { x, nn } => x < 16,
            OpCode::_5XY0 { x, y }
            | OpCode::_8XY0 { x, y }
            | OpCode::_8XY1 { x, y }
            | OpCode::_8XY2 { x, y }
            | OpCode::_8XY3 { x, y }
            | OpCode::_8XY4 { x, y }
            | OpCode::_8XY5 { x, y }
            | OpCode::_8XY6 { x, y }
            | OpCode::_8XY7 { x, y }
            | OpCode::_8XYE { x, y }
            | OpCode::_9XY0 { x, y } => x < 16 && y < 16,
            OpCode::_DXYN { x, y, n } => x < 16 && y < 16 && n < 16,
            OpCode::_EX9E { x }
            | OpCode::_EXA1 { x }
            | OpCode::_FX07 { x }
            | OpCode::_FX0A { x }
            | OpCode::_FX15 { x }
            | OpCode::_FX18 { x }
            | OpCode::_FX1E { x }
            | OpCode::_FX29 { x }
            | OpCode::_FX33 { x }
            | OpCode::_FX55 { x }
            | OpCode::_FX65 { x } => x < 16,
        }
    }

    /// Whether the instruction is one that a word decodes to: its operands
    /// fit their fields, and an `0NNN` is not one of the two words that
    /// stand for `00E0` and `00EE`.
    pub open spec fn wf(&self) -> bool {
        self.fits() && (*self matches OpCode::_0NNN { nnn } ==> nnn != 0x0E0 && nnn != 0x0EE)
    }

    /// The instruction word of an instruction, as a number.
    pub open spec fn word(&self) -> int {
        match *self {
            OpCode::_0NNN { nnn } => word_annn(0x0, nnn),
            OpCode::_00E0 => 0x00E0,
            OpCode::_00EE => 0x00EE,
            OpCode::_1NNN { nnn } => word_annn(0x1, nnn),
            OpCode::_2NNN { nnn } => word_annn(0x2, nnn),
            OpCode::_3XNN { x, nn } => word_axnn(0x3, x, nn),
            OpCode::_4XNN { x, nn } => word_axnn(0x4, x, nn),
            OpCode::_5XY0 { x, y } => word_axyn(0x5, x, y, 0x0),
            OpCode::_6XNN { x, nn } => word_axnn(0x6, x, nn),
            OpCode::_7XNN { x, nn } => word_axnn(0x7, x, nn),
            OpCode::_8XY0 { x, y } => word_axyn(0x8, x, y, 0x0),
            OpCode::_8XY1 { x, y } => word_axyn(0x8, x, y, 0x1),
            OpCode::_8XY2 { x, y } => word_axyn(0x8, x, y, 0x2),
            OpCode::_8XY3 { x, y } => word_axyn(0x8, x, y, 0x3),
            OpCode::_8XY4 { x, y } => word_axyn(0x8, x, y, 0x4),
            OpCode::_8XY5 { x, y } => word_axyn(0x8, x, y, 0x5),
            OpCode::_8XY6 { x, y } => word_axyn(0x8, x, y, 0x6),
            OpCode::_8XY7 { x, y } => word_axyn(0x8, x, y, 0x7),
            OpCode::_8XYE { x, y } => word_axyn(0x8, x, y, 0xE),
            OpCode::_9XY0 { x, y } => word_axyn(0x9, x, y, 0x0),
            OpCode::_ANNN { nnn } => word_annn(0xA, nnn),
            OpCode::_BNNN { nnn } => word_annn(0xB, nnn),
            OpCode::_CXNN { x, nn } => word_axnn(0xC, x, nn),
            OpCode::_DXYN { x, y, n } => word_axyn(0xD, x, y, n as int),
            OpCode::_EX9E { x } => word_axnn(0xE, x, 0x9E),
            OpCode::_EXA1 { x } => word_axnn(0xE, x, 0xA1),
            OpCode::_FX07 { x } => word_axnn(0xF, x, 0x07),
            OpCode::_FX0A { x } => word_axnn(0xF, x, 0x0A),
            OpCode::_FX15 { x } => word_axnn(0xF, x, 0x15),
            OpCode::_FX18 { x } => word_axnn(0xF, x, 0x18),
            OpCode::_FX1E { x } => word_axnn(0xF, x, 0x1E),
            OpCode::_FX29 { x } => word_axnn(0xF, x, 0x29),
            OpCode::_FX33 { x } => word_axnn(0xF, x, 0x33),
            OpCode::_FX55 { x } => word_axnn(0xF, x, 0x55),
            OpCode::_FX65 { x } => word_axnn(0xF, x, 0x65),
        }
    }

    /// The most significant nibble of a word.
    pub fn read_first(raw: u16) -> (nibble: u8)
        ensures
            nibble == first_of(raw),
    {
        assert(raw >> 12 & 0x000Fu16 == raw / 0x1000) by (bit_vector);
        (raw >> 12 & 0x000Fu16) as u8
    }

    /// The least significant nibble of a word.
    pub fn read_last(raw: u16) -> (nibble: u8)
        ensures
            nibble == last_of(raw),
    {
        assert(raw & 0x000Fu16 == raw % 0x10) by (bit_vector);
        (raw & 0x000Fu16) as u8
    }

    /// The second nibble of a word.
    pub fn read_x(raw: u16) -> (nibble: u8)
        ensures
            nibble == x_of(raw),
    {
        assert(raw >> 8 & 0x000Fu16 == raw / 0x100 % 0x10) by (bit_vector);
        (raw >> 8 & 0x000Fu16) as u8
    }

    /// The third nibble of a word.
    pub fn read_y(raw: u16) -> (nibble: u8)
        ensures
            nibble == y_of(raw),
    {
        assert(raw >> 4 & 0x000Fu16 == raw / 0x10 % 0x10) by (bit_vector);
        (raw >> 4 & 0x000Fu16) as u8
    }

    /// The low byte of a word.
    pub fn read_nn(raw: u16) -> (byte: u8)
        ensures
            byte == nn_of(raw),
    {
        assert(raw & 0x00FFu16 == raw % 0x100) by (bit_vector);
        (raw & 0x00FFu16) as u8
    }

    /// The low twelve bits of a word.
    pub fn read_nnn(raw: u16) -> (address: u16)
        ensures
            address == nnn_of(raw),
    {
        assert(raw & 0x0FFFu16 == raw % 0x1000) by (bit_vector);
        raw & 0x0FFFu16
    }

    /// The instruction word of an instruction. Where the instruction is one
    /// that a word decodes to, its word decodes to it.
    pub fn encode(&self) -> (raw: u16)
        requires
            self.fits(),
        ensures
            raw == self.word(),
            self.wf() ==> decode(raw) == Ok::<OpCode, VmError>(*self),
    {
        let raw = match *self {
            OpCode::_0NNN { nnn } => nnn,
            OpCode::_00E0 => 0x00E0u16,
            OpCode::_00EE => 0x00EEu16,
            OpCode::_1NNN { nnn } => 0x1000u16 + nnn,
            OpCode::_2NNN { nnn } => 0x2000u16 + nnn,
            OpCode::_3XNN { x, nn } => Self::pack_xnn(0x3000u16, x, nn),
            OpCode::_4XNN { x, nn } => Self::pack_xnn(0x4000u16, x, nn),
            OpCode::_5XY0 { x, y } => Self::pack_xyn(0x5000u16, x, y, 0x0u8),
            OpCode::_6XNN { x, nn } => Self::pack_xnn(0x6000u16, x, nn),
            OpCode::_7XNN { x, nn } => Self::pack_xnn(0x7000u16, x, nn),
            OpCode::_8XY0 { x, y } => Self::pack_xyn(0x8000u16, x, y, 0x0u8),
            OpCode::_8XY1 { x, y } => Self::pack_xyn(0x8000u16, x, y, 0x1u8),
            OpCode::_8XY2 { x, y } => Self::pack_xyn(0x8000u16, x, y, 0x2u8),
            OpCode::_8XY3 { x, y } => Self::pack_xyn(0x8000u16, x, y, 0x3u8),
            OpCode::_8XY4 { x, y } => Self::pack_xyn(0x8000u16, x, y, 0x4u8),
            OpCode::_8XY5 { x, y } => Self::pack_xyn(0x8000u16, x, y, 0x5u8),
            OpCode::_8XY6 { x, y } => Self::pack_xyn(0x8000u16, x, y, 0x6u8),
            OpCode::_8XY7 { x, y } => Self::pack_xyn(0x8000u16, x, y, 0x7u8),
            OpCode::_8XYE { x, y } => Self::pack_xyn(0x8000u16, x, y, 0xEu8),
            OpCode::_9XY0 { x, y } => Self::pack_xyn(0x9000u16, x, y, 0x0u8),
            OpCode::_ANNN { nnn } => 0xA000u16 + nnn,
            OpCode::_BNNN { nnn } => 0xB000u16 + nnn,
            OpCode::_CXNN { x, nn } => Self::pack_xnn(0xC000u16, x, nn),
            OpCode::_DXYN { x, y, n } => Self::pack_xyn(0xD000u16, x, y, n),
            OpCode::_EX9E { x } => Self::pack_xnn(0xE000u16, x, 0x9Eu8),
            OpCode::_EXA1 { x } => Self::pack_xnn(0xE000u16, x, 0xA1u8),
            OpCode::_FX07 { x } => Self::pack_xnn(0xF000u16, x, 0x07u8),
            OpCode::_FX0A { x } => Self::pack_xnn(0xF000u16, x, 0x0Au8),
            OpCode::_FX15 { x } => Self::pack_xnn(0xF000u16, x, 0x15u8),
            OpCode::_FX18 { x } => Self::pack_xnn(0xF000u16, x, 0x18u8),
            OpCode::_FX1E { x } => Self::pack_xnn(0xF000u16, x, 0x1Eu8),
            OpCode::_FX29 { x } => Self::pack_xnn(0xF000u16, x, 0x29u8),
            OpCode::_FX33 { x } => Self::pack_xnn(0xF000u16, x, 0x33u8),
            OpCode::_FX55 { x } => Self::pack_xnn(0xF000u16, x, 0x55u8),
            OpCode::_FX65 { x } => Self::pack_xnn(0xF000u16, x, 0x65u8),
        };
        proof {
            if self.wf() {
                lemma_decode_inverts_word(*self);
            }
        }
        raw
    }

    fn pack_xnn(high: u16, x: u8, nn: u8) -> (raw: u16)
        requires
            high <= 0xF000,
            x < 16,
        ensures
            raw == high + x * 0x100 + nn,
    {
        high + (x as u16) * 0x100u16 + nn as u16
    }

    fn pack_xyn(high: u16, x: u8, y: u8, n: u8) -> (raw: u16)
        requires
            high <= 0xF000,
            x < 16,
            y < 16,
            n < 16,
        ensures
            raw == high + x * 0x100 + y * 0x10 + n,
    {
        high + (x as u16) * 0x100u16 + (y as u16) * 0x10u16 + n as u16
    }
}

impl TryFromSpecImpl<u16> for OpCode {
    open spec fn obeys_try_from_spec() -> bool {
        true
    }

    open spec fn try_from_spec(raw: u16) -> Result<OpCode, VmError> {
        decode(raw)
    }
}

impl TryFrom<u16> for OpCode {
    type Error = VmError;

    /// Decodes an instruction word.
    ///
    /// Every word is answered: with the instruction it stands for, whose
    /// operands fit their fields and whose own word is `raw` again, or with
    /// `MalformedOp`.
    fn try_from(raw: u16) -> (decoded: Result<OpCode, VmError>)
        ensures
            decoded == decode(raw),
            decoded is Err <==> is_malformed(raw),
            decoded matches Ok(op) ==> op.wf() && op.word() == raw,
    {
        let first = OpCode::read_first(raw);
        let x = OpCode::read_x(raw);
        let y = OpCode::read_y(raw);
        let last = OpCode::read_last(raw);
        let nn = OpCode::read_nn(raw);
        let nnn = OpCode::read_nnn(raw);
        proof {
            lemma_word_of_nibbles(raw);
        }
        if first == 0x0u8 {
            if nnn == 0x0E0u16 {
                Ok(OpCode::_00E0)
            } else if nnn == 0x0EEu16 {
                Ok(OpCode::_00EE)
            } else {
                Ok(OpCode::_0NNN { nnn })
            }
        } else if first == 0x1u8 {
            Ok(OpCode::_1NNN { nnn })
        } else if first == 0x2u8 {
            Ok(OpCode::_2NNN { nnn })
        } else if first == 0x3u8 {
            Ok(OpCode::_3XNN { x, nn })
        } else if first == 0x4u8 {
            Ok(OpCode::_4XNN { x, nn })
        } else if first == 0x5u8 {
            if last == 0u8 {
                Ok(OpCode::_5XY0 { x, y })
            } else {
                Err(VmError::MalformedOp)
            }
        } else if first == 0x6u8 {
            Ok(OpCode::_6XNN { x, nn })
        } else if first == 0x7u8 {
            Ok(OpCode::_7XNN { x, nn })
        } else if first == 0x8u8 {
            match last {
                0x0u8 => Ok(OpCode::_8XY0 { x, y }),
                0x1u8 => Ok(OpCode::_8XY1 { x, y }),
                0x2u8 => Ok(OpCode::_8XY2 { x, y }),
                0x3u8 => Ok(OpCode::_8XY3 { x, y }),
                0x4u8 => Ok(OpCode::_8XY4 { x, y }),
                0x5u8 => Ok(OpCode::_8XY5 { x, y }),
                0x6u8 => Ok(OpCode::_8XY6 { x, y }),
                0x7u8 => Ok(OpCode::_8XY7 { x, y }),
                0xEu8 => Ok(OpCode::_8XYE { x, y }),
                _ => Err(VmError::MalformedOp),
            }
        } else if first == 0x9u8 {
            if last == 0u8 {
                Ok(OpCode::_9XY0 { x, y })
            } else {
                Err(VmError::MalformedOp)
            }
        } else if first == 0xAu8 {
            Ok(OpCode::_ANNN { nnn })
        } else if first == 0xBu8 {
            Ok(OpCode::_BNNN { nnn })
        } else if first == 0xCu8 {
            Ok(OpCode::_CXNN { x, nn })
        } else if first == 0xDu8 {
            Ok(OpCode::_DXYN { x, y, n: last })
        } else if first == 0xEu8 {
            match nn {
                0x9Eu8 => Ok(OpCode::_EX9E { x }),
                0xA1u8 => Ok(OpCode::_EXA1 { x }),
                _ => Err(VmError::MalformedOp),
            }
        } else {
            match nn {
                0x07u8 => Ok(OpCode::_FX07 { x }),
                0x0Au8 => Ok(OpCode::_FX0A { x }),
                0x15u8 => Ok(OpCode::_FX15 { x }),
                0x18u8 => Ok(OpCode::_FX18 { x }),
                0x1Eu8 => Ok(OpCode::_FX1E { x }),
                0x29u8 => Ok(OpCode::_FX29 { x }),
                0x33u8 => Ok(OpCode::_FX33 { x }),
                0x55u8 => Ok(OpCode::_FX55 { x }),
                0x65u8 => Ok(OpCode::_FX65 { x }),
                _ => Err(VmError::MalformedOp),
            }
        }
    }
}

/// A word is made of its nibbles.
pub proof fn lemma_word_of_nibbles(raw: u16)
    ensures
        first_of(raw) < 16,
        x_of(raw) < 16,
        y_of(raw) < 16,
        last_of(raw) < 16,
        nnn_of(raw) < 0x1000,
        raw == first_of(raw) * 0x1000 + nnn_of(raw),
        nnn_of(raw) == x_of(raw) * 0x100 + nn_of(raw),
        nn_of(raw) == y_of(raw) * 0x10 + last_of(raw),
{
    let w = raw as int;
    lemma_fundamental_div_mod(w, 0x1000);
    lemma_fundamental_div_mod(w, 0x100);
    lemma_fundamental_div_mod(w, 0x10);
    lemma_fundamental_div_mod(w / 0x100, 0x10);
    lemma_fundamental_div_mod(w / 0x10, 0x10);
    lemma_fundamental_div_mod_converse(w % 0x1000, 0x100, (w / 0x100) % 0x10, w % 0x100);
    lemma_fundamental_div_mod_converse(w % 0x100, 0x10, (w / 0x10) % 0x10, w % 0x10);
}

/// Decoding and encoding are inverse to each other, first half: a word
/// that decodes to an instruction is the word of that instruction, and the
/// operands of that instruction fit their fields.
pub proof fn lemma_word_inverts_decode(raw: u16)
    ensures
        decode(raw) matches Ok(op) ==> op.wf() && op.word() == raw,
        decode(raw) is Err <==> is_malformed(raw),
        decode(raw) matches Err(e) ==> e == VmError::MalformedOp,
{
    lemma_word_of_nibbles(raw);
}

/// The fields of the word made of a leading nibble and an address.
proof fn lemma_fields_annn(a: int, nnn: u16)
    requires
        0 <= a < 16,
        nnn < 0x1000,
    ensures
        0 <= word_annn(a, nnn) <= 0xFFFF,
        first_of(word_annn(a, nnn) as u16) == a,
        nnn_of(word_annn(a, nnn) as u16) == nnn,
{
}

/// The fields of the word made of a leading nibble, a register index and
/// a byte.
proof fn lemma_fields_axnn(a: int, x: u8, nn: u8)
    requires
        0 <= a < 16,
        x < 16,
    ensures
        0 <= word_axnn(a, x, nn) <= 0xFFFF,
        first_of(word_axnn(a, x, nn) as u16) == a,
        x_of(word_axnn(a, x, nn) as u16) == x,
        nn_of(word_axnn(a, x, nn) as u16) == nn,
        last_of(word_axnn(a, x, nn) as u16) == nn % 0x10,
{
}

/// The fields of the word made of four nibbles.
proof fn lemma_fields_axyn(a: int, x: u8, y: u8, n: int)
    requires
        0 <= a < 16,
        x < 16,
        y < 16,
        0 <= n < 16,
    ensures
        0 <= word_axyn(a, x, y, n) <= 0xFFFF,
        first_of(word_axyn(a, x, y, n) as u16) == a,
        x_of(word_axyn(a, x, y, n) as u16) == x,
        y_of(word_axyn(a, x, y, n) as u16) == y,
        last_of(word_axyn(a, x, y, n) as u16) == n,
        nn_of(word_axyn(a, x, y, n) as u16) == y * 0x10 + n,
{
    let w = word_axyn(a, x, y, n);
    lemma_fundamental_div_mod_converse(w, 0x1000, a, x * 0x100 + y * 0x10 + n);
    lemma_fundamental_div_mod_converse(w, 0x100, a * 0x10 + x, y * 0x10 + n);
    lemma_fundamental_div_mod_converse(a * 0x10 + x, 0x10, a, x as int);
    lemma_fundamental_div_mod_converse(w, 0x10, a * 0x100 + x * 0x10 + y, n);
    lemma_fundamental_div_mod_converse(a * 0x100 + x * 0x10 + y, 0x10, a * 0x10 + x, y as int);
}

/// Decoding and encoding are inverse to each other, second half: the word
/// of an instruction whose operands fit their fields decodes to that
/// instruction. So no two such instructions share a word.
pub proof fn lemma_decode_inverts_word(op: OpCode)
    requires
        op.wf(),
    ensures
        0 <= op.word() <= 0xFFFF,
        decode(op.word() as u16) == Ok::<OpCode, VmError>(op),
{
    match op {
        OpCode::_0NNN { nnn } => lemma_fields_annn(0x0, nnn),
        OpCode::_00E0 => lemma_fields_annn(0x0, 0x0E0),
        OpCode::_00EE => lemma_fields_annn(0x0, 0x0EE),
        OpCode::_1NNN { nnn } => lemma_fields_annn(0x1, nnn),
        OpCode::_2NNN { nnn } => lemma_fields_annn(0x2, nnn),
        OpCode::_3XNN { x, nn } => lemma_fields_axnn(0x3, x, nn),
        OpCode::_4XNN { x, nn } => lemma_fields_axnn(0x4, x, nn),
        OpCode::_5XY0 { x, y } => lemma_fields_axyn(0x5, x, y, 0x0),
        OpCode::_6XNN { x, nn } => lemma_fields_axnn(0x6, x, nn),
        OpCode::_7XNN { x, nn } => lemma_fields_axnn(0x7, x, nn),
        OpCode::_8XY0 { x, y } => lemma_fields_axyn(0x8, x, y, 0x0),
        OpCode::_8XY1 { x, y } => lemma_fields_axyn(0x8, x, y, 0x1),
        OpCode::_8XY2 { x, y } => lemma_fields_axyn(0x8, x, y, 0x2),
        OpCode::_8XY3 { x, y } => lemma_fields_axyn(0x8, x, y, 0x3),
        OpCode::_8XY4 { x, y } => lemma_fields_axyn(0x8, x, y, 0x4),
        OpCode::_8XY5 { x, y } => lemma_fields_axyn(0x8, x, y, 0x5),
        OpCode::_8XY6 { x, y } => lemma_fields_axyn(0x8, x, y, 0x6),
        OpCode::_8XY7 { x, y } => lemma_fields_axyn(0x8, x, y, 0x7),
        OpCode::_8XYE { x, y } => lemma_fields_axyn(0x8, x, y, 0xE),
        OpCode::_9XY0 { x, y } => lemma_fields_axyn(0x9, x, y, 0x0),
        OpCode::_ANNN { nnn } => lemma_fields_annn(0xA, nnn),
        OpCode::_BNNN { nnn } => lemma_fields_annn(0xB, nnn),
        OpCode::_CXNN { x, nn } => lemma_fields_axnn(0xC, x, nn),
        OpCode::_DXYN { x, y, n } => lemma_fields_axyn(0xD, x, y, n as int),
        OpCode::_EX9E { x } => lemma_fields_axnn(0xE, x, 0x9E),
        OpCode::_EXA1 { x } => lemma_fields_axnn(0xE, x, 0xA1),
        OpCode::_FX07 { x } => lemma_fields_axnn(0xF, x, 0x07),
        OpCode::_FX0A { x } => lemma_fields_axnn(0xF, x, 0x0A),
        OpCode::_FX15 { x } => lemma_fields_axnn(0xF, x, 0x15),
        OpCode::_FX18 { x } => lemma_fields_axnn(0xF, x, 0x18),
        OpCode::_FX1E { x } => lemma_fields_axnn(0xF, x, 0x1E),
        OpCode::_FX29 { x } => lemma_fields_axnn(0xF, x, 0x29),
        OpCode::_FX33 { x } => lemma_fields_axnn(0xF, x, 0x33),
        OpCode::_FX55 { x } => lemma_fields_axnn(0xF, x, 0x55),
        OpCode::_FX65 { x } => lemma_fields_axnn(0xF, x, 0x65),
    }
}

} // verus!
