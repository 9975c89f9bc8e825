//! The machine as a mathematical value, and what every instruction does
//! to it.
//!
//! [`Machine`] holds what a running machine holds, as sequences and
//! numbers. Each instruction is a function from a machine to the machine
//! after it, or to the error that it ends in; an instruction that ends in
//! an error leaves the machine as it found it. [`step`] is one instruction,
//! [`tick`] one whole tick.

use vstd::prelude::*;

use crate::bits::msb0_bit;
use crate::error::VmError;
use crate::frame::{blank, pixel_index};
use crate::keys::KeyState;
use crate::opcode::{decode, OpCode};

verus! {

/// The length of the memory in bytes.
pub const MEM_LENGTH: usize = 4096;

/// The address at which a program starts.
pub const START_ADDR: u16 = 0x200;

/// The address at which the glyphs of the built-in font start.
pub const FONTSET_ADDR: u16 = 0x050;

/// The highest address at which an instruction can start.
pub const LAST_FETCH_ADDR: u16 = 4094;

/// The glyphs of the sixteen hexadecimal digits, five bytes each: four
/// pixels wide in the high nibble of each byte, five pixels high.
pub open spec fn fontset() -> Seq<u8> {
    seq![
        0xF0u8, 0x90u8, 0x90u8, 0x90u8, 0xF0u8,
        0x20u8, 0x60u8, 0x20u8, 0x20u8, 0x70u8,
        0xF0u8, 0x10u8, 0xF0u8, 0x80u8, 0xF0u8,
        0xF0u8, 0x10u8, 0xF0u8, 0x10u8, 0xF0u8,
        0x90u8, 0x90u8, 0xF0u8, 0x10u8, 0x10u8,
        0xF0u8, 0x80u8, 0xF0u8, 0x10u8, 0xF0u8,
        0xF0u8, 0x80u8, 0xF0u8, 0x90u8, 0xF0u8,
        0xF0u8, 0x10u8, 0x20u8, 0x40u8, 0x40u8,
        0xF0u8, 0x90u8, 0xF0u8, 0x90u8, 0xF0u8,
        0xF0u8, 0x90u8, 0xF0u8, 0x10u8, 0xF0u8,
        0xF0u8, 0x90u8, 0xF0u8, 0x90u8, 0x90u8,
        0xE0u8, 0x90u8, 0xE0u8, 0x90u8, 0xE0u8,
        0xF0u8, 0x80u8, 0x80u8, 0x80u8, 0xF0u8,
        0xE0u8, 0x90u8, 0x90u8, 0x90u8, 0xE0u8,
        0xF0u8, 0x80u8, 0xF0u8, 0x80u8, 0xF0u8,
        0xF0u8, 0x80u8, 0xF0u8, 0x80u8, 0x80u8,
    ]
}

/// The sum of two bytes in a byte: what is above 255 is dropped.
pub open spec fn wrapped_sum(a: u8, b: u8) -> u8 {
    ((a + b) % 256) as u8
}

/// The difference of two bytes in a byte: below zero it wraps to the top.
pub open spec fn wrapped_difference(a: u8, b: u8) -> u8 {
    ((a - b) % 256) as u8
}

/// One if the condition holds, zero if not: the value of a flag.
pub open spec fn flag(condition: bool) -> u8 {
    if condition {
        1
    } else {
        0
    }
}

/// The instruction word made of two successive bytes, the high byte first.
pub open spec fn word_of(high: u8, low: u8) -> u16 {
    (high * 256 + low) as u16
}

/// Whether pixel `(px, py)` is one that a sprite of `n` rows touches when
/// it starts at `(sx, sy)`: a sprite is eight pixels wide, and what would
/// fall beyond the right or the bottom edge is cut off.
pub open spec fn sprite_covers(sx: int, sy: int, n: int, px: int, py: int) -> bool {
    &&& sx <= px < sx + 8
    &&& px < 64
    &&& sy <= py < sy + n
    &&& py < 32
}

/// The sprite's own bit for pixel `(px, py)`: row `py - sy` of the sprite,
/// position `px - sx` from the left.
pub open spec fn sprite_bit(rows: Seq<u8>, sx: int, sy: int, px: int, py: int) -> bool {
    msb0_bit(rows[py - sy], px - sx)
}

/// The picture after a sprite was drawn at `(sx, sy)`: every pixel that
/// the sprite touches takes its old value XOR the sprite's bit.
pub open spec fn draw_sprite(pixels: Seq<bool>, rows: Seq<u8>, sx: int, sy: int) -> Seq<bool> {
    Seq::new(
        2048,
        |p: int|
            if sprite_covers(sx, sy, rows.len() as int, p % 64, p / 64) {
                pixels[p] != sprite_bit(rows, sx, sy, p % 64, p / 64)
            } else {
                pixels[p]
            },
    )
}

/// Whether a sprite drawn at `(sx, sy)` collides: one of its set bits
/// falls on a lit pixel.
pub open spec fn sprite_collides(pixels: Seq<bool>, rows: Seq<u8>, sx: int, sy: int) -> bool {
    exists|px: int, py: int|
        sprite_covers(sx, sy, rows.len() as int, px, py) && sprite_bit(rows, sx, sy, px, py)
            && #[trigger] pixels[pixel_index(px, py)]
}

/// The machine as a value.
#[verifier::ext_equal]
pub struct Machine {
    /// The registers `V0` to `VF`.
    pub v: Seq<u8>,
    /// The index register `I`.
    pub i: u16,
    /// The program counter.
    pub pc: u16,
    /// The 2048 pixels of the frame buffer, row after row.
    pub pixels: Seq<bool>,
    /// The states of the 16 keys.
    pub keys: Seq<KeyState>,
    /// The return addresses on the call stack, the oldest first.
    pub stack: Seq<u16>,
    /// The 4096 bytes of the memory.
    pub memory: Seq<u8>,
    /// The delay timer.
    pub delay: u8,
    /// The sound timer.
    pub sound: u8,
}

/// The memory of a machine that was loaded with a program: all zero, but
/// for the font from `0x050` and the program from `0x200`. What of the
/// program does not fit below the end of the memory is left out.
pub open spec fn loaded_memory(program: Seq<u8>) -> Seq<u8> {
    Seq::new(
        4096,
        |a: int|
            if 0x050 <= a < 0x050 + 80 {
                fontset()[a - 0x050]
            } else if 0x200 <= a < 0x200 + program.len() {
                program[a - 0x200]
            } else {
                0u8
            },
    )
}

impl Machine {
    /// A machine at rest with the given memory: registers, timers and
    /// frame buffer at zero, no key touched, nothing on the stack, and the
    /// program counter at the start of the program.
    pub open spec fn fresh(memory: Seq<u8>) -> Machine {
        Machine {
            v: Seq::new(16, |k: int| 0u8),
            i: 0,
            pc: 0x200,
            pixels: blank(),
            keys: Seq::new(16, |k: int| KeyState::Up),
            stack: Seq::empty(),
            memory,
            delay: 0,
            sound: 0,
        }
    }

    /// Whether each part has the size that the machine gives it.
    pub open spec fn shaped(self) -> bool {
        &&& self.v.len() == 16
        &&& self.pixels.len() == 2048
        &&& self.keys.len() == 16
        &&& self.memory.len() == 4096
    }

    /// What holds of a machine between two instructions: `I` points into
    /// the memory, the program counter is no more than one instruction
    /// past it, and the stack is within its capacity.
    pub open spec fn inv(self) -> bool {
        &&& self.shaped()
        &&& self.i < 4096
        &&& self.pc <= 4096
        &&& self.stack.len() <= 64
    }

    /// The machine with `value` in register `x`.
    pub open spec fn with_v(self, x: int, value: u8) -> Machine {
        Machine { v: self.v.update(x, value), ..self }
    }

    /// The machine with `value` in register `x` and then `flag` in `VF`.
    pub open spec fn with_v_and_flag(self, x: int, value: u8, flag: u8) -> Machine {
        Machine { v: self.v.update(x, value).update(15, flag), ..self }
    }

    /// The machine with the program counter at `pc`.
    pub open spec fn at(self, pc: u16) -> Machine {
        Machine { pc, ..self }
    }

    /// The machine one instruction further: the program counter moves on
    /// by two, unless no instruction could start where it stands.
    pub open spec fn advance(self) -> Result<Machine, VmError> {
        if self.pc <= 4094 {
            Ok(self.at((self.pc + 2) as u16))
        } else {
            Err(VmError::OutOfAddressSpace)
        }
    }

    /// A skip: the machine one instruction further, and two if the
    /// condition holds.
    pub open spec fn skip_if(self, condition: bool) -> Result<Machine, VmError> {
        let by: int = if condition {
            4
        } else {
            2
        };
        if self.pc + by <= 4096 {
            Ok(self.at((self.pc + by) as u16))
        } else {
            Err(VmError::OutOfAddressSpace)
        }
    }

    /// `00E0`: the machine with a blank frame buffer.
    pub open spec fn clear_screen(self) -> Machine {
        Machine { pixels: blank(), ..self }
    }

    /// `00EE` before the program counter moves on: the newest return
    /// address leaves the stack and becomes the program counter.
    pub open spec fn subroutine_return(self) -> Result<Machine, VmError> {
        if self.stack.len() == 0 {
            Err(VmError::ReturnWithoutCall)
        } else {
            Ok(Machine { pc: self.stack.last(), stack: self.stack.drop_last(), ..self })
        }
    }

    /// `1NNN`: the program counter becomes `nnn`.
    pub open spec fn jump_to(self, nnn: u16) -> Result<Machine, VmError> {
        if nnn < 0x200 {
            Err(VmError::JumpBeforeProgram)
        } else {
            Ok(self.at(nnn))
        }
    }

    /// `2NNN`: the program counter goes onto the stack and becomes `nnn`.
    pub open spec fn exec_subroutine_at(self, nnn: u16) -> Result<Machine, VmError> {
        if nnn < 0x200 {
            Err(VmError::JumpBeforeProgram)
        } else if self.stack.len() >= 64 {
            Err(VmError::StackOverflow)
        } else {
            Ok(Machine { pc: nnn, stack: self.stack.push(self.pc), ..self })
        }
    }

    /// `8XY4`: `VX` becomes `VX + VY`, and `VF` tells whether that went
    /// beyond a byte.
    pub open spec fn assign_add_vx_vy(self, x: int, y: int) -> Machine {
        self.with_v_and_flag(
            x,
            wrapped_sum(self.v[x], self.v[y]),
            flag(self.v[x] + self.v[y] > 255),
        )
    }

    /// `8XY5`: `VX` becomes `VX - VY`, and `VF` tells whether nothing had
    /// to be borrowed.
    pub open spec fn assign_sub_vx_vy(self, x: int, y: int) -> Machine {
        self.with_v_and_flag(
            x,
            wrapped_difference(self.v[x], self.v[y]),
            flag(self.v[x] >= self.v[y]),
        )
    }

    /// `8XY7`: `VX` becomes `VY - VX`, and `VF` tells whether nothing had
    /// to be borrowed.
    pub open spec fn assign_vx_vy_sub_vx(self, x: int, y: int) -> Machine {
        self.with_v_and_flag(
            x,
            wrapped_difference(self.v[y], self.v[x]),
            flag(self.v[y] >= self.v[x]),
        )
    }

    /// `8XY6`: `VX` and `VY` both become `VY` shifted right by one, and
    /// `VF` the bit that was shifted out.
    pub open spec fn assign_vx_vy_shifted_r(self, x: int, y: int) -> Machine {
        Machine {
            v: self.v.update(x, self.v[y] >> 1u8).update(y, self.v[y] >> 1u8).update(
                15,
                self.v[y] & 1u8,
            ),
            ..self
        }
    }

    /// `8XYE`: `VX` and `VY` both become `VY` shifted left by one, and
    /// `VF` the bit that was shifted out.
    pub open spec fn assign_vx_vy_shifted_l(self, x: int, y: int) -> Machine {
        Machine {
            v: self.v.update(x, self.v[y] << 1u8).update(y, self.v[y] << 1u8).update(
                15,
                self.v[y] >> 7u8,
            ),
            ..self
        }
    }

    /// `BNNN`: the program counter becomes `nnn + V0`.
    pub open spec fn jump_to_nnn_add_v0(self, nnn: u16) -> Result<Machine, VmError> {
        if nnn + self.v[0] < 0x200 {
            Err(VmError::JumpBeforeProgram)
        } else if nnn + self.v[0] >= 4096 {
            Err(VmError::OutOfAddressSpace)
        } else {
            Ok(self.at((nnn + self.v[0]) as u16))
        }
    }

    /// The column at which `DXYN` starts: `VX` wrapped into the width.
    pub open spec fn sprite_x(self, x: int) -> int {
        self.v[x] as int % 64
    }

    /// The row at which `DXYN` starts: `VY` wrapped into the height.
    pub open spec fn sprite_y(self, y: int) -> int {
        self.v[y] as int % 32
    }

    /// The rows of the sprite that `DXYN` draws: `n` bytes from `I` on.
    pub open spec fn sprite_rows(self, n: int) -> Seq<u8> {
        self.memory.subrange(self.i as int, self.i + n)
    }

    /// `DXYN`: the sprite is drawn, and `VF` tells whether it collided.
    pub open spec fn draw_n_at_vx_vy(self, x: int, y: int, n: int) -> Result<Machine, VmError> {
        if self.i + n > 4096 {
            Err(VmError::OutOfAddressSpace)
        } else {
            Ok(
                Machine {
                    pixels: draw_sprite(
                        self.pixels,
                        self.sprite_rows(n),
                        self.sprite_x(x),
                        self.sprite_y(y),
                    ),
                    v: self.v.update(
                        15,
                        flag(
                            sprite_collides(
                                self.pixels,
                                self.sprite_rows(n),
                                self.sprite_x(x),
                                self.sprite_y(y),
                            ),
                        ),
                    ),
                    ..self
                },
            )
        }
    }

    /// Whether the key whose number is in `VX` is held: the number is one
    /// of a key, and that key is `Pressed` or `Down`.
    pub open spec fn key_in_vx_held(self, x: int) -> bool {
        self.v[x] < 16 && self.keys[self.v[x] as int].held()
    }

    /// Whether key `k` is the first that was released at this tick.
    pub open spec fn first_released(self, k: int) -> bool {
        &&& 0 <= k < 16
        &&& self.keys[k] is Released
        &&& forall|j: int| 0 <= j < k ==> !(#[trigger] self.keys[j] is Released)
    }

    /// Whether no key was released at this tick.
    pub open spec fn none_released(self) -> bool {
        forall|j: int| 0 <= j < 16 ==> !(#[trigger] self.keys[j] is Released)
    }

    /// `FX0A`: where a key was released at this tick, the number of the
    /// first such key goes to `VX` and the program counter moves on; where
    /// none was, nothing changes, so that the instruction is met again at
    /// the next tick.
    pub open spec fn assign_vx_wait_for_key(self, x: int) -> Result<Machine, VmError> {
        if self.none_released() {
            Ok(self)
        } else {
            let k = choose|k: int| self.first_released(k);
            self.with_v(x, k as u8).advance()
        }
    }

    /// `FX1E`: `I` becomes `I + VX`.
    pub open spec fn assign_add_i_vx(self, x: int) -> Result<Machine, VmError> {
        if self.i + self.v[x] >= 4096 {
            Err(VmError::OutOfAddressSpace)
        } else {
            Ok(Machine { i: (self.i + self.v[x]) as u16, ..self })
        }
    }

    /// `FX29`: `I` becomes the address of the glyph for the low nibble of
    /// `VX`.
    pub open spec fn assign_i_addr_of_sprite_vx(self, x: int) -> Machine {
        Machine { i: (0x050 + (self.v[x] % 16) * 5) as u16, ..self }
    }

    /// `FX33`: the hundreds, tens and ones of `VX` go to the memory at
    /// `I`, `I + 1` and `I + 2`.
    pub open spec fn assign_mem_at_i_bcd_of_vx(self, x: int) -> Result<Machine, VmError> {
        if self.i + 2 >= 4096 {
            Err(VmError::OutOfAddressSpace)
        } else {
            Ok(
                Machine {
                    memory: self.memory.update(self.i as int, self.v[x] / 100).update(
                        self.i + 1,
                        self.v[x] % 100 / 10,
                    ).update(self.i + 2, self.v[x] % 10),
                    ..self
                },
            )
        }
    }

    /// `FX55`: `V0` to `VX` go to the memory from `I` on, and `I` moves
    /// past them.
    pub open spec fn assign_mem_at_i_v0_to_vx(self, x: int) -> Result<Machine, VmError> {
        if self.i + x >= 4095 {
            Err(VmError::OutOfAddressSpace)
        } else {
            Ok(
                Machine {
                    memory: Seq::new(
                        4096,
                        |a: int|
                            if self.i <= a <= self.i + x {
                                self.v[a - self.i]
                            } else {
                                self.memory[a]
                            },
                    ),
                    i: (self.i + x + 1) as u16,
                    ..self
                },
            )
        }
    }

    /// `FX65`: `V0` to `VX` are filled from the memory from `I` on, and
    /// `I` moves past what was read.
    pub open spec fn assign_v0_to_vx_mem_at_i(self, x: int) -> Result<Machine, VmError> {
        if self.i + x >= 4095 {
            Err(VmError::OutOfAddressSpace)
        } else {
            Ok(
                Machine {
                    v: Seq::new(
                        16,
                        |k: int|
                            if k <= x {
                                self.memory[self.i + k]
                            } else {
                                self.v[k]
                            },
                    ),
                    i: (self.i + x + 1) as u16,
                    ..self
                },
            )
        }
    }

    /// The machine after the host reported its keys: every key has taken
    /// its report.
    pub open spec fn update_keys(self, reports: Seq<bool>) -> Machine {
        Machine { keys: Seq::new(16, |k: int| self.keys[k].next(reports[k])), ..self }
    }

    /// The instruction at the program counter.
    pub open spec fn read_opcode(self) -> Result<OpCode, VmError> {
        if self.pc <= 4094 {
            decode(word_of(self.memory[self.pc as int], self.memory[self.pc + 1]))
        } else {
            Err(VmError::OutOfAddressSpace)
        }
    }
}

/// The machine one instruction further, where the instruction itself went
/// through.
pub open spec fn then_advance(done: Result<Machine, VmError>) -> Result<Machine, VmError> {
    match done {
        Ok(machine) => machine.advance(),
        Err(error) => Err(error),
    }
}

/// One instruction: the machine after `op`, or the error that `op` ends
/// in. `random` is the byte that the host gave; only `CXNN` looks at it.
///
/// Every instruction that does not set the program counter itself moves it
/// on by two, and a skip by four.
pub open spec fn step(m: Machine, op: OpCode, random: u8) -> Result<Machine, VmError> {
    match op {
        OpCode::_0NNN { nnn } => Err(VmError::UnsupportedMachineSubroutine),
        OpCode::_00E0 => m.clear_screen().advance(),
        OpCode::_00EE => then_advance(m.subroutine_return()),
        OpCode::_1NNN { nnn } => m.jump_to(nnn),
        OpCode::_2NNN { nnn } => m.exec_subroutine_at(nnn),
        OpCode::_3XNN { x, nn } => m.skip_if(m.v[x as int] == nn),
        OpCode::_4XNN { x, nn } => m.skip_if(m.v[x as int] != nn),
        OpCode::_5XY0 { x, y } => m.skip_if(m.v[x as int] == m.v[y as int]),
        OpCode::_6XNN { x, nn } => m.with_v(x as int, nn).advance(),
        OpCode::_7XNN { x, nn } => m.with_v(x as int, wrapped_sum(m.v[x as int], nn)).advance(),
        OpCode::_8XY0 { x, y } => m.with_v(x as int, m.v[y as int]).advance(),
        OpCode::_8XY1 { x, y } => m.with_v(x as int, m.v[x as int] | m.v[y as int]).advance(),
        OpCode::_8XY2 { x, y } => m.with_v(x as int, m.v[x as int] & m.v[y as int]).advance(),
        OpCode::_8XY3 { x, y } => m.with_v(x as int, m.v[x as int] ^ m.v[y as int]).advance(),
        OpCode::_8XY4 { x, y } => m.assign_add_vx_vy(x as int, y as int).advance(),
        OpCode::_8XY5 { x, y } => m.assign_sub_vx_vy(x as int, y as int).advance(),
        OpCode::_8XY6 { x, y } => m.assign_vx_vy_shifted_r(x as int, y as int).advance(),
        OpCode::_8XY7 { x, y } => m.assign_vx_vy_sub_vx(x as int, y as int).advance(),
        OpCode::_8XYE { x, y } => m.assign_vx_vy_shifted_l(x as int, y as int).advance(),
        OpCode::_9XY0 { x, y } => m.skip_if(m.v[x as int] != m.v[y as int]),
        OpCode::_ANNN { nnn } => (Machine { i: nnn, ..m }).advance(),
        OpCode::_BNNN { nnn } => m.jump_to_nnn_add_v0(nnn),
        OpCode::_CXNN { x, nn } => m.with_v(x as int, random & nn).advance(),
        OpCode::_DXYN { x, y, n } => then_advance(
            m.draw_n_at_vx_vy(x as int, y as int, n as int),
        ),
        OpCode::_EX9E { x } => m.skip_if(m.key_in_vx_held(x as int)),
        OpCode::_EXA1 { x } => m.skip_if(!m.key_in_vx_held(x as int)),
        OpCode::_FX07 { x } => m.with_v(x as int, m.delay).advance(),
        OpCode::_FX0A { x } => m.assign_vx_wait_for_key(x as int),
        OpCode::_FX15 { x } => (Machine { delay: m.v[x as int], ..m }).advance(),
        OpCode::_FX18 { x } => (Machine { sound: m.v[x as int], ..m }).advance(),
        OpCode::_FX1E { x } => then_advance(m.assign_add_i_vx(x as int)),
        OpCode::_FX29 { x } => m.assign_i_addr_of_sprite_vx(x as int).advance(),
        OpCode::_FX33 { x } => then_advance(m.assign_mem_at_i_bcd_of_vx(x as int)),
        OpCode::_FX55 { x } => then_advance(m.assign_mem_at_i_v0_to_vx(x as int)),
        OpCode::_FX65 { x } => then_advance(m.assign_v0_to_vx_mem_at_i(x as int)),
    }
}

/// One tick of the instruction cadence: the keys take the host's reports,
/// the instruction at the program counter is read, decoded and executed.
/// The machine after a tick that failed is the machine with the new key
/// states and nothing else changed.
pub open spec fn tick(m: Machine, reports: Seq<bool>, random: u8) -> (Machine, Result<(), VmError>) {
    let polled = m.update_keys(reports);
    match polled.read_opcode() {
        Err(error) => (polled, Err(error)),
        Ok(op) => match step(polled, op, random) {
            Err(error) => (polled, Err(error)),
            Ok(next) => (next, Ok(())),
        },
    }
}

/// Whether an operation that was to take `before` to `expected` did so:
/// where an error was expected, that error came back and nothing changed.
pub open spec fn agrees(
    before: Machine,
    after: Machine,
    done: Result<(), VmError>,
    expected: Result<Machine, VmError>,
) -> bool {
    match expected {
        Ok(machine) => done == Ok::<(), VmError>(()) && after == machine,
        Err(error) => done == Err::<(), VmError>(error) && after == before,
    }
}

} // verus!
