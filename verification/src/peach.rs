//! The CHIP-8 interpreter.
//!
//! [`Peach8`] owns the whole machine and the context that stands for the
//! platform. What the machine holds is, as a value, a
//! [`Machine`](crate::machine::Machine); the contracts of this module say
//! of every operation which machine it leaves behind.

use vstd::prelude::*;

use crate::bits::bits_get;
use crate::context::Context;
use crate::error::VmError;
use crate::frame::{pixel_index, xor_pixel};
use crate::gfx::Gfx;
use crate::keys::KeyState;
use crate::laws::{lemma_step_keeps_order, lemma_tick_keeps_order};
use crate::machine::{
    agrees, draw_sprite, fontset, loaded_memory, sprite_bit, sprite_collides, sprite_covers, step,
    tick, word_of, wrapped_sum, Machine, FONTSET_ADDR, LAST_FETCH_ADDR, MEM_LENGTH, START_ADDR,
};
use crate::opcode::OpCode;
use crate::stack::CallStack;
use crate::timer::atomic::Timer;
use crate::timer::{counted_down, state_at_count, TimerState};

verus! {

/// What the buzzer is to do after a count of the sound timer.
#[derive(Copy, Clone, Debug, PartialEq, Eq, Structural)]
pub enum SoundAction {
    /// Turn the sound on.
    TurnOn,
    /// Turn the sound off.
    TurnOff,
    /// Leave the sound as it is.
    Keep,
}

/// What the buzzer is to do when the sound timer reports `state` at a
/// count: sound while the timer runs, silence while it rests, and nothing
/// at the count that brings it to zero, so that the silence begins with
/// the count after.
pub open spec fn sound_action_at(state: TimerState) -> SoundAction {
    match state {
        TimerState::On => SoundAction::TurnOn,
        TimerState::Off => SoundAction::TurnOff,
        TimerState::Finished => SoundAction::Keep,
    }
}

/// What the buzzer is to do when the sound timer reports `state`.
pub fn sound_action(state: TimerState) -> (action: SoundAction)
    ensures
        action == sound_action_at(state),
{
    match state {
        TimerState::On => SoundAction::TurnOn,
        TimerState::Off => SoundAction::TurnOff,
        TimerState::Finished => SoundAction::Keep,
    }
}

/// Chip-8 virtual machine
pub struct Peach8<C: Context> {
    /// The platform that the machine runs on.
    pub ctx: C,
    v: [u8; 16],
    i: u16,
    pc: u16,
    gfx: Gfx,
    keys: [KeyState; 16],
    stack: CallStack,
    memory: [u8; 4096],
    delay_timer: Timer,
    sound_timer: Timer,
}

impl<C: Context> View for Peach8<C> {
    type V = Machine;

    closed spec fn view(&self) -> Machine {
        Machine {
            v: self.v@,
            i: self.i,
            pc: self.pc,
            pixels: self.gfx.pixels(),
            keys: self.keys@,
            stack: self.stack@,
            memory: self.memory@,
            delay: self.delay_timer@,
            sound: self.sound_timer@,
        }
    }
}

impl<C: Context> Peach8<C> {
    /// The context that the machine owns.
    pub closed spec fn context(&self) -> C {
        self.ctx
    }

    /// Whether an operation took the machine from `before` to what was
    /// expected of it, and left the context alone.
    pub open spec fn ran(
        before: Self,
        after: Self,
        done: Result<(), VmError>,
        expected: Result<Machine, VmError>,
    ) -> bool {
        agrees(before@, after@, done, expected) && after.context() == before.context()
    }

    /// Whether an operation that cannot fail took the machine from
    /// `before` to `expected`, and left the context alone.
    pub open spec fn became(before: Self, after: Self, expected: Machine) -> bool {
        after@ == expected && after.context() == before.context()
    }

    /// The parts of every machine have their sizes.
    pub proof fn lemma_shaped(&self)
        ensures
            self@.shaped(),
    {
    }

    /// A machine at rest with an empty memory.
    pub fn new(ctx: C) -> (chip: Self)
        ensures
            chip@ == Machine::fresh(Seq::new(4096, |a: int| 0u8)),
            chip@.inv(),
            chip.context() == ctx,
    {
        let chip = Peach8 {
            ctx,
            v: [0u8;16],
            i: 0,
            pc: START_ADDR,
            gfx: Gfx::new(),
            keys: [KeyState::Up;16],
            stack: CallStack::new(),
            memory: [0u8;4096],
            delay_timer: Timer::new(),
            sound_timer: Timer::new(),
        };
        proof {
            assert(chip@.v =~= Seq::new(16, |k: int| 0u8));
            assert(chip@.keys =~= Seq::new(16, |k: int| KeyState::Up));
            assert(chip@.memory =~= Seq::new(4096, |a: int| 0u8));
        }
        chip
    }

    /// Load program from slice of bytes to memory from 0x200 (_start address)
    ///
    /// The machine that comes back is at rest; its memory holds the font
    /// from `0x050` and the program from `0x200`, as far as it fits.
    pub fn load(ctx: C, prog: &[u8]) -> (chip: Self)
        ensures
            chip@ == Machine::fresh(loaded_memory(prog@)),
            chip@.inv(),
            chip.context() == ctx,
    {
        let font: [u8; 80] = [
            0xF0, 0x90, 0x90, 0x90, 0xF0,
            0x20, 0x60, 0x20, 0x20, 0x70,
            0xF0, 0x10, 0xF0, 0x80, 0xF0,
            0xF0, 0x10, 0xF0, 0x10, 0xF0,
            0x90, 0x90, 0xF0, 0x10, 0x10,
            0xF0, 0x80, 0xF0, 0x10, 0xF0,
            0xF0, 0x80, 0xF0, 0x90, 0xF0,
            0xF0, 0x10, 0x20, 0x40, 0x40,
            0xF0, 0x90, 0xF0, 0x90, 0xF0,
            0xF0, 0x90, 0xF0, 0x10, 0xF0,
            0xF0, 0x90, 0xF0, 0x90, 0x90,
            0xE0, 0x90, 0xE0, 0x90, 0xE0,
            0xF0, 0x80, 0x80, 0x80, 0xF0,
            0xE0, 0x90, 0x90, 0x90, 0xE0,
            0xF0, 0x80, 0xF0, 0x80, 0xF0,
            0xF0, 0x80, 0xF0, 0x80, 0x80,
        ];
        assert(font@ =~= fontset());
        let mut chip = Self::new(ctx);
        let mut k: usize = 0;
        while k < 80
            invariant
                k <= 80,
                font@ == fontset(),
                chip.context() == ctx,
                chip@ == Machine::fresh(chip@.memory),
                chip@.memory.len() == 4096,
                forall|a: int|
                    0 <= a < 4096 ==> #[trigger] chip@.memory[a] == (if 0x050 <= a < 0x050 + k {
                        fontset()[a - 0x050]
                    } else {
                        0u8
                    }),
            decreases 80 - k,
        {
            chip.memory[FONTSET_ADDR as usize + k] = font[k];
            k += 1;
        }
        let room: usize = MEM_LENGTH - START_ADDR as usize;
        let count: usize = if prog.len() < room {
            prog.len()
        } else {
            room
        };
        let mut k: usize = 0;
        while k < count
            invariant
                k <= count,
                count <= prog@.len(),
                count <= 4096 - 0x200,
                count == prog@.len() || count == 4096 - 0x200,
                chip.context() == ctx,
                chip@ == Machine::fresh(chip@.memory),
                chip@.memory.len() == 4096,
                forall|a: int|
                    0 <= a < 4096 ==> #[trigger] chip@.memory[a] == (if 0x050 <= a < 0x050 + 80 {
                        fontset()[a - 0x050]
                    } else if 0x200 <= a < 0x200 + k {
                        prog@[a - 0x200]
                    } else {
                        0u8
                    }),
            decreases count - k,
        {
            chip.memory[START_ADDR as usize + k] = prog[k];
            k += 1;
        }
        assert(chip@.memory =~= loaded_memory(prog@));
        chip
    }

    /// The program counter.
    pub fn pc(&self) -> (pc: u16)
        ensures
            pc == self@.pc,
    {
        self.pc
    }

    /// The index register `I`.
    pub fn i(&self) -> (i: u16)
        ensures
            i == self@.i,
    {
        self.i
    }

    /// The register `Vx`.
    pub fn v(&self, x: u8) -> (value: u8)
        requires
            x < 16,
        ensures
            value == self@.v[x as int],
    {
        self.v[x as usize]
    }

    /// The byte of the memory at `address`.
    pub fn memory(&self, address: u16) -> (byte: u8)
        requires
            address < 4096,
        ensures
            byte == self@.memory[address as int],
    {
        self.memory[address as usize]
    }

    /// The state of key `k`.
    pub fn key(&self, k: u8) -> (state: KeyState)
        requires
            k < 16,
        ensures
            state == self@.keys[k as int],
    {
        self.keys[k as usize]
    }

    /// The value of the delay timer.
    pub fn delay_timer(&self) -> (value: u8)
        ensures
            value == self@.delay,
    {
        self.delay_timer.load()
    }

    /// The value of the sound timer.
    pub fn sound_timer(&self) -> (value: u8)
        ensures
            value == self@.sound,
    {
        self.sound_timer.load()
    }

    /// The frame buffer.
    pub fn gfx(&self) -> (gfx: &Gfx)
        ensures
            gfx.pixels() == self@.pixels,
    {
        &self.gfx
    }

    /// The number of return addresses on the call stack.
    pub fn stack_len(&self) -> (count: usize)
        ensures
            count == self@.stack.len(),
    {
        self.stack.len()
    }

    /// Takes the newest return address off the call stack, if there is
    /// one.
    pub fn stack_pop(&mut self) -> (address: Option<u16>)
        ensures
            address == (if old(self)@.stack.len() > 0 {
                Some(old(self)@.stack.last())
            } else {
                None
            }),
            Self::became(
                *old(self),
                *final(self),
                Machine {
                    stack: if old(self)@.stack.len() > 0 {
                        old(self)@.stack.drop_last()
                    } else {
                        old(self)@.stack
                    },
                    ..old(self)@
                },
            ),
    {
        self.stack.pop()
    }

    /// Empties the call stack.
    pub fn stack_clear(&mut self)
        ensures
            Self::became(*old(self), *final(self), Machine { stack: Seq::empty(), ..old(self)@ }),
    {
        self.stack.clear()
    }

    /// Moves the program counter to `pc`.
    pub fn set_pc(&mut self, pc: u16)
        ensures
            Self::became(*old(self), *final(self), old(self)@.at(pc)),
    {
        self.pc = pc;
    }

    /// Writes `byte` to the memory at `address`.
    pub fn set_memory(&mut self, address: u16, byte: u8)
        requires
            address < 4096,
        ensures
            Self::became(
                *old(self),
                *final(self),
                Machine { memory: old(self)@.memory.update(address as int, byte), ..old(self)@ },
            ),
    {
        self.memory[address as usize] = byte;
    }

    /// Sets the delay timer to `value`.
    pub fn set_delay_timer(&mut self, value: u8)
        ensures
            Self::became(*old(self), *final(self), Machine { delay: value, ..old(self)@ }),
    {
        self.delay_timer.store(value);
    }

    /// Moves the program counter on by one instruction.
    pub fn pc_increment(&mut self) -> (done: Result<(), VmError>)
        ensures
            Self::ran(*old(self), *final(self), done, old(self)@.advance()),
    {
        if self.pc <= LAST_FETCH_ADDR {
            self.pc += 2;
            Ok(())
        } else {
            Err(VmError::OutOfAddressSpace)
        }
    }

    /// Lets every key take its report: entry `k` of `reports` tells
    /// whether key `k` is held.
    pub fn take_key_reports(&mut self, reports: &[bool; 16])
        ensures
            Self::became(*old(self), *final(self), old(self)@.update_keys(reports@)),
    {
        let mut k: usize = 0;
        while k < 16
            invariant
                k <= 16,
                self.context() == old(self).context(),
                self@ == (Machine { keys: self@.keys, ..old(self)@ }),
                self@.keys.len() == 16,
                forall|j: int|
                    0 <= j < 16 ==> #[trigger] self@.keys[j] == (if j < k {
                        old(self)@.keys[j].next(reports@[j])
                    } else {
                        old(self)@.keys[j]
                    }),
            decreases 16 - k,
        {
            let mut state = self.keys[k];
            let _ = state.update(reports[k]);
            self.keys[k] = state;
            k += 1;
        }
        assert(self@.keys =~= old(self)@.update_keys(reports@).keys);
    }

    /// Asks the host for its keys and lets every key take its report.
    ///
    /// Whatever the host reports, the machine afterwards is the one that
    /// took those reports.
    pub fn update_keys(&mut self)
        ensures
            exists|reports: Seq<bool>|
                reports.len() == 16 && final(self)@ == old(self)@.update_keys(reports),
    {
        let reports = self.ctx.get_keys();
        self.take_key_reports(&reports);
        assert(reports@.len() == 16 && self@ == old(self)@.update_keys(reports@));
    }

    /// The instruction at the program counter: two bytes, the high byte
    /// first, decoded.
    pub fn read_opcode(&self) -> (read: Result<OpCode, VmError>)
        ensures
            read == self@.read_opcode(),
            read matches Ok(op) ==> op.wf(),
    {
        if self.pc <= LAST_FETCH_ADDR {
            let high = self.memory[self.pc as usize];
            let low = self.memory[(self.pc + 1) as usize];
            let mut raw: u16 = 0;
            raw |= (high as u16) << 8;
            raw |= low as u16;
            assert(raw == word_of(high, low)) by (bit_vector)
                requires
                    raw == (0u16 | ((high as u16) << 8)) | (low as u16),
            ;
            OpCode::try_from(raw)
        } else {
            Err(VmError::OutOfAddressSpace)
        }
    }
}

/// Whether the drawing of a sprite has dealt with pixel `(px, py)` when it
/// stands at column `col` of row `row`: rows go from the top, and each row
/// from the left.
spec fn reached(px: int, py: int, row: int, col: int) -> bool {
    py < row || (py == row && px < col)
}

/// The picture while a sprite is drawn: the pixels dealt with have
/// changed, the others not yet.
spec fn drawn_upto(pixels: Seq<bool>, rows: Seq<u8>, sx: int, sy: int, row: int, col: int) -> Seq<
    bool,
> {
    Seq::new(
        2048,
        |p: int|
            if sprite_covers(sx, sy, rows.len() as int, p % 64, p / 64) && reached(
                p % 64,
                p / 64,
                row,
                col,
            ) {
                pixels[p] != sprite_bit(rows, sx, sy, p % 64, p / 64)
            } else {
                pixels[p]
            },
    )
}

/// Whether one of the pixels dealt with so far made the sprite collide.
spec fn collides_upto(pixels: Seq<bool>, rows: Seq<u8>, sx: int, sy: int, row: int, col: int) -> bool {
    exists|px: int, py: int|
        sprite_covers(sx, sy, rows.len() as int, px, py) && reached(px, py, row, col) && sprite_bit(
            rows,
            sx,
            sy,
            px,
            py,
        ) && #[trigger] pixels[pixel_index(px, py)]
}

/// One more pixel dealt with: the picture.
proof fn lemma_drawn_one_more(
    pixels: Seq<bool>,
    rows: Seq<u8>,
    sx: int,
    sy: int,
    px: int,
    py: int,
)
    requires
        pixels.len() == 2048,
        sprite_covers(sx, sy, rows.len() as int, px, py),
        0 <= sx,
        0 <= sy,
    ensures
        drawn_upto(pixels, rows, sx, sy, py, px)[pixel_index(px, py)] == pixels[pixel_index(px, py)],
        xor_pixel(
            drawn_upto(pixels, rows, sx, sy, py, px),
            px,
            py,
            sprite_bit(rows, sx, sy, px, py),
        ) == drawn_upto(pixels, rows, sx, sy, py, px + 1),
{
    let at = pixel_index(px, py);
    assert(at % 64 == px && at / 64 == py);
    let before = drawn_upto(pixels, rows, sx, sy, py, px);
    let after = drawn_upto(pixels, rows, sx, sy, py, px + 1);
    let changed = xor_pixel(before, px, py, sprite_bit(rows, sx, sy, px, py));
    assert forall|p: int| 0 <= p < 2048 implies changed[p] == after[p] by {
        if p != at {
            assert(p % 64 != px || p / 64 != py);
        }
    }
    assert(changed =~= after);
}

/// One more pixel dealt with: the collision.
proof fn lemma_collides_one_more(
    pixels: Seq<bool>,
    rows: Seq<u8>,
    sx: int,
    sy: int,
    px: int,
    py: int,
)
    requires
        sprite_covers(sx, sy, rows.len() as int, px, py),
    ensures
        collides_upto(pixels, rows, sx, sy, py, px + 1) == (collides_upto(
            pixels,
            rows,
            sx,
            sy,
            py,
            px,
        ) || (sprite_bit(rows, sx, sy, px, py) && pixels[pixel_index(px, py)])),
{
    if collides_upto(pixels, rows, sx, sy, py, px + 1) {
        let (qx, qy) = choose|qx: int, qy: int|
            sprite_covers(sx, sy, rows.len() as int, qx, qy) && reached(qx, qy, py, px + 1)
                && sprite_bit(rows, sx, sy, qx, qy) && #[trigger] pixels[pixel_index(qx, qy)];
        if !(qx == px && qy == py) {
            assert(reached(qx, qy, py, px));
        }
    }
    if collides_upto(pixels, rows, sx, sy, py, px) {
        let (qx, qy) = choose|qx: int, qy: int|
            sprite_covers(sx, sy, rows.len() as int, qx, qy) && reached(qx, qy, py, px)
                && sprite_bit(rows, sx, sy, qx, qy) && #[trigger] pixels[pixel_index(qx, qy)];
        assert(reached(qx, qy, py, px + 1));
    }
    if sprite_bit(rows, sx, sy, px, py) && pixels[pixel_index(px, py)] {
        assert(reached(px, py, py, px + 1));
    }
}

/// A row dealt with to its end is a row done.
proof fn lemma_row_done(pixels: Seq<bool>, rows: Seq<u8>, sx: int, sy: int, py: int, stop: int)
    requires
        0 <= sx < 64,
        stop == (if sx + 8 < 64 {
            sx + 8
        } else {
            64
        }),
    ensures
        drawn_upto(pixels, rows, sx, sy, py, stop) == drawn_upto(pixels, rows, sx, sy, py + 1, sx),
        collides_upto(pixels, rows, sx, sy, py, stop) == collides_upto(
            pixels,
            rows,
            sx,
            sy,
            py + 1,
            sx,
        ),
{
    assert(drawn_upto(pixels, rows, sx, sy, py, stop) =~= drawn_upto(
        pixels,
        rows,
        sx,
        sy,
        py + 1,
        sx,
    ));
    if collides_upto(pixels, rows, sx, sy, py, stop) {
        let (qx, qy) = choose|qx: int, qy: int|
            sprite_covers(sx, sy, rows.len() as int, qx, qy) && reached(qx, qy, py, stop)
                && sprite_bit(rows, sx, sy, qx, qy) && #[trigger] pixels[pixel_index(qx, qy)];
        assert(reached(qx, qy, py + 1, sx));
    }
    if collides_upto(pixels, rows, sx, sy, py + 1, sx) {
        let (qx, qy) = choose|qx: int, qy: int|
            sprite_covers(sx, sy, rows.len() as int, qx, qy) && reached(qx, qy, py + 1, sx)
                && sprite_bit(rows, sx, sy, qx, qy) && #[trigger] pixels[pixel_index(qx, qy)];
        assert(reached(qx, qy, py, stop));
    }
}

/// Before the first pixel nothing has changed, and after the last row the
/// sprite is drawn.
proof fn lemma_drawn_ends(pixels: Seq<bool>, rows: Seq<u8>, sx: int, sy: int, stop: int)
    requires
        pixels.len() == 2048,
        0 <= sx < 64,
        0 <= sy < 32,
        stop == (if sy + rows.len() < 32 {
            sy + rows.len()
        } else {
            32
        }),
    ensures
        drawn_upto(pixels, rows, sx, sy, sy, sx) == pixels,
        !collides_upto(pixels, rows, sx, sy, sy, sx),
        drawn_upto(pixels, rows, sx, sy, stop, sx) == draw_sprite(pixels, rows, sx, sy),
        collides_upto(pixels, rows, sx, sy, stop, sx) == sprite_collides(pixels, rows, sx, sy),
{
    assert(drawn_upto(pixels, rows, sx, sy, sy, sx) =~= pixels);
    assert(drawn_upto(pixels, rows, sx, sy, stop, sx) =~= draw_sprite(pixels, rows, sx, sy));
    if collides_upto(pixels, rows, sx, sy, stop, sx) {
        let (qx, qy) = choose|qx: int, qy: int|
            sprite_covers(sx, sy, rows.len() as int, qx, qy) && reached(qx, qy, stop, sx)
                && sprite_bit(rows, sx, sy, qx, qy) && #[trigger] pixels[pixel_index(qx, qy)];
        assert(sprite_collides(pixels, rows, sx, sy));
    }
    if sprite_collides(pixels, rows, sx, sy) {
        let (qx, qy) = choose|qx: int, qy: int|
            sprite_covers(sx, sy, rows.len() as int, qx, qy) && sprite_bit(rows, sx, sy, qx, qy)
                && #[trigger] pixels[pixel_index(qx, qy)];
        assert(reached(qx, qy, stop, sx));
    }
}

impl<C: Context> Peach8<C> {
    /// Execute machine language subroutine at address NNN
    /// 0NNN { nnn: u16 },
    ///
    /// Always refused.
    pub fn exec_ml_subroutine_at(&mut self, _nnn: u16) -> (done: Result<(), VmError>)
        ensures
            Self::ran(
                *old(self),
                *final(self),
                done,
                Err(VmError::UnsupportedMachineSubroutine),
            ),
    {
        Err(VmError::UnsupportedMachineSubroutine)
    }

    /// Clear the screen
    /// 00E0,
    pub fn clear_screen(&mut self) -> (done: Result<(), VmError>)
        ensures
            Self::ran(*old(self), *final(self), done, Ok(old(self)@.clear_screen())),
    {
        self.gfx = Gfx::new();
        Ok(())
    }

    /// Return from a subroutine
    /// 00EE,
    ///
    /// The newest return address leaves the stack and becomes the program
    /// counter; `execute` then moves on from there.
    pub fn subroutine_return(&mut self) -> (done: Result<(), VmError>)
        ensures
            Self::ran(*old(self), *final(self), done, old(self)@.subroutine_return()),
            done is Ok ==> final(self)@.stack.len() < 64,
    {
        match self.stack.pop() {
            Some(addr) => {
                self.pc = addr;
                Ok(())
            },
            None => Err(VmError::ReturnWithoutCall),
        }
    }

    /// Jump to address NNN
    /// 1NNN { nnn: u16 },
    pub fn jump_to(&mut self, nnn: u16) -> (done: Result<(), VmError>)
        ensures
            Self::ran(*old(self), *final(self), done, old(self)@.jump_to(nnn)),
    {
        if nnn < START_ADDR {
            Err(VmError::JumpBeforeProgram)
        } else {
            self.pc = nnn;
            Ok(())
        }
    }

    /// Execute subroutine starting at address NNN
    /// 2NNN { nnn: u16 },
    pub fn exec_subroutine_at(&mut self, nnn: u16) -> (done: Result<(), VmError>)
        ensures
            Self::ran(*old(self), *final(self), done, old(self)@.exec_subroutine_at(nnn)),
    {
        if nnn < START_ADDR {
            Err(VmError::JumpBeforeProgram)
        } else {
            match self.stack.push(self.pc) {
                Ok(()) => {
                    self.pc = nnn;
                    Ok(())
                },
                Err(_) => Err(VmError::StackOverflow),
            }
        }
    }

    /// Skip the following instruction if the value of register VX equals NN
    /// 3XNN { x: u8, nn: u8 },
    ///
    /// The skip itself: the program counter moves on by one instruction
    /// if the condition holds; `execute` moves it on once more.
    pub fn skip_if_vx_eq_nn(&mut self, x: u8, nn: u8) -> (done: Result<(), VmError>)
        requires
            x < 16,
        ensures
            Self::ran(
                *old(self),
                *final(self),
                done,
                if old(self)@.v[x as int] == nn {
                    old(self)@.advance()
                } else {
                    Ok(old(self)@)
                },
            ),
    {
        if self.v[x as usize] == nn {
            self.pc_increment()
        } else {
            Ok(())
        }
    }

    /// Skip the following instruction if the value of register VX is not equal to NN
    /// 4XNN { x: u8, nn: u8 },
    pub fn skip_if_vx_ne_nn(&mut self, x: u8, nn: u8) -> (done: Result<(), VmError>)
        requires
            x < 16,
        ensures
            Self::ran(
                *old(self),
                *final(self),
                done,
                if old(self)@.v[x as int] != nn {
                    old(self)@.advance()
                } else {
                    Ok(old(self)@)
                },
            ),
    {
        if self.v[x as usize] != nn {
            self.pc_increment()
        } else {
            Ok(())
        }
    }

    /// Skip the following instruction if the value of register VX is equal to the value of register VY
    /// 5XY0 { x: u8, y: u8 },
    pub fn skip_if_vx_eq_vy(&mut self, x: u8, y: u8) -> (done: Result<(), VmError>)
        requires
            x < 16,
            y < 16,
        ensures
            Self::ran(
                *old(self),
                *final(self),
                done,
                if old(self)@.v[x as int] == old(self)@.v[y as int] {
                    old(self)@.advance()
                } else {
                    Ok(old(self)@)
                },
            ),
    {
        if self.v[x as usize] == self.v[y as usize] {
            self.pc_increment()
        } else {
            Ok(())
        }
    }

    /// Store number NN in register VX
    /// 6XNN { x: u8, nn: u8 },
    pub fn assign_vx_nn(&mut self, x: u8, nn: u8) -> (done: Result<(), VmError>)
        requires
            x < 16,
        ensures
            Self::ran(*old(self), *final(self), done, Ok(old(self)@.with_v(x as int, nn))),
    {
        self.v[x as usize] = nn;
        Ok(())
    }

    /// Add the value NN to register VX
    /// 7XNN { x: u8, nn: u8 },
    ///
    /// The sum wraps, and `VF` is left alone.
    pub fn assign_add_vx_nn(&mut self, x: u8, nn: u8) -> (done: Result<(), VmError>)
        requires
            x < 16,
        ensures
            Self::ran(
                *old(self),
                *final(self),
                done,
                Ok(old(self)@.with_v(x as int, wrapped_sum(old(self)@.v[x as int], nn))),
            ),
    {
        self.v[x as usize] = self.v[x as usize].wrapping_add(nn);
        Ok(())
    }

    /// Store the value of register VY in register VX
    /// 8XY0 { x: u8, y: u8 },
    pub fn assign_vx_vy(&mut self, x: u8, y: u8) -> (done: Result<(), VmError>)
        requires
            x < 16,
            y < 16,
        ensures
            Self::ran(
                *old(self),
                *final(self),
                done,
                Ok(old(self)@.with_v(x as int, old(self)@.v[y as int])),
            ),
    {
        self.v[x as usize] = self.v[y as usize];
        Ok(())
    }

    /// Set VX to VX OR VY
    /// 8XY1 { x: u8, y: u8 },
    pub fn assign_or_vx_vy(&mut self, x: u8, y: u8) -> (done: Result<(), VmError>)
        requires
            x < 16,
            y < 16,
        ensures
            Self::ran(
                *old(self),
                *final(self),
                done,
                Ok(old(self)@.with_v(x as int, old(self)@.v[x as int] | old(self)@.v[y as int])),
            ),
    {
        self.v[x as usize] = self.v[x as usize] | self.v[y as usize];
        Ok(())
    }

    /// Set VX to VX AND VY
    /// 8XY2 { x: u8, y: u8 },
    pub fn assign_and_vx_vy(&mut self, x: u8, y: u8) -> (done: Result<(), VmError>)
        requires
            x < 16,
            y < 16,
        ensures
            Self::ran(
                *old(self),
                *final(self),
                done,
                Ok(old(self)@.with_v(x as int, old(self)@.v[x as int] & old(self)@.v[y as int])),
            ),
    {
        self.v[x as usize] = self.v[x as usize] & self.v[y as usize];
        Ok(())
    }

    /// Set VX to VX XOR VY
    /// 8XY3 { x: u8, y: u8 },
    pub fn assign_xor_vx_vy(&mut self, x: u8, y: u8) -> (done: Result<(), VmError>)
        requires
            x < 16,
            y < 16,
        ensures
            Self::ran(
                *old(self),
                *final(self),
                done,
                Ok(old(self)@.with_v(x as int, old(self)@.v[x as int] ^ old(self)@.v[y as int])),
            ),
    {
        self.v[x as usize] = self.v[x as usize] ^ self.v[y as usize];
        Ok(())
    }

    /// Add the value of register VY to register VX, Set VF to 01 if a carry occurs, Set VF to 00 if a carry does not occur
    /// 8XY4 { x: u8, y: u8 },
    pub fn assign_add_vx_vy(&mut self, x: u8, y: u8) -> (done: Result<(), VmError>)
        requires
            x < 16,
            y < 16,
        ensures
            Self::ran(
                *old(self),
                *final(self),
                done,
                Ok(old(self)@.assign_add_vx_vy(x as int, y as int)),
            ),
    {
        let a = self.v[x as usize];
        let b = self.v[y as usize];
        let overflow = a as u16 + b as u16 > 255;
        self.v[x as usize] = a.wrapping_add(b);
        self.v[15] = if !overflow {
            0x00u8
        } else {
            0x01u8
        };
        Ok(())
    }

    /// Subtract the value of register VY from register VX, Set VF to 00 if a borrow occurs, Set VF to 01 if a borrow does not occur
    /// 8XY5 { x: u8, y: u8 },
    pub fn assign_sub_vx_vy(&mut self, x: u8, y: u8) -> (done: Result<(), VmError>)
        requires
            x < 16,
            y < 16,
        ensures
            Self::ran(
                *old(self),
                *final(self),
                done,
                Ok(old(self)@.assign_sub_vx_vy(x as int, y as int)),
            ),
    {
        let a = self.v[x as usize];
        let b = self.v[y as usize];
        let borrow = a < b;
        self.v[x as usize] = a.wrapping_sub(b);
        self.v[15] = if borrow {
            0x00u8
        } else {
            0x01u8
        };
        Ok(())
    }

    /// Store the value of register VY shifted right one bit in register VX, Set register VF to the least significant bit prior to the shift
    /// 8XY6 { x: u8, y: u8 },
    ///
    /// `VY` takes the shifted value as well.
    pub fn assign_vx_vy_shifted_r(&mut self, x: u8, y: u8) -> (done: Result<(), VmError>)
        requires
            x < 16,
            y < 16,
        ensures
            Self::ran(
                *old(self),
                *final(self),
                done,
                Ok(old(self)@.assign_vx_vy_shifted_r(x as int, y as int)),
            ),
    {
        let lsb = self.v[y as usize] & 1u8;
        let value = self.v[y as usize] >> 1u8;
        self.v[x as usize] = value;
        self.v[y as usize] = value;
        self.v[15] = lsb;
        Ok(())
    }

    /// Set register VX to the value of VY minus VX, Set VF to 00 if a borrow occurs, Set VF to 01 if a borrow does not occur
    /// 8XY7 { x: u8, y: u8 },
    pub fn assign_vx_vy_sub_vx(&mut self, x: u8, y: u8) -> (done: Result<(), VmError>)
        requires
            x < 16,
            y < 16,
        ensures
            Self::ran(
                *old(self),
                *final(self),
                done,
                Ok(old(self)@.assign_vx_vy_sub_vx(x as int, y as int)),
            ),
    {
        let a = self.v[x as usize];
        let b = self.v[y as usize];
        let borrow = b < a;
        self.v[x as usize] = b.wrapping_sub(a);
        self.v[15] = if borrow {
            0x00u8
        } else {
            0x01u8
        };
        Ok(())
    }

    /// Store the value of register VY shifted left one bit in register VX, Set register VF to the most significant bit prior to the shift
    /// 8XYE { x: u8, y: u8 },
    ///
    /// `VY` takes the shifted value as well.
    pub fn assign_vx_vy_shifted_l(&mut self, x: u8, y: u8) -> (done: Result<(), VmError>)
        requires
            x < 16,
            y < 16,
        ensures
            Self::ran(
                *old(self),
                *final(self),
                done,
                Ok(old(self)@.assign_vx_vy_shifted_l(x as int, y as int)),
            ),
    {
        let msb = self.v[y as usize] >> 7u8;
        let value = self.v[y as usize] << 1u8;
        self.v[x as usize] = value;
        self.v[y as usize] = value;
        self.v[15] = msb;
        Ok(())
    }

    /// Skip the following instruction if the value of register VX is not equal to the value of register VY
    /// 9XY0 { x: u8, y: u8 },
    pub fn skip_if_vx_ne_vy(&mut self, x: u8, y: u8) -> (done: Result<(), VmError>)
        requires
            x < 16,
            y < 16,
        ensures
            Self::ran(
                *old(self),
                *final(self),
                done,
                if old(self)@.v[x as int] != old(self)@.v[y as int] {
                    old(self)@.advance()
                } else {
                    Ok(old(self)@)
                },
            ),
    {
        if self.v[x as usize] != self.v[y as usize] {
            self.pc_increment()
        } else {
            Ok(())
        }
    }

    /// Store memory address NNN in register I
    /// ANNN { nnn: u16 },
    pub fn assign_i_nnn(&mut self, nnn: u16) -> (done: Result<(), VmError>)
        ensures
            Self::ran(*old(self), *final(self), done, Ok(Machine { i: nnn, ..old(self)@ })),
    {
        self.i = nnn;
        Ok(())
    }

    /// Jump to address NNN + V0
    /// BNNN { nnn: u16 },
    pub fn jump_to_nnn_add_v0(&mut self, nnn: u16) -> (done: Result<(), VmError>)
        ensures
            Self::ran(*old(self), *final(self), done, old(self)@.jump_to_nnn_add_v0(nnn)),
    {
        let addr: u32 = nnn as u32 + self.v[0] as u32;
        if addr < START_ADDR as u32 {
            Err(VmError::JumpBeforeProgram)
        } else if addr < MEM_LENGTH as u32 {
            self.pc = addr as u16;
            Ok(())
        } else {
            Err(VmError::OutOfAddressSpace)
        }
    }

    /// Stores in register VX the byte `random` with the mask NN: the step
    /// of `CXNN` that follows the host's answer.
    pub fn assign_vx_masked(&mut self, x: u8, random: u8, nn: u8) -> (done: Result<(), VmError>)
        requires
            x < 16,
        ensures
            Self::ran(*old(self), *final(self), done, Ok(old(self)@.with_v(x as int, random & nn))),
    {
        self.v[x as usize] = random & nn;
        Ok(())
    }

    /// Set VX to a random number with a mask of NN
    /// CXNN { x: u8, nn: u8 },
    ///
    /// The host is asked for one byte. Whatever it gives, the machine
    /// afterwards has that byte, masked, in `VX`.
    pub fn assign_vx_ranom_and_nn(&mut self, x: u8, nn: u8) -> (done: Result<(), VmError>)
        requires
            x < 16,
        ensures
            done is Ok,
            exists|random: u8| final(self)@ == old(self)@.with_v(x as int, random & nn),
    {
        let random = self.ctx.gen_random();
        let done = self.assign_vx_masked(x, random, nn);
        assert(self@ == old(self)@.with_v(x as int, random & nn));
        done
    }

    /// Draw a sprite at position VX, VY with N bytes of sprite data starting at the address stored in I, Set VF to 01 if any set pixels are changed to unset, and 00 otherwise
    /// DXYN { x: u8, y: u8, n: u8 },
    ///
    /// The start wraps into the picture; what of the sprite would fall
    /// beyond the right or the bottom edge is cut off.
    pub fn draw_n_at_vx_vy(&mut self, x: u8, y: u8, n: u8) -> (done: Result<(), VmError>)
        requires
            x < 16,
            y < 16,
        ensures
            Self::ran(
                *old(self),
                *final(self),
                done,
                old(self)@.draw_n_at_vx_vy(x as int, y as int, n as int),
            ),
    {
        if self.i as usize + n as usize > MEM_LENGTH {
            return Err(VmError::OutOfAddressSpace);
        }
        let sx: usize = self.v[x as usize] as usize % 64;
        let sy: usize = self.v[y as usize] as usize % 32;
        let x_stop: usize = if sx + 8 < 64 {
            sx + 8
        } else {
            64
        };
        let y_stop: usize = if sy + (n as usize) < 32 {
            sy + n as usize
        } else {
            32
        };
        let ghost before = self@.pixels;
        let ghost rows = self@.sprite_rows(n as int);
        proof {
            lemma_drawn_ends(before, rows, sx as int, sy as int, y_stop as int);
        }
        let mut collision = false;
        let mut py: usize = sy;
        while py < y_stop
            invariant
                sx < 64,
                sy <= py <= y_stop,
                y_stop <= 32,
                y_stop <= sy + n,
                x_stop == (if sx + 8 < 64 {
                    sx + 8
                } else {
                    64
                }),
                rows.len() == n,
                before.len() == 2048,
                self.i + n <= 4096,
                rows == self@.sprite_rows(n as int),
                self.context() == old(self).context(),
                self@ == (Machine { pixels: self@.pixels, ..old(self)@ }),
                self@.pixels == drawn_upto(before, rows, sx as int, sy as int, py as int, sx as int),
                collision == collides_upto(
                    before,
                    rows,
                    sx as int,
                    sy as int,
                    py as int,
                    sx as int,
                ),
            decreases y_stop - py,
        {
            let mut px: usize = sx;
            while px < x_stop
                invariant
                    sx <= px <= x_stop,
                    x_stop <= 64,
                    x_stop <= sx + 8,
                    sy <= py < y_stop,
                    y_stop <= 32,
                    y_stop <= sy + n,
                    rows.len() == n,
                    before.len() == 2048,
                    self.i + n <= 4096,
                    rows == self@.sprite_rows(n as int),
                    self.context() == old(self).context(),
                    self@ == (Machine { pixels: self@.pixels, ..old(self)@ }),
                    self@.pixels == drawn_upto(
                        before,
                        rows,
                        sx as int,
                        sy as int,
                        py as int,
                        px as int,
                    ),
                    collision == collides_upto(
                        before,
                        rows,
                        sx as int,
                        sy as int,
                        py as int,
                        px as int,
                    ),
                decreases x_stop - px,
            {
                let from: usize = (self.i as usize + (py - sy)) * 8 + (px - sx);
                let to_draw = match bits_get(self.memory.as_slice(), from) {
                    Some(bit) => *bit,
                    None => false,
                };
                let lit = match self.gfx.get_bit(px, py) {
                    Some(bit) => *bit,
                    None => false,
                };
                proof {
                    assert(from / 8 == self.i + (py - sy) && from % 8 == px - sx);
                    assert(rows[py - sy] == self.memory@[self.i + (py - sy)]);
                    assert(to_draw == sprite_bit(rows, sx as int, sy as int, px as int, py as int));
                    lemma_drawn_one_more(before, rows, sx as int, sy as int, px as int, py as int);
                    lemma_collides_one_more(
                        before,
                        rows,
                        sx as int,
                        sy as int,
                        px as int,
                        py as int,
                    );
                }
                if to_draw && lit {
                    collision = true;
                }
                match self.gfx.xor_bit(px, py, to_draw) {
                    Ok(()) => {},
                    Err(_) => {
                        return Err(VmError::OutOfAddressSpace);
                    },
                }
                px += 1;
            }
            proof {
                lemma_row_done(before, rows, sx as int, sy as int, py as int, x_stop as int);
            }
            py += 1;
        }
        self.v[15] = if collision {
            0x01u8
        } else {
            0x00u8
        };
        Ok(())
    }

    /// Whether the key whose number is in register VX is held.
    pub fn key_in_vx_held(&self, x: u8) -> (held: bool)
        requires
            x < 16,
        ensures
            held == self@.key_in_vx_held(x as int),
    {
        let key = self.v[x as usize];
        if key < 0x10u8 {
            match self.keys[key as usize] {
                KeyState::Pressed | KeyState::Down => true,
                KeyState::Released | KeyState::Up => false,
            }
        } else {
            false
        }
    }

    /// Skip the following instruction if the key corresponding to the hex value currently stored in register VX is pressed
    /// EX9E { x: u8 },
    ///
    /// A number that is not the number of a key never skips.
    pub fn skip_if_vx_in_keys(&mut self, x: u8) -> (done: Result<(), VmError>)
        requires
            x < 16,
        ensures
            Self::ran(
                *old(self),
                *final(self),
                done,
                if old(self)@.key_in_vx_held(x as int) {
                    old(self)@.advance()
                } else {
                    Ok(old(self)@)
                },
            ),
    {
        if self.key_in_vx_held(x) {
            return self.pc_increment();
        }
        Ok(())
    }

    /// Skip the following instruction if the key corresponding to the hex value currently stored in register VX is not pressed
    /// EXA1 { x: u8 },
    ///
    /// A number that is not the number of a key always skips.
    pub fn skip_if_vx_not_in_keys(&mut self, x: u8) -> (done: Result<(), VmError>)
        requires
            x < 16,
        ensures
            Self::ran(
                *old(self),
                *final(self),
                done,
                if !old(self)@.key_in_vx_held(x as int) {
                    old(self)@.advance()
                } else {
                    Ok(old(self)@)
                },
            ),
    {
        if self.key_in_vx_held(x) {
            return Ok(());
        }
        self.pc_increment()
    }

    /// Store the current value of the delay timer in register VX
    /// FX07 { x: u8 },
    pub fn assign_vx_delay_t(&mut self, x: u8) -> (done: Result<(), VmError>)
        requires
            x < 16,
        ensures
            Self::ran(
                *old(self),
                *final(self),
                done,
                Ok(old(self)@.with_v(x as int, old(self)@.delay)),
            ),
    {
        self.v[x as usize] = self.delay_timer.load();
        Ok(())
    }

    /// The first key that was released at this tick, if there is one.
    pub fn first_released_key(&self) -> (found: Option<u8>)
        ensures
            found is None <==> self@.none_released(),
            found matches Some(k) ==> self@.first_released(k as int),
    {
        let mut k: u8 = 0;
        while k < 16
            invariant
                k <= 16,
                forall|j: int| 0 <= j < k ==> !(#[trigger] self@.keys[j] is Released),
            decreases 16 - k,
        {
            match self.keys[k as usize] {
                KeyState::Released => {
                    return Some(k);
                },
                _ => {},
            }
            k += 1;
        }
        None
    }

    /// Wait for a keypress and store the result in register VX
    /// FX0A { x: u8 },
    ///
    /// The wait ends when a key is released; until then the program
    /// counter stays, so that the instruction is met again at the next
    /// tick.
    pub fn assign_vx_wait_for_key(&mut self, x: u8) -> (done: Result<(), VmError>)
        requires
            x < 16,
        ensures
            Self::ran(*old(self), *final(self), done, old(self)@.assign_vx_wait_for_key(x as int)),
    {
        match self.first_released_key() {
            Some(key) => {
                proof {
                    let chosen = choose|k: int| self@.first_released(k);
                    assert(self@.first_released(key as int));
                    assert(chosen == key);
                }
                if self.pc > LAST_FETCH_ADDR {
                    return Err(VmError::OutOfAddressSpace);
                }
                self.v[x as usize] = key;
                self.pc_increment()
            },
            None => Ok(()),
        }
    }

    /// Set the delay timer to the value of register VX
    /// FX15 { x: u8 },
    pub fn assign_delay_t_vx(&mut self, x: u8) -> (done: Result<(), VmError>)
        requires
            x < 16,
        ensures
            Self::ran(
                *old(self),
                *final(self),
                done,
                Ok(Machine { delay: old(self)@.v[x as int], ..old(self)@ }),
            ),
    {
        self.delay_timer.store(self.v[x as usize]);
        Ok(())
    }

    /// Set the sound timer to the value of register VX
    /// FX18 { x: u8 },
    pub fn assign_sound_t_vx(&mut self, x: u8) -> (done: Result<(), VmError>)
        requires
            x < 16,
        ensures
            Self::ran(
                *old(self),
                *final(self),
                done,
                Ok(Machine { sound: old(self)@.v[x as int], ..old(self)@ }),
            ),
    {
        self.sound_timer.store(self.v[x as usize]);
        Ok(())
    }

    /// Add the value stored in register VX to register I
    /// FX1E { x: u8 },
    pub fn assign_add_i_vx(&mut self, x: u8) -> (done: Result<(), VmError>)
        requires
            x < 16,
        ensures
            Self::ran(*old(self), *final(self), done, old(self)@.assign_add_i_vx(x as int)),
    {
        let addr: u32 = self.i as u32 + self.v[x as usize] as u32;
        if addr < MEM_LENGTH as u32 {
            self.i = addr as u16;
            Ok(())
        } else {
            Err(VmError::OutOfAddressSpace)
        }
    }

    /// Set I to the memory address of the sprite data corresponding to the hexadecimal digit stored in register VX
    /// FX29 { x: u8 },
    pub fn assign_i_addr_of_sprite_vx(&mut self, x: u8) -> (done: Result<(), VmError>)
        requires
            x < 16,
        ensures
            Self::ran(
                *old(self),
                *final(self),
                done,
                Ok(old(self)@.assign_i_addr_of_sprite_vx(x as int)),
            ),
    {
        let value = (self.v[x as usize] % 16) as u16;
        self.i = FONTSET_ADDR + value * 5;
        Ok(())
    }

    /// Store the binary-coded decimal equivalent of the value stored in register VX at addresses I, I+1, and I+2
    /// FX33 { x: u8 },
    pub fn assign_mem_at_i_bcd_of_vx(&mut self, x: u8) -> (done: Result<(), VmError>)
        requires
            x < 16,
        ensures
            Self::ran(
                *old(self),
                *final(self),
                done,
                old(self)@.assign_mem_at_i_bcd_of_vx(x as int),
            ),
    {
        if (self.i as usize + 2) < MEM_LENGTH {
            let value = self.v[x as usize];
            let at = self.i as usize;
            self.memory[at] = value / 100u8;
            self.memory[at + 1] = (value % 100) / 10u8;
            self.memory[at + 2] = value % 10u8;
            Ok(())
        } else {
            Err(VmError::OutOfAddressSpace)
        }
    }

    /// Store the values of registers V0 to VX inclusive in memory starting at address I, I is set to I + X + 1 after operation
    /// FX55 { x: u8 },
    pub fn assign_mem_at_i_v0_to_vx(&mut self, x: u8) -> (done: Result<(), VmError>)
        requires
            x < 16,
        ensures
            Self::ran(
                *old(self),
                *final(self),
                done,
                old(self)@.assign_mem_at_i_v0_to_vx(x as int),
            ),
    {
        if (self.i as usize + x as usize) < MEM_LENGTH - 1 {
            let ghost start = self.i;
            let mut idx: u8 = 0;
            while idx <= x
                invariant
                    x < 16,
                    idx <= x + 1,
                    start + x < 4095,
                    start == old(self)@.i,
                    self.i == start + idx,
                    self.context() == old(self).context(),
                    self@ == (Machine { memory: self@.memory, i: self.i, ..old(self)@ }),
                    self@.memory.len() == 4096,
                    forall|a: int|
                        0 <= a < 4096 ==> #[trigger] self@.memory[a] == (if start <= a < start
                            + idx {
                            old(self)@.v[a - start]
                        } else {
                            old(self)@.memory[a]
                        }),
                decreases x + 1 - idx,
            {
                self.memory[self.i as usize] = self.v[idx as usize];
                self.i += 1;
                idx += 1;
            }
            assert(self@.memory =~= old(self)@.assign_mem_at_i_v0_to_vx(x as int)->Ok_0.memory);
            Ok(())
        } else {
            Err(VmError::OutOfAddressSpace)
        }
    }

    /// Fill registers V0 to VX inclusive with the values stored in memory starting at address I, I is set to I + X + 1 after operation
    /// FX65 { x: u8 },
    pub fn assign_v0_to_vx_mem_at_i(&mut self, x: u8) -> (done: Result<(), VmError>)
        requires
            x < 16,
        ensures
            Self::ran(
                *old(self),
                *final(self),
                done,
                old(self)@.assign_v0_to_vx_mem_at_i(x as int),
            ),
    {
        if (self.i as usize + x as usize) < MEM_LENGTH - 1 {
            let ghost start = self.i;
            let mut idx: u8 = 0;
            while idx <= x
                invariant
                    x < 16,
                    idx <= x + 1,
                    start + x < 4095,
                    start == old(self)@.i,
                    self.i == start + idx,
                    self.context() == old(self).context(),
                    self@ == (Machine { v: self@.v, i: self.i, ..old(self)@ }),
                    self@.v.len() == 16,
                    forall|k: int|
                        0 <= k < 16 ==> #[trigger] self@.v[k] == (if k < idx {
                            old(self)@.memory[start + k]
                        } else {
                            old(self)@.v[k]
                        }),
                decreases x + 1 - idx,
            {
                self.v[idx as usize] = self.memory[self.i as usize];
                self.i += 1;
                idx += 1;
            }
            assert(self@.v =~= old(self)@.assign_v0_to_vx_mem_at_i(x as int)->Ok_0.v);
            Ok(())
        } else {
            Err(VmError::OutOfAddressSpace)
        }
    }
}

impl<C: Context> Peach8<C> {
    /// `00EE` in full: the newest return address leaves the stack, and the
    /// program counter moves to the instruction after the call that put
    /// it there. Where that would lead beyond the memory, the stack keeps
    /// the address and nothing changes.
    fn return_past_call(&mut self) -> (done: Result<(), VmError>)
        ensures
            Self::ran(*old(self), *final(self), done, step(old(self)@, OpCode::_00EE, 0)),
    {
        let pc = self.pc;
        match self.subroutine_return() {
            Err(error) => Err(error),
            Ok(()) => match self.pc_increment() {
                Ok(()) => Ok(()),
                Err(error) => {
                    let address = self.pc;
                    let kept = self.stack.push(address);
                    self.pc = pc;
                    assert(kept is Ok);
                    assert(self@.stack =~= old(self)@.stack);
                    Err(error)
                },
            },
        }
    }

    /// Ends an instruction that has done its own part with the result
    /// `handled`: the program counter moves on by one instruction. Where
    /// that would lead beyond the memory, it goes back to `pc`, where the
    /// instruction found it.
    fn move_past(&mut self, pc: u16, handled: Result<(), VmError>) -> (done: Result<(), VmError>)
        ensures
            handled matches Err(error) ==> Self::ran(*old(self), *final(self), done, Err(error)),
            handled is Ok && old(self)@.pc <= 4094 ==> Self::ran(
                *old(self),
                *final(self),
                done,
                old(self)@.advance(),
            ),
            handled is Ok && old(self)@.pc > 4094 ==> done == Err::<(), VmError>(
                VmError::OutOfAddressSpace,
            ) && Self::became(*old(self), *final(self), old(self)@.at(pc)),
    {
        match handled {
            Err(error) => Err(error),
            Ok(()) => match self.pc_increment() {
                Ok(()) => Ok(()),
                Err(error) => {
                    self.pc = pc;
                    Err(error)
                },
            },
        }
    }

    /// Executes one instruction.
    ///
    /// An instruction that does not set the program counter itself moves
    /// it on by two, and a skip by four. An instruction that fails leaves
    /// the machine as it found it. Only `CXNN` turns to the host, for one
    /// random byte; whatever byte that is, the machine afterwards is the
    /// one that `CXNN` with that byte leads to.
    pub fn execute(&mut self, opcode: OpCode) -> (done: Result<(), VmError>)
        requires
            opcode.fits(),
        ensures
            exists|random: u8|
                agrees(old(self)@, final(self)@, done, #[trigger] step(old(self)@, opcode, random)),
            !(opcode is _CXNN) ==> Self::ran(
                *old(self),
                *final(self),
                done,
                step(old(self)@, opcode, 0),
            ),
            old(self)@.inv() ==> final(self)@.inv(),
    {
        let pc = self.pc;
        let ghost before = self@;
        let sets_pc = match opcode {
            OpCode::_0NNN { .. }
            | OpCode::_00EE
            | OpCode::_1NNN { .. }
            | OpCode::_2NNN { .. }
            | OpCode::_BNNN { .. }
            | OpCode::_FX0A { .. }
            | OpCode::_3XNN { .. }
            | OpCode::_4XNN { .. }
            | OpCode::_5XY0 { .. }
            | OpCode::_9XY0 { .. }
            | OpCode::_EX9E { .. }
            | OpCode::_EXA1 { .. } => true,
            _ => false,
        };
        if !sets_pc && pc > LAST_FETCH_ADDR {
            assert(agrees(before, self@, Err(VmError::OutOfAddressSpace), step(before, opcode, 0)));
            return Err(VmError::OutOfAddressSpace);
        }
        proof {
            if before.inv() {
                lemma_step_keeps_order(before, opcode, 0);
            }
        }
        let ghost mut random: u8 = 0;
        let handled = match opcode {
            OpCode::_0NNN { nnn } => {
                return self.exec_ml_subroutine_at(nnn);
            },
            OpCode::_00E0 => self.clear_screen(),
            OpCode::_00EE => {
                return self.return_past_call();
            },
            OpCode::_1NNN { nnn } => {
                return self.jump_to(nnn);
            },
            OpCode::_2NNN { nnn } => {
                return self.exec_subroutine_at(nnn);
            },
            OpCode::_3XNN { x, nn } => self.skip_if_vx_eq_nn(x, nn),
            OpCode::_4XNN { x, nn } => self.skip_if_vx_ne_nn(x, nn),
            OpCode::_5XY0 { x, y } => self.skip_if_vx_eq_vy(x, y),
            OpCode::_6XNN { x, nn } => self.assign_vx_nn(x, nn),
            OpCode::_7XNN { x, nn } => self.assign_add_vx_nn(x, nn),
            OpCode::_8XY0 { x, y } => self.assign_vx_vy(x, y),
            OpCode::_8XY1 { x, y } => self.assign_or_vx_vy(x, y),
            OpCode::_8XY2 { x, y } => self.assign_and_vx_vy(x, y),
            OpCode::_8XY3 { x, y } => self.assign_xor_vx_vy(x, y),
            OpCode::_8XY4 { x, y } => self.assign_add_vx_vy(x, y),
            OpCode::_8XY5 { x, y } => self.assign_sub_vx_vy(x, y),
            OpCode::_8XY6 { x, y } => self.assign_vx_vy_shifted_r(x, y),
            OpCode::_8XY7 { x, y } => self.assign_vx_vy_sub_vx(x, y),
            OpCode::_8XYE { x, y } => self.assign_vx_vy_shifted_l(x, y),
            OpCode::_9XY0 { x, y } => self.skip_if_vx_ne_vy(x, y),
            OpCode::_ANNN { nnn } => self.assign_i_nnn(nnn),
            OpCode::_BNNN { nnn } => {
                return self.jump_to_nnn_add_v0(nnn);
            },
            OpCode::_CXNN { x, nn } => {
                let handled = self.assign_vx_ranom_and_nn(x, nn);
                proof {
                    random = choose|random: u8| self@ == before.with_v(x as int, random & nn);
                }
                handled
            },
            OpCode::_DXYN { x, y, n } => self.draw_n_at_vx_vy(x, y, n),
            OpCode::_EX9E { x } => self.skip_if_vx_in_keys(x),
            OpCode::_EXA1 { x } => self.skip_if_vx_not_in_keys(x),
            OpCode::_FX07 { x } => self.assign_vx_delay_t(x),
            OpCode::_FX0A { x } => {
                return self.assign_vx_wait_for_key(x);
            },
            OpCode::_FX15 { x } => self.assign_delay_t_vx(x),
            OpCode::_FX18 { x } => self.assign_sound_t_vx(x),
            OpCode::_FX1E { x } => self.assign_add_i_vx(x),
            OpCode::_FX29 { x } => self.assign_i_addr_of_sprite_vx(x),
            OpCode::_FX33 { x } => self.assign_mem_at_i_bcd_of_vx(x),
            OpCode::_FX55 { x } => self.assign_mem_at_i_v0_to_vx(x),
            OpCode::_FX65 { x } => self.assign_v0_to_vx_mem_at_i(x),
        };
        let done = self.move_past(pc, handled);
        assert(agrees(before, self@, done, step(before, opcode, random)));
        proof {
            if before.inv() {
                lemma_step_keeps_order(before, opcode, random);
            }
        }
        done
    }

    /// Counts both timers down once, and says what the buzzer is to do
    /// after this count of the sound timer: the part of `tick_timers` that
    /// is the machine's own.
    pub fn count_timers(&mut self) -> (action: SoundAction)
        ensures
            Self::became(
                *old(self),
                *final(self),
                Machine {
                    delay: counted_down(old(self)@.delay),
                    sound: counted_down(old(self)@.sound),
                    ..old(self)@
                },
            ),
            action == sound_action_at(state_at_count(old(self)@.sound)),
    {
        let _ = self.delay_timer.decrement();
        sound_action(self.sound_timer.decrement())
    }

    /// Decrement delay and sound timers. Handle sound on/off events.
    ///
    /// Both timers are counted down once. The host is told to sound while
    /// the sound timer runs and to be silent while it rests; the count that
    /// brings the timer to zero tells it nothing, so that the silence
    /// begins with the count after (see [`Peach8::count_timers`]).
    ///
    /// # Note
    /// Should be called with 60Hz frequency
    pub fn tick_timers(&mut self)
        ensures
            final(self)@ == (Machine {
                delay: counted_down(old(self)@.delay),
                sound: counted_down(old(self)@.sound),
                ..old(self)@
            }),
    {
        match self.count_timers() {
            SoundAction::TurnOn => self.ctx.sound_on(),
            SoundAction::TurnOff => self.ctx.sound_off(),
            SoundAction::Keep => (),
        }
    }

    /// Progress emulation by one cycle. Handle user input and drawing to the screen
    ///
    /// The host is asked for its keys, every key takes its report, and the
    /// instruction at the program counter is read, decoded and executed.
    /// After a tick that succeeded the host is shown the frame. Whatever
    /// the host reported, and whatever byte it gave to a `CXNN`, machine and
    /// result are those of [`tick`] with these.
    ///
    /// # Note
    /// Should be called with around 500Hz frequency
    pub fn tick_chip(&mut self) -> (done: Result<(), VmError>)
        ensures
            exists|reports: Seq<bool>, random: u8|
                reports.len() == 16 && (final(self)@, done) == #[trigger] tick(
                    old(self)@,
                    reports,
                    random,
                ),
            old(self)@.inv() ==> final(self)@.inv(),
    {
        let ghost before = self@;
        let reports = self.ctx.get_keys();
        self.take_key_reports(&reports);
        let ghost polled = self@;
        let opcode = match self.read_opcode() {
            Ok(opcode) => opcode,
            Err(error) => {
                assert((self@, Err::<(), VmError>(error)) == tick(before, reports@, 0));
                proof {
                    if before.inv() {
                        lemma_tick_keeps_order(before, reports@, 0);
                    }
                }
                return Err(error);
            },
        };
        let done = self.execute(opcode);
        let ghost random = choose|random: u8|
            agrees(polled, self@, done, #[trigger] step(polled, opcode, random));
        proof {
            assert(polled == before.update_keys(reports@));
            assert(polled.read_opcode() == Ok::<OpCode, VmError>(opcode));
            match step(polled, opcode, random) {
                Ok(next) => {
                    assert(done == Ok::<(), VmError>(()));
                    assert(self@ == next);
                },
                Err(error) => {
                    assert(done == Err::<(), VmError>(error));
                    assert(self@ == polled);
                },
            }
            assert((self@, done) == tick(before, reports@, random));
            if before.inv() {
                lemma_tick_keeps_order(before, reports@, random);
            }
        }
        match done {
            Ok(()) => {
                self.ctx.on_frame(self.gfx.view());
                Ok(())
            },
            Err(error) => Err(error),
        }
    }
}

} // verus!
