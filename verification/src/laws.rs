//! What holds of the instructions whatever the machine they meet.

use vstd::prelude::*;

use crate::bits::msb0_bit;
use crate::error::VmError;
use crate::frame::{blank, pixel_index};
use crate::machine::{
    draw_sprite, flag, sprite_bit, sprite_collides, sprite_covers, step, tick, Machine,
};
use crate::opcode::{lemma_word_inverts_decode, OpCode};
use crate::peach::{sound_action_at, SoundAction};
use crate::timer::{counted_down_by, lemma_counted_down_by, state_at_count};

verus! {

/// Whether a sprite drawn at `(sx, sy)` lights a pixel: one of its set bits
/// falls on a pixel that is not lit.
pub open spec fn sprite_lights(pixels: Seq<bool>, rows: Seq<u8>, sx: int, sy: int) -> bool {
    exists|px: int, py: int|
        sprite_covers(sx, sy, rows.len() as int, px, py) && sprite_bit(rows, sx, sy, px, py) && !(
        #[trigger] pixels[pixel_index(px, py)])
}

/// Whether a sprite has a set bit at all.
pub open spec fn sprite_has_set_bit(rows: Seq<u8>) -> bool {
    exists|row: int, col: int|
        0 <= row < rows.len() && 0 <= col < 8 && #[trigger] msb0_bit(rows[row], col)
}

/// Clearing is idempotent: a second `00E0` finds nothing left to clear.
pub proof fn lemma_clear_is_idempotent(m: Machine)
    ensures
        m.clear_screen().clear_screen() == m.clear_screen(),
        m.clear_screen().pixels == blank(),
{
}

/// `6XNN` and then `3XNN` with the same register and byte: the skip
/// triggers, so that the second instruction moves the program counter on
/// by four.
///
/// The machine needs room for both: the first instruction has to start
/// no later than six bytes before the end of the memory.
pub proof fn lemma_assign_then_skip(m: Machine, x: u8, nn: u8, random: u8)
    requires
        m.shaped(),
        x < 16,
        m.pc <= 4090,
    ensures
        ({
            &&& step(m, (OpCode::_6XNN { x, nn }), random) matches Ok(assigned)
            &&& assigned.pc == m.pc + 2
            &&& assigned.v[x as int] == nn
            &&& step(assigned, (OpCode::_3XNN { x, nn }), random) matches Ok(skipped)
            &&& skipped.pc == assigned.pc + 4
        }),
{
}

/// Drawing is its own inverse: the same sprite drawn twice at the same
/// place leaves the picture as it was. The second drawing collides exactly
/// if the first one lit a pixel, that is, if a set bit of the sprite fell
/// within the picture on a pixel that was not lit.
pub proof fn lemma_draw_twice_restores(pixels: Seq<bool>, rows: Seq<u8>, sx: int, sy: int)
    requires
        pixels.len() == 2048,
        0 <= sx < 64,
        0 <= sy < 32,
    ensures
        draw_sprite(draw_sprite(pixels, rows, sx, sy), rows, sx, sy) == pixels,
        sprite_collides(draw_sprite(pixels, rows, sx, sy), rows, sx, sy) == sprite_lights(
            pixels,
            rows,
            sx,
            sy,
        ),
{
    let once = draw_sprite(pixels, rows, sx, sy);
    assert(draw_sprite(once, rows, sx, sy) =~= pixels);
    if sprite_collides(once, rows, sx, sy) {
        let (px, py) = choose|px: int, py: int|
            sprite_covers(sx, sy, rows.len() as int, px, py) && sprite_bit(rows, sx, sy, px, py)
                && #[trigger] once[pixel_index(px, py)];
        let at = pixel_index(px, py);
        assert(at % 64 == px && at / 64 == py);
        assert(!pixels[pixel_index(px, py)]);
    }
    if sprite_lights(pixels, rows, sx, sy) {
        let (px, py) = choose|px: int, py: int|
            sprite_covers(sx, sy, rows.len() as int, px, py) && sprite_bit(rows, sx, sy, px, py)
                && !(#[trigger] pixels[pixel_index(px, py)]);
        let at = pixel_index(px, py);
        assert(at % 64 == px && at / 64 == py);
        assert(once[pixel_index(px, py)]);
    }
}

/// A sprite that fits into the picture and falls on unlit pixels only
/// lights a pixel exactly if it has a set bit.
pub proof fn lemma_whole_sprite_lights(pixels: Seq<bool>, rows: Seq<u8>, sx: int, sy: int)
    requires
        pixels.len() == 2048,
        0 <= sx,
        0 <= sy,
        sx + 8 <= 64,
        sy + rows.len() <= 32,
        !sprite_collides(pixels, rows, sx, sy),
    ensures
        sprite_lights(pixels, rows, sx, sy) == sprite_has_set_bit(rows),
{
    if sprite_lights(pixels, rows, sx, sy) {
        let (px, py) = choose|px: int, py: int|
            sprite_covers(sx, sy, rows.len() as int, px, py) && sprite_bit(rows, sx, sy, px, py)
                && !(#[trigger] pixels[pixel_index(px, py)]);
        assert(msb0_bit(rows[py - sy], px - sx));
    }
    if sprite_has_set_bit(rows) {
        let (row, col) = choose|row: int, col: int|
            0 <= row < rows.len() && 0 <= col < 8 && #[trigger] msb0_bit(rows[row], col);
        let px = sx + col;
        let py = sy + row;
        assert(sprite_covers(sx, sy, rows.len() as int, px, py));
        assert(sprite_bit(rows, sx, sy, px, py));
        if pixels[pixel_index(px, py)] {
            assert(sprite_collides(pixels, rows, sx, sy));
        }
    }
}

/// `DXYN` twice: where the two registers that place the sprite are not
/// `VF`, which the first drawing overwrites, the second drawing finds the
/// same sprite at the same place, brings the frame buffer back to what it
/// was, and sets `VF` to 1 exactly if the first drawing lit a pixel.
pub proof fn lemma_draw_instruction_twice(m: Machine, x: u8, y: u8, n: u8, random: u8)
    requires
        m.shaped(),
        x < 15,
        y < 15,
        n < 16,
        m.i + n <= 4096,
        m.pc <= 4092,
    ensures
        ({
            &&& step(m, (OpCode::_DXYN { x, y, n }), random) matches Ok(once)
            &&& step(once, (OpCode::_DXYN { x, y, n }), random) matches Ok(twice)
            &&& twice.pixels == m.pixels
            &&& twice.v[15] == flag(
                sprite_lights(
                    m.pixels,
                    m.sprite_rows(n as int),
                    m.sprite_x(x as int),
                    m.sprite_y(y as int),
                ),
            )
        }),
{
    let rows = m.sprite_rows(n as int);
    let sx = m.sprite_x(x as int);
    let sy = m.sprite_y(y as int);
    lemma_draw_twice_restores(m.pixels, rows, sx, sy);
    let once = step(m, (OpCode::_DXYN { x, y, n }), random)->Ok_0;
    assert(once.sprite_rows(n as int) == rows);
    assert(once.sprite_x(x as int) == sx);
    assert(once.sprite_y(y as int) == sy);
}

/// `FX55` and then, from the same `I`, `FX65`: whatever became of the
/// registers in between, `V0` to `VX` are again what was stored. Each of
/// the two moves `I` on by `x + 1`, which makes `2 (x + 1)` in all.
pub proof fn lemma_store_then_load(m: Machine, between: Machine, x: u8)
    requires
        m.shaped(),
        between.shaped(),
        x < 16,
        m.i + x < 4095,
        ({
            &&& m.assign_mem_at_i_v0_to_vx(x as int) matches Ok(stored)
            &&& between.memory == stored.memory
            &&& between.i == m.i
        }),
    ensures
        ({
            &&& m.assign_mem_at_i_v0_to_vx(x as int) matches Ok(stored)
            &&& between.assign_v0_to_vx_mem_at_i(x as int) matches Ok(loaded)
            &&& forall|k: int| 0 <= k <= x ==> loaded.v[k] == m.v[k]
            &&& (stored.i - m.i) + (loaded.i - between.i) == 2 * (x + 1)
            &&& loaded.memory == stored.memory
        }),
{
}

/// Silence follows the sound: from the count after the one that brings the
/// sound timer to zero, every count tells the host to turn the sound off.
/// `ticks` counts have passed since the timer held `value`.
pub proof fn lemma_silence_follows(value: u8, ticks: nat)
    requires
        ticks >= value,
    ensures
        counted_down_by(value, ticks) == 0,
        sound_action_at(state_at_count(counted_down_by(value, ticks))) == SoundAction::TurnOff,
{
    lemma_counted_down_by(value, ticks);
}

/// While the sound timer runs, every count but the last tells the host to
/// turn the sound on, and the last leaves the sound as it is.
pub proof fn lemma_sound_while_running(value: u8, ticks: nat)
    requires
        ticks < value,
    ensures
        sound_action_at(state_at_count(counted_down_by(value, ticks))) == (if ticks + 1 == value {
            SoundAction::Keep
        } else {
            SoundAction::TurnOn
        }),
{
    lemma_counted_down_by(value, ticks);
}

/// A machine at rest is in order.
pub proof fn lemma_fresh_in_order(memory: Seq<u8>)
    requires
        memory.len() == 4096,
    ensures
        Machine::fresh(memory).inv(),
{
}

/// A machine in order stays in order: an instruction that succeeds leaves
/// `I` within the memory, the program counter no more than one
/// instruction past it, and the stack within its capacity.
pub proof fn lemma_step_keeps_order(m: Machine, op: OpCode, random: u8)
    requires
        m.inv(),
        op.fits(),
    ensures
        step(m, op, random) matches Ok(next) ==> next.inv(),
{
    match step(m, op, random) {
        Ok(next) => {
            match op {
                OpCode::_DXYN { x, y, n } => {
                    assert(next.pixels.len() == 2048);
                },
                OpCode::_FX0A { x } => {
                    if !m.none_released() {
                        let k = choose|k: int| m.first_released(k);
                        assert(m.with_v(x as int, k as u8).advance() == Ok::<Machine, VmError>(next));
                    }
                },
                _ => {},
            }
        },
        Err(_) => {},
    }
}

/// A tick keeps a machine in order too, whether it succeeds or not.
pub proof fn lemma_tick_keeps_order(m: Machine, reports: Seq<bool>, random: u8)
    requires
        m.inv(),
        reports.len() == 16,
    ensures
        tick(m, reports, random).0.inv(),
{
    let polled = m.update_keys(reports);
    assert(polled.inv());
    match polled.read_opcode() {
        Ok(op) => {
            lemma_word_inverts_decode(
                crate::machine::word_of(
                    polled.memory[polled.pc as int],
                    polled.memory[polled.pc + 1],
                ),
            );
            lemma_step_keeps_order(polled, op, random);
        },
        Err(_) => {},
    }
}

/// An instruction that fails changes nothing but the result: this is what
/// [`agrees`](crate::machine::agrees) says of every failure, and a tick
/// that fails has done no more than take the reports of the keys.
pub proof fn lemma_failed_tick_only_polls(m: Machine, reports: Seq<bool>, random: u8)
    ensures
        tick(m, reports, random).1 is Err ==> tick(m, reports, random).0 == m.update_keys(reports),
{
}

} // verus!
