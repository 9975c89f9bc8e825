use std::convert::{TryFrom, TryInto};
use std::ops::Range;

use nanorand::rand::pcg64::Pcg64 as Rng;
use nanorand::RNG;

use peach8::frame::FrameView;
use peach8::gfx::Gfx;
use peach8::keys::KeyState;
use peach8::opcode::OpCode;
use peach8::peach::SoundAction;
use peach8::{Context, Peach8, VmError};

const WIDTH: usize = 64;
const HEIGHT: usize = 32;
const MEM_LENGTH: usize = 4096;
const START_ADDR: u16 = 0x200;
const FONTSET_ADDR: u16 = 0x050;

#[derive(Copy, Clone, PartialEq, Eq, Hash, Debug)]
struct ImageMask([[bool; WIDTH]; HEIGHT]);

impl ImageMask {
    fn new() -> Self {
        Self([[false; WIDTH]; HEIGHT])
    }

    fn offset(&mut self, xoffset: usize, yoffset: usize) -> Self {
        let height = self.0.len();
        let width = self.0[0].len();
        for y in 0..height {
            for x in 0..width {
                if y + yoffset < height && x + xoffset < width {
                    self.0[y + yoffset][x + xoffset] = self.0[y][x];
                    self.0[y][x] = false;
                }
            }
        }
        *self
    }

    fn set_slice(&mut self, range_x: Range<usize>, range_y: Range<usize>, other: &Self) {
        let width = self.0[0].len();
        let height = self.0.len();
        for x in 0..width {
            for y in 0..height {
                if range_x.contains(&x) && range_y.contains(&y) {
                    self.0[y][x] = other.0[y][x];
                }
            }
        }
    }
}

fn str_to_mask(text: &str) -> ImageMask {
    let mut mask = ImageMask::new();
    mask.0
        .iter_mut()
        .zip(text.split_whitespace())
        .for_each(|(m_row, c_row)| {
            m_row
                .iter_mut()
                .zip(c_row.chars())
                .for_each(|(m, c)| *m = c == '#')
        });
    mask
}

fn rows_to_mask(rows: &[Vec<bool>]) -> ImageMask {
    let mut mask = ImageMask::new();
    rows.iter().zip(mask.0.iter_mut()).for_each(|(g_row, m_row)| {
        m_row.iter_mut().zip(g_row).for_each(|(m, &g)| *m = g)
    });
    mask
}

fn gfx_to_mask(gfx: &Gfx) -> ImageMask {
    rows_to_mask(&gfx.iter_rows_bitwise())
}

fn empty_mask_str() -> String {
    let mut text = String::new();
    for _ in 0..HEIGHT {
        for _ in 0..WIDTH {
            text.push('.');
        }
        text.push('\n');
    }
    text
}

fn assert_eq_2d(x_range: Range<usize>, y_range: Range<usize>, lhs: ImageMask, rhs: ImageMask) {
    let mut lhs_mask = ImageMask::new();
    let mut rhs_mask = ImageMask::new();
    lhs_mask.set_slice(x_range.clone(), y_range.clone(), &lhs);
    rhs_mask.set_slice(x_range, y_range, &rhs);
    assert_eq!(lhs_mask, rhs_mask);
}

struct TestingContext {
    sound: bool,
    frame: Option<ImageMask>,
    frames: usize,
    keys: [bool; 16],
    rng: Rng,
}

impl TestingContext {
    fn new(seed: u128) -> Self {
        Self {
            sound: false,
            frame: None,
            frames: 0,
            keys: [false; 16],
            rng: Rng::new_seed(seed),
        }
    }

    fn is_sound_on(&self) -> bool {
        self.sound
    }

    fn get_frame(&self) -> Option<&ImageMask> {
        self.frame.as_ref()
    }

    fn set_key(&mut self, n: u8) {
        self.keys[n as usize] = true;
    }

    fn reset_key(&mut self, n: u8) {
        self.keys[n as usize] = false;
    }
}

impl Context for TestingContext {
    fn on_frame(&mut self, frame: FrameView<'_>) {
        self.frame = Some(rows_to_mask(&frame.iter_rows_as_bitslices()));
        self.frames += 1;
    }

    fn sound_on(&mut self) {
        self.sound = true;
    }

    fn sound_off(&mut self) {
        self.sound = false;
    }

    fn gen_random(&mut self) -> u8 {
        self.rng.generate::<u8>()
    }

    fn get_keys(&mut self) -> [bool; 16] {
        self.keys
    }
}

#[test]
fn pc_incrementation() {
    let mut chip = Peach8::new(TestingContext::new(0));
    assert_eq!(chip.pc(), START_ADDR);
    chip.pc_increment().unwrap();
    assert_eq!(chip.pc(), START_ADDR + 2);
    chip.pc_increment().unwrap();
    assert_eq!(chip.pc(), START_ADDR + 4);
    chip.set_pc((MEM_LENGTH - 1) as u16);
    assert_eq!(chip.pc_increment(), Err(VmError::OutOfAddressSpace));
}

#[test]
fn key_state_update() {
    let mut state = KeyState::Pressed;
    assert_eq!(state.update(true), &KeyState::Down);
    let mut state = KeyState::Pressed;
    assert_eq!(state.update(false), &KeyState::Released);

    let mut state = KeyState::Down;
    assert_eq!(state.update(true), &KeyState::Down);
    let mut state = KeyState::Down;
    assert_eq!(state.update(false), &KeyState::Released);

    let mut state = KeyState::Released;
    assert_eq!(state.update(true), &KeyState::Pressed);
    let mut state = KeyState::Released;
    assert_eq!(state.update(false), &KeyState::Up);

    let mut state = KeyState::Up;
    assert_eq!(state.update(true), &KeyState::Pressed);
    let mut state = KeyState::Up;
    assert_eq!(state.update(false), &KeyState::Up);
}

#[test]
fn update_keys() {
    let mut chip = Peach8::new(TestingContext::new(0));

    chip.ctx.set_key(0x0Fu8);
    chip.update_keys();
    assert_eq!(chip.key(0x0F), KeyState::Pressed);
    assert_eq!(chip.key(0x02), KeyState::Up);
    assert_eq!(
        (0..16u8).filter(|&k| chip.key(k) == KeyState::Up).count(),
        15
    );

    chip.ctx.set_key(0x02u8);
    chip.update_keys();
    assert_eq!(chip.key(0x0F), KeyState::Down);
    assert_eq!(chip.key(0x02), KeyState::Pressed);

    chip.ctx.reset_key(0x0Fu8);
    chip.update_keys();
    assert_eq!(chip.key(0x0F), KeyState::Released);
    assert_eq!(chip.key(0x02), KeyState::Down);

    chip.ctx.reset_key(0x02u8);
    chip.update_keys();
    assert_eq!(chip.key(0x0F), KeyState::Up);
    assert_eq!(chip.key(0x02), KeyState::Released);
}

#[test]
fn timers_tick() -> Result<(), VmError> {
    let mut chip = Peach8::new(TestingContext::new(0));
    chip.assign_vx_nn(0, 101)?;
    chip.assign_delay_t_vx(0)?;
    chip.assign_sound_t_vx(0)?;
    assert!(!chip.ctx.is_sound_on());

    chip.tick_timers();
    assert!(chip.ctx.is_sound_on());

    for _ in 0..100 {
        chip.tick_timers();
    }
    assert!(chip.ctx.is_sound_on());
    assert_eq!(chip.delay_timer(), 0);
    assert_eq!(chip.sound_timer(), 0);

    chip.tick_timers();
    assert!(!chip.ctx.is_sound_on());

    Ok(())
}

#[test]
fn read_opcode() -> Result<(), VmError> {
    let mut chip = Peach8::load(TestingContext::new(0), &[0x14u8, 0x65u8]);
    let opcode = chip.read_opcode()?;
    assert_eq!(opcode, OpCode::_1NNN { nnn: 0x465u16 },);

    chip.set_pc((MEM_LENGTH - 1) as u16);
    assert_eq!(chip.read_opcode(), Err(VmError::OutOfAddressSpace),);
    Ok(())
}

#[test]
fn pc_manipulation_test() -> Result<(), VmError> {
    let no_jump_opcodes = [
        0x00E0u16, // 00E0 clear_screen()
        0x6BAAu16, // 6XNN assign_vx_nn(x nn)
        0x7BAAu16, // 7XNN assign_add_vx_nn(x nn)
        0x8BC0u16, // 8XY0 assign_vx_vy(x y)
        0x8BC1u16, // 8XY1 assign_or_vx_vy(x y)
        0x8BC2u16, // 8XY2 assign_and_vx_vy(x y)
        0x8BC3u16, // 8XY3 assign_xor_vx_vy(x y)
        0x8BC4u16, // 8XY4 assign_add_vx_vy(x y)
        0x8BC5u16, // 8XY5 assign_sub_vx_vy(x y)
        0x8BC6u16, // 8XY6 assign_vx_vy_shifted_r(x y)
        0x8BC7u16, // 8XY7 assign_vx_vy_sub_vx(x y)
        0x8BCEu16, // 8XYE assign_vx_vy_shifted_l(x y)
        0xAAAAu16, // ANNN assign_i_nnn(nnn)
        0xCBAAu16, // CXNN assign_vx_ranom_and_nn(x nn)
        0xDBCAu16, // DXYN draw_n_at_vx_vy(x y n)
        0xFB07u16, // FX07 assign_vx_delay_t(x)
        0xFB15u16, // FX15 assign_delay_t_vx(x)
        0xFB18u16, // FX18 assign_sound_t_vx(x)
        0xFB1Eu16, // FX1E assign_add_i_vx(x)
        0xFB29u16, // FX29 assign_i_addr_of_sprite_vx(x)
        0xFB33u16, // FX33 assign_mem_at_i_bcd_of_vx(x)
        0xFB55u16, // FX55 assign_mem_at_i_v0_to_vx(x)
        0xFB65u16, // FX65 assign_v0_to_vx_mem_at_i(x)
    ];
    // Let the skip never be present, it is validated somewhere else
    let skip_opcodes = [
        0x3BAAu16, // 3XNN skip_if_vx_eq_nn(x nn)
        0x4B00u16, // 4XNN skip_if_vx_ne_nn(x nn)
        0x5BC0u16, // 5XY0 skip_if_vx_eq_vy(x y)
        0x9BB0u16, // 9XY0 skip_if_vx_ne_vy(x y)
        0xEB9Eu16, // EX9E skip_if_vx_in_keys(x)
        0xECA1u16, // EXA1 skip_if_vx_not_in_keys(x)
    ];
    let jump_opcodes = [
        0x1AAAu16, // 1NNN jump_to(nnn)
        0x2AAAu16, // 2NNN exec_subroutine_at(nnn)
        0xBAAAu16, // BNNN jump_to_nnn_add_v0(nnn)
    ];
    // Should increment pc, but nevertheless is a jump
    let return_subr_opcode = 0x00EEu16; // 00EE subroutine_return()
    // Wait for a keypress should stop execution, hovewer to not block the whole routine
    // it just doesn't increment pc until wait condition is met
    let wait_opcode = 0xFB0Au16; // FX0A assign_vx_wait_for_key(x)
    // This always returns Err
    let _ommited = 0x0AAAu16; // 0NNN exec_ml_subroutine_at(nnn)

    let mut chip = Peach8::new(TestingContext::new(0));
    let mut pc = chip.pc();

    for op in &no_jump_opcodes {
        chip.execute((*op).try_into()?)?;
        assert_eq!(chip.pc(), pc + 2);
        pc += 2;
    }

    chip.assign_vx_nn(0xC, 0x01u8)?; // no skip 5XY0
    chip.ctx.set_key(0x01u8); // no skip EXA1
    chip.update_keys();
    for op in &skip_opcodes {
        chip.execute((*op).try_into()?)?;
        assert_eq!(chip.pc(), pc + 2);
        pc += 2;
    }

    for op in &jump_opcodes {
        chip.execute((*op).try_into()?)?;
        assert_eq!(chip.pc(), 0x0AAAu16);
    }

    chip.set_pc(START_ADDR);
    chip.exec_subroutine_at(0x0BBB)?;
    chip.execute(return_subr_opcode.try_into()?)?;
    assert_eq!(chip.pc(), 0x202);

    chip.execute(wait_opcode.try_into()?)?;
    assert_eq!(chip.pc(), 0x202);
    chip.ctx.set_key(0x01);
    chip.update_keys();
    chip.ctx.reset_key(0x01);
    chip.update_keys();
    chip.execute(wait_opcode.try_into()?)?;
    assert_eq!(chip.pc(), 0x204);

    Ok(())
}

/// Execute machine language subroutine at address NNN
#[test]
fn execute_0nnn_exec_ml_subroutine_at() -> Result<(), VmError> {
    let mut chip = Peach8::new(TestingContext::new(0));
    let opcode = OpCode::try_from(0x0000u16)?;
    assert_eq!(
        chip.execute(opcode),
        Err(VmError::UnsupportedMachineSubroutine),
    );
    Ok(())
}

/// Clear the screen
#[test]
fn execute_00e0_clear_screen() -> Result<(), VmError> {
    let mut chip = Peach8::load(TestingContext::new(0), &[]);
    let opcode = OpCode::_00E0;
    let empty_mask_str = empty_mask_str();

    assert_eq_2d(
        0..WIDTH,
        0..HEIGHT,
        gfx_to_mask(chip.gfx()),
        str_to_mask(&empty_mask_str),
    );

    chip.assign_vx_nn(1, 0x0F)?;
    chip.assign_i_addr_of_sprite_vx(1)?;
    chip.draw_n_at_vx_vy(0, 0, 5)?;
    assert_eq_2d(
        0..8,
        0..5,
        gfx_to_mask(chip.gfx()),
        str_to_mask(
            "####....
             #.......
             ####....
             #.......
             #.......",
        ),
    );

    chip.execute(opcode)?;
    assert_eq_2d(
        0..WIDTH,
        0..HEIGHT,
        gfx_to_mask(chip.gfx()),
        str_to_mask(&empty_mask_str),
    );
    Ok(())
}

/// Return from a subroutine
#[test]
fn execute_00ee_subroutine_return() -> Result<(), VmError> {
    let mut chip = Peach8::new(TestingContext::new(0));
    let opcode = OpCode::try_from(0x00EEu16)?;
    let jumps = [0x260u16, 0x7F1u16, 0xFA2u16, 0x333u16];
    jumps
        .iter()
        .map(|&addr| OpCode::_2NNN { nnn: addr })
        .for_each(|op| chip.execute(op).unwrap());
    assert_eq!(chip.pc(), 0x333u16);

    for &addr in jumps.iter().rev().skip(1) {
        chip.execute(opcode)?;
        assert_eq!(chip.pc(), addr + 2u16); // +2 because pc increments on return
    }
    chip.execute(opcode)?;
    assert_eq!(chip.pc(), 0x202u16);

    assert_eq!(chip.execute(opcode), Err(VmError::ReturnWithoutCall));
    Ok(())
}

/// Jump to address NNN
#[test]
fn execute_1nnn_jump_to() -> Result<(), VmError> {
    let mut chip = Peach8::new(TestingContext::new(0));
    let opcode = OpCode::try_from(0x1220u16)?;
    chip.execute(opcode)?;
    assert_eq!(chip.pc(), 0x220u16);
    let opcode = OpCode::try_from(0x1FFFu16)?;
    chip.execute(opcode)?;
    assert_eq!(chip.pc(), MEM_LENGTH as u16 - 1);
    let opcode = OpCode::try_from(0x1000u16)?;
    assert_eq!(chip.execute(opcode), Err(VmError::JumpBeforeProgram),);
    Ok(())
}

/// Execute subroutine starting at address NNN
#[test]
fn execute_2nnn_exec_subroutine_at() -> Result<(), VmError> {
    let mut chip = Peach8::new(TestingContext::new(0));
    let subr_addr = 0x222u16;
    let opcode = OpCode::_2NNN { nnn: subr_addr };
    chip.execute(opcode)?;
    assert_eq!(chip.pc(), subr_addr);
    assert_eq!(chip.stack_len(), 1);
    assert_eq!(chip.stack_pop().unwrap(), START_ADDR);

    for _ in 0..64 {
        chip.execute(opcode)?;
    }
    assert_eq!(chip.execute(opcode), Err(VmError::StackOverflow),);

    chip.stack_clear();
    assert_eq!(
        chip.execute(OpCode::_2NNN { nnn: 0x100u16 }),
        Err(VmError::JumpBeforeProgram),
    );

    Ok(())
}

/// Skip the following instruction if the value of register VX equals NN
#[test]
fn execute_3xnn_skip_if_vx_eq_nn() -> Result<(), VmError> {
    let mut chip = Peach8::new(TestingContext::new(0));
    let pc = chip.pc();
    let opcode = OpCode::_3XNN { x: 0, nn: 0x22u8 };
    chip.execute(opcode)?;
    assert_eq!(chip.pc(), pc + 2);

    chip.assign_vx_nn(0, 0x22u8)?;
    chip.execute(opcode)?;
    assert_eq!(chip.pc(), pc + 6);
    Ok(())
}

/// Skip the following instruction if the value of register VX is not equal to NN
#[test]
fn execute_4xnn_skip_if_vx_ne_nn() -> Result<(), VmError> {
    let mut chip = Peach8::new(TestingContext::new(0));
    let pc = chip.pc();
    let opcode = OpCode::_4XNN { x: 0, nn: 0x22u8 };
    chip.execute(opcode)?;
    assert_eq!(chip.pc(), pc + 4);

    chip.assign_vx_nn(0, 0x22u8)?;
    chip.execute(opcode)?;
    assert_eq!(chip.pc(), pc + 6);
    Ok(())
}

/// Skip the following instruction if the value of register VX is equal to the value of register VY
#[test]
fn execute_5xy0_skip_if_vx_eq_vy() -> Result<(), VmError> {
    let mut chip = Peach8::new(TestingContext::new(0));
    let pc = chip.pc();
    let opcode = OpCode::_5XY0 { x: 0, y: 1 };
    chip.execute(opcode)?;
    assert_eq!(chip.pc(), pc + 4);

    chip.assign_vx_nn(0, 0x22u8)?;
    chip.execute(opcode)?;
    assert_eq!(chip.pc(), pc + 6);
    Ok(())
}

/// Store number NN in register VX
#[test]
fn execute_6xnn_assign_vx_nn() -> Result<(), VmError> {
    let mut chip = Peach8::new(TestingContext::new(0));
    let opcode = OpCode::try_from(0x6122u16)?;
    chip.execute(opcode)?;
    assert_eq!(chip.v(1), 0x22u8);

    let opcode = OpCode::try_from(0x6FFFu16)?;
    chip.execute(opcode)?;
    assert_eq!(chip.v(15), 0xFFu8);
    Ok(())
}

/// Add the value NN to register VX
#[test]
fn execute_7xnn_assign_add_vx_nn() -> Result<(), VmError> {
    let mut chip = Peach8::new(TestingContext::new(0));
    let value = 0x09u8;
    let opcode = OpCode::_7XNN { x: 0, nn: value };
    // no flag should be set in VF during this execution
    chip.assign_vx_nn(0xFu8, value)?;

    chip.execute(opcode)?;
    assert_eq!(chip.v(0), value);
    assert_eq!(chip.v(15), value);

    chip.execute(opcode)?;
    assert_eq!(chip.v(0), value.wrapping_mul(2u8));
    assert_eq!(chip.v(15), value);
    Ok(())
}

/// Store the value of register VY in register VX
#[test]
fn execute_8xy0_assign_vx_vy() -> Result<(), VmError> {
    let mut chip = Peach8::new(TestingContext::new(0));
    let vx = 0x02u8;
    let vy = 0x04u8;
    let value = 0x09u8;

    chip.assign_vx_nn(vy, value)?;

    let opcode = OpCode::_8XY0 { x: vx, y: vy };
    chip.execute(opcode)?;
    assert_eq!(chip.v(vx), value);
    Ok(())
}

/// Set VX to VX OR VY
#[test]
fn execute_8xy1_assign_or_vx_vy() -> Result<(), VmError> {
    let mut chip = Peach8::new(TestingContext::new(0));
    let vx = 0x02u8;
    let vy = 0x04u8;
    let value_x = 0xF1u8;
    let value_y = 0x0Fu8;

    chip.assign_vx_nn(vx, value_x)?;
    chip.assign_vx_nn(vy, value_y)?;

    let opcode = OpCode::_8XY1 { x: vx, y: vy };
    chip.execute(opcode)?;
    assert_eq!(chip.v(vx), value_x | value_y);
    Ok(())
}

/// Set VX to VX AND VY
#[test]
fn execute_8xy2_assign_and_vx_vy() -> Result<(), VmError> {
    let mut chip = Peach8::new(TestingContext::new(0));
    let vx = 0x02u8;
    let vy = 0x04u8;
    let value_x = 0xF1u8;
    let value_y = 0x0Fu8;

    chip.assign_vx_nn(vx, value_x)?;
    chip.assign_vx_nn(vy, value_y)?;

    let opcode = OpCode::_8XY2 { x: vx, y: vy };
    chip.execute(opcode)?;
    assert_eq!(chip.v(vx), value_x & value_y);
    Ok(())
}

/// Set VX to VX XOR VY
#[test]
fn execute_8xy3_assign_xor_vx_vy() -> Result<(), VmError> {
    let mut chip = Peach8::new(TestingContext::new(0));
    let vx = 0x02u8;
    let vy = 0x04u8;
    let value_x = 0xF1u8;
    let value_y = 0x1Fu8;

    chip.assign_vx_nn(vx, value_x)?;
    chip.assign_vx_nn(vy, value_y)?;

    let opcode = OpCode::_8XY3 { x: vx, y: vy };
    chip.execute(opcode)?;
    assert_eq!(chip.v(vx), value_x ^ value_y);
    Ok(())
}

/// Add the value of register VY to register VX
/// Set VF to 01 if a carry occurs
/// Set VF to 00 if a carry does not occur
#[test]
fn execute_8xy4_assign_add_vx_vy() -> Result<(), VmError> {
    let mut chip = Peach8::new(TestingContext::new(0));
    let vx = 0x02u8;
    let vy = 0x04u8;
    let value = 0x8Fu8;

    chip.assign_vx_nn(vy, value)?;

    let opcode = OpCode::_8XY4 { x: vx, y: vy };
    chip.execute(opcode)?;
    assert_eq!(chip.v(vx), value);
    assert_eq!(chip.v(15), 0x00u8);

    chip.execute(opcode)?;
    assert_eq!(chip.v(vx), value.wrapping_mul(2));
    assert_eq!(chip.v(15), 0x01u8);
    Ok(())
}

/// Subtract the value of register VY from register VX
/// Set VF to 00 if a borrow occurs
/// Set VF to 01 if a borrow does not occur
#[test]
fn execute_8xy5_assign_sub_vx_vy() -> Result<(), VmError> {
    let mut chip = Peach8::new(TestingContext::new(0));
    let vx = 0x02u8;
    let vy = 0x04u8;
    let value_x = 0x05u8;
    let value_y = 0x04u8;

    chip.assign_vx_nn(vx, value_x)?;
    chip.assign_vx_nn(vy, value_y)?;

    let opcode = OpCode::_8XY5 { x: vx, y: vy };

    chip.execute(opcode)?;
    assert_eq!(chip.v(vx), value_x.wrapping_sub(value_y));
    assert_eq!(chip.v(15), 0x01u8);

    chip.execute(opcode)?;
    assert_eq!(chip.v(vx), value_x.wrapping_sub(2 * value_y));
    assert_eq!(chip.v(15), 0x00u8);
    Ok(())
}

/// Store the value of register VY shifted right one bit in register VX
/// Set register VF to the least significant bit prior to the shift
#[test]
fn execute_8xy6_assign_vx_vy_shifted_r() -> Result<(), VmError> {
    let mut chip = Peach8::new(TestingContext::new(0));
    let vx = 0x02u8;
    let vy = 0x04u8;
    let value = 0b1111_1110u8;

    chip.assign_vx_nn(vy, value)?;

    let opcode = OpCode::_8XY6 { x: vx, y: vy };

    chip.execute(opcode)?;
    assert_eq!(chip.v(vy), value >> 1);
    assert_eq!(chip.v(vx), value >> 1);
    assert_eq!(chip.v(15), 0x00u8);

    chip.execute(opcode)?;
    assert_eq!(chip.v(vy), value >> 2);
    assert_eq!(chip.v(vx), value >> 2);
    assert_eq!(chip.v(15), 0x01u8);
    Ok(())
}

/// Set register VX to the value of VY minus VX
/// Set VF to 00 if a borrow occurs
/// Set VF to 01 if a borrow does not occur
#[test]
fn execute_8xy7_assign_vx_vy_sub_vx() -> Result<(), VmError> {
    let mut chip = Peach8::new(TestingContext::new(0));
    let vx = 0x02u8;
    let vy = 0x04u8;
    let value_x = 0x04u8;
    let value_y = 0x05u8;

    chip.assign_vx_nn(vx, value_x)?;
    chip.assign_vx_nn(vy, value_y)?;

    let opcode = OpCode::_8XY7 { x: vx, y: vy };

    chip.execute(opcode)?;
    assert_eq!(chip.v(vx), value_y.wrapping_sub(value_x));
    assert_eq!(chip.v(15), 0x01u8);

    let value_x = value_y + 2;
    chip.assign_vx_nn(vx, value_x)?;
    chip.execute(opcode)?;
    assert_eq!(chip.v(vx), value_y.wrapping_sub(value_x));
    assert_eq!(chip.v(15), 0x00u8);
    Ok(())
}

/// Store the value of register VY shifted left one bit in register VX
/// Set register VF to the most significant bit prior to the shift
#[test]
fn execute_8xye_assign_vx_vy_shifted_l() -> Result<(), VmError> {
    let mut chip = Peach8::new(TestingContext::new(0));
    let vx = 0x02u8;
    let vy = 0x04u8;
    let value = 0b0111_1111u8;

    chip.assign_vx_nn(vy, value)?;

    let opcode = OpCode::_8XYE { x: vx, y: vy };

    chip.execute(opcode)?;
    assert_eq!(chip.v(vy), value << 1);
    assert_eq!(chip.v(vx), value << 1);
    assert_eq!(chip.v(15), 0x00u8);

    chip.execute(opcode)?;
    assert_eq!(chip.v(vy), value << 2);
    assert_eq!(chip.v(vx), value << 2);
    assert_eq!(chip.v(15), 0x01u8);
    Ok(())
}

/// Skip the following instruction if the value of register VX is not equal to the value of register VY
#[test]
fn execute_9xy0_skip_if_vx_ne_vy() -> Result<(), VmError> {
    let mut chip = Peach8::new(TestingContext::new(0));
    let pc = chip.pc();
    let opcode = OpCode::_9XY0 { x: 0, y: 1 };
    chip.execute(opcode)?;
    assert_eq!(chip.pc(), pc + 2);

    chip.assign_vx_nn(0, 0x22u8)?;
    chip.execute(opcode)?;
    assert_eq!(chip.pc(), pc + 6);
    Ok(())
}

/// Store memory address NNN in register I
#[test]
fn execute_annn_assign_i_nnn() -> Result<(), VmError> {
    let mut chip = Peach8::new(TestingContext::new(0));
    let opcode = OpCode::_ANNN {
        nnn: MEM_LENGTH as u16 - 1,
    };
    assert_eq!(chip.i(), 0x0000u16);
    chip.execute(opcode)?;
    assert_eq!(chip.i(), MEM_LENGTH as u16 - 1);
    Ok(())
}

/// Jump to address NNN + V0
#[test]
fn execute_bnnn_jump_to_nnn_add_v0() -> Result<(), VmError> {
    let mut chip = Peach8::new(TestingContext::new(0));
    let opcode = OpCode::try_from(0xB220u16)?;

    chip.execute(opcode)?;
    assert_eq!(chip.pc(), 0x220u16);

    chip.assign_vx_nn(0, 0xFFu8)?;
    let opcode = OpCode::try_from(0xBF00u16)?;
    chip.execute(opcode)?;
    assert_eq!(chip.pc(), MEM_LENGTH as u16 - 1);

    let opcode = OpCode::try_from(0xBFFBu16)?;
    assert_eq!(chip.execute(opcode), Err(VmError::OutOfAddressSpace),);

    let opcode = OpCode::try_from(0xB000u16)?;
    assert_eq!(chip.execute(opcode), Err(VmError::JumpBeforeProgram),);
    Ok(())
}

/// Set VX to a random number with a mask of NN
#[test]
fn execute_cxnn_assign_vx_random_and_nn() -> Result<(), VmError> {
    // Not testing this opcode currently, tested in test roms
    assert!(true);
    Ok(())
}

/// Draw a sprite at position VX VY with N bytes of sprite data starting at the address stored in I
/// Set VF to 01 if any set pixels are changed to unset, and 00 otherwise
#[test]
fn execute_dxyn_draw_n_at_vx_vy() -> Result<(), VmError> {
    let mut chip = Peach8::load(TestingContext::new(0), &[]);
    let opcode = OpCode::_DXYN { x: 0, y: 1, n: 5 };

    chip.assign_vx_nn(0, 0x02)?;
    chip.assign_vx_nn(1, 0x01)?;
    chip.assign_vx_nn(2, 0x0F)?;
    chip.assign_i_addr_of_sprite_vx(2)?;
    chip.execute(opcode)?;
    assert_eq_2d(
        0..8,
        0..8,
        gfx_to_mask(chip.gfx()),
        str_to_mask(
            "........
             ..####..
             ..#.....
             ..####..
             ..#.....
             ..#.....
             ........
             ........",
        ),
    );
    assert_eq!(chip.v(15), 0x00u8);

    chip.assign_vx_nn(0, 64u8 + 0x02)?;
    chip.assign_vx_nn(1, 32u8 + 0x01)?;
    chip.assign_vx_nn(2, 0x0E)?;
    chip.assign_i_addr_of_sprite_vx(2)?;
    chip.execute(opcode)?;
    assert_eq_2d(
        0..8,
        0..8,
        gfx_to_mask(chip.gfx()),
        str_to_mask(
            "........
             ........
             ........
             ........
             ........
             ...###..
             ........
             ........",
        ),
    );
    assert_eq!(chip.v(15), 0x01u8);

    chip.assign_vx_nn(0, 62u8)?;
    chip.assign_vx_nn(1, 30u8)?;
    chip.assign_i_addr_of_sprite_vx(2)?;
    chip.execute(opcode)?;
    assert_eq_2d(
        60..64,
        28..32,
        gfx_to_mask(chip.gfx()),
        str_to_mask(
            "....
             ....
             ..##
             ..#.",
        )
        .offset(60, 28),
    );
    assert_eq!(chip.v(15), 0x00u8);

    chip.assign_i_nnn(0x0FFEu16)?;
    assert_eq!(chip.execute(opcode), Err(VmError::OutOfAddressSpace),);
    Ok(())
}

/// Skip the following instruction
/// if the key corresponding to the hex value currently stored in register VX is pressed
#[test]
fn execute_ex9e_skip_if_vx_in_keys() -> Result<(), VmError> {
    let mut chip = Peach8::new(TestingContext::new(0));
    let pc = chip.pc();
    let opcode = OpCode::_EX9E { x: 0 };

    chip.assign_vx_nn(0, 0x0F)?;
    chip.update_keys();
    chip.execute(opcode)?;
    assert_eq!(chip.pc(), pc + 2);

    chip.ctx.set_key(0x0Fu8);
    chip.update_keys();
    chip.execute(opcode)?;
    assert_eq!(chip.pc(), pc + 6);

    chip.assign_vx_nn(0, 0xFF)?;
    chip.update_keys();
    chip.execute(opcode)?;
    assert_eq!(chip.pc(), pc + 8);
    Ok(())
}

/// Skip the following instruction
/// if the key corresponding to the hex value currently stored in register VX is not pressed
#[test]
fn execute_exa1_skip_if_vx_not_in_keys() -> Result<(), VmError> {
    let mut chip = Peach8::new(TestingContext::new(0));
    let pc = chip.pc();
    let opcode = OpCode::_EXA1 { x: 0 };

    chip.assign_vx_nn(0, 0x0F)?;
    chip.update_keys();
    chip.execute(opcode)?;
    assert_eq!(chip.pc(), pc + 4);

    chip.ctx.set_key(0x0Fu8);
    chip.update_keys();
    chip.execute(opcode)?;
    assert_eq!(chip.pc(), pc + 6);

    chip.assign_vx_nn(0, 0xFF)?;
    chip.update_keys();
    chip.execute(opcode)?;
    assert_eq!(chip.pc(), pc + 10);
    Ok(())
}

/// Store the current value of the delay timer in register VX
#[test]
fn execute_fx07_assign_vx_delay_t() -> Result<(), VmError> {
    let mut chip = Peach8::new(TestingContext::new(0));
    let opcode = OpCode::_FX07 { x: 0 };
    chip.set_delay_timer(0xFFu8);

    chip.execute(opcode)?;
    assert_eq!(chip.delay_timer(), chip.v(0));
    assert_eq!(chip.v(0), 0xFFu8);
    Ok(())
}

/// Wait for a keypress and store the result in register VX
/// Should trigger on key release
#[test]
fn execute_fx0a_assign_vx_wait_for_key() -> Result<(), VmError> {
    let mut chip = Peach8::new(TestingContext::new(0));
    let pc = chip.pc();
    let opcode = OpCode::_FX0A { x: 0 };

    chip.update_keys();
    chip.execute(opcode)?;
    assert_eq!(chip.pc(), pc);
    assert_eq!(chip.v(0), 0x00u8);

    chip.ctx.set_key(0x0Fu8);
    chip.update_keys();
    chip.execute(opcode)?;
    assert_eq!(chip.pc(), pc);
    assert_eq!(chip.v(0), 0x00u8);

    chip.ctx.reset_key(0x0Fu8);
    chip.update_keys();
    chip.execute(opcode)?;
    assert_eq!(chip.pc(), pc + 2);
    assert_eq!(chip.v(0), 0x0Fu8);

    chip.assign_vx_nn(0, 0x00)?;
    chip.update_keys();
    chip.execute(opcode)?;
    assert_eq!(chip.pc(), pc + 2);
    assert_eq!(chip.v(0), 0x00u8);
    Ok(())
}

/// Set the delay timer to the value of register VX
#[test]
fn execute_fx15_assign_delay_t_vx() -> Result<(), VmError> {
    let mut chip = Peach8::new(TestingContext::new(0));
    let opcode = OpCode::_FX15 { x: 0 };
    chip.assign_vx_nn(0, 0xFFu8)?;

    chip.execute(opcode)?;
    assert_eq!(chip.delay_timer(), chip.v(0));
    assert_eq!(chip.delay_timer(), 0xFFu8);
    Ok(())
}

/// Set the sound timer to the value of register VX
#[test]
fn execute_fx18_assign_sound_t_vx() -> Result<(), VmError> {
    let mut chip = Peach8::new(TestingContext::new(0));
    let opcode = OpCode::_FX18 { x: 0 };
    chip.assign_vx_nn(0, 0xFFu8)?;

    chip.execute(opcode)?;
    assert_eq!(chip.sound_timer(), chip.v(0));
    assert_eq!(chip.sound_timer(), 0xFFu8);
    Ok(())
}

/// Add the value stored in register VX to register I
#[test]
fn execute_fx1e_assign_add_i_vx() -> Result<(), VmError> {
    let mut chip = Peach8::new(TestingContext::new(0));
    let opcode = OpCode::_FX1E { x: 0 };

    chip.execute(opcode)?;
    assert_eq!(chip.i(), 0x0000u16);

    chip.assign_vx_nn(0, 0xFFu8)?;
    chip.execute(opcode)?;
    assert_eq!(chip.i(), 0x00FFu16);

    chip.assign_i_nnn(0x0FFBu16)?;
    assert_eq!(chip.execute(opcode), Err(VmError::OutOfAddressSpace),);
    Ok(())
}

/// Set I to the memory address of the sprite data
/// corresponding to the hexadecimal digit stored in register VX
#[test]
fn execute_fx29_assign_i_addr_of_sprite_vx() -> Result<(), VmError> {
    let mut chip = Peach8::new(TestingContext::new(0));
    let opcode = OpCode::_FX29 { x: 0 };

    chip.assign_vx_nn(0, 0x00u8)?;
    chip.execute(opcode)?;
    assert_eq!(chip.i(), FONTSET_ADDR);

    chip.assign_vx_nn(0, 0xACu8)?;
    chip.execute(opcode)?;
    assert_eq!(chip.i(), FONTSET_ADDR + 0xC * 5);

    chip.assign_vx_nn(0, 0xB7u8)?;
    chip.execute(opcode)?;
    assert_eq!(chip.i(), FONTSET_ADDR + 0x7 * 5);
    Ok(())
}

fn memory_range(chip: &Peach8<TestingContext>, from: u16, to: u16) -> Vec<u8> {
    (from..to).map(|address| chip.memory(address)).collect()
}

/// Store the binary-coded decimal equivalent of the value
/// stored in register VX at addresses I, I+1, and I+2
#[test]
fn execute_fx33_assign_mem_at_i_bcd_of_vx() -> Result<(), VmError> {
    let mut chip = Peach8::new(TestingContext::new(0));
    let opcode = OpCode::_FX33 { x: 0 };

    chip.execute(opcode)?;
    assert_eq!(memory_range(&chip, chip.i(), chip.i() + 3), vec![0, 0, 0],);

    chip.assign_vx_nn(0, 0xFFu8)?;
    chip.execute(opcode)?;
    assert_eq!(memory_range(&chip, chip.i(), chip.i() + 3), vec![2, 5, 5],);

    chip.assign_i_nnn((MEM_LENGTH - 1) as u16)?;
    assert_eq!(chip.execute(opcode), Err(VmError::OutOfAddressSpace),);
    Ok(())
}

/// Store the values of registers V0 to VX inclusive in memory
/// starting at address I, I is set to I + X + 1 after operation
#[test]
fn execute_fx55_assign_mem_at_i_v0_to_vx() -> Result<(), VmError> {
    let mut chip = Peach8::new(TestingContext::new(0));

    chip.assign_vx_nn(0, 0xDEu8)?;
    chip.assign_vx_nn(1, 0xADu8)?;
    chip.assign_vx_nn(2, 0xBEu8)?;
    chip.assign_vx_nn(3, 0xEFu8)?;

    let opcode = OpCode::_FX55 { x: 0 };
    chip.execute(opcode)?;
    assert_eq!(chip.memory(chip.i() - 1), 0xDEu8);
    assert_eq!(chip.i(), 0x0001u16);

    let opcode = OpCode::_FX55 { x: 3 };
    chip.execute(opcode)?;
    assert_eq!(
        memory_range(&chip, chip.i() - 4, chip.i()),
        vec![0xDE, 0xAD, 0xBE, 0xEF],
    );
    assert_eq!(chip.i(), 0x0005u16);

    let opcode = OpCode::_FX55 { x: 0x0Fu8 };
    chip.assign_i_nnn(0x0FF1u16)?;
    assert_eq!(chip.execute(opcode), Err(VmError::OutOfAddressSpace),);
    Ok(())
}

/// Fill registers V0 to VX inclusive with the values stored in memory
/// starting at address I, I is set to I + X + 1 after operation
#[test]
fn execute_fx65_assign_v0_to_vx_mem_at_i() -> Result<(), VmError> {
    let mut chip = Peach8::new(TestingContext::new(0));

    chip.set_memory(chip.i(), 0xDEu8);
    chip.set_memory(chip.i() + 1, 0xADu8);
    chip.set_memory(chip.i() + 2, 0xBEu8);
    chip.set_memory(chip.i() + 3, 0xEFu8);

    let opcode = OpCode::_FX65 { x: 3 };
    chip.execute(opcode)?;
    assert_eq!(chip.v(0), 0xDEu8);
    assert_eq!(chip.v(1), 0xADu8);
    assert_eq!(chip.v(2), 0xBEu8);
    assert_eq!(chip.v(3), 0xEFu8);
    assert_eq!(chip.i(), 0x0004u16);

    let opcode = OpCode::_FX65 { x: 0x0Fu8 };
    chip.assign_i_nnn(0x0FF1u16)?;
    assert_eq!(chip.execute(opcode), Err(VmError::OutOfAddressSpace),);
    Ok(())
}

// The machine as a whole.

#[test]
fn empty_memory_stops_at_a_machine_subroutine() {
    let mut chip = Peach8::new(TestingContext::new(0));
    assert_eq!(chip.pc(), 0x200);
    assert_eq!(chip.tick_chip(), Err(VmError::UnsupportedMachineSubroutine));
    assert_eq!(chip.pc(), 0x200);
    assert!(chip.ctx.get_frame().is_none());
}

#[test]
fn small_program_settles() {
    let program = [0x61, 0x2A, 0x71, 0x01, 0x31, 0x2B, 0x12, 0x08, 0x12, 0x02];
    let mut chip = Peach8::load(TestingContext::new(0), &program);
    // set, add, and a skip that triggers
    for _ in 0..3 {
        chip.tick_chip().unwrap();
    }
    assert_eq!(chip.pc(), 0x208);
    assert_eq!(chip.v(1), 0x2B);
    assert_eq!(chip.ctx.frames, 3);
}

#[test]
fn glyph_f_is_drawn() -> Result<(), VmError> {
    let mut chip = Peach8::load(TestingContext::new(0), &[]);
    chip.execute(OpCode::_00E0)?;
    chip.assign_vx_nn(0, 2)?;
    chip.assign_vx_nn(1, 1)?;
    chip.assign_vx_nn(2, 0x0F)?;
    chip.execute(OpCode::_FX29 { x: 2 })?;
    chip.execute(OpCode::_DXYN { x: 0, y: 1, n: 5 })?;
    let expected = ["1111", "1000", "1111", "1000", "1000"];
    for (row, bits) in expected.iter().enumerate() {
        for (col, bit) in bits.chars().enumerate() {
            assert_eq!(
                chip.gfx().get_bit(2 + col, 1 + row),
                Some(&(bit == '1')),
                "row {} col {}",
                row,
                col
            );
        }
    }
    assert_eq!(chip.v(15), 0);
    Ok(())
}

#[test]
fn return_without_call_is_refused() {
    let mut chip = Peach8::new(TestingContext::new(0));
    assert_eq!(chip.execute(OpCode::_00EE), Err(VmError::ReturnWithoutCall));
    assert_eq!(chip.pc(), 0x200);
}

#[test]
fn subtraction_borrows() -> Result<(), VmError> {
    let mut chip = Peach8::new(TestingContext::new(0));
    chip.assign_vx_nn(0, 0x05)?;
    chip.assign_vx_nn(1, 0x04)?;
    chip.execute(OpCode::_8XY5 { x: 0, y: 1 })?;
    assert_eq!(chip.v(0), 0x01);
    assert_eq!(chip.v(15), 1);
    chip.execute(OpCode::_8XY5 { x: 0, y: 1 })?;
    assert_eq!(chip.v(0), 0xFD);
    assert_eq!(chip.v(15), 0);
    Ok(())
}

#[test]
fn delay_timer_runs_out() {
    let mut chip = Peach8::new(TestingContext::new(0));
    chip.set_delay_timer(101);
    chip.assign_vx_nn(3, 7).unwrap();
    chip.assign_sound_t_vx(3).unwrap();
    for _ in 0..101 {
        chip.tick_timers();
    }
    assert_eq!(chip.delay_timer(), 0);
    assert_eq!(chip.sound_timer(), 0);
    assert!(!chip.ctx.is_sound_on());
}

#[test]
fn assign_then_skip_moves_on_by_four() -> Result<(), VmError> {
    for x in 0..16u8 {
        for nn in [0u8, 1, 0x2A, 0xFF] {
            let mut chip = Peach8::new(TestingContext::new(0));
            chip.execute(OpCode::_6XNN { x, nn })?;
            let pc = chip.pc();
            chip.execute(OpCode::_3XNN { x, nn })?;
            assert_eq!(chip.pc(), pc + 4);
        }
    }
    Ok(())
}

#[test]
fn skip_at_the_end_of_memory_fails_and_changes_nothing() {
    let mut chip = Peach8::new(TestingContext::new(0));
    chip.set_pc(4094);
    assert_eq!(
        chip.execute(OpCode::_3XNN { x: 0, nn: 0 }),
        Err(VmError::OutOfAddressSpace)
    );
    assert_eq!(chip.pc(), 4094);
    assert_eq!(chip.execute(OpCode::_3XNN { x: 0, nn: 1 }), Ok(()));
    assert_eq!(chip.pc(), 4096);
    assert_eq!(
        chip.execute(OpCode::_6XNN { x: 0, nn: 9 }),
        Err(VmError::OutOfAddressSpace)
    );
    assert_eq!(chip.v(0), 0);
    assert_eq!(chip.tick_chip(), Err(VmError::OutOfAddressSpace));
}

#[test]
fn return_beyond_memory_keeps_the_stack() {
    let mut chip = Peach8::new(TestingContext::new(0));
    chip.set_pc(4095);
    chip.execute(OpCode::_2NNN { nnn: 0x300 }).unwrap();
    assert_eq!(chip.stack_len(), 1);
    assert_eq!(chip.execute(OpCode::_00EE), Err(VmError::OutOfAddressSpace));
    assert_eq!(chip.stack_len(), 1);
    assert_eq!(chip.pc(), 0x300);
    assert_eq!(chip.stack_pop(), Some(4095));
    assert_eq!(chip.stack_pop(), None);
}

#[test]
fn clear_screen_is_idempotent() -> Result<(), VmError> {
    let mut chip = Peach8::load(TestingContext::new(0), &[]);
    chip.assign_i_addr_of_sprite_vx(0)?;
    chip.draw_n_at_vx_vy(0, 0, 5)?;
    chip.clear_screen()?;
    let once = gfx_to_mask(chip.gfx());
    chip.clear_screen()?;
    assert_eq!(gfx_to_mask(chip.gfx()), once);
    assert_eq!(once, ImageMask::new());
    Ok(())
}

#[test]
fn drawing_twice_restores_the_frame() -> Result<(), VmError> {
    let mut chip = Peach8::load(TestingContext::new(0), &[]);
    // something to draw over
    chip.assign_vx_nn(0, 3)?;
    chip.assign_vx_nn(1, 2)?;
    chip.assign_vx_nn(2, 0x08)?;
    chip.assign_i_addr_of_sprite_vx(2)?;
    chip.draw_n_at_vx_vy(0, 1, 5)?;
    let before = gfx_to_mask(chip.gfx());

    chip.assign_vx_nn(0, 5)?;
    chip.assign_vx_nn(2, 0x0A)?;
    chip.assign_i_addr_of_sprite_vx(2)?;
    chip.execute(OpCode::_DXYN { x: 0, y: 1, n: 5 })?;
    assert_ne!(gfx_to_mask(chip.gfx()), before);
    assert_eq!(chip.v(15), 1);
    chip.execute(OpCode::_DXYN { x: 0, y: 1, n: 5 })?;
    assert_eq!(gfx_to_mask(chip.gfx()), before);
    assert_eq!(chip.v(15), 1);
    Ok(())
}

#[test]
fn second_draw_does_not_collide_where_all_was_lit() -> Result<(), VmError> {
    let mut chip = Peach8::new(TestingContext::new(0));
    chip.set_memory(0x300, 0xFF);
    chip.assign_i_nnn(0x300)?;
    chip.draw_n_at_vx_vy(0, 0, 1)?;
    assert_eq!(chip.v(15), 0);
    // the frame is lit under the sprite: the first of two draws erases,
    // the second lights again and meets nothing
    chip.draw_n_at_vx_vy(0, 0, 1)?;
    assert_eq!(chip.v(15), 1);
    chip.assign_vx_nn(15, 0)?;
    chip.draw_n_at_vx_vy(0, 0, 1)?;
    assert_eq!(chip.v(15), 0);
    Ok(())
}

#[test]
fn sprite_is_cut_off_at_the_edges() -> Result<(), VmError> {
    let mut chip = Peach8::new(TestingContext::new(0));
    chip.set_memory(0x300, 0xFF);
    chip.set_memory(0x301, 0xFF);
    chip.assign_i_nnn(0x300)?;
    chip.assign_vx_nn(0, 60)?;
    chip.assign_vx_nn(1, 31)?;
    chip.draw_n_at_vx_vy(0, 1, 2)?;
    let lit: usize = chip
        .gfx()
        .iter_rows_bitwise()
        .iter()
        .map(|row| row.iter().filter(|&&bit| bit).count())
        .sum();
    assert_eq!(lit, 4);
    for x in 60..64 {
        assert_eq!(chip.gfx().get_bit(x, 31), Some(&true));
    }
    assert_eq!(chip.gfx().get_bit(0, 31), Some(&false));
    assert_eq!(chip.gfx().get_bit(60, 0), Some(&false));
    Ok(())
}

#[test]
fn draw_reads_up_to_the_end_of_memory() -> Result<(), VmError> {
    let mut chip = Peach8::new(TestingContext::new(0));
    chip.assign_i_nnn(4096 - 5)?;
    assert_eq!(chip.draw_n_at_vx_vy(0, 0, 5), Ok(()));
    chip.assign_i_nnn(4096 - 4)?;
    assert_eq!(chip.draw_n_at_vx_vy(0, 0, 5), Err(VmError::OutOfAddressSpace));
    Ok(())
}

#[test]
fn store_then_load_restores_registers() -> Result<(), VmError> {
    for x in 0..16u8 {
        let mut chip = Peach8::new(TestingContext::new(0));
        for k in 0..16u8 {
            chip.assign_vx_nn(k, 0xA0 + k)?;
        }
        chip.assign_i_nnn(0x400)?;
        chip.execute(OpCode::_FX55 { x })?;
        assert_eq!(chip.i(), 0x400 + x as u16 + 1);
        for k in 0..16u8 {
            chip.assign_vx_nn(k, 0)?;
        }
        chip.assign_i_nnn(0x400)?;
        chip.execute(OpCode::_FX65 { x })?;
        assert_eq!(chip.i(), 0x400 + x as u16 + 1);
        for k in 0..16u8 {
            let expected = if k <= x { 0xA0 + k } else { 0 };
            assert_eq!(chip.v(k), expected);
        }
    }
    Ok(())
}

#[test]
fn bcd_of_a_number() -> Result<(), VmError> {
    let mut chip = Peach8::new(TestingContext::new(0));
    chip.assign_vx_nn(4, 137)?;
    chip.assign_i_nnn(0x500)?;
    chip.assign_mem_at_i_bcd_of_vx(4)?;
    assert_eq!(memory_range(&chip, 0x500, 0x503), vec![1, 3, 7]);
    chip.assign_i_nnn(4093)?;
    assert_eq!(chip.assign_mem_at_i_bcd_of_vx(4), Ok(()));
    chip.assign_i_nnn(4094)?;
    assert_eq!(
        chip.assign_mem_at_i_bcd_of_vx(4),
        Err(VmError::OutOfAddressSpace)
    );
    Ok(())
}

#[test]
fn random_byte_is_masked() -> Result<(), VmError> {
    let mut chip = Peach8::new(TestingContext::new(7));
    let mut reference = Rng::new_seed(7);
    for _ in 0..50 {
        chip.execute(OpCode::_CXNN { x: 5, nn: 0x3C })?;
        assert_eq!(chip.v(5), reference.generate::<u8>() & 0x3C);
    }
    chip.assign_vx_masked(6, 0xFF, 0x0F)?;
    assert_eq!(chip.v(6), 0x0F);
    Ok(())
}

#[test]
fn program_is_loaded_behind_the_font() {
    let program = [1u8, 2, 3];
    let chip = Peach8::load(TestingContext::new(0), &program);
    assert_eq!(chip.memory(0x04F), 0);
    assert_eq!(memory_range(&chip, 0x050, 0x055), vec![0xF0, 0x90, 0x90, 0x90, 0xF0]);
    assert_eq!(memory_range(&chip, 0x09B, 0x0A0), vec![0xF0, 0x80, 0xF0, 0x80, 0x80]);
    assert_eq!(chip.memory(0x0A0), 0);
    assert_eq!(memory_range(&chip, 0x200, 0x204), vec![1, 2, 3, 0]);
    assert_eq!(chip.pc(), 0x200);
    assert_eq!(chip.i(), 0);
    assert_eq!(chip.stack_len(), 0);
}

#[test]
fn long_program_is_cut_at_the_end_of_memory() {
    let program = vec![0xABu8; 5000];
    let chip = Peach8::load(TestingContext::new(0), &program);
    assert_eq!(chip.memory(0x200), 0xAB);
    assert_eq!(chip.memory(4095), 0xAB);
    assert_eq!(chip.memory(0x1FF), 0);
}

#[test]
fn frame_is_shown_after_a_successful_tick_only() {
    let mut chip = Peach8::load(TestingContext::new(0), &[0x60, 0x01, 0x00, 0x00]);
    assert_eq!(chip.tick_chip(), Ok(()));
    assert_eq!(chip.ctx.frames, 1);
    assert_eq!(chip.tick_chip(), Err(VmError::UnsupportedMachineSubroutine));
    assert_eq!(chip.ctx.frames, 1);
}

#[test]
fn failed_tick_still_takes_the_keys() {
    let mut chip = Peach8::new(TestingContext::new(0));
    chip.ctx.set_key(3);
    assert!(chip.tick_chip().is_err());
    assert_eq!(chip.key(3), KeyState::Pressed);
}

#[test]
fn malformed_word_stops_the_tick() {
    let mut chip = Peach8::load(TestingContext::new(0), &[0x53, 0x21]);
    assert_eq!(chip.tick_chip(), Err(VmError::MalformedOp));
    assert_eq!(chip.pc(), 0x200);
}

#[test]
fn wait_for_key_takes_the_first_released() -> Result<(), VmError> {
    let mut chip = Peach8::new(TestingContext::new(0));
    chip.ctx.set_key(9);
    chip.ctx.set_key(4);
    chip.update_keys();
    assert_eq!(chip.first_released_key(), None);
    chip.ctx.reset_key(9);
    chip.ctx.reset_key(4);
    chip.update_keys();
    assert_eq!(chip.first_released_key(), Some(4));
    chip.assign_vx_wait_for_key(1)?;
    assert_eq!(chip.v(1), 4);
    Ok(())
}

#[test]
fn stack_overflow_changes_nothing() {
    let mut chip = Peach8::new(TestingContext::new(0));
    for _ in 0..64 {
        chip.execute(OpCode::_2NNN { nnn: 0x250 }).unwrap();
    }
    chip.set_pc(0x260);
    assert_eq!(
        chip.execute(OpCode::_2NNN { nnn: 0x300 }),
        Err(VmError::StackOverflow)
    );
    assert_eq!(chip.pc(), 0x260);
    assert_eq!(chip.stack_len(), 64);
}

#[test]
fn count_timers_says_what_the_buzzer_is_to_do() -> Result<(), VmError> {
    let mut chip = Peach8::new(TestingContext::new(0));
    assert_eq!(chip.count_timers(), SoundAction::TurnOff);
    chip.assign_vx_nn(0, 3)?;
    chip.assign_sound_t_vx(0)?;
    chip.assign_delay_t_vx(0)?;
    assert_eq!(chip.count_timers(), SoundAction::TurnOn);
    assert_eq!(chip.count_timers(), SoundAction::TurnOn);
    assert_eq!(chip.count_timers(), SoundAction::Keep);
    assert_eq!(chip.sound_timer(), 0);
    assert_eq!(chip.delay_timer(), 0);
    assert_eq!(chip.count_timers(), SoundAction::TurnOff);
    assert!(!chip.ctx.is_sound_on());
    Ok(())
}
