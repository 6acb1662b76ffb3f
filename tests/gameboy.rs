use emu_core::emulator::{AudioCue, Emulator};
use emu_core::error::EmuError;
use emu_core::gameboy::{GameBoyEmulator, GameBoyMetadata};
use emu_core::gameboy_model::{DARK_GREEN, LIGHT_GREEN};
use emu_core::opcodes::{get_cb_opcode_cycles, get_opcode_cycles};

const A: usize = 0;
const F: usize = 1;
const B: usize = 2;
const C: usize = 3;
const D: usize = 4;
const E: usize = 5;

/// A Game Boy with `program` loaded at 0x0100, where execution starts.
fn loaded(program: &[u8]) -> GameBoyEmulator {
    let mut rom = vec![0u8; 0x100];
    rom.extend_from_slice(program);
    let mut gb = GameBoyEmulator::new();
    gb.load_rom(&rom).unwrap();
    gb
}

fn run(program: &[u8], steps: usize) -> GameBoyMetadata {
    let mut gb = loaded(program);
    for _ in 0..steps {
        gb.step().unwrap();
    }
    gb.metadata()
}

#[test]
fn new_machine_state() {
    let gb = GameBoyEmulator::new();
    let m = gb.metadata();
    assert_eq!((m.pc, m.sp, m.ime), (0x0100, 0xFFFE, true));
    assert_eq!(m.registers, [0; 8]);
    assert_eq!(m.memory.len(), 0x1000);
    assert_eq!(gb.resolution(), (160, 144));
    assert!(gb.framebuffer().iter().all(|&p| p == LIGHT_GREEN));
    assert_eq!(gb.system_name(), "Game Boy");
}

#[test]
fn nothing_runs_before_a_program_is_loaded() {
    let mut gb = GameBoyEmulator::new();
    gb.step().unwrap();
    assert_eq!(gb.metadata().pc, 0x0100);
}

#[test]
fn load_sets_power_up_registers() {
    let gb = loaded(&[0x00]);
    let m = gb.metadata();
    assert_eq!(m.registers, [0x01, 0xB0, 0x00, 0x13, 0x00, 0xD8, 0x01, 0x4D]);
    assert_eq!(m.memory[0x100], 0x00);
}

#[test]
fn oversized_rom_is_refused() {
    let mut gb = GameBoyEmulator::new();
    let r = gb.load_rom(&vec![0u8; 0x8001]);
    assert!(matches!(r, Err(EmuError::InvalidRom { size: 0x8001, capacity: 0x8000 })));
    gb.step().unwrap();
    assert_eq!(gb.metadata().pc, 0x0100);
    assert!(gb.load_rom(&vec![0u8; 0x8000]).is_ok());
}

#[test]
fn add_immediate_sets_half_carry() {
    // LD A, 0x0F; ADD A, 0x01
    let m = run(&[0x3E, 0x0F, 0xC6, 0x01], 2);
    assert_eq!(m.registers[A], 0x10);
    assert_eq!(m.registers[F], 0x20);
    assert_eq!(m.pc, 0x0104);
}

#[test]
fn adc_adds_the_carry() {
    // LD A, 0xFF; SCF; ADC A, 0x00
    let m = run(&[0x3E, 0xFF, 0x37, 0xCE, 0x00], 3);
    assert_eq!(m.registers[A], 0x00);
    assert_eq!(m.registers[F], 0xB0);
}

#[test]
fn sub_borrows() {
    // LD A, 0x00; SUB 0x01
    let m = run(&[0x3E, 0x00, 0xD6, 0x01], 2);
    assert_eq!(m.registers[A], 0xFF);
    assert_eq!(m.registers[F], 0x70);
}

#[test]
fn compare_keeps_accumulator() {
    // LD A, 0x42; CP 0x42
    let m = run(&[0x3E, 0x42, 0xFE, 0x42], 2);
    assert_eq!(m.registers[A], 0x42);
    assert_eq!(m.registers[F], 0xC0);
}

#[test]
fn daa_adjusts_bcd_addition() {
    // LD A, 0x15; ADD A, 0x27; DAA
    let m = run(&[0x3E, 0x15, 0xC6, 0x27, 0x27], 3);
    assert_eq!(m.registers[A], 0x42);
    assert_eq!(m.registers[F], 0x00);
}

#[test]
fn register_block_uses_operand_order() {
    // LD B, 0x42; LD C, B; LD A, C; ADD A, B
    let m = run(&[0x06, 0x42, 0x48, 0x79, 0x80], 4);
    assert_eq!(m.registers[C], 0x42);
    assert_eq!(m.registers[A], 0x84);
}

#[test]
fn inc_and_dec_flags() {
    // LD B, 0xFF; INC B
    let m = run(&[0x06, 0xFF, 0x04], 2);
    assert_eq!(m.registers[B], 0x00);
    // Z and H set, N clear, C kept from power-up.
    assert_eq!(m.registers[F], 0xB0);
    // LD B, 0x10; DEC B
    let m = run(&[0x06, 0x10, 0x05], 2);
    assert_eq!(m.registers[B], 0x0F);
    assert_eq!(m.registers[F], 0x70);
}

#[test]
fn cb_rotate_swap_and_bit() {
    // LD B, 0x81; RLC B
    let m = run(&[0x06, 0x81, 0xCB, 0x00], 2);
    assert_eq!(m.registers[B], 0x03);
    assert_eq!(m.registers[F], 0x10);
    // LD A, 0x12; SWAP A
    let m = run(&[0x3E, 0x12, 0xCB, 0x37], 2);
    assert_eq!(m.registers[A], 0x21);
    // LD A, 0x80; BIT 7, A
    let m = run(&[0x3E, 0x80, 0xCB, 0x7F], 2);
    assert_eq!(m.registers[F], 0x30);
    // LD A, 0x00; SET 3, A
    let m = run(&[0x3E, 0x00, 0xCB, 0xDF], 2);
    assert_eq!(m.registers[A], 0x08);
    // LD A, 0xFF; RES 3, A
    let m = run(&[0x3E, 0xFF, 0xCB, 0x9F], 2);
    assert_eq!(m.registers[A], 0xF7);
}

#[test]
fn rotate_accumulator() {
    // LD A, 0x81; RLCA
    let m = run(&[0x3E, 0x81, 0x07], 2);
    assert_eq!((m.registers[A], m.registers[F]), (0x03, 0x10));
    // LD A, 0x01; RRCA
    let m = run(&[0x3E, 0x01, 0x0F], 2);
    assert_eq!((m.registers[A], m.registers[F]), (0x80, 0x10));
}

#[test]
fn push_and_pop_pairs() {
    // LD BC, 0x1234; PUSH BC; POP DE
    let m = run(&[0x01, 0x34, 0x12, 0xC5, 0xD1], 3);
    assert_eq!((m.registers[D], m.registers[E]), (0x12, 0x34));
    assert_eq!(m.sp, 0xFFFE);
}

#[test]
fn pop_af_clears_low_flag_bits() {
    // LD BC, 0x12FF; PUSH BC; POP AF
    let m = run(&[0x01, 0xFF, 0x12, 0xC5, 0xF1], 3);
    assert_eq!((m.registers[A], m.registers[F]), (0x12, 0xF0));
}

#[test]
fn call_and_return() {
    // 0100: CALL 0x0108; 0103: NOP ... 0108: RET
    let mut gb = loaded(&[0xCD, 0x08, 0x01, 0x00, 0x00, 0x00, 0x00, 0x00, 0xC9]);
    gb.step().unwrap();
    let m = gb.metadata();
    assert_eq!((m.pc, m.sp), (0x0108, 0xFFFC));
    gb.step().unwrap();
    let m = gb.metadata();
    assert_eq!((m.pc, m.sp), (0x0103, 0xFFFE));
}

#[test]
fn relative_jump_backwards() {
    // JR -2 jumps to itself.
    let m = run(&[0x18, 0xFE], 3);
    assert_eq!(m.pc, 0x0100);
}

#[test]
fn conditional_jump_follows_zero_flag() {
    // XOR A sets Z; JR Z, +2 skips two bytes; JR NZ is not taken.
    let m = run(&[0xAF, 0x28, 0x02, 0x00, 0x00, 0x20, 0x10], 3);
    assert_eq!(m.pc, 0x0107);
}

#[test]
fn echo_ram_mirrors_work_ram() {
    // LD A, 0x5A; LD (0xC000), A; LD A, 0x00; LD A, (0xE000)
    let m = run(&[0x3E, 0x5A, 0xEA, 0x00, 0xC0, 0x3E, 0x00, 0xFA, 0x00, 0xE0], 4);
    assert_eq!(m.registers[A], 0x5A);
}

#[test]
fn writes_to_rom_are_ignored() {
    // LD A, 0x77; LD (0x0100), A
    let m = run(&[0x3E, 0x77, 0xEA, 0x00, 0x01], 2);
    assert_eq!(m.memory[0x100], 0x3E);
}

#[test]
fn halt_until_button_press() {
    // HALT; NOP
    let mut gb = loaded(&[0x76, 0x00]);
    gb.step().unwrap();
    gb.step().unwrap();
    assert_eq!(gb.metadata().pc, 0x0101);
    gb.set_input_state(&[false, false, false, false, true, false, false, false]);
    gb.step().unwrap();
    assert_eq!(gb.metadata().pc, 0x0102);
}

#[test]
fn short_poll_is_ignored() {
    let mut gb = loaded(&[0x76, 0x00]);
    gb.step().unwrap();
    gb.set_input_state(&[true, true]);
    gb.step().unwrap();
    assert_eq!(gb.metadata().pc, 0x0101);
}

#[test]
fn background_is_rendered_once_per_frame() {
    // LD A, 0x80; LD (0x8000), A; then JR -2 forever.
    let mut gb = loaded(&[0x3E, 0x80, 0xEA, 0x00, 0x80, 0x18, 0xFE]);
    gb.step().unwrap();
    gb.step().unwrap();
    assert_eq!(gb.framebuffer()[0], LIGHT_GREEN);
    for _ in 0..6000 {
        gb.step().unwrap();
    }
    assert_eq!(gb.framebuffer()[0], DARK_GREEN);
    assert_eq!(gb.framebuffer()[1], LIGHT_GREEN);
}

#[test]
fn restart_pushes_and_jumps() {
    let m = run(&[0xEF], 1);
    assert_eq!((m.pc, m.sp), (0x0028, 0xFFFC));
}

#[test]
fn stack_pointer_offset() {
    // LD SP, 0xFFF8; ADD SP, -8
    let m = run(&[0x31, 0xF8, 0xFF, 0xE8, 0xF8], 2);
    assert_eq!(m.sp, 0xFFF0);
    assert_eq!(m.registers[F], 0x30);
}

#[test]
fn interrupt_enable_and_disable() {
    let m = run(&[0xF3], 1);
    assert!(!m.ime);
    let m = run(&[0xF3, 0xFB], 2);
    assert!(m.ime);
}

#[test]
fn timers_leave_audio_alone() {
    let mut gb = loaded(&[0x00]);
    assert_eq!(gb.update_timers(), AudioCue::Keep);
}

#[test]
fn opcode_cycle_table() {
    assert_eq!(get_opcode_cycles(0x00), (4, 4));
    assert_eq!(get_opcode_cycles(0x01), (8, 8));
    assert_eq!(get_opcode_cycles(0x20), (8, 8));
    assert_eq!(get_opcode_cycles(0x28), (4, 4));
    assert_eq!(get_opcode_cycles(0xC0), (8, 20));
    assert_eq!(get_opcode_cycles(0xC2), (12, 16));
    assert_eq!(get_opcode_cycles(0xC4), (12, 24));
    assert_eq!(get_opcode_cycles(0xCD), (16, 16));
    assert_eq!(get_opcode_cycles(0xE0), (12, 12));
    assert_eq!(get_opcode_cycles(0xFF), (16, 16));
    assert_eq!(get_opcode_cycles(0xD3), (4, 4));
}

#[test]
fn cb_opcode_cycle_table() {
    assert_eq!(get_cb_opcode_cycles(0x00), 8);
    assert_eq!(get_cb_opcode_cycles(0x06), 16);
    assert_eq!(get_cb_opcode_cycles(0x46), 12);
    assert_eq!(get_cb_opcode_cycles(0x47), 8);
    assert_eq!(get_cb_opcode_cycles(0x86), 16);
    assert_eq!(get_cb_opcode_cycles(0xFE), 16);
}

#[test]
fn gameboy_keymap_labels() {
    let gb = GameBoyEmulator::new();
    let keys = gb.keymap();
    assert_eq!(keys.len(), 8);
    assert_eq!(keys[2], (2, "Return".to_string()));
    assert_eq!(keys[7], (7, "Right".to_string()));
}

#[test]
fn opcode_without_instruction_is_unrecognized() {
    // NOP; then D3, which has no instruction.
    let mut gb = loaded(&[0x00, 0xD3, 0x00]);
    gb.step().unwrap();
    let r = gb.step();
    assert!(matches!(r, Err(EmuError::UnrecognizedOpcode { opcode: 0xD3, pc: 0x0101 })));
    let m = gb.metadata();
    assert_eq!((m.pc, m.current_opcode), (0x0102, 0xD3));
    for op in [0xDBu8, 0xDD, 0xE3, 0xE4, 0xEB, 0xEC, 0xED, 0xF4, 0xFC, 0xFD] {
        let mut gb = loaded(&[op]);
        assert!(matches!(gb.step(), Err(EmuError::UnrecognizedOpcode { pc: 0x0100, .. })));
    }
}

#[test]
fn daa_wraps_decimal_sum_past_99() {
    // LD A, 0x99; ADD A, 0x01; DAA
    let m = run(&[0x3E, 0x99, 0xC6, 0x01, 0x27], 3);
    assert_eq!(m.registers[A], 0x00);
    assert_eq!(m.registers[F], 0x90);
    // LD A, 0x58; ADD A, 0x67; DAA: 58 + 67 = 125
    let m = run(&[0x3E, 0x58, 0xC6, 0x67, 0x27], 3);
    assert_eq!(m.registers[A], 0x25);
    assert_eq!(m.registers[F], 0x10);
}
