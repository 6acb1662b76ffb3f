use emu_core::chip8::{Chip8Emulator, Chip8Metadata, PIXEL_OFF, PIXEL_ON};
use emu_core::cpu::Cpu;
use emu_core::emulator::{timer_cue, AudioCue, Emulator};
use emu_core::error::{EmuError, UsageHint};
use emu_core::lcg::Lcg;

fn loaded(program: &[u8]) -> Chip8Emulator {
    let mut emu = Chip8Emulator::new();
    emu.load_rom(program).unwrap();
    emu
}

fn run(program: &[u8], steps: usize) -> Chip8Metadata {
    let mut emu = loaded(program);
    for _ in 0..steps {
        emu.step().unwrap();
    }
    emu.metadata()
}

/// Runs `V0 = a; V1 = b; 8 0 1 sel` and returns (V0, VF).
fn alu(a: u8, b: u8, sel: u8) -> (u8, u8) {
    let m = run(&[0x60, a, 0x61, b, 0x80, 0x10 | sel], 3);
    (m.registers[0], m.registers[15])
}

#[test]
fn lcg_sequence() {
    let mut lcg = Lcg::new(75, 1, 31);
    assert_eq!(lcg.next(), 22);
    assert_eq!(lcg.next(), 115);
}

#[test]
fn power_up_state() {
    let emu = Chip8Emulator::new();
    let m = emu.metadata();
    assert_eq!(m.program_counter, 0x200);
    assert_eq!(m.stack_pointer, 0);
    assert_eq!(m.registers, [0; 16]);
    assert_eq!(&m.memory[0x50..0x55], &[0xF0, 0x90, 0x90, 0x90, 0xF0]);
    assert_eq!(&m.memory[0x9B..0xA0], &[0xF0, 0x80, 0xF0, 0x80, 0x80]);
    assert_eq!(emu.resolution(), (64, 32));
    assert_eq!(emu.system_name(), "CHIP-8");
}

#[test]
fn alu_add_carry_table() {
    assert_eq!(alu(0xFF, 0x01, 4), (0x00, 1));
    assert_eq!(alu(0x80, 0x80, 4), (0x00, 1));
    assert_eq!(alu(0x7F, 0x01, 4), (0x80, 0));
    assert_eq!(alu(0xFE, 0x01, 4), (0xFF, 0));
}

#[test]
fn alu_sub_borrow_table() {
    assert_eq!(alu(0x00, 0x01, 5), (0xFF, 0));
    assert_eq!(alu(0x05, 0x05, 5), (0x00, 1));
    assert_eq!(alu(0x10, 0x01, 5), (0x0F, 1));
    // SUBN: V0 = V1 - V0
    assert_eq!(alu(0x01, 0x00, 7), (0xFF, 0));
    assert_eq!(alu(0x01, 0x03, 7), (0x02, 1));
}

#[test]
fn alu_shifts_read_the_bit_before_shifting() {
    assert_eq!(alu(0x00, 0x03, 6), (0x01, 1));
    assert_eq!(alu(0x00, 0x02, 6), (0x01, 0));
    assert_eq!(alu(0x00, 0x81, 0xE), (0x02, 1));
    assert_eq!(alu(0x00, 0x41, 0xE), (0x82, 0));
}

#[test]
fn alu_logic_clears_flag() {
    // VF is loaded with 1 first, then cleared by OR, AND and XOR.
    for (sel, expected) in [(1u8, 0xF3u8), (2, 0x30), (3, 0xC3)] {
        let m = run(&[0x6F, 0x01, 0x60, 0xF0, 0x61, 0x33, 0x80, 0x10 | sel], 4);
        assert_eq!(m.registers[0], expected);
        assert_eq!(m.registers[15], 0);
    }
    assert_eq!(alu(0x12, 0x34, 0), (0x34, 0));
}

#[test]
fn alu_unknown_selector_is_invalid_usage() {
    let mut emu = loaded(&[0x80, 0x1F]);
    let r = emu.step();
    assert!(matches!(
        r,
        Err(EmuError::InvalidOpcodeUsage { opcode: 0x801F, pc: 0x202, hint: UsageHint::AluSelector })
    ));
    assert_eq!(emu.metadata().program_counter, 0x202);
}

#[test]
fn clear_display_after_drawing_blanks_framebuffer() {
    let mut emu = loaded(&[0xF0, 0x29, 0xD0, 0x05, 0x00, 0xE0]);
    emu.step().unwrap();
    emu.step().unwrap();
    assert!(emu.framebuffer().iter().any(|&p| p == PIXEL_ON));
    emu.step().unwrap();
    assert!(emu.framebuffer().iter().all(|&p| p == PIXEL_OFF));
    assert_eq!(emu.framebuffer().len(), 64 * 32);
}

#[test]
fn draw_collision_and_xor_restore() {
    // V0 = 0, V1 = 0, I = glyph of 0, draw 5 rows twice.
    let mut emu = loaded(&[0x60, 0x00, 0x61, 0x00, 0xF0, 0x29, 0xD0, 0x15, 0xD0, 0x15]);
    for _ in 0..4 {
        emu.step().unwrap();
    }
    let fb = emu.framebuffer();
    assert_eq!(&fb[0..5], &[PIXEL_ON, PIXEL_ON, PIXEL_ON, PIXEL_ON, PIXEL_OFF]);
    assert_eq!(&fb[64..69], &[PIXEL_ON, PIXEL_OFF, PIXEL_OFF, PIXEL_ON, PIXEL_OFF]);
    assert_eq!(emu.metadata().registers[15], 0);
    emu.step().unwrap();
    assert!(emu.framebuffer().iter().all(|&p| p == PIXEL_OFF));
    assert_eq!(emu.metadata().registers[15], 1);
}

#[test]
fn draw_without_collision_on_disjoint_sprite() {
    // Glyph 0 at (0,0), then glyph 0 at (8,0): no pixel is turned off.
    let mut emu =
        loaded(&[0x60, 0x00, 0x61, 0x00, 0xF0, 0x29, 0xD0, 0x15, 0x60, 0x08, 0xD0, 0x15]);
    for _ in 0..6 {
        emu.step().unwrap();
    }
    assert_eq!(emu.metadata().registers[15], 0);
    assert_eq!(emu.framebuffer()[8], PIXEL_ON);
}

#[test]
fn draw_wraps_at_screen_edge() {
    // V0 = 62, V1 = 31: the top row of the glyph lands on columns 62, 63, 0, 1 of row 31,
    // the next rows on rows 0 to 3.
    let mut emu = loaded(&[0x60, 62, 0x61, 31, 0x62, 0x00, 0xF2, 0x29, 0xD0, 0x15]);
    for _ in 0..5 {
        emu.step().unwrap();
    }
    let fb = emu.framebuffer();
    let row31 = 31 * 64;
    assert_eq!(fb[row31 + 62], PIXEL_ON);
    assert_eq!(fb[row31 + 63], PIXEL_ON);
    assert_eq!(fb[row31], PIXEL_ON);
    assert_eq!(fb[row31 + 1], PIXEL_ON);
    assert_eq!(fb[row31 + 2], PIXEL_OFF);
    assert_eq!(fb[62], PIXEL_ON);
    assert_eq!(fb[63], PIXEL_OFF);
    assert_eq!(fb[1], PIXEL_ON);
}

#[test]
fn cpu_draw_clips_at_screen_edge() {
    let mut cpu = Cpu::new();
    let program = [0x60, 62, 0x61, 31, 0x62, 0x00, 0xF2, 0x29, 0xD0, 0x15];
    cpu.memory[0x200..0x200 + program.len()].copy_from_slice(&program);
    for _ in 0..5 {
        cpu.execute_instruction().unwrap();
    }
    let row31 = 31 * 64;
    assert!(cpu.buffer[row31 + 62]);
    assert!(cpu.buffer[row31 + 63]);
    assert!(!cpu.buffer[row31]);
    assert!(!cpu.buffer[62]);
    assert!(cpu.buffer.iter().filter(|&&p| p).count() == 2);
    assert!(cpu.to_draw);
}

#[test]
fn cpu_power_up_font_and_timers() {
    let mut cpu = Cpu::new();
    assert_eq!(cpu.program_counter, 0x200);
    assert_eq!(&cpu.memory[0x50..0x55], &[0xF0, 0x90, 0x90, 0x90, 0xF0]);
    cpu.sound_timer = 2;
    cpu.delay_timer = 1;
    assert_eq!(cpu.update_timers(), AudioCue::Play);
    assert_eq!((cpu.delay_timer, cpu.sound_timer), (0, 1));
    assert_eq!(cpu.update_timers(), AudioCue::Play);
    assert_eq!(cpu.update_timers(), AudioCue::Pause);
    assert_eq!((cpu.delay_timer, cpu.sound_timer), (0, 0));
    cpu.is_mute = true;
    assert_eq!(cpu.update_timers(), AudioCue::Keep);
}

#[test]
fn bcd_store_every_value() {
    for v in 0..=255u8 {
        let mut cpu = Cpu::new();
        cpu.memory[0x200] = 0xF3;
        cpu.memory[0x201] = 0x33;
        cpu.registers[3] = v;
        cpu.index_register = 0x300;
        cpu.execute_instruction().unwrap();
        assert_eq!(&cpu.memory[0x300..0x303], &[v / 100, (v / 10) % 10, v % 10]);
        assert_eq!(cpu.memory[0x303], 0);
        assert_eq!(cpu.index_register, 0x300);
    }
}

#[test]
fn bcd_store_past_memory_is_invalid_memory_access() {
    let mut emu = loaded(&[0xAF, 0xFE, 0xF0, 0x33]);
    emu.step().unwrap();
    let r = emu.step();
    assert!(matches!(r, Err(EmuError::InvalidMemoryAccess { addr: 4096, pc: 0x204 })));
}

#[test]
fn block_store_and_load_advance_index() {
    // V0..V2 = 1, 2, 3; I = 0x300; store V0..V2 (I becomes 0x303); load V0..V2 from
    // 0x303 on, which holds zeros (I becomes 0x306); I = 0x300; load V0..V2 back.
    let program =
        [0x60, 1, 0x61, 2, 0x62, 3, 0xA3, 0x00, 0xF2, 0x55, 0xF2, 0x65, 0xA3, 0x00, 0xF2, 0x65];
    let m = run(&program, 5);
    assert_eq!(&m.memory[0x300..0x303], &[1, 2, 3]);
    assert_eq!(m.index_register, 0x303);
    let m = run(&program, 6);
    assert_eq!(&m.registers[0..3], &[0, 0, 0]);
    assert_eq!(m.index_register, 0x306);
    let m = run(&program, 8);
    assert_eq!(&m.registers[0..3], &[1, 2, 3]);
    assert_eq!(m.index_register, 0x303);
}

#[test]
fn call_return_is_lifo() {
    // 0x200: CALL 0x206; 0x202: JP 0x202
    // 0x206: CALL 0x20A; 0x208: RET
    // 0x20A: RET
    let mut emu = loaded(&[0x22, 0x06, 0x12, 0x02, 0x00, 0x00, 0x22, 0x0A, 0x00, 0xEE, 0x00, 0xEE]);
    emu.step().unwrap();
    assert_eq!(emu.metadata().program_counter, 0x206);
    emu.step().unwrap();
    let m = emu.metadata();
    assert_eq!((m.program_counter, m.stack_pointer), (0x20A, 2));
    assert_eq!(&m.stack[0..2], &[0x202, 0x208]);
    emu.step().unwrap();
    assert_eq!(emu.metadata().program_counter, 0x208);
    emu.step().unwrap();
    let m = emu.metadata();
    assert_eq!((m.program_counter, m.stack_pointer), (0x202, 0));
}

#[test]
fn return_on_empty_stack_is_invalid_stack_access() {
    let mut emu = loaded(&[0x00, 0xEE]);
    let r = emu.step();
    assert!(matches!(r, Err(EmuError::InvalidStackAccess { sp: 255, pc: 0x202 })));
    assert_eq!(emu.metadata().stack_pointer, 0);
}

#[test]
fn call_to_own_address_overflows_stack() {
    let mut emu = loaded(&[0x22, 0x00]);
    for _ in 0..16 {
        emu.step().unwrap();
    }
    assert_eq!(emu.metadata().stack_pointer, 16);
    let r = emu.step();
    assert!(matches!(r, Err(EmuError::InvalidStackAccess { sp: 16, pc: 0x202 })));
    assert_eq!(emu.metadata().stack_pointer, 16);
}

#[test]
fn call_program_scenario() {
    // The two bytes 22 02 call 0x202, where the zero word is not an instruction.
    let mut emu = loaded(&[0x22, 0x02]);
    emu.step().unwrap();
    assert_eq!(emu.metadata().stack_pointer, 1);
    let r = emu.step();
    assert!(matches!(r, Err(EmuError::UnrecognizedOpcode { opcode: 0, pc: 0x204 })));
}

#[test]
fn key_wait_blocks_until_press_and_release() {
    let mut emu = loaded(&[0xF3, 0x0A, 0x00, 0xE0]);
    for _ in 0..3 {
        emu.step().unwrap();
        assert_eq!(emu.metadata().program_counter, 0x200);
    }
    let mut keys = [false; 16];
    keys[5] = true;
    keys[9] = true;
    emu.set_input_state(&keys);
    emu.step().unwrap();
    let m = emu.metadata();
    assert_eq!((m.program_counter, m.registers[3]), (0x200, 5));
    emu.step().unwrap();
    assert_eq!(emu.metadata().program_counter, 0x200);
    emu.set_input_state(&[false; 16]);
    emu.step().unwrap();
    assert_eq!(emu.metadata().program_counter, 0x202);
}

#[test]
fn skip_if_key_uses_register_modulo_16() {
    // V0 = 0x13 selects key 3.
    let mut keys = [false; 16];
    keys[3] = true;
    let mut emu = loaded(&[0x60, 0x13, 0xE0, 0x9E]);
    emu.set_input_state(&keys);
    emu.step().unwrap();
    emu.step().unwrap();
    assert_eq!(emu.metadata().program_counter, 0x206);
    let mut emu = loaded(&[0x60, 0x13, 0xE0, 0xA1]);
    emu.set_input_state(&keys);
    emu.step().unwrap();
    emu.step().unwrap();
    assert_eq!(emu.metadata().program_counter, 0x204);
}

#[test]
fn short_input_poll_releases_remaining_keys() {
    let mut emu = loaded(&[0xE0, 0x9E]);
    emu.set_input_state(&[true; 16]);
    emu.set_input_state(&[false, true]);
    emu.step().unwrap();
    // Key 0 is released, so no skip.
    assert_eq!(emu.metadata().program_counter, 0x202);
}

#[test]
fn clear_display_scenario() {
    let mut emu = loaded(&[0x00, 0xE0]);
    emu.step().unwrap();
    assert!(emu.framebuffer().iter().all(|&p| p == PIXEL_OFF));
    assert_eq!(emu.metadata().program_counter, 0x202);
}

#[test]
fn load_and_add_scenario() {
    let m = run(&[0x60, 0x05, 0x70, 0x01], 2);
    assert_eq!(m.registers[0], 0x06);
}

#[test]
fn add_immediate_wraps_without_flag() {
    let m = run(&[0x6F, 0x07, 0x60, 0xFF, 0x70, 0x02], 3);
    assert_eq!(m.registers[0], 0x01);
    assert_eq!(m.registers[15], 0x07);
}

#[test]
fn skips_and_jumps() {
    // SE V0, 0 skips; SNE V0, 0 does not; SE V0, V1 skips; SNE V0, V1 does not.
    assert_eq!(run(&[0x30, 0x00], 1).program_counter, 0x204);
    assert_eq!(run(&[0x40, 0x00], 1).program_counter, 0x202);
    assert_eq!(run(&[0x50, 0x10], 1).program_counter, 0x204);
    assert_eq!(run(&[0x90, 0x10], 1).program_counter, 0x202);
    assert_eq!(run(&[0x1A, 0xBC], 1).program_counter, 0xABC);
    assert_eq!(run(&[0x60, 0x10, 0xB3, 0x00], 2).program_counter, 0x310);
}

#[test]
fn reg_reg_skip_needs_zero_last_nibble() {
    for op in [[0x50u8, 0x11u8], [0x50, 0x12], [0x90, 0x1F]] {
        let mut emu = loaded(&op);
        let r = emu.step();
        assert!(matches!(
            r,
            Err(EmuError::InvalidOpcodeUsage { pc: 0x202, hint: UsageHint::LastNibbleZero, .. })
        ));
    }
}

#[test]
fn unknown_opcodes_are_reported() {
    let mut emu = loaded(&[0x01, 0x23]);
    assert!(matches!(emu.step(), Err(EmuError::UnrecognizedOpcode { opcode: 0x0123, pc: 0x202 })));
    let mut emu = loaded(&[0xE0, 0xFF]);
    assert!(matches!(
        emu.step(),
        Err(EmuError::InvalidOpcodeUsage { opcode: 0xE0FF, hint: UsageHint::KeySelector, .. })
    ));
    let mut emu = loaded(&[0xF0, 0xFF]);
    assert!(matches!(
        emu.step(),
        Err(EmuError::InvalidOpcodeUsage { opcode: 0xF0FF, hint: UsageHint::MiscSelector, .. })
    ));
    assert_eq!(UsageHint::LastNibbleZero.text(), " (Set last nibble to 0)");
}

#[test]
fn draw_past_memory_is_invalid_memory_access() {
    let mut emu = loaded(&[0xAF, 0xFF, 0xD0, 0x02]);
    emu.step().unwrap();
    let r = emu.step();
    assert!(matches!(r, Err(EmuError::InvalidMemoryAccess { addr: 4096, pc: 0x204 })));
    assert_eq!(emu.metadata().registers[15], 0);
    assert!(emu.framebuffer().iter().all(|&p| p == PIXEL_OFF));
}

#[test]
fn reset_releases_keys() {
    // SKP V0 with key 0 held would skip; after a reset key 0 reads as released.
    let mut emu = loaded(&[0xE0, 0x9E]);
    emu.set_input_state(&[true; 16]);
    emu.reset();
    emu.step().unwrap();
    assert_eq!(emu.metadata().program_counter, 0x202);
}

#[test]
fn reset_rewrites_the_font() {
    // I = 0x50; store V0 (zero) over the first font byte.
    let mut emu = loaded(&[0xA0, 0x50, 0xF0, 0x55]);
    emu.step().unwrap();
    emu.step().unwrap();
    assert_eq!(emu.metadata().memory[0x50], 0x00);
    emu.reset();
    assert_eq!(&emu.metadata().memory[0x50..0x55], &[0xF0, 0x90, 0x90, 0x90, 0xF0]);
    assert_eq!(emu.metadata().memory[0x200], 0xA0);
    emu.step().unwrap();
    emu.step().unwrap();
    emu.load_rom(&[0x00, 0xE0]).unwrap();
    assert_eq!(emu.metadata().memory[0x50], 0xF0);
}

#[test]
fn fetch_past_memory_is_invalid_memory_access() {
    let mut emu = loaded(&[0x1F, 0xFF]);
    emu.step().unwrap();
    let r = emu.step();
    assert!(matches!(r, Err(EmuError::InvalidMemoryAccess { addr: 4096, pc: 0xFFF })));
    assert_eq!(emu.metadata().program_counter, 0xFFF);
}

#[test]
fn rom_size_limits() {
    let mut emu = Chip8Emulator::new();
    let r = emu.load_rom(&vec![0u8; 3585]);
    assert!(matches!(r, Err(EmuError::InvalidRom { size: 3585, capacity: 3584 })));
    let big = vec![0xAAu8; 3584];
    emu.load_rom(&big).unwrap();
    let m = emu.metadata();
    assert_eq!(m.memory[0x200], 0xAA);
    assert_eq!(m.memory[0xFFF], 0xAA);
    assert_eq!(m.memory[0x50], 0xF0);
}

#[test]
fn failed_load_keeps_state() {
    let mut emu = loaded(&[0x60, 0x05]);
    emu.step().unwrap();
    assert!(emu.load_rom(&vec![0u8; 4000]).is_err());
    let m = emu.metadata();
    assert_eq!((m.program_counter, m.registers[0]), (0x202, 5));
}

#[test]
fn reset_restores_power_up_registers_and_keeps_program() {
    let mut emu = loaded(&[0x60, 0x05, 0x22, 0x00]);
    emu.step().unwrap();
    emu.step().unwrap();
    emu.reset();
    let m = emu.metadata();
    assert_eq!((m.program_counter, m.stack_pointer, m.registers[0]), (0x200, 0, 0));
    assert_eq!(m.memory[0x200], 0x60);
    assert!(emu.framebuffer().iter().all(|&p| p == 0));
}

#[test]
fn timers_count_down_and_cue_the_beep() {
    let mut emu = loaded(&[0x60, 0x02, 0xF0, 0x18, 0xF0, 0x15, 0xF1, 0x07]);
    for _ in 0..3 {
        emu.step().unwrap();
    }
    assert!(emu.sound_active());
    assert_eq!(emu.update_timers(), AudioCue::Play);
    assert_eq!(emu.update_timers(), AudioCue::Play);
    assert_eq!(emu.update_timers(), AudioCue::Pause);
    let m = emu.metadata();
    assert_eq!((m.sound_timer, m.delay_timer), (0, 0));
    assert!(!emu.sound_active());
    emu.step().unwrap();
    assert_eq!(emu.metadata().registers[1], 0);
    emu.set_mute(true);
    assert_eq!(emu.update_timers(), AudioCue::Keep);
    assert_eq!(timer_cue(1, false), AudioCue::Play);
}

#[test]
fn random_byte_is_masked_generator_output() {
    let m = run(&[0xC0, 0xFF, 0xC1, 0x0F], 2);
    assert_eq!(m.registers[0], 22);
    assert_eq!(m.registers[1], 115 & 0x0F);
}

#[test]
fn font_address_and_index_add() {
    let m = run(&[0x60, 0x1A, 0xF0, 0x29], 2);
    assert_eq!(m.index_register, 0x50 + 10 * 5);
    let m = run(&[0xAF, 0xFF, 0x60, 0x02, 0xF0, 0x1E], 3);
    assert_eq!(m.index_register, 0x1001);
}

#[test]
fn chip8_keymap_labels() {
    let emu = Chip8Emulator::new();
    let keys = emu.keymap();
    assert_eq!(keys.len(), 16);
    assert_eq!(keys[0], (0, "X".to_string()));
    assert_eq!(keys[4], (4, "Q".to_string()));
    assert_eq!(keys[15], (15, "V".to_string()));
}
