//! A partial Game Boy CPU: the memory map, register pairs, flags, the arithmetic
//! helpers, and the execution of the implemented instructions.
use crate::emulator::{keymap_of, AudioCue, Emulator};
use crate::chip8_model::write_block;
use crate::error::EmuError;
use crate::gameboy_model::{
    add_hl, advance, alu, background, high_branch, high_control, high_group, high_jump,
    high_memory, high_stack, base_indirect, base_jumps, base_singles, base_step16,
    base_wide, condition, daa, dec_flags, exec_alu_block, exec_base_block, exec_high_block, exec_cb,
    exec_load_block, flag, gb_illegal, gb_instruction, gb_read, gb_write, high_byte, hl, imm8, inc_flags,
    operand, pair, pair16, pop, push, read_word, reg_of, rotate_a, set_f, set_operand, set_pair16,
    set_reg, sign_extend, sp_offset_flags, with_flag, with_flags, with_pair, wrap8, write_word,
    GbState, CYCLES_PER_FRAME, DARK_GREEN, FLAG_C, FLAG_H, FLAG_N, FLAG_Z, GB_HEIGHT, GB_PIXELS,
    GB_ROM_CAPACITY, GB_WIDTH, LIGHT_GREEN, REG_A, REG_B, REG_C, REG_D, REG_E, REG_F, REG_H,
    REG_L,
};
use vstd::prelude::*;

verus! {

/// Game Boy specific metadata: a copy of the CPU state for debugging views.
#[derive(Debug, Clone)]
pub struct GameBoyMetadata {
    /// A, F, B, C, D, E, H, L.
    pub registers: [u8; 8],
    pub sp: u16,
    pub pc: u16,
    /// The first 4 KiB of memory.
    pub memory: Vec<u8>,
    pub current_opcode: u8,
    /// Interrupt master enable.
    pub ime: bool,
}

/// Game Boy emulator.
pub struct GameBoyEmulator {
    /// A, F, B, C, D, E, H, L.
    registers: [u8; 8],
    sp: u16,
    pc: u16,
    memory: [u8; 65536],
    framebuffer: [u32; 23040],
    current_opcode: u8,
    /// Interrupt master enable.
    ime: bool,
    /// Eight buttons.
    input_keys: [bool; 8],
    rom_loaded: bool,
    /// CPU cycle counter.
    cycles: u64,
    halted: bool,
    /// Video RAM.
    vram: [u8; 8192],
    /// Object attribute memory.
    oam: [u8; 160],
}

impl View for GameBoyEmulator {
    type V = GbState;

    closed spec fn view(&self) -> GbState {
        GbState {
            registers: self.registers@,
            sp: self.sp,
            pc: self.pc,
            memory: self.memory@,
            vram: self.vram@,
            oam: self.oam@,
            ime: self.ime,
            halted: self.halted,
            rom_loaded: self.rom_loaded,
            cycles: self.cycles,
            opcode: self.current_opcode,
            keys: self.input_keys@,
            framebuffer: self.framebuffer@,
        }
    }
}

/// Labels of the physical keys bound to the buttons A, B, Start, Select, Up, Down, Left
/// and Right.
pub const GB_KEY_LABELS: [&'static str; 8] = ["X", "Z", "Return", "RShift", "Up", "Down", "Left", "Right"];

/// The register state after `reset`.
pub open spec fn power_up_registers() -> Seq<u8> {
    seq![0x01u8, 0xB0, 0x00, 0x13, 0x00, 0xD8, 0x01, 0x4D]
}

/// The state after `reset`: power-up registers, SP FFFE, PC 0100, interrupts enabled,
/// cycle count zero, running, video RAM cleared, buttons released and the screen light
/// green; memory, object attributes and the loaded flag are kept.
pub open spec fn gb_reset_state(s: GbState) -> GbState {
    GbState {
        registers: power_up_registers(),
        sp: 0xFFFE,
        pc: 0x0100,
        ime: true,
        cycles: 0,
        halted: false,
        vram: Seq::new(0x2000, |i: int| 0u8),
        keys: Seq::new(8, |i: int| false),
        framebuffer: Seq::new(GB_PIXELS as nat, |i: int| LIGHT_GREEN),
        ..s
    }
}

/// Register index of an operand code: B, C, D, E, H, L, (HL), A.
fn reg_index(code: u8) -> (r: usize)
    requires
        code < 8,
        code != 6,
    ensures
        r == reg_of(code as int),
        r < 8,
{
    if code == 7 {
        REG_A
    } else {
        code as usize + 2
    }
}

impl GameBoyEmulator {
    pub fn new() -> (r: GameBoyEmulator)
        ensures
            r@.wf(),
            r@.registers == Seq::new(8, |i: int| 0u8),
            r@.sp == 0xFFFE && r@.pc == 0x0100,
            r@.memory == Seq::new(0x10000, |i: int| 0u8),
            r@.vram == Seq::new(0x2000, |i: int| 0u8),
            r@.oam == Seq::new(0xA0, |i: int| 0u8),
            r@.framebuffer == Seq::new(GB_PIXELS as nat, |i: int| LIGHT_GREEN),
            r@.keys == Seq::new(8, |i: int| false),
            r@.ime && !r@.halted && !r@.rom_loaded,
            r@.cycles == 0 && r@.opcode == 0,
    {
        let r = GameBoyEmulator {
            registers: [0u8; 8],
            sp: 0xFFFE,
            pc: 0x0100,
            memory: [0u8; 65536],
            framebuffer: [LIGHT_GREEN; 23040],
            current_opcode: 0,
            ime: true,
            input_keys: [false; 8],
            rom_loaded: false,
            cycles: 0,
            halted: false,
            vram: [0u8; 8192],
            oam: [0u8; 160],
        };
        assert(r@.registers =~= Seq::new(8, |i: int| 0u8));
        assert(r@.memory =~= Seq::new(0x10000, |i: int| 0u8));
        assert(r@.vram =~= Seq::new(0x2000, |i: int| 0u8));
        assert(r@.oam =~= Seq::new(0xA0, |i: int| 0u8));
        assert(r@.framebuffer =~= Seq::new(GB_PIXELS as nat, |i: int| LIGHT_GREEN));
        assert(r@.keys =~= Seq::new(8, |i: int| false));
        r
    }

    fn get_bc(&self) -> (r: u16)
        ensures
            r == pair(self@.registers[REG_B as int], self@.registers[REG_C as int]),
    {
        self.registers[REG_B] as u16 * 256 + self.registers[REG_C] as u16
    }

    fn set_bc(&mut self, value: u16)
        ensures
            final(self)@ == (GbState {
                registers: with_pair(old(self)@.registers, REG_B as int, REG_C as int, value),
                ..old(self)@
            }),
    {
        self.registers[REG_B] = (value / 256) as u8;
        self.registers[REG_C] = (value % 256) as u8;
    }

    fn get_de(&self) -> (r: u16)
        ensures
            r == pair(self@.registers[REG_D as int], self@.registers[REG_E as int]),
    {
        self.registers[REG_D] as u16 * 256 + self.registers[REG_E] as u16
    }

    fn set_de(&mut self, value: u16)
        ensures
            final(self)@ == (GbState {
                registers: with_pair(old(self)@.registers, REG_D as int, REG_E as int, value),
                ..old(self)@
            }),
    {
        self.registers[REG_D] = (value / 256) as u8;
        self.registers[REG_E] = (value % 256) as u8;
    }

    fn get_hl(&self) -> (r: u16)
        ensures
            r == hl(self@),
    {
        self.registers[REG_H] as u16 * 256 + self.registers[REG_L] as u16
    }

    fn set_hl(&mut self, value: u16)
        ensures
            final(self)@ == (GbState {
                registers: with_pair(old(self)@.registers, REG_H as int, REG_L as int, value),
                ..old(self)@
            }),
    {
        self.registers[REG_H] = (value / 256) as u8;
        self.registers[REG_L] = (value % 256) as u8;
    }

    fn get_af(&self) -> (r: u16)
        ensures
            r == pair(self@.registers[REG_A as int], self@.registers[REG_F as int]),
    {
        self.registers[REG_A] as u16 * 256 + self.registers[REG_F] as u16
    }

    /// Sets A and F; the low four bits of F are always zero.
    fn set_af(&mut self, value: u16)
        ensures
            final(self)@ == (GbState {
                registers: old(self)@.registers.update(REG_A as int, high_byte(value)).update(
                    REG_F as int,
                    (value as int % 256 / 16 * 16) as u8,
                ),
                ..old(self)@
            }),
    {
        self.registers[REG_A] = (value / 256) as u8;
        self.registers[REG_F] = ((value % 256) / 16 * 16) as u8;
    }

    fn get_flag(&self, flag: u8) -> (r: bool)
        ensures
            r == (self@.registers[REG_F as int] & flag != 0),
    {
        (self.registers[REG_F] & flag) != 0
    }

    fn set_flag(&mut self, flag: u8, value: bool)
        ensures
            final(self)@ == set_f(old(self)@, with_flag(old(self)@.registers[REG_F as int], flag, value)),
    {
        if value {
            self.registers[REG_F] = self.registers[REG_F] | flag;
        } else {
            self.registers[REG_F] = self.registers[REG_F] & !flag;
        }
    }

    /// Reads a byte through the memory map.
    fn read_byte(&self, addr: u16) -> (r: u8)
        ensures
            r == gb_read(self@, addr),
    {
        match addr {
            0x0000..=0x7FFF => self.memory[addr as usize],  // ROM
            0x8000..=0x9FFF => self.vram[(addr - 0x8000) as usize],  // video RAM
            0xA000..=0xBFFF => self.memory[addr as usize],  // external RAM
            0xC000..=0xDFFF => self.memory[addr as usize],  // work RAM
            0xE000..=0xFDFF => self.memory[(addr - 0x2000) as usize],  // echo RAM
            0xFE00..=0xFE9F => self.oam[(addr - 0xFE00) as usize],  // object attributes
            0xFF00..=0xFFFF => self.memory[addr as usize],  // I/O and high RAM
            _ => 0xFF,
        }
    }

    /// Writes a byte through the memory map; ROM and the unusable range ignore writes.
    fn write_byte(&mut self, addr: u16, value: u8)
        ensures
            final(self)@ == gb_write(old(self)@, addr, value),
    {
        match addr {
            0x0000..=0x7FFF => {},
            0x8000..=0x9FFF => self.vram[(addr - 0x8000) as usize] = value,
            0xA000..=0xBFFF => self.memory[addr as usize] = value,
            0xC000..=0xDFFF => self.memory[addr as usize] = value,
            0xE000..=0xFDFF => self.memory[(addr - 0x2000) as usize] = value,
            0xFE00..=0xFE9F => self.oam[(addr - 0xFE00) as usize] = value,
            0xFF00..=0xFFFF => self.memory[addr as usize] = value,
            _ => {},
        }
    }

    fn read_word(&self, addr: u16) -> (r: u16)
        ensures
            r == read_word(self@, addr),
    {
        let lo = self.read_byte(addr) as u16;
        let hi = self.read_byte(addr.wrapping_add(1)) as u16;
        hi * 256 + lo
    }

    fn write_word(&mut self, addr: u16, value: u16)
        ensures
            final(self)@ == write_word(old(self)@, addr, value),
    {
        self.write_byte(addr, (value % 256) as u8);
        self.write_byte(addr.wrapping_add(1), (value / 256) as u8);
    }

    fn push(&mut self, value: u16)
        ensures
            final(self)@ == push(old(self)@, value),
    {
        self.sp = self.sp.wrapping_sub(2);
        self.write_word(self.sp, value);
    }

    fn pop(&mut self) -> (r: u16)
        ensures
            (final(self)@, r) == pop(old(self)@),
    {
        let value = self.read_word(self.sp);
        self.sp = self.sp.wrapping_add(2);
        value
    }

    /// Paints the framebuffer from video RAM, one bit per pixel.
    fn render_background(&mut self)
        ensures
            final(self)@ == (GbState { framebuffer: background(old(self)@.vram), ..old(self)@ }),
    {
        let mut y: usize = 0;
        while y < GB_HEIGHT
            invariant
                y <= GB_HEIGHT,
                self@ == (GbState { framebuffer: self@.framebuffer, ..old(self)@ }),
                self@.framebuffer.len() == GB_PIXELS,
                forall|i: int| 0 <= i < y * GB_WIDTH ==> #[trigger] self@.framebuffer[i] == background(self@.vram)[i],
            decreases GB_HEIGHT - y,
        {
            let mut x: usize = 0;
            while x < GB_WIDTH
                invariant
                    y < GB_HEIGHT,
                    x <= GB_WIDTH,
                    self@ == (GbState { framebuffer: self@.framebuffer, ..old(self)@ }),
                    self@.framebuffer.len() == GB_PIXELS,
                    forall|i: int| 0 <= i < y * GB_WIDTH + x ==> #[trigger] self@.framebuffer[i] == background(self@.vram)[i],
                decreases GB_WIDTH - x,
            {
                let pixel = y * GB_WIDTH + x;
                let byte_index = pixel / 8;
                let bit_index = (7 - pixel % 8) as u8;
                let pixel_on = (self.vram[byte_index] >> bit_index) & 1 != 0;
                self.framebuffer[pixel] = if pixel_on {
                    DARK_GREEN
                } else {
                    LIGHT_GREEN
                };
                x += 1;
            }
            y += 1;
        }
        assert(self@.framebuffer =~= background(old(self)@.vram));
    }
}

impl GameBoyEmulator {
    /// Increments `value`, setting Z, N and H; C is kept.
    fn inc_8bit(&mut self, value: u8) -> (r: u8)
        ensures
            r == wrap8(value + 1),
            final(self)@ == set_f(old(self)@, inc_flags(old(self)@.registers[REG_F as int], value)),
    {
        let result = value.wrapping_add(1);
        self.set_flag(FLAG_Z, result == 0);
        self.set_flag(FLAG_N, false);
        self.set_flag(FLAG_H, value % 16 == 15);
        assert(self@.registers =~= set_f(old(self)@, inc_flags(old(self)@.registers[REG_F as int], value)).registers);
        result
    }

    /// Decrements `value`, setting Z, N and H; C is kept.
    fn dec_8bit(&mut self, value: u8) -> (r: u8)
        ensures
            r == wrap8(value - 1),
            final(self)@ == set_f(old(self)@, dec_flags(old(self)@.registers[REG_F as int], value)),
    {
        let result = value.wrapping_sub(1);
        self.set_flag(FLAG_Z, result == 0);
        self.set_flag(FLAG_N, true);
        self.set_flag(FLAG_H, value % 16 == 0);
        assert(self@.registers =~= set_f(old(self)@, dec_flags(old(self)@.registers[REG_F as int], value)).registers);
        result
    }

    fn add_hl(&mut self, value: u16)
        ensures
            final(self)@ == add_hl(old(self)@, value),
    {
        let hl = self.get_hl();
        let result = hl.wrapping_add(value);
        self.set_flag(FLAG_N, false);
        self.set_flag(FLAG_H, hl % 4096 + value % 4096 > 4095);
        self.set_flag(FLAG_C, hl as u32 + value as u32 > 0xFFFF);
        self.set_hl(result);
        assert(self@.registers =~= add_hl(old(self)@, value).registers);
    }

    /// ADD A, value.
    fn add_a(&mut self, value: u8)
        ensures
            final(self)@ == alu(old(self)@, 0, value),
    {
        reveal(alu);
        let a = self.registers[REG_A];
        let result = a.wrapping_add(value);
        self.set_flag(FLAG_Z, result == 0);
        self.set_flag(FLAG_N, false);
        self.set_flag(FLAG_H, a % 16 + value % 16 > 15);
        self.set_flag(FLAG_C, a as u16 + value as u16 > 0xFF);
        self.registers[REG_A] = result;
        assert(self@.registers =~= alu(old(self)@, 0, value).registers);
    }

    /// ADC A, value: adds the carry too.
    fn adc(&mut self, value: u8)
        ensures
            final(self)@ == alu(old(self)@, 1, value),
    {
        reveal(alu);
        let a = self.registers[REG_A];
        let carry: u8 = if self.get_flag(FLAG_C) {
            1
        } else {
            0
        };
        let result = a.wrapping_add(value).wrapping_add(carry);
        self.set_flag(FLAG_Z, result == 0);
        self.set_flag(FLAG_N, false);
        self.set_flag(FLAG_H, a % 16 + value % 16 + carry > 15);
        self.set_flag(FLAG_C, a as u16 + value as u16 + carry as u16 > 0xFF);
        self.registers[REG_A] = result;
        assert(self@.registers =~= alu(old(self)@, 1, value).registers);
    }

    /// SUB A, value, or CP A, value when `keep` (A is then left as it is).
    fn sub_a(&mut self, value: u8, keep: bool)
        ensures
            final(self)@ == alu(
                old(self)@,
                if keep {
                    7
                } else {
                    2
                },
                value,
            ),
    {
        reveal(alu);
        let a = self.registers[REG_A];
        let result = a.wrapping_sub(value);
        self.set_flag(FLAG_Z, result == 0);
        self.set_flag(FLAG_N, true);
        self.set_flag(FLAG_H, a % 16 < value % 16);
        self.set_flag(FLAG_C, a < value);
        if !keep {
            self.registers[REG_A] = result;
        }
        assert(self@.registers =~= alu(old(self)@, if keep { 7 } else { 2 }, value).registers);
    }

    /// SBC A, value: subtracts the carry too.
    fn sbc(&mut self, value: u8)
        ensures
            final(self)@ == alu(old(self)@, 3, value),
    {
        reveal(alu);
        let a = self.registers[REG_A];
        let carry: u8 = if self.get_flag(FLAG_C) {
            1
        } else {
            0
        };
        let result = a.wrapping_sub(value).wrapping_sub(carry);
        self.set_flag(FLAG_Z, result == 0);
        self.set_flag(FLAG_N, true);
        self.set_flag(FLAG_H, a % 16 < value % 16 + carry);
        self.set_flag(FLAG_C, (a as u16) < value as u16 + carry as u16);
        self.registers[REG_A] = result;
        assert(self@.registers =~= alu(old(self)@, 3, value).registers);
    }

    fn and(&mut self, value: u8)
        ensures
            final(self)@ == alu(old(self)@, 4, value),
    {
        reveal(alu);
        self.registers[REG_A] = self.registers[REG_A] & value;
        self.set_flag(FLAG_Z, self.registers[REG_A] == 0);
        self.set_flag(FLAG_N, false);
        self.set_flag(FLAG_H, true);
        self.set_flag(FLAG_C, false);
        assert(self@.registers =~= alu(old(self)@, 4, value).registers);
    }

    fn xor(&mut self, value: u8)
        ensures
            final(self)@ == alu(old(self)@, 5, value),
    {
        reveal(alu);
        self.registers[REG_A] = self.registers[REG_A] ^ value;
        self.set_flag(FLAG_Z, self.registers[REG_A] == 0);
        self.set_flag(FLAG_N, false);
        self.set_flag(FLAG_H, false);
        self.set_flag(FLAG_C, false);
        assert(self@.registers =~= alu(old(self)@, 5, value).registers);
    }

    fn or(&mut self, value: u8)
        ensures
            final(self)@ == alu(old(self)@, 6, value),
    {
        reveal(alu);
        self.registers[REG_A] = self.registers[REG_A] | value;
        self.set_flag(FLAG_Z, self.registers[REG_A] == 0);
        self.set_flag(FLAG_N, false);
        self.set_flag(FLAG_H, false);
        self.set_flag(FLAG_C, false);
        assert(self@.registers =~= alu(old(self)@, 6, value).registers);
    }

    /// The accumulator operation `kind` (bits 3-5 of the opcode) with `value`.
    fn alu_op(&mut self, kind: u8, value: u8)
        requires
            kind < 8,
        ensures
            final(self)@ == alu(old(self)@, kind as int, value),
    {
        match kind {
            0 => self.add_a(value),
            1 => self.adc(value),
            2 => self.sub_a(value, false),
            3 => self.sbc(value),
            4 => self.and(value),
            5 => self.xor(value),
            6 => self.or(value),
            _ => self.sub_a(value, true),
        }
    }

    fn rlca(&mut self)
        ensures
            final(self)@ == rotate_a(old(self)@, 0),
    {
        let a = self.registers[REG_A];
        let carry = a / 128;
        self.registers[REG_A] = (a % 128) * 2 + carry;
        self.set_flag(FLAG_Z, false);
        self.set_flag(FLAG_N, false);
        self.set_flag(FLAG_H, false);
        self.set_flag(FLAG_C, carry != 0);
        assert(self@.registers =~= rotate_a(old(self)@, 0).registers);
    }

    fn rrca(&mut self)
        ensures
            final(self)@ == rotate_a(old(self)@, 1),
    {
        let a = self.registers[REG_A];
        let carry = a % 2;
        self.registers[REG_A] = a / 2 + carry * 128;
        self.set_flag(FLAG_Z, false);
        self.set_flag(FLAG_N, false);
        self.set_flag(FLAG_H, false);
        self.set_flag(FLAG_C, carry != 0);
        assert(self@.registers =~= rotate_a(old(self)@, 1).registers);
    }

    fn rla(&mut self)
        ensures
            final(self)@ == rotate_a(old(self)@, 2),
    {
        let a = self.registers[REG_A];
        let old_carry: u8 = if self.get_flag(FLAG_C) {
            1
        } else {
            0
        };
        let new_carry = a / 128;
        self.registers[REG_A] = (a % 128) * 2 + old_carry;
        self.set_flag(FLAG_Z, false);
        self.set_flag(FLAG_N, false);
        self.set_flag(FLAG_H, false);
        self.set_flag(FLAG_C, new_carry != 0);
        assert(self@.registers =~= rotate_a(old(self)@, 2).registers);
    }

    fn rra(&mut self)
        ensures
            final(self)@ == rotate_a(old(self)@, 3),
    {
        let a = self.registers[REG_A];
        let old_carry: u8 = if self.get_flag(FLAG_C) {
            1
        } else {
            0
        };
        let new_carry = a % 2;
        self.registers[REG_A] = a / 2 + old_carry * 128;
        self.set_flag(FLAG_Z, false);
        self.set_flag(FLAG_N, false);
        self.set_flag(FLAG_H, false);
        self.set_flag(FLAG_C, new_carry != 0);
        assert(self@.registers =~= rotate_a(old(self)@, 3).registers);
    }

    /// Decimal adjustment of A after a BCD addition or subtraction.
    fn daa(&mut self)
        ensures
            final(self)@ == daa(old(self)@),
    {
        let mut a = self.registers[REG_A];
        let mut adjust: u8 = 0;
        let subtract = self.get_flag(FLAG_N);
        if self.get_flag(FLAG_H) || (!subtract && a % 16 > 9) {
            adjust = adjust + 0x06;
        }
        if self.get_flag(FLAG_C) || (!subtract && a > 0x99) {
            adjust = adjust + 0x60;
            self.set_flag(FLAG_C, true);
        }
        a = if subtract {
            a.wrapping_sub(adjust)
        } else {
            a.wrapping_add(adjust)
        };
        self.registers[REG_A] = a;
        self.set_flag(FLAG_Z, a == 0);
        self.set_flag(FLAG_H, false);
        assert(self@.registers =~= daa(old(self)@).registers);
    }

    fn cpl(&mut self)
        ensures
            final(self)@ == set_f(
                set_reg(old(self)@, REG_A as int, !old(self)@.registers[REG_A as int]),
                with_flag(with_flag(old(self)@.registers[REG_F as int], FLAG_N, true), FLAG_H, true),
            ),
    {
        self.registers[REG_A] = !self.registers[REG_A];
        self.set_flag(FLAG_N, true);
        self.set_flag(FLAG_H, true);
        assert(self@.registers =~= set_f(
            set_reg(old(self)@, REG_A as int, !old(self)@.registers[REG_A as int]),
            with_flag(with_flag(old(self)@.registers[REG_F as int], FLAG_N, true), FLAG_H, true),
        ).registers);
    }

    fn scf(&mut self)
        ensures
            final(self)@ == set_f(
                old(self)@,
                with_flag(
                    with_flag(with_flag(old(self)@.registers[REG_F as int], FLAG_N, false), FLAG_H, false),
                    FLAG_C,
                    true,
                ),
            ),
    {
        let ghost f = old(self)@.registers[REG_F as int];
        self.set_flag(FLAG_N, false);
        self.set_flag(FLAG_H, false);
        self.set_flag(FLAG_C, true);
        assert(self@.registers =~= old(self)@.registers.update(
            REG_F as int,
            with_flag(with_flag(with_flag(f, FLAG_N, false), FLAG_H, false), FLAG_C, true),
        ));
    }

    fn ccf(&mut self)
        ensures
            final(self)@ == set_f(
                old(self)@,
                with_flag(
                    with_flag(with_flag(old(self)@.registers[REG_F as int], FLAG_N, false), FLAG_H, false),
                    FLAG_C,
                    !flag(old(self)@, FLAG_C),
                ),
            ),
    {
        let carry = self.get_flag(FLAG_C);
        self.set_flag(FLAG_N, false);
        self.set_flag(FLAG_H, false);
        self.set_flag(FLAG_C, !carry);
        let ghost f = old(self)@.registers[REG_F as int];
        assert(self@.registers =~= old(self)@.registers.update(
            REG_F as int,
            with_flag(with_flag(with_flag(f, FLAG_N, false), FLAG_H, false), FLAG_C, !flag(old(self)@, FLAG_C)),
        ));
    }

    /// The value of operand `code`: B, C, D, E, H, L, the byte at HL, A.
    fn read_operand(&self, code: u8) -> (r: u8)
        requires
            code < 8,
        ensures
            r == operand(self@, code as int),
    {
        if code == 6 {
            self.read_byte(self.get_hl())
        } else {
            self.registers[reg_index(code)]
        }
    }

    fn write_operand(&mut self, code: u8, value: u8)
        requires
            code < 8,
        ensures
            final(self)@ == set_operand(old(self)@, code as int, value),
    {
        if code == 6 {
            let addr = self.get_hl();
            self.write_byte(addr, value);
        } else {
            self.registers[reg_index(code)] = value;
        }
    }
}

/// Whether `opcode` has no instruction.
fn is_illegal_opcode(opcode: u8) -> (r: bool)
    ensures
        r == gb_illegal(opcode),
{
    match opcode {
        0xD3 | 0xDB | 0xDD | 0xE3 | 0xE4 | 0xEB | 0xEC | 0xED | 0xF4 | 0xFC | 0xFD => true,
        _ => false,
    }
}

/// A signed byte as a 16-bit two's complement offset.
fn signed_offset(b: u8) -> (r: u16)
    ensures
        r == sign_extend(b),
{
    if b < 128 {
        b as u16
    } else {
        b as u16 + 0xFF00
    }
}

impl GameBoyEmulator {
    /// Condition `cc` of a conditional instruction: NZ, Z, NC, C.
    fn condition(&self, cc: u8) -> (r: bool)
        requires
            cc < 4,
        ensures
            r == condition(self@, cc as int),
    {
        match cc {
            0 => !self.get_flag(FLAG_Z),
            1 => self.get_flag(FLAG_Z),
            2 => !self.get_flag(FLAG_C),
            _ => self.get_flag(FLAG_C),
        }
    }

    /// Register pair `rr` of the 00-3F block: BC, DE, HL, SP.
    fn get_pair16(&self, rr: u8) -> (r: u16)
        requires
            rr < 4,
        ensures
            r == pair16(self@, rr as int),
    {
        match rr {
            0 => self.get_bc(),
            1 => self.get_de(),
            2 => self.get_hl(),
            _ => self.sp,
        }
    }

    fn set_pair16(&mut self, rr: u8, value: u16)
        requires
            rr < 4,
        ensures
            final(self)@ == set_pair16(old(self)@, rr as int, value),
    {
        match rr {
            0 => self.set_bc(value),
            1 => self.set_de(value),
            2 => self.set_hl(value),
            _ => self.sp = value,
        }
    }

    /// CB-prefixed instructions: shifts and rotations, bit tests, bit resets and sets.
    /// Returns the cycles taken.
    #[verifier::spinoff_prover]
    #[verifier::rlimit(40)]
    fn execute_cb_instruction(&mut self) -> (r: u32)
        ensures
            (final(self)@, r) == exec_cb(advance(old(self)@, 1), imm8(old(self)@)),
    {
        reveal(exec_cb);
        let cb_opcode = self.read_byte(self.pc);
        self.pc = self.pc.wrapping_add(1);
        let code = cb_opcode % 8;
        let bit = (cb_opcode / 8) % 8;
        let value = self.read_operand(code);
        // Operations on (HL) take longer.
        let cycles: u32 = if code == 6 {
            16
        } else {
            8
        };
        if cb_opcode < 0x40 {
            let carry: u8 = if self.get_flag(FLAG_C) {
                1
            } else {
                0
            };
            let (result, out) = match cb_opcode / 8 {
                // RLC
                0 => ((value % 128) * 2 + value / 128, value / 128),
                // RRC
                1 => (value / 2 + (value % 2) * 128, value % 2),
                // RL
                2 => ((value % 128) * 2 + carry, value / 128),
                // RR
                3 => (value / 2 + carry * 128, value % 2),
                // SLA
                4 => ((value % 128) * 2, value / 128),
                // SRA
                5 => (value / 2 + (value / 128) * 128, value % 2),
                // SWAP
                6 => ((value % 16) * 16 + value / 16, 0),
                // SRL
                _ => (value / 2, value % 2),
            };
            self.set_flag(FLAG_Z, result == 0);
            self.set_flag(FLAG_N, false);
            self.set_flag(FLAG_H, false);
            self.set_flag(FLAG_C, out != 0);
            proof {
                let s = advance(old(self)@, 1);
                assert(self@.registers =~= set_f(
                    s,
                    with_flags(s.registers[REG_F as int], result == 0, false, false, out != 0),
                ).registers);
            }
            self.write_operand(code, result);
            cycles
        } else if cb_opcode < 0x80 {
            // BIT b: tests without writing back.
            let zero = (value >> bit) & 1 == 0;
            self.set_flag(FLAG_Z, zero);
            self.set_flag(FLAG_N, false);
            self.set_flag(FLAG_H, true);
            proof {
                let s = advance(old(self)@, 1);
                assert(self@.registers =~= set_f(
                    s,
                    with_flag(with_flag(with_flag(s.registers[REG_F as int], FLAG_Z, zero), FLAG_N, false), FLAG_H, true),
                ).registers);
            }
            if code == 6 {
                12
            } else {
                8
            }
        } else if cb_opcode < 0xC0 {
            // RES b
            self.write_operand(code, value & !(1u8 << bit));
            cycles
        } else {
            // SET b
            self.write_operand(code, value | (1u8 << bit));
            cycles
        }
    }
}

impl GameBoyEmulator {
    /// NOP, LD (a16),SP, STOP and the relative jumps of the 00-3F block.
    #[verifier::spinoff_prover]
    #[verifier::rlimit(40)]
    fn exec_base_jumps(&mut self, opcode: u8) -> (r: u32)
        requires
            opcode < 0x40,
            opcode % 8 == 0,
        ensures
            (final(self)@, r) == base_jumps(old(self)@, opcode),
    {
        reveal(base_jumps);
        if opcode == 0x00 {
            // NOP
            4
        } else if opcode == 0x08 {
            // LD (a16), SP
            let addr = self.read_word(self.pc);
            self.pc = self.pc.wrapping_add(2);
            self.write_word(addr, self.sp);
            20
        } else if opcode == 0x10 {
            // STOP halts the CPU until a button is pressed.
            self.halted = true;
            4
        } else {
            // JR r8 and JR cc, r8
            let offset = self.read_byte(self.pc);
            self.pc = self.pc.wrapping_add(1);
            let taken = opcode == 0x18 || self.condition(opcode / 8 - 4);
            if taken {
                self.pc = self.pc.wrapping_add(signed_offset(offset));
                12
            } else {
                8
            }
        }
    }

    /// LD rr, d16 and ADD HL, rr.
    fn exec_base_wide(&mut self, opcode: u8) -> (r: u32)
        requires
            opcode < 0x40,
            opcode % 8 == 1,
        ensures
            (final(self)@, r) == base_wide(old(self)@, opcode),
    {
        reveal(base_wide);
        let row = opcode / 8;
        let rr = row / 2;
        if row % 2 == 0 {
            // LD rr, d16
            let value = self.read_word(self.pc);
            self.pc = self.pc.wrapping_add(2);
            self.set_pair16(rr, value);
            12
        } else {
            // ADD HL, rr
            let value = self.get_pair16(rr);
            self.add_hl(value);
            8
        }
    }

    /// LD (rr), A and LD A, (rr), with HL+ and HL- for the last two pairs.
    #[verifier::spinoff_prover]
    #[verifier::rlimit(40)]
    fn exec_base_indirect(&mut self, opcode: u8) -> (r: u32)
        requires
            opcode < 0x40,
            opcode % 8 == 2,
        ensures
            (final(self)@, r) == base_indirect(old(self)@, opcode),
    {
        reveal(base_indirect);
        let row = opcode / 8;
        let rr = row / 2;
        let addr = if rr >= 2 {
            self.get_hl()
        } else {
            self.get_pair16(rr)
        };
        if row % 2 == 0 {
            self.write_byte(addr, self.registers[REG_A]);
        } else {
            self.registers[REG_A] = self.read_byte(addr);
        }
        if rr == 2 {
            self.set_hl(addr.wrapping_add(1));
        } else if rr == 3 {
            self.set_hl(addr.wrapping_sub(1));
        }
        8
    }

    /// INC rr and DEC rr.
    fn exec_base_step16(&mut self, opcode: u8) -> (r: u32)
        requires
            opcode < 0x40,
            opcode % 8 == 3,
        ensures
            (final(self)@, r) == base_step16(old(self)@, opcode),
    {
        reveal(base_step16);
        let row = opcode / 8;
        let rr = row / 2;
        let value = self.get_pair16(rr);
        let next = if row % 2 == 0 {
            value.wrapping_add(1)
        } else {
            value.wrapping_sub(1)
        };
        self.set_pair16(rr, next);
        8
    }

    /// INC r, DEC r, LD r, d8 and the accumulator and flag operations of the 00-3F block.
    fn exec_base_singles(&mut self, opcode: u8) -> (r: u32)
        requires
            opcode < 0x40,
            opcode % 8 >= 4,
        ensures
            (final(self)@, r) == base_singles(old(self)@, opcode),
    {
        reveal(base_singles);
        let col = opcode % 8;
        let row = opcode / 8;
        if col == 4 || col == 5 {
            // INC r and DEC r
            let value = self.read_operand(row);
            let result = if col == 4 {
                self.inc_8bit(value)
            } else {
                self.dec_8bit(value)
            };
            self.write_operand(row, result);
            if row == 6 {
                12
            } else {
                4
            }
        } else if col == 6 {
            // LD r, d8
            let value = self.read_byte(self.pc);
            self.pc = self.pc.wrapping_add(1);
            self.write_operand(row, value);
            if row == 6 {
                12
            } else {
                8
            }
        } else {
            match row {
                0 => self.rlca(),
                1 => self.rrca(),
                2 => self.rla(),
                3 => self.rra(),
                4 => self.daa(),
                5 => self.cpl(),
                6 => self.scf(),
                _ => self.ccf(),
            }
            4
        }
    }

    /// Opcodes 00-3F.
    fn exec_base_block(&mut self, opcode: u8) -> (r: u32)
        requires
            opcode < 0x40,
        ensures
            (final(self)@, r) == exec_base_block(old(self)@, opcode),
    {
        let col = opcode % 8;
        if col == 0 {
            self.exec_base_jumps(opcode)
        } else if col == 1 {
            self.exec_base_wide(opcode)
        } else if col == 2 {
            self.exec_base_indirect(opcode)
        } else if col == 3 {
            self.exec_base_step16(opcode)
        } else {
            self.exec_base_singles(opcode)
        }
    }

    /// Opcodes 40-7F: `LD r, r'`, and HALT at 76.
    fn exec_load_block(&mut self, opcode: u8) -> (r: u32)
        requires
            0x40 <= opcode < 0x80,
        ensures
            (final(self)@, r) == exec_load_block(old(self)@, opcode),
    {
        reveal(exec_load_block);
        let to = (opcode / 8) % 8;
        let from = opcode % 8;
        if opcode == 0x76 {
            // HALT: low power mode until an interrupt
            self.halted = true;
            4
        } else {
            let value = self.read_operand(from);
            self.write_operand(to, value);
            if to == 6 || from == 6 {
                8
            } else {
                4
            }
        }
    }

    /// Opcodes 80-BF: ADD, ADC, SUB, SBC, AND, XOR, OR and CP with a register or the byte
    /// at HL.
    fn exec_alu_block(&mut self, opcode: u8) -> (r: u32)
        requires
            0x80 <= opcode < 0xC0,
        ensures
            (final(self)@, r) == exec_alu_block(old(self)@, opcode),
    {
        reveal(exec_alu_block);
        let code = opcode % 8;
        let value = self.read_operand(code);
        self.alu_op((opcode / 8) % 8, value);
        if code == 6 {
            8
        } else {
            4
        }
    }
}

impl GameBoyEmulator {
    /// RET cc, JP cc and CALL cc.
    #[verifier::spinoff_prover]
    #[verifier::rlimit(40)]
    fn exec_high_branch(&mut self, opcode: u8) -> (r: u32)
        requires
            opcode >= 0xC0,
            opcode % 8 == 0 || opcode % 8 == 2 || opcode % 8 == 4,
            (opcode / 8) % 8 < 4,
        ensures
            (final(self)@, r) == high_branch(old(self)@, opcode),
    {
        reveal(high_branch);
        let col = opcode % 8;
        let row = (opcode / 8) % 8;
        if col == 0 {
            // RET cc
            if self.condition(row) {
                self.pc = self.pop();
                20
            } else {
                8
            }
        } else if col == 2 {
            // JP cc, a16
            let addr = self.read_word(self.pc);
            self.pc = self.pc.wrapping_add(2);
            if self.condition(row) {
                self.pc = addr;
                16
            } else {
                12
            }
        } else {
            // CALL cc, a16
            let addr = self.read_word(self.pc);
            self.pc = self.pc.wrapping_add(2);
            if self.condition(row) {
                self.push(self.pc);
                self.pc = addr;
                24
            } else {
                12
            }
        }
    }

    /// RST n, JP a16, CALL a16, RET and RETI.
    #[verifier::spinoff_prover]
    #[verifier::rlimit(40)]
    fn exec_high_jump(&mut self, opcode: u8) -> (r: u32)
        requires
            opcode >= 0xC0,
            opcode % 8 == 7 || opcode == 0xC3 || opcode == 0xCD || opcode == 0xC9 || opcode == 0xD9,
        ensures
            (final(self)@, r) == high_jump(old(self)@, opcode),
    {
        reveal(high_jump);
        if opcode % 8 == 7 {
            // RST n
            self.push(self.pc);
            self.pc = ((opcode / 8) % 8) as u16 * 8;
            16
        } else if opcode == 0xC3 {
            // JP a16
            self.pc = self.read_word(self.pc);
            16
        } else if opcode == 0xCD {
            // CALL a16
            let addr = self.read_word(self.pc);
            self.pc = self.pc.wrapping_add(2);
            self.push(self.pc);
            self.pc = addr;
            24
        } else {
            // RET, and RETI which also enables interrupts
            self.pc = self.pop();
            if opcode == 0xD9 {
                self.ime = true;
            }
            16
        }
    }

    /// PUSH and POP of BC, DE, HL and AF.
    fn exec_high_stack(&mut self, opcode: u8) -> (r: u32)
        requires
            opcode >= 0xC0,
            high_group(opcode) == 1,
        ensures
            (final(self)@, r) == high_stack(old(self)@, opcode),
    {
        reveal(high_stack);
        let rr = (opcode / 16) % 4;
        if opcode % 8 == 1 {
            let value = self.pop();
            if rr == 3 {
                self.set_af(value);
            } else {
                self.set_pair16(rr, value);
            }
            12
        } else {
            let value = if rr == 3 {
                self.get_af()
            } else {
                self.get_pair16(rr)
            };
            self.push(value);
            16
        }
    }

    /// Loads and stores of A through the high page and absolute addresses.
    fn exec_high_memory(&mut self, opcode: u8) -> (r: u32)
        requires
            high_group(opcode) == 3,
        ensures
            (final(self)@, r) == high_memory(old(self)@, opcode),
    {
        reveal(high_memory);
        let a = self.registers[REG_A];
        if opcode == 0xE0 {
            // LDH (a8), A
            let offset = self.read_byte(self.pc) as u16;
            self.pc = self.pc.wrapping_add(1);
            self.write_byte(0xFF00 + offset, a);
            12
        } else if opcode == 0xF0 {
            // LDH A, (a8)
            let offset = self.read_byte(self.pc) as u16;
            self.pc = self.pc.wrapping_add(1);
            self.registers[REG_A] = self.read_byte(0xFF00 + offset);
            12
        } else if opcode == 0xE2 {
            // LD (C), A
            let addr = 0xFF00 + self.registers[REG_C] as u16;
            self.write_byte(addr, a);
            8
        } else if opcode == 0xF2 {
            // LD A, (C)
            let addr = 0xFF00 + self.registers[REG_C] as u16;
            self.registers[REG_A] = self.read_byte(addr);
            8
        } else if opcode == 0xEA {
            // LD (a16), A
            let addr = self.read_word(self.pc);
            self.pc = self.pc.wrapping_add(2);
            self.write_byte(addr, a);
            16
        } else {
            // LD A, (a16)
            let addr = self.read_word(self.pc);
            self.pc = self.pc.wrapping_add(2);
            self.registers[REG_A] = self.read_byte(addr);
            16
        }
    }

    /// Stack pointer arithmetic, JP (HL), LD SP, HL, DI and EI.
    #[verifier::spinoff_prover]
    #[verifier::rlimit(40)]
    fn exec_high_control(&mut self, opcode: u8) -> (r: u32)
        requires
            high_group(opcode) == 4,
            !gb_illegal(opcode),
        ensures
            (final(self)@, r) == high_control(old(self)@, opcode),
    {
        reveal(high_control);
        if opcode == 0xE8 || opcode == 0xF8 {
            // ADD SP, r8 and LD HL, SP+r8
            let offset = signed_offset(self.read_byte(self.pc));
            self.pc = self.pc.wrapping_add(1);
            let sp = self.sp;
            let result = sp.wrapping_add(offset);
            self.set_flag(FLAG_Z, false);
            self.set_flag(FLAG_N, false);
            self.set_flag(FLAG_H, sp % 16 + offset % 16 > 15);
            self.set_flag(FLAG_C, sp % 256 + offset % 256 > 255);
            proof {
                let t = advance(old(self)@, 1);
                assert(self@.registers =~= set_f(t, sp_offset_flags(old(self)@, offset)).registers);
            }
            if opcode == 0xE8 {
                self.sp = result;
                16
            } else {
                self.set_hl(result);
                12
            }
        } else if opcode == 0xE9 {
            // JP (HL)
            self.pc = self.get_hl();
            4
        } else if opcode == 0xF9 {
            // LD SP, HL
            self.sp = self.get_hl();
            8
        } else if opcode == 0xF3 {
            // DI
            self.ime = false;
            4
        } else {
            // EI, which also wakes the CPU from HALT
            self.ime = true;
            self.halted = false;
            4
        }
    }

    /// Opcodes C0-FF other than the CB prefix.
    fn exec_high_block(&mut self, opcode: u8) -> (r: u32)
        requires
            opcode >= 0xC0,
            !gb_illegal(opcode),
        ensures
            (final(self)@, r) == exec_high_block(old(self)@, opcode),
    {
        let col = opcode % 8;
        let row = (opcode / 8) % 8;
        if (row < 4 && (col == 0 || col == 2 || col == 4)) || col == 7 || opcode == 0xC3
            || opcode == 0xCD || opcode == 0xC9 || opcode == 0xD9 {
            if col == 0 || col == 2 || col == 4 {
                self.exec_high_branch(opcode)
            } else {
                self.exec_high_jump(opcode)
            }
        } else if (col == 1 || col == 5) && row % 2 == 0 {
            self.exec_high_stack(opcode)
        } else if col == 6 {
            // ADD, ADC, SUB, SBC, AND, XOR, OR and CP with an immediate byte
            let value = self.read_byte(self.pc);
            self.pc = self.pc.wrapping_add(1);
            self.alu_op(row, value);
            8
        } else if opcode == 0xE0 || opcode == 0xF0 || opcode == 0xE2 || opcode == 0xF2
            || opcode == 0xEA || opcode == 0xFA {
            self.exec_high_memory(opcode)
        } else {
            self.exec_high_control(opcode)
        }
    }

    /// Executes one instruction and returns the cycles it took. Nothing runs before a
    /// program is loaded or while the CPU is halted; four cycles pass.
    fn execute_instruction(&mut self) -> (r: Result<u32, EmuError>)
        ensures
            (final(self)@, r) == gb_instruction(old(self)@),
    {
        if !self.rom_loaded {
            return Ok(4);
        }
        // Halted until an interrupt or a button press; return at once rather than spin.
        if self.halted {
            return Ok(4);
        }
        self.current_opcode = self.read_byte(self.pc);
        let opcode = self.current_opcode;
        self.pc = self.pc.wrapping_add(1);
        if is_illegal_opcode(opcode) {
            return Err(
                EmuError::UnrecognizedOpcode {
                    opcode: opcode as u64,
                    pc: self.pc.wrapping_sub(1) as u64,
                },
            );
        }
        let cycles = if opcode < 0x40 {
            self.exec_base_block(opcode)
        } else if opcode < 0x80 {
            self.exec_load_block(opcode)
        } else if opcode < 0xC0 {
            self.exec_alu_block(opcode)
        } else if opcode == 0xCB {
            self.execute_cb_instruction()
        } else {
            self.exec_high_block(opcode)
        };
        self.cycles = self.cycles.wrapping_add(cycles as u64);
        Ok(cycles)
    }
}

/// The framebuffer after an instruction that moved the cycle count from `before` on: the
/// background is repainted each time the count crosses a frame boundary.
pub open spec fn after_frame(before: u64, t: GbState) -> GbState {
    if t.cycles / CYCLES_PER_FRAME > before / CYCLES_PER_FRAME {
        GbState { framebuffer: background(t.vram), ..t }
    } else {
        t
    }
}

/// The keys and run state after a poll that reported `inputs`: a poll of fewer than eight
/// buttons is ignored; any pressed button wakes the CPU.
pub open spec fn polled(s: GbState, inputs: Seq<bool>) -> GbState {
    if inputs.len() >= 8 {
        GbState {
            keys: inputs.subrange(0, 8),
            halted: s.halted && !(exists|i: int| 0 <= i < inputs.len() && inputs[i]),
            ..s
        }
    } else {
        s
    }
}

impl Emulator for GameBoyEmulator {
    type Metadata = GameBoyMetadata;

    fn system_name(&self) -> (r: &'static str)
        ensures
            r@ == "Game Boy"@,
    {
        "Game Boy"
    }

    /// Resets, then copies `rom` to the start of memory and marks a program loaded. An
    /// image larger than the ROM area is refused and changes nothing.
    fn load_rom(&mut self, rom: &[u8]) -> (r: Result<(), EmuError>)
        ensures
            rom@.len() > GB_ROM_CAPACITY ==> r == Err::<(), EmuError>(
                EmuError::InvalidRom { size: rom@.len() as usize, capacity: GB_ROM_CAPACITY },
            ) && final(self)@ == old(self)@,
            rom@.len() <= GB_ROM_CAPACITY ==> r is Ok && final(self)@ == (GbState {
                memory: write_block(old(self)@.memory, 0, rom@),
                rom_loaded: true,
                ..gb_reset_state(old(self)@)
            }),
            final(self)@.wf(),
    {
        if rom.len() > GB_ROM_CAPACITY {
            return Err(EmuError::InvalidRom { size: rom.len(), capacity: GB_ROM_CAPACITY });
        }
        self.reset();
        let ghost before = self@;
        let mut i: usize = 0;
        assert(write_block(before.memory, 0, rom@.subrange(0, 0)) =~= before.memory);
        while i < rom.len()
            invariant
                i <= rom@.len() <= GB_ROM_CAPACITY,
                self@ == (GbState {
                    memory: write_block(before.memory, 0, rom@.subrange(0, i as int)),
                    ..before
                }),
            decreases rom@.len() - i,
        {
            self.memory[i] = rom[i];
            i += 1;
            assert(self.memory@ =~= write_block(before.memory, 0, rom@.subrange(0, i as int)));
        }
        assert(rom@.subrange(0, rom@.len() as int) =~= rom@);
        self.rom_loaded = true;
        Ok(())
    }

    /// Power-up register values; the ROM area of memory is kept.
    fn reset(&mut self)
        ensures
            final(self)@ == gb_reset_state(old(self)@),
            final(self)@.wf(),
    {
        self.registers[REG_A] = 0x01;
        self.registers[REG_F] = 0xB0;
        self.registers[REG_B] = 0x00;
        self.registers[REG_C] = 0x13;
        self.registers[REG_D] = 0x00;
        self.registers[REG_E] = 0xD8;
        self.registers[REG_H] = 0x01;
        self.registers[REG_L] = 0x4D;
        self.sp = 0xFFFE;
        self.pc = 0x0100;
        self.ime = true;
        self.cycles = 0;
        self.halted = false;
        self.vram = [0u8; 8192];
        self.input_keys = [false; 8];
        self.framebuffer = [LIGHT_GREEN; 23040];
        assert(self.registers@ =~= power_up_registers());
        assert(self.input_keys@ =~= Seq::new(8, |i: int| false));
        assert(self.vram@ =~= Seq::new(0x2000, |i: int| 0u8));
        assert(self.framebuffer@ =~= Seq::new(GB_PIXELS as nat, |i: int| LIGHT_GREEN));
    }

    /// Executes one instruction; the background is repainted once per frame of cycles.
    fn step(&mut self) -> (r: Result<(), EmuError>)
        ensures
            final(self)@.wf(),
            match gb_instruction(old(self)@).1 {
                Ok(_) => r is Ok && final(self)@ == after_frame(
                    old(self)@.cycles,
                    gb_instruction(old(self)@).0,
                ),
                Err(e) => r == Err::<(), EmuError>(e) && final(self)@ == gb_instruction(old(self)@).0,
            },
    {
        let cycles_before = self.cycles;
        match self.execute_instruction() {
            Ok(_) => {},
            Err(e) => {
                return Err(e);
            },
        }
        let frame_before = cycles_before / CYCLES_PER_FRAME;
        let frame_after = self.cycles / CYCLES_PER_FRAME;
        if frame_after > frame_before {
            self.render_background();
        }
        Ok(())
    }

    /// Timers are not modelled; the audio is left as it is.
    fn update_timers(&mut self) -> (r: AudioCue)
        ensures
            final(self)@ == old(self)@,
            r == AudioCue::Keep,
    {
        AudioCue::Keep
    }

    fn framebuffer(&self) -> (r: &[u32])
        ensures
            r@ == self@.framebuffer,
    {
        self.framebuffer.as_slice()
    }

    fn resolution(&self) -> (r: (usize, usize))
        ensures
            r == (GB_WIDTH, GB_HEIGHT),
    {
        (GB_WIDTH, GB_HEIGHT)
    }

    /// Takes the first eight buttons of a poll that reports at least eight; any pressed
    /// button wakes the CPU from HALT or STOP.
    fn set_input_state(&mut self, inputs: &[bool])
        ensures
            final(self)@ == polled(old(self)@, inputs@),
            final(self)@.wf(),
    {
        if inputs.len() >= 8 {
            let mut any_pressed = false;
            let mut i: usize = 0;
            while i < inputs.len()
                invariant
                    8 <= inputs@.len(),
                    i <= inputs@.len(),
                    self@ == (GbState { keys: self@.keys, ..old(self)@ }),
                    self@.keys.len() == 8,
                    forall|j: int| 0 <= j < i && j < 8 ==> self@.keys[j] == inputs@[j],
                    any_pressed == exists|j: int| 0 <= j < i && inputs@[j],
                decreases inputs@.len() - i,
            {
                if i < 8 {
                    self.input_keys[i] = inputs[i];
                }
                if inputs[i] {
                    any_pressed = true;
                }
                i += 1;
            }
            assert(self.input_keys@ =~= inputs@.subrange(0, 8));
            if any_pressed {
                self.halted = false;
            }
        }
    }

    fn keymap(&self) -> (r: Vec<(usize, String)>)
        ensures
            r@.len() == 8,
            forall|i: int| 0 <= i < 8 ==> (#[trigger] r@[i]).0 == i && r@[i].1@ == GB_KEY_LABELS@[i]@,
    {
        keymap_of(GB_KEY_LABELS.as_slice())
    }

    fn metadata(&self) -> (r: GameBoyMetadata)
        ensures
            r.registers@ == self@.registers,
            r.sp == self@.sp,
            r.pc == self@.pc,
            r.memory@ == self@.memory.subrange(0, 0x1000),
            r.current_opcode == self@.opcode,
            r.ime == self@.ime,
    {
        let mut memory_snapshot: Vec<u8> = Vec::new();
        let mut i: usize = 0;
        while i < 0x1000
            invariant
                i <= 0x1000,
                memory_snapshot@ == self@.memory.subrange(0, i as int),
            decreases 0x1000 - i,
        {
            memory_snapshot.push(self.memory[i]);
            i += 1;
            assert(memory_snapshot@ =~= self@.memory.subrange(0, i as int));
        }
        GameBoyMetadata {
            registers: self.registers,
            sp: self.sp,
            pc: self.pc,
            memory: memory_snapshot,
            current_opcode: self.current_opcode,
            ime: self.ime,
        }
    }
}

} // verus!
