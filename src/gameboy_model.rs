//! The mathematical model of the Game Boy CPU subset: registers, flags, the memory map
//! and the meaning of each implemented instruction.
use crate::error::EmuError;
use vstd::prelude::*;

verus! {

/// Screen width in pixels.
pub const GB_WIDTH: usize = 160;

/// Screen height in pixels.
pub const GB_HEIGHT: usize = 144;

/// Number of pixels on the screen.
pub const GB_PIXELS: usize = 23040;

/// Cycles in one frame at 60 Hz.
pub const CYCLES_PER_FRAME: u64 = 70224;

/// Largest program image: the ROM area of the address space.
pub const GB_ROM_CAPACITY: usize = 0x8000;

pub const REG_A: usize = 0;
pub const REG_F: usize = 1;
pub const REG_B: usize = 2;
pub const REG_C: usize = 3;
pub const REG_D: usize = 4;
pub const REG_E: usize = 5;
pub const REG_H: usize = 6;
pub const REG_L: usize = 7;

/// Zero flag.
pub const FLAG_Z: u8 = 0b10000000;
/// Subtract flag.
pub const FLAG_N: u8 = 0b01000000;
/// Half-carry flag.
pub const FLAG_H: u8 = 0b00100000;
/// Carry flag.
pub const FLAG_C: u8 = 0b00010000;

/// Colour of a lit background pixel.
pub const DARK_GREEN: u32 = 0xFF0F380F;

/// Colour of an unlit background pixel.
pub const LIGHT_GREEN: u32 = 0xFF9BBC0F;

/// The state of the Game Boy CPU as the instructions see it.
pub struct GbState {
    /// A, F, B, C, D, E, H, L.
    pub registers: Seq<u8>,
    pub sp: u16,
    pub pc: u16,
    /// The flat 64 KiB store; video RAM and object attribute memory live apart.
    pub memory: Seq<u8>,
    pub vram: Seq<u8>,
    pub oam: Seq<u8>,
    /// Interrupt master enable.
    pub ime: bool,
    pub halted: bool,
    pub rom_loaded: bool,
    pub cycles: u64,
    pub opcode: u8,
    pub keys: Seq<bool>,
    pub framebuffer: Seq<u32>,
}

impl GbState {
    /// Every sequence has the length of the store it models.
    pub open spec fn wf(self) -> bool {
        &&& self.registers.len() == 8
        &&& self.memory.len() == 0x10000
        &&& self.vram.len() == 0x2000
        &&& self.oam.len() == 0xA0
        &&& self.keys.len() == 8
        &&& self.framebuffer.len() == GB_PIXELS
    }
}

pub open spec fn wrap16(v: int) -> u16 {
    (v % 0x10000) as u16
}

pub open spec fn wrap8(v: int) -> u8 {
    (v % 0x100) as u8
}

/// The 16-bit value with high byte `hi` and low byte `lo`.
pub open spec fn pair(hi: u8, lo: u8) -> u16 {
    (hi as int * 256 + lo as int) as u16
}

pub open spec fn high_byte(v: u16) -> u8 {
    (v as int / 256) as u8
}

pub open spec fn low_byte(v: u16) -> u8 {
    (v as int % 256) as u8
}

/// Registers with the pair `(h, l)` set to `v`.
pub open spec fn with_pair(regs: Seq<u8>, h: int, l: int, v: u16) -> Seq<u8> {
    regs.update(h, high_byte(v)).update(l, low_byte(v))
}

pub open spec fn hl(s: GbState) -> u16 {
    pair(s.registers[REG_H as int], s.registers[REG_L as int])
}

/// `f` with the bits of `mask` set or cleared.
pub open spec fn with_flag(f: u8, mask: u8, on: bool) -> u8 {
    if on {
        f | mask
    } else {
        f & !mask
    }
}

/// `f` with Z, N, H and C set in that order.
pub open spec fn with_flags(f: u8, z: bool, n: bool, h: bool, c: bool) -> u8 {
    with_flag(with_flag(with_flag(with_flag(f, FLAG_Z, z), FLAG_N, n), FLAG_H, h), FLAG_C, c)
}

pub open spec fn flag(s: GbState, mask: u8) -> bool {
    s.registers[REG_F as int] & mask != 0
}

pub open spec fn carry_bit(s: GbState) -> int {
    if flag(s, FLAG_C) {
        1
    } else {
        0
    }
}

/// `s` with the flag register replaced.
pub open spec fn set_f(s: GbState, f: u8) -> GbState {
    GbState { registers: s.registers.update(REG_F as int, f), ..s }
}

/// `s` with register `r` replaced.
pub open spec fn set_reg(s: GbState, r: int, v: u8) -> GbState {
    GbState { registers: s.registers.update(r, v), ..s }
}

/// The byte the CPU reads at `addr` through the memory map: video RAM at 8000-9FFF,
/// echo RAM E000-FDFF mirroring C000-DDFF, object attributes at FE00-FE9F, FF for the
/// unusable range FEA0-FEFF, the flat store elsewhere.
pub open spec fn gb_read(s: GbState, addr: u16) -> u8 {
    let a = addr as int;
    if a < 0x8000 {
        s.memory[a]
    } else if a < 0xA000 {
        s.vram[a - 0x8000]
    } else if a < 0xE000 {
        s.memory[a]
    } else if a < 0xFE00 {
        s.memory[a - 0x2000]
    } else if a < 0xFEA0 {
        s.oam[a - 0xFE00]
    } else if a < 0xFF00 {
        0xFF
    } else {
        s.memory[a]
    }
}

/// The state after the CPU writes `v` at `addr`: writes to ROM and to the unusable range
/// are ignored.
pub open spec fn gb_write(s: GbState, addr: u16, v: u8) -> GbState {
    let a = addr as int;
    if a < 0x8000 {
        s
    } else if a < 0xA000 {
        GbState { vram: s.vram.update(a - 0x8000, v), ..s }
    } else if a < 0xE000 {
        GbState { memory: s.memory.update(a, v), ..s }
    } else if a < 0xFE00 {
        GbState { memory: s.memory.update(a - 0x2000, v), ..s }
    } else if a < 0xFEA0 {
        GbState { oam: s.oam.update(a - 0xFE00, v), ..s }
    } else if a < 0xFF00 {
        s
    } else {
        GbState { memory: s.memory.update(a, v), ..s }
    }
}

/// Little-endian word at `addr`.
pub open spec fn read_word(s: GbState, addr: u16) -> u16 {
    pair(gb_read(s, wrap16(addr + 1)), gb_read(s, addr))
}

pub open spec fn write_word(s: GbState, addr: u16, v: u16) -> GbState {
    gb_write(gb_write(s, addr, low_byte(v)), wrap16(addr + 1), high_byte(v))
}

pub open spec fn push(s: GbState, v: u16) -> GbState {
    let sp = wrap16(s.sp - 2);
    write_word(GbState { sp, ..s }, sp, v)
}

/// The state after a pop, and the word popped.
pub open spec fn pop(s: GbState) -> (GbState, u16) {
    (GbState { sp: wrap16(s.sp + 2), ..s }, read_word(s, s.sp))
}

/// `s` with the program counter moved on by `k`.
pub open spec fn advance(s: GbState, k: int) -> GbState {
    GbState { pc: wrap16(s.pc + k), ..s }
}

/// The immediate byte at the program counter.
pub open spec fn imm8(s: GbState) -> u8 {
    gb_read(s, s.pc)
}

/// The immediate word at the program counter.
pub open spec fn imm16(s: GbState) -> u16 {
    read_word(s, s.pc)
}

/// A signed byte as a 16-bit two's complement offset.
pub open spec fn sign_extend(b: u8) -> u16 {
    if b < 128 {
        b as u16
    } else {
        (b + 0xFF00) as u16
    }
}

/// Register index of an operand code: B, C, D, E, H, L, (HL), A.
pub open spec fn reg_of(code: int) -> int {
    if code == 7 {
        REG_A as int
    } else {
        code + 2
    }
}

/// The value of operand `code`; code 6 is the byte at HL.
pub open spec fn operand(s: GbState, code: int) -> u8 {
    if code == 6 {
        gb_read(s, hl(s))
    } else {
        s.registers[reg_of(code)]
    }
}

/// `s` with operand `code` replaced.
pub open spec fn set_operand(s: GbState, code: int, v: u8) -> GbState {
    if code == 6 {
        gb_write(s, hl(s), v)
    } else {
        set_reg(s, reg_of(code), v)
    }
}

/// Increments a byte: Z, N and H follow the result, C is kept.
pub open spec fn inc_flags(f: u8, v: u8) -> u8 {
    with_flag(with_flag(with_flag(f, FLAG_Z, wrap8(v + 1) == 0), FLAG_N, false), FLAG_H, v % 16 == 15)
}

/// Decrements a byte: Z, N and H follow the result, C is kept.
pub open spec fn dec_flags(f: u8, v: u8) -> u8 {
    with_flag(with_flag(with_flag(f, FLAG_Z, wrap8(v - 1) == 0), FLAG_N, true), FLAG_H, v % 16 == 0)
}

/// The eight accumulator operations with value `v`: ADD, ADC, SUB, SBC, AND, XOR, OR, CP.
#[verifier::opaque]
pub open spec fn alu(s: GbState, kind: int, v: u8) -> GbState {
    let a = s.registers[REG_A as int] as int;
    let f = s.registers[REG_F as int];
    let c = carry_bit(s);
    let vi = v as int;
    if kind == 0 {
        let r = wrap8(a + vi);
        set_f(set_reg(s, REG_A as int, r), with_flags(f, r == 0, false, a % 16 + vi % 16 > 15, a + vi > 255))
    } else if kind == 1 {
        let r = wrap8(a + vi + c);
        set_f(
            set_reg(s, REG_A as int, r),
            with_flags(f, r == 0, false, a % 16 + vi % 16 + c > 15, a + vi + c > 255),
        )
    } else if kind == 2 || kind == 7 {
        let r = wrap8(a - vi);
        let t = if kind == 2 {
            set_reg(s, REG_A as int, r)
        } else {
            s
        };
        set_f(t, with_flags(f, r == 0, true, a % 16 < vi % 16, a < vi))
    } else if kind == 3 {
        let r = wrap8(a - vi - c);
        set_f(set_reg(s, REG_A as int, r), with_flags(f, r == 0, true, a % 16 < vi % 16 + c, a < vi + c))
    } else {
        let r = if kind == 4 {
            (a as u8) & v
        } else if kind == 5 {
            (a as u8) ^ v
        } else {
            (a as u8) | v
        };
        set_f(set_reg(s, REG_A as int, r), with_flags(f, r == 0, false, kind == 4, false))
    }
}

/// Adds `v` to HL: N cleared, H from bit 11, C from bit 15, Z kept.
pub open spec fn add_hl(s: GbState, v: u16) -> GbState {
    let h = hl(s) as int;
    let f = s.registers[REG_F as int];
    let f2 = with_flag(with_flag(with_flag(f, FLAG_N, false), FLAG_H, h % 4096 + v % 4096 > 4095), FLAG_C, h + v > 65535);
    GbState {
        registers: with_pair(s.registers, REG_H as int, REG_L as int, wrap16(h + v)).update(REG_F as int, f2),
        ..s
    }
}

/// The rotations of the accumulator: RLCA, RRCA, RLA, RRA. Z, N and H are cleared, C
/// receives the bit rotated out.
pub open spec fn rotate_a(s: GbState, kind: int) -> GbState {
    let a = s.registers[REG_A as int] as int;
    let c = carry_bit(s);
    let (r, out) = if kind == 0 {
        ((a % 128) * 2 + a / 128, a / 128)
    } else if kind == 1 {
        (a / 2 + (a % 2) * 128, a % 2)
    } else if kind == 2 {
        ((a % 128) * 2 + c, a / 128)
    } else {
        (a / 2 + c * 128, a % 2)
    };
    set_f(set_reg(s, REG_A as int, r as u8), with_flags(s.registers[REG_F as int], false, false, false, out != 0))
}

/// Decimal adjustment of the accumulator after a BCD addition or subtraction.
pub open spec fn daa(s: GbState) -> GbState {
    let a = s.registers[REG_A as int] as int;
    let n = flag(s, FLAG_N);
    let low = flag(s, FLAG_H) || (!n && a % 16 > 9);
    let high = flag(s, FLAG_C) || (!n && a > 0x99);
    let adjust = (if low {
        6int
    } else {
        0
    }) + (if high {
        0x60int
    } else {
        0
    });
    let r = if n {
        wrap8(a - adjust)
    } else {
        wrap8(a + adjust)
    };
    let f1 = if high {
        with_flag(s.registers[REG_F as int], FLAG_C, true)
    } else {
        s.registers[REG_F as int]
    };
    set_f(set_reg(s, REG_A as int, r), with_flag(with_flag(f1, FLAG_Z, r == 0), FLAG_H, false))
}

/// The condition `cc` of a conditional jump, call or return: NZ, Z, NC, C.
pub open spec fn condition(s: GbState, cc: int) -> bool {
    if cc == 0 {
        !flag(s, FLAG_Z)
    } else if cc == 1 {
        flag(s, FLAG_Z)
    } else if cc == 2 {
        !flag(s, FLAG_C)
    } else {
        flag(s, FLAG_C)
    }
}

/// The shifts and rotations of the CB table (`kind` is bits 3-5 of the opcode):
/// RLC, RRC, RL, RR, SLA, SRA, SWAP, SRL. The result, and the bit shifted out.
pub open spec fn cb_shift(kind: int, v: u8, c: int) -> (u8, bool) {
    let x = v as int;
    let (r, out) = if kind == 0 {
        ((x % 128) * 2 + x / 128, x / 128)
    } else if kind == 1 {
        (x / 2 + (x % 2) * 128, x % 2)
    } else if kind == 2 {
        ((x % 128) * 2 + c, x / 128)
    } else if kind == 3 {
        (x / 2 + c * 128, x % 2)
    } else if kind == 4 {
        ((x % 128) * 2, x / 128)
    } else if kind == 5 {
        (x / 2 + (x / 128) * 128, x % 2)
    } else if kind == 6 {
        ((x % 16) * 16 + x / 16, 0)
    } else {
        (x / 2, x % 2)
    };
    (r as u8, out != 0)
}

/// A CB-prefixed instruction `cb` with the program counter past it: the next state and the
/// cycles taken.
#[verifier::opaque]
pub open spec fn exec_cb(s: GbState, cb: u8) -> (GbState, u32) {
    let code = cb as int % 8;
    let bit = (cb as int / 8) % 8;
    let v = operand(s, code);
    let f = s.registers[REG_F as int];
    let cycles: u32 = if code == 6 {
        16
    } else {
        8
    };
    if cb < 0x40 {
        let (r, out) = cb_shift(cb as int / 8, v, carry_bit(s));
        (set_operand(set_f(s, with_flags(f, r == 0, false, false, out)), code, r), cycles)
    } else if cb < 0x80 {
        let zero = (v >> (bit as u8)) & 1u8 == 0;
        (
            set_f(s, with_flag(with_flag(with_flag(f, FLAG_Z, zero), FLAG_N, false), FLAG_H, true)),
            if code == 6 {
                12
            } else {
                8
            },
        )
    } else if cb < 0xC0 {
        (set_operand(s, code, v & !(1u8 << (bit as u8))), cycles)
    } else {
        (set_operand(s, code, v | (1u8 << (bit as u8))), cycles)
    }
}

/// NOP, LD (a16),SP, STOP and the relative jumps (column 0 of the 00-3F block).
#[verifier::opaque]
pub open spec fn base_jumps(s: GbState, op: u8) -> (GbState, u32) {
    let col = op as int % 8;
    let row = op as int / 8;
    let rr = row / 2;
    let a = s.registers[REG_A as int];
    if op == 0x00 {
        (s, 4)
    } else if op == 0x08 {
        (write_word(advance(s, 2), imm16(s), s.sp), 20)
    } else if op == 0x10 {
        (GbState { halted: true, ..s }, 4)
    } else {
        let t = advance(s, 1);
        let taken = op == 0x18 || condition(s, row - 4);
        if taken {
            (GbState { pc: wrap16(t.pc + sign_extend(imm8(s))), ..t }, 12)
        } else {
            (t, 8)
        }
    }
}

/// LD rr,d16 and ADD HL,rr (column 1 of the 00-3F block).
#[verifier::opaque]
pub open spec fn base_wide(s: GbState, op: u8) -> (GbState, u32) {
    let row = op as int / 8;
    let rr = row / 2;
    if row % 2 == 0 {
        let v = imm16(s);
        let t = advance(s, 2);
        (
            if rr == 3 {
                GbState { sp: v, ..t }
            } else {
                GbState { registers: with_pair(t.registers, 2 * rr + 2, 2 * rr + 3, v), ..t }
            },
            12,
        )
    } else {
        (add_hl(s, pair16(s, rr)), 8)
    }
}

/// LD (rr),A and LD A,(rr), with HL+ and HL- (column 2 of the 00-3F block).
#[verifier::opaque]
pub open spec fn base_indirect(s: GbState, op: u8) -> (GbState, u32) {
    let row = op as int / 8;
    let rr = row / 2;
    let a = s.registers[REG_A as int];
    let addr = if rr == 2 || rr == 3 {
        hl(s)
    } else {
        pair16(s, rr)
    };
    let t = if row % 2 == 0 {
        gb_write(s, addr, a)
    } else {
        set_reg(s, REG_A as int, gb_read(s, addr))
    };
    let hl_next = if rr == 2 {
        wrap16(addr + 1)
    } else {
        wrap16(addr - 1)
    };
    (
        if rr >= 2 {
            GbState { registers: with_pair(t.registers, REG_H as int, REG_L as int, hl_next), ..t }
        } else {
            t
        },
        8,
    )
}

/// INC rr and DEC rr (column 3 of the 00-3F block).
#[verifier::opaque]
pub open spec fn base_step16(s: GbState, op: u8) -> (GbState, u32) {
    let row = op as int / 8;
    let rr = row / 2;
    let v = pair16(s, rr);
    let next = if row % 2 == 0 {
        wrap16(v + 1)
    } else {
        wrap16(v - 1)
    };
    (set_pair16(s, rr, next), 8)
}

/// Columns 1 to 3 of the 00-3F block.
pub open spec fn base_pairs(s: GbState, op: u8) -> (GbState, u32) {
    let col = op as int % 8;
    if col == 1 {
        base_wide(s, op)
    } else if col == 2 {
        base_indirect(s, op)
    } else {
        base_step16(s, op)
    }
}

/// INC r, DEC r, LD r,d8 and the accumulator and flag operations (columns 4 to 7 of the
/// 00-3F block).
#[verifier::opaque]
pub open spec fn base_singles(s: GbState, op: u8) -> (GbState, u32) {
    let col = op as int % 8;
    let row = op as int / 8;
    let rr = row / 2;
    let a = s.registers[REG_A as int];
    if col == 4 || col == 5 {
        let v = operand(s, row);
        let f = s.registers[REG_F as int];
        let (r, f2) = if col == 4 {
            (wrap8(v + 1), inc_flags(f, v))
        } else {
            (wrap8(v - 1), dec_flags(f, v))
        };
        (
            set_operand(set_f(s, f2), row, r),
            if row == 6 {
                12
            } else {
                4
            },
        )
    } else if col == 6 {
        (
            set_operand(advance(s, 1), row, imm8(s)),
            if row == 6 {
                12
            } else {
                8
            },
        )
    } else {
        let f = s.registers[REG_F as int];
        (
            if row < 4 {
                rotate_a(s, row)
            } else if row == 4 {
                daa(s)
            } else if row == 5 {
                set_f(set_reg(s, REG_A as int, !a), with_flag(with_flag(f, FLAG_N, true), FLAG_H, true))
            } else if row == 6 {
                set_f(s, with_flag(with_flag(with_flag(f, FLAG_N, false), FLAG_H, false), FLAG_C, true))
            } else {
                set_f(
                    s,
                    with_flag(with_flag(with_flag(f, FLAG_N, false), FLAG_H, false), FLAG_C, !flag(s, FLAG_C)),
                )
            },
            4,
        )
    }
}

/// Opcodes 00-3F, with the program counter past the opcode.
pub open spec fn exec_base_block(s: GbState, op: u8) -> (GbState, u32) {
    let col = op as int % 8;
    if col == 0 {
        base_jumps(s, op)
    } else if col <= 3 {
        base_pairs(s, op)
    } else {
        base_singles(s, op)
    }
}

/// Register pair `rr` of the 00-3F block: BC, DE, HL, SP.
pub open spec fn pair16(s: GbState, rr: int) -> u16 {
    if rr == 3 {
        s.sp
    } else {
        pair(s.registers[2 * rr + 2], s.registers[2 * rr + 3])
    }
}

pub open spec fn set_pair16(s: GbState, rr: int, v: u16) -> GbState {
    if rr == 3 {
        GbState { sp: v, ..s }
    } else {
        GbState { registers: with_pair(s.registers, 2 * rr + 2, 2 * rr + 3, v), ..s }
    }
}

/// Opcodes 40-7F: `LD r, r'`, and HALT at 76.
#[verifier::opaque]
pub open spec fn exec_load_block(s: GbState, op: u8) -> (GbState, u32) {
    let to = (op as int / 8) % 8;
    let from = op as int % 8;
    if op == 0x76 {
        (GbState { halted: true, ..s }, 4)
    } else {
        (
            set_operand(s, to, operand(s, from)),
            if to == 6 || from == 6 {
                8
            } else {
                4
            },
        )
    }
}

/// Opcodes 80-BF: accumulator operations on a register or on the byte at HL.
#[verifier::opaque]
pub open spec fn exec_alu_block(s: GbState, op: u8) -> (GbState, u32) {
    let code = op as int % 8;
    (
        alu(s, (op as int / 8) % 8, operand(s, code)),
        if code == 6 {
            8
        } else {
            4
        },
    )
}

/// Register pair of PUSH and POP: BC, DE, HL, AF.
pub open spec fn stack_pair(s: GbState, rr: int) -> u16 {
    if rr == 3 {
        pair(s.registers[REG_A as int], s.registers[REG_F as int])
    } else {
        pair16(s, rr)
    }
}

/// A signed 8-bit offset added to SP, with H and C from the low nibble and byte.
pub open spec fn sp_offset_flags(s: GbState, off: u16) -> u8 {
    with_flags(
        s.registers[REG_F as int],
        false,
        false,
        s.sp % 16 + off % 16 > 15,
        s.sp % 256 + off % 256 > 255,
    )
}

/// RET cc, JP cc and CALL cc.
#[verifier::opaque]
pub open spec fn high_branch(s: GbState, op: u8) -> (GbState, u32) {
    let col = op as int % 8;
    let row = (op as int / 8) % 8;
    if col == 0 {
        if condition(s, row) {
            (GbState { pc: pop(s).1, ..pop(s).0 }, 20)
        } else {
            (s, 8)
        }
    } else if col == 2 {
        let t = advance(s, 2);
        if condition(s, row) {
            (GbState { pc: imm16(s), ..t }, 16)
        } else {
            (t, 12)
        }
    } else {
        let t = advance(s, 2);
        if condition(s, row) {
            (GbState { pc: imm16(s), ..push(t, t.pc) }, 24)
        } else {
            (t, 12)
        }
    }
}

/// The restarts, JP a16, CALL a16, RET and RETI.
#[verifier::opaque]
pub open spec fn high_jump(s: GbState, op: u8) -> (GbState, u32) {
    let row = (op as int / 8) % 8;
    if op as int % 8 == 7 {
        (GbState { pc: (row * 8) as u16, ..push(s, s.pc) }, 16)
    } else if op == 0xC3 {
        (GbState { pc: imm16(s), ..s }, 16)
    } else if op == 0xCD {
        let t = advance(s, 2);
        (GbState { pc: imm16(s), ..push(t, t.pc) }, 24)
    } else {
        let (t, v) = pop(s);
        (
            GbState {
                pc: v,
                ime: if op == 0xD9 {
                    true
                } else {
                    t.ime
                },
                ..t
            },
            16,
        )
    }
}

/// Conditional and unconditional returns, jumps and calls, RETI and the restarts.
pub open spec fn high_flow(s: GbState, op: u8) -> (GbState, u32) {
    let col = op as int % 8;
    if col == 0 || col == 2 || col == 4 {
        high_branch(s, op)
    } else {
        high_jump(s, op)
    }
}

/// PUSH and POP of BC, DE, HL and AF.
#[verifier::opaque]
pub open spec fn high_stack(s: GbState, op: u8) -> (GbState, u32) {
    let rr = (op as int / 16) % 4;
    if op as int % 8 == 1 {
        let (t, v) = pop(s);
        (
            if rr == 3 {
                GbState {
                    registers: t.registers.update(REG_A as int, high_byte(v)).update(
                        REG_F as int,
                        (v as int % 256 / 16 * 16) as u8,
                    ),
                    ..t
                }
            } else {
                set_pair16(t, rr, v)
            },
            12,
        )
    } else {
        (push(s, stack_pair(s, rr)), 16)
    }
}

/// The accumulator loads and stores of the high page and of absolute addresses.
#[verifier::opaque]
pub open spec fn high_memory(s: GbState, op: u8) -> (GbState, u32) {
    let a = s.registers[REG_A as int];
    if op == 0xE0 {
        (gb_write(advance(s, 1), (0xFF00 + imm8(s)) as u16, a), 12)
    } else if op == 0xF0 {
        (set_reg(advance(s, 1), REG_A as int, gb_read(s, (0xFF00 + imm8(s)) as u16)), 12)
    } else if op == 0xE2 {
        (gb_write(s, (0xFF00 + s.registers[REG_C as int]) as u16, a), 8)
    } else if op == 0xF2 {
        (set_reg(s, REG_A as int, gb_read(s, (0xFF00 + s.registers[REG_C as int]) as u16)), 8)
    } else if op == 0xEA {
        (gb_write(advance(s, 2), imm16(s), a), 16)
    } else {
        (set_reg(advance(s, 2), REG_A as int, gb_read(s, imm16(s))), 16)
    }
}

/// ADD SP,r8, LD HL,SP+r8, JP (HL), LD SP,HL, DI and, for the last remaining opcode FB, EI.
#[verifier::opaque]
pub open spec fn high_control(s: GbState, op: u8) -> (GbState, u32) {
    if op == 0xE8 || op == 0xF8 {
        let off = sign_extend(imm8(s));
        let t = set_f(advance(s, 1), sp_offset_flags(s, off));
        let r = wrap16(s.sp + off);
        if op == 0xE8 {
            (GbState { sp: r, ..t }, 16)
        } else {
            (GbState { registers: with_pair(t.registers, REG_H as int, REG_L as int, r), ..t }, 12)
        }
    } else if op == 0xE9 {
        (GbState { pc: hl(s), ..s }, 4)
    } else if op == 0xF9 {
        (GbState { sp: hl(s), ..s }, 8)
    } else if op == 0xF3 {
        (GbState { ime: false, ..s }, 4)
    } else {
        (GbState { ime: true, halted: false, ..s }, 4)
    }
}

/// The opcodes without an instruction.
pub open spec fn gb_illegal(op: u8) -> bool {
    op == 0xD3 || op == 0xDB || op == 0xDD || op == 0xE3 || op == 0xE4 || op == 0xEB || op == 0xEC
        || op == 0xED || op == 0xF4 || op == 0xFC || op == 0xFD
}

/// The group of an opcode of the C0-FF block.
pub open spec fn high_group(op: u8) -> int {
    let col = op as int % 8;
    let row = (op as int / 8) % 8;
    if (row < 4 && (col == 0 || col == 2 || col == 4)) || col == 7 || op == 0xC3 || op == 0xCD
        || op == 0xC9 || op == 0xD9 {
        0
    } else if (col == 1 || col == 5) && row % 2 == 0 {
        1
    } else if col == 6 {
        2
    } else if op == 0xE0 || op == 0xF0 || op == 0xE2 || op == 0xF2 || op == 0xEA || op == 0xFA {
        3
    } else {
        4
    }
}

/// Opcodes C0-FF other than the CB prefix, with the program counter past the opcode.
pub open spec fn exec_high_block(s: GbState, op: u8) -> (GbState, u32) {
    let group = high_group(op);
    if group == 0 {
        high_flow(s, op)
    } else if group == 1 {
        high_stack(s, op)
    } else if group == 2 {
        (alu(advance(s, 1), (op as int / 8) % 8, imm8(s)), 8)
    } else if group == 3 {
        high_memory(s, op)
    } else {
        high_control(s, op)
    }
}

/// The instruction `op` with the program counter past it: the next state and the cycles
/// it takes. Only opcodes with an instruction (`!gb_illegal(op)`) reach it.
pub open spec fn exec_opcode(s: GbState, op: u8) -> (GbState, u32) {
    if op < 0x40 {
        exec_base_block(s, op)
    } else if op < 0x80 {
        exec_load_block(s, op)
    } else if op < 0xC0 {
        exec_alu_block(s, op)
    } else if op == 0xCB {
        exec_cb(advance(s, 1), imm8(s))
    } else {
        exec_high_block(s, op)
    }
}

/// One instruction: nothing runs before a program is loaded or while halted (four cycles
/// pass); otherwise the opcode at the program counter is fetched. An opcode without an
/// instruction is an `UnrecognizedOpcode` error carrying its address, with the state left
/// as fetched; any other is executed and its cycles are counted.
pub open spec fn gb_instruction(s: GbState) -> (GbState, Result<u32, EmuError>) {
    if !s.rom_loaded || s.halted {
        (s, Ok(4))
    } else {
        let op = gb_read(s, s.pc);
        let f = GbState { opcode: op, pc: wrap16(s.pc + 1), ..s };
        if gb_illegal(op) {
            (f, Err(EmuError::UnrecognizedOpcode { opcode: op as u64, pc: s.pc as u64 }))
        } else {
            let (t, cycles) = exec_opcode(f, op);
            (
                GbState { cycles: ((t.cycles + cycles) % 0x1_0000_0000_0000_0000) as u64, ..t },
                Ok(cycles),
            )
        }
    }
}

/// The background image of video RAM: one bit per pixel, most significant bit first.
pub open spec fn background(vram: Seq<u8>) -> Seq<u32> {
    Seq::new(
        GB_PIXELS as nat,
        |i: int|
            if (vram[i / 8] >> ((7 - i % 8) as u8)) & 1u8 != 0 {
                DARK_GREEN
            } else {
                LIGHT_GREEN
            },
    )
}

} // verus!
