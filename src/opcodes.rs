//! Game Boy CPU opcode cycle timings.
use vstd::prelude::*;

verus! {

/// Cycles of `opcode` as (branch not taken, branch taken); both are equal for an
/// instruction that does not branch. Opcodes not listed take four cycles.
pub open spec fn opcode_cycles(op: u8) -> (u32, u32) {
    if op == 0x01 || op == 0x06 || op == 0x0E || op == 0x11 || op == 0x16 || op == 0x1E || op
        == 0x20 || op == 0x21 || op == 0x26 || op == 0x2E || op == 0x30 || op == 0x31 || op == 0x36
        || op == 0x3E || op == 0xC6 || op == 0xCE || op == 0xD6 || op == 0xDE || op == 0xE6 || op
        == 0xEE || op == 0xF6 || op == 0xFE {
        (8, 8)
    } else if op == 0xE0 || op == 0xE2 || op == 0xF0 || op == 0xF2 {
        (12, 12)
    } else if op == 0xEA || op == 0xFA || op == 0xC1 || op == 0xC5 || op == 0xD1 || op == 0xD5
        || op == 0xE1 || op == 0xE5 || op == 0xF1 || op == 0xF5 || op == 0xC3 || op == 0xC9 || op
        == 0xCD || op == 0xD9 || op == 0xE9 || op == 0xF9 || op == 0xFB || op == 0xF3 || (op >= 0xC0
        && op % 8 == 7) {
        (16, 16)
    } else if op == 0xC0 || op == 0xD0 || op == 0xC8 || op == 0xD8 {
        (8, 20)
    } else if op == 0xC2 || op == 0xD2 || op == 0xCA || op == 0xDA {
        (12, 16)
    } else if op == 0xC4 || op == 0xD4 || op == 0xCC || op == 0xDC {
        (12, 24)
    } else {
        (4, 4)
    }
}

/// Returns the cycle count for a given opcode as (cycles if not taken, cycles if taken);
/// for non-branching instructions both values are the same.
pub fn get_opcode_cycles(opcode: u8) -> (r: (u32, u32))
    ensures
        r == opcode_cycles(opcode),
{
    match opcode {
        // 4-cycle instructions
        0x00 | 0x02 | 0x03 | 0x04 | 0x05 | 0x07 | 0x08 | 0x09 | 0x0A | 0x0B | 0x0C | 0x0D
        | 0x0F => (4, 4),
        0x12 | 0x13 | 0x14 | 0x15 | 0x17 | 0x18 | 0x19 | 0x1A | 0x1B | 0x1C | 0x1D | 0x1F => (4, 4),
        0x22 | 0x23 | 0x24 | 0x25 | 0x27 | 0x28 | 0x29 | 0x2A | 0x2B | 0x2C | 0x2D | 0x2F => (4, 4),
        0x32 | 0x33 | 0x34 | 0x35 | 0x37 | 0x38 | 0x39 | 0x3A | 0x3B | 0x3C | 0x3D | 0x3F => (4, 4),
        // LD r, r' and HALT
        0x40..=0x7F => (4, 4),
        // ADD, ADC, SUB, SBC, AND, XOR, OR, CP with a register
        0x80..=0xBF => (4, 4),
        // 8-cycle instructions
        0x01 | 0x06 | 0x0E | 0x11 | 0x16 | 0x1E | 0x20 | 0x21 | 0x26 | 0x2E | 0x30 | 0x31 | 0x36
        | 0x3E => (8, 8),
        0xC6 | 0xCE | 0xD6 | 0xDE | 0xE6 | 0xEE | 0xF6 | 0xFE => (8, 8),
        0xE0 | 0xE2 | 0xF0 | 0xF2 => (12, 12),
        0xEA | 0xFA => (16, 16),
        0xC1 | 0xC5 | 0xD1 | 0xD5 | 0xE1 | 0xE5 | 0xF1 | 0xF5 => (16, 16),
        0xC3 | 0xC9 | 0xCD | 0xD9 | 0xE9 | 0xF9 | 0xFB | 0xF3 => (16, 16),
        // Conditional returns, jumps and calls
        0xC0 | 0xD0 | 0xC8 | 0xD8 => (8, 20),
        0xC2 | 0xD2 | 0xCA | 0xDA => (12, 16),
        0xC4 | 0xD4 | 0xCC | 0xDC => (12, 24),
        // RST
        0xC7 | 0xCF | 0xD7 | 0xDF | 0xE7 | 0xEF | 0xF7 | 0xFF => (16, 16),
        // The CB prefix itself; the instruction it introduces adds more.
        0xCB => (4, 4),
        _ => (4, 4),
    }
}

/// Cycles of a CB-prefixed opcode: 8 on a register; on the byte at HL, 12 for BIT and
/// 16 otherwise.
pub open spec fn cb_opcode_cycles(op: u8) -> u32 {
    if op % 8 == 6 {
        if 0x40 <= op < 0x80 {
            12
        } else {
            16
        }
    } else {
        8
    }
}

/// Returns the cycle count for CB-prefixed opcodes.
pub fn get_cb_opcode_cycles(opcode: u8) -> (r: u32)
    ensures
        r == cb_opcode_cycles(opcode),
{
    let on_hl = opcode % 8 == 6;
    match opcode {
        // Rotations, shifts and swaps
        0x00..=0x3F => if on_hl {
            16
        } else {
            8
        },
        // BIT n
        0x40..=0x7F => if on_hl {
            12
        } else {
            8
        },
        // RES n
        0x80..=0xBF => if on_hl {
            16
        } else {
            8
        },
        // SET n
        0xC0..=0xFF => if on_hl {
            16
        } else {
            8
        },
    }
}

} // verus!
