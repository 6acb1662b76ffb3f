//! The mathematical model of a CHIP-8 machine and the meaning of each instruction.
use crate::error::{EmuError, UsageHint};
use crate::lcg::lcg_step;
use vstd::prelude::*;

verus! {

/// Screen width in pixels.
pub const WIDTH: usize = 64;

/// Screen height in pixels.
pub const HEIGHT: usize = 32;

/// Number of pixels on the screen.
pub const SCREEN_PIXELS: usize = 2048;

/// Size of the address space in bytes.
pub const MEMORY_SIZE: usize = 4096;

/// Number of levels of the call stack.
pub const STACK_DEPTH: usize = 16;

/// Number of general purpose registers and of logical keys.
pub const REGISTER_COUNT: usize = 16;

/// Address where loaded programs start.
pub const PROGRAM_START_ADDRESS: u16 = 0x200;

/// Address of the built-in hexadecimal font.
pub const FONTSET_START_ADDRESS: u16 = 0x50;

/// The built-in hexadecimal font: five rows per digit, 0 to F.
pub const FONT_SET: [u8; 80] = [
    0xF0, 0x90, 0x90, 0x90, 0xF0,  // 0
    0x20, 0x60, 0x20, 0x20, 0x70,  // 1
    0xF0, 0x10, 0xF0, 0x80, 0xF0,  // 2
    0xF0, 0x10, 0xF0, 0x10, 0xF0,  // 3
    0x90, 0x90, 0xF0, 0x10, 0x10,  // 4
    0xF0, 0x80, 0xF0, 0x10, 0xF0,  // 5
    0xF0, 0x80, 0xF0, 0x90, 0xF0,  // 6
    0xF0, 0x10, 0x20, 0x40, 0x40,  // 7
    0xF0, 0x90, 0xF0, 0x90, 0xF0,  // 8
    0xF0, 0x90, 0xF0, 0x10, 0xF0,  // 9
    0xF0, 0x90, 0xF0, 0x90, 0x90,  // A
    0xE0, 0x90, 0xE0, 0x90, 0xE0,  // B
    0xF0, 0x80, 0x80, 0x80, 0xF0,  // C
    0xE0, 0x90, 0x90, 0x90, 0xE0,  // D
    0xF0, 0x80, 0xF0, 0x80, 0xF0,  // E
    0xF0, 0x80, 0xF0, 0x80, 0x80,  // F
];

/// How a sprite that reaches past the screen edge is drawn.
#[derive(Debug, Clone, Copy, PartialEq, Eq, Structural)]
pub enum EdgePolicy {
    /// Pixels past an edge come back in on the opposite edge.
    Wrap,
    /// Pixels past an edge are not drawn.
    Clip,
}

/// The state of a CHIP-8 machine as the instructions see it.
pub struct Chip8State {
    pub registers: Seq<u8>,
    pub memory: Seq<u8>,
    pub index: u16,
    pub pc: u16,
    pub stack: Seq<u16>,
    pub sp: u8,
    pub delay: u8,
    pub sound: u8,
    pub keys: Seq<bool>,
    pub pixels: Seq<bool>,
    /// A key was seen pressed by the key-wait instruction and not yet released.
    pub key_latched: bool,
    /// Multiplier, increment and state of the random source.
    pub rng: (u8, u8, u8),
    /// The last opcode fetched.
    pub opcode: u16,
}

impl Chip8State {
    /// Every sequence has the length of the store it models.
    pub open spec fn wf(self) -> bool {
        &&& self.registers.len() == REGISTER_COUNT
        &&& self.memory.len() == MEMORY_SIZE
        &&& self.stack.len() == STACK_DEPTH
        &&& self.keys.len() == REGISTER_COUNT
        &&& self.pixels.len() == SCREEN_PIXELS
    }
}

pub open spec fn op_x(op: u16) -> int {
    (op as int / 256) % 16
}

pub open spec fn op_y(op: u16) -> int {
    (op as int / 16) % 16
}

pub open spec fn op_n(op: u16) -> int {
    op as int % 16
}

pub open spec fn op_kk(op: u16) -> u8 {
    (op as int % 256) as u8
}

pub open spec fn op_nnn(op: u16) -> u16 {
    (op as int % 4096) as u16
}

/// Top nibble of an opcode: its family.
pub open spec fn op_family(op: u16) -> int {
    op as int / 4096
}

pub open spec fn wrap16(v: int) -> u16 {
    (v % 65536) as u16
}

/// The lowest address at or after `start` that lies outside memory.
pub open spec fn first_bad_address(start: int) -> int {
    if start >= MEMORY_SIZE {
        start
    } else {
        MEMORY_SIZE as int
    }
}

/// The opcode stored big-endian at `addr`.
pub open spec fn fetch(memory: Seq<u8>, addr: int) -> u16 {
    (memory[addr] as int * 256 + memory[addr + 1] as int) as u16
}

pub open spec fn bool_byte(b: bool) -> u8 {
    if b {
        1
    } else {
        0
    }
}

/// The registers after an `8xy_` instruction with last nibble `sel`, or `None` for an
/// unassigned `sel`. The flag register is written last.
pub open spec fn alu_registers(regs: Seq<u8>, x: int, y: int, sel: int) -> Option<Seq<u8>> {
    let vx = regs[x];
    let vy = regs[y];
    if sel == 0 {
        Some(regs.update(x, vy))
    } else if sel == 1 {
        Some(regs.update(x, vx | vy).update(15, 0))
    } else if sel == 2 {
        Some(regs.update(x, vx & vy).update(15, 0))
    } else if sel == 3 {
        Some(regs.update(x, vx ^ vy).update(15, 0))
    } else if sel == 4 {
        Some(
            regs.update(x, ((vx as int + vy as int) % 256) as u8).update(
                15,
                bool_byte(vx as int + vy as int > 255),
            ),
        )
    } else if sel == 5 {
        Some(
            regs.update(x, ((vx as int - vy as int) % 256) as u8).update(15, bool_byte(vx >= vy)),
        )
    } else if sel == 6 {
        Some(regs.update(x, vy / 2).update(15, vy % 2))
    } else if sel == 7 {
        Some(
            regs.update(x, ((vy as int - vx as int) % 256) as u8).update(15, bool_byte(vy >= vx)),
        )
    } else if sel == 14 {
        Some(regs.update(x, ((vy as int * 2) % 256) as u8).update(15, vy / 128))
    } else {
        None
    }
}

/// The `8xy_` family.
pub open spec fn exec_alu(s: Chip8State, op: u16) -> Result<Chip8State, EmuError> {
    match alu_registers(s.registers, op_x(op), op_y(op), op_n(op)) {
        Some(regs) => Ok(Chip8State { registers: regs, ..s }),
        None => Err(
            EmuError::InvalidOpcodeUsage {
                opcode: op as u64,
                pc: s.pc as u64,
                hint: UsageHint::AluSelector,
            },
        ),
    }
}

/// Bit `col` of a sprite row, counted from the most significant bit.
pub open spec fn sprite_bit(byte: u8, col: int) -> bool {
    byte & (0x80u8 >> (col as u8)) != 0
}

/// Column of the sprite that lands on screen column `px`, for a sprite drawn at `x0`.
pub open spec fn sprite_col(px: int, x0: int, edge: EdgePolicy) -> int {
    match edge {
        EdgePolicy::Wrap => (px - x0) % (WIDTH as int),
        EdgePolicy::Clip => px - x0,
    }
}

/// Row of the sprite that lands on screen row `py`, for a sprite drawn at `y0`.
pub open spec fn sprite_row(py: int, y0: int, edge: EdgePolicy) -> int {
    match edge {
        EdgePolicy::Wrap => (py - y0) % (HEIGHT as int),
        EdgePolicy::Clip => py - y0,
    }
}

/// Pixel `p` receives a set sprite bit among the first `cells` cells of the sprite
/// (cells counted row by row, 8 to a row) of `n` rows read from `memory` at `index`.
pub open spec fn covered_upto(
    memory: Seq<u8>,
    index: int,
    n: int,
    x0: int,
    y0: int,
    edge: EdgePolicy,
    p: int,
    cells: int,
) -> bool {
    let col = sprite_col(p % (WIDTH as int), x0, edge);
    let row = sprite_row(p / (WIDTH as int), y0, edge);
    &&& 0 <= col < 8
    &&& 0 <= row < n
    &&& row * 8 + col < cells
    &&& sprite_bit(memory[index + row], col)
}

/// Pixel `p` is toggled by the sprite.
pub open spec fn covered(
    memory: Seq<u8>,
    index: int,
    n: int,
    x0: int,
    y0: int,
    edge: EdgePolicy,
    p: int,
) -> bool {
    covered_upto(memory, index, n, x0, y0, edge, p, n * 8)
}

/// Number of sprite rows that are read from memory.
pub open spec fn rows_read(n: int, y0: int, edge: EdgePolicy) -> int {
    match edge {
        EdgePolicy::Wrap => n,
        EdgePolicy::Clip => if y0 + n <= HEIGHT {
            n
        } else {
            HEIGHT - y0
        },
    }
}

/// The screen after XOR-drawing the sprite.
pub open spec fn drawn_pixels(
    pixels: Seq<bool>,
    memory: Seq<u8>,
    index: int,
    n: int,
    x0: int,
    y0: int,
    edge: EdgePolicy,
) -> Seq<bool> {
    Seq::new(pixels.len(), |p: int| pixels[p] != covered(memory, index, n, x0, y0, edge, p))
}

/// Some pixel that was set is toggled off among the first `cells` cells of the sprite.
pub open spec fn collides_upto(
    pixels: Seq<bool>,
    memory: Seq<u8>,
    index: int,
    n: int,
    x0: int,
    y0: int,
    edge: EdgePolicy,
    cells: int,
) -> bool {
    exists|p: int|
        0 <= p < SCREEN_PIXELS && #[trigger] covered_upto(memory, index, n, x0, y0, edge, p, cells)
            && pixels[p]
}

/// Some pixel that was set is toggled off by the sprite.
pub open spec fn collides(
    pixels: Seq<bool>,
    memory: Seq<u8>,
    index: int,
    n: int,
    x0: int,
    y0: int,
    edge: EdgePolicy,
) -> bool {
    collides_upto(pixels, memory, index, n, x0, y0, edge, n * 8)
}

/// `Dxyn`: draw `n` sprite rows from memory at the index register at `(Vx, Vy)`.
pub open spec fn exec_draw(s: Chip8State, op: u16, edge: EdgePolicy) -> Result<
    Chip8State,
    EmuError,
> {
    let n = op_n(op);
    let x0 = s.registers[op_x(op)] as int % (WIDTH as int);
    let y0 = s.registers[op_y(op)] as int % (HEIGHT as int);
    let rows = rows_read(n, y0, edge);
    if rows > 0 && s.index as int + rows > MEMORY_SIZE {
        Err(
            EmuError::InvalidMemoryAccess {
                addr: first_bad_address(s.index as int) as u64,
                pc: s.pc as u64,
            },
        )
    } else {
        let hit = collides(s.pixels, s.memory, s.index as int, n, x0, y0, edge);
        Ok(
            Chip8State {
                pixels: drawn_pixels(s.pixels, s.memory, s.index as int, n, x0, y0, edge),
                registers: s.registers.update(15, bool_byte(hit)),
                ..s
            },
        )
    }
}

/// Index of the lowest pressed key at or after `i`, or 16 when none is pressed.
pub open spec fn lowest_pressed(keys: Seq<bool>, i: int) -> int
    decreases 16 - i,
{
    if i >= 16 {
        16
    } else if keys[i] {
        i
    } else {
        lowest_pressed(keys, i + 1)
    }
}

/// `Fx0A`: latch the lowest pressed key into `Vx`; move on once every key is released
/// after a latch, otherwise repeat the instruction.
pub open spec fn exec_key_wait(s: Chip8State, x: int) -> Chip8State {
    let k = lowest_pressed(s.keys, 0);
    let regs = if k < 16 {
        s.registers.update(x, k as u8)
    } else {
        s.registers
    };
    let latched = k < 16 || s.key_latched;
    if latched && k == 16 {
        Chip8State { registers: regs, key_latched: false, ..s }
    } else {
        Chip8State {
            registers: regs,
            key_latched: latched,
            pc: wrap16(s.pc as int - 2),
            ..s
        }
    }
}

/// Memory with `values` written from `start` on.
pub open spec fn write_block(memory: Seq<u8>, start: int, values: Seq<u8>) -> Seq<u8> {
    Seq::new(
        memory.len(),
        |i: int|
            if start <= i < start + values.len() {
                values[i - start]
            } else {
                memory[i]
            },
    )
}

/// The three decimal digits of `v`: hundreds, tens, ones.
pub open spec fn bcd_digits(v: u8) -> Seq<u8> {
    seq![v / 100, (v / 10) % 10, v % 10]
}

/// The `Fx__` family.
pub open spec fn exec_misc(s: Chip8State, op: u16) -> Result<Chip8State, EmuError> {
    let x = op_x(op);
    let vx = s.registers[x];
    let sel = op_kk(op);
    let i = s.index as int;
    let bad_memory = EmuError::InvalidMemoryAccess {
        addr: first_bad_address(i) as u64,
        pc: s.pc as u64,
    };
    if sel == 0x07 {
        Ok(Chip8State { registers: s.registers.update(x, s.delay), ..s })
    } else if sel == 0x0A {
        Ok(exec_key_wait(s, x))
    } else if sel == 0x15 {
        Ok(Chip8State { delay: vx, ..s })
    } else if sel == 0x18 {
        Ok(Chip8State { sound: vx, ..s })
    } else if sel == 0x1E {
        Ok(Chip8State { index: wrap16(i + vx as int), ..s })
    } else if sel == 0x29 {
        Ok(Chip8State { index: (FONTSET_START_ADDRESS + (vx as int % 16) * 5) as u16, ..s })
    } else if sel == 0x33 {
        if i + 3 > MEMORY_SIZE {
            Err(bad_memory)
        } else {
            Ok(Chip8State { memory: write_block(s.memory, i, bcd_digits(vx)), ..s })
        }
    } else if sel == 0x55 {
        if i + x + 1 > MEMORY_SIZE {
            Err(bad_memory)
        } else {
            Ok(
                Chip8State {
                    memory: write_block(s.memory, i, s.registers.subrange(0, x + 1)),
                    index: (i + x + 1) as u16,
                    ..s
                },
            )
        }
    } else if sel == 0x65 {
        if i + x + 1 > MEMORY_SIZE {
            Err(bad_memory)
        } else {
            Ok(
                Chip8State {
                    registers: write_block(s.registers, 0, s.memory.subrange(i, i + x + 1)),
                    index: (i + x + 1) as u16,
                    ..s
                },
            )
        }
    } else {
        Err(EmuError::InvalidOpcodeUsage { opcode: op as u64, pc: s.pc as u64, hint: UsageHint::MiscSelector })
    }
}

/// `s` with the program counter moved past the next instruction when `cond` holds.
pub open spec fn skip_if(s: Chip8State, cond: bool) -> Chip8State {
    if cond {
        Chip8State { pc: wrap16(s.pc as int + 2), ..s }
    } else {
        s
    }
}

/// `00E0` clears the screen and `00EE` returns from a subroutine; any other opcode of the
/// first family is unknown.
pub open spec fn exec_system(s: Chip8State, op: u16) -> Result<Chip8State, EmuError> {
    if op == 0x00E0 {
        Ok(Chip8State { pixels: Seq::new(SCREEN_PIXELS as nat, |p: int| false), ..s })
    } else if op == 0x00EE {
        if 1 <= s.sp <= STACK_DEPTH {
            Ok(Chip8State { sp: (s.sp - 1) as u8, pc: s.stack[s.sp - 1], ..s })
        } else {
            Err(
                EmuError::InvalidStackAccess {
                    sp: ((s.sp as int - 1) % 256) as u64,
                    pc: s.pc as u64,
                },
            )
        }
    } else {
        Err(EmuError::UnrecognizedOpcode { opcode: op as u64, pc: s.pc as u64 })
    }
}

/// `1nnn` jumps, `2nnn` calls a subroutine, `Bnnn` jumps to `nnn + V0`.
pub open spec fn exec_flow(s: Chip8State, op: u16) -> Result<Chip8State, EmuError> {
    let nnn = op_nnn(op);
    let family = op_family(op);
    if family == 1 {
        Ok(Chip8State { pc: nnn, ..s })
    } else if family == 2 {
        if s.sp < STACK_DEPTH {
            Ok(
                Chip8State {
                    stack: s.stack.update(s.sp as int, s.pc),
                    sp: (s.sp + 1) as u8,
                    pc: nnn,
                    ..s
                },
            )
        } else {
            Err(EmuError::InvalidStackAccess { sp: s.sp as u64, pc: s.pc as u64 })
        }
    } else {
        Ok(Chip8State { pc: (s.registers[0] + nnn) as u16, ..s })
    }
}

/// The conditional skips: `3xkk`, `4xkk`, `5xy0`, `9xy0`, `Ex9E` and `ExA1`.
pub open spec fn exec_skip(s: Chip8State, op: u16) -> Result<Chip8State, EmuError> {
    let x = op_x(op);
    let y = op_y(op);
    let kk = op_kk(op);
    let family = op_family(op);
    let usage = EmuError::InvalidOpcodeUsage {
        opcode: op as u64,
        pc: s.pc as u64,
        hint: UsageHint::LastNibbleZero,
    };
    if family == 3 {
        Ok(skip_if(s, s.registers[x] == kk))
    } else if family == 4 {
        Ok(skip_if(s, s.registers[x] != kk))
    } else if family == 5 {
        if op_n(op) != 0 {
            Err(usage)
        } else {
            Ok(skip_if(s, s.registers[x] == s.registers[y]))
        }
    } else if family == 9 {
        if op_n(op) != 0 {
            Err(usage)
        } else {
            Ok(skip_if(s, s.registers[x] != s.registers[y]))
        }
    } else {
        let pressed = s.keys[s.registers[x] as int % 16];
        if kk == 0x9E {
            Ok(skip_if(s, pressed))
        } else if kk == 0xA1 {
            Ok(skip_if(s, !pressed))
        } else {
            Err(
                EmuError::InvalidOpcodeUsage {
                    opcode: op as u64,
                    pc: s.pc as u64,
                    hint: UsageHint::KeySelector,
                },
            )
        }
    }
}

/// `6xkk` loads, `7xkk` adds without flag, `Annn` sets the index register, `Cxkk` loads a
/// random byte masked by `kk`.
pub open spec fn exec_load(s: Chip8State, op: u16) -> Chip8State {
    let x = op_x(op);
    let kk = op_kk(op);
    let family = op_family(op);
    if family == 6 {
        Chip8State { registers: s.registers.update(x, kk), ..s }
    } else if family == 7 {
        Chip8State {
            registers: s.registers.update(x, ((s.registers[x] as int + kk as int) % 256) as u8),
            ..s
        }
    } else if family == 10 {
        Chip8State { index: op_nnn(op), ..s }
    } else {
        let r = lcg_step(s.rng.0, s.rng.1, s.rng.2);
        Chip8State { registers: s.registers.update(x, r & kk), rng: (s.rng.0, s.rng.1, r), ..s }
    }
}

/// The meaning of opcode `op` on a state whose program counter already points past it:
/// the next state, or the error that the instruction raises (the state then stays as it is).
#[verifier::opaque]
pub open spec fn execute(s: Chip8State, op: u16, edge: EdgePolicy) -> Result<Chip8State, EmuError> {
    let family = op_family(op);
    if family == 0 {
        exec_system(s, op)
    } else if family == 1 || family == 2 || family == 11 {
        exec_flow(s, op)
    } else if family == 3 || family == 4 || family == 5 || family == 9 || family == 14 {
        exec_skip(s, op)
    } else if family == 6 || family == 7 || family == 10 || family == 12 {
        Ok(exec_load(s, op))
    } else if family == 8 {
        exec_alu(s, op)
    } else if family == 13 {
        exec_draw(s, op, edge)
    } else {
        exec_misc(s, op)
    }
}

/// The state after `reset`: registers, index, program counter, stack, timers, screen, keys,
/// key latch and last opcode back at their power-up values and the font written again;
/// the rest of memory (with a loaded program) and the random source are kept.
pub open spec fn reset_state(s: Chip8State) -> Chip8State {
    Chip8State {
        memory: write_block(s.memory, FONTSET_START_ADDRESS as int, FONT_SET@),
        keys: Seq::new(16, |i: int| false),
        registers: Seq::new(16, |i: int| 0u8),
        index: 0,
        pc: PROGRAM_START_ADDRESS,
        stack: Seq::new(16, |i: int| 0u16),
        sp: 0,
        delay: 0,
        sound: 0,
        pixels: Seq::new(SCREEN_PIXELS as nat, |p: int| false),
        key_latched: false,
        opcode: 0,
        ..s
    }
}

/// The state once the opcode at the program counter has been fetched and the program
/// counter moved past it.
pub open spec fn fetched(s: Chip8State) -> Chip8State {
    Chip8State { opcode: fetch(s.memory, s.pc as int), pc: (s.pc + 2) as u16, ..s }
}

/// One fetch-decode-execute cycle: the next state and the outcome.
pub open spec fn step_spec(s: Chip8State, edge: EdgePolicy) -> (Chip8State, Result<(), EmuError>) {
    if s.pc as int + 1 >= MEMORY_SIZE {
        (
            s,
            Err(
                EmuError::InvalidMemoryAccess {
                    addr: first_bad_address(s.pc as int) as u64,
                    pc: s.pc as u64,
                },
            ),
        )
    } else {
        let f = fetched(s);
        match execute(f, f.opcode, edge) {
            Ok(next) => (next, Ok(())),
            Err(e) => (f, Err(e)),
        }
    }
}

} // verus!
