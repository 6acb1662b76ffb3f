//! The CHIP-8 CPU: registers, memory, stack, timers, keys and screen, and the
//! fetch-decode-execute cycle over them.
use crate::chip8_model::{
    bcd_digits, exec_alu, exec_flow, exec_load, exec_skip, exec_system, collides, collides_upto,
    covered, covered_upto, drawn_pixels, exec_draw, exec_key_wait, exec_misc, execute, fetch,
    fetched, lowest_pressed, op_family, rows_read, sprite_bit, sprite_col, sprite_row, step_spec,
    write_block, Chip8State, FONT_SET, EdgePolicy, FONTSET_START_ADDRESS, HEIGHT, MEMORY_SIZE,
    PROGRAM_START_ADDRESS, SCREEN_PIXELS, STACK_DEPTH, WIDTH,
};
use crate::emulator::{timer_cue, timer_cue_spec, AudioCue};
use crate::error::{EmuError, UsageHint};
use crate::lcg::Lcg;
use vstd::prelude::*;

verus! {

/// Memory at power-up: the font at its address, zero elsewhere.
pub open spec fn power_up_memory() -> Seq<u8> {
    write_block(Seq::new(MEMORY_SIZE as nat, |i: int| 0u8), FONTSET_START_ADDRESS as int, FONT_SET@)
}

/// Implementation of the CHIP-8 CPU.
pub struct Cpu {
    pub registers: [u8; 16],
    pub memory: [u8; 4096],
    pub index_register: u16,
    pub program_counter: u16,
    /// 16 levels of stack.
    pub stack: [u16; 16],
    pub stack_pointer: u8,
    pub delay_timer: u8,
    pub sound_timer: u8,
    /// `true` if the nth key is pressed.
    pub input_keys: [bool; 16],
    /// `true` if the pixel is on, row by row.
    pub buffer: [bool; 2048],
    pub current_opcode: u16,
    pub lcg: Lcg,
    /// Set when a sprite was drawn; the collaborator clears it after redrawing.
    pub to_draw: bool,
    pub is_mute: bool,
    /// The key-wait instruction has latched a key that is not yet released.
    pub is_key_pressed: bool,
}

impl View for Cpu {
    type V = Chip8State;

    open spec fn view(&self) -> Chip8State {
        Chip8State {
            registers: self.registers@,
            memory: self.memory@,
            index: self.index_register,
            pc: self.program_counter,
            stack: self.stack@,
            sp: self.stack_pointer,
            delay: self.delay_timer,
            sound: self.sound_timer,
            keys: self.input_keys@,
            pixels: self.buffer@,
            key_latched: self.is_key_pressed,
            rng: self.lcg@,
            opcode: self.current_opcode,
        }
    }
}

/// The outcome of an instruction as the model gives it: the state it leads to, or its error
/// with the state left as it was.
pub open spec fn follows(
    before: Chip8State,
    after: Chip8State,
    r: Result<(), EmuError>,
    model: Result<Chip8State, EmuError>,
) -> bool {
    match model {
        Ok(next) => r == Ok::<(), EmuError>(()) && after == next,
        Err(e) => r == Err::<(), EmuError>(e) && after == before,
    }
}

impl Cpu {
    /// Writes the built-in font at its address; nothing else changes.
    pub fn load_font(&mut self)
        ensures
            final(self)@ == (Chip8State {
                memory: write_block(old(self)@.memory, FONTSET_START_ADDRESS as int, FONT_SET@),
                ..old(self)@
            }),
            final(self).to_draw == old(self).to_draw,
            final(self).is_mute == old(self).is_mute,
    {
        let mut i: usize = 0;
        assert(write_block(old(self)@.memory, FONTSET_START_ADDRESS as int, FONT_SET@.subrange(0, 0))
            =~= old(self)@.memory);
        while i < 80
            invariant
                i <= 80,
                self@ == (Chip8State {
                    memory: write_block(
                        old(self)@.memory,
                        FONTSET_START_ADDRESS as int,
                        FONT_SET@.subrange(0, i as int),
                    ),
                    ..old(self)@
                }),
                self.to_draw == old(self).to_draw,
                self.is_mute == old(self).is_mute,
            decreases 80 - i,
        {
            self.memory[FONTSET_START_ADDRESS as usize + i] = FONT_SET[i];
            i += 1;
            assert(self.memory@ =~= write_block(
                old(self)@.memory,
                FONTSET_START_ADDRESS as int,
                FONT_SET@.subrange(0, i as int),
            ));
        }
        assert(FONT_SET@.subrange(0, 80) =~= FONT_SET@);
    }

    /// Initialize the CPU with default values.
    ///
    /// The program counter is set to 0x200, the start address of the program.
    /// All registers are set to 0 and the monochrome display is cleared.
    pub fn new() -> (r: Cpu)
        ensures
            r@.wf(),
            r@.memory == power_up_memory(),
            r@.registers == Seq::new(16, |i: int| 0u8),
            r@.stack == Seq::new(16, |i: int| 0u16),
            r@.keys == Seq::new(16, |i: int| false),
            r@.pixels == Seq::new(SCREEN_PIXELS as nat, |i: int| false),
            r@.pc == PROGRAM_START_ADDRESS,
            r@.index == 0 && r@.sp == 0 && r@.delay == 0 && r@.sound == 0 && r@.opcode == 0,
            !r@.key_latched,
            r@.rng == (75u8, 1u8, 31u8),
            !r.to_draw && !r.is_mute,
    {
        let mut memory = [0u8; 4096];
        let mut i: usize = 0;
        while i < 80
            invariant
                i <= 80,
                memory@ == write_block(
                    Seq::new(MEMORY_SIZE as nat, |j: int| 0u8),
                    FONTSET_START_ADDRESS as int,
                    FONT_SET@.subrange(0, i as int),
                ),
            decreases 80 - i,
        {
            memory[FONTSET_START_ADDRESS as usize + i] = FONT_SET[i];
            i += 1;
            assert(memory@ =~= write_block(
                Seq::new(MEMORY_SIZE as nat, |j: int| 0u8),
                FONTSET_START_ADDRESS as int,
                FONT_SET@.subrange(0, i as int),
            ));
        }
        assert(FONT_SET@.subrange(0, 80) =~= FONT_SET@);
        let r = Cpu {
            registers: [0u8; 16],
            memory,
            index_register: 0,
            program_counter: PROGRAM_START_ADDRESS,
            stack: [0u16; 16],
            stack_pointer: 0,
            delay_timer: 0,
            sound_timer: 0,
            input_keys: [false; 16],
            buffer: [false; 2048],
            current_opcode: 0,
            // For the first 200 values of this generator the arithmetic mean is 129.02
            // (expected 128) and the entropy 7.366 bits of 8.
            lcg: Lcg::new(75, 1, 31),
            to_draw: false,
            is_mute: false,
            is_key_pressed: false,
        };
        assert(r@.registers =~= Seq::new(16, |i: int| 0u8));
        assert(r@.stack =~= Seq::new(16, |i: int| 0u16));
        assert(r@.keys =~= Seq::new(16, |i: int| false));
        assert(r@.pixels =~= Seq::new(SCREEN_PIXELS as nat, |i: int| false));
        r
    }
}

/// Where sprite cell `(row, col)` lands on the screen, if it does.
pub open spec fn cell_pixel(x0: int, y0: int, row: int, col: int, edge: EdgePolicy) -> Option<int> {
    match edge {
        EdgePolicy::Wrap => Some(((y0 + row) % (HEIGHT as int)) * (WIDTH as int) + (x0 + col) % (WIDTH as int)),
        EdgePolicy::Clip => if x0 + col < WIDTH && y0 + row < HEIGHT {
            Some((y0 + row) * (WIDTH as int) + x0 + col)
        } else {
            None
        },
    }
}

/// A pixel is reached by a sprite cell exactly when the cell lands on it.
proof fn lemma_cell_pixel(x0: int, y0: int, row: int, col: int, edge: EdgePolicy, p: int)
    requires
        0 <= x0 < WIDTH,
        0 <= y0 < HEIGHT,
        0 <= col < 8,
        0 <= row < 16,
        0 <= p < SCREEN_PIXELS,
    ensures
        (sprite_col(p % (WIDTH as int), x0, edge) == col && sprite_row(p / (WIDTH as int), y0, edge)
            == row) <==> cell_pixel(x0, y0, row, col, edge) == Some(p),
        cell_pixel(x0, y0, row, col, edge) matches Some(q) ==> 0 <= q < SCREEN_PIXELS,
{
    let px = p % 64;
    let py = p / 64;
    assert(p == py * 64 + px && 0 <= px < 64 && 0 <= py < 32);
    lemma_mod_offset(px, x0, col, 64);
    lemma_mod_offset(py, y0, row, 32);
    lemma_split_unique(py, px, (y0 + row) % 32, (x0 + col) % 64);
    lemma_split_unique(py, px, y0 + row, x0 + col);
}

/// `(a - b) mod m` is `c` exactly when `a` is `(b + c) mod m`, for residues `a`, `b`, `c`.
proof fn lemma_mod_offset(a: int, b: int, c: int, m: int)
    requires
        0 <= a < m,
        0 <= b < m,
        0 <= c < m,
    ensures
        ((a - b) % m == c) <==> (a == (b + c) % m),
        0 <= (b + c) % m < m,
{
    if a >= b {
        vstd::arithmetic::div_mod::lemma_small_mod((a - b) as nat, m as nat);
    } else {
        vstd::arithmetic::div_mod::lemma_mod_add_multiples_vanish(a - b, m);
        vstd::arithmetic::div_mod::lemma_small_mod((a - b + m) as nat, m as nat);
    }
    if b + c >= m {
        vstd::arithmetic::div_mod::lemma_mod_sub_multiples_vanish(b + c, m);
        vstd::arithmetic::div_mod::lemma_small_mod((b + c - m) as nat, m as nat);
    } else {
        vstd::arithmetic::div_mod::lemma_small_mod((b + c) as nat, m as nat);
    }
}

/// A row-major pixel index determines its row and column.
proof fn lemma_split_unique(r1: int, c1: int, r2: int, c2: int)
    requires
        0 <= c1 < 64,
        0 <= r1,
    ensures
        (0 <= c2 < 64 && 0 <= r2 && r1 * 64 + c1 == r2 * 64 + c2) ==> (r1 == r2 && c1 == c2),
{
    if 0 <= c2 < 64 && 0 <= r2 && r1 * 64 + c1 == r2 * 64 + c2 {
        assert(r1 == r2) by (nonlinear_arith)
            requires
                0 <= c1 < 64,
                0 <= c2 < 64,
                r1 * 64 + c1 == r2 * 64 + c2,
        ;
    }
}

/// Drawing one more sprite cell changes the coverage of the pixel it lands on alone, and
/// that pixel was not covered before.
proof fn lemma_cell_step(
    memory: Seq<u8>,
    i: int,
    n: int,
    x0: int,
    y0: int,
    edge: EdgePolicy,
    row: int,
    col: int,
)
    requires
        0 <= x0 < WIDTH,
        0 <= y0 < HEIGHT,
        0 <= col < 8,
        0 <= row < rows_read(n, y0, edge),
        n <= 15,
    ensures
        forall|p: int|
            0 <= p < SCREEN_PIXELS ==> (#[trigger] covered_upto(memory, i, n, x0, y0, edge, p, row * 8 + col + 1)
                == (covered_upto(memory, i, n, x0, y0, edge, p, row * 8 + col)
                    || (cell_pixel(x0, y0, row, col, edge) == Some(p) && sprite_bit(memory[i + row], col)))),
        cell_pixel(x0, y0, row, col, edge) matches Some(q) ==> (0 <= q < SCREEN_PIXELS
            && !covered_upto(memory, i, n, x0, y0, edge, q, row * 8 + col)),
{
    assert forall|p: int| 0 <= p < SCREEN_PIXELS implies (#[trigger] covered_upto(memory, i, n, x0, y0, edge, p, row * 8 + col + 1)
        == (covered_upto(memory, i, n, x0, y0, edge, p, row * 8 + col)
            || (cell_pixel(x0, y0, row, col, edge) == Some(p) && sprite_bit(memory[i + row], col)))) by {
        lemma_cell_pixel(x0, y0, row, col, edge, p);
    }
    if let Some(q) = cell_pixel(x0, y0, row, col, edge) {
        lemma_cell_pixel(x0, y0, row, col, edge, 0);
        lemma_cell_pixel(x0, y0, row, col, edge, q);
    }
}

/// Drawing one more sprite cell adds a collision exactly when the cell is set and lands on
/// a pixel that was set.
proof fn lemma_collide_step(
    pixels: Seq<bool>,
    memory: Seq<u8>,
    i: int,
    n: int,
    x0: int,
    y0: int,
    edge: EdgePolicy,
    row: int,
    col: int,
)
    requires
        0 <= x0 < WIDTH,
        0 <= y0 < HEIGHT,
        0 <= col < 8,
        0 <= row < rows_read(n, y0, edge),
        n <= 15,
    ensures
        collides_upto(pixels, memory, i, n, x0, y0, edge, row * 8 + col + 1) == (collides_upto(
            pixels,
            memory,
            i,
            n,
            x0,
            y0,
            edge,
            row * 8 + col,
        ) || (cell_pixel(x0, y0, row, col, edge) matches Some(q) && sprite_bit(memory[i + row], col)
            && pixels[q])),
{
    let cells = row * 8 + col;
    lemma_cell_step(memory, i, n, x0, y0, edge, row, col);
    if collides_upto(pixels, memory, i, n, x0, y0, edge, cells) {
        let q = choose|q: int|
            0 <= q < SCREEN_PIXELS && #[trigger] covered_upto(memory, i, n, x0, y0, edge, q, cells)
                && pixels[q];
        assert(covered_upto(memory, i, n, x0, y0, edge, q, cells + 1));
    }
    if let Some(q) = cell_pixel(x0, y0, row, col, edge) {
        if sprite_bit(memory[i + row], col) && pixels[q] {
            assert(covered_upto(memory, i, n, x0, y0, edge, q, cells + 1));
        }
    }
    if collides_upto(pixels, memory, i, n, x0, y0, edge, cells + 1) {
        let q = choose|q: int|
            0 <= q < SCREEN_PIXELS && #[trigger] covered_upto(memory, i, n, x0, y0, edge, q, cells + 1)
                && pixels[q];
        assert(covered_upto(memory, i, n, x0, y0, edge, q, cells) || cell_pixel(x0, y0, row, col, edge)
            == Some(q));
    }
}

/// Once every row that is read has been drawn, the whole sprite has been drawn.
proof fn lemma_draw_complete(
    pixels: Seq<bool>,
    memory: Seq<u8>,
    i: int,
    n: int,
    x0: int,
    y0: int,
    edge: EdgePolicy,
)
    requires
        0 <= x0 < WIDTH,
        0 <= y0 < HEIGHT,
        0 <= n <= 15,
    ensures
        forall|p: int|
            0 <= p < SCREEN_PIXELS ==> #[trigger] covered_upto(memory, i, n, x0, y0, edge, p, rows_read(n, y0, edge) * 8)
                == covered(memory, i, n, x0, y0, edge, p),
        collides_upto(pixels, memory, i, n, x0, y0, edge, rows_read(n, y0, edge) * 8)
            == collides(pixels, memory, i, n, x0, y0, edge),
{
    let rows = rows_read(n, y0, edge);
    assert forall|p: int| 0 <= p < SCREEN_PIXELS implies #[trigger] covered_upto(memory, i, n, x0, y0, edge, p, rows * 8)
        == covered(memory, i, n, x0, y0, edge, p) by {
        assert(p / 64 < 32);
    }
    if collides(pixels, memory, i, n, x0, y0, edge) {
        let q = choose|q: int|
            0 <= q < SCREEN_PIXELS && #[trigger] covered_upto(memory, i, n, x0, y0, edge, q, n * 8)
                && pixels[q];
        assert(covered_upto(memory, i, n, x0, y0, edge, q, rows * 8));
    }
    if collides_upto(pixels, memory, i, n, x0, y0, edge, rows * 8) {
        let q = choose|q: int|
            0 <= q < SCREEN_PIXELS && #[trigger] covered_upto(memory, i, n, x0, y0, edge, q, rows * 8)
                && pixels[q];
        assert(covered_upto(memory, i, n, x0, y0, edge, q, n * 8));
    }
}

impl Cpu {
    /// `Dxyn`: XOR-draws `n` rows of the sprite at the index register at `(Vx, Vy)`;
    /// `VF` tells whether a set pixel was turned off.
    #[verifier::spinoff_prover]
    #[verifier::rlimit(30)]
    fn draw_sprite(&mut self, opcode: u16, edge: EdgePolicy) -> (r: Result<(), EmuError>)
        requires
            op_family(opcode) == 13,
        ensures
            follows(old(self)@, final(self)@, r, exec_draw(old(self)@, opcode, edge)),
            final(self).to_draw == (old(self).to_draw || r is Ok),
            final(self).is_mute == old(self).is_mute,
    {
        let x: usize = ((opcode / 256) % 16) as usize;
        let y: usize = ((opcode / 16) % 16) as usize;
        let height: usize = (opcode % 16) as usize;
        let x_pos: usize = self.registers[x] as usize % WIDTH;
        let y_pos: usize = self.registers[y] as usize % HEIGHT;
        let rows: usize = match edge {
            EdgePolicy::Wrap => height,
            EdgePolicy::Clip => if y_pos + height <= HEIGHT {
                height
            } else {
                HEIGHT - y_pos
            },
        };
        let index = self.index_register as usize;
        if rows > 0 && index + rows > MEMORY_SIZE {
            let bad: usize = if index >= MEMORY_SIZE {
                index
            } else {
                MEMORY_SIZE
            };
            return Err(
                EmuError::InvalidMemoryAccess { addr: bad as u64, pc: self.program_counter as u64 },
            );
        }
        let ghost old_pixels = self.buffer@;
        let ghost memory = self.memory@;
        let ghost n = height as int;
        let mut collision = false;
        let mut row: usize = 0;
        while row < rows
            invariant
                rows <= height <= 15,
                n == height,
                rows == rows_read(n, y_pos as int, edge),
                rows > 0 ==> index + rows <= MEMORY_SIZE,
                row <= rows,
                x_pos < WIDTH,
                y_pos < HEIGHT,
                index == self.index_register,
                self.memory@ == memory,
                old_pixels == old(self)@.pixels,
                self@ == (Chip8State { pixels: self@.pixels, ..old(self)@ }),
                self.to_draw == old(self).to_draw,
                self.is_mute == old(self).is_mute,
                forall|p: int|
                    0 <= p < SCREEN_PIXELS ==> #[trigger] self.buffer@[p] == (old_pixels[p]
                        != covered_upto(memory, index as int, n, x_pos as int, y_pos as int, edge, p, row * 8)),
                collision == collides_upto(old_pixels, memory, index as int, n, x_pos as int, y_pos as int, edge, row * 8),
            decreases rows - row,
        {
            let sprite_byte = self.memory[index + row];
            let mut col: usize = 0;
            while col < 8
                invariant
                    rows <= height <= 15,
                    n == height,
                    rows == rows_read(n, y_pos as int, edge),
                    row < rows,
                    index + rows <= MEMORY_SIZE,
                    col <= 8,
                    x_pos < WIDTH,
                    y_pos < HEIGHT,
                    index == self.index_register,
                    self.memory@ == memory,
                    old_pixels == old(self)@.pixels,
                    self@ == (Chip8State { pixels: self@.pixels, ..old(self)@ }),
                    self.to_draw == old(self).to_draw,
                    self.is_mute == old(self).is_mute,
                    sprite_byte == memory[index + row],
                    forall|p: int|
                        0 <= p < SCREEN_PIXELS ==> #[trigger] self.buffer@[p] == (old_pixels[p]
                            != covered_upto(memory, index as int, n, x_pos as int, y_pos as int, edge, p, row * 8 + col)),
                    collision == collides_upto(old_pixels, memory, index as int, n, x_pos as int, y_pos as int, edge, row * 8 + col),
                decreases 8 - col,
            {
                let (screen_x, screen_y, visible) = match edge {
                    EdgePolicy::Wrap => ((x_pos + col) % WIDTH, (y_pos + row) % HEIGHT, true),
                    EdgePolicy::Clip => (x_pos + col, y_pos + row, x_pos + col < WIDTH),
                };
                let ghost target = cell_pixel(x_pos as int, y_pos as int, row as int, col as int, edge);
                proof {
                    lemma_cell_step(memory, index as int, n, x_pos as int, y_pos as int, edge, row as int, col as int);
                    lemma_collide_step(old_pixels, memory, index as int, n, x_pos as int, y_pos as int, edge, row as int, col as int);
                    lemma_cell_pixel(x_pos as int, y_pos as int, row as int, col as int, edge, 0);
                }
                if visible && sprite_byte & (0x80u8 >> col as u8) != 0 {
                    let idx = screen_y * WIDTH + screen_x;
                    assert(target == Some(idx as int));
                    if self.buffer[idx] {
                        collision = true;
                    }
                    self.buffer[idx] = !self.buffer[idx];
                }
                col += 1;
            }
            row += 1;
        }
        proof {
            lemma_draw_complete(old_pixels, memory, index as int, n, x_pos as int, y_pos as int, edge);
        }
        self.registers[15] = if collision {
            1
        } else {
            0
        };
        self.to_draw = true;
        proof {
            assert(self.buffer@ =~= drawn_pixels(old_pixels, memory, index as int, n, x_pos as int, y_pos as int, edge));
        }
        Ok(())
    }
}

impl Cpu {
    /// `8xy_`: register to register arithmetic and logic; `VF` receives the carry, the
    /// inverted borrow or the shifted-out bit, and is cleared by OR, AND and XOR.
    fn exec_alu(&mut self, opcode: u16) -> (r: Result<(), EmuError>)
        requires
            op_family(opcode) == 8,
        ensures
            follows(old(self)@, final(self)@, r, exec_alu(old(self)@, opcode)),
            final(self).to_draw == old(self).to_draw,
            final(self).is_mute == old(self).is_mute,
    {
        let x: usize = ((opcode / 256) % 16) as usize;
        let y: usize = ((opcode / 16) % 16) as usize;
        let vx = self.registers[x];
        let vy = self.registers[y];
        match opcode % 16 {
            0x0 => {
                // LD Vx, Vy
                self.registers[x] = vy;
            },
            0x1 => {
                // OR Vx, Vy
                self.registers[x] = vx | vy;
                self.registers[15] = 0;
            },
            0x2 => {
                // AND Vx, Vy
                self.registers[x] = vx & vy;
                self.registers[15] = 0;
            },
            0x3 => {
                // XOR Vx, Vy
                self.registers[x] = vx ^ vy;
                self.registers[15] = 0;
            },
            0x4 => {
                // ADD Vx, Vy, VF = carry
                let sum: u16 = vx as u16 + vy as u16;
                self.registers[x] = (sum % 256) as u8;
                self.registers[15] = if sum > 255 {
                    1
                } else {
                    0
                };
            },
            0x5 => {
                // SUB Vx, Vy, VF = not borrow
                self.registers[x] = vx.wrapping_sub(vy);
                self.registers[15] = if vx >= vy {
                    1
                } else {
                    0
                };
            },
            0x6 => {
                // SHR Vx {, Vy}, VF = bit shifted out
                self.registers[x] = vy / 2;
                self.registers[15] = vy % 2;
            },
            0x7 => {
                // SUBN Vx, Vy: Vx = Vy - Vx, VF = not borrow
                self.registers[x] = vy.wrapping_sub(vx);
                self.registers[15] = if vy >= vx {
                    1
                } else {
                    0
                };
            },
            0xE => {
                // SHL Vx {, Vy}, VF = bit shifted out
                self.registers[x] = ((vy as u16 * 2) % 256) as u8;
                self.registers[15] = vy / 128;
            },
            _ => {
                return Err(
                    EmuError::InvalidOpcodeUsage {
                        opcode: opcode as u64,
                        pc: self.program_counter as u64,
                        hint: UsageHint::AluSelector,
                    },
                );
            },
        }
        Ok(())
    }

    /// `Fx0A`: waits for a key press and release, storing the key in `Vx`.
    fn wait_for_key(&mut self, x: usize)
        requires
            x < 16,
        ensures
            final(self)@ == exec_key_wait(old(self)@, x as int),
            final(self).to_draw == old(self).to_draw,
            final(self).is_mute == old(self).is_mute,
    {
        let mut k: usize = 0;
        while k < 16 && !self.input_keys[k]
            invariant
                k <= 16,
                lowest_pressed(self.input_keys@, 0) == lowest_pressed(self.input_keys@, k as int),
            decreases 16 - k,
        {
            k += 1;
        }
        if k < 16 {
            self.registers[x] = k as u8;
            self.is_key_pressed = true;
        }
        // Stay on this instruction until the key is released.
        if self.is_key_pressed && k == 16 {
            self.is_key_pressed = false;
        } else {
            self.program_counter = self.program_counter.wrapping_sub(2);
        }
    }

    /// `Fx__`: timers, index register, font, BCD and register block transfers.
    fn exec_misc(&mut self, opcode: u16) -> (r: Result<(), EmuError>)
        requires
            op_family(opcode) == 15,
        ensures
            follows(old(self)@, final(self)@, r, exec_misc(old(self)@, opcode)),
            final(self).to_draw == old(self).to_draw,
            final(self).is_mute == old(self).is_mute,
    {
        let x: usize = ((opcode / 256) % 16) as usize;
        let vx = self.registers[x];
        let index = self.index_register as usize;
        let bad_memory = EmuError::InvalidMemoryAccess {
            addr: if index >= MEMORY_SIZE {
                index as u64
            } else {
                MEMORY_SIZE as u64
            },
            pc: self.program_counter as u64,
        };
        match opcode % 256 {
            0x07 => {
                // LD Vx, DT
                self.registers[x] = self.delay_timer;
            },
            0x0A => {
                // LD Vx, K
                self.wait_for_key(x);
            },
            0x15 => {
                // LD DT, Vx
                self.delay_timer = vx;
            },
            0x18 => {
                // LD ST, Vx
                self.sound_timer = vx;
            },
            0x1E => {
                // ADD I, Vx
                self.index_register = self.index_register.wrapping_add(vx as u16);
            },
            0x29 => {
                // LD F, Vx: I = address of the font sprite of digit Vx
                self.index_register = FONTSET_START_ADDRESS + (vx % 16) as u16 * 5;
            },
            0x33 => {
                // LD B, Vx: hundreds, tens and ones of Vx at I, I+1 and I+2
                if index + 3 > MEMORY_SIZE {
                    return Err(bad_memory);
                }
                self.memory[index] = vx / 100;
                self.memory[index + 1] = (vx / 10) % 10;
                self.memory[index + 2] = vx % 10;
                assert(self.memory@ =~= write_block(old(self)@.memory, index as int, bcd_digits(vx)));
            },
            0x55 => {
                // LD [I], Vx: store V0 through Vx from I on
                if index + x + 1 > MEMORY_SIZE {
                    return Err(bad_memory);
                }
                let mut i: usize = 0;
                while i <= x
                    invariant
                        x < 16,
                        index + x + 1 <= MEMORY_SIZE,
                        i <= x + 1,
                        index == self.index_register,
                        self@ == (Chip8State { memory: self@.memory, ..old(self)@ }),
                        self.to_draw == old(self).to_draw,
                        self.is_mute == old(self).is_mute,
                        self.memory@ == write_block(
                            old(self)@.memory,
                            index as int,
                            self.registers@.subrange(0, i as int),
                        ),
                    decreases x + 1 - i,
                {
                    self.memory[index + i] = self.registers[i];
                    i += 1;
                    assert(self.memory@ =~= write_block(
                        old(self)@.memory,
                        index as int,
                        self.registers@.subrange(0, i as int),
                    ));
                }
                self.index_register = (index + x + 1) as u16;
            },
            0x65 => {
                // LD Vx, [I]: load V0 through Vx from I on
                if index + x + 1 > MEMORY_SIZE {
                    return Err(bad_memory);
                }
                let mut i: usize = 0;
                while i <= x
                    invariant
                        x < 16,
                        index + x + 1 <= MEMORY_SIZE,
                        i <= x + 1,
                        index == self.index_register,
                        self@ == (Chip8State { registers: self@.registers, ..old(self)@ }),
                        self.to_draw == old(self).to_draw,
                        self.is_mute == old(self).is_mute,
                        self.registers@ == write_block(
                            old(self)@.registers,
                            0,
                            self.memory@.subrange(index as int, index + i),
                        ),
                    decreases x + 1 - i,
                {
                    self.registers[i] = self.memory[index + i];
                    i += 1;
                    assert(self.registers@ =~= write_block(
                        old(self)@.registers,
                        0,
                        self.memory@.subrange(index as int, index + i),
                    ));
                }
                self.index_register = (index + x + 1) as u16;
            },
            _ => {
                return Err(
                    EmuError::InvalidOpcodeUsage {
                        opcode: opcode as u64,
                        pc: self.program_counter as u64,
                        hint: UsageHint::MiscSelector,
                    },
                );
            },
        }
        Ok(())
    }
}

impl Cpu {
    /// `00E0`, `00EE` and the unknown opcodes below `1000`.
    fn exec_system(&mut self, opcode: u16) -> (r: Result<(), EmuError>)
        requires
            op_family(opcode) == 0,
        ensures
            follows(old(self)@, final(self)@, r, exec_system(old(self)@, opcode)),
            final(self).to_draw == old(self).to_draw,
            final(self).is_mute == old(self).is_mute,
    {
        if opcode == 0x00E0 {
            // CLS
            self.buffer = [false; 2048];
            assert(self.buffer@ =~= Seq::new(SCREEN_PIXELS as nat, |p: int| false));
        } else if opcode == 0x00EE {
            // RET
            if 1 <= self.stack_pointer && self.stack_pointer as usize <= STACK_DEPTH {
                self.stack_pointer = self.stack_pointer - 1;
                self.program_counter = self.stack[self.stack_pointer as usize];
            } else {
                return Err(
                    EmuError::InvalidStackAccess {
                        sp: self.stack_pointer.wrapping_sub(1) as u64,
                        pc: self.program_counter as u64,
                    },
                );
            }
        } else {
            return Err(
                EmuError::UnrecognizedOpcode { opcode: opcode as u64, pc: self.program_counter as u64 },
            );
        }
        Ok(())
    }

    /// `1nnn`, `2nnn` and `Bnnn`.
    fn exec_flow(&mut self, opcode: u16) -> (r: Result<(), EmuError>)
        requires
            op_family(opcode) == 1 || op_family(opcode) == 2 || op_family(opcode) == 11,
        ensures
            follows(old(self)@, final(self)@, r, exec_flow(old(self)@, opcode)),
            final(self).to_draw == old(self).to_draw,
            final(self).is_mute == old(self).is_mute,
    {
        let nnn: u16 = opcode % 4096;
        let family = opcode / 4096;
        if family == 1 {
            // JP addr
            self.program_counter = nnn;
        } else if family == 2 {
            // CALL addr
            if (self.stack_pointer as usize) < STACK_DEPTH {
                self.stack[self.stack_pointer as usize] = self.program_counter;
                self.stack_pointer = self.stack_pointer + 1;
                self.program_counter = nnn;
            } else {
                return Err(
                    EmuError::InvalidStackAccess {
                        sp: self.stack_pointer as u64,
                        pc: self.program_counter as u64,
                    },
                );
            }
        } else {
            // JP V0, addr
            self.program_counter = self.registers[0] as u16 + nnn;
        }
        Ok(())
    }

    /// `3xkk`, `4xkk`, `5xy0`, `9xy0`, `Ex9E` and `ExA1`: skip the next instruction on a
    /// condition. Keys are indexed by `Vx` modulo 16.
    fn exec_skip(&mut self, opcode: u16) -> (r: Result<(), EmuError>)
        requires
            op_family(opcode) == 3 || op_family(opcode) == 4 || op_family(opcode) == 5
                || op_family(opcode) == 9 || op_family(opcode) == 14,
        ensures
            follows(old(self)@, final(self)@, r, exec_skip(old(self)@, opcode)),
            final(self).to_draw == old(self).to_draw,
            final(self).is_mute == old(self).is_mute,
    {
        let x: usize = ((opcode / 256) % 16) as usize;
        let y: usize = ((opcode / 16) % 16) as usize;
        let kk: u8 = (opcode % 256) as u8;
        let family = opcode / 4096;
        let vx = self.registers[x];
        let condition = if family == 3 {
            vx == kk
        } else if family == 4 {
            vx != kk
        } else if family == 5 || family == 9 {
            if opcode % 16 != 0 {
                return Err(
                    EmuError::InvalidOpcodeUsage {
                        opcode: opcode as u64,
                        pc: self.program_counter as u64,
                        hint: UsageHint::LastNibbleZero,
                    },
                );
            }
            (vx == self.registers[y]) == (family == 5)
        } else {
            let pressed = self.input_keys[(vx % 16) as usize];
            if kk == 0x9E {
                pressed
            } else if kk == 0xA1 {
                !pressed
            } else {
                return Err(
                    EmuError::InvalidOpcodeUsage {
                        opcode: opcode as u64,
                        pc: self.program_counter as u64,
                        hint: UsageHint::KeySelector,
                    },
                );
            }
        };
        if condition {
            self.program_counter = self.program_counter.wrapping_add(2);
        }
        Ok(())
    }

    /// `6xkk`, `7xkk`, `Annn` and `Cxkk`.
    fn exec_load(&mut self, opcode: u16)
        requires
            op_family(opcode) == 6 || op_family(opcode) == 7 || op_family(opcode) == 10
                || op_family(opcode) == 12,
        ensures
            final(self)@ == exec_load(old(self)@, opcode),
            final(self).to_draw == old(self).to_draw,
            final(self).is_mute == old(self).is_mute,
    {
        let x: usize = ((opcode / 256) % 16) as usize;
        let kk: u8 = (opcode % 256) as u8;
        let family = opcode / 4096;
        if family == 6 {
            // LD Vx, byte
            self.registers[x] = kk;
        } else if family == 7 {
            // ADD Vx, byte, no flag
            self.registers[x] = self.registers[x].wrapping_add(kk);
        } else if family == 10 {
            // LD I, addr
            self.index_register = opcode % 4096;
        } else {
            // RND Vx, byte
            let random = self.lcg.next();
            self.registers[x] = random & kk;
        }
    }

    /// Executes `opcode`, with the program counter already past it.
    fn parse_opcode(&mut self, opcode: u16, edge: EdgePolicy) -> (r: Result<(), EmuError>)
        ensures
            follows(old(self)@, final(self)@, r, execute(old(self)@, opcode, edge)),
            final(self).to_draw == (old(self).to_draw || (op_family(opcode) == 13 && r is Ok)),
            final(self).is_mute == old(self).is_mute,
    {
        reveal(execute);
        match opcode / 4096 {
            0x0 => self.exec_system(opcode),
            0x1 | 0x2 | 0xB => self.exec_flow(opcode),
            0x3 | 0x4 | 0x5 | 0x9 | 0xE => self.exec_skip(opcode),
            0x6 | 0x7 | 0xA | 0xC => {
                self.exec_load(opcode);
                Ok(())
            },
            0x8 => self.exec_alu(opcode),
            0xD => self.draw_sprite(opcode, edge),
            _ => self.exec_misc(opcode),
        }
    }

    /// Fetches the big-endian opcode at the program counter, moves the program counter past
    /// it and executes it, drawing sprites by `edge`. A program counter with no opcode
    /// inside memory is an error and changes nothing.
    pub fn step_with(&mut self, edge: EdgePolicy) -> (r: Result<(), EmuError>)
        ensures
            (final(self)@, r) == step_spec(old(self)@, edge),
            final(self).to_draw == (old(self).to_draw || (r is Ok && op_family(
                fetch(old(self)@.memory, old(self).program_counter as int),
            ) == 13)),
            final(self).is_mute == old(self).is_mute,
    {
        let pc = self.program_counter as usize;
        if pc + 1 >= MEMORY_SIZE {
            return Err(
                EmuError::InvalidMemoryAccess {
                    addr: if pc >= MEMORY_SIZE {
                        pc as u64
                    } else {
                        MEMORY_SIZE as u64
                    },
                    pc: pc as u64,
                },
            );
        }
        self.current_opcode = self.memory[pc] as u16 * 256 + self.memory[pc + 1] as u16;
        self.program_counter = self.program_counter + 2;
        let ghost f = self@;
        assert(f == fetched(old(self)@));
        let r = self.parse_opcode(self.current_opcode, edge);
        proof {
            if r is Err {
                assert(self@ == f);
            }
        }
        r
    }

    /// Simulates one execution cycle of the CPU; sprites are clipped at the screen edges.
    pub fn execute_instruction(&mut self) -> (r: Result<(), EmuError>)
        ensures
            (final(self)@, r) == step_spec(old(self)@, EdgePolicy::Clip),
            final(self).to_draw == (old(self).to_draw || (r is Ok && op_family(
                fetch(old(self)@.memory, old(self).program_counter as int),
            ) == 13)),
            final(self).is_mute == old(self).is_mute,
    {
        self.step_with(EdgePolicy::Clip)
    }

    /// One timer tick: both timers count down by one while positive. Returns what to do with
    /// the beep, which sounds while the sound timer is positive.
    pub fn update_timers(&mut self) -> (r: AudioCue)
        ensures
            final(self)@ == (Chip8State {
                delay: if old(self).delay_timer > 0 {
                    (old(self).delay_timer - 1) as u8
                } else {
                    0
                },
                sound: if old(self).sound_timer > 0 {
                    (old(self).sound_timer - 1) as u8
                } else {
                    0
                },
                ..old(self)@
            }),
            final(self).to_draw == old(self).to_draw,
            final(self).is_mute == old(self).is_mute,
            r == timer_cue_spec(old(self).sound_timer, old(self).is_mute),
    {
        let cue = timer_cue(self.sound_timer, self.is_mute);
        if self.delay_timer > 0 {
            self.delay_timer = self.delay_timer - 1;
        }
        if self.sound_timer > 0 {
            self.sound_timer = self.sound_timer - 1;
        }
        cue
    }
}

} // verus!
