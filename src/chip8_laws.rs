//! Laws of the CHIP-8 instruction set, proved over the model.
use crate::chip8_model::{
    collides, covered, execute, fetch, lowest_pressed, op_family, op_kk, op_n, op_x, op_y,
    step_spec, Chip8State, EdgePolicy, HEIGHT, MEMORY_SIZE, SCREEN_PIXELS, STACK_DEPTH, WIDTH,
};
use crate::error::EmuError;
use vstd::prelude::*;

verus! {

/// Register to register arithmetic wraps modulo 256 and leaves its carry, inverted borrow
/// or shifted-out bit in `VF`; OR, AND and XOR clear `VF`.
pub proof fn alu_wrapping_arithmetic(s: Chip8State, op: u16, edge: EdgePolicy)
    requires
        s.wf(),
        op_family(op) == 8,
        op_x(op) != 15,
    ensures
        ({
            let (x, y) = (op_x(op), op_y(op));
            let (vx, vy) = (s.registers[x] as int, s.registers[y] as int);
            let sel = op_n(op);
            let r = execute(s, op, edge);
            &&& (sel <= 7 || sel == 14) ==> r is Ok
            &&& (sel > 7 && sel != 14) ==> r is Err
            &&& sel == 4 ==> r->Ok_0.registers[x] == (vx + vy) % 256 && r->Ok_0.registers[15] == (
            if vx + vy > 255 {
                1int
            } else {
                0
            })
            &&& sel == 5 ==> r->Ok_0.registers[x] == (vx - vy) % 256 && r->Ok_0.registers[15] == (
            if vx >= vy {
                1int
            } else {
                0
            })
            &&& sel == 7 ==> r->Ok_0.registers[x] == (vy - vx) % 256 && r->Ok_0.registers[15] == (
            if vy >= vx {
                1int
            } else {
                0
            })
            &&& sel == 6 ==> r->Ok_0.registers[x] == vy / 2 && r->Ok_0.registers[15] == vy % 2
            &&& sel == 14 ==> r->Ok_0.registers[x] == (vy * 2) % 256 && r->Ok_0.registers[15] == vy
                / 128
            &&& (sel == 1 || sel == 2 || sel == 3) ==> r->Ok_0.registers[15] == 0
            &&& (sel == 1) ==> r->Ok_0.registers[x] == (s.registers[x] | s.registers[y])
            &&& (sel == 2) ==> r->Ok_0.registers[x] == (s.registers[x] & s.registers[y])
            &&& (sel == 3) ==> r->Ok_0.registers[x] == (s.registers[x] ^ s.registers[y])
        }),
{
    reveal(execute);
}

/// Clearing the display turns every pixel off, whatever the screen held, and changes
/// nothing else.
pub proof fn clear_display_blanks_screen(s: Chip8State, edge: EdgePolicy)
    requires
        s.wf(),
    ensures
        execute(s, 0x00E0, edge) is Ok,
        forall|p: int| 0 <= p < SCREEN_PIXELS ==> !execute(s, 0x00E0, edge)->Ok_0.pixels[p],
        execute(s, 0x00E0, edge)->Ok_0 == (Chip8State {
            pixels: execute(s, 0x00E0, edge)->Ok_0.pixels,
            ..s
        }),
{
    reveal(execute);
}

/// A sprite draw sets `VF` to 1 exactly when some pixel goes from set to unset, and to 0
/// otherwise.
pub proof fn draw_collision_flag(s: Chip8State, op: u16, edge: EdgePolicy)
    requires
        s.wf(),
        op_family(op) == 13,
        execute(s, op, edge) is Ok,
    ensures
        ({
            let t = execute(s, op, edge)->Ok_0;
            &&& t.registers[15] == 1 <==> exists|p: int|
                0 <= p < SCREEN_PIXELS && s.pixels[p] && !#[trigger] t.pixels[p]
            &&& t.registers[15] == 0 || t.registers[15] == 1
        }),
{
    reveal(execute);
    let t = execute(s, op, edge)->Ok_0;
    let n = op_n(op);
    let x0 = s.registers[op_x(op)] as int % (WIDTH as int);
    let y0 = s.registers[op_y(op)] as int % (HEIGHT as int);
    let i = s.index as int;
    if collides(s.pixels, s.memory, i, n, x0, y0, edge) {
        let q = choose|q: int|
            0 <= q < SCREEN_PIXELS && #[trigger] crate::chip8_model::covered_upto(
                s.memory,
                i,
                n,
                x0,
                y0,
                edge,
                q,
                n * 8,
            ) && s.pixels[q];
        assert(s.pixels[q] && !t.pixels[q]);
    }
    if exists|p: int| 0 <= p < SCREEN_PIXELS && s.pixels[p] && !#[trigger] t.pixels[p] {
        let q = choose|q: int| 0 <= q < SCREEN_PIXELS && s.pixels[q] && !#[trigger] t.pixels[q];
        assert(covered(s.memory, i, n, x0, y0, edge, q));
    }
}

/// Drawing the same sprite twice at the same place restores the screen (when neither
/// coordinate register is `VF`, which the first draw overwrites).
pub proof fn draw_twice_restores_screen(s: Chip8State, op: u16, edge: EdgePolicy)
    requires
        s.wf(),
        op_family(op) == 13,
        op_x(op) != 15,
        op_y(op) != 15,
        execute(s, op, edge) is Ok,
    ensures
        execute(execute(s, op, edge)->Ok_0, op, edge) is Ok,
        execute(execute(s, op, edge)->Ok_0, op, edge)->Ok_0.pixels == s.pixels,
{
    reveal(execute);
    let t = execute(s, op, edge)->Ok_0;
    let u = execute(t, op, edge)->Ok_0;
    assert(t.registers[op_x(op)] == s.registers[op_x(op)]);
    assert(t.registers[op_y(op)] == s.registers[op_y(op)]);
    assert(u.pixels =~= s.pixels);
}

/// Storing the BCD form of `Vx` writes its hundreds, tens and ones at `I`, `I+1` and `I+2`
/// and changes no other memory cell.
pub proof fn bcd_store_digits(s: Chip8State, op: u16, edge: EdgePolicy)
    requires
        s.wf(),
        op_family(op) == 15,
        op_kk(op) == 0x33,
        s.index as int + 3 <= MEMORY_SIZE,
    ensures
        ({
            let v = s.registers[op_x(op)];
            let i = s.index as int;
            let r = execute(s, op, edge);
            &&& r is Ok
            &&& r->Ok_0.memory[i] == v / 100
            &&& r->Ok_0.memory[i + 1] == (v / 10) % 10
            &&& r->Ok_0.memory[i + 2] == v % 10
            &&& forall|a: int|
                0 <= a < MEMORY_SIZE && !(i <= a < i + 3) ==> #[trigger] r->Ok_0.memory[a]
                    == s.memory[a]
        }),
{
    reveal(execute);
}

/// The opcode `2nnn` that calls address `target`.
pub open spec fn call_opcode(target: u16) -> u16 {
    (0x2000 + target as int % 4096) as u16
}

/// Executes a call to each of `targets` in turn, stopping at the first error.
pub open spec fn call_all(s: Chip8State, targets: Seq<u16>) -> Result<Chip8State, EmuError>
    decreases targets.len(),
{
    if targets.len() == 0 {
        Ok(s)
    } else {
        match execute(s, call_opcode(targets[0]), EdgePolicy::Wrap) {
            Ok(t) => call_all(t, targets.drop_first()),
            Err(e) => Err(e),
        }
    }
}

/// Executes `n` returns in turn, stopping at the first error.
pub open spec fn return_n(s: Chip8State, n: nat) -> Result<Chip8State, EmuError>
    decreases n,
{
    if n == 0 {
        Ok(s)
    } else {
        match return_n(s, (n - 1) as nat) {
            Ok(t) => execute(t, 0x00EE, EdgePolicy::Wrap),
            Err(e) => Err(e),
        }
    }
}

/// Calls nest: after calls that fit on the stack and as many returns, the program counter
/// and stack pointer are back where they were, and the entries below the stack pointer are
/// untouched.
proof fn lemma_calls_then_returns(s: Chip8State, targets: Seq<u16>)
    requires
        s.wf(),
        s.sp as int + targets.len() <= STACK_DEPTH,
    ensures
        call_all(s, targets) is Ok,
        call_all(s, targets)->Ok_0.wf(),
        call_all(s, targets)->Ok_0.sp == s.sp + targets.len(),
        return_n(call_all(s, targets)->Ok_0, targets.len()) is Ok,
        return_n(call_all(s, targets)->Ok_0, targets.len())->Ok_0.pc == s.pc,
        return_n(call_all(s, targets)->Ok_0, targets.len())->Ok_0.sp == s.sp,
        return_n(call_all(s, targets)->Ok_0, targets.len())->Ok_0.wf(),
        forall|j: int|
            0 <= j < s.sp ==> #[trigger] return_n(call_all(s, targets)->Ok_0, targets.len())->Ok_0.stack[j]
                == s.stack[j],
    decreases targets.len(),
{
    reveal(execute);
    if targets.len() > 0 {
        let t = execute(s, call_opcode(targets[0]), EdgePolicy::Wrap)->Ok_0;
        let rest = targets.drop_first();
        lemma_calls_then_returns(t, rest);
        let end = call_all(t, rest)->Ok_0;
        assert(call_all(s, targets) == call_all(t, rest));
        lemma_returns_split(end, rest.len());
        let back = return_n(end, rest.len())->Ok_0;
        assert(back.stack[s.sp as int] == t.stack[s.sp as int]);
        assert(return_n(end, targets.len()) == execute(back, 0x00EE, EdgePolicy::Wrap));
    }
}

/// `return_n` with one more return is one return after `return_n`.
proof fn lemma_returns_split(s: Chip8State, n: nat)
    ensures
        return_n(s, n + 1) == match return_n(s, n) {
            Ok(t) => execute(t, 0x00EE, EdgePolicy::Wrap),
            Err(e) => Err(e),
        },
{
}

/// Call and return form a stack: up to `STACK_DEPTH` calls from an empty stack followed by
/// as many returns bring the program counter back, and one call more than the stack holds
/// fails with `InvalidStackAccess`.
pub proof fn call_return_is_lifo(s: Chip8State, targets: Seq<u16>, extra: u16)
    requires
        s.wf(),
        s.sp == 0,
        targets.len() <= STACK_DEPTH,
    ensures
        call_all(s, targets) is Ok,
        return_n(call_all(s, targets)->Ok_0, targets.len()) is Ok,
        return_n(call_all(s, targets)->Ok_0, targets.len())->Ok_0.pc == s.pc,
        return_n(call_all(s, targets)->Ok_0, targets.len())->Ok_0.sp == 0,
        targets.len() == STACK_DEPTH ==> ({
            let full = call_all(s, targets)->Ok_0;
            execute(full, call_opcode(extra), EdgePolicy::Wrap) == Err::<Chip8State, EmuError>(
                EmuError::InvalidStackAccess { sp: STACK_DEPTH as u64, pc: full.pc as u64 },
            )
        }),
{
    lemma_calls_then_returns(s, targets);
    reveal(execute);
}

/// No key is pressed.
pub open spec fn no_key_pressed(keys: Seq<bool>) -> bool {
    forall|i: int| 0 <= i < 16 ==> !keys[i]
}

proof fn lemma_lowest_pressed(keys: Seq<bool>, i: int)
    requires
        0 <= i <= 16,
        keys.len() == 16,
    ensures
        i <= lowest_pressed(keys, i) <= 16,
        lowest_pressed(keys, i) < 16 ==> keys[lowest_pressed(keys, i)],
        (forall|j: int| i <= j < 16 ==> !keys[j]) <==> lowest_pressed(keys, i) == 16,
    decreases 16 - i,
{
    if i < 16 {
        lemma_lowest_pressed(keys, i + 1);
    }
}

/// The key-wait instruction `Fx0A` at the program counter: with no key pressed and none
/// latched it stays on itself; a pressed key is stored in `Vx`, latched, and the instruction
/// stays; once every key is released after a latch, the program counter moves past it.
pub proof fn key_wait_blocks_until_release(s: Chip8State, edge: EdgePolicy)
    requires
        s.wf(),
        s.pc as int + 1 < MEMORY_SIZE,
        op_family(fetch(s.memory, s.pc as int)) == 15,
        op_kk(fetch(s.memory, s.pc as int)) == 0x0A,
    ensures
        step_spec(s, edge).1 is Ok,
        no_key_pressed(s.keys) && !s.key_latched ==> step_spec(s, edge).0.pc == s.pc
            && !step_spec(s, edge).0.key_latched && step_spec(s, edge).0.registers == s.registers,
        !no_key_pressed(s.keys) ==> step_spec(s, edge).0.pc == s.pc
            && step_spec(s, edge).0.key_latched && step_spec(s, edge).0.registers[op_x(
            fetch(s.memory, s.pc as int),
        )] == lowest_pressed(s.keys, 0) && s.keys[lowest_pressed(s.keys, 0)],
        no_key_pressed(s.keys) && s.key_latched ==> step_spec(s, edge).0.pc == s.pc + 2
            && !step_spec(s, edge).0.key_latched,
{
    reveal(execute);
    lemma_lowest_pressed(s.keys, 0);
}

} // verus!
