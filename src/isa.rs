//! The instruction set as spec functions over the machine model: what one
//! instruction does to a [`Machine`], and what it reports.
//!
//! Opcode fields: NNN is the low 12 bits, NN the low byte, X and Y the second
//! and third nibbles, N the low nibble.
use vstd::prelude::*;
use crate::constants::{
    CHARACTER_SPRITE_BYTES, CHARACTER_SPRITE_OFFSET,
    HEIGHT, MEMORY_SIZE, SCREEN_SIZE, STACK_DEPTH, WIDTH,
};
use crate::state::Machine;

verus! {

/// The two fatal conditions of a run.
#[derive(Debug, Clone, Copy, PartialEq, Eq, Structural)]
pub enum ExecError {
    /// A return with an empty call stack.
    StackUnderflow,
    /// A call with the call stack at its bound.
    StackOverflow,
}

/// What executing one instruction reports: `Ok(None)` to go on,
/// `Ok(Some(code))` to halt with an exit code, or a fatal error.
pub type Outcome = Result<Option<usize>, ExecError>;

/// First nibble: the instruction group.
pub open spec fn op_group(op: u16) -> u16 {
    op / 4096
}

pub open spec fn op_x(op: u16) -> usize {
    ((op / 256) % 16) as usize
}

pub open spec fn op_y(op: u16) -> usize {
    ((op / 16) % 16) as usize
}

pub open spec fn op_n(op: u16) -> usize {
    (op % 16) as usize
}

pub open spec fn op_nn(op: u16) -> u8 {
    (op % 256) as u8
}

pub open spec fn op_nnn(op: u16) -> usize {
    (op % 4096) as usize
}

/// An address taken modulo the memory size.
pub open spec fn wrap_addr(a: int) -> usize {
    (a % (MEMORY_SIZE as int)) as usize
}

/// The big-endian instruction at the program counter.
pub open spec fn fetch_spec(m: Machine) -> u16 {
    (m.memory[m.pc as int] as int * 256 + m.memory[wrap_addr(m.pc + 1) as int] as int) as u16
}

/// The machine with its program counter moved past the fetched instruction.
pub open spec fn advance(m: Machine) -> Machine {
    Machine { pc: wrap_addr(m.pc + 2), ..m }
}

/// Skips the next instruction when `cond` holds.
pub open spec fn skip_if(m: Machine, cond: bool) -> Machine {
    if cond {
        advance(m)
    } else {
        m
    }
}

pub open spec fn set_v(m: Machine, x: usize, val: u8) -> Machine {
    Machine { v: m.v.update(x as int, val), ..m }
}

/// Next state of the pseudo-random generator (a 32-bit linear congruential
/// generator).
pub open spec fn next_rng(s: u32) -> u32 {
    s.wrapping_mul(1103515245).wrapping_add(12345)
}

/// The byte that the generator hands out from state `s`: bits 16 to 23 of
/// its next state.
pub open spec fn random_byte(s: u32) -> u8 {
    ((next_rng(s) / 65536) % 256) as u8
}

/// One instruction fully executed: fetch, advance PC, dispatch.
pub open spec fn step(m: Machine) -> (Machine, Outcome) {
    execute(advance(m), fetch_spec(m))
}

/// Dispatch of `op` on a machine whose PC already points past it.
pub open spec fn execute(m: Machine, op: u16) -> (Machine, Outcome) {
    let x = op_x(op);
    let y = op_y(op);
    let nn = op_nn(op);
    let nnn = op_nnn(op);
    let g = op_group(op);
    if g == 0x0 {
        exec_system(m, op)
    } else if g == 0x1 {
        (Machine { pc: nnn, ..m }, Ok(None))
    } else if g == 0x2 {
        if m.stack.len() >= STACK_DEPTH {
            (m, Err(ExecError::StackOverflow))
        } else {
            (Machine { stack: m.stack.push(m.pc), pc: nnn, ..m }, Ok(None))
        }
    } else if g == 0x3 {
        (skip_if(m, m.v[x as int] == nn), Ok(None))
    } else if g == 0x4 {
        (skip_if(m, m.v[x as int] != nn), Ok(None))
    } else if g == 0x5 {
        (skip_if(m, op_n(op) == 0 && m.v[x as int] == m.v[y as int]), Ok(None))
    } else if g == 0x6 {
        (set_v(m, x, nn), Ok(None))
    } else if g == 0x7 {
        (set_v(m, x, m.v[x as int].wrapping_add(nn)), Ok(None))
    } else if g == 0x8 {
        (exec_alu(m, op), Ok(None))
    } else if g == 0x9 {
        (skip_if(m, op_n(op) == 0 && m.v[x as int] != m.v[y as int]), Ok(None))
    } else if g == 0xA {
        (Machine { i: nnn, ..m }, Ok(None))
    } else if g == 0xB {
        (Machine { pc: wrap_addr(nnn + m.v[0] as int), ..m }, Ok(None))
    } else if g == 0xC {
        (
            Machine {
                v: m.v.update(x as int, random_byte(m.rng_state) & nn),
                rng_state: next_rng(m.rng_state),
                ..m
            },
            Ok(None),
        )
    } else if g == 0xD {
        (draw(m, m.v[x as int], m.v[y as int], op_n(op)), Ok(None))
    } else if g == 0xE {
        (exec_keys(m, op), Ok(None))
    } else {
        exec_misc(m, op)
    }
}

/// Group 0: clear screen, return, and the ignored `0NNN`.
pub open spec fn exec_system(m: Machine, op: u16) -> (Machine, Outcome) {
    if op == 0x00E0 {
        (Machine { screen: Seq::new(SCREEN_SIZE as nat, |k: int| false), ..m }, Ok(None))
    } else if op == 0x00EE {
        if m.stack.len() == 0 {
            (m, Err(ExecError::StackUnderflow))
        } else {
            (Machine { pc: m.stack.last(), stack: m.stack.drop_last(), ..m }, Ok(None))
        }
    } else {
        (m, Ok(None))
    }
}

/// Group 8: register arithmetic and logic. VF is written after VX where the
/// flag comes from the result, before it where it comes from the operand.
pub open spec fn exec_alu(m: Machine, op: u16) -> Machine {
    let x = op_x(op);
    let y = op_y(op);
    let vx = m.v[x as int];
    let vy = m.v[y as int];
    let n = op_n(op);
    if n == 0x0 {
        set_v(m, x, vy)
    } else if n == 0x1 {
        set_v(m, x, vx | vy)
    } else if n == 0x2 {
        set_v(m, x, vx & vy)
    } else if n == 0x3 {
        set_v(m, x, vx ^ vy)
    } else if n == 0x4 {
        set_v(set_v(m, x, vx.wrapping_add(vy)), 15, if vx + vy > 255 { 1 } else { 0 })
    } else if n == 0x5 {
        set_v(set_v(m, x, vx.wrapping_sub(vy)), 15, if vx < vy { 0 } else { 1 })
    } else if n == 0x6 {
        set_v(set_v(m, 15, vy % 2), x, vy / 2)
    } else if n == 0x7 {
        set_v(set_v(m, x, vy.wrapping_sub(vx)), 15, if vy < vx { 0 } else { 1 })
    } else if n == 0xE {
        set_v(set_v(m, 15, vy / 128), x, ((vy as int * 2) % 256) as u8)
    } else {
        m
    }
}

/// Group E: skip on the latched key, which is consumed either way.
pub open spec fn exec_keys(m: Machine, op: u16) -> Machine {
    let vx = m.v[op_x(op) as int];
    let nn = op_nn(op);
    if nn == 0x9E {
        Machine { key_pressed: None, ..skip_if(m, m.key_pressed == Some(vx)) }
    } else if nn == 0xA1 {
        Machine { key_pressed: None, ..skip_if(m, m.key_pressed != Some(vx)) }
    } else {
        m
    }
}

/// The three decimal digits of `value`: hundreds, tens, ones.
pub open spec fn bcd_spec(value: u8) -> (u8, u8, u8) {
    (value / 100, (value % 100) / 10, value % 10)
}

/// Group F: timers, key wait, I arithmetic, BCD, register block transfer,
/// and the halt extension `FXFF`.
pub open spec fn exec_misc(m: Machine, op: u16) -> (Machine, Outcome) {
    let x = op_x(op);
    let vx = m.v[x as int];
    let nn = op_nn(op);
    if nn == 0x07 {
        (set_v(m, x, m.delay_timer), Ok(None))
    } else if nn == 0x0A {
        (Machine { waiting_for_keypress: Some(x), ..m }, Ok(None))
    } else if nn == 0x15 {
        (Machine { delay_timer: vx, ..m }, Ok(None))
    } else if nn == 0x18 {
        (Machine { sound_timer: vx, ..m }, Ok(None))
    } else if nn == 0x1E {
        (Machine { i: wrap_addr(m.i + vx as int), ..m }, Ok(None))
    } else if nn == 0x29 {
        (
            Machine {
                i: (CHARACTER_SPRITE_OFFSET + (vx as int % 16) * CHARACTER_SPRITE_BYTES) as usize,
                ..m
            },
            Ok(None),
        )
    } else if nn == 0x33 {
        let (h, t, o) = bcd_spec(vx);
        (
            Machine {
                memory: m.memory.update(m.i as int, h).update(wrap_addr(m.i + 1) as int, t).update(
                    wrap_addr(m.i + 2) as int,
                    o,
                ),
                ..m
            },
            Ok(None),
        )
    } else if nn == 0x55 {
        (store_registers(m, x), Ok(None))
    } else if nn == 0x65 {
        (load_registers(m, x), Ok(None))
    } else if nn == 0xFF {
        (m, Ok(Some(x)))
    } else {
        (m, Ok(None))
    }
}

/// Distance of address `a` from the address register, modulo the memory size.
pub open spec fn offset_from_i(m: Machine, a: int) -> int {
    (a - m.i + MEMORY_SIZE) % (MEMORY_SIZE as int)
}

/// `FX55`: V0 to VX are written to memory from I on, one byte each, and I
/// moves past them: it grows by one per register transferred, X + 1 in all
/// (addresses wrap at the memory size).
pub open spec fn store_registers(m: Machine, x: usize) -> Machine {
    Machine {
        memory: Seq::new(
            MEMORY_SIZE as nat,
            |a: int|
                if offset_from_i(m, a) <= x {
                    m.v[offset_from_i(m, a)]
                } else {
                    m.memory[a]
                },
        ),
        i: wrap_addr(m.i + x + 1),
        ..m
    }
}

/// `FX65`: V0 to VX are read from memory from I on, one byte each, and I
/// moves past them: it grows by one per register transferred, X + 1 in all
/// (addresses wrap at the memory size).
pub open spec fn load_registers(m: Machine, x: usize) -> Machine {
    Machine {
        v: Seq::new(
            16,
            |j: int|
                if j <= x {
                    m.memory[wrap_addr(m.i + j) as int]
                } else {
                    m.v[j]
                },
        ),
        i: wrap_addr(m.i + x + 1),
        ..m
    }
}

/// Column of the sprite that lands on screen cell `k` when drawn at `vx`.
pub open spec fn sprite_col(vx: u8, k: int) -> int {
    (k % (WIDTH as int) - (vx as int) % (WIDTH as int) + WIDTH) % (WIDTH as int)
}

/// Row of the sprite that lands on screen cell `k` when drawn at `vy`.
pub open spec fn sprite_row(vy: u8, k: int) -> int {
    (k / (WIDTH as int) - (vy as int) % (HEIGHT as int) + HEIGHT) % (HEIGHT as int)
}

/// Whether pixel `col` (0 is the leftmost) of a sprite row is set.
pub open spec fn row_pixel(row_bits: u8, col: int) -> bool {
    row_bits & (0x80u8 >> (col as u8)) != 0
}

/// Whether the `n`-row sprite at I, drawn at (`vx`, `vy`) with per-pixel
/// wraparound, has a set pixel on screen cell `k`.
pub open spec fn sprite_bit(m: Machine, vx: u8, vy: u8, n: usize, k: int) -> bool {
    let row = sprite_row(vy, k);
    let col = sprite_col(vx, k);
    row < n && col < 8 && row_pixel(m.memory[wrap_addr(m.i + row) as int], col)
}

/// Whether drawing turns some set cell off.
pub open spec fn collides(m: Machine, vx: u8, vy: u8, n: usize) -> bool {
    exists|k: int| 0 <= k < SCREEN_SIZE && m.screen[k] && #[trigger] sprite_bit(m, vx, vy, n, k)
}

/// `DXYN` with V[X] = `vx`, V[Y] = `vy`: the sprite is XORed onto the
/// screen, and VF tells whether a set cell was turned off.
pub open spec fn draw(m: Machine, vx: u8, vy: u8, n: usize) -> Machine {
    Machine {
        screen: Seq::new(SCREEN_SIZE as nat, |k: int| m.screen[k] != sprite_bit(m, vx, vy, n, k)),
        v: m.v.update(15, if collides(m, vx, vy, n) { 1 } else { 0 }),
        ..m
    }
}

/// Whether `op` is in the documented instruction table (the `0NNN` machine
/// routine calls are not: they are ignored).
pub open spec fn is_documented(op: u16) -> bool {
    let g = op_group(op);
    let n = op_n(op);
    let nn = op_nn(op);
    if g == 0x0 {
        op == 0x00E0 || op == 0x00EE
    } else if g == 0x5 || g == 0x9 {
        n == 0
    } else if g == 0x8 {
        n <= 7 || n == 0xE
    } else if g == 0xE {
        nn == 0x9E || nn == 0xA1
    } else if g == 0xF {
        nn == 0x07 || nn == 0x0A || nn == 0x15 || nn == 0x18 || nn == 0x1E || nn == 0x29 || nn
            == 0x33 || nn == 0x55 || nn == 0x65 || nn == 0xFF
    } else {
        true
    }
}

/// Executing any instruction on a well-formed machine leaves it well-formed:
/// PC and I stay 12-bit, the call stack stays within its bound, and the
/// sizes of memory, screen and register file do not change.
pub proof fn lemma_execute_wf(m: Machine, op: u16)
    requires
        m.wf(),
    ensures
        execute(m, op).0.wf(),
{
    let r = execute(m, op).0;
    if op_group(op) == 0x2 && m.stack.len() < STACK_DEPTH {
        assert forall|k: int| 0 <= k < r.stack.len() implies #[trigger] r.stack[k] < MEMORY_SIZE by {
            if k < m.stack.len() {
                assert(r.stack[k] == m.stack[k]);
            }
        }
    }
    if op_group(op) == 0x0 && op == 0x00EE && m.stack.len() > 0 {
        assert(forall|k: int| 0 <= k < r.stack.len() ==> #[trigger] r.stack[k] == m.stack[k]);
    }
}

/// One full step on a well-formed machine leaves it well-formed.
pub proof fn lemma_step_wf(m: Machine)
    requires
        m.wf(),
    ensures
        step(m).0.wf(),
{
    lemma_execute_wf(advance(m), fetch_spec(m));
}

} // verus!
