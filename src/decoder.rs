//! The instruction decoder and executor: fetches the instruction at the
//! program counter, advances the counter, and carries the instruction out on
//! the state, exactly as [`crate::isa`] describes.
use vstd::prelude::*;
use crate::constants::{
    CHARACTER_SPRITE_BYTES, CHARACTER_SPRITE_OFFSET,
    HEIGHT, MEMORY_SIZE, SCREEN_SIZE, STACK_DEPTH, WIDTH,
};
use crate::isa::{
    bcd_spec, draw, exec_alu, exec_keys, exec_misc, execute, fetch_spec, is_documented,
    lemma_execute_wf, load_registers, offset_from_i, op_group, sprite_bit, sprite_col,
    sprite_row, step, store_registers, wrap_addr, ExecError, Outcome,
};
use crate::state::{Machine, State};

verus! {

/// The big-endian instruction at the program counter; the second byte is
/// read at the next address modulo the memory size.
pub fn fetch(state: &State) -> (op: u16)
    requires
        state@.wf(),
    ensures
        op == fetch_spec(state@),
{
    let hi = state.memory[state.pc] as u16;
    let lo = state.memory[(state.pc + 1) % MEMORY_SIZE] as u16;
    hi * 256 + lo
}

/// Executes one instruction: fetch, advance PC by 2 (modulo the memory
/// size), dispatch. Returns `Ok(None)` to go on, `Ok(Some(x))` when `FXFF`
/// halts with exit code `x`, and an error on stack underflow or overflow.
pub fn decode_and_execute(state: &mut State) -> (r: Outcome)
    requires
        old(state)@.wf(),
    ensures
        final(state)@.wf(),
        (final(state)@, r) == step(old(state)@),
{
    let instruction = fetch(state);
    state.pc = (state.pc + 2) % MEMORY_SIZE;
    execute_instruction(state, instruction)
}

/// Carries out `instruction` on a state whose PC already points past it.
pub fn execute_instruction(state: &mut State, instruction: u16) -> (r: Outcome)
    requires
        old(state)@.wf(),
    ensures
        final(state)@.wf(),
        (final(state)@, r) == execute(old(state)@, instruction),
{
    proof {
        lemma_execute_wf(state@, instruction);
    }
    let x = ((instruction / 256) % 16) as usize;
    let y = ((instruction / 16) % 16) as usize;
    let n = (instruction % 16) as usize;
    let nn = (instruction % 256) as u8;
    let nnn = (instruction % 4096) as usize;
    match instruction / 4096 {
        0x0 => {
            if instruction == 0x00E0 {
                state.screen = [false; 2048];
                assert(state.screen@ =~= Seq::new(SCREEN_SIZE as nat, |k: int| false));
            } else if instruction == 0x00EE {
                match state.stack.pop() {
                    Some(addr) => {
                        state.pc = addr;
                    },
                    None => {
                        return Err(ExecError::StackUnderflow);
                    },
                }
            }
        },
        0x1 => {
            state.pc = nnn;
        },
        0x2 => {
            if state.stack.len() >= STACK_DEPTH {
                return Err(ExecError::StackOverflow);
            }
            state.stack.push(state.pc);
            state.pc = nnn;
        },
        0x3 => {
            if state.v[x] == nn {
                state.pc = (state.pc + 2) % MEMORY_SIZE;
            }
        },
        0x4 => {
            if state.v[x] != nn {
                state.pc = (state.pc + 2) % MEMORY_SIZE;
            }
        },
        0x5 => {
            if n == 0 && state.v[x] == state.v[y] {
                state.pc = (state.pc + 2) % MEMORY_SIZE;
            }
        },
        0x6 => {
            state.v[x] = nn;
        },
        0x7 => {
            state.v[x] = state.v[x].wrapping_add(nn);
        },
        0x8 => {
            execute_alu(state, instruction);
        },
        0x9 => {
            if n == 0 && state.v[x] != state.v[y] {
                state.pc = (state.pc + 2) % MEMORY_SIZE;
            }
        },
        0xA => {
            state.i = nnn;
        },
        0xB => {
            state.pc = (nnn + state.v[0] as usize) % MEMORY_SIZE;
        },
        0xC => {
            let r = state.next_random_byte();
            state.v[x] = r & nn;
        },
        0xD => {
            draw_sprite(state, x, y, n);
        },
        0xE => {
            execute_keys(state, instruction);
        },
        _ => {
            return execute_misc(state, instruction);
        },
    }
    Ok(None)
}

/// Group 8: register arithmetic and logic, with carry and borrow in VF.
fn execute_alu(state: &mut State, instruction: u16)
    requires
        old(state)@.wf(),
        op_group(instruction) == 8,
    ensures
        final(state)@ == exec_alu(old(state)@, instruction),
{
    let x = ((instruction / 256) % 16) as usize;
    let y = ((instruction / 16) % 16) as usize;
    let vx = state.v[x];
    let vy = state.v[y];
    match instruction % 16 {
        0x0 => {
            state.v[x] = vy;
        },
        0x1 => {
            state.v[x] = vx | vy;
        },
        0x2 => {
            state.v[x] = vx & vy;
        },
        0x3 => {
            state.v[x] = vx ^ vy;
        },
        0x4 => {
            state.v[x] = vx.wrapping_add(vy);
            state.v[15] = if vx as u16 + vy as u16 > 255 {
                1
            } else {
                0
            };
        },
        0x5 => {
            state.v[x] = vx.wrapping_sub(vy);
            state.v[15] = if vx < vy {
                0
            } else {
                1
            };
        },
        0x6 => {
            state.v[15] = vy % 2;
            state.v[x] = vy / 2;
        },
        0x7 => {
            state.v[x] = vy.wrapping_sub(vx);
            state.v[15] = if vy < vx {
                0
            } else {
                1
            };
        },
        0xE => {
            state.v[15] = vy / 128;
            state.v[x] = ((vy as u16 * 2) % 256) as u8;
        },
        _ => {},
    }
}

/// Group E: skip on the latched key, then clear the latch.
fn execute_keys(state: &mut State, instruction: u16)
    requires
        old(state)@.wf(),
        op_group(instruction) == 0xE,
    ensures
        final(state)@ == exec_keys(old(state)@, instruction),
{
    let x = ((instruction / 256) % 16) as usize;
    let vx = state.v[x];
    match instruction % 256 {
        0x9E => {
            if state.key_pressed == Some(vx) {
                state.pc = (state.pc + 2) % MEMORY_SIZE;
            }
            state.key_pressed = None;
        },
        0xA1 => {
            if state.key_pressed != Some(vx) {
                state.pc = (state.pc + 2) % MEMORY_SIZE;
            }
            state.key_pressed = None;
        },
        _ => {},
    }
}

/// Group F: timers, key wait, I arithmetic, BCD, block transfers and halt.
fn execute_misc(state: &mut State, instruction: u16) -> (r: Outcome)
    requires
        old(state)@.wf(),
        op_group(instruction) == 0xF,
    ensures
        (final(state)@, r) == exec_misc(old(state)@, instruction),
{
    let x = ((instruction / 256) % 16) as usize;
    let vx = state.v[x];
    match instruction % 256 {
        0x07 => {
            state.v[x] = state.delay_timer;
        },
        0x0A => {
            state.waiting_for_keypress = Some(x);
        },
        0x15 => {
            state.delay_timer = vx;
        },
        0x18 => {
            state.sound_timer = vx;
        },
        0x1E => {
            state.i = (state.i + vx as usize) % MEMORY_SIZE;
        },
        0x29 => {
            state.i = CHARACTER_SPRITE_OFFSET + ((vx % 16) as usize) * CHARACTER_SPRITE_BYTES;
        },
        0x33 => {
            let (hundreds, tens, ones) = bcd(vx);
            state.memory[state.i] = hundreds;
            state.memory[(state.i + 1) % MEMORY_SIZE] = tens;
            state.memory[(state.i + 2) % MEMORY_SIZE] = ones;
        },
        0x55 => {
            store_registers_at_i(state, x);
        },
        0x65 => {
            load_registers_at_i(state, x);
        },
        0xFF => {
            return Ok(Some(x));
        },
        _ => {},
    }
    Ok(None)
}

/// The hundreds, tens and ones digits of `value`.
pub fn bcd(value: u8) -> (r: (u8, u8, u8))
    ensures
        r == bcd_spec(value),
        r.0 as int * 100 + r.1 as int * 10 + r.2 as int == value as int,
        r.0 <= 2 && r.1 <= 9 && r.2 <= 9,
{
    let hundreds = value / 100;
    let tens = (value % 100) / 10;
    let ones = value % 10;
    (hundreds, tens, ones)
}

/// `FX55`: writes V0 to VX to memory from I on and moves I past them.
fn store_registers_at_i(state: &mut State, x: usize)
    requires
        old(state)@.wf(),
        x < 16,
    ensures
        final(state)@ == store_registers(old(state)@, x),
{
    let ghost m = state@;
    let base = state.i;
    let mut j: usize = 0;
    while j <= x
        invariant
            m.wf(),
            x < 16,
            j <= x + 1,
            base == m.i,
            state@ == (Machine { memory: state@.memory, ..m }),
            state.memory@.len() == MEMORY_SIZE,
            forall|a: int|
                0 <= a < MEMORY_SIZE ==> #[trigger] state.memory@[a] == if offset_from_i(m, a)
                    < j {
                    m.v[offset_from_i(m, a)]
                } else {
                    m.memory[a]
                },
        decreases x + 1 - j,
    {
        let ghost target = (base + j) as int % (MEMORY_SIZE as int);
        assert(offset_from_i(m, target) == j);
        state.memory[(base + j) % MEMORY_SIZE] = state.v[j];
        j += 1;
    }
    state.i = (base + x + 1) % MEMORY_SIZE;
    assert(state.memory@ =~= store_registers(m, x).memory);
}

/// `FX65`: reads V0 to VX from memory from I on and moves I past them.
fn load_registers_at_i(state: &mut State, x: usize)
    requires
        old(state)@.wf(),
        x < 16,
    ensures
        final(state)@ == load_registers(old(state)@, x),
{
    let ghost m = state@;
    let base = state.i;
    let mut j: usize = 0;
    while j <= x
        invariant
            m.wf(),
            x < 16,
            j <= x + 1,
            base == m.i,
            state@ == (Machine { v: state@.v, ..m }),
            state.v@.len() == 16,
            forall|k: int|
                0 <= k < 16 ==> #[trigger] state.v@[k] == if k < j {
                    m.memory[wrap_addr(m.i + k) as int]
                } else {
                    m.v[k]
                },
        decreases x + 1 - j,
    {
        state.v[j] = state.memory[(base + j) % MEMORY_SIZE];
        j += 1;
    }
    state.i = (base + x + 1) % MEMORY_SIZE;
    assert(state.v@ =~= load_registers(m, x).v);
}

/// Whether the sprite pixel that lands on cell `k` has been drawn once rows
/// before `row`, and columns before `col` of row `row`, are done.
spec fn drawn_before(vx: u8, vy: u8, k: int, row: int, col: int) -> bool {
    sprite_row(vy, k) < row || (sprite_row(vy, k) == row && sprite_col(vx, k) < col)
}

/// The cell that pixel (`row`, `col`) of a sprite drawn at (`vx`, `vy`) lands
/// on is the only cell whose sprite row and column are those.
proof fn lemma_target_cell(vx: u8, vy: u8, row: int, col: int, k: int)
    requires
        0 <= row < HEIGHT,
        0 <= col < WIDTH,
        k == ((vy as int + row) % (HEIGHT as int)) * (WIDTH as int) + (vx as int + col) % (
        WIDTH as int),
    ensures
        0 <= k < SCREEN_SIZE,
        sprite_row(vy, k) == row,
        sprite_col(vx, k) == col,
        forall|k2: int|
            0 <= k2 < SCREEN_SIZE && sprite_row(vy, k2) == row && sprite_col(vx, k2) == col
                ==> k2 == k,
{
    let cx = (vx as int + col) % 64;
    let cy = (vy as int + row) % 32;
    assert(0 <= cx < 64);
    assert(0 <= cy < 32);
    assert(k / 64 == cy && k % 64 == cx) by (nonlinear_arith)
        requires
            k == cy * 64 + cx,
            0 <= cx < 64,
            0 <= cy < 32,
    ;
    assert forall|k2: int|
        0 <= k2 < SCREEN_SIZE && sprite_row(vy, k2) == row && sprite_col(vx, k2) == col
            implies k2 == k by {
        let c2 = k2 % 64;
        let r2 = k2 / 64;
        assert(k2 == r2 * 64 + c2 && 0 <= c2 < 64 && 0 <= r2 < 32) by (nonlinear_arith)
            requires
                0 <= k2 < 2048,
                c2 == k2 % 64,
                r2 == k2 / 64,
        ;
    }
}

/// `DXYN` with X = `x`, Y = `y`, N = `n`: XORs the `n`-row sprite at I onto
/// the screen at (V[X], V[Y]), wrapping each pixel around the edges, and sets
/// VF to 1 iff a set cell was turned off.
fn draw_sprite(state: &mut State, x: usize, y: usize, n: usize)
    requires
        old(state)@.wf(),
        x < 16,
        y < 16,
        n < 16,
    ensures
        final(state)@ == draw(old(state)@, old(state)@.v[x as int], old(state)@.v[y as int], n),
{
    let ghost m = state@;
    let vx = state.v[x];
    let vy = state.v[y];
    let mut collided = false;
    let mut row: usize = 0;
    while row < n
        invariant
            m.wf(),
            n < 16,
            row <= n,
            vx == m.v[x as int],
            vy == m.v[y as int],
            state@ == (Machine { screen: state@.screen, ..m }),
            state.screen@.len() == SCREEN_SIZE,
            forall|k: int|
                0 <= k < SCREEN_SIZE ==> #[trigger] state.screen@[k] == (m.screen[k] != (
                sprite_bit(m, vx, vy, n, k) && drawn_before(vx, vy, k, row as int, 0))),
            collided == exists|k: int|
                0 <= k < SCREEN_SIZE && m.screen[k] && #[trigger] sprite_bit(m, vx, vy, n, k)
                    && drawn_before(vx, vy, k, row as int, 0),
        decreases n - row,
    {
        let bits = state.memory[(state.i + row) % MEMORY_SIZE];
        let mut col: u8 = 0;
        while col < 8
            invariant
                m.wf(),
                n < 16,
                row < n,
                col <= 8,
                vx == m.v[x as int],
                vy == m.v[y as int],
                bits == m.memory[wrap_addr(m.i + row) as int],
                state@ == (Machine { screen: state@.screen, ..m }),
                state.screen@.len() == SCREEN_SIZE,
                forall|k: int|
                    0 <= k < SCREEN_SIZE ==> #[trigger] state.screen@[k] == (m.screen[k] != (
                    sprite_bit(m, vx, vy, n, k) && drawn_before(vx, vy, k, row as int, col as int))),
                collided == exists|k: int|
                    0 <= k < SCREEN_SIZE && m.screen[k] && #[trigger] sprite_bit(m, vx, vy, n, k)
                        && drawn_before(vx, vy, k, row as int, col as int),
            decreases 8 - col,
        {
            let cx = (vx as usize + col as usize) % WIDTH;
            let cy = (vy as usize + row) % HEIGHT;
            let k = cy * WIDTH + cx;
            proof {
                lemma_target_cell(vx, vy, row as int, col as int, k as int);
            }
            let ghost before = state.screen@;
            let ghost was_collided = collided;
            if bits & (0x80u8 >> col) != 0 {
                assert(sprite_bit(m, vx, vy, n, k as int));
                if state.screen[k] {
                    collided = true;
                }
                state.screen[k] = !state.screen[k];
            } else {
                assert(!sprite_bit(m, vx, vy, n, k as int));
            }
            assert forall|k2: int| 0 <= k2 < SCREEN_SIZE implies #[trigger] state.screen@[k2] == (
            m.screen[k2] != (sprite_bit(m, vx, vy, n, k2) && drawn_before(
                vx,
                vy,
                k2,
                row as int,
                col as int + 1,
            ))) by {
                if k2 != k {
                    assert(state.screen@[k2] == before[k2]);
                }
            }
            assert(collided == exists|k2: int|
                0 <= k2 < SCREEN_SIZE && m.screen[k2] && #[trigger] sprite_bit(m, vx, vy, n, k2)
                    && drawn_before(vx, vy, k2, row as int, col as int + 1)) by {
                if collided && !was_collided {
                    assert(m.screen[k as int] && sprite_bit(m, vx, vy, n, k as int)
                        && drawn_before(vx, vy, k as int, row as int, col as int + 1));
                }
                if !collided {
                    assert forall|k2: int|
                        0 <= k2 < SCREEN_SIZE && m.screen[k2] && #[trigger] sprite_bit(
                            m,
                            vx,
                            vy,
                            n,
                            k2,
                        ) implies !drawn_before(vx, vy, k2, row as int, col as int + 1) by {
                        if k2 != k {
                            assert(!drawn_before(vx, vy, k2, row as int, col as int));
                        }
                    }
                }
            }
            col += 1;
        }
        proof {
            assert forall|k: int| #[trigger]
                sprite_bit(m, vx, vy, n, k) implies drawn_before(
                vx,
                vy,
                k,
                row as int,
                8,
            ) == drawn_before(vx, vy, k, row as int + 1, 0) by {}
        }
        row += 1;
    }
    state.v[15] = if collided {
        1
    } else {
        0
    };
    proof {
        assert forall|k: int| #[trigger]
            sprite_bit(m, vx, vy, n, k) implies drawn_before(vx, vy, k, n as int, 0) by {}
        assert(state.screen@ =~= draw(m, vx, vy, n).screen);
    }
}

/// Whether `instruction` lies outside the documented table and is therefore
/// ignored: it only moves PC on.
pub fn unknown_op(instruction: u16) -> (r: bool)
    ensures
        r == !is_documented(instruction),
{
    let n = instruction % 16;
    let nn = instruction % 256;
    match instruction / 4096 {
        0x0 => instruction != 0x00E0 && instruction != 0x00EE,
        0x5 | 0x9 => n != 0,
        0x8 => !(n <= 7 || n == 0xE),
        0xE => !(nn == 0x9E || nn == 0xA1),
        0xF => !(nn == 0x07 || nn == 0x0A || nn == 0x15 || nn == 0x18 || nn == 0x1E || nn == 0x29
            || nn == 0x33 || nn == 0x55 || nn == 0x65 || nn == 0xFF),
        _ => false,
    }
}

} // verus!
