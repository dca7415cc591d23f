//! Properties of the instruction set and of the scheduler, proved over the
//! machine model for every machine and every operand.
use vstd::prelude::*;
use crate::constants::{SCREEN_SIZE, STACK_DEPTH};
use crate::isa::{
    advance, draw, execute, fetch_spec, is_documented, op_group, op_nn, op_nnn, op_x, sprite_bit,
    step, wrap_addr, ExecError,
};
use crate::scheduler::{deliver_key_spec, tick_spec};
use crate::state::Machine;

verus! {

/// A jump `1NNN` sets PC to exactly NNN, with no further increment.
pub proof fn jump_sets_pc(m: Machine)
    requires
        m.wf(),
        op_group(fetch_spec(m)) == 0x1,
    ensures
        step(m).0.pc == op_nnn(fetch_spec(m)),
        step(m).1 == Ok::<Option<usize>, ExecError>(None),
{
}

/// `6XNN` sets VX to NN and leaves every other register, I, the stack and
/// memory unchanged.
pub proof fn load_immediate_sets_only_vx(m: Machine)
    requires
        m.wf(),
        op_group(fetch_spec(m)) == 0x6,
    ensures
        step(m).0.v[op_x(fetch_spec(m)) as int] == op_nn(fetch_spec(m)),
        forall|j: int|
            0 <= j < 16 && j != op_x(fetch_spec(m)) ==> #[trigger] step(m).0.v[j] == m.v[j],
        step(m).0.i == m.i,
        step(m).0.stack == m.stack,
        step(m).0.memory == m.memory,
        step(m).0.pc == wrap_addr(m.pc + 2),
{
}

/// A call `2NNN` followed by a return `00EE` at its target resumes right
/// after the call, with the stack as deep as before the call.
pub proof fn call_then_return_resumes_after_call(m: Machine)
    requires
        m.wf(),
        op_group(fetch_spec(m)) == 0x2,
        m.stack.len() < STACK_DEPTH,
        fetch_spec(step(m).0) == 0x00EE,
    ensures
        step(m).1 == Ok::<Option<usize>, ExecError>(None),
        step(step(m).0).1 == Ok::<Option<usize>, ExecError>(None),
        step(step(m).0).0.pc == wrap_addr(m.pc + 2),
        step(step(m).0).0.stack == m.stack,
{
    let m1 = step(m).0;
    assert(m1.stack == m.stack.push(wrap_addr(m.pc + 2)));
    assert(m1.stack.drop_last() =~= m.stack);
}

/// A return `00EE` on an empty stack fails with a stack underflow; the
/// machine is left well-formed, with only PC moved past the instruction.
pub proof fn return_on_empty_stack_underflows(m: Machine)
    requires
        m.wf(),
        fetch_spec(m) == 0x00EE,
        m.stack.len() == 0,
    ensures
        step(m).1 == Err::<Option<usize>, ExecError>(ExecError::StackUnderflow),
        step(m).0 == advance(m),
        step(m).0.wf(),
{
}

/// `00E0` turns every cell of the screen off, whatever it held.
pub proof fn clear_screen_clears_every_cell(m: Machine)
    requires
        m.wf(),
        fetch_spec(m) == 0x00E0,
    ensures
        forall|k: int| 0 <= k < SCREEN_SIZE ==> !(#[trigger] step(m).0.screen[k]),
        step(m).0.screen.len() == SCREEN_SIZE,
{
}

/// `DXYN` sets VF to 1 iff some cell goes from set to unset, and to 0
/// otherwise.
pub proof fn draw_flag_iff_cell_turned_off(m: Machine)
    requires
        m.wf(),
        op_group(fetch_spec(m)) == 0xD,
    ensures
        step(m).0.v[15] == 0 || step(m).0.v[15] == 1,
        step(m).0.v[15] == 1 <==> exists|k: int|
            0 <= k < SCREEN_SIZE && m.screen[k] && !(#[trigger] step(m).0.screen[k]),
{
    let op = fetch_spec(m);
    let m1 = advance(m);
    let vx = m1.v[op_x(op) as int];
    let vy = m1.v[((op / 16) % 16) as int];
    let n = (op % 16) as usize;
    let m2 = step(m).0;
    assert(m2 == draw(m1, vx, vy, n));
    if m2.v[15] == 1 {
        let k = choose|k: int|
            0 <= k < SCREEN_SIZE && m1.screen[k] && #[trigger] sprite_bit(m1, vx, vy, n, k);
        assert(!m2.screen[k]);
    }
    if exists|k: int| 0 <= k < SCREEN_SIZE && m.screen[k] && !(#[trigger] m2.screen[k]) {
        let k = choose|k: int| 0 <= k < SCREEN_SIZE && m.screen[k] && !(#[trigger] m2.screen[k]);
        assert(sprite_bit(m1, vx, vy, n, k));
    }
}

/// `FX0A` suspends dispatch: right after it the machine waits on register X
/// with PC just past it, and a tick changes nothing, however often it comes.
/// A key event then stores the key in VX and ends the wait, and the next
/// tick executes the next instruction.
pub proof fn key_wait_suspends_until_key(m: Machine, key: u8, now_ms: u64)
    requires
        m.wf(),
        op_group(fetch_spec(m)) == 0xF,
        op_nn(fetch_spec(m)) == 0x0A,
    ensures
        step(m).0.waiting_for_keypress == Some(op_x(fetch_spec(m))),
        step(m).0.pc == wrap_addr(m.pc + 2),
        tick_spec(step(m).0) == (step(m).0, Ok::<Option<u8>, ExecError>(None)),
        deliver_key_spec(step(m).0, key, now_ms).v[op_x(fetch_spec(m)) as int] == key,
        !deliver_key_spec(step(m).0, key, now_ms).is_waiting(),
        deliver_key_spec(step(m).0, key, now_ms).pc == wrap_addr(m.pc + 2),
        tick_spec(deliver_key_spec(step(m).0, key, now_ms)).0 == step(
            deliver_key_spec(step(m).0, key, now_ms),
        ).0,
{
}

/// An instruction outside the documented table is never fatal: it only moves
/// PC past itself.
pub proof fn unknown_op_only_advances(m: Machine)
    requires
        m.wf(),
        !is_documented(fetch_spec(m)),
    ensures
        step(m) == (advance(m), Ok::<Option<usize>, ExecError>(None)),
{
}

/// The only failures of a step are the two stack errors, each exactly when
/// its condition holds; and the only halt is `FXFF`, with exit code X.
pub proof fn step_outcomes(m: Machine)
    requires
        m.wf(),
    ensures
        step(m).1 == Err::<Option<usize>, ExecError>(ExecError::StackUnderflow) <==> (fetch_spec(
            m,
        ) == 0x00EE && m.stack.len() == 0),
        step(m).1 == Err::<Option<usize>, ExecError>(ExecError::StackOverflow) <==> (op_group(
            fetch_spec(m),
        ) == 0x2 && m.stack.len() >= STACK_DEPTH),
        step(m).1 is Ok && step(m).1->Ok_0 is Some <==> (op_group(fetch_spec(m)) == 0xF && op_nn(
            fetch_spec(m),
        ) == 0xFF),
        step(m).1 == Ok::<Option<usize>, ExecError>(Some(op_x(fetch_spec(m)))) <==> (op_group(
            fetch_spec(m),
        ) == 0xF && op_nn(fetch_spec(m)) == 0xFF),
{
}

} // verus!
