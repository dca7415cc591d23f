//! The decisions of the tick loop. The loop itself (sleeping, rendering,
//! reading keys) runs outside the library; each tick it calls [`tick`], hands
//! a key event to [`deliver_key`], lets [`expire_key`] drop a stale key, and
//! sleeps for [`sleep_budget`].
use vstd::prelude::*;
use crate::constants::{CLOCK_FREQ, KEY_PRESS_TIMEOUT_MS};
use crate::decoder::decode_and_execute;
use crate::isa::{step, ExecError, Outcome};
use crate::state::{Machine, State};

verus! {

/// What a tick reports to the loop: `Ok(None)` to go on, `Ok(Some(code))`
/// when the run ends with that exit code, or the error that ends it.
pub type RunOutcome = Result<Option<u8>, ExecError>;

/// The run-level reading of an instruction's outcome on the machine it left:
/// a halt naming register X ends the run with the value of VX as exit code.
pub open spec fn run_outcome(m: Machine, o: Outcome) -> RunOutcome {
    match o {
        Ok(Some(x)) => Ok(Some(m.v[x as int])),
        Ok(None) => Ok(None),
        Err(e) => Err(e),
    }
}

/// One tick: no instruction while the machine waits for a key, else exactly
/// one.
pub open spec fn tick_spec(m: Machine) -> (Machine, RunOutcome) {
    if m.is_waiting() {
        (m, Ok(None))
    } else {
        (step(m).0, run_outcome(step(m).0, step(m).1))
    }
}

/// A key event: it resolves a pending key wait by storing the key in the
/// waiting register, or else is latched with the time it came.
pub open spec fn deliver_key_spec(m: Machine, key: u8, now_ms: u64) -> Machine {
    match m.waiting_for_keypress {
        Some(x) => Machine { v: m.v.update(x as int, key), waiting_for_keypress: None, ..m },
        None => Machine { key_pressed: Some(key), key_pressed_at: now_ms, ..m },
    }
}

/// Whether a latched key has outlived its timeout at time `now_ms`.
pub open spec fn key_expired(m: Machine, now_ms: u64) -> bool {
    m.key_pressed is Some && now_ms >= m.key_pressed_at && now_ms - m.key_pressed_at
        >= KEY_PRESS_TIMEOUT_MS
}

/// Runs one tick of the scheduler: executes the next instruction unless the
/// machine is suspended on a key wait, in which case nothing changes. A halt
/// `FXFF` ends the run with the value of VX as exit code.
pub fn tick(state: &mut State) -> (r: RunOutcome)
    requires
        old(state)@.wf(),
    ensures
        final(state)@.wf(),
        (final(state)@, r) == tick_spec(old(state)@),
{
    if state.waiting_for_keypress.is_some() {
        return Ok(None);
    }
    match decode_and_execute(state) {
        Ok(Some(x)) => Ok(Some(state.v[x])),
        Ok(None) => Ok(None),
        Err(e) => Err(e),
    }
}

/// Hands a key event (0 to 15) to the machine: a pending key wait receives
/// the key in its register and dispatch resumes; otherwise the key is latched
/// at `now_ms` for the skip-if-key instructions.
pub fn deliver_key(state: &mut State, key: u8, now_ms: u64)
    requires
        old(state)@.wf(),
    ensures
        final(state)@.wf(),
        final(state)@ == deliver_key_spec(old(state)@, key, now_ms),
{
    match state.waiting_for_keypress {
        Some(x) => {
            state.v[x] = key;
            state.waiting_for_keypress = None;
        },
        None => {
            state.key_pressed = Some(key);
            state.key_pressed_at = now_ms;
        },
    }
}

/// Clears a latched key that no instruction consumed within the timeout:
/// there are no key-release events, so a press counts for a while only.
pub fn expire_key(state: &mut State, now_ms: u64)
    requires
        old(state)@.wf(),
    ensures
        final(state)@.wf(),
        final(state)@ == if key_expired(old(state)@, now_ms) {
            Machine { key_pressed: None, ..old(state)@ }
        } else {
            old(state)@
        },
{
    if state.key_pressed.is_some() && now_ms >= state.key_pressed_at && now_ms
        - state.key_pressed_at >= KEY_PRESS_TIMEOUT_MS {
        state.key_pressed = None;
    }
}

/// Length of one tick in nanoseconds at the instruction clock rate.
pub fn tick_period_ns() -> (r: u64)
    ensures
        r == 1_000_000_000int / (CLOCK_FREQ as int),
{
    1_000_000_000 / (CLOCK_FREQ as u64)
}

/// How long to sleep after a tick that took `elapsed_ns` of a `period_ns`
/// budget: the rest of the budget, or nothing after an overrun. Overrun time
/// is lost, never made up by later ticks.
pub fn sleep_budget(elapsed_ns: u64, period_ns: u64) -> (r: u64)
    ensures
        r == if elapsed_ns < period_ns {
            period_ns - elapsed_ns
        } else {
            0
        },
{
    if elapsed_ns < period_ns {
        period_ns - elapsed_ns
    } else {
        0
    }
}

} // verus!
