//! A CHIP-8 interpreter core: the machine state, the instruction decoder and
//! executor, and the per-tick scheduling decisions, each specified against a
//! mathematical model of the machine.
use vstd::prelude::*;

pub mod constants;
pub mod decoder;
pub mod isa;
pub mod laws;
pub mod scheduler;
pub mod state;

verus! {

} // verus!
