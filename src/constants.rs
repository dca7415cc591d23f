//! Sizes, offsets and rates of the CHIP-8 machine.
use vstd::prelude::*;

verus! {

/// Character sprites start at 0x000.
pub const CHARACTER_SPRITE_OFFSET: usize = 0x000;

/// Number of bytes in one character sprite.
pub const CHARACTER_SPRITE_BYTES: usize = 5;

/// Instruction clock: 48 kHz.
pub const CLOCK_FREQ: u32 = 48000;

/// Screen height in "pixels".
pub const HEIGHT: usize = 32;

/// Screen width in "pixels".
pub const WIDTH: usize = 64;

/// Number of cells of the framebuffer.
pub const SCREEN_SIZE: usize = 2048;

/// 4 KB of memory.
pub const MEMORY_SIZE: usize = 4096;

/// Address at which programs are loaded and start.
pub const PROGRAM_START: usize = 0x200;

/// Maximum depth of the call stack.
pub const STACK_DEPTH: usize = 12;

/// A latched key press is dropped after this many milliseconds if no
/// instruction consumed it (there are no key-release events).
pub const KEY_PRESS_TIMEOUT_MS: u64 = 100;

/// Byte that fills unused memory: `FFFF` halts the machine if executed.
pub const TRAP_BYTE: u8 = 0xFF;

/// Initial state of the random byte generator.
pub const RNG_SEED: u32 = 0x2545_F491;

} // verus!
