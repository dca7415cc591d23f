//! The machine state of the CHIP-8 interpreter: memory, registers, timers,
//! call stack, framebuffer and keyboard latch.
//!
//! Memory layout after construction:
//! - 0x000 to 0x04F: the character sprites (16 glyphs of 5 bytes)
//! - 0x050 to 0x1FF: trap bytes
//! - 0x200 to 0xE9D: program memory, zeroed
//! - 0xE9E to 0xE9F: a jump back to 0x200, catching stray execution
//! - 0xEA0 to 0xFFF: trap bytes
//!
//! The call stack is not kept in memory: return addresses live in a bounded
//! vector growing from index 0.
use vstd::prelude::*;
use crate::isa::{next_rng, random_byte};
use crate::constants::{
    CHARACTER_SPRITE_OFFSET, MEMORY_SIZE, PROGRAM_START, RNG_SEED, SCREEN_SIZE, STACK_DEPTH,
    TRAP_BYTE,
};

verus! {

/// The whole architectural state of the machine.
pub struct State {
    /// Pixels in row-major order from the upper-left corner; true means on.
    pub screen: [bool; 2048],
    pub delay_timer: u8,
    pub sound_timer: u8,
    /// Address register; always below 0x1000.
    pub i: usize,
    pub memory: [u8; 4096],
    /// Program counter; always below 0x1000.
    pub pc: usize,
    /// Return addresses, innermost last; at most 12 of them.
    pub stack: Vec<usize>,
    /// Registers V0 to VF. VF is the carry flag, the "no borrow" flag in
    /// subtraction, and the collision flag of the draw instruction.
    pub v: [u8; 16],
    /// Currently latched key, if any.
    pub key_pressed: Option<u8>,
    /// Time in milliseconds at which the latched key was pressed.
    pub key_pressed_at: u64,
    /// While some, the machine waits for a key, to be stored in this register.
    pub waiting_for_keypress: Option<usize>,
    /// State of the pseudo-random byte generator.
    pub rng_state: u32,
}

/// The mathematical model of a [`State`].
pub struct Machine {
    pub screen: Seq<bool>,
    pub delay_timer: u8,
    pub sound_timer: u8,
    pub i: usize,
    pub memory: Seq<u8>,
    pub pc: usize,
    pub stack: Seq<usize>,
    pub v: Seq<u8>,
    pub key_pressed: Option<u8>,
    pub key_pressed_at: u64,
    pub waiting_for_keypress: Option<usize>,
    pub rng_state: u32,
}

impl View for State {
    type V = Machine;

    open spec fn view(&self) -> Machine {
        Machine {
            screen: self.screen@,
            delay_timer: self.delay_timer,
            sound_timer: self.sound_timer,
            i: self.i,
            memory: self.memory@,
            pc: self.pc,
            stack: self.stack@,
            v: self.v@,
            key_pressed: self.key_pressed,
            key_pressed_at: self.key_pressed_at,
            waiting_for_keypress: self.waiting_for_keypress,
            rng_state: self.rng_state,
        }
    }
}

impl Machine {
    /// The invariant of the machine: sizes are fixed, PC, I and every return
    /// address are 12-bit, the stack is within its bound, and a pending key
    /// wait names a register.
    pub open spec fn wf(self) -> bool {
        &&& self.screen.len() == SCREEN_SIZE
        &&& self.memory.len() == MEMORY_SIZE
        &&& self.v.len() == 16
        &&& self.pc < MEMORY_SIZE
        &&& self.i < MEMORY_SIZE
        &&& self.stack.len() <= STACK_DEPTH
        &&& forall|k: int| 0 <= k < self.stack.len() ==> #[trigger] self.stack[k] < MEMORY_SIZE
        &&& match self.waiting_for_keypress {
            Some(x) => x < 16,
            None => true,
        }
    }

    /// Whether dispatch is suspended on a key wait.
    pub open spec fn is_waiting(self) -> bool {
        self.waiting_for_keypress is Some
    }
}

/// The character sprites 0 to F, five rows each; only the upper four bits of
/// a row are used.
pub open spec fn font() -> Seq<u8> {
    seq![
        0xF0u8, 0x90, 0x90, 0x90, 0xF0, // 0
        0x20, 0x60, 0x20, 0x20, 0x70, // 1
        0xF0, 0x10, 0xF0, 0x80, 0xF0, // 2
        0xF0, 0x10, 0xF0, 0x10, 0xF0, // 3
        0x90, 0x90, 0xF0, 0x10, 0x10, // 4
        0xF0, 0x80, 0xF0, 0x10, 0xF0, // 5
        0xF0, 0x80, 0xF0, 0x90, 0xF0, // 6
        0xF0, 0x10, 0x20, 0x40, 0x40, // 7
        0xF0, 0x90, 0xF0, 0x90, 0xF0, // 8
        0xF0, 0x90, 0xF0, 0x10, 0xF0, // 9
        0xF0, 0x90, 0xF0, 0x90, 0x90, // A
        0xE0, 0x90, 0xE0, 0x90, 0xE0, // B
        0xF0, 0x80, 0x80, 0x80, 0xF0, // C
        0xE0, 0x90, 0x90, 0x90, 0xE0, // D
        0xF0, 0x80, 0xF0, 0x80, 0xF0, // E
        0xF0, 0x80, 0xF0, 0x80, 0x80, // F
    ]
}

/// The byte at address `a` of a freshly constructed machine.
pub open spec fn initial_memory_byte(a: int) -> u8 {
    if a < 80 {
        font()[a]
    } else if a < 0x200 {
        TRAP_BYTE
    } else if a == 0xE9E {
        0x12
    } else if a < 0xEA0 {
        0
    } else {
        TRAP_BYTE
    }
}

/// A freshly constructed machine: everything zero but the memory layout,
/// PC at the program start, and the generator at its seed.
pub open spec fn initial_machine() -> Machine {
    Machine {
        screen: Seq::new(SCREEN_SIZE as nat, |k: int| false),
        delay_timer: 0,
        sound_timer: 0,
        i: 0,
        memory: Seq::new(MEMORY_SIZE as nat, |a: int| initial_memory_byte(a)),
        pc: PROGRAM_START,
        stack: Seq::empty(),
        v: Seq::new(16, |k: int| 0u8),
        key_pressed: None,
        key_pressed_at: 0,
        waiting_for_keypress: None,
        rng_state: RNG_SEED,
    }
}

/// Why a ROM could not be loaded.
#[derive(Debug, Clone, Copy, PartialEq, Eq, Structural)]
pub enum LoadError {
    /// The ROM is longer than the memory above the program start.
    RomTooLarge,
}

/// Largest ROM that fits above the program start.
pub open spec fn rom_capacity() -> int {
    MEMORY_SIZE - PROGRAM_START
}

impl State {
    /// A machine with zeroed registers, timers, stack and screen, the
    /// character sprites installed, trap bytes in the reserved regions and a
    /// jump back to the program start at 0xE9E.
    pub fn new() -> (s: Self)
        ensures
            s@ == initial_machine(),
            s@.wf(),
    {
        let mut state = State {
            screen: [false; 2048],
            delay_timer: 0,
            sound_timer: 0,
            i: 0,
            memory: [0; 4096],
            pc: PROGRAM_START,
            stack: Vec::new(),
            v: [0; 16],
            key_pressed: None,
            key_pressed_at: 0,
            waiting_for_keypress: None,
            rng_state: RNG_SEED,
        };
        assert(state.screen@ =~= initial_machine().screen);
        assert(state.v@ =~= initial_machine().v);
        assert(state.stack@ =~= initial_machine().stack);
        state.bootstrap_character_rom();
        let ghost fields = state@;
        let mut a: usize = 80;
        while a < PROGRAM_START
            invariant
                80 <= a <= PROGRAM_START,
                state.memory@.len() == MEMORY_SIZE,
                forall|k: int| 0 <= k < 80 ==> state.memory@[k] == font()[k],
                forall|k: int| 80 <= k < a ==> state.memory@[k] == TRAP_BYTE,
                forall|k: int| a <= k < MEMORY_SIZE ==> state.memory@[k] == 0,
                state@ == (Machine { memory: state@.memory, ..fields }),
            decreases PROGRAM_START - a,
        {
            state.memory[a] = TRAP_BYTE;
            a += 1;
        }
        state.memory[0xE9E] = 0x12;
        let mut b: usize = 0xEA0;
        while b < MEMORY_SIZE
            invariant
                0xEA0 <= b <= MEMORY_SIZE,
                state.memory@.len() == MEMORY_SIZE,
                forall|k: int| 0 <= k < b ==> state.memory@[k] == initial_memory_byte(k),
                forall|k: int| b <= k < MEMORY_SIZE ==> state.memory@[k] == 0,
                state@ == (Machine { memory: state@.memory, ..fields }),
            decreases MEMORY_SIZE - b,
        {
            state.memory[b] = TRAP_BYTE;
            b += 1;
        }
        assert(state.memory@ =~= initial_machine().memory);
        state
    }

    /// Installs the built-in character set at the start of memory: 16 glyphs
    /// of 5 bytes, each byte a row of 8 pixels of which the upper 4 are used.
    pub fn bootstrap_character_rom(&mut self)
        ensures
            forall|k: int| 0 <= k < 80 ==> final(self)@.memory[k] == font()[k],
            forall|k: int|
                80 <= k < MEMORY_SIZE ==> final(self)@.memory[k] == old(self)@.memory[k],
            final(self)@ == (Machine { memory: final(self)@.memory, ..old(self)@ }),
    {
        let charmap: [u8; 80] = [
            0xF0, 0x90, 0x90, 0x90, 0xF0, // 0
            0x20, 0x60, 0x20, 0x20, 0x70, // 1
            0xF0, 0x10, 0xF0, 0x80, 0xF0, // 2
            0xF0, 0x10, 0xF0, 0x10, 0xF0, // 3
            0x90, 0x90, 0xF0, 0x10, 0x10, // 4
            0xF0, 0x80, 0xF0, 0x10, 0xF0, // 5
            0xF0, 0x80, 0xF0, 0x90, 0xF0, // 6
            0xF0, 0x10, 0x20, 0x40, 0x40, // 7
            0xF0, 0x90, 0xF0, 0x90, 0xF0, // 8
            0xF0, 0x90, 0xF0, 0x10, 0xF0, // 9
            0xF0, 0x90, 0xF0, 0x90, 0x90, // A
            0xE0, 0x90, 0xE0, 0x90, 0xE0, // B
            0xF0, 0x80, 0x80, 0x80, 0xF0, // C
            0xE0, 0x90, 0x90, 0x90, 0xE0, // D
            0xF0, 0x80, 0xF0, 0x80, 0xF0, // E
            0xF0, 0x80, 0xF0, 0x80, 0x80, // F
        ];
        assert(charmap@ =~= font());
        let ghost before = self@;
        let mut k: usize = 0;
        while k < 80
            invariant
                0 <= k <= 80,
                charmap@ == font(),
                self.memory@.len() == MEMORY_SIZE,
                forall|j: int| 0 <= j < k ==> self.memory@[j] == font()[j],
                forall|j: int| k <= j < MEMORY_SIZE ==> self.memory@[j] == before.memory[j],
                self@ == (Machine { memory: self@.memory, ..before }),
            decreases 80 - k,
        {
            self.memory[CHARACTER_SPRITE_OFFSET + k] = charmap[k];
            k += 1;
        }
    }

    /// Copies `rom` verbatim into memory from the program start on. A ROM
    /// that does not fit is refused and the state is left unchanged.
    pub fn load(&mut self, rom: &[u8]) -> (r: Result<(), LoadError>)
        ensures
            r is Err <==> rom@.len() > rom_capacity(),
            r is Err ==> r == Err::<(), LoadError>(LoadError::RomTooLarge) && final(self)@ == old(
                self,
            )@,
            r is Ok ==> final(self)@ == (Machine {
                memory: final(self)@.memory,
                ..old(self)@
            }),
            r is Ok ==> forall|a: int|
                0 <= a < MEMORY_SIZE ==> #[trigger] final(self)@.memory[a] == if PROGRAM_START
                    <= a < PROGRAM_START + rom@.len() {
                    rom@[a - PROGRAM_START]
                } else {
                    old(self)@.memory[a]
                },
    {
        if rom.len() > MEMORY_SIZE - PROGRAM_START {
            return Err(LoadError::RomTooLarge);
        }
        let ghost before = self@;
        let mut k: usize = 0;
        while k < rom.len()
            invariant
                0 <= k <= rom@.len() <= rom_capacity(),
                self.memory@.len() == MEMORY_SIZE,
                forall|a: int|
                    0 <= a < MEMORY_SIZE ==> #[trigger] self.memory@[a] == if PROGRAM_START <= a
                        < PROGRAM_START + k {
                        rom@[a - PROGRAM_START]
                    } else {
                        before.memory[a]
                    },
                self@ == (Machine { memory: self@.memory, ..before }),
            decreases rom@.len() - k,
        {
            self.memory[PROGRAM_START + k] = rom[k];
            k += 1;
        }
        Ok(())
    }

    /// Advances the pseudo-random generator and returns its next byte.
    pub fn next_random_byte(&mut self) -> (r: u8)
        ensures
            r == random_byte(old(self)@.rng_state),
            final(self)@ == (Machine { rng_state: next_rng(old(self)@.rng_state), ..old(self)@ }),
    {
        self.rng_state = self.rng_state.wrapping_mul(1103515245).wrapping_add(12345);
        ((self.rng_state / 65536) % 256) as u8
    }
}

} // verus!
