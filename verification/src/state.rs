use vstd::prelude::*;
use crate::model::{
    blank_screen, screen_sized, Config, FONT, FONT_SIZE, FONT_START, MEMORY_SIZE,
    PROGRAM_START,
};

verus! {

/// The machine as a mathematical value: what every contract of the machine
/// speaks of.
#[verifier::ext_equal]
pub struct State {
    /// The 4096 bytes of memory.
    pub memory: Seq<u8>,
    /// The sixteen registers `V0` to `VF`.
    pub v: Seq<u8>,
    /// The index register `I`.
    pub i: u16,
    /// The program counter: the address of the next instruction to fetch.
    pub pc: u16,
    /// The return addresses, the latest call last.
    pub stack: Seq<u16>,
    /// The screen: 32 rows of 64 pixels, `screen[row][column]`.
    pub screen: Seq<Seq<bool>>,
    /// The delay timer.
    pub delay: u8,
    /// The sound timer.
    pub sound: u8,
    /// For each of the sixteen keys, whether it is held down.
    pub keys: Seq<bool>,
    /// The register that waits for a key press, while the machine is
    /// suspended by `Fx0A`.
    pub waiting: Option<u8>,
    /// The state of the random number generator.
    pub rng: u32,
    /// The configuration that the machine was made with.
    pub config: Config,
}

/// The value 1 for a flag that is raised, 0 for one that is not.
pub open spec fn flag(raised: bool) -> u8 {
    if raised {
        1
    } else {
        0
    }
}

impl State {
    /// Whether the parts of the state have the sizes of the machine, and a
    /// register that waits for a key is one of the sixteen.
    pub open spec fn wf(self) -> bool {
        &&& self.memory.len() == MEMORY_SIZE
        &&& self.v.len() == 16
        &&& screen_sized(self.screen)
        &&& self.keys.len() == 16
        &&& (self.waiting matches Some(x) ==> x < 16)
    }

    /// A new machine: everything zero, off or empty, but the program counter,
    /// which is at the program start, and the font, which is in memory.
    pub open spec fn initial(config: Config) -> State {
        State {
            memory: Seq::new(
                MEMORY_SIZE as nat,
                |a: int|
                    if FONT_START <= a < FONT_START + FONT_SIZE {
                        FONT[a - FONT_START]
                    } else {
                        0u8
                    },
            ),
            v: Seq::new(16, |r: int| 0u8),
            i: 0,
            pc: PROGRAM_START,
            stack: Seq::empty(),
            screen: blank_screen(),
            delay: 0,
            sound: 0,
            keys: Seq::new(16, |k: int| false),
            waiting: None,
            rng: 0,
            config,
        }
    }

    /// The state with register `x` set to `value`.
    pub open spec fn with_v(self, x: int, value: u8) -> State {
        State { v: self.v.update(x, value), ..self }
    }

    /// The state with `VF` set to 1 or 0.
    pub open spec fn with_flag(self, raised: bool) -> State {
        self.with_v(0xF, flag(raised))
    }

    /// The state with the next instruction skipped, where `skip` holds. The
    /// program counter is a sixteen-bit register and wraps as one.
    pub open spec fn skip_if(self, skip: bool) -> State {
        if skip {
            State { pc: ((self.pc + 2) % 0x1_0000) as u16, ..self }
        } else {
            self
        }
    }

    /// Whether the key whose value is `value` is held down. No key has a
    /// value above 15.
    pub open spec fn key_down(self, value: u8) -> bool {
        value < 16 && self.keys[value as int]
    }

    /// The instruction word at the program counter: two bytes, the first the
    /// more significant.
    pub open spec fn word_at_pc(self) -> u16 {
        (self.memory[self.pc as int] * 256 + self.memory[self.pc + 1]) as u16
    }

    /// Whether both bytes of the instruction at the program counter lie in
    /// memory.
    pub open spec fn can_fetch(self) -> bool {
        self.pc + 1 < MEMORY_SIZE
    }

    /// The state after a fetch.
    pub open spec fn fetched(self) -> State {
        State { pc: (self.pc + 2) as u16, ..self }
    }
}

} // verus!
