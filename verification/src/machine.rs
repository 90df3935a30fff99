use vstd::prelude::*;
use crate::model::{
    Config, FONT, FONT_SIZE, FONT_START, MEMORY_SIZE, PROGRAM_START, SCREEN_HEIGHT,
    SCREEN_WIDTH,
};
use crate::register::Register;
use crate::state::State;

mod draw;
mod input;
mod memory;
mod registers;
mod screen;
mod stack;
mod timers;
mod transfer;

verus! {

/// A CHIP-8 machine.
pub struct Chip8 {
    mem: [u8; MEMORY_SIZE],
    pc: u16,
    reg_i: u16,
    stack: Vec<u16>,
    registers: [u8; 16],
    display: [[bool; SCREEN_WIDTH]; SCREEN_HEIGHT],
    delay_timer: u8,
    sound_timer: u8,
    keys: [bool; 16],
    waiting: Option<Register>,
    rng: u32,
    config: Config,
}

impl Chip8 {
    /// The machine as a mathematical value.
    pub closed spec fn view(&self) -> State {
        State {
            memory: self.mem@,
            v: self.registers@,
            i: self.reg_i,
            pc: self.pc,
            stack: self.stack@,
            screen: Seq::new(SCREEN_HEIGHT as nat, |r: int| self.display[r]@),
            delay: self.delay_timer,
            sound: self.sound_timer,
            keys: self.keys@,
            waiting: match self.waiting {
                Some(register) => Some(register.number()),
                None => None,
            },
            rng: self.rng,
            config: self.config,
        }
    }

    /// The view of a machine is well formed.
    pub proof fn lemma_view_wf(&self)
        ensures
            self@.wf(),
    {
        assert forall|r: int| 0 <= r < SCREEN_HEIGHT implies (#[trigger] self@.screen[r]).len()
            == SCREEN_WIDTH by {
            assert(self@.screen[r] == self.display[r]@);
        }
    }

    /// A machine with the default configuration.
    pub fn new() -> (machine: Chip8)
        ensures
            machine@ == State::initial(Config::standard()),
            machine@.wf(),
    {
        Chip8::with_config(Config::default())
    }

    /// A machine with the configuration given: everything zero, off or
    /// empty, but the program counter, which is at the program start, and the
    /// font, which is in memory.
    pub fn with_config(config: Config) -> (machine: Chip8)
        ensures
            machine@ == State::initial(config),
            machine@.wf(),
    {
        let mut machine = Chip8 {
            mem: [0; MEMORY_SIZE],
            pc: PROGRAM_START,
            reg_i: 0,
            stack: Vec::new(),
            registers: [0; 16],
            display: [[false; SCREEN_WIDTH]; SCREEN_HEIGHT],
            delay_timer: 0,
            sound_timer: 0,
            keys: [false; 16],
            waiting: None,
            rng: 0,
            config,
        };
        let ghost blank = machine;
        let mut k: usize = 0;
        while k < FONT_SIZE
            invariant
                k <= FONT_SIZE,
                machine == (Chip8 { mem: machine.mem, ..blank }),
                forall|a: int|
                    0 <= a < MEMORY_SIZE ==> machine.mem[a] == if FONT_START <= a < FONT_START
                        + k {
                        FONT[a - FONT_START]
                    } else {
                        0u8
                    },
            decreases FONT_SIZE - k,
        {
            machine.mem[FONT_START as usize + k] = FONT[k];
            k += 1;
        }
        proof {
            machine.lemma_view_wf();
            assert(machine@ =~~= State::initial(config));
        }
        machine
    }

    /// The program counter.
    pub fn pc(&self) -> (pc: u16)
        ensures
            pc == self@.pc,
    {
        self.pc
    }

    /// The index register `I`.
    pub fn index(&self) -> (i: u16)
        ensures
            i == self@.i,
    {
        self.reg_i
    }

    /// Register `Vx`, or `None` where `x` names no register.
    pub fn register(&self, x: u8) -> (value: Option<u8>)
        ensures
            value == if x < 16 {
                Some(self@.v[x as int])
            } else {
                None
            },
    {
        if x < 16 {
            Some(self.registers[x as usize])
        } else {
            None
        }
    }

    /// The byte of memory at `addr`, or `None` where the address lies outside
    /// memory.
    pub fn memory(&self, addr: u16) -> (value: Option<u8>)
        ensures
            value == if addr < MEMORY_SIZE {
                Some(self@.memory[addr as int])
            } else {
                None
            },
    {
        if (addr as usize) < MEMORY_SIZE {
            Some(self.mem[addr as usize])
        } else {
            None
        }
    }

    /// Whether the pixel in column `x` and row `y` is on. A position off the
    /// screen is off.
    pub fn pixel(&self, x: usize, y: usize) -> (on: bool)
        ensures
            on == (x < SCREEN_WIDTH && y < SCREEN_HEIGHT && self@.screen[y as int][x as int]),
    {
        x < SCREEN_WIDTH && y < SCREEN_HEIGHT && self.display[y][x]
    }

    /// The screen, for the host to show: `framebuffer()[row][column]`.
    pub fn framebuffer(&self) -> (screen: &[[bool; SCREEN_WIDTH]; SCREEN_HEIGHT])
        ensures
            forall|x: int, y: int|
                0 <= x < SCREEN_WIDTH && 0 <= y < SCREEN_HEIGHT ==> screen[y][x]
                    == self@.screen[y][x],
    {
        &self.display
    }

    /// The delay timer.
    pub fn delay_timer(&self) -> (value: u8)
        ensures
            value == self@.delay,
    {
        self.delay_timer
    }

    /// The sound timer. The host sounds its tone while this is not zero.
    pub fn sound_timer(&self) -> (value: u8)
        ensures
            value == self@.sound,
    {
        self.sound_timer
    }

    /// How many return addresses the call stack holds.
    pub fn stack_depth(&self) -> (depth: usize)
        ensures
            depth == self@.stack.len(),
    {
        self.stack.len()
    }

    /// Whether the machine is suspended until a key is pressed.
    pub fn is_awaiting_key(&self) -> (awaiting: bool)
        ensures
            awaiting == self@.waiting is Some,
    {
        self.waiting.is_some()
    }

    /// The configuration that the machine was made with.
    pub fn config(&self) -> (config: Config)
        ensures
            config == self@.config,
    {
        self.config
    }
}

} // verus!
