use vstd::prelude::*;
use crate::fault::{Fault, FaultKind};
use crate::instruction::{decode_spec, Instruction};
use crate::model::{
    blank_screen, blit, collides, rng_byte, rng_next, sprite_at, FONT_START, GLYPH_SIZE,
    MEMORY_SIZE, PROGRAM_START, SCREEN_HEIGHT, SCREEN_WIDTH,
};
use crate::state::State;

verus! {

impl State {
    /// The register that a shift reads: `Vy` where the configuration says so,
    /// else `Vx`.
    pub open spec fn shift_source(self, x: u8, y: u8) -> u8 {
        if self.config.shift_uses_vy {
            self.v[y as int]
        } else {
            self.v[x as int]
        }
    }

    /// The register that `Bnnn` adds to `nnn`: `Vx`, `x` being the high
    /// nibble of `nnn`, where the configuration says so, else `V0`.
    pub open spec fn jump_offset(self, addr: u16) -> u8 {
        if self.config.jump_uses_vx {
            self.v[addr as int / 256]
        } else {
            self.v[0]
        }
    }

    /// The flag of a subtraction that does not borrow (`no_borrow`), in the
    /// polarity that the configuration chooses.
    pub open spec fn borrow_flag(self, no_borrow: bool) -> bool {
        no_borrow != self.config.borrow_sets_flag
    }

    /// Whether the call stack has room for one more return address.
    pub open spec fn stack_has_room(self) -> bool {
        match self.config.stack_limit {
            Some(limit) => self.stack.len() < limit,
            None => true,
        }
    }

    /// The state with the program counter at `addr`.
    pub open spec fn with_pc(self, addr: u16) -> State {
        State { pc: addr, ..self }
    }

    /// The state with the index register at `addr`.
    pub open spec fn with_index(self, addr: u16) -> State {
        State { i: addr, ..self }
    }

    /// The state with `memory` for its memory.
    pub open spec fn with_memory(self, memory: Seq<u8>) -> State {
        State { memory, ..self }
    }

    /// The state with `v` for its registers.
    pub open spec fn with_registers(self, v: Seq<u8>) -> State {
        State { v, ..self }
    }

    /// The state with the delay timer at `value`.
    pub open spec fn with_delay(self, value: u8) -> State {
        State { delay: value, ..self }
    }

    /// The state with the sound timer at `value`.
    pub open spec fn with_sound(self, value: u8) -> State {
        State { sound: value, ..self }
    }

    /// The state suspended until a key is pressed, which register `x` is to
    /// get.
    pub open spec fn awaiting(self, x: u8) -> State {
        State { waiting: Some(x), ..self }
    }

    /// The state with every pixel off.
    pub open spec fn cleared(self) -> State {
        State { screen: blank_screen(), ..self }
    }

    /// The state with `addr` on top of the call stack.
    pub open spec fn pushed(self, addr: u16) -> State {
        State { stack: self.stack.push(addr), ..self }
    }

    /// The state without the top of the call stack.
    pub open spec fn popped(self) -> State {
        State { stack: self.stack.drop_last(), ..self }
    }

    /// The state with the random number generator started anew from `seed`.
    pub open spec fn seeded(self, seed: u32) -> State {
        State { rng: seed, ..self }
    }

    /// The state after `8xy4`, `8xy5`, `8xy6`, `8xy7` or `8xyE`: `Vx` gets the
    /// result, then `VF` the flag, so that the flag wins where `x` is `F`.
    pub open spec fn with_result(self, x: u8, value: u8, raised: bool) -> State {
        self.with_v(x as int, value).with_flag(raised)
    }

    /// The column at which a draw puts the left edge of its sprite: `Vx`
    /// modulo the width of the screen.
    pub open spec fn draw_column(self, x: u8) -> int {
        self.v[x as int] as int % (SCREEN_WIDTH as int)
    }

    /// The row at which a draw puts the top of its sprite: `Vy` modulo the
    /// height of the screen.
    pub open spec fn draw_row(self, y: u8) -> int {
        self.v[y as int] as int % (SCREEN_HEIGHT as int)
    }

    /// The sprite of `n` rows that lies in memory at `I`.
    pub open spec fn sprite_at_index(self, n: u8) -> Seq<u8> {
        sprite_at(self.memory, self.i as int, n as int)
    }

    /// The state after a draw of `n` rows at the position that `Vx` and `Vy`
    /// give, with the sprite read at `I`.
    pub open spec fn drawn(self, x: u8, y: u8, n: u8) -> State {
        let sprite = self.sprite_at_index(n);
        let x0 = self.draw_column(x);
        let y0 = self.draw_row(y);
        State { screen: blit(self.screen, sprite, x0, y0), ..self }.with_flag(
            collides(self.screen, sprite, x0, y0),
        )
    }

    /// The state after `Fx1E`: a sixteen-bit addition into `I`, and, where the
    /// configuration says so, `VF` told whether the sum left memory.
    pub open spec fn index_added(self, x: u8) -> State {
        let sum = self.i + self.v[x as int];
        let moved = self.with_index((sum % 0x1_0000) as u16);
        if self.config.index_overflow_flag {
            moved.with_flag(sum >= MEMORY_SIZE)
        } else {
            moved
        }
    }

    /// Memory after `Fx33`: the hundreds, tens and ones of `value` at `I`,
    /// `I + 1` and `I + 2`.
    pub open spec fn bcd_stored(self, value: u8) -> Seq<u8> {
        self.memory.update(self.i as int, value / 100).update(
            self.i + 1,
            ((value / 10) % 10) as u8,
        ).update(self.i + 2, value % 10)
    }

    /// Memory after `Fx55`: `V0` to `Vx` at `I` to `I + x`.
    pub open spec fn registers_stored(self, x: u8) -> Seq<u8> {
        Seq::new(
            MEMORY_SIZE as nat,
            |a: int|
                if self.i <= a <= self.i + x {
                    self.v[a - self.i]
                } else {
                    self.memory[a]
                },
        )
    }

    /// The registers after `Fx65`: `V0` to `Vx` from `I` to `I + x`.
    pub open spec fn registers_loaded(self, x: u8) -> Seq<u8> {
        Seq::new(
            16,
            |r: int|
                if r <= x {
                    self.memory[self.i + r]
                } else {
                    self.v[r]
                },
        )
    }

    /// What one instruction does to the state, or the fault that it ends in.
    pub open spec fn apply(self, ins: Instruction) -> Result<State, FaultKind> {
        match ins {
            Instruction::ClearScreen => Ok(self.cleared()),
            Instruction::Return => if self.stack.len() == 0 {
                Err(FaultKind::StackUnderflow)
            } else {
                Ok(self.popped().with_pc(self.stack.last()))
            },
            Instruction::Jump { addr } => Ok(self.with_pc(addr)),
            Instruction::Call { addr } => if self.stack_has_room() {
                Ok(self.pushed(self.pc).with_pc(addr))
            } else {
                Err(FaultKind::StackOverflow)
            },
            Instruction::SkipEqImm { x, kk } => Ok(self.skip_if(self.v[x as int] == kk)),
            Instruction::SkipNeImm { x, kk } => Ok(self.skip_if(self.v[x as int] != kk)),
            Instruction::SkipEqReg { x, y } => Ok(
                self.skip_if(self.v[x as int] == self.v[y as int]),
            ),
            Instruction::LoadImm { x, kk } => Ok(self.with_v(x as int, kk)),
            Instruction::AddImm { x, kk } => Ok(
                self.with_v(x as int, ((self.v[x as int] + kk) % 256) as u8),
            ),
            Instruction::Move { x, y } => Ok(self.with_v(x as int, self.v[y as int])),
            Instruction::Or { x, y } => Ok(
                self.with_v(x as int, self.v[x as int] | self.v[y as int]),
            ),
            Instruction::And { x, y } => Ok(
                self.with_v(x as int, self.v[x as int] & self.v[y as int]),
            ),
            Instruction::Xor { x, y } => Ok(
                self.with_v(x as int, self.v[x as int] ^ self.v[y as int]),
            ),
            Instruction::Add { x, y } => {
                let sum = self.v[x as int] + self.v[y as int];
                Ok(self.with_result(x, (sum % 256) as u8, sum > 255))
            },
            Instruction::Sub { x, y } => {
                let a = self.v[x as int];
                let b = self.v[y as int];
                Ok(self.with_result(x, ((a - b) % 256) as u8, self.borrow_flag(a >= b)))
            },
            Instruction::ShiftRight { x, y } => {
                let source = self.shift_source(x, y);
                Ok(self.with_result(x, source / 2, source % 2 == 1))
            },
            Instruction::SubFrom { x, y } => {
                let a = self.v[x as int];
                let b = self.v[y as int];
                Ok(self.with_result(x, ((b - a) % 256) as u8, self.borrow_flag(b >= a)))
            },
            Instruction::ShiftLeft { x, y } => {
                let source = self.shift_source(x, y);
                Ok(self.with_result(x, ((source * 2) % 256) as u8, source >= 128))
            },
            Instruction::SkipNeReg { x, y } => Ok(
                self.skip_if(self.v[x as int] != self.v[y as int]),
            ),
            Instruction::LoadIndex { addr } => Ok(self.with_index(addr)),
            Instruction::JumpOffset { addr } => Ok(
                self.with_pc(((addr + self.jump_offset(addr)) % 0x1_0000) as u16),
            ),
            Instruction::Random { x, kk } => {
                let rng = rng_next(self.rng);
                Ok(self.seeded(rng).with_v(x as int, rng_byte(rng) & kk))
            },
            Instruction::Draw { x, y, n } => if n > 0 && self.i + n > MEMORY_SIZE {
                Err(FaultKind::OutOfBounds)
            } else {
                Ok(self.drawn(x, y, n))
            },
            Instruction::SkipKeyDown { x } => Ok(self.skip_if(self.key_down(self.v[x as int]))),
            Instruction::SkipKeyUp { x } => Ok(self.skip_if(!self.key_down(self.v[x as int]))),
            Instruction::ReadDelay { x } => Ok(self.with_v(x as int, self.delay)),
            Instruction::WaitKey { x } => Ok(self.awaiting(x)),
            Instruction::SetDelay { x } => Ok(self.with_delay(self.v[x as int])),
            Instruction::SetSound { x } => Ok(self.with_sound(self.v[x as int])),
            Instruction::AddIndex { x } => Ok(self.index_added(x)),
            Instruction::FontGlyph { x } => Ok(
                self.with_index((FONT_START + GLYPH_SIZE * (self.v[x as int] % 16)) as u16),
            ),
            Instruction::StoreBcd { x } => if self.i + 2 >= MEMORY_SIZE {
                Err(FaultKind::OutOfBounds)
            } else {
                Ok(self.with_memory(self.bcd_stored(self.v[x as int])))
            },
            Instruction::StoreRegisters { x } => if self.i + x >= MEMORY_SIZE {
                Err(FaultKind::OutOfBounds)
            } else {
                Ok(self.with_memory(self.registers_stored(x)))
            },
            Instruction::LoadRegisters { x } => if self.i + x >= MEMORY_SIZE {
                Err(FaultKind::OutOfBounds)
            } else {
                Ok(self.with_registers(self.registers_loaded(x)))
            },
        }
    }

    /// What executing an instruction word does: the word is decoded and the
    /// instruction applied; a word that decodes to nothing is a fault.
    pub open spec fn execute(self, word: u16) -> Result<State, FaultKind> {
        match decode_spec(word) {
            Some(ins) => self.apply(ins),
            None => Err(FaultKind::UnknownInstruction),
        }
    }

    /// What one step does: nothing while the machine waits for a key; else a
    /// fetch and the execution of the word fetched. A fault names the address
    /// of the instruction and, where it was fetched, its word.
    pub open spec fn step(self) -> Result<State, Fault> {
        if self.waiting is Some {
            Ok(self)
        } else if !self.can_fetch() {
            Err(Fault { kind: FaultKind::OutOfBounds, pc: self.pc, instruction: None })
        } else {
            match self.fetched().execute(self.word_at_pc()) {
                Ok(next) => Ok(next),
                Err(kind) => Err(
                    Fault { kind, pc: self.pc, instruction: Some(self.word_at_pc()) },
                ),
            }
        }
    }

    /// The state after one tick of the timers: each goes down by one and
    /// stays at zero once there.
    pub open spec fn ticked(self) -> State {
        State {
            delay: if self.delay > 0 {
                (self.delay - 1) as u8
            } else {
                0
            },
            sound: if self.sound > 0 {
                (self.sound - 1) as u8
            } else {
                0
            },
            ..self
        }
    }

    /// The state with a program in memory, from the program start on.
    pub open spec fn loaded(self, rom: Seq<u8>) -> State {
        State {
            memory: Seq::new(
                MEMORY_SIZE as nat,
                |a: int|
                    if PROGRAM_START <= a < PROGRAM_START + rom.len() {
                        rom[a - PROGRAM_START]
                    } else {
                        self.memory[a]
                    },
            ),
            ..self
        }
    }

    /// The state after the host has said that key `key` is held down
    /// (`pressed`) or is not. A key that goes down while a register waits for
    /// one is stored there, and the machine goes on. A value that is no key
    /// changes nothing.
    pub open spec fn with_key(self, key: u8, pressed: bool) -> State {
        if key >= 16 {
            self
        } else {
            let held = State { keys: self.keys.update(key as int, pressed), ..self };
            match self.waiting {
                Some(x) if pressed && !self.keys[key as int] => State {
                    waiting: None,
                    ..held
                }.with_v(x as int, key),
                _ => held,
            }
        }
    }
}

} // verus!
