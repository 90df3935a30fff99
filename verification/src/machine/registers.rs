use vstd::prelude::*;
use crate::machine::Chip8;
use crate::model::{rng_byte, rng_next, rng_output, rng_step, MEMORY_SIZE};
use crate::register::Register;

verus! {

impl Chip8 {
    /// Register `Vx`.
    pub(crate) fn v(&self, x: u8) -> (value: u8)
        requires
            x < 16,
        ensures
            value == self@.v[x as int],
    {
        self.registers[x as usize]
    }

    /// Sets register `Vx`.
    pub(crate) fn set_register(&mut self, x: u8, value: u8)
        requires
            x < 16,
        ensures
            final(self)@ == old(self)@.with_v(x as int, value),
            final(self)@.wf(),
    {
        self.registers[x as usize] = value;
        proof {
            self.lemma_view_wf();
        }
    }

    /// Sets register `Vx` to a result and then `VF` to its flag.
    pub(crate) fn set_result(&mut self, x: u8, value: u8, raised: bool)
        requires
            x < 16,
        ensures
            final(self)@ == old(self)@.with_result(x, value, raised),
            final(self)@.wf(),
    {
        self.set_register(x, value);
        self.set_register(0xF, if raised { 1 } else { 0 });
    }

    /// Skips the next instruction where `skip` holds.
    pub(crate) fn skip_if(&mut self, skip: bool)
        ensures
            final(self)@ == old(self)@.skip_if(skip),
            final(self)@.wf(),
    {
        if skip {
            self.pc = self.pc.wrapping_add(2);
        }
        proof {
            self.lemma_view_wf();
        }
    }

    /// Moves the program counter to `addr`.
    pub(crate) fn jump_to(&mut self, addr: u16)
        ensures
            final(self)@ == old(self)@.with_pc(addr),
            final(self)@.wf(),
    {
        self.pc = addr;
        proof {
            self.lemma_view_wf();
        }
    }

    /// Moves the index register to `addr`.
    pub(crate) fn set_index(&mut self, addr: u16)
        ensures
            final(self)@ == old(self)@.with_index(addr),
            final(self)@.wf(),
    {
        self.reg_i = addr;
        proof {
            self.lemma_view_wf();
        }
    }

    /// Sets the delay timer.
    pub(crate) fn set_delay(&mut self, value: u8)
        ensures
            final(self)@ == old(self)@.with_delay(value),
            final(self)@.wf(),
    {
        self.delay_timer = value;
        proof {
            self.lemma_view_wf();
        }
    }

    /// Sets the sound timer.
    pub(crate) fn set_sound(&mut self, value: u8)
        ensures
            final(self)@ == old(self)@.with_sound(value),
            final(self)@.wf(),
    {
        self.sound_timer = value;
        proof {
            self.lemma_view_wf();
        }
    }

    /// `Fx0A`: suspends the machine until a key is pressed.
    pub(crate) fn await_key(&mut self, x: u8)
        requires
            x < 16,
        ensures
            final(self)@ == old(self)@.awaiting(x),
            final(self)@.wf(),
    {
        self.waiting = Register::from_nibble(x);
        proof {
            self.lemma_view_wf();
        }
    }

    /// The register that `Bnnn` adds to `nnn`.
    pub(crate) fn jump_offset(&self, addr: u16) -> (offset: u8)
        requires
            addr < 4096,
        ensures
            offset == self@.jump_offset(addr),
    {
        if self.config.jump_uses_vx {
            self.registers[(addr / 256) as usize]
        } else {
            self.registers[0]
        }
    }

    /// The register that a shift reads.
    pub(crate) fn shift_source(&self, x: u8, y: u8) -> (source: u8)
        requires
            x < 16,
            y < 16,
        ensures
            source == self@.shift_source(x, y),
    {
        if self.config.shift_uses_vy {
            self.registers[y as usize]
        } else {
            self.registers[x as usize]
        }
    }

    /// `Fx1E`: adds `Vx` to `I`.
    pub(crate) fn add_index(&mut self, x: u8)
        requires
            x < 16,
        ensures
            final(self)@ == old(self)@.index_added(x),
            final(self)@.wf(),
    {
        let sum: u32 = self.reg_i as u32 + self.registers[x as usize] as u32;
        self.set_index((sum % 0x1_0000) as u16);
        if self.config.index_overflow_flag {
            self.set_register(0xF, if sum >= MEMORY_SIZE as u32 { 1 } else { 0 });
        }
    }

    /// Draws the next byte from the random number generator.
    pub(crate) fn next_random(&mut self) -> (byte: u8)
        ensures
            final(self)@ == old(self)@.seeded(rng_next(old(self)@.rng)),
            byte == rng_byte(rng_next(old(self)@.rng)),
            final(self)@.wf(),
    {
        self.rng = rng_step(self.rng);
        proof {
            self.lemma_view_wf();
        }
        rng_output(self.rng)
    }
}

} // verus!
