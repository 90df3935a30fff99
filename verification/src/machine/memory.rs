use vstd::prelude::*;
use crate::fault::FaultKind;
use crate::machine::Chip8;
use crate::model::{MEMORY_SIZE, PROGRAM_START, ROM_CAPACITY};

verus! {

impl Chip8 {
    /// Fetches the instruction word at the program counter and moves the
    /// counter past it. Where the word does not lie in memory the fetch
    /// faults and nothing changes.
    pub fn fetch(&mut self) -> (r: Result<u16, FaultKind>)
        ensures
            final(self)@.wf(),
            match r {
                Ok(word) => {
                    &&& old(self)@.can_fetch()
                    &&& word == old(self)@.word_at_pc()
                    &&& final(self)@ == old(self)@.fetched()
                    &&& final(self)@.pc == old(self)@.pc + 2
                },
                Err(kind) => {
                    &&& !old(self)@.can_fetch()
                    &&& kind == FaultKind::OutOfBounds
                    &&& final(self)@ == old(self)@
                },
            },
    {
        proof {
            self.lemma_view_wf();
        }
        if self.pc as usize + 1 >= MEMORY_SIZE {
            return Err(FaultKind::OutOfBounds);
        }
        let byte1 = self.mem[self.pc as usize];
        let byte2 = self.mem[self.pc as usize + 1];
        self.pc += 2;
        assert(((byte1 as u16) << 8 | (byte2 as u16)) == byte1 * 256 + byte2) by (bit_vector);
        proof {
            self.lemma_view_wf();
        }
        Ok((byte1 as u16) << 8 | (byte2 as u16))
    }

    /// Copies a program into memory at the program start. A program that does
    /// not fit is refused and nothing changes.
    pub fn load_rom(&mut self, rom_data: &[u8]) -> (r: Result<(), FaultKind>)
        ensures
            final(self)@.wf(),
            match r {
                Ok(()) => rom_data@.len() <= ROM_CAPACITY && final(self)@ == old(self)@.loaded(
                    rom_data@,
                ),
                Err(kind) => {
                    &&& rom_data@.len() > ROM_CAPACITY
                    &&& kind == FaultKind::RomTooLarge
                    &&& final(self)@ == old(self)@
                },
            },
    {
        proof {
            self.lemma_view_wf();
        }
        if rom_data.len() > ROM_CAPACITY {
            return Err(FaultKind::RomTooLarge);
        }
        let mut k: usize = 0;
        while k < rom_data.len()
            invariant
                k <= rom_data.len() <= ROM_CAPACITY,
                *self == (Chip8 { mem: self.mem, ..*old(self) }),
                forall|a: int|
                    0 <= a < MEMORY_SIZE ==> self.mem[a] == if PROGRAM_START <= a < PROGRAM_START
                        + k {
                        rom_data[a - PROGRAM_START]
                    } else {
                        old(self).mem[a]
                    },
            decreases rom_data.len() - k,
        {
            self.mem[PROGRAM_START as usize + k] = rom_data[k];
            k += 1;
        }
        proof {
            self.lemma_view_wf();
            assert(self@.memory =~= old(self)@.loaded(rom_data@).memory);
        }
        Ok(())
    }
}

} // verus!
