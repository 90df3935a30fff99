use vstd::prelude::*;
use crate::alu::decimal_digits;
use crate::fault::FaultKind;
use crate::machine::Chip8;
use crate::model::MEMORY_SIZE;

verus! {

impl Chip8 {
    /// `Fx33`: stores the three decimal digits of `Vx` at `I`, `I + 1` and
    /// `I + 2`.
    pub(crate) fn store_bcd(&mut self, x: u8) -> (r: Result<(), FaultKind>)
        requires
            x < 16,
        ensures
            final(self)@.wf(),
            match r {
                Ok(()) => {
                    &&& old(self)@.i + 2 < MEMORY_SIZE
                    &&& final(self)@ == old(self)@.with_memory(
                        old(self)@.bcd_stored(old(self)@.v[x as int]),
                    )
                },
                Err(kind) => {
                    &&& old(self)@.i + 2 >= MEMORY_SIZE
                    &&& kind == FaultKind::OutOfBounds
                    &&& final(self)@ == old(self)@
                },
            },
    {
        proof {
            self.lemma_view_wf();
        }
        let base = self.reg_i as usize;
        if base + 2 >= MEMORY_SIZE {
            return Err(FaultKind::OutOfBounds);
        }
        let (hundreds, tens, ones) = decimal_digits(self.registers[x as usize]);
        self.mem[base] = hundreds;
        self.mem[base + 1] = tens;
        self.mem[base + 2] = ones;
        proof {
            self.lemma_view_wf();
        }
        Ok(())
    }

    /// `Fx55`: stores `V0` to `Vx` at `I` to `I + x`.
    pub(crate) fn store_registers(&mut self, x: u8) -> (r: Result<(), FaultKind>)
        requires
            x < 16,
        ensures
            final(self)@.wf(),
            match r {
                Ok(()) => {
                    &&& old(self)@.i + x < MEMORY_SIZE
                    &&& final(self)@ == old(self)@.with_memory(old(self)@.registers_stored(x))
                },
                Err(kind) => {
                    &&& old(self)@.i + x >= MEMORY_SIZE
                    &&& kind == FaultKind::OutOfBounds
                    &&& final(self)@ == old(self)@
                },
            },
    {
        proof {
            self.lemma_view_wf();
        }
        let base = self.reg_i as usize;
        if base + x as usize >= MEMORY_SIZE {
            return Err(FaultKind::OutOfBounds);
        }
        let mut r: usize = 0;
        while r <= x as usize
            invariant
                r <= x + 1,
                x < 16,
                base == old(self).reg_i,
                base + x < MEMORY_SIZE,
                *self == (Chip8 { mem: self.mem, ..*old(self) }),
                forall|a: int|
                    0 <= a < MEMORY_SIZE ==> self.mem[a] == if base <= a < base + r {
                        old(self).registers[a - base]
                    } else {
                        old(self).mem[a]
                    },
            decreases x + 1 - r,
        {
            self.mem[base + r] = self.registers[r];
            r += 1;
        }
        proof {
            self.lemma_view_wf();
            assert(self@.memory =~= old(self)@.registers_stored(x));
        }
        Ok(())
    }

    /// `Fx65`: loads `V0` to `Vx` from `I` to `I + x`.
    pub(crate) fn load_registers(&mut self, x: u8) -> (r: Result<(), FaultKind>)
        requires
            x < 16,
        ensures
            final(self)@.wf(),
            match r {
                Ok(()) => {
                    &&& old(self)@.i + x < MEMORY_SIZE
                    &&& final(self)@ == old(self)@.with_registers(
                        old(self)@.registers_loaded(x),
                    )
                },
                Err(kind) => {
                    &&& old(self)@.i + x >= MEMORY_SIZE
                    &&& kind == FaultKind::OutOfBounds
                    &&& final(self)@ == old(self)@
                },
            },
    {
        proof {
            self.lemma_view_wf();
        }
        let base = self.reg_i as usize;
        if base + x as usize >= MEMORY_SIZE {
            return Err(FaultKind::OutOfBounds);
        }
        let mut r: usize = 0;
        while r <= x as usize
            invariant
                r <= x + 1,
                x < 16,
                base == old(self).reg_i,
                base + x < MEMORY_SIZE,
                *self == (Chip8 { registers: self.registers, ..*old(self) }),
                forall|k: int|
                    0 <= k < 16 ==> self.registers[k] == if k < r {
                        old(self).mem[base + k]
                    } else {
                        old(self).registers[k]
                    },
            decreases x + 1 - r,
        {
            self.registers[r] = self.mem[base + r];
            r += 1;
        }
        proof {
            self.lemma_view_wf();
            assert(self@.v =~= old(self)@.registers_loaded(x));
        }
        Ok(())
    }
}

} // verus!
