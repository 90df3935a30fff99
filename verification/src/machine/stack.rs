use vstd::prelude::*;
use crate::fault::FaultKind;
use crate::machine::Chip8;

verus! {

impl Chip8 {
    /// Pushes a return address. Where the call stack is at its configured
    /// limit the push faults and nothing changes.
    pub fn push_stack(&mut self, addr: u16) -> (r: Result<(), FaultKind>)
        ensures
            final(self)@.wf(),
            match r {
                Ok(()) => old(self)@.stack_has_room() && final(self)@ == old(self)@.pushed(addr),
                Err(kind) => {
                    &&& !old(self)@.stack_has_room()
                    &&& kind == FaultKind::StackOverflow
                    &&& final(self)@ == old(self)@
                },
            },
    {
        proof {
            self.lemma_view_wf();
        }
        if let Some(limit) = self.config.stack_limit {
            if self.stack.len() >= limit {
                return Err(FaultKind::StackOverflow);
            }
        }
        self.stack.push(addr);
        proof {
            self.lemma_view_wf();
        }
        Ok(())
    }

    /// Pops the latest return address. Where the call stack is empty the pop
    /// faults and nothing changes.
    pub fn pop_stack(&mut self) -> (r: Result<u16, FaultKind>)
        ensures
            final(self)@.wf(),
            match r {
                Ok(addr) => {
                    &&& old(self)@.stack.len() > 0
                    &&& addr == old(self)@.stack.last()
                    &&& final(self)@ == old(self)@.popped()
                },
                Err(kind) => {
                    &&& old(self)@.stack.len() == 0
                    &&& kind == FaultKind::StackUnderflow
                    &&& final(self)@ == old(self)@
                },
            },
    {
        proof {
            self.lemma_view_wf();
        }
        match self.stack.pop() {
            Some(addr) => {
                proof {
                    self.lemma_view_wf();
                }
                Ok(addr)
            },
            None => Err(FaultKind::StackUnderflow),
        }
    }
}

} // verus!
