use vstd::prelude::*;
use crate::alu::{add_with_carry, shift_left, shift_right, sub_with_borrow};
use crate::fault::{Fault, FaultKind};
use crate::instruction::{decode, Instruction};
use crate::machine::Chip8;
use crate::model::{FONT_START, GLYPH_SIZE};
use crate::state::State;

verus! {

impl Chip8 {
    /// Applies a decoded instruction. A fault leaves the machine as it was.
    fn apply(&mut self, ins: Instruction) -> (r: Result<(), FaultKind>)
        requires
            ins.wf(),
        ensures
            final(self)@.wf(),
            match r {
                Ok(()) => old(self)@.apply(ins) == Ok::<State, FaultKind>(final(self)@),
                Err(kind) => {
                    &&& old(self)@.apply(ins) == Err::<State, FaultKind>(kind)
                    &&& final(self)@ == old(self)@
                },
            },
    {
        match ins {
            Instruction::ClearScreen => {
                self.clear_screen();
                Ok(())
            },
            Instruction::Return => {
                let addr = self.pop_stack()?;
                self.jump_to(addr);
                Ok(())
            },
            Instruction::Jump { addr } => {
                self.jump_to(addr);
                Ok(())
            },
            Instruction::Call { addr } => {
                self.push_stack(self.pc())?;
                self.jump_to(addr);
                Ok(())
            },
            Instruction::SkipEqImm { x, kk } => {
                self.skip_if(self.v(x) == kk);
                Ok(())
            },
            Instruction::SkipNeImm { x, kk } => {
                self.skip_if(self.v(x) != kk);
                Ok(())
            },
            Instruction::SkipEqReg { x, y } => {
                self.skip_if(self.v(x) == self.v(y));
                Ok(())
            },
            Instruction::LoadImm { x, kk } => {
                self.set_register(x, kk);
                Ok(())
            },
            Instruction::AddImm { x, kk } => {
                let (sum, _) = add_with_carry(self.v(x), kk);
                self.set_register(x, sum);
                Ok(())
            },
            Instruction::Move { x, y } => {
                self.set_register(x, self.v(y));
                Ok(())
            },
            Instruction::Or { x, y } => {
                self.set_register(x, self.v(x) | self.v(y));
                Ok(())
            },
            Instruction::And { x, y } => {
                self.set_register(x, self.v(x) & self.v(y));
                Ok(())
            },
            Instruction::Xor { x, y } => {
                self.set_register(x, self.v(x) ^ self.v(y));
                Ok(())
            },
            Instruction::Add { x, y } => {
                let (sum, carry) = add_with_carry(
                    self.v(x),
                    self.v(y),
                );
                self.set_result(x, sum, carry);
                Ok(())
            },
            Instruction::Sub { x, y } => {
                let (difference, no_borrow) = sub_with_borrow(
                    self.v(x),
                    self.v(y),
                );
                self.set_result(x, difference, no_borrow != self.config().borrow_sets_flag);
                Ok(())
            },
            Instruction::ShiftRight { x, y } => {
                let (half, lost) = shift_right(self.shift_source(x, y));
                self.set_result(x, half, lost);
                Ok(())
            },
            Instruction::SubFrom { x, y } => {
                let (difference, no_borrow) = sub_with_borrow(
                    self.v(y),
                    self.v(x),
                );
                self.set_result(x, difference, no_borrow != self.config().borrow_sets_flag);
                Ok(())
            },
            Instruction::ShiftLeft { x, y } => {
                let (double, lost) = shift_left(self.shift_source(x, y));
                self.set_result(x, double, lost);
                Ok(())
            },
            Instruction::SkipNeReg { x, y } => {
                self.skip_if(self.v(x) != self.v(y));
                Ok(())
            },
            Instruction::LoadIndex { addr } => {
                self.set_index(addr);
                Ok(())
            },
            Instruction::JumpOffset { addr } => {
                self.jump_to(addr + self.jump_offset(addr) as u16);
                Ok(())
            },
            Instruction::Random { x, kk } => {
                let byte = self.next_random();
                self.set_register(x, byte & kk);
                Ok(())
            },
            Instruction::Draw { x, y, n } => self.draw(x, y, n),
            Instruction::SkipKeyDown { x } => {
                self.skip_if(self.is_key_down(self.v(x)));
                Ok(())
            },
            Instruction::SkipKeyUp { x } => {
                self.skip_if(!self.is_key_down(self.v(x)));
                Ok(())
            },
            Instruction::ReadDelay { x } => {
                self.set_register(x, self.delay_timer());
                Ok(())
            },
            Instruction::WaitKey { x } => {
                self.await_key(x);
                Ok(())
            },
            Instruction::SetDelay { x } => {
                self.set_delay(self.v(x));
                Ok(())
            },
            Instruction::SetSound { x } => {
                self.set_sound(self.v(x));
                Ok(())
            },
            Instruction::AddIndex { x } => {
                self.add_index(x);
                Ok(())
            },
            Instruction::FontGlyph { x } => {
                self.set_index(FONT_START + GLYPH_SIZE * (self.v(x) % 16) as u16);
                Ok(())
            },
            Instruction::StoreBcd { x } => self.store_bcd(x),
            Instruction::StoreRegisters { x } => self.store_registers(x),
            Instruction::LoadRegisters { x } => self.load_registers(x),
        }
    }

    /// Executes an instruction word: decodes it and applies the instruction.
    /// A word that is no instruction, a return from no call, a call past the
    /// stack's limit and an address outside memory are faults; a fault leaves
    /// the machine as it was. The word is executed whether or not the machine
    /// waits for a key: it is `step` that holds a waiting machine still.
    pub fn execute(&mut self, instruction: u16) -> (r: Result<(), FaultKind>)
        ensures
            final(self)@.wf(),
            match r {
                Ok(()) => old(self)@.execute(instruction) == Ok::<State, FaultKind>(final(self)@),
                Err(kind) => {
                    &&& old(self)@.execute(instruction) == Err::<State, FaultKind>(kind)
                    &&& final(self)@ == old(self)@
                },
            },
    {
        proof {
            self.lemma_view_wf();
        }
        match decode(instruction) {
            Some(ins) => self.apply(ins),
            None => Err(FaultKind::UnknownInstruction),
        }
    }

    /// One cycle of the machine: fetches the instruction at the program
    /// counter and executes it. While the machine waits for a key a step does
    /// nothing. A fault leaves the machine as it was, its program counter at
    /// the instruction that faulted.
    pub fn step(&mut self) -> (r: Result<(), Fault>)
        ensures
            final(self)@.wf(),
            match r {
                Ok(()) => old(self)@.step() == Ok::<State, Fault>(final(self)@),
                Err(fault) => {
                    &&& old(self)@.step() == Err::<State, Fault>(fault)
                    &&& final(self)@ == old(self)@
                },
            },
    {
        proof {
            self.lemma_view_wf();
        }
        if self.is_awaiting_key() {
            return Ok(());
        }
        let at = self.pc();
        let word = match self.fetch() {
            Ok(word) => word,
            Err(kind) => {
                return Err(Fault { kind, pc: at, instruction: None });
            },
        };
        match self.execute(word) {
            Ok(()) => Ok(()),
            Err(kind) => {
                self.jump_to(at);
                Err(Fault { kind, pc: at, instruction: Some(word) })
            },
        }
    }
}

} // verus!
