use vstd::prelude::*;

verus! {

/// Why the machine cannot go on. Every fault is fatal: it tells of a malformed
/// program or of a loader that was misused, never of a passing condition.
#[derive(Clone, Copy, Debug, PartialEq, Eq, Structural)]
pub enum FaultKind {
    /// An address that an instruction or a fetch reads or writes lies outside
    /// memory.
    OutOfBounds,
    /// A return found the call stack empty.
    StackUnderflow,
    /// A call found the call stack at its configured limit.
    StackOverflow,
    /// The instruction word matches no instruction.
    UnknownInstruction,
    /// The program does not fit between the program start and the end of
    /// memory.
    RomTooLarge,
}

/// A fault of one step, with what is needed to find it in the program.
#[derive(Clone, Copy, Debug, PartialEq, Eq)]
pub struct Fault {
    pub kind: FaultKind,
    /// The address of the instruction that faulted.
    pub pc: u16,
    /// The instruction word, where the fetch itself did not fault.
    pub instruction: Option<u16>,
}

} // verus!
