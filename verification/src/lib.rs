pub mod alu;
pub mod engine;
pub mod fault;
pub mod instruction;
pub mod laws;
pub mod machine;
pub mod model;
pub mod nibble;
pub mod register;
pub mod semantics;
pub mod state;

pub use crate::fault::{Fault, FaultKind};
pub use crate::instruction::{decode, Instruction};
pub use crate::machine::Chip8;
pub use crate::model::Config;
pub use crate::nibble::{conc_nibbles, split_nibbles};
pub use crate::register::Register;
