use vstd::prelude::*;

verus! {

/// One of the sixteen registers `V0` to `VF`.
#[derive(Clone, Copy, Debug, PartialEq, Eq)]
pub enum Register {
    V0,
    V1,
    V2,
    V3,
    V4,
    V5,
    V6,
    V7,
    V8,
    V9,
    VA,
    VB,
    VC,
    VD,
    VE,
    VF,
}

impl Register {
    /// The number of the register, 0 for `V0` to 15 for `VF`.
    pub open spec fn number(self) -> u8 {
        match self {
            Register::V0 => 0,
            Register::V1 => 1,
            Register::V2 => 2,
            Register::V3 => 3,
            Register::V4 => 4,
            Register::V5 => 5,
            Register::V6 => 6,
            Register::V7 => 7,
            Register::V8 => 8,
            Register::V9 => 9,
            Register::VA => 10,
            Register::VB => 11,
            Register::VC => 12,
            Register::VD => 13,
            Register::VE => 14,
            Register::VF => 15,
        }
    }

    /// The number of the register, 0 for `V0` to 15 for `VF`.
    pub fn index(self) -> (i: usize)
        ensures
            i == self.number(),
            i < 16,
    {
        match self {
            Register::V0 => 0,
            Register::V1 => 1,
            Register::V2 => 2,
            Register::V3 => 3,
            Register::V4 => 4,
            Register::V5 => 5,
            Register::V6 => 6,
            Register::V7 => 7,
            Register::V8 => 8,
            Register::V9 => 9,
            Register::VA => 10,
            Register::VB => 11,
            Register::VC => 12,
            Register::VD => 13,
            Register::VE => 14,
            Register::VF => 15,
        }
    }

    /// The register that a nibble of an instruction word names, or `None` for
    /// a value that is no nibble.
    pub fn from_nibble(nibble: u8) -> (register: Option<Register>)
        ensures
            match register {
                Some(r) => r.number() == nibble,
                None => nibble >= 16,
            },
    {
        match nibble {
            0 => Some(Register::V0),
            1 => Some(Register::V1),
            2 => Some(Register::V2),
            3 => Some(Register::V3),
            4 => Some(Register::V4),
            5 => Some(Register::V5),
            6 => Some(Register::V6),
            7 => Some(Register::V7),
            8 => Some(Register::V8),
            9 => Some(Register::V9),
            10 => Some(Register::VA),
            11 => Some(Register::VB),
            12 => Some(Register::VC),
            13 => Some(Register::VD),
            14 => Some(Register::VE),
            15 => Some(Register::VF),
            _ => None,
        }
    }
}

} // verus!
