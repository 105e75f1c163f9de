use vstd::prelude::*;

verus! {

/// Number of slots in the register file.
pub const REGISTER_COUNT: usize = 11;

/// The slots of the register file: eight general-purpose registers, the
/// program counter, the condition register and a reserved count slot.
#[derive(Debug, Clone, Copy, PartialEq, Eq, Structural)]
pub enum Register {
    R0,
    R1,
    R2,
    R3,
    R4,
    R5,
    R6,
    R7,
    PC,
    Cond,
    Count,
}

impl Register {
    /// The slot of the register file that this register names.
    pub open spec fn spec_index(self) -> nat {
        match self {
            Register::R0 => 0,
            Register::R1 => 1,
            Register::R2 => 2,
            Register::R3 => 3,
            Register::R4 => 4,
            Register::R5 => 5,
            Register::R6 => 6,
            Register::R7 => 7,
            Register::PC => 8,
            Register::Cond => 9,
            Register::Count => 10,
        }
    }

    /// The slot of the register file that this register names.
    pub fn index(self) -> (r: usize)
        ensures
            r == self.spec_index(),
            r < REGISTER_COUNT,
    {
        match self {
            Register::R0 => 0,
            Register::R1 => 1,
            Register::R2 => 2,
            Register::R3 => 3,
            Register::R4 => 4,
            Register::R5 => 5,
            Register::R6 => 6,
            Register::R7 => 7,
            Register::PC => 8,
            Register::Cond => 9,
            Register::Count => 10,
        }
    }

    /// The register whose slot is `value`; `None` past the last slot.
    pub fn from_u16(value: u16) -> (r: Option<Register>)
        ensures
            r matches Some(reg) ==> reg.spec_index() == value,
            r is None <==> value >= REGISTER_COUNT,
    {
        match value {
            0 => Some(Register::R0),
            1 => Some(Register::R1),
            2 => Some(Register::R2),
            3 => Some(Register::R3),
            4 => Some(Register::R4),
            5 => Some(Register::R5),
            6 => Some(Register::R6),
            7 => Some(Register::R7),
            8 => Some(Register::PC),
            9 => Some(Register::Cond),
            10 => Some(Register::Count),
            _ => None,
        }
    }
}

} // verus!
