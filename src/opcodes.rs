use vstd::prelude::*;

verus! {

/// The sixteen operations, one per value of an instruction's top four bits.
/// `Rti` and `Res` are not implemented by the machine: executing either stops it.
#[derive(Debug, Clone, Copy, PartialEq, Eq, Structural)]
pub enum OpCode {
    Br,
    Add,
    Ld,
    St,
    Jsr,
    And,
    Ldr,
    Str,
    Rti,
    Not,
    Ldi,
    Sti,
    Jmp,
    Res,
    Lea,
    Trap,
}

impl OpCode {
    /// The four-bit encoding of this operation.
    pub open spec fn spec_code(self) -> u16 {
        match self {
            OpCode::Br => 0,
            OpCode::Add => 1,
            OpCode::Ld => 2,
            OpCode::St => 3,
            OpCode::Jsr => 4,
            OpCode::And => 5,
            OpCode::Ldr => 6,
            OpCode::Str => 7,
            OpCode::Rti => 8,
            OpCode::Not => 9,
            OpCode::Ldi => 10,
            OpCode::Sti => 11,
            OpCode::Jmp => 12,
            OpCode::Res => 13,
            OpCode::Lea => 14,
            OpCode::Trap => 15,
        }
    }

    /// The operation encoded by `value`, or `None` when `value` is not a
    /// four-bit code.
    pub fn from_u16(value: u16) -> (r: Option<OpCode>)
        ensures
            r matches Some(op) ==> op.spec_code() == value,
            r is None <==> value >= 16,
    {
        match value {
            0 => Some(OpCode::Br),
            1 => Some(OpCode::Add),
            2 => Some(OpCode::Ld),
            3 => Some(OpCode::St),
            4 => Some(OpCode::Jsr),
            5 => Some(OpCode::And),
            6 => Some(OpCode::Ldr),
            7 => Some(OpCode::Str),
            8 => Some(OpCode::Rti),
            9 => Some(OpCode::Not),
            10 => Some(OpCode::Ldi),
            11 => Some(OpCode::Sti),
            12 => Some(OpCode::Jmp),
            13 => Some(OpCode::Res),
            14 => Some(OpCode::Lea),
            15 => Some(OpCode::Trap),
            _ => None,
        }
    }

    /// The four-bit encoding of this operation.
    pub fn to_u16(&self) -> (r: u16)
        ensures
            r == self.spec_code(),
            r < 16,
    {
        match *self {
            OpCode::Br => 0,
            OpCode::Add => 1,
            OpCode::Ld => 2,
            OpCode::St => 3,
            OpCode::Jsr => 4,
            OpCode::And => 5,
            OpCode::Ldr => 6,
            OpCode::Str => 7,
            OpCode::Rti => 8,
            OpCode::Not => 9,
            OpCode::Ldi => 10,
            OpCode::Sti => 11,
            OpCode::Jmp => 12,
            OpCode::Res => 13,
            OpCode::Lea => 14,
            OpCode::Trap => 15,
        }
    }
}

} // verus!
