use vstd::prelude::*;

verus! {

/// The service routines that a TRAP instruction can select.
#[derive(Debug, Clone, Copy, PartialEq, Eq, Structural)]
pub enum TrapCode {
    /// Read one character, without echo, into R0.
    Getc,
    /// Write the low byte of R0.
    Out,
    /// Write the zero-terminated string of one character per word at R0.
    Puts,
    /// Prompt, then read one character into R0; the terminal echoes it.
    In,
    /// Write the zero-terminated string of two characters per word at R0.
    Putsp,
    /// Stop the machine.
    Halt,
}

impl TrapCode {
    /// The trap vector that selects this routine.
    pub open spec fn spec_vector(self) -> u16 {
        match self {
            TrapCode::Getc => 0x20,
            TrapCode::Out => 0x21,
            TrapCode::Puts => 0x22,
            TrapCode::In => 0x23,
            TrapCode::Putsp => 0x24,
            TrapCode::Halt => 0x25,
        }
    }

    /// The trap vector that selects this routine.
    pub fn vector(self) -> (r: u16)
        ensures
            r == self.spec_vector(),
    {
        match self {
            TrapCode::Getc => 0x20,
            TrapCode::Out => 0x21,
            TrapCode::Puts => 0x22,
            TrapCode::In => 0x23,
            TrapCode::Putsp => 0x24,
            TrapCode::Halt => 0x25,
        }
    }

    /// The routine that the trap vector `value` selects; `None` for a vector
    /// that selects none.
    pub fn from_u16(value: u16) -> (r: Option<TrapCode>)
        ensures
            r matches Some(t) ==> t.spec_vector() == value,
            r is None <==> (value < 0x20 || value > 0x25),
    {
        match value {
            0x20 => Some(TrapCode::Getc),
            0x21 => Some(TrapCode::Out),
            0x22 => Some(TrapCode::Puts),
            0x23 => Some(TrapCode::In),
            0x24 => Some(TrapCode::Putsp),
            0x25 => Some(TrapCode::Halt),
            _ => None,
        }
    }
}

} // verus!
