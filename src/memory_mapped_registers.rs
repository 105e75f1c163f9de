use vstd::prelude::*;

verus! {

/// Address of the keyboard status register.
pub const KBSR: u16 = 0xFE00;

/// Address of the keyboard data register.
pub const KBDDR: u16 = 0xFE02;

/// The two addresses reserved for keyboard emulation.
#[derive(Debug, Clone, Copy, PartialEq, Eq, Structural)]
pub enum MemoryMappedRegister {
    /// Keyboard status: bit 15 is set when a character is ready.
    Kbsr,
    /// Keyboard data: the character that is ready.
    Kbddr,
}

impl MemoryMappedRegister {
    /// The address at which this register is mapped.
    pub open spec fn spec_address(self) -> u16 {
        match self {
            MemoryMappedRegister::Kbsr => KBSR,
            MemoryMappedRegister::Kbddr => KBDDR,
        }
    }

    /// The address at which this register is mapped.
    pub fn address(self) -> (r: u16)
        ensures
            r == self.spec_address(),
    {
        match self {
            MemoryMappedRegister::Kbsr => KBSR,
            MemoryMappedRegister::Kbddr => KBDDR,
        }
    }

    /// The register mapped at `value`; `None` for an ordinary address.
    pub fn from_u16(value: u16) -> (r: Option<MemoryMappedRegister>)
        ensures
            r matches Some(m) ==> m.spec_address() == value,
            r is None <==> (value != KBSR && value != KBDDR),
    {
        match value {
            KBSR => Some(MemoryMappedRegister::Kbsr),
            KBDDR => Some(MemoryMappedRegister::Kbddr),
            _ => None,
        }
    }
}

} // verus!
