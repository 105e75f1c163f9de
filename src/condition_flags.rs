use vstd::prelude::*;

verus! {

/// The three mutually exclusive condition flags. Each is stored in the
/// condition register as a single bit: Positive as 1, Zero as 2, Negative as 4.
#[derive(Debug, Clone, Copy, PartialEq, Eq, Structural)]
pub enum ConditionFlag {
    Pos,
    Zro,
    Neg,
}

impl ConditionFlag {
    /// The bit pattern that stands for this flag in the condition register.
    pub open spec fn spec_bits(self) -> u16 {
        match self {
            ConditionFlag::Pos => 1,
            ConditionFlag::Zro => 2,
            ConditionFlag::Neg => 4,
        }
    }

    /// The bit pattern that stands for this flag in the condition register.
    #[verifier::when_used_as_spec(spec_bits)]
    pub fn bits(self) -> (r: u16)
        ensures
            r == self.spec_bits(),
    {
        match self {
            ConditionFlag::Pos => 1,
            ConditionFlag::Zro => 2,
            ConditionFlag::Neg => 4,
        }
    }

    /// Reads a condition-register value back as a flag; any value other than
    /// the three single-bit patterns is rejected.
    pub fn from_u16(value: u16) -> (r: Option<ConditionFlag>)
        ensures
            r matches Some(f) ==> f.spec_bits() == value,
            r is None <==> !is_flag_bits(value),
    {
        match value {
            1 => Some(ConditionFlag::Pos),
            2 => Some(ConditionFlag::Zro),
            4 => Some(ConditionFlag::Neg),
            _ => None,
        }
    }
}

/// Whether `v` is one of the three patterns the condition register may hold.
pub open spec fn is_flag_bits(v: u16) -> bool {
    v == 1 || v == 2 || v == 4
}

/// The flag that a result sets: Zero for 0, Negative when bit 15 is set,
/// Positive otherwise.
pub open spec fn flag_of(v: u16) -> ConditionFlag {
    if v == 0 {
        ConditionFlag::Zro
    } else if v >= 0x8000 {
        ConditionFlag::Neg
    } else {
        ConditionFlag::Pos
    }
}

/// Computes the flag that a result sets.
pub fn flag_for(v: u16) -> (r: ConditionFlag)
    ensures
        r == flag_of(v),
{
    if v == 0 {
        ConditionFlag::Zro
    } else if v >> 15u16 == 1 {
        assert(v >> 15u16 == 1 <==> v >= 0x8000) by (bit_vector);
        ConditionFlag::Neg
    } else {
        assert(v >> 15u16 == 1 <==> v >= 0x8000) by (bit_vector);
        ConditionFlag::Pos
    }
}

} // verus!
