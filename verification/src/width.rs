use vstd::prelude::*;

verus! {

/// Error raised when a requested bit-width is not one of the four
/// widths a RISC-V general-purpose register can be accessed at.
#[derive(Clone, Copy, Debug, PartialEq, Eq, Structural)]
pub struct InvalidWidth;

/// Holds exactly when `n` is a bit-width at which an instruction may
/// read or write a general-purpose register: 8, 16, 32 or 64 bits.
pub open spec fn is_valid_width(n: u8) -> bool {
    n == 8 || n == 16 || n == 32 || n == 64
}

/// A validated register access width. No value outside the four
/// architectural widths is representable.
#[derive(Clone, Copy, Debug, PartialEq, Eq, Structural)]
pub enum RegisterWidth {
    W8,
    W16,
    W32,
    W64,
}

impl RegisterWidth {
    /// The number of bits this tag stands for.
    pub open spec fn spec_bits(self) -> u8 {
        match self {
            RegisterWidth::W8 => 8,
            RegisterWidth::W16 => 16,
            RegisterWidth::W32 => 32,
            RegisterWidth::W64 => 64,
        }
    }

    /// The number of bits this tag stands for; always a valid width.
    pub fn bits(self) -> (n: u8)
        ensures
            n == self.spec_bits(),
            is_valid_width(n),
    {
        match self {
            RegisterWidth::W8 => 8,
            RegisterWidth::W16 => 16,
            RegisterWidth::W32 => 32,
            RegisterWidth::W64 => 64,
        }
    }

    /// What `validate` returns on each input: the tag for the four
    /// architectural widths, `InvalidWidth` for everything else.
    pub open spec fn spec_validate(n: u8) -> Result<RegisterWidth, InvalidWidth> {
        if n == 8 {
            Ok(RegisterWidth::W8)
        } else if n == 16 {
            Ok(RegisterWidth::W16)
        } else if n == 32 {
            Ok(RegisterWidth::W32)
        } else if n == 64 {
            Ok(RegisterWidth::W64)
        } else {
            Err(InvalidWidth)
        }
    }

    /// Checks a requested bit-width: returns the corresponding tag for
    /// 8, 16, 32 and 64, and fails with `InvalidWidth` on every other
    /// input.
    pub fn validate(n: u8) -> (r: Result<RegisterWidth, InvalidWidth>)
        ensures
            r == Self::spec_validate(n),
            r is Ok <==> is_valid_width(n),
            r matches Ok(w) ==> w.spec_bits() == n,
            r matches Err(e) ==> e == InvalidWidth,
    {
        if n == 8 {
            Ok(RegisterWidth::W8)
        } else if n == 16 {
            Ok(RegisterWidth::W16)
        } else if n == 32 {
            Ok(RegisterWidth::W32)
        } else if n == 64 {
            Ok(RegisterWidth::W64)
        } else {
            Err(InvalidWidth)
        }
    }

    /// Law: validation round-trips. Re-validating the bit count of any
    /// width tag yields that same tag back.
    pub proof fn lemma_validate_round_trip(w: RegisterWidth)
        ensures
            Self::spec_validate(w.spec_bits()) == Ok::<RegisterWidth, InvalidWidth>(w),
    {
    }
}

} // verus!
