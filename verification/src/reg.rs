use vstd::prelude::*;
use crate::width::InvalidWidth;
use crate::width::is_valid_width;

verus! {

/// One architectural general-purpose register, identified by its
/// encoding index together with the width at which an instruction
/// accesses it. Two values are equal exactly when both the index and
/// the width match: a 32-bit view and a 64-bit view of the same
/// physical register are distinct values.
#[derive(Clone, Copy, Debug, PartialEq, Eq, Structural)]
pub struct Riscv64Reg {
    /// Size in bits of the access: 8, 16, 32 or 64.
    pub num_bits: u8,

    /// Register index number, the bit pattern the instruction encoder
    /// emits: 0 through 31.
    pub reg_no: u8,
}

impl Riscv64Reg {
    /// A register value is well formed when its width is one of the
    /// four architectural widths and its index names one of the 32
    /// general-purpose registers.
    pub open spec fn wf(self) -> bool {
        is_valid_width(self.num_bits) && self.reg_no <= 31
    }

    /// The same physical register retagged to width `num_bits`.
    pub open spec fn spec_with_num_bits(self, num_bits: u8) -> Riscv64Reg {
        Riscv64Reg { num_bits, reg_no: self.reg_no }
    }

    /// A copy of this register retagged to width `num_bits`, which must
    /// be one of the four architectural widths. The index is unchanged;
    /// the receiver is not mutated.
    pub fn with_num_bits(&self, num_bits: u8) -> (r: Self)
        requires
            is_valid_width(num_bits),
        ensures
            r == self.spec_with_num_bits(num_bits),
            r.num_bits == num_bits,
            r.reg_no == self.reg_no,
    {
        Self { num_bits, reg_no: self.reg_no }
    }

    /// A copy of this register retagged to width `num_bits`, or
    /// `InvalidWidth` when `num_bits` is not one of the four
    /// architectural widths.
    pub fn with_width(&self, num_bits: u8) -> (r: Result<Self, InvalidWidth>)
        ensures
            is_valid_width(num_bits) ==> r == Ok::<Riscv64Reg, InvalidWidth>(
                self.spec_with_num_bits(num_bits),
            ),
            !is_valid_width(num_bits) ==> r == Err::<Riscv64Reg, InvalidWidth>(InvalidWidth),
            r is Ok <==> is_valid_width(num_bits),
    {
        if num_bits == 8 || num_bits == 16 || num_bits == 32 || num_bits == 64 {
            Ok(self.with_num_bits(num_bits))
        } else {
            Err(InvalidWidth)
        }
    }

    /// Law: retagging preserves the index and installs the requested
    /// width, for every register and every width.
    pub proof fn lemma_with_num_bits_fields(r: Riscv64Reg, num_bits: u8)
        ensures
            r.spec_with_num_bits(num_bits).reg_no == r.reg_no,
            r.spec_with_num_bits(num_bits).num_bits == num_bits,
    {
    }

    /// Law: retagging round-trips. Changing a register's width and then
    /// changing it back to the original width yields the original
    /// register, for every register and every width.
    pub proof fn lemma_with_num_bits_round_trip(r: Riscv64Reg, num_bits: u8)
        ensures
            r.spec_with_num_bits(num_bits).spec_with_num_bits(r.num_bits) == r,
    {
    }

    /// Law: retagging preserves well-formedness whenever the requested
    /// width is valid.
    pub proof fn lemma_with_num_bits_wf(r: Riscv64Reg, num_bits: u8)
        requires
            r.wf(),
            is_valid_width(num_bits),
        ensures
            r.spec_with_num_bits(num_bits).wf(),
    {
    }
}

} // verus!
