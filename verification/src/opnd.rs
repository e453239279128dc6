use vstd::prelude::*;
use crate::reg::Riscv64Reg;

verus! {

/// Anything an instruction may reference. Exactly one variant is ever
/// active; the encoder branches on the kind exhaustively. The variants
/// for immediates and memory locations will join this set as the
/// encoder grows to need them.
#[derive(Clone, Copy, Debug)]
pub enum Riscv64Opnd {
    /// Sentinel meaning "no operand": a placeholder default, never
    /// handed to a real encoding path.
    NoOpnd,
    /// A general-purpose register accessed at a specific width.
    Reg(Riscv64Reg),
}

impl Riscv64Opnd {
    /// Law: the no-operand sentinel coincides with no register operand,
    /// whatever register the operand carries.
    pub proof fn lemma_no_opnd_is_no_register(r: Riscv64Reg)
        ensures
            Riscv64Opnd::NoOpnd != Riscv64Opnd::Reg(r),
    {
    }
}

} // verus!
