use vstd::prelude::*;
use crate::reg::Riscv64Reg;

verus! {

/// The canonical register for encoding index `i`: the numbered
/// general-purpose register at the default 64-bit width.
pub open spec fn canonical(i: int) -> Riscv64Reg {
    Riscv64Reg { num_bits: 64, reg_no: i as u8 }
}

// The 32 canonical general-purpose registers, one per encoding index,
// each at the default 64-bit width. These accessors are the intended
// way to obtain a register value, so every register an encoder sees
// carries an index in range by construction.

pub fn x0_reg() -> (r: Riscv64Reg)
    ensures
        r == canonical(0),
{
    Riscv64Reg { num_bits: 64, reg_no: 0 }
}

pub fn x1_reg() -> (r: Riscv64Reg)
    ensures
        r == canonical(1),
{
    Riscv64Reg { num_bits: 64, reg_no: 1 }
}

pub fn x2_reg() -> (r: Riscv64Reg)
    ensures
        r == canonical(2),
{
    Riscv64Reg { num_bits: 64, reg_no: 2 }
}

pub fn x3_reg() -> (r: Riscv64Reg)
    ensures
        r == canonical(3),
{
    Riscv64Reg { num_bits: 64, reg_no: 3 }
}

pub fn x4_reg() -> (r: Riscv64Reg)
    ensures
        r == canonical(4),
{
    Riscv64Reg { num_bits: 64, reg_no: 4 }
}

pub fn x5_reg() -> (r: Riscv64Reg)
    ensures
        r == canonical(5),
{
    Riscv64Reg { num_bits: 64, reg_no: 5 }
}

pub fn x6_reg() -> (r: Riscv64Reg)
    ensures
        r == canonical(6),
{
    Riscv64Reg { num_bits: 64, reg_no: 6 }
}

pub fn x7_reg() -> (r: Riscv64Reg)
    ensures
        r == canonical(7),
{
    Riscv64Reg { num_bits: 64, reg_no: 7 }
}

pub fn x8_reg() -> (r: Riscv64Reg)
    ensures
        r == canonical(8),
{
    Riscv64Reg { num_bits: 64, reg_no: 8 }
}

pub fn x9_reg() -> (r: Riscv64Reg)
    ensures
        r == canonical(9),
{
    Riscv64Reg { num_bits: 64, reg_no: 9 }
}

pub fn x10_reg() -> (r: Riscv64Reg)
    ensures
        r == canonical(10),
{
    Riscv64Reg { num_bits: 64, reg_no: 10 }
}

pub fn x11_reg() -> (r: Riscv64Reg)
    ensures
        r == canonical(11),
{
    Riscv64Reg { num_bits: 64, reg_no: 11 }
}

pub fn x12_reg() -> (r: Riscv64Reg)
    ensures
        r == canonical(12),
{
    Riscv64Reg { num_bits: 64, reg_no: 12 }
}

pub fn x13_reg() -> (r: Riscv64Reg)
    ensures
        r == canonical(13),
{
    Riscv64Reg { num_bits: 64, reg_no: 13 }
}

pub fn x14_reg() -> (r: Riscv64Reg)
    ensures
        r == canonical(14),
{
    Riscv64Reg { num_bits: 64, reg_no: 14 }
}

pub fn x15_reg() -> (r: Riscv64Reg)
    ensures
        r == canonical(15),
{
    Riscv64Reg { num_bits: 64, reg_no: 15 }
}

pub fn x16_reg() -> (r: Riscv64Reg)
    ensures
        r == canonical(16),
{
    Riscv64Reg { num_bits: 64, reg_no: 16 }
}

pub fn x17_reg() -> (r: Riscv64Reg)
    ensures
        r == canonical(17),
{
    Riscv64Reg { num_bits: 64, reg_no: 17 }
}

pub fn x18_reg() -> (r: Riscv64Reg)
    ensures
        r == canonical(18),
{
    Riscv64Reg { num_bits: 64, reg_no: 18 }
}

pub fn x19_reg() -> (r: Riscv64Reg)
    ensures
        r == canonical(19),
{
    Riscv64Reg { num_bits: 64, reg_no: 19 }
}

pub fn x20_reg() -> (r: Riscv64Reg)
    ensures
        r == canonical(20),
{
    Riscv64Reg { num_bits: 64, reg_no: 20 }
}

pub fn x21_reg() -> (r: Riscv64Reg)
    ensures
        r == canonical(21),
{
    Riscv64Reg { num_bits: 64, reg_no: 21 }
}

pub fn x22_reg() -> (r: Riscv64Reg)
    ensures
        r == canonical(22),
{
    Riscv64Reg { num_bits: 64, reg_no: 22 }
}

pub fn x23_reg() -> (r: Riscv64Reg)
    ensures
        r == canonical(23),
{
    Riscv64Reg { num_bits: 64, reg_no: 23 }
}

pub fn x24_reg() -> (r: Riscv64Reg)
    ensures
        r == canonical(24),
{
    Riscv64Reg { num_bits: 64, reg_no: 24 }
}

pub fn x25_reg() -> (r: Riscv64Reg)
    ensures
        r == canonical(25),
{
    Riscv64Reg { num_bits: 64, reg_no: 25 }
}

pub fn x26_reg() -> (r: Riscv64Reg)
    ensures
        r == canonical(26),
{
    Riscv64Reg { num_bits: 64, reg_no: 26 }
}

pub fn x27_reg() -> (r: Riscv64Reg)
    ensures
        r == canonical(27),
{
    Riscv64Reg { num_bits: 64, reg_no: 27 }
}

pub fn x28_reg() -> (r: Riscv64Reg)
    ensures
        r == canonical(28),
{
    Riscv64Reg { num_bits: 64, reg_no: 28 }
}

pub fn x29_reg() -> (r: Riscv64Reg)
    ensures
        r == canonical(29),
{
    Riscv64Reg { num_bits: 64, reg_no: 29 }
}

pub fn x30_reg() -> (r: Riscv64Reg)
    ensures
        r == canonical(30),
{
    Riscv64Reg { num_bits: 64, reg_no: 30 }
}

pub fn x31_reg() -> (r: Riscv64Reg)
    ensures
        r == canonical(31),
{
    Riscv64Reg { num_bits: 64, reg_no: 31 }
}

// Calling-convention aliases: the same register values under the
// mnemonic names the platform ABI gives their roles. An alias returns
// the canonical value itself, not a new register, so encoders
// comparing or hashing registers never special-case roles.

/// Return-address register, an alias of `x1`.
pub fn ra_reg() -> (r: Riscv64Reg)
    ensures
        r == canonical(1),
{
    x1_reg()
}

/// Temporary register, an alias of `x5`.
pub fn t0_reg() -> (r: Riscv64Reg)
    ensures
        r == canonical(5),
{
    x5_reg()
}

/// Temporary register, an alias of `x6`.
pub fn t1_reg() -> (r: Riscv64Reg)
    ensures
        r == canonical(6),
{
    x6_reg()
}

/// Temporary register, an alias of `x7`.
pub fn t2_reg() -> (r: Riscv64Reg)
    ensures
        r == canonical(7),
{
    x7_reg()
}

/// Argument register, an alias of `x10`.
pub fn a0_reg() -> (r: Riscv64Reg)
    ensures
        r == canonical(10),
{
    x10_reg()
}

/// Argument register, an alias of `x11`.
pub fn a1_reg() -> (r: Riscv64Reg)
    ensures
        r == canonical(11),
{
    x11_reg()
}

/// Argument register, an alias of `x12`.
pub fn a2_reg() -> (r: Riscv64Reg)
    ensures
        r == canonical(12),
{
    x12_reg()
}

/// Argument register, an alias of `x13`.
pub fn a3_reg() -> (r: Riscv64Reg)
    ensures
        r == canonical(13),
{
    x13_reg()
}

/// Argument register, an alias of `x14`.
pub fn a4_reg() -> (r: Riscv64Reg)
    ensures
        r == canonical(14),
{
    x14_reg()
}

/// Argument register, an alias of `x15`.
pub fn a5_reg() -> (r: Riscv64Reg)
    ensures
        r == canonical(15),
{
    x15_reg()
}

/// Argument register, an alias of `x16`.
pub fn a6_reg() -> (r: Riscv64Reg)
    ensures
        r == canonical(16),
{
    x16_reg()
}

/// Argument register, an alias of `x17`.
pub fn a7_reg() -> (r: Riscv64Reg)
    ensures
        r == canonical(17),
{
    x17_reg()
}

/// Callee-saved register, an alias of `x18`.
pub fn s2_reg() -> (r: Riscv64Reg)
    ensures
        r == canonical(18),
{
    x18_reg()
}

/// Callee-saved register, an alias of `x19`.
pub fn s3_reg() -> (r: Riscv64Reg)
    ensures
        r == canonical(19),
{
    x19_reg()
}

/// Callee-saved register, an alias of `x20`.
pub fn s4_reg() -> (r: Riscv64Reg)
    ensures
        r == canonical(20),
{
    x20_reg()
}

/// Temporary register, an alias of `x28`.
pub fn t3_reg() -> (r: Riscv64Reg)
    ensures
        r == canonical(28),
{
    x28_reg()
}

/// Temporary register, an alias of `x29`.
pub fn t4_reg() -> (r: Riscv64Reg)
    ensures
        r == canonical(29),
{
    x29_reg()
}

/// Temporary register, an alias of `x30`.
pub fn t5_reg() -> (r: Riscv64Reg)
    ensures
        r == canonical(30),
{
    x30_reg()
}

/// Temporary register, an alias of `x31`.
pub fn t6_reg() -> (r: Riscv64Reg)
    ensures
        r == canonical(31),
{
    x31_reg()
}

/// Law: the canonical table covers the index space exactly. For each
/// index 0 through 31, the canonical register carries that index and
/// the default 64-bit width, and is well formed.
pub proof fn lemma_canonical_covers_indices()
    ensures
        forall|i: int| 0 <= i < 32 ==> (#[trigger] canonical(i)).reg_no == i,
        forall|i: int| 0 <= i < 32 ==> (#[trigger] canonical(i)).num_bits == 64,
        forall|i: int| 0 <= i < 32 ==> (#[trigger] canonical(i)).wf(),
{
}

/// Law: no two canonical registers collide. Distinct indices in range
/// name registers with distinct encoding bit patterns, hence distinct
/// register values.
pub proof fn lemma_canonical_distinct(i: int, j: int)
    requires
        0 <= i < 32,
        0 <= j < 32,
        i != j,
    ensures
        canonical(i).reg_no != canonical(j).reg_no,
        canonical(i) != canonical(j),
{
    lemma_canonical_covers_indices();
}

} // verus!
