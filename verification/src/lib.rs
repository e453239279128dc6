//! Register and operand data model for a RISC-V 64-bit code generator.
//!
//! The model gives an instruction encoder a typed way to name a physical
//! general-purpose register at a specific access width, a closed set of
//! operand kinds, and the calling-convention register table.

pub mod opnd;
pub mod reg;
pub mod table;
pub mod width;

pub use opnd::Riscv64Opnd;
pub use reg::Riscv64Reg;
pub use width::InvalidWidth;
pub use width::RegisterWidth;
pub use width::is_valid_width;
pub use table::canonical;
pub use table::{
    x0_reg, x1_reg, x2_reg, x3_reg, x4_reg, x5_reg, x6_reg, x7_reg, x8_reg, x9_reg, x10_reg,
    x11_reg, x12_reg, x13_reg, x14_reg, x15_reg, x16_reg, x17_reg, x18_reg, x19_reg, x20_reg,
    x21_reg, x22_reg, x23_reg, x24_reg, x25_reg, x26_reg, x27_reg, x28_reg, x29_reg, x30_reg,
    x31_reg,
};
pub use table::{
    a0_reg, a1_reg, a2_reg, a3_reg, a4_reg, a5_reg, a6_reg, a7_reg, ra_reg, s2_reg, s3_reg,
    s4_reg, t0_reg, t1_reg, t2_reg, t3_reg, t4_reg, t5_reg, t6_reg,
};
