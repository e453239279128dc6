use riscv64::InvalidWidth;
use riscv64::RegisterWidth;
use riscv64::Riscv64Opnd;
use riscv64::Riscv64Reg;
use riscv64::{
    a0_reg, a1_reg, a2_reg, a3_reg, a4_reg, a5_reg, a6_reg, a7_reg, ra_reg, s2_reg, s3_reg,
    s4_reg, t0_reg, t1_reg, t2_reg, t3_reg, t4_reg, t5_reg, t6_reg,
};
use riscv64::{
    x0_reg, x1_reg, x2_reg, x3_reg, x4_reg, x5_reg, x6_reg, x7_reg, x8_reg, x9_reg, x10_reg,
    x11_reg, x12_reg, x13_reg, x14_reg, x15_reg, x16_reg, x17_reg, x18_reg, x19_reg, x20_reg,
    x21_reg, x22_reg, x23_reg, x24_reg, x25_reg, x26_reg, x27_reg, x28_reg, x29_reg, x30_reg,
    x31_reg,
};

fn all_numbered_registers() -> Vec<Riscv64Reg> {
    vec![
        x0_reg(),
        x1_reg(),
        x2_reg(),
        x3_reg(),
        x4_reg(),
        x5_reg(),
        x6_reg(),
        x7_reg(),
        x8_reg(),
        x9_reg(),
        x10_reg(),
        x11_reg(),
        x12_reg(),
        x13_reg(),
        x14_reg(),
        x15_reg(),
        x16_reg(),
        x17_reg(),
        x18_reg(),
        x19_reg(),
        x20_reg(),
        x21_reg(),
        x22_reg(),
        x23_reg(),
        x24_reg(),
        x25_reg(),
        x26_reg(),
        x27_reg(),
        x28_reg(),
        x29_reg(),
        x30_reg(),
        x31_reg(),
    ]
}

#[test]
fn validate_accepts_the_four_widths() {
    for w in [8u8, 16, 32, 64] {
        let tag = RegisterWidth::validate(w).unwrap();
        assert_eq!(tag.bits(), w);
    }
}

#[test]
fn validate_round_trips_on_valid_widths() {
    for w in [8u8, 16, 32, 64] {
        let tag = RegisterWidth::validate(w).unwrap();
        assert_eq!(RegisterWidth::validate(tag.bits()), Ok(tag));
    }
}

#[test]
fn validate_rejects_every_other_width() {
    for n in [0u8, 1, 2, 7, 9, 15, 17, 31, 33, 48, 63, 65, 100, 127, 128, 200, 255] {
        assert_eq!(RegisterWidth::validate(n), Err(InvalidWidth));
    }
}

#[test]
fn width_tags_carry_their_bit_counts() {
    assert_eq!(RegisterWidth::W8.bits(), 8);
    assert_eq!(RegisterWidth::W16.bits(), 16);
    assert_eq!(RegisterWidth::W32.bits(), 32);
    assert_eq!(RegisterWidth::W64.bits(), 64);
}

#[test]
fn with_num_bits_keeps_the_index() {
    let r = Riscv64Reg { num_bits: 64, reg_no: 23 };
    for w in [8u8, 16, 32, 64] {
        let s = r.with_num_bits(w);
        assert_eq!(s.reg_no, 23);
        assert_eq!(s.num_bits, w);
    }
}

#[test]
fn with_num_bits_does_not_mutate_the_receiver() {
    let r = Riscv64Reg { num_bits: 64, reg_no: 9 };
    let _s = r.with_num_bits(8);
    assert_eq!(r, Riscv64Reg { num_bits: 64, reg_no: 9 });
}

#[test]
fn with_width_round_trips() {
    let r = Riscv64Reg { num_bits: 16, reg_no: 3 };
    for w in [8u8, 16, 32, 64] {
        let retagged = r.with_width(w).unwrap();
        assert_eq!(retagged.with_width(r.num_bits).unwrap(), r);
    }
}

#[test]
fn retagging_a0_to_32_bits_gives_a_32_bit_view_of_index_10() {
    let r = a0_reg().with_width(32).unwrap();
    assert_eq!(r.num_bits, 32);
    assert_eq!(r.reg_no, 10);
    let s = a0_reg().with_num_bits(32);
    assert_eq!(s, r);
}

#[test]
fn retagging_a0_to_7_bits_fails() {
    assert_eq!(a0_reg().with_width(7), Err(InvalidWidth));
}

#[test]
fn differing_widths_of_one_register_are_distinct_values() {
    let wide = x10_reg();
    let narrow = wide.with_num_bits(32);
    assert_ne!(wide, narrow);
    assert_eq!(wide.reg_no, narrow.reg_no);
}

#[test]
fn ra_alias_is_canonical_x1() {
    assert_eq!(ra_reg(), x1_reg());
    assert_eq!(ra_reg().reg_no, 1);
    assert_eq!(ra_reg().num_bits, 64);
}

#[test]
fn aliases_match_their_numbered_registers() {
    assert_eq!(ra_reg(), x1_reg());
    assert_eq!(t0_reg(), x5_reg());
    assert_eq!(t1_reg(), x6_reg());
    assert_eq!(t2_reg(), x7_reg());
    assert_eq!(a0_reg(), x10_reg());
    assert_eq!(a1_reg(), x11_reg());
    assert_eq!(a2_reg(), x12_reg());
    assert_eq!(a3_reg(), x13_reg());
    assert_eq!(a4_reg(), x14_reg());
    assert_eq!(a5_reg(), x15_reg());
    assert_eq!(a6_reg(), x16_reg());
    assert_eq!(a7_reg(), x17_reg());
    assert_eq!(s2_reg(), x18_reg());
    assert_eq!(s3_reg(), x19_reg());
    assert_eq!(s4_reg(), x20_reg());
    assert_eq!(t3_reg(), x28_reg());
    assert_eq!(t4_reg(), x29_reg());
    assert_eq!(t5_reg(), x30_reg());
    assert_eq!(t6_reg(), x31_reg());
}

#[test]
fn argument_aliases_cover_indices_10_through_17() {
    let args = vec![
        a0_reg(),
        a1_reg(),
        a2_reg(),
        a3_reg(),
        a4_reg(),
        a5_reg(),
        a6_reg(),
        a7_reg(),
    ];
    for (i, r) in args.iter().enumerate() {
        assert_eq!(r.reg_no as usize, 10 + i);
        assert_eq!(r.num_bits, 64);
    }
}

#[test]
fn canonical_registers_cover_exactly_the_index_space() {
    let regs = all_numbered_registers();
    assert_eq!(regs.len(), 32);
    for (i, r) in regs.iter().enumerate() {
        assert_eq!(r.reg_no as usize, i);
        assert_eq!(r.num_bits, 64);
    }
}

#[test]
fn canonical_registers_are_pairwise_distinct() {
    let regs = all_numbered_registers();
    for i in 0..regs.len() {
        for j in 0..regs.len() {
            if i != j {
                assert_ne!(regs[i], regs[j]);
            }
        }
    }
}

#[test]
fn no_opnd_differs_from_every_register_operand() {
    for r in all_numbered_registers() {
        let op = Riscv64Opnd::Reg(r);
        assert!(matches!(op, Riscv64Opnd::Reg(_)));
        assert!(!matches!(op, Riscv64Opnd::NoOpnd));
    }
    let sentinel = Riscv64Opnd::NoOpnd;
    assert!(matches!(sentinel, Riscv64Opnd::NoOpnd));
    assert!(!matches!(sentinel, Riscv64Opnd::Reg(_)));
}

#[test]
fn register_operands_carry_their_register() {
    let op = Riscv64Opnd::Reg(t0_reg());
    match op {
        Riscv64Opnd::Reg(r) => assert_eq!(r, x5_reg()),
        Riscv64Opnd::NoOpnd => unreachable!(),
    }
}
