use gameboy::alu::{
    accumulate, add_sp, add_u16, add_u8, bit, ccf, cpl, daa, dec_u8, inc_u8, prefixed, res, rl,
    rlc, rr, rrc, scf, sla, sra, srl, sub_u8, swap, AccumulatorOp, PrefixedOp,
};
use gameboy::flags::{FlagChange, FlagRegister};

fn change(z: bool, n: bool, h: bool, c: bool) -> FlagChange {
    FlagChange { z: Some(z), n: Some(n), h: Some(h), c: Some(c) }
}

fn clear() -> FlagRegister {
    FlagRegister { z: false, n: false, h: false, c: false }
}

fn applied(change: FlagChange) -> FlagRegister {
    let mut flags = clear();
    flags.apply(change);
    flags
}

#[test]
fn add_sets_all_three_carries() {
    assert_eq!(add_u8(0x3A, 0xC6, false), (0x00, change(true, false, true, true)));
    assert_eq!(add_u8(0x0F, 0x01, false), (0x10, change(false, false, true, false)));
    assert_eq!(add_u8(0xF0, 0x20, false), (0x10, change(false, false, false, true)));
    assert_eq!(add_u8(0x01, 0x02, false), (0x03, change(false, false, false, false)));
    assert_eq!(add_u8(0xFF, 0x00, true), (0x00, change(true, false, true, true)));
    assert_eq!(add_u8(0x0E, 0x01, true), (0x10, change(false, false, true, false)));
}

#[test]
fn sub_and_compare_borrow() {
    assert_eq!(sub_u8(0x01, 0x02, false), (0xFF, change(false, true, true, true)));
    assert_eq!(sub_u8(0x10, 0x01, false), (0x0F, change(false, true, true, false)));
    assert_eq!(sub_u8(0x42, 0x42, false), (0x00, change(true, true, false, false)));
    assert_eq!(sub_u8(0x00, 0x00, true), (0xFF, change(false, true, true, true)));
    assert_eq!(sub_u8(0x10, 0x0F, true), (0x00, change(true, true, true, false)));
    assert_eq!(
        accumulate(AccumulatorOp::Compare, 0x01, 0x02, false),
        (0x01, change(false, true, true, true))
    );
}

#[test]
fn logic_operations() {
    assert_eq!(accumulate(AccumulatorOp::And, 0xF0, 0x0F, true), (0x00, change(true, false, true, false)));
    assert_eq!(accumulate(AccumulatorOp::And, 0xF3, 0x35, false), (0x31, change(false, false, true, false)));
    assert_eq!(accumulate(AccumulatorOp::Or, 0xF0, 0x0F, true), (0xFF, change(false, false, false, false)));
    assert_eq!(accumulate(AccumulatorOp::Or, 0x00, 0x00, true), (0x00, change(true, false, false, false)));
    assert_eq!(accumulate(AccumulatorOp::Xor, 0xAA, 0xAA, true), (0x00, change(true, false, false, false)));
    assert_eq!(accumulate(AccumulatorOp::Xor, 0xAA, 0x55, false), (0xFF, change(false, false, false, false)));
    assert_eq!(accumulate(AccumulatorOp::Adc, 0x01, 0x01, true).0, 0x03);
    assert_eq!(accumulate(AccumulatorOp::Add, 0x01, 0x01, true).0, 0x02);
    assert_eq!(accumulate(AccumulatorOp::Sbc, 0x05, 0x01, true).0, 0x03);
    assert_eq!(accumulate(AccumulatorOp::Sub, 0x05, 0x01, true).0, 0x04);
}

#[test]
fn add_then_sub_gives_the_accumulator_back() {
    for a in 0..=255u8 {
        for value in 0..=255u8 {
            let (sum, added) = add_u8(a, value, false);
            let (back, subtracted) = sub_u8(sum, value, false);
            assert_eq!(back, a);
            let overflowed = (a as u16) + (value as u16) > 0xFF;
            assert_eq!(added.c, Some(overflowed));
            assert_eq!(subtracted.c, Some(overflowed));
        }
    }
}

#[test]
fn inc_and_dec_leave_carry_alone() {
    assert_eq!(inc_u8(0x0F), (0x10, FlagChange { z: Some(false), n: Some(false), h: Some(true), c: None }));
    assert_eq!(inc_u8(0xFF), (0x00, FlagChange { z: Some(true), n: Some(false), h: Some(true), c: None }));
    assert_eq!(inc_u8(0x41), (0x42, FlagChange { z: Some(false), n: Some(false), h: Some(false), c: None }));
    assert_eq!(dec_u8(0x10), (0x0F, FlagChange { z: Some(false), n: Some(true), h: Some(true), c: None }));
    assert_eq!(dec_u8(0x01), (0x00, FlagChange { z: Some(true), n: Some(true), h: Some(false), c: None }));
    assert_eq!(dec_u8(0x00), (0xFF, FlagChange { z: Some(false), n: Some(true), h: Some(true), c: None }));
}

#[test]
fn sixteen_bit_addition() {
    assert_eq!(
        add_u16(0x0FFF, 0x0001),
        (0x1000, FlagChange { z: None, n: Some(false), h: Some(true), c: Some(false) })
    );
    assert_eq!(
        add_u16(0xFFFF, 0x0001),
        (0x0000, FlagChange { z: None, n: Some(false), h: Some(true), c: Some(true) })
    );
    assert_eq!(
        add_u16(0x8000, 0x8000),
        (0x0000, FlagChange { z: None, n: Some(false), h: Some(false), c: Some(true) })
    );
    assert_eq!(
        add_u16(0x1234, 0x1111),
        (0x2345, FlagChange { z: None, n: Some(false), h: Some(false), c: Some(false) })
    );
}

#[test]
fn stack_pointer_offset() {
    assert_eq!(add_sp(0xFFF8, 0x08), (0x0000, change(false, false, true, true)));
    assert_eq!(add_sp(0x0000, 0xFF), (0xFFFF, change(false, false, false, false)));
    assert_eq!(add_sp(0x0001, 0xFF), (0x0000, change(false, false, true, true)));
    assert_eq!(add_sp(0x000F, 0x01), (0x0010, change(false, false, true, false)));
    assert_eq!(add_sp(0x00F0, 0x10), (0x0100, change(false, false, false, true)));
    assert_eq!(add_sp(0x1000, 0x80), (0x0F80, change(false, false, false, false)));
}

#[test]
fn stack_pointer_offset_matches_byte_addition_everywhere() {
    for sp in (0..=0xFFFFu32).step_by(7) {
        for offset in 0..=255u32 {
            let (result, flags) = add_sp(sp as u16, offset as u8);
            let signed = if offset < 128 { offset as i32 } else { offset as i32 - 256 };
            assert_eq!(result as i32, (sp as i32 + signed).rem_euclid(0x1_0000));
            assert_eq!(flags.h, Some((sp & 0xF) + (offset & 0xF) > 0xF));
            assert_eq!(flags.c, Some((sp & 0xFF) + offset > 0xFF));
            assert_eq!(flags.z, Some(false));
            assert_eq!(flags.n, Some(false));
        }
    }
}

fn to_bcd(n: u32) -> u8 {
    (((n / 10) % 10) * 16 + n % 10) as u8
}

#[test]
fn daa_after_add_gives_the_decimal_sum() {
    for x in 0..100u32 {
        for y in 0..100u32 {
            let (sum, added) = add_u8(to_bcd(x), to_bcd(y), false);
            let (adjusted, after) = daa(sum, &applied(added));
            assert_eq!(adjusted, to_bcd((x + y) % 100), "{} + {}", x, y);
            assert_eq!(after.c, Some(x + y >= 100));
            assert_eq!(after.z, Some((x + y) % 100 == 0));
            assert_eq!(after.h, Some(false));
            assert_eq!(after.n, None);
        }
    }
}

#[test]
fn daa_after_sub_gives_the_decimal_difference() {
    for x in 0..100u32 {
        for y in 0..100u32 {
            let (difference, subtracted) = sub_u8(to_bcd(x), to_bcd(y), false);
            let (adjusted, after) = daa(difference, &applied(subtracted));
            assert_eq!(adjusted, to_bcd((100 + x - y) % 100), "{} - {}", x, y);
            assert_eq!(after.c, Some(x < y));
        }
    }
}

#[test]
fn daa_single_values() {
    let after_add = FlagRegister { z: false, n: false, h: false, c: false };
    assert_eq!(daa(0x7D, &after_add).0, 0x83);
    assert_eq!(daa(0x9A, &after_add), (0x00, FlagChange { z: Some(true), n: None, h: Some(false), c: Some(true) }));
    let after_sub_with_half_borrow = FlagRegister { z: false, n: true, h: true, c: false };
    assert_eq!(daa(0x4B, &after_sub_with_half_borrow).0, 0x45);
}

#[test]
fn complement_and_carry_flag_instructions() {
    assert_eq!(cpl(0x35), (0xCA, FlagChange { z: None, n: Some(true), h: Some(true), c: None }));
    assert_eq!(cpl(0x00).0, 0xFF);
    assert_eq!(scf(), FlagChange { z: None, n: Some(false), h: Some(false), c: Some(true) });
    assert_eq!(ccf(true), FlagChange { z: None, n: Some(false), h: Some(false), c: Some(false) });
    assert_eq!(ccf(false), FlagChange { z: None, n: Some(false), h: Some(false), c: Some(true) });
}

#[test]
fn rotations_and_shifts() {
    assert_eq!(rlc(0x85), (Some(0x0B), change(false, false, false, true)));
    assert_eq!(rlc(0x00), (Some(0x00), change(true, false, false, false)));
    assert_eq!(rrc(0x01), (Some(0x80), change(false, false, false, true)));
    assert_eq!(rrc(0x02), (Some(0x01), change(false, false, false, false)));
    assert_eq!(rl(0x80, false), (Some(0x00), change(true, false, false, true)));
    assert_eq!(rl(0x11, true), (Some(0x23), change(false, false, false, false)));
    assert_eq!(rr(0x01, false), (Some(0x00), change(true, false, false, true)));
    assert_eq!(rr(0x8A, true), (Some(0xC5), change(false, false, false, false)));
    assert_eq!(sla(0x80), (Some(0x00), change(true, false, false, true)));
    assert_eq!(sla(0xFF), (Some(0xFE), change(false, false, false, true)));
    assert_eq!(sra(0x8A), (Some(0xC5), change(false, false, false, false)));
    assert_eq!(sra(0x01), (Some(0x00), change(true, false, false, true)));
    assert_eq!(srl(0x01), (Some(0x00), change(true, false, false, true)));
    assert_eq!(srl(0xFF), (Some(0x7F), change(false, false, false, true)));
    assert_eq!(swap(0xAB), (Some(0xBA), change(false, false, false, false)));
    assert_eq!(swap(0x00), (Some(0x00), change(true, false, false, false)));
}

#[test]
fn bit_operations_on_every_byte_and_bit() {
    for value in 0..=255u8 {
        for n in 0..8u8 {
            let is_set = value & (1 << n) != 0;
            assert_eq!(
                bit(n, value),
                (None, FlagChange { z: Some(!is_set), n: Some(false), h: Some(true), c: None })
            );
            let (with_bit, untouched) = gameboy::alu::set(n, value);
            assert_eq!(with_bit, Some(value | (1 << n)));
            assert_eq!(untouched, FlagChange { z: None, n: None, h: None, c: None });
            let (without_bit, _) = res(n, with_bit.unwrap());
            assert_eq!(without_bit, Some(value & !(1 << n)));
            if !is_set {
                assert_eq!(without_bit, Some(value));
            }
        }
        let once = swap(value).0.unwrap();
        assert_eq!(swap(once).0, Some(value));
    }
}

#[test]
fn prefixed_dispatch_agrees_with_the_single_operations() {
    for value in [0x00u8, 0x01, 0x80, 0x5A, 0xFF] {
        for carry in [false, true] {
            assert_eq!(prefixed(PrefixedOp::Rlc, value, carry), rlc(value));
            assert_eq!(prefixed(PrefixedOp::Rrc, value, carry), rrc(value));
            assert_eq!(prefixed(PrefixedOp::Rl, value, carry), rl(value, carry));
            assert_eq!(prefixed(PrefixedOp::Rr, value, carry), rr(value, carry));
            assert_eq!(prefixed(PrefixedOp::Sla, value, carry), sla(value));
            assert_eq!(prefixed(PrefixedOp::Sra, value, carry), sra(value));
            assert_eq!(prefixed(PrefixedOp::Swap, value, carry), swap(value));
            assert_eq!(prefixed(PrefixedOp::Srl, value, carry), srl(value));
            assert_eq!(prefixed(PrefixedOp::TestBit(3), value, carry), bit(3, value));
            assert_eq!(prefixed(PrefixedOp::ResetBit(3), value, carry), res(3, value));
            assert_eq!(prefixed(PrefixedOp::SetBit(3), value, carry), gameboy::alu::set(3, value));
        }
    }
}

#[test]
fn flag_byte_round_trip() {
    for value in 0..=255u8 {
        assert_eq!(FlagRegister::from_byte(value).to_byte(), value & 0xF0);
    }
    assert_eq!(FlagRegister::new().to_byte(), 0x00);
    assert_eq!(FlagRegister::new_without_boot_rom().to_byte(), 0xB0);
    let flags = FlagRegister::from_byte(0x90);
    assert!(flags.get_z() && !flags.get_n() && !flags.get_h() && flags.get_c());
}

#[test]
fn flag_change_leaves_unnamed_flags_alone() {
    let mut flags = FlagRegister { z: true, n: false, h: true, c: false };
    flags.apply(FlagChange { z: None, n: Some(true), h: None, c: Some(true) });
    assert_eq!(flags, FlagRegister { z: true, n: true, h: true, c: true });
    flags.apply(FlagChange::none());
    assert_eq!(flags, FlagRegister { z: true, n: true, h: true, c: true });
    flags.set_z(false);
    flags.set_n(false);
    flags.set_h(false);
    flags.set_c(false);
    assert_eq!(flags, FlagRegister { z: false, n: false, h: false, c: false });
}
