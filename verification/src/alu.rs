//! The arithmetic and logic of the processor, as functions from operands to
//! a result and a change of flags.

use vstd::prelude::*;
use crate::flags::{FlagChange, FlagRegister};
use crate::utils::{
    get_bit, lemma_bits_as_arithmetic, lemma_set_bit_idempotent, lemma_swap_nibbles_involution,
    set_bit, spec_get_bit, spec_set_bit, spec_swap_nibbles, swap_nibbles,
};

verus! {

/// The eight operations between the accumulator and an operand.
#[derive(Debug, Clone, Copy, PartialEq, Eq, Structural)]
pub enum AccumulatorOp {
    Add,
    Adc,
    Sub,
    Sbc,
    And,
    Xor,
    Or,
    Compare,
}

/// The operations behind the prefix byte, each on one operand.
#[derive(Debug, Clone, Copy, PartialEq, Eq, Structural)]
pub enum PrefixedOp {
    Rlc,
    Rrc,
    Rl,
    Rr,
    Sla,
    Sra,
    Swap,
    Srl,
    TestBit(u8),
    ResetBit(u8),
    SetBit(u8),
}

pub open spec fn spec_flags(z: bool, n: bool, h: bool, c: bool) -> FlagChange {
    FlagChange { z: Some(z), n: Some(n), h: Some(h), c: Some(c) }
}

pub open spec fn spec_carry_value(carry: bool) -> int {
    if carry {
        1
    } else {
        0
    }
}

/// The sum of `a`, `value` and the carry, with Z from the result, H from the
/// carry out of bit 3 and C from the carry out of bit 7.
pub open spec fn spec_add_u8(a: u8, value: u8, carry: bool) -> (u8, FlagChange) {
    let sum = a + value + spec_carry_value(carry);
    (
        (sum % 256) as u8,
        spec_flags(
            sum % 256 == 0,
            false,
            a % 16 + value % 16 + spec_carry_value(carry) > 0xF,
            sum > 0xFF,
        ),
    )
}

/// The difference of `a` and `value` plus the carry, with H and C set where
/// the low nibble, or the whole byte, had to borrow.
pub open spec fn spec_sub_u8(a: u8, value: u8, carry: bool) -> (u8, FlagChange) {
    let difference = a - value - spec_carry_value(carry);
    (
        (difference % 256) as u8,
        spec_flags(
            difference % 256 == 0,
            true,
            a % 16 < value % 16 + spec_carry_value(carry),
            a < value + spec_carry_value(carry),
        ),
    )
}

pub open spec fn spec_and_u8(a: u8, value: u8) -> (u8, FlagChange) {
    (a & value, spec_flags(a & value == 0, false, true, false))
}

pub open spec fn spec_or_u8(a: u8, value: u8) -> (u8, FlagChange) {
    (a | value, spec_flags(a | value == 0, false, false, false))
}

pub open spec fn spec_xor_u8(a: u8, value: u8) -> (u8, FlagChange) {
    (a ^ value, spec_flags(a ^ value == 0, false, false, false))
}

/// The accumulator and the flag change after `op` on `a` and `value`. A
/// comparison is a subtraction that leaves the accumulator alone.
pub open spec fn spec_accumulate(op: AccumulatorOp, a: u8, value: u8, carry: bool) -> (
    u8,
    FlagChange,
) {
    match op {
        AccumulatorOp::Add => spec_add_u8(a, value, false),
        AccumulatorOp::Adc => spec_add_u8(a, value, carry),
        AccumulatorOp::Sub => spec_sub_u8(a, value, false),
        AccumulatorOp::Sbc => spec_sub_u8(a, value, carry),
        AccumulatorOp::And => spec_and_u8(a, value),
        AccumulatorOp::Xor => spec_xor_u8(a, value),
        AccumulatorOp::Or => spec_or_u8(a, value),
        AccumulatorOp::Compare => (a, spec_sub_u8(a, value, false).1),
    }
}

pub open spec fn spec_inc_u8(value: u8) -> (u8, FlagChange) {
    let result = (value + 1) % 256;
    (
        result as u8,
        FlagChange { z: Some(result == 0), n: Some(false), h: Some(result % 16 == 0), c: None },
    )
}

pub open spec fn spec_dec_u8(value: u8) -> (u8, FlagChange) {
    let result = (value - 1) % 256;
    (
        result as u8,
        FlagChange { z: Some(result == 0), n: Some(true), h: Some(result % 16 == 0xF), c: None },
    )
}

/// The sum of two register pairs: Z is left alone, H is the carry out of
/// bit 11 and C that out of bit 15.
pub open spec fn spec_add_u16(hl: u16, rhs: u16) -> (u16, FlagChange) {
    (
        ((hl + rhs) % 0x1_0000) as u16,
        FlagChange {
            z: None,
            n: Some(false),
            h: Some(hl % 0x1000 + rhs % 0x1000 > 0xFFF),
            c: Some(hl + rhs > 0xFFFF),
        },
    )
}

/// The byte `offset` read as a number from -128 to 127.
pub open spec fn spec_signed(offset: u8) -> int {
    if offset < 128 {
        offset as int
    } else {
        offset - 256
    }
}

/// The stack pointer moved by the signed `offset`. H and C are the carries
/// out of bit 3 and bit 7 of the sum of the stack pointer's low byte and the
/// offset taken as an unsigned byte.
pub open spec fn spec_add_sp(sp: u16, offset: u8) -> (u16, FlagChange) {
    (
        ((sp + spec_signed(offset)) % 0x1_0000) as u16,
        spec_flags(false, false, sp % 16 + offset % 16 > 0xF, sp % 256 + offset > 0xFF),
    )
}

/// The accumulator corrected to packed decimal after an addition or, where
/// N is set, a subtraction: six is added to, or taken from, each nibble that
/// ran over.
pub open spec fn spec_daa(a: u8, flags: FlagRegister) -> (u8, FlagChange) {
    let (result, carry) = if !flags.n {
        let high = flags.c || a > 0x99;
        let low = flags.h || a % 16 > 0x09;
        (a + (if high { 0x60int } else { 0 }) + (if low { 0x06int } else { 0 }), high)
    } else {
        (a - (if flags.c { 0x60int } else { 0 }) - (if flags.h { 0x06int } else { 0 }), flags.c)
    };
    (
        (result % 256) as u8,
        FlagChange { z: Some(result % 256 == 0), n: None, h: Some(false), c: Some(carry) },
    )
}

pub open spec fn spec_cpl(a: u8) -> (u8, FlagChange) {
    ((255 - a) as u8, FlagChange { z: None, n: Some(true), h: Some(true), c: None })
}

pub open spec fn spec_scf() -> FlagChange {
    FlagChange { z: None, n: Some(false), h: Some(false), c: Some(true) }
}

pub open spec fn spec_ccf(carry: bool) -> FlagChange {
    FlagChange { z: None, n: Some(false), h: Some(false), c: Some(!carry) }
}

pub open spec fn spec_shift_flags(result: int, carry: bool) -> FlagChange {
    spec_flags(result == 0, false, false, carry)
}

/// What `op` makes of `value`: the byte to store, if the operation stores
/// one, and the flag change. Rotations through the carry take `carry` in.
pub open spec fn spec_prefixed(op: PrefixedOp, value: u8, carry: bool) -> (Option<u8>, FlagChange) {
    let top = value >= 0x80;
    let bottom = value % 2 == 1;
    let left = (value % 128) * 2;
    let right = value / 2;
    match op {
        PrefixedOp::Rlc => {
            let result = left + spec_carry_value(top);
            (Some(result as u8), spec_shift_flags(result, top))
        },
        PrefixedOp::Rrc => {
            let result = right + 128 * spec_carry_value(bottom);
            (Some(result as u8), spec_shift_flags(result, bottom))
        },
        PrefixedOp::Rl => {
            let result = left + spec_carry_value(carry);
            (Some(result as u8), spec_shift_flags(result, top))
        },
        PrefixedOp::Rr => {
            let result = right + 128 * spec_carry_value(carry);
            (Some(result as u8), spec_shift_flags(result, bottom))
        },
        PrefixedOp::Sla => (Some(left as u8), spec_shift_flags(left, top)),
        PrefixedOp::Sra => {
            let result = right + 128 * spec_carry_value(top);
            (Some(result as u8), spec_shift_flags(result, bottom))
        },
        PrefixedOp::Swap => {
            let result = spec_swap_nibbles(value);
            (Some(result), spec_shift_flags(result as int, false))
        },
        PrefixedOp::Srl => (Some(right as u8), spec_shift_flags(right as int, bottom)),
        PrefixedOp::TestBit(n) => (
            None,
            FlagChange { z: Some(!spec_get_bit(value, n)), n: Some(false), h: Some(true), c: None },
        ),
        PrefixedOp::ResetBit(n) => (Some(spec_set_bit(value, n, false)), FlagChange::spec_none()),
        PrefixedOp::SetBit(n) => (Some(spec_set_bit(value, n, true)), FlagChange::spec_none()),
    }
}

impl PrefixedOp {
    /// A bit operation names one of the eight bits.
    pub open spec fn valid(self) -> bool {
        match self {
            PrefixedOp::TestBit(n) => n < 8,
            PrefixedOp::ResetBit(n) => n < 8,
            PrefixedOp::SetBit(n) => n < 8,
            _ => true,
        }
    }
}

fn flags(z: bool, n: bool, h: bool, c: bool) -> (r: FlagChange)
    ensures
        r == spec_flags(z, n, h, c),
{
    FlagChange { z: Some(z), n: Some(n), h: Some(h), c: Some(c) }
}

pub fn add_u8(a: u8, value: u8, carry: bool) -> (r: (u8, FlagChange))
    ensures
        r == spec_add_u8(a, value, carry),
{
    let carry_value: u8 = if carry {
        1
    } else {
        0
    };
    let half_carry = (a % 16) + (value % 16) + carry_value > 0xF;
    let result = (a as u16) + (value as u16) + (carry_value as u16);
    let truncated = (result % 256) as u8;
    (truncated, flags(truncated == 0, false, half_carry, result > 0xFF))
}

pub fn sub_u8(a: u8, value: u8, carry: bool) -> (r: (u8, FlagChange))
    ensures
        r == spec_sub_u8(a, value, carry),
{
    let carry_value: u8 = if carry {
        1
    } else {
        0
    };
    let new_carry = (a as u16) < (value as u16) + (carry_value as u16);
    let half_carry = (a % 16) < (value % 16) + carry_value;
    let result = a.wrapping_sub(value).wrapping_sub(carry_value);
    (result, flags(result == 0, true, half_carry, new_carry))
}

pub fn and_u8(a: u8, value: u8) -> (r: (u8, FlagChange))
    ensures
        r == spec_and_u8(a, value),
{
    let result = a & value;
    (result, flags(result == 0, false, true, false))
}

pub fn or_u8(a: u8, value: u8) -> (r: (u8, FlagChange))
    ensures
        r == spec_or_u8(a, value),
{
    let result = a | value;
    (result, flags(result == 0, false, false, false))
}

pub fn xor_u8(a: u8, value: u8) -> (r: (u8, FlagChange))
    ensures
        r == spec_xor_u8(a, value),
{
    let result = a ^ value;
    (result, flags(result == 0, false, false, false))
}

pub fn compare_u8(a: u8, value: u8) -> (r: FlagChange)
    ensures
        r == spec_sub_u8(a, value, false).1,
{
    let result = a.wrapping_sub(value);
    let nibble_a = a % 16;
    let nibble_value = value % 16;
    flags(result == 0, true, nibble_a < nibble_value, a < value)
}

pub fn accumulate(op: AccumulatorOp, a: u8, value: u8, carry: bool) -> (r: (u8, FlagChange))
    ensures
        r == spec_accumulate(op, a, value, carry),
{
    match op {
        AccumulatorOp::Add => add_u8(a, value, false),
        AccumulatorOp::Adc => add_u8(a, value, carry),
        AccumulatorOp::Sub => sub_u8(a, value, false),
        AccumulatorOp::Sbc => sub_u8(a, value, carry),
        AccumulatorOp::And => and_u8(a, value),
        AccumulatorOp::Xor => xor_u8(a, value),
        AccumulatorOp::Or => or_u8(a, value),
        AccumulatorOp::Compare => (a, compare_u8(a, value)),
    }
}

pub fn inc_u8(value: u8) -> (r: (u8, FlagChange))
    ensures
        r == spec_inc_u8(value),
{
    let result = value.wrapping_add(1);
    (
        result,
        FlagChange {
            z: Some(result == 0),
            n: Some(false),
            h: Some(result % 16 == 0x00),
            c: None,
        },
    )
}

pub fn dec_u8(value: u8) -> (r: (u8, FlagChange))
    ensures
        r == spec_dec_u8(value),
{
    let result = value.wrapping_sub(1);
    (
        result,
        FlagChange {
            z: Some(result == 0),
            n: Some(true),
            h: Some(result % 16 == 0x0F),
            c: None,
        },
    )
}

pub fn add_u16(hl: u16, rhs: u16) -> (r: (u16, FlagChange))
    ensures
        r == spec_add_u16(hl, rhs),
{
    let result = (hl as u32) + (rhs as u32);
    (
        (result % 0x1_0000) as u16,
        FlagChange {
            z: None,
            n: Some(false),
            h: Some((hl % 0x1000) + (rhs % 0x1000) > 0xFFF),
            c: Some(result > 0xFFFF),
        },
    )
}

proof fn lemma_xor_carries(sp: u16, offset: u8, extended: u16, result: u16)
    by (bit_vector)
    requires
        extended == (if offset < 128 {
            offset as u16
        } else {
            (0xFF00 + offset) as u16
        }),
        result == ((sp + extended) % 0x1_0000) as u16,
    ensures
        ((sp ^ extended ^ result) & 0x10 == 0x10) == (sp % 16 + offset % 16 > 0xF),
        ((sp ^ extended ^ result) & 0x100 == 0x100) == (sp % 256 + offset > 0xFF),
{
}

/// Adds the signed `offset` to the stack pointer. The two carries are read
/// off the exclusive-or of the operands and the result, as the hardware is
/// known to produce them.
pub fn add_sp(sp: u16, offset: u8) -> (r: (u16, FlagChange))
    ensures
        r == spec_add_sp(sp, offset),
{
    let extended: u16 = if offset < 128 {
        offset as u16
    } else {
        0xFF00 + offset as u16
    };
    let result = ((sp as u32 + extended as u32) % 0x1_0000) as u16;
    proof {
        lemma_xor_carries(sp, offset, extended, result);
    }
    let carries = sp ^ extended ^ result;
    (result, flags(false, false, (carries & 0x10) == 0x10, (carries & 0x100) == 0x100))
}

#[verifier::rlimit(30)]
pub fn daa(a: u8, current: &FlagRegister) -> (r: (u8, FlagChange))
    ensures
        r == spec_daa(a, *current),
{
    let mut a = a;
    let mut carry = false;
    if !current.get_n() {
        if current.get_c() || a > 0x99 {
            a = a.wrapping_add(0x60);
            carry = true;
        }
        if current.get_h() || a % 16 > 0x09 {
            a = a.wrapping_add(0x06);
        }
    } else if current.get_c() {
        carry = true;
        a = a.wrapping_add(
            if current.get_h() {
                0x9A
            } else {
                0xA0
            },
        );
    } else if current.get_h() {
        a = a.wrapping_add(0xFA);
    }
    (a, FlagChange { z: Some(a == 0), n: None, h: Some(false), c: Some(carry) })
}

pub fn cpl(a: u8) -> (r: (u8, FlagChange))
    ensures
        r == spec_cpl(a),
{
    proof {
        lemma_bits_as_arithmetic(a);
    }
    (!a, FlagChange { z: None, n: Some(true), h: Some(true), c: None })
}

pub fn scf() -> (r: FlagChange)
    ensures
        r == spec_scf(),
{
    FlagChange { z: None, n: Some(false), h: Some(false), c: Some(true) }
}

pub fn ccf(carry: bool) -> (r: FlagChange)
    ensures
        r == spec_ccf(carry),
{
    FlagChange { z: None, n: Some(false), h: Some(false), c: Some(!carry) }
}

pub fn srl(value: u8) -> (r: (Option<u8>, FlagChange))
    ensures
        r == spec_prefixed(PrefixedOp::Srl, value, false),
{
    proof {
        lemma_bits_as_arithmetic(value);
    }
    let carry = value & 0x1 != 0;
    let result = value >> 1;
    (Some(result), flags(result == 0, false, false, carry))
}

pub fn rr(value: u8, old_carry: bool) -> (r: (Option<u8>, FlagChange))
    ensures
        r == spec_prefixed(PrefixedOp::Rr, value, old_carry),
{
    proof {
        lemma_bits_as_arithmetic(value);
    }
    let new_carry = get_bit(value, 0);
    let result = if old_carry {
        (value >> 1) + 0x80
    } else {
        value >> 1
    };
    (Some(result), flags(result == 0, false, false, new_carry))
}

pub fn rl(value: u8, old_carry: bool) -> (r: (Option<u8>, FlagChange))
    ensures
        r == spec_prefixed(PrefixedOp::Rl, value, old_carry),
{
    proof {
        lemma_bits_as_arithmetic(value);
    }
    let new_carry = get_bit(value, 7);
    let result = if old_carry {
        (value << 1) + 1
    } else {
        value << 1
    };
    (Some(result), flags(result == 0, false, false, new_carry))
}

pub fn rlc(value: u8) -> (r: (Option<u8>, FlagChange))
    ensures
        r == spec_prefixed(PrefixedOp::Rlc, value, false),
{
    proof {
        lemma_bits_as_arithmetic(value);
    }
    let carry = get_bit(value, 7);
    let result = (value << 1) + if carry {
        1
    } else {
        0
    };
    (Some(result), flags(result == 0, false, false, carry))
}

pub fn rrc(value: u8) -> (r: (Option<u8>, FlagChange))
    ensures
        r == spec_prefixed(PrefixedOp::Rrc, value, false),
{
    proof {
        lemma_bits_as_arithmetic(value);
    }
    let carry = get_bit(value, 0);
    let carry_bit: u8 = if carry {
        0x80
    } else {
        0
    };
    let result = (value >> 1) + carry_bit;
    (Some(result), flags(result == 0, false, false, carry))
}

pub fn bit(n: u8, value: u8) -> (r: (Option<u8>, FlagChange))
    requires
        n < 8,
    ensures
        r == spec_prefixed(PrefixedOp::TestBit(n), value, false),
{
    let is_bit_set = get_bit(value, n);
    (None, FlagChange { z: Some(!is_bit_set), n: Some(false), h: Some(true), c: None })
}

pub fn res(n: u8, value: u8) -> (r: (Option<u8>, FlagChange))
    requires
        n < 8,
    ensures
        r == spec_prefixed(PrefixedOp::ResetBit(n), value, false),
{
    (Some(set_bit(value, n, false)), FlagChange::none())
}

pub fn set(n: u8, value: u8) -> (r: (Option<u8>, FlagChange))
    requires
        n < 8,
    ensures
        r == spec_prefixed(PrefixedOp::SetBit(n), value, false),
{
    (Some(set_bit(value, n, true)), FlagChange::none())
}

pub fn swap(value: u8) -> (r: (Option<u8>, FlagChange))
    ensures
        r == spec_prefixed(PrefixedOp::Swap, value, false),
{
    let result = swap_nibbles(value);
    (Some(result), flags(result == 0, false, false, false))
}

pub fn sla(value: u8) -> (r: (Option<u8>, FlagChange))
    ensures
        r == spec_prefixed(PrefixedOp::Sla, value, false),
{
    proof {
        lemma_bits_as_arithmetic(value);
    }
    let carry = get_bit(value, 7);
    let result = value << 1;
    (Some(result), flags(result == 0, false, false, carry))
}

pub fn sra(value: u8) -> (r: (Option<u8>, FlagChange))
    ensures
        r == spec_prefixed(PrefixedOp::Sra, value, false),
{
    proof {
        lemma_bits_as_arithmetic(value);
    }
    let carry = get_bit(value, 0);
    let msb = get_bit(value, 7);
    let result = if msb {
        (value >> 1) + 0x80
    } else {
        value >> 1
    };
    (Some(result), flags(result == 0, false, false, carry))
}

/// Applies the prefixed operation `op` to `value`.
pub fn prefixed(op: PrefixedOp, value: u8, carry: bool) -> (r: (Option<u8>, FlagChange))
    requires
        op.valid(),
    ensures
        r == spec_prefixed(op, value, carry),
{
    match op {
        PrefixedOp::Rlc => rlc(value),
        PrefixedOp::Rrc => rrc(value),
        PrefixedOp::Rl => rl(value, carry),
        PrefixedOp::Rr => rr(value, carry),
        PrefixedOp::Sla => sla(value),
        PrefixedOp::Sra => sra(value),
        PrefixedOp::Swap => swap(value),
        PrefixedOp::Srl => srl(value),
        PrefixedOp::TestBit(n) => bit(n, value),
        PrefixedOp::ResetBit(n) => res(n, value),
        PrefixedOp::SetBit(n) => set(n, value),
    }
}

/// BIT reports in Z whether the bit is clear and stores nothing; RES after
/// SET on a bit leaves the byte as RES alone does, which is the byte itself
/// where the bit was clear; and SWAP undoes itself.
#[verifier::rlimit(30)]
pub proof fn lemma_bit_operations(value: u8, n: u8)
    requires
        n < 8,
    ensures
        spec_prefixed(PrefixedOp::TestBit(n), value, false).0 is None,
        spec_prefixed(PrefixedOp::TestBit(n), value, false).1.z == Some(!spec_get_bit(value, n)),
        spec_prefixed(
            PrefixedOp::ResetBit(n),
            spec_prefixed(PrefixedOp::SetBit(n), value, false).0.unwrap(),
            false,
        ).0 == spec_prefixed(PrefixedOp::ResetBit(n), value, false).0,
        !spec_get_bit(value, n) ==> spec_prefixed(
            PrefixedOp::ResetBit(n),
            spec_prefixed(PrefixedOp::SetBit(n), value, false).0.unwrap(),
            false,
        ).0 == Some(value),
        spec_get_bit(value, n) ==> spec_prefixed(
            PrefixedOp::SetBit(n),
            spec_prefixed(PrefixedOp::ResetBit(n), value, false).0.unwrap(),
            false,
        ).0 == Some(value),
        spec_prefixed(
            PrefixedOp::Swap,
            spec_prefixed(PrefixedOp::Swap, value, false).0.unwrap(),
            false,
        ).0 == Some(value),
{
    lemma_set_bit_idempotent(value, n, true, false);
    lemma_set_bit_idempotent(value, n, false, true);
    lemma_swap_nibbles_involution(value);
}

/// Subtracting what was added gives the accumulator back, and the
/// subtraction borrows exactly when the addition carried: C ends up clear
/// where the sum fitted in the byte.
pub proof fn lemma_add_then_sub(a: u8, value: u8)
    ensures
        spec_sub_u8(spec_add_u8(a, value, false).0, value, false).0 == a,
        spec_sub_u8(spec_add_u8(a, value, false).0, value, false).1.c == spec_add_u8(
            a,
            value,
            false,
        ).1.c,
        spec_add_u8(a, value, false).1.c == Some(a + value > 0xFF),
{
}

/// Whether both nibbles of `value` are decimal digits.
pub open spec fn spec_is_bcd(value: u8) -> bool {
    value % 16 <= 9 && value / 16 <= 9
}

/// The number from 0 to 99 that the packed decimal byte `value` writes.
pub open spec fn spec_bcd_value(value: u8) -> int {
    (value / 16) * 10 + value % 16
}

/// The flags after `change` is applied to flags that were all clear.
pub open spec fn spec_flags_after(change: FlagChange) -> FlagRegister {
    (FlagRegister { z: false, n: false, h: false, c: false }).spec_apply(change)
}

proof fn lemma_decimal_adjust_add(a: u32, value: u32, sum: u32, high_fix: u32, low_fix: u32, adjusted: u32)
    by (bit_vector)
    requires
        a < 256,
        value < 256,
        a % 16 <= 9,
        a / 16 <= 9,
        value % 16 <= 9,
        value / 16 <= 9,
        sum == (a + value) as u32,
        high_fix == 0x60 || high_fix == 0,
        low_fix == 0x06 || low_fix == 0,
        high_fix == 0x60 <==> (sum > 0xFF || sum % 256 > 0x99),
        low_fix == 0x06 <==> ((a % 16 + value % 16) as u32 > 0xF || (sum % 256) % 16 > 9),
        adjusted == ((sum % 256 + high_fix + low_fix) as u32) % 256,
    ensures
        adjusted % 16 <= 9,
        adjusted / 16 <= 9,
        high_fix == 0x60 ==> (adjusted / 16) * 10 + adjusted % 16 + 100 == (a / 16) * 10 + a % 16
            + (value / 16) * 10 + value % 16,
        high_fix == 0 ==> (adjusted / 16) * 10 + adjusted % 16 == (a / 16) * 10 + a % 16 + (value
            / 16) * 10 + value % 16,
{
}

proof fn lemma_decimal_adjust_sub(a: u32, value: u32, difference: u32, high_fix: u32, low_fix: u32, adjusted: u32)
    by (bit_vector)
    requires
        a < 256,
        value < 256,
        a % 16 <= 9,
        a / 16 <= 9,
        value % 16 <= 9,
        value / 16 <= 9,
        difference == ((a + 256 - value) as u32) % 256,
        high_fix == 0x60 || high_fix == 0,
        low_fix == 0x06 || low_fix == 0,
        high_fix == 0x60 <==> a < value,
        low_fix == 0x06 <==> a % 16 < value % 16,
        adjusted == ((difference + 512 - high_fix - low_fix) as u32) % 256,
    ensures
        adjusted % 16 <= 9,
        adjusted / 16 <= 9,
        high_fix == 0x60 ==> (adjusted / 16) * 10 + adjusted % 16 + (value / 16) * 10 + value % 16
            == (a / 16) * 10 + a % 16 + 100,
        high_fix == 0 ==> (adjusted / 16) * 10 + adjusted % 16 + (value / 16) * 10 + value % 16
            == (a / 16) * 10 + a % 16,
{
}

/// The decimal adjustment after adding two packed decimal bytes gives the
/// packed decimal sum, with C as the hundreds digit.
#[verifier::rlimit(30)]
pub proof fn lemma_daa_after_add(a: u8, value: u8)
    requires
        spec_is_bcd(a),
        spec_is_bcd(value),
    ensures
        ({
            let (sum, change) = spec_add_u8(a, value, false);
            let (adjusted, adjusted_change) = spec_daa(sum, spec_flags_after(change));
            &&& spec_is_bcd(adjusted)
            &&& spec_bcd_value(adjusted) + (if adjusted_change.c == Some(true) {
                100int
            } else {
                0
            }) == spec_bcd_value(a) + spec_bcd_value(value)
        }),
{
    let (sum, change) = spec_add_u8(a, value, false);
    let current = spec_flags_after(change);
    let high_fix: u32 = if current.c || sum > 0x99 {
        0x60
    } else {
        0
    };
    let low_fix: u32 = if current.h || sum % 16 > 9 {
        0x06
    } else {
        0
    };
    let adjusted = spec_daa(sum, current).0;
    assert(adjusted == (sum + high_fix + low_fix) % 256);
    lemma_decimal_adjust_add(a as u32, value as u32, (a + value) as u32, high_fix, low_fix, adjusted as u32);
}

/// The byte that the decimal adjustment makes of the difference of `a` and
/// `value`.
spec fn spec_adjusted_difference(a: u8, value: u8) -> int {
    let difference: int = if a < value {
        a - value + 256
    } else {
        a - value
    };
    let raw: int = difference - (if a < value {
        0x60int
    } else {
        0
    }) - (if a % 16 < value % 16 {
        0x06int
    } else {
        0
    });
    if raw < 0 {
        raw + 256
    } else {
        raw
    }
}

#[verifier::rlimit(30)]
proof fn lemma_adjusted_difference_is_daa(a: u8, value: u8)
    ensures
        ({
            let (difference, change) = spec_sub_u8(a, value, false);
            let (adjusted, adjusted_change) = spec_daa(difference, spec_flags_after(change));
            &&& adjusted == spec_adjusted_difference(a, value)
            &&& adjusted_change.c == Some(a < value)
        }),
{
    let borrow = a < value;
    let half_borrow = a % 16 < value % 16;
    let difference: int = if borrow {
        a - value + 256
    } else {
        a - value
    };
    assert(spec_sub_u8(a, value, false).0 == difference);
    let current = spec_flags_after(spec_sub_u8(a, value, false).1);
    assert(current == (FlagRegister { z: difference == 0, n: true, h: half_borrow, c: borrow }));
}

#[verifier::rlimit(30)]
proof fn lemma_adjusted_difference_digits(a: u8, value: u8)
    requires
        spec_is_bcd(a),
        spec_is_bcd(value),
    ensures
        0 <= spec_adjusted_difference(a, value) < 256,
        spec_adjusted_difference(a, value) % 16 <= 9,
        spec_adjusted_difference(a, value) / 16 <= 9,
        (spec_adjusted_difference(a, value) / 16) * 10 + spec_adjusted_difference(a, value) % 16
            + spec_bcd_value(value) == spec_bcd_value(a) + (if a < value {
            100int
        } else {
            0
        }),
{
    let borrow = a < value;
    let difference: int = if borrow {
        a - value + 256
    } else {
        a - value
    };
    let high_fix: u32 = if borrow {
        0x60
    } else {
        0
    };
    let low_fix: u32 = if a % 16 < value % 16 {
        0x06
    } else {
        0
    };
    let adjusted = spec_adjusted_difference(a, value);
    assert(difference as u32 == ((a + 256 - value) as u32) % 256);
    assert(adjusted as u32 == ((difference + 512 - high_fix - low_fix) as u32) % 256);
    lemma_decimal_adjust_sub(
        a as u32,
        value as u32,
        difference as u32,
        high_fix,
        low_fix,
        adjusted as u32,
    );
}

/// The decimal adjustment after subtracting one packed decimal byte from
/// another gives the packed decimal difference, with C set where a hundred
/// had to be borrowed.
#[verifier::rlimit(30)]
pub proof fn lemma_daa_after_sub(a: u8, value: u8)
    requires
        spec_is_bcd(a),
        spec_is_bcd(value),
    ensures
        ({
            let (difference, change) = spec_sub_u8(a, value, false);
            let (adjusted, adjusted_change) = spec_daa(difference, spec_flags_after(change));
            &&& spec_is_bcd(adjusted)
            &&& spec_bcd_value(adjusted) - (if adjusted_change.c == Some(true) {
                100int
            } else {
                0
            }) == spec_bcd_value(a) - spec_bcd_value(value)
        }),
{
    lemma_adjusted_difference_is_daa(a, value);
    lemma_adjusted_difference_digits(a, value);
}

} // verus!
