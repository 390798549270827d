//! Single-bit access on bytes.

use vstd::prelude::*;

verus! {

/// Whether bit `bit` (0 is the least significant) of `value` is set.
pub open spec fn spec_get_bit(value: u8, bit: u8) -> bool {
    (value >> bit) & 1u8 == 1u8
}

/// `value` with bit `bit` replaced by `bit_value` and all other bits kept.
pub open spec fn spec_set_bit(value: u8, bit: u8, bit_value: bool) -> u8 {
    if bit_value {
        value | (1u8 << bit)
    } else {
        value & !(1u8 << bit)
    }
}

/// What bit `bit` of a byte counts for: two to the power of `bit`.
pub open spec fn spec_bit_weight(bit: u8) -> int {
    if bit == 0 {
        1
    } else if bit == 1 {
        2
    } else if bit == 2 {
        4
    } else if bit == 3 {
        8
    } else if bit == 4 {
        16
    } else if bit == 5 {
        32
    } else if bit == 6 {
        64
    } else {
        128
    }
}

/// Whether bit `bit` of `value` is set, in arithmetic.
pub open spec fn spec_bit_is_set(value: u8, bit: u8) -> bool {
    (value as int / spec_bit_weight(bit)) % 2 == 1
}

/// `value` with bit `bit` replaced by `bit_value`, in arithmetic: the
/// bit's weight is added or taken away where the bit changes.
pub open spec fn spec_with_bit(value: u8, bit: u8, bit_value: bool) -> int {
    if spec_bit_is_set(value, bit) == bit_value {
        value as int
    } else if bit_value {
        value + spec_bit_weight(bit)
    } else {
        value - spec_bit_weight(bit)
    }
}

/// `value` with its two nibbles exchanged.
pub open spec fn spec_swap_nibbles(value: u8) -> u8 {
    ((value & 0x0F) << 4) | ((value & 0xF0) >> 4)
}

proof fn lemma_bit_facts(value: u8, bit: u8, other: u8)
    by (bit_vector)
    requires
        bit < 8,
        other < 8,
    ensures
        (value & (1u8 << bit) != 0) == ((value >> bit) & 1u8 == 1u8),
        ((value | (1u8 << bit)) >> bit) & 1u8 == 1u8,
        ((value & !(1u8 << bit)) >> bit) & 1u8 == 0u8,
        other != bit ==> ((value | (1u8 << bit)) >> other) & 1u8 == (value >> other) & 1u8,
        other != bit ==> ((value & !(1u8 << bit)) >> other) & 1u8 == (value >> other) & 1u8,
        (value >> bit) & 1u8 == 1u8 ==> value | (1u8 << bit) == value,
        (value >> bit) & 1u8 != 1u8 ==> value & !(1u8 << bit) == value,
        (value | (1u8 << bit)) & !(1u8 << bit) == value & !(1u8 << bit),
        (value & !(1u8 << bit)) | (1u8 << bit) == value | (1u8 << bit),
{
}

proof fn lemma_bit_changes(value: u8)
    by (bit_vector)
    ensures
        ((value >> 0u8) & 1u8 != 1u8) ==> ((value | (1u8 << 0u8)) as u16) == (value as u16 + 1) as u16,
        ((value >> 0u8) & 1u8 == 1u8) ==> ((value & !(1u8 << 0u8)) as u16 + 1) as u16 == value as u16,
        ((value >> 1u8) & 1u8 != 1u8) ==> ((value | (1u8 << 1u8)) as u16) == (value as u16 + 2) as u16,
        ((value >> 1u8) & 1u8 == 1u8) ==> ((value & !(1u8 << 1u8)) as u16 + 2) as u16 == value as u16,
        ((value >> 2u8) & 1u8 != 1u8) ==> ((value | (1u8 << 2u8)) as u16) == (value as u16 + 4) as u16,
        ((value >> 2u8) & 1u8 == 1u8) ==> ((value & !(1u8 << 2u8)) as u16 + 4) as u16 == value as u16,
        ((value >> 3u8) & 1u8 != 1u8) ==> ((value | (1u8 << 3u8)) as u16) == (value as u16 + 8) as u16,
        ((value >> 3u8) & 1u8 == 1u8) ==> ((value & !(1u8 << 3u8)) as u16 + 8) as u16 == value as u16,
        ((value >> 4u8) & 1u8 != 1u8) ==> ((value | (1u8 << 4u8)) as u16) == (value as u16 + 16) as u16,
        ((value >> 4u8) & 1u8 == 1u8) ==> ((value & !(1u8 << 4u8)) as u16 + 16) as u16 == value as u16,
        ((value >> 5u8) & 1u8 != 1u8) ==> ((value | (1u8 << 5u8)) as u16) == (value as u16 + 32) as u16,
        ((value >> 5u8) & 1u8 == 1u8) ==> ((value & !(1u8 << 5u8)) as u16 + 32) as u16 == value as u16,
        ((value >> 6u8) & 1u8 != 1u8) ==> ((value | (1u8 << 6u8)) as u16) == (value as u16 + 64) as u16,
        ((value >> 6u8) & 1u8 == 1u8) ==> ((value & !(1u8 << 6u8)) as u16 + 64) as u16 == value as u16,
        ((value >> 7u8) & 1u8 != 1u8) ==> ((value | (1u8 << 7u8)) as u16) == (value as u16 + 128) as u16,
        ((value >> 7u8) & 1u8 == 1u8) ==> ((value & !(1u8 << 7u8)) as u16 + 128) as u16 == value as u16,
{
}

proof fn lemma_nibble_facts(value: u8)
    by (bit_vector)
    ensures
        ((value & 0x0F) << 4) | ((value & 0xF0) >> 4) == (value % 16) * 16 + value / 16,
{
}

pub fn get_bit(value: u8, bit: u8) -> (r: bool)
    requires
        bit < 8,
    ensures
        r == spec_get_bit(value, bit),
        r == spec_bit_is_set(value, bit),
{
    proof {
        lemma_bit_facts(value, bit, bit);
        lemma_bits_as_arithmetic(value);
    }
    value & (1u8 << bit) != 0
}

pub fn set_bit_mut(value: &mut u8, bit: u8, bit_value: bool)
    requires
        bit < 8,
    ensures
        *final(value) == spec_set_bit(*old(value), bit, bit_value),
        *final(value) == spec_with_bit(*old(value), bit, bit_value),
{
    proof {
        lemma_set_bit_as_arithmetic(*value, bit, bit_value);
    }
    if bit_value {
        *value = *value | (1u8 << bit);
    } else {
        *value = *value & !(1u8 << bit);
    }
}

pub fn set_bit(value: u8, bit: u8, bit_value: bool) -> (r: u8)
    requires
        bit < 8,
    ensures
        r == spec_set_bit(value, bit, bit_value),
        r == spec_with_bit(value, bit, bit_value),
{
    proof {
        lemma_set_bit_as_arithmetic(value, bit, bit_value);
    }
    if bit_value {
        value | (1u8 << bit)
    } else {
        value & !(1u8 << bit)
    }
}

pub fn swap_nibbles(value: u8) -> (r: u8)
    ensures
        r == spec_swap_nibbles(value),
        r == (value % 16) * 16 + value / 16,
{
    proof {
        lemma_nibble_facts(value);
    }
    ((value & 0x0F) << 4) | ((value & 0xF0) >> 4)
}

/// The bit operations written with shifts and masks are the arithmetic
/// ones.
pub proof fn lemma_set_bit_as_arithmetic(value: u8, bit: u8, bit_value: bool)
    requires
        bit < 8,
    ensures
        spec_get_bit(value, bit) == spec_bit_is_set(value, bit),
        spec_set_bit(value, bit, bit_value) == spec_with_bit(value, bit, bit_value),
{
    lemma_bits_as_arithmetic(value);
    lemma_bit_facts(value, bit, bit);
    lemma_bit_changes(value);
}

/// A bit that was written reads back as written, and every other bit reads
/// as it did before the write.
pub proof fn lemma_set_then_get(value: u8, bit: u8, bit_value: bool, other: u8)
    requires
        bit < 8,
        other < 8,
    ensures
        spec_get_bit(spec_set_bit(value, bit, bit_value), bit) == bit_value,
        other != bit ==> spec_get_bit(spec_set_bit(value, bit, bit_value), other) == spec_get_bit(
            value,
            other,
        ),
{
    lemma_bit_facts(value, bit, other);
}

/// Writing a bit the value it already has changes nothing, and of two writes
/// to one bit only the second counts.
pub proof fn lemma_set_bit_idempotent(value: u8, bit: u8, first: bool, second: bool)
    requires
        bit < 8,
    ensures
        spec_set_bit(value, bit, spec_get_bit(value, bit)) == value,
        spec_set_bit(spec_set_bit(value, bit, first), bit, second) == spec_set_bit(
            value,
            bit,
            second,
        ),
{
    lemma_bit_facts(value, bit, bit);
    lemma_bit_facts(value | (1u8 << bit), bit, bit);
    lemma_bit_facts(value & !(1u8 << bit), bit, bit);
}

/// Exchanging the nibbles twice gives the byte back.
pub proof fn lemma_swap_nibbles_involution(value: u8)
    ensures
        spec_swap_nibbles(spec_swap_nibbles(value)) == value,
{
    lemma_nibble_facts(value);
    lemma_nibble_facts(spec_swap_nibbles(value));
}

/// What the bit operations on a byte come to in arithmetic.
pub proof fn lemma_bits_as_arithmetic(value: u8)
    by (bit_vector)
    ensures
        ((value >> 0u8) & 1u8 == 1u8) == (value % 2 == 1),
        ((value >> 1u8) & 1u8 == 1u8) == ((value / 2) % 2 == 1),
        ((value >> 2u8) & 1u8 == 1u8) == ((value / 4) % 2 == 1),
        ((value >> 3u8) & 1u8 == 1u8) == ((value / 8) % 2 == 1),
        ((value >> 4u8) & 1u8 == 1u8) == ((value / 16) % 2 == 1),
        ((value >> 5u8) & 1u8 == 1u8) == ((value / 32) % 2 == 1),
        ((value >> 6u8) & 1u8 == 1u8) == ((value / 64) % 2 == 1),
        ((value >> 7u8) & 1u8 == 1u8) == (value >= 128),
        value & 0x01 == value % 2,
        value & 0x03 == value % 4,
        value & 0x0F == value % 16,
        value & 0x1F == value % 32,
        value & 0xF0 == (value / 16) * 16,
        value & 0x78 == ((value / 8) % 16) * 8,
        value >> 1u8 == value / 2,
        value >> 2u8 == value / 4,
        value >> 4u8 == value / 16,
        value >> 6u8 == value / 64,
        (value & 0x0C) >> 2u8 == (value / 4) % 4,
        (value & 0x30) >> 4u8 == (value / 16) % 4,
        (value & 0xC0) >> 6u8 == value / 64,
        value << 1u8 == (value % 128) * 2,
        !value == 255 - value,
        value == (value / 64) * 64 + ((value / 16) % 4) * 16 + ((value / 4) % 4) * 4 + value % 4,
{
}

} // verus!
