use gameboy::address::Address;
use gameboy::utils::{get_bit, set_bit, set_bit_mut, swap_nibbles};

#[test]
fn test_swap_nibbles() {
    assert_eq!(swap_nibbles(0xAB), 0xBA);
    assert_eq!(swap_nibbles(0x0F), 0xF0);
    assert_eq!(swap_nibbles(0xF0), 0x0F);
}

#[test]
fn test_get_bit() {
    assert_eq!(get_bit(0b1011_0010, 0), false);
    assert_eq!(get_bit(0b1011_0010, 1), true);
    assert_eq!(get_bit(0b1011_0010, 2), false);
    assert_eq!(get_bit(0b1011_0010, 3), false);
    assert_eq!(get_bit(0b1011_0010, 4), true);
    assert_eq!(get_bit(0b1011_0010, 5), true);
    assert_eq!(get_bit(0b1011_0010, 6), false);
    assert_eq!(get_bit(0b1011_0010, 7), true);
}

#[test]
fn test_set_bit() {
    assert_eq!(set_bit(0b1011_0010, 0, true), 0b1011_0011);
    assert_eq!(set_bit(0b1011_0010, 1, false), 0b1011_0000);
    assert_eq!(set_bit(0b1011_0010, 2, false), 0b1011_0010);
    assert_eq!(set_bit(0b1011_0010, 3, true), 0b1011_1010);
    assert_eq!(set_bit(0b1011_0010, 4, false), 0b1010_0010);
    assert_eq!(set_bit(0b1011_0010, 5, true), 0b1011_0010);
    assert_eq!(set_bit(0b1011_0010, 6, true), 0b1111_0010);
    assert_eq!(set_bit(0b1011_0010, 7, false), 0b0011_0010);
}

#[test]
fn set_bit_mut_changes_one_bit_only() {
    for value in 0..=255u8 {
        for bit in 0..8u8 {
            let mut set = value;
            set_bit_mut(&mut set, bit, true);
            assert_eq!(set, value | (1 << bit));
            let mut cleared = value;
            set_bit_mut(&mut cleared, bit, false);
            assert_eq!(cleared, value & !(1 << bit));
        }
    }
}

#[test]
fn set_then_get_reads_back_for_every_byte_and_bit() {
    for value in 0..=255u8 {
        for bit in 0..8u8 {
            assert!(get_bit(set_bit(value, bit, true), bit));
            assert!(!get_bit(set_bit(value, bit, false), bit));
            for other in 0..8u8 {
                if other != bit {
                    assert_eq!(get_bit(set_bit(value, bit, true), other), get_bit(value, other));
                }
            }
        }
    }
}

#[test]
fn swap_nibbles_twice_is_identity() {
    for value in 0..=255u8 {
        assert_eq!(swap_nibbles(swap_nibbles(value)), value);
    }
}

#[test]
fn address_next_and_plus_wrap() {
    let a = Address::new(0xFFFF);
    assert_eq!(a.next().value(), 0x0000);
    assert_eq!(Address::new(0x1234).next().value(), 0x1235);
    assert_eq!(Address::new(0xFFF0).plus(0x20).value(), 0x0010);
    assert_eq!(Address::new(0x8000).plus(0).value(), 0x8000);
    assert_eq!(Address::from_lower(0x44).value(), 0xFF44);
    assert_eq!(Address::new(0xC000).index_value(), 0xC000usize);
}

#[test]
fn address_equality_and_order_follow_the_number() {
    assert_eq!(Address::new(0x10), Address::new(0x10));
    assert_ne!(Address::new(0x10), Address::new(0x11));
    assert!(Address::new(0x10).is_below(&Address::new(0x11)));
    assert!(!Address::new(0x11).is_below(&Address::new(0x11)));
    assert!(!Address::new(0x12).is_below(&Address::new(0x11)));
    assert!(Address::new(0x00FF) < Address::new(0x0100));
    assert!(Address::new(0xFFFF) > Address::new(0x0000));
    assert!(Address::new(0x8000) <= Address::new(0x8000));
    assert!(!(Address::new(0x8001) <= Address::new(0x8000)));
    assert_eq!(
        Address::new(3).partial_cmp(&Address::new(3)),
        Some(std::cmp::Ordering::Equal)
    );
}
