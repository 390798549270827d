//! The four condition flags and the way an operation reports what it did to
//! them.

use vstd::prelude::*;
use crate::utils::lemma_bits_as_arithmetic;

verus! {

/// The flags Z (zero), N (subtraction), H (half carry) and C (carry). As a
/// byte they sit in bits 7 to 4, and the low nibble is zero.
#[derive(Debug, Clone, Copy, PartialEq, Eq, Structural)]
pub struct FlagRegister {
    pub z: bool,
    pub n: bool,
    pub h: bool,
    pub c: bool,
}

/// What an operation does to each flag: a value to set it to, or nothing to
/// leave it as it is.
#[derive(Debug, Clone, Copy, PartialEq, Eq, Structural)]
pub struct FlagChange {
    pub z: Option<bool>,
    pub n: Option<bool>,
    pub h: Option<bool>,
    pub c: Option<bool>,
}

pub open spec fn spec_keep_or(change: Option<bool>, current: bool) -> bool {
    match change {
        Some(b) => b,
        None => current,
    }
}

impl FlagChange {
    /// The change that leaves every flag as it is.
    pub open spec fn spec_none() -> FlagChange {
        FlagChange { z: None, n: None, h: None, c: None }
    }

    pub fn none() -> (r: FlagChange)
        ensures
            r == FlagChange::spec_none(),
    {
        FlagChange { z: None, n: None, h: None, c: None }
    }
}

impl FlagRegister {
    pub open spec fn spec_to_byte(self) -> u8 {
        ((if self.z { 0x80int } else { 0 }) + (if self.n { 0x40int } else { 0 }) + (if self.h {
            0x20int
        } else {
            0
        }) + (if self.c { 0x10int } else { 0 })) as u8
    }

    pub open spec fn spec_from_byte(value: u8) -> FlagRegister {
        FlagRegister {
            z: value >= 0x80,
            n: (value / 0x40) % 2 == 1,
            h: (value / 0x20) % 2 == 1,
            c: (value / 0x10) % 2 == 1,
        }
    }

    pub open spec fn spec_apply(self, change: FlagChange) -> FlagRegister {
        FlagRegister {
            z: spec_keep_or(change.z, self.z),
            n: spec_keep_or(change.n, self.n),
            h: spec_keep_or(change.h, self.h),
            c: spec_keep_or(change.c, self.c),
        }
    }

    /// The flags as the start-up program finds them: all clear.
    pub fn new() -> (r: Self)
        ensures
            r == FlagRegister::spec_from_byte(0x00),
    {
        Self { z: false, n: false, h: false, c: false }
    }

    /// The flags as the start-up program leaves them.
    pub fn new_without_boot_rom() -> (r: Self)
        ensures
            r == FlagRegister::spec_from_byte(0xB0),
    {
        Self { z: true, n: false, h: true, c: true }
    }

    pub fn get_z(&self) -> (r: bool)
        ensures
            r == self.z,
    {
        self.z
    }

    pub fn get_n(&self) -> (r: bool)
        ensures
            r == self.n,
    {
        self.n
    }

    pub fn get_h(&self) -> (r: bool)
        ensures
            r == self.h,
    {
        self.h
    }

    pub fn get_c(&self) -> (r: bool)
        ensures
            r == self.c,
    {
        self.c
    }

    pub fn set_z(&mut self, bit_value: bool)
        ensures
            *final(self) == (FlagRegister { z: bit_value, ..*old(self) }),
    {
        self.z = bit_value;
    }

    pub fn set_n(&mut self, bit_value: bool)
        ensures
            *final(self) == (FlagRegister { n: bit_value, ..*old(self) }),
    {
        self.n = bit_value;
    }

    pub fn set_h(&mut self, bit_value: bool)
        ensures
            *final(self) == (FlagRegister { h: bit_value, ..*old(self) }),
    {
        self.h = bit_value;
    }

    pub fn set_c(&mut self, bit_value: bool)
        ensures
            *final(self) == (FlagRegister { c: bit_value, ..*old(self) }),
    {
        self.c = bit_value;
    }

    /// The flags as the byte F.
    pub fn to_byte(&self) -> (r: u8)
        ensures
            r == self.spec_to_byte(),
            r % 16 == 0,
    {
        let mut value: u8 = 0;
        if self.z {
            value = value + 0x80;
        }
        if self.n {
            value = value + 0x40;
        }
        if self.h {
            value = value + 0x20;
        }
        if self.c {
            value = value + 0x10;
        }
        value
    }

    /// The flags that bits 7 to 4 of `value` hold.
    pub fn from_byte(value: u8) -> (r: Self)
        ensures
            r == FlagRegister::spec_from_byte(value),
    {
        Self {
            z: value >= 0x80,
            n: (value / 0x40) % 2 == 1,
            h: (value / 0x20) % 2 == 1,
            c: (value / 0x10) % 2 == 1,
        }
    }

    pub fn apply(&mut self, change: FlagChange)
        ensures
            *final(self) == old(self).spec_apply(change),
    {
        if let Some(z) = change.z {
            self.set_z(z);
        }
        if let Some(n) = change.n {
            self.set_n(n);
        }
        if let Some(h) = change.h {
            self.set_h(h);
        }
        if let Some(c) = change.c {
            self.set_c(c);
        }
    }
}

/// A byte stored in F reads back with its low nibble cleared, and the flags
/// read back from F as they were stored.
pub proof fn lemma_flag_byte_round_trip(value: u8, flags: FlagRegister)
    ensures
        FlagRegister::spec_from_byte(value).spec_to_byte() == (value / 16) * 16,
        FlagRegister::spec_from_byte(flags.spec_to_byte()) == flags,
{
    lemma_bits_as_arithmetic(value);
}

} // verus!
