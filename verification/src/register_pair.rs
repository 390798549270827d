//! Two eight-bit registers taken as one of sixteen bits.

use vstd::prelude::*;
use crate::instruction_decoder::RegisterU16;

verus! {

/// A register pair to read: the first register is the high byte. In AF the
/// low byte is the flags, whose low nibble always reads as zero.
#[derive(Debug, Clone, Copy, PartialEq, Eq, Structural)]
pub struct ImmutableRegisterPair {
    pub high: u8,
    pub low: u8,
    pub reg: RegisterU16,
}

/// A register pair to read and write.
#[derive(Debug, Clone, Copy, PartialEq, Eq, Structural)]
pub struct RegisterPair {
    pub high: u8,
    pub low: u8,
    pub reg: RegisterU16,
}

impl ImmutableRegisterPair {
    /// The low byte as it reads: of the flags, only the upper nibble.
    pub open spec fn spec_get_low(self) -> u8 {
        if self.reg == RegisterU16::AF {
            ((self.low / 16) * 16) as u8
        } else {
            self.low
        }
    }

    pub open spec fn spec_get(self) -> u16 {
        (self.high * 256 + self.spec_get_low()) as u16
    }

    pub fn get(&self) -> (r: u16)
        ensures
            r == self.spec_get(),
    {
        let high = self.high as u16;
        let low = self.get_low() as u16;
        high * 256 + low
    }

    pub fn get_low(&self) -> (r: u8)
        ensures
            r == self.spec_get_low(),
    {
        match self.reg {
            // The low nibble of the flags is always zero.
            RegisterU16::AF => (self.low / 16) * 16,
            RegisterU16::BC => self.low,
            RegisterU16::DE => self.low,
            RegisterU16::HL => self.low,
        }
    }
}

impl RegisterPair {
    /// The pair as one that is only read.
    pub open spec fn frozen(self) -> ImmutableRegisterPair {
        ImmutableRegisterPair { high: self.high, low: self.low, reg: self.reg }
    }

    pub open spec fn spec_get(self) -> u16 {
        self.frozen().spec_get()
    }

    /// What the pair reads as after `value` is written to it: `value`
    /// itself, and in AF `value` without its lowest four bits.
    pub open spec fn spec_read_back(reg: RegisterU16, value: u16) -> u16 {
        if reg == RegisterU16::AF {
            ((value / 16) * 16) as u16
        } else {
            value
        }
    }

    pub fn get(&self) -> (r: u16)
        ensures
            r == self.spec_get(),
    {
        (ImmutableRegisterPair { high: self.high, low: self.low, reg: self.reg }).get()
    }

    /// Writes `value` to the pair: the high byte to the first register, the
    /// low byte to the second.
    pub fn set(&mut self, value: u16)
        ensures
            *final(self) == (RegisterPair {
                high: (value / 256) as u8,
                low: (value % 256) as u8,
                reg: old(self).reg,
            }),
            final(self).spec_get() == RegisterPair::spec_read_back(old(self).reg, value),
    {
        let high = value / 256;
        let low = value % 256;
        self.high = high as u8;
        self.low = low as u8;
    }
}

/// A pair reads back as it was written, for every pair and every value; of
/// AF the lowest four bits read as zero.
pub proof fn lemma_set_then_get(pair: RegisterPair, value: u16)
    ensures
        ({
            let written = RegisterPair {
                high: (value / 256) as u8,
                low: (value % 256) as u8,
                reg: pair.reg,
            };
            &&& written.spec_get() == RegisterPair::spec_read_back(pair.reg, value)
            &&& pair.reg != RegisterU16::AF ==> written.spec_get() == value
            &&& pair.reg == RegisterU16::AF ==> written.spec_get() == value - value % 16
        }),
{
}

} // verus!
