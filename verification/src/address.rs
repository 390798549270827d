//! A position on the 16-bit bus.

use std::cmp::Ordering;
use vstd::prelude::*;
use vstd::std_specs::cmp::PartialOrdSpecImpl;

verus! {

#[derive(Clone, Copy, Debug, PartialEq, Eq, Structural)]
pub struct Address {
    pub addr: u16,
}

impl Address {
    pub fn new(addr: u16) -> (r: Address)
        ensures
            r.addr == addr,
    {
        Address { addr }
    }

    /// The address in the topmost page whose low byte is `lower_addr`.
    pub fn from_lower(lower_addr: u8) -> (r: Address)
        ensures
            r.addr == 0xFF00 + lower_addr,
    {
        Address::new(0xFF00 + lower_addr as u16)
    }

    pub fn next(&self) -> (r: Self)
        ensures
            r.addr == (self.addr + 1) % 0x1_0000,
    {
        self.plus(1)
    }

    /// The address `offset` positions further on, past the top of the bus
    /// back to its bottom.
    pub fn plus(&self, offset: u16) -> (r: Self)
        ensures
            r.addr == (self.addr + offset) % 0x1_0000,
    {
        Self { addr: self.addr.wrapping_add(offset) }
    }

    pub fn value(&self) -> (r: u16)
        ensures
            r == self.addr,
    {
        self.addr
    }

    pub fn index_value(&self) -> (r: usize)
        ensures
            r == self.addr,
    {
        self.addr as usize
    }

    /// Whether `self` lies strictly below `other` on the bus.
    pub fn is_below(&self, other: &Address) -> (r: bool)
        ensures
            r == (self.addr < other.addr),
    {
        self.addr < other.addr
    }
}

/// Addresses are ordered as the numbers they are.
impl PartialOrd for Address {
    fn partial_cmp(&self, other: &Address) -> (r: Option<Ordering>) {
        if self.addr < other.addr {
            Some(Ordering::Less)
        } else if self.addr > other.addr {
            Some(Ordering::Greater)
        } else {
            Some(Ordering::Equal)
        }
    }
}

impl PartialOrdSpecImpl for Address {
    open spec fn obeys_partial_cmp_spec() -> bool {
        true
    }

    open spec fn partial_cmp_spec(&self, other: &Address) -> Option<Ordering> {
        if self.addr < other.addr {
            Some(Ordering::Less)
        } else if self.addr > other.addr {
            Some(Ordering::Greater)
        } else {
            Some(Ordering::Equal)
        }
    }
}

} // verus!
