//! A flat store of one byte for each address of the bus.

use vstd::prelude::*;

verus! {

pub const MEMORY_SIZE: usize = 0x1_0000;

pub struct Memory {
    data: Vec<u8>,
}

impl View for Memory {
    type V = Seq<u8>;

    closed spec fn view(&self) -> Seq<u8> {
        self.data@
    }
}

impl Memory {
    pub open spec fn wf(&self) -> bool {
        self@.len() == MEMORY_SIZE
    }

    pub fn new() -> (r: Memory)
        ensures
            r.wf(),
            r@ == Seq::new(MEMORY_SIZE as nat, |i: int| 0u8),
    {
        let data = vec![0x00u8; 0x1_0000];
        assert(data@ =~= Seq::new(MEMORY_SIZE as nat, |i: int| 0u8));
        Memory { data }
    }

    pub fn get(&self, address: u16) -> (r: u8)
        requires
            self.wf(),
        ensures
            r == self@[address as int],
    {
        self.data[address as usize]
    }

    /// The byte at the address in the topmost page whose low byte is
    /// `lower_address`.
    pub fn get_from_u8(&self, lower_address: u8) -> (r: u8)
        requires
            self.wf(),
        ensures
            r == self@[0xFF00 + lower_address],
    {
        let address = 0xFF00 + (lower_address as u16);
        self.data[address as usize]
    }

    /// The two bytes at `address` as one number, the low byte first.
    pub fn get_u16(&self, address: u16) -> (r: u16)
        requires
            self.wf(),
            address < 0xFFFF,
        ensures
            r == self@[address + 1] * 256 + self@[address as int],
    {
        let low = self.data[address as usize];
        let high = self.data[(address + 1) as usize];
        (high as u16) * 256 + (low as u16)
    }

    pub fn set(&mut self, address: u16, value: u8)
        requires
            old(self).wf(),
        ensures
            final(self).wf(),
            final(self)@ == old(self)@.update(address as int, value),
    {
        self.set_internal(address as usize, value);
    }

    pub fn set_from_u8(&mut self, lower_address: u8, value: u8)
        requires
            old(self).wf(),
        ensures
            final(self).wf(),
            final(self)@ == old(self)@.update(0xFF00 + lower_address, value),
    {
        let address = 0xFF00 + (lower_address as u16);
        self.set_internal(address as usize, value);
    }

    /// Stores `value` at `address`, the low byte first.
    pub fn set_u16(&mut self, address: u16, value: u16)
        requires
            old(self).wf(),
            address < 0xFFFF,
        ensures
            final(self).wf(),
            final(self)@ == old(self)@.update(address as int, (value % 256) as u8).update(
                address + 1,
                (value / 256) as u8,
            ),
    {
        let low = (value % 256) as u8;
        let high = (value / 256) as u8;
        self.set_internal(address as usize, low);
        self.set_internal((address + 1) as usize, high);
    }

    fn set_internal(&mut self, address: usize, value: u8)
        requires
            old(self).wf(),
            address < MEMORY_SIZE,
        ensures
            final(self).wf(),
            final(self)@ == old(self)@.update(address as int, value),
    {
        self.data.set(address, value);
    }
}

/// A word that was stored reads back.
pub proof fn lemma_word_round_trip(memory: Seq<u8>, address: u16, value: u16)
    requires
        memory.len() == MEMORY_SIZE,
        address < 0xFFFF,
    ensures
        ({
            let stored = memory.update(address as int, (value % 256) as u8).update(
                address + 1,
                (value / 256) as u8,
            );
            stored[address + 1] * 256 + stored[address as int] == value
        }),
{
}

} // verus!
