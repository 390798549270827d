//! What sits in the cartridge slot: a plain ROM or a ROM behind the first
//! memory-bank controller.

use vstd::prelude::*;
use crate::address::Address;
use crate::fault::Fault;
use crate::header::CartridgeType;

verus! {

pub const ROM_BANK_SIZE: usize = 0x4000;

pub const RAM_BANK_SIZE: usize = 0x2000;

pub const RAM_BANK_COUNT: usize = 4;

#[derive(Debug, Clone, Copy, PartialEq, Eq, Structural)]
pub enum BankingMode {
    UseRom,
    UseRam,
}

/// The state of a bank controller: the image, the external RAM and the four
/// registers that writes into the ROM area set.
pub struct Mbc1Model {
    pub rom: Seq<u8>,
    pub ram: Seq<u8>,
    /// Bits 0 to 4 hold the primary bank number, bits 5 and 6 the upper one.
    pub rom_bank: u8,
    pub ram_bank: u8,
    pub ram_enabled: bool,
    pub banking_mode: BankingMode,
}

/// The primary bank number that a write of `value` selects: its low five
/// bits, and one where they are all zero.
pub open spec fn spec_primary_bank(value: u8) -> int {
    if value % 32 == 0 {
        1
    } else {
        value as int % 32
    }
}

impl Mbc1Model {
    pub open spec fn inv(self) -> bool {
        &&& self.ram.len() == RAM_BANK_SIZE * RAM_BANK_COUNT
        &&& self.rom_bank < 0x80
        &&& self.rom_bank % 32 != 0
        &&& self.ram_bank < RAM_BANK_COUNT
    }

    /// The bank seen at `0x4000`: the upper bits count in ROM-banking mode
    /// only.
    pub open spec fn active_rom_bank(self) -> int {
        match self.banking_mode {
            BankingMode::UseRom => self.rom_bank as int,
            BankingMode::UseRam => self.rom_bank as int % 32,
        }
    }

    pub open spec fn rom_offset(self, addr: u16) -> int {
        if addr < 0x4000 {
            addr as int
        } else {
            (addr - 0x4000) + ROM_BANK_SIZE * self.active_rom_bank()
        }
    }

    pub open spec fn ram_offset(self, addr: u16) -> int {
        (addr - 0xA000) + RAM_BANK_SIZE * self.ram_bank
    }

    pub open spec fn read(self, addr: u16) -> Result<u8, Fault> {
        if addr < 0x8000 {
            if self.rom_offset(addr) < self.rom.len() {
                Ok(self.rom[self.rom_offset(addr)])
            } else {
                Err(Fault::UnmappedRead(addr))
            }
        } else if 0xA000 <= addr < 0xC000 {
            if self.ram_enabled {
                Ok(self.ram[self.ram_offset(addr)])
            } else {
                Ok(0xFF)
            }
        } else {
            Err(Fault::UnmappedRead(addr))
        }
    }

    pub open spec fn write(self, addr: u16, value: u8) -> Result<Mbc1Model, Fault> {
        if addr < 0x2000 {
            Ok(Mbc1Model { ram_enabled: value % 16 == 0x0A, ..self })
        } else if addr < 0x4000 {
            Ok(
                Mbc1Model {
                    rom_bank: ((self.rom_bank / 32) * 32 + spec_primary_bank(value)) as u8,
                    ..self
                },
            )
        } else if addr < 0x6000 {
            match self.banking_mode {
                BankingMode::UseRom => Ok(
                    Mbc1Model {
                        rom_bank: (self.rom_bank % 32 + 32 * (value % 4)) as u8,
                        ..self
                    },
                ),
                BankingMode::UseRam => Ok(Mbc1Model { ram_bank: value % 4, ..self }),
            }
        } else if addr < 0x8000 {
            Ok(
                Mbc1Model {
                    banking_mode: if value == 0 {
                        BankingMode::UseRom
                    } else {
                        BankingMode::UseRam
                    },
                    ..self
                },
            )
        } else if 0xA000 <= addr < 0xC000 {
            if self.ram_enabled {
                Ok(Mbc1Model { ram: self.ram.update(self.ram_offset(addr), value), ..self })
            } else {
                Ok(self)
            }
        } else {
            Err(Fault::UnmappedWrite(addr))
        }
    }
}

/// What a cartridge is to the bus.
pub enum CartridgeModel {
    RomOnly { rom: Seq<u8> },
    Mbc1(Mbc1Model),
}

impl CartridgeModel {
    pub open spec fn inv(self) -> bool {
        match self {
            CartridgeModel::RomOnly { rom } => true,
            CartridgeModel::Mbc1(m) => m.inv(),
        }
    }

    /// The image that the cartridge was made from.
    pub open spec fn rom(self) -> Seq<u8> {
        match self {
            CartridgeModel::RomOnly { rom } => rom,
            CartridgeModel::Mbc1(m) => m.rom,
        }
    }

    /// The byte at `addr`, or the fault where the cartridge has none: outside
    /// its two windows, and past the end of its image.
    pub open spec fn read(self, addr: u16) -> Result<u8, Fault> {
        match self {
            CartridgeModel::RomOnly { rom } => if addr < 0x8000 && addr < rom.len() {
                Ok(rom[addr as int])
            } else {
                Err(Fault::UnmappedRead(addr))
            },
            CartridgeModel::Mbc1(m) => m.read(addr),
        }
    }

    /// The cartridge after `value` is written to `addr`. A plain ROM takes
    /// every write and keeps none.
    pub open spec fn write(self, addr: u16, value: u8) -> Result<CartridgeModel, Fault> {
        match self {
            CartridgeModel::RomOnly { rom } => Ok(self),
            CartridgeModel::Mbc1(m) => match m.write(addr, value) {
                Ok(m2) => Ok(CartridgeModel::Mbc1(m2)),
                Err(e) => Err(e),
            },
        }
    }

    /// Whether the cartridge keeps nothing of what is written to it.
    pub open spec fn ignores_writes(self) -> bool {
        self is RomOnly
    }

    /// A fresh cartridge of the kind `cartridge_type` around the image `rom`,
    /// for the kinds that are supported.
    pub open spec fn fresh(cartridge_type: CartridgeType, rom: Seq<u8>) -> Option<CartridgeModel> {
        match cartridge_type {
            CartridgeType::RomOnly => Some(CartridgeModel::RomOnly { rom }),
            CartridgeType::MBC1 => Some(
                CartridgeModel::Mbc1(
                    Mbc1Model {
                        rom,
                        ram: Seq::new((RAM_BANK_SIZE * RAM_BANK_COUNT) as nat, |i: int| 0u8),
                        rom_bank: 1,
                        ram_bank: 0,
                        ram_enabled: false,
                        banking_mode: BankingMode::UseRom,
                    },
                ),
            ),
            _ => None,
        }
    }
}

pub struct RomOnly {
    rom_data: Vec<u8>,
}

impl View for RomOnly {
    type V = Seq<u8>;

    closed spec fn view(&self) -> Seq<u8> {
        self.rom_data@
    }
}

impl RomOnly {
    pub fn new(rom_data: Vec<u8>) -> (r: Self)
        ensures
            r@ == rom_data@,
    {
        Self { rom_data }
    }

    pub fn read(&self, address: Address) -> (r: Result<u8, Fault>)
        ensures
            r == (CartridgeModel::RomOnly { rom: self@ }).read(address.addr),
    {
        let index = address.index_value();
        if index < 0x8000 && index < self.rom_data.len() {
            Ok(self.rom_data[index])
        } else {
            Err(Fault::UnmappedRead(address.value()))
        }
    }

    pub fn write(&mut self, address: Address, value: u8)
        ensures
            final(self)@ == old(self)@,
    {
    }
}

pub struct MBC1 {
    rom_data: Vec<u8>,
    ram_data: Vec<u8>,
    rom_bank: u8,
    ram_bank: u8,
    ram_enabled: bool,
    banking_mode: BankingMode,
}

impl View for MBC1 {
    type V = Mbc1Model;

    closed spec fn view(&self) -> Mbc1Model {
        Mbc1Model {
            rom: self.rom_data@,
            ram: self.ram_data@,
            rom_bank: self.rom_bank,
            ram_bank: self.ram_bank,
            ram_enabled: self.ram_enabled,
            banking_mode: self.banking_mode,
        }
    }
}

impl MBC1 {
    pub open spec fn wf(&self) -> bool {
        self@.inv()
    }

    pub fn new(rom_data: Vec<u8>) -> (r: Self)
        ensures
            r.wf(),
            Some(CartridgeModel::Mbc1(r@)) == CartridgeModel::fresh(CartridgeType::MBC1, rom_data@),
    {
        let ram_data = vec![0x00u8; 0x8000];
        let r = Self {
            rom_data,
            ram_data,
            // Zero is no valid bank number.
            rom_bank: 0x01,
            ram_bank: 0x00,
            ram_enabled: false,
            banking_mode: BankingMode::UseRom,
        };
        assert(r@.ram =~= Seq::new((RAM_BANK_SIZE * RAM_BANK_COUNT) as nat, |i: int| 0u8));
        r
    }

    pub fn read(&self, address: Address) -> (r: Result<u8, Fault>)
        requires
            self.wf(),
        ensures
            r == self@.read(address.addr),
    {
        let addr = address.value();
        if addr < 0x4000 {
            let offset = address.index_value();
            if offset < self.rom_data.len() {
                Ok(self.rom_data[offset])
            } else {
                Err(Fault::UnmappedRead(addr))
            }
        } else if addr < 0x8000 {
            let bank = match self.banking_mode {
                BankingMode::UseRom => self.rom_bank,
                BankingMode::UseRam => self.rom_bank % 32,
            };
            let normalized_addr = address.index_value() - 0x4000;
            let bank_offset_addr = ROM_BANK_SIZE * (bank as usize);
            let offset = bank_offset_addr + normalized_addr;
            if offset < self.rom_data.len() {
                Ok(self.rom_data[offset])
            } else {
                Err(Fault::UnmappedRead(addr))
            }
        } else if 0xA000 <= addr && addr < 0xC000 {
            if !self.ram_enabled {
                return Ok(0xFF);
            }
            let normalized_addr = address.index_value() - 0xA000;
            let bank_offset_addr = RAM_BANK_SIZE * self.ram_bank as usize;
            let offset = bank_offset_addr + normalized_addr;
            Ok(self.ram_data[offset])
        } else {
            Err(Fault::UnmappedRead(addr))
        }
    }

    pub fn write(&mut self, address: Address, value: u8) -> (r: Result<(), Fault>)
        requires
            old(self).wf(),
        ensures
            final(self).wf(),
            match old(self)@.write(address.addr, value) {
                Ok(m) => r == Ok::<(), Fault>(()) && final(self)@ == m,
                Err(e) => r == Err::<(), Fault>(e) && final(self)@ == old(self)@,
            },
    {
        let addr = address.value();
        if addr < 0x2000 {
            self.ram_enabled = value % 16 == 0x0A;
        } else if addr < 0x4000 {
            let low = value % 32;
            let primary = if low == 0 {
                1
            } else {
                low
            };
            self.rom_bank = (self.rom_bank / 32) * 32 + primary;
        } else if addr < 0x6000 {
            match self.banking_mode {
                BankingMode::UseRom => {
                    self.rom_bank = self.rom_bank % 32 + 32 * (value % 4);
                },
                BankingMode::UseRam => {
                    self.ram_bank = value % 4;
                },
            }
        } else if addr < 0x8000 {
            self.banking_mode = if value == 0 {
                BankingMode::UseRom
            } else {
                BankingMode::UseRam
            };
        } else if 0xA000 <= addr && addr < 0xC000 {
            if !self.ram_enabled {
                return Ok(());
            }
            let normalized_addr = address.index_value() - 0xA000;
            let bank_offset_addr = RAM_BANK_SIZE * self.ram_bank as usize;
            let offset = bank_offset_addr + normalized_addr;
            self.ram_data.set(offset, value);
        } else {
            return Err(Fault::UnmappedWrite(addr));
        }
        Ok(())
    }
}

/// A cartridge of one of the supported kinds.
pub enum Cartridge {
    RomOnly(RomOnly),
    Mbc1(MBC1),
}

impl View for Cartridge {
    type V = CartridgeModel;

    open spec fn view(&self) -> CartridgeModel {
        match self {
            Cartridge::RomOnly(c) => CartridgeModel::RomOnly { rom: c@ },
            Cartridge::Mbc1(c) => CartridgeModel::Mbc1(c@),
        }
    }
}

impl Cartridge {
    pub open spec fn wf(&self) -> bool {
        self@.inv()
    }

    /// Whether the cartridge keeps nothing of what is written to it.
    pub fn ignores_writes(&self) -> (r: bool)
        ensures
            r == self@.ignores_writes(),
    {
        match self {
            Cartridge::RomOnly(_) => true,
            Cartridge::Mbc1(_) => false,
        }
    }

    pub fn read(&self, address: Address) -> (r: Result<u8, Fault>)
        requires
            self.wf(),
        ensures
            r == self@.read(address.addr),
    {
        match self {
            Cartridge::RomOnly(c) => c.read(address),
            Cartridge::Mbc1(c) => c.read(address),
        }
    }

    pub fn write(&mut self, address: Address, value: u8) -> (r: Result<(), Fault>)
        requires
            old(self).wf(),
        ensures
            final(self).wf(),
            match old(self)@.write(address.addr, value) {
                Ok(m) => r == Ok::<(), Fault>(()) && final(self)@ == m,
                Err(e) => r == Err::<(), Fault>(e) && final(self)@ == old(self)@,
            },
    {
        match self {
            Cartridge::RomOnly(c) => {
                c.write(address, value);
                Ok(())
            },
            Cartridge::Mbc1(c) => c.write(address, value),
        }
    }
}

/// The cartridge of kind `cartridge_type` around the image `rom_data`;
/// nothing for the kinds that this core does not support.
pub fn create_for_cartridge_type(cartridge_type: CartridgeType, rom_data: Vec<u8>) -> (r: Option<
    Cartridge,
>)
    ensures
        r is Some <==> (cartridge_type == CartridgeType::RomOnly || cartridge_type
            == CartridgeType::MBC1),
        r matches Some(c) ==> c.wf() && Some(c@) == CartridgeModel::fresh(
            cartridge_type,
            rom_data@,
        ),
{
    match cartridge_type {
        CartridgeType::RomOnly => Some(Cartridge::RomOnly(RomOnly::new(rom_data))),
        CartridgeType::MBC1 => Some(Cartridge::Mbc1(MBC1::new(rom_data))),
        _ => None,
    }
}

} // verus!
