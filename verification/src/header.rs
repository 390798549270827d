//! The descriptive block that every cartridge image carries at `0x0100`.

use vstd::prelude::*;
use vstd::utf8::{decode_utf8, valid_utf8};
use crate::text::{copy_range, string_from_utf8};

verus! {

/// An image shorter than this holds no complete header.
pub const HEADER_END: usize = 0x0150;

#[derive(Debug, Clone, Copy, PartialEq, Eq, Structural)]
pub enum FlagCGB {
    WorksWithOld,
    RequiresNew,
}

#[derive(Debug)]
pub struct TitleInfo {
    pub title: String,
    pub manufacturer_code: Option<String>,
    pub flag: FlagCGB,
}

#[derive(Debug, Clone, Copy, PartialEq, Eq, Structural)]
pub enum FlagSGB {
    NoSGB,
    SGB,
}

#[derive(Debug, Copy, Clone, PartialEq, Eq, Structural)]
pub enum CartridgeType {
    RomOnly,
    MBC1,
    MBC1Ram,
    MBC1RamBattery,
    MBC2,
    MBC2Battery,
    RomRam,
    RomRamBattery,
    MMM01,
    Mmm01Ram,
    Mmm01RamBattery,
    MBC3TimerBattery,
    MBC3TimerRamBattery,
    MBC3,
    MBC3Ram,
    MBC3RamBattery,
    MBC4,
    MBC4Ram,
    MBC4RamBattery,
    MBC5,
    MBC5Ram,
    MBC5RamBattery,
    MBC5Rumble,
    MBC5RumbleRam,
    MBC5RumbleRamBattery,
    PocketCamera,
    BandaiTama5,
    HuC3,
    HuC1RamBattery,
}

#[derive(Debug, Copy, Clone, PartialEq, Eq, Structural)]
pub enum RomSize {
    NoBanking,
    WithBanking(usize),
}

#[derive(Debug, Copy, Clone, PartialEq, Eq, Structural)]
pub enum RamSize {
    NoBanks,
    Size { bank_count: usize, bank_size_kb: usize },
}

/// Why an image's header was turned down.
#[derive(Debug, Copy, Clone, PartialEq, Eq, Structural)]
pub enum HeaderError {
    /// The image has this many bytes, fewer than a header needs.
    TooShort(usize),
    /// The title is not valid UTF-8.
    InvalidTitle,
    /// The manufacturer code is not valid UTF-8.
    InvalidManufacturerCode,
    /// The licence code is not valid UTF-8.
    InvalidLicenseCode,
    InvalidSgbFlag(u8),
    InvalidCartridgeType(u8),
    InvalidRomSize(u8),
    InvalidRamSize(u8),
}

#[derive(Debug)]
pub struct Header {
    pub title: String,
    pub manufacturer_code: Option<String>,
    pub cgb_flag: FlagCGB,
    pub license_code: Option<String>,
    pub sgb_flag: FlagSGB,
    pub cartridge_type: CartridgeType,
    pub rom_size: RomSize,
    pub ram_size: RamSize,
}

pub open spec fn spec_cartridge_type(byte: u8) -> Option<CartridgeType> {
    if byte == 0x00 {
        Some(CartridgeType::RomOnly)
    } else if byte == 0x01 {
        Some(CartridgeType::MBC1)
    } else if byte == 0x02 {
        Some(CartridgeType::MBC1Ram)
    } else if byte == 0x03 {
        Some(CartridgeType::MBC1RamBattery)
    } else if byte == 0x05 {
        Some(CartridgeType::MBC2)
    } else if byte == 0x06 {
        Some(CartridgeType::MBC2Battery)
    } else if byte == 0x08 {
        Some(CartridgeType::RomRam)
    } else if byte == 0x09 {
        Some(CartridgeType::RomRamBattery)
    } else if byte == 0x0B {
        Some(CartridgeType::MMM01)
    } else if byte == 0x0C {
        Some(CartridgeType::Mmm01Ram)
    } else if byte == 0x0D {
        Some(CartridgeType::Mmm01RamBattery)
    } else if byte == 0x0F {
        Some(CartridgeType::MBC3TimerBattery)
    } else if byte == 0x10 {
        Some(CartridgeType::MBC3TimerRamBattery)
    } else if byte == 0x11 {
        Some(CartridgeType::MBC3)
    } else if byte == 0x12 {
        Some(CartridgeType::MBC3Ram)
    } else if byte == 0x13 {
        Some(CartridgeType::MBC3RamBattery)
    } else if byte == 0x15 {
        Some(CartridgeType::MBC4)
    } else if byte == 0x16 {
        Some(CartridgeType::MBC4Ram)
    } else if byte == 0x17 {
        Some(CartridgeType::MBC4RamBattery)
    } else if byte == 0x19 {
        Some(CartridgeType::MBC5)
    } else if byte == 0x1A {
        Some(CartridgeType::MBC5Ram)
    } else if byte == 0x1B {
        Some(CartridgeType::MBC5RamBattery)
    } else if byte == 0x1C {
        Some(CartridgeType::MBC5Rumble)
    } else if byte == 0x1D {
        Some(CartridgeType::MBC5RumbleRam)
    } else if byte == 0x1E {
        Some(CartridgeType::MBC5RumbleRamBattery)
    } else if byte == 0xFC {
        Some(CartridgeType::PocketCamera)
    } else if byte == 0xFD {
        Some(CartridgeType::BandaiTama5)
    } else if byte == 0xFE {
        Some(CartridgeType::HuC3)
    } else if byte == 0xFF {
        Some(CartridgeType::HuC1RamBattery)
    } else {
        None
    }
}

impl CartridgeType {
    /// The cartridge kind that the type code at `0x0147` names.
    pub fn from_byte(byte: u8) -> (r: Option<CartridgeType>)
        ensures
            r == spec_cartridge_type(byte),
    {
        match byte {
            0x00 => Some(CartridgeType::RomOnly),
            0x01 => Some(CartridgeType::MBC1),
            0x02 => Some(CartridgeType::MBC1Ram),
            0x03 => Some(CartridgeType::MBC1RamBattery),
            0x05 => Some(CartridgeType::MBC2),
            0x06 => Some(CartridgeType::MBC2Battery),
            0x08 => Some(CartridgeType::RomRam),
            0x09 => Some(CartridgeType::RomRamBattery),
            0x0B => Some(CartridgeType::MMM01),
            0x0C => Some(CartridgeType::Mmm01Ram),
            0x0D => Some(CartridgeType::Mmm01RamBattery),
            0x0F => Some(CartridgeType::MBC3TimerBattery),
            0x10 => Some(CartridgeType::MBC3TimerRamBattery),
            0x11 => Some(CartridgeType::MBC3),
            0x12 => Some(CartridgeType::MBC3Ram),
            0x13 => Some(CartridgeType::MBC3RamBattery),
            0x15 => Some(CartridgeType::MBC4),
            0x16 => Some(CartridgeType::MBC4Ram),
            0x17 => Some(CartridgeType::MBC4RamBattery),
            0x19 => Some(CartridgeType::MBC5),
            0x1A => Some(CartridgeType::MBC5Ram),
            0x1B => Some(CartridgeType::MBC5RamBattery),
            0x1C => Some(CartridgeType::MBC5Rumble),
            0x1D => Some(CartridgeType::MBC5RumbleRam),
            0x1E => Some(CartridgeType::MBC5RumbleRamBattery),
            0xFC => Some(CartridgeType::PocketCamera),
            0xFD => Some(CartridgeType::BandaiTama5),
            0xFE => Some(CartridgeType::HuC3),
            0xFF => Some(CartridgeType::HuC1RamBattery),
            _ => None,
        }
    }
}

/// The number of 16 KiB banks that the size code at `0x0148` stands for:
/// `2 << code` up to code 7, and three odd sizes.
pub open spec fn spec_rom_banks(byte: u8) -> Option<int> {
    if byte == 0 {
        Some(2)
    } else if byte == 1 {
        Some(4)
    } else if byte == 2 {
        Some(8)
    } else if byte == 3 {
        Some(16)
    } else if byte == 4 {
        Some(32)
    } else if byte == 5 {
        Some(64)
    } else if byte == 6 {
        Some(128)
    } else if byte == 7 {
        Some(256)
    } else if byte == 0x52 {
        Some(72)
    } else if byte == 0x53 {
        Some(80)
    } else if byte == 0x54 {
        Some(96)
    } else {
        None
    }
}

pub open spec fn spec_rom_size(byte: u8) -> Option<RomSize> {
    match spec_rom_banks(byte) {
        None => None,
        Some(banks) => if banks == 2 {
            Some(RomSize::NoBanking)
        } else {
            Some(RomSize::WithBanking(banks as usize))
        },
    }
}

impl RomSize {
    pub fn from_byte(byte: u8) -> (r: Option<RomSize>)
        ensures
            r == spec_rom_size(byte),
    {
        match byte {
            0x00 => Some(RomSize::NoBanking),
            0x01 => Some(RomSize::WithBanking(4)),
            0x02 => Some(RomSize::WithBanking(8)),
            0x03 => Some(RomSize::WithBanking(16)),
            0x04 => Some(RomSize::WithBanking(32)),
            0x05 => Some(RomSize::WithBanking(64)),
            0x06 => Some(RomSize::WithBanking(128)),
            0x07 => Some(RomSize::WithBanking(256)),
            0x52 => Some(RomSize::WithBanking(72)),
            0x53 => Some(RomSize::WithBanking(80)),
            0x54 => Some(RomSize::WithBanking(96)),
            _ => None,
        }
    }
}

pub open spec fn spec_ram_size(byte: u8) -> Option<RamSize> {
    if byte == 0 {
        Some(RamSize::NoBanks)
    } else if byte == 1 {
        Some(RamSize::Size { bank_count: 1, bank_size_kb: 2 })
    } else if byte == 2 {
        Some(RamSize::Size { bank_count: 1, bank_size_kb: 8 })
    } else if byte == 3 {
        Some(RamSize::Size { bank_count: 4, bank_size_kb: 8 })
    } else {
        None
    }
}

impl RamSize {
    pub fn from_byte(byte: u8) -> (r: Option<RamSize>)
        ensures
            r == spec_ram_size(byte),
    {
        match byte {
            0x00 => Some(RamSize::NoBanks),
            0x01 => Some(RamSize::Size { bank_count: 1, bank_size_kb: 2 }),
            0x02 => Some(RamSize::Size { bank_count: 1, bank_size_kb: 8 }),
            0x03 => Some(RamSize::Size { bank_count: 4, bank_size_kb: 8 }),
            _ => None,
        }
    }
}

/// The first position at or after `from` where `bytes` holds zero, or the
/// length of `bytes` if there is none.
pub open spec fn spec_nul_position(bytes: Seq<u8>, from: int) -> int
    decreases bytes.len() - from,
{
    if from < 0 || from >= bytes.len() {
        bytes.len() as int
    } else if bytes[from] == 0 {
        from
    } else {
        spec_nul_position(bytes, from + 1)
    }
}

/// The title field up to, and without, its first zero byte.
pub open spec fn spec_title_bytes(rom: Seq<u8>) -> Seq<u8> {
    let field = rom.subrange(0x0134, 0x0144);
    field.subrange(0, spec_nul_position(field, 0))
}

pub open spec fn spec_manufacturer_bytes(rom: Seq<u8>) -> Seq<u8> {
    rom.subrange(0x013F, 0x0143)
}

pub open spec fn spec_has_manufacturer_code(rom: Seq<u8>) -> bool {
    exists|i: int| 0x013F <= i < 0x0143 && rom[i] != 0
}

pub open spec fn spec_license_bytes(rom: Seq<u8>) -> Seq<u8> {
    rom.subrange(0x0114, 0x0146)
}

pub open spec fn spec_has_license_code(rom: Seq<u8>) -> bool {
    rom[0x0114] != 0 && rom[0x0145] != 0
}

pub open spec fn spec_cgb_flag(byte: u8) -> FlagCGB {
    if byte == 0xC0 {
        FlagCGB::RequiresNew
    } else {
        FlagCGB::WorksWithOld
    }
}

pub open spec fn spec_sgb_flag(byte: u8) -> Option<FlagSGB> {
    if byte == 0x00 {
        Some(FlagSGB::NoSGB)
    } else if byte == 0x03 {
        Some(FlagSGB::SGB)
    } else {
        None
    }
}

/// Why the title block of `rom` is turned down, if it is.
pub open spec fn spec_title_error(rom: Seq<u8>) -> Option<HeaderError> {
    if !valid_utf8(spec_title_bytes(rom)) {
        Some(HeaderError::InvalidTitle)
    } else if spec_has_manufacturer_code(rom) && !valid_utf8(spec_manufacturer_bytes(rom)) {
        Some(HeaderError::InvalidManufacturerCode)
    } else {
        None
    }
}

/// Why the header of `rom` is turned down, if it is: the first check that
/// fails, in the order of the fields.
pub open spec fn spec_header_error(rom: Seq<u8>) -> Option<HeaderError> {
    if rom.len() < HEADER_END {
        Some(HeaderError::TooShort(rom.len() as usize))
    } else if spec_title_error(rom) is Some {
        spec_title_error(rom)
    } else if spec_has_license_code(rom) && !valid_utf8(spec_license_bytes(rom)) {
        Some(HeaderError::InvalidLicenseCode)
    } else if spec_sgb_flag(rom[0x0146]) is None {
        Some(HeaderError::InvalidSgbFlag(rom[0x0146]))
    } else if spec_cartridge_type(rom[0x0147]) is None {
        Some(HeaderError::InvalidCartridgeType(rom[0x0147]))
    } else if spec_rom_size(rom[0x0148]) is None {
        Some(HeaderError::InvalidRomSize(rom[0x0148]))
    } else if spec_ram_size(rom[0x0149]) is None {
        Some(HeaderError::InvalidRamSize(rom[0x0149]))
    } else {
        None
    }
}

impl TitleInfo {
    /// Whether `self` is what the title block of `rom` says.
    pub open spec fn describes(&self, rom: Seq<u8>) -> bool {
        &&& self.title@ == decode_utf8(spec_title_bytes(rom))
        &&& self.manufacturer_code is Some <==> spec_has_manufacturer_code(rom)
        &&& self.manufacturer_code matches Some(code) ==> code@ == decode_utf8(
            spec_manufacturer_bytes(rom),
        )
        &&& self.flag == spec_cgb_flag(rom[0x0143])
    }
}

impl Header {
    /// Whether `self` is what the header of `rom` says.
    pub open spec fn describes(&self, rom: Seq<u8>) -> bool {
        &&& self.title@ == decode_utf8(spec_title_bytes(rom))
        &&& self.manufacturer_code is Some <==> spec_has_manufacturer_code(rom)
        &&& self.manufacturer_code matches Some(code) ==> code@ == decode_utf8(
            spec_manufacturer_bytes(rom),
        )
        &&& self.cgb_flag == spec_cgb_flag(rom[0x0143])
        &&& self.license_code is Some <==> spec_has_license_code(rom)
        &&& self.license_code matches Some(code) ==> code@ == decode_utf8(spec_license_bytes(rom))
        &&& Some(self.sgb_flag) == spec_sgb_flag(rom[0x0146])
        &&& Some(self.cartridge_type) == spec_cartridge_type(rom[0x0147])
        &&& Some(self.rom_size) == spec_rom_size(rom[0x0148])
        &&& Some(self.ram_size) == spec_ram_size(rom[0x0149])
    }
}

proof fn lemma_nul_position(bytes: Seq<u8>, from: int, at: int)
    requires
        0 <= from <= at <= bytes.len(),
        forall|j: int| from <= j < at ==> bytes[j] != 0,
        at < bytes.len() ==> bytes[at] == 0,
    ensures
        spec_nul_position(bytes, from) == at,
    decreases at - from,
{
    if from < at {
        lemma_nul_position(bytes, from + 1, at);
    }
}

#[verifier::rlimit(30)]
fn read_title_info(data: &Vec<u8>) -> (r: Result<TitleInfo, HeaderError>)
    requires
        data.len() >= HEADER_END,
    ensures
        match r {
            Ok(info) => spec_title_error(data@) is None && info.describes(data@),
            Err(e) => spec_title_error(data@) == Some(e),
        },
{
    let field = copy_range(data, 0x0134, 0x0144);
    let mut end: usize = 0;
    while end < field.len() && field[end] != 0x00
        invariant
            end <= field.len(),
            forall|j: int| 0 <= j < end ==> field@[j] != 0,
        decreases field.len() - end,
    {
        end += 1;
    }
    proof {
        lemma_nul_position(field@, 0, end as int);
    }
    let title_bytes = copy_range(&field, 0, end);
    let title = match string_from_utf8(title_bytes) {
        Some(title) => title,
        None => {
            return Err(HeaderError::InvalidTitle);
        },
    };

    let mut has_manufacturer_code = false;
    let mut i: usize = 0x013F;
    while i < 0x0143
        invariant
            0x013F <= i <= 0x0143,
            data.len() >= HEADER_END,
            has_manufacturer_code <==> exists|j: int| 0x013F <= j < i && data@[j] != 0,
        decreases 0x0143 - i,
    {
        if data[i] != 0x00 {
            has_manufacturer_code = true;
        }
        i += 1;
    }
    let manufacturer_code = if has_manufacturer_code {
        match string_from_utf8(copy_range(data, 0x013F, 0x0143)) {
            Some(code) => Some(code),
            None => {
                return Err(HeaderError::InvalidManufacturerCode);
            },
        }
    } else {
        None
    };

    let flag = if data[0x0143] == 0xC0 {
        FlagCGB::RequiresNew
    } else {
        FlagCGB::WorksWithOld
    };

    Ok(TitleInfo { title, manufacturer_code, flag })
}

impl Header {
    /// Reads the header of a cartridge image. The image is accepted exactly
    /// when it is long enough, its text fields are UTF-8 and its codes are
    /// known ones; a header that asks for the colour model is read like any
    /// other and says so in `cgb_flag`.
    #[verifier::rlimit(30)]
    pub fn read_from_rom(rom_data: &Vec<u8>) -> (r: Result<Header, HeaderError>)
        ensures
            match r {
                Ok(header) => spec_header_error(rom_data@) is None && header.describes(rom_data@),
                Err(e) => spec_header_error(rom_data@) == Some(e),
            },
    {
        if rom_data.len() < HEADER_END {
            return Err(HeaderError::TooShort(rom_data.len()));
        }
        let title_info = read_title_info(rom_data)?;
        let license_code = if rom_data[0x0114] == 0x00 || rom_data[0x0145] == 0x00 {
            None
        } else {
            match string_from_utf8(copy_range(rom_data, 0x0114, 0x0146)) {
                Some(code) => Some(code),
                None => {
                    return Err(HeaderError::InvalidLicenseCode);
                },
            }
        };

        let sgb_flag = match rom_data[0x0146] {
            0x00 => FlagSGB::NoSGB,
            0x03 => FlagSGB::SGB,
            _ => {
                return Err(HeaderError::InvalidSgbFlag(rom_data[0x0146]));
            },
        };

        let cartridge_type = match CartridgeType::from_byte(rom_data[0x0147]) {
            Some(t) => t,
            None => {
                return Err(HeaderError::InvalidCartridgeType(rom_data[0x0147]));
            },
        };

        let rom_size = match RomSize::from_byte(rom_data[0x0148]) {
            Some(s) => s,
            None => {
                return Err(HeaderError::InvalidRomSize(rom_data[0x0148]));
            },
        };

        let ram_size = match RamSize::from_byte(rom_data[0x0149]) {
            Some(s) => s,
            None => {
                return Err(HeaderError::InvalidRamSize(rom_data[0x0149]));
            },
        };

        Ok(
            Header {
                title: title_info.title,
                manufacturer_code: title_info.manufacturer_code,
                cgb_flag: title_info.flag,
                license_code,
                sgb_flag,
                cartridge_type,
                rom_size,
                ram_size,
            },
        )
    }
}

} // verus!
