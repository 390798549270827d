use gameboy::cartridge::{create_for_cartridge_type, Cartridge};
use gameboy::address::Address;
use gameboy::fault::Fault;
use gameboy::header::{
    CartridgeType, FlagCGB, FlagSGB, Header, HeaderError, RamSize, RomSize,
};

fn rom_with_title(title: &[u8]) -> Vec<u8> {
    let mut rom = vec![0u8; 0x8000];
    for (i, b) in title.iter().enumerate() {
        rom[0x0134 + i] = *b;
    }
    rom
}

#[test]
fn header_of_a_plain_rom() {
    let rom = rom_with_title(b"TESTGAME");
    let header = Header::read_from_rom(&rom).unwrap();
    assert_eq!(header.title, "TESTGAME");
    assert_eq!(header.manufacturer_code, None);
    assert_eq!(header.cgb_flag, FlagCGB::WorksWithOld);
    assert_eq!(header.license_code, None);
    assert_eq!(header.sgb_flag, FlagSGB::NoSGB);
    assert_eq!(header.cartridge_type, CartridgeType::RomOnly);
    assert_eq!(header.rom_size, RomSize::NoBanking);
    assert_eq!(header.ram_size, RamSize::NoBanks);
}

#[test]
fn title_stops_at_the_first_zero_byte() {
    let mut rom = rom_with_title(b"AB");
    rom[0x0137] = b'Z';
    let header = Header::read_from_rom(&rom).unwrap();
    assert_eq!(header.title, "AB");
    let empty = Header::read_from_rom(&rom_with_title(b"")).unwrap();
    assert_eq!(empty.title, "");
}

#[test]
fn title_may_fill_the_whole_field() {
    let rom = rom_with_title(b"0123456789ABCDEF");
    let header = Header::read_from_rom(&rom).unwrap();
    assert_eq!(header.title, "0123456789ABCDEF");
    assert_eq!(header.manufacturer_code.as_deref(), Some("BCDE"));
}

#[test]
fn manufacturer_code_is_read_when_any_of_its_bytes_is_set() {
    let mut rom = rom_with_title(b"GAME");
    rom[0x013F] = b'A';
    rom[0x0140] = b'B';
    rom[0x0141] = b'C';
    rom[0x0142] = b'D';
    let header = Header::read_from_rom(&rom).unwrap();
    assert_eq!(header.manufacturer_code.as_deref(), Some("ABCD"));
    assert_eq!(header.title, "GAME");
}

#[test]
fn header_codes_are_mapped() {
    let mut rom = rom_with_title(b"MBC");
    rom[0x0143] = 0xC0;
    rom[0x0146] = 0x03;
    rom[0x0147] = 0x01;
    rom[0x0148] = 0x05;
    rom[0x0149] = 0x03;
    let header = Header::read_from_rom(&rom).unwrap();
    assert_eq!(header.cgb_flag, FlagCGB::RequiresNew);
    assert_eq!(header.sgb_flag, FlagSGB::SGB);
    assert_eq!(header.cartridge_type, CartridgeType::MBC1);
    assert_eq!(header.rom_size, RomSize::WithBanking(64));
    assert_eq!(header.ram_size, RamSize::Size { bank_count: 4, bank_size_kb: 8 });
    rom[0x0143] = 0x80;
    assert_eq!(Header::read_from_rom(&rom).unwrap().cgb_flag, FlagCGB::WorksWithOld);
}

#[test]
fn header_errors_come_in_field_order() {
    assert_eq!(
        Header::read_from_rom(&vec![0u8; 0x014F]).unwrap_err(),
        HeaderError::TooShort(0x014F)
    );
    assert_eq!(Header::read_from_rom(&Vec::new()).unwrap_err(), HeaderError::TooShort(0));
    assert!(Header::read_from_rom(&vec![0u8; 0x0150]).is_ok());

    let mut rom = rom_with_title(b"GAME");
    rom[0x0149] = 0x04;
    assert_eq!(Header::read_from_rom(&rom).unwrap_err(), HeaderError::InvalidRamSize(0x04));
    rom[0x0148] = 0x08;
    assert_eq!(Header::read_from_rom(&rom).unwrap_err(), HeaderError::InvalidRomSize(0x08));
    rom[0x0147] = 0x04;
    assert_eq!(Header::read_from_rom(&rom).unwrap_err(), HeaderError::InvalidCartridgeType(0x04));
    rom[0x0146] = 0x01;
    assert_eq!(Header::read_from_rom(&rom).unwrap_err(), HeaderError::InvalidSgbFlag(0x01));
    rom[0x0114] = 0xFF;
    rom[0x0145] = 0x01;
    assert_eq!(Header::read_from_rom(&rom).unwrap_err(), HeaderError::InvalidLicenseCode);
    rom[0x0140] = 0xFF;
    assert_eq!(Header::read_from_rom(&rom).unwrap_err(), HeaderError::InvalidManufacturerCode);
    rom[0x0135] = 0xFF;
    assert_eq!(Header::read_from_rom(&rom).unwrap_err(), HeaderError::InvalidTitle);
}

#[test]
fn license_code_needs_both_of_its_end_bytes() {
    let mut rom = rom_with_title(b"GAME");
    for i in 0x0114..0x0134 {
        rom[i] = b'x';
    }
    rom[0x0144] = b'0';
    rom[0x0145] = b'1';
    let header = Header::read_from_rom(&rom).unwrap();
    let code = header.license_code.unwrap();
    assert_eq!(code.len(), 0x0146 - 0x0114);
    assert!(code.starts_with("xxxx"));
    assert!(code.ends_with("01"));
    rom[0x0145] = 0;
    assert_eq!(Header::read_from_rom(&rom).unwrap().license_code, None);
    rom[0x0145] = b'1';
    rom[0x0114] = 0;
    assert_eq!(Header::read_from_rom(&rom).unwrap().license_code, None);
}

#[test]
fn cartridge_type_codes() {
    assert_eq!(CartridgeType::from_byte(0x00), Some(CartridgeType::RomOnly));
    assert_eq!(CartridgeType::from_byte(0x01), Some(CartridgeType::MBC1));
    assert_eq!(CartridgeType::from_byte(0x03), Some(CartridgeType::MBC1RamBattery));
    assert_eq!(CartridgeType::from_byte(0x13), Some(CartridgeType::MBC3RamBattery));
    assert_eq!(CartridgeType::from_byte(0x1E), Some(CartridgeType::MBC5RumbleRamBattery));
    assert_eq!(CartridgeType::from_byte(0xFF), Some(CartridgeType::HuC1RamBattery));
    for code in [0x04u8, 0x07, 0x0A, 0x0E, 0x14, 0x18, 0x1F, 0x20, 0xFB] {
        assert_eq!(CartridgeType::from_byte(code), None);
    }
    let known = (0..=255u8).filter(|b| CartridgeType::from_byte(*b).is_some()).count();
    assert_eq!(known, 29);
}

#[test]
fn size_codes() {
    assert_eq!(RomSize::from_byte(0x00), Some(RomSize::NoBanking));
    for code in 1..=7u8 {
        assert_eq!(RomSize::from_byte(code), Some(RomSize::WithBanking(2usize << code)));
    }
    assert_eq!(RomSize::from_byte(0x52), Some(RomSize::WithBanking(72)));
    assert_eq!(RomSize::from_byte(0x53), Some(RomSize::WithBanking(80)));
    assert_eq!(RomSize::from_byte(0x54), Some(RomSize::WithBanking(96)));
    assert_eq!(RomSize::from_byte(0x08), None);
    assert_eq!(RamSize::from_byte(0x00), Some(RamSize::NoBanks));
    assert_eq!(RamSize::from_byte(0x01), Some(RamSize::Size { bank_count: 1, bank_size_kb: 2 }));
    assert_eq!(RamSize::from_byte(0x02), Some(RamSize::Size { bank_count: 1, bank_size_kb: 8 }));
    assert_eq!(RamSize::from_byte(0x03), Some(RamSize::Size { bank_count: 4, bank_size_kb: 8 }));
    assert_eq!(RamSize::from_byte(0x04), None);
}

fn numbered_rom(banks: usize) -> Vec<u8> {
    let mut rom = vec![0u8; banks * 0x4000];
    for bank in 0..banks {
        for offset in 0..0x4000 {
            rom[bank * 0x4000 + offset] = (bank as u8) ^ (offset as u8);
        }
    }
    rom
}

fn read(cartridge: &Cartridge, addr: u16) -> Result<u8, Fault> {
    cartridge.read(Address::new(addr))
}

fn write(cartridge: &mut Cartridge, addr: u16, value: u8) {
    cartridge.write(Address::new(addr), value).unwrap();
}

#[test]
fn only_two_cartridge_kinds_are_built() {
    assert!(create_for_cartridge_type(CartridgeType::RomOnly, vec![0; 0x8000]).is_some());
    assert!(create_for_cartridge_type(CartridgeType::MBC1, vec![0; 0x8000]).is_some());
    assert!(create_for_cartridge_type(CartridgeType::MBC1Ram, vec![0; 0x8000]).is_none());
    assert!(create_for_cartridge_type(CartridgeType::MBC3, vec![0; 0x8000]).is_none());
    assert!(create_for_cartridge_type(CartridgeType::HuC3, vec![0; 0x8000]).is_none());
}

#[test]
fn plain_rom_mirrors_the_image_and_ignores_writes() {
    let rom = numbered_rom(2);
    let mut cartridge = create_for_cartridge_type(CartridgeType::RomOnly, rom.clone()).unwrap();
    for addr in [0x0000u16, 0x0001, 0x00FF, 0x0100, 0x3FFF, 0x4000, 0x7FFF] {
        assert_eq!(read(&cartridge, addr), Ok(rom[addr as usize]));
    }
    write(&mut cartridge, 0x2000, 0x05);
    write(&mut cartridge, 0x4000, 0x55);
    write(&mut cartridge, 0xA000, 0x55);
    for addr in [0x0000u16, 0x2000, 0x4000, 0x7FFF] {
        assert_eq!(read(&cartridge, addr), Ok(rom[addr as usize]));
    }
    assert_eq!(read(&cartridge, 0x8000), Err(Fault::UnmappedRead(0x8000)));
    assert_eq!(read(&cartridge, 0xA000), Err(Fault::UnmappedRead(0xA000)));
    let short = create_for_cartridge_type(CartridgeType::RomOnly, vec![7; 0x0200]).unwrap();
    assert_eq!(read(&short, 0x01FF), Ok(7));
    assert_eq!(read(&short, 0x0200), Err(Fault::UnmappedRead(0x0200)));
}

#[test]
fn bank_controller_switches_rom_banks() {
    let rom = numbered_rom(0x80);
    let mut cartridge = create_for_cartridge_type(CartridgeType::MBC1, rom.clone()).unwrap();
    // Bank 1 is selected at first.
    assert_eq!(read(&cartridge, 0x0005), Ok(rom[0x0005]));
    assert_eq!(read(&cartridge, 0x4005), Ok(rom[0x4000 + 5]));
    write(&mut cartridge, 0x2000, 0x02);
    assert_eq!(read(&cartridge, 0x4005), Ok(rom[2 * 0x4000 + 5]));
    assert_eq!(read(&cartridge, 0x7FFF), Ok(rom[2 * 0x4000 + 0x3FFF]));
    assert_eq!(read(&cartridge, 0x0005), Ok(rom[0x0005]));
    write(&mut cartridge, 0x3FFF, 0x1F);
    assert_eq!(read(&cartridge, 0x4000), Ok(rom[0x1F * 0x4000]));
    // Only the low five bits count.
    write(&mut cartridge, 0x2000, 0xE3);
    assert_eq!(read(&cartridge, 0x4000), Ok(rom[3 * 0x4000]));
    // Bank zero cannot be selected here.
    write(&mut cartridge, 0x2000, 0x00);
    assert_eq!(read(&cartridge, 0x4000), Ok(rom[0x4000]));
    write(&mut cartridge, 0x2000, 0x20);
    assert_eq!(read(&cartridge, 0x4000), Ok(rom[0x4000]));
}

#[test]
fn bank_controller_upper_bits_and_modes() {
    let rom = numbered_rom(0x80);
    let mut cartridge = create_for_cartridge_type(CartridgeType::MBC1, rom.clone()).unwrap();
    write(&mut cartridge, 0x2000, 0x05);
    write(&mut cartridge, 0x4000, 0x01);
    assert_eq!(read(&cartridge, 0x4000), Ok(rom[0x25 * 0x4000]));
    write(&mut cartridge, 0x5FFF, 0x03);
    assert_eq!(read(&cartridge, 0x4001), Ok(rom[0x65 * 0x4000 + 1]));
    // The primary number can change under the upper bits.
    write(&mut cartridge, 0x2000, 0x00);
    assert_eq!(read(&cartridge, 0x4000), Ok(rom[0x61 * 0x4000]));
    // In RAM-banking mode the upper bits do not count for the ROM.
    write(&mut cartridge, 0x6000, 0x01);
    assert_eq!(read(&cartridge, 0x4000), Ok(rom[0x01 * 0x4000]));
    write(&mut cartridge, 0x6000, 0x00);
    assert_eq!(read(&cartridge, 0x4000), Ok(rom[0x61 * 0x4000]));
    // Past the end of the image nothing answers.
    let mut small = create_for_cartridge_type(CartridgeType::MBC1, numbered_rom(4)).unwrap();
    write(&mut small, 0x2000, 0x04);
    assert_eq!(read(&small, 0x4000), Err(Fault::UnmappedRead(0x4000)));
    assert_eq!(read(&small, 0x9000), Err(Fault::UnmappedRead(0x9000)));
    assert_eq!(
        small.write(Address::new(0x8000), 0),
        Err(Fault::UnmappedWrite(0x8000))
    );
}

#[test]
fn bank_controller_external_ram() {
    let mut cartridge = create_for_cartridge_type(CartridgeType::MBC1, numbered_rom(4)).unwrap();
    // Disabled RAM reads as all ones and takes no write.
    assert_eq!(read(&cartridge, 0xA000), Ok(0xFF));
    write(&mut cartridge, 0xA000, 0x12);
    write(&mut cartridge, 0x0000, 0x0A);
    assert_eq!(read(&cartridge, 0xA000), Ok(0x00));
    write(&mut cartridge, 0xA000, 0x12);
    write(&mut cartridge, 0xBFFF, 0x34);
    assert_eq!(read(&cartridge, 0xA000), Ok(0x12));
    assert_eq!(read(&cartridge, 0xBFFF), Ok(0x34));
    // Any value with the low nibble 0xA enables.
    write(&mut cartridge, 0x1FFF, 0x3A);
    assert_eq!(read(&cartridge, 0xA000), Ok(0x12));
    // In RAM-banking mode the second register picks the bank.
    write(&mut cartridge, 0x6000, 0x01);
    write(&mut cartridge, 0x4000, 0x03);
    assert_eq!(read(&cartridge, 0xA000), Ok(0x00));
    write(&mut cartridge, 0xA000, 0x77);
    write(&mut cartridge, 0xBFFF, 0x78);
    assert_eq!(read(&cartridge, 0xBFFF), Ok(0x78));
    write(&mut cartridge, 0x4000, 0x04);
    assert_eq!(read(&cartridge, 0xA000), Ok(0x12));
    write(&mut cartridge, 0x4000, 0x03);
    assert_eq!(read(&cartridge, 0xA000), Ok(0x77));
    write(&mut cartridge, 0x0000, 0x00);
    assert_eq!(read(&cartridge, 0xA000), Ok(0xFF));
}
