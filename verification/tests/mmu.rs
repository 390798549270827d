use gameboy::address::Address;
use gameboy::cartridge::{create_for_cartridge_type, Cartridge};
use gameboy::fault::Fault;
use gameboy::header::CartridgeType;
use gameboy::joypad_events::{JoypadButton, JoypadEvent};
use gameboy::mmu::{interrupt_vector, InterruptSource, Notice, Word, BOOT_ROM, MMU};

fn cartridge() -> Cartridge {
    let mut rom = vec![0u8; 0x8000];
    for (i, b) in rom.iter_mut().enumerate() {
        *b = (i as u8) ^ 0xA5;
    }
    create_for_cartridge_type(CartridgeType::RomOnly, rom).unwrap()
}

fn mmu() -> MMU {
    MMU::new(cartridge(), false)
}

fn rom_byte(addr: u16) -> u8 {
    (addr as u8) ^ 0xA5
}

fn read(mmu: &mut MMU, addr: u16) -> Result<u8, Fault> {
    mmu.read(Address::new(addr))
}

fn write(mmu: &mut MMU, addr: u16, value: u8) -> Result<(), Fault> {
    mmu.write(Address::new(addr), value)
}

#[test]
fn words_split_into_bytes() {
    let word = Word::new(0xBEEF);
    assert_eq!(word.value, 0xBEEF);
    assert_eq!(word.low(), 0xEF);
    assert_eq!(word.high(), 0xBE);
    assert_eq!(Word::compose_new(0x12, 0x34).value, 0x1234);
    for value in [0x0000u16, 0x00FF, 0xFF00, 0xFFFF, 0x8001] {
        let w = Word::new(value);
        assert_eq!(Word::compose_new(w.high(), w.low()), w);
    }
}

#[test]
fn interrupt_sources_have_rank_and_vector() {
    let sources = [
        InterruptSource::VBlank,
        InterruptSource::Lcd,
        InterruptSource::Timer,
        InterruptSource::Serial,
        InterruptSource::Joypad,
    ];
    let vectors = [0x40u8, 0x48, 0x50, 0x58, 0x60];
    for i in 0..5 {
        assert_eq!(sources[i].index(), i as u8);
        assert_eq!(interrupt_vector(sources[i]), vectors[i]);
    }
}

#[test]
fn boot_rom_hides_the_first_page_until_it_is_switched_off() {
    let mut mmu = mmu();
    assert!(!mmu.boot_rom_disabled());
    assert_eq!(read(&mut mmu, 0x0000), Ok(0x31));
    assert_eq!(read(&mut mmu, 0x0001), Ok(0xFE));
    assert_eq!(read(&mut mmu, 0x00FF), Ok(0x50));
    for addr in 0..0x100u16 {
        assert_eq!(read(&mut mmu, addr), Ok(BOOT_ROM[addr as usize]));
    }
    assert_eq!(read(&mut mmu, 0x0100), Ok(rom_byte(0x0100)));
    assert_eq!(read(&mut mmu, 0xFF50), Ok(0x00));
    write(&mut mmu, 0xFF50, 0x01).unwrap();
    assert!(mmu.boot_rom_disabled());
    assert_eq!(read(&mut mmu, 0xFF50), Ok(0x01));
    for addr in 0..0x100u16 {
        assert_eq!(read(&mut mmu, addr), Ok(rom_byte(addr)));
    }
    let mut other = MMU::new(cartridge(), false);
    other.disable_boot_rom();
    assert!(other.boot_rom_disabled());
    assert_eq!(read(&mut other, 0x0000), Ok(rom_byte(0)));
}

#[test]
fn ram_areas_store_bytes() {
    let mut mmu = mmu();
    for (addr, value) in [
        (0x8000u16, 0x11u8),
        (0x9FFF, 0x12),
        (0xC000, 0x21),
        (0xDFFF, 0x22),
        (0xFE00, 0x31),
        (0xFE9F, 0x32),
        (0xFF80, 0x41),
        (0xFFFE, 0x42),
        (0xFFFF, 0x1F),
        (0xFF0F, 0x05),
        (0xFF10, 0x51),
        (0xFF26, 0x52),
        (0xFF27, 0x53),
        (0xFF3F, 0x54),
    ] {
        assert_eq!(write(&mut mmu, addr, value), Ok(()));
        assert_eq!(read(&mut mmu, addr), Ok(value), "address {:#06X}", addr);
    }
    assert_eq!(read(&mut mmu, 0xC001), Ok(0));
    assert_eq!(read(&mut mmu, 0x7FFF), Ok(rom_byte(0x7FFF)));
    // A plain ROM swallows writes.
    assert_eq!(write(&mut mmu, 0x2000, 0x55), Ok(()));
    assert_eq!(read(&mut mmu, 0x2000), Ok(rom_byte(0x2000)));
}

#[test]
fn prohibited_and_unmapped_addresses_fault() {
    let mut mmu = mmu();
    for addr in [0xE000u16, 0xF000, 0xFDFF] {
        assert_eq!(read(&mut mmu, addr), Err(Fault::UnmappedRead(addr)));
        assert_eq!(write(&mut mmu, addr, 0), Err(Fault::UnmappedWrite(addr)));
    }
    for addr in [0xFEA0u16, 0xFEFF] {
        assert_eq!(read(&mut mmu, addr), Err(Fault::UnmappedRead(addr)));
        assert_eq!(write(&mut mmu, addr, 0), Ok(()));
    }
    for addr in [0xFF03u16, 0xFF08, 0xFF4C, 0xFF4E, 0xFF51, 0xFF7E] {
        assert_eq!(read(&mut mmu, addr), Err(Fault::UnmappedRead(addr)));
        assert_eq!(write(&mut mmu, addr, 0), Err(Fault::UnmappedWrite(addr)));
    }
    assert_eq!(read(&mut mmu, 0xFF46), Err(Fault::UnmappedRead(0xFF46)));
    assert_eq!(write(&mut mmu, 0xFF44, 0), Err(Fault::UnmappedWrite(0xFF44)));
    assert_eq!(read(&mut mmu, 0xFF02), Err(Fault::UnmappedRead(0xFF02)));
    assert_eq!(read(&mut mmu, 0xA000), Err(Fault::UnmappedRead(0xA000)));
    // Registers of the colour model are put up with.
    assert_eq!(read(&mut mmu, 0xFF4D), Ok(0));
    assert_eq!(write(&mut mmu, 0xFF4D, 1), Ok(()));
    assert_eq!(write(&mut mmu, 0xFF7F, 1), Ok(()));
    assert_eq!(read(&mut mmu, 0xFF7F), Err(Fault::UnmappedRead(0xFF7F)));
}

#[test]
fn every_access_is_billed_one_cycle() {
    let mut mmu = mmu();
    assert_eq!(mmu.take_consumed_cycles(), 0);
    read(&mut mmu, 0xC000).unwrap();
    write(&mut mmu, 0xC000, 1).unwrap();
    assert_eq!(mmu.take_consumed_cycles(), 2);
    assert_eq!(mmu.take_consumed_cycles(), 0);
    mmu.read_word(Address::new(0xC000)).unwrap();
    assert_eq!(mmu.take_consumed_cycles(), 2);
    mmu.write_word(Address::new(0xC000), Word::new(0x1234)).unwrap();
    assert_eq!(mmu.take_consumed_cycles(), 2);
    // A faulting access is billed all the same.
    assert!(read(&mut mmu, 0xE000).is_err());
    assert_eq!(mmu.take_consumed_cycles(), 1);
    assert!(mmu.read_word(Address::new(0xE000)).is_err());
    assert_eq!(mmu.take_consumed_cycles(), 1);
    assert!(mmu.read_word(Address::new(0xDFFF)).is_err());
    assert_eq!(mmu.take_consumed_cycles(), 2);
    // The count runs round at 256.
    for _ in 0..257 {
        read(&mut mmu, 0xC000).unwrap();
    }
    assert_eq!(mmu.take_consumed_cycles(), 1);
}

#[test]
fn words_are_stored_low_byte_first() {
    let mut mmu = mmu();
    mmu.write_word(Address::new(0xC100), Word::new(0xBEEF)).unwrap();
    assert_eq!(read(&mut mmu, 0xC100), Ok(0xEF));
    assert_eq!(read(&mut mmu, 0xC101), Ok(0xBE));
    assert_eq!(mmu.read_word(Address::new(0xC100)), Ok(Word::new(0xBEEF)));
    // The second byte of a word at the top of the bus is the first of the
    // bus: the boot program.
    write(&mut mmu, 0xFFFF, 0x1B).unwrap();
    assert_eq!(mmu.read_word(Address::new(0xFFFF)), Ok(Word::new(0x311B)));
    assert_eq!(mmu.write_word(Address::new(0xDFFF), Word::new(0x1234)), Err(Fault::UnmappedWrite(0xE000)));
    assert_eq!(read(&mut mmu, 0xDFFF), Ok(0x34));
}

#[test]
fn bus_accesses_drive_the_timer() {
    let mut mmu = mmu();
    write(&mut mmu, 0xFF06, 0x42).unwrap();
    write(&mut mmu, 0xFF05, 0xFE).unwrap();
    // From this write on the timer counts, once in four accesses.
    write(&mut mmu, 0xFF07, 0x05).unwrap();
    for _ in 0..3 {
        read(&mut mmu, 0xC000).unwrap();
    }
    assert_eq!(read(&mut mmu, 0xFF05), Ok(0xFF));
    assert!(!mmu.has_interrupt_flag(InterruptSource::Timer));
    for _ in 0..2 {
        read(&mut mmu, 0xC000).unwrap();
    }
    assert!(!mmu.has_interrupt_flag(InterruptSource::Timer));
    assert_eq!(read(&mut mmu, 0xFF05), Ok(0xFF));
    assert_eq!(read(&mut mmu, 0xFF05), Ok(0x42));
    assert!(mmu.has_interrupt_flag(InterruptSource::Timer));
    assert_eq!(read(&mut mmu, 0xFF0F), Ok(0x04));
    // The orchestrator's share of the cycles counts in the same way.
    let mut other = MMU::new(cartridge(), false);
    write(&mut other, 0xFF05, 0xFF).unwrap();
    write(&mut other, 0xFF07, 0x05).unwrap();
    other.maybe_tick_timers(3);
    assert!(!other.has_interrupt_flag(InterruptSource::Timer));
    other.maybe_tick_timers(1);
    assert!(other.has_interrupt_flag(InterruptSource::Timer));
    // The divider is cleared by any write.
    for _ in 0..70 {
        read(&mut other, 0xC000).unwrap();
    }
    assert_eq!(read(&mut other, 0xFF04), Ok(1));
    write(&mut other, 0xFF04, 0x99).unwrap();
    assert_eq!(read(&mut other, 0xFF04), Ok(0));
}

#[test]
fn interrupt_flags_and_enables() {
    let mut mmu = mmu();
    assert!(!mmu.is_interrupt_enabled(InterruptSource::Lcd));
    write(&mut mmu, 0xFFFF, 0b0001_0010).unwrap();
    assert!(mmu.is_interrupt_enabled(InterruptSource::Lcd));
    assert!(mmu.is_interrupt_enabled(InterruptSource::Joypad));
    assert!(!mmu.is_interrupt_enabled(InterruptSource::VBlank));
    mmu.set_interrupt_flag(InterruptSource::Serial, true);
    mmu.set_interrupt_flag(InterruptSource::VBlank, true);
    assert_eq!(read(&mut mmu, 0xFF0F), Ok(0b0000_1001));
    assert!(mmu.has_interrupt_flag(InterruptSource::Serial));
    mmu.set_interrupt_flag(InterruptSource::Serial, false);
    assert!(!mmu.has_interrupt_flag(InterruptSource::Serial));
    assert!(mmu.has_interrupt_flag(InterruptSource::VBlank));
    assert_eq!(read(&mut mmu, 0xFF0F), Ok(0b0000_0001));
}

#[test]
fn transfer_copies_a_page_into_object_memory_unbilled() {
    let mut mmu = mmu();
    for i in 0..0xA0u16 {
        write(&mut mmu, 0xC200 + i, (i as u8) ^ 0x5A).unwrap();
    }
    write(&mut mmu, 0xC2A0, 0xEE).unwrap();
    mmu.take_consumed_cycles();
    assert_eq!(write(&mut mmu, 0xFF46, 0xC2), Ok(()));
    assert_eq!(mmu.take_consumed_cycles(), 1);
    for i in 0..0xA0u16 {
        assert_eq!(read(&mut mmu, 0xFE00 + i), Ok((i as u8) ^ 0x5A));
    }
    // From the cartridge, too.
    mmu.disable_boot_rom();
    assert_eq!(write(&mut mmu, 0xFF46, 0x01), Ok(()));
    for i in 0..0xA0u16 {
        assert_eq!(read(&mut mmu, 0xFE00 + i), Ok(rom_byte(0x0100 + i)));
    }
    // A page that cannot be read leaves the object memory as it is.
    assert_eq!(write(&mut mmu, 0xFF46, 0xE0), Err(Fault::UnmappedRead(0xE000)));
    assert_eq!(write(&mut mmu, 0xFF46, 0xFF), Err(Fault::UnmappedRead(0xFF02)));
    assert_eq!(read(&mut mmu, 0xFE00), Ok(rom_byte(0x0100)));
    assert_eq!(read(&mut mmu, 0xFE9F), Ok(rom_byte(0x019F)));
    // The object memory onto itself.
    assert_eq!(write(&mut mmu, 0xFF46, 0xFE), Ok(()));
    assert_eq!(read(&mut mmu, 0xFE05), Ok(rom_byte(0x0105)));
}

#[test]
fn devices_answer_on_their_registers() {
    let mut mmu = mmu();
    assert_eq!(read(&mut mmu, 0xFF00), Ok(0x3F));
    mmu.joypad().consume_platform_event(JoypadEvent::new_down(JoypadButton::Left));
    write(&mut mmu, 0xFF00, 0x20).unwrap();
    assert_eq!(read(&mut mmu, 0xFF00), Ok(0x20 | 0b1101));
    write(&mut mmu, 0xFF40, 0x80).unwrap();
    assert_eq!(read(&mut mmu, 0xFF40), Ok(0x80));
    write(&mut mmu, 0xFF47, 0xE4).unwrap();
    assert_eq!(read(&mut mmu, 0xFF47), Ok(0xE4));
    for _ in 0..456 {
        mmu.video().tick();
    }
    assert_eq!(read(&mut mmu, 0xFF44), Ok(1));
    assert_eq!(read(&mut mmu, 0xFF41), Ok(0x02));
    write(&mut mmu, 0xFF01, b'A').unwrap();
    write(&mut mmu, 0xFF02, 0x81).unwrap();
    assert_eq!(read(&mut mmu, 0xFF01), Ok(b'A'));
    assert!(mmu.take_serial_output().is_empty());
    let mut listening = MMU::new(cartridge(), true);
    write(&mut listening, 0xFF01, b'A').unwrap();
    write(&mut listening, 0xFF02, 0x81).unwrap();
    write(&mut listening, 0xFF01, b'B').unwrap();
    write(&mut listening, 0xFF02, 0x01).unwrap();
    assert_eq!(listening.take_serial_output(), vec![b'A']);
    assert!(listening.take_serial_output().is_empty());
}

#[test]
fn what_the_bus_lets_pass_is_noted_for_the_host() {
    let mut mmu = mmu();
    assert!(mmu.take_notices().is_empty());
    // Ordinary accesses leave nothing to report.
    write(&mut mmu, 0xC000, 1).unwrap();
    read(&mut mmu, 0xC000).unwrap();
    write(&mut mmu, 0xFF40, 0x80).unwrap();
    read(&mut mmu, 0x0100).unwrap();
    assert!(mmu.take_notices().is_empty());
    write(&mut mmu, 0x2000, 0x05).unwrap();
    write(&mut mmu, 0xA000, 0x06).unwrap();
    write(&mut mmu, 0xFEA0, 0x07).unwrap();
    read(&mut mmu, 0xFF4D).unwrap();
    write(&mut mmu, 0xFF4D, 0x08).unwrap();
    write(&mut mmu, 0xFF7F, 0x09).unwrap();
    // A fault is no notice.
    assert!(write(&mut mmu, 0xE000, 0x0A).is_err());
    assert!(read(&mut mmu, 0xFEA0).is_err());
    assert_eq!(
        mmu.take_notices(),
        vec![
            Notice::RomWrite { address: 0x2000, value: 0x05 },
            Notice::RomWrite { address: 0xA000, value: 0x06 },
            Notice::ProhibitedWrite { address: 0xFEA0, value: 0x07 },
            Notice::ColorRegisterRead { address: 0xFF4D },
            Notice::UnusedRegisterWrite { address: 0xFF4D, value: 0x08 },
            Notice::UnusedRegisterWrite { address: 0xFF7F, value: 0x09 },
        ]
    );
    assert!(mmu.take_notices().is_empty());
    // Looking without billing notes nothing, and a cartridge with
    // registers takes its writes without notice.
    assert_eq!(mmu.peek(Address::new(0xFF4D)), Ok(0));
    assert!(mmu.take_notices().is_empty());
    let banked = create_for_cartridge_type(CartridgeType::MBC1, vec![0u8; 0x8000]).unwrap();
    let mut mmu = MMU::new(banked, false);
    write(&mut mmu, 0x2000, 0x05).unwrap();
    write(&mut mmu, 0xA000, 0x06).unwrap();
    assert!(mmu.take_notices().is_empty());
}
