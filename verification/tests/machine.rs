use gameboy::cpu::TraceMode;
use gameboy::fault::Fault;
use gameboy::framebuffer::RgbColor;
use gameboy::gameboy::{Gameboy, SetupError};
use gameboy::header::{CartridgeType, HeaderError};
use gameboy::instruction_decoder::{RegisterU16, RegisterU8};
use gameboy::joypad_events::JoypadButton;
use gameboy::mmu::{Notice, BOOT_ROM};
use gameboy::reference::{ReferenceMetadata, ReferenceOpcode};

fn rom_with(program: &[u8]) -> Vec<u8> {
    let mut rom = vec![0u8; 0x8000];
    for (i, b) in program.iter().enumerate() {
        rom[0x0100 + i] = *b;
    }
    rom
}

fn machine(program: &[u8]) -> Gameboy {
    Gameboy::new(rom_with(program), None, TraceMode::Off, true).unwrap()
}

#[test]
fn images_are_checked_at_construction() {
    assert!(Gameboy::new(rom_with(&[]), None, TraceMode::Off, false).is_ok());
    assert!(Gameboy::new(rom_with(&[]), None, TraceMode::Off, true).is_ok());
    assert_eq!(
        Gameboy::new(vec![0; 0x100], None, TraceMode::Off, true).err(),
        Some(SetupError::Header(HeaderError::TooShort(0x100)))
    );
    let mut rom = rom_with(&[]);
    rom[0x0147] = 0x04;
    assert_eq!(
        Gameboy::new(rom, None, TraceMode::Off, true).err(),
        Some(SetupError::Header(HeaderError::InvalidCartridgeType(0x04)))
    );
    let mut rom = rom_with(&[]);
    rom[0x0143] = 0xC0;
    rom[0x0146] = 0x03;
    rom[0x0147] = 0x02;
    assert_eq!(
        Gameboy::new(rom.clone(), None, TraceMode::Off, true).err(),
        Some(SetupError::RequiresCgb)
    );
    rom[0x0143] = 0x80;
    assert_eq!(
        Gameboy::new(rom.clone(), None, TraceMode::Off, true).err(),
        Some(SetupError::SgbUnsupported)
    );
    rom[0x0146] = 0x00;
    assert_eq!(
        Gameboy::new(rom.clone(), None, TraceMode::Off, true).err(),
        Some(SetupError::UnsupportedCartridge(CartridgeType::MBC1Ram))
    );
    rom[0x0147] = 0x01;
    assert!(Gameboy::new(rom, None, TraceMode::Off, true).is_ok());
}

#[test]
fn skipping_the_boot_program_starts_at_the_cartridge() {
    let mut warm = machine(&[0x00]);
    assert_eq!(warm.cpu().pc(), 0x0100);
    assert!(warm.cpu().mmu().boot_rom_disabled());
    assert_eq!(warm.cpu().resolve_u16_reg(RegisterU16::AF), 0x01B0);
    let mut cold = Gameboy::new(rom_with(&[0x00]), None, TraceMode::Off, false).unwrap();
    assert_eq!(cold.cpu().pc(), 0x0000);
    assert!(!cold.cpu().mmu().boot_rom_disabled());
    // The first instruction of the boot program: LD SP,0xFFFE.
    cold.tick().unwrap();
    assert_eq!(cold.cpu().pc(), 0x0003);
    assert_eq!(cold.cpu().sp(), 0xFFFE);
}

#[test]
fn a_frame_comes_every_70224_cycles() {
    // JR -2: three cycles a step.
    let mut gameboy = machine(&[0x18, 0xFE]);
    // No frame is complete after the first step.
    assert!(gameboy.tick().unwrap().is_none());
    let mut cycles = 3u32;
    let mut frames = 0;
    for _ in 0..(3 * 70224 / 3) {
        let frame = gameboy.tick().unwrap();
        cycles += 3;
        if let Some(frame) = frame {
            frames += 1;
            assert_eq!(cycles / 70224, frames);
            assert!(cycles % 70224 < 3);
            assert_eq!(frame.width, 160);
            assert_eq!(frame.height, 144);
            assert_eq!(frame.get_pixel(0, 0), RgbColor::white());
        }
    }
    assert_eq!(frames, 3);
}

#[test]
fn vertical_blank_interrupt_reaches_the_program() {
    // EI; LD A,1; LDH (0xFF),A; HALT; at 0x40: LD B,0x99; HALT
    let mut rom = rom_with(&[0xFB, 0x3E, 0x01, 0xE0, 0xFF, 0x76]);
    rom[0x0040] = 0x06;
    rom[0x0041] = 0x99;
    rom[0x0042] = 0x76;
    let mut gameboy = Gameboy::new(rom, None, TraceMode::Off, true).unwrap();
    let mut steps = 0;
    while gameboy.cpu().resolve_u8_reg(RegisterU8::B) != 0x99 {
        gameboy.tick().unwrap();
        steps += 1;
        assert!(steps < 70224);
    }
    // Three instructions and the halt take 1 + 2 + 3 + 1 cycles; the halt
    // idles until line 144 begins, the service takes five cycles and the
    // load two.
    assert_eq!(steps, 4 + (144 * 456 - 7) + 1 + 1);
    assert!(!gameboy.cpu().interrupts_enabled());
    assert_eq!(gameboy.cpu().sp(), 0xFFFC);
}

#[test]
fn timer_is_driven_once_for_every_cycle() {
    // LD A,0x05; LDH (0x07),A; INC BC; INC BC; LDH A,(0x05); HALT.
    // From the write to the control register on, the timer counts once in
    // sixteen clock ticks, that is once in four cycles. The two counting
    // instructions take two cycles each, one of them on the bus; the read
    // of the counter comes with the third cycle of its instruction: seven
    // cycles in all, so the counter has counted once. Had the cycles on
    // the bus been counted twice, it would have counted twice.
    let mut gameboy = machine(&[0x3E, 0x05, 0xE0, 0x07, 0x03, 0x03, 0xF0, 0x05, 0x76]);
    for _ in 0..6 {
        gameboy.tick().unwrap();
    }
    assert!(gameboy.cpu().is_halted());
    assert_eq!(gameboy.cpu().resolve_u8_reg(RegisterU8::A), 1);
    // With three counting instructions nine cycles have passed: twice.
    let mut gameboy =
        machine(&[0x3E, 0x05, 0xE0, 0x07, 0x03, 0x03, 0x03, 0xF0, 0x05, 0x76]);
    for _ in 0..7 {
        gameboy.tick().unwrap();
    }
    assert_eq!(gameboy.cpu().resolve_u8_reg(RegisterU8::A), 2);
}

#[test]
fn buttons_reach_the_register() {
    // LD A,0x20; LDH (0x00),A; LDH A,(0x00); HALT
    let mut gameboy = machine(&[0x3E, 0x20, 0xE0, 0x00, 0xF0, 0x00, 0x76]);
    gameboy.joypad_event(JoypadButton::Down, true);
    gameboy.joypad_event(JoypadButton::Right, true);
    gameboy.joypad_event(JoypadButton::Right, false);
    for _ in 0..4 {
        gameboy.tick().unwrap();
    }
    assert_eq!(gameboy.cpu().resolve_u8_reg(RegisterU8::A), 0x20 | 0b0111);
    assert!(gameboy.cpu().is_halted());
}

#[test]
fn serial_bytes_reach_the_host_in_serial_mode() {
    // LD A,'o'; LDH (0x01),A; LD A,0x81; LDH (0x02),A; LD A,'k'; LDH (0x01),A;
    // LD A,0x81; LDH (0x02),A
    let program = [
        0x3E, b'o', 0xE0, 0x01, 0x3E, 0x81, 0xE0, 0x02, 0x3E, b'k', 0xE0, 0x01, 0x3E, 0x81, 0xE0,
        0x02,
    ];
    let mut gameboy =
        Gameboy::new(rom_with(&program), None, TraceMode::Serial, true).unwrap();
    for _ in 0..8 {
        gameboy.tick().unwrap();
    }
    assert_eq!(gameboy.take_serial_output(), vec![b'o', b'k']);
    assert!(gameboy.take_serial_output().is_empty());
    let mut quiet = machine(&program);
    for _ in 0..8 {
        quiet.tick().unwrap();
    }
    assert!(quiet.take_serial_output().is_empty());
}

fn entry(pc: u16, line: usize) -> ReferenceMetadata {
    ReferenceMetadata {
        pc,
        instruction: String::from("NOP"),
        opcode: ReferenceOpcode::Plain(0x00),
        line,
    }
}

#[test]
fn run_is_held_against_the_reference() {
    let trace = vec![entry(0x0100, 1), entry(0x0101, 2), entry(0x0103, 3)];
    let mut gameboy =
        Gameboy::new(rom_with(&[0x00, 0x00, 0x00]), Some(trace), TraceMode::Off, true).unwrap();
    assert!(gameboy.tick().is_ok());
    assert!(gameboy.tick().is_ok());
    assert_eq!(
        gameboy.tick().err(),
        Some(Fault::ReferenceMismatch { pc: 0x0102, expected: 0x0103, tick: 2 })
    );
    let trace = vec![entry(0x0100, 1)];
    let mut gameboy =
        Gameboy::new(rom_with(&[0x00, 0x00]), Some(trace), TraceMode::Off, true).unwrap();
    assert!(gameboy.tick().is_ok());
    assert_eq!(gameboy.tick().err(), Some(Fault::ReferenceExhausted { tick: 1 }));
}

#[test]
fn notices_come_out_of_the_machine() {
    // LD A,0x05; LD (0x2000),A; LDH A,(0x4D); HALT
    let mut gameboy = machine(&[0x3E, 0x05, 0xEA, 0x00, 0x20, 0xF0, 0x4D, 0x76]);
    for _ in 0..4 {
        gameboy.tick().unwrap();
    }
    assert_eq!(
        gameboy.take_notices(),
        vec![
            Notice::RomWrite { address: 0x2000, value: 0x05 },
            Notice::ColorRegisterRead { address: 0xFF4D },
        ]
    );
    assert!(gameboy.take_notices().is_empty());
}

#[test]
fn no_step_hands_out_a_frame_that_it_did_not_complete() {
    // NOPs: one cycle a step.
    let mut gameboy = machine(&[0x00; 0x100]);
    for step in 1..=200u32 {
        assert!(gameboy.tick().unwrap().is_none(), "step {}", step);
    }
    // Every step settles the cycles that it billed.
    assert_eq!(gameboy.cpu().mmu().take_consumed_cycles(), 0);
    // The boot program: the same from its first step.
    let mut gameboy = Gameboy::new(rom_with(&[]), None, TraceMode::Off, false).unwrap();
    for step in 1..=200u32 {
        assert!(gameboy.tick().unwrap().is_none(), "step {}", step);
    }
}

#[test]
fn faults_come_out_of_the_machine() {
    let mut gameboy = machine(&[0xD3]);
    assert_eq!(gameboy.tick().err(), Some(Fault::Decode { pc: 0x0100, opcode: 0xD3 }));
    // The cycle that the fetch billed is dropped with the step.
    assert_eq!(gameboy.cpu().mmu().take_consumed_cycles(), 0);
}

/// A cartridge that the boot program accepts: the logo and the header
/// checksum are in place.
fn bootable_rom(program: &[u8]) -> Vec<u8> {
    let mut rom = rom_with(program);
    for i in 0..0x30 {
        rom[0x0104 + i] = BOOT_ROM[0xA8 + i];
    }
    let mut sum: u8 = 0x19;
    for i in 0x0134..0x014D {
        sum = sum.wrapping_add(rom[i]);
    }
    rom[0x014D] = 0u8.wrapping_sub(sum);
    rom
}

#[test]
fn boot_program_clears_video_memory_first() {
    let mut gameboy =
        Gameboy::new(bootable_rom(&[0x00]), None, TraceMode::Off, false).unwrap();
    // LD SP; XOR A; LD HL,0x9FFF and then 8192 rounds of three instructions.
    for _ in 0..(3 + 3 * 8192) {
        gameboy.tick().unwrap();
    }
    assert_eq!(gameboy.cpu().pc(), 0x000C);
    assert_eq!(gameboy.cpu().resolve_u16_reg(RegisterU16::HL), 0x7FFF);
    assert_eq!(gameboy.cpu().resolve_u8_reg(RegisterU8::A), 0x00);
    assert_eq!(gameboy.cpu().sp(), 0xFFFE);
}

#[test]
fn boot_program_hands_over_to_the_cartridge() {
    // At 0x0100: JP 0x0150; there: LD A,(0x0000); HALT. The first byte of
    // the cartridge is 0xC7.
    let mut rom = bootable_rom(&[0xC3, 0x50, 0x01]);
    rom[0x0000] = 0xC7;
    rom[0x0150] = 0xFA;
    rom[0x0151] = 0x00;
    rom[0x0152] = 0x00;
    rom[0x0153] = 0x76;
    let mut gameboy = Gameboy::new(rom, None, TraceMode::Off, false).unwrap();
    let mut steps = 0u32;
    while gameboy.cpu().pc() != 0x0100 {
        gameboy.tick().unwrap();
        steps += 1;
        assert!(steps < 20_000_000, "the boot program did not finish");
    }
    assert!(gameboy.cpu().mmu().boot_rom_disabled());
    // The registers as the boot program leaves them.
    assert_eq!(gameboy.cpu().resolve_u16_reg(RegisterU16::AF), 0x01B0);
    assert_eq!(gameboy.cpu().resolve_u16_reg(RegisterU16::BC), 0x0013);
    assert_eq!(gameboy.cpu().resolve_u16_reg(RegisterU16::DE), 0x00D8);
    assert_eq!(gameboy.cpu().resolve_u16_reg(RegisterU16::HL), 0x014D);
    assert_eq!(gameboy.cpu().sp(), 0xFFFE);
    for _ in 0..3 {
        gameboy.tick().unwrap();
    }
    assert!(gameboy.cpu().is_halted());
    assert_eq!(gameboy.cpu().resolve_u8_reg(RegisterU8::A), 0xC7);
}
