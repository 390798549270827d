use gameboy::address::Address;
use gameboy::cartridge::create_for_cartridge_type;
use gameboy::cpu::{TraceMode, CPU};
use gameboy::cycles::normal_opcode_cycles;
use gameboy::fault::Fault;
use gameboy::flags::FlagRegister;
use gameboy::header::CartridgeType;
use gameboy::instruction_decoder::{decode, RegisterU16, RegisterU8};
use gameboy::mmu::InterruptSource;
use gameboy::reference::{ReferenceMetadata, ReferenceOpcode};
use gameboy::register_pair::{ImmutableRegisterPair, RegisterPair};

/// A processor at `0x0100` of a plain 32 KiB cartridge that holds `program`
/// there, the boot program switched off.
fn cpu_with(program: &[u8]) -> CPU {
    cpu_with_at(0x0100, program)
}

fn cpu_with_at(start: u16, program: &[u8]) -> CPU {
    let mut rom = vec![0u8; 0x8000];
    for (i, b) in program.iter().enumerate() {
        rom[start as usize + i] = *b;
    }
    let cartridge = create_for_cartridge_type(CartridgeType::RomOnly, rom).unwrap();
    let mut cpu = CPU::new_without_boot_rom(cartridge, TraceMode::Off);
    cpu.mmu().disable_boot_rom();
    cpu.set_pc(start);
    cpu
}

fn step(cpu: &mut CPU) -> u8 {
    cpu.tick(None, 0).unwrap()
}

fn flags(z: bool, n: bool, h: bool, c: bool) -> FlagRegister {
    FlagRegister { z, n, h, c }
}

fn peek(cpu: &mut CPU, addr: u16) -> u8 {
    cpu.mmu().read(Address::new(addr)).unwrap()
}

fn poke(cpu: &mut CPU, addr: u16, value: u8) {
    cpu.mmu().write(Address::new(addr), value).unwrap();
}

#[test]
fn fresh_processors() {
    let cartridge = create_for_cartridge_type(CartridgeType::RomOnly, vec![0; 0x8000]).unwrap();
    let cold = CPU::new(cartridge, TraceMode::Off);
    assert_eq!(cold.pc(), 0x0000);
    assert_eq!(cold.sp(), 0xFFFE);
    assert_eq!(cold.resolve_u16_reg(RegisterU16::AF), 0x0000);
    assert!(!cold.interrupts_enabled());
    assert!(!cold.is_halted());
    let cartridge = create_for_cartridge_type(CartridgeType::RomOnly, vec![0; 0x8000]).unwrap();
    let warm = CPU::new_without_boot_rom(cartridge, TraceMode::Off);
    assert_eq!(warm.pc(), 0x0100);
    assert_eq!(warm.sp(), 0xFFFE);
    assert_eq!(warm.resolve_u16_reg(RegisterU16::AF), 0x01B0);
    assert_eq!(warm.resolve_u16_reg(RegisterU16::BC), 0x0013);
    assert_eq!(warm.resolve_u16_reg(RegisterU16::DE), 0x00D8);
    assert_eq!(warm.resolve_u16_reg(RegisterU16::HL), 0x014D);
    assert_eq!(warm.flags(), flags(true, false, true, true));
}

#[test]
fn register_pairs_read_back() {
    let mut cpu = cpu_with(&[]);
    for value in [0x0000u16, 0x1234, 0xFFFF, 0x00FF, 0xFF00, 0xABCD] {
        for reg in [RegisterU16::BC, RegisterU16::DE, RegisterU16::HL] {
            cpu.write_u16_reg(reg, value);
            assert_eq!(cpu.resolve_u16_reg(reg), value);
        }
        cpu.write_u16_reg(RegisterU16::AF, value);
        assert_eq!(cpu.resolve_u16_reg(RegisterU16::AF), value & 0xFFF0);
    }
    cpu.write_u16_reg(RegisterU16::BC, 0x1234);
    cpu.write_u16_reg(RegisterU16::DE, 0x5678);
    cpu.write_u16_reg(RegisterU16::HL, 0x9ABC);
    assert_eq!(cpu.resolve_u8_reg(RegisterU8::B), 0x12);
    assert_eq!(cpu.resolve_u8_reg(RegisterU8::C), 0x34);
    assert_eq!(cpu.resolve_u8_reg(RegisterU8::D), 0x56);
    assert_eq!(cpu.resolve_u8_reg(RegisterU8::E), 0x78);
    assert_eq!(cpu.resolve_u8_reg(RegisterU8::H), 0x9A);
    assert_eq!(cpu.resolve_u8_reg(RegisterU8::L), 0xBC);
    cpu.write_u8_reg(RegisterU8::A, 0x77);
    cpu.write_u8_reg(RegisterU8::L, 0x01);
    assert_eq!(cpu.resolve_u8_reg(RegisterU8::A), 0x77);
    assert_eq!(cpu.resolve_u16_reg(RegisterU16::HL), 0x9A01);
}

#[test]
fn a_pair_reads_back_what_was_set() {
    for reg in [RegisterU16::BC, RegisterU16::DE, RegisterU16::HL, RegisterU16::AF] {
        for value in [0x0000u16, 0x0001, 0x00FF, 0x0100, 0x1234, 0xABCD, 0xFFF0, 0xFFFF] {
            let mut pair = RegisterPair { high: 0x55, low: 0xAA, reg };
            pair.set(value);
            assert_eq!(pair.high, (value >> 8) as u8);
            assert_eq!(pair.low, (value & 0xFF) as u8);
            assert_eq!(pair.reg, reg);
            let expected = if reg == RegisterU16::AF { value & 0xFFF0 } else { value };
            assert_eq!(pair.get(), expected);
            let frozen = ImmutableRegisterPair { high: pair.high, low: pair.low, reg };
            assert_eq!(frozen.get(), expected);
            assert_eq!(frozen.get_low(), (expected & 0xFF) as u8);
        }
    }
    let cpu = cpu_with(&[]);
    let af = cpu.resolve_u16_reg_immutable(RegisterU16::AF);
    assert_eq!((af.high, af.low, af.get()), (0x01, 0xB0, 0x01B0));
    let hl = cpu.resolve_u16_reg_immutable(RegisterU16::HL);
    assert_eq!((hl.high, hl.low, hl.get()), (0x01, 0x4D, 0x014D));
}

#[test]
fn trace_names_the_instruction_that_the_step_will_run() {
    let rom_with = |program: &[u8]| {
        let mut rom = vec![0u8; 0x8000];
        for (i, b) in program.iter().enumerate() {
            rom[0x0100 + i] = *b;
        }
        rom
    };
    let traced = |mode: TraceMode, program: &[u8]| {
        let cartridge =
            create_for_cartridge_type(CartridgeType::RomOnly, rom_with(program)).unwrap();
        let mut cpu = CPU::new_without_boot_rom(cartridge, mode);
        cpu.mmu().disable_boot_rom();
        cpu
    };
    // INC B; BIT 7,H; HALT
    let program = [0x04, 0xCB, 0x7C, 0x76, 0xD3];
    let mut cpu = traced(TraceMode::WithBoot, &program);
    assert!(cpu.should_trace() && cpu.runs_instruction());
    let entry = cpu.trace_next_instruction().unwrap();
    assert_eq!((entry.pc, entry.opcode), (0x0100, 0x04));
    assert_eq!(Some(entry.instruction), decode(0x04));
    // Looking ahead bills nothing and changes nothing.
    assert_eq!(cpu.mmu().take_consumed_cycles(), 0);
    assert_eq!(cpu.pc(), 0x0100);
    step(&mut cpu);
    let entry = cpu.trace_next_instruction().unwrap();
    assert_eq!((entry.pc, entry.opcode), (0x0101, 0x7C));
    assert_eq!(Some(entry.instruction), gameboy::instruction_decoder::decode_cb(0x7C));
    step(&mut cpu);
    assert_eq!(cpu.trace_next_instruction().map(|e| e.opcode), Some(0x76));
    step(&mut cpu);
    // Halted, the processor runs no instruction; nor does it when the step
    // is to serve an interrupt.
    assert!(!cpu.runs_instruction());
    assert_eq!(cpu.trace_next_instruction(), None);
    poke(&mut cpu, 0xFFFF, 0x01);
    cpu.mmu().set_interrupt_flag(InterruptSource::VBlank, true);
    // Woken with the master switch off, it goes on with the byte ahead,
    // which encodes nothing.
    assert!(cpu.runs_instruction());
    assert_eq!(cpu.trace_next_instruction(), None);
    cpu.set_pc(0x0100);
    assert_eq!(cpu.trace_next_instruction().map(|e| e.opcode), Some(0x04));
    cpu.set_interrupts_enabled(true);
    assert!(!cpu.runs_instruction());
    assert_eq!(cpu.trace_next_instruction(), None);
    // The modes.
    assert!(traced(TraceMode::Off, &program).trace_next_instruction().is_none());
    assert!(traced(TraceMode::Serial, &program).trace_next_instruction().is_none());
    assert!(traced(TraceMode::WithoutBoot, &program).trace_next_instruction().is_some());
    let cartridge = create_for_cartridge_type(CartridgeType::RomOnly, rom_with(&program)).unwrap();
    let booting = CPU::new(cartridge, TraceMode::WithoutBoot);
    assert!(!booting.should_trace());
    assert!(booting.trace_next_instruction().is_none());
    let cartridge = create_for_cartridge_type(CartridgeType::RomOnly, rom_with(&program)).unwrap();
    let booting = CPU::new(cartridge, TraceMode::WithBoot);
    assert_eq!(booting.trace_next_instruction().map(|e| (e.pc, e.opcode)), Some((0x0000, 0x31)));
}

#[test]
fn load_load_halt() {
    // LD B,0x42; LD C,B; HALT
    let mut cpu = cpu_with(&[0x06, 0x42, 0x48, 0x76, 0x00]);
    assert_eq!(step(&mut cpu), 2);
    assert_eq!(step(&mut cpu), 1);
    assert!(!cpu.is_halted());
    assert_eq!(step(&mut cpu), 1);
    assert_eq!(cpu.resolve_u8_reg(RegisterU8::B), 0x42);
    assert_eq!(cpu.resolve_u8_reg(RegisterU8::C), 0x42);
    assert!(cpu.is_halted());
    assert_eq!(cpu.pc(), 0x0104);
    for _ in 0..10 {
        assert_eq!(step(&mut cpu), 1);
        assert!(cpu.is_halted());
        assert_eq!(cpu.pc(), 0x0104);
    }
    // A pending interrupt ends the halt even with the master switch off;
    // the processor then goes on with the next instruction.
    poke(&mut cpu, 0xFFFF, 0x04);
    cpu.mmu().set_interrupt_flag(InterruptSource::Timer, true);
    assert_eq!(step(&mut cpu), 1);
    assert!(!cpu.is_halted());
    assert_eq!(cpu.pc(), 0x0105);
    assert!(cpu.mmu().has_interrupt_flag(InterruptSource::Timer));
}

#[test]
fn halt_is_not_ended_by_a_flag_that_is_not_enabled() {
    let mut cpu = cpu_with(&[0x76]);
    step(&mut cpu);
    cpu.mmu().set_interrupt_flag(InterruptSource::Timer, true);
    poke(&mut cpu, 0xFFFF, 0x01);
    assert_eq!(step(&mut cpu), 1);
    assert!(cpu.is_halted());
}

#[test]
fn add_with_all_carries() {
    // LD A,0x3A; LD B,0xC6; ADD A,B
    let mut cpu = cpu_with(&[0x3E, 0x3A, 0x06, 0xC6, 0x80]);
    step(&mut cpu);
    step(&mut cpu);
    assert_eq!(step(&mut cpu), 1);
    assert_eq!(cpu.resolve_u8_reg(RegisterU8::A), 0x00);
    assert_eq!(cpu.flags(), flags(true, false, true, true));
}

#[test]
fn compare_leaves_the_accumulator() {
    // LD A,0x01; CP 0x02
    let mut cpu = cpu_with(&[0x3E, 0x01, 0xFE, 0x02]);
    step(&mut cpu);
    assert_eq!(step(&mut cpu), 2);
    assert_eq!(cpu.resolve_u8_reg(RegisterU8::A), 0x01);
    assert_eq!(cpu.flags(), flags(false, true, true, true));
}

#[test]
fn interrupt_service() {
    let mut cpu = cpu_with_at(0x0150, &[0x00]);
    poke(&mut cpu, 0xFFFF, 0x01);
    poke(&mut cpu, 0xFF0F, 0x01);
    cpu.set_interrupts_enabled(true);
    assert_eq!(cpu.tick(None, 0), Ok(5));
    assert_eq!(cpu.pc(), 0x0040);
    assert_eq!(cpu.sp(), 0xFFFC);
    assert!(!cpu.interrupts_enabled());
    assert!(!cpu.mmu().has_interrupt_flag(InterruptSource::VBlank));
    assert_eq!(peek(&mut cpu, 0xFFFC), 0x50);
    assert_eq!(peek(&mut cpu, 0xFFFD), 0x01);
    // The handler's first instruction runs at the next step.
    assert_eq!(step(&mut cpu), 1);
    assert_eq!(cpu.pc(), 0x0041);
}

#[test]
fn interrupts_are_served_by_rank() {
    let vectors = [0x40u16, 0x48, 0x50, 0x58, 0x60];
    for lowest in 0..5u8 {
        let mut cpu = cpu_with(&[0x00]);
        // Every interrupt from `lowest` on is pending.
        let pending = 0x1Fu8 & !((1 << lowest) - 1);
        poke(&mut cpu, 0xFFFF, 0x1F);
        poke(&mut cpu, 0xFF0F, pending);
        cpu.set_interrupts_enabled(true);
        assert_eq!(cpu.tick(None, 0), Ok(5));
        assert_eq!(cpu.pc(), vectors[lowest as usize]);
        assert_eq!(peek(&mut cpu, 0xFF0F), pending & !(1 << lowest));
    }
    // With the switch off nothing is served.
    let mut cpu = cpu_with(&[0x00]);
    poke(&mut cpu, 0xFFFF, 0x1F);
    poke(&mut cpu, 0xFF0F, 0x1F);
    assert_eq!(step(&mut cpu), 1);
    assert_eq!(cpu.pc(), 0x0101);
    assert_eq!(peek(&mut cpu, 0xFF0F), 0x1F);
    // And an interrupt that is not enabled is not served either.
    let mut cpu = cpu_with(&[0x00]);
    poke(&mut cpu, 0xFFFF, 0x02);
    poke(&mut cpu, 0xFF0F, 0x01);
    cpu.set_interrupts_enabled(true);
    assert_eq!(step(&mut cpu), 1);
    assert!(cpu.interrupts_enabled());
}

#[test]
fn interrupt_ends_halt_and_is_served() {
    let mut cpu = cpu_with(&[0xFB, 0x76, 0x00]);
    step(&mut cpu);
    step(&mut cpu);
    assert!(cpu.is_halted() && cpu.interrupts_enabled());
    poke(&mut cpu, 0xFFFF, 0x10);
    cpu.mmu().set_interrupt_flag(InterruptSource::Joypad, true);
    assert_eq!(cpu.tick(None, 0), Ok(5));
    assert!(!cpu.is_halted());
    assert_eq!(cpu.pc(), 0x0060);
    assert_eq!(peek(&mut cpu, 0xFFFC), 0x02);
    assert_eq!(peek(&mut cpu, 0xFFFD), 0x01);
}

#[test]
fn restart_pushes_the_return_address() {
    // The restart sits at 0x1233, so the program counter stands at 0x1234
    // when the instruction is carried out.
    let mut cpu = cpu_with_at(0x1233, &[0xEF]);
    cpu.set_sp(0xFFFE);
    assert_eq!(step(&mut cpu), 4);
    assert_eq!(cpu.sp(), 0xFFFC);
    assert_eq!(peek(&mut cpu, 0xFFFC), 0x34);
    assert_eq!(peek(&mut cpu, 0xFFFD), 0x12);
    assert_eq!(cpu.pc(), 0x0028);
}

#[test]
fn every_restart_vector() {
    let opcodes = [0xC7u8, 0xCF, 0xD7, 0xDF, 0xE7, 0xEF, 0xF7, 0xFF];
    for (i, opcode) in opcodes.iter().enumerate() {
        let mut cpu = cpu_with(&[*opcode]);
        step(&mut cpu);
        assert_eq!(cpu.pc(), 8 * i as u16);
        assert_eq!(peek(&mut cpu, 0xFFFC), 0x01);
        assert_eq!(peek(&mut cpu, 0xFFFD), 0x01);
    }
}

fn documented_length(opcode: u8) -> u16 {
    match opcode {
        0x01 | 0x11 | 0x21 | 0x31 | 0x08 | 0xEA | 0xFA => 3,
        0xC2 | 0xC3 | 0xCA | 0xD2 | 0xDA | 0xC4 | 0xCC | 0xCD | 0xD4 | 0xDC => 3,
        0x06 | 0x0E | 0x16 | 0x1E | 0x26 | 0x2E | 0x36 | 0x3E => 2,
        0x18 | 0x20 | 0x28 | 0x30 | 0x38 => 2,
        0xC6 | 0xCE | 0xD6 | 0xDE | 0xE6 | 0xEE | 0xF6 | 0xFE => 2,
        0xE0 | 0xF0 | 0xE8 | 0xF8 => 2,
        _ => 1,
    }
}

fn is_flow(opcode: u8) -> bool {
    matches!(
        opcode,
        0x18 | 0x20 | 0x28 | 0x30 | 0x38 | 0xC0 | 0xC8 | 0xD0 | 0xD8 | 0xC9 | 0xD9 | 0xC2 | 0xC3
            | 0xCA | 0xD2 | 0xDA | 0xC4 | 0xCC | 0xCD | 0xD4 | 0xDC | 0xE9 | 0xC7 | 0xCF | 0xD7
            | 0xDF | 0xE7 | 0xEF | 0xF7 | 0xFF
    )
}

/// A processor about to run `opcode` from work RAM, with operand bytes and
/// registers that keep every access on mapped ground.
fn staged(opcode: u8, flags_byte: u8) -> CPU {
    let mut cpu = cpu_with(&[]);
    poke(&mut cpu, 0xC000, opcode);
    poke(&mut cpu, 0xC001, 0x10);
    poke(&mut cpu, 0xC002, 0xC0);
    cpu.write_u16_reg(RegisterU16::AF, 0x1200 | flags_byte as u16);
    cpu.write_u16_reg(RegisterU16::BC, 0xC110);
    cpu.write_u16_reg(RegisterU16::DE, 0xC120);
    cpu.write_u16_reg(RegisterU16::HL, 0xC130);
    cpu.set_sp(0xDFF0);
    cpu.set_pc(0xC000);
    cpu.mmu().take_consumed_cycles();
    cpu
}

#[test]
fn every_opcode_moves_the_program_counter_by_its_length() {
    for opcode in 0..=255u8 {
        if decode(opcode).is_none() || is_flow(opcode) {
            continue;
        }
        for flags_byte in [0x00u8, 0xF0] {
            let mut cpu = staged(opcode, flags_byte);
            let cycles = cpu.tick(None, 0).unwrap();
            assert_eq!(cpu.pc(), 0xC000 + documented_length(opcode), "opcode {:#04X}", opcode);
            assert_eq!(cycles, normal_opcode_cycles(opcode, false), "opcode {:#04X}", opcode);
            assert!(cpu.mmu().take_consumed_cycles() <= cycles, "opcode {:#04X}", opcode);
        }
    }
}

#[test]
fn prefixed_opcodes_are_two_bytes_long() {
    for opcode in 0..=255u8 {
        let mut cpu = staged(0xCB, 0x00);
        poke(&mut cpu, 0xC001, opcode);
        cpu.mmu().take_consumed_cycles();
        let cycles = cpu.tick(None, 0).unwrap();
        assert_eq!(cpu.pc(), 0xC002);
        let on_memory = opcode & 7 == 6;
        let expected = if !on_memory {
            2
        } else if (0x40..=0x7F).contains(&opcode) {
            3
        } else {
            4
        };
        assert_eq!(cycles, expected, "opcode {:#04X}", opcode);
        assert_eq!(cpu.mmu().take_consumed_cycles(), cycles, "opcode {:#04X}", opcode);
    }
}

#[test]
fn conditional_branches_cost_more_when_taken() {
    // (opcode, flags that take the branch, flags that do not, target when
    // taken, cost when not taken, cost when taken)
    let z = 0x80u8;
    let c = 0x10u8;
    let cases: [(u8, u8, u8, u16, u8, u8); 16] = [
        (0x20, 0, z, 0xC012, 2, 3),
        (0x28, z, 0, 0xC012, 2, 3),
        (0x30, 0, c, 0xC012, 2, 3),
        (0x38, c, 0, 0xC012, 2, 3),
        (0xC2, 0, z, 0xC010, 3, 4),
        (0xCA, z, 0, 0xC010, 3, 4),
        (0xD2, 0, c, 0xC010, 3, 4),
        (0xDA, c, 0, 0xC010, 3, 4),
        (0xC4, 0, z, 0xC010, 3, 6),
        (0xCC, z, 0, 0xC010, 3, 6),
        (0xD4, 0, c, 0xC010, 3, 6),
        (0xDC, c, 0, 0xC010, 3, 6),
        (0xC0, 0, z, 0xC345, 2, 5),
        (0xC8, z, 0, 0xC345, 2, 5),
        (0xD0, 0, c, 0xC345, 2, 5),
        (0xD8, c, 0, 0xC345, 2, 5),
    ];
    for (opcode, taking, leaving, target, cost_left, cost_taken) in cases {
        let mut cpu = staged(opcode, leaving);
        poke(&mut cpu, 0xDFF0, 0x45);
        poke(&mut cpu, 0xDFF1, 0xC3);
        assert_eq!(cpu.tick(None, 0), Ok(cost_left), "opcode {:#04X}", opcode);
        assert_eq!(cpu.pc(), 0xC000 + documented_length(opcode), "opcode {:#04X}", opcode);
        assert_eq!(cpu.sp(), 0xDFF0);
        assert_eq!(cost_left, normal_opcode_cycles(opcode, false));

        let mut cpu = staged(opcode, taking);
        poke(&mut cpu, 0xDFF0, 0x45);
        poke(&mut cpu, 0xDFF1, 0xC3);
        assert_eq!(cpu.tick(None, 0), Ok(cost_taken), "opcode {:#04X}", opcode);
        assert_eq!(cpu.pc(), target, "opcode {:#04X}", opcode);
        assert_eq!(cost_taken, normal_opcode_cycles(opcode, true));
    }
}

#[test]
fn unconditional_flow() {
    // JP 0xC010
    let mut cpu = staged(0xC3, 0);
    assert_eq!(cpu.tick(None, 0), Ok(4));
    assert_eq!(cpu.pc(), 0xC010);
    // JR +0x10
    let mut cpu = staged(0x18, 0);
    assert_eq!(cpu.tick(None, 0), Ok(3));
    assert_eq!(cpu.pc(), 0xC012);
    // JR -2 jumps onto itself.
    let mut cpu = staged(0x18, 0);
    poke(&mut cpu, 0xC001, 0xFE);
    step(&mut cpu);
    assert_eq!(cpu.pc(), 0xC000);
    // JR -128
    let mut cpu = staged(0x18, 0);
    poke(&mut cpu, 0xC001, 0x80);
    step(&mut cpu);
    assert_eq!(cpu.pc(), 0xC002 - 128);
    // JP (HL) goes to HL itself.
    let mut cpu = staged(0xE9, 0);
    assert_eq!(cpu.tick(None, 0), Ok(1));
    assert_eq!(cpu.pc(), 0xC130);
    // CALL pushes the address behind itself; RET comes back to it.
    let mut cpu = staged(0xCD, 0);
    poke(&mut cpu, 0xC010, 0xC9);
    assert_eq!(cpu.tick(None, 0), Ok(6));
    assert_eq!(cpu.pc(), 0xC010);
    assert_eq!(cpu.sp(), 0xDFEE);
    assert_eq!(peek(&mut cpu, 0xDFEE), 0x03);
    assert_eq!(peek(&mut cpu, 0xDFEF), 0xC0);
    assert_eq!(cpu.tick(None, 0), Ok(4));
    assert_eq!(cpu.pc(), 0xC003);
    assert_eq!(cpu.sp(), 0xDFF0);
    // RETI returns and switches the interrupts on.
    let mut cpu = staged(0xD9, 0);
    poke(&mut cpu, 0xDFF0, 0x34);
    poke(&mut cpu, 0xDFF1, 0xC2);
    assert!(!cpu.interrupts_enabled());
    assert_eq!(cpu.tick(None, 0), Ok(4));
    assert_eq!(cpu.pc(), 0xC234);
    assert!(cpu.interrupts_enabled());
}

#[test]
fn interrupt_switch_instructions() {
    let mut cpu = cpu_with(&[0xFB, 0xF3, 0x10, 0x00]);
    step(&mut cpu);
    assert!(cpu.interrupts_enabled());
    step(&mut cpu);
    assert!(!cpu.interrupts_enabled());
    // STOP does not stop; its padding byte runs as a NOP.
    assert_eq!(step(&mut cpu), 1);
    assert!(!cpu.is_halted());
    assert_eq!(cpu.pc(), 0x0103);
    assert_eq!(step(&mut cpu), 1);
    assert_eq!(cpu.pc(), 0x0104);
}

#[test]
fn loads_through_memory() {
    // LD HL,0xC000; LD (HL+),A; LD (HL-),A; LD A,(HL+); LD (HL),0x99; LD B,(HL)
    let mut cpu = cpu_with(&[0x21, 0x00, 0xC0, 0x22, 0x32, 0x2A, 0x36, 0x99, 0x46]);
    cpu.write_u8_reg(RegisterU8::A, 0x5A);
    assert_eq!(step(&mut cpu), 3);
    assert_eq!(step(&mut cpu), 2);
    assert_eq!(cpu.resolve_u16_reg(RegisterU16::HL), 0xC001);
    step(&mut cpu);
    assert_eq!(cpu.resolve_u16_reg(RegisterU16::HL), 0xC000);
    assert_eq!(peek(&mut cpu, 0xC000), 0x5A);
    assert_eq!(peek(&mut cpu, 0xC001), 0x5A);
    cpu.write_u8_reg(RegisterU8::A, 0);
    step(&mut cpu);
    assert_eq!(cpu.resolve_u8_reg(RegisterU8::A), 0x5A);
    assert_eq!(cpu.resolve_u16_reg(RegisterU16::HL), 0xC001);
    assert_eq!(step(&mut cpu), 3);
    assert_eq!(peek(&mut cpu, 0xC001), 0x99);
    step(&mut cpu);
    assert_eq!(cpu.resolve_u8_reg(RegisterU8::B), 0x99);
}

#[test]
fn loads_through_the_top_page_and_absolute_addresses() {
    // LD A,0x77; LDH (0x80),A; LD C,0x81; LD (C),A; LD A,0; LDH A,(0x81);
    // LD (0xC123),A; LD A,(0xFF80); LD (0xC200),SP
    let mut cpu = cpu_with(&[
        0x3E, 0x77, 0xE0, 0x80, 0x0E, 0x81, 0xE2, 0x3E, 0x00, 0xF0, 0x81, 0xEA, 0x23, 0xC1,
        0xFA, 0x80, 0xFF, 0x08, 0x00, 0xC2,
    ]);
    step(&mut cpu);
    assert_eq!(step(&mut cpu), 3);
    assert_eq!(peek(&mut cpu, 0xFF80), 0x77);
    step(&mut cpu);
    assert_eq!(step(&mut cpu), 2);
    assert_eq!(peek(&mut cpu, 0xFF81), 0x77);
    step(&mut cpu);
    assert_eq!(step(&mut cpu), 3);
    assert_eq!(cpu.resolve_u8_reg(RegisterU8::A), 0x77);
    assert_eq!(step(&mut cpu), 4);
    assert_eq!(peek(&mut cpu, 0xC123), 0x77);
    assert_eq!(step(&mut cpu), 4);
    assert_eq!(cpu.resolve_u8_reg(RegisterU8::A), 0x77);
    assert_eq!(step(&mut cpu), 5);
    assert_eq!(peek(&mut cpu, 0xC200), 0xFE);
    assert_eq!(peek(&mut cpu, 0xC201), 0xFF);
}

#[test]
fn stack_transfers() {
    // LD BC,0x1234; PUSH BC; POP DE; LD SP,HL; PUSH AF; POP BC
    let mut cpu = cpu_with(&[0x01, 0x34, 0x12, 0xC5, 0xD1, 0xF9, 0xF5, 0xC1]);
    cpu.write_u16_reg(RegisterU16::HL, 0xD000);
    cpu.write_u16_reg(RegisterU16::AF, 0xABFF);
    step(&mut cpu);
    assert_eq!(step(&mut cpu), 4);
    assert_eq!(cpu.sp(), 0xFFFC);
    assert_eq!(peek(&mut cpu, 0xFFFC), 0x34);
    assert_eq!(peek(&mut cpu, 0xFFFD), 0x12);
    assert_eq!(step(&mut cpu), 3);
    assert_eq!(cpu.sp(), 0xFFFE);
    assert_eq!(cpu.resolve_u16_reg(RegisterU16::DE), 0x1234);
    assert_eq!(step(&mut cpu), 2);
    assert_eq!(cpu.sp(), 0xD000);
    step(&mut cpu);
    step(&mut cpu);
    // The low nibble of the flags is always zero.
    assert_eq!(cpu.resolve_u16_reg(RegisterU16::BC), 0xABF0);
}

#[test]
fn pop_af_sets_the_flags() {
    let mut cpu = cpu_with(&[0xF1]);
    cpu.set_sp(0xC000);
    poke(&mut cpu, 0xC000, 0x9F);
    poke(&mut cpu, 0xC001, 0x12);
    step(&mut cpu);
    assert_eq!(cpu.resolve_u8_reg(RegisterU8::A), 0x12);
    assert_eq!(cpu.flags(), flags(true, false, false, true));
    assert_eq!(cpu.resolve_u16_reg(RegisterU16::AF), 0x1290);
}

#[test]
fn counting_bytes_and_pairs() {
    // INC B; DEC C; INC (HL); DEC (HL); INC BC; DEC SP; INC HL
    let mut cpu = cpu_with(&[0x04, 0x0D, 0x34, 0x35, 0x03, 0x3B, 0x23]);
    cpu.write_u16_reg(RegisterU16::AF, 0x0010);
    cpu.write_u16_reg(RegisterU16::BC, 0x0F01);
    cpu.write_u16_reg(RegisterU16::HL, 0xC000);
    poke(&mut cpu, 0xC000, 0xFF);
    step(&mut cpu);
    assert_eq!(cpu.resolve_u8_reg(RegisterU8::B), 0x10);
    assert_eq!(cpu.flags(), flags(false, false, true, true));
    step(&mut cpu);
    assert_eq!(cpu.resolve_u8_reg(RegisterU8::C), 0x00);
    assert_eq!(cpu.flags(), flags(true, true, false, true));
    assert_eq!(step(&mut cpu), 3);
    assert_eq!(peek(&mut cpu, 0xC000), 0x00);
    assert_eq!(cpu.flags(), flags(true, false, true, true));
    assert_eq!(step(&mut cpu), 3);
    assert_eq!(peek(&mut cpu, 0xC000), 0xFF);
    assert_eq!(cpu.flags(), flags(false, true, true, true));
    cpu.write_u16_reg(RegisterU16::BC, 0xFFFF);
    cpu.set_sp(0x0000);
    let before = cpu.flags();
    assert_eq!(step(&mut cpu), 2);
    assert_eq!(cpu.resolve_u16_reg(RegisterU16::BC), 0x0000);
    step(&mut cpu);
    assert_eq!(cpu.sp(), 0xFFFF);
    step(&mut cpu);
    assert_eq!(cpu.resolve_u16_reg(RegisterU16::HL), 0xC001);
    assert_eq!(cpu.flags(), before);
}

#[test]
fn sixteen_bit_additions() {
    // ADD HL,BC; ADD HL,SP; ADD SP,-2; LD HL,SP+5
    let mut cpu = cpu_with(&[0x09, 0x39, 0xE8, 0xFE, 0xF8, 0x05]);
    cpu.write_u16_reg(RegisterU16::AF, 0x0080);
    cpu.write_u16_reg(RegisterU16::HL, 0x0FFF);
    cpu.write_u16_reg(RegisterU16::BC, 0x0001);
    cpu.set_sp(0xF000);
    assert_eq!(step(&mut cpu), 2);
    assert_eq!(cpu.resolve_u16_reg(RegisterU16::HL), 0x1000);
    assert_eq!(cpu.flags(), flags(true, false, true, false));
    step(&mut cpu);
    assert_eq!(cpu.resolve_u16_reg(RegisterU16::HL), 0x0000);
    assert_eq!(cpu.flags(), flags(true, false, false, true));
    assert_eq!(step(&mut cpu), 4);
    assert_eq!(cpu.sp(), 0xEFFE);
    assert_eq!(cpu.flags(), flags(false, false, false, false));
    assert_eq!(step(&mut cpu), 3);
    assert_eq!(cpu.resolve_u16_reg(RegisterU16::HL), 0xF003);
    assert_eq!(cpu.sp(), 0xEFFE);
    assert_eq!(cpu.flags(), flags(false, false, true, true));
}

#[test]
fn accumulator_rotations_clear_zero() {
    // RLCA; RRCA; RLA; RRA
    let mut cpu = cpu_with(&[0x07, 0x0F, 0x17, 0x1F, 0x17]);
    cpu.write_u16_reg(RegisterU16::AF, 0x8000);
    step(&mut cpu);
    assert_eq!(cpu.resolve_u8_reg(RegisterU8::A), 0x01);
    assert_eq!(cpu.flags(), flags(false, false, false, true));
    step(&mut cpu);
    assert_eq!(cpu.resolve_u8_reg(RegisterU8::A), 0x80);
    assert_eq!(cpu.flags(), flags(false, false, false, true));
    step(&mut cpu);
    assert_eq!(cpu.resolve_u8_reg(RegisterU8::A), 0x01);
    assert_eq!(cpu.flags(), flags(false, false, false, true));
    step(&mut cpu);
    assert_eq!(cpu.resolve_u8_reg(RegisterU8::A), 0x80);
    assert_eq!(cpu.flags(), flags(false, false, false, true));
    // A result of zero leaves Z clear all the same.
    cpu.write_u16_reg(RegisterU16::AF, 0x8000);
    step(&mut cpu);
    assert_eq!(cpu.resolve_u8_reg(RegisterU8::A), 0x00);
    assert_eq!(cpu.flags(), flags(false, false, false, true));
}

#[test]
fn one_byte_accumulator_instructions() {
    // CPL; SCF; CCF; CCF; LD A,0x15; ADD A,0x27; DAA
    let mut cpu = cpu_with(&[0x2F, 0x37, 0x3F, 0x3F, 0x3E, 0x15, 0xC6, 0x27, 0x27]);
    cpu.write_u16_reg(RegisterU16::AF, 0x3580);
    step(&mut cpu);
    assert_eq!(cpu.resolve_u8_reg(RegisterU8::A), 0xCA);
    assert_eq!(cpu.flags(), flags(true, true, true, false));
    step(&mut cpu);
    assert_eq!(cpu.flags(), flags(true, false, false, true));
    step(&mut cpu);
    assert_eq!(cpu.flags(), flags(true, false, false, false));
    step(&mut cpu);
    assert_eq!(cpu.flags(), flags(true, false, false, true));
    step(&mut cpu);
    step(&mut cpu);
    assert_eq!(cpu.resolve_u8_reg(RegisterU8::A), 0x3C);
    step(&mut cpu);
    assert_eq!(cpu.resolve_u8_reg(RegisterU8::A), 0x42);
    assert_eq!(cpu.flags(), flags(false, false, false, false));
}

#[test]
fn prefixed_instructions_on_registers_and_memory() {
    // BIT 7,H; SET 0,(HL); RES 0,(HL); SWAP A; SRL B; RL (HL)
    let mut cpu = cpu_with(&[
        0xCB, 0x7C, 0xCB, 0xC6, 0xCB, 0x86, 0xCB, 0x37, 0xCB, 0x38, 0xCB, 0x16,
    ]);
    cpu.write_u16_reg(RegisterU16::AF, 0xAB10);
    cpu.write_u16_reg(RegisterU16::BC, 0x0100);
    cpu.write_u16_reg(RegisterU16::HL, 0xC000);
    poke(&mut cpu, 0xC000, 0x80);
    assert_eq!(step(&mut cpu), 2);
    assert_eq!(cpu.flags(), flags(false, false, true, true));
    assert_eq!(cpu.resolve_u8_reg(RegisterU8::H), 0xC0);
    assert_eq!(step(&mut cpu), 4);
    assert_eq!(peek(&mut cpu, 0xC000), 0x81);
    assert_eq!(cpu.flags(), flags(false, false, true, true));
    assert_eq!(step(&mut cpu), 4);
    assert_eq!(peek(&mut cpu, 0xC000), 0x80);
    step(&mut cpu);
    assert_eq!(cpu.resolve_u8_reg(RegisterU8::A), 0xBA);
    assert_eq!(cpu.flags(), flags(false, false, false, false));
    step(&mut cpu);
    assert_eq!(cpu.resolve_u8_reg(RegisterU8::B), 0x00);
    assert_eq!(cpu.flags(), flags(true, false, false, true));
    assert_eq!(step(&mut cpu), 4);
    assert_eq!(peek(&mut cpu, 0xC000), 0x01);
    assert_eq!(cpu.flags(), flags(false, false, false, true));
    assert_eq!(cpu.pc(), 0x010C);
}

#[test]
fn bit_test_on_memory_reads_only() {
    let mut cpu = cpu_with(&[0xCB, 0x46]);
    cpu.write_u16_reg(RegisterU16::HL, 0xC000);
    poke(&mut cpu, 0xC000, 0xFE);
    cpu.mmu().take_consumed_cycles();
    assert_eq!(step(&mut cpu), 3);
    assert_eq!(cpu.mmu().take_consumed_cycles(), 3);
    assert!(cpu.flags().z);
    assert_eq!(peek(&mut cpu, 0xC000), 0xFE);
}

#[test]
fn faults_end_the_step() {
    let mut cpu = cpu_with(&[0xD3]);
    assert_eq!(cpu.tick(None, 7), Err(Fault::Decode { pc: 0x0100, opcode: 0xD3 }));
    for opcode in [0xDBu8, 0xDD, 0xE3, 0xE4, 0xEB, 0xEC, 0xED, 0xF4, 0xFC, 0xFD] {
        let mut cpu = cpu_with(&[opcode]);
        assert_eq!(cpu.tick(None, 0), Err(Fault::Decode { pc: 0x0100, opcode }));
    }
    // LD A,(0xE000)
    let mut cpu = cpu_with(&[0xFA, 0x00, 0xE0]);
    assert_eq!(cpu.tick(None, 0), Err(Fault::UnmappedRead(0xE000)));
    // LD (0xFF44),A
    let mut cpu = cpu_with(&[0xEA, 0x44, 0xFF]);
    assert_eq!(cpu.tick(None, 0), Err(Fault::UnmappedWrite(0xFF44)));
    // Running off into the prohibited area.
    let mut cpu = cpu_with(&[]);
    cpu.set_pc(0xE000);
    assert_eq!(cpu.tick(None, 0), Err(Fault::UnmappedRead(0xE000)));
}

fn reference(pc: u16) -> ReferenceMetadata {
    ReferenceMetadata {
        pc,
        instruction: String::from("NOP"),
        opcode: ReferenceOpcode::Plain(0x00),
        line: 1,
    }
}

#[test]
fn reference_is_checked_before_the_instruction_runs() {
    let mut cpu = cpu_with(&[0x04, 0x04]);
    assert_eq!(cpu.tick(Some(&reference(0x0100)), 0), Ok(1));
    assert_eq!(cpu.resolve_u8_reg(RegisterU8::B), 0x01);
    assert_eq!(
        cpu.tick(Some(&reference(0x0200)), 1),
        Err(Fault::ReferenceMismatch { pc: 0x0101, expected: 0x0200, tick: 1 })
    );
    assert_eq!(cpu.resolve_u8_reg(RegisterU8::B), 0x01);
}

#[test]
fn memory_accesses_never_exceed_the_cost_of_the_instruction() {
    for opcode in 0..=255u8 {
        if decode(opcode).is_none() {
            continue;
        }
        for flags_byte in [0x00u8, 0xF0] {
            let mut cpu = staged(opcode, flags_byte);
            poke(&mut cpu, 0xDFF0, 0x45);
            poke(&mut cpu, 0xDFF1, 0xC3);
            cpu.mmu().take_consumed_cycles();
            let cycles = cpu.tick(None, 0).unwrap();
            let billed = cpu.mmu().take_consumed_cycles();
            assert!(billed <= cycles, "opcode {:#04X}: {} > {}", opcode, billed, cycles);
        }
    }
}
