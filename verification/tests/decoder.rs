use gameboy::cycles::{cb_opcode_cycles, normal_opcode_cycles};
use gameboy::instruction_decoder::{
    decode, decode_cb, CommonOperand, FlagCondition, IncDecU8Target, Instruction, LoadDstU16,
    LoadDstU8, LoadSrcU16, LoadSrcU8, LogicalOpTarget, RegisterU16, RegisterU8, U16Target,
};

const UNDEFINED: [u8; 12] = [
    0xCB, 0xD3, 0xDB, 0xDD, 0xE3, 0xE4, 0xEB, 0xEC, 0xED, 0xF4, 0xFC, 0xFD,
];

#[test]
fn decode_rejects_exactly_the_undefined_opcodes() {
    for opcode in 0..=255u8 {
        assert_eq!(decode(opcode).is_none(), UNDEFINED.contains(&opcode), "opcode {:#04X}", opcode);
    }
}

#[test]
fn decode_cb_accepts_every_byte() {
    for opcode in 0..=255u8 {
        assert!(decode_cb(opcode).is_some());
    }
}

#[test]
fn decode_single_byte_instructions() {
    assert_eq!(decode(0x00), Some(Instruction::Noop));
    assert_eq!(decode(0x10), Some(Instruction::Stop));
    assert_eq!(decode(0x76), Some(Instruction::Halt));
    assert_eq!(decode(0xF3), Some(Instruction::DisableInterrupts));
    assert_eq!(decode(0xFB), Some(Instruction::EnableInterrupts));
    assert_eq!(decode(0x07), Some(Instruction::Rlca));
    assert_eq!(decode(0x0F), Some(Instruction::Rrca));
    assert_eq!(decode(0x17), Some(Instruction::Rla));
    assert_eq!(decode(0x1F), Some(Instruction::Rra));
    assert_eq!(decode(0x27), Some(Instruction::Daa));
    assert_eq!(decode(0x2F), Some(Instruction::Cpl));
    assert_eq!(decode(0x37), Some(Instruction::Scf));
    assert_eq!(decode(0x3F), Some(Instruction::Ccf));
    assert_eq!(decode(0xE9), Some(Instruction::JumpAddressHL));
    assert_eq!(decode(0xD9), Some(Instruction::Reti));
}

#[test]
fn decode_loads() {
    assert_eq!(
        decode(0x06),
        Some(Instruction::LoadU8 {
            dst: LoadDstU8::Register(RegisterU8::B),
            src: LoadSrcU8::ImmediateU8
        })
    );
    assert_eq!(
        decode(0x41),
        Some(Instruction::LoadU8 {
            dst: LoadDstU8::Register(RegisterU8::B),
            src: LoadSrcU8::Register(RegisterU8::C)
        })
    );
    assert_eq!(
        decode(0x4E),
        Some(Instruction::LoadU8 {
            dst: LoadDstU8::Register(RegisterU8::C),
            src: LoadSrcU8::AddressU16(RegisterU16::HL)
        })
    );
    assert_eq!(
        decode(0x77),
        Some(Instruction::LoadU8 {
            dst: LoadDstU8::AddressU16(RegisterU16::HL),
            src: LoadSrcU8::Register(RegisterU8::A)
        })
    );
    assert_eq!(
        decode(0x36),
        Some(Instruction::LoadU8 {
            dst: LoadDstU8::AddressU16(RegisterU16::HL),
            src: LoadSrcU8::ImmediateU8
        })
    );
    assert_eq!(
        decode(0x22),
        Some(Instruction::LoadU8 {
            dst: LoadDstU8::AddressU16Increment(RegisterU16::HL),
            src: LoadSrcU8::Register(RegisterU8::A)
        })
    );
    assert_eq!(
        decode(0x3A),
        Some(Instruction::LoadU8 {
            dst: LoadDstU8::Register(RegisterU8::A),
            src: LoadSrcU8::AddressU16Decrement(RegisterU16::HL)
        })
    );
    assert_eq!(
        decode(0x1A),
        Some(Instruction::LoadU8 {
            dst: LoadDstU8::Register(RegisterU8::A),
            src: LoadSrcU8::AddressU16(RegisterU16::DE)
        })
    );
    assert_eq!(
        decode(0xE0),
        Some(Instruction::LoadU8 {
            dst: LoadDstU8::ImmediateAddressU8,
            src: LoadSrcU8::Register(RegisterU8::A)
        })
    );
    assert_eq!(
        decode(0xF0),
        Some(Instruction::LoadU8 {
            dst: LoadDstU8::Register(RegisterU8::A),
            src: LoadSrcU8::ImmediateAddressU8
        })
    );
    assert_eq!(
        decode(0xE2),
        Some(Instruction::LoadU8 {
            dst: LoadDstU8::AddressU8(RegisterU8::C),
            src: LoadSrcU8::Register(RegisterU8::A)
        })
    );
    assert_eq!(
        decode(0xFA),
        Some(Instruction::LoadU8 {
            dst: LoadDstU8::Register(RegisterU8::A),
            src: LoadSrcU8::ImmediateAddressU16
        })
    );
    assert_eq!(
        decode(0xEA),
        Some(Instruction::LoadU8 {
            dst: LoadDstU8::ImmediateAddressU16,
            src: LoadSrcU8::Register(RegisterU8::A)
        })
    );
    assert_eq!(
        decode(0x31),
        Some(Instruction::LoadU16 {
            dst: LoadDstU16::StackPointer,
            src: LoadSrcU16::ImmediateU16
        })
    );
    assert_eq!(
        decode(0x08),
        Some(Instruction::LoadU16 {
            dst: LoadDstU16::ImmediateAddress,
            src: LoadSrcU16::StackPointer
        })
    );
    assert_eq!(
        decode(0xF9),
        Some(Instruction::LoadU16 {
            dst: LoadDstU16::StackPointer,
            src: LoadSrcU16::Register(RegisterU16::HL)
        })
    );
    assert_eq!(decode(0xF8), Some(Instruction::LoadHlWithOffsetSp));
}

#[test]
fn decode_every_register_to_register_load() {
    let operands = [
        Some(RegisterU8::B),
        Some(RegisterU8::C),
        Some(RegisterU8::D),
        Some(RegisterU8::E),
        Some(RegisterU8::H),
        Some(RegisterU8::L),
        None,
        Some(RegisterU8::A),
    ];
    for opcode in 0x40..=0x7Fu8 {
        if opcode == 0x76 {
            continue;
        }
        let dst = match operands[((opcode >> 3) & 7) as usize] {
            Some(r) => LoadDstU8::Register(r),
            None => LoadDstU8::AddressU16(RegisterU16::HL),
        };
        let src = match operands[(opcode & 7) as usize] {
            Some(r) => LoadSrcU8::Register(r),
            None => LoadSrcU8::AddressU16(RegisterU16::HL),
        };
        assert_eq!(decode(opcode), Some(Instruction::LoadU8 { dst, src }));
    }
}

#[test]
fn decode_control_flow() {
    assert_eq!(decode(0xC3), Some(Instruction::JumpImmediate(None)));
    assert_eq!(decode(0xC2), Some(Instruction::JumpImmediate(Some(FlagCondition::NZ))));
    assert_eq!(decode(0xCA), Some(Instruction::JumpImmediate(Some(FlagCondition::Z))));
    assert_eq!(decode(0xD2), Some(Instruction::JumpImmediate(Some(FlagCondition::NC))));
    assert_eq!(decode(0xDA), Some(Instruction::JumpImmediate(Some(FlagCondition::C))));
    assert_eq!(decode(0x18), Some(Instruction::JumpRelative(None)));
    assert_eq!(decode(0x20), Some(Instruction::JumpRelative(Some(FlagCondition::NZ))));
    assert_eq!(decode(0x38), Some(Instruction::JumpRelative(Some(FlagCondition::C))));
    assert_eq!(decode(0xCD), Some(Instruction::Call(None)));
    assert_eq!(decode(0xDC), Some(Instruction::Call(Some(FlagCondition::C))));
    assert_eq!(decode(0xC9), Some(Instruction::Ret(None)));
    assert_eq!(decode(0xC8), Some(Instruction::Ret(Some(FlagCondition::Z))));
    assert_eq!(decode(0xC5), Some(Instruction::Push(RegisterU16::BC)));
    assert_eq!(decode(0xF5), Some(Instruction::Push(RegisterU16::AF)));
    assert_eq!(decode(0xE1), Some(Instruction::Pop(RegisterU16::HL)));
    assert_eq!(decode(0xF1), Some(Instruction::Pop(RegisterU16::AF)));
}

#[test]
fn decode_restarts() {
    let opcodes = [0xC7u8, 0xCF, 0xD7, 0xDF, 0xE7, 0xEF, 0xF7, 0xFF];
    let vectors = [0x00u16, 0x08, 0x10, 0x18, 0x20, 0x28, 0x30, 0x38];
    for i in 0..8 {
        assert_eq!(decode(opcodes[i]), Some(Instruction::Rst(vectors[i])));
    }
}

#[test]
fn decode_arithmetic() {
    let b = LogicalOpTarget::Common(CommonOperand::Register(RegisterU8::B));
    let at_hl = LogicalOpTarget::Common(CommonOperand::AddressHL);
    assert_eq!(decode(0x80), Some(Instruction::AddU8(b)));
    assert_eq!(decode(0x88), Some(Instruction::Adc(b)));
    assert_eq!(decode(0x90), Some(Instruction::Sub(b)));
    assert_eq!(decode(0x98), Some(Instruction::Sbc(b)));
    assert_eq!(decode(0xA0), Some(Instruction::And(b)));
    assert_eq!(decode(0xA8), Some(Instruction::Xor(b)));
    assert_eq!(decode(0xB0), Some(Instruction::Or(b)));
    assert_eq!(decode(0xB8), Some(Instruction::Compare(b)));
    assert_eq!(decode(0x86), Some(Instruction::AddU8(at_hl)));
    assert_eq!(decode(0xBE), Some(Instruction::Compare(at_hl)));
    assert_eq!(decode(0xC6), Some(Instruction::AddU8(LogicalOpTarget::ImmediateU8)));
    assert_eq!(decode(0xCE), Some(Instruction::Adc(LogicalOpTarget::ImmediateU8)));
    assert_eq!(decode(0xD6), Some(Instruction::Sub(LogicalOpTarget::ImmediateU8)));
    assert_eq!(decode(0xDE), Some(Instruction::Sbc(LogicalOpTarget::ImmediateU8)));
    assert_eq!(decode(0xE6), Some(Instruction::And(LogicalOpTarget::ImmediateU8)));
    assert_eq!(decode(0xEE), Some(Instruction::Xor(LogicalOpTarget::ImmediateU8)));
    assert_eq!(decode(0xF6), Some(Instruction::Or(LogicalOpTarget::ImmediateU8)));
    assert_eq!(decode(0xFE), Some(Instruction::Compare(LogicalOpTarget::ImmediateU8)));
    assert_eq!(decode(0x04), Some(Instruction::IncU8(IncDecU8Target::RegisterU8(RegisterU8::B))));
    assert_eq!(decode(0x34), Some(Instruction::IncU8(IncDecU8Target::Address(RegisterU16::HL))));
    assert_eq!(decode(0x3D), Some(Instruction::DecU8(IncDecU8Target::RegisterU8(RegisterU8::A))));
    assert_eq!(decode(0x03), Some(Instruction::IncU16(U16Target::RegisterU16(RegisterU16::BC))));
    assert_eq!(decode(0x3B), Some(Instruction::DecU16(U16Target::StackPointer)));
    assert_eq!(decode(0x29), Some(Instruction::AddU16(U16Target::RegisterU16(RegisterU16::HL))));
    assert_eq!(decode(0x39), Some(Instruction::AddU16(U16Target::StackPointer)));
    assert_eq!(decode(0xE8), Some(Instruction::AddStackPointer));
}

#[test]
fn decode_prefixed() {
    let h = CommonOperand::Register(RegisterU8::H);
    assert_eq!(decode_cb(0x00), Some(Instruction::CbRlc(CommonOperand::Register(RegisterU8::B))));
    assert_eq!(decode_cb(0x0E), Some(Instruction::CbRrc(CommonOperand::AddressHL)));
    assert_eq!(decode_cb(0x11), Some(Instruction::CbRl(CommonOperand::Register(RegisterU8::C))));
    assert_eq!(decode_cb(0x1F), Some(Instruction::CbRr(CommonOperand::Register(RegisterU8::A))));
    assert_eq!(decode_cb(0x24), Some(Instruction::CbSla(h)));
    assert_eq!(decode_cb(0x2C), Some(Instruction::CbSra(h)));
    assert_eq!(decode_cb(0x37), Some(Instruction::CbSwap(CommonOperand::Register(RegisterU8::A))));
    assert_eq!(decode_cb(0x3F), Some(Instruction::CbSrl(CommonOperand::Register(RegisterU8::A))));
    assert_eq!(decode_cb(0x7C), Some(Instruction::CbBit { n: 7, target: h }));
    assert_eq!(decode_cb(0x46), Some(Instruction::CbBit { n: 0, target: CommonOperand::AddressHL }));
    assert_eq!(decode_cb(0x87), Some(Instruction::CbRes { n: 0, target: CommonOperand::Register(RegisterU8::A) }));
    assert_eq!(decode_cb(0xBE), Some(Instruction::CbRes { n: 7, target: CommonOperand::AddressHL }));
    assert_eq!(decode_cb(0xC0), Some(Instruction::CbSet { n: 0, target: CommonOperand::Register(RegisterU8::B) }));
    assert_eq!(decode_cb(0xFF), Some(Instruction::CbSet { n: 7, target: CommonOperand::Register(RegisterU8::A) }));
}

#[test]
fn published_cycle_costs() {
    assert_eq!(normal_opcode_cycles(0x00, false), 1);
    assert_eq!(normal_opcode_cycles(0x01, false), 3);
    assert_eq!(normal_opcode_cycles(0x02, false), 2);
    assert_eq!(normal_opcode_cycles(0x08, false), 5);
    assert_eq!(normal_opcode_cycles(0x34, false), 3);
    assert_eq!(normal_opcode_cycles(0x36, false), 3);
    assert_eq!(normal_opcode_cycles(0x41, false), 1);
    assert_eq!(normal_opcode_cycles(0x46, false), 2);
    assert_eq!(normal_opcode_cycles(0x76, false), 1);
    assert_eq!(normal_opcode_cycles(0x86, false), 2);
    assert_eq!(normal_opcode_cycles(0xC1, false), 3);
    assert_eq!(normal_opcode_cycles(0xC5, false), 4);
    assert_eq!(normal_opcode_cycles(0xC3, false), 4);
    assert_eq!(normal_opcode_cycles(0xC9, false), 4);
    assert_eq!(normal_opcode_cycles(0xCD, false), 6);
    assert_eq!(normal_opcode_cycles(0xD9, false), 4);
    assert_eq!(normal_opcode_cycles(0xE0, false), 3);
    assert_eq!(normal_opcode_cycles(0xE2, false), 2);
    assert_eq!(normal_opcode_cycles(0xE8, false), 4);
    assert_eq!(normal_opcode_cycles(0xE9, false), 1);
    assert_eq!(normal_opcode_cycles(0xEA, false), 4);
    assert_eq!(normal_opcode_cycles(0xF8, false), 3);
    assert_eq!(normal_opcode_cycles(0xF9, false), 2);
    assert_eq!(normal_opcode_cycles(0xFF, false), 4);
    assert_eq!(normal_opcode_cycles(0xD3, false), 0);
}

#[test]
fn branch_costs_differ_for_conditional_opcodes_only() {
    assert_eq!(normal_opcode_cycles(0x20, false), 2);
    assert_eq!(normal_opcode_cycles(0x20, true), 3);
    assert_eq!(normal_opcode_cycles(0xC2, false), 3);
    assert_eq!(normal_opcode_cycles(0xC2, true), 4);
    assert_eq!(normal_opcode_cycles(0xC4, false), 3);
    assert_eq!(normal_opcode_cycles(0xC4, true), 6);
    assert_eq!(normal_opcode_cycles(0xC0, false), 2);
    assert_eq!(normal_opcode_cycles(0xC0, true), 5);
    let conditional = [
        0x20u8, 0x28, 0x30, 0x38, 0xC0, 0xC8, 0xD0, 0xD8, 0xC2, 0xCA, 0xD2, 0xDA, 0xC4, 0xCC,
        0xD4, 0xDC,
    ];
    for opcode in 0..=255u8 {
        let differs = normal_opcode_cycles(opcode, false) != normal_opcode_cycles(opcode, true);
        assert_eq!(differs, conditional.contains(&opcode), "opcode {:#04X}", opcode);
    }
}

#[test]
fn prefixed_cycle_costs() {
    for opcode in 0..=255u8 {
        let on_memory = opcode & 7 == 6;
        let is_bit_test = (0x40..=0x7F).contains(&opcode);
        let expected = if !on_memory {
            2
        } else if is_bit_test {
            3
        } else {
            4
        };
        assert_eq!(cb_opcode_cycles(opcode), expected, "opcode {:#04X}", opcode);
    }
}
