//! From an opcode byte to the instruction it encodes.
//!
//! The model reads an opcode as three octal digits `x y z` (`y` further split
//! into `p` and `q`), the layout the instruction set was designed on. The
//! executable decoder works by row and column of the sixteen-by-sixteen opcode
//! chart, and is proved to agree with the model on every byte.

use vstd::prelude::*;

verus! {

#[derive(Debug, Copy, Clone, PartialEq, Eq, Structural)]
pub enum RegisterU8 {
    A,
    B,
    C,
    D,
    E,
    H,
    L,
}

#[derive(Debug, Copy, Clone, PartialEq, Eq, Structural)]
pub enum RegisterU16 {
    AF,
    BC,
    DE,
    HL,
}

#[derive(Debug, Copy, Clone, PartialEq, Eq, Structural)]
pub enum LoadSrcU8 {
    Register(RegisterU8),
    AddressU16(RegisterU16),
    AddressU8(RegisterU8),
    ImmediateAddressU8,
    ImmediateAddressU16,
    ImmediateU8,
    AddressU16Increment(RegisterU16),
    AddressU16Decrement(RegisterU16),
}

#[derive(Debug, Copy, Clone, PartialEq, Eq, Structural)]
pub enum LoadDstU8 {
    Register(RegisterU8),
    AddressU8(RegisterU8),
    AddressU16(RegisterU16),
    AddressU16Increment(RegisterU16),
    AddressU16Decrement(RegisterU16),
    ImmediateAddressU8,
    ImmediateAddressU16,
}

#[derive(Debug, Copy, Clone, PartialEq, Eq, Structural)]
pub enum LoadSrcU16 {
    Register(RegisterU16),
    ImmediateU16,
    StackPointer,
}

#[derive(Debug, Copy, Clone, PartialEq, Eq, Structural)]
pub enum LoadDstU16 {
    Register(RegisterU16),
    StackPointer,
    ImmediateAddress,
}

#[derive(Debug, Copy, Clone, PartialEq, Eq, Structural)]
pub enum FlagCondition {
    NZ,
    NC,
    Z,
    C,
}

#[derive(Debug, Copy, Clone, PartialEq, Eq, Structural)]
pub enum IncDecU8Target {
    RegisterU8(RegisterU8),
    Address(RegisterU16),
}

#[derive(Debug, Copy, Clone, PartialEq, Eq, Structural)]
pub enum U16Target {
    RegisterU16(RegisterU16),
    StackPointer,
}

#[derive(Debug, Copy, Clone, PartialEq, Eq, Structural)]
pub enum CommonOperand {
    Register(RegisterU8),
    AddressHL,
}

#[derive(Debug, Copy, Clone, PartialEq, Eq, Structural)]
pub enum LogicalOpTarget {
    Common(CommonOperand),
    ImmediateU8,
}

#[derive(Debug, Copy, Clone, PartialEq, Eq, Structural)]
#[allow(inconsistent_fields)]
pub enum Instruction {
    Noop,
    Halt,
    LoadU8 { dst: LoadDstU8, src: LoadSrcU8 },
    LoadU16 { dst: LoadDstU16, src: LoadSrcU16 },
    LoadHlWithOffsetSp,
    JumpImmediate(Option<FlagCondition>),
    JumpAddressHL,
    DisableInterrupts,
    EnableInterrupts,
    Call(Option<FlagCondition>),
    JumpRelative(Option<FlagCondition>),
    Ret(Option<FlagCondition>),
    Reti,
    Push(RegisterU16),
    Pop(RegisterU16),
    IncU8(IncDecU8Target),
    IncU16(U16Target),
    Or(LogicalOpTarget),
    Compare(LogicalOpTarget),
    And(LogicalOpTarget),
    DecU8(IncDecU8Target),
    DecU16(U16Target),
    Xor(LogicalOpTarget),
    AddStackPointer,
    AddU8(LogicalOpTarget),
    AddU16(U16Target),
    Sub(LogicalOpTarget),
    CbSrl(CommonOperand),
    CbRr(CommonOperand),
    CbRl(CommonOperand),
    CbRlc(CommonOperand),
    CbRrc(CommonOperand),
    CbBit { n: u8, target: CommonOperand },
    CbRes { n: u8, target: CommonOperand },
    CbSet { n: u8, target: CommonOperand },
    CbSwap(CommonOperand),
    CbSla(CommonOperand),
    CbSra(CommonOperand),
    Rra,
    Rla,
    Rlca,
    Rrca,
    Adc(LogicalOpTarget),
    Sbc(LogicalOpTarget),
    Cpl,
    Scf,
    Ccf,
    Daa,
    Rst(u16),
    Stop,
}

/// The operand that octal digit `z` selects: B, C, D, E, H, L, the byte at
/// HL, A.
pub open spec fn spec_common_operand(z: int) -> CommonOperand {
    if z == 0 {
        CommonOperand::Register(RegisterU8::B)
    } else if z == 1 {
        CommonOperand::Register(RegisterU8::C)
    } else if z == 2 {
        CommonOperand::Register(RegisterU8::D)
    } else if z == 3 {
        CommonOperand::Register(RegisterU8::E)
    } else if z == 4 {
        CommonOperand::Register(RegisterU8::H)
    } else if z == 5 {
        CommonOperand::Register(RegisterU8::L)
    } else if z == 6 {
        CommonOperand::AddressHL
    } else {
        CommonOperand::Register(RegisterU8::A)
    }
}

pub open spec fn spec_operand_as_src(operand: CommonOperand) -> LoadSrcU8 {
    match operand {
        CommonOperand::Register(r) => LoadSrcU8::Register(r),
        CommonOperand::AddressHL => LoadSrcU8::AddressU16(RegisterU16::HL),
    }
}

pub open spec fn spec_operand_as_dst(operand: CommonOperand) -> LoadDstU8 {
    match operand {
        CommonOperand::Register(r) => LoadDstU8::Register(r),
        CommonOperand::AddressHL => LoadDstU8::AddressU16(RegisterU16::HL),
    }
}

pub open spec fn spec_operand_as_inc_dec(operand: CommonOperand) -> IncDecU8Target {
    match operand {
        CommonOperand::Register(r) => IncDecU8Target::RegisterU8(r),
        CommonOperand::AddressHL => IncDecU8Target::Address(RegisterU16::HL),
    }
}

/// The register pair that digit `p` selects where the fourth is SP.
pub open spec fn spec_pair_or_sp(p: int) -> U16Target {
    if p == 0 {
        U16Target::RegisterU16(RegisterU16::BC)
    } else if p == 1 {
        U16Target::RegisterU16(RegisterU16::DE)
    } else if p == 2 {
        U16Target::RegisterU16(RegisterU16::HL)
    } else {
        U16Target::StackPointer
    }
}

/// The register pair that digit `p` selects where the fourth is AF.
pub open spec fn spec_pair_or_af(p: int) -> RegisterU16 {
    if p == 0 {
        RegisterU16::BC
    } else if p == 1 {
        RegisterU16::DE
    } else if p == 2 {
        RegisterU16::HL
    } else {
        RegisterU16::AF
    }
}

pub open spec fn spec_condition(y: int) -> FlagCondition {
    if y == 0 {
        FlagCondition::NZ
    } else if y == 1 {
        FlagCondition::Z
    } else if y == 2 {
        FlagCondition::NC
    } else {
        FlagCondition::C
    }
}

/// The accumulator operation that digit `y` selects, on `target`.
pub open spec fn spec_accumulator_op(y: int, target: LogicalOpTarget) -> Instruction {
    if y == 0 {
        Instruction::AddU8(target)
    } else if y == 1 {
        Instruction::Adc(target)
    } else if y == 2 {
        Instruction::Sub(target)
    } else if y == 3 {
        Instruction::Sbc(target)
    } else if y == 4 {
        Instruction::And(target)
    } else if y == 5 {
        Instruction::Xor(target)
    } else if y == 6 {
        Instruction::Or(target)
    } else {
        Instruction::Compare(target)
    }
}

/// Opcodes `0x00..=0x3F`.
pub open spec fn spec_decode_block0(y: int, z: int) -> Instruction {
    let p = y / 2;
    let q = y % 2;
    let a = RegisterU8::A;
    if z == 0 {
        if y == 0 {
            Instruction::Noop
        } else if y == 1 {
            Instruction::LoadU16 { dst: LoadDstU16::ImmediateAddress, src: LoadSrcU16::StackPointer }
        } else if y == 2 {
            Instruction::Stop
        } else if y == 3 {
            Instruction::JumpRelative(None)
        } else {
            Instruction::JumpRelative(Some(spec_condition(y - 4)))
        }
    } else if z == 1 {
        if q == 0 {
            Instruction::LoadU16 {
                dst: match spec_pair_or_sp(p) {
                    U16Target::RegisterU16(r) => LoadDstU16::Register(r),
                    U16Target::StackPointer => LoadDstU16::StackPointer,
                },
                src: LoadSrcU16::ImmediateU16,
            }
        } else {
            Instruction::AddU16(spec_pair_or_sp(p))
        }
    } else if z == 2 {
        if y == 0 {
            Instruction::LoadU8 {
                dst: LoadDstU8::AddressU16(RegisterU16::BC),
                src: LoadSrcU8::Register(a),
            }
        } else if y == 1 {
            Instruction::LoadU8 {
                dst: LoadDstU8::Register(a),
                src: LoadSrcU8::AddressU16(RegisterU16::BC),
            }
        } else if y == 2 {
            Instruction::LoadU8 {
                dst: LoadDstU8::AddressU16(RegisterU16::DE),
                src: LoadSrcU8::Register(a),
            }
        } else if y == 3 {
            Instruction::LoadU8 {
                dst: LoadDstU8::Register(a),
                src: LoadSrcU8::AddressU16(RegisterU16::DE),
            }
        } else if y == 4 {
            Instruction::LoadU8 {
                dst: LoadDstU8::AddressU16Increment(RegisterU16::HL),
                src: LoadSrcU8::Register(a),
            }
        } else if y == 5 {
            Instruction::LoadU8 {
                dst: LoadDstU8::Register(a),
                src: LoadSrcU8::AddressU16Increment(RegisterU16::HL),
            }
        } else if y == 6 {
            Instruction::LoadU8 {
                dst: LoadDstU8::AddressU16Decrement(RegisterU16::HL),
                src: LoadSrcU8::Register(a),
            }
        } else {
            Instruction::LoadU8 {
                dst: LoadDstU8::Register(a),
                src: LoadSrcU8::AddressU16Decrement(RegisterU16::HL),
            }
        }
    } else if z == 3 {
        if q == 0 {
            Instruction::IncU16(spec_pair_or_sp(p))
        } else {
            Instruction::DecU16(spec_pair_or_sp(p))
        }
    } else if z == 4 {
        Instruction::IncU8(spec_operand_as_inc_dec(spec_common_operand(y)))
    } else if z == 5 {
        Instruction::DecU8(spec_operand_as_inc_dec(spec_common_operand(y)))
    } else if z == 6 {
        Instruction::LoadU8 {
            dst: spec_operand_as_dst(spec_common_operand(y)),
            src: LoadSrcU8::ImmediateU8,
        }
    } else {
        if y == 0 {
            Instruction::Rlca
        } else if y == 1 {
            Instruction::Rrca
        } else if y == 2 {
            Instruction::Rla
        } else if y == 3 {
            Instruction::Rra
        } else if y == 4 {
            Instruction::Daa
        } else if y == 5 {
            Instruction::Cpl
        } else if y == 6 {
            Instruction::Scf
        } else {
            Instruction::Ccf
        }
    }
}

/// Opcodes `0xC0..=0xFF`, among them the eleven bytes that encode nothing
/// and the prefix byte `0xCB`, which is no instruction by itself.
pub open spec fn spec_decode_block3(y: int, z: int) -> Option<Instruction> {
    let p = y / 2;
    let q = y % 2;
    let a = RegisterU8::A;
    if z == 0 {
        if y < 4 {
            Some(Instruction::Ret(Some(spec_condition(y))))
        } else if y == 4 {
            Some(
                Instruction::LoadU8 {
                    dst: LoadDstU8::ImmediateAddressU8,
                    src: LoadSrcU8::Register(a),
                },
            )
        } else if y == 5 {
            Some(Instruction::AddStackPointer)
        } else if y == 6 {
            Some(
                Instruction::LoadU8 {
                    dst: LoadDstU8::Register(a),
                    src: LoadSrcU8::ImmediateAddressU8,
                },
            )
        } else {
            Some(Instruction::LoadHlWithOffsetSp)
        }
    } else if z == 1 {
        if q == 0 {
            Some(Instruction::Pop(spec_pair_or_af(p)))
        } else if p == 0 {
            Some(Instruction::Ret(None))
        } else if p == 1 {
            Some(Instruction::Reti)
        } else if p == 2 {
            Some(Instruction::JumpAddressHL)
        } else {
            Some(
                Instruction::LoadU16 {
                    dst: LoadDstU16::StackPointer,
                    src: LoadSrcU16::Register(RegisterU16::HL),
                },
            )
        }
    } else if z == 2 {
        if y < 4 {
            Some(Instruction::JumpImmediate(Some(spec_condition(y))))
        } else if y == 4 {
            Some(
                Instruction::LoadU8 {
                    dst: LoadDstU8::AddressU8(RegisterU8::C),
                    src: LoadSrcU8::Register(a),
                },
            )
        } else if y == 5 {
            Some(
                Instruction::LoadU8 {
                    dst: LoadDstU8::ImmediateAddressU16,
                    src: LoadSrcU8::Register(a),
                },
            )
        } else if y == 6 {
            Some(
                Instruction::LoadU8 {
                    dst: LoadDstU8::Register(a),
                    src: LoadSrcU8::AddressU8(RegisterU8::C),
                },
            )
        } else {
            Some(
                Instruction::LoadU8 {
                    dst: LoadDstU8::Register(a),
                    src: LoadSrcU8::ImmediateAddressU16,
                },
            )
        }
    } else if z == 3 {
        if y == 0 {
            Some(Instruction::JumpImmediate(None))
        } else if y == 6 {
            Some(Instruction::DisableInterrupts)
        } else if y == 7 {
            Some(Instruction::EnableInterrupts)
        } else {
            None
        }
    } else if z == 4 {
        if y < 4 {
            Some(Instruction::Call(Some(spec_condition(y))))
        } else {
            None
        }
    } else if z == 5 {
        if q == 0 {
            Some(Instruction::Push(spec_pair_or_af(p)))
        } else if p == 0 {
            Some(Instruction::Call(None))
        } else {
            None
        }
    } else if z == 6 {
        Some(spec_accumulator_op(y, LogicalOpTarget::ImmediateU8))
    } else {
        Some(Instruction::Rst((y * 8) as u16))
    }
}

/// The instruction that the primary opcode byte `opcode` encodes, if any.
pub open spec fn spec_decode(opcode: u8) -> Option<Instruction> {
    let x = opcode as int / 64;
    let y = (opcode as int / 8) % 8;
    let z = opcode as int % 8;
    if x == 0 {
        Some(spec_decode_block0(y, z))
    } else if x == 1 {
        if opcode == 0x76 {
            Some(Instruction::Halt)
        } else {
            Some(
                Instruction::LoadU8 {
                    dst: spec_operand_as_dst(spec_common_operand(y)),
                    src: spec_operand_as_src(spec_common_operand(z)),
                },
            )
        }
    } else if x == 2 {
        Some(spec_accumulator_op(y, LogicalOpTarget::Common(spec_common_operand(z))))
    } else {
        spec_decode_block3(y, z)
    }
}

/// The instruction that the byte `opcode` encodes after the prefix `0xCB`.
pub open spec fn spec_decode_cb(opcode: u8) -> Instruction {
    let x = opcode as int / 64;
    let y = (opcode as int / 8) % 8;
    let target = spec_common_operand(opcode as int % 8);
    if x == 0 {
        if y == 0 {
            Instruction::CbRlc(target)
        } else if y == 1 {
            Instruction::CbRrc(target)
        } else if y == 2 {
            Instruction::CbRl(target)
        } else if y == 3 {
            Instruction::CbRr(target)
        } else if y == 4 {
            Instruction::CbSla(target)
        } else if y == 5 {
            Instruction::CbSra(target)
        } else if y == 6 {
            Instruction::CbSwap(target)
        } else {
            Instruction::CbSrl(target)
        }
    } else if x == 1 {
        Instruction::CbBit { n: y as u8, target }
    } else if x == 2 {
        Instruction::CbRes { n: y as u8, target }
    } else {
        Instruction::CbSet { n: y as u8, target }
    }
}

/// The primary opcode bytes that encode no instruction of their own.
pub open spec fn spec_is_undefined(opcode: u8) -> bool {
    opcode == 0xCB || opcode == 0xD3 || opcode == 0xDB || opcode == 0xDD || opcode == 0xE3
        || opcode == 0xE4 || opcode == 0xEB || opcode == 0xEC || opcode == 0xED || opcode == 0xF4
        || opcode == 0xFC || opcode == 0xFD
}

/// `decoded` where it satisfies `keep`, nothing otherwise.
pub open spec fn spec_only(decoded: Option<Instruction>, keep: spec_fn(Instruction) -> bool) -> Option<
    Instruction,
> {
    match decoded {
        Some(i) => if keep(i) {
            Some(i)
        } else {
            None
        },
        None => None,
    }
}


proof fn lemma_row_and_column(opcode: u8)
    by (bit_vector)
    ensures
        (opcode & 0xF0) >> 4 == opcode / 16,
        opcode & 0x0F == opcode % 16,
{
}

fn resolve_common_operand_from_col(col: u8) -> (r: CommonOperand)
    requires
        col < 16,
    ensures
        r == spec_common_operand(col as int % 8),
{
    let offset_col = if col < 0x8 {
        col
    } else {
        col - 0x8
    };
    if offset_col == 0x0 {
        CommonOperand::Register(RegisterU8::B)
    } else if offset_col == 0x1 {
        CommonOperand::Register(RegisterU8::C)
    } else if offset_col == 0x2 {
        CommonOperand::Register(RegisterU8::D)
    } else if offset_col == 0x3 {
        CommonOperand::Register(RegisterU8::E)
    } else if offset_col == 0x4 {
        CommonOperand::Register(RegisterU8::H)
    } else if offset_col == 0x5 {
        CommonOperand::Register(RegisterU8::L)
    } else if offset_col == 0x6 {
        CommonOperand::AddressHL
    } else {
        CommonOperand::Register(RegisterU8::A)
    }
}

/// Where the byte of an 8-bit load comes from, for the opcode in row
/// `row_mask` and column `col_mask` of the chart.
pub open spec fn spec_load_src(opcode: u8) -> Option<LoadSrcU8> {
    match spec_decode(opcode) {
        Some(Instruction::LoadU8 { dst, src }) => Some(src),
        _ => None,
    }
}

/// Where the byte of an 8-bit load goes.
pub open spec fn spec_load_dst(opcode: u8) -> Option<LoadDstU8> {
    match spec_decode(opcode) {
        Some(Instruction::LoadU8 { dst, src }) => Some(dst),
        _ => None,
    }
}

#[verifier::rlimit(30)]
fn try_decode_u8_load_src(row_mask: u8, col_mask: u8) -> (r: Option<LoadSrcU8>)
    requires
        row_mask < 16,
        col_mask < 16,
    ensures
        r == spec_load_src((row_mask * 16 + col_mask) as u8),
{
    if row_mask <= 0x3 {
        if col_mask == 0x2 {
            Some(LoadSrcU8::Register(RegisterU8::A))
        } else if col_mask == 0x6 || col_mask == 0xE {
            Some(LoadSrcU8::ImmediateU8)
        } else if col_mask == 0xA {
            if row_mask == 0x0 {
                Some(LoadSrcU8::AddressU16(RegisterU16::BC))
            } else if row_mask == 0x1 {
                Some(LoadSrcU8::AddressU16(RegisterU16::DE))
            } else if row_mask == 0x2 {
                Some(LoadSrcU8::AddressU16Increment(RegisterU16::HL))
            } else {
                Some(LoadSrcU8::AddressU16Decrement(RegisterU16::HL))
            }
        } else {
            None
        }
    } else if row_mask <= 0x7 {
        if row_mask == 0x7 && col_mask == 0x6 {
            None
        } else {
            Some(
                match resolve_common_operand_from_col(col_mask) {
                    CommonOperand::Register(reg) => LoadSrcU8::Register(reg),
                    CommonOperand::AddressHL => LoadSrcU8::AddressU16(RegisterU16::HL),
                },
            )
        }
    } else if row_mask == 0xE {
        if col_mask == 0x0 || col_mask == 0x2 || col_mask == 0xA {
            Some(LoadSrcU8::Register(RegisterU8::A))
        } else {
            None
        }
    } else if row_mask == 0xF {
        if col_mask == 0x0 {
            Some(LoadSrcU8::ImmediateAddressU8)
        } else if col_mask == 0x2 {
            Some(LoadSrcU8::AddressU8(RegisterU8::C))
        } else if col_mask == 0xA {
            Some(LoadSrcU8::ImmediateAddressU16)
        } else {
            None
        }
    } else {
        None
    }
}

#[verifier::rlimit(30)]
fn try_decode_u8_load_dst(row_mask: u8, col_mask: u8) -> (r: Option<LoadDstU8>)
    requires
        row_mask < 16,
        col_mask < 16,
    ensures
        r == spec_load_dst((row_mask * 16 + col_mask) as u8),
{
    if row_mask <= 0x3 {
        if col_mask == 0x2 {
            if row_mask == 0x0 {
                Some(LoadDstU8::AddressU16(RegisterU16::BC))
            } else if row_mask == 0x1 {
                Some(LoadDstU8::AddressU16(RegisterU16::DE))
            } else if row_mask == 0x2 {
                Some(LoadDstU8::AddressU16Increment(RegisterU16::HL))
            } else {
                Some(LoadDstU8::AddressU16Decrement(RegisterU16::HL))
            }
        } else if col_mask == 0x6 {
            if row_mask == 0x0 {
                Some(LoadDstU8::Register(RegisterU8::B))
            } else if row_mask == 0x1 {
                Some(LoadDstU8::Register(RegisterU8::D))
            } else if row_mask == 0x2 {
                Some(LoadDstU8::Register(RegisterU8::H))
            } else {
                Some(LoadDstU8::AddressU16(RegisterU16::HL))
            }
        } else if col_mask == 0xA {
            Some(LoadDstU8::Register(RegisterU8::A))
        } else if col_mask == 0xE {
            if row_mask == 0x0 {
                Some(LoadDstU8::Register(RegisterU8::C))
            } else if row_mask == 0x1 {
                Some(LoadDstU8::Register(RegisterU8::E))
            } else if row_mask == 0x2 {
                Some(LoadDstU8::Register(RegisterU8::L))
            } else {
                Some(LoadDstU8::Register(RegisterU8::A))
            }
        } else {
            None
        }
    } else if row_mask <= 0x7 {
        if col_mask <= 0x7 {
            if row_mask == 0x4 {
                Some(LoadDstU8::Register(RegisterU8::B))
            } else if row_mask == 0x5 {
                Some(LoadDstU8::Register(RegisterU8::D))
            } else if row_mask == 0x6 {
                Some(LoadDstU8::Register(RegisterU8::H))
            } else if col_mask == 0x6 {
                None
            } else {
                Some(LoadDstU8::AddressU16(RegisterU16::HL))
            }
        } else {
            if row_mask == 0x4 {
                Some(LoadDstU8::Register(RegisterU8::C))
            } else if row_mask == 0x5 {
                Some(LoadDstU8::Register(RegisterU8::E))
            } else if row_mask == 0x6 {
                Some(LoadDstU8::Register(RegisterU8::L))
            } else {
                Some(LoadDstU8::Register(RegisterU8::A))
            }
        }
    } else if row_mask == 0xE {
        if col_mask == 0x0 {
            Some(LoadDstU8::ImmediateAddressU8)
        } else if col_mask == 0x2 {
            Some(LoadDstU8::AddressU8(RegisterU8::C))
        } else if col_mask == 0xA {
            Some(LoadDstU8::ImmediateAddressU16)
        } else {
            None
        }
    } else if row_mask == 0xF {
        if col_mask == 0x0 || col_mask == 0x2 || col_mask == 0xA {
            Some(LoadDstU8::Register(RegisterU8::A))
        } else {
            None
        }
    } else {
        None
    }
}

fn try_decode_u8_load_instruction(opcode: u8) -> (r: Option<Instruction>)
    ensures
        r == spec_only(spec_decode(opcode), |i: Instruction| i is LoadU8),
{
    proof {
        lemma_row_and_column(opcode);
    }
    let row_mask = (opcode & 0xF0) >> 4;
    let col_mask = opcode & 0x0F;

    let src = try_decode_u8_load_src(row_mask, col_mask)?;
    let dst = try_decode_u8_load_dst(row_mask, col_mask)?;

    Some(Instruction::LoadU8 { src, dst })
}

fn try_decode_u16_load_instruction(opcode: u8) -> (r: Option<Instruction>)
    ensures
        r == spec_only(
            spec_decode(opcode),
            |i: Instruction| i is LoadU16 || i is LoadHlWithOffsetSp,
        ),
{
    if opcode == 0x01 {
        Some(
            Instruction::LoadU16 {
                dst: LoadDstU16::Register(RegisterU16::BC),
                src: LoadSrcU16::ImmediateU16,
            },
        )
    } else if opcode == 0x11 {
        Some(
            Instruction::LoadU16 {
                dst: LoadDstU16::Register(RegisterU16::DE),
                src: LoadSrcU16::ImmediateU16,
            },
        )
    } else if opcode == 0x21 {
        Some(
            Instruction::LoadU16 {
                dst: LoadDstU16::Register(RegisterU16::HL),
                src: LoadSrcU16::ImmediateU16,
            },
        )
    } else if opcode == 0x31 {
        Some(Instruction::LoadU16 { dst: LoadDstU16::StackPointer, src: LoadSrcU16::ImmediateU16 })
    } else if opcode == 0x08 {
        Some(
            Instruction::LoadU16 { dst: LoadDstU16::ImmediateAddress, src: LoadSrcU16::StackPointer },
        )
    } else if opcode == 0xF8 {
        Some(Instruction::LoadHlWithOffsetSp)
    } else if opcode == 0xF9 {
        Some(
            Instruction::LoadU16 {
                dst: LoadDstU16::StackPointer,
                src: LoadSrcU16::Register(RegisterU16::HL),
            },
        )
    } else {
        None
    }
}

fn try_decode_call_instruction(opcode: u8) -> (r: Option<Instruction>)
    ensures
        r == spec_only(spec_decode(opcode), |i: Instruction| i is Call),
{
    if opcode == 0xC4 {
        Some(Instruction::Call(Some(FlagCondition::NZ)))
    } else if opcode == 0xCC {
        Some(Instruction::Call(Some(FlagCondition::Z)))
    } else if opcode == 0xCD {
        Some(Instruction::Call(None))
    } else if opcode == 0xD4 {
        Some(Instruction::Call(Some(FlagCondition::NC)))
    } else if opcode == 0xDC {
        Some(Instruction::Call(Some(FlagCondition::C)))
    } else {
        None
    }
}

fn try_decode_relative_jump_instruction(opcode: u8) -> (r: Option<Instruction>)
    ensures
        r == spec_only(spec_decode(opcode), |i: Instruction| i is JumpRelative),
{
    if opcode == 0x18 {
        Some(Instruction::JumpRelative(None))
    } else if opcode == 0x20 {
        Some(Instruction::JumpRelative(Some(FlagCondition::NZ)))
    } else if opcode == 0x28 {
        Some(Instruction::JumpRelative(Some(FlagCondition::Z)))
    } else if opcode == 0x30 {
        Some(Instruction::JumpRelative(Some(FlagCondition::NC)))
    } else if opcode == 0x38 {
        Some(Instruction::JumpRelative(Some(FlagCondition::C)))
    } else {
        None
    }
}

fn try_decode_ret_instruction(opcode: u8) -> (r: Option<Instruction>)
    ensures
        r == spec_only(spec_decode(opcode), |i: Instruction| i is Ret || i is Reti),
{
    if opcode == 0xC0 {
        Some(Instruction::Ret(Some(FlagCondition::NZ)))
    } else if opcode == 0xC8 {
        Some(Instruction::Ret(Some(FlagCondition::Z)))
    } else if opcode == 0xC9 {
        Some(Instruction::Ret(None))
    } else if opcode == 0xD0 {
        Some(Instruction::Ret(Some(FlagCondition::NC)))
    } else if opcode == 0xD8 {
        Some(Instruction::Ret(Some(FlagCondition::C)))
    } else if opcode == 0xD9 {
        Some(Instruction::Reti)
    } else {
        None
    }
}

fn try_decode_push_instruction(opcode: u8) -> (r: Option<Instruction>)
    ensures
        r == spec_only(spec_decode(opcode), |i: Instruction| i is Push),
{
    if opcode == 0xC5 {
        Some(Instruction::Push(RegisterU16::BC))
    } else if opcode == 0xD5 {
        Some(Instruction::Push(RegisterU16::DE))
    } else if opcode == 0xE5 {
        Some(Instruction::Push(RegisterU16::HL))
    } else if opcode == 0xF5 {
        Some(Instruction::Push(RegisterU16::AF))
    } else {
        None
    }
}

fn try_decode_pop_instruction(opcode: u8) -> (r: Option<Instruction>)
    ensures
        r == spec_only(spec_decode(opcode), |i: Instruction| i is Pop),
{
    if opcode == 0xC1 {
        Some(Instruction::Pop(RegisterU16::BC))
    } else if opcode == 0xD1 {
        Some(Instruction::Pop(RegisterU16::DE))
    } else if opcode == 0xE1 {
        Some(Instruction::Pop(RegisterU16::HL))
    } else if opcode == 0xF1 {
        Some(Instruction::Pop(RegisterU16::AF))
    } else {
        None
    }
}

fn try_decode_inc_instruction(opcode: u8) -> (r: Option<Instruction>)
    ensures
        r == spec_only(spec_decode(opcode), |i: Instruction| i is IncU8 || i is IncU16),
{
    if opcode == 0x03 {
        Some(Instruction::IncU16(U16Target::RegisterU16(RegisterU16::BC)))
    } else if opcode == 0x13 {
        Some(Instruction::IncU16(U16Target::RegisterU16(RegisterU16::DE)))
    } else if opcode == 0x23 {
        Some(Instruction::IncU16(U16Target::RegisterU16(RegisterU16::HL)))
    } else if opcode == 0x33 {
        Some(Instruction::IncU16(U16Target::StackPointer))
    } else if opcode == 0x04 {
        Some(Instruction::IncU8(IncDecU8Target::RegisterU8(RegisterU8::B)))
    } else if opcode == 0x14 {
        Some(Instruction::IncU8(IncDecU8Target::RegisterU8(RegisterU8::D)))
    } else if opcode == 0x24 {
        Some(Instruction::IncU8(IncDecU8Target::RegisterU8(RegisterU8::H)))
    } else if opcode == 0x34 {
        Some(Instruction::IncU8(IncDecU8Target::Address(RegisterU16::HL)))
    } else if opcode == 0x0C {
        Some(Instruction::IncU8(IncDecU8Target::RegisterU8(RegisterU8::C)))
    } else if opcode == 0x1C {
        Some(Instruction::IncU8(IncDecU8Target::RegisterU8(RegisterU8::E)))
    } else if opcode == 0x2C {
        Some(Instruction::IncU8(IncDecU8Target::RegisterU8(RegisterU8::L)))
    } else if opcode == 0x3C {
        Some(Instruction::IncU8(IncDecU8Target::RegisterU8(RegisterU8::A)))
    } else {
        None
    }
}

fn try_decode_dec_instruction(opcode: u8) -> (r: Option<Instruction>)
    ensures
        r == spec_only(spec_decode(opcode), |i: Instruction| i is DecU8 || i is DecU16),
{
    if opcode == 0x0B {
        Some(Instruction::DecU16(U16Target::RegisterU16(RegisterU16::BC)))
    } else if opcode == 0x1B {
        Some(Instruction::DecU16(U16Target::RegisterU16(RegisterU16::DE)))
    } else if opcode == 0x2B {
        Some(Instruction::DecU16(U16Target::RegisterU16(RegisterU16::HL)))
    } else if opcode == 0x3B {
        Some(Instruction::DecU16(U16Target::StackPointer))
    } else if opcode == 0x05 {
        Some(Instruction::DecU8(IncDecU8Target::RegisterU8(RegisterU8::B)))
    } else if opcode == 0x15 {
        Some(Instruction::DecU8(IncDecU8Target::RegisterU8(RegisterU8::D)))
    } else if opcode == 0x25 {
        Some(Instruction::DecU8(IncDecU8Target::RegisterU8(RegisterU8::H)))
    } else if opcode == 0x35 {
        Some(Instruction::DecU8(IncDecU8Target::Address(RegisterU16::HL)))
    } else if opcode == 0x0D {
        Some(Instruction::DecU8(IncDecU8Target::RegisterU8(RegisterU8::C)))
    } else if opcode == 0x1D {
        Some(Instruction::DecU8(IncDecU8Target::RegisterU8(RegisterU8::E)))
    } else if opcode == 0x2D {
        Some(Instruction::DecU8(IncDecU8Target::RegisterU8(RegisterU8::L)))
    } else if opcode == 0x3D {
        Some(Instruction::DecU8(IncDecU8Target::RegisterU8(RegisterU8::A)))
    } else {
        None
    }
}

fn try_decode_or_instruction(opcode: u8) -> (r: Option<Instruction>)
    ensures
        r == spec_only(spec_decode(opcode), |i: Instruction| i is Or),
{
    if 0xB0 <= opcode && opcode <= 0xB7 {
        proof {
            lemma_row_and_column(opcode);
        }
        let operand = resolve_common_operand_from_col(opcode & 0x0F);
        Some(Instruction::Or(LogicalOpTarget::Common(operand)))
    } else if opcode == 0xF6 {
        Some(Instruction::Or(LogicalOpTarget::ImmediateU8))
    } else {
        None
    }
}

fn try_decode_compare_instruction(opcode: u8) -> (r: Option<Instruction>)
    ensures
        r == spec_only(spec_decode(opcode), |i: Instruction| i is Compare),
{
    if 0xB8 <= opcode && opcode <= 0xBF {
        proof {
            lemma_row_and_column(opcode);
        }
        let operand = resolve_common_operand_from_col(opcode & 0x0F);
        Some(Instruction::Compare(LogicalOpTarget::Common(operand)))
    } else if opcode == 0xFE {
        Some(Instruction::Compare(LogicalOpTarget::ImmediateU8))
    } else {
        None
    }
}

fn try_decode_and_instruction(opcode: u8) -> (r: Option<Instruction>)
    ensures
        r == spec_only(spec_decode(opcode), |i: Instruction| i is And),
{
    if 0xA0 <= opcode && opcode <= 0xA7 {
        proof {
            lemma_row_and_column(opcode);
        }
        let operand = resolve_common_operand_from_col(opcode & 0x0F);
        Some(Instruction::And(LogicalOpTarget::Common(operand)))
    } else if opcode == 0xE6 {
        Some(Instruction::And(LogicalOpTarget::ImmediateU8))
    } else {
        None
    }
}

fn try_decode_xor_instruction(opcode: u8) -> (r: Option<Instruction>)
    ensures
        r == spec_only(spec_decode(opcode), |i: Instruction| i is Xor),
{
    if 0xA8 <= opcode && opcode <= 0xAF {
        proof {
            lemma_row_and_column(opcode);
        }
        let operand = resolve_common_operand_from_col(opcode & 0x0F);
        Some(Instruction::Xor(LogicalOpTarget::Common(operand)))
    } else if opcode == 0xEE {
        Some(Instruction::Xor(LogicalOpTarget::ImmediateU8))
    } else {
        None
    }
}

fn try_decode_add_instruction(opcode: u8) -> (r: Option<Instruction>)
    ensures
        r == spec_only(
            spec_decode(opcode),
            |i: Instruction| i is AddU8 || i is AddU16 || i is AddStackPointer,
        ),
{
    if opcode == 0x09 {
        Some(Instruction::AddU16(U16Target::RegisterU16(RegisterU16::BC)))
    } else if opcode == 0x19 {
        Some(Instruction::AddU16(U16Target::RegisterU16(RegisterU16::DE)))
    } else if opcode == 0x29 {
        Some(Instruction::AddU16(U16Target::RegisterU16(RegisterU16::HL)))
    } else if opcode == 0x39 {
        Some(Instruction::AddU16(U16Target::StackPointer))
    } else if opcode == 0xE8 {
        Some(Instruction::AddStackPointer)
    } else if 0x80 <= opcode && opcode <= 0x87 {
        proof {
            lemma_row_and_column(opcode);
        }
        let operand = resolve_common_operand_from_col(opcode & 0x0F);
        Some(Instruction::AddU8(LogicalOpTarget::Common(operand)))
    } else if opcode == 0xC6 {
        Some(Instruction::AddU8(LogicalOpTarget::ImmediateU8))
    } else {
        None
    }
}

fn try_decode_sub_instruction(opcode: u8) -> (r: Option<Instruction>)
    ensures
        r == spec_only(spec_decode(opcode), |i: Instruction| i is Sub),
{
    if 0x90 <= opcode && opcode <= 0x97 {
        proof {
            lemma_row_and_column(opcode);
        }
        let operand = resolve_common_operand_from_col(opcode & 0x0F);
        Some(Instruction::Sub(LogicalOpTarget::Common(operand)))
    } else if opcode == 0xD6 {
        Some(Instruction::Sub(LogicalOpTarget::ImmediateU8))
    } else {
        None
    }
}

fn try_decode_adc_instruction(opcode: u8) -> (r: Option<Instruction>)
    ensures
        r == spec_only(spec_decode(opcode), |i: Instruction| i is Adc),
{
    if 0x88 <= opcode && opcode <= 0x8F {
        proof {
            lemma_row_and_column(opcode);
        }
        let operand = resolve_common_operand_from_col(opcode & 0x0F);
        Some(Instruction::Adc(LogicalOpTarget::Common(operand)))
    } else if opcode == 0xCE {
        Some(Instruction::Adc(LogicalOpTarget::ImmediateU8))
    } else {
        None
    }
}

fn try_decode_sbc_instruction(opcode: u8) -> (r: Option<Instruction>)
    ensures
        r == spec_only(spec_decode(opcode), |i: Instruction| i is Sbc),
{
    if 0x98 <= opcode && opcode <= 0x9F {
        proof {
            lemma_row_and_column(opcode);
        }
        let operand = resolve_common_operand_from_col(opcode & 0x0F);
        Some(Instruction::Sbc(LogicalOpTarget::Common(operand)))
    } else if opcode == 0xDE {
        Some(Instruction::Sbc(LogicalOpTarget::ImmediateU8))
    } else {
        None
    }
}

fn try_decode_jp_instruction(opcode: u8) -> (r: Option<Instruction>)
    ensures
        r == spec_only(spec_decode(opcode), |i: Instruction| i is JumpImmediate),
{
    if opcode == 0xC2 {
        Some(Instruction::JumpImmediate(Some(FlagCondition::NZ)))
    } else if opcode == 0xD2 {
        Some(Instruction::JumpImmediate(Some(FlagCondition::NC)))
    } else if opcode == 0xC3 {
        Some(Instruction::JumpImmediate(None))
    } else if opcode == 0xCA {
        Some(Instruction::JumpImmediate(Some(FlagCondition::Z)))
    } else if opcode == 0xDA {
        Some(Instruction::JumpImmediate(Some(FlagCondition::C)))
    } else {
        None
    }
}

fn try_decode_rst_instruction(opcode: u8) -> (r: Option<Instruction>)
    ensures
        r == spec_only(spec_decode(opcode), |i: Instruction| i is Rst),
{
    if opcode == 0xC7 {
        Some(Instruction::Rst(0x00))
    } else if opcode == 0xD7 {
        Some(Instruction::Rst(0x10))
    } else if opcode == 0xE7 {
        Some(Instruction::Rst(0x20))
    } else if opcode == 0xF7 {
        Some(Instruction::Rst(0x30))
    } else if opcode == 0xCF {
        Some(Instruction::Rst(0x08))
    } else if opcode == 0xDF {
        Some(Instruction::Rst(0x18))
    } else if opcode == 0xEF {
        Some(Instruction::Rst(0x28))
    } else if opcode == 0xFF {
        Some(Instruction::Rst(0x38))
    } else {
        None
    }
}

/// Decodes a primary opcode byte. Nothing comes back for exactly the eleven
/// bytes that encode nothing and for the prefix byte `0xCB`.
#[verifier::rlimit(30)]
pub fn decode(opcode: u8) -> (r: Option<Instruction>)
    ensures
        r == spec_decode(opcode),
        r is None <==> spec_is_undefined(opcode),
{
    proof {
        lemma_undefined_opcodes(opcode);
    }
    if let Some(instruction) = try_decode_u8_load_instruction(opcode) {
        return Some(instruction);
    }
    if let Some(instruction) = try_decode_u16_load_instruction(opcode) {
        return Some(instruction);
    }
    if let Some(instruction) = try_decode_call_instruction(opcode) {
        return Some(instruction);
    }
    if let Some(instruction) = try_decode_relative_jump_instruction(opcode) {
        return Some(instruction);
    }
    if let Some(instruction) = try_decode_ret_instruction(opcode) {
        return Some(instruction);
    }
    if let Some(instruction) = try_decode_push_instruction(opcode) {
        return Some(instruction);
    }
    if let Some(instruction) = try_decode_pop_instruction(opcode) {
        return Some(instruction);
    }
    if let Some(instruction) = try_decode_inc_instruction(opcode) {
        return Some(instruction);
    }
    if let Some(instruction) = try_decode_or_instruction(opcode) {
        return Some(instruction);
    }
    if let Some(instruction) = try_decode_compare_instruction(opcode) {
        return Some(instruction);
    }
    if let Some(instruction) = try_decode_and_instruction(opcode) {
        return Some(instruction);
    }
    if let Some(instruction) = try_decode_dec_instruction(opcode) {
        return Some(instruction);
    }
    if let Some(instruction) = try_decode_xor_instruction(opcode) {
        return Some(instruction);
    }
    if let Some(instruction) = try_decode_add_instruction(opcode) {
        return Some(instruction);
    }
    if let Some(instruction) = try_decode_sub_instruction(opcode) {
        return Some(instruction);
    }
    if let Some(instruction) = try_decode_adc_instruction(opcode) {
        return Some(instruction);
    }
    if let Some(instruction) = try_decode_sbc_instruction(opcode) {
        return Some(instruction);
    }
    if let Some(instruction) = try_decode_jp_instruction(opcode) {
        return Some(instruction);
    }
    if let Some(instruction) = try_decode_rst_instruction(opcode) {
        return Some(instruction);
    }
    if opcode == 0x00 {
        Some(Instruction::Noop)
    } else if opcode == 0x07 {
        Some(Instruction::Rlca)
    } else if opcode == 0x0F {
        Some(Instruction::Rrca)
    } else if opcode == 0x10 {
        Some(Instruction::Stop)
    } else if opcode == 0x17 {
        Some(Instruction::Rla)
    } else if opcode == 0x1F {
        Some(Instruction::Rra)
    } else if opcode == 0x27 {
        Some(Instruction::Daa)
    } else if opcode == 0x2F {
        Some(Instruction::Cpl)
    } else if opcode == 0x37 {
        Some(Instruction::Scf)
    } else if opcode == 0x3F {
        Some(Instruction::Ccf)
    } else if opcode == 0x76 {
        Some(Instruction::Halt)
    } else if opcode == 0xE9 {
        Some(Instruction::JumpAddressHL)
    } else if opcode == 0xF3 {
        Some(Instruction::DisableInterrupts)
    } else if opcode == 0xFB {
        Some(Instruction::EnableInterrupts)
    } else {
        None
    }
}

/// Decodes the byte that follows the prefix `0xCB`; every such byte encodes
/// an instruction.
#[verifier::rlimit(30)]
pub fn decode_cb(opcode: u8) -> (r: Option<Instruction>)
    ensures
        r == Some(spec_decode_cb(opcode)),
{
    proof {
        lemma_row_and_column(opcode);
    }
    let target = resolve_common_operand_from_col(opcode & 0x0F);
    let n = (opcode / 8) % 8;
    Some(
        if opcode <= 0x07 {
            Instruction::CbRlc(target)
        } else if opcode <= 0x0F {
            Instruction::CbRrc(target)
        } else if opcode <= 0x17 {
            Instruction::CbRl(target)
        } else if opcode <= 0x1F {
            Instruction::CbRr(target)
        } else if opcode <= 0x27 {
            Instruction::CbSla(target)
        } else if opcode <= 0x2F {
            Instruction::CbSra(target)
        } else if opcode <= 0x37 {
            Instruction::CbSwap(target)
        } else if opcode <= 0x3F {
            Instruction::CbSrl(target)
        } else if opcode <= 0x7F {
            Instruction::CbBit { n, target }
        } else if opcode <= 0xBF {
            Instruction::CbRes { n, target }
        } else {
            Instruction::CbSet { n, target }
        },
    )
}

/// The model decodes every primary byte but the twelve listed ones.
#[verifier::rlimit(30)]
pub proof fn lemma_undefined_opcodes(opcode: u8)
    ensures
        spec_decode(opcode) is None <==> spec_is_undefined(opcode),
{
}

/// The bit index of a decoded BIT, RES or SET is below eight, and a restart
/// address is one of the eight multiples of eight below `0x40`.
pub proof fn lemma_decoded_operands_in_range(opcode: u8)
    ensures
        match spec_decode_cb(opcode) {
            Instruction::CbBit { n, target } => n < 8,
            Instruction::CbRes { n, target } => n < 8,
            Instruction::CbSet { n, target } => n < 8,
            _ => true,
        },
        match spec_decode(opcode) {
            Some(Instruction::Rst(n)) => n % 8 == 0 && n <= 0x38,
            _ => true,
        },
{
}

} // verus!
