//! What each instruction costs in machine cycles.
//!
//! The cost is kept twice: as a rule on the instruction's shape (one cycle
//! for each byte fetched, one for each byte moved over the bus, and the
//! known internal delays), and as the charts indexed by opcode that the
//! processor looks up. The charts are proved to follow the rule.

use vstd::prelude::*;
use crate::instruction_decoder::{
    CommonOperand, IncDecU8Target, Instruction, LoadDstU16, LoadDstU8, LoadSrcU16, LoadSrcU8,
    LogicalOpTarget, spec_decode, spec_decode_cb,
};

verus! {

/// Cost by primary opcode when no conditional branch is taken; zero where the byte encodes nothing.
pub const NORMAL_OPCODE_CYCLES: [u8; 256] = [
    1, 3, 2, 2, 1, 1, 2, 1, 5, 2, 2, 2, 1, 1, 2, 1,
    1, 3, 2, 2, 1, 1, 2, 1, 3, 2, 2, 2, 1, 1, 2, 1,
    2, 3, 2, 2, 1, 1, 2, 1, 2, 2, 2, 2, 1, 1, 2, 1,
    2, 3, 2, 2, 3, 3, 3, 1, 2, 2, 2, 2, 1, 1, 2, 1,
    1, 1, 1, 1, 1, 1, 2, 1, 1, 1, 1, 1, 1, 1, 2, 1,
    1, 1, 1, 1, 1, 1, 2, 1, 1, 1, 1, 1, 1, 1, 2, 1,
    1, 1, 1, 1, 1, 1, 2, 1, 1, 1, 1, 1, 1, 1, 2, 1,
    2, 2, 2, 2, 2, 2, 1, 2, 1, 1, 1, 1, 1, 1, 2, 1,
    1, 1, 1, 1, 1, 1, 2, 1, 1, 1, 1, 1, 1, 1, 2, 1,
    1, 1, 1, 1, 1, 1, 2, 1, 1, 1, 1, 1, 1, 1, 2, 1,
    1, 1, 1, 1, 1, 1, 2, 1, 1, 1, 1, 1, 1, 1, 2, 1,
    1, 1, 1, 1, 1, 1, 2, 1, 1, 1, 1, 1, 1, 1, 2, 1,
    2, 3, 3, 4, 3, 4, 2, 4, 2, 4, 3, 0, 3, 6, 2, 4,
    2, 3, 3, 0, 3, 4, 2, 4, 2, 4, 3, 0, 3, 0, 2, 4,
    3, 3, 2, 0, 0, 4, 2, 4, 4, 1, 4, 0, 0, 0, 2, 4,
    3, 3, 2, 1, 0, 4, 2, 4, 3, 2, 4, 1, 0, 0, 2, 4,
];

/// Cost by primary opcode when a conditional branch is taken.
pub const NORMAL_OPCODE_CYCLES_BRANCHED: [u8; 256] = [
    1, 3, 2, 2, 1, 1, 2, 1, 5, 2, 2, 2, 1, 1, 2, 1,
    1, 3, 2, 2, 1, 1, 2, 1, 3, 2, 2, 2, 1, 1, 2, 1,
    3, 3, 2, 2, 1, 1, 2, 1, 3, 2, 2, 2, 1, 1, 2, 1,
    3, 3, 2, 2, 3, 3, 3, 1, 3, 2, 2, 2, 1, 1, 2, 1,
    1, 1, 1, 1, 1, 1, 2, 1, 1, 1, 1, 1, 1, 1, 2, 1,
    1, 1, 1, 1, 1, 1, 2, 1, 1, 1, 1, 1, 1, 1, 2, 1,
    1, 1, 1, 1, 1, 1, 2, 1, 1, 1, 1, 1, 1, 1, 2, 1,
    2, 2, 2, 2, 2, 2, 1, 2, 1, 1, 1, 1, 1, 1, 2, 1,
    1, 1, 1, 1, 1, 1, 2, 1, 1, 1, 1, 1, 1, 1, 2, 1,
    1, 1, 1, 1, 1, 1, 2, 1, 1, 1, 1, 1, 1, 1, 2, 1,
    1, 1, 1, 1, 1, 1, 2, 1, 1, 1, 1, 1, 1, 1, 2, 1,
    1, 1, 1, 1, 1, 1, 2, 1, 1, 1, 1, 1, 1, 1, 2, 1,
    5, 3, 4, 4, 6, 4, 2, 4, 5, 4, 4, 0, 6, 6, 2, 4,
    5, 3, 4, 0, 6, 4, 2, 4, 5, 4, 4, 0, 6, 0, 2, 4,
    3, 3, 2, 0, 0, 4, 2, 4, 4, 1, 4, 0, 0, 0, 2, 4,
    3, 3, 2, 1, 0, 4, 2, 4, 3, 2, 4, 1, 0, 0, 2, 4,
];

/// Cost by the byte after the prefix, the prefix included.
pub const CB_OPCODE_CYCLES: [u8; 256] = [
    2, 2, 2, 2, 2, 2, 4, 2, 2, 2, 2, 2, 2, 2, 4, 2,
    2, 2, 2, 2, 2, 2, 4, 2, 2, 2, 2, 2, 2, 2, 4, 2,
    2, 2, 2, 2, 2, 2, 4, 2, 2, 2, 2, 2, 2, 2, 4, 2,
    2, 2, 2, 2, 2, 2, 4, 2, 2, 2, 2, 2, 2, 2, 4, 2,
    2, 2, 2, 2, 2, 2, 3, 2, 2, 2, 2, 2, 2, 2, 3, 2,
    2, 2, 2, 2, 2, 2, 3, 2, 2, 2, 2, 2, 2, 2, 3, 2,
    2, 2, 2, 2, 2, 2, 3, 2, 2, 2, 2, 2, 2, 2, 3, 2,
    2, 2, 2, 2, 2, 2, 3, 2, 2, 2, 2, 2, 2, 2, 3, 2,
    2, 2, 2, 2, 2, 2, 4, 2, 2, 2, 2, 2, 2, 2, 4, 2,
    2, 2, 2, 2, 2, 2, 4, 2, 2, 2, 2, 2, 2, 2, 4, 2,
    2, 2, 2, 2, 2, 2, 4, 2, 2, 2, 2, 2, 2, 2, 4, 2,
    2, 2, 2, 2, 2, 2, 4, 2, 2, 2, 2, 2, 2, 2, 4, 2,
    2, 2, 2, 2, 2, 2, 4, 2, 2, 2, 2, 2, 2, 2, 4, 2,
    2, 2, 2, 2, 2, 2, 4, 2, 2, 2, 2, 2, 2, 2, 4, 2,
    2, 2, 2, 2, 2, 2, 4, 2, 2, 2, 2, 2, 2, 2, 4, 2,
    2, 2, 2, 2, 2, 2, 4, 2, 2, 2, 2, 2, 2, 2, 4, 2,
];

pub open spec fn spec_src_cycles(src: LoadSrcU8) -> int {
    match src {
        LoadSrcU8::Register(_) => 0,
        LoadSrcU8::AddressU16(_) => 1,
        LoadSrcU8::AddressU8(_) => 1,
        LoadSrcU8::ImmediateAddressU8 => 2,
        LoadSrcU8::ImmediateAddressU16 => 3,
        LoadSrcU8::ImmediateU8 => 1,
        LoadSrcU8::AddressU16Increment(_) => 1,
        LoadSrcU8::AddressU16Decrement(_) => 1,
    }
}

pub open spec fn spec_dst_cycles(dst: LoadDstU8) -> int {
    match dst {
        LoadDstU8::Register(_) => 0,
        LoadDstU8::AddressU8(_) => 1,
        LoadDstU8::AddressU16(_) => 1,
        LoadDstU8::AddressU16Increment(_) => 1,
        LoadDstU8::AddressU16Decrement(_) => 1,
        LoadDstU8::ImmediateAddressU8 => 2,
        LoadDstU8::ImmediateAddressU16 => 3,
    }
}

pub open spec fn spec_operand_cycles(target: LogicalOpTarget) -> int {
    match target {
        LogicalOpTarget::Common(CommonOperand::Register(_)) => 0,
        LogicalOpTarget::Common(CommonOperand::AddressHL) => 1,
        LogicalOpTarget::ImmediateU8 => 1,
    }
}

/// Cost of a prefixed instruction that reads and writes back `target`.
pub open spec fn spec_prefixed_cycles(target: CommonOperand) -> int {
    match target {
        CommonOperand::Register(_) => 2,
        CommonOperand::AddressHL => 4,
    }
}

/// Whether `instruction` branches on a flag.
pub open spec fn spec_is_conditional(instruction: Instruction) -> bool {
    match instruction {
        Instruction::JumpImmediate(Some(_)) => true,
        Instruction::JumpRelative(Some(_)) => true,
        Instruction::Call(Some(_)) => true,
        Instruction::Ret(Some(_)) => true,
        _ => false,
    }
}

/// The machine cycles that `instruction` takes; `branched` says whether a
/// conditional branch was taken and matters for conditional instructions
/// only.
pub open spec fn spec_instruction_cycles(instruction: Instruction, branched: bool) -> int {
    match instruction {
        Instruction::Noop => 1,
        Instruction::Halt => 1,
        Instruction::Stop => 1,
        Instruction::DisableInterrupts => 1,
        Instruction::EnableInterrupts => 1,
        Instruction::LoadU8 { dst, src } => 1 + spec_src_cycles(src) + spec_dst_cycles(dst),
        Instruction::LoadU16 { dst, src } => match (dst, src) {
            (LoadDstU16::ImmediateAddress, _) => 5,
            (_, LoadSrcU16::ImmediateU16) => 3,
            _ => 2,
        },
        Instruction::LoadHlWithOffsetSp => 3,
        Instruction::AddStackPointer => 4,
        Instruction::JumpImmediate(None) => 4,
        Instruction::JumpImmediate(Some(_)) => if branched {
            4
        } else {
            3
        },
        Instruction::JumpAddressHL => 1,
        Instruction::JumpRelative(None) => 3,
        Instruction::JumpRelative(Some(_)) => if branched {
            3
        } else {
            2
        },
        Instruction::Call(None) => 6,
        Instruction::Call(Some(_)) => if branched {
            6
        } else {
            3
        },
        Instruction::Ret(None) => 4,
        Instruction::Ret(Some(_)) => if branched {
            5
        } else {
            2
        },
        Instruction::Reti => 4,
        Instruction::Rst(_) => 4,
        Instruction::Push(_) => 4,
        Instruction::Pop(_) => 3,
        Instruction::IncU8(IncDecU8Target::RegisterU8(_)) => 1,
        Instruction::IncU8(IncDecU8Target::Address(_)) => 3,
        Instruction::DecU8(IncDecU8Target::RegisterU8(_)) => 1,
        Instruction::DecU8(IncDecU8Target::Address(_)) => 3,
        Instruction::IncU16(_) => 2,
        Instruction::DecU16(_) => 2,
        Instruction::AddU16(_) => 2,
        Instruction::AddU8(t) => 1 + spec_operand_cycles(t),
        Instruction::Adc(t) => 1 + spec_operand_cycles(t),
        Instruction::Sub(t) => 1 + spec_operand_cycles(t),
        Instruction::Sbc(t) => 1 + spec_operand_cycles(t),
        Instruction::And(t) => 1 + spec_operand_cycles(t),
        Instruction::Or(t) => 1 + spec_operand_cycles(t),
        Instruction::Xor(t) => 1 + spec_operand_cycles(t),
        Instruction::Compare(t) => 1 + spec_operand_cycles(t),
        Instruction::Rlca => 1,
        Instruction::Rla => 1,
        Instruction::Rrca => 1,
        Instruction::Rra => 1,
        Instruction::Cpl => 1,
        Instruction::Scf => 1,
        Instruction::Ccf => 1,
        Instruction::Daa => 1,
        Instruction::CbRlc(t) => spec_prefixed_cycles(t),
        Instruction::CbRrc(t) => spec_prefixed_cycles(t),
        Instruction::CbRl(t) => spec_prefixed_cycles(t),
        Instruction::CbRr(t) => spec_prefixed_cycles(t),
        Instruction::CbSla(t) => spec_prefixed_cycles(t),
        Instruction::CbSra(t) => spec_prefixed_cycles(t),
        Instruction::CbSwap(t) => spec_prefixed_cycles(t),
        Instruction::CbSrl(t) => spec_prefixed_cycles(t),
        Instruction::CbRes { n, target } => spec_prefixed_cycles(target),
        Instruction::CbSet { n, target } => spec_prefixed_cycles(target),
        // BIT only reads its operand.
        Instruction::CbBit { n, target } => match target {
            CommonOperand::Register(_) => 2,
            CommonOperand::AddressHL => 3,
        },
    }
}

/// The bytes that `instruction` occupies: its opcode (with the prefix, if
/// any) and its immediate operand. STOP counts as one byte: the padding byte
/// that follows it runs as a NOP of its own.
pub open spec fn spec_instruction_length(instruction: Instruction) -> int {
    match instruction {
        Instruction::LoadU8 { dst, src } => 1 + (match src {
            LoadSrcU8::ImmediateU8 => 1int,
            LoadSrcU8::ImmediateAddressU8 => 1,
            LoadSrcU8::ImmediateAddressU16 => 2,
            _ => 0,
        }) + (match dst {
            LoadDstU8::ImmediateAddressU8 => 1int,
            LoadDstU8::ImmediateAddressU16 => 2,
            _ => 0,
        }),
        Instruction::LoadU16 { dst, src } => 1 + (match src {
            LoadSrcU16::ImmediateU16 => 2int,
            _ => 0,
        }) + (match dst {
            LoadDstU16::ImmediateAddress => 2int,
            _ => 0,
        }),
        Instruction::LoadHlWithOffsetSp => 2,
        Instruction::AddStackPointer => 2,
        Instruction::JumpImmediate(_) => 3,
        Instruction::Call(_) => 3,
        Instruction::JumpRelative(_) => 2,
        Instruction::AddU8(LogicalOpTarget::ImmediateU8) => 2,
        Instruction::Adc(LogicalOpTarget::ImmediateU8) => 2,
        Instruction::Sub(LogicalOpTarget::ImmediateU8) => 2,
        Instruction::Sbc(LogicalOpTarget::ImmediateU8) => 2,
        Instruction::And(LogicalOpTarget::ImmediateU8) => 2,
        Instruction::Or(LogicalOpTarget::ImmediateU8) => 2,
        Instruction::Xor(LogicalOpTarget::ImmediateU8) => 2,
        Instruction::Compare(LogicalOpTarget::ImmediateU8) => 2,
        Instruction::CbRlc(_) => 2,
        Instruction::CbRrc(_) => 2,
        Instruction::CbRl(_) => 2,
        Instruction::CbRr(_) => 2,
        Instruction::CbSla(_) => 2,
        Instruction::CbSra(_) => 2,
        Instruction::CbSwap(_) => 2,
        Instruction::CbSrl(_) => 2,
        Instruction::CbBit { n, target } => 2,
        Instruction::CbRes { n, target } => 2,
        Instruction::CbSet { n, target } => 2,
        _ => 1,
    }
}

/// The cost of the instruction that primary byte `opcode` encodes.
pub fn normal_opcode_cycles(opcode: u8, branched: bool) -> (r: u8)
    ensures
        r <= 6,
        match spec_decode(opcode) {
            Some(i) => r == spec_instruction_cycles(i, branched && spec_is_conditional(i)),
            None => r == 0,
        },
{
    proof {
        lemma_normal_charts(opcode);
    }
    if branched {
        NORMAL_OPCODE_CYCLES_BRANCHED[opcode as usize]
    } else {
        NORMAL_OPCODE_CYCLES[opcode as usize]
    }
}

/// The cost of the instruction that `opcode` encodes after the prefix.
pub fn cb_opcode_cycles(opcode: u8) -> (r: u8)
    ensures
        r == spec_instruction_cycles(spec_decode_cb(opcode), false),
        2 <= r <= 4,
{
    proof {
        lemma_cb_chart(opcode);
    }
    CB_OPCODE_CYCLES[opcode as usize]
}

#[verifier::rlimit(30)]
proof fn lemma_normal_charts_0(opcode: u8)
    requires
        opcode / 32 == 0,
    ensures
        match spec_decode(opcode) {
            Some(i) => {
                &&& NORMAL_OPCODE_CYCLES[opcode as int] == spec_instruction_cycles(i, false)
                &&& NORMAL_OPCODE_CYCLES_BRANCHED[opcode as int] == spec_instruction_cycles(
                    i,
                    spec_is_conditional(i),
                )
            },
            None => {
                &&& NORMAL_OPCODE_CYCLES[opcode as int] == 0
                &&& NORMAL_OPCODE_CYCLES_BRANCHED[opcode as int] == 0
            },
        },
        NORMAL_OPCODE_CYCLES[opcode as int] <= 6,
        NORMAL_OPCODE_CYCLES_BRANCHED[opcode as int] <= 6,
{
}

#[verifier::rlimit(30)]
proof fn lemma_normal_charts_1(opcode: u8)
    requires
        opcode / 32 == 1,
    ensures
        match spec_decode(opcode) {
            Some(i) => {
                &&& NORMAL_OPCODE_CYCLES[opcode as int] == spec_instruction_cycles(i, false)
                &&& NORMAL_OPCODE_CYCLES_BRANCHED[opcode as int] == spec_instruction_cycles(
                    i,
                    spec_is_conditional(i),
                )
            },
            None => {
                &&& NORMAL_OPCODE_CYCLES[opcode as int] == 0
                &&& NORMAL_OPCODE_CYCLES_BRANCHED[opcode as int] == 0
            },
        },
        NORMAL_OPCODE_CYCLES[opcode as int] <= 6,
        NORMAL_OPCODE_CYCLES_BRANCHED[opcode as int] <= 6,
{
}

#[verifier::rlimit(30)]
proof fn lemma_normal_charts_2(opcode: u8)
    requires
        opcode / 32 == 2,
    ensures
        match spec_decode(opcode) {
            Some(i) => {
                &&& NORMAL_OPCODE_CYCLES[opcode as int] == spec_instruction_cycles(i, false)
                &&& NORMAL_OPCODE_CYCLES_BRANCHED[opcode as int] == spec_instruction_cycles(
                    i,
                    spec_is_conditional(i),
                )
            },
            None => {
                &&& NORMAL_OPCODE_CYCLES[opcode as int] == 0
                &&& NORMAL_OPCODE_CYCLES_BRANCHED[opcode as int] == 0
            },
        },
        NORMAL_OPCODE_CYCLES[opcode as int] <= 6,
        NORMAL_OPCODE_CYCLES_BRANCHED[opcode as int] <= 6,
{
}

#[verifier::rlimit(30)]
proof fn lemma_normal_charts_3(opcode: u8)
    requires
        opcode / 32 == 3,
    ensures
        match spec_decode(opcode) {
            Some(i) => {
                &&& NORMAL_OPCODE_CYCLES[opcode as int] == spec_instruction_cycles(i, false)
                &&& NORMAL_OPCODE_CYCLES_BRANCHED[opcode as int] == spec_instruction_cycles(
                    i,
                    spec_is_conditional(i),
                )
            },
            None => {
                &&& NORMAL_OPCODE_CYCLES[opcode as int] == 0
                &&& NORMAL_OPCODE_CYCLES_BRANCHED[opcode as int] == 0
            },
        },
        NORMAL_OPCODE_CYCLES[opcode as int] <= 6,
        NORMAL_OPCODE_CYCLES_BRANCHED[opcode as int] <= 6,
{
}

#[verifier::rlimit(30)]
proof fn lemma_normal_charts_4(opcode: u8)
    requires
        opcode / 32 == 4,
    ensures
        match spec_decode(opcode) {
            Some(i) => {
                &&& NORMAL_OPCODE_CYCLES[opcode as int] == spec_instruction_cycles(i, false)
                &&& NORMAL_OPCODE_CYCLES_BRANCHED[opcode as int] == spec_instruction_cycles(
                    i,
                    spec_is_conditional(i),
                )
            },
            None => {
                &&& NORMAL_OPCODE_CYCLES[opcode as int] == 0
                &&& NORMAL_OPCODE_CYCLES_BRANCHED[opcode as int] == 0
            },
        },
        NORMAL_OPCODE_CYCLES[opcode as int] <= 6,
        NORMAL_OPCODE_CYCLES_BRANCHED[opcode as int] <= 6,
{
}

#[verifier::rlimit(30)]
proof fn lemma_normal_charts_5(opcode: u8)
    requires
        opcode / 32 == 5,
    ensures
        match spec_decode(opcode) {
            Some(i) => {
                &&& NORMAL_OPCODE_CYCLES[opcode as int] == spec_instruction_cycles(i, false)
                &&& NORMAL_OPCODE_CYCLES_BRANCHED[opcode as int] == spec_instruction_cycles(
                    i,
                    spec_is_conditional(i),
                )
            },
            None => {
                &&& NORMAL_OPCODE_CYCLES[opcode as int] == 0
                &&& NORMAL_OPCODE_CYCLES_BRANCHED[opcode as int] == 0
            },
        },
        NORMAL_OPCODE_CYCLES[opcode as int] <= 6,
        NORMAL_OPCODE_CYCLES_BRANCHED[opcode as int] <= 6,
{
}

#[verifier::rlimit(30)]
proof fn lemma_normal_charts_6(opcode: u8)
    requires
        opcode / 32 == 6,
    ensures
        match spec_decode(opcode) {
            Some(i) => {
                &&& NORMAL_OPCODE_CYCLES[opcode as int] == spec_instruction_cycles(i, false)
                &&& NORMAL_OPCODE_CYCLES_BRANCHED[opcode as int] == spec_instruction_cycles(
                    i,
                    spec_is_conditional(i),
                )
            },
            None => {
                &&& NORMAL_OPCODE_CYCLES[opcode as int] == 0
                &&& NORMAL_OPCODE_CYCLES_BRANCHED[opcode as int] == 0
            },
        },
        NORMAL_OPCODE_CYCLES[opcode as int] <= 6,
        NORMAL_OPCODE_CYCLES_BRANCHED[opcode as int] <= 6,
{
}

#[verifier::rlimit(30)]
proof fn lemma_normal_charts_7(opcode: u8)
    requires
        opcode / 32 == 7,
    ensures
        match spec_decode(opcode) {
            Some(i) => {
                &&& NORMAL_OPCODE_CYCLES[opcode as int] == spec_instruction_cycles(i, false)
                &&& NORMAL_OPCODE_CYCLES_BRANCHED[opcode as int] == spec_instruction_cycles(
                    i,
                    spec_is_conditional(i),
                )
            },
            None => {
                &&& NORMAL_OPCODE_CYCLES[opcode as int] == 0
                &&& NORMAL_OPCODE_CYCLES_BRANCHED[opcode as int] == 0
            },
        },
        NORMAL_OPCODE_CYCLES[opcode as int] <= 6,
        NORMAL_OPCODE_CYCLES_BRANCHED[opcode as int] <= 6,
{
}

/// Both primary charts hold what the rule gives for the decoded instruction,
/// and differ only where the instruction is conditional.
pub proof fn lemma_normal_charts(opcode: u8)
    ensures
        match spec_decode(opcode) {
            Some(i) => {
                &&& NORMAL_OPCODE_CYCLES[opcode as int] == spec_instruction_cycles(i, false)
                &&& NORMAL_OPCODE_CYCLES_BRANCHED[opcode as int] == spec_instruction_cycles(
                    i,
                    spec_is_conditional(i),
                )
            },
            None => {
                &&& NORMAL_OPCODE_CYCLES[opcode as int] == 0
                &&& NORMAL_OPCODE_CYCLES_BRANCHED[opcode as int] == 0
            },
        },
        NORMAL_OPCODE_CYCLES[opcode as int] <= 6,
        NORMAL_OPCODE_CYCLES_BRANCHED[opcode as int] <= 6,
{
    if opcode / 32 == 0 {
        lemma_normal_charts_0(opcode);
    } else if opcode / 32 == 1 {
        lemma_normal_charts_1(opcode);
    } else if opcode / 32 == 2 {
        lemma_normal_charts_2(opcode);
    } else if opcode / 32 == 3 {
        lemma_normal_charts_3(opcode);
    } else if opcode / 32 == 4 {
        lemma_normal_charts_4(opcode);
    } else if opcode / 32 == 5 {
        lemma_normal_charts_5(opcode);
    } else if opcode / 32 == 6 {
        lemma_normal_charts_6(opcode);
    } else {
        lemma_normal_charts_7(opcode);
    }
}

/// The chart of prefixed opcodes holds what the rule gives.
#[verifier::rlimit(30)]
pub proof fn lemma_cb_chart(opcode: u8)
    ensures
        CB_OPCODE_CYCLES[opcode as int] == spec_instruction_cycles(spec_decode_cb(opcode), false),
        2 <= CB_OPCODE_CYCLES[opcode as int] <= 4,
{
}

} // verus!
