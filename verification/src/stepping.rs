//! What holds of every step of the processor: how far the program counter
//! moves, when a branch is taken, and what the step costs.

use vstd::prelude::*;
use crate::alu::{AccumulatorOp, PrefixedOp};
use crate::cpu::{
    spec_accumulator_op, spec_instruction_group, spec_prefixed_op, spec_wrap16, CpuModel,
    InstructionGroup,
};
use crate::cycles::{spec_instruction_cycles, spec_instruction_length, spec_is_conditional};
use crate::flags::lemma_flag_byte_round_trip;
use crate::instruction_decoder::{
    CommonOperand, FlagCondition, IncDecU8Target, Instruction, LoadDstU16, LoadDstU8, LoadSrcU16,
    LoadSrcU8, LogicalOpTarget, RegisterU16, U16Target,
};

verus! {

/// A register pair reads back as it was written; of AF only the upper
/// twelve bits, for the low nibble of the flags is always zero.
pub proof fn lemma_register_pair_round_trip(cpu: CpuModel, reg: RegisterU16, value: u16)
    ensures
        cpu.with_reg16(reg, value).reg16(reg) == (if reg == RegisterU16::AF {
            ((value / 16) * 16) as u16
        } else {
            value
        }),
{
    lemma_flag_byte_round_trip((value % 256) as u8, cpu.flag_register);
}

/// Writing a register pair leaves the other three as they were.
pub proof fn lemma_register_pairs_apart(
    cpu: CpuModel,
    reg: RegisterU16,
    value: u16,
    other: RegisterU16,
)
    requires
        other != reg,
    ensures
        cpu.with_reg16(reg, value).reg16(other) == cpu.reg16(other),
{
}

/// The condition on which `instruction` branches, if it is conditional.
pub open spec fn spec_condition_of(instruction: Instruction) -> Option<FlagCondition> {
    match instruction {
        Instruction::JumpImmediate(condition) => condition,
        Instruction::JumpRelative(condition) => condition,
        Instruction::Call(condition) => condition,
        Instruction::Ret(condition) => condition,
        _ => None,
    }
}

/// Whether `instruction`, executed in state `cpu`, takes a conditional
/// branch.
pub open spec fn spec_takes_conditional_branch(cpu: CpuModel, instruction: Instruction) -> bool {
    match spec_condition_of(instruction) {
        Some(condition) => cpu.condition_holds(condition),
        None => false,
    }
}

/// Whether `instruction`, executed in state `cpu`, continues elsewhere than
/// behind itself.
pub open spec fn spec_leaves_sequence(cpu: CpuModel, instruction: Instruction) -> bool {
    spec_instruction_group(instruction) == InstructionGroup::Control && (spec_is_conditional(
        instruction,
    ) ==> spec_takes_conditional_branch(cpu, instruction))
}

/// The bytes of `instruction` that its opcode takes: two behind the prefix,
/// else one.
pub open spec fn spec_opcode_bytes(instruction: Instruction) -> int {
    if spec_prefixed_op(instruction) is Some {
        2
    } else {
        1
    }
}

/// `after` is `before` with the program counter moved on by `bytes`, the
/// bus in any state, and nothing else changed.
pub open spec fn spec_fetched(before: CpuModel, after: CpuModel, bytes: int) -> bool {
    after == (CpuModel { pc: spec_wrap16(before.pc + bytes), mmu: after.mmu, ..before })
}

/// `after` has the program counter of `before` moved on by `bytes`, and the
/// same flags and note of a taken branch.
pub open spec fn spec_advanced(before: CpuModel, after: CpuModel, bytes: int) -> bool {
    &&& after.pc == spec_wrap16(before.pc + bytes)
    &&& after.did_take_conditional_branch == before.did_take_conditional_branch
}

pub proof fn lemma_read_u8(cpu: CpuModel)
    ensures
        spec_fetched(cpu, cpu.read_u8().0, 1),
{
}

pub proof fn lemma_read_u16(cpu: CpuModel)
    ensures
        cpu.read_u16().1 is Ok ==> spec_fetched(cpu, cpu.read_u16().0, 2),
{
    reveal(CpuModel::read_u16);
    lemma_read_u8(cpu);
    lemma_read_u8(cpu.read_u8().0);
}

pub open spec fn spec_src_bytes(src: LoadSrcU8) -> int {
    match src {
        LoadSrcU8::ImmediateU8 => 1,
        LoadSrcU8::ImmediateAddressU8 => 1,
        LoadSrcU8::ImmediateAddressU16 => 2,
        _ => 0,
    }
}

pub open spec fn spec_dst_bytes(dst: LoadDstU8) -> int {
    match dst {
        LoadDstU8::ImmediateAddressU8 => 1,
        LoadDstU8::ImmediateAddressU16 => 2,
        _ => 0,
    }
}

#[verifier::rlimit(30)]
pub proof fn lemma_read_u8_target(cpu: CpuModel, src: LoadSrcU8)
    ensures
        cpu.read_u8_target(src).1 is Ok ==> spec_advanced(
            cpu,
            cpu.read_u8_target(src).0,
            spec_src_bytes(src),
        ),
{
    reveal(CpuModel::read_u8_target);
    lemma_read_u8(cpu);
    lemma_read_u16(cpu);
}

#[verifier::rlimit(30)]
pub proof fn lemma_write_u8_target(cpu: CpuModel, dst: LoadDstU8, value: u8)
    ensures
        cpu.write_u8_target(dst, value).1 is Ok ==> spec_advanced(
            cpu,
            cpu.write_u8_target(dst, value).0,
            spec_dst_bytes(dst),
        ),
{
    reveal(CpuModel::write_u8_target);
    lemma_read_u8(cpu);
    lemma_read_u16(cpu);
}

#[verifier::rlimit(30)]
pub proof fn lemma_load_u16(cpu: CpuModel, dst: LoadDstU16, src: LoadSrcU16)
    ensures
        cpu.load_u16(dst, src).1 is Ok ==> spec_advanced(
            cpu,
            cpu.load_u16(dst, src).0,
            spec_instruction_length(Instruction::LoadU16 { dst, src }) - 1,
        ),
{
    reveal(CpuModel::read_u16_target);
    reveal(CpuModel::write_u16_target);
    lemma_read_u16(cpu);
    let (c1, r) = cpu.read_u16_target(src);
    if r is Ok {
        lemma_read_u16(c1);
    }
}

pub proof fn lemma_stack(cpu: CpuModel, value: u16)
    ensures
        spec_advanced(cpu, cpu.stack_push(value).0, 0),
        spec_advanced(cpu, cpu.stack_pop().0, 0),
        cpu.stack_push(value).0.flag_register == cpu.flag_register,
        cpu.stack_pop().0.flag_register == cpu.flag_register,
{
    reveal(CpuModel::stack_push);
    reveal(CpuModel::stack_pop);
}

/// A load, a stack transfer or a switch instruction continues behind
/// itself.
#[verifier::rlimit(30)]
pub proof fn lemma_transfer_advances(cpu: CpuModel, instruction: Instruction)
    requires
        spec_prefixed_op(instruction) is None,
        spec_accumulator_op(instruction) is None,
        spec_instruction_group(instruction) == InstructionGroup::Transfer,
    ensures
        cpu.execute_transfer(instruction).1 is Ok ==> spec_advanced(
            cpu,
            cpu.execute_transfer(instruction).0,
            spec_instruction_length(instruction) - 1,
        ),
{
    reveal(CpuModel::execute_transfer);
    match instruction {
        Instruction::LoadU8 { dst, src } => {
            lemma_read_u8_target(cpu, src);
            let (c1, r) = cpu.read_u8_target(src);
            if r is Ok {
                lemma_write_u8_target(c1, dst, r.unwrap());
            }
        },
        Instruction::LoadU16 { dst, src } => {
            lemma_load_u16(cpu, dst, src);
        },
        Instruction::LoadHlWithOffsetSp => {
            reveal(CpuModel::load_hl_with_offset_sp);
            lemma_read_u8(cpu);
        },
        Instruction::Push(reg) => {
            reveal(CpuModel::push);
            lemma_stack(cpu, cpu.reg16(reg));
        },
        Instruction::Pop(reg) => {
            reveal(CpuModel::pop);
            lemma_stack(cpu, 0);
        },
        _ => {},
    }
}

/// Counting a byte up or down moves no program counter.
#[verifier::rlimit(30)]
pub proof fn lemma_step_u8(cpu: CpuModel, target: IncDecU8Target, up: bool)
    ensures
        spec_advanced(cpu, cpu.step_u8(target, up).0, 0),
{
}

/// The instructions that work on registers alone move no program counter.
#[verifier::rlimit(30)]
pub proof fn lemma_register_arithmetic(cpu: CpuModel, target: U16Target, op: PrefixedOp)
    ensures
        spec_advanced(cpu, cpu.inc_u16(target), 0),
        spec_advanced(cpu, cpu.dec_u16(target), 0),
        spec_advanced(cpu, cpu.add_u16(target), 0),
        spec_advanced(cpu, cpu.rotate_accumulator(op), 0),
        spec_advanced(cpu, cpu.cpl(), 0),
        spec_advanced(cpu, cpu.scf(), 0),
        spec_advanced(cpu, cpu.ccf(), 0),
        spec_advanced(cpu, cpu.daa(), 0),
{
    reveal(CpuModel::add_u16);
    reveal(CpuModel::rotate_accumulator);
    reveal(CpuModel::daa);
}

/// A counting instruction, a sixteen-bit addition or a one-byte accumulator
/// instruction continues behind itself.
#[verifier::rlimit(30)]
pub proof fn lemma_arithmetic_advances(cpu: CpuModel, instruction: Instruction)
    requires
        spec_instruction_group(instruction) == InstructionGroup::Arithmetic,
    ensures
        cpu.execute_arithmetic(instruction).1 is Ok ==> spec_advanced(
            cpu,
            cpu.execute_arithmetic(instruction).0,
            spec_instruction_length(instruction) - 1,
        ),
{
    reveal(CpuModel::execute_arithmetic);
    match instruction {
        Instruction::IncU8(target) => {
            reveal(CpuModel::inc_u8);
            lemma_step_u8(cpu, target, true);
        },
        Instruction::DecU8(target) => {
            reveal(CpuModel::dec_u8);
            lemma_step_u8(cpu, target, false);
        },
        Instruction::AddStackPointer => {
            reveal(CpuModel::add_stackpointer_immediate);
            lemma_read_u8(cpu);
        },
        Instruction::IncU16(target) => {
            lemma_register_arithmetic(cpu, target, PrefixedOp::Rr);
        },
        Instruction::DecU16(target) => {
            lemma_register_arithmetic(cpu, target, PrefixedOp::Rr);
        },
        Instruction::AddU16(target) => {
            lemma_register_arithmetic(cpu, target, PrefixedOp::Rr);
        },
        Instruction::Rra => {
            lemma_register_arithmetic(cpu, U16Target::StackPointer, PrefixedOp::Rr);
        },
        Instruction::Rla => {
            lemma_register_arithmetic(cpu, U16Target::StackPointer, PrefixedOp::Rl);
        },
        Instruction::Rlca => {
            lemma_register_arithmetic(cpu, U16Target::StackPointer, PrefixedOp::Rlc);
        },
        Instruction::Rrca => {
            lemma_register_arithmetic(cpu, U16Target::StackPointer, PrefixedOp::Rrc);
        },
        _ => {
            lemma_register_arithmetic(cpu, U16Target::StackPointer, PrefixedOp::Rr);
        },
    }
}

/// An operation between the accumulator and an operand continues behind
/// itself.
pub proof fn lemma_accumulate_advances(cpu: CpuModel, op: AccumulatorOp, target: LogicalOpTarget)
    ensures
        cpu.accumulate(op, target).1 is Ok ==> spec_advanced(
            cpu,
            cpu.accumulate(op, target).0,
            if target == LogicalOpTarget::ImmediateU8 {
                1int
            } else {
                0
            },
        ),
{
    reveal(CpuModel::accumulate);
    reveal(CpuModel::resolve_logical_op_target);
    lemma_read_u8(cpu);
}

/// An instruction behind the prefix byte has no operand bytes.
pub proof fn lemma_prefixed_advances(cpu: CpuModel, op: PrefixedOp, target: CommonOperand)
    ensures
        spec_advanced(cpu, cpu.prefixed(op, target).0, 0),
{
    reveal(CpuModel::prefixed);
}

/// Whether `pc` is where `instruction`, a jump, call or return carried out
/// in state `before` (its opcode fetched), continues when it leaves the
/// sequence: at the address that follows the opcode for a jump or call, at
/// that address moved by the signed offset for a relative jump, at the
/// word on top of the stack for a return, at the fixed address for a
/// restart, and at HL for a jump to HL.
pub open spec fn spec_lands_at(before: CpuModel, instruction: Instruction, pc: u16) -> bool {
    match instruction {
        Instruction::JumpImmediate(_) => Ok::<u16, crate::fault::Fault>(pc) == before.read_u16().1,
        Instruction::Call(_) => Ok::<u16, crate::fault::Fault>(pc) == before.read_u16().1,
        Instruction::JumpRelative(_) => before.read_u8().1 matches Ok(offset) && pc == spec_wrap16(
            before.pc + 1 + crate::alu::spec_signed(offset),
        ),
        Instruction::Rst(addr) => pc == addr,
        Instruction::JumpAddressHL => pc == before.hl(),
        Instruction::Ret(_) => Ok::<u16, crate::fault::Fault>(pc) == before.is_flag_condition_true(
            spec_condition_of(instruction),
        ).0.stack_pop().1,
        Instruction::Reti => Ok::<u16, crate::fault::Fault>(pc) == before.stack_pop().1,
        _ => true,
    }
}

/// What a jump, a call or a return does to the program counter: it
/// continues behind the instruction where a conditional branch is not taken,
/// and else at the target. The note of a taken branch says whether the
/// condition held on entry.
#[verifier::rlimit(30)]
pub proof fn lemma_control_flow(cpu: CpuModel, instruction: Instruction)
    requires
        spec_instruction_group(instruction) == InstructionGroup::Control,
        !cpu.did_take_conditional_branch,
    ensures
        ({
            let (after, r) = cpu.execute_control(instruction);
            r is Ok ==> {
                &&& after.did_take_conditional_branch == spec_takes_conditional_branch(
                    cpu,
                    instruction,
                )
                &&& !spec_leaves_sequence(cpu, instruction) ==> after.pc == spec_wrap16(
                    cpu.pc + spec_instruction_length(instruction) - 1,
                )
                &&& spec_leaves_sequence(cpu, instruction) ==> spec_lands_at(
                    cpu,
                    instruction,
                    after.pc,
                )
            }
        }),
{
    reveal(CpuModel::execute_control);
    reveal(CpuModel::jump_immediate);
    reveal(CpuModel::call);
    reveal(CpuModel::relative_jump);
    reveal(CpuModel::ret);
    reveal(CpuModel::rst);
    lemma_read_u8(cpu);
    lemma_read_u16(cpu);
    match instruction {
        Instruction::Call(condition) => {
            let (c1, r) = cpu.read_u16();
            let (c2, taken) = c1.is_flag_condition_true(condition);
            lemma_stack(c2, c2.pc);
        },
        Instruction::Ret(condition) => {
            let (c1, taken) = cpu.is_flag_condition_true(condition);
            lemma_stack(c1, 0);
        },
        Instruction::Reti => {
            lemma_stack(cpu, 0);
        },
        Instruction::Rst(addr) => {
            lemma_stack(cpu, cpu.pc);
        },
        _ => {},
    }
}

/// What executing `instruction` does to the program counter, the opcode
/// fetched and the operand bytes still to come: it moves on by the operand
/// bytes unless the instruction continues elsewhere, and the note of a taken
/// branch says whether the instruction is conditional and its condition held
/// on entry.
#[verifier::rlimit(30)]
pub proof fn lemma_execute_advances(cpu: CpuModel, instruction: Instruction)
    requires
        !cpu.did_take_conditional_branch,
    ensures
        ({
            let (after, r) = cpu.execute(instruction);
            r is Ok ==> {
                &&& after.did_take_conditional_branch == spec_takes_conditional_branch(
                    cpu,
                    instruction,
                )
                &&& !spec_leaves_sequence(cpu, instruction) ==> after.pc == spec_wrap16(
                    cpu.pc + spec_instruction_length(instruction) - spec_opcode_bytes(instruction),
                )
                &&& spec_leaves_sequence(cpu, instruction) ==> spec_lands_at(
                    cpu,
                    instruction,
                    after.pc,
                )
            }
        }),
{
    reveal(CpuModel::execute);
    match spec_prefixed_op(instruction) {
        Some((op, target)) => {
            lemma_prefixed_advances(cpu, op, target);
        },
        None => match spec_accumulator_op(instruction) {
            Some((op, target)) => {
                lemma_accumulate_advances(cpu, op, target);
            },
            None => match spec_instruction_group(instruction) {
                InstructionGroup::Control => {
                    lemma_control_flow(cpu, instruction);
                },
                InstructionGroup::Arithmetic => {
                    lemma_arithmetic_advances(cpu, instruction);
                },
                InstructionGroup::Transfer => {
                    lemma_transfer_advances(cpu, instruction);
                },
            },
        },
    }
}

/// What the fetch of an instruction leaves behind: the program counter
/// behind the opcode, and nothing else of the processor changed.
#[verifier::rlimit(30)]
pub proof fn lemma_next_instruction(cpu: CpuModel)
    ensures
        ({
            let (after, r) = cpu.next_instruction();
            r matches Ok(decoded) ==> {
                &&& spec_fetched(cpu, after, spec_opcode_bytes(decoded.0))
                &&& spec_instruction_cycles(decoded.0, false) >= 1
                &&& spec_instruction_cycles(decoded.0, true) <= 6
                &&& spec_instruction_cycles(decoded.0, false) <= 6
                &&& spec_is_conditional(decoded.0) <==> spec_condition_of(decoded.0) is Some
            }
        }),
{
    reveal(CpuModel::next_instruction);
    lemma_read_u8(cpu);
    let (c1, r1) = cpu.read_u8();
    lemma_read_u8(c1);
    if r1 is Ok {
        let opcode = r1.unwrap();
        if opcode == 0xCB {
            let (c2, r2) = c1.read_u8();
            if r2 is Ok {
                lemma_decoded_kinds(r2.unwrap());
            }
        } else {
            lemma_decoded_kinds(opcode);
        }
    }
}

/// Every instruction that runs to its end leaves the program counter behind
/// its last byte, unless it is a jump, call or return that is unconditional
/// or whose condition held on entry: then it leaves it at the target, which
/// it reads from behind its opcode, from the stack or from HL. And it costs
/// what the charts say for it, the figure of the taken branch exactly when
/// it is conditional and its condition held on entry.
#[verifier::rlimit(30)]
pub proof fn lemma_instruction_step(cpu: CpuModel, expected_pc: Option<u16>, index: usize)
    ensures
        ({
            let start = CpuModel { did_take_conditional_branch: false, ..cpu };
            let (after, r) = cpu.run_instruction(expected_pc, index);
            r matches Ok(cycles) ==> start.next_instruction().1 matches Ok(decoded) && {
                let instruction = decoded.0;
                &&& cycles == spec_instruction_cycles(
                    instruction,
                    spec_takes_conditional_branch(cpu, instruction),
                )
                &&& !spec_leaves_sequence(cpu, instruction) ==> after.pc == spec_wrap16(
                    cpu.pc + spec_instruction_length(instruction),
                )
                &&& spec_leaves_sequence(cpu, instruction) ==> spec_lands_at(
                    start.next_instruction().0,
                    instruction,
                    after.pc,
                )
            }
        }),
{
    reveal(CpuModel::run_instruction);
    let start = CpuModel { did_take_conditional_branch: false, ..cpu };
    let (fetched, decoded) = start.next_instruction();
    lemma_next_instruction(start);
    if decoded is Ok {
        let instruction = decoded.unwrap().0;
        lemma_execute_advances(fetched, instruction);
        assert(fetched.flag_register == cpu.flag_register);
        assert(spec_takes_conditional_branch(fetched, instruction)
            == spec_takes_conditional_branch(cpu, instruction));
        assert(spec_leaves_sequence(fetched, instruction) == spec_leaves_sequence(
            cpu,
            instruction,
        ));
        let (after, done) = fetched.execute(instruction);
        if done is Ok && cpu.run_instruction(expected_pc, index).1 is Ok {
            assert(cpu.run_instruction(expected_pc, index) == (
                after,
                Ok::<u8, crate::fault::Fault>(after.elapsed_cycles(instruction)),
            ));
            if !spec_leaves_sequence(cpu, instruction) {
                let opcode_bytes = spec_opcode_bytes(instruction);
                let length = spec_instruction_length(instruction);
                assert(fetched.pc == spec_wrap16(cpu.pc + opcode_bytes));
                assert(after.pc == spec_wrap16(fetched.pc + length - opcode_bytes));
                assert(after.pc == spec_wrap16(cpu.pc + length));
            }
        }
    }
}

/// Only the instructions behind the prefix byte decode to prefixed
/// operations, and every instruction costs between one and six cycles.
#[verifier::rlimit(30)]
pub proof fn lemma_decoded_kinds(opcode: u8)
    ensures
        crate::instruction_decoder::spec_decode(opcode) matches Some(instruction) ==> {
            &&& spec_prefixed_op(instruction) is None
            &&& 1 <= spec_instruction_cycles(instruction, false) <= 6
            &&& 1 <= spec_instruction_cycles(instruction, true) <= 6
            &&& spec_is_conditional(instruction) <==> spec_condition_of(instruction) is Some
        },
        spec_prefixed_op(crate::instruction_decoder::spec_decode_cb(opcode)) is Some,
        2 <= spec_instruction_cycles(crate::instruction_decoder::spec_decode_cb(opcode), false)
            <= 4,
        !spec_is_conditional(crate::instruction_decoder::spec_decode_cb(opcode)),
        spec_condition_of(crate::instruction_decoder::spec_decode_cb(opcode)) is None,
{
    crate::cycles::lemma_normal_charts(opcode);
    crate::cycles::lemma_cb_chart(opcode);
}

/// The three kinds of step. While halted with no interrupt pending, the
/// processor idles for one cycle and changes nothing. A pending interrupt
/// ends the halt whatever the master switch says; if the switch is on, the
/// step serves the interrupt and nothing else: it takes five cycles, clears
/// the switch and enters the handler. Every other step runs one
/// instruction.
#[verifier::rlimit(30)]
pub proof fn lemma_tick_cases(cpu: CpuModel, expected_pc: Option<u16>, index: usize)
    ensures
        ({
            let (after, r) = cpu.tick(expected_pc, index);
            match cpu.pending_interrupt() {
                None => if cpu.halted {
                    after == cpu && r == Ok::<u8, crate::fault::Fault>(1)
                } else {
                    (after, r) == cpu.run_instruction(expected_pc, index)
                },
                Some(interrupt) => if cpu.interrupts_enabled {
                    r is Ok ==> {
                        &&& r == Ok::<u8, crate::fault::Fault>(crate::cpu::INTERRUPT_CYCLES)
                        &&& after.pc == crate::mmu::spec_interrupt_vector(interrupt)
                        &&& !after.interrupts_enabled
                        &&& !after.halted
                        &&& after.sp == spec_wrap16(cpu.sp - 2)
                    }
                } else {
                    (after, r) == (CpuModel { halted: false, ..cpu }).run_instruction(
                        expected_pc,
                        index,
                    )
                },
            }
        }),
{
    reveal(CpuModel::tick);
    reveal(CpuModel::maybe_process_interrupts);
    reveal(CpuModel::handle_interrupt);
    reveal(CpuModel::stack_push);
}

/// What is pushed comes back: with both bytes below the stack pointer in
/// plain memory, a push goes well, the pop after it gives the word that was
/// pushed, and the stack pointer stands where it stood.
pub proof fn lemma_push_then_pop(cpu: CpuModel, value: u16)
    requires
        cpu.inv(),
        2 <= cpu.sp,
        crate::mmu::spec_is_plain_memory((cpu.sp - 2) as u16),
        crate::mmu::spec_is_plain_memory((cpu.sp - 1) as u16),
    ensures
        ({
            let (pushed, r) = cpu.stack_push(value);
            &&& r is Ok
            &&& pushed.inv()
            &&& pushed.sp == cpu.sp - 2
            &&& pushed.stack_pop().1 == Ok::<u16, crate::fault::Fault>(value)
            &&& pushed.stack_pop().0.sp == cpu.sp
        }),
{
    reveal(CpuModel::stack_push);
    reveal(CpuModel::stack_pop);
    crate::mmu::lemma_word_reads_back(cpu.mmu, (cpu.sp - 2) as u16, value);
}

} // verus!
