//! How many bus accesses a step of the processor makes: never more than the
//! machine cycles that the step reports, so that the timer, which every
//! access drives for one cycle, is owed the rest and never less than
//! nothing.

use vstd::prelude::*;
use crate::alu::{AccumulatorOp, PrefixedOp};
use crate::cpu::{
    spec_accumulator_op, spec_instruction_group, spec_prefixed_op, CpuModel, InstructionGroup,
};
use crate::cycles::{
    spec_dst_cycles, spec_instruction_cycles, spec_is_conditional, spec_operand_cycles,
    spec_src_cycles,
};
use crate::instruction_decoder::{
    CommonOperand, IncDecU8Target, Instruction, LoadDstU16, LoadDstU8, LoadSrcU16, LoadSrcU8,
    LogicalOpTarget,
};
use crate::mmu::MmuModel;
use crate::stepping::{lemma_decoded_kinds, lemma_stack, spec_opcode_bytes};

verus! {

/// The accesses billed between two states of the bus, as far as the count,
/// which runs round at 256, shows them.
pub open spec fn spec_billed(before: MmuModel, after: MmuModel) -> int {
    let difference = after.consumed_read_write_cycles - before.consumed_read_write_cycles;
    if difference < 0 {
        difference + 256
    } else {
        difference
    }
}

/// Whether at most `accesses` accesses were billed between `before` and
/// `after`.
pub open spec fn spec_within(before: CpuModel, after: CpuModel, accesses: int) -> bool {
    spec_billed(before.mmu, after.mmu) <= accesses
}

/// A byte access is billed once and a word access at most twice, however
/// the access ends.
#[verifier::rlimit(50)]
pub proof fn lemma_bus_bills()
    ensures
        forall|m: MmuModel, addr: u16| spec_billed(m, (#[trigger] m.read(addr)).0) == 1,
        forall|m: MmuModel, addr: u16, value: u8|
            spec_billed(m, (#[trigger] m.write(addr, value)).0) == 1,
        forall|m: MmuModel, addr: u16| spec_billed(m, (#[trigger] m.read_word(addr)).0) <= 2,
        forall|m: MmuModel, addr: u16, value: u16|
            spec_billed(m, (#[trigger] m.write_word(addr, value)).0) <= 2,
{
    assert forall|m: MmuModel| spec_billed(m, #[trigger] m.billed()) == 1 by {
        reveal(MmuModel::billed);
        reveal(MmuModel::maybe_tick_timers);
    }
    assert forall|m: MmuModel, addr: u16| spec_billed(m, (#[trigger] m.read(addr)).0) == 1 by {
        reveal(MmuModel::read);
    }
    assert forall|m: MmuModel, addr: u16, value: u8| (#[trigger] m.poke(addr, value)) is Ok
        implies spec_billed(m, m.poke(addr, value).unwrap()) == 0 by {
        reveal(MmuModel::poke);
        reveal(MmuModel::write_io);
        reveal(MmuModel::dma);
    }
    assert forall|m: MmuModel, addr: u16, value: u8|
        spec_billed(m, (#[trigger] m.write(addr, value)).0) == 1 by {
        reveal(MmuModel::write);
        let billed = m.billed();
        assert(spec_billed(m, billed) == 1);
        if billed.poke(addr, value) is Ok {
            assert(spec_billed(billed, billed.poke(addr, value).unwrap()) == 0);
        }
    }
    assert forall|m: MmuModel, addr: u16| spec_billed(m, (#[trigger] m.read_word(addr)).0) <= 2 by {
        reveal(MmuModel::read_word);
    }
    assert forall|m: MmuModel, addr: u16, value: u16|
        spec_billed(m, (#[trigger] m.write_word(addr, value)).0) <= 2 by {
        reveal(MmuModel::write_word);
    }
}

/// What the fetches and the plain accesses of the processor bill.
#[verifier::rlimit(50)]
pub proof fn lemma_fetches_bill()
    ensures
        forall|c: CpuModel| spec_within(c, (#[trigger] c.read_u8()).0, 1),
        forall|c: CpuModel| spec_within(c, (#[trigger] c.read_u16()).0, 2),
        forall|c: CpuModel, a: u16| spec_within(c, (#[trigger] c.mem_read(a)).0, 1),
        forall|c: CpuModel, a: u16, v: u8| spec_within(c, (#[trigger] c.mem_write(a, v)).0, 1),
        forall|c: CpuModel, a: u16| spec_within(c, (#[trigger] c.mem_read_word(a)).0, 2),
        forall|c: CpuModel, a: u16, v: u16| spec_within(c, (#[trigger] c.mem_write_word(a, v)).0, 2),
{
    lemma_bus_bills();
    assert forall|c: CpuModel| spec_within(c, (#[trigger] c.read_u8()).0, 1) by {}
    assert forall|c: CpuModel| spec_within(c, (#[trigger] c.read_u16()).0, 2) by {
        reveal(CpuModel::read_u16);
    }
}

pub open spec fn spec_common_accesses(operand: CommonOperand) -> int {
    match operand {
        CommonOperand::Register(_) => 0,
        CommonOperand::AddressHL => 1,
    }
}

/// An eight-bit operand bills what the cost rule counts for it.
#[verifier::rlimit(50)]
pub proof fn lemma_byte_operands_bill()
    ensures
        forall|c: CpuModel, t: LoadSrcU8|
            spec_within(c, (#[trigger] c.read_u8_target(t)).0, spec_src_cycles(t)),
        forall|c: CpuModel, t: LoadDstU8, v: u8|
            spec_within(c, (#[trigger] c.write_u8_target(t, v)).0, spec_dst_cycles(t)),
        forall|c: CpuModel, t: LogicalOpTarget|
            spec_within(c, (#[trigger] c.resolve_logical_op_target(t)).0, spec_operand_cycles(t)),
        forall|c: CpuModel, t: CommonOperand|
            spec_within(c, (#[trigger] c.read_common(t)).0, spec_common_accesses(t)),
        forall|c: CpuModel, t: CommonOperand, v: u8|
            spec_within(c, (#[trigger] c.write_common(t, v)).0, spec_common_accesses(t)),
{
    lemma_fetches_bill();
    assert forall|c: CpuModel, t: LoadSrcU8|
        spec_within(c, (#[trigger] c.read_u8_target(t)).0, spec_src_cycles(t)) by {
        reveal(CpuModel::read_u8_target);
    }
    assert forall|c: CpuModel, t: LoadDstU8, v: u8|
        spec_within(c, (#[trigger] c.write_u8_target(t, v)).0, spec_dst_cycles(t)) by {
        reveal(CpuModel::write_u8_target);
    }
    assert forall|c: CpuModel, t: CommonOperand|
        spec_within(c, (#[trigger] c.read_common(t)).0, spec_common_accesses(t)) by {}
    assert forall|c: CpuModel, t: CommonOperand, v: u8|
        spec_within(c, (#[trigger] c.write_common(t, v)).0, spec_common_accesses(t)) by {}
    assert forall|c: CpuModel, t: LogicalOpTarget|
        spec_within(c, (#[trigger] c.resolve_logical_op_target(t)).0, spec_operand_cycles(t)) by {
        reveal(CpuModel::resolve_logical_op_target);
    }
}

pub open spec fn spec_word_source_accesses(source: LoadSrcU16) -> int {
    match source {
        LoadSrcU16::ImmediateU16 => 2,
        _ => 0,
    }
}

pub open spec fn spec_word_target_accesses(target: LoadDstU16) -> int {
    match target {
        LoadDstU16::ImmediateAddress => 4,
        _ => 0,
    }
}

/// What moving a word bills.
#[verifier::rlimit(50)]
pub proof fn lemma_word_operands_bill()
    ensures
        forall|c: CpuModel, t: LoadSrcU16|
            spec_within(c, (#[trigger] c.read_u16_target(t)).0, spec_word_source_accesses(t)),
        forall|c: CpuModel, t: LoadDstU16, v: u16|
            spec_within(c, (#[trigger] c.write_u16_target(t, v)).0, spec_word_target_accesses(t)),
        forall|c: CpuModel, v: u16| spec_within(c, (#[trigger] c.stack_push(v)).0, 2),
        forall|c: CpuModel| spec_within(c, (#[trigger] c.stack_pop()).0, 2),
{
    lemma_fetches_bill();
    assert forall|c: CpuModel, t: LoadSrcU16|
        spec_within(c, (#[trigger] c.read_u16_target(t)).0, spec_word_source_accesses(t)) by {
        reveal(CpuModel::read_u16_target);
    }
    assert forall|c: CpuModel, t: LoadDstU16, v: u16|
        spec_within(c, (#[trigger] c.write_u16_target(t, v)).0, spec_word_target_accesses(t)) by {
        reveal(CpuModel::write_u16_target);
    }
    assert forall|c: CpuModel, v: u16| spec_within(c, (#[trigger] c.stack_push(v)).0, 2) by {
        reveal(CpuModel::stack_push);
    }
    assert forall|c: CpuModel| spec_within(c, (#[trigger] c.stack_pop()).0, 2) by {
        reveal(CpuModel::stack_pop);
    }
}

/// The accesses that a jump, call or return may make behind its opcode:
/// those of the branch not taken where it is conditional and was not
/// taken.
pub open spec fn spec_control_accesses(instruction: Instruction, taken: bool) -> int {
    match instruction {
        Instruction::JumpImmediate(_) => 2,
        Instruction::JumpRelative(_) => 1,
        Instruction::Call(Some(_)) => if taken {
            4
        } else {
            2
        },
        Instruction::Call(None) => 4,
        Instruction::Ret(Some(_)) => if taken {
            2
        } else {
            0
        },
        Instruction::Ret(None) => 2,
        Instruction::Reti => 2,
        Instruction::Rst(_) => 2,
        _ => 0,
    }
}

/// What a jump, call or return bills.
#[verifier::rlimit(50)]
pub proof fn lemma_control_bills()
    ensures
        forall|c: CpuModel, i: Instruction|
            !c.did_take_conditional_branch ==> spec_within(
                c,
                (#[trigger] c.execute_control(i)).0,
                spec_control_accesses(i, c.execute_control(i).0.did_take_conditional_branch),
            ),
{
    lemma_fetches_bill();
    lemma_word_operands_bill();
    assert forall|c: CpuModel, i: Instruction| !c.did_take_conditional_branch implies spec_within(
        c,
        (#[trigger] c.execute_control(i)).0,
        spec_control_accesses(i, c.execute_control(i).0.did_take_conditional_branch),
    ) by {
        reveal(CpuModel::execute_control);
        match i {
            Instruction::JumpImmediate(k) => {
                reveal(CpuModel::jump_immediate);
            },
            Instruction::JumpRelative(k) => {
                reveal(CpuModel::relative_jump);
            },
            Instruction::Call(k) => {
                reveal(CpuModel::call);
                reveal(CpuModel::read_u16);
                let (c1, r) = c.read_u16();
                let (c2, taken) = c1.is_flag_condition_true(k);
                lemma_stack(c2, c2.pc);
            },
            Instruction::Ret(k) => {
                reveal(CpuModel::ret);
                let (c1, taken) = c.is_flag_condition_true(k);
                lemma_stack(c1, 0);
            },
            Instruction::Reti => {
                reveal(CpuModel::ret);
                lemma_stack(c, 0);
            },
            Instruction::Rst(a) => {
                reveal(CpuModel::rst);
            },
            _ => {},
        }
    }
}

/// The accesses that an instruction of the arithmetic group may make behind
/// its opcode.
pub open spec fn spec_arithmetic_accesses(instruction: Instruction) -> int {
    match instruction {
        Instruction::IncU8(IncDecU8Target::Address(_)) => 2,
        Instruction::DecU8(IncDecU8Target::Address(_)) => 2,
        Instruction::AddStackPointer => 1,
        _ => 0,
    }
}

/// What counting and the one-byte arithmetic bill.
#[verifier::rlimit(50)]
pub proof fn lemma_arithmetic_bills()
    ensures
        forall|c: CpuModel, i: Instruction|
            spec_within(c, (#[trigger] c.execute_arithmetic(i)).0, spec_arithmetic_accesses(i)),
{
    lemma_fetches_bill();
    assert forall|c: CpuModel, t: IncDecU8Target, up: bool|
        spec_within(
            c,
            (#[trigger] c.step_u8(t, up)).0,
            if t is Address {
                2int
            } else {
                0
            },
        ) by {}
    assert forall|c: CpuModel, i: Instruction|
        spec_within(c, (#[trigger] c.execute_arithmetic(i)).0, spec_arithmetic_accesses(i)) by {
        reveal(CpuModel::execute_arithmetic);
        match i {
            Instruction::IncU8(t) => {
                reveal(CpuModel::inc_u8);
            },
            Instruction::DecU8(t) => {
                reveal(CpuModel::dec_u8);
            },
            Instruction::AddStackPointer => {
                reveal(CpuModel::add_stackpointer_immediate);
            },
            Instruction::AddU16(t) => {
                reveal(CpuModel::add_u16);
            },
            Instruction::Rra => {
                reveal(CpuModel::rotate_accumulator);
            },
            Instruction::Rla => {
                reveal(CpuModel::rotate_accumulator);
            },
            Instruction::Rlca => {
                reveal(CpuModel::rotate_accumulator);
            },
            Instruction::Rrca => {
                reveal(CpuModel::rotate_accumulator);
            },
            Instruction::IncU16(t) => {},
            Instruction::DecU16(t) => {},
            Instruction::Cpl => {},
            Instruction::Scf => {},
            Instruction::Ccf => {},
            _ => {
                reveal(CpuModel::daa);
            },
        }
    }
}

/// The accesses that a load, a stack transfer or a switch instruction may
/// make behind its opcode.
pub open spec fn spec_transfer_accesses(instruction: Instruction) -> int {
    match instruction {
        Instruction::LoadU8 { dst, src } => spec_src_cycles(src) + spec_dst_cycles(dst),
        Instruction::LoadU16 { dst, src } => spec_word_source_accesses(src)
            + spec_word_target_accesses(dst),
        Instruction::LoadHlWithOffsetSp => 1,
        Instruction::Push(_) => 2,
        Instruction::Pop(_) => 2,
        _ => 0,
    }
}

/// What loads and stack transfers bill.
#[verifier::rlimit(50)]
pub proof fn lemma_transfers_bill()
    ensures
        forall|c: CpuModel, i: Instruction|
            spec_within(c, (#[trigger] c.execute_transfer(i)).0, spec_transfer_accesses(i)),
{
    lemma_fetches_bill();
    lemma_byte_operands_bill();
    lemma_word_operands_bill();
    assert forall|c: CpuModel, i: Instruction|
        spec_within(c, (#[trigger] c.execute_transfer(i)).0, spec_transfer_accesses(i)) by {
        reveal(CpuModel::execute_transfer);
        match i {
            Instruction::LoadHlWithOffsetSp => {
                reveal(CpuModel::load_hl_with_offset_sp);
            },
            Instruction::Push(r) => {
                reveal(CpuModel::push);
            },
            Instruction::Pop(r) => {
                reveal(CpuModel::pop);
            },
            _ => {},
        }
    }
}

pub open spec fn spec_prefixed_accesses(op: PrefixedOp, target: CommonOperand) -> int {
    match target {
        CommonOperand::Register(_) => 0,
        CommonOperand::AddressHL => if op is TestBit {
            1
        } else {
            2
        },
    }
}

/// What the operations on the accumulator and behind the prefix bill.
#[verifier::rlimit(50)]
pub proof fn lemma_operations_bill()
    ensures
        forall|c: CpuModel, op: AccumulatorOp, t: LogicalOpTarget|
            spec_within(c, (#[trigger] c.accumulate(op, t)).0, spec_operand_cycles(t)),
        forall|c: CpuModel, op: PrefixedOp, t: CommonOperand|
            spec_within(c, (#[trigger] c.prefixed(op, t)).0, spec_prefixed_accesses(op, t)),
{
    lemma_fetches_bill();
    lemma_byte_operands_bill();
    assert forall|c: CpuModel, op: AccumulatorOp, t: LogicalOpTarget|
        spec_within(c, (#[trigger] c.accumulate(op, t)).0, spec_operand_cycles(t)) by {
        reveal(CpuModel::accumulate);
    }
    assert forall|c: CpuModel, op: PrefixedOp, t: CommonOperand|
        spec_within(c, (#[trigger] c.prefixed(op, t)).0, spec_prefixed_accesses(op, t)) by {
        reveal(CpuModel::prefixed);
    }
}

/// Whether `instruction` is not the one sixteen-bit load that no opcode
/// encodes: from behind the opcode to an address behind the opcode.
pub open spec fn spec_is_encoded_load(instruction: Instruction) -> bool {
    match instruction {
        Instruction::LoadU16 { dst, src } => !(dst is ImmediateAddress && src is ImmediateU16),
        _ => true,
    }
}

/// No opcode encodes a sixteen-bit load from behind the opcode to an
/// address behind the opcode.
pub proof fn lemma_encoded_loads(opcode: u8)
    ensures
        crate::instruction_decoder::spec_decode(opcode) matches Some(instruction)
            ==> spec_is_encoded_load(instruction),
        spec_is_encoded_load(crate::instruction_decoder::spec_decode_cb(opcode)),
{
}

/// Behind its opcode an instruction makes no more accesses than its cost
/// leaves room for: the cost counts one cycle for each byte of the opcode
/// and at least one for each further access.
#[verifier::rlimit(80)]
pub proof fn lemma_execute_bills(c: CpuModel, i: Instruction)
    requires
        !c.did_take_conditional_branch,
        spec_is_encoded_load(i),
    ensures
        ({
            let after = c.execute(i).0;
            spec_within(
                c,
                after,
                spec_instruction_cycles(
                    i,
                    after.did_take_conditional_branch && spec_is_conditional(i),
                ) - spec_opcode_bytes(i),
            )
        }),
{
    reveal(CpuModel::execute);
    match spec_prefixed_op(i) {
        Some((op, target)) => {
            lemma_operations_bill();
        },
        None => match spec_accumulator_op(i) {
            Some((op, target)) => {
                lemma_operations_bill();
            },
            None => match spec_instruction_group(i) {
                InstructionGroup::Control => {
                    lemma_control_bills();
                },
                InstructionGroup::Arithmetic => {
                    lemma_arithmetic_bills();
                },
                InstructionGroup::Transfer => {
                    lemma_transfers_bill();
                },
            },
        },
    }
}

/// A step of the processor that goes well makes no more bus accesses than
/// it reports machine cycles.
#[verifier::rlimit(80)]
pub proof fn lemma_step_bills_at_most_its_cost(cpu: CpuModel, expected_pc: Option<u16>, index: usize)
    ensures
        ({
            let (after, r) = cpu.tick(expected_pc, index);
            r matches Ok(cycles) ==> spec_billed(cpu.mmu, after.mmu) <= cycles
        }),
{
    reveal(CpuModel::tick);
    reveal(CpuModel::maybe_process_interrupts);
    lemma_word_operands_bill();
    let (c1, r1) = cpu.maybe_process_interrupts();
    match cpu.pending_interrupt() {
        Some(interrupt) => {
            reveal(CpuModel::handle_interrupt);
            let awake = CpuModel { halted: false, ..cpu };
            if !cpu.interrupts_enabled {
                lemma_instruction_bills(awake, expected_pc, index);
            }
        },
        None => {
            if !cpu.halted {
                lemma_instruction_bills(cpu, expected_pc, index);
            }
        },
    }
}

/// An instruction that runs to its end makes no more bus accesses than it
/// costs machine cycles.
#[verifier::rlimit(80)]
pub proof fn lemma_instruction_bills(cpu: CpuModel, expected_pc: Option<u16>, index: usize)
    ensures
        ({
            let (after, r) = cpu.run_instruction(expected_pc, index);
            r matches Ok(cycles) ==> spec_billed(cpu.mmu, after.mmu) <= cycles
        }),
{
    reveal(CpuModel::run_instruction);
    reveal(CpuModel::next_instruction);
    lemma_fetches_bill();
    let start = CpuModel { did_take_conditional_branch: false, ..cpu };
    let (fetched, decoded) = start.next_instruction();
    if decoded is Ok {
        let instruction = decoded.unwrap().0;
        lemma_decoded_kinds(decoded.unwrap().2);
        lemma_encoded_loads(decoded.unwrap().2);
        assert(spec_within(start, fetched, spec_opcode_bytes(instruction)));
        assert(!fetched.did_take_conditional_branch);
        lemma_execute_bills(fetched, instruction);
    }
}

} // verus!
