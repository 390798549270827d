//! The frame-ready latch belongs to the pixel processor's clock: nothing
//! that the processor does on the bus sets or clears it.

use vstd::prelude::*;
use crate::alu::{AccumulatorOp, PrefixedOp};
use crate::cpu::CpuModel;
use crate::instruction_decoder::{
    CommonOperand, FlagCondition, IncDecU8Target, Instruction, LoadDstU16, LoadDstU8, LoadSrcU16,
    LoadSrcU8, LogicalOpTarget, RegisterU16, U16Target,
};
use crate::mmu::{InterruptSource, MmuModel};

verus! {

/// Whether the frame-ready latch stands in `after` as it stood in `before`.
pub open spec fn spec_bus_kept_latch(before: MmuModel, after: MmuModel) -> bool {
    after.video.is_frame_ready == before.video.is_frame_ready
}

/// Whether the frame-ready latch stands in `after` as it stood in `before`.
pub open spec fn spec_kept_latch(before: CpuModel, after: CpuModel) -> bool {
    spec_bus_kept_latch(before.mmu, after.mmu)
}

/// No access to the bus touches the latch, whatever is read or written and
/// however the access ends.
#[verifier::rlimit(50)]
pub proof fn lemma_bus_keeps_latch()
    ensures
        forall|m: MmuModel, addr: u16| spec_bus_kept_latch(m, (#[trigger] m.read(addr)).0),
        forall|m: MmuModel, addr: u16, value: u8|
            spec_bus_kept_latch(m, (#[trigger] m.write(addr, value)).0),
        forall|m: MmuModel, addr: u16| spec_bus_kept_latch(m, (#[trigger] m.read_word(addr)).0),
        forall|m: MmuModel, addr: u16, value: u16|
            spec_bus_kept_latch(m, (#[trigger] m.write_word(addr, value)).0),
{
    assert forall|m: MmuModel| spec_bus_kept_latch(m, #[trigger] m.billed()) by {
        reveal(MmuModel::billed);
        reveal(MmuModel::maybe_tick_timers);
    }
    assert forall|m: MmuModel, addr: u16| spec_bus_kept_latch(m, (#[trigger] m.read(addr)).0) by {
        reveal(MmuModel::read);
    }
    assert forall|m: MmuModel, addr: u16, value: u8| (#[trigger] m.poke(addr, value)) is Ok
        implies spec_bus_kept_latch(m, m.poke(addr, value).unwrap()) by {
        reveal(MmuModel::poke);
        reveal(MmuModel::write_io);
        reveal(MmuModel::dma);
    }
    assert forall|m: MmuModel, addr: u16, value: u8|
        spec_bus_kept_latch(m, (#[trigger] m.write(addr, value)).0) by {
        reveal(MmuModel::write);
        let billed = m.billed();
        assert(spec_bus_kept_latch(m, billed));
        if billed.poke(addr, value) is Ok {
            assert(spec_bus_kept_latch(billed, billed.poke(addr, value).unwrap()));
        }
    }
    assert forall|m: MmuModel, addr: u16|
        spec_bus_kept_latch(m, (#[trigger] m.read_word(addr)).0) by {
        reveal(MmuModel::read_word);
    }
    assert forall|m: MmuModel, addr: u16, value: u16|
        spec_bus_kept_latch(m, (#[trigger] m.write_word(addr, value)).0) by {
        reveal(MmuModel::write_word);
    }
}

/// Fetching bytes from behind the program counter keeps the latch.
#[verifier::rlimit(50)]
pub proof fn lemma_fetches_keep_latch()
    ensures
        forall|c: CpuModel| spec_kept_latch(c, (#[trigger] c.read_u8()).0),
        forall|c: CpuModel| spec_kept_latch(c, (#[trigger] c.read_u16()).0),
        forall|c: CpuModel, a: u16| spec_kept_latch(c, (#[trigger] c.mem_read(a)).0),
        forall|c: CpuModel, a: u16, v: u8| spec_kept_latch(c, (#[trigger] c.mem_write(a, v)).0),
        forall|c: CpuModel, a: u16| spec_kept_latch(c, (#[trigger] c.mem_read_word(a)).0),
        forall|c: CpuModel, a: u16, v: u16|
            spec_kept_latch(c, (#[trigger] c.mem_write_word(a, v)).0),
{
    lemma_bus_keeps_latch();
    assert forall|c: CpuModel| spec_kept_latch(c, (#[trigger] c.read_u8()).0) by {}
    assert forall|c: CpuModel| spec_kept_latch(c, (#[trigger] c.read_u16()).0) by {
        reveal(CpuModel::read_u16);
    }
}

/// Reading and writing eight-bit operands keeps the latch.
#[verifier::rlimit(50)]
pub proof fn lemma_byte_operands_keep_latch()
    ensures
        forall|c: CpuModel, t: LoadSrcU8| spec_kept_latch(c, (#[trigger] c.read_u8_target(t)).0),
        forall|c: CpuModel, t: LoadDstU8, v: u8|
            spec_kept_latch(c, (#[trigger] c.write_u8_target(t, v)).0),
        forall|c: CpuModel, t: LogicalOpTarget|
            spec_kept_latch(c, (#[trigger] c.resolve_logical_op_target(t)).0),
        forall|c: CpuModel, t: CommonOperand| spec_kept_latch(c, (#[trigger] c.read_common(t)).0),
        forall|c: CpuModel, t: CommonOperand, v: u8|
            spec_kept_latch(c, (#[trigger] c.write_common(t, v)).0),
{
    lemma_fetches_keep_latch();
    assert forall|c: CpuModel, t: LoadSrcU8|
        spec_kept_latch(c, (#[trigger] c.read_u8_target(t)).0) by {
        reveal(CpuModel::read_u8_target);
    }
    assert forall|c: CpuModel, t: LoadDstU8, v: u8|
        spec_kept_latch(c, (#[trigger] c.write_u8_target(t, v)).0) by {
        reveal(CpuModel::write_u8_target);
    }
    assert forall|c: CpuModel, t: CommonOperand|
        spec_kept_latch(c, (#[trigger] c.read_common(t)).0) by {}
    assert forall|c: CpuModel, t: CommonOperand, v: u8|
        spec_kept_latch(c, (#[trigger] c.write_common(t, v)).0) by {}
    assert forall|c: CpuModel, t: LogicalOpTarget|
        spec_kept_latch(c, (#[trigger] c.resolve_logical_op_target(t)).0) by {
        reveal(CpuModel::resolve_logical_op_target);
    }
}

/// Moving words, to registers, to memory or over the stack, keeps the
/// latch.
#[verifier::rlimit(50)]
pub proof fn lemma_word_operands_keep_latch()
    ensures
        forall|c: CpuModel, t: LoadSrcU16| spec_kept_latch(c, (#[trigger] c.read_u16_target(t)).0),
        forall|c: CpuModel, t: LoadDstU16, v: u16|
            spec_kept_latch(c, (#[trigger] c.write_u16_target(t, v)).0),
        forall|c: CpuModel, v: u16| spec_kept_latch(c, (#[trigger] c.stack_push(v)).0),
        forall|c: CpuModel| spec_kept_latch(c, (#[trigger] c.stack_pop()).0),
{
    lemma_fetches_keep_latch();
    assert forall|c: CpuModel, t: LoadSrcU16|
        spec_kept_latch(c, (#[trigger] c.read_u16_target(t)).0) by {
        reveal(CpuModel::read_u16_target);
    }
    assert forall|c: CpuModel, t: LoadDstU16, v: u16|
        spec_kept_latch(c, (#[trigger] c.write_u16_target(t, v)).0) by {
        reveal(CpuModel::write_u16_target);
    }
    assert forall|c: CpuModel, v: u16| spec_kept_latch(c, (#[trigger] c.stack_push(v)).0) by {
        reveal(CpuModel::stack_push);
    }
    assert forall|c: CpuModel| spec_kept_latch(c, (#[trigger] c.stack_pop()).0) by {
        reveal(CpuModel::stack_pop);
    }
}

/// Jumps, calls, returns and stack instructions keep the latch.
#[verifier::rlimit(50)]
pub proof fn lemma_control_keeps_latch()
    ensures
        forall|c: CpuModel, a: u16| spec_kept_latch(c, (#[trigger] c.rst(a)).0),
        forall|c: CpuModel, k: Option<FlagCondition>| spec_kept_latch(c, (#[trigger] c.call(k)).0),
        forall|c: CpuModel, k: Option<FlagCondition>|
            spec_kept_latch(c, (#[trigger] c.jump_immediate(k)).0),
        forall|c: CpuModel, k: Option<FlagCondition>|
            spec_kept_latch(c, (#[trigger] c.relative_jump(k)).0),
        forall|c: CpuModel, k: Option<FlagCondition>| spec_kept_latch(c, (#[trigger] c.ret(k)).0),
        forall|c: CpuModel, r: RegisterU16| spec_kept_latch(c, (#[trigger] c.push(r)).0),
        forall|c: CpuModel, r: RegisterU16| spec_kept_latch(c, (#[trigger] c.pop(r)).0),
{
    lemma_fetches_keep_latch();
    lemma_word_operands_keep_latch();
    assert forall|c: CpuModel, a: u16| spec_kept_latch(c, (#[trigger] c.rst(a)).0) by {
        reveal(CpuModel::rst);
    }
    assert forall|c: CpuModel, k: Option<FlagCondition>|
        spec_kept_latch(c, (#[trigger] c.call(k)).0) by {
        reveal(CpuModel::call);
    }
    assert forall|c: CpuModel, k: Option<FlagCondition>|
        spec_kept_latch(c, (#[trigger] c.jump_immediate(k)).0) by {
        reveal(CpuModel::jump_immediate);
    }
    assert forall|c: CpuModel, k: Option<FlagCondition>|
        spec_kept_latch(c, (#[trigger] c.relative_jump(k)).0) by {
        reveal(CpuModel::relative_jump);
    }
    assert forall|c: CpuModel, k: Option<FlagCondition>|
        spec_kept_latch(c, (#[trigger] c.ret(k)).0) by {
        reveal(CpuModel::ret);
    }
    assert forall|c: CpuModel, r: RegisterU16| spec_kept_latch(c, (#[trigger] c.push(r)).0) by {
        reveal(CpuModel::push);
    }
    assert forall|c: CpuModel, r: RegisterU16| spec_kept_latch(c, (#[trigger] c.pop(r)).0) by {
        reveal(CpuModel::pop);
    }
}

/// Counting a byte up or down keeps the latch.
#[verifier::rlimit(50)]
pub proof fn lemma_counting_keeps_latch()
    ensures
        forall|c: CpuModel, t: IncDecU8Target| spec_kept_latch(c, (#[trigger] c.inc_u8(t)).0),
        forall|c: CpuModel, t: IncDecU8Target| spec_kept_latch(c, (#[trigger] c.dec_u8(t)).0),
{
    lemma_fetches_keep_latch();
    assert forall|c: CpuModel, t: IncDecU8Target, up: bool|
        spec_kept_latch(c, (#[trigger] c.step_u8(t, up)).0) by {}
    assert forall|c: CpuModel, t: IncDecU8Target|
        spec_kept_latch(c, (#[trigger] c.inc_u8(t)).0) by {
        reveal(CpuModel::inc_u8);
    }
    assert forall|c: CpuModel, t: IncDecU8Target|
        spec_kept_latch(c, (#[trigger] c.dec_u8(t)).0) by {
        reveal(CpuModel::dec_u8);
    }
}

/// The operations on the accumulator and behind the prefix keep the latch.
#[verifier::rlimit(50)]
pub proof fn lemma_operations_keep_latch()
    ensures
        forall|c: CpuModel, op: AccumulatorOp, t: LogicalOpTarget|
            spec_kept_latch(c, (#[trigger] c.accumulate(op, t)).0),
        forall|c: CpuModel, op: PrefixedOp, t: CommonOperand|
            spec_kept_latch(c, (#[trigger] c.prefixed(op, t)).0),
        forall|c: CpuModel, op: PrefixedOp| spec_kept_latch(c, #[trigger] c.rotate_accumulator(op)),
        forall|c: CpuModel| spec_kept_latch(c, #[trigger] c.daa()),
{
    lemma_byte_operands_keep_latch();
    assert forall|c: CpuModel, op: AccumulatorOp, t: LogicalOpTarget|
        spec_kept_latch(c, (#[trigger] c.accumulate(op, t)).0) by {
        reveal(CpuModel::accumulate);
    }
    assert forall|c: CpuModel, op: PrefixedOp, t: CommonOperand|
        spec_kept_latch(c, (#[trigger] c.prefixed(op, t)).0) by {
        reveal(CpuModel::prefixed);
    }
    assert forall|c: CpuModel, op: PrefixedOp|
        spec_kept_latch(c, #[trigger] c.rotate_accumulator(op)) by {
        reveal(CpuModel::rotate_accumulator);
    }
    assert forall|c: CpuModel| spec_kept_latch(c, #[trigger] c.daa()) by {
        reveal(CpuModel::daa);
    }
}

/// The sixteen-bit additions keep the latch.
#[verifier::rlimit(50)]
pub proof fn lemma_word_arithmetic_keeps_latch()
    ensures
        forall|c: CpuModel, t: U16Target| spec_kept_latch(c, #[trigger] c.add_u16(t)),
        forall|c: CpuModel| spec_kept_latch(c, (#[trigger] c.add_stackpointer_immediate()).0),
        forall|c: CpuModel| spec_kept_latch(c, (#[trigger] c.load_hl_with_offset_sp()).0),
{
    lemma_fetches_keep_latch();
    assert forall|c: CpuModel, t: U16Target| spec_kept_latch(c, #[trigger] c.add_u16(t)) by {
        reveal(CpuModel::add_u16);
    }
    assert forall|c: CpuModel|
        spec_kept_latch(c, (#[trigger] c.add_stackpointer_immediate()).0) by {
        reveal(CpuModel::add_stackpointer_immediate);
    }
    assert forall|c: CpuModel| spec_kept_latch(c, (#[trigger] c.load_hl_with_offset_sp()).0) by {
        reveal(CpuModel::load_hl_with_offset_sp);
    }
}

/// Every instruction keeps the latch, however it ends.
#[verifier::rlimit(50)]
pub proof fn lemma_execute_keeps_latch()
    ensures
        forall|c: CpuModel, i: Instruction| spec_kept_latch(c, (#[trigger] c.execute(i)).0),
{
    lemma_fetches_keep_latch();
    lemma_byte_operands_keep_latch();
    lemma_word_operands_keep_latch();
    lemma_control_keeps_latch();
    lemma_counting_keeps_latch();
    lemma_operations_keep_latch();
    lemma_word_arithmetic_keeps_latch();
    assert forall|c: CpuModel, i: Instruction|
        spec_kept_latch(c, (#[trigger] c.execute_transfer(i)).0) by {
        reveal(CpuModel::execute_transfer);
    }
    assert forall|c: CpuModel, i: Instruction|
        spec_kept_latch(c, (#[trigger] c.execute_control(i)).0) by {
        reveal(CpuModel::execute_control);
    }
    assert forall|c: CpuModel, i: Instruction|
        spec_kept_latch(c, (#[trigger] c.execute_arithmetic(i)).0) by {
        reveal(CpuModel::execute_arithmetic);
    }
    assert forall|c: CpuModel, i: Instruction| spec_kept_latch(c, (#[trigger] c.execute(i)).0) by {
        reveal(CpuModel::execute);
    }
}

/// A step of the processor keeps the latch, whether it serves an interrupt,
/// idles, runs an instruction or ends in a fault.
#[verifier::rlimit(50)]
pub proof fn lemma_step_keeps_latch(cpu: CpuModel, expected_pc: Option<u16>, index: usize)
    ensures
        spec_kept_latch(cpu, cpu.tick(expected_pc, index).0),
{
    lemma_fetches_keep_latch();
    lemma_word_operands_keep_latch();
    lemma_execute_keeps_latch();
    assert forall|c: CpuModel| spec_kept_latch(c, (#[trigger] c.next_instruction()).0) by {
        reveal(CpuModel::next_instruction);
    }
    assert forall|c: CpuModel, i: InterruptSource|
        spec_kept_latch(c, (#[trigger] c.handle_interrupt(i)).0) by {
        reveal(CpuModel::handle_interrupt);
    }
    assert forall|c: CpuModel| spec_kept_latch(c, (#[trigger] c.maybe_process_interrupts()).0) by {
        reveal(CpuModel::maybe_process_interrupts);
    }
    assert forall|c: CpuModel| spec_kept_latch(c, (#[trigger] c.run_instruction(expected_pc, index)).0) by {
        reveal(CpuModel::run_instruction);
    }
    reveal(CpuModel::tick);
}

} // verus!
