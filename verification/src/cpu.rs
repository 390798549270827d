//! The processor: its registers, and the execution of one instruction at a
//! time against the bus.
//!
//! `CpuModel` says what every operation does; each method of `CPU` is proved
//! to do what the function of the same name says on the model. An operation
//! that touches the bus can end in a fault, and the model says in which
//! state. The functions of the model that stand for whole instructions are
//! opaque: a proof that needs what one of them says reveals it.

use vstd::prelude::*;
use crate::address::Address;
use crate::alu::{
    accumulate, add_sp, add_u16, ccf, cpl, daa, dec_u8, inc_u8, prefixed, scf, spec_accumulate,
    spec_add_sp, spec_add_u16, spec_ccf, spec_cpl, spec_daa, spec_dec_u8, spec_inc_u8,
    spec_prefixed, spec_scf, spec_signed, AccumulatorOp, PrefixedOp,
};
use crate::cartridge::{Cartridge, CartridgeModel};
use crate::cycles::{
    cb_opcode_cycles, normal_opcode_cycles, spec_instruction_cycles, spec_is_conditional,
};
use crate::fault::Fault;
use crate::flags::{FlagChange, FlagRegister};
use crate::instruction_decoder::{
    decode, decode_cb, spec_decode, spec_decode_cb, CommonOperand, FlagCondition, IncDecU8Target,
    Instruction, LoadDstU16, LoadDstU8, LoadSrcU16, LoadSrcU8, LogicalOpTarget, RegisterU16,
    RegisterU8, U16Target, lemma_decoded_operands_in_range,
};
use crate::mmu::{interrupt_vector, spec_interrupt_vector, InterruptSource, MmuModel, Word, MMU};
use crate::reference::ReferenceMetadata;
use crate::register_pair::{ImmutableRegisterPair, RegisterPair};

verus! {

#[derive(Debug, Copy, Clone, PartialEq, Eq, Structural)]
pub enum TraceMode {
    Off,
    WithBoot,
    WithoutBoot,
    Serial,
}

#[derive(Debug, Copy, Clone, PartialEq, Eq, Structural)]
pub enum OpcodeType {
    Normal,
    Cb,
}

/// What a trace says of a step that runs an instruction: where the
/// instruction stands, its opcode (for a prefixed instruction, the byte
/// after the prefix) and what it is.
#[derive(Debug, Copy, Clone, PartialEq, Eq, Structural)]
pub struct TraceEntry {
    pub pc: u16,
    pub opcode: u8,
    pub instruction: Instruction,
}

/// The machine cycles that the service of an interrupt takes.
pub const INTERRUPT_CYCLES: u8 = 5;

/// The state of the processor and, through the bus, of the whole machine.
pub struct CpuModel {
    pub pc: u16,
    pub sp: u16,
    pub mmu: MmuModel,
    pub a: u8,
    pub b: u8,
    pub c: u8,
    pub d: u8,
    pub e: u8,
    pub h: u8,
    pub l: u8,
    /// The master switch of the interrupts.
    pub interrupts_enabled: bool,
    pub flag_register: FlagRegister,
    /// Whether the instruction under way took a conditional branch.
    pub did_take_conditional_branch: bool,
    pub halted: bool,
    pub trace_mode: TraceMode,
}

/// The sixteen-bit value that `value` comes to when it runs over either end
/// of the range by less than the range.
pub open spec fn spec_wrap16(value: int) -> u16 {
    if value < 0 {
        (value + 0x1_0000) as u16
    } else if value > 0xFFFF {
        (value - 0x1_0000) as u16
    } else {
        value as u16
    }
}

/// Wrapping once is reduction modulo the range.
pub proof fn lemma_wrap16_is_modulo(value: int)
    requires
        -0x1_0000 <= value < 0x2_0000,
    ensures
        spec_wrap16(value) == value % 0x1_0000,
{
}

/// What an operation on the model gives: the state after it, and its
/// result or the fault that cut it short.
pub type Outcome<T> = (CpuModel, Result<T, Fault>);

impl CpuModel {
    pub open spec fn inv(self) -> bool {
        self.mmu.inv()
    }

    /// The processor as the start-up program finds it.
    pub open spec fn fresh(cartridge: CartridgeModel, trace_mode: TraceMode) -> CpuModel {
        CpuModel {
            pc: 0x0000,
            sp: 0xFFFE,
            mmu: MmuModel::fresh(cartridge, trace_mode == TraceMode::Serial),
            a: 0x00,
            b: 0x00,
            c: 0x00,
            d: 0x00,
            e: 0x00,
            h: 0x00,
            l: 0x00,
            interrupts_enabled: false,
            flag_register: FlagRegister::spec_from_byte(0x00),
            did_take_conditional_branch: false,
            halted: false,
            trace_mode,
        }
    }

    /// The processor as the start-up program leaves it, at the cartridge's
    /// entry point.
    pub open spec fn fresh_without_boot_rom(cartridge: CartridgeModel, trace_mode: TraceMode) -> CpuModel {
        CpuModel {
            pc: 0x0100,
            sp: 0xFFFE,
            mmu: MmuModel::fresh(cartridge, trace_mode == TraceMode::Serial),
            a: 0x01,
            b: 0x00,
            c: 0x13,
            d: 0x00,
            e: 0xD8,
            h: 0x01,
            l: 0x4D,
            interrupts_enabled: false,
            flag_register: FlagRegister::spec_from_byte(0xB0),
            did_take_conditional_branch: false,
            halted: false,
            trace_mode,
        }
    }

    // ------------------------------------------------------------------
    // Registers
    // ------------------------------------------------------------------
    pub open spec fn reg8(self, reg: RegisterU8) -> u8 {
        match reg {
            RegisterU8::A => self.a,
            RegisterU8::B => self.b,
            RegisterU8::C => self.c,
            RegisterU8::D => self.d,
            RegisterU8::E => self.e,
            RegisterU8::H => self.h,
            RegisterU8::L => self.l,
        }
    }

    pub open spec fn with_reg8(self, reg: RegisterU8, value: u8) -> CpuModel {
        match reg {
            RegisterU8::A => CpuModel { a: value, ..self },
            RegisterU8::B => CpuModel { b: value, ..self },
            RegisterU8::C => CpuModel { c: value, ..self },
            RegisterU8::D => CpuModel { d: value, ..self },
            RegisterU8::E => CpuModel { e: value, ..self },
            RegisterU8::H => CpuModel { h: value, ..self },
            RegisterU8::L => CpuModel { l: value, ..self },
        }
    }

    /// A register pair as one number: the first register is the high byte.
    /// In AF the low byte is the flags.
    pub open spec fn reg16(self, reg: RegisterU16) -> u16 {
        match reg {
            RegisterU16::AF => (self.a * 256 + self.flag_register.spec_to_byte()) as u16,
            RegisterU16::BC => (self.b * 256 + self.c) as u16,
            RegisterU16::DE => (self.d * 256 + self.e) as u16,
            RegisterU16::HL => (self.h * 256 + self.l) as u16,
        }
    }

    pub open spec fn with_reg16(self, reg: RegisterU16, value: u16) -> CpuModel {
        let high = (value / 256) as u8;
        let low = (value % 256) as u8;
        match reg {
            RegisterU16::AF => CpuModel {
                a: high,
                flag_register: FlagRegister::spec_from_byte(low),
                ..self
            },
            RegisterU16::BC => CpuModel { b: high, c: low, ..self },
            RegisterU16::DE => CpuModel { d: high, e: low, ..self },
            RegisterU16::HL => CpuModel { h: high, l: low, ..self },
        }
    }

    pub open spec fn hl(self) -> u16 {
        self.reg16(RegisterU16::HL)
    }

    pub open spec fn u16_target(self, target: U16Target) -> u16 {
        match target {
            U16Target::RegisterU16(reg) => self.reg16(reg),
            U16Target::StackPointer => self.sp,
        }
    }

    pub open spec fn with_u16_target(self, target: U16Target, value: u16) -> CpuModel {
        match target {
            U16Target::RegisterU16(reg) => self.with_reg16(reg, value),
            U16Target::StackPointer => CpuModel { sp: value, ..self },
        }
    }

    pub open spec fn apply_flag_change(self, change: FlagChange) -> CpuModel {
        CpuModel { flag_register: self.flag_register.spec_apply(change), ..self }
    }

    // ------------------------------------------------------------------
    // The bus
    // ------------------------------------------------------------------
    pub open spec fn mem_read(self, addr: u16) -> Outcome<u8> {
        let (mmu, r) = self.mmu.read(addr);
        (CpuModel { mmu, ..self }, r)
    }

    pub open spec fn mem_write(self, addr: u16, value: u8) -> Outcome<()> {
        let (mmu, r) = self.mmu.write(addr, value);
        (CpuModel { mmu, ..self }, r)
    }

    pub open spec fn mem_read_word(self, addr: u16) -> Outcome<u16> {
        let (mmu, r) = self.mmu.read_word(addr);
        (CpuModel { mmu, ..self }, r)
    }

    pub open spec fn mem_write_word(self, addr: u16, value: u16) -> Outcome<()> {
        let (mmu, r) = self.mmu.write_word(addr, value);
        (CpuModel { mmu, ..self }, r)
    }

    /// The byte at the program counter, which moves on by one.
    pub open spec fn read_u8(self) -> Outcome<u8> {
        (CpuModel { pc: self.pc.wrapping_add(1), ..self }).mem_read(self.pc)
    }

    /// The two bytes at the program counter, the low one first.
    #[verifier::opaque]
    pub open spec fn read_u16(self) -> Outcome<u16> {
        let (c1, low) = self.read_u8();
        match low {
            Err(e) => (c1, Err(e)),
            Ok(low) => {
                let (c2, high) = c1.read_u8();
                match high {
                    Err(e) => (c2, Err(e)),
                    Ok(high) => (c2, Ok((high * 256 + low) as u16)),
                }
            },
        }
    }

    // ------------------------------------------------------------------
    // Operands
    // ------------------------------------------------------------------
    /// The address in `reg` moved one up or one down, round the end of the
    /// bus.
    pub open spec fn stepped(self, reg: RegisterU16, up: bool) -> u16 {
        if up {
            self.reg16(reg).wrapping_add(1)
        } else {
            self.reg16(reg).wrapping_sub(1)
        }
    }

    /// Reads at the address in `reg`, then moves `reg` one up or down.
    pub open spec fn read_and_step(self, reg: RegisterU16, up: bool) -> Outcome<u8> {
        let (c1, r) = self.mem_read(self.reg16(reg));
        match r {
            Err(e) => (c1, Err(e)),
            Ok(value) => (c1.with_reg16(reg, self.stepped(reg, up)), Ok(value)),
        }
    }

    /// Writes at the address in `reg`, then moves `reg` one up or down.
    pub open spec fn write_and_step(self, reg: RegisterU16, up: bool, value: u8) -> Outcome<()> {
        let (c1, r) = self.mem_write(self.reg16(reg), value);
        match r {
            Err(e) => (c1, Err(e)),
            Ok(_) => (c1.with_reg16(reg, self.stepped(reg, up)), Ok(())),
        }
    }

    #[verifier::opaque]
    pub open spec fn read_u8_target(self, target: LoadSrcU8) -> Outcome<u8> {
        match target {
            LoadSrcU8::Register(reg) => (self, Ok(self.reg8(reg))),
            LoadSrcU8::AddressU16(reg) => self.mem_read(self.reg16(reg)),
            LoadSrcU8::AddressU8(reg) => self.mem_read((0xFF00 + self.reg8(reg)) as u16),
            LoadSrcU8::ImmediateAddressU8 => {
                let (c1, r) = self.read_u8();
                match r {
                    Err(e) => (c1, Err(e)),
                    Ok(lower) => c1.mem_read((0xFF00 + lower) as u16),
                }
            },
            LoadSrcU8::ImmediateAddressU16 => {
                let (c1, r) = self.read_u16();
                match r {
                    Err(e) => (c1, Err(e)),
                    Ok(addr) => c1.mem_read(addr),
                }
            },
            LoadSrcU8::ImmediateU8 => self.read_u8(),
            LoadSrcU8::AddressU16Increment(reg) => self.read_and_step(reg, true),
            LoadSrcU8::AddressU16Decrement(reg) => self.read_and_step(reg, false),
        }
    }

    #[verifier::opaque]
    pub open spec fn write_u8_target(self, target: LoadDstU8, value: u8) -> Outcome<()> {
        match target {
            LoadDstU8::Register(reg) => (self.with_reg8(reg, value), Ok(())),
            LoadDstU8::AddressU8(reg) => self.mem_write((0xFF00 + self.reg8(reg)) as u16, value),
            LoadDstU8::AddressU16(reg) => self.mem_write(self.reg16(reg), value),
            LoadDstU8::AddressU16Increment(reg) => self.write_and_step(reg, true, value),
            LoadDstU8::AddressU16Decrement(reg) => self.write_and_step(reg, false, value),
            LoadDstU8::ImmediateAddressU8 => {
                let (c1, r) = self.read_u8();
                match r {
                    Err(e) => (c1, Err(e)),
                    Ok(lower) => c1.mem_write((0xFF00 + lower) as u16, value),
                }
            },
            LoadDstU8::ImmediateAddressU16 => {
                let (c1, r) = self.read_u16();
                match r {
                    Err(e) => (c1, Err(e)),
                    Ok(addr) => c1.mem_write(addr, value),
                }
            },
        }
    }

    #[verifier::opaque]
    pub open spec fn read_u16_target(self, target: LoadSrcU16) -> Outcome<u16> {
        match target {
            LoadSrcU16::Register(reg) => (self, Ok(self.reg16(reg))),
            LoadSrcU16::ImmediateU16 => self.read_u16(),
            LoadSrcU16::StackPointer => (self, Ok(self.sp)),
        }
    }

    #[verifier::opaque]
    pub open spec fn write_u16_target(self, target: LoadDstU16, value: u16) -> Outcome<()> {
        match target {
            LoadDstU16::Register(reg) => (self.with_reg16(reg, value), Ok(())),
            LoadDstU16::StackPointer => (CpuModel { sp: value, ..self }, Ok(())),
            LoadDstU16::ImmediateAddress => {
                let (c1, r) = self.read_u16();
                match r {
                    Err(e) => (c1, Err(e)),
                    Ok(addr) => c1.mem_write_word(addr, value),
                }
            },
        }
    }

    pub open spec fn read_common(self, operand: CommonOperand) -> Outcome<u8> {
        match operand {
            CommonOperand::Register(reg) => (self, Ok(self.reg8(reg))),
            CommonOperand::AddressHL => self.mem_read(self.hl()),
        }
    }

    pub open spec fn write_common(self, operand: CommonOperand, value: u8) -> Outcome<()> {
        match operand {
            CommonOperand::Register(reg) => (self.with_reg8(reg, value), Ok(())),
            CommonOperand::AddressHL => self.mem_write(self.hl(), value),
        }
    }

    #[verifier::opaque]
    pub open spec fn resolve_logical_op_target(self, target: LogicalOpTarget) -> Outcome<u8> {
        match target {
            LogicalOpTarget::Common(operand) => self.read_common(operand),
            LogicalOpTarget::ImmediateU8 => self.read_u8(),
        }
    }

    // ------------------------------------------------------------------
    // The stack and the flow of control
    // ------------------------------------------------------------------
    /// The stack grows downwards: the pointer drops by two, then the word is
    /// stored.
    #[verifier::opaque]
    pub open spec fn stack_push(self, value: u16) -> Outcome<()> {
        let sp = self.sp.wrapping_sub(2);
        (CpuModel { sp, ..self }).mem_write_word(sp, value)
    }

    /// The word is read, then the pointer rises by two.
    #[verifier::opaque]
    pub open spec fn stack_pop(self) -> Outcome<u16> {
        let (c1, r) = self.mem_read_word(self.sp);
        match r {
            Err(e) => (c1, Err(e)),
            Ok(value) => (CpuModel { sp: c1.sp.wrapping_add(2), ..c1 }, Ok(value)),
        }
    }

    pub open spec fn condition_holds(self, condition: FlagCondition) -> bool {
        match condition {
            FlagCondition::Z => self.flag_register.z,
            FlagCondition::NZ => !self.flag_register.z,
            FlagCondition::C => self.flag_register.c,
            FlagCondition::NC => !self.flag_register.c,
        }
    }

    /// Whether the branch is to be taken; for a conditional one, what was
    /// decided is noted for the billing.
    pub open spec fn is_flag_condition_true(self, condition: Option<FlagCondition>) -> (CpuModel, bool) {
        match condition {
            None => (self, true),
            Some(c) => (
                CpuModel { did_take_conditional_branch: self.condition_holds(c), ..self },
                self.condition_holds(c),
            ),
        }
    }

    pub open spec fn jump_to(self, target: u16) -> Outcome<()> {
        (CpuModel { pc: target, ..self }, Ok(()))
    }

    /// Pushes the program counter and continues at `target`.
    pub open spec fn call_to(self, target: u16) -> Outcome<()> {
        let (c1, r) = self.stack_push(self.pc);
        match r {
            Err(e) => (c1, Err(e)),
            Ok(_) => c1.jump_to(target),
        }
    }

    #[verifier::opaque]
    pub open spec fn rst(self, addr: u16) -> Outcome<()> {
        self.call_to(addr)
    }

    #[verifier::opaque]
    pub open spec fn call(self, condition: Option<FlagCondition>) -> Outcome<()> {
        let (c1, r) = self.read_u16();
        match r {
            Err(e) => (c1, Err(e)),
            Ok(target) => {
                let (c2, taken) = c1.is_flag_condition_true(condition);
                if taken {
                    c2.call_to(target)
                } else {
                    (c2, Ok(()))
                }
            },
        }
    }

    #[verifier::opaque]
    pub open spec fn jump_immediate(self, condition: Option<FlagCondition>) -> Outcome<()> {
        let (c1, r) = self.read_u16();
        match r {
            Err(e) => (c1, Err(e)),
            Ok(target) => {
                let (c2, taken) = c1.is_flag_condition_true(condition);
                if taken {
                    c2.jump_to(target)
                } else {
                    (c2, Ok(()))
                }
            },
        }
    }

    /// The jump is relative to the address after the offset byte.
    #[verifier::opaque]
    pub open spec fn relative_jump(self, condition: Option<FlagCondition>) -> Outcome<()> {
        let (c1, r) = self.read_u8();
        match r {
            Err(e) => (c1, Err(e)),
            Ok(offset) => {
                let (c2, taken) = c1.is_flag_condition_true(condition);
                if taken {
                    c2.jump_to(spec_wrap16(c1.pc + spec_signed(offset)))
                } else {
                    (c2, Ok(()))
                }
            },
        }
    }

    #[verifier::opaque]
    pub open spec fn ret(self, condition: Option<FlagCondition>) -> Outcome<()> {
        let (c1, taken) = self.is_flag_condition_true(condition);
        if taken {
            let (c2, r) = c1.stack_pop();
            match r {
                Err(e) => (c2, Err(e)),
                Ok(target) => c2.jump_to(target),
            }
        } else {
            (c1, Ok(()))
        }
    }

    pub open spec fn reti(self) -> Outcome<()> {
        let (c1, r) = self.ret(None);
        match r {
            Err(e) => (c1, Err(e)),
            Ok(_) => (CpuModel { interrupts_enabled: true, ..c1 }, Ok(())),
        }
    }

    #[verifier::opaque]
    pub open spec fn push(self, reg: RegisterU16) -> Outcome<()> {
        self.stack_push(self.reg16(reg))
    }

    #[verifier::opaque]
    pub open spec fn pop(self, reg: RegisterU16) -> Outcome<()> {
        let (c1, r) = self.stack_pop();
        match r {
            Err(e) => (c1, Err(e)),
            Ok(value) => (c1.with_reg16(reg, value), Ok(())),
        }
    }

    // ------------------------------------------------------------------
    // Arithmetic and logic
    // ------------------------------------------------------------------
    /// Replaces the byte at `target` by what `change` makes of it, and
    /// applies the flags that go with it.
    pub open spec fn step_u8(self, target: IncDecU8Target, up: bool) -> Outcome<()> {
        let change = |value: u8|
            if up {
                spec_inc_u8(value)
            } else {
                spec_dec_u8(value)
            };
        match target {
            IncDecU8Target::RegisterU8(reg) => {
                let (value, flags) = change(self.reg8(reg));
                (self.with_reg8(reg, value).apply_flag_change(flags), Ok(()))
            },
            IncDecU8Target::Address(reg) => {
                let addr = self.reg16(reg);
                let (c1, r) = self.mem_read(addr);
                match r {
                    Err(e) => (c1, Err(e)),
                    Ok(current) => {
                        let (value, flags) = change(current);
                        let (c2, w) = c1.mem_write(addr, value);
                        match w {
                            Err(e) => (c2, Err(e)),
                            Ok(_) => (c2.apply_flag_change(flags), Ok(())),
                        }
                    },
                }
            },
        }
    }

    #[verifier::opaque]
    pub open spec fn inc_u8(self, target: IncDecU8Target) -> Outcome<()> {
        self.step_u8(target, true)
    }

    #[verifier::opaque]
    pub open spec fn dec_u8(self, target: IncDecU8Target) -> Outcome<()> {
        self.step_u8(target, false)
    }

    /// The sixteen-bit counts touch no flag.
    pub open spec fn inc_u16(self, target: U16Target) -> CpuModel {
        self.with_u16_target(target, self.u16_target(target).wrapping_add(1))
    }

    pub open spec fn dec_u16(self, target: U16Target) -> CpuModel {
        self.with_u16_target(target, self.u16_target(target).wrapping_sub(1))
    }

    /// The operation `op` between the accumulator and `target`.
    #[verifier::opaque]
    pub open spec fn accumulate(self, op: AccumulatorOp, target: LogicalOpTarget) -> Outcome<()> {
        let (c1, r) = self.resolve_logical_op_target(target);
        match r {
            Err(e) => (c1, Err(e)),
            Ok(value) => {
                let (a, flags) = spec_accumulate(op, c1.a, value, c1.flag_register.c);
                ((CpuModel { a, ..c1 }).apply_flag_change(flags), Ok(()))
            },
        }
    }

    #[verifier::opaque]
    pub open spec fn add_u16(self, target: U16Target) -> CpuModel {
        let (result, flags) = spec_add_u16(self.hl(), self.u16_target(target));
        self.with_reg16(RegisterU16::HL, result).apply_flag_change(flags)
    }

    #[verifier::opaque]
    pub open spec fn add_stackpointer_immediate(self) -> Outcome<()> {
        let (c1, r) = self.read_u8();
        match r {
            Err(e) => (c1, Err(e)),
            Ok(offset) => {
                let (sp, flags) = spec_add_sp(c1.sp, offset);
                ((CpuModel { sp, ..c1 }).apply_flag_change(flags), Ok(()))
            },
        }
    }

    #[verifier::opaque]
    pub open spec fn load_hl_with_offset_sp(self) -> Outcome<()> {
        let (c1, r) = self.read_u8();
        match r {
            Err(e) => (c1, Err(e)),
            Ok(offset) => {
                let (value, flags) = spec_add_sp(c1.sp, offset);
                (c1.with_reg16(RegisterU16::HL, value).apply_flag_change(flags), Ok(()))
            },
        }
    }

    /// The prefixed operation `op` on `target`: the flags are applied, then
    /// the result, if there is one, is stored.
    #[verifier::opaque]
    pub open spec fn prefixed(self, op: PrefixedOp, target: CommonOperand) -> Outcome<()> {
        let (c1, r) = self.read_common(target);
        match r {
            Err(e) => (c1, Err(e)),
            Ok(value) => {
                let (result, flags) = spec_prefixed(op, value, self.flag_register.c);
                let c2 = c1.apply_flag_change(flags);
                match result {
                    None => (c2, Ok(())),
                    Some(result) => c2.write_common(target, result),
                }
            },
        }
    }

    /// A rotation of the accumulator: as the prefixed one, but Z is cleared
    /// whatever the result.
    #[verifier::opaque]
    pub open spec fn rotate_accumulator(self, op: PrefixedOp) -> CpuModel {
        let (result, flags) = spec_prefixed(op, self.a, self.flag_register.c);
        let rotated = match result {
            Some(a) => CpuModel { a, ..self },
            None => self,
        };
        rotated.apply_flag_change(FlagChange { z: Some(false), ..flags })
    }

    pub open spec fn cpl(self) -> CpuModel {
        let (a, flags) = spec_cpl(self.a);
        (CpuModel { a, ..self }).apply_flag_change(flags)
    }

    pub open spec fn scf(self) -> CpuModel {
        self.apply_flag_change(spec_scf())
    }

    pub open spec fn ccf(self) -> CpuModel {
        self.apply_flag_change(spec_ccf(self.flag_register.c))
    }

    #[verifier::opaque]
    pub open spec fn daa(self) -> CpuModel {
        let (a, flags) = spec_daa(self.a, self.flag_register);
        (CpuModel { a, ..self }).apply_flag_change(flags)
    }

    pub open spec fn load_u8(self, dst: LoadDstU8, src: LoadSrcU8) -> Outcome<()> {
        let (c1, r) = self.read_u8_target(src);
        match r {
            Err(e) => (c1, Err(e)),
            Ok(value) => c1.write_u8_target(dst, value),
        }
    }

    pub open spec fn load_u16(self, dst: LoadDstU16, src: LoadSrcU16) -> Outcome<()> {
        let (c1, r) = self.read_u16_target(src);
        match r {
            Err(e) => (c1, Err(e)),
            Ok(value) => c1.write_u16_target(dst, value),
        }
    }

    // ------------------------------------------------------------------
    // One instruction
    // ------------------------------------------------------------------
    /// What a load, a stack transfer or a switch instruction does.
    #[verifier::opaque]
    pub open spec fn execute_transfer(self, instruction: Instruction) -> Outcome<()> {
        match instruction {
            Instruction::LoadU8 { dst, src } => self.load_u8(dst, src),
            Instruction::Halt => (CpuModel { halted: true, ..self }, Ok(())),
            Instruction::DisableInterrupts => (
                CpuModel { interrupts_enabled: false, ..self },
                Ok(()),
            ),
            Instruction::EnableInterrupts => (CpuModel { interrupts_enabled: true, ..self }, Ok(())),
            Instruction::LoadU16 { dst, src } => self.load_u16(dst, src),
            Instruction::LoadHlWithOffsetSp => self.load_hl_with_offset_sp(),
            Instruction::Push(reg) => self.push(reg),
            Instruction::Pop(reg) => self.pop(reg),
            // NOP, and STOP, whose padding byte runs as a NOP of its own.
            _ => (self, Ok(())),
        }
    }

    /// What a jump, a call or a return does.
    #[verifier::opaque]
    pub open spec fn execute_control(self, instruction: Instruction) -> Outcome<()> {
        match instruction {
            Instruction::JumpImmediate(condition) => self.jump_immediate(condition),
            Instruction::Call(condition) => self.call(condition),
            Instruction::JumpRelative(condition) => self.relative_jump(condition),
            Instruction::Ret(condition) => self.ret(condition),
            Instruction::Reti => self.reti(),
            Instruction::Rst(addr) => self.rst(addr),
            // JP (HL): the jump is to the address in HL, not to one read
            // from there.
            _ => self.jump_to(self.hl()),
        }
    }

    /// What a counting instruction, a sixteen-bit addition or a one-byte
    /// accumulator instruction does.
    #[verifier::opaque]
    pub open spec fn execute_arithmetic(self, instruction: Instruction) -> Outcome<()> {
        match instruction {
            Instruction::IncU8(target) => self.inc_u8(target),
            Instruction::DecU8(target) => self.dec_u8(target),
            Instruction::AddStackPointer => self.add_stackpointer_immediate(),
            Instruction::IncU16(target) => (self.inc_u16(target), Ok(())),
            Instruction::DecU16(target) => (self.dec_u16(target), Ok(())),
            Instruction::AddU16(target) => (self.add_u16(target), Ok(())),
            Instruction::Rra => (self.rotate_accumulator(PrefixedOp::Rr), Ok(())),
            Instruction::Rla => (self.rotate_accumulator(PrefixedOp::Rl), Ok(())),
            Instruction::Rlca => (self.rotate_accumulator(PrefixedOp::Rlc), Ok(())),
            Instruction::Rrca => (self.rotate_accumulator(PrefixedOp::Rrc), Ok(())),
            Instruction::Cpl => (self.cpl(), Ok(())),
            Instruction::Scf => (self.scf(), Ok(())),
            Instruction::Ccf => (self.ccf(), Ok(())),
            _ => (self.daa(), Ok(())),
        }
    }

    /// What `instruction` does, its operand bytes still to be fetched.
    #[verifier::opaque]
    pub open spec fn execute(self, instruction: Instruction) -> Outcome<()> {
        match spec_prefixed_op(instruction) {
            Some((op, target)) => self.prefixed(op, target),
            None => match spec_accumulator_op(instruction) {
                Some((op, target)) => self.accumulate(op, target),
                None => match spec_instruction_group(instruction) {
                    InstructionGroup::Control => self.execute_control(instruction),
                    InstructionGroup::Arithmetic => self.execute_arithmetic(instruction),
                    InstructionGroup::Transfer => self.execute_transfer(instruction),
                },
            },
        }
    }

    /// The instruction at the program counter, with the kind of its opcode
    /// and the opcode itself (for a prefixed instruction, the byte after the
    /// prefix).
    #[verifier::opaque]
    pub open spec fn next_instruction(self) -> Outcome<(Instruction, OpcodeType, u8)> {
        let (c1, r) = self.read_u8();
        match r {
            Err(e) => (c1, Err(e)),
            Ok(opcode) => if opcode == 0xCB {
                let (c2, r2) = c1.read_u8();
                match r2 {
                    Err(e) => (c2, Err(e)),
                    Ok(cb_opcode) => (
                        c2,
                        Ok((spec_decode_cb(cb_opcode), OpcodeType::Cb, cb_opcode)),
                    ),
                }
            } else {
                match spec_decode(opcode) {
                    Some(instruction) => (c1, Ok((instruction, OpcodeType::Normal, opcode))),
                    None => (c1, Err(Fault::Decode { pc: self.pc, opcode })),
                }
            },
        }
    }

    // ------------------------------------------------------------------
    // Interrupts
    // ------------------------------------------------------------------
    /// An interrupt is pending when it is both flagged and enabled.
    pub open spec fn should_fire_interrupt(self, interrupt: InterruptSource) -> bool {
        self.mmu.is_interrupt_enabled(interrupt) && self.mmu.has_interrupt_flag(interrupt)
    }

    /// The most urgent pending interrupt.
    pub open spec fn pending_interrupt(self) -> Option<InterruptSource> {
        if self.should_fire_interrupt(InterruptSource::VBlank) {
            Some(InterruptSource::VBlank)
        } else if self.should_fire_interrupt(InterruptSource::Lcd) {
            Some(InterruptSource::Lcd)
        } else if self.should_fire_interrupt(InterruptSource::Timer) {
            Some(InterruptSource::Timer)
        } else if self.should_fire_interrupt(InterruptSource::Serial) {
            Some(InterruptSource::Serial)
        } else if self.should_fire_interrupt(InterruptSource::Joypad) {
            Some(InterruptSource::Joypad)
        } else {
            None
        }
    }

    /// The service of `interrupt`: the master switch and the interrupt's
    /// flag are cleared, the program counter is pushed, and the handler is
    /// entered.
    #[verifier::opaque]
    pub open spec fn handle_interrupt(self, interrupt: InterruptSource) -> Outcome<u8> {
        let c1 = CpuModel {
            interrupts_enabled: false,
            mmu: self.mmu.set_interrupt_flag(interrupt, false),
            ..self
        };
        let (c2, r) = c1.stack_push(self.pc);
        match r {
            Err(e) => (c2, Err(e)),
            Ok(_) => (
                CpuModel { pc: spec_interrupt_vector(interrupt) as u16, ..c2 },
                Ok(INTERRUPT_CYCLES),
            ),
        }
    }

    /// A pending interrupt ends a halt whatever the master switch says, and
    /// is served if the switch is on. The result is the cycles that the
    /// service took: five, or none.
    #[verifier::opaque]
    pub open spec fn maybe_process_interrupts(self) -> Outcome<u8> {
        match self.pending_interrupt() {
            None => (self, Ok(0)),
            Some(interrupt) => {
                let awake = CpuModel { halted: false, ..self };
                if self.interrupts_enabled {
                    awake.handle_interrupt(interrupt)
                } else {
                    (awake, Ok(0))
                }
            },
        }
    }

    // ------------------------------------------------------------------
    // Tracing
    // ------------------------------------------------------------------
    /// Whether the trace mode asks for the steps to be traced now: always,
    /// or only once the boot program has handed over.
    pub open spec fn should_trace(self) -> bool {
        match self.trace_mode {
            TraceMode::Off => false,
            TraceMode::WithBoot => true,
            TraceMode::WithoutBoot => self.mmu.boot_rom_disabled(),
            TraceMode::Serial => false,
        }
    }

    /// Whether the next step runs an instruction, rather than serve an
    /// interrupt or idle in a halt.
    pub open spec fn runs_instruction(self) -> bool {
        match self.pending_interrupt() {
            Some(_) => !self.interrupts_enabled,
            None => !self.halted,
        }
    }

    /// The instruction that the bus shows at the program counter, if one is
    /// encoded there.
    pub open spec fn instruction_ahead(self) -> Option<TraceEntry> {
        match self.mmu.peek(self.pc) {
            Err(_) => None,
            Ok(opcode) => if opcode == 0xCB {
                match self.mmu.peek(self.pc.wrapping_add(1)) {
                    Err(_) => None,
                    Ok(second) => Some(
                        TraceEntry {
                            pc: self.pc,
                            opcode: second,
                            instruction: spec_decode_cb(second),
                        },
                    ),
                }
            } else {
                match spec_decode(opcode) {
                    None => None,
                    Some(instruction) => Some(TraceEntry { pc: self.pc, opcode, instruction }),
                }
            },
        }
    }

    /// What the trace says of the next step: the instruction ahead, if the
    /// steps are traced and the next step runs an instruction.
    pub open spec fn trace_next_instruction(self) -> Option<TraceEntry> {
        if self.should_trace() && self.runs_instruction() {
            self.instruction_ahead()
        } else {
            None
        }
    }

    // ------------------------------------------------------------------
    // One step
    // ------------------------------------------------------------------
    /// The machine cycles of `instruction`, which was just executed: those
    /// of a taken branch where it is conditional and took its branch.
    pub open spec fn elapsed_cycles(self, instruction: Instruction) -> u8 {
        spec_instruction_cycles(
            instruction,
            self.did_take_conditional_branch && spec_is_conditional(instruction),
        ) as u8
    }

    /// Fetches, checks against the reference and executes one instruction;
    /// the result is its cost in machine cycles.
    #[verifier::opaque]
    pub open spec fn run_instruction(self, expected_pc: Option<u16>, index: usize) -> Outcome<u8> {
        let start = CpuModel { did_take_conditional_branch: false, ..self };
        let (c1, r) = start.next_instruction();
        match r {
            Err(e) => (c1, Err(e)),
            Ok((instruction, opcode_type, opcode)) => {
                if expected_pc is Some && expected_pc != Some(self.pc) {
                    (
                        c1,
                        Err(
                            Fault::ReferenceMismatch {
                                pc: self.pc,
                                expected: expected_pc.unwrap(),
                                tick: index,
                            },
                        ),
                    )
                } else {
                    let (c2, done) = c1.execute(instruction);
                    match done {
                        Err(e) => (c2, Err(e)),
                        Ok(_) => (c2, Ok(c2.elapsed_cycles(instruction))),
                    }
                }
            },
        }
    }

    /// One step of the processor, and the machine cycles it took: the
    /// service of an interrupt, or one cycle of a halt, or one instruction.
    #[verifier::opaque]
    pub open spec fn tick(self, expected_pc: Option<u16>, index: usize) -> Outcome<u8> {
        let (c1, r) = self.maybe_process_interrupts();
        match r {
            Err(e) => (c1, Err(e)),
            Ok(interrupt_cycles) => if interrupt_cycles != 0 {
                (c1, Ok(interrupt_cycles))
            } else if c1.halted {
                (c1, Ok(1))
            } else {
                c1.run_instruction(expected_pc, index)
            },
        }
    }
}


/// Whether the bit index of a bit instruction names one of the eight bits.
pub open spec fn spec_instruction_valid(instruction: Instruction) -> bool {
    match instruction {
        Instruction::CbBit { n, target } => n < 8,
        Instruction::CbRes { n, target } => n < 8,
        Instruction::CbSet { n, target } => n < 8,
        _ => true,
    }
}

pub open spec fn spec_expected_pc(metadata: Option<&ReferenceMetadata>) -> Option<u16> {
    match metadata {
        Some(m) => Some(m.pc),
        None => None,
    }
}

/// The kinds of instruction that work on neither the accumulator with an
/// operand nor behind the prefix byte.
#[derive(Debug, Copy, Clone, PartialEq, Eq, Structural)]
pub enum InstructionGroup {
    /// Loads, stack transfers and the instructions that only set a switch.
    Transfer,
    /// Jumps, calls and returns.
    Control,
    /// Counting, sixteen-bit addition and the one-byte accumulator
    /// instructions.
    Arithmetic,
}

/// The operation and the operand of an instruction behind the prefix byte.
pub open spec fn spec_prefixed_op(instruction: Instruction) -> Option<(PrefixedOp, CommonOperand)> {
    match instruction {
        Instruction::CbRlc(target) => Some((PrefixedOp::Rlc, target)),
        Instruction::CbRrc(target) => Some((PrefixedOp::Rrc, target)),
        Instruction::CbRl(target) => Some((PrefixedOp::Rl, target)),
        Instruction::CbRr(target) => Some((PrefixedOp::Rr, target)),
        Instruction::CbSla(target) => Some((PrefixedOp::Sla, target)),
        Instruction::CbSra(target) => Some((PrefixedOp::Sra, target)),
        Instruction::CbSwap(target) => Some((PrefixedOp::Swap, target)),
        Instruction::CbSrl(target) => Some((PrefixedOp::Srl, target)),
        Instruction::CbBit { n, target } => Some((PrefixedOp::TestBit(n), target)),
        Instruction::CbRes { n, target } => Some((PrefixedOp::ResetBit(n), target)),
        Instruction::CbSet { n, target } => Some((PrefixedOp::SetBit(n), target)),
        _ => None,
    }
}

pub fn prefixed_op(instruction: &Instruction) -> (r: Option<(PrefixedOp, CommonOperand)>)
    ensures
        r == spec_prefixed_op(*instruction),
        spec_instruction_valid(*instruction) ==> (r matches Some(found) ==> found.0.valid()),
{
    match instruction {
        Instruction::CbRlc(target) => Some((PrefixedOp::Rlc, *target)),
        Instruction::CbRrc(target) => Some((PrefixedOp::Rrc, *target)),
        Instruction::CbRl(target) => Some((PrefixedOp::Rl, *target)),
        Instruction::CbRr(target) => Some((PrefixedOp::Rr, *target)),
        Instruction::CbSla(target) => Some((PrefixedOp::Sla, *target)),
        Instruction::CbSra(target) => Some((PrefixedOp::Sra, *target)),
        Instruction::CbSwap(target) => Some((PrefixedOp::Swap, *target)),
        Instruction::CbSrl(target) => Some((PrefixedOp::Srl, *target)),
        Instruction::CbBit { n, target } => Some((PrefixedOp::TestBit(*n), *target)),
        Instruction::CbRes { n, target } => Some((PrefixedOp::ResetBit(*n), *target)),
        Instruction::CbSet { n, target } => Some((PrefixedOp::SetBit(*n), *target)),
        _ => None,
    }
}

/// The operation and the operand of an instruction that works on the
/// accumulator with an operand.
pub open spec fn spec_accumulator_op(instruction: Instruction) -> Option<
    (AccumulatorOp, LogicalOpTarget),
> {
    match instruction {
        Instruction::AddU8(target) => Some((AccumulatorOp::Add, target)),
        Instruction::Adc(target) => Some((AccumulatorOp::Adc, target)),
        Instruction::Sub(target) => Some((AccumulatorOp::Sub, target)),
        Instruction::Sbc(target) => Some((AccumulatorOp::Sbc, target)),
        Instruction::And(target) => Some((AccumulatorOp::And, target)),
        Instruction::Xor(target) => Some((AccumulatorOp::Xor, target)),
        Instruction::Or(target) => Some((AccumulatorOp::Or, target)),
        Instruction::Compare(target) => Some((AccumulatorOp::Compare, target)),
        _ => None,
    }
}

pub fn accumulator_op(instruction: &Instruction) -> (r: Option<(AccumulatorOp, LogicalOpTarget)>)
    ensures
        r == spec_accumulator_op(*instruction),
{
    match instruction {
        Instruction::AddU8(target) => Some((AccumulatorOp::Add, *target)),
        Instruction::Adc(target) => Some((AccumulatorOp::Adc, *target)),
        Instruction::Sub(target) => Some((AccumulatorOp::Sub, *target)),
        Instruction::Sbc(target) => Some((AccumulatorOp::Sbc, *target)),
        Instruction::And(target) => Some((AccumulatorOp::And, *target)),
        Instruction::Xor(target) => Some((AccumulatorOp::Xor, *target)),
        Instruction::Or(target) => Some((AccumulatorOp::Or, *target)),
        Instruction::Compare(target) => Some((AccumulatorOp::Compare, *target)),
        _ => None,
    }
}

pub open spec fn spec_instruction_group(instruction: Instruction) -> InstructionGroup {
    match instruction {
        Instruction::JumpImmediate(_) => InstructionGroup::Control,
        Instruction::JumpAddressHL => InstructionGroup::Control,
        Instruction::Call(_) => InstructionGroup::Control,
        Instruction::JumpRelative(_) => InstructionGroup::Control,
        Instruction::Ret(_) => InstructionGroup::Control,
        Instruction::Reti => InstructionGroup::Control,
        Instruction::Rst(_) => InstructionGroup::Control,
        Instruction::IncU8(_) => InstructionGroup::Arithmetic,
        Instruction::DecU8(_) => InstructionGroup::Arithmetic,
        Instruction::AddStackPointer => InstructionGroup::Arithmetic,
        Instruction::IncU16(_) => InstructionGroup::Arithmetic,
        Instruction::DecU16(_) => InstructionGroup::Arithmetic,
        Instruction::AddU16(_) => InstructionGroup::Arithmetic,
        Instruction::Rra => InstructionGroup::Arithmetic,
        Instruction::Rla => InstructionGroup::Arithmetic,
        Instruction::Rlca => InstructionGroup::Arithmetic,
        Instruction::Rrca => InstructionGroup::Arithmetic,
        Instruction::Cpl => InstructionGroup::Arithmetic,
        Instruction::Scf => InstructionGroup::Arithmetic,
        Instruction::Ccf => InstructionGroup::Arithmetic,
        Instruction::Daa => InstructionGroup::Arithmetic,
        _ => InstructionGroup::Transfer,
    }
}

pub fn instruction_group(instruction: &Instruction) -> (r: InstructionGroup)
    ensures
        r == spec_instruction_group(*instruction),
{
    match instruction {
        Instruction::JumpImmediate(_) => InstructionGroup::Control,
        Instruction::JumpAddressHL => InstructionGroup::Control,
        Instruction::Call(_) => InstructionGroup::Control,
        Instruction::JumpRelative(_) => InstructionGroup::Control,
        Instruction::Ret(_) => InstructionGroup::Control,
        Instruction::Reti => InstructionGroup::Control,
        Instruction::Rst(_) => InstructionGroup::Control,
        Instruction::IncU8(_) => InstructionGroup::Arithmetic,
        Instruction::DecU8(_) => InstructionGroup::Arithmetic,
        Instruction::AddStackPointer => InstructionGroup::Arithmetic,
        Instruction::IncU16(_) => InstructionGroup::Arithmetic,
        Instruction::DecU16(_) => InstructionGroup::Arithmetic,
        Instruction::AddU16(_) => InstructionGroup::Arithmetic,
        Instruction::Rra => InstructionGroup::Arithmetic,
        Instruction::Rla => InstructionGroup::Arithmetic,
        Instruction::Rlca => InstructionGroup::Arithmetic,
        Instruction::Rrca => InstructionGroup::Arithmetic,
        Instruction::Cpl => InstructionGroup::Arithmetic,
        Instruction::Scf => InstructionGroup::Arithmetic,
        Instruction::Ccf => InstructionGroup::Arithmetic,
        Instruction::Daa => InstructionGroup::Arithmetic,
        _ => InstructionGroup::Transfer,
    }
}

pub struct CPU {
    pc: u16,
    sp: u16,
    mmu: MMU,
    a: u8,
    b: u8,
    c: u8,
    d: u8,
    e: u8,
    h: u8,
    l: u8,
    interrupts_enabled: bool,
    flag_register: FlagRegister,
    did_take_conditional_branch: bool,
    halted: bool,
    trace_mode: TraceMode,
}

impl View for CPU {
    type V = CpuModel;

    closed spec fn view(&self) -> CpuModel {
        CpuModel {
            pc: self.pc,
            sp: self.sp,
            mmu: self.mmu@,
            a: self.a,
            b: self.b,
            c: self.c,
            d: self.d,
            e: self.e,
            h: self.h,
            l: self.l,
            interrupts_enabled: self.interrupts_enabled,
            flag_register: self.flag_register,
            did_take_conditional_branch: self.did_take_conditional_branch,
            halted: self.halted,
            trace_mode: self.trace_mode,
        }
    }
}

impl CPU {
    pub open spec fn wf(&self) -> bool {
        self@.inv()
    }

    pub fn new(cartridge: Cartridge, trace_mode: TraceMode) -> (r: CPU)
        requires
            cartridge.wf(),
        ensures
            r.wf(),
            r@ == CpuModel::fresh(cartridge@, trace_mode),
    {
        CPU {
            pc: 0x0000,
            sp: 0xFFFE,
            mmu: MMU::new(cartridge, trace_mode == TraceMode::Serial),
            a: 0x00,
            b: 0x00,
            c: 0x00,
            d: 0x00,
            e: 0x00,
            h: 0x00,
            l: 0x00,
            interrupts_enabled: false,
            flag_register: FlagRegister::new(),
            did_take_conditional_branch: false,
            halted: false,
            trace_mode,
        }
    }

    pub fn new_without_boot_rom(cartridge: Cartridge, trace_mode: TraceMode) -> (r: CPU)
        requires
            cartridge.wf(),
        ensures
            r.wf(),
            r@ == CpuModel::fresh_without_boot_rom(cartridge@, trace_mode),
    {
        CPU {
            pc: 0x0100,
            sp: 0xFFFE,
            mmu: MMU::new(cartridge, trace_mode == TraceMode::Serial),
            a: 0x01,
            b: 0x00,
            c: 0x13,
            d: 0x00,
            e: 0xD8,
            h: 0x01,
            l: 0x4D,
            interrupts_enabled: false,
            flag_register: FlagRegister::new_without_boot_rom(),
            did_take_conditional_branch: false,
            halted: false,
            trace_mode,
        }
    }

    /// Runs one step: serves an interrupt, or idles one cycle in a halt, or
    /// executes one instruction. The result is the machine cycles that the
    /// step took.
    #[verifier::rlimit(30)]
    pub fn tick(&mut self, maybe_metadata: Option<&ReferenceMetadata>, i: usize) -> (r: Result<
        u8,
        Fault,
    >)
        requires
            old(self).wf(),
        ensures
            final(self).wf(),
            (final(self)@, r) == old(self)@.tick(spec_expected_pc(maybe_metadata), i),
    {
        proof {
            reveal(CpuModel::tick);
            reveal(CpuModel::run_instruction);
        }
        let interrupt_cycles = self.maybe_process_interrupts()?;
        if interrupt_cycles != 0 {
            return Ok(interrupt_cycles);
        }
        if self.halted {
            return Ok(1);
        }
        self.did_take_conditional_branch = false;

        let pc = self.pc;
        let (instruction, opcode_type, opcode) = self.next_instruction()?;

        if let Some(metadata) = maybe_metadata {
            if pc != metadata.pc {
                return Err(Fault::ReferenceMismatch { pc, expected: metadata.pc, tick: i });
            }
        }
        self.execute(instruction)?;

        let elapsed_cycles = match opcode_type {
            OpcodeType::Normal => normal_opcode_cycles(opcode, self.did_take_conditional_branch),
            OpcodeType::Cb => cb_opcode_cycles(opcode),
        };
        Ok(elapsed_cycles)
    }

    /// Whether the trace mode asks for the steps to be traced now.
    pub fn should_trace(&self) -> (r: bool)
        ensures
            r == self@.should_trace(),
    {
        match self.trace_mode {
            TraceMode::Off => false,
            TraceMode::WithBoot => true,
            TraceMode::WithoutBoot => self.mmu.boot_rom_disabled(),
            TraceMode::Serial => false,
        }
    }

    /// Whether the next step runs an instruction, rather than serve an
    /// interrupt or idle in a halt.
    pub fn runs_instruction(&self) -> (r: bool)
        ensures
            r == self@.runs_instruction(),
    {
        let pending = self.should_fire_interrupt(InterruptSource::VBlank)
            || self.should_fire_interrupt(InterruptSource::Lcd) || self.should_fire_interrupt(
            InterruptSource::Timer,
        ) || self.should_fire_interrupt(InterruptSource::Serial) || self.should_fire_interrupt(
            InterruptSource::Joypad,
        );
        if pending {
            !self.interrupts_enabled
        } else {
            !self.halted
        }
    }

    /// What a trace is to say of the next step, for the host to print
    /// before it takes the step. Looking ahead costs no cycle and changes
    /// nothing.
    pub fn trace_next_instruction(&self) -> (r: Option<TraceEntry>)
        requires
            self.wf(),
        ensures
            r == self@.trace_next_instruction(),
    {
        if !self.should_trace() || !self.runs_instruction() {
            return None;
        }
        let pc = self.pc;
        let opcode = match self.mmu.peek(Address::new(pc)) {
            Ok(opcode) => opcode,
            Err(_) => {
                return None;
            },
        };
        if opcode == 0xCB {
            let second = match self.mmu.peek(Address::new(pc.wrapping_add(1))) {
                Ok(second) => second,
                Err(_) => {
                    return None;
                },
            };
            return match decode_cb(second) {
                Some(instruction) => Some(TraceEntry { pc, opcode: second, instruction }),
                None => None,
            };
        }
        match decode(opcode) {
            Some(instruction) => Some(TraceEntry { pc, opcode, instruction }),
            None => None,
        }
    }

    pub fn mmu(&mut self) -> (r: &mut MMU)
        ensures
            r@ == old(self)@.mmu,
            final(self)@ == (CpuModel { mmu: final(r)@, ..old(self)@ }),
    {
        &mut self.mmu
    }

    pub fn pc(&self) -> (r: u16)
        ensures
            r == self@.pc,
    {
        self.pc
    }

    pub fn sp(&self) -> (r: u16)
        ensures
            r == self@.sp,
    {
        self.sp
    }

    pub fn flags(&self) -> (r: FlagRegister)
        ensures
            r == self@.flag_register,
    {
        self.flag_register
    }

    pub fn is_halted(&self) -> (r: bool)
        ensures
            r == self@.halted,
    {
        self.halted
    }

    pub fn interrupts_enabled(&self) -> (r: bool)
        ensures
            r == self@.interrupts_enabled,
    {
        self.interrupts_enabled
    }

    pub fn set_pc(&mut self, pc: u16)
        ensures
            final(self)@ == (CpuModel { pc, ..old(self)@ }),
    {
        self.pc = pc;
    }

    pub fn set_sp(&mut self, sp: u16)
        ensures
            final(self)@ == (CpuModel { sp, ..old(self)@ }),
    {
        self.sp = sp;
    }

    pub fn set_interrupts_enabled(&mut self, enabled: bool)
        ensures
            final(self)@ == (CpuModel { interrupts_enabled: enabled, ..old(self)@ }),
    {
        self.interrupts_enabled = enabled;
    }

    #[verifier::rlimit(30)]
    fn execute(&mut self, instruction: Instruction) -> (r: Result<(), Fault>)
        requires
            old(self).wf(),
            spec_instruction_valid(instruction),
        ensures
            final(self).wf(),
            (final(self)@, r) == old(self)@.execute(instruction),
    {
        proof {
            reveal(CpuModel::execute);
        }
        if let Some((op, target)) = prefixed_op(&instruction) {
            return self.apply_cb_target(target, op);
        }
        if let Some((op, target)) = accumulator_op(&instruction) {
            return self.accumulate(op, target);
        }
        match instruction_group(&instruction) {
            InstructionGroup::Control => self.execute_control(instruction),
            InstructionGroup::Arithmetic => self.execute_arithmetic(instruction),
            InstructionGroup::Transfer => self.execute_transfer(instruction),
        }
    }

    #[verifier::rlimit(30)]
    fn execute_transfer(&mut self, instruction: Instruction) -> (r: Result<(), Fault>)
        requires
            old(self).wf(),
        ensures
            final(self).wf(),
            (final(self)@, r) == old(self)@.execute_transfer(instruction),
    {
        proof {
            reveal(CpuModel::execute_transfer);
        }
        match instruction {
            Instruction::LoadU8 { dst, src } => {
                let value = self.read_u8_target(src)?;
                self.write_u8_target(dst, value)
            },
            // The halt is ended by the next pending interrupt.
            Instruction::Halt => {
                self.halted = true;
                Ok(())
            },
            Instruction::DisableInterrupts => {
                self.interrupts_enabled = false;
                Ok(())
            },
            Instruction::EnableInterrupts => {
                self.interrupts_enabled = true;
                Ok(())
            },
            Instruction::LoadU16 { dst, src } => {
                let value = self.read_u16_target(src)?;
                self.write_u16_target(dst, value)
            },
            Instruction::LoadHlWithOffsetSp => self.load_hl_with_offset_sp(),
            Instruction::Push(reg) => self.push(reg),
            Instruction::Pop(reg) => self.pop(reg),
            _ => Ok(()),
        }
    }

    #[verifier::rlimit(30)]
    fn execute_control(&mut self, instruction: Instruction) -> (r: Result<(), Fault>)
        requires
            old(self).wf(),
        ensures
            final(self).wf(),
            (final(self)@, r) == old(self)@.execute_control(instruction),
    {
        proof {
            reveal(CpuModel::execute_control);
            reveal(CpuModel::ret);
        }
        match instruction {
            Instruction::JumpImmediate(condition) => self.jump_immediate(condition),
            Instruction::Call(condition) => self.call(condition),
            Instruction::JumpRelative(condition) => self.relative_jump(condition),
            Instruction::Ret(condition) => self.ret(condition),
            Instruction::Reti => {
                self.ret(None)?;
                self.interrupts_enabled = true;
                Ok(())
            },
            Instruction::Rst(addr) => self.rst(addr),
            _ => {
                self.pc = self.hl();
                Ok(())
            },
        }
    }

    #[verifier::rlimit(30)]
    fn execute_arithmetic(&mut self, instruction: Instruction) -> (r: Result<(), Fault>)
        requires
            old(self).wf(),
        ensures
            final(self).wf(),
            (final(self)@, r) == old(self)@.execute_arithmetic(instruction),
    {
        proof {
            reveal(CpuModel::execute_arithmetic);
        }
        match instruction {
            Instruction::IncU8(target) => {
                return self.inc_u8(target);
            },
            Instruction::DecU8(target) => {
                return self.dec_u8(target);
            },
            Instruction::AddStackPointer => {
                return self.add_stackpointer_immediate();
            },
            Instruction::IncU16(target) => self.inc_u16(target),
            Instruction::DecU16(target) => self.dec_u16(target),
            Instruction::AddU16(target) => self.add_u16(target),
            Instruction::Rra => self.rra(),
            Instruction::Rla => self.rla(),
            Instruction::Rlca => self.rlca(),
            Instruction::Rrca => self.rrca(),
            Instruction::Cpl => self.cpl(),
            Instruction::Scf => self.scf(),
            Instruction::Ccf => self.ccf(),
            _ => self.daa(),
        }
        Ok(())
    }

    #[verifier::rlimit(30)]
    fn maybe_process_interrupts(&mut self) -> (r: Result<u8, Fault>)
        requires
            old(self).wf(),
        ensures
            final(self).wf(),
            (final(self)@, r) == old(self)@.maybe_process_interrupts(),
    {
        proof {
            reveal(CpuModel::maybe_process_interrupts);
        }
        let interrupt_per_priority: [InterruptSource; 5] = [
            InterruptSource::VBlank,
            InterruptSource::Lcd,
            InterruptSource::Timer,
            InterruptSource::Serial,
            InterruptSource::Joypad,
        ];
        let mut k: usize = 0;
        while k < 5
            invariant
                k <= 5,
                self.wf(),
                self@ == old(self)@,
                interrupt_per_priority@ == seq![
                    InterruptSource::VBlank,
                    InterruptSource::Lcd,
                    InterruptSource::Timer,
                    InterruptSource::Serial,
                    InterruptSource::Joypad,
                ],
                forall|j: int|
                    0 <= j < k ==> !self@.should_fire_interrupt(#[trigger] interrupt_per_priority@[j]),
            decreases 5 - k,
        {
            let interrupt = interrupt_per_priority[k];
            if self.should_fire_interrupt(interrupt) {
                proof {
                    reveal(CpuModel::maybe_process_interrupts);
                }
                assert(self@.pending_interrupt() == Some(interrupt)) by {
                    assert(forall|j: int|
                        0 <= j < k ==> !self@.should_fire_interrupt(
                            #[trigger] interrupt_per_priority@[j],
                        ));
                    assert(interrupt_per_priority@[0] == InterruptSource::VBlank);
                    assert(interrupt_per_priority@[1] == InterruptSource::Lcd);
                    assert(interrupt_per_priority@[2] == InterruptSource::Timer);
                    assert(interrupt_per_priority@[3] == InterruptSource::Serial);
                    assert(interrupt_per_priority@[4] == InterruptSource::Joypad);
                }
                // A pending interrupt ends the halt, served or not.
                self.halted = false;
                if self.interrupts_enabled {
                    return self.handle_interrupt(interrupt);
                }
                return Ok(0);
            }
            k += 1;
        }
        proof {
            assert(interrupt_per_priority@[0] == InterruptSource::VBlank);
            assert(interrupt_per_priority@[1] == InterruptSource::Lcd);
            assert(interrupt_per_priority@[2] == InterruptSource::Timer);
            assert(interrupt_per_priority@[3] == InterruptSource::Serial);
            assert(interrupt_per_priority@[4] == InterruptSource::Joypad);
        }
        Ok(0)
    }

    #[verifier::rlimit(30)]
    fn handle_interrupt(&mut self, interrupt: InterruptSource) -> (r: Result<u8, Fault>)
        requires
            old(self).wf(),
        ensures
            final(self).wf(),
            (final(self)@, r) == old(self)@.handle_interrupt(interrupt),
    {
        proof {
            reveal(CpuModel::handle_interrupt);
        }
        self.interrupts_enabled = false;
        self.mmu.set_interrupt_flag(interrupt, false);
        let pc = self.pc;
        self.stack_push(pc)?;
        self.pc = interrupt_vector(interrupt) as u16;
        Ok(INTERRUPT_CYCLES)
    }

    fn should_fire_interrupt(&self, interrupt: InterruptSource) -> (r: bool)
        ensures
            r == self@.should_fire_interrupt(interrupt),
    {
        self.mmu.is_interrupt_enabled(interrupt) && self.mmu.has_interrupt_flag(interrupt)
    }

    #[verifier::rlimit(30)]
    fn next_instruction(&mut self) -> (r: Result<(Instruction, OpcodeType, u8), Fault>)
        requires
            old(self).wf(),
        ensures
            final(self).wf(),
            (final(self)@, r) == old(self)@.next_instruction(),
            r matches Ok(decoded) ==> {
                &&& spec_instruction_valid(decoded.0)
                &&& decoded.1 == OpcodeType::Normal ==> spec_decode(decoded.2) == Some(decoded.0)
                &&& decoded.1 == OpcodeType::Cb ==> spec_decode_cb(decoded.2) == decoded.0
            },
    {
        proof {
            reveal(CpuModel::next_instruction);
        }
        let pc = self.pc;
        let opcode = self.read_u8()?;
        if opcode == 0xCB {
            let cb_opcode = self.read_u8()?;
            proof {
                lemma_decoded_operands_in_range(cb_opcode);
            }
            return match decode_cb(cb_opcode) {
                Some(decoded) => Ok((decoded, OpcodeType::Cb, cb_opcode)),
                None => Err(Fault::Decode { pc, opcode: cb_opcode }),
            };
        }
        match decode(opcode) {
            Some(decoded) => Ok((decoded, OpcodeType::Normal, opcode)),
            None => Err(Fault::Decode { pc, opcode }),
        }
    }

    fn next_pc(&mut self) -> (r: u16)
        ensures
            r == old(self)@.pc,
            final(self)@ == (CpuModel { pc: old(self)@.pc.wrapping_add(1), ..old(self)@ }),
    {
        let tmp = self.pc;
        self.pc = self.pc.wrapping_add(1);
        tmp
    }

    fn read_u8(&mut self) -> (r: Result<u8, Fault>)
        requires
            old(self).wf(),
        ensures
            final(self).wf(),
            (final(self)@, r) == old(self)@.read_u8(),
    {
        let address = Address::new(self.next_pc());
        self.mmu.read(address)
    }

    fn read_u16(&mut self) -> (r: Result<u16, Fault>)
        requires
            old(self).wf(),
        ensures
            final(self).wf(),
            (final(self)@, r) == old(self)@.read_u16(),
    {
        proof {
            reveal(CpuModel::read_u16);
        }
        let a = self.read_u8()? as u16;
        let b = self.read_u8()? as u16;
        Ok(b * 256 + a)
    }

    /// The value of register `reg`.
    pub fn resolve_u8_reg(&self, reg: RegisterU8) -> (r: u8)
        ensures
            r == self@.reg8(reg),
    {
        match reg {
            RegisterU8::A => self.a,
            RegisterU8::B => self.b,
            RegisterU8::C => self.c,
            RegisterU8::D => self.d,
            RegisterU8::E => self.e,
            RegisterU8::H => self.h,
            RegisterU8::L => self.l,
        }
    }

    pub fn write_u8_reg(&mut self, reg: RegisterU8, value: u8)
        ensures
            final(self)@ == old(self)@.with_reg8(reg, value),
    {
        match reg {
            RegisterU8::A => self.a = value,
            RegisterU8::B => self.b = value,
            RegisterU8::C => self.c = value,
            RegisterU8::D => self.d = value,
            RegisterU8::E => self.e = value,
            RegisterU8::H => self.h = value,
            RegisterU8::L => self.l = value,
        }
    }

    /// The register pair `reg` as it stands, to read.
    pub fn resolve_u16_reg_immutable(&self, reg: RegisterU16) -> (r: ImmutableRegisterPair)
        ensures
            r.reg == reg,
            r.spec_get() == self@.reg16(reg),
            r.high == self@.reg16(reg) / 256,
            r.spec_get_low() == self@.reg16(reg) % 256,
    {
        let (high, low) = match reg {
            RegisterU16::AF => (self.a, self.flag_register.to_byte()),
            RegisterU16::BC => (self.b, self.c),
            RegisterU16::DE => (self.d, self.e),
            RegisterU16::HL => (self.h, self.l),
        };
        ImmutableRegisterPair { high, low, reg }
    }

    /// The value of the register pair `reg`.
    pub fn resolve_u16_reg(&self, reg: RegisterU16) -> (r: u16)
        ensures
            r == self@.reg16(reg),
    {
        self.resolve_u16_reg_immutable(reg).get()
    }

    /// Writes `value` to the register pair `reg`.
    pub fn write_u16_reg(&mut self, reg: RegisterU16, value: u16)
        ensures
            final(self)@ == old(self)@.with_reg16(reg, value),
    {
        let current = self.resolve_u16_reg_immutable(reg);
        let mut pair = RegisterPair { high: current.high, low: current.low, reg };
        pair.set(value);
        match reg {
            RegisterU16::AF => {
                self.a = pair.high;
                self.flag_register = FlagRegister::from_byte(pair.low);
            },
            RegisterU16::BC => {
                self.b = pair.high;
                self.c = pair.low;
            },
            RegisterU16::DE => {
                self.d = pair.high;
                self.e = pair.low;
            },
            RegisterU16::HL => {
                self.h = pair.high;
                self.l = pair.low;
            },
        }
    }

    #[verifier::rlimit(30)]
    fn read_u8_target(&mut self, target: LoadSrcU8) -> (r: Result<u8, Fault>)
        requires
            old(self).wf(),
        ensures
            final(self).wf(),
            (final(self)@, r) == old(self)@.read_u8_target(target),
    {
        proof {
            reveal(CpuModel::read_u8_target);
        }
        match target {
            LoadSrcU8::Register(reg) => Ok(self.resolve_u8_reg(reg)),
            LoadSrcU8::AddressU16(reg) => {
                let addr = self.resolve_u16_reg(reg);
                self.mmu.read(Address::new(addr))
            },
            LoadSrcU8::AddressU8(reg) => {
                let lower_addr = self.resolve_u8_reg(reg);
                self.mmu.read(Address::from_lower(lower_addr))
            },
            LoadSrcU8::ImmediateAddressU8 => {
                let lower_addr = self.read_u8()?;
                self.mmu.read(Address::from_lower(lower_addr))
            },
            LoadSrcU8::ImmediateAddressU16 => {
                let addr = self.read_u16()?;
                self.mmu.read(Address::new(addr))
            },
            LoadSrcU8::ImmediateU8 => self.read_u8(),
            LoadSrcU8::AddressU16Increment(reg) => self.read_and_step(reg, true),
            LoadSrcU8::AddressU16Decrement(reg) => self.read_and_step(reg, false),
        }
    }

    #[verifier::rlimit(30)]
    fn write_u8_target(&mut self, target: LoadDstU8, value: u8) -> (r: Result<(), Fault>)
        requires
            old(self).wf(),
        ensures
            final(self).wf(),
            (final(self)@, r) == old(self)@.write_u8_target(target, value),
    {
        proof {
            reveal(CpuModel::write_u8_target);
        }
        match target {
            LoadDstU8::Register(reg) => {
                self.write_u8_reg(reg, value);
                Ok(())
            },
            LoadDstU8::AddressU8(reg) => {
                let lower_addr = self.resolve_u8_reg(reg);
                self.mmu.write(Address::from_lower(lower_addr), value)
            },
            LoadDstU8::AddressU16(reg) => {
                let addr = self.resolve_u16_reg(reg);
                self.mmu.write(Address::new(addr), value)
            },
            LoadDstU8::AddressU16Increment(reg) => self.write_and_step(reg, true, value),
            LoadDstU8::AddressU16Decrement(reg) => self.write_and_step(reg, false, value),
            LoadDstU8::ImmediateAddressU8 => {
                let lower_addr = self.read_u8()?;
                self.mmu.write(Address::from_lower(lower_addr), value)
            },
            LoadDstU8::ImmediateAddressU16 => {
                let addr = self.read_u16()?;
                self.mmu.write(Address::new(addr), value)
            },
        }
    }

    /// Reads at the address in `reg`, then moves `reg` one up or down.
    #[verifier::rlimit(30)]
    fn read_and_step(&mut self, reg: RegisterU16, up: bool) -> (r: Result<u8, Fault>)
        requires
            old(self).wf(),
        ensures
            final(self).wf(),
            (final(self)@, r) == old(self)@.read_and_step(reg, up),
    {
        let addr = self.resolve_u16_reg(reg);
        let value = self.mmu.read(Address::new(addr))?;
        let next = if up {
            addr.wrapping_add(1)
        } else {
            addr.wrapping_sub(1)
        };
        self.write_u16_reg(reg, next);
        Ok(value)
    }

    /// Writes at the address in `reg`, then moves `reg` one up or down.
    #[verifier::rlimit(30)]
    fn write_and_step(&mut self, reg: RegisterU16, up: bool, value: u8) -> (r: Result<(), Fault>)
        requires
            old(self).wf(),
        ensures
            final(self).wf(),
            (final(self)@, r) == old(self)@.write_and_step(reg, up, value),
    {
        let addr = self.resolve_u16_reg(reg);
        self.mmu.write(Address::new(addr), value)?;
        let next = if up {
            addr.wrapping_add(1)
        } else {
            addr.wrapping_sub(1)
        };
        self.write_u16_reg(reg, next);
        Ok(())
    }

    fn read_u16_target(&mut self, target: LoadSrcU16) -> (r: Result<u16, Fault>)
        requires
            old(self).wf(),
        ensures
            final(self).wf(),
            (final(self)@, r) == old(self)@.read_u16_target(target),
    {
        proof {
            reveal(CpuModel::read_u16_target);
        }
        match target {
            LoadSrcU16::Register(reg) => Ok(self.resolve_u16_reg(reg)),
            LoadSrcU16::ImmediateU16 => self.read_u16(),
            LoadSrcU16::StackPointer => Ok(self.sp),
        }
    }

    #[verifier::rlimit(30)]
    fn write_u16_target(&mut self, target: LoadDstU16, value: u16) -> (r: Result<(), Fault>)
        requires
            old(self).wf(),
        ensures
            final(self).wf(),
            (final(self)@, r) == old(self)@.write_u16_target(target, value),
    {
        proof {
            reveal(CpuModel::write_u16_target);
        }
        match target {
            LoadDstU16::Register(reg) => {
                self.write_u16_reg(reg, value);
                Ok(())
            },
            LoadDstU16::StackPointer => {
                self.sp = value;
                Ok(())
            },
            LoadDstU16::ImmediateAddress => {
                let addr = self.read_u16()?;
                self.mmu.write_word(Address::new(addr), Word::new(value))
            },
        }
    }

    fn rst(&mut self, addr: u16) -> (r: Result<(), Fault>)
        requires
            old(self).wf(),
        ensures
            final(self).wf(),
            (final(self)@, r) == old(self)@.rst(addr),
    {
        proof {
            reveal(CpuModel::rst);
        }
        let pc = self.pc;
        self.stack_push(pc)?;
        self.pc = addr;
        Ok(())
    }

    #[verifier::rlimit(30)]
    fn call(&mut self, condition: Option<FlagCondition>) -> (r: Result<(), Fault>)
        requires
            old(self).wf(),
        ensures
            final(self).wf(),
            (final(self)@, r) == old(self)@.call(condition),
    {
        proof {
            reveal(CpuModel::call);
        }
        let target_address = self.read_u16()?;
        if self.is_flag_condition_true(condition) {
            let pc = self.pc;
            self.stack_push(pc)?;
            self.pc = target_address;
        }
        Ok(())
    }

    fn stack_push(&mut self, value: u16) -> (r: Result<(), Fault>)
        requires
            old(self).wf(),
        ensures
            final(self).wf(),
            (final(self)@, r) == old(self)@.stack_push(value),
    {
        proof {
            reveal(CpuModel::stack_push);
        }
        self.sp = self.sp.wrapping_sub(2);
        self.mmu.write_word(Address::new(self.sp), Word::new(value))
    }

    fn stack_pop(&mut self) -> (r: Result<u16, Fault>)
        requires
            old(self).wf(),
        ensures
            final(self).wf(),
            (final(self)@, r) == old(self)@.stack_pop(),
    {
        proof {
            reveal(CpuModel::stack_pop);
        }
        let word = self.mmu.read_word(Address::new(self.sp))?;
        self.sp = self.sp.wrapping_add(2);
        Ok(word.value)
    }

    fn jump_immediate(&mut self, condition: Option<FlagCondition>) -> (r: Result<(), Fault>)
        requires
            old(self).wf(),
        ensures
            final(self).wf(),
            (final(self)@, r) == old(self)@.jump_immediate(condition),
    {
        proof {
            reveal(CpuModel::jump_immediate);
        }
        let address = self.read_u16()?;
        if self.is_flag_condition_true(condition) {
            self.pc = address;
        }
        Ok(())
    }

    #[verifier::rlimit(30)]
    fn relative_jump(&mut self, condition: Option<FlagCondition>) -> (r: Result<(), Fault>)
        requires
            old(self).wf(),
        ensures
            final(self).wf(),
            (final(self)@, r) == old(self)@.relative_jump(condition),
    {
        proof {
            reveal(CpuModel::relative_jump);
        }
        let offset = self.read_u8()?;
        let new_pc = if offset < 128 {
            self.pc.wrapping_add(offset as u16)
        } else {
            self.pc.wrapping_sub(256 - offset as u16)
        };
        if self.is_flag_condition_true(condition) {
            self.pc = new_pc;
        }
        Ok(())
    }

    #[verifier::rlimit(30)]
    fn ret(&mut self, condition: Option<FlagCondition>) -> (r: Result<(), Fault>)
        requires
            old(self).wf(),
        ensures
            final(self).wf(),
            (final(self)@, r) == old(self)@.ret(condition),
    {
        proof {
            reveal(CpuModel::ret);
        }
        if self.is_flag_condition_true(condition) {
            let new_pc = self.stack_pop()?;
            self.pc = new_pc;
        }
        Ok(())
    }

    fn push(&mut self, reg: RegisterU16) -> (r: Result<(), Fault>)
        requires
            old(self).wf(),
        ensures
            final(self).wf(),
            (final(self)@, r) == old(self)@.push(reg),
    {
        proof {
            reveal(CpuModel::push);
        }
        let value = self.resolve_u16_reg(reg);
        self.stack_push(value)
    }

    fn pop(&mut self, reg: RegisterU16) -> (r: Result<(), Fault>)
        requires
            old(self).wf(),
        ensures
            final(self).wf(),
            (final(self)@, r) == old(self)@.pop(reg),
    {
        proof {
            reveal(CpuModel::pop);
        }
        let value = self.stack_pop()?;
        self.write_u16_reg(reg, value);
        Ok(())
    }

    #[verifier::rlimit(30)]
    fn inc_u8(&mut self, target: IncDecU8Target) -> (r: Result<(), Fault>)
        requires
            old(self).wf(),
        ensures
            final(self).wf(),
            (final(self)@, r) == old(self)@.inc_u8(target),
    {
        proof {
            reveal(CpuModel::inc_u8);
        }
        let flag_change = match target {
            IncDecU8Target::RegisterU8(reg) => {
                let (value, flag_change) = inc_u8(self.resolve_u8_reg(reg));
                self.write_u8_reg(reg, value);
                flag_change
            },
            IncDecU8Target::Address(reg) => {
                let address = Address::new(self.resolve_u16_reg(reg));
                let (value, flag_change) = inc_u8(self.mmu.read(address)?);
                self.mmu.write(address, value)?;
                flag_change
            },
        };
        self.apply_flag_change(flag_change);
        Ok(())
    }

    #[verifier::rlimit(30)]
    fn inc_u16(&mut self, target: U16Target)
        requires
            old(self).wf(),
        ensures
            final(self).wf(),
            final(self)@ == old(self)@.inc_u16(target),
    {
        match target {
            U16Target::RegisterU16(reg) => {
                let current = self.resolve_u16_reg(reg);
                let value = current.wrapping_add(1);
                self.write_u16_reg(reg, value);
            },
            U16Target::StackPointer => {
                self.sp = self.sp.wrapping_add(1);
            },
        }
    }

    #[verifier::rlimit(30)]
    fn dec_u8(&mut self, target: IncDecU8Target) -> (r: Result<(), Fault>)
        requires
            old(self).wf(),
        ensures
            final(self).wf(),
            (final(self)@, r) == old(self)@.dec_u8(target),
    {
        proof {
            reveal(CpuModel::dec_u8);
        }
        let flag_change = match target {
            IncDecU8Target::RegisterU8(reg) => {
                let (value, flag_change) = dec_u8(self.resolve_u8_reg(reg));
                self.write_u8_reg(reg, value);
                flag_change
            },
            IncDecU8Target::Address(reg) => {
                let address = Address::new(self.resolve_u16_reg(reg));
                let (value, flag_change) = dec_u8(self.mmu.read(address)?);
                self.mmu.write(address, value)?;
                flag_change
            },
        };
        self.apply_flag_change(flag_change);
        Ok(())
    }

    #[verifier::rlimit(30)]
    fn dec_u16(&mut self, target: U16Target)
        requires
            old(self).wf(),
        ensures
            final(self).wf(),
            final(self)@ == old(self)@.dec_u16(target),
    {
        match target {
            U16Target::RegisterU16(reg) => {
                let current = self.resolve_u16_reg(reg);
                let value = current.wrapping_sub(1);
                self.write_u16_reg(reg, value);
            },
            U16Target::StackPointer => {
                self.sp = self.sp.wrapping_sub(1);
            },
        }
    }

    /// Applies `op` between the accumulator and `target`.
    fn accumulate(&mut self, op: AccumulatorOp, target: LogicalOpTarget) -> (r: Result<(), Fault>)
        requires
            old(self).wf(),
        ensures
            final(self).wf(),
            (final(self)@, r) == old(self)@.accumulate(op, target),
    {
        proof {
            reveal(CpuModel::accumulate);
        }
        let value = self.resolve_logical_op_target(target)?;
        let (a, flag_change) = accumulate(op, self.a, value, self.flag_register.get_c());
        self.a = a;
        self.apply_flag_change(flag_change);
        Ok(())
    }

    #[verifier::rlimit(30)]
    fn add_u16(&mut self, target: U16Target)
        requires
            old(self).wf(),
        ensures
            final(self).wf(),
            final(self)@ == old(self)@.add_u16(target),
    {
        proof {
            reveal(CpuModel::add_u16);
        }
        let rhs = match target {
            U16Target::RegisterU16(reg) => self.resolve_u16_reg(reg),
            U16Target::StackPointer => self.sp,
        };
        let hl = self.resolve_u16_reg(RegisterU16::HL);
        let (result, flag_change) = add_u16(hl, rhs);
        self.write_u16_reg(RegisterU16::HL, result);
        self.apply_flag_change(flag_change);
    }

    #[verifier::rlimit(30)]
    fn add_stackpointer_immediate(&mut self) -> (r: Result<(), Fault>)
        requires
            old(self).wf(),
        ensures
            final(self).wf(),
            (final(self)@, r) == old(self)@.add_stackpointer_immediate(),
    {
        proof {
            reveal(CpuModel::add_stackpointer_immediate);
        }
        let offset = self.read_u8()?;
        let (result, flag_change) = add_sp(self.sp, offset);
        self.sp = result;
        self.apply_flag_change(flag_change);
        Ok(())
    }

    #[verifier::rlimit(30)]
    fn load_hl_with_offset_sp(&mut self) -> (r: Result<(), Fault>)
        requires
            old(self).wf(),
        ensures
            final(self).wf(),
            (final(self)@, r) == old(self)@.load_hl_with_offset_sp(),
    {
        proof {
            reveal(CpuModel::load_hl_with_offset_sp);
        }
        let offset = self.read_u8()?;
        let (result, flag_change) = add_sp(self.sp, offset);
        self.write_u16_reg(RegisterU16::HL, result);
        self.apply_flag_change(flag_change);
        Ok(())
    }

    /// Rotates the accumulator by `op` and clears Z.
    #[verifier::rlimit(30)]
    fn rotate_accumulator(&mut self, op: PrefixedOp)
        requires
            old(self).wf(),
            op.valid(),
        ensures
            final(self).wf(),
            final(self)@ == old(self)@.rotate_accumulator(op),
    {
        proof {
            reveal(CpuModel::rotate_accumulator);
        }
        let (maybe_result, flag_change) = prefixed(op, self.a, self.flag_register.c);
        if let Some(result) = maybe_result {
            self.a = result;
        }
        self.flag_register.apply(FlagChange { z: Some(false), ..flag_change });
    }

    fn rra(&mut self)
        requires
            old(self).wf(),
        ensures
            final(self).wf(),
            final(self)@ == old(self)@.rotate_accumulator(PrefixedOp::Rr),
    {
        self.rotate_accumulator(PrefixedOp::Rr)
    }

    fn rla(&mut self)
        requires
            old(self).wf(),
        ensures
            final(self).wf(),
            final(self)@ == old(self)@.rotate_accumulator(PrefixedOp::Rl),
    {
        self.rotate_accumulator(PrefixedOp::Rl)
    }

    fn rlca(&mut self)
        requires
            old(self).wf(),
        ensures
            final(self).wf(),
            final(self)@ == old(self)@.rotate_accumulator(PrefixedOp::Rlc),
    {
        self.rotate_accumulator(PrefixedOp::Rlc)
    }

    fn rrca(&mut self)
        requires
            old(self).wf(),
        ensures
            final(self).wf(),
            final(self)@ == old(self)@.rotate_accumulator(PrefixedOp::Rrc),
    {
        self.rotate_accumulator(PrefixedOp::Rrc)
    }

    fn cpl(&mut self)
        requires
            old(self).wf(),
        ensures
            final(self).wf(),
            final(self)@ == old(self)@.cpl(),
    {
        let (a, flag_change) = cpl(self.a);
        self.a = a;
        self.apply_flag_change(flag_change);
    }

    fn scf(&mut self)
        requires
            old(self).wf(),
        ensures
            final(self).wf(),
            final(self)@ == old(self)@.scf(),
    {
        self.apply_flag_change(scf());
    }

    fn ccf(&mut self)
        requires
            old(self).wf(),
        ensures
            final(self).wf(),
            final(self)@ == old(self)@.ccf(),
    {
        let flag_change = ccf(self.flag_register.get_c());
        self.apply_flag_change(flag_change);
    }

    fn daa(&mut self)
        requires
            old(self).wf(),
        ensures
            final(self).wf(),
            final(self)@ == old(self)@.daa(),
    {
        proof {
            reveal(CpuModel::daa);
        }
        let (a, flag_change) = daa(self.a, &self.flag_register);
        self.a = a;
        self.apply_flag_change(flag_change);
    }

    /// Applies the prefixed operation `op` to `target`.
    #[verifier::rlimit(30)]
    fn apply_cb_target(&mut self, target: CommonOperand, op: PrefixedOp) -> (r: Result<(), Fault>)
        requires
            old(self).wf(),
            op.valid(),
        ensures
            final(self).wf(),
            (final(self)@, r) == old(self)@.prefixed(op, target),
    {
        proof {
            reveal(CpuModel::prefixed);
        }
        let old_carry = self.flag_register.get_c();
        let value: u8 = match target {
            CommonOperand::Register(reg) => self.resolve_u8_reg(reg),
            CommonOperand::AddressHL => {
                let address = Address::new(self.hl());
                self.mmu.read(address)?
            },
        };
        let (maybe_result, flag_change) = prefixed(op, value, old_carry);
        self.apply_flag_change(flag_change);

        if let Some(result) = maybe_result {
            match target {
                CommonOperand::Register(reg) => {
                    self.write_u8_reg(reg, result);
                },
                CommonOperand::AddressHL => {
                    let address = Address::new(self.hl());
                    self.mmu.write(address, result)?;
                },
            }
        }
        Ok(())
    }

    fn apply_flag_change(&mut self, flag_change: FlagChange)
        requires
            old(self).wf(),
        ensures
            final(self).wf(),
            final(self)@ == old(self)@.apply_flag_change(flag_change),
    {
        self.flag_register.apply(flag_change);
    }

    fn resolve_logical_op_target(&mut self, target: LogicalOpTarget) -> (r: Result<u8, Fault>)
        requires
            old(self).wf(),
        ensures
            final(self).wf(),
            (final(self)@, r) == old(self)@.resolve_logical_op_target(target),
    {
        proof {
            reveal(CpuModel::resolve_logical_op_target);
        }
        match target {
            LogicalOpTarget::Common(operand) => match operand {
                CommonOperand::Register(reg) => Ok(self.resolve_u8_reg(reg)),
                CommonOperand::AddressHL => {
                    let addr = self.resolve_u16_reg(RegisterU16::HL);
                    self.mmu.read(Address::new(addr))
                },
            },
            LogicalOpTarget::ImmediateU8 => self.read_u8(),
        }
    }

    fn is_flag_condition_true(&mut self, condition: Option<FlagCondition>) -> (r: bool)
        ensures
            (final(self)@, r) == old(self)@.is_flag_condition_true(condition),
    {
        match condition {
            // No condition is always true.
            None => true,
            Some(condition) => {
                let is_condition_true = match condition {
                    FlagCondition::Z => self.flag_register.get_z(),
                    FlagCondition::NZ => !self.flag_register.get_z(),
                    FlagCondition::C => self.flag_register.get_c(),
                    FlagCondition::NC => !self.flag_register.get_c(),
                };
                self.did_take_conditional_branch = is_condition_true;
                is_condition_true
            },
        }
    }

    fn hl(&self) -> (r: u16)
        ensures
            r == self@.hl(),
    {
        self.resolve_u16_reg(RegisterU16::HL)
    }
}

} // verus!
