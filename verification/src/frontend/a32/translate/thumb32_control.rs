//! Hints, barriers and status registers of 32-bit Thumb code.

use vstd::prelude::*;
use super::hint::hint_ir;
use super::status_register::msr_mask;
use super::thumb16::{thumb16_bx, thumb16_bx_ir};
use super::{
    unpredictable_instruction, unpredictable_ir, raise_exception, undefined_instruction,
    undefined_ir, TranslationOptions,
};
use crate::frontend::a32::decoder_thumb32::DecodedThumb32;
use crate::frontend::a32::types::{Exception, Reg};
use crate::ir::a32_emitter::{A32IREmitter, EmitterState};
use crate::ir::opcode::Opcode;
use crate::ir::terminal::{halt_or, Terminal};
use crate::ir::value::Value;

verus! {

broadcast use crate::bits::and_le_mask;

/// A branch to a register that may not be the program counter.
pub open spec fn thumb32_bxj_ir(s: EmitterState, inst: DecodedThumb32) -> (EmitterState, bool) {
    if inst.rn() == Reg::R15 {
        unpredictable_ir(s)
    } else {
        thumb16_bx_ir(s, inst.rn())
    }
}

/// Translates a branch to a register.
pub fn thumb32_bxj(ir: &mut A32IREmitter, inst: &DecodedThumb32) -> (r: bool)
    ensures
        (final(ir)@, r) == thumb32_bxj_ir(old(ir)@, *inst),
{
    let m = inst.rn();
    if m == Reg::R15 {
        return unpredictable_instruction(ir);
    }
    thumb16_bx(ir, m)
}

/// Translates the giving up of claimed memory.
pub fn thumb32_clrex(ir: &mut A32IREmitter) -> (r: bool)
    ensures
        (final(ir)@, r) == (old(ir)@.op0(Opcode::A32ClearExclusive).0, true),
{
    ir.clear_exclusive();
    true
}

/// Translates a barrier between memory accesses.
pub fn thumb32_dmb(ir: &mut A32IREmitter) -> (r: bool)
    ensures
        (final(ir)@, r) == (old(ir)@.op0(Opcode::A32DataMemoryBarrier).0, true),
{
    ir.data_memory_barrier();
    true
}

/// Translates a wait for memory accesses.
pub fn thumb32_dsb(ir: &mut A32IREmitter) -> (r: bool)
    ensures
        (final(ir)@, r) == (old(ir)@.op0(Opcode::A32DataSynchronizationBarrier).0, true),
{
    ir.data_synchronization_barrier();
    true
}

/// A barrier for instructions: the code that follows is looked up anew.
pub open spec fn thumb32_isb_ir(s: EmitterState) -> (EmitterState, bool) {
    let next = Value::ImmU32(s.loc.pc().wrapping_add(4));
    let s = s.op0(Opcode::A32InstructionSynchronizationBarrier).0;
    (
        s.update_upper_location_descriptor().branch_write_pc(next).end(Terminal::ReturnToDispatch),
        false,
    )
}

/// Translates a barrier for instructions.
pub fn thumb32_isb(ir: &mut A32IREmitter) -> (r: bool)
    ensures
        (final(ir)@, r) == thumb32_isb_ir(old(ir)@),
{
    let next_pc: u32 = ir.current_location.pc().wrapping_add(4);
    ir.instruction_synchronization_barrier();
    ir.update_upper_location_descriptor();
    ir.branch_write_pc(Value::ImmU32(next_pc));
    ir.set_term(Terminal::ReturnToDispatch);
    false
}

/// Translates an instruction that does nothing.
pub fn thumb32_nop() -> (r: bool)
    ensures
        r,
{
    true
}

/// Translates a hint.
fn thumb32_hint(
    ir: &mut A32IREmitter,
    options: TranslationOptions,
    exception: Exception,
) -> (r: bool)
    ensures
        (final(ir)@, r) == hint_ir(old(ir)@, options, exception),
{
    if !options.hook_hint_instructions {
        return true;
    }
    raise_exception(ir, exception)
}

/// Translates the sending of an event.
pub fn thumb32_sev(ir: &mut A32IREmitter, options: TranslationOptions) -> (r: bool)
    ensures
        (final(ir)@, r) == hint_ir(old(ir)@, options, Exception::SendEvent),
{
    thumb32_hint(ir, options, Exception::SendEvent)
}

/// Translates the sending of a local event.
pub fn thumb32_sevl(ir: &mut A32IREmitter, options: TranslationOptions) -> (r: bool)
    ensures
        (final(ir)@, r) == hint_ir(old(ir)@, options, Exception::SendEventLocal),
{
    thumb32_hint(ir, options, Exception::SendEventLocal)
}

/// Translates a wait for an event.
pub fn thumb32_wfe(ir: &mut A32IREmitter, options: TranslationOptions) -> (r: bool)
    ensures
        (final(ir)@, r) == hint_ir(old(ir)@, options, Exception::WaitForEvent),
{
    thumb32_hint(ir, options, Exception::WaitForEvent)
}

/// Translates a wait for an interrupt.
pub fn thumb32_wfi(ir: &mut A32IREmitter, options: TranslationOptions) -> (r: bool)
    ensures
        (final(ir)@, r) == hint_ir(old(ir)@, options, Exception::WaitForInterrupt),
{
    thumb32_hint(ir, options, Exception::WaitForInterrupt)
}

/// Translates a yield.
pub fn thumb32_yield(ir: &mut A32IREmitter, options: TranslationOptions) -> (r: bool)
    ensures
        (final(ir)@, r) == hint_ir(old(ir)@, options, Exception::Yield),
{
    thumb32_hint(ir, options, Exception::Yield)
}

/// Translates an undefined instruction.
pub fn thumb32_udf(ir: &mut A32IREmitter) -> (r: bool)
    ensures
        (final(ir)@, r) == undefined_ir(old(ir)@),
{
    undefined_instruction(ir)
}

/// A write of the status register: the flags (mask bit 3), the
/// greater-or-equal flags (bit 2) and the byte order (bit 1). An empty mask
/// and the program counter are unpredictable, the saved status register is
/// undefined. After a change of the byte order, which writes all selected
/// fields at once, the code that follows is looked up anew.
pub open spec fn thumb32_msr_reg_ir(s: EmitterState, inst: DecodedThumb32) -> (EmitterState, bool) {
    let mask = (inst.raw >> 8) & 0xF;
    if mask == 0 || inst.rn() == Reg::R15 {
        unpredictable_ir(s)
    } else if (inst.raw >> 20) & 1 != 0 {
        undefined_ir(s)
    } else {
        let (s, value) = s.get_register(inst.rn());
        if mask & 0x2 != 0 {
            let selected = msr_mask(mask);
            let s = s.update_upper_location_descriptor();
            let (s, cpsr) = s.op0(Opcode::A32GetCpsr);
            let (s, kept) = s.op2(Opcode::And32, cpsr, Value::ImmU32(!selected));
            let (s, written) = s.op2(Opcode::And32, value, Value::ImmU32(selected));
            let (s, merged) = s.op2(Opcode::Or32, kept, written);
            let s = s.op1(Opcode::A32SetCpsr, merged).0;
            let next = s.loc.advance_pc(4).advance_it();
            let s = s.push_rsb(next.to_location()).branch_write_pc(Value::ImmU32(next.pc()));
            (s.end(halt_or(Terminal::PopRSBHint)), false)
        } else {
            let s = if mask & 0x8 != 0 {
                let (s, flags) = s.op2(Opcode::And32, value, Value::ImmU32(0xF800_0000));
                s.op1(Opcode::A32SetCpsrNZCVQ, flags).0
            } else {
                s
            };
            let s = if mask & 0x4 != 0 {
                let (s, ge) = s.op2(Opcode::And32, value, Value::ImmU32(0x000F_0000));
                s.op1(Opcode::A32SetGEFlagsCompressed, ge).0
            } else {
                s
            };
            (s, true)
        }
    }
}

/// Translates a write of the status register.
pub fn thumb32_msr_reg(ir: &mut A32IREmitter, inst: &DecodedThumb32) -> (r: bool)
    ensures
        (final(ir)@, r) == thumb32_msr_reg_ir(old(ir)@, *inst),
{
    let write_spsr: bool = (inst.raw >> 20) & 1 != 0;
    let n = inst.rn();
    let mask: u32 = (inst.raw >> 8) & 0xF;
    if mask == 0 {
        return unpredictable_instruction(ir);
    }
    if n == Reg::R15 {
        return unpredictable_instruction(ir);
    }
    if write_spsr {
        return undefined_instruction(ir);
    }
    let write_nzcvq: bool = (mask & 0x8) != 0;
    let write_g: bool = (mask & 0x4) != 0;
    let write_e: bool = (mask & 0x2) != 0;
    let value = ir.get_register(n);
    if !write_e {
        if write_nzcvq {
            let masked = ir.and_32(value, Value::ImmU32(0xF800_0000));
            ir.set_cpsr_nzcvq(masked);
        }
        if write_g {
            let masked = ir.and_32(value, Value::ImmU32(0x000F_0000));
            ir.set_ge_flags_compressed(masked);
        }
        return true;
    }
    ir.update_upper_location_descriptor();
    let flags_mask: u32 = if write_nzcvq { 0xF800_0000 } else { 0 };
    let ge_mask: u32 = if write_g { 0x000F_0000 } else { 0 };
    let cpsr_mask: u32 = flags_mask | ge_mask | 0x0000_0200;
    let cpsr = ir.get_cpsr();
    let old_cpsr = ir.and_32(cpsr, Value::ImmU32(!cpsr_mask));
    let new_cpsr = ir.and_32(value, Value::ImmU32(cpsr_mask));
    let merged_cpsr = ir.or_32(old_cpsr, new_cpsr);
    ir.set_cpsr(merged_cpsr);
    let next_loc = ir.current_location.advance_pc(4).advance_it();
    ir.push_rsb(next_loc.to_location());
    ir.branch_write_pc(Value::ImmU32(next_loc.pc()));
    ir.set_term(Terminal::check_halt(Terminal::PopRSBHint));
    false
}

/// A read of the status register. The program counter is unpredictable, the
/// saved status register undefined.
pub open spec fn thumb32_mrs_reg_ir(s: EmitterState, inst: DecodedThumb32) -> (EmitterState, bool) {
    if inst.rd() == Reg::R15 {
        unpredictable_ir(s)
    } else if (inst.raw >> 20) & 1 != 0 {
        undefined_ir(s)
    } else {
        let (s, cpsr) = s.op0(Opcode::A32GetCpsr);
        (s.set_register(inst.rd(), cpsr), true)
    }
}

/// Translates a read of the status register.
pub fn thumb32_mrs_reg(ir: &mut A32IREmitter, inst: &DecodedThumb32) -> (r: bool)
    ensures
        (final(ir)@, r) == thumb32_mrs_reg_ir(old(ir)@, *inst),
{
    let read_spsr: bool = (inst.raw >> 20) & 1 != 0;
    let d = inst.rd();
    if d == Reg::R15 {
        return unpredictable_instruction(ir);
    }
    if read_spsr {
        return undefined_instruction(ir);
    }
    let cpsr = ir.get_cpsr();
    ir.set_register(d, cpsr);
    true
}

} // verus!
