//! Reads and writes of the program status register.

use vstd::prelude::*;
use crate::frontend::a32::decoder::{arm_expand_imm, expanded_imm, DecodedArm};
use crate::ir::a32_emitter::{A32IREmitter, EmitterState};
use crate::ir::opcode::Opcode;
use crate::ir::terminal::{halt_or, Terminal};
use crate::ir::value::Value;

verus! {

/// A read of the status register.
pub open spec fn arm_mrs_ir(s: EmitterState, inst: DecodedArm) -> (EmitterState, bool) {
    let (s, cpsr) = s.op0(Opcode::A32GetCpsr);
    (s.set_register(inst.rd(), cpsr), true)
}

/// Translates a read of the status register.
pub fn arm_mrs(ir: &mut A32IREmitter, inst: &DecodedArm) -> (r: bool)
    ensures
        (final(ir)@, r) == arm_mrs_ir(old(ir)@, *inst),
{
    let rd = inst.rd();
    let cpsr = ir.get_cpsr();
    ir.set_register(rd, cpsr);
    true
}

/// The bits of the status register that a field mask selects, the byte-order
/// bit among them.
pub open spec fn msr_mask(mask: u32) -> u32 {
    (if mask & 0x8 != 0 { 0xF800_0000u32 } else { 0u32 }) | (if mask & 0x4 != 0 {
        0x000F_0000u32
    } else {
        0u32
    }) | 0x0000_0200u32
}

/// A write of the status register: the flags (mask bit 3), the
/// greater-or-equal flags (bit 2) and the byte order (bit 1). After a change
/// of the byte order the code that follows is looked up anew.
pub open spec fn apply_msr_ir(s: EmitterState, mask: u32, value: Value) -> (EmitterState, bool) {
    let s = if mask & 0x8 != 0 {
        let (s, flags) = s.op2(Opcode::And32, value, Value::ImmU32(0xF800_0000));
        s.op1(Opcode::A32SetCpsrNZCVQ, flags).0
    } else {
        s
    };
    let s = if mask & 0x4 != 0 {
        let (s, ge) = s.op2(Opcode::And32, value, Value::ImmU32(0x000F_0000));
        s.op1(Opcode::A32SetGEFlagsCompressed, ge).0
    } else {
        s
    };
    if mask & 0x2 != 0 {
        let selected = msr_mask(mask);
        let (s, cpsr) = s.op0(Opcode::A32GetCpsr);
        let (s, kept) = s.op2(Opcode::And32, cpsr, Value::ImmU32(!selected));
        let (s, written) = s.op2(Opcode::And32, value, Value::ImmU32(selected));
        let (s, merged) = s.op2(Opcode::Or32, kept, written);
        let s = s.op1(Opcode::A32SetCpsr, merged).0;
        let next = s.loc.advance_pc(4);
        let s = s.push_rsb(next.to_location()).branch_write_pc(Value::ImmU32(next.pc()));
        (s.end(halt_or(Terminal::PopRSBHint)), false)
    } else {
        (s, true)
    }
}

fn apply_msr(ir: &mut A32IREmitter, mask: u32, value: Value) -> (r: bool)
    ensures
        (final(ir)@, r) == apply_msr_ir(old(ir)@, mask, value),
{
    let write_nzcvq: bool = (mask & 0x8) != 0;
    let write_g: bool = (mask & 0x4) != 0;
    let write_e: bool = (mask & 0x2) != 0;
    if write_nzcvq {
        let masked = ir.and_32(value, Value::ImmU32(0xF800_0000));
        ir.set_cpsr_nzcvq(masked);
    }
    if write_g {
        let masked = ir.and_32(value, Value::ImmU32(0x000F_0000));
        ir.set_ge_flags_compressed(masked);
    }
    if write_e {
        let flags_mask: u32 = if write_nzcvq { 0xF800_0000 } else { 0 };
        let ge_mask: u32 = if write_g { 0x000F_0000 } else { 0 };
        let cpsr_mask: u32 = flags_mask | ge_mask | 0x0000_0200;
        let cpsr = ir.get_cpsr();
        let old_cpsr = ir.and_32(cpsr, Value::ImmU32(!cpsr_mask));
        let new_cpsr = ir.and_32(value, Value::ImmU32(cpsr_mask));
        let merged_cpsr = ir.or_32(old_cpsr, new_cpsr);
        ir.set_cpsr(merged_cpsr);

        let next_loc = ir.current_location.advance_pc(4);
        ir.push_rsb(next_loc.to_location());
        ir.branch_write_pc(Value::ImmU32(next_loc.pc()));
        ir.set_term(Terminal::check_halt(Terminal::PopRSBHint));
        return false;
    }
    true
}

/// A write of the status register from an immediate.
pub open spec fn arm_msr_imm_ir(s: EmitterState, inst: DecodedArm) -> (EmitterState, bool) {
    let imm = expanded_imm(inst.rotate(), inst.imm8());
    apply_msr_ir(s, (inst.raw >> 16) & 0xF, Value::ImmU32(imm))
}

/// Translates a write of the status register from an immediate.
pub fn arm_msr_imm(ir: &mut A32IREmitter, inst: &DecodedArm) -> (r: bool)
    ensures
        (final(ir)@, r) == arm_msr_imm_ir(old(ir)@, *inst),
{
    let mask: u32 = (inst.raw >> 16) & 0xF;
    let imm: u32 = arm_expand_imm(inst.rotate(), inst.imm8());
    apply_msr(ir, mask, Value::ImmU32(imm))
}

/// A write of the status register from a register.
pub open spec fn arm_msr_reg_ir(s: EmitterState, inst: DecodedArm) -> (EmitterState, bool) {
    let (s, value) = s.get_register(inst.rm());
    apply_msr_ir(s, (inst.raw >> 16) & 0xF, value)
}

/// Translates a write of the status register from a register.
pub fn arm_msr_reg(ir: &mut A32IREmitter, inst: &DecodedArm) -> (r: bool)
    ensures
        (final(ir)@, r) == arm_msr_reg_ir(old(ir)@, *inst),
{
    let mask: u32 = (inst.raw >> 16) & 0xF;
    let rm = inst.rm();
    let value = ir.get_register(rm);
    apply_msr(ir, mask, value)
}

} // verus!
