//! Data processing of 32-bit Thumb code with a shifted register.

use vstd::prelude::*;
use super::helpers::{emit_imm_shift, imm_shift_ir};
use super::thumb32_data_processing_modified_immediate::{
    is_comparison, set_nzc_ir, set_nzcv_ir, write_arithmetic_ir, write_logical_ir,
};
use super::{unpredictable_instruction, unpredictable_ir};
use crate::frontend::a32::decoder_thumb32::DecodedThumb32;
use crate::frontend::a32::types::{Reg};
use crate::ir::a32_emitter::{A32IREmitter, EmitterState};
use crate::ir::opcode::Opcode;
use crate::ir::value::Value;

verus! {

broadcast use crate::bits::and_le_mask;

/// The shifted register and the carry of the shift.
pub open spec fn shifted_register_ir(s: EmitterState, inst: DecodedThumb32) -> (
    EmitterState,
    (Value, Value),
) {
    let (shift, amount) = inst.shift_type_amount();
    let (s, m) = s.get_register(inst.rm());
    let (s, c) = s.op0(Opcode::A32GetCFlag);
    imm_shift_ir(s, m, shift, amount, c)
}

fn shifted_register(ir: &mut A32IREmitter, inst: &DecodedThumb32) -> (r: (Value, Value))
    ensures
        (final(ir)@, r) == shifted_register_ir(old(ir)@, *inst),
{
    let (shift_type, shift_amount) = inst.shift_type_amount();
    let reg_m = ir.get_register(inst.rm());
    let carry = ir.get_c_flag();
    emit_imm_shift(ir, reg_m, shift_type, shift_amount, carry)
}

/// Whether an operation with a destination uses the program counter.
pub open spec fn uses_pc(inst: DecodedThumb32) -> bool {
    inst.rd() == Reg::R15 || inst.rn() == Reg::R15 || inst.rm() == Reg::R15
}

/// Whether a test or comparison uses the program counter.
pub open spec fn compares_pc(inst: DecodedThumb32) -> bool {
    inst.rn() == Reg::R15 || inst.rm() == Reg::R15
}

/// A logical operation of a register and a shifted register.
pub open spec fn logical_reg_ir(s: EmitterState, inst: DecodedThumb32, operation: Opcode) -> (
    EmitterState,
    bool,
) {
    if uses_pc(inst) {
        unpredictable_ir(s)
    } else {
        let (s, (shifted, carry)) = shifted_register_ir(s, inst);
        let (s, n) = s.get_register(inst.rn());
        let (s, result) = s.op2(operation, n, shifted);
        write_logical_ir(s, inst, result, carry)
    }
}

/// A logical test of a register and a shifted register.
pub open spec fn test_reg_ir(s: EmitterState, inst: DecodedThumb32, operation: Opcode) -> (
    EmitterState,
    bool,
) {
    if compares_pc(inst) {
        unpredictable_ir(s)
    } else {
        let (s, (shifted, carry)) = shifted_register_ir(s, inst);
        let (s, n) = s.get_register(inst.rn());
        let (s, result) = s.op2(operation, n, shifted);
        (set_nzc_ir(s, result, carry), true)
    }
}

/// A sum (`Add32`) or difference (`Sub32`) of a register and a shifted
/// register.
pub open spec fn arithmetic_reg_ir(s: EmitterState, inst: DecodedThumb32, operation: Opcode) -> (
    EmitterState,
    bool,
) {
    if uses_pc(inst) {
        unpredictable_ir(s)
    } else {
        let (s, (shifted, carry)) = shifted_register_ir(s, inst);
        let (s, n) = s.get_register(inst.rn());
        let (s, result) = s.op3(
            operation,
            n,
            shifted,
            Value::ImmU1(operation == Opcode::Sub32),
        );
        write_arithmetic_ir(s, inst, result)
    }
}

/// A sum or difference of a register, a shifted register and the carry flag.
pub open spec fn carry_reg_ir(s: EmitterState, inst: DecodedThumb32, operation: Opcode) -> (
    EmitterState,
    bool,
) {
    if uses_pc(inst) {
        unpredictable_ir(s)
    } else {
        let (s, (shifted, carry)) = shifted_register_ir(s, inst);
        let (s, n) = s.get_register(inst.rn());
        let (s, c) = s.op0(Opcode::A32GetCFlag);
        let (s, result) = s.op3(operation, n, shifted, c);
        write_arithmetic_ir(s, inst, result)
    }
}

/// A comparison of a register and a shifted register.
pub open spec fn compare_reg_ir(s: EmitterState, inst: DecodedThumb32, operation: Opcode) -> (
    EmitterState,
    bool,
) {
    if compares_pc(inst) {
        unpredictable_ir(s)
    } else {
        let (s, (shifted, carry)) = shifted_register_ir(s, inst);
        let (s, n) = s.get_register(inst.rn());
        let (s, result) = s.op3(
            operation,
            n,
            shifted,
            Value::ImmU1(operation == Opcode::Sub32),
        );
        (set_nzcv_ir(s, result), true)
    }
}

/// Translates a test of common bits with a shifted register.
pub fn thumb32_tst_reg(ir: &mut A32IREmitter, inst: &DecodedThumb32) -> (r: bool)
    ensures
        (final(ir)@, r) == test_reg_ir(old(ir)@, *inst, Opcode::And32),
{
    let n = inst.rn();
    let m = inst.rm();
    if n == Reg::R15 || m == Reg::R15 {
        return unpredictable_instruction(ir);
    }
    let (shifted, carry) = shifted_register(ir, inst);
    let reg_n = ir.get_register(n);
    let result = ir.and_32(reg_n, shifted);
    let nz = ir.get_nz_from_op(result);
    ir.set_cpsr_nzc(nz, carry);
    true
}

/// Translates a test of equality with a shifted register.
pub fn thumb32_teq_reg(ir: &mut A32IREmitter, inst: &DecodedThumb32) -> (r: bool)
    ensures
        (final(ir)@, r) == test_reg_ir(old(ir)@, *inst, Opcode::Eor32),
{
    let n = inst.rn();
    let m = inst.rm();
    if n == Reg::R15 || m == Reg::R15 {
        return unpredictable_instruction(ir);
    }
    let (shifted, carry) = shifted_register(ir, inst);
    let reg_n = ir.get_register(n);
    let result = ir.eor_32(reg_n, shifted);
    let nz = ir.get_nz_from_op(result);
    ir.set_cpsr_nzc(nz, carry);
    true
}

/// Translates a bitwise and with a shifted register.
pub fn thumb32_and_reg(ir: &mut A32IREmitter, inst: &DecodedThumb32) -> (r: bool)
    requires
        !is_comparison(*inst),
    ensures
        (final(ir)@, r) == logical_reg_ir(old(ir)@, *inst, Opcode::And32),
{
    let n = inst.rn();
    let d = inst.rd();
    let m = inst.rm();
    if d == Reg::R15 || n == Reg::R15 || m == Reg::R15 {
        return unpredictable_instruction(ir);
    }
    let (shifted, carry) = shifted_register(ir, inst);
    let reg_n = ir.get_register(n);
    let result = ir.and_32(reg_n, shifted);
    ir.set_register(d, result);
    if inst.s_flag() {
        let nz = ir.get_nz_from_op(result);
        ir.set_cpsr_nzc(nz, carry);
    }
    true
}

/// Translates a clearing of bits with a shifted register.
pub fn thumb32_bic_reg(ir: &mut A32IREmitter, inst: &DecodedThumb32) -> (r: bool)
    ensures
        (final(ir)@, r) == logical_reg_ir(old(ir)@, *inst, Opcode::AndNot32),
{
    let n = inst.rn();
    let d = inst.rd();
    let m = inst.rm();
    if d == Reg::R15 || n == Reg::R15 || m == Reg::R15 {
        return unpredictable_instruction(ir);
    }
    let (shifted, carry) = shifted_register(ir, inst);
    let reg_n = ir.get_register(n);
    let result = ir.and_not_32(reg_n, shifted);
    ir.set_register(d, result);
    if inst.s_flag() {
        let nz = ir.get_nz_from_op(result);
        ir.set_cpsr_nzc(nz, carry);
    }
    true
}

/// Translates a bitwise or with a shifted register.
pub fn thumb32_orr_reg(ir: &mut A32IREmitter, inst: &DecodedThumb32) -> (r: bool)
    requires
        inst.rn() != Reg::R15,
    ensures
        (final(ir)@, r) == logical_reg_ir(old(ir)@, *inst, Opcode::Or32),
{
    let n = inst.rn();
    let d = inst.rd();
    let m = inst.rm();
    if d == Reg::R15 || m == Reg::R15 {
        return unpredictable_instruction(ir);
    }
    let (shifted, carry) = shifted_register(ir, inst);
    let reg_n = ir.get_register(n);
    let result = ir.or_32(reg_n, shifted);
    ir.set_register(d, result);
    if inst.s_flag() {
        let nz = ir.get_nz_from_op(result);
        ir.set_cpsr_nzc(nz, carry);
    }
    true
}

/// Translates a bitwise exclusive or with a shifted register.
pub fn thumb32_eor_reg(ir: &mut A32IREmitter, inst: &DecodedThumb32) -> (r: bool)
    requires
        !is_comparison(*inst),
    ensures
        (final(ir)@, r) == logical_reg_ir(old(ir)@, *inst, Opcode::Eor32),
{
    let n = inst.rn();
    let d = inst.rd();
    let m = inst.rm();
    if d == Reg::R15 || n == Reg::R15 || m == Reg::R15 {
        return unpredictable_instruction(ir);
    }
    let (shifted, carry) = shifted_register(ir, inst);
    let reg_n = ir.get_register(n);
    let result = ir.eor_32(reg_n, shifted);
    ir.set_register(d, result);
    if inst.s_flag() {
        let nz = ir.get_nz_from_op(result);
        ir.set_cpsr_nzc(nz, carry);
    }
    true
}

/// A bitwise or with the complement of a shifted register.
pub open spec fn thumb32_orn_reg_ir(s: EmitterState, inst: DecodedThumb32) -> (EmitterState, bool) {
    if uses_pc(inst) {
        unpredictable_ir(s)
    } else {
        let (s, (shifted, carry)) = shifted_register_ir(s, inst);
        let (s, n) = s.get_register(inst.rn());
        let (s, complement) = s.op1(Opcode::Not32, shifted);
        let (s, result) = s.op2(Opcode::Or32, n, complement);
        write_logical_ir(s, inst, result, carry)
    }
}

/// Translates a bitwise or with the complement of a shifted register.
pub fn thumb32_orn_reg(ir: &mut A32IREmitter, inst: &DecodedThumb32) -> (r: bool)
    requires
        inst.rn() != Reg::R15,
    ensures
        (final(ir)@, r) == thumb32_orn_reg_ir(old(ir)@, *inst),
{
    let n = inst.rn();
    let d = inst.rd();
    let m = inst.rm();
    if d == Reg::R15 || m == Reg::R15 {
        return unpredictable_instruction(ir);
    }
    let (shifted, carry) = shifted_register(ir, inst);
    let reg_n = ir.get_register(n);
    let not_shifted = ir.not_32(shifted);
    let result = ir.or_32(reg_n, not_shifted);
    ir.set_register(d, result);
    if inst.s_flag() {
        let nz = ir.get_nz_from_op(result);
        ir.set_cpsr_nzc(nz, carry);
    }
    true
}

/// A move of a shifted register, or of its complement.
pub open spec fn move_reg_ir(s: EmitterState, inst: DecodedThumb32, complement: bool) -> (
    EmitterState,
    bool,
) {
    if inst.rd() == Reg::R15 || inst.rm() == Reg::R15 {
        unpredictable_ir(s)
    } else {
        let (s, (shifted, carry)) = shifted_register_ir(s, inst);
        let (s, result) = if complement {
            s.op1(Opcode::Not32, shifted)
        } else {
            (s, shifted)
        };
        write_logical_ir(s, inst, result, carry)
    }
}

/// Translates a move of a shifted register.
pub fn thumb32_mov_reg(ir: &mut A32IREmitter, inst: &DecodedThumb32) -> (r: bool)
    ensures
        (final(ir)@, r) == move_reg_ir(old(ir)@, *inst, false),
{
    let d = inst.rd();
    let m = inst.rm();
    if d == Reg::R15 || m == Reg::R15 {
        return unpredictable_instruction(ir);
    }
    let (result, carry) = shifted_register(ir, inst);
    ir.set_register(d, result);
    if inst.s_flag() {
        let nz = ir.get_nz_from_op(result);
        ir.set_cpsr_nzc(nz, carry);
    }
    true
}

/// Translates a move of the complement of a shifted register.
pub fn thumb32_mvn_reg(ir: &mut A32IREmitter, inst: &DecodedThumb32) -> (r: bool)
    ensures
        (final(ir)@, r) == move_reg_ir(old(ir)@, *inst, true),
{
    let d = inst.rd();
    let m = inst.rm();
    if d == Reg::R15 || m == Reg::R15 {
        return unpredictable_instruction(ir);
    }
    let (shifted, carry) = shifted_register(ir, inst);
    let result = ir.not_32(shifted);
    ir.set_register(d, result);
    if inst.s_flag() {
        let nz = ir.get_nz_from_op(result);
        ir.set_cpsr_nzc(nz, carry);
    }
    true
}

/// A word made of the lower half of one operand and the upper half of the
/// other: with bit 5 set the lower half is that of the shifted register.
pub open spec fn thumb32_pkh_ir(s: EmitterState, inst: DecodedThumb32) -> (EmitterState, bool) {
    if uses_pc(inst) {
        unpredictable_ir(s)
    } else {
        let (s, (shifted, carry)) = shifted_register_ir(s, inst);
        let top = inst.raw & 0x20 != 0;
        let (s, low) = if top { (s, shifted) } else { s.get_register(inst.rn()) };
        let (s, lower) = s.op2(Opcode::And32, low, Value::ImmU32(0x0000_FFFF));
        let (s, high) = if top { s.get_register(inst.rn()) } else { (s, shifted) };
        let (s, upper) = s.op2(Opcode::And32, high, Value::ImmU32(0xFFFF_0000));
        let (s, result) = s.op2(Opcode::Or32, upper, lower);
        (s.set_register(inst.rd(), result), true)
    }
}

/// Translates a packing of two halves.
pub fn thumb32_pkh(ir: &mut A32IREmitter, inst: &DecodedThumb32) -> (r: bool)
    ensures
        (final(ir)@, r) == thumb32_pkh_ir(old(ir)@, *inst),
{
    let n = inst.rn();
    let d = inst.rd();
    let m = inst.rm();
    if d == Reg::R15 || n == Reg::R15 || m == Reg::R15 {
        return unpredictable_instruction(ir);
    }
    let tb: bool = inst.raw & 0x20 != 0;
    let (operand2, _carry) = shifted_register(ir, inst);
    let lower_source = if tb { operand2 } else { ir.get_register(n) };
    let lower = ir.and_32(lower_source, Value::ImmU32(0x0000_FFFF));
    let upper_source = if tb { ir.get_register(n) } else { operand2 };
    let upper = ir.and_32(upper_source, Value::ImmU32(0xFFFF_0000));
    let result = ir.or_32(upper, lower);
    ir.set_register(d, result);
    true
}

/// Translates a comparison with the negative of a shifted register.
pub fn thumb32_cmn_reg(ir: &mut A32IREmitter, inst: &DecodedThumb32) -> (r: bool)
    ensures
        (final(ir)@, r) == compare_reg_ir(old(ir)@, *inst, Opcode::Add32),
{
    let n = inst.rn();
    let m = inst.rm();
    if n == Reg::R15 || m == Reg::R15 {
        return unpredictable_instruction(ir);
    }
    let (shifted, _carry) = shifted_register(ir, inst);
    let reg_n = ir.get_register(n);
    let result = ir.add_32(reg_n, shifted, Value::ImmU1(false));
    let nzcv = ir.get_nzcv_from_op(result);
    ir.set_cpsr_nzcv(nzcv);
    true
}

/// Translates a comparison with a shifted register.
pub fn thumb32_cmp_reg(ir: &mut A32IREmitter, inst: &DecodedThumb32) -> (r: bool)
    ensures
        (final(ir)@, r) == compare_reg_ir(old(ir)@, *inst, Opcode::Sub32),
{
    let n = inst.rn();
    let m = inst.rm();
    if n == Reg::R15 || m == Reg::R15 {
        return unpredictable_instruction(ir);
    }
    let (shifted, _carry) = shifted_register(ir, inst);
    let reg_n = ir.get_register(n);
    let result = ir.sub_32(reg_n, shifted, Value::ImmU1(true));
    let nzcv = ir.get_nzcv_from_op(result);
    ir.set_cpsr_nzcv(nzcv);
    true
}

/// Translates a sum with a shifted register.
pub fn thumb32_add_reg(ir: &mut A32IREmitter, inst: &DecodedThumb32) -> (r: bool)
    requires
        !is_comparison(*inst),
    ensures
        (final(ir)@, r) == arithmetic_reg_ir(old(ir)@, *inst, Opcode::Add32),
{
    let n = inst.rn();
    let d = inst.rd();
    let m = inst.rm();
    if d == Reg::R15 || n == Reg::R15 || m == Reg::R15 {
        return unpredictable_instruction(ir);
    }
    let (shifted, _carry) = shifted_register(ir, inst);
    let reg_n = ir.get_register(n);
    let result = ir.add_32(reg_n, shifted, Value::ImmU1(false));
    ir.set_register(d, result);
    if inst.s_flag() {
        let nzcv = ir.get_nzcv_from_op(result);
        ir.set_cpsr_nzcv(nzcv);
    }
    true
}

/// Translates a difference with a shifted register.
pub fn thumb32_sub_reg(ir: &mut A32IREmitter, inst: &DecodedThumb32) -> (r: bool)
    requires
        !is_comparison(*inst),
    ensures
        (final(ir)@, r) == arithmetic_reg_ir(old(ir)@, *inst, Opcode::Sub32),
{
    let n = inst.rn();
    let d = inst.rd();
    let m = inst.rm();
    if d == Reg::R15 || n == Reg::R15 || m == Reg::R15 {
        return unpredictable_instruction(ir);
    }
    let (shifted, _carry) = shifted_register(ir, inst);
    let reg_n = ir.get_register(n);
    let result = ir.sub_32(reg_n, shifted, Value::ImmU1(true));
    ir.set_register(d, result);
    if inst.s_flag() {
        let nzcv = ir.get_nzcv_from_op(result);
        ir.set_cpsr_nzcv(nzcv);
    }
    true
}

/// Translates a sum with carry and a shifted register.
pub fn thumb32_adc_reg(ir: &mut A32IREmitter, inst: &DecodedThumb32) -> (r: bool)
    ensures
        (final(ir)@, r) == carry_reg_ir(old(ir)@, *inst, Opcode::Add32),
{
    let n = inst.rn();
    let d = inst.rd();
    let m = inst.rm();
    if d == Reg::R15 || n == Reg::R15 || m == Reg::R15 {
        return unpredictable_instruction(ir);
    }
    let (shifted, _carry) = shifted_register(ir, inst);
    let reg_n = ir.get_register(n);
    let carry = ir.get_c_flag();
    let result = ir.add_32(reg_n, shifted, carry);
    ir.set_register(d, result);
    if inst.s_flag() {
        let nzcv = ir.get_nzcv_from_op(result);
        ir.set_cpsr_nzcv(nzcv);
    }
    true
}

/// Translates a difference with carry and a shifted register.
pub fn thumb32_sbc_reg(ir: &mut A32IREmitter, inst: &DecodedThumb32) -> (r: bool)
    ensures
        (final(ir)@, r) == carry_reg_ir(old(ir)@, *inst, Opcode::Sub32),
{
    let n = inst.rn();
    let d = inst.rd();
    let m = inst.rm();
    if d == Reg::R15 || n == Reg::R15 || m == Reg::R15 {
        return unpredictable_instruction(ir);
    }
    let (shifted, _carry) = shifted_register(ir, inst);
    let reg_n = ir.get_register(n);
    let carry = ir.get_c_flag();
    let result = ir.sub_32(reg_n, shifted, carry);
    ir.set_register(d, result);
    if inst.s_flag() {
        let nzcv = ir.get_nzcv_from_op(result);
        ir.set_cpsr_nzcv(nzcv);
    }
    true
}

/// A shifted register minus a register.
pub open spec fn thumb32_rsb_reg_ir(s: EmitterState, inst: DecodedThumb32) -> (EmitterState, bool) {
    if uses_pc(inst) {
        unpredictable_ir(s)
    } else {
        let (s, (shifted, carry)) = shifted_register_ir(s, inst);
        let (s, n) = s.get_register(inst.rn());
        let (s, result) = s.op3(Opcode::Sub32, shifted, n, Value::ImmU1(true));
        write_arithmetic_ir(s, inst, result)
    }
}

/// Translates a shifted register minus a register.
pub fn thumb32_rsb_reg(ir: &mut A32IREmitter, inst: &DecodedThumb32) -> (r: bool)
    ensures
        (final(ir)@, r) == thumb32_rsb_reg_ir(old(ir)@, *inst),
{
    let n = inst.rn();
    let d = inst.rd();
    let m = inst.rm();
    if d == Reg::R15 || n == Reg::R15 || m == Reg::R15 {
        return unpredictable_instruction(ir);
    }
    let (shifted, _carry) = shifted_register(ir, inst);
    let reg_n = ir.get_register(n);
    let result = ir.sub_32(shifted, reg_n, Value::ImmU1(true));
    ir.set_register(d, result);
    if inst.s_flag() {
        let nzcv = ir.get_nzcv_from_op(result);
        ir.set_cpsr_nzcv(nzcv);
    }
    true
}

} // verus!
