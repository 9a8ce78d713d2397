//! Data processing of 32-bit Thumb code with modified immediates.

use vstd::prelude::*;
use super::{
    unpredictable_instruction, unpredictable_ir, is_replicated, thumb_expand_imm,
    thumb_expand_imm_c, thumb_expanded_imm,
};
use crate::frontend::a32::decoder_thumb32::DecodedThumb32;
use crate::frontend::a32::types::{Reg};
use crate::ir::a32_emitter::{A32IREmitter, EmitterState};
use crate::ir::opcode::Opcode;
use crate::ir::value::Value;

verus! {

broadcast use crate::bits::and_le_mask;

/// Setting the sign and zero flags from a result, and the carry flag.
pub open spec fn set_nzc_ir(s: EmitterState, result: Value, carry: Value) -> EmitterState {
    let (s, nz) = s.op1(Opcode::GetNZFromOp, result);
    s.op2(Opcode::A32SetCpsrNZC, nz, carry).0
}

/// Setting all four flags from a result.
pub open spec fn set_nzcv_ir(s: EmitterState, result: Value) -> EmitterState {
    let (s, nzcv) = s.op1(Opcode::GetNZCVFromOp, result);
    s.op1(Opcode::A32SetCpsrNZCV, nzcv).0
}

/// Writing the result of a logical operation, then the flags if asked for.
pub open spec fn write_logical_ir(
    s: EmitterState,
    inst: DecodedThumb32,
    result: Value,
    carry: Value,
) -> (EmitterState, bool) {
    let s = s.set_register(inst.rd(), result);
    (if inst.s_flag() { set_nzc_ir(s, result, carry) } else { s }, true)
}

/// Writing the result of an arithmetic operation, then the flags if asked
/// for.
pub open spec fn write_arithmetic_ir(s: EmitterState, inst: DecodedThumb32, result: Value) -> (
    EmitterState,
    bool,
) {
    let s = s.set_register(inst.rd(), result);
    (if inst.s_flag() { set_nzcv_ir(s, result) } else { s }, true)
}

/// The expanded immediate.
pub open spec fn imm_of(inst: DecodedThumb32) -> u32 {
    thumb_expanded_imm(inst.thumb_expand_imm_bits())
}

/// The carry of the expansion, given the old carry flag.
pub open spec fn imm_carry(inst: DecodedThumb32, carry_in: Value) -> Value {
    if is_replicated(inst.thumb_expand_imm_bits()) {
        carry_in
    } else {
        Value::ImmU1(imm_of(inst) & 0x8000_0000 != 0)
    }
}

/// Whether an operation with a destination may not use the program counter as
/// it does.
pub open spec fn uses_pc(inst: DecodedThumb32) -> bool {
    inst.rd() == Reg::R15 || inst.rn() == Reg::R15
}

/// Whether an operation with flags has the program counter as destination;
/// such encodings are comparisons.
pub open spec fn is_comparison(inst: DecodedThumb32) -> bool {
    inst.rd() == Reg::R15 && inst.s_flag()
}

/// A logical operation of a register and an immediate.
pub open spec fn logical_imm_ir(
    s: EmitterState,
    inst: DecodedThumb32,
    operation: Opcode,
    imm: u32,
) -> (EmitterState, bool) {
    if uses_pc(inst) {
        unpredictable_ir(s)
    } else {
        let (s, c) = s.op0(Opcode::A32GetCFlag);
        let (s, n) = s.get_register(inst.rn());
        let (s, result) = s.op2(operation, n, Value::ImmU32(imm));
        write_logical_ir(s, inst, result, imm_carry(inst, c))
    }
}

/// A logical test of a register and an immediate, which sets the flags only.
pub open spec fn test_imm_ir(s: EmitterState, inst: DecodedThumb32, operation: Opcode) -> (
    EmitterState,
    bool,
) {
    if inst.rn() == Reg::R15 {
        unpredictable_ir(s)
    } else {
        let (s, c) = s.op0(Opcode::A32GetCFlag);
        let (s, n) = s.get_register(inst.rn());
        let (s, result) = s.op2(operation, n, Value::ImmU32(imm_of(inst)));
        (set_nzc_ir(s, result, imm_carry(inst, c)), true)
    }
}

/// A move of an immediate.
pub open spec fn move_imm_ir(s: EmitterState, inst: DecodedThumb32, imm: u32) -> (
    EmitterState,
    bool,
) {
    if inst.rd() == Reg::R15 {
        unpredictable_ir(s)
    } else {
        let (s, c) = s.op0(Opcode::A32GetCFlag);
        write_logical_ir(s, inst, Value::ImmU32(imm), imm_carry(inst, c))
    }
}

/// A sum (`Add32`) or difference (`Sub32`) of a register and an immediate.
pub open spec fn arithmetic_imm_ir(s: EmitterState, inst: DecodedThumb32, operation: Opcode) -> (
    EmitterState,
    bool,
) {
    if uses_pc(inst) {
        unpredictable_ir(s)
    } else {
        let (s, n) = s.get_register(inst.rn());
        let (s, result) = s.op3(
            operation,
            n,
            Value::ImmU32(imm_of(inst)),
            Value::ImmU1(operation == Opcode::Sub32),
        );
        write_arithmetic_ir(s, inst, result)
    }
}

/// A sum or difference of a register, an immediate and the carry flag.
pub open spec fn carry_imm_ir(s: EmitterState, inst: DecodedThumb32, operation: Opcode) -> (
    EmitterState,
    bool,
) {
    if uses_pc(inst) {
        unpredictable_ir(s)
    } else {
        let (s, n) = s.get_register(inst.rn());
        let (s, c) = s.op0(Opcode::A32GetCFlag);
        let (s, result) = s.op3(operation, n, Value::ImmU32(imm_of(inst)), c);
        write_arithmetic_ir(s, inst, result)
    }
}

/// A comparison of a register and an immediate by a sum or difference.
pub open spec fn compare_imm_ir(s: EmitterState, inst: DecodedThumb32, operation: Opcode) -> (
    EmitterState,
    bool,
) {
    if inst.rn() == Reg::R15 {
        unpredictable_ir(s)
    } else {
        let (s, n) = s.get_register(inst.rn());
        let (s, result) = s.op3(
            operation,
            n,
            Value::ImmU32(imm_of(inst)),
            Value::ImmU1(operation == Opcode::Sub32),
        );
        (set_nzcv_ir(s, result), true)
    }
}

/// Translates a test of common bits with an immediate.
pub fn thumb32_tst_imm(ir: &mut A32IREmitter, inst: &DecodedThumb32) -> (r: bool)
    ensures
        (final(ir)@, r) == test_imm_ir(old(ir)@, *inst, Opcode::And32),
{
    let n = inst.rn();
    if n == Reg::R15 {
        return unpredictable_instruction(ir);
    }
    let carry_in = ir.get_c_flag();
    let imm_carry = thumb_expand_imm_c(inst.thumb_expand_imm_bits(), carry_in);
    let reg_n = ir.get_register(n);
    let result = ir.and_32(reg_n, Value::ImmU32(imm_carry.imm32));
    let nz = ir.get_nz_from_op(result);
    ir.set_cpsr_nzc(nz, imm_carry.carry);
    true
}

/// Translates a test of equality with an immediate.
pub fn thumb32_teq_imm(ir: &mut A32IREmitter, inst: &DecodedThumb32) -> (r: bool)
    ensures
        (final(ir)@, r) == test_imm_ir(old(ir)@, *inst, Opcode::Eor32),
{
    let n = inst.rn();
    if n == Reg::R15 {
        return unpredictable_instruction(ir);
    }
    let carry_in = ir.get_c_flag();
    let imm_carry = thumb_expand_imm_c(inst.thumb_expand_imm_bits(), carry_in);
    let reg_n = ir.get_register(n);
    let result = ir.eor_32(reg_n, Value::ImmU32(imm_carry.imm32));
    let nz = ir.get_nz_from_op(result);
    ir.set_cpsr_nzc(nz, imm_carry.carry);
    true
}

/// Translates a bitwise and with an immediate.
pub fn thumb32_and_imm(ir: &mut A32IREmitter, inst: &DecodedThumb32) -> (r: bool)
    requires
        !is_comparison(*inst),
    ensures
        (final(ir)@, r) == logical_imm_ir(old(ir)@, *inst, Opcode::And32, imm_of(*inst)),
{
    let n = inst.rn();
    let d = inst.rd();
    if d == Reg::R15 || n == Reg::R15 {
        return unpredictable_instruction(ir);
    }
    let carry_in = ir.get_c_flag();
    let imm_carry = thumb_expand_imm_c(inst.thumb_expand_imm_bits(), carry_in);
    let reg_n = ir.get_register(n);
    let result = ir.and_32(reg_n, Value::ImmU32(imm_carry.imm32));
    ir.set_register(d, result);
    if inst.s_flag() {
        let nz = ir.get_nz_from_op(result);
        ir.set_cpsr_nzc(nz, imm_carry.carry);
    }
    true
}

/// Translates a clearing of bits with an immediate.
pub fn thumb32_bic_imm(ir: &mut A32IREmitter, inst: &DecodedThumb32) -> (r: bool)
    ensures
        (final(ir)@, r) == logical_imm_ir(old(ir)@, *inst, Opcode::AndNot32, imm_of(*inst)),
{
    let n = inst.rn();
    let d = inst.rd();
    if d == Reg::R15 || n == Reg::R15 {
        return unpredictable_instruction(ir);
    }
    let carry_in = ir.get_c_flag();
    let imm_carry = thumb_expand_imm_c(inst.thumb_expand_imm_bits(), carry_in);
    let reg_n = ir.get_register(n);
    let result = ir.and_not_32(reg_n, Value::ImmU32(imm_carry.imm32));
    ir.set_register(d, result);
    if inst.s_flag() {
        let nz = ir.get_nz_from_op(result);
        ir.set_cpsr_nzc(nz, imm_carry.carry);
    }
    true
}

/// Translates a bitwise or with an immediate.
pub fn thumb32_orr_imm(ir: &mut A32IREmitter, inst: &DecodedThumb32) -> (r: bool)
    requires
        inst.rn() != Reg::R15,
    ensures
        (final(ir)@, r) == logical_imm_ir(old(ir)@, *inst, Opcode::Or32, imm_of(*inst)),
{
    let n = inst.rn();
    let d = inst.rd();
    if d == Reg::R15 {
        return unpredictable_instruction(ir);
    }
    let carry_in = ir.get_c_flag();
    let imm_carry = thumb_expand_imm_c(inst.thumb_expand_imm_bits(), carry_in);
    let reg_n = ir.get_register(n);
    let result = ir.or_32(reg_n, Value::ImmU32(imm_carry.imm32));
    ir.set_register(d, result);
    if inst.s_flag() {
        let nz = ir.get_nz_from_op(result);
        ir.set_cpsr_nzc(nz, imm_carry.carry);
    }
    true
}

/// Translates a bitwise or with a complement with an immediate.
pub fn thumb32_orn_imm(ir: &mut A32IREmitter, inst: &DecodedThumb32) -> (r: bool)
    requires
        inst.rn() != Reg::R15,
    ensures
        (final(ir)@, r) == logical_imm_ir(old(ir)@, *inst, Opcode::Or32, !imm_of(*inst)),
{
    let n = inst.rn();
    let d = inst.rd();
    if d == Reg::R15 {
        return unpredictable_instruction(ir);
    }
    let carry_in = ir.get_c_flag();
    let imm_carry = thumb_expand_imm_c(inst.thumb_expand_imm_bits(), carry_in);
    let reg_n = ir.get_register(n);
    let result = ir.or_32(reg_n, Value::ImmU32(!imm_carry.imm32));
    ir.set_register(d, result);
    if inst.s_flag() {
        let nz = ir.get_nz_from_op(result);
        ir.set_cpsr_nzc(nz, imm_carry.carry);
    }
    true
}

/// Translates a bitwise exclusive or with an immediate.
pub fn thumb32_eor_imm(ir: &mut A32IREmitter, inst: &DecodedThumb32) -> (r: bool)
    requires
        !is_comparison(*inst),
    ensures
        (final(ir)@, r) == logical_imm_ir(old(ir)@, *inst, Opcode::Eor32, imm_of(*inst)),
{
    let n = inst.rn();
    let d = inst.rd();
    if d == Reg::R15 || n == Reg::R15 {
        return unpredictable_instruction(ir);
    }
    let carry_in = ir.get_c_flag();
    let imm_carry = thumb_expand_imm_c(inst.thumb_expand_imm_bits(), carry_in);
    let reg_n = ir.get_register(n);
    let result = ir.eor_32(reg_n, Value::ImmU32(imm_carry.imm32));
    ir.set_register(d, result);
    if inst.s_flag() {
        let nz = ir.get_nz_from_op(result);
        ir.set_cpsr_nzc(nz, imm_carry.carry);
    }
    true
}

/// Translates a move of an immediate.
pub fn thumb32_mov_imm(ir: &mut A32IREmitter, inst: &DecodedThumb32) -> (r: bool)
    ensures
        (final(ir)@, r) == move_imm_ir(old(ir)@, *inst, imm_of(*inst)),
{
    let d = inst.rd();
    if d == Reg::R15 {
        return unpredictable_instruction(ir);
    }
    let carry_in = ir.get_c_flag();
    let imm_carry = thumb_expand_imm_c(inst.thumb_expand_imm_bits(), carry_in);
    let result = Value::ImmU32(imm_carry.imm32);
    ir.set_register(d, result);
    if inst.s_flag() {
        let nz = ir.get_nz_from_op(result);
        ir.set_cpsr_nzc(nz, imm_carry.carry);
    }
    true
}

/// Translates a move of the complement of an immediate.
pub fn thumb32_mvn_imm(ir: &mut A32IREmitter, inst: &DecodedThumb32) -> (r: bool)
    ensures
        (final(ir)@, r) == move_imm_ir(old(ir)@, *inst, !imm_of(*inst)),
{
    let d = inst.rd();
    if d == Reg::R15 {
        return unpredictable_instruction(ir);
    }
    let carry_in = ir.get_c_flag();
    let imm_carry = thumb_expand_imm_c(inst.thumb_expand_imm_bits(), carry_in);
    let result = Value::ImmU32(!imm_carry.imm32);
    ir.set_register(d, result);
    if inst.s_flag() {
        let nz = ir.get_nz_from_op(result);
        ir.set_cpsr_nzc(nz, imm_carry.carry);
    }
    true
}

/// Translates a comparison with the negative of an immediate.
pub fn thumb32_cmn_imm(ir: &mut A32IREmitter, inst: &DecodedThumb32) -> (r: bool)
    ensures
        (final(ir)@, r) == compare_imm_ir(old(ir)@, *inst, Opcode::Add32),
{
    let n = inst.rn();
    if n == Reg::R15 {
        return unpredictable_instruction(ir);
    }
    let imm32: u32 = thumb_expand_imm(inst.thumb_expand_imm_bits());
    let reg_n = ir.get_register(n);
    let result = ir.add_32(reg_n, Value::ImmU32(imm32), Value::ImmU1(false));
    let nzcv = ir.get_nzcv_from_op(result);
    ir.set_cpsr_nzcv(nzcv);
    true
}

/// Translates a comparison with an immediate.
pub fn thumb32_cmp_imm(ir: &mut A32IREmitter, inst: &DecodedThumb32) -> (r: bool)
    ensures
        (final(ir)@, r) == compare_imm_ir(old(ir)@, *inst, Opcode::Sub32),
{
    let n = inst.rn();
    if n == Reg::R15 {
        return unpredictable_instruction(ir);
    }
    let imm32: u32 = thumb_expand_imm(inst.thumb_expand_imm_bits());
    let reg_n = ir.get_register(n);
    let result = ir.sub_32(reg_n, Value::ImmU32(imm32), Value::ImmU1(true));
    let nzcv = ir.get_nzcv_from_op(result);
    ir.set_cpsr_nzcv(nzcv);
    true
}

/// Translates a sum with an immediate.
pub fn thumb32_add_imm_1(ir: &mut A32IREmitter, inst: &DecodedThumb32) -> (r: bool)
    requires
        !is_comparison(*inst),
    ensures
        (final(ir)@, r) == arithmetic_imm_ir(old(ir)@, *inst, Opcode::Add32),
{
    let n = inst.rn();
    let d = inst.rd();
    if d == Reg::R15 || n == Reg::R15 {
        return unpredictable_instruction(ir);
    }
    let imm32: u32 = thumb_expand_imm(inst.thumb_expand_imm_bits());
    let reg_n = ir.get_register(n);
    let result = ir.add_32(reg_n, Value::ImmU32(imm32), Value::ImmU1(false));
    ir.set_register(d, result);
    if inst.s_flag() {
        let nzcv = ir.get_nzcv_from_op(result);
        ir.set_cpsr_nzcv(nzcv);
    }
    true
}

/// Translates a difference with an immediate.
pub fn thumb32_sub_imm_1(ir: &mut A32IREmitter, inst: &DecodedThumb32) -> (r: bool)
    requires
        !is_comparison(*inst),
    ensures
        (final(ir)@, r) == arithmetic_imm_ir(old(ir)@, *inst, Opcode::Sub32),
{
    let n = inst.rn();
    let d = inst.rd();
    if d == Reg::R15 || n == Reg::R15 {
        return unpredictable_instruction(ir);
    }
    let imm32: u32 = thumb_expand_imm(inst.thumb_expand_imm_bits());
    let reg_n = ir.get_register(n);
    let result = ir.sub_32(reg_n, Value::ImmU32(imm32), Value::ImmU1(true));
    ir.set_register(d, result);
    if inst.s_flag() {
        let nzcv = ir.get_nzcv_from_op(result);
        ir.set_cpsr_nzcv(nzcv);
    }
    true
}

/// Translates a sum with carry and an immediate.
pub fn thumb32_adc_imm(ir: &mut A32IREmitter, inst: &DecodedThumb32) -> (r: bool)
    ensures
        (final(ir)@, r) == carry_imm_ir(old(ir)@, *inst, Opcode::Add32),
{
    let n = inst.rn();
    let d = inst.rd();
    if d == Reg::R15 || n == Reg::R15 {
        return unpredictable_instruction(ir);
    }
    let imm32: u32 = thumb_expand_imm(inst.thumb_expand_imm_bits());
    let reg_n = ir.get_register(n);
    let carry = ir.get_c_flag();
    let result = ir.add_32(reg_n, Value::ImmU32(imm32), carry);
    ir.set_register(d, result);
    if inst.s_flag() {
        let nzcv = ir.get_nzcv_from_op(result);
        ir.set_cpsr_nzcv(nzcv);
    }
    true
}

/// Translates a difference with carry and an immediate.
pub fn thumb32_sbc_imm(ir: &mut A32IREmitter, inst: &DecodedThumb32) -> (r: bool)
    ensures
        (final(ir)@, r) == carry_imm_ir(old(ir)@, *inst, Opcode::Sub32),
{
    let n = inst.rn();
    let d = inst.rd();
    if d == Reg::R15 || n == Reg::R15 {
        return unpredictable_instruction(ir);
    }
    let imm32: u32 = thumb_expand_imm(inst.thumb_expand_imm_bits());
    let reg_n = ir.get_register(n);
    let carry = ir.get_c_flag();
    let result = ir.sub_32(reg_n, Value::ImmU32(imm32), carry);
    ir.set_register(d, result);
    if inst.s_flag() {
        let nzcv = ir.get_nzcv_from_op(result);
        ir.set_cpsr_nzcv(nzcv);
    }
    true
}

/// An immediate minus a register.
pub open spec fn thumb32_rsb_imm_ir(s: EmitterState, inst: DecodedThumb32) -> (EmitterState, bool) {
    if uses_pc(inst) {
        unpredictable_ir(s)
    } else {
        let (s, n) = s.get_register(inst.rn());
        let (s, result) = s.op3(
            Opcode::Sub32,
            Value::ImmU32(imm_of(inst)),
            n,
            Value::ImmU1(true),
        );
        write_arithmetic_ir(s, inst, result)
    }
}

/// Translates an immediate minus a register.
pub fn thumb32_rsb_imm(ir: &mut A32IREmitter, inst: &DecodedThumb32) -> (r: bool)
    ensures
        (final(ir)@, r) == thumb32_rsb_imm_ir(old(ir)@, *inst),
{
    let n = inst.rn();
    let d = inst.rd();
    if d == Reg::R15 || n == Reg::R15 {
        return unpredictable_instruction(ir);
    }
    let imm32: u32 = thumb_expand_imm(inst.thumb_expand_imm_bits());
    let reg_n = ir.get_register(n);
    let result = ir.sub_32(Value::ImmU32(imm32), reg_n, Value::ImmU1(true));
    ir.set_register(d, result);
    if inst.s_flag() {
        let nzcv = ir.get_nzcv_from_op(result);
        ir.set_cpsr_nzcv(nzcv);
    }
    true
}

} // verus!
