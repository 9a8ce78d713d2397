//! Shifts by a register and extensions of 32-bit Thumb code.

use vstd::prelude::*;
use super::helpers::{emit_reg_shift, reg_shift_ir, rotate, rotate_ir};
use super::thumb32_data_processing_modified_immediate::set_nzc_ir;
use super::{unpredictable_instruction, unpredictable_ir};
use crate::frontend::a32::decoder_thumb32::DecodedThumb32;
use crate::frontend::a32::types::{Reg, ShiftType};
use crate::ir::a32_emitter::{A32IREmitter, EmitterState};
use crate::ir::opcode::Opcode;
use crate::ir::value::Value;

verus! {

broadcast use crate::bits::and_le_mask;

/// A shift of a register by the low byte of another.
pub open spec fn shift_instruction_ir(s: EmitterState, inst: DecodedThumb32, shift: ShiftType) -> (
    EmitterState,
    bool,
) {
    if inst.rd() == Reg::R15 || inst.rn() == Reg::R15 || inst.rm() == Reg::R15 {
        unpredictable_ir(s)
    } else {
        let (s, by) = s.get_register(inst.rm());
        let (s, amount) = s.op1(Opcode::LeastSignificantByte, by);
        let (s, c) = s.op0(Opcode::A32GetCFlag);
        let (s, m) = s.get_register(inst.rn());
        let (s, (result, carry)) = reg_shift_ir(s, m, shift, amount, c);
        let s = if inst.s_flag() { set_nzc_ir(s, result, carry) } else { s };
        (s.set_register(inst.rd(), result), true)
    }
}

/// Translates a shift by a register.
fn shift_instruction(
    ir: &mut A32IREmitter,
    inst: &DecodedThumb32,
    shift_type: ShiftType,
) -> (r: bool)
    ensures
        (final(ir)@, r) == shift_instruction_ir(old(ir)@, *inst, shift_type),
{
    let m = inst.rn();
    let d = inst.rd();
    let s = inst.rm();
    if d == Reg::R15 || m == Reg::R15 || s == Reg::R15 {
        return unpredictable_instruction(ir);
    }
    let reg_s = ir.get_register(s);
    let shift_s = ir.least_significant_byte(reg_s);
    let apsr_c = ir.get_c_flag();
    let reg_m = ir.get_register(m);
    let (result, carry) = emit_reg_shift(ir, reg_m, shift_type, shift_s, apsr_c);
    if inst.s_flag() {
        let nz = ir.get_nz_from_op(result);
        ir.set_cpsr_nzc(nz, carry);
    }
    ir.set_register(d, result);
    true
}

/// Translates an arithmetic right shift by a register.
pub fn thumb32_asr_reg(ir: &mut A32IREmitter, inst: &DecodedThumb32) -> (r: bool)
    ensures
        (final(ir)@, r) == shift_instruction_ir(old(ir)@, *inst, ShiftType::ASR),
{
    shift_instruction(ir, inst, ShiftType::ASR)
}

/// Translates a left shift by a register.
pub fn thumb32_lsl_reg(ir: &mut A32IREmitter, inst: &DecodedThumb32) -> (r: bool)
    ensures
        (final(ir)@, r) == shift_instruction_ir(old(ir)@, *inst, ShiftType::LSL),
{
    shift_instruction(ir, inst, ShiftType::LSL)
}

/// Translates a logical right shift by a register.
pub fn thumb32_lsr_reg(ir: &mut A32IREmitter, inst: &DecodedThumb32) -> (r: bool)
    ensures
        (final(ir)@, r) == shift_instruction_ir(old(ir)@, *inst, ShiftType::LSR),
{
    shift_instruction(ir, inst, ShiftType::LSR)
}

/// Translates a rotation by a register.
pub fn thumb32_ror_reg(ir: &mut A32IREmitter, inst: &DecodedThumb32) -> (r: bool)
    ensures
        (final(ir)@, r) == shift_instruction_ir(old(ir)@, *inst, ShiftType::ROR),
{
    shift_instruction(ir, inst, ShiftType::ROR)
}

/// The number of bytes by which the operand of an extension is turned.
pub open spec fn rotation_of(inst: DecodedThumb32) -> u32 {
    (inst.raw >> 4) & 3
}

fn rotation(inst: &DecodedThumb32) -> (r: u32)
    ensures
        r == rotation_of(*inst),
        r <= 3,
{
    (inst.raw >> 4) & 3
}

/// The low part of a turned register, taken by `part` and widened by
/// `extend`.
pub open spec fn extended_ir(s: EmitterState, value: Value, part: Opcode, extend: Opcode) -> (
    EmitterState,
    Value,
) {
    let (s, low) = s.op1(part, value);
    s.op1(extend, low)
}

/// Whether an extension uses the program counter as destination or operand.
pub open spec fn extends_pc(inst: DecodedThumb32) -> bool {
    inst.rd() == Reg::R15 || inst.rm() == Reg::R15
}

/// An extension of a byte or halfword.
pub open spec fn extend_ir(s: EmitterState, inst: DecodedThumb32, part: Opcode, extend: Opcode) -> (
    EmitterState,
    bool,
) {
    if extends_pc(inst) {
        unpredictable_ir(s)
    } else {
        let (s, rotated) = rotate_ir(s, inst.rm(), rotation_of(inst));
        let (s, result) = extended_ir(s, rotated, part, extend);
        (s.set_register(inst.rd(), result), true)
    }
}

/// An extension of a byte or halfword added to a register.
pub open spec fn extend_add_ir(
    s: EmitterState,
    inst: DecodedThumb32,
    part: Opcode,
    extend: Opcode,
) -> (EmitterState, bool) {
    if extends_pc(inst) {
        unpredictable_ir(s)
    } else {
        let (s, rotated) = rotate_ir(s, inst.rm(), rotation_of(inst));
        let (s, n) = s.get_register(inst.rn());
        let (s, extended) = extended_ir(s, rotated, part, extend);
        let (s, result) = s.op3(Opcode::Add32, n, extended, Value::ImmU1(false));
        (s.set_register(inst.rd(), result), true)
    }
}

/// The low bytes of the two halves of a word, each sign-extended to a
/// halfword: the sign bits are spread by a multiplication.
pub open spec fn signed_bytes_ir(s: EmitterState, value: Value) -> (EmitterState, Value) {
    let (s, bytes) = s.op2(Opcode::And32, value, Value::ImmU32(0x00FF_00FF));
    let (s, signs) = s.op2(Opcode::And32, value, Value::ImmU32(0x0080_0080));
    let (s, extension) = s.op2(Opcode::Mul32, signs, Value::ImmU32(0x1FE));
    s.op2(Opcode::Or32, bytes, extension)
}

/// Translates a sign extension of a byte.
pub fn thumb32_sxtb(ir: &mut A32IREmitter, inst: &DecodedThumb32) -> (r: bool)
    ensures
        (final(ir)@, r) == extend_ir(
            old(ir)@,
            *inst,
            Opcode::LeastSignificantByte,
            Opcode::SignExtendByteToWord,
        ),
{
    let d = inst.rd();
    let m = inst.rm();
    if d == Reg::R15 || m == Reg::R15 {
        return unpredictable_instruction(ir);
    }
    let rotated = rotate(ir, m, rotation(inst));
    let part = ir.least_significant_byte(rotated);
    let result = ir.sign_extend_byte_to_word(part);
    ir.set_register(d, result);
    true
}

/// Translates a sign extension of a byte with addition.
pub fn thumb32_sxtab(ir: &mut A32IREmitter, inst: &DecodedThumb32) -> (r: bool)
    ensures
        (final(ir)@, r) == extend_add_ir(
            old(ir)@,
            *inst,
            Opcode::LeastSignificantByte,
            Opcode::SignExtendByteToWord,
        ),
{
    let d = inst.rd();
    let m = inst.rm();
    if d == Reg::R15 || m == Reg::R15 {
        return unpredictable_instruction(ir);
    }
    let rotated = rotate(ir, m, rotation(inst));
    let reg_n = ir.get_register(inst.rn());
    let part = ir.least_significant_byte(rotated);
    let extended = ir.sign_extend_byte_to_word(part);
    let result = ir.add_32(reg_n, extended, Value::ImmU1(false));
    ir.set_register(d, result);
    true
}

/// Translates a sign extension of a halfword.
pub fn thumb32_sxth(ir: &mut A32IREmitter, inst: &DecodedThumb32) -> (r: bool)
    ensures
        (final(ir)@, r) == extend_ir(
            old(ir)@,
            *inst,
            Opcode::LeastSignificantHalf,
            Opcode::SignExtendHalfToWord,
        ),
{
    let d = inst.rd();
    let m = inst.rm();
    if d == Reg::R15 || m == Reg::R15 {
        return unpredictable_instruction(ir);
    }
    let rotated = rotate(ir, m, rotation(inst));
    let part = ir.least_significant_half(rotated);
    let result = ir.sign_extend_half_to_word(part);
    ir.set_register(d, result);
    true
}

/// Translates a sign extension of a halfword with addition.
pub fn thumb32_sxtah(ir: &mut A32IREmitter, inst: &DecodedThumb32) -> (r: bool)
    ensures
        (final(ir)@, r) == extend_add_ir(
            old(ir)@,
            *inst,
            Opcode::LeastSignificantHalf,
            Opcode::SignExtendHalfToWord,
        ),
{
    let d = inst.rd();
    let m = inst.rm();
    if d == Reg::R15 || m == Reg::R15 {
        return unpredictable_instruction(ir);
    }
    let rotated = rotate(ir, m, rotation(inst));
    let reg_n = ir.get_register(inst.rn());
    let part = ir.least_significant_half(rotated);
    let extended = ir.sign_extend_half_to_word(part);
    let result = ir.add_32(reg_n, extended, Value::ImmU1(false));
    ir.set_register(d, result);
    true
}

/// Translates a zero extension of a byte.
pub fn thumb32_uxtb(ir: &mut A32IREmitter, inst: &DecodedThumb32) -> (r: bool)
    ensures
        (final(ir)@, r) == extend_ir(
            old(ir)@,
            *inst,
            Opcode::LeastSignificantByte,
            Opcode::ZeroExtendByteToWord,
        ),
{
    let d = inst.rd();
    let m = inst.rm();
    if d == Reg::R15 || m == Reg::R15 {
        return unpredictable_instruction(ir);
    }
    let rotated = rotate(ir, m, rotation(inst));
    let part = ir.least_significant_byte(rotated);
    let result = ir.zero_extend_byte_to_word(part);
    ir.set_register(d, result);
    true
}

/// Translates a zero extension of a byte with addition.
pub fn thumb32_uxtab(ir: &mut A32IREmitter, inst: &DecodedThumb32) -> (r: bool)
    ensures
        (final(ir)@, r) == extend_add_ir(
            old(ir)@,
            *inst,
            Opcode::LeastSignificantByte,
            Opcode::ZeroExtendByteToWord,
        ),
{
    let d = inst.rd();
    let m = inst.rm();
    if d == Reg::R15 || m == Reg::R15 {
        return unpredictable_instruction(ir);
    }
    let rotated = rotate(ir, m, rotation(inst));
    let reg_n = ir.get_register(inst.rn());
    let part = ir.least_significant_byte(rotated);
    let extended = ir.zero_extend_byte_to_word(part);
    let result = ir.add_32(reg_n, extended, Value::ImmU1(false));
    ir.set_register(d, result);
    true
}

/// Translates a zero extension of a halfword.
pub fn thumb32_uxth(ir: &mut A32IREmitter, inst: &DecodedThumb32) -> (r: bool)
    ensures
        (final(ir)@, r) == extend_ir(
            old(ir)@,
            *inst,
            Opcode::LeastSignificantHalf,
            Opcode::ZeroExtendHalfToWord,
        ),
{
    let d = inst.rd();
    let m = inst.rm();
    if d == Reg::R15 || m == Reg::R15 {
        return unpredictable_instruction(ir);
    }
    let rotated = rotate(ir, m, rotation(inst));
    let part = ir.least_significant_half(rotated);
    let result = ir.zero_extend_half_to_word(part);
    ir.set_register(d, result);
    true
}

/// Translates a zero extension of a halfword with addition.
pub fn thumb32_uxtah(ir: &mut A32IREmitter, inst: &DecodedThumb32) -> (r: bool)
    ensures
        (final(ir)@, r) == extend_add_ir(
            old(ir)@,
            *inst,
            Opcode::LeastSignificantHalf,
            Opcode::ZeroExtendHalfToWord,
        ),
{
    let d = inst.rd();
    let m = inst.rm();
    if d == Reg::R15 || m == Reg::R15 {
        return unpredictable_instruction(ir);
    }
    let rotated = rotate(ir, m, rotation(inst));
    let reg_n = ir.get_register(inst.rn());
    let part = ir.least_significant_half(rotated);
    let extended = ir.zero_extend_half_to_word(part);
    let result = ir.add_32(reg_n, extended, Value::ImmU1(false));
    ir.set_register(d, result);
    true
}

/// The sign extension of two bytes to halfwords.
pub open spec fn thumb32_sxtb16_ir(s: EmitterState, inst: DecodedThumb32) -> (EmitterState, bool) {
    if extends_pc(inst) {
        unpredictable_ir(s)
    } else {
        let (s, rotated) = rotate_ir(s, inst.rm(), rotation_of(inst));
        let (s, result) = signed_bytes_ir(s, rotated);
        (s.set_register(inst.rd(), result), true)
    }
}

/// Translates a sign extension of two bytes.
pub fn thumb32_sxtb16(ir: &mut A32IREmitter, inst: &DecodedThumb32) -> (r: bool)
    ensures
        (final(ir)@, r) == thumb32_sxtb16_ir(old(ir)@, *inst),
{
    let d = inst.rd();
    let m = inst.rm();
    if d == Reg::R15 || m == Reg::R15 {
        return unpredictable_instruction(ir);
    }
    let rotated = rotate(ir, m, rotation(inst));
    let low_byte = ir.and_32(rotated, Value::ImmU32(0x00FF_00FF));
    let sign_bit = ir.and_32(rotated, Value::ImmU32(0x0080_0080));
    let sign_extension = ir.mul_32(sign_bit, Value::ImmU32(0x1FE));
    let result = ir.or_32(low_byte, sign_extension);
    ir.set_register(d, result);
    true
}

/// The sign extension of two bytes to halfwords, added to those of a register.
pub open spec fn thumb32_sxtab16_ir(s: EmitterState, inst: DecodedThumb32) -> (EmitterState, bool) {
    if extends_pc(inst) {
        unpredictable_ir(s)
    } else {
        let (s, rotated) = rotate_ir(s, inst.rm(), rotation_of(inst));
        let (s, addend) = signed_bytes_ir(s, rotated);
        let (s, n) = s.get_register(inst.rn());
        let (s, sum) = s.packed_add_u16(addend, n);
        (s.set_register(inst.rd(), sum.result), true)
    }
}

/// Translates a sign extension of two bytes with addition.
pub fn thumb32_sxtab16(ir: &mut A32IREmitter, inst: &DecodedThumb32) -> (r: bool)
    ensures
        (final(ir)@, r) == thumb32_sxtab16_ir(old(ir)@, *inst),
{
    let d = inst.rd();
    let m = inst.rm();
    if d == Reg::R15 || m == Reg::R15 {
        return unpredictable_instruction(ir);
    }
    let rotated = rotate(ir, m, rotation(inst));
    let low_byte = ir.and_32(rotated, Value::ImmU32(0x00FF_00FF));
    let sign_bit = ir.and_32(rotated, Value::ImmU32(0x0080_0080));
    let sign_extension = ir.mul_32(sign_bit, Value::ImmU32(0x1FE));
    let addend = ir.or_32(low_byte, sign_extension);
    let reg_n = ir.get_register(inst.rn());
    let result = ir.packed_add_u16(addend, reg_n).result;
    ir.set_register(d, result);
    true
}

/// The zero extension of two bytes to halfwords.
pub open spec fn thumb32_uxtb16_ir(s: EmitterState, inst: DecodedThumb32) -> (EmitterState, bool) {
    if extends_pc(inst) {
        unpredictable_ir(s)
    } else {
        let (s, rotated) = rotate_ir(s, inst.rm(), rotation_of(inst));
        let (s, result) = s.op2(Opcode::And32, rotated, Value::ImmU32(0x00FF_00FF));
        (s.set_register(inst.rd(), result), true)
    }
}

/// Translates a zero extension of two bytes.
pub fn thumb32_uxtb16(ir: &mut A32IREmitter, inst: &DecodedThumb32) -> (r: bool)
    ensures
        (final(ir)@, r) == thumb32_uxtb16_ir(old(ir)@, *inst),
{
    let d = inst.rd();
    let m = inst.rm();
    if d == Reg::R15 || m == Reg::R15 {
        return unpredictable_instruction(ir);
    }
    let rotated = rotate(ir, m, rotation(inst));
    let result = ir.and_32(rotated, Value::ImmU32(0x00FF_00FF));
    ir.set_register(d, result);
    true
}

/// The zero extension of two bytes to halfwords, added to those of a register.
pub open spec fn thumb32_uxtab16_ir(s: EmitterState, inst: DecodedThumb32) -> (EmitterState, bool) {
    if extends_pc(inst) {
        unpredictable_ir(s)
    } else {
        let (s, rotated) = rotate_ir(s, inst.rm(), rotation_of(inst));
        let (s, bytes) = s.op2(Opcode::And32, rotated, Value::ImmU32(0x00FF_00FF));
        let (s, n) = s.get_register(inst.rn());
        let (s, sum) = s.packed_add_u16(n, bytes);
        (s.set_register(inst.rd(), sum.result), true)
    }
}

/// Translates a zero extension of two bytes with addition.
pub fn thumb32_uxtab16(ir: &mut A32IREmitter, inst: &DecodedThumb32) -> (r: bool)
    ensures
        (final(ir)@, r) == thumb32_uxtab16_ir(old(ir)@, *inst),
{
    let d = inst.rd();
    let m = inst.rm();
    if d == Reg::R15 || m == Reg::R15 {
        return unpredictable_instruction(ir);
    }
    let rotated = rotate(ir, m, rotation(inst));
    let masked = ir.and_32(rotated, Value::ImmU32(0x00FF_00FF));
    let reg_n = ir.get_register(inst.rn());
    let result = ir.packed_add_u16(reg_n, masked).result;
    ir.set_register(d, result);
    true
}

} // verus!
