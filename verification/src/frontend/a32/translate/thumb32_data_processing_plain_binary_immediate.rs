//! Data processing of 32-bit Thumb code with plain immediates, and bit fields.

use vstd::prelude::*;
use super::helpers::{
    emit_imm_shift, imm_shift_ir, most_significant_half, most_significant_half_ir, pack_2x16_ir,
    pack_2x16_to_1x32,
};
use super::{unpredictable_instruction, unpredictable_ir};
use crate::frontend::a32::decoder_thumb32::DecodedThumb32;
use crate::frontend::a32::types::{Reg, ShiftType};
use crate::ir::a32_emitter::{A32IREmitter, EmitterState};
use crate::ir::opcode::Opcode;
use crate::ir::value::{ResultAndOverflow, Value};

verus! {

broadcast use crate::bits::and_le_mask;

/// Whether numbers are saturated with or without a sign.
#[derive(Clone, Copy, Debug, PartialEq, Eq, Structural)]
pub enum SaturationFunction {
    Signed,
    Unsigned,
}

/// A saturation to a number of bits.
pub open spec fn saturate_ir(s: EmitterState, value: Value, bits: u8, kind: SaturationFunction) -> (
    EmitterState,
    ResultAndOverflow,
) {
    match kind {
        SaturationFunction::Signed => s.signed_saturation(value, bits),
        SaturationFunction::Unsigned => s.unsigned_saturation(value, bits),
    }
}

fn apply_saturation(
    ir: &mut A32IREmitter,
    operand: Value,
    saturate_to: u8,
    sat_fn: SaturationFunction,
) -> (r: ResultAndOverflow)
    ensures
        (final(ir)@, r) == saturate_ir(old(ir)@, operand, saturate_to, sat_fn),
{
    match sat_fn {
        SaturationFunction::Signed => ir.signed_saturation(operand, saturate_to),
        SaturationFunction::Unsigned => ir.unsigned_saturation(operand, saturate_to),
    }
}

/// The shift amount of a saturation.
pub open spec fn saturation_shift(inst: DecodedThumb32) -> u32 {
    (((inst.raw >> 12) & 7) * 4 + ((inst.raw >> 6) & 3)) as u32
}

/// Whether the operand of a saturation is shifted right.
pub open spec fn shifts_right(inst: DecodedThumb32) -> bool {
    inst.raw & 0x20_0000 != 0
}

/// A saturation of a register shifted left, or right if bit 21 is set. The
/// program counter may take no part.
pub open spec fn saturation_ir(
    s: EmitterState,
    inst: DecodedThumb32,
    bits: u8,
    kind: SaturationFunction,
) -> (EmitterState, bool) {
    if inst.rd() == Reg::R15 || inst.rn() == Reg::R15 {
        unpredictable_ir(s)
    } else {
        let shift = if shifts_right(inst) { ShiftType::ASR } else { ShiftType::LSL };
        let (s, n) = s.get_register(inst.rn());
        let (s, c) = s.op0(Opcode::A32GetCFlag);
        let (s, (operand, carry)) = imm_shift_ir(s, n, shift, saturation_shift(inst), c);
        let (s, saturated) = saturate_ir(s, operand, bits, kind);
        (
            s.set_register(inst.rd(), saturated.result).op1(
                Opcode::A32OrQFlag,
                saturated.overflow,
            ).0,
            true,
        )
    }
}

fn saturation(
    ir: &mut A32IREmitter,
    inst: &DecodedThumb32,
    saturate_to: u8,
    sat_fn: SaturationFunction,
) -> (r: bool)
    ensures
        (final(ir)@, r) == saturation_ir(old(ir)@, *inst, saturate_to, sat_fn),
{
    let n = inst.rn();
    let d = inst.rd();
    let shift_amount: u32 = ((inst.raw >> 12) & 7) * 4 + ((inst.raw >> 6) & 3);
    if d == Reg::R15 || n == Reg::R15 {
        return unpredictable_instruction(ir);
    }
    let shift = if inst.raw & 0x20_0000 != 0 { ShiftType::ASR } else { ShiftType::LSL };
    let reg_n = ir.get_register(n);
    let carry = ir.get_c_flag();
    let (operand, _carry) = emit_imm_shift(ir, reg_n, shift, shift_amount, carry);
    let result = apply_saturation(ir, operand, saturate_to, sat_fn);
    ir.set_register(d, result.result);
    ir.or_q_flag(result.overflow);
    true
}

/// A saturation of both halves of a register.
pub open spec fn saturation16_ir(
    s: EmitterState,
    inst: DecodedThumb32,
    bits: u8,
    kind: SaturationFunction,
) -> (EmitterState, bool) {
    if inst.rd() == Reg::R15 || inst.rn() == Reg::R15 {
        unpredictable_ir(s)
    } else {
        let (s, n) = s.get_register(inst.rn());
        let (s, lo) = s.op1(Opcode::LeastSignificantHalf, n);
        let (s, lo) = s.op1(Opcode::SignExtendHalfToWord, lo);
        let (s, hi) = most_significant_half_ir(s, n);
        let (s, hi) = s.op1(Opcode::SignExtendHalfToWord, hi);
        let (s, lo) = saturate_ir(s, lo, bits, kind);
        let (s, hi) = saturate_ir(s, hi, bits, kind);
        let (s, result) = pack_2x16_ir(s, lo.result, hi.result);
        let s = s.set_register(inst.rd(), result);
        let s = s.op1(Opcode::A32OrQFlag, lo.overflow).0;
        (s.op1(Opcode::A32OrQFlag, hi.overflow).0, true)
    }
}

fn saturation16(
    ir: &mut A32IREmitter,
    inst: &DecodedThumb32,
    saturate_to: u8,
    sat_fn: SaturationFunction,
) -> (r: bool)
    ensures
        (final(ir)@, r) == saturation16_ir(old(ir)@, *inst, saturate_to, sat_fn),
{
    let n = inst.rn();
    let d = inst.rd();
    if d == Reg::R15 || n == Reg::R15 {
        return unpredictable_instruction(ir);
    }
    let reg_n = ir.get_register(n);
    let lo_half = ir.least_significant_half(reg_n);
    let lo_operand = ir.sign_extend_half_to_word(lo_half);
    let hi_half = most_significant_half(ir, reg_n);
    let hi_operand = ir.sign_extend_half_to_word(hi_half);
    let lo_result = apply_saturation(ir, lo_operand, saturate_to, sat_fn);
    let hi_result = apply_saturation(ir, hi_operand, saturate_to, sat_fn);
    let result = pack_2x16_to_1x32(ir, lo_result.result, hi_result.result);
    ir.set_register(d, result);
    ir.or_q_flag(lo_result.overflow);
    ir.or_q_flag(hi_result.overflow);
    true
}

/// Writing a constant to a register that is not the program counter.
pub open spec fn constant_ir(s: EmitterState, rd: Reg, value: u32) -> (EmitterState, bool) {
    if rd == Reg::R15 {
        unpredictable_ir(s)
    } else {
        (s.set_register(rd, Value::ImmU32(value)), true)
    }
}

/// Translates an address before the instruction.
pub fn thumb32_adr_t2(ir: &mut A32IREmitter, inst: &DecodedThumb32) -> (r: bool)
    ensures
        (final(ir)@, r) == constant_ir(
            old(ir)@,
            inst.rd(),
            (old(ir)@.pc() & 0xFFFF_FFFC).wrapping_sub(inst.imm12()),
        ),
{
    let d = inst.rd();
    if d == Reg::R15 {
        return unpredictable_instruction(ir);
    }
    let result: u32 = ir.align_pc().wrapping_sub(inst.imm12());
    ir.set_register(d, Value::ImmU32(result));
    true
}

/// Translates an address after the instruction.
pub fn thumb32_adr_t3(ir: &mut A32IREmitter, inst: &DecodedThumb32) -> (r: bool)
    ensures
        (final(ir)@, r) == constant_ir(
            old(ir)@,
            inst.rd(),
            (old(ir)@.pc() & 0xFFFF_FFFC).wrapping_add(inst.imm12()),
        ),
{
    let d = inst.rd();
    if d == Reg::R15 {
        return unpredictable_instruction(ir);
    }
    let result: u32 = ir.align_pc().wrapping_add(inst.imm12());
    ir.set_register(d, Value::ImmU32(result));
    true
}

/// A sum (`Add32`) or difference (`Sub32`) of a register and twelve bits.
pub open spec fn plain_arithmetic_ir(s: EmitterState, inst: DecodedThumb32, operation: Opcode) -> (
    EmitterState,
    bool,
) {
    if inst.rd() == Reg::R15 || inst.rn() == Reg::R15 {
        unpredictable_ir(s)
    } else {
        let (s, n) = s.get_register(inst.rn());
        let (s, result) = s.op3(
            operation,
            n,
            Value::ImmU32(inst.imm12()),
            Value::ImmU1(operation == Opcode::Sub32),
        );
        (s.set_register(inst.rd(), result), true)
    }
}

/// Translates a sum with twelve bits.
pub fn thumb32_add_imm_2(ir: &mut A32IREmitter, inst: &DecodedThumb32) -> (r: bool)
    ensures
        (final(ir)@, r) == plain_arithmetic_ir(old(ir)@, *inst, Opcode::Add32),
{
    let n = inst.rn();
    let d = inst.rd();
    if d == Reg::R15 || n == Reg::R15 {
        return unpredictable_instruction(ir);
    }
    let reg_n = ir.get_register(n);
    let result = ir.add_32(reg_n, Value::ImmU32(inst.imm12()), Value::ImmU1(false));
    ir.set_register(d, result);
    true
}

/// Translates a difference with twelve bits.
pub fn thumb32_sub_imm_2(ir: &mut A32IREmitter, inst: &DecodedThumb32) -> (r: bool)
    ensures
        (final(ir)@, r) == plain_arithmetic_ir(old(ir)@, *inst, Opcode::Sub32),
{
    let n = inst.rn();
    let d = inst.rd();
    if d == Reg::R15 || n == Reg::R15 {
        return unpredictable_instruction(ir);
    }
    let reg_n = ir.get_register(n);
    let result = ir.sub_32(reg_n, Value::ImmU32(inst.imm12()), Value::ImmU1(true));
    ir.set_register(d, result);
    true
}

/// The bits from `lsb` to `msb`.
pub open spec fn field_mask(lsb: u32, msb: u32) -> u32 {
    (0xFFFF_FFFFu32 >> ((31 - (msb - lsb)) as u32)) << lsb
}

fn get_field_mask(lsb: u32, msb: u32) -> (r: u32)
    requires
        lsb <= msb < 32,
    ensures
        r == field_mask(lsb, msb),
{
    (0xFFFF_FFFFu32 >> (31 - (msb - lsb))) << lsb
}

/// A bit field mask holds exactly the bits from `lsb` to `msb`.
pub proof fn field_mask_selects_the_field(lsb: u32, msb: u32, i: u32)
    requires
        lsb <= msb < 32,
        i < 32,
    ensures
        crate::bits::bit(field_mask(lsb, msb), i) <==> lsb <= i <= msb,
{
    let k = (31 - (msb - lsb)) as u32;
    assert(((((0xFFFF_FFFFu32 >> k) << lsb) >> i) & 1 == 1) <==> (lsb <= i && i <= msb))
        by (bit_vector)
        requires
            lsb <= msb,
            msb < 32,
            i < 32,
            k == 31 - (msb - lsb),
    ;
}

/// A clearing of a bit field, which may not end before it begins.
pub open spec fn thumb32_bfc_ir(s: EmitterState, inst: DecodedThumb32) -> (EmitterState, bool) {
    let (lsb, msb) = inst.bfc_lsb_msb();
    if inst.rd() == Reg::R15 || msb < lsb {
        unpredictable_ir(s)
    } else {
        let (s, d) = s.get_register(inst.rd());
        let (s, result) = s.op2(Opcode::And32, d, Value::ImmU32(!field_mask(lsb, msb)));
        (s.set_register(inst.rd(), result), true)
    }
}

/// Translates a clearing of a bit field.
pub fn thumb32_bfc(ir: &mut A32IREmitter, inst: &DecodedThumb32) -> (r: bool)
    ensures
        (final(ir)@, r) == thumb32_bfc_ir(old(ir)@, *inst),
{
    let d = inst.rd();
    if d == Reg::R15 {
        return unpredictable_instruction(ir);
    }
    let (lsbit, msbit): (u32, u32) = inst.bfc_lsb_msb();
    if msbit < lsbit {
        return unpredictable_instruction(ir);
    }
    let mask: u32 = !get_field_mask(lsbit, msbit);
    let reg_d = ir.get_register(d);
    let result = ir.and_32(reg_d, Value::ImmU32(mask));
    ir.set_register(d, result);
    true
}

/// An insertion of a bit field, which may not end before it begins.
pub open spec fn thumb32_bfi_ir(s: EmitterState, inst: DecodedThumb32) -> (EmitterState, bool) {
    let (lsb, msb) = inst.bfc_lsb_msb();
    if inst.rd() == Reg::R15 || inst.rn() == Reg::R15 || msb < lsb {
        unpredictable_ir(s)
    } else {
        let mask = field_mask(lsb, msb);
        let (s, d) = s.get_register(inst.rd());
        let (s, kept) = s.op2(Opcode::And32, d, Value::ImmU32(!mask));
        let (s, n) = s.get_register(inst.rn());
        let (s, shifted) = s.op3(
            Opcode::LogicalShiftLeft32,
            n,
            Value::ImmU8(lsb as u8),
            Value::ImmU1(false),
        );
        let (s, inserted) = s.op2(Opcode::And32, shifted, Value::ImmU32(mask));
        let (s, result) = s.op2(Opcode::Or32, kept, inserted);
        (s.set_register(inst.rd(), result), true)
    }
}

/// Translates an insertion of a bit field.
pub fn thumb32_bfi(ir: &mut A32IREmitter, inst: &DecodedThumb32) -> (r: bool)
    ensures
        (final(ir)@, r) == thumb32_bfi_ir(old(ir)@, *inst),
{
    let n = inst.rn();
    let d = inst.rd();
    if d == Reg::R15 || n == Reg::R15 {
        return unpredictable_instruction(ir);
    }
    let (lsbit, msbit): (u32, u32) = inst.bfc_lsb_msb();
    if msbit < lsbit {
        return unpredictable_instruction(ir);
    }
    let inclusion_mask: u32 = get_field_mask(lsbit, msbit);
    let exclusion_mask: u32 = !inclusion_mask;
    let reg_d = ir.get_register(d);
    let operand1 = ir.and_32(reg_d, Value::ImmU32(exclusion_mask));
    let reg_n = ir.get_register(n);
    let shifted = ir.logical_shift_left_32(reg_n, Value::ImmU8(lsbit as u8), Value::ImmU1(false));
    let operand2 = ir.and_32(shifted, Value::ImmU32(inclusion_mask));
    let result = ir.or_32(operand1, operand2);
    ir.set_register(d, result);
    true
}

/// A move of sixteen bits to the upper half of a register.
pub open spec fn thumb32_movt_ir(s: EmitterState, inst: DecodedThumb32) -> (EmitterState, bool) {
    if inst.rd() == Reg::R15 {
        unpredictable_ir(s)
    } else {
        let (s, d) = s.get_register(inst.rd());
        let (s, low) = s.op2(Opcode::And32, d, Value::ImmU32(0x0000_FFFF));
        let (s, result) = s.op2(Opcode::Or32, low, Value::ImmU32(inst.imm16() << 16));
        (s.set_register(inst.rd(), result), true)
    }
}

/// Translates a move to the upper half of a register.
pub fn thumb32_movt(ir: &mut A32IREmitter, inst: &DecodedThumb32) -> (r: bool)
    ensures
        (final(ir)@, r) == thumb32_movt_ir(old(ir)@, *inst),
{
    let d = inst.rd();
    if d == Reg::R15 {
        return unpredictable_instruction(ir);
    }
    let imm16 = Value::ImmU32(inst.imm16() << 16);
    let operand = ir.get_register(d);
    let low_half = ir.and_32(operand, Value::ImmU32(0x0000_FFFF));
    let result = ir.or_32(low_half, imm16);
    ir.set_register(d, result);
    true
}

/// Translates a move of sixteen bits.
pub fn thumb32_movw_imm(ir: &mut A32IREmitter, inst: &DecodedThumb32) -> (r: bool)
    ensures
        (final(ir)@, r) == constant_ir(old(ir)@, inst.rd(), inst.imm16()),
{
    let d = inst.rd();
    if d == Reg::R15 {
        return unpredictable_instruction(ir);
    }
    ir.set_register(d, Value::ImmU32(inst.imm16()));
    true
}

/// Whether a bit field to extract is unpredictable: with the program counter,
/// or beyond the word.
pub open spec fn extraction_unpredictable(inst: DecodedThumb32) -> bool {
    let (lsb, width) = inst.bfx_lsb_width();
    inst.rd() == Reg::R15 || inst.rn() == Reg::R15 || lsb + width > 32
}

/// An extraction of a signed bit field.
pub open spec fn thumb32_sbfx_ir(s: EmitterState, inst: DecodedThumb32) -> (EmitterState, bool) {
    let (lsb, width) = inst.bfx_lsb_width();
    if extraction_unpredictable(inst) {
        unpredictable_ir(s)
    } else {
        let (s, n) = s.get_register(inst.rn());
        let (s, top) = s.op3(
            Opcode::LogicalShiftLeft32,
            n,
            Value::ImmU8((32 - width - lsb) as u8),
            Value::ImmU1(false),
        );
        let (s, result) = s.op3(
            Opcode::ArithmeticShiftRight32,
            top,
            Value::ImmU8((32 - width) as u8),
            Value::ImmU1(false),
        );
        (s.set_register(inst.rd(), result), true)
    }
}

/// Translates an extraction of a signed bit field.
pub fn thumb32_sbfx(ir: &mut A32IREmitter, inst: &DecodedThumb32) -> (r: bool)
    ensures
        (final(ir)@, r) == thumb32_sbfx_ir(old(ir)@, *inst),
{
    let n = inst.rn();
    let d = inst.rd();
    if d == Reg::R15 || n == Reg::R15 {
        return unpredictable_instruction(ir);
    }
    let (lsbit, width): (u32, u32) = inst.bfx_lsb_width();
    if lsbit + width - 1 >= 32 {
        return unpredictable_instruction(ir);
    }
    let left: u8 = (32 - width - lsbit) as u8;
    let right: u8 = (32 - width) as u8;
    let operand = ir.get_register(n);
    let tmp = ir.logical_shift_left_32(operand, Value::ImmU8(left), Value::ImmU1(false));
    let result = ir.arithmetic_shift_right_32(tmp, Value::ImmU8(right), Value::ImmU1(false));
    ir.set_register(d, result);
    true
}

/// An extraction of an unsigned bit field.
pub open spec fn thumb32_ubfx_ir(s: EmitterState, inst: DecodedThumb32) -> (EmitterState, bool) {
    let (lsb, width) = inst.bfx_lsb_width();
    if extraction_unpredictable(inst) {
        unpredictable_ir(s)
    } else {
        let (s, n) = s.get_register(inst.rn());
        let (s, shifted) = s.op3(
            Opcode::LogicalShiftRight32,
            n,
            Value::ImmU8(lsb as u8),
            Value::ImmU1(false),
        );
        let mask = 0xFFFF_FFFFu32 >> ((32 - width) as u32);
        let (s, result) = s.op2(Opcode::And32, shifted, Value::ImmU32(mask));
        (s.set_register(inst.rd(), result), true)
    }
}

/// Translates an extraction of an unsigned bit field.
pub fn thumb32_ubfx(ir: &mut A32IREmitter, inst: &DecodedThumb32) -> (r: bool)
    ensures
        (final(ir)@, r) == thumb32_ubfx_ir(old(ir)@, *inst),
{
    let n = inst.rn();
    let d = inst.rd();
    if d == Reg::R15 || n == Reg::R15 {
        return unpredictable_instruction(ir);
    }
    let (lsbit, width): (u32, u32) = inst.bfx_lsb_width();
    if lsbit + width - 1 >= 32 {
        return unpredictable_instruction(ir);
    }
    let operand = ir.get_register(n);
    let shifted = ir.logical_shift_right_32(
        operand,
        Value::ImmU8(lsbit as u8),
        Value::ImmU1(false),
    );
    let mask = Value::ImmU32(0xFFFF_FFFFu32 >> (32 - width));
    let result = ir.and_32(shifted, mask);
    ir.set_register(d, result);
    true
}

/// Translates a signed saturation.
pub fn thumb32_ssat(ir: &mut A32IREmitter, inst: &DecodedThumb32) -> (r: bool)
    requires
        !(shifts_right(*inst) && saturation_shift(*inst) == 0),
    ensures
        (final(ir)@, r) == saturation_ir(
            old(ir)@,
            *inst,
            ((inst.raw & 0x1F) + 1) as u8,
            SaturationFunction::Signed,
        ),
{
    saturation(ir, inst, ((inst.raw & 0x1F) + 1) as u8, SaturationFunction::Signed)
}

/// Translates an unsigned saturation.
pub fn thumb32_usat(ir: &mut A32IREmitter, inst: &DecodedThumb32) -> (r: bool)
    requires
        !(shifts_right(*inst) && saturation_shift(*inst) == 0),
    ensures
        (final(ir)@, r) == saturation_ir(
            old(ir)@,
            *inst,
            (inst.raw & 0x1F) as u8,
            SaturationFunction::Unsigned,
        ),
{
    saturation(ir, inst, (inst.raw & 0x1F) as u8, SaturationFunction::Unsigned)
}

/// Translates a signed saturation of both halves.
pub fn thumb32_ssat16(ir: &mut A32IREmitter, inst: &DecodedThumb32) -> (r: bool)
    ensures
        (final(ir)@, r) == saturation16_ir(
            old(ir)@,
            *inst,
            ((inst.raw & 0xF) + 1) as u8,
            SaturationFunction::Signed,
        ),
{
    saturation16(ir, inst, ((inst.raw & 0xF) + 1) as u8, SaturationFunction::Signed)
}

/// Translates an unsigned saturation of both halves.
pub fn thumb32_usat16(ir: &mut A32IREmitter, inst: &DecodedThumb32) -> (r: bool)
    ensures
        (final(ir)@, r) == saturation16_ir(
            old(ir)@,
            *inst,
            (inst.raw & 0xF) as u8,
            SaturationFunction::Unsigned,
        ),
{
    saturation16(ir, inst, (inst.raw & 0xF) as u8, SaturationFunction::Unsigned)
}

} // verus!
