//! Multiplications of ARM code.
//!
//! In multiplications bits 19 to 16 name the destination (the high word of a
//! long product), bits 15 to 12 the addend or the low word, and bits 11 to 8
//! and 3 to 0 the factors.

use vstd::prelude::*;
use super::{report_exception, report_ir};
use crate::frontend::a32::decoder::DecodedArm;
use crate::frontend::a32::types::{reg, Exception, Reg};
use crate::ir::a32_emitter::{A32IREmitter, EmitterState};
use crate::ir::opcode::Opcode;
use crate::ir::value::Value;

verus! {

broadcast use crate::bits::and_le_mask;

/// The register in bits 19 to 16.
pub open spec fn field_16(inst: DecodedArm) -> Reg {
    reg((inst.raw >> 16) & 0xF)
}

/// The register in bits 15 to 12.
pub open spec fn field_12(inst: DecodedArm) -> Reg {
    reg((inst.raw >> 12) & 0xF)
}

/// The register in bits 11 to 8.
pub open spec fn field_8(inst: DecodedArm) -> Reg {
    reg((inst.raw >> 8) & 0xF)
}

/// Setting the sign and zero flags from a result, if asked for.
pub open spec fn nz_if_ir(s: EmitterState, set_flags: bool, result: Value) -> EmitterState {
    if set_flags {
        let (s, nz) = s.op1(Opcode::GetNZFromOp, result);
        s.op1(Opcode::A32SetCpsrNZ, nz).0
    } else {
        s
    }
}

/// A product of two registers.
pub open spec fn arm_mul_ir(s: EmitterState, inst: DecodedArm) -> (EmitterState, bool) {
    let (s, m) = s.get_register(inst.rm());
    let (s, r) = s.get_register(field_8(inst));
    let (s, result) = s.op2(Opcode::Mul32, m, r);
    (nz_if_ir(s, inst.s_flag(), result).set_register(field_16(inst), result), true)
}

/// Translates a product.
pub fn arm_mul(ir: &mut A32IREmitter, inst: &DecodedArm) -> (r: bool)
    ensures
        (final(ir)@, r) == arm_mul_ir(old(ir)@, *inst),
{
    let rd = Reg::from_u32((inst.raw >> 16) & 0xF);
    let rm = inst.rm();
    let rs = Reg::from_u32((inst.raw >> 8) & 0xF);
    let rm_val = ir.get_register(rm);
    let rs_val = ir.get_register(rs);
    let result = ir.mul_32(rm_val, rs_val);
    if inst.s_flag() {
        let nz = ir.get_nz_from_op(result);
        ir.set_cpsr_nz(nz);
    }
    ir.set_register(rd, result);
    true
}

/// A product plus a register.
pub open spec fn arm_mla_ir(s: EmitterState, inst: DecodedArm) -> (EmitterState, bool) {
    let (s, m) = s.get_register(inst.rm());
    let (s, r) = s.get_register(field_8(inst));
    let (s, n) = s.get_register(field_12(inst));
    let (s, product) = s.op2(Opcode::Mul32, m, r);
    let (s, result) = s.op3(Opcode::Add32, product, n, Value::ImmU1(false));
    (nz_if_ir(s, inst.s_flag(), result).set_register(field_16(inst), result), true)
}

/// Translates a product plus a register.
pub fn arm_mla(ir: &mut A32IREmitter, inst: &DecodedArm) -> (r: bool)
    ensures
        (final(ir)@, r) == arm_mla_ir(old(ir)@, *inst),
{
    let rd = Reg::from_u32((inst.raw >> 16) & 0xF);
    let rn = Reg::from_u32((inst.raw >> 12) & 0xF);
    let rm = inst.rm();
    let rs = Reg::from_u32((inst.raw >> 8) & 0xF);
    let rm_val = ir.get_register(rm);
    let rs_val = ir.get_register(rs);
    let rn_val = ir.get_register(rn);
    let product = ir.mul_32(rm_val, rs_val);
    let result = ir.add_32(product, rn_val, Value::ImmU1(false));
    if inst.s_flag() {
        let nz = ir.get_nz_from_op(result);
        ir.set_cpsr_nz(nz);
    }
    ir.set_register(rd, result);
    true
}

/// A register minus a product.
pub open spec fn arm_mls_ir(s: EmitterState, inst: DecodedArm) -> (EmitterState, bool) {
    let (s, m) = s.get_register(inst.rm());
    let (s, r) = s.get_register(field_8(inst));
    let (s, n) = s.get_register(field_12(inst));
    let (s, product) = s.op2(Opcode::Mul32, m, r);
    let (s, result) = s.op3(Opcode::Sub32, n, product, Value::ImmU1(true));
    (s.set_register(field_16(inst), result), true)
}

/// Translates a register minus a product.
pub fn arm_mls(ir: &mut A32IREmitter, inst: &DecodedArm) -> (r: bool)
    ensures
        (final(ir)@, r) == arm_mls_ir(old(ir)@, *inst),
{
    let rd = Reg::from_u32((inst.raw >> 16) & 0xF);
    let rn = Reg::from_u32((inst.raw >> 12) & 0xF);
    let rm = inst.rm();
    let rs = Reg::from_u32((inst.raw >> 8) & 0xF);
    let rm_val = ir.get_register(rm);
    let rs_val = ir.get_register(rs);
    let rn_val = ir.get_register(rn);
    let product = ir.mul_32(rm_val, rs_val);
    let result = ir.sub_32(rn_val, product, Value::ImmU1(true));
    ir.set_register(rd, result);
    true
}

/// Writing a double word to the two destination registers.
pub open spec fn split_ir(s: EmitterState, inst: DecodedArm, set_flags: bool, result: Value) -> (
    EmitterState,
    bool,
) {
    let (s, lo) = s.op1(Opcode::LeastSignificantWord, result);
    let (s, hi) = s.most_significant_word(result);
    let s = nz_if_ir(s, set_flags, result);
    (s.set_register(field_12(inst), lo).set_register(field_16(inst), hi.result), true)
}

/// A product of two registers as a double word, signed or unsigned, added to
/// the destination registers if asked for.
pub open spec fn long_multiply_ir(
    s: EmitterState,
    inst: DecodedArm,
    signed: bool,
    accumulate: bool,
) -> (EmitterState, bool) {
    let extend = if signed {
        Opcode::SignExtendWordToLong
    } else {
        Opcode::ZeroExtendWordToLong
    };
    let (s, m) = s.get_register(inst.rm());
    let (s, r) = s.get_register(field_8(inst));
    if accumulate {
        let (s, hi) = s.get_register(field_16(inst));
        let (s, lo) = s.get_register(field_12(inst));
        let (s, m) = s.op1(extend, m);
        let (s, r) = s.op1(extend, r);
        let (s, product) = s.op2(Opcode::Mul64, m, r);
        let (s, addend) = s.op2(Opcode::Pack2x32To1x64, lo, hi);
        let (s, result) = s.op3(Opcode::Add64, product, addend, Value::ImmU1(false));
        split_ir(s, inst, inst.s_flag(), result)
    } else {
        let (s, m) = s.op1(extend, m);
        let (s, r) = s.op1(extend, r);
        let (s, product) = s.op2(Opcode::Mul64, m, r);
        split_ir(s, inst, inst.s_flag(), product)
    }
}

/// Translates an unsigned long product.
pub fn arm_umull(ir: &mut A32IREmitter, inst: &DecodedArm) -> (r: bool)
    ensures
        (final(ir)@, r) == long_multiply_ir(old(ir)@, *inst, false, false),
{
    let rd_hi = Reg::from_u32((inst.raw >> 16) & 0xF);
    let rd_lo = Reg::from_u32((inst.raw >> 12) & 0xF);
    let rm = inst.rm();
    let rs = Reg::from_u32((inst.raw >> 8) & 0xF);
    let rm_val = ir.get_register(rm);
    let rs_val = ir.get_register(rs);
    let rm64 = ir.zero_extend_word_to_long(rm_val);
    let rs64 = ir.zero_extend_word_to_long(rs_val);
    let result = ir.mul_64(rm64, rs64);
    let lo = ir.least_significant_word(result);
    let hi = ir.most_significant_word(result).result;
    if inst.s_flag() {
        let nz = ir.get_nz_from_op(result);
        ir.set_cpsr_nz(nz);
    }
    ir.set_register(rd_lo, lo);
    ir.set_register(rd_hi, hi);
    true
}

/// Translates an unsigned long product with accumulation.
pub fn arm_umlal(ir: &mut A32IREmitter, inst: &DecodedArm) -> (r: bool)
    ensures
        (final(ir)@, r) == long_multiply_ir(old(ir)@, *inst, false, true),
{
    let rd_hi = Reg::from_u32((inst.raw >> 16) & 0xF);
    let rd_lo = Reg::from_u32((inst.raw >> 12) & 0xF);
    let rm = inst.rm();
    let rs = Reg::from_u32((inst.raw >> 8) & 0xF);
    let rm_val = ir.get_register(rm);
    let rs_val = ir.get_register(rs);
    let rdhi_val = ir.get_register(rd_hi);
    let rdlo_val = ir.get_register(rd_lo);
    let rm64 = ir.zero_extend_word_to_long(rm_val);
    let rs64 = ir.zero_extend_word_to_long(rs_val);
    let product = ir.mul_64(rm64, rs64);
    let accum = ir.pack_2x32_to_1x64(rdlo_val, rdhi_val);
    let result = ir.add_64(product, accum, Value::ImmU1(false));
    let lo = ir.least_significant_word(result);
    let hi = ir.most_significant_word(result).result;
    if inst.s_flag() {
        let nz = ir.get_nz_from_op(result);
        ir.set_cpsr_nz(nz);
    }
    ir.set_register(rd_lo, lo);
    ir.set_register(rd_hi, hi);
    true
}

/// Translates a signed long product.
pub fn arm_smull(ir: &mut A32IREmitter, inst: &DecodedArm) -> (r: bool)
    ensures
        (final(ir)@, r) == long_multiply_ir(old(ir)@, *inst, true, false),
{
    let rd_hi = Reg::from_u32((inst.raw >> 16) & 0xF);
    let rd_lo = Reg::from_u32((inst.raw >> 12) & 0xF);
    let rm = inst.rm();
    let rs = Reg::from_u32((inst.raw >> 8) & 0xF);
    let rm_val = ir.get_register(rm);
    let rs_val = ir.get_register(rs);
    let rm64 = ir.sign_extend_word_to_long(rm_val);
    let rs64 = ir.sign_extend_word_to_long(rs_val);
    let result = ir.mul_64(rm64, rs64);
    let lo = ir.least_significant_word(result);
    let hi = ir.most_significant_word(result).result;
    if inst.s_flag() {
        let nz = ir.get_nz_from_op(result);
        ir.set_cpsr_nz(nz);
    }
    ir.set_register(rd_lo, lo);
    ir.set_register(rd_hi, hi);
    true
}

/// Translates a signed long product with accumulation.
pub fn arm_smlal(ir: &mut A32IREmitter, inst: &DecodedArm) -> (r: bool)
    ensures
        (final(ir)@, r) == long_multiply_ir(old(ir)@, *inst, true, true),
{
    let rd_hi = Reg::from_u32((inst.raw >> 16) & 0xF);
    let rd_lo = Reg::from_u32((inst.raw >> 12) & 0xF);
    let rm = inst.rm();
    let rs = Reg::from_u32((inst.raw >> 8) & 0xF);
    let rm_val = ir.get_register(rm);
    let rs_val = ir.get_register(rs);
    let rdhi_val = ir.get_register(rd_hi);
    let rdlo_val = ir.get_register(rd_lo);
    let rm64 = ir.sign_extend_word_to_long(rm_val);
    let rs64 = ir.sign_extend_word_to_long(rs_val);
    let product = ir.mul_64(rm64, rs64);
    let accum = ir.pack_2x32_to_1x64(rdlo_val, rdhi_val);
    let result = ir.add_64(product, accum, Value::ImmU1(false));
    let lo = ir.least_significant_word(result);
    let hi = ir.most_significant_word(result).result;
    if inst.s_flag() {
        let nz = ir.get_nz_from_op(result);
        ir.set_cpsr_nz(nz);
    }
    ir.set_register(rd_lo, lo);
    ir.set_register(rd_hi, hi);
    true
}

/// An unsigned long product plus both destination registers as words.
pub open spec fn arm_umaal_ir(s: EmitterState, inst: DecodedArm) -> (EmitterState, bool) {
    let (s, m) = s.get_register(inst.rm());
    let (s, r) = s.get_register(field_8(inst));
    let (s, hi) = s.get_register(field_16(inst));
    let (s, lo) = s.get_register(field_12(inst));
    let (s, m) = s.op1(Opcode::ZeroExtendWordToLong, m);
    let (s, r) = s.op1(Opcode::ZeroExtendWordToLong, r);
    let (s, product) = s.op2(Opcode::Mul64, m, r);
    let (s, hi) = s.op1(Opcode::ZeroExtendWordToLong, hi);
    let (s, lo) = s.op1(Opcode::ZeroExtendWordToLong, lo);
    let (s, sum) = s.op3(Opcode::Add64, product, hi, Value::ImmU1(false));
    let (s, result) = s.op3(Opcode::Add64, sum, lo, Value::ImmU1(false));
    split_ir(s, inst, false, result)
}

/// Translates an unsigned long product plus two words.
pub fn arm_umaal(ir: &mut A32IREmitter, inst: &DecodedArm) -> (r: bool)
    ensures
        (final(ir)@, r) == arm_umaal_ir(old(ir)@, *inst),
{
    let rd_hi = Reg::from_u32((inst.raw >> 16) & 0xF);
    let rd_lo = Reg::from_u32((inst.raw >> 12) & 0xF);
    let rm = inst.rm();
    let rs = Reg::from_u32((inst.raw >> 8) & 0xF);
    let rm_val = ir.get_register(rm);
    let rs_val = ir.get_register(rs);
    let rdhi_val = ir.get_register(rd_hi);
    let rdlo_val = ir.get_register(rd_lo);
    let rm64 = ir.zero_extend_word_to_long(rm_val);
    let rs64 = ir.zero_extend_word_to_long(rs_val);
    let product = ir.mul_64(rm64, rs64);
    let rdhi64 = ir.zero_extend_word_to_long(rdhi_val);
    let rdlo64 = ir.zero_extend_word_to_long(rdlo_val);
    let sum1 = ir.add_64(product, rdhi64, Value::ImmU1(false));
    let result = ir.add_64(sum1, rdlo64, Value::ImmU1(false));
    let lo = ir.least_significant_word(result);
    let hi = ir.most_significant_word(result).result;
    ir.set_register(rd_lo, lo);
    ir.set_register(rd_hi, hi);
    true
}

/// The upper (`top`) or lower half of a register as a signed number.
pub open spec fn signed_half_ir(s: EmitterState, r: Reg, top: bool) -> (EmitterState, Value) {
    let (s, value) = s.get_register(r);
    if top {
        s.op3(Opcode::ArithmeticShiftRight32, value, Value::ImmU8(16), Value::ImmU1(false))
    } else {
        let (s, half) = s.op1(Opcode::LeastSignificantHalf, value);
        s.op1(Opcode::SignExtendHalfToWord, half)
    }
}

fn signed_halfword_operand(ir: &mut A32IREmitter, source: Reg, top: bool) -> (r: Value)
    ensures
        (final(ir)@, r) == signed_half_ir(old(ir)@, source, top),
{
    let value = ir.get_register(source);
    if top {
        ir.arithmetic_shift_right_32(value, Value::ImmU8(16), Value::ImmU1(false))
    } else {
        let half = ir.least_significant_half(value);
        ir.sign_extend_half_to_word(half)
    }
}

/// The product of two signed halves: bit 5 selects the half of the first
/// factor, bit 6 that of the second.
pub open spec fn half_product_ir(s: EmitterState, inst: DecodedArm) -> (EmitterState, Value) {
    let (s, n) = signed_half_ir(s, inst.rm(), (inst.raw >> 5) & 1 != 0);
    let (s, m) = signed_half_ir(s, field_8(inst), (inst.raw >> 6) & 1 != 0);
    s.op2(Opcode::Mul32, n, m)
}

/// A product of halves added to a double word.
pub open spec fn arm_smlalxy_ir(s: EmitterState, inst: DecodedArm) -> (EmitterState, bool) {
    let (s, product) = half_product_ir(s, inst);
    let (s, product) = s.op1(Opcode::SignExtendWordToLong, product);
    let (s, lo) = s.get_register(field_12(inst));
    let (s, hi) = s.get_register(field_16(inst));
    let (s, addend) = s.op2(Opcode::Pack2x32To1x64, lo, hi);
    let (s, result) = s.op3(Opcode::Add64, product, addend, Value::ImmU1(false));
    split_ir(s, inst, false, result)
}

/// Translates a product of halves added to a double word.
pub fn arm_smlalxy(ir: &mut A32IREmitter, inst: &DecodedArm) -> (r: bool)
    ensures
        (final(ir)@, r) == arm_smlalxy_ir(old(ir)@, *inst),
{
    let rd_hi = Reg::from_u32((inst.raw >> 16) & 0xF);
    let rd_lo = Reg::from_u32((inst.raw >> 12) & 0xF);
    let rm = Reg::from_u32((inst.raw >> 8) & 0xF);
    let m: bool = (inst.raw >> 6) & 1 != 0;
    let n: bool = (inst.raw >> 5) & 1 != 0;
    let rn = inst.rm();
    let n16 = signed_halfword_operand(ir, rn, n);
    let m16 = signed_halfword_operand(ir, rm, m);
    let product32 = ir.mul_32(n16, m16);
    let product = ir.sign_extend_word_to_long(product32);
    let rd_lo_val = ir.get_register(rd_lo);
    let rd_hi_val = ir.get_register(rd_hi);
    let addend = ir.pack_2x32_to_1x64(rd_lo_val, rd_hi_val);
    let result = ir.add_64(product, addend, Value::ImmU1(false));
    let lo = ir.least_significant_word(result);
    let hi = ir.most_significant_word(result).result;
    ir.set_register(rd_lo, lo);
    ir.set_register(rd_hi, hi);
    true
}

/// Adding the accumulator to a product: an overflow sets the saturation flag.
pub open spec fn accumulate_q_ir(s: EmitterState, inst: DecodedArm, product: Value) -> (
    EmitterState,
    bool,
) {
    let (s, a) = s.get_register(field_12(inst));
    let (s, result) = s.op3(Opcode::Add32, product, a, Value::ImmU1(false));
    let (s, overflow) = s.op1(Opcode::GetOverflowFromOp, result);
    (s.set_register(field_16(inst), result).op1(Opcode::A32OrQFlag, overflow).0, true)
}

/// A product of halves added to a word.
pub open spec fn arm_smlaxy_ir(s: EmitterState, inst: DecodedArm) -> (EmitterState, bool) {
    let (s, product) = half_product_ir(s, inst);
    accumulate_q_ir(s, inst, product)
}

/// Translates a product of halves added to a word.
pub fn arm_smlaxy(ir: &mut A32IREmitter, inst: &DecodedArm) -> (r: bool)
    ensures
        (final(ir)@, r) == arm_smlaxy_ir(old(ir)@, *inst),
{
    let rd = Reg::from_u32((inst.raw >> 16) & 0xF);
    let ra = Reg::from_u32((inst.raw >> 12) & 0xF);
    let rm = Reg::from_u32((inst.raw >> 8) & 0xF);
    let m: bool = (inst.raw >> 6) & 1 != 0;
    let n: bool = (inst.raw >> 5) & 1 != 0;
    let rn = inst.rm();
    let n16 = signed_halfword_operand(ir, rn, n);
    let m16 = signed_halfword_operand(ir, rm, m);
    let product = ir.mul_32(n16, m16);
    let ra_val = ir.get_register(ra);
    let result = ir.add_32(product, ra_val, Value::ImmU1(false));
    let overflow = ir.get_overflow_from_op(result);
    ir.set_register(rd, result);
    ir.or_q_flag(overflow);
    true
}

/// A product of halves.
pub open spec fn arm_smulxy_ir(s: EmitterState, inst: DecodedArm) -> (EmitterState, bool) {
    let (s, product) = half_product_ir(s, inst);
    (s.set_register(field_16(inst), product), true)
}

/// Translates a product of halves.
pub fn arm_smulxy(ir: &mut A32IREmitter, inst: &DecodedArm) -> (r: bool)
    ensures
        (final(ir)@, r) == arm_smulxy_ir(old(ir)@, *inst),
{
    let rd = Reg::from_u32((inst.raw >> 16) & 0xF);
    let rm = Reg::from_u32((inst.raw >> 8) & 0xF);
    let m: bool = (inst.raw >> 6) & 1 != 0;
    let n: bool = (inst.raw >> 5) & 1 != 0;
    let rn = inst.rm();
    let n16 = signed_halfword_operand(ir, rn, n);
    let m16 = signed_halfword_operand(ir, rm, m);
    let result = ir.mul_32(n16, m16);
    ir.set_register(rd, result);
    true
}

/// The upper 32 of the 48 bits of the product of a word and a signed half;
/// bit 6 selects the half.
pub open spec fn word_half_product_ir(s: EmitterState, inst: DecodedArm) -> (EmitterState, Value) {
    let (s, n) = s.get_register(inst.rm());
    let (s, n) = s.op1(Opcode::SignExtendWordToLong, n);
    let (s, m) = s.get_register(field_8(inst));
    let (s, m) = if (inst.raw >> 6) & 1 != 0 {
        s.op3(Opcode::LogicalShiftRight32, m, Value::ImmU8(16), Value::ImmU1(false))
    } else {
        (s, m)
    };
    let (s, m) = s.op1(Opcode::LeastSignificantHalf, m);
    let (s, m) = s.op1(Opcode::SignExtendHalfToWord, m);
    let (s, m) = s.op1(Opcode::SignExtendWordToLong, m);
    let (s, product) = s.op2(Opcode::Mul64, n, m);
    let (s, upper) = s.op2(Opcode::LogicalShiftRight64, product, Value::ImmU8(16));
    s.op1(Opcode::LeastSignificantWord, upper)
}

fn word_half_product(ir: &mut A32IREmitter, inst: &DecodedArm) -> (r: Value)
    ensures
        (final(ir)@, r) == word_half_product_ir(old(ir)@, *inst),
{
    let rm = Reg::from_u32((inst.raw >> 8) & 0xF);
    let m: bool = (inst.raw >> 6) & 1 != 0;
    let rn = inst.rm();
    let rn_val = ir.get_register(rn);
    let n32 = ir.sign_extend_word_to_long(rn_val);
    let m32 = ir.get_register(rm);
    let m16_src = if m {
        ir.logical_shift_right_32(m32, Value::ImmU8(16), Value::ImmU1(false))
    } else {
        m32
    };
    let m16_half = ir.least_significant_half(m16_src);
    let m16_word = ir.sign_extend_half_to_word(m16_half);
    let m16 = ir.sign_extend_word_to_long(m16_word);
    let product = ir.mul_64(n32, m16);
    let shifted = ir.logical_shift_right_64(product, Value::ImmU8(16));
    ir.least_significant_word(shifted)
}

/// A product of a word and a half added to a word.
pub open spec fn arm_smlawy_ir(s: EmitterState, inst: DecodedArm) -> (EmitterState, bool) {
    let (s, product) = word_half_product_ir(s, inst);
    accumulate_q_ir(s, inst, product)
}

/// Translates a product of a word and a half added to a word.
pub fn arm_smlawy(ir: &mut A32IREmitter, inst: &DecodedArm) -> (r: bool)
    ensures
        (final(ir)@, r) == arm_smlawy_ir(old(ir)@, *inst),
{
    let rd = Reg::from_u32((inst.raw >> 16) & 0xF);
    let ra = Reg::from_u32((inst.raw >> 12) & 0xF);
    let product = word_half_product(ir, inst);
    let ra_val = ir.get_register(ra);
    let result = ir.add_32(product, ra_val, Value::ImmU1(false));
    let overflow = ir.get_overflow_from_op(result);
    ir.set_register(rd, result);
    ir.or_q_flag(overflow);
    true
}

/// A product of a word and a half.
pub open spec fn arm_smulwy_ir(s: EmitterState, inst: DecodedArm) -> (EmitterState, bool) {
    let (s, product) = word_half_product_ir(s, inst);
    (s.set_register(field_16(inst), product), true)
}

/// Translates a product of a word and a half.
pub fn arm_smulwy(ir: &mut A32IREmitter, inst: &DecodedArm) -> (r: bool)
    ensures
        (final(ir)@, r) == arm_smulwy_ir(old(ir)@, *inst),
{
    let rd = Reg::from_u32((inst.raw >> 16) & 0xF);
    let result = word_half_product(ir, inst);
    ir.set_register(rd, result);
    true
}

/// Writing the high word of a double word, rounded up by the bit below it if
/// bit 5 says so.
pub open spec fn high_word_ir(s: EmitterState, inst: DecodedArm, value: Value) -> (
    EmitterState,
    bool,
) {
    let (s, high) = s.most_significant_word(value);
    let (s, result) = if (inst.raw >> 5) & 1 != 0 {
        s.op3(Opcode::Add32, high.result, Value::ImmU32(0), high.carry)
    } else {
        (s, high.result)
    };
    (s.set_register(field_16(inst), result), true)
}

fn write_high_word(ir: &mut A32IREmitter, inst: &DecodedArm, value: Value) -> (r: bool)
    ensures
        (final(ir)@, r) == high_word_ir(old(ir)@, *inst, value),
{
    let rd = Reg::from_u32((inst.raw >> 16) & 0xF);
    let round: bool = (inst.raw >> 5) & 1 != 0;
    let high = ir.most_significant_word(value);
    let result = if round {
        ir.add_32(high.result, Value::ImmU32(0), high.carry)
    } else {
        high.result
    };
    ir.set_register(rd, result);
    true
}

/// The high word of an accumulator in the upper half of a double word plus
/// (`Add64`) or minus (`Sub64`) a signed product.
pub open spec fn high_accumulate_ir(s: EmitterState, inst: DecodedArm, subtract: bool) -> (
    EmitterState,
    bool,
) {
    let (s, n) = s.get_register(inst.rm());
    let (s, m) = s.get_register(field_8(inst));
    let (s, a) = s.get_register(field_12(inst));
    let (s, n) = s.op1(Opcode::SignExtendWordToLong, n);
    let (s, m) = s.op1(Opcode::SignExtendWordToLong, m);
    let (s, a) = s.op2(Opcode::Pack2x32To1x64, Value::ImmU32(0), a);
    let (s, product) = s.op2(Opcode::Mul64, n, m);
    let (s, sum) = if subtract {
        s.op3(Opcode::Sub64, a, product, Value::ImmU1(true))
    } else {
        s.op3(Opcode::Add64, a, product, Value::ImmU1(false))
    };
    high_word_ir(s, inst, sum)
}

/// The high word of a signed product plus an accumulator. The program counter
/// may be neither destination nor factor.
pub open spec fn arm_smmla_ir(s: EmitterState, inst: DecodedArm) -> (EmitterState, bool) {
    if field_16(inst) == Reg::R15 || inst.rm() == Reg::R15 || field_8(inst) == Reg::R15 {
        report_ir(s, Exception::UnpredictableInstruction)
    } else {
        high_accumulate_ir(s, inst, false)
    }
}

/// Translates the high word of a signed product plus an accumulator.
pub fn arm_smmla(ir: &mut A32IREmitter, inst: &DecodedArm) -> (r: bool)
    ensures
        (final(ir)@, r) == arm_smmla_ir(old(ir)@, *inst),
{
    let rd = Reg::from_u32((inst.raw >> 16) & 0xF);
    let ra = Reg::from_u32((inst.raw >> 12) & 0xF);
    let rm = Reg::from_u32((inst.raw >> 8) & 0xF);
    let rn = inst.rm();
    if rd == Reg::R15 || rn == Reg::R15 || rm == Reg::R15 {
        return report_exception(ir, Exception::UnpredictableInstruction);
    }
    let rn32 = ir.get_register(rn);
    let rm32 = ir.get_register(rm);
    let ra32 = ir.get_register(ra);
    let rn64 = ir.sign_extend_word_to_long(rn32);
    let rm64 = ir.sign_extend_word_to_long(rm32);
    let ra64 = ir.pack_2x32_to_1x64(Value::ImmU32(0), ra32);
    let product = ir.mul_64(rn64, rm64);
    let temp = ir.add_64(ra64, product, Value::ImmU1(false));
    write_high_word(ir, inst, temp)
}

/// The high word of an accumulator minus a signed product. The program
/// counter may take no part in it.
pub open spec fn arm_smmls_ir(s: EmitterState, inst: DecodedArm) -> (EmitterState, bool) {
    if field_16(inst) == Reg::R15 || inst.rm() == Reg::R15 || field_8(inst) == Reg::R15 || field_12(
        inst,
    ) == Reg::R15 {
        report_ir(s, Exception::UnpredictableInstruction)
    } else {
        high_accumulate_ir(s, inst, true)
    }
}

/// Translates the high word of an accumulator minus a signed product.
pub fn arm_smmls(ir: &mut A32IREmitter, inst: &DecodedArm) -> (r: bool)
    ensures
        (final(ir)@, r) == arm_smmls_ir(old(ir)@, *inst),
{
    let rd = Reg::from_u32((inst.raw >> 16) & 0xF);
    let ra = Reg::from_u32((inst.raw >> 12) & 0xF);
    let rm = Reg::from_u32((inst.raw >> 8) & 0xF);
    let rn = inst.rm();
    if rd == Reg::R15 || rn == Reg::R15 || rm == Reg::R15 || ra == Reg::R15 {
        return report_exception(ir, Exception::UnpredictableInstruction);
    }
    let rn32 = ir.get_register(rn);
    let rm32 = ir.get_register(rm);
    let ra32 = ir.get_register(ra);
    let rn64 = ir.sign_extend_word_to_long(rn32);
    let rm64 = ir.sign_extend_word_to_long(rm32);
    let ra64 = ir.pack_2x32_to_1x64(Value::ImmU32(0), ra32);
    let product = ir.mul_64(rn64, rm64);
    let temp = ir.sub_64(ra64, product, Value::ImmU1(true));
    write_high_word(ir, inst, temp)
}

/// The high word of a signed product. The program counter may take no part in
/// it.
pub open spec fn arm_smmul_ir(s: EmitterState, inst: DecodedArm) -> (EmitterState, bool) {
    if field_16(inst) == Reg::R15 || inst.rm() == Reg::R15 || field_8(inst) == Reg::R15 {
        report_ir(s, Exception::UnpredictableInstruction)
    } else {
        let (s, n) = s.get_register(inst.rm());
        let (s, m) = s.get_register(field_8(inst));
        let (s, n) = s.op1(Opcode::SignExtendWordToLong, n);
        let (s, m) = s.op1(Opcode::SignExtendWordToLong, m);
        let (s, product) = s.op2(Opcode::Mul64, n, m);
        high_word_ir(s, inst, product)
    }
}

/// Translates the high word of a signed product.
pub fn arm_smmul(ir: &mut A32IREmitter, inst: &DecodedArm) -> (r: bool)
    ensures
        (final(ir)@, r) == arm_smmul_ir(old(ir)@, *inst),
{
    let rd = Reg::from_u32((inst.raw >> 16) & 0xF);
    let rm = Reg::from_u32((inst.raw >> 8) & 0xF);
    let rn = inst.rm();
    if rd == Reg::R15 || rn == Reg::R15 || rm == Reg::R15 {
        return report_exception(ir, Exception::UnpredictableInstruction);
    }
    let rn32 = ir.get_register(rn);
    let rm32 = ir.get_register(rm);
    let rn64 = ir.sign_extend_word_to_long(rn32);
    let rm64 = ir.sign_extend_word_to_long(rm32);
    let product = ir.mul_64(rn64, rm64);
    write_high_word(ir, inst, product)
}

} // verus!
