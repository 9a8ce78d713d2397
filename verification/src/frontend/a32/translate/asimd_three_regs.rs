//! Vector instructions with three registers.

use vstd::prelude::*;
use super::asimd::{
    dest_reg, field_vd, field_vm, field_vn, flag, lane_size, m_reg, misaligned_dnm, n_reg,
    to_vector_reg,
};
use super::{report_exception, report_ir};
use crate::frontend::a32::decoder::DecodedArm;
use crate::frontend::a32::types::{Exception, ExtReg};
use crate::ir::a32_emitter::{A32IREmitter, EmitterState};
use crate::ir::opcode;
use crate::ir::opcode::Opcode;
use crate::ir::value::Value;

verus! {

broadcast use crate::bits::and_le_mask;

/// An instruction that is undefined.
pub open spec fn undefined_vector_ir(s: EmitterState) -> (EmitterState, bool) {
    report_ir(s, Exception::UndefinedInstruction)
}

/// The size field of instructions on integers.
pub open spec fn int_size(inst: DecodedArm) -> u32 {
    (inst.raw >> 20) & 3
}

/// An operation on lanes that are single-precision numbers. `Mla` and `Mls`
/// round the product first, `Fma` and `Fms` do not; the paired operations
/// work on adjacent lanes of two double words.
#[derive(Clone, Copy, Debug, PartialEq, Eq, Structural)]
pub enum FloatOp {
    Add,
    Sub,
    Mul,
    Mla,
    Mls,
    Fma,
    Fms,
    AbsoluteDifference,
    Equal,
    Greater,
    GreaterEqual,
    Max,
    Min,
    PairedAdd,
    PairedMax,
    PairedMin,
    RecipStep,
    RSqrtStep,
}

/// An operation on lanes that are single-precision numbers, with the old
/// destination as third operand.
pub open spec fn float_op_ir(s: EmitterState, op: FloatOp, d: Value, n: Value, m: Value) -> (
    EmitterState,
    Value,
) {
    let fpcr = Value::ImmU1(false);
    match op {
        FloatOp::Add => s.op3(Opcode::FPVectorAdd32, n, m, fpcr),
        FloatOp::Sub => s.op3(Opcode::FPVectorSub32, n, m, fpcr),
        FloatOp::Mul => s.op3(Opcode::FPVectorMul32, n, m, fpcr),
        FloatOp::Mla => {
            let (s, product) = s.op3(Opcode::FPVectorMul32, n, m, fpcr);
            s.op3(Opcode::FPVectorAdd32, d, product, fpcr)
        },
        FloatOp::Mls => {
            let (s, product) = s.op3(Opcode::FPVectorMul32, n, m, fpcr);
            s.op3(Opcode::FPVectorSub32, d, product, fpcr)
        },
        FloatOp::Fma => s.op4(Opcode::FPVectorMulAdd32, d, n, m, fpcr),
        FloatOp::Fms => {
            let (s, negative) = s.op1(Opcode::FPVectorNeg32, n);
            s.op4(Opcode::FPVectorMulAdd32, d, negative, m, fpcr)
        },
        FloatOp::AbsoluteDifference => {
            let (s, difference) = s.op3(Opcode::FPVectorSub32, n, m, fpcr);
            s.op1(Opcode::FPVectorAbs32, difference)
        },
        FloatOp::Equal => s.op3(Opcode::FPVectorEqual32, n, m, fpcr),
        FloatOp::Greater => s.op3(Opcode::FPVectorGreater32, n, m, fpcr),
        FloatOp::GreaterEqual => s.op3(Opcode::FPVectorGreaterEqual32, n, m, fpcr),
        FloatOp::Max => s.op3(Opcode::FPVectorMax32, n, m, fpcr),
        FloatOp::Min => s.op3(Opcode::FPVectorMin32, n, m, fpcr),
        FloatOp::PairedAdd => s.op3(Opcode::FPVectorPairedAddLower32, n, m, fpcr),
        FloatOp::PairedMax => {
            let (s, even) = s.op2(Opcode::VectorDeinterleaveEvenLower32, n, m);
            let (s, odd) = s.op2(Opcode::VectorDeinterleaveOddLower32, n, m);
            s.op3(Opcode::FPVectorMax32, even, odd, fpcr)
        },
        FloatOp::PairedMin => {
            let (s, even) = s.op2(Opcode::VectorDeinterleaveEvenLower32, n, m);
            let (s, odd) = s.op2(Opcode::VectorDeinterleaveOddLower32, n, m);
            s.op3(Opcode::FPVectorMin32, even, odd, fpcr)
        },
        FloatOp::RecipStep => s.op3(Opcode::FPVectorRecipStepFused32, n, m, fpcr),
        FloatOp::RSqrtStep => s.op3(Opcode::FPVectorRSqrtStepFused32, n, m, fpcr),
    }
}

fn emit_float_op(
    ir: &mut A32IREmitter,
    op: FloatOp,
    reg_d: Value,
    reg_n: Value,
    reg_m: Value,
) -> (r: Value)
    ensures
        (final(ir)@, r) == float_op_ir(old(ir)@, op, reg_d, reg_n, reg_m),
{
    match op {
        FloatOp::Add => ir.fp_vector_add(32, reg_n, reg_m, false),
        FloatOp::Sub => ir.fp_vector_sub(32, reg_n, reg_m, false),
        FloatOp::Mul => ir.fp_vector_mul(32, reg_n, reg_m, false),
        FloatOp::Mla => {
            let product = ir.fp_vector_mul(32, reg_n, reg_m, false);
            ir.fp_vector_add(32, reg_d, product, false)
        },
        FloatOp::Mls => {
            let product = ir.fp_vector_mul(32, reg_n, reg_m, false);
            ir.fp_vector_sub(32, reg_d, product, false)
        },
        FloatOp::Fma => ir.fp_vector_mul_add(32, reg_d, reg_n, reg_m, false),
        FloatOp::Fms => {
            let neg_n = ir.fp_vector_neg(32, reg_n);
            ir.fp_vector_mul_add(32, reg_d, neg_n, reg_m, false)
        },
        FloatOp::AbsoluteDifference => {
            let diff = ir.fp_vector_sub(32, reg_n, reg_m, false);
            ir.fp_vector_abs(32, diff)
        },
        FloatOp::Equal => ir.fp_vector_equal(32, reg_n, reg_m, false),
        FloatOp::Greater => ir.fp_vector_greater(32, reg_n, reg_m, false),
        FloatOp::GreaterEqual => ir.fp_vector_greater_equal(32, reg_n, reg_m, false),
        FloatOp::Max => ir.fp_vector_max(32, reg_n, reg_m, false),
        FloatOp::Min => ir.fp_vector_min(32, reg_n, reg_m, false),
        FloatOp::PairedAdd => ir.fp_vector_paired_add_lower(32, reg_n, reg_m, false),
        FloatOp::PairedMax => {
            let bottom = ir.vector_deinterleave_even_lower(32, reg_n, reg_m);
            let top = ir.vector_deinterleave_odd_lower(32, reg_n, reg_m);
            ir.fp_vector_max(32, bottom, top, false)
        },
        FloatOp::PairedMin => {
            let bottom = ir.vector_deinterleave_even_lower(32, reg_n, reg_m);
            let top = ir.vector_deinterleave_odd_lower(32, reg_n, reg_m);
            ir.fp_vector_min(32, bottom, top, false)
        },
        FloatOp::RecipStep => ir.fp_vector_recip_step_fused(32, reg_n, reg_m, false),
        FloatOp::RSqrtStep => ir.fp_vector_rsqrt_step_fused(32, reg_n, reg_m, false),
    }
}

/// An instruction on single-precision numbers. Other precisions and odd quad
/// words are undefined.
pub open spec fn float_instruction_ir(s: EmitterState, inst: DecodedArm, op: FloatOp) -> (
    EmitterState,
    bool,
) {
    let q = flag(&inst, 6);
    if misaligned_dnm(inst, q) || flag(&inst, 20) {
        undefined_vector_ir(s)
    } else {
        let (s, d) = s.get_vector(dest_reg(inst, q));
        let (s, n) = s.get_vector(n_reg(inst, q));
        let (s, m) = s.get_vector(m_reg(inst, q));
        let (s, result) = float_op_ir(s, op, d, n, m);
        (s.set_vector(dest_reg(inst, q), result), true)
    }
}

fn asimd_floating_point_instruction(ir: &mut A32IREmitter, inst: &DecodedArm, op: FloatOp) -> (r:
    bool)
    ensures
        (final(ir)@, r) == float_instruction_ir(old(ir)@, *inst, op),
{
    let q = flag(inst, 6);
    let vd: u32 = field_vd(inst);
    let vn: u32 = field_vn(inst);
    let vm: u32 = field_vm(inst);
    if q && (vd & 1 != 0 || vn & 1 != 0 || vm & 1 != 0) {
        return report_exception(ir, Exception::UndefinedInstruction);
    }
    if flag(inst, 20) {
        return report_exception(ir, Exception::UndefinedInstruction);
    }
    let d_reg = match to_vector_reg(q, flag(inst, 22), vd) {
        Some(found) => found,
        None => {
            return report_exception(ir, Exception::UndefinedInstruction);
        },
    };
    let n_reg = match to_vector_reg(q, flag(inst, 7), vn) {
        Some(found) => found,
        None => {
            return report_exception(ir, Exception::UndefinedInstruction);
        },
    };
    let m_reg = match to_vector_reg(q, flag(inst, 5), vm) {
        Some(found) => found,
        None => {
            return report_exception(ir, Exception::UndefinedInstruction);
        },
    };
    let reg_d = ir.get_vector(d_reg);
    let reg_n = ir.get_vector(n_reg);
    let reg_m = ir.get_vector(m_reg);
    let result = emit_float_op(ir, op, reg_d, reg_n, reg_m);
    ir.set_vector(d_reg, result);
    true
}

/// Translates a sum of numbers.
pub fn arm_asimd_vadd_float(ir: &mut A32IREmitter, inst: &DecodedArm) -> (r: bool)
    ensures
        (final(ir)@, r) == float_instruction_ir(old(ir)@, *inst, FloatOp::Add),
{
    asimd_floating_point_instruction(ir, inst, FloatOp::Add)
}

/// Translates a difference of numbers.
pub fn arm_asimd_vsub_float(ir: &mut A32IREmitter, inst: &DecodedArm) -> (r: bool)
    ensures
        (final(ir)@, r) == float_instruction_ir(old(ir)@, *inst, FloatOp::Sub),
{
    asimd_floating_point_instruction(ir, inst, FloatOp::Sub)
}

/// Translates a product of numbers.
pub fn arm_asimd_vmul_float(ir: &mut A32IREmitter, inst: &DecodedArm) -> (r: bool)
    ensures
        (final(ir)@, r) == float_instruction_ir(old(ir)@, *inst, FloatOp::Mul),
{
    asimd_floating_point_instruction(ir, inst, FloatOp::Mul)
}

/// Translates a product of numbers added to the destination.
pub fn arm_asimd_vmla_float(ir: &mut A32IREmitter, inst: &DecodedArm) -> (r: bool)
    ensures
        (final(ir)@, r) == float_instruction_ir(old(ir)@, *inst, FloatOp::Mla),
{
    asimd_floating_point_instruction(ir, inst, FloatOp::Mla)
}

/// Translates a product of numbers taken from the destination.
pub fn arm_asimd_vmls_float(ir: &mut A32IREmitter, inst: &DecodedArm) -> (r: bool)
    ensures
        (final(ir)@, r) == float_instruction_ir(old(ir)@, *inst, FloatOp::Mls),
{
    asimd_floating_point_instruction(ir, inst, FloatOp::Mls)
}

/// Translates a fused product added to the destination.
pub fn arm_asimd_vfma(ir: &mut A32IREmitter, inst: &DecodedArm) -> (r: bool)
    ensures
        (final(ir)@, r) == float_instruction_ir(old(ir)@, *inst, FloatOp::Fma),
{
    asimd_floating_point_instruction(ir, inst, FloatOp::Fma)
}

/// Translates a fused product taken from the destination.
pub fn arm_asimd_vfms(ir: &mut A32IREmitter, inst: &DecodedArm) -> (r: bool)
    ensures
        (final(ir)@, r) == float_instruction_ir(old(ir)@, *inst, FloatOp::Fms),
{
    asimd_floating_point_instruction(ir, inst, FloatOp::Fms)
}

/// Translates an absolute difference of numbers.
pub fn arm_asimd_vabd_float(ir: &mut A32IREmitter, inst: &DecodedArm) -> (r: bool)
    ensures
        (final(ir)@, r) == float_instruction_ir(old(ir)@, *inst, FloatOp::AbsoluteDifference),
{
    asimd_floating_point_instruction(ir, inst, FloatOp::AbsoluteDifference)
}

/// Translates an equality of numbers.
pub fn arm_asimd_vceq_reg_float(ir: &mut A32IREmitter, inst: &DecodedArm) -> (r: bool)
    ensures
        (final(ir)@, r) == float_instruction_ir(old(ir)@, *inst, FloatOp::Equal),
{
    asimd_floating_point_instruction(ir, inst, FloatOp::Equal)
}

/// Translates a comparison of numbers.
pub fn arm_asimd_vcgt_reg_float(ir: &mut A32IREmitter, inst: &DecodedArm) -> (r: bool)
    ensures
        (final(ir)@, r) == float_instruction_ir(old(ir)@, *inst, FloatOp::Greater),
{
    asimd_floating_point_instruction(ir, inst, FloatOp::Greater)
}

/// Translates a comparison of numbers or equality.
pub fn arm_asimd_vcge_reg_float(ir: &mut A32IREmitter, inst: &DecodedArm) -> (r: bool)
    ensures
        (final(ir)@, r) == float_instruction_ir(old(ir)@, *inst, FloatOp::GreaterEqual),
{
    asimd_floating_point_instruction(ir, inst, FloatOp::GreaterEqual)
}

/// Translates a maximum of numbers.
pub fn arm_asimd_vmax_float(ir: &mut A32IREmitter, inst: &DecodedArm) -> (r: bool)
    ensures
        (final(ir)@, r) == float_instruction_ir(old(ir)@, *inst, FloatOp::Max),
{
    asimd_floating_point_instruction(ir, inst, FloatOp::Max)
}

/// Translates a minimum of numbers.
pub fn arm_asimd_vmin_float(ir: &mut A32IREmitter, inst: &DecodedArm) -> (r: bool)
    ensures
        (final(ir)@, r) == float_instruction_ir(old(ir)@, *inst, FloatOp::Min),
{
    asimd_floating_point_instruction(ir, inst, FloatOp::Min)
}

/// Translates a reciprocal step.
pub fn arm_asimd_vrecps(ir: &mut A32IREmitter, inst: &DecodedArm) -> (r: bool)
    ensures
        (final(ir)@, r) == float_instruction_ir(old(ir)@, *inst, FloatOp::RecipStep),
{
    asimd_floating_point_instruction(ir, inst, FloatOp::RecipStep)
}

/// Translates a reciprocal square root step.
pub fn arm_asimd_vrsqrts(ir: &mut A32IREmitter, inst: &DecodedArm) -> (r: bool)
    ensures
        (final(ir)@, r) == float_instruction_ir(old(ir)@, *inst, FloatOp::RSqrtStep),
{
    asimd_floating_point_instruction(ir, inst, FloatOp::RSqrtStep)
}

/// An instruction on adjacent lanes of double words that are numbers.
pub open spec fn paired_float_ir(s: EmitterState, inst: DecodedArm, op: FloatOp) -> (
    EmitterState,
    bool,
) {
    if flag(&inst, 6) {
        undefined_vector_ir(s)
    } else {
        float_instruction_ir(s, inst, op)
    }
}

/// Translates sums of adjacent numbers.
pub fn arm_asimd_vpadd_float(ir: &mut A32IREmitter, inst: &DecodedArm) -> (r: bool)
    ensures
        (final(ir)@, r) == paired_float_ir(old(ir)@, *inst, FloatOp::PairedAdd),
{
    if flag(inst, 6) {
        return report_exception(ir, Exception::UndefinedInstruction);
    }
    asimd_floating_point_instruction(ir, inst, FloatOp::PairedAdd)
}

/// Translates maxima of adjacent numbers.
pub fn arm_asimd_vpmax_float(ir: &mut A32IREmitter, inst: &DecodedArm) -> (r: bool)
    ensures
        (final(ir)@, r) == paired_float_ir(old(ir)@, *inst, FloatOp::PairedMax),
{
    if flag(inst, 6) {
        return report_exception(ir, Exception::UndefinedInstruction);
    }
    asimd_floating_point_instruction(ir, inst, FloatOp::PairedMax)
}

/// Translates minima of adjacent numbers.
pub fn arm_asimd_vpmin_float(ir: &mut A32IREmitter, inst: &DecodedArm) -> (r: bool)
    ensures
        (final(ir)@, r) == paired_float_ir(old(ir)@, *inst, FloatOp::PairedMin),
{
    if flag(inst, 6) {
        return report_exception(ir, Exception::UndefinedInstruction);
    }
    asimd_floating_point_instruction(ir, inst, FloatOp::PairedMin)
}

/// A comparison of the absolute values of numbers, strict if bit 21 is set.
pub open spec fn arm_asimd_vacge_ir(s: EmitterState, inst: DecodedArm) -> (EmitterState, bool) {
    let q = flag(&inst, 6);
    if misaligned_dnm(inst, q) || flag(&inst, 20) {
        undefined_vector_ir(s)
    } else {
        let (s, n) = s.get_vector(n_reg(inst, q));
        let (s, m) = s.get_vector(m_reg(inst, q));
        let (s, n) = s.op1(Opcode::FPVectorAbs32, n);
        let (s, m) = s.op1(Opcode::FPVectorAbs32, m);
        let comparison = if flag(&inst, 21) {
            Opcode::FPVectorGreater32
        } else {
            Opcode::FPVectorGreaterEqual32
        };
        let (s, result) = s.op3(comparison, n, m, Value::ImmU1(false));
        (s.set_vector(dest_reg(inst, q), result), true)
    }
}

/// Translates a comparison of absolute values.
pub fn arm_asimd_vacge(ir: &mut A32IREmitter, inst: &DecodedArm) -> (r: bool)
    ensures
        (final(ir)@, r) == arm_asimd_vacge_ir(old(ir)@, *inst),
{
    let q = flag(inst, 6);
    let vd: u32 = field_vd(inst);
    let vn: u32 = field_vn(inst);
    let vm: u32 = field_vm(inst);
    if flag(inst, 20) {
        return report_exception(ir, Exception::UndefinedInstruction);
    }
    if q && (vd & 1 != 0 || vn & 1 != 0 || vm & 1 != 0) {
        return report_exception(ir, Exception::UndefinedInstruction);
    }
    let d_reg = match to_vector_reg(q, flag(inst, 22), vd) {
        Some(found) => found,
        None => {
            return report_exception(ir, Exception::UndefinedInstruction);
        },
    };
    let n_reg = match to_vector_reg(q, flag(inst, 7), vn) {
        Some(found) => found,
        None => {
            return report_exception(ir, Exception::UndefinedInstruction);
        },
    };
    let m_reg = match to_vector_reg(q, flag(inst, 5), vm) {
        Some(found) => found,
        None => {
            return report_exception(ir, Exception::UndefinedInstruction);
        },
    };
    let reg_n = ir.get_vector(n_reg);
    let reg_m = ir.get_vector(m_reg);
    let abs_n = ir.fp_vector_abs(32, reg_n);
    let abs_m = ir.fp_vector_abs(32, reg_m);
    let result = if flag(inst, 21) {
        ir.fp_vector_greater(32, abs_n, abs_m, false)
    } else {
        ir.fp_vector_greater_equal(32, abs_n, abs_m, false)
    };
    ir.set_vector(d_reg, result);
    true
}

/// A bitwise operation on vectors. The last three choose between two operands
/// by the bits of a third: by the destination, or into the destination where
/// the bits of the second operand are set or clear.
#[derive(Clone, Copy, Debug, PartialEq, Eq, Structural)]
pub enum BitwiseOp {
    Or,
    AndNot,
    OrNot,
    Eor,
    Select,
    InsertIfTrue,
    InsertIfFalse,
}

/// `(a AND mask) OR (b AND NOT mask)`.
pub open spec fn choose_bits_ir(s: EmitterState, mask: Value, a: Value, b: Value) -> (
    EmitterState,
    Value,
) {
    let (s, x) = s.op2(Opcode::VectorAnd, a, mask);
    let (s, y) = s.op2(Opcode::VectorAndNot, b, mask);
    s.op2(Opcode::VectorOr, x, y)
}

/// A bitwise operation.
pub open spec fn bitwise_op_ir(s: EmitterState, op: BitwiseOp, d: Value, n: Value, m: Value) -> (
    EmitterState,
    Value,
) {
    match op {
        BitwiseOp::Or => s.op2(Opcode::VectorOr, n, m),
        BitwiseOp::AndNot => s.op2(Opcode::VectorAndNot, n, m),
        BitwiseOp::OrNot => {
            let (s, complement) = s.op1(Opcode::VectorNot, m);
            s.op2(Opcode::VectorOr, n, complement)
        },
        BitwiseOp::Eor => s.op2(Opcode::VectorEor, n, m),
        BitwiseOp::Select => choose_bits_ir(s, d, n, m),
        BitwiseOp::InsertIfTrue => choose_bits_ir(s, m, n, d),
        BitwiseOp::InsertIfFalse => choose_bits_ir(s, m, d, n),
    }
}

/// A bitwise instruction. The destination is an operand if `with_dst` is set;
/// else a zero vector stands in its place.
pub open spec fn bitwise_ir(s: EmitterState, inst: DecodedArm, with_dst: bool, op: BitwiseOp) -> (
    EmitterState,
    bool,
) {
    let q = flag(&inst, 6);
    if misaligned_dnm(inst, q) {
        undefined_vector_ir(s)
    } else {
        let (s, d) = if with_dst {
            s.get_vector(dest_reg(inst, q))
        } else {
            s.op0(Opcode::ZeroVector)
        };
        let (s, n) = s.get_vector(n_reg(inst, q));
        let (s, m) = s.get_vector(m_reg(inst, q));
        let (s, result) = bitwise_op_ir(s, op, d, n, m);
        (s.set_vector(dest_reg(inst, q), result), true)
    }
}

fn bitwise_instruction<const WITH_DST: bool>(
    ir: &mut A32IREmitter,
    inst: &DecodedArm,
    op: BitwiseOp,
) -> (r: bool)
    ensures
        (final(ir)@, r) == bitwise_ir(old(ir)@, *inst, WITH_DST, op),
{
    let q = flag(inst, 6);
    let vd: u32 = field_vd(inst);
    let vn: u32 = field_vn(inst);
    let vm: u32 = field_vm(inst);
    if q && (vd & 1 != 0 || vn & 1 != 0 || vm & 1 != 0) {
        return report_exception(ir, Exception::UndefinedInstruction);
    }
    let d_reg = match to_vector_reg(q, flag(inst, 22), vd) {
        Some(found) => found,
        None => {
            return false;
        },
    };
    let n_reg = match to_vector_reg(q, flag(inst, 7), vn) {
        Some(found) => found,
        None => {
            return false;
        },
    };
    let m_reg = match to_vector_reg(q, flag(inst, 5), vm) {
        Some(found) => found,
        None => {
            return false;
        },
    };
    let reg_d = if WITH_DST { ir.get_vector(d_reg) } else { ir.zero_vector() };
    let reg_n = ir.get_vector(n_reg);
    let reg_m = ir.get_vector(m_reg);
    let result = match op {
        BitwiseOp::Or => ir.vector_or(reg_n, reg_m),
        BitwiseOp::AndNot => ir.vector_and_not(reg_n, reg_m),
        BitwiseOp::OrNot => {
            let not_m = ir.vector_not(reg_m);
            ir.vector_or(reg_n, not_m)
        },
        BitwiseOp::Eor => ir.vector_eor(reg_n, reg_m),
        BitwiseOp::Select => {
            let a = ir.vector_and(reg_n, reg_d);
            let b = ir.vector_and_not(reg_m, reg_d);
            ir.vector_or(a, b)
        },
        BitwiseOp::InsertIfTrue => {
            let a = ir.vector_and(reg_n, reg_m);
            let b = ir.vector_and_not(reg_d, reg_m);
            ir.vector_or(a, b)
        },
        BitwiseOp::InsertIfFalse => {
            let a = ir.vector_and(reg_d, reg_m);
            let b = ir.vector_and_not(reg_n, reg_m);
            ir.vector_or(a, b)
        },
    };
    ir.set_vector(d_reg, result);
    true
}

/// Translates a bitwise or.
pub fn arm_asimd_vorr_reg(ir: &mut A32IREmitter, inst: &DecodedArm) -> (r: bool)
    ensures
        (final(ir)@, r) == bitwise_ir(old(ir)@, *inst, false, BitwiseOp::Or),
{
    bitwise_instruction::<false>(ir, inst, BitwiseOp::Or)
}

/// Translates a clearing of bits.
pub fn arm_asimd_vbic_reg(ir: &mut A32IREmitter, inst: &DecodedArm) -> (r: bool)
    ensures
        (final(ir)@, r) == bitwise_ir(old(ir)@, *inst, false, BitwiseOp::AndNot),
{
    bitwise_instruction::<false>(ir, inst, BitwiseOp::AndNot)
}

/// Translates a bitwise or with a complement.
pub fn arm_asimd_vorn_reg(ir: &mut A32IREmitter, inst: &DecodedArm) -> (r: bool)
    ensures
        (final(ir)@, r) == bitwise_ir(old(ir)@, *inst, false, BitwiseOp::OrNot),
{
    bitwise_instruction::<false>(ir, inst, BitwiseOp::OrNot)
}

/// Translates a bitwise exclusive or.
pub fn arm_asimd_veor_reg(ir: &mut A32IREmitter, inst: &DecodedArm) -> (r: bool)
    ensures
        (final(ir)@, r) == bitwise_ir(old(ir)@, *inst, false, BitwiseOp::Eor),
{
    bitwise_instruction::<false>(ir, inst, BitwiseOp::Eor)
}

/// Translates a selection of bits by the destination.
pub fn arm_asimd_vbsl(ir: &mut A32IREmitter, inst: &DecodedArm) -> (r: bool)
    ensures
        (final(ir)@, r) == bitwise_ir(old(ir)@, *inst, true, BitwiseOp::Select),
{
    bitwise_instruction::<true>(ir, inst, BitwiseOp::Select)
}

/// Translates an insertion of bits where a mask is set.
pub fn arm_asimd_vbit(ir: &mut A32IREmitter, inst: &DecodedArm) -> (r: bool)
    ensures
        (final(ir)@, r) == bitwise_ir(old(ir)@, *inst, true, BitwiseOp::InsertIfTrue),
{
    bitwise_instruction::<true>(ir, inst, BitwiseOp::InsertIfTrue)
}

/// Translates an insertion of bits where a mask is clear.
pub fn arm_asimd_vbif(ir: &mut A32IREmitter, inst: &DecodedArm) -> (r: bool)
    ensures
        (final(ir)@, r) == bitwise_ir(old(ir)@, *inst, true, BitwiseOp::InsertIfFalse),
{
    bitwise_instruction::<true>(ir, inst, BitwiseOp::InsertIfFalse)
}

/// A bitwise and.
pub open spec fn arm_asimd_vand_reg_ir(s: EmitterState, inst: DecodedArm) -> (EmitterState, bool) {
    let q = flag(&inst, 6);
    if misaligned_dnm(inst, q) {
        undefined_vector_ir(s)
    } else {
        let (s, n) = s.get_vector(n_reg(inst, q));
        let (s, m) = s.get_vector(m_reg(inst, q));
        let (s, result) = s.op2(Opcode::VectorAnd, n, m);
        (s.set_vector(dest_reg(inst, q), result), true)
    }
}

/// Translates a bitwise and.
pub fn arm_asimd_vand_reg(ir: &mut A32IREmitter, inst: &DecodedArm) -> (r: bool)
    ensures
        (final(ir)@, r) == arm_asimd_vand_reg_ir(old(ir)@, *inst),
{
    let q = flag(inst, 6);
    let vd: u32 = field_vd(inst);
    let vn: u32 = field_vn(inst);
    let vm: u32 = field_vm(inst);
    if q && (vd & 1 != 0 || vn & 1 != 0 || vm & 1 != 0) {
        return report_exception(ir, Exception::UndefinedInstruction);
    }
    let d_reg = match to_vector_reg(q, flag(inst, 22), vd) {
        Some(found) => found,
        None => {
            return false;
        },
    };
    let n_reg = match to_vector_reg(q, flag(inst, 7), vn) {
        Some(found) => found,
        None => {
            return false;
        },
    };
    let m_reg = match to_vector_reg(q, flag(inst, 5), vm) {
        Some(found) => found,
        None => {
            return false;
        },
    };
    let reg_n = ir.get_vector(n_reg);
    let reg_m = ir.get_vector(m_reg);
    let result = ir.vector_and(reg_n, reg_m);
    ir.set_vector(d_reg, result);
    true
}

/// Whether an instruction on integers is undefined: with lanes of a double
/// word, or with an odd quad word.
pub open spec fn int_undefined(inst: DecodedArm) -> bool {
    int_size(inst) == 3 || misaligned_dnm(inst, flag(&inst, 6))
}

/// Gives the lane size and the registers of an instruction on integers, or
/// reports that it is undefined.
fn validate_three_reg_int(ir: &mut A32IREmitter, inst: &DecodedArm) -> (r: Option<
    (usize, ExtReg, ExtReg, ExtReg),
>)
    ensures
        int_undefined(*inst) ==> r is None && final(ir)@ == undefined_vector_ir(old(ir)@).0,
        !int_undefined(*inst) ==> final(ir)@ == old(ir)@ && r == Some(
            (
                lane_size(int_size(*inst)),
                dest_reg(*inst, flag(inst, 6)),
                n_reg(*inst, flag(inst, 6)),
                m_reg(*inst, flag(inst, 6)),
            ),
        ),
{
    let sz: u32 = (inst.raw >> 20) & 3;
    let q = flag(inst, 6);
    let vd: u32 = field_vd(inst);
    let vn: u32 = field_vn(inst);
    let vm: u32 = field_vm(inst);
    if sz == 0b11 {
        report_exception(ir, Exception::UndefinedInstruction);
        return None;
    }
    if q && (vd & 1 != 0 || vn & 1 != 0 || vm & 1 != 0) {
        report_exception(ir, Exception::UndefinedInstruction);
        return None;
    }
    let esize: usize = lane_size(sz);
    let d_reg = match to_vector_reg(q, flag(inst, 22), vd) {
        Some(found) => found,
        None => {
            return None;
        },
    };
    let n_reg = match to_vector_reg(q, flag(inst, 7), vn) {
        Some(found) => found,
        None => {
            return None;
        },
    };
    let m_reg = match to_vector_reg(q, flag(inst, 5), vm) {
        Some(found) => found,
        None => {
            return None;
        },
    };
    Some((esize, d_reg, n_reg, m_reg))
}

/// An operation on the lanes of two vectors of integers.
pub open spec fn int_binary_ir(s: EmitterState, inst: DecodedArm, operation: Opcode) -> (
    EmitterState,
    bool,
) {
    let q = flag(&inst, 6);
    if int_undefined(inst) {
        undefined_vector_ir(s)
    } else {
        let (s, n) = s.get_vector(n_reg(inst, q));
        let (s, m) = s.get_vector(m_reg(inst, q));
        let (s, result) = s.op2(operation, n, m);
        (s.set_vector(dest_reg(inst, q), result), true)
    }
}

/// A shift of the lanes of the second operand by those of the first.
pub open spec fn int_shift_ir(s: EmitterState, inst: DecodedArm, operation: Opcode) -> (
    EmitterState,
    bool,
) {
    let q = flag(&inst, 6);
    if int_undefined(inst) {
        undefined_vector_ir(s)
    } else {
        let (s, n) = s.get_vector(n_reg(inst, q));
        let (s, m) = s.get_vector(m_reg(inst, q));
        let (s, result) = s.op2(operation, m, n);
        (s.set_vector(dest_reg(inst, q), result), true)
    }
}

/// Of two operations, the one for unsigned lanes if bit 24 is set.
pub open spec fn by_sign(inst: DecodedArm, unsigned: Opcode, signed: Opcode) -> Opcode {
    if flag(&inst, 24) {
        unsigned
    } else {
        signed
    }
}

/// Translates a sum.
pub fn arm_asimd_vadd_int(ir: &mut A32IREmitter, inst: &DecodedArm) -> (r: bool)
    ensures
        (final(ir)@, r) == int_binary_ir(
            old(ir)@,
            *inst,
            opcode::vector_add(lane_size(int_size(*inst))),
        ),
{
    let (esize, d_reg, n_reg, m_reg) = match validate_three_reg_int(ir, inst) {
        Some(found) => found,
        None => {
            return false;
        },
    };
    let reg_n = ir.get_vector(n_reg);
    let reg_m = ir.get_vector(m_reg);
    let result = ir.vector_add(esize, reg_n, reg_m);
    ir.set_vector(d_reg, result);
    true
}

/// Translates a difference.
pub fn arm_asimd_vsub_int(ir: &mut A32IREmitter, inst: &DecodedArm) -> (r: bool)
    ensures
        (final(ir)@, r) == int_binary_ir(
            old(ir)@,
            *inst,
            opcode::vector_sub(lane_size(int_size(*inst))),
        ),
{
    let (esize, d_reg, n_reg, m_reg) = match validate_three_reg_int(ir, inst) {
        Some(found) => found,
        None => {
            return false;
        },
    };
    let reg_n = ir.get_vector(n_reg);
    let reg_m = ir.get_vector(m_reg);
    let result = ir.vector_sub(esize, reg_n, reg_m);
    ir.set_vector(d_reg, result);
    true
}

/// Translates the half of a sum.
pub fn arm_asimd_vhadd(ir: &mut A32IREmitter, inst: &DecodedArm) -> (r: bool)
    ensures
        (final(ir)@, r) == int_binary_ir(
            old(ir)@,
            *inst,
            by_sign(
                *inst,
                opcode::vector_halving_add_unsigned(lane_size(int_size(*inst))),
                opcode::vector_halving_add_signed(lane_size(int_size(*inst))),
            ),
        ),
{
    let (esize, d_reg, n_reg, m_reg) = match validate_three_reg_int(ir, inst) {
        Some(found) => found,
        None => {
            return false;
        },
    };
    let reg_n = ir.get_vector(n_reg);
    let reg_m = ir.get_vector(m_reg);
    let result = if flag(inst, 24) {
        ir.vector_halving_add_unsigned(esize, reg_n, reg_m)
    } else {
        ir.vector_halving_add_signed(esize, reg_n, reg_m)
    };
    ir.set_vector(d_reg, result);
    true
}

/// Translates a saturating sum.
pub fn arm_asimd_vqadd(ir: &mut A32IREmitter, inst: &DecodedArm) -> (r: bool)
    ensures
        (final(ir)@, r) == int_binary_ir(
            old(ir)@,
            *inst,
            by_sign(
                *inst,
                opcode::vector_unsigned_saturated_add(lane_size(int_size(*inst))),
                opcode::vector_signed_saturated_add(lane_size(int_size(*inst))),
            ),
        ),
{
    let (esize, d_reg, n_reg, m_reg) = match validate_three_reg_int(ir, inst) {
        Some(found) => found,
        None => {
            return false;
        },
    };
    let reg_n = ir.get_vector(n_reg);
    let reg_m = ir.get_vector(m_reg);
    let result = if flag(inst, 24) {
        ir.vector_unsigned_saturated_add(esize, reg_n, reg_m)
    } else {
        ir.vector_signed_saturated_add(esize, reg_n, reg_m)
    };
    ir.set_vector(d_reg, result);
    true
}

/// Translates the rounded half of a sum.
pub fn arm_asimd_vrhadd(ir: &mut A32IREmitter, inst: &DecodedArm) -> (r: bool)
    ensures
        (final(ir)@, r) == int_binary_ir(
            old(ir)@,
            *inst,
            by_sign(
                *inst,
                opcode::vector_rounding_halving_add_unsigned(lane_size(int_size(*inst))),
                opcode::vector_rounding_halving_add_signed(lane_size(int_size(*inst))),
            ),
        ),
{
    let (esize, d_reg, n_reg, m_reg) = match validate_three_reg_int(ir, inst) {
        Some(found) => found,
        None => {
            return false;
        },
    };
    let reg_n = ir.get_vector(n_reg);
    let reg_m = ir.get_vector(m_reg);
    let result = if flag(inst, 24) {
        ir.vector_rounding_halving_add_unsigned(esize, reg_n, reg_m)
    } else {
        ir.vector_rounding_halving_add_signed(esize, reg_n, reg_m)
    };
    ir.set_vector(d_reg, result);
    true
}

/// Translates the half of a difference.
pub fn arm_asimd_vhsub(ir: &mut A32IREmitter, inst: &DecodedArm) -> (r: bool)
    ensures
        (final(ir)@, r) == int_binary_ir(
            old(ir)@,
            *inst,
            by_sign(
                *inst,
                opcode::vector_halving_sub_unsigned(lane_size(int_size(*inst))),
                opcode::vector_halving_sub_signed(lane_size(int_size(*inst))),
            ),
        ),
{
    let (esize, d_reg, n_reg, m_reg) = match validate_three_reg_int(ir, inst) {
        Some(found) => found,
        None => {
            return false;
        },
    };
    let reg_n = ir.get_vector(n_reg);
    let reg_m = ir.get_vector(m_reg);
    let result = if flag(inst, 24) {
        ir.vector_halving_sub_unsigned(esize, reg_n, reg_m)
    } else {
        ir.vector_halving_sub_signed(esize, reg_n, reg_m)
    };
    ir.set_vector(d_reg, result);
    true
}

/// Translates a saturating difference.
pub fn arm_asimd_vqsub(ir: &mut A32IREmitter, inst: &DecodedArm) -> (r: bool)
    ensures
        (final(ir)@, r) == int_binary_ir(
            old(ir)@,
            *inst,
            by_sign(
                *inst,
                opcode::vector_unsigned_saturated_sub(lane_size(int_size(*inst))),
                opcode::vector_signed_saturated_sub(lane_size(int_size(*inst))),
            ),
        ),
{
    let (esize, d_reg, n_reg, m_reg) = match validate_three_reg_int(ir, inst) {
        Some(found) => found,
        None => {
            return false;
        },
    };
    let reg_n = ir.get_vector(n_reg);
    let reg_m = ir.get_vector(m_reg);
    let result = if flag(inst, 24) {
        ir.vector_unsigned_saturated_sub(esize, reg_n, reg_m)
    } else {
        ir.vector_signed_saturated_sub(esize, reg_n, reg_m)
    };
    ir.set_vector(d_reg, result);
    true
}

/// Translates a shift by a register.
pub fn arm_asimd_vshl_reg(ir: &mut A32IREmitter, inst: &DecodedArm) -> (r: bool)
    ensures
        (final(ir)@, r) == int_shift_ir(
            old(ir)@,
            *inst,
            by_sign(
                *inst,
                opcode::vector_logical_v_shift(lane_size(int_size(*inst))),
                opcode::vector_arithmetic_v_shift(lane_size(int_size(*inst))),
            ),
        ),
{
    let (esize, d_reg, n_reg, m_reg) = match validate_three_reg_int(ir, inst) {
        Some(found) => found,
        None => {
            return false;
        },
    };
    let reg_n = ir.get_vector(n_reg);
    let reg_m = ir.get_vector(m_reg);
    let result = if flag(inst, 24) {
        ir.vector_logical_v_shift(esize, reg_m, reg_n)
    } else {
        ir.vector_arithmetic_v_shift(esize, reg_m, reg_n)
    };
    ir.set_vector(d_reg, result);
    true
}

/// Translates a saturating shift by a register.
pub fn arm_asimd_vqshl_reg(ir: &mut A32IREmitter, inst: &DecodedArm) -> (r: bool)
    ensures
        (final(ir)@, r) == int_shift_ir(
            old(ir)@,
            *inst,
            by_sign(
                *inst,
                opcode::vector_unsigned_saturated_shift_left(lane_size(int_size(*inst))),
                opcode::vector_signed_saturated_shift_left(lane_size(int_size(*inst))),
            ),
        ),
{
    let (esize, d_reg, n_reg, m_reg) = match validate_three_reg_int(ir, inst) {
        Some(found) => found,
        None => {
            return false;
        },
    };
    let reg_n = ir.get_vector(n_reg);
    let reg_m = ir.get_vector(m_reg);
    let result = if flag(inst, 24) {
        ir.vector_unsigned_saturated_shift_left(esize, reg_m, reg_n)
    } else {
        ir.vector_signed_saturated_shift_left(esize, reg_m, reg_n)
    };
    ir.set_vector(d_reg, result);
    true
}

/// Translates a rounding shift by a register.
pub fn arm_asimd_vrshl(ir: &mut A32IREmitter, inst: &DecodedArm) -> (r: bool)
    ensures
        (final(ir)@, r) == int_shift_ir(
            old(ir)@,
            *inst,
            by_sign(
                *inst,
                opcode::vector_rounding_shift_left_unsigned(lane_size(int_size(*inst))),
                opcode::vector_rounding_shift_left_signed(lane_size(int_size(*inst))),
            ),
        ),
{
    let (esize, d_reg, n_reg, m_reg) = match validate_three_reg_int(ir, inst) {
        Some(found) => found,
        None => {
            return false;
        },
    };
    let reg_n = ir.get_vector(n_reg);
    let reg_m = ir.get_vector(m_reg);
    let result = if flag(inst, 24) {
        ir.vector_rounding_shift_left_unsigned(esize, reg_m, reg_n)
    } else {
        ir.vector_rounding_shift_left_signed(esize, reg_m, reg_n)
    };
    ir.set_vector(d_reg, result);
    true
}

/// The maximum, or the minimum if bit 4 is set, of unsigned or signed lanes.
pub open spec fn max_min_opcode(inst: DecodedArm) -> Opcode {
    let esize = lane_size(int_size(inst));
    if flag(&inst, 4) {
        by_sign(inst, opcode::vector_min_unsigned(esize), opcode::vector_min_signed(esize))
    } else {
        by_sign(inst, opcode::vector_max_unsigned(esize), opcode::vector_max_signed(esize))
    }
}

/// Translates a maximum or minimum.
pub fn arm_asimd_vmax_min_int(ir: &mut A32IREmitter, inst: &DecodedArm) -> (r: bool)
    ensures
        (final(ir)@, r) == int_binary_ir(old(ir)@, *inst, max_min_opcode(*inst)),
{
    let (esize, d_reg, n_reg, m_reg) = match validate_three_reg_int(ir, inst) {
        Some(found) => found,
        None => {
            return false;
        },
    };
    let reg_n = ir.get_vector(n_reg);
    let reg_m = ir.get_vector(m_reg);
    let result = match (flag(inst, 4), flag(inst, 24)) {
        (false, false) => ir.vector_max_signed(esize, reg_n, reg_m),
        (false, true) => ir.vector_max_unsigned(esize, reg_n, reg_m),
        (true, false) => ir.vector_min_signed(esize, reg_n, reg_m),
        (true, true) => ir.vector_min_unsigned(esize, reg_n, reg_m),
    };
    ir.set_vector(d_reg, result);
    true
}

/// A comparison of integers.
#[derive(Clone, Copy, Debug, PartialEq, Eq, Structural)]
pub enum Comparison {
    GreaterEqual,
    GreaterThan,
    Equal,
}

/// A comparison of the lanes of two vectors.
pub open spec fn integer_comparison_ir(
    s: EmitterState,
    inst: DecodedArm,
    comparison: Comparison,
) -> (
    EmitterState,
    bool,
) {
    let q = flag(&inst, 6);
    if int_undefined(inst) {
        undefined_vector_ir(s)
    } else {
        let esize = lane_size(int_size(inst));
        let unsigned = flag(&inst, 24);
        let (s, n) = s.get_vector(n_reg(inst, q));
        let (s, m) = s.get_vector(m_reg(inst, q));
        let (s, result) = match comparison {
            Comparison::GreaterThan => if unsigned {
                s.vector_greater_unsigned(esize, n, m)
            } else {
                s.op2(opcode::vector_greater_signed(esize), n, m)
            },
            Comparison::GreaterEqual => if unsigned {
                s.vector_greater_equal_unsigned(esize, n, m)
            } else {
                s.vector_greater_equal_signed(esize, n, m)
            },
            Comparison::Equal => s.op2(opcode::vector_equal(esize), n, m),
        };
        (s.set_vector(dest_reg(inst, q), result), true)
    }
}

fn integer_comparison(ir: &mut A32IREmitter, inst: &DecodedArm, comparison: Comparison) -> (r: bool)
    ensures
        (final(ir)@, r) == integer_comparison_ir(old(ir)@, *inst, comparison),
{
    let (esize, d_reg, n_reg, m_reg) = match validate_three_reg_int(ir, inst) {
        Some(found) => found,
        None => {
            return false;
        },
    };
    let reg_n = ir.get_vector(n_reg);
    let reg_m = ir.get_vector(m_reg);
    let u = flag(inst, 24);
    let result = match comparison {
        Comparison::GreaterThan => if u {
            ir.vector_greater_unsigned(esize, reg_n, reg_m)
        } else {
            ir.vector_greater_signed(esize, reg_n, reg_m)
        },
        Comparison::GreaterEqual => if u {
            ir.vector_greater_equal_unsigned(esize, reg_n, reg_m)
        } else {
            ir.vector_greater_equal_signed(esize, reg_n, reg_m)
        },
        Comparison::Equal => ir.vector_equal(esize, reg_n, reg_m),
    };
    ir.set_vector(d_reg, result);
    true
}

/// Translates a comparison of integers.
pub fn arm_asimd_vcgt_reg_int(ir: &mut A32IREmitter, inst: &DecodedArm) -> (r: bool)
    ensures
        (final(ir)@, r) == integer_comparison_ir(old(ir)@, *inst, Comparison::GreaterThan),
{
    integer_comparison(ir, inst, Comparison::GreaterThan)
}

/// Translates a comparison of integers or equality.
pub fn arm_asimd_vcge_reg_int(ir: &mut A32IREmitter, inst: &DecodedArm) -> (r: bool)
    ensures
        (final(ir)@, r) == integer_comparison_ir(old(ir)@, *inst, Comparison::GreaterEqual),
{
    integer_comparison(ir, inst, Comparison::GreaterEqual)
}

/// Translates an equality of integers.
pub fn arm_asimd_vceq_reg_int(ir: &mut A32IREmitter, inst: &DecodedArm) -> (r: bool)
    ensures
        (final(ir)@, r) == integer_comparison_ir(old(ir)@, *inst, Comparison::Equal),
{
    integer_comparison(ir, inst, Comparison::Equal)
}

/// Whether lanes have a bit in common.
pub open spec fn arm_asimd_vtst_ir(s: EmitterState, inst: DecodedArm) -> (EmitterState, bool) {
    let q = flag(&inst, 6);
    if int_undefined(inst) {
        undefined_vector_ir(s)
    } else {
        let (s, n) = s.get_vector(n_reg(inst, q));
        let (s, m) = s.get_vector(m_reg(inst, q));
        let (s, common) = s.op2(Opcode::VectorAnd, n, m);
        let (s, zero) = s.op0(Opcode::ZeroVector);
        let (s, none) = s.op2(opcode::vector_equal(lane_size(int_size(inst))), common, zero);
        let (s, result) = s.op1(Opcode::VectorNot, none);
        (s.set_vector(dest_reg(inst, q), result), true)
    }
}

/// Translates a test of common bits.
pub fn arm_asimd_vtst(ir: &mut A32IREmitter, inst: &DecodedArm) -> (r: bool)
    ensures
        (final(ir)@, r) == arm_asimd_vtst_ir(old(ir)@, *inst),
{
    let (esize, d_reg, n_reg, m_reg) = match validate_three_reg_int(ir, inst) {
        Some(found) => found,
        None => {
            return false;
        },
    };
    let reg_n = ir.get_vector(n_reg);
    let reg_m = ir.get_vector(m_reg);
    let anded = ir.vector_and(reg_n, reg_m);
    let zero = ir.zero_vector();
    let eq_zero = ir.vector_equal(esize, anded, zero);
    let result = ir.vector_not(eq_zero);
    ir.set_vector(d_reg, result);
    true
}

/// The absolute difference of lanes, added to the destination if asked for.
pub open spec fn absolute_difference_ir(s: EmitterState, inst: DecodedArm, accumulate: bool) -> (
    EmitterState,
    bool,
) {
    let q = flag(&inst, 6);
    if int_undefined(inst) {
        undefined_vector_ir(s)
    } else {
        let esize = lane_size(int_size(inst));
        let (s, n) = s.get_vector(n_reg(inst, q));
        let (s, m) = s.get_vector(m_reg(inst, q));
        let (s, difference) = s.op2(
            by_sign(
                inst,
                opcode::vector_unsigned_absolute_difference(esize),
                opcode::vector_signed_absolute_difference(esize),
            ),
            n,
            m,
        );
        let (s, result) = if accumulate {
            let (s, d) = s.get_vector(dest_reg(inst, q));
            s.op2(opcode::vector_add(esize), d, difference)
        } else {
            (s, difference)
        };
        (s.set_vector(dest_reg(inst, q), result), true)
    }
}

fn absolute_difference(ir: &mut A32IREmitter, inst: &DecodedArm, accumulate: bool) -> (r: bool)
    ensures
        (final(ir)@, r) == absolute_difference_ir(old(ir)@, *inst, accumulate),
{
    let (esize, d_reg, n_reg, m_reg) = match validate_three_reg_int(ir, inst) {
        Some(found) => found,
        None => {
            return false;
        },
    };
    let reg_n = ir.get_vector(n_reg);
    let reg_m = ir.get_vector(m_reg);
    let absdiff = if flag(inst, 24) {
        ir.vector_unsigned_absolute_difference(esize, reg_n, reg_m)
    } else {
        ir.vector_signed_absolute_difference(esize, reg_n, reg_m)
    };
    let result = if accumulate {
        let reg_d = ir.get_vector(d_reg);
        ir.vector_add(esize, reg_d, absdiff)
    } else {
        absdiff
    };
    ir.set_vector(d_reg, result);
    true
}

/// Translates an absolute difference.
pub fn arm_asimd_vabd_int(ir: &mut A32IREmitter, inst: &DecodedArm) -> (r: bool)
    ensures
        (final(ir)@, r) == absolute_difference_ir(old(ir)@, *inst, false),
{
    absolute_difference(ir, inst, false)
}

/// Translates an absolute difference with accumulation.
pub fn arm_asimd_vaba(ir: &mut A32IREmitter, inst: &DecodedArm) -> (r: bool)
    ensures
        (final(ir)@, r) == absolute_difference_ir(old(ir)@, *inst, true),
{
    absolute_difference(ir, inst, true)
}

/// A product of lanes. Products of polynomials are undefined here.
pub open spec fn arm_asimd_vmul_int_ir(s: EmitterState, inst: DecodedArm) -> (EmitterState, bool) {
    if flag(&inst, 24) {
        undefined_vector_ir(s)
    } else {
        int_binary_ir(s, inst, opcode::vector_multiply(lane_size(int_size(inst))))
    }
}

/// Translates a product.
pub fn arm_asimd_vmul_int(ir: &mut A32IREmitter, inst: &DecodedArm) -> (r: bool)
    ensures
        (final(ir)@, r) == arm_asimd_vmul_int_ir(old(ir)@, *inst),
{
    let p = flag(inst, 24);
    let sz: u32 = (inst.raw >> 20) & 3;
    let q = flag(inst, 6);
    let vd: u32 = field_vd(inst);
    let vn: u32 = field_vn(inst);
    let vm: u32 = field_vm(inst);
    if sz == 0b11 || (p && sz != 0b00) {
        return report_exception(ir, Exception::UndefinedInstruction);
    }
    if q && (vd & 1 != 0 || vn & 1 != 0 || vm & 1 != 0) {
        return report_exception(ir, Exception::UndefinedInstruction);
    }
    let esize: usize = lane_size(sz);
    let d_reg = match to_vector_reg(q, flag(inst, 22), vd) {
        Some(found) => found,
        None => {
            return false;
        },
    };
    let n_reg = match to_vector_reg(q, flag(inst, 7), vn) {
        Some(found) => found,
        None => {
            return false;
        },
    };
    let m_reg = match to_vector_reg(q, flag(inst, 5), vm) {
        Some(found) => found,
        None => {
            return false;
        },
    };
    if p {
        return report_exception(ir, Exception::UndefinedInstruction);
    }
    let reg_n = ir.get_vector(n_reg);
    let reg_m = ir.get_vector(m_reg);
    let result = ir.vector_multiply(esize, reg_n, reg_m);
    ir.set_vector(d_reg, result);
    true
}

/// A product of lanes added to the destination, or taken from it if bit 24 is
/// set.
pub open spec fn arm_asimd_vmla_int_ir(s: EmitterState, inst: DecodedArm) -> (EmitterState, bool) {
    let q = flag(&inst, 6);
    if int_undefined(inst) {
        undefined_vector_ir(s)
    } else {
        let esize = lane_size(int_size(inst));
        let (s, n) = s.get_vector(n_reg(inst, q));
        let (s, m) = s.get_vector(m_reg(inst, q));
        let (s, d) = s.get_vector(dest_reg(inst, q));
        let (s, product) = s.op2(opcode::vector_multiply(esize), n, m);
        let (s, result) = if flag(&inst, 24) {
            s.op2(opcode::vector_sub(esize), d, product)
        } else {
            s.op2(opcode::vector_add(esize), d, product)
        };
        (s.set_vector(dest_reg(inst, q), result), true)
    }
}

/// Translates a product with accumulation.
pub fn arm_asimd_vmla_int(ir: &mut A32IREmitter, inst: &DecodedArm) -> (r: bool)
    ensures
        (final(ir)@, r) == arm_asimd_vmla_int_ir(old(ir)@, *inst),
{
    let (esize, d_reg, n_reg, m_reg) = match validate_three_reg_int(ir, inst) {
        Some(found) => found,
        None => {
            return false;
        },
    };
    let reg_n = ir.get_vector(n_reg);
    let reg_m = ir.get_vector(m_reg);
    let reg_d = ir.get_vector(d_reg);
    let multiply = ir.vector_multiply(esize, reg_n, reg_m);
    let result = if flag(inst, 24) {
        ir.vector_sub(esize, reg_d, multiply)
    } else {
        ir.vector_add(esize, reg_d, multiply)
    };
    ir.set_vector(d_reg, result);
    true
}

/// Sums of adjacent lanes of two double words.
pub open spec fn arm_asimd_vpadd_int_ir(s: EmitterState, inst: DecodedArm) -> (EmitterState, bool) {
    if int_size(inst) == 3 || flag(&inst, 6) {
        undefined_vector_ir(s)
    } else {
        let (s, n) = s.get_vector(n_reg(inst, false));
        let (s, m) = s.get_vector(m_reg(inst, false));
        let (s, result) = s.op2(opcode::vector_paired_add(lane_size(int_size(inst))), n, m);
        (s.set_vector(dest_reg(inst, false), result), true)
    }
}

/// Translates sums of adjacent lanes.
pub fn arm_asimd_vpadd_int(ir: &mut A32IREmitter, inst: &DecodedArm) -> (r: bool)
    ensures
        (final(ir)@, r) == arm_asimd_vpadd_int_ir(old(ir)@, *inst),
{
    let sz: u32 = (inst.raw >> 20) & 3;
    let vd: u32 = field_vd(inst);
    let vn: u32 = field_vn(inst);
    let vm: u32 = field_vm(inst);
    if sz == 0b11 || flag(inst, 6) {
        return report_exception(ir, Exception::UndefinedInstruction);
    }
    let esize: usize = lane_size(sz);
    let d_reg = match to_vector_reg(false, flag(inst, 22), vd) {
        Some(found) => found,
        None => {
            return false;
        },
    };
    let n_reg = match to_vector_reg(false, flag(inst, 7), vn) {
        Some(found) => found,
        None => {
            return false;
        },
    };
    let m_reg = match to_vector_reg(false, flag(inst, 5), vm) {
        Some(found) => found,
        None => {
            return false;
        },
    };
    let reg_n = ir.get_vector(n_reg);
    let reg_m = ir.get_vector(m_reg);
    let result = ir.vector_paired_add(esize, reg_n, reg_m);
    ir.set_vector(d_reg, result);
    true
}

/// Maxima or minima of adjacent lanes of two double words.
pub open spec fn arm_asimd_vpmax_int_ir(s: EmitterState, inst: DecodedArm) -> (EmitterState, bool) {
    if int_size(inst) == 3 || flag(&inst, 6) {
        undefined_vector_ir(s)
    } else {
        let esize = lane_size(int_size(inst));
        let (s, n) = s.get_vector(n_reg(inst, false));
        let (s, m) = s.get_vector(m_reg(inst, false));
        let (s, even) = s.op2(opcode::vector_deinterleave_even_lower(esize), n, m);
        let (s, odd) = s.op2(opcode::vector_deinterleave_odd_lower(esize), n, m);
        let (s, result) = s.op2(max_min_opcode(inst), even, odd);
        (s.set_vector(dest_reg(inst, false), result), true)
    }
}

/// Translates maxima or minima of adjacent lanes.
pub fn arm_asimd_vpmax_int(ir: &mut A32IREmitter, inst: &DecodedArm) -> (r: bool)
    ensures
        (final(ir)@, r) == arm_asimd_vpmax_int_ir(old(ir)@, *inst),
{
    let sz: u32 = (inst.raw >> 20) & 3;
    let vd: u32 = field_vd(inst);
    let vn: u32 = field_vn(inst);
    let vm: u32 = field_vm(inst);
    if sz == 0b11 || flag(inst, 6) {
        return report_exception(ir, Exception::UndefinedInstruction);
    }
    let esize: usize = lane_size(sz);
    let d_reg = match to_vector_reg(false, flag(inst, 22), vd) {
        Some(found) => found,
        None => {
            return false;
        },
    };
    let n_reg = match to_vector_reg(false, flag(inst, 7), vn) {
        Some(found) => found,
        None => {
            return false;
        },
    };
    let m_reg = match to_vector_reg(false, flag(inst, 5), vm) {
        Some(found) => found,
        None => {
            return false;
        },
    };
    let reg_n = ir.get_vector(n_reg);
    let reg_m = ir.get_vector(m_reg);
    let bottom = ir.vector_deinterleave_even_lower(esize, reg_n, reg_m);
    let top = ir.vector_deinterleave_odd_lower(esize, reg_n, reg_m);
    let result = match (flag(inst, 4), flag(inst, 24)) {
        (false, false) => ir.vector_max_signed(esize, bottom, top),
        (false, true) => ir.vector_max_unsigned(esize, bottom, top),
        (true, false) => ir.vector_min_signed(esize, bottom, top),
        (true, true) => ir.vector_min_unsigned(esize, bottom, top),
    };
    ir.set_vector(d_reg, result);
    true
}

/// The upper half of a doubled product, for lanes of a halfword or a word.
pub open spec fn doubling_multiply_ir(s: EmitterState, inst: DecodedArm, operation: Opcode) -> (
    EmitterState,
    bool,
) {
    if int_size(inst) == 0 {
        undefined_vector_ir(s)
    } else {
        int_binary_ir(s, inst, operation)
    }
}

/// Translates the upper half of a doubled product.
pub fn arm_asimd_vqdmulh(ir: &mut A32IREmitter, inst: &DecodedArm) -> (r: bool)
    ensures
        (final(ir)@, r) == doubling_multiply_ir(
            old(ir)@,
            *inst,
            opcode::vector_signed_saturated_doubling_multiply_high(lane_size(int_size(*inst))),
        ),
{
    let sz: u32 = (inst.raw >> 20) & 3;
    let q = flag(inst, 6);
    let vd: u32 = field_vd(inst);
    let vn: u32 = field_vn(inst);
    let vm: u32 = field_vm(inst);
    if q && (vd & 1 != 0 || vn & 1 != 0 || vm & 1 != 0) {
        return report_exception(ir, Exception::UndefinedInstruction);
    }
    if sz == 0b00 || sz == 0b11 {
        return report_exception(ir, Exception::UndefinedInstruction);
    }
    let esize: usize = lane_size(sz);
    let d_reg = match to_vector_reg(q, flag(inst, 22), vd) {
        Some(found) => found,
        None => {
            return false;
        },
    };
    let n_reg = match to_vector_reg(q, flag(inst, 7), vn) {
        Some(found) => found,
        None => {
            return false;
        },
    };
    let m_reg = match to_vector_reg(q, flag(inst, 5), vm) {
        Some(found) => found,
        None => {
            return false;
        },
    };
    let reg_n = ir.get_vector(n_reg);
    let reg_m = ir.get_vector(m_reg);
    let result = ir.vector_signed_saturated_doubling_multiply_high(esize, reg_n, reg_m);
    ir.set_vector(d_reg, result);
    true
}

/// Translates the rounded upper half of a doubled product.
pub fn arm_asimd_vqrdmulh(ir: &mut A32IREmitter, inst: &DecodedArm) -> (r: bool)
    ensures
        (final(ir)@, r) == doubling_multiply_ir(
            old(ir)@,
            *inst,
            opcode::vector_signed_saturated_doubling_multiply_high_rounding(
                lane_size(int_size(*inst)),
            ),
        ),
{
    let sz: u32 = (inst.raw >> 20) & 3;
    let q = flag(inst, 6);
    let vd: u32 = field_vd(inst);
    let vn: u32 = field_vn(inst);
    let vm: u32 = field_vm(inst);
    if q && (vd & 1 != 0 || vn & 1 != 0 || vm & 1 != 0) {
        return report_exception(ir, Exception::UndefinedInstruction);
    }
    if sz == 0b00 || sz == 0b11 {
        return report_exception(ir, Exception::UndefinedInstruction);
    }
    let esize: usize = lane_size(sz);
    let d_reg = match to_vector_reg(q, flag(inst, 22), vd) {
        Some(found) => found,
        None => {
            return false;
        },
    };
    let n_reg = match to_vector_reg(q, flag(inst, 7), vn) {
        Some(found) => found,
        None => {
            return false;
        },
    };
    let m_reg = match to_vector_reg(q, flag(inst, 5), vm) {
        Some(found) => found,
        None => {
            return false;
        },
    };
    let reg_n = ir.get_vector(n_reg);
    let reg_m = ir.get_vector(m_reg);
    let result = ir.vector_signed_saturated_doubling_multiply_high_rounding(esize, reg_n, reg_m);
    ir.set_vector(d_reg, result);
    true
}

/// A sum or difference with lanes widened to twice their size: both operands
/// are double words (`widen_first`), or the first is a quad word already.
pub open spec fn wide_ir(s: EmitterState, inst: DecodedArm, widen_first: bool, subtract: bool) -> (
    EmitterState,
    bool,
) {
    let sz = int_size(inst);
    if sz == 3 || field_vd(&inst) & 1 != 0 || (!widen_first && field_vn(&inst) & 1 != 0) {
        undefined_vector_ir(s)
    } else {
        let esize = lane_size(sz);
        let extend = by_sign(
            inst,
            opcode::vector_zero_extend(esize),
            opcode::vector_sign_extend(esize),
        );
        let wide = (2 * esize) as usize;
        let (s, d) = s.get_vector(dest_reg(inst, true));
        let (s, m) = s.get_vector(m_reg(inst, false));
        let (s, n) = s.get_vector(n_reg(inst, !widen_first));
        let (s, wide_n) = s.op1(extend, n);
        let (s, wide_m) = s.op1(extend, m);
        let (s, result) = s.op2(
            if subtract {
                opcode::vector_sub(wide)
            } else {
                opcode::vector_add(wide)
            },
            if widen_first {
                wide_n
            } else {
                n
            },
            wide_m,
        );
        (s.set_vector(dest_reg(inst, true), result), true)
    }
}

fn wide_instruction(
    ir: &mut A32IREmitter,
    inst: &DecodedArm,
    widen_first: bool,
    subtract: bool,
) -> (
r: bool)
    ensures
        (final(ir)@, r) == wide_ir(old(ir)@, *inst, widen_first, subtract),
{
    let sz: u32 = (inst.raw >> 20) & 3;
    let u = flag(inst, 24);
    let vd: u32 = field_vd(inst);
    let vn: u32 = field_vn(inst);
    let vm: u32 = field_vm(inst);
    if sz == 0b11 {
        return report_exception(ir, Exception::UndefinedInstruction);
    }
    if vd & 1 != 0 || (!widen_first && vn & 1 != 0) {
        return report_exception(ir, Exception::UndefinedInstruction);
    }
    let esize: usize = lane_size(sz);
    let d_reg = match to_vector_reg(true, flag(inst, 22), vd) {
        Some(found) => found,
        None => {
            return false;
        },
    };
    let n_reg = match to_vector_reg(!widen_first, flag(inst, 7), vn) {
        Some(found) => found,
        None => {
            return false;
        },
    };
    let m_reg = match to_vector_reg(false, flag(inst, 5), vm) {
        Some(found) => found,
        None => {
            return false;
        },
    };
    let reg_d = ir.get_vector(d_reg);
    let reg_m = ir.get_vector(m_reg);
    let reg_n = ir.get_vector(n_reg);
    let wide_n = if u {
        ir.vector_zero_extend(esize, reg_n)
    } else {
        ir.vector_sign_extend(esize, reg_n)
    };
    let wide_m = if u {
        ir.vector_zero_extend(esize, reg_m)
    } else {
        ir.vector_sign_extend(esize, reg_m)
    };
    let first = if widen_first { wide_n } else { reg_n };
    let result = if subtract {
        ir.vector_sub(esize * 2, first, wide_m)
    } else {
        ir.vector_add(esize * 2, first, wide_m)
    };
    ir.set_vector(d_reg, result);
    true
}

/// Translates a widening sum.
pub fn arm_asimd_vaddl(ir: &mut A32IREmitter, inst: &DecodedArm) -> (r: bool)
    ensures
        (final(ir)@, r) == wide_ir(old(ir)@, *inst, !flag(inst, 8), false),
{
    let widen_first = !flag(inst, 8);
    wide_instruction(ir, inst, widen_first, false)
}

/// Translates a widening difference.
pub fn arm_asimd_vsubl(ir: &mut A32IREmitter, inst: &DecodedArm) -> (r: bool)
    ensures
        (final(ir)@, r) == wide_ir(old(ir)@, *inst, !flag(inst, 8), true),
{
    let widen_first = !flag(inst, 8);
    wide_instruction(ir, inst, widen_first, true)
}

/// The lanes of the lower half of a vector, widened to twice their size.
pub open spec fn widened_ir(s: EmitterState, esize: usize, value: Value) -> (EmitterState, Value) {
    let (s, lower) = s.op2(Opcode::VectorGetElement64, value, Value::ImmU8(0));
    let (s, quad) = s.op1(Opcode::ZeroExtendLongToQuad, lower);
    s.op1(opcode::vector_zero_extend(esize), quad)
}

/// The absolute difference of widened lanes, added to the destination if
/// asked for.
pub open spec fn absolute_difference_long_ir(
    s: EmitterState,
    inst: DecodedArm,
    accumulate: bool,
) -> (
    EmitterState,
    bool,
) {
    let sz = int_size(inst);
    if sz == 3 || field_vd(&inst) & 1 != 0 {
        undefined_vector_ir(s)
    } else {
        let esize = lane_size(sz);
        let (s, m) = s.get_vector(m_reg(inst, false));
        let (s, n) = s.get_vector(n_reg(inst, false));
        let (s, m) = widened_ir(s, esize, m);
        let (s, n) = widened_ir(s, esize, n);
        let (s, difference) = s.op2(
            by_sign(
                inst,
                opcode::vector_unsigned_absolute_difference(esize),
                opcode::vector_signed_absolute_difference(esize),
            ),
            m,
            n,
        );
        let (s, result) = if accumulate {
            let (s, d) = s.get_vector(dest_reg(inst, true));
            s.op2(opcode::vector_add((2 * esize) as usize), d, difference)
        } else {
            (s, difference)
        };
        (s.set_vector(dest_reg(inst, true), result), true)
    }
}

fn absolute_difference_long(ir: &mut A32IREmitter, inst: &DecodedArm, accumulate: bool) -> (r: bool)
    ensures
        (final(ir)@, r) == absolute_difference_long_ir(old(ir)@, *inst, accumulate),
{
    let sz: u32 = (inst.raw >> 20) & 3;
    let vd: u32 = field_vd(inst);
    let vn: u32 = field_vn(inst);
    let vm: u32 = field_vm(inst);
    if sz == 0b11 {
        return report_exception(ir, Exception::UndefinedInstruction);
    }
    if vd & 1 != 0 {
        return report_exception(ir, Exception::UndefinedInstruction);
    }
    let esize: usize = lane_size(sz);
    let d_reg = match to_vector_reg(true, flag(inst, 22), vd) {
        Some(found) => found,
        None => {
            return false;
        },
    };
    let n_reg = match to_vector_reg(false, flag(inst, 7), vn) {
        Some(found) => found,
        None => {
            return false;
        },
    };
    let m_reg = match to_vector_reg(false, flag(inst, 5), vm) {
        Some(found) => found,
        None => {
            return false;
        },
    };
    let reg_m = ir.get_vector(m_reg);
    let reg_n = ir.get_vector(n_reg);
    let elem_m = ir.vector_get_element(64, reg_m, 0);
    let quad_m = ir.zero_extend_to_quad(elem_m);
    let operand_m = ir.vector_zero_extend(esize, quad_m);
    let elem_n = ir.vector_get_element(64, reg_n, 0);
    let quad_n = ir.zero_extend_to_quad(elem_n);
    let operand_n = ir.vector_zero_extend(esize, quad_n);
    let absdiff = if flag(inst, 24) {
        ir.vector_unsigned_absolute_difference(esize, operand_m, operand_n)
    } else {
        ir.vector_signed_absolute_difference(esize, operand_m, operand_n)
    };
    let result = if accumulate {
        let reg_d = ir.get_vector(d_reg);
        ir.vector_add(2 * esize, reg_d, absdiff)
    } else {
        absdiff
    };
    ir.set_vector(d_reg, result);
    true
}

/// Translates a widening absolute difference with accumulation.
pub fn arm_asimd_vabal(ir: &mut A32IREmitter, inst: &DecodedArm) -> (r: bool)
    ensures
        (final(ir)@, r) == absolute_difference_long_ir(old(ir)@, *inst, true),
{
    absolute_difference_long(ir, inst, true)
}

/// Translates a widening absolute difference.
pub fn arm_asimd_vabdl(ir: &mut A32IREmitter, inst: &DecodedArm) -> (r: bool)
    ensures
        (final(ir)@, r) == absolute_difference_long_ir(old(ir)@, *inst, false),
{
    absolute_difference_long(ir, inst, false)
}

/// A widening product added to the destination, or taken from it if bit 9 is
/// set.
pub open spec fn arm_asimd_vmlal_ir(s: EmitterState, inst: DecodedArm) -> (EmitterState, bool) {
    let sz = int_size(inst);
    if sz == 3 || field_vd(&inst) & 1 != 0 {
        undefined_vector_ir(s)
    } else {
        let esize = lane_size(sz);
        let wide = (2 * esize) as usize;
        let (s, d) = s.get_vector(dest_reg(inst, true));
        let (s, m) = s.get_vector(m_reg(inst, false));
        let (s, n) = s.get_vector(n_reg(inst, false));
        let (s, product) = s.op2(
            by_sign(
                inst,
                opcode::vector_multiply_unsigned_widen(esize),
                opcode::vector_multiply_signed_widen(esize),
            ),
            n,
            m,
        );
        let (s, result) = if flag(&inst, 9) {
            s.op2(opcode::vector_sub(wide), d, product)
        } else {
            s.op2(opcode::vector_add(wide), d, product)
        };
        (s.set_vector(dest_reg(inst, true), result), true)
    }
}

/// Translates a widening product with accumulation.
pub fn arm_asimd_vmlal(ir: &mut A32IREmitter, inst: &DecodedArm) -> (r: bool)
    ensures
        (final(ir)@, r) == arm_asimd_vmlal_ir(old(ir)@, *inst),
{
    let sz: u32 = (inst.raw >> 20) & 3;
    let vd: u32 = field_vd(inst);
    let vn: u32 = field_vn(inst);
    let vm: u32 = field_vm(inst);
    if sz == 0b11 {
        return report_exception(ir, Exception::UndefinedInstruction);
    }
    if vd & 1 != 0 {
        return report_exception(ir, Exception::UndefinedInstruction);
    }
    let esize: usize = lane_size(sz);
    let d_reg = match to_vector_reg(true, flag(inst, 22), vd) {
        Some(found) => found,
        None => {
            return false;
        },
    };
    let n_reg = match to_vector_reg(false, flag(inst, 7), vn) {
        Some(found) => found,
        None => {
            return false;
        },
    };
    let m_reg = match to_vector_reg(false, flag(inst, 5), vm) {
        Some(found) => found,
        None => {
            return false;
        },
    };
    let reg_d = ir.get_vector(d_reg);
    let reg_m = ir.get_vector(m_reg);
    let reg_n = ir.get_vector(n_reg);
    let multiply = if flag(inst, 24) {
        ir.vector_multiply_unsigned_widen(esize, reg_n, reg_m)
    } else {
        ir.vector_multiply_signed_widen(esize, reg_n, reg_m)
    };
    let result = if flag(inst, 9) {
        ir.vector_sub(esize * 2, reg_d, multiply)
    } else {
        ir.vector_add(esize * 2, reg_d, multiply)
    };
    ir.set_vector(d_reg, result);
    true
}

/// A widening product of integers, or of polynomials if bit 9 is set; those
/// have lanes of a byte or of a double word, and no sign.
pub open spec fn arm_asimd_vmull_ir(s: EmitterState, inst: DecodedArm) -> (EmitterState, bool) {
    let sz = int_size(inst);
    let polynomial = flag(&inst, 9);
    if sz == 3 || (polynomial && (flag(&inst, 24) || sz == 2)) || field_vd(&inst) & 1 != 0 {
        undefined_vector_ir(s)
    } else {
        let esize = lane_size(sz);
        let operation = if polynomial {
            if sz == 0 {
                Opcode::VectorPolynomialMultiplyLong8
            } else {
                Opcode::VectorPolynomialMultiplyLong64
            }
        } else {
            by_sign(
                inst,
                opcode::vector_multiply_unsigned_widen(esize),
                opcode::vector_multiply_signed_widen(esize),
            )
        };
        let (s, n) = s.get_vector(n_reg(inst, false));
        let (s, m) = s.get_vector(m_reg(inst, false));
        let (s, result) = s.op2(operation, n, m);
        (s.set_vector(dest_reg(inst, true), result), true)
    }
}

/// Translates a widening product.
pub fn arm_asimd_vmull(ir: &mut A32IREmitter, inst: &DecodedArm) -> (r: bool)
    ensures
        (final(ir)@, r) == arm_asimd_vmull_ir(old(ir)@, *inst),
{
    let sz: u32 = (inst.raw >> 20) & 3;
    let u = flag(inst, 24);
    let p = flag(inst, 9);
    let vd: u32 = field_vd(inst);
    let vn: u32 = field_vn(inst);
    let vm: u32 = field_vm(inst);
    if sz == 0b11 {
        return report_exception(ir, Exception::UndefinedInstruction);
    }
    if (p && (u || sz == 0b10)) || vd & 1 != 0 {
        return report_exception(ir, Exception::UndefinedInstruction);
    }
    let esize: usize = if p {
        if sz == 0b00 {
            8
        } else {
            64
        }
    } else {
        lane_size(sz)
    };
    let d_reg = match to_vector_reg(true, flag(inst, 22), vd) {
        Some(found) => found,
        None => {
            return false;
        },
    };
    let n_reg = match to_vector_reg(false, flag(inst, 7), vn) {
        Some(found) => found,
        None => {
            return false;
        },
    };
    let m_reg = match to_vector_reg(false, flag(inst, 5), vm) {
        Some(found) => found,
        None => {
            return false;
        },
    };
    let reg_n = ir.get_vector(n_reg);
    let reg_m = ir.get_vector(m_reg);
    let result = if p {
        ir.vector_polynomial_multiply_long(esize, reg_n, reg_m)
    } else if u {
        ir.vector_multiply_unsigned_widen(esize, reg_n, reg_m)
    } else {
        ir.vector_multiply_signed_widen(esize, reg_n, reg_m)
    };
    ir.set_vector(d_reg, result);
    true
}

} // verus!
