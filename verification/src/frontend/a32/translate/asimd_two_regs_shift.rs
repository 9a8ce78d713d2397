//! Vector shifts by an immediate.

use vstd::prelude::*;
use super::asimd::{
    dest_reg, field_vd, field_vm, flag, m_reg, misaligned_dm, to_vector_reg,
};
use super::{
    decode_error, decode_error_ir, report_exception, report_ir, undefined_instruction, undefined_ir,
};
use crate::frontend::a32::decoder::DecodedArm;
use crate::frontend::a32::types::Exception;
use crate::ir::a32_emitter::{A32IREmitter, EmitterState};
use crate::ir::opcode;
use crate::ir::opcode::Opcode;
use crate::ir::value::Value;

verus! {

broadcast use crate::bits::and_le_mask;

/// The six bits that hold lane size and shift amount.
pub open spec fn shift_imm6(inst: DecodedArm) -> u32 {
    (inst.raw >> 16) & 0x3F
}

/// Whether the bits select no lane size. Such encodings belong to other
/// instructions.
pub open spec fn no_lane_size(l: bool, imm6: u32) -> bool {
    !l && imm6 < 8
}

/// The lane size: double words if `l` is set, else by the highest set bit of
/// the upper three bits.
pub open spec fn shift_lane_size(l: bool, imm6: u32) -> usize {
    if l {
        64
    } else if imm6 < 16 {
        8
    } else if imm6 < 32 {
        16
    } else {
        32
    }
}

/// The amount of a right shift, from one to the lane size.
pub open spec fn right_shift_amount(l: bool, imm6: u32) -> u8 {
    if l {
        (64 - imm6) as u8
    } else {
        (2 * shift_lane_size(l, imm6) - imm6) as u8
    }
}

/// The amount of a left shift, from zero to below the lane size.
pub open spec fn left_shift_amount(l: bool, imm6: u32) -> u8 {
    if l {
        imm6 as u8
    } else {
        (imm6 - shift_lane_size(l, imm6)) as u8
    }
}

/// A right shift moves by at least one place and at most the lane size; a
/// left shift by less than the lane size; for the same bits the two add up to
/// the lane size, which is one of four and that of a double word only if `l`
/// is set.
pub proof fn shift_amounts_fit_the_lane(l: bool, imm6: u32)
    requires
        imm6 < 64,
        !no_lane_size(l, imm6),
    ensures
        1 <= right_shift_amount(l, imm6) <= shift_lane_size(l, imm6),
        left_shift_amount(l, imm6) < shift_lane_size(l, imm6),
        right_shift_amount(l, imm6) + left_shift_amount(l, imm6) == shift_lane_size(l, imm6),
        shift_lane_size(l, imm6) == 64 <==> l,
        !l ==> shift_lane_size(l, imm6) == 8 || shift_lane_size(l, imm6) == 16 || shift_lane_size(
            l,
            imm6,
        ) == 32,
{
}

fn highest_set_bit(v: u32) -> (r: u32)
    requires
        v < 8,
    ensures
        r == if v < 2 {
            0u32
        } else if v < 4 {
            1u32
        } else {
            2u32
        },
{
    if v < 2 {
        0
    } else if v < 4 {
        1
    } else {
        2
    }
}

fn element_size_and_shift_amount(right_shift: bool, l: bool, imm6: u32) -> (r: (usize, u8))
    requires
        imm6 < 64,
        right_shift || !no_lane_size(l, imm6),
    ensures
        r.0 == shift_lane_size(l, imm6),
        r.1 == if right_shift {
            right_shift_amount(l, imm6)
        } else {
            left_shift_amount(l, imm6)
        },
{
    if right_shift {
        if l {
            return (64, (64 - imm6) as u8);
        }
        let esize: u32 = match highest_set_bit(imm6 / 8) {
            0 => 8,
            1 => 16,
            _ => 32,
        };
        (esize as usize, (esize * 2 - imm6) as u8)
    } else {
        if l {
            return (64, imm6 as u8);
        }
        let esize: u32 = match highest_set_bit(imm6 / 8) {
            0 => 8,
            1 => 16,
            _ => 32,
        };
        (esize as usize, (imm6 - esize) as u8)
    }
}

/// How a shift by an immediate is refused: without a lane size translation of
/// the block just ends; odd quad words are undefined.
pub open spec fn shift_refused(s: EmitterState, inst: DecodedArm) -> Option<(EmitterState, bool)> {
    if no_lane_size(flag(&inst, 7), shift_imm6(inst)) {
        Some((s, false))
    } else if misaligned_dm(inst, flag(&inst, 6)) {
        Some(report_ir(s, Exception::UndefinedInstruction))
    } else {
        None
    }
}

/// The operand shifted right, logically if bit 24 is set.
pub open spec fn shifted_right_ir(s: EmitterState, inst: DecodedArm) -> (EmitterState, Value) {
    let (l, imm6) = (flag(&inst, 7), shift_imm6(inst));
    let esize = shift_lane_size(l, imm6);
    let amount = Value::ImmU8(right_shift_amount(l, imm6));
    let (s, m) = s.get_vector(m_reg(inst, flag(&inst, 6)));
    if flag(&inst, 24) {
        s.op2(opcode::vector_logical_shift_right(esize), m, amount)
    } else {
        s.op2(opcode::vector_arithmetic_shift_right(esize), m, amount)
    }
}

/// A right shift.
pub open spec fn arm_asimd_shr_ir(s: EmitterState, inst: DecodedArm) -> (EmitterState, bool) {
    match shift_refused(s, inst) {
        Some(refusal) => refusal,
        None => {
            let (s, result) = shifted_right_ir(s, inst);
            (s.set_vector(dest_reg(inst, flag(&inst, 6)), result), true)
        },
    }
}

/// Translates a right shift.
pub fn arm_asimd_shr(ir: &mut A32IREmitter, inst: &DecodedArm) -> (r: bool)
    ensures
        (final(ir)@, r) == arm_asimd_shr_ir(old(ir)@, *inst),
{
    let imm6: u32 = (inst.raw >> 16) & 0x3F;
    let l = flag(inst, 7);
    let q = flag(inst, 6);
    let vd: u32 = field_vd(inst);
    let vm: u32 = field_vm(inst);
    if !l && imm6 / 8 == 0 {
        return false;
    }
    if q && (vd & 1 != 0 || vm & 1 != 0) {
        return report_exception(ir, Exception::UndefinedInstruction);
    }
    let (esize, shift_amount): (usize, u8) = element_size_and_shift_amount(true, l, imm6);
    let d_reg = match to_vector_reg(q, flag(inst, 22), vd) {
        Some(found) => found,
        None => {
            return false;
        },
    };
    let m_reg = match to_vector_reg(q, flag(inst, 5), vm) {
        Some(found) => found,
        None => {
            return false;
        },
    };
    let reg_m = ir.get_vector(m_reg);
    let result = if flag(inst, 24) {
        ir.vector_logical_shift_right(esize, reg_m, shift_amount)
    } else {
        ir.vector_arithmetic_shift_right(esize, reg_m, shift_amount)
    };
    ir.set_vector(d_reg, result);
    true
}

/// A right shift added to the destination.
pub open spec fn arm_asimd_sra_ir(s: EmitterState, inst: DecodedArm) -> (EmitterState, bool) {
    match shift_refused(s, inst) {
        Some(refusal) => refusal,
        None => {
            let dest = dest_reg(inst, flag(&inst, 6));
            let esize = shift_lane_size(flag(&inst, 7), shift_imm6(inst));
            let (s, shifted) = shifted_right_ir(s, inst);
            let (s, d) = s.get_vector(dest);
            let (s, result) = s.op2(opcode::vector_add(esize), shifted, d);
            (s.set_vector(dest, result), true)
        },
    }
}

/// Translates a right shift with accumulation.
pub fn arm_asimd_sra(ir: &mut A32IREmitter, inst: &DecodedArm) -> (r: bool)
    ensures
        (final(ir)@, r) == arm_asimd_sra_ir(old(ir)@, *inst),
{
    let imm6: u32 = (inst.raw >> 16) & 0x3F;
    let l = flag(inst, 7);
    let q = flag(inst, 6);
    let vd: u32 = field_vd(inst);
    let vm: u32 = field_vm(inst);
    if !l && imm6 / 8 == 0 {
        return false;
    }
    if q && (vd & 1 != 0 || vm & 1 != 0) {
        return report_exception(ir, Exception::UndefinedInstruction);
    }
    let (esize, shift_amount): (usize, u8) = element_size_and_shift_amount(true, l, imm6);
    let d_reg = match to_vector_reg(q, flag(inst, 22), vd) {
        Some(found) => found,
        None => {
            return false;
        },
    };
    let m_reg = match to_vector_reg(q, flag(inst, 5), vm) {
        Some(found) => found,
        None => {
            return false;
        },
    };
    let reg_m = ir.get_vector(m_reg);
    let shifted = if flag(inst, 24) {
        ir.vector_logical_shift_right(esize, reg_m, shift_amount)
    } else {
        ir.vector_arithmetic_shift_right(esize, reg_m, shift_amount)
    };
    let reg_d = ir.get_vector(d_reg);
    let result = ir.vector_add(esize, shifted, reg_d);
    ir.set_vector(d_reg, result);
    true
}

/// A right shift of the lanes of a quad word, narrowed to their lower halves.
pub open spec fn arm_asimd_vshrn_ir(s: EmitterState, inst: DecodedArm) -> (EmitterState, bool) {
    let imm6 = shift_imm6(inst);
    if imm6 < 8 {
        decode_error_ir(s)
    } else if field_vm(&inst) & 1 != 0 {
        undefined_ir(s)
    } else {
        let wide = (2 * shift_lane_size(false, imm6)) as usize;
        let amount = Value::ImmU8(right_shift_amount(false, imm6));
        let (s, m) = s.get_vector(m_reg(inst, true));
        let (s, shifted) = s.op2(opcode::vector_logical_shift_right(wide), m, amount);
        let (s, result) = s.op1(opcode::vector_narrow(wide), shifted);
        (s.set_vector(dest_reg(inst, false), result), true)
    }
}

/// Translates a narrowing right shift.
pub fn arm_asimd_vshrn(ir: &mut A32IREmitter, inst: &DecodedArm) -> (r: bool)
    ensures
        (final(ir)@, r) == arm_asimd_vshrn_ir(old(ir)@, *inst),
{
    let imm6: u32 = (inst.raw >> 16) & 0x3F;
    let vd: u32 = field_vd(inst);
    let vm: u32 = field_vm(inst);
    if imm6 / 8 == 0 {
        return decode_error(ir);
    }
    if vm & 1 != 0 {
        return undefined_instruction(ir);
    }
    let (esize, shift_amount): (usize, u8) = element_size_and_shift_amount(true, false, imm6);
    let source_esize: usize = 2 * esize;
    let d_reg = match to_vector_reg(false, flag(inst, 22), vd) {
        Some(found) => found,
        None => {
            return undefined_instruction(ir);
        },
    };
    let m_reg = match to_vector_reg(true, flag(inst, 5), vm) {
        Some(found) => found,
        None => {
            return undefined_instruction(ir);
        },
    };
    let reg_m = ir.get_vector(m_reg);
    let wide_result = ir.vector_logical_shift_right(source_esize, reg_m, shift_amount);
    let result = ir.vector_narrow(source_esize, wide_result);
    ir.set_vector(d_reg, result);
    true
}

/// A left shift.
pub open spec fn arm_asimd_vshl_imm_ir(s: EmitterState, inst: DecodedArm) -> (EmitterState, bool) {
    match shift_refused(s, inst) {
        Some(refusal) => refusal,
        None => {
            let (l, imm6, q) = (flag(&inst, 7), shift_imm6(inst), flag(&inst, 6));
            let (s, m) = s.get_vector(m_reg(inst, q));
            let (s, result) = s.op2(
                opcode::vector_logical_shift_left(shift_lane_size(l, imm6)),
                m,
                Value::ImmU8(left_shift_amount(l, imm6)),
            );
            (s.set_vector(dest_reg(inst, q), result), true)
        },
    }
}

/// Translates a left shift.
pub fn arm_asimd_vshl_imm(ir: &mut A32IREmitter, inst: &DecodedArm) -> (r: bool)
    ensures
        (final(ir)@, r) == arm_asimd_vshl_imm_ir(old(ir)@, *inst),
{
    let imm6: u32 = (inst.raw >> 16) & 0x3F;
    let l = flag(inst, 7);
    let q = flag(inst, 6);
    let vd: u32 = field_vd(inst);
    let vm: u32 = field_vm(inst);
    if !l && imm6 / 8 == 0 {
        return false;
    }
    if q && (vd & 1 != 0 || vm & 1 != 0) {
        return report_exception(ir, Exception::UndefinedInstruction);
    }
    let (esize, shift_amount): (usize, u8) = element_size_and_shift_amount(false, l, imm6);
    let d_reg = match to_vector_reg(q, flag(inst, 22), vd) {
        Some(found) => found,
        None => {
            return false;
        },
    };
    let m_reg = match to_vector_reg(q, flag(inst, 5), vm) {
        Some(found) => found,
        None => {
            return false;
        },
    };
    let reg_m = ir.get_vector(m_reg);
    let result = ir.vector_logical_shift_left(esize, reg_m, shift_amount);
    ir.set_vector(d_reg, result);
    true
}

/// All ones in a lane of at most a word.
#[verifier::allow_in_spec]
pub fn lane_ones(esize: usize) -> u64
    requires
        esize == 8 || esize == 16 || esize == 32,
    returns
        (if esize == 8 {
            0xFFu64
        } else if esize == 16 {
            0xFFFFu64
        } else {
            0xFFFF_FFFFu64
        }),
{
    match esize {
        8 => 0xFF,
        16 => 0xFFFF,
        _ => 0xFFFF_FFFF,
    }
}

/// Inserting the shifted operand into the destination: the bits of `mask` in
/// each lane are replaced.
pub open spec fn insert_ir(
    s: EmitterState,
    inst: DecodedArm,
    esize: usize,
    shift: Opcode,
    amount: u8,
    mask: u64,
) -> (EmitterState, bool) {
    let q = flag(&inst, 6);
    let dest = dest_reg(inst, q);
    let (s, m) = s.get_vector(m_reg(inst, q));
    let (s, d) = s.get_vector(dest);
    let (s, shifted) = s.op2(shift, m, Value::ImmU8(amount));
    let (s, masks) = s.op1(opcode::vector_broadcast(esize), Value::ImmU64(mask));
    let (s, kept) = s.op2(Opcode::VectorAndNot, d, masks);
    let (s, result) = s.op2(Opcode::VectorOr, kept, shifted);
    (s.set_vector(dest, result), true)
}

/// The bits that a right shift and insert replaces: all but the upper bits
/// that the shift leaves empty, and none if it moves all bits out.
pub open spec fn right_insert_mask(esize: usize, amount: u8) -> u64 {
    if amount == esize {
        0
    } else {
        lane_ones(esize) >> (amount as u64)
    }
}

/// A right shift and insert.
pub open spec fn arm_asimd_vsri_ir(s: EmitterState, inst: DecodedArm) -> (EmitterState, bool) {
    match shift_refused(s, inst) {
        Some(refusal) => refusal,
        None => {
            let (l, imm6) = (flag(&inst, 7), shift_imm6(inst));
            let esize = shift_lane_size(l, imm6);
            let amount = right_shift_amount(l, imm6);
            insert_ir(
                s,
                inst,
                esize,
                opcode::vector_logical_shift_right(esize),
                amount,
                right_insert_mask(esize, amount),
            )
        },
    }
}

/// Whether a right shift and insert has a mask: in double words only if all
/// bits move out.
pub open spec fn vsri_has_mask(inst: DecodedArm) -> bool {
    !flag(&inst, 7) || shift_imm6(inst) == 0 || misaligned_dm(inst, flag(&inst, 6))
}

/// Translates a right shift and insert.
pub fn arm_asimd_vsri(ir: &mut A32IREmitter, inst: &DecodedArm) -> (r: bool)
    requires
        vsri_has_mask(*inst),
    ensures
        (final(ir)@, r) == arm_asimd_vsri_ir(old(ir)@, *inst),
{
    let imm6: u32 = (inst.raw >> 16) & 0x3F;
    let l = flag(inst, 7);
    let q = flag(inst, 6);
    let vd: u32 = field_vd(inst);
    let vm: u32 = field_vm(inst);
    if !l && imm6 / 8 == 0 {
        return false;
    }
    if q && (vd & 1 != 0 || vm & 1 != 0) {
        return report_exception(ir, Exception::UndefinedInstruction);
    }
    let (esize, shift_amount): (usize, u8) = element_size_and_shift_amount(true, l, imm6);
    let mask: u64 = if shift_amount as usize == esize {
        0
    } else {
        lane_ones(esize) >> (shift_amount as u64)
    };
    let d_reg = match to_vector_reg(q, flag(inst, 22), vd) {
        Some(found) => found,
        None => {
            return false;
        },
    };
    let m_reg = match to_vector_reg(q, flag(inst, 5), vm) {
        Some(found) => found,
        None => {
            return false;
        },
    };
    let reg_m = ir.get_vector(m_reg);
    let reg_d = ir.get_vector(d_reg);
    let shifted = ir.vector_logical_shift_right(esize, reg_m, shift_amount);
    let mask_vec = ir.vector_broadcast(esize, Value::ImmU64(mask));
    let masked_d = ir.vector_and_not(reg_d, mask_vec);
    let result = ir.vector_or(masked_d, shifted);
    ir.set_vector(d_reg, result);
    true
}

/// A left shift and insert.
pub open spec fn arm_asimd_vsli_ir(s: EmitterState, inst: DecodedArm) -> (EmitterState, bool) {
    match shift_refused(s, inst) {
        Some(refusal) => refusal,
        None => {
            let (l, imm6) = (flag(&inst, 7), shift_imm6(inst));
            let esize = shift_lane_size(l, imm6);
            let amount = left_shift_amount(l, imm6);
            insert_ir(
                s,
                inst,
                esize,
                opcode::vector_logical_shift_left(esize),
                amount,
                lane_ones(esize) << (amount as u64),
            )
        },
    }
}

/// Whether a left shift and insert has a mask: not in double words.
pub open spec fn vsli_has_mask(inst: DecodedArm) -> bool {
    !flag(&inst, 7) || misaligned_dm(inst, flag(&inst, 6))
}

/// Translates a left shift and insert.
pub fn arm_asimd_vsli(ir: &mut A32IREmitter, inst: &DecodedArm) -> (r: bool)
    requires
        vsli_has_mask(*inst),
    ensures
        (final(ir)@, r) == arm_asimd_vsli_ir(old(ir)@, *inst),
{
    let imm6: u32 = (inst.raw >> 16) & 0x3F;
    let l = flag(inst, 7);
    let q = flag(inst, 6);
    let vd: u32 = field_vd(inst);
    let vm: u32 = field_vm(inst);
    if !l && imm6 / 8 == 0 {
        return false;
    }
    if q && (vd & 1 != 0 || vm & 1 != 0) {
        return report_exception(ir, Exception::UndefinedInstruction);
    }
    let (esize, shift_amount): (usize, u8) = element_size_and_shift_amount(false, l, imm6);
    let mask: u64 = lane_ones(esize) << (shift_amount as u64);
    let d_reg = match to_vector_reg(q, flag(inst, 22), vd) {
        Some(found) => found,
        None => {
            return false;
        },
    };
    let m_reg = match to_vector_reg(q, flag(inst, 5), vm) {
        Some(found) => found,
        None => {
            return false;
        },
    };
    let reg_m = ir.get_vector(m_reg);
    let reg_d = ir.get_vector(d_reg);
    let shifted = ir.vector_logical_shift_left(esize, reg_m, shift_amount);
    let mask_vec = ir.vector_broadcast(esize, Value::ImmU64(mask));
    let masked_d = ir.vector_and_not(reg_d, mask_vec);
    let result = ir.vector_or(masked_d, shifted);
    ir.set_vector(d_reg, result);
    true
}

/// A saturating left shift: of unsigned lanes (bits 24 and 8), of signed lanes
/// with unsigned results (bit 24 alone) or of signed lanes (bit 8 alone).
pub open spec fn arm_asimd_vqshl_imm_ir(s: EmitterState, inst: DecodedArm) -> (EmitterState, bool) {
    let (u, op) = (flag(&inst, 24), flag(&inst, 8));
    match shift_refused(s, inst) {
        Some(refusal) => refusal,
        None => if !u && !op {
            report_ir(s, Exception::UndefinedInstruction)
        } else {
            let (l, imm6, q) = (flag(&inst, 7), shift_imm6(inst), flag(&inst, 6));
            let esize = shift_lane_size(l, imm6);
            let amount = left_shift_amount(l, imm6);
            let (s, m) = s.get_vector(m_reg(inst, q));
            let (s, amounts) = s.op1(
                opcode::vector_broadcast(esize),
                Value::ImmU64(amount as u64),
            );
            let (s, result) = if u && op {
                s.op2(opcode::vector_unsigned_saturated_shift_left(esize), m, amounts)
            } else if u {
                s.op2(
                    opcode::vector_signed_saturated_shift_left_unsigned(esize),
                    m,
                    Value::ImmU8(amount),
                )
            } else {
                s.op2(opcode::vector_signed_saturated_shift_left(esize), m, amounts)
            };
            (s.set_vector(dest_reg(inst, q), result), true)
        },
    }
}

/// Translates a saturating left shift.
pub fn arm_asimd_vqshl_imm(ir: &mut A32IREmitter, inst: &DecodedArm) -> (r: bool)
    ensures
        (final(ir)@, r) == arm_asimd_vqshl_imm_ir(old(ir)@, *inst),
{
    let u = flag(inst, 24);
    let op = flag(inst, 8);
    let imm6: u32 = (inst.raw >> 16) & 0x3F;
    let l = flag(inst, 7);
    let q = flag(inst, 6);
    let vd: u32 = field_vd(inst);
    let vm: u32 = field_vm(inst);
    if !l && imm6 / 8 == 0 {
        return false;
    }
    if q && (vd & 1 != 0 || vm & 1 != 0) {
        return report_exception(ir, Exception::UndefinedInstruction);
    }
    if !u && !op {
        return report_exception(ir, Exception::UndefinedInstruction);
    }
    let (esize, shift_amount): (usize, u8) = element_size_and_shift_amount(false, l, imm6);
    let d_reg = match to_vector_reg(q, flag(inst, 22), vd) {
        Some(found) => found,
        None => {
            return false;
        },
    };
    let m_reg = match to_vector_reg(q, flag(inst, 5), vm) {
        Some(found) => found,
        None => {
            return false;
        },
    };
    let reg_m = ir.get_vector(m_reg);
    let shift_vec = ir.vector_broadcast(esize, Value::ImmU64(shift_amount as u64));
    let result = if u {
        if op {
            ir.vector_unsigned_saturated_shift_left(esize, reg_m, shift_vec)
        } else {
            ir.vector_signed_saturated_shift_left_unsigned(esize, reg_m, shift_amount)
        }
    } else {
        ir.vector_signed_saturated_shift_left(esize, reg_m, shift_vec)
    };
    ir.set_vector(d_reg, result);
    true
}

} // verus!
