//! Vector instructions that narrow the lanes of one register.

use vstd::prelude::*;
use super::asimd::{dest_reg, field_vd, field_vm, flag, lane_size, m_reg, to_vector_reg};
use super::{undefined_instruction, undefined_ir};
use crate::frontend::a32::decoder::DecodedArm;
use crate::ir::a32_emitter::{A32IREmitter, EmitterState};
use crate::ir::opcode;

verus! {

broadcast use crate::bits::and_le_mask;

/// The size of the wide lanes that are narrowed.
pub open spec fn wide_lane_size(inst: DecodedArm) -> usize {
    (2 * lane_size((inst.raw >> 18) & 3)) as usize
}

/// Whether narrowing is undefined: with the largest lanes, or from an odd
/// register.
pub open spec fn narrowing_undefined(inst: DecodedArm) -> bool {
    (inst.raw >> 18) & 3 == 3 || field_vm(&inst) & 1 != 0
}

/// Saturating narrowing of signed lanes, or of unsigned lanes if bit 6 is
/// set.
pub open spec fn arm_asimd_vqmovn_ir(s: EmitterState, inst: DecodedArm) -> (EmitterState, bool) {
    if narrowing_undefined(inst) {
        undefined_ir(s)
    } else {
        let esize = wide_lane_size(inst);
        let (s, m) = s.get_vector(m_reg(inst, true));
        let (s, result) = if flag(&inst, 6) {
            s.op1(opcode::vector_unsigned_saturated_narrow(esize), m)
        } else {
            s.op1(opcode::vector_signed_saturated_narrow_to_signed(esize), m)
        };
        (s.set_vector(dest_reg(inst, false), result), true)
    }
}

/// Translates saturating narrowing.
pub fn arm_asimd_vqmovn(ir: &mut A32IREmitter, inst: &DecodedArm) -> (r: bool)
    ensures
        (final(ir)@, r) == arm_asimd_vqmovn_ir(old(ir)@, *inst),
{
    let sz: u32 = (inst.raw >> 18) & 3;
    let vd: u32 = field_vd(inst);
    let vm: u32 = field_vm(inst);
    if sz == 3 || vm & 1 != 0 {
        return undefined_instruction(ir);
    }
    let esize: usize = 2 * lane_size(sz);
    let d_reg = match to_vector_reg(false, flag(inst, 22), vd) {
        Some(found) => found,
        None => {
            return undefined_instruction(ir);
        },
    };
    let m_reg = match to_vector_reg(true, flag(inst, 5), vm) {
        Some(found) => found,
        None => {
            return undefined_instruction(ir);
        },
    };
    let reg_m = ir.get_vector(m_reg);
    let result = if flag(inst, 6) {
        ir.vector_unsigned_saturated_narrow(esize, reg_m)
    } else {
        ir.vector_signed_saturated_narrow_to_signed(esize, reg_m)
    };
    ir.set_vector(d_reg, result);
    true
}

/// Narrowing of lanes to their lower halves.
pub open spec fn arm_asimd_vmovn_ir(s: EmitterState, inst: DecodedArm) -> (EmitterState, bool) {
    if narrowing_undefined(inst) {
        undefined_ir(s)
    } else {
        let (s, m) = s.get_vector(m_reg(inst, true));
        let (s, result) = s.op1(opcode::vector_narrow(wide_lane_size(inst)), m);
        (s.set_vector(dest_reg(inst, false), result), true)
    }
}

/// Translates narrowing.
pub fn arm_asimd_vmovn(ir: &mut A32IREmitter, inst: &DecodedArm) -> (r: bool)
    ensures
        (final(ir)@, r) == arm_asimd_vmovn_ir(old(ir)@, *inst),
{
    let sz: u32 = (inst.raw >> 18) & 3;
    let vd: u32 = field_vd(inst);
    let vm: u32 = field_vm(inst);
    if sz == 0b11 || vm & 1 != 0 {
        return undefined_instruction(ir);
    }
    let esize: usize = lane_size(sz);
    let d_reg = match to_vector_reg(false, flag(inst, 22), vd) {
        Some(found) => found,
        None => {
            return undefined_instruction(ir);
        },
    };
    let m_reg = match to_vector_reg(true, flag(inst, 5), vm) {
        Some(found) => found,
        None => {
            return undefined_instruction(ir);
        },
    };
    let reg_m = ir.get_vector(m_reg);
    let result = ir.vector_narrow(2 * esize, reg_m);
    ir.set_vector(d_reg, result);
    true
}

} // verus!
