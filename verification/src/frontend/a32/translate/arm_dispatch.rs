//! Translation of ARM instructions by their kind.

use vstd::prelude::*;
use super::a32_crc32;
use super::asimd;
use super::asimd_three_regs;
use super::asimd_two_regs_misc;
use super::asimd_two_regs_shift;
use super::branch;
use super::coprocessor;
use super::data_processing;
use super::exception;
use super::helpers;
use super::hint;
use super::load_store;
use super::multiply;
use super::status_register;
use super::synchronization;
use super::{
    TranslationOptions, interpret_ir, interpret_this_instruction, undefined_instruction,
    undefined_ir, unpredictable_ir,
};
use crate::frontend::a32::decoder::{ArmInstId, DecodedArm};
use crate::frontend::a32::types::Exception;
use crate::frontend::a32::types::Reg;
use crate::ir::a32_emitter::{A32IREmitter, EmitterState};
use crate::ir::acc_type::AccType;
use crate::ir::opcode;
use crate::ir::opcode::Opcode;

verus! {

broadcast use crate::bits::and_le_mask;

/// Whether the operands of an instruction are among those that are
/// translated.
pub open spec fn arm_translatable(inst: DecodedArm) -> bool {
    &&& (inst.id == ArmInstId::LDR_imm || inst.id == ArmInstId::LDRB_imm
        || inst.id == ArmInstId::LDRH_imm || inst.id == ArmInstId::LDRSB_imm
        || inst.id == ArmInstId::LDRSH_imm) ==>
        inst.rn() == Reg::R15 || !load_store::is_t_form(inst)
    &&& (inst.id == ArmInstId::LDR_reg || inst.id == ArmInstId::LDRB_reg
        || inst.id == ArmInstId::LDRH_lit || inst.id == ArmInstId::LDRH_reg
        || inst.id == ArmInstId::LDRSB_reg || inst.id == ArmInstId::LDRSH_reg) ==>
        !load_store::is_t_form(inst)
    &&& (inst.id == ArmInstId::STRD_imm || inst.id == ArmInstId::STRD_reg) ==> inst.rt() != Reg::R15
    &&& (inst.id == ArmInstId::ASIMD_VSLI) ==> asimd_two_regs_shift::vsli_has_mask(inst)
    &&& (inst.id == ArmInstId::ASIMD_VSRI) ==> asimd_two_regs_shift::vsri_has_mask(inst)
}

/// The translation of vector instructions.
#[verifier::opaque]
pub open spec fn arm_vector_ir(s: EmitterState, inst: DecodedArm) -> (EmitterState, bool) {
    match inst.id {
        ArmInstId::ASIMD_VMOV_imm => asimd::arm_asimd_vmov_imm_ir(s, inst),
        ArmInstId::ASIMD_VMOVN => asimd_two_regs_misc::arm_asimd_vmovn_ir(s, inst),
        ArmInstId::ASIMD_VHADD => asimd_three_regs::int_binary_ir(
            s,
            inst,
            asimd_three_regs::by_sign(
                inst,
                opcode::vector_halving_add_unsigned(
                    asimd::lane_size(asimd_three_regs::int_size(inst)),
                ),
                opcode::vector_halving_add_signed(
                    asimd::lane_size(asimd_three_regs::int_size(inst)),
                ),
            ),
        ),
        ArmInstId::ASIMD_VQADD => asimd_three_regs::int_binary_ir(
            s,
            inst,
            asimd_three_regs::by_sign(
                inst,
                opcode::vector_unsigned_saturated_add(
                    asimd::lane_size(asimd_three_regs::int_size(inst)),
                ),
                opcode::vector_signed_saturated_add(
                    asimd::lane_size(asimd_three_regs::int_size(inst)),
                ),
            ),
        ),
        ArmInstId::ASIMD_VRHADD => asimd_three_regs::int_binary_ir(
            s,
            inst,
            asimd_three_regs::by_sign(
                inst,
                opcode::vector_rounding_halving_add_unsigned(
                    asimd::lane_size(asimd_three_regs::int_size(inst)),
                ),
                opcode::vector_rounding_halving_add_signed(
                    asimd::lane_size(asimd_three_regs::int_size(inst)),
                ),
            ),
        ),
        ArmInstId::ASIMD_VHSUB => asimd_three_regs::int_binary_ir(
            s,
            inst,
            asimd_three_regs::by_sign(
                inst,
                opcode::vector_halving_sub_unsigned(
                    asimd::lane_size(asimd_three_regs::int_size(inst)),
                ),
                opcode::vector_halving_sub_signed(
                    asimd::lane_size(asimd_three_regs::int_size(inst)),
                ),
            ),
        ),
        ArmInstId::ASIMD_VQSUB => asimd_three_regs::int_binary_ir(
            s,
            inst,
            asimd_three_regs::by_sign(
                inst,
                opcode::vector_unsigned_saturated_sub(
                    asimd::lane_size(asimd_three_regs::int_size(inst)),
                ),
                opcode::vector_signed_saturated_sub(
                    asimd::lane_size(asimd_three_regs::int_size(inst)),
                ),
            ),
        ),
        ArmInstId::ASIMD_VCGT_reg_int => asimd_three_regs::integer_comparison_ir(
            s,
            inst,
            asimd_three_regs::Comparison::GreaterThan,
        ),
        ArmInstId::ASIMD_VCGE_reg_int => asimd_three_regs::integer_comparison_ir(
            s,
            inst,
            asimd_three_regs::Comparison::GreaterEqual,
        ),
        ArmInstId::ASIMD_VSHL_reg => asimd_three_regs::int_shift_ir(
            s,
            inst,
            asimd_three_regs::by_sign(
                inst,
                opcode::vector_logical_v_shift(asimd::lane_size(asimd_three_regs::int_size(inst))),
                opcode::vector_arithmetic_v_shift(
                    asimd::lane_size(asimd_three_regs::int_size(inst)),
                ),
            ),
        ),
        ArmInstId::ASIMD_VQSHL_reg => asimd_three_regs::int_shift_ir(
            s,
            inst,
            asimd_three_regs::by_sign(
                inst,
                opcode::vector_unsigned_saturated_shift_left(
                    asimd::lane_size(asimd_three_regs::int_size(inst)),
                ),
                opcode::vector_signed_saturated_shift_left(
                    asimd::lane_size(asimd_three_regs::int_size(inst)),
                ),
            ),
        ),
        ArmInstId::ASIMD_VRSHL => asimd_three_regs::int_shift_ir(
            s,
            inst,
            asimd_three_regs::by_sign(
                inst,
                opcode::vector_rounding_shift_left_unsigned(
                    asimd::lane_size(asimd_three_regs::int_size(inst)),
                ),
                opcode::vector_rounding_shift_left_signed(
                    asimd::lane_size(asimd_three_regs::int_size(inst)),
                ),
            ),
        ),
        ArmInstId::ASIMD_VMAX_int | ArmInstId::ASIMD_VMIN_int => asimd_three_regs::int_binary_ir(
            s,
            inst,
            asimd_three_regs::max_min_opcode(inst),
        ),
        ArmInstId::ASIMD_VABD_int => asimd_three_regs::absolute_difference_ir(s, inst, false),
        ArmInstId::ASIMD_VABA => asimd_three_regs::absolute_difference_ir(s, inst, true),
        ArmInstId::ASIMD_VADD_int => asimd_three_regs::int_binary_ir(
            s,
            inst,
            opcode::vector_add(asimd::lane_size(asimd_three_regs::int_size(inst))),
        ),
        ArmInstId::ASIMD_VSUB_int => asimd_three_regs::int_binary_ir(
            s,
            inst,
            opcode::vector_sub(asimd::lane_size(asimd_three_regs::int_size(inst))),
        ),
        ArmInstId::ASIMD_VTST => asimd_three_regs::arm_asimd_vtst_ir(s, inst),
        ArmInstId::ASIMD_VCEQ_reg_int => asimd_three_regs::integer_comparison_ir(
            s,
            inst,
            asimd_three_regs::Comparison::Equal,
        ),
        ArmInstId::ASIMD_VMLA_int => asimd_three_regs::arm_asimd_vmla_int_ir(s, inst),
        ArmInstId::ASIMD_VMUL_int => asimd_three_regs::arm_asimd_vmul_int_ir(s, inst),
        ArmInstId::ASIMD_VPMAX_int => asimd_three_regs::arm_asimd_vpmax_int_ir(s, inst),
        ArmInstId::ASIMD_VQDMULH => asimd_three_regs::doubling_multiply_ir(
            s,
            inst,
            opcode::vector_signed_saturated_doubling_multiply_high(
                asimd::lane_size(asimd_three_regs::int_size(inst)),
            ),
        ),
        ArmInstId::ASIMD_VQRDMULH => asimd_three_regs::doubling_multiply_ir(
            s,
            inst,
            opcode::vector_signed_saturated_doubling_multiply_high_rounding(
                asimd::lane_size(asimd_three_regs::int_size(inst)),
            ),
        ),
        ArmInstId::ASIMD_VPADD_int => asimd_three_regs::arm_asimd_vpadd_int_ir(s, inst),
        ArmInstId::ASIMD_VAND_reg => asimd_three_regs::arm_asimd_vand_reg_ir(s, inst),
        ArmInstId::ASIMD_VBIC_reg => asimd_three_regs::bitwise_ir(
            s,
            inst,
            false,
            asimd_three_regs::BitwiseOp::AndNot,
        ),
        ArmInstId::ASIMD_VORR_reg => asimd_three_regs::bitwise_ir(
            s,
            inst,
            false,
            asimd_three_regs::BitwiseOp::Or,
        ),
        ArmInstId::ASIMD_VORN_reg => asimd_three_regs::bitwise_ir(
            s,
            inst,
            false,
            asimd_three_regs::BitwiseOp::OrNot,
        ),
        ArmInstId::ASIMD_VEOR_reg => asimd_three_regs::bitwise_ir(
            s,
            inst,
            false,
            asimd_three_regs::BitwiseOp::Eor,
        ),
        ArmInstId::ASIMD_VBSL => asimd_three_regs::bitwise_ir(
            s,
            inst,
            true,
            asimd_three_regs::BitwiseOp::Select,
        ),
        ArmInstId::ASIMD_VBIT => asimd_three_regs::bitwise_ir(
            s,
            inst,
            true,
            asimd_three_regs::BitwiseOp::InsertIfTrue,
        ),
        ArmInstId::ASIMD_VBIF => asimd_three_regs::bitwise_ir(
            s,
            inst,
            true,
            asimd_three_regs::BitwiseOp::InsertIfFalse,
        ),
        ArmInstId::ASIMD_VFMA => asimd_three_regs::float_instruction_ir(
            s,
            inst,
            asimd_three_regs::FloatOp::Fma,
        ),
        ArmInstId::ASIMD_VFMS => asimd_three_regs::float_instruction_ir(
            s,
            inst,
            asimd_three_regs::FloatOp::Fms,
        ),
        ArmInstId::ASIMD_VADD_float => asimd_three_regs::float_instruction_ir(
            s,
            inst,
            asimd_three_regs::FloatOp::Add,
        ),
        ArmInstId::ASIMD_VSUB_float => asimd_three_regs::float_instruction_ir(
            s,
            inst,
            asimd_three_regs::FloatOp::Sub,
        ),
        ArmInstId::ASIMD_VMLA_float => asimd_three_regs::float_instruction_ir(
            s,
            inst,
            asimd_three_regs::FloatOp::Mla,
        ),
        ArmInstId::ASIMD_VMLS_float => asimd_three_regs::float_instruction_ir(
            s,
            inst,
            asimd_three_regs::FloatOp::Mls,
        ),
        ArmInstId::ASIMD_VPADD_float => asimd_three_regs::paired_float_ir(
            s,
            inst,
            asimd_three_regs::FloatOp::PairedAdd,
        ),
        ArmInstId::ASIMD_VABD_float => asimd_three_regs::float_instruction_ir(
            s,
            inst,
            asimd_three_regs::FloatOp::AbsoluteDifference,
        ),
        ArmInstId::ASIMD_VMUL_float => asimd_three_regs::float_instruction_ir(
            s,
            inst,
            asimd_three_regs::FloatOp::Mul,
        ),
        ArmInstId::ASIMD_VCEQ_reg_float => asimd_three_regs::float_instruction_ir(
            s,
            inst,
            asimd_three_regs::FloatOp::Equal,
        ),
        ArmInstId::ASIMD_VCGE_reg_float => asimd_three_regs::float_instruction_ir(
            s,
            inst,
            asimd_three_regs::FloatOp::GreaterEqual,
        ),
        ArmInstId::ASIMD_VCGT_reg_float => asimd_three_regs::float_instruction_ir(
            s,
            inst,
            asimd_three_regs::FloatOp::Greater,
        ),
        ArmInstId::ASIMD_VACGE => asimd_three_regs::arm_asimd_vacge_ir(s, inst),
        ArmInstId::ASIMD_VMAX_float => asimd_three_regs::float_instruction_ir(
            s,
            inst,
            asimd_three_regs::FloatOp::Max,
        ),
        ArmInstId::ASIMD_VMIN_float => asimd_three_regs::float_instruction_ir(
            s,
            inst,
            asimd_three_regs::FloatOp::Min,
        ),
        ArmInstId::ASIMD_VPMAX_float => asimd_three_regs::paired_float_ir(
            s,
            inst,
            asimd_three_regs::FloatOp::PairedMax,
        ),
        ArmInstId::ASIMD_VPMIN_float => asimd_three_regs::paired_float_ir(
            s,
            inst,
            asimd_three_regs::FloatOp::PairedMin,
        ),
        ArmInstId::ASIMD_VRECPS => asimd_three_regs::float_instruction_ir(
            s,
            inst,
            asimd_three_regs::FloatOp::RecipStep,
        ),
        ArmInstId::ASIMD_VRSQRTS => asimd_three_regs::float_instruction_ir(
            s,
            inst,
            asimd_three_regs::FloatOp::RSqrtStep,
        ),
        ArmInstId::ASIMD_VADDL => asimd_three_regs::wide_ir(s, inst, !asimd::flag(&inst, 8), false),
        ArmInstId::ASIMD_VSUBL => asimd_three_regs::wide_ir(s, inst, !asimd::flag(&inst, 8), true),
        ArmInstId::ASIMD_VABAL => asimd_three_regs::absolute_difference_long_ir(s, inst, true),
        ArmInstId::ASIMD_VABDL => asimd_three_regs::absolute_difference_long_ir(s, inst, false),
        ArmInstId::ASIMD_VMLAL => asimd_three_regs::arm_asimd_vmlal_ir(s, inst),
        ArmInstId::ASIMD_VMULL => asimd_three_regs::arm_asimd_vmull_ir(s, inst),
        ArmInstId::ASIMD_VMLA_scalar => asimd::arm_asimd_vmla_scalar_ir(s, inst),
        ArmInstId::ASIMD_VMUL_scalar => asimd::arm_asimd_vmul_scalar_ir(s, inst),
        ArmInstId::ASIMD_VDUP_scalar => asimd::arm_asimd_vdup_scalar_ir(s, inst),
        ArmInstId::ASIMD_VCVT_integer => asimd::arm_asimd_vcvt_integer_ir(s, inst),
        ArmInstId::ASIMD_VTRN => asimd::arm_asimd_vtrn_ir(s, inst),
        ArmInstId::ASIMD_VTBL => asimd::table_lookup_ir(s, inst, true),
        ArmInstId::ASIMD_VTBX => asimd::table_lookup_ir(s, inst, false),
        ArmInstId::ASIMD_SHR => asimd_two_regs_shift::arm_asimd_shr_ir(s, inst),
        ArmInstId::ASIMD_SRA => asimd_two_regs_shift::arm_asimd_sra_ir(s, inst),
        ArmInstId::ASIMD_VSHRN => asimd_two_regs_shift::arm_asimd_vshrn_ir(s, inst),
        ArmInstId::ASIMD_VSHL_imm => asimd_two_regs_shift::arm_asimd_vshl_imm_ir(s, inst),
        ArmInstId::ASIMD_VSLI => asimd_two_regs_shift::arm_asimd_vsli_ir(s, inst),
        ArmInstId::ASIMD_VSRI => asimd_two_regs_shift::arm_asimd_vsri_ir(s, inst),
        ArmInstId::ASIMD_VQSHL_imm => asimd_two_regs_shift::arm_asimd_vqshl_imm_ir(s, inst),
        ArmInstId::V8_VST_multiple => asimd::arm_v8_vst_multiple_ir(s, inst),
        ArmInstId::V8_VLD_multiple => asimd::arm_v8_vld_multiple_ir(s, inst),
        ArmInstId::V8_VST_single => asimd::arm_v8_vst_single_ir(s, inst),
        ArmInstId::V8_VLD_single => asimd::arm_v8_vld_single_ir(s, inst),
        ArmInstId::V8_VLD_all_lanes => asimd::arm_v8_vld_all_lanes_ir(s, inst),
        ArmInstId::ASIMD_VEXT => asimd::arm_asimd_vext_ir(s, inst),
        ArmInstId::ASIMD_VUZP => asimd::arm_asimd_vuzp_ir(s, inst),
        ArmInstId::ASIMD_VZIP => asimd::arm_asimd_vzip_ir(s, inst),
        ArmInstId::ASIMD_VCGT_zero => asimd::compare_with_zero_ir(
            s,
            inst,
            asimd::Comparison::Greater,
        ),
        ArmInstId::ASIMD_VCGE_zero => asimd::compare_with_zero_ir(
            s,
            inst,
            asimd::Comparison::GreaterEqual,
        ),
        ArmInstId::ASIMD_VCEQ_zero => asimd::compare_with_zero_ir(
            s,
            inst,
            asimd::Comparison::Equal,
        ),
        ArmInstId::ASIMD_VCLE_zero => asimd::compare_with_zero_ir(
            s,
            inst,
            asimd::Comparison::LessEqual,
        ),
        ArmInstId::ASIMD_VCLT_zero => asimd::compare_with_zero_ir(s, inst, asimd::Comparison::Less),
        ArmInstId::ASIMD_VRECPE => asimd::arm_asimd_vrecpe_ir(s, inst),
        ArmInstId::ASIMD_VRSQRTE => asimd::arm_asimd_vrsqrte_ir(s, inst),
        ArmInstId::ASIMD_VNEG_int => asimd::arm_asimd_vneg_int_ir(s, inst),
        ArmInstId::ASIMD_VABS_int => asimd::arm_asimd_vabs_int_ir(s, inst),
        ArmInstId::ASIMD_VQMOVN => asimd_two_regs_misc::arm_asimd_vqmovn_ir(s, inst),
        _ => undefined_ir(s),
    }
}

/// Translates vector instructions.
#[verifier::rlimit(40)]
fn translate_arm_vector(ir: &mut A32IREmitter, inst: &DecodedArm) -> (r: bool)
    requires
        arm_translatable(*inst),
    ensures
        (final(ir)@, r) == arm_vector_ir(old(ir)@, *inst),
{
    proof {
        reveal(arm_vector_ir);
    }
    match inst.id {
        ArmInstId::ASIMD_VMOV_imm => asimd::arm_asimd_vmov_imm(ir, inst),
        ArmInstId::ASIMD_VMOVN => asimd_two_regs_misc::arm_asimd_vmovn(ir, inst),
        ArmInstId::ASIMD_VHADD => asimd_three_regs::arm_asimd_vhadd(ir, inst),
        ArmInstId::ASIMD_VQADD => asimd_three_regs::arm_asimd_vqadd(ir, inst),
        ArmInstId::ASIMD_VRHADD => asimd_three_regs::arm_asimd_vrhadd(ir, inst),
        ArmInstId::ASIMD_VHSUB => asimd_three_regs::arm_asimd_vhsub(ir, inst),
        ArmInstId::ASIMD_VQSUB => asimd_three_regs::arm_asimd_vqsub(ir, inst),
        ArmInstId::ASIMD_VCGT_reg_int => asimd_three_regs::arm_asimd_vcgt_reg_int(ir, inst),
        ArmInstId::ASIMD_VCGE_reg_int => asimd_three_regs::arm_asimd_vcge_reg_int(ir, inst),
        ArmInstId::ASIMD_VSHL_reg => asimd_three_regs::arm_asimd_vshl_reg(ir, inst),
        ArmInstId::ASIMD_VQSHL_reg => asimd_three_regs::arm_asimd_vqshl_reg(ir, inst),
        ArmInstId::ASIMD_VRSHL => asimd_three_regs::arm_asimd_vrshl(ir, inst),
        ArmInstId::ASIMD_VMAX_int | ArmInstId::ASIMD_VMIN_int => {
            asimd_three_regs::arm_asimd_vmax_min_int(ir, inst)
        },
        ArmInstId::ASIMD_VABD_int => asimd_three_regs::arm_asimd_vabd_int(ir, inst),
        ArmInstId::ASIMD_VABA => asimd_three_regs::arm_asimd_vaba(ir, inst),
        ArmInstId::ASIMD_VADD_int => asimd_three_regs::arm_asimd_vadd_int(ir, inst),
        ArmInstId::ASIMD_VSUB_int => asimd_three_regs::arm_asimd_vsub_int(ir, inst),
        ArmInstId::ASIMD_VTST => asimd_three_regs::arm_asimd_vtst(ir, inst),
        ArmInstId::ASIMD_VCEQ_reg_int => asimd_three_regs::arm_asimd_vceq_reg_int(ir, inst),
        ArmInstId::ASIMD_VMLA_int => asimd_three_regs::arm_asimd_vmla_int(ir, inst),
        ArmInstId::ASIMD_VMUL_int => asimd_three_regs::arm_asimd_vmul_int(ir, inst),
        ArmInstId::ASIMD_VPMAX_int => asimd_three_regs::arm_asimd_vpmax_int(ir, inst),
        ArmInstId::ASIMD_VQDMULH => asimd_three_regs::arm_asimd_vqdmulh(ir, inst),
        ArmInstId::ASIMD_VQRDMULH => asimd_three_regs::arm_asimd_vqrdmulh(ir, inst),
        ArmInstId::ASIMD_VPADD_int => asimd_three_regs::arm_asimd_vpadd_int(ir, inst),
        ArmInstId::ASIMD_VAND_reg => asimd_three_regs::arm_asimd_vand_reg(ir, inst),
        ArmInstId::ASIMD_VBIC_reg => asimd_three_regs::arm_asimd_vbic_reg(ir, inst),
        ArmInstId::ASIMD_VORR_reg => asimd_three_regs::arm_asimd_vorr_reg(ir, inst),
        ArmInstId::ASIMD_VORN_reg => asimd_three_regs::arm_asimd_vorn_reg(ir, inst),
        ArmInstId::ASIMD_VEOR_reg => asimd_three_regs::arm_asimd_veor_reg(ir, inst),
        ArmInstId::ASIMD_VBSL => asimd_three_regs::arm_asimd_vbsl(ir, inst),
        ArmInstId::ASIMD_VBIT => asimd_three_regs::arm_asimd_vbit(ir, inst),
        ArmInstId::ASIMD_VBIF => asimd_three_regs::arm_asimd_vbif(ir, inst),
        ArmInstId::ASIMD_VFMA => asimd_three_regs::arm_asimd_vfma(ir, inst),
        ArmInstId::ASIMD_VFMS => asimd_three_regs::arm_asimd_vfms(ir, inst),
        ArmInstId::ASIMD_VADD_float => asimd_three_regs::arm_asimd_vadd_float(ir, inst),
        ArmInstId::ASIMD_VSUB_float => asimd_three_regs::arm_asimd_vsub_float(ir, inst),
        ArmInstId::ASIMD_VMLA_float => asimd_three_regs::arm_asimd_vmla_float(ir, inst),
        ArmInstId::ASIMD_VMLS_float => asimd_three_regs::arm_asimd_vmls_float(ir, inst),
        ArmInstId::ASIMD_VPADD_float => asimd_three_regs::arm_asimd_vpadd_float(ir, inst),
        ArmInstId::ASIMD_VABD_float => asimd_three_regs::arm_asimd_vabd_float(ir, inst),
        ArmInstId::ASIMD_VMUL_float => asimd_three_regs::arm_asimd_vmul_float(ir, inst),
        ArmInstId::ASIMD_VCEQ_reg_float => asimd_three_regs::arm_asimd_vceq_reg_float(ir, inst),
        ArmInstId::ASIMD_VCGE_reg_float => asimd_three_regs::arm_asimd_vcge_reg_float(ir, inst),
        ArmInstId::ASIMD_VCGT_reg_float => asimd_three_regs::arm_asimd_vcgt_reg_float(ir, inst),
        ArmInstId::ASIMD_VACGE => asimd_three_regs::arm_asimd_vacge(ir, inst),
        ArmInstId::ASIMD_VMAX_float => asimd_three_regs::arm_asimd_vmax_float(ir, inst),
        ArmInstId::ASIMD_VMIN_float => asimd_three_regs::arm_asimd_vmin_float(ir, inst),
        ArmInstId::ASIMD_VPMAX_float => asimd_three_regs::arm_asimd_vpmax_float(ir, inst),
        ArmInstId::ASIMD_VPMIN_float => asimd_three_regs::arm_asimd_vpmin_float(ir, inst),
        ArmInstId::ASIMD_VRECPS => asimd_three_regs::arm_asimd_vrecps(ir, inst),
        ArmInstId::ASIMD_VRSQRTS => asimd_three_regs::arm_asimd_vrsqrts(ir, inst),
        ArmInstId::ASIMD_VADDL => asimd_three_regs::arm_asimd_vaddl(ir, inst),
        ArmInstId::ASIMD_VSUBL => asimd_three_regs::arm_asimd_vsubl(ir, inst),
        ArmInstId::ASIMD_VABAL => asimd_three_regs::arm_asimd_vabal(ir, inst),
        ArmInstId::ASIMD_VABDL => asimd_three_regs::arm_asimd_vabdl(ir, inst),
        ArmInstId::ASIMD_VMLAL => asimd_three_regs::arm_asimd_vmlal(ir, inst),
        ArmInstId::ASIMD_VMULL => asimd_three_regs::arm_asimd_vmull(ir, inst),
        ArmInstId::ASIMD_VMLA_scalar => asimd::arm_asimd_vmla_scalar(ir, inst),
        ArmInstId::ASIMD_VMUL_scalar => asimd::arm_asimd_vmul_scalar(ir, inst),
        ArmInstId::ASIMD_VDUP_scalar => asimd::arm_asimd_vdup_scalar(ir, inst),
        ArmInstId::ASIMD_VCVT_integer => asimd::arm_asimd_vcvt_integer(ir, inst),
        ArmInstId::ASIMD_VTRN => asimd::arm_asimd_vtrn(ir, inst),
        ArmInstId::ASIMD_VTBL => asimd::arm_asimd_vtbl(ir, inst),
        ArmInstId::ASIMD_VTBX => asimd::arm_asimd_vtbx(ir, inst),
        ArmInstId::ASIMD_SHR => asimd_two_regs_shift::arm_asimd_shr(ir, inst),
        ArmInstId::ASIMD_SRA => asimd_two_regs_shift::arm_asimd_sra(ir, inst),
        ArmInstId::ASIMD_VSHRN => asimd_two_regs_shift::arm_asimd_vshrn(ir, inst),
        ArmInstId::ASIMD_VSHL_imm => asimd_two_regs_shift::arm_asimd_vshl_imm(ir, inst),
        ArmInstId::ASIMD_VSLI => asimd_two_regs_shift::arm_asimd_vsli(ir, inst),
        ArmInstId::ASIMD_VSRI => asimd_two_regs_shift::arm_asimd_vsri(ir, inst),
        ArmInstId::ASIMD_VQSHL_imm => asimd_two_regs_shift::arm_asimd_vqshl_imm(ir, inst),
        ArmInstId::V8_VST_multiple => asimd::arm_v8_vst_multiple(ir, inst),
        ArmInstId::V8_VLD_multiple => asimd::arm_v8_vld_multiple(ir, inst),
        ArmInstId::V8_VST_single => asimd::arm_v8_vst_single(ir, inst),
        ArmInstId::V8_VLD_single => asimd::arm_v8_vld_single(ir, inst),
        ArmInstId::V8_VLD_all_lanes => asimd::arm_v8_vld_all_lanes(ir, inst),
        ArmInstId::ASIMD_VEXT => asimd::arm_asimd_vext(ir, inst),
        ArmInstId::ASIMD_VUZP => asimd::arm_asimd_vuzp(ir, inst),
        ArmInstId::ASIMD_VZIP => asimd::arm_asimd_vzip(ir, inst),
        ArmInstId::ASIMD_VCGT_zero => asimd::arm_asimd_vcgt_zero(ir, inst),
        ArmInstId::ASIMD_VCGE_zero => asimd::arm_asimd_vcge_zero(ir, inst),
        ArmInstId::ASIMD_VCEQ_zero => asimd::arm_asimd_vceq_zero(ir, inst),
        ArmInstId::ASIMD_VCLE_zero => asimd::arm_asimd_vcle_zero(ir, inst),
        ArmInstId::ASIMD_VCLT_zero => asimd::arm_asimd_vclt_zero(ir, inst),
        ArmInstId::ASIMD_VRECPE => asimd::arm_asimd_vrecpe(ir, inst),
        ArmInstId::ASIMD_VRSQRTE => asimd::arm_asimd_vrsqrte(ir, inst),
        ArmInstId::ASIMD_VNEG_int => asimd::arm_asimd_vneg_int(ir, inst),
        ArmInstId::ASIMD_VABS_int => asimd::arm_asimd_vabs_int(ir, inst),
        ArmInstId::ASIMD_VQMOVN => asimd_two_regs_misc::arm_asimd_vqmovn(ir, inst),
        _ => undefined_instruction(ir),
    }
}

/// The translation of loads, stores and synchronization.
#[verifier::opaque]
pub open spec fn arm_memory_ir(s: EmitterState, inst: DecodedArm) -> (EmitterState, bool) {
    match inst.id {
        ArmInstId::LDR_lit => load_store::load_literal_ir(
            s,
            inst,
            inst.imm12(),
            helpers::Width::Word,
            false,
        ),
        ArmInstId::LDR_imm => load_store::load_imm_ir(
            s,
            inst,
            inst.imm12(),
            helpers::Width::Word,
            false,
        ),
        ArmInstId::LDR_reg => load_store::load_shifted_ir(s, inst, helpers::Width::Word),
        ArmInstId::STR_imm => load_store::store_imm_ir(s, inst, inst.imm12(), helpers::Width::Word),
        ArmInstId::STR_reg => load_store::store_shifted_ir(s, inst, helpers::Width::Word),
        ArmInstId::LDRB_lit => load_store::load_literal_ir(
            s,
            inst,
            inst.imm12(),
            helpers::Width::Byte,
            false,
        ),
        ArmInstId::LDRB_imm => load_store::load_imm_ir(
            s,
            inst,
            inst.imm12(),
            helpers::Width::Byte,
            false,
        ),
        ArmInstId::LDRB_reg => load_store::load_shifted_ir(s, inst, helpers::Width::Byte),
        ArmInstId::STRB_imm => load_store::store_imm_ir(
            s,
            inst,
            inst.imm12(),
            helpers::Width::Byte,
        ),
        ArmInstId::STRB_reg => load_store::store_shifted_ir(s, inst, helpers::Width::Byte),
        ArmInstId::LDRH_lit => if inst.p_flag() == inst.w_flag() {
            unpredictable_ir(s)
        } else {
            load_store::load_literal_ir(
                s,
                inst,
                load_store::split_imm8(inst),
                helpers::Width::Half,
                false,
            )
        },
        ArmInstId::LDRH_imm => load_store::load_imm_ir(
            s,
            inst,
            load_store::split_imm8(inst),
            helpers::Width::Half,
            false,
        ),
        ArmInstId::LDRH_reg => load_store::load_reg_ir(s, inst, helpers::Width::Half, false),
        ArmInstId::STRH_imm => load_store::store_imm_ir(
            s,
            inst,
            load_store::split_imm8(inst),
            helpers::Width::Half,
        ),
        ArmInstId::STRH_reg => load_store::store_reg_ir(s, inst, helpers::Width::Half),
        ArmInstId::LDRSB_lit => load_store::load_literal_ir(
            s,
            inst,
            load_store::split_imm8(inst),
            helpers::Width::Byte,
            true,
        ),
        ArmInstId::LDRSB_imm => load_store::load_imm_ir(
            s,
            inst,
            load_store::split_imm8(inst),
            helpers::Width::Byte,
            true,
        ),
        ArmInstId::LDRSB_reg => load_store::load_reg_ir(s, inst, helpers::Width::Byte, true),
        ArmInstId::LDRSH_lit => load_store::load_literal_ir(
            s,
            inst,
            load_store::split_imm8(inst),
            helpers::Width::Half,
            true,
        ),
        ArmInstId::LDRSH_imm => load_store::load_imm_ir(
            s,
            inst,
            load_store::split_imm8(inst),
            helpers::Width::Half,
            true,
        ),
        ArmInstId::LDRSH_reg => load_store::load_reg_ir(s, inst, helpers::Width::Half, true),
        ArmInstId::LDRD_lit => load_store::arm_ldrd_lit_ir(s, inst),
        ArmInstId::LDRD_imm => load_store::arm_ldrd_imm_ir(s, inst),
        ArmInstId::LDRD_reg => load_store::arm_ldrd_reg_ir(s, inst),
        ArmInstId::STRD_imm => load_store::arm_strd_imm_ir(s, inst),
        ArmInstId::STRD_reg => load_store::arm_strd_reg_ir(s, inst),
        ArmInstId::STL => synchronization::sync_store_ir(s, inst, helpers::Width::Word),
        ArmInstId::STLEX => synchronization::exclusive_store_ir(
            s,
            inst,
            helpers::Width::Word,
            AccType::Ordered,
        ),
        ArmInstId::LDREX => synchronization::sync_load_ir(
            s,
            inst,
            helpers::Width::Word,
            true,
            AccType::Atomic,
        ),
        ArmInstId::LDA => synchronization::sync_load_ir(
            s,
            inst,
            helpers::Width::Word,
            false,
            AccType::Ordered,
        ),
        ArmInstId::LDAEX => synchronization::sync_load_ir(
            s,
            inst,
            helpers::Width::Word,
            true,
            AccType::Ordered,
        ),
        ArmInstId::LDREXB => synchronization::sync_load_ir(
            s,
            inst,
            helpers::Width::Byte,
            true,
            AccType::Atomic,
        ),
        ArmInstId::LDAB => synchronization::sync_load_ir(
            s,
            inst,
            helpers::Width::Byte,
            false,
            AccType::Ordered,
        ),
        ArmInstId::LDAEXB => synchronization::sync_load_ir(
            s,
            inst,
            helpers::Width::Byte,
            true,
            AccType::Ordered,
        ),
        ArmInstId::LDREXH => synchronization::sync_load_ir(
            s,
            inst,
            helpers::Width::Half,
            true,
            AccType::Atomic,
        ),
        ArmInstId::LDAH => synchronization::sync_load_ir(
            s,
            inst,
            helpers::Width::Half,
            false,
            AccType::Ordered,
        ),
        ArmInstId::LDAEXH => synchronization::sync_load_ir(
            s,
            inst,
            helpers::Width::Half,
            true,
            AccType::Ordered,
        ),
        ArmInstId::LDREXD => synchronization::sync_load_double_ir(s, inst, AccType::Atomic),
        ArmInstId::LDAEXD => synchronization::sync_load_double_ir(s, inst, AccType::Ordered),
        ArmInstId::STREX => synchronization::exclusive_store_ir(
            s,
            inst,
            helpers::Width::Word,
            AccType::Atomic,
        ),
        ArmInstId::STLEXB => synchronization::exclusive_store_ir(
            s,
            inst,
            helpers::Width::Byte,
            AccType::Ordered,
        ),
        ArmInstId::STREXB => synchronization::exclusive_store_ir(
            s,
            inst,
            helpers::Width::Byte,
            AccType::Atomic,
        ),
        ArmInstId::STLEXH => synchronization::exclusive_store_ir(
            s,
            inst,
            helpers::Width::Half,
            AccType::Ordered,
        ),
        ArmInstId::STREXH => synchronization::exclusive_store_ir(
            s,
            inst,
            helpers::Width::Half,
            AccType::Atomic,
        ),
        ArmInstId::STLEXD => synchronization::exclusive_store_double_ir(s, inst, AccType::Ordered),
        ArmInstId::STREXD => synchronization::exclusive_store_double_ir(s, inst, AccType::Atomic),
        ArmInstId::STLB => synchronization::sync_store_ir(s, inst, helpers::Width::Byte),
        ArmInstId::STLH => synchronization::sync_store_ir(s, inst, helpers::Width::Half),
        ArmInstId::SWP => synchronization::swap_ir(s, inst, helpers::Width::Word),
        ArmInstId::SWPB => synchronization::swap_ir(s, inst, helpers::Width::Byte),
        ArmInstId::CLREX => (s.op0(Opcode::A32ClearExclusive).0, true),
        _ => undefined_ir(s),
    }
}

/// Translates loads, stores and synchronization.
#[verifier::rlimit(40)]
fn translate_arm_memory(ir: &mut A32IREmitter, inst: &DecodedArm) -> (r: bool)
    requires
        arm_translatable(*inst),
    ensures
        (final(ir)@, r) == arm_memory_ir(old(ir)@, *inst),
{
    proof {
        reveal(arm_memory_ir);
    }
    match inst.id {
        ArmInstId::LDR_lit => load_store::arm_ldr_lit(ir, inst),
        ArmInstId::LDR_imm => load_store::arm_ldr_imm(ir, inst),
        ArmInstId::LDR_reg => load_store::arm_ldr_reg(ir, inst),
        ArmInstId::STR_imm => load_store::arm_str_imm(ir, inst),
        ArmInstId::STR_reg => load_store::arm_str_reg(ir, inst),
        ArmInstId::LDRB_lit => load_store::arm_ldrb_lit(ir, inst),
        ArmInstId::LDRB_imm => load_store::arm_ldrb_imm(ir, inst),
        ArmInstId::LDRB_reg => load_store::arm_ldrb_reg(ir, inst),
        ArmInstId::STRB_imm => load_store::arm_strb_imm(ir, inst),
        ArmInstId::STRB_reg => load_store::arm_strb_reg(ir, inst),
        ArmInstId::LDRH_lit => load_store::arm_ldrh_lit(ir, inst),
        ArmInstId::LDRH_imm => load_store::arm_ldrh_imm(ir, inst),
        ArmInstId::LDRH_reg => load_store::arm_ldrh_reg(ir, inst),
        ArmInstId::STRH_imm => load_store::arm_strh_imm(ir, inst),
        ArmInstId::STRH_reg => load_store::arm_strh_reg(ir, inst),
        ArmInstId::LDRSB_lit => load_store::arm_ldrsb_lit(ir, inst),
        ArmInstId::LDRSB_imm => load_store::arm_ldrsb_imm(ir, inst),
        ArmInstId::LDRSB_reg => load_store::arm_ldrsb_reg(ir, inst),
        ArmInstId::LDRSH_lit => load_store::arm_ldrsh_lit(ir, inst),
        ArmInstId::LDRSH_imm => load_store::arm_ldrsh_imm(ir, inst),
        ArmInstId::LDRSH_reg => load_store::arm_ldrsh_reg(ir, inst),
        ArmInstId::LDRD_lit => load_store::arm_ldrd_lit(ir, inst),
        ArmInstId::LDRD_imm => load_store::arm_ldrd_imm(ir, inst),
        ArmInstId::LDRD_reg => load_store::arm_ldrd_reg(ir, inst),
        ArmInstId::STRD_imm => load_store::arm_strd_imm(ir, inst),
        ArmInstId::STRD_reg => load_store::arm_strd_reg(ir, inst),
        ArmInstId::STL => synchronization::arm_stl(ir, inst),
        ArmInstId::STLEX => synchronization::arm_stlex(ir, inst),
        ArmInstId::LDREX => synchronization::arm_ldrex(ir, inst),
        ArmInstId::LDA => synchronization::arm_lda(ir, inst),
        ArmInstId::LDAEX => synchronization::arm_ldaex(ir, inst),
        ArmInstId::LDREXB => synchronization::arm_ldrexb(ir, inst),
        ArmInstId::LDAB => synchronization::arm_ldab(ir, inst),
        ArmInstId::LDAEXB => synchronization::arm_ldaexb(ir, inst),
        ArmInstId::LDREXH => synchronization::arm_ldrexh(ir, inst),
        ArmInstId::LDAH => synchronization::arm_ldah(ir, inst),
        ArmInstId::LDAEXH => synchronization::arm_ldaexh(ir, inst),
        ArmInstId::LDREXD => synchronization::arm_ldrexd(ir, inst),
        ArmInstId::LDAEXD => synchronization::arm_ldaexd(ir, inst),
        ArmInstId::STREX => synchronization::arm_strex(ir, inst),
        ArmInstId::STLEXB => synchronization::arm_stlexb(ir, inst),
        ArmInstId::STREXB => synchronization::arm_strexb(ir, inst),
        ArmInstId::STLEXH => synchronization::arm_stlexh(ir, inst),
        ArmInstId::STREXH => synchronization::arm_strexh(ir, inst),
        ArmInstId::STLEXD => synchronization::arm_stlexd(ir, inst),
        ArmInstId::STREXD => synchronization::arm_strexd(ir, inst),
        ArmInstId::STLB => synchronization::arm_stlb(ir, inst),
        ArmInstId::STLH => synchronization::arm_stlh(ir, inst),
        ArmInstId::SWP => synchronization::arm_swp(ir, inst),
        ArmInstId::SWPB => synchronization::arm_swpb(ir, inst),
        ArmInstId::CLREX => synchronization::arm_clrex(ir),
        _ => undefined_instruction(ir),
    }
}

/// The translation of multiplications.
#[verifier::opaque]
pub open spec fn arm_multiply_ir(s: EmitterState, inst: DecodedArm) -> (EmitterState, bool) {
    match inst.id {
        ArmInstId::MUL => multiply::arm_mul_ir(s, inst),
        ArmInstId::MLA => multiply::arm_mla_ir(s, inst),
        ArmInstId::MLS => multiply::arm_mls_ir(s, inst),
        ArmInstId::UMULL => multiply::long_multiply_ir(s, inst, false, false),
        ArmInstId::UMLAL => multiply::long_multiply_ir(s, inst, false, true),
        ArmInstId::SMULL => multiply::long_multiply_ir(s, inst, true, false),
        ArmInstId::SMLAL => multiply::long_multiply_ir(s, inst, true, true),
        ArmInstId::UMAAL => multiply::arm_umaal_ir(s, inst),
        ArmInstId::SMLALxy => multiply::arm_smlalxy_ir(s, inst),
        ArmInstId::SMLAxy => multiply::arm_smlaxy_ir(s, inst),
        ArmInstId::SMULxy => multiply::arm_smulxy_ir(s, inst),
        ArmInstId::SMLAWy => multiply::arm_smlawy_ir(s, inst),
        ArmInstId::SMULWy => multiply::arm_smulwy_ir(s, inst),
        ArmInstId::SMMUL => multiply::arm_smmul_ir(s, inst),
        ArmInstId::SMMLA => multiply::arm_smmla_ir(s, inst),
        ArmInstId::SMMLS => multiply::arm_smmls_ir(s, inst),
        _ => undefined_ir(s),
    }
}

/// Translates multiplications.
#[verifier::rlimit(40)]
fn translate_arm_multiply(ir: &mut A32IREmitter, inst: &DecodedArm) -> (r: bool)
    ensures
        (final(ir)@, r) == arm_multiply_ir(old(ir)@, *inst),
{
    proof {
        reveal(arm_multiply_ir);
    }
    match inst.id {
        ArmInstId::MUL => multiply::arm_mul(ir, inst),
        ArmInstId::MLA => multiply::arm_mla(ir, inst),
        ArmInstId::MLS => multiply::arm_mls(ir, inst),
        ArmInstId::UMULL => multiply::arm_umull(ir, inst),
        ArmInstId::UMLAL => multiply::arm_umlal(ir, inst),
        ArmInstId::SMULL => multiply::arm_smull(ir, inst),
        ArmInstId::SMLAL => multiply::arm_smlal(ir, inst),
        ArmInstId::UMAAL => multiply::arm_umaal(ir, inst),
        ArmInstId::SMLALxy => multiply::arm_smlalxy(ir, inst),
        ArmInstId::SMLAxy => multiply::arm_smlaxy(ir, inst),
        ArmInstId::SMULxy => multiply::arm_smulxy(ir, inst),
        ArmInstId::SMLAWy => multiply::arm_smlawy(ir, inst),
        ArmInstId::SMULWy => multiply::arm_smulwy(ir, inst),
        ArmInstId::SMMUL => multiply::arm_smmul(ir, inst),
        ArmInstId::SMMLA => multiply::arm_smmla(ir, inst),
        ArmInstId::SMMLS => multiply::arm_smmls(ir, inst),
        _ => undefined_instruction(ir),
    }
}

/// The translation of an ARM instruction. Families that are not translated
/// here are left to an interpreter: transfers of several registers, division,
/// extension, reversal, bit fields, wide moves, counting of zeros, saturation,
/// packing, barriers, and scalar floating point.
pub open spec fn translate_arm_instruction_ir(
    s: EmitterState,
    inst: DecodedArm,
    options: TranslationOptions,
) -> (EmitterState, bool) {
    match inst.id {
        ArmInstId::AND_imm | ArmInstId::EOR_imm | ArmInstId::SUB_imm | ArmInstId::RSB_imm
        | ArmInstId::ADD_imm | ArmInstId::ADC_imm | ArmInstId::SBC_imm | ArmInstId::RSC_imm
        | ArmInstId::TST_imm | ArmInstId::TEQ_imm | ArmInstId::CMP_imm | ArmInstId::CMN_imm
        | ArmInstId::ORR_imm | ArmInstId::MOV_imm | ArmInstId::BIC_imm | ArmInstId::MVN_imm => {
            data_processing::arm_dp_imm_ir(s, inst)
        },
        ArmInstId::AND_reg | ArmInstId::EOR_reg | ArmInstId::SUB_reg | ArmInstId::RSB_reg
        | ArmInstId::ADD_reg | ArmInstId::ADC_reg | ArmInstId::SBC_reg | ArmInstId::RSC_reg
        | ArmInstId::TST_reg | ArmInstId::TEQ_reg | ArmInstId::CMP_reg | ArmInstId::CMN_reg
        | ArmInstId::ORR_reg | ArmInstId::MOV_reg | ArmInstId::BIC_reg | ArmInstId::MVN_reg => {
            data_processing::arm_dp_reg_ir(s, inst)
        },
        ArmInstId::AND_rsr | ArmInstId::EOR_rsr | ArmInstId::SUB_rsr | ArmInstId::RSB_rsr
        | ArmInstId::ADD_rsr | ArmInstId::ADC_rsr | ArmInstId::SBC_rsr | ArmInstId::RSC_rsr
        | ArmInstId::TST_rsr | ArmInstId::TEQ_rsr | ArmInstId::CMP_rsr | ArmInstId::CMN_rsr
        | ArmInstId::ORR_rsr | ArmInstId::MOV_rsr | ArmInstId::BIC_rsr | ArmInstId::MVN_rsr => {
            data_processing::arm_dp_rsr_ir(s, inst)
        },
        ArmInstId::B => branch::arm_b_ir(s, inst),
        ArmInstId::BL => branch::arm_bl_ir(s, inst),
        ArmInstId::BX => branch::arm_bx_ir(s, inst),
        ArmInstId::BLX_reg => branch::arm_blx_reg_ir(s, inst),
        ArmInstId::BLX_imm => branch::arm_blx_imm_ir(s, inst),
        ArmInstId::LDM | ArmInstId::LDMDA | ArmInstId::LDMDB | ArmInstId::LDMIB | ArmInstId::STM
        | ArmInstId::STMDA | ArmInstId::STMDB | ArmInstId::STMIB | ArmInstId::SDIV
        | ArmInstId::UDIV | ArmInstId::SXTB | ArmInstId::SXTH | ArmInstId::UXTB | ArmInstId::UXTH
        | ArmInstId::SXTAB | ArmInstId::SXTAH | ArmInstId::UXTAB | ArmInstId::UXTAH
        | ArmInstId::SXTB16 | ArmInstId::SXTAB16 | ArmInstId::UXTB16 | ArmInstId::UXTAB16
        | ArmInstId::CLZ | ArmInstId::RBIT | ArmInstId::REV | ArmInstId::REV16 | ArmInstId::REVSH
        | ArmInstId::MOVW | ArmInstId::MOVT | ArmInstId::BFC | ArmInstId::BFI | ArmInstId::SBFX
        | ArmInstId::UBFX | ArmInstId::SSAT | ArmInstId::USAT | ArmInstId::SSAT16
        | ArmInstId::USAT16 | ArmInstId::QADD | ArmInstId::QSUB | ArmInstId::QDADD
        | ArmInstId::QDSUB | ArmInstId::PKHBT | ArmInstId::PKHTB | ArmInstId::DMB | ArmInstId::DSB
        | ArmInstId::ISB | ArmInstId::VMLA_fp | ArmInstId::VMLS_fp | ArmInstId::VNMLS_fp
        | ArmInstId::VNMLA_fp | ArmInstId::VADD_fp | ArmInstId::VSUB_fp | ArmInstId::VMUL_fp
        | ArmInstId::VNMUL_fp | ArmInstId::VDIV_fp | ArmInstId::VFMA_fp | ArmInstId::VFMS_fp
        | ArmInstId::VFNMA_fp | ArmInstId::VFNMS_fp | ArmInstId::VSEL_fp | ArmInstId::VMAXNM_fp
        | ArmInstId::VMINNM_fp | ArmInstId::VMOV_fp_reg | ArmInstId::VMOV_fp_imm
        | ArmInstId::VABS_fp | ArmInstId::VNEG_fp | ArmInstId::VSQRT_fp | ArmInstId::VCMP_fp
        | ArmInstId::VCMP_zero_fp | ArmInstId::VCVT_f_to_f | ArmInstId::VCVT_from_int
        | ArmInstId::VCVT_to_u32 | ArmInstId::VCVT_to_s32 | ArmInstId::VMOV_u32_f64
        | ArmInstId::VMOV_f64_u32 | ArmInstId::VMOV_u32_f32 | ArmInstId::VMOV_f32_u32
        | ArmInstId::VMOV_2u32_2f32 | ArmInstId::VMOV_2f32_2u32 | ArmInstId::VMOV_2u32_f64
        | ArmInstId::VMOV_f64_2u32 | ArmInstId::VMOV_from_i32 | ArmInstId::VMOV_to_i32
        | ArmInstId::VMSR | ArmInstId::VMRS | ArmInstId::VFP_VDUP | ArmInstId::VFP_VRINT_rm
        | ArmInstId::VFP_VCVT_rm | ArmInstId::VPUSH | ArmInstId::VPOP | ArmInstId::VLDR_fp
        | ArmInstId::VSTR_fp | ArmInstId::VSTM | ArmInstId::VLDM => interpret_ir(s),
        ArmInstId::MCR => coprocessor::arm_mcr_ir(s, inst),
        ArmInstId::MRC => coprocessor::arm_mrc_ir(s, inst),
        ArmInstId::CDP => coprocessor::arm_cdp_ir(s, inst),
        ArmInstId::MRRC => coprocessor::arm_mrrc_ir(s, inst),
        ArmInstId::MCRR => coprocessor::arm_mcrr_ir(s, inst),
        ArmInstId::LDC => coprocessor::arm_ldc_ir(s, inst),
        ArmInstId::STC => coprocessor::arm_stc_ir(s, inst),
        ArmInstId::MRS => status_register::arm_mrs_ir(s, inst),
        ArmInstId::MSR_imm => status_register::arm_msr_imm_ir(s, inst),
        ArmInstId::MSR_reg => status_register::arm_msr_reg_ir(s, inst),
        ArmInstId::SVC => exception::arm_svc_ir(s, inst),
        ArmInstId::UDF | ArmInstId::Unknown => undefined_ir(s),
        ArmInstId::BKPT => exception::arm_bkpt_ir(s, inst, options),
        ArmInstId::PLD_imm | ArmInstId::PLD_reg => hint::hint_ir(
            s,
            options,
            hint::preload_exception(inst.raw),
        ),
        ArmInstId::SEV => hint::hint_ir(s, options, Exception::SendEvent),
        ArmInstId::SEVL => hint::hint_ir(s, options, Exception::SendEventLocal),
        ArmInstId::WFI => hint::hint_ir(s, options, Exception::WaitForInterrupt),
        ArmInstId::WFE => hint::hint_ir(s, options, Exception::WaitForEvent),
        ArmInstId::YIELD => hint::hint_ir(s, options, Exception::Yield),
        ArmInstId::NOP | ArmInstId::SEL => (s, true),
        ArmInstId::CRC32 => a32_crc32::crc32_ir(s, inst, a32_crc32::CRCType::Iso),
        ArmInstId::CRC32C => a32_crc32::crc32_ir(s, inst, a32_crc32::CRCType::Castagnoli),
        ArmInstId::ASIMD_VMOV_imm | ArmInstId::ASIMD_VMOVN | ArmInstId::ASIMD_VHADD
        | ArmInstId::ASIMD_VQADD | ArmInstId::ASIMD_VRHADD | ArmInstId::ASIMD_VHSUB
        | ArmInstId::ASIMD_VQSUB | ArmInstId::ASIMD_VCGT_reg_int | ArmInstId::ASIMD_VCGE_reg_int
        | ArmInstId::ASIMD_VSHL_reg | ArmInstId::ASIMD_VQSHL_reg | ArmInstId::ASIMD_VRSHL
        | ArmInstId::ASIMD_VMAX_int | ArmInstId::ASIMD_VMIN_int | ArmInstId::ASIMD_VABD_int
        | ArmInstId::ASIMD_VABA | ArmInstId::ASIMD_VADD_int | ArmInstId::ASIMD_VSUB_int
        | ArmInstId::ASIMD_VTST | ArmInstId::ASIMD_VCEQ_reg_int | ArmInstId::ASIMD_VMLA_int
        | ArmInstId::ASIMD_VMUL_int | ArmInstId::ASIMD_VPMAX_int | ArmInstId::ASIMD_VQDMULH
        | ArmInstId::ASIMD_VQRDMULH | ArmInstId::ASIMD_VPADD_int | ArmInstId::ASIMD_VAND_reg
        | ArmInstId::ASIMD_VBIC_reg | ArmInstId::ASIMD_VORR_reg | ArmInstId::ASIMD_VORN_reg
        | ArmInstId::ASIMD_VEOR_reg | ArmInstId::ASIMD_VBSL | ArmInstId::ASIMD_VBIT
        | ArmInstId::ASIMD_VBIF | ArmInstId::ASIMD_VFMA | ArmInstId::ASIMD_VFMS
        | ArmInstId::ASIMD_VADD_float | ArmInstId::ASIMD_VSUB_float | ArmInstId::ASIMD_VMLA_float
        | ArmInstId::ASIMD_VMLS_float | ArmInstId::ASIMD_VPADD_float | ArmInstId::ASIMD_VABD_float
        | ArmInstId::ASIMD_VMUL_float | ArmInstId::ASIMD_VCEQ_reg_float
        | ArmInstId::ASIMD_VCGE_reg_float | ArmInstId::ASIMD_VCGT_reg_float
        | ArmInstId::ASIMD_VACGE | ArmInstId::ASIMD_VMAX_float | ArmInstId::ASIMD_VMIN_float
        | ArmInstId::ASIMD_VPMAX_float | ArmInstId::ASIMD_VPMIN_float | ArmInstId::ASIMD_VRECPS
        | ArmInstId::ASIMD_VRSQRTS | ArmInstId::ASIMD_VADDL | ArmInstId::ASIMD_VSUBL
        | ArmInstId::ASIMD_VABAL | ArmInstId::ASIMD_VABDL | ArmInstId::ASIMD_VMLAL
        | ArmInstId::ASIMD_VMULL | ArmInstId::ASIMD_VMLA_scalar | ArmInstId::ASIMD_VMUL_scalar
        | ArmInstId::ASIMD_VDUP_scalar | ArmInstId::ASIMD_VCVT_integer | ArmInstId::ASIMD_VTRN
        | ArmInstId::ASIMD_VTBL | ArmInstId::ASIMD_VTBX | ArmInstId::ASIMD_SHR
        | ArmInstId::ASIMD_SRA | ArmInstId::ASIMD_VSHRN | ArmInstId::ASIMD_VSHL_imm
        | ArmInstId::ASIMD_VSLI | ArmInstId::ASIMD_VSRI | ArmInstId::ASIMD_VQSHL_imm
        | ArmInstId::V8_VST_multiple | ArmInstId::V8_VLD_multiple | ArmInstId::V8_VST_single
        | ArmInstId::V8_VLD_single | ArmInstId::V8_VLD_all_lanes | ArmInstId::ASIMD_VEXT
        | ArmInstId::ASIMD_VUZP | ArmInstId::ASIMD_VZIP | ArmInstId::ASIMD_VCGT_zero
        | ArmInstId::ASIMD_VCGE_zero | ArmInstId::ASIMD_VCEQ_zero | ArmInstId::ASIMD_VCLE_zero
        | ArmInstId::ASIMD_VCLT_zero | ArmInstId::ASIMD_VRECPE | ArmInstId::ASIMD_VRSQRTE
        | ArmInstId::ASIMD_VNEG_int | ArmInstId::ASIMD_VABS_int | ArmInstId::ASIMD_VQMOVN => {
            arm_vector_ir(s, inst)
        },
        ArmInstId::LDR_lit | ArmInstId::LDR_imm | ArmInstId::LDR_reg | ArmInstId::STR_imm
        | ArmInstId::STR_reg | ArmInstId::LDRB_lit | ArmInstId::LDRB_imm | ArmInstId::LDRB_reg
        | ArmInstId::STRB_imm | ArmInstId::STRB_reg | ArmInstId::LDRH_lit | ArmInstId::LDRH_imm
        | ArmInstId::LDRH_reg | ArmInstId::STRH_imm | ArmInstId::STRH_reg | ArmInstId::LDRSB_lit
        | ArmInstId::LDRSB_imm | ArmInstId::LDRSB_reg | ArmInstId::LDRSH_lit
        | ArmInstId::LDRSH_imm | ArmInstId::LDRSH_reg | ArmInstId::LDRD_lit | ArmInstId::LDRD_imm
        | ArmInstId::LDRD_reg | ArmInstId::STRD_imm | ArmInstId::STRD_reg | ArmInstId::STL
        | ArmInstId::STLEX | ArmInstId::LDREX | ArmInstId::LDA | ArmInstId::LDAEX
        | ArmInstId::LDREXB | ArmInstId::LDAB | ArmInstId::LDAEXB | ArmInstId::LDREXH
        | ArmInstId::LDAH | ArmInstId::LDAEXH | ArmInstId::LDREXD | ArmInstId::LDAEXD
        | ArmInstId::STREX | ArmInstId::STLEXB | ArmInstId::STREXB | ArmInstId::STLEXH
        | ArmInstId::STREXH | ArmInstId::STLEXD | ArmInstId::STREXD | ArmInstId::STLB
        | ArmInstId::STLH | ArmInstId::SWP | ArmInstId::SWPB | ArmInstId::CLREX => {
            arm_memory_ir(s, inst)
        },
        ArmInstId::MUL | ArmInstId::MLA | ArmInstId::MLS | ArmInstId::UMULL | ArmInstId::UMLAL
        | ArmInstId::SMULL | ArmInstId::SMLAL | ArmInstId::UMAAL | ArmInstId::SMLALxy
        | ArmInstId::SMLAxy | ArmInstId::SMULxy | ArmInstId::SMLAWy | ArmInstId::SMULWy
        | ArmInstId::SMMUL | ArmInstId::SMMLA | ArmInstId::SMMLS => arm_multiply_ir(s, inst),
    }
}

/// Translates an ARM instruction.
#[verifier::rlimit(40)]
pub fn translate_arm_instruction(
    ir: &mut A32IREmitter,
    inst: &DecodedArm,
    options: TranslationOptions,
) -> (r: bool)
    requires
        arm_translatable(*inst),
    ensures
        (final(ir)@, r) == translate_arm_instruction_ir(old(ir)@, *inst, options),
{
    match inst.id {
        ArmInstId::AND_imm | ArmInstId::EOR_imm | ArmInstId::SUB_imm | ArmInstId::RSB_imm
        | ArmInstId::ADD_imm | ArmInstId::ADC_imm | ArmInstId::SBC_imm | ArmInstId::RSC_imm
        | ArmInstId::TST_imm | ArmInstId::TEQ_imm | ArmInstId::CMP_imm | ArmInstId::CMN_imm
        | ArmInstId::ORR_imm | ArmInstId::MOV_imm | ArmInstId::BIC_imm | ArmInstId::MVN_imm => {
            data_processing::arm_dp_imm(ir, inst)
        },
        ArmInstId::AND_reg | ArmInstId::EOR_reg | ArmInstId::SUB_reg | ArmInstId::RSB_reg
        | ArmInstId::ADD_reg | ArmInstId::ADC_reg | ArmInstId::SBC_reg | ArmInstId::RSC_reg
        | ArmInstId::TST_reg | ArmInstId::TEQ_reg | ArmInstId::CMP_reg | ArmInstId::CMN_reg
        | ArmInstId::ORR_reg | ArmInstId::MOV_reg | ArmInstId::BIC_reg | ArmInstId::MVN_reg => {
            data_processing::arm_dp_reg(ir, inst)
        },
        ArmInstId::AND_rsr | ArmInstId::EOR_rsr | ArmInstId::SUB_rsr | ArmInstId::RSB_rsr
        | ArmInstId::ADD_rsr | ArmInstId::ADC_rsr | ArmInstId::SBC_rsr | ArmInstId::RSC_rsr
        | ArmInstId::TST_rsr | ArmInstId::TEQ_rsr | ArmInstId::CMP_rsr | ArmInstId::CMN_rsr
        | ArmInstId::ORR_rsr | ArmInstId::MOV_rsr | ArmInstId::BIC_rsr | ArmInstId::MVN_rsr => {
            data_processing::arm_dp_rsr(ir, inst)
        },
        ArmInstId::B => branch::arm_b(ir, inst),
        ArmInstId::BL => branch::arm_bl(ir, inst),
        ArmInstId::BX => branch::arm_bx(ir, inst),
        ArmInstId::BLX_reg => branch::arm_blx_reg(ir, inst),
        ArmInstId::BLX_imm => branch::arm_blx_imm(ir, inst),
        ArmInstId::LDM | ArmInstId::LDMDA | ArmInstId::LDMDB | ArmInstId::LDMIB | ArmInstId::STM
        | ArmInstId::STMDA | ArmInstId::STMDB | ArmInstId::STMIB | ArmInstId::SDIV
        | ArmInstId::UDIV | ArmInstId::SXTB | ArmInstId::SXTH | ArmInstId::UXTB | ArmInstId::UXTH
        | ArmInstId::SXTAB | ArmInstId::SXTAH | ArmInstId::UXTAB | ArmInstId::UXTAH
        | ArmInstId::SXTB16 | ArmInstId::SXTAB16 | ArmInstId::UXTB16 | ArmInstId::UXTAB16
        | ArmInstId::CLZ | ArmInstId::RBIT | ArmInstId::REV | ArmInstId::REV16 | ArmInstId::REVSH
        | ArmInstId::MOVW | ArmInstId::MOVT | ArmInstId::BFC | ArmInstId::BFI | ArmInstId::SBFX
        | ArmInstId::UBFX | ArmInstId::SSAT | ArmInstId::USAT | ArmInstId::SSAT16
        | ArmInstId::USAT16 | ArmInstId::QADD | ArmInstId::QSUB | ArmInstId::QDADD
        | ArmInstId::QDSUB | ArmInstId::PKHBT | ArmInstId::PKHTB | ArmInstId::DMB | ArmInstId::DSB
        | ArmInstId::ISB | ArmInstId::VMLA_fp | ArmInstId::VMLS_fp | ArmInstId::VNMLS_fp
        | ArmInstId::VNMLA_fp | ArmInstId::VADD_fp | ArmInstId::VSUB_fp | ArmInstId::VMUL_fp
        | ArmInstId::VNMUL_fp | ArmInstId::VDIV_fp | ArmInstId::VFMA_fp | ArmInstId::VFMS_fp
        | ArmInstId::VFNMA_fp | ArmInstId::VFNMS_fp | ArmInstId::VSEL_fp | ArmInstId::VMAXNM_fp
        | ArmInstId::VMINNM_fp | ArmInstId::VMOV_fp_reg | ArmInstId::VMOV_fp_imm
        | ArmInstId::VABS_fp | ArmInstId::VNEG_fp | ArmInstId::VSQRT_fp | ArmInstId::VCMP_fp
        | ArmInstId::VCMP_zero_fp | ArmInstId::VCVT_f_to_f | ArmInstId::VCVT_from_int
        | ArmInstId::VCVT_to_u32 | ArmInstId::VCVT_to_s32 | ArmInstId::VMOV_u32_f64
        | ArmInstId::VMOV_f64_u32 | ArmInstId::VMOV_u32_f32 | ArmInstId::VMOV_f32_u32
        | ArmInstId::VMOV_2u32_2f32 | ArmInstId::VMOV_2f32_2u32 | ArmInstId::VMOV_2u32_f64
        | ArmInstId::VMOV_f64_2u32 | ArmInstId::VMOV_from_i32 | ArmInstId::VMOV_to_i32
        | ArmInstId::VMSR | ArmInstId::VMRS | ArmInstId::VFP_VDUP | ArmInstId::VFP_VRINT_rm
        | ArmInstId::VFP_VCVT_rm | ArmInstId::VPUSH | ArmInstId::VPOP | ArmInstId::VLDR_fp
        | ArmInstId::VSTR_fp | ArmInstId::VSTM | ArmInstId::VLDM => interpret_this_instruction(ir),
        ArmInstId::MCR => coprocessor::arm_mcr(ir, inst),
        ArmInstId::MRC => coprocessor::arm_mrc(ir, inst),
        ArmInstId::CDP => coprocessor::arm_cdp(ir, inst),
        ArmInstId::MRRC => coprocessor::arm_mrrc(ir, inst),
        ArmInstId::MCRR => coprocessor::arm_mcrr(ir, inst),
        ArmInstId::LDC => coprocessor::arm_ldc(ir, inst),
        ArmInstId::STC => coprocessor::arm_stc(ir, inst),
        ArmInstId::MRS => status_register::arm_mrs(ir, inst),
        ArmInstId::MSR_imm => status_register::arm_msr_imm(ir, inst),
        ArmInstId::MSR_reg => status_register::arm_msr_reg(ir, inst),
        ArmInstId::SVC => exception::arm_svc(ir, inst),
        ArmInstId::UDF => exception::arm_udf(ir, inst),
        ArmInstId::BKPT => exception::arm_bkpt(ir, inst, options),
        ArmInstId::PLD_imm | ArmInstId::PLD_reg => hint::arm_pld(ir, inst, options),
        ArmInstId::SEV => hint::arm_sev(ir, options),
        ArmInstId::SEVL => hint::arm_sevl(ir, options),
        ArmInstId::WFI => hint::arm_wfi(ir, options),
        ArmInstId::WFE => hint::arm_wfe(ir, options),
        ArmInstId::YIELD => hint::arm_yield(ir, options),
        ArmInstId::NOP | ArmInstId::SEL => true,
        ArmInstId::Unknown => undefined_instruction(ir),
        ArmInstId::CRC32 => a32_crc32::arm_crc32(ir, inst),
        ArmInstId::CRC32C => a32_crc32::arm_crc32c(ir, inst),
        ArmInstId::ASIMD_VMOV_imm | ArmInstId::ASIMD_VMOVN | ArmInstId::ASIMD_VHADD
        | ArmInstId::ASIMD_VQADD | ArmInstId::ASIMD_VRHADD | ArmInstId::ASIMD_VHSUB
        | ArmInstId::ASIMD_VQSUB | ArmInstId::ASIMD_VCGT_reg_int | ArmInstId::ASIMD_VCGE_reg_int
        | ArmInstId::ASIMD_VSHL_reg | ArmInstId::ASIMD_VQSHL_reg | ArmInstId::ASIMD_VRSHL
        | ArmInstId::ASIMD_VMAX_int | ArmInstId::ASIMD_VMIN_int | ArmInstId::ASIMD_VABD_int
        | ArmInstId::ASIMD_VABA | ArmInstId::ASIMD_VADD_int | ArmInstId::ASIMD_VSUB_int
        | ArmInstId::ASIMD_VTST | ArmInstId::ASIMD_VCEQ_reg_int | ArmInstId::ASIMD_VMLA_int
        | ArmInstId::ASIMD_VMUL_int | ArmInstId::ASIMD_VPMAX_int | ArmInstId::ASIMD_VQDMULH
        | ArmInstId::ASIMD_VQRDMULH | ArmInstId::ASIMD_VPADD_int | ArmInstId::ASIMD_VAND_reg
        | ArmInstId::ASIMD_VBIC_reg | ArmInstId::ASIMD_VORR_reg | ArmInstId::ASIMD_VORN_reg
        | ArmInstId::ASIMD_VEOR_reg | ArmInstId::ASIMD_VBSL | ArmInstId::ASIMD_VBIT
        | ArmInstId::ASIMD_VBIF | ArmInstId::ASIMD_VFMA | ArmInstId::ASIMD_VFMS
        | ArmInstId::ASIMD_VADD_float | ArmInstId::ASIMD_VSUB_float | ArmInstId::ASIMD_VMLA_float
        | ArmInstId::ASIMD_VMLS_float | ArmInstId::ASIMD_VPADD_float | ArmInstId::ASIMD_VABD_float
        | ArmInstId::ASIMD_VMUL_float | ArmInstId::ASIMD_VCEQ_reg_float
        | ArmInstId::ASIMD_VCGE_reg_float | ArmInstId::ASIMD_VCGT_reg_float
        | ArmInstId::ASIMD_VACGE | ArmInstId::ASIMD_VMAX_float | ArmInstId::ASIMD_VMIN_float
        | ArmInstId::ASIMD_VPMAX_float | ArmInstId::ASIMD_VPMIN_float | ArmInstId::ASIMD_VRECPS
        | ArmInstId::ASIMD_VRSQRTS | ArmInstId::ASIMD_VADDL | ArmInstId::ASIMD_VSUBL
        | ArmInstId::ASIMD_VABAL | ArmInstId::ASIMD_VABDL | ArmInstId::ASIMD_VMLAL
        | ArmInstId::ASIMD_VMULL | ArmInstId::ASIMD_VMLA_scalar | ArmInstId::ASIMD_VMUL_scalar
        | ArmInstId::ASIMD_VDUP_scalar | ArmInstId::ASIMD_VCVT_integer | ArmInstId::ASIMD_VTRN
        | ArmInstId::ASIMD_VTBL | ArmInstId::ASIMD_VTBX | ArmInstId::ASIMD_SHR
        | ArmInstId::ASIMD_SRA | ArmInstId::ASIMD_VSHRN | ArmInstId::ASIMD_VSHL_imm
        | ArmInstId::ASIMD_VSLI | ArmInstId::ASIMD_VSRI | ArmInstId::ASIMD_VQSHL_imm
        | ArmInstId::V8_VST_multiple | ArmInstId::V8_VLD_multiple | ArmInstId::V8_VST_single
        | ArmInstId::V8_VLD_single | ArmInstId::V8_VLD_all_lanes | ArmInstId::ASIMD_VEXT
        | ArmInstId::ASIMD_VUZP | ArmInstId::ASIMD_VZIP | ArmInstId::ASIMD_VCGT_zero
        | ArmInstId::ASIMD_VCGE_zero | ArmInstId::ASIMD_VCEQ_zero | ArmInstId::ASIMD_VCLE_zero
        | ArmInstId::ASIMD_VCLT_zero | ArmInstId::ASIMD_VRECPE | ArmInstId::ASIMD_VRSQRTE
        | ArmInstId::ASIMD_VNEG_int | ArmInstId::ASIMD_VABS_int | ArmInstId::ASIMD_VQMOVN => {
            translate_arm_vector(ir, inst)
        },
        ArmInstId::LDR_lit | ArmInstId::LDR_imm | ArmInstId::LDR_reg | ArmInstId::STR_imm
        | ArmInstId::STR_reg | ArmInstId::LDRB_lit | ArmInstId::LDRB_imm | ArmInstId::LDRB_reg
        | ArmInstId::STRB_imm | ArmInstId::STRB_reg | ArmInstId::LDRH_lit | ArmInstId::LDRH_imm
        | ArmInstId::LDRH_reg | ArmInstId::STRH_imm | ArmInstId::STRH_reg | ArmInstId::LDRSB_lit
        | ArmInstId::LDRSB_imm | ArmInstId::LDRSB_reg | ArmInstId::LDRSH_lit
        | ArmInstId::LDRSH_imm | ArmInstId::LDRSH_reg | ArmInstId::LDRD_lit | ArmInstId::LDRD_imm
        | ArmInstId::LDRD_reg | ArmInstId::STRD_imm | ArmInstId::STRD_reg | ArmInstId::STL
        | ArmInstId::STLEX | ArmInstId::LDREX | ArmInstId::LDA | ArmInstId::LDAEX
        | ArmInstId::LDREXB | ArmInstId::LDAB | ArmInstId::LDAEXB | ArmInstId::LDREXH
        | ArmInstId::LDAH | ArmInstId::LDAEXH | ArmInstId::LDREXD | ArmInstId::LDAEXD
        | ArmInstId::STREX | ArmInstId::STLEXB | ArmInstId::STREXB | ArmInstId::STLEXH
        | ArmInstId::STREXH | ArmInstId::STLEXD | ArmInstId::STREXD | ArmInstId::STLB
        | ArmInstId::STLH | ArmInstId::SWP | ArmInstId::SWPB | ArmInstId::CLREX => {
            translate_arm_memory(ir, inst)
        },
        ArmInstId::MUL | ArmInstId::MLA | ArmInstId::MLS | ArmInstId::UMULL | ArmInstId::UMLAL
        | ArmInstId::SMULL | ArmInstId::SMLAL | ArmInstId::UMAAL | ArmInstId::SMLALxy
        | ArmInstId::SMLAxy | ArmInstId::SMULxy | ArmInstId::SMLAWy | ArmInstId::SMULWy
        | ArmInstId::SMMUL | ArmInstId::SMMLA | ArmInstId::SMMLS => {
            translate_arm_multiply(ir, inst)
        },
    }
}

} // verus!
