//! What the translation of every ARM instruction keeps.

use vstd::prelude::*;
use crate::frontend::a32::decoder::DecodedArm;
use crate::frontend::a32::types::Exception;
use crate::ir::a32_emitter::{appends_nothing, group_appends, EmitterState};
use crate::ir::acc_type::AccType;
use crate::ir::opcode::Opcode;
use super::TranslationOptions;
use super::a32_crc32::CRCType;
use super::a32_crc32;
use super::arm_dispatch::{arm_memory_ir, arm_multiply_ir, translate_arm_instruction_ir};
use super::branch;
use super::coprocessor;
use super::data_processing;
use super::exception;
use super::helpers::Width;
use super::hint;
use super::laws::extends;
use super::laws::{extends_unless, lacks_lane_size};
use super::load_store;
use super::multiply;
use super::status_register;
use super::synchronization;
use super::{interpret_ir, raise_ir, undefined_ir, unpredictable_ir};

verus! {

/// What `a32_crc32::crc32_ir` keeps.
pub broadcast proof fn crc32_extends(s: EmitterState, inst: DecodedArm, kind: CRCType)
    ensures
        extends(s, #[trigger] a32_crc32::crc32_ir(s, inst, kind)),
{
    broadcast use group_appends;
    appends_nothing(s);
}

/// What `branch::arm_b_ir` keeps.
pub broadcast proof fn arm_b_extends(s: EmitterState, inst: DecodedArm)
    ensures
        extends(s, #[trigger] branch::arm_b_ir(s, inst)),
{
    broadcast use group_appends;
    appends_nothing(s);
}

/// What `branch::arm_bl_ir` keeps.
pub broadcast proof fn arm_bl_extends(s: EmitterState, inst: DecodedArm)
    ensures
        extends(s, #[trigger] branch::arm_bl_ir(s, inst)),
{
    broadcast use group_appends;
    appends_nothing(s);
}

/// What `branch::arm_blx_imm_ir` keeps.
pub broadcast proof fn arm_blx_imm_extends(s: EmitterState, inst: DecodedArm)
    ensures
        extends(s, #[trigger] branch::arm_blx_imm_ir(s, inst)),
{
    broadcast use group_appends;
    appends_nothing(s);
}

/// What `branch::arm_blx_reg_ir` keeps.
pub broadcast proof fn arm_blx_reg_extends(s: EmitterState, inst: DecodedArm)
    ensures
        extends(s, #[trigger] branch::arm_blx_reg_ir(s, inst)),
{
    broadcast use group_appends;
    appends_nothing(s);
}

/// What `branch::arm_bx_ir` keeps.
pub broadcast proof fn arm_bx_extends(s: EmitterState, inst: DecodedArm)
    ensures
        extends(s, #[trigger] branch::arm_bx_ir(s, inst)),
{
    broadcast use group_appends;
    appends_nothing(s);
}

/// What `coprocessor::arm_cdp_ir` keeps.
pub broadcast proof fn arm_cdp_extends(s: EmitterState, inst: DecodedArm)
    ensures
        extends(s, #[trigger] coprocessor::arm_cdp_ir(s, inst)),
{
    broadcast use group_appends;
    appends_nothing(s);
}

/// What `coprocessor::arm_ldc_ir` keeps.
pub broadcast proof fn arm_ldc_extends(s: EmitterState, inst: DecodedArm)
    ensures
        extends(s, #[trigger] coprocessor::arm_ldc_ir(s, inst)),
{
    broadcast use group_appends;
    appends_nothing(s);
}

/// What `coprocessor::arm_mcr_ir` keeps.
pub broadcast proof fn arm_mcr_extends(s: EmitterState, inst: DecodedArm)
    ensures
        extends(s, #[trigger] coprocessor::arm_mcr_ir(s, inst)),
{
    broadcast use group_appends;
    appends_nothing(s);
}

/// What `coprocessor::arm_mcrr_ir` keeps.
pub broadcast proof fn arm_mcrr_extends(s: EmitterState, inst: DecodedArm)
    ensures
        extends(s, #[trigger] coprocessor::arm_mcrr_ir(s, inst)),
{
    broadcast use group_appends;
    appends_nothing(s);
}

/// What `coprocessor::arm_mrc_ir` keeps.
pub broadcast proof fn arm_mrc_extends(s: EmitterState, inst: DecodedArm)
    ensures
        extends(s, #[trigger] coprocessor::arm_mrc_ir(s, inst)),
{
    broadcast use group_appends;
    appends_nothing(s);
}

/// What `coprocessor::arm_mrrc_ir` keeps.
pub broadcast proof fn arm_mrrc_extends(s: EmitterState, inst: DecodedArm)
    ensures
        extends(s, #[trigger] coprocessor::arm_mrrc_ir(s, inst)),
{
    broadcast use group_appends;
    appends_nothing(s);
}

/// What `coprocessor::arm_stc_ir` keeps.
pub broadcast proof fn arm_stc_extends(s: EmitterState, inst: DecodedArm)
    ensures
        extends(s, #[trigger] coprocessor::arm_stc_ir(s, inst)),
{
    broadcast use group_appends;
    appends_nothing(s);
}

/// What `data_processing::arm_dp_imm_ir` keeps.
pub broadcast proof fn arm_dp_imm_extends(s: EmitterState, inst: DecodedArm)
    ensures
        extends(s, #[trigger] data_processing::arm_dp_imm_ir(s, inst)),
{
    broadcast use group_appends;
    appends_nothing(s);
}

/// What `data_processing::arm_dp_reg_ir` keeps.
pub broadcast proof fn arm_dp_reg_extends(s: EmitterState, inst: DecodedArm)
    ensures
        extends(s, #[trigger] data_processing::arm_dp_reg_ir(s, inst)),
{
    broadcast use group_appends;
    appends_nothing(s);
}

/// What `data_processing::arm_dp_rsr_ir` keeps.
pub broadcast proof fn arm_dp_rsr_extends(s: EmitterState, inst: DecodedArm)
    ensures
        extends(s, #[trigger] data_processing::arm_dp_rsr_ir(s, inst)),
{
    broadcast use group_appends;
    appends_nothing(s);
}

/// What `exception::arm_bkpt_ir` keeps.
pub broadcast proof fn arm_bkpt_extends(
    s: EmitterState,
    inst: DecodedArm,
    options: TranslationOptions,
)
    ensures
        extends(s, #[trigger] exception::arm_bkpt_ir(s, inst, options)),
{
    broadcast use group_appends;
    appends_nothing(s);
}

/// What `exception::arm_svc_ir` keeps.
pub broadcast proof fn arm_svc_extends(s: EmitterState, inst: DecodedArm)
    ensures
        extends(s, #[trigger] exception::arm_svc_ir(s, inst)),
{
    broadcast use group_appends;
    appends_nothing(s);
}

/// What `hint::hint_ir` keeps.
pub broadcast proof fn hint_extends(
    s: EmitterState,
    options: TranslationOptions,
    exception: Exception,
)
    ensures
        extends(s, #[trigger] hint::hint_ir(s, options, exception)),
{
    broadcast use group_appends;
    appends_nothing(s);
}

/// What `load_store::arm_ldrd_imm_ir` keeps.
pub broadcast proof fn arm_ldrd_imm_extends(s: EmitterState, inst: DecodedArm)
    ensures
        extends(s, #[trigger] load_store::arm_ldrd_imm_ir(s, inst)),
{
    broadcast use group_appends;
    appends_nothing(s);
}

/// What `load_store::arm_ldrd_lit_ir` keeps.
pub broadcast proof fn arm_ldrd_lit_extends(s: EmitterState, inst: DecodedArm)
    ensures
        extends(s, #[trigger] load_store::arm_ldrd_lit_ir(s, inst)),
{
    broadcast use group_appends;
    appends_nothing(s);
}

/// What `load_store::arm_ldrd_reg_ir` keeps.
pub broadcast proof fn arm_ldrd_reg_extends(s: EmitterState, inst: DecodedArm)
    ensures
        extends(s, #[trigger] load_store::arm_ldrd_reg_ir(s, inst)),
{
    broadcast use group_appends;
    appends_nothing(s);
}

/// What `load_store::arm_strd_imm_ir` keeps.
pub broadcast proof fn arm_strd_imm_extends(s: EmitterState, inst: DecodedArm)
    ensures
        extends(s, #[trigger] load_store::arm_strd_imm_ir(s, inst)),
{
    broadcast use group_appends;
    appends_nothing(s);
}

/// What `load_store::arm_strd_reg_ir` keeps.
pub broadcast proof fn arm_strd_reg_extends(s: EmitterState, inst: DecodedArm)
    ensures
        extends(s, #[trigger] load_store::arm_strd_reg_ir(s, inst)),
{
    broadcast use group_appends;
    appends_nothing(s);
}

/// What `load_store::load_imm_ir` keeps.
pub broadcast proof fn load_imm_extends(
    s: EmitterState,
    inst: DecodedArm,
    imm: u32,
    width: Width,
    signed: bool,
)
    ensures
        extends(s, #[trigger] load_store::load_imm_ir(s, inst, imm, width, signed)),
{
    broadcast use group_appends;
    appends_nothing(s);
}

/// What `load_store::load_literal_ir` keeps.
pub broadcast proof fn load_literal_extends(
    s: EmitterState,
    inst: DecodedArm,
    imm: u32,
    width: Width,
    signed: bool,
)
    ensures
        extends(s, #[trigger] load_store::load_literal_ir(s, inst, imm, width, signed)),
{
    broadcast use group_appends;
    appends_nothing(s);
}

/// What `load_store::load_reg_ir` keeps.
pub broadcast proof fn load_reg_extends(
    s: EmitterState,
    inst: DecodedArm,
    width: Width,
    signed: bool,
)
    ensures
        extends(s, #[trigger] load_store::load_reg_ir(s, inst, width, signed)),
{
    broadcast use group_appends;
    appends_nothing(s);
}

/// What `load_store::load_shifted_ir` keeps.
pub broadcast proof fn load_shifted_extends(s: EmitterState, inst: DecodedArm, width: Width)
    ensures
        extends(s, #[trigger] load_store::load_shifted_ir(s, inst, width)),
{
    broadcast use group_appends;
    appends_nothing(s);
}

/// What `load_store::store_imm_ir` keeps.
pub broadcast proof fn store_imm_extends(s: EmitterState, inst: DecodedArm, imm: u32, width: Width)
    ensures
        extends(s, #[trigger] load_store::store_imm_ir(s, inst, imm, width)),
{
    broadcast use group_appends;
    appends_nothing(s);
}

/// What `load_store::store_reg_ir` keeps.
pub broadcast proof fn store_reg_extends(s: EmitterState, inst: DecodedArm, width: Width)
    ensures
        extends(s, #[trigger] load_store::store_reg_ir(s, inst, width)),
{
    broadcast use group_appends;
    appends_nothing(s);
}

/// What `load_store::store_shifted_ir` keeps.
pub broadcast proof fn store_shifted_extends(s: EmitterState, inst: DecodedArm, width: Width)
    ensures
        extends(s, #[trigger] load_store::store_shifted_ir(s, inst, width)),
{
    broadcast use group_appends;
    appends_nothing(s);
}

/// What `multiply::arm_mla_ir` keeps.
pub broadcast proof fn arm_mla_extends(s: EmitterState, inst: DecodedArm)
    ensures
        extends(s, #[trigger] multiply::arm_mla_ir(s, inst)),
{
    broadcast use group_appends;
    appends_nothing(s);
}

/// What `multiply::arm_mls_ir` keeps.
pub broadcast proof fn arm_mls_extends(s: EmitterState, inst: DecodedArm)
    ensures
        extends(s, #[trigger] multiply::arm_mls_ir(s, inst)),
{
    broadcast use group_appends;
    appends_nothing(s);
}

/// What `multiply::arm_mul_ir` keeps.
pub broadcast proof fn arm_mul_extends(s: EmitterState, inst: DecodedArm)
    ensures
        extends(s, #[trigger] multiply::arm_mul_ir(s, inst)),
{
    broadcast use group_appends;
    appends_nothing(s);
}

/// What `multiply::arm_smlalxy_ir` keeps.
pub broadcast proof fn arm_smlalxy_extends(s: EmitterState, inst: DecodedArm)
    ensures
        extends(s, #[trigger] multiply::arm_smlalxy_ir(s, inst)),
{
    broadcast use group_appends;
    appends_nothing(s);
}

/// What `multiply::arm_smlawy_ir` keeps.
pub broadcast proof fn arm_smlawy_extends(s: EmitterState, inst: DecodedArm)
    ensures
        extends(s, #[trigger] multiply::arm_smlawy_ir(s, inst)),
{
    broadcast use group_appends;
    appends_nothing(s);
}

/// What `multiply::arm_smlaxy_ir` keeps.
pub broadcast proof fn arm_smlaxy_extends(s: EmitterState, inst: DecodedArm)
    ensures
        extends(s, #[trigger] multiply::arm_smlaxy_ir(s, inst)),
{
    broadcast use group_appends;
    appends_nothing(s);
}

/// What `multiply::arm_smmla_ir` keeps.
pub broadcast proof fn arm_smmla_extends(s: EmitterState, inst: DecodedArm)
    ensures
        extends(s, #[trigger] multiply::arm_smmla_ir(s, inst)),
{
    broadcast use group_appends;
    appends_nothing(s);
}

/// What `multiply::arm_smmls_ir` keeps.
pub broadcast proof fn arm_smmls_extends(s: EmitterState, inst: DecodedArm)
    ensures
        extends(s, #[trigger] multiply::arm_smmls_ir(s, inst)),
{
    broadcast use group_appends;
    appends_nothing(s);
}

/// What `multiply::arm_smmul_ir` keeps.
pub broadcast proof fn arm_smmul_extends(s: EmitterState, inst: DecodedArm)
    ensures
        extends(s, #[trigger] multiply::arm_smmul_ir(s, inst)),
{
    broadcast use group_appends;
    appends_nothing(s);
}

/// What `multiply::arm_smulwy_ir` keeps.
pub broadcast proof fn arm_smulwy_extends(s: EmitterState, inst: DecodedArm)
    ensures
        extends(s, #[trigger] multiply::arm_smulwy_ir(s, inst)),
{
    broadcast use group_appends;
    appends_nothing(s);
}

/// What `multiply::arm_smulxy_ir` keeps.
pub broadcast proof fn arm_smulxy_extends(s: EmitterState, inst: DecodedArm)
    ensures
        extends(s, #[trigger] multiply::arm_smulxy_ir(s, inst)),
{
    broadcast use group_appends;
    appends_nothing(s);
}

/// What `multiply::arm_umaal_ir` keeps.
pub broadcast proof fn arm_umaal_extends(s: EmitterState, inst: DecodedArm)
    ensures
        extends(s, #[trigger] multiply::arm_umaal_ir(s, inst)),
{
    broadcast use group_appends;
    appends_nothing(s);
}

/// What `multiply::long_multiply_ir` keeps.
pub broadcast proof fn long_multiply_extends(
    s: EmitterState,
    inst: DecodedArm,
    signed: bool,
    accumulate: bool,
)
    ensures
        extends(s, #[trigger] multiply::long_multiply_ir(s, inst, signed, accumulate)),
{
    broadcast use group_appends;
    appends_nothing(s);
}

/// What `status_register::arm_mrs_ir` keeps.
pub broadcast proof fn arm_mrs_extends(s: EmitterState, inst: DecodedArm)
    ensures
        extends(s, #[trigger] status_register::arm_mrs_ir(s, inst)),
{
    broadcast use group_appends;
    appends_nothing(s);
}

/// What `status_register::arm_msr_imm_ir` keeps.
pub broadcast proof fn arm_msr_imm_extends(s: EmitterState, inst: DecodedArm)
    ensures
        extends(s, #[trigger] status_register::arm_msr_imm_ir(s, inst)),
{
    broadcast use group_appends;
    appends_nothing(s);
}

/// What `status_register::arm_msr_reg_ir` keeps.
pub broadcast proof fn arm_msr_reg_extends(s: EmitterState, inst: DecodedArm)
    ensures
        extends(s, #[trigger] status_register::arm_msr_reg_ir(s, inst)),
{
    broadcast use group_appends;
    appends_nothing(s);
}

/// What `interpret_ir` keeps.
pub broadcast proof fn interpret_extends(s: EmitterState)
    ensures
        extends(s, #[trigger] interpret_ir(s)),
{
    broadcast use group_appends;
    appends_nothing(s);
}

/// What `undefined_ir` keeps.
pub broadcast proof fn undefined_extends(s: EmitterState)
    ensures
        extends(s, #[trigger] undefined_ir(s)),
{
    broadcast use group_appends;
    appends_nothing(s);
}

/// What `synchronization::exclusive_store_double_ir` keeps.
pub broadcast proof fn exclusive_store_double_extends(
    s: EmitterState,
    inst: DecodedArm,
    acc: AccType,
)
    ensures
        extends(s, #[trigger] synchronization::exclusive_store_double_ir(s, inst, acc)),
{
    broadcast use group_appends;
    appends_nothing(s);
}

/// What `synchronization::exclusive_store_ir` keeps.
pub broadcast proof fn exclusive_store_extends(
    s: EmitterState,
    inst: DecodedArm,
    width: Width,
    acc: AccType,
)
    ensures
        extends(s, #[trigger] synchronization::exclusive_store_ir(s, inst, width, acc)),
{
    broadcast use group_appends;
    appends_nothing(s);
}

/// What `synchronization::swap_ir` keeps.
pub broadcast proof fn swap_extends(s: EmitterState, inst: DecodedArm, width: Width)
    ensures
        extends(s, #[trigger] synchronization::swap_ir(s, inst, width)),
{
    broadcast use group_appends;
    appends_nothing(s);
}

/// What `synchronization::sync_load_double_ir` keeps.
pub broadcast proof fn sync_load_double_extends(s: EmitterState, inst: DecodedArm, acc: AccType)
    ensures
        extends(s, #[trigger] synchronization::sync_load_double_ir(s, inst, acc)),
{
    broadcast use group_appends;
    appends_nothing(s);
}

/// What `synchronization::sync_load_ir` keeps.
pub broadcast proof fn sync_load_extends(
    s: EmitterState,
    inst: DecodedArm,
    width: Width,
    exclusive: bool,
    acc: AccType,
)
    ensures
        extends(s, #[trigger] synchronization::sync_load_ir(s, inst, width, exclusive, acc)),
{
    broadcast use group_appends;
    appends_nothing(s);
}

/// What `synchronization::sync_store_ir` keeps.
pub broadcast proof fn sync_store_extends(s: EmitterState, inst: DecodedArm, width: Width)
    ensures
        extends(s, #[trigger] synchronization::sync_store_ir(s, inst, width)),
{
    broadcast use group_appends;
    appends_nothing(s);
}

/// What `raise_ir` keeps.
pub broadcast proof fn raise_extends(s: EmitterState, exception: Exception, size: u32)
    ensures
        extends(s, #[trigger] raise_ir(s, exception, size)),
{
    broadcast use group_appends;
    appends_nothing(s);
}

/// What `unpredictable_ir` keeps.
pub broadcast proof fn unpredictable_extends(s: EmitterState)
    ensures
        extends(s, #[trigger] unpredictable_ir(s)),
{
    broadcast use group_appends;
    appends_nothing(s);
}

/// What an operation without operands keeps.
pub broadcast proof fn op0_extends(s: EmitterState, opcode: Opcode)
    ensures
        extends(s, ((#[trigger] s.op0(opcode)).0, true)),
{
    broadcast use group_appends;
    appends_nothing(s);
}

pub broadcast group group_arm_extends {
    crc32_extends,
    arm_b_extends,
    arm_bl_extends,
    arm_blx_imm_extends,
    arm_blx_reg_extends,
    arm_bx_extends,
    arm_cdp_extends,
    arm_ldc_extends,
    arm_mcr_extends,
    arm_mcrr_extends,
    arm_mrc_extends,
    arm_mrrc_extends,
    arm_stc_extends,
    arm_dp_imm_extends,
    arm_dp_reg_extends,
    arm_dp_rsr_extends,
    arm_bkpt_extends,
    arm_svc_extends,
    hint_extends,
    arm_ldrd_imm_extends,
    arm_ldrd_lit_extends,
    arm_ldrd_reg_extends,
    arm_strd_imm_extends,
    arm_strd_reg_extends,
    load_imm_extends,
    load_literal_extends,
    load_reg_extends,
    load_shifted_extends,
    store_imm_extends,
    store_reg_extends,
    store_shifted_extends,
    arm_mla_extends,
    arm_mls_extends,
    arm_mul_extends,
    arm_smlalxy_extends,
    arm_smlawy_extends,
    arm_smlaxy_extends,
    arm_smmla_extends,
    arm_smmls_extends,
    arm_smmul_extends,
    arm_smulwy_extends,
    arm_smulxy_extends,
    arm_umaal_extends,
    long_multiply_extends,
    arm_mrs_extends,
    arm_msr_imm_extends,
    arm_msr_reg_extends,
    interpret_extends,
    undefined_extends,
    exclusive_store_double_extends,
    exclusive_store_extends,
    swap_extends,
    sync_load_double_extends,
    sync_load_extends,
    sync_store_extends,
    raise_extends,
    unpredictable_extends,
    op0_extends,
}

/// The translation of a memory access only appends.
#[verifier::rlimit(60)]
pub proof fn arm_memory_extends(s: EmitterState, inst: DecodedArm)
    ensures
        extends(s, arm_memory_ir(s, inst)),
{
    broadcast use group_arm_extends;
    reveal(arm_memory_ir);
    appends_nothing(s);
}

/// The translation of a multiplication only appends.
#[verifier::rlimit(60)]
pub proof fn arm_multiply_extends(s: EmitterState, inst: DecodedArm)
    ensures
        extends(s, arm_multiply_ir(s, inst)),
{
    broadcast use group_arm_extends;
    reveal(arm_multiply_ir);
    appends_nothing(s);
}

/// The translation of an ARM instruction only appends.
#[verifier::rlimit(60)]
pub proof fn arm_extends(s: EmitterState, inst: DecodedArm, options: TranslationOptions)
    ensures
        extends_unless(
            s,
            translate_arm_instruction_ir(s, inst, options),
            lacks_lane_size(inst),
        ),
{
    broadcast use group_arm_extends;
    appends_nothing(s);
    arm_memory_extends(s, inst);
    arm_multiply_extends(s, inst);
    super::laws_vector::arm_vector_extends(s, inst);
}

} // verus!
