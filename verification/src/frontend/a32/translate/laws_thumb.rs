//! What the translation of every Thumb instruction keeps.

use vstd::prelude::*;
use crate::frontend::a32::decoder_thumb16::DecodedThumb16;
use crate::frontend::a32::decoder_thumb32::DecodedThumb32;
use crate::frontend::a32::types::Exception;
use crate::frontend::a32::types::Reg;
use crate::frontend::a32::types::ShiftType;
use crate::ir::a32_emitter::{appends, appends_nothing, group_appends, EmitterState};
use crate::ir::acc_type::AccType;
use crate::ir::opcode::Opcode;
use crate::ir::value::Value;
use super::TranslationOptions;
use super::helpers::Width;
use super::laws::extends;
use super::laws_arm::group_arm_extends;
use super::thumb16::translate_thumb16_ir;
use super::thumb16;
use super::thumb32::translate_thumb32_ir;
use super::thumb32_branch;
use super::thumb32_control;
use super::thumb32_coprocessor;
use super::thumb32_data_processing_modified_immediate;
use super::thumb32_data_processing_plain_binary_immediate::SaturationFunction;
use super::thumb32_data_processing_plain_binary_immediate;
use super::thumb32_data_processing_register;
use super::thumb32_data_processing_shifted_register;
use super::thumb32_load_byte;
use super::thumb32_load_halfword;

verus! {

/// Storing the registers of a list is appending.
pub broadcast proof fn store_list_appends(
    s: EmitterState,
    t: EmitterState,
    address: Value,
    inst: DecodedThumb16,
    acc: AccType,
    n: int,
)
    requires
        #[trigger] appends(s, t),
    ensures
        appends(s, (#[trigger] thumb16::store_list_ir(t, address, inst, acc, n)).0),
        thumb16::store_list_ir(t, address, inst, acc, n).0.terminal == t.terminal,
    decreases n,
{
    broadcast use group_appends;
    if n > 0 {
        store_list_appends(s, t, address, inst, acc, n - 1);
    }
}

/// Loading the registers of a list is appending.
pub broadcast proof fn load_list_appends(
    s: EmitterState,
    t: EmitterState,
    address: Value,
    inst: DecodedThumb16,
    acc: AccType,
    n: int,
)
    requires
        #[trigger] appends(s, t),
    ensures
        appends(s, (#[trigger] thumb16::load_list_ir(t, address, inst, acc, n)).0),
        thumb16::load_list_ir(t, address, inst, acc, n).0.terminal == t.terminal,
    decreases n,
{
    broadcast use group_appends;
    if n > 0 {
        load_list_appends(s, t, address, inst, acc, n - 1);
    }
}

pub broadcast group group_list_walks {
    store_list_appends,
    load_list_appends,
}

/// What `thumb16::thumb16_add_reg_t2_ir` keeps.
pub broadcast proof fn thumb16_add_reg_t2_extends(s: EmitterState, inst: DecodedThumb16)
    ensures
        extends(s, #[trigger] thumb16::thumb16_add_reg_t2_ir(s, inst)),
{
    broadcast use group_appends;
    appends_nothing(s);
}

/// What `thumb16::thumb16_adr_ir` keeps.
pub broadcast proof fn thumb16_adr_extends(s: EmitterState, inst: DecodedThumb16)
    ensures
        extends(s, #[trigger] thumb16::thumb16_adr_ir(s, inst)),
{
    broadcast use group_appends;
    appends_nothing(s);
}

/// What `thumb16::thumb16_arith_carry_ir` keeps.
pub broadcast proof fn thumb16_arith_carry_extends(
    s: EmitterState,
    inst: DecodedThumb16,
    operation: Opcode,
)
    ensures
        extends(s, #[trigger] thumb16::thumb16_arith_carry_ir(s, inst, operation)),
{
    broadcast use group_appends;
    appends_nothing(s);
}

/// What `thumb16::thumb16_arith_imm_ir` keeps.
pub broadcast proof fn thumb16_arith_imm_extends(
    s: EmitterState,
    rd: Option<Reg>,
    operation: Opcode,
    rn: Reg,
    imm: u32,
)
    ensures
        extends(s, #[trigger] thumb16::thumb16_arith_imm_ir(s, rd, operation, rn, imm)),
{
    broadcast use group_appends;
    appends_nothing(s);
}

/// What `thumb16::thumb16_arith_reg_ir` keeps.
pub broadcast proof fn thumb16_arith_reg_extends(
    s: EmitterState,
    rd: Option<Reg>,
    operation: Opcode,
    rn: Reg,
    rm: Reg,
)
    ensures
        extends(s, #[trigger] thumb16::thumb16_arith_reg_ir(s, rd, operation, rn, rm)),
{
    broadcast use group_appends;
    appends_nothing(s);
}

/// What `thumb16::thumb16_b_cond_ir` keeps.
pub broadcast proof fn thumb16_b_cond_extends(s: EmitterState, inst: DecodedThumb16)
    ensures
        extends(s, #[trigger] thumb16::thumb16_b_cond_ir(s, inst)),
{
    broadcast use group_appends;
    appends_nothing(s);
}

/// What `thumb16::thumb16_b_uncond_ir` keeps.
pub broadcast proof fn thumb16_b_uncond_extends(s: EmitterState, inst: DecodedThumb16)
    ensures
        extends(s, #[trigger] thumb16::thumb16_b_uncond_ir(s, inst)),
{
    broadcast use group_appends;
    appends_nothing(s);
}

/// What `thumb16::thumb16_bic_reg_ir` keeps.
pub broadcast proof fn thumb16_bic_reg_extends(s: EmitterState, inst: DecodedThumb16)
    ensures
        extends(s, #[trigger] thumb16::thumb16_bic_reg_ir(s, inst)),
{
    broadcast use group_appends;
    appends_nothing(s);
}

/// What `thumb16::thumb16_blx_reg_ir` keeps.
pub broadcast proof fn thumb16_blx_reg_extends(s: EmitterState, inst: DecodedThumb16)
    ensures
        extends(s, #[trigger] thumb16::thumb16_blx_reg_ir(s, inst)),
{
    broadcast use group_appends;
    appends_nothing(s);
}

/// What `thumb16::thumb16_bx_ir` keeps.
pub broadcast proof fn thumb16_bx_extends(s: EmitterState, rm: Reg)
    ensures
        extends(s, #[trigger] thumb16::thumb16_bx_ir(s, rm)),
{
    broadcast use group_appends;
    appends_nothing(s);
}

/// What `thumb16::thumb16_cbz_cbnz_ir` keeps.
pub broadcast proof fn thumb16_cbz_cbnz_extends(s: EmitterState, inst: DecodedThumb16)
    ensures
        extends(s, #[trigger] thumb16::thumb16_cbz_cbnz_ir(s, inst)),
{
    broadcast use group_appends;
    appends_nothing(s);
}

/// What `thumb16::thumb16_hint_ir` keeps.
pub broadcast proof fn thumb16_hint_extends(
    s: EmitterState,
    options: TranslationOptions,
    exception: Exception,
)
    ensures
        extends(s, #[trigger] thumb16::thumb16_hint_ir(s, options, exception)),
{
    broadcast use group_appends;
    appends_nothing(s);
}

/// What `thumb16::thumb16_it_ir` keeps.
pub broadcast proof fn thumb16_it_extends(s: EmitterState, inst: DecodedThumb16)
    ensures
        extends(s, #[trigger] thumb16::thumb16_it_ir(s, inst)),
{
    broadcast use group_appends;
    appends_nothing(s);
}

/// What `thumb16::thumb16_ldmia_ir` keeps.
pub broadcast proof fn thumb16_ldmia_extends(s: EmitterState, inst: DecodedThumb16)
    ensures
        extends(s, #[trigger] thumb16::thumb16_ldmia_ir(s, inst)),
{
    broadcast use {group_appends, group_list_walks};
    appends_nothing(s);
}

/// What `thumb16::thumb16_ldr_literal_ir` keeps.
pub broadcast proof fn thumb16_ldr_literal_extends(s: EmitterState, inst: DecodedThumb16)
    ensures
        extends(s, #[trigger] thumb16::thumb16_ldr_literal_ir(s, inst)),
{
    broadcast use group_appends;
    appends_nothing(s);
}

/// What `thumb16::thumb16_load_imm_ir` keeps.
pub broadcast proof fn thumb16_load_imm_extends(
    s: EmitterState,
    rt: Reg,
    rn: Reg,
    imm: u32,
    width: Width,
)
    ensures
        extends(s, #[trigger] thumb16::thumb16_load_imm_ir(s, rt, rn, imm, width)),
{
    broadcast use group_appends;
    appends_nothing(s);
}

/// What `thumb16::thumb16_load_reg_ir` keeps.
pub broadcast proof fn thumb16_load_reg_extends(
    s: EmitterState,
    inst: DecodedThumb16,
    width: Width,
    signed: bool,
)
    ensures
        extends(s, #[trigger] thumb16::thumb16_load_reg_ir(s, inst, width, signed)),
{
    broadcast use group_appends;
    appends_nothing(s);
}

/// What `thumb16::thumb16_logic_ir` keeps.
pub broadcast proof fn thumb16_logic_extends(
    s: EmitterState,
    inst: DecodedThumb16,
    operation: Opcode,
)
    ensures
        extends(s, #[trigger] thumb16::thumb16_logic_ir(s, inst, operation)),
{
    broadcast use group_appends;
    appends_nothing(s);
}

/// What `thumb16::thumb16_mask_ir` keeps.
pub broadcast proof fn thumb16_mask_extends(s: EmitterState, inst: DecodedThumb16, mask: u32)
    ensures
        extends(s, #[trigger] thumb16::thumb16_mask_ir(s, inst, mask)),
{
    broadcast use group_appends;
    appends_nothing(s);
}

/// What `thumb16::thumb16_mov_imm_ir` keeps.
pub broadcast proof fn thumb16_mov_imm_extends(s: EmitterState, inst: DecodedThumb16)
    ensures
        extends(s, #[trigger] thumb16::thumb16_mov_imm_ir(s, inst)),
{
    broadcast use group_appends;
    appends_nothing(s);
}

/// What `thumb16::thumb16_mov_reg_ir` keeps.
pub broadcast proof fn thumb16_mov_reg_extends(s: EmitterState, inst: DecodedThumb16)
    ensures
        extends(s, #[trigger] thumb16::thumb16_mov_reg_ir(s, inst)),
{
    broadcast use group_appends;
    appends_nothing(s);
}

/// What `thumb16::thumb16_mvn_reg_ir` keeps.
pub broadcast proof fn thumb16_mvn_reg_extends(s: EmitterState, inst: DecodedThumb16)
    ensures
        extends(s, #[trigger] thumb16::thumb16_mvn_reg_ir(s, inst)),
{
    broadcast use group_appends;
    appends_nothing(s);
}

/// What `thumb16::thumb16_pop_ir` keeps.
pub broadcast proof fn thumb16_pop_extends(s: EmitterState, inst: DecodedThumb16)
    ensures
        extends(s, #[trigger] thumb16::thumb16_pop_ir(s, inst)),
{
    broadcast use {group_appends, group_list_walks};
    appends_nothing(s);
}

/// What `thumb16::thumb16_push_ir` keeps.
pub broadcast proof fn thumb16_push_extends(s: EmitterState, inst: DecodedThumb16)
    ensures
        extends(s, #[trigger] thumb16::thumb16_push_ir(s, inst)),
{
    broadcast use {group_appends, group_list_walks};
    appends_nothing(s);
}

/// What `thumb16::thumb16_rev16_ir` keeps.
pub broadcast proof fn thumb16_rev16_extends(s: EmitterState, inst: DecodedThumb16)
    ensures
        extends(s, #[trigger] thumb16::thumb16_rev16_ir(s, inst)),
{
    broadcast use group_appends;
    appends_nothing(s);
}

/// What `thumb16::thumb16_revsh_ir` keeps.
pub broadcast proof fn thumb16_revsh_extends(s: EmitterState, inst: DecodedThumb16)
    ensures
        extends(s, #[trigger] thumb16::thumb16_revsh_ir(s, inst)),
{
    broadcast use group_appends;
    appends_nothing(s);
}

/// What `thumb16::thumb16_rsb_imm_ir` keeps.
pub broadcast proof fn thumb16_rsb_imm_extends(s: EmitterState, inst: DecodedThumb16)
    ensures
        extends(s, #[trigger] thumb16::thumb16_rsb_imm_ir(s, inst)),
{
    broadcast use group_appends;
    appends_nothing(s);
}

/// What `thumb16::thumb16_shift_imm_ir` keeps.
pub broadcast proof fn thumb16_shift_imm_extends(
    s: EmitterState,
    inst: DecodedThumb16,
    shift: ShiftType,
)
    ensures
        extends(s, #[trigger] thumb16::thumb16_shift_imm_ir(s, inst, shift)),
{
    broadcast use group_appends;
    appends_nothing(s);
}

/// What `thumb16::thumb16_shift_reg_ir` keeps.
pub broadcast proof fn thumb16_shift_reg_extends(
    s: EmitterState,
    inst: DecodedThumb16,
    shift: Opcode,
)
    ensures
        extends(s, #[trigger] thumb16::thumb16_shift_reg_ir(s, inst, shift)),
{
    broadcast use group_appends;
    appends_nothing(s);
}

/// What `thumb16::thumb16_sp_ir` keeps.
pub broadcast proof fn thumb16_sp_extends(s: EmitterState, rd: Reg, operation: Opcode, imm: u32)
    ensures
        extends(s, #[trigger] thumb16::thumb16_sp_ir(s, rd, operation, imm)),
{
    broadcast use group_appends;
    appends_nothing(s);
}

/// What `thumb16::thumb16_stmia_ir` keeps.
pub broadcast proof fn thumb16_stmia_extends(s: EmitterState, inst: DecodedThumb16)
    ensures
        extends(s, #[trigger] thumb16::thumb16_stmia_ir(s, inst)),
{
    broadcast use {group_appends, group_list_walks};
    appends_nothing(s);
}

/// What `thumb16::thumb16_store_imm_ir` keeps.
pub broadcast proof fn thumb16_store_imm_extends(
    s: EmitterState,
    rt: Reg,
    rn: Reg,
    imm: u32,
    width: Width,
)
    ensures
        extends(s, #[trigger] thumb16::thumb16_store_imm_ir(s, rt, rn, imm, width)),
{
    broadcast use group_appends;
    appends_nothing(s);
}

/// What `thumb16::thumb16_store_reg_ir` keeps.
pub broadcast proof fn thumb16_store_reg_extends(
    s: EmitterState,
    inst: DecodedThumb16,
    width: Width,
)
    ensures
        extends(s, #[trigger] thumb16::thumb16_store_reg_ir(s, inst, width)),
{
    broadcast use group_appends;
    appends_nothing(s);
}

/// What `thumb16::thumb16_svc_ir` keeps.
pub broadcast proof fn thumb16_svc_extends(s: EmitterState, inst: DecodedThumb16)
    ensures
        extends(s, #[trigger] thumb16::thumb16_svc_ir(s, inst)),
{
    broadcast use group_appends;
    appends_nothing(s);
}

/// What `thumb16::thumb16_tst_reg_ir` keeps.
pub broadcast proof fn thumb16_tst_reg_extends(s: EmitterState, inst: DecodedThumb16)
    ensures
        extends(s, #[trigger] thumb16::thumb16_tst_reg_ir(s, inst)),
{
    broadcast use group_appends;
    appends_nothing(s);
}

/// What `thumb16::thumb16_unary_ir` keeps.
pub broadcast proof fn thumb16_unary_extends(
    s: EmitterState,
    inst: DecodedThumb16,
    operation: Opcode,
)
    ensures
        extends(s, #[trigger] thumb16::thumb16_unary_ir(s, inst, operation)),
{
    broadcast use group_appends;
    appends_nothing(s);
}

/// What `thumb32_branch::thumb32_b_cond_ir` keeps.
pub broadcast proof fn thumb32_b_cond_extends(s: EmitterState, inst: DecodedThumb32)
    ensures
        extends(s, #[trigger] thumb32_branch::thumb32_b_cond_ir(s, inst)),
{
    broadcast use group_appends;
    appends_nothing(s);
}

/// What `thumb32_branch::thumb32_b_ir` keeps.
pub broadcast proof fn thumb32_b_extends(s: EmitterState, inst: DecodedThumb32)
    ensures
        extends(s, #[trigger] thumb32_branch::thumb32_b_ir(s, inst)),
{
    broadcast use group_appends;
    appends_nothing(s);
}

/// What `thumb32_branch::thumb32_bl_imm_ir` keeps.
pub broadcast proof fn thumb32_bl_imm_extends(s: EmitterState, inst: DecodedThumb32)
    ensures
        extends(s, #[trigger] thumb32_branch::thumb32_bl_imm_ir(s, inst)),
{
    broadcast use group_appends;
    appends_nothing(s);
}

/// What `thumb32_branch::thumb32_blx_imm_ir` keeps.
pub broadcast proof fn thumb32_blx_imm_extends(s: EmitterState, inst: DecodedThumb32)
    ensures
        extends(s, #[trigger] thumb32_branch::thumb32_blx_imm_ir(s, inst)),
{
    broadcast use group_appends;
    appends_nothing(s);
}

/// What `thumb32_control::thumb32_bxj_ir` keeps.
pub broadcast proof fn thumb32_bxj_extends(s: EmitterState, inst: DecodedThumb32)
    ensures
        extends(s, #[trigger] thumb32_control::thumb32_bxj_ir(s, inst)),
{
    broadcast use group_appends;
    appends_nothing(s);
}

/// What `thumb32_control::thumb32_isb_ir` keeps.
pub broadcast proof fn thumb32_isb_extends(s: EmitterState)
    ensures
        extends(s, #[trigger] thumb32_control::thumb32_isb_ir(s)),
{
    broadcast use group_appends;
    appends_nothing(s);
}

/// What `thumb32_control::thumb32_mrs_reg_ir` keeps.
pub broadcast proof fn thumb32_mrs_reg_extends(s: EmitterState, inst: DecodedThumb32)
    ensures
        extends(s, #[trigger] thumb32_control::thumb32_mrs_reg_ir(s, inst)),
{
    broadcast use group_appends;
    appends_nothing(s);
}

/// What `thumb32_control::thumb32_msr_reg_ir` keeps.
pub broadcast proof fn thumb32_msr_reg_extends(s: EmitterState, inst: DecodedThumb32)
    ensures
        extends(s, #[trigger] thumb32_control::thumb32_msr_reg_ir(s, inst)),
{
    broadcast use group_appends;
    appends_nothing(s);
}

/// What `thumb32_coprocessor::thumb32_cdp_ir` keeps.
pub broadcast proof fn thumb32_cdp_extends(s: EmitterState, inst: DecodedThumb32)
    ensures
        extends(s, #[trigger] thumb32_coprocessor::thumb32_cdp_ir(s, inst)),
{
    broadcast use group_appends;
    appends_nothing(s);
}

/// What `thumb32_coprocessor::thumb32_mcr_ir` keeps.
pub broadcast proof fn thumb32_mcr_extends(s: EmitterState, inst: DecodedThumb32)
    ensures
        extends(s, #[trigger] thumb32_coprocessor::thumb32_mcr_ir(s, inst)),
{
    broadcast use group_appends;
    appends_nothing(s);
}

/// What `thumb32_coprocessor::thumb32_mcrr_ir` keeps.
pub broadcast proof fn thumb32_mcrr_extends(s: EmitterState, inst: DecodedThumb32)
    ensures
        extends(s, #[trigger] thumb32_coprocessor::thumb32_mcrr_ir(s, inst)),
{
    broadcast use group_appends;
    appends_nothing(s);
}

/// What `thumb32_coprocessor::thumb32_mrc_ir` keeps.
pub broadcast proof fn thumb32_mrc_extends(s: EmitterState, inst: DecodedThumb32)
    ensures
        extends(s, #[trigger] thumb32_coprocessor::thumb32_mrc_ir(s, inst)),
{
    broadcast use group_appends;
    appends_nothing(s);
}

/// What `thumb32_coprocessor::thumb32_mrrc_ir` keeps.
pub broadcast proof fn thumb32_mrrc_extends(s: EmitterState, inst: DecodedThumb32)
    ensures
        extends(s, #[trigger] thumb32_coprocessor::thumb32_mrrc_ir(s, inst)),
{
    broadcast use group_appends;
    appends_nothing(s);
}

/// What `thumb32_coprocessor::words_transfer_ir` keeps.
pub broadcast proof fn words_transfer_extends(
    s: EmitterState,
    inst: DecodedThumb32,
    transfer: Opcode,
)
    ensures
        extends(s, #[trigger] thumb32_coprocessor::words_transfer_ir(s, inst, transfer)),
{
    broadcast use group_appends;
    appends_nothing(s);
}

/// What `thumb32_data_processing_modified_immediate::arithmetic_imm_ir` keeps.
pub broadcast proof fn arithmetic_imm_extends(
    s: EmitterState,
    inst: DecodedThumb32,
    operation: Opcode,
)
    ensures
        extends(
            s,
            #[trigger] thumb32_data_processing_modified_immediate::arithmetic_imm_ir(
                s,
                inst,
                operation,
            ),
        ),
{
    broadcast use group_appends;
    appends_nothing(s);
}

/// What `thumb32_data_processing_modified_immediate::carry_imm_ir` keeps.
pub broadcast proof fn carry_imm_extends(s: EmitterState, inst: DecodedThumb32, operation: Opcode)
    ensures
        extends(
            s,
            #[trigger] thumb32_data_processing_modified_immediate::carry_imm_ir(s, inst, operation),
        ),
{
    broadcast use group_appends;
    appends_nothing(s);
}

/// What `thumb32_data_processing_modified_immediate::compare_imm_ir` keeps.
pub broadcast proof fn compare_imm_extends(s: EmitterState, inst: DecodedThumb32, operation: Opcode)
    ensures
        extends(
            s,
            #[trigger] thumb32_data_processing_modified_immediate::compare_imm_ir(
                s,
                inst,
                operation,
            ),
        ),
{
    broadcast use group_appends;
    appends_nothing(s);
}

/// What `thumb32_data_processing_modified_immediate::logical_imm_ir` keeps.
pub broadcast proof fn logical_imm_extends(
    s: EmitterState,
    inst: DecodedThumb32,
    operation: Opcode,
    imm: u32,
)
    ensures
        extends(
            s,
            #[trigger] thumb32_data_processing_modified_immediate::logical_imm_ir(
                s,
                inst,
                operation,
                imm,
            ),
        ),
{
    broadcast use group_appends;
    appends_nothing(s);
}

/// What `thumb32_data_processing_modified_immediate::move_imm_ir` keeps.
pub broadcast proof fn move_imm_extends(s: EmitterState, inst: DecodedThumb32, imm: u32)
    ensures
        extends(
            s,
            #[trigger] thumb32_data_processing_modified_immediate::move_imm_ir(s, inst, imm),
        ),
{
    broadcast use group_appends;
    appends_nothing(s);
}

/// What `thumb32_data_processing_modified_immediate::test_imm_ir` keeps.
pub broadcast proof fn test_imm_extends(s: EmitterState, inst: DecodedThumb32, operation: Opcode)
    ensures
        extends(
            s,
            #[trigger] thumb32_data_processing_modified_immediate::test_imm_ir(s, inst, operation),
        ),
{
    broadcast use group_appends;
    appends_nothing(s);
}

/// What `thumb32_data_processing_modified_immediate::thumb32_rsb_imm_ir` keeps.
pub broadcast proof fn thumb32_rsb_imm_extends(s: EmitterState, inst: DecodedThumb32)
    ensures
        extends(
            s,
            #[trigger] thumb32_data_processing_modified_immediate::thumb32_rsb_imm_ir(s, inst),
        ),
{
    broadcast use group_appends;
    appends_nothing(s);
}

/// What `thumb32_data_processing_plain_binary_immediate::constant_ir` keeps.
pub broadcast proof fn constant_extends(s: EmitterState, rd: Reg, value: u32)
    ensures
        extends(
            s,
            #[trigger] thumb32_data_processing_plain_binary_immediate::constant_ir(s, rd, value),
        ),
{
    broadcast use group_appends;
    appends_nothing(s);
}

/// What `thumb32_data_processing_plain_binary_immediate::plain_arithmetic_ir` keeps.
pub broadcast proof fn plain_arithmetic_extends(
    s: EmitterState,
    inst: DecodedThumb32,
    operation: Opcode,
)
    ensures
        extends(
            s,
            #[trigger] thumb32_data_processing_plain_binary_immediate::plain_arithmetic_ir(
                s,
                inst,
                operation,
            ),
        ),
{
    broadcast use group_appends;
    appends_nothing(s);
}

/// What `thumb32_data_processing_plain_binary_immediate::saturation16_ir` keeps.
pub broadcast proof fn saturation16_extends(
    s: EmitterState,
    inst: DecodedThumb32,
    bits: u8,
    kind: SaturationFunction,
)
    ensures
        extends(
            s,
            #[trigger] thumb32_data_processing_plain_binary_immediate::saturation16_ir(
                s,
                inst,
                bits,
                kind,
            ),
        ),
{
    broadcast use group_appends;
    appends_nothing(s);
}

/// What `thumb32_data_processing_plain_binary_immediate::saturation_ir` keeps.
pub broadcast proof fn saturation_extends(
    s: EmitterState,
    inst: DecodedThumb32,
    bits: u8,
    kind: SaturationFunction,
)
    ensures
        extends(
            s,
            #[trigger] thumb32_data_processing_plain_binary_immediate::saturation_ir(
                s,
                inst,
                bits,
                kind,
            ),
        ),
{
    broadcast use group_appends;
    appends_nothing(s);
}

/// What `thumb32_data_processing_plain_binary_immediate::thumb32_bfc_ir` keeps.
pub broadcast proof fn thumb32_bfc_extends(s: EmitterState, inst: DecodedThumb32)
    ensures
        extends(
            s,
            #[trigger] thumb32_data_processing_plain_binary_immediate::thumb32_bfc_ir(s, inst),
        ),
{
    broadcast use group_appends;
    appends_nothing(s);
}

/// What `thumb32_data_processing_plain_binary_immediate::thumb32_bfi_ir` keeps.
pub broadcast proof fn thumb32_bfi_extends(s: EmitterState, inst: DecodedThumb32)
    ensures
        extends(
            s,
            #[trigger] thumb32_data_processing_plain_binary_immediate::thumb32_bfi_ir(s, inst),
        ),
{
    broadcast use group_appends;
    appends_nothing(s);
}

/// What `thumb32_data_processing_plain_binary_immediate::thumb32_movt_ir` keeps.
pub broadcast proof fn thumb32_movt_extends(s: EmitterState, inst: DecodedThumb32)
    ensures
        extends(
            s,
            #[trigger] thumb32_data_processing_plain_binary_immediate::thumb32_movt_ir(s, inst),
        ),
{
    broadcast use group_appends;
    appends_nothing(s);
}

/// What `thumb32_data_processing_plain_binary_immediate::thumb32_sbfx_ir` keeps.
pub broadcast proof fn thumb32_sbfx_extends(s: EmitterState, inst: DecodedThumb32)
    ensures
        extends(
            s,
            #[trigger] thumb32_data_processing_plain_binary_immediate::thumb32_sbfx_ir(s, inst),
        ),
{
    broadcast use group_appends;
    appends_nothing(s);
}

/// What `thumb32_data_processing_plain_binary_immediate::thumb32_ubfx_ir` keeps.
pub broadcast proof fn thumb32_ubfx_extends(s: EmitterState, inst: DecodedThumb32)
    ensures
        extends(
            s,
            #[trigger] thumb32_data_processing_plain_binary_immediate::thumb32_ubfx_ir(s, inst),
        ),
{
    broadcast use group_appends;
    appends_nothing(s);
}

/// What `thumb32_data_processing_register::extend_add_ir` keeps.
pub broadcast proof fn extend_add_extends(
    s: EmitterState,
    inst: DecodedThumb32,
    part: Opcode,
    extend: Opcode,
)
    ensures
        extends(
            s,
            #[trigger] thumb32_data_processing_register::extend_add_ir(s, inst, part, extend),
        ),
{
    broadcast use group_appends;
    appends_nothing(s);
}

/// What `thumb32_data_processing_register::extend_ir` keeps.
pub broadcast proof fn extend_extends(
    s: EmitterState,
    inst: DecodedThumb32,
    part: Opcode,
    extend: Opcode,
)
    ensures
        extends(s, #[trigger] thumb32_data_processing_register::extend_ir(s, inst, part, extend)),
{
    broadcast use group_appends;
    appends_nothing(s);
}

/// What `thumb32_data_processing_register::shift_instruction_ir` keeps.
pub broadcast proof fn shift_instruction_extends(
    s: EmitterState,
    inst: DecodedThumb32,
    shift: ShiftType,
)
    ensures
        extends(
            s,
            #[trigger] thumb32_data_processing_register::shift_instruction_ir(s, inst, shift),
        ),
{
    broadcast use group_appends;
    appends_nothing(s);
}

/// What `thumb32_data_processing_register::thumb32_sxtab16_ir` keeps.
pub broadcast proof fn thumb32_sxtab16_extends(s: EmitterState, inst: DecodedThumb32)
    ensures
        extends(s, #[trigger] thumb32_data_processing_register::thumb32_sxtab16_ir(s, inst)),
{
    broadcast use group_appends;
    appends_nothing(s);
}

/// What `thumb32_data_processing_register::thumb32_sxtb16_ir` keeps.
pub broadcast proof fn thumb32_sxtb16_extends(s: EmitterState, inst: DecodedThumb32)
    ensures
        extends(s, #[trigger] thumb32_data_processing_register::thumb32_sxtb16_ir(s, inst)),
{
    broadcast use group_appends;
    appends_nothing(s);
}

/// What `thumb32_data_processing_register::thumb32_uxtab16_ir` keeps.
pub broadcast proof fn thumb32_uxtab16_extends(s: EmitterState, inst: DecodedThumb32)
    ensures
        extends(s, #[trigger] thumb32_data_processing_register::thumb32_uxtab16_ir(s, inst)),
{
    broadcast use group_appends;
    appends_nothing(s);
}

/// What `thumb32_data_processing_register::thumb32_uxtb16_ir` keeps.
pub broadcast proof fn thumb32_uxtb16_extends(s: EmitterState, inst: DecodedThumb32)
    ensures
        extends(s, #[trigger] thumb32_data_processing_register::thumb32_uxtb16_ir(s, inst)),
{
    broadcast use group_appends;
    appends_nothing(s);
}

/// What `thumb32_data_processing_shifted_register::arithmetic_reg_ir` keeps.
pub broadcast proof fn arithmetic_reg_extends(
    s: EmitterState,
    inst: DecodedThumb32,
    operation: Opcode,
)
    ensures
        extends(
            s,
            #[trigger] thumb32_data_processing_shifted_register::arithmetic_reg_ir(
                s,
                inst,
                operation,
            ),
        ),
{
    broadcast use group_appends;
    appends_nothing(s);
}

/// What `thumb32_data_processing_shifted_register::carry_reg_ir` keeps.
pub broadcast proof fn carry_reg_extends(s: EmitterState, inst: DecodedThumb32, operation: Opcode)
    ensures
        extends(
            s,
            #[trigger] thumb32_data_processing_shifted_register::carry_reg_ir(s, inst, operation),
        ),
{
    broadcast use group_appends;
    appends_nothing(s);
}

/// What `thumb32_data_processing_shifted_register::compare_reg_ir` keeps.
pub broadcast proof fn compare_reg_extends(s: EmitterState, inst: DecodedThumb32, operation: Opcode)
    ensures
        extends(
            s,
            #[trigger] thumb32_data_processing_shifted_register::compare_reg_ir(s, inst, operation),
        ),
{
    broadcast use group_appends;
    appends_nothing(s);
}

/// What `thumb32_data_processing_shifted_register::logical_reg_ir` keeps.
pub broadcast proof fn logical_reg_extends(s: EmitterState, inst: DecodedThumb32, operation: Opcode)
    ensures
        extends(
            s,
            #[trigger] thumb32_data_processing_shifted_register::logical_reg_ir(s, inst, operation),
        ),
{
    broadcast use group_appends;
    appends_nothing(s);
}

/// What `thumb32_data_processing_shifted_register::move_reg_ir` keeps.
pub broadcast proof fn move_reg_extends(s: EmitterState, inst: DecodedThumb32, complement: bool)
    ensures
        extends(
            s,
            #[trigger] thumb32_data_processing_shifted_register::move_reg_ir(s, inst, complement),
        ),
{
    broadcast use group_appends;
    appends_nothing(s);
}

/// What `thumb32_data_processing_shifted_register::test_reg_ir` keeps.
pub broadcast proof fn test_reg_extends(s: EmitterState, inst: DecodedThumb32, operation: Opcode)
    ensures
        extends(
            s,
            #[trigger] thumb32_data_processing_shifted_register::test_reg_ir(s, inst, operation),
        ),
{
    broadcast use group_appends;
    appends_nothing(s);
}

/// What `thumb32_data_processing_shifted_register::thumb32_orn_reg_ir` keeps.
pub broadcast proof fn thumb32_orn_reg_extends(s: EmitterState, inst: DecodedThumb32)
    ensures
        extends(
            s,
            #[trigger] thumb32_data_processing_shifted_register::thumb32_orn_reg_ir(s, inst),
        ),
{
    broadcast use group_appends;
    appends_nothing(s);
}

/// What `thumb32_data_processing_shifted_register::thumb32_pkh_ir` keeps.
pub broadcast proof fn thumb32_pkh_extends(s: EmitterState, inst: DecodedThumb32)
    ensures
        extends(s, #[trigger] thumb32_data_processing_shifted_register::thumb32_pkh_ir(s, inst)),
{
    broadcast use group_appends;
    appends_nothing(s);
}

/// What `thumb32_data_processing_shifted_register::thumb32_rsb_reg_ir` keeps.
pub broadcast proof fn thumb32_rsb_reg_extends(s: EmitterState, inst: DecodedThumb32)
    ensures
        extends(
            s,
            #[trigger] thumb32_data_processing_shifted_register::thumb32_rsb_reg_ir(s, inst),
        ),
{
    broadcast use group_appends;
    appends_nothing(s);
}

/// What `thumb32_load_byte::load_byte_imm8_ir` keeps.
pub broadcast proof fn load_byte_imm8_extends(s: EmitterState, inst: DecodedThumb32, signed: bool)
    ensures
        extends(s, #[trigger] thumb32_load_byte::load_byte_imm8_ir(s, inst, signed)),
{
    broadcast use group_appends;
    appends_nothing(s);
}

/// What `thumb32_load_byte::load_byte_immediate_ir` keeps.
pub broadcast proof fn load_byte_immediate_extends(
    s: EmitterState,
    inst: DecodedThumb32,
    p: bool,
    u: bool,
    w: bool,
    imm: u32,
    signed: bool,
)
    ensures
        extends(
            s,
            #[trigger] thumb32_load_byte::load_byte_immediate_ir(s, inst, p, u, w, imm, signed),
        ),
{
    broadcast use group_appends;
    appends_nothing(s);
}

/// What `thumb32_load_byte::load_byte_literal_ir` keeps.
pub broadcast proof fn load_byte_literal_extends(
    s: EmitterState,
    inst: DecodedThumb32,
    signed: bool,
)
    ensures
        extends(s, #[trigger] thumb32_load_byte::load_byte_literal_ir(s, inst, signed)),
{
    broadcast use group_appends;
    appends_nothing(s);
}

/// What `thumb32_load_byte::load_byte_register_ir` keeps.
pub broadcast proof fn load_byte_register_extends(
    s: EmitterState,
    inst: DecodedThumb32,
    signed: bool,
)
    ensures
        extends(s, #[trigger] thumb32_load_byte::load_byte_register_ir(s, inst, signed)),
{
    broadcast use group_appends;
    appends_nothing(s);
}

/// What `thumb32_load_byte::load_byte_unprivileged_ir` keeps.
pub broadcast proof fn load_byte_unprivileged_extends(
    s: EmitterState,
    inst: DecodedThumb32,
    signed: bool,
)
    ensures
        extends(s, #[trigger] thumb32_load_byte::load_byte_unprivileged_ir(s, inst, signed)),
{
    broadcast use group_appends;
    appends_nothing(s);
}

/// What `thumb32_load_byte::pld_ir` keeps.
pub broadcast proof fn pld_extends(s: EmitterState, write_intent: bool, options: TranslationOptions)
    ensures
        extends(s, #[trigger] thumb32_load_byte::pld_ir(s, write_intent, options)),
{
    broadcast use group_appends;
    appends_nothing(s);
}

/// What `thumb32_load_halfword::load_half_imm8_ir` keeps.
pub broadcast proof fn load_half_imm8_extends(s: EmitterState, inst: DecodedThumb32, signed: bool)
    ensures
        extends(s, #[trigger] thumb32_load_halfword::load_half_imm8_ir(s, inst, signed)),
{
    broadcast use group_appends;
    appends_nothing(s);
}

/// What `thumb32_load_halfword::load_half_immediate_ir` keeps.
pub broadcast proof fn load_half_immediate_extends(
    s: EmitterState,
    inst: DecodedThumb32,
    p: bool,
    u: bool,
    w: bool,
    imm: u32,
    signed: bool,
)
    ensures
        extends(
            s,
            #[trigger] thumb32_load_halfword::load_half_immediate_ir(s, inst, p, u, w, imm, signed),
        ),
{
    broadcast use group_appends;
    appends_nothing(s);
}

/// What `thumb32_load_halfword::load_half_literal_ir` keeps.
pub broadcast proof fn load_half_literal_extends(
    s: EmitterState,
    inst: DecodedThumb32,
    signed: bool,
)
    ensures
        extends(s, #[trigger] thumb32_load_halfword::load_half_literal_ir(s, inst, signed)),
{
    broadcast use group_appends;
    appends_nothing(s);
}

/// What `thumb32_load_halfword::load_half_register_ir` keeps.
pub broadcast proof fn load_half_register_extends(
    s: EmitterState,
    inst: DecodedThumb32,
    signed: bool,
)
    ensures
        extends(s, #[trigger] thumb32_load_halfword::load_half_register_ir(s, inst, signed)),
{
    broadcast use group_appends;
    appends_nothing(s);
}

/// What `thumb32_load_halfword::load_half_unprivileged_ir` keeps.
pub broadcast proof fn load_half_unprivileged_extends(
    s: EmitterState,
    inst: DecodedThumb32,
    signed: bool,
)
    ensures
        extends(s, #[trigger] thumb32_load_halfword::load_half_unprivileged_ir(s, inst, signed)),
{
    broadcast use group_appends;
    appends_nothing(s);
}

pub broadcast group group_thumb_extends {
    thumb16_add_reg_t2_extends,
    thumb16_adr_extends,
    thumb16_arith_carry_extends,
    thumb16_arith_imm_extends,
    thumb16_arith_reg_extends,
    thumb16_b_cond_extends,
    thumb16_b_uncond_extends,
    thumb16_bic_reg_extends,
    thumb16_blx_reg_extends,
    thumb16_bx_extends,
    thumb16_cbz_cbnz_extends,
    thumb16_hint_extends,
    thumb16_it_extends,
    thumb16_ldmia_extends,
    thumb16_ldr_literal_extends,
    thumb16_load_imm_extends,
    thumb16_load_reg_extends,
    thumb16_logic_extends,
    thumb16_mask_extends,
    thumb16_mov_imm_extends,
    thumb16_mov_reg_extends,
    thumb16_mvn_reg_extends,
    thumb16_pop_extends,
    thumb16_push_extends,
    thumb16_rev16_extends,
    thumb16_revsh_extends,
    thumb16_rsb_imm_extends,
    thumb16_shift_imm_extends,
    thumb16_shift_reg_extends,
    thumb16_sp_extends,
    thumb16_stmia_extends,
    thumb16_store_imm_extends,
    thumb16_store_reg_extends,
    thumb16_svc_extends,
    thumb16_tst_reg_extends,
    thumb16_unary_extends,
    thumb32_b_cond_extends,
    thumb32_b_extends,
    thumb32_bl_imm_extends,
    thumb32_blx_imm_extends,
    thumb32_bxj_extends,
    thumb32_isb_extends,
    thumb32_mrs_reg_extends,
    thumb32_msr_reg_extends,
    thumb32_cdp_extends,
    thumb32_mcr_extends,
    thumb32_mcrr_extends,
    thumb32_mrc_extends,
    thumb32_mrrc_extends,
    words_transfer_extends,
    arithmetic_imm_extends,
    carry_imm_extends,
    compare_imm_extends,
    logical_imm_extends,
    move_imm_extends,
    test_imm_extends,
    thumb32_rsb_imm_extends,
    constant_extends,
    plain_arithmetic_extends,
    saturation16_extends,
    saturation_extends,
    thumb32_bfc_extends,
    thumb32_bfi_extends,
    thumb32_movt_extends,
    thumb32_sbfx_extends,
    thumb32_ubfx_extends,
    extend_add_extends,
    extend_extends,
    shift_instruction_extends,
    thumb32_sxtab16_extends,
    thumb32_sxtb16_extends,
    thumb32_uxtab16_extends,
    thumb32_uxtb16_extends,
    arithmetic_reg_extends,
    carry_reg_extends,
    compare_reg_extends,
    logical_reg_extends,
    move_reg_extends,
    test_reg_extends,
    thumb32_orn_reg_extends,
    thumb32_pkh_extends,
    thumb32_rsb_reg_extends,
    load_byte_imm8_extends,
    load_byte_immediate_extends,
    load_byte_literal_extends,
    load_byte_register_extends,
    load_byte_unprivileged_extends,
    pld_extends,
    load_half_imm8_extends,
    load_half_immediate_extends,
    load_half_literal_extends,
    load_half_register_extends,
    load_half_unprivileged_extends,
}

/// The translation of a 16-bit Thumb instruction only appends.
#[verifier::rlimit(60)]
pub proof fn thumb16_extends(s: EmitterState, inst: DecodedThumb16, options: TranslationOptions)
    ensures
        extends(s, translate_thumb16_ir(s, inst, options)),
{
    broadcast use {group_arm_extends, group_thumb_extends};
    appends_nothing(s);
}

/// The translation of a 32-bit Thumb instruction only appends.
#[verifier::rlimit(60)]
pub proof fn thumb32_extends(s: EmitterState, inst: DecodedThumb32, options: TranslationOptions)
    ensures
        extends(s, translate_thumb32_ir(s, inst, options)),
{
    broadcast use {group_arm_extends, group_thumb_extends};
    appends_nothing(s);
}

} // verus!
