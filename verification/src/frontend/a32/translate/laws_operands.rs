//! Operands of 32-bit Thumb instructions are checked before anything happens.

use vstd::prelude::*;
use crate::frontend::a32::decoder_thumb32::{DecodedThumb32, Thumb32InstId};
use crate::frontend::a32::types::Reg;
use crate::frontend::a32::types::ShiftType;
use crate::ir::a32_emitter::EmitterState;
use crate::ir::opcode::Opcode;
use super::thumb32::translate_thumb32_ir;
use super::thumb32_data_processing_modified_immediate;
use super::thumb32_data_processing_plain_binary_immediate::SaturationFunction;
use super::thumb32_data_processing_plain_binary_immediate;
use super::thumb32_data_processing_register;
use super::thumb32_data_processing_shifted_register;
use super::thumb32_load_byte;
use super::thumb32_load_halfword;
use super::{undefined_ir, unpredictable_ir, TranslationOptions};

verus! {

/// Whether an instruction is one of the data processing instructions, or of
/// the loads of bytes and halfwords, of 32-bit Thumb code.
pub open spec fn computes_or_loads(id: Thumb32InstId) -> bool {
    match id {
        Thumb32InstId::TST_imm | Thumb32InstId::AND_imm | Thumb32InstId::BIC_imm
        | Thumb32InstId::MOV_imm | Thumb32InstId::ORR_imm | Thumb32InstId::MVN_imm
        | Thumb32InstId::ORN_imm | Thumb32InstId::TEQ_imm | Thumb32InstId::EOR_imm
        | Thumb32InstId::CMN_imm | Thumb32InstId::ADD_imm_1 | Thumb32InstId::ADC_imm
        | Thumb32InstId::SBC_imm | Thumb32InstId::CMP_imm | Thumb32InstId::SUB_imm_1
        | Thumb32InstId::RSB_imm | Thumb32InstId::TST_reg | Thumb32InstId::AND_reg
        | Thumb32InstId::BIC_reg | Thumb32InstId::MOV_reg | Thumb32InstId::ORR_reg
        | Thumb32InstId::MVN_reg | Thumb32InstId::ORN_reg | Thumb32InstId::TEQ_reg
        | Thumb32InstId::EOR_reg | Thumb32InstId::PKH | Thumb32InstId::CMN_reg
        | Thumb32InstId::ADD_reg | Thumb32InstId::ADC_reg | Thumb32InstId::SBC_reg
        | Thumb32InstId::CMP_reg | Thumb32InstId::SUB_reg | Thumb32InstId::RSB_reg
        | Thumb32InstId::ADR_t2 | Thumb32InstId::ADR_t3 | Thumb32InstId::ADD_imm_2
        | Thumb32InstId::BFC | Thumb32InstId::BFI | Thumb32InstId::MOVT
        | Thumb32InstId::MOVW_imm | Thumb32InstId::SBFX | Thumb32InstId::SSAT
        | Thumb32InstId::SSAT16 | Thumb32InstId::SUB_imm_2 | Thumb32InstId::UBFX
        | Thumb32InstId::USAT | Thumb32InstId::USAT16 | Thumb32InstId::LDRB_lit
        | Thumb32InstId::LDRB_imm_t3 | Thumb32InstId::LDRB_imm_t2 | Thumb32InstId::LDRB_reg
        | Thumb32InstId::LDRBT | Thumb32InstId::LDRH_lit | Thumb32InstId::LDRH_reg
        | Thumb32InstId::LDRH_imm_t3 | Thumb32InstId::LDRH_imm_t2 | Thumb32InstId::LDRHT
        | Thumb32InstId::LDRSB_lit | Thumb32InstId::LDRSB_imm_t2 | Thumb32InstId::LDRSB_imm_t1
        | Thumb32InstId::LDRSB_reg | Thumb32InstId::LDRSBT | Thumb32InstId::LDRSH_lit
        | Thumb32InstId::LDRSH_reg | Thumb32InstId::LDRSH_imm_t2 | Thumb32InstId::LDRSH_imm_t1
        | Thumb32InstId::LDRSHT | Thumb32InstId::LSL_reg | Thumb32InstId::LSR_reg
        | Thumb32InstId::ASR_reg | Thumb32InstId::ROR_reg | Thumb32InstId::SXTB
        | Thumb32InstId::SXTB16 | Thumb32InstId::SXTAB | Thumb32InstId::SXTAB16
        | Thumb32InstId::SXTH | Thumb32InstId::SXTAH | Thumb32InstId::UXTB
        | Thumb32InstId::UXTB16 | Thumb32InstId::UXTAB | Thumb32InstId::UXTAB16
        | Thumb32InstId::UXTH | Thumb32InstId::UXTAH => true,
        _ => false,
    }
}

/// Whether the translation of an instruction either goes on, or reports an
/// exception and does nothing else.
#[verifier::opaque]
pub open spec fn checks_operands_first(s: EmitterState, r: (EmitterState, bool)) -> bool {
    r.1 || r == unpredictable_ir(s) || r == undefined_ir(s)
}

/// The operands of `thumb32_data_processing_modified_immediate::arithmetic_imm_ir` are checked first.
broadcast proof fn arithmetic_imm_checks_first(
    s: EmitterState,
    inst: DecodedThumb32,
    operation: Opcode,
)
    ensures
        checks_operands_first(
            s,
            #[trigger] thumb32_data_processing_modified_immediate::arithmetic_imm_ir(
                s,
                inst,
                operation,
            ),
        ),
{
    reveal(checks_operands_first);
}

/// The operands of `thumb32_data_processing_modified_immediate::carry_imm_ir` are checked first.
broadcast proof fn carry_imm_checks_first(s: EmitterState, inst: DecodedThumb32, operation: Opcode)
    ensures
        checks_operands_first(
            s,
            #[trigger] thumb32_data_processing_modified_immediate::carry_imm_ir(s, inst, operation),
        ),
{
    reveal(checks_operands_first);
}

/// The operands of `thumb32_data_processing_modified_immediate::compare_imm_ir` are checked first.
broadcast proof fn compare_imm_checks_first(
    s: EmitterState,
    inst: DecodedThumb32,
    operation: Opcode,
)
    ensures
        checks_operands_first(
            s,
            #[trigger] thumb32_data_processing_modified_immediate::compare_imm_ir(
                s,
                inst,
                operation,
            ),
        ),
{
    reveal(checks_operands_first);
}

/// The operands of `thumb32_data_processing_modified_immediate::logical_imm_ir` are checked first.
broadcast proof fn logical_imm_checks_first(
    s: EmitterState,
    inst: DecodedThumb32,
    operation: Opcode,
    imm: u32,
)
    ensures
        checks_operands_first(
            s,
            #[trigger] thumb32_data_processing_modified_immediate::logical_imm_ir(
                s,
                inst,
                operation,
                imm,
            ),
        ),
{
    reveal(checks_operands_first);
}

/// The operands of `thumb32_data_processing_modified_immediate::move_imm_ir` are checked first.
broadcast proof fn move_imm_checks_first(s: EmitterState, inst: DecodedThumb32, imm: u32)
    ensures
        checks_operands_first(
            s,
            #[trigger] thumb32_data_processing_modified_immediate::move_imm_ir(s, inst, imm),
        ),
{
    reveal(checks_operands_first);
}

/// The operands of `thumb32_data_processing_modified_immediate::test_imm_ir` are checked first.
broadcast proof fn test_imm_checks_first(s: EmitterState, inst: DecodedThumb32, operation: Opcode)
    ensures
        checks_operands_first(
            s,
            #[trigger] thumb32_data_processing_modified_immediate::test_imm_ir(s, inst, operation),
        ),
{
    reveal(checks_operands_first);
}

/// The operands of `thumb32_data_processing_modified_immediate::thumb32_rsb_imm_ir` are checked first.
broadcast proof fn thumb32_rsb_imm_checks_first(s: EmitterState, inst: DecodedThumb32)
    ensures
        checks_operands_first(
            s,
            #[trigger] thumb32_data_processing_modified_immediate::thumb32_rsb_imm_ir(s, inst),
        ),
{
    reveal(checks_operands_first);
}

/// The operands of `thumb32_data_processing_plain_binary_immediate::constant_ir` are checked first.
broadcast proof fn constant_checks_first(s: EmitterState, rd: Reg, value: u32)
    ensures
        checks_operands_first(
            s,
            #[trigger] thumb32_data_processing_plain_binary_immediate::constant_ir(s, rd, value),
        ),
{
    reveal(checks_operands_first);
}

/// The operands of `thumb32_data_processing_plain_binary_immediate::plain_arithmetic_ir` are checked first.
broadcast proof fn plain_arithmetic_checks_first(
    s: EmitterState,
    inst: DecodedThumb32,
    operation: Opcode,
)
    ensures
        checks_operands_first(
            s,
            #[trigger] thumb32_data_processing_plain_binary_immediate::plain_arithmetic_ir(
                s,
                inst,
                operation,
            ),
        ),
{
    reveal(checks_operands_first);
}

/// The operands of `thumb32_data_processing_plain_binary_immediate::saturation16_ir` are checked first.
broadcast proof fn saturation16_checks_first(
    s: EmitterState,
    inst: DecodedThumb32,
    bits: u8,
    kind: SaturationFunction,
)
    ensures
        checks_operands_first(
            s,
            #[trigger] thumb32_data_processing_plain_binary_immediate::saturation16_ir(
                s,
                inst,
                bits,
                kind,
            ),
        ),
{
    reveal(checks_operands_first);
}

/// The operands of `thumb32_data_processing_plain_binary_immediate::saturation_ir` are checked first.
broadcast proof fn saturation_checks_first(
    s: EmitterState,
    inst: DecodedThumb32,
    bits: u8,
    kind: SaturationFunction,
)
    ensures
        checks_operands_first(
            s,
            #[trigger] thumb32_data_processing_plain_binary_immediate::saturation_ir(
                s,
                inst,
                bits,
                kind,
            ),
        ),
{
    reveal(checks_operands_first);
}

/// The operands of `thumb32_data_processing_plain_binary_immediate::thumb32_bfc_ir` are checked first.
broadcast proof fn thumb32_bfc_checks_first(s: EmitterState, inst: DecodedThumb32)
    ensures
        checks_operands_first(
            s,
            #[trigger] thumb32_data_processing_plain_binary_immediate::thumb32_bfc_ir(s, inst),
        ),
{
    reveal(checks_operands_first);
}

/// The operands of `thumb32_data_processing_plain_binary_immediate::thumb32_bfi_ir` are checked first.
broadcast proof fn thumb32_bfi_checks_first(s: EmitterState, inst: DecodedThumb32)
    ensures
        checks_operands_first(
            s,
            #[trigger] thumb32_data_processing_plain_binary_immediate::thumb32_bfi_ir(s, inst),
        ),
{
    reveal(checks_operands_first);
}

/// The operands of `thumb32_data_processing_plain_binary_immediate::thumb32_movt_ir` are checked first.
broadcast proof fn thumb32_movt_checks_first(s: EmitterState, inst: DecodedThumb32)
    ensures
        checks_operands_first(
            s,
            #[trigger] thumb32_data_processing_plain_binary_immediate::thumb32_movt_ir(s, inst),
        ),
{
    reveal(checks_operands_first);
}

/// The operands of `thumb32_data_processing_plain_binary_immediate::thumb32_sbfx_ir` are checked first.
broadcast proof fn thumb32_sbfx_checks_first(s: EmitterState, inst: DecodedThumb32)
    ensures
        checks_operands_first(
            s,
            #[trigger] thumb32_data_processing_plain_binary_immediate::thumb32_sbfx_ir(s, inst),
        ),
{
    reveal(checks_operands_first);
}

/// The operands of `thumb32_data_processing_plain_binary_immediate::thumb32_ubfx_ir` are checked first.
broadcast proof fn thumb32_ubfx_checks_first(s: EmitterState, inst: DecodedThumb32)
    ensures
        checks_operands_first(
            s,
            #[trigger] thumb32_data_processing_plain_binary_immediate::thumb32_ubfx_ir(s, inst),
        ),
{
    reveal(checks_operands_first);
}

/// The operands of `thumb32_data_processing_register::extend_add_ir` are checked first.
broadcast proof fn extend_add_checks_first(
    s: EmitterState,
    inst: DecodedThumb32,
    part: Opcode,
    extend: Opcode,
)
    ensures
        checks_operands_first(
            s,
            #[trigger] thumb32_data_processing_register::extend_add_ir(s, inst, part, extend),
        ),
{
    reveal(checks_operands_first);
}

/// The operands of `thumb32_data_processing_register::extend_ir` are checked first.
broadcast proof fn extend_checks_first(
    s: EmitterState,
    inst: DecodedThumb32,
    part: Opcode,
    extend: Opcode,
)
    ensures
        checks_operands_first(
            s,
            #[trigger] thumb32_data_processing_register::extend_ir(s, inst, part, extend),
        ),
{
    reveal(checks_operands_first);
}

/// The operands of `thumb32_data_processing_register::shift_instruction_ir` are checked first.
broadcast proof fn shift_instruction_checks_first(
    s: EmitterState,
    inst: DecodedThumb32,
    shift: ShiftType,
)
    ensures
        checks_operands_first(
            s,
            #[trigger] thumb32_data_processing_register::shift_instruction_ir(s, inst, shift),
        ),
{
    reveal(checks_operands_first);
}

/// The operands of `thumb32_data_processing_register::thumb32_sxtab16_ir` are checked first.
broadcast proof fn thumb32_sxtab16_checks_first(s: EmitterState, inst: DecodedThumb32)
    ensures
        checks_operands_first(
            s,
            #[trigger] thumb32_data_processing_register::thumb32_sxtab16_ir(s, inst),
        ),
{
    reveal(checks_operands_first);
}

/// The operands of `thumb32_data_processing_register::thumb32_sxtb16_ir` are checked first.
broadcast proof fn thumb32_sxtb16_checks_first(s: EmitterState, inst: DecodedThumb32)
    ensures
        checks_operands_first(
            s,
            #[trigger] thumb32_data_processing_register::thumb32_sxtb16_ir(s, inst),
        ),
{
    reveal(checks_operands_first);
}

/// The operands of `thumb32_data_processing_register::thumb32_uxtab16_ir` are checked first.
broadcast proof fn thumb32_uxtab16_checks_first(s: EmitterState, inst: DecodedThumb32)
    ensures
        checks_operands_first(
            s,
            #[trigger] thumb32_data_processing_register::thumb32_uxtab16_ir(s, inst),
        ),
{
    reveal(checks_operands_first);
}

/// The operands of `thumb32_data_processing_register::thumb32_uxtb16_ir` are checked first.
broadcast proof fn thumb32_uxtb16_checks_first(s: EmitterState, inst: DecodedThumb32)
    ensures
        checks_operands_first(
            s,
            #[trigger] thumb32_data_processing_register::thumb32_uxtb16_ir(s, inst),
        ),
{
    reveal(checks_operands_first);
}

/// The operands of `thumb32_data_processing_shifted_register::arithmetic_reg_ir` are checked first.
broadcast proof fn arithmetic_reg_checks_first(
    s: EmitterState,
    inst: DecodedThumb32,
    operation: Opcode,
)
    ensures
        checks_operands_first(
            s,
            #[trigger] thumb32_data_processing_shifted_register::arithmetic_reg_ir(
                s,
                inst,
                operation,
            ),
        ),
{
    reveal(checks_operands_first);
}

/// The operands of `thumb32_data_processing_shifted_register::carry_reg_ir` are checked first.
broadcast proof fn carry_reg_checks_first(s: EmitterState, inst: DecodedThumb32, operation: Opcode)
    ensures
        checks_operands_first(
            s,
            #[trigger] thumb32_data_processing_shifted_register::carry_reg_ir(s, inst, operation),
        ),
{
    reveal(checks_operands_first);
}

/// The operands of `thumb32_data_processing_shifted_register::compare_reg_ir` are checked first.
broadcast proof fn compare_reg_checks_first(
    s: EmitterState,
    inst: DecodedThumb32,
    operation: Opcode,
)
    ensures
        checks_operands_first(
            s,
            #[trigger] thumb32_data_processing_shifted_register::compare_reg_ir(s, inst, operation),
        ),
{
    reveal(checks_operands_first);
}

/// The operands of `thumb32_data_processing_shifted_register::logical_reg_ir` are checked first.
broadcast proof fn logical_reg_checks_first(
    s: EmitterState,
    inst: DecodedThumb32,
    operation: Opcode,
)
    ensures
        checks_operands_first(
            s,
            #[trigger] thumb32_data_processing_shifted_register::logical_reg_ir(s, inst, operation),
        ),
{
    reveal(checks_operands_first);
}

/// The operands of `thumb32_data_processing_shifted_register::move_reg_ir` are checked first.
broadcast proof fn move_reg_checks_first(s: EmitterState, inst: DecodedThumb32, complement: bool)
    ensures
        checks_operands_first(
            s,
            #[trigger] thumb32_data_processing_shifted_register::move_reg_ir(s, inst, complement),
        ),
{
    reveal(checks_operands_first);
}

/// The operands of `thumb32_data_processing_shifted_register::test_reg_ir` are checked first.
broadcast proof fn test_reg_checks_first(s: EmitterState, inst: DecodedThumb32, operation: Opcode)
    ensures
        checks_operands_first(
            s,
            #[trigger] thumb32_data_processing_shifted_register::test_reg_ir(s, inst, operation),
        ),
{
    reveal(checks_operands_first);
}

/// The operands of `thumb32_data_processing_shifted_register::thumb32_orn_reg_ir` are checked first.
broadcast proof fn thumb32_orn_reg_checks_first(s: EmitterState, inst: DecodedThumb32)
    ensures
        checks_operands_first(
            s,
            #[trigger] thumb32_data_processing_shifted_register::thumb32_orn_reg_ir(s, inst),
        ),
{
    reveal(checks_operands_first);
}

/// The operands of `thumb32_data_processing_shifted_register::thumb32_pkh_ir` are checked first.
broadcast proof fn thumb32_pkh_checks_first(s: EmitterState, inst: DecodedThumb32)
    ensures
        checks_operands_first(
            s,
            #[trigger] thumb32_data_processing_shifted_register::thumb32_pkh_ir(s, inst),
        ),
{
    reveal(checks_operands_first);
}

/// The operands of `thumb32_data_processing_shifted_register::thumb32_rsb_reg_ir` are checked first.
broadcast proof fn thumb32_rsb_reg_checks_first(s: EmitterState, inst: DecodedThumb32)
    ensures
        checks_operands_first(
            s,
            #[trigger] thumb32_data_processing_shifted_register::thumb32_rsb_reg_ir(s, inst),
        ),
{
    reveal(checks_operands_first);
}

/// The operands of `thumb32_load_byte::load_byte_imm8_ir` are checked first.
broadcast proof fn load_byte_imm8_checks_first(s: EmitterState, inst: DecodedThumb32, signed: bool)
    ensures
        checks_operands_first(s, #[trigger] thumb32_load_byte::load_byte_imm8_ir(s, inst, signed)),
{
    reveal(checks_operands_first);
}

/// The operands of `thumb32_load_byte::load_byte_immediate_ir` are checked first.
broadcast proof fn load_byte_immediate_checks_first(
    s: EmitterState,
    inst: DecodedThumb32,
    p: bool,
    u: bool,
    w: bool,
    imm: u32,
    signed: bool,
)
    ensures
        checks_operands_first(
            s,
            #[trigger] thumb32_load_byte::load_byte_immediate_ir(s, inst, p, u, w, imm, signed),
        ),
{
    reveal(checks_operands_first);
}

/// The operands of `thumb32_load_byte::load_byte_literal_ir` are checked first.
broadcast proof fn load_byte_literal_checks_first(
    s: EmitterState,
    inst: DecodedThumb32,
    signed: bool,
)
    ensures
        checks_operands_first(
            s,
            #[trigger] thumb32_load_byte::load_byte_literal_ir(s, inst, signed),
        ),
{
    reveal(checks_operands_first);
}

/// The operands of `thumb32_load_byte::load_byte_register_ir` are checked first.
broadcast proof fn load_byte_register_checks_first(
    s: EmitterState,
    inst: DecodedThumb32,
    signed: bool,
)
    ensures
        checks_operands_first(
            s,
            #[trigger] thumb32_load_byte::load_byte_register_ir(s, inst, signed),
        ),
{
    reveal(checks_operands_first);
}

/// The operands of `thumb32_load_byte::load_byte_unprivileged_ir` are checked first.
broadcast proof fn load_byte_unprivileged_checks_first(
    s: EmitterState,
    inst: DecodedThumb32,
    signed: bool,
)
    ensures
        checks_operands_first(
            s,
            #[trigger] thumb32_load_byte::load_byte_unprivileged_ir(s, inst, signed),
        ),
{
    reveal(checks_operands_first);
}

/// The operands of `thumb32_load_halfword::load_half_imm8_ir` are checked first.
broadcast proof fn load_half_imm8_checks_first(s: EmitterState, inst: DecodedThumb32, signed: bool)
    ensures
        checks_operands_first(
            s,
            #[trigger] thumb32_load_halfword::load_half_imm8_ir(s, inst, signed),
        ),
{
    reveal(checks_operands_first);
}

/// The operands of `thumb32_load_halfword::load_half_immediate_ir` are checked first.
broadcast proof fn load_half_immediate_checks_first(
    s: EmitterState,
    inst: DecodedThumb32,
    p: bool,
    u: bool,
    w: bool,
    imm: u32,
    signed: bool,
)
    ensures
        checks_operands_first(
            s,
            #[trigger] thumb32_load_halfword::load_half_immediate_ir(s, inst, p, u, w, imm, signed),
        ),
{
    reveal(checks_operands_first);
}

/// The operands of `thumb32_load_halfword::load_half_literal_ir` are checked first.
broadcast proof fn load_half_literal_checks_first(
    s: EmitterState,
    inst: DecodedThumb32,
    signed: bool,
)
    ensures
        checks_operands_first(
            s,
            #[trigger] thumb32_load_halfword::load_half_literal_ir(s, inst, signed),
        ),
{
    reveal(checks_operands_first);
}

/// The operands of `thumb32_load_halfword::load_half_register_ir` are checked first.
broadcast proof fn load_half_register_checks_first(
    s: EmitterState,
    inst: DecodedThumb32,
    signed: bool,
)
    ensures
        checks_operands_first(
            s,
            #[trigger] thumb32_load_halfword::load_half_register_ir(s, inst, signed),
        ),
{
    reveal(checks_operands_first);
}

/// The operands of `thumb32_load_halfword::load_half_unprivileged_ir` are checked first.
broadcast proof fn load_half_unprivileged_checks_first(
    s: EmitterState,
    inst: DecodedThumb32,
    signed: bool,
)
    ensures
        checks_operands_first(
            s,
            #[trigger] thumb32_load_halfword::load_half_unprivileged_ir(s, inst, signed),
        ),
{
    reveal(checks_operands_first);
}

broadcast group group_checks_first {
    arithmetic_imm_checks_first,
    carry_imm_checks_first,
    compare_imm_checks_first,
    logical_imm_checks_first,
    move_imm_checks_first,
    test_imm_checks_first,
    thumb32_rsb_imm_checks_first,
    constant_checks_first,
    plain_arithmetic_checks_first,
    saturation16_checks_first,
    saturation_checks_first,
    thumb32_bfc_checks_first,
    thumb32_bfi_checks_first,
    thumb32_movt_checks_first,
    thumb32_sbfx_checks_first,
    thumb32_ubfx_checks_first,
    extend_add_checks_first,
    extend_checks_first,
    shift_instruction_checks_first,
    thumb32_sxtab16_checks_first,
    thumb32_sxtb16_checks_first,
    thumb32_uxtab16_checks_first,
    thumb32_uxtb16_checks_first,
    arithmetic_reg_checks_first,
    carry_reg_checks_first,
    compare_reg_checks_first,
    logical_reg_checks_first,
    move_reg_checks_first,
    test_reg_checks_first,
    thumb32_orn_reg_checks_first,
    thumb32_pkh_checks_first,
    thumb32_rsb_reg_checks_first,
    load_byte_imm8_checks_first,
    load_byte_immediate_checks_first,
    load_byte_literal_checks_first,
    load_byte_register_checks_first,
    load_byte_unprivileged_checks_first,
    load_half_imm8_checks_first,
    load_half_immediate_checks_first,
    load_half_literal_checks_first,
    load_half_register_checks_first,
    load_half_unprivileged_checks_first,
}

/// The operands of these instructions are checked before anything else
/// happens: an instruction with wrong operands reports an exception and does
/// nothing more.
#[verifier::rlimit(60)]
pub proof fn operands_are_checked_first(
    s: EmitterState,
    inst: DecodedThumb32,
    options: TranslationOptions,
)
    requires
        computes_or_loads(inst.id),
    ensures
        checks_operands_first(s, translate_thumb32_ir(s, inst, options)),
{
    broadcast use group_checks_first;
}

} // verus!
