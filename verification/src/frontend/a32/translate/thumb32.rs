//! 32-bit Thumb instructions.

use vstd::prelude::*;
use super::hint;
use super::thumb32_branch;
use super::thumb32_control;
use super::thumb32_coprocessor;
use super::thumb32_data_processing_modified_immediate;
use super::thumb32_data_processing_plain_binary_immediate;
use super::thumb32_data_processing_register;
use super::thumb32_data_processing_shifted_register;
use super::thumb32_load_byte;
use super::thumb32_load_halfword;
use super::{
    interpret_ir, interpret_this_instruction, undefined_instruction, undefined_ir, unpredictable_ir,
    TranslationOptions,
};
use crate::frontend::a32::decoder_thumb32::{
    branch_encoding, dp_mod_imm_encoding, dp_plain_imm_encoding, dp_register_encoding,
    dp_shifted_reg_encoding, group_encoding, long_multiply_encoding, ls_dual_excl_encoding,
    ls_multiple_encoding, ls_single_encoding, misc_encoding, multiply_encoding, parallel_encoding,
    thumb32_encoding, DecodedThumb32, Thumb32InstId,
};
use crate::frontend::a32::types::Exception;
use crate::frontend::a32::types::Reg;
use crate::frontend::a32::types::ShiftType;
use crate::ir::a32_emitter::{A32IREmitter, EmitterState};
use crate::ir::opcode::Opcode;

verus! {

broadcast use crate::bits::and_le_mask;

/// What decoding guarantees of the operands of an instruction: where an
/// encoding with the program counter belongs to another instruction, the
/// program counter does not occur.
pub open spec fn thumb32_wf(inst: DecodedThumb32) -> bool {
    &&& (inst.id == Thumb32InstId::AND_imm || inst.id == Thumb32InstId::EOR_imm
        || inst.id == Thumb32InstId::ADD_imm_1 || inst.id == Thumb32InstId::SUB_imm_1
        || inst.id == Thumb32InstId::AND_reg || inst.id == Thumb32InstId::EOR_reg
        || inst.id == Thumb32InstId::ADD_reg || inst.id == Thumb32InstId::SUB_reg) ==>
        !thumb32_data_processing_modified_immediate::is_comparison(inst)
    &&& (inst.id == Thumb32InstId::ORR_imm || inst.id == Thumb32InstId::ORN_imm
        || inst.id == Thumb32InstId::ORR_reg || inst.id == Thumb32InstId::ORN_reg) ==>
        inst.rn() != Reg::R15
    &&& (inst.id == Thumb32InstId::SSAT || inst.id == Thumb32InstId::USAT) ==> !(
        thumb32_data_processing_plain_binary_immediate::shifts_right(inst)
            && thumb32_data_processing_plain_binary_immediate::saturation_shift(inst) == 0
    )
}

/// The translation of a 32-bit Thumb instruction. Families that are not
/// translated here are left to an interpreter: loads of words, stores, dual,
/// exclusive and multiple transfers, table branches, multiplication and
/// division, parallel arithmetic, and miscellaneous operations on registers.
pub open spec fn translate_thumb32_ir(
    s: EmitterState,
    inst: DecodedThumb32,
    options: TranslationOptions,
) -> (EmitterState, bool) {
    match inst.id {
        Thumb32InstId::TST_imm => thumb32_data_processing_modified_immediate::test_imm_ir(
            s,
            inst,
            Opcode::And32,
        ),
        Thumb32InstId::AND_imm => thumb32_data_processing_modified_immediate::logical_imm_ir(
            s,
            inst,
            Opcode::And32,
            thumb32_data_processing_modified_immediate::imm_of(inst),
        ),
        Thumb32InstId::BIC_imm => thumb32_data_processing_modified_immediate::logical_imm_ir(
            s,
            inst,
            Opcode::AndNot32,
            thumb32_data_processing_modified_immediate::imm_of(inst),
        ),
        Thumb32InstId::MOV_imm => thumb32_data_processing_modified_immediate::move_imm_ir(
            s,
            inst,
            thumb32_data_processing_modified_immediate::imm_of(inst),
        ),
        Thumb32InstId::ORR_imm => thumb32_data_processing_modified_immediate::logical_imm_ir(
            s,
            inst,
            Opcode::Or32,
            thumb32_data_processing_modified_immediate::imm_of(inst),
        ),
        Thumb32InstId::MVN_imm => thumb32_data_processing_modified_immediate::move_imm_ir(
            s,
            inst,
            !thumb32_data_processing_modified_immediate::imm_of(inst),
        ),
        Thumb32InstId::ORN_imm => thumb32_data_processing_modified_immediate::logical_imm_ir(
            s,
            inst,
            Opcode::Or32,
            !thumb32_data_processing_modified_immediate::imm_of(inst),
        ),
        Thumb32InstId::TEQ_imm => thumb32_data_processing_modified_immediate::test_imm_ir(
            s,
            inst,
            Opcode::Eor32,
        ),
        Thumb32InstId::EOR_imm => thumb32_data_processing_modified_immediate::logical_imm_ir(
            s,
            inst,
            Opcode::Eor32,
            thumb32_data_processing_modified_immediate::imm_of(inst),
        ),
        Thumb32InstId::CMN_imm => thumb32_data_processing_modified_immediate::compare_imm_ir(
            s,
            inst,
            Opcode::Add32,
        ),
        Thumb32InstId::ADD_imm_1 => thumb32_data_processing_modified_immediate::arithmetic_imm_ir(
            s,
            inst,
            Opcode::Add32,
        ),
        Thumb32InstId::ADC_imm => thumb32_data_processing_modified_immediate::carry_imm_ir(
            s,
            inst,
            Opcode::Add32,
        ),
        Thumb32InstId::SBC_imm => thumb32_data_processing_modified_immediate::carry_imm_ir(
            s,
            inst,
            Opcode::Sub32,
        ),
        Thumb32InstId::CMP_imm => thumb32_data_processing_modified_immediate::compare_imm_ir(
            s,
            inst,
            Opcode::Sub32,
        ),
        Thumb32InstId::SUB_imm_1 => thumb32_data_processing_modified_immediate::arithmetic_imm_ir(
            s,
            inst,
            Opcode::Sub32,
        ),
        Thumb32InstId::RSB_imm => {
            thumb32_data_processing_modified_immediate::thumb32_rsb_imm_ir(s, inst)
        },
        Thumb32InstId::TST_reg => thumb32_data_processing_shifted_register::test_reg_ir(
            s,
            inst,
            Opcode::And32,
        ),
        Thumb32InstId::AND_reg => thumb32_data_processing_shifted_register::logical_reg_ir(
            s,
            inst,
            Opcode::And32,
        ),
        Thumb32InstId::BIC_reg => thumb32_data_processing_shifted_register::logical_reg_ir(
            s,
            inst,
            Opcode::AndNot32,
        ),
        Thumb32InstId::MOV_reg => thumb32_data_processing_shifted_register::move_reg_ir(
            s,
            inst,
            false,
        ),
        Thumb32InstId::ORR_reg => thumb32_data_processing_shifted_register::logical_reg_ir(
            s,
            inst,
            Opcode::Or32,
        ),
        Thumb32InstId::MVN_reg => thumb32_data_processing_shifted_register::move_reg_ir(
            s,
            inst,
            true,
        ),
        Thumb32InstId::ORN_reg => {
            thumb32_data_processing_shifted_register::thumb32_orn_reg_ir(s, inst)
        },
        Thumb32InstId::TEQ_reg => thumb32_data_processing_shifted_register::test_reg_ir(
            s,
            inst,
            Opcode::Eor32,
        ),
        Thumb32InstId::EOR_reg => thumb32_data_processing_shifted_register::logical_reg_ir(
            s,
            inst,
            Opcode::Eor32,
        ),
        Thumb32InstId::PKH => thumb32_data_processing_shifted_register::thumb32_pkh_ir(s, inst),
        Thumb32InstId::CMN_reg => thumb32_data_processing_shifted_register::compare_reg_ir(
            s,
            inst,
            Opcode::Add32,
        ),
        Thumb32InstId::ADD_reg => thumb32_data_processing_shifted_register::arithmetic_reg_ir(
            s,
            inst,
            Opcode::Add32,
        ),
        Thumb32InstId::ADC_reg => thumb32_data_processing_shifted_register::carry_reg_ir(
            s,
            inst,
            Opcode::Add32,
        ),
        Thumb32InstId::SBC_reg => thumb32_data_processing_shifted_register::carry_reg_ir(
            s,
            inst,
            Opcode::Sub32,
        ),
        Thumb32InstId::CMP_reg => thumb32_data_processing_shifted_register::compare_reg_ir(
            s,
            inst,
            Opcode::Sub32,
        ),
        Thumb32InstId::SUB_reg => thumb32_data_processing_shifted_register::arithmetic_reg_ir(
            s,
            inst,
            Opcode::Sub32,
        ),
        Thumb32InstId::RSB_reg => {
            thumb32_data_processing_shifted_register::thumb32_rsb_reg_ir(s, inst)
        },
        Thumb32InstId::ADR_t2 => thumb32_data_processing_plain_binary_immediate::constant_ir(
            s,
            inst.rd(),
            (s.pc() & 0xFFFF_FFFC).wrapping_sub(inst.imm12()),
        ),
        Thumb32InstId::ADR_t3 => thumb32_data_processing_plain_binary_immediate::constant_ir(
            s,
            inst.rd(),
            (s.pc() & 0xFFFF_FFFC).wrapping_add(inst.imm12()),
        ),
        Thumb32InstId::ADD_imm_2 => {
            thumb32_data_processing_plain_binary_immediate::plain_arithmetic_ir(
                s,
                inst,
                Opcode::Add32,
            )
        },
        Thumb32InstId::BFC => {
            thumb32_data_processing_plain_binary_immediate::thumb32_bfc_ir(s, inst)
        },
        Thumb32InstId::BFI => {
            thumb32_data_processing_plain_binary_immediate::thumb32_bfi_ir(s, inst)
        },
        Thumb32InstId::MOVT => {
            thumb32_data_processing_plain_binary_immediate::thumb32_movt_ir(s, inst)
        },
        Thumb32InstId::MOVW_imm => thumb32_data_processing_plain_binary_immediate::constant_ir(
            s,
            inst.rd(),
            inst.imm16(),
        ),
        Thumb32InstId::SBFX => {
            thumb32_data_processing_plain_binary_immediate::thumb32_sbfx_ir(s, inst)
        },
        Thumb32InstId::SSAT => thumb32_data_processing_plain_binary_immediate::saturation_ir(
            s,
            inst,
            ((inst.raw & 0x1F) + 1) as u8,
            thumb32_data_processing_plain_binary_immediate::SaturationFunction::Signed,
        ),
        Thumb32InstId::SSAT16 => thumb32_data_processing_plain_binary_immediate::saturation16_ir(
            s,
            inst,
            ((inst.raw & 0xF) + 1) as u8,
            thumb32_data_processing_plain_binary_immediate::SaturationFunction::Signed,
        ),
        Thumb32InstId::SUB_imm_2 => {
            thumb32_data_processing_plain_binary_immediate::plain_arithmetic_ir(
                s,
                inst,
                Opcode::Sub32,
            )
        },
        Thumb32InstId::UBFX => {
            thumb32_data_processing_plain_binary_immediate::thumb32_ubfx_ir(s, inst)
        },
        Thumb32InstId::USAT => thumb32_data_processing_plain_binary_immediate::saturation_ir(
            s,
            inst,
            (inst.raw & 0x1F) as u8,
            thumb32_data_processing_plain_binary_immediate::SaturationFunction::Unsigned,
        ),
        Thumb32InstId::USAT16 => thumb32_data_processing_plain_binary_immediate::saturation16_ir(
            s,
            inst,
            (inst.raw & 0xF) as u8,
            thumb32_data_processing_plain_binary_immediate::SaturationFunction::Unsigned,
        ),
        Thumb32InstId::B => thumb32_branch::thumb32_b_ir(s, inst),
        Thumb32InstId::B_cond => thumb32_branch::thumb32_b_cond_ir(s, inst),
        Thumb32InstId::BL_imm => thumb32_branch::thumb32_bl_imm_ir(s, inst),
        Thumb32InstId::BLX_imm => thumb32_branch::thumb32_blx_imm_ir(s, inst),
        Thumb32InstId::LDR_lit | Thumb32InstId::LDR_imm_t4 | Thumb32InstId::LDR_imm_t3
        | Thumb32InstId::LDR_reg | Thumb32InstId::LDRT | Thumb32InstId::STR_imm_1
        | Thumb32InstId::STR_imm_2 | Thumb32InstId::STR_imm_3 | Thumb32InstId::STRT
        | Thumb32InstId::STR_reg | Thumb32InstId::STRB_imm_1 | Thumb32InstId::STRB_imm_2
        | Thumb32InstId::STRB_imm_3 | Thumb32InstId::STRBT | Thumb32InstId::STRB_reg
        | Thumb32InstId::STRH_imm_1 | Thumb32InstId::STRH_imm_2 | Thumb32InstId::STRH_imm_3
        | Thumb32InstId::STRHT | Thumb32InstId::STRH_reg | Thumb32InstId::LDA
        | Thumb32InstId::LDRD_imm_1 | Thumb32InstId::LDRD_imm_2 | Thumb32InstId::LDRD_lit_1
        | Thumb32InstId::LDRD_lit_2 | Thumb32InstId::STRD_imm_1 | Thumb32InstId::STRD_imm_2
        | Thumb32InstId::LDREX | Thumb32InstId::LDREXB | Thumb32InstId::LDREXH
        | Thumb32InstId::LDREXD | Thumb32InstId::STL | Thumb32InstId::STREX
        | Thumb32InstId::STREXB | Thumb32InstId::STREXH | Thumb32InstId::STREXD
        | Thumb32InstId::TBB | Thumb32InstId::TBH | Thumb32InstId::LDMDB | Thumb32InstId::LDMIA
        | Thumb32InstId::POP | Thumb32InstId::PUSH | Thumb32InstId::STMIA | Thumb32InstId::STMDB
        | Thumb32InstId::MLA | Thumb32InstId::MLS | Thumb32InstId::MUL | Thumb32InstId::SMLAD
        | Thumb32InstId::SMLAXY | Thumb32InstId::SMLAWY | Thumb32InstId::SMLSD
        | Thumb32InstId::SMMLA | Thumb32InstId::SMMLS | Thumb32InstId::SMMUL
        | Thumb32InstId::SMUAD | Thumb32InstId::SMUSD | Thumb32InstId::SMULXY
        | Thumb32InstId::SMULWY | Thumb32InstId::USAD8 | Thumb32InstId::USADA8
        | Thumb32InstId::SDIV | Thumb32InstId::SMLAL | Thumb32InstId::SMLALD
        | Thumb32InstId::SMLALXY | Thumb32InstId::SMLSLD | Thumb32InstId::SMULL
        | Thumb32InstId::UDIV | Thumb32InstId::UMAAL | Thumb32InstId::UMLAL | Thumb32InstId::UMULL
        | Thumb32InstId::SADD8 | Thumb32InstId::SADD16 | Thumb32InstId::SASX | Thumb32InstId::SSAX
        | Thumb32InstId::SSUB8 | Thumb32InstId::SSUB16 | Thumb32InstId::UADD8
        | Thumb32InstId::UADD16 | Thumb32InstId::UASX | Thumb32InstId::USAX | Thumb32InstId::USUB8
        | Thumb32InstId::USUB16 | Thumb32InstId::QADD8 | Thumb32InstId::QADD16
        | Thumb32InstId::QASX | Thumb32InstId::QSAX | Thumb32InstId::QSUB8 | Thumb32InstId::QSUB16
        | Thumb32InstId::UQADD8 | Thumb32InstId::UQADD16 | Thumb32InstId::UQASX
        | Thumb32InstId::UQSAX | Thumb32InstId::UQSUB8 | Thumb32InstId::UQSUB16
        | Thumb32InstId::SHADD8 | Thumb32InstId::SHADD16 | Thumb32InstId::SHASX
        | Thumb32InstId::SHSAX | Thumb32InstId::SHSUB8 | Thumb32InstId::SHSUB16
        | Thumb32InstId::UHADD8 | Thumb32InstId::UHADD16 | Thumb32InstId::UHASX
        | Thumb32InstId::UHSAX | Thumb32InstId::UHSUB8 | Thumb32InstId::UHSUB16
        | Thumb32InstId::CLZ | Thumb32InstId::QADD | Thumb32InstId::QDADD | Thumb32InstId::QDSUB
        | Thumb32InstId::QSUB | Thumb32InstId::RBIT | Thumb32InstId::REV | Thumb32InstId::REV16
        | Thumb32InstId::REVSH | Thumb32InstId::SEL => interpret_ir(s),
        Thumb32InstId::LDRB_lit => thumb32_load_byte::load_byte_literal_ir(s, inst, false),
        Thumb32InstId::LDRB_imm_t3 => thumb32_load_byte::load_byte_imm8_ir(s, inst, false),
        Thumb32InstId::LDRB_imm_t2 => thumb32_load_byte::load_byte_immediate_ir(
            s,
            inst,
            true,
            true,
            false,
            inst.raw & 0xFFF,
            false,
        ),
        Thumb32InstId::LDRB_reg => thumb32_load_byte::load_byte_register_ir(s, inst, false),
        Thumb32InstId::LDRBT => thumb32_load_byte::load_byte_unprivileged_ir(s, inst, false),
        Thumb32InstId::LDRH_lit => thumb32_load_halfword::load_half_literal_ir(s, inst, false),
        Thumb32InstId::LDRH_reg => thumb32_load_halfword::load_half_register_ir(s, inst, false),
        Thumb32InstId::LDRH_imm_t3 => thumb32_load_halfword::load_half_imm8_ir(s, inst, false),
        Thumb32InstId::LDRH_imm_t2 => thumb32_load_halfword::load_half_immediate_ir(
            s,
            inst,
            true,
            true,
            false,
            inst.raw & 0xFFF,
            false,
        ),
        Thumb32InstId::LDRHT => thumb32_load_halfword::load_half_unprivileged_ir(s, inst, false),
        Thumb32InstId::LDRSB_lit => thumb32_load_byte::load_byte_literal_ir(s, inst, true),
        Thumb32InstId::LDRSB_imm_t2 => thumb32_load_byte::load_byte_imm8_ir(s, inst, true),
        Thumb32InstId::LDRSB_imm_t1 => thumb32_load_byte::load_byte_immediate_ir(
            s,
            inst,
            true,
            true,
            false,
            inst.raw & 0xFFF,
            true,
        ),
        Thumb32InstId::LDRSB_reg => thumb32_load_byte::load_byte_register_ir(s, inst, true),
        Thumb32InstId::LDRSBT => thumb32_load_byte::load_byte_unprivileged_ir(s, inst, true),
        Thumb32InstId::LDRSH_lit => thumb32_load_halfword::load_half_literal_ir(s, inst, true),
        Thumb32InstId::LDRSH_reg => thumb32_load_halfword::load_half_register_ir(s, inst, true),
        Thumb32InstId::LDRSH_imm_t2 => thumb32_load_halfword::load_half_imm8_ir(s, inst, true),
        Thumb32InstId::LDRSH_imm_t1 => thumb32_load_halfword::load_half_immediate_ir(
            s,
            inst,
            true,
            true,
            false,
            inst.raw & 0xFFF,
            true,
        ),
        Thumb32InstId::LDRSHT => thumb32_load_halfword::load_half_unprivileged_ir(s, inst, true),
        Thumb32InstId::CLREX => (s.op0(Opcode::A32ClearExclusive).0, true),
        Thumb32InstId::BXJ => thumb32_control::thumb32_bxj_ir(s, inst),
        Thumb32InstId::MCRR => thumb32_coprocessor::thumb32_mcrr_ir(s, inst),
        Thumb32InstId::MRRC => thumb32_coprocessor::thumb32_mrrc_ir(s, inst),
        Thumb32InstId::STC => thumb32_coprocessor::words_transfer_ir(
            s,
            inst,
            Opcode::A32CoprocStoreWords,
        ),
        Thumb32InstId::LDC => thumb32_coprocessor::words_transfer_ir(
            s,
            inst,
            Opcode::A32CoprocLoadWords,
        ),
        Thumb32InstId::CDP => thumb32_coprocessor::thumb32_cdp_ir(s, inst),
        Thumb32InstId::MCR => thumb32_coprocessor::thumb32_mcr_ir(s, inst),
        Thumb32InstId::MRC => thumb32_coprocessor::thumb32_mrc_ir(s, inst),
        Thumb32InstId::LSL_reg => thumb32_data_processing_register::shift_instruction_ir(
            s,
            inst,
            ShiftType::LSL,
        ),
        Thumb32InstId::LSR_reg => thumb32_data_processing_register::shift_instruction_ir(
            s,
            inst,
            ShiftType::LSR,
        ),
        Thumb32InstId::ASR_reg => thumb32_data_processing_register::shift_instruction_ir(
            s,
            inst,
            ShiftType::ASR,
        ),
        Thumb32InstId::ROR_reg => thumb32_data_processing_register::shift_instruction_ir(
            s,
            inst,
            ShiftType::ROR,
        ),
        Thumb32InstId::SXTB => thumb32_data_processing_register::extend_ir(
            s,
            inst,
            Opcode::LeastSignificantByte,
            Opcode::SignExtendByteToWord,
        ),
        Thumb32InstId::SXTB16 => thumb32_data_processing_register::thumb32_sxtb16_ir(s, inst),
        Thumb32InstId::SXTAB => thumb32_data_processing_register::extend_add_ir(
            s,
            inst,
            Opcode::LeastSignificantByte,
            Opcode::SignExtendByteToWord,
        ),
        Thumb32InstId::SXTAB16 => thumb32_data_processing_register::thumb32_sxtab16_ir(s, inst),
        Thumb32InstId::SXTH => thumb32_data_processing_register::extend_ir(
            s,
            inst,
            Opcode::LeastSignificantHalf,
            Opcode::SignExtendHalfToWord,
        ),
        Thumb32InstId::SXTAH => thumb32_data_processing_register::extend_add_ir(
            s,
            inst,
            Opcode::LeastSignificantHalf,
            Opcode::SignExtendHalfToWord,
        ),
        Thumb32InstId::UXTB => thumb32_data_processing_register::extend_ir(
            s,
            inst,
            Opcode::LeastSignificantByte,
            Opcode::ZeroExtendByteToWord,
        ),
        Thumb32InstId::UXTB16 => thumb32_data_processing_register::thumb32_uxtb16_ir(s, inst),
        Thumb32InstId::UXTAB => thumb32_data_processing_register::extend_add_ir(
            s,
            inst,
            Opcode::LeastSignificantByte,
            Opcode::ZeroExtendByteToWord,
        ),
        Thumb32InstId::UXTAB16 => thumb32_data_processing_register::thumb32_uxtab16_ir(s, inst),
        Thumb32InstId::UXTH => thumb32_data_processing_register::extend_ir(
            s,
            inst,
            Opcode::LeastSignificantHalf,
            Opcode::ZeroExtendHalfToWord,
        ),
        Thumb32InstId::UXTAH => thumb32_data_processing_register::extend_add_ir(
            s,
            inst,
            Opcode::LeastSignificantHalf,
            Opcode::ZeroExtendHalfToWord,
        ),
        Thumb32InstId::DMB => (s.op0(Opcode::A32DataMemoryBarrier).0, true),
        Thumb32InstId::DSB => (s.op0(Opcode::A32DataSynchronizationBarrier).0, true),
        Thumb32InstId::ISB => thumb32_control::thumb32_isb_ir(s),
        Thumb32InstId::MRS_reg => thumb32_control::thumb32_mrs_reg_ir(s, inst),
        Thumb32InstId::MSR_reg => thumb32_control::thumb32_msr_reg_ir(s, inst),
        Thumb32InstId::UDF | Thumb32InstId::BKPT | Thumb32InstId::Unknown => undefined_ir(s),
        Thumb32InstId::NOP => (s, true),
        Thumb32InstId::SEV => hint::hint_ir(s, options, Exception::SendEvent),
        Thumb32InstId::SEVL => hint::hint_ir(s, options, Exception::SendEventLocal),
        Thumb32InstId::WFE => hint::hint_ir(s, options, Exception::WaitForEvent),
        Thumb32InstId::WFI => hint::hint_ir(s, options, Exception::WaitForInterrupt),
        Thumb32InstId::YIELD => hint::hint_ir(s, options, Exception::Yield),
        Thumb32InstId::PLD_lit => thumb32_load_byte::pld_ir(s, false, options),
        Thumb32InstId::PLD_imm8 | Thumb32InstId::PLD_imm12 => thumb32_load_byte::pld_ir(
            s,
            thumb32_load_byte::write_intent(inst),
            options,
        ),
        Thumb32InstId::PLD_reg => if inst.rm() == Reg::R15 {
            unpredictable_ir(s)
        } else {
            thumb32_load_byte::pld_ir(s, thumb32_load_byte::write_intent(inst), options)
        },
        Thumb32InstId::PLI_lit | Thumb32InstId::PLI_imm8 | Thumb32InstId::PLI_imm12 => {
            hint::hint_ir(s, options, Exception::PreloadInstruction)
        },
        Thumb32InstId::PLI_reg => if inst.rm() == Reg::R15 {
            unpredictable_ir(s)
        } else {
            hint::hint_ir(s, options, Exception::PreloadInstruction)
        },
    }
}

/// Translates a 32-bit Thumb instruction.
pub fn translate_thumb32(
    ir: &mut A32IREmitter,
    inst: &DecodedThumb32,
    options: TranslationOptions,
) -> (r: bool)
    requires
        thumb32_wf(*inst),
    ensures
        (final(ir)@, r) == translate_thumb32_ir(old(ir)@, *inst, options),
{
    match inst.id {
        Thumb32InstId::TST_imm => {
            thumb32_data_processing_modified_immediate::thumb32_tst_imm(ir, inst)
        },
        Thumb32InstId::AND_imm => {
            thumb32_data_processing_modified_immediate::thumb32_and_imm(ir, inst)
        },
        Thumb32InstId::BIC_imm => {
            thumb32_data_processing_modified_immediate::thumb32_bic_imm(ir, inst)
        },
        Thumb32InstId::MOV_imm => {
            thumb32_data_processing_modified_immediate::thumb32_mov_imm(ir, inst)
        },
        Thumb32InstId::ORR_imm => {
            thumb32_data_processing_modified_immediate::thumb32_orr_imm(ir, inst)
        },
        Thumb32InstId::MVN_imm => {
            thumb32_data_processing_modified_immediate::thumb32_mvn_imm(ir, inst)
        },
        Thumb32InstId::ORN_imm => {
            thumb32_data_processing_modified_immediate::thumb32_orn_imm(ir, inst)
        },
        Thumb32InstId::TEQ_imm => {
            thumb32_data_processing_modified_immediate::thumb32_teq_imm(ir, inst)
        },
        Thumb32InstId::EOR_imm => {
            thumb32_data_processing_modified_immediate::thumb32_eor_imm(ir, inst)
        },
        Thumb32InstId::CMN_imm => {
            thumb32_data_processing_modified_immediate::thumb32_cmn_imm(ir, inst)
        },
        Thumb32InstId::ADD_imm_1 => {
            thumb32_data_processing_modified_immediate::thumb32_add_imm_1(ir, inst)
        },
        Thumb32InstId::ADC_imm => {
            thumb32_data_processing_modified_immediate::thumb32_adc_imm(ir, inst)
        },
        Thumb32InstId::SBC_imm => {
            thumb32_data_processing_modified_immediate::thumb32_sbc_imm(ir, inst)
        },
        Thumb32InstId::CMP_imm => {
            thumb32_data_processing_modified_immediate::thumb32_cmp_imm(ir, inst)
        },
        Thumb32InstId::SUB_imm_1 => {
            thumb32_data_processing_modified_immediate::thumb32_sub_imm_1(ir, inst)
        },
        Thumb32InstId::RSB_imm => {
            thumb32_data_processing_modified_immediate::thumb32_rsb_imm(ir, inst)
        },
        Thumb32InstId::TST_reg => {
            thumb32_data_processing_shifted_register::thumb32_tst_reg(ir, inst)
        },
        Thumb32InstId::AND_reg => {
            thumb32_data_processing_shifted_register::thumb32_and_reg(ir, inst)
        },
        Thumb32InstId::BIC_reg => {
            thumb32_data_processing_shifted_register::thumb32_bic_reg(ir, inst)
        },
        Thumb32InstId::MOV_reg => {
            thumb32_data_processing_shifted_register::thumb32_mov_reg(ir, inst)
        },
        Thumb32InstId::ORR_reg => {
            thumb32_data_processing_shifted_register::thumb32_orr_reg(ir, inst)
        },
        Thumb32InstId::MVN_reg => {
            thumb32_data_processing_shifted_register::thumb32_mvn_reg(ir, inst)
        },
        Thumb32InstId::ORN_reg => {
            thumb32_data_processing_shifted_register::thumb32_orn_reg(ir, inst)
        },
        Thumb32InstId::TEQ_reg => {
            thumb32_data_processing_shifted_register::thumb32_teq_reg(ir, inst)
        },
        Thumb32InstId::EOR_reg => {
            thumb32_data_processing_shifted_register::thumb32_eor_reg(ir, inst)
        },
        Thumb32InstId::PKH => thumb32_data_processing_shifted_register::thumb32_pkh(ir, inst),
        Thumb32InstId::CMN_reg => {
            thumb32_data_processing_shifted_register::thumb32_cmn_reg(ir, inst)
        },
        Thumb32InstId::ADD_reg => {
            thumb32_data_processing_shifted_register::thumb32_add_reg(ir, inst)
        },
        Thumb32InstId::ADC_reg => {
            thumb32_data_processing_shifted_register::thumb32_adc_reg(ir, inst)
        },
        Thumb32InstId::SBC_reg => {
            thumb32_data_processing_shifted_register::thumb32_sbc_reg(ir, inst)
        },
        Thumb32InstId::CMP_reg => {
            thumb32_data_processing_shifted_register::thumb32_cmp_reg(ir, inst)
        },
        Thumb32InstId::SUB_reg => {
            thumb32_data_processing_shifted_register::thumb32_sub_reg(ir, inst)
        },
        Thumb32InstId::RSB_reg => {
            thumb32_data_processing_shifted_register::thumb32_rsb_reg(ir, inst)
        },
        Thumb32InstId::ADR_t2 => {
            thumb32_data_processing_plain_binary_immediate::thumb32_adr_t2(ir, inst)
        },
        Thumb32InstId::ADR_t3 => {
            thumb32_data_processing_plain_binary_immediate::thumb32_adr_t3(ir, inst)
        },
        Thumb32InstId::ADD_imm_2 => {
            thumb32_data_processing_plain_binary_immediate::thumb32_add_imm_2(ir, inst)
        },
        Thumb32InstId::BFC => thumb32_data_processing_plain_binary_immediate::thumb32_bfc(ir, inst),
        Thumb32InstId::BFI => thumb32_data_processing_plain_binary_immediate::thumb32_bfi(ir, inst),
        Thumb32InstId::MOVT => {
            thumb32_data_processing_plain_binary_immediate::thumb32_movt(ir, inst)
        },
        Thumb32InstId::MOVW_imm => {
            thumb32_data_processing_plain_binary_immediate::thumb32_movw_imm(ir, inst)
        },
        Thumb32InstId::SBFX => {
            thumb32_data_processing_plain_binary_immediate::thumb32_sbfx(ir, inst)
        },
        Thumb32InstId::SSAT => {
            thumb32_data_processing_plain_binary_immediate::thumb32_ssat(ir, inst)
        },
        Thumb32InstId::SSAT16 => {
            thumb32_data_processing_plain_binary_immediate::thumb32_ssat16(ir, inst)
        },
        Thumb32InstId::SUB_imm_2 => {
            thumb32_data_processing_plain_binary_immediate::thumb32_sub_imm_2(ir, inst)
        },
        Thumb32InstId::UBFX => {
            thumb32_data_processing_plain_binary_immediate::thumb32_ubfx(ir, inst)
        },
        Thumb32InstId::USAT => {
            thumb32_data_processing_plain_binary_immediate::thumb32_usat(ir, inst)
        },
        Thumb32InstId::USAT16 => {
            thumb32_data_processing_plain_binary_immediate::thumb32_usat16(ir, inst)
        },
        Thumb32InstId::B => thumb32_branch::thumb32_b(ir, inst),
        Thumb32InstId::B_cond => thumb32_branch::thumb32_b_cond(ir, inst),
        Thumb32InstId::BL_imm => thumb32_branch::thumb32_bl_imm(ir, inst),
        Thumb32InstId::BLX_imm => thumb32_branch::thumb32_blx_imm(ir, inst),
        Thumb32InstId::LDR_lit | Thumb32InstId::LDR_imm_t4 | Thumb32InstId::LDR_imm_t3
        | Thumb32InstId::LDR_reg | Thumb32InstId::LDRT | Thumb32InstId::STR_imm_1
        | Thumb32InstId::STR_imm_2 | Thumb32InstId::STR_imm_3 | Thumb32InstId::STRT
        | Thumb32InstId::STR_reg | Thumb32InstId::STRB_imm_1 | Thumb32InstId::STRB_imm_2
        | Thumb32InstId::STRB_imm_3 | Thumb32InstId::STRBT | Thumb32InstId::STRB_reg
        | Thumb32InstId::STRH_imm_1 | Thumb32InstId::STRH_imm_2 | Thumb32InstId::STRH_imm_3
        | Thumb32InstId::STRHT | Thumb32InstId::STRH_reg | Thumb32InstId::LDA
        | Thumb32InstId::LDRD_imm_1 | Thumb32InstId::LDRD_imm_2 | Thumb32InstId::LDRD_lit_1
        | Thumb32InstId::LDRD_lit_2 | Thumb32InstId::STRD_imm_1 | Thumb32InstId::STRD_imm_2
        | Thumb32InstId::LDREX | Thumb32InstId::LDREXB | Thumb32InstId::LDREXH
        | Thumb32InstId::LDREXD | Thumb32InstId::STL | Thumb32InstId::STREX
        | Thumb32InstId::STREXB | Thumb32InstId::STREXH | Thumb32InstId::STREXD
        | Thumb32InstId::TBB | Thumb32InstId::TBH | Thumb32InstId::LDMDB | Thumb32InstId::LDMIA
        | Thumb32InstId::POP | Thumb32InstId::PUSH | Thumb32InstId::STMIA | Thumb32InstId::STMDB
        | Thumb32InstId::MLA | Thumb32InstId::MLS | Thumb32InstId::MUL | Thumb32InstId::SMLAD
        | Thumb32InstId::SMLAXY | Thumb32InstId::SMLAWY | Thumb32InstId::SMLSD
        | Thumb32InstId::SMMLA | Thumb32InstId::SMMLS | Thumb32InstId::SMMUL
        | Thumb32InstId::SMUAD | Thumb32InstId::SMUSD | Thumb32InstId::SMULXY
        | Thumb32InstId::SMULWY | Thumb32InstId::USAD8 | Thumb32InstId::USADA8
        | Thumb32InstId::SDIV | Thumb32InstId::SMLAL | Thumb32InstId::SMLALD
        | Thumb32InstId::SMLALXY | Thumb32InstId::SMLSLD | Thumb32InstId::SMULL
        | Thumb32InstId::UDIV | Thumb32InstId::UMAAL | Thumb32InstId::UMLAL | Thumb32InstId::UMULL
        | Thumb32InstId::SADD8 | Thumb32InstId::SADD16 | Thumb32InstId::SASX | Thumb32InstId::SSAX
        | Thumb32InstId::SSUB8 | Thumb32InstId::SSUB16 | Thumb32InstId::UADD8
        | Thumb32InstId::UADD16 | Thumb32InstId::UASX | Thumb32InstId::USAX | Thumb32InstId::USUB8
        | Thumb32InstId::USUB16 | Thumb32InstId::QADD8 | Thumb32InstId::QADD16
        | Thumb32InstId::QASX | Thumb32InstId::QSAX | Thumb32InstId::QSUB8 | Thumb32InstId::QSUB16
        | Thumb32InstId::UQADD8 | Thumb32InstId::UQADD16 | Thumb32InstId::UQASX
        | Thumb32InstId::UQSAX | Thumb32InstId::UQSUB8 | Thumb32InstId::UQSUB16
        | Thumb32InstId::SHADD8 | Thumb32InstId::SHADD16 | Thumb32InstId::SHASX
        | Thumb32InstId::SHSAX | Thumb32InstId::SHSUB8 | Thumb32InstId::SHSUB16
        | Thumb32InstId::UHADD8 | Thumb32InstId::UHADD16 | Thumb32InstId::UHASX
        | Thumb32InstId::UHSAX | Thumb32InstId::UHSUB8 | Thumb32InstId::UHSUB16
        | Thumb32InstId::CLZ | Thumb32InstId::QADD | Thumb32InstId::QDADD | Thumb32InstId::QDSUB
        | Thumb32InstId::QSUB | Thumb32InstId::RBIT | Thumb32InstId::REV | Thumb32InstId::REV16
        | Thumb32InstId::REVSH | Thumb32InstId::SEL => interpret_this_instruction(ir),
        Thumb32InstId::LDRB_lit => thumb32_load_byte::thumb32_ldrb_lit(ir, inst),
        Thumb32InstId::LDRB_imm_t3 => thumb32_load_byte::thumb32_ldrb_imm8(ir, inst),
        Thumb32InstId::LDRB_imm_t2 => thumb32_load_byte::thumb32_ldrb_imm12(ir, inst),
        Thumb32InstId::LDRB_reg => thumb32_load_byte::thumb32_ldrb_reg(ir, inst),
        Thumb32InstId::LDRBT => thumb32_load_byte::thumb32_ldrbt(ir, inst),
        Thumb32InstId::LDRH_lit => thumb32_load_halfword::thumb32_ldrh_lit(ir, inst),
        Thumb32InstId::LDRH_reg => thumb32_load_halfword::thumb32_ldrh_reg(ir, inst),
        Thumb32InstId::LDRH_imm_t3 => thumb32_load_halfword::thumb32_ldrh_imm8(ir, inst),
        Thumb32InstId::LDRH_imm_t2 => thumb32_load_halfword::thumb32_ldrh_imm12(ir, inst),
        Thumb32InstId::LDRHT => thumb32_load_halfword::thumb32_ldrht(ir, inst),
        Thumb32InstId::LDRSB_lit => thumb32_load_byte::thumb32_ldrsb_lit(ir, inst),
        Thumb32InstId::LDRSB_imm_t2 => thumb32_load_byte::thumb32_ldrsb_imm8(ir, inst),
        Thumb32InstId::LDRSB_imm_t1 => thumb32_load_byte::thumb32_ldrsb_imm12(ir, inst),
        Thumb32InstId::LDRSB_reg => thumb32_load_byte::thumb32_ldrsb_reg(ir, inst),
        Thumb32InstId::LDRSBT => thumb32_load_byte::thumb32_ldrsbt(ir, inst),
        Thumb32InstId::LDRSH_lit => thumb32_load_halfword::thumb32_ldrsh_lit(ir, inst),
        Thumb32InstId::LDRSH_reg => thumb32_load_halfword::thumb32_ldrsh_reg(ir, inst),
        Thumb32InstId::LDRSH_imm_t2 => thumb32_load_halfword::thumb32_ldrsh_imm8(ir, inst),
        Thumb32InstId::LDRSH_imm_t1 => thumb32_load_halfword::thumb32_ldrsh_imm12(ir, inst),
        Thumb32InstId::LDRSHT => thumb32_load_halfword::thumb32_ldrsht(ir, inst),
        Thumb32InstId::CLREX => thumb32_control::thumb32_clrex(ir),
        Thumb32InstId::BXJ => thumb32_control::thumb32_bxj(ir, inst),
        Thumb32InstId::MCRR => thumb32_coprocessor::thumb32_mcrr(ir, inst),
        Thumb32InstId::MRRC => thumb32_coprocessor::thumb32_mrrc(ir, inst),
        Thumb32InstId::STC => thumb32_coprocessor::thumb32_stc(ir, inst),
        Thumb32InstId::LDC => thumb32_coprocessor::thumb32_ldc(ir, inst),
        Thumb32InstId::CDP => thumb32_coprocessor::thumb32_cdp(ir, inst),
        Thumb32InstId::MCR => thumb32_coprocessor::thumb32_mcr(ir, inst),
        Thumb32InstId::MRC => thumb32_coprocessor::thumb32_mrc(ir, inst),
        Thumb32InstId::LSL_reg => thumb32_data_processing_register::thumb32_lsl_reg(ir, inst),
        Thumb32InstId::LSR_reg => thumb32_data_processing_register::thumb32_lsr_reg(ir, inst),
        Thumb32InstId::ASR_reg => thumb32_data_processing_register::thumb32_asr_reg(ir, inst),
        Thumb32InstId::ROR_reg => thumb32_data_processing_register::thumb32_ror_reg(ir, inst),
        Thumb32InstId::SXTB => thumb32_data_processing_register::thumb32_sxtb(ir, inst),
        Thumb32InstId::SXTB16 => thumb32_data_processing_register::thumb32_sxtb16(ir, inst),
        Thumb32InstId::SXTAB => thumb32_data_processing_register::thumb32_sxtab(ir, inst),
        Thumb32InstId::SXTAB16 => thumb32_data_processing_register::thumb32_sxtab16(ir, inst),
        Thumb32InstId::SXTH => thumb32_data_processing_register::thumb32_sxth(ir, inst),
        Thumb32InstId::SXTAH => thumb32_data_processing_register::thumb32_sxtah(ir, inst),
        Thumb32InstId::UXTB => thumb32_data_processing_register::thumb32_uxtb(ir, inst),
        Thumb32InstId::UXTB16 => thumb32_data_processing_register::thumb32_uxtb16(ir, inst),
        Thumb32InstId::UXTAB => thumb32_data_processing_register::thumb32_uxtab(ir, inst),
        Thumb32InstId::UXTAB16 => thumb32_data_processing_register::thumb32_uxtab16(ir, inst),
        Thumb32InstId::UXTH => thumb32_data_processing_register::thumb32_uxth(ir, inst),
        Thumb32InstId::UXTAH => thumb32_data_processing_register::thumb32_uxtah(ir, inst),
        Thumb32InstId::DMB => thumb32_control::thumb32_dmb(ir),
        Thumb32InstId::DSB => thumb32_control::thumb32_dsb(ir),
        Thumb32InstId::ISB => thumb32_control::thumb32_isb(ir),
        Thumb32InstId::MRS_reg => thumb32_control::thumb32_mrs_reg(ir, inst),
        Thumb32InstId::MSR_reg => thumb32_control::thumb32_msr_reg(ir, inst),
        Thumb32InstId::UDF | Thumb32InstId::BKPT => thumb32_control::thumb32_udf(ir),
        Thumb32InstId::NOP => thumb32_control::thumb32_nop(),
        Thumb32InstId::SEV => thumb32_control::thumb32_sev(ir, options),
        Thumb32InstId::SEVL => thumb32_control::thumb32_sevl(ir, options),
        Thumb32InstId::WFE => thumb32_control::thumb32_wfe(ir, options),
        Thumb32InstId::WFI => thumb32_control::thumb32_wfi(ir, options),
        Thumb32InstId::YIELD => thumb32_control::thumb32_yield(ir, options),
        Thumb32InstId::PLD_lit => thumb32_load_byte::thumb32_pld_lit(ir, inst, options),
        Thumb32InstId::PLD_imm8 => thumb32_load_byte::thumb32_pld_imm8(ir, inst, options),
        Thumb32InstId::PLD_imm12 => thumb32_load_byte::thumb32_pld_imm12(ir, inst, options),
        Thumb32InstId::PLD_reg => thumb32_load_byte::thumb32_pld_reg(ir, inst, options),
        Thumb32InstId::PLI_lit => thumb32_load_byte::thumb32_pli_lit(ir, inst, options),
        Thumb32InstId::PLI_imm8 => thumb32_load_byte::thumb32_pli_imm8(ir, inst, options),
        Thumb32InstId::PLI_imm12 => thumb32_load_byte::thumb32_pli_imm12(ir, inst, options),
        Thumb32InstId::PLI_reg => thumb32_load_byte::thumb32_pli_reg(ir, inst, options),
        Thumb32InstId::Unknown => undefined_instruction(ir),
    }
}

/// What decoding guarantees, as a relation between the instruction and the
/// bits.
#[verifier::opaque]
pub open spec fn operands_ok(id: Thumb32InstId, raw: u32) -> bool {
    thumb32_wf(DecodedThumb32 { raw, id })
}

proof fn parallel_encoding_is_ok(raw: u32)
    ensures
        operands_ok(parallel_encoding(raw), raw),
{
    reveal(operands_ok);
}

proof fn dp_register_encoding_is_ok(raw: u32)
    ensures
        operands_ok(dp_register_encoding(raw), raw),
{
    reveal(operands_ok);
}

proof fn misc_encoding_is_ok(raw: u32)
    ensures
        operands_ok(misc_encoding(raw), raw),
{
    reveal(operands_ok);
}

proof fn multiply_encoding_is_ok(raw: u32)
    ensures
        operands_ok(multiply_encoding(raw), raw),
{
    reveal(operands_ok);
}

proof fn long_multiply_encoding_is_ok(raw: u32)
    ensures
        operands_ok(long_multiply_encoding(raw), raw),
{
    reveal(operands_ok);
}

proof fn ls_multiple_encoding_is_ok(raw: u32)
    ensures
        operands_ok(ls_multiple_encoding(raw), raw),
{
    reveal(operands_ok);
}

proof fn ls_dual_excl_encoding_is_ok(raw: u32)
    ensures
        operands_ok(ls_dual_excl_encoding(raw), raw),
{
    reveal(operands_ok);
}

proof fn branch_encoding_is_ok(raw: u32)
    ensures
        operands_ok(branch_encoding(raw), raw),
{
    reveal(operands_ok);
}

proof fn ls_single_encoding_is_ok(raw: u32)
    ensures
        operands_ok(ls_single_encoding(raw), raw),
{
    reveal(operands_ok);
}

proof fn dp_mod_imm_encoding_is_ok(raw: u32)
    ensures
        operands_ok(dp_mod_imm_encoding(raw), raw),
{
    reveal(operands_ok);
    assert({
        &&& raw & 0xFBF0_8F00 != 0xF010_0F00 && raw & 0xFBE0_8000 == 0xF000_0000 ==> !((raw >> 8)
            & 0xF == 15 && raw & 0x10_0000 != 0)
        &&& raw & 0xFBF0_8F00 != 0xF090_0F00 && raw & 0xFBE0_8000 == 0xF080_0000 ==> !((raw >> 8)
            & 0xF == 15 && raw & 0x10_0000 != 0)
        &&& raw & 0xFBF0_8F00 != 0xF110_0F00 && raw & 0xFBE0_8000 == 0xF100_0000 ==> !((raw >> 8)
            & 0xF == 15 && raw & 0x10_0000 != 0)
        &&& raw & 0xFBF0_8F00 != 0xF1B0_0F00 && raw & 0xFBE0_8000 == 0xF1A0_0000 ==> !((raw >> 8)
            & 0xF == 15 && raw & 0x10_0000 != 0)
        &&& raw & 0xFBEF_8000 != 0xF04F_0000 && raw & 0xFBE0_8000 == 0xF040_0000 ==> (raw >> 16)
            & 0xF != 15
        &&& raw & 0xFBEF_8000 != 0xF06F_0000 && raw & 0xFBE0_8000 == 0xF060_0000 ==> (raw >> 16)
            & 0xF != 15
    }) by (bit_vector);
}

proof fn dp_shifted_reg_encoding_is_ok(raw: u32)
    ensures
        operands_ok(dp_shifted_reg_encoding(raw), raw),
{
    reveal(operands_ok);
    assert({
        &&& raw & 0xFFF0_8F00 != 0xEA10_0F00 && raw & 0xFFE0_8000 == 0xEA00_0000 ==> !((raw >> 8)
            & 0xF == 15 && raw & 0x10_0000 != 0)
        &&& raw & 0xFFF0_8F00 != 0xEA90_0F00 && raw & 0xFFE0_8000 == 0xEA80_0000 ==> !((raw >> 8)
            & 0xF == 15 && raw & 0x10_0000 != 0)
        &&& raw & 0xFFF0_8F00 != 0xEB10_0F00 && raw & 0xFFE0_8000 == 0xEB00_0000 ==> !((raw >> 8)
            & 0xF == 15 && raw & 0x10_0000 != 0)
        &&& raw & 0xFFF0_8F00 != 0xEBB0_0F00 && raw & 0xFFE0_8000 == 0xEBA0_0000 ==> !((raw >> 8)
            & 0xF == 15 && raw & 0x10_0000 != 0)
        &&& raw & 0xFFEF_8000 != 0xEA4F_0000 && raw & 0xFFE0_8000 == 0xEA40_0000 ==> (raw >> 16)
            & 0xF != 15
        &&& raw & 0xFFEF_8000 != 0xEA6F_0000 && raw & 0xFFE0_8000 == 0xEA60_0000 ==> (raw >> 16)
            & 0xF != 15
    }) by (bit_vector);
}

proof fn dp_plain_imm_encoding_is_ok(raw: u32)
    ensures
        operands_ok(dp_plain_imm_encoding(raw), raw),
{
    reveal(operands_ok);
    assert({
        &&& raw & 0xFF70_F0F0 != 0xF320_0010 && raw & 0xFFF0_F0F0 != 0xF320_0000 && raw
            & 0xFFD0_8020 == 0xF300_0000 ==> !(raw & 0x20_0000 != 0 && (raw >> 12) & 7 == 0 && (raw
            >> 6) & 3 == 0)
        &&& raw & 0xFF70_F0F0 != 0xF320_0010 && raw & 0xFFF0_F0F0 != 0xF3A0_0000 && raw
            & 0xFFD0_8020 == 0xF380_0000 ==> !(raw & 0x20_0000 != 0 && (raw >> 12) & 7 == 0 && (raw
            >> 6) & 3 == 0)
    }) by (bit_vector);
}

proof fn other_instruction_is_ok(id: Thumb32InstId, raw: u32)
    requires
        id == Thumb32InstId::PLD_lit || id == Thumb32InstId::PLD_reg || id
            == Thumb32InstId::PLD_imm8 || id == Thumb32InstId::PLD_imm12 || id
            == Thumb32InstId::PLI_lit || id == Thumb32InstId::PLI_reg || id
            == Thumb32InstId::PLI_imm8 || id == Thumb32InstId::PLI_imm12 || id == Thumb32InstId::NOP
            || id == Thumb32InstId::MCRR || id == Thumb32InstId::MRRC || id == Thumb32InstId::MCR
            || id == Thumb32InstId::MRC || id == Thumb32InstId::CDP || id == Thumb32InstId::LDC
            || id == Thumb32InstId::STC || id == Thumb32InstId::Unknown,
    ensures
        operands_ok(id, raw),
{
    reveal(operands_ok);
}

proof fn group_encoding_is_ok(raw: u32)
    ensures
        operands_ok(group_encoding(raw), raw),
{
    parallel_encoding_is_ok(raw);
    dp_register_encoding_is_ok(raw);
    misc_encoding_is_ok(raw);
    multiply_encoding_is_ok(raw);
    long_multiply_encoding_is_ok(raw);
    ls_multiple_encoding_is_ok(raw);
    ls_dual_excl_encoding_is_ok(raw);
    branch_encoding_is_ok(raw);
    ls_single_encoding_is_ok(raw);
    dp_mod_imm_encoding_is_ok(raw);
    dp_shifted_reg_encoding_is_ok(raw);
    dp_plain_imm_encoding_is_ok(raw);
    other_instruction_is_ok(Thumb32InstId::Unknown, raw);
}

proof fn thumb32_encoding_is_ok(raw: u32)
    ensures
        operands_ok(thumb32_encoding(raw), raw),
{
    let id = thumb32_encoding(raw);
    if id == group_encoding(raw) {
        group_encoding_is_ok(raw);
    } else {
        other_instruction_is_ok(id, raw);
    }
}

/// Decoding guarantees what translation asks of the operands: the encodings
/// in which it would fail belong to comparisons, moves and other
/// instructions.
pub proof fn decoded_thumb32_is_wf(raw: u32)
    ensures
        thumb32_wf(DecodedThumb32 { raw, id: thumb32_encoding(raw) }),
{
    thumb32_encoding_is_ok(raw);
    let id = thumb32_encoding(raw);
    assert(thumb32_wf(DecodedThumb32 { raw, id })) by {
        reveal(operands_ok);
    }
}

} // verus!
