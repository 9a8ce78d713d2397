//! Coprocessor instructions of 32-bit Thumb code.

use vstd::prelude::*;
use super::coprocessor::{coproc_reg, mrc_result_ir};
use super::helpers::{emit_offset, offset_ir};
use crate::frontend::a32::decoder_thumb32::DecodedThumb32;
use crate::frontend::a32::types::Reg;
use crate::interface::a32::coprocessor_util::{CoprocInfo, CoprocReg};
use crate::ir::a32_emitter::{coproc_info, A32IREmitter, EmitterState};
use crate::ir::opcode::Opcode;
use crate::ir::value::Value;

verus! {

broadcast use crate::bits::and_le_mask;

/// The operands that all coprocessor instructions have.
pub open spec fn info_of(inst: DecodedThumb32) -> CoprocInfo {
    coproc_info(inst.coproc_no() as usize, inst.coproc_two())
}

/// The operands of a transfer of one word.
pub open spec fn word_info(inst: DecodedThumb32) -> CoprocInfo {
    CoprocInfo {
        opc1: inst.coproc_opc1() as usize,
        crn: coproc_reg(inst.coproc_crn()),
        crm: coproc_reg(inst.coproc_crm()),
        opc2: inst.coproc_opc2() as usize,
        ..info_of(inst)
    }
}

/// The operands of a transfer of two words.
pub open spec fn two_words_info(inst: DecodedThumb32) -> CoprocInfo {
    CoprocInfo {
        opc1: inst.coproc_transfer_opc() as usize,
        crm: coproc_reg(inst.coproc_crm()),
        ..info_of(inst)
    }
}

/// A move of two registers to a coprocessor.
pub open spec fn thumb32_mcrr_ir(s: EmitterState, inst: DecodedThumb32) -> (EmitterState, bool) {
    let (s, word1) = s.get_register(inst.rt());
    let (s, word2) = s.get_register(inst.rn());
    let info = Value::ImmCoprocInfo(two_words_info(inst));
    (s.op3(Opcode::A32CoprocSendTwoWords, info, word1, word2).0, true)
}

/// Translates a move of two registers to a coprocessor.
pub fn thumb32_mcrr(ir: &mut A32IREmitter, inst: &DecodedThumb32) -> (r: bool)
    ensures
        (final(ir)@, r) == thumb32_mcrr_ir(old(ir)@, *inst),
{
    let word1 = ir.get_register(inst.rt());
    let word2 = ir.get_register(inst.rn());
    ir.coproc_send_two_words(
        inst.coproc_no() as usize,
        inst.coproc_two(),
        inst.coproc_transfer_opc() as usize,
        CoprocReg::from_u8(inst.coproc_crm() as u8),
        word1,
        word2,
    );
    true
}

/// A move of a coprocessor double word to two registers.
pub open spec fn thumb32_mrrc_ir(s: EmitterState, inst: DecodedThumb32) -> (EmitterState, bool) {
    let info = Value::ImmCoprocInfo(two_words_info(inst));
    let (s, words) = s.op1(Opcode::A32CoprocGetTwoWords, info);
    let (s, lo) = s.op1(Opcode::LeastSignificantWord, words);
    let (s, hi) = s.most_significant_word(words);
    (s.set_register(inst.rt(), lo).set_register(inst.rn(), hi.result), true)
}

/// Translates a move of a coprocessor double word to two registers.
pub fn thumb32_mrrc(ir: &mut A32IREmitter, inst: &DecodedThumb32) -> (r: bool)
    ensures
        (final(ir)@, r) == thumb32_mrrc_ir(old(ir)@, *inst),
{
    let two_words = ir.coproc_get_two_words(
        inst.coproc_no() as usize,
        inst.coproc_two(),
        inst.coproc_transfer_opc() as usize,
        CoprocReg::from_u8(inst.coproc_crm() as u8),
    );
    let low = ir.least_significant_word(two_words);
    let high = ir.most_significant_word(two_words).result;
    ir.set_register(inst.rt(), low);
    ir.set_register(inst.rn(), high);
    true
}

/// A transfer of words between memory and a coprocessor, by the operation
/// `transfer`.
pub open spec fn words_transfer_ir(s: EmitterState, inst: DecodedThumb32, transfer: Opcode) -> (
    EmitterState,
    bool,
) {
    let p = inst.raw & 0x100_0000 != 0;
    let u = inst.raw & 0x80_0000 != 0;
    let w = inst.raw & 0x20_0000 != 0;
    let (s, base) = s.get_register(inst.rn());
    let (s, moved) = offset_ir(s, u, base, Value::ImmU32(inst.imm8() << 2));
    let info = CoprocInfo {
        long_transfer: inst.raw & 0x40_0000 != 0,
        crd: coproc_reg(inst.coproc_crd()),
        option: if !p && !w && u {
            Some(inst.imm8() as u8)
        } else {
            None
        },
        ..info_of(inst)
    };
    let address = if p { moved } else { base };
    let s = s.op2(transfer, Value::ImmCoprocInfo(info), address).0;
    (if w { s.set_register(inst.rn(), moved) } else { s }, true)
}

/// Translates a store of words of a coprocessor.
pub fn thumb32_stc(ir: &mut A32IREmitter, inst: &DecodedThumb32) -> (r: bool)
    ensures
        (final(ir)@, r) == words_transfer_ir(old(ir)@, *inst, Opcode::A32CoprocStoreWords),
{
    let p: bool = inst.raw & 0x100_0000 != 0;
    let u: bool = inst.raw & 0x80_0000 != 0;
    let d: bool = inst.raw & 0x40_0000 != 0;
    let w: bool = inst.raw & 0x20_0000 != 0;
    let n = inst.rn();
    let imm8: u32 = inst.imm8();
    let imm32: u32 = imm8 << 2;
    let reg_n = ir.get_register(n);
    let offset_address = emit_offset(ir, u, reg_n, Value::ImmU32(imm32));
    let address = if p { offset_address } else { reg_n };
    let option: Option<u8> = if !p && !w && u { Some(imm8 as u8) } else { None };
    ir.coproc_store_words(
        inst.coproc_no() as usize,
        inst.coproc_two(),
        d,
        CoprocReg::from_u8(inst.coproc_crd() as u8),
        option,
        address,
    );
    if w {
        ir.set_register(n, offset_address);
    }
    true
}

/// Translates a load of words into a coprocessor.
pub fn thumb32_ldc(ir: &mut A32IREmitter, inst: &DecodedThumb32) -> (r: bool)
    ensures
        (final(ir)@, r) == words_transfer_ir(old(ir)@, *inst, Opcode::A32CoprocLoadWords),
{
    let p: bool = inst.raw & 0x100_0000 != 0;
    let u: bool = inst.raw & 0x80_0000 != 0;
    let d: bool = inst.raw & 0x40_0000 != 0;
    let w: bool = inst.raw & 0x20_0000 != 0;
    let n = inst.rn();
    let imm8: u32 = inst.imm8();
    let imm32: u32 = imm8 << 2;
    let reg_n = ir.get_register(n);
    let offset_address = emit_offset(ir, u, reg_n, Value::ImmU32(imm32));
    let address = if p { offset_address } else { reg_n };
    let option: Option<u8> = if !p && !w && u { Some(imm8 as u8) } else { None };
    ir.coproc_load_words(
        inst.coproc_no() as usize,
        inst.coproc_two(),
        d,
        CoprocReg::from_u8(inst.coproc_crd() as u8),
        option,
        address,
    );
    if w {
        ir.set_register(n, offset_address);
    }
    true
}

/// An operation of a coprocessor.
pub open spec fn thumb32_cdp_ir(s: EmitterState, inst: DecodedThumb32) -> (EmitterState, bool) {
    let info = CoprocInfo {
        opc1: inst.coproc_dp_opc1() as usize,
        crd: coproc_reg(inst.coproc_crd()),
        ..word_info(inst)
    };
    (s.op1(Opcode::A32CoprocInternalOperation, Value::ImmCoprocInfo(info)).0, true)
}

/// Translates an operation of a coprocessor.
pub fn thumb32_cdp(ir: &mut A32IREmitter, inst: &DecodedThumb32) -> (r: bool)
    ensures
        (final(ir)@, r) == thumb32_cdp_ir(old(ir)@, *inst),
{
    ir.coproc_internal_operation(
        inst.coproc_no() as usize,
        inst.coproc_two(),
        inst.coproc_dp_opc1() as usize,
        CoprocReg::from_u8(inst.coproc_crd() as u8),
        CoprocReg::from_u8(inst.coproc_crn() as u8),
        CoprocReg::from_u8(inst.coproc_crm() as u8),
        inst.coproc_opc2() as usize,
    );
    true
}

/// A move of a register to a coprocessor.
pub open spec fn thumb32_mcr_ir(s: EmitterState, inst: DecodedThumb32) -> (EmitterState, bool) {
    let (s, word) = s.get_register(inst.rt());
    (s.op2(Opcode::A32CoprocSendOneWord, Value::ImmCoprocInfo(word_info(inst)), word).0, true)
}

/// Translates a move of a register to a coprocessor.
pub fn thumb32_mcr(ir: &mut A32IREmitter, inst: &DecodedThumb32) -> (r: bool)
    ensures
        (final(ir)@, r) == thumb32_mcr_ir(old(ir)@, *inst),
{
    let word = ir.get_register(inst.rt());
    ir.coproc_send_one_word(
        inst.coproc_no() as usize,
        inst.coproc_two(),
        inst.coproc_opc1() as usize,
        CoprocReg::from_u8(inst.coproc_crn() as u8),
        CoprocReg::from_u8(inst.coproc_crm() as u8),
        inst.coproc_opc2() as usize,
        word,
    );
    true
}

/// A move of a coprocessor word to a register, or of its upper four bits to
/// the flags if the register is the program counter.
pub open spec fn thumb32_mrc_ir(s: EmitterState, inst: DecodedThumb32) -> (EmitterState, bool) {
    let (s, word) = s.op1(Opcode::A32CoprocGetOneWord, Value::ImmCoprocInfo(word_info(inst)));
    (mrc_result_ir(s, inst.rt(), word), true)
}

/// Translates a move of a coprocessor word to a register.
pub fn thumb32_mrc(ir: &mut A32IREmitter, inst: &DecodedThumb32) -> (r: bool)
    ensures
        (final(ir)@, r) == thumb32_mrc_ir(old(ir)@, *inst),
{
    let t = inst.rt();
    let word = ir.coproc_get_one_word(
        inst.coproc_no() as usize,
        inst.coproc_two(),
        inst.coproc_opc1() as usize,
        CoprocReg::from_u8(inst.coproc_crn() as u8),
        CoprocReg::from_u8(inst.coproc_crm() as u8),
        inst.coproc_opc2() as usize,
    );
    if t != Reg::R15 {
        ir.set_register(t, word);
    } else {
        let new_cpsr_nzcv = ir.and_32(word, Value::ImmU32(0xF000_0000));
        ir.set_cpsr_nzcv_raw(new_cpsr_nzcv);
    }
    true
}

} // verus!
