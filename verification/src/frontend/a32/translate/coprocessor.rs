//! Coprocessor instructions of ARM code.
//!
//! Coprocessors 10 and 11 are the floating-point and vector units, which have
//! instructions of their own; general coprocessor instructions are undefined
//! for them.

use vstd::prelude::*;
use super::helpers::{emit_offset, offset_ir};
use super::{undefined_instruction, undefined_ir, unpredictable_instruction, unpredictable_ir};
use crate::frontend::a32::decoder::DecodedArm;
use crate::frontend::a32::types::Reg;
use crate::interface::a32::coprocessor_util::{CoprocInfo, CoprocReg};
use crate::ir::a32_emitter::{coproc_info, A32IREmitter, EmitterState};
use crate::ir::opcode::Opcode;
use crate::ir::value::Value;

verus! {

broadcast use crate::bits::and_le_mask;

/// Whether a coprocessor is the floating-point or the vector unit.
pub open spec fn is_vfp_unit(coproc_no: u32) -> bool {
    coproc_no == 10 || coproc_no == 11
}

/// The coprocessor register with the given number.
pub open spec fn coproc_reg(number: u32) -> CoprocReg {
    CoprocReg { number: number as u8 }
}

/// The operands that all coprocessor instructions have.
pub open spec fn info_of(inst: DecodedArm) -> CoprocInfo {
    coproc_info(inst.coproc_no() as usize, inst.coproc_two())
}

/// A move of a register to a coprocessor.
pub open spec fn arm_mcr_ir(s: EmitterState, inst: DecodedArm) -> (EmitterState, bool) {
    if is_vfp_unit(inst.coproc_no()) {
        undefined_ir(s)
    } else if inst.rt() == Reg::R15 {
        unpredictable_ir(s)
    } else {
        let (s, word) = s.get_register(inst.rt());
        let info = CoprocInfo {
            opc1: inst.coproc_opc1() as usize,
            crn: coproc_reg(inst.crn()),
            crm: coproc_reg(inst.crm()),
            opc2: inst.coproc_opc2() as usize,
            ..info_of(inst)
        };
        (s.op2(Opcode::A32CoprocSendOneWord, Value::ImmCoprocInfo(info), word).0, true)
    }
}

/// Translates a move of a register to a coprocessor.
pub fn arm_mcr(ir: &mut A32IREmitter, inst: &DecodedArm) -> (r: bool)
    ensures
        (final(ir)@, r) == arm_mcr_ir(old(ir)@, *inst),
{
    let coproc_no: u32 = inst.coproc_no();
    if coproc_no == 10 || coproc_no == 11 {
        return undefined_instruction(ir);
    }
    let rt = inst.rt();
    if rt == Reg::R15 {
        return unpredictable_instruction(ir);
    }
    let word = ir.get_register(rt);
    ir.coproc_send_one_word(
        coproc_no as usize,
        inst.coproc_two(),
        inst.coproc_opc1() as usize,
        CoprocReg::from_u8(inst.crn() as u8),
        CoprocReg::from_u8(inst.crm() as u8),
        inst.coproc_opc2() as usize,
        word,
    );
    true
}

/// A move of a coprocessor word to a register. With the program counter as
/// destination, the upper four bits of the word go to the flags.
pub open spec fn arm_mrc_ir(s: EmitterState, inst: DecodedArm) -> (EmitterState, bool) {
    if is_vfp_unit(inst.coproc_no()) {
        undefined_ir(s)
    } else {
        let info = CoprocInfo {
            opc1: inst.coproc_opc1() as usize,
            crn: coproc_reg(inst.crn()),
            crm: coproc_reg(inst.crm()),
            opc2: inst.coproc_opc2() as usize,
            ..info_of(inst)
        };
        let (s, word) = s.op1(Opcode::A32CoprocGetOneWord, Value::ImmCoprocInfo(info));
        (mrc_result_ir(s, inst.rt(), word), true)
    }
}

/// Writing a coprocessor word to a register or to the flags.
pub open spec fn mrc_result_ir(s: EmitterState, rt: Reg, word: Value) -> EmitterState {
    if rt == Reg::R15 {
        let (s, nzcv) = s.op2(Opcode::And32, word, Value::ImmU32(0xF000_0000));
        s.op1(Opcode::A32SetCpsrNZCVRaw, nzcv).0
    } else {
        s.set_register(rt, word)
    }
}

/// Translates a move of a coprocessor word to a register.
pub fn arm_mrc(ir: &mut A32IREmitter, inst: &DecodedArm) -> (r: bool)
    ensures
        (final(ir)@, r) == arm_mrc_ir(old(ir)@, *inst),
{
    let coproc_no: u32 = inst.coproc_no();
    if coproc_no == 10 || coproc_no == 11 {
        return undefined_instruction(ir);
    }
    let rt = inst.rt();
    let word = ir.coproc_get_one_word(
        coproc_no as usize,
        inst.coproc_two(),
        inst.coproc_opc1() as usize,
        CoprocReg::from_u8(inst.crn() as u8),
        CoprocReg::from_u8(inst.crm() as u8),
        inst.coproc_opc2() as usize,
    );
    if rt == Reg::R15 {
        let nzcv = ir.and_32(word, Value::ImmU32(0xF000_0000));
        ir.set_cpsr_nzcv_raw(nzcv);
    } else {
        ir.set_register(rt, word);
    }
    true
}

/// An operation of a coprocessor.
pub open spec fn arm_cdp_ir(s: EmitterState, inst: DecodedArm) -> (EmitterState, bool) {
    if is_vfp_unit(inst.coproc_no()) {
        undefined_ir(s)
    } else {
        let info = CoprocInfo {
            opc1: inst.coproc_dp_opc1() as usize,
            crd: coproc_reg((inst.raw >> 12) & 0xF),
            crn: coproc_reg(inst.crn()),
            crm: coproc_reg(inst.crm()),
            opc2: inst.coproc_opc2() as usize,
            ..info_of(inst)
        };
        (s.op1(Opcode::A32CoprocInternalOperation, Value::ImmCoprocInfo(info)).0, true)
    }
}

/// Translates an operation of a coprocessor.
pub fn arm_cdp(ir: &mut A32IREmitter, inst: &DecodedArm) -> (r: bool)
    ensures
        (final(ir)@, r) == arm_cdp_ir(old(ir)@, *inst),
{
    let coproc_no: u32 = inst.coproc_no();
    if coproc_no == 10 || coproc_no == 11 {
        return undefined_instruction(ir);
    }
    ir.coproc_internal_operation(
        coproc_no as usize,
        inst.coproc_two(),
        inst.coproc_dp_opc1() as usize,
        CoprocReg::from_u8(((inst.raw >> 12) & 0xF) as u8),
        CoprocReg::from_u8(inst.crn() as u8),
        CoprocReg::from_u8(inst.crm() as u8),
        inst.coproc_opc2() as usize,
    );
    true
}

/// A move of a coprocessor double word to two registers, the low word to
/// `Rt`. They must be distinct and not the program counter.
pub open spec fn arm_mrrc_ir(s: EmitterState, inst: DecodedArm) -> (EmitterState, bool) {
    let (rt, rt2) = (inst.rt(), inst.rt2());
    if is_vfp_unit(inst.coproc_no()) {
        undefined_ir(s)
    } else if rt == Reg::R15 || rt2 == Reg::R15 || rt == rt2 {
        unpredictable_ir(s)
    } else {
        let info = CoprocInfo {
            opc1: inst.mrrc_opc() as usize,
            crm: coproc_reg(inst.crm()),
            ..info_of(inst)
        };
        let (s, words) = s.op1(Opcode::A32CoprocGetTwoWords, Value::ImmCoprocInfo(info));
        let (s, lo) = s.op1(Opcode::LeastSignificantWord, words);
        let (s, hi) = s.most_significant_word(words);
        (s.set_register(rt, lo).set_register(rt2, hi.result), true)
    }
}

/// Translates a move of a coprocessor double word to two registers.
pub fn arm_mrrc(ir: &mut A32IREmitter, inst: &DecodedArm) -> (r: bool)
    ensures
        (final(ir)@, r) == arm_mrrc_ir(old(ir)@, *inst),
{
    let coproc_no: u32 = inst.coproc_no();
    if coproc_no == 10 || coproc_no == 11 {
        return undefined_instruction(ir);
    }
    let rt = inst.rt();
    let rt2 = inst.rt2();
    if rt == Reg::R15 || rt2 == Reg::R15 || rt == rt2 {
        return unpredictable_instruction(ir);
    }
    let val64 = ir.coproc_get_two_words(
        coproc_no as usize,
        inst.coproc_two(),
        inst.mrrc_opc() as usize,
        CoprocReg::from_u8(inst.crm() as u8),
    );
    let lo = ir.least_significant_word(val64);
    let hi = ir.most_significant_word(val64).result;
    ir.set_register(rt, lo);
    ir.set_register(rt2, hi);
    true
}

/// A move of two registers to a coprocessor. Neither may be the program
/// counter.
pub open spec fn arm_mcrr_ir(s: EmitterState, inst: DecodedArm) -> (EmitterState, bool) {
    let (rt, rt2) = (inst.rt(), inst.rt2());
    if is_vfp_unit(inst.coproc_no()) {
        undefined_ir(s)
    } else if rt == Reg::R15 || rt2 == Reg::R15 {
        unpredictable_ir(s)
    } else {
        let info = CoprocInfo {
            opc1: inst.mrrc_opc() as usize,
            crm: coproc_reg(inst.crm()),
            ..info_of(inst)
        };
        let (s, word1) = s.get_register(rt);
        let (s, word2) = s.get_register(rt2);
        (s.op3(Opcode::A32CoprocSendTwoWords, Value::ImmCoprocInfo(info), word1, word2).0, true)
    }
}

/// Translates a move of two registers to a coprocessor.
pub fn arm_mcrr(ir: &mut A32IREmitter, inst: &DecodedArm) -> (r: bool)
    ensures
        (final(ir)@, r) == arm_mcrr_ir(old(ir)@, *inst),
{
    let coproc_no: u32 = inst.coproc_no();
    if coproc_no == 10 || coproc_no == 11 {
        return undefined_instruction(ir);
    }
    let rt = inst.rt();
    let rt2 = inst.rt2();
    if rt == Reg::R15 || rt2 == Reg::R15 {
        return unpredictable_instruction(ir);
    }
    let word1 = ir.get_register(rt);
    let word2 = ir.get_register(rt2);
    ir.coproc_send_two_words(
        coproc_no as usize,
        inst.coproc_two(),
        inst.mrrc_opc() as usize,
        CoprocReg::from_u8(inst.crm() as u8),
        word1,
        word2,
    );
    true
}

/// A transfer of words between memory and a coprocessor, by the operation
/// `transfer`: the address is formed from `Rn` and a number of words, and `Rn`
/// is written back if `W` is set. The number is an option of the coprocessor
/// in the unindexed form.
pub open spec fn words_transfer_ir(s: EmitterState, inst: DecodedArm, transfer: Opcode) -> (
    EmitterState,
    bool,
) {
    let (p, u, w) = (inst.p_flag(), inst.u_flag(), inst.w_flag());
    let (s, base) = s.get_register(inst.rn());
    let (s, moved) = offset_ir(s, u, base, Value::ImmU32(inst.imm8() << 2));
    let info = CoprocInfo {
        long_transfer: inst.raw & 0x40_0000 != 0,
        crd: coproc_reg((inst.raw >> 12) & 0xF),
        option: if !p && !w && u {
            Some(inst.imm8() as u8)
        } else {
            None
        },
        ..info_of(inst)
    };
    let address = if p { moved } else { base };
    let s = s.op2(transfer, Value::ImmCoprocInfo(info), address).0;
    (if w { s.set_register(inst.rn(), moved) } else { s }, true)
}

/// Whether none of the address bits `P`, `U`, `D` and `W` is set; such
/// transfers are undefined.
pub open spec fn no_address_bits(inst: DecodedArm) -> bool {
    !inst.p_flag() && !inst.u_flag() && inst.raw & 0x40_0000 == 0 && !inst.w_flag()
}

/// A load of words from memory into a coprocessor.
pub open spec fn arm_ldc_ir(s: EmitterState, inst: DecodedArm) -> (EmitterState, bool) {
    if no_address_bits(inst) || is_vfp_unit(inst.coproc_no()) {
        undefined_ir(s)
    } else {
        words_transfer_ir(s, inst, Opcode::A32CoprocLoadWords)
    }
}

/// Translates a load of words from memory into a coprocessor.
pub fn arm_ldc(ir: &mut A32IREmitter, inst: &DecodedArm) -> (r: bool)
    ensures
        (final(ir)@, r) == arm_ldc_ir(old(ir)@, *inst),
{
    let p = inst.p_flag();
    let u = inst.u_flag();
    let d = inst.raw & 0x40_0000 != 0;
    let w = inst.w_flag();
    let coproc_no: u32 = inst.coproc_no();
    if !p && !u && !d && !w {
        return undefined_instruction(ir);
    }
    if coproc_no == 10 || coproc_no == 11 {
        return undefined_instruction(ir);
    }
    let n = inst.rn();
    let imm8: u32 = inst.imm8();
    let imm32: u32 = imm8 << 2;
    let reg_n = ir.get_register(n);
    let offset_address = emit_offset(ir, u, reg_n, Value::ImmU32(imm32));
    let address = if p { offset_address } else { reg_n };
    let option: Option<u8> = if !p && !w && u { Some(imm8 as u8) } else { None };
    ir.coproc_load_words(
        coproc_no as usize,
        inst.coproc_two(),
        d,
        CoprocReg::from_u8(((inst.raw >> 12) & 0xF) as u8),
        option,
        address,
    );
    if w {
        ir.set_register(n, offset_address);
    }
    true
}

/// A store of words of a coprocessor into memory. The program counter may not
/// be written back.
pub open spec fn arm_stc_ir(s: EmitterState, inst: DecodedArm) -> (EmitterState, bool) {
    if no_address_bits(inst) || is_vfp_unit(inst.coproc_no()) {
        undefined_ir(s)
    } else if inst.rn() == Reg::R15 && inst.w_flag() {
        unpredictable_ir(s)
    } else {
        words_transfer_ir(s, inst, Opcode::A32CoprocStoreWords)
    }
}

/// Translates a store of words of a coprocessor into memory.
pub fn arm_stc(ir: &mut A32IREmitter, inst: &DecodedArm) -> (r: bool)
    ensures
        (final(ir)@, r) == arm_stc_ir(old(ir)@, *inst),
{
    let p = inst.p_flag();
    let u = inst.u_flag();
    let d = inst.raw & 0x40_0000 != 0;
    let w = inst.w_flag();
    let coproc_no: u32 = inst.coproc_no();
    if coproc_no == 10 || coproc_no == 11 {
        return undefined_instruction(ir);
    }
    if !p && !u && !d && !w {
        return undefined_instruction(ir);
    }
    let n = inst.rn();
    if n == Reg::R15 && w {
        return unpredictable_instruction(ir);
    }
    let imm8: u32 = inst.imm8();
    let imm32: u32 = imm8 << 2;
    let reg_n = ir.get_register(n);
    let offset_address = emit_offset(ir, u, reg_n, Value::ImmU32(imm32));
    let address = if p { offset_address } else { reg_n };
    let option: Option<u8> = if !p && !w && u { Some(imm8 as u8) } else { None };
    ir.coproc_store_words(
        coproc_no as usize,
        inst.coproc_two(),
        d,
        CoprocReg::from_u8(((inst.raw >> 12) & 0xF) as u8),
        option,
        address,
    );
    if w {
        ir.set_register(n, offset_address);
    }
    true
}

} // verus!
