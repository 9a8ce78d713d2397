//! Loads of bytes and preloads of 32-bit Thumb code.

use vstd::prelude::*;
use super::hint::hint_ir;
use super::helpers::{emit_offset, offset_ir};
use super::{
    unpredictable_instruction, unpredictable_ir, raise_exception, undefined_instruction,
    undefined_ir, TranslationOptions,
};
use crate::frontend::a32::decoder_thumb32::DecodedThumb32;
use crate::frontend::a32::types::{Exception, Reg};
use crate::ir::a32_emitter::{A32IREmitter, EmitterState};
use crate::ir::acc_type::AccType;
use crate::ir::opcode::Opcode;
use crate::ir::value::Value;

verus! {

broadcast use crate::bits::and_le_mask;

/// A preload of data, for writing or not: an exception if hints are hooked,
/// else nothing.
pub open spec fn pld_ir(s: EmitterState, write_intent: bool, options: TranslationOptions) -> (
    EmitterState,
    bool,
) {
    hint_ir(
        s,
        options,
        if write_intent {
            Exception::PreloadDataWithIntentToWrite
        } else {
            Exception::PreloadData
        },
    )
}

fn pld_handler(ir: &mut A32IREmitter, write_intent: bool, options: TranslationOptions) -> (r: bool)
    ensures
        (final(ir)@, r) == pld_ir(old(ir)@, write_intent, options),
{
    if !options.hook_hint_instructions {
        return true;
    }
    let exception = if write_intent {
        Exception::PreloadDataWithIntentToWrite
    } else {
        Exception::PreloadData
    };
    raise_exception(ir, exception)
}

fn pli_handler(ir: &mut A32IREmitter, options: TranslationOptions) -> (r: bool)
    ensures
        (final(ir)@, r) == hint_ir(old(ir)@, options, Exception::PreloadInstruction),
{
    if !options.hook_hint_instructions {
        return true;
    }
    raise_exception(ir, Exception::PreloadInstruction)
}

/// Whether a preload of data is for writing.
pub open spec fn write_intent(inst: DecodedThumb32) -> bool {
    (inst.raw >> 21) & 1 != 0
}

/// Translates a preload of literal data.
pub fn thumb32_pld_lit(
    ir: &mut A32IREmitter,
    _inst: &DecodedThumb32,
    options: TranslationOptions,
) -> (r: bool)
    ensures
        (final(ir)@, r) == pld_ir(old(ir)@, false, options),
{
    pld_handler(ir, false, options)
}

/// Translates a preload of data.
pub fn thumb32_pld_imm8(
    ir: &mut A32IREmitter,
    inst: &DecodedThumb32,
    options: TranslationOptions,
) -> (r: bool)
    ensures
        (final(ir)@, r) == pld_ir(old(ir)@, write_intent(*inst), options),
{
    pld_handler(ir, (inst.raw >> 21) & 1 != 0, options)
}

/// Translates a preload of data.
pub fn thumb32_pld_imm12(
    ir: &mut A32IREmitter,
    inst: &DecodedThumb32,
    options: TranslationOptions,
) -> (r: bool)
    ensures
        (final(ir)@, r) == pld_ir(old(ir)@, write_intent(*inst), options),
{
    pld_handler(ir, (inst.raw >> 21) & 1 != 0, options)
}

/// Translates a preload of data with a register offset.
pub fn thumb32_pld_reg(
    ir: &mut A32IREmitter,
    inst: &DecodedThumb32,
    options: TranslationOptions,
) -> (r: bool)
    ensures
        (final(ir)@, r) == if inst.rm() == Reg::R15 {
            unpredictable_ir(old(ir)@)
        } else {
            pld_ir(old(ir)@, write_intent(*inst), options)
        },
{
    if inst.rm() == Reg::R15 {
        return unpredictable_instruction(ir);
    }
    pld_handler(ir, (inst.raw >> 21) & 1 != 0, options)
}

/// Translates a preload of instructions.
pub fn thumb32_pli_lit(
    ir: &mut A32IREmitter,
    _inst: &DecodedThumb32,
    options: TranslationOptions,
) -> (r: bool)
    ensures
        (final(ir)@, r) == hint_ir(old(ir)@, options, Exception::PreloadInstruction),
{
    pli_handler(ir, options)
}

/// Translates a preload of instructions.
pub fn thumb32_pli_imm8(
    ir: &mut A32IREmitter,
    _inst: &DecodedThumb32,
    options: TranslationOptions,
) -> (r: bool)
    ensures
        (final(ir)@, r) == hint_ir(old(ir)@, options, Exception::PreloadInstruction),
{
    pli_handler(ir, options)
}

/// Translates a preload of instructions.
pub fn thumb32_pli_imm12(
    ir: &mut A32IREmitter,
    _inst: &DecodedThumb32,
    options: TranslationOptions,
) -> (r: bool)
    ensures
        (final(ir)@, r) == hint_ir(old(ir)@, options, Exception::PreloadInstruction),
{
    pli_handler(ir, options)
}

/// Translates a preload of instructions with a register offset.
pub fn thumb32_pli_reg(
    ir: &mut A32IREmitter,
    inst: &DecodedThumb32,
    options: TranslationOptions,
) -> (r: bool)
    ensures
        (final(ir)@, r) == if inst.rm() == Reg::R15 {
            unpredictable_ir(old(ir)@)
        } else {
            hint_ir(old(ir)@, options, Exception::PreloadInstruction)
        },
{
    if inst.rm() == Reg::R15 {
        return unpredictable_instruction(ir);
    }
    pli_handler(ir, options)
}

/// A byte of memory as a word, with or without its sign.
pub open spec fn load_byte_ir(
    s: EmitterState,
    address: Value,
    signed: bool,
) -> (EmitterState, Value) {
    let (s, data) = s.read_memory_8(address, AccType::Normal);
    if signed {
        s.op1(Opcode::SignExtendByteToWord, data)
    } else {
        s.op1(Opcode::ZeroExtendByteToWord, data)
    }
}

fn load_byte(ir: &mut A32IREmitter, address: Value, signed: bool) -> (r: Value)
    ensures
        (final(ir)@, r) == load_byte_ir(old(ir)@, address, signed),
{
    let data = ir.read_memory_8(address, AccType::Normal);
    if signed {
        ir.sign_extend_byte_to_word(data)
    } else {
        ir.zero_extend_byte_to_word(data)
    }
}

/// A load of a literal, at twelve bits from the aligned program counter.
pub open spec fn load_byte_literal_ir(s: EmitterState, inst: DecodedThumb32, signed: bool) -> (
    EmitterState,
    bool,
) {
    let base = s.pc() & 0xFFFF_FFFC;
    let imm = inst.raw & 0xFFF;
    let address = if (inst.raw >> 23) & 1 != 0 {
        base.wrapping_add(imm)
    } else {
        base.wrapping_sub(imm)
    };
    let (s, data) = load_byte_ir(s, Value::ImmU32(address), signed);
    (s.set_register(inst.rt(), data), true)
}

fn load_byte_literal(ir: &mut A32IREmitter, inst: &DecodedThumb32, signed: bool) -> (r: bool)
    ensures
        (final(ir)@, r) == load_byte_literal_ir(old(ir)@, *inst, signed),
{
    let imm32: u32 = inst.raw & 0xFFF;
    let base: u32 = ir.align_pc();
    let address: u32 = if (inst.raw >> 23) & 1 != 0 {
        base.wrapping_add(imm32)
    } else {
        base.wrapping_sub(imm32)
    };
    let data = load_byte(ir, Value::ImmU32(address), signed);
    ir.set_register(inst.rt(), data);
    true
}

/// A load with an offset register, shifted left by up to three places.
pub open spec fn load_byte_register_ir(s: EmitterState, inst: DecodedThumb32, signed: bool) -> (
    EmitterState,
    bool,
) {
    if inst.rm() == Reg::R15 {
        unpredictable_ir(s)
    } else {
        let (s, n) = s.get_register(inst.rn());
        let (s, m) = s.get_register(inst.rm());
        let (s, offset) = s.op3(
            Opcode::LogicalShiftLeft32,
            m,
            Value::ImmU8(((inst.raw >> 4) & 3) as u8),
            Value::ImmU1(false),
        );
        let (s, address) = s.op3(Opcode::Add32, n, offset, Value::ImmU1(false));
        let (s, data) = load_byte_ir(s, address, signed);
        (s.set_register(inst.rt(), data), true)
    }
}

fn load_byte_register(ir: &mut A32IREmitter, inst: &DecodedThumb32, signed: bool) -> (r: bool)
    ensures
        (final(ir)@, r) == load_byte_register_ir(old(ir)@, *inst, signed),
{
    if inst.rm() == Reg::R15 {
        return unpredictable_instruction(ir);
    }
    let reg_n = ir.get_register(inst.rn());
    let reg_m = ir.get_register(inst.rm());
    let imm2: u8 = ((inst.raw >> 4) & 3) as u8;
    let offset = ir.logical_shift_left_32(reg_m, Value::ImmU8(imm2), Value::ImmU1(false));
    let address = ir.add_32(reg_n, offset, Value::ImmU1(false));
    let data = load_byte(ir, address, signed);
    ir.set_register(inst.rt(), data);
    true
}

/// A load with an immediate offset.
pub open spec fn load_byte_immediate_ir(
    s: EmitterState,
    inst: DecodedThumb32,
    p: bool,
    u: bool,
    w: bool,
    imm: u32,
    signed: bool,
) -> (EmitterState, bool) {
    let (s, base) = s.get_register(inst.rn());
    let (s, moved) = offset_ir(s, u, base, Value::ImmU32(imm));
    let (s, data) = load_byte_ir(s, if p { moved } else { base }, signed);
    let s = s.set_register(inst.rt(), data);
    (if w { s.set_register(inst.rn(), moved) } else { s }, true)
}

fn load_byte_immediate(
    ir: &mut A32IREmitter,
    inst: &DecodedThumb32,
    p: bool,
    u: bool,
    w: bool,
    imm32: u32,
    signed: bool,
) -> (r: bool)
    ensures
        (final(ir)@, r) == load_byte_immediate_ir(old(ir)@, *inst, p, u, w, imm32, signed),
{
    let reg_n = ir.get_register(inst.rn());
    let offset_address = emit_offset(ir, u, reg_n, Value::ImmU32(imm32));
    let address = if p { offset_address } else { reg_n };
    let data = load_byte(ir, address, signed);
    ir.set_register(inst.rt(), data);
    if w {
        ir.set_register(inst.rn(), offset_address);
    }
    true
}

/// A load with an eight-bit offset. The base that is written back may not be
/// the destination, nor the destination the program counter; without index
/// and write-back the load is undefined.
pub open spec fn load_byte_imm8_ir(s: EmitterState, inst: DecodedThumb32, signed: bool) -> (
    EmitterState,
    bool,
) {
    if inst.w_flag() && (inst.rt() == Reg::R15 || inst.rn() == inst.rt()) {
        unpredictable_ir(s)
    } else if !inst.p_flag() && !inst.w_flag() {
        undefined_ir(s)
    } else {
        load_byte_immediate_ir(
            s,
            inst,
            inst.p_flag(),
            inst.u_flag(),
            inst.w_flag(),
            inst.imm8(),
            signed,
        )
    }
}

/// A load with user privileges. The destination may not be the program
/// counter.
pub open spec fn load_byte_unprivileged_ir(s: EmitterState, inst: DecodedThumb32, signed: bool) -> (
    EmitterState,
    bool,
) {
    if inst.rt() == Reg::R15 {
        unpredictable_ir(s)
    } else {
        load_byte_imm8_ir(s, inst, signed)
    }
}

/// Translates a load of a byte literal.
pub fn thumb32_ldrb_lit(ir: &mut A32IREmitter, inst: &DecodedThumb32) -> (r: bool)
    ensures
        (final(ir)@, r) == load_byte_literal_ir(old(ir)@, *inst, false),
{
    load_byte_literal(ir, inst, false)
}

/// Translates a load of a byte with a register offset.
pub fn thumb32_ldrb_reg(ir: &mut A32IREmitter, inst: &DecodedThumb32) -> (r: bool)
    ensures
        (final(ir)@, r) == load_byte_register_ir(old(ir)@, *inst, false),
{
    load_byte_register(ir, inst, false)
}

/// Translates a load of a byte with an eight-bit offset.
pub fn thumb32_ldrb_imm8(ir: &mut A32IREmitter, inst: &DecodedThumb32) -> (r: bool)
    ensures
        (final(ir)@, r) == load_byte_imm8_ir(old(ir)@, *inst, false),
{
    let p = inst.p_flag();
    let u = inst.u_flag();
    let w = inst.w_flag();
    if inst.rt() == Reg::R15 && w {
        return unpredictable_instruction(ir);
    }
    if w && inst.rn() == inst.rt() {
        return unpredictable_instruction(ir);
    }
    if !p && !w {
        return undefined_instruction(ir);
    }
    load_byte_immediate(ir, inst, p, u, w, inst.imm8(), false)
}

/// Translates a load of a byte with a twelve-bit offset.
pub fn thumb32_ldrb_imm12(ir: &mut A32IREmitter, inst: &DecodedThumb32) -> (r: bool)
    ensures
        (final(ir)@, r) == load_byte_immediate_ir(
            old(ir)@,
            *inst,
            true,
            true,
            false,
            inst.raw & 0xFFF,
            false,
        ),
{
    load_byte_immediate(ir, inst, true, true, false, inst.raw & 0xFFF, false)
}

/// Translates a load of a byte with user privileges.
pub fn thumb32_ldrbt(ir: &mut A32IREmitter, inst: &DecodedThumb32) -> (r: bool)
    ensures
        (final(ir)@, r) == load_byte_unprivileged_ir(old(ir)@, *inst, false),
{
    if inst.rt() == Reg::R15 {
        return unpredictable_instruction(ir);
    }
    thumb32_ldrb_imm8(ir, inst)
}

/// Translates a load of a signed byte literal.
pub fn thumb32_ldrsb_lit(ir: &mut A32IREmitter, inst: &DecodedThumb32) -> (r: bool)
    ensures
        (final(ir)@, r) == load_byte_literal_ir(old(ir)@, *inst, true),
{
    load_byte_literal(ir, inst, true)
}

/// Translates a load of a signed byte with a register offset.
pub fn thumb32_ldrsb_reg(ir: &mut A32IREmitter, inst: &DecodedThumb32) -> (r: bool)
    ensures
        (final(ir)@, r) == load_byte_register_ir(old(ir)@, *inst, true),
{
    load_byte_register(ir, inst, true)
}

/// Translates a load of a signed byte with an eight-bit offset.
pub fn thumb32_ldrsb_imm8(ir: &mut A32IREmitter, inst: &DecodedThumb32) -> (r: bool)
    ensures
        (final(ir)@, r) == load_byte_imm8_ir(old(ir)@, *inst, true),
{
    let p = inst.p_flag();
    let u = inst.u_flag();
    let w = inst.w_flag();
    if inst.rt() == Reg::R15 && w {
        return unpredictable_instruction(ir);
    }
    if w && inst.rn() == inst.rt() {
        return unpredictable_instruction(ir);
    }
    if !p && !w {
        return undefined_instruction(ir);
    }
    load_byte_immediate(ir, inst, p, u, w, inst.imm8(), true)
}

/// Translates a load of a signed byte with a twelve-bit offset.
pub fn thumb32_ldrsb_imm12(ir: &mut A32IREmitter, inst: &DecodedThumb32) -> (r: bool)
    ensures
        (final(ir)@, r) == load_byte_immediate_ir(
            old(ir)@,
            *inst,
            true,
            true,
            false,
            inst.raw & 0xFFF,
            true,
        ),
{
    load_byte_immediate(ir, inst, true, true, false, inst.raw & 0xFFF, true)
}

/// Translates a load of a signed byte with user privileges.
pub fn thumb32_ldrsbt(ir: &mut A32IREmitter, inst: &DecodedThumb32) -> (r: bool)
    ensures
        (final(ir)@, r) == load_byte_unprivileged_ir(old(ir)@, *inst, true),
{
    if inst.rt() == Reg::R15 {
        return unpredictable_instruction(ir);
    }
    thumb32_ldrsb_imm8(ir, inst)
}

} // verus!
