//! Loads of halfwords of 32-bit Thumb code.

use vstd::prelude::*;
use super::helpers::{emit_offset, offset_ir};
use super::{unpredictable_instruction, unpredictable_ir, undefined_instruction, undefined_ir};
use crate::frontend::a32::decoder_thumb32::DecodedThumb32;
use crate::frontend::a32::types::{Reg};
use crate::ir::a32_emitter::{A32IREmitter, EmitterState};
use crate::ir::acc_type::AccType;
use crate::ir::opcode::Opcode;
use crate::ir::value::Value;

verus! {

broadcast use crate::bits::and_le_mask;

/// A halfword of memory as a word, with or without its sign.
pub open spec fn load_half_ir(
    s: EmitterState,
    address: Value,
    signed: bool,
) -> (EmitterState, Value) {
    let (s, data) = s.read_memory_16(address, AccType::Normal);
    if signed {
        s.op1(Opcode::SignExtendHalfToWord, data)
    } else {
        s.op1(Opcode::ZeroExtendHalfToWord, data)
    }
}

fn load_half(ir: &mut A32IREmitter, address: Value, signed: bool) -> (r: Value)
    ensures
        (final(ir)@, r) == load_half_ir(old(ir)@, address, signed),
{
    let data = ir.read_memory_16(address, AccType::Normal);
    if signed {
        ir.sign_extend_half_to_word(data)
    } else {
        ir.zero_extend_half_to_word(data)
    }
}

/// A load of a literal, at twelve bits from the aligned program counter.
pub open spec fn load_half_literal_ir(s: EmitterState, inst: DecodedThumb32, signed: bool) -> (
    EmitterState,
    bool,
) {
    let base = s.pc() & 0xFFFF_FFFC;
    let imm = inst.raw & 0xFFF;
    let address = if (inst.raw >> 23) & 1 != 0 {
        base.wrapping_add(imm)
    } else {
        base.wrapping_sub(imm)
    };
    let (s, data) = load_half_ir(s, Value::ImmU32(address), signed);
    (s.set_register(inst.rt(), data), true)
}

fn load_half_literal(ir: &mut A32IREmitter, inst: &DecodedThumb32, signed: bool) -> (r: bool)
    ensures
        (final(ir)@, r) == load_half_literal_ir(old(ir)@, *inst, signed),
{
    let imm32: u32 = inst.raw & 0xFFF;
    let base: u32 = ir.align_pc();
    let address: u32 = if (inst.raw >> 23) & 1 != 0 {
        base.wrapping_add(imm32)
    } else {
        base.wrapping_sub(imm32)
    };
    let data = load_half(ir, Value::ImmU32(address), signed);
    ir.set_register(inst.rt(), data);
    true
}

/// A load with an offset register, shifted left by up to three places.
pub open spec fn load_half_register_ir(s: EmitterState, inst: DecodedThumb32, signed: bool) -> (
    EmitterState,
    bool,
) {
    if inst.rm() == Reg::R15 {
        unpredictable_ir(s)
    } else {
        let (s, m) = s.get_register(inst.rm());
        let (s, n) = s.get_register(inst.rn());
        let (s, offset) = s.op3(
            Opcode::LogicalShiftLeft32,
            m,
            Value::ImmU8(((inst.raw >> 4) & 3) as u8),
            Value::ImmU1(false),
        );
        let (s, address) = s.op3(Opcode::Add32, n, offset, Value::ImmU1(false));
        let (s, data) = load_half_ir(s, address, signed);
        (s.set_register(inst.rt(), data), true)
    }
}

fn load_half_register(ir: &mut A32IREmitter, inst: &DecodedThumb32, signed: bool) -> (r: bool)
    ensures
        (final(ir)@, r) == load_half_register_ir(old(ir)@, *inst, signed),
{
    if inst.rm() == Reg::R15 {
        return unpredictable_instruction(ir);
    }
    let reg_m = ir.get_register(inst.rm());
    let reg_n = ir.get_register(inst.rn());
    let imm2: u8 = ((inst.raw >> 4) & 3) as u8;
    let offset = ir.logical_shift_left_32(reg_m, Value::ImmU8(imm2), Value::ImmU1(false));
    let address = ir.add_32(reg_n, offset, Value::ImmU1(false));
    let data = load_half(ir, address, signed);
    ir.set_register(inst.rt(), data);
    true
}

/// A load with an immediate offset.
pub open spec fn load_half_immediate_ir(
    s: EmitterState,
    inst: DecodedThumb32,
    p: bool,
    u: bool,
    w: bool,
    imm: u32,
    signed: bool,
) -> (EmitterState, bool) {
    let (s, base) = s.get_register(inst.rn());
    let (s, moved) = offset_ir(s, u, base, Value::ImmU32(imm));
    let (s, data) = load_half_ir(s, if p { moved } else { base }, signed);
    let s = if w { s.set_register(inst.rn(), moved) } else { s };
    (s.set_register(inst.rt(), data), true)
}

fn load_half_immediate(
    ir: &mut A32IREmitter,
    inst: &DecodedThumb32,
    p: bool,
    u: bool,
    w: bool,
    imm32: u32,
    signed: bool,
) -> (r: bool)
    ensures
        (final(ir)@, r) == load_half_immediate_ir(old(ir)@, *inst, p, u, w, imm32, signed),
{
    let reg_n = ir.get_register(inst.rn());
    let offset_address = emit_offset(ir, u, reg_n, Value::ImmU32(imm32));
    let address = if p { offset_address } else { reg_n };
    let data = load_half(ir, address, signed);
    if w {
        ir.set_register(inst.rn(), offset_address);
    }
    ir.set_register(inst.rt(), data);
    true
}

/// A load with an eight-bit offset. The base that is written back may not be
/// the destination, nor the destination the program counter; without index
/// and write-back the load is undefined.
pub open spec fn load_half_imm8_ir(s: EmitterState, inst: DecodedThumb32, signed: bool) -> (
    EmitterState,
    bool,
) {
    if inst.w_flag() && (inst.rt() == Reg::R15 || inst.rn() == inst.rt()) {
        unpredictable_ir(s)
    } else if !inst.p_flag() && !inst.w_flag() {
        undefined_ir(s)
    } else {
        load_half_immediate_ir(
            s,
            inst,
            inst.p_flag(),
            inst.u_flag(),
            inst.w_flag(),
            inst.imm8(),
            signed,
        )
    }
}

/// A load with user privileges. The destination may not be the program
/// counter.
pub open spec fn load_half_unprivileged_ir(s: EmitterState, inst: DecodedThumb32, signed: bool) -> (
    EmitterState,
    bool,
) {
    if inst.rt() == Reg::R15 {
        unpredictable_ir(s)
    } else {
        load_half_imm8_ir(s, inst, signed)
    }
}

/// Translates a load of a halfword literal.
pub fn thumb32_ldrh_lit(ir: &mut A32IREmitter, inst: &DecodedThumb32) -> (r: bool)
    ensures
        (final(ir)@, r) == load_half_literal_ir(old(ir)@, *inst, false),
{
    load_half_literal(ir, inst, false)
}

/// Translates a load of a halfword with a register offset.
pub fn thumb32_ldrh_reg(ir: &mut A32IREmitter, inst: &DecodedThumb32) -> (r: bool)
    ensures
        (final(ir)@, r) == load_half_register_ir(old(ir)@, *inst, false),
{
    load_half_register(ir, inst, false)
}

/// Translates a load of a halfword with an eight-bit offset.
pub fn thumb32_ldrh_imm8(ir: &mut A32IREmitter, inst: &DecodedThumb32) -> (r: bool)
    ensures
        (final(ir)@, r) == load_half_imm8_ir(old(ir)@, *inst, false),
{
    let p = inst.p_flag();
    let u = inst.u_flag();
    let w = inst.w_flag();
    if !p && !w {
        return undefined_instruction(ir);
    }
    if inst.rt() == Reg::R15 && w {
        return unpredictable_instruction(ir);
    }
    if w && inst.rn() == inst.rt() {
        return unpredictable_instruction(ir);
    }
    load_half_immediate(ir, inst, p, u, w, inst.imm8(), false)
}

/// Translates a load of a halfword with a twelve-bit offset.
pub fn thumb32_ldrh_imm12(ir: &mut A32IREmitter, inst: &DecodedThumb32) -> (r: bool)
    ensures
        (final(ir)@, r) == load_half_immediate_ir(
            old(ir)@,
            *inst,
            true,
            true,
            false,
            inst.raw & 0xFFF,
            false,
        ),
{
    load_half_immediate(ir, inst, true, true, false, inst.raw & 0xFFF, false)
}

/// Translates a load of a halfword with user privileges.
pub fn thumb32_ldrht(ir: &mut A32IREmitter, inst: &DecodedThumb32) -> (r: bool)
    ensures
        (final(ir)@, r) == load_half_unprivileged_ir(old(ir)@, *inst, false),
{
    if inst.rt() == Reg::R15 {
        return unpredictable_instruction(ir);
    }
    thumb32_ldrh_imm8(ir, inst)
}

/// Translates a load of a signed halfword literal.
pub fn thumb32_ldrsh_lit(ir: &mut A32IREmitter, inst: &DecodedThumb32) -> (r: bool)
    ensures
        (final(ir)@, r) == load_half_literal_ir(old(ir)@, *inst, true),
{
    load_half_literal(ir, inst, true)
}

/// Translates a load of a signed halfword with a register offset.
pub fn thumb32_ldrsh_reg(ir: &mut A32IREmitter, inst: &DecodedThumb32) -> (r: bool)
    ensures
        (final(ir)@, r) == load_half_register_ir(old(ir)@, *inst, true),
{
    load_half_register(ir, inst, true)
}

/// Translates a load of a signed halfword with an eight-bit offset.
pub fn thumb32_ldrsh_imm8(ir: &mut A32IREmitter, inst: &DecodedThumb32) -> (r: bool)
    ensures
        (final(ir)@, r) == load_half_imm8_ir(old(ir)@, *inst, true),
{
    let p = inst.p_flag();
    let u = inst.u_flag();
    let w = inst.w_flag();
    if !p && !w {
        return undefined_instruction(ir);
    }
    if inst.rt() == Reg::R15 && w {
        return unpredictable_instruction(ir);
    }
    if w && inst.rn() == inst.rt() {
        return unpredictable_instruction(ir);
    }
    load_half_immediate(ir, inst, p, u, w, inst.imm8(), true)
}

/// Translates a load of a signed halfword with a twelve-bit offset.
pub fn thumb32_ldrsh_imm12(ir: &mut A32IREmitter, inst: &DecodedThumb32) -> (r: bool)
    ensures
        (final(ir)@, r) == load_half_immediate_ir(
            old(ir)@,
            *inst,
            true,
            true,
            false,
            inst.raw & 0xFFF,
            true,
        ),
{
    load_half_immediate(ir, inst, true, true, false, inst.raw & 0xFFF, true)
}

/// Translates a load of a signed halfword with user privileges.
pub fn thumb32_ldrsht(ir: &mut A32IREmitter, inst: &DecodedThumb32) -> (r: bool)
    ensures
        (final(ir)@, r) == load_half_unprivileged_ir(old(ir)@, *inst, true),
{
    if inst.rt() == Reg::R15 {
        return unpredictable_instruction(ir);
    }
    thumb32_ldrsh_imm8(ir, inst)
}

} // verus!
