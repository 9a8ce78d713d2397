//! Loads and stores of ARM code.

use vstd::prelude::*;
use super::helpers::{
    address_ir, emit_imm_shift, get_address, imm_shift_ir, narrow_ir, read_ir, widen_ir, write_ir,
    Width,
};
use super::{unpredictable_instruction, unpredictable_ir};
use crate::frontend::a32::decoder::DecodedArm;
use crate::frontend::a32::types::{reg, Reg};
use crate::ir::a32_emitter::{A32IREmitter, EmitterState};
use crate::ir::acc_type::AccType;
use crate::ir::opcode::Opcode;
use crate::ir::terminal::Terminal;
use crate::ir::value::Value;

verus! {

broadcast use crate::bits::and_le_mask;

/// Whether a load is of the form with user privileges, post-indexed with the
/// write-back bit set, which is not translated.
pub open spec fn is_t_form(inst: DecodedArm) -> bool {
    !inst.p_flag() && inst.w_flag()
}

/// Whether a load or store writes its base register.
pub open spec fn writes_back(inst: DecodedArm) -> bool {
    !inst.p_flag() || inst.w_flag()
}

/// The eight-bit offset of halfword and double-word accesses: bits 11 to 8
/// above bits 3 to 0.
pub open spec fn split_imm8(inst: DecodedArm) -> u32 {
    (((inst.raw >> 8) & 0xF) * 16 + (inst.raw & 0xF)) as u32
}

fn get_split_imm8(inst: &DecodedArm) -> (r: u32)
    ensures
        r == split_imm8(*inst),
{
    ((inst.raw >> 8) & 0xF) * 16 + (inst.raw & 0xF)
}

/// The address of a literal: the aligned program counter plus or minus an
/// offset.
pub open spec fn literal_address(s: EmitterState, u: bool, imm: u32) -> u32 {
    let base = s.pc() & 0xFFFF_FFFC;
    if u {
        base.wrapping_add(imm)
    } else {
        base.wrapping_sub(imm)
    }
}

fn get_literal_address(ir: &A32IREmitter, u: bool, imm: u32) -> (r: u32)
    ensures
        r == literal_address(ir@, u, imm),
{
    let base: u32 = ir.align_pc();
    if u {
        base.wrapping_add(imm)
    } else {
        base.wrapping_sub(imm)
    }
}

/// Loading a register from an address. A word loaded to the program counter
/// is a branch.
pub open spec fn load_ir(
    s: EmitterState,
    rt: Reg,
    address: Value,
    width: Width,
    signed: bool,
) -> (EmitterState, bool) {
    let (s, value) = read_ir(s, width, address, AccType::Normal);
    let (s, word) = widen_ir(s, width, signed, value);
    if rt == Reg::R15 {
        (s.op1(Opcode::A32BXWritePC, word).0.end(Terminal::FastDispatchHint), false)
    } else {
        (s.set_register(rt, word), true)
    }
}

/// Storing a register to an address.
pub open spec fn store_ir(s: EmitterState, rt: Reg, address: Value, width: Width) -> (
    EmitterState,
    bool,
) {
    let (s, value) = s.get_register(rt);
    let (s, part) = narrow_ir(s, width, value);
    (write_ir(s, width, address, part, AccType::Normal), true)
}

/// A load of a literal. Only words may go to the program counter.
pub open spec fn load_literal_ir(
    s: EmitterState,
    inst: DecodedArm,
    imm: u32,
    width: Width,
    signed: bool,
) -> (EmitterState, bool) {
    if inst.rt() == Reg::R15 && width != Width::Word {
        unpredictable_ir(s)
    } else {
        let address = Value::ImmU32(literal_address(s, inst.u_flag(), imm));
        load_ir(s, inst.rt(), address, width, signed)
    }
}

/// The address of an access from the index bits, the base register and the
/// offset.
pub open spec fn indexed_ir(s: EmitterState, inst: DecodedArm, offset: Value) -> (
    EmitterState,
    Value,
) {
    address_ir(s, inst.p_flag(), inst.u_flag(), inst.w_flag(), inst.rn(), offset)
}

/// A load with an immediate offset. The base may not be the program counter,
/// nor the destination if it is written back; only words may go to the
/// program counter.
pub open spec fn load_imm_ir(
    s: EmitterState,
    inst: DecodedArm,
    imm: u32,
    width: Width,
    signed: bool,
) -> (EmitterState, bool) {
    if inst.rn() == Reg::R15 || (writes_back(inst) && inst.rn() == inst.rt()) || (inst.rt()
        == Reg::R15 && width != Width::Word) {
        unpredictable_ir(s)
    } else {
        let (s, address) = indexed_ir(s, inst, Value::ImmU32(imm));
        load_ir(s, inst.rt(), address, width, signed)
    }
}

/// The registers with which a load with a register offset is unpredictable.
pub open spec fn load_reg_forbidden(inst: DecodedArm, width: Width) -> bool {
    inst.rm() == Reg::R15 || (inst.rt() == Reg::R15 && width != Width::Word) || (writes_back(inst)
        && (inst.rn() == Reg::R15 || inst.rn() == inst.rt()))
}

/// A load with a register offset.
pub open spec fn load_reg_ir(s: EmitterState, inst: DecodedArm, width: Width, signed: bool) -> (
    EmitterState,
    bool,
) {
    if load_reg_forbidden(inst, width) {
        unpredictable_ir(s)
    } else {
        let (s, offset) = s.get_register(inst.rm());
        let (s, address) = indexed_ir(s, inst, offset);
        load_ir(s, inst.rt(), address, width, signed)
    }
}

/// A shifted register offset.
pub open spec fn shifted_offset_ir(s: EmitterState, inst: DecodedArm) -> (EmitterState, Value) {
    let (s, c) = s.op0(Opcode::A32GetCFlag);
    let (s, m) = s.get_register(inst.rm());
    let (s, (offset, carry)) = imm_shift_ir(s, m, inst.shift_type(), inst.imm5(), c);
    (s, offset)
}

/// A load with a shifted register offset.
pub open spec fn load_shifted_ir(s: EmitterState, inst: DecodedArm, width: Width) -> (
    EmitterState,
    bool,
) {
    if load_reg_forbidden(inst, width) {
        unpredictable_ir(s)
    } else {
        let (s, offset) = shifted_offset_ir(s, inst);
        let (s, address) = indexed_ir(s, inst, offset);
        load_ir(s, inst.rt(), address, width, false)
    }
}

/// A store with an immediate offset.
pub open spec fn store_imm_ir(s: EmitterState, inst: DecodedArm, imm: u32, width: Width) -> (
    EmitterState,
    bool,
) {
    let (s, address) = indexed_ir(s, inst, Value::ImmU32(imm));
    store_ir(s, inst.rt(), address, width)
}

/// A store with a register offset.
pub open spec fn store_reg_ir(s: EmitterState, inst: DecodedArm, width: Width) -> (
    EmitterState,
    bool,
) {
    let (s, offset) = s.get_register(inst.rm());
    let (s, address) = indexed_ir(s, inst, offset);
    store_ir(s, inst.rt(), address, width)
}

/// A store with a shifted register offset.
pub open spec fn store_shifted_ir(s: EmitterState, inst: DecodedArm, width: Width) -> (
    EmitterState,
    bool,
) {
    let (s, offset) = shifted_offset_ir(s, inst);
    let (s, address) = indexed_ir(s, inst, offset);
    store_ir(s, inst.rt(), address, width)
}

fn emit_shifted_offset(ir: &mut A32IREmitter, inst: &DecodedArm) -> (r: Value)
    ensures
        (final(ir)@, r) == shifted_offset_ir(old(ir)@, *inst),
{
    let carry_in = ir.get_c_flag();
    let rm_val = ir.get_register(inst.rm());
    let (offset, _carry) = emit_imm_shift(ir, rm_val, inst.shift_type(), inst.imm5(), carry_in);
    offset
}

/// Translates a load of a literal word.
pub fn arm_ldr_lit(ir: &mut A32IREmitter, inst: &DecodedArm) -> (r: bool)
    ensures
        (final(ir)@, r) == load_literal_ir(old(ir)@, *inst, inst.imm12(), Width::Word, false),
{
    let rt = inst.rt();
    let address = Value::ImmU32(get_literal_address(ir, inst.u_flag(), inst.imm12()));
    let value = ir.read_memory_32(address, AccType::Normal);
    if rt == Reg::R15 {
        ir.load_write_pc(value);
        ir.set_term(Terminal::FastDispatchHint);
        return false;
    }
    ir.set_register(rt, value);
    true
}

/// Translates a load of a word with an immediate offset.
pub fn arm_ldr_imm(ir: &mut A32IREmitter, inst: &DecodedArm) -> (r: bool)
    requires
        inst.rn() == Reg::R15 || !is_t_form(*inst),
    ensures
        (final(ir)@, r) == load_imm_ir(old(ir)@, *inst, inst.imm12(), Width::Word, false),
{
    let rt = inst.rt();
    let rn = inst.rn();
    let p = inst.p_flag();
    let u = inst.u_flag();
    let w = inst.w_flag();
    if rn == Reg::R15 {
        return unpredictable_instruction(ir);
    }
    if (!p || w) && rn == rt {
        return unpredictable_instruction(ir);
    }
    let offset = Value::ImmU32(inst.imm12());
    let address = get_address(ir, p, u, w, rn, offset);
    let value = ir.read_memory_32(address, AccType::Normal);
    if rt == Reg::R15 {
        ir.load_write_pc(value);
        ir.set_term(Terminal::FastDispatchHint);
        return false;
    }
    ir.set_register(rt, value);
    true
}

/// Translates a load of a word with a register offset.
pub fn arm_ldr_reg(ir: &mut A32IREmitter, inst: &DecodedArm) -> (r: bool)
    requires
        !is_t_form(*inst),
    ensures
        (final(ir)@, r) == load_shifted_ir(old(ir)@, *inst, Width::Word),
{
    let rt = inst.rt();
    let rn = inst.rn();
    let rm = inst.rm();
    let p = inst.p_flag();
    let u = inst.u_flag();
    let w = inst.w_flag();
    if rm == Reg::R15 {
        return unpredictable_instruction(ir);
    }
    if (!p || w) && (rn == Reg::R15 || rn == rt) {
        return unpredictable_instruction(ir);
    }
    let offset = emit_shifted_offset(ir, inst);
    let address = get_address(ir, p, u, w, rn, offset);
    let value = ir.read_memory_32(address, AccType::Normal);
    if rt == Reg::R15 {
        ir.load_write_pc(value);
        ir.set_term(Terminal::FastDispatchHint);
        return false;
    }
    ir.set_register(rt, value);
    true
}

/// Translates a load of a literal byte.
pub fn arm_ldrb_lit(ir: &mut A32IREmitter, inst: &DecodedArm) -> (r: bool)
    ensures
        (final(ir)@, r) == load_literal_ir(old(ir)@, *inst, inst.imm12(), Width::Byte, false),
{
    let rt = inst.rt();
    if rt == Reg::R15 {
        return unpredictable_instruction(ir);
    }
    let address = Value::ImmU32(get_literal_address(ir, inst.u_flag(), inst.imm12()));
    let value = ir.read_memory_8(address, AccType::Normal);
    let extended = ir.zero_extend_byte_to_word(value);
    ir.set_register(rt, extended);
    true
}

/// Translates a load of a byte with an immediate offset.
pub fn arm_ldrb_imm(ir: &mut A32IREmitter, inst: &DecodedArm) -> (r: bool)
    requires
        inst.rn() == Reg::R15 || !is_t_form(*inst),
    ensures
        (final(ir)@, r) == load_imm_ir(old(ir)@, *inst, inst.imm12(), Width::Byte, false),
{
    let rt = inst.rt();
    let rn = inst.rn();
    let p = inst.p_flag();
    let u = inst.u_flag();
    let w = inst.w_flag();
    if rn == Reg::R15 {
        return unpredictable_instruction(ir);
    }
    if (!p || w) && rn == rt {
        return unpredictable_instruction(ir);
    }
    if rt == Reg::R15 {
        return unpredictable_instruction(ir);
    }
    let offset = Value::ImmU32(inst.imm12());
    let address = get_address(ir, p, u, w, rn, offset);
    let value = ir.read_memory_8(address, AccType::Normal);
    let extended = ir.zero_extend_byte_to_word(value);
    ir.set_register(rt, extended);
    true
}

/// Translates a load of a byte with a register offset.
pub fn arm_ldrb_reg(ir: &mut A32IREmitter, inst: &DecodedArm) -> (r: bool)
    requires
        !is_t_form(*inst),
    ensures
        (final(ir)@, r) == load_shifted_ir(old(ir)@, *inst, Width::Byte),
{
    let rt = inst.rt();
    let rn = inst.rn();
    let rm = inst.rm();
    let p = inst.p_flag();
    let u = inst.u_flag();
    let w = inst.w_flag();
    if rt == Reg::R15 || rm == Reg::R15 {
        return unpredictable_instruction(ir);
    }
    if (!p || w) && (rn == Reg::R15 || rn == rt) {
        return unpredictable_instruction(ir);
    }
    let offset = emit_shifted_offset(ir, inst);
    let address = get_address(ir, p, u, w, rn, offset);
    let value = ir.read_memory_8(address, AccType::Normal);
    let extended = ir.zero_extend_byte_to_word(value);
    ir.set_register(rt, extended);
    true
}

/// Translates a load of a literal halfword.
pub fn arm_ldrh_lit(ir: &mut A32IREmitter, inst: &DecodedArm) -> (r: bool)
    requires
        !is_t_form(*inst),
    ensures
        (final(ir)@, r) == if inst.p_flag() == inst.w_flag() {
            unpredictable_ir(old(ir)@)
        } else {
            load_literal_ir(old(ir)@, *inst, split_imm8(*inst), Width::Half, false)
        },
{
    let rt = inst.rt();
    if inst.p_flag() == inst.w_flag() || rt == Reg::R15 {
        return unpredictable_instruction(ir);
    }
    let address = Value::ImmU32(get_literal_address(ir, inst.u_flag(), get_split_imm8(inst)));
    let value = ir.read_memory_16(address, AccType::Normal);
    let extended = ir.zero_extend_half_to_word(value);
    ir.set_register(rt, extended);
    true
}

/// Translates a load of a halfword with an immediate offset.
pub fn arm_ldrh_imm(ir: &mut A32IREmitter, inst: &DecodedArm) -> (r: bool)
    requires
        inst.rn() == Reg::R15 || !is_t_form(*inst),
    ensures
        (final(ir)@, r) == load_imm_ir(old(ir)@, *inst, split_imm8(*inst), Width::Half, false),
{
    let rt = inst.rt();
    let rn = inst.rn();
    let p = inst.p_flag();
    let u = inst.u_flag();
    let w = inst.w_flag();
    if rn == Reg::R15 {
        return unpredictable_instruction(ir);
    }
    if (!p || w) && rn == rt {
        return unpredictable_instruction(ir);
    }
    if rt == Reg::R15 {
        return unpredictable_instruction(ir);
    }
    let offset = Value::ImmU32(get_split_imm8(inst));
    let address = get_address(ir, p, u, w, rn, offset);
    let value = ir.read_memory_16(address, AccType::Normal);
    let extended = ir.zero_extend_half_to_word(value);
    ir.set_register(rt, extended);
    true
}

/// Translates a load of a halfword with a register offset.
pub fn arm_ldrh_reg(ir: &mut A32IREmitter, inst: &DecodedArm) -> (r: bool)
    requires
        !is_t_form(*inst),
    ensures
        (final(ir)@, r) == load_reg_ir(old(ir)@, *inst, Width::Half, false),
{
    let rt = inst.rt();
    let rn = inst.rn();
    let rm = inst.rm();
    let p = inst.p_flag();
    let u = inst.u_flag();
    let w = inst.w_flag();
    if rt == Reg::R15 || rm == Reg::R15 {
        return unpredictable_instruction(ir);
    }
    if (!p || w) && (rn == Reg::R15 || rn == rt) {
        return unpredictable_instruction(ir);
    }
    let offset = ir.get_register(rm);
    let address = get_address(ir, p, u, w, rn, offset);
    let value = ir.read_memory_16(address, AccType::Normal);
    let extended = ir.zero_extend_half_to_word(value);
    ir.set_register(rt, extended);
    true
}

/// Translates a load of a literal signed byte.
pub fn arm_ldrsb_lit(ir: &mut A32IREmitter, inst: &DecodedArm) -> (r: bool)
    ensures
        (final(ir)@, r) == load_literal_ir(old(ir)@, *inst, split_imm8(*inst), Width::Byte, true),
{
    let rt = inst.rt();
    if rt == Reg::R15 {
        return unpredictable_instruction(ir);
    }
    let address = Value::ImmU32(get_literal_address(ir, inst.u_flag(), get_split_imm8(inst)));
    let value = ir.read_memory_8(address, AccType::Normal);
    let extended = ir.sign_extend_byte_to_word(value);
    ir.set_register(rt, extended);
    true
}

/// Translates a load of a signed byte with an immediate offset.
pub fn arm_ldrsb_imm(ir: &mut A32IREmitter, inst: &DecodedArm) -> (r: bool)
    requires
        inst.rn() == Reg::R15 || !is_t_form(*inst),
    ensures
        (final(ir)@, r) == load_imm_ir(old(ir)@, *inst, split_imm8(*inst), Width::Byte, true),
{
    let rt = inst.rt();
    let rn = inst.rn();
    let p = inst.p_flag();
    let u = inst.u_flag();
    let w = inst.w_flag();
    if rn == Reg::R15 {
        return unpredictable_instruction(ir);
    }
    if (!p || w) && rn == rt {
        return unpredictable_instruction(ir);
    }
    if rt == Reg::R15 {
        return unpredictable_instruction(ir);
    }
    let offset = Value::ImmU32(get_split_imm8(inst));
    let address = get_address(ir, p, u, w, rn, offset);
    let value = ir.read_memory_8(address, AccType::Normal);
    let extended = ir.sign_extend_byte_to_word(value);
    ir.set_register(rt, extended);
    true
}

/// Translates a load of a signed byte with a register offset.
pub fn arm_ldrsb_reg(ir: &mut A32IREmitter, inst: &DecodedArm) -> (r: bool)
    requires
        !is_t_form(*inst),
    ensures
        (final(ir)@, r) == load_reg_ir(old(ir)@, *inst, Width::Byte, true),
{
    let rt = inst.rt();
    let rn = inst.rn();
    let rm = inst.rm();
    let p = inst.p_flag();
    let u = inst.u_flag();
    let w = inst.w_flag();
    if rt == Reg::R15 || rm == Reg::R15 {
        return unpredictable_instruction(ir);
    }
    if (!p || w) && (rn == Reg::R15 || rn == rt) {
        return unpredictable_instruction(ir);
    }
    let offset = ir.get_register(rm);
    let address = get_address(ir, p, u, w, rn, offset);
    let value = ir.read_memory_8(address, AccType::Normal);
    let extended = ir.sign_extend_byte_to_word(value);
    ir.set_register(rt, extended);
    true
}

/// Translates a load of a literal signed halfword.
pub fn arm_ldrsh_lit(ir: &mut A32IREmitter, inst: &DecodedArm) -> (r: bool)
    ensures
        (final(ir)@, r) == load_literal_ir(old(ir)@, *inst, split_imm8(*inst), Width::Half, true),
{
    let rt = inst.rt();
    if rt == Reg::R15 {
        return unpredictable_instruction(ir);
    }
    let address = Value::ImmU32(get_literal_address(ir, inst.u_flag(), get_split_imm8(inst)));
    let value = ir.read_memory_16(address, AccType::Normal);
    let extended = ir.sign_extend_half_to_word(value);
    ir.set_register(rt, extended);
    true
}

/// Translates a load of a signed halfword with an immediate offset.
pub fn arm_ldrsh_imm(ir: &mut A32IREmitter, inst: &DecodedArm) -> (r: bool)
    requires
        inst.rn() == Reg::R15 || !is_t_form(*inst),
    ensures
        (final(ir)@, r) == load_imm_ir(old(ir)@, *inst, split_imm8(*inst), Width::Half, true),
{
    let rt = inst.rt();
    let rn = inst.rn();
    let p = inst.p_flag();
    let u = inst.u_flag();
    let w = inst.w_flag();
    if rn == Reg::R15 {
        return unpredictable_instruction(ir);
    }
    if (!p || w) && rn == rt {
        return unpredictable_instruction(ir);
    }
    if rt == Reg::R15 {
        return unpredictable_instruction(ir);
    }
    let offset = Value::ImmU32(get_split_imm8(inst));
    let address = get_address(ir, p, u, w, rn, offset);
    let value = ir.read_memory_16(address, AccType::Normal);
    let extended = ir.sign_extend_half_to_word(value);
    ir.set_register(rt, extended);
    true
}

/// Translates a load of a signed halfword with a register offset.
pub fn arm_ldrsh_reg(ir: &mut A32IREmitter, inst: &DecodedArm) -> (r: bool)
    requires
        !is_t_form(*inst),
    ensures
        (final(ir)@, r) == load_reg_ir(old(ir)@, *inst, Width::Half, true),
{
    let rt = inst.rt();
    let rn = inst.rn();
    let rm = inst.rm();
    let p = inst.p_flag();
    let u = inst.u_flag();
    let w = inst.w_flag();
    if rt == Reg::R15 || rm == Reg::R15 {
        return unpredictable_instruction(ir);
    }
    if (!p || w) && (rn == Reg::R15 || rn == rt) {
        return unpredictable_instruction(ir);
    }
    let offset = ir.get_register(rm);
    let address = get_address(ir, p, u, w, rn, offset);
    let value = ir.read_memory_16(address, AccType::Normal);
    let extended = ir.sign_extend_half_to_word(value);
    ir.set_register(rt, extended);
    true
}

/// Translates a store of a word with an immediate offset.
pub fn arm_str_imm(ir: &mut A32IREmitter, inst: &DecodedArm) -> (r: bool)
    ensures
        (final(ir)@, r) == store_imm_ir(old(ir)@, *inst, inst.imm12(), Width::Word),
{
    let rt = inst.rt();
    let rn = inst.rn();
    let p = inst.p_flag();
    let u = inst.u_flag();
    let w = inst.w_flag();
    let offset = Value::ImmU32(inst.imm12());
    let address = get_address(ir, p, u, w, rn, offset);
    let value = ir.get_register(rt);
    ir.write_memory_32(address, value, AccType::Normal);
    true
}

/// Translates a store of a word with a register offset.
pub fn arm_str_reg(ir: &mut A32IREmitter, inst: &DecodedArm) -> (r: bool)
    ensures
        (final(ir)@, r) == store_shifted_ir(old(ir)@, *inst, Width::Word),
{
    let rt = inst.rt();
    let rn = inst.rn();
    let p = inst.p_flag();
    let u = inst.u_flag();
    let w = inst.w_flag();
    let offset = emit_shifted_offset(ir, inst);
    let address = get_address(ir, p, u, w, rn, offset);
    let value = ir.get_register(rt);
    ir.write_memory_32(address, value, AccType::Normal);
    true
}

/// Translates a store of a byte with an immediate offset.
pub fn arm_strb_imm(ir: &mut A32IREmitter, inst: &DecodedArm) -> (r: bool)
    ensures
        (final(ir)@, r) == store_imm_ir(old(ir)@, *inst, inst.imm12(), Width::Byte),
{
    let rt = inst.rt();
    let rn = inst.rn();
    let p = inst.p_flag();
    let u = inst.u_flag();
    let w = inst.w_flag();
    let offset = Value::ImmU32(inst.imm12());
    let address = get_address(ir, p, u, w, rn, offset);
    let value = ir.get_register(rt);
    let part = ir.least_significant_byte(value);
    ir.write_memory_8(address, part, AccType::Normal);
    true
}

/// Translates a store of a byte with a register offset.
pub fn arm_strb_reg(ir: &mut A32IREmitter, inst: &DecodedArm) -> (r: bool)
    ensures
        (final(ir)@, r) == store_shifted_ir(old(ir)@, *inst, Width::Byte),
{
    let rt = inst.rt();
    let rn = inst.rn();
    let p = inst.p_flag();
    let u = inst.u_flag();
    let w = inst.w_flag();
    let offset = emit_shifted_offset(ir, inst);
    let address = get_address(ir, p, u, w, rn, offset);
    let value = ir.get_register(rt);
    let part = ir.least_significant_byte(value);
    ir.write_memory_8(address, part, AccType::Normal);
    true
}

/// Translates a store of a halfword with an immediate offset.
pub fn arm_strh_imm(ir: &mut A32IREmitter, inst: &DecodedArm) -> (r: bool)
    ensures
        (final(ir)@, r) == store_imm_ir(old(ir)@, *inst, split_imm8(*inst), Width::Half),
{
    let rt = inst.rt();
    let rn = inst.rn();
    let p = inst.p_flag();
    let u = inst.u_flag();
    let w = inst.w_flag();
    let offset = Value::ImmU32(get_split_imm8(inst));
    let address = get_address(ir, p, u, w, rn, offset);
    let value = ir.get_register(rt);
    let part = ir.least_significant_half(value);
    ir.write_memory_16(address, part, AccType::Normal);
    true
}

/// Translates a store of a halfword with a register offset.
pub fn arm_strh_reg(ir: &mut A32IREmitter, inst: &DecodedArm) -> (r: bool)
    ensures
        (final(ir)@, r) == store_reg_ir(old(ir)@, *inst, Width::Half),
{
    let rt = inst.rt();
    let rn = inst.rn();
    let p = inst.p_flag();
    let u = inst.u_flag();
    let w = inst.w_flag();
    let offset = ir.get_register(inst.rm());
    let address = get_address(ir, p, u, w, rn, offset);
    let value = ir.get_register(rt);
    let part = ir.least_significant_half(value);
    ir.write_memory_16(address, part, AccType::Normal);
    true
}

/// The register after `r`.
pub open spec fn next_reg(r: Reg) -> Reg {
    reg((r.number() + 1) as u32)
}

/// Loading `Rt` and the register after it from an address, with one access
/// of a double word. The word at the lower address goes to `Rt`.
pub open spec fn load_double_ir(s: EmitterState, rt: Reg, address: Value) -> (EmitterState, bool) {
    let (s, data) = s.read_memory_64(address, AccType::Atomic);
    if s.loc.e_flag() {
        let (s, hi) = s.most_significant_word(data);
        let s = s.set_register(rt, hi.result);
        let (s, lo) = s.op1(Opcode::LeastSignificantWord, data);
        (s.set_register(next_reg(rt), lo), true)
    } else {
        let (s, lo) = s.op1(Opcode::LeastSignificantWord, data);
        let s = s.set_register(rt, lo);
        let (s, hi) = s.most_significant_word(data);
        (s.set_register(next_reg(rt), hi.result), true)
    }
}

fn emit_load_double(ir: &mut A32IREmitter, rt: Reg, address: Value) -> (r: bool)
    requires
        rt != Reg::R15,
    ensures
        (final(ir)@, r) == load_double_ir(old(ir)@, rt, address),
{
    let rt2 = Reg::from_u32(rt.number() + 1);
    let data = ir.read_memory_64(address, AccType::Atomic);
    if ir.current_location.e_flag() {
        let hi_word = ir.most_significant_word(data).result;
        ir.set_register(rt, hi_word);
        let lo_word = ir.least_significant_word(data);
        ir.set_register(rt2, lo_word);
    } else {
        let lo_word = ir.least_significant_word(data);
        ir.set_register(rt, lo_word);
        let hi_word = ir.most_significant_word(data).result;
        ir.set_register(rt2, hi_word);
    }
    true
}

/// Whether a register is one of `Rt` and the register after it.
pub open spec fn in_pair(r: Reg, rt: Reg) -> bool {
    r == rt || r.number() == rt.number() + 1
}

/// A load of a literal double word. `Rt` must be even and below the link
/// register.
pub open spec fn arm_ldrd_lit_ir(s: EmitterState, inst: DecodedArm) -> (EmitterState, bool) {
    if inst.rt().number() % 2 == 1 || inst.rt() == Reg::R14 {
        unpredictable_ir(s)
    } else {
        let address = Value::ImmU32(literal_address(s, inst.u_flag(), split_imm8(inst)));
        load_double_ir(s, inst.rt(), address)
    }
}

/// Translates a load of a literal double word.
pub fn arm_ldrd_lit(ir: &mut A32IREmitter, inst: &DecodedArm) -> (r: bool)
    ensures
        (final(ir)@, r) == arm_ldrd_lit_ir(old(ir)@, *inst),
{
    let rt = inst.rt();
    if rt.number() % 2 == 1 {
        return unpredictable_instruction(ir);
    }
    if rt == Reg::R14 {
        return unpredictable_instruction(ir);
    }
    let address: u32 = get_literal_address(ir, inst.u_flag(), get_split_imm8(inst));
    emit_load_double(ir, rt, Value::ImmU32(address))
}

/// A load of a double word with an immediate offset. `Rt` must be even and
/// below the link register, the base may not be the program counter, and may
/// not be loaded if it is written back.
pub open spec fn arm_ldrd_imm_ir(s: EmitterState, inst: DecodedArm) -> (EmitterState, bool) {
    let (rt, rn) = (inst.rt(), inst.rn());
    if rn == Reg::R15 || rt.number() % 2 == 1 || rt == Reg::R14 || is_t_form(inst) || (writes_back(
        inst,
    ) && in_pair(rn, rt)) {
        unpredictable_ir(s)
    } else {
        let (s, address) = indexed_ir(s, inst, Value::ImmU32(split_imm8(inst)));
        load_double_ir(s, rt, address)
    }
}

/// Translates a load of a double word with an immediate offset.
pub fn arm_ldrd_imm(ir: &mut A32IREmitter, inst: &DecodedArm) -> (r: bool)
    ensures
        (final(ir)@, r) == arm_ldrd_imm_ir(old(ir)@, *inst),
{
    let rt = inst.rt();
    let rn = inst.rn();
    let p = inst.p_flag();
    let u = inst.u_flag();
    let w = inst.w_flag();
    if rn == Reg::R15 {
        return unpredictable_instruction(ir);
    }
    if rt.number() % 2 == 1 {
        return unpredictable_instruction(ir);
    }
    if !p && w {
        return unpredictable_instruction(ir);
    }
    if (!p || w) && (rn == rt || rn.number() == rt.number() + 1) {
        return unpredictable_instruction(ir);
    }
    if rt == Reg::R14 {
        return unpredictable_instruction(ir);
    }
    let offset = Value::ImmU32(get_split_imm8(inst));
    let address = get_address(ir, p, u, w, rn, offset);
    emit_load_double(ir, rt, address)
}

/// A load of a double word with a register offset. Besides, the offset may
/// be neither the program counter nor loaded.
pub open spec fn arm_ldrd_reg_ir(s: EmitterState, inst: DecodedArm) -> (EmitterState, bool) {
    let (rt, rn, rm) = (inst.rt(), inst.rn(), inst.rm());
    if rt.number() % 2 == 1
        || rt == Reg::R14 || is_t_form(inst) || rm == Reg::R15 || in_pair(rm, rt)
        || (writes_back(inst) && (rn == Reg::R15 || in_pair(rn, rt))) {
        unpredictable_ir(s)
    } else {
        let (s, offset) = s.get_register(rm);
        let (s, address) = indexed_ir(s, inst, offset);
        load_double_ir(s, rt, address)
    }
}

/// Translates a load of a double word with a register offset.
pub fn arm_ldrd_reg(ir: &mut A32IREmitter, inst: &DecodedArm) -> (r: bool)
    ensures
        (final(ir)@, r) == arm_ldrd_reg_ir(old(ir)@, *inst),
{
    let rt = inst.rt();
    let rn = inst.rn();
    let rm = inst.rm();
    let p = inst.p_flag();
    let u = inst.u_flag();
    let w = inst.w_flag();
    if rt.number() % 2 == 1 {
        return unpredictable_instruction(ir);
    }
    if !p && w {
        return unpredictable_instruction(ir);
    }
    if rt == Reg::R14 || rm == Reg::R15 || rm == rt || rm.number() == rt.number() + 1 {
        return unpredictable_instruction(ir);
    }
    if (!p || w) && (rn == Reg::R15 || rn == rt || rn.number() == rt.number() + 1) {
        return unpredictable_instruction(ir);
    }
    let offset = ir.get_register(rm);
    let address = get_address(ir, p, u, w, rn, offset);
    emit_load_double(ir, rt, address)
}

/// Storing `Rt` and the register after it to an address, with one access of
/// a double word. `Rt` goes to the lower address.
pub open spec fn store_double_ir(s: EmitterState, rt: Reg, address: Value) -> (EmitterState, bool) {
    let (s, a) = s.get_register(rt);
    let (s, b) = s.get_register(next_reg(rt));
    let (s, data) = if s.loc.e_flag() {
        s.op2(Opcode::Pack2x32To1x64, b, a)
    } else {
        s.op2(Opcode::Pack2x32To1x64, a, b)
    };
    (s.write_memory_64(address, data, AccType::Atomic), true)
}

fn emit_store_double(ir: &mut A32IREmitter, rt: Reg, address: Value) -> (r: bool)
    requires
        rt != Reg::R15,
    ensures
        (final(ir)@, r) == store_double_ir(old(ir)@, rt, address),
{
    let rt2 = Reg::from_u32(rt.number() + 1);
    let value_a = ir.get_register(rt);
    let value_b = ir.get_register(rt2);
    let data = if ir.current_location.e_flag() {
        ir.pack_2x32_to_1x64(value_b, value_a)
    } else {
        ir.pack_2x32_to_1x64(value_a, value_b)
    };
    ir.write_memory_64(address, data, AccType::Atomic);
    true
}

/// A store of a double word with an immediate offset.
pub open spec fn arm_strd_imm_ir(s: EmitterState, inst: DecodedArm) -> (EmitterState, bool) {
    let (s, address) = indexed_ir(s, inst, Value::ImmU32(split_imm8(inst)));
    store_double_ir(s, inst.rt(), address)
}

/// Translates a store of a double word with an immediate offset. There has to
/// be a register after `Rt`.
pub fn arm_strd_imm(ir: &mut A32IREmitter, inst: &DecodedArm) -> (r: bool)
    requires
        inst.rt() != Reg::R15,
    ensures
        (final(ir)@, r) == arm_strd_imm_ir(old(ir)@, *inst),
{
    let rt = inst.rt();
    let rn = inst.rn();
    let offset = Value::ImmU32(get_split_imm8(inst));
    let address = get_address(ir, inst.p_flag(), inst.u_flag(), inst.w_flag(), rn, offset);
    emit_store_double(ir, rt, address)
}

/// A store of a double word with a register offset.
pub open spec fn arm_strd_reg_ir(s: EmitterState, inst: DecodedArm) -> (EmitterState, bool) {
    let (s, offset) = s.get_register(inst.rm());
    let (s, address) = indexed_ir(s, inst, offset);
    store_double_ir(s, inst.rt(), address)
}

/// Translates a store of a double word with a register offset. There has to
/// be a register after `Rt`.
pub fn arm_strd_reg(ir: &mut A32IREmitter, inst: &DecodedArm) -> (r: bool)
    requires
        inst.rt() != Reg::R15,
    ensures
        (final(ir)@, r) == arm_strd_reg_ir(old(ir)@, *inst),
{
    let rt = inst.rt();
    let rn = inst.rn();
    let offset = ir.get_register(inst.rm());
    let address = get_address(ir, inst.p_flag(), inst.u_flag(), inst.w_flag(), rn, offset);
    emit_store_double(ir, rt, address)
}

} // verus!
