//! Synchronization: exclusive and ordered accesses, and swaps.

use vstd::prelude::*;
use super::helpers::{narrow_ir, read_ir, widen_ir, write_ir, Width};
use super::{unpredictable_instruction, unpredictable_ir};
use crate::frontend::a32::decoder::DecodedArm;
use crate::frontend::a32::types::{reg, Reg};
use crate::ir::a32_emitter::{A32IREmitter, EmitterState};
use crate::ir::acc_type::AccType;
use crate::ir::opcode::Opcode;
use crate::ir::value::Value;

verus! {

/// A read of memory that claims what it reads.
pub open spec fn exclusive_read_ir(s: EmitterState, width: Width, address: Value, acc: AccType) -> (
    EmitterState,
    Value,
) {
    match width {
        Width::Byte => s.exclusive_read_memory_8(address, acc),
        Width::Half => s.exclusive_read_memory_16(address, acc),
        Width::Word => s.exclusive_read_memory_32(address, acc),
    }
}

/// A write of memory that is still claimed.
pub open spec fn exclusive_write_ir(
    s: EmitterState,
    width: Width,
    address: Value,
    value: Value,
    acc: AccType,
) -> (EmitterState, Value) {
    match width {
        Width::Byte => s.exclusive_write_memory_8(address, value, acc),
        Width::Half => s.exclusive_write_memory_16(address, value, acc),
        Width::Word => s.exclusive_write_memory_32(address, value, acc),
    }
}

/// A load of `Rt` from the address in `Rn`, exclusive or not. It may not use
/// the program counter.
pub open spec fn sync_load_ir(
    s: EmitterState,
    inst: DecodedArm,
    width: Width,
    exclusive: bool,
    acc: AccType,
) -> (EmitterState, bool) {
    if inst.rt() == Reg::R15 || inst.rn() == Reg::R15 {
        unpredictable_ir(s)
    } else {
        let (s, address) = s.get_register(inst.rn());
        let (s, value) = if exclusive {
            exclusive_read_ir(s, width, address, acc)
        } else {
            read_ir(s, width, address, acc)
        };
        let (s, word) = widen_ir(s, width, false, value);
        (s.set_register(inst.rt(), word), true)
    }
}

/// An exclusive load of `Rt` and the register after it from the address in
/// `Rn`. There has to be a register after `Rt`, and it may not be the program
/// counter.
pub open spec fn sync_load_double_ir(s: EmitterState, inst: DecodedArm, acc: AccType) -> (
    EmitterState,
    bool,
) {
    let rt = inst.rt();
    if rt == Reg::R14 || rt == Reg::R15 || inst.rn() == Reg::R15 {
        unpredictable_ir(s)
    } else {
        let rt2 = reg((rt.number() + 1) as u32);
        let (s, address) = s.get_register(inst.rn());
        let (s, (first, second)) = s.exclusive_read_memory_64(address, acc);
        (s.set_register(rt, first).set_register(rt2, second), true)
    }
}

/// A store of `Rm` to the address in `Rn`. It may not use the program counter.
pub open spec fn sync_store_ir(s: EmitterState, inst: DecodedArm, width: Width) -> (
    EmitterState,
    bool,
) {
    if inst.rm() == Reg::R15 || inst.rn() == Reg::R15 {
        unpredictable_ir(s)
    } else {
        let (s, address) = s.get_register(inst.rn());
        let (s, value) = s.get_register(inst.rm());
        let (s, part) = narrow_ir(s, width, value);
        (write_ir(s, width, address, part, AccType::Ordered), true)
    }
}

/// An exclusive store of `Rm` to the address in `Rn`; `Rd` receives its
/// status. It may not use the program counter, and `Rd` must be distinct from
/// the other two.
pub open spec fn exclusive_store_ir(
    s: EmitterState,
    inst: DecodedArm,
    width: Width,
    acc: AccType,
) -> (EmitterState, bool) {
    let (rd, rt, rn) = (inst.rd(), inst.rm(), inst.rn());
    if rn == Reg::R15 || rd == Reg::R15 || rt == Reg::R15 || rd == rn || rd == rt {
        unpredictable_ir(s)
    } else {
        let (s, address) = s.get_register(rn);
        let (s, value) = s.get_register(rt);
        let (s, part) = narrow_ir(s, width, value);
        let (s, status) = exclusive_write_ir(s, width, address, part, acc);
        (s.set_register(rd, status), true)
    }
}

/// An exclusive store of `Rm` and the register after it to the address in
/// `Rn`; `Rd` receives its status. `Rm` must be even and below the link
/// register, and `Rd` distinct from the others.
pub open spec fn exclusive_store_double_ir(s: EmitterState, inst: DecodedArm, acc: AccType) -> (
    EmitterState,
    bool,
) {
    let (rd, rt, rn) = (inst.rd(), inst.rm(), inst.rn());
    let rt2 = reg((rt.number() + 1) as u32);
    if rn == Reg::R15 || rd == Reg::R15 || rt == Reg::R14 || rt.number() % 2 == 1 || rd == rn
        || rd == rt || rd == rt2 {
        unpredictable_ir(s)
    } else {
        let (s, address) = s.get_register(rn);
        let (s, first) = s.get_register(rt);
        let (s, second) = s.get_register(rt2);
        let (s, status) = s.exclusive_write_memory_64(address, first, second, acc);
        (s.set_register(rd, status), true)
    }
}

/// Translates an ordered load of a word.
pub fn arm_lda(ir: &mut A32IREmitter, inst: &DecodedArm) -> (r: bool)
    ensures
        (final(ir)@, r) == sync_load_ir(old(ir)@, *inst, Width::Word, false, AccType::Ordered),
{
    let rt = inst.rt();
    let rn = inst.rn();
    if rt == Reg::R15 || rn == Reg::R15 {
        return unpredictable_instruction(ir);
    }
    let address = ir.get_register(rn);
    let value = ir.read_memory_32(address, AccType::Ordered);
    ir.set_register(rt, value);
    true
}

/// Translates an ordered load of a byte.
pub fn arm_ldab(ir: &mut A32IREmitter, inst: &DecodedArm) -> (r: bool)
    ensures
        (final(ir)@, r) == sync_load_ir(old(ir)@, *inst, Width::Byte, false, AccType::Ordered),
{
    let rt = inst.rt();
    let rn = inst.rn();
    if rt == Reg::R15 || rn == Reg::R15 {
        return unpredictable_instruction(ir);
    }
    let address = ir.get_register(rn);
    let value = ir.read_memory_8(address, AccType::Ordered);
    let extended = ir.zero_extend_byte_to_word(value);
    ir.set_register(rt, extended);
    true
}

/// Translates an ordered load of a halfword.
pub fn arm_ldah(ir: &mut A32IREmitter, inst: &DecodedArm) -> (r: bool)
    ensures
        (final(ir)@, r) == sync_load_ir(old(ir)@, *inst, Width::Half, false, AccType::Ordered),
{
    let rt = inst.rt();
    let rn = inst.rn();
    if rt == Reg::R15 || rn == Reg::R15 {
        return unpredictable_instruction(ir);
    }
    let address = ir.get_register(rn);
    let value = ir.read_memory_16(address, AccType::Ordered);
    let extended = ir.zero_extend_half_to_word(value);
    ir.set_register(rt, extended);
    true
}

/// Translates an ordered exclusive load of a word.
pub fn arm_ldaex(ir: &mut A32IREmitter, inst: &DecodedArm) -> (r: bool)
    ensures
        (final(ir)@, r) == sync_load_ir(old(ir)@, *inst, Width::Word, true, AccType::Ordered),
{
    let rt = inst.rt();
    let rn = inst.rn();
    if rt == Reg::R15 || rn == Reg::R15 {
        return unpredictable_instruction(ir);
    }
    let address = ir.get_register(rn);
    let value = ir.exclusive_read_memory_32(address, AccType::Ordered);
    ir.set_register(rt, value);
    true
}

/// Translates an ordered exclusive load of a byte.
pub fn arm_ldaexb(ir: &mut A32IREmitter, inst: &DecodedArm) -> (r: bool)
    ensures
        (final(ir)@, r) == sync_load_ir(old(ir)@, *inst, Width::Byte, true, AccType::Ordered),
{
    let rt = inst.rt();
    let rn = inst.rn();
    if rt == Reg::R15 || rn == Reg::R15 {
        return unpredictable_instruction(ir);
    }
    let address = ir.get_register(rn);
    let value = ir.exclusive_read_memory_8(address, AccType::Ordered);
    let extended = ir.zero_extend_byte_to_word(value);
    ir.set_register(rt, extended);
    true
}

/// Translates an ordered exclusive load of a halfword.
pub fn arm_ldaexh(ir: &mut A32IREmitter, inst: &DecodedArm) -> (r: bool)
    ensures
        (final(ir)@, r) == sync_load_ir(old(ir)@, *inst, Width::Half, true, AccType::Ordered),
{
    let rt = inst.rt();
    let rn = inst.rn();
    if rt == Reg::R15 || rn == Reg::R15 {
        return unpredictable_instruction(ir);
    }
    let address = ir.get_register(rn);
    let value = ir.exclusive_read_memory_16(address, AccType::Ordered);
    let extended = ir.zero_extend_half_to_word(value);
    ir.set_register(rt, extended);
    true
}

/// Translates an ordered exclusive load of a double word.
pub fn arm_ldaexd(ir: &mut A32IREmitter, inst: &DecodedArm) -> (r: bool)
    ensures
        (final(ir)@, r) == sync_load_double_ir(old(ir)@, *inst, AccType::Ordered),
{
    let rt = inst.rt();
    let rn = inst.rn();
    if rt == Reg::R14 || rt == Reg::R15 || rn == Reg::R15 {
        return unpredictable_instruction(ir);
    }
    let rt2 = Reg::from_u32(rt.number() + 1);
    let address = ir.get_register(rn);
    let (lo, hi) = ir.exclusive_read_memory_64(address, AccType::Ordered);
    ir.set_register(rt, lo);
    ir.set_register(rt2, hi);
    true
}

/// Translates an exclusive load of a word.
pub fn arm_ldrex(ir: &mut A32IREmitter, inst: &DecodedArm) -> (r: bool)
    ensures
        (final(ir)@, r) == sync_load_ir(old(ir)@, *inst, Width::Word, true, AccType::Atomic),
{
    let rt = inst.rt();
    let rn = inst.rn();
    if rt == Reg::R15 || rn == Reg::R15 {
        return unpredictable_instruction(ir);
    }
    let address = ir.get_register(rn);
    let value = ir.exclusive_read_memory_32(address, AccType::Atomic);
    ir.set_register(rt, value);
    true
}

/// Translates an exclusive load of a byte.
pub fn arm_ldrexb(ir: &mut A32IREmitter, inst: &DecodedArm) -> (r: bool)
    ensures
        (final(ir)@, r) == sync_load_ir(old(ir)@, *inst, Width::Byte, true, AccType::Atomic),
{
    let rt = inst.rt();
    let rn = inst.rn();
    if rt == Reg::R15 || rn == Reg::R15 {
        return unpredictable_instruction(ir);
    }
    let address = ir.get_register(rn);
    let value = ir.exclusive_read_memory_8(address, AccType::Atomic);
    let extended = ir.zero_extend_byte_to_word(value);
    ir.set_register(rt, extended);
    true
}

/// Translates an exclusive load of a halfword.
pub fn arm_ldrexh(ir: &mut A32IREmitter, inst: &DecodedArm) -> (r: bool)
    ensures
        (final(ir)@, r) == sync_load_ir(old(ir)@, *inst, Width::Half, true, AccType::Atomic),
{
    let rt = inst.rt();
    let rn = inst.rn();
    if rt == Reg::R15 || rn == Reg::R15 {
        return unpredictable_instruction(ir);
    }
    let address = ir.get_register(rn);
    let value = ir.exclusive_read_memory_16(address, AccType::Atomic);
    let extended = ir.zero_extend_half_to_word(value);
    ir.set_register(rt, extended);
    true
}

/// Translates an exclusive load of a double word.
pub fn arm_ldrexd(ir: &mut A32IREmitter, inst: &DecodedArm) -> (r: bool)
    ensures
        (final(ir)@, r) == sync_load_double_ir(old(ir)@, *inst, AccType::Atomic),
{
    let rt = inst.rt();
    let rn = inst.rn();
    if rt == Reg::R14 || rt == Reg::R15 || rn == Reg::R15 {
        return unpredictable_instruction(ir);
    }
    let rt2 = Reg::from_u32(rt.number() + 1);
    let address = ir.get_register(rn);
    let (lo, hi) = ir.exclusive_read_memory_64(address, AccType::Atomic);
    ir.set_register(rt, lo);
    ir.set_register(rt2, hi);
    true
}

/// Translates an ordered store of a word.
pub fn arm_stl(ir: &mut A32IREmitter, inst: &DecodedArm) -> (r: bool)
    ensures
        (final(ir)@, r) == sync_store_ir(old(ir)@, *inst, Width::Word),
{
    let rt = inst.rm();
    let rn = inst.rn();
    if rt == Reg::R15 || rn == Reg::R15 {
        return unpredictable_instruction(ir);
    }
    let address = ir.get_register(rn);
    let value = ir.get_register(rt);
    ir.write_memory_32(address, value, AccType::Ordered);
    true
}

/// Translates an ordered store of a byte.
pub fn arm_stlb(ir: &mut A32IREmitter, inst: &DecodedArm) -> (r: bool)
    ensures
        (final(ir)@, r) == sync_store_ir(old(ir)@, *inst, Width::Byte),
{
    let rt = inst.rm();
    let rn = inst.rn();
    if rt == Reg::R15 || rn == Reg::R15 {
        return unpredictable_instruction(ir);
    }
    let address = ir.get_register(rn);
    let value = ir.get_register(rt);
    let part = ir.least_significant_byte(value);
    ir.write_memory_8(address, part, AccType::Ordered);
    true
}

/// Translates an ordered store of a halfword.
pub fn arm_stlh(ir: &mut A32IREmitter, inst: &DecodedArm) -> (r: bool)
    ensures
        (final(ir)@, r) == sync_store_ir(old(ir)@, *inst, Width::Half),
{
    let rt = inst.rm();
    let rn = inst.rn();
    if rt == Reg::R15 || rn == Reg::R15 {
        return unpredictable_instruction(ir);
    }
    let address = ir.get_register(rn);
    let value = ir.get_register(rt);
    let part = ir.least_significant_half(value);
    ir.write_memory_16(address, part, AccType::Ordered);
    true
}

/// Translates an ordered exclusive store of a word.
pub fn arm_stlex(ir: &mut A32IREmitter, inst: &DecodedArm) -> (r: bool)
    ensures
        (final(ir)@, r) == exclusive_store_ir(old(ir)@, *inst, Width::Word, AccType::Ordered),
{
    let rd = inst.rd();
    let rt = inst.rm();
    let rn = inst.rn();
    if rn == Reg::R15 || rd == Reg::R15 || rt == Reg::R15 {
        return unpredictable_instruction(ir);
    }
    if rd == rn || rd == rt {
        return unpredictable_instruction(ir);
    }
    let address = ir.get_register(rn);
    let value = ir.get_register(rt);
    let result = ir.exclusive_write_memory_32(address, value, AccType::Ordered);
    ir.set_register(rd, result);
    true
}

/// Translates an ordered exclusive store of a byte.
pub fn arm_stlexb(ir: &mut A32IREmitter, inst: &DecodedArm) -> (r: bool)
    ensures
        (final(ir)@, r) == exclusive_store_ir(old(ir)@, *inst, Width::Byte, AccType::Ordered),
{
    let rd = inst.rd();
    let rt = inst.rm();
    let rn = inst.rn();
    if rn == Reg::R15 || rd == Reg::R15 || rt == Reg::R15 {
        return unpredictable_instruction(ir);
    }
    if rd == rn || rd == rt {
        return unpredictable_instruction(ir);
    }
    let address = ir.get_register(rn);
    let value = ir.get_register(rt);
    let part = ir.least_significant_byte(value);
    let result = ir.exclusive_write_memory_8(address, part, AccType::Ordered);
    ir.set_register(rd, result);
    true
}

/// Translates an ordered exclusive store of a halfword.
pub fn arm_stlexh(ir: &mut A32IREmitter, inst: &DecodedArm) -> (r: bool)
    ensures
        (final(ir)@, r) == exclusive_store_ir(old(ir)@, *inst, Width::Half, AccType::Ordered),
{
    let rd = inst.rd();
    let rt = inst.rm();
    let rn = inst.rn();
    if rn == Reg::R15 || rd == Reg::R15 || rt == Reg::R15 {
        return unpredictable_instruction(ir);
    }
    if rd == rn || rd == rt {
        return unpredictable_instruction(ir);
    }
    let address = ir.get_register(rn);
    let value = ir.get_register(rt);
    let part = ir.least_significant_half(value);
    let result = ir.exclusive_write_memory_16(address, part, AccType::Ordered);
    ir.set_register(rd, result);
    true
}

/// Translates an ordered exclusive store of a double word.
pub fn arm_stlexd(ir: &mut A32IREmitter, inst: &DecodedArm) -> (r: bool)
    ensures
        (final(ir)@, r) == exclusive_store_double_ir(old(ir)@, *inst, AccType::Ordered),
{
    let rd = inst.rd();
    let rt = inst.rm();
    let rn = inst.rn();
    if rn == Reg::R15 || rd == Reg::R15 || rt == Reg::R14 || rt.number() % 2 == 1 {
        return unpredictable_instruction(ir);
    }
    let rt2 = Reg::from_u32(rt.number() + 1);
    if rd == rn || rd == rt || rd == rt2 {
        return unpredictable_instruction(ir);
    }
    let address = ir.get_register(rn);
    let lo = ir.get_register(rt);
    let hi = ir.get_register(rt2);
    let result = ir.exclusive_write_memory_64(address, lo, hi, AccType::Ordered);
    ir.set_register(rd, result);
    true
}

/// Translates an exclusive store of a word.
pub fn arm_strex(ir: &mut A32IREmitter, inst: &DecodedArm) -> (r: bool)
    ensures
        (final(ir)@, r) == exclusive_store_ir(old(ir)@, *inst, Width::Word, AccType::Atomic),
{
    let rd = inst.rd();
    let rt = inst.rm();
    let rn = inst.rn();
    if rn == Reg::R15 || rd == Reg::R15 || rt == Reg::R15 {
        return unpredictable_instruction(ir);
    }
    if rd == rn || rd == rt {
        return unpredictable_instruction(ir);
    }
    let address = ir.get_register(rn);
    let value = ir.get_register(rt);
    let result = ir.exclusive_write_memory_32(address, value, AccType::Atomic);
    ir.set_register(rd, result);
    true
}

/// Translates an exclusive store of a byte.
pub fn arm_strexb(ir: &mut A32IREmitter, inst: &DecodedArm) -> (r: bool)
    ensures
        (final(ir)@, r) == exclusive_store_ir(old(ir)@, *inst, Width::Byte, AccType::Atomic),
{
    let rd = inst.rd();
    let rt = inst.rm();
    let rn = inst.rn();
    if rn == Reg::R15 || rd == Reg::R15 || rt == Reg::R15 {
        return unpredictable_instruction(ir);
    }
    if rd == rn || rd == rt {
        return unpredictable_instruction(ir);
    }
    let address = ir.get_register(rn);
    let value = ir.get_register(rt);
    let part = ir.least_significant_byte(value);
    let result = ir.exclusive_write_memory_8(address, part, AccType::Atomic);
    ir.set_register(rd, result);
    true
}

/// Translates an exclusive store of a halfword.
pub fn arm_strexh(ir: &mut A32IREmitter, inst: &DecodedArm) -> (r: bool)
    ensures
        (final(ir)@, r) == exclusive_store_ir(old(ir)@, *inst, Width::Half, AccType::Atomic),
{
    let rd = inst.rd();
    let rt = inst.rm();
    let rn = inst.rn();
    if rn == Reg::R15 || rd == Reg::R15 || rt == Reg::R15 {
        return unpredictable_instruction(ir);
    }
    if rd == rn || rd == rt {
        return unpredictable_instruction(ir);
    }
    let address = ir.get_register(rn);
    let value = ir.get_register(rt);
    let part = ir.least_significant_half(value);
    let result = ir.exclusive_write_memory_16(address, part, AccType::Atomic);
    ir.set_register(rd, result);
    true
}

/// Translates an exclusive store of a double word.
pub fn arm_strexd(ir: &mut A32IREmitter, inst: &DecodedArm) -> (r: bool)
    ensures
        (final(ir)@, r) == exclusive_store_double_ir(old(ir)@, *inst, AccType::Atomic),
{
    let rd = inst.rd();
    let rt = inst.rm();
    let rn = inst.rn();
    if rn == Reg::R15 || rd == Reg::R15 || rt == Reg::R14 || rt.number() % 2 == 1 {
        return unpredictable_instruction(ir);
    }
    let rt2 = Reg::from_u32(rt.number() + 1);
    if rd == rn || rd == rt || rd == rt2 {
        return unpredictable_instruction(ir);
    }
    let address = ir.get_register(rn);
    let lo = ir.get_register(rt);
    let hi = ir.get_register(rt2);
    let result = ir.exclusive_write_memory_64(address, lo, hi, AccType::Atomic);
    ir.set_register(rd, result);
    true
}

/// A swap: `Rt` receives what the address in `Rn` holds, and the value of `Rm`
/// takes its place. The program counter takes no part, and `Rn` is distinct
/// from the others.
pub open spec fn swap_ir(s: EmitterState, inst: DecodedArm, width: Width) -> (EmitterState, bool) {
    let (rt, rt2, rn) = (inst.rt(), inst.rm(), inst.rn());
    if rt == Reg::R15 || rt2 == Reg::R15 || rn == Reg::R15 || rn == rt || rn == rt2 {
        unpredictable_ir(s)
    } else {
        let (s, address) = s.get_register(rn);
        let (s, loaded) = read_ir(s, width, address, AccType::Atomic);
        let (s, value) = s.get_register(rt2);
        let (s, part) = narrow_ir(s, width, value);
        let s = write_ir(s, width, address, part, AccType::Atomic);
        let (s, word) = widen_ir(s, width, false, loaded);
        (s.set_register(rt, word), true)
    }
}

/// Translates a swap of a word.
pub fn arm_swp(ir: &mut A32IREmitter, inst: &DecodedArm) -> (r: bool)
    ensures
        (final(ir)@, r) == swap_ir(old(ir)@, *inst, Width::Word),
{
    let rt = inst.rt();
    let rt2 = inst.rm();
    let rn = inst.rn();
    if rt == Reg::R15 || rt2 == Reg::R15 || rn == Reg::R15 || rn == rt || rn == rt2 {
        return unpredictable_instruction(ir);
    }
    let address = ir.get_register(rn);
    let old_value = ir.read_memory_32(address, AccType::Atomic);
    let new_value = ir.get_register(rt2);
    ir.write_memory_32(address, new_value, AccType::Atomic);
    ir.set_register(rt, old_value);
    true
}

/// Translates a swap of a byte.
pub fn arm_swpb(ir: &mut A32IREmitter, inst: &DecodedArm) -> (r: bool)
    ensures
        (final(ir)@, r) == swap_ir(old(ir)@, *inst, Width::Byte),
{
    let rt = inst.rt();
    let rt2 = inst.rm();
    let rn = inst.rn();
    if rt == Reg::R15 || rt2 == Reg::R15 || rn == Reg::R15 || rn == rt || rn == rt2 {
        return unpredictable_instruction(ir);
    }
    let address = ir.get_register(rn);
    let old_value = ir.read_memory_8(address, AccType::Atomic);
    let new_value = ir.get_register(rt2);
    let byte = ir.least_significant_byte(new_value);
    ir.write_memory_8(address, byte, AccType::Atomic);
    let extended = ir.zero_extend_byte_to_word(old_value);
    ir.set_register(rt, extended);
    true
}

/// Translates the giving up of claimed memory.
pub fn arm_clrex(ir: &mut A32IREmitter) -> (r: bool)
    ensures
        (final(ir)@, r) == (old(ir)@.op0(Opcode::A32ClearExclusive).0, true),
{
    ir.clear_exclusive();
    true
}

} // verus!
