//! Parts that the translations of many instructions share.

use vstd::prelude::*;
use crate::frontend::a32::types::{Reg, ShiftType};
use crate::ir::a32_emitter::{A32IREmitter, EmitterState};
use crate::ir::acc_type::AccType;
use crate::ir::opcode::Opcode;
use crate::ir::value::Value;

verus! {

/// Whether an instruction that writes the program counter is forbidden at the
/// current position in an If-Then block: anywhere but at its end.
pub fn it_block_check(ir: &A32IREmitter) -> (r: bool)
    ensures
        r == it_block_forbids_branch(ir@),
{
    let it = ir.current_location.it();
    it.is_in_it_block() && !it.is_last_in_it_block()
}

/// Whether the current instruction is in an If-Then block but not at its end.
pub open spec fn it_block_forbids_branch(s: EmitterState) -> bool {
    s.loc.it().is_in_it_block() && !s.loc.it().is_last_in_it_block()
}

/// The word made of the low halves of `lo` and `hi`.
pub open spec fn pack_2x16_ir(s: EmitterState, lo: Value, hi: Value) -> (EmitterState, Value) {
    let (s, low) = s.op2(Opcode::And32, lo, Value::ImmU32(0xFFFF));
    let (s, high) = s.op3(
        Opcode::LogicalShiftLeft32,
        hi,
        Value::ImmU8(16),
        Value::ImmU1(false),
    );
    s.op2(Opcode::Or32, low, high)
}

/// Packs the low halves of `lo` and `hi` into one word.
pub fn pack_2x16_to_1x32(ir: &mut A32IREmitter, lo: Value, hi: Value) -> (r: Value)
    ensures
        (final(ir)@, r) == pack_2x16_ir(old(ir)@, lo, hi),
{
    let low = ir.and_32(lo, Value::ImmU32(0xFFFF));
    let high = ir.logical_shift_left_32(hi, Value::ImmU8(16), Value::ImmU1(false));
    ir.or_32(low, high)
}

/// The upper half of a word.
pub open spec fn most_significant_half_ir(s: EmitterState, value: Value) -> (EmitterState, Value) {
    let (s, shifted) = s.op3(
        Opcode::LogicalShiftRight32,
        value,
        Value::ImmU8(16),
        Value::ImmU1(false),
    );
    s.op1(Opcode::LeastSignificantHalf, shifted)
}

/// Extracts the upper half of a word.
pub fn most_significant_half(ir: &mut A32IREmitter, value: Value) -> (r: Value)
    ensures
        (final(ir)@, r) == most_significant_half_ir(old(ir)@, value),
{
    let shifted = ir.logical_shift_right_32(value, Value::ImmU8(16), Value::ImmU1(false));
    ir.least_significant_half(shifted)
}

/// A register turned right by a number of bytes.
pub open spec fn rotate_ir(s: EmitterState, m: Reg, bytes: u32) -> (EmitterState, Value) {
    let (s, value) = s.get_register(m);
    s.op3(
        Opcode::BitRotateRight32,
        value,
        Value::ImmU8((bytes * 8) as u8),
        Value::ImmU1(false),
    )
}

/// Turns a register right by a number of bytes.
pub fn rotate(ir: &mut A32IREmitter, m: Reg, bytes: u32) -> (r: Value)
    requires
        bytes * 8 <= u32::MAX,
    ensures
        (final(ir)@, r) == rotate_ir(old(ir)@, m, bytes),
{
    #[verifier::truncate]
    let rotate_by: u8 = (bytes * 8) as u8;
    let value = ir.get_register(m);
    ir.rotate_right_32(value, Value::ImmU8(rotate_by), Value::ImmU1(false))
}

/// The operation that a shift stands for.
pub open spec fn shift_opcode(shift: ShiftType) -> Opcode {
    match shift {
        ShiftType::LSL => Opcode::LogicalShiftLeft32,
        ShiftType::LSR => Opcode::LogicalShiftRight32,
        ShiftType::ASR => Opcode::ArithmeticShiftRight32,
        ShiftType::ROR => Opcode::BitRotateRight32,
    }
}

/// A value shifted by a constant, and the carry of the shift. An amount of
/// zero means no shift to the left, 32 places to the right, and a rotation
/// through the carry.
pub open spec fn imm_shift_ir(
    s: EmitterState,
    value: Value,
    shift: ShiftType,
    imm5: u32,
    carry_in: Value,
) -> (EmitterState, (Value, Value)) {
    if shift == ShiftType::LSL && imm5 == 0 {
        (s, (value, carry_in))
    } else {
        let (s, result) = if shift == ShiftType::ROR && imm5 == 0 {
            s.op2(Opcode::RotateRightExtended, value, carry_in)
        } else {
            let amount: u8 = if imm5 == 0 { 32 } else { imm5 as u8 };
            s.op3(shift_opcode(shift), value, Value::ImmU8(amount), carry_in)
        };
        let (s, carry) = s.op1(Opcode::GetCarryFromOp, result);
        (s, (result, carry))
    }
}

/// Shifts a value by a constant; gives the result and the carry.
pub fn emit_imm_shift(
    ir: &mut A32IREmitter,
    value: Value,
    shift_type: ShiftType,
    imm5: u32,
    carry_in: Value,
) -> (r: (Value, Value))
    ensures
        (final(ir)@, r) == imm_shift_ir(old(ir)@, value, shift_type, imm5, carry_in),
{
    #[verifier::truncate]
    let amount: u8 = if imm5 == 0 { 32u8 } else { imm5 as u8 };
    let result = match shift_type {
        ShiftType::LSL => {
            if imm5 == 0 {
                return (value, carry_in);
            }
            ir.logical_shift_left_32(value, Value::ImmU8(amount), carry_in)
        },
        ShiftType::LSR => ir.logical_shift_right_32(value, Value::ImmU8(amount), carry_in),
        ShiftType::ASR => ir.arithmetic_shift_right_32(value, Value::ImmU8(amount), carry_in),
        ShiftType::ROR => if imm5 == 0 {
            ir.rotate_right_extended(value, carry_in)
        } else {
            ir.rotate_right_32(value, Value::ImmU8(amount), carry_in)
        },
    };
    let carry = ir.get_carry_from_op(result);
    (result, carry)
}

/// A value shifted by another, and the carry of the shift.
pub open spec fn reg_shift_ir(
    s: EmitterState,
    value: Value,
    shift: ShiftType,
    amount: Value,
    carry_in: Value,
) -> (EmitterState, (Value, Value)) {
    let (s, result) = s.op3(shift_opcode(shift), value, amount, carry_in);
    let (s, carry) = s.op1(Opcode::GetCarryFromOp, result);
    (s, (result, carry))
}

/// Shifts a value by another; gives the result and the carry.
pub fn emit_reg_shift(
    ir: &mut A32IREmitter,
    value: Value,
    shift_type: ShiftType,
    amount: Value,
    carry_in: Value,
) -> (r: (Value, Value))
    ensures
        (final(ir)@, r) == reg_shift_ir(old(ir)@, value, shift_type, amount, carry_in),
{
    let result = match shift_type {
        ShiftType::LSL => ir.logical_shift_left_32(value, amount, carry_in),
        ShiftType::LSR => ir.logical_shift_right_32(value, amount, carry_in),
        ShiftType::ASR => ir.arithmetic_shift_right_32(value, amount, carry_in),
        ShiftType::ROR => ir.rotate_right_32(value, amount, carry_in),
    };
    let carry = ir.get_carry_from_op(result);
    (result, carry)
}

/// A base plus (`u`) or minus an offset.
pub open spec fn offset_ir(s: EmitterState, u: bool, base: Value, offset: Value) -> (
    EmitterState,
    Value,
) {
    if u {
        s.op3(Opcode::Add32, base, offset, Value::ImmU1(false))
    } else {
        s.op3(Opcode::Sub32, base, offset, Value::ImmU1(true))
    }
}

/// The address of a load or store: the base register moved by the offset
/// (`p`) or unmoved. The base register is written with the moved address
/// unless `p` is set without `w`.
pub open spec fn address_ir(
    s: EmitterState,
    p: bool,
    u: bool,
    w: bool,
    base_reg: Reg,
    offset: Value,
) -> (EmitterState, Value) {
    let (s, base) = s.get_register(base_reg);
    let (s, moved) = offset_ir(s, u, base, offset);
    let s = if !p || w {
        s.set_register(base_reg, moved)
    } else {
        s
    };
    (s, if p { moved } else { base })
}

/// Computes a base plus (`u`) or minus an offset.
pub fn emit_offset(ir: &mut A32IREmitter, u: bool, base: Value, offset: Value) -> (r: Value)
    ensures
        (final(ir)@, r) == offset_ir(old(ir)@, u, base, offset),
{
    if u {
        ir.add_32(base, offset, Value::ImmU1(false))
    } else {
        ir.sub_32(base, offset, Value::ImmU1(true))
    }
}

/// Computes the address of a load or store and writes the base register back
/// if asked to.
pub fn get_address(
    ir: &mut A32IREmitter,
    p: bool,
    u: bool,
    w: bool,
    base_reg: Reg,
    offset: Value,
) -> (r: Value)
    ensures
        (final(ir)@, r) == address_ir(old(ir)@, p, u, w, base_reg, offset),
{
    let base = ir.get_register(base_reg);
    let moved = emit_offset(ir, u, base, offset);
    if !p || w {
        ir.set_register(base_reg, moved);
    }
    if p {
        moved
    } else {
        base
    }
}

/// The width of a memory access.
pub enum Width {
    Byte,
    Half,
    Word,
}

/// The part of a word that an access of the given width writes.
pub open spec fn narrow_ir(s: EmitterState, width: Width, value: Value) -> (EmitterState, Value) {
    match width {
        Width::Byte => s.op1(Opcode::LeastSignificantByte, value),
        Width::Half => s.op1(Opcode::LeastSignificantHalf, value),
        Width::Word => (s, value),
    }
}

/// The word that a value read with the given width stands for, with or
/// without its sign.
pub open spec fn widen_ir(s: EmitterState, width: Width, signed: bool, value: Value) -> (
    EmitterState,
    Value,
) {
    match width {
        Width::Byte => if signed {
            s.op1(Opcode::SignExtendByteToWord, value)
        } else {
            s.op1(Opcode::ZeroExtendByteToWord, value)
        },
        Width::Half => if signed {
            s.op1(Opcode::SignExtendHalfToWord, value)
        } else {
            s.op1(Opcode::ZeroExtendHalfToWord, value)
        },
        Width::Word => (s, value),
    }
}

/// A read of memory.
pub open spec fn read_ir(s: EmitterState, width: Width, address: Value, acc: AccType) -> (
    EmitterState,
    Value,
) {
    match width {
        Width::Byte => s.read_memory_8(address, acc),
        Width::Half => s.read_memory_16(address, acc),
        Width::Word => s.read_memory_32(address, acc),
    }
}

/// A write of memory.
pub open spec fn write_ir(
    s: EmitterState,
    width: Width,
    address: Value,
    value: Value,
    acc: AccType,
) -> EmitterState {
    match width {
        Width::Byte => s.write_memory_8(address, value, acc),
        Width::Half => s.write_memory_16(address, value, acc),
        Width::Word => s.write_memory_32(address, value, acc),
    }
}

} // verus!
