//! 16-bit Thumb instructions.

use vstd::prelude::*;
use super::helpers::{emit_imm_shift, imm_shift_ir, narrow_ir, read_ir, widen_ir, write_ir, Width};
use super::{
    raise_exception_with_instruction_size, raise_ir, unpredictable_instruction, unpredictable_ir,
    TranslationOptions,
};
use crate::frontend::a32::decoder_thumb16::{DecodedThumb16, Thumb16InstId};
use crate::frontend::a32::it_state::ITState;
use crate::frontend::a32::types::{reg, Exception, Reg, ShiftType};
use crate::ir::a32_emitter::{A32IREmitter, EmitterState};
use crate::ir::acc_type::AccType;
use crate::ir::cond::{cond_code, Cond};
use crate::ir::location::A32LocationDescriptor;
use crate::ir::opcode::Opcode;
use crate::ir::terminal::{halt_or, Terminal};
use crate::ir::value::Value;

verus! {

broadcast use {crate::bits::and_le_mask, crate::bits::and_le_mask_u16};

/// Setting all four flags from a result.
pub open spec fn set_nzcv_ir(s: EmitterState, result: Value) -> EmitterState {
    let (s, nzcv) = s.op1(Opcode::GetNZCVFromOp, result);
    s.op1(Opcode::A32SetCpsrNZCV, nzcv).0
}

/// Setting the sign and zero flags from a result.
pub open spec fn set_nz_ir(s: EmitterState, result: Value) -> EmitterState {
    let (s, nzcv) = s.op1(Opcode::GetNZCVFromOp, result);
    s.op1(Opcode::A32SetCpsrNZ, nzcv).0
}

/// A hint: an exception if hints are hooked, else nothing.
pub open spec fn thumb16_hint_ir(
    s: EmitterState,
    options: TranslationOptions,
    exception: Exception,
) -> (EmitterState, bool) {
    if options.hook_hint_instructions {
        raise_ir(s, exception, 2)
    } else {
        (s, true)
    }
}

fn thumb16_hint(ir: &mut A32IREmitter, options: TranslationOptions, exception: Exception) -> (r:
    bool)
    ensures
        (final(ir)@, r) == thumb16_hint_ir(old(ir)@, options, exception),
{
    if !options.hook_hint_instructions {
        return true;
    }
    raise_exception_with_instruction_size(ir, exception, 2)
}

/// A shift of a register by a constant.
pub open spec fn thumb16_shift_imm_ir(s: EmitterState, inst: DecodedThumb16, shift: ShiftType) -> (
    EmitterState,
    bool,
) {
    let (s, c) = s.op0(Opcode::A32GetCFlag);
    let (s, m) = s.get_register(inst.rn_lo());
    let (s, (result, carry)) = imm_shift_ir(s, m, shift, inst.imm5(), c);
    let (s, nzcv) = s.op1(Opcode::GetNZCVFromOp, result);
    let s = s.op2(Opcode::A32SetCpsrNZC, nzcv, carry).0;
    (s.set_register(inst.rd_lo(), result), true)
}

/// A shift of a register by the low byte of another.
pub open spec fn thumb16_shift_reg_ir(s: EmitterState, inst: DecodedThumb16, shift: Opcode) -> (
    EmitterState,
    bool,
) {
    let (s, c) = s.op0(Opcode::A32GetCFlag);
    let (s, n) = s.get_register(inst.rd_lo());
    let (s, m) = s.get_register(inst.rn_lo());
    let (s, amount) = s.op1(Opcode::LeastSignificantByte, m);
    let (s, result) = s.op3(shift, n, amount, c);
    let (s, nzcv) = s.op1(Opcode::GetNZCVFromOp, result);
    let (s, carry) = s.op1(Opcode::GetCarryFromOp, result);
    let s = s.op2(Opcode::A32SetCpsrNZC, nzcv, carry).0;
    (s.set_register(inst.rd_lo(), result), true)
}

/// A sum (`Add32`) or difference (`Sub32`) that sets the flags and, if there
/// is one, the destination.
pub open spec fn thumb16_arith_ir(
    s: EmitterState,
    rd: Option<Reg>,
    operation: Opcode,
    a: Value,
    b: Value,
    carry: Value,
) -> (EmitterState, bool) {
    let (s, result) = s.op3(operation, a, b, carry);
    let s = set_nzcv_ir(s, result);
    (
        match rd {
            Some(rd) => s.set_register(rd, result),
            None => s,
        },
        true,
    )
}

/// A sum or difference of two registers.
pub open spec fn thumb16_arith_reg_ir(
    s: EmitterState,
    rd: Option<Reg>,
    operation: Opcode,
    rn: Reg,
    rm: Reg,
) -> (EmitterState, bool) {
    let (s, n) = s.get_register(rn);
    let (s, m) = s.get_register(rm);
    thumb16_arith_ir(s, rd, operation, n, m, Value::ImmU1(operation == Opcode::Sub32))
}

/// A sum or difference of a register and an immediate.
pub open spec fn thumb16_arith_imm_ir(
    s: EmitterState,
    rd: Option<Reg>,
    operation: Opcode,
    rn: Reg,
    imm: u32,
) -> (EmitterState, bool) {
    let (s, n) = s.get_register(rn);
    thumb16_arith_ir(
        s,
        rd,
        operation,
        n,
        Value::ImmU32(imm),
        Value::ImmU1(operation == Opcode::Sub32),
    )
}

/// A sum or difference of two registers and the carry flag.
pub open spec fn thumb16_arith_carry_ir(
    s: EmitterState,
    inst: DecodedThumb16,
    operation: Opcode,
) -> (
    EmitterState,
    bool,
) {
    let (s, c) = s.op0(Opcode::A32GetCFlag);
    let (s, n) = s.get_register(inst.rd_lo());
    let (s, m) = s.get_register(inst.rn_lo());
    thumb16_arith_ir(s, Some(inst.rd_lo()), operation, n, m, c)
}

/// A logical operation or product of two registers, which sets the sign and
/// zero flags and the first register.
pub open spec fn thumb16_logic_ir(s: EmitterState, inst: DecodedThumb16, operation: Opcode) -> (
    EmitterState,
    bool,
) {
    let (s, n) = s.get_register(inst.rd_lo());
    let (s, m) = s.get_register(inst.rn_lo());
    let (s, result) = s.op2(operation, n, m);
    (set_nz_ir(s, result).set_register(inst.rd_lo(), result), true)
}

/// Translates a left shift by a constant.
fn thumb16_lsl_imm(ir: &mut A32IREmitter, inst: &DecodedThumb16) -> (r: bool)
    ensures
        (final(ir)@, r) == thumb16_shift_imm_ir(old(ir)@, *inst, ShiftType::LSL),
{
    let rd = inst.rd_lo();
    let rm = inst.rn_lo();
    let imm5: u32 = inst.imm5();
    let carry_in = ir.get_c_flag();
    let rm_val = ir.get_register(rm);
    let (result, carry) = emit_imm_shift(ir, rm_val, ShiftType::LSL, imm5, carry_in);
    let nzcv = ir.get_nzcv_from_op(result);
    ir.set_cpsr_nzc(nzcv, carry);
    ir.set_register(rd, result);
    true
}

/// Translates a logical right shift by a constant.
fn thumb16_lsr_imm(ir: &mut A32IREmitter, inst: &DecodedThumb16) -> (r: bool)
    ensures
        (final(ir)@, r) == thumb16_shift_imm_ir(old(ir)@, *inst, ShiftType::LSR),
{
    let rd = inst.rd_lo();
    let rm = inst.rn_lo();
    let imm5: u32 = inst.imm5();
    let carry_in = ir.get_c_flag();
    let rm_val = ir.get_register(rm);
    let (result, carry) = emit_imm_shift(ir, rm_val, ShiftType::LSR, imm5, carry_in);
    let nzcv = ir.get_nzcv_from_op(result);
    ir.set_cpsr_nzc(nzcv, carry);
    ir.set_register(rd, result);
    true
}

/// Translates an arithmetic right shift by a constant.
fn thumb16_asr_imm(ir: &mut A32IREmitter, inst: &DecodedThumb16) -> (r: bool)
    ensures
        (final(ir)@, r) == thumb16_shift_imm_ir(old(ir)@, *inst, ShiftType::ASR),
{
    let rd = inst.rd_lo();
    let rm = inst.rn_lo();
    let imm5: u32 = inst.imm5();
    let carry_in = ir.get_c_flag();
    let rm_val = ir.get_register(rm);
    let (result, carry) = emit_imm_shift(ir, rm_val, ShiftType::ASR, imm5, carry_in);
    let nzcv = ir.get_nzcv_from_op(result);
    ir.set_cpsr_nzc(nzcv, carry);
    ir.set_register(rd, result);
    true
}

/// Translates a sum of registers.
fn thumb16_add_reg(ir: &mut A32IREmitter, inst: &DecodedThumb16) -> (r: bool)
    ensures
        (final(ir)@, r) == thumb16_arith_reg_ir(
            old(ir)@,
            Some(inst.rd_lo()),
            Opcode::Add32,
            inst.rn_lo(),
            inst.rm_lo(),
        ),
{
    let rd = inst.rd_lo();
    let rn_val = ir.get_register(inst.rn_lo());
    let rm_val = ir.get_register(inst.rm_lo());
    let result = ir.add_32(rn_val, rm_val, Value::ImmU1(false));
    let nzcv = ir.get_nzcv_from_op(result);
    ir.set_cpsr_nzcv(nzcv);
    ir.set_register(rd, result);
    true
}

/// Translates a difference of registers.
fn thumb16_sub_reg(ir: &mut A32IREmitter, inst: &DecodedThumb16) -> (r: bool)
    ensures
        (final(ir)@, r) == thumb16_arith_reg_ir(
            old(ir)@,
            Some(inst.rd_lo()),
            Opcode::Sub32,
            inst.rn_lo(),
            inst.rm_lo(),
        ),
{
    let rd = inst.rd_lo();
    let rn_val = ir.get_register(inst.rn_lo());
    let rm_val = ir.get_register(inst.rm_lo());
    let result = ir.sub_32(rn_val, rm_val, Value::ImmU1(true));
    let nzcv = ir.get_nzcv_from_op(result);
    ir.set_cpsr_nzcv(nzcv);
    ir.set_register(rd, result);
    true
}

/// Translates a sum of a register and an immediate.
fn thumb16_add_imm3(ir: &mut A32IREmitter, inst: &DecodedThumb16) -> (r: bool)
    ensures
        (final(ir)@, r) == thumb16_arith_imm_ir(
            old(ir)@,
            Some(inst.rd_lo()),
            Opcode::Add32,
            inst.rn_lo(),
            inst.imm3(),
        ),
{
    let rd = inst.rd_lo();
    let rn_val = ir.get_register(inst.rn_lo());
    let result = ir.add_32(rn_val, Value::ImmU32(inst.imm3()), Value::ImmU1(false));
    let nzcv = ir.get_nzcv_from_op(result);
    ir.set_cpsr_nzcv(nzcv);
    ir.set_register(rd, result);
    true
}

/// Translates a difference of a register and an immediate.
fn thumb16_sub_imm3(ir: &mut A32IREmitter, inst: &DecodedThumb16) -> (r: bool)
    ensures
        (final(ir)@, r) == thumb16_arith_imm_ir(
            old(ir)@,
            Some(inst.rd_lo()),
            Opcode::Sub32,
            inst.rn_lo(),
            inst.imm3(),
        ),
{
    let rd = inst.rd_lo();
    let rn_val = ir.get_register(inst.rn_lo());
    let result = ir.sub_32(rn_val, Value::ImmU32(inst.imm3()), Value::ImmU1(true));
    let nzcv = ir.get_nzcv_from_op(result);
    ir.set_cpsr_nzcv(nzcv);
    ir.set_register(rd, result);
    true
}

/// Translates a sum of a register and an immediate.
fn thumb16_add_imm8(ir: &mut A32IREmitter, inst: &DecodedThumb16) -> (r: bool)
    ensures
        (final(ir)@, r) == thumb16_arith_imm_ir(
            old(ir)@,
            Some(inst.rt_hi()),
            Opcode::Add32,
            inst.rt_hi(),
            inst.imm8(),
        ),
{
    let rd = inst.rt_hi();
    let rn_val = ir.get_register(inst.rt_hi());
    let result = ir.add_32(rn_val, Value::ImmU32(inst.imm8()), Value::ImmU1(false));
    let nzcv = ir.get_nzcv_from_op(result);
    ir.set_cpsr_nzcv(nzcv);
    ir.set_register(rd, result);
    true
}

/// Translates a difference of a register and an immediate.
fn thumb16_sub_imm8(ir: &mut A32IREmitter, inst: &DecodedThumb16) -> (r: bool)
    ensures
        (final(ir)@, r) == thumb16_arith_imm_ir(
            old(ir)@,
            Some(inst.rt_hi()),
            Opcode::Sub32,
            inst.rt_hi(),
            inst.imm8(),
        ),
{
    let rd = inst.rt_hi();
    let rn_val = ir.get_register(inst.rt_hi());
    let result = ir.sub_32(rn_val, Value::ImmU32(inst.imm8()), Value::ImmU1(true));
    let nzcv = ir.get_nzcv_from_op(result);
    ir.set_cpsr_nzcv(nzcv);
    ir.set_register(rd, result);
    true
}

/// A move of an immediate, which sets the sign and zero flags.
pub open spec fn thumb16_mov_imm_ir(s: EmitterState, inst: DecodedThumb16) -> (EmitterState, bool) {
    let imm = Value::ImmU32(inst.imm8());
    let (s, sum) = s.op3(Opcode::Add32, imm, Value::ImmU32(0), Value::ImmU1(false));
    (set_nz_ir(s, sum).set_register(inst.rt_hi(), imm), true)
}

/// Translates a move of an immediate.
fn thumb16_mov_imm(ir: &mut A32IREmitter, inst: &DecodedThumb16) -> (r: bool)
    ensures
        (final(ir)@, r) == thumb16_mov_imm_ir(old(ir)@, *inst),
{
    let rd = inst.rt_hi();
    let imm = Value::ImmU32(inst.imm8());
    let result = ir.add_32(imm, Value::ImmU32(0), Value::ImmU1(false));
    let nzcv = ir.get_nzcv_from_op(result);
    ir.set_cpsr_nz(nzcv);
    ir.set_register(rd, imm);
    true
}

/// Translates a comparison with an immediate.
fn thumb16_cmp_imm(ir: &mut A32IREmitter, inst: &DecodedThumb16) -> (r: bool)
    ensures
        (final(ir)@, r) == thumb16_arith_imm_ir(
            old(ir)@,
            None,
            Opcode::Sub32,
            inst.rt_hi(),
            inst.imm8(),
        ),
{
    let rn_val = ir.get_register(inst.rt_hi());
    let result = ir.sub_32(rn_val, Value::ImmU32(inst.imm8()), Value::ImmU1(true));
    let nzcv = ir.get_nzcv_from_op(result);
    ir.set_cpsr_nzcv(nzcv);
    true
}

/// Translates a bitwise and.
fn thumb16_and_reg(ir: &mut A32IREmitter, inst: &DecodedThumb16) -> (r: bool)
    ensures
        (final(ir)@, r) == thumb16_logic_ir(old(ir)@, *inst, Opcode::And32),
{
    let rdn = inst.rd_lo();
    let rdn_val = ir.get_register(rdn);
    let rm_val = ir.get_register(inst.rn_lo());
    let result = ir.and_32(rdn_val, rm_val);
    let nzcv = ir.get_nzcv_from_op(result);
    ir.set_cpsr_nz(nzcv);
    ir.set_register(rdn, result);
    true
}

/// Translates a bitwise exclusive or.
fn thumb16_eor_reg(ir: &mut A32IREmitter, inst: &DecodedThumb16) -> (r: bool)
    ensures
        (final(ir)@, r) == thumb16_logic_ir(old(ir)@, *inst, Opcode::Eor32),
{
    let rdn = inst.rd_lo();
    let rdn_val = ir.get_register(rdn);
    let rm_val = ir.get_register(inst.rn_lo());
    let result = ir.eor_32(rdn_val, rm_val);
    let nzcv = ir.get_nzcv_from_op(result);
    ir.set_cpsr_nz(nzcv);
    ir.set_register(rdn, result);
    true
}

/// Translates a bitwise or.
fn thumb16_orr_reg(ir: &mut A32IREmitter, inst: &DecodedThumb16) -> (r: bool)
    ensures
        (final(ir)@, r) == thumb16_logic_ir(old(ir)@, *inst, Opcode::Or32),
{
    let rdn = inst.rd_lo();
    let rdn_val = ir.get_register(rdn);
    let rm_val = ir.get_register(inst.rn_lo());
    let result = ir.or_32(rdn_val, rm_val);
    let nzcv = ir.get_nzcv_from_op(result);
    ir.set_cpsr_nz(nzcv);
    ir.set_register(rdn, result);
    true
}

/// Translates a product.
fn thumb16_mul_reg(ir: &mut A32IREmitter, inst: &DecodedThumb16) -> (r: bool)
    ensures
        (final(ir)@, r) == thumb16_logic_ir(old(ir)@, *inst, Opcode::Mul32),
{
    let rdn = inst.rd_lo();
    let rdn_val = ir.get_register(rdn);
    let rm_val = ir.get_register(inst.rn_lo());
    let result = ir.mul_32(rdn_val, rm_val);
    let nzcv = ir.get_nzcv_from_op(result);
    ir.set_cpsr_nz(nzcv);
    ir.set_register(rdn, result);
    true
}

/// Translates a left shift by a register.
fn thumb16_lsl_reg(ir: &mut A32IREmitter, inst: &DecodedThumb16) -> (r: bool)
    ensures
        (final(ir)@, r) == thumb16_shift_reg_ir(old(ir)@, *inst, Opcode::LogicalShiftLeft32),
{
    let rdn = inst.rd_lo();
    let carry_in = ir.get_c_flag();
    let rdn_val = ir.get_register(rdn);
    let rm_val = ir.get_register(inst.rn_lo());
    let amount = ir.least_significant_byte(rm_val);
    let result = ir.logical_shift_left_32(rdn_val, amount, carry_in);
    let nzcv = ir.get_nzcv_from_op(result);
    let carry = ir.get_carry_from_op(result);
    ir.set_cpsr_nzc(nzcv, carry);
    ir.set_register(rdn, result);
    true
}

/// Translates a logical right shift by a register.
fn thumb16_lsr_reg(ir: &mut A32IREmitter, inst: &DecodedThumb16) -> (r: bool)
    ensures
        (final(ir)@, r) == thumb16_shift_reg_ir(old(ir)@, *inst, Opcode::LogicalShiftRight32),
{
    let rdn = inst.rd_lo();
    let carry_in = ir.get_c_flag();
    let rdn_val = ir.get_register(rdn);
    let rm_val = ir.get_register(inst.rn_lo());
    let amount = ir.least_significant_byte(rm_val);
    let result = ir.logical_shift_right_32(rdn_val, amount, carry_in);
    let nzcv = ir.get_nzcv_from_op(result);
    let carry = ir.get_carry_from_op(result);
    ir.set_cpsr_nzc(nzcv, carry);
    ir.set_register(rdn, result);
    true
}

/// Translates an arithmetic right shift by a register.
fn thumb16_asr_reg(ir: &mut A32IREmitter, inst: &DecodedThumb16) -> (r: bool)
    ensures
        (final(ir)@, r) == thumb16_shift_reg_ir(old(ir)@, *inst, Opcode::ArithmeticShiftRight32),
{
    let rdn = inst.rd_lo();
    let carry_in = ir.get_c_flag();
    let rdn_val = ir.get_register(rdn);
    let rm_val = ir.get_register(inst.rn_lo());
    let amount = ir.least_significant_byte(rm_val);
    let result = ir.arithmetic_shift_right_32(rdn_val, amount, carry_in);
    let nzcv = ir.get_nzcv_from_op(result);
    let carry = ir.get_carry_from_op(result);
    ir.set_cpsr_nzc(nzcv, carry);
    ir.set_register(rdn, result);
    true
}

/// Translates a rotation by a register.
fn thumb16_ror_reg(ir: &mut A32IREmitter, inst: &DecodedThumb16) -> (r: bool)
    ensures
        (final(ir)@, r) == thumb16_shift_reg_ir(old(ir)@, *inst, Opcode::BitRotateRight32),
{
    let rdn = inst.rd_lo();
    let carry_in = ir.get_c_flag();
    let rdn_val = ir.get_register(rdn);
    let rm_val = ir.get_register(inst.rn_lo());
    let amount = ir.least_significant_byte(rm_val);
    let result = ir.rotate_right_32(rdn_val, amount, carry_in);
    let nzcv = ir.get_nzcv_from_op(result);
    let carry = ir.get_carry_from_op(result);
    ir.set_cpsr_nzc(nzcv, carry);
    ir.set_register(rdn, result);
    true
}

/// Translates a sum with carry.
fn thumb16_adc_reg(ir: &mut A32IREmitter, inst: &DecodedThumb16) -> (r: bool)
    ensures
        (final(ir)@, r) == thumb16_arith_carry_ir(old(ir)@, *inst, Opcode::Add32),
{
    let rdn = inst.rd_lo();
    let c = ir.get_c_flag();
    let rdn_val = ir.get_register(rdn);
    let rm_val = ir.get_register(inst.rn_lo());
    let result = ir.add_32(rdn_val, rm_val, c);
    let nzcv = ir.get_nzcv_from_op(result);
    ir.set_cpsr_nzcv(nzcv);
    ir.set_register(rdn, result);
    true
}

/// Translates a difference with carry.
fn thumb16_sbc_reg(ir: &mut A32IREmitter, inst: &DecodedThumb16) -> (r: bool)
    ensures
        (final(ir)@, r) == thumb16_arith_carry_ir(old(ir)@, *inst, Opcode::Sub32),
{
    let rdn = inst.rd_lo();
    let c = ir.get_c_flag();
    let rdn_val = ir.get_register(rdn);
    let rm_val = ir.get_register(inst.rn_lo());
    let result = ir.sub_32(rdn_val, rm_val, c);
    let nzcv = ir.get_nzcv_from_op(result);
    ir.set_cpsr_nzcv(nzcv);
    ir.set_register(rdn, result);
    true
}

/// A test of common bits.
pub open spec fn thumb16_tst_reg_ir(s: EmitterState, inst: DecodedThumb16) -> (EmitterState, bool) {
    let (s, n) = s.get_register(inst.rd_lo());
    let (s, m) = s.get_register(inst.rn_lo());
    let (s, result) = s.op2(Opcode::And32, n, m);
    (set_nz_ir(s, result), true)
}

/// Translates a test of common bits.
fn thumb16_tst_reg(ir: &mut A32IREmitter, inst: &DecodedThumb16) -> (r: bool)
    ensures
        (final(ir)@, r) == thumb16_tst_reg_ir(old(ir)@, *inst),
{
    let rn_val = ir.get_register(inst.rd_lo());
    let rm_val = ir.get_register(inst.rn_lo());
    let result = ir.and_32(rn_val, rm_val);
    let nzcv = ir.get_nzcv_from_op(result);
    ir.set_cpsr_nz(nzcv);
    true
}

/// The negative of a register.
pub open spec fn thumb16_rsb_imm_ir(s: EmitterState, inst: DecodedThumb16) -> (EmitterState, bool) {
    let (s, n) = s.get_register(inst.rn_lo());
    thumb16_arith_ir(
        s,
        Some(inst.rd_lo()),
        Opcode::Sub32,
        Value::ImmU32(0),
        n,
        Value::ImmU1(true),
    )
}

/// Translates the negative of a register.
fn thumb16_rsb_imm(ir: &mut A32IREmitter, inst: &DecodedThumb16) -> (r: bool)
    ensures
        (final(ir)@, r) == thumb16_rsb_imm_ir(old(ir)@, *inst),
{
    let rd = inst.rd_lo();
    let rn_val = ir.get_register(inst.rn_lo());
    let result = ir.sub_32(Value::ImmU32(0), rn_val, Value::ImmU1(true));
    let nzcv = ir.get_nzcv_from_op(result);
    ir.set_cpsr_nzcv(nzcv);
    ir.set_register(rd, result);
    true
}

/// Translates a comparison of low registers.
fn thumb16_cmp_reg(ir: &mut A32IREmitter, inst: &DecodedThumb16) -> (r: bool)
    ensures
        (final(ir)@, r) == thumb16_arith_reg_ir(
            old(ir)@,
            None,
            Opcode::Sub32,
            inst.rd_lo(),
            inst.rn_lo(),
        ),
{
    let rn_val = ir.get_register(inst.rd_lo());
    let rm_val = ir.get_register(inst.rn_lo());
    let result = ir.sub_32(rn_val, rm_val, Value::ImmU1(true));
    let nzcv = ir.get_nzcv_from_op(result);
    ir.set_cpsr_nzcv(nzcv);
    true
}

/// Translates a comparison with a negative.
fn thumb16_cmn_reg(ir: &mut A32IREmitter, inst: &DecodedThumb16) -> (r: bool)
    ensures
        (final(ir)@, r) == thumb16_arith_reg_ir(
            old(ir)@,
            None,
            Opcode::Add32,
            inst.rd_lo(),
            inst.rn_lo(),
        ),
{
    let rn_val = ir.get_register(inst.rd_lo());
    let rm_val = ir.get_register(inst.rn_lo());
    let result = ir.add_32(rn_val, rm_val, Value::ImmU1(false));
    let nzcv = ir.get_nzcv_from_op(result);
    ir.set_cpsr_nzcv(nzcv);
    true
}

/// Translates a comparison of any registers.
fn thumb16_cmp_reg_t2(ir: &mut A32IREmitter, inst: &DecodedThumb16) -> (r: bool)
    ensures
        (final(ir)@, r) == thumb16_arith_reg_ir(
            old(ir)@,
            None,
            Opcode::Sub32,
            inst.rn_dn(),
            inst.rm_hi(),
        ),
{
    let rn_val = ir.get_register(inst.rn_dn());
    let rm_val = ir.get_register(inst.rm_hi());
    let result = ir.sub_32(rn_val, rm_val, Value::ImmU1(true));
    let nzcv = ir.get_nzcv_from_op(result);
    ir.set_cpsr_nzcv(nzcv);
    true
}

/// A clearing of bits.
pub open spec fn thumb16_bic_reg_ir(s: EmitterState, inst: DecodedThumb16) -> (EmitterState, bool) {
    let (s, n) = s.get_register(inst.rd_lo());
    let (s, m) = s.get_register(inst.rn_lo());
    let (s, complement) = s.op1(Opcode::Not32, m);
    let (s, result) = s.op2(Opcode::And32, n, complement);
    (set_nz_ir(s, result).set_register(inst.rd_lo(), result), true)
}

/// Translates a clearing of bits.
fn thumb16_bic_reg(ir: &mut A32IREmitter, inst: &DecodedThumb16) -> (r: bool)
    ensures
        (final(ir)@, r) == thumb16_bic_reg_ir(old(ir)@, *inst),
{
    let rdn = inst.rd_lo();
    let rdn_val = ir.get_register(rdn);
    let rm_val = ir.get_register(inst.rn_lo());
    let not_rm = ir.not_32(rm_val);
    let result = ir.and_32(rdn_val, not_rm);
    let nzcv = ir.get_nzcv_from_op(result);
    ir.set_cpsr_nz(nzcv);
    ir.set_register(rdn, result);
    true
}

/// The complement of a register.
pub open spec fn thumb16_mvn_reg_ir(s: EmitterState, inst: DecodedThumb16) -> (EmitterState, bool) {
    let (s, m) = s.get_register(inst.rn_lo());
    let (s, result) = s.op1(Opcode::Not32, m);
    (set_nz_ir(s, result).set_register(inst.rd_lo(), result), true)
}

/// Translates the complement of a register.
fn thumb16_mvn_reg(ir: &mut A32IREmitter, inst: &DecodedThumb16) -> (r: bool)
    ensures
        (final(ir)@, r) == thumb16_mvn_reg_ir(old(ir)@, *inst),
{
    let rd = inst.rd_lo();
    let rm_val = ir.get_register(inst.rn_lo());
    let result = ir.not_32(rm_val);
    let nzcv = ir.get_nzcv_from_op(result);
    ir.set_cpsr_nz(nzcv);
    ir.set_register(rd, result);
    true
}

/// Writing any register. A write of the program counter is a branch.
pub open spec fn thumb16_write_ir(s: EmitterState, rd: Reg, value: Value) -> (EmitterState, bool) {
    if rd == Reg::R15 {
        (
            s.update_upper_location_descriptor().branch_write_pc(value).end(
                Terminal::FastDispatchHint,
            ),
            false,
        )
    } else {
        (s.set_register(rd, value), true)
    }
}

/// A sum of any two registers.
pub open spec fn thumb16_add_reg_t2_ir(s: EmitterState, inst: DecodedThumb16) -> (
    EmitterState,
    bool,
) {
    let (s, n) = s.get_register(inst.rd_dn());
    let (s, m) = s.get_register(inst.rm_hi());
    let (s, result) = s.op3(Opcode::Add32, n, m, Value::ImmU1(false));
    thumb16_write_ir(s, inst.rd_dn(), result)
}

/// Translates a sum of any two registers.
fn thumb16_add_reg_t2(ir: &mut A32IREmitter, inst: &DecodedThumb16) -> (r: bool)
    ensures
        (final(ir)@, r) == thumb16_add_reg_t2_ir(old(ir)@, *inst),
{
    let rdn = inst.rd_dn();
    let rdn_val = ir.get_register(rdn);
    let rm_val = ir.get_register(inst.rm_hi());
    let result = ir.add_32(rdn_val, rm_val, Value::ImmU1(false));
    if rdn == Reg::R15 {
        ir.update_upper_location_descriptor();
        ir.alu_write_pc(result);
        ir.set_term(Terminal::FastDispatchHint);
        return false;
    }
    ir.set_register(rdn, result);
    true
}

/// A move between any two registers.
pub open spec fn thumb16_mov_reg_ir(s: EmitterState, inst: DecodedThumb16) -> (EmitterState, bool) {
    let (s, value) = s.get_register(inst.rm_hi());
    thumb16_write_ir(s, inst.rd_dn(), value)
}

/// Translates a move between any two registers.
fn thumb16_mov_reg(ir: &mut A32IREmitter, inst: &DecodedThumb16) -> (r: bool)
    ensures
        (final(ir)@, r) == thumb16_mov_reg_ir(old(ir)@, *inst),
{
    let rd = inst.rd_dn();
    let value = ir.get_register(inst.rm_hi());
    if rd == Reg::R15 {
        ir.update_upper_location_descriptor();
        ir.alu_write_pc(value);
        ir.set_term(Terminal::FastDispatchHint);
        return false;
    }
    ir.set_register(rd, value);
    true
}

/// A branch to a register, which also selects the instruction set. A branch to
/// the link register is predicted as a return.
pub open spec fn thumb16_bx_ir(s: EmitterState, rm: Reg) -> (EmitterState, bool) {
    let (s, target) = s.get_register(rm);
    let s = s.update_upper_location_descriptor().op1(Opcode::A32BXWritePC, target).0;
    (
        s.end(
            if rm == Reg::R14 {
                Terminal::PopRSBHint
            } else {
                Terminal::FastDispatchHint
            },
        ),
        false,
    )
}

/// Translates a branch to a register.
pub fn thumb16_bx(ir: &mut A32IREmitter, rm: Reg) -> (r: bool)
    ensures
        (final(ir)@, r) == thumb16_bx_ir(old(ir)@, rm),
{
    let target = ir.get_register(rm);
    ir.update_upper_location_descriptor();
    ir.bx_write_pc(target);
    if rm == Reg::R14 {
        ir.set_term(Terminal::PopRSBHint);
    } else {
        ir.set_term(Terminal::FastDispatchHint);
    }
    false
}

/// A branch with link to a register. The target is read before the link
/// register is written.
pub open spec fn thumb16_blx_reg_ir(s: EmitterState, inst: DecodedThumb16) -> (EmitterState, bool) {
    let (s, target) = s.get_register(inst.rm_hi());
    let s = s.push_rsb(s.loc.advance_pc(2).advance_it().to_location());
    let s = s.update_upper_location_descriptor().op1(Opcode::A32BXWritePC, target).0;
    let s = s.set_register(Reg::R14, Value::ImmU32(s.loc.pc().wrapping_add(2) | 1));
    (s.end(Terminal::FastDispatchHint), false)
}

/// Translates a branch with link to a register.
pub fn thumb16_blx_reg(ir: &mut A32IREmitter, inst: &DecodedThumb16) -> (r: bool)
    ensures
        (final(ir)@, r) == thumb16_blx_reg_ir(old(ir)@, *inst),
{
    let loc = ir.current_location;
    let target = ir.get_register(inst.rm_hi());
    ir.push_rsb(loc.advance_pc(2).advance_it().to_location());
    ir.update_upper_location_descriptor();
    ir.bx_write_pc(target);
    let return_addr: u32 = loc.pc().wrapping_add(2) | 1;
    ir.set_register(Reg::R14, Value::ImmU32(return_addr));
    ir.set_term(Terminal::FastDispatchHint);
    false
}

/// The location that lies a number of bytes from the program counter as the
/// instruction sees it.
pub open spec fn relative_location(s: EmitterState, offset: int) -> A32LocationDescriptor {
    s.loc.advance_pc((4 + offset) as i32)
}

/// A block that goes on at another block.
pub open spec fn link(location: A32LocationDescriptor) -> Terminal {
    Terminal::LinkBlock { next: location.to_location() }
}

/// A conditional branch by a signed number of halfwords.
pub open spec fn thumb16_b_cond_ir(s: EmitterState, inst: DecodedThumb16) -> (EmitterState, bool) {
    let imm8 = inst.imm8() as int;
    let offset = if imm8 < 128 { 2 * imm8 } else { 2 * imm8 - 512 };
    (
        s.end(
            Terminal::If {
                if_: cond_code(inst.cond() as u32),
                then_: Box::new(link(relative_location(s, offset))),
                else_: Box::new(link(s.loc.advance_pc(2))),
            },
        ),
        false,
    )
}

/// Translates a conditional branch.
fn thumb16_b_cond(ir: &mut A32IREmitter, inst: &DecodedThumb16) -> (r: bool)
    ensures
        (final(ir)@, r) == thumb16_b_cond_ir(old(ir)@, *inst),
{
    let cond = Cond::from_u8(inst.cond());
    let imm8: i32 = inst.imm8() as i32;
    let offset: i32 = if imm8 < 128 { 2 * imm8 } else { 2 * imm8 - 512 };
    let loc = ir.current_location;
    let next = loc.advance_pc(2);
    let target = loc.advance_pc(4 + offset);
    ir.set_term(
        Terminal::if_then_else(
            cond,
            Terminal::link_block(target.to_location()),
            Terminal::link_block(next.to_location()),
        ),
    );
    false
}

/// A branch by a signed number of halfwords.
pub open spec fn thumb16_b_uncond_ir(s: EmitterState, inst: DecodedThumb16) -> (
    EmitterState,
    bool,
) {
    let imm11 = inst.imm11() as int;
    let offset = if imm11 < 1024 { 2 * imm11 } else { 2 * imm11 - 4096 };
    (s.end(link(relative_location(s, offset))), false)
}

/// Translates a branch.
fn thumb16_b_uncond(ir: &mut A32IREmitter, inst: &DecodedThumb16) -> (r: bool)
    ensures
        (final(ir)@, r) == thumb16_b_uncond_ir(old(ir)@, *inst),
{
    let imm11: i32 = inst.imm11() as i32;
    let offset: i32 = if imm11 < 1024 { 2 * imm11 } else { 2 * imm11 - 4096 };
    let target = ir.current_location.advance_pc(4 + offset);
    ir.set_term(Terminal::link_block(target.to_location()));
    false
}

/// The address of a literal.
pub open spec fn thumb16_literal(s: EmitterState, inst: DecodedThumb16) -> u32 {
    (s.loc.pc().wrapping_add(4) & 0xFFFF_FFFC).wrapping_add(inst.imm8() << 2)
}

/// Loading a register from an address.
pub open spec fn thumb16_load_ir(
    s: EmitterState,
    rt: Reg,
    address: Value,
    width: Width,
    signed: bool,
) -> (EmitterState, bool) {
    let (s, value) = read_ir(s, width, address, AccType::Normal);
    let (s, word) = widen_ir(s, width, signed, value);
    (s.set_register(rt, word), true)
}

/// Storing a register to an address.
pub open spec fn thumb16_store_ir(s: EmitterState, rt: Reg, address: Value, width: Width) -> (
    EmitterState,
    bool,
) {
    let (s, value) = s.get_register(rt);
    let (s, part) = narrow_ir(s, width, value);
    (write_ir(s, width, address, part, AccType::Normal), true)
}

/// The sum of two registers as an address.
pub open spec fn thumb16_reg_address_ir(s: EmitterState, inst: DecodedThumb16) -> (
    EmitterState,
    Value,
) {
    let (s, n) = s.get_register(inst.rn_lo());
    let (s, m) = s.get_register(inst.rm_lo());
    s.op3(Opcode::Add32, n, m, Value::ImmU1(false))
}

/// The sum of a register and an immediate as an address.
pub open spec fn thumb16_imm_address_ir(s: EmitterState, rn: Reg, imm: u32) -> (
    EmitterState,
    Value,
) {
    let (s, n) = s.get_register(rn);
    s.op3(Opcode::Add32, n, Value::ImmU32(imm), Value::ImmU1(false))
}

/// A load with a register offset.
pub open spec fn thumb16_load_reg_ir(
    s: EmitterState,
    inst: DecodedThumb16,
    width: Width,
    signed: bool,
) -> (EmitterState, bool) {
    let (s, address) = thumb16_reg_address_ir(s, inst);
    thumb16_load_ir(s, inst.rd_lo(), address, width, signed)
}

/// A store with a register offset.
pub open spec fn thumb16_store_reg_ir(s: EmitterState, inst: DecodedThumb16, width: Width) -> (
    EmitterState,
    bool,
) {
    let (s, address) = thumb16_reg_address_ir(s, inst);
    thumb16_store_ir(s, inst.rd_lo(), address, width)
}

/// A load with an immediate offset.
pub open spec fn thumb16_load_imm_ir(s: EmitterState, rt: Reg, rn: Reg, imm: u32, width: Width) -> (
    EmitterState,
    bool,
) {
    let (s, address) = thumb16_imm_address_ir(s, rn, imm);
    thumb16_load_ir(s, rt, address, width, false)
}

/// A store with an immediate offset.
pub open spec fn thumb16_store_imm_ir(
    s: EmitterState,
    rt: Reg,
    rn: Reg,
    imm: u32,
    width: Width,
) -> (
    EmitterState,
    bool,
) {
    let (s, address) = thumb16_imm_address_ir(s, rn, imm);
    thumb16_store_ir(s, rt, address, width)
}

/// A load of a literal.
pub open spec fn thumb16_ldr_literal_ir(s: EmitterState, inst: DecodedThumb16) -> (
    EmitterState,
    bool,
) {
    let address = Value::ImmU32(thumb16_literal(s, inst));
    thumb16_load_ir(s, inst.rt_hi(), address, Width::Word, false)
}

/// Translates a load of a literal.
fn thumb16_ldr_literal(ir: &mut A32IREmitter, inst: &DecodedThumb16) -> (r: bool)
    ensures
        (final(ir)@, r) == thumb16_ldr_literal_ir(old(ir)@, *inst),
{
    let rt = inst.rt_hi();
    let base: u32 = ir.current_location.pc().wrapping_add(4) & 0xFFFF_FFFC;
    let address = Value::ImmU32(base.wrapping_add(inst.imm8() << 2));
    let value = ir.read_memory_32(address, AccType::Normal);
    ir.set_register(rt, value);
    true
}

/// Translates a load of a word with a register offset.
fn thumb16_ldr_reg(ir: &mut A32IREmitter, inst: &DecodedThumb16) -> (r: bool)
    ensures
        (final(ir)@, r) == thumb16_load_reg_ir(old(ir)@, *inst, Width::Word, false),
{
    let rt = inst.rd_lo();
    let rn_val = ir.get_register(inst.rn_lo());
    let rm_val = ir.get_register(inst.rm_lo());
    let address = ir.add_32(rn_val, rm_val, Value::ImmU1(false));
    let value = ir.read_memory_32(address, AccType::Normal);
    ir.set_register(rt, value);
    true
}

/// Translates a store of a word with a register offset.
fn thumb16_str_reg(ir: &mut A32IREmitter, inst: &DecodedThumb16) -> (r: bool)
    ensures
        (final(ir)@, r) == thumb16_store_reg_ir(old(ir)@, *inst, Width::Word),
{
    let rt = inst.rd_lo();
    let rn_val = ir.get_register(inst.rn_lo());
    let rm_val = ir.get_register(inst.rm_lo());
    let address = ir.add_32(rn_val, rm_val, Value::ImmU1(false));
    let value = ir.get_register(rt);
    ir.write_memory_32(address, value, AccType::Normal);
    true
}

/// Translates a load of a word with an immediate offset.
fn thumb16_ldr_imm_t1(ir: &mut A32IREmitter, inst: &DecodedThumb16) -> (r: bool)
    ensures
        (final(ir)@, r) == thumb16_load_imm_ir(
            old(ir)@,
            inst.rd_lo(),
            inst.rn_lo(),
            inst.imm5() << 2,
            Width::Word,
        ),
{
    let rt = inst.rd_lo();
    let rn_val = ir.get_register(inst.rn_lo());
    let imm: u32 = inst.imm5() << 2;
    let address = ir.add_32(rn_val, Value::ImmU32(imm), Value::ImmU1(false));
    let value = ir.read_memory_32(address, AccType::Normal);
    ir.set_register(rt, value);
    true
}

/// Translates a store of a word with an immediate offset.
fn thumb16_str_imm_t1(ir: &mut A32IREmitter, inst: &DecodedThumb16) -> (r: bool)
    ensures
        (final(ir)@, r) == thumb16_store_imm_ir(
            old(ir)@,
            inst.rd_lo(),
            inst.rn_lo(),
            inst.imm5() << 2,
            Width::Word,
        ),
{
    let rt = inst.rd_lo();
    let rn_val = ir.get_register(inst.rn_lo());
    let imm: u32 = inst.imm5() << 2;
    let address = ir.add_32(rn_val, Value::ImmU32(imm), Value::ImmU1(false));
    let value = ir.get_register(rt);
    ir.write_memory_32(address, value, AccType::Normal);
    true
}

/// Translates a load of a byte with a register offset.
fn thumb16_ldrb_reg(ir: &mut A32IREmitter, inst: &DecodedThumb16) -> (r: bool)
    ensures
        (final(ir)@, r) == thumb16_load_reg_ir(old(ir)@, *inst, Width::Byte, false),
{
    let rt = inst.rd_lo();
    let rn_val = ir.get_register(inst.rn_lo());
    let rm_val = ir.get_register(inst.rm_lo());
    let address = ir.add_32(rn_val, rm_val, Value::ImmU1(false));
    let value = ir.read_memory_8(address, AccType::Normal);
    let extended = ir.zero_extend_byte_to_word(value);
    ir.set_register(rt, extended);
    true
}

/// Translates a store of a byte with a register offset.
fn thumb16_strb_reg(ir: &mut A32IREmitter, inst: &DecodedThumb16) -> (r: bool)
    ensures
        (final(ir)@, r) == thumb16_store_reg_ir(old(ir)@, *inst, Width::Byte),
{
    let rt = inst.rd_lo();
    let rn_val = ir.get_register(inst.rn_lo());
    let rm_val = ir.get_register(inst.rm_lo());
    let address = ir.add_32(rn_val, rm_val, Value::ImmU1(false));
    let value = ir.get_register(rt);
    let part = ir.least_significant_byte(value);
    ir.write_memory_8(address, part, AccType::Normal);
    true
}

/// Translates a load of a byte with an immediate offset.
fn thumb16_ldrb_imm(ir: &mut A32IREmitter, inst: &DecodedThumb16) -> (r: bool)
    ensures
        (final(ir)@, r) == thumb16_load_imm_ir(
            old(ir)@,
            inst.rd_lo(),
            inst.rn_lo(),
            inst.imm5(),
            Width::Byte,
        ),
{
    let rt = inst.rd_lo();
    let rn_val = ir.get_register(inst.rn_lo());
    let imm: u32 = inst.imm5();
    let address = ir.add_32(rn_val, Value::ImmU32(imm), Value::ImmU1(false));
    let value = ir.read_memory_8(address, AccType::Normal);
    let extended = ir.zero_extend_byte_to_word(value);
    ir.set_register(rt, extended);
    true
}

/// Translates a store of a byte with an immediate offset.
fn thumb16_strb_imm(ir: &mut A32IREmitter, inst: &DecodedThumb16) -> (r: bool)
    ensures
        (final(ir)@, r) == thumb16_store_imm_ir(
            old(ir)@,
            inst.rd_lo(),
            inst.rn_lo(),
            inst.imm5(),
            Width::Byte,
        ),
{
    let rt = inst.rd_lo();
    let rn_val = ir.get_register(inst.rn_lo());
    let imm: u32 = inst.imm5();
    let address = ir.add_32(rn_val, Value::ImmU32(imm), Value::ImmU1(false));
    let value = ir.get_register(rt);
    let part = ir.least_significant_byte(value);
    ir.write_memory_8(address, part, AccType::Normal);
    true
}

/// Translates a load of a halfword with a register offset.
fn thumb16_ldrh_reg(ir: &mut A32IREmitter, inst: &DecodedThumb16) -> (r: bool)
    ensures
        (final(ir)@, r) == thumb16_load_reg_ir(old(ir)@, *inst, Width::Half, false),
{
    let rt = inst.rd_lo();
    let rn_val = ir.get_register(inst.rn_lo());
    let rm_val = ir.get_register(inst.rm_lo());
    let address = ir.add_32(rn_val, rm_val, Value::ImmU1(false));
    let value = ir.read_memory_16(address, AccType::Normal);
    let extended = ir.zero_extend_half_to_word(value);
    ir.set_register(rt, extended);
    true
}

/// Translates a store of a halfword with a register offset.
fn thumb16_strh_reg(ir: &mut A32IREmitter, inst: &DecodedThumb16) -> (r: bool)
    ensures
        (final(ir)@, r) == thumb16_store_reg_ir(old(ir)@, *inst, Width::Half),
{
    let rt = inst.rd_lo();
    let rn_val = ir.get_register(inst.rn_lo());
    let rm_val = ir.get_register(inst.rm_lo());
    let address = ir.add_32(rn_val, rm_val, Value::ImmU1(false));
    let value = ir.get_register(rt);
    let part = ir.least_significant_half(value);
    ir.write_memory_16(address, part, AccType::Normal);
    true
}

/// Translates a load of a halfword with an immediate offset.
fn thumb16_ldrh_imm(ir: &mut A32IREmitter, inst: &DecodedThumb16) -> (r: bool)
    ensures
        (final(ir)@, r) == thumb16_load_imm_ir(
            old(ir)@,
            inst.rd_lo(),
            inst.rn_lo(),
            inst.imm5() << 1,
            Width::Half,
        ),
{
    let rt = inst.rd_lo();
    let rn_val = ir.get_register(inst.rn_lo());
    let imm: u32 = inst.imm5() << 1;
    let address = ir.add_32(rn_val, Value::ImmU32(imm), Value::ImmU1(false));
    let value = ir.read_memory_16(address, AccType::Normal);
    let extended = ir.zero_extend_half_to_word(value);
    ir.set_register(rt, extended);
    true
}

/// Translates a store of a halfword with an immediate offset.
fn thumb16_strh_imm(ir: &mut A32IREmitter, inst: &DecodedThumb16) -> (r: bool)
    ensures
        (final(ir)@, r) == thumb16_store_imm_ir(
            old(ir)@,
            inst.rd_lo(),
            inst.rn_lo(),
            inst.imm5() << 1,
            Width::Half,
        ),
{
    let rt = inst.rd_lo();
    let rn_val = ir.get_register(inst.rn_lo());
    let imm: u32 = inst.imm5() << 1;
    let address = ir.add_32(rn_val, Value::ImmU32(imm), Value::ImmU1(false));
    let value = ir.get_register(rt);
    let part = ir.least_significant_half(value);
    ir.write_memory_16(address, part, AccType::Normal);
    true
}

/// Translates a load of a word from the stack.
fn thumb16_ldr_imm_t2(ir: &mut A32IREmitter, inst: &DecodedThumb16) -> (r: bool)
    ensures
        (final(ir)@, r) == thumb16_load_imm_ir(
            old(ir)@,
            inst.rt_hi(),
            Reg::R13,
            inst.imm8() << 2,
            Width::Word,
        ),
{
    let rt = inst.rt_hi();
    let sp = ir.get_register(Reg::R13);
    let imm: u32 = inst.imm8() << 2;
    let address = ir.add_32(sp, Value::ImmU32(imm), Value::ImmU1(false));
    let value = ir.read_memory_32(address, AccType::Normal);
    ir.set_register(rt, value);
    true
}

/// Translates a store of a word to the stack.
fn thumb16_str_imm_t2(ir: &mut A32IREmitter, inst: &DecodedThumb16) -> (r: bool)
    ensures
        (final(ir)@, r) == thumb16_store_imm_ir(
            old(ir)@,
            inst.rt_hi(),
            Reg::R13,
            inst.imm8() << 2,
            Width::Word,
        ),
{
    let rt = inst.rt_hi();
    let sp = ir.get_register(Reg::R13);
    let imm: u32 = inst.imm8() << 2;
    let address = ir.add_32(sp, Value::ImmU32(imm), Value::ImmU1(false));
    let value = ir.get_register(rt);
    ir.write_memory_32(address, value, AccType::Normal);
    true
}

/// Translates a load of a signed byte.
fn thumb16_ldrsb_reg(ir: &mut A32IREmitter, inst: &DecodedThumb16) -> (r: bool)
    ensures
        (final(ir)@, r) == thumb16_load_reg_ir(old(ir)@, *inst, Width::Byte, true),
{
    let rt = inst.rd_lo();
    let rn_val = ir.get_register(inst.rn_lo());
    let rm_val = ir.get_register(inst.rm_lo());
    let address = ir.add_32(rn_val, rm_val, Value::ImmU1(false));
    let value = ir.read_memory_8(address, AccType::Normal);
    let extended = ir.sign_extend_byte_to_word(value);
    ir.set_register(rt, extended);
    true
}

/// Translates a load of a signed halfword.
fn thumb16_ldrsh_reg(ir: &mut A32IREmitter, inst: &DecodedThumb16) -> (r: bool)
    ensures
        (final(ir)@, r) == thumb16_load_reg_ir(old(ir)@, *inst, Width::Half, true),
{
    let rt = inst.rd_lo();
    let rn_val = ir.get_register(inst.rn_lo());
    let rm_val = ir.get_register(inst.rm_lo());
    let address = ir.add_32(rn_val, rm_val, Value::ImmU1(false));
    let value = ir.read_memory_16(address, AccType::Normal);
    let extended = ir.sign_extend_half_to_word(value);
    ir.set_register(rt, extended);
    true
}

/// The address of a literal in a register.
pub open spec fn thumb16_adr_ir(s: EmitterState, inst: DecodedThumb16) -> (EmitterState, bool) {
    (s.set_register(inst.rt_hi(), Value::ImmU32(thumb16_literal(s, inst))), true)
}

/// Translates the address of a literal.
fn thumb16_adr(ir: &mut A32IREmitter, inst: &DecodedThumb16) -> (r: bool)
    ensures
        (final(ir)@, r) == thumb16_adr_ir(old(ir)@, *inst),
{
    let rd = inst.rt_hi();
    let base: u32 = ir.current_location.pc().wrapping_add(4) & 0xFFFF_FFFC;
    ir.set_register(rd, Value::ImmU32(base.wrapping_add(inst.imm8() << 2)));
    true
}

/// The stack pointer plus (`Add32`) or minus (`Sub32`) an immediate.
pub open spec fn thumb16_sp_ir(s: EmitterState, rd: Reg, operation: Opcode, imm: u32) -> (
    EmitterState,
    bool,
) {
    let (s, sp) = s.get_register(Reg::R13);
    let (s, result) = s.op3(
        operation,
        sp,
        Value::ImmU32(imm),
        Value::ImmU1(operation == Opcode::Sub32),
    );
    (s.set_register(rd, result), true)
}

/// Translates an address on the stack.
fn thumb16_add_sp_imm_t1(ir: &mut A32IREmitter, inst: &DecodedThumb16) -> (r: bool)
    ensures
        (final(ir)@, r) == thumb16_sp_ir(old(ir)@, inst.rt_hi(), Opcode::Add32, inst.imm8() << 2),
{
    let imm: u32 = inst.imm8() << 2;
    let sp = ir.get_register(Reg::R13);
    let result = ir.add_32(sp, Value::ImmU32(imm), Value::ImmU1(false));
    ir.set_register(inst.rt_hi(), result);
    true
}

/// Translates a release of stack space.
fn thumb16_add_sp_imm_t2(ir: &mut A32IREmitter, inst: &DecodedThumb16) -> (r: bool)
    ensures
        (final(ir)@, r) == thumb16_sp_ir(old(ir)@, Reg::R13, Opcode::Add32, inst.imm7() << 2),
{
    let imm: u32 = inst.imm7() << 2;
    let sp = ir.get_register(Reg::R13);
    let result = ir.add_32(sp, Value::ImmU32(imm), Value::ImmU1(false));
    ir.set_register(Reg::R13, result);
    true
}

/// Translates a reservation of stack space.
fn thumb16_sub_sp(ir: &mut A32IREmitter, inst: &DecodedThumb16) -> (r: bool)
    ensures
        (final(ir)@, r) == thumb16_sp_ir(old(ir)@, Reg::R13, Opcode::Sub32, inst.imm7() << 2),
{
    let imm: u32 = inst.imm7() << 2;
    let sp = ir.get_register(Reg::R13);
    let result = ir.sub_32(sp, Value::ImmU32(imm), Value::ImmU1(true));
    ir.set_register(Reg::R13, result);
    true
}

/// An operation on one register.
pub open spec fn thumb16_unary_ir(s: EmitterState, inst: DecodedThumb16, operation: Opcode) -> (
    EmitterState,
    bool,
) {
    let (s, m) = s.get_register(inst.rn_lo());
    let (s, result) = s.op1(operation, m);
    (s.set_register(inst.rd_lo(), result), true)
}

/// Some bits of a register.
pub open spec fn thumb16_mask_ir(s: EmitterState, inst: DecodedThumb16, mask: u32) -> (
    EmitterState,
    bool,
) {
    let (s, m) = s.get_register(inst.rn_lo());
    let (s, result) = s.op2(Opcode::And32, m, Value::ImmU32(mask));
    (s.set_register(inst.rd_lo(), result), true)
}

/// Translates a sign extension of a halfword.
fn thumb16_sxth(ir: &mut A32IREmitter, inst: &DecodedThumb16) -> (r: bool)
    ensures
        (final(ir)@, r) == thumb16_unary_ir(old(ir)@, *inst, Opcode::SignExtendHalfToWord),
{
    let rd = inst.rd_lo();
    let rm_val = ir.get_register(inst.rn_lo());
    let result = ir.sign_extend_half_to_word(rm_val);
    ir.set_register(rd, result);
    true
}

/// Translates a sign extension of a byte.
fn thumb16_sxtb(ir: &mut A32IREmitter, inst: &DecodedThumb16) -> (r: bool)
    ensures
        (final(ir)@, r) == thumb16_unary_ir(old(ir)@, *inst, Opcode::SignExtendByteToWord),
{
    let rd = inst.rd_lo();
    let rm_val = ir.get_register(inst.rn_lo());
    let result = ir.sign_extend_byte_to_word(rm_val);
    ir.set_register(rd, result);
    true
}

/// Translates a reversal of the bytes of a word.
fn thumb16_rev(ir: &mut A32IREmitter, inst: &DecodedThumb16) -> (r: bool)
    ensures
        (final(ir)@, r) == thumb16_unary_ir(old(ir)@, *inst, Opcode::ByteReverseWord),
{
    let rd = inst.rd_lo();
    let rm_val = ir.get_register(inst.rn_lo());
    let result = ir.byte_reverse_word(rm_val);
    ir.set_register(rd, result);
    true
}

/// Translates a zero extension of a halfword.
fn thumb16_uxth(ir: &mut A32IREmitter, inst: &DecodedThumb16) -> (r: bool)
    ensures
        (final(ir)@, r) == thumb16_mask_ir(old(ir)@, *inst, 0xFFFF),
{
    let rd = inst.rd_lo();
    let rm_val = ir.get_register(inst.rn_lo());
    let result = ir.and_32(rm_val, Value::ImmU32(0xFFFF));
    ir.set_register(rd, result);
    true
}

/// Translates a zero extension of a byte.
fn thumb16_uxtb(ir: &mut A32IREmitter, inst: &DecodedThumb16) -> (r: bool)
    ensures
        (final(ir)@, r) == thumb16_mask_ir(old(ir)@, *inst, 0xFF),
{
    let rd = inst.rd_lo();
    let rm_val = ir.get_register(inst.rn_lo());
    let result = ir.and_32(rm_val, Value::ImmU32(0xFF));
    ir.set_register(rd, result);
    true
}

/// Whether register `i` is in the list of an instruction.
pub open spec fn listed(inst: DecodedThumb16, i: int) -> bool {
    (inst.raw >> (i as u16)) & 1 != 0
}

/// How many of the first `n` registers are in the list of an instruction.
pub open spec fn listed_count(inst: DecodedThumb16, n: int) -> nat
    decreases n,
{
    if n <= 0 {
        0
    } else {
        listed_count(inst, n - 1) + if listed(inst, n - 1) {
            1nat
        } else {
            0
        }
    }
}

fn count_listed(inst: &DecodedThumb16) -> (r: u32)
    ensures
        r == listed_count(*inst, 8),
        r <= 8,
{
    let mut count: u32 = 0;
    let mut i: u16 = 0;
    while i < 8
        invariant
            i <= 8,
            count == listed_count(*inst, i as int),
            count <= i,
        decreases 8 - i,
    {
        if (inst.raw >> i) & 1 != 0 {
            count = count + 1;
        }
        i = i + 1;
    }
    count
}

/// Whether the list names the link register (of a push) or the program
/// counter (of a pop).
pub open spec fn extra_listed(inst: DecodedThumb16) -> bool {
    (inst.raw >> 8) & 1 != 0
}

/// The address of the next word.
pub open spec fn next_word_ir(s: EmitterState, address: Value) -> (EmitterState, Value) {
    s.op3(Opcode::Add32, address, Value::ImmU32(4), Value::ImmU1(false))
}

/// Storing those of the first `n` registers that are in the list.
pub open spec fn store_list_ir(
    s: EmitterState,
    address: Value,
    inst: DecodedThumb16,
    acc: AccType,
    n: int,
) -> (EmitterState, Value)
    decreases n,
{
    if n <= 0 {
        (s, address)
    } else {
        let (s, address) = store_list_ir(s, address, inst, acc, n - 1);
        if listed(inst, n - 1) {
            let (s, value) = s.get_register(reg((n - 1) as u32));
            next_word_ir(s.write_memory_32(address, value, acc), address)
        } else {
            (s, address)
        }
    }
}

/// Loading those of the first `n` registers that are in the list.
pub open spec fn load_list_ir(
    s: EmitterState,
    address: Value,
    inst: DecodedThumb16,
    acc: AccType,
    n: int,
) -> (EmitterState, Value)
    decreases n,
{
    if n <= 0 {
        (s, address)
    } else {
        let (s, address) = load_list_ir(s, address, inst, acc, n - 1);
        if listed(inst, n - 1) {
            let (s, value) = s.read_memory_32(address, acc);
            next_word_ir(s.set_register(reg((n - 1) as u32), value), address)
        } else {
            (s, address)
        }
    }
}

fn store_list(ir: &mut A32IREmitter, base: Value, inst: &DecodedThumb16, acc: AccType) -> (r: Value)
    ensures
        (final(ir)@, r) == store_list_ir(old(ir)@, base, *inst, acc, 8),
{
    let ghost s0 = ir@;
    let mut address = base;
    let mut i: u32 = 0;
    while i < 8
        invariant
            i <= 8,
            (ir@, address) == store_list_ir(s0, base, *inst, acc, i as int),
        decreases 8 - i,
    {
        if (inst.raw >> (i as u16)) & 1 != 0 {
            let value = ir.get_register(Reg::from_u32(i));
            ir.write_memory_32(address, value, acc);
            address = ir.add_32(address, Value::ImmU32(4), Value::ImmU1(false));
        }
        i = i + 1;
    }
    address
}

fn load_list(ir: &mut A32IREmitter, base: Value, inst: &DecodedThumb16, acc: AccType) -> (r: Value)
    ensures
        (final(ir)@, r) == load_list_ir(old(ir)@, base, *inst, acc, 8),
{
    let ghost s0 = ir@;
    let mut address = base;
    let mut i: u32 = 0;
    while i < 8
        invariant
            i <= 8,
            (ir@, address) == load_list_ir(s0, base, *inst, acc, i as int),
        decreases 8 - i,
    {
        if (inst.raw >> (i as u16)) & 1 != 0 {
            let value = ir.read_memory_32(address, acc);
            ir.set_register(Reg::from_u32(i), value);
            address = ir.add_32(address, Value::ImmU32(4), Value::ImmU1(false));
        }
        i = i + 1;
    }
    address
}

/// A push of registers, the lowest at the lowest address, with the link
/// register last. An empty list is unpredictable.
pub open spec fn thumb16_push_ir(s: EmitterState, inst: DecodedThumb16) -> (EmitterState, bool) {
    let count = listed_count(inst, 8) + if extra_listed(inst) { 1int } else { 0 };
    if count == 0 {
        unpredictable_ir(s)
    } else {
        let (s, sp) = s.get_register(Reg::R13);
        let (s, new_sp) = s.op3(
            Opcode::Sub32,
            sp,
            Value::ImmU32((count * 4) as u32),
            Value::ImmU1(true),
        );
        let (s, address) = store_list_ir(s, new_sp, inst, AccType::Atomic, 8);
        let s = if extra_listed(inst) {
            let (s, value) = s.get_register(Reg::R14);
            next_word_ir(s.write_memory_32(address, value, AccType::Atomic), address).0
        } else {
            s
        };
        (s.set_register(Reg::R13, new_sp), true)
    }
}

/// Translates a push of registers.
pub fn thumb16_push(ir: &mut A32IREmitter, inst: &DecodedThumb16) -> (r: bool)
    ensures
        (final(ir)@, r) == thumb16_push_ir(old(ir)@, *inst),
{
    let lr_bit: bool = (inst.raw >> 8) & 1 != 0;
    let lr_count: u32 = if lr_bit { 1 } else { 0 };
    let count: u32 = count_listed(inst) + lr_count;
    if count < 1 {
        return unpredictable_instruction(ir);
    }
    let sp = ir.get_register(Reg::R13);
    let new_sp = ir.sub_32(sp, Value::ImmU32(count * 4), Value::ImmU1(true));
    let address = store_list(ir, new_sp, inst, AccType::Atomic);
    if lr_bit {
        let value = ir.get_register(Reg::R14);
        ir.write_memory_32(address, value, AccType::Atomic);
        ir.add_32(address, Value::ImmU32(4), Value::ImmU1(false));
    }
    ir.set_register(Reg::R13, new_sp);
    true
}

/// A pop of registers, with the program counter last, which makes it a return.
/// An empty list is unpredictable.
pub open spec fn thumb16_pop_ir(s: EmitterState, inst: DecodedThumb16) -> (EmitterState, bool) {
    if listed_count(inst, 8) == 0 && !extra_listed(inst) {
        unpredictable_ir(s)
    } else {
        let (s, sp) = s.get_register(Reg::R13);
        let (s, address) = load_list_ir(s, sp, inst, AccType::Atomic, 8);
        if extra_listed(inst) {
            let (s, value) = s.read_memory_32(address, AccType::Atomic);
            let s = s.update_upper_location_descriptor().op1(Opcode::A32BXWritePC, value).0;
            let (s, address) = next_word_ir(s, address);
            (s.set_register(Reg::R13, address).end(Terminal::PopRSBHint), false)
        } else {
            (s.set_register(Reg::R13, address), true)
        }
    }
}

/// Translates a pop of registers.
pub fn thumb16_pop(ir: &mut A32IREmitter, inst: &DecodedThumb16) -> (r: bool)
    ensures
        (final(ir)@, r) == thumb16_pop_ir(old(ir)@, *inst),
{
    let pc_bit: bool = (inst.raw >> 8) & 1 != 0;
    if count_listed(inst) < 1 && !pc_bit {
        return unpredictable_instruction(ir);
    }
    let sp = ir.get_register(Reg::R13);
    let address = load_list(ir, sp, inst, AccType::Atomic);
    if pc_bit {
        let value = ir.read_memory_32(address, AccType::Atomic);
        ir.update_upper_location_descriptor();
        ir.load_write_pc(value);
        let end = ir.add_32(address, Value::ImmU32(4), Value::ImmU1(false));
        ir.set_register(Reg::R13, end);
        ir.set_term(Terminal::PopRSBHint);
        return false;
    }
    ir.set_register(Reg::R13, address);
    true
}

/// Moving a base register past the listed registers.
pub open spec fn list_write_back_ir(
    s: EmitterState,
    inst: DecodedThumb16,
    rn: Reg,
    base: Value,
) -> EmitterState {
    let (s, moved) = s.op3(
        Opcode::Add32,
        base,
        Value::ImmU32((listed_count(inst, 8) * 4) as u32),
        Value::ImmU1(false),
    );
    s.set_register(rn, moved)
}

/// A store of several registers, which moves the base.
pub open spec fn thumb16_stmia_ir(s: EmitterState, inst: DecodedThumb16) -> (EmitterState, bool) {
    let (s, base) = s.get_register(inst.rt_hi());
    let s = store_list_ir(s, base, inst, AccType::Normal, 8).0;
    (list_write_back_ir(s, inst, inst.rt_hi(), base), true)
}

/// Translates a store of several registers.
fn thumb16_stmia(ir: &mut A32IREmitter, inst: &DecodedThumb16) -> (r: bool)
    ensures
        (final(ir)@, r) == thumb16_stmia_ir(old(ir)@, *inst),
{
    let rn = inst.rt_hi();
    let base = ir.get_register(rn);
    store_list(ir, base, inst, AccType::Normal);
    let count: u32 = count_listed(inst);
    let new_base = ir.add_32(base, Value::ImmU32(count * 4), Value::ImmU1(false));
    ir.set_register(rn, new_base);
    true
}

/// A load of several registers, which moves the base unless it is loaded.
pub open spec fn thumb16_ldmia_ir(s: EmitterState, inst: DecodedThumb16) -> (EmitterState, bool) {
    let rn = inst.rt_hi();
    let (s, base) = s.get_register(rn);
    let s = load_list_ir(s, base, inst, AccType::Normal, 8).0;
    (
        if listed(inst, rn.number() as int) {
            s
        } else {
            list_write_back_ir(s, inst, rn, base)
        },
        true,
    )
}

/// Translates a load of several registers.
fn thumb16_ldmia(ir: &mut A32IREmitter, inst: &DecodedThumb16) -> (r: bool)
    ensures
        (final(ir)@, r) == thumb16_ldmia_ir(old(ir)@, *inst),
{
    let rn = inst.rt_hi();
    let base = ir.get_register(rn);
    load_list(ir, base, inst, AccType::Normal);
    let index: u16 = rn.number() as u16;
    if (inst.raw >> index) & 1 == 0 {
        let count: u32 = count_listed(inst);
        let new_base = ir.add_32(base, Value::ImmU32(count * 4), Value::ImmU1(false));
        ir.set_register(rn, new_base);
    }
    true
}

/// A byte of a word moved up or down by one place.
pub open spec fn moved_byte_ir(s: EmitterState, byte: Value, up: bool) -> (EmitterState, Value) {
    s.op3(
        if up {
            Opcode::LogicalShiftLeft32
        } else {
            Opcode::LogicalShiftRight32
        },
        byte,
        Value::ImmU8(8),
        Value::ImmU1(false),
    )
}

/// A reversal of the bytes of each halfword.
pub open spec fn thumb16_rev16_ir(s: EmitterState, inst: DecodedThumb16) -> (EmitterState, bool) {
    let (s, m) = s.get_register(inst.rn_lo());
    let (s, byte0) = s.op2(Opcode::And32, m, Value::ImmU32(0xFF));
    let (s, byte1) = s.op2(Opcode::And32, m, Value::ImmU32(0xFF00));
    let (s, byte2) = s.op2(Opcode::And32, m, Value::ImmU32(0xFF_0000));
    let (s, byte3) = s.op2(Opcode::And32, m, Value::ImmU32(0xFF00_0000));
    let (s, byte0) = moved_byte_ir(s, byte0, true);
    let (s, byte1) = moved_byte_ir(s, byte1, false);
    let (s, byte2) = moved_byte_ir(s, byte2, true);
    let (s, byte3) = moved_byte_ir(s, byte3, false);
    let (s, lo) = s.op2(Opcode::Or32, byte0, byte1);
    let (s, hi) = s.op2(Opcode::Or32, byte2, byte3);
    let (s, result) = s.op2(Opcode::Or32, lo, hi);
    (s.set_register(inst.rd_lo(), result), true)
}

/// Translates a reversal of the bytes of each halfword.
fn thumb16_rev16(ir: &mut A32IREmitter, inst: &DecodedThumb16) -> (r: bool)
    ensures
        (final(ir)@, r) == thumb16_rev16_ir(old(ir)@, *inst),
{
    let rd = inst.rd_lo();
    let rm_val = ir.get_register(inst.rn_lo());
    let byte0 = ir.and_32(rm_val, Value::ImmU32(0xFF));
    let byte1 = ir.and_32(rm_val, Value::ImmU32(0xFF00));
    let byte2 = ir.and_32(rm_val, Value::ImmU32(0xFF_0000));
    let byte3 = ir.and_32(rm_val, Value::ImmU32(0xFF00_0000));
    let s0 = ir.logical_shift_left_32(byte0, Value::ImmU8(8), Value::ImmU1(false));
    let s1 = ir.logical_shift_right_32(byte1, Value::ImmU8(8), Value::ImmU1(false));
    let s2 = ir.logical_shift_left_32(byte2, Value::ImmU8(8), Value::ImmU1(false));
    let s3 = ir.logical_shift_right_32(byte3, Value::ImmU8(8), Value::ImmU1(false));
    let lo = ir.or_32(s0, s1);
    let hi = ir.or_32(s2, s3);
    let result = ir.or_32(lo, hi);
    ir.set_register(rd, result);
    true
}

/// A reversal of the bytes of the low halfword, sign-extended.
pub open spec fn thumb16_revsh_ir(s: EmitterState, inst: DecodedThumb16) -> (EmitterState, bool) {
    let (s, m) = s.get_register(inst.rn_lo());
    let (s, byte0) = s.op2(Opcode::And32, m, Value::ImmU32(0xFF));
    let (s, byte1) = s.op2(Opcode::And32, m, Value::ImmU32(0xFF00));
    let (s, byte0) = moved_byte_ir(s, byte0, true);
    let (s, byte1) = moved_byte_ir(s, byte1, false);
    let (s, half) = s.op2(Opcode::Or32, byte0, byte1);
    let (s, result) = s.op1(Opcode::SignExtendHalfToWord, half);
    (s.set_register(inst.rd_lo(), result), true)
}

/// Translates a reversal of the bytes of a signed halfword.
fn thumb16_revsh(ir: &mut A32IREmitter, inst: &DecodedThumb16) -> (r: bool)
    ensures
        (final(ir)@, r) == thumb16_revsh_ir(old(ir)@, *inst),
{
    let rd = inst.rd_lo();
    let rm_val = ir.get_register(inst.rn_lo());
    let byte0 = ir.and_32(rm_val, Value::ImmU32(0xFF));
    let byte1 = ir.and_32(rm_val, Value::ImmU32(0xFF00));
    let s0 = ir.logical_shift_left_32(byte0, Value::ImmU8(8), Value::ImmU1(false));
    let s1 = ir.logical_shift_right_32(byte1, Value::ImmU8(8), Value::ImmU1(false));
    let half = ir.or_32(s0, s1);
    let result = ir.sign_extend_half_to_word(half);
    ir.set_register(rd, result);
    true
}

/// A supervisor call.
pub open spec fn thumb16_svc_ir(s: EmitterState, inst: DecodedThumb16) -> (EmitterState, bool) {
    let s = s.push_rsb(s.loc.advance_pc(2).advance_it().to_location());
    let next = Value::ImmU32(s.loc.pc().wrapping_add(2));
    let s = s.update_upper_location_descriptor().branch_write_pc(next);
    (
        s.op1(Opcode::A32CallSupervisor, Value::ImmU32(inst.imm8())).0.end(
            halt_or(Terminal::PopRSBHint),
        ),
        false,
    )
}

/// Translates a supervisor call.
fn thumb16_svc(ir: &mut A32IREmitter, inst: &DecodedThumb16) -> (r: bool)
    ensures
        (final(ir)@, r) == thumb16_svc_ir(old(ir)@, *inst),
{
    let loc = ir.current_location;
    ir.push_rsb(loc.advance_pc(2).advance_it().to_location());
    ir.update_upper_location_descriptor();
    ir.branch_write_pc(Value::ImmU32(loc.pc().wrapping_add(2)));
    ir.call_supervisor(inst.imm8());
    ir.set_term(Terminal::check_halt(Terminal::PopRSBHint));
    false
}

/// The start of an If-Then block: control goes on after the instruction with
/// the If-Then state that it holds. The condition `1111`, the condition
/// `1110` for more than one instruction, and a block within a block are
/// unpredictable.
pub open spec fn thumb16_it_ir(s: EmitterState, inst: DecodedThumb16) -> (EmitterState, bool) {
    let cond = (inst.raw >> 4) & 0xF;
    let mask = inst.raw & 0xF;
    let single = mask == 1 || mask == 2 || mask == 4 || mask == 8;
    if cond == 0xF || (cond == 0xE && !single) || s.loc.it().is_in_it_block() {
        raise_ir(s, Exception::UnpredictableInstruction, 2)
    } else {
        let next = s.loc.advance_pc(2).set_it(ITState(inst.imm8() as u8));
        (s.end(Terminal::LinkBlockFast { next: next.to_location() }), false)
    }
}

/// Translates the start of an If-Then block, whose mask is not empty.
pub fn thumb16_it(ir: &mut A32IREmitter, inst: &DecodedThumb16) -> (r: bool)
    requires
        inst.raw & 0xF != 0,
    ensures
        (final(ir)@, r) == thumb16_it_ir(old(ir)@, *inst),
{
    let cond: u16 = (inst.raw >> 4) & 0xF;
    let mask: u16 = inst.raw & 0xF;
    let single: bool = mask == 1 || mask == 2 || mask == 4 || mask == 8;
    if cond == 0xF || (cond == 0xE && !single) {
        return raise_exception_with_instruction_size(
            ir,
            Exception::UnpredictableInstruction,
            2,
        );
    }
    let loc = ir.current_location;
    if loc.it().is_in_it_block() {
        return raise_exception_with_instruction_size(
            ir,
            Exception::UnpredictableInstruction,
            2,
        );
    }
    let next = loc.advance_pc(2).set_it(ITState::new(inst.imm8() as u8));
    ir.set_term(Terminal::LinkBlockFast { next: next.to_location() });
    false
}

/// A branch if a register is zero, or if it is not zero when bit 11 is set.
pub open spec fn thumb16_cbz_cbnz_ir(s: EmitterState, inst: DecodedThumb16) -> (
    EmitterState,
    bool,
) {
    let offset = ((inst.raw >> 9) & 1) * 64 + ((inst.raw >> 3) & 0x1F) * 2;
    let target = link(
        s.loc.set_pc(s.loc.pc().wrapping_add(4).wrapping_add(offset as u32)),
    );
    let next = link(s.loc.advance_pc(2));
    let (s, n) = s.get_register(inst.rd_lo());
    let (s, zero) = s.op1(Opcode::IsZero32, n);
    let s = s.op1(Opcode::A32SetCheckBit, zero).0;
    (
        s.end(
            if (inst.raw >> 11) & 1 != 0 {
                Terminal::CheckBit { then_: Box::new(next), else_: Box::new(target) }
            } else {
                Terminal::CheckBit { then_: Box::new(target), else_: Box::new(next) }
            },
        ),
        false,
    )
}

/// Translates a branch on a zero or nonzero register.
fn thumb16_cbz_cbnz(ir: &mut A32IREmitter, inst: &DecodedThumb16) -> (r: bool)
    ensures
        (final(ir)@, r) == thumb16_cbz_cbnz_ir(old(ir)@, *inst),
{
    let offset: u32 = (((inst.raw >> 9) & 1) * 64 + ((inst.raw >> 3) & 0x1F) * 2) as u32;
    let nonzero: bool = (inst.raw >> 11) & 1 != 0;
    let loc = ir.current_location;
    let target_pc: u32 = loc.pc().wrapping_add(4).wrapping_add(offset);
    let rn_val = ir.get_register(inst.rd_lo());
    let is_zero = ir.is_zero_32(rn_val);
    ir.set_check_bit(is_zero);
    let next = loc.advance_pc(2);
    let target = loc.set_pc(target_pc);
    if nonzero {
        ir.set_term(
            Terminal::check_bit(
                Terminal::link_block(next.to_location()),
                Terminal::link_block(target.to_location()),
            ),
        );
    } else {
        ir.set_term(
            Terminal::check_bit(
                Terminal::link_block(target.to_location()),
                Terminal::link_block(next.to_location()),
            ),
        );
    }
    false
}

/// The translation of a 16-bit Thumb instruction. Changes of the byte order
/// and of the processor mode do nothing.
pub open spec fn translate_thumb16_ir(
    s: EmitterState,
    inst: DecodedThumb16,
    options: TranslationOptions,
) -> (EmitterState, bool) {
    match inst.id {
        Thumb16InstId::LslImm => thumb16_shift_imm_ir(s, inst, ShiftType::LSL),
        Thumb16InstId::LsrImm => thumb16_shift_imm_ir(s, inst, ShiftType::LSR),
        Thumb16InstId::AsrImm => thumb16_shift_imm_ir(s, inst, ShiftType::ASR),
        Thumb16InstId::AddRegT1 => thumb16_arith_reg_ir(
            s,
            Some(inst.rd_lo()),
            Opcode::Add32,
            inst.rn_lo(),
            inst.rm_lo(),
        ),
        Thumb16InstId::SubReg => thumb16_arith_reg_ir(
            s,
            Some(inst.rd_lo()),
            Opcode::Sub32,
            inst.rn_lo(),
            inst.rm_lo(),
        ),
        Thumb16InstId::AddImmT1 => thumb16_arith_imm_ir(
            s,
            Some(inst.rd_lo()),
            Opcode::Add32,
            inst.rn_lo(),
            inst.imm3(),
        ),
        Thumb16InstId::SubImmT1 => thumb16_arith_imm_ir(
            s,
            Some(inst.rd_lo()),
            Opcode::Sub32,
            inst.rn_lo(),
            inst.imm3(),
        ),
        Thumb16InstId::MovImm => thumb16_mov_imm_ir(s, inst),
        Thumb16InstId::CmpImm => thumb16_arith_imm_ir(
            s,
            None,
            Opcode::Sub32,
            inst.rt_hi(),
            inst.imm8(),
        ),
        Thumb16InstId::AddImmT2 => thumb16_arith_imm_ir(
            s,
            Some(inst.rt_hi()),
            Opcode::Add32,
            inst.rt_hi(),
            inst.imm8(),
        ),
        Thumb16InstId::SubImmT2 => thumb16_arith_imm_ir(
            s,
            Some(inst.rt_hi()),
            Opcode::Sub32,
            inst.rt_hi(),
            inst.imm8(),
        ),
        Thumb16InstId::AndReg => thumb16_logic_ir(s, inst, Opcode::And32),
        Thumb16InstId::EorReg => thumb16_logic_ir(s, inst, Opcode::Eor32),
        Thumb16InstId::LslReg => thumb16_shift_reg_ir(s, inst, Opcode::LogicalShiftLeft32),
        Thumb16InstId::LsrReg => thumb16_shift_reg_ir(s, inst, Opcode::LogicalShiftRight32),
        Thumb16InstId::AsrReg => thumb16_shift_reg_ir(s, inst, Opcode::ArithmeticShiftRight32),
        Thumb16InstId::AdcReg => thumb16_arith_carry_ir(s, inst, Opcode::Add32),
        Thumb16InstId::SbcReg => thumb16_arith_carry_ir(s, inst, Opcode::Sub32),
        Thumb16InstId::RorReg => thumb16_shift_reg_ir(s, inst, Opcode::BitRotateRight32),
        Thumb16InstId::TstReg => thumb16_tst_reg_ir(s, inst),
        Thumb16InstId::RsbImm => thumb16_rsb_imm_ir(s, inst),
        Thumb16InstId::CmpRegT1 => thumb16_arith_reg_ir(
            s,
            None,
            Opcode::Sub32,
            inst.rd_lo(),
            inst.rn_lo(),
        ),
        Thumb16InstId::CmnReg => thumb16_arith_reg_ir(
            s,
            None,
            Opcode::Add32,
            inst.rd_lo(),
            inst.rn_lo(),
        ),
        Thumb16InstId::OrrReg => thumb16_logic_ir(s, inst, Opcode::Or32),
        Thumb16InstId::MulReg => thumb16_logic_ir(s, inst, Opcode::Mul32),
        Thumb16InstId::BicReg => thumb16_bic_reg_ir(s, inst),
        Thumb16InstId::MvnReg => thumb16_mvn_reg_ir(s, inst),
        Thumb16InstId::AddRegT2 => thumb16_add_reg_t2_ir(s, inst),
        Thumb16InstId::CmpRegT2 => thumb16_arith_reg_ir(
            s,
            None,
            Opcode::Sub32,
            inst.rn_dn(),
            inst.rm_hi(),
        ),
        Thumb16InstId::MovReg => thumb16_mov_reg_ir(s, inst),
        Thumb16InstId::BX => thumb16_bx_ir(s, inst.rm_hi()),
        Thumb16InstId::BlxReg => thumb16_blx_reg_ir(s, inst),
        Thumb16InstId::BT1 => thumb16_b_cond_ir(s, inst),
        Thumb16InstId::BT2 => thumb16_b_uncond_ir(s, inst),
        Thumb16InstId::LdrLiteral => thumb16_ldr_literal_ir(s, inst),
        Thumb16InstId::LdrReg => thumb16_load_reg_ir(s, inst, Width::Word, false),
        Thumb16InstId::LdrImmT1 => thumb16_load_imm_ir(
            s,
            inst.rd_lo(),
            inst.rn_lo(),
            inst.imm5() << 2,
            Width::Word,
        ),
        Thumb16InstId::LdrImmT2 => thumb16_load_imm_ir(
            s,
            inst.rt_hi(),
            Reg::R13,
            inst.imm8() << 2,
            Width::Word,
        ),
        Thumb16InstId::StrReg => thumb16_store_reg_ir(s, inst, Width::Word),
        Thumb16InstId::StrImmT1 => thumb16_store_imm_ir(
            s,
            inst.rd_lo(),
            inst.rn_lo(),
            inst.imm5() << 2,
            Width::Word,
        ),
        Thumb16InstId::StrImmT2 => thumb16_store_imm_ir(
            s,
            inst.rt_hi(),
            Reg::R13,
            inst.imm8() << 2,
            Width::Word,
        ),
        Thumb16InstId::LdrbReg => thumb16_load_reg_ir(s, inst, Width::Byte, false),
        Thumb16InstId::LdrbImm => thumb16_load_imm_ir(
            s,
            inst.rd_lo(),
            inst.rn_lo(),
            inst.imm5(),
            Width::Byte,
        ),
        Thumb16InstId::StrbReg => thumb16_store_reg_ir(s, inst, Width::Byte),
        Thumb16InstId::StrbImm => thumb16_store_imm_ir(
            s,
            inst.rd_lo(),
            inst.rn_lo(),
            inst.imm5(),
            Width::Byte,
        ),
        Thumb16InstId::LdrhReg => thumb16_load_reg_ir(s, inst, Width::Half, false),
        Thumb16InstId::LdrhImm => thumb16_load_imm_ir(
            s,
            inst.rd_lo(),
            inst.rn_lo(),
            inst.imm5() << 1,
            Width::Half,
        ),
        Thumb16InstId::StrhReg => thumb16_store_reg_ir(s, inst, Width::Half),
        Thumb16InstId::StrhImm => thumb16_store_imm_ir(
            s,
            inst.rd_lo(),
            inst.rn_lo(),
            inst.imm5() << 1,
            Width::Half,
        ),
        Thumb16InstId::LdrsbReg => thumb16_load_reg_ir(s, inst, Width::Byte, true),
        Thumb16InstId::LdrshReg => thumb16_load_reg_ir(s, inst, Width::Half, true),
        Thumb16InstId::ADR => thumb16_adr_ir(s, inst),
        Thumb16InstId::AddSpT1 => thumb16_sp_ir(s, inst.rt_hi(), Opcode::Add32, inst.imm8() << 2),
        Thumb16InstId::AddSpT2 => thumb16_sp_ir(s, Reg::R13, Opcode::Add32, inst.imm7() << 2),
        Thumb16InstId::SubSp => thumb16_sp_ir(s, Reg::R13, Opcode::Sub32, inst.imm7() << 2),
        Thumb16InstId::SXTH => thumb16_unary_ir(s, inst, Opcode::SignExtendHalfToWord),
        Thumb16InstId::SXTB => thumb16_unary_ir(s, inst, Opcode::SignExtendByteToWord),
        Thumb16InstId::UXTH => thumb16_mask_ir(s, inst, 0xFFFF),
        Thumb16InstId::UXTB => thumb16_mask_ir(s, inst, 0xFF),
        Thumb16InstId::PUSH => thumb16_push_ir(s, inst),
        Thumb16InstId::POP => thumb16_pop_ir(s, inst),
        Thumb16InstId::STMIA => thumb16_stmia_ir(s, inst),
        Thumb16InstId::LDMIA => thumb16_ldmia_ir(s, inst),
        Thumb16InstId::REV => thumb16_unary_ir(s, inst, Opcode::ByteReverseWord),
        Thumb16InstId::REV16 => thumb16_rev16_ir(s, inst),
        Thumb16InstId::REVSH => thumb16_revsh_ir(s, inst),
        Thumb16InstId::SVC => thumb16_svc_ir(s, inst),
        Thumb16InstId::IT => thumb16_it_ir(s, inst),
        Thumb16InstId::CbzCbnz => thumb16_cbz_cbnz_ir(s, inst),
        Thumb16InstId::SEV => thumb16_hint_ir(s, options, Exception::SendEvent),
        Thumb16InstId::SEVL => thumb16_hint_ir(s, options, Exception::SendEventLocal),
        Thumb16InstId::WFE => thumb16_hint_ir(s, options, Exception::WaitForEvent),
        Thumb16InstId::WFI => thumb16_hint_ir(s, options, Exception::WaitForInterrupt),
        Thumb16InstId::YIELD => thumb16_hint_ir(s, options, Exception::Yield),
        Thumb16InstId::BKPT => raise_ir(s, Exception::Breakpoint, 2),
        Thumb16InstId::UDF | Thumb16InstId::Unknown => raise_ir(
            s,
            Exception::UndefinedInstruction,
            2,
        ),
        Thumb16InstId::NOP | Thumb16InstId::SETEND | Thumb16InstId::CPS => (s, true),
    }
}

/// Translates a 16-bit Thumb instruction.
pub fn translate_thumb16(
    ir: &mut A32IREmitter,
    inst: &DecodedThumb16,
    options: TranslationOptions,
) -> (r: bool)
    requires
        inst.id == Thumb16InstId::IT ==> inst.raw & 0xF != 0,
    ensures
        (final(ir)@, r) == translate_thumb16_ir(old(ir)@, *inst, options),
{
    match inst.id {
        Thumb16InstId::LslImm => thumb16_lsl_imm(ir, inst),
        Thumb16InstId::LsrImm => thumb16_lsr_imm(ir, inst),
        Thumb16InstId::AsrImm => thumb16_asr_imm(ir, inst),
        Thumb16InstId::AddRegT1 => thumb16_add_reg(ir, inst),
        Thumb16InstId::SubReg => thumb16_sub_reg(ir, inst),
        Thumb16InstId::AddImmT1 => thumb16_add_imm3(ir, inst),
        Thumb16InstId::SubImmT1 => thumb16_sub_imm3(ir, inst),
        Thumb16InstId::MovImm => thumb16_mov_imm(ir, inst),
        Thumb16InstId::CmpImm => thumb16_cmp_imm(ir, inst),
        Thumb16InstId::AddImmT2 => thumb16_add_imm8(ir, inst),
        Thumb16InstId::SubImmT2 => thumb16_sub_imm8(ir, inst),
        Thumb16InstId::AndReg => thumb16_and_reg(ir, inst),
        Thumb16InstId::EorReg => thumb16_eor_reg(ir, inst),
        Thumb16InstId::LslReg => thumb16_lsl_reg(ir, inst),
        Thumb16InstId::LsrReg => thumb16_lsr_reg(ir, inst),
        Thumb16InstId::AsrReg => thumb16_asr_reg(ir, inst),
        Thumb16InstId::AdcReg => thumb16_adc_reg(ir, inst),
        Thumb16InstId::SbcReg => thumb16_sbc_reg(ir, inst),
        Thumb16InstId::RorReg => thumb16_ror_reg(ir, inst),
        Thumb16InstId::TstReg => thumb16_tst_reg(ir, inst),
        Thumb16InstId::RsbImm => thumb16_rsb_imm(ir, inst),
        Thumb16InstId::CmpRegT1 => thumb16_cmp_reg(ir, inst),
        Thumb16InstId::CmnReg => thumb16_cmn_reg(ir, inst),
        Thumb16InstId::OrrReg => thumb16_orr_reg(ir, inst),
        Thumb16InstId::MulReg => thumb16_mul_reg(ir, inst),
        Thumb16InstId::BicReg => thumb16_bic_reg(ir, inst),
        Thumb16InstId::MvnReg => thumb16_mvn_reg(ir, inst),
        Thumb16InstId::AddRegT2 => thumb16_add_reg_t2(ir, inst),
        Thumb16InstId::CmpRegT2 => thumb16_cmp_reg_t2(ir, inst),
        Thumb16InstId::MovReg => thumb16_mov_reg(ir, inst),
        Thumb16InstId::BX => thumb16_bx(ir, inst.rm_hi()),
        Thumb16InstId::BlxReg => thumb16_blx_reg(ir, inst),
        Thumb16InstId::BT1 => thumb16_b_cond(ir, inst),
        Thumb16InstId::BT2 => thumb16_b_uncond(ir, inst),
        Thumb16InstId::LdrLiteral => thumb16_ldr_literal(ir, inst),
        Thumb16InstId::LdrReg => thumb16_ldr_reg(ir, inst),
        Thumb16InstId::LdrImmT1 => thumb16_ldr_imm_t1(ir, inst),
        Thumb16InstId::LdrImmT2 => thumb16_ldr_imm_t2(ir, inst),
        Thumb16InstId::StrReg => thumb16_str_reg(ir, inst),
        Thumb16InstId::StrImmT1 => thumb16_str_imm_t1(ir, inst),
        Thumb16InstId::StrImmT2 => thumb16_str_imm_t2(ir, inst),
        Thumb16InstId::LdrbReg => thumb16_ldrb_reg(ir, inst),
        Thumb16InstId::LdrbImm => thumb16_ldrb_imm(ir, inst),
        Thumb16InstId::StrbReg => thumb16_strb_reg(ir, inst),
        Thumb16InstId::StrbImm => thumb16_strb_imm(ir, inst),
        Thumb16InstId::LdrhReg => thumb16_ldrh_reg(ir, inst),
        Thumb16InstId::LdrhImm => thumb16_ldrh_imm(ir, inst),
        Thumb16InstId::StrhReg => thumb16_strh_reg(ir, inst),
        Thumb16InstId::StrhImm => thumb16_strh_imm(ir, inst),
        Thumb16InstId::LdrsbReg => thumb16_ldrsb_reg(ir, inst),
        Thumb16InstId::LdrshReg => thumb16_ldrsh_reg(ir, inst),
        Thumb16InstId::ADR => thumb16_adr(ir, inst),
        Thumb16InstId::AddSpT1 => thumb16_add_sp_imm_t1(ir, inst),
        Thumb16InstId::AddSpT2 => thumb16_add_sp_imm_t2(ir, inst),
        Thumb16InstId::SubSp => thumb16_sub_sp(ir, inst),
        Thumb16InstId::SXTH => thumb16_sxth(ir, inst),
        Thumb16InstId::SXTB => thumb16_sxtb(ir, inst),
        Thumb16InstId::UXTH => thumb16_uxth(ir, inst),
        Thumb16InstId::UXTB => thumb16_uxtb(ir, inst),
        Thumb16InstId::PUSH => thumb16_push(ir, inst),
        Thumb16InstId::POP => thumb16_pop(ir, inst),
        Thumb16InstId::STMIA => thumb16_stmia(ir, inst),
        Thumb16InstId::LDMIA => thumb16_ldmia(ir, inst),
        Thumb16InstId::REV => thumb16_rev(ir, inst),
        Thumb16InstId::REV16 => thumb16_rev16(ir, inst),
        Thumb16InstId::REVSH => thumb16_revsh(ir, inst),
        Thumb16InstId::SVC => thumb16_svc(ir, inst),
        Thumb16InstId::IT => thumb16_it(ir, inst),
        Thumb16InstId::CbzCbnz => thumb16_cbz_cbnz(ir, inst),
        Thumb16InstId::SEV => thumb16_hint(ir, options, Exception::SendEvent),
        Thumb16InstId::SEVL => thumb16_hint(ir, options, Exception::SendEventLocal),
        Thumb16InstId::WFE => thumb16_hint(ir, options, Exception::WaitForEvent),
        Thumb16InstId::WFI => thumb16_hint(ir, options, Exception::WaitForInterrupt),
        Thumb16InstId::YIELD => thumb16_hint(ir, options, Exception::Yield),
        Thumb16InstId::BKPT => raise_exception_with_instruction_size(ir, Exception::Breakpoint, 2),
        Thumb16InstId::UDF | Thumb16InstId::Unknown => raise_exception_with_instruction_size(
            ir,
            Exception::UndefinedInstruction,
            2,
        ),
        Thumb16InstId::NOP | Thumb16InstId::SETEND | Thumb16InstId::CPS => true,
    }
}

} // verus!
