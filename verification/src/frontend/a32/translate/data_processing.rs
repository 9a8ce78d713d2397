//! Data processing instructions.

use vstd::prelude::*;
use super::helpers::{emit_imm_shift, emit_reg_shift, imm_shift_ir, reg_shift_ir};
use super::{unpredictable_instruction, unpredictable_ir};
use crate::frontend::a32::decoder::{
    arm_expand_imm, arm_expand_imm_c, expanded_imm, ArmInstId, DecodedArm,
};
use crate::frontend::a32::types::Reg;
use crate::ir::a32_emitter::{A32IREmitter, EmitterState};
use crate::ir::opcode::Opcode;
use crate::ir::terminal::Terminal;
use crate::ir::value::Value;

verus! {

broadcast use crate::bits::and_le_mask;

/// A data processing operation.
#[derive(Clone, Copy, Debug, PartialEq, Eq, Structural)]
pub enum DpOp {
    And,
    Eor,
    Sub,
    Rsb,
    Add,
    Adc,
    Sbc,
    Rsc,
    Tst,
    Teq,
    Cmp,
    Cmn,
    Orr,
    Mov,
    Bic,
    Mvn,
}

impl DpOp {
    /// Whether the operation has a first operand register.
    #[verifier::allow_in_spec]
    pub fn reads_rn(self) -> bool
        returns
            self != DpOp::Mov && self != DpOp::Mvn,
    {
        self != DpOp::Mov && self != DpOp::Mvn
    }

    /// Whether the operation has a destination register; the others only set
    /// the flags.
    #[verifier::allow_in_spec]
    pub fn writes_rd(self) -> bool
        returns
            self != DpOp::Tst && self != DpOp::Teq && self != DpOp::Cmp && self != DpOp::Cmn,
    {
        self != DpOp::Tst && self != DpOp::Teq && self != DpOp::Cmp && self != DpOp::Cmn
    }

    /// Whether the operation is logical: its carry comes from the shifter and
    /// it leaves the overflow flag alone.
    #[verifier::allow_in_spec]
    pub fn is_logical(self) -> bool
        returns
            self == DpOp::And || self == DpOp::Eor || self == DpOp::Tst || self == DpOp::Teq
                || self == DpOp::Orr || self == DpOp::Mov || self == DpOp::Bic || self
                == DpOp::Mvn,
    {
        matches!(
            self,
            DpOp::And
                | DpOp::Eor
                | DpOp::Tst
                | DpOp::Teq
                | DpOp::Orr
                | DpOp::Mov
                | DpOp::Bic
                | DpOp::Mvn
        )
    }
}

/// The operation of a data processing instruction.
pub open spec fn dp_op(id: ArmInstId) -> Option<DpOp> {
    match id {
        ArmInstId::AND_imm | ArmInstId::AND_reg | ArmInstId::AND_rsr => Some(DpOp::And),
        ArmInstId::EOR_imm | ArmInstId::EOR_reg | ArmInstId::EOR_rsr => Some(DpOp::Eor),
        ArmInstId::SUB_imm | ArmInstId::SUB_reg | ArmInstId::SUB_rsr => Some(DpOp::Sub),
        ArmInstId::RSB_imm | ArmInstId::RSB_reg | ArmInstId::RSB_rsr => Some(DpOp::Rsb),
        ArmInstId::ADD_imm | ArmInstId::ADD_reg | ArmInstId::ADD_rsr => Some(DpOp::Add),
        ArmInstId::ADC_imm | ArmInstId::ADC_reg | ArmInstId::ADC_rsr => Some(DpOp::Adc),
        ArmInstId::SBC_imm | ArmInstId::SBC_reg | ArmInstId::SBC_rsr => Some(DpOp::Sbc),
        ArmInstId::RSC_imm | ArmInstId::RSC_reg | ArmInstId::RSC_rsr => Some(DpOp::Rsc),
        ArmInstId::TST_imm | ArmInstId::TST_reg | ArmInstId::TST_rsr => Some(DpOp::Tst),
        ArmInstId::TEQ_imm | ArmInstId::TEQ_reg | ArmInstId::TEQ_rsr => Some(DpOp::Teq),
        ArmInstId::CMP_imm | ArmInstId::CMP_reg | ArmInstId::CMP_rsr => Some(DpOp::Cmp),
        ArmInstId::CMN_imm | ArmInstId::CMN_reg | ArmInstId::CMN_rsr => Some(DpOp::Cmn),
        ArmInstId::ORR_imm | ArmInstId::ORR_reg | ArmInstId::ORR_rsr => Some(DpOp::Orr),
        ArmInstId::MOV_imm | ArmInstId::MOV_reg | ArmInstId::MOV_rsr => Some(DpOp::Mov),
        ArmInstId::BIC_imm | ArmInstId::BIC_reg | ArmInstId::BIC_rsr => Some(DpOp::Bic),
        ArmInstId::MVN_imm | ArmInstId::MVN_reg | ArmInstId::MVN_rsr => Some(DpOp::Mvn),
        _ => None,
    }
}

fn classify(id: ArmInstId) -> (r: Option<DpOp>)
    ensures
        r == dp_op(id),
{
    match id {
        ArmInstId::AND_imm | ArmInstId::AND_reg | ArmInstId::AND_rsr => Some(DpOp::And),
        ArmInstId::EOR_imm | ArmInstId::EOR_reg | ArmInstId::EOR_rsr => Some(DpOp::Eor),
        ArmInstId::SUB_imm | ArmInstId::SUB_reg | ArmInstId::SUB_rsr => Some(DpOp::Sub),
        ArmInstId::RSB_imm | ArmInstId::RSB_reg | ArmInstId::RSB_rsr => Some(DpOp::Rsb),
        ArmInstId::ADD_imm | ArmInstId::ADD_reg | ArmInstId::ADD_rsr => Some(DpOp::Add),
        ArmInstId::ADC_imm | ArmInstId::ADC_reg | ArmInstId::ADC_rsr => Some(DpOp::Adc),
        ArmInstId::SBC_imm | ArmInstId::SBC_reg | ArmInstId::SBC_rsr => Some(DpOp::Sbc),
        ArmInstId::RSC_imm | ArmInstId::RSC_reg | ArmInstId::RSC_rsr => Some(DpOp::Rsc),
        ArmInstId::TST_imm | ArmInstId::TST_reg | ArmInstId::TST_rsr => Some(DpOp::Tst),
        ArmInstId::TEQ_imm | ArmInstId::TEQ_reg | ArmInstId::TEQ_rsr => Some(DpOp::Teq),
        ArmInstId::CMP_imm | ArmInstId::CMP_reg | ArmInstId::CMP_rsr => Some(DpOp::Cmp),
        ArmInstId::CMN_imm | ArmInstId::CMN_reg | ArmInstId::CMN_rsr => Some(DpOp::Cmn),
        ArmInstId::ORR_imm | ArmInstId::ORR_reg | ArmInstId::ORR_rsr => Some(DpOp::Orr),
        ArmInstId::MOV_imm | ArmInstId::MOV_reg | ArmInstId::MOV_rsr => Some(DpOp::Mov),
        ArmInstId::BIC_imm | ArmInstId::BIC_reg | ArmInstId::BIC_rsr => Some(DpOp::Bic),
        ArmInstId::MVN_imm | ArmInstId::MVN_reg | ArmInstId::MVN_rsr => Some(DpOp::Mvn),
        _ => None,
    }
}

/// The first operand: register `Rn`, for the operations that have one.
pub open spec fn operand1_ir(s: EmitterState, op: DpOp, rn: Reg) -> (EmitterState, Value) {
    if op.reads_rn() {
        s.get_register(rn)
    } else {
        (s, Value::ImmU32(0))
    }
}

/// The result of an operation on two operands.
pub open spec fn alu_ir(s: EmitterState, op: DpOp, a: Value, b: Value) -> (EmitterState, Value) {
    match op {
        DpOp::And | DpOp::Tst => s.op2(Opcode::And32, a, b),
        DpOp::Eor | DpOp::Teq => s.op2(Opcode::Eor32, a, b),
        DpOp::Orr => s.op2(Opcode::Or32, a, b),
        DpOp::Bic => s.op2(Opcode::AndNot32, a, b),
        DpOp::Mov => (s, b),
        DpOp::Mvn => s.op1(Opcode::Not32, b),
        DpOp::Add | DpOp::Cmn => s.op3(Opcode::Add32, a, b, Value::ImmU1(false)),
        DpOp::Sub | DpOp::Cmp => s.op3(Opcode::Sub32, a, b, Value::ImmU1(true)),
        DpOp::Rsb => s.op3(Opcode::Sub32, b, a, Value::ImmU1(true)),
        DpOp::Adc => {
            let (s, c) = s.op0(Opcode::A32GetCFlag);
            s.op3(Opcode::Add32, a, b, c)
        },
        DpOp::Sbc => {
            let (s, c) = s.op0(Opcode::A32GetCFlag);
            s.op3(Opcode::Sub32, a, b, c)
        },
        DpOp::Rsc => {
            let (s, c) = s.op0(Opcode::A32GetCFlag);
            s.op3(Opcode::Sub32, b, a, c)
        },
    }
}

/// Setting the flags from a result. A logical operation takes the carry from
/// the shifter; a move first makes its result the result of an instruction.
pub open spec fn flags_ir(s: EmitterState, op: DpOp, result: Value, carry: Value) -> EmitterState {
    if op.is_logical() {
        let (s, flagged) = if op == DpOp::Mov || op == DpOp::Mvn {
            s.op2(Opcode::Or32, result, Value::ImmU32(0))
        } else {
            (s, result)
        };
        let (s, nz) = s.op1(Opcode::GetNZFromOp, flagged);
        s.op2(Opcode::A32SetCpsrNZC, nz, carry).0
    } else {
        let (s, nzcv) = s.op1(Opcode::GetNZCVFromOp, result);
        s.op1(Opcode::A32SetCpsrNZCV, nzcv).0
    }
}

/// The end of a data processing instruction: the result, then the flags if
/// asked for, then the destination register. A result for the program counter
/// is a branch, which may not set the flags.
pub open spec fn dp_emit_ir(
    s: EmitterState,
    op: DpOp,
    rd: Reg,
    set_flags: bool,
    a: Value,
    b: Value,
    carry: Value,
) -> (EmitterState, bool) {
    let (s, result) = alu_ir(s, op, a, b);
    if op.writes_rd() && rd == Reg::R15 {
        if set_flags {
            unpredictable_ir(s)
        } else {
            (s.branch_write_pc(result).end(Terminal::ReturnToDispatch), false)
        }
    } else {
        let s = if set_flags || !op.writes_rd() {
            flags_ir(s, op, result, carry)
        } else {
            s
        };
        (
            if op.writes_rd() {
                s.set_register(rd, result)
            } else {
                s
            },
            true,
        )
    }
}

fn dp_emit(
    ir: &mut A32IREmitter,
    op: DpOp,
    rd: Reg,
    s: bool,
    operand1: Value,
    operand2: Value,
    carry: Value,
) -> (r: bool)
    ensures
        (final(ir)@, r) == dp_emit_ir(old(ir)@, op, rd, s, operand1, operand2, carry),
{
    let result = match op {
        DpOp::And | DpOp::Tst => ir.and_32(operand1, operand2),
        DpOp::Eor | DpOp::Teq => ir.eor_32(operand1, operand2),
        DpOp::Sub | DpOp::Cmp => ir.sub_32(operand1, operand2, Value::ImmU1(true)),
        DpOp::Rsb => ir.sub_32(operand2, operand1, Value::ImmU1(true)),
        DpOp::Add | DpOp::Cmn => ir.add_32(operand1, operand2, Value::ImmU1(false)),
        DpOp::Adc => {
            let c = ir.get_c_flag();
            ir.add_32(operand1, operand2, c)
        },
        DpOp::Sbc => {
            let c = ir.get_c_flag();
            ir.sub_32(operand1, operand2, c)
        },
        DpOp::Rsc => {
            let c = ir.get_c_flag();
            ir.sub_32(operand2, operand1, c)
        },
        DpOp::Orr => ir.or_32(operand1, operand2),
        DpOp::Mov => operand2,
        DpOp::Bic => ir.and_not_32(operand1, operand2),
        DpOp::Mvn => ir.not_32(operand2),
    };

    if op.writes_rd() && rd == Reg::R15 {
        if s {
            return unpredictable_instruction(ir);
        }
        ir.alu_write_pc(result);
        ir.set_term(Terminal::ReturnToDispatch);
        return false;
    }
    if s || !op.writes_rd() {
        if op.is_logical() {
            let flagged = match op {
                DpOp::Mov | DpOp::Mvn => ir.or_32(result, Value::ImmU32(0)),
                _ => result,
            };
            let nz = ir.get_nz_from_op(flagged);
            ir.set_cpsr_nzc(nz, carry);
        } else {
            let nzcv = ir.get_nzcv_from_op(result);
            ir.set_cpsr_nzcv(nzcv);
        }
    }
    if op.writes_rd() {
        ir.set_register(rd, result);
    }
    true
}

/// Data processing with an immediate. A logical operation reads the carry
/// flag, which its carry is unless the immediate is turned.
pub open spec fn arm_dp_imm_ir(s: EmitterState, inst: DecodedArm) -> (EmitterState, bool) {
    match dp_op(inst.id) {
        None => (s, true),
        Some(op) => {
            let imm = expanded_imm(inst.rotate(), inst.imm8());
            let (s, carry) = if op.is_logical() {
                let (s, c) = s.op0(Opcode::A32GetCFlag);
                (
                    s,
                    if inst.rotate() == 0 {
                        c
                    } else {
                        Value::ImmU1(imm & 0x8000_0000 != 0)
                    },
                )
            } else {
                (s, Value::ImmU1(false))
            };
            let (s, a) = operand1_ir(s, op, inst.rn());
            dp_emit_ir(s, op, inst.rd(), inst.s_flag(), a, Value::ImmU32(imm), carry)
        },
    }
}

/// Translates data processing with an immediate.
pub fn arm_dp_imm(ir: &mut A32IREmitter, inst: &DecodedArm) -> (r: bool)
    ensures
        (final(ir)@, r) == arm_dp_imm_ir(old(ir)@, *inst),
{
    let rd = inst.rd();
    let rn = inst.rn();
    let s = inst.s_flag();
    let rotate: u32 = inst.rotate();
    let imm8: u32 = inst.imm8();
    let op = match classify(inst.id) {
        Some(op) => op,
        None => {
            return true;
        },
    };
    assert(rotate & 0xF == rotate) by (bit_vector)
        requires
            rotate <= 0xF,
    ;
    let imm: u32;
    let carry: Value;
    if op.is_logical() {
        let carry_in = ir.get_c_flag();
        let (value, carry_bit): (u32, bool) = arm_expand_imm_c(rotate, imm8, false);
        imm = value;
        carry = if rotate == 0 { carry_in } else { Value::ImmU1(carry_bit) };
    } else {
        imm = arm_expand_imm(rotate, imm8);
        carry = Value::ImmU1(false);
    }
    let operand1 = if op.reads_rn() { ir.get_register(rn) } else { Value::ImmU32(0) };
    dp_emit(ir, op, rd, s, operand1, Value::ImmU32(imm), carry)
}

/// Data processing with a register shifted by a constant.
pub open spec fn arm_dp_reg_ir(s: EmitterState, inst: DecodedArm) -> (EmitterState, bool) {
    match dp_op(inst.id) {
        None => (s, true),
        Some(op) => {
            let (s, c) = s.op0(Opcode::A32GetCFlag);
            let (s, m) = s.get_register(inst.rm());
            let (s, (shifted, carry)) = imm_shift_ir(s, m, inst.shift_type(), inst.imm5(), c);
            let (s, a) = operand1_ir(s, op, inst.rn());
            dp_emit_ir(s, op, inst.rd(), inst.s_flag(), a, shifted, carry)
        },
    }
}

/// Translates data processing with a register shifted by a constant.
pub fn arm_dp_reg(ir: &mut A32IREmitter, inst: &DecodedArm) -> (r: bool)
    ensures
        (final(ir)@, r) == arm_dp_reg_ir(old(ir)@, *inst),
{
    let rd = inst.rd();
    let rn = inst.rn();
    let rm = inst.rm();
    let s = inst.s_flag();
    let shift_type = inst.shift_type();
    let imm5: u32 = inst.imm5();
    let op = match classify(inst.id) {
        Some(op) => op,
        None => {
            return true;
        },
    };
    let carry_in = ir.get_c_flag();
    let rm_val = ir.get_register(rm);
    let (shifted, carry) = emit_imm_shift(ir, rm_val, shift_type, imm5, carry_in);
    let operand1 = if op.reads_rn() { ir.get_register(rn) } else { Value::ImmU32(0) };
    dp_emit(ir, op, rd, s, operand1, shifted, carry)
}

/// Data processing with a register shifted by a register. The program counter
/// may take no part in it.
pub open spec fn arm_dp_rsr_ir(s: EmitterState, inst: DecodedArm) -> (EmitterState, bool) {
    match dp_op(inst.id) {
        None => (s, true),
        Some(op) => if inst.rm() == Reg::R15 || inst.rs() == Reg::R15 || (op.reads_rn()
            && inst.rn() == Reg::R15) || (op.writes_rd() && inst.rd() == Reg::R15) {
            unpredictable_ir(s)
        } else {
            let (s, shift) = s.get_register(inst.rs());
            let (s, amount) = s.op1(Opcode::LeastSignificantByte, shift);
            let (s, c) = s.op0(Opcode::A32GetCFlag);
            let (s, m) = s.get_register(inst.rm());
            let (s, (shifted, carry)) = reg_shift_ir(s, m, inst.shift_type(), amount, c);
            let (s, a) = operand1_ir(s, op, inst.rn());
            dp_emit_ir(s, op, inst.rd(), inst.s_flag(), a, shifted, carry)
        },
    }
}

/// Translates data processing with a register shifted by a register.
pub fn arm_dp_rsr(ir: &mut A32IREmitter, inst: &DecodedArm) -> (r: bool)
    ensures
        (final(ir)@, r) == arm_dp_rsr_ir(old(ir)@, *inst),
{
    let rd = inst.rd();
    let rn = inst.rn();
    let rm = inst.rm();
    let rs = inst.rs();
    let s = inst.s_flag();
    let shift_type = inst.shift_type();
    let op = match classify(inst.id) {
        Some(op) => op,
        None => {
            return true;
        },
    };
    if rm == Reg::R15 || rs == Reg::R15 || (op.reads_rn() && rn == Reg::R15) || (op.writes_rd()
        && rd == Reg::R15) {
        return unpredictable_instruction(ir);
    }
    let rs_val = ir.get_register(rs);
    let rs_amount = ir.least_significant_byte(rs_val);
    let carry_in = ir.get_c_flag();
    let rm_val = ir.get_register(rm);
    let (shifted, carry) = emit_reg_shift(ir, rm_val, shift_type, rs_amount, carry_in);
    let operand1 = if op.reads_rn() { ir.get_register(rn) } else { Value::ImmU32(0) };
    dp_emit(ir, op, rd, s, operand1, shifted, carry)
}

} // verus!
