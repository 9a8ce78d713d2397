//! What data processing instructions of ARM code compute.

use vstd::prelude::*;
use super::arm_dispatch::translate_arm_instruction_ir;
use super::data_processing::{
    arm_dp_imm_ir, arm_dp_reg_ir, arm_dp_rsr_ir, dp_emit_ir, dp_op, operand1_ir, DpOp,
};
use super::helpers::{imm_shift_ir, reg_shift_ir};
use super::{unpredictable_ir, TranslationOptions};
use crate::bits::rotated_right;
use crate::frontend::a32::decoder::{expanded_imm, ArmInstId, DecodedArm};
use crate::frontend::a32::types::{reg, shift_type, Reg, ShiftType};
use crate::ir::a32_emitter::EmitterState;
use crate::ir::meaning::{
    as_word, group_run, operand, overflows, run, shifted_word, signed_word, turned_through_carry,
    Flags, Machine,
};
use crate::ir::meaning_steps::group_steps;
use crate::ir::opcode::Opcode;
use crate::ir::value::Value;

verus! {

broadcast use {crate::bits::and_le_mask, crate::bits::mask_twice, crate::bits::or_nothing};

/// What a register reads as: the program counter is two instructions ahead.
pub open spec fn register_read(s: EmitterState, m: Machine, r: Reg) -> u32 {
    if r == Reg::R15 {
        s.loc.arm_pc.wrapping_add(if s.loc.cpsr.t { 4 } else { 8 })
    } else {
        m.regs[r]
    }
}

/// Whether an instruction has an immediate as its second operand.
pub open spec fn is_dp_imm(id: ArmInstId) -> bool {
    match id {
        ArmInstId::AND_imm | ArmInstId::EOR_imm | ArmInstId::SUB_imm
        | ArmInstId::RSB_imm | ArmInstId::ADD_imm | ArmInstId::ADC_imm
        | ArmInstId::SBC_imm | ArmInstId::RSC_imm | ArmInstId::TST_imm
        | ArmInstId::TEQ_imm | ArmInstId::CMP_imm | ArmInstId::CMN_imm
        | ArmInstId::ORR_imm | ArmInstId::MOV_imm | ArmInstId::BIC_imm
        | ArmInstId::MVN_imm => true,
        _ => false,
    }
}

/// Whether an instruction has a register shifted by a constant as its second
/// operand.
pub open spec fn is_dp_reg(id: ArmInstId) -> bool {
    match id {
        ArmInstId::AND_reg | ArmInstId::EOR_reg | ArmInstId::SUB_reg
        | ArmInstId::RSB_reg | ArmInstId::ADD_reg | ArmInstId::ADC_reg
        | ArmInstId::SBC_reg | ArmInstId::RSC_reg | ArmInstId::TST_reg
        | ArmInstId::TEQ_reg | ArmInstId::CMP_reg | ArmInstId::CMN_reg
        | ArmInstId::ORR_reg | ArmInstId::MOV_reg | ArmInstId::BIC_reg
        | ArmInstId::MVN_reg => true,
        _ => false,
    }
}

/// Whether an instruction has a register shifted by a register as its second
/// operand.
pub open spec fn is_dp_rsr(id: ArmInstId) -> bool {
    match id {
        ArmInstId::AND_rsr | ArmInstId::EOR_rsr | ArmInstId::SUB_rsr
        | ArmInstId::RSB_rsr | ArmInstId::ADD_rsr | ArmInstId::ADC_rsr
        | ArmInstId::SBC_rsr | ArmInstId::RSC_rsr | ArmInstId::TST_rsr
        | ArmInstId::TEQ_rsr | ArmInstId::CMP_rsr | ArmInstId::CMN_rsr
        | ArmInstId::ORR_rsr | ArmInstId::MOV_rsr | ArmInstId::BIC_rsr
        | ArmInstId::MVN_rsr => true,
        _ => false,
    }
}

/// The second operand of a data processing instruction and the carry of the
/// shifter. An immediate is a byte turned right by twice a four-bit number. A
/// constant shift by zero places means 32 places to the right, or a rotation
/// through the carry; a shift by a register goes by its low byte.
pub open spec fn documented_operand(s: EmitterState, m: Machine, inst: DecodedArm) -> (u32, bool) {
    let raw = inst.raw;
    let shift = shift_type((raw >> 5) & 3);
    let places = (raw >> 7) & 0x1F;
    let rm = register_read(s, m, reg(raw & 0xF));
    if is_dp_imm(inst.id) {
        let turn = (raw >> 8) & 0xF;
        let imm = rotated_right(raw & 0xFF, (2 * turn) as u32);
        (imm, if turn == 0 { m.flags.c } else { imm & 0x8000_0000 != 0 })
    } else if is_dp_rsr(inst.id) {
        shifted_word(shift, rm, m.regs[reg((raw >> 8) & 0xF)] & 0xFF, m.flags.c)
    } else if places != 0 || shift == ShiftType::LSL {
        shifted_word(shift, rm, places, m.flags.c)
    } else if shift == ShiftType::ROR {
        turned_through_carry(rm, m.flags.c)
    } else {
        shifted_word(shift, rm, 32, m.flags.c)
    }
}

/// A result with the carry and overflow flags that go with it.
pub struct Flagged {
    pub word: u32,
    pub c: bool,
    pub v: bool,
}

/// The result of adding numbers: `unsigned` is the sum of the operands, and
/// `signed` their sum in two's complement.
pub open spec fn added(unsigned: int, signed: int) -> Flagged {
    Flagged { word: as_word(unsigned), c: unsigned >= 0x1_0000_0000, v: overflows(signed) }
}

/// The result of taking numbers from one another.
pub open spec fn subtracted(unsigned: int, signed: int) -> Flagged {
    Flagged { word: as_word(unsigned), c: unsigned >= 0, v: overflows(signed) }
}

/// What a data processing instruction computes from its first operand `a`,
/// its second operand `b` and the flags. Logical operations take the carry
/// from the shifter and keep the overflow flag.
pub open spec fn documented_result(
    id: ArmInstId,
    a: u32,
    b: u32,
    shifter_carry: bool,
    flags: Flags,
) -> Flagged {
    let logical = |word: u32| Flagged { word, c: shifter_carry, v: flags.v };
    let (sa, sb) = (signed_word(a), signed_word(b));
    let (c, borrow): (int, int) = if flags.c { (1, 0) } else { (0, 1) };
    match id {
        ArmInstId::AND_imm | ArmInstId::AND_reg | ArmInstId::AND_rsr
        | ArmInstId::TST_imm | ArmInstId::TST_reg | ArmInstId::TST_rsr => {
            logical(a & b)
        },
        ArmInstId::EOR_imm | ArmInstId::EOR_reg | ArmInstId::EOR_rsr
        | ArmInstId::TEQ_imm | ArmInstId::TEQ_reg | ArmInstId::TEQ_rsr => {
            logical(a ^ b)
        },
        ArmInstId::SUB_imm | ArmInstId::SUB_reg | ArmInstId::SUB_rsr
        | ArmInstId::CMP_imm | ArmInstId::CMP_reg | ArmInstId::CMP_rsr => {
            subtracted(a - b, sa - sb)
        },
        ArmInstId::RSB_imm | ArmInstId::RSB_reg | ArmInstId::RSB_rsr => {
            subtracted(b - a, sb - sa)
        },
        ArmInstId::ADD_imm | ArmInstId::ADD_reg | ArmInstId::ADD_rsr
        | ArmInstId::CMN_imm | ArmInstId::CMN_reg | ArmInstId::CMN_rsr => {
            added(a + b, sa + sb)
        },
        ArmInstId::ADC_imm | ArmInstId::ADC_reg | ArmInstId::ADC_rsr => {
            added(a + b + c, sa + sb + c)
        },
        ArmInstId::SBC_imm | ArmInstId::SBC_reg | ArmInstId::SBC_rsr => {
            subtracted(a - b - borrow, sa - sb - borrow)
        },
        ArmInstId::RSC_imm | ArmInstId::RSC_reg | ArmInstId::RSC_rsr => {
            subtracted(b - a - borrow, sb - sa - borrow)
        },
        ArmInstId::ORR_imm | ArmInstId::ORR_reg | ArmInstId::ORR_rsr => {
            logical(a | b)
        },
        ArmInstId::MOV_imm | ArmInstId::MOV_reg | ArmInstId::MOV_rsr => {
            logical(b)
        },
        ArmInstId::BIC_imm | ArmInstId::BIC_reg | ArmInstId::BIC_rsr => {
            logical(a & !b)
        },
        ArmInstId::MVN_imm | ArmInstId::MVN_reg | ArmInstId::MVN_rsr => {
            logical(!b)
        },
        _ => arbitrary(),
    }
}

/// Whether an instruction only sets the flags.
pub open spec fn only_compares(id: ArmInstId) -> bool {
    match id {
        ArmInstId::TST_imm | ArmInstId::TST_reg | ArmInstId::TST_rsr
        | ArmInstId::TEQ_imm | ArmInstId::TEQ_reg | ArmInstId::TEQ_rsr
        | ArmInstId::CMP_imm | ArmInstId::CMP_reg | ArmInstId::CMP_rsr
        | ArmInstId::CMN_imm | ArmInstId::CMN_reg | ArmInstId::CMN_rsr => {
            true
        },
        _ => false,
    }
}

/// Whether an instruction has no first operand.
pub open spec fn only_moves(id: ArmInstId) -> bool {
    match id {
        ArmInstId::MOV_imm | ArmInstId::MOV_reg | ArmInstId::MOV_rsr
        | ArmInstId::MVN_imm | ArmInstId::MVN_reg | ArmInstId::MVN_rsr => true,
        _ => false,
    }
}

/// What is owed of an operation on the operands `a` and `b`: the destination
/// register gets the result, the flags follow from it if they are asked for or
/// the instruction only compares, and nothing else changes. A result for the
/// program counter is a branch, which is unpredictable with flags.
pub open spec fn computes(
    s: EmitterState,
    id: ArmInstId,
    rd: Reg,
    set_flags: bool,
    a: u32,
    b: u32,
    shifter_carry: bool,
    r: (EmitterState, bool),
    m: Machine,
) -> bool {
    let (before, after) = (run(s, m).machine, run(r.0, m).machine);
    let x = documented_result(id, a, b, shifter_carry, before.flags);
    let branches = !only_compares(id) && rd == Reg::R15;
    let flags = if only_compares(id) || set_flags {
        Flags { n: x.word >= 0x8000_0000, z: x.word == 0, c: x.c, v: x.v }
    } else {
        before.flags
    };
    &&& r.1 == !branches
    &&& !branches ==> after == (Machine {
        regs: if only_compares(id) {
            before.regs
        } else {
            before.regs.insert(rd, x.word)
        },
        flags,
        ..before
    })
    &&& branches && !set_flags ==> after == (Machine {
        regs: before.regs.insert(
            Reg::R15,
            x.word & (if s.loc.cpsr.t {
                0xFFFF_FFFEu32
            } else {
                0xFFFF_FFFCu32
            }),
        ),
        ..before
    })
}

/// What is owed of the translation of a data processing instruction: it
/// computes its result from its operands. The program counter together with a
/// shift by a register is unpredictable.
pub open spec fn data_processing_is_right(
    s: EmitterState,
    inst: DecodedArm,
    r: (EmitterState, bool),
    m: Machine,
) -> bool {
    let before = run(s, m).machine;
    let raw = inst.raw;
    let (rd, rn) = (reg((raw >> 12) & 0xF), reg((raw >> 16) & 0xF));
    let (b, shifter_carry) = documented_operand(s, before, inst);
    let a = register_read(s, before, rn);
    let unpredictable = is_dp_rsr(inst.id) && ((!only_compares(inst.id) && rd == Reg::R15) || reg(
        raw & 0xF,
    ) == Reg::R15 || reg((raw >> 8) & 0xF) == Reg::R15 || (!only_moves(inst.id) && rn
        == Reg::R15));
    if unpredictable {
        r == unpredictable_ir(s)
    } else {
        computes(s, inst.id, rd, raw & 0x10_0000 != 0, a, b, shifter_carry, r, m)
    }
}

/// Whether an operand is an immediate or the result of an emitted instruction.
pub open spec fn is_known(s: EmitterState, value: Value) -> bool {
    value matches Value::Inst(at) ==> at.0 < s.code.len()
}

proof fn and_computes(
    s: EmitterState,
    id: ArmInstId,
    rd: Reg,
    set_flags: bool,
    a: Value,
    b: Value,
    carry: Value,
    m: Machine,
)
    requires
        id == ArmInstId::AND_imm || id == ArmInstId::AND_reg || id == ArmInstId::AND_rsr,
        is_known(s, a),
        is_known(s, b),
        is_known(s, carry),
        s.code.len() + 16 <= usize::MAX,
    ensures
        computes(
            s,
            id,
            rd,
            set_flags,
            operand(run(s, m), a).word,
            operand(run(s, m), b).word,
            operand(run(s, m), carry).bit,
            dp_emit_ir(s, DpOp::And, rd, set_flags, a, b, carry),
            m,
        ),
{
    broadcast use {group_run, group_steps};

}

proof fn eor_computes(
    s: EmitterState,
    id: ArmInstId,
    rd: Reg,
    set_flags: bool,
    a: Value,
    b: Value,
    carry: Value,
    m: Machine,
)
    requires
        id == ArmInstId::EOR_imm || id == ArmInstId::EOR_reg || id == ArmInstId::EOR_rsr,
        is_known(s, a),
        is_known(s, b),
        is_known(s, carry),
        s.code.len() + 16 <= usize::MAX,
    ensures
        computes(
            s,
            id,
            rd,
            set_flags,
            operand(run(s, m), a).word,
            operand(run(s, m), b).word,
            operand(run(s, m), carry).bit,
            dp_emit_ir(s, DpOp::Eor, rd, set_flags, a, b, carry),
            m,
        ),
{
    broadcast use {group_run, group_steps};

}

proof fn sub_computes(
    s: EmitterState,
    id: ArmInstId,
    rd: Reg,
    set_flags: bool,
    a: Value,
    b: Value,
    carry: Value,
    m: Machine,
)
    requires
        id == ArmInstId::SUB_imm || id == ArmInstId::SUB_reg || id == ArmInstId::SUB_rsr,
        is_known(s, a),
        is_known(s, b),
        is_known(s, carry),
        s.code.len() + 16 <= usize::MAX,
    ensures
        computes(
            s,
            id,
            rd,
            set_flags,
            operand(run(s, m), a).word,
            operand(run(s, m), b).word,
            operand(run(s, m), carry).bit,
            dp_emit_ir(s, DpOp::Sub, rd, set_flags, a, b, carry),
            m,
        ),
{
    broadcast use {group_run, group_steps};

}

proof fn rsb_computes(
    s: EmitterState,
    id: ArmInstId,
    rd: Reg,
    set_flags: bool,
    a: Value,
    b: Value,
    carry: Value,
    m: Machine,
)
    requires
        id == ArmInstId::RSB_imm || id == ArmInstId::RSB_reg || id == ArmInstId::RSB_rsr,
        is_known(s, a),
        is_known(s, b),
        is_known(s, carry),
        s.code.len() + 16 <= usize::MAX,
    ensures
        computes(
            s,
            id,
            rd,
            set_flags,
            operand(run(s, m), a).word,
            operand(run(s, m), b).word,
            operand(run(s, m), carry).bit,
            dp_emit_ir(s, DpOp::Rsb, rd, set_flags, a, b, carry),
            m,
        ),
{
    broadcast use {group_run, group_steps};

}

proof fn add_computes(
    s: EmitterState,
    id: ArmInstId,
    rd: Reg,
    set_flags: bool,
    a: Value,
    b: Value,
    carry: Value,
    m: Machine,
)
    requires
        id == ArmInstId::ADD_imm || id == ArmInstId::ADD_reg || id == ArmInstId::ADD_rsr,
        is_known(s, a),
        is_known(s, b),
        is_known(s, carry),
        s.code.len() + 16 <= usize::MAX,
    ensures
        computes(
            s,
            id,
            rd,
            set_flags,
            operand(run(s, m), a).word,
            operand(run(s, m), b).word,
            operand(run(s, m), carry).bit,
            dp_emit_ir(s, DpOp::Add, rd, set_flags, a, b, carry),
            m,
        ),
{
    broadcast use {group_run, group_steps};

}

proof fn adc_computes(
    s: EmitterState,
    id: ArmInstId,
    rd: Reg,
    set_flags: bool,
    a: Value,
    b: Value,
    carry: Value,
    m: Machine,
)
    requires
        id == ArmInstId::ADC_imm || id == ArmInstId::ADC_reg || id == ArmInstId::ADC_rsr,
        is_known(s, a),
        is_known(s, b),
        is_known(s, carry),
        s.code.len() + 16 <= usize::MAX,
    ensures
        computes(
            s,
            id,
            rd,
            set_flags,
            operand(run(s, m), a).word,
            operand(run(s, m), b).word,
            operand(run(s, m), carry).bit,
            dp_emit_ir(s, DpOp::Adc, rd, set_flags, a, b, carry),
            m,
        ),
{
    broadcast use {group_run, group_steps};

}

proof fn sbc_computes(
    s: EmitterState,
    id: ArmInstId,
    rd: Reg,
    set_flags: bool,
    a: Value,
    b: Value,
    carry: Value,
    m: Machine,
)
    requires
        id == ArmInstId::SBC_imm || id == ArmInstId::SBC_reg || id == ArmInstId::SBC_rsr,
        is_known(s, a),
        is_known(s, b),
        is_known(s, carry),
        s.code.len() + 16 <= usize::MAX,
    ensures
        computes(
            s,
            id,
            rd,
            set_flags,
            operand(run(s, m), a).word,
            operand(run(s, m), b).word,
            operand(run(s, m), carry).bit,
            dp_emit_ir(s, DpOp::Sbc, rd, set_flags, a, b, carry),
            m,
        ),
{
    broadcast use {group_run, group_steps};

}

proof fn rsc_computes(
    s: EmitterState,
    id: ArmInstId,
    rd: Reg,
    set_flags: bool,
    a: Value,
    b: Value,
    carry: Value,
    m: Machine,
)
    requires
        id == ArmInstId::RSC_imm || id == ArmInstId::RSC_reg || id == ArmInstId::RSC_rsr,
        is_known(s, a),
        is_known(s, b),
        is_known(s, carry),
        s.code.len() + 16 <= usize::MAX,
    ensures
        computes(
            s,
            id,
            rd,
            set_flags,
            operand(run(s, m), a).word,
            operand(run(s, m), b).word,
            operand(run(s, m), carry).bit,
            dp_emit_ir(s, DpOp::Rsc, rd, set_flags, a, b, carry),
            m,
        ),
{
    broadcast use {group_run, group_steps};

}

proof fn tst_computes(
    s: EmitterState,
    id: ArmInstId,
    rd: Reg,
    set_flags: bool,
    a: Value,
    b: Value,
    carry: Value,
    m: Machine,
)
    requires
        id == ArmInstId::TST_imm || id == ArmInstId::TST_reg || id == ArmInstId::TST_rsr,
        is_known(s, a),
        is_known(s, b),
        is_known(s, carry),
        s.code.len() + 16 <= usize::MAX,
    ensures
        computes(
            s,
            id,
            rd,
            set_flags,
            operand(run(s, m), a).word,
            operand(run(s, m), b).word,
            operand(run(s, m), carry).bit,
            dp_emit_ir(s, DpOp::Tst, rd, set_flags, a, b, carry),
            m,
        ),
{
    broadcast use {group_run, group_steps};

}

proof fn teq_computes(
    s: EmitterState,
    id: ArmInstId,
    rd: Reg,
    set_flags: bool,
    a: Value,
    b: Value,
    carry: Value,
    m: Machine,
)
    requires
        id == ArmInstId::TEQ_imm || id == ArmInstId::TEQ_reg || id == ArmInstId::TEQ_rsr,
        is_known(s, a),
        is_known(s, b),
        is_known(s, carry),
        s.code.len() + 16 <= usize::MAX,
    ensures
        computes(
            s,
            id,
            rd,
            set_flags,
            operand(run(s, m), a).word,
            operand(run(s, m), b).word,
            operand(run(s, m), carry).bit,
            dp_emit_ir(s, DpOp::Teq, rd, set_flags, a, b, carry),
            m,
        ),
{
    broadcast use {group_run, group_steps};

}

proof fn cmp_computes(
    s: EmitterState,
    id: ArmInstId,
    rd: Reg,
    set_flags: bool,
    a: Value,
    b: Value,
    carry: Value,
    m: Machine,
)
    requires
        id == ArmInstId::CMP_imm || id == ArmInstId::CMP_reg || id == ArmInstId::CMP_rsr,
        is_known(s, a),
        is_known(s, b),
        is_known(s, carry),
        s.code.len() + 16 <= usize::MAX,
    ensures
        computes(
            s,
            id,
            rd,
            set_flags,
            operand(run(s, m), a).word,
            operand(run(s, m), b).word,
            operand(run(s, m), carry).bit,
            dp_emit_ir(s, DpOp::Cmp, rd, set_flags, a, b, carry),
            m,
        ),
{
    broadcast use {group_run, group_steps};

}

proof fn cmn_computes(
    s: EmitterState,
    id: ArmInstId,
    rd: Reg,
    set_flags: bool,
    a: Value,
    b: Value,
    carry: Value,
    m: Machine,
)
    requires
        id == ArmInstId::CMN_imm || id == ArmInstId::CMN_reg || id == ArmInstId::CMN_rsr,
        is_known(s, a),
        is_known(s, b),
        is_known(s, carry),
        s.code.len() + 16 <= usize::MAX,
    ensures
        computes(
            s,
            id,
            rd,
            set_flags,
            operand(run(s, m), a).word,
            operand(run(s, m), b).word,
            operand(run(s, m), carry).bit,
            dp_emit_ir(s, DpOp::Cmn, rd, set_flags, a, b, carry),
            m,
        ),
{
    broadcast use {group_run, group_steps};

}

proof fn orr_computes(
    s: EmitterState,
    id: ArmInstId,
    rd: Reg,
    set_flags: bool,
    a: Value,
    b: Value,
    carry: Value,
    m: Machine,
)
    requires
        id == ArmInstId::ORR_imm || id == ArmInstId::ORR_reg || id == ArmInstId::ORR_rsr,
        is_known(s, a),
        is_known(s, b),
        is_known(s, carry),
        s.code.len() + 16 <= usize::MAX,
    ensures
        computes(
            s,
            id,
            rd,
            set_flags,
            operand(run(s, m), a).word,
            operand(run(s, m), b).word,
            operand(run(s, m), carry).bit,
            dp_emit_ir(s, DpOp::Orr, rd, set_flags, a, b, carry),
            m,
        ),
{
    broadcast use {group_run, group_steps};

}

proof fn mov_computes(
    s: EmitterState,
    id: ArmInstId,
    rd: Reg,
    set_flags: bool,
    a: Value,
    b: Value,
    carry: Value,
    m: Machine,
)
    requires
        id == ArmInstId::MOV_imm || id == ArmInstId::MOV_reg || id == ArmInstId::MOV_rsr,
        is_known(s, a),
        is_known(s, b),
        is_known(s, carry),
        s.code.len() + 16 <= usize::MAX,
    ensures
        computes(
            s,
            id,
            rd,
            set_flags,
            operand(run(s, m), a).word,
            operand(run(s, m), b).word,
            operand(run(s, m), carry).bit,
            dp_emit_ir(s, DpOp::Mov, rd, set_flags, a, b, carry),
            m,
        ),
{
    broadcast use {group_run, group_steps};

}

proof fn bic_computes(
    s: EmitterState,
    id: ArmInstId,
    rd: Reg,
    set_flags: bool,
    a: Value,
    b: Value,
    carry: Value,
    m: Machine,
)
    requires
        id == ArmInstId::BIC_imm || id == ArmInstId::BIC_reg || id == ArmInstId::BIC_rsr,
        is_known(s, a),
        is_known(s, b),
        is_known(s, carry),
        s.code.len() + 16 <= usize::MAX,
    ensures
        computes(
            s,
            id,
            rd,
            set_flags,
            operand(run(s, m), a).word,
            operand(run(s, m), b).word,
            operand(run(s, m), carry).bit,
            dp_emit_ir(s, DpOp::Bic, rd, set_flags, a, b, carry),
            m,
        ),
{
    broadcast use {group_run, group_steps};

}

proof fn mvn_computes(
    s: EmitterState,
    id: ArmInstId,
    rd: Reg,
    set_flags: bool,
    a: Value,
    b: Value,
    carry: Value,
    m: Machine,
)
    requires
        id == ArmInstId::MVN_imm || id == ArmInstId::MVN_reg || id == ArmInstId::MVN_rsr,
        is_known(s, a),
        is_known(s, b),
        is_known(s, carry),
        s.code.len() + 16 <= usize::MAX,
    ensures
        computes(
            s,
            id,
            rd,
            set_flags,
            operand(run(s, m), a).word,
            operand(run(s, m), b).word,
            operand(run(s, m), carry).bit,
            dp_emit_ir(s, DpOp::Mvn, rd, set_flags, a, b, carry),
            m,
        ),
{
    broadcast use {group_run, group_steps};

}

proof fn operation_computes(
    s: EmitterState,
    id: ArmInstId,
    op: DpOp,
    rd: Reg,
    set_flags: bool,
    a: Value,
    b: Value,
    carry: Value,
    m: Machine,
)
    requires
        dp_op(id) == Some(op),
        is_known(s, a),
        is_known(s, b),
        is_known(s, carry),
        s.code.len() + 16 <= usize::MAX,
    ensures
        computes(
            s,
            id,
            rd,
            set_flags,
            operand(run(s, m), a).word,
            operand(run(s, m), b).word,
            operand(run(s, m), carry).bit,
            dp_emit_ir(s, op, rd, set_flags, a, b, carry),
            m,
        ),
{
    match op {
        DpOp::And => and_computes(s, id, rd, set_flags, a, b, carry, m),
        DpOp::Eor => eor_computes(s, id, rd, set_flags, a, b, carry, m),
        DpOp::Sub => sub_computes(s, id, rd, set_flags, a, b, carry, m),
        DpOp::Rsb => rsb_computes(s, id, rd, set_flags, a, b, carry, m),
        DpOp::Add => add_computes(s, id, rd, set_flags, a, b, carry, m),
        DpOp::Adc => adc_computes(s, id, rd, set_flags, a, b, carry, m),
        DpOp::Sbc => sbc_computes(s, id, rd, set_flags, a, b, carry, m),
        DpOp::Rsc => rsc_computes(s, id, rd, set_flags, a, b, carry, m),
        DpOp::Tst => tst_computes(s, id, rd, set_flags, a, b, carry, m),
        DpOp::Teq => teq_computes(s, id, rd, set_flags, a, b, carry, m),
        DpOp::Cmp => cmp_computes(s, id, rd, set_flags, a, b, carry, m),
        DpOp::Cmn => cmn_computes(s, id, rd, set_flags, a, b, carry, m),
        DpOp::Orr => orr_computes(s, id, rd, set_flags, a, b, carry, m),
        DpOp::Mov => mov_computes(s, id, rd, set_flags, a, b, carry, m),
        DpOp::Bic => bic_computes(s, id, rd, set_flags, a, b, carry, m),
        DpOp::Mvn => mvn_computes(s, id, rd, set_flags, a, b, carry, m),
    }
}

/// The operands of an instruction have been read: the state behind `s`, the
/// operands and their values.
spec fn operands_read(
    s: EmitterState,
    t: EmitterState,
    op: DpOp,
    a: Value,
    b: Value,
    carry: Value,
    x: u32,
    y: u32,
    c: bool,
    m: Machine,
) -> bool {
    &&& t.loc == s.loc
    &&& t.code.len() <= s.code.len() + 16
    &&& run(t, m).machine == run(s, m).machine
    &&& is_known(t, a)
    &&& is_known(t, b)
    &&& is_known(t, carry)
    &&& op.reads_rn() ==> operand(run(t, m), a).word == x
    &&& operand(run(t, m), b).word == y
    &&& op.is_logical() ==> operand(run(t, m), carry).bit == c
}

proof fn imm_operands(s: EmitterState, inst: DecodedArm, op: DpOp, m: Machine)
    requires
        is_dp_imm(inst.id),
        dp_op(inst.id) == Some(op),
        s.code.len() + 32 <= usize::MAX,
    ensures
        ({
            let (c, y) = (operand_state_imm(s, inst, op), expanded_imm(inst.rotate(), inst.imm8()));
            let (d, shifter_carry) = documented_operand(s, run(s, m).machine, inst);
            operands_read(
                s,
                c.0,
                op,
                c.1,
                Value::ImmU32(y),
                c.2,
                register_read(s, run(s, m).machine, reg((inst.raw >> 16) & 0xF)),
                d,
                shifter_carry,
                m,
            )
        }),
{
    broadcast use {group_run, group_steps};

}

/// The state, the first operand and the carry once the operands of an
/// instruction with an immediate were read.
spec fn operand_state_imm(s: EmitterState, inst: DecodedArm, op: DpOp) -> (
    EmitterState,
    Value,
    Value,
) {
    let imm = expanded_imm(inst.rotate(), inst.imm8());
    let (s, carry) = if op.is_logical() {
        let (s, c) = s.op0(Opcode::A32GetCFlag);
        (
            s,
            if inst.rotate() == 0 {
                c
            } else {
                Value::ImmU1(imm & 0x8000_0000 != 0)
            },
        )
    } else {
        (s, Value::ImmU1(false))
    };
    let (s, a) = operand1_ir(s, op, inst.rn());
    (s, a, carry)
}

/// The state, the operands and the carry once the operands of an instruction
/// with a register shifted by a constant were read.
spec fn operand_state_reg(s: EmitterState, inst: DecodedArm, op: DpOp) -> (
    EmitterState,
    Value,
    Value,
    Value,
) {
    let (s, c) = s.op0(Opcode::A32GetCFlag);
    let (s, m) = s.get_register(inst.rm());
    let (s, (shifted, carry)) = imm_shift_ir(s, m, inst.shift_type(), inst.imm5(), c);
    let (s, a) = operand1_ir(s, op, inst.rn());
    (s, a, shifted, carry)
}

proof fn reg_operands(s: EmitterState, inst: DecodedArm, op: DpOp, m: Machine)
    requires
        is_dp_reg(inst.id),
        dp_op(inst.id) == Some(op),
        s.code.len() + 32 <= usize::MAX,
    ensures
        ({
            let (t, a, b, carry) = operand_state_reg(s, inst, op);
            let (d, shifter_carry) = documented_operand(s, run(s, m).machine, inst);
            operands_read(
                s,
                t,
                op,
                a,
                b,
                carry,
                register_read(s, run(s, m).machine, reg((inst.raw >> 16) & 0xF)),
                d,
                shifter_carry,
                m,
            )
        }),
{
    let (s1, c) = s.op0(Opcode::A32GetCFlag);
    carry_is_read(s, m);
    let (s2, v) = s1.get_register(inst.rm());
    register_is_read(s1, inst.rm(), m);
    let (s3, (b, carry)) = imm_shift_ir(s2, v, inst.shift_type(), inst.imm5(), c);
    imm_shift_shifts(s2, v, inst.shift_type(), inst.imm5(), c, m);
    register_is_read(s3, inst.rn(), m);
}

/// The state, the operands and the carry once the operands of an instruction
/// with a register shifted by a register were read.
spec fn operand_state_rsr(s: EmitterState, inst: DecodedArm, op: DpOp) -> (
    EmitterState,
    Value,
    Value,
    Value,
) {
    let (s, shift) = s.get_register(inst.rs());
    let (s, amount) = s.op1(Opcode::LeastSignificantByte, shift);
    let (s, c) = s.op0(Opcode::A32GetCFlag);
    let (s, m) = s.get_register(inst.rm());
    let (s, (shifted, carry)) = reg_shift_ir(s, m, inst.shift_type(), amount, c);
    let (s, a) = operand1_ir(s, op, inst.rn());
    (s, a, shifted, carry)
}

proof fn rsr_operands(s: EmitterState, inst: DecodedArm, op: DpOp, m: Machine)
    requires
        is_dp_rsr(inst.id),
        dp_op(inst.id) == Some(op),
        inst.rs() != Reg::R15,
        inst.rm() != Reg::R15,
        s.code.len() + 32 <= usize::MAX,
    ensures
        ({
            let (t, a, b, carry) = operand_state_rsr(s, inst, op);
            let (d, shifter_carry) = documented_operand(s, run(s, m).machine, inst);
            operands_read(
                s,
                t,
                op,
                a,
                b,
                carry,
                register_read(s, run(s, m).machine, reg((inst.raw >> 16) & 0xF)),
                d,
                shifter_carry,
                m,
            )
        }),
{
    broadcast use {group_run, group_steps};

    let (s1, shift) = s.get_register(inst.rs());
    let (s2, amount) = s1.op1(Opcode::LeastSignificantByte, shift);
    let (s3, c) = s2.op0(Opcode::A32GetCFlag);
    let (s4, v) = s3.get_register(inst.rm());
    reg_shift_shifts(s4, v, inst.shift_type(), amount, c, m);
}

/// Whether the code emitted between `s` and `t` changes neither the machine
/// nor what earlier results are.
pub open spec fn only_reads(s: EmitterState, t: EmitterState, m: Machine) -> bool {
    &&& t.loc == s.loc
    &&& s.code.len() <= t.code.len()
    &&& run(t, m).machine == run(s, m).machine
    &&& forall|v: Value|
        is_known(s, v) ==> #[trigger] operand(run(t, m), v) == operand(run(s, m), v)
}

/// Reading a register gives its value.
pub proof fn register_is_read(s: EmitterState, r: Reg, m: Machine)
    requires
        s.code.len() + 4 <= usize::MAX,
    ensures
        ({
            let (t, v) = s.get_register(r);
            &&& only_reads(s, t, m)
            &&& t.code.len() <= s.code.len() + 1
            &&& is_known(t, v)
            &&& operand(run(t, m), v).word == register_read(s, run(s, m).machine, r)
        }),
{
    broadcast use {group_run, group_steps};

}

/// Reading the carry flag gives its value.
pub proof fn carry_is_read(s: EmitterState, m: Machine)
    requires
        s.code.len() + 4 <= usize::MAX,
    ensures
        ({
            let (t, v) = s.op0(Opcode::A32GetCFlag);
            &&& only_reads(s, t, m)
            &&& t.code.len() == s.code.len() + 1
            &&& is_known(t, v)
            &&& operand(run(t, m), v).bit == run(s, m).machine.flags.c
        }),
{
    broadcast use {group_run, group_steps};

}

/// A shift by a register goes by the low byte of its operand.
pub proof fn reg_shift_shifts(
    s: EmitterState,
    value: Value,
    shift: ShiftType,
    amount: Value,
    carry_in: Value,
    m: Machine,
)
    requires
        is_known(s, value),
        is_known(s, amount),
        is_known(s, carry_in),
        s.code.len() + 4 <= usize::MAX,
    ensures
        ({
            let r = run(s, m);
            let (t, (x, carry)) = reg_shift_ir(s, value, shift, amount, carry_in);
            let (d, c) = shifted_word(
                shift,
                operand(r, value).word,
                operand(r, amount).word,
                operand(r, carry_in).bit,
            );
            &&& only_reads(s, t, m)
            &&& t.code.len() <= s.code.len() + 2
            &&& is_known(t, x)
            &&& is_known(t, carry)
            &&& operand(run(t, m), x).word == d
            &&& operand(run(t, m), carry).bit == c
        }),
{
    broadcast use {group_run, group_steps};

}

/// A shift by a constant: zero places stand for 32 to the right, or for a
/// rotation through the carry.
pub proof fn imm_shift_shifts(
    s: EmitterState,
    value: Value,
    shift: ShiftType,
    places: u32,
    carry_in: Value,
    m: Machine,
)
    requires
        places < 32,
        is_known(s, value),
        is_known(s, carry_in),
        s.code.len() + 4 <= usize::MAX,
    ensures
        ({
            let r = run(s, m);
            let (t, (x, carry)) = imm_shift_ir(s, value, shift, places, carry_in);
            let (w, c_in) = (operand(r, value).word, operand(r, carry_in).bit);
            let (d, c) = if places != 0 || shift == ShiftType::LSL {
                shifted_word(shift, w, places, c_in)
            } else if shift == ShiftType::ROR {
                turned_through_carry(w, c_in)
            } else {
                shifted_word(shift, w, 32, c_in)
            };
            &&& only_reads(s, t, m)
            &&& t.code.len() <= s.code.len() + 2
            &&& is_known(t, x)
            &&& is_known(t, carry)
            &&& operand(run(t, m), x).word == d
            &&& operand(run(t, m), carry).bit == c
        }),
{
    broadcast use {group_run, group_steps};

}

proof fn dp_imm_is_right(s: EmitterState, inst: DecodedArm, m: Machine)
    requires
        is_dp_imm(inst.id),
        s.code.len() + 32 <= usize::MAX,
    ensures
        data_processing_is_right(s, inst, arm_dp_imm_ir(s, inst), m),
{
    let op = dp_op(inst.id)->0;
    imm_operands(s, inst, op, m);
    let (t, a, carry) = operand_state_imm(s, inst, op);
    let imm = expanded_imm(inst.rotate(), inst.imm8());
    operation_computes(t, inst.id, op, inst.rd(), inst.s_flag(), a, Value::ImmU32(imm), carry, m);
}

proof fn dp_reg_is_right(s: EmitterState, inst: DecodedArm, m: Machine)
    requires
        is_dp_reg(inst.id),
        s.code.len() + 32 <= usize::MAX,
    ensures
        data_processing_is_right(s, inst, arm_dp_reg_ir(s, inst), m),
{
    let op = dp_op(inst.id)->0;
    reg_operands(s, inst, op, m);
    let (t, a, b, carry) = operand_state_reg(s, inst, op);
    operation_computes(t, inst.id, op, inst.rd(), inst.s_flag(), a, b, carry, m);
}

proof fn dp_rsr_is_right(s: EmitterState, inst: DecodedArm, m: Machine)
    requires
        is_dp_rsr(inst.id),
        s.code.len() + 32 <= usize::MAX,
    ensures
        data_processing_is_right(s, inst, arm_dp_rsr_ir(s, inst), m),
{
    let op = dp_op(inst.id)->0;
    if inst.rs() != Reg::R15 && inst.rm() != Reg::R15 {
        rsr_operands(s, inst, op, m);
        let (t, a, b, carry) = operand_state_rsr(s, inst, op);
    operation_computes(t, inst.id, op, inst.rd(), inst.s_flag(), a, b, carry, m);
    }
}

/// Data processing instructions compute what they are documented to compute.
#[verifier::rlimit(30)]
pub proof fn data_processing_computes(
    s: EmitterState,
    inst: DecodedArm,
    options: TranslationOptions,
    m: Machine,
)
    requires
        is_dp_imm(inst.id) || is_dp_reg(inst.id) || is_dp_rsr(inst.id),
        s.code.len() + 32 <= usize::MAX,
    ensures
        data_processing_is_right(s, inst, translate_arm_instruction_ir(s, inst, options), m),
{
    if is_dp_imm(inst.id) {
        dp_imm_is_right(s, inst, m);
    } else if is_dp_reg(inst.id) {
        dp_reg_is_right(s, inst, m);
    } else {
        dp_rsr_is_right(s, inst, m);
    }
}

} // verus!
