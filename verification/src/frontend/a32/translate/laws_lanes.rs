//! What vector instructions do to the lanes of registers.

use vstd::prelude::*;
use super::arm_dispatch::{arm_vector_ir, translate_arm_instruction_ir};
use super::asimd::{dest_reg, flag, m_reg, n_reg};
use super::asimd_three_regs::{float_instruction_ir, FloatOp};
use super::{report_ir, TranslationOptions};
use crate::frontend::a32::decoder::{ArmInstId, DecodedArm};
use crate::frontend::a32::types::{Exception, ExtReg};
use crate::ir::a32_emitter::EmitterState;
use crate::ir::lanes::{
    combined, float_pair, float_single, fused, lane_op, pair_result, single_result, FloatLane,
    LaneOp, Vector,
};
use crate::ir::meaning::{group_run, run, vector_at, with_vector, Machine};
use crate::ir::meaning_steps::{group_steps, group_vector_steps};
use crate::ir::opcode::Opcode;

verus! {

broadcast use crate::bits::and_le_mask;

/// The vector register whose number has the highest bit `top` and the other
/// bits `low`. Quad words are pairs of double words.
pub open spec fn vector_register(q: bool, top: u32, low: u32) -> ExtReg {
    let number = top * 16 + low;
    if q {
        ExtReg::Quad((number / 2) as u8)
    } else {
        ExtReg::Double(number as u8)
    }
}

/// The destination, bits 22 and 15 to 12.
pub open spec fn vd(q: bool, raw: u32) -> ExtReg {
    vector_register(q, (raw >> 22) & 1, (raw >> 12) & 0xF)
}

/// The first operand, bits 7 and 19 to 16.
pub open spec fn vn(q: bool, raw: u32) -> ExtReg {
    vector_register(q, (raw >> 7) & 1, (raw >> 16) & 0xF)
}

/// The second operand, bits 5 and 3 to 0.
pub open spec fn vm(q: bool, raw: u32) -> ExtReg {
    vector_register(q, (raw >> 5) & 1, raw & 0xF)
}

/// Lane `i` of `e` bits of a register.
pub open spec fn lane_of(m: Machine, r: ExtReg, e: int, i: int) -> int {
    (vector_at(m, r).lane)(e, i)
}

/// Whether nothing but one vector register has changed.
pub open spec fn only_vector_changes(before: Machine, after: Machine, r: ExtReg) -> bool {
    &&& after == (Machine { doubles: after.doubles, ..before })
    &&& forall|j: int|
        match r {
            ExtReg::Double(d) => j != d,
            ExtReg::Quad(q) => j != 2 * q as int && j != 2 * q as int + 1,
        } ==> #[trigger] after.doubles[j] == before.doubles[j]
}

/// Whether every lane of the destination is what `want` says of the lanes of
/// the first and the second operand and of the old destination, and nothing
/// else has changed.
pub open spec fn lanes_become(
    before: Machine,
    after: Machine,
    raw: u32,
    q: bool,
    e: int,
    want: spec_fn(int, int, int) -> int,
) -> bool {
    &&& forall|i: int|
        0 <= i < (if q { 128int } else { 64int }) / e ==> #[trigger] lane_of(
            after,
            vd(q, raw),
            e,
            i,
        )
            == want(
            lane_of(before, vn(q, raw), e, i),
            lane_of(before, vm(q, raw), e, i),
            lane_of(before, vd(q, raw), e, i),
        )
    &&& only_vector_changes(before, after, vd(q, raw))
}

/// Writing a register sets its lanes.
pub proof fn written_lanes(m: Machine, r: ExtReg, v: Vector, e: int)
    requires
        e == 8 || e == 16 || e == 32 || e == 64,
    ensures
        forall|i: int|
            0 <= i < (if r is Quad { 128int } else { 64int }) / e ==> #[trigger] lane_of(
                with_vector(m, r, v),
                r,
                e,
                i,
            ) == (v.lane)(e, i),
        only_vector_changes(m, with_vector(m, r, v), r),
{
}

/// The lanes of a floating-point operation on two vectors.
pub proof fn float_pair_lanes(
    opcode: Opcode,
    op: FloatLane,
    e: int,
    a: Vector,
    b: Vector,
    float: spec_fn(FloatLane, int, int, int, int) -> int,
)
    requires
        lane_op(opcode) is None,
        float_pair(opcode) == Some((op, e)),
    ensures
        forall|i: int|
            #[trigger] (pair_result(opcode, a, b, float).lane)(e, i) == float(
                op,
                e,
                (a.lane)(e, i),
                (b.lane)(e, i),
                0,
            ),
{
    reveal(pair_result);
}

/// The lanes of an operation on two vectors of integers.
pub proof fn pair_lanes(
    opcode: Opcode,
    op: LaneOp,
    e: int,
    a: Vector,
    b: Vector,
    float: spec_fn(FloatLane, int, int, int, int) -> int,
)
    requires
        lane_op(opcode) == Some((op, e)),
    ensures
        forall|i: int|
            #[trigger] (pair_result(opcode, a, b, float).lane)(e, i) == combined(
                op,
                e,
                (a.lane)(e, i),
                (b.lane)(e, i),
            ),
{
    reveal(pair_result);
}

/// The lanes of a floating-point operation on one vector.
pub proof fn single_lanes(
    opcode: Opcode,
    op: FloatLane,
    e: int,
    a: Vector,
    float: spec_fn(FloatLane, int, int, int, int) -> int,
)
    requires
        float_single(opcode) == Some((op, e)),
    ensures
        forall|i: int|
            #[trigger] (single_result(opcode, a, float).lane)(e, i) == float(
                op,
                e,
                (a.lane)(e, i),
                0,
                0,
            ),
{
    reveal(single_result);
}

/// Whether quad words with odd numbers are named.
pub open spec fn names_odd_quads(raw: u32) -> bool {
    (raw >> 6) & 1 != 0 && (((raw >> 12) & 0xF) & 1 != 0 || ((raw >> 16) & 0xF) & 1 != 0 || (raw
        & 0xF) & 1 != 0)
}

/// What a floating-point instruction makes of lanes of its operands and of its
/// destination.
pub open spec fn documented_float(
    id: ArmInstId,
    float: spec_fn(FloatLane, int, int, int, int) -> int,
    n: int,
    m: int,
    d: int,
) -> int {
    match id {
        ArmInstId::ASIMD_VADD_float => float(FloatLane::Add, 32, n, m, 0),
        ArmInstId::ASIMD_VSUB_float => float(FloatLane::Sub, 32, n, m, 0),
        ArmInstId::ASIMD_VMUL_float => float(FloatLane::Mul, 32, n, m, 0),
        ArmInstId::ASIMD_VMLA_float => float(
            FloatLane::Add,
            32,
            d,
            float(FloatLane::Mul, 32, n, m, 0),
            0,
        ),
        ArmInstId::ASIMD_VMLS_float => float(
            FloatLane::Sub,
            32,
            d,
            float(FloatLane::Mul, 32, n, m, 0),
            0,
        ),
        ArmInstId::ASIMD_VFMA => float(FloatLane::MulAdd, 32, d, n, m),
        ArmInstId::ASIMD_VFMS => float(
            FloatLane::MulAdd,
            32,
            d,
            float(FloatLane::Neg, 32, n, 0, 0),
            m,
        ),
        ArmInstId::ASIMD_VABD_float => float(
            FloatLane::Abs,
            32,
            float(FloatLane::Sub, 32, n, m, 0),
            0,
            0,
        ),
        ArmInstId::ASIMD_VCEQ_reg_float => float(FloatLane::Equal, 32, n, m, 0),
        ArmInstId::ASIMD_VCGT_reg_float => float(FloatLane::Greater, 32, n, m, 0),
        ArmInstId::ASIMD_VCGE_reg_float => float(FloatLane::GreaterEqual, 32, n, m, 0),
        ArmInstId::ASIMD_VMAX_float => float(FloatLane::Max, 32, n, m, 0),
        ArmInstId::ASIMD_VMIN_float => float(FloatLane::Min, 32, n, m, 0),
        ArmInstId::ASIMD_VRECPS => float(FloatLane::RecipStepFused, 32, n, m, 0),
        ArmInstId::ASIMD_VRSQRTS => float(FloatLane::RSqrtStepFused, 32, n, m, 0),
        _ => arbitrary(),
    }
}

/// What is owed of the translation of a floating-point instruction on vectors:
/// each lane of the destination becomes what is documented. Other precisions
/// than single and odd quad words are undefined.
#[verifier::opaque]
pub open spec fn float_is_translated(
    s: EmitterState,
    inst: DecodedArm,
    options: TranslationOptions,
    m: Machine,
) -> bool {
    let r = translate_arm_instruction_ir(s, inst, options);
    let (before, after) = (run(s, m).machine, run(r.0, m).machine);
    let raw = inst.raw;
    if names_odd_quads(raw) || (raw >> 20) & 1 != 0 {
        r == report_ir(s, Exception::UndefinedInstruction)
    } else {
        &&& r.1
        &&& lanes_become(
            before,
            after,
            raw,
            (raw >> 6) & 1 != 0,
            32,
            |n: int, m: int, d: int| documented_float(inst.id, before.float, n, m, d),
        )
    }
}

proof fn vadd_float_lanes_emitted(s: EmitterState, inst: DecodedArm, m: Machine)
    requires
        s.code.len() + 16 <= usize::MAX,
        !names_odd_quads(inst.raw),
        (inst.raw >> 20) & 1 == 0,
    ensures
        ({
            let r = float_instruction_ir(s, inst, FloatOp::Add);
            let before = run(s, m).machine;
            let q = flag(&inst, 6);
            let n = vector_at(before, n_reg(inst, q));
            let m_ = vector_at(before, m_reg(inst, q));
            let d = vector_at(before, dest_reg(inst, q));
            &&& r.1
            &&& run(r.0, m).machine == with_vector(
                before,
                dest_reg(inst, q),
                pair_result(Opcode::FPVectorAdd32, n, m_, before.float),
            )
        }),
{
    broadcast use {group_run, group_steps, group_vector_steps};

}

proof fn vadd_float_lanes(
    s: EmitterState,
    inst: DecodedArm,
    options: TranslationOptions,
    m: Machine,
)
    requires
        inst.id == ArmInstId::ASIMD_VADD_float,
        s.code.len() + 16 <= usize::MAX,
    ensures
        float_is_translated(s, inst, options, m),
{
    reveal(float_is_translated);
    reveal(arm_vector_ir);
    if !names_odd_quads(inst.raw) && (inst.raw >> 20) & 1 == 0 {
        vadd_float_lanes_emitted(s, inst, m);
        let before = run(s, m).machine;
        let q = flag(&inst, 6);
        let n = vector_at(before, n_reg(inst, q));
        let m_ = vector_at(before, m_reg(inst, q));
        let d = vector_at(before, dest_reg(inst, q));
        let v = pair_result(Opcode::FPVectorAdd32, n, m_, before.float);
        written_lanes(before, dest_reg(inst, q), v, 32);
        float_pair_lanes(Opcode::FPVectorAdd32, FloatLane::Add, 32, n, m_, before.float);
    }
}

proof fn vsub_float_lanes_emitted(s: EmitterState, inst: DecodedArm, m: Machine)
    requires
        s.code.len() + 16 <= usize::MAX,
        !names_odd_quads(inst.raw),
        (inst.raw >> 20) & 1 == 0,
    ensures
        ({
            let r = float_instruction_ir(s, inst, FloatOp::Sub);
            let before = run(s, m).machine;
            let q = flag(&inst, 6);
            let n = vector_at(before, n_reg(inst, q));
            let m_ = vector_at(before, m_reg(inst, q));
            let d = vector_at(before, dest_reg(inst, q));
            &&& r.1
            &&& run(r.0, m).machine == with_vector(
                before,
                dest_reg(inst, q),
                pair_result(Opcode::FPVectorSub32, n, m_, before.float),
            )
        }),
{
    broadcast use {group_run, group_steps, group_vector_steps};

}

proof fn vsub_float_lanes(
    s: EmitterState,
    inst: DecodedArm,
    options: TranslationOptions,
    m: Machine,
)
    requires
        inst.id == ArmInstId::ASIMD_VSUB_float,
        s.code.len() + 16 <= usize::MAX,
    ensures
        float_is_translated(s, inst, options, m),
{
    reveal(float_is_translated);
    reveal(arm_vector_ir);
    if !names_odd_quads(inst.raw) && (inst.raw >> 20) & 1 == 0 {
        vsub_float_lanes_emitted(s, inst, m);
        let before = run(s, m).machine;
        let q = flag(&inst, 6);
        let n = vector_at(before, n_reg(inst, q));
        let m_ = vector_at(before, m_reg(inst, q));
        let d = vector_at(before, dest_reg(inst, q));
        let v = pair_result(Opcode::FPVectorSub32, n, m_, before.float);
        written_lanes(before, dest_reg(inst, q), v, 32);
        float_pair_lanes(Opcode::FPVectorSub32, FloatLane::Sub, 32, n, m_, before.float);
    }
}

proof fn vmul_float_lanes_emitted(s: EmitterState, inst: DecodedArm, m: Machine)
    requires
        s.code.len() + 16 <= usize::MAX,
        !names_odd_quads(inst.raw),
        (inst.raw >> 20) & 1 == 0,
    ensures
        ({
            let r = float_instruction_ir(s, inst, FloatOp::Mul);
            let before = run(s, m).machine;
            let q = flag(&inst, 6);
            let n = vector_at(before, n_reg(inst, q));
            let m_ = vector_at(before, m_reg(inst, q));
            let d = vector_at(before, dest_reg(inst, q));
            &&& r.1
            &&& run(r.0, m).machine == with_vector(
                before,
                dest_reg(inst, q),
                pair_result(Opcode::FPVectorMul32, n, m_, before.float),
            )
        }),
{
    broadcast use {group_run, group_steps, group_vector_steps};

}

proof fn vmul_float_lanes(
    s: EmitterState,
    inst: DecodedArm,
    options: TranslationOptions,
    m: Machine,
)
    requires
        inst.id == ArmInstId::ASIMD_VMUL_float,
        s.code.len() + 16 <= usize::MAX,
    ensures
        float_is_translated(s, inst, options, m),
{
    reveal(float_is_translated);
    reveal(arm_vector_ir);
    if !names_odd_quads(inst.raw) && (inst.raw >> 20) & 1 == 0 {
        vmul_float_lanes_emitted(s, inst, m);
        let before = run(s, m).machine;
        let q = flag(&inst, 6);
        let n = vector_at(before, n_reg(inst, q));
        let m_ = vector_at(before, m_reg(inst, q));
        let d = vector_at(before, dest_reg(inst, q));
        let v = pair_result(Opcode::FPVectorMul32, n, m_, before.float);
        written_lanes(before, dest_reg(inst, q), v, 32);
        float_pair_lanes(Opcode::FPVectorMul32, FloatLane::Mul, 32, n, m_, before.float);
    }
}

proof fn vmla_float_lanes_emitted(s: EmitterState, inst: DecodedArm, m: Machine)
    requires
        s.code.len() + 16 <= usize::MAX,
        !names_odd_quads(inst.raw),
        (inst.raw >> 20) & 1 == 0,
    ensures
        ({
            let r = float_instruction_ir(s, inst, FloatOp::Mla);
            let before = run(s, m).machine;
            let q = flag(&inst, 6);
            let n = vector_at(before, n_reg(inst, q));
            let m_ = vector_at(before, m_reg(inst, q));
            let d = vector_at(before, dest_reg(inst, q));
            &&& r.1
            &&& run(r.0, m).machine == with_vector(
                before,
                dest_reg(inst, q),
                pair_result(
                    Opcode::FPVectorAdd32,
                    d,
                    pair_result(Opcode::FPVectorMul32, n, m_, before.float),
                    before.float,
                ),
            )
        }),
{
    broadcast use {group_run, group_steps, group_vector_steps};

}

proof fn vmla_float_lanes(
    s: EmitterState,
    inst: DecodedArm,
    options: TranslationOptions,
    m: Machine,
)
    requires
        inst.id == ArmInstId::ASIMD_VMLA_float,
        s.code.len() + 16 <= usize::MAX,
    ensures
        float_is_translated(s, inst, options, m),
{
    reveal(float_is_translated);
    reveal(arm_vector_ir);
    if !names_odd_quads(inst.raw) && (inst.raw >> 20) & 1 == 0 {
        vmla_float_lanes_emitted(s, inst, m);
        let before = run(s, m).machine;
        let q = flag(&inst, 6);
        let n = vector_at(before, n_reg(inst, q));
        let m_ = vector_at(before, m_reg(inst, q));
        let d = vector_at(before, dest_reg(inst, q));
        let v = pair_result(
            Opcode::FPVectorAdd32,
            d,
            pair_result(Opcode::FPVectorMul32, n, m_, before.float),
            before.float,
        );
        written_lanes(before, dest_reg(inst, q), v, 32);
        float_pair_lanes(Opcode::FPVectorMul32, FloatLane::Mul, 32, n, m_, before.float);
        float_pair_lanes(
            Opcode::FPVectorAdd32,
            FloatLane::Add,
            32,
            d,
            pair_result(Opcode::FPVectorMul32, n, m_, before.float),
            before.float,
        );
    }
}

proof fn vmls_float_lanes_emitted(s: EmitterState, inst: DecodedArm, m: Machine)
    requires
        s.code.len() + 16 <= usize::MAX,
        !names_odd_quads(inst.raw),
        (inst.raw >> 20) & 1 == 0,
    ensures
        ({
            let r = float_instruction_ir(s, inst, FloatOp::Mls);
            let before = run(s, m).machine;
            let q = flag(&inst, 6);
            let n = vector_at(before, n_reg(inst, q));
            let m_ = vector_at(before, m_reg(inst, q));
            let d = vector_at(before, dest_reg(inst, q));
            &&& r.1
            &&& run(r.0, m).machine == with_vector(
                before,
                dest_reg(inst, q),
                pair_result(
                    Opcode::FPVectorSub32,
                    d,
                    pair_result(Opcode::FPVectorMul32, n, m_, before.float),
                    before.float,
                ),
            )
        }),
{
    broadcast use {group_run, group_steps, group_vector_steps};

}

proof fn vmls_float_lanes(
    s: EmitterState,
    inst: DecodedArm,
    options: TranslationOptions,
    m: Machine,
)
    requires
        inst.id == ArmInstId::ASIMD_VMLS_float,
        s.code.len() + 16 <= usize::MAX,
    ensures
        float_is_translated(s, inst, options, m),
{
    reveal(float_is_translated);
    reveal(arm_vector_ir);
    if !names_odd_quads(inst.raw) && (inst.raw >> 20) & 1 == 0 {
        vmls_float_lanes_emitted(s, inst, m);
        let before = run(s, m).machine;
        let q = flag(&inst, 6);
        let n = vector_at(before, n_reg(inst, q));
        let m_ = vector_at(before, m_reg(inst, q));
        let d = vector_at(before, dest_reg(inst, q));
        let v = pair_result(
            Opcode::FPVectorSub32,
            d,
            pair_result(Opcode::FPVectorMul32, n, m_, before.float),
            before.float,
        );
        written_lanes(before, dest_reg(inst, q), v, 32);
        float_pair_lanes(Opcode::FPVectorMul32, FloatLane::Mul, 32, n, m_, before.float);
        float_pair_lanes(
            Opcode::FPVectorSub32,
            FloatLane::Sub,
            32,
            d,
            pair_result(Opcode::FPVectorMul32, n, m_, before.float),
            before.float,
        );
    }
}

proof fn vfma_lanes_emitted(s: EmitterState, inst: DecodedArm, m: Machine)
    requires
        s.code.len() + 16 <= usize::MAX,
        !names_odd_quads(inst.raw),
        (inst.raw >> 20) & 1 == 0,
    ensures
        ({
            let r = float_instruction_ir(s, inst, FloatOp::Fma);
            let before = run(s, m).machine;
            let q = flag(&inst, 6);
            let n = vector_at(before, n_reg(inst, q));
            let m_ = vector_at(before, m_reg(inst, q));
            let d = vector_at(before, dest_reg(inst, q));
            &&& r.1
            &&& run(r.0, m).machine == with_vector(
                before,
                dest_reg(inst, q),
                fused(before.float, d, n, m_),
            )
        }),
{
    broadcast use {group_run, group_steps, group_vector_steps};

}

proof fn vfma_lanes(s: EmitterState, inst: DecodedArm, options: TranslationOptions, m: Machine)
    requires
        inst.id == ArmInstId::ASIMD_VFMA,
        s.code.len() + 16 <= usize::MAX,
    ensures
        float_is_translated(s, inst, options, m),
{
    reveal(float_is_translated);
    reveal(arm_vector_ir);
    if !names_odd_quads(inst.raw) && (inst.raw >> 20) & 1 == 0 {
        vfma_lanes_emitted(s, inst, m);
        let before = run(s, m).machine;
        let q = flag(&inst, 6);
        let n = vector_at(before, n_reg(inst, q));
        let m_ = vector_at(before, m_reg(inst, q));
        let d = vector_at(before, dest_reg(inst, q));
        let v = fused(before.float, d, n, m_);
        written_lanes(before, dest_reg(inst, q), v, 32);
        
    }
}

proof fn vfms_lanes_emitted(s: EmitterState, inst: DecodedArm, m: Machine)
    requires
        s.code.len() + 16 <= usize::MAX,
        !names_odd_quads(inst.raw),
        (inst.raw >> 20) & 1 == 0,
    ensures
        ({
            let r = float_instruction_ir(s, inst, FloatOp::Fms);
            let before = run(s, m).machine;
            let q = flag(&inst, 6);
            let n = vector_at(before, n_reg(inst, q));
            let m_ = vector_at(before, m_reg(inst, q));
            let d = vector_at(before, dest_reg(inst, q));
            &&& r.1
            &&& run(r.0, m).machine == with_vector(
                before,
                dest_reg(inst, q),
                fused(before.float, d, single_result(Opcode::FPVectorNeg32, n, before.float), m_),
            )
        }),
{
    broadcast use {group_run, group_steps, group_vector_steps};

}

proof fn vfms_lanes(s: EmitterState, inst: DecodedArm, options: TranslationOptions, m: Machine)
    requires
        inst.id == ArmInstId::ASIMD_VFMS,
        s.code.len() + 16 <= usize::MAX,
    ensures
        float_is_translated(s, inst, options, m),
{
    reveal(float_is_translated);
    reveal(arm_vector_ir);
    if !names_odd_quads(inst.raw) && (inst.raw >> 20) & 1 == 0 {
        vfms_lanes_emitted(s, inst, m);
        let before = run(s, m).machine;
        let q = flag(&inst, 6);
        let n = vector_at(before, n_reg(inst, q));
        let m_ = vector_at(before, m_reg(inst, q));
        let d = vector_at(before, dest_reg(inst, q));
        let v = fused(before.float, d, single_result(Opcode::FPVectorNeg32, n, before.float), m_);
        written_lanes(before, dest_reg(inst, q), v, 32);
        single_lanes(Opcode::FPVectorNeg32, FloatLane::Neg, 32, n, before.float);
    }
}

proof fn vabd_float_lanes_emitted(s: EmitterState, inst: DecodedArm, m: Machine)
    requires
        s.code.len() + 16 <= usize::MAX,
        !names_odd_quads(inst.raw),
        (inst.raw >> 20) & 1 == 0,
    ensures
        ({
            let r = float_instruction_ir(s, inst, FloatOp::AbsoluteDifference);
            let before = run(s, m).machine;
            let q = flag(&inst, 6);
            let n = vector_at(before, n_reg(inst, q));
            let m_ = vector_at(before, m_reg(inst, q));
            let d = vector_at(before, dest_reg(inst, q));
            &&& r.1
            &&& run(r.0, m).machine == with_vector(
                before,
                dest_reg(inst, q),
                single_result(
                    Opcode::FPVectorAbs32,
                    pair_result(Opcode::FPVectorSub32, n, m_, before.float),
                    before.float,
                ),
            )
        }),
{
    broadcast use {group_run, group_steps, group_vector_steps};

}

proof fn vabd_float_lanes(
    s: EmitterState,
    inst: DecodedArm,
    options: TranslationOptions,
    m: Machine,
)
    requires
        inst.id == ArmInstId::ASIMD_VABD_float,
        s.code.len() + 16 <= usize::MAX,
    ensures
        float_is_translated(s, inst, options, m),
{
    reveal(float_is_translated);
    reveal(arm_vector_ir);
    if !names_odd_quads(inst.raw) && (inst.raw >> 20) & 1 == 0 {
        vabd_float_lanes_emitted(s, inst, m);
        let before = run(s, m).machine;
        let q = flag(&inst, 6);
        let n = vector_at(before, n_reg(inst, q));
        let m_ = vector_at(before, m_reg(inst, q));
        let d = vector_at(before, dest_reg(inst, q));
        let v = single_result(
            Opcode::FPVectorAbs32,
            pair_result(Opcode::FPVectorSub32, n, m_, before.float),
            before.float,
        );
        written_lanes(before, dest_reg(inst, q), v, 32);
        float_pair_lanes(Opcode::FPVectorSub32, FloatLane::Sub, 32, n, m_, before.float);
        single_lanes(
            Opcode::FPVectorAbs32,
            FloatLane::Abs,
            32,
            pair_result(Opcode::FPVectorSub32, n, m_, before.float),
            before.float,
        );
    }
}

proof fn vceq_reg_float_lanes_emitted(s: EmitterState, inst: DecodedArm, m: Machine)
    requires
        s.code.len() + 16 <= usize::MAX,
        !names_odd_quads(inst.raw),
        (inst.raw >> 20) & 1 == 0,
    ensures
        ({
            let r = float_instruction_ir(s, inst, FloatOp::Equal);
            let before = run(s, m).machine;
            let q = flag(&inst, 6);
            let n = vector_at(before, n_reg(inst, q));
            let m_ = vector_at(before, m_reg(inst, q));
            let d = vector_at(before, dest_reg(inst, q));
            &&& r.1
            &&& run(r.0, m).machine == with_vector(
                before,
                dest_reg(inst, q),
                pair_result(Opcode::FPVectorEqual32, n, m_, before.float),
            )
        }),
{
    broadcast use {group_run, group_steps, group_vector_steps};

}

proof fn vceq_reg_float_lanes(
    s: EmitterState,
    inst: DecodedArm,
    options: TranslationOptions,
    m: Machine,
)
    requires
        inst.id == ArmInstId::ASIMD_VCEQ_reg_float,
        s.code.len() + 16 <= usize::MAX,
    ensures
        float_is_translated(s, inst, options, m),
{
    reveal(float_is_translated);
    reveal(arm_vector_ir);
    if !names_odd_quads(inst.raw) && (inst.raw >> 20) & 1 == 0 {
        vceq_reg_float_lanes_emitted(s, inst, m);
        let before = run(s, m).machine;
        let q = flag(&inst, 6);
        let n = vector_at(before, n_reg(inst, q));
        let m_ = vector_at(before, m_reg(inst, q));
        let d = vector_at(before, dest_reg(inst, q));
        let v = pair_result(Opcode::FPVectorEqual32, n, m_, before.float);
        written_lanes(before, dest_reg(inst, q), v, 32);
        float_pair_lanes(Opcode::FPVectorEqual32, FloatLane::Equal, 32, n, m_, before.float);
    }
}

proof fn vcgt_reg_float_lanes_emitted(s: EmitterState, inst: DecodedArm, m: Machine)
    requires
        s.code.len() + 16 <= usize::MAX,
        !names_odd_quads(inst.raw),
        (inst.raw >> 20) & 1 == 0,
    ensures
        ({
            let r = float_instruction_ir(s, inst, FloatOp::Greater);
            let before = run(s, m).machine;
            let q = flag(&inst, 6);
            let n = vector_at(before, n_reg(inst, q));
            let m_ = vector_at(before, m_reg(inst, q));
            let d = vector_at(before, dest_reg(inst, q));
            &&& r.1
            &&& run(r.0, m).machine == with_vector(
                before,
                dest_reg(inst, q),
                pair_result(Opcode::FPVectorGreater32, n, m_, before.float),
            )
        }),
{
    broadcast use {group_run, group_steps, group_vector_steps};

}

proof fn vcgt_reg_float_lanes(
    s: EmitterState,
    inst: DecodedArm,
    options: TranslationOptions,
    m: Machine,
)
    requires
        inst.id == ArmInstId::ASIMD_VCGT_reg_float,
        s.code.len() + 16 <= usize::MAX,
    ensures
        float_is_translated(s, inst, options, m),
{
    reveal(float_is_translated);
    reveal(arm_vector_ir);
    if !names_odd_quads(inst.raw) && (inst.raw >> 20) & 1 == 0 {
        vcgt_reg_float_lanes_emitted(s, inst, m);
        let before = run(s, m).machine;
        let q = flag(&inst, 6);
        let n = vector_at(before, n_reg(inst, q));
        let m_ = vector_at(before, m_reg(inst, q));
        let d = vector_at(before, dest_reg(inst, q));
        let v = pair_result(Opcode::FPVectorGreater32, n, m_, before.float);
        written_lanes(before, dest_reg(inst, q), v, 32);
        float_pair_lanes(Opcode::FPVectorGreater32, FloatLane::Greater, 32, n, m_, before.float);
    }
}

proof fn vcge_reg_float_lanes_emitted(s: EmitterState, inst: DecodedArm, m: Machine)
    requires
        s.code.len() + 16 <= usize::MAX,
        !names_odd_quads(inst.raw),
        (inst.raw >> 20) & 1 == 0,
    ensures
        ({
            let r = float_instruction_ir(s, inst, FloatOp::GreaterEqual);
            let before = run(s, m).machine;
            let q = flag(&inst, 6);
            let n = vector_at(before, n_reg(inst, q));
            let m_ = vector_at(before, m_reg(inst, q));
            let d = vector_at(before, dest_reg(inst, q));
            &&& r.1
            &&& run(r.0, m).machine == with_vector(
                before,
                dest_reg(inst, q),
                pair_result(Opcode::FPVectorGreaterEqual32, n, m_, before.float),
            )
        }),
{
    broadcast use {group_run, group_steps, group_vector_steps};

}

proof fn vcge_reg_float_lanes(
    s: EmitterState,
    inst: DecodedArm,
    options: TranslationOptions,
    m: Machine,
)
    requires
        inst.id == ArmInstId::ASIMD_VCGE_reg_float,
        s.code.len() + 16 <= usize::MAX,
    ensures
        float_is_translated(s, inst, options, m),
{
    reveal(float_is_translated);
    reveal(arm_vector_ir);
    if !names_odd_quads(inst.raw) && (inst.raw >> 20) & 1 == 0 {
        vcge_reg_float_lanes_emitted(s, inst, m);
        let before = run(s, m).machine;
        let q = flag(&inst, 6);
        let n = vector_at(before, n_reg(inst, q));
        let m_ = vector_at(before, m_reg(inst, q));
        let d = vector_at(before, dest_reg(inst, q));
        let v = pair_result(Opcode::FPVectorGreaterEqual32, n, m_, before.float);
        written_lanes(before, dest_reg(inst, q), v, 32);
        float_pair_lanes(
            Opcode::FPVectorGreaterEqual32,
            FloatLane::GreaterEqual,
            32,
            n,
            m_,
            before.float,
        );
    }
}

proof fn vmax_float_lanes_emitted(s: EmitterState, inst: DecodedArm, m: Machine)
    requires
        s.code.len() + 16 <= usize::MAX,
        !names_odd_quads(inst.raw),
        (inst.raw >> 20) & 1 == 0,
    ensures
        ({
            let r = float_instruction_ir(s, inst, FloatOp::Max);
            let before = run(s, m).machine;
            let q = flag(&inst, 6);
            let n = vector_at(before, n_reg(inst, q));
            let m_ = vector_at(before, m_reg(inst, q));
            let d = vector_at(before, dest_reg(inst, q));
            &&& r.1
            &&& run(r.0, m).machine == with_vector(
                before,
                dest_reg(inst, q),
                pair_result(Opcode::FPVectorMax32, n, m_, before.float),
            )
        }),
{
    broadcast use {group_run, group_steps, group_vector_steps};

}

proof fn vmax_float_lanes(
    s: EmitterState,
    inst: DecodedArm,
    options: TranslationOptions,
    m: Machine,
)
    requires
        inst.id == ArmInstId::ASIMD_VMAX_float,
        s.code.len() + 16 <= usize::MAX,
    ensures
        float_is_translated(s, inst, options, m),
{
    reveal(float_is_translated);
    reveal(arm_vector_ir);
    if !names_odd_quads(inst.raw) && (inst.raw >> 20) & 1 == 0 {
        vmax_float_lanes_emitted(s, inst, m);
        let before = run(s, m).machine;
        let q = flag(&inst, 6);
        let n = vector_at(before, n_reg(inst, q));
        let m_ = vector_at(before, m_reg(inst, q));
        let d = vector_at(before, dest_reg(inst, q));
        let v = pair_result(Opcode::FPVectorMax32, n, m_, before.float);
        written_lanes(before, dest_reg(inst, q), v, 32);
        float_pair_lanes(Opcode::FPVectorMax32, FloatLane::Max, 32, n, m_, before.float);
    }
}

proof fn vmin_float_lanes_emitted(s: EmitterState, inst: DecodedArm, m: Machine)
    requires
        s.code.len() + 16 <= usize::MAX,
        !names_odd_quads(inst.raw),
        (inst.raw >> 20) & 1 == 0,
    ensures
        ({
            let r = float_instruction_ir(s, inst, FloatOp::Min);
            let before = run(s, m).machine;
            let q = flag(&inst, 6);
            let n = vector_at(before, n_reg(inst, q));
            let m_ = vector_at(before, m_reg(inst, q));
            let d = vector_at(before, dest_reg(inst, q));
            &&& r.1
            &&& run(r.0, m).machine == with_vector(
                before,
                dest_reg(inst, q),
                pair_result(Opcode::FPVectorMin32, n, m_, before.float),
            )
        }),
{
    broadcast use {group_run, group_steps, group_vector_steps};

}

proof fn vmin_float_lanes(
    s: EmitterState,
    inst: DecodedArm,
    options: TranslationOptions,
    m: Machine,
)
    requires
        inst.id == ArmInstId::ASIMD_VMIN_float,
        s.code.len() + 16 <= usize::MAX,
    ensures
        float_is_translated(s, inst, options, m),
{
    reveal(float_is_translated);
    reveal(arm_vector_ir);
    if !names_odd_quads(inst.raw) && (inst.raw >> 20) & 1 == 0 {
        vmin_float_lanes_emitted(s, inst, m);
        let before = run(s, m).machine;
        let q = flag(&inst, 6);
        let n = vector_at(before, n_reg(inst, q));
        let m_ = vector_at(before, m_reg(inst, q));
        let d = vector_at(before, dest_reg(inst, q));
        let v = pair_result(Opcode::FPVectorMin32, n, m_, before.float);
        written_lanes(before, dest_reg(inst, q), v, 32);
        float_pair_lanes(Opcode::FPVectorMin32, FloatLane::Min, 32, n, m_, before.float);
    }
}

proof fn vrecps_lanes_emitted(s: EmitterState, inst: DecodedArm, m: Machine)
    requires
        s.code.len() + 16 <= usize::MAX,
        !names_odd_quads(inst.raw),
        (inst.raw >> 20) & 1 == 0,
    ensures
        ({
            let r = float_instruction_ir(s, inst, FloatOp::RecipStep);
            let before = run(s, m).machine;
            let q = flag(&inst, 6);
            let n = vector_at(before, n_reg(inst, q));
            let m_ = vector_at(before, m_reg(inst, q));
            let d = vector_at(before, dest_reg(inst, q));
            &&& r.1
            &&& run(r.0, m).machine == with_vector(
                before,
                dest_reg(inst, q),
                pair_result(Opcode::FPVectorRecipStepFused32, n, m_, before.float),
            )
        }),
{
    broadcast use {group_run, group_steps, group_vector_steps};

}

proof fn vrecps_lanes(s: EmitterState, inst: DecodedArm, options: TranslationOptions, m: Machine)
    requires
        inst.id == ArmInstId::ASIMD_VRECPS,
        s.code.len() + 16 <= usize::MAX,
    ensures
        float_is_translated(s, inst, options, m),
{
    reveal(float_is_translated);
    reveal(arm_vector_ir);
    if !names_odd_quads(inst.raw) && (inst.raw >> 20) & 1 == 0 {
        vrecps_lanes_emitted(s, inst, m);
        let before = run(s, m).machine;
        let q = flag(&inst, 6);
        let n = vector_at(before, n_reg(inst, q));
        let m_ = vector_at(before, m_reg(inst, q));
        let d = vector_at(before, dest_reg(inst, q));
        let v = pair_result(Opcode::FPVectorRecipStepFused32, n, m_, before.float);
        written_lanes(before, dest_reg(inst, q), v, 32);
        float_pair_lanes(
            Opcode::FPVectorRecipStepFused32,
            FloatLane::RecipStepFused,
            32,
            n,
            m_,
            before.float,
        );
    }
}

proof fn vrsqrts_lanes_emitted(s: EmitterState, inst: DecodedArm, m: Machine)
    requires
        s.code.len() + 16 <= usize::MAX,
        !names_odd_quads(inst.raw),
        (inst.raw >> 20) & 1 == 0,
    ensures
        ({
            let r = float_instruction_ir(s, inst, FloatOp::RSqrtStep);
            let before = run(s, m).machine;
            let q = flag(&inst, 6);
            let n = vector_at(before, n_reg(inst, q));
            let m_ = vector_at(before, m_reg(inst, q));
            let d = vector_at(before, dest_reg(inst, q));
            &&& r.1
            &&& run(r.0, m).machine == with_vector(
                before,
                dest_reg(inst, q),
                pair_result(Opcode::FPVectorRSqrtStepFused32, n, m_, before.float),
            )
        }),
{
    broadcast use {group_run, group_steps, group_vector_steps};

}

proof fn vrsqrts_lanes(s: EmitterState, inst: DecodedArm, options: TranslationOptions, m: Machine)
    requires
        inst.id == ArmInstId::ASIMD_VRSQRTS,
        s.code.len() + 16 <= usize::MAX,
    ensures
        float_is_translated(s, inst, options, m),
{
    reveal(float_is_translated);
    reveal(arm_vector_ir);
    if !names_odd_quads(inst.raw) && (inst.raw >> 20) & 1 == 0 {
        vrsqrts_lanes_emitted(s, inst, m);
        let before = run(s, m).machine;
        let q = flag(&inst, 6);
        let n = vector_at(before, n_reg(inst, q));
        let m_ = vector_at(before, m_reg(inst, q));
        let d = vector_at(before, dest_reg(inst, q));
        let v = pair_result(Opcode::FPVectorRSqrtStepFused32, n, m_, before.float);
        written_lanes(before, dest_reg(inst, q), v, 32);
        float_pair_lanes(
            Opcode::FPVectorRSqrtStepFused32,
            FloatLane::RSqrtStepFused,
            32,
            n,
            m_,
            before.float,
        );
    }
}

/// Floating-point instructions on vectors compute every lane of their
/// destination from the same lanes of their operands, in the documented order.
pub proof fn float_vectors_compute_lanes(
    s: EmitterState,
    inst: DecodedArm,
    options: TranslationOptions,
    m: Machine,
)
    requires
        match inst.id {
            ArmInstId::ASIMD_VADD_float
            | ArmInstId::ASIMD_VSUB_float
            | ArmInstId::ASIMD_VMUL_float
            | ArmInstId::ASIMD_VMLA_float
            | ArmInstId::ASIMD_VMLS_float
            | ArmInstId::ASIMD_VFMA
            | ArmInstId::ASIMD_VFMS
            | ArmInstId::ASIMD_VABD_float
            | ArmInstId::ASIMD_VCEQ_reg_float
            | ArmInstId::ASIMD_VCGT_reg_float
            | ArmInstId::ASIMD_VCGE_reg_float
            | ArmInstId::ASIMD_VMAX_float
            | ArmInstId::ASIMD_VMIN_float
            | ArmInstId::ASIMD_VRECPS
            | ArmInstId::ASIMD_VRSQRTS => true,
            _ => false,
        },
        s.code.len() + 16 <= usize::MAX,
    ensures
        float_is_translated(s, inst, options, m),
{
    match inst.id {
        ArmInstId::ASIMD_VADD_float => vadd_float_lanes(s, inst, options, m),
        ArmInstId::ASIMD_VSUB_float => vsub_float_lanes(s, inst, options, m),
        ArmInstId::ASIMD_VMUL_float => vmul_float_lanes(s, inst, options, m),
        ArmInstId::ASIMD_VMLA_float => vmla_float_lanes(s, inst, options, m),
        ArmInstId::ASIMD_VMLS_float => vmls_float_lanes(s, inst, options, m),
        ArmInstId::ASIMD_VFMA => vfma_lanes(s, inst, options, m),
        ArmInstId::ASIMD_VFMS => vfms_lanes(s, inst, options, m),
        ArmInstId::ASIMD_VABD_float => vabd_float_lanes(s, inst, options, m),
        ArmInstId::ASIMD_VCEQ_reg_float => vceq_reg_float_lanes(s, inst, options, m),
        ArmInstId::ASIMD_VCGT_reg_float => vcgt_reg_float_lanes(s, inst, options, m),
        ArmInstId::ASIMD_VCGE_reg_float => vcge_reg_float_lanes(s, inst, options, m),
        ArmInstId::ASIMD_VMAX_float => vmax_float_lanes(s, inst, options, m),
        ArmInstId::ASIMD_VMIN_float => vmin_float_lanes(s, inst, options, m),
        ArmInstId::ASIMD_VRECPS => vrecps_lanes(s, inst, options, m),
        ArmInstId::ASIMD_VRSQRTS => vrsqrts_lanes(s, inst, options, m),
        _ => {},
    }
}

} // verus!
