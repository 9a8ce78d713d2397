//! What vector instructions on integers and bits do to the lanes of registers.

use vstd::prelude::*;
use super::arm_dispatch::{arm_vector_ir, translate_arm_instruction_ir};
use super::asimd::{dest_reg, flag, m_reg, n_reg};
use super::asimd_three_regs::{int_binary_ir, int_shift_ir};
use super::laws_lanes::{lanes_become, names_odd_quads, pair_lanes, written_lanes};
use super::{report_ir, TranslationOptions};
use crate::frontend::a32::decoder::{ArmInstId, DecodedArm};
use crate::frontend::a32::types::Exception;
use crate::ir::a32_emitter::EmitterState;
use crate::ir::lanes::{bitwise, combined, lane_op, pair_result, FloatLane, LaneOp, Vector};
use crate::ir::meaning::{group_run, run, vector_at, with_vector, Machine};
use crate::ir::meaning_steps::{group_steps, group_vector_steps};
use crate::ir::opcode::Opcode;

verus! {

broadcast use crate::bits::and_le_mask;

/// The size of the lanes that bits 21 and 20 select.
pub open spec fn integer_lane(raw: u32) -> int {
    let size = (raw >> 20) & 3;
    if size == 0 {
        8
    } else if size == 1 {
        16
    } else {
        32
    }
}

/// An instruction that combines lanes of its operands does so in every lane,
/// in the order of the operands; a shift by a register moves the lanes of the
/// second operand by those of the first.
pub proof fn operands_are_combined(s: EmitterState, inst: DecodedArm, o: Opcode, op: LaneOp, m: Machine)
    requires
        !names_odd_quads(inst.raw),
        (inst.raw >> 20) & 3 != 3,
        lane_op(o) == Some((op, integer_lane(inst.raw))),
        s.code.len() + 16 <= usize::MAX,
    ensures
        ({
            let (raw, e) = (inst.raw, integer_lane(inst.raw));
            let before = run(s, m).machine;
            let (r, t) = (int_binary_ir(s, inst, o), int_shift_ir(s, inst, o));
            &&& r.1
            &&& t.1
            &&& lanes_become(
                before,
                run(r.0, m).machine,
                raw,
                (raw >> 6) & 1 != 0,
                e,
                |n: int, m: int, d: int| combined(op, e, n, m),
            )
            &&& lanes_become(
                before,
                run(t.0, m).machine,
                raw,
                (raw >> 6) & 1 != 0,
                e,
                |n: int, m: int, d: int| combined(op, e, m, n),
            )
        }),
{
    let before = run(s, m).machine;
    let q = flag(&inst, 6);
    let e = integer_lane(inst.raw);
    let n = vector_at(before, n_reg(inst, q));
    let k = vector_at(before, m_reg(inst, q));
    let v = pair_result(o, n, k, before.float);
    let w = pair_result(o, k, n, before.float);
    pair_lanes(o, op, e, n, k, before.float);
    pair_lanes(o, op, e, k, n, before.float);
    let (r, t) = (int_binary_ir(s, inst, o).0, int_shift_ir(s, inst, o).0);
    assert(run(r, m).machine == with_vector(before, dest_reg(inst, q), v) && run(t, m).machine
        == with_vector(before, dest_reg(inst, q), w)) by {
        broadcast use {group_run, group_steps, group_vector_steps};

    }
    written_lanes(before, dest_reg(inst, q), v, e);
    written_lanes(before, dest_reg(inst, q), w, e);
}

/// The lanes of bitwise operations.
proof fn bitwise_lanes(
    o: Opcode,
    a: Vector,
    b: Vector,
    float: spec_fn(FloatLane, int, int, int, int) -> int,
)
    requires
        o == Opcode::VectorAnd || o == Opcode::VectorAndNot || o == Opcode::VectorOr || o
            == Opcode::VectorEor,
    ensures
        pair_result(o, a, b, float) == bitwise(o, a, b),
{
    reveal(pair_result);
}

/// What a bitwise instruction makes of double words of its operands and of its
/// destination.
pub open spec fn documented_bits(id: ArmInstId, n: u64, m: u64, d: u64) -> u64 {
    match id {
        ArmInstId::ASIMD_VAND_reg => n & m,
        ArmInstId::ASIMD_VBIC_reg => n & !m,
        ArmInstId::ASIMD_VORR_reg => n | m,
        ArmInstId::ASIMD_VEOR_reg => n ^ m,
        ArmInstId::ASIMD_VBSL => (n & d) | (m & !d),
        ArmInstId::ASIMD_VBIT => (n & m) | (d & !m),
        ArmInstId::ASIMD_VBIF => (d & m) | (n & !m),
        _ => arbitrary(),
    }
}

/// What is owed of the translation of a bitwise instruction on vectors.
#[verifier::opaque]
pub open spec fn bitwise_is_translated(
    s: EmitterState,
    inst: DecodedArm,
    options: TranslationOptions,
    m: Machine,
) -> bool {
    let r = translate_arm_instruction_ir(s, inst, options);
    let (before, after) = (run(s, m).machine, run(r.0, m).machine);
    let raw = inst.raw;
    if names_odd_quads(raw) {
        r == report_ir(s, Exception::UndefinedInstruction)
    } else {
        &&& r.1
        &&& lanes_become(
            before,
            after,
            raw,
            (raw >> 6) & 1 != 0,
            64,
            |n: int, m: int, d: int|
                documented_bits(inst.id, n as u64, m as u64, d as u64) as int,
        )
    }
}

proof fn vand_reg_bits(s: EmitterState, inst: DecodedArm, options: TranslationOptions, m: Machine)
    requires
        inst.id == ArmInstId::ASIMD_VAND_reg,
        s.code.len() + 16 <= usize::MAX,
    ensures
        bitwise_is_translated(s, inst, options, m),
{
    reveal(bitwise_is_translated);
    reveal(arm_vector_ir);
    if !names_odd_quads(inst.raw) {
        let before = run(s, m).machine;
        let q = flag(&inst, 6);
        let n = vector_at(before, n_reg(inst, q));
        let m_ = vector_at(before, m_reg(inst, q));
        let d = vector_at(before, dest_reg(inst, q));
        let v = bitwise(Opcode::VectorAnd, n, m_);
        bitwise_lanes(Opcode::VectorAnd, n, m_, before.float);
        let t = translate_arm_instruction_ir(s, inst, options).0;
        assert(run(t, m).machine == with_vector(before, dest_reg(inst, q), v)) by {
            broadcast use {group_run, group_steps, group_vector_steps};

        }
        written_lanes(before, dest_reg(inst, q), v, 64);
    }
}

proof fn vbic_reg_bits(s: EmitterState, inst: DecodedArm, options: TranslationOptions, m: Machine)
    requires
        inst.id == ArmInstId::ASIMD_VBIC_reg,
        s.code.len() + 16 <= usize::MAX,
    ensures
        bitwise_is_translated(s, inst, options, m),
{
    reveal(bitwise_is_translated);
    reveal(arm_vector_ir);
    if !names_odd_quads(inst.raw) {
        let before = run(s, m).machine;
        let q = flag(&inst, 6);
        let n = vector_at(before, n_reg(inst, q));
        let m_ = vector_at(before, m_reg(inst, q));
        let d = vector_at(before, dest_reg(inst, q));
        let v = bitwise(Opcode::VectorAndNot, n, m_);
        bitwise_lanes(Opcode::VectorAndNot, n, m_, before.float);
        let t = translate_arm_instruction_ir(s, inst, options).0;
        assert(run(t, m).machine == with_vector(before, dest_reg(inst, q), v)) by {
            broadcast use {group_run, group_steps, group_vector_steps};

        }
        written_lanes(before, dest_reg(inst, q), v, 64);
    }
}

proof fn vorr_reg_bits(s: EmitterState, inst: DecodedArm, options: TranslationOptions, m: Machine)
    requires
        inst.id == ArmInstId::ASIMD_VORR_reg,
        s.code.len() + 16 <= usize::MAX,
    ensures
        bitwise_is_translated(s, inst, options, m),
{
    reveal(bitwise_is_translated);
    reveal(arm_vector_ir);
    if !names_odd_quads(inst.raw) {
        let before = run(s, m).machine;
        let q = flag(&inst, 6);
        let n = vector_at(before, n_reg(inst, q));
        let m_ = vector_at(before, m_reg(inst, q));
        let d = vector_at(before, dest_reg(inst, q));
        let v = bitwise(Opcode::VectorOr, n, m_);
        bitwise_lanes(Opcode::VectorOr, n, m_, before.float);
        let t = translate_arm_instruction_ir(s, inst, options).0;
        assert(run(t, m).machine == with_vector(before, dest_reg(inst, q), v)) by {
            broadcast use {group_run, group_steps, group_vector_steps};

        }
        written_lanes(before, dest_reg(inst, q), v, 64);
    }
}

proof fn veor_reg_bits(s: EmitterState, inst: DecodedArm, options: TranslationOptions, m: Machine)
    requires
        inst.id == ArmInstId::ASIMD_VEOR_reg,
        s.code.len() + 16 <= usize::MAX,
    ensures
        bitwise_is_translated(s, inst, options, m),
{
    reveal(bitwise_is_translated);
    reveal(arm_vector_ir);
    if !names_odd_quads(inst.raw) {
        let before = run(s, m).machine;
        let q = flag(&inst, 6);
        let n = vector_at(before, n_reg(inst, q));
        let m_ = vector_at(before, m_reg(inst, q));
        let d = vector_at(before, dest_reg(inst, q));
        let v = bitwise(Opcode::VectorEor, n, m_);
        bitwise_lanes(Opcode::VectorEor, n, m_, before.float);
        let t = translate_arm_instruction_ir(s, inst, options).0;
        assert(run(t, m).machine == with_vector(before, dest_reg(inst, q), v)) by {
            broadcast use {group_run, group_steps, group_vector_steps};

        }
        written_lanes(before, dest_reg(inst, q), v, 64);
    }
}

proof fn vbsl_bits(s: EmitterState, inst: DecodedArm, options: TranslationOptions, m: Machine)
    requires
        inst.id == ArmInstId::ASIMD_VBSL,
        s.code.len() + 16 <= usize::MAX,
    ensures
        bitwise_is_translated(s, inst, options, m),
{
    reveal(bitwise_is_translated);
    reveal(arm_vector_ir);
    if !names_odd_quads(inst.raw) {
        let before = run(s, m).machine;
        let q = flag(&inst, 6);
        let n = vector_at(before, n_reg(inst, q));
        let m_ = vector_at(before, m_reg(inst, q));
        let d = vector_at(before, dest_reg(inst, q));
        let v = bitwise(
            Opcode::VectorOr,
            bitwise(Opcode::VectorAnd, n, d),
            bitwise(Opcode::VectorAndNot, m_, d),
        );
        bitwise_lanes(Opcode::VectorAnd, n, d, before.float);
        bitwise_lanes(Opcode::VectorAndNot, m_, d, before.float);
        bitwise_lanes(
            Opcode::VectorOr,
            bitwise(Opcode::VectorAnd, n, d),
            bitwise(Opcode::VectorAndNot, m_, d),
            before.float,
        );
        let t = translate_arm_instruction_ir(s, inst, options).0;
        assert(run(t, m).machine == with_vector(before, dest_reg(inst, q), v)) by {
            broadcast use {group_run, group_steps, group_vector_steps};

        }
        written_lanes(before, dest_reg(inst, q), v, 64);
    }
}

proof fn vbit_bits(s: EmitterState, inst: DecodedArm, options: TranslationOptions, m: Machine)
    requires
        inst.id == ArmInstId::ASIMD_VBIT,
        s.code.len() + 16 <= usize::MAX,
    ensures
        bitwise_is_translated(s, inst, options, m),
{
    reveal(bitwise_is_translated);
    reveal(arm_vector_ir);
    if !names_odd_quads(inst.raw) {
        let before = run(s, m).machine;
        let q = flag(&inst, 6);
        let n = vector_at(before, n_reg(inst, q));
        let m_ = vector_at(before, m_reg(inst, q));
        let d = vector_at(before, dest_reg(inst, q));
        let v = bitwise(
            Opcode::VectorOr,
            bitwise(Opcode::VectorAnd, n, m_),
            bitwise(Opcode::VectorAndNot, d, m_),
        );
        bitwise_lanes(Opcode::VectorAnd, n, m_, before.float);
        bitwise_lanes(Opcode::VectorAndNot, d, m_, before.float);
        bitwise_lanes(
            Opcode::VectorOr,
            bitwise(Opcode::VectorAnd, n, m_),
            bitwise(Opcode::VectorAndNot, d, m_),
            before.float,
        );
        let t = translate_arm_instruction_ir(s, inst, options).0;
        assert(run(t, m).machine == with_vector(before, dest_reg(inst, q), v)) by {
            broadcast use {group_run, group_steps, group_vector_steps};

        }
        written_lanes(before, dest_reg(inst, q), v, 64);
    }
}

proof fn vbif_bits(s: EmitterState, inst: DecodedArm, options: TranslationOptions, m: Machine)
    requires
        inst.id == ArmInstId::ASIMD_VBIF,
        s.code.len() + 16 <= usize::MAX,
    ensures
        bitwise_is_translated(s, inst, options, m),
{
    reveal(bitwise_is_translated);
    reveal(arm_vector_ir);
    if !names_odd_quads(inst.raw) {
        let before = run(s, m).machine;
        let q = flag(&inst, 6);
        let n = vector_at(before, n_reg(inst, q));
        let m_ = vector_at(before, m_reg(inst, q));
        let d = vector_at(before, dest_reg(inst, q));
        let v = bitwise(
            Opcode::VectorOr,
            bitwise(Opcode::VectorAnd, d, m_),
            bitwise(Opcode::VectorAndNot, n, m_),
        );
        bitwise_lanes(Opcode::VectorAnd, d, m_, before.float);
        bitwise_lanes(Opcode::VectorAndNot, n, m_, before.float);
        bitwise_lanes(
            Opcode::VectorOr,
            bitwise(Opcode::VectorAnd, d, m_),
            bitwise(Opcode::VectorAndNot, n, m_),
            before.float,
        );
        let t = translate_arm_instruction_ir(s, inst, options).0;
        assert(run(t, m).machine == with_vector(before, dest_reg(inst, q), v)) by {
            broadcast use {group_run, group_steps, group_vector_steps};

        }
        written_lanes(before, dest_reg(inst, q), v, 64);
    }
}

/// Bitwise instructions on vectors compute every double word of their
/// destination from the same double words of their operands.
pub proof fn bitwise_vectors_compute_lanes(
    s: EmitterState,
    inst: DecodedArm,
    options: TranslationOptions,
    m: Machine,
)
    requires
        match inst.id {
            ArmInstId::ASIMD_VAND_reg
            | ArmInstId::ASIMD_VBIC_reg
            | ArmInstId::ASIMD_VORR_reg
            | ArmInstId::ASIMD_VEOR_reg
            | ArmInstId::ASIMD_VBSL
            | ArmInstId::ASIMD_VBIT
            | ArmInstId::ASIMD_VBIF => true,
            _ => false,
        },
        s.code.len() + 16 <= usize::MAX,
    ensures
        bitwise_is_translated(s, inst, options, m),
{
    match inst.id {
        ArmInstId::ASIMD_VAND_reg => vand_reg_bits(s, inst, options, m),
        ArmInstId::ASIMD_VBIC_reg => vbic_reg_bits(s, inst, options, m),
        ArmInstId::ASIMD_VORR_reg => vorr_reg_bits(s, inst, options, m),
        ArmInstId::ASIMD_VEOR_reg => veor_reg_bits(s, inst, options, m),
        ArmInstId::ASIMD_VBSL => vbsl_bits(s, inst, options, m),
        ArmInstId::ASIMD_VBIT => vbit_bits(s, inst, options, m),
        ArmInstId::ASIMD_VBIF => vbif_bits(s, inst, options, m),
        _ => {},
    }
}

} // verus!
