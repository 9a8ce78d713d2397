//! What the translation of every instruction keeps.
//!
//! The laws are proved for each kind of instruction in the modules
//! `laws_arm`, `laws_vector` and `laws_thumb`.

use vstd::prelude::*;
use super::asimd::flag;
use super::asimd_two_regs_shift::{no_lane_size, shift_imm6};
use crate::frontend::a32::decoder::{ArmInstId, DecodedArm};
use crate::ir::a32_emitter::{appends, EmitterState};
use crate::ir::terminal::Terminal;

verus! {

/// What the translation of an instruction keeps: it only appends, it leaves
/// the end of the block alone when translation goes on, and otherwise it ends
/// the block, unless the instruction is refused.
pub open spec fn extends_unless(s: EmitterState, r: (EmitterState, bool), refused: bool) -> bool {
    &&& appends(s, r.0)
    &&& r.1 ==> r.0.terminal == s.terminal
    &&& !r.1 && !refused ==> r.0.terminal != Terminal::Invalid
}

/// What the translation of an instruction keeps: it only appends, it leaves
/// the end of the block alone when translation goes on, and otherwise it ends
/// the block.
pub open spec fn extends(s: EmitterState, r: (EmitterState, bool)) -> bool {
    extends_unless(s, r, false)
}

/// Whether an instruction is a shift by an immediate that selects no lane
/// size. No word of code is decoded as such an instruction.
pub open spec fn lacks_lane_size(inst: DecodedArm) -> bool {
    &&& no_lane_size(flag(&inst, 7), shift_imm6(inst))
    &&& shifts_by_immediate(inst.id)
}

/// Whether an instruction is a shift of a vector by an immediate.
pub open spec fn shifts_by_immediate(id: ArmInstId) -> bool {
    match id {
        ArmInstId::ASIMD_SHR | ArmInstId::ASIMD_SRA | ArmInstId::ASIMD_VSHRN
        | ArmInstId::ASIMD_VSHL_imm | ArmInstId::ASIMD_VSLI | ArmInstId::ASIMD_VSRI
        | ArmInstId::ASIMD_VQSHL_imm => true,
        _ => false,
    }
}

} // verus!
