//! Instructions that raise exceptions.

use vstd::prelude::*;
use super::branch::push_return_ir;
use super::{
    raise_exception, raise_ir, undefined_instruction, undefined_ir, unpredictable_instruction,
    unpredictable_ir, TranslationOptions,
};
use crate::frontend::a32::decoder::DecodedArm;
use crate::frontend::a32::types::Exception;
use crate::ir::a32_emitter::{A32IREmitter, EmitterState};
use crate::ir::cond::Cond;
use crate::ir::opcode::Opcode;
use crate::ir::terminal::{halt_or, Terminal};
use crate::ir::value::Value;

verus! {

/// A supervisor call. The program counter is moved past the instruction
/// first.
pub open spec fn arm_svc_ir(s: EmitterState, inst: DecodedArm) -> (EmitterState, bool) {
    let next = Value::ImmU32(s.loc.pc().wrapping_add(4));
    let s = push_return_ir(s).branch_write_pc(next);
    (
        s.op1(Opcode::A32CallSupervisor, Value::ImmU32(inst.imm24())).0.end(
            halt_or(Terminal::PopRSBHint),
        ),
        false,
    )
}

/// Translates a supervisor call.
pub fn arm_svc(ir: &mut A32IREmitter, inst: &DecodedArm) -> (r: bool)
    ensures
        (final(ir)@, r) == arm_svc_ir(old(ir)@, *inst),
{
    let loc = ir.current_location;
    ir.push_rsb(loc.advance_pc(4).to_location());
    let next_pc: u32 = loc.pc().wrapping_add(4);
    ir.branch_write_pc(Value::ImmU32(next_pc));
    ir.call_supervisor(inst.imm24());
    ir.set_term(Terminal::check_halt(Terminal::PopRSBHint));
    false
}

/// Translates an instruction that is permanently undefined.
pub fn arm_udf(ir: &mut A32IREmitter, _inst: &DecodedArm) -> (r: bool)
    ensures
        (final(ir)@, r) == undefined_ir(old(ir)@),
{
    undefined_instruction(ir)
}

/// A breakpoint. Unless unpredictable behaviour is defined, a conditional
/// breakpoint is unpredictable.
pub open spec fn arm_bkpt_ir(s: EmitterState, inst: DecodedArm, options: TranslationOptions) -> (
    EmitterState,
    bool,
) {
    if inst.cond() != Cond::AL && !options.define_unpredictable_behaviour {
        unpredictable_ir(s)
    } else {
        raise_ir(s, Exception::Breakpoint, 4)
    }
}

/// Translates a breakpoint.
pub fn arm_bkpt(ir: &mut A32IREmitter, inst: &DecodedArm, options: TranslationOptions) -> (r: bool)
    ensures
        (final(ir)@, r) == arm_bkpt_ir(old(ir)@, *inst, options),
{
    if inst.cond() != Cond::AL && !options.define_unpredictable_behaviour {
        return unpredictable_instruction(ir);
    }
    raise_exception(ir, Exception::Breakpoint)
}

} // verus!
