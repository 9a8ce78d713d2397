//! Where control goes on if the condition of a block does not hold.

use vstd::prelude::*;
use super::conditional_state::{
    can_continue, condition_step, joins_condition, starts_condition, ConditionalState,
};
use super::translate_arm::advance;
use super::translate_thumb::ThumbInstSize;
use crate::frontend::a32::it_state::{
    advance_uses_up_one_instruction, it_block_keeps_condition_base,
};
use crate::ir::a32_emitter::EmitterState;
use crate::ir::block::{writes_cpsr, Inst};
use crate::ir::cond::Cond;
use crate::ir::location::{packed_location_unpacks, A32LocationDescriptor};
use crate::ir::meaning::{machine_after, run, run_code, Machine, Run};
use crate::ir::opcode::Opcode;

verus! {

/// Whether `next` is the location of the instruction that follows one of
/// `size` bytes at `here` in program order: the address is behind it, the
/// instruction set, the byte order and the floating-point mode are the same,
/// and the If-Then block, if there is one, has one instruction fewer, under
/// the same base condition. Outside a block, the next instruction is too.
pub open spec fn follows_in_program(
    here: A32LocationDescriptor,
    size: u32,
    next: A32LocationDescriptor,
) -> bool {
    &&& next.arm_pc == here.arm_pc.wrapping_add(size)
    &&& next.cpsr.t == here.cpsr.t
    &&& next.cpsr.e == here.cpsr.e
    &&& next.fpscr == here.fpscr
    &&& next.single_step == here.single_step
    &&& here.cpsr.it.remaining() > 0 ==> next.cpsr.it.remaining() == here.cpsr.it.remaining() - 1
    &&& here.cpsr.it.remaining() > 1 ==> next.cpsr.it.0 & 0xE0 == here.cpsr.it.0 & 0xE0
    &&& here.cpsr.it.remaining() <= 1 ==> next.cpsr.it.0 == 0
}

/// The location that a block goes to if its condition does not hold.
pub open spec fn failed_location(s: EmitterState) -> A32LocationDescriptor {
    A32LocationDescriptor::from_location(s.frame.condition_failed_location->0)
}

/// An instruction that starts or extends the condition of a block is skipped
/// if the condition fails: the block then goes to the instruction that follows
/// it in program order, after as many cycles as instructions were skipped.
pub proof fn failed_condition_goes_to_the_next_instruction(
    cond_state: ConditionalState,
    s: EmitterState,
    size: u32,
    cond: Cond,
)
    requires
        cond_state != ConditionalState::Break,
        s.loc.wf(),
        starts_condition(cond_state, s, cond) || joins_condition(cond_state, s, cond),
        s.frame.cycle_count < usize::MAX,
        s.frame.condition_failed_cycle_count < usize::MAX,
    ensures
        ({
            let (next_state, t, passed) = condition_step(cond_state, s, size, cond);
            &&& passed
            &&& next_state == ConditionalState::Translating
            &&& t.frame.cond == Some(cond)
            &&& t.frame.condition_failed_location is Some
            &&& follows_in_program(s.loc, size, failed_location(t))
            &&& t.frame.condition_failed_location == Some(failed_location(t).to_location())
            &&& t.frame.condition_failed_cycle_count == 1 + if starts_condition(
                cond_state,
                s,
                cond,
            ) {
                s.frame.cycle_count
            } else {
                s.frame.condition_failed_cycle_count
            }
        }),
{
    let next = s.loc.set_pc(s.loc.pc().wrapping_add(size)).advance_it();
    packed_location_unpacks(next);
    advance_uses_up_one_instruction(s.loc.it());
    if s.loc.it().remaining() > 1 {
        it_block_keeps_condition_base(s.loc.it());
    }
}

/// Between two instructions of a block, control moves to the instruction that
/// follows in program order: for Thumb code with its If-Then state, and for
/// ARM code, which has none.
pub proof fn blocks_advance_in_program_order(here: A32LocationDescriptor, size: ThumbInstSize)
    ensures
        follows_in_program(
            here,
            size.bytes(),
            here.advance_pc(size.offset()).advance_it(),
        ),
        here.cpsr.it.0 == 0 ==> follows_in_program(here, 4, here.advance_pc(4)),
{
    advance_uses_up_one_instruction(here.it());
    if here.it().remaining() > 1 {
        it_block_keeps_condition_base(here.it());
    }
    assert(0u8 & 1 == 0 && 0u8 & 2 == 0 && 0u8 & 4 == 0 && 0u8 & 8 == 0) by (bit_vector);
}

/// Instructions under one condition share a block: where a conditional
/// instruction of Thumb code was translated and the block moved on, the next
/// one, if it has the same condition, joins the block, which then skips both
/// if the condition fails. So a run of instructions under one condition is
/// skipped as a whole.
pub proof fn instructions_under_one_condition_share_a_block(
    cond_state: ConditionalState,
    s: EmitterState,
    first: ThumbInstSize,
    second: ThumbInstSize,
    cond: Cond,
    translated: EmitterState,
)
    requires
        cond_state != ConditionalState::Break,
        s.loc.wf(),
        starts_condition(cond_state, s, cond) || joins_condition(cond_state, s, cond),
        translated.loc == s.loc,
        translated.frame == condition_step(cond_state, s, first.bytes(), cond).1.frame,
        translated.frame.cycle_count + 1 < usize::MAX,
        translated.frame.condition_failed_cycle_count < usize::MAX,
        s.frame.cycle_count < usize::MAX,
        s.frame.condition_failed_cycle_count < usize::MAX,
    ensures
        ({
            let here = s.loc.advance_pc(first.offset()).advance_it();
            let t = advance(translated, here);
            let (next_state, u, passed) = condition_step(
                ConditionalState::Translating,
                t,
                second.bytes(),
                cond,
            );
            &&& passed
            &&& next_state == ConditionalState::Translating
            &&& u.frame.cond == Some(cond)
            &&& follows_in_program(s.loc, first.bytes(), here)
            &&& follows_in_program(here, second.bytes(), failed_location(u))
            &&& u.frame.condition_failed_cycle_count
                == translated.frame.condition_failed_cycle_count + 1
        }),
{
    let here = s.loc.advance_pc(first.offset()).advance_it();
    let t = advance(translated, here);
    failed_condition_goes_to_the_next_instruction(cond_state, s, first.bytes(), cond);
    blocks_advance_in_program_order(s.loc, first);
    let next = s.loc.set_pc(s.loc.pc().wrapping_add(first.bytes())).advance_it();
    assert(next == here);
    assert(here.wf());
    failed_condition_goes_to_the_next_instruction(
        ConditionalState::Translating,
        t,
        second.bytes(),
        cond,
    );
}

/// An instruction that changes the flags counts as one that writes the program
/// status register.
pub proof fn flags_change_only_by_status_writes(r: Run, inst: Inst)
    requires
        !inst.opcode.writes_to_cpsr(),
        inst.opcode == Opcode::A32SetRegister ==> inst.args.0 is ImmA32Reg,
        inst.opcode == Opcode::A32SetVector ==> inst.args.0 is ImmA32ExtReg,
    ensures
        machine_after(r, inst).flags == r.machine.flags,
{
    reveal(machine_after);
}

/// Whether registers are written under their names.
pub open spec fn names_registers(code: Seq<Inst>) -> bool {
    forall|i: int|
        0 <= i < code.len() ==> ((#[trigger] code[i]).opcode == Opcode::A32SetRegister
            ==> code[i].args.0 is ImmA32Reg) && (code[i].opcode == Opcode::A32SetVector
            ==> code[i].args.0 is ImmA32ExtReg)
}

proof fn code_keeps_flags(code: Seq<Inst>, m: Machine)
    requires
        !writes_cpsr(code),
        names_registers(code),
    ensures
        run_code(code, m).machine.flags == m.flags,
    decreases code.len(),
{
    if code.len() > 0 {
        let before = code.drop_last();
        assert forall|i: int| 0 <= i < before.len() implies !(
        #[trigger] before[i]).opcode.writes_to_cpsr() by {
            assert(before[i] == code[i]);
        }
        assert forall|i: int| 0 <= i < before.len() implies ((#[trigger] before[i]).opcode
            == Opcode::A32SetRegister ==> before[i].args.0 is ImmA32Reg) && (before[i].opcode
            == Opcode::A32SetVector ==> before[i].args.0 is ImmA32ExtReg) by {
            assert(before[i] == code[i]);
        }
        code_keeps_flags(before, m);
        flags_change_only_by_status_writes(run_code(before, m), code.last());
    }
}

/// As long as a block with a condition goes on, the flags that its condition
/// depends on are those with which it was entered.
pub proof fn conditional_blocks_keep_their_flags(
    cond_state: ConditionalState,
    s: EmitterState,
    m: Machine,
)
    requires
        cond_state != ConditionalState::Unconditional,
        can_continue(cond_state, s),
        names_registers(s.code),
    ensures
        run(s, m).machine.flags == m.flags,
{
    reveal(run);
    code_keeps_flags(s.code, m);
}

} // verus!
