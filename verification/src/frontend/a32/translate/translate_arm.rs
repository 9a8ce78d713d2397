//! Translation of blocks of ARM code.

use vstd::prelude::*;
use super::arm_dispatch::{
    arm_translatable, translate_arm_instruction, translate_arm_instruction_ir,
};
use super::asimd_two_regs_shift::{vsli_has_mask, vsri_has_mask};
use super::conditional_state::{
    can_continue, cond_can_continue, condition_step, is_condition_passed, ConditionalState,
};
use super::laws::{extends, extends_unless, lacks_lane_size, shifts_by_immediate};
use super::laws_arm::{arm_extends, interpret_extends};
use super::translate_callbacks::TranslateCallbacks;
use super::{
    interpret_ir, interpret_this_instruction, raise_exception, raise_ir, TranslationOptions,
};
use crate::frontend::a32::decoder::{
    arm_encoding, decode_arm, decoded_shift_selects_a_lane, ArmInstId, DecodedArm,
};
use crate::frontend::a32::types::{Exception, Reg};
use crate::ir::a32_emitter::{appends, A32IREmitter, BlockFrame, EmitterState};
use crate::ir::location::A32LocationDescriptor;
use crate::ir::terminal::Terminal;

verus! {

broadcast use crate::bits::and_le_mask;

/// The number of words in the address space. No block holds more of them.
pub const ADDRESS_SPACE_WORDS: u32 = 0x4000_0000;

/// Whether an instruction is translated without regard to its condition
/// field: the unconditional encodings, and checksums, which check the field
/// themselves.
pub open spec fn ignores_condition(inst: DecodedArm) -> bool {
    (inst.raw >> 28) & 0xF == 0xF || inst.id == ArmInstId::CRC32 || inst.id == ArmInstId::CRC32C
}

/// Whether the operands of an instruction are among those that are
/// translated.
fn is_arm_translatable(inst: &DecodedArm) -> (r: bool)
    ensures
        r == arm_translatable(*inst),
{
    let t_form: bool = !inst.p_flag() && inst.w_flag();
    match inst.id {
        ArmInstId::LDR_imm | ArmInstId::LDRB_imm | ArmInstId::LDRH_imm | ArmInstId::LDRSB_imm
        | ArmInstId::LDRSH_imm => inst.rn() == Reg::R15 || !t_form,
        ArmInstId::LDR_reg | ArmInstId::LDRB_reg | ArmInstId::LDRH_lit | ArmInstId::LDRH_reg
        | ArmInstId::LDRSB_reg | ArmInstId::LDRSH_reg => !t_form,
        ArmInstId::STRD_imm | ArmInstId::STRD_reg => inst.rt() != Reg::R15,
        ArmInstId::ASIMD_VSLI => has_left_mask(inst),
        ArmInstId::ASIMD_VSRI => has_right_mask(inst),
        _ => true,
    }
}

fn has_left_mask(inst: &DecodedArm) -> (r: bool)
    ensures
        r == vsli_has_mask(*inst),
{
    let q: bool = (inst.raw >> 6) & 1 != 0;
    let odd: bool = ((inst.raw >> 12) & 0xF) & 1 != 0 || (inst.raw & 0xF) & 1 != 0;
    (inst.raw >> 7) & 1 == 0 || (q && odd)
}

fn has_right_mask(inst: &DecodedArm) -> (r: bool)
    ensures
        r == vsri_has_mask(*inst),
{
    (inst.raw >> 16) & 0x3F == 0 || has_left_mask(inst)
}

/// The translation of a decoded ARM instruction whose condition holds.
/// Operands that are not translated leave the instruction to an interpreter.
#[verifier::opaque]
pub open spec fn arm_visit_ir(s: EmitterState, inst: DecodedArm, options: TranslationOptions) -> (
    EmitterState,
    bool,
) {
    if arm_translatable(inst) {
        translate_arm_instruction_ir(s, inst, options)
    } else {
        interpret_ir(s)
    }
}

/// Translates a decoded ARM instruction whose condition holds.
pub fn arm_visit(ir: &mut A32IREmitter, inst: &DecodedArm, options: TranslationOptions) -> (r: bool)
    ensures
        (final(ir)@, r) == arm_visit_ir(old(ir)@, *inst, options),
{
    proof {
        reveal(arm_visit_ir);
    }
    if is_arm_translatable(inst) {
        translate_arm_instruction(ir, inst, options)
    } else {
        interpret_this_instruction(ir)
    }
}

/// The step for one word of ARM code: the condition decides whether it joins
/// the block, then it is translated.
pub open spec fn arm_step(
    cond_state: ConditionalState,
    s: EmitterState,
    word: u32,
    options: TranslationOptions,
) -> (ConditionalState, EmitterState, bool) {
    let inst = DecodedArm { raw: word, id: arm_encoding(word) };
    if ignores_condition(inst) {
        let (s, go_on) = arm_visit_ir(s, inst, options);
        (cond_state, s, go_on)
    } else {
        let (cond_state, s, passed) = condition_step(cond_state, s, 4, inst.cond());
        if passed {
            let (s, go_on) = arm_visit_ir(s, inst, options);
            (cond_state, s, go_on)
        } else {
            (cond_state, s, false)
        }
    }
}

fn arm_one(
    ir: &mut A32IREmitter,
    cond_state: &mut ConditionalState,
    word: u32,
    options: TranslationOptions,
) -> (r: bool)
    requires
        *old(cond_state) != ConditionalState::Break,
        old(ir).block.cycle_count < usize::MAX,
        *old(cond_state) == ConditionalState::Translating ==>
            old(ir).block.condition_failed_cycle_count < usize::MAX,
    ensures
        (*final(cond_state), final(ir)@, r) == arm_step(
            *old(cond_state),
            old(ir)@,
            word,
            options,
        ),
{
    let inst = decode_arm(word);
    if (inst.raw >> 28) & 0xF == 0xF || inst.id == ArmInstId::CRC32 || inst.id
        == ArmInstId::CRC32C {
        return arm_visit(ir, &inst, options);
    }
    let location = ir.current_location;
    if is_condition_passed(cond_state, &mut ir.block, location, 4, inst.cond()) {
        arm_visit(ir, &inst, options)
    } else {
        false
    }
}

/// Moving past an instruction: the location advances and a cycle is counted.
pub open spec fn advance(s: EmitterState, next: A32LocationDescriptor) -> EmitterState {
    EmitterState {
        loc: next,
        frame: BlockFrame { cycle_count: (s.frame.cycle_count + 1) as usize, ..s.frame },
        ..s
    }
}

/// Noting the location as the end of the block.
pub open spec fn end_here(s: EmitterState) -> EmitterState {
    EmitterState { frame: BlockFrame { end: s.loc.to_location(), ..s.frame }, ..s }
}

/// The end of the translation of a block: a block that is still open is linked
/// to the code that follows, and the end location is noted. A single step is
/// linked so that it can be interrupted.
pub open spec fn finish(
    cond_state: ConditionalState,
    s: EmitterState,
    go_on: bool,
    single_step: bool,
) -> EmitterState {
    let s = if go_on && cond_state != ConditionalState::Break {
        s.end(
            if single_step {
                Terminal::LinkBlock { next: s.loc.to_location() }
            } else {
                Terminal::LinkBlockFast { next: s.loc.to_location() }
            },
        )
    } else {
        s
    };
    end_here(s)
}

/// Ends the translation of a block.
pub fn finish_block(
    ir: &mut A32IREmitter,
    cond_state: ConditionalState,
    go_on: bool,
    single_step: bool,
)
    ensures
        final(ir)@ == finish(cond_state, old(ir)@, go_on, single_step),
{
    let here = ir.current_location.to_location();
    if go_on && cond_state != ConditionalState::Break {
        if single_step {
            ir.set_term(Terminal::LinkBlock { next: here });
        } else {
            ir.set_term(Terminal::LinkBlockFast { next: here });
        }
    }
    ir.block.end = here;
}

/// The translation of at most `n` words of ARM code: word by word until an
/// instruction ends the block, the block breaks, its condition could change,
/// or after one word in a single step. Code that may not be executed raises
/// an exception.
pub open spec fn arm_block_ir<C: TranslateCallbacks>(
    callbacks: C,
    cond_state: ConditionalState,
    s: EmitterState,
    options: TranslationOptions,
    single_step: bool,
    n: nat,
) -> EmitterState
    decreases n,
{
    let (next_state, next, go_on) = match callbacks.code(s.loc.pc()) {
        Some(word) => arm_step(cond_state, s, word, options),
        None => {
            let (t, go_on) = raise_ir(s, Exception::NoExecuteFault, 4);
            (cond_state, t, go_on)
        },
    };
    if next_state == ConditionalState::Break {
        finish(next_state, next, go_on, single_step)
    } else {
        let t = advance(next, next.loc.advance_pc(4));
        if go_on && can_continue(next_state, t) && !single_step && n > 1 {
            arm_block_ir(callbacks, next_state, t, options, single_step, (n - 1) as nat)
        } else {
            finish(next_state, t, go_on, single_step)
        }
    }
}

/// Translates a block of ARM code into the emitter's block, which is new.
pub fn translate_arm<C: TranslateCallbacks>(
    ir: &mut A32IREmitter,
    callbacks: &C,
    options: TranslationOptions,
)
    requires
        old(ir).block.cycle_count == 0,
        old(ir).block.condition_failed_cycle_count == 0,
    ensures
        final(ir)@ == arm_block_ir(
            *callbacks,
            ConditionalState::Unconditional,
            old(ir)@,
            options,
            old(ir).current_location.single_step,
            ADDRESS_SPACE_WORDS as nat,
        ),
{
    let single_step = ir.current_location.single_stepping();
    let mut cond_state = ConditionalState::Unconditional;
    let mut left: u32 = ADDRESS_SPACE_WORDS;
    let ghost result = arm_block_ir(
        *callbacks,
        cond_state,
        ir@,
        options,
        single_step,
        ADDRESS_SPACE_WORDS as nat,
    );
    loop
        invariant_except_break
            0 < left <= ADDRESS_SPACE_WORDS,
            cond_state != ConditionalState::Break,
            ir.block.cycle_count == ADDRESS_SPACE_WORDS - left,
            ir.block.condition_failed_cycle_count <= ADDRESS_SPACE_WORDS - left,
            result == arm_block_ir(*callbacks, cond_state, ir@, options, single_step, left as nat),
        ensures
            ir@ == result,
        decreases left,
    {
        let pc: u32 = ir.current_location.pc();
        let ghost s0 = ir@;
        let go_on = match callbacks.memory_read_code(pc) {
            Some(word) => {
                proof {
                    step_keeps_cycles(cond_state, s0, word, options);
                }
                arm_one(ir, &mut cond_state, word, options)
            },
            None => raise_exception(ir, Exception::NoExecuteFault),
        };
        if cond_state == ConditionalState::Break {
            finish_block(ir, cond_state, go_on, single_step);
            break;
        }
        ir.current_location = ir.current_location.advance_pc(4);
        ir.block.cycle_count = ir.block.cycle_count + 1;
        let more = go_on && cond_can_continue(cond_state, &ir.block) && !single_step && left > 1;
        if !more {
            finish_block(ir, cond_state, go_on, single_step);
            break;
        }
        left = left - 1;
    }
}

/// The translation of an instruction whose condition holds only appends.
pub proof fn visit_only_appends(s: EmitterState, inst: DecodedArm, options: TranslationOptions)
    ensures
        extends_unless(s, arm_visit_ir(s, inst, options), lacks_lane_size(inst)),
{
    reveal(arm_visit_ir);
    arm_extends(s, inst, options);
    interpret_extends(s);
}

/// The translation of a word of code whose condition holds only appends, and
/// ends the block where translation does not go on.
pub proof fn decoded_visit_only_appends(s: EmitterState, word: u32, options: TranslationOptions)
    ensures
        extends(
            s,
            arm_visit_ir(s, DecodedArm { raw: word, id: arm_encoding(word) }, options),
        ),
{
    let inst = DecodedArm { raw: word, id: arm_encoding(word) };
    visit_only_appends(s, inst, options);
    if shifts_by_immediate(inst.id) {
        decoded_shift_selects_a_lane(word);
    }
}

/// A step keeps the count of cycles.
proof fn step_keeps_cycles(
    cond_state: ConditionalState,
    s: EmitterState,
    word: u32,
    options: TranslationOptions,
)
    requires
        s.frame.cycle_count < usize::MAX,
    ensures
        arm_step(cond_state, s, word, options).1.frame.cycle_count == s.frame.cycle_count,
        s.frame.condition_failed_cycle_count <= s.frame.cycle_count ==> arm_step(
            cond_state,
            s,
            word,
            options,
        ).1.frame.condition_failed_cycle_count <= s.frame.cycle_count + 1,
{
    let inst = DecodedArm { raw: word, id: arm_encoding(word) };
    let (next_state, t, passed) = condition_step(cond_state, s, 4, inst.cond());
    decoded_visit_only_appends(s, word, options);
    decoded_visit_only_appends(t, word, options);
    reveal(appends);
}

/// The translation of one supplied word of ARM code.
pub open spec fn single_arm_ir(s: EmitterState, word: u32) -> (EmitterState, bool) {
    let (cond_state, t, go_on) = arm_step(
        ConditionalState::Unconditional,
        s,
        word,
        TranslationOptions::plain(),
    );
    (end_here(advance(t, t.loc.advance_pc(4))), go_on)
}

/// Translates one supplied word of ARM code.
pub fn translate_single_arm_instruction(ir: &mut A32IREmitter, word: u32) -> (r: bool)
    requires
        old(ir).block.cycle_count < usize::MAX,
    ensures
        (final(ir)@, r) == single_arm_ir(old(ir)@, word),
{
    let options = TranslationOptions::default();
    let mut cond_state = ConditionalState::Unconditional;
    proof {
        step_keeps_cycles(cond_state, ir@, word, options);
    }
    let go_on = arm_one(ir, &mut cond_state, word, options);
    ir.current_location = ir.current_location.advance_pc(4);
    ir.block.cycle_count = ir.block.cycle_count + 1;
    ir.block.end = ir.current_location.to_location();
    go_on
}

} // verus!
