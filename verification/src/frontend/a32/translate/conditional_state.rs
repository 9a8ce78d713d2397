//! Conditional instructions within a block.
//!
//! A block may begin with instructions that share a condition; the condition
//! is then checked once, at the entry of the block. The state machine here
//! says for each instruction whether it can join the block.

use vstd::prelude::*;
use super::thumb16::{link, translate_thumb16_ir};
use super::thumb32::{thumb32_wf, translate_thumb32, translate_thumb32_ir};
use super::{raise_exception_with_instruction_size, raise_ir, TranslationOptions};
use crate::frontend::a32::decoder_thumb16::{DecodedThumb16, Thumb16InstId};
use crate::frontend::a32::decoder_thumb32::DecodedThumb32;
use crate::frontend::a32::translate::thumb16::translate_thumb16;
use crate::frontend::a32::types::Exception;
use crate::ir::a32_emitter::{block_frame, A32IREmitter, BlockFrame, EmitterState};
use crate::ir::block::{writes_cpsr, Block};
use crate::ir::cond::Cond;
use crate::ir::location::A32LocationDescriptor;
use crate::ir::opcode::Opcode;
use crate::ir::terminal::Terminal;
use crate::ir::value::Value;

verus! {

/// How far a block has got with conditional instructions.
#[derive(Clone, Copy, Debug, PartialEq, Eq, Structural)]
pub enum ConditionalState {
    /// There were none yet.
    Unconditional,
    /// The current instruction cannot join: the block ends before it.
    Break,
    /// All instructions so far share a condition.
    Translating,
    /// Conditional instructions were followed by unconditional ones.
    Trailing,
}

/// The state of an emitter for `block` at a location.
pub open spec fn block_state(block: Block, location: A32LocationDescriptor) -> EmitterState {
    EmitterState {
        code: block.instructions@,
        terminal: block.terminal,
        loc: location,
        frame: block_frame(block),
    }
}

/// Whether translation can go on after an instruction: conditional code must
/// not have changed the flags, since its condition is checked only once.
pub open spec fn can_continue(cond_state: ConditionalState, s: EmitterState) -> bool {
    cond_state == ConditionalState::Unconditional || !writes_cpsr(s.code)
}

/// Whether translation can go on after an instruction.
pub fn cond_can_continue(cond_state: ConditionalState, block: &Block) -> (r: bool)
    requires
        cond_state != ConditionalState::Break,
    ensures
        r == (cond_state == ConditionalState::Unconditional || !writes_cpsr(block.instructions@)),
{
    if cond_state == ConditionalState::Unconditional {
        return true;
    }
    !block.any_inst_writes_cpsr()
}

/// The location after an instruction of the given size.
pub open spec fn after_instruction(s: EmitterState, size: u32) -> A32LocationDescriptor {
    s.loc.set_pc(s.loc.pc().wrapping_add(size)).advance_it()
}

/// Ending the block before the current instruction.
pub open spec fn break_before(s: EmitterState) -> EmitterState {
    s.end(Terminal::LinkBlockFast { next: s.loc.to_location() })
}

/// The step of the state machine for an instruction with a condition: the
/// next state, what happens to the block, and whether the instruction is
/// translated.
///
/// The obsolete condition `NV` is unpredictable. An instruction with the
/// condition of the block that follows its conditional instructions directly
/// extends them, one with another condition ends the block. Anything else
/// after conditional instructions makes the rest of the block trailing; there
/// and before, an unconditional instruction joins. A conditional instruction
/// that is not the first of its block ends the block.
pub open spec fn condition_step(
    cond_state: ConditionalState,
    s: EmitterState,
    size: u32,
    cond: Cond,
) -> (ConditionalState, EmitterState, bool) {
    let next = Some(after_instruction(s, size).to_location());
    let follows = cond_state == ConditionalState::Translating
        && s.frame.condition_failed_location == Some(s.loc.to_location());
    let later = if cond_state == ConditionalState::Translating {
        ConditionalState::Trailing
    } else {
        cond_state
    };
    if cond == Cond::NV {
        (
            ConditionalState::Break,
            raise_ir(s, Exception::UnpredictableInstruction, size).0,
            false,
        )
    } else if cond == Cond::AL {
        (later, s, true)
    } else if follows && s.frame.cond == Some(cond) {
        let frame = BlockFrame {
            condition_failed_location: next,
            condition_failed_cycle_count: (s.frame.condition_failed_cycle_count + 1) as usize,
            ..s.frame
        };
        (ConditionalState::Translating, EmitterState { frame, ..s }, true)
    } else if follows || s.code.len() > 0 {
        (ConditionalState::Break, break_before(s), false)
    } else {
        let frame = BlockFrame {
            cond: Some(cond),
            condition_failed_location: next,
            condition_failed_cycle_count: (s.frame.cycle_count + 1) as usize,
            ..s.frame
        };
        (ConditionalState::Translating, EmitterState { frame, ..s }, true)
    }
}

/// Whether an instruction extends the conditional instructions of the block:
/// it follows them directly and has their condition.
pub open spec fn joins_condition(
    cond_state: ConditionalState,
    s: EmitterState,
    cond: Cond,
) -> bool {
    &&& cond != Cond::NV && cond != Cond::AL
    &&& cond_state == ConditionalState::Translating
    &&& s.frame.condition_failed_location == Some(s.loc.to_location())
    &&& s.frame.cond == Some(cond)
}

/// Whether an instruction gives the block its condition.
pub open spec fn starts_condition(
    cond_state: ConditionalState,
    s: EmitterState,
    cond: Cond,
) -> bool {
    &&& cond != Cond::NV && cond != Cond::AL
    &&& !(cond_state == ConditionalState::Translating && s.frame.condition_failed_location == Some(
        s.loc.to_location(),
    ))
    &&& s.code.len() == 0
}

/// Decides whether an instruction with a condition is translated into the
/// block, and sets the condition of the block. The instruction is turned down
/// exactly if the state becomes `Break`. The cycles that are counted have to
/// fit.
pub fn is_condition_passed(
    cond_state: &mut ConditionalState,
    block: &mut Block,
    current_location: A32LocationDescriptor,
    current_instruction_size: u32,
    cond: Cond,
) -> (r: bool)
    requires
        *old(cond_state) != ConditionalState::Break,
        joins_condition(
            *old(cond_state),
            block_state(*old(block), current_location),
            cond,
        ) ==> old(block).condition_failed_cycle_count < usize::MAX,
        starts_condition(
            *old(cond_state),
            block_state(*old(block), current_location),
            cond,
        ) ==> old(block).cycle_count < usize::MAX,
    ensures
        r <==> *final(cond_state) != ConditionalState::Break,
        (*final(cond_state), block_state(*final(block), current_location), r) == condition_step(
            *old(cond_state),
            block_state(*old(block), current_location),
            current_instruction_size,
            cond,
        ),
{
    if cond == Cond::NV {
        *cond_state = ConditionalState::Break;
        let mut taken = Block::new(current_location.to_location());
        core::mem::swap(block, &mut taken);
        let mut ir = A32IREmitter::with_location(taken, current_location);
        raise_exception_with_instruction_size(
            &mut ir,
            Exception::UnpredictableInstruction,
            current_instruction_size,
        );
        *block = ir.block;
        return false;
    }
    let here = current_location.to_location();
    let next = current_location.set_pc(
        current_location.pc().wrapping_add(current_instruction_size),
    ).advance_it().to_location();
    if *cond_state == ConditionalState::Translating {
        let follows: bool = match block.condition_failed_location {
            Some(location) => location == here,
            None => false,
        };
        if !follows || cond == Cond::AL {
            *cond_state = ConditionalState::Trailing;
        } else {
            let same: bool = match block.cond {
                Some(block_cond) => block_cond == cond,
                None => false,
            };
            if same {
                block.condition_failed_location = Some(next);
                block.condition_failed_cycle_count = block.condition_failed_cycle_count + 1;
                return true;
            }
            *cond_state = ConditionalState::Break;
            block.terminal = Terminal::LinkBlockFast { next: here };
            return false;
        }
    }
    if cond == Cond::AL {
        return true;
    }
    if block.instructions.len() > 0 {
        *cond_state = ConditionalState::Break;
        block.terminal = Terminal::LinkBlockFast { next: here };
        return false;
    }
    *cond_state = ConditionalState::Translating;
    block.cond = Some(cond);
    block.condition_failed_location = Some(next);
    block.condition_failed_cycle_count = block.cycle_count + 1;
    true
}

/// A break is always asked for together with an end of the block, and the
/// instruction is then not translated.
pub proof fn break_ends_the_block(
    cond_state: ConditionalState,
    s: EmitterState,
    size: u32,
    cond: Cond,
)
    requires
        cond_state != ConditionalState::Break,
    ensures
        ({
            let (next_state, next, passed) = condition_step(cond_state, s, size, cond);
            &&& passed <==> next_state != ConditionalState::Break
            &&& !passed ==> next.terminal == if cond == Cond::NV {
                crate::ir::terminal::halt_or(Terminal::ReturnToDispatch)
            } else {
                Terminal::LinkBlockFast { next: s.loc.to_location() }
            }
            &&& passed ==> next.code == s.code && next.terminal == s.terminal
        }),
{
}

/// A block gets a condition only while it is empty, and keeps it.
pub proof fn condition_of_a_block_is_set_once(
    cond_state: ConditionalState,
    s: EmitterState,
    size: u32,
    cond: Cond,
)
    requires
        cond_state != ConditionalState::Break,
        s.code.len() > 0,
    ensures
        condition_step(cond_state, s, size, cond).1.frame.cond == s.frame.cond,
{
}

/// Unconditional instructions always join a block and leave it as it is.
pub proof fn unconditional_instructions_join(
    cond_state: ConditionalState,
    s: EmitterState,
    size: u32,
)
    requires
        cond_state != ConditionalState::Break,
    ensures
        condition_step(cond_state, s, size, Cond::AL).1 == s,
        condition_step(cond_state, s, size, Cond::AL).2,
{
}

/// Once trailing, a block stays trailing until it ends.
pub proof fn trailing_blocks_stay_trailing(s: EmitterState, size: u32, cond: Cond)
    requires
        s.code.len() > 0,
    ensures
        ({
            let next_state = condition_step(ConditionalState::Trailing, s, size, cond).0;
            next_state == ConditionalState::Trailing || next_state == ConditionalState::Break
        }),
{
}

/// The start of an instruction in an If-Then block: the check bit is set.
pub open spec fn conditional_prelude_ir(s: EmitterState) -> EmitterState {
    let (s, cpsr) = s.op0(Opcode::A32GetCpsr);
    s.op1(Opcode::A32SetCheckBit, Value::ImmU1(true)).0
}

/// The end of an instruction in an If-Then block: if translation could go on,
/// both outcomes of the check lead to the next instruction.
pub open spec fn conditional_end_ir(s: EmitterState, go_on: bool, size: i32) -> (
    EmitterState,
    bool,
) {
    let next = link(s.loc.advance_pc(size));
    (
        if go_on {
            s.end(Terminal::CheckBit { then_: Box::new(next), else_: Box::new(next) })
        } else {
            s
        },
        false,
    )
}

fn emit_cond_check(cond: Cond, _nzcv: Value) -> (r: Value)
    ensures
        r == Value::ImmU1(true),
{
    match cond {
        Cond::AL | Cond::NV => Value::ImmU1(true),
        _ => Value::ImmU1(true),
    }
}

/// A 16-bit Thumb instruction in an If-Then block.
pub open spec fn translate_conditional_thumb16_ir(
    s: EmitterState,
    decoded: DecodedThumb16,
    options: TranslationOptions,
) -> (EmitterState, bool) {
    let (s, go_on) = translate_thumb16_ir(conditional_prelude_ir(s), decoded, options);
    conditional_end_ir(s, go_on, 2)
}

/// Translates a 16-bit Thumb instruction in an If-Then block.
pub fn translate_conditional_thumb16(
    ir: &mut A32IREmitter,
    decoded: &DecodedThumb16,
    cond: Cond,
    options: TranslationOptions,
) -> (r: bool)
    requires
        decoded.id == Thumb16InstId::IT ==> decoded.raw & 0xF != 0,
    ensures
        (final(ir)@, r) == translate_conditional_thumb16_ir(old(ir)@, *decoded, options),
{
    let nzcv = ir.get_cpsr();
    let passed = emit_cond_check(cond, nzcv);
    ir.set_check_bit(passed);
    let go_on = translate_thumb16(ir, decoded, options);
    if go_on {
        let next = ir.current_location.advance_pc(2);
        ir.set_term(
            Terminal::check_bit(
                Terminal::link_block(next.to_location()),
                Terminal::link_block(next.to_location()),
            ),
        );
    }
    false
}

/// A 32-bit Thumb instruction in an If-Then block.
pub open spec fn translate_conditional_thumb32_ir(
    s: EmitterState,
    decoded: DecodedThumb32,
    options: TranslationOptions,
) -> (EmitterState, bool) {
    let (s, go_on) = translate_thumb32_ir(conditional_prelude_ir(s), decoded, options);
    conditional_end_ir(s, go_on, 4)
}

/// Translates a 32-bit Thumb instruction in an If-Then block.
pub fn translate_conditional_thumb32(
    ir: &mut A32IREmitter,
    decoded: &DecodedThumb32,
    cond: Cond,
    options: TranslationOptions,
) -> (r: bool)
    requires
        thumb32_wf(*decoded),
    ensures
        (final(ir)@, r) == translate_conditional_thumb32_ir(old(ir)@, *decoded, options),
{
    let nzcv = ir.get_cpsr();
    let passed = emit_cond_check(cond, nzcv);
    ir.set_check_bit(passed);
    let go_on = translate_thumb32(ir, decoded, options);
    if go_on {
        let next = ir.current_location.advance_pc(4);
        ir.set_term(
            Terminal::check_bit(
                Terminal::link_block(next.to_location()),
                Terminal::link_block(next.to_location()),
            ),
        );
    }
    false
}

} // verus!
