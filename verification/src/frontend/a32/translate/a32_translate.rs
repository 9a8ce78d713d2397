//! Translation of blocks and of single instructions.

use vstd::prelude::*;
use super::conditional_state::{block_state, ConditionalState};
use super::laws_block::translated_block_is_complete;
use super::translate_arm::{
    arm_block_ir, single_arm_ir, translate_arm, translate_single_arm_instruction,
    ADDRESS_SPACE_WORDS,
};
use super::translate_callbacks::TranslateCallbacks;
use super::translate_thumb::{
    single_thumb_ir, thumb_block_ir, translate_single_thumb_instruction, translate_thumb,
    ADDRESS_SPACE_HALFWORDS,
};
use crate::interface::a32::arch_version::ArchVersion;
use crate::ir::a32_emitter::{A32IREmitter, BlockFrame, EmitterState};
use crate::ir::block::Block;
use crate::ir::location::A32LocationDescriptor;
use crate::ir::terminal::Terminal;

verus! {

/// Options of translation.
#[derive(Clone, Copy, Debug, PartialEq, Eq, Structural)]
pub struct TranslationOptions {
    /// The architecture version of the guest.
    pub arch_version: ArchVersion,
    /// Whether some unpredictable instructions are given a meaning.
    pub define_unpredictable_behaviour: bool,
    /// Whether hints are reported as exceptions.
    pub hook_hint_instructions: bool,
}

impl TranslationOptions {
    /// The options by default: the oldest architecture, no meaning for
    /// unpredictable instructions, and hints reported.
    pub open spec fn plain() -> TranslationOptions {
        TranslationOptions {
            arch_version: ArchVersion::V3,
            define_unpredictable_behaviour: false,
            hook_hint_instructions: true,
        }
    }
}

impl Default for TranslationOptions {
    fn default() -> (r: TranslationOptions)
        ensures
            r == TranslationOptions::plain(),
    {
        TranslationOptions {
            arch_version: ArchVersion::V3,
            define_unpredictable_behaviour: false,
            hook_hint_instructions: true,
        }
    }
}

/// The state of an emitter for a new block at a location.
pub open spec fn empty_state(descriptor: A32LocationDescriptor) -> EmitterState {
    let location = descriptor.to_location();
    EmitterState {
        code: Seq::empty(),
        terminal: Terminal::Invalid,
        loc: descriptor,
        frame: BlockFrame {
            location,
            end: location,
            cond: None,
            condition_failed_location: None,
            condition_failed_cycle_count: 0,
            cycle_count: 0,
        },
    }
}

/// The translation of the block of code at a location: Thumb code where the
/// location says so, ARM code otherwise.
pub open spec fn block_ir<C: TranslateCallbacks>(
    descriptor: A32LocationDescriptor,
    callbacks: C,
    options: TranslationOptions,
) -> EmitterState {
    let s = empty_state(descriptor);
    let single_step = descriptor.single_step;
    if descriptor.t_flag() {
        thumb_block_ir(
            callbacks,
            ConditionalState::Unconditional,
            s,
            options,
            single_step,
            ADDRESS_SPACE_HALFWORDS as nat,
        )
    } else {
        arm_block_ir(
            callbacks,
            ConditionalState::Unconditional,
            s,
            options,
            single_step,
            ADDRESS_SPACE_WORDS as nat,
        )
    }
}

/// Translates the block of code at a location. The block begins there and has
/// an end.
pub fn translate<C: TranslateCallbacks>(
    descriptor: A32LocationDescriptor,
    callbacks: &C,
    options: TranslationOptions,
) -> (block: Block)
    ensures
        block_state(block, block_ir(descriptor, *callbacks, options).loc) == block_ir(
            descriptor,
            *callbacks,
            options,
        ),
        block.location == descriptor.to_location(),
        block.terminal != Terminal::Invalid,
{
    proof {
        translated_block_is_complete(descriptor, *callbacks, options);
    }
    let mut ir = A32IREmitter::with_location(Block::new(descriptor.to_location()), descriptor);
    assert(ir@.code =~= Seq::empty());
    assert(ir@ == empty_state(descriptor));
    if descriptor.t_flag() {
        translate_thumb(&mut ir, callbacks, options);
    } else {
        translate_arm(&mut ir, callbacks, options);
    }
    ir.block
}

/// The translation of one supplied instruction: a Thumb instruction where the
/// location says so, an ARM instruction otherwise.
pub open spec fn single_instruction_ir(s: EmitterState, instruction: u32) -> (EmitterState, bool) {
    if s.loc.t_flag() {
        single_thumb_ir(s, instruction)
    } else {
        single_arm_ir(s, instruction)
    }
}

/// Translates one supplied instruction into `block`. The result says whether
/// translation could go on.
pub fn translate_single_instruction(
    block: &mut Block,
    descriptor: A32LocationDescriptor,
    instruction: u32,
) -> (r: bool)
    requires
        old(block).cycle_count < usize::MAX,
    ensures
        ({
            let (t, go_on) = single_instruction_ir(
                block_state(*old(block), descriptor),
                instruction,
            );
            (block_state(*final(block), t.loc), r) == (t, go_on)
        }),
{
    let mut taken = Block::new(descriptor.to_location());
    core::mem::swap(block, &mut taken);
    let mut ir = A32IREmitter::with_location(taken, descriptor);
    let go_on = if descriptor.t_flag() {
        translate_single_thumb_instruction(&mut ir, instruction)
    } else {
        translate_single_arm_instruction(&mut ir, instruction)
    };
    *block = ir.block;
    go_on
}

} // verus!
