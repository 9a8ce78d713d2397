//! What holds of every translated block.

use vstd::prelude::*;
use super::a32_translate::{block_ir, empty_state, single_instruction_ir};
use super::conditional_state::{can_continue, condition_step, ConditionalState};
use super::translate_arm::{
    advance, arm_block_ir, arm_step, arm_visit_ir, decoded_visit_only_appends, ADDRESS_SPACE_WORDS,
};
use super::translate_callbacks::TranslateCallbacks;
use super::translate_thumb::{
    code_thumb, thumb_block_ir, thumb_step, thumb_visit_only_appends, ThumbInstSize,
    ADDRESS_SPACE_HALFWORDS,
};
use super::{raise_ir, unpredictable_ir, TranslationOptions};
use crate::frontend::a32::decoder::{arm_encoding, ArmInstId, DecodedArm};
use crate::frontend::a32::types::Exception;
use crate::ir::a32_emitter::{appends, appends_nothing, group_appends, BlockFrame, EmitterState};
use crate::ir::block::Inst;
use crate::ir::cond::Cond;
use crate::ir::location::A32LocationDescriptor;
use crate::ir::terminal::{halt_or, Terminal};

verus! {

/// Whether `code` begins with `start`.
pub open spec fn begins_with(code: Seq<Inst>, start: Seq<Inst>) -> bool {
    &&& start.len() <= code.len()
    &&& forall|i: int| 0 <= i < start.len() ==> #[trigger] code[i] == start[i]
}

/// Whether the condition of a block is a proper one and the block says where
/// to go on if it fails.
pub open spec fn condition_is_complete(frame: BlockFrame) -> bool {
    &&& frame.cond is Some <==> frame.condition_failed_location is Some
    &&& frame.cond != Some(Cond::AL)
    &&& frame.cond != Some(Cond::NV)
}

/// Whether a block can take another instruction: its condition is complete
/// and set if there were conditional instructions, failing the condition
/// costs no more cycles than the block took so far, and conditional code has
/// not changed the flags that its condition depends on.
pub open spec fn is_open_block(cond_state: ConditionalState, s: EmitterState) -> bool {
    &&& cond_state != ConditionalState::Break
    &&& cond_state == ConditionalState::Unconditional <==> s.frame.cond is None
    &&& condition_is_complete(s.frame)
    &&& s.frame.condition_failed_cycle_count <= s.frame.cycle_count
    &&& can_continue(cond_state, s)
}

/// What a step keeps.
pub open spec fn step_is_sound(
    s: EmitterState,
    next_state: ConditionalState,
    t: EmitterState,
    go_on: bool,
) -> bool {
    &&& begins_with(t.code, s.code)
    &&& t.loc == s.loc
    &&& t.frame.location == s.frame.location
    &&& t.frame.cycle_count == s.frame.cycle_count
    &&& go_on ==> t.terminal == s.terminal
    &&& !go_on ==> t.terminal != Terminal::Invalid
    &&& next_state == ConditionalState::Break ==> !go_on && t.frame == s.frame
    &&& next_state == ConditionalState::Unconditional ==> t.frame.cond is None
    &&& next_state == ConditionalState::Translating || next_state == ConditionalState::Trailing
        ==> t.frame.cond is Some
    &&& s.code.len() > 0 ==> t.frame.cond == s.frame.cond
    &&& condition_is_complete(t.frame)
    &&& t.frame.condition_failed_cycle_count <= s.frame.cycle_count + 1
}

proof fn condition_step_is_sound(
    cond_state: ConditionalState,
    s: EmitterState,
    size: u32,
    cond: Cond,
)
    requires
        is_open_block(cond_state, s),
        s.frame.cycle_count < usize::MAX,
    ensures
        ({
            let (next_state, t, passed) = condition_step(cond_state, s, size, cond);
            &&& step_is_sound(s, next_state, t, passed)
            &&& passed ==> next_state != ConditionalState::Break
        }),
{
    broadcast use group_appends;

    appends_nothing(s);
    let t = condition_step(cond_state, s, size, cond).1;
    if cond == Cond::NV {
        assert(appends(s, t));
    }
    reveal(appends);
}

/// A step for ARM code keeps what a block is owed.
pub proof fn arm_step_is_sound(
    cond_state: ConditionalState,
    s: EmitterState,
    word: u32,
    options: TranslationOptions,
)
    requires
        is_open_block(cond_state, s),
        s.frame.cycle_count < usize::MAX,
    ensures
        ({
            let (next_state, t, go_on) = arm_step(cond_state, s, word, options);
            step_is_sound(s, next_state, t, go_on)
        }),
{
    let inst = DecodedArm { raw: word, id: arm_encoding(word) };
    let t = condition_step(cond_state, s, 4, inst.cond()).1;
    condition_step_is_sound(cond_state, s, 4, inst.cond());
    decoded_visit_only_appends(s, word, options);
    decoded_visit_only_appends(t, word, options);
    reveal(appends);
}

/// A step for Thumb code keeps what a block is owed.
pub proof fn thumb_step_is_sound(
    cond_state: ConditionalState,
    s: EmitterState,
    instruction: u32,
    size: ThumbInstSize,
    options: TranslationOptions,
)
    requires
        is_open_block(cond_state, s),
        s.frame.cycle_count < usize::MAX,
    ensures
        ({
            let (next_state, t, go_on) = thumb_step(cond_state, s, instruction, size, options);
            step_is_sound(s, next_state, t, go_on)
        }),
{
    let cond = s.loc.it().cond();
    let t = condition_step(cond_state, s, size.bytes(), cond).1;
    condition_step_is_sound(cond_state, s, size.bytes(), cond);
    thumb_visit_only_appends(s, instruction, size, options);
    thumb_visit_only_appends(t, instruction, size, options);
    reveal(appends);
}

proof fn missing_code_is_sound(cond_state: ConditionalState, s: EmitterState, size: u32)
    requires
        is_open_block(cond_state, s),
    ensures
        step_is_sound(s, cond_state, raise_ir(s, Exception::NoExecuteFault, size).0, false),
{
    broadcast use group_appends;

    appends_nothing(s);
    assert(appends(s, raise_ir(s, Exception::NoExecuteFault, size).0));
    reveal(appends);
}

/// What every block is owed at the end of its translation, starting from `s`:
/// what was there stays, it has an end, it says where its guest code ends, it
/// has taken between none and `n` more cycles, and its condition is complete.
pub open spec fn block_is_complete(s: EmitterState, t: EmitterState, n: nat) -> bool {
    &&& begins_with(t.code, s.code)
    &&& t.terminal != Terminal::Invalid
    &&& t.frame.location == s.frame.location
    &&& t.frame.end == t.loc.to_location()
    &&& s.frame.cycle_count <= t.frame.cycle_count <= s.frame.cycle_count + n
    &&& condition_is_complete(t.frame)
    &&& t.frame.condition_failed_cycle_count <= t.frame.cycle_count
}

/// The translation of ARM code completes a block.
pub proof fn arm_block_is_complete<C: TranslateCallbacks>(
    callbacks: C,
    cond_state: ConditionalState,
    s: EmitterState,
    options: TranslationOptions,
    single_step: bool,
    n: nat,
)
    requires
        is_open_block(cond_state, s),
        0 < n,
        s.frame.cycle_count + n <= usize::MAX,
    ensures
        block_is_complete(
            s,
            arm_block_ir(callbacks, cond_state, s, options, single_step, n),
            if single_step {
                1
            } else {
                n
            },
        ),
    decreases n,
{
    let (next_state, next, go_on) = match callbacks.code(s.loc.pc()) {
        Some(word) => {
            arm_step_is_sound(cond_state, s, word, options);
            arm_step(cond_state, s, word, options)
        },
        None => {
            missing_code_is_sound(cond_state, s, 4);
            let (t, go_on) = raise_ir(s, Exception::NoExecuteFault, 4);
            (cond_state, t, go_on)
        },
    };
    if next_state != ConditionalState::Break {
        let t = advance(next, next.loc.advance_pc(4));
        if go_on && can_continue(next_state, t) && !single_step && n > 1 {
            arm_block_is_complete(
                callbacks,
                next_state,
                t,
                options,
                single_step,
                (n - 1) as nat,
            );
        }
    }
}

/// The translation of Thumb code completes a block.
pub proof fn thumb_block_is_complete<C: TranslateCallbacks>(
    callbacks: C,
    cond_state: ConditionalState,
    s: EmitterState,
    options: TranslationOptions,
    single_step: bool,
    n: nat,
)
    requires
        is_open_block(cond_state, s),
        0 < n,
        s.frame.cycle_count + n <= usize::MAX,
    ensures
        block_is_complete(
            s,
            thumb_block_ir(callbacks, cond_state, s, options, single_step, n),
            if single_step {
                1
            } else {
                n
            },
        ),
    decreases n,
{
    let (next_state, next, go_on, size) = match code_thumb(callbacks, s.loc.pc()) {
        Some((instruction, size)) => {
            thumb_step_is_sound(cond_state, s, instruction, size, options);
            let (next_state, t, go_on) = thumb_step(cond_state, s, instruction, size, options);
            (next_state, t, go_on, size)
        },
        None => {
            missing_code_is_sound(cond_state, s, 2);
            let (t, go_on) = raise_ir(s, Exception::NoExecuteFault, 2);
            (cond_state, t, go_on, ThumbInstSize::Thumb16)
        },
    };
    if next_state != ConditionalState::Break {
        let t = advance(next, next.loc.advance_pc(size.offset()).advance_it());
        if go_on && can_continue(next_state, t) && !single_step && n > 1 {
            thumb_block_is_complete(
                callbacks,
                next_state,
                t,
                options,
                single_step,
                (n - 1) as nat,
            );
        }
    }
}

/// Every translated block begins where it was asked for, has an end, says
/// where its guest code ends, and has a complete condition. In a single step
/// it takes at most one cycle.
pub proof fn translated_block_is_complete<C: TranslateCallbacks>(
    descriptor: A32LocationDescriptor,
    callbacks: C,
    options: TranslationOptions,
)
    ensures
        block_is_complete(
            empty_state(descriptor),
            block_ir(descriptor, callbacks, options),
            if descriptor.single_step {
                1
            } else {
                ADDRESS_SPACE_HALFWORDS as nat
            },
        ),
        block_ir(descriptor, callbacks, options).frame.location == descriptor.to_location(),
{
    let s = empty_state(descriptor);
    let cond_state = ConditionalState::Unconditional;
    let single_step = descriptor.single_step;
    if descriptor.t_flag() {
        thumb_block_is_complete(
            callbacks,
            cond_state,
            s,
            options,
            single_step,
            ADDRESS_SPACE_HALFWORDS as nat,
        );
    } else {
        arm_block_is_complete(
            callbacks,
            cond_state,
            s,
            options,
            single_step,
            ADDRESS_SPACE_WORDS as nat,
        );
    }
}

/// Where there is no code, the block does nothing but raise an exception.
pub proof fn missing_code_raises_an_exception<C: TranslateCallbacks>(
    descriptor: A32LocationDescriptor,
    callbacks: C,
    options: TranslationOptions,
)
    requires
        if descriptor.t_flag() {
            code_thumb(callbacks, descriptor.pc()) is None
        } else {
            callbacks.code(descriptor.pc()) is None
        },
    ensures
        ({
            let t = block_ir(descriptor, callbacks, options);
            let size = if descriptor.t_flag() {
                2u32
            } else {
                4u32
            };
            &&& t.code == raise_ir(empty_state(descriptor), Exception::NoExecuteFault, size).0.code
            &&& t.terminal == halt_or(Terminal::ReturnToDispatch)
            &&& t.frame.cond is None
            &&& t.frame.end == if descriptor.t_flag() {
                descriptor.advance_pc(2).advance_it().to_location()
            } else {
                descriptor.advance_pc(4).to_location()
            }
        }),
{
    reveal_with_fuel(arm_block_ir, 2);
    reveal_with_fuel(thumb_block_ir, 2);
}

/// A block of a single step is the translation of the one instruction: for
/// ARM code with the default options it holds the same code as translating
/// the supplied word on its own.
pub proof fn single_step_is_one_instruction<C: TranslateCallbacks>(
    descriptor: A32LocationDescriptor,
    callbacks: C,
    word: u32,
)
    requires
        descriptor.single_step,
        !descriptor.t_flag(),
        callbacks.code(descriptor.pc()) == Some(word),
    ensures
        ({
            let t = block_ir(descriptor, callbacks, TranslationOptions::plain());
            let (u, go_on) = single_instruction_ir(empty_state(descriptor), word);
            &&& t.code == u.code
            &&& t.terminal == if go_on {
                Terminal::LinkBlock { next: u.frame.end }
            } else {
                u.terminal
            }
        }),
{
    reveal_with_fuel(arm_block_ir, 2);
    let s = empty_state(descriptor);
    arm_step_is_sound(
        ConditionalState::Unconditional,
        s,
        word,
        TranslationOptions::plain(),
    );
}

/// A checksum with a condition is unpredictable, whatever the condition: the
/// block gets no condition from it.
pub proof fn conditional_checksum_is_unpredictable(
    cond_state: ConditionalState,
    s: EmitterState,
    word: u32,
    options: TranslationOptions,
)
    requires
        arm_encoding(word) == ArmInstId::CRC32 || arm_encoding(word) == ArmInstId::CRC32C,
        (DecodedArm { raw: word, id: arm_encoding(word) }).cond() != Cond::AL,
    ensures
        arm_step(cond_state, s, word, options) == (
            cond_state,
            unpredictable_ir(s).0,
            false,
        ),
{
    reveal(arm_visit_ir);
}

} // verus!
