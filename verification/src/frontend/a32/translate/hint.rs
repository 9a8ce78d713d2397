//! Hints.

use vstd::prelude::*;
use super::{raise_exception, raise_ir, TranslationOptions};
use crate::frontend::a32::decoder::DecodedArm;
use crate::frontend::a32::types::Exception;
use crate::ir::a32_emitter::{A32IREmitter, EmitterState};

verus! {

/// A hint: an exception if hints are hooked, else nothing.
pub open spec fn hint_ir(s: EmitterState, options: TranslationOptions, exception: Exception) -> (
    EmitterState,
    bool,
) {
    if options.hook_hint_instructions {
        raise_ir(s, exception, 4)
    } else {
        (s, true)
    }
}

fn hint_exception(ir: &mut A32IREmitter, options: TranslationOptions, exception: Exception) -> (r:
    bool)
    ensures
        (final(ir)@, r) == hint_ir(old(ir)@, options, exception),
{
    if !options.hook_hint_instructions {
        return true;
    }
    raise_exception(ir, exception)
}

/// The hint of a data preload: bit 22 tells a preload for reading from one
/// for writing.
pub open spec fn preload_exception(raw: u32) -> Exception {
    if (raw >> 22) & 1 != 0 {
        Exception::PreloadData
    } else {
        Exception::PreloadDataWithIntentToWrite
    }
}

/// Translates a preload of data.
pub fn arm_pld(ir: &mut A32IREmitter, inst: &DecodedArm, options: TranslationOptions) -> (r: bool)
    ensures
        (final(ir)@, r) == hint_ir(old(ir)@, options, preload_exception(inst.raw)),
{
    if !options.hook_hint_instructions {
        return true;
    }
    let exception = if (inst.raw >> 22) & 1 != 0 {
        Exception::PreloadData
    } else {
        Exception::PreloadDataWithIntentToWrite
    };
    raise_exception(ir, exception)
}

/// Translates the sending of an event.
pub fn arm_sev(ir: &mut A32IREmitter, options: TranslationOptions) -> (r: bool)
    ensures
        (final(ir)@, r) == hint_ir(old(ir)@, options, Exception::SendEvent),
{
    hint_exception(ir, options, Exception::SendEvent)
}

/// Translates the sending of a local event.
pub fn arm_sevl(ir: &mut A32IREmitter, options: TranslationOptions) -> (r: bool)
    ensures
        (final(ir)@, r) == hint_ir(old(ir)@, options, Exception::SendEventLocal),
{
    hint_exception(ir, options, Exception::SendEventLocal)
}

/// Translates a wait for an interrupt.
pub fn arm_wfi(ir: &mut A32IREmitter, options: TranslationOptions) -> (r: bool)
    ensures
        (final(ir)@, r) == hint_ir(old(ir)@, options, Exception::WaitForInterrupt),
{
    hint_exception(ir, options, Exception::WaitForInterrupt)
}

/// Translates a wait for an event.
pub fn arm_wfe(ir: &mut A32IREmitter, options: TranslationOptions) -> (r: bool)
    ensures
        (final(ir)@, r) == hint_ir(old(ir)@, options, Exception::WaitForEvent),
{
    hint_exception(ir, options, Exception::WaitForEvent)
}

/// Translates a yield.
pub fn arm_yield(ir: &mut A32IREmitter, options: TranslationOptions) -> (r: bool)
    ensures
        (final(ir)@, r) == hint_ir(old(ir)@, options, Exception::Yield),
{
    hint_exception(ir, options, Exception::Yield)
}

} // verus!
