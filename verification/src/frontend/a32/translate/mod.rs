//! Translation of guest instructions to the intermediate representation.
//!
//! The translation of an instruction is a function from the state of the
//! emitter to its next state and to whether translation of the block goes on.
//! For each executable `arm_x` or `thumb_x` the specification function
//! `arm_x_ir` or `thumb_x_ir` is that function.

pub mod a32_crc32;
pub mod a32_translate;
pub mod arm_dispatch;
pub mod asimd;
pub mod asimd_three_regs;
pub mod asimd_two_regs_misc;
pub mod asimd_two_regs_shift;
pub mod branch;
pub mod conditional_state;
pub mod coprocessor;
pub mod data_processing;
pub mod exception;
pub mod helpers;
pub mod hint;
pub mod laws;
pub mod laws_alu;
pub mod laws_arm;
pub mod laws_block;
pub mod laws_branch;
pub mod laws_condition;
pub mod laws_lanes;
pub mod laws_lanes_int;
pub mod laws_memory;
pub mod laws_multiply;
pub mod laws_operands;
pub mod laws_order;
pub mod laws_structures;
pub mod laws_thumb;
pub mod laws_thumb16;
pub mod laws_thumb32;
pub mod laws_vector;
pub mod load_store;
pub mod multiply;
pub mod status_register;
pub mod synchronization;
pub mod thumb16;
pub mod thumb32;
pub mod thumb32_branch;
pub mod thumb32_control;
pub mod thumb32_coprocessor;
pub mod thumb32_data_processing_modified_immediate;
pub mod thumb32_data_processing_plain_binary_immediate;
pub mod thumb32_data_processing_register;
pub mod thumb32_data_processing_shifted_register;
pub mod thumb32_load_byte;
pub mod thumb32_load_halfword;
pub mod translate_arm;
pub mod translate_callbacks;
pub mod translate_thumb;

use vstd::prelude::*;
use crate::bits::{rotate_right, rotated_right};
use crate::frontend::a32::types::Exception;
use crate::ir::a32_emitter::{A32IREmitter, EmitterState};
use crate::ir::terminal::{halt_or, Terminal};
use crate::ir::value::Value;

pub use a32_translate::{translate, translate_single_instruction, TranslationOptions};

verus! {

broadcast use crate::bits::and_le_mask;

/// An expanded immediate and the carry of its expansion.
#[derive(Clone, Copy, Debug, PartialEq, Eq, Structural)]
pub struct ImmAndCarry {
    pub imm32: u32,
    pub carry: Value,
}

/// Whether a twelve-bit immediate is a byte repeated over the word rather
/// than a turned byte.
pub open spec fn is_replicated(imm12: u32) -> bool {
    (imm12 >> 10) & 3 == 0
}

/// The word that a twelve-bit Thumb immediate stands for: with the upper two
/// bits clear, the byte in one of four places; else a byte with its top bit
/// set, turned right by the upper five bits.
pub open spec fn thumb_expanded_imm(imm12: u32) -> u32 {
    let byte = imm12 & 0xFF;
    let places = (imm12 >> 8) & 3;
    if is_replicated(imm12) {
        if places == 0 {
            byte
        } else if places == 1 {
            (byte * 0x0001_0001) as u32
        } else if places == 2 {
            (byte * 0x0100_0100) as u32
        } else {
            (byte * 0x0101_0101) as u32
        }
    } else {
        rotated_right(0x80 | (imm12 & 0x7F), (imm12 >> 7) & 0x1F)
    }
}

/// Expands a Thumb immediate. A repeated byte leaves the carry as it was; a
/// turned byte gives the top bit of the result.
pub fn thumb_expand_imm_c(imm12: u32, carry_in: Value) -> (r: ImmAndCarry)
    ensures
        r.imm32 == thumb_expanded_imm(imm12),
        r.carry == if is_replicated(imm12) {
            carry_in
        } else {
            Value::ImmU1(r.imm32 & 0x8000_0000 != 0)
        },
{
    if (imm12 >> 10) & 3 == 0 {
        let imm8: u32 = imm12 & 0xFF;
        let imm32: u32 = match (imm12 >> 8) & 3 {
            0b00 => imm8,
            0b01 => imm8 * 0x0001_0001,
            0b10 => imm8 * 0x0100_0100,
            _ => imm8 * 0x0101_0101,
        };
        return ImmAndCarry { imm32, carry: carry_in };
    }
    let imm32: u32 = rotate_right(0x80 | (imm12 & 0x7F), (imm12 >> 7) & 0x1F);
    ImmAndCarry { imm32, carry: Value::ImmU1(imm32 & 0x8000_0000 != 0) }
}

/// Expands a Thumb immediate.
pub fn thumb_expand_imm(imm12: u32) -> (r: u32)
    ensures
        r == thumb_expanded_imm(imm12),
{
    thumb_expand_imm_c(imm12, Value::ImmU1(false)).imm32
}

/// Leaving translated code with an exception: execution will go on after the
/// instruction, which is `size` bytes long, once the embedding program has
/// handled the exception.
pub open spec fn raise_ir(s: EmitterState, exception: Exception, size: u32) -> (
    EmitterState,
    bool,
) {
    let next = Value::ImmU32(s.loc.pc().wrapping_add(size));
    (
        s.update_upper_location_descriptor().branch_write_pc(next).exception_raised(exception).end(
            halt_or(Terminal::ReturnToDispatch),
        ),
        false,
    )
}

/// An instruction that is undefined.
pub open spec fn undefined_ir(s: EmitterState) -> (EmitterState, bool) {
    raise_ir(s, Exception::UndefinedInstruction, 4)
}

/// An instruction with unpredictable behaviour.
pub open spec fn unpredictable_ir(s: EmitterState) -> (EmitterState, bool) {
    raise_ir(s, Exception::UnpredictableInstruction, 4)
}

/// An instruction that cannot be decoded.
pub open spec fn decode_error_ir(s: EmitterState) -> (EmitterState, bool) {
    raise_ir(s, Exception::DecodeError, 4)
}

/// Reporting an exception without moving past the instruction.
pub open spec fn report_ir(s: EmitterState, exception: Exception) -> (EmitterState, bool) {
    (s.exception_raised(exception).end(halt_or(Terminal::ReturnToDispatch)), false)
}

/// Leaving an instruction to an interpreter.
pub open spec fn interpret_ir(s: EmitterState) -> (EmitterState, bool) {
    (s.end(Terminal::Interpret { next: s.loc.to_location() }), false)
}

/// Leaves translated code with an exception after an instruction of the given
/// size.
pub fn raise_exception_with_instruction_size(
    ir: &mut A32IREmitter,
    exception: Exception,
    current_instruction_size: u32,
) -> (r: bool)
    ensures
        (final(ir)@, r) == raise_ir(old(ir)@, exception, current_instruction_size),
{
    let location = ir.current_location;
    ir.update_upper_location_descriptor();
    ir.branch_write_pc(Value::ImmU32(location.pc().wrapping_add(current_instruction_size)));
    ir.exception_raised(exception);
    ir.set_term(Terminal::check_halt(Terminal::ReturnToDispatch));
    false
}

/// Leaves translated code with an exception after a four-byte instruction.
pub fn raise_exception(ir: &mut A32IREmitter, exception: Exception) -> (r: bool)
    ensures
        (final(ir)@, r) == raise_ir(old(ir)@, exception, 4),
{
    raise_exception_with_instruction_size(ir, exception, 4)
}

/// Translates an undefined instruction.
pub fn undefined_instruction(ir: &mut A32IREmitter) -> (r: bool)
    ensures
        (final(ir)@, r) == undefined_ir(old(ir)@),
{
    raise_exception(ir, Exception::UndefinedInstruction)
}

/// Translates an instruction with unpredictable behaviour.
pub fn unpredictable_instruction(ir: &mut A32IREmitter) -> (r: bool)
    ensures
        (final(ir)@, r) == unpredictable_ir(old(ir)@),
{
    raise_exception(ir, Exception::UnpredictableInstruction)
}

/// Translates an instruction that cannot be decoded.
pub fn decode_error(ir: &mut A32IREmitter) -> (r: bool)
    ensures
        (final(ir)@, r) == decode_error_ir(old(ir)@),
{
    raise_exception(ir, Exception::DecodeError)
}

/// Leaves an instruction to an interpreter.
pub fn interpret_this_instruction(ir: &mut A32IREmitter) -> (r: bool)
    ensures
        (final(ir)@, r) == interpret_ir(old(ir)@),
{
    let next = ir.current_location.to_location();
    ir.set_term(Terminal::Interpret { next });
    false
}

/// Reports an exception without moving past the instruction.
pub fn report_exception(ir: &mut A32IREmitter, exception: Exception) -> (r: bool)
    ensures
        (final(ir)@, r) == report_ir(old(ir)@, exception),
{
    ir.exception_raised(exception);
    ir.set_term(Terminal::check_halt(Terminal::ReturnToDispatch));
    false
}

} // verus!
