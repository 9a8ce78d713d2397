//! Branches of 32-bit Thumb code.

use vstd::prelude::*;
use super::helpers::{it_block_check, it_block_forbids_branch};
use super::thumb16::link;
use super::{unpredictable_instruction, unpredictable_ir};
use crate::frontend::a32::decoder_thumb32::DecodedThumb32;
use crate::frontend::a32::types::{Reg};
use crate::ir::a32_emitter::{A32IREmitter, EmitterState};
use crate::ir::location::A32LocationDescriptor;
use crate::ir::terminal::Terminal;
use crate::ir::value::Value;

verus! {

broadcast use crate::bits::and_le_mask;

/// The location of a branch: the instruction as it sees itself, moved by a
/// signed offset.
pub open spec fn branch_location(s: EmitterState, offset: i32) -> A32LocationDescriptor {
    s.loc.advance_pc((offset + 4) as i32).advance_it()
}

/// Noting and writing the return address of a call, with the bit that marks
/// Thumb code.
pub open spec fn call_ir(s: EmitterState) -> EmitterState {
    s.push_rsb(s.loc.advance_pc(4).advance_it().to_location()).set_register(
        Reg::R14,
        Value::ImmU32(s.loc.pc().wrapping_add(4) | 1),
    )
}

/// A branch with link. Within an If-Then block it may only come last.
pub open spec fn thumb32_bl_imm_ir(s: EmitterState, inst: DecodedThumb32) -> (EmitterState, bool) {
    if it_block_forbids_branch(s) {
        unpredictable_ir(s)
    } else {
        (call_ir(s).end(link(branch_location(s, inst.branch_offset_t4()))), false)
    }
}

/// Translates a branch with link.
pub fn thumb32_bl_imm(ir: &mut A32IREmitter, inst: &DecodedThumb32) -> (r: bool)
    ensures
        (final(ir)@, r) == thumb32_bl_imm_ir(old(ir)@, *inst),
{
    if it_block_check(ir) {
        return unpredictable_instruction(ir);
    }
    let location = ir.current_location;
    ir.push_rsb(location.advance_pc(4).advance_it().to_location());
    ir.set_register(Reg::R14, Value::ImmU32(location.pc().wrapping_add(4) | 1));
    let imm32: i32 = inst.branch_offset_t4() + 4;
    let new_location = location.advance_pc(imm32).advance_it();
    ir.set_term(Terminal::link_block(new_location.to_location()));
    false
}

/// A branch with link to ARM code, relative to the aligned program counter.
/// Within an If-Then block it may only come last; the lowest bit must be
/// clear.
pub open spec fn thumb32_blx_imm_ir(s: EmitterState, inst: DecodedThumb32) -> (EmitterState, bool) {
    if it_block_forbids_branch(s) || inst.raw & 1 != 0 {
        unpredictable_ir(s)
    } else {
        let base = s.pc() & 0xFFFF_FFFC;
        let target = base.wrapping_add_signed(inst.branch_offset_t4());
        (call_ir(s).end(link(s.loc.set_pc(target).set_t_flag(false).advance_it())), false)
    }
}

/// Translates a branch with link to ARM code.
pub fn thumb32_blx_imm(ir: &mut A32IREmitter, inst: &DecodedThumb32) -> (r: bool)
    ensures
        (final(ir)@, r) == thumb32_blx_imm_ir(old(ir)@, *inst),
{
    if it_block_check(ir) {
        return unpredictable_instruction(ir);
    }
    if inst.raw & 1 != 0 {
        return unpredictable_instruction(ir);
    }
    let location = ir.current_location;
    ir.push_rsb(location.advance_pc(4).advance_it().to_location());
    ir.set_register(Reg::R14, Value::ImmU32(location.pc().wrapping_add(4) | 1));
    let imm32: i32 = inst.branch_offset_t4();
    let target: u32 = ir.align_pc().wrapping_add_signed(imm32);
    let new_location = location.set_pc(target).set_t_flag(false).advance_it();
    ir.set_term(Terminal::link_block(new_location.to_location()));
    false
}

/// A branch. Within an If-Then block it may only come last.
pub open spec fn thumb32_b_ir(s: EmitterState, inst: DecodedThumb32) -> (EmitterState, bool) {
    if it_block_forbids_branch(s) {
        unpredictable_ir(s)
    } else {
        (s.end(link(branch_location(s, inst.branch_offset_t4()))), false)
    }
}

/// Translates a branch.
pub fn thumb32_b(ir: &mut A32IREmitter, inst: &DecodedThumb32) -> (r: bool)
    ensures
        (final(ir)@, r) == thumb32_b_ir(old(ir)@, *inst),
{
    if it_block_check(ir) {
        return unpredictable_instruction(ir);
    }
    let location = ir.current_location;
    let imm32: i32 = inst.branch_offset_t4() + 4;
    let new_location = location.advance_pc(imm32).advance_it();
    ir.set_term(Terminal::link_block(new_location.to_location()));
    false
}

/// A conditional branch, which may not stand in an If-Then block.
pub open spec fn thumb32_b_cond_ir(s: EmitterState, inst: DecodedThumb32) -> (EmitterState, bool) {
    if s.loc.it().is_in_it_block() {
        unpredictable_ir(s)
    } else {
        (
            s.end(
                Terminal::If {
                    if_: inst.cond(),
                    then_: Box::new(link(branch_location(s, inst.branch_offset_t3()))),
                    else_: Box::new(link(s.loc.advance_pc(4).advance_it())),
                },
            ),
            false,
        )
    }
}

/// Translates a conditional branch.
pub fn thumb32_b_cond(ir: &mut A32IREmitter, inst: &DecodedThumb32) -> (r: bool)
    ensures
        (final(ir)@, r) == thumb32_b_cond_ir(old(ir)@, *inst),
{
    let location = ir.current_location;
    if location.it().is_in_it_block() {
        return unpredictable_instruction(ir);
    }
    let imm32: i32 = inst.branch_offset_t3() + 4;
    let then_location = location.advance_pc(imm32).advance_it();
    let else_location = location.advance_pc(4).advance_it();
    ir.set_term(
        Terminal::if_then_else(
            inst.cond(),
            Terminal::link_block(then_location.to_location()),
            Terminal::link_block(else_location.to_location()),
        ),
    );
    false
}

} // verus!
