//! Branches of ARM code.

use vstd::prelude::*;
use crate::bits::sign_extended;
use crate::frontend::a32::decoder::{sign_extend, DecodedArm};
use crate::frontend::a32::types::Reg;
use crate::ir::a32_emitter::{A32IREmitter, EmitterState};
use crate::ir::location::A32LocationDescriptor;
use crate::ir::opcode::Opcode;
use crate::ir::terminal::{halt_or, Terminal};
use crate::ir::value::Value;

verus! {

/// The target of a relative branch: the program counter plus a signed number
/// of words.
pub open spec fn branch_target(s: EmitterState, inst: DecodedArm) -> u32 {
    s.pc().wrapping_add(sign_extended(inst.imm24() << 2, 26))
}

/// A block that goes on at another block.
pub open spec fn link(location: A32LocationDescriptor) -> Terminal {
    Terminal::LinkBlock { next: location.to_location() }
}

/// Noting the address of the next ARM instruction as a return address for
/// prediction.
pub open spec fn push_return_ir(s: EmitterState) -> EmitterState {
    s.push_rsb(s.loc.advance_pc(4).to_location())
}

/// Writing the address of the next ARM instruction to the link register.
pub open spec fn set_link_ir(s: EmitterState) -> EmitterState {
    s.set_register(Reg::R14, Value::ImmU32(s.loc.pc().wrapping_add(4)))
}

/// A branch.
pub open spec fn arm_b_ir(s: EmitterState, inst: DecodedArm) -> (EmitterState, bool) {
    (s.end(link(s.loc.set_pc(branch_target(s, inst)))), false)
}

/// Translates a branch.
pub fn arm_b(ir: &mut A32IREmitter, inst: &DecodedArm) -> (r: bool)
    ensures
        (final(ir)@, r) == arm_b_ir(old(ir)@, *inst),
{
    let offset: u32 = sign_extend(inst.imm24() << 2, 26);
    let target: u32 = ir.pc().wrapping_add(offset);
    let next = ir.current_location.set_pc(target);
    ir.set_term(Terminal::link_block(next.to_location()));
    false
}

/// A branch with link.
pub open spec fn arm_bl_ir(s: EmitterState, inst: DecodedArm) -> (EmitterState, bool) {
    (
        set_link_ir(push_return_ir(s)).end(link(s.loc.set_pc(branch_target(s, inst)))),
        false,
    )
}

/// Translates a branch with link.
pub fn arm_bl(ir: &mut A32IREmitter, inst: &DecodedArm) -> (r: bool)
    ensures
        (final(ir)@, r) == arm_bl_ir(old(ir)@, *inst),
{
    let offset: u32 = sign_extend(inst.imm24() << 2, 26);
    let target: u32 = ir.pc().wrapping_add(offset);
    let loc = ir.current_location;
    let return_addr: u32 = loc.pc().wrapping_add(4);
    ir.push_rsb(loc.advance_pc(4).to_location());
    ir.set_register(Reg::R14, Value::ImmU32(return_addr));
    let next = loc.set_pc(target);
    ir.set_term(Terminal::link_block(next.to_location()));
    false
}

/// A branch to a register, which also selects the instruction set. A branch
/// to the link register is predicted as a return.
pub open spec fn arm_bx_ir(s: EmitterState, inst: DecodedArm) -> (EmitterState, bool) {
    let (s, target) = s.get_register(inst.rm());
    let inner = if inst.rm() == Reg::R14 {
        Terminal::PopRSBHint
    } else {
        Terminal::FastDispatchHint
    };
    (s.op1(Opcode::A32BXWritePC, target).0.end(halt_or(inner)), false)
}

/// Translates a branch to a register.
pub fn arm_bx(ir: &mut A32IREmitter, inst: &DecodedArm) -> (r: bool)
    ensures
        (final(ir)@, r) == arm_bx_ir(old(ir)@, *inst),
{
    let rm = inst.rm();
    let target = ir.get_register(rm);
    ir.bx_write_pc(target);
    let inner = if rm == Reg::R14 { Terminal::PopRSBHint } else { Terminal::FastDispatchHint };
    ir.set_term(Terminal::check_halt(inner));
    false
}

/// A branch with link to a register. The target is read before the link
/// register is written, so that a branch to the link register goes to its old
/// value.
pub open spec fn arm_blx_reg_ir(s: EmitterState, inst: DecodedArm) -> (EmitterState, bool) {
    let (s, target) = s.get_register(inst.rm());
    let s = push_return_ir(s).op1(Opcode::A32BXWritePC, target).0;
    (set_link_ir(s).end(halt_or(Terminal::FastDispatchHint)), false)
}

/// Translates a branch with link to a register.
pub fn arm_blx_reg(ir: &mut A32IREmitter, inst: &DecodedArm) -> (r: bool)
    ensures
        (final(ir)@, r) == arm_blx_reg_ir(old(ir)@, *inst),
{
    let rm = inst.rm();
    let target = ir.get_register(rm);
    let loc = ir.current_location;
    let return_addr: u32 = loc.pc().wrapping_add(4);
    ir.push_rsb(loc.advance_pc(4).to_location());
    ir.bx_write_pc(target);
    ir.set_register(Reg::R14, Value::ImmU32(return_addr));
    ir.set_term(Terminal::check_halt(Terminal::FastDispatchHint));
    false
}

/// A branch with link to Thumb code, which may start at an odd halfword.
pub open spec fn arm_blx_imm_ir(s: EmitterState, inst: DecodedArm) -> (EmitterState, bool) {
    let half: u32 = if inst.h_flag() { 2 } else { 0 };
    let offset = sign_extended(inst.imm24() << 2, 26).wrapping_add(half);
    let target = s.pc().wrapping_add(offset);
    (set_link_ir(push_return_ir(s)).end(link(s.loc.set_pc(target).set_t_flag(true))), false)
}

/// Translates a branch with link to Thumb code.
pub fn arm_blx_imm(ir: &mut A32IREmitter, inst: &DecodedArm) -> (r: bool)
    ensures
        (final(ir)@, r) == arm_blx_imm_ir(old(ir)@, *inst),
{
    let half: u32 = if inst.h_flag() { 2 } else { 0 };
    let offset: u32 = sign_extend(inst.imm24() << 2, 26).wrapping_add(half);
    let target: u32 = ir.pc().wrapping_add(offset);
    let loc = ir.current_location;
    let return_addr: u32 = loc.pc().wrapping_add(4);
    ir.push_rsb(loc.advance_pc(4).to_location());
    ir.set_register(Reg::R14, Value::ImmU32(return_addr));
    let next = loc.set_pc(target).set_t_flag(true);
    ir.set_term(Terminal::link_block(next.to_location()));
    false
}

} // verus!
