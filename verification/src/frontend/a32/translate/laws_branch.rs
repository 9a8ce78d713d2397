//! Where branches go.

use vstd::prelude::*;
use super::arm_dispatch::translate_arm_instruction_ir;
use super::laws_alu::register_read;
use super::thumb16::translate_thumb16_ir;
use super::TranslationOptions;
use crate::frontend::a32::decoder::{ArmInstId, DecodedArm};
use crate::frontend::a32::decoder_thumb16::{DecodedThumb16, Thumb16InstId};
use crate::frontend::a32::types::{reg, Reg};
use crate::ir::a32_emitter::EmitterState;
use crate::ir::cond::cond_code;
use crate::ir::location::{packed_location_unpacks, A32LocationDescriptor, LocationDescriptor};
use crate::ir::meaning::{as_word, group_run, run, Machine};
use crate::ir::meaning_steps::group_steps;
use crate::ir::terminal::{halt_or, Terminal};

verus! {

broadcast use {crate::bits::and_le_mask, crate::bits::and_le_mask_u16};

/// The number that the low `width` bits of `x` hold in two's complement, where
/// `half` is half the number of values of these bits.
pub open spec fn signed_field(x: u32, half: int) -> int {
    if x < half {
        x as int
    } else {
        x - 2 * half
    }
}

/// Whether a packed location is at `pc` in the given instruction set, and in
/// the same state as `here` otherwise.
pub open spec fn is_at(
    location: LocationDescriptor,
    here: A32LocationDescriptor,
    pc: u32,
    thumb: bool,
) -> bool {
    let there = A32LocationDescriptor::from_location(location);
    &&& there.arm_pc == pc
    &&& there.cpsr.t == thumb
    &&& there.cpsr.e == here.cpsr.e
    &&& there.cpsr.it == here.cpsr.it
    &&& there.fpscr == here.fpscr
    &&& there.single_step == here.single_step
}

/// Whether a block is linked to the code at `pc`.
pub open spec fn links_to(
    terminal: Terminal,
    here: A32LocationDescriptor,
    pc: u32,
    thumb: bool,
) -> bool {
    terminal matches Terminal::LinkBlock { next } && is_at(next, here, pc, thumb)
}

proof fn signed_branch_offset(x: u32)
    requires
        x <= 0xFF_FFFF,
    ensures
        crate::bits::sign_extended(x << 2, 26) == as_word(4 * signed_field(x, 0x80_0000)),
{
    let low = 0xFFFF_FFFFu32 >> 6;
    assert(((x << 2) >> 25) & 1 == 1 ==> x >= 0x80_0000 && (x << 2) | !low == 0xFC00_0000 + x * 4)
        by (bit_vector)
        requires
            low == 0xFFFF_FFFFu32 >> 6,
            x <= 0xFF_FFFF,
    ;
    assert(((x << 2) >> 25) & 1 != 1 ==> x < 0x80_0000 && (x << 2) & low == x * 4) by (bit_vector)
        requires
            low == 0xFFFF_FFFFu32 >> 6,
            x <= 0xFF_FFFF,
    ;
}

proof fn sum_of_words(a: u32, b: u32, x: int)
    requires
        b == as_word(x),
    ensures
        a.wrapping_add(b) == as_word(a + x),
{
}

/// Branches of ARM code go to the program counter plus four times the signed
/// offset. A branch with link leaves the address of the next instruction in
/// the link register; one that changes to Thumb code takes bit 24 as half a
/// word more.
pub proof fn arm_branches_go_to_their_targets(
    s: EmitterState,
    inst: DecodedArm,
    options: TranslationOptions,
    m: Machine,
)
    requires
        s.loc.wf(),
        s.code.len() + 8 <= usize::MAX,
    ensures
        ({
            let (t, go_on) = translate_arm_instruction_ir(s, inst, options);
            let (before, after) = (run(s, m).machine, run(t, m).machine);
            let offset = 4 * signed_field(inst.raw & 0xFF_FFFF, 0x80_0000);
            let pc = register_read(s, before, Reg::R15);
            let linked = Machine {
                regs: before.regs.insert(Reg::R14, s.loc.arm_pc.wrapping_add(4)),
                ..before
            };
            let half: int = if inst.raw & 0x100_0000 != 0 { 2 } else { 0 };
            &&& inst.id == ArmInstId::B ==> !go_on && after == before && links_to(
                t.terminal,
                s.loc,
                as_word(pc + offset),
                s.loc.cpsr.t,
            )
            &&& inst.id == ArmInstId::BL ==> !go_on && after == linked && links_to(
                t.terminal,
                s.loc,
                as_word(pc + offset),
                s.loc.cpsr.t,
            )
            &&& inst.id == ArmInstId::BLX_imm ==> !go_on && after == linked && links_to(
                t.terminal,
                s.loc,
                as_word(pc + offset + half),
                true,
            )
        }),
{
    broadcast use {group_run, group_steps};

    let x = inst.imm24();
    signed_branch_offset(x);
    let offset = 4 * signed_field(x, 0x80_0000);
    let word = crate::bits::sign_extended(x << 2, 26);
    let pc = s.pc();
    sum_of_words(pc, word, offset);
    let target = pc.wrapping_add(word);
    packed_location_unpacks(s.loc.set_pc(target));
    let half: u32 = if inst.h_flag() { 2 } else { 0 };
    sum_of_words(word, half, half as int);
    sum_of_words(pc, word.wrapping_add(half), offset + half);
    let there = pc.wrapping_add(word.wrapping_add(half));
    packed_location_unpacks(s.loc.set_pc(there).set_t_flag(true));
}

/// Branches to a register go to its value. With link, the link register gets
/// the address of the next instruction, after the target was read.
pub proof fn arm_branches_to_registers(
    s: EmitterState,
    inst: DecodedArm,
    options: TranslationOptions,
    m: Machine,
)
    requires
        s.code.len() + 8 <= usize::MAX,
    ensures
        ({
            let (t, go_on) = translate_arm_instruction_ir(s, inst, options);
            let (before, after) = (run(s, m).machine, run(t, m).machine);
            let rm = reg(inst.raw & 0xF);
            let regs = before.regs.insert(Reg::R15, register_read(s, before, rm));
            &&& inst.id == ArmInstId::BX ==> !go_on && after == (Machine { regs, ..before })
                && t.terminal == halt_or(
                if rm == Reg::R14 {
                    Terminal::PopRSBHint
                } else {
                    Terminal::FastDispatchHint
                },
            )
            &&& inst.id == ArmInstId::BLX_reg ==> !go_on && after == (Machine {
                regs: regs.insert(Reg::R14, s.loc.arm_pc.wrapping_add(4)),
                ..before
            }) && t.terminal == halt_or(Terminal::FastDispatchHint)
        }),
{
    broadcast use {group_run, group_steps};

}

/// Branches of 16-bit Thumb code go to the program counter plus twice the
/// signed offset. A conditional branch goes there if its condition holds, and
/// to the next instruction otherwise.
pub proof fn thumb_branches_go_to_their_targets(
    s: EmitterState,
    inst: DecodedThumb16,
    options: TranslationOptions,
)
    requires
        s.loc.wf(),
    ensures
        ({
            let (t, go_on) = translate_thumb16_ir(s, inst, options);
            let near = 4 + 2 * signed_field((inst.raw & 0xFF) as u32, 128);
            let far = 4 + 2 * signed_field((inst.raw & 0x7FF) as u32, 1024);
            &&& inst.id == Thumb16InstId::BT2 ==> !go_on && t.code == s.code && links_to(
                t.terminal,
                s.loc,
                as_word(s.loc.arm_pc + far),
                s.loc.cpsr.t,
            )
            &&& inst.id == Thumb16InstId::BT1 ==> !go_on && t.code == s.code && (t.terminal matches
                Terminal::If { if_, then_, else_ } && {
                &&& if_ == cond_code(((inst.raw >> 8) & 0xF) as u32)
                &&& links_to(*then_, s.loc, as_word(s.loc.arm_pc + near), s.loc.cpsr.t)
                &&& links_to(*else_, s.loc, s.loc.arm_pc.wrapping_add(2), s.loc.cpsr.t)
            })
        }),
{
    let near = (4 + 2 * signed_field((inst.raw & 0xFF) as u32, 128)) as i32;
    let far = (4 + 2 * signed_field((inst.raw & 0x7FF) as u32, 1024)) as i32;
    packed_location_unpacks(s.loc.advance_pc(near));
    packed_location_unpacks(s.loc.advance_pc(far));
    packed_location_unpacks(s.loc.advance_pc(2));
}

/// Compare-and-branch goes forward by its offset if the register is zero (or,
/// with bit 11 set, if it is not), and to the next instruction otherwise.
pub proof fn compare_and_branch_goes_forward(
    s: EmitterState,
    inst: DecodedThumb16,
    options: TranslationOptions,
)
    requires
        inst.id == Thumb16InstId::CbzCbnz,
        s.loc.wf(),
    ensures
        ({
            let (t, go_on) = translate_thumb16_ir(s, inst, options);
            let offset = ((inst.raw >> 9) & 1) * 64 + ((inst.raw >> 3) & 0x1F) * 2;
            &&& !go_on
            &&& t.terminal matches Terminal::CheckBit { then_, else_ } && {
                let (if_zero, otherwise) = (*then_, *else_);
                let (target, next) = (
                    as_word(s.loc.arm_pc + 4 + offset),
                    s.loc.arm_pc.wrapping_add(2),
                );
                if (inst.raw >> 11) & 1 != 0 {
                    links_to(if_zero, s.loc, next, s.loc.cpsr.t) && links_to(
                        otherwise,
                        s.loc,
                        target,
                        s.loc.cpsr.t,
                    )
                } else {
                    links_to(if_zero, s.loc, target, s.loc.cpsr.t) && links_to(
                        otherwise,
                        s.loc,
                        next,
                        s.loc.cpsr.t,
                    )
                }
            }
        }),
{
    let offset = ((inst.raw >> 9) & 1) * 64 + ((inst.raw >> 3) & 0x1F) * 2;
    let target = s.loc.pc().wrapping_add(4).wrapping_add(offset as u32);
    packed_location_unpacks(s.loc.set_pc(target));
    packed_location_unpacks(s.loc.advance_pc(2));
}

} // verus!
