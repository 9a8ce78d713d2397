//! What 16-bit Thumb instructions compute.

use vstd::prelude::*;
use super::laws_alu::{
    added, carry_is_read, imm_shift_shifts, is_known, register_is_read, register_read, subtracted,
    Flagged,
};
use super::helpers::imm_shift_ir;
use super::laws_memory::{loaded, stored};
use super::thumb16::translate_thumb16_ir;
use super::TranslationOptions;
use crate::frontend::a32::decoder_thumb16::{DecodedThumb16, Thumb16InstId};
use crate::frontend::a32::types::{reg, Reg, ShiftType};
use crate::ir::a32_emitter::EmitterState;
use crate::ir::meaning::{
    as_word, group_run, operand, reversed_word, run, shifted_word, signed_word,
    turned_through_carry, Access, Flags, Machine,
};
use crate::ir::meaning_steps::group_steps;
use crate::ir::opcode::Opcode;
use crate::ir::value::Value;

verus! {

broadcast use {
    crate::bits::and_le_mask,
    crate::bits::and_le_mask_u16,
    crate::bits::mask_twice,
};

/// A sum with its flags.
pub open spec fn sum_of(a: u32, b: u32) -> Flagged {
    added(a + b, signed_word(a) + signed_word(b))
}

/// A difference with its flags.
pub open spec fn difference_of(a: u32, b: u32) -> Flagged {
    subtracted(a - b, signed_word(a) - signed_word(b))
}

/// A sum with a carry, with its flags.
pub open spec fn carried_sum_of(a: u32, b: u32, c: bool) -> Flagged {
    let x: int = if c { 1 } else { 0 };
    added(a + b + x, signed_word(a) + signed_word(b) + x)
}

/// A difference with a borrow unless the carry is set, with its flags.
pub open spec fn borrowed_difference_of(a: u32, b: u32, c: bool) -> Flagged {
    let x: int = if c { 0 } else { 1 };
    subtracted(a - b - x, signed_word(a) - signed_word(b) - x)
}

/// A word shifted by a constant: zero places stand for 32 to the right.
pub open spec fn shifted_by_constant(
    shift: ShiftType,
    x: u32,
    places: u32,
    c: bool,
) -> (u32, bool) {
    if places != 0 || shift == ShiftType::LSL {
        shifted_word(shift, x, places, c)
    } else if shift == ShiftType::ROR {
        turned_through_carry(x, c)
    } else {
        shifted_word(shift, x, 32, c)
    }
}

/// The low byte of a word with its sign.
pub open spec fn sign_extended_byte(x: u32) -> u32 {
    let byte = x & 0xFF;
    if byte >= 0x80 {
        as_word(byte - 0x100)
    } else {
        byte
    }
}

/// The low half of a word with its sign.
pub open spec fn sign_extended_half(x: u32) -> u32 {
    let half = x & 0xFFFF;
    if half >= 0x8000 {
        as_word(half - 0x1_0000)
    } else {
        half
    }
}

/// A machine with another value in a register.
pub open spec fn with_register(m: Machine, rd: Reg, x: u32) -> Machine {
    Machine { regs: m.regs.insert(rd, x), ..m }
}

/// A machine with a result in a register, if there is one, and all flags set
/// from it.
pub open spec fn with_nzcv(m: Machine, rd: Option<Reg>, x: Flagged) -> Machine {
    let flags = Flags { n: x.word >= 0x8000_0000, z: x.word == 0, c: x.c, v: x.v };
    match rd {
        Some(rd) => Machine { regs: m.regs.insert(rd, x.word), flags, ..m },
        None => Machine { flags, ..m },
    }
}

/// A machine with a result in a register, if there is one, and the negative
/// and zero flags set from it.
pub open spec fn with_nz(m: Machine, rd: Option<Reg>, x: u32) -> Machine {
    let flags = Flags { n: x >= 0x8000_0000, z: x == 0, ..m.flags };
    match rd {
        Some(rd) => Machine { regs: m.regs.insert(rd, x), flags, ..m },
        None => Machine { flags, ..m },
    }
}

/// A machine with a shifted result in a register and all flags but the
/// overflow set from it.
pub open spec fn with_nzc(m: Machine, rd: Reg, x: (u32, bool)) -> Machine {
    let flags = Flags { n: x.0 >= 0x8000_0000, z: x.0 == 0, c: x.1, ..m.flags };
    Machine { regs: m.regs.insert(rd, x.0), flags, ..m }
}

/// A machine after a load from an address to a register.
pub open spec fn after_load(
    s: EmitterState,
    m: Machine,
    rt: Reg,
    address: u32,
    bits: int,
    sign_extends: bool,
) -> Machine {
    Machine {
        regs: m.regs.insert(
            rt,
            loaded(bits, sign_extends, s.loc.cpsr.e, m.memory[(bits, address)]),
        ),
        accesses: m.accesses.push(Access { write: false, bits, address, value: 0 }),
        ..m
    }
}

/// A machine after a store of a register to an address.
pub open spec fn after_store(
    s: EmitterState,
    m: Machine,
    rt: Reg,
    address: u32,
    bits: int,
) -> Machine {
    let value = stored(bits, s.loc.cpsr.e, register_read(s, m, rt));
    Machine { accesses: m.accesses.push(Access { write: true, bits, address, value }), ..m }
}

/// What a 16-bit Thumb instruction makes of a machine, by the fields of its
/// halfword, for the instructions that compute, load or store.
pub open spec fn documented_thumb16(
    s: EmitterState,
    before: Machine,
    inst: DecodedThumb16,
) -> Option<
    Machine,
> {
    let raw = inst.raw;
    let read = |r: Reg| register_read(s, before, r);
    match inst.id {
        Thumb16InstId::LslImm => Some(
            with_nzc(
                before,
                reg((raw & 7) as u32),
                shifted_by_constant(
                    ShiftType::LSL,
                    read(reg(((raw >> 3) & 7) as u32)),
                    ((raw >> 6) & 0x1F) as u32,
                    before.flags.c,
                ),
            ),
        ),
        Thumb16InstId::LsrImm => Some(
            with_nzc(
                before,
                reg((raw & 7) as u32),
                shifted_by_constant(
                    ShiftType::LSR,
                    read(reg(((raw >> 3) & 7) as u32)),
                    ((raw >> 6) & 0x1F) as u32,
                    before.flags.c,
                ),
            ),
        ),
        Thumb16InstId::AsrImm => Some(
            with_nzc(
                before,
                reg((raw & 7) as u32),
                shifted_by_constant(
                    ShiftType::ASR,
                    read(reg(((raw >> 3) & 7) as u32)),
                    ((raw >> 6) & 0x1F) as u32,
                    before.flags.c,
                ),
            ),
        ),
        Thumb16InstId::AddRegT1 => Some(
            with_nzcv(
                before,
                Some(reg((raw & 7) as u32)),
                sum_of(read(reg(((raw >> 3) & 7) as u32)), read(reg(((raw >> 6) & 7) as u32))),
            ),
        ),
        Thumb16InstId::SubReg => Some(
            with_nzcv(
                before,
                Some(reg((raw & 7) as u32)),
                difference_of(
                    read(reg(((raw >> 3) & 7) as u32)),
                    read(reg(((raw >> 6) & 7) as u32)),
                ),
            ),
        ),
        Thumb16InstId::AddImmT1 => Some(
            with_nzcv(
                before,
                Some(reg((raw & 7) as u32)),
                sum_of(read(reg(((raw >> 3) & 7) as u32)), ((raw >> 6) & 7) as u32),
            ),
        ),
        Thumb16InstId::SubImmT1 => Some(
            with_nzcv(
                before,
                Some(reg((raw & 7) as u32)),
                difference_of(read(reg(((raw >> 3) & 7) as u32)), ((raw >> 6) & 7) as u32),
            ),
        ),
        Thumb16InstId::MovImm => Some(
            with_nz(before, Some(reg(((raw >> 8) & 7) as u32)), (raw & 0xFF) as u32),
        ),
        Thumb16InstId::CmpImm => Some(
            with_nzcv(
                before,
                None,
                difference_of(read(reg(((raw >> 8) & 7) as u32)), (raw & 0xFF) as u32),
            ),
        ),
        Thumb16InstId::AddImmT2 => Some(
            with_nzcv(
                before,
                Some(reg(((raw >> 8) & 7) as u32)),
                sum_of(read(reg(((raw >> 8) & 7) as u32)), (raw & 0xFF) as u32),
            ),
        ),
        Thumb16InstId::SubImmT2 => Some(
            with_nzcv(
                before,
                Some(reg(((raw >> 8) & 7) as u32)),
                difference_of(read(reg(((raw >> 8) & 7) as u32)), (raw & 0xFF) as u32),
            ),
        ),
        Thumb16InstId::AndReg => Some(
            with_nz(
                before,
                Some(reg((raw & 7) as u32)),
                read(reg((raw & 7) as u32)) & read(reg(((raw >> 3) & 7) as u32)),
            ),
        ),
        Thumb16InstId::EorReg => Some(
            with_nz(
                before,
                Some(reg((raw & 7) as u32)),
                read(reg((raw & 7) as u32)) ^ read(reg(((raw >> 3) & 7) as u32)),
            ),
        ),
        Thumb16InstId::OrrReg => Some(
            with_nz(
                before,
                Some(reg((raw & 7) as u32)),
                read(reg((raw & 7) as u32)) | read(reg(((raw >> 3) & 7) as u32)),
            ),
        ),
        Thumb16InstId::BicReg => Some(
            with_nz(
                before,
                Some(reg((raw & 7) as u32)),
                read(reg((raw & 7) as u32)) & !read(reg(((raw >> 3) & 7) as u32)),
            ),
        ),
        Thumb16InstId::MvnReg => Some(
            with_nz(before, Some(reg((raw & 7) as u32)), !read(reg(((raw >> 3) & 7) as u32))),
        ),
        Thumb16InstId::MulReg => Some(
            with_nz(
                before,
                Some(reg((raw & 7) as u32)),
                as_word(read(reg((raw & 7) as u32)) * read(reg(((raw >> 3) & 7) as u32))),
            ),
        ),
        Thumb16InstId::TstReg => Some(
            with_nz(before, None, read(reg((raw & 7) as u32)) & read(reg(((raw >> 3) & 7) as u32))),
        ),
        Thumb16InstId::LslReg => Some(
            with_nzc(
                before,
                reg((raw & 7) as u32),
                shifted_word(
                    ShiftType::LSL,
                    read(reg((raw & 7) as u32)),
                    read(reg(((raw >> 3) & 7) as u32)) & 0xFF,
                    before.flags.c,
                ),
            ),
        ),
        Thumb16InstId::LsrReg => Some(
            with_nzc(
                before,
                reg((raw & 7) as u32),
                shifted_word(
                    ShiftType::LSR,
                    read(reg((raw & 7) as u32)),
                    read(reg(((raw >> 3) & 7) as u32)) & 0xFF,
                    before.flags.c,
                ),
            ),
        ),
        Thumb16InstId::AsrReg => Some(
            with_nzc(
                before,
                reg((raw & 7) as u32),
                shifted_word(
                    ShiftType::ASR,
                    read(reg((raw & 7) as u32)),
                    read(reg(((raw >> 3) & 7) as u32)) & 0xFF,
                    before.flags.c,
                ),
            ),
        ),
        Thumb16InstId::RorReg => Some(
            with_nzc(
                before,
                reg((raw & 7) as u32),
                shifted_word(
                    ShiftType::ROR,
                    read(reg((raw & 7) as u32)),
                    read(reg(((raw >> 3) & 7) as u32)) & 0xFF,
                    before.flags.c,
                ),
            ),
        ),
        Thumb16InstId::AdcReg => Some(
            with_nzcv(
                before,
                Some(reg((raw & 7) as u32)),
                carried_sum_of(
                    read(reg((raw & 7) as u32)),
                    read(reg(((raw >> 3) & 7) as u32)),
                    before.flags.c,
                ),
            ),
        ),
        Thumb16InstId::SbcReg => Some(
            with_nzcv(
                before,
                Some(reg((raw & 7) as u32)),
                borrowed_difference_of(
                    read(reg((raw & 7) as u32)),
                    read(reg(((raw >> 3) & 7) as u32)),
                    before.flags.c,
                ),
            ),
        ),
        Thumb16InstId::RsbImm => Some(
            with_nzcv(
                before,
                Some(reg((raw & 7) as u32)),
                difference_of(0, read(reg(((raw >> 3) & 7) as u32))),
            ),
        ),
        Thumb16InstId::CmpRegT1 => Some(
            with_nzcv(
                before,
                None,
                difference_of(read(reg((raw & 7) as u32)), read(reg(((raw >> 3) & 7) as u32))),
            ),
        ),
        Thumb16InstId::CmnReg => Some(
            with_nzcv(
                before,
                None,
                sum_of(read(reg((raw & 7) as u32)), read(reg(((raw >> 3) & 7) as u32))),
            ),
        ),
        Thumb16InstId::CmpRegT2 => Some(
            with_nzcv(
                before,
                None,
                difference_of(
                    read(reg((((raw >> 7) & 1) * 8 + (raw & 7)) as u32)),
                    read(reg(((raw >> 3) & 0xF) as u32)),
                ),
            ),
        ),
        Thumb16InstId::AddSpT1 => Some(
            with_register(
                before,
                reg(((raw >> 8) & 7) as u32),
                as_word(before.regs[Reg::R13] + (((raw & 0xFF) as u32) << 2)),
            ),
        ),
        Thumb16InstId::AddSpT2 => Some(
            with_register(
                before,
                Reg::R13,
                as_word(before.regs[Reg::R13] + (((raw & 0x7F) as u32) << 2)),
            ),
        ),
        Thumb16InstId::SubSp => Some(
            with_register(
                before,
                Reg::R13,
                as_word(before.regs[Reg::R13] - (((raw & 0x7F) as u32) << 2)),
            ),
        ),
        Thumb16InstId::ADR => Some(
            with_register(
                before,
                reg(((raw >> 8) & 7) as u32),
                (s.loc.arm_pc.wrapping_add(4) & 0xFFFF_FFFC).wrapping_add(
                    ((raw & 0xFF) as u32) << 2,
                ),
            ),
        ),
        Thumb16InstId::SXTH => Some(
            with_register(
                before,
                reg((raw & 7) as u32),
                sign_extended_half(read(reg(((raw >> 3) & 7) as u32))),
            ),
        ),
        Thumb16InstId::SXTB => Some(
            with_register(
                before,
                reg((raw & 7) as u32),
                sign_extended_byte(read(reg(((raw >> 3) & 7) as u32))),
            ),
        ),
        Thumb16InstId::UXTH => Some(
            with_register(
                before,
                reg((raw & 7) as u32),
                read(reg(((raw >> 3) & 7) as u32)) & 0xFFFF,
            ),
        ),
        Thumb16InstId::UXTB => Some(
            with_register(before, reg((raw & 7) as u32), read(reg(((raw >> 3) & 7) as u32)) & 0xFF),
        ),
        Thumb16InstId::REV => Some(
            with_register(
                before,
                reg((raw & 7) as u32),
                reversed_word(read(reg(((raw >> 3) & 7) as u32))),
            ),
        ),
        Thumb16InstId::LdrReg => Some(
            after_load(
                s,
                before,
                reg((raw & 7) as u32),
                as_word(read(reg(((raw >> 3) & 7) as u32)) + read(reg(((raw >> 6) & 7) as u32))),
                32,
                false,
            ),
        ),
        Thumb16InstId::LdrbReg => Some(
            after_load(
                s,
                before,
                reg((raw & 7) as u32),
                as_word(read(reg(((raw >> 3) & 7) as u32)) + read(reg(((raw >> 6) & 7) as u32))),
                8,
                false,
            ),
        ),
        Thumb16InstId::LdrhReg => Some(
            after_load(
                s,
                before,
                reg((raw & 7) as u32),
                as_word(read(reg(((raw >> 3) & 7) as u32)) + read(reg(((raw >> 6) & 7) as u32))),
                16,
                false,
            ),
        ),
        Thumb16InstId::LdrsbReg => Some(
            after_load(
                s,
                before,
                reg((raw & 7) as u32),
                as_word(read(reg(((raw >> 3) & 7) as u32)) + read(reg(((raw >> 6) & 7) as u32))),
                8,
                true,
            ),
        ),
        Thumb16InstId::LdrshReg => Some(
            after_load(
                s,
                before,
                reg((raw & 7) as u32),
                as_word(read(reg(((raw >> 3) & 7) as u32)) + read(reg(((raw >> 6) & 7) as u32))),
                16,
                true,
            ),
        ),
        Thumb16InstId::StrReg => Some(
            after_store(
                s,
                before,
                reg((raw & 7) as u32),
                as_word(read(reg(((raw >> 3) & 7) as u32)) + read(reg(((raw >> 6) & 7) as u32))),
                32,
            ),
        ),
        Thumb16InstId::StrbReg => Some(
            after_store(
                s,
                before,
                reg((raw & 7) as u32),
                as_word(read(reg(((raw >> 3) & 7) as u32)) + read(reg(((raw >> 6) & 7) as u32))),
                8,
            ),
        ),
        Thumb16InstId::StrhReg => Some(
            after_store(
                s,
                before,
                reg((raw & 7) as u32),
                as_word(read(reg(((raw >> 3) & 7) as u32)) + read(reg(((raw >> 6) & 7) as u32))),
                16,
            ),
        ),
        Thumb16InstId::LdrImmT1 => Some(
            after_load(
                s,
                before,
                reg((raw & 7) as u32),
                as_word(read(reg(((raw >> 3) & 7) as u32)) + ((((raw >> 6) & 0x1F) as u32) << 2)),
                32,
                false,
            ),
        ),
        Thumb16InstId::LdrImmT2 => Some(
            after_load(
                s,
                before,
                reg(((raw >> 8) & 7) as u32),
                as_word(before.regs[Reg::R13] + (((raw & 0xFF) as u32) << 2)),
                32,
                false,
            ),
        ),
        Thumb16InstId::LdrbImm => Some(
            after_load(
                s,
                before,
                reg((raw & 7) as u32),
                as_word(read(reg(((raw >> 3) & 7) as u32)) + (((raw >> 6) & 0x1F) as u32)),
                8,
                false,
            ),
        ),
        Thumb16InstId::LdrhImm => Some(
            after_load(
                s,
                before,
                reg((raw & 7) as u32),
                as_word(read(reg(((raw >> 3) & 7) as u32)) + ((((raw >> 6) & 0x1F) as u32) << 1)),
                16,
                false,
            ),
        ),
        Thumb16InstId::StrImmT1 => Some(
            after_store(
                s,
                before,
                reg((raw & 7) as u32),
                as_word(read(reg(((raw >> 3) & 7) as u32)) + ((((raw >> 6) & 0x1F) as u32) << 2)),
                32,
            ),
        ),
        Thumb16InstId::StrImmT2 => Some(
            after_store(
                s,
                before,
                reg(((raw >> 8) & 7) as u32),
                as_word(before.regs[Reg::R13] + (((raw & 0xFF) as u32) << 2)),
                32,
            ),
        ),
        Thumb16InstId::StrbImm => Some(
            after_store(
                s,
                before,
                reg((raw & 7) as u32),
                as_word(read(reg(((raw >> 3) & 7) as u32)) + (((raw >> 6) & 0x1F) as u32)),
                8,
            ),
        ),
        Thumb16InstId::StrhImm => Some(
            after_store(
                s,
                before,
                reg((raw & 7) as u32),
                as_word(read(reg(((raw >> 3) & 7) as u32)) + ((((raw >> 6) & 0x1F) as u32) << 1)),
                16,
            ),
        ),
        Thumb16InstId::LdrLiteral => Some(
            after_load(
                s,
                before,
                reg(((raw >> 8) & 7) as u32),
                (s.loc.arm_pc.wrapping_add(4) & 0xFFFF_FFFC).wrapping_add(
                    ((raw & 0xFF) as u32) << 2,
                ),
                32,
                false,
            ),
        ),
        _ => None,
    }
}

/// What is owed of the translation of a 16-bit Thumb instruction that
/// computes, loads or stores.
#[verifier::opaque]
pub open spec fn thumb16_is_right(
    s: EmitterState,
    inst: DecodedThumb16,
    options: TranslationOptions,
    m: Machine,
) -> bool {
    let r = translate_thumb16_ir(s, inst, options);
    documented_thumb16(s, run(s, m).machine, inst) matches Some(after) ==> r.1 && run(
        r.0,
        m,
    ).machine == after
}

/// Writing a shifted result and its flags.
proof fn shifted_result_is_written(
    s: EmitterState,
    rd: Reg,
    result: Value,
    carry: Value,
    m: Machine,
)
    requires
        is_known(s, result),
        is_known(s, carry),
        s.code.len() + 8 <= usize::MAX,
    ensures
        ({
            let (t, nzcv) = s.op1(Opcode::GetNZCVFromOp, result);
            let t = t.op2(Opcode::A32SetCpsrNZC, nzcv, carry).0.set_register(rd, result);
            run(t, m).machine == with_nzc(
                run(s, m).machine,
                rd,
                (operand(run(s, m), result).word, operand(run(s, m), carry).bit),
            )
        }),
{
    broadcast use {group_run, group_steps};

}

proof fn t16_lslimm(s: EmitterState, inst: DecodedThumb16, options: TranslationOptions, m: Machine)
    requires
        inst.id == Thumb16InstId::LslImm,
        s.code.len() + 32 <= usize::MAX,
    ensures
        thumb16_is_right(s, inst, options, m),
{
    reveal(thumb16_is_right);
    let (s1, c) = s.op0(Opcode::A32GetCFlag);
    carry_is_read(s, m);
    let (s2, v) = s1.get_register(inst.rn_lo());
    register_is_read(s1, inst.rn_lo(), m);
    let (s3, (result, carry)) = imm_shift_ir(s2, v, ShiftType::LSL, inst.imm5(), c);
    imm_shift_shifts(s2, v, ShiftType::LSL, inst.imm5(), c, m);
    shifted_result_is_written(s3, inst.rd_lo(), result, carry, m);
}

proof fn t16_lsrimm(s: EmitterState, inst: DecodedThumb16, options: TranslationOptions, m: Machine)
    requires
        inst.id == Thumb16InstId::LsrImm,
        s.code.len() + 32 <= usize::MAX,
    ensures
        thumb16_is_right(s, inst, options, m),
{
    reveal(thumb16_is_right);
    let (s1, c) = s.op0(Opcode::A32GetCFlag);
    carry_is_read(s, m);
    let (s2, v) = s1.get_register(inst.rn_lo());
    register_is_read(s1, inst.rn_lo(), m);
    let (s3, (result, carry)) = imm_shift_ir(s2, v, ShiftType::LSR, inst.imm5(), c);
    imm_shift_shifts(s2, v, ShiftType::LSR, inst.imm5(), c, m);
    shifted_result_is_written(s3, inst.rd_lo(), result, carry, m);
}

proof fn t16_asrimm(s: EmitterState, inst: DecodedThumb16, options: TranslationOptions, m: Machine)
    requires
        inst.id == Thumb16InstId::AsrImm,
        s.code.len() + 32 <= usize::MAX,
    ensures
        thumb16_is_right(s, inst, options, m),
{
    reveal(thumb16_is_right);
    let (s1, c) = s.op0(Opcode::A32GetCFlag);
    carry_is_read(s, m);
    let (s2, v) = s1.get_register(inst.rn_lo());
    register_is_read(s1, inst.rn_lo(), m);
    let (s3, (result, carry)) = imm_shift_ir(s2, v, ShiftType::ASR, inst.imm5(), c);
    imm_shift_shifts(s2, v, ShiftType::ASR, inst.imm5(), c, m);
    shifted_result_is_written(s3, inst.rd_lo(), result, carry, m);
}

proof fn t16_addregt1(
    s: EmitterState,
    inst: DecodedThumb16,
    options: TranslationOptions,
    m: Machine,
)
    requires
        inst.id == Thumb16InstId::AddRegT1,
        s.code.len() + 32 <= usize::MAX,
    ensures
        thumb16_is_right(s, inst, options, m),
{
    broadcast use {group_run, group_steps};

    reveal(thumb16_is_right);
}

proof fn t16_subreg(s: EmitterState, inst: DecodedThumb16, options: TranslationOptions, m: Machine)
    requires
        inst.id == Thumb16InstId::SubReg,
        s.code.len() + 32 <= usize::MAX,
    ensures
        thumb16_is_right(s, inst, options, m),
{
    broadcast use {group_run, group_steps};

    reveal(thumb16_is_right);
}

proof fn t16_addimmt1(
    s: EmitterState,
    inst: DecodedThumb16,
    options: TranslationOptions,
    m: Machine,
)
    requires
        inst.id == Thumb16InstId::AddImmT1,
        s.code.len() + 32 <= usize::MAX,
    ensures
        thumb16_is_right(s, inst, options, m),
{
    broadcast use {group_run, group_steps};

    reveal(thumb16_is_right);
}

proof fn t16_subimmt1(
    s: EmitterState,
    inst: DecodedThumb16,
    options: TranslationOptions,
    m: Machine,
)
    requires
        inst.id == Thumb16InstId::SubImmT1,
        s.code.len() + 32 <= usize::MAX,
    ensures
        thumb16_is_right(s, inst, options, m),
{
    broadcast use {group_run, group_steps};

    reveal(thumb16_is_right);
}

proof fn t16_movimm(s: EmitterState, inst: DecodedThumb16, options: TranslationOptions, m: Machine)
    requires
        inst.id == Thumb16InstId::MovImm,
        s.code.len() + 32 <= usize::MAX,
    ensures
        thumb16_is_right(s, inst, options, m),
{
    broadcast use {group_run, group_steps};

    reveal(thumb16_is_right);
}

proof fn t16_cmpimm(s: EmitterState, inst: DecodedThumb16, options: TranslationOptions, m: Machine)
    requires
        inst.id == Thumb16InstId::CmpImm,
        s.code.len() + 32 <= usize::MAX,
    ensures
        thumb16_is_right(s, inst, options, m),
{
    broadcast use {group_run, group_steps};

    reveal(thumb16_is_right);
}

proof fn t16_addimmt2(
    s: EmitterState,
    inst: DecodedThumb16,
    options: TranslationOptions,
    m: Machine,
)
    requires
        inst.id == Thumb16InstId::AddImmT2,
        s.code.len() + 32 <= usize::MAX,
    ensures
        thumb16_is_right(s, inst, options, m),
{
    broadcast use {group_run, group_steps};

    reveal(thumb16_is_right);
}

proof fn t16_subimmt2(
    s: EmitterState,
    inst: DecodedThumb16,
    options: TranslationOptions,
    m: Machine,
)
    requires
        inst.id == Thumb16InstId::SubImmT2,
        s.code.len() + 32 <= usize::MAX,
    ensures
        thumb16_is_right(s, inst, options, m),
{
    broadcast use {group_run, group_steps};

    reveal(thumb16_is_right);
}

proof fn t16_andreg(s: EmitterState, inst: DecodedThumb16, options: TranslationOptions, m: Machine)
    requires
        inst.id == Thumb16InstId::AndReg,
        s.code.len() + 32 <= usize::MAX,
    ensures
        thumb16_is_right(s, inst, options, m),
{
    broadcast use {group_run, group_steps};

    reveal(thumb16_is_right);
}

proof fn t16_eorreg(s: EmitterState, inst: DecodedThumb16, options: TranslationOptions, m: Machine)
    requires
        inst.id == Thumb16InstId::EorReg,
        s.code.len() + 32 <= usize::MAX,
    ensures
        thumb16_is_right(s, inst, options, m),
{
    broadcast use {group_run, group_steps};

    reveal(thumb16_is_right);
}

proof fn t16_orrreg(s: EmitterState, inst: DecodedThumb16, options: TranslationOptions, m: Machine)
    requires
        inst.id == Thumb16InstId::OrrReg,
        s.code.len() + 32 <= usize::MAX,
    ensures
        thumb16_is_right(s, inst, options, m),
{
    broadcast use {group_run, group_steps};

    reveal(thumb16_is_right);
}

proof fn t16_bicreg(s: EmitterState, inst: DecodedThumb16, options: TranslationOptions, m: Machine)
    requires
        inst.id == Thumb16InstId::BicReg,
        s.code.len() + 32 <= usize::MAX,
    ensures
        thumb16_is_right(s, inst, options, m),
{
    broadcast use {group_run, group_steps};

    reveal(thumb16_is_right);
}

proof fn t16_mvnreg(s: EmitterState, inst: DecodedThumb16, options: TranslationOptions, m: Machine)
    requires
        inst.id == Thumb16InstId::MvnReg,
        s.code.len() + 32 <= usize::MAX,
    ensures
        thumb16_is_right(s, inst, options, m),
{
    broadcast use {group_run, group_steps};

    reveal(thumb16_is_right);
}

proof fn t16_mulreg(s: EmitterState, inst: DecodedThumb16, options: TranslationOptions, m: Machine)
    requires
        inst.id == Thumb16InstId::MulReg,
        s.code.len() + 32 <= usize::MAX,
    ensures
        thumb16_is_right(s, inst, options, m),
{
    broadcast use {group_run, group_steps};

    reveal(thumb16_is_right);
}

proof fn t16_tstreg(s: EmitterState, inst: DecodedThumb16, options: TranslationOptions, m: Machine)
    requires
        inst.id == Thumb16InstId::TstReg,
        s.code.len() + 32 <= usize::MAX,
    ensures
        thumb16_is_right(s, inst, options, m),
{
    broadcast use {group_run, group_steps};

    reveal(thumb16_is_right);
}

proof fn t16_lslreg(s: EmitterState, inst: DecodedThumb16, options: TranslationOptions, m: Machine)
    requires
        inst.id == Thumb16InstId::LslReg,
        s.code.len() + 32 <= usize::MAX,
    ensures
        thumb16_is_right(s, inst, options, m),
{
    broadcast use {group_run, group_steps};

    reveal(thumb16_is_right);
}

proof fn t16_lsrreg(s: EmitterState, inst: DecodedThumb16, options: TranslationOptions, m: Machine)
    requires
        inst.id == Thumb16InstId::LsrReg,
        s.code.len() + 32 <= usize::MAX,
    ensures
        thumb16_is_right(s, inst, options, m),
{
    broadcast use {group_run, group_steps};

    reveal(thumb16_is_right);
}

proof fn t16_asrreg(s: EmitterState, inst: DecodedThumb16, options: TranslationOptions, m: Machine)
    requires
        inst.id == Thumb16InstId::AsrReg,
        s.code.len() + 32 <= usize::MAX,
    ensures
        thumb16_is_right(s, inst, options, m),
{
    broadcast use {group_run, group_steps};

    reveal(thumb16_is_right);
}

proof fn t16_rorreg(s: EmitterState, inst: DecodedThumb16, options: TranslationOptions, m: Machine)
    requires
        inst.id == Thumb16InstId::RorReg,
        s.code.len() + 32 <= usize::MAX,
    ensures
        thumb16_is_right(s, inst, options, m),
{
    broadcast use {group_run, group_steps};

    reveal(thumb16_is_right);
}

proof fn t16_adcreg(s: EmitterState, inst: DecodedThumb16, options: TranslationOptions, m: Machine)
    requires
        inst.id == Thumb16InstId::AdcReg,
        s.code.len() + 32 <= usize::MAX,
    ensures
        thumb16_is_right(s, inst, options, m),
{
    broadcast use {group_run, group_steps};

    reveal(thumb16_is_right);
}

proof fn t16_sbcreg(s: EmitterState, inst: DecodedThumb16, options: TranslationOptions, m: Machine)
    requires
        inst.id == Thumb16InstId::SbcReg,
        s.code.len() + 32 <= usize::MAX,
    ensures
        thumb16_is_right(s, inst, options, m),
{
    broadcast use {group_run, group_steps};

    reveal(thumb16_is_right);
}

proof fn t16_rsbimm(s: EmitterState, inst: DecodedThumb16, options: TranslationOptions, m: Machine)
    requires
        inst.id == Thumb16InstId::RsbImm,
        s.code.len() + 32 <= usize::MAX,
    ensures
        thumb16_is_right(s, inst, options, m),
{
    broadcast use {group_run, group_steps};

    reveal(thumb16_is_right);
}

proof fn t16_cmpregt1(
    s: EmitterState,
    inst: DecodedThumb16,
    options: TranslationOptions,
    m: Machine,
)
    requires
        inst.id == Thumb16InstId::CmpRegT1,
        s.code.len() + 32 <= usize::MAX,
    ensures
        thumb16_is_right(s, inst, options, m),
{
    broadcast use {group_run, group_steps};

    reveal(thumb16_is_right);
}

proof fn t16_cmnreg(s: EmitterState, inst: DecodedThumb16, options: TranslationOptions, m: Machine)
    requires
        inst.id == Thumb16InstId::CmnReg,
        s.code.len() + 32 <= usize::MAX,
    ensures
        thumb16_is_right(s, inst, options, m),
{
    broadcast use {group_run, group_steps};

    reveal(thumb16_is_right);
}

proof fn t16_cmpregt2(
    s: EmitterState,
    inst: DecodedThumb16,
    options: TranslationOptions,
    m: Machine,
)
    requires
        inst.id == Thumb16InstId::CmpRegT2,
        s.code.len() + 32 <= usize::MAX,
    ensures
        thumb16_is_right(s, inst, options, m),
{
    broadcast use {group_run, group_steps};

    reveal(thumb16_is_right);
}

proof fn t16_addspt1(s: EmitterState, inst: DecodedThumb16, options: TranslationOptions, m: Machine)
    requires
        inst.id == Thumb16InstId::AddSpT1,
        s.code.len() + 32 <= usize::MAX,
    ensures
        thumb16_is_right(s, inst, options, m),
{
    broadcast use {group_run, group_steps};

    reveal(thumb16_is_right);
}

proof fn t16_addspt2(s: EmitterState, inst: DecodedThumb16, options: TranslationOptions, m: Machine)
    requires
        inst.id == Thumb16InstId::AddSpT2,
        s.code.len() + 32 <= usize::MAX,
    ensures
        thumb16_is_right(s, inst, options, m),
{
    broadcast use {group_run, group_steps};

    reveal(thumb16_is_right);
}

proof fn t16_subsp(s: EmitterState, inst: DecodedThumb16, options: TranslationOptions, m: Machine)
    requires
        inst.id == Thumb16InstId::SubSp,
        s.code.len() + 32 <= usize::MAX,
    ensures
        thumb16_is_right(s, inst, options, m),
{
    broadcast use {group_run, group_steps};

    reveal(thumb16_is_right);
}

proof fn t16_adr(s: EmitterState, inst: DecodedThumb16, options: TranslationOptions, m: Machine)
    requires
        inst.id == Thumb16InstId::ADR,
        s.code.len() + 32 <= usize::MAX,
    ensures
        thumb16_is_right(s, inst, options, m),
{
    broadcast use {group_run, group_steps};

    reveal(thumb16_is_right);
}

proof fn t16_sxth(s: EmitterState, inst: DecodedThumb16, options: TranslationOptions, m: Machine)
    requires
        inst.id == Thumb16InstId::SXTH,
        s.code.len() + 32 <= usize::MAX,
    ensures
        thumb16_is_right(s, inst, options, m),
{
    broadcast use {group_run, group_steps};

    reveal(thumb16_is_right);
}

proof fn t16_sxtb(s: EmitterState, inst: DecodedThumb16, options: TranslationOptions, m: Machine)
    requires
        inst.id == Thumb16InstId::SXTB,
        s.code.len() + 32 <= usize::MAX,
    ensures
        thumb16_is_right(s, inst, options, m),
{
    broadcast use {group_run, group_steps};

    reveal(thumb16_is_right);
}

proof fn t16_uxth(s: EmitterState, inst: DecodedThumb16, options: TranslationOptions, m: Machine)
    requires
        inst.id == Thumb16InstId::UXTH,
        s.code.len() + 32 <= usize::MAX,
    ensures
        thumb16_is_right(s, inst, options, m),
{
    broadcast use {group_run, group_steps};

    reveal(thumb16_is_right);
}

proof fn t16_uxtb(s: EmitterState, inst: DecodedThumb16, options: TranslationOptions, m: Machine)
    requires
        inst.id == Thumb16InstId::UXTB,
        s.code.len() + 32 <= usize::MAX,
    ensures
        thumb16_is_right(s, inst, options, m),
{
    broadcast use {group_run, group_steps};

    reveal(thumb16_is_right);
}

proof fn t16_rev(s: EmitterState, inst: DecodedThumb16, options: TranslationOptions, m: Machine)
    requires
        inst.id == Thumb16InstId::REV,
        s.code.len() + 32 <= usize::MAX,
    ensures
        thumb16_is_right(s, inst, options, m),
{
    broadcast use {group_run, group_steps};

    reveal(thumb16_is_right);
}

proof fn t16_ldrreg(s: EmitterState, inst: DecodedThumb16, options: TranslationOptions, m: Machine)
    requires
        inst.id == Thumb16InstId::LdrReg,
        s.code.len() + 32 <= usize::MAX,
    ensures
        thumb16_is_right(s, inst, options, m),
{
    broadcast use {group_run, group_steps};

    reveal(thumb16_is_right);
}

proof fn t16_ldrbreg(s: EmitterState, inst: DecodedThumb16, options: TranslationOptions, m: Machine)
    requires
        inst.id == Thumb16InstId::LdrbReg,
        s.code.len() + 32 <= usize::MAX,
    ensures
        thumb16_is_right(s, inst, options, m),
{
    broadcast use {group_run, group_steps};

    reveal(thumb16_is_right);
}

proof fn t16_ldrhreg(s: EmitterState, inst: DecodedThumb16, options: TranslationOptions, m: Machine)
    requires
        inst.id == Thumb16InstId::LdrhReg,
        s.code.len() + 32 <= usize::MAX,
    ensures
        thumb16_is_right(s, inst, options, m),
{
    broadcast use {group_run, group_steps};

    reveal(thumb16_is_right);
}

proof fn t16_ldrsbreg(
    s: EmitterState,
    inst: DecodedThumb16,
    options: TranslationOptions,
    m: Machine,
)
    requires
        inst.id == Thumb16InstId::LdrsbReg,
        s.code.len() + 32 <= usize::MAX,
    ensures
        thumb16_is_right(s, inst, options, m),
{
    broadcast use {group_run, group_steps};

    reveal(thumb16_is_right);
}

proof fn t16_ldrshreg(
    s: EmitterState,
    inst: DecodedThumb16,
    options: TranslationOptions,
    m: Machine,
)
    requires
        inst.id == Thumb16InstId::LdrshReg,
        s.code.len() + 32 <= usize::MAX,
    ensures
        thumb16_is_right(s, inst, options, m),
{
    broadcast use {group_run, group_steps};

    reveal(thumb16_is_right);
}

proof fn t16_strreg(s: EmitterState, inst: DecodedThumb16, options: TranslationOptions, m: Machine)
    requires
        inst.id == Thumb16InstId::StrReg,
        s.code.len() + 32 <= usize::MAX,
    ensures
        thumb16_is_right(s, inst, options, m),
{
    broadcast use {group_run, group_steps};

    reveal(thumb16_is_right);
}

proof fn t16_strbreg(s: EmitterState, inst: DecodedThumb16, options: TranslationOptions, m: Machine)
    requires
        inst.id == Thumb16InstId::StrbReg,
        s.code.len() + 32 <= usize::MAX,
    ensures
        thumb16_is_right(s, inst, options, m),
{
    broadcast use {group_run, group_steps};

    reveal(thumb16_is_right);
}

proof fn t16_strhreg(s: EmitterState, inst: DecodedThumb16, options: TranslationOptions, m: Machine)
    requires
        inst.id == Thumb16InstId::StrhReg,
        s.code.len() + 32 <= usize::MAX,
    ensures
        thumb16_is_right(s, inst, options, m),
{
    broadcast use {group_run, group_steps};

    reveal(thumb16_is_right);
}

proof fn t16_ldrimmt1(
    s: EmitterState,
    inst: DecodedThumb16,
    options: TranslationOptions,
    m: Machine,
)
    requires
        inst.id == Thumb16InstId::LdrImmT1,
        s.code.len() + 32 <= usize::MAX,
    ensures
        thumb16_is_right(s, inst, options, m),
{
    broadcast use {group_run, group_steps};

    reveal(thumb16_is_right);
}

proof fn t16_ldrimmt2(
    s: EmitterState,
    inst: DecodedThumb16,
    options: TranslationOptions,
    m: Machine,
)
    requires
        inst.id == Thumb16InstId::LdrImmT2,
        s.code.len() + 32 <= usize::MAX,
    ensures
        thumb16_is_right(s, inst, options, m),
{
    broadcast use {group_run, group_steps};

    reveal(thumb16_is_right);
}

proof fn t16_ldrbimm(s: EmitterState, inst: DecodedThumb16, options: TranslationOptions, m: Machine)
    requires
        inst.id == Thumb16InstId::LdrbImm,
        s.code.len() + 32 <= usize::MAX,
    ensures
        thumb16_is_right(s, inst, options, m),
{
    broadcast use {group_run, group_steps};

    reveal(thumb16_is_right);
}

proof fn t16_ldrhimm(s: EmitterState, inst: DecodedThumb16, options: TranslationOptions, m: Machine)
    requires
        inst.id == Thumb16InstId::LdrhImm,
        s.code.len() + 32 <= usize::MAX,
    ensures
        thumb16_is_right(s, inst, options, m),
{
    broadcast use {group_run, group_steps};

    reveal(thumb16_is_right);
}

proof fn t16_strimmt1(
    s: EmitterState,
    inst: DecodedThumb16,
    options: TranslationOptions,
    m: Machine,
)
    requires
        inst.id == Thumb16InstId::StrImmT1,
        s.code.len() + 32 <= usize::MAX,
    ensures
        thumb16_is_right(s, inst, options, m),
{
    broadcast use {group_run, group_steps};

    reveal(thumb16_is_right);
}

proof fn t16_strimmt2(
    s: EmitterState,
    inst: DecodedThumb16,
    options: TranslationOptions,
    m: Machine,
)
    requires
        inst.id == Thumb16InstId::StrImmT2,
        s.code.len() + 32 <= usize::MAX,
    ensures
        thumb16_is_right(s, inst, options, m),
{
    broadcast use {group_run, group_steps};

    reveal(thumb16_is_right);
}

proof fn t16_strbimm(s: EmitterState, inst: DecodedThumb16, options: TranslationOptions, m: Machine)
    requires
        inst.id == Thumb16InstId::StrbImm,
        s.code.len() + 32 <= usize::MAX,
    ensures
        thumb16_is_right(s, inst, options, m),
{
    broadcast use {group_run, group_steps};

    reveal(thumb16_is_right);
}

proof fn t16_strhimm(s: EmitterState, inst: DecodedThumb16, options: TranslationOptions, m: Machine)
    requires
        inst.id == Thumb16InstId::StrhImm,
        s.code.len() + 32 <= usize::MAX,
    ensures
        thumb16_is_right(s, inst, options, m),
{
    broadcast use {group_run, group_steps};

    reveal(thumb16_is_right);
}

proof fn t16_ldrliteral(
    s: EmitterState,
    inst: DecodedThumb16,
    options: TranslationOptions,
    m: Machine,
)
    requires
        inst.id == Thumb16InstId::LdrLiteral,
        s.code.len() + 32 <= usize::MAX,
    ensures
        thumb16_is_right(s, inst, options, m),
{
    broadcast use {group_run, group_steps};

    reveal(thumb16_is_right);
}

/// 16-bit Thumb instructions compute, load and store what is documented.
pub proof fn thumb16_computes(
    s: EmitterState,
    inst: DecodedThumb16,
    options: TranslationOptions,
    m: Machine,
)
    requires
        documented_thumb16(s, run(s, m).machine, inst) is Some,
        s.code.len() + 32 <= usize::MAX,
    ensures
        thumb16_is_right(s, inst, options, m),
{
    match inst.id {
        Thumb16InstId::LslImm => t16_lslimm(s, inst, options, m),
        Thumb16InstId::LsrImm => t16_lsrimm(s, inst, options, m),
        Thumb16InstId::AsrImm => t16_asrimm(s, inst, options, m),
        Thumb16InstId::AddRegT1 => t16_addregt1(s, inst, options, m),
        Thumb16InstId::SubReg => t16_subreg(s, inst, options, m),
        Thumb16InstId::AddImmT1 => t16_addimmt1(s, inst, options, m),
        Thumb16InstId::SubImmT1 => t16_subimmt1(s, inst, options, m),
        Thumb16InstId::MovImm => t16_movimm(s, inst, options, m),
        Thumb16InstId::CmpImm => t16_cmpimm(s, inst, options, m),
        Thumb16InstId::AddImmT2 => t16_addimmt2(s, inst, options, m),
        Thumb16InstId::SubImmT2 => t16_subimmt2(s, inst, options, m),
        Thumb16InstId::AndReg => t16_andreg(s, inst, options, m),
        Thumb16InstId::EorReg => t16_eorreg(s, inst, options, m),
        Thumb16InstId::OrrReg => t16_orrreg(s, inst, options, m),
        Thumb16InstId::BicReg => t16_bicreg(s, inst, options, m),
        Thumb16InstId::MvnReg => t16_mvnreg(s, inst, options, m),
        Thumb16InstId::MulReg => t16_mulreg(s, inst, options, m),
        Thumb16InstId::TstReg => t16_tstreg(s, inst, options, m),
        Thumb16InstId::LslReg => t16_lslreg(s, inst, options, m),
        Thumb16InstId::LsrReg => t16_lsrreg(s, inst, options, m),
        Thumb16InstId::AsrReg => t16_asrreg(s, inst, options, m),
        Thumb16InstId::RorReg => t16_rorreg(s, inst, options, m),
        Thumb16InstId::AdcReg => t16_adcreg(s, inst, options, m),
        Thumb16InstId::SbcReg => t16_sbcreg(s, inst, options, m),
        Thumb16InstId::RsbImm => t16_rsbimm(s, inst, options, m),
        Thumb16InstId::CmpRegT1 => t16_cmpregt1(s, inst, options, m),
        Thumb16InstId::CmnReg => t16_cmnreg(s, inst, options, m),
        Thumb16InstId::CmpRegT2 => t16_cmpregt2(s, inst, options, m),
        Thumb16InstId::AddSpT1 => t16_addspt1(s, inst, options, m),
        Thumb16InstId::AddSpT2 => t16_addspt2(s, inst, options, m),
        Thumb16InstId::SubSp => t16_subsp(s, inst, options, m),
        Thumb16InstId::ADR => t16_adr(s, inst, options, m),
        Thumb16InstId::SXTH => t16_sxth(s, inst, options, m),
        Thumb16InstId::SXTB => t16_sxtb(s, inst, options, m),
        Thumb16InstId::UXTH => t16_uxth(s, inst, options, m),
        Thumb16InstId::UXTB => t16_uxtb(s, inst, options, m),
        Thumb16InstId::REV => t16_rev(s, inst, options, m),
        Thumb16InstId::LdrReg => t16_ldrreg(s, inst, options, m),
        Thumb16InstId::LdrbReg => t16_ldrbreg(s, inst, options, m),
        Thumb16InstId::LdrhReg => t16_ldrhreg(s, inst, options, m),
        Thumb16InstId::LdrsbReg => t16_ldrsbreg(s, inst, options, m),
        Thumb16InstId::LdrshReg => t16_ldrshreg(s, inst, options, m),
        Thumb16InstId::StrReg => t16_strreg(s, inst, options, m),
        Thumb16InstId::StrbReg => t16_strbreg(s, inst, options, m),
        Thumb16InstId::StrhReg => t16_strhreg(s, inst, options, m),
        Thumb16InstId::LdrImmT1 => t16_ldrimmt1(s, inst, options, m),
        Thumb16InstId::LdrImmT2 => t16_ldrimmt2(s, inst, options, m),
        Thumb16InstId::LdrbImm => t16_ldrbimm(s, inst, options, m),
        Thumb16InstId::LdrhImm => t16_ldrhimm(s, inst, options, m),
        Thumb16InstId::StrImmT1 => t16_strimmt1(s, inst, options, m),
        Thumb16InstId::StrImmT2 => t16_strimmt2(s, inst, options, m),
        Thumb16InstId::StrbImm => t16_strbimm(s, inst, options, m),
        Thumb16InstId::StrhImm => t16_strhimm(s, inst, options, m),
        Thumb16InstId::LdrLiteral => t16_ldrliteral(s, inst, options, m),
        _ => {},
    }
}

} // verus!
