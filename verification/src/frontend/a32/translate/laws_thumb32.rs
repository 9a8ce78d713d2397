//! What data processing instructions of 32-bit Thumb code compute.

use vstd::prelude::*;
use super::laws_alu::{
    carry_is_read, imm_shift_shifts, is_known, only_reads, register_is_read, Flagged,
};
use super::laws_thumb16::{
    borrowed_difference_of, carried_sum_of, difference_of, shifted_by_constant, sum_of,
};
use super::thumb32::translate_thumb32_ir;
use super::thumb32_data_processing_shifted_register::shifted_register_ir;
use super::{is_replicated, thumb_expanded_imm, unpredictable_ir, TranslationOptions};
use crate::frontend::a32::decoder_thumb32::{DecodedThumb32, Thumb32InstId};
use crate::frontend::a32::types::{reg, shift_type, Reg};
use crate::ir::a32_emitter::EmitterState;
use crate::ir::meaning::{group_run, operand, run, Flags, Machine};
use crate::ir::meaning_steps::group_steps;
use crate::ir::opcode::Opcode;

verus! {

broadcast use {crate::bits::and_le_mask, crate::bits::mask_twice};

/// Whether an instruction has an immediate as its second operand.
pub open spec fn t32_immediate(id: Thumb32InstId) -> bool {
    match id {
        Thumb32InstId::AND_imm | Thumb32InstId::BIC_imm | Thumb32InstId::ORR_imm
        | Thumb32InstId::ORN_imm | Thumb32InstId::EOR_imm | Thumb32InstId::MOV_imm
        | Thumb32InstId::MVN_imm | Thumb32InstId::TST_imm | Thumb32InstId::TEQ_imm
        | Thumb32InstId::ADD_imm_1 | Thumb32InstId::SUB_imm_1 | Thumb32InstId::ADC_imm
        | Thumb32InstId::SBC_imm | Thumb32InstId::RSB_imm | Thumb32InstId::CMN_imm
        | Thumb32InstId::CMP_imm => true,
        _ => false,
    }
}

/// Whether an instruction has a shifted register as its second operand.
pub open spec fn t32_register(id: Thumb32InstId) -> bool {
    match id {
        Thumb32InstId::AND_reg | Thumb32InstId::BIC_reg | Thumb32InstId::ORR_reg
        | Thumb32InstId::ORN_reg | Thumb32InstId::EOR_reg | Thumb32InstId::MOV_reg
        | Thumb32InstId::MVN_reg | Thumb32InstId::TST_reg | Thumb32InstId::TEQ_reg
        | Thumb32InstId::ADD_reg | Thumb32InstId::SUB_reg | Thumb32InstId::ADC_reg
        | Thumb32InstId::SBC_reg | Thumb32InstId::RSB_reg | Thumb32InstId::CMN_reg
        | Thumb32InstId::CMP_reg => true,
        _ => false,
    }
}

/// Whether an instruction only sets the flags.
pub open spec fn t32_compares(id: Thumb32InstId) -> bool {
    match id {
        Thumb32InstId::TST_imm | Thumb32InstId::TEQ_imm | Thumb32InstId::CMN_imm
        | Thumb32InstId::CMP_imm | Thumb32InstId::TST_reg | Thumb32InstId::TEQ_reg
        | Thumb32InstId::CMN_reg | Thumb32InstId::CMP_reg => true,
        _ => false,
    }
}

/// Whether an instruction has no first operand.
pub open spec fn t32_moves(id: Thumb32InstId) -> bool {
    match id {
        Thumb32InstId::MOV_imm | Thumb32InstId::MVN_imm | Thumb32InstId::MOV_reg
        | Thumb32InstId::MVN_reg => true,
        _ => false,
    }
}

/// The twelve bits of an immediate: bit 26, bits 14 to 12 and bits 7 to 0.
pub open spec fn t32_imm_bits(raw: u32) -> u32 {
    (((raw >> 26) & 1) * 0x800 + ((raw >> 12) & 7) * 0x100 + (raw & 0xFF)) as u32
}

/// The second operand and the carry of the shifter.
pub open spec fn t32_operand(m: Machine, inst: DecodedThumb32) -> (u32, bool) {
    let raw = inst.raw;
    if t32_immediate(inst.id) {
        let imm = thumb_expanded_imm(t32_imm_bits(raw));
        (
            imm,
            if is_replicated(t32_imm_bits(raw)) {
                m.flags.c
            } else {
                imm & 0x8000_0000 != 0
            },
        )
    } else {
        shifted_by_constant(
            shift_type((raw >> 4) & 3),
            m.regs[reg(raw & 0xF)],
            (((raw >> 12) & 7) * 4 + ((raw >> 6) & 3)) as u32,
            m.flags.c,
        )
    }
}

/// The result of an instruction with its carry and overflow flags.
pub open spec fn t32_result(
    id: Thumb32InstId,
    a: u32,
    b: u32,
    carry: bool,
    flags: Flags,
) -> Flagged {
    let c = flags.c;
    let logical = |word: u32| Flagged { word, c: carry, v: flags.v };
    match id {
        Thumb32InstId::AND_imm => logical(a & b),
        Thumb32InstId::BIC_imm => logical(a & !b),
        Thumb32InstId::ORR_imm => logical(a | b),
        Thumb32InstId::ORN_imm => logical(a | !b),
        Thumb32InstId::EOR_imm => logical(a ^ b),
        Thumb32InstId::MOV_imm => logical(b),
        Thumb32InstId::MVN_imm => logical(!b),
        Thumb32InstId::TST_imm => logical(a & b),
        Thumb32InstId::TEQ_imm => logical(a ^ b),
        Thumb32InstId::ADD_imm_1 => sum_of(a, b),
        Thumb32InstId::SUB_imm_1 => difference_of(a, b),
        Thumb32InstId::ADC_imm => carried_sum_of(a, b, c),
        Thumb32InstId::SBC_imm => borrowed_difference_of(a, b, c),
        Thumb32InstId::RSB_imm => difference_of(b, a),
        Thumb32InstId::CMN_imm => sum_of(a, b),
        Thumb32InstId::CMP_imm => difference_of(a, b),
        Thumb32InstId::AND_reg => logical(a & b),
        Thumb32InstId::BIC_reg => logical(a & !b),
        Thumb32InstId::ORR_reg => logical(a | b),
        Thumb32InstId::ORN_reg => logical(a | !b),
        Thumb32InstId::EOR_reg => logical(a ^ b),
        Thumb32InstId::MOV_reg => logical(b),
        Thumb32InstId::MVN_reg => logical(!b),
        Thumb32InstId::TST_reg => logical(a & b),
        Thumb32InstId::TEQ_reg => logical(a ^ b),
        Thumb32InstId::ADD_reg => sum_of(a, b),
        Thumb32InstId::SUB_reg => difference_of(a, b),
        Thumb32InstId::ADC_reg => carried_sum_of(a, b, c),
        Thumb32InstId::SBC_reg => borrowed_difference_of(a, b, c),
        Thumb32InstId::RSB_reg => difference_of(b, a),
        Thumb32InstId::CMN_reg => sum_of(a, b),
        Thumb32InstId::CMP_reg => difference_of(a, b),
        _ => arbitrary(),
    }
}

/// What is owed of the translation of an instruction: the destination gets the
/// result, the flags follow from it if bit 20 is set or the instruction only
/// compares, and nothing else changes. The program counter as an operand or
/// destination is unpredictable.
#[verifier::opaque]
pub open spec fn t32_is_right(
    s: EmitterState,
    inst: DecodedThumb32,
    options: TranslationOptions,
    m: Machine,
) -> bool {
    let r = translate_thumb32_ir(s, inst, options);
    let (before, after) = (run(s, m).machine, run(r.0, m).machine);
    let raw = inst.raw;
    let (rd, rn, rm) = (reg((raw >> 8) & 0xF), reg((raw >> 16) & 0xF), reg(raw & 0xF));
    let (b, carry) = t32_operand(before, inst);
    let x = t32_result(inst.id, before.regs[rn], b, carry, before.flags);
    let flags = if t32_compares(inst.id) || raw & 0x10_0000 != 0 {
        Flags { n: x.word >= 0x8000_0000, z: x.word == 0, c: x.c, v: x.v }
    } else {
        before.flags
    };
    let unpredictable = (!t32_compares(inst.id) && rd == Reg::R15) || (!t32_moves(inst.id) && rn
        == Reg::R15) || (t32_register(inst.id) && rm == Reg::R15);
    if unpredictable {
        r == unpredictable_ir(s)
    } else {
        &&& r.1
        &&& after == (Machine {
            regs: if t32_compares(inst.id) {
                before.regs
            } else {
                before.regs.insert(rd, x.word)
            },
            flags,
            ..before
        })
    }
}

proof fn t32_register_is_shifted(s: EmitterState, inst: DecodedThumb32, m: Machine)
    requires
        t32_register(inst.id),
        inst.rm() != Reg::R15,
        s.code.len() + 32 <= usize::MAX,
    ensures
        ({
            let (t, (x, carry)) = shifted_register_ir(s, inst);
            let (b, c) = t32_operand(run(s, m).machine, inst);
            &&& only_reads(s, t, m)
            &&& t.code.len() <= s.code.len() + 4
            &&& is_known(t, x)
            &&& is_known(t, carry)
            &&& operand(run(t, m), x).word == b
            &&& operand(run(t, m), carry).bit == c
        }),
{
    let (shift, amount) = inst.shift_type_amount();
    let (s1, v) = s.get_register(inst.rm());
    register_is_read(s, inst.rm(), m);
    let (s2, c) = s1.op0(Opcode::A32GetCFlag);
    carry_is_read(s1, m);
    imm_shift_shifts(s2, v, shift, amount, c, m);
}

proof fn t32_and_imm(s: EmitterState, inst: DecodedThumb32, options: TranslationOptions, m: Machine)
    requires
        inst.id == Thumb32InstId::AND_imm,
        s.code.len() + 32 <= usize::MAX,
    ensures
        t32_is_right(s, inst, options, m),
{
    broadcast use {group_run, group_steps};

    reveal(t32_is_right);
    same_immediate_bits(inst);
}

proof fn t32_bic_imm(s: EmitterState, inst: DecodedThumb32, options: TranslationOptions, m: Machine)
    requires
        inst.id == Thumb32InstId::BIC_imm,
        s.code.len() + 32 <= usize::MAX,
    ensures
        t32_is_right(s, inst, options, m),
{
    broadcast use {group_run, group_steps};

    reveal(t32_is_right);
    same_immediate_bits(inst);
}

proof fn t32_orr_imm(s: EmitterState, inst: DecodedThumb32, options: TranslationOptions, m: Machine)
    requires
        inst.id == Thumb32InstId::ORR_imm,
        s.code.len() + 32 <= usize::MAX,
    ensures
        t32_is_right(s, inst, options, m),
{
    broadcast use {group_run, group_steps};

    reveal(t32_is_right);
    same_immediate_bits(inst);
}

proof fn t32_orn_imm(s: EmitterState, inst: DecodedThumb32, options: TranslationOptions, m: Machine)
    requires
        inst.id == Thumb32InstId::ORN_imm,
        s.code.len() + 32 <= usize::MAX,
    ensures
        t32_is_right(s, inst, options, m),
{
    broadcast use {group_run, group_steps};

    reveal(t32_is_right);
    same_immediate_bits(inst);
}

proof fn t32_eor_imm(s: EmitterState, inst: DecodedThumb32, options: TranslationOptions, m: Machine)
    requires
        inst.id == Thumb32InstId::EOR_imm,
        s.code.len() + 32 <= usize::MAX,
    ensures
        t32_is_right(s, inst, options, m),
{
    broadcast use {group_run, group_steps};

    reveal(t32_is_right);
    same_immediate_bits(inst);
}

proof fn t32_mov_imm(s: EmitterState, inst: DecodedThumb32, options: TranslationOptions, m: Machine)
    requires
        inst.id == Thumb32InstId::MOV_imm,
        s.code.len() + 32 <= usize::MAX,
    ensures
        t32_is_right(s, inst, options, m),
{
    broadcast use {group_run, group_steps};

    reveal(t32_is_right);
    same_immediate_bits(inst);
}

proof fn t32_mvn_imm(s: EmitterState, inst: DecodedThumb32, options: TranslationOptions, m: Machine)
    requires
        inst.id == Thumb32InstId::MVN_imm,
        s.code.len() + 32 <= usize::MAX,
    ensures
        t32_is_right(s, inst, options, m),
{
    broadcast use {group_run, group_steps};

    reveal(t32_is_right);
    same_immediate_bits(inst);
}

proof fn t32_tst_imm(s: EmitterState, inst: DecodedThumb32, options: TranslationOptions, m: Machine)
    requires
        inst.id == Thumb32InstId::TST_imm,
        s.code.len() + 32 <= usize::MAX,
    ensures
        t32_is_right(s, inst, options, m),
{
    broadcast use {group_run, group_steps};

    reveal(t32_is_right);
    same_immediate_bits(inst);
}

proof fn t32_teq_imm(s: EmitterState, inst: DecodedThumb32, options: TranslationOptions, m: Machine)
    requires
        inst.id == Thumb32InstId::TEQ_imm,
        s.code.len() + 32 <= usize::MAX,
    ensures
        t32_is_right(s, inst, options, m),
{
    broadcast use {group_run, group_steps};

    reveal(t32_is_right);
    same_immediate_bits(inst);
}

proof fn t32_add_imm_1(
    s: EmitterState,
    inst: DecodedThumb32,
    options: TranslationOptions,
    m: Machine,
)
    requires
        inst.id == Thumb32InstId::ADD_imm_1,
        s.code.len() + 32 <= usize::MAX,
    ensures
        t32_is_right(s, inst, options, m),
{
    broadcast use {group_run, group_steps};

    reveal(t32_is_right);
    same_immediate_bits(inst);
}

proof fn t32_sub_imm_1(
    s: EmitterState,
    inst: DecodedThumb32,
    options: TranslationOptions,
    m: Machine,
)
    requires
        inst.id == Thumb32InstId::SUB_imm_1,
        s.code.len() + 32 <= usize::MAX,
    ensures
        t32_is_right(s, inst, options, m),
{
    broadcast use {group_run, group_steps};

    reveal(t32_is_right);
    same_immediate_bits(inst);
}

proof fn t32_adc_imm(s: EmitterState, inst: DecodedThumb32, options: TranslationOptions, m: Machine)
    requires
        inst.id == Thumb32InstId::ADC_imm,
        s.code.len() + 32 <= usize::MAX,
    ensures
        t32_is_right(s, inst, options, m),
{
    broadcast use {group_run, group_steps};

    reveal(t32_is_right);
    same_immediate_bits(inst);
}

proof fn t32_sbc_imm(s: EmitterState, inst: DecodedThumb32, options: TranslationOptions, m: Machine)
    requires
        inst.id == Thumb32InstId::SBC_imm,
        s.code.len() + 32 <= usize::MAX,
    ensures
        t32_is_right(s, inst, options, m),
{
    broadcast use {group_run, group_steps};

    reveal(t32_is_right);
    same_immediate_bits(inst);
}

proof fn t32_rsb_imm(s: EmitterState, inst: DecodedThumb32, options: TranslationOptions, m: Machine)
    requires
        inst.id == Thumb32InstId::RSB_imm,
        s.code.len() + 32 <= usize::MAX,
    ensures
        t32_is_right(s, inst, options, m),
{
    broadcast use {group_run, group_steps};

    reveal(t32_is_right);
    same_immediate_bits(inst);
}

proof fn t32_cmn_imm(s: EmitterState, inst: DecodedThumb32, options: TranslationOptions, m: Machine)
    requires
        inst.id == Thumb32InstId::CMN_imm,
        s.code.len() + 32 <= usize::MAX,
    ensures
        t32_is_right(s, inst, options, m),
{
    broadcast use {group_run, group_steps};

    reveal(t32_is_right);
    same_immediate_bits(inst);
}

proof fn t32_cmp_imm(s: EmitterState, inst: DecodedThumb32, options: TranslationOptions, m: Machine)
    requires
        inst.id == Thumb32InstId::CMP_imm,
        s.code.len() + 32 <= usize::MAX,
    ensures
        t32_is_right(s, inst, options, m),
{
    broadcast use {group_run, group_steps};

    reveal(t32_is_right);
    same_immediate_bits(inst);
}

proof fn t32_and_reg(s: EmitterState, inst: DecodedThumb32, options: TranslationOptions, m: Machine)
    requires
        inst.id == Thumb32InstId::AND_reg,
        s.code.len() + 32 <= usize::MAX,
    ensures
        t32_is_right(s, inst, options, m),
{
    reveal(t32_is_right);
    if inst.rm() != Reg::R15 {
        t32_register_is_shifted(s, inst, m);
        let t = shifted_register_ir(s, inst).0;
        register_is_read(t, inst.rn(), m);
        assert(t32_is_right(s, inst, options, m)) by {
            broadcast use {group_run, group_steps};

        }
    }
}

proof fn t32_bic_reg(s: EmitterState, inst: DecodedThumb32, options: TranslationOptions, m: Machine)
    requires
        inst.id == Thumb32InstId::BIC_reg,
        s.code.len() + 32 <= usize::MAX,
    ensures
        t32_is_right(s, inst, options, m),
{
    reveal(t32_is_right);
    if inst.rm() != Reg::R15 {
        t32_register_is_shifted(s, inst, m);
        let t = shifted_register_ir(s, inst).0;
        register_is_read(t, inst.rn(), m);
        assert(t32_is_right(s, inst, options, m)) by {
            broadcast use {group_run, group_steps};

        }
    }
}

proof fn t32_orr_reg(s: EmitterState, inst: DecodedThumb32, options: TranslationOptions, m: Machine)
    requires
        inst.id == Thumb32InstId::ORR_reg,
        s.code.len() + 32 <= usize::MAX,
    ensures
        t32_is_right(s, inst, options, m),
{
    reveal(t32_is_right);
    if inst.rm() != Reg::R15 {
        t32_register_is_shifted(s, inst, m);
        let t = shifted_register_ir(s, inst).0;
        register_is_read(t, inst.rn(), m);
        assert(t32_is_right(s, inst, options, m)) by {
            broadcast use {group_run, group_steps};

        }
    }
}

proof fn t32_orn_reg(s: EmitterState, inst: DecodedThumb32, options: TranslationOptions, m: Machine)
    requires
        inst.id == Thumb32InstId::ORN_reg,
        s.code.len() + 32 <= usize::MAX,
    ensures
        t32_is_right(s, inst, options, m),
{
    reveal(t32_is_right);
    if inst.rm() != Reg::R15 {
        t32_register_is_shifted(s, inst, m);
        let t = shifted_register_ir(s, inst).0;
        register_is_read(t, inst.rn(), m);
        assert(t32_is_right(s, inst, options, m)) by {
            broadcast use {group_run, group_steps};

        }
    }
}

proof fn t32_eor_reg(s: EmitterState, inst: DecodedThumb32, options: TranslationOptions, m: Machine)
    requires
        inst.id == Thumb32InstId::EOR_reg,
        s.code.len() + 32 <= usize::MAX,
    ensures
        t32_is_right(s, inst, options, m),
{
    reveal(t32_is_right);
    if inst.rm() != Reg::R15 {
        t32_register_is_shifted(s, inst, m);
        let t = shifted_register_ir(s, inst).0;
        register_is_read(t, inst.rn(), m);
        assert(t32_is_right(s, inst, options, m)) by {
            broadcast use {group_run, group_steps};

        }
    }
}

proof fn t32_mov_reg(s: EmitterState, inst: DecodedThumb32, options: TranslationOptions, m: Machine)
    requires
        inst.id == Thumb32InstId::MOV_reg,
        s.code.len() + 32 <= usize::MAX,
    ensures
        t32_is_right(s, inst, options, m),
{
    reveal(t32_is_right);
    if inst.rm() != Reg::R15 {
        t32_register_is_shifted(s, inst, m);
        let t = shifted_register_ir(s, inst).0;
        register_is_read(t, inst.rn(), m);
        assert(t32_is_right(s, inst, options, m)) by {
            broadcast use {group_run, group_steps};

        }
    }
}

proof fn t32_mvn_reg(s: EmitterState, inst: DecodedThumb32, options: TranslationOptions, m: Machine)
    requires
        inst.id == Thumb32InstId::MVN_reg,
        s.code.len() + 32 <= usize::MAX,
    ensures
        t32_is_right(s, inst, options, m),
{
    reveal(t32_is_right);
    if inst.rm() != Reg::R15 {
        t32_register_is_shifted(s, inst, m);
        let t = shifted_register_ir(s, inst).0;
        register_is_read(t, inst.rn(), m);
        assert(t32_is_right(s, inst, options, m)) by {
            broadcast use {group_run, group_steps};

        }
    }
}

proof fn t32_tst_reg(s: EmitterState, inst: DecodedThumb32, options: TranslationOptions, m: Machine)
    requires
        inst.id == Thumb32InstId::TST_reg,
        s.code.len() + 32 <= usize::MAX,
    ensures
        t32_is_right(s, inst, options, m),
{
    reveal(t32_is_right);
    if inst.rm() != Reg::R15 {
        t32_register_is_shifted(s, inst, m);
        let t = shifted_register_ir(s, inst).0;
        register_is_read(t, inst.rn(), m);
        assert(t32_is_right(s, inst, options, m)) by {
            broadcast use {group_run, group_steps};

        }
    }
}

proof fn t32_teq_reg(s: EmitterState, inst: DecodedThumb32, options: TranslationOptions, m: Machine)
    requires
        inst.id == Thumb32InstId::TEQ_reg,
        s.code.len() + 32 <= usize::MAX,
    ensures
        t32_is_right(s, inst, options, m),
{
    reveal(t32_is_right);
    if inst.rm() != Reg::R15 {
        t32_register_is_shifted(s, inst, m);
        let t = shifted_register_ir(s, inst).0;
        register_is_read(t, inst.rn(), m);
        assert(t32_is_right(s, inst, options, m)) by {
            broadcast use {group_run, group_steps};

        }
    }
}

proof fn t32_add_reg(s: EmitterState, inst: DecodedThumb32, options: TranslationOptions, m: Machine)
    requires
        inst.id == Thumb32InstId::ADD_reg,
        s.code.len() + 32 <= usize::MAX,
    ensures
        t32_is_right(s, inst, options, m),
{
    reveal(t32_is_right);
    if inst.rm() != Reg::R15 {
        t32_register_is_shifted(s, inst, m);
        let t = shifted_register_ir(s, inst).0;
        register_is_read(t, inst.rn(), m);
        assert(t32_is_right(s, inst, options, m)) by {
            broadcast use {group_run, group_steps};

        }
    }
}

proof fn t32_sub_reg(s: EmitterState, inst: DecodedThumb32, options: TranslationOptions, m: Machine)
    requires
        inst.id == Thumb32InstId::SUB_reg,
        s.code.len() + 32 <= usize::MAX,
    ensures
        t32_is_right(s, inst, options, m),
{
    reveal(t32_is_right);
    if inst.rm() != Reg::R15 {
        t32_register_is_shifted(s, inst, m);
        let t = shifted_register_ir(s, inst).0;
        register_is_read(t, inst.rn(), m);
        assert(t32_is_right(s, inst, options, m)) by {
            broadcast use {group_run, group_steps};

        }
    }
}

proof fn t32_adc_reg(s: EmitterState, inst: DecodedThumb32, options: TranslationOptions, m: Machine)
    requires
        inst.id == Thumb32InstId::ADC_reg,
        s.code.len() + 32 <= usize::MAX,
    ensures
        t32_is_right(s, inst, options, m),
{
    reveal(t32_is_right);
    if inst.rm() != Reg::R15 {
        t32_register_is_shifted(s, inst, m);
        let t = shifted_register_ir(s, inst).0;
        register_is_read(t, inst.rn(), m);
        assert(t32_is_right(s, inst, options, m)) by {
            broadcast use {group_run, group_steps};

        }
    }
}

proof fn t32_sbc_reg(s: EmitterState, inst: DecodedThumb32, options: TranslationOptions, m: Machine)
    requires
        inst.id == Thumb32InstId::SBC_reg,
        s.code.len() + 32 <= usize::MAX,
    ensures
        t32_is_right(s, inst, options, m),
{
    reveal(t32_is_right);
    if inst.rm() != Reg::R15 {
        t32_register_is_shifted(s, inst, m);
        let t = shifted_register_ir(s, inst).0;
        register_is_read(t, inst.rn(), m);
        assert(t32_is_right(s, inst, options, m)) by {
            broadcast use {group_run, group_steps};

        }
    }
}

proof fn t32_rsb_reg(s: EmitterState, inst: DecodedThumb32, options: TranslationOptions, m: Machine)
    requires
        inst.id == Thumb32InstId::RSB_reg,
        s.code.len() + 32 <= usize::MAX,
    ensures
        t32_is_right(s, inst, options, m),
{
    reveal(t32_is_right);
    if inst.rm() != Reg::R15 {
        t32_register_is_shifted(s, inst, m);
        let t = shifted_register_ir(s, inst).0;
        register_is_read(t, inst.rn(), m);
        assert(t32_is_right(s, inst, options, m)) by {
            broadcast use {group_run, group_steps};

        }
    }
}

proof fn t32_cmn_reg(s: EmitterState, inst: DecodedThumb32, options: TranslationOptions, m: Machine)
    requires
        inst.id == Thumb32InstId::CMN_reg,
        s.code.len() + 32 <= usize::MAX,
    ensures
        t32_is_right(s, inst, options, m),
{
    reveal(t32_is_right);
    if inst.rm() != Reg::R15 {
        t32_register_is_shifted(s, inst, m);
        let t = shifted_register_ir(s, inst).0;
        register_is_read(t, inst.rn(), m);
        assert(t32_is_right(s, inst, options, m)) by {
            broadcast use {group_run, group_steps};

        }
    }
}

proof fn t32_cmp_reg(s: EmitterState, inst: DecodedThumb32, options: TranslationOptions, m: Machine)
    requires
        inst.id == Thumb32InstId::CMP_reg,
        s.code.len() + 32 <= usize::MAX,
    ensures
        t32_is_right(s, inst, options, m),
{
    reveal(t32_is_right);
    if inst.rm() != Reg::R15 {
        t32_register_is_shifted(s, inst, m);
        let t = shifted_register_ir(s, inst).0;
        register_is_read(t, inst.rn(), m);
        assert(t32_is_right(s, inst, options, m)) by {
            broadcast use {group_run, group_steps};

        }
    }
}

proof fn same_immediate_bits(inst: DecodedThumb32)
    ensures
        inst.thumb_expand_imm_bits() == t32_imm_bits(inst.raw),
{
}

/// Data processing instructions of 32-bit Thumb code compute what they are
/// documented to compute.
pub proof fn thumb32_data_processing_computes(
    s: EmitterState,
    inst: DecodedThumb32,
    options: TranslationOptions,
    m: Machine,
)
    requires
        t32_immediate(inst.id) || t32_register(inst.id),
        s.code.len() + 32 <= usize::MAX,
    ensures
        t32_is_right(s, inst, options, m),
{
    match inst.id {
        Thumb32InstId::AND_imm => t32_and_imm(s, inst, options, m),
        Thumb32InstId::BIC_imm => t32_bic_imm(s, inst, options, m),
        Thumb32InstId::ORR_imm => t32_orr_imm(s, inst, options, m),
        Thumb32InstId::ORN_imm => t32_orn_imm(s, inst, options, m),
        Thumb32InstId::EOR_imm => t32_eor_imm(s, inst, options, m),
        Thumb32InstId::MOV_imm => t32_mov_imm(s, inst, options, m),
        Thumb32InstId::MVN_imm => t32_mvn_imm(s, inst, options, m),
        Thumb32InstId::TST_imm => t32_tst_imm(s, inst, options, m),
        Thumb32InstId::TEQ_imm => t32_teq_imm(s, inst, options, m),
        Thumb32InstId::ADD_imm_1 => t32_add_imm_1(s, inst, options, m),
        Thumb32InstId::SUB_imm_1 => t32_sub_imm_1(s, inst, options, m),
        Thumb32InstId::ADC_imm => t32_adc_imm(s, inst, options, m),
        Thumb32InstId::SBC_imm => t32_sbc_imm(s, inst, options, m),
        Thumb32InstId::RSB_imm => t32_rsb_imm(s, inst, options, m),
        Thumb32InstId::CMN_imm => t32_cmn_imm(s, inst, options, m),
        Thumb32InstId::CMP_imm => t32_cmp_imm(s, inst, options, m),
        Thumb32InstId::AND_reg => t32_and_reg(s, inst, options, m),
        Thumb32InstId::BIC_reg => t32_bic_reg(s, inst, options, m),
        Thumb32InstId::ORR_reg => t32_orr_reg(s, inst, options, m),
        Thumb32InstId::ORN_reg => t32_orn_reg(s, inst, options, m),
        Thumb32InstId::EOR_reg => t32_eor_reg(s, inst, options, m),
        Thumb32InstId::MOV_reg => t32_mov_reg(s, inst, options, m),
        Thumb32InstId::MVN_reg => t32_mvn_reg(s, inst, options, m),
        Thumb32InstId::TST_reg => t32_tst_reg(s, inst, options, m),
        Thumb32InstId::TEQ_reg => t32_teq_reg(s, inst, options, m),
        Thumb32InstId::ADD_reg => t32_add_reg(s, inst, options, m),
        Thumb32InstId::SUB_reg => t32_sub_reg(s, inst, options, m),
        Thumb32InstId::ADC_reg => t32_adc_reg(s, inst, options, m),
        Thumb32InstId::SBC_reg => t32_sbc_reg(s, inst, options, m),
        Thumb32InstId::RSB_reg => t32_rsb_reg(s, inst, options, m),
        Thumb32InstId::CMN_reg => t32_cmn_reg(s, inst, options, m),
        Thumb32InstId::CMP_reg => t32_cmp_reg(s, inst, options, m),
        _ => {},
    }
}

} // verus!
