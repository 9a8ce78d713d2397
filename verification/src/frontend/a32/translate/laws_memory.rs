//! What loads and stores of ARM code do to registers and memory.

use vstd::prelude::*;
use super::arm_dispatch::{arm_memory_ir, translate_arm_instruction_ir};
use super::helpers::Width;
use super::laws_alu::{
    carry_is_read, imm_shift_shifts, is_known, only_reads, register_is_read, register_read,
};
use super::load_store::{
    indexed_ir, literal_address, load_imm_ir, load_ir, load_literal_ir, load_reg_ir,
    load_shifted_ir, shifted_offset_ir, split_imm8, store_imm_ir, store_ir, store_reg_ir,
    store_shifted_ir,
};
use super::{unpredictable_ir, TranslationOptions};
use crate::frontend::a32::decoder::{ArmInstId, DecodedArm};
use crate::frontend::a32::types::{reg, shift_type, Reg, ShiftType};
use crate::ir::a32_emitter::EmitterState;
use crate::ir::meaning::{
    as_word, group_run, operand, reversed_half, reversed_word, run, shifted_word,
    turned_through_carry, Access, Machine,
};
use crate::ir::meaning_steps::group_steps;
use crate::ir::opcode::Opcode;
use crate::ir::value::Value;

verus! {

broadcast use crate::bits::and_le_mask;

/// Whether an instruction loads a register from memory.
pub open spec fn is_load(id: ArmInstId) -> bool {
    match id {
        ArmInstId::LDR_imm | ArmInstId::LDR_reg | ArmInstId::LDR_lit
        | ArmInstId::LDRB_imm | ArmInstId::LDRB_reg | ArmInstId::LDRB_lit
        | ArmInstId::LDRH_imm | ArmInstId::LDRH_reg | ArmInstId::LDRH_lit
        | ArmInstId::LDRSB_imm | ArmInstId::LDRSB_reg | ArmInstId::LDRSB_lit
        | ArmInstId::LDRSH_imm | ArmInstId::LDRSH_reg | ArmInstId::LDRSH_lit => true,
        _ => false,
    }
}

/// Whether an instruction stores a register to memory.
pub open spec fn is_store(id: ArmInstId) -> bool {
    match id {
        ArmInstId::STR_imm | ArmInstId::STR_reg | ArmInstId::STRB_imm
        | ArmInstId::STRB_reg | ArmInstId::STRH_imm | ArmInstId::STRH_reg => true,
        _ => false,
    }
}

/// Whether an instruction loads a literal near the program counter.
pub open spec fn is_literal(id: ArmInstId) -> bool {
    match id {
        ArmInstId::LDR_lit | ArmInstId::LDRB_lit | ArmInstId::LDRH_lit
        | ArmInstId::LDRSB_lit | ArmInstId::LDRSH_lit => true,
        _ => false,
    }
}

/// Whether an instruction has an offset of twelve bits.
pub open spec fn has_imm12(id: ArmInstId) -> bool {
    match id {
        ArmInstId::LDR_imm | ArmInstId::LDR_lit | ArmInstId::STR_imm
        | ArmInstId::LDRB_imm | ArmInstId::LDRB_lit | ArmInstId::STRB_imm => true,
        _ => false,
    }
}

/// Whether an instruction has an offset of eight bits in two parts.
pub open spec fn has_imm8(id: ArmInstId) -> bool {
    match id {
        ArmInstId::LDRH_imm | ArmInstId::LDRH_lit | ArmInstId::STRH_imm
        | ArmInstId::LDRSB_imm | ArmInstId::LDRSB_lit | ArmInstId::LDRSH_imm
        | ArmInstId::LDRSH_lit => true,
        _ => false,
    }
}

/// Whether an instruction has a shifted register as its offset.
pub open spec fn has_shifted_offset(id: ArmInstId) -> bool {
    match id {
        ArmInstId::LDR_reg | ArmInstId::STR_reg | ArmInstId::LDRB_reg
        | ArmInstId::STRB_reg => true,
        _ => false,
    }
}

/// Whether an instruction extends the sign of what it loads.
pub open spec fn is_sign_extending(id: ArmInstId) -> bool {
    match id {
        ArmInstId::LDRSB_imm | ArmInstId::LDRSB_reg | ArmInstId::LDRSB_lit
        | ArmInstId::LDRSH_imm | ArmInstId::LDRSH_reg | ArmInstId::LDRSH_lit => true,
        _ => false,
    }
}

/// The number of bits that an instruction loads or stores.
pub open spec fn access_bits(id: ArmInstId) -> int {
    match id {
        ArmInstId::LDRB_imm | ArmInstId::LDRB_reg | ArmInstId::LDRB_lit
        | ArmInstId::STRB_imm | ArmInstId::STRB_reg | ArmInstId::LDRSB_imm
        | ArmInstId::LDRSB_reg | ArmInstId::LDRSB_lit => 8,
        ArmInstId::LDRH_imm | ArmInstId::LDRH_reg | ArmInstId::LDRH_lit
        | ArmInstId::STRH_imm | ArmInstId::STRH_reg | ArmInstId::LDRSH_imm
        | ArmInstId::LDRSH_reg | ArmInstId::LDRSH_lit => 16,
        _ => 32,
    }
}

/// The offset of a load or store.
pub open spec fn documented_offset(s: EmitterState, m: Machine, inst: DecodedArm) -> u32 {
    let raw = inst.raw;
    let rm = register_read(s, m, reg(raw & 0xF));
    let (shift, places) = (shift_type((raw >> 5) & 3), (raw >> 7) & 0x1F);
    if has_imm12(inst.id) {
        raw & 0xFFF
    } else if has_imm8(inst.id) {
        (((raw >> 8) & 0xF) * 16 + (raw & 0xF)) as u32
    } else if !has_shifted_offset(inst.id) {
        rm
    } else if places != 0 || shift == ShiftType::LSL {
        shifted_word(shift, rm, places, m.flags.c).0
    } else if shift == ShiftType::ROR {
        turned_through_carry(rm, m.flags.c).0
    } else {
        shifted_word(shift, rm, 32, m.flags.c).0
    }
}

/// The word that `bits` bits read from memory stand for, in the byte order of
/// the guest, with or without sign.
pub open spec fn loaded(bits: int, sign_extends: bool, big_endian: bool, x: u64) -> u32 {
    let x = x as u32;
    if bits == 8 {
        let byte = x & 0xFF;
        if sign_extends && byte >= 0x80 {
            as_word(byte - 0x100)
        } else {
            byte
        }
    } else if bits == 16 {
        let half = (if big_endian {
            reversed_half(x)
        } else {
            x
        }) & 0xFFFF;
        if sign_extends && half >= 0x8000 {
            as_word(half - 0x1_0000)
        } else {
            half
        }
    } else if big_endian {
        reversed_word(x)
    } else {
        x
    }
}

/// What is written to memory of a word, in the byte order of the guest.
pub open spec fn stored(bits: int, big_endian: bool, x: u32) -> u64 {
    if bits == 8 {
        (x & 0xFF) as u64
    } else if bits == 16 {
        (if big_endian {
            reversed_half(x & 0xFFFF)
        } else {
            x & 0xFFFF
        }) as u64
    } else if big_endian {
        reversed_word(x) as u64
    } else {
        x as u64
    }
}

/// The base register moved up by the offset if `up` is set, else down.
pub open spec fn moved_base(base: u32, up: bool, offset: u32) -> u32 {
    as_word(
        if up {
            base + offset
        } else {
            base - offset
        },
    )
}

/// The registers after the address of an access was computed: post-indexed
/// accesses (bit 24 clear) and those with bit 21 set write the moved base back.
pub open spec fn written_back(regs: Map<Reg, u32>, raw: u32, rn: Reg, moved: u32) -> Map<Reg, u32> {
    if raw & 0x100_0000 == 0 || raw & 0x20_0000 != 0 {
        regs.insert(rn, moved)
    } else {
        regs
    }
}

/// The address of an access: a pre-indexed access (bit 24 set) is at the moved
/// base, a post-indexed one at the base itself.
pub open spec fn accessed_address(raw: u32, base: u32, moved: u32) -> u32 {
    if raw & 0x100_0000 != 0 {
        moved
    } else {
        base
    }
}

/// What a load does: one access at the address, and the destination gets what
/// is there, after the base was written back.
pub open spec fn loads(
    before: Machine,
    after: Machine,
    regs: Map<Reg, u32>,
    rt: Reg,
    bits: int,
    address: u32,
    sign_extends: bool,
    big_endian: bool,
) -> bool {
    after == (Machine {
        regs: regs.insert(
            rt,
            loaded(bits, sign_extends, big_endian, before.memory[(bits, address)]),
        ),
        accesses: before.accesses.push(Access { write: false, bits, address, value: 0 }),
        ..before
    })
}

/// What a store does: one access at the address with the value of the
/// register, after the base was written back.
pub open spec fn stores(
    s: EmitterState,
    before: Machine,
    after: Machine,
    regs: Map<Reg, u32>,
    rt: Reg,
    bits: int,
    address: u32,
) -> bool {
    let value = register_read(s, Machine { regs, ..before }, rt);
    after == (Machine {
        regs,
        accesses: before.accesses.push(
            Access { write: true, bits, address, value: stored(bits, s.loc.cpsr.e, value) },
        ),
        ..before
    })
}

/// Whether the registers of a load or store are unpredictable: a base that is
/// also loaded or is the program counter may not be written back, offsets may
/// not come from the program counter, and only words may be loaded to it.
/// Loads of literals have no base.
pub open spec fn registers_unpredictable(inst: DecodedArm) -> bool {
    let raw = inst.raw;
    let (rt, rn) = (reg((raw >> 12) & 0xF), reg((raw >> 16) & 0xF));
    let writes_back = raw & 0x100_0000 == 0 || raw & 0x20_0000 != 0;
    let has_imm = has_imm12(inst.id) || has_imm8(inst.id);
    if is_store(inst.id) {
        false
    } else if is_literal(inst.id) {
        (rt == Reg::R15 && access_bits(inst.id) != 32) || (inst.id == ArmInstId::LDRH_lit && (raw
            & 0x100_0000 != 0) == (raw & 0x20_0000 != 0))
    } else {
        ||| rt == Reg::R15 && access_bits(inst.id) != 32
        ||| writes_back && (rn == rt || rn == Reg::R15)
        ||| has_imm && rn == Reg::R15
        ||| !has_imm && reg(raw & 0xF) == Reg::R15
    }
}

/// What is owed of the translation of a load or store.
pub open spec fn access_is_right(
    s: EmitterState,
    inst: DecodedArm,
    r: (EmitterState, bool),
    m: Machine,
) -> bool {
    let (before, after) = (run(s, m).machine, run(r.0, m).machine);
    let (raw, bits) = (inst.raw, access_bits(inst.id));
    let (rt, rn) = (reg((raw >> 12) & 0xF), reg((raw >> 16) & 0xF));
    let up = raw & 0x80_0000 != 0;
    let base = register_read(s, before, rn);
    let moved = moved_base(base, up, documented_offset(s, before, inst));
    let address = accessed_address(raw, base, moved);
    let regs = written_back(before.regs, raw, rn, moved);
    let literal = moved_base(
        register_read(s, before, Reg::R15) & 0xFFFF_FFFC,
        up,
        documented_offset(s, before, inst),
    );
    let sign = is_sign_extending(inst.id);
    if registers_unpredictable(inst) {
        r == unpredictable_ir(s)
    } else if is_literal(inst.id) {
        &&& r.1 == (rt != Reg::R15)
        &&& loads(before, after, before.regs, rt, bits, literal, sign, s.loc.cpsr.e)
    } else if is_load(inst.id) {
        &&& r.1 == (rt != Reg::R15)
        &&& loads(before, after, regs, rt, bits, address, sign, s.loc.cpsr.e)
    } else {
        &&& r.1
        &&& stores(s, before, after, regs, rt, bits, address)
    }
}

/// Computing an address writes the moved base back and gives the moved base
/// or, for a post-indexed access, the base itself.
pub proof fn address_is_indexed(s: EmitterState, inst: DecodedArm, offset: Value, m: Machine)
    requires
        is_known(s, offset),
        s.code.len() + 8 <= usize::MAX,
    ensures
        ({
            let before = run(s, m).machine;
            let rn = reg((inst.raw >> 16) & 0xF);
            let base = register_read(s, before, rn);
            let moved = moved_base(
                base,
                inst.raw & 0x80_0000 != 0,
                operand(run(s, m), offset).word,
            );
            let (t, v) = indexed_ir(s, inst, offset);
            &&& t.loc == s.loc
            &&& s.code.len() <= t.code.len() <= s.code.len() + 3
            &&& is_known(t, v)
            &&& operand(run(t, m), v).word == accessed_address(inst.raw, base, moved)
            &&& run(t, m).machine == (Machine {
                regs: written_back(before.regs, inst.raw, rn, moved),
                ..before
            })
        }),
{
    broadcast use {group_run, group_steps};

}

/// The number of bits of an access.
pub open spec fn width_bits(width: Width) -> int {
    match width {
        Width::Byte => 8,
        Width::Half => 16,
        Width::Word => 32,
    }
}

/// Loading a register from an address.
pub proof fn load_loads(
    s: EmitterState,
    rt: Reg,
    address: Value,
    width: Width,
    sign: bool,
    m: Machine,
)
    requires
        is_known(s, address),
        s.code.len() + 8 <= usize::MAX,
    ensures
        ({
            let r = load_ir(s, rt, address, width, sign);
            let before = run(s, m).machine;
            &&& r.1 == (rt != Reg::R15)
            &&& loads(
                before,
                run(r.0, m).machine,
                before.regs,
                rt,
                width_bits(width),
                operand(run(s, m), address).word,
                sign,
                s.loc.cpsr.e,
            )
        }),
{
    broadcast use {group_run, group_steps};

}

/// Storing a register to an address.
pub proof fn store_stores(s: EmitterState, rt: Reg, address: Value, width: Width, m: Machine)
    requires
        is_known(s, address),
        s.code.len() + 8 <= usize::MAX,
    ensures
        ({
            let r = store_ir(s, rt, address, width);
            let before = run(s, m).machine;
            &&& r.1
            &&& stores(
                s,
                before,
                run(r.0, m).machine,
                before.regs,
                rt,
                width_bits(width),
                operand(run(s, m), address).word,
            )
        }),
{
    broadcast use {group_run, group_steps};

}

/// Reading a shifted register offset.
proof fn offset_is_shifted(s: EmitterState, inst: DecodedArm, m: Machine)
    requires
        has_shifted_offset(inst.id),
        s.code.len() + 16 <= usize::MAX,
    ensures
        ({
            let (t, v) = shifted_offset_ir(s, inst);
            &&& only_reads(s, t, m)
            &&& t.code.len() <= s.code.len() + 4
            &&& is_known(t, v)
            &&& operand(run(t, m), v).word == documented_offset(s, run(s, m).machine, inst)
        }),
{
    let (s1, c) = s.op0(Opcode::A32GetCFlag);
    carry_is_read(s, m);
    let (s2, v) = s1.get_register(inst.rm());
    register_is_read(s1, inst.rm(), m);
    imm_shift_shifts(s2, v, inst.shift_type(), inst.imm5(), c, m);
}

proof fn register_access_is_right(
    s: EmitterState,
    inst: DecodedArm,
    width: Width,
    sign: bool,
    m: Machine,
)
    requires
        is_load(inst.id) || is_store(inst.id),
        !is_literal(inst.id),
        !has_imm12(inst.id) && !has_imm8(inst.id),
        access_bits(inst.id) == width_bits(width),
        is_sign_extending(inst.id) == sign,
        s.code.len() + 32 <= usize::MAX,
    ensures
        is_load(inst.id) && !has_shifted_offset(inst.id) ==> access_is_right(
            s,
            inst,
            load_reg_ir(s, inst, width, sign),
            m,
        ),
        is_load(inst.id) && has_shifted_offset(inst.id) ==> access_is_right(
            s,
            inst,
            load_shifted_ir(s, inst, width),
            m,
        ),
        is_store(inst.id) && !has_shifted_offset(inst.id) ==> access_is_right(
            s,
            inst,
            store_reg_ir(s, inst, width),
            m,
        ),
        is_store(inst.id) && has_shifted_offset(inst.id) ==> access_is_right(
            s,
            inst,
            store_shifted_ir(s, inst, width),
            m,
        ),
{
    let (t, offset) = if has_shifted_offset(inst.id) {
        offset_is_shifted(s, inst, m);
        shifted_offset_ir(s, inst)
    } else {
        register_is_read(s, inst.rm(), m);
        s.get_register(inst.rm())
    };
    address_is_indexed(t, inst, offset, m);
    let (u, address) = indexed_ir(t, inst, offset);
    load_loads(u, inst.rt(), address, width, sign, m);
    store_stores(u, inst.rt(), address, width, m);
}

proof fn immediate_access_is_right(
    s: EmitterState,
    inst: DecodedArm,
    imm: u32,
    width: Width,
    sign: bool,
    m: Machine,
)
    requires
        is_load(inst.id) || is_store(inst.id),
        has_imm12(inst.id) || has_imm8(inst.id),
        imm == documented_offset(s, run(s, m).machine, inst),
        access_bits(inst.id) == width_bits(width),
        is_sign_extending(inst.id) == sign,
        s.code.len() + 32 <= usize::MAX,
    ensures
        is_load(inst.id) && !is_literal(inst.id) ==> access_is_right(
            s,
            inst,
            load_imm_ir(s, inst, imm, width, sign),
            m,
        ),
        is_literal(inst.id) && inst.id != ArmInstId::LDRH_lit ==> access_is_right(
            s,
            inst,
            load_literal_ir(s, inst, imm, width, sign),
            m,
        ),
        inst.id == ArmInstId::LDRH_lit && inst.p_flag() != inst.w_flag() ==> access_is_right(
            s,
            inst,
            load_literal_ir(s, inst, imm, width, sign),
            m,
        ),
        is_store(inst.id) ==> access_is_right(s, inst, store_imm_ir(s, inst, imm, width), m),
{
    let offset = Value::ImmU32(imm);
    address_is_indexed(s, inst, offset, m);
    let (u, address) = indexed_ir(s, inst, offset);
    load_loads(u, inst.rt(), address, width, sign, m);
    store_stores(u, inst.rt(), address, width, m);
    let literal = literal_address(s, inst.u_flag(), imm);
    load_loads(s, inst.rt(), Value::ImmU32(literal), width, sign, m);
}

/// What is owed of the translation of a load or store, whatever family it
/// belongs to.
#[verifier::opaque]
pub open spec fn access_is_translated(
    s: EmitterState,
    inst: DecodedArm,
    options: TranslationOptions,
    m: Machine,
) -> bool {
    access_is_right(s, inst, translate_arm_instruction_ir(s, inst, options), m)
}

proof fn ldr_imm_is_translated(
    s: EmitterState,
    inst: DecodedArm,
    options: TranslationOptions,
    m: Machine,
)
    requires
        inst.id == ArmInstId::LDR_imm,
        s.code.len() + 32 <= usize::MAX,
    ensures
        access_is_translated(s, inst, options, m),
{
    reveal(access_is_translated);
    reveal(arm_memory_ir);
    immediate_access_is_right(s, inst, inst.imm12(), Width::Word, false, m);
}

proof fn ldr_reg_is_translated(
    s: EmitterState,
    inst: DecodedArm,
    options: TranslationOptions,
    m: Machine,
)
    requires
        inst.id == ArmInstId::LDR_reg,
        s.code.len() + 32 <= usize::MAX,
    ensures
        access_is_translated(s, inst, options, m),
{
    reveal(access_is_translated);
    reveal(arm_memory_ir);
    register_access_is_right(s, inst, Width::Word, false, m);
}

proof fn ldr_lit_is_translated(
    s: EmitterState,
    inst: DecodedArm,
    options: TranslationOptions,
    m: Machine,
)
    requires
        inst.id == ArmInstId::LDR_lit,
        s.code.len() + 32 <= usize::MAX,
    ensures
        access_is_translated(s, inst, options, m),
{
    reveal(access_is_translated);
    reveal(arm_memory_ir);
    immediate_access_is_right(s, inst, inst.imm12(), Width::Word, false, m);
}

proof fn str_imm_is_translated(
    s: EmitterState,
    inst: DecodedArm,
    options: TranslationOptions,
    m: Machine,
)
    requires
        inst.id == ArmInstId::STR_imm,
        s.code.len() + 32 <= usize::MAX,
    ensures
        access_is_translated(s, inst, options, m),
{
    reveal(access_is_translated);
    reveal(arm_memory_ir);
    immediate_access_is_right(s, inst, inst.imm12(), Width::Word, false, m);
}

proof fn str_reg_is_translated(
    s: EmitterState,
    inst: DecodedArm,
    options: TranslationOptions,
    m: Machine,
)
    requires
        inst.id == ArmInstId::STR_reg,
        s.code.len() + 32 <= usize::MAX,
    ensures
        access_is_translated(s, inst, options, m),
{
    reveal(access_is_translated);
    reveal(arm_memory_ir);
    register_access_is_right(s, inst, Width::Word, false, m);
}

proof fn ldrb_imm_is_translated(
    s: EmitterState,
    inst: DecodedArm,
    options: TranslationOptions,
    m: Machine,
)
    requires
        inst.id == ArmInstId::LDRB_imm,
        s.code.len() + 32 <= usize::MAX,
    ensures
        access_is_translated(s, inst, options, m),
{
    reveal(access_is_translated);
    reveal(arm_memory_ir);
    immediate_access_is_right(s, inst, inst.imm12(), Width::Byte, false, m);
}

proof fn ldrb_reg_is_translated(
    s: EmitterState,
    inst: DecodedArm,
    options: TranslationOptions,
    m: Machine,
)
    requires
        inst.id == ArmInstId::LDRB_reg,
        s.code.len() + 32 <= usize::MAX,
    ensures
        access_is_translated(s, inst, options, m),
{
    reveal(access_is_translated);
    reveal(arm_memory_ir);
    register_access_is_right(s, inst, Width::Byte, false, m);
}

proof fn ldrb_lit_is_translated(
    s: EmitterState,
    inst: DecodedArm,
    options: TranslationOptions,
    m: Machine,
)
    requires
        inst.id == ArmInstId::LDRB_lit,
        s.code.len() + 32 <= usize::MAX,
    ensures
        access_is_translated(s, inst, options, m),
{
    reveal(access_is_translated);
    reveal(arm_memory_ir);
    immediate_access_is_right(s, inst, inst.imm12(), Width::Byte, false, m);
}

proof fn strb_imm_is_translated(
    s: EmitterState,
    inst: DecodedArm,
    options: TranslationOptions,
    m: Machine,
)
    requires
        inst.id == ArmInstId::STRB_imm,
        s.code.len() + 32 <= usize::MAX,
    ensures
        access_is_translated(s, inst, options, m),
{
    reveal(access_is_translated);
    reveal(arm_memory_ir);
    immediate_access_is_right(s, inst, inst.imm12(), Width::Byte, false, m);
}

proof fn strb_reg_is_translated(
    s: EmitterState,
    inst: DecodedArm,
    options: TranslationOptions,
    m: Machine,
)
    requires
        inst.id == ArmInstId::STRB_reg,
        s.code.len() + 32 <= usize::MAX,
    ensures
        access_is_translated(s, inst, options, m),
{
    reveal(access_is_translated);
    reveal(arm_memory_ir);
    register_access_is_right(s, inst, Width::Byte, false, m);
}

proof fn ldrh_imm_is_translated(
    s: EmitterState,
    inst: DecodedArm,
    options: TranslationOptions,
    m: Machine,
)
    requires
        inst.id == ArmInstId::LDRH_imm,
        s.code.len() + 32 <= usize::MAX,
    ensures
        access_is_translated(s, inst, options, m),
{
    reveal(access_is_translated);
    reveal(arm_memory_ir);
    immediate_access_is_right(s, inst, split_imm8(inst), Width::Half, false, m);
}

proof fn ldrh_reg_is_translated(
    s: EmitterState,
    inst: DecodedArm,
    options: TranslationOptions,
    m: Machine,
)
    requires
        inst.id == ArmInstId::LDRH_reg,
        s.code.len() + 32 <= usize::MAX,
    ensures
        access_is_translated(s, inst, options, m),
{
    reveal(access_is_translated);
    reveal(arm_memory_ir);
    register_access_is_right(s, inst, Width::Half, false, m);
}

proof fn ldrh_lit_is_translated(
    s: EmitterState,
    inst: DecodedArm,
    options: TranslationOptions,
    m: Machine,
)
    requires
        inst.id == ArmInstId::LDRH_lit,
        s.code.len() + 32 <= usize::MAX,
    ensures
        access_is_translated(s, inst, options, m),
{
    reveal(access_is_translated);
    reveal(arm_memory_ir);
    immediate_access_is_right(s, inst, split_imm8(inst), Width::Half, false, m);
}

proof fn strh_imm_is_translated(
    s: EmitterState,
    inst: DecodedArm,
    options: TranslationOptions,
    m: Machine,
)
    requires
        inst.id == ArmInstId::STRH_imm,
        s.code.len() + 32 <= usize::MAX,
    ensures
        access_is_translated(s, inst, options, m),
{
    reveal(access_is_translated);
    reveal(arm_memory_ir);
    immediate_access_is_right(s, inst, split_imm8(inst), Width::Half, false, m);
}

proof fn strh_reg_is_translated(
    s: EmitterState,
    inst: DecodedArm,
    options: TranslationOptions,
    m: Machine,
)
    requires
        inst.id == ArmInstId::STRH_reg,
        s.code.len() + 32 <= usize::MAX,
    ensures
        access_is_translated(s, inst, options, m),
{
    reveal(access_is_translated);
    reveal(arm_memory_ir);
    register_access_is_right(s, inst, Width::Half, false, m);
}

proof fn ldrsb_imm_is_translated(
    s: EmitterState,
    inst: DecodedArm,
    options: TranslationOptions,
    m: Machine,
)
    requires
        inst.id == ArmInstId::LDRSB_imm,
        s.code.len() + 32 <= usize::MAX,
    ensures
        access_is_translated(s, inst, options, m),
{
    reveal(access_is_translated);
    reveal(arm_memory_ir);
    immediate_access_is_right(s, inst, split_imm8(inst), Width::Byte, true, m);
}

proof fn ldrsb_reg_is_translated(
    s: EmitterState,
    inst: DecodedArm,
    options: TranslationOptions,
    m: Machine,
)
    requires
        inst.id == ArmInstId::LDRSB_reg,
        s.code.len() + 32 <= usize::MAX,
    ensures
        access_is_translated(s, inst, options, m),
{
    reveal(access_is_translated);
    reveal(arm_memory_ir);
    register_access_is_right(s, inst, Width::Byte, true, m);
}

proof fn ldrsb_lit_is_translated(
    s: EmitterState,
    inst: DecodedArm,
    options: TranslationOptions,
    m: Machine,
)
    requires
        inst.id == ArmInstId::LDRSB_lit,
        s.code.len() + 32 <= usize::MAX,
    ensures
        access_is_translated(s, inst, options, m),
{
    reveal(access_is_translated);
    reveal(arm_memory_ir);
    immediate_access_is_right(s, inst, split_imm8(inst), Width::Byte, true, m);
}

proof fn ldrsh_imm_is_translated(
    s: EmitterState,
    inst: DecodedArm,
    options: TranslationOptions,
    m: Machine,
)
    requires
        inst.id == ArmInstId::LDRSH_imm,
        s.code.len() + 32 <= usize::MAX,
    ensures
        access_is_translated(s, inst, options, m),
{
    reveal(access_is_translated);
    reveal(arm_memory_ir);
    immediate_access_is_right(s, inst, split_imm8(inst), Width::Half, true, m);
}

proof fn ldrsh_reg_is_translated(
    s: EmitterState,
    inst: DecodedArm,
    options: TranslationOptions,
    m: Machine,
)
    requires
        inst.id == ArmInstId::LDRSH_reg,
        s.code.len() + 32 <= usize::MAX,
    ensures
        access_is_translated(s, inst, options, m),
{
    reveal(access_is_translated);
    reveal(arm_memory_ir);
    register_access_is_right(s, inst, Width::Half, true, m);
}

proof fn ldrsh_lit_is_translated(
    s: EmitterState,
    inst: DecodedArm,
    options: TranslationOptions,
    m: Machine,
)
    requires
        inst.id == ArmInstId::LDRSH_lit,
        s.code.len() + 32 <= usize::MAX,
    ensures
        access_is_translated(s, inst, options, m),
{
    reveal(access_is_translated);
    reveal(arm_memory_ir);
    immediate_access_is_right(s, inst, split_imm8(inst), Width::Half, true, m);
}

/// Loads and stores access memory at the documented address, with the
/// documented width and sign, and write the base register back as documented.
pub proof fn loads_and_stores_access_memory(
    s: EmitterState,
    inst: DecodedArm,
    options: TranslationOptions,
    m: Machine,
)
    requires
        is_load(inst.id) || is_store(inst.id),
        s.code.len() + 32 <= usize::MAX,
    ensures
        access_is_translated(s, inst, options, m),
{
    match inst.id {
        ArmInstId::LDR_imm => ldr_imm_is_translated(s, inst, options, m),
        ArmInstId::LDR_reg => ldr_reg_is_translated(s, inst, options, m),
        ArmInstId::LDR_lit => ldr_lit_is_translated(s, inst, options, m),
        ArmInstId::STR_imm => str_imm_is_translated(s, inst, options, m),
        ArmInstId::STR_reg => str_reg_is_translated(s, inst, options, m),
        ArmInstId::LDRB_imm => ldrb_imm_is_translated(s, inst, options, m),
        ArmInstId::LDRB_reg => ldrb_reg_is_translated(s, inst, options, m),
        ArmInstId::LDRB_lit => ldrb_lit_is_translated(s, inst, options, m),
        ArmInstId::STRB_imm => strb_imm_is_translated(s, inst, options, m),
        ArmInstId::STRB_reg => strb_reg_is_translated(s, inst, options, m),
        ArmInstId::LDRH_imm => ldrh_imm_is_translated(s, inst, options, m),
        ArmInstId::LDRH_reg => ldrh_reg_is_translated(s, inst, options, m),
        ArmInstId::LDRH_lit => ldrh_lit_is_translated(s, inst, options, m),
        ArmInstId::STRH_imm => strh_imm_is_translated(s, inst, options, m),
        ArmInstId::STRH_reg => strh_reg_is_translated(s, inst, options, m),
        ArmInstId::LDRSB_imm => ldrsb_imm_is_translated(s, inst, options, m),
        ArmInstId::LDRSB_reg => ldrsb_reg_is_translated(s, inst, options, m),
        ArmInstId::LDRSB_lit => ldrsb_lit_is_translated(s, inst, options, m),
        ArmInstId::LDRSH_imm => ldrsh_imm_is_translated(s, inst, options, m),
        ArmInstId::LDRSH_reg => ldrsh_reg_is_translated(s, inst, options, m),
        ArmInstId::LDRSH_lit => ldrsh_lit_is_translated(s, inst, options, m),
        _ => {},
    }
}

} // verus!
