//! What multiplications of ARM code compute.

use vstd::prelude::*;
use vstd::arithmetic::div_mod::{lemma_add_mod_noop, lemma_mul_mod_noop};
use super::arm_dispatch::{arm_multiply_ir, translate_arm_instruction_ir};
use super::laws_alu::{is_known, register_is_read, register_read};
use super::multiply::{field_12, field_16, field_8, nz_if_ir, split_ir};
use super::TranslationOptions;
use crate::frontend::a32::decoder::{ArmInstId, DecodedArm};
use crate::frontend::a32::types::{reg, Reg};
use crate::ir::a32_emitter::EmitterState;
use crate::ir::meaning::{as_long, as_word, group_run, operand, run, signed_word, Flags, Machine};
use crate::ir::meaning_steps::group_steps;
use crate::ir::opcode::Opcode;
use crate::ir::value::Value;

verus! {

broadcast use {crate::bits::and_le_mask, crate::bits::mask_twice};

/// What is owed of the translation of a multiplication of words: `Rd` (bits 19
/// to 16) gets the product of `Rn` (bits 3 to 0) and `Rm` (bits 11 to 8),
/// added to or taken from `Ra` (bits 15 to 12), and bit 20 asks for the
/// negative and zero flags.
#[verifier::opaque]
pub open spec fn multiply_is_right(
    s: EmitterState,
    inst: DecodedArm,
    options: TranslationOptions,
    m: Machine,
) -> bool {
    let r = translate_arm_instruction_ir(s, inst, options);
    let (before, after) = (run(s, m).machine, run(r.0, m).machine);
    let raw = inst.raw;
    let rd = reg((raw >> 16) & 0xF);
    let a = register_read(s, before, reg((raw >> 12) & 0xF));
    let product = register_read(s, before, reg(raw & 0xF)) * register_read(
        s,
        before,
        reg((raw >> 8) & 0xF),
    );
    let x = as_word(
        match inst.id {
            ArmInstId::MLA => product + a,
            ArmInstId::MLS => a - product,
            _ => product as int,
        },
    );
    let sets_flags = inst.id != ArmInstId::MLS && raw & 0x10_0000 != 0;
    &&& r.1
    &&& after == (Machine {
        regs: before.regs.insert(rd, x),
        flags: if sets_flags {
            Flags { n: x >= 0x8000_0000, z: x == 0, ..before.flags }
        } else {
            before.flags
        },
        ..before
    })
}

/// The end of a multiplication: the product of two operands, added to or taken
/// from a third one, with its flags.
proof fn multiply_tail(
    s: EmitterState,
    rd: Reg,
    set_flags: bool,
    x: Value,
    y: Value,
    z: Value,
    m: Machine,
)
    requires
        is_known(s, x),
        is_known(s, y),
        is_known(s, z),
        s.code.len() + 8 <= usize::MAX,
    ensures
        ({
            let r = run(s, m);
            let product = operand(r, x).word * operand(r, y).word;
            let a = operand(r, z).word;
            let (p, v) = s.op2(Opcode::Mul32, x, y);
            let (t, sum) = p.op3(Opcode::Add32, v, z, Value::ImmU1(false));
            let (u, difference) = p.op3(Opcode::Sub32, z, v, Value::ImmU1(true));
            &&& run(nz_if_ir(p, set_flags, v).set_register(rd, v), m).machine == multiplied(
                r.machine,
                rd,
                as_word(product as int),
                set_flags,
            )
            &&& run(nz_if_ir(t, set_flags, sum).set_register(rd, sum), m).machine == multiplied(
                r.machine,
                rd,
                as_word(product + a),
                set_flags,
            )
            &&& run(u.set_register(rd, difference), m).machine == multiplied(
                r.machine,
                rd,
                as_word(a - product),
                false,
            )
        }),
{
    broadcast use {group_run, group_steps};

    let product = operand(run(s, m), x).word * operand(run(s, m), y).word;
    let a = operand(run(s, m), z).word;
    wrapped_sum(product as int, a as int);
    wrapped_difference(a as int, product as int);
}

/// A machine with a product in a register, and its flags if asked for.
pub open spec fn multiplied(m: Machine, rd: Reg, x: u32, set_flags: bool) -> Machine {
    Machine {
        regs: m.regs.insert(rd, x),
        flags: if set_flags {
            Flags { n: x >= 0x8000_0000, z: x == 0, ..m.flags }
        } else {
            m.flags
        },
        ..m
    }
}

proof fn mul_computes(
    s: EmitterState,
    inst: DecodedArm,
    options: TranslationOptions,
    m: Machine,
)
    requires
        inst.id == ArmInstId::MUL,
        s.code.len() + 16 <= usize::MAX,
    ensures
        multiply_is_right(s, inst, options, m),
{
    reveal(multiply_is_right);
    reveal(arm_multiply_ir);
    let (s1, x) = s.get_register(inst.rm());
    register_is_read(s, inst.rm(), m);
    let (s2, y) = s1.get_register(field_8(inst));
    register_is_read(s1, field_8(inst), m);
    multiply_tail(s2, field_16(inst), inst.s_flag(), x, y, x, m);
}

proof fn mla_computes(
    s: EmitterState,
    inst: DecodedArm,
    options: TranslationOptions,
    m: Machine,
)
    requires
        inst.id == ArmInstId::MLA,
        s.code.len() + 16 <= usize::MAX,
    ensures
        multiply_is_right(s, inst, options, m),
{
    reveal(multiply_is_right);
    reveal(arm_multiply_ir);
    let (s1, x) = s.get_register(inst.rm());
    register_is_read(s, inst.rm(), m);
    let (s2, y) = s1.get_register(field_8(inst));
    register_is_read(s1, field_8(inst), m);
    let (s3, z) = s2.get_register(field_12(inst));
    register_is_read(s2, field_12(inst), m);
    multiply_tail(s3, field_16(inst), inst.s_flag(), x, y, z, m);
}

proof fn mls_computes(
    s: EmitterState,
    inst: DecodedArm,
    options: TranslationOptions,
    m: Machine,
)
    requires
        inst.id == ArmInstId::MLS,
        s.code.len() + 16 <= usize::MAX,
    ensures
        multiply_is_right(s, inst, options, m),
{
    reveal(multiply_is_right);
    reveal(arm_multiply_ir);
    let (s1, x) = s.get_register(inst.rm());
    register_is_read(s, inst.rm(), m);
    let (s2, y) = s1.get_register(field_8(inst));
    register_is_read(s1, field_8(inst), m);
    let (s3, z) = s2.get_register(field_12(inst));
    register_is_read(s2, field_12(inst), m);
    multiply_tail(s3, field_16(inst), inst.s_flag(), x, y, z, m);
}

proof fn wrapped_sum(x: int, y: int)
    ensures
        as_word(as_word(x) + y) == as_word(x + y),
{
}

proof fn wrapped_difference(x: int, y: int)
    ensures
        as_word(x - as_word(y)) == as_word(x - y),
{
}

/// Multiplications of words compute what they are documented to compute.
pub proof fn multiplications_compute(
    s: EmitterState,
    inst: DecodedArm,
    options: TranslationOptions,
    m: Machine,
)
    requires
        inst.id == ArmInstId::MUL || inst.id == ArmInstId::MLA || inst.id == ArmInstId::MLS,
        s.code.len() + 16 <= usize::MAX,
    ensures
        multiply_is_right(s, inst, options, m),
{
    match inst.id {
        ArmInstId::MUL => mul_computes(s, inst, options, m),
        ArmInstId::MLA => mla_computes(s, inst, options, m),
        _ => mls_computes(s, inst, options, m),
    }
}

/// The exact result of a multiplication to two words.
pub open spec fn documented_long(id: ArmInstId, n: u32, m: u32, lo: u32, hi: u32) -> int {
    let addend = lo + hi * 0x1_0000_0000;
    match id {
        ArmInstId::UMULL => n * m,
        ArmInstId::UMLAL => n * m + addend,
        ArmInstId::SMULL => signed_word(n) * signed_word(m),
        ArmInstId::SMLAL => signed_word(n) * signed_word(m) + addend,
        ArmInstId::UMAAL => n * m + lo + hi,
        _ => arbitrary(),
    }
}

/// What is owed of the translation of a multiplication to two words: `RdLo`
/// (bits 15 to 12) and then `RdHi` (bits 19 to 16) get the lower and upper
/// word of the result.
#[verifier::opaque]
pub open spec fn long_multiply_is_right(
    s: EmitterState,
    inst: DecodedArm,
    options: TranslationOptions,
    m: Machine,
) -> bool {
    let r = translate_arm_instruction_ir(s, inst, options);
    let (before, after) = (run(s, m).machine, run(r.0, m).machine);
    let raw = inst.raw;
    let (lo, hi) = (reg((raw >> 12) & 0xF), reg((raw >> 16) & 0xF));
    let x = as_long(
        documented_long(
            inst.id,
            register_read(s, before, reg(raw & 0xF)),
            register_read(s, before, reg((raw >> 8) & 0xF)),
            register_read(s, before, lo),
            register_read(s, before, hi),
        ),
    );
    &&& r.1
    &&& after.regs == before.regs.insert(lo, as_word(x as int)).insert(
        hi,
        as_word(x as int / 0x1_0000_0000),
    )
    &&& after == (Machine { regs: after.regs, flags: after.flags, ..before })
    &&& inst.id == ArmInstId::UMAAL || raw & 0x10_0000 == 0 ==> after.flags == before.flags
}

proof fn product_wraps(x: int, y: int)
    ensures
        as_long(as_long(x) * as_long(y)) == as_long(x * y),
{
    lemma_mul_mod_noop(x, y, 0x1_0000_0000_0000_0000);
}

proof fn sum_wraps(x: int, y: int)
    ensures
        as_long(as_long(x) + as_long(y)) == as_long(x + y),
{
    lemma_add_mod_noop(x, y, 0x1_0000_0000_0000_0000);
}

proof fn small(x: u32)
    ensures
        as_long(x as int) == x,
{
}

/// Whether a double word was written to the two destinations.
pub open spec fn writes_two_words(
    before: Machine,
    after: Machine,
    inst: DecodedArm,
    set_flags: bool,
    x: u64,
) -> bool {
    let (lo, hi) = (reg((inst.raw >> 12) & 0xF), reg((inst.raw >> 16) & 0xF));
    &&& after.regs == before.regs.insert(lo, as_word(x as int)).insert(
        hi,
        as_word(x as int / 0x1_0000_0000),
    )
    &&& after == (Machine { regs: after.regs, flags: after.flags, ..before })
    &&& !set_flags ==> after.flags == before.flags
}

proof fn umull_tail(
    s: EmitterState,
    inst: DecodedArm,
    set_flags: bool,
    x: Value,
    y: Value,
    lo: Value,
    hi: Value,
    m: Machine,
)
    requires
        is_known(s, x),
        is_known(s, y),
        is_known(s, lo),
        is_known(s, hi),
        s.code.len() + 24 <= usize::MAX,
    ensures
        ({
            let r = run(s, m);
            let (n, k) = (operand(r, x).word, operand(r, y).word);
            let (l, h) = (operand(r, lo).word, operand(r, hi).word);
            let t = {
                let (s, x) = s.op1(Opcode::ZeroExtendWordToLong, x);
                let (s, y) = s.op1(Opcode::ZeroExtendWordToLong, y);
                let (s, p) = s.op2(Opcode::Mul64, x, y);
                split_ir(s, inst, set_flags, p)
            };
            &&& t.1
            &&& writes_two_words(
                r.machine,
                run(t.0, m).machine,
                inst,
                set_flags,
                as_long(n * k as int),
            )
        }),
{
    let r = run(s, m);
    let (n, k) = (operand(r, x).word, operand(r, y).word);
    let (l, h) = (operand(r, lo).word, operand(r, hi).word);
    small(n);
    small(k);
    product_wraps(n as int, k as int);
    broadcast use {group_run, group_steps};

}

proof fn smull_tail(
    s: EmitterState,
    inst: DecodedArm,
    set_flags: bool,
    x: Value,
    y: Value,
    lo: Value,
    hi: Value,
    m: Machine,
)
    requires
        is_known(s, x),
        is_known(s, y),
        is_known(s, lo),
        is_known(s, hi),
        s.code.len() + 24 <= usize::MAX,
    ensures
        ({
            let r = run(s, m);
            let (n, k) = (operand(r, x).word, operand(r, y).word);
            let (l, h) = (operand(r, lo).word, operand(r, hi).word);
            let t = {
                let (s, x) = s.op1(Opcode::SignExtendWordToLong, x);
                let (s, y) = s.op1(Opcode::SignExtendWordToLong, y);
                let (s, p) = s.op2(Opcode::Mul64, x, y);
                split_ir(s, inst, set_flags, p)
            };
            &&& t.1
            &&& writes_two_words(
                r.machine,
                run(t.0, m).machine,
                inst,
                set_flags,
                as_long(signed_word(n) * signed_word(k)),
            )
        }),
{
    let r = run(s, m);
    let (n, k) = (operand(r, x).word, operand(r, y).word);
    let (l, h) = (operand(r, lo).word, operand(r, hi).word);
    product_wraps(signed_word(n), signed_word(k));
    broadcast use {group_run, group_steps};

}

proof fn umlal_tail(
    s: EmitterState,
    inst: DecodedArm,
    set_flags: bool,
    x: Value,
    y: Value,
    lo: Value,
    hi: Value,
    m: Machine,
)
    requires
        is_known(s, x),
        is_known(s, y),
        is_known(s, lo),
        is_known(s, hi),
        s.code.len() + 24 <= usize::MAX,
    ensures
        ({
            let r = run(s, m);
            let (n, k) = (operand(r, x).word, operand(r, y).word);
            let (l, h) = (operand(r, lo).word, operand(r, hi).word);
            let t = {
                let (s, x) = s.op1(Opcode::ZeroExtendWordToLong, x);
                let (s, y) = s.op1(Opcode::ZeroExtendWordToLong, y);
                let (s, p) = s.op2(Opcode::Mul64, x, y);
                let (s, a) = s.op2(Opcode::Pack2x32To1x64, lo, hi);
                let (s, p) = s.op3(Opcode::Add64, p, a, Value::ImmU1(false));
                split_ir(s, inst, set_flags, p)
            };
            &&& t.1
            &&& writes_two_words(
                r.machine,
                run(t.0, m).machine,
                inst,
                set_flags,
                as_long(n * k + l + h * 0x1_0000_0000),
            )
        }),
{
    let r = run(s, m);
    let (n, k) = (operand(r, x).word, operand(r, y).word);
    let (l, h) = (operand(r, lo).word, operand(r, hi).word);
    small(n);
    small(k);
    product_wraps(n as int, k as int);
    sum_wraps(n * k, l + h * 0x1_0000_0000);
    broadcast use {group_run, group_steps};

}

proof fn smlal_tail(
    s: EmitterState,
    inst: DecodedArm,
    set_flags: bool,
    x: Value,
    y: Value,
    lo: Value,
    hi: Value,
    m: Machine,
)
    requires
        is_known(s, x),
        is_known(s, y),
        is_known(s, lo),
        is_known(s, hi),
        s.code.len() + 24 <= usize::MAX,
    ensures
        ({
            let r = run(s, m);
            let (n, k) = (operand(r, x).word, operand(r, y).word);
            let (l, h) = (operand(r, lo).word, operand(r, hi).word);
            let t = {
                let (s, x) = s.op1(Opcode::SignExtendWordToLong, x);
                let (s, y) = s.op1(Opcode::SignExtendWordToLong, y);
                let (s, p) = s.op2(Opcode::Mul64, x, y);
                let (s, a) = s.op2(Opcode::Pack2x32To1x64, lo, hi);
                let (s, p) = s.op3(Opcode::Add64, p, a, Value::ImmU1(false));
                split_ir(s, inst, set_flags, p)
            };
            &&& t.1
            &&& writes_two_words(
                r.machine,
                run(t.0, m).machine,
                inst,
                set_flags,
                as_long(signed_word(n) * signed_word(k) + l + h * 0x1_0000_0000),
            )
        }),
{
    let r = run(s, m);
    let (n, k) = (operand(r, x).word, operand(r, y).word);
    let (l, h) = (operand(r, lo).word, operand(r, hi).word);
    product_wraps(signed_word(n), signed_word(k));
    sum_wraps(signed_word(n) * signed_word(k), l + h * 0x1_0000_0000);
    broadcast use {group_run, group_steps};

}

proof fn umaal_tail(
    s: EmitterState,
    inst: DecodedArm,
    set_flags: bool,
    x: Value,
    y: Value,
    lo: Value,
    hi: Value,
    m: Machine,
)
    requires
        is_known(s, x),
        is_known(s, y),
        is_known(s, lo),
        is_known(s, hi),
        s.code.len() + 24 <= usize::MAX,
    ensures
        ({
            let r = run(s, m);
            let (n, k) = (operand(r, x).word, operand(r, y).word);
            let (l, h) = (operand(r, lo).word, operand(r, hi).word);
            let t = {
                let (s, x) = s.op1(Opcode::ZeroExtendWordToLong, x);
                let (s, y) = s.op1(Opcode::ZeroExtendWordToLong, y);
                let (s, p) = s.op2(Opcode::Mul64, x, y);
                let (s, h) = s.op1(Opcode::ZeroExtendWordToLong, hi);
                let (s, l) = s.op1(Opcode::ZeroExtendWordToLong, lo);
                let (s, p) = s.op3(Opcode::Add64, p, h, Value::ImmU1(false));
                let (s, p) = s.op3(Opcode::Add64, p, l, Value::ImmU1(false));
                split_ir(s, inst, set_flags, p)
            };
            &&& t.1
            &&& writes_two_words(
                r.machine,
                run(t.0, m).machine,
                inst,
                set_flags,
                as_long(n * k + l + h),
            )
        }),
{
    let r = run(s, m);
    let (n, k) = (operand(r, x).word, operand(r, y).word);
    let (l, h) = (operand(r, lo).word, operand(r, hi).word);
    small(n);
    small(k);
    small(l);
    small(h);
    product_wraps(n as int, k as int);
    sum_wraps(n * k, h as int);
    sum_wraps(n * k + h, l as int);
    broadcast use {group_run, group_steps};

}

#[verifier::rlimit(40)]
proof fn umull_computes(
    s: EmitterState,
    inst: DecodedArm,
    options: TranslationOptions,
    m: Machine,
)
    requires
        inst.id == ArmInstId::UMULL,
        s.code.len() + 32 <= usize::MAX,
    ensures
        long_multiply_is_right(s, inst, options, m),
{
    reveal(long_multiply_is_right);
    reveal(arm_multiply_ir);
    let (s1, x) = s.get_register(inst.rm());
    register_is_read(s, inst.rm(), m);
    let (s2, y) = s1.get_register(field_8(inst));
    register_is_read(s1, field_8(inst), m);
    umull_tail(s2, inst, inst.s_flag(), x, y, x, y, m);
}

#[verifier::rlimit(40)]
proof fn smull_computes(
    s: EmitterState,
    inst: DecodedArm,
    options: TranslationOptions,
    m: Machine,
)
    requires
        inst.id == ArmInstId::SMULL,
        s.code.len() + 32 <= usize::MAX,
    ensures
        long_multiply_is_right(s, inst, options, m),
{
    reveal(long_multiply_is_right);
    reveal(arm_multiply_ir);
    let (s1, x) = s.get_register(inst.rm());
    register_is_read(s, inst.rm(), m);
    let (s2, y) = s1.get_register(field_8(inst));
    register_is_read(s1, field_8(inst), m);
    smull_tail(s2, inst, inst.s_flag(), x, y, x, y, m);
}

#[verifier::rlimit(40)]
proof fn umlal_computes(
    s: EmitterState,
    inst: DecodedArm,
    options: TranslationOptions,
    m: Machine,
)
    requires
        inst.id == ArmInstId::UMLAL,
        s.code.len() + 32 <= usize::MAX,
    ensures
        long_multiply_is_right(s, inst, options, m),
{
    reveal(long_multiply_is_right);
    reveal(arm_multiply_ir);
    let (s1, x) = s.get_register(inst.rm());
    register_is_read(s, inst.rm(), m);
    let (s2, y) = s1.get_register(field_8(inst));
    register_is_read(s1, field_8(inst), m);
    let (s3, hi) = s2.get_register(field_16(inst));
    register_is_read(s2, field_16(inst), m);
    let (s4, lo) = s3.get_register(field_12(inst));
    register_is_read(s3, field_12(inst), m);
    umlal_tail(s4, inst, inst.s_flag(), x, y, lo, hi, m);
}

#[verifier::rlimit(40)]
proof fn smlal_computes(
    s: EmitterState,
    inst: DecodedArm,
    options: TranslationOptions,
    m: Machine,
)
    requires
        inst.id == ArmInstId::SMLAL,
        s.code.len() + 32 <= usize::MAX,
    ensures
        long_multiply_is_right(s, inst, options, m),
{
    reveal(long_multiply_is_right);
    reveal(arm_multiply_ir);
    let (s1, x) = s.get_register(inst.rm());
    register_is_read(s, inst.rm(), m);
    let (s2, y) = s1.get_register(field_8(inst));
    register_is_read(s1, field_8(inst), m);
    let (s3, hi) = s2.get_register(field_16(inst));
    register_is_read(s2, field_16(inst), m);
    let (s4, lo) = s3.get_register(field_12(inst));
    register_is_read(s3, field_12(inst), m);
    smlal_tail(s4, inst, inst.s_flag(), x, y, lo, hi, m);
}

#[verifier::rlimit(40)]
proof fn umaal_computes(
    s: EmitterState,
    inst: DecodedArm,
    options: TranslationOptions,
    m: Machine,
)
    requires
        inst.id == ArmInstId::UMAAL,
        s.code.len() + 32 <= usize::MAX,
    ensures
        long_multiply_is_right(s, inst, options, m),
{
    reveal(long_multiply_is_right);
    reveal(arm_multiply_ir);
    let (s1, x) = s.get_register(inst.rm());
    register_is_read(s, inst.rm(), m);
    let (s2, y) = s1.get_register(field_8(inst));
    register_is_read(s1, field_8(inst), m);
    let (s3, hi) = s2.get_register(field_16(inst));
    register_is_read(s2, field_16(inst), m);
    let (s4, lo) = s3.get_register(field_12(inst));
    register_is_read(s3, field_12(inst), m);
    umaal_tail(s4, inst, false, x, y, lo, hi, m);
}

/// Multiplications to two words compute what they are documented to compute.
pub proof fn long_multiplications_compute(
    s: EmitterState,
    inst: DecodedArm,
    options: TranslationOptions,
    m: Machine,
)
    requires
        inst.id == ArmInstId::UMULL || inst.id == ArmInstId::UMLAL || inst.id == ArmInstId::SMULL
            || inst.id == ArmInstId::SMLAL || inst.id == ArmInstId::UMAAL,
        s.code.len() + 32 <= usize::MAX,
    ensures
        long_multiply_is_right(s, inst, options, m),
{
    match inst.id {
        ArmInstId::UMULL => umull_computes(s, inst, options, m),
        ArmInstId::SMULL => smull_computes(s, inst, options, m),
        ArmInstId::UMLAL => umlal_computes(s, inst, options, m),
        ArmInstId::SMLAL => smlal_computes(s, inst, options, m),
        _ => umaal_computes(s, inst, options, m),
    }
}

} // verus!
