//! Vector instructions: immediates, scalars, structure loads and stores,
//! permutations and comparisons with zero.

use vstd::prelude::*;
use super::{
    decode_error, decode_error_ir, undefined_instruction, undefined_ir, unpredictable_instruction,
    unpredictable_ir,
};
use crate::frontend::a32::decoder::DecodedArm;
use crate::frontend::a32::types::{ExtReg, Reg};
use crate::ir::a32_emitter::{A32IREmitter, EmitterState};
use crate::ir::acc_type::AccType;
use crate::ir::opcode;
use crate::ir::opcode::Opcode;
use crate::ir::value::Value;

verus! {

broadcast use crate::bits::and_le_mask;

/// Bit `i` of an instruction.
#[verifier::allow_in_spec]
pub fn flag(inst: &DecodedArm, i: u32) -> bool
    requires
        i < 32,
    returns
        (inst.raw >> i) & 1 != 0,
{
    (inst.raw >> i) & 1 != 0
}

/// The four bits for the destination register.
#[verifier::allow_in_spec]
pub fn field_vd(inst: &DecodedArm) -> u32
    returns
        (inst.raw >> 12) & 0xF,
{
    (inst.raw >> 12) & 0xF
}

/// The four bits for the first operand register.
#[verifier::allow_in_spec]
pub fn field_vn(inst: &DecodedArm) -> u32
    returns
        (inst.raw >> 16) & 0xF,
{
    (inst.raw >> 16) & 0xF
}

/// The four bits for the second operand register.
#[verifier::allow_in_spec]
pub fn field_vm(inst: &DecodedArm) -> u32
    returns
        inst.raw & 0xF,
{
    inst.raw & 0xF
}

/// The size in bits of the lanes that a two-bit field selects.
#[verifier::allow_in_spec]
pub fn lane_size(sz: u32) -> usize
    requires
        sz < 4,
    returns
        (if sz == 0 {
            8usize
        } else if sz == 1 {
            16usize
        } else if sz == 2 {
            32usize
        } else {
            64usize
        }),
{
    match sz {
        0 => 8,
        1 => 16,
        2 => 32,
        _ => 64,
    }
}

/// The number of a double-word register from its four bits and the bit above.
#[verifier::allow_in_spec]
pub fn double_index(high: bool, v: u32) -> u32
    requires
        v < 16,
    returns
        (if high {
            (16 + v) as u32
        } else {
            v
        }),
{
    if high {
        16 + v
    } else {
        v
    }
}

/// The vector register of an operand: a double word, or a quad word made of
/// an even double word and the next.
pub open spec fn vector_reg(q: bool, high: bool, v: u32) -> ExtReg {
    if q {
        ExtReg::Quad((double_index(high, v) / 2) as u8)
    } else {
        ExtReg::Double(double_index(high, v) as u8)
    }
}

/// The vector register of an operand. Quad words start at even registers.
pub fn to_vector_reg(q: bool, d: bool, vd: u32) -> (r: Option<ExtReg>)
    requires
        vd < 16,
    ensures
        r == if q && vd & 1 != 0 {
            None
        } else {
            Some(vector_reg(q, d, vd))
        },
{
    if q {
        if vd & 1 != 0 {
            return None;
        }
        Some(ExtReg::Quad((double_index(d, vd) / 2) as u8))
    } else {
        Some(ExtReg::Double(double_index(d, vd) as u8))
    }
}

/// The destination register.
pub open spec fn dest_reg(inst: DecodedArm, q: bool) -> ExtReg {
    vector_reg(q, flag(&inst, 22), field_vd(&inst))
}

/// The first operand register.
pub open spec fn n_reg(inst: DecodedArm, q: bool) -> ExtReg {
    vector_reg(q, flag(&inst, 7), field_vn(&inst))
}

/// The second operand register.
pub open spec fn m_reg(inst: DecodedArm, q: bool) -> ExtReg {
    vector_reg(q, flag(&inst, 5), field_vm(&inst))
}

/// Whether an instruction on quad words names an odd register as destination
/// or second operand.
pub open spec fn misaligned_dm(inst: DecodedArm, q: bool) -> bool {
    q && (field_vd(&inst) & 1 != 0 || field_vm(&inst) & 1 != 0)
}

/// Whether an instruction on quad words names an odd register.
pub open spec fn misaligned_dnm(inst: DecodedArm, q: bool) -> bool {
    q && (field_vd(&inst) & 1 != 0 || field_vn(&inst) & 1 != 0 || field_vm(&inst) & 1 != 0)
}

/// A comparison.
#[derive(Clone, Copy, Debug, PartialEq, Eq, Structural)]
pub enum Comparison {
    Equal,
    GreaterEqual,
    Greater,
    LessEqual,
    Less,
}

/// A lane-wise comparison of single-precision numbers with zero.
pub open spec fn float_comparison_ir(
    s: EmitterState,
    comparison: Comparison,
    m: Value,
    zero: Value,
) -> (EmitterState, Value) {
    let fpcr = Value::ImmU1(false);
    match comparison {
        Comparison::Equal => s.op3(Opcode::FPVectorEqual32, m, zero, fpcr),
        Comparison::GreaterEqual => s.op3(Opcode::FPVectorGreaterEqual32, m, zero, fpcr),
        Comparison::Greater => s.op3(Opcode::FPVectorGreater32, m, zero, fpcr),
        Comparison::LessEqual => s.op3(Opcode::FPVectorGreaterEqual32, zero, m, fpcr),
        Comparison::Less => s.op3(Opcode::FPVectorGreater32, zero, m, fpcr),
    }
}

/// A lane-wise comparison of signed integers with zero.
pub open spec fn integer_comparison_ir(
    s: EmitterState,
    comparison: Comparison,
    esize: usize,
    m: Value,
    zero: Value,
) -> (EmitterState, Value) {
    match comparison {
        Comparison::Equal => s.op2(opcode::vector_equal(esize), m, zero),
        Comparison::GreaterEqual => s.vector_greater_equal_signed(esize, m, zero),
        Comparison::Greater => s.op2(opcode::vector_greater_signed(esize), m, zero),
        Comparison::LessEqual => s.vector_less_equal_signed(esize, m, zero),
        Comparison::Less => s.vector_less_signed(esize, m, zero),
    }
}

/// A comparison of the lanes of a vector with zero, as integers or as
/// single-precision numbers.
pub open spec fn compare_with_zero_ir(
    s: EmitterState,
    inst: DecodedArm,
    comparison: Comparison,
) -> (
    EmitterState,
    bool,
) {
    let sz = (inst.raw >> 18) & 3;
    let f = flag(&inst, 10);
    let q = flag(&inst, 6);
    if sz == 3 || (f && sz != 2) || misaligned_dm(inst, q) {
        undefined_ir(s)
    } else {
        let (s, m) = s.get_vector(m_reg(inst, q));
        let (s, zero) = s.op0(Opcode::ZeroVector);
        let (s, result) = if f {
            float_comparison_ir(s, comparison, m, zero)
        } else {
            integer_comparison_ir(s, comparison, lane_size(sz), m, zero)
        };
        (s.set_vector(dest_reg(inst, q), result), true)
    }
}

fn compare_with_zero(ir: &mut A32IREmitter, inst: &DecodedArm, comparison: Comparison) -> (r: bool)
    ensures
        (final(ir)@, r) == compare_with_zero_ir(old(ir)@, *inst, comparison),
{
    let sz: u32 = (inst.raw >> 18) & 3;
    let f = flag(inst, 10);
    let q = flag(inst, 6);
    let vd: u32 = field_vd(inst);
    let vm: u32 = field_vm(inst);
    if sz == 0b11 || (f && sz != 0b10) {
        return undefined_instruction(ir);
    }
    if q && (vd & 1 != 0 || vm & 1 != 0) {
        return undefined_instruction(ir);
    }
    let d_reg = match to_vector_reg(q, flag(inst, 22), vd) {
        Some(found) => found,
        None => {
            return undefined_instruction(ir);
        },
    };
    let m_reg = match to_vector_reg(q, flag(inst, 5), vm) {
        Some(found) => found,
        None => {
            return undefined_instruction(ir);
        },
    };
    let reg_m = ir.get_vector(m_reg);
    let zero = ir.zero_vector();
    let result = if f {
        match comparison {
            Comparison::Equal => ir.fp_vector_equal(32, reg_m, zero, false),
            Comparison::GreaterEqual => ir.fp_vector_greater_equal(32, reg_m, zero, false),
            Comparison::Greater => ir.fp_vector_greater(32, reg_m, zero, false),
            Comparison::LessEqual => ir.fp_vector_greater_equal(32, zero, reg_m, false),
            Comparison::Less => ir.fp_vector_greater(32, zero, reg_m, false),
        }
    } else {
        let esize: usize = lane_size(sz);
        match comparison {
            Comparison::Equal => ir.vector_equal(esize, reg_m, zero),
            Comparison::GreaterEqual => ir.vector_greater_equal_signed(esize, reg_m, zero),
            Comparison::Greater => ir.vector_greater_signed(esize, reg_m, zero),
            Comparison::LessEqual => ir.vector_less_equal_signed(esize, reg_m, zero),
            Comparison::Less => ir.vector_less_signed(esize, reg_m, zero),
        }
    };
    ir.set_vector(d_reg, result);
    true
}

/// Translates the comparison whether lanes are greater than zero.
pub fn arm_asimd_vcgt_zero(ir: &mut A32IREmitter, inst: &DecodedArm) -> (r: bool)
    ensures
        (final(ir)@, r) == compare_with_zero_ir(old(ir)@, *inst, Comparison::Greater),
{
    compare_with_zero(ir, inst, Comparison::Greater)
}

/// Translates the comparison whether lanes are greater than or equal to zero.
pub fn arm_asimd_vcge_zero(ir: &mut A32IREmitter, inst: &DecodedArm) -> (r: bool)
    ensures
        (final(ir)@, r) == compare_with_zero_ir(old(ir)@, *inst, Comparison::GreaterEqual),
{
    compare_with_zero(ir, inst, Comparison::GreaterEqual)
}

/// Translates the comparison whether lanes are equal to zero.
pub fn arm_asimd_vceq_zero(ir: &mut A32IREmitter, inst: &DecodedArm) -> (r: bool)
    ensures
        (final(ir)@, r) == compare_with_zero_ir(old(ir)@, *inst, Comparison::Equal),
{
    compare_with_zero(ir, inst, Comparison::Equal)
}

/// Translates the comparison whether lanes are less than or equal to zero.
pub fn arm_asimd_vcle_zero(ir: &mut A32IREmitter, inst: &DecodedArm) -> (r: bool)
    ensures
        (final(ir)@, r) == compare_with_zero_ir(old(ir)@, *inst, Comparison::LessEqual),
{
    compare_with_zero(ir, inst, Comparison::LessEqual)
}

/// Translates the comparison whether lanes are less than zero.
pub fn arm_asimd_vclt_zero(ir: &mut A32IREmitter, inst: &DecodedArm) -> (r: bool)
    ensures
        (final(ir)@, r) == compare_with_zero_ir(old(ir)@, *inst, Comparison::Less),
{
    compare_with_zero(ir, inst, Comparison::Less)
}

/// All ones in the byte that bit `i` of `imm8` selects.
#[verifier::allow_in_spec]
pub fn selected_byte(imm8: u32, i: u32) -> u64
    requires
        i < 8,
    returns
        (if (imm8 >> i) & 1 != 0 {
            0xFFu64
        } else {
            0u64
        }),
{
    if (imm8 >> i) & 1 != 0 {
        0xFF
    } else {
        0
    }
}

/// A word twice.
pub open spec fn two_words(v: int) -> u64 {
    (v * 0x1_0000_0001) as u64
}

/// A halfword four times.
pub open spec fn four_halves(v: int) -> u64 {
    (v * 0x0001_0001_0001_0001) as u64
}

/// The single-precision number that eight bits stand for: a sign, three
/// exponent bits and four bits of fraction.
pub open spec fn float32_imm(imm8: u32) -> int {
    (if (imm8 >> 7) & 1 != 0 { 0x8000_0000int } else { 0 }) + (if (imm8 >> 6) & 1 != 0 {
        0x3E00_0000int
    } else {
        0x4000_0000
    }) + (imm8 & 0x3F) * 0x8_0000
}

/// The double-precision number that eight bits stand for.
pub open spec fn float64_imm(imm8: u32) -> int {
    (if (imm8 >> 7) & 1 != 0 { 0x8000_0000_0000_0000int } else { 0 }) + (if (imm8 >> 6) & 1 != 0 {
        0x3FC0_0000_0000_0000int
    } else {
        0x4000_0000_0000_0000
    }) + (imm8 & 0x3F) * 0x1_0000_0000_0000
}

/// The double word whose bytes are all ones or zero as the bits of `imm8`
/// say.
pub open spec fn byte_select_imm(imm8: u32) -> int {
    selected_byte(imm8, 0) + selected_byte(imm8, 1) * 0x100 + selected_byte(imm8, 2) * 0x1_0000
        + selected_byte(imm8, 3) * 0x100_0000 + selected_byte(imm8, 4) * 0x1_0000_0000
        + selected_byte(imm8, 5) * 0x100_0000_0000 + selected_byte(imm8, 6) * 0x1_0000_0000_0000
        + selected_byte(imm8, 7) * 0x100_0000_0000_0000
}

/// The double word that a vector immediate stands for. The upper three bits
/// of `cmode` select a byte in a place of a word or halfword, a byte followed
/// by ones, or one of four forms that `op` and the lowest bit tell apart.
pub open spec fn vector_imm(op: bool, cmode: u32, imm8: u32) -> u64 {
    let byte = (imm8 & 0xFF) as int;
    let form = (cmode >> 1) & 7;
    let low = cmode & 1;
    if form == 0 {
        two_words(byte)
    } else if form == 1 {
        two_words(byte * 0x100)
    } else if form == 2 {
        two_words(byte * 0x1_0000)
    } else if form == 3 {
        two_words(byte * 0x100_0000)
    } else if form == 4 {
        four_halves(byte)
    } else if form == 5 {
        four_halves(byte * 0x100)
    } else if form == 6 {
        if low == 0 {
            two_words(byte * 0x100 + 0xFF)
        } else {
            two_words(byte * 0x1_0000 + 0xFFFF)
        }
    } else if low == 0 {
        if op {
            byte_select_imm(imm8) as u64
        } else {
            (byte * 0x0101_0101_0101_0101) as u64
        }
    } else {
        if op {
            float64_imm(imm8) as u64
        } else {
            two_words(float32_imm(imm8))
        }
    }
}

/// Expands a vector immediate to a double word.
pub fn adv_simd_expand_imm(op: bool, cmode: u32, imm8: u32) -> (r: u64)
    ensures
        r == vector_imm(op, cmode, imm8),
{
    let byte: u64 = (imm8 & 0xFF) as u64;
    let low: u32 = cmode & 1;
    match (cmode >> 1) & 7 {
        0b000 => byte * 0x1_0000_0001,
        0b001 => byte * 0x100 * 0x1_0000_0001,
        0b010 => byte * 0x1_0000 * 0x1_0000_0001,
        0b011 => byte * 0x100_0000 * 0x1_0000_0001,
        0b100 => byte * 0x0001_0001_0001_0001,
        0b101 => byte * 0x100 * 0x0001_0001_0001_0001,
        0b110 => if low == 0 {
            (byte * 0x100 + 0xFF) * 0x1_0000_0001
        } else {
            (byte * 0x1_0000 + 0xFFFF) * 0x1_0000_0001
        },
        _ => if low == 0 {
            if op {
                selected_byte(imm8, 0) + selected_byte(imm8, 1) * 0x100 + selected_byte(imm8, 2)
                    * 0x1_0000 + selected_byte(imm8, 3) * 0x100_0000 + selected_byte(imm8, 4)
                    * 0x1_0000_0000 + selected_byte(imm8, 5) * 0x100_0000_0000 + selected_byte(
                    imm8,
                    6,
                ) * 0x1_0000_0000_0000 + selected_byte(imm8, 7) * 0x100_0000_0000_0000
            } else {
                byte * 0x0101_0101_0101_0101
            }
        } else {
            let fraction: u64 = (imm8 & 0x3F) as u64;
            if op {
                let sign: u64 = if (imm8 >> 7) & 1 != 0 { 0x8000_0000_0000_0000 } else { 0 };
                let exponent: u64 = if (imm8 >> 6) & 1 != 0 {
                    0x3FC0_0000_0000_0000
                } else {
                    0x4000_0000_0000_0000
                };
                sign + exponent + fraction * 0x1_0000_0000_0000
            } else {
                let sign: u64 = if (imm8 >> 7) & 1 != 0 { 0x8000_0000 } else { 0 };
                let exponent: u64 = if (imm8 >> 6) & 1 != 0 { 0x3E00_0000 } else { 0x4000_0000 };
                (sign + exponent + fraction * 0x8_0000) * 0x1_0000_0001
            }
        },
    }
}

/// The eight bits of a vector immediate, scattered over an instruction.
pub open spec fn scattered_imm8(raw: u32) -> u32 {
    (((raw >> 24) & 1) * 128 + ((raw >> 16) & 7) * 16 + (raw & 0xF)) as u32
}

/// Writing a constant to a vector register.
pub open spec fn vector_constant_ir(s: EmitterState, q: bool, dest: ExtReg, imm: u64) -> (
    EmitterState,
    bool,
) {
    if q {
        let (s, vector) = if imm == 0 {
            s.op0(Opcode::ZeroVector)
        } else {
            s.op1(Opcode::VectorBroadcast64, Value::ImmU64(imm))
        };
        (s.set_vector(dest, vector), true)
    } else {
        (
            s.op2(
                Opcode::A32SetExtendedRegister64,
                Value::ImmA32ExtReg(dest),
                Value::ImmU64(imm),
            ).0,
            true,
        )
    }
}

/// Combining a vector register with a constant, by `wide` for quad words and
/// by `narrow` for double words.
pub open spec fn vector_with_constant_ir(
    s: EmitterState,
    q: bool,
    dest: ExtReg,
    wide: Opcode,
    narrow: Opcode,
    imm: u64,
) -> (EmitterState, bool) {
    if q {
        let (s, value) = s.get_vector(dest);
        let (s, constant) = s.op1(Opcode::VectorBroadcast64, Value::ImmU64(imm));
        let (s, result) = s.op2(wide, value, constant);
        (s.set_vector(dest, result), true)
    } else {
        let (s, value) = s.op1(Opcode::A32GetExtendedRegister64, Value::ImmA32ExtReg(dest));
        let (s, result) = s.op2(narrow, value, Value::ImmU64(imm));
        (
            s.op2(Opcode::A32SetExtendedRegister64, Value::ImmA32ExtReg(dest), result).0,
            true,
        )
    }
}

/// An operation of a vector register with an immediate: the four bits of
/// `cmode` followed by `op` select a move, a move of the complement, an
/// inclusion or a clearing of bits.
pub open spec fn arm_asimd_vmov_imm_ir(s: EmitterState, inst: DecodedArm) -> (EmitterState, bool) {
    let cmode = (inst.raw >> 8) & 0xF;
    let q = flag(&inst, 6);
    let op = flag(&inst, 5);
    let dest = dest_reg(inst, q);
    let imm = vector_imm(op, cmode, scattered_imm8(inst.raw));
    let selector = cmode * 2 + (if op { 1int } else { 0 });
    if (q && field_vd(&inst) & 1 != 0) || selector == 31 {
        undefined_ir(s)
    } else if selector >= 28 || (selector >= 24 && !op) || (selector < 24 && selector % 4 == 0) {
        vector_constant_ir(s, q, dest, imm)
    } else if selector >= 24 || selector % 4 == 1 {
        vector_constant_ir(s, q, dest, !imm)
    } else if selector % 4 == 2 {
        vector_with_constant_ir(s, q, dest, Opcode::VectorOr, Opcode::Or64, imm)
    } else {
        vector_with_constant_ir(s, q, dest, Opcode::VectorAnd, Opcode::And64, !imm)
    }
}

fn emit_vector_constant(ir: &mut A32IREmitter, q: bool, dest: ExtReg, imm: u64) -> (r: bool)
    ensures
        (final(ir)@, r) == vector_constant_ir(old(ir)@, q, dest, imm),
{
    if q {
        let vector = if imm == 0 {
            ir.zero_vector()
        } else {
            ir.vector_broadcast(64, Value::ImmU64(imm))
        };
        ir.set_vector(dest, vector);
    } else {
        ir.set_extended_register_64(dest, Value::ImmU64(imm));
    }
    true
}

/// Translates an operation of a vector register with an immediate.
pub fn arm_asimd_vmov_imm(ir: &mut A32IREmitter, inst: &DecodedArm) -> (r: bool)
    ensures
        (final(ir)@, r) == arm_asimd_vmov_imm_ir(old(ir)@, *inst),
{
    let vd: u32 = field_vd(inst);
    let cmode: u32 = (inst.raw >> 8) & 0xF;
    let q = flag(inst, 6);
    let op = flag(inst, 5);
    if q && vd & 1 != 0 {
        return undefined_instruction(ir);
    }
    let imm8: u32 = ((inst.raw >> 24) & 1) * 128 + ((inst.raw >> 16) & 7) * 16 + (inst.raw & 0xF);
    let dest = match to_vector_reg(q, flag(inst, 22), vd) {
        Some(found) => found,
        None => {
            return undefined_instruction(ir);
        },
    };
    let imm: u64 = adv_simd_expand_imm(op, cmode, imm8);
    let op_bit: u32 = if op { 1 } else { 0 };
    let selector: u32 = cmode * 2 + op_bit;
    match selector {
        0b00000 | 0b00100 | 0b01000 | 0b01100 | 0b10000 | 0b10100 | 0b11000 | 0b11010 | 0b11100
        | 0b11101 | 0b11110 => emit_vector_constant(ir, q, dest, imm),
        0b00001 | 0b00101 | 0b01001 | 0b01101 | 0b10001 | 0b10101 | 0b11001 | 0b11011 =>
        emit_vector_constant(ir, q, dest, !imm),
        0b00010 | 0b00110 | 0b01010 | 0b01110 | 0b10010 | 0b10110 => {
            if q {
                let reg_value = ir.get_vector(dest);
                let imm_vec = ir.vector_broadcast(64, Value::ImmU64(imm));
                let result = ir.vector_or(reg_value, imm_vec);
                ir.set_vector(dest, result);
            } else {
                let reg_value = ir.get_extended_register_64(dest);
                let result = ir.or_64(reg_value, Value::ImmU64(imm));
                ir.set_extended_register_64(dest, result);
            }
            true
        },
        0b00011 | 0b00111 | 0b01011 | 0b01111 | 0b10011 | 0b10111 => {
            if q {
                let reg_value = ir.get_vector(dest);
                let mask_vec = ir.vector_broadcast(64, Value::ImmU64(!imm));
                let result = ir.vector_and(reg_value, mask_vec);
                ir.set_vector(dest, result);
            } else {
                let reg_value = ir.get_extended_register_64(dest);
                let result = ir.and_64(reg_value, Value::ImmU64(!imm));
                ir.set_extended_register_64(dest, result);
            }
            true
        },
        _ => undefined_instruction(ir),
    }
}

/// The lane that a four-bit field names: the position of its lowest set bit
/// gives the lane size, the bits above it the index.
pub open spec fn dup_lane(imm4: u32) -> (usize, u8) {
    if imm4 % 2 == 1 {
        (8, (imm4 / 2) as u8)
    } else if imm4 % 4 == 2 {
        (16, (imm4 / 4) as u8)
    } else {
        (32, (imm4 / 8) as u8)
    }
}

/// Copies of one lane of a double word in every lane.
pub open spec fn arm_asimd_vdup_scalar_ir(s: EmitterState, inst: DecodedArm) -> (
    EmitterState,
    bool,
) {
    let q = flag(&inst, 6);
    let imm4 = (inst.raw >> 16) & 0xF;
    if (q && field_vd(&inst) & 1 != 0) || imm4 == 0 || imm4 == 8 {
        undefined_ir(s)
    } else {
        let (esize, index) = dup_lane(imm4);
        let (s, m) = s.get_vector(m_reg(inst, false));
        let (s, result) = s.op2(opcode::vector_broadcast_element(esize), m, Value::ImmU8(index));
        (s.set_vector(dest_reg(inst, q), result), true)
    }
}

/// Translates the copying of one lane.
pub fn arm_asimd_vdup_scalar(ir: &mut A32IREmitter, inst: &DecodedArm) -> (r: bool)
    ensures
        (final(ir)@, r) == arm_asimd_vdup_scalar_ir(old(ir)@, *inst),
{
    let imm4: u32 = (inst.raw >> 16) & 0xF;
    let q = flag(inst, 6);
    let vd: u32 = field_vd(inst);
    let vm: u32 = field_vm(inst);
    if q && vd & 1 != 0 {
        return undefined_instruction(ir);
    }
    if imm4 % 8 == 0 {
        return undefined_instruction(ir);
    }
    let (esize, index): (usize, u8) = if imm4 % 2 == 1 {
        (8, (imm4 / 2) as u8)
    } else if imm4 % 4 == 2 {
        (16, (imm4 / 4) as u8)
    } else {
        (32, (imm4 / 8) as u8)
    };
    let dest = match to_vector_reg(q, flag(inst, 22), vd) {
        Some(found) => found,
        None => {
            return undefined_instruction(ir);
        },
    };
    let src = ExtReg::Double(double_index(flag(inst, 5), vm) as u8);
    let reg_m = ir.get_vector(src);
    let result = ir.vector_broadcast_element(esize, reg_m, index);
    ir.set_vector(dest, result);
    true
}

/// The rounded half of a sum.
pub open spec fn arm_asimd_vrhadd_ir(s: EmitterState, inst: DecodedArm) -> (EmitterState, bool) {
    let sz = (inst.raw >> 20) & 3;
    let q = flag(&inst, 6);
    if misaligned_dnm(inst, q) || sz == 3 {
        undefined_ir(s)
    } else {
        let esize = lane_size(sz);
        let (s, n) = s.get_vector(n_reg(inst, q));
        let (s, m) = s.get_vector(m_reg(inst, q));
        let operation = if flag(&inst, 24) {
            opcode::vector_rounding_halving_add_unsigned(esize)
        } else {
            opcode::vector_rounding_halving_add_signed(esize)
        };
        let (s, result) = s.op2(operation, n, m);
        (s.set_vector(dest_reg(inst, q), result), true)
    }
}

/// Translates the rounded half of a sum.
pub fn arm_asimd_vrhadd(ir: &mut A32IREmitter, inst: &DecodedArm) -> (r: bool)
    ensures
        (final(ir)@, r) == arm_asimd_vrhadd_ir(old(ir)@, *inst),
{
    let sz: u32 = (inst.raw >> 20) & 3;
    let q = flag(inst, 6);
    let vd: u32 = field_vd(inst);
    let vn: u32 = field_vn(inst);
    let vm: u32 = field_vm(inst);
    if q && (vd & 1 != 0 || vn & 1 != 0 || vm & 1 != 0) {
        return undefined_instruction(ir);
    }
    if sz == 0b11 {
        return undefined_instruction(ir);
    }
    let esize: usize = lane_size(sz);
    let d_reg = match to_vector_reg(q, flag(inst, 22), vd) {
        Some(found) => found,
        None => {
            return undefined_instruction(ir);
        },
    };
    let n_reg = match to_vector_reg(q, flag(inst, 7), vn) {
        Some(found) => found,
        None => {
            return undefined_instruction(ir);
        },
    };
    let m_reg = match to_vector_reg(q, flag(inst, 5), vm) {
        Some(found) => found,
        None => {
            return undefined_instruction(ir);
        },
    };
    let reg_n = ir.get_vector(n_reg);
    let reg_m = ir.get_vector(m_reg);
    let result = if flag(inst, 24) {
        ir.vector_rounding_halving_add_unsigned(esize, reg_n, reg_m)
    } else {
        ir.vector_rounding_halving_add_signed(esize, reg_n, reg_m)
    };
    ir.set_vector(d_reg, result);
    true
}

/// The lane of a quad word that is the scalar of a multiplication: halfword
/// scalars lie in the first four registers, word scalars in the first eight.
pub open spec fn scalar_location(esize: usize, m: bool, vm: u32) -> (ExtReg, u8) {
    let index = (vm % 2) * 4 + (if m { 2int } else { 0 }) + vm / 8;
    if esize == 16 {
        (ExtReg::Quad(((vm / 2) % 4) as u8), index as u8)
    } else {
        (ExtReg::Quad((vm / 2) as u8), (index / 2) as u8)
    }
}

fn get_scalar_location(esize: usize, m_bit: bool, vm: u32) -> (r: (ExtReg, u8))
    requires
        vm < 16,
    ensures
        r == scalar_location(esize, m_bit, vm),
{
    let m: u32 = if m_bit { 2 } else { 0 };
    let index: u32 = (vm % 2) * 4 + m + vm / 8;
    if esize == 16 {
        (ExtReg::Quad(((vm / 2) % 4) as u8), index as u8)
    } else {
        (ExtReg::Quad((vm / 2) as u8), (index / 2) as u8)
    }
}

/// How a multiplication by a scalar is refused: the largest size cannot be
/// decoded, the smallest (and halfwords as numbers) are undefined, and so are
/// odd quad words.
pub open spec fn scalar_multiply_refused(s: EmitterState, inst: DecodedArm) -> Option<
    (EmitterState, bool),
> {
    let sz = (inst.raw >> 20) & 3;
    let q = flag(&inst, 24);
    if sz == 3 {
        Some(decode_error_ir(s))
    } else if sz == 0 || (flag(&inst, 8) && sz == 1) || (q && (field_vd(&inst) & 1 != 0 || field_vn(
        &inst,
    ) & 1 != 0)) {
        Some(undefined_ir(s))
    } else {
        None
    }
}

/// The product of a vector and a scalar.
pub open spec fn scalar_product_ir(s: EmitterState, inst: DecodedArm) -> (EmitterState, Value) {
    let esize = lane_size((inst.raw >> 20) & 3);
    let (scalar, index) = scalar_location(esize, flag(&inst, 5), field_vm(&inst));
    let (s, n) = s.get_vector(n_reg(inst, flag(&inst, 24)));
    let (s, v) = s.get_vector(scalar);
    let (s, m) = s.op2(opcode::vector_broadcast_element(esize), v, Value::ImmU8(index));
    if flag(&inst, 8) {
        s.op3(opcode::fp_vector_mul(esize), n, m, Value::ImmU1(false))
    } else {
        s.op2(opcode::vector_multiply(esize), n, m)
    }
}

fn emit_scalar_product(ir: &mut A32IREmitter, inst: &DecodedArm, n_reg: ExtReg) -> (r: Value)
    requires
        n_reg == self::n_reg(*inst, flag(inst, 24)),
        (inst.raw >> 20) & 3 == 1 || (inst.raw >> 20) & 3 == 2,
        flag(inst, 8) ==> (inst.raw >> 20) & 3 == 2,
    ensures
        (final(ir)@, r) == scalar_product_ir(old(ir)@, *inst),
{
    let esize: usize = lane_size((inst.raw >> 20) & 3);
    let (scalar_reg, scalar_idx): (ExtReg, u8) = get_scalar_location(
        esize,
        flag(inst, 5),
        field_vm(inst),
    );
    let reg_n = ir.get_vector(n_reg);
    let scalar_vec = ir.get_vector(scalar_reg);
    let reg_m = ir.vector_broadcast_element(esize, scalar_vec, scalar_idx);
    if flag(inst, 8) {
        ir.fp_vector_mul(esize, reg_n, reg_m, false)
    } else {
        ir.vector_multiply(esize, reg_n, reg_m)
    }
}

/// A product of a vector and a scalar added to the destination, or taken from
/// it if bit 10 is set.
pub open spec fn arm_asimd_vmla_scalar_ir(s: EmitterState, inst: DecodedArm) -> (
    EmitterState,
    bool,
) {
    match scalar_multiply_refused(s, inst) {
        Some(refusal) => refusal,
        None => {
            let esize = lane_size((inst.raw >> 20) & 3);
            let dest = dest_reg(inst, flag(&inst, 24));
            let (s, product) = scalar_product_ir(s, inst);
            let (s, d) = s.get_vector(dest);
            let (s, result) = if flag(&inst, 8) {
                if flag(&inst, 10) {
                    s.op3(opcode::fp_vector_sub(esize), d, product, Value::ImmU1(false))
                } else {
                    s.op3(opcode::fp_vector_add(esize), d, product, Value::ImmU1(false))
                }
            } else {
                if flag(&inst, 10) {
                    s.op2(opcode::vector_sub(esize), d, product)
                } else {
                    s.op2(opcode::vector_add(esize), d, product)
                }
            };
            (s.set_vector(dest, result), true)
        },
    }
}

/// Translates a product of a vector and a scalar with accumulation.
pub fn arm_asimd_vmla_scalar(ir: &mut A32IREmitter, inst: &DecodedArm) -> (r: bool)
    ensures
        (final(ir)@, r) == arm_asimd_vmla_scalar_ir(old(ir)@, *inst),
{
    let sz: u32 = (inst.raw >> 20) & 3;
    let q = flag(inst, 24);
    let f = flag(inst, 8);
    let vd: u32 = field_vd(inst);
    let vn: u32 = field_vn(inst);
    if sz == 0b11 {
        return decode_error(ir);
    }
    if sz == 0b00 || (f && sz == 0b01) {
        return undefined_instruction(ir);
    }
    if q && (vd & 1 != 0 || vn & 1 != 0) {
        return undefined_instruction(ir);
    }
    let d_reg = match to_vector_reg(q, flag(inst, 22), vd) {
        Some(found) => found,
        None => {
            return undefined_instruction(ir);
        },
    };
    let n_reg = match to_vector_reg(q, flag(inst, 7), vn) {
        Some(found) => found,
        None => {
            return undefined_instruction(ir);
        },
    };
    let esize: usize = lane_size(sz);
    let product = emit_scalar_product(ir, inst, n_reg);
    let reg_d = ir.get_vector(d_reg);
    let result = if flag(inst, 10) {
        if f {
            ir.fp_vector_sub(esize, reg_d, product, false)
        } else {
            ir.vector_sub(esize, reg_d, product)
        }
    } else {
        if f {
            ir.fp_vector_add(esize, reg_d, product, false)
        } else {
            ir.vector_add(esize, reg_d, product)
        }
    };
    ir.set_vector(d_reg, result);
    true
}

/// A product of a vector and a scalar.
pub open spec fn arm_asimd_vmul_scalar_ir(s: EmitterState, inst: DecodedArm) -> (
    EmitterState,
    bool,
) {
    match scalar_multiply_refused(s, inst) {
        Some(refusal) => refusal,
        None => {
            let (s, product) = scalar_product_ir(s, inst);
            (s.set_vector(dest_reg(inst, flag(&inst, 24)), product), true)
        },
    }
}

/// Translates a product of a vector and a scalar.
pub fn arm_asimd_vmul_scalar(ir: &mut A32IREmitter, inst: &DecodedArm) -> (r: bool)
    ensures
        (final(ir)@, r) == arm_asimd_vmul_scalar_ir(old(ir)@, *inst),
{
    let sz: u32 = (inst.raw >> 20) & 3;
    let q = flag(inst, 24);
    let f = flag(inst, 8);
    let vd: u32 = field_vd(inst);
    let vn: u32 = field_vn(inst);
    if sz == 0b11 {
        return decode_error(ir);
    }
    if sz == 0b00 || (f && sz == 0b01) {
        return undefined_instruction(ir);
    }
    if q && (vd & 1 != 0 || vn & 1 != 0) {
        return undefined_instruction(ir);
    }
    let d_reg = match to_vector_reg(q, flag(inst, 22), vd) {
        Some(found) => found,
        None => {
            return undefined_instruction(ir);
        },
    };
    let n_reg = match to_vector_reg(q, flag(inst, 7), vn) {
        Some(found) => found,
        None => {
            return undefined_instruction(ir);
        },
    };
    let result = emit_scalar_product(ir, inst, n_reg);
    ir.set_vector(d_reg, result);
    true
}

/// A conversion between integers and single-precision numbers: bit 8 gives
/// the direction, bit 7 whether the integers are unsigned. Conversions to
/// integers round towards zero.
pub open spec fn arm_asimd_vcvt_integer_ir(s: EmitterState, inst: DecodedArm) -> (
    EmitterState,
    bool,
) {
    let q = flag(&inst, 6);
    if misaligned_dm(inst, q) || (inst.raw >> 18) & 3 != 2 {
        undefined_ir(s)
    } else {
        let to_integer = flag(&inst, 8);
        let unsigned = flag(&inst, 7);
        let operation = if to_integer {
            if unsigned {
                Opcode::FPVectorToUnsignedFixed32
            } else {
                Opcode::FPVectorToSignedFixed32
            }
        } else {
            if unsigned {
                Opcode::FPVectorFromUnsignedFixed32
            } else {
                Opcode::FPVectorFromSignedFixed32
            }
        };
        let rounding: u8 = if to_integer { 3 } else { 0 };
        let (s, m) = s.get_vector(m_reg(inst, q));
        let (s, result) = s.op4(
            operation,
            m,
            Value::ImmU8(0),
            Value::ImmU8(rounding),
            Value::ImmU1(false),
        );
        (s.set_vector(dest_reg(inst, q), result), true)
    }
}

/// Translates a conversion between integers and single-precision numbers.
pub fn arm_asimd_vcvt_integer(ir: &mut A32IREmitter, inst: &DecodedArm) -> (r: bool)
    ensures
        (final(ir)@, r) == arm_asimd_vcvt_integer_ir(old(ir)@, *inst),
{
    let sz: u32 = (inst.raw >> 18) & 3;
    let op = flag(inst, 8);
    let u = flag(inst, 7);
    let q = flag(inst, 6);
    let vd: u32 = field_vd(inst);
    let vm: u32 = field_vm(inst);
    if q && (vd & 1 != 0 || vm & 1 != 0) {
        return undefined_instruction(ir);
    }
    if sz != 0b10 {
        return undefined_instruction(ir);
    }
    let esize: usize = lane_size(sz);
    let d_reg = match to_vector_reg(q, flag(inst, 22), vd) {
        Some(found) => found,
        None => {
            return undefined_instruction(ir);
        },
    };
    let m_reg = match to_vector_reg(q, flag(inst, 5), vm) {
        Some(found) => found,
        None => {
            return undefined_instruction(ir);
        },
    };
    let reg_m = ir.get_vector(m_reg);
    let result = if op {
        if u {
            ir.fp_vector_to_unsigned_fixed(esize, reg_m, 0, 3, false)
        } else {
            ir.fp_vector_to_signed_fixed(esize, reg_m, 0, 3, false)
        }
    } else if u {
        ir.fp_vector_from_unsigned_fixed(esize, reg_m, 0, 0, false)
    } else {
        ir.fp_vector_from_signed_fixed(esize, reg_m, 0, 0, false)
    };
    ir.set_vector(d_reg, result);
    true
}

/// A transposition of the lanes of two vectors, which must be distinct.
pub open spec fn arm_asimd_vtrn_ir(s: EmitterState, inst: DecodedArm) -> (EmitterState, bool) {
    let sz = (inst.raw >> 18) & 3;
    let q = flag(&inst, 6);
    let (d, m) = (dest_reg(inst, q), m_reg(inst, q));
    if sz == 3 || misaligned_dm(inst, q) {
        undefined_ir(s)
    } else if d == m {
        unpredictable_ir(s)
    } else {
        let transpose = opcode::vector_transpose(lane_size(sz));
        let (s, vd) = s.get_vector(d);
        let (s, vm) = s.get_vector(m);
        let (s, even) = s.op3(transpose, vd, vm, Value::ImmU1(false));
        let (s, odd) = s.op3(transpose, vd, vm, Value::ImmU1(true));
        (s.set_vector(d, even).set_vector(m, odd), true)
    }
}

/// Translates a transposition.
pub fn arm_asimd_vtrn(ir: &mut A32IREmitter, inst: &DecodedArm) -> (r: bool)
    ensures
        (final(ir)@, r) == arm_asimd_vtrn_ir(old(ir)@, *inst),
{
    let sz: u32 = (inst.raw >> 18) & 3;
    let q = flag(inst, 6);
    let vd: u32 = field_vd(inst);
    let vm: u32 = field_vm(inst);
    if sz == 3 {
        return undefined_instruction(ir);
    }
    if q && (vd & 1 != 0 || vm & 1 != 0) {
        return undefined_instruction(ir);
    }
    let esize: usize = lane_size(sz);
    let d_reg = match to_vector_reg(q, flag(inst, 22), vd) {
        Some(found) => found,
        None => {
            return undefined_instruction(ir);
        },
    };
    let m_reg = match to_vector_reg(q, flag(inst, 5), vm) {
        Some(found) => found,
        None => {
            return undefined_instruction(ir);
        },
    };
    if d_reg == m_reg {
        return unpredictable_instruction(ir);
    }
    let reg_d = ir.get_vector(d_reg);
    let reg_m = ir.get_vector(m_reg);
    let result_d = ir.vector_transpose(esize, reg_d, reg_m, false);
    let result_m = ir.vector_transpose(esize, reg_d, reg_m, true);
    ir.set_vector(d_reg, result_d);
    ir.set_vector(m_reg, result_m);
    true
}

/// The bytes from a position in a pair of vectors. Within double words the
/// position is below eight.
pub open spec fn arm_asimd_vext_ir(s: EmitterState, inst: DecodedArm) -> (EmitterState, bool) {
    let q = flag(&inst, 6);
    let imm4 = (inst.raw >> 8) & 0xF;
    if misaligned_dnm(inst, q) || (!q && imm4 >= 8) {
        undefined_ir(s)
    } else {
        let (s, n) = s.get_vector(n_reg(inst, q));
        let (s, m) = s.get_vector(m_reg(inst, q));
        let extract = if q {
            Opcode::VectorExtract
        } else {
            Opcode::VectorExtractLower
        };
        let (s, result) = s.op3(extract, n, m, Value::ImmU8((8 * imm4) as u8));
        (s.set_vector(dest_reg(inst, q), result), true)
    }
}

/// Translates an extraction of bytes from a pair of vectors.
pub fn arm_asimd_vext(ir: &mut A32IREmitter, inst: &DecodedArm) -> (r: bool)
    ensures
        (final(ir)@, r) == arm_asimd_vext_ir(old(ir)@, *inst),
{
    let imm4: u32 = (inst.raw >> 8) & 0xF;
    let q = flag(inst, 6);
    let vd: u32 = field_vd(inst);
    let vn: u32 = field_vn(inst);
    let vm: u32 = field_vm(inst);
    if q && (vd & 1 != 0 || vn & 1 != 0 || vm & 1 != 0) {
        return undefined_instruction(ir);
    }
    if !q && imm4 >= 8 {
        return undefined_instruction(ir);
    }
    let position: u8 = (8 * imm4) as u8;
    let d_reg = match to_vector_reg(q, flag(inst, 22), vd) {
        Some(found) => found,
        None => {
            return undefined_instruction(ir);
        },
    };
    let n_reg = match to_vector_reg(q, flag(inst, 7), vn) {
        Some(found) => found,
        None => {
            return undefined_instruction(ir);
        },
    };
    let m_reg = match to_vector_reg(q, flag(inst, 5), vm) {
        Some(found) => found,
        None => {
            return undefined_instruction(ir);
        },
    };
    let reg_n = ir.get_vector(n_reg);
    let reg_m = ir.get_vector(m_reg);
    let result = if q {
        ir.vector_extract(reg_n, reg_m, position)
    } else {
        ir.vector_extract_lower(reg_n, reg_m, position)
    };
    ir.set_vector(d_reg, result);
    true
}

/// Reading a double-word extension register.
pub open spec fn get_double_ir(s: EmitterState, index: int) -> (EmitterState, Value) {
    s.op1(Opcode::A32GetExtendedRegister64, Value::ImmA32ExtReg(ExtReg::Double(index as u8)))
}

/// Writing a double-word extension register.
pub open spec fn set_double_ir(s: EmitterState, index: int, value: Value) -> EmitterState {
    s.op2(
        Opcode::A32SetExtendedRegister64,
        Value::ImmA32ExtReg(ExtReg::Double(index as u8)),
        value,
    ).0
}

/// A lookup of bytes in a table of one to four double words, which has to end
/// within the registers. Bytes out of range give zero, or the old bytes of
/// the destination.
pub open spec fn table_lookup_ir(s: EmitterState, inst: DecodedArm, is_vtbl: bool) -> (
    EmitterState,
    bool,
) {
    let length = ((inst.raw >> 8) & 3) + 1;
    let first = double_index(flag(&inst, 7), field_vn(&inst)) as int;
    let dest = double_index(flag(&inst, 22), field_vd(&inst)) as int;
    if first + length > 32 {
        unpredictable_ir(s)
    } else {
        let (s, a) = get_double_ir(s, first);
        let (s, b) = if length >= 2 { get_double_ir(s, first + 1) } else { (s, Value::Void) };
        let (s, c) = if length >= 3 { get_double_ir(s, first + 2) } else { (s, Value::Void) };
        let (s, d) = if length >= 4 { get_double_ir(s, first + 3) } else { (s, Value::Void) };
        let (s, table) = s.vector_table(length, a, b, c, d);
        let (s, indices) = get_double_ir(
            s,
            double_index(flag(&inst, 5), field_vm(&inst)) as int,
        );
        let (s, defaults) = if is_vtbl {
            (s, Value::ImmU64(0))
        } else {
            get_double_ir(s, dest)
        };
        let (s, result) = s.op3(Opcode::VectorTableLookup64, defaults, table, indices);
        (set_double_ir(s, dest, result), true)
    }
}

fn table_lookup(ir: &mut A32IREmitter, inst: &DecodedArm, is_vtbl: bool) -> (r: bool)
    ensures
        (final(ir)@, r) == table_lookup_ir(old(ir)@, *inst, is_vtbl),
{
    let length: u32 = ((inst.raw >> 8) & 3) + 1;
    let d_reg = ExtReg::Double(double_index(flag(inst, 22), field_vd(inst)) as u8);
    let m_reg = ExtReg::Double(double_index(flag(inst, 5), field_vm(inst)) as u8);
    let n_base: u32 = double_index(flag(inst, 7), field_vn(inst));
    if n_base + length > 32 {
        return unpredictable_instruction(ir);
    }
    let first = ir.get_extended_register_64(ExtReg::Double(n_base as u8));
    let second = if length >= 2 {
        ir.get_extended_register_64(ExtReg::Double((n_base + 1) as u8))
    } else {
        Value::Void
    };
    let third = if length >= 3 {
        ir.get_extended_register_64(ExtReg::Double((n_base + 2) as u8))
    } else {
        Value::Void
    };
    let fourth = if length >= 4 {
        ir.get_extended_register_64(ExtReg::Double((n_base + 3) as u8))
    } else {
        Value::Void
    };
    let table = ir.vector_table(length as usize, first, second, third, fourth);
    let indices = ir.get_extended_register_64(m_reg);
    let defaults = if is_vtbl {
        Value::ImmU64(0)
    } else {
        ir.get_extended_register_64(d_reg)
    };
    let result = ir.vector_table_lookup_64(defaults, table, indices);
    ir.set_extended_register_64(d_reg, result);
    true
}

/// Translates a table lookup that gives zero out of range.
pub fn arm_asimd_vtbl(ir: &mut A32IREmitter, inst: &DecodedArm) -> (r: bool)
    ensures
        (final(ir)@, r) == table_lookup_ir(old(ir)@, *inst, true),
{
    table_lookup(ir, inst, true)
}

/// Translates a table lookup that keeps the destination out of range.
pub fn arm_asimd_vtbx(ir: &mut A32IREmitter, inst: &DecodedArm) -> (r: bool)
    ensures
        (final(ir)@, r) == table_lookup_ir(old(ir)@, *inst, false),
{
    table_lookup(ir, inst, false)
}

/// The separation of the even lanes of two distinct vectors from the odd.
pub open spec fn arm_asimd_vuzp_ir(s: EmitterState, inst: DecodedArm) -> (EmitterState, bool) {
    let sz = (inst.raw >> 18) & 3;
    let q = flag(&inst, 6);
    let (d, m) = (dest_reg(inst, q), m_reg(inst, q));
    let esize = lane_size(sz);
    if sz == 3 || (!q && sz == 2) || misaligned_dm(inst, q) {
        undefined_ir(s)
    } else if d == m {
        unpredictable_ir(s)
    } else {
        let (s, vd) = s.get_vector(d);
        let (s, vm) = s.get_vector(m);
        let (s, even) = if q {
            s.op2(opcode::vector_deinterleave_even(esize), vd, vm)
        } else {
            s.op2(opcode::vector_deinterleave_even_lower(esize), vd, vm)
        };
        let (s, odd) = if q {
            s.op2(opcode::vector_deinterleave_odd(esize), vd, vm)
        } else {
            s.op2(opcode::vector_deinterleave_odd_lower(esize), vd, vm)
        };
        (s.set_vector(d, even).set_vector(m, odd), true)
    }
}

/// Translates the separation of even and odd lanes.
pub fn arm_asimd_vuzp(ir: &mut A32IREmitter, inst: &DecodedArm) -> (r: bool)
    ensures
        (final(ir)@, r) == arm_asimd_vuzp_ir(old(ir)@, *inst),
{
    let sz: u32 = (inst.raw >> 18) & 3;
    let q = flag(inst, 6);
    let vd: u32 = field_vd(inst);
    let vm: u32 = field_vm(inst);
    if sz == 0b11 || (!q && sz == 0b10) {
        return undefined_instruction(ir);
    }
    if q && (vd & 1 != 0 || vm & 1 != 0) {
        return undefined_instruction(ir);
    }
    let esize: usize = lane_size(sz);
    let d_reg = match to_vector_reg(q, flag(inst, 22), vd) {
        Some(found) => found,
        None => {
            return undefined_instruction(ir);
        },
    };
    let m_reg = match to_vector_reg(q, flag(inst, 5), vm) {
        Some(found) => found,
        None => {
            return undefined_instruction(ir);
        },
    };
    if d_reg == m_reg {
        return unpredictable_instruction(ir);
    }
    let reg_d = ir.get_vector(d_reg);
    let reg_m = ir.get_vector(m_reg);
    let result_d = if q {
        ir.vector_deinterleave_even(esize, reg_d, reg_m)
    } else {
        ir.vector_deinterleave_even_lower(esize, reg_d, reg_m)
    };
    let result_m = if q {
        ir.vector_deinterleave_odd(esize, reg_d, reg_m)
    } else {
        ir.vector_deinterleave_odd_lower(esize, reg_d, reg_m)
    };
    ir.set_vector(d_reg, result_d);
    ir.set_vector(m_reg, result_m);
    true
}

/// The interleaving of the lanes of two distinct vectors.
pub open spec fn arm_asimd_vzip_ir(s: EmitterState, inst: DecodedArm) -> (EmitterState, bool) {
    let sz = (inst.raw >> 18) & 3;
    let q = flag(&inst, 6);
    let (d, m) = (dest_reg(inst, q), m_reg(inst, q));
    let esize = lane_size(sz);
    if sz == 3 || (!q && sz == 2) || misaligned_dm(inst, q) {
        undefined_ir(s)
    } else if d == m {
        unpredictable_ir(s)
    } else {
        let (s, vd) = s.get_vector(d);
        let (s, vm) = s.get_vector(m);
        let (s, lower) = s.op2(opcode::vector_interleave_lower(esize), vd, vm);
        if q {
            let (s, upper) = s.op2(opcode::vector_interleave_upper(esize), vd, vm);
            (s.set_vector(d, lower).set_vector(m, upper), true)
        } else {
            let (s, first) = s.op2(Opcode::VectorGetElement64, lower, Value::ImmU8(0));
            let (s, second) = s.op2(Opcode::VectorGetElement64, lower, Value::ImmU8(1));
            let s = s.op2(Opcode::A32SetExtendedRegister64, Value::ImmA32ExtReg(d), first).0;
            (
                s.op2(Opcode::A32SetExtendedRegister64, Value::ImmA32ExtReg(m), second).0,
                true,
            )
        }
    }
}

/// Translates the interleaving of lanes.
pub fn arm_asimd_vzip(ir: &mut A32IREmitter, inst: &DecodedArm) -> (r: bool)
    ensures
        (final(ir)@, r) == arm_asimd_vzip_ir(old(ir)@, *inst),
{
    let sz: u32 = (inst.raw >> 18) & 3;
    let q = flag(inst, 6);
    let vd: u32 = field_vd(inst);
    let vm: u32 = field_vm(inst);
    if sz == 0b11 || (!q && sz == 0b10) {
        return undefined_instruction(ir);
    }
    if q && (vd & 1 != 0 || vm & 1 != 0) {
        return undefined_instruction(ir);
    }
    let esize: usize = lane_size(sz);
    let d_reg = match to_vector_reg(q, flag(inst, 22), vd) {
        Some(found) => found,
        None => {
            return undefined_instruction(ir);
        },
    };
    let m_reg = match to_vector_reg(q, flag(inst, 5), vm) {
        Some(found) => found,
        None => {
            return undefined_instruction(ir);
        },
    };
    if d_reg == m_reg {
        return unpredictable_instruction(ir);
    }
    let reg_d = ir.get_vector(d_reg);
    let reg_m = ir.get_vector(m_reg);
    let result = ir.vector_interleave_lower(esize, reg_d, reg_m);
    if q {
        let result_m = ir.vector_interleave_upper(esize, reg_d, reg_m);
        ir.set_vector(d_reg, result);
        ir.set_vector(m_reg, result_m);
    } else {
        let result_d = ir.vector_get_element(64, result, 0);
        let result_m = ir.vector_get_element(64, result, 1);
        ir.set_extended_register_64(d_reg, result_d);
        ir.set_extended_register_64(m_reg, result_m);
    }
    true
}

/// An estimate of the lanes of a vector: `float` with lanes as numbers,
/// `integer` with words as fractions. Other lane sizes are undefined.
pub open spec fn estimate_ir(
    s: EmitterState,
    inst: DecodedArm,
    float: Opcode,
    integer: Opcode,
) -> (EmitterState, bool) {
    let sz = (inst.raw >> 18) & 3;
    let f = flag(&inst, 8);
    let q = flag(&inst, 6);
    if misaligned_dm(inst, q) || sz == 0 || sz == 3 || (!f && sz == 1) {
        undefined_ir(s)
    } else {
        let (s, m) = s.get_vector(m_reg(inst, q));
        let (s, result) = if f {
            s.op2(float, m, Value::ImmU1(false))
        } else {
            s.op1(integer, m)
        };
        (s.set_vector(dest_reg(inst, q), result), true)
    }
}

/// The estimate of the reciprocal of each lane.
pub open spec fn arm_asimd_vrecpe_ir(s: EmitterState, inst: DecodedArm) -> (EmitterState, bool) {
    estimate_ir(
        s,
        inst,
        opcode::fp_vector_recip_estimate(lane_size((inst.raw >> 18) & 3)),
        Opcode::VectorUnsignedRecipEstimate,
    )
}

/// Translates the estimate of the reciprocal of each lane.
pub fn arm_asimd_vrecpe(ir: &mut A32IREmitter, inst: &DecodedArm) -> (r: bool)
    ensures
        (final(ir)@, r) == arm_asimd_vrecpe_ir(old(ir)@, *inst),
{
    let sz: u32 = (inst.raw >> 18) & 3;
    let f = flag(inst, 8);
    let q = flag(inst, 6);
    let vd: u32 = field_vd(inst);
    let vm: u32 = field_vm(inst);
    if q && (vd & 1 != 0 || vm & 1 != 0) {
        return undefined_instruction(ir);
    }
    if sz == 0b00 || sz == 0b11 || (!f && sz == 0b01) {
        return undefined_instruction(ir);
    }
    let esize: usize = lane_size(sz);
    let d_reg = match to_vector_reg(q, flag(inst, 22), vd) {
        Some(found) => found,
        None => {
            return undefined_instruction(ir);
        },
    };
    let m_reg = match to_vector_reg(q, flag(inst, 5), vm) {
        Some(found) => found,
        None => {
            return undefined_instruction(ir);
        },
    };
    let reg_m = ir.get_vector(m_reg);
    let result = if f {
        ir.fp_vector_recip_estimate(esize, reg_m, false)
    } else {
        ir.vector_unsigned_recip_estimate(reg_m)
    };
    ir.set_vector(d_reg, result);
    true
}

/// The estimate of the reciprocal square root of each lane.
pub open spec fn arm_asimd_vrsqrte_ir(s: EmitterState, inst: DecodedArm) -> (EmitterState, bool) {
    estimate_ir(
        s,
        inst,
        opcode::fp_vector_rsqrt_estimate(lane_size((inst.raw >> 18) & 3)),
        Opcode::VectorUnsignedRecipSqrtEstimate,
    )
}

/// Translates the estimate of the reciprocal square root of each lane.
pub fn arm_asimd_vrsqrte(ir: &mut A32IREmitter, inst: &DecodedArm) -> (r: bool)
    ensures
        (final(ir)@, r) == arm_asimd_vrsqrte_ir(old(ir)@, *inst),
{
    let sz: u32 = (inst.raw >> 18) & 3;
    let f = flag(inst, 8);
    let q = flag(inst, 6);
    let vd: u32 = field_vd(inst);
    let vm: u32 = field_vm(inst);
    if q && (vd & 1 != 0 || vm & 1 != 0) {
        return undefined_instruction(ir);
    }
    if sz == 0b00 || sz == 0b11 || (!f && sz == 0b01) {
        return undefined_instruction(ir);
    }
    let esize: usize = lane_size(sz);
    let d_reg = match to_vector_reg(q, flag(inst, 22), vd) {
        Some(found) => found,
        None => {
            return undefined_instruction(ir);
        },
    };
    let m_reg = match to_vector_reg(q, flag(inst, 5), vm) {
        Some(found) => found,
        None => {
            return undefined_instruction(ir);
        },
    };
    let reg_m = ir.get_vector(m_reg);
    let result = if f {
        ir.fp_vector_rsqrt_estimate(esize, reg_m, false)
    } else {
        ir.vector_unsigned_recip_sqrt_estimate(reg_m)
    };
    ir.set_vector(d_reg, result);
    true
}

/// The negative of each lane, as integers or as single-precision numbers.
pub open spec fn arm_asimd_vneg_int_ir(s: EmitterState, inst: DecodedArm) -> (EmitterState, bool) {
    let sz = (inst.raw >> 18) & 3;
    let f = flag(&inst, 10);
    let q = flag(&inst, 6);
    if sz == 3 || (f && sz != 2) || misaligned_dm(inst, q) {
        undefined_ir(s)
    } else {
        let (s, m) = s.get_vector(m_reg(inst, q));
        let (s, result) = if f {
            s.op1(Opcode::FPVectorNeg32, m)
        } else {
            let (s, zero) = s.op0(Opcode::ZeroVector);
            s.op2(opcode::vector_sub(lane_size(sz)), zero, m)
        };
        (s.set_vector(dest_reg(inst, q), result), true)
    }
}

/// Translates the negative of each lane.
pub fn arm_asimd_vneg_int(ir: &mut A32IREmitter, inst: &DecodedArm) -> (r: bool)
    ensures
        (final(ir)@, r) == arm_asimd_vneg_int_ir(old(ir)@, *inst),
{
    let sz: u32 = (inst.raw >> 18) & 3;
    let f = flag(inst, 10);
    let q = flag(inst, 6);
    let vd: u32 = field_vd(inst);
    let vm: u32 = field_vm(inst);
    if sz == 0b11 || (f && sz != 0b10) || (q && (vd & 1 != 0 || vm & 1 != 0)) {
        return undefined_instruction(ir);
    }
    let esize: usize = lane_size(sz);
    let d_reg = match to_vector_reg(q, flag(inst, 22), vd) {
        Some(found) => found,
        None => {
            return undefined_instruction(ir);
        },
    };
    let m_reg = match to_vector_reg(q, flag(inst, 5), vm) {
        Some(found) => found,
        None => {
            return undefined_instruction(ir);
        },
    };
    let reg_m = ir.get_vector(m_reg);
    let result = if f {
        ir.fp_vector_neg(32, reg_m)
    } else {
        let zero = ir.zero_vector();
        ir.vector_sub(esize, zero, reg_m)
    };
    ir.set_vector(d_reg, result);
    true
}

/// The absolute value of each lane, as integers or as single-precision numbers.
pub open spec fn arm_asimd_vabs_int_ir(s: EmitterState, inst: DecodedArm) -> (EmitterState, bool) {
    let sz = (inst.raw >> 18) & 3;
    let f = flag(&inst, 10);
    let q = flag(&inst, 6);
    if sz == 3 || (f && sz != 2) || misaligned_dm(inst, q) {
        undefined_ir(s)
    } else {
        let (s, m) = s.get_vector(m_reg(inst, q));
        let (s, result) = if f {
            s.op1(Opcode::FPVectorAbs32, m)
        } else {
            s.op1(opcode::vector_abs(lane_size(sz)), m)
        };
        (s.set_vector(dest_reg(inst, q), result), true)
    }
}

/// Translates the absolute value of each lane.
pub fn arm_asimd_vabs_int(ir: &mut A32IREmitter, inst: &DecodedArm) -> (r: bool)
    ensures
        (final(ir)@, r) == arm_asimd_vabs_int_ir(old(ir)@, *inst),
{
    let sz: u32 = (inst.raw >> 18) & 3;
    let f = flag(inst, 10);
    let q = flag(inst, 6);
    let vd: u32 = field_vd(inst);
    let vm: u32 = field_vm(inst);
    if sz == 0b11 || (f && sz != 0b10) || (q && (vd & 1 != 0 || vm & 1 != 0)) {
        return undefined_instruction(ir);
    }
    let esize: usize = lane_size(sz);
    let d_reg = match to_vector_reg(q, flag(inst, 22), vd) {
        Some(found) => found,
        None => {
            return undefined_instruction(ir);
        },
    };
    let m_reg = match to_vector_reg(q, flag(inst, 5), vm) {
        Some(found) => found,
        None => {
            return undefined_instruction(ir);
        },
    };
    let reg_m = ir.get_vector(m_reg);
    let result = if f {
        ir.fp_vector_abs(32, reg_m)
    } else {
        ir.vector_abs(esize, reg_m)
    };
    ir.set_vector(d_reg, result);
    true
}

/// Writing the base register of a structure access back: not at all if `Rm`
/// is the program counter, by the size of the access if it is the stack
/// pointer, else by the value of `Rm`.
pub open spec fn write_back_ir(s: EmitterState, n: Reg, m: Reg, size: int) -> EmitterState {
    if m == Reg::R15 {
        s
    } else {
        let (s, base) = s.get_register(n);
        let (s, step) = if m == Reg::R13 {
            (s, Value::ImmU32(size as u32))
        } else {
            s.get_register(m)
        };
        let (s, updated) = s.op3(Opcode::Add32, base, step, Value::ImmU1(false));
        s.set_register(n, updated)
    }
}

fn emit_write_back(ir: &mut A32IREmitter, n: Reg, m: Reg, size: u32)
    ensures
        final(ir)@ == write_back_ir(old(ir)@, n, m, size as int),
{
    let wback = m != Reg::R15;
    let register_index = m != Reg::R15 && m != Reg::R13;
    if wback {
        if register_index {
            let base = ir.get_register(n);
            let index = ir.get_register(m);
            let updated = ir.add_32(base, index, Value::ImmU1(false));
            ir.set_register(n, updated);
        } else {
            let base = ir.get_register(n);
            let updated = ir.add_32(base, Value::ImmU32(size), Value::ImmU1(false));
            ir.set_register(n, updated);
        }
    }
}

/// The low bits of a double word.
pub open spec fn least_significant_ir(s: EmitterState, bits: int, value: Value) -> (
    EmitterState,
    Value,
) {
    if bits == 8 {
        s.op1(Opcode::LeastSignificantByte, value)
    } else if bits == 16 {
        s.op1(Opcode::LeastSignificantHalf, value)
    } else if bits == 32 {
        s.op1(Opcode::LeastSignificantWord, value)
    } else {
        (s, value)
    }
}

fn least_significant(ir: &mut A32IREmitter, bits: usize, value: Value) -> (r: Value)
    ensures
        (final(ir)@, r) == least_significant_ir(old(ir)@, bits as int, value),
{
    match bits {
        8 => ir.least_significant_byte(value),
        16 => ir.least_significant_half(value),
        32 => ir.least_significant_word(value),
        _ => value,
    }
}

/// An element as a double word.
pub open spec fn zero_extend_ir(s: EmitterState, bits: int, value: Value) -> (EmitterState, Value) {
    if bits == 8 {
        s.op1(Opcode::ZeroExtendByteToLong, value)
    } else if bits == 16 {
        s.op1(Opcode::ZeroExtendHalfToLong, value)
    } else if bits == 32 {
        s.op1(Opcode::ZeroExtendWordToLong, value)
    } else {
        (s, value)
    }
}

fn zero_extend(ir: &mut A32IREmitter, bits: usize, value: Value) -> (r: Value)
    ensures
        (final(ir)@, r) == zero_extend_ir(old(ir)@, bits as int, value),
{
    match bits {
        8 => ir.zero_extend_byte_to_long(value),
        16 => ir.zero_extend_half_to_long(value),
        32 => ir.zero_extend_word_to_long(value),
        _ => value,
    }
}

/// A read of an element.
pub open spec fn read_element_ir(s: EmitterState, bits: int, address: Value) -> (
    EmitterState,
    Value,
) {
    if bits == 8 {
        s.read_memory_8(address, AccType::Normal)
    } else if bits == 16 {
        s.read_memory_16(address, AccType::Normal)
    } else if bits == 32 {
        s.read_memory_32(address, AccType::Normal)
    } else {
        s.read_memory_64(address, AccType::Normal)
    }
}

fn read_memory(ir: &mut A32IREmitter, bits: usize, address: Value) -> (r: Value)
    ensures
        (final(ir)@, r) == read_element_ir(old(ir)@, bits as int, address),
{
    match bits {
        8 => ir.read_memory_8(address, AccType::Normal),
        16 => ir.read_memory_16(address, AccType::Normal),
        32 => ir.read_memory_32(address, AccType::Normal),
        _ => ir.read_memory_64(address, AccType::Normal),
    }
}

/// A write of an element.
pub open spec fn write_element_ir(
    s: EmitterState,
    bits: int,
    address: Value,
    value: Value,
) -> EmitterState {
    if bits == 8 {
        s.write_memory_8(address, value, AccType::Normal)
    } else if bits == 16 {
        s.write_memory_16(address, value, AccType::Normal)
    } else if bits == 32 {
        s.write_memory_32(address, value, AccType::Normal)
    } else {
        s.write_memory_64(address, value, AccType::Normal)
    }
}

fn write_memory(ir: &mut A32IREmitter, bits: usize, address: Value, value: Value)
    ensures
        final(ir)@ == write_element_ir(old(ir)@, bits as int, address, value),
{
    match bits {
        8 => ir.write_memory_8(address, value, AccType::Normal),
        16 => ir.write_memory_16(address, value, AccType::Normal),
        32 => ir.write_memory_32(address, value, AccType::Normal),
        _ => ir.write_memory_64(address, value, AccType::Normal),
    }
}

/// The address after an element.
pub open spec fn next_address_ir(s: EmitterState, bits: int, address: Value) -> (
    EmitterState,
    Value,
) {
    s.op3(Opcode::Add32, address, Value::ImmU32((bits / 8) as u32), Value::ImmU1(false))
}

/// How structures lie in registers: the first register, the number of
/// elements of a structure, how many registers in a row each element fills,
/// the distance from one element's register to the next, and the size of an
/// element in bits.
pub struct Layout {
    pub first: int,
    pub nelem: int,
    pub regs: int,
    pub inc: int,
    pub bits: int,
}

impl Layout {
    /// The register of element `i` in row `r`.
    pub open spec fn register(self, i: int, r: int) -> int {
        self.first + i * self.inc + r
    }

    /// The number of elements in a register.
    pub open spec fn lanes(self) -> int {
        64int / self.bits
    }

    /// Whether the registers go beyond the last one.
    pub open spec fn overruns(self) -> bool {
        self.first + self.inc * (self.nelem - 1) + self.regs > 32
    }
}

/// The layouts of accesses to several structures: elements, rows and distance
/// by the type of the access. Some alignments and sizes are undefined.
pub open spec fn multiple_type(type_: u32, size: u32, align: u32) -> Option<(int, int, int)> {
    if type_ == 0b0111 && align & 2 == 0 {
        Some((1, 1, 0))
    } else if type_ == 0b1010 && align != 3 {
        Some((1, 2, 0))
    } else if type_ == 0b0110 && align & 2 == 0 {
        Some((1, 3, 0))
    } else if type_ == 0b0010 {
        Some((1, 4, 0))
    } else if type_ == 0b1000 && size != 3 && align != 3 {
        Some((2, 1, 1))
    } else if type_ == 0b1001 && size != 3 && align != 3 {
        Some((2, 1, 2))
    } else if type_ == 0b0011 && size != 3 {
        Some((2, 2, 2))
    } else if type_ == 0b0100 && size != 3 && align & 2 == 0 {
        Some((3, 1, 1))
    } else if type_ == 0b0101 && size != 3 && align & 2 == 0 {
        Some((3, 1, 2))
    } else if type_ == 0b0000 && size != 3 {
        Some((4, 1, 1))
    } else if type_ == 0b0001 && size != 3 {
        Some((4, 1, 2))
    } else {
        None
    }
}

fn decode_vst_ld_multiple_type(type_: u32, size: u32, align: u32) -> (r: Option<
    (usize, usize, usize),
>)
    ensures
        r is Some <==> multiple_type(type_, size, align) is Some,
        r matches Some(v) ==> multiple_type(type_, size, align) == Some(
            (v.0 as int, v.1 as int, v.2 as int),
        ) && 1 <= v.0 <= 4 && 1 <= v.1 <= 4 && v.2 <= 2,
{
    match type_ {
        0b0111 => if align & 2 != 0 { None } else { Some((1, 1, 0)) },
        0b1010 => if align == 3 { None } else { Some((1, 2, 0)) },
        0b0110 => if align & 2 != 0 { None } else { Some((1, 3, 0)) },
        0b0010 => Some((1, 4, 0)),
        0b1000 => if size == 3 || align == 3 { None } else { Some((2, 1, 1)) },
        0b1001 => if size == 3 || align == 3 { None } else { Some((2, 1, 2)) },
        0b0011 => if size == 3 { None } else { Some((2, 2, 2)) },
        0b0100 => if size == 3 || align & 2 != 0 { None } else { Some((3, 1, 1)) },
        0b0101 => if size == 3 || align & 2 != 0 { None } else { Some((3, 1, 2)) },
        0b0000 => if size == 3 { None } else { Some((4, 1, 1)) },
        0b0001 => if size == 3 { None } else { Some((4, 1, 2)) },
        _ => None,
    }
}

/// The layout of an access to several structures.
pub open spec fn multiple_layout(inst: DecodedArm) -> Option<Layout> {
    let size = (inst.raw >> 6) & 3;
    match multiple_type((inst.raw >> 8) & 0xF, size, (inst.raw >> 4) & 3) {
        Some((nelem, regs, inc)) => Some(
            Layout {
                first: double_index(flag(&inst, 22), field_vd(&inst)) as int,
                nelem,
                regs,
                inc,
                bits: lane_size(size) as int,
            },
        ),
        None => None,
    }
}

/// Storing a lane of a register to an address, which moves on.
pub open spec fn store_element_ir(
    s: EmitterState,
    address: Value,
    bits: int,
    register: int,
    lane: int,
) -> (EmitterState, Value) {
    let (s, value) = get_double_ir(s, register);
    let (s, shifted) = if lane == 0 {
        (s, value)
    } else {
        s.op2(Opcode::LogicalShiftRight64, value, Value::ImmU8((lane * bits) as u8))
    };
    let (s, element) = least_significant_ir(s, bits, shifted);
    next_address_ir(write_element_ir(s, bits, address, element), bits, address)
}

/// Storing lane `e` of the register of element `i` in row `r`.
pub open spec fn store_lane_ir(
    s: EmitterState,
    address: Value,
    l: Layout,
    r: int,
    e: int,
    i: int,
) -> (EmitterState, Value) {
    store_element_ir(s, address, l.bits, l.register(i, r), e)
}

/// Storing lane `e` of the first `n` elements of row `r`.
pub open spec fn store_structure_ir(
    s: EmitterState,
    address: Value,
    l: Layout,
    r: int,
    e: int,
    n: int,
) -> (EmitterState, Value)
    decreases n,
{
    if n <= 0 {
        (s, address)
    } else {
        let (s, address) = store_structure_ir(s, address, l, r, e, n - 1);
        store_lane_ir(s, address, l, r, e, n - 1)
    }
}

/// Storing the first `n` structures of row `r`.
pub open spec fn store_row_ir(s: EmitterState, address: Value, l: Layout, r: int, n: int) -> (
    EmitterState,
    Value,
)
    decreases n,
{
    if n <= 0 {
        (s, address)
    } else {
        let (s, address) = store_row_ir(s, address, l, r, n - 1);
        store_structure_ir(s, address, l, r, n - 1, l.nelem)
    }
}

/// Storing the first `n` rows.
pub open spec fn store_rows_ir(s: EmitterState, address: Value, l: Layout, n: int) -> (
    EmitterState,
    Value,
)
    decreases n,
{
    if n <= 0 {
        (s, address)
    } else {
        let (s, address) = store_rows_ir(s, address, l, n - 1);
        store_row_ir(s, address, l, n - 1, l.lanes())
    }
}

/// How an access to several structures is refused: reserved types cannot be
/// decoded, some combinations are undefined, and the program counter as base
/// and registers beyond the last are unpredictable.
pub open spec fn multiple_refused(
    s: EmitterState,
    inst: DecodedArm,
) -> Option<(EmitterState, bool)> {
    let type_ = (inst.raw >> 8) & 0xF;
    if type_ == 11 || type_ >= 12 {
        Some(decode_error_ir(s))
    } else {
        match multiple_layout(inst) {
            None => Some(undefined_ir(s)),
            Some(l) => if inst.rn() == Reg::R15 || l.overruns() {
                Some(unpredictable_ir(s))
            } else {
                None
            },
        }
    }
}

/// A store of several structures.
pub open spec fn arm_v8_vst_multiple_ir(s: EmitterState, inst: DecodedArm) -> (EmitterState, bool) {
    match multiple_refused(s, inst) {
        Some(refusal) => refusal,
        None => {
            let l = multiple_layout(inst)->0;
            let (s, address) = s.get_register(inst.rn());
            let s = store_rows_ir(s, address, l, l.regs).0;
            (write_back_ir(s, inst.rn(), inst.rm(), 8 * l.nelem * l.regs), true)
        },
    }
}

fn store_lane(
    ir: &mut A32IREmitter,
    address: Value,
    Ghost(l): Ghost<Layout>,
    index: usize,
    bits: usize,
    r: Ghost<int>,
    e: usize,
    i: Ghost<int>,
) -> (next: Value)
    requires
        index < 256,
        index == l.register(i@, r@),
        e <= 8,
        bits <= 64,
        bits == l.bits,
    ensures
        (final(ir)@, next) == store_lane_ir(old(ir)@, address, l, r@, e as int, i@),
{
    let ext_value = ir.get_extended_register_64(ExtReg::Double(index as u8));
    assert(e * bits <= 512) by (nonlinear_arith)
        requires
            e <= 8,
            bits <= 64,
    ;
    #[verifier::truncate]
    let amount: u8 = (e * bits) as u8;
    let shifted = if e == 0 {
        ext_value
    } else {
        ir.logical_shift_right_64(ext_value, Value::ImmU8(amount))
    };
    let element = least_significant(ir, bits, shifted);
    write_memory(ir, bits, address, element);
    ir.add_32(address, Value::ImmU32((bits / 8) as u32), Value::ImmU1(false))
}

/// Translates a store of several structures.
#[verifier::rlimit(30)]
pub fn arm_v8_vst_multiple(ir: &mut A32IREmitter, inst: &DecodedArm) -> (result: bool)
    ensures
        (final(ir)@, result) == arm_v8_vst_multiple_ir(old(ir)@, *inst),
{
    let n = inst.rn();
    let m = inst.rm();
    let type_: u32 = (inst.raw >> 8) & 0xF;
    let size: u32 = (inst.raw >> 6) & 3;
    let align: u32 = (inst.raw >> 4) & 3;
    if type_ == 0b1011 || type_ >= 0b1100 {
        return decode_error(ir);
    }
    let (nelem, regs, inc): (usize, usize, usize) = match decode_vst_ld_multiple_type(
        type_,
        size,
        align,
    ) {
        Some(found) => found,
        None => {
            return undefined_instruction(ir);
        },
    };
    let ghost l = multiple_layout(*inst)->0;
    let first: usize = double_index(flag(inst, 22), field_vd(inst)) as usize;
    assert(inc * (nelem - 1) <= 6) by (nonlinear_arith)
        requires
            inc <= 2,
            1 <= nelem <= 4,
    ;
    let d_last: usize = first + inc * (nelem - 1);
    if n == Reg::R15 || d_last + regs > 32 {
        return unpredictable_instruction(ir);
    }
    let bits: usize = lane_size(size);
    let elements: usize = 64 / bits;
    let mut address = ir.get_register(n);
    let ghost (s0, a0) = (ir@, address);
    let mut r: usize = 0;
    while r < regs
        invariant
            r <= regs <= 4,
            nelem <= 4,
            inc <= 2,
            first < 32,
            8 <= bits <= 64,
            elements <= 8,
            l == (Layout {
                first: first as int,
                nelem: nelem as int,
                regs: regs as int,
                inc: inc as int,
                bits: bits as int,
            }),
            elements == l.lanes(),
            (ir@, address) == store_rows_ir(s0, a0, l, r as int),
        decreases regs - r,
    {
        let ghost (s1, a1) = (ir@, address);
        let mut e: usize = 0;
        while e < elements
            invariant
                r < regs <= 4,
                nelem <= 4,
                inc <= 2,
                first < 32,
                8 <= bits <= 64,
                e <= elements <= 8,
                l == (Layout {
                    first: first as int,
                    nelem: nelem as int,
                    regs: regs as int,
                    inc: inc as int,
                    bits: bits as int,
                }),
                (ir@, address) == store_row_ir(s1, a1, l, r as int, e as int),
            decreases elements - e,
        {
            let ghost (s2, a2) = (ir@, address);
            let mut i: usize = 0;
            while i < nelem
                invariant
                    r < regs <= 4,
                    i <= nelem <= 4,
                    inc <= 2,
                    first < 32,
                    8 <= bits <= 64,
                    e < elements <= 8,
                    l == (Layout {
                        first: first as int,
                        nelem: nelem as int,
                        regs: regs as int,
                        inc: inc as int,
                        bits: bits as int,
                    }),
                    (ir@, address) == store_structure_ir(s2, a2, l, r as int, e as int, i as int),
                decreases nelem - i,
            {
                assert(i * inc <= 8) by (nonlinear_arith)
                    requires
                        i <= 4,
                        inc <= 2,
                ;
                address = store_lane(
                    ir,
                    address,
                    Ghost(l),
                    first + i * inc + r,
                    bits,
                    Ghost(r as int),
                    e,
                    Ghost(i as int),
                );
                i = i + 1;
            }
            e = e + 1;
        }
        r = r + 1;
    }
    assert(8 * nelem * regs <= 128) by (nonlinear_arith)
        requires
            nelem <= 4,
            regs <= 4,
    ;
    emit_write_back(ir, n, m, (8 * nelem * regs) as u32);
    true
}

/// Clearing the registers of the first `n` elements of row `r`.
pub open spec fn clear_row_ir(s: EmitterState, l: Layout, r: int, n: int) -> EmitterState
    decreases n,
{
    if n <= 0 {
        s
    } else {
        set_double_ir(clear_row_ir(s, l, r, n - 1), l.register(n - 1, r), Value::ImmU64(0))
    }
}

/// Clearing the registers of the first `n` rows.
pub open spec fn clear_rows_ir(s: EmitterState, l: Layout, n: int) -> EmitterState
    decreases n,
{
    if n <= 0 {
        s
    } else {
        clear_row_ir(clear_rows_ir(s, l, n - 1), l, n - 1, l.nelem)
    }
}

/// Loading a lane of a register from an address, which moves on.
pub open spec fn load_element_ir(
    s: EmitterState,
    address: Value,
    bits: int,
    register: int,
    lane: int,
) -> (EmitterState, Value) {
    let (s, element) = read_element_ir(s, bits, address);
    let (s, wide) = zero_extend_ir(s, bits, element);
    let (s, shifted) = if lane == 0 {
        (s, wide)
    } else {
        s.op2(Opcode::LogicalShiftLeft64, wide, Value::ImmU8((lane * bits) as u8))
    };
    let (s, current) = get_double_ir(s, register);
    let (s, merged) = s.op2(Opcode::Or64, current, shifted);
    next_address_ir(set_double_ir(s, register, merged), bits, address)
}

/// Loading lane `e` of the register of element `i` in row `r`.
pub open spec fn load_lane_ir(
    s: EmitterState,
    address: Value,
    l: Layout,
    r: int,
    e: int,
    i: int,
) -> (EmitterState, Value) {
    load_element_ir(s, address, l.bits, l.register(i, r), e)
}

/// Loading lane `e` of the first `n` elements of row `r`.
pub open spec fn load_structure_ir(
    s: EmitterState,
    address: Value,
    l: Layout,
    r: int,
    e: int,
    n: int,
) -> (EmitterState, Value)
    decreases n,
{
    if n <= 0 {
        (s, address)
    } else {
        let (s, address) = load_structure_ir(s, address, l, r, e, n - 1);
        load_lane_ir(s, address, l, r, e, n - 1)
    }
}

/// Loading the first `n` structures of row `r`.
pub open spec fn load_row_ir(s: EmitterState, address: Value, l: Layout, r: int, n: int) -> (
    EmitterState,
    Value,
)
    decreases n,
{
    if n <= 0 {
        (s, address)
    } else {
        let (s, address) = load_row_ir(s, address, l, r, n - 1);
        load_structure_ir(s, address, l, r, n - 1, l.nelem)
    }
}

/// Loading the first `n` rows.
pub open spec fn load_rows_ir(s: EmitterState, address: Value, l: Layout, n: int) -> (
    EmitterState,
    Value,
)
    decreases n,
{
    if n <= 0 {
        (s, address)
    } else {
        let (s, address) = load_rows_ir(s, address, l, n - 1);
        load_row_ir(s, address, l, n - 1, l.lanes())
    }
}

/// A load of several structures: the registers are cleared, then filled lane
/// by lane.
pub open spec fn arm_v8_vld_multiple_ir(s: EmitterState, inst: DecodedArm) -> (EmitterState, bool) {
    match multiple_refused(s, inst) {
        Some(refusal) => refusal,
        None => {
            let l = multiple_layout(inst)->0;
            let s = clear_rows_ir(s, l, l.regs);
            let (s, address) = s.get_register(inst.rn());
            let s = load_rows_ir(s, address, l, l.regs).0;
            (write_back_ir(s, inst.rn(), inst.rm(), 8 * l.nelem * l.regs), true)
        },
    }
}

fn load_lane(
    ir: &mut A32IREmitter,
    address: Value,
    Ghost(l): Ghost<Layout>,
    index: usize,
    bits: usize,
    r: Ghost<int>,
    e: usize,
    i: Ghost<int>,
) -> (next: Value)
    requires
        index < 256,
        index == l.register(i@, r@),
        e <= 8,
        bits <= 64,
        bits == l.bits,
    ensures
        (final(ir)@, next) == load_lane_ir(old(ir)@, address, l, r@, e as int, i@),
{
    let ext_reg = ExtReg::Double(index as u8);
    let element = read_memory(ir, bits, address);
    let element64 = zero_extend(ir, bits, element);
    assert(e * bits <= 512) by (nonlinear_arith)
        requires
            e <= 8,
            bits <= 64,
    ;
    #[verifier::truncate]
    let amount: u8 = (e * bits) as u8;
    let shifted = if e == 0 {
        element64
    } else {
        ir.logical_shift_left_64(element64, Value::ImmU8(amount))
    };
    let current = ir.get_extended_register_64(ext_reg);
    let merged = ir.or_64(current, shifted);
    ir.set_extended_register_64(ext_reg, merged);
    ir.add_32(address, Value::ImmU32((bits / 8) as u32), Value::ImmU1(false))
}

fn clear_registers(
    ir: &mut A32IREmitter,
    Ghost(l): Ghost<Layout>,
    first: usize,
    nelem: usize,
    regs: usize,
    inc: usize,
)
    requires
        first < 32,
        nelem <= 4,
        regs <= 4,
        inc <= 2,
        l.first == first,
        l.nelem == nelem,
        l.inc == inc,
    ensures
        final(ir)@ == clear_rows_ir(old(ir)@, l, regs as int),
{
    let ghost s0 = ir@;
    let mut r: usize = 0;
    while r < regs
        invariant
            r <= regs <= 4,
            first < 32,
            nelem <= 4,
            inc <= 2,
            l.first == first,
            l.nelem == nelem,
            l.inc == inc,
            ir@ == clear_rows_ir(s0, l, r as int),
        decreases regs - r,
    {
        let ghost s1 = ir@;
        let mut i: usize = 0;
        while i < nelem
            invariant
                r < regs <= 4,
                first < 32,
                i <= nelem <= 4,
                inc <= 2,
                l.first == first,
                l.inc == inc,
                ir@ == clear_row_ir(s1, l, r as int, i as int),
            decreases nelem - i,
        {
            assert(i * inc <= 8) by (nonlinear_arith)
                requires
                    i <= 4,
                    inc <= 2,
            ;
            let ext_reg = ExtReg::Double((first + i * inc + r) as u8);
            ir.set_extended_register_64(ext_reg, Value::ImmU64(0));
            i = i + 1;
        }
        r = r + 1;
    }
}

/// Translates a load of several structures.
#[verifier::rlimit(30)]
pub fn arm_v8_vld_multiple(ir: &mut A32IREmitter, inst: &DecodedArm) -> (result: bool)
    ensures
        (final(ir)@, result) == arm_v8_vld_multiple_ir(old(ir)@, *inst),
{
    let n = inst.rn();
    let m = inst.rm();
    let type_: u32 = (inst.raw >> 8) & 0xF;
    let size: u32 = (inst.raw >> 6) & 3;
    let align: u32 = (inst.raw >> 4) & 3;
    if type_ == 0b1011 || type_ >= 0b1100 {
        return decode_error(ir);
    }
    let (nelem, regs, inc): (usize, usize, usize) = match decode_vst_ld_multiple_type(
        type_,
        size,
        align,
    ) {
        Some(found) => found,
        None => {
            return undefined_instruction(ir);
        },
    };
    let ghost l = multiple_layout(*inst)->0;
    let first: usize = double_index(flag(inst, 22), field_vd(inst)) as usize;
    assert(inc * (nelem - 1) <= 6) by (nonlinear_arith)
        requires
            inc <= 2,
            1 <= nelem <= 4,
    ;
    let d_last: usize = first + inc * (nelem - 1);
    if n == Reg::R15 || d_last + regs > 32 {
        return unpredictable_instruction(ir);
    }
    let bits: usize = lane_size(size);
    let elements: usize = 64 / bits;
    clear_registers(ir, Ghost(l), first, nelem, regs, inc);
    let mut address = ir.get_register(n);
    let ghost (s0, a0) = (ir@, address);
    let mut r: usize = 0;
    while r < regs
        invariant
            r <= regs <= 4,
            nelem <= 4,
            inc <= 2,
            first < 32,
            8 <= bits <= 64,
            elements <= 8,
            l == (Layout {
                first: first as int,
                nelem: nelem as int,
                regs: regs as int,
                inc: inc as int,
                bits: bits as int,
            }),
            elements == l.lanes(),
            (ir@, address) == load_rows_ir(s0, a0, l, r as int),
        decreases regs - r,
    {
        let ghost (s1, a1) = (ir@, address);
        let mut e: usize = 0;
        while e < elements
            invariant
                r < regs <= 4,
                nelem <= 4,
                inc <= 2,
                first < 32,
                8 <= bits <= 64,
                e <= elements <= 8,
                l == (Layout {
                    first: first as int,
                    nelem: nelem as int,
                    regs: regs as int,
                    inc: inc as int,
                    bits: bits as int,
                }),
                (ir@, address) == load_row_ir(s1, a1, l, r as int, e as int),
            decreases elements - e,
        {
            let ghost (s2, a2) = (ir@, address);
            let mut i: usize = 0;
            while i < nelem
                invariant
                    r < regs <= 4,
                    i <= nelem <= 4,
                    inc <= 2,
                    first < 32,
                    8 <= bits <= 64,
                    e < elements <= 8,
                    l == (Layout {
                        first: first as int,
                        nelem: nelem as int,
                        regs: regs as int,
                        inc: inc as int,
                        bits: bits as int,
                    }),
                    (ir@, address) == load_structure_ir(s2, a2, l, r as int, e as int, i as int),
                decreases nelem - i,
            {
                assert(i * inc <= 8) by (nonlinear_arith)
                    requires
                        i <= 4,
                        inc <= 2,
                ;
                address = load_lane(
                    ir,
                    address,
                    Ghost(l),
                    first + i * inc + r,
                    bits,
                    Ghost(r as int),
                    e,
                    Ghost(i as int),
                );
                i = i + 1;
            }
            e = e + 1;
        }
        r = r + 1;
    }
    assert(8 * nelem * regs <= 128) by (nonlinear_arith)
        requires
            nelem <= 4,
            regs <= 4,
    ;
    emit_write_back(ir, n, m, (8 * nelem * regs) as u32);
    true
}

/// The layout of a load of one structure to all lanes. With one element, bit
/// 5 selects two registers; with more, it doubles their distance. The largest
/// size stands for words.
pub open spec fn all_lanes_layout(inst: DecodedArm) -> Layout {
    let nelem = ((inst.raw >> 8) & 3) + 1;
    let sz = (inst.raw >> 6) & 3;
    let inc: int = if flag(&inst, 5) { 2 } else { 1 };
    Layout {
        first: double_index(flag(&inst, 22), field_vd(&inst)) as int,
        nelem,
        regs: if nelem == 1 {
            inc
        } else {
            1
        },
        inc,
        bits: if sz == 3 {
            32
        } else {
            lane_size(sz) as int
        },
    }
}

/// The sizes and alignments with which a load to all lanes is undefined.
pub open spec fn all_lanes_undefined(inst: DecodedArm) -> bool {
    let nelem = ((inst.raw >> 8) & 3) + 1;
    let sz = (inst.raw >> 6) & 3;
    let a = flag(&inst, 4);
    ||| nelem == 1 && (sz == 3 || (sz == 0 && a))
    ||| nelem == 2 && sz == 3
    ||| nelem == 3 && (sz == 3 || a)
    ||| nelem == 4 && sz == 3 && !a
}

/// Writing a vector to the first `n` registers of element `i`.
pub open spec fn fill_registers_ir(
    s: EmitterState,
    l: Layout,
    i: int,
    value: Value,
    n: int,
) -> EmitterState
    decreases n,
{
    if n <= 0 {
        s
    } else {
        fill_registers_ir(s, l, i, value, n - 1).set_vector(
            ExtReg::Double(l.register(i, n - 1) as u8),
            value,
        )
    }
}

/// Loading the first `n` elements of a structure, each to all lanes.
pub open spec fn load_all_lanes_ir(s: EmitterState, address: Value, l: Layout, n: int) -> (
    EmitterState,
    Value,
)
    decreases n,
{
    if n <= 0 {
        (s, address)
    } else {
        let (s, address) = load_all_lanes_ir(s, address, l, n - 1);
        let (s, element) = read_element_ir(s, l.bits, address);
        let (s, vector) = s.op1(opcode::vector_broadcast(l.bits as usize), element);
        let s = fill_registers_ir(s, l, n - 1, vector, l.regs);
        next_address_ir(s, l.bits, address)
    }
}

/// A load of one structure to all lanes.
pub open spec fn arm_v8_vld_all_lanes_ir(s: EmitterState, inst: DecodedArm) -> (
    EmitterState,
    bool,
) {
    let l = all_lanes_layout(inst);
    if all_lanes_undefined(inst) {
        undefined_ir(s)
    } else if inst.rn() == Reg::R15 || l.overruns() {
        unpredictable_ir(s)
    } else {
        let (s, address) = s.get_register(inst.rn());
        let s = load_all_lanes_ir(s, address, l, l.nelem).0;
        (write_back_ir(s, inst.rn(), inst.rm(), l.nelem * (l.bits / 8)), true)
    }
}

fn fill_registers(
    ir: &mut A32IREmitter,
    Ghost(l): Ghost<Layout>,
    i: Ghost<int>,
    start: usize,
    regs: usize,
    value: Value,
)
    requires
        start < 64,
        regs <= 2,
        start == l.register(i@, 0),
    ensures
        final(ir)@ == fill_registers_ir(old(ir)@, l, i@, value, regs as int),
{
    let ghost s0 = ir@;
    let mut r: usize = 0;
    while r < regs
        invariant
            r <= regs <= 2,
            start < 64,
            start == l.register(i@, 0),
            ir@ == fill_registers_ir(s0, l, i@, value, r as int),
        decreases regs - r,
    {
        ir.set_vector(ExtReg::Double((start + r) as u8), value);
        r = r + 1;
    }
}

/// Translates a load of one structure to all lanes.
#[verifier::rlimit(30)]
pub fn arm_v8_vld_all_lanes(ir: &mut A32IREmitter, inst: &DecodedArm) -> (result: bool)
    ensures
        (final(ir)@, result) == arm_v8_vld_all_lanes_ir(old(ir)@, *inst),
{
    let n = inst.rn();
    let m = inst.rm();
    let sz: u32 = (inst.raw >> 6) & 3;
    let t = flag(inst, 5);
    let a = flag(inst, 4);
    let nelem: usize = (((inst.raw >> 8) & 3) + 1) as usize;
    if nelem == 1 && (sz == 0b11 || (sz == 0b00 && a)) {
        return undefined_instruction(ir);
    }
    if nelem == 2 && sz == 0b11 {
        return undefined_instruction(ir);
    }
    if nelem == 3 && (sz == 0b11 || a) {
        return undefined_instruction(ir);
    }
    if nelem == 4 && (sz == 0b11 && !a) {
        return undefined_instruction(ir);
    }
    let ghost l = all_lanes_layout(*inst);
    let bits: usize = if sz == 0b11 { 32 } else { lane_size(sz) };
    let inc: usize = if t { 2 } else { 1 };
    let regs: usize = if nelem == 1 { inc } else { 1 };
    let first: usize = double_index(flag(inst, 22), field_vd(inst)) as usize;
    assert(inc * (nelem - 1) <= 6) by (nonlinear_arith)
        requires
            inc <= 2,
            1 <= nelem <= 4,
    ;
    let d_last: usize = first + inc * (nelem - 1);
    if n == Reg::R15 || d_last + regs > 32 {
        return unpredictable_instruction(ir);
    }
    let mut address = ir.get_register(n);
    let ghost (s0, a0) = (ir@, address);
    let mut i: usize = 0;
    while i < nelem
        invariant
            i <= nelem <= 4,
            regs <= 2,
            inc <= 2,
            first < 32,
            bits == 8 || bits == 16 || bits == 32,
            l == (Layout {
                first: first as int,
                nelem: nelem as int,
                regs: regs as int,
                inc: inc as int,
                bits: bits as int,
            }),
            (ir@, address) == load_all_lanes_ir(s0, a0, l, i as int),
        decreases nelem - i,
    {
        let element = read_memory(ir, bits, address);
        let replicated = ir.vector_broadcast(bits, element);
        assert(i * inc <= 8) by (nonlinear_arith)
            requires
                i <= 4,
                inc <= 2,
        ;
        fill_registers(ir, Ghost(l), Ghost(i as int), first + i * inc, regs, replicated);
        address = ir.add_32(address, Value::ImmU32((bits / 8) as u32), Value::ImmU1(false));
        i = i + 1;
    }
    let ebytes: usize = bits / 8;
    assert(nelem * ebytes <= 32) by (nonlinear_arith)
        requires
            nelem <= 4,
            ebytes <= 8,
    ;
    emit_write_back(ir, n, m, (nelem * ebytes) as u32);
    true
}

/// What the bits for index and alignment of an access to one structure hold,
/// from the top: the lane, whether the registers are two apart (not for
/// bytes), and the alignment.
pub struct SingleFields {
    pub index: u8,
    pub inc: usize,
    pub align: u32,
    pub ebytes: usize,
}

/// The fields of an access to one structure with elements of the size that
/// `sz` encodes.
pub open spec fn single_fields(sz: u32, index_align: u32) -> SingleFields {
    let spaced = (index_align >> sz) & 1 != 0;
    if sz == 0 {
        SingleFields {
            index: ((index_align >> 1) & 7) as u8,
            inc: 1,
            align: index_align & 1,
            ebytes: 1,
        }
    } else if sz == 1 {
        SingleFields {
            index: ((index_align >> 2) & 3) as u8,
            inc: if spaced { 2 } else { 1 },
            align: index_align & 1,
            ebytes: 2,
        }
    } else if sz == 2 {
        SingleFields {
            index: ((index_align >> 3) & 1) as u8,
            inc: if spaced { 2 } else { 1 },
            align: index_align & 3,
            ebytes: 4,
        }
    } else {
        SingleFields {
            index: 0,
            inc: if spaced { 2 } else { 1 },
            align: index_align & 7,
            ebytes: 8,
        }
    }
}

/// Whether the fields of an access to one structure are undefined.
pub open spec fn single_undefined(sz: u32, nelem: int, index_align: u32) -> bool {
    let a = single_fields(sz, index_align).align;
    ||| nelem == 1 && (index_align >> sz) & 1 != 0
    ||| nelem == 1 && sz == 2 && a != 0 && a != 3
    ||| nelem == 2 && (a >> 1) & 1 != 0
    ||| nelem == 3 && a != 0
    ||| nelem == 4 && a == 3
}

/// Decodes the lane, the distance of the registers, the alignment and the
/// element size in bytes of an access to one structure.
fn decode_vst_ld_single(sz: u32, nelem: usize, index_align: u32) -> (r: Option<
    (u8, usize, u32, usize),
>)
    requires
        sz <= 3,
    ensures
        r == if single_undefined(sz, nelem as int, index_align) {
            None
        } else {
            let f = single_fields(sz, index_align);
            Some((f.index, f.inc, f.align, f.ebytes))
        },
{
    let spaced: bool = (index_align >> sz) & 1 != 0;
    if nelem == 1 && spaced {
        return None;
    }
    let inc: usize = if sz != 0 && spaced { 2 } else { 1 };
    let (index, a, ebytes): (u32, u32, usize) = match sz {
        0 => ((index_align >> 1) & 7, index_align & 1, 1),
        1 => ((index_align >> 2) & 3, index_align & 1, 2),
        2 => ((index_align >> 3) & 1, index_align & 3, 4),
        _ => (0, index_align & 7, 8),
    };
    if nelem == 1 && sz == 2 && a != 0b00 && a != 0b11 {
        return None;
    }
    if nelem == 2 && (a >> 1) & 1 != 0 {
        return None;
    }
    if nelem == 3 && a != 0b00 {
        return None;
    }
    if nelem == 4 && a == 0b11 {
        return None;
    }
    Some((index as u8, inc, a, ebytes))
}

/// The layout and the lane of an access to one structure.
pub open spec fn single_layout(first: int, sz: u32, nelem: int, index_align: u32) -> Option<
    (Layout, u8),
> {
    let f = single_fields(sz, index_align);
    if single_undefined(sz, nelem, index_align) {
        None
    } else {
        Some((Layout { first, nelem, regs: 1, inc: f.inc as int, bits: f.ebytes * 8 }, f.index))
    }
}

/// The layout and the lane of an access to one structure, from the
/// instruction.
pub open spec fn single_of(inst: DecodedArm) -> Option<(Layout, u8)> {
    single_layout(
        double_index(flag(&inst, 22), field_vd(&inst)) as int,
        (inst.raw >> 10) & 3,
        ((inst.raw >> 8) & 3) + 1,
        (inst.raw >> 4) & 0xF,
    )
}

/// How an access to one structure is refused.
pub open spec fn single_refused(s: EmitterState, inst: DecodedArm) -> Option<(EmitterState, bool)> {
    if (inst.raw >> 10) & 3 == 3 {
        Some(decode_error_ir(s))
    } else {
        match single_of(inst) {
            None => Some(undefined_ir(s)),
            Some((l, index)) => if inst.rn() == Reg::R15 || l.overruns() {
                Some(unpredictable_ir(s))
            } else {
                None
            },
        }
    }
}

/// Storing one lane of the first `n` elements of a structure.
pub open spec fn store_single_ir(s: EmitterState, address: Value, l: Layout, index: u8, n: int) -> (
    EmitterState,
    Value,
)
    decreases n,
{
    if n <= 0 {
        (s, address)
    } else {
        let (s, address) = store_single_ir(s, address, l, index, n - 1);
        let (s, vector) = s.get_vector(ExtReg::Double(l.register(n - 1, 0) as u8));
        let (s, element) = s.op2(
            opcode::vector_get_element(l.bits as usize),
            vector,
            Value::ImmU8(index),
        );
        next_address_ir(write_element_ir(s, l.bits, address, element), l.bits, address)
    }
}

/// A store of one structure from one lane.
pub open spec fn arm_v8_vst_single_ir(s: EmitterState, inst: DecodedArm) -> (EmitterState, bool) {
    match single_refused(s, inst) {
        Some(refusal) => refusal,
        None => {
            let (l, index) = single_of(inst)->0;
            let (s, address) = s.get_register(inst.rn());
            let s = store_single_ir(s, address, l, index, l.nelem).0;
            (write_back_ir(s, inst.rn(), inst.rm(), l.nelem * (l.bits / 8)), true)
        },
    }
}

/// Loading one lane of the first `n` elements of a structure.
pub open spec fn load_single_ir(s: EmitterState, address: Value, l: Layout, index: u8, n: int) -> (
    EmitterState,
    Value,
)
    decreases n,
{
    if n <= 0 {
        (s, address)
    } else {
        let (s, address) = load_single_ir(s, address, l, index, n - 1);
        let r = ExtReg::Double(l.register(n - 1, 0) as u8);
        let (s, element) = read_element_ir(s, l.bits, address);
        let (s, vector) = s.get_vector(r);
        let (s, result) = s.op3(
            opcode::vector_set_element(l.bits as usize),
            vector,
            Value::ImmU8(index),
            element,
        );
        next_address_ir(s.set_vector(r, result), l.bits, address)
    }
}

/// A load of one structure to one lane.
pub open spec fn arm_v8_vld_single_ir(s: EmitterState, inst: DecodedArm) -> (EmitterState, bool) {
    match single_refused(s, inst) {
        Some(refusal) => refusal,
        None => {
            let (l, index) = single_of(inst)->0;
            let (s, address) = s.get_register(inst.rn());
            let s = load_single_ir(s, address, l, index, l.nelem).0;
            (write_back_ir(s, inst.rn(), inst.rm(), l.nelem * (l.bits / 8)), true)
        },
    }
}

/// Translates a store of one structure from one lane.
#[verifier::rlimit(30)]
pub fn arm_v8_vst_single(ir: &mut A32IREmitter, inst: &DecodedArm) -> (result: bool)
    ensures
        (final(ir)@, result) == arm_v8_vst_single_ir(old(ir)@, *inst),
{
    let n = inst.rn();
    let m = inst.rm();
    let sz: u32 = (inst.raw >> 10) & 3;
    let index_align: u32 = (inst.raw >> 4) & 0xF;
    let nelem: usize = (((inst.raw >> 8) & 3) + 1) as usize;
    if sz == 0b11 {
        return decode_error(ir);
    }
    let first: usize = double_index(flag(inst, 22), field_vd(inst)) as usize;
    let (index, inc, _a, ebytes): (u8, usize, u32, usize) = match decode_vst_ld_single(
        sz,
        nelem,
        index_align,
    ) {
        Some(found) => found,
        None => {
            return undefined_instruction(ir);
        },
    };
    let bits: usize = ebytes * 8;
    let ghost l = (single_of(*inst)->0).0;
    assert(inc * (nelem - 1) <= 6) by (nonlinear_arith)
        requires
            inc <= 2,
            1 <= nelem <= 4,
    ;
    let d_last: usize = first + inc * (nelem - 1);
    if n == Reg::R15 || d_last + 1 > 32 {
        return unpredictable_instruction(ir);
    }
    let mut address = ir.get_register(n);
    let ghost (s0, a0) = (ir@, address);
    let mut i: usize = 0;
    while i < nelem
        invariant
            i <= nelem <= 4,
            1 <= inc <= 2,
            first < 32,
            bits == 8 || bits == 16 || bits == 32,
            l == (Layout {
                first: first as int,
                nelem: nelem as int,
                regs: 1,
                inc: inc as int,
                bits: bits as int,
            }),
            (ir@, address) == store_single_ir(s0, a0, l, index, i as int),
        decreases nelem - i,
    {
        assert(i * inc <= 8) by (nonlinear_arith)
            requires
                i <= 4,
                inc <= 2,
        ;
        let ext_reg = ExtReg::Double((first + i * inc) as u8);
        let vector = ir.get_vector(ext_reg);
        let element = ir.vector_get_element(bits, vector, index);
        write_memory(ir, bits, address, element);
        address = ir.add_32(address, Value::ImmU32((bits / 8) as u32), Value::ImmU1(false));
        i = i + 1;
    }
    let ebytes: usize = bits / 8;
    assert(nelem * ebytes <= 32) by (nonlinear_arith)
        requires
            nelem <= 4,
            ebytes <= 8,
    ;
    emit_write_back(ir, n, m, (nelem * ebytes) as u32);
    true
}

/// Translates a load of one structure to one lane.
#[verifier::rlimit(30)]
pub fn arm_v8_vld_single(ir: &mut A32IREmitter, inst: &DecodedArm) -> (result: bool)
    ensures
        (final(ir)@, result) == arm_v8_vld_single_ir(old(ir)@, *inst),
{
    let n = inst.rn();
    let m = inst.rm();
    let sz: u32 = (inst.raw >> 10) & 3;
    let index_align: u32 = (inst.raw >> 4) & 0xF;
    let nelem: usize = (((inst.raw >> 8) & 3) + 1) as usize;
    if sz == 0b11 {
        return decode_error(ir);
    }
    let first: usize = double_index(flag(inst, 22), field_vd(inst)) as usize;
    let (index, inc, _a, ebytes): (u8, usize, u32, usize) = match decode_vst_ld_single(
        sz,
        nelem,
        index_align,
    ) {
        Some(found) => found,
        None => {
            return undefined_instruction(ir);
        },
    };
    let bits: usize = ebytes * 8;
    let ghost l = (single_of(*inst)->0).0;
    assert(inc * (nelem - 1) <= 6) by (nonlinear_arith)
        requires
            inc <= 2,
            1 <= nelem <= 4,
    ;
    let d_last: usize = first + inc * (nelem - 1);
    if n == Reg::R15 || d_last + 1 > 32 {
        return unpredictable_instruction(ir);
    }
    let mut address = ir.get_register(n);
    let ghost (s0, a0) = (ir@, address);
    let mut i: usize = 0;
    while i < nelem
        invariant
            i <= nelem <= 4,
            1 <= inc <= 2,
            first < 32,
            bits == 8 || bits == 16 || bits == 32,
            l == (Layout {
                first: first as int,
                nelem: nelem as int,
                regs: 1,
                inc: inc as int,
                bits: bits as int,
            }),
            (ir@, address) == load_single_ir(s0, a0, l, index, i as int),
        decreases nelem - i,
    {
        assert(i * inc <= 8) by (nonlinear_arith)
            requires
                i <= 4,
                inc <= 2,
        ;
        let ext_reg = ExtReg::Double((first + i * inc) as u8);
        let element = read_memory(ir, bits, address);
        let vector = ir.get_vector(ext_reg);
        let new_reg = ir.vector_set_element(bits, vector, index, element);
        ir.set_vector(ext_reg, new_reg);
        address = ir.add_32(address, Value::ImmU32((bits / 8) as u32), Value::ImmU1(false));
        i = i + 1;
    }
    let ebytes: usize = bits / 8;
    assert(nelem * ebytes <= 32) by (nonlinear_arith)
        requires
            nelem <= 4,
            ebytes <= 8,
    ;
    emit_write_back(ir, n, m, (nelem * ebytes) as u32);
    true
}

} // verus!
