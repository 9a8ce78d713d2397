//! Checksums.

use vstd::prelude::*;
use super::{unpredictable_instruction, unpredictable_ir};
use crate::frontend::a32::decoder::DecodedArm;
use crate::frontend::a32::types::Reg;
use crate::ir::a32_emitter::{A32IREmitter, EmitterState};
use crate::ir::cond::Cond;
use crate::ir::opcode::Opcode;

verus! {

/// The polynomial of a checksum.
#[derive(Clone, Copy, Debug, PartialEq, Eq, Structural)]
pub enum CRCType {
    Castagnoli,
    Iso,
}

/// The checksum step over a byte (`size` 0), a halfword (1) or a word (2).
pub open spec fn crc_opcode(kind: CRCType, size: u32) -> Opcode {
    match kind {
        CRCType::Iso => if size == 0 {
            Opcode::CRC32ISO8
        } else if size == 1 {
            Opcode::CRC32ISO16
        } else {
            Opcode::CRC32ISO32
        },
        CRCType::Castagnoli => if size == 0 {
            Opcode::CRC32Castagnoli8
        } else if size == 1 {
            Opcode::CRC32Castagnoli16
        } else {
            Opcode::CRC32Castagnoli32
        },
    }
}

/// A checksum step. It is unpredictable with the program counter, with the
/// reserved size, and under a condition.
pub open spec fn crc32_ir(s: EmitterState, inst: DecodedArm, kind: CRCType) -> (
    EmitterState,
    bool,
) {
    let size = (inst.raw >> 21) & 3;
    if inst.rd() == Reg::R15 || inst.rn() == Reg::R15 || inst.rm() == Reg::R15 || size == 3
        || inst.cond() != Cond::AL {
        unpredictable_ir(s)
    } else {
        let (s, accumulator) = s.get_register(inst.rn());
        let (s, data) = s.get_register(inst.rm());
        let (s, result) = s.op2(crc_opcode(kind, size), accumulator, data);
        (s.set_register(inst.rd(), result), true)
    }
}

fn crc32_variant(ir: &mut A32IREmitter, inst: &DecodedArm, kind: CRCType) -> (r: bool)
    ensures
        (final(ir)@, r) == crc32_ir(old(ir)@, *inst, kind),
{
    let n = inst.rn();
    let d = inst.rd();
    let m = inst.rm();
    let size: u32 = (inst.raw >> 21) & 3;
    if d == Reg::R15 || n == Reg::R15 || m == Reg::R15 {
        return unpredictable_instruction(ir);
    }
    if size == 3 {
        return unpredictable_instruction(ir);
    }
    if inst.cond() != Cond::AL {
        return unpredictable_instruction(ir);
    }
    let accumulator = ir.get_register(n);
    let data = ir.get_register(m);
    let result = match kind {
        CRCType::Iso => match size {
            0 => ir.crc32_iso_8(accumulator, data),
            1 => ir.crc32_iso_16(accumulator, data),
            _ => ir.crc32_iso_32(accumulator, data),
        },
        CRCType::Castagnoli => match size {
            0 => ir.crc32_castagnoli_8(accumulator, data),
            1 => ir.crc32_castagnoli_16(accumulator, data),
            _ => ir.crc32_castagnoli_32(accumulator, data),
        },
    };
    ir.set_register(d, result);
    true
}

/// Translates a checksum step with the ISO polynomial.
pub fn arm_crc32(ir: &mut A32IREmitter, inst: &DecodedArm) -> (r: bool)
    ensures
        (final(ir)@, r) == crc32_ir(old(ir)@, *inst, CRCType::Iso),
{
    crc32_variant(ir, inst, CRCType::Iso)
}

/// Translates a checksum step with the Castagnoli polynomial.
pub fn arm_crc32c(ir: &mut A32IREmitter, inst: &DecodedArm) -> (r: bool)
    ensures
        (final(ir)@, r) == crc32_ir(old(ir)@, *inst, CRCType::Castagnoli),
{
    crc32_variant(ir, inst, CRCType::Castagnoli)
}

} // verus!
