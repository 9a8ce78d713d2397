//! What instructions do to the guest.
//!
//! `run` executes the code of a block on a guest machine. The laws of
//! translation are stated over it: what the translated code does is what the
//! guest instruction is documented to do.

use vstd::prelude::*;
use crate::frontend::a32::types::{ExtReg, Reg, ShiftType};
use crate::ir::a32_emitter::EmitterState;
use crate::ir::block::Inst;
use crate::ir::lanes::{
    fused, is_pair, is_single, is_transpose, lane_shift, pair_result, shift_result, single_result,
    transpose_result, FloatLane, Vector,
};
use crate::ir::opcode::Opcode;
use crate::ir::terminal::Terminal;
use crate::ir::value::Value;

verus! {

/// The condition flags.
pub struct Flags {
    pub n: bool,
    pub z: bool,
    pub c: bool,
    pub v: bool,
}

/// An access to memory: whether it writes, its size in bits, the address, and
/// what is written.
pub struct Access {
    pub write: bool,
    pub bits: int,
    pub address: u32,
    pub value: u64,
}

/// The guest machine. Memory is as it was at the beginning; what was accessed
/// since is noted in order. `float` gives the meaning of floating-point
/// operations on lanes.
pub struct Machine {
    pub regs: Map<Reg, u32>,
    pub flags: Flags,
    pub q: bool,
    pub ge: u32,
    pub doubles: Map<int, Vector>,
    pub memory: Map<(int, u32), u64>,
    pub accesses: Seq<Access>,
    pub float: spec_fn(FloatLane, int, int, int, int) -> int,
}

/// The result of an instruction, in the forms that others use it: a truth
/// value, a number of up to 32 bits, a number of 64 bits, a vector or flags;
/// and the carry and overflow of the operation.
pub struct Outcome {
    pub bit: bool,
    pub word: u32,
    pub long: u64,
    pub vector: Vector,
    pub flags: Flags,
    pub carry: bool,
    pub overflow: bool,
}

/// A machine together with the results of the instructions so far.
pub struct Run {
    pub machine: Machine,
    pub results: Seq<Outcome>,
}

/// A word and a carry.
pub open spec fn word_and_carry(word: u32, carry: bool) -> Outcome {
    Outcome { word, carry, ..arbitrary() }
}

/// A word.
pub open spec fn word(word: u32) -> Outcome {
    Outcome { word, ..arbitrary() }
}

/// A double word.
pub open spec fn long(long: u64) -> Outcome {
    Outcome { long, ..arbitrary() }
}

/// A truth value.
pub open spec fn bit(bit: bool) -> Outcome {
    Outcome { bit, ..arbitrary() }
}

/// The number that a word holds in two's complement.
pub open spec fn signed_word(x: u32) -> int {
    if x < 0x8000_0000 {
        x as int
    } else {
        x - 0x1_0000_0000
    }
}

/// A number as a word.
pub open spec fn as_word(x: int) -> u32 {
    (x % 0x1_0000_0000) as u32
}

/// A number as a double word.
pub open spec fn as_long(x: int) -> u64 {
    (x % 0x1_0000_0000_0000_0000) as u64
}

/// Whether a number does not fit a signed word.
pub open spec fn overflows(x: int) -> bool {
    x < -0x8000_0000 || x >= 0x8000_0000
}

/// The sum of two words and a carry, with its carry and overflow.
pub open spec fn sum(a: u32, b: u32, c: bool) -> Outcome {
    let carry_in: int = if c { 1 } else { 0 };
    Outcome {
        word: as_word(a + b + carry_in),
        carry: a + b + carry_in >= 0x1_0000_0000,
        overflow: overflows(signed_word(a) + signed_word(b) + carry_in),
        ..arbitrary()
    }
}

/// The difference of two words, less one if the carry is clear, with its
/// carry, which is set unless it borrows, and its overflow.
pub open spec fn difference(a: u32, b: u32, c: bool) -> Outcome {
    let borrow_in: int = if c { 0 } else { 1 };
    Outcome {
        word: as_word(a - b - borrow_in),
        carry: a - b - borrow_in >= 0,
        overflow: overflows(signed_word(a) - signed_word(b) - borrow_in),
        ..arbitrary()
    }
}

/// A word shifted by `n` places, and the last bit that was shifted out, or
/// the carry if nothing is shifted.
pub open spec fn shifted_word(shift: ShiftType, x: u32, n: u32, carry: bool) -> (u32, bool) {
    if n == 0 {
        (x, carry)
    } else {
        match shift {
            ShiftType::LSL => if n < 32 {
                (x << n, (x >> ((32 - n) as u32)) & 1 == 1)
            } else {
                (0, n == 32 && x & 1 == 1)
            },
            ShiftType::LSR => if n < 32 {
                (x >> n, (x >> ((n - 1) as u32)) & 1 == 1)
            } else {
                (0, n == 32 && x >= 0x8000_0000)
            },
            ShiftType::ASR => {
                let sign: u32 = if x >= 0x8000_0000 { 0xFFFF_FFFF } else { 0 };
                if n < 32 {
                    ((x >> n) | (sign << ((32 - n) as u32)), (x >> ((n - 1) as u32)) & 1 == 1)
                } else {
                    (sign, x >= 0x8000_0000)
                }
            },
            ShiftType::ROR => {
                let turned = crate::bits::rotated_right(x, n % 32);
                (turned, turned >= 0x8000_0000)
            },
        }
    }
}

/// A word turned right by one place through the carry.
pub open spec fn turned_through_carry(x: u32, carry: bool) -> (u32, bool) {
    ((x >> 1) | (if carry { 0x8000_0000u32 } else { 0 }), x & 1 == 1)
}

/// A halfword with its bytes in reverse order.
pub open spec fn reversed_half(x: u32) -> u32 {
    ((x & 0xFF) << 8) | ((x >> 8) & 0xFF)
}

/// A word with its bytes in reverse order.
pub open spec fn reversed_word(x: u32) -> u32 {
    (reversed_half(x & 0xFFFF) << 16) | reversed_half(x >> 16)
}

/// A double word with its bytes in reverse order.
pub open spec fn reversed_long(x: u64) -> u64 {
    ((reversed_word(x as u32) as u64) << 32) | (reversed_word((x >> 32) as u32) as u64)
}

/// The value of an operand.
pub open spec fn operand(r: Run, value: Value) -> Outcome {
    match value {
        Value::ImmU1(x) => bit(x),
        Value::ImmU8(x) => word(x as u32),
        Value::ImmU32(x) => word(x),
        Value::ImmU64(x) => long(x),
        Value::Inst(at) => r.results[at.0 as int],
        _ => arbitrary(),
    }
}

/// The vector that an extension register holds. A double word is followed by
/// zeros.
pub open spec fn vector_at(m: Machine, r: ExtReg) -> Vector {
    match r {
        ExtReg::Double(d) => Vector {
            lane: |e: int, i: int|
                if i < 64int / e {
                    (m.doubles[d as int].lane)(e, i)
                } else {
                    0
                },
        },
        ExtReg::Quad(q) => Vector {
            lane: |e: int, i: int|
                if i < 64int / e {
                    (m.doubles[2 * q as int].lane)(e, i)
                } else {
                    (m.doubles[2 * q as int + 1].lane)(e, i - 64int / e)
                },
        },
    }
}

/// The machine after a vector was written to an extension register.
pub open spec fn with_vector(m: Machine, r: ExtReg, v: Vector) -> Machine {
    let upper = Vector { lane: |e: int, i: int| (v.lane)(e, i + 64int / e) };
    Machine {
        doubles: match r {
            ExtReg::Double(d) => m.doubles.insert(d as int, v),
            ExtReg::Quad(q) => m.doubles.insert(2 * q as int, v).insert(2 * q as int + 1, upper),
        },
        ..m
    }
}

/// The number of bits that an operation reads from memory, if it reads any.
pub open spec fn reads_bits(opcode: Opcode) -> Option<int> {
    match opcode {
        Opcode::A32ReadMemory8 | Opcode::A32ExclusiveReadMemory8 => Some(8),
        Opcode::A32ReadMemory16 | Opcode::A32ExclusiveReadMemory16 => Some(16),
        Opcode::A32ReadMemory32 | Opcode::A32ExclusiveReadMemory32 => Some(32),
        Opcode::A32ReadMemory64 | Opcode::A32ExclusiveReadMemory64 => Some(64),
        _ => None,
    }
}

/// The number of bits that an operation writes to memory, if it writes any.
pub open spec fn writes_bits(opcode: Opcode) -> Option<int> {
    match opcode {
        Opcode::A32WriteMemory8 | Opcode::A32ExclusiveWriteMemory8 => Some(8),
        Opcode::A32WriteMemory16 | Opcode::A32ExclusiveWriteMemory16 => Some(16),
        Opcode::A32WriteMemory32 | Opcode::A32ExclusiveWriteMemory32 => Some(32),
        Opcode::A32WriteMemory64 | Opcode::A32ExclusiveWriteMemory64 => Some(64),
        _ => None,
    }
}

/// What is written by an access of the given size.
pub open spec fn written(bits: int, x: Outcome) -> u64 {
    if bits == 64 {
        x.long
    } else {
        x.word as u64
    }
}

/// The machine after an instruction.
#[verifier::opaque]
pub open spec fn machine_after(r: Run, inst: Inst) -> Machine {
    let m = r.machine;
    let (a, b) = (operand(r, inst.args.0), operand(r, inst.args.1));
    match inst.opcode {
        Opcode::A32SetRegister => match inst.args.0 {
            Value::ImmA32Reg(n) => Machine { regs: m.regs.insert(n, b.word), ..m },
            _ => arbitrary(),
        },
        Opcode::A32BXWritePC => Machine { regs: m.regs.insert(Reg::R15, a.word), ..m },
        Opcode::A32SetVector => match inst.args.0 {
            Value::ImmA32ExtReg(n) => with_vector(m, n, b.vector),
            _ => arbitrary(),
        },
        Opcode::A32SetCpsrNZCV => Machine { flags: a.flags, ..m },
        Opcode::A32SetCpsrNZC => Machine {
            flags: Flags { n: a.flags.n, z: a.flags.z, c: b.bit, ..m.flags },
            ..m
        },
        Opcode::A32SetCpsrNZ => Machine {
            flags: Flags { n: a.flags.n, z: a.flags.z, ..m.flags },
            ..m
        },
        Opcode::A32OrQFlag => Machine { q: m.q || a.bit, ..m },
        _ => match reads_bits(inst.opcode) {
            Some(bits) => Machine {
                accesses: m.accesses.push(
                    Access { write: false, bits, address: b.word, value: 0 },
                ),
                ..m
            },
            None => match writes_bits(inst.opcode) {
                Some(bits) => Machine {
                    accesses: m.accesses.push(
                        Access {
                            write: true,
                            bits,
                            address: b.word,
                            value: written(bits, operand(r, inst.args.2)),
                        },
                    ),
                    ..m
                },
                None => m,
            },
        },
    }
}

/// The result of an instruction on words, double words and flags.
pub open spec fn scalar_result(r: Run, inst: Inst) -> Outcome {
    let m = r.machine;
    let (a, b) = (operand(r, inst.args.0), operand(r, inst.args.1));
    let c = operand(r, inst.args.2).bit;
    match inst.opcode {
        Opcode::A32GetRegister => match inst.args.0 {
            Value::ImmA32Reg(n) => word(m.regs[n]),
            _ => arbitrary(),
        },
        Opcode::A32GetCFlag => bit(m.flags.c),
        Opcode::And32 => word(a.word & b.word),
        Opcode::AndNot32 => word(a.word & !b.word),
        Opcode::Or32 => word(a.word | b.word),
        Opcode::Eor32 => word(a.word ^ b.word),
        Opcode::Not32 => word(!a.word),
        Opcode::Add32 => sum(a.word, b.word, c),
        Opcode::Sub32 => difference(a.word, b.word, c),
        Opcode::Mul32 => word(as_word(a.word * b.word)),
        Opcode::Mul64 => long(as_long(a.long * b.long)),
        Opcode::Add64 => long(as_long(a.long + b.long + (if c { 1int } else { 0 }))),
        Opcode::Sub64 => long(as_long(a.long - b.long - (if c { 0int } else { 1 }))),
        Opcode::And64 => long(a.long & b.long),
        Opcode::Or64 => long(a.long | b.long),
        Opcode::LogicalShiftLeft32 => {
            let (x, carry) = shifted_word(ShiftType::LSL, a.word, b.word, c);
            word_and_carry(x, carry)
        },
        Opcode::LogicalShiftRight32 => {
            let (x, carry) = shifted_word(ShiftType::LSR, a.word, b.word, c);
            word_and_carry(x, carry)
        },
        Opcode::ArithmeticShiftRight32 => {
            let (x, carry) = shifted_word(ShiftType::ASR, a.word, b.word, c);
            word_and_carry(x, carry)
        },
        Opcode::BitRotateRight32 => {
            let (x, carry) = shifted_word(ShiftType::ROR, a.word, b.word, c);
            word_and_carry(x, carry)
        },
        Opcode::RotateRightExtended => {
            let (x, carry) = turned_through_carry(a.word, b.bit);
            word_and_carry(x, carry)
        },
        Opcode::LogicalShiftRight64 => long(a.long >> (b.word as u64)),
        Opcode::LogicalShiftLeft64 => long(a.long << (b.word as u64)),
        Opcode::GetCarryFromOp => bit(a.carry),
        Opcode::GetOverflowFromOp => bit(a.overflow),
        Opcode::GetNZFromOp | Opcode::GetNZCVFromOp => Outcome {
            flags: Flags {
                n: a.word >= 0x8000_0000,
                z: a.word == 0,
                c: a.carry,
                v: a.overflow,
            },
            ..arbitrary()
        },
        Opcode::LeastSignificantByte => word(a.word & 0xFF),
        Opcode::LeastSignificantHalf => word(a.word & 0xFFFF),
        Opcode::LeastSignificantWord => word(as_word(a.long as int)),
        Opcode::MostSignificantWord => word_and_carry(
            (a.long as int / 0x1_0000_0000) as u32,
            (a.long as int / 0x8000_0000) % 2 == 1,
        ),
        Opcode::ZeroExtendByteToWord => word(a.word & 0xFF),
        Opcode::ZeroExtendHalfToWord => word(a.word & 0xFFFF),
        Opcode::SignExtendByteToWord => word(
            as_word(
                if a.word & 0xFF >= 0x80 {
                    (a.word & 0xFF) - 0x100
                } else {
                    (a.word & 0xFF) as int
                },
            ),
        ),
        Opcode::SignExtendHalfToWord => word(
            as_word(
                if a.word & 0xFFFF >= 0x8000 {
                    (a.word & 0xFFFF) - 0x1_0000
                } else {
                    (a.word & 0xFFFF) as int
                },
            ),
        ),
        Opcode::ZeroExtendWordToLong => long(a.word as u64),
        Opcode::SignExtendWordToLong => long(as_long(signed_word(a.word))),
        Opcode::Pack2x32To1x64 => long(as_long(a.word + b.word * 0x1_0000_0000)),
        Opcode::ByteReverseHalf => word(reversed_half(a.word)),
        Opcode::ByteReverseWord => word(reversed_word(a.word)),
        Opcode::ByteReverseDual => long(reversed_long(a.long)),
        _ => match reads_bits(inst.opcode) {
            Some(bits) => {
                let x = m.memory[(bits, b.word)];
                Outcome { word: x as u32, long: x, ..arbitrary() }
            },
            None => arbitrary(),
        },
    }
}

/// Whether an operation works on vectors.
pub open spec fn works_on_vectors(opcode: Opcode) -> bool {
    ||| is_pair(opcode)
    ||| is_single(opcode)
    ||| lane_shift(opcode) is Some
    ||| is_transpose(opcode)
    ||| opcode == Opcode::FPVectorMulAdd32
    ||| opcode == Opcode::A32GetVector
}

/// The result of an instruction on vectors.
#[verifier::opaque]
pub open spec fn vector_outcome(r: Run, inst: Inst) -> Outcome {
    let (a, b) = (operand(r, inst.args.0), operand(r, inst.args.1));
    let c = operand(r, inst.args.2);
    if is_pair(inst.opcode) {
        Outcome {
            vector: pair_result(inst.opcode, a.vector, b.vector, r.machine.float),
            ..arbitrary()
        }
    } else if is_single(inst.opcode) {
        Outcome { vector: single_result(inst.opcode, a.vector, r.machine.float), ..arbitrary() }
    } else if lane_shift(inst.opcode) is Some {
        Outcome { vector: shift_result(inst.opcode, a.vector, b.word as int), ..arbitrary() }
    } else if is_transpose(inst.opcode) {
        Outcome {
            vector: transpose_result(inst.opcode, a.vector, b.vector, c.bit),
            ..arbitrary()
        }
    } else if inst.opcode == Opcode::FPVectorMulAdd32 {
        Outcome {
            vector: fused(r.machine.float, a.vector, b.vector, c.vector),
            ..arbitrary()
        }
    } else {
        match inst.args.0 {
            Value::ImmA32ExtReg(n) => Outcome { vector: vector_at(r.machine, n), ..arbitrary() },
            _ => arbitrary(),
        }
    }
}

/// The result of an instruction.
#[verifier::opaque]
pub open spec fn result_of(r: Run, inst: Inst) -> Outcome {
    if works_on_vectors(inst.opcode) {
        vector_outcome(r, inst)
    } else {
        scalar_result(r, inst)
    }
}

/// A run with one more instruction.
pub open spec fn step(r: Run, inst: Inst) -> Run {
    Run { machine: machine_after(r, inst), results: r.results.push(result_of(r, inst)) }
}

/// The run of some code on a machine.
pub open spec fn run_code(code: Seq<Inst>, m: Machine) -> Run
    decreases code.len(),
{
    if code.len() == 0 {
        Run { machine: m, results: Seq::empty() }
    } else {
        step(run_code(code.drop_last(), m), code.last())
    }
}

/// The run of the code emitted so far.
#[verifier::opaque]
pub open spec fn run(s: EmitterState, m: Machine) -> Run {
    run_code(s.code, m)
}

proof fn every_instruction_has_a_result(code: Seq<Inst>, m: Machine)
    ensures
        run_code(code, m).results.len() == code.len(),
    decreases code.len(),
{
    if code.len() > 0 {
        every_instruction_has_a_result(code.drop_last(), m);
    }
}

/// Emitting an instruction runs it after the code before.
pub broadcast proof fn run_emit(s: EmitterState, inst: Inst, m: Machine)
    ensures
        #[trigger] run(s.emit(inst).0, m) == step(run(s, m), inst),
        run(s, m).results.len() == s.code.len(),
{
    reveal(run);
    assert(s.code.push(inst).drop_last() =~= s.code);
    every_instruction_has_a_result(s.code, m);
}

/// The way a block ends is not part of its code.
pub broadcast proof fn run_end(s: EmitterState, terminal: Terminal, m: Machine)
    ensures
        #[trigger] run(s.end(terminal), m) == run(s, m),
{
    reveal(run);
}

pub broadcast group group_run {
    run_emit,
    run_end,
}

} // verus!
