//! What each operation does, one fact per operation.

use vstd::prelude::*;
use crate::frontend::a32::types::{ExtReg, Reg, ShiftType};
use crate::ir::block::Inst;
use crate::ir::lanes::{
    fused, is_pair, is_single, lane_shift, pair_result, shift_result, single_result,
};
use crate::ir::meaning::{
    as_long, as_word, bit, difference, long, machine_after, operand, result_of, reversed_half,
    reversed_long, reversed_word, shifted_word, signed_word, sum, turned_through_carry, vector_at,
    vector_outcome, with_vector, word, works_on_vectors, word_and_carry, written, Access, Flags,
    Machine, Outcome, Run,
};
use crate::ir::opcode::Opcode;
use crate::ir::value::Value;

verus! {

/// The fact for the operation.
pub broadcast proof fn guest_get_register_result(r: Run, n: Reg, y: Value, z: Value, w: Value)
    ensures
        #[trigger] result_of(
            r,
            Inst { opcode: Opcode::A32GetRegister, args: (Value::ImmA32Reg(n), y, z, w) },
        ) == (word(r.machine.regs[n])),
{
    reveal(result_of);
}

/// The fact for the operation.
pub broadcast proof fn guest_get_register_machine(r: Run, n: Reg, y: Value, z: Value, w: Value)
    ensures
        #[trigger] machine_after(
            r,
            Inst { opcode: Opcode::A32GetRegister, args: (Value::ImmA32Reg(n), y, z, w) },
        ) == (r.machine),
{
    reveal(machine_after);
}

/// The fact for the operation.
pub broadcast proof fn guest_get_cflag_result(r: Run, x: Value, y: Value, z: Value, w: Value)
    ensures
        #[trigger] result_of(
            r,
            Inst { opcode: Opcode::A32GetCFlag, args: (x, y, z, w) },
        ) == (bit(r.machine.flags.c)),
{
    reveal(result_of);
}

/// The fact for the operation.
pub broadcast proof fn guest_get_cflag_machine(r: Run, x: Value, y: Value, z: Value, w: Value)
    ensures
        #[trigger] machine_after(
            r,
            Inst { opcode: Opcode::A32GetCFlag, args: (x, y, z, w) },
        ) == (r.machine),
{
    reveal(machine_after);
}

/// The fact for the operation.
pub broadcast proof fn and32_result(r: Run, x: Value, y: Value, z: Value, w: Value)
    ensures
        #[trigger] result_of(
            r,
            Inst { opcode: Opcode::And32, args: (x, y, z, w) },
        ) == (word(operand(r, x).word & operand(r, y).word)),
{
    reveal(result_of);
}

/// The fact for the operation.
pub broadcast proof fn and32_machine(r: Run, x: Value, y: Value, z: Value, w: Value)
    ensures
        #[trigger] machine_after(
            r,
            Inst { opcode: Opcode::And32, args: (x, y, z, w) },
        ) == (r.machine),
{
    reveal(machine_after);
}

/// The fact for the operation.
pub broadcast proof fn and_not32_result(r: Run, x: Value, y: Value, z: Value, w: Value)
    ensures
        #[trigger] result_of(
            r,
            Inst { opcode: Opcode::AndNot32, args: (x, y, z, w) },
        ) == (word(operand(r, x).word & !operand(r, y).word)),
{
    reveal(result_of);
}

/// The fact for the operation.
pub broadcast proof fn and_not32_machine(r: Run, x: Value, y: Value, z: Value, w: Value)
    ensures
        #[trigger] machine_after(
            r,
            Inst { opcode: Opcode::AndNot32, args: (x, y, z, w) },
        ) == (r.machine),
{
    reveal(machine_after);
}

/// The fact for the operation.
pub broadcast proof fn or32_result(r: Run, x: Value, y: Value, z: Value, w: Value)
    ensures
        #[trigger] result_of(
            r,
            Inst { opcode: Opcode::Or32, args: (x, y, z, w) },
        ) == (word(operand(r, x).word | operand(r, y).word)),
{
    reveal(result_of);
}

/// The fact for the operation.
pub broadcast proof fn or32_machine(r: Run, x: Value, y: Value, z: Value, w: Value)
    ensures
        #[trigger] machine_after(
            r,
            Inst { opcode: Opcode::Or32, args: (x, y, z, w) },
        ) == (r.machine),
{
    reveal(machine_after);
}

/// The fact for the operation.
pub broadcast proof fn eor32_result(r: Run, x: Value, y: Value, z: Value, w: Value)
    ensures
        #[trigger] result_of(
            r,
            Inst { opcode: Opcode::Eor32, args: (x, y, z, w) },
        ) == (word(operand(r, x).word ^ operand(r, y).word)),
{
    reveal(result_of);
}

/// The fact for the operation.
pub broadcast proof fn eor32_machine(r: Run, x: Value, y: Value, z: Value, w: Value)
    ensures
        #[trigger] machine_after(
            r,
            Inst { opcode: Opcode::Eor32, args: (x, y, z, w) },
        ) == (r.machine),
{
    reveal(machine_after);
}

/// The fact for the operation.
pub broadcast proof fn not32_result(r: Run, x: Value, y: Value, z: Value, w: Value)
    ensures
        #[trigger] result_of(
            r,
            Inst { opcode: Opcode::Not32, args: (x, y, z, w) },
        ) == (word(!operand(r, x).word)),
{
    reveal(result_of);
}

/// The fact for the operation.
pub broadcast proof fn not32_machine(r: Run, x: Value, y: Value, z: Value, w: Value)
    ensures
        #[trigger] machine_after(
            r,
            Inst { opcode: Opcode::Not32, args: (x, y, z, w) },
        ) == (r.machine),
{
    reveal(machine_after);
}

/// The fact for the operation.
pub broadcast proof fn add32_result(r: Run, x: Value, y: Value, z: Value, w: Value)
    ensures
        #[trigger] result_of(r, Inst { opcode: Opcode::Add32, args: (x, y, z, w) }) == (sum(
            operand(r, x).word,
            operand(r, y).word,
            operand(r, z).bit,
        )),
{
    reveal(result_of);
}

/// The fact for the operation.
pub broadcast proof fn add32_machine(r: Run, x: Value, y: Value, z: Value, w: Value)
    ensures
        #[trigger] machine_after(
            r,
            Inst { opcode: Opcode::Add32, args: (x, y, z, w) },
        ) == (r.machine),
{
    reveal(machine_after);
}

/// The fact for the operation.
pub broadcast proof fn sub32_result(r: Run, x: Value, y: Value, z: Value, w: Value)
    ensures
        #[trigger] result_of(r, Inst { opcode: Opcode::Sub32, args: (x, y, z, w) }) == (difference(
            operand(r, x).word,
            operand(r, y).word,
            operand(r, z).bit,
        )),
{
    reveal(result_of);
}

/// The fact for the operation.
pub broadcast proof fn sub32_machine(r: Run, x: Value, y: Value, z: Value, w: Value)
    ensures
        #[trigger] machine_after(
            r,
            Inst { opcode: Opcode::Sub32, args: (x, y, z, w) },
        ) == (r.machine),
{
    reveal(machine_after);
}

/// The fact for the operation.
pub broadcast proof fn mul32_result(r: Run, x: Value, y: Value, z: Value, w: Value)
    ensures
        #[trigger] result_of(
            r,
            Inst { opcode: Opcode::Mul32, args: (x, y, z, w) },
        ) == (word(as_word(operand(r, x).word * operand(r, y).word))),
{
    reveal(result_of);
}

/// The fact for the operation.
pub broadcast proof fn mul32_machine(r: Run, x: Value, y: Value, z: Value, w: Value)
    ensures
        #[trigger] machine_after(
            r,
            Inst { opcode: Opcode::Mul32, args: (x, y, z, w) },
        ) == (r.machine),
{
    reveal(machine_after);
}

/// The fact for the operation.
pub broadcast proof fn mul64_result(r: Run, x: Value, y: Value, z: Value, w: Value)
    ensures
        #[trigger] result_of(
            r,
            Inst { opcode: Opcode::Mul64, args: (x, y, z, w) },
        ) == (long(as_long(operand(r, x).long * operand(r, y).long))),
{
    reveal(result_of);
}

/// The fact for the operation.
pub broadcast proof fn mul64_machine(r: Run, x: Value, y: Value, z: Value, w: Value)
    ensures
        #[trigger] machine_after(
            r,
            Inst { opcode: Opcode::Mul64, args: (x, y, z, w) },
        ) == (r.machine),
{
    reveal(machine_after);
}

/// The fact for the operation.
pub broadcast proof fn add64_result(r: Run, x: Value, y: Value, z: Value, w: Value)
    ensures
        #[trigger] result_of(r, Inst { opcode: Opcode::Add64, args: (x, y, z, w) }) == (long(
            as_long(
                operand(r, x).long + operand(r, y).long + (if operand(r, z).bit { 1int } else { 0 }),
            ),
        )),
{
    reveal(result_of);
}

/// The fact for the operation.
pub broadcast proof fn add64_machine(r: Run, x: Value, y: Value, z: Value, w: Value)
    ensures
        #[trigger] machine_after(
            r,
            Inst { opcode: Opcode::Add64, args: (x, y, z, w) },
        ) == (r.machine),
{
    reveal(machine_after);
}

/// The fact for the operation.
pub broadcast proof fn sub64_result(r: Run, x: Value, y: Value, z: Value, w: Value)
    ensures
        #[trigger] result_of(r, Inst { opcode: Opcode::Sub64, args: (x, y, z, w) }) == (long(
            as_long(
                operand(r, x).long - operand(r, y).long - (if operand(r, z).bit { 0int } else { 1 }),
            ),
        )),
{
    reveal(result_of);
}

/// The fact for the operation.
pub broadcast proof fn sub64_machine(r: Run, x: Value, y: Value, z: Value, w: Value)
    ensures
        #[trigger] machine_after(
            r,
            Inst { opcode: Opcode::Sub64, args: (x, y, z, w) },
        ) == (r.machine),
{
    reveal(machine_after);
}

/// The fact for the operation.
pub broadcast proof fn and64_result(r: Run, x: Value, y: Value, z: Value, w: Value)
    ensures
        #[trigger] result_of(
            r,
            Inst { opcode: Opcode::And64, args: (x, y, z, w) },
        ) == (long(operand(r, x).long & operand(r, y).long)),
{
    reveal(result_of);
}

/// The fact for the operation.
pub broadcast proof fn and64_machine(r: Run, x: Value, y: Value, z: Value, w: Value)
    ensures
        #[trigger] machine_after(
            r,
            Inst { opcode: Opcode::And64, args: (x, y, z, w) },
        ) == (r.machine),
{
    reveal(machine_after);
}

/// The fact for the operation.
pub broadcast proof fn or64_result(r: Run, x: Value, y: Value, z: Value, w: Value)
    ensures
        #[trigger] result_of(
            r,
            Inst { opcode: Opcode::Or64, args: (x, y, z, w) },
        ) == (long(operand(r, x).long | operand(r, y).long)),
{
    reveal(result_of);
}

/// The fact for the operation.
pub broadcast proof fn or64_machine(r: Run, x: Value, y: Value, z: Value, w: Value)
    ensures
        #[trigger] machine_after(
            r,
            Inst { opcode: Opcode::Or64, args: (x, y, z, w) },
        ) == (r.machine),
{
    reveal(machine_after);
}

/// The fact for the operation.
pub broadcast proof fn logical_shift_left32_result(r: Run, x: Value, y: Value, z: Value, w: Value)
    ensures
        #[trigger] result_of(
            r,
            Inst { opcode: Opcode::LogicalShiftLeft32, args: (x, y, z, w) },
        ) == ({
            let (shifted, carry) = shifted_word(
                ShiftType::LSL,
                operand(r, x).word,
                operand(r, y).word,
                operand(r, z).bit,
            );
            word_and_carry(shifted, carry)
        }),
{
    reveal(result_of);
}

/// The fact for the operation.
pub broadcast proof fn logical_shift_left32_machine(r: Run, x: Value, y: Value, z: Value, w: Value)
    ensures
        #[trigger] machine_after(
            r,
            Inst { opcode: Opcode::LogicalShiftLeft32, args: (x, y, z, w) },
        ) == (r.machine),
{
    reveal(machine_after);
}

/// The fact for the operation.
pub broadcast proof fn logical_shift_right32_result(r: Run, x: Value, y: Value, z: Value, w: Value)
    ensures
        #[trigger] result_of(
            r,
            Inst { opcode: Opcode::LogicalShiftRight32, args: (x, y, z, w) },
        ) == ({
            let (shifted, carry) = shifted_word(
                ShiftType::LSR,
                operand(r, x).word,
                operand(r, y).word,
                operand(r, z).bit,
            );
            word_and_carry(shifted, carry)
        }),
{
    reveal(result_of);
}

/// The fact for the operation.
pub broadcast proof fn logical_shift_right32_machine(r: Run, x: Value, y: Value, z: Value, w: Value)
    ensures
        #[trigger] machine_after(
            r,
            Inst { opcode: Opcode::LogicalShiftRight32, args: (x, y, z, w) },
        ) == (r.machine),
{
    reveal(machine_after);
}

/// The fact for the operation.
pub broadcast proof fn arithmetic_shift_right32_result(
    r: Run,
    x: Value,
    y: Value,
    z: Value,
    w: Value,
)
    ensures
        #[trigger] result_of(
            r,
            Inst { opcode: Opcode::ArithmeticShiftRight32, args: (x, y, z, w) },
        ) == ({
            let (shifted, carry) = shifted_word(
                ShiftType::ASR,
                operand(r, x).word,
                operand(r, y).word,
                operand(r, z).bit,
            );
            word_and_carry(shifted, carry)
        }),
{
    reveal(result_of);
}

/// The fact for the operation.
pub broadcast proof fn arithmetic_shift_right32_machine(
    r: Run,
    x: Value,
    y: Value,
    z: Value,
    w: Value,
)
    ensures
        #[trigger] machine_after(
            r,
            Inst { opcode: Opcode::ArithmeticShiftRight32, args: (x, y, z, w) },
        ) == (r.machine),
{
    reveal(machine_after);
}

/// The fact for the operation.
pub broadcast proof fn bit_rotate_right32_result(r: Run, x: Value, y: Value, z: Value, w: Value)
    ensures
        #[trigger] result_of(r, Inst { opcode: Opcode::BitRotateRight32, args: (x, y, z, w) }) == ({
            let (shifted, carry) = shifted_word(
                ShiftType::ROR,
                operand(r, x).word,
                operand(r, y).word,
                operand(r, z).bit,
            );
            word_and_carry(shifted, carry)
        }),
{
    reveal(result_of);
}

/// The fact for the operation.
pub broadcast proof fn bit_rotate_right32_machine(r: Run, x: Value, y: Value, z: Value, w: Value)
    ensures
        #[trigger] machine_after(
            r,
            Inst { opcode: Opcode::BitRotateRight32, args: (x, y, z, w) },
        ) == (r.machine),
{
    reveal(machine_after);
}

/// The fact for the operation.
pub broadcast proof fn rotate_right_extended_result(r: Run, x: Value, y: Value, z: Value, w: Value)
    ensures
        #[trigger] result_of(
            r,
            Inst { opcode: Opcode::RotateRightExtended, args: (x, y, z, w) },
        ) == ({
            let (shifted, carry) = turned_through_carry(operand(r, x).word, operand(r, y).bit);
            word_and_carry(shifted, carry)
        }),
{
    reveal(result_of);
}

/// The fact for the operation.
pub broadcast proof fn rotate_right_extended_machine(r: Run, x: Value, y: Value, z: Value, w: Value)
    ensures
        #[trigger] machine_after(
            r,
            Inst { opcode: Opcode::RotateRightExtended, args: (x, y, z, w) },
        ) == (r.machine),
{
    reveal(machine_after);
}

/// The fact for the operation.
pub broadcast proof fn logical_shift_right64_result(r: Run, x: Value, y: Value, z: Value, w: Value)
    ensures
        #[trigger] result_of(
            r,
            Inst { opcode: Opcode::LogicalShiftRight64, args: (x, y, z, w) },
        ) == (long(operand(r, x).long >> (operand(r, y).word as u64))),
{
    reveal(result_of);
}

/// The fact for the operation.
pub broadcast proof fn logical_shift_right64_machine(r: Run, x: Value, y: Value, z: Value, w: Value)
    ensures
        #[trigger] machine_after(
            r,
            Inst { opcode: Opcode::LogicalShiftRight64, args: (x, y, z, w) },
        ) == (r.machine),
{
    reveal(machine_after);
}

/// The fact for the operation.
pub broadcast proof fn logical_shift_left64_result(r: Run, x: Value, y: Value, z: Value, w: Value)
    ensures
        #[trigger] result_of(
            r,
            Inst { opcode: Opcode::LogicalShiftLeft64, args: (x, y, z, w) },
        ) == (long(operand(r, x).long << (operand(r, y).word as u64))),
{
    reveal(result_of);
}

/// The fact for the operation.
pub broadcast proof fn logical_shift_left64_machine(r: Run, x: Value, y: Value, z: Value, w: Value)
    ensures
        #[trigger] machine_after(
            r,
            Inst { opcode: Opcode::LogicalShiftLeft64, args: (x, y, z, w) },
        ) == (r.machine),
{
    reveal(machine_after);
}

/// The fact for the operation.
pub broadcast proof fn get_carry_from_op_result(r: Run, x: Value, y: Value, z: Value, w: Value)
    ensures
        #[trigger] result_of(
            r,
            Inst { opcode: Opcode::GetCarryFromOp, args: (x, y, z, w) },
        ) == (bit(operand(r, x).carry)),
{
    reveal(result_of);
}

/// The fact for the operation.
pub broadcast proof fn get_carry_from_op_machine(r: Run, x: Value, y: Value, z: Value, w: Value)
    ensures
        #[trigger] machine_after(
            r,
            Inst { opcode: Opcode::GetCarryFromOp, args: (x, y, z, w) },
        ) == (r.machine),
{
    reveal(machine_after);
}

/// The fact for the operation.
pub broadcast proof fn get_overflow_from_op_result(r: Run, x: Value, y: Value, z: Value, w: Value)
    ensures
        #[trigger] result_of(
            r,
            Inst { opcode: Opcode::GetOverflowFromOp, args: (x, y, z, w) },
        ) == (bit(operand(r, x).overflow)),
{
    reveal(result_of);
}

/// The fact for the operation.
pub broadcast proof fn get_overflow_from_op_machine(r: Run, x: Value, y: Value, z: Value, w: Value)
    ensures
        #[trigger] machine_after(
            r,
            Inst { opcode: Opcode::GetOverflowFromOp, args: (x, y, z, w) },
        ) == (r.machine),
{
    reveal(machine_after);
}

/// The fact for the operation.
pub broadcast proof fn get_nzfrom_op_result(r: Run, x: Value, y: Value, z: Value, w: Value)
    ensures
        #[trigger] result_of(
            r,
            Inst { opcode: Opcode::GetNZFromOp, args: (x, y, z, w) },
        ) == (Outcome { flags: Flags { n: operand(r, x).word >= 0x8000_0000, z: operand(r, x).word == 0, c: operand(r, x).carry, v: operand(r, x).overflow }, ..arbitrary() }),
{
    reveal(result_of);
}

/// The fact for the operation.
pub broadcast proof fn get_nzfrom_op_machine(r: Run, x: Value, y: Value, z: Value, w: Value)
    ensures
        #[trigger] machine_after(
            r,
            Inst { opcode: Opcode::GetNZFromOp, args: (x, y, z, w) },
        ) == (r.machine),
{
    reveal(machine_after);
}

/// The fact for the operation.
pub broadcast proof fn get_nzcvfrom_op_result(r: Run, x: Value, y: Value, z: Value, w: Value)
    ensures
        #[trigger] result_of(
            r,
            Inst { opcode: Opcode::GetNZCVFromOp, args: (x, y, z, w) },
        ) == (Outcome { flags: Flags { n: operand(r, x).word >= 0x8000_0000, z: operand(r, x).word == 0, c: operand(r, x).carry, v: operand(r, x).overflow }, ..arbitrary() }),
{
    reveal(result_of);
}

/// The fact for the operation.
pub broadcast proof fn get_nzcvfrom_op_machine(r: Run, x: Value, y: Value, z: Value, w: Value)
    ensures
        #[trigger] machine_after(
            r,
            Inst { opcode: Opcode::GetNZCVFromOp, args: (x, y, z, w) },
        ) == (r.machine),
{
    reveal(machine_after);
}

/// The fact for the operation.
pub broadcast proof fn least_significant_byte_result(r: Run, x: Value, y: Value, z: Value, w: Value)
    ensures
        #[trigger] result_of(
            r,
            Inst { opcode: Opcode::LeastSignificantByte, args: (x, y, z, w) },
        ) == (word(operand(r, x).word & 0xFF)),
{
    reveal(result_of);
}

/// The fact for the operation.
pub broadcast proof fn least_significant_byte_machine(
    r: Run,
    x: Value,
    y: Value,
    z: Value,
    w: Value,
)
    ensures
        #[trigger] machine_after(
            r,
            Inst { opcode: Opcode::LeastSignificantByte, args: (x, y, z, w) },
        ) == (r.machine),
{
    reveal(machine_after);
}

/// The fact for the operation.
pub broadcast proof fn least_significant_half_result(r: Run, x: Value, y: Value, z: Value, w: Value)
    ensures
        #[trigger] result_of(
            r,
            Inst { opcode: Opcode::LeastSignificantHalf, args: (x, y, z, w) },
        ) == (word(operand(r, x).word & 0xFFFF)),
{
    reveal(result_of);
}

/// The fact for the operation.
pub broadcast proof fn least_significant_half_machine(
    r: Run,
    x: Value,
    y: Value,
    z: Value,
    w: Value,
)
    ensures
        #[trigger] machine_after(
            r,
            Inst { opcode: Opcode::LeastSignificantHalf, args: (x, y, z, w) },
        ) == (r.machine),
{
    reveal(machine_after);
}

/// The fact for the operation.
pub broadcast proof fn least_significant_word_result(r: Run, x: Value, y: Value, z: Value, w: Value)
    ensures
        #[trigger] result_of(
            r,
            Inst { opcode: Opcode::LeastSignificantWord, args: (x, y, z, w) },
        ) == (word(as_word(operand(r, x).long as int))),
{
    reveal(result_of);
}

/// The fact for the operation.
pub broadcast proof fn least_significant_word_machine(
    r: Run,
    x: Value,
    y: Value,
    z: Value,
    w: Value,
)
    ensures
        #[trigger] machine_after(
            r,
            Inst { opcode: Opcode::LeastSignificantWord, args: (x, y, z, w) },
        ) == (r.machine),
{
    reveal(machine_after);
}

/// The fact for the operation.
pub broadcast proof fn most_significant_word_result(r: Run, x: Value, y: Value, z: Value, w: Value)
    ensures
        #[trigger] result_of(
            r,
            Inst { opcode: Opcode::MostSignificantWord, args: (x, y, z, w) },
        ) == (word_and_carry(
            (operand(r, x).long as int / 0x1_0000_0000) as u32,
            (operand(r, x).long as int / 0x8000_0000) % 2 == 1,
        )),
{
    reveal(result_of);
}

/// The fact for the operation.
pub broadcast proof fn most_significant_word_machine(r: Run, x: Value, y: Value, z: Value, w: Value)
    ensures
        #[trigger] machine_after(
            r,
            Inst { opcode: Opcode::MostSignificantWord, args: (x, y, z, w) },
        ) == (r.machine),
{
    reveal(machine_after);
}

/// The fact for the operation.
pub broadcast proof fn zero_extend_byte_to_word_result(
    r: Run,
    x: Value,
    y: Value,
    z: Value,
    w: Value,
)
    ensures
        #[trigger] result_of(
            r,
            Inst { opcode: Opcode::ZeroExtendByteToWord, args: (x, y, z, w) },
        ) == (word(operand(r, x).word & 0xFF)),
{
    reveal(result_of);
}

/// The fact for the operation.
pub broadcast proof fn zero_extend_byte_to_word_machine(
    r: Run,
    x: Value,
    y: Value,
    z: Value,
    w: Value,
)
    ensures
        #[trigger] machine_after(
            r,
            Inst { opcode: Opcode::ZeroExtendByteToWord, args: (x, y, z, w) },
        ) == (r.machine),
{
    reveal(machine_after);
}

/// The fact for the operation.
pub broadcast proof fn zero_extend_half_to_word_result(
    r: Run,
    x: Value,
    y: Value,
    z: Value,
    w: Value,
)
    ensures
        #[trigger] result_of(
            r,
            Inst { opcode: Opcode::ZeroExtendHalfToWord, args: (x, y, z, w) },
        ) == (word(operand(r, x).word & 0xFFFF)),
{
    reveal(result_of);
}

/// The fact for the operation.
pub broadcast proof fn zero_extend_half_to_word_machine(
    r: Run,
    x: Value,
    y: Value,
    z: Value,
    w: Value,
)
    ensures
        #[trigger] machine_after(
            r,
            Inst { opcode: Opcode::ZeroExtendHalfToWord, args: (x, y, z, w) },
        ) == (r.machine),
{
    reveal(machine_after);
}

/// The fact for the operation.
pub broadcast proof fn sign_extend_byte_to_word_result(
    r: Run,
    x: Value,
    y: Value,
    z: Value,
    w: Value,
)
    ensures
        #[trigger] result_of(
            r,
            Inst { opcode: Opcode::SignExtendByteToWord, args: (x, y, z, w) },
        ) == (word(
            as_word(
                if operand(r, x).word & 0xFF >= 0x80 {
                    (operand(r, x).word & 0xFF) - 0x100
                } else {
                    (operand(r, x).word & 0xFF) as int
                },
            ),
        )),
{
    reveal(result_of);
}

/// The fact for the operation.
pub broadcast proof fn sign_extend_byte_to_word_machine(
    r: Run,
    x: Value,
    y: Value,
    z: Value,
    w: Value,
)
    ensures
        #[trigger] machine_after(
            r,
            Inst { opcode: Opcode::SignExtendByteToWord, args: (x, y, z, w) },
        ) == (r.machine),
{
    reveal(machine_after);
}

/// The fact for the operation.
pub broadcast proof fn sign_extend_half_to_word_result(
    r: Run,
    x: Value,
    y: Value,
    z: Value,
    w: Value,
)
    ensures
        #[trigger] result_of(
            r,
            Inst { opcode: Opcode::SignExtendHalfToWord, args: (x, y, z, w) },
        ) == (word(
            as_word(
                if operand(r, x).word & 0xFFFF >= 0x8000 {
                    (operand(r, x).word & 0xFFFF) - 0x1_0000
                } else {
                    (operand(r, x).word & 0xFFFF) as int
                },
            ),
        )),
{
    reveal(result_of);
}

/// The fact for the operation.
pub broadcast proof fn sign_extend_half_to_word_machine(
    r: Run,
    x: Value,
    y: Value,
    z: Value,
    w: Value,
)
    ensures
        #[trigger] machine_after(
            r,
            Inst { opcode: Opcode::SignExtendHalfToWord, args: (x, y, z, w) },
        ) == (r.machine),
{
    reveal(machine_after);
}

/// The fact for the operation.
pub broadcast proof fn zero_extend_word_to_long_result(
    r: Run,
    x: Value,
    y: Value,
    z: Value,
    w: Value,
)
    ensures
        #[trigger] result_of(
            r,
            Inst { opcode: Opcode::ZeroExtendWordToLong, args: (x, y, z, w) },
        ) == (long(operand(r, x).word as u64)),
{
    reveal(result_of);
}

/// The fact for the operation.
pub broadcast proof fn zero_extend_word_to_long_machine(
    r: Run,
    x: Value,
    y: Value,
    z: Value,
    w: Value,
)
    ensures
        #[trigger] machine_after(
            r,
            Inst { opcode: Opcode::ZeroExtendWordToLong, args: (x, y, z, w) },
        ) == (r.machine),
{
    reveal(machine_after);
}

/// The fact for the operation.
pub broadcast proof fn sign_extend_word_to_long_result(
    r: Run,
    x: Value,
    y: Value,
    z: Value,
    w: Value,
)
    ensures
        #[trigger] result_of(
            r,
            Inst { opcode: Opcode::SignExtendWordToLong, args: (x, y, z, w) },
        ) == (long(as_long(signed_word(operand(r, x).word)))),
{
    reveal(result_of);
}

/// The fact for the operation.
pub broadcast proof fn sign_extend_word_to_long_machine(
    r: Run,
    x: Value,
    y: Value,
    z: Value,
    w: Value,
)
    ensures
        #[trigger] machine_after(
            r,
            Inst { opcode: Opcode::SignExtendWordToLong, args: (x, y, z, w) },
        ) == (r.machine),
{
    reveal(machine_after);
}

/// The fact for the operation.
pub broadcast proof fn pack2x32_to1x64_result(r: Run, x: Value, y: Value, z: Value, w: Value)
    ensures
        #[trigger] result_of(
            r,
            Inst { opcode: Opcode::Pack2x32To1x64, args: (x, y, z, w) },
        ) == (long(as_long(operand(r, x).word + operand(r, y).word * 0x1_0000_0000))),
{
    reveal(result_of);
}

/// The fact for the operation.
pub broadcast proof fn pack2x32_to1x64_machine(r: Run, x: Value, y: Value, z: Value, w: Value)
    ensures
        #[trigger] machine_after(
            r,
            Inst { opcode: Opcode::Pack2x32To1x64, args: (x, y, z, w) },
        ) == (r.machine),
{
    reveal(machine_after);
}

/// The fact for the operation.
pub broadcast proof fn byte_reverse_half_result(r: Run, x: Value, y: Value, z: Value, w: Value)
    ensures
        #[trigger] result_of(
            r,
            Inst { opcode: Opcode::ByteReverseHalf, args: (x, y, z, w) },
        ) == (word(reversed_half(operand(r, x).word))),
{
    reveal(result_of);
}

/// The fact for the operation.
pub broadcast proof fn byte_reverse_half_machine(r: Run, x: Value, y: Value, z: Value, w: Value)
    ensures
        #[trigger] machine_after(
            r,
            Inst { opcode: Opcode::ByteReverseHalf, args: (x, y, z, w) },
        ) == (r.machine),
{
    reveal(machine_after);
}

/// The fact for the operation.
pub broadcast proof fn byte_reverse_word_result(r: Run, x: Value, y: Value, z: Value, w: Value)
    ensures
        #[trigger] result_of(
            r,
            Inst { opcode: Opcode::ByteReverseWord, args: (x, y, z, w) },
        ) == (word(reversed_word(operand(r, x).word))),
{
    reveal(result_of);
}

/// The fact for the operation.
pub broadcast proof fn byte_reverse_word_machine(r: Run, x: Value, y: Value, z: Value, w: Value)
    ensures
        #[trigger] machine_after(
            r,
            Inst { opcode: Opcode::ByteReverseWord, args: (x, y, z, w) },
        ) == (r.machine),
{
    reveal(machine_after);
}

/// The fact for the operation.
pub broadcast proof fn byte_reverse_dual_result(r: Run, x: Value, y: Value, z: Value, w: Value)
    ensures
        #[trigger] result_of(
            r,
            Inst { opcode: Opcode::ByteReverseDual, args: (x, y, z, w) },
        ) == (long(reversed_long(operand(r, x).long))),
{
    reveal(result_of);
}

/// The fact for the operation.
pub broadcast proof fn byte_reverse_dual_machine(r: Run, x: Value, y: Value, z: Value, w: Value)
    ensures
        #[trigger] machine_after(
            r,
            Inst { opcode: Opcode::ByteReverseDual, args: (x, y, z, w) },
        ) == (r.machine),
{
    reveal(machine_after);
}

/// The fact for the operation.
pub broadcast proof fn guest_set_register_machine(r: Run, n: Reg, y: Value, z: Value, w: Value)
    ensures
        #[trigger] machine_after(
            r,
            Inst { opcode: Opcode::A32SetRegister, args: (Value::ImmA32Reg(n), y, z, w) },
        ) == (Machine { regs: r.machine.regs.insert(n, operand(r, y).word), ..r.machine }),
{
    reveal(machine_after);
}

/// The fact for the operation.
pub broadcast proof fn guest_bxwrite_pc_machine(r: Run, x: Value, y: Value, z: Value, w: Value)
    ensures
        #[trigger] machine_after(
            r,
            Inst { opcode: Opcode::A32BXWritePC, args: (x, y, z, w) },
        ) == (Machine { regs: r.machine.regs.insert(Reg::R15, operand(r, x).word), ..r.machine }),
{
    reveal(machine_after);
}

/// The fact for the operation.
pub broadcast proof fn guest_set_vector_machine(r: Run, n: ExtReg, y: Value, z: Value, w: Value)
    ensures
        #[trigger] machine_after(
            r,
            Inst { opcode: Opcode::A32SetVector, args: (Value::ImmA32ExtReg(n), y, z, w) },
        ) == (with_vector(r.machine, n, operand(r, y).vector)),
{
    reveal(machine_after);
}

/// The fact for the operation.
pub broadcast proof fn guest_set_cpsr_nzcv_machine(r: Run, x: Value, y: Value, z: Value, w: Value)
    ensures
        #[trigger] machine_after(
            r,
            Inst { opcode: Opcode::A32SetCpsrNZCV, args: (x, y, z, w) },
        ) == (Machine { flags: operand(r, x).flags, ..r.machine }),
{
    reveal(machine_after);
}

/// The fact for the operation.
pub broadcast proof fn guest_set_cpsr_nzc_machine(r: Run, x: Value, y: Value, z: Value, w: Value)
    ensures
        #[trigger] machine_after(
            r,
            Inst { opcode: Opcode::A32SetCpsrNZC, args: (x, y, z, w) },
        ) == (Machine { flags: Flags { n: operand(r, x).flags.n, z: operand(r, x).flags.z, c: operand(r, y).bit, ..r.machine.flags }, ..r.machine }),
{
    reveal(machine_after);
}

/// The fact for the operation.
pub broadcast proof fn guest_set_cpsr_nz_machine(r: Run, x: Value, y: Value, z: Value, w: Value)
    ensures
        #[trigger] machine_after(
            r,
            Inst { opcode: Opcode::A32SetCpsrNZ, args: (x, y, z, w) },
        ) == (Machine { flags: Flags { n: operand(r, x).flags.n, z: operand(r, x).flags.z, ..r.machine.flags }, ..r.machine }),
{
    reveal(machine_after);
}

/// The fact for the operation.
pub broadcast proof fn guest_or_qflag_machine(r: Run, x: Value, y: Value, z: Value, w: Value)
    ensures
        #[trigger] machine_after(
            r,
            Inst { opcode: Opcode::A32OrQFlag, args: (x, y, z, w) },
        ) == (Machine { q: r.machine.q || operand(r, x).bit, ..r.machine }),
{
    reveal(machine_after);
}

/// The fact for the operation.
pub broadcast proof fn guest_read_memory8_result(r: Run, x: Value, y: Value, z: Value, w: Value)
    ensures
        #[trigger] result_of(
            r,
            Inst { opcode: Opcode::A32ReadMemory8, args: (x, y, z, w) },
        ) == (Outcome { word: r.machine.memory[(8int, operand(r, y).word)] as u32, long: r.machine.memory[(8int, operand(r, y).word)], ..arbitrary() }),
{
    reveal(result_of);
}

/// The fact for the operation.
pub broadcast proof fn guest_read_memory8_machine(r: Run, x: Value, y: Value, z: Value, w: Value)
    ensures
        #[trigger] machine_after(
            r,
            Inst { opcode: Opcode::A32ReadMemory8, args: (x, y, z, w) },
        ) == (Machine { accesses: r.machine.accesses.push(
            Access { write: false, bits: 8, address: operand(r, y).word, value: 0 },
        ), ..r.machine }),
{
    reveal(machine_after);
}

/// The fact for the operation.
pub broadcast proof fn guest_write_memory8_machine(r: Run, x: Value, y: Value, z: Value, w: Value)
    ensures
        #[trigger] machine_after(
            r,
            Inst { opcode: Opcode::A32WriteMemory8, args: (x, y, z, w) },
        ) == (Machine { accesses: r.machine.accesses.push(
            Access { write: true, bits: 8, address: operand(r, y).word, value: written(
                8,
                operand(r, z),
            ) },
        ), ..r.machine }),
{
    reveal(machine_after);
}

/// The fact for the operation.
pub broadcast proof fn guest_read_memory16_result(r: Run, x: Value, y: Value, z: Value, w: Value)
    ensures
        #[trigger] result_of(
            r,
            Inst { opcode: Opcode::A32ReadMemory16, args: (x, y, z, w) },
        ) == (Outcome { word: r.machine.memory[(16int, operand(r, y).word)] as u32, long: r.machine.memory[(16int, operand(r, y).word)], ..arbitrary() }),
{
    reveal(result_of);
}

/// The fact for the operation.
pub broadcast proof fn guest_read_memory16_machine(r: Run, x: Value, y: Value, z: Value, w: Value)
    ensures
        #[trigger] machine_after(
            r,
            Inst { opcode: Opcode::A32ReadMemory16, args: (x, y, z, w) },
        ) == (Machine { accesses: r.machine.accesses.push(
            Access { write: false, bits: 16, address: operand(r, y).word, value: 0 },
        ), ..r.machine }),
{
    reveal(machine_after);
}

/// The fact for the operation.
pub broadcast proof fn guest_write_memory16_machine(r: Run, x: Value, y: Value, z: Value, w: Value)
    ensures
        #[trigger] machine_after(
            r,
            Inst { opcode: Opcode::A32WriteMemory16, args: (x, y, z, w) },
        ) == (Machine { accesses: r.machine.accesses.push(
            Access { write: true, bits: 16, address: operand(r, y).word, value: written(
                16,
                operand(r, z),
            ) },
        ), ..r.machine }),
{
    reveal(machine_after);
}

/// The fact for the operation.
pub broadcast proof fn guest_read_memory32_result(r: Run, x: Value, y: Value, z: Value, w: Value)
    ensures
        #[trigger] result_of(
            r,
            Inst { opcode: Opcode::A32ReadMemory32, args: (x, y, z, w) },
        ) == (Outcome { word: r.machine.memory[(32int, operand(r, y).word)] as u32, long: r.machine.memory[(32int, operand(r, y).word)], ..arbitrary() }),
{
    reveal(result_of);
}

/// The fact for the operation.
pub broadcast proof fn guest_read_memory32_machine(r: Run, x: Value, y: Value, z: Value, w: Value)
    ensures
        #[trigger] machine_after(
            r,
            Inst { opcode: Opcode::A32ReadMemory32, args: (x, y, z, w) },
        ) == (Machine { accesses: r.machine.accesses.push(
            Access { write: false, bits: 32, address: operand(r, y).word, value: 0 },
        ), ..r.machine }),
{
    reveal(machine_after);
}

/// The fact for the operation.
pub broadcast proof fn guest_write_memory32_machine(r: Run, x: Value, y: Value, z: Value, w: Value)
    ensures
        #[trigger] machine_after(
            r,
            Inst { opcode: Opcode::A32WriteMemory32, args: (x, y, z, w) },
        ) == (Machine { accesses: r.machine.accesses.push(
            Access { write: true, bits: 32, address: operand(r, y).word, value: written(
                32,
                operand(r, z),
            ) },
        ), ..r.machine }),
{
    reveal(machine_after);
}

/// The fact for the operation.
pub broadcast proof fn guest_read_memory64_result(r: Run, x: Value, y: Value, z: Value, w: Value)
    ensures
        #[trigger] result_of(
            r,
            Inst { opcode: Opcode::A32ReadMemory64, args: (x, y, z, w) },
        ) == (Outcome { word: r.machine.memory[(64int, operand(r, y).word)] as u32, long: r.machine.memory[(64int, operand(r, y).word)], ..arbitrary() }),
{
    reveal(result_of);
}

/// The fact for the operation.
pub broadcast proof fn guest_read_memory64_machine(r: Run, x: Value, y: Value, z: Value, w: Value)
    ensures
        #[trigger] machine_after(
            r,
            Inst { opcode: Opcode::A32ReadMemory64, args: (x, y, z, w) },
        ) == (Machine { accesses: r.machine.accesses.push(
            Access { write: false, bits: 64, address: operand(r, y).word, value: 0 },
        ), ..r.machine }),
{
    reveal(machine_after);
}

/// The fact for the operation.
pub broadcast proof fn guest_write_memory64_machine(r: Run, x: Value, y: Value, z: Value, w: Value)
    ensures
        #[trigger] machine_after(
            r,
            Inst { opcode: Opcode::A32WriteMemory64, args: (x, y, z, w) },
        ) == (Machine { accesses: r.machine.accesses.push(
            Access { write: true, bits: 64, address: operand(r, y).word, value: written(
                64,
                operand(r, z),
            ) },
        ), ..r.machine }),
{
    reveal(machine_after);
}

/// The fact for the operation.
pub broadcast proof fn guest_exclusive_read_memory8_result(
    r: Run,
    x: Value,
    y: Value,
    z: Value,
    w: Value,
)
    ensures
        #[trigger] result_of(
            r,
            Inst { opcode: Opcode::A32ExclusiveReadMemory8, args: (x, y, z, w) },
        ) == (Outcome { word: r.machine.memory[(8int, operand(r, y).word)] as u32, long: r.machine.memory[(8int, operand(r, y).word)], ..arbitrary() }),
{
    reveal(result_of);
}

/// The fact for the operation.
pub broadcast proof fn guest_exclusive_read_memory8_machine(
    r: Run,
    x: Value,
    y: Value,
    z: Value,
    w: Value,
)
    ensures
        #[trigger] machine_after(
            r,
            Inst { opcode: Opcode::A32ExclusiveReadMemory8, args: (x, y, z, w) },
        ) == (Machine { accesses: r.machine.accesses.push(
            Access { write: false, bits: 8, address: operand(r, y).word, value: 0 },
        ), ..r.machine }),
{
    reveal(machine_after);
}

/// The fact for the operation.
pub broadcast proof fn guest_exclusive_write_memory8_machine(
    r: Run,
    x: Value,
    y: Value,
    z: Value,
    w: Value,
)
    ensures
        #[trigger] machine_after(
            r,
            Inst { opcode: Opcode::A32ExclusiveWriteMemory8, args: (x, y, z, w) },
        ) == (Machine { accesses: r.machine.accesses.push(
            Access { write: true, bits: 8, address: operand(r, y).word, value: written(
                8,
                operand(r, z),
            ) },
        ), ..r.machine }),
{
    reveal(machine_after);
}

/// The fact for the operation.
pub broadcast proof fn guest_exclusive_read_memory16_result(
    r: Run,
    x: Value,
    y: Value,
    z: Value,
    w: Value,
)
    ensures
        #[trigger] result_of(
            r,
            Inst { opcode: Opcode::A32ExclusiveReadMemory16, args: (x, y, z, w) },
        ) == (Outcome { word: r.machine.memory[(16int, operand(r, y).word)] as u32, long: r.machine.memory[(16int, operand(r, y).word)], ..arbitrary() }),
{
    reveal(result_of);
}

/// The fact for the operation.
pub broadcast proof fn guest_exclusive_read_memory16_machine(
    r: Run,
    x: Value,
    y: Value,
    z: Value,
    w: Value,
)
    ensures
        #[trigger] machine_after(
            r,
            Inst { opcode: Opcode::A32ExclusiveReadMemory16, args: (x, y, z, w) },
        ) == (Machine { accesses: r.machine.accesses.push(
            Access { write: false, bits: 16, address: operand(r, y).word, value: 0 },
        ), ..r.machine }),
{
    reveal(machine_after);
}

/// The fact for the operation.
pub broadcast proof fn guest_exclusive_write_memory16_machine(
    r: Run,
    x: Value,
    y: Value,
    z: Value,
    w: Value,
)
    ensures
        #[trigger] machine_after(
            r,
            Inst { opcode: Opcode::A32ExclusiveWriteMemory16, args: (x, y, z, w) },
        ) == (Machine { accesses: r.machine.accesses.push(
            Access { write: true, bits: 16, address: operand(r, y).word, value: written(
                16,
                operand(r, z),
            ) },
        ), ..r.machine }),
{
    reveal(machine_after);
}

/// The fact for the operation.
pub broadcast proof fn guest_exclusive_read_memory32_result(
    r: Run,
    x: Value,
    y: Value,
    z: Value,
    w: Value,
)
    ensures
        #[trigger] result_of(
            r,
            Inst { opcode: Opcode::A32ExclusiveReadMemory32, args: (x, y, z, w) },
        ) == (Outcome { word: r.machine.memory[(32int, operand(r, y).word)] as u32, long: r.machine.memory[(32int, operand(r, y).word)], ..arbitrary() }),
{
    reveal(result_of);
}

/// The fact for the operation.
pub broadcast proof fn guest_exclusive_read_memory32_machine(
    r: Run,
    x: Value,
    y: Value,
    z: Value,
    w: Value,
)
    ensures
        #[trigger] machine_after(
            r,
            Inst { opcode: Opcode::A32ExclusiveReadMemory32, args: (x, y, z, w) },
        ) == (Machine { accesses: r.machine.accesses.push(
            Access { write: false, bits: 32, address: operand(r, y).word, value: 0 },
        ), ..r.machine }),
{
    reveal(machine_after);
}

/// The fact for the operation.
pub broadcast proof fn guest_exclusive_write_memory32_machine(
    r: Run,
    x: Value,
    y: Value,
    z: Value,
    w: Value,
)
    ensures
        #[trigger] machine_after(
            r,
            Inst { opcode: Opcode::A32ExclusiveWriteMemory32, args: (x, y, z, w) },
        ) == (Machine { accesses: r.machine.accesses.push(
            Access { write: true, bits: 32, address: operand(r, y).word, value: written(
                32,
                operand(r, z),
            ) },
        ), ..r.machine }),
{
    reveal(machine_after);
}

/// The fact for the operation.
pub broadcast proof fn guest_exclusive_read_memory64_result(
    r: Run,
    x: Value,
    y: Value,
    z: Value,
    w: Value,
)
    ensures
        #[trigger] result_of(
            r,
            Inst { opcode: Opcode::A32ExclusiveReadMemory64, args: (x, y, z, w) },
        ) == (Outcome { word: r.machine.memory[(64int, operand(r, y).word)] as u32, long: r.machine.memory[(64int, operand(r, y).word)], ..arbitrary() }),
{
    reveal(result_of);
}

/// The fact for the operation.
pub broadcast proof fn guest_exclusive_read_memory64_machine(
    r: Run,
    x: Value,
    y: Value,
    z: Value,
    w: Value,
)
    ensures
        #[trigger] machine_after(
            r,
            Inst { opcode: Opcode::A32ExclusiveReadMemory64, args: (x, y, z, w) },
        ) == (Machine { accesses: r.machine.accesses.push(
            Access { write: false, bits: 64, address: operand(r, y).word, value: 0 },
        ), ..r.machine }),
{
    reveal(machine_after);
}

/// The fact for the operation.
pub broadcast proof fn guest_exclusive_write_memory64_machine(
    r: Run,
    x: Value,
    y: Value,
    z: Value,
    w: Value,
)
    ensures
        #[trigger] machine_after(
            r,
            Inst { opcode: Opcode::A32ExclusiveWriteMemory64, args: (x, y, z, w) },
        ) == (Machine { accesses: r.machine.accesses.push(
            Access { write: true, bits: 64, address: operand(r, y).word, value: written(
                64,
                operand(r, z),
            ) },
        ), ..r.machine }),
{
    reveal(machine_after);
}

/// The fact for reading a vector register.
pub broadcast proof fn guest_get_vector_result(r: Run, n: ExtReg, y: Value, z: Value, w: Value)
    ensures
        #[trigger] result_of(
            r,
            Inst { opcode: Opcode::A32GetVector, args: (Value::ImmA32ExtReg(n), y, z, w) },
        ).vector == vector_at(r.machine, n),
{
    reveal(result_of);
    reveal(vector_outcome);
}

/// The fact for operations on two vectors.
pub broadcast proof fn pair_step(r: Run, opcode: Opcode, x: Value, y: Value, z: Value, w: Value)
    requires
        is_pair(opcode),
    ensures
        (#[trigger] result_of(r, Inst { opcode, args: (x, y, z, w) })).vector == pair_result(
            opcode,
            operand(r, x).vector,
            operand(r, y).vector,
            r.machine.float,
        ),
{
    reveal(result_of);
    reveal(vector_outcome);
}

/// The fact for operations on one vector.
pub broadcast proof fn single_step(r: Run, opcode: Opcode, x: Value, y: Value, z: Value, w: Value)
    requires
        is_single(opcode),
        !is_pair(opcode),
    ensures
        (#[trigger] result_of(r, Inst { opcode, args: (x, y, z, w) })).vector == single_result(
            opcode,
            operand(r, x).vector,
            r.machine.float,
        ),
{
    reveal(result_of);
    reveal(vector_outcome);
}

/// The fact for shifts of vectors.
pub broadcast proof fn shift_step(r: Run, opcode: Opcode, x: Value, y: Value, z: Value, w: Value)
    requires
        lane_shift(opcode) is Some,
        !is_pair(opcode),
        !is_single(opcode),
    ensures
        (#[trigger] result_of(r, Inst { opcode, args: (x, y, z, w) })).vector == shift_result(
            opcode,
            operand(r, x).vector,
            operand(r, y).word as int,
        ),
{
    reveal(result_of);
    reveal(vector_outcome);
}

/// The fact for fused products.
pub broadcast proof fn fused_step(r: Run, x: Value, y: Value, z: Value, w: Value)
    ensures
        (#[trigger] result_of(
            r,
            Inst { opcode: Opcode::FPVectorMulAdd32, args: (x, y, z, w) },
        )).vector == fused(
            r.machine.float,
            operand(r, x).vector,
            operand(r, y).vector,
            operand(r, z).vector,
        ),
{
    reveal(result_of);
    reveal(vector_outcome);
}

/// Operations on vectors leave the machine alone.
pub broadcast proof fn vector_steps_keep_the_machine(
    r: Run,
    opcode: Opcode,
    x: Value,
    y: Value,
    z: Value,
    w: Value,
)
    requires
        works_on_vectors(opcode),
    ensures
        #[trigger] machine_after(r, Inst { opcode, args: (x, y, z, w) }) == r.machine,
{
    reveal(machine_after);
}

/// The fact for the operation.
pub broadcast proof fn push_rsb_machine(r: Run, x: Value, y: Value, z: Value, w: Value)
    ensures
        #[trigger] machine_after(
            r,
            Inst { opcode: Opcode::PushRSB, args: (x, y, z, w) },
        ) == (r.machine),
{
    reveal(machine_after);
}

/// The fact for the operation.
pub broadcast proof fn guest_update_upper_location_descriptor_machine(
    r: Run,
    x: Value,
    y: Value,
    z: Value,
    w: Value,
)
    ensures
        #[trigger] machine_after(
            r,
            Inst { opcode: Opcode::A32UpdateUpperLocationDescriptor, args: (x, y, z, w) },
        ) == (r.machine),
{
    reveal(machine_after);
}

/// The fact for the operation.
pub broadcast proof fn guest_get_vector_machine(r: Run, x: Value, y: Value, z: Value, w: Value)
    ensures
        #[trigger] machine_after(
            r,
            Inst { opcode: Opcode::A32GetVector, args: (x, y, z, w) },
        ) == (r.machine),
{
    reveal(machine_after);
}

/// The fact for the operation.
pub broadcast proof fn zero_vector_machine(r: Run, x: Value, y: Value, z: Value, w: Value)
    ensures
        #[trigger] machine_after(
            r,
            Inst { opcode: Opcode::ZeroVector, args: (x, y, z, w) },
        ) == (r.machine),
{
    reveal(machine_after);
}

pub broadcast group group_vector_steps {
    guest_get_vector_result,
    pair_step,
    single_step,
    shift_step,
    fused_step,
    vector_steps_keep_the_machine,
}

pub broadcast group group_steps {
    guest_get_register_result,
    guest_get_register_machine,
    guest_get_cflag_result,
    guest_get_cflag_machine,
    and32_result,
    and32_machine,
    and_not32_result,
    and_not32_machine,
    or32_result,
    or32_machine,
    eor32_result,
    eor32_machine,
    not32_result,
    not32_machine,
    add32_result,
    add32_machine,
    sub32_result,
    sub32_machine,
    mul32_result,
    mul32_machine,
    mul64_result,
    mul64_machine,
    add64_result,
    add64_machine,
    sub64_result,
    sub64_machine,
    and64_result,
    and64_machine,
    or64_result,
    or64_machine,
    logical_shift_left32_result,
    logical_shift_left32_machine,
    logical_shift_right32_result,
    logical_shift_right32_machine,
    arithmetic_shift_right32_result,
    arithmetic_shift_right32_machine,
    bit_rotate_right32_result,
    bit_rotate_right32_machine,
    rotate_right_extended_result,
    rotate_right_extended_machine,
    logical_shift_right64_result,
    logical_shift_right64_machine,
    logical_shift_left64_result,
    logical_shift_left64_machine,
    get_carry_from_op_result,
    get_carry_from_op_machine,
    get_overflow_from_op_result,
    get_overflow_from_op_machine,
    get_nzfrom_op_result,
    get_nzfrom_op_machine,
    get_nzcvfrom_op_result,
    get_nzcvfrom_op_machine,
    least_significant_byte_result,
    least_significant_byte_machine,
    least_significant_half_result,
    least_significant_half_machine,
    least_significant_word_result,
    least_significant_word_machine,
    most_significant_word_result,
    most_significant_word_machine,
    zero_extend_byte_to_word_result,
    zero_extend_byte_to_word_machine,
    zero_extend_half_to_word_result,
    zero_extend_half_to_word_machine,
    sign_extend_byte_to_word_result,
    sign_extend_byte_to_word_machine,
    sign_extend_half_to_word_result,
    sign_extend_half_to_word_machine,
    zero_extend_word_to_long_result,
    zero_extend_word_to_long_machine,
    sign_extend_word_to_long_result,
    sign_extend_word_to_long_machine,
    pack2x32_to1x64_result,
    pack2x32_to1x64_machine,
    byte_reverse_half_result,
    byte_reverse_half_machine,
    byte_reverse_word_result,
    byte_reverse_word_machine,
    byte_reverse_dual_result,
    byte_reverse_dual_machine,
    guest_set_register_machine,
    guest_bxwrite_pc_machine,
    guest_set_vector_machine,
    guest_set_cpsr_nzcv_machine,
    guest_set_cpsr_nzc_machine,
    guest_set_cpsr_nz_machine,
    guest_or_qflag_machine,
    guest_read_memory8_result,
    guest_read_memory8_machine,
    guest_write_memory8_machine,
    guest_read_memory16_result,
    guest_read_memory16_machine,
    guest_write_memory16_machine,
    guest_read_memory32_result,
    guest_read_memory32_machine,
    guest_write_memory32_machine,
    guest_read_memory64_result,
    guest_read_memory64_machine,
    guest_write_memory64_machine,
    guest_exclusive_read_memory8_result,
    guest_exclusive_read_memory8_machine,
    guest_exclusive_write_memory8_machine,
    guest_exclusive_read_memory16_result,
    guest_exclusive_read_memory16_machine,
    guest_exclusive_write_memory16_machine,
    guest_exclusive_read_memory32_result,
    guest_exclusive_read_memory32_machine,
    guest_exclusive_write_memory32_machine,
    guest_exclusive_read_memory64_result,
    guest_exclusive_read_memory64_machine,
    guest_exclusive_write_memory64_machine,
    push_rsb_machine,
    guest_update_upper_location_descriptor_machine,
    guest_get_vector_machine,
    zero_vector_machine,
}

} // verus!
