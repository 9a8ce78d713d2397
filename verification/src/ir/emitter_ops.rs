//! Operations on plain values and vectors: each appends one instruction.

use vstd::prelude::*;
use crate::ir::a32_emitter::A32IREmitter;
use crate::ir::opcode;
use crate::ir::opcode::Opcode;
use crate::ir::value::Value;

verus! {

impl A32IREmitter {
    /// Emits the bitwise and of two words.
    pub fn and_32(&mut self, a: Value, b: Value) -> (r: Value)
        ensures
            (final(self)@, r) == old(self)@.op2(Opcode::And32, a, b),
    {
        self.op2(Opcode::And32, a, b)
    }

    /// Emits the bitwise and of two double words.
    pub fn and_64(&mut self, a: Value, b: Value) -> (r: Value)
        ensures
            (final(self)@, r) == old(self)@.op2(Opcode::And64, a, b),
    {
        self.op2(Opcode::And64, a, b)
    }

    /// Emits the the first word with the bits of the second cleared.
    pub fn and_not_32(&mut self, a: Value, b: Value) -> (r: Value)
        ensures
            (final(self)@, r) == old(self)@.op2(Opcode::AndNot32, a, b),
    {
        self.op2(Opcode::AndNot32, a, b)
    }

    /// Emits the bitwise or of two words.
    pub fn or_32(&mut self, a: Value, b: Value) -> (r: Value)
        ensures
            (final(self)@, r) == old(self)@.op2(Opcode::Or32, a, b),
    {
        self.op2(Opcode::Or32, a, b)
    }

    /// Emits the bitwise or of two double words.
    pub fn or_64(&mut self, a: Value, b: Value) -> (r: Value)
        ensures
            (final(self)@, r) == old(self)@.op2(Opcode::Or64, a, b),
    {
        self.op2(Opcode::Or64, a, b)
    }

    /// Emits the bitwise exclusive or of two words.
    pub fn eor_32(&mut self, a: Value, b: Value) -> (r: Value)
        ensures
            (final(self)@, r) == old(self)@.op2(Opcode::Eor32, a, b),
    {
        self.op2(Opcode::Eor32, a, b)
    }

    /// Emits the bitwise complement of a word.
    pub fn not_32(&mut self, a: Value) -> (r: Value)
        ensures
            (final(self)@, r) == old(self)@.op1(Opcode::Not32, a),
    {
        self.op1(Opcode::Not32, a)
    }

    /// Emits the sum of two words and a carry.
    pub fn add_32(&mut self, a: Value, b: Value, carry_in: Value) -> (r: Value)
        ensures
            (final(self)@, r) == old(self)@.op3(Opcode::Add32, a, b, carry_in),
    {
        self.op3(Opcode::Add32, a, b, carry_in)
    }

    /// Emits the sum of two double words and a carry.
    pub fn add_64(&mut self, a: Value, b: Value, carry_in: Value) -> (r: Value)
        ensures
            (final(self)@, r) == old(self)@.op3(Opcode::Add64, a, b, carry_in),
    {
        self.op3(Opcode::Add64, a, b, carry_in)
    }

    /// Emits the difference of two words with an inverted borrow.
    pub fn sub_32(&mut self, a: Value, b: Value, carry_in: Value) -> (r: Value)
        ensures
            (final(self)@, r) == old(self)@.op3(Opcode::Sub32, a, b, carry_in),
    {
        self.op3(Opcode::Sub32, a, b, carry_in)
    }

    /// Emits the difference of two double words with an inverted borrow.
    pub fn sub_64(&mut self, a: Value, b: Value, carry_in: Value) -> (r: Value)
        ensures
            (final(self)@, r) == old(self)@.op3(Opcode::Sub64, a, b, carry_in),
    {
        self.op3(Opcode::Sub64, a, b, carry_in)
    }

    /// Emits the low word of a product.
    pub fn mul_32(&mut self, a: Value, b: Value) -> (r: Value)
        ensures
            (final(self)@, r) == old(self)@.op2(Opcode::Mul32, a, b),
    {
        self.op2(Opcode::Mul32, a, b)
    }

    /// Emits the low double word of a product.
    pub fn mul_64(&mut self, a: Value, b: Value) -> (r: Value)
        ensures
            (final(self)@, r) == old(self)@.op2(Opcode::Mul64, a, b),
    {
        self.op2(Opcode::Mul64, a, b)
    }

    /// Emits the left shift of a word.
    pub fn logical_shift_left_32(
        &mut self,
        value: Value,
        amount: Value,
        carry_in: Value,
    ) -> (r: Value)
        ensures
            (final(self)@, r) == old(self)@.op3(
                Opcode::LogicalShiftLeft32,
                value,
                amount,
                carry_in,
            ),
    {
        self.op3(Opcode::LogicalShiftLeft32, value, amount, carry_in)
    }

    /// Emits the left shift of a double word.
    pub fn logical_shift_left_64(&mut self, value: Value, amount: Value) -> (r: Value)
        ensures
            (final(self)@, r) == old(self)@.op2(Opcode::LogicalShiftLeft64, value, amount),
    {
        self.op2(Opcode::LogicalShiftLeft64, value, amount)
    }

    /// Emits the logical right shift of a word.
    pub fn logical_shift_right_32(
        &mut self,
        value: Value,
        amount: Value,
        carry_in: Value,
    ) -> (r: Value)
        ensures
            (final(self)@, r) == old(self)@.op3(
                Opcode::LogicalShiftRight32,
                value,
                amount,
                carry_in,
            ),
    {
        self.op3(Opcode::LogicalShiftRight32, value, amount, carry_in)
    }

    /// Emits the logical right shift of a double word.
    pub fn logical_shift_right_64(&mut self, value: Value, amount: Value) -> (r: Value)
        ensures
            (final(self)@, r) == old(self)@.op2(Opcode::LogicalShiftRight64, value, amount),
    {
        self.op2(Opcode::LogicalShiftRight64, value, amount)
    }

    /// Emits the arithmetic right shift of a word.
    pub fn arithmetic_shift_right_32(
        &mut self,
        value: Value,
        amount: Value,
        carry_in: Value,
    ) -> (r: Value)
        ensures
            (final(self)@, r) == old(self)@.op3(
                Opcode::ArithmeticShiftRight32,
                value,
                amount,
                carry_in,
            ),
    {
        self.op3(Opcode::ArithmeticShiftRight32, value, amount, carry_in)
    }

    /// Emits the right rotation of a word.
    pub fn rotate_right_32(&mut self, value: Value, amount: Value, carry_in: Value) -> (r: Value)
        ensures
            (final(self)@, r) == old(self)@.op3(Opcode::BitRotateRight32, value, amount, carry_in),
    {
        self.op3(Opcode::BitRotateRight32, value, amount, carry_in)
    }

    /// Emits the right rotation of a word through the carry by one place.
    pub fn rotate_right_extended(&mut self, value: Value, carry_in: Value) -> (r: Value)
        ensures
            (final(self)@, r) == old(self)@.op2(Opcode::RotateRightExtended, value, carry_in),
    {
        self.op2(Opcode::RotateRightExtended, value, carry_in)
    }

    /// Emits the carry out of an operation.
    pub fn get_carry_from_op(&mut self, op: Value) -> (r: Value)
        ensures
            (final(self)@, r) == old(self)@.op1(Opcode::GetCarryFromOp, op),
    {
        self.op1(Opcode::GetCarryFromOp, op)
    }

    /// Emits the overflow of an operation.
    pub fn get_overflow_from_op(&mut self, op: Value) -> (r: Value)
        ensures
            (final(self)@, r) == old(self)@.op1(Opcode::GetOverflowFromOp, op),
    {
        self.op1(Opcode::GetOverflowFromOp, op)
    }

    /// Emits the greater-or-equal flags of a packed operation.
    pub fn get_ge_from_op(&mut self, op: Value) -> (r: Value)
        ensures
            (final(self)@, r) == old(self)@.op1(Opcode::GetGEFromOp, op),
    {
        self.op1(Opcode::GetGEFromOp, op)
    }

    /// Emits the all four flags of an operation.
    pub fn get_nzcv_from_op(&mut self, op: Value) -> (r: Value)
        ensures
            (final(self)@, r) == old(self)@.op1(Opcode::GetNZCVFromOp, op),
    {
        self.op1(Opcode::GetNZCVFromOp, op)
    }

    /// Emits the sign and zero flags of an operation.
    pub fn get_nz_from_op(&mut self, op: Value) -> (r: Value)
        ensures
            (final(self)@, r) == old(self)@.op1(Opcode::GetNZFromOp, op),
    {
        self.op1(Opcode::GetNZFromOp, op)
    }

    /// Emits the low byte of a word.
    pub fn least_significant_byte(&mut self, value: Value) -> (r: Value)
        ensures
            (final(self)@, r) == old(self)@.op1(Opcode::LeastSignificantByte, value),
    {
        self.op1(Opcode::LeastSignificantByte, value)
    }

    /// Emits the low halfword of a word.
    pub fn least_significant_half(&mut self, value: Value) -> (r: Value)
        ensures
            (final(self)@, r) == old(self)@.op1(Opcode::LeastSignificantHalf, value),
    {
        self.op1(Opcode::LeastSignificantHalf, value)
    }

    /// Emits the low word of a double word.
    pub fn least_significant_word(&mut self, value: Value) -> (r: Value)
        ensures
            (final(self)@, r) == old(self)@.op1(Opcode::LeastSignificantWord, value),
    {
        self.op1(Opcode::LeastSignificantWord, value)
    }

    /// Emits the zero extension of a byte to a word.
    pub fn zero_extend_byte_to_word(&mut self, value: Value) -> (r: Value)
        ensures
            (final(self)@, r) == old(self)@.op1(Opcode::ZeroExtendByteToWord, value),
    {
        self.op1(Opcode::ZeroExtendByteToWord, value)
    }

    /// Emits the zero extension of a halfword to a word.
    pub fn zero_extend_half_to_word(&mut self, value: Value) -> (r: Value)
        ensures
            (final(self)@, r) == old(self)@.op1(Opcode::ZeroExtendHalfToWord, value),
    {
        self.op1(Opcode::ZeroExtendHalfToWord, value)
    }

    /// Emits the zero extension of a byte to a double word.
    pub fn zero_extend_byte_to_long(&mut self, value: Value) -> (r: Value)
        ensures
            (final(self)@, r) == old(self)@.op1(Opcode::ZeroExtendByteToLong, value),
    {
        self.op1(Opcode::ZeroExtendByteToLong, value)
    }

    /// Emits the zero extension of a halfword to a double word.
    pub fn zero_extend_half_to_long(&mut self, value: Value) -> (r: Value)
        ensures
            (final(self)@, r) == old(self)@.op1(Opcode::ZeroExtendHalfToLong, value),
    {
        self.op1(Opcode::ZeroExtendHalfToLong, value)
    }

    /// Emits the zero extension of a word to a double word.
    pub fn zero_extend_word_to_long(&mut self, value: Value) -> (r: Value)
        ensures
            (final(self)@, r) == old(self)@.op1(Opcode::ZeroExtendWordToLong, value),
    {
        self.op1(Opcode::ZeroExtendWordToLong, value)
    }

    /// Emits the zero extension of a double word to a quad word.
    pub fn zero_extend_to_quad(&mut self, value: Value) -> (r: Value)
        ensures
            (final(self)@, r) == old(self)@.op1(Opcode::ZeroExtendLongToQuad, value),
    {
        self.op1(Opcode::ZeroExtendLongToQuad, value)
    }

    /// Emits the sign extension of a byte to a word.
    pub fn sign_extend_byte_to_word(&mut self, value: Value) -> (r: Value)
        ensures
            (final(self)@, r) == old(self)@.op1(Opcode::SignExtendByteToWord, value),
    {
        self.op1(Opcode::SignExtendByteToWord, value)
    }

    /// Emits the sign extension of a halfword to a word.
    pub fn sign_extend_half_to_word(&mut self, value: Value) -> (r: Value)
        ensures
            (final(self)@, r) == old(self)@.op1(Opcode::SignExtendHalfToWord, value),
    {
        self.op1(Opcode::SignExtendHalfToWord, value)
    }

    /// Emits the sign extension of a word to a double word.
    pub fn sign_extend_word_to_long(&mut self, value: Value) -> (r: Value)
        ensures
            (final(self)@, r) == old(self)@.op1(Opcode::SignExtendWordToLong, value),
    {
        self.op1(Opcode::SignExtendWordToLong, value)
    }

    /// Emits the halfword with its bytes reversed.
    pub fn byte_reverse_half(&mut self, value: Value) -> (r: Value)
        ensures
            (final(self)@, r) == old(self)@.op1(Opcode::ByteReverseHalf, value),
    {
        self.op1(Opcode::ByteReverseHalf, value)
    }

    /// Emits the word with its bytes reversed.
    pub fn byte_reverse_word(&mut self, value: Value) -> (r: Value)
        ensures
            (final(self)@, r) == old(self)@.op1(Opcode::ByteReverseWord, value),
    {
        self.op1(Opcode::ByteReverseWord, value)
    }

    /// Emits the double word with its bytes reversed.
    pub fn byte_reverse_dual(&mut self, value: Value) -> (r: Value)
        ensures
            (final(self)@, r) == old(self)@.op1(Opcode::ByteReverseDual, value),
    {
        self.op1(Opcode::ByteReverseDual, value)
    }

    /// Emits the whether a word is zero.
    pub fn is_zero_32(&mut self, value: Value) -> (r: Value)
        ensures
            (final(self)@, r) == old(self)@.op1(Opcode::IsZero32, value),
    {
        self.op1(Opcode::IsZero32, value)
    }

    /// Emits the double word made of two words.
    pub fn pack_2x32_to_1x64(&mut self, lo: Value, hi: Value) -> (r: Value)
        ensures
            (final(self)@, r) == old(self)@.op2(Opcode::Pack2x32To1x64, lo, hi),
    {
        self.op2(Opcode::Pack2x32To1x64, lo, hi)
    }

    /// Emits the Castagnoli checksum step over a byte.
    pub fn crc32_castagnoli_8(&mut self, crc: Value, data: Value) -> (r: Value)
        ensures
            (final(self)@, r) == old(self)@.op2(Opcode::CRC32Castagnoli8, crc, data),
    {
        self.op2(Opcode::CRC32Castagnoli8, crc, data)
    }

    /// Emits the Castagnoli checksum step over a halfword.
    pub fn crc32_castagnoli_16(&mut self, crc: Value, data: Value) -> (r: Value)
        ensures
            (final(self)@, r) == old(self)@.op2(Opcode::CRC32Castagnoli16, crc, data),
    {
        self.op2(Opcode::CRC32Castagnoli16, crc, data)
    }

    /// Emits the Castagnoli checksum step over a word.
    pub fn crc32_castagnoli_32(&mut self, crc: Value, data: Value) -> (r: Value)
        ensures
            (final(self)@, r) == old(self)@.op2(Opcode::CRC32Castagnoli32, crc, data),
    {
        self.op2(Opcode::CRC32Castagnoli32, crc, data)
    }

    /// Emits the ISO checksum step over a byte.
    pub fn crc32_iso_8(&mut self, crc: Value, data: Value) -> (r: Value)
        ensures
            (final(self)@, r) == old(self)@.op2(Opcode::CRC32ISO8, crc, data),
    {
        self.op2(Opcode::CRC32ISO8, crc, data)
    }

    /// Emits the ISO checksum step over a halfword.
    pub fn crc32_iso_16(&mut self, crc: Value, data: Value) -> (r: Value)
        ensures
            (final(self)@, r) == old(self)@.op2(Opcode::CRC32ISO16, crc, data),
    {
        self.op2(Opcode::CRC32ISO16, crc, data)
    }

    /// Emits the ISO checksum step over a word.
    pub fn crc32_iso_32(&mut self, crc: Value, data: Value) -> (r: Value)
        ensures
            (final(self)@, r) == old(self)@.op2(Opcode::CRC32ISO32, crc, data),
    {
        self.op2(Opcode::CRC32ISO32, crc, data)
    }

    /// Emits the vector of zeroes.
    pub fn zero_vector(&mut self) -> (r: Value)
        ensures
            (final(self)@, r) == old(self)@.op0(Opcode::ZeroVector),
    {
        self.op0(Opcode::ZeroVector)
    }

    /// Emits the bitwise and of two vectors.
    pub fn vector_and(&mut self, a: Value, b: Value) -> (r: Value)
        ensures
            (final(self)@, r) == old(self)@.op2(Opcode::VectorAnd, a, b),
    {
        self.op2(Opcode::VectorAnd, a, b)
    }

    /// Emits the the first vector with the bits of the second cleared.
    pub fn vector_and_not(&mut self, a: Value, b: Value) -> (r: Value)
        ensures
            (final(self)@, r) == old(self)@.op2(Opcode::VectorAndNot, a, b),
    {
        self.op2(Opcode::VectorAndNot, a, b)
    }

    /// Emits the bitwise or of two vectors.
    pub fn vector_or(&mut self, a: Value, b: Value) -> (r: Value)
        ensures
            (final(self)@, r) == old(self)@.op2(Opcode::VectorOr, a, b),
    {
        self.op2(Opcode::VectorOr, a, b)
    }

    /// Emits the bitwise exclusive or of two vectors.
    pub fn vector_eor(&mut self, a: Value, b: Value) -> (r: Value)
        ensures
            (final(self)@, r) == old(self)@.op2(Opcode::VectorEor, a, b),
    {
        self.op2(Opcode::VectorEor, a, b)
    }

    /// Emits the bitwise complement of a vector.
    pub fn vector_not(&mut self, a: Value) -> (r: Value)
        ensures
            (final(self)@, r) == old(self)@.op1(Opcode::VectorNot, a),
    {
        self.op1(Opcode::VectorNot, a)
    }

    /// Emits the table lookup for each byte of a double word.
    pub fn vector_table_lookup_64(
        &mut self,
        defaults: Value,
        table: Value,
        indices: Value,
    ) -> (r: Value)
        ensures
            (final(self)@, r) == old(self)@.op3(
                Opcode::VectorTableLookup64,
                defaults,
                table,
                indices,
            ),
    {
        self.op3(Opcode::VectorTableLookup64, defaults, table, indices)
    }

    /// Emits the reciprocal estimate of unsigned lanes.
    pub fn vector_unsigned_recip_estimate(&mut self, a: Value) -> (r: Value)
        ensures
            (final(self)@, r) == old(self)@.op1(Opcode::VectorUnsignedRecipEstimate, a),
    {
        self.op1(Opcode::VectorUnsignedRecipEstimate, a)
    }

    /// Emits the reciprocal square root estimate of unsigned lanes.
    pub fn vector_unsigned_recip_sqrt_estimate(&mut self, a: Value) -> (r: Value)
        ensures
            (final(self)@, r) == old(self)@.op1(Opcode::VectorUnsignedRecipSqrtEstimate, a),
    {
        self.op1(Opcode::VectorUnsignedRecipSqrtEstimate, a)
    }

    /// Emits the absolute values of signed lanes.
    pub fn vector_abs(&mut self, esize: usize, a: Value) -> (r: Value)
        requires
            esize == 8 || esize == 16 || esize == 32 || esize == 64,
        ensures
            (final(self)@, r) == old(self)@.op1(opcode::vector_abs(esize), a),
    {
        self.op1(opcode::vector_abs(esize), a)
    }

    /// Emits the lane-wise sum.
    pub fn vector_add(&mut self, esize: usize, a: Value, b: Value) -> (r: Value)
        requires
            esize == 8 || esize == 16 || esize == 32 || esize == 64,
        ensures
            (final(self)@, r) == old(self)@.op2(opcode::vector_add(esize), a, b),
    {
        self.op2(opcode::vector_add(esize), a, b)
    }

    /// Emits the lane-wise difference.
    pub fn vector_sub(&mut self, esize: usize, a: Value, b: Value) -> (r: Value)
        requires
            esize == 8 || esize == 16 || esize == 32 || esize == 64,
        ensures
            (final(self)@, r) == old(self)@.op2(opcode::vector_sub(esize), a, b),
    {
        self.op2(opcode::vector_sub(esize), a, b)
    }

    /// Emits the lane-wise product.
    pub fn vector_multiply(&mut self, esize: usize, a: Value, b: Value) -> (r: Value)
        requires
            esize == 8 || esize == 16 || esize == 32 || esize == 64,
        ensures
            (final(self)@, r) == old(self)@.op2(opcode::vector_multiply(esize), a, b),
    {
        self.op2(opcode::vector_multiply(esize), a, b)
    }

    /// Emits the lane-wise signed product in lanes of twice the size.
    pub fn vector_multiply_signed_widen(&mut self, esize: usize, a: Value, b: Value) -> (r: Value)
        requires
            esize == 8 || esize == 16 || esize == 32,
        ensures
            (final(self)@, r) == old(self)@.op2(opcode::vector_multiply_signed_widen(esize), a, b),
    {
        self.op2(opcode::vector_multiply_signed_widen(esize), a, b)
    }

    /// Emits the lane-wise unsigned product in lanes of twice the size.
    pub fn vector_multiply_unsigned_widen(&mut self, esize: usize, a: Value, b: Value) -> (r: Value)
        requires
            esize == 8 || esize == 16 || esize == 32,
        ensures
            (final(self)@, r) == old(self)@.op2(
                opcode::vector_multiply_unsigned_widen(esize),
                a,
                b,
            ),
    {
        self.op2(opcode::vector_multiply_unsigned_widen(esize), a, b)
    }

    /// Emits the lane-wise polynomial product in lanes of twice the size.
    pub fn vector_polynomial_multiply_long(
        &mut self,
        esize: usize,
        a: Value,
        b: Value,
    ) -> (r: Value)
        requires
            esize == 8 || esize == 64,
        ensures
            (final(self)@, r) == old(self)@.op2(
                opcode::vector_polynomial_multiply_long(esize),
                a,
                b,
            ),
    {
        self.op2(opcode::vector_polynomial_multiply_long(esize), a, b)
    }

    /// Emits the sums of adjacent lanes.
    pub fn vector_paired_add(&mut self, esize: usize, a: Value, b: Value) -> (r: Value)
        requires
            esize == 8 || esize == 16 || esize == 32 || esize == 64,
        ensures
            (final(self)@, r) == old(self)@.op2(opcode::vector_paired_add(esize), a, b),
    {
        self.op2(opcode::vector_paired_add(esize), a, b)
    }

    /// Emits the arithmetic right shift of each lane.
    pub fn vector_arithmetic_shift_right(
        &mut self,
        esize: usize,
        a: Value,
        amount: u8,
    ) -> (r: Value)
        requires
            esize == 8 || esize == 16 || esize == 32 || esize == 64,
        ensures
            (final(self)@, r) == old(self)@.op2(
                opcode::vector_arithmetic_shift_right(esize),
                a,
                Value::ImmU8(amount),
            ),
    {
        self.op2(opcode::vector_arithmetic_shift_right(esize), a, Value::ImmU8(amount))
    }

    /// Emits the logical right shift of each lane.
    pub fn vector_logical_shift_right(&mut self, esize: usize, a: Value, amount: u8) -> (r: Value)
        requires
            esize == 8 || esize == 16 || esize == 32 || esize == 64,
        ensures
            (final(self)@, r) == old(self)@.op2(
                opcode::vector_logical_shift_right(esize),
                a,
                Value::ImmU8(amount),
            ),
    {
        self.op2(opcode::vector_logical_shift_right(esize), a, Value::ImmU8(amount))
    }

    /// Emits the left shift of each lane.
    pub fn vector_logical_shift_left(&mut self, esize: usize, a: Value, amount: u8) -> (r: Value)
        requires
            esize == 8 || esize == 16 || esize == 32 || esize == 64,
        ensures
            (final(self)@, r) == old(self)@.op2(
                opcode::vector_logical_shift_left(esize),
                a,
                Value::ImmU8(amount),
            ),
    {
        self.op2(opcode::vector_logical_shift_left(esize), a, Value::ImmU8(amount))
    }

    /// Emits the signed shift of each lane by a lane.
    pub fn vector_arithmetic_v_shift(&mut self, esize: usize, a: Value, b: Value) -> (r: Value)
        requires
            esize == 8 || esize == 16 || esize == 32 || esize == 64,
        ensures
            (final(self)@, r) == old(self)@.op2(opcode::vector_arithmetic_v_shift(esize), a, b),
    {
        self.op2(opcode::vector_arithmetic_v_shift(esize), a, b)
    }

    /// Emits the unsigned shift of each lane by a lane.
    pub fn vector_logical_v_shift(&mut self, esize: usize, a: Value, b: Value) -> (r: Value)
        requires
            esize == 8 || esize == 16 || esize == 32 || esize == 64,
        ensures
            (final(self)@, r) == old(self)@.op2(opcode::vector_logical_v_shift(esize), a, b),
    {
        self.op2(opcode::vector_logical_v_shift(esize), a, b)
    }

    /// Emits the rounding signed shift of each lane by a lane.
    pub fn vector_rounding_shift_left_signed(
        &mut self,
        esize: usize,
        a: Value,
        b: Value,
    ) -> (r: Value)
        requires
            esize == 8 || esize == 16 || esize == 32 || esize == 64,
        ensures
            (final(self)@, r) == old(self)@.op2(
                opcode::vector_rounding_shift_left_signed(esize),
                a,
                b,
            ),
    {
        self.op2(opcode::vector_rounding_shift_left_signed(esize), a, b)
    }

    /// Emits the rounding unsigned shift of each lane by a lane.
    pub fn vector_rounding_shift_left_unsigned(
        &mut self,
        esize: usize,
        a: Value,
        b: Value,
    ) -> (r: Value)
        requires
            esize == 8 || esize == 16 || esize == 32 || esize == 64,
        ensures
            (final(self)@, r) == old(self)@.op2(
                opcode::vector_rounding_shift_left_unsigned(esize),
                a,
                b,
            ),
    {
        self.op2(opcode::vector_rounding_shift_left_unsigned(esize), a, b)
    }

    /// Emits the copies of a scalar in every lane.
    pub fn vector_broadcast(&mut self, esize: usize, a: Value) -> (r: Value)
        requires
            esize == 8 || esize == 16 || esize == 32 || esize == 64,
        ensures
            (final(self)@, r) == old(self)@.op1(opcode::vector_broadcast(esize), a),
    {
        self.op1(opcode::vector_broadcast(esize), a)
    }

    /// Emits the copies of one lane in every lane.
    pub fn vector_broadcast_element(&mut self, esize: usize, a: Value, index: u8) -> (r: Value)
        requires
            esize == 8 || esize == 16 || esize == 32 || esize == 64,
        ensures
            (final(self)@, r) == old(self)@.op2(
                opcode::vector_broadcast_element(esize),
                a,
                Value::ImmU8(index),
            ),
    {
        self.op2(opcode::vector_broadcast_element(esize), a, Value::ImmU8(index))
    }

    /// Emits the one lane of a vector.
    pub fn vector_get_element(&mut self, esize: usize, a: Value, index: u8) -> (r: Value)
        requires
            esize == 8 || esize == 16 || esize == 32 || esize == 64,
        ensures
            (final(self)@, r) == old(self)@.op2(
                opcode::vector_get_element(esize),
                a,
                Value::ImmU8(index),
            ),
    {
        self.op2(opcode::vector_get_element(esize), a, Value::ImmU8(index))
    }

    /// Emits the a vector with one lane replaced.
    pub fn vector_set_element(
        &mut self,
        esize: usize,
        a: Value,
        index: u8,
        element: Value,
    ) -> (r: Value)
        requires
            esize == 8 || esize == 16 || esize == 32 || esize == 64,
        ensures
            (final(self)@, r) == old(self)@.op3(
                opcode::vector_set_element(esize),
                a,
                Value::ImmU8(index),
                element,
            ),
    {
        self.op3(opcode::vector_set_element(esize), a, Value::ImmU8(index), element)
    }

    /// Emits the even lanes of two vectors.
    pub fn vector_deinterleave_even(&mut self, esize: usize, a: Value, b: Value) -> (r: Value)
        requires
            esize == 8 || esize == 16 || esize == 32 || esize == 64,
        ensures
            (final(self)@, r) == old(self)@.op2(opcode::vector_deinterleave_even(esize), a, b),
    {
        self.op2(opcode::vector_deinterleave_even(esize), a, b)
    }

    /// Emits the odd lanes of two vectors.
    pub fn vector_deinterleave_odd(&mut self, esize: usize, a: Value, b: Value) -> (r: Value)
        requires
            esize == 8 || esize == 16 || esize == 32 || esize == 64,
        ensures
            (final(self)@, r) == old(self)@.op2(opcode::vector_deinterleave_odd(esize), a, b),
    {
        self.op2(opcode::vector_deinterleave_odd(esize), a, b)
    }

    /// Emits the even lanes of two lower halves.
    pub fn vector_deinterleave_even_lower(&mut self, esize: usize, a: Value, b: Value) -> (r: Value)
        requires
            esize == 8 || esize == 16 || esize == 32,
        ensures
            (final(self)@, r) == old(self)@.op2(
                opcode::vector_deinterleave_even_lower(esize),
                a,
                b,
            ),
    {
        self.op2(opcode::vector_deinterleave_even_lower(esize), a, b)
    }

    /// Emits the odd lanes of two lower halves.
    pub fn vector_deinterleave_odd_lower(&mut self, esize: usize, a: Value, b: Value) -> (r: Value)
        requires
            esize == 8 || esize == 16 || esize == 32,
        ensures
            (final(self)@, r) == old(self)@.op2(opcode::vector_deinterleave_odd_lower(esize), a, b),
    {
        self.op2(opcode::vector_deinterleave_odd_lower(esize), a, b)
    }

    /// Emits the interleaved lanes of two lower halves.
    pub fn vector_interleave_lower(&mut self, esize: usize, a: Value, b: Value) -> (r: Value)
        requires
            esize == 8 || esize == 16 || esize == 32 || esize == 64,
        ensures
            (final(self)@, r) == old(self)@.op2(opcode::vector_interleave_lower(esize), a, b),
    {
        self.op2(opcode::vector_interleave_lower(esize), a, b)
    }

    /// Emits the interleaved lanes of two upper halves.
    pub fn vector_interleave_upper(&mut self, esize: usize, a: Value, b: Value) -> (r: Value)
        requires
            esize == 8 || esize == 16 || esize == 32 || esize == 64,
        ensures
            (final(self)@, r) == old(self)@.op2(opcode::vector_interleave_upper(esize), a, b),
    {
        self.op2(opcode::vector_interleave_upper(esize), a, b)
    }

    /// Emits the transposed lane pairs of two vectors.
    pub fn vector_transpose(&mut self, esize: usize, a: Value, b: Value, part: bool) -> (r: Value)
        requires
            esize == 8 || esize == 16 || esize == 32 || esize == 64,
        ensures
            (final(self)@, r) == old(self)@.op3(
                opcode::vector_transpose(esize),
                a,
                b,
                Value::ImmU1(part),
            ),
    {
        self.op3(opcode::vector_transpose(esize), a, b, Value::ImmU1(part))
    }

    /// Emits the lane-wise equality.
    pub fn vector_equal(&mut self, esize: usize, a: Value, b: Value) -> (r: Value)
        requires
            esize == 8 || esize == 16 || esize == 32 || esize == 64,
        ensures
            (final(self)@, r) == old(self)@.op2(opcode::vector_equal(esize), a, b),
    {
        self.op2(opcode::vector_equal(esize), a, b)
    }

    /// Emits the lane-wise signed comparison.
    pub fn vector_greater_signed(&mut self, esize: usize, a: Value, b: Value) -> (r: Value)
        requires
            esize == 8 || esize == 16 || esize == 32 || esize == 64,
        ensures
            (final(self)@, r) == old(self)@.op2(opcode::vector_greater_signed(esize), a, b),
    {
        self.op2(opcode::vector_greater_signed(esize), a, b)
    }

    /// Emits the lane-wise signed maximum.
    pub fn vector_max_signed(&mut self, esize: usize, a: Value, b: Value) -> (r: Value)
        requires
            esize == 8 || esize == 16 || esize == 32 || esize == 64,
        ensures
            (final(self)@, r) == old(self)@.op2(opcode::vector_max_signed(esize), a, b),
    {
        self.op2(opcode::vector_max_signed(esize), a, b)
    }

    /// Emits the lane-wise unsigned maximum.
    pub fn vector_max_unsigned(&mut self, esize: usize, a: Value, b: Value) -> (r: Value)
        requires
            esize == 8 || esize == 16 || esize == 32 || esize == 64,
        ensures
            (final(self)@, r) == old(self)@.op2(opcode::vector_max_unsigned(esize), a, b),
    {
        self.op2(opcode::vector_max_unsigned(esize), a, b)
    }

    /// Emits the lane-wise signed minimum.
    pub fn vector_min_signed(&mut self, esize: usize, a: Value, b: Value) -> (r: Value)
        requires
            esize == 8 || esize == 16 || esize == 32 || esize == 64,
        ensures
            (final(self)@, r) == old(self)@.op2(opcode::vector_min_signed(esize), a, b),
    {
        self.op2(opcode::vector_min_signed(esize), a, b)
    }

    /// Emits the lane-wise unsigned minimum.
    pub fn vector_min_unsigned(&mut self, esize: usize, a: Value, b: Value) -> (r: Value)
        requires
            esize == 8 || esize == 16 || esize == 32 || esize == 64,
        ensures
            (final(self)@, r) == old(self)@.op2(opcode::vector_min_unsigned(esize), a, b),
    {
        self.op2(opcode::vector_min_unsigned(esize), a, b)
    }

    /// Emits the lane-wise signed half of a sum.
    pub fn vector_halving_add_signed(&mut self, esize: usize, a: Value, b: Value) -> (r: Value)
        requires
            esize == 8 || esize == 16 || esize == 32,
        ensures
            (final(self)@, r) == old(self)@.op2(opcode::vector_halving_add_signed(esize), a, b),
    {
        self.op2(opcode::vector_halving_add_signed(esize), a, b)
    }

    /// Emits the lane-wise unsigned half of a sum.
    pub fn vector_halving_add_unsigned(&mut self, esize: usize, a: Value, b: Value) -> (r: Value)
        requires
            esize == 8 || esize == 16 || esize == 32,
        ensures
            (final(self)@, r) == old(self)@.op2(opcode::vector_halving_add_unsigned(esize), a, b),
    {
        self.op2(opcode::vector_halving_add_unsigned(esize), a, b)
    }

    /// Emits the lane-wise signed half of a difference.
    pub fn vector_halving_sub_signed(&mut self, esize: usize, a: Value, b: Value) -> (r: Value)
        requires
            esize == 8 || esize == 16 || esize == 32,
        ensures
            (final(self)@, r) == old(self)@.op2(opcode::vector_halving_sub_signed(esize), a, b),
    {
        self.op2(opcode::vector_halving_sub_signed(esize), a, b)
    }

    /// Emits the lane-wise unsigned half of a difference.
    pub fn vector_halving_sub_unsigned(&mut self, esize: usize, a: Value, b: Value) -> (r: Value)
        requires
            esize == 8 || esize == 16 || esize == 32,
        ensures
            (final(self)@, r) == old(self)@.op2(opcode::vector_halving_sub_unsigned(esize), a, b),
    {
        self.op2(opcode::vector_halving_sub_unsigned(esize), a, b)
    }

    /// Emits the lane-wise signed rounded half of a sum.
    pub fn vector_rounding_halving_add_signed(
        &mut self,
        esize: usize,
        a: Value,
        b: Value,
    ) -> (r: Value)
        requires
            esize == 8 || esize == 16 || esize == 32,
        ensures
            (final(self)@, r) == old(self)@.op2(
                opcode::vector_rounding_halving_add_signed(esize),
                a,
                b,
            ),
    {
        self.op2(opcode::vector_rounding_halving_add_signed(esize), a, b)
    }

    /// Emits the lane-wise unsigned rounded half of a sum.
    pub fn vector_rounding_halving_add_unsigned(
        &mut self,
        esize: usize,
        a: Value,
        b: Value,
    ) -> (r: Value)
        requires
            esize == 8 || esize == 16 || esize == 32,
        ensures
            (final(self)@, r) == old(self)@.op2(
                opcode::vector_rounding_halving_add_unsigned(esize),
                a,
                b,
            ),
    {
        self.op2(opcode::vector_rounding_halving_add_unsigned(esize), a, b)
    }

    /// Emits the lower half of each lane.
    pub fn vector_narrow(&mut self, esize: usize, a: Value) -> (r: Value)
        requires
            esize == 16 || esize == 32 || esize == 64,
        ensures
            (final(self)@, r) == old(self)@.op1(opcode::vector_narrow(esize), a),
    {
        self.op1(opcode::vector_narrow(esize), a)
    }

    /// Emits the sign extension of each lane to twice its size.
    pub fn vector_sign_extend(&mut self, esize: usize, a: Value) -> (r: Value)
        requires
            esize == 8 || esize == 16 || esize == 32 || esize == 64,
        ensures
            (final(self)@, r) == old(self)@.op1(opcode::vector_sign_extend(esize), a),
    {
        self.op1(opcode::vector_sign_extend(esize), a)
    }

    /// Emits the zero extension of each lane to twice its size.
    pub fn vector_zero_extend(&mut self, esize: usize, a: Value) -> (r: Value)
        requires
            esize == 8 || esize == 16 || esize == 32 || esize == 64,
        ensures
            (final(self)@, r) == old(self)@.op1(opcode::vector_zero_extend(esize), a),
    {
        self.op1(opcode::vector_zero_extend(esize), a)
    }

    /// Emits the lane-wise signed absolute difference.
    pub fn vector_signed_absolute_difference(
        &mut self,
        esize: usize,
        a: Value,
        b: Value,
    ) -> (r: Value)
        requires
            esize == 8 || esize == 16 || esize == 32,
        ensures
            (final(self)@, r) == old(self)@.op2(
                opcode::vector_signed_absolute_difference(esize),
                a,
                b,
            ),
    {
        self.op2(opcode::vector_signed_absolute_difference(esize), a, b)
    }

    /// Emits the lane-wise unsigned absolute difference.
    pub fn vector_unsigned_absolute_difference(
        &mut self,
        esize: usize,
        a: Value,
        b: Value,
    ) -> (r: Value)
        requires
            esize == 8 || esize == 16 || esize == 32,
        ensures
            (final(self)@, r) == old(self)@.op2(
                opcode::vector_unsigned_absolute_difference(esize),
                a,
                b,
            ),
    {
        self.op2(opcode::vector_unsigned_absolute_difference(esize), a, b)
    }

    /// Emits the lane-wise signed saturating sum.
    pub fn vector_signed_saturated_add(&mut self, esize: usize, a: Value, b: Value) -> (r: Value)
        requires
            esize == 8 || esize == 16 || esize == 32 || esize == 64,
        ensures
            (final(self)@, r) == old(self)@.op2(opcode::vector_signed_saturated_add(esize), a, b),
    {
        self.op2(opcode::vector_signed_saturated_add(esize), a, b)
    }

    /// Emits the lane-wise unsigned saturating sum.
    pub fn vector_unsigned_saturated_add(&mut self, esize: usize, a: Value, b: Value) -> (r: Value)
        requires
            esize == 8 || esize == 16 || esize == 32 || esize == 64,
        ensures
            (final(self)@, r) == old(self)@.op2(opcode::vector_unsigned_saturated_add(esize), a, b),
    {
        self.op2(opcode::vector_unsigned_saturated_add(esize), a, b)
    }

    /// Emits the lane-wise signed saturating difference.
    pub fn vector_signed_saturated_sub(&mut self, esize: usize, a: Value, b: Value) -> (r: Value)
        requires
            esize == 8 || esize == 16 || esize == 32 || esize == 64,
        ensures
            (final(self)@, r) == old(self)@.op2(opcode::vector_signed_saturated_sub(esize), a, b),
    {
        self.op2(opcode::vector_signed_saturated_sub(esize), a, b)
    }

    /// Emits the lane-wise unsigned saturating difference.
    pub fn vector_unsigned_saturated_sub(&mut self, esize: usize, a: Value, b: Value) -> (r: Value)
        requires
            esize == 8 || esize == 16 || esize == 32 || esize == 64,
        ensures
            (final(self)@, r) == old(self)@.op2(opcode::vector_unsigned_saturated_sub(esize), a, b),
    {
        self.op2(opcode::vector_unsigned_saturated_sub(esize), a, b)
    }

    /// Emits the upper half of the doubled product of each lane, saturating.
    pub fn vector_signed_saturated_doubling_multiply_high(
        &mut self,
        esize: usize,
        a: Value,
        b: Value,
    ) -> (r: Value)
        requires
            esize == 16 || esize == 32,
        ensures
            (final(self)@, r) == old(self)@.op2(
                opcode::vector_signed_saturated_doubling_multiply_high(esize),
                a,
                b,
            ),
    {
        self.op2(opcode::vector_signed_saturated_doubling_multiply_high(esize), a, b)
    }

    /// Emits the rounded upper half of the doubled product of each lane, saturating.
    pub fn vector_signed_saturated_doubling_multiply_high_rounding(
        &mut self,
        esize: usize,
        a: Value,
        b: Value,
    ) -> (r: Value)
        requires
            esize == 16 || esize == 32,
        ensures
            (final(self)@, r) == old(self)@.op2(
                opcode::vector_signed_saturated_doubling_multiply_high_rounding(esize),
                a,
                b,
            ),
    {
        self.op2(opcode::vector_signed_saturated_doubling_multiply_high_rounding(esize), a, b)
    }

    /// Emits the signed saturating narrowing of each lane.
    pub fn vector_signed_saturated_narrow_to_signed(&mut self, esize: usize, a: Value) -> (r: Value)
        requires
            esize == 16 || esize == 32 || esize == 64,
        ensures
            (final(self)@, r) == old(self)@.op1(
                opcode::vector_signed_saturated_narrow_to_signed(esize),
                a,
            ),
    {
        self.op1(opcode::vector_signed_saturated_narrow_to_signed(esize), a)
    }

    /// Emits the unsigned saturating narrowing of each lane.
    pub fn vector_unsigned_saturated_narrow(&mut self, esize: usize, a: Value) -> (r: Value)
        requires
            esize == 16 || esize == 32 || esize == 64,
        ensures
            (final(self)@, r) == old(self)@.op1(opcode::vector_unsigned_saturated_narrow(esize), a),
    {
        self.op1(opcode::vector_unsigned_saturated_narrow(esize), a)
    }

    /// Emits the signed saturating shift of each lane by a lane.
    pub fn vector_signed_saturated_shift_left(
        &mut self,
        esize: usize,
        a: Value,
        b: Value,
    ) -> (r: Value)
        requires
            esize == 8 || esize == 16 || esize == 32 || esize == 64,
        ensures
            (final(self)@, r) == old(self)@.op2(
                opcode::vector_signed_saturated_shift_left(esize),
                a,
                b,
            ),
    {
        self.op2(opcode::vector_signed_saturated_shift_left(esize), a, b)
    }

    /// Emits the unsigned saturating shift of each lane by a lane.
    pub fn vector_unsigned_saturated_shift_left(
        &mut self,
        esize: usize,
        a: Value,
        b: Value,
    ) -> (r: Value)
        requires
            esize == 8 || esize == 16 || esize == 32 || esize == 64,
        ensures
            (final(self)@, r) == old(self)@.op2(
                opcode::vector_unsigned_saturated_shift_left(esize),
                a,
                b,
            ),
    {
        self.op2(opcode::vector_unsigned_saturated_shift_left(esize), a, b)
    }

    /// Emits the saturating shift of signed lanes with unsigned results.
    pub fn vector_signed_saturated_shift_left_unsigned(
        &mut self,
        esize: usize,
        a: Value,
        amount: u8,
    ) -> (r: Value)
        requires
            esize == 8 || esize == 16 || esize == 32 || esize == 64,
        ensures
            (final(self)@, r) == old(self)@.op2(
                opcode::vector_signed_saturated_shift_left_unsigned(esize),
                a,
                Value::ImmU8(amount),
            ),
    {
        self.op2(
            opcode::vector_signed_saturated_shift_left_unsigned(esize),
            a,
            Value::ImmU8(amount),
        )
    }

    /// Emits the absolute values of floating-point lanes.
    pub fn fp_vector_abs(&mut self, esize: usize, a: Value) -> (r: Value)
        requires
            esize == 16 || esize == 32 || esize == 64,
        ensures
            (final(self)@, r) == old(self)@.op1(opcode::fp_vector_abs(esize), a),
    {
        self.op1(opcode::fp_vector_abs(esize), a)
    }

    /// Emits the negated floating-point lanes.
    pub fn fp_vector_neg(&mut self, esize: usize, a: Value) -> (r: Value)
        requires
            esize == 16 || esize == 32 || esize == 64,
        ensures
            (final(self)@, r) == old(self)@.op1(opcode::fp_vector_neg(esize), a),
    {
        self.op1(opcode::fp_vector_neg(esize), a)
    }

    /// Emits the lane-wise floating-point sum.
    pub fn fp_vector_add(
        &mut self,
        esize: usize,
        a: Value,
        b: Value,
        fpcr_controlled: bool,
    ) -> (r: Value)
        requires
            esize == 32 || esize == 64,
        ensures
            (final(self)@, r) == old(self)@.op3(
                opcode::fp_vector_add(esize),
                a,
                b,
                Value::ImmU1(fpcr_controlled),
            ),
    {
        self.op3(opcode::fp_vector_add(esize), a, b, Value::ImmU1(fpcr_controlled))
    }

    /// Emits the lane-wise floating-point difference.
    pub fn fp_vector_sub(
        &mut self,
        esize: usize,
        a: Value,
        b: Value,
        fpcr_controlled: bool,
    ) -> (r: Value)
        requires
            esize == 32 || esize == 64,
        ensures
            (final(self)@, r) == old(self)@.op3(
                opcode::fp_vector_sub(esize),
                a,
                b,
                Value::ImmU1(fpcr_controlled),
            ),
    {
        self.op3(opcode::fp_vector_sub(esize), a, b, Value::ImmU1(fpcr_controlled))
    }

    /// Emits the lane-wise floating-point product.
    pub fn fp_vector_mul(
        &mut self,
        esize: usize,
        a: Value,
        b: Value,
        fpcr_controlled: bool,
    ) -> (r: Value)
        requires
            esize == 32 || esize == 64,
        ensures
            (final(self)@, r) == old(self)@.op3(
                opcode::fp_vector_mul(esize),
                a,
                b,
                Value::ImmU1(fpcr_controlled),
            ),
    {
        self.op3(opcode::fp_vector_mul(esize), a, b, Value::ImmU1(fpcr_controlled))
    }

    /// Emits the lane-wise fused product and sum.
    pub fn fp_vector_mul_add(
        &mut self,
        esize: usize,
        addend: Value,
        a: Value,
        b: Value,
        fpcr_controlled: bool,
    ) -> (r: Value)
        requires
            esize == 16 || esize == 32 || esize == 64,
        ensures
            (final(self)@, r) == old(self)@.op4(
                opcode::fp_vector_mul_add(esize),
                addend,
                a,
                b,
                Value::ImmU1(fpcr_controlled),
            ),
    {
        self.op4(opcode::fp_vector_mul_add(esize), addend, a, b, Value::ImmU1(fpcr_controlled))
    }

    /// Emits the lane-wise floating-point maximum.
    pub fn fp_vector_max(
        &mut self,
        esize: usize,
        a: Value,
        b: Value,
        fpcr_controlled: bool,
    ) -> (r: Value)
        requires
            esize == 32 || esize == 64,
        ensures
            (final(self)@, r) == old(self)@.op3(
                opcode::fp_vector_max(esize),
                a,
                b,
                Value::ImmU1(fpcr_controlled),
            ),
    {
        self.op3(opcode::fp_vector_max(esize), a, b, Value::ImmU1(fpcr_controlled))
    }

    /// Emits the lane-wise floating-point minimum.
    pub fn fp_vector_min(
        &mut self,
        esize: usize,
        a: Value,
        b: Value,
        fpcr_controlled: bool,
    ) -> (r: Value)
        requires
            esize == 32 || esize == 64,
        ensures
            (final(self)@, r) == old(self)@.op3(
                opcode::fp_vector_min(esize),
                a,
                b,
                Value::ImmU1(fpcr_controlled),
            ),
    {
        self.op3(opcode::fp_vector_min(esize), a, b, Value::ImmU1(fpcr_controlled))
    }

    /// Emits the lane-wise floating-point equality.
    pub fn fp_vector_equal(
        &mut self,
        esize: usize,
        a: Value,
        b: Value,
        fpcr_controlled: bool,
    ) -> (r: Value)
        requires
            esize == 16 || esize == 32 || esize == 64,
        ensures
            (final(self)@, r) == old(self)@.op3(
                opcode::fp_vector_equal(esize),
                a,
                b,
                Value::ImmU1(fpcr_controlled),
            ),
    {
        self.op3(opcode::fp_vector_equal(esize), a, b, Value::ImmU1(fpcr_controlled))
    }

    /// Emits the lane-wise floating-point comparison.
    pub fn fp_vector_greater(
        &mut self,
        esize: usize,
        a: Value,
        b: Value,
        fpcr_controlled: bool,
    ) -> (r: Value)
        requires
            esize == 32 || esize == 64,
        ensures
            (final(self)@, r) == old(self)@.op3(
                opcode::fp_vector_greater(esize),
                a,
                b,
                Value::ImmU1(fpcr_controlled),
            ),
    {
        self.op3(opcode::fp_vector_greater(esize), a, b, Value::ImmU1(fpcr_controlled))
    }

    /// Emits the lane-wise floating-point comparison or equality.
    pub fn fp_vector_greater_equal(
        &mut self,
        esize: usize,
        a: Value,
        b: Value,
        fpcr_controlled: bool,
    ) -> (r: Value)
        requires
            esize == 32 || esize == 64,
        ensures
            (final(self)@, r) == old(self)@.op3(
                opcode::fp_vector_greater_equal(esize),
                a,
                b,
                Value::ImmU1(fpcr_controlled),
            ),
    {
        self.op3(opcode::fp_vector_greater_equal(esize), a, b, Value::ImmU1(fpcr_controlled))
    }

    /// Emits the floating-point sums of adjacent lanes of two lower halves.
    pub fn fp_vector_paired_add_lower(
        &mut self,
        esize: usize,
        a: Value,
        b: Value,
        fpcr_controlled: bool,
    ) -> (r: Value)
        requires
            esize == 32 || esize == 64,
        ensures
            (final(self)@, r) == old(self)@.op3(
                opcode::fp_vector_paired_add_lower(esize),
                a,
                b,
                Value::ImmU1(fpcr_controlled),
            ),
    {
        self.op3(opcode::fp_vector_paired_add_lower(esize), a, b, Value::ImmU1(fpcr_controlled))
    }

    /// Emits the reciprocal estimate of floating-point lanes.
    pub fn fp_vector_recip_estimate(
        &mut self,
        esize: usize,
        a: Value,
        fpcr_controlled: bool,
    ) -> (r: Value)
        requires
            esize == 16 || esize == 32 || esize == 64,
        ensures
            (final(self)@, r) == old(self)@.op2(
                opcode::fp_vector_recip_estimate(esize),
                a,
                Value::ImmU1(fpcr_controlled),
            ),
    {
        self.op2(opcode::fp_vector_recip_estimate(esize), a, Value::ImmU1(fpcr_controlled))
    }

    /// Emits the reciprocal step of floating-point lanes.
    pub fn fp_vector_recip_step_fused(
        &mut self,
        esize: usize,
        a: Value,
        b: Value,
        fpcr_controlled: bool,
    ) -> (r: Value)
        requires
            esize == 16 || esize == 32 || esize == 64,
        ensures
            (final(self)@, r) == old(self)@.op3(
                opcode::fp_vector_recip_step_fused(esize),
                a,
                b,
                Value::ImmU1(fpcr_controlled),
            ),
    {
        self.op3(opcode::fp_vector_recip_step_fused(esize), a, b, Value::ImmU1(fpcr_controlled))
    }

    /// Emits the reciprocal square root estimate of floating-point lanes.
    pub fn fp_vector_rsqrt_estimate(
        &mut self,
        esize: usize,
        a: Value,
        fpcr_controlled: bool,
    ) -> (r: Value)
        requires
            esize == 16 || esize == 32 || esize == 64,
        ensures
            (final(self)@, r) == old(self)@.op2(
                opcode::fp_vector_rsqrt_estimate(esize),
                a,
                Value::ImmU1(fpcr_controlled),
            ),
    {
        self.op2(opcode::fp_vector_rsqrt_estimate(esize), a, Value::ImmU1(fpcr_controlled))
    }

    /// Emits the reciprocal square root step of floating-point lanes.
    pub fn fp_vector_rsqrt_step_fused(
        &mut self,
        esize: usize,
        a: Value,
        b: Value,
        fpcr_controlled: bool,
    ) -> (r: Value)
        requires
            esize == 16 || esize == 32 || esize == 64,
        ensures
            (final(self)@, r) == old(self)@.op3(
                opcode::fp_vector_rsqrt_step_fused(esize),
                a,
                b,
                Value::ImmU1(fpcr_controlled),
            ),
    {
        self.op3(opcode::fp_vector_rsqrt_step_fused(esize), a, b, Value::ImmU1(fpcr_controlled))
    }

    /// Emits the floating-point lanes from signed fixed-point lanes.
    pub fn fp_vector_from_signed_fixed(
        &mut self,
        esize: usize,
        a: Value,
        fbits: u8,
        rounding: u8,
        fpcr_controlled: bool,
    ) -> (r: Value)
        requires
            esize == 32 || esize == 64,
        ensures
            (final(self)@, r) == old(self)@.op4(
                opcode::fp_vector_from_signed_fixed(esize),
                a,
                Value::ImmU8(fbits),
                Value::ImmU8(rounding),
                Value::ImmU1(fpcr_controlled),
            ),
    {
        self.op4(
            opcode::fp_vector_from_signed_fixed(esize),
            a,
            Value::ImmU8(fbits),
            Value::ImmU8(rounding),
            Value::ImmU1(fpcr_controlled),
        )
    }

    /// Emits the floating-point lanes from unsigned fixed-point lanes.
    pub fn fp_vector_from_unsigned_fixed(
        &mut self,
        esize: usize,
        a: Value,
        fbits: u8,
        rounding: u8,
        fpcr_controlled: bool,
    ) -> (r: Value)
        requires
            esize == 32 || esize == 64,
        ensures
            (final(self)@, r) == old(self)@.op4(
                opcode::fp_vector_from_unsigned_fixed(esize),
                a,
                Value::ImmU8(fbits),
                Value::ImmU8(rounding),
                Value::ImmU1(fpcr_controlled),
            ),
    {
        self.op4(
            opcode::fp_vector_from_unsigned_fixed(esize),
            a,
            Value::ImmU8(fbits),
            Value::ImmU8(rounding),
            Value::ImmU1(fpcr_controlled),
        )
    }

    /// Emits the signed fixed-point lanes from floating-point lanes.
    pub fn fp_vector_to_signed_fixed(
        &mut self,
        esize: usize,
        a: Value,
        fbits: u8,
        rounding: u8,
        fpcr_controlled: bool,
    ) -> (r: Value)
        requires
            esize == 16 || esize == 32 || esize == 64,
        ensures
            (final(self)@, r) == old(self)@.op4(
                opcode::fp_vector_to_signed_fixed(esize),
                a,
                Value::ImmU8(fbits),
                Value::ImmU8(rounding),
                Value::ImmU1(fpcr_controlled),
            ),
    {
        self.op4(
            opcode::fp_vector_to_signed_fixed(esize),
            a,
            Value::ImmU8(fbits),
            Value::ImmU8(rounding),
            Value::ImmU1(fpcr_controlled),
        )
    }

    /// Emits the unsigned fixed-point lanes from floating-point lanes.
    pub fn fp_vector_to_unsigned_fixed(
        &mut self,
        esize: usize,
        a: Value,
        fbits: u8,
        rounding: u8,
        fpcr_controlled: bool,
    ) -> (r: Value)
        requires
            esize == 16 || esize == 32 || esize == 64,
        ensures
            (final(self)@, r) == old(self)@.op4(
                opcode::fp_vector_to_unsigned_fixed(esize),
                a,
                Value::ImmU8(fbits),
                Value::ImmU8(rounding),
                Value::ImmU1(fpcr_controlled),
            ),
    {
        self.op4(
            opcode::fp_vector_to_unsigned_fixed(esize),
            a,
            Value::ImmU8(fbits),
            Value::ImmU8(rounding),
            Value::ImmU1(fpcr_controlled),
        )
    }

}

} // verus!
