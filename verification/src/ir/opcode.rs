//! Operations of the intermediate representation.

use vstd::prelude::*;

verus! {

/// An operation of the intermediate representation. The number at the end of
/// a vector operation is the size of its lanes in bits.
#[derive(Clone, Copy, Debug, PartialEq, Eq, Structural)]
pub enum Opcode {
    A32SetCheckBit,
    A32GetRegister,
    A32GetExtendedRegister64,
    A32GetVector,
    A32SetRegister,
    A32SetExtendedRegister64,
    A32SetVector,
    A32GetCpsr,
    A32SetCpsr,
    A32SetCpsrNZCVRaw,
    A32SetCpsrNZCV,
    A32SetCpsrNZCVQ,
    A32SetCpsrNZ,
    A32SetCpsrNZC,
    A32GetCFlag,
    A32OrQFlag,
    A32SetGEFlagsCompressed,
    A32BXWritePC,
    A32UpdateUpperLocationDescriptor,
    A32CallSupervisor,
    A32ExceptionRaised,
    A32DataSynchronizationBarrier,
    A32DataMemoryBarrier,
    A32InstructionSynchronizationBarrier,
    PushRSB,
    A32ClearExclusive,
    A32ReadMemory8,
    A32ReadMemory16,
    A32ReadMemory32,
    A32ReadMemory64,
    A32ExclusiveReadMemory8,
    A32ExclusiveReadMemory16,
    A32ExclusiveReadMemory32,
    A32ExclusiveReadMemory64,
    A32WriteMemory8,
    A32WriteMemory16,
    A32WriteMemory32,
    A32WriteMemory64,
    A32ExclusiveWriteMemory8,
    A32ExclusiveWriteMemory16,
    A32ExclusiveWriteMemory32,
    A32ExclusiveWriteMemory64,
    A32CoprocInternalOperation,
    A32CoprocSendOneWord,
    A32CoprocSendTwoWords,
    A32CoprocGetOneWord,
    A32CoprocGetTwoWords,
    A32CoprocLoadWords,
    A32CoprocStoreWords,
    And32,
    And64,
    AndNot32,
    Or32,
    Or64,
    Eor32,
    Not32,
    Add32,
    Add64,
    Sub32,
    Sub64,
    Mul32,
    Mul64,
    LogicalShiftLeft32,
    LogicalShiftLeft64,
    LogicalShiftRight32,
    LogicalShiftRight64,
    ArithmeticShiftRight32,
    BitRotateRight32,
    RotateRightExtended,
    GetCarryFromOp,
    GetOverflowFromOp,
    GetGEFromOp,
    GetNZCVFromOp,
    GetNZFromOp,
    LeastSignificantByte,
    LeastSignificantHalf,
    LeastSignificantWord,
    ZeroExtendByteToWord,
    ZeroExtendHalfToWord,
    ZeroExtendByteToLong,
    ZeroExtendHalfToLong,
    ZeroExtendWordToLong,
    ZeroExtendLongToQuad,
    SignExtendByteToWord,
    SignExtendHalfToWord,
    SignExtendWordToLong,
    ByteReverseHalf,
    ByteReverseWord,
    ByteReverseDual,
    IsZero32,
    Pack2x32To1x64,
    CRC32Castagnoli8,
    CRC32Castagnoli16,
    CRC32Castagnoli32,
    CRC32ISO8,
    CRC32ISO16,
    CRC32ISO32,
    ZeroVector,
    VectorAnd,
    VectorAndNot,
    VectorOr,
    VectorEor,
    VectorNot,
    VectorTableLookup64,
    VectorUnsignedRecipEstimate,
    VectorUnsignedRecipSqrtEstimate,
    MostSignificantWord,
    SignedSaturation,
    UnsignedSaturation,
    PackedAddU16,
    VectorTable,
    VectorExtract,
    VectorExtractLower,
    VectorAbs8,
    VectorAbs16,
    VectorAbs32,
    VectorAbs64,
    VectorAdd8,
    VectorAdd16,
    VectorAdd32,
    VectorAdd64,
    VectorSub8,
    VectorSub16,
    VectorSub32,
    VectorSub64,
    VectorMultiply8,
    VectorMultiply16,
    VectorMultiply32,
    VectorMultiply64,
    VectorMultiplySignedWiden8,
    VectorMultiplySignedWiden16,
    VectorMultiplySignedWiden32,
    VectorMultiplyUnsignedWiden8,
    VectorMultiplyUnsignedWiden16,
    VectorMultiplyUnsignedWiden32,
    VectorPolynomialMultiplyLong8,
    VectorPolynomialMultiplyLong64,
    VectorPairedAdd8,
    VectorPairedAdd16,
    VectorPairedAdd32,
    VectorPairedAdd64,
    VectorArithmeticShiftRight8,
    VectorArithmeticShiftRight16,
    VectorArithmeticShiftRight32,
    VectorArithmeticShiftRight64,
    VectorLogicalShiftRight8,
    VectorLogicalShiftRight16,
    VectorLogicalShiftRight32,
    VectorLogicalShiftRight64,
    VectorLogicalShiftLeft8,
    VectorLogicalShiftLeft16,
    VectorLogicalShiftLeft32,
    VectorLogicalShiftLeft64,
    VectorArithmeticVShift8,
    VectorArithmeticVShift16,
    VectorArithmeticVShift32,
    VectorArithmeticVShift64,
    VectorLogicalVShift8,
    VectorLogicalVShift16,
    VectorLogicalVShift32,
    VectorLogicalVShift64,
    VectorRoundingShiftLeftS8,
    VectorRoundingShiftLeftS16,
    VectorRoundingShiftLeftS32,
    VectorRoundingShiftLeftS64,
    VectorRoundingShiftLeftU8,
    VectorRoundingShiftLeftU16,
    VectorRoundingShiftLeftU32,
    VectorRoundingShiftLeftU64,
    VectorBroadcast8,
    VectorBroadcast16,
    VectorBroadcast32,
    VectorBroadcast64,
    VectorBroadcastElement8,
    VectorBroadcastElement16,
    VectorBroadcastElement32,
    VectorBroadcastElement64,
    VectorGetElement8,
    VectorGetElement16,
    VectorGetElement32,
    VectorGetElement64,
    VectorSetElement8,
    VectorSetElement16,
    VectorSetElement32,
    VectorSetElement64,
    VectorDeinterleaveEven8,
    VectorDeinterleaveEven16,
    VectorDeinterleaveEven32,
    VectorDeinterleaveEven64,
    VectorDeinterleaveOdd8,
    VectorDeinterleaveOdd16,
    VectorDeinterleaveOdd32,
    VectorDeinterleaveOdd64,
    VectorDeinterleaveEvenLower8,
    VectorDeinterleaveEvenLower16,
    VectorDeinterleaveEvenLower32,
    VectorDeinterleaveOddLower8,
    VectorDeinterleaveOddLower16,
    VectorDeinterleaveOddLower32,
    VectorInterleaveLower8,
    VectorInterleaveLower16,
    VectorInterleaveLower32,
    VectorInterleaveLower64,
    VectorInterleaveUpper8,
    VectorInterleaveUpper16,
    VectorInterleaveUpper32,
    VectorInterleaveUpper64,
    VectorTranspose8,
    VectorTranspose16,
    VectorTranspose32,
    VectorTranspose64,
    VectorEqual8,
    VectorEqual16,
    VectorEqual32,
    VectorEqual64,
    VectorGreaterS8,
    VectorGreaterS16,
    VectorGreaterS32,
    VectorGreaterS64,
    VectorMaxS8,
    VectorMaxS16,
    VectorMaxS32,
    VectorMaxS64,
    VectorMaxU8,
    VectorMaxU16,
    VectorMaxU32,
    VectorMaxU64,
    VectorMinS8,
    VectorMinS16,
    VectorMinS32,
    VectorMinS64,
    VectorMinU8,
    VectorMinU16,
    VectorMinU32,
    VectorMinU64,
    VectorHalvingAddS8,
    VectorHalvingAddS16,
    VectorHalvingAddS32,
    VectorHalvingAddU8,
    VectorHalvingAddU16,
    VectorHalvingAddU32,
    VectorHalvingSubS8,
    VectorHalvingSubS16,
    VectorHalvingSubS32,
    VectorHalvingSubU8,
    VectorHalvingSubU16,
    VectorHalvingSubU32,
    VectorRoundingHalvingAddS8,
    VectorRoundingHalvingAddS16,
    VectorRoundingHalvingAddS32,
    VectorRoundingHalvingAddU8,
    VectorRoundingHalvingAddU16,
    VectorRoundingHalvingAddU32,
    VectorNarrow16,
    VectorNarrow32,
    VectorNarrow64,
    VectorSignExtend8,
    VectorSignExtend16,
    VectorSignExtend32,
    VectorSignExtend64,
    VectorZeroExtend8,
    VectorZeroExtend16,
    VectorZeroExtend32,
    VectorZeroExtend64,
    VectorSignedAbsoluteDifference8,
    VectorSignedAbsoluteDifference16,
    VectorSignedAbsoluteDifference32,
    VectorUnsignedAbsoluteDifference8,
    VectorUnsignedAbsoluteDifference16,
    VectorUnsignedAbsoluteDifference32,
    VectorSignedSaturatedAdd8,
    VectorSignedSaturatedAdd16,
    VectorSignedSaturatedAdd32,
    VectorSignedSaturatedAdd64,
    VectorUnsignedSaturatedAdd8,
    VectorUnsignedSaturatedAdd16,
    VectorUnsignedSaturatedAdd32,
    VectorUnsignedSaturatedAdd64,
    VectorSignedSaturatedSub8,
    VectorSignedSaturatedSub16,
    VectorSignedSaturatedSub32,
    VectorSignedSaturatedSub64,
    VectorUnsignedSaturatedSub8,
    VectorUnsignedSaturatedSub16,
    VectorUnsignedSaturatedSub32,
    VectorUnsignedSaturatedSub64,
    VectorSignedSaturatedDoublingMultiplyHigh16,
    VectorSignedSaturatedDoublingMultiplyHigh32,
    VectorSignedSaturatedDoublingMultiplyHighRounding16,
    VectorSignedSaturatedDoublingMultiplyHighRounding32,
    VectorSignedSaturatedNarrowToSigned16,
    VectorSignedSaturatedNarrowToSigned32,
    VectorSignedSaturatedNarrowToSigned64,
    VectorUnsignedSaturatedNarrow16,
    VectorUnsignedSaturatedNarrow32,
    VectorUnsignedSaturatedNarrow64,
    VectorSignedSaturatedShiftLeft8,
    VectorSignedSaturatedShiftLeft16,
    VectorSignedSaturatedShiftLeft32,
    VectorSignedSaturatedShiftLeft64,
    VectorUnsignedSaturatedShiftLeft8,
    VectorUnsignedSaturatedShiftLeft16,
    VectorUnsignedSaturatedShiftLeft32,
    VectorUnsignedSaturatedShiftLeft64,
    VectorSignedSaturatedShiftLeftUnsigned8,
    VectorSignedSaturatedShiftLeftUnsigned16,
    VectorSignedSaturatedShiftLeftUnsigned32,
    VectorSignedSaturatedShiftLeftUnsigned64,
    FPVectorAbs16,
    FPVectorAbs32,
    FPVectorAbs64,
    FPVectorNeg16,
    FPVectorNeg32,
    FPVectorNeg64,
    FPVectorAdd32,
    FPVectorAdd64,
    FPVectorSub32,
    FPVectorSub64,
    FPVectorMul32,
    FPVectorMul64,
    FPVectorMulAdd16,
    FPVectorMulAdd32,
    FPVectorMulAdd64,
    FPVectorMax32,
    FPVectorMax64,
    FPVectorMin32,
    FPVectorMin64,
    FPVectorEqual16,
    FPVectorEqual32,
    FPVectorEqual64,
    FPVectorGreater32,
    FPVectorGreater64,
    FPVectorGreaterEqual32,
    FPVectorGreaterEqual64,
    FPVectorPairedAddLower32,
    FPVectorPairedAddLower64,
    FPVectorRecipEstimate16,
    FPVectorRecipEstimate32,
    FPVectorRecipEstimate64,
    FPVectorRecipStepFused16,
    FPVectorRecipStepFused32,
    FPVectorRecipStepFused64,
    FPVectorRSqrtEstimate16,
    FPVectorRSqrtEstimate32,
    FPVectorRSqrtEstimate64,
    FPVectorRSqrtStepFused16,
    FPVectorRSqrtStepFused32,
    FPVectorRSqrtStepFused64,
    FPVectorFromSignedFixed32,
    FPVectorFromSignedFixed64,
    FPVectorFromUnsignedFixed32,
    FPVectorFromUnsignedFixed64,
    FPVectorToSignedFixed16,
    FPVectorToSignedFixed32,
    FPVectorToSignedFixed64,
    FPVectorToUnsignedFixed16,
    FPVectorToUnsignedFixed32,
    FPVectorToUnsignedFixed64,
}

impl Opcode {
    /// Whether the operation changes the program status register.
    #[verifier::allow_in_spec]
    pub fn writes_to_cpsr(self) -> bool
        returns
            self == Opcode::A32SetCpsr || self == Opcode::A32SetCpsrNZCVRaw || self
                == Opcode::A32SetCpsrNZCV || self == Opcode::A32SetCpsrNZCVQ || self
                == Opcode::A32SetCpsrNZ || self == Opcode::A32SetCpsrNZC || self
                == Opcode::A32OrQFlag || self == Opcode::A32SetGEFlagsCompressed,
    {
        matches!(
            self,
            Opcode::A32SetCpsr
                | Opcode::A32SetCpsrNZCVRaw
                | Opcode::A32SetCpsrNZCV
                | Opcode::A32SetCpsrNZCVQ
                | Opcode::A32SetCpsrNZ
                | Opcode::A32SetCpsrNZC
                | Opcode::A32OrQFlag
                | Opcode::A32SetGEFlagsCompressed
        )
    }
}


/// The operation for the absolute values of signed lanes with lanes of `esize` bits.
#[verifier::allow_in_spec]
pub fn vector_abs(esize: usize) -> Opcode
    requires
        esize == 8 || esize == 16 || esize == 32 || esize == 64,
    returns
        (if esize == 8 {
            Opcode::VectorAbs8
        } else if esize == 16 {
            Opcode::VectorAbs16
        } else if esize == 32 {
            Opcode::VectorAbs32
        } else {
            Opcode::VectorAbs64
        }),
{
    match esize {
        8 => Opcode::VectorAbs8,
        16 => Opcode::VectorAbs16,
        32 => Opcode::VectorAbs32,
        _ => Opcode::VectorAbs64,
    }
}

/// The operation for the lane-wise sum with lanes of `esize` bits.
#[verifier::allow_in_spec]
pub fn vector_add(esize: usize) -> Opcode
    requires
        esize == 8 || esize == 16 || esize == 32 || esize == 64,
    returns
        (if esize == 8 {
            Opcode::VectorAdd8
        } else if esize == 16 {
            Opcode::VectorAdd16
        } else if esize == 32 {
            Opcode::VectorAdd32
        } else {
            Opcode::VectorAdd64
        }),
{
    match esize {
        8 => Opcode::VectorAdd8,
        16 => Opcode::VectorAdd16,
        32 => Opcode::VectorAdd32,
        _ => Opcode::VectorAdd64,
    }
}

/// The operation for the lane-wise difference with lanes of `esize` bits.
#[verifier::allow_in_spec]
pub fn vector_sub(esize: usize) -> Opcode
    requires
        esize == 8 || esize == 16 || esize == 32 || esize == 64,
    returns
        (if esize == 8 {
            Opcode::VectorSub8
        } else if esize == 16 {
            Opcode::VectorSub16
        } else if esize == 32 {
            Opcode::VectorSub32
        } else {
            Opcode::VectorSub64
        }),
{
    match esize {
        8 => Opcode::VectorSub8,
        16 => Opcode::VectorSub16,
        32 => Opcode::VectorSub32,
        _ => Opcode::VectorSub64,
    }
}

/// The operation for the lane-wise product with lanes of `esize` bits.
#[verifier::allow_in_spec]
pub fn vector_multiply(esize: usize) -> Opcode
    requires
        esize == 8 || esize == 16 || esize == 32 || esize == 64,
    returns
        (if esize == 8 {
            Opcode::VectorMultiply8
        } else if esize == 16 {
            Opcode::VectorMultiply16
        } else if esize == 32 {
            Opcode::VectorMultiply32
        } else {
            Opcode::VectorMultiply64
        }),
{
    match esize {
        8 => Opcode::VectorMultiply8,
        16 => Opcode::VectorMultiply16,
        32 => Opcode::VectorMultiply32,
        _ => Opcode::VectorMultiply64,
    }
}

/// The operation for the lane-wise signed product in lanes of twice the size with lanes of
/// `esize` bits.
#[verifier::allow_in_spec]
pub fn vector_multiply_signed_widen(esize: usize) -> Opcode
    requires
        esize == 8 || esize == 16 || esize == 32,
    returns
        (if esize == 8 {
            Opcode::VectorMultiplySignedWiden8
        } else if esize == 16 {
            Opcode::VectorMultiplySignedWiden16
        } else {
            Opcode::VectorMultiplySignedWiden32
        }),
{
    match esize {
        8 => Opcode::VectorMultiplySignedWiden8,
        16 => Opcode::VectorMultiplySignedWiden16,
        _ => Opcode::VectorMultiplySignedWiden32,
    }
}

/// The operation for the lane-wise unsigned product in lanes of twice the size with lanes of
/// `esize` bits.
#[verifier::allow_in_spec]
pub fn vector_multiply_unsigned_widen(esize: usize) -> Opcode
    requires
        esize == 8 || esize == 16 || esize == 32,
    returns
        (if esize == 8 {
            Opcode::VectorMultiplyUnsignedWiden8
        } else if esize == 16 {
            Opcode::VectorMultiplyUnsignedWiden16
        } else {
            Opcode::VectorMultiplyUnsignedWiden32
        }),
{
    match esize {
        8 => Opcode::VectorMultiplyUnsignedWiden8,
        16 => Opcode::VectorMultiplyUnsignedWiden16,
        _ => Opcode::VectorMultiplyUnsignedWiden32,
    }
}

/// The operation for the lane-wise polynomial product in lanes of twice the size with lanes of
/// `esize` bits.
#[verifier::allow_in_spec]
pub fn vector_polynomial_multiply_long(esize: usize) -> Opcode
    requires
        esize == 8 || esize == 64,
    returns
        (if esize == 8 {
            Opcode::VectorPolynomialMultiplyLong8
        } else {
            Opcode::VectorPolynomialMultiplyLong64
        }),
{
    match esize {
        8 => Opcode::VectorPolynomialMultiplyLong8,
        _ => Opcode::VectorPolynomialMultiplyLong64,
    }
}

/// The operation for the sums of adjacent lanes with lanes of `esize` bits.
#[verifier::allow_in_spec]
pub fn vector_paired_add(esize: usize) -> Opcode
    requires
        esize == 8 || esize == 16 || esize == 32 || esize == 64,
    returns
        (if esize == 8 {
            Opcode::VectorPairedAdd8
        } else if esize == 16 {
            Opcode::VectorPairedAdd16
        } else if esize == 32 {
            Opcode::VectorPairedAdd32
        } else {
            Opcode::VectorPairedAdd64
        }),
{
    match esize {
        8 => Opcode::VectorPairedAdd8,
        16 => Opcode::VectorPairedAdd16,
        32 => Opcode::VectorPairedAdd32,
        _ => Opcode::VectorPairedAdd64,
    }
}

/// The operation for the arithmetic right shift of each lane with lanes of `esize` bits.
#[verifier::allow_in_spec]
pub fn vector_arithmetic_shift_right(esize: usize) -> Opcode
    requires
        esize == 8 || esize == 16 || esize == 32 || esize == 64,
    returns
        (if esize == 8 {
            Opcode::VectorArithmeticShiftRight8
        } else if esize == 16 {
            Opcode::VectorArithmeticShiftRight16
        } else if esize == 32 {
            Opcode::VectorArithmeticShiftRight32
        } else {
            Opcode::VectorArithmeticShiftRight64
        }),
{
    match esize {
        8 => Opcode::VectorArithmeticShiftRight8,
        16 => Opcode::VectorArithmeticShiftRight16,
        32 => Opcode::VectorArithmeticShiftRight32,
        _ => Opcode::VectorArithmeticShiftRight64,
    }
}

/// The operation for the logical right shift of each lane with lanes of `esize` bits.
#[verifier::allow_in_spec]
pub fn vector_logical_shift_right(esize: usize) -> Opcode
    requires
        esize == 8 || esize == 16 || esize == 32 || esize == 64,
    returns
        (if esize == 8 {
            Opcode::VectorLogicalShiftRight8
        } else if esize == 16 {
            Opcode::VectorLogicalShiftRight16
        } else if esize == 32 {
            Opcode::VectorLogicalShiftRight32
        } else {
            Opcode::VectorLogicalShiftRight64
        }),
{
    match esize {
        8 => Opcode::VectorLogicalShiftRight8,
        16 => Opcode::VectorLogicalShiftRight16,
        32 => Opcode::VectorLogicalShiftRight32,
        _ => Opcode::VectorLogicalShiftRight64,
    }
}

/// The operation for the left shift of each lane with lanes of `esize` bits.
#[verifier::allow_in_spec]
pub fn vector_logical_shift_left(esize: usize) -> Opcode
    requires
        esize == 8 || esize == 16 || esize == 32 || esize == 64,
    returns
        (if esize == 8 {
            Opcode::VectorLogicalShiftLeft8
        } else if esize == 16 {
            Opcode::VectorLogicalShiftLeft16
        } else if esize == 32 {
            Opcode::VectorLogicalShiftLeft32
        } else {
            Opcode::VectorLogicalShiftLeft64
        }),
{
    match esize {
        8 => Opcode::VectorLogicalShiftLeft8,
        16 => Opcode::VectorLogicalShiftLeft16,
        32 => Opcode::VectorLogicalShiftLeft32,
        _ => Opcode::VectorLogicalShiftLeft64,
    }
}

/// The operation for the signed shift of each lane by a lane with lanes of `esize` bits.
#[verifier::allow_in_spec]
pub fn vector_arithmetic_v_shift(esize: usize) -> Opcode
    requires
        esize == 8 || esize == 16 || esize == 32 || esize == 64,
    returns
        (if esize == 8 {
            Opcode::VectorArithmeticVShift8
        } else if esize == 16 {
            Opcode::VectorArithmeticVShift16
        } else if esize == 32 {
            Opcode::VectorArithmeticVShift32
        } else {
            Opcode::VectorArithmeticVShift64
        }),
{
    match esize {
        8 => Opcode::VectorArithmeticVShift8,
        16 => Opcode::VectorArithmeticVShift16,
        32 => Opcode::VectorArithmeticVShift32,
        _ => Opcode::VectorArithmeticVShift64,
    }
}

/// The operation for the unsigned shift of each lane by a lane with lanes of `esize` bits.
#[verifier::allow_in_spec]
pub fn vector_logical_v_shift(esize: usize) -> Opcode
    requires
        esize == 8 || esize == 16 || esize == 32 || esize == 64,
    returns
        (if esize == 8 {
            Opcode::VectorLogicalVShift8
        } else if esize == 16 {
            Opcode::VectorLogicalVShift16
        } else if esize == 32 {
            Opcode::VectorLogicalVShift32
        } else {
            Opcode::VectorLogicalVShift64
        }),
{
    match esize {
        8 => Opcode::VectorLogicalVShift8,
        16 => Opcode::VectorLogicalVShift16,
        32 => Opcode::VectorLogicalVShift32,
        _ => Opcode::VectorLogicalVShift64,
    }
}

/// The operation for the rounding signed shift of each lane by a lane with lanes of `esize` bits.
#[verifier::allow_in_spec]
pub fn vector_rounding_shift_left_signed(esize: usize) -> Opcode
    requires
        esize == 8 || esize == 16 || esize == 32 || esize == 64,
    returns
        (if esize == 8 {
            Opcode::VectorRoundingShiftLeftS8
        } else if esize == 16 {
            Opcode::VectorRoundingShiftLeftS16
        } else if esize == 32 {
            Opcode::VectorRoundingShiftLeftS32
        } else {
            Opcode::VectorRoundingShiftLeftS64
        }),
{
    match esize {
        8 => Opcode::VectorRoundingShiftLeftS8,
        16 => Opcode::VectorRoundingShiftLeftS16,
        32 => Opcode::VectorRoundingShiftLeftS32,
        _ => Opcode::VectorRoundingShiftLeftS64,
    }
}

/// The operation for the rounding unsigned shift of each lane by a lane with lanes of `esize` bits.
#[verifier::allow_in_spec]
pub fn vector_rounding_shift_left_unsigned(esize: usize) -> Opcode
    requires
        esize == 8 || esize == 16 || esize == 32 || esize == 64,
    returns
        (if esize == 8 {
            Opcode::VectorRoundingShiftLeftU8
        } else if esize == 16 {
            Opcode::VectorRoundingShiftLeftU16
        } else if esize == 32 {
            Opcode::VectorRoundingShiftLeftU32
        } else {
            Opcode::VectorRoundingShiftLeftU64
        }),
{
    match esize {
        8 => Opcode::VectorRoundingShiftLeftU8,
        16 => Opcode::VectorRoundingShiftLeftU16,
        32 => Opcode::VectorRoundingShiftLeftU32,
        _ => Opcode::VectorRoundingShiftLeftU64,
    }
}

/// The operation for the copies of a scalar in every lane with lanes of `esize` bits.
#[verifier::allow_in_spec]
pub fn vector_broadcast(esize: usize) -> Opcode
    requires
        esize == 8 || esize == 16 || esize == 32 || esize == 64,
    returns
        (if esize == 8 {
            Opcode::VectorBroadcast8
        } else if esize == 16 {
            Opcode::VectorBroadcast16
        } else if esize == 32 {
            Opcode::VectorBroadcast32
        } else {
            Opcode::VectorBroadcast64
        }),
{
    match esize {
        8 => Opcode::VectorBroadcast8,
        16 => Opcode::VectorBroadcast16,
        32 => Opcode::VectorBroadcast32,
        _ => Opcode::VectorBroadcast64,
    }
}

/// The operation for the copies of one lane in every lane with lanes of `esize` bits.
#[verifier::allow_in_spec]
pub fn vector_broadcast_element(esize: usize) -> Opcode
    requires
        esize == 8 || esize == 16 || esize == 32 || esize == 64,
    returns
        (if esize == 8 {
            Opcode::VectorBroadcastElement8
        } else if esize == 16 {
            Opcode::VectorBroadcastElement16
        } else if esize == 32 {
            Opcode::VectorBroadcastElement32
        } else {
            Opcode::VectorBroadcastElement64
        }),
{
    match esize {
        8 => Opcode::VectorBroadcastElement8,
        16 => Opcode::VectorBroadcastElement16,
        32 => Opcode::VectorBroadcastElement32,
        _ => Opcode::VectorBroadcastElement64,
    }
}

/// The operation for the one lane of a vector with lanes of `esize` bits.
#[verifier::allow_in_spec]
pub fn vector_get_element(esize: usize) -> Opcode
    requires
        esize == 8 || esize == 16 || esize == 32 || esize == 64,
    returns
        (if esize == 8 {
            Opcode::VectorGetElement8
        } else if esize == 16 {
            Opcode::VectorGetElement16
        } else if esize == 32 {
            Opcode::VectorGetElement32
        } else {
            Opcode::VectorGetElement64
        }),
{
    match esize {
        8 => Opcode::VectorGetElement8,
        16 => Opcode::VectorGetElement16,
        32 => Opcode::VectorGetElement32,
        _ => Opcode::VectorGetElement64,
    }
}

/// The operation for the a vector with one lane replaced with lanes of `esize` bits.
#[verifier::allow_in_spec]
pub fn vector_set_element(esize: usize) -> Opcode
    requires
        esize == 8 || esize == 16 || esize == 32 || esize == 64,
    returns
        (if esize == 8 {
            Opcode::VectorSetElement8
        } else if esize == 16 {
            Opcode::VectorSetElement16
        } else if esize == 32 {
            Opcode::VectorSetElement32
        } else {
            Opcode::VectorSetElement64
        }),
{
    match esize {
        8 => Opcode::VectorSetElement8,
        16 => Opcode::VectorSetElement16,
        32 => Opcode::VectorSetElement32,
        _ => Opcode::VectorSetElement64,
    }
}

/// The operation for the even lanes of two vectors with lanes of `esize` bits.
#[verifier::allow_in_spec]
pub fn vector_deinterleave_even(esize: usize) -> Opcode
    requires
        esize == 8 || esize == 16 || esize == 32 || esize == 64,
    returns
        (if esize == 8 {
            Opcode::VectorDeinterleaveEven8
        } else if esize == 16 {
            Opcode::VectorDeinterleaveEven16
        } else if esize == 32 {
            Opcode::VectorDeinterleaveEven32
        } else {
            Opcode::VectorDeinterleaveEven64
        }),
{
    match esize {
        8 => Opcode::VectorDeinterleaveEven8,
        16 => Opcode::VectorDeinterleaveEven16,
        32 => Opcode::VectorDeinterleaveEven32,
        _ => Opcode::VectorDeinterleaveEven64,
    }
}

/// The operation for the odd lanes of two vectors with lanes of `esize` bits.
#[verifier::allow_in_spec]
pub fn vector_deinterleave_odd(esize: usize) -> Opcode
    requires
        esize == 8 || esize == 16 || esize == 32 || esize == 64,
    returns
        (if esize == 8 {
            Opcode::VectorDeinterleaveOdd8
        } else if esize == 16 {
            Opcode::VectorDeinterleaveOdd16
        } else if esize == 32 {
            Opcode::VectorDeinterleaveOdd32
        } else {
            Opcode::VectorDeinterleaveOdd64
        }),
{
    match esize {
        8 => Opcode::VectorDeinterleaveOdd8,
        16 => Opcode::VectorDeinterleaveOdd16,
        32 => Opcode::VectorDeinterleaveOdd32,
        _ => Opcode::VectorDeinterleaveOdd64,
    }
}

/// The operation for the even lanes of two lower halves with lanes of `esize` bits.
#[verifier::allow_in_spec]
pub fn vector_deinterleave_even_lower(esize: usize) -> Opcode
    requires
        esize == 8 || esize == 16 || esize == 32,
    returns
        (if esize == 8 {
            Opcode::VectorDeinterleaveEvenLower8
        } else if esize == 16 {
            Opcode::VectorDeinterleaveEvenLower16
        } else {
            Opcode::VectorDeinterleaveEvenLower32
        }),
{
    match esize {
        8 => Opcode::VectorDeinterleaveEvenLower8,
        16 => Opcode::VectorDeinterleaveEvenLower16,
        _ => Opcode::VectorDeinterleaveEvenLower32,
    }
}

/// The operation for the odd lanes of two lower halves with lanes of `esize` bits.
#[verifier::allow_in_spec]
pub fn vector_deinterleave_odd_lower(esize: usize) -> Opcode
    requires
        esize == 8 || esize == 16 || esize == 32,
    returns
        (if esize == 8 {
            Opcode::VectorDeinterleaveOddLower8
        } else if esize == 16 {
            Opcode::VectorDeinterleaveOddLower16
        } else {
            Opcode::VectorDeinterleaveOddLower32
        }),
{
    match esize {
        8 => Opcode::VectorDeinterleaveOddLower8,
        16 => Opcode::VectorDeinterleaveOddLower16,
        _ => Opcode::VectorDeinterleaveOddLower32,
    }
}

/// The operation for the interleaved lanes of two lower halves with lanes of `esize` bits.
#[verifier::allow_in_spec]
pub fn vector_interleave_lower(esize: usize) -> Opcode
    requires
        esize == 8 || esize == 16 || esize == 32 || esize == 64,
    returns
        (if esize == 8 {
            Opcode::VectorInterleaveLower8
        } else if esize == 16 {
            Opcode::VectorInterleaveLower16
        } else if esize == 32 {
            Opcode::VectorInterleaveLower32
        } else {
            Opcode::VectorInterleaveLower64
        }),
{
    match esize {
        8 => Opcode::VectorInterleaveLower8,
        16 => Opcode::VectorInterleaveLower16,
        32 => Opcode::VectorInterleaveLower32,
        _ => Opcode::VectorInterleaveLower64,
    }
}

/// The operation for the interleaved lanes of two upper halves with lanes of `esize` bits.
#[verifier::allow_in_spec]
pub fn vector_interleave_upper(esize: usize) -> Opcode
    requires
        esize == 8 || esize == 16 || esize == 32 || esize == 64,
    returns
        (if esize == 8 {
            Opcode::VectorInterleaveUpper8
        } else if esize == 16 {
            Opcode::VectorInterleaveUpper16
        } else if esize == 32 {
            Opcode::VectorInterleaveUpper32
        } else {
            Opcode::VectorInterleaveUpper64
        }),
{
    match esize {
        8 => Opcode::VectorInterleaveUpper8,
        16 => Opcode::VectorInterleaveUpper16,
        32 => Opcode::VectorInterleaveUpper32,
        _ => Opcode::VectorInterleaveUpper64,
    }
}

/// The operation for the transposed lane pairs of two vectors with lanes of `esize` bits.
#[verifier::allow_in_spec]
pub fn vector_transpose(esize: usize) -> Opcode
    requires
        esize == 8 || esize == 16 || esize == 32 || esize == 64,
    returns
        (if esize == 8 {
            Opcode::VectorTranspose8
        } else if esize == 16 {
            Opcode::VectorTranspose16
        } else if esize == 32 {
            Opcode::VectorTranspose32
        } else {
            Opcode::VectorTranspose64
        }),
{
    match esize {
        8 => Opcode::VectorTranspose8,
        16 => Opcode::VectorTranspose16,
        32 => Opcode::VectorTranspose32,
        _ => Opcode::VectorTranspose64,
    }
}

/// The operation for the lane-wise equality with lanes of `esize` bits.
#[verifier::allow_in_spec]
pub fn vector_equal(esize: usize) -> Opcode
    requires
        esize == 8 || esize == 16 || esize == 32 || esize == 64,
    returns
        (if esize == 8 {
            Opcode::VectorEqual8
        } else if esize == 16 {
            Opcode::VectorEqual16
        } else if esize == 32 {
            Opcode::VectorEqual32
        } else {
            Opcode::VectorEqual64
        }),
{
    match esize {
        8 => Opcode::VectorEqual8,
        16 => Opcode::VectorEqual16,
        32 => Opcode::VectorEqual32,
        _ => Opcode::VectorEqual64,
    }
}

/// The operation for the lane-wise signed comparison with lanes of `esize` bits.
#[verifier::allow_in_spec]
pub fn vector_greater_signed(esize: usize) -> Opcode
    requires
        esize == 8 || esize == 16 || esize == 32 || esize == 64,
    returns
        (if esize == 8 {
            Opcode::VectorGreaterS8
        } else if esize == 16 {
            Opcode::VectorGreaterS16
        } else if esize == 32 {
            Opcode::VectorGreaterS32
        } else {
            Opcode::VectorGreaterS64
        }),
{
    match esize {
        8 => Opcode::VectorGreaterS8,
        16 => Opcode::VectorGreaterS16,
        32 => Opcode::VectorGreaterS32,
        _ => Opcode::VectorGreaterS64,
    }
}

/// The operation for the lane-wise signed maximum with lanes of `esize` bits.
#[verifier::allow_in_spec]
pub fn vector_max_signed(esize: usize) -> Opcode
    requires
        esize == 8 || esize == 16 || esize == 32 || esize == 64,
    returns
        (if esize == 8 {
            Opcode::VectorMaxS8
        } else if esize == 16 {
            Opcode::VectorMaxS16
        } else if esize == 32 {
            Opcode::VectorMaxS32
        } else {
            Opcode::VectorMaxS64
        }),
{
    match esize {
        8 => Opcode::VectorMaxS8,
        16 => Opcode::VectorMaxS16,
        32 => Opcode::VectorMaxS32,
        _ => Opcode::VectorMaxS64,
    }
}

/// The operation for the lane-wise unsigned maximum with lanes of `esize` bits.
#[verifier::allow_in_spec]
pub fn vector_max_unsigned(esize: usize) -> Opcode
    requires
        esize == 8 || esize == 16 || esize == 32 || esize == 64,
    returns
        (if esize == 8 {
            Opcode::VectorMaxU8
        } else if esize == 16 {
            Opcode::VectorMaxU16
        } else if esize == 32 {
            Opcode::VectorMaxU32
        } else {
            Opcode::VectorMaxU64
        }),
{
    match esize {
        8 => Opcode::VectorMaxU8,
        16 => Opcode::VectorMaxU16,
        32 => Opcode::VectorMaxU32,
        _ => Opcode::VectorMaxU64,
    }
}

/// The operation for the lane-wise signed minimum with lanes of `esize` bits.
#[verifier::allow_in_spec]
pub fn vector_min_signed(esize: usize) -> Opcode
    requires
        esize == 8 || esize == 16 || esize == 32 || esize == 64,
    returns
        (if esize == 8 {
            Opcode::VectorMinS8
        } else if esize == 16 {
            Opcode::VectorMinS16
        } else if esize == 32 {
            Opcode::VectorMinS32
        } else {
            Opcode::VectorMinS64
        }),
{
    match esize {
        8 => Opcode::VectorMinS8,
        16 => Opcode::VectorMinS16,
        32 => Opcode::VectorMinS32,
        _ => Opcode::VectorMinS64,
    }
}

/// The operation for the lane-wise unsigned minimum with lanes of `esize` bits.
#[verifier::allow_in_spec]
pub fn vector_min_unsigned(esize: usize) -> Opcode
    requires
        esize == 8 || esize == 16 || esize == 32 || esize == 64,
    returns
        (if esize == 8 {
            Opcode::VectorMinU8
        } else if esize == 16 {
            Opcode::VectorMinU16
        } else if esize == 32 {
            Opcode::VectorMinU32
        } else {
            Opcode::VectorMinU64
        }),
{
    match esize {
        8 => Opcode::VectorMinU8,
        16 => Opcode::VectorMinU16,
        32 => Opcode::VectorMinU32,
        _ => Opcode::VectorMinU64,
    }
}

/// The operation for the lane-wise signed half of a sum with lanes of `esize` bits.
#[verifier::allow_in_spec]
pub fn vector_halving_add_signed(esize: usize) -> Opcode
    requires
        esize == 8 || esize == 16 || esize == 32,
    returns
        (if esize == 8 {
            Opcode::VectorHalvingAddS8
        } else if esize == 16 {
            Opcode::VectorHalvingAddS16
        } else {
            Opcode::VectorHalvingAddS32
        }),
{
    match esize {
        8 => Opcode::VectorHalvingAddS8,
        16 => Opcode::VectorHalvingAddS16,
        _ => Opcode::VectorHalvingAddS32,
    }
}

/// The operation for the lane-wise unsigned half of a sum with lanes of `esize` bits.
#[verifier::allow_in_spec]
pub fn vector_halving_add_unsigned(esize: usize) -> Opcode
    requires
        esize == 8 || esize == 16 || esize == 32,
    returns
        (if esize == 8 {
            Opcode::VectorHalvingAddU8
        } else if esize == 16 {
            Opcode::VectorHalvingAddU16
        } else {
            Opcode::VectorHalvingAddU32
        }),
{
    match esize {
        8 => Opcode::VectorHalvingAddU8,
        16 => Opcode::VectorHalvingAddU16,
        _ => Opcode::VectorHalvingAddU32,
    }
}

/// The operation for the lane-wise signed half of a difference with lanes of `esize` bits.
#[verifier::allow_in_spec]
pub fn vector_halving_sub_signed(esize: usize) -> Opcode
    requires
        esize == 8 || esize == 16 || esize == 32,
    returns
        (if esize == 8 {
            Opcode::VectorHalvingSubS8
        } else if esize == 16 {
            Opcode::VectorHalvingSubS16
        } else {
            Opcode::VectorHalvingSubS32
        }),
{
    match esize {
        8 => Opcode::VectorHalvingSubS8,
        16 => Opcode::VectorHalvingSubS16,
        _ => Opcode::VectorHalvingSubS32,
    }
}

/// The operation for the lane-wise unsigned half of a difference with lanes of `esize` bits.
#[verifier::allow_in_spec]
pub fn vector_halving_sub_unsigned(esize: usize) -> Opcode
    requires
        esize == 8 || esize == 16 || esize == 32,
    returns
        (if esize == 8 {
            Opcode::VectorHalvingSubU8
        } else if esize == 16 {
            Opcode::VectorHalvingSubU16
        } else {
            Opcode::VectorHalvingSubU32
        }),
{
    match esize {
        8 => Opcode::VectorHalvingSubU8,
        16 => Opcode::VectorHalvingSubU16,
        _ => Opcode::VectorHalvingSubU32,
    }
}

/// The operation for the lane-wise signed rounded half of a sum with lanes of `esize` bits.
#[verifier::allow_in_spec]
pub fn vector_rounding_halving_add_signed(esize: usize) -> Opcode
    requires
        esize == 8 || esize == 16 || esize == 32,
    returns
        (if esize == 8 {
            Opcode::VectorRoundingHalvingAddS8
        } else if esize == 16 {
            Opcode::VectorRoundingHalvingAddS16
        } else {
            Opcode::VectorRoundingHalvingAddS32
        }),
{
    match esize {
        8 => Opcode::VectorRoundingHalvingAddS8,
        16 => Opcode::VectorRoundingHalvingAddS16,
        _ => Opcode::VectorRoundingHalvingAddS32,
    }
}

/// The operation for the lane-wise unsigned rounded half of a sum with lanes of `esize` bits.
#[verifier::allow_in_spec]
pub fn vector_rounding_halving_add_unsigned(esize: usize) -> Opcode
    requires
        esize == 8 || esize == 16 || esize == 32,
    returns
        (if esize == 8 {
            Opcode::VectorRoundingHalvingAddU8
        } else if esize == 16 {
            Opcode::VectorRoundingHalvingAddU16
        } else {
            Opcode::VectorRoundingHalvingAddU32
        }),
{
    match esize {
        8 => Opcode::VectorRoundingHalvingAddU8,
        16 => Opcode::VectorRoundingHalvingAddU16,
        _ => Opcode::VectorRoundingHalvingAddU32,
    }
}

/// The operation for the lower half of each lane with lanes of `esize` bits.
#[verifier::allow_in_spec]
pub fn vector_narrow(esize: usize) -> Opcode
    requires
        esize == 16 || esize == 32 || esize == 64,
    returns
        (if esize == 16 {
            Opcode::VectorNarrow16
        } else if esize == 32 {
            Opcode::VectorNarrow32
        } else {
            Opcode::VectorNarrow64
        }),
{
    match esize {
        16 => Opcode::VectorNarrow16,
        32 => Opcode::VectorNarrow32,
        _ => Opcode::VectorNarrow64,
    }
}

/// The operation for the sign extension of each lane to twice its size with lanes of `esize` bits.
#[verifier::allow_in_spec]
pub fn vector_sign_extend(esize: usize) -> Opcode
    requires
        esize == 8 || esize == 16 || esize == 32 || esize == 64,
    returns
        (if esize == 8 {
            Opcode::VectorSignExtend8
        } else if esize == 16 {
            Opcode::VectorSignExtend16
        } else if esize == 32 {
            Opcode::VectorSignExtend32
        } else {
            Opcode::VectorSignExtend64
        }),
{
    match esize {
        8 => Opcode::VectorSignExtend8,
        16 => Opcode::VectorSignExtend16,
        32 => Opcode::VectorSignExtend32,
        _ => Opcode::VectorSignExtend64,
    }
}

/// The operation for the zero extension of each lane to twice its size with lanes of `esize` bits.
#[verifier::allow_in_spec]
pub fn vector_zero_extend(esize: usize) -> Opcode
    requires
        esize == 8 || esize == 16 || esize == 32 || esize == 64,
    returns
        (if esize == 8 {
            Opcode::VectorZeroExtend8
        } else if esize == 16 {
            Opcode::VectorZeroExtend16
        } else if esize == 32 {
            Opcode::VectorZeroExtend32
        } else {
            Opcode::VectorZeroExtend64
        }),
{
    match esize {
        8 => Opcode::VectorZeroExtend8,
        16 => Opcode::VectorZeroExtend16,
        32 => Opcode::VectorZeroExtend32,
        _ => Opcode::VectorZeroExtend64,
    }
}

/// The operation for the lane-wise signed absolute difference with lanes of `esize` bits.
#[verifier::allow_in_spec]
pub fn vector_signed_absolute_difference(esize: usize) -> Opcode
    requires
        esize == 8 || esize == 16 || esize == 32,
    returns
        (if esize == 8 {
            Opcode::VectorSignedAbsoluteDifference8
        } else if esize == 16 {
            Opcode::VectorSignedAbsoluteDifference16
        } else {
            Opcode::VectorSignedAbsoluteDifference32
        }),
{
    match esize {
        8 => Opcode::VectorSignedAbsoluteDifference8,
        16 => Opcode::VectorSignedAbsoluteDifference16,
        _ => Opcode::VectorSignedAbsoluteDifference32,
    }
}

/// The operation for the lane-wise unsigned absolute difference with lanes of `esize` bits.
#[verifier::allow_in_spec]
pub fn vector_unsigned_absolute_difference(esize: usize) -> Opcode
    requires
        esize == 8 || esize == 16 || esize == 32,
    returns
        (if esize == 8 {
            Opcode::VectorUnsignedAbsoluteDifference8
        } else if esize == 16 {
            Opcode::VectorUnsignedAbsoluteDifference16
        } else {
            Opcode::VectorUnsignedAbsoluteDifference32
        }),
{
    match esize {
        8 => Opcode::VectorUnsignedAbsoluteDifference8,
        16 => Opcode::VectorUnsignedAbsoluteDifference16,
        _ => Opcode::VectorUnsignedAbsoluteDifference32,
    }
}

/// The operation for the lane-wise signed saturating sum with lanes of `esize` bits.
#[verifier::allow_in_spec]
pub fn vector_signed_saturated_add(esize: usize) -> Opcode
    requires
        esize == 8 || esize == 16 || esize == 32 || esize == 64,
    returns
        (if esize == 8 {
            Opcode::VectorSignedSaturatedAdd8
        } else if esize == 16 {
            Opcode::VectorSignedSaturatedAdd16
        } else if esize == 32 {
            Opcode::VectorSignedSaturatedAdd32
        } else {
            Opcode::VectorSignedSaturatedAdd64
        }),
{
    match esize {
        8 => Opcode::VectorSignedSaturatedAdd8,
        16 => Opcode::VectorSignedSaturatedAdd16,
        32 => Opcode::VectorSignedSaturatedAdd32,
        _ => Opcode::VectorSignedSaturatedAdd64,
    }
}

/// The operation for the lane-wise unsigned saturating sum with lanes of `esize` bits.
#[verifier::allow_in_spec]
pub fn vector_unsigned_saturated_add(esize: usize) -> Opcode
    requires
        esize == 8 || esize == 16 || esize == 32 || esize == 64,
    returns
        (if esize == 8 {
            Opcode::VectorUnsignedSaturatedAdd8
        } else if esize == 16 {
            Opcode::VectorUnsignedSaturatedAdd16
        } else if esize == 32 {
            Opcode::VectorUnsignedSaturatedAdd32
        } else {
            Opcode::VectorUnsignedSaturatedAdd64
        }),
{
    match esize {
        8 => Opcode::VectorUnsignedSaturatedAdd8,
        16 => Opcode::VectorUnsignedSaturatedAdd16,
        32 => Opcode::VectorUnsignedSaturatedAdd32,
        _ => Opcode::VectorUnsignedSaturatedAdd64,
    }
}

/// The operation for the lane-wise signed saturating difference with lanes of `esize` bits.
#[verifier::allow_in_spec]
pub fn vector_signed_saturated_sub(esize: usize) -> Opcode
    requires
        esize == 8 || esize == 16 || esize == 32 || esize == 64,
    returns
        (if esize == 8 {
            Opcode::VectorSignedSaturatedSub8
        } else if esize == 16 {
            Opcode::VectorSignedSaturatedSub16
        } else if esize == 32 {
            Opcode::VectorSignedSaturatedSub32
        } else {
            Opcode::VectorSignedSaturatedSub64
        }),
{
    match esize {
        8 => Opcode::VectorSignedSaturatedSub8,
        16 => Opcode::VectorSignedSaturatedSub16,
        32 => Opcode::VectorSignedSaturatedSub32,
        _ => Opcode::VectorSignedSaturatedSub64,
    }
}

/// The operation for the lane-wise unsigned saturating difference with lanes of `esize` bits.
#[verifier::allow_in_spec]
pub fn vector_unsigned_saturated_sub(esize: usize) -> Opcode
    requires
        esize == 8 || esize == 16 || esize == 32 || esize == 64,
    returns
        (if esize == 8 {
            Opcode::VectorUnsignedSaturatedSub8
        } else if esize == 16 {
            Opcode::VectorUnsignedSaturatedSub16
        } else if esize == 32 {
            Opcode::VectorUnsignedSaturatedSub32
        } else {
            Opcode::VectorUnsignedSaturatedSub64
        }),
{
    match esize {
        8 => Opcode::VectorUnsignedSaturatedSub8,
        16 => Opcode::VectorUnsignedSaturatedSub16,
        32 => Opcode::VectorUnsignedSaturatedSub32,
        _ => Opcode::VectorUnsignedSaturatedSub64,
    }
}

/// The operation for the upper half of the doubled product of each lane, saturating with lanes
/// of `esize` bits.
#[verifier::allow_in_spec]
pub fn vector_signed_saturated_doubling_multiply_high(esize: usize) -> Opcode
    requires
        esize == 16 || esize == 32,
    returns
        (if esize == 16 {
            Opcode::VectorSignedSaturatedDoublingMultiplyHigh16
        } else {
            Opcode::VectorSignedSaturatedDoublingMultiplyHigh32
        }),
{
    match esize {
        16 => Opcode::VectorSignedSaturatedDoublingMultiplyHigh16,
        _ => Opcode::VectorSignedSaturatedDoublingMultiplyHigh32,
    }
}

/// The operation for the rounded upper half of the doubled product of each lane, saturating
/// with lanes of `esize` bits.
#[verifier::allow_in_spec]
pub fn vector_signed_saturated_doubling_multiply_high_rounding(esize: usize) -> Opcode
    requires
        esize == 16 || esize == 32,
    returns
        (if esize == 16 {
            Opcode::VectorSignedSaturatedDoublingMultiplyHighRounding16
        } else {
            Opcode::VectorSignedSaturatedDoublingMultiplyHighRounding32
        }),
{
    match esize {
        16 => Opcode::VectorSignedSaturatedDoublingMultiplyHighRounding16,
        _ => Opcode::VectorSignedSaturatedDoublingMultiplyHighRounding32,
    }
}

/// The operation for the signed saturating narrowing of each lane with lanes of `esize` bits.
#[verifier::allow_in_spec]
pub fn vector_signed_saturated_narrow_to_signed(esize: usize) -> Opcode
    requires
        esize == 16 || esize == 32 || esize == 64,
    returns
        (if esize == 16 {
            Opcode::VectorSignedSaturatedNarrowToSigned16
        } else if esize == 32 {
            Opcode::VectorSignedSaturatedNarrowToSigned32
        } else {
            Opcode::VectorSignedSaturatedNarrowToSigned64
        }),
{
    match esize {
        16 => Opcode::VectorSignedSaturatedNarrowToSigned16,
        32 => Opcode::VectorSignedSaturatedNarrowToSigned32,
        _ => Opcode::VectorSignedSaturatedNarrowToSigned64,
    }
}

/// The operation for the unsigned saturating narrowing of each lane with lanes of `esize` bits.
#[verifier::allow_in_spec]
pub fn vector_unsigned_saturated_narrow(esize: usize) -> Opcode
    requires
        esize == 16 || esize == 32 || esize == 64,
    returns
        (if esize == 16 {
            Opcode::VectorUnsignedSaturatedNarrow16
        } else if esize == 32 {
            Opcode::VectorUnsignedSaturatedNarrow32
        } else {
            Opcode::VectorUnsignedSaturatedNarrow64
        }),
{
    match esize {
        16 => Opcode::VectorUnsignedSaturatedNarrow16,
        32 => Opcode::VectorUnsignedSaturatedNarrow32,
        _ => Opcode::VectorUnsignedSaturatedNarrow64,
    }
}

/// The operation for the signed saturating shift of each lane by a lane with lanes of `esize` bits.
#[verifier::allow_in_spec]
pub fn vector_signed_saturated_shift_left(esize: usize) -> Opcode
    requires
        esize == 8 || esize == 16 || esize == 32 || esize == 64,
    returns
        (if esize == 8 {
            Opcode::VectorSignedSaturatedShiftLeft8
        } else if esize == 16 {
            Opcode::VectorSignedSaturatedShiftLeft16
        } else if esize == 32 {
            Opcode::VectorSignedSaturatedShiftLeft32
        } else {
            Opcode::VectorSignedSaturatedShiftLeft64
        }),
{
    match esize {
        8 => Opcode::VectorSignedSaturatedShiftLeft8,
        16 => Opcode::VectorSignedSaturatedShiftLeft16,
        32 => Opcode::VectorSignedSaturatedShiftLeft32,
        _ => Opcode::VectorSignedSaturatedShiftLeft64,
    }
}

/// The operation for the unsigned saturating shift of each lane by a lane with lanes of `esize`
/// bits.
#[verifier::allow_in_spec]
pub fn vector_unsigned_saturated_shift_left(esize: usize) -> Opcode
    requires
        esize == 8 || esize == 16 || esize == 32 || esize == 64,
    returns
        (if esize == 8 {
            Opcode::VectorUnsignedSaturatedShiftLeft8
        } else if esize == 16 {
            Opcode::VectorUnsignedSaturatedShiftLeft16
        } else if esize == 32 {
            Opcode::VectorUnsignedSaturatedShiftLeft32
        } else {
            Opcode::VectorUnsignedSaturatedShiftLeft64
        }),
{
    match esize {
        8 => Opcode::VectorUnsignedSaturatedShiftLeft8,
        16 => Opcode::VectorUnsignedSaturatedShiftLeft16,
        32 => Opcode::VectorUnsignedSaturatedShiftLeft32,
        _ => Opcode::VectorUnsignedSaturatedShiftLeft64,
    }
}

/// The operation for the saturating shift of signed lanes with unsigned results with lanes of
/// `esize` bits.
#[verifier::allow_in_spec]
pub fn vector_signed_saturated_shift_left_unsigned(esize: usize) -> Opcode
    requires
        esize == 8 || esize == 16 || esize == 32 || esize == 64,
    returns
        (if esize == 8 {
            Opcode::VectorSignedSaturatedShiftLeftUnsigned8
        } else if esize == 16 {
            Opcode::VectorSignedSaturatedShiftLeftUnsigned16
        } else if esize == 32 {
            Opcode::VectorSignedSaturatedShiftLeftUnsigned32
        } else {
            Opcode::VectorSignedSaturatedShiftLeftUnsigned64
        }),
{
    match esize {
        8 => Opcode::VectorSignedSaturatedShiftLeftUnsigned8,
        16 => Opcode::VectorSignedSaturatedShiftLeftUnsigned16,
        32 => Opcode::VectorSignedSaturatedShiftLeftUnsigned32,
        _ => Opcode::VectorSignedSaturatedShiftLeftUnsigned64,
    }
}

/// The operation for the absolute values of floating-point lanes with lanes of `esize` bits.
#[verifier::allow_in_spec]
pub fn fp_vector_abs(esize: usize) -> Opcode
    requires
        esize == 16 || esize == 32 || esize == 64,
    returns
        (if esize == 16 {
            Opcode::FPVectorAbs16
        } else if esize == 32 {
            Opcode::FPVectorAbs32
        } else {
            Opcode::FPVectorAbs64
        }),
{
    match esize {
        16 => Opcode::FPVectorAbs16,
        32 => Opcode::FPVectorAbs32,
        _ => Opcode::FPVectorAbs64,
    }
}

/// The operation for the negated floating-point lanes with lanes of `esize` bits.
#[verifier::allow_in_spec]
pub fn fp_vector_neg(esize: usize) -> Opcode
    requires
        esize == 16 || esize == 32 || esize == 64,
    returns
        (if esize == 16 {
            Opcode::FPVectorNeg16
        } else if esize == 32 {
            Opcode::FPVectorNeg32
        } else {
            Opcode::FPVectorNeg64
        }),
{
    match esize {
        16 => Opcode::FPVectorNeg16,
        32 => Opcode::FPVectorNeg32,
        _ => Opcode::FPVectorNeg64,
    }
}

/// The operation for the lane-wise floating-point sum with lanes of `esize` bits.
#[verifier::allow_in_spec]
pub fn fp_vector_add(esize: usize) -> Opcode
    requires
        esize == 32 || esize == 64,
    returns
        (if esize == 32 { Opcode::FPVectorAdd32 } else { Opcode::FPVectorAdd64 }),
{
    match esize {
        32 => Opcode::FPVectorAdd32,
        _ => Opcode::FPVectorAdd64,
    }
}

/// The operation for the lane-wise floating-point difference with lanes of `esize` bits.
#[verifier::allow_in_spec]
pub fn fp_vector_sub(esize: usize) -> Opcode
    requires
        esize == 32 || esize == 64,
    returns
        (if esize == 32 { Opcode::FPVectorSub32 } else { Opcode::FPVectorSub64 }),
{
    match esize {
        32 => Opcode::FPVectorSub32,
        _ => Opcode::FPVectorSub64,
    }
}

/// The operation for the lane-wise floating-point product with lanes of `esize` bits.
#[verifier::allow_in_spec]
pub fn fp_vector_mul(esize: usize) -> Opcode
    requires
        esize == 32 || esize == 64,
    returns
        (if esize == 32 { Opcode::FPVectorMul32 } else { Opcode::FPVectorMul64 }),
{
    match esize {
        32 => Opcode::FPVectorMul32,
        _ => Opcode::FPVectorMul64,
    }
}

/// The operation for the lane-wise fused product and sum with lanes of `esize` bits.
#[verifier::allow_in_spec]
pub fn fp_vector_mul_add(esize: usize) -> Opcode
    requires
        esize == 16 || esize == 32 || esize == 64,
    returns
        (if esize == 16 {
            Opcode::FPVectorMulAdd16
        } else if esize == 32 {
            Opcode::FPVectorMulAdd32
        } else {
            Opcode::FPVectorMulAdd64
        }),
{
    match esize {
        16 => Opcode::FPVectorMulAdd16,
        32 => Opcode::FPVectorMulAdd32,
        _ => Opcode::FPVectorMulAdd64,
    }
}

/// The operation for the lane-wise floating-point maximum with lanes of `esize` bits.
#[verifier::allow_in_spec]
pub fn fp_vector_max(esize: usize) -> Opcode
    requires
        esize == 32 || esize == 64,
    returns
        (if esize == 32 { Opcode::FPVectorMax32 } else { Opcode::FPVectorMax64 }),
{
    match esize {
        32 => Opcode::FPVectorMax32,
        _ => Opcode::FPVectorMax64,
    }
}

/// The operation for the lane-wise floating-point minimum with lanes of `esize` bits.
#[verifier::allow_in_spec]
pub fn fp_vector_min(esize: usize) -> Opcode
    requires
        esize == 32 || esize == 64,
    returns
        (if esize == 32 { Opcode::FPVectorMin32 } else { Opcode::FPVectorMin64 }),
{
    match esize {
        32 => Opcode::FPVectorMin32,
        _ => Opcode::FPVectorMin64,
    }
}

/// The operation for the lane-wise floating-point equality with lanes of `esize` bits.
#[verifier::allow_in_spec]
pub fn fp_vector_equal(esize: usize) -> Opcode
    requires
        esize == 16 || esize == 32 || esize == 64,
    returns
        (if esize == 16 {
            Opcode::FPVectorEqual16
        } else if esize == 32 {
            Opcode::FPVectorEqual32
        } else {
            Opcode::FPVectorEqual64
        }),
{
    match esize {
        16 => Opcode::FPVectorEqual16,
        32 => Opcode::FPVectorEqual32,
        _ => Opcode::FPVectorEqual64,
    }
}

/// The operation for the lane-wise floating-point comparison with lanes of `esize` bits.
#[verifier::allow_in_spec]
pub fn fp_vector_greater(esize: usize) -> Opcode
    requires
        esize == 32 || esize == 64,
    returns
        (if esize == 32 { Opcode::FPVectorGreater32 } else { Opcode::FPVectorGreater64 }),
{
    match esize {
        32 => Opcode::FPVectorGreater32,
        _ => Opcode::FPVectorGreater64,
    }
}

/// The operation for the lane-wise floating-point comparison or equality with lanes of `esize`
/// bits.
#[verifier::allow_in_spec]
pub fn fp_vector_greater_equal(esize: usize) -> Opcode
    requires
        esize == 32 || esize == 64,
    returns
        (if esize == 32 { Opcode::FPVectorGreaterEqual32 } else { Opcode::FPVectorGreaterEqual64 }),
{
    match esize {
        32 => Opcode::FPVectorGreaterEqual32,
        _ => Opcode::FPVectorGreaterEqual64,
    }
}

/// The operation for the floating-point sums of adjacent lanes of two lower halves with lanes
/// of `esize` bits.
#[verifier::allow_in_spec]
pub fn fp_vector_paired_add_lower(esize: usize) -> Opcode
    requires
        esize == 32 || esize == 64,
    returns
        (if esize == 32 {
            Opcode::FPVectorPairedAddLower32
        } else {
            Opcode::FPVectorPairedAddLower64
        }),
{
    match esize {
        32 => Opcode::FPVectorPairedAddLower32,
        _ => Opcode::FPVectorPairedAddLower64,
    }
}

/// The operation for the reciprocal estimate of floating-point lanes with lanes of `esize` bits.
#[verifier::allow_in_spec]
pub fn fp_vector_recip_estimate(esize: usize) -> Opcode
    requires
        esize == 16 || esize == 32 || esize == 64,
    returns
        (if esize == 16 {
            Opcode::FPVectorRecipEstimate16
        } else if esize == 32 {
            Opcode::FPVectorRecipEstimate32
        } else {
            Opcode::FPVectorRecipEstimate64
        }),
{
    match esize {
        16 => Opcode::FPVectorRecipEstimate16,
        32 => Opcode::FPVectorRecipEstimate32,
        _ => Opcode::FPVectorRecipEstimate64,
    }
}

/// The operation for the reciprocal step of floating-point lanes with lanes of `esize` bits.
#[verifier::allow_in_spec]
pub fn fp_vector_recip_step_fused(esize: usize) -> Opcode
    requires
        esize == 16 || esize == 32 || esize == 64,
    returns
        (if esize == 16 {
            Opcode::FPVectorRecipStepFused16
        } else if esize == 32 {
            Opcode::FPVectorRecipStepFused32
        } else {
            Opcode::FPVectorRecipStepFused64
        }),
{
    match esize {
        16 => Opcode::FPVectorRecipStepFused16,
        32 => Opcode::FPVectorRecipStepFused32,
        _ => Opcode::FPVectorRecipStepFused64,
    }
}

/// The operation for the reciprocal square root estimate of floating-point lanes with lanes of
/// `esize` bits.
#[verifier::allow_in_spec]
pub fn fp_vector_rsqrt_estimate(esize: usize) -> Opcode
    requires
        esize == 16 || esize == 32 || esize == 64,
    returns
        (if esize == 16 {
            Opcode::FPVectorRSqrtEstimate16
        } else if esize == 32 {
            Opcode::FPVectorRSqrtEstimate32
        } else {
            Opcode::FPVectorRSqrtEstimate64
        }),
{
    match esize {
        16 => Opcode::FPVectorRSqrtEstimate16,
        32 => Opcode::FPVectorRSqrtEstimate32,
        _ => Opcode::FPVectorRSqrtEstimate64,
    }
}

/// The operation for the reciprocal square root step of floating-point lanes with lanes of
/// `esize` bits.
#[verifier::allow_in_spec]
pub fn fp_vector_rsqrt_step_fused(esize: usize) -> Opcode
    requires
        esize == 16 || esize == 32 || esize == 64,
    returns
        (if esize == 16 {
            Opcode::FPVectorRSqrtStepFused16
        } else if esize == 32 {
            Opcode::FPVectorRSqrtStepFused32
        } else {
            Opcode::FPVectorRSqrtStepFused64
        }),
{
    match esize {
        16 => Opcode::FPVectorRSqrtStepFused16,
        32 => Opcode::FPVectorRSqrtStepFused32,
        _ => Opcode::FPVectorRSqrtStepFused64,
    }
}

/// The operation for the floating-point lanes from signed fixed-point lanes with lanes of
/// `esize` bits.
#[verifier::allow_in_spec]
pub fn fp_vector_from_signed_fixed(esize: usize) -> Opcode
    requires
        esize == 32 || esize == 64,
    returns
        (if esize == 32 {
            Opcode::FPVectorFromSignedFixed32
        } else {
            Opcode::FPVectorFromSignedFixed64
        }),
{
    match esize {
        32 => Opcode::FPVectorFromSignedFixed32,
        _ => Opcode::FPVectorFromSignedFixed64,
    }
}

/// The operation for the floating-point lanes from unsigned fixed-point lanes with lanes of
/// `esize` bits.
#[verifier::allow_in_spec]
pub fn fp_vector_from_unsigned_fixed(esize: usize) -> Opcode
    requires
        esize == 32 || esize == 64,
    returns
        (if esize == 32 {
            Opcode::FPVectorFromUnsignedFixed32
        } else {
            Opcode::FPVectorFromUnsignedFixed64
        }),
{
    match esize {
        32 => Opcode::FPVectorFromUnsignedFixed32,
        _ => Opcode::FPVectorFromUnsignedFixed64,
    }
}

/// The operation for the signed fixed-point lanes from floating-point lanes with lanes of
/// `esize` bits.
#[verifier::allow_in_spec]
pub fn fp_vector_to_signed_fixed(esize: usize) -> Opcode
    requires
        esize == 16 || esize == 32 || esize == 64,
    returns
        (if esize == 16 {
            Opcode::FPVectorToSignedFixed16
        } else if esize == 32 {
            Opcode::FPVectorToSignedFixed32
        } else {
            Opcode::FPVectorToSignedFixed64
        }),
{
    match esize {
        16 => Opcode::FPVectorToSignedFixed16,
        32 => Opcode::FPVectorToSignedFixed32,
        _ => Opcode::FPVectorToSignedFixed64,
    }
}

/// The operation for the unsigned fixed-point lanes from floating-point lanes with lanes of
/// `esize` bits.
#[verifier::allow_in_spec]
pub fn fp_vector_to_unsigned_fixed(esize: usize) -> Opcode
    requires
        esize == 16 || esize == 32 || esize == 64,
    returns
        (if esize == 16 {
            Opcode::FPVectorToUnsignedFixed16
        } else if esize == 32 {
            Opcode::FPVectorToUnsignedFixed32
        } else {
            Opcode::FPVectorToUnsignedFixed64
        }),
{
    match esize {
        16 => Opcode::FPVectorToUnsignedFixed16,
        32 => Opcode::FPVectorToUnsignedFixed32,
        _ => Opcode::FPVectorToUnsignedFixed64,
    }
}

} // verus!
