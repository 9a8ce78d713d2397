//! Vectors as lanes of numbers.

use vstd::prelude::*;
use vstd::arithmetic::power2::pow2;
use crate::ir::opcode::Opcode;

verus! {

/// A vector: lane `i` of `e` bits is the number `lane(e, i)`. Lanes are
/// numbered from the low end.
pub struct Vector {
    pub lane: spec_fn(int, int) -> int,
}

/// The number of values that a lane of `e` bits can hold.
pub open spec fn span(e: int) -> int {
    if e == 8 {
        0x100
    } else if e == 16 {
        0x1_0000
    } else if e == 32 {
        0x1_0000_0000
    } else if e == 64 {
        0x1_0000_0000_0000_0000
    } else {
        pow2(e as nat) as int
    }
}

/// Half the number of values that a lane of `e` bits can hold.
pub open spec fn half(e: int) -> int {
    span(e) / 2
}

/// A number modulo the size of a lane.
pub open spec fn wrapped(x: int, e: int) -> int {
    x % span(e)
}

/// The number that a lane holds in two's complement.
pub open spec fn signed(x: int, e: int) -> int {
    if x < half(e) {
        x
    } else {
        x - span(e)
    }
}

/// The number nearest to `x` between two bounds.
pub open spec fn clamped(x: int, low: int, high: int) -> int {
    if x < low {
        low
    } else if x > high {
        high
    } else {
        x
    }
}

/// A number without its sign.
pub open spec fn absolute(x: int) -> int {
    if x < 0 {
        -x
    } else {
        x
    }
}

/// A lane all of whose bits are as `x` says.
pub open spec fn mask(x: bool, e: int) -> int {
    if x {
        span(e) - 1
    } else {
        0
    }
}

/// A number moved by `n` places to the left, or to the right if `n` is
/// negative.
pub open spec fn moved(x: int, n: int) -> int {
    if n >= 0 {
        x * pow2(n as nat)
    } else {
        x / (pow2((-n) as nat) as int)
    }
}

/// A number moved by `n` places, rounded to the nearest.
pub open spec fn moved_rounding(x: int, n: int) -> int {
    if n >= 0 {
        x * pow2(n as nat)
    } else {
        (x + pow2((-n - 1) as nat)) / (pow2((-n) as nat) as int)
    }
}

/// An operation on two lanes of integers.
pub enum LaneOp {
    Add,
    Sub,
    Multiply,
    Equal,
    GreaterS,
    MaxS,
    MaxU,
    MinS,
    MinU,
    HalvingAddS,
    HalvingAddU,
    HalvingSubS,
    HalvingSubU,
    RoundingHalvingAddS,
    RoundingHalvingAddU,
    SignedAbsoluteDifference,
    UnsignedAbsoluteDifference,
    SignedSaturatedAdd,
    UnsignedSaturatedAdd,
    SignedSaturatedSub,
    UnsignedSaturatedSub,
    SignedSaturatedDoublingMultiplyHigh,
    SignedSaturatedDoublingMultiplyHighRounding,
    ArithmeticVShift,
    LogicalVShift,
    RoundingShiftLeftS,
    RoundingShiftLeftU,
    SignedSaturatedShiftLeft,
    UnsignedSaturatedShiftLeft,
    SignedSaturatedShiftLeftUnsigned,
}

/// A shift of lanes by a constant.
pub enum LaneShift {
    ArithmeticShiftRight,
    LogicalShiftRight,
    LogicalShiftLeft,
}

/// An operation on one, two or three lanes of floating-point numbers.
pub enum FloatLane {
    Add,
    Sub,
    Mul,
    Max,
    Min,
    Equal,
    Greater,
    GreaterEqual,
    RecipStepFused,
    RSqrtStepFused,
    Abs,
    Neg,
    RecipEstimate,
    RSqrtEstimate,
    MulAdd,
}

/// The result of an operation on two lanes.
pub open spec fn combined(op: LaneOp, e: int, x: int, y: int) -> int {
    let (sx, sy) = (signed(x, e), signed(y, e));
    let n = signed(y % 256, 8);
    let (low, high) = (-half(e), half(e) - 1);
    match op {
        LaneOp::Add => wrapped(x + y, e),
        LaneOp::Sub => wrapped(x - y, e),
        LaneOp::Multiply => wrapped(x * y, e),
        LaneOp::Equal => mask(x == y, e),
        LaneOp::GreaterS => mask(sx > sy, e),
        LaneOp::MaxS => if sx > sy { x } else { y },
        LaneOp::MaxU => if x > y { x } else { y },
        LaneOp::MinS => if sx < sy { x } else { y },
        LaneOp::MinU => if x < y { x } else { y },
        LaneOp::HalvingAddS => wrapped((sx + sy) / 2, e),
        LaneOp::HalvingAddU => (x + y) / 2,
        LaneOp::HalvingSubS => wrapped((sx - sy) / 2, e),
        LaneOp::HalvingSubU => wrapped((x - y) / 2, e),
        LaneOp::RoundingHalvingAddS => wrapped((sx + sy + 1) / 2, e),
        LaneOp::RoundingHalvingAddU => (x + y + 1) / 2,
        LaneOp::SignedAbsoluteDifference => wrapped(absolute(sx - sy), e),
        LaneOp::UnsignedAbsoluteDifference => absolute(x - y),
        LaneOp::SignedSaturatedAdd => wrapped(clamped(sx + sy, low, high), e),
        LaneOp::UnsignedSaturatedAdd => clamped(x + y, 0, span(e) - 1),
        LaneOp::SignedSaturatedSub => wrapped(clamped(sx - sy, low, high), e),
        LaneOp::UnsignedSaturatedSub => clamped(x - y, 0, span(e) - 1),
        LaneOp::SignedSaturatedDoublingMultiplyHigh => wrapped(
            clamped((2 * sx * sy) / span(e), low, high),
            e,
        ),
        LaneOp::SignedSaturatedDoublingMultiplyHighRounding => wrapped(
            clamped((2 * sx * sy + half(e)) / span(e), low, high),
            e,
        ),
        LaneOp::ArithmeticVShift => wrapped(moved(sx, n), e),
        LaneOp::LogicalVShift => wrapped(moved(x, n), e),
        LaneOp::RoundingShiftLeftS => wrapped(moved_rounding(sx, n), e),
        LaneOp::RoundingShiftLeftU => wrapped(moved_rounding(x, n), e),
        LaneOp::SignedSaturatedShiftLeft => wrapped(clamped(moved(sx, n), low, high), e),
        LaneOp::UnsignedSaturatedShiftLeft => clamped(moved(x, n), 0, span(e) - 1),
        LaneOp::SignedSaturatedShiftLeftUnsigned => clamped(moved(sx, n), 0, span(e) - 1),
    }
}

/// The result of a shift of a lane by `n` places.
pub open spec fn shifted_lane(op: LaneShift, e: int, x: int, n: int) -> int {
    match op {
        LaneShift::ArithmeticShiftRight => wrapped(moved(signed(x, e), -n), e),
        LaneShift::LogicalShiftRight => moved(x, -n),
        LaneShift::LogicalShiftLeft => wrapped(moved(x, n), e),
    }
}

/// The lane-wise operation on integers that an operation stands for.
pub open spec fn lane_op(opcode: Opcode) -> Option<(LaneOp, int)> {
    match opcode {
        Opcode::VectorAdd8 => Some((LaneOp::Add, 8)),
        Opcode::VectorAdd16 => Some((LaneOp::Add, 16)),
        Opcode::VectorAdd32 => Some((LaneOp::Add, 32)),
        Opcode::VectorAdd64 => Some((LaneOp::Add, 64)),
        Opcode::VectorSub8 => Some((LaneOp::Sub, 8)),
        Opcode::VectorSub16 => Some((LaneOp::Sub, 16)),
        Opcode::VectorSub32 => Some((LaneOp::Sub, 32)),
        Opcode::VectorSub64 => Some((LaneOp::Sub, 64)),
        Opcode::VectorMultiply8 => Some((LaneOp::Multiply, 8)),
        Opcode::VectorMultiply16 => Some((LaneOp::Multiply, 16)),
        Opcode::VectorMultiply32 => Some((LaneOp::Multiply, 32)),
        Opcode::VectorMultiply64 => Some((LaneOp::Multiply, 64)),
        Opcode::VectorEqual8 => Some((LaneOp::Equal, 8)),
        Opcode::VectorEqual16 => Some((LaneOp::Equal, 16)),
        Opcode::VectorEqual32 => Some((LaneOp::Equal, 32)),
        Opcode::VectorEqual64 => Some((LaneOp::Equal, 64)),
        Opcode::VectorGreaterS8 => Some((LaneOp::GreaterS, 8)),
        Opcode::VectorGreaterS16 => Some((LaneOp::GreaterS, 16)),
        Opcode::VectorGreaterS32 => Some((LaneOp::GreaterS, 32)),
        Opcode::VectorGreaterS64 => Some((LaneOp::GreaterS, 64)),
        Opcode::VectorMaxS8 => Some((LaneOp::MaxS, 8)),
        Opcode::VectorMaxS16 => Some((LaneOp::MaxS, 16)),
        Opcode::VectorMaxS32 => Some((LaneOp::MaxS, 32)),
        Opcode::VectorMaxS64 => Some((LaneOp::MaxS, 64)),
        Opcode::VectorMaxU8 => Some((LaneOp::MaxU, 8)),
        Opcode::VectorMaxU16 => Some((LaneOp::MaxU, 16)),
        Opcode::VectorMaxU32 => Some((LaneOp::MaxU, 32)),
        Opcode::VectorMaxU64 => Some((LaneOp::MaxU, 64)),
        Opcode::VectorMinS8 => Some((LaneOp::MinS, 8)),
        Opcode::VectorMinS16 => Some((LaneOp::MinS, 16)),
        Opcode::VectorMinS32 => Some((LaneOp::MinS, 32)),
        Opcode::VectorMinS64 => Some((LaneOp::MinS, 64)),
        Opcode::VectorMinU8 => Some((LaneOp::MinU, 8)),
        Opcode::VectorMinU16 => Some((LaneOp::MinU, 16)),
        Opcode::VectorMinU32 => Some((LaneOp::MinU, 32)),
        Opcode::VectorMinU64 => Some((LaneOp::MinU, 64)),
        Opcode::VectorHalvingAddS8 => Some((LaneOp::HalvingAddS, 8)),
        Opcode::VectorHalvingAddS16 => Some((LaneOp::HalvingAddS, 16)),
        Opcode::VectorHalvingAddS32 => Some((LaneOp::HalvingAddS, 32)),
        Opcode::VectorHalvingAddU8 => Some((LaneOp::HalvingAddU, 8)),
        Opcode::VectorHalvingAddU16 => Some((LaneOp::HalvingAddU, 16)),
        Opcode::VectorHalvingAddU32 => Some((LaneOp::HalvingAddU, 32)),
        Opcode::VectorHalvingSubS8 => Some((LaneOp::HalvingSubS, 8)),
        Opcode::VectorHalvingSubS16 => Some((LaneOp::HalvingSubS, 16)),
        Opcode::VectorHalvingSubS32 => Some((LaneOp::HalvingSubS, 32)),
        Opcode::VectorHalvingSubU8 => Some((LaneOp::HalvingSubU, 8)),
        Opcode::VectorHalvingSubU16 => Some((LaneOp::HalvingSubU, 16)),
        Opcode::VectorHalvingSubU32 => Some((LaneOp::HalvingSubU, 32)),
        Opcode::VectorRoundingHalvingAddS8 => Some((LaneOp::RoundingHalvingAddS, 8)),
        Opcode::VectorRoundingHalvingAddS16 => Some((LaneOp::RoundingHalvingAddS, 16)),
        Opcode::VectorRoundingHalvingAddS32 => Some((LaneOp::RoundingHalvingAddS, 32)),
        Opcode::VectorRoundingHalvingAddU8 => Some((LaneOp::RoundingHalvingAddU, 8)),
        Opcode::VectorRoundingHalvingAddU16 => Some((LaneOp::RoundingHalvingAddU, 16)),
        Opcode::VectorRoundingHalvingAddU32 => Some((LaneOp::RoundingHalvingAddU, 32)),
        Opcode::VectorSignedAbsoluteDifference8 => Some((LaneOp::SignedAbsoluteDifference, 8)),
        Opcode::VectorSignedAbsoluteDifference16 => Some((LaneOp::SignedAbsoluteDifference, 16)),
        Opcode::VectorSignedAbsoluteDifference32 => Some((LaneOp::SignedAbsoluteDifference, 32)),
        Opcode::VectorUnsignedAbsoluteDifference8 => Some((LaneOp::UnsignedAbsoluteDifference, 8)),
        Opcode::VectorUnsignedAbsoluteDifference16 => Some(
            (LaneOp::UnsignedAbsoluteDifference, 16),
        ),
        Opcode::VectorUnsignedAbsoluteDifference32 => Some(
            (LaneOp::UnsignedAbsoluteDifference, 32),
        ),
        Opcode::VectorSignedSaturatedAdd8 => Some((LaneOp::SignedSaturatedAdd, 8)),
        Opcode::VectorSignedSaturatedAdd16 => Some((LaneOp::SignedSaturatedAdd, 16)),
        Opcode::VectorSignedSaturatedAdd32 => Some((LaneOp::SignedSaturatedAdd, 32)),
        Opcode::VectorSignedSaturatedAdd64 => Some((LaneOp::SignedSaturatedAdd, 64)),
        Opcode::VectorUnsignedSaturatedAdd8 => Some((LaneOp::UnsignedSaturatedAdd, 8)),
        Opcode::VectorUnsignedSaturatedAdd16 => Some((LaneOp::UnsignedSaturatedAdd, 16)),
        Opcode::VectorUnsignedSaturatedAdd32 => Some((LaneOp::UnsignedSaturatedAdd, 32)),
        Opcode::VectorUnsignedSaturatedAdd64 => Some((LaneOp::UnsignedSaturatedAdd, 64)),
        Opcode::VectorSignedSaturatedSub8 => Some((LaneOp::SignedSaturatedSub, 8)),
        Opcode::VectorSignedSaturatedSub16 => Some((LaneOp::SignedSaturatedSub, 16)),
        Opcode::VectorSignedSaturatedSub32 => Some((LaneOp::SignedSaturatedSub, 32)),
        Opcode::VectorSignedSaturatedSub64 => Some((LaneOp::SignedSaturatedSub, 64)),
        Opcode::VectorUnsignedSaturatedSub8 => Some((LaneOp::UnsignedSaturatedSub, 8)),
        Opcode::VectorUnsignedSaturatedSub16 => Some((LaneOp::UnsignedSaturatedSub, 16)),
        Opcode::VectorUnsignedSaturatedSub32 => Some((LaneOp::UnsignedSaturatedSub, 32)),
        Opcode::VectorUnsignedSaturatedSub64 => Some((LaneOp::UnsignedSaturatedSub, 64)),
        Opcode::VectorSignedSaturatedDoublingMultiplyHigh16 => Some(
            (LaneOp::SignedSaturatedDoublingMultiplyHigh, 16),
        ),
        Opcode::VectorSignedSaturatedDoublingMultiplyHigh32 => Some(
            (LaneOp::SignedSaturatedDoublingMultiplyHigh, 32),
        ),
        Opcode::VectorSignedSaturatedDoublingMultiplyHighRounding16 => Some(
            (LaneOp::SignedSaturatedDoublingMultiplyHighRounding, 16),
        ),
        Opcode::VectorSignedSaturatedDoublingMultiplyHighRounding32 => Some(
            (LaneOp::SignedSaturatedDoublingMultiplyHighRounding, 32),
        ),
        Opcode::VectorArithmeticVShift8 => Some((LaneOp::ArithmeticVShift, 8)),
        Opcode::VectorArithmeticVShift16 => Some((LaneOp::ArithmeticVShift, 16)),
        Opcode::VectorArithmeticVShift32 => Some((LaneOp::ArithmeticVShift, 32)),
        Opcode::VectorArithmeticVShift64 => Some((LaneOp::ArithmeticVShift, 64)),
        Opcode::VectorLogicalVShift8 => Some((LaneOp::LogicalVShift, 8)),
        Opcode::VectorLogicalVShift16 => Some((LaneOp::LogicalVShift, 16)),
        Opcode::VectorLogicalVShift32 => Some((LaneOp::LogicalVShift, 32)),
        Opcode::VectorLogicalVShift64 => Some((LaneOp::LogicalVShift, 64)),
        Opcode::VectorRoundingShiftLeftS8 => Some((LaneOp::RoundingShiftLeftS, 8)),
        Opcode::VectorRoundingShiftLeftS16 => Some((LaneOp::RoundingShiftLeftS, 16)),
        Opcode::VectorRoundingShiftLeftS32 => Some((LaneOp::RoundingShiftLeftS, 32)),
        Opcode::VectorRoundingShiftLeftS64 => Some((LaneOp::RoundingShiftLeftS, 64)),
        Opcode::VectorRoundingShiftLeftU8 => Some((LaneOp::RoundingShiftLeftU, 8)),
        Opcode::VectorRoundingShiftLeftU16 => Some((LaneOp::RoundingShiftLeftU, 16)),
        Opcode::VectorRoundingShiftLeftU32 => Some((LaneOp::RoundingShiftLeftU, 32)),
        Opcode::VectorRoundingShiftLeftU64 => Some((LaneOp::RoundingShiftLeftU, 64)),
        Opcode::VectorSignedSaturatedShiftLeft8 => Some((LaneOp::SignedSaturatedShiftLeft, 8)),
        Opcode::VectorSignedSaturatedShiftLeft16 => Some((LaneOp::SignedSaturatedShiftLeft, 16)),
        Opcode::VectorSignedSaturatedShiftLeft32 => Some((LaneOp::SignedSaturatedShiftLeft, 32)),
        Opcode::VectorSignedSaturatedShiftLeft64 => Some((LaneOp::SignedSaturatedShiftLeft, 64)),
        Opcode::VectorUnsignedSaturatedShiftLeft8 => Some((LaneOp::UnsignedSaturatedShiftLeft, 8)),
        Opcode::VectorUnsignedSaturatedShiftLeft16 => Some(
            (LaneOp::UnsignedSaturatedShiftLeft, 16),
        ),
        Opcode::VectorUnsignedSaturatedShiftLeft32 => Some(
            (LaneOp::UnsignedSaturatedShiftLeft, 32),
        ),
        Opcode::VectorUnsignedSaturatedShiftLeft64 => Some(
            (LaneOp::UnsignedSaturatedShiftLeft, 64),
        ),
        Opcode::VectorSignedSaturatedShiftLeftUnsigned8 => Some(
            (LaneOp::SignedSaturatedShiftLeftUnsigned, 8),
        ),
        Opcode::VectorSignedSaturatedShiftLeftUnsigned16 => Some(
            (LaneOp::SignedSaturatedShiftLeftUnsigned, 16),
        ),
        Opcode::VectorSignedSaturatedShiftLeftUnsigned32 => Some(
            (LaneOp::SignedSaturatedShiftLeftUnsigned, 32),
        ),
        Opcode::VectorSignedSaturatedShiftLeftUnsigned64 => Some(
            (LaneOp::SignedSaturatedShiftLeftUnsigned, 64),
        ),
        _ => None,
    }
}

/// The lane-wise shift that an operation stands for.
pub open spec fn lane_shift(opcode: Opcode) -> Option<(LaneShift, int)> {
    match opcode {
        Opcode::VectorArithmeticShiftRight8 => Some((LaneShift::ArithmeticShiftRight, 8)),
        Opcode::VectorArithmeticShiftRight16 => Some((LaneShift::ArithmeticShiftRight, 16)),
        Opcode::VectorArithmeticShiftRight32 => Some((LaneShift::ArithmeticShiftRight, 32)),
        Opcode::VectorArithmeticShiftRight64 => Some((LaneShift::ArithmeticShiftRight, 64)),
        Opcode::VectorLogicalShiftRight8 => Some((LaneShift::LogicalShiftRight, 8)),
        Opcode::VectorLogicalShiftRight16 => Some((LaneShift::LogicalShiftRight, 16)),
        Opcode::VectorLogicalShiftRight32 => Some((LaneShift::LogicalShiftRight, 32)),
        Opcode::VectorLogicalShiftRight64 => Some((LaneShift::LogicalShiftRight, 64)),
        Opcode::VectorLogicalShiftLeft8 => Some((LaneShift::LogicalShiftLeft, 8)),
        Opcode::VectorLogicalShiftLeft16 => Some((LaneShift::LogicalShiftLeft, 16)),
        Opcode::VectorLogicalShiftLeft32 => Some((LaneShift::LogicalShiftLeft, 32)),
        Opcode::VectorLogicalShiftLeft64 => Some((LaneShift::LogicalShiftLeft, 64)),
        _ => None,
    }
}

/// The lane-wise operation on two numbers that an operation stands for.
pub open spec fn float_pair(opcode: Opcode) -> Option<(FloatLane, int)> {
    match opcode {
        Opcode::FPVectorAdd32 => Some((FloatLane::Add, 32)),
        Opcode::FPVectorAdd64 => Some((FloatLane::Add, 64)),
        Opcode::FPVectorSub32 => Some((FloatLane::Sub, 32)),
        Opcode::FPVectorSub64 => Some((FloatLane::Sub, 64)),
        Opcode::FPVectorMul32 => Some((FloatLane::Mul, 32)),
        Opcode::FPVectorMul64 => Some((FloatLane::Mul, 64)),
        Opcode::FPVectorMax32 => Some((FloatLane::Max, 32)),
        Opcode::FPVectorMax64 => Some((FloatLane::Max, 64)),
        Opcode::FPVectorMin32 => Some((FloatLane::Min, 32)),
        Opcode::FPVectorMin64 => Some((FloatLane::Min, 64)),
        Opcode::FPVectorEqual16 => Some((FloatLane::Equal, 16)),
        Opcode::FPVectorEqual32 => Some((FloatLane::Equal, 32)),
        Opcode::FPVectorEqual64 => Some((FloatLane::Equal, 64)),
        Opcode::FPVectorGreater32 => Some((FloatLane::Greater, 32)),
        Opcode::FPVectorGreater64 => Some((FloatLane::Greater, 64)),
        Opcode::FPVectorGreaterEqual32 => Some((FloatLane::GreaterEqual, 32)),
        Opcode::FPVectorGreaterEqual64 => Some((FloatLane::GreaterEqual, 64)),
        Opcode::FPVectorRecipStepFused16 => Some((FloatLane::RecipStepFused, 16)),
        Opcode::FPVectorRecipStepFused32 => Some((FloatLane::RecipStepFused, 32)),
        Opcode::FPVectorRecipStepFused64 => Some((FloatLane::RecipStepFused, 64)),
        Opcode::FPVectorRSqrtStepFused16 => Some((FloatLane::RSqrtStepFused, 16)),
        Opcode::FPVectorRSqrtStepFused32 => Some((FloatLane::RSqrtStepFused, 32)),
        Opcode::FPVectorRSqrtStepFused64 => Some((FloatLane::RSqrtStepFused, 64)),
        _ => None,
    }
}

/// The lane-wise operation on one number that an operation stands for.
pub open spec fn float_single(opcode: Opcode) -> Option<(FloatLane, int)> {
    match opcode {
        Opcode::FPVectorAbs16 => Some((FloatLane::Abs, 16)),
        Opcode::FPVectorAbs32 => Some((FloatLane::Abs, 32)),
        Opcode::FPVectorAbs64 => Some((FloatLane::Abs, 64)),
        Opcode::FPVectorNeg16 => Some((FloatLane::Neg, 16)),
        Opcode::FPVectorNeg32 => Some((FloatLane::Neg, 32)),
        Opcode::FPVectorNeg64 => Some((FloatLane::Neg, 64)),
        Opcode::FPVectorRecipEstimate16 => Some((FloatLane::RecipEstimate, 16)),
        Opcode::FPVectorRecipEstimate32 => Some((FloatLane::RecipEstimate, 32)),
        Opcode::FPVectorRecipEstimate64 => Some((FloatLane::RecipEstimate, 64)),
        Opcode::FPVectorRSqrtEstimate16 => Some((FloatLane::RSqrtEstimate, 16)),
        Opcode::FPVectorRSqrtEstimate32 => Some((FloatLane::RSqrtEstimate, 32)),
        Opcode::FPVectorRSqrtEstimate64 => Some((FloatLane::RSqrtEstimate, 64)),
        _ => None,
    }
}

/// A vector with lanes of `e` bits. Lanes of other sizes are left open.
pub open spec fn of_lanes(e: int, f: spec_fn(int) -> int) -> Vector {
    Vector {
        lane: |k: int, i: int|
            if k == e {
                f(i)
            } else {
                arbitrary()
            },
    }
}

/// The vector that holds nothing but zeros.
pub open spec fn zero_vector() -> Vector {
    Vector { lane: |k: int, i: int| 0 }
}

/// The bits that two vectors have in common, either has, or just one has; or
/// that the first has and not the second.
pub open spec fn bitwise(opcode: Opcode, a: Vector, b: Vector) -> Vector {
    Vector {
        lane: |k: int, i: int|
            {
                let (x, y) = ((a.lane)(k, i) as u64, (b.lane)(k, i) as u64);
                match opcode {
                    Opcode::VectorAnd => (x & y) as int,
                    Opcode::VectorAndNot => (x & !y) as int,
                    Opcode::VectorOr => (x | y) as int,
                    _ => (x ^ y) as int,
                }
            },
    }
}

/// The bits that a vector does not have.
pub open spec fn complement(a: Vector) -> Vector {
    Vector { lane: |k: int, i: int| span(k) - 1 - (a.lane)(k, i) }
}

/// The lanes of `from` bits of a vector as lanes of `to` bits.
pub open spec fn resized(from: int, to: int, f: spec_fn(int) -> int, a: Vector) -> Vector {
    of_lanes(to, |i: int| if i < 128int / to { f((a.lane)(from, i)) } else { 0 })
}

/// The lanes of two vectors combined in lanes of twice the size.
pub open spec fn widened_pair(e: int, f: spec_fn(int, int) -> int, a: Vector, b: Vector) -> Vector {
    of_lanes(2 * e, |i: int| f((a.lane)(e, i), (b.lane)(e, i)))
}

/// Lane `i` of the low half of `a`, followed by the low half of `b`.
pub open spec fn joined_low(e: int, a: Vector, b: Vector, i: int) -> int {
    if i < 64int / e {
        (a.lane)(e, i)
    } else {
        (b.lane)(e, i - 64int / e)
    }
}

/// Neighbouring lanes of the low halves of two vectors, combined.
pub open spec fn paired(e: int, f: spec_fn(int, int) -> int, a: Vector, b: Vector) -> Vector {
    of_lanes(
        e,
        |i: int|
            if i < 64int / e {
                f(joined_low(e, a, b, 2 * i), joined_low(e, a, b, 2 * i + 1))
            } else {
                0
            },
    )
}

/// Every second lane of `a` followed by `b`, from lane `first` on.
pub open spec fn deinterleaved(e: int, first: int, a: Vector, b: Vector) -> Vector {
    of_lanes(
        e,
        |i: int|
            if 2 * i < 128int / e {
                (a.lane)(e, 2 * i + first)
            } else {
                (b.lane)(e, 2 * i + first - 128int / e)
            },
    )
}

/// The lanes of `a` and `b` in turn, from lane `first` on.
pub open spec fn interleaved(e: int, first: int, a: Vector, b: Vector) -> Vector {
    of_lanes(
        e,
        |i: int|
            if i % 2 == 0 {
                (a.lane)(e, first + i / 2)
            } else {
                (b.lane)(e, first + i / 2)
            },
    )
}

/// The lanes of `a` and `b` in turn, the even ones for `part` 0, else the odd
/// ones.
pub open spec fn transposed(e: int, part: int, a: Vector, b: Vector) -> Vector {
    of_lanes(
        e,
        |i: int|
            if i % 2 == 0 {
                (a.lane)(e, i + part)
            } else {
                (b.lane)(e, i - 1 + part)
            },
    )
}

/// The lane-wise product of `b` and `c` added to `a`, rounded once.
pub open spec fn fused(
    float: spec_fn(FloatLane, int, int, int, int) -> int,
    a: Vector,
    b: Vector,
    c: Vector,
) -> Vector {
    of_lanes(
        32,
        |i: int|
            float(FloatLane::MulAdd, 32, (a.lane)(32, i), (b.lane)(32, i), (c.lane)(32, i)),
    )
}

/// What an operation on two vectors gives.
#[verifier::opaque]
pub open spec fn pair_result(
    opcode: Opcode,
    a: Vector,
    b: Vector,
    float: spec_fn(FloatLane, int, int, int, int) -> int,
) -> Vector {
    match lane_op(opcode) {
        Some((op, e)) => of_lanes(e, |i: int| combined(op, e, (a.lane)(e, i), (b.lane)(e, i))),
        None => match float_pair(opcode) {
            Some((op, e)) => of_lanes(
                e,
                |i: int| float(op, e, (a.lane)(e, i), (b.lane)(e, i), 0),
            ),
            None => arrangement(opcode, a, b, float),
        },
    }
}

/// What an operation on two vectors gives that is not lane by lane.
pub open spec fn arrangement(
    opcode: Opcode,
    a: Vector,
    b: Vector,
    float: spec_fn(FloatLane, int, int, int, int) -> int,
) -> Vector {
    match opcode {
        Opcode::VectorMultiplySignedWiden8 => widened_pair(
            8,
            |x: int,
            y: int| wrapped(signed(x, 8) * signed(y, 8), 16),
            a,
            b,
        ),
        Opcode::VectorMultiplySignedWiden16 => widened_pair(
            16,
            |x: int,
            y: int| wrapped(signed(x, 16) * signed(y, 16), 32),
            a,
            b,
        ),
        Opcode::VectorMultiplySignedWiden32 => widened_pair(
            32,
            |x: int,
            y: int| wrapped(signed(x, 32) * signed(y, 32), 64),
            a,
            b,
        ),
        Opcode::VectorMultiplyUnsignedWiden8 => widened_pair(
            8,
            |x: int,
            y: int| wrapped(x * y, 16),
            a,
            b,
        ),
        Opcode::VectorMultiplyUnsignedWiden16 => widened_pair(
            16,
            |x: int,
            y: int| wrapped(x * y, 32),
            a,
            b,
        ),
        Opcode::VectorMultiplyUnsignedWiden32 => widened_pair(
            32,
            |x: int,
            y: int| wrapped(x * y, 64),
            a,
            b,
        ),
        Opcode::VectorPairedAdd8 => paired(8, |x: int, y: int| wrapped(x + y, 8), a, b),
        Opcode::VectorPairedAdd16 => paired(16, |x: int, y: int| wrapped(x + y, 16), a, b),
        Opcode::VectorPairedAdd32 => paired(32, |x: int, y: int| wrapped(x + y, 32), a, b),
        Opcode::VectorPairedAdd64 => paired(64, |x: int, y: int| wrapped(x + y, 64), a, b),
        Opcode::VectorDeinterleaveEvenLower8 => paired(8, |x: int, y: int| x, a, b),
        Opcode::VectorDeinterleaveEvenLower16 => paired(16, |x: int, y: int| x, a, b),
        Opcode::VectorDeinterleaveEvenLower32 => paired(32, |x: int, y: int| x, a, b),
        Opcode::VectorDeinterleaveOddLower8 => paired(8, |x: int, y: int| y, a, b),
        Opcode::VectorDeinterleaveOddLower16 => paired(16, |x: int, y: int| y, a, b),
        Opcode::VectorDeinterleaveOddLower32 => paired(32, |x: int, y: int| y, a, b),
        Opcode::VectorDeinterleaveEven8 => deinterleaved(8, 0, a, b),
        Opcode::VectorDeinterleaveEven16 => deinterleaved(16, 0, a, b),
        Opcode::VectorDeinterleaveEven32 => deinterleaved(32, 0, a, b),
        Opcode::VectorDeinterleaveEven64 => deinterleaved(64, 0, a, b),
        Opcode::VectorDeinterleaveOdd8 => deinterleaved(8, 1, a, b),
        Opcode::VectorDeinterleaveOdd16 => deinterleaved(16, 1, a, b),
        Opcode::VectorDeinterleaveOdd32 => deinterleaved(32, 1, a, b),
        Opcode::VectorDeinterleaveOdd64 => deinterleaved(64, 1, a, b),
        Opcode::VectorInterleaveLower8 => interleaved(8, 0, a, b),
        Opcode::VectorInterleaveLower16 => interleaved(16, 0, a, b),
        Opcode::VectorInterleaveLower32 => interleaved(32, 0, a, b),
        Opcode::VectorInterleaveLower64 => interleaved(64, 0, a, b),
        Opcode::VectorInterleaveUpper8 => interleaved(8, 8, a, b),
        Opcode::VectorInterleaveUpper16 => interleaved(16, 4, a, b),
        Opcode::VectorInterleaveUpper32 => interleaved(32, 2, a, b),
        Opcode::VectorInterleaveUpper64 => interleaved(64, 1, a, b),
        Opcode::FPVectorPairedAddLower32 => paired(
            32,
            |x: int, y: int| float(FloatLane::Add, 32, x, y, 0),
            a,
            b,
        ),
        _ => bitwise(opcode, a, b),
    }
}

/// What an operation on one vector gives.
#[verifier::opaque]
pub open spec fn single_result(
    opcode: Opcode,
    a: Vector,
    float: spec_fn(FloatLane, int, int, int, int) -> int,
) -> Vector {
    match float_single(opcode) {
        Some((op, e)) => of_lanes(e, |i: int| float(op, e, (a.lane)(e, i), 0, 0)),
        None => match opcode {
            Opcode::ZeroVector => zero_vector(),
            Opcode::VectorNot => complement(a),
        Opcode::VectorAbs8 => of_lanes(8, |i: int| wrapped(absolute(signed((a.lane)(8, i), 8)), 8)),
        Opcode::VectorAbs16 => of_lanes(
            16,
            |i: int| wrapped(absolute(signed((a.lane)(16, i), 16)), 16),
        ),
        Opcode::VectorAbs32 => of_lanes(
            32,
            |i: int| wrapped(absolute(signed((a.lane)(32, i), 32)), 32),
        ),
        Opcode::VectorAbs64 => of_lanes(
            64,
            |i: int| wrapped(absolute(signed((a.lane)(64, i), 64)), 64),
        ),
        Opcode::VectorSignExtend8 => resized(8, 16, |x: int| wrapped(signed(x, 8), 16), a),
        Opcode::VectorSignExtend16 => resized(16, 32, |x: int| wrapped(signed(x, 16), 32), a),
        Opcode::VectorSignExtend32 => resized(32, 64, |x: int| wrapped(signed(x, 32), 64), a),
        Opcode::VectorSignExtend64 => resized(64, 128, |x: int| wrapped(signed(x, 64), 128), a),
        Opcode::VectorZeroExtend8 => resized(8, 16, |x: int| wrapped(x, 16), a),
        Opcode::VectorZeroExtend16 => resized(16, 32, |x: int| wrapped(x, 32), a),
        Opcode::VectorZeroExtend32 => resized(32, 64, |x: int| wrapped(x, 64), a),
        Opcode::VectorZeroExtend64 => resized(64, 128, |x: int| wrapped(x, 128), a),
        Opcode::VectorNarrow16 => resized(16, 8, |x: int| wrapped(x, 8), a),
        Opcode::VectorNarrow32 => resized(32, 16, |x: int| wrapped(x, 16), a),
        Opcode::VectorNarrow64 => resized(64, 32, |x: int| wrapped(x, 32), a),
        Opcode::VectorSignedSaturatedNarrowToSigned16 => resized(
            16,
            8,
            |x: int| wrapped(clamped(signed(x, 16), -half(8), half(8) - 1), 8),
            a,
        ),
        Opcode::VectorSignedSaturatedNarrowToSigned32 => resized(
            32,
            16,
            |x: int| wrapped(clamped(signed(x, 32), -half(16), half(16) - 1), 16),
            a,
        ),
        Opcode::VectorSignedSaturatedNarrowToSigned64 => resized(
            64,
            32,
            |x: int| wrapped(clamped(signed(x, 64), -half(32), half(32) - 1), 32),
            a,
        ),
        Opcode::VectorUnsignedSaturatedNarrow16 => resized(
            16,
            8,
            |x: int| clamped(x, 0, span(8) - 1),
            a,
        ),
        Opcode::VectorUnsignedSaturatedNarrow32 => resized(
            32,
            16,
            |x: int| clamped(x, 0, span(16) - 1),
            a,
        ),
        Opcode::VectorUnsignedSaturatedNarrow64 => resized(
            64,
            32,
            |x: int| clamped(x, 0, span(32) - 1),
            a,
        ),
            _ => arbitrary(),
        },
    }
}

/// What a shift of a vector by a constant gives.
#[verifier::opaque]
pub open spec fn shift_result(opcode: Opcode, a: Vector, n: int) -> Vector {
    match lane_shift(opcode) {
        Some((op, e)) => of_lanes(e, |i: int| shifted_lane(op, e, (a.lane)(e, i), n)),
        None => arbitrary(),
    }
}

/// What transposing two vectors gives.
#[verifier::opaque]
pub open spec fn transpose_result(opcode: Opcode, a: Vector, b: Vector, part: bool) -> Vector {
    match opcode {
        Opcode::VectorTranspose8 => transposed(8, if part { 1 } else { 0 }, a, b),
        Opcode::VectorTranspose16 => transposed(16, if part { 1 } else { 0 }, a, b),
        Opcode::VectorTranspose32 => transposed(32, if part { 1 } else { 0 }, a, b),
        Opcode::VectorTranspose64 => transposed(64, if part { 1 } else { 0 }, a, b),
        _ => arbitrary(),
    }
}

/// Whether an operation transposes two vectors.
pub open spec fn is_transpose(opcode: Opcode) -> bool {
    match opcode {
        Opcode::VectorTranspose8 | Opcode::VectorTranspose16 | Opcode::VectorTranspose32
        | Opcode::VectorTranspose64 => true,
        _ => false,
    }
}

/// Whether an operation works on two vectors.
pub open spec fn is_pair(opcode: Opcode) -> bool {
    match opcode {
        Opcode::VectorAnd | Opcode::VectorAndNot | Opcode::VectorOr | Opcode::VectorEor
        | Opcode::FPVectorPairedAddLower32 | Opcode::VectorMultiplySignedWiden8
        | Opcode::VectorMultiplySignedWiden16 | Opcode::VectorMultiplySignedWiden32
        | Opcode::VectorMultiplyUnsignedWiden8 | Opcode::VectorMultiplyUnsignedWiden16
        | Opcode::VectorMultiplyUnsignedWiden32 | Opcode::VectorPairedAdd8
        | Opcode::VectorPairedAdd16 | Opcode::VectorPairedAdd32 | Opcode::VectorPairedAdd64
        | Opcode::VectorDeinterleaveEvenLower8 | Opcode::VectorDeinterleaveEvenLower16
        | Opcode::VectorDeinterleaveEvenLower32 | Opcode::VectorDeinterleaveOddLower8
        | Opcode::VectorDeinterleaveOddLower16 | Opcode::VectorDeinterleaveOddLower32
        | Opcode::VectorDeinterleaveEven8 | Opcode::VectorDeinterleaveEven16
        | Opcode::VectorDeinterleaveEven32 | Opcode::VectorDeinterleaveEven64
        | Opcode::VectorDeinterleaveOdd8 | Opcode::VectorDeinterleaveOdd16
        | Opcode::VectorDeinterleaveOdd32 | Opcode::VectorDeinterleaveOdd64
        | Opcode::VectorInterleaveLower8 | Opcode::VectorInterleaveLower16
        | Opcode::VectorInterleaveLower32 | Opcode::VectorInterleaveLower64
        | Opcode::VectorInterleaveUpper8 | Opcode::VectorInterleaveUpper16
        | Opcode::VectorInterleaveUpper32 | Opcode::VectorInterleaveUpper64 => true,
        _ => lane_op(opcode) is Some || float_pair(opcode) is Some,
    }
}

/// Whether an operation works on one vector.
pub open spec fn is_single(opcode: Opcode) -> bool {
    match opcode {
        Opcode::ZeroVector | Opcode::VectorNot | Opcode::VectorAbs8 | Opcode::VectorAbs16
        | Opcode::VectorAbs32 | Opcode::VectorAbs64 | Opcode::VectorSignExtend8
        | Opcode::VectorSignExtend16 | Opcode::VectorSignExtend32 | Opcode::VectorSignExtend64
        | Opcode::VectorZeroExtend8 | Opcode::VectorZeroExtend16 | Opcode::VectorZeroExtend32
        | Opcode::VectorZeroExtend64 | Opcode::VectorNarrow16 | Opcode::VectorNarrow32
        | Opcode::VectorNarrow64 | Opcode::VectorSignedSaturatedNarrowToSigned16
        | Opcode::VectorSignedSaturatedNarrowToSigned32
        | Opcode::VectorSignedSaturatedNarrowToSigned64
        | Opcode::VectorUnsignedSaturatedNarrow16 | Opcode::VectorUnsignedSaturatedNarrow32
        | Opcode::VectorUnsignedSaturatedNarrow64 => true,
        _ => float_single(opcode) is Some,
    }
}

} // verus!
