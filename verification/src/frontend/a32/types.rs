//! Registers, shifts and exceptions of the 32-bit guest.

use vstd::prelude::*;

verus! {

/// A general-purpose register. `R13` is the stack pointer, `R14` the link
/// register and `R15` the program counter.
#[derive(Clone, Copy, Debug, PartialEq, Eq, Structural)]
pub enum Reg {
    R0,
    R1,
    R2,
    R3,
    R4,
    R5,
    R6,
    R7,
    R8,
    R9,
    R10,
    R11,
    R12,
    R13,
    R14,
    R15,
}

/// The register with number `n`; numbers above 15 name `R15`.
pub open spec fn reg(n: u32) -> Reg {
    if n == 0 {
        Reg::R0
    } else if n == 1 {
        Reg::R1
    } else if n == 2 {
        Reg::R2
    } else if n == 3 {
        Reg::R3
    } else if n == 4 {
        Reg::R4
    } else if n == 5 {
        Reg::R5
    } else if n == 6 {
        Reg::R6
    } else if n == 7 {
        Reg::R7
    } else if n == 8 {
        Reg::R8
    } else if n == 9 {
        Reg::R9
    } else if n == 10 {
        Reg::R10
    } else if n == 11 {
        Reg::R11
    } else if n == 12 {
        Reg::R12
    } else if n == 13 {
        Reg::R13
    } else if n == 14 {
        Reg::R14
    } else {
        Reg::R15
    }
}

impl Reg {
    /// The register with the given number.
    pub fn from_u32(n: u32) -> (r: Reg)
        requires
            n < 16,
        ensures
            r == reg(n),
            r.number() == n,
    {
        match n {
            0 => Reg::R0,
            1 => Reg::R1,
            2 => Reg::R2,
            3 => Reg::R3,
            4 => Reg::R4,
            5 => Reg::R5,
            6 => Reg::R6,
            7 => Reg::R7,
            8 => Reg::R8,
            9 => Reg::R9,
            10 => Reg::R10,
            11 => Reg::R11,
            12 => Reg::R12,
            13 => Reg::R13,
            14 => Reg::R14,
            _ => Reg::R15,
        }
    }

    /// The number of this register.
    pub open spec fn spec_number(self) -> u32 {
        match self {
            Reg::R0 => 0,
            Reg::R1 => 1,
            Reg::R2 => 2,
            Reg::R3 => 3,
            Reg::R4 => 4,
            Reg::R5 => 5,
            Reg::R6 => 6,
            Reg::R7 => 7,
            Reg::R8 => 8,
            Reg::R9 => 9,
            Reg::R10 => 10,
            Reg::R11 => 11,
            Reg::R12 => 12,
            Reg::R13 => 13,
            Reg::R14 => 14,
            Reg::R15 => 15,
        }
    }

    /// The number of this register.
    #[verifier::when_used_as_spec(spec_number)]
    pub fn number(self) -> (n: u32)
        ensures
            n == self.spec_number(),
            n < 16,
            reg(n) == self,
    {
        match self {
            Reg::R0 => 0,
            Reg::R1 => 1,
            Reg::R2 => 2,
            Reg::R3 => 3,
            Reg::R4 => 4,
            Reg::R5 => 5,
            Reg::R6 => 6,
            Reg::R7 => 7,
            Reg::R8 => 8,
            Reg::R9 => 9,
            Reg::R10 => 10,
            Reg::R11 => 11,
            Reg::R12 => 12,
            Reg::R13 => 13,
            Reg::R14 => 14,
            Reg::R15 => 15,
        }
    }
}

/// Register numbers and registers are in one-to-one correspondence.
pub proof fn register_number_round_trip(n: u32, r: Reg)
    requires
        n < 16,
    ensures
        reg(n).number() == n,
        reg(r.number()) == r,
        r.number() < 16,
{
}

/// An extension register: a double word `D0` to `D31` or a quad word `Q0` to
/// `Q15`.
#[derive(Clone, Copy, Debug, PartialEq, Eq, Structural)]
pub enum ExtReg {
    Double(u8),
    Quad(u8),
}

/// A shift applied to a register operand.
#[derive(Clone, Copy, Debug, PartialEq, Eq, Structural)]
pub enum ShiftType {
    LSL,
    LSR,
    ASR,
    ROR,
}

/// The shift that the two bits `n` encode.
pub open spec fn shift_type(n: u32) -> ShiftType {
    if n == 0 {
        ShiftType::LSL
    } else if n == 1 {
        ShiftType::LSR
    } else if n == 2 {
        ShiftType::ASR
    } else {
        ShiftType::ROR
    }
}

impl ShiftType {
    /// The shift that a two-bit field encodes.
    pub fn from_u8(n: u8) -> (r: ShiftType)
        requires
            n < 4,
        ensures
            r == shift_type(n as u32),
    {
        match n {
            0 => ShiftType::LSL,
            1 => ShiftType::LSR,
            2 => ShiftType::ASR,
            _ => ShiftType::ROR,
        }
    }
}

/// Reasons for which translated code leaves to the embedding program.
#[derive(Clone, Copy, Debug, PartialEq, Eq, Structural)]
pub enum Exception {
    UndefinedInstruction,
    UnpredictableInstruction,
    DecodeError,
    SendEvent,
    SendEventLocal,
    WaitForInterrupt,
    WaitForEvent,
    Yield,
    Breakpoint,
    PreloadData,
    PreloadDataWithIntentToWrite,
    PreloadInstruction,
    NoExecuteFault,
}

impl Exception {
    /// The number under which translated code reports the exception.
    pub open spec fn spec_as_u32(self) -> u32 {
        match self {
            Exception::UndefinedInstruction => 0,
            Exception::UnpredictableInstruction => 1,
            Exception::DecodeError => 2,
            Exception::SendEvent => 3,
            Exception::SendEventLocal => 4,
            Exception::WaitForInterrupt => 5,
            Exception::WaitForEvent => 6,
            Exception::Yield => 7,
            Exception::Breakpoint => 8,
            Exception::PreloadData => 9,
            Exception::PreloadDataWithIntentToWrite => 10,
            Exception::PreloadInstruction => 11,
            Exception::NoExecuteFault => 12,
        }
    }

    /// The number under which translated code reports the exception.
    #[verifier::when_used_as_spec(spec_as_u32)]
    pub fn as_u32(self) -> (n: u32)
        ensures
            n == self.spec_as_u32(),
    {
        match self {
            Exception::UndefinedInstruction => 0,
            Exception::UnpredictableInstruction => 1,
            Exception::DecodeError => 2,
            Exception::SendEvent => 3,
            Exception::SendEventLocal => 4,
            Exception::WaitForInterrupt => 5,
            Exception::WaitForEvent => 6,
            Exception::Yield => 7,
            Exception::Breakpoint => 8,
            Exception::PreloadData => 9,
            Exception::PreloadDataWithIntentToWrite => 10,
            Exception::PreloadInstruction => 11,
            Exception::NoExecuteFault => 12,
        }
    }
}

/// Distinct exceptions are reported under distinct numbers.
pub proof fn exception_numbers_are_distinct(a: Exception, b: Exception)
    requires
        a.as_u32() == b.as_u32(),
    ensures
        a == b,
{
}

} // verus!
