//! Condition codes.

use vstd::prelude::*;

verus! {

/// A condition on the flags, in the order of its four-bit encoding.
#[derive(Clone, Copy, Debug, PartialEq, Eq, Structural)]
pub enum Cond {
    EQ,
    NE,
    CS,
    CC,
    MI,
    PL,
    VS,
    VC,
    HI,
    LS,
    GE,
    LT,
    GT,
    LE,
    AL,
    NV,
}

/// The condition that the four bits `n` encode; numbers above 15 name `NV`.
pub open spec fn cond_code(n: u32) -> Cond {
    if n == 0 {
        Cond::EQ
    } else if n == 1 {
        Cond::NE
    } else if n == 2 {
        Cond::CS
    } else if n == 3 {
        Cond::CC
    } else if n == 4 {
        Cond::MI
    } else if n == 5 {
        Cond::PL
    } else if n == 6 {
        Cond::VS
    } else if n == 7 {
        Cond::VC
    } else if n == 8 {
        Cond::HI
    } else if n == 9 {
        Cond::LS
    } else if n == 10 {
        Cond::GE
    } else if n == 11 {
        Cond::LT
    } else if n == 12 {
        Cond::GT
    } else if n == 13 {
        Cond::LE
    } else if n == 14 {
        Cond::AL
    } else {
        Cond::NV
    }
}

impl Cond {
    /// The condition with the given four-bit encoding.
    pub fn from_u8(n: u8) -> (r: Cond)
        requires
            n < 16,
        ensures
            r == cond_code(n as u32),
    {
        match n {
            0 => Cond::EQ,
            1 => Cond::NE,
            2 => Cond::CS,
            3 => Cond::CC,
            4 => Cond::MI,
            5 => Cond::PL,
            6 => Cond::VS,
            7 => Cond::VC,
            8 => Cond::HI,
            9 => Cond::LS,
            10 => Cond::GE,
            11 => Cond::LT,
            12 => Cond::GT,
            13 => Cond::LE,
            14 => Cond::AL,
            _ => Cond::NV,
        }
    }
}

} // verus!
