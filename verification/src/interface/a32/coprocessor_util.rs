//! Coprocessor operand types.

use vstd::prelude::*;

verus! {

/// A coprocessor register, `C0` to `C15`.
#[derive(Clone, Copy, Debug, PartialEq, Eq, Structural)]
pub struct CoprocReg {
    pub number: u8,
}

impl CoprocReg {
    /// The coprocessor register with the given number.
    #[verifier::allow_in_spec]
    pub fn from_u8(number: u8) -> CoprocReg
        returns
            (CoprocReg { number }),
    {
        CoprocReg { number }
    }
}

/// The immediate operands of a coprocessor instruction. Fields that an
/// instruction does not have are zero, `false` or `None`.
#[derive(Clone, Copy, Debug, PartialEq, Eq, Structural)]
pub struct CoprocInfo {
    pub coproc_no: usize,
    pub two: bool,
    pub long_transfer: bool,
    pub opc1: usize,
    pub crd: CoprocReg,
    pub crn: CoprocReg,
    pub crm: CoprocReg,
    pub opc2: usize,
    pub option: Option<u8>,
}

} // verus!
