//! Floating-point status and control register.

use vstd::prelude::*;

verus! {

/// The floating-point status and control register.
#[derive(Clone, Copy, Debug, PartialEq, Eq, Structural)]
pub struct FPSCR {
    pub value: u32,
}

impl FPSCR {
    /// The register with the given bits.
    #[verifier::allow_in_spec]
    pub fn new(value: u32) -> FPSCR
        returns
            (FPSCR { value }),
    {
        FPSCR { value }
    }
}

impl Default for FPSCR {
    fn default() -> (r: FPSCR)
        ensures
            r == (FPSCR { value: 0 }),
    {
        FPSCR { value: 0 }
    }
}

} // verus!
