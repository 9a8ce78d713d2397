//! Program status register.

use vstd::prelude::*;
use crate::frontend::a32::it_state::ITState;

verus! {

/// The part of the program status register that selects how code is
/// translated: the instruction set, the byte order of data and the If-Then
/// state.
#[derive(Clone, Copy, Debug, PartialEq, Eq, Structural)]
pub struct PSR {
    pub t: bool,
    pub e: bool,
    pub it: ITState,
}

impl PSR {
    /// The state that the given register bits select: bit 5 is the Thumb
    /// flag, bit 9 the data byte order, and the If-Then state is made of bits
    /// 15 to 10 followed by bits 26 and 25.
    pub fn new(value: u32) -> (r: PSR)
        ensures
            r.t == (value & 0x20 != 0),
            r.e == (value & 0x200 != 0),
            r.it.0 == ((value >> 8) & 0xFC) | ((value >> 25) & 0x3),
    {
        let it: u32 = ((value >> 8) & 0xFC) | ((value >> 25) & 0x3);
        assert(((value >> 8) & 0xFC) | ((value >> 25) & 0x3) < 256) by (bit_vector);
        PSR { t: value & 0x20 != 0, e: value & 0x200 != 0, it: ITState(it as u8) }
    }

    /// Selects the Thumb instruction set.
    pub fn set_t(&mut self, t: bool)
        ensures
            *final(self) == (PSR { t, ..*old(self) }),
    {
        self.t = t;
    }

    /// Selects big-endian data.
    pub fn set_e(&mut self, e: bool)
        ensures
            *final(self) == (PSR { e, ..*old(self) }),
    {
        self.e = e;
    }

    /// Sets the If-Then state.
    pub fn set_it(&mut self, it: ITState)
        ensures
            *final(self) == (PSR { it, ..*old(self) }),
    {
        self.it = it;
    }
}

impl Default for PSR {
    fn default() -> (r: PSR)
        ensures
            r == (PSR { t: false, e: false, it: ITState(0) }),
    {
        PSR { t: false, e: false, it: ITState(0) }
    }
}

} // verus!
