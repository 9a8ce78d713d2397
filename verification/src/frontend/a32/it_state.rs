//! If-Then execution state of Thumb code.

use vstd::prelude::*;
use crate::ir::cond::{cond_code, Cond};

verus! {

/// If-Then execution state.
///
/// Bits 7 to 5 hold the upper bits of the condition, bit 4 its lowest bit for
/// the current instruction, and bits 3 to 0 a mask whose lowest set bit marks
/// how many instructions of the block remain. A mask of zero means that no
/// block is active.
#[derive(Clone, Copy, Debug, PartialEq, Eq, Hash, Structural)]
pub struct ITState(pub u8);

impl ITState {
    /// The state with the given eight bits.
    #[verifier::allow_in_spec]
    pub fn new(value: u8) -> ITState
        returns
            ITState(value),
    {
        ITState(value)
    }

    /// The eight bits of the state.
    #[verifier::allow_in_spec]
    pub fn value(self) -> u8
        returns
            self.0,
    {
        self.0
    }

    /// Whether an If-Then block is active.
    #[verifier::allow_in_spec]
    pub fn is_in_it_block(self) -> bool
        returns
            self.0 & 0xF != 0,
    {
        (self.0 & 0xF) != 0
    }

    /// Whether the current instruction is the last of the active block.
    #[verifier::allow_in_spec]
    pub fn is_last_in_it_block(self) -> bool
        returns
            self.0 & 0xF == 0x8,
    {
        (self.0 & 0xF) == 0x8
    }

    /// The number of instructions left in the active block: the distance of
    /// the lowest set mask bit from the top of the mask.
    pub open spec fn remaining(self) -> nat {
        if self.0 & 1 != 0 {
            4
        } else if self.0 & 2 != 0 {
            3
        } else if self.0 & 4 != 0 {
            2
        } else if self.0 & 8 != 0 {
            1
        } else {
            0
        }
    }

    /// The condition of the current instruction.
    pub open spec fn spec_cond(self) -> Cond {
        if self.0 == 0 {
            Cond::AL
        } else {
            cond_code((self.0 >> 4) as u32)
        }
    }

    /// The condition of the current instruction.
    #[verifier::when_used_as_spec(spec_cond)]
    pub fn cond(self) -> (r: Cond)
        ensures
            r == self.spec_cond(),
    {
        if self.0 == 0 {
            return Cond::AL;
        }
        let value: u8 = self.0;
        let c: u8 = (value >> 4) & 0xF;
        assert((value >> 4) & 0xF == value >> 4 && value >> 4 < 16) by (bit_vector);
        Cond::from_u8(c)
    }

    /// The state for the instruction that follows: the five low bits move up
    /// by one place, and a block whose mask runs out is left.
    pub open spec fn next(self) -> ITState {
        if self.remaining() <= 1 {
            ITState(0)
        } else {
            ITState((self.0 & 0xE0) | ((self.0 << 1) & 0x1F))
        }
    }

    /// Moves on to the next instruction of the block.
    pub fn advance(&mut self)
        ensures
            *final(self) == old(self).next(),
    {
        let value: u8 = self.0;
        self.0 = (value & 0xE0) | ((value << 1) & 0x1F);
        assert(((value & 0xE0) | ((value << 1) & 0x1F)) & 0xF == 0
            <==> value & 1 == 0 && value & 2 == 0 && value & 4 == 0) by (bit_vector);
        if (self.0 & 0xF) == 0 {
            self.0 = 0;
        }
    }
}

impl Default for ITState {
    fn default() -> (r: ITState)
        ensures
            r == ITState(0),
    {
        ITState(0)
    }
}

/// A block is active exactly while instructions remain in it.
pub proof fn in_it_block_iff_instructions_remain(it: ITState)
    ensures
        it.is_in_it_block() <==> it.remaining() > 0,
{
    let v = it.0;
    assert(v & 0xF != 0 <==> v & 1 != 0 || v & 2 != 0 || v & 4 != 0 || v & 8 != 0) by (bit_vector);
}

/// The last instruction of a block is the one with a single instruction left.
pub proof fn last_in_it_block_iff_one_remains(it: ITState)
    ensures
        it.is_last_in_it_block() <==> it.remaining() == 1,
{
    let v = it.0;
    assert(v & 0xF == 8 <==> v & 1 == 0 && v & 2 == 0 && v & 4 == 0 && v & 8 != 0) by (bit_vector);
}

/// Each advance uses up one instruction of the block.
pub proof fn advance_uses_up_one_instruction(it: ITState)
    ensures
        it.remaining() > 0 ==> it.next().remaining() == it.remaining() - 1,
        it.remaining() == 0 ==> it.next() == ITState(0),
{
    let v = it.0;
    let w = (v & 0xE0) | ((v << 1) & 0x1F);
    assert((w & 1 == 0) && (w & 2 != 0 <==> v & 1 != 0) && (w & 4 != 0 <==> v & 2 != 0)
        && (w & 8 != 0 <==> v & 4 != 0)) by (bit_vector)
        requires
            w == (v & 0xE0) | ((v << 1) & 0x1F),
    ;
    assert(0u8 & 1 == 0 && 0u8 & 2 == 0 && 0u8 & 4 == 0 && 0u8 & 8 == 0) by (bit_vector);
}

/// Advancing out of a block clears the whole state, so that the instruction
/// after it is unconditional.
pub proof fn leaving_it_block_clears_state(it: ITState)
    requires
        it.is_last_in_it_block(),
    ensures
        it.next() == ITState(0),
        it.next().cond() == Cond::AL,
{
    last_in_it_block_iff_one_remains(it);
}

/// All instructions of a block share the upper three bits of its condition.
pub proof fn it_block_keeps_condition_base(it: ITState)
    requires
        it.remaining() > 1,
    ensures
        it.next().0 & 0xE0 == it.0 & 0xE0,
{
    let v = it.0;
    assert(((v & 0xE0) | ((v << 1) & 0x1F)) & 0xE0 == v & 0xE0) by (bit_vector);
}

/// The condition of the next instruction of a block has the base of the block
/// and, as its lowest bit, the top bit of the mask. So an instruction is under
/// the condition of the block or under the opposite one, as its mask bit says.
pub proof fn mask_selects_the_next_condition(it: ITState)
    requires
        it.remaining() > 1,
    ensures
        it.next().cond() == cond_code(((it.0 >> 5) * 2 + ((it.0 >> 3) & 1)) as u32),
{
    let v = it.0;
    let w = (v & 0xE0) | ((v << 1) & 0x1F);
    assert(w >> 4 == (v >> 5) * 2 + ((v >> 3) & 1) && (v & 1 != 0 || v & 2 != 0 || v & 4 != 0 ==> w
        != 0) && (v >> 5) <= 7 && (v >> 3) & 1 <= 1) by (bit_vector)
        requires
            w == (v & 0xE0) | ((v << 1) & 0x1F),
    ;
}

} // verus!
