//! Ends of blocks.

use vstd::prelude::*;
use crate::ir::cond::Cond;
use crate::ir::location::LocationDescriptor;

verus! {

/// What happens after the last instruction of a block.
#[derive(Debug, PartialEq, Eq)]
pub enum Terminal {
    /// The block has not been ended yet.
    Invalid,
    /// The instruction at `next` is left to an interpreter.
    Interpret { next: LocationDescriptor },
    /// Control returns to the dispatcher.
    ReturnToDispatch,
    /// Control goes on at `next`, unless a halt or the cycle limit intervenes.
    LinkBlock { next: LocationDescriptor },
    /// Control goes on at `next`.
    LinkBlockFast { next: LocationDescriptor },
    /// Control goes on at the top of the return stack, if it fits.
    PopRSBHint,
    /// Control goes on at a block found by fast dispatch.
    FastDispatchHint,
    /// One of two ends, by a condition on the flags.
    If { if_: Cond, then_: Box<Terminal>, else_: Box<Terminal> },
    /// One of two ends, by the check bit.
    CheckBit { then_: Box<Terminal>, else_: Box<Terminal> },
    /// Control returns to the dispatcher on a halt, else the inner end.
    CheckHalt { else_: Box<Terminal> },
}

impl Terminal {
    /// Control goes on at `next`.
    pub fn link_block(next: LocationDescriptor) -> (r: Terminal)
        ensures
            r == (Terminal::LinkBlock { next }),
    {
        Terminal::LinkBlock { next }
    }

    /// `then_` if the condition holds, else `else_`.
    pub fn if_then_else(if_: Cond, then_: Terminal, else_: Terminal) -> (r: Terminal)
        ensures
            r == (Terminal::If { if_, then_: Box::new(then_), else_: Box::new(else_) }),
    {
        Terminal::If { if_, then_: Box::new(then_), else_: Box::new(else_) }
    }

    /// `then_` if the check bit is set, else `else_`.
    pub fn check_bit(then_: Terminal, else_: Terminal) -> (r: Terminal)
        ensures
            r == (Terminal::CheckBit { then_: Box::new(then_), else_: Box::new(else_) }),
    {
        Terminal::CheckBit { then_: Box::new(then_), else_: Box::new(else_) }
    }

    /// `else_` unless execution is to halt.
    pub fn check_halt(else_: Terminal) -> (r: Terminal)
        ensures
            r == halt_or(else_),
    {
        Terminal::CheckHalt { else_: Box::new(else_) }
    }
}

/// `inner` unless execution is to halt.
pub open spec fn halt_or(inner: Terminal) -> Terminal {
    Terminal::CheckHalt { else_: Box::new(inner) }
}

} // verus!
