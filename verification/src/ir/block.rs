//! Blocks of instructions.

use vstd::prelude::*;
use crate::ir::cond::Cond;
use crate::ir::location::LocationDescriptor;
use crate::ir::opcode::Opcode;
use crate::ir::terminal::Terminal;
use crate::ir::value::{InstRef, Value};

verus! {

/// An instruction: an operation and its operands. Operands that the
/// operation does not have are `Void`.
#[derive(Clone, Copy, Debug, PartialEq, Eq)]
pub struct Inst {
    pub opcode: Opcode,
    pub args: (Value, Value, Value, Value),
}

/// A block of straight-line code with the way it ends.
#[derive(Debug)]
pub struct Block {
    /// Where the block begins.
    pub location: LocationDescriptor,
    /// Where the guest code of the block ends.
    pub end: LocationDescriptor,
    /// The condition under which the block runs at all.
    pub cond: Option<Cond>,
    /// Where control goes on if that condition does not hold.
    pub condition_failed_location: Option<LocationDescriptor>,
    /// The cycles that are counted if that condition does not hold.
    pub condition_failed_cycle_count: usize,
    pub instructions: Vec<Inst>,
    pub terminal: Terminal,
    /// The cycles that the block takes.
    pub cycle_count: usize,
}

impl Block {
    /// The empty block at `location`.
    pub fn new(location: LocationDescriptor) -> (r: Block)
        ensures
            r.location == location,
            r.end == location,
            r.cond == None::<Cond>,
            r.condition_failed_location == None::<LocationDescriptor>,
            r.condition_failed_cycle_count == 0,
            r.instructions@ == Seq::<Inst>::empty(),
            r.terminal == Terminal::Invalid,
            r.cycle_count == 0,
    {
        Block {
            location,
            end: location,
            cond: None,
            condition_failed_location: None,
            condition_failed_cycle_count: 0,
            instructions: Vec::new(),
            terminal: Terminal::Invalid,
            cycle_count: 0,
        }
    }

    /// Where the guest code of the block ends.
    pub fn end_location(&self) -> (r: LocationDescriptor)
        ensures
            r == self.end,
    {
        self.end
    }

    /// The instruction with the given index.
    pub fn get(&self, inst: InstRef) -> (r: &Inst)
        requires
            inst.0 < self.instructions.len(),
        ensures
            *r == self.instructions@[inst.0 as int],
    {
        &self.instructions[inst.0]
    }

    /// Whether any of the instructions changes the program status register.
    pub fn any_inst_writes_cpsr(&self) -> (r: bool)
        ensures
            r == writes_cpsr(self.instructions@),
    {
        let mut i: usize = 0;
        while i < self.instructions.len()
            invariant
                i <= self.instructions.len(),
                forall|j: int|
                    0 <= j < i ==> !(#[trigger] self.instructions@[j]).opcode.writes_to_cpsr(),
            decreases self.instructions.len() - i,
        {
            if self.instructions[i].opcode.writes_to_cpsr() {
                return true;
            }
            i = i + 1;
        }
        false
    }
}

/// Whether any of the instructions changes the program status register.
pub open spec fn writes_cpsr(code: Seq<Inst>) -> bool {
    exists|i: int| 0 <= i < code.len() && (#[trigger] code[i]).opcode.writes_to_cpsr()
}

} // verus!
