//! Operands and results of instructions.

use vstd::prelude::*;
use crate::frontend::a32::types::{ExtReg, Reg};
use crate::interface::a32::coprocessor_util::CoprocInfo;
use crate::ir::acc_type::AccType;

verus! {

/// The index of an instruction in its block.
#[derive(Clone, Copy, Debug, PartialEq, Eq, Structural)]
pub struct InstRef(pub usize);

/// An operand: an immediate, or the result of an earlier instruction.
#[derive(Clone, Copy, Debug, PartialEq, Eq, Structural)]
pub enum Value {
    /// No operand.
    Void,
    ImmU1(bool),
    ImmU8(u8),
    ImmU32(u32),
    ImmU64(u64),
    ImmA32Reg(Reg),
    ImmA32ExtReg(ExtReg),
    ImmAccType(AccType),
    ImmCoprocInfo(CoprocInfo),
    Inst(InstRef),
}

/// A result together with the carry out of the operation.
#[derive(Clone, Copy, Debug, PartialEq, Eq, Structural)]
pub struct ResultAndCarry {
    pub result: Value,
    pub carry: Value,
}

/// A result together with the overflow of the operation.
#[derive(Clone, Copy, Debug, PartialEq, Eq, Structural)]
pub struct ResultAndOverflow {
    pub result: Value,
    pub overflow: Value,
}

/// A result together with the greater-or-equal flags of the operation.
#[derive(Clone, Copy, Debug, PartialEq, Eq, Structural)]
pub struct ResultAndGE {
    pub result: Value,
    pub ge: Value,
}

} // verus!
