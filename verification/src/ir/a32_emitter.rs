//! Emission of instructions into a block.

use vstd::prelude::*;
use crate::frontend::a32::types::{Exception, ExtReg, Reg};
use crate::interface::a32::coprocessor_util::{CoprocInfo, CoprocReg};
use crate::ir::acc_type::AccType;
use crate::ir::block::{Block, Inst};
use crate::ir::location::{A32LocationDescriptor, LocationDescriptor};
use crate::ir::opcode;
use crate::ir::opcode::Opcode;
use crate::ir::terminal::Terminal;
use crate::ir::value::{InstRef, ResultAndCarry, ResultAndGE, ResultAndOverflow, Value};

verus! {

/// An emitter appends instructions to its block on behalf of the guest
/// instruction at `current_location`.
pub struct A32IREmitter {
    pub block: Block,
    pub current_location: A32LocationDescriptor,
}

/// What translation reads and changes of an emitter: the code emitted so far,
/// the way the block ends, and the location of the guest instruction.
pub struct EmitterState {
    pub code: Seq<Inst>,
    pub terminal: Terminal,
    pub loc: A32LocationDescriptor,
    pub frame: BlockFrame,
}

/// The parts of a block that translating an instruction leaves alone.
pub struct BlockFrame {
    pub location: LocationDescriptor,
    pub end: LocationDescriptor,
    pub cond: Option<crate::ir::cond::Cond>,
    pub condition_failed_location: Option<LocationDescriptor>,
    pub condition_failed_cycle_count: usize,
    pub cycle_count: usize,
}

/// The parts of `block` that translating an instruction leaves alone.
pub open spec fn block_frame(block: Block) -> BlockFrame {
    BlockFrame {
        location: block.location,
        end: block.end,
        cond: block.cond,
        condition_failed_location: block.condition_failed_location,
        condition_failed_cycle_count: block.condition_failed_cycle_count,
        cycle_count: block.cycle_count,
    }
}

impl View for A32IREmitter {
    type V = EmitterState;

    open spec fn view(&self) -> EmitterState {
        EmitterState {
            code: self.block.instructions@,
            terminal: self.block.terminal,
            loc: self.current_location,
            frame: block_frame(self.block),
        }
    }
}

impl EmitterState {
    /// The state after one more instruction, and the value of its result.
    pub open spec fn emit(self, inst: Inst) -> (EmitterState, Value) {
        (
            EmitterState { code: self.code.push(inst), ..self },
            Value::Inst(InstRef(self.code.len() as usize)),
        )
    }

    /// Emits an operation without operands.
    pub open spec fn op0(self, opcode: Opcode) -> (EmitterState, Value) {
        self.emit(Inst { opcode, args: (Value::Void, Value::Void, Value::Void, Value::Void) })
    }

    /// Emits an operation with one operand.
    pub open spec fn op1(self, opcode: Opcode, a: Value) -> (EmitterState, Value) {
        self.emit(Inst { opcode, args: (a, Value::Void, Value::Void, Value::Void) })
    }

    /// Emits an operation with two operands.
    pub open spec fn op2(self, opcode: Opcode, a: Value, b: Value) -> (EmitterState, Value) {
        self.emit(Inst { opcode, args: (a, b, Value::Void, Value::Void) })
    }

    /// Emits an operation with three operands.
    pub open spec fn op3(self, opcode: Opcode, a: Value, b: Value, c: Value) -> (
        EmitterState,
        Value,
    ) {
        self.emit(Inst { opcode, args: (a, b, c, Value::Void) })
    }

    /// Emits an operation with four operands.
    pub open spec fn op4(self, opcode: Opcode, a: Value, b: Value, c: Value, d: Value) -> (
        EmitterState,
        Value,
    ) {
        self.emit(Inst { opcode, args: (a, b, c, d) })
    }

    /// Sets the way the block ends.
    pub open spec fn end(self, terminal: Terminal) -> EmitterState {
        EmitterState { terminal, ..self }
    }

    /// The program counter as the guest instruction sees it.
    pub open spec fn pc(self) -> u32 {
        self.loc.pc().wrapping_add(if self.loc.t_flag() { 4 } else { 8 })
    }

    /// The operand that names the current location.
    pub open spec fn here(self) -> Value {
        Value::ImmU64(self.loc.to_location().0)
    }

    /// Reads a register. The program counter is known while translating and
    /// needs no instruction.
    pub open spec fn get_register(self, r: Reg) -> (EmitterState, Value) {
        if r == Reg::R15 {
            (self, Value::ImmU32(self.pc()))
        } else {
            self.op1(Opcode::A32GetRegister, Value::ImmA32Reg(r))
        }
    }

    /// Writes a register.
    pub open spec fn set_register(self, r: Reg, value: Value) -> EmitterState {
        self.op2(Opcode::A32SetRegister, Value::ImmA32Reg(r), value).0
    }

    /// Reads a vector register.
    pub open spec fn get_vector(self, r: ExtReg) -> (EmitterState, Value) {
        self.op1(Opcode::A32GetVector, Value::ImmA32ExtReg(r))
    }

    /// Writes a vector register.
    pub open spec fn set_vector(self, r: ExtReg, value: Value) -> EmitterState {
        self.op2(Opcode::A32SetVector, Value::ImmA32ExtReg(r), value).0
    }

    /// Branches to an address within the current instruction set.
    pub open spec fn branch_write_pc(self, value: Value) -> EmitterState {
        let mask: u32 = if self.loc.t_flag() { 0xFFFF_FFFE } else { 0xFFFF_FFFC };
        let (s, target) = self.op2(Opcode::And32, value, Value::ImmU32(mask));
        s.set_register(Reg::R15, target)
    }

    /// Reports an exception.
    pub open spec fn exception_raised(self, exception: Exception) -> EmitterState {
        self.op2(
            Opcode::A32ExceptionRaised,
            Value::ImmU32(self.loc.pc()),
            Value::ImmU64(exception.as_u32() as u64),
        ).0
    }

    /// Notes the state in which execution will go on.
    pub open spec fn update_upper_location_descriptor(self) -> EmitterState {
        self.op0(Opcode::A32UpdateUpperLocationDescriptor).0
    }

    /// Notes a return address for later prediction.
    pub open spec fn push_rsb(self, location: LocationDescriptor) -> EmitterState {
        self.op1(Opcode::PushRSB, Value::ImmU64(location.0)).0
    }

    /// Applies `reverse` to a value if data is big-endian.
    pub open spec fn swap(self, reverse: Opcode, value: Value) -> (EmitterState, Value) {
        if self.loc.e_flag() {
            self.op1(reverse, value)
        } else {
            (self, value)
        }
    }

    /// Reads a byte of memory.
    pub open spec fn read_memory_8(self, address: Value, acc: AccType) -> (EmitterState, Value) {
        self.op3(Opcode::A32ReadMemory8, self.here(), address, Value::ImmAccType(acc))
    }

    /// Reads a halfword of memory.
    pub open spec fn read_memory_16(self, address: Value, acc: AccType) -> (EmitterState, Value) {
        let (s, value) = self.op3(
            Opcode::A32ReadMemory16,
            self.here(),
            address,
            Value::ImmAccType(acc),
        );
        s.swap(Opcode::ByteReverseHalf, value)
    }

    /// Reads a word of memory.
    pub open spec fn read_memory_32(self, address: Value, acc: AccType) -> (EmitterState, Value) {
        let (s, value) = self.op3(
            Opcode::A32ReadMemory32,
            self.here(),
            address,
            Value::ImmAccType(acc),
        );
        s.swap(Opcode::ByteReverseWord, value)
    }

    /// Reads a double word of memory.
    pub open spec fn read_memory_64(self, address: Value, acc: AccType) -> (EmitterState, Value) {
        let (s, value) = self.op3(
            Opcode::A32ReadMemory64,
            self.here(),
            address,
            Value::ImmAccType(acc),
        );
        s.swap(Opcode::ByteReverseDual, value)
    }

    /// Writes a byte of memory.
    pub open spec fn write_memory_8(
        self,
        address: Value,
        value: Value,
        acc: AccType,
    ) -> EmitterState {
        self.op4(Opcode::A32WriteMemory8, self.here(), address, value, Value::ImmAccType(acc)).0
    }

    /// Writes a halfword of memory.
    pub open spec fn write_memory_16(
        self,
        address: Value,
        value: Value,
        acc: AccType,
    ) -> EmitterState {
        let (s, value) = self.swap(Opcode::ByteReverseHalf, value);
        s.op4(Opcode::A32WriteMemory16, s.here(), address, value, Value::ImmAccType(acc)).0
    }

    /// Writes a word of memory.
    pub open spec fn write_memory_32(
        self,
        address: Value,
        value: Value,
        acc: AccType,
    ) -> EmitterState {
        let (s, value) = self.swap(Opcode::ByteReverseWord, value);
        s.op4(Opcode::A32WriteMemory32, s.here(), address, value, Value::ImmAccType(acc)).0
    }

    /// Writes a double word of memory.
    pub open spec fn write_memory_64(
        self,
        address: Value,
        value: Value,
        acc: AccType,
    ) -> EmitterState {
        let (s, value) = self.swap(Opcode::ByteReverseDual, value);
        s.op4(Opcode::A32WriteMemory64, s.here(), address, value, Value::ImmAccType(acc)).0
    }

    /// Reads a byte of memory and claims it.
    pub open spec fn exclusive_read_memory_8(self, address: Value, acc: AccType) -> (
        EmitterState,
        Value,
    ) {
        self.op3(Opcode::A32ExclusiveReadMemory8, self.here(), address, Value::ImmAccType(acc))
    }

    /// Reads a halfword of memory and claims it.
    pub open spec fn exclusive_read_memory_16(self, address: Value, acc: AccType) -> (
        EmitterState,
        Value,
    ) {
        let (s, value) = self.op3(
            Opcode::A32ExclusiveReadMemory16,
            self.here(),
            address,
            Value::ImmAccType(acc),
        );
        s.swap(Opcode::ByteReverseHalf, value)
    }

    /// Reads a word of memory and claims it.
    pub open spec fn exclusive_read_memory_32(self, address: Value, acc: AccType) -> (
        EmitterState,
        Value,
    ) {
        let (s, value) = self.op3(
            Opcode::A32ExclusiveReadMemory32,
            self.here(),
            address,
            Value::ImmAccType(acc),
        );
        s.swap(Opcode::ByteReverseWord, value)
    }

    /// Reads a double word of memory, claims it, and gives its words in the
    /// order of their addresses.
    pub open spec fn exclusive_read_memory_64(self, address: Value, acc: AccType) -> (
        EmitterState,
        (Value, Value),
    ) {
        let (s, value) = self.op3(
            Opcode::A32ExclusiveReadMemory64,
            self.here(),
            address,
            Value::ImmAccType(acc),
        );
        let (s, lo) = s.op1(Opcode::LeastSignificantWord, value);
        let (s, hi) = s.most_significant_word(value);
        if self.loc.e_flag() {
            let (s, first) = s.op1(Opcode::ByteReverseWord, lo);
            let (s, second) = s.op1(Opcode::ByteReverseWord, hi.result);
            (s, (first, second))
        } else {
            (s, (lo, hi.result))
        }
    }

    /// Writes a byte of memory if it is still claimed; gives 0 on success.
    pub open spec fn exclusive_write_memory_8(self, address: Value, value: Value, acc: AccType) -> (
        EmitterState,
        Value,
    ) {
        self.op4(
            Opcode::A32ExclusiveWriteMemory8,
            self.here(),
            address,
            value,
            Value::ImmAccType(acc),
        )
    }

    /// Writes a halfword of memory if it is still claimed; gives 0 on success.
    pub open spec fn exclusive_write_memory_16(
        self,
        address: Value,
        value: Value,
        acc: AccType,
    ) -> (EmitterState, Value) {
        let (s, value) = self.swap(Opcode::ByteReverseHalf, value);
        s.op4(Opcode::A32ExclusiveWriteMemory16, s.here(), address, value, Value::ImmAccType(acc))
    }

    /// Writes a word of memory if it is still claimed; gives 0 on success.
    pub open spec fn exclusive_write_memory_32(
        self,
        address: Value,
        value: Value,
        acc: AccType,
    ) -> (EmitterState, Value) {
        let (s, value) = self.swap(Opcode::ByteReverseWord, value);
        s.op4(Opcode::A32ExclusiveWriteMemory32, s.here(), address, value, Value::ImmAccType(acc))
    }

    /// Writes two words of memory if they are still claimed; gives 0 on
    /// success. `first` goes to the lower address.
    pub open spec fn exclusive_write_memory_64(
        self,
        address: Value,
        first: Value,
        second: Value,
        acc: AccType,
    ) -> (EmitterState, Value) {
        let (s, first) = self.swap(Opcode::ByteReverseWord, first);
        let (s, second) = s.swap(Opcode::ByteReverseWord, second);
        let (s, value) = s.op2(Opcode::Pack2x32To1x64, first, second);
        s.op4(Opcode::A32ExclusiveWriteMemory64, s.here(), address, value, Value::ImmAccType(acc))
    }

    /// The high word of a double word, and the bit below it.
    pub open spec fn most_significant_word(self, value: Value) -> (EmitterState, ResultAndCarry) {
        let (s, result) = self.op1(Opcode::MostSignificantWord, value);
        let (s, carry) = s.op1(Opcode::GetCarryFromOp, result);
        (s, ResultAndCarry { result, carry })
    }

    /// A word saturated to a signed number of `bits` bits.
    pub open spec fn signed_saturation(self, value: Value, bits: u8) -> (
        EmitterState,
        ResultAndOverflow,
    ) {
        let (s, result) = self.op2(Opcode::SignedSaturation, value, Value::ImmU8(bits));
        let (s, overflow) = s.op1(Opcode::GetOverflowFromOp, result);
        (s, ResultAndOverflow { result, overflow })
    }

    /// A word saturated to an unsigned number of `bits` bits.
    pub open spec fn unsigned_saturation(self, value: Value, bits: u8) -> (
        EmitterState,
        ResultAndOverflow,
    ) {
        let (s, result) = self.op2(Opcode::UnsignedSaturation, value, Value::ImmU8(bits));
        let (s, overflow) = s.op1(Opcode::GetOverflowFromOp, result);
        (s, ResultAndOverflow { result, overflow })
    }

    /// The sums of the halfwords of two words.
    pub open spec fn packed_add_u16(self, a: Value, b: Value) -> (EmitterState, ResultAndGE) {
        let (s, result) = self.op2(Opcode::PackedAddU16, a, b);
        let (s, ge) = s.op1(Opcode::GetGEFromOp, result);
        (s, ResultAndGE { result, ge })
    }

    /// A table of the first `len` of the operands.
    pub open spec fn vector_table(self, len: int, a: Value, b: Value, c: Value, d: Value) -> (
        EmitterState,
        Value,
    ) {
        if len == 1 {
            self.op1(Opcode::VectorTable, a)
        } else if len == 2 {
            self.op2(Opcode::VectorTable, a, b)
        } else if len == 3 {
            self.op3(Opcode::VectorTable, a, b, c)
        } else {
            self.op4(Opcode::VectorTable, a, b, c, d)
        }
    }

    /// Lane-wise unsigned `a > b`: the smaller of the two is not `a`.
    pub open spec fn vector_greater_unsigned(self, esize: usize, a: Value, b: Value) -> (
        EmitterState,
        Value,
    ) {
        let (s, smaller) = self.op2(opcode::vector_min_unsigned(esize), a, b);
        let (s, equal) = s.op2(opcode::vector_equal(esize), smaller, a);
        s.op1(Opcode::VectorNot, equal)
    }

    /// Lane-wise unsigned `a >= b`: the greater of the two is `a`.
    pub open spec fn vector_greater_equal_unsigned(self, esize: usize, a: Value, b: Value) -> (
        EmitterState,
        Value,
    ) {
        let (s, greater) = self.op2(opcode::vector_max_unsigned(esize), a, b);
        s.op2(opcode::vector_equal(esize), greater, a)
    }

    /// Lane-wise signed `a >= b`.
    pub open spec fn vector_greater_equal_signed(self, esize: usize, a: Value, b: Value) -> (
        EmitterState,
        Value,
    ) {
        let (s, greater) = self.op2(opcode::vector_greater_signed(esize), a, b);
        let (s, equal) = s.op2(opcode::vector_equal(esize), a, b);
        s.op2(Opcode::VectorOr, greater, equal)
    }

    /// Lane-wise signed `a < b`.
    pub open spec fn vector_less_signed(self, esize: usize, a: Value, b: Value) -> (
        EmitterState,
        Value,
    ) {
        let (s, greater_equal) = self.vector_greater_equal_signed(esize, a, b);
        s.op1(Opcode::VectorNot, greater_equal)
    }

    /// Lane-wise signed `a <= b`.
    pub open spec fn vector_less_equal_signed(self, esize: usize, a: Value, b: Value) -> (
        EmitterState,
        Value,
    ) {
        let (s, greater) = self.op2(opcode::vector_greater_signed(esize), a, b);
        s.op1(Opcode::VectorNot, greater)
    }
}

/// Whether `t` comes from `s` by appending code and ending the block: the code
/// emitted before, the location and the parts of the block that belong to it
/// as a whole are the same.
#[verifier::opaque]
pub open spec fn appends(s: EmitterState, t: EmitterState) -> bool {
    &&& t.loc == s.loc
    &&& t.frame == s.frame
    &&& s.code.len() <= t.code.len()
    &&& forall|i: int| 0 <= i < s.code.len() ==> #[trigger] t.code[i] == s.code[i]
}

/// Appending nothing is appending.
pub proof fn appends_nothing(s: EmitterState)
    ensures
        appends(s, s),
{
    reveal(appends);
}

/// Emitting an instruction is appending.
pub broadcast proof fn emit_appends(s: EmitterState, t: EmitterState, inst: Inst)
    requires
        #[trigger] appends(s, t),
    ensures
        appends(s, (#[trigger] t.emit(inst)).0),
{
    reveal(appends);
}

/// Ending the block is appending.
pub broadcast proof fn end_appends(s: EmitterState, t: EmitterState, terminal: Terminal)
    requires
        #[trigger] appends(s, t),
    ensures
        appends(s, #[trigger] t.end(terminal)),
{
    reveal(appends);
}

pub broadcast group group_appends {
    emit_appends,
    end_appends,
}

impl A32IREmitter {
    /// An emitter that appends to `block` on behalf of the guest instruction
    /// at `location`.
    pub fn with_location(block: Block, location: A32LocationDescriptor) -> (r: A32IREmitter)
        ensures
            r.block == block,
            r.current_location == location,
    {
        A32IREmitter { block, current_location: location }
    }

    /// Appends an instruction and gives the value of its result.
    pub fn emit(&mut self, inst: Inst) -> (r: Value)
        ensures
            (final(self)@, r) == old(self)@.emit(inst),
    {
        let index: usize = self.block.instructions.len();
        self.block.instructions.push(inst);
        Value::Inst(InstRef(index))
    }

    /// Emits an operation without operands.
    pub fn op0(&mut self, opcode: Opcode) -> (r: Value)
        ensures
            (final(self)@, r) == old(self)@.op0(opcode),
    {
        self.emit(Inst { opcode, args: (Value::Void, Value::Void, Value::Void, Value::Void) })
    }

    /// Emits an operation with one operand.
    pub fn op1(&mut self, opcode: Opcode, a: Value) -> (r: Value)
        ensures
            (final(self)@, r) == old(self)@.op1(opcode, a),
    {
        self.emit(Inst { opcode, args: (a, Value::Void, Value::Void, Value::Void) })
    }

    /// Emits an operation with two operands.
    pub fn op2(&mut self, opcode: Opcode, a: Value, b: Value) -> (r: Value)
        ensures
            (final(self)@, r) == old(self)@.op2(opcode, a, b),
    {
        self.emit(Inst { opcode, args: (a, b, Value::Void, Value::Void) })
    }

    /// Emits an operation with three operands.
    pub fn op3(&mut self, opcode: Opcode, a: Value, b: Value, c: Value) -> (r: Value)
        ensures
            (final(self)@, r) == old(self)@.op3(opcode, a, b, c),
    {
        self.emit(Inst { opcode, args: (a, b, c, Value::Void) })
    }

    /// Emits an operation with four operands.
    pub fn op4(&mut self, opcode: Opcode, a: Value, b: Value, c: Value, d: Value) -> (r: Value)
        ensures
            (final(self)@, r) == old(self)@.op4(opcode, a, b, c, d),
    {
        self.emit(Inst { opcode, args: (a, b, c, d) })
    }

    /// Sets the way the block ends.
    pub fn set_term(&mut self, terminal: Terminal)
        ensures
            final(self)@ == old(self)@.end(terminal),
    {
        self.block.terminal = terminal;
    }

    /// The program counter as the guest instruction sees it.
    pub fn pc(&self) -> (r: u32)
        ensures
            r == self@.pc(),
    {
        if self.current_location.t_flag() {
            self.current_location.pc().wrapping_add(4)
        } else {
            self.current_location.pc().wrapping_add(8)
        }
    }

    /// The program counter as the guest instruction sees it, rounded down to
    /// a multiple of four.
    pub fn align_pc(&self) -> (r: u32)
        ensures
            r == self@.pc() & 0xFFFF_FFFC,
    {
        self.pc() & 0xFFFF_FFFC
    }

    /// The operand that names the current location.
    fn here(&self) -> (r: Value)
        ensures
            r == self@.here(),
    {
        Value::ImmU64(self.current_location.to_location().0)
    }

    /// Reads a register. The program counter is known while translating and
    /// needs no instruction.
    pub fn get_register(&mut self, r: Reg) -> (v: Value)
        ensures
            (final(self)@, v) == old(self)@.get_register(r),
    {
        if r == Reg::R15 {
            Value::ImmU32(self.pc())
        } else {
            self.op1(Opcode::A32GetRegister, Value::ImmA32Reg(r))
        }
    }

    /// Applies `reverse` to a value if data is big-endian.
    fn swap(&mut self, reverse: Opcode, value: Value) -> (r: Value)
        ensures
            (final(self)@, r) == old(self)@.swap(reverse, value),
    {
        if self.current_location.e_flag() {
            self.op1(reverse, value)
        } else {
            value
        }
    }

    /// Writes a register.
    pub fn set_register(&mut self, r: Reg, value: Value)
        ensures
            final(self)@ == old(self)@.set_register(r, value),
    {
        self.op2(Opcode::A32SetRegister, Value::ImmA32Reg(r), value);
    }

    /// Reads a vector register.
    pub fn get_vector(&mut self, source: ExtReg) -> (r: Value)
        ensures
            (final(self)@, r) == old(self)@.get_vector(source),
    {
        self.op1(Opcode::A32GetVector, Value::ImmA32ExtReg(source))
    }

    /// Writes a vector register.
    pub fn set_vector(&mut self, r: ExtReg, value: Value)
        ensures
            final(self)@ == old(self)@.set_vector(r, value),
    {
        self.op2(Opcode::A32SetVector, Value::ImmA32ExtReg(r), value);
    }

    /// Reads a double-word extension register.
    pub fn get_extended_register_64(&mut self, source: ExtReg) -> (r: Value)
        ensures
            (final(self)@, r) == old(self)@.op1(
                Opcode::A32GetExtendedRegister64,
                Value::ImmA32ExtReg(source),
            ),
    {
        self.op1(Opcode::A32GetExtendedRegister64, Value::ImmA32ExtReg(source))
    }

    /// Writes a double-word extension register.
    pub fn set_extended_register_64(&mut self, r: ExtReg, value: Value)
        ensures
            final(self)@ == old(self)@.op2(
                Opcode::A32SetExtendedRegister64,
                Value::ImmA32ExtReg(r),
                value,
            ).0,
    {
        self.op2(Opcode::A32SetExtendedRegister64, Value::ImmA32ExtReg(r), value);
    }

    /// Reads the carry flag.
    pub fn get_c_flag(&mut self) -> (r: Value)
        ensures
            (final(self)@, r) == old(self)@.op0(Opcode::A32GetCFlag),
    {
        self.op0(Opcode::A32GetCFlag)
    }

    /// Reads the program status register.
    pub fn get_cpsr(&mut self) -> (r: Value)
        ensures
            (final(self)@, r) == old(self)@.op0(Opcode::A32GetCpsr),
    {
        self.op0(Opcode::A32GetCpsr)
    }

    /// Writes the program status register.
    pub fn set_cpsr(&mut self, value: Value)
        ensures
            final(self)@ == old(self)@.op1(Opcode::A32SetCpsr, value).0,
    {
        self.op1(Opcode::A32SetCpsr, value);
    }

    /// Writes the four flags from the top bits of a word.
    pub fn set_cpsr_nzcv_raw(&mut self, value: Value)
        ensures
            final(self)@ == old(self)@.op1(Opcode::A32SetCpsrNZCVRaw, value).0,
    {
        self.op1(Opcode::A32SetCpsrNZCVRaw, value);
    }

    /// Writes the four flags.
    pub fn set_cpsr_nzcv(&mut self, value: Value)
        ensures
            final(self)@ == old(self)@.op1(Opcode::A32SetCpsrNZCV, value).0,
    {
        self.op1(Opcode::A32SetCpsrNZCV, value);
    }

    /// Writes the four flags and the saturation flag from the top bits of a word.
    pub fn set_cpsr_nzcvq(&mut self, value: Value)
        ensures
            final(self)@ == old(self)@.op1(Opcode::A32SetCpsrNZCVQ, value).0,
    {
        self.op1(Opcode::A32SetCpsrNZCVQ, value);
    }

    /// Writes the sign and zero flags.
    pub fn set_cpsr_nz(&mut self, value: Value)
        ensures
            final(self)@ == old(self)@.op1(Opcode::A32SetCpsrNZ, value).0,
    {
        self.op1(Opcode::A32SetCpsrNZ, value);
    }

    /// Sets the saturation flag if the operand is true.
    pub fn or_q_flag(&mut self, value: Value)
        ensures
            final(self)@ == old(self)@.op1(Opcode::A32OrQFlag, value).0,
    {
        self.op1(Opcode::A32OrQFlag, value);
    }

    /// Writes the greater-or-equal flags from bits 19 to 16 of a word.
    pub fn set_ge_flags_compressed(&mut self, value: Value)
        ensures
            final(self)@ == old(self)@.op1(Opcode::A32SetGEFlagsCompressed, value).0,
    {
        self.op1(Opcode::A32SetGEFlagsCompressed, value);
    }

    /// Writes the check bit.
    pub fn set_check_bit(&mut self, value: Value)
        ensures
            final(self)@ == old(self)@.op1(Opcode::A32SetCheckBit, value).0,
    {
        self.op1(Opcode::A32SetCheckBit, value);
    }

    /// Branches to an address whose lowest bit selects the instruction set.
    pub fn bx_write_pc(&mut self, value: Value)
        ensures
            final(self)@ == old(self)@.op1(Opcode::A32BXWritePC, value).0,
    {
        self.op1(Opcode::A32BXWritePC, value);
    }

    /// Writes the sign, zero and carry flags.
    pub fn set_cpsr_nzc(&mut self, nz: Value, c: Value)
        ensures
            final(self)@ == old(self)@.op2(Opcode::A32SetCpsrNZC, nz, c).0,
    {
        self.op2(Opcode::A32SetCpsrNZC, nz, c);
    }

    /// Branches to an address within the current instruction set.
    pub fn branch_write_pc(&mut self, value: Value)
        ensures
            final(self)@ == old(self)@.branch_write_pc(value),
    {
        let mask: u32 = if self.current_location.t_flag() { 0xFFFF_FFFE } else { 0xFFFF_FFFC };
        let target = self.op2(Opcode::And32, value, Value::ImmU32(mask));
        self.set_register(Reg::R15, target);
    }

    /// Writes the result of a data-processing operation to the program counter.
    pub fn alu_write_pc(&mut self, value: Value)
        ensures
            final(self)@ == old(self)@.branch_write_pc(value),
    {
        self.branch_write_pc(value);
    }

    /// Writes a loaded word to the program counter.
    pub fn load_write_pc(&mut self, value: Value)
        ensures
            final(self)@ == old(self)@.op1(Opcode::A32BXWritePC, value).0,
    {
        self.bx_write_pc(value);
    }

    /// Calls the supervisor.
    pub fn call_supervisor(&mut self, imm: u32)
        ensures
            final(self)@ == old(self)@.op1(Opcode::A32CallSupervisor, Value::ImmU32(imm)).0,
    {
        self.op1(Opcode::A32CallSupervisor, Value::ImmU32(imm));
    }

    /// Reports an exception.
    pub fn exception_raised(&mut self, exception: Exception)
        ensures
            final(self)@ == old(self)@.exception_raised(exception),
    {
        let pc: u32 = self.current_location.pc();
        let number: u64 = exception.as_u32() as u64;
        self.op2(Opcode::A32ExceptionRaised, Value::ImmU32(pc), Value::ImmU64(number));
    }

    /// Notes the state in which execution will go on.
    pub fn update_upper_location_descriptor(&mut self)
        ensures
            final(self)@ == old(self)@.update_upper_location_descriptor(),
    {
        self.op0(Opcode::A32UpdateUpperLocationDescriptor);
    }

    /// Notes a return address for later prediction.
    pub fn push_rsb(&mut self, location: LocationDescriptor)
        ensures
            final(self)@ == old(self)@.push_rsb(location),
    {
        self.op1(Opcode::PushRSB, Value::ImmU64(location.0));
    }

    /// Gives up claimed memory.
    pub fn clear_exclusive(&mut self)
        ensures
            final(self)@ == old(self)@.op0(Opcode::A32ClearExclusive).0,
    {
        self.op0(Opcode::A32ClearExclusive);
    }

    /// Orders memory accesses.
    pub fn data_memory_barrier(&mut self)
        ensures
            final(self)@ == old(self)@.op0(Opcode::A32DataMemoryBarrier).0,
    {
        self.op0(Opcode::A32DataMemoryBarrier);
    }

    /// Waits for memory accesses.
    pub fn data_synchronization_barrier(&mut self)
        ensures
            final(self)@ == old(self)@.op0(Opcode::A32DataSynchronizationBarrier).0,
    {
        self.op0(Opcode::A32DataSynchronizationBarrier);
    }

    /// Discards prefetched instructions.
    pub fn instruction_synchronization_barrier(&mut self)
        ensures
            final(self)@ == old(self)@.op0(Opcode::A32InstructionSynchronizationBarrier).0,
    {
        self.op0(Opcode::A32InstructionSynchronizationBarrier);
    }

    /// Reads a byte of memory.
    pub fn read_memory_8(&mut self, address: Value, acc: AccType) -> (r: Value)
        ensures
            (final(self)@, r) == old(self)@.read_memory_8(address, acc),
    {
        let here = self.here();
        self.op3(Opcode::A32ReadMemory8, here, address, Value::ImmAccType(acc))
    }

    /// Reads a halfword of memory.
    pub fn read_memory_16(&mut self, address: Value, acc: AccType) -> (r: Value)
        ensures
            (final(self)@, r) == old(self)@.read_memory_16(address, acc),
    {
        let here = self.here();
        let value = self.op3(Opcode::A32ReadMemory16, here, address, Value::ImmAccType(acc));
        self.swap(Opcode::ByteReverseHalf, value)
    }

    /// Reads a word of memory.
    pub fn read_memory_32(&mut self, address: Value, acc: AccType) -> (r: Value)
        ensures
            (final(self)@, r) == old(self)@.read_memory_32(address, acc),
    {
        let here = self.here();
        let value = self.op3(Opcode::A32ReadMemory32, here, address, Value::ImmAccType(acc));
        self.swap(Opcode::ByteReverseWord, value)
    }

    /// Reads a double word of memory.
    pub fn read_memory_64(&mut self, address: Value, acc: AccType) -> (r: Value)
        ensures
            (final(self)@, r) == old(self)@.read_memory_64(address, acc),
    {
        let here = self.here();
        let value = self.op3(Opcode::A32ReadMemory64, here, address, Value::ImmAccType(acc));
        self.swap(Opcode::ByteReverseDual, value)
    }

    /// Reads a byte of memory and claims it.
    pub fn exclusive_read_memory_8(&mut self, address: Value, acc: AccType) -> (r: Value)
        ensures
            (final(self)@, r) == old(self)@.exclusive_read_memory_8(address, acc),
    {
        let here = self.here();
        self.op3(Opcode::A32ExclusiveReadMemory8, here, address, Value::ImmAccType(acc))
    }

    /// Reads a halfword of memory and claims it.
    pub fn exclusive_read_memory_16(&mut self, address: Value, acc: AccType) -> (r: Value)
        ensures
            (final(self)@, r) == old(self)@.exclusive_read_memory_16(address, acc),
    {
        let here = self.here();
        let value = self.op3(
            Opcode::A32ExclusiveReadMemory16,
            here,
            address,
            Value::ImmAccType(acc),
        );
        self.swap(Opcode::ByteReverseHalf, value)
    }

    /// Reads a word of memory and claims it.
    pub fn exclusive_read_memory_32(&mut self, address: Value, acc: AccType) -> (r: Value)
        ensures
            (final(self)@, r) == old(self)@.exclusive_read_memory_32(address, acc),
    {
        let here = self.here();
        let value = self.op3(
            Opcode::A32ExclusiveReadMemory32,
            here,
            address,
            Value::ImmAccType(acc),
        );
        self.swap(Opcode::ByteReverseWord, value)
    }

    /// Reads a double word of memory, claims it, and gives its words in the
    /// order of their addresses.
    pub fn exclusive_read_memory_64(&mut self, address: Value, acc: AccType) -> (r: (Value, Value))
        ensures
            (final(self)@, r) == old(self)@.exclusive_read_memory_64(address, acc),
    {
        let here = self.here();
        let value = self.op3(
            Opcode::A32ExclusiveReadMemory64,
            here,
            address,
            Value::ImmAccType(acc),
        );
        let lo = self.least_significant_word(value);
        let hi = self.most_significant_word(value).result;
        if self.current_location.e_flag() {
            let first = self.byte_reverse_word(lo);
            let second = self.byte_reverse_word(hi);
            (first, second)
        } else {
            (lo, hi)
        }
    }

    /// Writes a byte of memory.
    pub fn write_memory_8(&mut self, address: Value, value: Value, acc: AccType)
        ensures
            final(self)@ == old(self)@.write_memory_8(address, value, acc),
    {
        let here = self.here();
        self.op4(Opcode::A32WriteMemory8, here, address, value, Value::ImmAccType(acc));
    }

    /// Writes a halfword of memory.
    pub fn write_memory_16(&mut self, address: Value, value: Value, acc: AccType)
        ensures
            final(self)@ == old(self)@.write_memory_16(address, value, acc),
    {
        let value = self.swap(Opcode::ByteReverseHalf, value);
        let here = self.here();
        self.op4(Opcode::A32WriteMemory16, here, address, value, Value::ImmAccType(acc));
    }

    /// Writes a word of memory.
    pub fn write_memory_32(&mut self, address: Value, value: Value, acc: AccType)
        ensures
            final(self)@ == old(self)@.write_memory_32(address, value, acc),
    {
        let value = self.swap(Opcode::ByteReverseWord, value);
        let here = self.here();
        self.op4(Opcode::A32WriteMemory32, here, address, value, Value::ImmAccType(acc));
    }

    /// Writes a double word of memory.
    pub fn write_memory_64(&mut self, address: Value, value: Value, acc: AccType)
        ensures
            final(self)@ == old(self)@.write_memory_64(address, value, acc),
    {
        let value = self.swap(Opcode::ByteReverseDual, value);
        let here = self.here();
        self.op4(Opcode::A32WriteMemory64, here, address, value, Value::ImmAccType(acc));
    }

    /// Writes a byte of memory if it is still claimed; gives 0 on success.
    pub fn exclusive_write_memory_8(
        &mut self,
        address: Value,
        value: Value,
        acc: AccType,
    ) -> (r: Value)
        ensures
            (final(self)@, r) == old(self)@.exclusive_write_memory_8(address, value, acc),
    {
        let here = self.here();
        self.op4(Opcode::A32ExclusiveWriteMemory8, here, address, value, Value::ImmAccType(acc))
    }

    /// Writes a halfword of memory if it is still claimed; gives 0 on success.
    pub fn exclusive_write_memory_16(
        &mut self,
        address: Value,
        value: Value,
        acc: AccType,
    ) -> (r: Value)
        ensures
            (final(self)@, r) == old(self)@.exclusive_write_memory_16(address, value, acc),
    {
        let value = self.swap(Opcode::ByteReverseHalf, value);
        let here = self.here();
        self.op4(Opcode::A32ExclusiveWriteMemory16, here, address, value, Value::ImmAccType(acc))
    }

    /// Writes a word of memory if it is still claimed; gives 0 on success.
    pub fn exclusive_write_memory_32(
        &mut self,
        address: Value,
        value: Value,
        acc: AccType,
    ) -> (r: Value)
        ensures
            (final(self)@, r) == old(self)@.exclusive_write_memory_32(address, value, acc),
    {
        let value = self.swap(Opcode::ByteReverseWord, value);
        let here = self.here();
        self.op4(Opcode::A32ExclusiveWriteMemory32, here, address, value, Value::ImmAccType(acc))
    }

    /// Writes two words of memory if they are still claimed; gives 0 on
    /// success. `first` goes to the lower address.
    pub fn exclusive_write_memory_64(
        &mut self,
        address: Value,
        first: Value,
        second: Value,
        acc: AccType,
    ) -> (r: Value)
        ensures
            (final(self)@, r) == old(self)@.exclusive_write_memory_64(address, first, second, acc),
    {
        let first = self.swap(Opcode::ByteReverseWord, first);
        let second = self.swap(Opcode::ByteReverseWord, second);
        let value = self.pack_2x32_to_1x64(first, second);
        let here = self.here();
        self.op4(Opcode::A32ExclusiveWriteMemory64, here, address, value, Value::ImmAccType(acc))
    }

    /// Emits the high word of a double word, and the bit below it.
    pub fn most_significant_word(&mut self, value: Value) -> (r: ResultAndCarry)
        ensures
            (final(self)@, r) == old(self)@.most_significant_word(value),
    {
        let result = self.op1(Opcode::MostSignificantWord, value);
        let carry = self.get_carry_from_op(result);
        ResultAndCarry { result, carry }
    }

    /// Emits a word saturated to a signed number of `bits` bits.
    pub fn signed_saturation(&mut self, value: Value, bits: u8) -> (r: ResultAndOverflow)
        ensures
            (final(self)@, r) == old(self)@.signed_saturation(value, bits),
    {
        let result = self.op2(Opcode::SignedSaturation, value, Value::ImmU8(bits));
        let overflow = self.get_overflow_from_op(result);
        ResultAndOverflow { result, overflow }
    }

    /// Emits a word saturated to an unsigned number of `bits` bits.
    pub fn unsigned_saturation(&mut self, value: Value, bits: u8) -> (r: ResultAndOverflow)
        ensures
            (final(self)@, r) == old(self)@.unsigned_saturation(value, bits),
    {
        let result = self.op2(Opcode::UnsignedSaturation, value, Value::ImmU8(bits));
        let overflow = self.get_overflow_from_op(result);
        ResultAndOverflow { result, overflow }
    }

    /// Emits the sums of the halfwords of two words.
    pub fn packed_add_u16(&mut self, a: Value, b: Value) -> (r: ResultAndGE)
        ensures
            (final(self)@, r) == old(self)@.packed_add_u16(a, b),
    {
        let result = self.op2(Opcode::PackedAddU16, a, b);
        let ge = self.get_ge_from_op(result);
        ResultAndGE { result, ge }
    }

    /// Emits the lane-wise unsigned `a > b`.
    pub fn vector_greater_unsigned(&mut self, esize: usize, a: Value, b: Value) -> (r: Value)
        requires
            esize == 8 || esize == 16 || esize == 32 || esize == 64,
        ensures
            (final(self)@, r) == old(self)@.vector_greater_unsigned(esize, a, b),
    {
        let smaller = self.vector_min_unsigned(esize, a, b);
        let equal = self.vector_equal(esize, smaller, a);
        self.vector_not(equal)
    }

    /// Emits the lane-wise unsigned `a >= b`.
    pub fn vector_greater_equal_unsigned(&mut self, esize: usize, a: Value, b: Value) -> (r: Value)
        requires
            esize == 8 || esize == 16 || esize == 32 || esize == 64,
        ensures
            (final(self)@, r) == old(self)@.vector_greater_equal_unsigned(esize, a, b),
    {
        let greater = self.vector_max_unsigned(esize, a, b);
        self.vector_equal(esize, greater, a)
    }

    /// Emits the lane-wise signed `a >= b`.
    pub fn vector_greater_equal_signed(&mut self, esize: usize, a: Value, b: Value) -> (r: Value)
        requires
            esize == 8 || esize == 16 || esize == 32 || esize == 64,
        ensures
            (final(self)@, r) == old(self)@.vector_greater_equal_signed(esize, a, b),
    {
        let greater = self.vector_greater_signed(esize, a, b);
        let equal = self.vector_equal(esize, a, b);
        self.vector_or(greater, equal)
    }

    /// Emits the lane-wise signed `a < b`.
    pub fn vector_less_signed(&mut self, esize: usize, a: Value, b: Value) -> (r: Value)
        requires
            esize == 8 || esize == 16 || esize == 32 || esize == 64,
        ensures
            (final(self)@, r) == old(self)@.vector_less_signed(esize, a, b),
    {
        let greater_equal = self.vector_greater_equal_signed(esize, a, b);
        self.vector_not(greater_equal)
    }

    /// Emits the lane-wise signed `a <= b`.
    pub fn vector_less_equal_signed(&mut self, esize: usize, a: Value, b: Value) -> (r: Value)
        requires
            esize == 8 || esize == 16 || esize == 32 || esize == 64,
        ensures
            (final(self)@, r) == old(self)@.vector_less_equal_signed(esize, a, b),
    {
        let greater = self.vector_greater_signed(esize, a, b);
        self.vector_not(greater)
    }

    /// Emits the quad word that starts `position` bits into a pair of quad words.
    pub fn vector_extract(&mut self, a: Value, b: Value, position: u8) -> (r: Value)
        ensures
            (final(self)@, r) == old(self)@.op3(
                Opcode::VectorExtract,
                a,
                b,
                Value::ImmU8(position),
            ),
    {
        self.op3(Opcode::VectorExtract, a, b, Value::ImmU8(position))
    }

    /// Emits the double word that starts `position` bits into a pair of double words.
    pub fn vector_extract_lower(&mut self, a: Value, b: Value, position: u8) -> (r: Value)
        ensures
            (final(self)@, r) == old(self)@.op3(
                Opcode::VectorExtractLower,
                a,
                b,
                Value::ImmU8(position),
            ),
    {
        self.op3(Opcode::VectorExtractLower, a, b, Value::ImmU8(position))
    }

    /// Runs an operation of a coprocessor.
    pub fn coproc_internal_operation(
        &mut self,
        coproc_no: usize,
        two: bool,
        opc1: usize,
        crd: CoprocReg,
        crn: CoprocReg,
        crm: CoprocReg,
        opc2: usize,
    )
        ensures
            final(self)@ == old(self)@.op1(
                Opcode::A32CoprocInternalOperation,
                Value::ImmCoprocInfo(
                    CoprocInfo { opc1, crd, crn, crm, opc2, ..coproc_info(coproc_no, two) },
                ),
            ).0,
    {
        self.op1(
            Opcode::A32CoprocInternalOperation,
            Value::ImmCoprocInfo(
                CoprocInfo { opc1, crd, crn, crm, opc2, ..coproc_info(coproc_no, two) },
            ),
        );
    }

    /// Sends a word to a coprocessor.
    pub fn coproc_send_one_word(
        &mut self,
        coproc_no: usize,
        two: bool,
        opc1: usize,
        crn: CoprocReg,
        crm: CoprocReg,
        opc2: usize,
        word: Value,
    )
        ensures
            final(self)@ == old(self)@.op2(
                Opcode::A32CoprocSendOneWord,
                Value::ImmCoprocInfo(
                    CoprocInfo { opc1, crn, crm, opc2, ..coproc_info(coproc_no, two) },
                ),
                word,
            ).0,
    {
        self.op2(
            Opcode::A32CoprocSendOneWord,
            Value::ImmCoprocInfo(
                CoprocInfo { opc1, crn, crm, opc2, ..coproc_info(coproc_no, two) },
            ),
            word,
        );
    }

    /// Sends two words to a coprocessor.
    pub fn coproc_send_two_words(
        &mut self,
        coproc_no: usize,
        two: bool,
        opc1: usize,
        crm: CoprocReg,
        word1: Value,
        word2: Value,
    )
        ensures
            final(self)@ == old(self)@.op3(
                Opcode::A32CoprocSendTwoWords,
                Value::ImmCoprocInfo(CoprocInfo { opc1, crm, ..coproc_info(coproc_no, two) }),
                word1,
                word2,
            ).0,
    {
        self.op3(
            Opcode::A32CoprocSendTwoWords,
            Value::ImmCoprocInfo(CoprocInfo { opc1, crm, ..coproc_info(coproc_no, two) }),
            word1,
            word2,
        );
    }

    /// Gets a word from a coprocessor.
    pub fn coproc_get_one_word(
        &mut self,
        coproc_no: usize,
        two: bool,
        opc1: usize,
        crn: CoprocReg,
        crm: CoprocReg,
        opc2: usize,
    ) -> (r: Value)
        ensures
            (final(self)@, r) == old(self)@.op1(
                Opcode::A32CoprocGetOneWord,
                Value::ImmCoprocInfo(
                    CoprocInfo { opc1, crn, crm, opc2, ..coproc_info(coproc_no, two) },
                ),
            ),
    {
        self.op1(
            Opcode::A32CoprocGetOneWord,
            Value::ImmCoprocInfo(
                CoprocInfo { opc1, crn, crm, opc2, ..coproc_info(coproc_no, two) },
            ),
        )
    }

    /// Gets a double word from a coprocessor.
    pub fn coproc_get_two_words(
        &mut self,
        coproc_no: usize,
        two: bool,
        opc1: usize,
        crm: CoprocReg,
    ) -> (r: Value)
        ensures
            (final(self)@, r) == old(self)@.op1(
                Opcode::A32CoprocGetTwoWords,
                Value::ImmCoprocInfo(CoprocInfo { opc1, crm, ..coproc_info(coproc_no, two) }),
            ),
    {
        self.op1(
            Opcode::A32CoprocGetTwoWords,
            Value::ImmCoprocInfo(CoprocInfo { opc1, crm, ..coproc_info(coproc_no, two) }),
        )
    }

    /// Loads words of memory into a coprocessor.
    pub fn coproc_load_words(
        &mut self,
        coproc_no: usize,
        two: bool,
        long_transfer: bool,
        crd: CoprocReg,
        option: Option<u8>,
        address: Value,
    )
        ensures
            final(self)@ == old(self)@.op2(
                Opcode::A32CoprocLoadWords,
                Value::ImmCoprocInfo(
                    CoprocInfo { long_transfer, crd, option, ..coproc_info(coproc_no, two) },
                ),
                address,
            ).0,
    {
        self.op2(
            Opcode::A32CoprocLoadWords,
            Value::ImmCoprocInfo(
                CoprocInfo { long_transfer, crd, option, ..coproc_info(coproc_no, two) },
            ),
            address,
        );
    }

    /// Stores words of a coprocessor into memory.
    pub fn coproc_store_words(
        &mut self,
        coproc_no: usize,
        two: bool,
        long_transfer: bool,
        crd: CoprocReg,
        option: Option<u8>,
        address: Value,
    )
        ensures
            final(self)@ == old(self)@.op2(
                Opcode::A32CoprocStoreWords,
                Value::ImmCoprocInfo(
                    CoprocInfo { long_transfer, crd, option, ..coproc_info(coproc_no, two) },
                ),
                address,
            ).0,
    {
        self.op2(
            Opcode::A32CoprocStoreWords,
            Value::ImmCoprocInfo(
                CoprocInfo { long_transfer, crd, option, ..coproc_info(coproc_no, two) },
            ),
            address,
        );
    }

    /// Emits a table of `len` vectors, at least one and at most four of which
    /// the first `len` of the operands are.
    pub fn vector_table(&mut self, len: usize, a: Value, b: Value, c: Value, d: Value) -> (r: Value)
        requires
            1 <= len <= 4,
        ensures
            (final(self)@, r) == old(self)@.vector_table(len as int, a, b, c, d),
    {
        match len {
            1 => self.op1(Opcode::VectorTable, a),
            2 => self.op2(Opcode::VectorTable, a, b),
            3 => self.op3(Opcode::VectorTable, a, b, c),
            _ => self.op4(Opcode::VectorTable, a, b, c, d),
        }
    }
}

/// The operands of a coprocessor instruction with nothing but a coprocessor
/// and the choice between the two encodings.
#[verifier::allow_in_spec]
pub fn coproc_info(coproc_no: usize, two: bool) -> CoprocInfo
    returns
        (CoprocInfo {
            coproc_no,
            two,
            long_transfer: false,
            opc1: 0,
            crd: CoprocReg { number: 0 },
            crn: CoprocReg { number: 0 },
            crm: CoprocReg { number: 0 },
            opc2: 0,
            option: None,
        }),
{
    CoprocInfo {
        coproc_no,
        two,
        long_transfer: false,
        opc1: 0,
        crd: CoprocReg { number: 0 },
        crn: CoprocReg { number: 0 },
        crm: CoprocReg { number: 0 },
        opc2: 0,
        option: None,
    }
}

} // verus!
