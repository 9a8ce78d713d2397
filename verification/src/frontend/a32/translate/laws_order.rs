//! Order and number of the effects of instructions.

use vstd::prelude::*;
use super::branch::arm_blx_reg_ir;
use super::hint::hint_ir;
use super::load_store::{
    arm_ldrd_imm_ir, arm_ldrd_lit_ir, arm_ldrd_reg_ir, arm_strd_imm_ir, arm_strd_reg_ir,
};
use super::synchronization::exclusive_store_double_ir;
use super::thumb16::{
    extra_listed, listed, listed_count, thumb16_blx_reg_ir, thumb16_pop_ir, thumb16_push_ir,
};
use super::thumb32::translate_thumb32_ir;
use super::{raise_ir, unpredictable_ir, TranslationOptions};
use crate::frontend::a32::decoder::DecodedArm;
use crate::frontend::a32::decoder_thumb16::DecodedThumb16;
use crate::frontend::a32::decoder_thumb32::{DecodedThumb32, Thumb32InstId};
use crate::frontend::a32::types::{Exception, Reg};
use crate::ir::a32_emitter::EmitterState;
use crate::ir::acc_type::AccType;
use crate::ir::block::Inst;
use crate::ir::opcode::Opcode;
use crate::ir::terminal::{halt_or, Terminal};
use crate::ir::value::Value;

verus! {

/// An exception ends the block in the same way everywhere: the state in which
/// execution will go on is noted first, the program counter is moved past the
/// instruction, and the report of the exception comes last.
pub proof fn exceptions_are_reported_last(s: EmitterState, exception: Exception, size: u32)
    ensures
        ({
            let (t, go_on) = raise_ir(s, exception, size);
            let first = s.code.len() as int;
            &&& !go_on
            &&& t.code.len() == first + 4
            &&& t.code[first].opcode == Opcode::A32UpdateUpperLocationDescriptor
            &&& t.code[first + 1].args.0 == Value::ImmU32(s.loc.pc().wrapping_add(size))
            &&& t.code[first + 2].opcode == Opcode::A32SetRegister
            &&& t.code[first + 2].args.0 == Value::ImmA32Reg(Reg::R15)
            &&& t.code[first + 3].opcode == Opcode::A32ExceptionRaised
            &&& t.code[first + 3].args.1 == Value::ImmU64(exception.as_u32() as u64)
            &&& t.terminal == halt_or(Terminal::ReturnToDispatch)
        }),
{
}

/// Hints do nothing unless they are hooked.
pub proof fn hints_do_nothing_unless_hooked(
    s: EmitterState,
    options: TranslationOptions,
    exception: Exception,
)
    ensures
        hint_ir(s, options, exception) == if options.hook_hint_instructions {
            raise_ir(s, exception, 4)
        } else {
            (s, true)
        },
{
}

/// A branch with link to a register takes its target before it writes the
/// link register, so that the two may be the same register.
pub proof fn link_is_written_after_the_branch(s: EmitterState, inst: DecodedArm)
    ensures
        ({
            let code = arm_blx_reg_ir(s, inst).0.code;
            let last = code.len() - 1;
            &&& s.code.len() < last
            &&& code[last - 1].opcode == Opcode::A32BXWritePC
            &&& code[last].opcode == Opcode::A32SetRegister
            &&& code[last].args.0 == Value::ImmA32Reg(Reg::R14)
            &&& code[last].args.1 == Value::ImmU32(s.loc.pc().wrapping_add(4))
        }),
{
}

/// The same holds of Thumb code, where the link has bit 0 set.
pub proof fn thumb_link_is_written_after_the_branch(s: EmitterState, inst: DecodedThumb16)
    ensures
        ({
            let code = thumb16_blx_reg_ir(s, inst).0.code;
            let last = code.len() - 1;
            &&& s.code.len() < last
            &&& code[last - 1].opcode == Opcode::A32BXWritePC
            &&& code[last].opcode == Opcode::A32SetRegister
            &&& code[last].args.0 == Value::ImmA32Reg(Reg::R14)
            &&& code[last].args.1 == Value::ImmU32(s.loc.pc().wrapping_add(2) | 1)
        }),
{
}

/// Whether an operation accesses guest memory.
pub open spec fn accesses_memory(opcode: Opcode) -> bool {
    match opcode {
        Opcode::A32ReadMemory8 | Opcode::A32ReadMemory16 | Opcode::A32ReadMemory32
        | Opcode::A32ReadMemory64 | Opcode::A32WriteMemory8 | Opcode::A32WriteMemory16
        | Opcode::A32WriteMemory32 | Opcode::A32WriteMemory64 | Opcode::A32ExclusiveReadMemory8
        | Opcode::A32ExclusiveReadMemory16 | Opcode::A32ExclusiveReadMemory32
        | Opcode::A32ExclusiveReadMemory64 | Opcode::A32ExclusiveWriteMemory8
        | Opcode::A32ExclusiveWriteMemory16 | Opcode::A32ExclusiveWriteMemory32
        | Opcode::A32ExclusiveWriteMemory64 => true,
        _ => false,
    }
}

/// The memory accesses among the instructions from number `from` on.
#[verifier::opaque]
pub open spec fn memory_accesses(s: EmitterState, from: nat) -> Seq<Opcode> {
    s.code.skip(from as int).map_values(|inst: Inst| inst.opcode).filter(
        |opcode: Opcode| accesses_memory(opcode),
    )
}

proof fn nothing_accesses_memory(s: EmitterState)
    ensures
        memory_accesses(s, s.code.len()) =~= Seq::<Opcode>::empty(),
{
    reveal(memory_accesses);
    reveal(Seq::filter);
    assert(s.code.skip(s.code.len() as int).map_values(|inst: Inst| inst.opcode)
        =~= Seq::<Opcode>::empty());
}

broadcast proof fn emission_accesses_memory(s: EmitterState, inst: Inst, from: nat)
    requires
        from <= s.code.len(),
    ensures
        #[trigger] memory_accesses(s.emit(inst).0, from) == if accesses_memory(inst.opcode) {
            memory_accesses(s, from).push(inst.opcode)
        } else {
            memory_accesses(s, from)
        },
{
    reveal(memory_accesses);
    reveal(Seq::filter);
    let before = s.code.skip(from as int).map_values(|i: Inst| i.opcode);
    let after = s.code.push(inst).skip(from as int).map_values(|i: Inst| i.opcode);
    assert(after =~= before.push(inst.opcode));
    assert(after.drop_last() =~= before);
}

/// A load of a double word accesses memory once, so that it cannot be torn.
pub proof fn double_loads_access_memory_once(s: EmitterState, inst: DecodedArm)
    ensures
        arm_ldrd_imm_ir(s, inst).1 ==> memory_accesses(arm_ldrd_imm_ir(s, inst).0, s.code.len())
            == seq![Opcode::A32ReadMemory64],
        arm_ldrd_reg_ir(s, inst).1 ==> memory_accesses(arm_ldrd_reg_ir(s, inst).0, s.code.len())
            == seq![Opcode::A32ReadMemory64],
        arm_ldrd_lit_ir(s, inst).1 ==> memory_accesses(arm_ldrd_lit_ir(s, inst).0, s.code.len())
            == seq![Opcode::A32ReadMemory64],
{
    broadcast use emission_accesses_memory;

    nothing_accesses_memory(s);
    assert(Seq::<Opcode>::empty().push(Opcode::A32ReadMemory64) =~= seq![Opcode::A32ReadMemory64]);
}

/// A store of a double word accesses memory once, so that it cannot be torn.
pub proof fn double_store_accesses_memory_once(s: EmitterState, inst: DecodedArm)
    ensures
        memory_accesses(arm_strd_imm_ir(s, inst).0, s.code.len()) == seq![Opcode::A32WriteMemory64],
{
    broadcast use emission_accesses_memory;

    nothing_accesses_memory(s);
    assert(Seq::<Opcode>::empty().push(Opcode::A32WriteMemory64)
        =~= seq![Opcode::A32WriteMemory64]);
}

/// So does a store of a double word with a register offset.
pub proof fn double_register_store_accesses_memory_once(s: EmitterState, inst: DecodedArm)
    ensures
        memory_accesses(arm_strd_reg_ir(s, inst).0, s.code.len()) == seq![Opcode::A32WriteMemory64],
{
    broadcast use emission_accesses_memory;

    nothing_accesses_memory(s);
    assert(Seq::<Opcode>::empty().push(Opcode::A32WriteMemory64)
        =~= seq![Opcode::A32WriteMemory64]);
}

/// So does an exclusive store of a double word, unless it is refused.
pub proof fn exclusive_double_store_accesses_memory_once(
    s: EmitterState,
    inst: DecodedArm,
    acc: AccType,
)
    ensures
        exclusive_store_double_ir(s, inst, acc).1 ==> memory_accesses(
            exclusive_store_double_ir(s, inst, acc).0,
            s.code.len(),
        ) == seq![Opcode::A32ExclusiveWriteMemory64],
{
    broadcast use emission_accesses_memory;

    nothing_accesses_memory(s);
    assert(Seq::<Opcode>::empty().push(Opcode::A32ExclusiveWriteMemory64)
        =~= seq![Opcode::A32ExclusiveWriteMemory64]);
}

/// An empty register list is unpredictable; nothing is read before that is
/// reported.
pub proof fn empty_lists_are_unpredictable(s: EmitterState, inst: DecodedThumb16)
    requires
        forall|i: int| 0 <= i < 8 ==> !listed(inst, i),
        !extra_listed(inst),
    ensures
        thumb16_push_ir(s, inst) == unpredictable_ir(s),
        thumb16_pop_ir(s, inst) == unpredictable_ir(s),
{
    reveal_with_fuel(listed_count, 9);
}

/// A preload with the program counter as its offset is unpredictable, whether
/// hints are hooked or not.
pub proof fn preload_operands_are_checked_first(
    s: EmitterState,
    inst: DecodedThumb32,
    options: TranslationOptions,
)
    requires
        inst.id == Thumb32InstId::PLD_reg || inst.id == Thumb32InstId::PLI_reg,
        inst.rm() == Reg::R15,
    ensures
        translate_thumb32_ir(s, inst, options) == unpredictable_ir(s),
{
}

/// Comparisons and tests write no register.
#[verifier::rlimit(30)]
pub proof fn comparisons_write_no_register(
    s: EmitterState,
    inst: DecodedThumb32,
    options: TranslationOptions,
)
    requires
        match inst.id {
            Thumb32InstId::TST_imm | Thumb32InstId::TEQ_imm | Thumb32InstId::CMN_imm
            | Thumb32InstId::CMP_imm | Thumb32InstId::TST_reg | Thumb32InstId::TEQ_reg
            | Thumb32InstId::CMN_reg | Thumb32InstId::CMP_reg => true,
            _ => false,
        },
    ensures
        ({
            let (t, go_on) = translate_thumb32_ir(s, inst, options);
            go_on ==> forall|i: int|
                s.code.len() <= i < t.code.len() ==> (#[trigger] t.code[i]).opcode
                    != Opcode::A32SetRegister
        }),
{
}

} // verus!
