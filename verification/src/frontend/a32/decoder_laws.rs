//! Which encodings come first.

use vstd::prelude::*;
use crate::frontend::a32::decoder::{arm_encoding, hint_encoding, vfp_encoding, ArmInstId};
use crate::frontend::a32::decoder_thumb16::{thumb16_encoding, Thumb16InstId};

verus! {

/// Hints come before the moves to the status register that they overlap,
/// whatever their condition. Reserved hints do nothing.
pub proof fn hints_come_first(instr: u32)
    requires
        instr & 0x0FFF_FFF0 == 0x0320_F000,
    ensures
        arm_encoding(instr) == hint_encoding(instr & 0xF),
{
}

/// The structure accesses that are not allocated are undefined.
pub proof fn unallocated_structure_accesses_are_undefined(instr: u32)
    requires
        instr & 0xFF90_0F00 == 0xF400_0B00 || instr & 0xFF90_0C00 == 0xF400_0C00 || instr
            & 0xFFB0_0C00 == 0xF480_0C00,
    ensures
        arm_encoding(instr) == ArmInstId::UDF,
{
    assert(instr & 0xFF90_0F00 == 0xF400_0B00 || instr & 0xFF90_0C00 == 0xF400_0C00 || instr
        & 0xFFB0_0C00 == 0xF480_0C00 ==> instr & 0x0FFF_FFF0 != 0x0320_F000 && instr & 0x0F90_0FF0
        != 0x0100_0040 && instr & 0x0F90_0FF0 != 0x0100_0240 && (instr >> 28) & 0xF == 0xF)
        by (bit_vector);
}

/// Loads and stores of several floating-point registers with a reserved
/// addressing mode are undefined.
pub proof fn reserved_register_list_modes_are_undefined(instr: u32)
    requires
        instr & 0x0FE0_0E00 == 0x0C00_0A00,
        instr >> 28 != 0xF,
    ensures
        arm_encoding(instr) == ArmInstId::UDF,
{
    assert(instr & 0x0FE0_0E00 == 0x0C00_0A00 && instr >> 28 != 0xF ==> {
        &&& instr & 0x0FFF_FFF0 != 0x0320_F000
        &&& instr & 0x0F90_0FF0 != 0x0100_0040
        &&& instr & 0x0F90_0FF0 != 0x0100_0240
        &&& (instr >> 28) & 0xF != 0xF
        &&& (instr >> 25) & 0x7 == 6
        &&& instr & 0x0FE0_0000 != 0x0C40_0000
        &&& (instr >> 8) & 0xF == 10 || (instr >> 8) & 0xF == 11
        &&& (instr >> 24) & 1 == 0
        &&& (instr >> 23) & 1 == 0
        &&& (instr >> 21) & 1 == 0
        &&& instr & 0x0F00_0000 == 0x0C00_0000
        &&& instr & 0x0FF0_0FD0 != 0x0C40_0A10
        &&& instr & 0x0FF0_0FD0 != 0x0C50_0A10
        &&& instr & 0x0FF0_0FD0 != 0x0C40_0B10
        &&& instr & 0x0FF0_0FD0 != 0x0C50_0B10
    }) by (bit_vector);
    no_data_processing(instr);
}

proof fn no_data_processing(instr: u32)
    requires
        instr & 0x0F00_0000 == 0x0C00_0000,
        instr & 0x0FF0_0FD0 != 0x0C40_0A10,
        instr & 0x0FF0_0FD0 != 0x0C50_0A10,
        instr & 0x0FF0_0FD0 != 0x0C40_0B10,
        instr & 0x0FF0_0FD0 != 0x0C50_0B10,
    ensures
        vfp_encoding(instr) is None,
{
    assert(forall|mask: u32|
        0x0F00_0000 <= mask <= 0x0FFF_FFFF && instr & 0x0F00_0000 == 0x0C00_0000 ==> (#[trigger] (
        instr & mask)) < 0x0D00_0000) by (bit_vector);
}

/// Floating-point instructions come before the coprocessor instructions that
/// they overlap.
pub proof fn floating_point_comes_before_coprocessors(instr: u32)
    requires
        vfp_encoding(instr) is Some,
        instr & 0x0F00_0000 == 0x0E00_0000 || instr & 0x0E00_0000 == 0x0C00_0000,
        instr >> 28 != 0xF,
    ensures
        arm_encoding(instr) == vfp_encoding(instr)->0,
{
    assert((instr & 0x0F00_0000 == 0x0E00_0000 || instr & 0x0E00_0000 == 0x0C00_0000) && instr >> 28
        != 0xF ==> {
        &&& instr & 0x0FFF_FFF0 != 0x0320_F000
        &&& instr & 0x0F90_0FF0 != 0x0100_0040
        &&& instr & 0x0F90_0FF0 != 0x0100_0240
        &&& (instr >> 28) & 0xF != 0xF
        &&& (instr >> 25) & 0x7 == 6 || ((instr >> 25) & 0x7 == 7 && instr & 0x100_0000 == 0)
    }) by (bit_vector);
}

/// The condition does not select the instruction: words that differ in
/// nothing but a proper condition encode the same instruction.
#[verifier::rlimit(60)]
pub proof fn condition_does_not_select_the_instruction(a: u32, b: u32)
    requires
        a & 0x0FFF_FFFF == b & 0x0FFF_FFFF,
        a >> 28 != 0xF,
        b >> 28 != 0xF,
    ensures
        arm_encoding(a) == arm_encoding(b),
{
    assert((a >> 28) & 0xF != 0xF && (b >> 28) & 0xF != 0xF) by (bit_vector)
        requires
            a >> 28 != 0xF,
            b >> 28 != 0xF,
    ;
    assert(forall|m: u32| m <= 0x0FFF_FFFF ==> #[trigger] (a & m) == b & m) by (bit_vector)
        requires
            a & 0x0FFF_FFFF == b & 0x0FFF_FFFF,
    ;
    assert(forall|k: u32, m: u32|
        k <= 20 && m <= 0xFF || k <= 24 && m <= 0xF || k == 25 && m <= 7 ==> #[trigger] ((a >> k)
            & m) == (b >> k) & m) by (bit_vector)
        requires
            a & 0x0FFF_FFFF == b & 0x0FFF_FFFF,
    ;
}

/// An If-Then instruction has at least one instruction after it.
pub proof fn if_then_has_a_mask(instr: u16)
    requires
        thumb16_encoding(instr) == Thumb16InstId::IT,
    ensures
        instr & 0xF != 0,
{
}

} // verus!
