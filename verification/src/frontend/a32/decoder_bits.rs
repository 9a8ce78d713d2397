//! The bits of each ARM instruction.
//!
//! For every instruction a pattern says which bits of a word are fixed and
//! how; a word that fits the pattern is decoded as that instruction.

use vstd::prelude::*;
use crate::frontend::a32::decoder::{arm_encoding, ArmInstId};

verus! {

/// The bits of data processing with registers, multiplications, extra loads
/// and stores and miscellaneous instructions.
#[verifier::rlimit(50)]
pub proof fn data_processing_bits(instr: u32)
    requires
        instr >> 28 != 0xF,
    ensures
        instr & 0x0FE0_0010 == 0x0000_0000 ==> arm_encoding(instr)
            == ArmInstId::AND_reg,
        instr & 0x0FE0_0090 == 0x0000_0010 ==> arm_encoding(instr)
            == ArmInstId::AND_rsr,
        instr & 0x0FE0_0010 == 0x0020_0000 ==> arm_encoding(instr)
            == ArmInstId::EOR_reg,
        instr & 0x0FE0_0090 == 0x0020_0010 ==> arm_encoding(instr)
            == ArmInstId::EOR_rsr,
        instr & 0x0FE0_0010 == 0x0040_0000 ==> arm_encoding(instr)
            == ArmInstId::SUB_reg,
        instr & 0x0FE0_0090 == 0x0040_0010 ==> arm_encoding(instr)
            == ArmInstId::SUB_rsr,
        instr & 0x0FE0_0010 == 0x0060_0000 ==> arm_encoding(instr)
            == ArmInstId::RSB_reg,
        instr & 0x0FE0_0090 == 0x0060_0010 ==> arm_encoding(instr)
            == ArmInstId::RSB_rsr,
        instr & 0x0FE0_0010 == 0x0080_0000 ==> arm_encoding(instr)
            == ArmInstId::ADD_reg,
        instr & 0x0FE0_0090 == 0x0080_0010 ==> arm_encoding(instr)
            == ArmInstId::ADD_rsr,
        instr & 0x0FE0_0010 == 0x00A0_0000 ==> arm_encoding(instr)
            == ArmInstId::ADC_reg,
        instr & 0x0FE0_0090 == 0x00A0_0010 ==> arm_encoding(instr)
            == ArmInstId::ADC_rsr,
        instr & 0x0FE0_0010 == 0x00C0_0000 ==> arm_encoding(instr)
            == ArmInstId::SBC_reg,
        instr & 0x0FE0_0090 == 0x00C0_0010 ==> arm_encoding(instr)
            == ArmInstId::SBC_rsr,
        instr & 0x0FE0_0010 == 0x00E0_0000 ==> arm_encoding(instr)
            == ArmInstId::RSC_reg,
        instr & 0x0FE0_0090 == 0x00E0_0010 ==> arm_encoding(instr)
            == ArmInstId::RSC_rsr,
        instr & 0x0FF0_0010 == 0x0110_0000 ==> arm_encoding(instr)
            == ArmInstId::TST_reg,
        instr & 0x0FF0_0090 == 0x0110_0010 ==> arm_encoding(instr)
            == ArmInstId::TST_rsr,
        instr & 0x0FF0_0010 == 0x0130_0000 ==> arm_encoding(instr)
            == ArmInstId::TEQ_reg,
        instr & 0x0FF0_0090 == 0x0130_0010 ==> arm_encoding(instr)
            == ArmInstId::TEQ_rsr,
        instr & 0x0FF0_0010 == 0x0150_0000 ==> arm_encoding(instr)
            == ArmInstId::CMP_reg,
        instr & 0x0FF0_0090 == 0x0150_0010 ==> arm_encoding(instr)
            == ArmInstId::CMP_rsr,
        instr & 0x0FF0_0010 == 0x0170_0000 ==> arm_encoding(instr)
            == ArmInstId::CMN_reg,
        instr & 0x0FF0_0090 == 0x0170_0010 ==> arm_encoding(instr)
            == ArmInstId::CMN_rsr,
        instr & 0x0FE0_0010 == 0x0180_0000 ==> arm_encoding(instr)
            == ArmInstId::ORR_reg,
        instr & 0x0FE0_0090 == 0x0180_0010 ==> arm_encoding(instr)
            == ArmInstId::ORR_rsr,
        instr & 0x0FE0_0010 == 0x01A0_0000 ==> arm_encoding(instr)
            == ArmInstId::MOV_reg,
        instr & 0x0FE0_0090 == 0x01A0_0010 ==> arm_encoding(instr)
            == ArmInstId::MOV_rsr,
        instr & 0x0FE0_0010 == 0x01C0_0000 ==> arm_encoding(instr)
            == ArmInstId::BIC_reg,
        instr & 0x0FE0_0090 == 0x01C0_0010 ==> arm_encoding(instr)
            == ArmInstId::BIC_rsr,
        instr & 0x0FE0_0010 == 0x01E0_0000 ==> arm_encoding(instr)
            == ArmInstId::MVN_reg,
        instr & 0x0FE0_0090 == 0x01E0_0010 ==> arm_encoding(instr)
            == ArmInstId::MVN_rsr,
        instr & 0x0FF0_00F0 == 0x0120_0010 ==> arm_encoding(instr)
            == ArmInstId::BX,
        instr & 0x0FF0_00F0 == 0x0160_0010 ==> arm_encoding(instr)
            == ArmInstId::CLZ,
        instr & 0x0FF0_00F0 == 0x0120_0030 ==> arm_encoding(instr)
            == ArmInstId::BLX_reg,
        instr & 0x0FF0_00F0 == 0x0100_0050 ==> arm_encoding(instr)
            == ArmInstId::QADD,
        instr & 0x0FF0_00F0 == 0x0120_0050 ==> arm_encoding(instr)
            == ArmInstId::QSUB,
        instr & 0x0FF0_00F0 == 0x0140_0050 ==> arm_encoding(instr)
            == ArmInstId::QDADD,
        instr & 0x0FF0_00F0 == 0x0160_0050 ==> arm_encoding(instr)
            == ArmInstId::QDSUB,
        instr & 0x0FF0_00F0 == 0x0120_0070 ==> arm_encoding(instr)
            == ArmInstId::BKPT,
        instr & 0x0FB0_00F0 == 0x0100_0000 ==> arm_encoding(instr)
            == ArmInstId::MRS,
        instr & 0x0FB0_00F0 == 0x0120_0000 ==> arm_encoding(instr)
            == ArmInstId::MSR_reg,
        instr & 0x0FF0_0090 == 0x0100_0080 ==> arm_encoding(instr)
            == ArmInstId::SMLAxy,
        instr & 0x0FF0_00B0 == 0x0120_0080 ==> arm_encoding(instr)
            == ArmInstId::SMLAWy,
        instr & 0x0FF0_00B0 == 0x0120_00A0 ==> arm_encoding(instr)
            == ArmInstId::SMULWy,
        instr & 0x0FF0_0090 == 0x0140_0080 ==> arm_encoding(instr)
            == ArmInstId::SMLALxy,
        instr & 0x0FF0_0090 == 0x0160_0080 ==> arm_encoding(instr)
            == ArmInstId::SMULxy,
        instr & 0x0FE0_00F0 == 0x0000_0090 ==> arm_encoding(instr)
            == ArmInstId::MUL,
        instr & 0x0FE0_00F0 == 0x0020_0090 ==> arm_encoding(instr)
            == ArmInstId::MLA,
        instr & 0x0FF0_00F0 == 0x0040_0090 ==> arm_encoding(instr)
            == ArmInstId::UMAAL,
        instr & 0x0FF0_00F0 == 0x0060_0090 ==> arm_encoding(instr)
            == ArmInstId::MLS,
        instr & 0x0FE0_00F0 == 0x0080_0090 ==> arm_encoding(instr)
            == ArmInstId::UMULL,
        instr & 0x0FE0_00F0 == 0x00A0_0090 ==> arm_encoding(instr)
            == ArmInstId::UMLAL,
        instr & 0x0FE0_00F0 == 0x00C0_0090 ==> arm_encoding(instr)
            == ArmInstId::SMULL,
        instr & 0x0FE0_00F0 == 0x00E0_0090 ==> arm_encoding(instr)
            == ArmInstId::SMLAL,
        instr & 0x0E50_00F0 == 0x0000_00B0 ==> arm_encoding(instr)
            == ArmInstId::STRH_reg,
        instr & 0x0E50_00F0 == 0x0040_00B0 ==> arm_encoding(instr)
            == ArmInstId::STRH_imm,
        instr & 0x0E50_00F0 == 0x0000_00D0 ==> arm_encoding(instr)
            == ArmInstId::LDRD_reg,
        instr & 0x0E50_00F0 == 0x0040_00D0 ==> arm_encoding(instr)
            == ArmInstId::LDRD_imm,
        instr & 0x0E50_00F0 == 0x0000_00F0 ==> arm_encoding(instr)
            == ArmInstId::STRD_reg,
        instr & 0x0E50_00F0 == 0x0040_00F0 ==> arm_encoding(instr)
            == ArmInstId::STRD_imm,
        instr & 0x0E50_00F0 == 0x0010_00B0 ==> arm_encoding(instr)
            == ArmInstId::LDRH_reg,
        instr & 0x0E50_00F0 == 0x0050_00B0 ==> arm_encoding(instr)
            == ArmInstId::LDRH_imm,
        instr & 0x0E50_00F0 == 0x0010_00D0 ==> arm_encoding(instr)
            == ArmInstId::LDRSB_reg,
        instr & 0x0E50_00F0 == 0x0050_00D0 ==> arm_encoding(instr)
            == ArmInstId::LDRSB_imm,
        instr & 0x0E50_00F0 == 0x0010_00F0 ==> arm_encoding(instr)
            == ArmInstId::LDRSH_reg,
        instr & 0x0E50_00F0 == 0x0050_00F0 ==> arm_encoding(instr)
            == ArmInstId::LDRSH_imm,
{
    assert({
        &&& (instr & 0x0FE0_0010 == 0x0000_0000) ==> {
            &&& (instr >> 28) & 0xF != 0xF
            &&& instr & 0x0FFF_FFF0 != 0x0320_F000
            &&& instr & 0x0F90_0FF0 != 0x0100_0040
            &&& instr & 0x0F90_0FF0 != 0x0100_0240
            &&& instr & 0x0FF0_0090 != 0x0140_0080
            &&& instr & 0x0FF0_0090 != 0x0100_0080
            &&& instr & 0x0FF0_0090 != 0x0160_0080
            &&& instr & 0x0FF0_00B0 != 0x0120_0080
            &&& instr & 0x0FF0_00B0 != 0x0120_00A0
            &&& ((instr >> 25) & 0x7 == 0)
            &&& ((instr >> 20) & 0x1F == 0 || (instr >> 20) & 0x1F == 1)
            &&& ((instr >> 4) & 1 == 0)
            &&& ((instr >> 4) & 0xF == 0 || (instr >> 4) & 0xF == 2 || (instr >> 4) & 0xF == 4
                || (instr >> 4) & 0xF == 6 || (instr >> 4) & 0xF == 8 || (instr >> 4) & 0xF == 10
                || (instr >> 4) & 0xF == 12 || (instr >> 4) & 0xF == 14)
            &&& ((instr >> 21) & 3 == 0)
            &&& ((instr >> 21) & 1 == 0)
            &&& ((instr >> 24) & 1 == 0)
            &&& ((instr >> 20) & 0xF == 0 || (instr >> 20) & 0xF == 1)
            &&& ((instr >> 22) & 1 == 0)
        }
        &&& (instr & 0x0FE0_0090 == 0x0000_0010) ==> {
            &&& (instr >> 28) & 0xF != 0xF
            &&& instr & 0x0FFF_FFF0 != 0x0320_F000
            &&& instr & 0x0F90_0FF0 != 0x0100_0040
            &&& instr & 0x0F90_0FF0 != 0x0100_0240
            &&& instr & 0x0FF0_0090 != 0x0140_0080
            &&& instr & 0x0FF0_0090 != 0x0100_0080
            &&& instr & 0x0FF0_0090 != 0x0160_0080
            &&& instr & 0x0FF0_00B0 != 0x0120_0080
            &&& instr & 0x0FF0_00B0 != 0x0120_00A0
            &&& ((instr >> 25) & 0x7 == 0)
            &&& ((instr >> 20) & 0x1F == 0 || (instr >> 20) & 0x1F == 1)
            &&& ((instr >> 4) & 1 == 1)
            &&& ((instr >> 7) & 1 == 0)
            &&& ((instr >> 4) & 0xF == 1 || (instr >> 4) & 0xF == 3 || (instr >> 4) & 0xF == 5
                || (instr >> 4) & 0xF == 7)
            &&& ((instr >> 21) & 3 == 0)
            &&& ((instr >> 21) & 1 == 0)
            &&& ((instr >> 24) & 1 == 0)
            &&& ((instr >> 20) & 0xF == 0 || (instr >> 20) & 0xF == 1)
            &&& ((instr >> 22) & 1 == 0)
        }
        &&& (instr & 0x0FE0_0010 == 0x0020_0000) ==> {
            &&& (instr >> 28) & 0xF != 0xF
            &&& instr & 0x0FFF_FFF0 != 0x0320_F000
            &&& instr & 0x0F90_0FF0 != 0x0100_0040
            &&& instr & 0x0F90_0FF0 != 0x0100_0240
            &&& instr & 0x0FF0_0090 != 0x0140_0080
            &&& instr & 0x0FF0_0090 != 0x0100_0080
            &&& instr & 0x0FF0_0090 != 0x0160_0080
            &&& instr & 0x0FF0_00B0 != 0x0120_0080
            &&& instr & 0x0FF0_00B0 != 0x0120_00A0
            &&& ((instr >> 25) & 0x7 == 0)
            &&& ((instr >> 20) & 0x1F == 2 || (instr >> 20) & 0x1F == 3)
            &&& ((instr >> 4) & 1 == 0)
            &&& ((instr >> 4) & 0xF == 0 || (instr >> 4) & 0xF == 2 || (instr >> 4) & 0xF == 4
                || (instr >> 4) & 0xF == 6 || (instr >> 4) & 0xF == 8 || (instr >> 4) & 0xF == 10
                || (instr >> 4) & 0xF == 12 || (instr >> 4) & 0xF == 14)
            &&& ((instr >> 21) & 3 == 1)
            &&& ((instr >> 21) & 1 == 1)
            &&& ((instr >> 24) & 1 == 0)
            &&& ((instr >> 20) & 0xF == 2 || (instr >> 20) & 0xF == 3)
            &&& ((instr >> 22) & 1 == 0)
        }
        &&& (instr & 0x0FE0_0090 == 0x0020_0010) ==> {
            &&& (instr >> 28) & 0xF != 0xF
            &&& instr & 0x0FFF_FFF0 != 0x0320_F000
            &&& instr & 0x0F90_0FF0 != 0x0100_0040
            &&& instr & 0x0F90_0FF0 != 0x0100_0240
            &&& instr & 0x0FF0_0090 != 0x0140_0080
            &&& instr & 0x0FF0_0090 != 0x0100_0080
            &&& instr & 0x0FF0_0090 != 0x0160_0080
            &&& instr & 0x0FF0_00B0 != 0x0120_0080
            &&& instr & 0x0FF0_00B0 != 0x0120_00A0
            &&& ((instr >> 25) & 0x7 == 0)
            &&& ((instr >> 20) & 0x1F == 2 || (instr >> 20) & 0x1F == 3)
            &&& ((instr >> 4) & 1 == 1)
            &&& ((instr >> 7) & 1 == 0)
            &&& ((instr >> 4) & 0xF == 1 || (instr >> 4) & 0xF == 3 || (instr >> 4) & 0xF == 5
                || (instr >> 4) & 0xF == 7)
            &&& ((instr >> 21) & 3 == 1)
            &&& ((instr >> 21) & 1 == 1)
            &&& ((instr >> 24) & 1 == 0)
            &&& ((instr >> 20) & 0xF == 2 || (instr >> 20) & 0xF == 3)
            &&& ((instr >> 22) & 1 == 0)
        }
        &&& (instr & 0x0FE0_0010 == 0x0040_0000) ==> {
            &&& (instr >> 28) & 0xF != 0xF
            &&& instr & 0x0FFF_FFF0 != 0x0320_F000
            &&& instr & 0x0F90_0FF0 != 0x0100_0040
            &&& instr & 0x0F90_0FF0 != 0x0100_0240
            &&& instr & 0x0FF0_0090 != 0x0140_0080
            &&& instr & 0x0FF0_0090 != 0x0100_0080
            &&& instr & 0x0FF0_0090 != 0x0160_0080
            &&& instr & 0x0FF0_00B0 != 0x0120_0080
            &&& instr & 0x0FF0_00B0 != 0x0120_00A0
            &&& ((instr >> 25) & 0x7 == 0)
            &&& ((instr >> 20) & 0x1F == 4 || (instr >> 20) & 0x1F == 5)
            &&& ((instr >> 4) & 1 == 0)
            &&& ((instr >> 4) & 0xF == 0 || (instr >> 4) & 0xF == 2 || (instr >> 4) & 0xF == 4
                || (instr >> 4) & 0xF == 6 || (instr >> 4) & 0xF == 8 || (instr >> 4) & 0xF == 10
                || (instr >> 4) & 0xF == 12 || (instr >> 4) & 0xF == 14)
            &&& ((instr >> 21) & 3 == 2)
            &&& ((instr >> 21) & 1 == 0)
            &&& ((instr >> 24) & 1 == 0)
            &&& ((instr >> 20) & 0xF == 4 || (instr >> 20) & 0xF == 5)
            &&& ((instr >> 22) & 1 == 1)
        }
        &&& (instr & 0x0FE0_0090 == 0x0040_0010) ==> {
            &&& (instr >> 28) & 0xF != 0xF
            &&& instr & 0x0FFF_FFF0 != 0x0320_F000
            &&& instr & 0x0F90_0FF0 != 0x0100_0040
            &&& instr & 0x0F90_0FF0 != 0x0100_0240
            &&& instr & 0x0FF0_0090 != 0x0140_0080
            &&& instr & 0x0FF0_0090 != 0x0100_0080
            &&& instr & 0x0FF0_0090 != 0x0160_0080
            &&& instr & 0x0FF0_00B0 != 0x0120_0080
            &&& instr & 0x0FF0_00B0 != 0x0120_00A0
            &&& ((instr >> 25) & 0x7 == 0)
            &&& ((instr >> 20) & 0x1F == 4 || (instr >> 20) & 0x1F == 5)
            &&& ((instr >> 4) & 1 == 1)
            &&& ((instr >> 7) & 1 == 0)
            &&& ((instr >> 4) & 0xF == 1 || (instr >> 4) & 0xF == 3 || (instr >> 4) & 0xF == 5
                || (instr >> 4) & 0xF == 7)
            &&& ((instr >> 21) & 3 == 2)
            &&& ((instr >> 21) & 1 == 0)
            &&& ((instr >> 24) & 1 == 0)
            &&& ((instr >> 20) & 0xF == 4 || (instr >> 20) & 0xF == 5)
            &&& ((instr >> 22) & 1 == 1)
        }
        &&& (instr & 0x0FE0_0010 == 0x0060_0000) ==> {
            &&& (instr >> 28) & 0xF != 0xF
            &&& instr & 0x0FFF_FFF0 != 0x0320_F000
            &&& instr & 0x0F90_0FF0 != 0x0100_0040
            &&& instr & 0x0F90_0FF0 != 0x0100_0240
            &&& instr & 0x0FF0_0090 != 0x0140_0080
            &&& instr & 0x0FF0_0090 != 0x0100_0080
            &&& instr & 0x0FF0_0090 != 0x0160_0080
            &&& instr & 0x0FF0_00B0 != 0x0120_0080
            &&& instr & 0x0FF0_00B0 != 0x0120_00A0
            &&& ((instr >> 25) & 0x7 == 0)
            &&& ((instr >> 20) & 0x1F == 6 || (instr >> 20) & 0x1F == 7)
            &&& ((instr >> 4) & 1 == 0)
            &&& ((instr >> 4) & 0xF == 0 || (instr >> 4) & 0xF == 2 || (instr >> 4) & 0xF == 4
                || (instr >> 4) & 0xF == 6 || (instr >> 4) & 0xF == 8 || (instr >> 4) & 0xF == 10
                || (instr >> 4) & 0xF == 12 || (instr >> 4) & 0xF == 14)
            &&& ((instr >> 21) & 3 == 3)
            &&& ((instr >> 21) & 1 == 1)
            &&& ((instr >> 24) & 1 == 0)
            &&& ((instr >> 20) & 0xF == 6 || (instr >> 20) & 0xF == 7)
            &&& ((instr >> 22) & 1 == 1)
        }
        &&& (instr & 0x0FE0_0090 == 0x0060_0010) ==> {
            &&& (instr >> 28) & 0xF != 0xF
            &&& instr & 0x0FFF_FFF0 != 0x0320_F000
            &&& instr & 0x0F90_0FF0 != 0x0100_0040
            &&& instr & 0x0F90_0FF0 != 0x0100_0240
            &&& instr & 0x0FF0_0090 != 0x0140_0080
            &&& instr & 0x0FF0_0090 != 0x0100_0080
            &&& instr & 0x0FF0_0090 != 0x0160_0080
            &&& instr & 0x0FF0_00B0 != 0x0120_0080
            &&& instr & 0x0FF0_00B0 != 0x0120_00A0
            &&& ((instr >> 25) & 0x7 == 0)
            &&& ((instr >> 20) & 0x1F == 6 || (instr >> 20) & 0x1F == 7)
            &&& ((instr >> 4) & 1 == 1)
            &&& ((instr >> 7) & 1 == 0)
            &&& ((instr >> 4) & 0xF == 1 || (instr >> 4) & 0xF == 3 || (instr >> 4) & 0xF == 5
                || (instr >> 4) & 0xF == 7)
            &&& ((instr >> 21) & 3 == 3)
            &&& ((instr >> 21) & 1 == 1)
            &&& ((instr >> 24) & 1 == 0)
            &&& ((instr >> 20) & 0xF == 6 || (instr >> 20) & 0xF == 7)
            &&& ((instr >> 22) & 1 == 1)
        }
        &&& (instr & 0x0FE0_0010 == 0x0080_0000) ==> {
            &&& (instr >> 28) & 0xF != 0xF
            &&& instr & 0x0FFF_FFF0 != 0x0320_F000
            &&& instr & 0x0F90_0FF0 != 0x0100_0040
            &&& instr & 0x0F90_0FF0 != 0x0100_0240
            &&& instr & 0x0FF0_0090 != 0x0140_0080
            &&& instr & 0x0FF0_0090 != 0x0100_0080
            &&& instr & 0x0FF0_0090 != 0x0160_0080
            &&& instr & 0x0FF0_00B0 != 0x0120_0080
            &&& instr & 0x0FF0_00B0 != 0x0120_00A0
            &&& ((instr >> 25) & 0x7 == 0)
            &&& ((instr >> 20) & 0x1F == 8 || (instr >> 20) & 0x1F == 9)
            &&& ((instr >> 4) & 1 == 0)
            &&& ((instr >> 4) & 0xF == 0 || (instr >> 4) & 0xF == 2 || (instr >> 4) & 0xF == 4
                || (instr >> 4) & 0xF == 6 || (instr >> 4) & 0xF == 8 || (instr >> 4) & 0xF == 10
                || (instr >> 4) & 0xF == 12 || (instr >> 4) & 0xF == 14)
            &&& ((instr >> 21) & 3 == 0)
            &&& ((instr >> 21) & 1 == 0)
            &&& ((instr >> 24) & 1 == 0)
            &&& ((instr >> 20) & 0xF == 8 || (instr >> 20) & 0xF == 9)
            &&& ((instr >> 22) & 1 == 0)
        }
        &&& (instr & 0x0FE0_0090 == 0x0080_0010) ==> {
            &&& (instr >> 28) & 0xF != 0xF
            &&& instr & 0x0FFF_FFF0 != 0x0320_F000
            &&& instr & 0x0F90_0FF0 != 0x0100_0040
            &&& instr & 0x0F90_0FF0 != 0x0100_0240
            &&& instr & 0x0FF0_0090 != 0x0140_0080
            &&& instr & 0x0FF0_0090 != 0x0100_0080
            &&& instr & 0x0FF0_0090 != 0x0160_0080
            &&& instr & 0x0FF0_00B0 != 0x0120_0080
            &&& instr & 0x0FF0_00B0 != 0x0120_00A0
            &&& ((instr >> 25) & 0x7 == 0)
            &&& ((instr >> 20) & 0x1F == 8 || (instr >> 20) & 0x1F == 9)
            &&& ((instr >> 4) & 1 == 1)
            &&& ((instr >> 7) & 1 == 0)
            &&& ((instr >> 4) & 0xF == 1 || (instr >> 4) & 0xF == 3 || (instr >> 4) & 0xF == 5
                || (instr >> 4) & 0xF == 7)
            &&& ((instr >> 21) & 3 == 0)
            &&& ((instr >> 21) & 1 == 0)
            &&& ((instr >> 24) & 1 == 0)
            &&& ((instr >> 20) & 0xF == 8 || (instr >> 20) & 0xF == 9)
            &&& ((instr >> 22) & 1 == 0)
        }
        &&& (instr & 0x0FE0_0010 == 0x00A0_0000) ==> {
            &&& (instr >> 28) & 0xF != 0xF
            &&& instr & 0x0FFF_FFF0 != 0x0320_F000
            &&& instr & 0x0F90_0FF0 != 0x0100_0040
            &&& instr & 0x0F90_0FF0 != 0x0100_0240
            &&& instr & 0x0FF0_0090 != 0x0140_0080
            &&& instr & 0x0FF0_0090 != 0x0100_0080
            &&& instr & 0x0FF0_0090 != 0x0160_0080
            &&& instr & 0x0FF0_00B0 != 0x0120_0080
            &&& instr & 0x0FF0_00B0 != 0x0120_00A0
            &&& ((instr >> 25) & 0x7 == 0)
            &&& ((instr >> 20) & 0x1F == 10 || (instr >> 20) & 0x1F == 11)
            &&& ((instr >> 4) & 1 == 0)
            &&& ((instr >> 4) & 0xF == 0 || (instr >> 4) & 0xF == 2 || (instr >> 4) & 0xF == 4
                || (instr >> 4) & 0xF == 6 || (instr >> 4) & 0xF == 8 || (instr >> 4) & 0xF == 10
                || (instr >> 4) & 0xF == 12 || (instr >> 4) & 0xF == 14)
            &&& ((instr >> 21) & 3 == 1)
            &&& ((instr >> 21) & 1 == 1)
            &&& ((instr >> 24) & 1 == 0)
            &&& ((instr >> 20) & 0xF == 10 || (instr >> 20) & 0xF == 11)
            &&& ((instr >> 22) & 1 == 0)
        }
        &&& (instr & 0x0FE0_0090 == 0x00A0_0010) ==> {
            &&& (instr >> 28) & 0xF != 0xF
            &&& instr & 0x0FFF_FFF0 != 0x0320_F000
            &&& instr & 0x0F90_0FF0 != 0x0100_0040
            &&& instr & 0x0F90_0FF0 != 0x0100_0240
            &&& instr & 0x0FF0_0090 != 0x0140_0080
            &&& instr & 0x0FF0_0090 != 0x0100_0080
            &&& instr & 0x0FF0_0090 != 0x0160_0080
            &&& instr & 0x0FF0_00B0 != 0x0120_0080
            &&& instr & 0x0FF0_00B0 != 0x0120_00A0
            &&& ((instr >> 25) & 0x7 == 0)
            &&& ((instr >> 20) & 0x1F == 10 || (instr >> 20) & 0x1F == 11)
            &&& ((instr >> 4) & 1 == 1)
            &&& ((instr >> 7) & 1 == 0)
            &&& ((instr >> 4) & 0xF == 1 || (instr >> 4) & 0xF == 3 || (instr >> 4) & 0xF == 5
                || (instr >> 4) & 0xF == 7)
            &&& ((instr >> 21) & 3 == 1)
            &&& ((instr >> 21) & 1 == 1)
            &&& ((instr >> 24) & 1 == 0)
            &&& ((instr >> 20) & 0xF == 10 || (instr >> 20) & 0xF == 11)
            &&& ((instr >> 22) & 1 == 0)
        }
        &&& (instr & 0x0FE0_0010 == 0x00C0_0000) ==> {
            &&& (instr >> 28) & 0xF != 0xF
            &&& instr & 0x0FFF_FFF0 != 0x0320_F000
            &&& instr & 0x0F90_0FF0 != 0x0100_0040
            &&& instr & 0x0F90_0FF0 != 0x0100_0240
            &&& instr & 0x0FF0_0090 != 0x0140_0080
            &&& instr & 0x0FF0_0090 != 0x0100_0080
            &&& instr & 0x0FF0_0090 != 0x0160_0080
            &&& instr & 0x0FF0_00B0 != 0x0120_0080
            &&& instr & 0x0FF0_00B0 != 0x0120_00A0
            &&& ((instr >> 25) & 0x7 == 0)
            &&& ((instr >> 20) & 0x1F == 12 || (instr >> 20) & 0x1F == 13)
            &&& ((instr >> 4) & 1 == 0)
            &&& ((instr >> 4) & 0xF == 0 || (instr >> 4) & 0xF == 2 || (instr >> 4) & 0xF == 4
                || (instr >> 4) & 0xF == 6 || (instr >> 4) & 0xF == 8 || (instr >> 4) & 0xF == 10
                || (instr >> 4) & 0xF == 12 || (instr >> 4) & 0xF == 14)
            &&& ((instr >> 21) & 3 == 2)
            &&& ((instr >> 21) & 1 == 0)
            &&& ((instr >> 24) & 1 == 0)
            &&& ((instr >> 20) & 0xF == 12 || (instr >> 20) & 0xF == 13)
            &&& ((instr >> 22) & 1 == 1)
        }
        &&& (instr & 0x0FE0_0090 == 0x00C0_0010) ==> {
            &&& (instr >> 28) & 0xF != 0xF
            &&& instr & 0x0FFF_FFF0 != 0x0320_F000
            &&& instr & 0x0F90_0FF0 != 0x0100_0040
            &&& instr & 0x0F90_0FF0 != 0x0100_0240
            &&& instr & 0x0FF0_0090 != 0x0140_0080
            &&& instr & 0x0FF0_0090 != 0x0100_0080
            &&& instr & 0x0FF0_0090 != 0x0160_0080
            &&& instr & 0x0FF0_00B0 != 0x0120_0080
            &&& instr & 0x0FF0_00B0 != 0x0120_00A0
            &&& ((instr >> 25) & 0x7 == 0)
            &&& ((instr >> 20) & 0x1F == 12 || (instr >> 20) & 0x1F == 13)
            &&& ((instr >> 4) & 1 == 1)
            &&& ((instr >> 7) & 1 == 0)
            &&& ((instr >> 4) & 0xF == 1 || (instr >> 4) & 0xF == 3 || (instr >> 4) & 0xF == 5
                || (instr >> 4) & 0xF == 7)
            &&& ((instr >> 21) & 3 == 2)
            &&& ((instr >> 21) & 1 == 0)
            &&& ((instr >> 24) & 1 == 0)
            &&& ((instr >> 20) & 0xF == 12 || (instr >> 20) & 0xF == 13)
            &&& ((instr >> 22) & 1 == 1)
        }
        &&& (instr & 0x0FE0_0010 == 0x00E0_0000) ==> {
            &&& (instr >> 28) & 0xF != 0xF
            &&& instr & 0x0FFF_FFF0 != 0x0320_F000
            &&& instr & 0x0F90_0FF0 != 0x0100_0040
            &&& instr & 0x0F90_0FF0 != 0x0100_0240
            &&& instr & 0x0FF0_0090 != 0x0140_0080
            &&& instr & 0x0FF0_0090 != 0x0100_0080
            &&& instr & 0x0FF0_0090 != 0x0160_0080
            &&& instr & 0x0FF0_00B0 != 0x0120_0080
            &&& instr & 0x0FF0_00B0 != 0x0120_00A0
            &&& ((instr >> 25) & 0x7 == 0)
            &&& ((instr >> 20) & 0x1F == 14 || (instr >> 20) & 0x1F == 15)
            &&& ((instr >> 4) & 1 == 0)
            &&& ((instr >> 4) & 0xF == 0 || (instr >> 4) & 0xF == 2 || (instr >> 4) & 0xF == 4
                || (instr >> 4) & 0xF == 6 || (instr >> 4) & 0xF == 8 || (instr >> 4) & 0xF == 10
                || (instr >> 4) & 0xF == 12 || (instr >> 4) & 0xF == 14)
            &&& ((instr >> 21) & 3 == 3)
            &&& ((instr >> 21) & 1 == 1)
            &&& ((instr >> 24) & 1 == 0)
            &&& ((instr >> 20) & 0xF == 14 || (instr >> 20) & 0xF == 15)
            &&& ((instr >> 22) & 1 == 1)
        }
        &&& (instr & 0x0FE0_0090 == 0x00E0_0010) ==> {
            &&& (instr >> 28) & 0xF != 0xF
            &&& instr & 0x0FFF_FFF0 != 0x0320_F000
            &&& instr & 0x0F90_0FF0 != 0x0100_0040
            &&& instr & 0x0F90_0FF0 != 0x0100_0240
            &&& instr & 0x0FF0_0090 != 0x0140_0080
            &&& instr & 0x0FF0_0090 != 0x0100_0080
            &&& instr & 0x0FF0_0090 != 0x0160_0080
            &&& instr & 0x0FF0_00B0 != 0x0120_0080
            &&& instr & 0x0FF0_00B0 != 0x0120_00A0
            &&& ((instr >> 25) & 0x7 == 0)
            &&& ((instr >> 20) & 0x1F == 14 || (instr >> 20) & 0x1F == 15)
            &&& ((instr >> 4) & 1 == 1)
            &&& ((instr >> 7) & 1 == 0)
            &&& ((instr >> 4) & 0xF == 1 || (instr >> 4) & 0xF == 3 || (instr >> 4) & 0xF == 5
                || (instr >> 4) & 0xF == 7)
            &&& ((instr >> 21) & 3 == 3)
            &&& ((instr >> 21) & 1 == 1)
            &&& ((instr >> 24) & 1 == 0)
            &&& ((instr >> 20) & 0xF == 14 || (instr >> 20) & 0xF == 15)
            &&& ((instr >> 22) & 1 == 1)
        }
        &&& (instr & 0x0FF0_0010 == 0x0110_0000) ==> {
            &&& (instr >> 28) & 0xF != 0xF
            &&& instr & 0x0FFF_FFF0 != 0x0320_F000
            &&& instr & 0x0F90_0FF0 != 0x0100_0040
            &&& instr & 0x0F90_0FF0 != 0x0100_0240
            &&& instr & 0x0FF0_0090 != 0x0140_0080
            &&& instr & 0x0FF0_0090 != 0x0100_0080
            &&& instr & 0x0FF0_0090 != 0x0160_0080
            &&& instr & 0x0FF0_00B0 != 0x0120_0080
            &&& instr & 0x0FF0_00B0 != 0x0120_00A0
            &&& ((instr >> 25) & 0x7 == 0)
            &&& ((instr >> 20) & 0x1F == 17)
            &&& ((instr >> 4) & 1 == 0)
            &&& ((instr >> 4) & 0xF == 0 || (instr >> 4) & 0xF == 2 || (instr >> 4) & 0xF == 4
                || (instr >> 4) & 0xF == 6 || (instr >> 4) & 0xF == 8 || (instr >> 4) & 0xF == 10
                || (instr >> 4) & 0xF == 12 || (instr >> 4) & 0xF == 14)
            &&& ((instr >> 21) & 3 == 0)
            &&& ((instr >> 20) & 1 == 1)
            &&& ((instr >> 21) & 1 == 0)
            &&& ((instr >> 24) & 1 == 1)
            &&& ((instr >> 20) & 0xF == 1)
            &&& ((instr >> 22) & 1 == 0)
        }
        &&& (instr & 0x0FF0_0090 == 0x0110_0010) ==> {
            &&& (instr >> 28) & 0xF != 0xF
            &&& instr & 0x0FFF_FFF0 != 0x0320_F000
            &&& instr & 0x0F90_0FF0 != 0x0100_0040
            &&& instr & 0x0F90_0FF0 != 0x0100_0240
            &&& instr & 0x0FF0_0090 != 0x0140_0080
            &&& instr & 0x0FF0_0090 != 0x0100_0080
            &&& instr & 0x0FF0_0090 != 0x0160_0080
            &&& instr & 0x0FF0_00B0 != 0x0120_0080
            &&& instr & 0x0FF0_00B0 != 0x0120_00A0
            &&& ((instr >> 25) & 0x7 == 0)
            &&& ((instr >> 20) & 0x1F == 17)
            &&& ((instr >> 4) & 1 == 1)
            &&& ((instr >> 7) & 1 == 0)
            &&& ((instr >> 4) & 0xF == 1 || (instr >> 4) & 0xF == 3 || (instr >> 4) & 0xF == 5
                || (instr >> 4) & 0xF == 7)
            &&& ((instr >> 21) & 3 == 0)
            &&& ((instr >> 20) & 1 == 1)
            &&& ((instr >> 21) & 1 == 0)
            &&& ((instr >> 24) & 1 == 1)
            &&& ((instr >> 20) & 0xF == 1)
            &&& ((instr >> 22) & 1 == 0)
        }
        &&& (instr & 0x0FF0_0010 == 0x0130_0000) ==> {
            &&& (instr >> 28) & 0xF != 0xF
            &&& instr & 0x0FFF_FFF0 != 0x0320_F000
            &&& instr & 0x0F90_0FF0 != 0x0100_0040
            &&& instr & 0x0F90_0FF0 != 0x0100_0240
            &&& instr & 0x0FF0_0090 != 0x0140_0080
            &&& instr & 0x0FF0_0090 != 0x0100_0080
            &&& instr & 0x0FF0_0090 != 0x0160_0080
            &&& instr & 0x0FF0_00B0 != 0x0120_0080
            &&& instr & 0x0FF0_00B0 != 0x0120_00A0
            &&& ((instr >> 25) & 0x7 == 0)
            &&& ((instr >> 20) & 0x1F == 19)
            &&& ((instr >> 4) & 1 == 0)
            &&& ((instr >> 4) & 0xF == 0 || (instr >> 4) & 0xF == 2 || (instr >> 4) & 0xF == 4
                || (instr >> 4) & 0xF == 6 || (instr >> 4) & 0xF == 8 || (instr >> 4) & 0xF == 10
                || (instr >> 4) & 0xF == 12 || (instr >> 4) & 0xF == 14)
            &&& ((instr >> 21) & 3 == 1)
            &&& ((instr >> 20) & 1 == 1)
            &&& ((instr >> 21) & 1 == 1)
            &&& ((instr >> 24) & 1 == 1)
            &&& ((instr >> 20) & 0xF == 3)
            &&& ((instr >> 22) & 1 == 0)
        }
        &&& (instr & 0x0FF0_0090 == 0x0130_0010) ==> {
            &&& (instr >> 28) & 0xF != 0xF
            &&& instr & 0x0FFF_FFF0 != 0x0320_F000
            &&& instr & 0x0F90_0FF0 != 0x0100_0040
            &&& instr & 0x0F90_0FF0 != 0x0100_0240
            &&& instr & 0x0FF0_0090 != 0x0140_0080
            &&& instr & 0x0FF0_0090 != 0x0100_0080
            &&& instr & 0x0FF0_0090 != 0x0160_0080
            &&& instr & 0x0FF0_00B0 != 0x0120_0080
            &&& instr & 0x0FF0_00B0 != 0x0120_00A0
            &&& ((instr >> 25) & 0x7 == 0)
            &&& ((instr >> 20) & 0x1F == 19)
            &&& ((instr >> 4) & 1 == 1)
            &&& ((instr >> 7) & 1 == 0)
            &&& ((instr >> 4) & 0xF == 1 || (instr >> 4) & 0xF == 3 || (instr >> 4) & 0xF == 5
                || (instr >> 4) & 0xF == 7)
            &&& ((instr >> 21) & 3 == 1)
            &&& ((instr >> 20) & 1 == 1)
            &&& ((instr >> 21) & 1 == 1)
            &&& ((instr >> 24) & 1 == 1)
            &&& ((instr >> 20) & 0xF == 3)
            &&& ((instr >> 22) & 1 == 0)
        }
        &&& (instr & 0x0FF0_0010 == 0x0150_0000) ==> {
            &&& (instr >> 28) & 0xF != 0xF
            &&& instr & 0x0FFF_FFF0 != 0x0320_F000
            &&& instr & 0x0F90_0FF0 != 0x0100_0040
            &&& instr & 0x0F90_0FF0 != 0x0100_0240
            &&& instr & 0x0FF0_0090 != 0x0140_0080
            &&& instr & 0x0FF0_0090 != 0x0100_0080
            &&& instr & 0x0FF0_0090 != 0x0160_0080
            &&& instr & 0x0FF0_00B0 != 0x0120_0080
            &&& instr & 0x0FF0_00B0 != 0x0120_00A0
            &&& ((instr >> 25) & 0x7 == 0)
            &&& ((instr >> 20) & 0x1F == 21)
            &&& ((instr >> 4) & 1 == 0)
            &&& ((instr >> 4) & 0xF == 0 || (instr >> 4) & 0xF == 2 || (instr >> 4) & 0xF == 4
                || (instr >> 4) & 0xF == 6 || (instr >> 4) & 0xF == 8 || (instr >> 4) & 0xF == 10
                || (instr >> 4) & 0xF == 12 || (instr >> 4) & 0xF == 14)
            &&& ((instr >> 21) & 3 == 2)
            &&& ((instr >> 20) & 1 == 1)
            &&& ((instr >> 21) & 1 == 0)
            &&& ((instr >> 24) & 1 == 1)
            &&& ((instr >> 20) & 0xF == 5)
            &&& ((instr >> 22) & 1 == 1)
        }
        &&& (instr & 0x0FF0_0090 == 0x0150_0010) ==> {
            &&& (instr >> 28) & 0xF != 0xF
            &&& instr & 0x0FFF_FFF0 != 0x0320_F000
            &&& instr & 0x0F90_0FF0 != 0x0100_0040
            &&& instr & 0x0F90_0FF0 != 0x0100_0240
            &&& instr & 0x0FF0_0090 != 0x0140_0080
            &&& instr & 0x0FF0_0090 != 0x0100_0080
            &&& instr & 0x0FF0_0090 != 0x0160_0080
            &&& instr & 0x0FF0_00B0 != 0x0120_0080
            &&& instr & 0x0FF0_00B0 != 0x0120_00A0
            &&& ((instr >> 25) & 0x7 == 0)
            &&& ((instr >> 20) & 0x1F == 21)
            &&& ((instr >> 4) & 1 == 1)
            &&& ((instr >> 7) & 1 == 0)
            &&& ((instr >> 4) & 0xF == 1 || (instr >> 4) & 0xF == 3 || (instr >> 4) & 0xF == 5
                || (instr >> 4) & 0xF == 7)
            &&& ((instr >> 21) & 3 == 2)
            &&& ((instr >> 20) & 1 == 1)
            &&& ((instr >> 21) & 1 == 0)
            &&& ((instr >> 24) & 1 == 1)
            &&& ((instr >> 20) & 0xF == 5)
            &&& ((instr >> 22) & 1 == 1)
        }
        &&& (instr & 0x0FF0_0010 == 0x0170_0000) ==> {
            &&& (instr >> 28) & 0xF != 0xF
            &&& instr & 0x0FFF_FFF0 != 0x0320_F000
            &&& instr & 0x0F90_0FF0 != 0x0100_0040
            &&& instr & 0x0F90_0FF0 != 0x0100_0240
            &&& instr & 0x0FF0_0090 != 0x0140_0080
            &&& instr & 0x0FF0_0090 != 0x0100_0080
            &&& instr & 0x0FF0_0090 != 0x0160_0080
            &&& instr & 0x0FF0_00B0 != 0x0120_0080
            &&& instr & 0x0FF0_00B0 != 0x0120_00A0
            &&& ((instr >> 25) & 0x7 == 0)
            &&& ((instr >> 20) & 0x1F == 23)
            &&& ((instr >> 4) & 1 == 0)
            &&& ((instr >> 4) & 0xF == 0 || (instr >> 4) & 0xF == 2 || (instr >> 4) & 0xF == 4
                || (instr >> 4) & 0xF == 6 || (instr >> 4) & 0xF == 8 || (instr >> 4) & 0xF == 10
                || (instr >> 4) & 0xF == 12 || (instr >> 4) & 0xF == 14)
            &&& ((instr >> 21) & 3 == 3)
            &&& ((instr >> 20) & 1 == 1)
            &&& ((instr >> 21) & 1 == 1)
            &&& ((instr >> 24) & 1 == 1)
            &&& ((instr >> 20) & 0xF == 7)
            &&& ((instr >> 22) & 1 == 1)
        }
        &&& (instr & 0x0FF0_0090 == 0x0170_0010) ==> {
            &&& (instr >> 28) & 0xF != 0xF
            &&& instr & 0x0FFF_FFF0 != 0x0320_F000
            &&& instr & 0x0F90_0FF0 != 0x0100_0040
            &&& instr & 0x0F90_0FF0 != 0x0100_0240
            &&& instr & 0x0FF0_0090 != 0x0140_0080
            &&& instr & 0x0FF0_0090 != 0x0100_0080
            &&& instr & 0x0FF0_0090 != 0x0160_0080
            &&& instr & 0x0FF0_00B0 != 0x0120_0080
            &&& instr & 0x0FF0_00B0 != 0x0120_00A0
            &&& ((instr >> 25) & 0x7 == 0)
            &&& ((instr >> 20) & 0x1F == 23)
            &&& ((instr >> 4) & 1 == 1)
            &&& ((instr >> 7) & 1 == 0)
            &&& ((instr >> 4) & 0xF == 1 || (instr >> 4) & 0xF == 3 || (instr >> 4) & 0xF == 5
                || (instr >> 4) & 0xF == 7)
            &&& ((instr >> 21) & 3 == 3)
            &&& ((instr >> 20) & 1 == 1)
            &&& ((instr >> 21) & 1 == 1)
            &&& ((instr >> 24) & 1 == 1)
            &&& ((instr >> 20) & 0xF == 7)
            &&& ((instr >> 22) & 1 == 1)
        }
        &&& (instr & 0x0FE0_0010 == 0x0180_0000) ==> {
            &&& (instr >> 28) & 0xF != 0xF
            &&& instr & 0x0FFF_FFF0 != 0x0320_F000
            &&& instr & 0x0F90_0FF0 != 0x0100_0040
            &&& instr & 0x0F90_0FF0 != 0x0100_0240
            &&& instr & 0x0FF0_0090 != 0x0140_0080
            &&& instr & 0x0FF0_0090 != 0x0100_0080
            &&& instr & 0x0FF0_0090 != 0x0160_0080
            &&& instr & 0x0FF0_00B0 != 0x0120_0080
            &&& instr & 0x0FF0_00B0 != 0x0120_00A0
            &&& ((instr >> 25) & 0x7 == 0)
            &&& ((instr >> 20) & 0x1F == 24 || (instr >> 20) & 0x1F == 25)
            &&& ((instr >> 4) & 1 == 0)
            &&& ((instr >> 4) & 0xF == 0 || (instr >> 4) & 0xF == 2 || (instr >> 4) & 0xF == 4
                || (instr >> 4) & 0xF == 6 || (instr >> 4) & 0xF == 8 || (instr >> 4) & 0xF == 10
                || (instr >> 4) & 0xF == 12 || (instr >> 4) & 0xF == 14)
            &&& ((instr >> 21) & 3 == 0)
            &&& ((instr >> 21) & 1 == 0)
            &&& ((instr >> 24) & 1 == 1)
            &&& ((instr >> 20) & 0xF == 8 || (instr >> 20) & 0xF == 9)
            &&& ((instr >> 22) & 1 == 0)
        }
        &&& (instr & 0x0FE0_0090 == 0x0180_0010) ==> {
            &&& (instr >> 28) & 0xF != 0xF
            &&& instr & 0x0FFF_FFF0 != 0x0320_F000
            &&& instr & 0x0F90_0FF0 != 0x0100_0040
            &&& instr & 0x0F90_0FF0 != 0x0100_0240
            &&& instr & 0x0FF0_0090 != 0x0140_0080
            &&& instr & 0x0FF0_0090 != 0x0100_0080
            &&& instr & 0x0FF0_0090 != 0x0160_0080
            &&& instr & 0x0FF0_00B0 != 0x0120_0080
            &&& instr & 0x0FF0_00B0 != 0x0120_00A0
            &&& ((instr >> 25) & 0x7 == 0)
            &&& ((instr >> 20) & 0x1F == 24 || (instr >> 20) & 0x1F == 25)
            &&& ((instr >> 4) & 1 == 1)
            &&& ((instr >> 7) & 1 == 0)
            &&& ((instr >> 4) & 0xF == 1 || (instr >> 4) & 0xF == 3 || (instr >> 4) & 0xF == 5
                || (instr >> 4) & 0xF == 7)
            &&& ((instr >> 21) & 3 == 0)
            &&& ((instr >> 21) & 1 == 0)
            &&& ((instr >> 24) & 1 == 1)
            &&& ((instr >> 20) & 0xF == 8 || (instr >> 20) & 0xF == 9)
            &&& ((instr >> 22) & 1 == 0)
        }
        &&& (instr & 0x0FE0_0010 == 0x01A0_0000) ==> {
            &&& (instr >> 28) & 0xF != 0xF
            &&& instr & 0x0FFF_FFF0 != 0x0320_F000
            &&& instr & 0x0F90_0FF0 != 0x0100_0040
            &&& instr & 0x0F90_0FF0 != 0x0100_0240
            &&& instr & 0x0FF0_0090 != 0x0140_0080
            &&& instr & 0x0FF0_0090 != 0x0100_0080
            &&& instr & 0x0FF0_0090 != 0x0160_0080
            &&& instr & 0x0FF0_00B0 != 0x0120_0080
            &&& instr & 0x0FF0_00B0 != 0x0120_00A0
            &&& ((instr >> 25) & 0x7 == 0)
            &&& ((instr >> 20) & 0x1F == 26 || (instr >> 20) & 0x1F == 27)
            &&& ((instr >> 4) & 1 == 0)
            &&& ((instr >> 4) & 0xF == 0 || (instr >> 4) & 0xF == 2 || (instr >> 4) & 0xF == 4
                || (instr >> 4) & 0xF == 6 || (instr >> 4) & 0xF == 8 || (instr >> 4) & 0xF == 10
                || (instr >> 4) & 0xF == 12 || (instr >> 4) & 0xF == 14)
            &&& ((instr >> 21) & 3 == 1)
            &&& ((instr >> 21) & 1 == 1)
            &&& ((instr >> 24) & 1 == 1)
            &&& ((instr >> 20) & 0xF == 10 || (instr >> 20) & 0xF == 11)
            &&& ((instr >> 22) & 1 == 0)
        }
        &&& (instr & 0x0FE0_0090 == 0x01A0_0010) ==> {
            &&& (instr >> 28) & 0xF != 0xF
            &&& instr & 0x0FFF_FFF0 != 0x0320_F000
            &&& instr & 0x0F90_0FF0 != 0x0100_0040
            &&& instr & 0x0F90_0FF0 != 0x0100_0240
            &&& instr & 0x0FF0_0090 != 0x0140_0080
            &&& instr & 0x0FF0_0090 != 0x0100_0080
            &&& instr & 0x0FF0_0090 != 0x0160_0080
            &&& instr & 0x0FF0_00B0 != 0x0120_0080
            &&& instr & 0x0FF0_00B0 != 0x0120_00A0
            &&& ((instr >> 25) & 0x7 == 0)
            &&& ((instr >> 20) & 0x1F == 26 || (instr >> 20) & 0x1F == 27)
            &&& ((instr >> 4) & 1 == 1)
            &&& ((instr >> 7) & 1 == 0)
            &&& ((instr >> 4) & 0xF == 1 || (instr >> 4) & 0xF == 3 || (instr >> 4) & 0xF == 5
                || (instr >> 4) & 0xF == 7)
            &&& ((instr >> 21) & 3 == 1)
            &&& ((instr >> 21) & 1 == 1)
            &&& ((instr >> 24) & 1 == 1)
            &&& ((instr >> 20) & 0xF == 10 || (instr >> 20) & 0xF == 11)
            &&& ((instr >> 22) & 1 == 0)
        }
        &&& (instr & 0x0FE0_0010 == 0x01C0_0000) ==> {
            &&& (instr >> 28) & 0xF != 0xF
            &&& instr & 0x0FFF_FFF0 != 0x0320_F000
            &&& instr & 0x0F90_0FF0 != 0x0100_0040
            &&& instr & 0x0F90_0FF0 != 0x0100_0240
            &&& instr & 0x0FF0_0090 != 0x0140_0080
            &&& instr & 0x0FF0_0090 != 0x0100_0080
            &&& instr & 0x0FF0_0090 != 0x0160_0080
            &&& instr & 0x0FF0_00B0 != 0x0120_0080
            &&& instr & 0x0FF0_00B0 != 0x0120_00A0
            &&& ((instr >> 25) & 0x7 == 0)
            &&& ((instr >> 20) & 0x1F == 28 || (instr >> 20) & 0x1F == 29)
            &&& ((instr >> 4) & 1 == 0)
            &&& ((instr >> 4) & 0xF == 0 || (instr >> 4) & 0xF == 2 || (instr >> 4) & 0xF == 4
                || (instr >> 4) & 0xF == 6 || (instr >> 4) & 0xF == 8 || (instr >> 4) & 0xF == 10
                || (instr >> 4) & 0xF == 12 || (instr >> 4) & 0xF == 14)
            &&& ((instr >> 21) & 3 == 2)
            &&& ((instr >> 21) & 1 == 0)
            &&& ((instr >> 24) & 1 == 1)
            &&& ((instr >> 20) & 0xF == 12 || (instr >> 20) & 0xF == 13)
            &&& ((instr >> 22) & 1 == 1)
        }
        &&& (instr & 0x0FE0_0090 == 0x01C0_0010) ==> {
            &&& (instr >> 28) & 0xF != 0xF
            &&& instr & 0x0FFF_FFF0 != 0x0320_F000
            &&& instr & 0x0F90_0FF0 != 0x0100_0040
            &&& instr & 0x0F90_0FF0 != 0x0100_0240
            &&& instr & 0x0FF0_0090 != 0x0140_0080
            &&& instr & 0x0FF0_0090 != 0x0100_0080
            &&& instr & 0x0FF0_0090 != 0x0160_0080
            &&& instr & 0x0FF0_00B0 != 0x0120_0080
            &&& instr & 0x0FF0_00B0 != 0x0120_00A0
            &&& ((instr >> 25) & 0x7 == 0)
            &&& ((instr >> 20) & 0x1F == 28 || (instr >> 20) & 0x1F == 29)
            &&& ((instr >> 4) & 1 == 1)
            &&& ((instr >> 7) & 1 == 0)
            &&& ((instr >> 4) & 0xF == 1 || (instr >> 4) & 0xF == 3 || (instr >> 4) & 0xF == 5
                || (instr >> 4) & 0xF == 7)
            &&& ((instr >> 21) & 3 == 2)
            &&& ((instr >> 21) & 1 == 0)
            &&& ((instr >> 24) & 1 == 1)
            &&& ((instr >> 20) & 0xF == 12 || (instr >> 20) & 0xF == 13)
            &&& ((instr >> 22) & 1 == 1)
        }
        &&& (instr & 0x0FE0_0010 == 0x01E0_0000) ==> {
            &&& (instr >> 28) & 0xF != 0xF
            &&& instr & 0x0FFF_FFF0 != 0x0320_F000
            &&& instr & 0x0F90_0FF0 != 0x0100_0040
            &&& instr & 0x0F90_0FF0 != 0x0100_0240
            &&& instr & 0x0FF0_0090 != 0x0140_0080
            &&& instr & 0x0FF0_0090 != 0x0100_0080
            &&& instr & 0x0FF0_0090 != 0x0160_0080
            &&& instr & 0x0FF0_00B0 != 0x0120_0080
            &&& instr & 0x0FF0_00B0 != 0x0120_00A0
            &&& ((instr >> 25) & 0x7 == 0)
            &&& ((instr >> 20) & 0x1F == 30 || (instr >> 20) & 0x1F == 31)
            &&& ((instr >> 4) & 1 == 0)
            &&& ((instr >> 4) & 0xF == 0 || (instr >> 4) & 0xF == 2 || (instr >> 4) & 0xF == 4
                || (instr >> 4) & 0xF == 6 || (instr >> 4) & 0xF == 8 || (instr >> 4) & 0xF == 10
                || (instr >> 4) & 0xF == 12 || (instr >> 4) & 0xF == 14)
            &&& ((instr >> 21) & 3 == 3)
            &&& ((instr >> 21) & 1 == 1)
            &&& ((instr >> 24) & 1 == 1)
            &&& ((instr >> 20) & 0xF == 14 || (instr >> 20) & 0xF == 15)
            &&& ((instr >> 22) & 1 == 1)
        }
        &&& (instr & 0x0FE0_0090 == 0x01E0_0010) ==> {
            &&& (instr >> 28) & 0xF != 0xF
            &&& instr & 0x0FFF_FFF0 != 0x0320_F000
            &&& instr & 0x0F90_0FF0 != 0x0100_0040
            &&& instr & 0x0F90_0FF0 != 0x0100_0240
            &&& instr & 0x0FF0_0090 != 0x0140_0080
            &&& instr & 0x0FF0_0090 != 0x0100_0080
            &&& instr & 0x0FF0_0090 != 0x0160_0080
            &&& instr & 0x0FF0_00B0 != 0x0120_0080
            &&& instr & 0x0FF0_00B0 != 0x0120_00A0
            &&& ((instr >> 25) & 0x7 == 0)
            &&& ((instr >> 20) & 0x1F == 30 || (instr >> 20) & 0x1F == 31)
            &&& ((instr >> 4) & 1 == 1)
            &&& ((instr >> 7) & 1 == 0)
            &&& ((instr >> 4) & 0xF == 1 || (instr >> 4) & 0xF == 3 || (instr >> 4) & 0xF == 5
                || (instr >> 4) & 0xF == 7)
            &&& ((instr >> 21) & 3 == 3)
            &&& ((instr >> 21) & 1 == 1)
            &&& ((instr >> 24) & 1 == 1)
            &&& ((instr >> 20) & 0xF == 14 || (instr >> 20) & 0xF == 15)
            &&& ((instr >> 22) & 1 == 1)
        }
        &&& (instr & 0x0FF0_00F0 == 0x0120_0010) ==> {
            &&& (instr >> 28) & 0xF != 0xF
            &&& instr & 0x0FFF_FFF0 != 0x0320_F000
            &&& instr & 0x0F90_0FF0 != 0x0100_0040
            &&& instr & 0x0F90_0FF0 != 0x0100_0240
            &&& instr & 0x0FF0_0090 != 0x0140_0080
            &&& instr & 0x0FF0_0090 != 0x0100_0080
            &&& instr & 0x0FF0_0090 != 0x0160_0080
            &&& instr & 0x0FF0_00B0 != 0x0120_0080
            &&& instr & 0x0FF0_00B0 != 0x0120_00A0
            &&& ((instr >> 25) & 0x7 == 0)
            &&& ((instr >> 20) & 0x1F == 18)
            &&& ((instr >> 4) & 1 == 1)
            &&& ((instr >> 7) & 1 == 0)
            &&& ((instr >> 4) & 0xF == 1)
            &&& ((instr >> 21) & 3 == 1)
            &&& ((instr >> 20) & 1 == 0)
            &&& ((instr >> 21) & 1 == 1)
            &&& ((instr >> 24) & 1 == 1)
            &&& ((instr >> 20) & 0xF == 2)
            &&& ((instr >> 22) & 1 == 0)
            &&& ((instr >> 5) & 3 == 0)
        }
        &&& (instr & 0x0FF0_00F0 == 0x0160_0010) ==> {
            &&& (instr >> 28) & 0xF != 0xF
            &&& instr & 0x0FFF_FFF0 != 0x0320_F000
            &&& instr & 0x0F90_0FF0 != 0x0100_0040
            &&& instr & 0x0F90_0FF0 != 0x0100_0240
            &&& instr & 0x0FF0_0090 != 0x0140_0080
            &&& instr & 0x0FF0_0090 != 0x0100_0080
            &&& instr & 0x0FF0_0090 != 0x0160_0080
            &&& instr & 0x0FF0_00B0 != 0x0120_0080
            &&& instr & 0x0FF0_00B0 != 0x0120_00A0
            &&& ((instr >> 25) & 0x7 == 0)
            &&& ((instr >> 20) & 0x1F == 22)
            &&& ((instr >> 4) & 1 == 1)
            &&& ((instr >> 7) & 1 == 0)
            &&& ((instr >> 4) & 0xF == 1)
            &&& ((instr >> 21) & 3 == 3)
            &&& ((instr >> 20) & 1 == 0)
            &&& ((instr >> 21) & 1 == 1)
            &&& ((instr >> 24) & 1 == 1)
            &&& ((instr >> 20) & 0xF == 6)
            &&& ((instr >> 22) & 1 == 1)
            &&& ((instr >> 5) & 3 == 0)
        }
        &&& (instr & 0x0FF0_00F0 == 0x0120_0030) ==> {
            &&& (instr >> 28) & 0xF != 0xF
            &&& instr & 0x0FFF_FFF0 != 0x0320_F000
            &&& instr & 0x0F90_0FF0 != 0x0100_0040
            &&& instr & 0x0F90_0FF0 != 0x0100_0240
            &&& instr & 0x0FF0_0090 != 0x0140_0080
            &&& instr & 0x0FF0_0090 != 0x0100_0080
            &&& instr & 0x0FF0_0090 != 0x0160_0080
            &&& instr & 0x0FF0_00B0 != 0x0120_0080
            &&& instr & 0x0FF0_00B0 != 0x0120_00A0
            &&& ((instr >> 25) & 0x7 == 0)
            &&& ((instr >> 20) & 0x1F == 18)
            &&& ((instr >> 4) & 1 == 1)
            &&& ((instr >> 7) & 1 == 0)
            &&& ((instr >> 4) & 0xF == 3)
            &&& ((instr >> 21) & 3 == 1)
            &&& ((instr >> 20) & 1 == 0)
            &&& ((instr >> 21) & 1 == 1)
            &&& ((instr >> 24) & 1 == 1)
            &&& ((instr >> 20) & 0xF == 2)
            &&& ((instr >> 22) & 1 == 0)
            &&& ((instr >> 5) & 3 == 1)
        }
        &&& (instr & 0x0FF0_00F0 == 0x0100_0050) ==> {
            &&& (instr >> 28) & 0xF != 0xF
            &&& instr & 0x0FFF_FFF0 != 0x0320_F000
            &&& instr & 0x0F90_0FF0 != 0x0100_0040
            &&& instr & 0x0F90_0FF0 != 0x0100_0240
            &&& instr & 0x0FF0_0090 != 0x0140_0080
            &&& instr & 0x0FF0_0090 != 0x0100_0080
            &&& instr & 0x0FF0_0090 != 0x0160_0080
            &&& instr & 0x0FF0_00B0 != 0x0120_0080
            &&& instr & 0x0FF0_00B0 != 0x0120_00A0
            &&& ((instr >> 25) & 0x7 == 0)
            &&& ((instr >> 20) & 0x1F == 16)
            &&& ((instr >> 4) & 1 == 1)
            &&& ((instr >> 7) & 1 == 0)
            &&& ((instr >> 4) & 0xF == 5)
            &&& ((instr >> 21) & 3 == 0)
            &&& ((instr >> 20) & 1 == 0)
            &&& ((instr >> 21) & 1 == 0)
            &&& ((instr >> 24) & 1 == 1)
            &&& ((instr >> 20) & 0xF == 0)
            &&& ((instr >> 22) & 1 == 0)
            &&& ((instr >> 5) & 3 == 2)
        }
        &&& (instr & 0x0FF0_00F0 == 0x0120_0050) ==> {
            &&& (instr >> 28) & 0xF != 0xF
            &&& instr & 0x0FFF_FFF0 != 0x0320_F000
            &&& instr & 0x0F90_0FF0 != 0x0100_0040
            &&& instr & 0x0F90_0FF0 != 0x0100_0240
            &&& instr & 0x0FF0_0090 != 0x0140_0080
            &&& instr & 0x0FF0_0090 != 0x0100_0080
            &&& instr & 0x0FF0_0090 != 0x0160_0080
            &&& instr & 0x0FF0_00B0 != 0x0120_0080
            &&& instr & 0x0FF0_00B0 != 0x0120_00A0
            &&& ((instr >> 25) & 0x7 == 0)
            &&& ((instr >> 20) & 0x1F == 18)
            &&& ((instr >> 4) & 1 == 1)
            &&& ((instr >> 7) & 1 == 0)
            &&& ((instr >> 4) & 0xF == 5)
            &&& ((instr >> 21) & 3 == 1)
            &&& ((instr >> 20) & 1 == 0)
            &&& ((instr >> 21) & 1 == 1)
            &&& ((instr >> 24) & 1 == 1)
            &&& ((instr >> 20) & 0xF == 2)
            &&& ((instr >> 22) & 1 == 0)
            &&& ((instr >> 5) & 3 == 2)
        }
        &&& (instr & 0x0FF0_00F0 == 0x0140_0050) ==> {
            &&& (instr >> 28) & 0xF != 0xF
            &&& instr & 0x0FFF_FFF0 != 0x0320_F000
            &&& instr & 0x0F90_0FF0 != 0x0100_0040
            &&& instr & 0x0F90_0FF0 != 0x0100_0240
            &&& instr & 0x0FF0_0090 != 0x0140_0080
            &&& instr & 0x0FF0_0090 != 0x0100_0080
            &&& instr & 0x0FF0_0090 != 0x0160_0080
            &&& instr & 0x0FF0_00B0 != 0x0120_0080
            &&& instr & 0x0FF0_00B0 != 0x0120_00A0
            &&& ((instr >> 25) & 0x7 == 0)
            &&& ((instr >> 20) & 0x1F == 20)
            &&& ((instr >> 4) & 1 == 1)
            &&& ((instr >> 7) & 1 == 0)
            &&& ((instr >> 4) & 0xF == 5)
            &&& ((instr >> 21) & 3 == 2)
            &&& ((instr >> 20) & 1 == 0)
            &&& ((instr >> 21) & 1 == 0)
            &&& ((instr >> 24) & 1 == 1)
            &&& ((instr >> 20) & 0xF == 4)
            &&& ((instr >> 22) & 1 == 1)
            &&& ((instr >> 5) & 3 == 2)
        }
        &&& (instr & 0x0FF0_00F0 == 0x0160_0050) ==> {
            &&& (instr >> 28) & 0xF != 0xF
            &&& instr & 0x0FFF_FFF0 != 0x0320_F000
            &&& instr & 0x0F90_0FF0 != 0x0100_0040
            &&& instr & 0x0F90_0FF0 != 0x0100_0240
            &&& instr & 0x0FF0_0090 != 0x0140_0080
            &&& instr & 0x0FF0_0090 != 0x0100_0080
            &&& instr & 0x0FF0_0090 != 0x0160_0080
            &&& instr & 0x0FF0_00B0 != 0x0120_0080
            &&& instr & 0x0FF0_00B0 != 0x0120_00A0
            &&& ((instr >> 25) & 0x7 == 0)
            &&& ((instr >> 20) & 0x1F == 22)
            &&& ((instr >> 4) & 1 == 1)
            &&& ((instr >> 7) & 1 == 0)
            &&& ((instr >> 4) & 0xF == 5)
            &&& ((instr >> 21) & 3 == 3)
            &&& ((instr >> 20) & 1 == 0)
            &&& ((instr >> 21) & 1 == 1)
            &&& ((instr >> 24) & 1 == 1)
            &&& ((instr >> 20) & 0xF == 6)
            &&& ((instr >> 22) & 1 == 1)
            &&& ((instr >> 5) & 3 == 2)
        }
        &&& (instr & 0x0FF0_00F0 == 0x0120_0070) ==> {
            &&& (instr >> 28) & 0xF != 0xF
            &&& instr & 0x0FFF_FFF0 != 0x0320_F000
            &&& instr & 0x0F90_0FF0 != 0x0100_0040
            &&& instr & 0x0F90_0FF0 != 0x0100_0240
            &&& instr & 0x0FF0_0090 != 0x0140_0080
            &&& instr & 0x0FF0_0090 != 0x0100_0080
            &&& instr & 0x0FF0_0090 != 0x0160_0080
            &&& instr & 0x0FF0_00B0 != 0x0120_0080
            &&& instr & 0x0FF0_00B0 != 0x0120_00A0
            &&& ((instr >> 25) & 0x7 == 0)
            &&& ((instr >> 20) & 0x1F == 18)
            &&& ((instr >> 4) & 1 == 1)
            &&& ((instr >> 7) & 1 == 0)
            &&& ((instr >> 4) & 0xF == 7)
            &&& ((instr >> 21) & 3 == 1)
            &&& ((instr >> 20) & 1 == 0)
            &&& ((instr >> 21) & 1 == 1)
            &&& ((instr >> 24) & 1 == 1)
            &&& ((instr >> 20) & 0xF == 2)
            &&& ((instr >> 22) & 1 == 0)
            &&& ((instr >> 5) & 3 == 3)
        }
        &&& (instr & 0x0FB0_00F0 == 0x0100_0000) ==> {
            &&& (instr >> 28) & 0xF != 0xF
            &&& instr & 0x0FFF_FFF0 != 0x0320_F000
            &&& instr & 0x0F90_0FF0 != 0x0100_0040
            &&& instr & 0x0F90_0FF0 != 0x0100_0240
            &&& instr & 0x0FF0_0090 != 0x0140_0080
            &&& instr & 0x0FF0_0090 != 0x0100_0080
            &&& instr & 0x0FF0_0090 != 0x0160_0080
            &&& instr & 0x0FF0_00B0 != 0x0120_0080
            &&& instr & 0x0FF0_00B0 != 0x0120_00A0
            &&& ((instr >> 25) & 0x7 == 0)
            &&& ((instr >> 20) & 0x1F == 16 || (instr >> 20) & 0x1F == 20)
            &&& ((instr >> 4) & 1 == 0)
            &&& ((instr >> 7) & 1 == 0)
            &&& ((instr >> 4) & 0xF == 0)
            &&& ((instr >> 21) & 3 == 0 || (instr >> 21) & 3 == 2)
            &&& ((instr >> 20) & 1 == 0)
            &&& ((instr >> 21) & 1 == 0)
            &&& ((instr >> 24) & 1 == 1)
            &&& ((instr >> 20) & 0xF == 0 || (instr >> 20) & 0xF == 4)
            &&& ((instr >> 5) & 3 == 0)
        }
        &&& (instr & 0x0FB0_00F0 == 0x0120_0000) ==> {
            &&& (instr >> 28) & 0xF != 0xF
            &&& instr & 0x0FFF_FFF0 != 0x0320_F000
            &&& instr & 0x0F90_0FF0 != 0x0100_0040
            &&& instr & 0x0F90_0FF0 != 0x0100_0240
            &&& instr & 0x0FF0_0090 != 0x0140_0080
            &&& instr & 0x0FF0_0090 != 0x0100_0080
            &&& instr & 0x0FF0_0090 != 0x0160_0080
            &&& instr & 0x0FF0_00B0 != 0x0120_0080
            &&& instr & 0x0FF0_00B0 != 0x0120_00A0
            &&& ((instr >> 25) & 0x7 == 0)
            &&& ((instr >> 20) & 0x1F == 18 || (instr >> 20) & 0x1F == 22)
            &&& ((instr >> 4) & 1 == 0)
            &&& ((instr >> 7) & 1 == 0)
            &&& ((instr >> 4) & 0xF == 0)
            &&& ((instr >> 21) & 3 == 1 || (instr >> 21) & 3 == 3)
            &&& ((instr >> 20) & 1 == 0)
            &&& ((instr >> 21) & 1 == 1)
            &&& ((instr >> 24) & 1 == 1)
            &&& ((instr >> 20) & 0xF == 2 || (instr >> 20) & 0xF == 6)
            &&& ((instr >> 5) & 3 == 0)
        }
        &&& (instr & 0x0FF0_0090 == 0x0100_0080) ==> {
            &&& (instr >> 28) & 0xF != 0xF
            &&& instr & 0x0FFF_FFF0 != 0x0320_F000
            &&& instr & 0x0F90_0FF0 != 0x0100_0040
            &&& instr & 0x0F90_0FF0 != 0x0100_0240
            &&& instr & 0x0FF0_0090 != 0x0140_0080
            &&& instr & 0x0FF0_0090 == 0x0100_0080
            &&& instr & 0x0FF0_0090 != 0x0160_0080
            &&& instr & 0x0FF0_00B0 != 0x0120_0080
            &&& instr & 0x0FF0_00B0 != 0x0120_00A0
            &&& ((instr >> 25) & 0x7 == 0)
            &&& ((instr >> 20) & 0x1F == 16)
            &&& ((instr >> 4) & 1 == 0)
            &&& ((instr >> 7) & 1 == 1)
            &&& ((instr >> 4) & 0xF == 8 || (instr >> 4) & 0xF == 10 || (instr >> 4) & 0xF == 12
                || (instr >> 4) & 0xF == 14)
            &&& ((instr >> 21) & 3 == 0)
            &&& ((instr >> 20) & 1 == 0)
            &&& ((instr >> 21) & 1 == 0)
            &&& ((instr >> 24) & 1 == 1)
            &&& ((instr >> 20) & 0xF == 0)
            &&& ((instr >> 22) & 1 == 0)
        }
        &&& (instr & 0x0FF0_00B0 == 0x0120_0080) ==> {
            &&& (instr >> 28) & 0xF != 0xF
            &&& instr & 0x0FFF_FFF0 != 0x0320_F000
            &&& instr & 0x0F90_0FF0 != 0x0100_0040
            &&& instr & 0x0F90_0FF0 != 0x0100_0240
            &&& instr & 0x0FF0_0090 != 0x0140_0080
            &&& instr & 0x0FF0_0090 != 0x0100_0080
            &&& instr & 0x0FF0_0090 != 0x0160_0080
            &&& instr & 0x0FF0_00B0 == 0x0120_0080
            &&& instr & 0x0FF0_00B0 != 0x0120_00A0
            &&& ((instr >> 25) & 0x7 == 0)
            &&& ((instr >> 20) & 0x1F == 18)
            &&& ((instr >> 4) & 1 == 0)
            &&& ((instr >> 7) & 1 == 1)
            &&& ((instr >> 4) & 0xF == 8 || (instr >> 4) & 0xF == 12)
            &&& ((instr >> 21) & 3 == 1)
            &&& ((instr >> 20) & 1 == 0)
            &&& ((instr >> 21) & 1 == 1)
            &&& ((instr >> 24) & 1 == 1)
            &&& ((instr >> 20) & 0xF == 2)
            &&& ((instr >> 22) & 1 == 0)
            &&& ((instr >> 5) & 3 == 0 || (instr >> 5) & 3 == 2)
        }
        &&& (instr & 0x0FF0_00B0 == 0x0120_00A0) ==> {
            &&& (instr >> 28) & 0xF != 0xF
            &&& instr & 0x0FFF_FFF0 != 0x0320_F000
            &&& instr & 0x0F90_0FF0 != 0x0100_0040
            &&& instr & 0x0F90_0FF0 != 0x0100_0240
            &&& instr & 0x0FF0_0090 != 0x0140_0080
            &&& instr & 0x0FF0_0090 != 0x0100_0080
            &&& instr & 0x0FF0_0090 != 0x0160_0080
            &&& instr & 0x0FF0_00B0 != 0x0120_0080
            &&& instr & 0x0FF0_00B0 == 0x0120_00A0
            &&& ((instr >> 25) & 0x7 == 0)
            &&& ((instr >> 20) & 0x1F == 18)
            &&& ((instr >> 4) & 1 == 0)
            &&& ((instr >> 7) & 1 == 1)
            &&& ((instr >> 4) & 0xF == 10 || (instr >> 4) & 0xF == 14)
            &&& ((instr >> 21) & 3 == 1)
            &&& ((instr >> 20) & 1 == 0)
            &&& ((instr >> 21) & 1 == 1)
            &&& ((instr >> 24) & 1 == 1)
            &&& ((instr >> 20) & 0xF == 2)
            &&& ((instr >> 22) & 1 == 0)
            &&& ((instr >> 5) & 3 == 1 || (instr >> 5) & 3 == 3)
        }
        &&& (instr & 0x0FF0_0090 == 0x0140_0080) ==> {
            &&& (instr >> 28) & 0xF != 0xF
            &&& instr & 0x0FFF_FFF0 != 0x0320_F000
            &&& instr & 0x0F90_0FF0 != 0x0100_0040
            &&& instr & 0x0F90_0FF0 != 0x0100_0240
            &&& instr & 0x0FF0_0090 == 0x0140_0080
            &&& instr & 0x0FF0_0090 != 0x0100_0080
            &&& instr & 0x0FF0_0090 != 0x0160_0080
            &&& instr & 0x0FF0_00B0 != 0x0120_0080
            &&& instr & 0x0FF0_00B0 != 0x0120_00A0
            &&& ((instr >> 25) & 0x7 == 0)
            &&& ((instr >> 20) & 0x1F == 20)
            &&& ((instr >> 4) & 1 == 0)
            &&& ((instr >> 7) & 1 == 1)
            &&& ((instr >> 4) & 0xF == 8 || (instr >> 4) & 0xF == 10 || (instr >> 4) & 0xF == 12
                || (instr >> 4) & 0xF == 14)
            &&& ((instr >> 21) & 3 == 2)
            &&& ((instr >> 20) & 1 == 0)
            &&& ((instr >> 21) & 1 == 0)
            &&& ((instr >> 24) & 1 == 1)
            &&& ((instr >> 20) & 0xF == 4)
            &&& ((instr >> 22) & 1 == 1)
        }
        &&& (instr & 0x0FF0_0090 == 0x0160_0080) ==> {
            &&& (instr >> 28) & 0xF != 0xF
            &&& instr & 0x0FFF_FFF0 != 0x0320_F000
            &&& instr & 0x0F90_0FF0 != 0x0100_0040
            &&& instr & 0x0F90_0FF0 != 0x0100_0240
            &&& instr & 0x0FF0_0090 != 0x0140_0080
            &&& instr & 0x0FF0_0090 != 0x0100_0080
            &&& instr & 0x0FF0_0090 == 0x0160_0080
            &&& instr & 0x0FF0_00B0 != 0x0120_0080
            &&& instr & 0x0FF0_00B0 != 0x0120_00A0
            &&& ((instr >> 25) & 0x7 == 0)
            &&& ((instr >> 20) & 0x1F == 22)
            &&& ((instr >> 4) & 1 == 0)
            &&& ((instr >> 7) & 1 == 1)
            &&& ((instr >> 4) & 0xF == 8 || (instr >> 4) & 0xF == 10 || (instr >> 4) & 0xF == 12
                || (instr >> 4) & 0xF == 14)
            &&& ((instr >> 21) & 3 == 3)
            &&& ((instr >> 20) & 1 == 0)
            &&& ((instr >> 21) & 1 == 1)
            &&& ((instr >> 24) & 1 == 1)
            &&& ((instr >> 20) & 0xF == 6)
            &&& ((instr >> 22) & 1 == 1)
        }
        &&& (instr & 0x0FE0_00F0 == 0x0000_0090) ==> {
            &&& (instr >> 28) & 0xF != 0xF
            &&& instr & 0x0FFF_FFF0 != 0x0320_F000
            &&& instr & 0x0F90_0FF0 != 0x0100_0040
            &&& instr & 0x0F90_0FF0 != 0x0100_0240
            &&& instr & 0x0FF0_0090 != 0x0140_0080
            &&& instr & 0x0FF0_0090 != 0x0100_0080
            &&& instr & 0x0FF0_0090 != 0x0160_0080
            &&& instr & 0x0FF0_00B0 != 0x0120_0080
            &&& instr & 0x0FF0_00B0 != 0x0120_00A0
            &&& ((instr >> 25) & 0x7 == 0)
            &&& ((instr >> 20) & 0x1F == 0 || (instr >> 20) & 0x1F == 1)
            &&& ((instr >> 4) & 1 == 1)
            &&& ((instr >> 7) & 1 == 1)
            &&& ((instr >> 4) & 0xF == 9)
            &&& ((instr >> 21) & 3 == 0)
            &&& ((instr >> 21) & 1 == 0)
            &&& ((instr >> 24) & 1 == 0)
            &&& ((instr >> 20) & 0xF == 0 || (instr >> 20) & 0xF == 1)
            &&& ((instr >> 22) & 1 == 0)
            &&& ((instr >> 5) & 3 == 0)
        }
        &&& (instr & 0x0FE0_00F0 == 0x0020_0090) ==> {
            &&& (instr >> 28) & 0xF != 0xF
            &&& instr & 0x0FFF_FFF0 != 0x0320_F000
            &&& instr & 0x0F90_0FF0 != 0x0100_0040
            &&& instr & 0x0F90_0FF0 != 0x0100_0240
            &&& instr & 0x0FF0_0090 != 0x0140_0080
            &&& instr & 0x0FF0_0090 != 0x0100_0080
            &&& instr & 0x0FF0_0090 != 0x0160_0080
            &&& instr & 0x0FF0_00B0 != 0x0120_0080
            &&& instr & 0x0FF0_00B0 != 0x0120_00A0
            &&& ((instr >> 25) & 0x7 == 0)
            &&& ((instr >> 20) & 0x1F == 2 || (instr >> 20) & 0x1F == 3)
            &&& ((instr >> 4) & 1 == 1)
            &&& ((instr >> 7) & 1 == 1)
            &&& ((instr >> 4) & 0xF == 9)
            &&& ((instr >> 21) & 3 == 1)
            &&& ((instr >> 21) & 1 == 1)
            &&& ((instr >> 24) & 1 == 0)
            &&& ((instr >> 20) & 0xF == 2 || (instr >> 20) & 0xF == 3)
            &&& ((instr >> 22) & 1 == 0)
            &&& ((instr >> 5) & 3 == 0)
        }
        &&& (instr & 0x0FF0_00F0 == 0x0040_0090) ==> {
            &&& (instr >> 28) & 0xF != 0xF
            &&& instr & 0x0FFF_FFF0 != 0x0320_F000
            &&& instr & 0x0F90_0FF0 != 0x0100_0040
            &&& instr & 0x0F90_0FF0 != 0x0100_0240
            &&& instr & 0x0FF0_0090 != 0x0140_0080
            &&& instr & 0x0FF0_0090 != 0x0100_0080
            &&& instr & 0x0FF0_0090 != 0x0160_0080
            &&& instr & 0x0FF0_00B0 != 0x0120_0080
            &&& instr & 0x0FF0_00B0 != 0x0120_00A0
            &&& ((instr >> 25) & 0x7 == 0)
            &&& ((instr >> 20) & 0x1F == 4)
            &&& ((instr >> 4) & 1 == 1)
            &&& ((instr >> 7) & 1 == 1)
            &&& ((instr >> 4) & 0xF == 9)
            &&& ((instr >> 21) & 3 == 2)
            &&& ((instr >> 20) & 1 == 0)
            &&& ((instr >> 21) & 1 == 0)
            &&& ((instr >> 24) & 1 == 0)
            &&& ((instr >> 20) & 0xF == 4)
            &&& ((instr >> 22) & 1 == 1)
            &&& ((instr >> 5) & 3 == 0)
        }
        &&& (instr & 0x0FF0_00F0 == 0x0060_0090) ==> {
            &&& (instr >> 28) & 0xF != 0xF
            &&& instr & 0x0FFF_FFF0 != 0x0320_F000
            &&& instr & 0x0F90_0FF0 != 0x0100_0040
            &&& instr & 0x0F90_0FF0 != 0x0100_0240
            &&& instr & 0x0FF0_0090 != 0x0140_0080
            &&& instr & 0x0FF0_0090 != 0x0100_0080
            &&& instr & 0x0FF0_0090 != 0x0160_0080
            &&& instr & 0x0FF0_00B0 != 0x0120_0080
            &&& instr & 0x0FF0_00B0 != 0x0120_00A0
            &&& ((instr >> 25) & 0x7 == 0)
            &&& ((instr >> 20) & 0x1F == 6)
            &&& ((instr >> 4) & 1 == 1)
            &&& ((instr >> 7) & 1 == 1)
            &&& ((instr >> 4) & 0xF == 9)
            &&& ((instr >> 21) & 3 == 3)
            &&& ((instr >> 20) & 1 == 0)
            &&& ((instr >> 21) & 1 == 1)
            &&& ((instr >> 24) & 1 == 0)
            &&& ((instr >> 20) & 0xF == 6)
            &&& ((instr >> 22) & 1 == 1)
            &&& ((instr >> 5) & 3 == 0)
        }
        &&& (instr & 0x0FE0_00F0 == 0x0080_0090) ==> {
            &&& (instr >> 28) & 0xF != 0xF
            &&& instr & 0x0FFF_FFF0 != 0x0320_F000
            &&& instr & 0x0F90_0FF0 != 0x0100_0040
            &&& instr & 0x0F90_0FF0 != 0x0100_0240
            &&& instr & 0x0FF0_0090 != 0x0140_0080
            &&& instr & 0x0FF0_0090 != 0x0100_0080
            &&& instr & 0x0FF0_0090 != 0x0160_0080
            &&& instr & 0x0FF0_00B0 != 0x0120_0080
            &&& instr & 0x0FF0_00B0 != 0x0120_00A0
            &&& ((instr >> 25) & 0x7 == 0)
            &&& ((instr >> 20) & 0x1F == 8 || (instr >> 20) & 0x1F == 9)
            &&& ((instr >> 4) & 1 == 1)
            &&& ((instr >> 7) & 1 == 1)
            &&& ((instr >> 4) & 0xF == 9)
            &&& ((instr >> 21) & 3 == 0)
            &&& ((instr >> 21) & 1 == 0)
            &&& ((instr >> 24) & 1 == 0)
            &&& ((instr >> 20) & 0xF == 8 || (instr >> 20) & 0xF == 9)
            &&& ((instr >> 22) & 1 == 0)
            &&& ((instr >> 5) & 3 == 0)
        }
        &&& (instr & 0x0FE0_00F0 == 0x00A0_0090) ==> {
            &&& (instr >> 28) & 0xF != 0xF
            &&& instr & 0x0FFF_FFF0 != 0x0320_F000
            &&& instr & 0x0F90_0FF0 != 0x0100_0040
            &&& instr & 0x0F90_0FF0 != 0x0100_0240
            &&& instr & 0x0FF0_0090 != 0x0140_0080
            &&& instr & 0x0FF0_0090 != 0x0100_0080
            &&& instr & 0x0FF0_0090 != 0x0160_0080
            &&& instr & 0x0FF0_00B0 != 0x0120_0080
            &&& instr & 0x0FF0_00B0 != 0x0120_00A0
            &&& ((instr >> 25) & 0x7 == 0)
            &&& ((instr >> 20) & 0x1F == 10 || (instr >> 20) & 0x1F == 11)
            &&& ((instr >> 4) & 1 == 1)
            &&& ((instr >> 7) & 1 == 1)
            &&& ((instr >> 4) & 0xF == 9)
            &&& ((instr >> 21) & 3 == 1)
            &&& ((instr >> 21) & 1 == 1)
            &&& ((instr >> 24) & 1 == 0)
            &&& ((instr >> 20) & 0xF == 10 || (instr >> 20) & 0xF == 11)
            &&& ((instr >> 22) & 1 == 0)
            &&& ((instr >> 5) & 3 == 0)
        }
        &&& (instr & 0x0FE0_00F0 == 0x00C0_0090) ==> {
            &&& (instr >> 28) & 0xF != 0xF
            &&& instr & 0x0FFF_FFF0 != 0x0320_F000
            &&& instr & 0x0F90_0FF0 != 0x0100_0040
            &&& instr & 0x0F90_0FF0 != 0x0100_0240
            &&& instr & 0x0FF0_0090 != 0x0140_0080
            &&& instr & 0x0FF0_0090 != 0x0100_0080
            &&& instr & 0x0FF0_0090 != 0x0160_0080
            &&& instr & 0x0FF0_00B0 != 0x0120_0080
            &&& instr & 0x0FF0_00B0 != 0x0120_00A0
            &&& ((instr >> 25) & 0x7 == 0)
            &&& ((instr >> 20) & 0x1F == 12 || (instr >> 20) & 0x1F == 13)
            &&& ((instr >> 4) & 1 == 1)
            &&& ((instr >> 7) & 1 == 1)
            &&& ((instr >> 4) & 0xF == 9)
            &&& ((instr >> 21) & 3 == 2)
            &&& ((instr >> 21) & 1 == 0)
            &&& ((instr >> 24) & 1 == 0)
            &&& ((instr >> 20) & 0xF == 12 || (instr >> 20) & 0xF == 13)
            &&& ((instr >> 22) & 1 == 1)
            &&& ((instr >> 5) & 3 == 0)
        }
        &&& (instr & 0x0FE0_00F0 == 0x00E0_0090) ==> {
            &&& (instr >> 28) & 0xF != 0xF
            &&& instr & 0x0FFF_FFF0 != 0x0320_F000
            &&& instr & 0x0F90_0FF0 != 0x0100_0040
            &&& instr & 0x0F90_0FF0 != 0x0100_0240
            &&& instr & 0x0FF0_0090 != 0x0140_0080
            &&& instr & 0x0FF0_0090 != 0x0100_0080
            &&& instr & 0x0FF0_0090 != 0x0160_0080
            &&& instr & 0x0FF0_00B0 != 0x0120_0080
            &&& instr & 0x0FF0_00B0 != 0x0120_00A0
            &&& ((instr >> 25) & 0x7 == 0)
            &&& ((instr >> 20) & 0x1F == 14 || (instr >> 20) & 0x1F == 15)
            &&& ((instr >> 4) & 1 == 1)
            &&& ((instr >> 7) & 1 == 1)
            &&& ((instr >> 4) & 0xF == 9)
            &&& ((instr >> 21) & 3 == 3)
            &&& ((instr >> 21) & 1 == 1)
            &&& ((instr >> 24) & 1 == 0)
            &&& ((instr >> 20) & 0xF == 14 || (instr >> 20) & 0xF == 15)
            &&& ((instr >> 22) & 1 == 1)
            &&& ((instr >> 5) & 3 == 0)
        }
        &&& (instr & 0x0E50_00F0 == 0x0000_00B0) ==> {
            &&& (instr >> 28) & 0xF != 0xF
            &&& instr & 0x0FFF_FFF0 != 0x0320_F000
            &&& instr & 0x0F90_0FF0 != 0x0100_0040
            &&& instr & 0x0F90_0FF0 != 0x0100_0240
            &&& instr & 0x0FF0_0090 != 0x0140_0080
            &&& instr & 0x0FF0_0090 != 0x0100_0080
            &&& instr & 0x0FF0_0090 != 0x0160_0080
            &&& instr & 0x0FF0_00B0 != 0x0120_0080
            &&& instr & 0x0FF0_00B0 != 0x0120_00A0
            &&& ((instr >> 25) & 0x7 == 0)
            &&& ((instr >> 20) & 0x1F == 0 || (instr >> 20) & 0x1F == 2 || (instr >> 20) & 0x1F == 8
                || (instr >> 20) & 0x1F == 10 || (instr >> 20) & 0x1F == 16
                || (instr >> 20) & 0x1F == 18 || (instr >> 20) & 0x1F == 24
                || (instr >> 20) & 0x1F == 26)
            &&& ((instr >> 4) & 1 == 1)
            &&& ((instr >> 7) & 1 == 1)
            &&& ((instr >> 4) & 0xF == 11)
            &&& ((instr >> 21) & 3 == 0 || (instr >> 21) & 3 == 1)
            &&& ((instr >> 20) & 1 == 0)
            &&& ((instr >> 20) & 0xF == 0 || (instr >> 20) & 0xF == 2 || (instr >> 20) & 0xF == 8
                || (instr >> 20) & 0xF == 10)
            &&& ((instr >> 22) & 1 == 0)
            &&& ((instr >> 5) & 3 == 1)
        }
        &&& (instr & 0x0E50_00F0 == 0x0040_00B0) ==> {
            &&& (instr >> 28) & 0xF != 0xF
            &&& instr & 0x0FFF_FFF0 != 0x0320_F000
            &&& instr & 0x0F90_0FF0 != 0x0100_0040
            &&& instr & 0x0F90_0FF0 != 0x0100_0240
            &&& instr & 0x0FF0_0090 != 0x0140_0080
            &&& instr & 0x0FF0_0090 != 0x0100_0080
            &&& instr & 0x0FF0_0090 != 0x0160_0080
            &&& instr & 0x0FF0_00B0 != 0x0120_0080
            &&& instr & 0x0FF0_00B0 != 0x0120_00A0
            &&& ((instr >> 25) & 0x7 == 0)
            &&& ((instr >> 20) & 0x1F == 4 || (instr >> 20) & 0x1F == 6
                || (instr >> 20) & 0x1F == 12 || (instr >> 20) & 0x1F == 14
                || (instr >> 20) & 0x1F == 20 || (instr >> 20) & 0x1F == 22
                || (instr >> 20) & 0x1F == 28 || (instr >> 20) & 0x1F == 30)
            &&& ((instr >> 4) & 1 == 1)
            &&& ((instr >> 7) & 1 == 1)
            &&& ((instr >> 4) & 0xF == 11)
            &&& ((instr >> 21) & 3 == 2 || (instr >> 21) & 3 == 3)
            &&& ((instr >> 20) & 1 == 0)
            &&& ((instr >> 20) & 0xF == 4 || (instr >> 20) & 0xF == 6 || (instr >> 20) & 0xF == 12
                || (instr >> 20) & 0xF == 14)
            &&& ((instr >> 22) & 1 == 1)
            &&& ((instr >> 5) & 3 == 1)
        }
        &&& (instr & 0x0E50_00F0 == 0x0000_00D0) ==> {
            &&& (instr >> 28) & 0xF != 0xF
            &&& instr & 0x0FFF_FFF0 != 0x0320_F000
            &&& instr & 0x0F90_0FF0 != 0x0100_0040
            &&& instr & 0x0F90_0FF0 != 0x0100_0240
            &&& instr & 0x0FF0_0090 != 0x0140_0080
            &&& instr & 0x0FF0_0090 != 0x0100_0080
            &&& instr & 0x0FF0_0090 != 0x0160_0080
            &&& instr & 0x0FF0_00B0 != 0x0120_0080
            &&& instr & 0x0FF0_00B0 != 0x0120_00A0
            &&& ((instr >> 25) & 0x7 == 0)
            &&& ((instr >> 20) & 0x1F == 0 || (instr >> 20) & 0x1F == 2 || (instr >> 20) & 0x1F == 8
                || (instr >> 20) & 0x1F == 10 || (instr >> 20) & 0x1F == 16
                || (instr >> 20) & 0x1F == 18 || (instr >> 20) & 0x1F == 24
                || (instr >> 20) & 0x1F == 26)
            &&& ((instr >> 4) & 1 == 1)
            &&& ((instr >> 7) & 1 == 1)
            &&& ((instr >> 4) & 0xF == 13)
            &&& ((instr >> 21) & 3 == 0 || (instr >> 21) & 3 == 1)
            &&& ((instr >> 20) & 1 == 0)
            &&& ((instr >> 20) & 0xF == 0 || (instr >> 20) & 0xF == 2 || (instr >> 20) & 0xF == 8
                || (instr >> 20) & 0xF == 10)
            &&& ((instr >> 22) & 1 == 0)
            &&& ((instr >> 5) & 3 == 2)
        }
        &&& (instr & 0x0E50_00F0 == 0x0040_00D0) ==> {
            &&& (instr >> 28) & 0xF != 0xF
            &&& instr & 0x0FFF_FFF0 != 0x0320_F000
            &&& instr & 0x0F90_0FF0 != 0x0100_0040
            &&& instr & 0x0F90_0FF0 != 0x0100_0240
            &&& instr & 0x0FF0_0090 != 0x0140_0080
            &&& instr & 0x0FF0_0090 != 0x0100_0080
            &&& instr & 0x0FF0_0090 != 0x0160_0080
            &&& instr & 0x0FF0_00B0 != 0x0120_0080
            &&& instr & 0x0FF0_00B0 != 0x0120_00A0
            &&& ((instr >> 25) & 0x7 == 0)
            &&& ((instr >> 20) & 0x1F == 4 || (instr >> 20) & 0x1F == 6
                || (instr >> 20) & 0x1F == 12 || (instr >> 20) & 0x1F == 14
                || (instr >> 20) & 0x1F == 20 || (instr >> 20) & 0x1F == 22
                || (instr >> 20) & 0x1F == 28 || (instr >> 20) & 0x1F == 30)
            &&& ((instr >> 4) & 1 == 1)
            &&& ((instr >> 7) & 1 == 1)
            &&& ((instr >> 4) & 0xF == 13)
            &&& ((instr >> 21) & 3 == 2 || (instr >> 21) & 3 == 3)
            &&& ((instr >> 20) & 1 == 0)
            &&& ((instr >> 20) & 0xF == 4 || (instr >> 20) & 0xF == 6 || (instr >> 20) & 0xF == 12
                || (instr >> 20) & 0xF == 14)
            &&& ((instr >> 22) & 1 == 1)
            &&& ((instr >> 5) & 3 == 2)
        }
        &&& (instr & 0x0E50_00F0 == 0x0000_00F0) ==> {
            &&& (instr >> 28) & 0xF != 0xF
            &&& instr & 0x0FFF_FFF0 != 0x0320_F000
            &&& instr & 0x0F90_0FF0 != 0x0100_0040
            &&& instr & 0x0F90_0FF0 != 0x0100_0240
            &&& instr & 0x0FF0_0090 != 0x0140_0080
            &&& instr & 0x0FF0_0090 != 0x0100_0080
            &&& instr & 0x0FF0_0090 != 0x0160_0080
            &&& instr & 0x0FF0_00B0 != 0x0120_0080
            &&& instr & 0x0FF0_00B0 != 0x0120_00A0
            &&& ((instr >> 25) & 0x7 == 0)
            &&& ((instr >> 20) & 0x1F == 0 || (instr >> 20) & 0x1F == 2 || (instr >> 20) & 0x1F == 8
                || (instr >> 20) & 0x1F == 10 || (instr >> 20) & 0x1F == 16
                || (instr >> 20) & 0x1F == 18 || (instr >> 20) & 0x1F == 24
                || (instr >> 20) & 0x1F == 26)
            &&& ((instr >> 4) & 1 == 1)
            &&& ((instr >> 7) & 1 == 1)
            &&& ((instr >> 4) & 0xF == 15)
            &&& ((instr >> 21) & 3 == 0 || (instr >> 21) & 3 == 1)
            &&& ((instr >> 20) & 1 == 0)
            &&& ((instr >> 20) & 0xF == 0 || (instr >> 20) & 0xF == 2 || (instr >> 20) & 0xF == 8
                || (instr >> 20) & 0xF == 10)
            &&& ((instr >> 22) & 1 == 0)
            &&& ((instr >> 5) & 3 == 3)
        }
        &&& (instr & 0x0E50_00F0 == 0x0040_00F0) ==> {
            &&& (instr >> 28) & 0xF != 0xF
            &&& instr & 0x0FFF_FFF0 != 0x0320_F000
            &&& instr & 0x0F90_0FF0 != 0x0100_0040
            &&& instr & 0x0F90_0FF0 != 0x0100_0240
            &&& instr & 0x0FF0_0090 != 0x0140_0080
            &&& instr & 0x0FF0_0090 != 0x0100_0080
            &&& instr & 0x0FF0_0090 != 0x0160_0080
            &&& instr & 0x0FF0_00B0 != 0x0120_0080
            &&& instr & 0x0FF0_00B0 != 0x0120_00A0
            &&& ((instr >> 25) & 0x7 == 0)
            &&& ((instr >> 20) & 0x1F == 4 || (instr >> 20) & 0x1F == 6
                || (instr >> 20) & 0x1F == 12 || (instr >> 20) & 0x1F == 14
                || (instr >> 20) & 0x1F == 20 || (instr >> 20) & 0x1F == 22
                || (instr >> 20) & 0x1F == 28 || (instr >> 20) & 0x1F == 30)
            &&& ((instr >> 4) & 1 == 1)
            &&& ((instr >> 7) & 1 == 1)
            &&& ((instr >> 4) & 0xF == 15)
            &&& ((instr >> 21) & 3 == 2 || (instr >> 21) & 3 == 3)
            &&& ((instr >> 20) & 1 == 0)
            &&& ((instr >> 20) & 0xF == 4 || (instr >> 20) & 0xF == 6 || (instr >> 20) & 0xF == 12
                || (instr >> 20) & 0xF == 14)
            &&& ((instr >> 22) & 1 == 1)
            &&& ((instr >> 5) & 3 == 3)
        }
        &&& (instr & 0x0E50_00F0 == 0x0010_00B0) ==> {
            &&& (instr >> 28) & 0xF != 0xF
            &&& instr & 0x0FFF_FFF0 != 0x0320_F000
            &&& instr & 0x0F90_0FF0 != 0x0100_0040
            &&& instr & 0x0F90_0FF0 != 0x0100_0240
            &&& instr & 0x0FF0_0090 != 0x0140_0080
            &&& instr & 0x0FF0_0090 != 0x0100_0080
            &&& instr & 0x0FF0_0090 != 0x0160_0080
            &&& instr & 0x0FF0_00B0 != 0x0120_0080
            &&& instr & 0x0FF0_00B0 != 0x0120_00A0
            &&& ((instr >> 25) & 0x7 == 0)
            &&& ((instr >> 20) & 0x1F == 1 || (instr >> 20) & 0x1F == 3 || (instr >> 20) & 0x1F == 9
                || (instr >> 20) & 0x1F == 11 || (instr >> 20) & 0x1F == 17
                || (instr >> 20) & 0x1F == 19 || (instr >> 20) & 0x1F == 25
                || (instr >> 20) & 0x1F == 27)
            &&& ((instr >> 4) & 1 == 1)
            &&& ((instr >> 7) & 1 == 1)
            &&& ((instr >> 4) & 0xF == 11)
            &&& ((instr >> 21) & 3 == 0 || (instr >> 21) & 3 == 1)
            &&& ((instr >> 20) & 1 == 1)
            &&& ((instr >> 20) & 0xF == 1 || (instr >> 20) & 0xF == 3 || (instr >> 20) & 0xF == 9
                || (instr >> 20) & 0xF == 11)
            &&& ((instr >> 22) & 1 == 0)
            &&& ((instr >> 5) & 3 == 1)
        }
        &&& (instr & 0x0E50_00F0 == 0x0050_00B0) ==> {
            &&& (instr >> 28) & 0xF != 0xF
            &&& instr & 0x0FFF_FFF0 != 0x0320_F000
            &&& instr & 0x0F90_0FF0 != 0x0100_0040
            &&& instr & 0x0F90_0FF0 != 0x0100_0240
            &&& instr & 0x0FF0_0090 != 0x0140_0080
            &&& instr & 0x0FF0_0090 != 0x0100_0080
            &&& instr & 0x0FF0_0090 != 0x0160_0080
            &&& instr & 0x0FF0_00B0 != 0x0120_0080
            &&& instr & 0x0FF0_00B0 != 0x0120_00A0
            &&& ((instr >> 25) & 0x7 == 0)
            &&& ((instr >> 20) & 0x1F == 5 || (instr >> 20) & 0x1F == 7
                || (instr >> 20) & 0x1F == 13 || (instr >> 20) & 0x1F == 15
                || (instr >> 20) & 0x1F == 21 || (instr >> 20) & 0x1F == 23
                || (instr >> 20) & 0x1F == 29 || (instr >> 20) & 0x1F == 31)
            &&& ((instr >> 4) & 1 == 1)
            &&& ((instr >> 7) & 1 == 1)
            &&& ((instr >> 4) & 0xF == 11)
            &&& ((instr >> 21) & 3 == 2 || (instr >> 21) & 3 == 3)
            &&& ((instr >> 20) & 1 == 1)
            &&& ((instr >> 20) & 0xF == 5 || (instr >> 20) & 0xF == 7 || (instr >> 20) & 0xF == 13
                || (instr >> 20) & 0xF == 15)
            &&& ((instr >> 22) & 1 == 1)
            &&& ((instr >> 5) & 3 == 1)
        }
        &&& (instr & 0x0E50_00F0 == 0x0010_00D0) ==> {
            &&& (instr >> 28) & 0xF != 0xF
            &&& instr & 0x0FFF_FFF0 != 0x0320_F000
            &&& instr & 0x0F90_0FF0 != 0x0100_0040
            &&& instr & 0x0F90_0FF0 != 0x0100_0240
            &&& instr & 0x0FF0_0090 != 0x0140_0080
            &&& instr & 0x0FF0_0090 != 0x0100_0080
            &&& instr & 0x0FF0_0090 != 0x0160_0080
            &&& instr & 0x0FF0_00B0 != 0x0120_0080
            &&& instr & 0x0FF0_00B0 != 0x0120_00A0
            &&& ((instr >> 25) & 0x7 == 0)
            &&& ((instr >> 20) & 0x1F == 1 || (instr >> 20) & 0x1F == 3 || (instr >> 20) & 0x1F == 9
                || (instr >> 20) & 0x1F == 11 || (instr >> 20) & 0x1F == 17
                || (instr >> 20) & 0x1F == 19 || (instr >> 20) & 0x1F == 25
                || (instr >> 20) & 0x1F == 27)
            &&& ((instr >> 4) & 1 == 1)
            &&& ((instr >> 7) & 1 == 1)
            &&& ((instr >> 4) & 0xF == 13)
            &&& ((instr >> 21) & 3 == 0 || (instr >> 21) & 3 == 1)
            &&& ((instr >> 20) & 1 == 1)
            &&& ((instr >> 20) & 0xF == 1 || (instr >> 20) & 0xF == 3 || (instr >> 20) & 0xF == 9
                || (instr >> 20) & 0xF == 11)
            &&& ((instr >> 22) & 1 == 0)
            &&& ((instr >> 5) & 3 == 2)
        }
        &&& (instr & 0x0E50_00F0 == 0x0050_00D0) ==> {
            &&& (instr >> 28) & 0xF != 0xF
            &&& instr & 0x0FFF_FFF0 != 0x0320_F000
            &&& instr & 0x0F90_0FF0 != 0x0100_0040
            &&& instr & 0x0F90_0FF0 != 0x0100_0240
            &&& instr & 0x0FF0_0090 != 0x0140_0080
            &&& instr & 0x0FF0_0090 != 0x0100_0080
            &&& instr & 0x0FF0_0090 != 0x0160_0080
            &&& instr & 0x0FF0_00B0 != 0x0120_0080
            &&& instr & 0x0FF0_00B0 != 0x0120_00A0
            &&& ((instr >> 25) & 0x7 == 0)
            &&& ((instr >> 20) & 0x1F == 5 || (instr >> 20) & 0x1F == 7
                || (instr >> 20) & 0x1F == 13 || (instr >> 20) & 0x1F == 15
                || (instr >> 20) & 0x1F == 21 || (instr >> 20) & 0x1F == 23
                || (instr >> 20) & 0x1F == 29 || (instr >> 20) & 0x1F == 31)
            &&& ((instr >> 4) & 1 == 1)
            &&& ((instr >> 7) & 1 == 1)
            &&& ((instr >> 4) & 0xF == 13)
            &&& ((instr >> 21) & 3 == 2 || (instr >> 21) & 3 == 3)
            &&& ((instr >> 20) & 1 == 1)
            &&& ((instr >> 20) & 0xF == 5 || (instr >> 20) & 0xF == 7 || (instr >> 20) & 0xF == 13
                || (instr >> 20) & 0xF == 15)
            &&& ((instr >> 22) & 1 == 1)
            &&& ((instr >> 5) & 3 == 2)
        }
        &&& (instr & 0x0E50_00F0 == 0x0010_00F0) ==> {
            &&& (instr >> 28) & 0xF != 0xF
            &&& instr & 0x0FFF_FFF0 != 0x0320_F000
            &&& instr & 0x0F90_0FF0 != 0x0100_0040
            &&& instr & 0x0F90_0FF0 != 0x0100_0240
            &&& instr & 0x0FF0_0090 != 0x0140_0080
            &&& instr & 0x0FF0_0090 != 0x0100_0080
            &&& instr & 0x0FF0_0090 != 0x0160_0080
            &&& instr & 0x0FF0_00B0 != 0x0120_0080
            &&& instr & 0x0FF0_00B0 != 0x0120_00A0
            &&& ((instr >> 25) & 0x7 == 0)
            &&& ((instr >> 20) & 0x1F == 1 || (instr >> 20) & 0x1F == 3 || (instr >> 20) & 0x1F == 9
                || (instr >> 20) & 0x1F == 11 || (instr >> 20) & 0x1F == 17
                || (instr >> 20) & 0x1F == 19 || (instr >> 20) & 0x1F == 25
                || (instr >> 20) & 0x1F == 27)
            &&& ((instr >> 4) & 1 == 1)
            &&& ((instr >> 7) & 1 == 1)
            &&& ((instr >> 4) & 0xF == 15)
            &&& ((instr >> 21) & 3 == 0 || (instr >> 21) & 3 == 1)
            &&& ((instr >> 20) & 1 == 1)
            &&& ((instr >> 20) & 0xF == 1 || (instr >> 20) & 0xF == 3 || (instr >> 20) & 0xF == 9
                || (instr >> 20) & 0xF == 11)
            &&& ((instr >> 22) & 1 == 0)
            &&& ((instr >> 5) & 3 == 3)
        }
        &&& (instr & 0x0E50_00F0 == 0x0050_00F0) ==> {
            &&& (instr >> 28) & 0xF != 0xF
            &&& instr & 0x0FFF_FFF0 != 0x0320_F000
            &&& instr & 0x0F90_0FF0 != 0x0100_0040
            &&& instr & 0x0F90_0FF0 != 0x0100_0240
            &&& instr & 0x0FF0_0090 != 0x0140_0080
            &&& instr & 0x0FF0_0090 != 0x0100_0080
            &&& instr & 0x0FF0_0090 != 0x0160_0080
            &&& instr & 0x0FF0_00B0 != 0x0120_0080
            &&& instr & 0x0FF0_00B0 != 0x0120_00A0
            &&& ((instr >> 25) & 0x7 == 0)
            &&& ((instr >> 20) & 0x1F == 5 || (instr >> 20) & 0x1F == 7
                || (instr >> 20) & 0x1F == 13 || (instr >> 20) & 0x1F == 15
                || (instr >> 20) & 0x1F == 21 || (instr >> 20) & 0x1F == 23
                || (instr >> 20) & 0x1F == 29 || (instr >> 20) & 0x1F == 31)
            &&& ((instr >> 4) & 1 == 1)
            &&& ((instr >> 7) & 1 == 1)
            &&& ((instr >> 4) & 0xF == 15)
            &&& ((instr >> 21) & 3 == 2 || (instr >> 21) & 3 == 3)
            &&& ((instr >> 20) & 1 == 1)
            &&& ((instr >> 20) & 0xF == 5 || (instr >> 20) & 0xF == 7 || (instr >> 20) & 0xF == 13
                || (instr >> 20) & 0xF == 15)
            &&& ((instr >> 22) & 1 == 1)
            &&& ((instr >> 5) & 3 == 3)
        }
    }) by (bit_vector)
        requires
            instr >> 28 != 0xF,
    ;
}

/// The bits of synchronization instructions.
#[verifier::rlimit(50)]
pub proof fn synchronization_bits(instr: u32)
    requires
        instr >> 28 != 0xF,
    ensures
        instr & 0x0FF0_0FF0 == 0x0100_0090 ==> arm_encoding(instr)
            == ArmInstId::SWP,
        instr & 0x0FF0_0FF0 == 0x0140_0090 ==> arm_encoding(instr)
            == ArmInstId::SWPB,
        instr & 0x0FF0_FFF0 == 0x0180_FC90 ==> arm_encoding(instr)
            == ArmInstId::STL,
        instr & 0x0FF0_0FF0 == 0x0180_0E90 ==> arm_encoding(instr)
            == ArmInstId::STLEX,
        instr & 0x0FF0_0FF0 == 0x0180_0F90 ==> arm_encoding(instr)
            == ArmInstId::STREX,
        instr & 0x0FF0_0FFF == 0x0190_0C9F ==> arm_encoding(instr)
            == ArmInstId::LDA,
        instr & 0x0FF0_0FFF == 0x0190_0E9F ==> arm_encoding(instr)
            == ArmInstId::LDAEX,
        instr & 0x0FF0_0FFF == 0x0190_0F9F ==> arm_encoding(instr)
            == ArmInstId::LDREX,
        instr & 0x0FF0_FFF0 == 0x01C0_FC90 ==> arm_encoding(instr)
            == ArmInstId::STLB,
        instr & 0x0FF0_0FF0 == 0x01C0_0E90 ==> arm_encoding(instr)
            == ArmInstId::STLEXB,
        instr & 0x0FF0_0FF0 == 0x01C0_0F90 ==> arm_encoding(instr)
            == ArmInstId::STREXB,
        instr & 0x0FF0_0FFF == 0x01D0_0C9F ==> arm_encoding(instr)
            == ArmInstId::LDAB,
        instr & 0x0FF0_0FFF == 0x01D0_0E9F ==> arm_encoding(instr)
            == ArmInstId::LDAEXB,
        instr & 0x0FF0_0FFF == 0x01D0_0F9F ==> arm_encoding(instr)
            == ArmInstId::LDREXB,
        instr & 0x0FF0_FFF0 == 0x01E0_FC90 ==> arm_encoding(instr)
            == ArmInstId::STLH,
        instr & 0x0FF0_0FF0 == 0x01E0_0E90 ==> arm_encoding(instr)
            == ArmInstId::STLEXH,
        instr & 0x0FF0_0FF0 == 0x01E0_0F90 ==> arm_encoding(instr)
            == ArmInstId::STREXH,
        instr & 0x0FF0_0FFF == 0x01F0_0C9F ==> arm_encoding(instr)
            == ArmInstId::LDAH,
        instr & 0x0FF0_0FFF == 0x01F0_0E9F ==> arm_encoding(instr)
            == ArmInstId::LDAEXH,
        instr & 0x0FF0_0FFF == 0x01F0_0F9F ==> arm_encoding(instr)
            == ArmInstId::LDREXH,
        instr & 0x0FF0_0FF0 == 0x01A0_0E90 ==> arm_encoding(instr)
            == ArmInstId::STLEXD,
        instr & 0x0FF0_0FF0 == 0x01A0_0F90 ==> arm_encoding(instr)
            == ArmInstId::STREXD,
        instr & 0x0FF0_0FFF == 0x01B0_0E9F ==> arm_encoding(instr)
            == ArmInstId::LDAEXD,
        instr & 0x0FF0_0FFF == 0x01B0_0F9F ==> arm_encoding(instr)
            == ArmInstId::LDREXD,
{
    assert({
        &&& (instr & 0x0FF0_0FF0 == 0x0100_0090) ==> {
            &&& (instr >> 28) & 0xF != 0xF
            &&& instr & 0x0FFF_FFF0 != 0x0320_F000
            &&& instr & 0x0F90_0FF0 != 0x0100_0040
            &&& instr & 0x0F90_0FF0 != 0x0100_0240
            &&& instr & 0x0FF0_0090 != 0x0140_0080
            &&& instr & 0x0FF0_0090 != 0x0100_0080
            &&& instr & 0x0FF0_0090 != 0x0160_0080
            &&& instr & 0x0FF0_00B0 != 0x0120_0080
            &&& instr & 0x0FF0_00B0 != 0x0120_00A0
            &&& instr & 0x0FF0_FFF0 != 0x0180_FC90
            &&& instr & 0x0FF0_0FF0 != 0x0180_0E90
            &&& instr & 0x0FF0_0FFF != 0x0190_0C9F
            &&& instr & 0x0FF0_0FFF != 0x0190_0E9F
            &&& instr & 0x0FF0_0FF0 != 0x01A0_0E90
            &&& instr & 0x0FF0_0FFF != 0x01B0_0E9F
            &&& instr & 0x0FF0_FFF0 != 0x01C0_FC90
            &&& instr & 0x0FF0_0FF0 != 0x01C0_0E90
            &&& instr & 0x0FF0_0FFF != 0x01D0_0C9F
            &&& instr & 0x0FF0_0FFF != 0x01D0_0E9F
            &&& instr & 0x0FF0_FFF0 != 0x01E0_FC90
            &&& instr & 0x0FF0_0FF0 != 0x01E0_0E90
            &&& instr & 0x0FF0_0FFF != 0x01F0_0C9F
            &&& instr & 0x0FF0_0FFF != 0x01F0_0E9F
            &&& ((instr >> 25) & 0x7 == 0)
            &&& ((instr >> 20) & 0x1F == 16)
            &&& ((instr >> 4) & 1 == 1)
            &&& ((instr >> 7) & 1 == 1)
            &&& ((instr >> 4) & 0xF == 9)
            &&& ((instr >> 24) & 1 == 1)
            &&& ((instr >> 20) & 0xF == 0)
        }
        &&& (instr & 0x0FF0_0FF0 == 0x0140_0090) ==> {
            &&& (instr >> 28) & 0xF != 0xF
            &&& instr & 0x0FFF_FFF0 != 0x0320_F000
            &&& instr & 0x0F90_0FF0 != 0x0100_0040
            &&& instr & 0x0F90_0FF0 != 0x0100_0240
            &&& instr & 0x0FF0_0090 != 0x0140_0080
            &&& instr & 0x0FF0_0090 != 0x0100_0080
            &&& instr & 0x0FF0_0090 != 0x0160_0080
            &&& instr & 0x0FF0_00B0 != 0x0120_0080
            &&& instr & 0x0FF0_00B0 != 0x0120_00A0
            &&& instr & 0x0FF0_FFF0 != 0x0180_FC90
            &&& instr & 0x0FF0_0FF0 != 0x0180_0E90
            &&& instr & 0x0FF0_0FFF != 0x0190_0C9F
            &&& instr & 0x0FF0_0FFF != 0x0190_0E9F
            &&& instr & 0x0FF0_0FF0 != 0x01A0_0E90
            &&& instr & 0x0FF0_0FFF != 0x01B0_0E9F
            &&& instr & 0x0FF0_FFF0 != 0x01C0_FC90
            &&& instr & 0x0FF0_0FF0 != 0x01C0_0E90
            &&& instr & 0x0FF0_0FFF != 0x01D0_0C9F
            &&& instr & 0x0FF0_0FFF != 0x01D0_0E9F
            &&& instr & 0x0FF0_FFF0 != 0x01E0_FC90
            &&& instr & 0x0FF0_0FF0 != 0x01E0_0E90
            &&& instr & 0x0FF0_0FFF != 0x01F0_0C9F
            &&& instr & 0x0FF0_0FFF != 0x01F0_0E9F
            &&& ((instr >> 25) & 0x7 == 0)
            &&& ((instr >> 20) & 0x1F == 20)
            &&& ((instr >> 4) & 1 == 1)
            &&& ((instr >> 7) & 1 == 1)
            &&& ((instr >> 4) & 0xF == 9)
            &&& ((instr >> 24) & 1 == 1)
            &&& ((instr >> 20) & 0xF == 4)
        }
        &&& (instr & 0x0FF0_FFF0 == 0x0180_FC90) ==> {
            &&& (instr >> 28) & 0xF != 0xF
            &&& instr & 0x0FFF_FFF0 != 0x0320_F000
            &&& instr & 0x0F90_0FF0 != 0x0100_0040
            &&& instr & 0x0F90_0FF0 != 0x0100_0240
            &&& instr & 0x0FF0_0090 != 0x0140_0080
            &&& instr & 0x0FF0_0090 != 0x0100_0080
            &&& instr & 0x0FF0_0090 != 0x0160_0080
            &&& instr & 0x0FF0_00B0 != 0x0120_0080
            &&& instr & 0x0FF0_00B0 != 0x0120_00A0
            &&& instr & 0x0FF0_FFF0 == 0x0180_FC90
            &&& instr & 0x0FF0_0FF0 != 0x0180_0E90
            &&& instr & 0x0FF0_0FFF != 0x0190_0C9F
            &&& instr & 0x0FF0_0FFF != 0x0190_0E9F
            &&& instr & 0x0FF0_0FF0 != 0x01A0_0E90
            &&& instr & 0x0FF0_0FFF != 0x01B0_0E9F
            &&& instr & 0x0FF0_FFF0 != 0x01C0_FC90
            &&& instr & 0x0FF0_0FF0 != 0x01C0_0E90
            &&& instr & 0x0FF0_0FFF != 0x01D0_0C9F
            &&& instr & 0x0FF0_0FFF != 0x01D0_0E9F
            &&& instr & 0x0FF0_FFF0 != 0x01E0_FC90
            &&& instr & 0x0FF0_0FF0 != 0x01E0_0E90
            &&& instr & 0x0FF0_0FFF != 0x01F0_0C9F
            &&& instr & 0x0FF0_0FFF != 0x01F0_0E9F
            &&& ((instr >> 25) & 0x7 == 0)
            &&& ((instr >> 20) & 0x1F == 24)
            &&& ((instr >> 4) & 1 == 1)
            &&& ((instr >> 7) & 1 == 1)
            &&& ((instr >> 4) & 0xF == 9)
            &&& ((instr >> 24) & 1 == 1)
            &&& ((instr >> 20) & 0xF == 8)
        }
        &&& (instr & 0x0FF0_0FF0 == 0x0180_0E90) ==> {
            &&& (instr >> 28) & 0xF != 0xF
            &&& instr & 0x0FFF_FFF0 != 0x0320_F000
            &&& instr & 0x0F90_0FF0 != 0x0100_0040
            &&& instr & 0x0F90_0FF0 != 0x0100_0240
            &&& instr & 0x0FF0_0090 != 0x0140_0080
            &&& instr & 0x0FF0_0090 != 0x0100_0080
            &&& instr & 0x0FF0_0090 != 0x0160_0080
            &&& instr & 0x0FF0_00B0 != 0x0120_0080
            &&& instr & 0x0FF0_00B0 != 0x0120_00A0
            &&& instr & 0x0FF0_FFF0 != 0x0180_FC90
            &&& instr & 0x0FF0_0FF0 == 0x0180_0E90
            &&& instr & 0x0FF0_0FFF != 0x0190_0C9F
            &&& instr & 0x0FF0_0FFF != 0x0190_0E9F
            &&& instr & 0x0FF0_0FF0 != 0x01A0_0E90
            &&& instr & 0x0FF0_0FFF != 0x01B0_0E9F
            &&& instr & 0x0FF0_FFF0 != 0x01C0_FC90
            &&& instr & 0x0FF0_0FF0 != 0x01C0_0E90
            &&& instr & 0x0FF0_0FFF != 0x01D0_0C9F
            &&& instr & 0x0FF0_0FFF != 0x01D0_0E9F
            &&& instr & 0x0FF0_FFF0 != 0x01E0_FC90
            &&& instr & 0x0FF0_0FF0 != 0x01E0_0E90
            &&& instr & 0x0FF0_0FFF != 0x01F0_0C9F
            &&& instr & 0x0FF0_0FFF != 0x01F0_0E9F
            &&& ((instr >> 25) & 0x7 == 0)
            &&& ((instr >> 20) & 0x1F == 24)
            &&& ((instr >> 4) & 1 == 1)
            &&& ((instr >> 7) & 1 == 1)
            &&& ((instr >> 4) & 0xF == 9)
            &&& ((instr >> 24) & 1 == 1)
            &&& ((instr >> 20) & 0xF == 8)
        }
        &&& (instr & 0x0FF0_0FF0 == 0x0180_0F90) ==> {
            &&& (instr >> 28) & 0xF != 0xF
            &&& instr & 0x0FFF_FFF0 != 0x0320_F000
            &&& instr & 0x0F90_0FF0 != 0x0100_0040
            &&& instr & 0x0F90_0FF0 != 0x0100_0240
            &&& instr & 0x0FF0_0090 != 0x0140_0080
            &&& instr & 0x0FF0_0090 != 0x0100_0080
            &&& instr & 0x0FF0_0090 != 0x0160_0080
            &&& instr & 0x0FF0_00B0 != 0x0120_0080
            &&& instr & 0x0FF0_00B0 != 0x0120_00A0
            &&& instr & 0x0FF0_FFF0 != 0x0180_FC90
            &&& instr & 0x0FF0_0FF0 != 0x0180_0E90
            &&& instr & 0x0FF0_0FFF != 0x0190_0C9F
            &&& instr & 0x0FF0_0FFF != 0x0190_0E9F
            &&& instr & 0x0FF0_0FF0 != 0x01A0_0E90
            &&& instr & 0x0FF0_0FFF != 0x01B0_0E9F
            &&& instr & 0x0FF0_FFF0 != 0x01C0_FC90
            &&& instr & 0x0FF0_0FF0 != 0x01C0_0E90
            &&& instr & 0x0FF0_0FFF != 0x01D0_0C9F
            &&& instr & 0x0FF0_0FFF != 0x01D0_0E9F
            &&& instr & 0x0FF0_FFF0 != 0x01E0_FC90
            &&& instr & 0x0FF0_0FF0 != 0x01E0_0E90
            &&& instr & 0x0FF0_0FFF != 0x01F0_0C9F
            &&& instr & 0x0FF0_0FFF != 0x01F0_0E9F
            &&& ((instr >> 25) & 0x7 == 0)
            &&& ((instr >> 20) & 0x1F == 24)
            &&& ((instr >> 4) & 1 == 1)
            &&& ((instr >> 7) & 1 == 1)
            &&& ((instr >> 4) & 0xF == 9)
            &&& ((instr >> 24) & 1 == 1)
            &&& ((instr >> 20) & 0xF == 8)
        }
        &&& (instr & 0x0FF0_0FFF == 0x0190_0C9F) ==> {
            &&& (instr >> 28) & 0xF != 0xF
            &&& instr & 0x0FFF_FFF0 != 0x0320_F000
            &&& instr & 0x0F90_0FF0 != 0x0100_0040
            &&& instr & 0x0F90_0FF0 != 0x0100_0240
            &&& instr & 0x0FF0_0090 != 0x0140_0080
            &&& instr & 0x0FF0_0090 != 0x0100_0080
            &&& instr & 0x0FF0_0090 != 0x0160_0080
            &&& instr & 0x0FF0_00B0 != 0x0120_0080
            &&& instr & 0x0FF0_00B0 != 0x0120_00A0
            &&& instr & 0x0FF0_FFF0 != 0x0180_FC90
            &&& instr & 0x0FF0_0FF0 != 0x0180_0E90
            &&& instr & 0x0FF0_0FFF == 0x0190_0C9F
            &&& instr & 0x0FF0_0FFF != 0x0190_0E9F
            &&& instr & 0x0FF0_0FF0 != 0x01A0_0E90
            &&& instr & 0x0FF0_0FFF != 0x01B0_0E9F
            &&& instr & 0x0FF0_FFF0 != 0x01C0_FC90
            &&& instr & 0x0FF0_0FF0 != 0x01C0_0E90
            &&& instr & 0x0FF0_0FFF != 0x01D0_0C9F
            &&& instr & 0x0FF0_0FFF != 0x01D0_0E9F
            &&& instr & 0x0FF0_FFF0 != 0x01E0_FC90
            &&& instr & 0x0FF0_0FF0 != 0x01E0_0E90
            &&& instr & 0x0FF0_0FFF != 0x01F0_0C9F
            &&& instr & 0x0FF0_0FFF != 0x01F0_0E9F
            &&& ((instr >> 25) & 0x7 == 0)
            &&& ((instr >> 20) & 0x1F == 25)
            &&& ((instr >> 4) & 1 == 1)
            &&& ((instr >> 7) & 1 == 1)
            &&& ((instr >> 4) & 0xF == 9)
            &&& ((instr >> 24) & 1 == 1)
            &&& ((instr >> 20) & 0xF == 9)
        }
        &&& (instr & 0x0FF0_0FFF == 0x0190_0E9F) ==> {
            &&& (instr >> 28) & 0xF != 0xF
            &&& instr & 0x0FFF_FFF0 != 0x0320_F000
            &&& instr & 0x0F90_0FF0 != 0x0100_0040
            &&& instr & 0x0F90_0FF0 != 0x0100_0240
            &&& instr & 0x0FF0_0090 != 0x0140_0080
            &&& instr & 0x0FF0_0090 != 0x0100_0080
            &&& instr & 0x0FF0_0090 != 0x0160_0080
            &&& instr & 0x0FF0_00B0 != 0x0120_0080
            &&& instr & 0x0FF0_00B0 != 0x0120_00A0
            &&& instr & 0x0FF0_FFF0 != 0x0180_FC90
            &&& instr & 0x0FF0_0FF0 != 0x0180_0E90
            &&& instr & 0x0FF0_0FFF != 0x0190_0C9F
            &&& instr & 0x0FF0_0FFF == 0x0190_0E9F
            &&& instr & 0x0FF0_0FF0 != 0x01A0_0E90
            &&& instr & 0x0FF0_0FFF != 0x01B0_0E9F
            &&& instr & 0x0FF0_FFF0 != 0x01C0_FC90
            &&& instr & 0x0FF0_0FF0 != 0x01C0_0E90
            &&& instr & 0x0FF0_0FFF != 0x01D0_0C9F
            &&& instr & 0x0FF0_0FFF != 0x01D0_0E9F
            &&& instr & 0x0FF0_FFF0 != 0x01E0_FC90
            &&& instr & 0x0FF0_0FF0 != 0x01E0_0E90
            &&& instr & 0x0FF0_0FFF != 0x01F0_0C9F
            &&& instr & 0x0FF0_0FFF != 0x01F0_0E9F
            &&& ((instr >> 25) & 0x7 == 0)
            &&& ((instr >> 20) & 0x1F == 25)
            &&& ((instr >> 4) & 1 == 1)
            &&& ((instr >> 7) & 1 == 1)
            &&& ((instr >> 4) & 0xF == 9)
            &&& ((instr >> 24) & 1 == 1)
            &&& ((instr >> 20) & 0xF == 9)
        }
        &&& (instr & 0x0FF0_0FFF == 0x0190_0F9F) ==> {
            &&& (instr >> 28) & 0xF != 0xF
            &&& instr & 0x0FFF_FFF0 != 0x0320_F000
            &&& instr & 0x0F90_0FF0 != 0x0100_0040
            &&& instr & 0x0F90_0FF0 != 0x0100_0240
            &&& instr & 0x0FF0_0090 != 0x0140_0080
            &&& instr & 0x0FF0_0090 != 0x0100_0080
            &&& instr & 0x0FF0_0090 != 0x0160_0080
            &&& instr & 0x0FF0_00B0 != 0x0120_0080
            &&& instr & 0x0FF0_00B0 != 0x0120_00A0
            &&& instr & 0x0FF0_FFF0 != 0x0180_FC90
            &&& instr & 0x0FF0_0FF0 != 0x0180_0E90
            &&& instr & 0x0FF0_0FFF != 0x0190_0C9F
            &&& instr & 0x0FF0_0FFF != 0x0190_0E9F
            &&& instr & 0x0FF0_0FF0 != 0x01A0_0E90
            &&& instr & 0x0FF0_0FFF != 0x01B0_0E9F
            &&& instr & 0x0FF0_FFF0 != 0x01C0_FC90
            &&& instr & 0x0FF0_0FF0 != 0x01C0_0E90
            &&& instr & 0x0FF0_0FFF != 0x01D0_0C9F
            &&& instr & 0x0FF0_0FFF != 0x01D0_0E9F
            &&& instr & 0x0FF0_FFF0 != 0x01E0_FC90
            &&& instr & 0x0FF0_0FF0 != 0x01E0_0E90
            &&& instr & 0x0FF0_0FFF != 0x01F0_0C9F
            &&& instr & 0x0FF0_0FFF != 0x01F0_0E9F
            &&& ((instr >> 25) & 0x7 == 0)
            &&& ((instr >> 20) & 0x1F == 25)
            &&& ((instr >> 4) & 1 == 1)
            &&& ((instr >> 7) & 1 == 1)
            &&& ((instr >> 4) & 0xF == 9)
            &&& ((instr >> 24) & 1 == 1)
            &&& ((instr >> 20) & 0xF == 9)
        }
        &&& (instr & 0x0FF0_FFF0 == 0x01C0_FC90) ==> {
            &&& (instr >> 28) & 0xF != 0xF
            &&& instr & 0x0FFF_FFF0 != 0x0320_F000
            &&& instr & 0x0F90_0FF0 != 0x0100_0040
            &&& instr & 0x0F90_0FF0 != 0x0100_0240
            &&& instr & 0x0FF0_0090 != 0x0140_0080
            &&& instr & 0x0FF0_0090 != 0x0100_0080
            &&& instr & 0x0FF0_0090 != 0x0160_0080
            &&& instr & 0x0FF0_00B0 != 0x0120_0080
            &&& instr & 0x0FF0_00B0 != 0x0120_00A0
            &&& instr & 0x0FF0_FFF0 != 0x0180_FC90
            &&& instr & 0x0FF0_0FF0 != 0x0180_0E90
            &&& instr & 0x0FF0_0FFF != 0x0190_0C9F
            &&& instr & 0x0FF0_0FFF != 0x0190_0E9F
            &&& instr & 0x0FF0_0FF0 != 0x01A0_0E90
            &&& instr & 0x0FF0_0FFF != 0x01B0_0E9F
            &&& instr & 0x0FF0_FFF0 == 0x01C0_FC90
            &&& instr & 0x0FF0_0FF0 != 0x01C0_0E90
            &&& instr & 0x0FF0_0FFF != 0x01D0_0C9F
            &&& instr & 0x0FF0_0FFF != 0x01D0_0E9F
            &&& instr & 0x0FF0_FFF0 != 0x01E0_FC90
            &&& instr & 0x0FF0_0FF0 != 0x01E0_0E90
            &&& instr & 0x0FF0_0FFF != 0x01F0_0C9F
            &&& instr & 0x0FF0_0FFF != 0x01F0_0E9F
            &&& ((instr >> 25) & 0x7 == 0)
            &&& ((instr >> 20) & 0x1F == 28)
            &&& ((instr >> 4) & 1 == 1)
            &&& ((instr >> 7) & 1 == 1)
            &&& ((instr >> 4) & 0xF == 9)
            &&& ((instr >> 24) & 1 == 1)
            &&& ((instr >> 20) & 0xF == 12)
        }
        &&& (instr & 0x0FF0_0FF0 == 0x01C0_0E90) ==> {
            &&& (instr >> 28) & 0xF != 0xF
            &&& instr & 0x0FFF_FFF0 != 0x0320_F000
            &&& instr & 0x0F90_0FF0 != 0x0100_0040
            &&& instr & 0x0F90_0FF0 != 0x0100_0240
            &&& instr & 0x0FF0_0090 != 0x0140_0080
            &&& instr & 0x0FF0_0090 != 0x0100_0080
            &&& instr & 0x0FF0_0090 != 0x0160_0080
            &&& instr & 0x0FF0_00B0 != 0x0120_0080
            &&& instr & 0x0FF0_00B0 != 0x0120_00A0
            &&& instr & 0x0FF0_FFF0 != 0x0180_FC90
            &&& instr & 0x0FF0_0FF0 != 0x0180_0E90
            &&& instr & 0x0FF0_0FFF != 0x0190_0C9F
            &&& instr & 0x0FF0_0FFF != 0x0190_0E9F
            &&& instr & 0x0FF0_0FF0 != 0x01A0_0E90
            &&& instr & 0x0FF0_0FFF != 0x01B0_0E9F
            &&& instr & 0x0FF0_FFF0 != 0x01C0_FC90
            &&& instr & 0x0FF0_0FF0 == 0x01C0_0E90
            &&& instr & 0x0FF0_0FFF != 0x01D0_0C9F
            &&& instr & 0x0FF0_0FFF != 0x01D0_0E9F
            &&& instr & 0x0FF0_FFF0 != 0x01E0_FC90
            &&& instr & 0x0FF0_0FF0 != 0x01E0_0E90
            &&& instr & 0x0FF0_0FFF != 0x01F0_0C9F
            &&& instr & 0x0FF0_0FFF != 0x01F0_0E9F
            &&& ((instr >> 25) & 0x7 == 0)
            &&& ((instr >> 20) & 0x1F == 28)
            &&& ((instr >> 4) & 1 == 1)
            &&& ((instr >> 7) & 1 == 1)
            &&& ((instr >> 4) & 0xF == 9)
            &&& ((instr >> 24) & 1 == 1)
            &&& ((instr >> 20) & 0xF == 12)
        }
        &&& (instr & 0x0FF0_0FF0 == 0x01C0_0F90) ==> {
            &&& (instr >> 28) & 0xF != 0xF
            &&& instr & 0x0FFF_FFF0 != 0x0320_F000
            &&& instr & 0x0F90_0FF0 != 0x0100_0040
            &&& instr & 0x0F90_0FF0 != 0x0100_0240
            &&& instr & 0x0FF0_0090 != 0x0140_0080
            &&& instr & 0x0FF0_0090 != 0x0100_0080
            &&& instr & 0x0FF0_0090 != 0x0160_0080
            &&& instr & 0x0FF0_00B0 != 0x0120_0080
            &&& instr & 0x0FF0_00B0 != 0x0120_00A0
            &&& instr & 0x0FF0_FFF0 != 0x0180_FC90
            &&& instr & 0x0FF0_0FF0 != 0x0180_0E90
            &&& instr & 0x0FF0_0FFF != 0x0190_0C9F
            &&& instr & 0x0FF0_0FFF != 0x0190_0E9F
            &&& instr & 0x0FF0_0FF0 != 0x01A0_0E90
            &&& instr & 0x0FF0_0FFF != 0x01B0_0E9F
            &&& instr & 0x0FF0_FFF0 != 0x01C0_FC90
            &&& instr & 0x0FF0_0FF0 != 0x01C0_0E90
            &&& instr & 0x0FF0_0FFF != 0x01D0_0C9F
            &&& instr & 0x0FF0_0FFF != 0x01D0_0E9F
            &&& instr & 0x0FF0_FFF0 != 0x01E0_FC90
            &&& instr & 0x0FF0_0FF0 != 0x01E0_0E90
            &&& instr & 0x0FF0_0FFF != 0x01F0_0C9F
            &&& instr & 0x0FF0_0FFF != 0x01F0_0E9F
            &&& ((instr >> 25) & 0x7 == 0)
            &&& ((instr >> 20) & 0x1F == 28)
            &&& ((instr >> 4) & 1 == 1)
            &&& ((instr >> 7) & 1 == 1)
            &&& ((instr >> 4) & 0xF == 9)
            &&& ((instr >> 24) & 1 == 1)
            &&& ((instr >> 20) & 0xF == 12)
        }
        &&& (instr & 0x0FF0_0FFF == 0x01D0_0C9F) ==> {
            &&& (instr >> 28) & 0xF != 0xF
            &&& instr & 0x0FFF_FFF0 != 0x0320_F000
            &&& instr & 0x0F90_0FF0 != 0x0100_0040
            &&& instr & 0x0F90_0FF0 != 0x0100_0240
            &&& instr & 0x0FF0_0090 != 0x0140_0080
            &&& instr & 0x0FF0_0090 != 0x0100_0080
            &&& instr & 0x0FF0_0090 != 0x0160_0080
            &&& instr & 0x0FF0_00B0 != 0x0120_0080
            &&& instr & 0x0FF0_00B0 != 0x0120_00A0
            &&& instr & 0x0FF0_FFF0 != 0x0180_FC90
            &&& instr & 0x0FF0_0FF0 != 0x0180_0E90
            &&& instr & 0x0FF0_0FFF != 0x0190_0C9F
            &&& instr & 0x0FF0_0FFF != 0x0190_0E9F
            &&& instr & 0x0FF0_0FF0 != 0x01A0_0E90
            &&& instr & 0x0FF0_0FFF != 0x01B0_0E9F
            &&& instr & 0x0FF0_FFF0 != 0x01C0_FC90
            &&& instr & 0x0FF0_0FF0 != 0x01C0_0E90
            &&& instr & 0x0FF0_0FFF == 0x01D0_0C9F
            &&& instr & 0x0FF0_0FFF != 0x01D0_0E9F
            &&& instr & 0x0FF0_FFF0 != 0x01E0_FC90
            &&& instr & 0x0FF0_0FF0 != 0x01E0_0E90
            &&& instr & 0x0FF0_0FFF != 0x01F0_0C9F
            &&& instr & 0x0FF0_0FFF != 0x01F0_0E9F
            &&& ((instr >> 25) & 0x7 == 0)
            &&& ((instr >> 20) & 0x1F == 29)
            &&& ((instr >> 4) & 1 == 1)
            &&& ((instr >> 7) & 1 == 1)
            &&& ((instr >> 4) & 0xF == 9)
            &&& ((instr >> 24) & 1 == 1)
            &&& ((instr >> 20) & 0xF == 13)
        }
        &&& (instr & 0x0FF0_0FFF == 0x01D0_0E9F) ==> {
            &&& (instr >> 28) & 0xF != 0xF
            &&& instr & 0x0FFF_FFF0 != 0x0320_F000
            &&& instr & 0x0F90_0FF0 != 0x0100_0040
            &&& instr & 0x0F90_0FF0 != 0x0100_0240
            &&& instr & 0x0FF0_0090 != 0x0140_0080
            &&& instr & 0x0FF0_0090 != 0x0100_0080
            &&& instr & 0x0FF0_0090 != 0x0160_0080
            &&& instr & 0x0FF0_00B0 != 0x0120_0080
            &&& instr & 0x0FF0_00B0 != 0x0120_00A0
            &&& instr & 0x0FF0_FFF0 != 0x0180_FC90
            &&& instr & 0x0FF0_0FF0 != 0x0180_0E90
            &&& instr & 0x0FF0_0FFF != 0x0190_0C9F
            &&& instr & 0x0FF0_0FFF != 0x0190_0E9F
            &&& instr & 0x0FF0_0FF0 != 0x01A0_0E90
            &&& instr & 0x0FF0_0FFF != 0x01B0_0E9F
            &&& instr & 0x0FF0_FFF0 != 0x01C0_FC90
            &&& instr & 0x0FF0_0FF0 != 0x01C0_0E90
            &&& instr & 0x0FF0_0FFF != 0x01D0_0C9F
            &&& instr & 0x0FF0_0FFF == 0x01D0_0E9F
            &&& instr & 0x0FF0_FFF0 != 0x01E0_FC90
            &&& instr & 0x0FF0_0FF0 != 0x01E0_0E90
            &&& instr & 0x0FF0_0FFF != 0x01F0_0C9F
            &&& instr & 0x0FF0_0FFF != 0x01F0_0E9F
            &&& ((instr >> 25) & 0x7 == 0)
            &&& ((instr >> 20) & 0x1F == 29)
            &&& ((instr >> 4) & 1 == 1)
            &&& ((instr >> 7) & 1 == 1)
            &&& ((instr >> 4) & 0xF == 9)
            &&& ((instr >> 24) & 1 == 1)
            &&& ((instr >> 20) & 0xF == 13)
        }
        &&& (instr & 0x0FF0_0FFF == 0x01D0_0F9F) ==> {
            &&& (instr >> 28) & 0xF != 0xF
            &&& instr & 0x0FFF_FFF0 != 0x0320_F000
            &&& instr & 0x0F90_0FF0 != 0x0100_0040
            &&& instr & 0x0F90_0FF0 != 0x0100_0240
            &&& instr & 0x0FF0_0090 != 0x0140_0080
            &&& instr & 0x0FF0_0090 != 0x0100_0080
            &&& instr & 0x0FF0_0090 != 0x0160_0080
            &&& instr & 0x0FF0_00B0 != 0x0120_0080
            &&& instr & 0x0FF0_00B0 != 0x0120_00A0
            &&& instr & 0x0FF0_FFF0 != 0x0180_FC90
            &&& instr & 0x0FF0_0FF0 != 0x0180_0E90
            &&& instr & 0x0FF0_0FFF != 0x0190_0C9F
            &&& instr & 0x0FF0_0FFF != 0x0190_0E9F
            &&& instr & 0x0FF0_0FF0 != 0x01A0_0E90
            &&& instr & 0x0FF0_0FFF != 0x01B0_0E9F
            &&& instr & 0x0FF0_FFF0 != 0x01C0_FC90
            &&& instr & 0x0FF0_0FF0 != 0x01C0_0E90
            &&& instr & 0x0FF0_0FFF != 0x01D0_0C9F
            &&& instr & 0x0FF0_0FFF != 0x01D0_0E9F
            &&& instr & 0x0FF0_FFF0 != 0x01E0_FC90
            &&& instr & 0x0FF0_0FF0 != 0x01E0_0E90
            &&& instr & 0x0FF0_0FFF != 0x01F0_0C9F
            &&& instr & 0x0FF0_0FFF != 0x01F0_0E9F
            &&& ((instr >> 25) & 0x7 == 0)
            &&& ((instr >> 20) & 0x1F == 29)
            &&& ((instr >> 4) & 1 == 1)
            &&& ((instr >> 7) & 1 == 1)
            &&& ((instr >> 4) & 0xF == 9)
            &&& ((instr >> 24) & 1 == 1)
            &&& ((instr >> 20) & 0xF == 13)
        }
        &&& (instr & 0x0FF0_FFF0 == 0x01E0_FC90) ==> {
            &&& (instr >> 28) & 0xF != 0xF
            &&& instr & 0x0FFF_FFF0 != 0x0320_F000
            &&& instr & 0x0F90_0FF0 != 0x0100_0040
            &&& instr & 0x0F90_0FF0 != 0x0100_0240
            &&& instr & 0x0FF0_0090 != 0x0140_0080
            &&& instr & 0x0FF0_0090 != 0x0100_0080
            &&& instr & 0x0FF0_0090 != 0x0160_0080
            &&& instr & 0x0FF0_00B0 != 0x0120_0080
            &&& instr & 0x0FF0_00B0 != 0x0120_00A0
            &&& instr & 0x0FF0_FFF0 != 0x0180_FC90
            &&& instr & 0x0FF0_0FF0 != 0x0180_0E90
            &&& instr & 0x0FF0_0FFF != 0x0190_0C9F
            &&& instr & 0x0FF0_0FFF != 0x0190_0E9F
            &&& instr & 0x0FF0_0FF0 != 0x01A0_0E90
            &&& instr & 0x0FF0_0FFF != 0x01B0_0E9F
            &&& instr & 0x0FF0_FFF0 != 0x01C0_FC90
            &&& instr & 0x0FF0_0FF0 != 0x01C0_0E90
            &&& instr & 0x0FF0_0FFF != 0x01D0_0C9F
            &&& instr & 0x0FF0_0FFF != 0x01D0_0E9F
            &&& instr & 0x0FF0_FFF0 == 0x01E0_FC90
            &&& instr & 0x0FF0_0FF0 != 0x01E0_0E90
            &&& instr & 0x0FF0_0FFF != 0x01F0_0C9F
            &&& instr & 0x0FF0_0FFF != 0x01F0_0E9F
            &&& ((instr >> 25) & 0x7 == 0)
            &&& ((instr >> 20) & 0x1F == 30)
            &&& ((instr >> 4) & 1 == 1)
            &&& ((instr >> 7) & 1 == 1)
            &&& ((instr >> 4) & 0xF == 9)
            &&& ((instr >> 24) & 1 == 1)
            &&& ((instr >> 20) & 0xF == 14)
        }
        &&& (instr & 0x0FF0_0FF0 == 0x01E0_0E90) ==> {
            &&& (instr >> 28) & 0xF != 0xF
            &&& instr & 0x0FFF_FFF0 != 0x0320_F000
            &&& instr & 0x0F90_0FF0 != 0x0100_0040
            &&& instr & 0x0F90_0FF0 != 0x0100_0240
            &&& instr & 0x0FF0_0090 != 0x0140_0080
            &&& instr & 0x0FF0_0090 != 0x0100_0080
            &&& instr & 0x0FF0_0090 != 0x0160_0080
            &&& instr & 0x0FF0_00B0 != 0x0120_0080
            &&& instr & 0x0FF0_00B0 != 0x0120_00A0
            &&& instr & 0x0FF0_FFF0 != 0x0180_FC90
            &&& instr & 0x0FF0_0FF0 != 0x0180_0E90
            &&& instr & 0x0FF0_0FFF != 0x0190_0C9F
            &&& instr & 0x0FF0_0FFF != 0x0190_0E9F
            &&& instr & 0x0FF0_0FF0 != 0x01A0_0E90
            &&& instr & 0x0FF0_0FFF != 0x01B0_0E9F
            &&& instr & 0x0FF0_FFF0 != 0x01C0_FC90
            &&& instr & 0x0FF0_0FF0 != 0x01C0_0E90
            &&& instr & 0x0FF0_0FFF != 0x01D0_0C9F
            &&& instr & 0x0FF0_0FFF != 0x01D0_0E9F
            &&& instr & 0x0FF0_FFF0 != 0x01E0_FC90
            &&& instr & 0x0FF0_0FF0 == 0x01E0_0E90
            &&& instr & 0x0FF0_0FFF != 0x01F0_0C9F
            &&& instr & 0x0FF0_0FFF != 0x01F0_0E9F
            &&& ((instr >> 25) & 0x7 == 0)
            &&& ((instr >> 20) & 0x1F == 30)
            &&& ((instr >> 4) & 1 == 1)
            &&& ((instr >> 7) & 1 == 1)
            &&& ((instr >> 4) & 0xF == 9)
            &&& ((instr >> 24) & 1 == 1)
            &&& ((instr >> 20) & 0xF == 14)
        }
        &&& (instr & 0x0FF0_0FF0 == 0x01E0_0F90) ==> {
            &&& (instr >> 28) & 0xF != 0xF
            &&& instr & 0x0FFF_FFF0 != 0x0320_F000
            &&& instr & 0x0F90_0FF0 != 0x0100_0040
            &&& instr & 0x0F90_0FF0 != 0x0100_0240
            &&& instr & 0x0FF0_0090 != 0x0140_0080
            &&& instr & 0x0FF0_0090 != 0x0100_0080
            &&& instr & 0x0FF0_0090 != 0x0160_0080
            &&& instr & 0x0FF0_00B0 != 0x0120_0080
            &&& instr & 0x0FF0_00B0 != 0x0120_00A0
            &&& instr & 0x0FF0_FFF0 != 0x0180_FC90
            &&& instr & 0x0FF0_0FF0 != 0x0180_0E90
            &&& instr & 0x0FF0_0FFF != 0x0190_0C9F
            &&& instr & 0x0FF0_0FFF != 0x0190_0E9F
            &&& instr & 0x0FF0_0FF0 != 0x01A0_0E90
            &&& instr & 0x0FF0_0FFF != 0x01B0_0E9F
            &&& instr & 0x0FF0_FFF0 != 0x01C0_FC90
            &&& instr & 0x0FF0_0FF0 != 0x01C0_0E90
            &&& instr & 0x0FF0_0FFF != 0x01D0_0C9F
            &&& instr & 0x0FF0_0FFF != 0x01D0_0E9F
            &&& instr & 0x0FF0_FFF0 != 0x01E0_FC90
            &&& instr & 0x0FF0_0FF0 != 0x01E0_0E90
            &&& instr & 0x0FF0_0FFF != 0x01F0_0C9F
            &&& instr & 0x0FF0_0FFF != 0x01F0_0E9F
            &&& ((instr >> 25) & 0x7 == 0)
            &&& ((instr >> 20) & 0x1F == 30)
            &&& ((instr >> 4) & 1 == 1)
            &&& ((instr >> 7) & 1 == 1)
            &&& ((instr >> 4) & 0xF == 9)
            &&& ((instr >> 24) & 1 == 1)
            &&& ((instr >> 20) & 0xF == 14)
        }
        &&& (instr & 0x0FF0_0FFF == 0x01F0_0C9F) ==> {
            &&& (instr >> 28) & 0xF != 0xF
            &&& instr & 0x0FFF_FFF0 != 0x0320_F000
            &&& instr & 0x0F90_0FF0 != 0x0100_0040
            &&& instr & 0x0F90_0FF0 != 0x0100_0240
            &&& instr & 0x0FF0_0090 != 0x0140_0080
            &&& instr & 0x0FF0_0090 != 0x0100_0080
            &&& instr & 0x0FF0_0090 != 0x0160_0080
            &&& instr & 0x0FF0_00B0 != 0x0120_0080
            &&& instr & 0x0FF0_00B0 != 0x0120_00A0
            &&& instr & 0x0FF0_FFF0 != 0x0180_FC90
            &&& instr & 0x0FF0_0FF0 != 0x0180_0E90
            &&& instr & 0x0FF0_0FFF != 0x0190_0C9F
            &&& instr & 0x0FF0_0FFF != 0x0190_0E9F
            &&& instr & 0x0FF0_0FF0 != 0x01A0_0E90
            &&& instr & 0x0FF0_0FFF != 0x01B0_0E9F
            &&& instr & 0x0FF0_FFF0 != 0x01C0_FC90
            &&& instr & 0x0FF0_0FF0 != 0x01C0_0E90
            &&& instr & 0x0FF0_0FFF != 0x01D0_0C9F
            &&& instr & 0x0FF0_0FFF != 0x01D0_0E9F
            &&& instr & 0x0FF0_FFF0 != 0x01E0_FC90
            &&& instr & 0x0FF0_0FF0 != 0x01E0_0E90
            &&& instr & 0x0FF0_0FFF == 0x01F0_0C9F
            &&& instr & 0x0FF0_0FFF != 0x01F0_0E9F
            &&& ((instr >> 25) & 0x7 == 0)
            &&& ((instr >> 20) & 0x1F == 31)
            &&& ((instr >> 4) & 1 == 1)
            &&& ((instr >> 7) & 1 == 1)
            &&& ((instr >> 4) & 0xF == 9)
            &&& ((instr >> 24) & 1 == 1)
            &&& ((instr >> 20) & 0xF == 15)
        }
        &&& (instr & 0x0FF0_0FFF == 0x01F0_0E9F) ==> {
            &&& (instr >> 28) & 0xF != 0xF
            &&& instr & 0x0FFF_FFF0 != 0x0320_F000
            &&& instr & 0x0F90_0FF0 != 0x0100_0040
            &&& instr & 0x0F90_0FF0 != 0x0100_0240
            &&& instr & 0x0FF0_0090 != 0x0140_0080
            &&& instr & 0x0FF0_0090 != 0x0100_0080
            &&& instr & 0x0FF0_0090 != 0x0160_0080
            &&& instr & 0x0FF0_00B0 != 0x0120_0080
            &&& instr & 0x0FF0_00B0 != 0x0120_00A0
            &&& instr & 0x0FF0_FFF0 != 0x0180_FC90
            &&& instr & 0x0FF0_0FF0 != 0x0180_0E90
            &&& instr & 0x0FF0_0FFF != 0x0190_0C9F
            &&& instr & 0x0FF0_0FFF != 0x0190_0E9F
            &&& instr & 0x0FF0_0FF0 != 0x01A0_0E90
            &&& instr & 0x0FF0_0FFF != 0x01B0_0E9F
            &&& instr & 0x0FF0_FFF0 != 0x01C0_FC90
            &&& instr & 0x0FF0_0FF0 != 0x01C0_0E90
            &&& instr & 0x0FF0_0FFF != 0x01D0_0C9F
            &&& instr & 0x0FF0_0FFF != 0x01D0_0E9F
            &&& instr & 0x0FF0_FFF0 != 0x01E0_FC90
            &&& instr & 0x0FF0_0FF0 != 0x01E0_0E90
            &&& instr & 0x0FF0_0FFF != 0x01F0_0C9F
            &&& instr & 0x0FF0_0FFF == 0x01F0_0E9F
            &&& ((instr >> 25) & 0x7 == 0)
            &&& ((instr >> 20) & 0x1F == 31)
            &&& ((instr >> 4) & 1 == 1)
            &&& ((instr >> 7) & 1 == 1)
            &&& ((instr >> 4) & 0xF == 9)
            &&& ((instr >> 24) & 1 == 1)
            &&& ((instr >> 20) & 0xF == 15)
        }
        &&& (instr & 0x0FF0_0FFF == 0x01F0_0F9F) ==> {
            &&& (instr >> 28) & 0xF != 0xF
            &&& instr & 0x0FFF_FFF0 != 0x0320_F000
            &&& instr & 0x0F90_0FF0 != 0x0100_0040
            &&& instr & 0x0F90_0FF0 != 0x0100_0240
            &&& instr & 0x0FF0_0090 != 0x0140_0080
            &&& instr & 0x0FF0_0090 != 0x0100_0080
            &&& instr & 0x0FF0_0090 != 0x0160_0080
            &&& instr & 0x0FF0_00B0 != 0x0120_0080
            &&& instr & 0x0FF0_00B0 != 0x0120_00A0
            &&& instr & 0x0FF0_FFF0 != 0x0180_FC90
            &&& instr & 0x0FF0_0FF0 != 0x0180_0E90
            &&& instr & 0x0FF0_0FFF != 0x0190_0C9F
            &&& instr & 0x0FF0_0FFF != 0x0190_0E9F
            &&& instr & 0x0FF0_0FF0 != 0x01A0_0E90
            &&& instr & 0x0FF0_0FFF != 0x01B0_0E9F
            &&& instr & 0x0FF0_FFF0 != 0x01C0_FC90
            &&& instr & 0x0FF0_0FF0 != 0x01C0_0E90
            &&& instr & 0x0FF0_0FFF != 0x01D0_0C9F
            &&& instr & 0x0FF0_0FFF != 0x01D0_0E9F
            &&& instr & 0x0FF0_FFF0 != 0x01E0_FC90
            &&& instr & 0x0FF0_0FF0 != 0x01E0_0E90
            &&& instr & 0x0FF0_0FFF != 0x01F0_0C9F
            &&& instr & 0x0FF0_0FFF != 0x01F0_0E9F
            &&& ((instr >> 25) & 0x7 == 0)
            &&& ((instr >> 20) & 0x1F == 31)
            &&& ((instr >> 4) & 1 == 1)
            &&& ((instr >> 7) & 1 == 1)
            &&& ((instr >> 4) & 0xF == 9)
            &&& ((instr >> 24) & 1 == 1)
            &&& ((instr >> 20) & 0xF == 15)
        }
        &&& (instr & 0x0FF0_0FF0 == 0x01A0_0E90) ==> {
            &&& (instr >> 28) & 0xF != 0xF
            &&& instr & 0x0FFF_FFF0 != 0x0320_F000
            &&& instr & 0x0F90_0FF0 != 0x0100_0040
            &&& instr & 0x0F90_0FF0 != 0x0100_0240
            &&& instr & 0x0FF0_0090 != 0x0140_0080
            &&& instr & 0x0FF0_0090 != 0x0100_0080
            &&& instr & 0x0FF0_0090 != 0x0160_0080
            &&& instr & 0x0FF0_00B0 != 0x0120_0080
            &&& instr & 0x0FF0_00B0 != 0x0120_00A0
            &&& instr & 0x0FF0_FFF0 != 0x0180_FC90
            &&& instr & 0x0FF0_0FF0 != 0x0180_0E90
            &&& instr & 0x0FF0_0FFF != 0x0190_0C9F
            &&& instr & 0x0FF0_0FFF != 0x0190_0E9F
            &&& instr & 0x0FF0_0FF0 == 0x01A0_0E90
            &&& instr & 0x0FF0_0FFF != 0x01B0_0E9F
            &&& instr & 0x0FF0_FFF0 != 0x01C0_FC90
            &&& instr & 0x0FF0_0FF0 != 0x01C0_0E90
            &&& instr & 0x0FF0_0FFF != 0x01D0_0C9F
            &&& instr & 0x0FF0_0FFF != 0x01D0_0E9F
            &&& instr & 0x0FF0_FFF0 != 0x01E0_FC90
            &&& instr & 0x0FF0_0FF0 != 0x01E0_0E90
            &&& instr & 0x0FF0_0FFF != 0x01F0_0C9F
            &&& instr & 0x0FF0_0FFF != 0x01F0_0E9F
            &&& ((instr >> 25) & 0x7 == 0)
            &&& ((instr >> 20) & 0x1F == 26)
            &&& ((instr >> 4) & 1 == 1)
            &&& ((instr >> 7) & 1 == 1)
            &&& ((instr >> 4) & 0xF == 9)
            &&& ((instr >> 24) & 1 == 1)
            &&& ((instr >> 20) & 0xF == 10)
        }
        &&& (instr & 0x0FF0_0FF0 == 0x01A0_0F90) ==> {
            &&& (instr >> 28) & 0xF != 0xF
            &&& instr & 0x0FFF_FFF0 != 0x0320_F000
            &&& instr & 0x0F90_0FF0 != 0x0100_0040
            &&& instr & 0x0F90_0FF0 != 0x0100_0240
            &&& instr & 0x0FF0_0090 != 0x0140_0080
            &&& instr & 0x0FF0_0090 != 0x0100_0080
            &&& instr & 0x0FF0_0090 != 0x0160_0080
            &&& instr & 0x0FF0_00B0 != 0x0120_0080
            &&& instr & 0x0FF0_00B0 != 0x0120_00A0
            &&& instr & 0x0FF0_FFF0 != 0x0180_FC90
            &&& instr & 0x0FF0_0FF0 != 0x0180_0E90
            &&& instr & 0x0FF0_0FFF != 0x0190_0C9F
            &&& instr & 0x0FF0_0FFF != 0x0190_0E9F
            &&& instr & 0x0FF0_0FF0 != 0x01A0_0E90
            &&& instr & 0x0FF0_0FFF != 0x01B0_0E9F
            &&& instr & 0x0FF0_FFF0 != 0x01C0_FC90
            &&& instr & 0x0FF0_0FF0 != 0x01C0_0E90
            &&& instr & 0x0FF0_0FFF != 0x01D0_0C9F
            &&& instr & 0x0FF0_0FFF != 0x01D0_0E9F
            &&& instr & 0x0FF0_FFF0 != 0x01E0_FC90
            &&& instr & 0x0FF0_0FF0 != 0x01E0_0E90
            &&& instr & 0x0FF0_0FFF != 0x01F0_0C9F
            &&& instr & 0x0FF0_0FFF != 0x01F0_0E9F
            &&& ((instr >> 25) & 0x7 == 0)
            &&& ((instr >> 20) & 0x1F == 26)
            &&& ((instr >> 4) & 1 == 1)
            &&& ((instr >> 7) & 1 == 1)
            &&& ((instr >> 4) & 0xF == 9)
            &&& ((instr >> 24) & 1 == 1)
            &&& ((instr >> 20) & 0xF == 10)
        }
        &&& (instr & 0x0FF0_0FFF == 0x01B0_0E9F) ==> {
            &&& (instr >> 28) & 0xF != 0xF
            &&& instr & 0x0FFF_FFF0 != 0x0320_F000
            &&& instr & 0x0F90_0FF0 != 0x0100_0040
            &&& instr & 0x0F90_0FF0 != 0x0100_0240
            &&& instr & 0x0FF0_0090 != 0x0140_0080
            &&& instr & 0x0FF0_0090 != 0x0100_0080
            &&& instr & 0x0FF0_0090 != 0x0160_0080
            &&& instr & 0x0FF0_00B0 != 0x0120_0080
            &&& instr & 0x0FF0_00B0 != 0x0120_00A0
            &&& instr & 0x0FF0_FFF0 != 0x0180_FC90
            &&& instr & 0x0FF0_0FF0 != 0x0180_0E90
            &&& instr & 0x0FF0_0FFF != 0x0190_0C9F
            &&& instr & 0x0FF0_0FFF != 0x0190_0E9F
            &&& instr & 0x0FF0_0FF0 != 0x01A0_0E90
            &&& instr & 0x0FF0_0FFF == 0x01B0_0E9F
            &&& instr & 0x0FF0_FFF0 != 0x01C0_FC90
            &&& instr & 0x0FF0_0FF0 != 0x01C0_0E90
            &&& instr & 0x0FF0_0FFF != 0x01D0_0C9F
            &&& instr & 0x0FF0_0FFF != 0x01D0_0E9F
            &&& instr & 0x0FF0_FFF0 != 0x01E0_FC90
            &&& instr & 0x0FF0_0FF0 != 0x01E0_0E90
            &&& instr & 0x0FF0_0FFF != 0x01F0_0C9F
            &&& instr & 0x0FF0_0FFF != 0x01F0_0E9F
            &&& ((instr >> 25) & 0x7 == 0)
            &&& ((instr >> 20) & 0x1F == 27)
            &&& ((instr >> 4) & 1 == 1)
            &&& ((instr >> 7) & 1 == 1)
            &&& ((instr >> 4) & 0xF == 9)
            &&& ((instr >> 24) & 1 == 1)
            &&& ((instr >> 20) & 0xF == 11)
        }
        &&& (instr & 0x0FF0_0FFF == 0x01B0_0F9F) ==> {
            &&& (instr >> 28) & 0xF != 0xF
            &&& instr & 0x0FFF_FFF0 != 0x0320_F000
            &&& instr & 0x0F90_0FF0 != 0x0100_0040
            &&& instr & 0x0F90_0FF0 != 0x0100_0240
            &&& instr & 0x0FF0_0090 != 0x0140_0080
            &&& instr & 0x0FF0_0090 != 0x0100_0080
            &&& instr & 0x0FF0_0090 != 0x0160_0080
            &&& instr & 0x0FF0_00B0 != 0x0120_0080
            &&& instr & 0x0FF0_00B0 != 0x0120_00A0
            &&& instr & 0x0FF0_FFF0 != 0x0180_FC90
            &&& instr & 0x0FF0_0FF0 != 0x0180_0E90
            &&& instr & 0x0FF0_0FFF != 0x0190_0C9F
            &&& instr & 0x0FF0_0FFF != 0x0190_0E9F
            &&& instr & 0x0FF0_0FF0 != 0x01A0_0E90
            &&& instr & 0x0FF0_0FFF != 0x01B0_0E9F
            &&& instr & 0x0FF0_FFF0 != 0x01C0_FC90
            &&& instr & 0x0FF0_0FF0 != 0x01C0_0E90
            &&& instr & 0x0FF0_0FFF != 0x01D0_0C9F
            &&& instr & 0x0FF0_0FFF != 0x01D0_0E9F
            &&& instr & 0x0FF0_FFF0 != 0x01E0_FC90
            &&& instr & 0x0FF0_0FF0 != 0x01E0_0E90
            &&& instr & 0x0FF0_0FFF != 0x01F0_0C9F
            &&& instr & 0x0FF0_0FFF != 0x01F0_0E9F
            &&& ((instr >> 25) & 0x7 == 0)
            &&& ((instr >> 20) & 0x1F == 27)
            &&& ((instr >> 4) & 1 == 1)
            &&& ((instr >> 7) & 1 == 1)
            &&& ((instr >> 4) & 0xF == 9)
            &&& ((instr >> 24) & 1 == 1)
            &&& ((instr >> 20) & 0xF == 11)
        }
    }) by (bit_vector)
        requires
            instr >> 28 != 0xF,
    ;
}

/// The bits of data processing with an immediate, of loads and stores of one
/// and of several registers, of branches and of hints.
#[verifier::rlimit(50)]
pub proof fn immediate_and_transfer_bits(instr: u32)
    requires
        instr >> 28 != 0xF,
    ensures
        instr & 0x0FE0_0000 == 0x0200_0000 ==> arm_encoding(instr)
            == ArmInstId::AND_imm,
        instr & 0x0FE0_0000 == 0x0220_0000 ==> arm_encoding(instr)
            == ArmInstId::EOR_imm,
        instr & 0x0FE0_0000 == 0x0240_0000 ==> arm_encoding(instr)
            == ArmInstId::SUB_imm,
        instr & 0x0FE0_0000 == 0x0260_0000 ==> arm_encoding(instr)
            == ArmInstId::RSB_imm,
        instr & 0x0FE0_0000 == 0x0280_0000 ==> arm_encoding(instr)
            == ArmInstId::ADD_imm,
        instr & 0x0FE0_0000 == 0x02A0_0000 ==> arm_encoding(instr)
            == ArmInstId::ADC_imm,
        instr & 0x0FE0_0000 == 0x02C0_0000 ==> arm_encoding(instr)
            == ArmInstId::SBC_imm,
        instr & 0x0FE0_0000 == 0x02E0_0000 ==> arm_encoding(instr)
            == ArmInstId::RSC_imm,
        instr & 0x0FF0_0000 == 0x0310_0000 ==> arm_encoding(instr)
            == ArmInstId::TST_imm,
        instr & 0x0FF0_0000 == 0x0330_0000 ==> arm_encoding(instr)
            == ArmInstId::TEQ_imm,
        instr & 0x0FF0_0000 == 0x0350_0000 ==> arm_encoding(instr)
            == ArmInstId::CMP_imm,
        instr & 0x0FF0_0000 == 0x0370_0000 ==> arm_encoding(instr)
            == ArmInstId::CMN_imm,
        instr & 0x0FE0_0000 == 0x0380_0000 ==> arm_encoding(instr)
            == ArmInstId::ORR_imm,
        instr & 0x0FE0_0000 == 0x03A0_0000 ==> arm_encoding(instr)
            == ArmInstId::MOV_imm,
        instr & 0x0FE0_0000 == 0x03C0_0000 ==> arm_encoding(instr)
            == ArmInstId::BIC_imm,
        instr & 0x0FE0_0000 == 0x03E0_0000 ==> arm_encoding(instr)
            == ArmInstId::MVN_imm,
        instr & 0x0FF0_0000 == 0x0300_0000 ==> arm_encoding(instr)
            == ArmInstId::MOVW,
        instr & 0x0FF0_0000 == 0x0340_0000 ==> arm_encoding(instr)
            == ArmInstId::MOVT,
        instr & 0x0FF0_0000 == 0x0320_0000 && instr & 0x0FFF_FFF0 != 0x0320_F000
            ==> arm_encoding(instr)
            == ArmInstId::MSR_imm,
        instr & 0x0FF0_0000 == 0x0360_0000 ==> arm_encoding(instr)
            == ArmInstId::MSR_imm,
        instr & 0x0E50_0000 == 0x0400_0000 ==> arm_encoding(instr)
            == ArmInstId::STR_imm,
        instr & 0x0E50_0000 == 0x0440_0000 ==> arm_encoding(instr)
            == ArmInstId::STRB_imm,
        instr & 0x0E5F_0000 == 0x041F_0000 ==> arm_encoding(instr)
            == ArmInstId::LDR_lit,
        instr & 0x0E5F_0000 == 0x045F_0000 ==> arm_encoding(instr)
            == ArmInstId::LDRB_lit,
        instr & 0x0E50_0000 == 0x0410_0000 && instr & 0x000F_0000 != 0x000F_0000
            ==> arm_encoding(instr)
            == ArmInstId::LDR_imm,
        instr & 0x0E50_0000 == 0x0450_0000 && instr & 0x000F_0000 != 0x000F_0000
            ==> arm_encoding(instr)
            == ArmInstId::LDRB_imm,
        instr & 0x0E50_0010 == 0x0600_0000 ==> arm_encoding(instr)
            == ArmInstId::STR_reg,
        instr & 0x0E50_0010 == 0x0640_0000 ==> arm_encoding(instr)
            == ArmInstId::STRB_reg,
        instr & 0x0E50_0010 == 0x0610_0000 ==> arm_encoding(instr)
            == ArmInstId::LDR_reg,
        instr & 0x0E50_0010 == 0x0650_0000 ==> arm_encoding(instr)
            == ArmInstId::LDRB_reg,
        instr & 0x0F90_0000 == 0x0800_0000 ==> arm_encoding(instr)
            == ArmInstId::STMDA,
        instr & 0x0F90_0000 == 0x0880_0000 ==> arm_encoding(instr)
            == ArmInstId::STM,
        instr & 0x0F90_0000 == 0x0900_0000 ==> arm_encoding(instr)
            == ArmInstId::STMDB,
        instr & 0x0F90_0000 == 0x0980_0000 ==> arm_encoding(instr)
            == ArmInstId::STMIB,
        instr & 0x0F90_0000 == 0x0810_0000 ==> arm_encoding(instr)
            == ArmInstId::LDMDA,
        instr & 0x0F90_0000 == 0x0890_0000 ==> arm_encoding(instr)
            == ArmInstId::LDM,
        instr & 0x0F90_0000 == 0x0910_0000 ==> arm_encoding(instr)
            == ArmInstId::LDMDB,
        instr & 0x0F90_0000 == 0x0990_0000 ==> arm_encoding(instr)
            == ArmInstId::LDMIB,
        instr & 0x0F00_0000 == 0x0A00_0000 ==> arm_encoding(instr)
            == ArmInstId::B,
        instr & 0x0F00_0000 == 0x0B00_0000 ==> arm_encoding(instr)
            == ArmInstId::BL,
        instr & 0x0F00_0000 == 0x0F00_0000 ==> arm_encoding(instr)
            == ArmInstId::SVC,
        instr & 0x0FFF_FFFF == 0x0320_F001 ==> arm_encoding(instr)
            == ArmInstId::YIELD,
        instr & 0x0FFF_FFFF == 0x0320_F002 ==> arm_encoding(instr)
            == ArmInstId::WFE,
        instr & 0x0FFF_FFFF == 0x0320_F003 ==> arm_encoding(instr)
            == ArmInstId::WFI,
        instr & 0x0FFF_FFFF == 0x0320_F004 ==> arm_encoding(instr)
            == ArmInstId::SEV,
        instr & 0x0FFF_FFFF == 0x0320_F005 ==> arm_encoding(instr)
            == ArmInstId::SEVL,
        instr & 0x0FFF_FFFF == 0x0320_F000 ==> arm_encoding(instr)
            == ArmInstId::NOP,
        instr & 0x0F90_0FF0 == 0x0100_0040 ==> arm_encoding(instr)
            == ArmInstId::CRC32,
        instr & 0x0F90_0FF0 == 0x0100_0240 ==> arm_encoding(instr)
            == ArmInstId::CRC32C,
{
    assert({
        &&& (instr & 0x0FE0_0000 == 0x0200_0000) ==> {
            &&& (instr >> 28) & 0xF != 0xF
            &&& instr & 0x0FFF_FFF0 != 0x0320_F000
            &&& instr & 0x0F90_0FF0 != 0x0100_0040
            &&& instr & 0x0F90_0FF0 != 0x0100_0240
            &&& ((instr >> 25) & 0x7 == 1)
            &&& ((instr >> 20) & 0x1F == 0 || (instr >> 20) & 0x1F == 1)
            &&& ((instr >> 22) & 1 == 0)
            &&& ((instr >> 23) & 3 == 0)
            &&& instr & 0x100_0000 == 0
        }
        &&& (instr & 0x0FE0_0000 == 0x0220_0000) ==> {
            &&& (instr >> 28) & 0xF != 0xF
            &&& instr & 0x0FFF_FFF0 != 0x0320_F000
            &&& instr & 0x0F90_0FF0 != 0x0100_0040
            &&& instr & 0x0F90_0FF0 != 0x0100_0240
            &&& ((instr >> 25) & 0x7 == 1)
            &&& ((instr >> 20) & 0x1F == 2 || (instr >> 20) & 0x1F == 3)
            &&& ((instr >> 22) & 1 == 0)
            &&& ((instr >> 23) & 3 == 0)
            &&& instr & 0x100_0000 == 0
        }
        &&& (instr & 0x0FE0_0000 == 0x0240_0000) ==> {
            &&& (instr >> 28) & 0xF != 0xF
            &&& instr & 0x0FFF_FFF0 != 0x0320_F000
            &&& instr & 0x0F90_0FF0 != 0x0100_0040
            &&& instr & 0x0F90_0FF0 != 0x0100_0240
            &&& ((instr >> 25) & 0x7 == 1)
            &&& ((instr >> 20) & 0x1F == 4 || (instr >> 20) & 0x1F == 5)
            &&& ((instr >> 22) & 1 == 1)
            &&& ((instr >> 23) & 3 == 0)
            &&& instr & 0x100_0000 == 0
        }
        &&& (instr & 0x0FE0_0000 == 0x0260_0000) ==> {
            &&& (instr >> 28) & 0xF != 0xF
            &&& instr & 0x0FFF_FFF0 != 0x0320_F000
            &&& instr & 0x0F90_0FF0 != 0x0100_0040
            &&& instr & 0x0F90_0FF0 != 0x0100_0240
            &&& ((instr >> 25) & 0x7 == 1)
            &&& ((instr >> 20) & 0x1F == 6 || (instr >> 20) & 0x1F == 7)
            &&& ((instr >> 22) & 1 == 1)
            &&& ((instr >> 23) & 3 == 0)
            &&& instr & 0x100_0000 == 0
        }
        &&& (instr & 0x0FE0_0000 == 0x0280_0000) ==> {
            &&& (instr >> 28) & 0xF != 0xF
            &&& instr & 0x0FFF_FFF0 != 0x0320_F000
            &&& instr & 0x0F90_0FF0 != 0x0100_0040
            &&& instr & 0x0F90_0FF0 != 0x0100_0240
            &&& ((instr >> 25) & 0x7 == 1)
            &&& ((instr >> 20) & 0x1F == 8 || (instr >> 20) & 0x1F == 9)
            &&& ((instr >> 22) & 1 == 0)
            &&& ((instr >> 23) & 3 == 1)
            &&& instr & 0x100_0000 == 0
        }
        &&& (instr & 0x0FE0_0000 == 0x02A0_0000) ==> {
            &&& (instr >> 28) & 0xF != 0xF
            &&& instr & 0x0FFF_FFF0 != 0x0320_F000
            &&& instr & 0x0F90_0FF0 != 0x0100_0040
            &&& instr & 0x0F90_0FF0 != 0x0100_0240
            &&& ((instr >> 25) & 0x7 == 1)
            &&& ((instr >> 20) & 0x1F == 10 || (instr >> 20) & 0x1F == 11)
            &&& ((instr >> 22) & 1 == 0)
            &&& ((instr >> 23) & 3 == 1)
            &&& instr & 0x100_0000 == 0
        }
        &&& (instr & 0x0FE0_0000 == 0x02C0_0000) ==> {
            &&& (instr >> 28) & 0xF != 0xF
            &&& instr & 0x0FFF_FFF0 != 0x0320_F000
            &&& instr & 0x0F90_0FF0 != 0x0100_0040
            &&& instr & 0x0F90_0FF0 != 0x0100_0240
            &&& ((instr >> 25) & 0x7 == 1)
            &&& ((instr >> 20) & 0x1F == 12 || (instr >> 20) & 0x1F == 13)
            &&& ((instr >> 22) & 1 == 1)
            &&& ((instr >> 23) & 3 == 1)
            &&& instr & 0x100_0000 == 0
        }
        &&& (instr & 0x0FE0_0000 == 0x02E0_0000) ==> {
            &&& (instr >> 28) & 0xF != 0xF
            &&& instr & 0x0FFF_FFF0 != 0x0320_F000
            &&& instr & 0x0F90_0FF0 != 0x0100_0040
            &&& instr & 0x0F90_0FF0 != 0x0100_0240
            &&& ((instr >> 25) & 0x7 == 1)
            &&& ((instr >> 20) & 0x1F == 14 || (instr >> 20) & 0x1F == 15)
            &&& ((instr >> 22) & 1 == 1)
            &&& ((instr >> 23) & 3 == 1)
            &&& instr & 0x100_0000 == 0
        }
        &&& (instr & 0x0FF0_0000 == 0x0310_0000) ==> {
            &&& (instr >> 28) & 0xF != 0xF
            &&& instr & 0x0FFF_FFF0 != 0x0320_F000
            &&& instr & 0x0F90_0FF0 != 0x0100_0040
            &&& instr & 0x0F90_0FF0 != 0x0100_0240
            &&& ((instr >> 25) & 0x7 == 1)
            &&& ((instr >> 20) & 0x1F == 17)
            &&& ((instr >> 22) & 1 == 0)
            &&& ((instr >> 20) & 1 == 1)
            &&& ((instr >> 23) & 3 == 2)
            &&& instr & 0x100_0000 != 0
            &&& instr & 0x10_0000 != 0
        }
        &&& (instr & 0x0FF0_0000 == 0x0330_0000) ==> {
            &&& (instr >> 28) & 0xF != 0xF
            &&& instr & 0x0FFF_FFF0 != 0x0320_F000
            &&& instr & 0x0F90_0FF0 != 0x0100_0040
            &&& instr & 0x0F90_0FF0 != 0x0100_0240
            &&& ((instr >> 25) & 0x7 == 1)
            &&& ((instr >> 20) & 0x1F == 19)
            &&& ((instr >> 22) & 1 == 0)
            &&& ((instr >> 20) & 1 == 1)
            &&& ((instr >> 23) & 3 == 2)
            &&& instr & 0x100_0000 != 0
            &&& instr & 0x10_0000 != 0
        }
        &&& (instr & 0x0FF0_0000 == 0x0350_0000) ==> {
            &&& (instr >> 28) & 0xF != 0xF
            &&& instr & 0x0FFF_FFF0 != 0x0320_F000
            &&& instr & 0x0F90_0FF0 != 0x0100_0040
            &&& instr & 0x0F90_0FF0 != 0x0100_0240
            &&& ((instr >> 25) & 0x7 == 1)
            &&& ((instr >> 20) & 0x1F == 21)
            &&& ((instr >> 22) & 1 == 1)
            &&& ((instr >> 20) & 1 == 1)
            &&& ((instr >> 23) & 3 == 2)
            &&& instr & 0x100_0000 != 0
            &&& instr & 0x10_0000 != 0
        }
        &&& (instr & 0x0FF0_0000 == 0x0370_0000) ==> {
            &&& (instr >> 28) & 0xF != 0xF
            &&& instr & 0x0FFF_FFF0 != 0x0320_F000
            &&& instr & 0x0F90_0FF0 != 0x0100_0040
            &&& instr & 0x0F90_0FF0 != 0x0100_0240
            &&& ((instr >> 25) & 0x7 == 1)
            &&& ((instr >> 20) & 0x1F == 23)
            &&& ((instr >> 22) & 1 == 1)
            &&& ((instr >> 20) & 1 == 1)
            &&& ((instr >> 23) & 3 == 2)
            &&& instr & 0x100_0000 != 0
            &&& instr & 0x10_0000 != 0
        }
        &&& (instr & 0x0FE0_0000 == 0x0380_0000) ==> {
            &&& (instr >> 28) & 0xF != 0xF
            &&& instr & 0x0FFF_FFF0 != 0x0320_F000
            &&& instr & 0x0F90_0FF0 != 0x0100_0040
            &&& instr & 0x0F90_0FF0 != 0x0100_0240
            &&& ((instr >> 25) & 0x7 == 1)
            &&& ((instr >> 20) & 0x1F == 24 || (instr >> 20) & 0x1F == 25)
            &&& ((instr >> 22) & 1 == 0)
            &&& ((instr >> 23) & 3 == 3)
            &&& instr & 0x100_0000 != 0
        }
        &&& (instr & 0x0FE0_0000 == 0x03A0_0000) ==> {
            &&& (instr >> 28) & 0xF != 0xF
            &&& instr & 0x0FFF_FFF0 != 0x0320_F000
            &&& instr & 0x0F90_0FF0 != 0x0100_0040
            &&& instr & 0x0F90_0FF0 != 0x0100_0240
            &&& ((instr >> 25) & 0x7 == 1)
            &&& ((instr >> 20) & 0x1F == 26 || (instr >> 20) & 0x1F == 27)
            &&& ((instr >> 22) & 1 == 0)
            &&& ((instr >> 23) & 3 == 3)
            &&& instr & 0x100_0000 != 0
        }
        &&& (instr & 0x0FE0_0000 == 0x03C0_0000) ==> {
            &&& (instr >> 28) & 0xF != 0xF
            &&& instr & 0x0FFF_FFF0 != 0x0320_F000
            &&& instr & 0x0F90_0FF0 != 0x0100_0040
            &&& instr & 0x0F90_0FF0 != 0x0100_0240
            &&& ((instr >> 25) & 0x7 == 1)
            &&& ((instr >> 20) & 0x1F == 28 || (instr >> 20) & 0x1F == 29)
            &&& ((instr >> 22) & 1 == 1)
            &&& ((instr >> 23) & 3 == 3)
            &&& instr & 0x100_0000 != 0
        }
        &&& (instr & 0x0FE0_0000 == 0x03E0_0000) ==> {
            &&& (instr >> 28) & 0xF != 0xF
            &&& instr & 0x0FFF_FFF0 != 0x0320_F000
            &&& instr & 0x0F90_0FF0 != 0x0100_0040
            &&& instr & 0x0F90_0FF0 != 0x0100_0240
            &&& ((instr >> 25) & 0x7 == 1)
            &&& ((instr >> 20) & 0x1F == 30 || (instr >> 20) & 0x1F == 31)
            &&& ((instr >> 22) & 1 == 1)
            &&& ((instr >> 23) & 3 == 3)
            &&& instr & 0x100_0000 != 0
        }
        &&& (instr & 0x0FF0_0000 == 0x0300_0000) ==> {
            &&& (instr >> 28) & 0xF != 0xF
            &&& instr & 0x0FFF_FFF0 != 0x0320_F000
            &&& instr & 0x0F90_0FF0 != 0x0100_0040
            &&& instr & 0x0F90_0FF0 != 0x0100_0240
            &&& ((instr >> 25) & 0x7 == 1)
            &&& ((instr >> 20) & 0x1F == 16)
            &&& ((instr >> 22) & 1 == 0)
            &&& ((instr >> 20) & 1 == 0)
            &&& ((instr >> 23) & 3 == 2)
            &&& instr & 0x100_0000 != 0
            &&& instr & 0x10_0000 == 0
        }
        &&& (instr & 0x0FF0_0000 == 0x0340_0000) ==> {
            &&& (instr >> 28) & 0xF != 0xF
            &&& instr & 0x0FFF_FFF0 != 0x0320_F000
            &&& instr & 0x0F90_0FF0 != 0x0100_0040
            &&& instr & 0x0F90_0FF0 != 0x0100_0240
            &&& ((instr >> 25) & 0x7 == 1)
            &&& ((instr >> 20) & 0x1F == 20)
            &&& ((instr >> 22) & 1 == 1)
            &&& ((instr >> 20) & 1 == 0)
            &&& ((instr >> 23) & 3 == 2)
            &&& instr & 0x100_0000 != 0
            &&& instr & 0x10_0000 == 0
        }
        &&& (instr & 0x0FF0_0000 == 0x0320_0000 && instr & 0x0FFF_FFF0 != 0x0320_F000) ==> {
            &&& (instr >> 28) & 0xF != 0xF
            &&& instr & 0x0F90_0FF0 != 0x0100_0040
            &&& instr & 0x0F90_0FF0 != 0x0100_0240
            &&& ((instr >> 25) & 0x7 == 1)
            &&& ((instr >> 20) & 0x1F == 18)
            &&& ((instr >> 22) & 1 == 0)
            &&& ((instr >> 20) & 1 == 0)
            &&& ((instr >> 23) & 3 == 2)
            &&& instr & 0x100_0000 != 0
            &&& instr & 0x10_0000 == 0
        }
        &&& (instr & 0x0FF0_0000 == 0x0360_0000) ==> {
            &&& (instr >> 28) & 0xF != 0xF
            &&& instr & 0x0FFF_FFF0 != 0x0320_F000
            &&& instr & 0x0F90_0FF0 != 0x0100_0040
            &&& instr & 0x0F90_0FF0 != 0x0100_0240
            &&& ((instr >> 25) & 0x7 == 1)
            &&& ((instr >> 20) & 0x1F == 22)
            &&& ((instr >> 22) & 1 == 1)
            &&& ((instr >> 20) & 1 == 0)
            &&& ((instr >> 23) & 3 == 2)
            &&& instr & 0x100_0000 != 0
            &&& instr & 0x10_0000 == 0
        }
        &&& (instr & 0x0E50_0000 == 0x0400_0000) ==> {
            &&& (instr >> 28) & 0xF != 0xF
            &&& instr & 0x0FFF_FFF0 != 0x0320_F000
            &&& instr & 0x0F90_0FF0 != 0x0100_0040
            &&& instr & 0x0F90_0FF0 != 0x0100_0240
            &&& ((instr >> 25) & 0x7 == 2)
            &&& ((instr >> 20) & 0x1F == 0 || (instr >> 20) & 0x1F == 2 || (instr >> 20) & 0x1F == 8
                || (instr >> 20) & 0x1F == 10 || (instr >> 20) & 0x1F == 16
                || (instr >> 20) & 0x1F == 18 || (instr >> 20) & 0x1F == 24
                || (instr >> 20) & 0x1F == 26)
            &&& ((instr >> 22) & 1 == 0)
            &&& ((instr >> 20) & 1 == 0)
            &&& instr & 0x10_0000 == 0
        }
        &&& (instr & 0x0E50_0000 == 0x0440_0000) ==> {
            &&& (instr >> 28) & 0xF != 0xF
            &&& instr & 0x0FFF_FFF0 != 0x0320_F000
            &&& instr & 0x0F90_0FF0 != 0x0100_0040
            &&& instr & 0x0F90_0FF0 != 0x0100_0240
            &&& ((instr >> 25) & 0x7 == 2)
            &&& ((instr >> 20) & 0x1F == 4 || (instr >> 20) & 0x1F == 6
                || (instr >> 20) & 0x1F == 12 || (instr >> 20) & 0x1F == 14
                || (instr >> 20) & 0x1F == 20 || (instr >> 20) & 0x1F == 22
                || (instr >> 20) & 0x1F == 28 || (instr >> 20) & 0x1F == 30)
            &&& ((instr >> 22) & 1 == 1)
            &&& ((instr >> 20) & 1 == 0)
            &&& instr & 0x10_0000 == 0
        }
        &&& (instr & 0x0E5F_0000 == 0x041F_0000) ==> {
            &&& (instr >> 28) & 0xF != 0xF
            &&& instr & 0x0FFF_FFF0 != 0x0320_F000
            &&& instr & 0x0F90_0FF0 != 0x0100_0040
            &&& instr & 0x0F90_0FF0 != 0x0100_0240
            &&& ((instr >> 25) & 0x7 == 2)
            &&& ((instr >> 20) & 0x1F == 1 || (instr >> 20) & 0x1F == 3 || (instr >> 20) & 0x1F == 9
                || (instr >> 20) & 0x1F == 11 || (instr >> 20) & 0x1F == 17
                || (instr >> 20) & 0x1F == 19 || (instr >> 20) & 0x1F == 25
                || (instr >> 20) & 0x1F == 27)
            &&& ((instr >> 22) & 1 == 0)
            &&& ((instr >> 20) & 1 == 1)
            &&& ((instr >> 16) & 0xF == 15)
            &&& instr & 0x10_0000 != 0
        }
        &&& (instr & 0x0E5F_0000 == 0x045F_0000) ==> {
            &&& (instr >> 28) & 0xF != 0xF
            &&& instr & 0x0FFF_FFF0 != 0x0320_F000
            &&& instr & 0x0F90_0FF0 != 0x0100_0040
            &&& instr & 0x0F90_0FF0 != 0x0100_0240
            &&& ((instr >> 25) & 0x7 == 2)
            &&& ((instr >> 20) & 0x1F == 5 || (instr >> 20) & 0x1F == 7
                || (instr >> 20) & 0x1F == 13 || (instr >> 20) & 0x1F == 15
                || (instr >> 20) & 0x1F == 21 || (instr >> 20) & 0x1F == 23
                || (instr >> 20) & 0x1F == 29 || (instr >> 20) & 0x1F == 31)
            &&& ((instr >> 22) & 1 == 1)
            &&& ((instr >> 20) & 1 == 1)
            &&& ((instr >> 16) & 0xF == 15)
            &&& instr & 0x10_0000 != 0
        }
        &&& (instr & 0x0E50_0000 == 0x0410_0000 && instr & 0x000F_0000 != 0x000F_0000) ==> {
            &&& (instr >> 16) & 0xF != 15
            &&& (instr >> 28) & 0xF != 0xF
            &&& instr & 0x0FFF_FFF0 != 0x0320_F000
            &&& instr & 0x0F90_0FF0 != 0x0100_0040
            &&& instr & 0x0F90_0FF0 != 0x0100_0240
            &&& ((instr >> 25) & 0x7 == 2)
            &&& ((instr >> 20) & 0x1F == 1 || (instr >> 20) & 0x1F == 3 || (instr >> 20) & 0x1F == 9
                || (instr >> 20) & 0x1F == 11 || (instr >> 20) & 0x1F == 17
                || (instr >> 20) & 0x1F == 19 || (instr >> 20) & 0x1F == 25
                || (instr >> 20) & 0x1F == 27)
            &&& ((instr >> 22) & 1 == 0)
            &&& ((instr >> 20) & 1 == 1)
            &&& instr & 0x10_0000 != 0
        }
        &&& (instr & 0x0E50_0000 == 0x0450_0000 && instr & 0x000F_0000 != 0x000F_0000) ==> {
            &&& (instr >> 16) & 0xF != 15
            &&& (instr >> 28) & 0xF != 0xF
            &&& instr & 0x0FFF_FFF0 != 0x0320_F000
            &&& instr & 0x0F90_0FF0 != 0x0100_0040
            &&& instr & 0x0F90_0FF0 != 0x0100_0240
            &&& ((instr >> 25) & 0x7 == 2)
            &&& ((instr >> 20) & 0x1F == 5 || (instr >> 20) & 0x1F == 7
                || (instr >> 20) & 0x1F == 13 || (instr >> 20) & 0x1F == 15
                || (instr >> 20) & 0x1F == 21 || (instr >> 20) & 0x1F == 23
                || (instr >> 20) & 0x1F == 29 || (instr >> 20) & 0x1F == 31)
            &&& ((instr >> 22) & 1 == 1)
            &&& ((instr >> 20) & 1 == 1)
            &&& instr & 0x10_0000 != 0
        }
        &&& (instr & 0x0E50_0010 == 0x0600_0000) ==> {
            &&& (instr >> 28) & 0xF != 0xF
            &&& instr & 0x0FFF_FFF0 != 0x0320_F000
            &&& instr & 0x0F90_0FF0 != 0x0100_0040
            &&& instr & 0x0F90_0FF0 != 0x0100_0240
            &&& ((instr >> 25) & 0x7 == 3)
            &&& ((instr >> 20) & 0x1F == 0 || (instr >> 20) & 0x1F == 2 || (instr >> 20) & 0x1F == 8
                || (instr >> 20) & 0x1F == 10 || (instr >> 20) & 0x1F == 16
                || (instr >> 20) & 0x1F == 18 || (instr >> 20) & 0x1F == 24
                || (instr >> 20) & 0x1F == 26)
            &&& ((instr >> 4) & 1 == 0)
            &&& ((instr >> 22) & 1 == 0)
            &&& ((instr >> 20) & 1 == 0)
            &&& instr & 0x10 == 0
            &&& instr & 0x10_0000 == 0
        }
        &&& (instr & 0x0E50_0010 == 0x0640_0000) ==> {
            &&& (instr >> 28) & 0xF != 0xF
            &&& instr & 0x0FFF_FFF0 != 0x0320_F000
            &&& instr & 0x0F90_0FF0 != 0x0100_0040
            &&& instr & 0x0F90_0FF0 != 0x0100_0240
            &&& ((instr >> 25) & 0x7 == 3)
            &&& ((instr >> 20) & 0x1F == 4 || (instr >> 20) & 0x1F == 6
                || (instr >> 20) & 0x1F == 12 || (instr >> 20) & 0x1F == 14
                || (instr >> 20) & 0x1F == 20 || (instr >> 20) & 0x1F == 22
                || (instr >> 20) & 0x1F == 28 || (instr >> 20) & 0x1F == 30)
            &&& ((instr >> 4) & 1 == 0)
            &&& ((instr >> 22) & 1 == 1)
            &&& ((instr >> 20) & 1 == 0)
            &&& instr & 0x10 == 0
            &&& instr & 0x10_0000 == 0
        }
        &&& (instr & 0x0E50_0010 == 0x0610_0000) ==> {
            &&& (instr >> 28) & 0xF != 0xF
            &&& instr & 0x0FFF_FFF0 != 0x0320_F000
            &&& instr & 0x0F90_0FF0 != 0x0100_0040
            &&& instr & 0x0F90_0FF0 != 0x0100_0240
            &&& ((instr >> 25) & 0x7 == 3)
            &&& ((instr >> 20) & 0x1F == 1 || (instr >> 20) & 0x1F == 3 || (instr >> 20) & 0x1F == 9
                || (instr >> 20) & 0x1F == 11 || (instr >> 20) & 0x1F == 17
                || (instr >> 20) & 0x1F == 19 || (instr >> 20) & 0x1F == 25
                || (instr >> 20) & 0x1F == 27)
            &&& ((instr >> 4) & 1 == 0)
            &&& ((instr >> 22) & 1 == 0)
            &&& ((instr >> 20) & 1 == 1)
            &&& instr & 0x10 == 0
            &&& instr & 0x10_0000 != 0
        }
        &&& (instr & 0x0E50_0010 == 0x0650_0000) ==> {
            &&& (instr >> 28) & 0xF != 0xF
            &&& instr & 0x0FFF_FFF0 != 0x0320_F000
            &&& instr & 0x0F90_0FF0 != 0x0100_0040
            &&& instr & 0x0F90_0FF0 != 0x0100_0240
            &&& ((instr >> 25) & 0x7 == 3)
            &&& ((instr >> 20) & 0x1F == 5 || (instr >> 20) & 0x1F == 7
                || (instr >> 20) & 0x1F == 13 || (instr >> 20) & 0x1F == 15
                || (instr >> 20) & 0x1F == 21 || (instr >> 20) & 0x1F == 23
                || (instr >> 20) & 0x1F == 29 || (instr >> 20) & 0x1F == 31)
            &&& ((instr >> 4) & 1 == 0)
            &&& ((instr >> 22) & 1 == 1)
            &&& ((instr >> 20) & 1 == 1)
            &&& instr & 0x10 == 0
            &&& instr & 0x10_0000 != 0
        }
        &&& (instr & 0x0F90_0000 == 0x0800_0000) ==> {
            &&& (instr >> 28) & 0xF != 0xF
            &&& instr & 0x0FFF_FFF0 != 0x0320_F000
            &&& instr & 0x0F90_0FF0 != 0x0100_0040
            &&& instr & 0x0F90_0FF0 != 0x0100_0240
            &&& ((instr >> 25) & 0x7 == 4)
            &&& ((instr >> 20) & 0x1F == 0 || (instr >> 20) & 0x1F == 2 || (instr >> 20) & 0x1F == 4
                || (instr >> 20) & 0x1F == 6)
            &&& ((instr >> 20) & 1 == 0)
            &&& ((instr >> 23) & 3 == 0)
            &&& instr & 0x100_0000 == 0
            &&& instr & 0x10_0000 == 0
        }
        &&& (instr & 0x0F90_0000 == 0x0880_0000) ==> {
            &&& (instr >> 28) & 0xF != 0xF
            &&& instr & 0x0FFF_FFF0 != 0x0320_F000
            &&& instr & 0x0F90_0FF0 != 0x0100_0040
            &&& instr & 0x0F90_0FF0 != 0x0100_0240
            &&& ((instr >> 25) & 0x7 == 4)
            &&& ((instr >> 20) & 0x1F == 8 || (instr >> 20) & 0x1F == 10
                || (instr >> 20) & 0x1F == 12 || (instr >> 20) & 0x1F == 14)
            &&& ((instr >> 20) & 1 == 0)
            &&& ((instr >> 23) & 3 == 1)
            &&& instr & 0x100_0000 == 0
            &&& instr & 0x10_0000 == 0
        }
        &&& (instr & 0x0F90_0000 == 0x0900_0000) ==> {
            &&& (instr >> 28) & 0xF != 0xF
            &&& instr & 0x0FFF_FFF0 != 0x0320_F000
            &&& instr & 0x0F90_0FF0 != 0x0100_0040
            &&& instr & 0x0F90_0FF0 != 0x0100_0240
            &&& ((instr >> 25) & 0x7 == 4)
            &&& ((instr >> 20) & 0x1F == 16 || (instr >> 20) & 0x1F == 18
                || (instr >> 20) & 0x1F == 20 || (instr >> 20) & 0x1F == 22)
            &&& ((instr >> 20) & 1 == 0)
            &&& ((instr >> 23) & 3 == 2)
            &&& instr & 0x100_0000 != 0
            &&& instr & 0x10_0000 == 0
        }
        &&& (instr & 0x0F90_0000 == 0x0980_0000) ==> {
            &&& (instr >> 28) & 0xF != 0xF
            &&& instr & 0x0FFF_FFF0 != 0x0320_F000
            &&& instr & 0x0F90_0FF0 != 0x0100_0040
            &&& instr & 0x0F90_0FF0 != 0x0100_0240
            &&& ((instr >> 25) & 0x7 == 4)
            &&& ((instr >> 20) & 0x1F == 24 || (instr >> 20) & 0x1F == 26
                || (instr >> 20) & 0x1F == 28 || (instr >> 20) & 0x1F == 30)
            &&& ((instr >> 20) & 1 == 0)
            &&& ((instr >> 23) & 3 == 3)
            &&& instr & 0x100_0000 != 0
            &&& instr & 0x10_0000 == 0
        }
        &&& (instr & 0x0F90_0000 == 0x0810_0000) ==> {
            &&& (instr >> 28) & 0xF != 0xF
            &&& instr & 0x0FFF_FFF0 != 0x0320_F000
            &&& instr & 0x0F90_0FF0 != 0x0100_0040
            &&& instr & 0x0F90_0FF0 != 0x0100_0240
            &&& ((instr >> 25) & 0x7 == 4)
            &&& ((instr >> 20) & 0x1F == 1 || (instr >> 20) & 0x1F == 3 || (instr >> 20) & 0x1F == 5
                || (instr >> 20) & 0x1F == 7)
            &&& ((instr >> 20) & 1 == 1)
            &&& ((instr >> 23) & 3 == 0)
            &&& instr & 0x100_0000 == 0
            &&& instr & 0x10_0000 != 0
        }
        &&& (instr & 0x0F90_0000 == 0x0890_0000) ==> {
            &&& (instr >> 28) & 0xF != 0xF
            &&& instr & 0x0FFF_FFF0 != 0x0320_F000
            &&& instr & 0x0F90_0FF0 != 0x0100_0040
            &&& instr & 0x0F90_0FF0 != 0x0100_0240
            &&& ((instr >> 25) & 0x7 == 4)
            &&& ((instr >> 20) & 0x1F == 9 || (instr >> 20) & 0x1F == 11
                || (instr >> 20) & 0x1F == 13 || (instr >> 20) & 0x1F == 15)
            &&& ((instr >> 20) & 1 == 1)
            &&& ((instr >> 23) & 3 == 1)
            &&& instr & 0x100_0000 == 0
            &&& instr & 0x10_0000 != 0
        }
        &&& (instr & 0x0F90_0000 == 0x0910_0000) ==> {
            &&& (instr >> 28) & 0xF != 0xF
            &&& instr & 0x0FFF_FFF0 != 0x0320_F000
            &&& instr & 0x0F90_0FF0 != 0x0100_0040
            &&& instr & 0x0F90_0FF0 != 0x0100_0240
            &&& ((instr >> 25) & 0x7 == 4)
            &&& ((instr >> 20) & 0x1F == 17 || (instr >> 20) & 0x1F == 19
                || (instr >> 20) & 0x1F == 21 || (instr >> 20) & 0x1F == 23)
            &&& ((instr >> 20) & 1 == 1)
            &&& ((instr >> 23) & 3 == 2)
            &&& instr & 0x100_0000 != 0
            &&& instr & 0x10_0000 != 0
        }
        &&& (instr & 0x0F90_0000 == 0x0990_0000) ==> {
            &&& (instr >> 28) & 0xF != 0xF
            &&& instr & 0x0FFF_FFF0 != 0x0320_F000
            &&& instr & 0x0F90_0FF0 != 0x0100_0040
            &&& instr & 0x0F90_0FF0 != 0x0100_0240
            &&& ((instr >> 25) & 0x7 == 4)
            &&& ((instr >> 20) & 0x1F == 25 || (instr >> 20) & 0x1F == 27
                || (instr >> 20) & 0x1F == 29 || (instr >> 20) & 0x1F == 31)
            &&& ((instr >> 20) & 1 == 1)
            &&& ((instr >> 23) & 3 == 3)
            &&& instr & 0x100_0000 != 0
            &&& instr & 0x10_0000 != 0
        }
        &&& (instr & 0x0F00_0000 == 0x0A00_0000) ==> {
            &&& (instr >> 28) & 0xF != 0xF
            &&& instr & 0x0FFF_FFF0 != 0x0320_F000
            &&& instr & 0x0F90_0FF0 != 0x0100_0040
            &&& instr & 0x0F90_0FF0 != 0x0100_0240
            &&& ((instr >> 25) & 0x7 == 5)
            &&& ((instr >> 23) & 3 == 0 || (instr >> 23) & 3 == 1)
            &&& instr & 0x100_0000 == 0
        }
        &&& (instr & 0x0F00_0000 == 0x0B00_0000) ==> {
            &&& (instr >> 28) & 0xF != 0xF
            &&& instr & 0x0FFF_FFF0 != 0x0320_F000
            &&& instr & 0x0F90_0FF0 != 0x0100_0040
            &&& instr & 0x0F90_0FF0 != 0x0100_0240
            &&& ((instr >> 25) & 0x7 == 5)
            &&& ((instr >> 23) & 3 == 2 || (instr >> 23) & 3 == 3)
            &&& instr & 0x100_0000 != 0
        }
        &&& (instr & 0x0F00_0000 == 0x0F00_0000) ==> {
            &&& (instr >> 28) & 0xF != 0xF
            &&& instr & 0x0FFF_FFF0 != 0x0320_F000
            &&& instr & 0x0F90_0FF0 != 0x0100_0040
            &&& instr & 0x0F90_0FF0 != 0x0100_0240
            &&& ((instr >> 25) & 0x7 == 7)
            &&& ((instr >> 23) & 3 == 2 || (instr >> 23) & 3 == 3)
            &&& instr & 0x100_0000 != 0
        }
        &&& (instr & 0x0FFF_FFFF == 0x0320_F001) ==> {
            &&& instr & 0xF == 1
            &&& (instr >> 28) & 0xF != 0xF
            &&& instr & 0x0FFF_FFF0 == 0x0320_F000
            &&& instr & 0x0F90_0FF0 != 0x0100_0040
            &&& instr & 0x0F90_0FF0 != 0x0100_0240
            &&& ((instr >> 25) & 0x7 == 1)
            &&& ((instr >> 20) & 0x1F == 18)
            &&& ((instr >> 4) & 1 == 0)
            &&& ((instr >> 22) & 1 == 0)
            &&& ((instr >> 20) & 1 == 0)
            &&& ((instr >> 16) & 0xF == 0)
            &&& ((instr >> 23) & 3 == 2)
            &&& instr & 0x100_0000 != 0
            &&& instr & 0x10 == 0
            &&& instr & 0x10_0000 == 0
        }
        &&& (instr & 0x0FFF_FFFF == 0x0320_F002) ==> {
            &&& instr & 0xF == 2
            &&& (instr >> 28) & 0xF != 0xF
            &&& instr & 0x0FFF_FFF0 == 0x0320_F000
            &&& instr & 0x0F90_0FF0 != 0x0100_0040
            &&& instr & 0x0F90_0FF0 != 0x0100_0240
            &&& ((instr >> 25) & 0x7 == 1)
            &&& ((instr >> 20) & 0x1F == 18)
            &&& ((instr >> 4) & 1 == 0)
            &&& ((instr >> 22) & 1 == 0)
            &&& ((instr >> 20) & 1 == 0)
            &&& ((instr >> 16) & 0xF == 0)
            &&& ((instr >> 23) & 3 == 2)
            &&& instr & 0x100_0000 != 0
            &&& instr & 0x10 == 0
            &&& instr & 0x10_0000 == 0
        }
        &&& (instr & 0x0FFF_FFFF == 0x0320_F003) ==> {
            &&& instr & 0xF == 3
            &&& (instr >> 28) & 0xF != 0xF
            &&& instr & 0x0FFF_FFF0 == 0x0320_F000
            &&& instr & 0x0F90_0FF0 != 0x0100_0040
            &&& instr & 0x0F90_0FF0 != 0x0100_0240
            &&& ((instr >> 25) & 0x7 == 1)
            &&& ((instr >> 20) & 0x1F == 18)
            &&& ((instr >> 4) & 1 == 0)
            &&& ((instr >> 22) & 1 == 0)
            &&& ((instr >> 20) & 1 == 0)
            &&& ((instr >> 16) & 0xF == 0)
            &&& ((instr >> 23) & 3 == 2)
            &&& instr & 0x100_0000 != 0
            &&& instr & 0x10 == 0
            &&& instr & 0x10_0000 == 0
        }
        &&& (instr & 0x0FFF_FFFF == 0x0320_F004) ==> {
            &&& instr & 0xF == 4
            &&& (instr >> 28) & 0xF != 0xF
            &&& instr & 0x0FFF_FFF0 == 0x0320_F000
            &&& instr & 0x0F90_0FF0 != 0x0100_0040
            &&& instr & 0x0F90_0FF0 != 0x0100_0240
            &&& ((instr >> 25) & 0x7 == 1)
            &&& ((instr >> 20) & 0x1F == 18)
            &&& ((instr >> 4) & 1 == 0)
            &&& ((instr >> 22) & 1 == 0)
            &&& ((instr >> 20) & 1 == 0)
            &&& ((instr >> 16) & 0xF == 0)
            &&& ((instr >> 23) & 3 == 2)
            &&& instr & 0x100_0000 != 0
            &&& instr & 0x10 == 0
            &&& instr & 0x10_0000 == 0
        }
        &&& (instr & 0x0FFF_FFFF == 0x0320_F005) ==> {
            &&& instr & 0xF == 5
            &&& (instr >> 28) & 0xF != 0xF
            &&& instr & 0x0FFF_FFF0 == 0x0320_F000
            &&& instr & 0x0F90_0FF0 != 0x0100_0040
            &&& instr & 0x0F90_0FF0 != 0x0100_0240
            &&& ((instr >> 25) & 0x7 == 1)
            &&& ((instr >> 20) & 0x1F == 18)
            &&& ((instr >> 4) & 1 == 0)
            &&& ((instr >> 22) & 1 == 0)
            &&& ((instr >> 20) & 1 == 0)
            &&& ((instr >> 16) & 0xF == 0)
            &&& ((instr >> 23) & 3 == 2)
            &&& instr & 0x100_0000 != 0
            &&& instr & 0x10 == 0
            &&& instr & 0x10_0000 == 0
        }
        &&& (instr & 0x0FFF_FFFF == 0x0320_F000) ==> {
            &&& instr & 0xF == 0
            &&& (instr >> 28) & 0xF != 0xF
            &&& instr & 0x0FFF_FFF0 == 0x0320_F000
            &&& instr & 0x0F90_0FF0 != 0x0100_0040
            &&& instr & 0x0F90_0FF0 != 0x0100_0240
            &&& ((instr >> 25) & 0x7 == 1)
            &&& ((instr >> 20) & 0x1F == 18)
            &&& ((instr >> 4) & 1 == 0)
            &&& ((instr >> 22) & 1 == 0)
            &&& ((instr >> 20) & 1 == 0)
            &&& ((instr >> 16) & 0xF == 0)
            &&& ((instr >> 23) & 3 == 2)
            &&& instr & 0x100_0000 != 0
            &&& instr & 0x10 == 0
            &&& instr & 0x10_0000 == 0
        }
        &&& (instr & 0x0F90_0FF0 == 0x0100_0040) ==> {
            &&& (instr >> 28) & 0xF != 0xF
            &&& instr & 0x0FFF_FFF0 != 0x0320_F000
            &&& instr & 0x0F90_0FF0 == 0x0100_0040
            &&& instr & 0x0F90_0FF0 != 0x0100_0240
            &&& ((instr >> 25) & 0x7 == 0)
            &&& ((instr >> 20) & 0x1F == 16 || (instr >> 20) & 0x1F == 18
                || (instr >> 20) & 0x1F == 20 || (instr >> 20) & 0x1F == 22)
            &&& ((instr >> 4) & 1 == 0)
            &&& ((instr >> 20) & 1 == 0)
            &&& ((instr >> 23) & 3 == 2)
            &&& instr & 0x100_0000 != 0
            &&& instr & 0x10 == 0
            &&& instr & 0x10_0000 == 0
        }
        &&& (instr & 0x0F90_0FF0 == 0x0100_0240) ==> {
            &&& (instr >> 28) & 0xF != 0xF
            &&& instr & 0x0FFF_FFF0 != 0x0320_F000
            &&& instr & 0x0F90_0FF0 != 0x0100_0040
            &&& instr & 0x0F90_0FF0 == 0x0100_0240
            &&& ((instr >> 25) & 0x7 == 0)
            &&& ((instr >> 20) & 0x1F == 16 || (instr >> 20) & 0x1F == 18
                || (instr >> 20) & 0x1F == 20 || (instr >> 20) & 0x1F == 22)
            &&& ((instr >> 4) & 1 == 0)
            &&& ((instr >> 20) & 1 == 0)
            &&& ((instr >> 23) & 3 == 2)
            &&& instr & 0x100_0000 != 0
            &&& instr & 0x10 == 0
            &&& instr & 0x10_0000 == 0
        }
    }) by (bit_vector)
        requires
            instr >> 28 != 0xF,
    ;
}

/// The bits of media instructions.
#[verifier::rlimit(50)]
pub proof fn media_bits(instr: u32)
    requires
        instr >> 28 != 0xF,
    ensures
        instr & 0x0FF0_F0D0 == 0x0750_F010 ==> arm_encoding(instr)
            == ArmInstId::SMMUL,
        instr & 0x0FF0_00D0 == 0x0750_0010 && instr & 0x0FF0_F0D0 != 0x0750_F010
            ==> arm_encoding(instr)
            == ArmInstId::SMMLA,
        instr & 0x0FF0_00D0 == 0x0750_00D0 ==> arm_encoding(instr)
            == ArmInstId::SMMLS,
        instr & 0x0FE0_007F == 0x07C0_001F ==> arm_encoding(instr)
            == ArmInstId::BFC,
        instr & 0x0FE0_0070 == 0x07C0_0010 && instr & 0x0FE0_007F != 0x07C0_001F
            ==> arm_encoding(instr)
            == ArmInstId::BFI,
        instr & 0x0FE0_0070 == 0x07A0_0050 ==> arm_encoding(instr)
            == ArmInstId::SBFX,
        instr & 0x0FE0_0070 == 0x07E0_0050 ==> arm_encoding(instr)
            == ArmInstId::UBFX,
        instr & 0x0FF0_0070 == 0x0680_0010 ==> arm_encoding(instr)
            == ArmInstId::PKHBT,
        instr & 0x0FF0_0070 == 0x0680_0050 ==> arm_encoding(instr)
            == ArmInstId::PKHTB,
        instr & 0x0FE0_0030 == 0x06A0_0010 ==> arm_encoding(instr)
            == ArmInstId::SSAT,
        instr & 0x0FF0_0FF0 == 0x06A0_0F30 ==> arm_encoding(instr)
            == ArmInstId::SSAT16,
        instr & 0x0FE0_0030 == 0x06E0_0010 ==> arm_encoding(instr)
            == ArmInstId::USAT,
        instr & 0x0FF0_0FF0 == 0x06E0_0F30 ==> arm_encoding(instr)
            == ArmInstId::USAT16,
        instr & 0x0FF0_0FF0 == 0x0680_0FB0 ==> arm_encoding(instr)
            == ArmInstId::SEL,
        instr & 0x0FFF_03F0 == 0x068F_0070 ==> arm_encoding(instr)
            == ArmInstId::SXTB16,
        instr & 0x0FF0_03F0 == 0x0680_0070 && instr & 0x0FFF_03F0 != 0x068F_0070
            ==> arm_encoding(instr)
            == ArmInstId::SXTAB16,
        instr & 0x0FFF_03F0 == 0x06AF_0070 ==> arm_encoding(instr)
            == ArmInstId::SXTB,
        instr & 0x0FF0_03F0 == 0x06A0_0070 && instr & 0x0FFF_03F0 != 0x06AF_0070
            ==> arm_encoding(instr)
            == ArmInstId::SXTAB,
        instr & 0x0FFF_03F0 == 0x06BF_0070 ==> arm_encoding(instr)
            == ArmInstId::SXTH,
        instr & 0x0FF0_03F0 == 0x06B0_0070 && instr & 0x0FFF_03F0 != 0x06BF_0070
            ==> arm_encoding(instr)
            == ArmInstId::SXTAH,
        instr & 0x0FFF_03F0 == 0x06CF_0070 ==> arm_encoding(instr)
            == ArmInstId::UXTB16,
        instr & 0x0FF0_03F0 == 0x06C0_0070 && instr & 0x0FFF_03F0 != 0x06CF_0070
            ==> arm_encoding(instr)
            == ArmInstId::UXTAB16,
        instr & 0x0FFF_03F0 == 0x06EF_0070 ==> arm_encoding(instr)
            == ArmInstId::UXTB,
        instr & 0x0FF0_03F0 == 0x06E0_0070 && instr & 0x0FFF_03F0 != 0x06EF_0070
            ==> arm_encoding(instr)
            == ArmInstId::UXTAB,
        instr & 0x0FFF_03F0 == 0x06FF_0070 ==> arm_encoding(instr)
            == ArmInstId::UXTH,
        instr & 0x0FF0_03F0 == 0x06F0_0070 && instr & 0x0FFF_03F0 != 0x06FF_0070
            ==> arm_encoding(instr)
            == ArmInstId::UXTAH,
        instr & 0x0FFF_0FF0 == 0x06BF_0F30 ==> arm_encoding(instr)
            == ArmInstId::REV,
        instr & 0x0FFF_0FF0 == 0x06BF_0FB0 ==> arm_encoding(instr)
            == ArmInstId::REV16,
        instr & 0x0FFF_0FF0 == 0x06FF_0FB0 ==> arm_encoding(instr)
            == ArmInstId::REVSH,
        instr & 0x0FFF_0FF0 == 0x06FF_0F30 ==> arm_encoding(instr)
            == ArmInstId::RBIT,
        instr & 0x0FF0_F0F0 == 0x0710_F010 ==> arm_encoding(instr)
            == ArmInstId::SDIV,
        instr & 0x0FF0_F0F0 == 0x0730_F010 ==> arm_encoding(instr)
            == ArmInstId::UDIV,
{
    assert({
        &&& (instr & 0x0FF0_F0D0 == 0x0750_F010) ==> {
            &&& (instr >> 28) & 0xF != 0xF
            &&& instr & 0x0FFF_FFF0 != 0x0320_F000
            &&& instr & 0x0F90_0FF0 != 0x0100_0040
            &&& instr & 0x0F90_0FF0 != 0x0100_0240
            &&& instr & 0x0FF0_F0D0 == 0x0750_F010
            &&& ((instr >> 25) & 0x7 == 3)
            &&& ((instr >> 20) & 0x1F == 21)
            &&& ((instr >> 4) & 1 == 1)
        }
        &&& (instr & 0x0FF0_00D0 == 0x0750_0010 && instr & 0x0FF0_F0D0 != 0x0750_F010) ==> {
            &&& (instr >> 28) & 0xF != 0xF
            &&& instr & 0x0FFF_FFF0 != 0x0320_F000
            &&& instr & 0x0F90_0FF0 != 0x0100_0040
            &&& instr & 0x0F90_0FF0 != 0x0100_0240
            &&& instr & 0x0FF0_00D0 == 0x0750_0010
            &&& ((instr >> 25) & 0x7 == 3)
            &&& ((instr >> 20) & 0x1F == 21)
            &&& ((instr >> 4) & 1 == 1)
        }
        &&& (instr & 0x0FF0_00D0 == 0x0750_00D0) ==> {
            &&& (instr >> 28) & 0xF != 0xF
            &&& instr & 0x0FFF_FFF0 != 0x0320_F000
            &&& instr & 0x0F90_0FF0 != 0x0100_0040
            &&& instr & 0x0F90_0FF0 != 0x0100_0240
            &&& instr & 0x0FF0_F0D0 != 0x0750_F010
            &&& instr & 0x0FF0_00D0 != 0x0750_0010
            &&& instr & 0x0FF0_00D0 == 0x0750_00D0
            &&& ((instr >> 25) & 0x7 == 3)
            &&& ((instr >> 20) & 0x1F == 21)
            &&& ((instr >> 4) & 1 == 1)
        }
        &&& (instr & 0x0FE0_007F == 0x07C0_001F) ==> {
            &&& (instr >> 28) & 0xF != 0xF
            &&& instr & 0x0FFF_FFF0 != 0x0320_F000
            &&& instr & 0x0F90_0FF0 != 0x0100_0040
            &&& instr & 0x0F90_0FF0 != 0x0100_0240
            &&& instr & 0x0FF0_F0D0 != 0x0750_F010
            &&& instr & 0x0FF0_00D0 != 0x0750_0010
            &&& instr & 0x0FF0_00D0 != 0x0750_00D0
            &&& instr & 0x0FE0_007F == 0x07C0_001F
            &&& ((instr >> 25) & 0x7 == 3)
            &&& ((instr >> 20) & 0x1F == 28 || (instr >> 20) & 0x1F == 29)
            &&& ((instr >> 4) & 1 == 1)
        }
        &&& (instr & 0x0FE0_0070 == 0x07C0_0010 && instr & 0x0FE0_007F != 0x07C0_001F) ==> {
            &&& (instr >> 28) & 0xF != 0xF
            &&& instr & 0x0FFF_FFF0 != 0x0320_F000
            &&& instr & 0x0F90_0FF0 != 0x0100_0040
            &&& instr & 0x0F90_0FF0 != 0x0100_0240
            &&& instr & 0x0FF0_F0D0 != 0x0750_F010
            &&& instr & 0x0FF0_00D0 != 0x0750_0010
            &&& instr & 0x0FF0_00D0 != 0x0750_00D0
            &&& instr & 0x0FE0_0070 == 0x07C0_0010
            &&& ((instr >> 25) & 0x7 == 3)
            &&& ((instr >> 20) & 0x1F == 28 || (instr >> 20) & 0x1F == 29)
            &&& ((instr >> 4) & 1 == 1)
        }
        &&& (instr & 0x0FE0_0070 == 0x07A0_0050) ==> {
            &&& (instr >> 28) & 0xF != 0xF
            &&& instr & 0x0FFF_FFF0 != 0x0320_F000
            &&& instr & 0x0F90_0FF0 != 0x0100_0040
            &&& instr & 0x0F90_0FF0 != 0x0100_0240
            &&& instr & 0x0FF0_F0D0 != 0x0750_F010
            &&& instr & 0x0FF0_00D0 != 0x0750_0010
            &&& instr & 0x0FF0_00D0 != 0x0750_00D0
            &&& instr & 0x0FE0_007F != 0x07C0_001F
            &&& instr & 0x0FE0_0070 != 0x07C0_0010
            &&& instr & 0x0FE0_0070 == 0x07A0_0050
            &&& ((instr >> 25) & 0x7 == 3)
            &&& ((instr >> 20) & 0x1F == 26 || (instr >> 20) & 0x1F == 27)
            &&& ((instr >> 4) & 1 == 1)
        }
        &&& (instr & 0x0FE0_0070 == 0x07E0_0050) ==> {
            &&& (instr >> 28) & 0xF != 0xF
            &&& instr & 0x0FFF_FFF0 != 0x0320_F000
            &&& instr & 0x0F90_0FF0 != 0x0100_0040
            &&& instr & 0x0F90_0FF0 != 0x0100_0240
            &&& instr & 0x0FF0_F0D0 != 0x0750_F010
            &&& instr & 0x0FF0_00D0 != 0x0750_0010
            &&& instr & 0x0FF0_00D0 != 0x0750_00D0
            &&& instr & 0x0FE0_007F != 0x07C0_001F
            &&& instr & 0x0FE0_0070 != 0x07C0_0010
            &&& instr & 0x0FE0_0070 != 0x07A0_0050
            &&& instr & 0x0FE0_0070 == 0x07E0_0050
            &&& ((instr >> 25) & 0x7 == 3)
            &&& ((instr >> 20) & 0x1F == 30 || (instr >> 20) & 0x1F == 31)
            &&& ((instr >> 4) & 1 == 1)
        }
        &&& (instr & 0x0FF0_0070 == 0x0680_0010) ==> {
            &&& (instr >> 28) & 0xF != 0xF
            &&& instr & 0x0FFF_FFF0 != 0x0320_F000
            &&& instr & 0x0F90_0FF0 != 0x0100_0040
            &&& instr & 0x0F90_0FF0 != 0x0100_0240
            &&& instr & 0x0FF0_F0D0 != 0x0750_F010
            &&& instr & 0x0FF0_00D0 != 0x0750_0010
            &&& instr & 0x0FF0_00D0 != 0x0750_00D0
            &&& instr & 0x0FE0_007F != 0x07C0_001F
            &&& instr & 0x0FE0_0070 != 0x07C0_0010
            &&& instr & 0x0FE0_0070 != 0x07A0_0050
            &&& instr & 0x0FE0_0070 != 0x07E0_0050
            &&& instr & 0x0FF0_0070 == 0x0680_0010
            &&& ((instr >> 25) & 0x7 == 3)
            &&& ((instr >> 20) & 0x1F == 8)
            &&& ((instr >> 4) & 1 == 1)
        }
        &&& (instr & 0x0FF0_0070 == 0x0680_0050) ==> {
            &&& (instr >> 28) & 0xF != 0xF
            &&& instr & 0x0FFF_FFF0 != 0x0320_F000
            &&& instr & 0x0F90_0FF0 != 0x0100_0040
            &&& instr & 0x0F90_0FF0 != 0x0100_0240
            &&& instr & 0x0FF0_F0D0 != 0x0750_F010
            &&& instr & 0x0FF0_00D0 != 0x0750_0010
            &&& instr & 0x0FF0_00D0 != 0x0750_00D0
            &&& instr & 0x0FE0_007F != 0x07C0_001F
            &&& instr & 0x0FE0_0070 != 0x07C0_0010
            &&& instr & 0x0FE0_0070 != 0x07A0_0050
            &&& instr & 0x0FE0_0070 != 0x07E0_0050
            &&& instr & 0x0FF0_0070 != 0x0680_0010
            &&& instr & 0x0FF0_0070 == 0x0680_0050
            &&& ((instr >> 25) & 0x7 == 3)
            &&& ((instr >> 20) & 0x1F == 8)
            &&& ((instr >> 4) & 1 == 1)
        }
        &&& (instr & 0x0FE0_0030 == 0x06A0_0010) ==> {
            &&& (instr >> 28) & 0xF != 0xF
            &&& instr & 0x0FFF_FFF0 != 0x0320_F000
            &&& instr & 0x0F90_0FF0 != 0x0100_0040
            &&& instr & 0x0F90_0FF0 != 0x0100_0240
            &&& instr & 0x0FF0_F0D0 != 0x0750_F010
            &&& instr & 0x0FF0_00D0 != 0x0750_0010
            &&& instr & 0x0FF0_00D0 != 0x0750_00D0
            &&& instr & 0x0FE0_007F != 0x07C0_001F
            &&& instr & 0x0FE0_0070 != 0x07C0_0010
            &&& instr & 0x0FE0_0070 != 0x07A0_0050
            &&& instr & 0x0FE0_0070 != 0x07E0_0050
            &&& instr & 0x0FF0_0070 != 0x0680_0010
            &&& instr & 0x0FF0_0070 != 0x0680_0050
            &&& instr & 0x0FE0_0030 == 0x06A0_0010
            &&& ((instr >> 25) & 0x7 == 3)
            &&& ((instr >> 20) & 0x1F == 10 || (instr >> 20) & 0x1F == 11)
            &&& ((instr >> 4) & 1 == 1)
        }
        &&& (instr & 0x0FF0_0FF0 == 0x06A0_0F30) ==> {
            &&& (instr >> 28) & 0xF != 0xF
            &&& instr & 0x0FFF_FFF0 != 0x0320_F000
            &&& instr & 0x0F90_0FF0 != 0x0100_0040
            &&& instr & 0x0F90_0FF0 != 0x0100_0240
            &&& instr & 0x0FF0_F0D0 != 0x0750_F010
            &&& instr & 0x0FF0_00D0 != 0x0750_0010
            &&& instr & 0x0FF0_00D0 != 0x0750_00D0
            &&& instr & 0x0FE0_007F != 0x07C0_001F
            &&& instr & 0x0FE0_0070 != 0x07C0_0010
            &&& instr & 0x0FE0_0070 != 0x07A0_0050
            &&& instr & 0x0FE0_0070 != 0x07E0_0050
            &&& instr & 0x0FF0_0070 != 0x0680_0010
            &&& instr & 0x0FF0_0070 != 0x0680_0050
            &&& instr & 0x0FE0_0030 != 0x06A0_0010
            &&& instr & 0x0FF0_0FF0 == 0x06A0_0F30
            &&& ((instr >> 25) & 0x7 == 3)
            &&& ((instr >> 20) & 0x1F == 10)
            &&& ((instr >> 4) & 1 == 1)
        }
        &&& (instr & 0x0FE0_0030 == 0x06E0_0010) ==> {
            &&& (instr >> 28) & 0xF != 0xF
            &&& instr & 0x0FFF_FFF0 != 0x0320_F000
            &&& instr & 0x0F90_0FF0 != 0x0100_0040
            &&& instr & 0x0F90_0FF0 != 0x0100_0240
            &&& instr & 0x0FF0_F0D0 != 0x0750_F010
            &&& instr & 0x0FF0_00D0 != 0x0750_0010
            &&& instr & 0x0FF0_00D0 != 0x0750_00D0
            &&& instr & 0x0FE0_007F != 0x07C0_001F
            &&& instr & 0x0FE0_0070 != 0x07C0_0010
            &&& instr & 0x0FE0_0070 != 0x07A0_0050
            &&& instr & 0x0FE0_0070 != 0x07E0_0050
            &&& instr & 0x0FF0_0070 != 0x0680_0010
            &&& instr & 0x0FF0_0070 != 0x0680_0050
            &&& instr & 0x0FE0_0030 != 0x06A0_0010
            &&& instr & 0x0FF0_0FF0 != 0x06A0_0F30
            &&& instr & 0x0FE0_0030 == 0x06E0_0010
            &&& ((instr >> 25) & 0x7 == 3)
            &&& ((instr >> 20) & 0x1F == 14 || (instr >> 20) & 0x1F == 15)
            &&& ((instr >> 4) & 1 == 1)
        }
        &&& (instr & 0x0FF0_0FF0 == 0x06E0_0F30) ==> {
            &&& (instr >> 28) & 0xF != 0xF
            &&& instr & 0x0FFF_FFF0 != 0x0320_F000
            &&& instr & 0x0F90_0FF0 != 0x0100_0040
            &&& instr & 0x0F90_0FF0 != 0x0100_0240
            &&& instr & 0x0FF0_F0D0 != 0x0750_F010
            &&& instr & 0x0FF0_00D0 != 0x0750_0010
            &&& instr & 0x0FF0_00D0 != 0x0750_00D0
            &&& instr & 0x0FE0_007F != 0x07C0_001F
            &&& instr & 0x0FE0_0070 != 0x07C0_0010
            &&& instr & 0x0FE0_0070 != 0x07A0_0050
            &&& instr & 0x0FE0_0070 != 0x07E0_0050
            &&& instr & 0x0FF0_0070 != 0x0680_0010
            &&& instr & 0x0FF0_0070 != 0x0680_0050
            &&& instr & 0x0FE0_0030 != 0x06A0_0010
            &&& instr & 0x0FF0_0FF0 != 0x06A0_0F30
            &&& instr & 0x0FE0_0030 != 0x06E0_0010
            &&& instr & 0x0FF0_0FF0 == 0x06E0_0F30
            &&& ((instr >> 25) & 0x7 == 3)
            &&& ((instr >> 20) & 0x1F == 14)
            &&& ((instr >> 4) & 1 == 1)
        }
        &&& (instr & 0x0FF0_0FF0 == 0x0680_0FB0) ==> {
            &&& (instr >> 28) & 0xF != 0xF
            &&& instr & 0x0FFF_FFF0 != 0x0320_F000
            &&& instr & 0x0F90_0FF0 != 0x0100_0040
            &&& instr & 0x0F90_0FF0 != 0x0100_0240
            &&& instr & 0x0FF0_F0D0 != 0x0750_F010
            &&& instr & 0x0FF0_00D0 != 0x0750_0010
            &&& instr & 0x0FF0_00D0 != 0x0750_00D0
            &&& instr & 0x0FE0_007F != 0x07C0_001F
            &&& instr & 0x0FE0_0070 != 0x07C0_0010
            &&& instr & 0x0FE0_0070 != 0x07A0_0050
            &&& instr & 0x0FE0_0070 != 0x07E0_0050
            &&& instr & 0x0FF0_0070 != 0x0680_0010
            &&& instr & 0x0FF0_0070 != 0x0680_0050
            &&& instr & 0x0FE0_0030 != 0x06A0_0010
            &&& instr & 0x0FF0_0FF0 != 0x06A0_0F30
            &&& instr & 0x0FE0_0030 != 0x06E0_0010
            &&& instr & 0x0FF0_0FF0 != 0x06E0_0F30
            &&& instr & 0x0FF0_0FF0 == 0x0680_0FB0
            &&& ((instr >> 25) & 0x7 == 3)
            &&& ((instr >> 20) & 0x1F == 8)
            &&& ((instr >> 4) & 1 == 1)
        }
        &&& (instr & 0x0FFF_03F0 == 0x068F_0070) ==> {
            &&& (instr >> 28) & 0xF != 0xF
            &&& instr & 0x0FFF_FFF0 != 0x0320_F000
            &&& instr & 0x0F90_0FF0 != 0x0100_0040
            &&& instr & 0x0F90_0FF0 != 0x0100_0240
            &&& instr & 0x0FF0_F0D0 != 0x0750_F010
            &&& instr & 0x0FF0_00D0 != 0x0750_0010
            &&& instr & 0x0FF0_00D0 != 0x0750_00D0
            &&& instr & 0x0FE0_007F != 0x07C0_001F
            &&& instr & 0x0FE0_0070 != 0x07C0_0010
            &&& instr & 0x0FE0_0070 != 0x07A0_0050
            &&& instr & 0x0FE0_0070 != 0x07E0_0050
            &&& instr & 0x0FF0_0070 != 0x0680_0010
            &&& instr & 0x0FF0_0070 != 0x0680_0050
            &&& instr & 0x0FE0_0030 != 0x06A0_0010
            &&& instr & 0x0FF0_0FF0 != 0x06A0_0F30
            &&& instr & 0x0FE0_0030 != 0x06E0_0010
            &&& instr & 0x0FF0_0FF0 != 0x06E0_0F30
            &&& instr & 0x0FF0_0FF0 != 0x0680_0FB0
            &&& instr & 0x0FFF_03F0 == 0x068F_0070
            &&& ((instr >> 25) & 0x7 == 3)
            &&& ((instr >> 20) & 0x1F == 8)
            &&& ((instr >> 4) & 1 == 1)
        }
        &&& (instr & 0x0FF0_03F0 == 0x0680_0070 && instr & 0x0FFF_03F0 != 0x068F_0070) ==> {
            &&& (instr >> 28) & 0xF != 0xF
            &&& instr & 0x0FFF_FFF0 != 0x0320_F000
            &&& instr & 0x0F90_0FF0 != 0x0100_0040
            &&& instr & 0x0F90_0FF0 != 0x0100_0240
            &&& instr & 0x0FF0_F0D0 != 0x0750_F010
            &&& instr & 0x0FF0_00D0 != 0x0750_0010
            &&& instr & 0x0FF0_00D0 != 0x0750_00D0
            &&& instr & 0x0FE0_007F != 0x07C0_001F
            &&& instr & 0x0FE0_0070 != 0x07C0_0010
            &&& instr & 0x0FE0_0070 != 0x07A0_0050
            &&& instr & 0x0FE0_0070 != 0x07E0_0050
            &&& instr & 0x0FF0_0070 != 0x0680_0010
            &&& instr & 0x0FF0_0070 != 0x0680_0050
            &&& instr & 0x0FE0_0030 != 0x06A0_0010
            &&& instr & 0x0FF0_0FF0 != 0x06A0_0F30
            &&& instr & 0x0FE0_0030 != 0x06E0_0010
            &&& instr & 0x0FF0_0FF0 != 0x06E0_0F30
            &&& instr & 0x0FF0_0FF0 != 0x0680_0FB0
            &&& instr & 0x0FF0_03F0 == 0x0680_0070
            &&& ((instr >> 25) & 0x7 == 3)
            &&& ((instr >> 20) & 0x1F == 8)
            &&& ((instr >> 4) & 1 == 1)
        }
        &&& (instr & 0x0FFF_03F0 == 0x06AF_0070) ==> {
            &&& (instr >> 28) & 0xF != 0xF
            &&& instr & 0x0FFF_FFF0 != 0x0320_F000
            &&& instr & 0x0F90_0FF0 != 0x0100_0040
            &&& instr & 0x0F90_0FF0 != 0x0100_0240
            &&& instr & 0x0FF0_F0D0 != 0x0750_F010
            &&& instr & 0x0FF0_00D0 != 0x0750_0010
            &&& instr & 0x0FF0_00D0 != 0x0750_00D0
            &&& instr & 0x0FE0_007F != 0x07C0_001F
            &&& instr & 0x0FE0_0070 != 0x07C0_0010
            &&& instr & 0x0FE0_0070 != 0x07A0_0050
            &&& instr & 0x0FE0_0070 != 0x07E0_0050
            &&& instr & 0x0FF0_0070 != 0x0680_0010
            &&& instr & 0x0FF0_0070 != 0x0680_0050
            &&& instr & 0x0FE0_0030 != 0x06A0_0010
            &&& instr & 0x0FF0_0FF0 != 0x06A0_0F30
            &&& instr & 0x0FE0_0030 != 0x06E0_0010
            &&& instr & 0x0FF0_0FF0 != 0x06E0_0F30
            &&& instr & 0x0FF0_0FF0 != 0x0680_0FB0
            &&& instr & 0x0FFF_03F0 != 0x068F_0070
            &&& instr & 0x0FF0_03F0 != 0x0680_0070
            &&& instr & 0x0FFF_03F0 == 0x06AF_0070
            &&& ((instr >> 25) & 0x7 == 3)
            &&& ((instr >> 20) & 0x1F == 10)
            &&& ((instr >> 4) & 1 == 1)
        }
        &&& (instr & 0x0FF0_03F0 == 0x06A0_0070 && instr & 0x0FFF_03F0 != 0x06AF_0070) ==> {
            &&& (instr >> 28) & 0xF != 0xF
            &&& instr & 0x0FFF_FFF0 != 0x0320_F000
            &&& instr & 0x0F90_0FF0 != 0x0100_0040
            &&& instr & 0x0F90_0FF0 != 0x0100_0240
            &&& instr & 0x0FF0_F0D0 != 0x0750_F010
            &&& instr & 0x0FF0_00D0 != 0x0750_0010
            &&& instr & 0x0FF0_00D0 != 0x0750_00D0
            &&& instr & 0x0FE0_007F != 0x07C0_001F
            &&& instr & 0x0FE0_0070 != 0x07C0_0010
            &&& instr & 0x0FE0_0070 != 0x07A0_0050
            &&& instr & 0x0FE0_0070 != 0x07E0_0050
            &&& instr & 0x0FF0_0070 != 0x0680_0010
            &&& instr & 0x0FF0_0070 != 0x0680_0050
            &&& instr & 0x0FE0_0030 != 0x06A0_0010
            &&& instr & 0x0FF0_0FF0 != 0x06A0_0F30
            &&& instr & 0x0FE0_0030 != 0x06E0_0010
            &&& instr & 0x0FF0_0FF0 != 0x06E0_0F30
            &&& instr & 0x0FF0_0FF0 != 0x0680_0FB0
            &&& instr & 0x0FFF_03F0 != 0x068F_0070
            &&& instr & 0x0FF0_03F0 != 0x0680_0070
            &&& instr & 0x0FF0_03F0 == 0x06A0_0070
            &&& ((instr >> 25) & 0x7 == 3)
            &&& ((instr >> 20) & 0x1F == 10)
            &&& ((instr >> 4) & 1 == 1)
        }
        &&& (instr & 0x0FFF_03F0 == 0x06BF_0070) ==> {
            &&& (instr >> 28) & 0xF != 0xF
            &&& instr & 0x0FFF_FFF0 != 0x0320_F000
            &&& instr & 0x0F90_0FF0 != 0x0100_0040
            &&& instr & 0x0F90_0FF0 != 0x0100_0240
            &&& instr & 0x0FF0_F0D0 != 0x0750_F010
            &&& instr & 0x0FF0_00D0 != 0x0750_0010
            &&& instr & 0x0FF0_00D0 != 0x0750_00D0
            &&& instr & 0x0FE0_007F != 0x07C0_001F
            &&& instr & 0x0FE0_0070 != 0x07C0_0010
            &&& instr & 0x0FE0_0070 != 0x07A0_0050
            &&& instr & 0x0FE0_0070 != 0x07E0_0050
            &&& instr & 0x0FF0_0070 != 0x0680_0010
            &&& instr & 0x0FF0_0070 != 0x0680_0050
            &&& instr & 0x0FE0_0030 != 0x06A0_0010
            &&& instr & 0x0FF0_0FF0 != 0x06A0_0F30
            &&& instr & 0x0FE0_0030 != 0x06E0_0010
            &&& instr & 0x0FF0_0FF0 != 0x06E0_0F30
            &&& instr & 0x0FF0_0FF0 != 0x0680_0FB0
            &&& instr & 0x0FFF_03F0 != 0x068F_0070
            &&& instr & 0x0FF0_03F0 != 0x0680_0070
            &&& instr & 0x0FFF_03F0 != 0x06AF_0070
            &&& instr & 0x0FF0_03F0 != 0x06A0_0070
            &&& instr & 0x0FFF_03F0 == 0x06BF_0070
            &&& ((instr >> 25) & 0x7 == 3)
            &&& ((instr >> 20) & 0x1F == 11)
            &&& ((instr >> 4) & 1 == 1)
        }
        &&& (instr & 0x0FF0_03F0 == 0x06B0_0070 && instr & 0x0FFF_03F0 != 0x06BF_0070) ==> {
            &&& (instr >> 28) & 0xF != 0xF
            &&& instr & 0x0FFF_FFF0 != 0x0320_F000
            &&& instr & 0x0F90_0FF0 != 0x0100_0040
            &&& instr & 0x0F90_0FF0 != 0x0100_0240
            &&& instr & 0x0FF0_F0D0 != 0x0750_F010
            &&& instr & 0x0FF0_00D0 != 0x0750_0010
            &&& instr & 0x0FF0_00D0 != 0x0750_00D0
            &&& instr & 0x0FE0_007F != 0x07C0_001F
            &&& instr & 0x0FE0_0070 != 0x07C0_0010
            &&& instr & 0x0FE0_0070 != 0x07A0_0050
            &&& instr & 0x0FE0_0070 != 0x07E0_0050
            &&& instr & 0x0FF0_0070 != 0x0680_0010
            &&& instr & 0x0FF0_0070 != 0x0680_0050
            &&& instr & 0x0FE0_0030 != 0x06A0_0010
            &&& instr & 0x0FF0_0FF0 != 0x06A0_0F30
            &&& instr & 0x0FE0_0030 != 0x06E0_0010
            &&& instr & 0x0FF0_0FF0 != 0x06E0_0F30
            &&& instr & 0x0FF0_0FF0 != 0x0680_0FB0
            &&& instr & 0x0FFF_03F0 != 0x068F_0070
            &&& instr & 0x0FF0_03F0 != 0x0680_0070
            &&& instr & 0x0FFF_03F0 != 0x06AF_0070
            &&& instr & 0x0FF0_03F0 != 0x06A0_0070
            &&& instr & 0x0FF0_03F0 == 0x06B0_0070
            &&& ((instr >> 25) & 0x7 == 3)
            &&& ((instr >> 20) & 0x1F == 11)
            &&& ((instr >> 4) & 1 == 1)
        }
        &&& (instr & 0x0FFF_03F0 == 0x06CF_0070) ==> {
            &&& (instr >> 28) & 0xF != 0xF
            &&& instr & 0x0FFF_FFF0 != 0x0320_F000
            &&& instr & 0x0F90_0FF0 != 0x0100_0040
            &&& instr & 0x0F90_0FF0 != 0x0100_0240
            &&& instr & 0x0FF0_F0D0 != 0x0750_F010
            &&& instr & 0x0FF0_00D0 != 0x0750_0010
            &&& instr & 0x0FF0_00D0 != 0x0750_00D0
            &&& instr & 0x0FE0_007F != 0x07C0_001F
            &&& instr & 0x0FE0_0070 != 0x07C0_0010
            &&& instr & 0x0FE0_0070 != 0x07A0_0050
            &&& instr & 0x0FE0_0070 != 0x07E0_0050
            &&& instr & 0x0FF0_0070 != 0x0680_0010
            &&& instr & 0x0FF0_0070 != 0x0680_0050
            &&& instr & 0x0FE0_0030 != 0x06A0_0010
            &&& instr & 0x0FF0_0FF0 != 0x06A0_0F30
            &&& instr & 0x0FE0_0030 != 0x06E0_0010
            &&& instr & 0x0FF0_0FF0 != 0x06E0_0F30
            &&& instr & 0x0FF0_0FF0 != 0x0680_0FB0
            &&& instr & 0x0FFF_03F0 != 0x068F_0070
            &&& instr & 0x0FF0_03F0 != 0x0680_0070
            &&& instr & 0x0FFF_03F0 != 0x06AF_0070
            &&& instr & 0x0FF0_03F0 != 0x06A0_0070
            &&& instr & 0x0FFF_03F0 != 0x06BF_0070
            &&& instr & 0x0FF0_03F0 != 0x06B0_0070
            &&& instr & 0x0FFF_03F0 == 0x06CF_0070
            &&& ((instr >> 25) & 0x7 == 3)
            &&& ((instr >> 20) & 0x1F == 12)
            &&& ((instr >> 4) & 1 == 1)
        }
        &&& (instr & 0x0FF0_03F0 == 0x06C0_0070 && instr & 0x0FFF_03F0 != 0x06CF_0070) ==> {
            &&& (instr >> 28) & 0xF != 0xF
            &&& instr & 0x0FFF_FFF0 != 0x0320_F000
            &&& instr & 0x0F90_0FF0 != 0x0100_0040
            &&& instr & 0x0F90_0FF0 != 0x0100_0240
            &&& instr & 0x0FF0_F0D0 != 0x0750_F010
            &&& instr & 0x0FF0_00D0 != 0x0750_0010
            &&& instr & 0x0FF0_00D0 != 0x0750_00D0
            &&& instr & 0x0FE0_007F != 0x07C0_001F
            &&& instr & 0x0FE0_0070 != 0x07C0_0010
            &&& instr & 0x0FE0_0070 != 0x07A0_0050
            &&& instr & 0x0FE0_0070 != 0x07E0_0050
            &&& instr & 0x0FF0_0070 != 0x0680_0010
            &&& instr & 0x0FF0_0070 != 0x0680_0050
            &&& instr & 0x0FE0_0030 != 0x06A0_0010
            &&& instr & 0x0FF0_0FF0 != 0x06A0_0F30
            &&& instr & 0x0FE0_0030 != 0x06E0_0010
            &&& instr & 0x0FF0_0FF0 != 0x06E0_0F30
            &&& instr & 0x0FF0_0FF0 != 0x0680_0FB0
            &&& instr & 0x0FFF_03F0 != 0x068F_0070
            &&& instr & 0x0FF0_03F0 != 0x0680_0070
            &&& instr & 0x0FFF_03F0 != 0x06AF_0070
            &&& instr & 0x0FF0_03F0 != 0x06A0_0070
            &&& instr & 0x0FFF_03F0 != 0x06BF_0070
            &&& instr & 0x0FF0_03F0 != 0x06B0_0070
            &&& instr & 0x0FF0_03F0 == 0x06C0_0070
            &&& ((instr >> 25) & 0x7 == 3)
            &&& ((instr >> 20) & 0x1F == 12)
            &&& ((instr >> 4) & 1 == 1)
        }
        &&& (instr & 0x0FFF_03F0 == 0x06EF_0070) ==> {
            &&& (instr >> 28) & 0xF != 0xF
            &&& instr & 0x0FFF_FFF0 != 0x0320_F000
            &&& instr & 0x0F90_0FF0 != 0x0100_0040
            &&& instr & 0x0F90_0FF0 != 0x0100_0240
            &&& instr & 0x0FF0_F0D0 != 0x0750_F010
            &&& instr & 0x0FF0_00D0 != 0x0750_0010
            &&& instr & 0x0FF0_00D0 != 0x0750_00D0
            &&& instr & 0x0FE0_007F != 0x07C0_001F
            &&& instr & 0x0FE0_0070 != 0x07C0_0010
            &&& instr & 0x0FE0_0070 != 0x07A0_0050
            &&& instr & 0x0FE0_0070 != 0x07E0_0050
            &&& instr & 0x0FF0_0070 != 0x0680_0010
            &&& instr & 0x0FF0_0070 != 0x0680_0050
            &&& instr & 0x0FE0_0030 != 0x06A0_0010
            &&& instr & 0x0FF0_0FF0 != 0x06A0_0F30
            &&& instr & 0x0FE0_0030 != 0x06E0_0010
            &&& instr & 0x0FF0_0FF0 != 0x06E0_0F30
            &&& instr & 0x0FF0_0FF0 != 0x0680_0FB0
            &&& instr & 0x0FFF_03F0 != 0x068F_0070
            &&& instr & 0x0FF0_03F0 != 0x0680_0070
            &&& instr & 0x0FFF_03F0 != 0x06AF_0070
            &&& instr & 0x0FF0_03F0 != 0x06A0_0070
            &&& instr & 0x0FFF_03F0 != 0x06BF_0070
            &&& instr & 0x0FF0_03F0 != 0x06B0_0070
            &&& instr & 0x0FFF_03F0 != 0x06CF_0070
            &&& instr & 0x0FF0_03F0 != 0x06C0_0070
            &&& instr & 0x0FFF_03F0 == 0x06EF_0070
            &&& ((instr >> 25) & 0x7 == 3)
            &&& ((instr >> 20) & 0x1F == 14)
            &&& ((instr >> 4) & 1 == 1)
        }
        &&& (instr & 0x0FF0_03F0 == 0x06E0_0070 && instr & 0x0FFF_03F0 != 0x06EF_0070) ==> {
            &&& (instr >> 28) & 0xF != 0xF
            &&& instr & 0x0FFF_FFF0 != 0x0320_F000
            &&& instr & 0x0F90_0FF0 != 0x0100_0040
            &&& instr & 0x0F90_0FF0 != 0x0100_0240
            &&& instr & 0x0FF0_F0D0 != 0x0750_F010
            &&& instr & 0x0FF0_00D0 != 0x0750_0010
            &&& instr & 0x0FF0_00D0 != 0x0750_00D0
            &&& instr & 0x0FE0_007F != 0x07C0_001F
            &&& instr & 0x0FE0_0070 != 0x07C0_0010
            &&& instr & 0x0FE0_0070 != 0x07A0_0050
            &&& instr & 0x0FE0_0070 != 0x07E0_0050
            &&& instr & 0x0FF0_0070 != 0x0680_0010
            &&& instr & 0x0FF0_0070 != 0x0680_0050
            &&& instr & 0x0FE0_0030 != 0x06A0_0010
            &&& instr & 0x0FF0_0FF0 != 0x06A0_0F30
            &&& instr & 0x0FE0_0030 != 0x06E0_0010
            &&& instr & 0x0FF0_0FF0 != 0x06E0_0F30
            &&& instr & 0x0FF0_0FF0 != 0x0680_0FB0
            &&& instr & 0x0FFF_03F0 != 0x068F_0070
            &&& instr & 0x0FF0_03F0 != 0x0680_0070
            &&& instr & 0x0FFF_03F0 != 0x06AF_0070
            &&& instr & 0x0FF0_03F0 != 0x06A0_0070
            &&& instr & 0x0FFF_03F0 != 0x06BF_0070
            &&& instr & 0x0FF0_03F0 != 0x06B0_0070
            &&& instr & 0x0FFF_03F0 != 0x06CF_0070
            &&& instr & 0x0FF0_03F0 != 0x06C0_0070
            &&& instr & 0x0FF0_03F0 == 0x06E0_0070
            &&& ((instr >> 25) & 0x7 == 3)
            &&& ((instr >> 20) & 0x1F == 14)
            &&& ((instr >> 4) & 1 == 1)
        }
        &&& (instr & 0x0FFF_03F0 == 0x06FF_0070) ==> {
            &&& (instr >> 28) & 0xF != 0xF
            &&& instr & 0x0FFF_FFF0 != 0x0320_F000
            &&& instr & 0x0F90_0FF0 != 0x0100_0040
            &&& instr & 0x0F90_0FF0 != 0x0100_0240
            &&& instr & 0x0FF0_F0D0 != 0x0750_F010
            &&& instr & 0x0FF0_00D0 != 0x0750_0010
            &&& instr & 0x0FF0_00D0 != 0x0750_00D0
            &&& instr & 0x0FE0_007F != 0x07C0_001F
            &&& instr & 0x0FE0_0070 != 0x07C0_0010
            &&& instr & 0x0FE0_0070 != 0x07A0_0050
            &&& instr & 0x0FE0_0070 != 0x07E0_0050
            &&& instr & 0x0FF0_0070 != 0x0680_0010
            &&& instr & 0x0FF0_0070 != 0x0680_0050
            &&& instr & 0x0FE0_0030 != 0x06A0_0010
            &&& instr & 0x0FF0_0FF0 != 0x06A0_0F30
            &&& instr & 0x0FE0_0030 != 0x06E0_0010
            &&& instr & 0x0FF0_0FF0 != 0x06E0_0F30
            &&& instr & 0x0FF0_0FF0 != 0x0680_0FB0
            &&& instr & 0x0FFF_03F0 != 0x068F_0070
            &&& instr & 0x0FF0_03F0 != 0x0680_0070
            &&& instr & 0x0FFF_03F0 != 0x06AF_0070
            &&& instr & 0x0FF0_03F0 != 0x06A0_0070
            &&& instr & 0x0FFF_03F0 != 0x06BF_0070
            &&& instr & 0x0FF0_03F0 != 0x06B0_0070
            &&& instr & 0x0FFF_03F0 != 0x06CF_0070
            &&& instr & 0x0FF0_03F0 != 0x06C0_0070
            &&& instr & 0x0FFF_03F0 != 0x06EF_0070
            &&& instr & 0x0FF0_03F0 != 0x06E0_0070
            &&& instr & 0x0FFF_03F0 == 0x06FF_0070
            &&& ((instr >> 25) & 0x7 == 3)
            &&& ((instr >> 20) & 0x1F == 15)
            &&& ((instr >> 4) & 1 == 1)
        }
        &&& (instr & 0x0FF0_03F0 == 0x06F0_0070 && instr & 0x0FFF_03F0 != 0x06FF_0070) ==> {
            &&& (instr >> 28) & 0xF != 0xF
            &&& instr & 0x0FFF_FFF0 != 0x0320_F000
            &&& instr & 0x0F90_0FF0 != 0x0100_0040
            &&& instr & 0x0F90_0FF0 != 0x0100_0240
            &&& instr & 0x0FF0_F0D0 != 0x0750_F010
            &&& instr & 0x0FF0_00D0 != 0x0750_0010
            &&& instr & 0x0FF0_00D0 != 0x0750_00D0
            &&& instr & 0x0FE0_007F != 0x07C0_001F
            &&& instr & 0x0FE0_0070 != 0x07C0_0010
            &&& instr & 0x0FE0_0070 != 0x07A0_0050
            &&& instr & 0x0FE0_0070 != 0x07E0_0050
            &&& instr & 0x0FF0_0070 != 0x0680_0010
            &&& instr & 0x0FF0_0070 != 0x0680_0050
            &&& instr & 0x0FE0_0030 != 0x06A0_0010
            &&& instr & 0x0FF0_0FF0 != 0x06A0_0F30
            &&& instr & 0x0FE0_0030 != 0x06E0_0010
            &&& instr & 0x0FF0_0FF0 != 0x06E0_0F30
            &&& instr & 0x0FF0_0FF0 != 0x0680_0FB0
            &&& instr & 0x0FFF_03F0 != 0x068F_0070
            &&& instr & 0x0FF0_03F0 != 0x0680_0070
            &&& instr & 0x0FFF_03F0 != 0x06AF_0070
            &&& instr & 0x0FF0_03F0 != 0x06A0_0070
            &&& instr & 0x0FFF_03F0 != 0x06BF_0070
            &&& instr & 0x0FF0_03F0 != 0x06B0_0070
            &&& instr & 0x0FFF_03F0 != 0x06CF_0070
            &&& instr & 0x0FF0_03F0 != 0x06C0_0070
            &&& instr & 0x0FFF_03F0 != 0x06EF_0070
            &&& instr & 0x0FF0_03F0 != 0x06E0_0070
            &&& instr & 0x0FF0_03F0 == 0x06F0_0070
            &&& ((instr >> 25) & 0x7 == 3)
            &&& ((instr >> 20) & 0x1F == 15)
            &&& ((instr >> 4) & 1 == 1)
        }
        &&& (instr & 0x0FFF_0FF0 == 0x06BF_0F30) ==> {
            &&& (instr >> 28) & 0xF != 0xF
            &&& instr & 0x0FFF_FFF0 != 0x0320_F000
            &&& instr & 0x0F90_0FF0 != 0x0100_0040
            &&& instr & 0x0F90_0FF0 != 0x0100_0240
            &&& instr & 0x0FF0_F0D0 != 0x0750_F010
            &&& instr & 0x0FF0_00D0 != 0x0750_0010
            &&& instr & 0x0FF0_00D0 != 0x0750_00D0
            &&& instr & 0x0FE0_007F != 0x07C0_001F
            &&& instr & 0x0FE0_0070 != 0x07C0_0010
            &&& instr & 0x0FE0_0070 != 0x07A0_0050
            &&& instr & 0x0FE0_0070 != 0x07E0_0050
            &&& instr & 0x0FF0_0070 != 0x0680_0010
            &&& instr & 0x0FF0_0070 != 0x0680_0050
            &&& instr & 0x0FE0_0030 != 0x06A0_0010
            &&& instr & 0x0FF0_0FF0 != 0x06A0_0F30
            &&& instr & 0x0FE0_0030 != 0x06E0_0010
            &&& instr & 0x0FF0_0FF0 != 0x06E0_0F30
            &&& instr & 0x0FF0_0FF0 != 0x0680_0FB0
            &&& instr & 0x0FFF_03F0 != 0x068F_0070
            &&& instr & 0x0FF0_03F0 != 0x0680_0070
            &&& instr & 0x0FFF_03F0 != 0x06AF_0070
            &&& instr & 0x0FF0_03F0 != 0x06A0_0070
            &&& instr & 0x0FFF_03F0 != 0x06BF_0070
            &&& instr & 0x0FF0_03F0 != 0x06B0_0070
            &&& instr & 0x0FFF_03F0 != 0x06CF_0070
            &&& instr & 0x0FF0_03F0 != 0x06C0_0070
            &&& instr & 0x0FFF_03F0 != 0x06EF_0070
            &&& instr & 0x0FF0_03F0 != 0x06E0_0070
            &&& instr & 0x0FFF_03F0 != 0x06FF_0070
            &&& instr & 0x0FF0_03F0 != 0x06F0_0070
            &&& instr & 0x0FFF_0FF0 == 0x06BF_0F30
            &&& ((instr >> 25) & 0x7 == 3)
            &&& ((instr >> 20) & 0x1F == 11)
            &&& ((instr >> 4) & 1 == 1)
        }
        &&& (instr & 0x0FFF_0FF0 == 0x06BF_0FB0) ==> {
            &&& (instr >> 28) & 0xF != 0xF
            &&& instr & 0x0FFF_FFF0 != 0x0320_F000
            &&& instr & 0x0F90_0FF0 != 0x0100_0040
            &&& instr & 0x0F90_0FF0 != 0x0100_0240
            &&& instr & 0x0FF0_F0D0 != 0x0750_F010
            &&& instr & 0x0FF0_00D0 != 0x0750_0010
            &&& instr & 0x0FF0_00D0 != 0x0750_00D0
            &&& instr & 0x0FE0_007F != 0x07C0_001F
            &&& instr & 0x0FE0_0070 != 0x07C0_0010
            &&& instr & 0x0FE0_0070 != 0x07A0_0050
            &&& instr & 0x0FE0_0070 != 0x07E0_0050
            &&& instr & 0x0FF0_0070 != 0x0680_0010
            &&& instr & 0x0FF0_0070 != 0x0680_0050
            &&& instr & 0x0FE0_0030 != 0x06A0_0010
            &&& instr & 0x0FF0_0FF0 != 0x06A0_0F30
            &&& instr & 0x0FE0_0030 != 0x06E0_0010
            &&& instr & 0x0FF0_0FF0 != 0x06E0_0F30
            &&& instr & 0x0FF0_0FF0 != 0x0680_0FB0
            &&& instr & 0x0FFF_03F0 != 0x068F_0070
            &&& instr & 0x0FF0_03F0 != 0x0680_0070
            &&& instr & 0x0FFF_03F0 != 0x06AF_0070
            &&& instr & 0x0FF0_03F0 != 0x06A0_0070
            &&& instr & 0x0FFF_03F0 != 0x06BF_0070
            &&& instr & 0x0FF0_03F0 != 0x06B0_0070
            &&& instr & 0x0FFF_03F0 != 0x06CF_0070
            &&& instr & 0x0FF0_03F0 != 0x06C0_0070
            &&& instr & 0x0FFF_03F0 != 0x06EF_0070
            &&& instr & 0x0FF0_03F0 != 0x06E0_0070
            &&& instr & 0x0FFF_03F0 != 0x06FF_0070
            &&& instr & 0x0FF0_03F0 != 0x06F0_0070
            &&& instr & 0x0FFF_0FF0 != 0x06BF_0F30
            &&& instr & 0x0FFF_0FF0 == 0x06BF_0FB0
            &&& ((instr >> 25) & 0x7 == 3)
            &&& ((instr >> 20) & 0x1F == 11)
            &&& ((instr >> 4) & 1 == 1)
        }
        &&& (instr & 0x0FFF_0FF0 == 0x06FF_0FB0) ==> {
            &&& (instr >> 28) & 0xF != 0xF
            &&& instr & 0x0FFF_FFF0 != 0x0320_F000
            &&& instr & 0x0F90_0FF0 != 0x0100_0040
            &&& instr & 0x0F90_0FF0 != 0x0100_0240
            &&& instr & 0x0FF0_F0D0 != 0x0750_F010
            &&& instr & 0x0FF0_00D0 != 0x0750_0010
            &&& instr & 0x0FF0_00D0 != 0x0750_00D0
            &&& instr & 0x0FE0_007F != 0x07C0_001F
            &&& instr & 0x0FE0_0070 != 0x07C0_0010
            &&& instr & 0x0FE0_0070 != 0x07A0_0050
            &&& instr & 0x0FE0_0070 != 0x07E0_0050
            &&& instr & 0x0FF0_0070 != 0x0680_0010
            &&& instr & 0x0FF0_0070 != 0x0680_0050
            &&& instr & 0x0FE0_0030 != 0x06A0_0010
            &&& instr & 0x0FF0_0FF0 != 0x06A0_0F30
            &&& instr & 0x0FE0_0030 != 0x06E0_0010
            &&& instr & 0x0FF0_0FF0 != 0x06E0_0F30
            &&& instr & 0x0FF0_0FF0 != 0x0680_0FB0
            &&& instr & 0x0FFF_03F0 != 0x068F_0070
            &&& instr & 0x0FF0_03F0 != 0x0680_0070
            &&& instr & 0x0FFF_03F0 != 0x06AF_0070
            &&& instr & 0x0FF0_03F0 != 0x06A0_0070
            &&& instr & 0x0FFF_03F0 != 0x06BF_0070
            &&& instr & 0x0FF0_03F0 != 0x06B0_0070
            &&& instr & 0x0FFF_03F0 != 0x06CF_0070
            &&& instr & 0x0FF0_03F0 != 0x06C0_0070
            &&& instr & 0x0FFF_03F0 != 0x06EF_0070
            &&& instr & 0x0FF0_03F0 != 0x06E0_0070
            &&& instr & 0x0FFF_03F0 != 0x06FF_0070
            &&& instr & 0x0FF0_03F0 != 0x06F0_0070
            &&& instr & 0x0FFF_0FF0 != 0x06BF_0F30
            &&& instr & 0x0FFF_0FF0 != 0x06BF_0FB0
            &&& instr & 0x0FFF_0FF0 == 0x06FF_0FB0
            &&& ((instr >> 25) & 0x7 == 3)
            &&& ((instr >> 20) & 0x1F == 15)
            &&& ((instr >> 4) & 1 == 1)
        }
        &&& (instr & 0x0FFF_0FF0 == 0x06FF_0F30) ==> {
            &&& (instr >> 28) & 0xF != 0xF
            &&& instr & 0x0FFF_FFF0 != 0x0320_F000
            &&& instr & 0x0F90_0FF0 != 0x0100_0040
            &&& instr & 0x0F90_0FF0 != 0x0100_0240
            &&& instr & 0x0FF0_F0D0 != 0x0750_F010
            &&& instr & 0x0FF0_00D0 != 0x0750_0010
            &&& instr & 0x0FF0_00D0 != 0x0750_00D0
            &&& instr & 0x0FE0_007F != 0x07C0_001F
            &&& instr & 0x0FE0_0070 != 0x07C0_0010
            &&& instr & 0x0FE0_0070 != 0x07A0_0050
            &&& instr & 0x0FE0_0070 != 0x07E0_0050
            &&& instr & 0x0FF0_0070 != 0x0680_0010
            &&& instr & 0x0FF0_0070 != 0x0680_0050
            &&& instr & 0x0FE0_0030 != 0x06A0_0010
            &&& instr & 0x0FF0_0FF0 != 0x06A0_0F30
            &&& instr & 0x0FE0_0030 != 0x06E0_0010
            &&& instr & 0x0FF0_0FF0 != 0x06E0_0F30
            &&& instr & 0x0FF0_0FF0 != 0x0680_0FB0
            &&& instr & 0x0FFF_03F0 != 0x068F_0070
            &&& instr & 0x0FF0_03F0 != 0x0680_0070
            &&& instr & 0x0FFF_03F0 != 0x06AF_0070
            &&& instr & 0x0FF0_03F0 != 0x06A0_0070
            &&& instr & 0x0FFF_03F0 != 0x06BF_0070
            &&& instr & 0x0FF0_03F0 != 0x06B0_0070
            &&& instr & 0x0FFF_03F0 != 0x06CF_0070
            &&& instr & 0x0FF0_03F0 != 0x06C0_0070
            &&& instr & 0x0FFF_03F0 != 0x06EF_0070
            &&& instr & 0x0FF0_03F0 != 0x06E0_0070
            &&& instr & 0x0FFF_03F0 != 0x06FF_0070
            &&& instr & 0x0FF0_03F0 != 0x06F0_0070
            &&& instr & 0x0FFF_0FF0 != 0x06BF_0F30
            &&& instr & 0x0FFF_0FF0 != 0x06BF_0FB0
            &&& instr & 0x0FFF_0FF0 != 0x06FF_0FB0
            &&& instr & 0x0FFF_0FF0 == 0x06FF_0F30
            &&& ((instr >> 25) & 0x7 == 3)
            &&& ((instr >> 20) & 0x1F == 15)
            &&& ((instr >> 4) & 1 == 1)
        }
        &&& (instr & 0x0FF0_F0F0 == 0x0710_F010) ==> {
            &&& (instr >> 28) & 0xF != 0xF
            &&& instr & 0x0FFF_FFF0 != 0x0320_F000
            &&& instr & 0x0F90_0FF0 != 0x0100_0040
            &&& instr & 0x0F90_0FF0 != 0x0100_0240
            &&& instr & 0x0FF0_F0D0 != 0x0750_F010
            &&& instr & 0x0FF0_00D0 != 0x0750_0010
            &&& instr & 0x0FF0_00D0 != 0x0750_00D0
            &&& instr & 0x0FE0_007F != 0x07C0_001F
            &&& instr & 0x0FE0_0070 != 0x07C0_0010
            &&& instr & 0x0FE0_0070 != 0x07A0_0050
            &&& instr & 0x0FE0_0070 != 0x07E0_0050
            &&& instr & 0x0FF0_0070 != 0x0680_0010
            &&& instr & 0x0FF0_0070 != 0x0680_0050
            &&& instr & 0x0FE0_0030 != 0x06A0_0010
            &&& instr & 0x0FF0_0FF0 != 0x06A0_0F30
            &&& instr & 0x0FE0_0030 != 0x06E0_0010
            &&& instr & 0x0FF0_0FF0 != 0x06E0_0F30
            &&& instr & 0x0FF0_0FF0 != 0x0680_0FB0
            &&& instr & 0x0FFF_03F0 != 0x068F_0070
            &&& instr & 0x0FF0_03F0 != 0x0680_0070
            &&& instr & 0x0FFF_03F0 != 0x06AF_0070
            &&& instr & 0x0FF0_03F0 != 0x06A0_0070
            &&& instr & 0x0FFF_03F0 != 0x06BF_0070
            &&& instr & 0x0FF0_03F0 != 0x06B0_0070
            &&& instr & 0x0FFF_03F0 != 0x06CF_0070
            &&& instr & 0x0FF0_03F0 != 0x06C0_0070
            &&& instr & 0x0FFF_03F0 != 0x06EF_0070
            &&& instr & 0x0FF0_03F0 != 0x06E0_0070
            &&& instr & 0x0FFF_03F0 != 0x06FF_0070
            &&& instr & 0x0FF0_03F0 != 0x06F0_0070
            &&& instr & 0x0FFF_0FF0 != 0x06BF_0F30
            &&& instr & 0x0FFF_0FF0 != 0x06BF_0FB0
            &&& instr & 0x0FFF_0FF0 != 0x06FF_0FB0
            &&& instr & 0x0FFF_0FF0 != 0x06FF_0F30
            &&& instr & 0x0FF0_F0F0 == 0x0710_F010
            &&& ((instr >> 25) & 0x7 == 3)
            &&& ((instr >> 20) & 0x1F == 17)
            &&& ((instr >> 4) & 1 == 1)
        }
        &&& (instr & 0x0FF0_F0F0 == 0x0730_F010) ==> {
            &&& (instr >> 28) & 0xF != 0xF
            &&& instr & 0x0FFF_FFF0 != 0x0320_F000
            &&& instr & 0x0F90_0FF0 != 0x0100_0040
            &&& instr & 0x0F90_0FF0 != 0x0100_0240
            &&& instr & 0x0FF0_F0D0 != 0x0750_F010
            &&& instr & 0x0FF0_00D0 != 0x0750_0010
            &&& instr & 0x0FF0_00D0 != 0x0750_00D0
            &&& instr & 0x0FE0_007F != 0x07C0_001F
            &&& instr & 0x0FE0_0070 != 0x07C0_0010
            &&& instr & 0x0FE0_0070 != 0x07A0_0050
            &&& instr & 0x0FE0_0070 != 0x07E0_0050
            &&& instr & 0x0FF0_0070 != 0x0680_0010
            &&& instr & 0x0FF0_0070 != 0x0680_0050
            &&& instr & 0x0FE0_0030 != 0x06A0_0010
            &&& instr & 0x0FF0_0FF0 != 0x06A0_0F30
            &&& instr & 0x0FE0_0030 != 0x06E0_0010
            &&& instr & 0x0FF0_0FF0 != 0x06E0_0F30
            &&& instr & 0x0FF0_0FF0 != 0x0680_0FB0
            &&& instr & 0x0FFF_03F0 != 0x068F_0070
            &&& instr & 0x0FF0_03F0 != 0x0680_0070
            &&& instr & 0x0FFF_03F0 != 0x06AF_0070
            &&& instr & 0x0FF0_03F0 != 0x06A0_0070
            &&& instr & 0x0FFF_03F0 != 0x06BF_0070
            &&& instr & 0x0FF0_03F0 != 0x06B0_0070
            &&& instr & 0x0FFF_03F0 != 0x06CF_0070
            &&& instr & 0x0FF0_03F0 != 0x06C0_0070
            &&& instr & 0x0FFF_03F0 != 0x06EF_0070
            &&& instr & 0x0FF0_03F0 != 0x06E0_0070
            &&& instr & 0x0FFF_03F0 != 0x06FF_0070
            &&& instr & 0x0FF0_03F0 != 0x06F0_0070
            &&& instr & 0x0FFF_0FF0 != 0x06BF_0F30
            &&& instr & 0x0FFF_0FF0 != 0x06BF_0FB0
            &&& instr & 0x0FFF_0FF0 != 0x06FF_0FB0
            &&& instr & 0x0FFF_0FF0 != 0x06FF_0F30
            &&& instr & 0x0FF0_F0F0 != 0x0710_F010
            &&& instr & 0x0FF0_F0F0 == 0x0730_F010
            &&& ((instr >> 25) & 0x7 == 3)
            &&& ((instr >> 20) & 0x1F == 19)
            &&& ((instr >> 4) & 1 == 1)
        }
    }) by (bit_vector)
        requires
            instr >> 28 != 0xF,
    ;
}

/// Whether bit `i` of a word is set.
#[verifier::inline]
pub open spec fn one(x: u32, i: u32) -> bool {
    (x >> i) & 1 == 1
}

/// The patterns of the unconditional instructions, bit by bit.
#[verifier::rlimit(50)]
proof fn unconditional_patterns(instr: u32)
    ensures
        (instr & 0xFF90_0F00 == 0xF400_0B00) <==> (one(instr, 31) && one(instr, 30)
            && one(instr, 29) && one(instr, 28)
            && !one(instr, 27) && one(instr, 26) && !one(instr, 25) && !one(instr, 24)
            && !one(instr, 23) && !one(instr, 20) && one(instr, 11) && !one(instr, 10)
            && one(instr, 9) && one(instr, 8)),
        (instr & 0xFF90_0C00 == 0xF400_0C00) <==> (one(instr, 31) && one(instr, 30)
            && one(instr, 29) && one(instr, 28)
            && !one(instr, 27) && one(instr, 26) && !one(instr, 25) && !one(instr, 24)
            && !one(instr, 23) && !one(instr, 20) && one(instr, 11) && one(instr, 10)),
        (instr & 0xFFB0_0C00 == 0xF480_0C00) <==> (one(instr, 31) && one(instr, 30)
            && one(instr, 29) && one(instr, 28)
            && !one(instr, 27) && one(instr, 26) && !one(instr, 25) && !one(instr, 24)
            && one(instr, 23) && !one(instr, 21) && !one(instr, 20) && one(instr, 11)
            && one(instr, 10)),
        (instr & 0xFFB0_0000 == 0xF400_0000) <==> (one(instr, 31) && one(instr, 30)
            && one(instr, 29) && one(instr, 28)
            && !one(instr, 27) && one(instr, 26) && !one(instr, 25) && !one(instr, 24)
            && !one(instr, 23) && !one(instr, 21) && !one(instr, 20)),
        (instr & 0xFFB0_0000 == 0xF420_0000) <==> (one(instr, 31) && one(instr, 30)
            && one(instr, 29) && one(instr, 28)
            && !one(instr, 27) && one(instr, 26) && !one(instr, 25) && !one(instr, 24)
            && !one(instr, 23) && one(instr, 21) && !one(instr, 20)),
        (instr & 0xFFB0_0000 == 0xF480_0000) <==> (one(instr, 31) && one(instr, 30)
            && one(instr, 29) && one(instr, 28)
            && !one(instr, 27) && one(instr, 26) && !one(instr, 25) && !one(instr, 24)
            && one(instr, 23) && !one(instr, 21) && !one(instr, 20)),
        (instr & 0xFFB0_0C00 == 0xF4A0_0C00) <==> (one(instr, 31) && one(instr, 30)
            && one(instr, 29) && one(instr, 28)
            && !one(instr, 27) && one(instr, 26) && !one(instr, 25) && !one(instr, 24)
            && one(instr, 23) && one(instr, 21) && !one(instr, 20) && one(instr, 11)
            && one(instr, 10)),
        (instr & 0xFFB0_0000 == 0xF4A0_0000) <==> (one(instr, 31) && one(instr, 30)
            && one(instr, 29) && one(instr, 28)
            && !one(instr, 27) && one(instr, 26) && !one(instr, 25) && !one(instr, 24)
            && one(instr, 23) && one(instr, 21) && !one(instr, 20)),
        (instr & 0xFF80_0E50 == 0xFE00_0A00) <==> (one(instr, 31) && one(instr, 30)
            && one(instr, 29) && one(instr, 28)
            && one(instr, 27) && one(instr, 26) && one(instr, 25) && !one(instr, 24)
            && !one(instr, 23) && one(instr, 11) && !one(instr, 10) && one(instr, 9)
            && !one(instr, 6) && !one(instr, 4)),
        (instr & 0xFFB0_0E50 == 0xFE80_0A00) <==> (one(instr, 31) && one(instr, 30)
            && one(instr, 29) && one(instr, 28)
            && one(instr, 27) && one(instr, 26) && one(instr, 25) && !one(instr, 24)
            && one(instr, 23) && !one(instr, 21) && !one(instr, 20) && one(instr, 11)
            && !one(instr, 10) && one(instr, 9) && !one(instr, 6) && !one(instr, 4)),
        (instr & 0xFFB0_0E50 == 0xFE80_0A40) <==> (one(instr, 31) && one(instr, 30)
            && one(instr, 29) && one(instr, 28)
            && one(instr, 27) && one(instr, 26) && one(instr, 25) && !one(instr, 24)
            && one(instr, 23) && !one(instr, 21) && !one(instr, 20) && one(instr, 11)
            && !one(instr, 10) && one(instr, 9) && one(instr, 6) && !one(instr, 4)),
        (instr & 0xFFBC_0E10 == 0xFEBC_0A00) <==> (one(instr, 31) && one(instr, 30)
            && one(instr, 29) && one(instr, 28)
            && one(instr, 27) && one(instr, 26) && one(instr, 25) && !one(instr, 24)
            && one(instr, 23) && one(instr, 21) && one(instr, 20) && one(instr, 19)
            && one(instr, 18) && one(instr, 11) && !one(instr, 10) && one(instr, 9)
            && !one(instr, 4)),
        (instr & 0xFFBC_0ED0 == 0xFEB8_0A40) <==> (one(instr, 31) && one(instr, 30)
            && one(instr, 29) && one(instr, 28)
            && one(instr, 27) && one(instr, 26) && one(instr, 25) && !one(instr, 24)
            && one(instr, 23) && one(instr, 21) && one(instr, 20) && one(instr, 19)
            && !one(instr, 18) && one(instr, 11) && !one(instr, 10) && one(instr, 9)
            && !one(instr, 7) && one(instr, 6) && !one(instr, 4)),
        (instr & 0xFFB0_0010 == 0xF2B0_0000) <==> (one(instr, 31) && one(instr, 30)
            && one(instr, 29) && one(instr, 28)
            && !one(instr, 27) && !one(instr, 26) && one(instr, 25) && !one(instr, 24)
            && one(instr, 23) && one(instr, 21) && one(instr, 20) && !one(instr, 4)),
        (instr & 0xFFB0_0C50 == 0xF3B0_0800) <==> (one(instr, 31) && one(instr, 30)
            && one(instr, 29) && one(instr, 28)
            && !one(instr, 27) && !one(instr, 26) && one(instr, 25) && one(instr, 24)
            && one(instr, 23) && one(instr, 21) && one(instr, 20) && one(instr, 11)
            && !one(instr, 10) && !one(instr, 6) && !one(instr, 4)),
        (instr & 0xFFB0_0C50 == 0xF3B0_0840) <==> (one(instr, 31) && one(instr, 30)
            && one(instr, 29) && one(instr, 28)
            && !one(instr, 27) && !one(instr, 26) && one(instr, 25) && one(instr, 24)
            && one(instr, 23) && one(instr, 21) && one(instr, 20) && one(instr, 11)
            && !one(instr, 10) && one(instr, 6) && !one(instr, 4)),
        (instr & 0xFEB8_0090 == 0xF280_0010) <==> (one(instr, 31) && one(instr, 30)
            && one(instr, 29) && one(instr, 28)
            && !one(instr, 27) && !one(instr, 26) && one(instr, 25) && one(instr, 23)
            && !one(instr, 21) && !one(instr, 20) && !one(instr, 19) && !one(instr, 7)
            && one(instr, 4)),
        (instr & 0xFF80_0FD0 == 0xF280_0810) <==> (one(instr, 31) && one(instr, 30)
            && one(instr, 29) && one(instr, 28)
            && !one(instr, 27) && !one(instr, 26) && one(instr, 25) && !one(instr, 24)
            && one(instr, 23) && one(instr, 11) && !one(instr, 10) && !one(instr, 9)
            && !one(instr, 8) && !one(instr, 7) && !one(instr, 6) && one(instr, 4)),
        (instr & 0xFE80_0F10 == 0xF280_0010) <==> (one(instr, 31) && one(instr, 30)
            && one(instr, 29) && one(instr, 28)
            && !one(instr, 27) && !one(instr, 26) && one(instr, 25) && one(instr, 23)
            && !one(instr, 11) && !one(instr, 10) && !one(instr, 9) && !one(instr, 8)
            && one(instr, 4)),
        (instr & 0xFE80_0F10 == 0xF280_0110) <==> (one(instr, 31) && one(instr, 30)
            && one(instr, 29) && one(instr, 28)
            && !one(instr, 27) && !one(instr, 26) && one(instr, 25) && one(instr, 23)
            && !one(instr, 11) && !one(instr, 10) && !one(instr, 9) && one(instr, 8)
            && one(instr, 4)),
        (instr & 0xFF80_0F10 == 0xF380_0410) <==> (one(instr, 31) && one(instr, 30)
            && one(instr, 29) && one(instr, 28)
            && !one(instr, 27) && !one(instr, 26) && one(instr, 25) && one(instr, 24)
            && one(instr, 23) && !one(instr, 11) && one(instr, 10) && !one(instr, 9)
            && !one(instr, 8) && one(instr, 4)),
        (instr & 0xFF80_0F10 == 0xF280_0510) <==> (one(instr, 31) && one(instr, 30)
            && one(instr, 29) && one(instr, 28)
            && !one(instr, 27) && !one(instr, 26) && one(instr, 25) && !one(instr, 24)
            && one(instr, 23) && !one(instr, 11) && one(instr, 10) && !one(instr, 9)
            && one(instr, 8) && one(instr, 4)),
        (instr & 0xFF80_0F10 == 0xF380_0510) <==> (one(instr, 31) && one(instr, 30)
            && one(instr, 29) && one(instr, 28)
            && !one(instr, 27) && !one(instr, 26) && one(instr, 25) && one(instr, 24)
            && one(instr, 23) && !one(instr, 11) && one(instr, 10) && !one(instr, 9)
            && one(instr, 8) && one(instr, 4)),
        (instr & 0xFE80_0E10 == 0xF280_0610) <==> (one(instr, 31) && one(instr, 30)
            && one(instr, 29) && one(instr, 28)
            && !one(instr, 27) && !one(instr, 26) && one(instr, 25) && one(instr, 23)
            && !one(instr, 11) && one(instr, 10) && one(instr, 9) && one(instr, 4)),
        (instr & 0xFE80_0F10 == 0xF200_0000) <==> (one(instr, 31) && one(instr, 30)
            && one(instr, 29) && one(instr, 28)
            && !one(instr, 27) && !one(instr, 26) && one(instr, 25) && !one(instr, 23)
            && !one(instr, 11) && !one(instr, 10) && !one(instr, 9) && !one(instr, 8)
            && !one(instr, 4)),
        (instr & 0xFE80_0F10 == 0xF200_0010) <==> (one(instr, 31) && one(instr, 30)
            && one(instr, 29) && one(instr, 28)
            && !one(instr, 27) && !one(instr, 26) && one(instr, 25) && !one(instr, 23)
            && !one(instr, 11) && !one(instr, 10) && !one(instr, 9) && !one(instr, 8)
            && one(instr, 4)),
        (instr & 0xFFB0_0F10 == 0xF200_0110) <==> (one(instr, 31) && one(instr, 30)
            && one(instr, 29) && one(instr, 28)
            && !one(instr, 27) && !one(instr, 26) && one(instr, 25) && !one(instr, 24)
            && !one(instr, 23) && !one(instr, 21) && !one(instr, 20) && !one(instr, 11)
            && !one(instr, 10) && !one(instr, 9) && one(instr, 8) && one(instr, 4)),
        (instr & 0xFFB0_0F10 == 0xF210_0110) <==> (one(instr, 31) && one(instr, 30)
            && one(instr, 29) && one(instr, 28)
            && !one(instr, 27) && !one(instr, 26) && one(instr, 25) && !one(instr, 24)
            && !one(instr, 23) && !one(instr, 21) && one(instr, 20) && !one(instr, 11)
            && !one(instr, 10) && !one(instr, 9) && one(instr, 8) && one(instr, 4)),
        (instr & 0xFFB0_0F10 == 0xF230_0110) <==> (one(instr, 31) && one(instr, 30)
            && one(instr, 29) && one(instr, 28)
            && !one(instr, 27) && !one(instr, 26) && one(instr, 25) && !one(instr, 24)
            && !one(instr, 23) && one(instr, 21) && one(instr, 20) && !one(instr, 11)
            && !one(instr, 10) && !one(instr, 9) && one(instr, 8) && one(instr, 4)),
        (instr & 0xFFB0_0F10 == 0xF300_0110) <==> (one(instr, 31) && one(instr, 30)
            && one(instr, 29) && one(instr, 28)
            && !one(instr, 27) && !one(instr, 26) && one(instr, 25) && one(instr, 24)
            && !one(instr, 23) && !one(instr, 21) && !one(instr, 20) && !one(instr, 11)
            && !one(instr, 10) && !one(instr, 9) && one(instr, 8) && one(instr, 4)),
        (instr & 0xFFB0_0F10 == 0xF320_0110) <==> (one(instr, 31) && one(instr, 30)
            && one(instr, 29) && one(instr, 28)
            && !one(instr, 27) && !one(instr, 26) && one(instr, 25) && one(instr, 24)
            && !one(instr, 23) && one(instr, 21) && !one(instr, 20) && !one(instr, 11)
            && !one(instr, 10) && !one(instr, 9) && one(instr, 8) && one(instr, 4)),
        (instr & 0xFFB0_0F10 == 0xF330_0110) <==> (one(instr, 31) && one(instr, 30)
            && one(instr, 29) && one(instr, 28)
            && !one(instr, 27) && !one(instr, 26) && one(instr, 25) && one(instr, 24)
            && !one(instr, 23) && one(instr, 21) && one(instr, 20) && !one(instr, 11)
            && !one(instr, 10) && !one(instr, 9) && one(instr, 8) && one(instr, 4)),
        (instr & 0xFE80_0F10 == 0xF200_0200) <==> (one(instr, 31) && one(instr, 30)
            && one(instr, 29) && one(instr, 28)
            && !one(instr, 27) && !one(instr, 26) && one(instr, 25) && !one(instr, 23)
            && !one(instr, 11) && !one(instr, 10) && one(instr, 9) && !one(instr, 8)
            && !one(instr, 4)),
        (instr & 0xFE80_0F10 == 0xF200_0210) <==> (one(instr, 31) && one(instr, 30)
            && one(instr, 29) && one(instr, 28)
            && !one(instr, 27) && !one(instr, 26) && one(instr, 25) && !one(instr, 23)
            && !one(instr, 11) && !one(instr, 10) && one(instr, 9) && !one(instr, 8)
            && one(instr, 4)),
        (instr & 0xFE80_0F10 == 0xF200_0300) <==> (one(instr, 31) && one(instr, 30)
            && one(instr, 29) && one(instr, 28)
            && !one(instr, 27) && !one(instr, 26) && one(instr, 25) && !one(instr, 23)
            && !one(instr, 11) && !one(instr, 10) && one(instr, 9) && one(instr, 8)
            && !one(instr, 4)),
        (instr & 0xFE80_0F10 == 0xF200_0310) <==> (one(instr, 31) && one(instr, 30)
            && one(instr, 29) && one(instr, 28)
            && !one(instr, 27) && !one(instr, 26) && one(instr, 25) && !one(instr, 23)
            && !one(instr, 11) && !one(instr, 10) && one(instr, 9) && one(instr, 8)
            && one(instr, 4)),
        (instr & 0xFE80_0F10 == 0xF200_0400) <==> (one(instr, 31) && one(instr, 30)
            && one(instr, 29) && one(instr, 28)
            && !one(instr, 27) && !one(instr, 26) && one(instr, 25) && !one(instr, 23)
            && !one(instr, 11) && one(instr, 10) && !one(instr, 9) && !one(instr, 8)
            && !one(instr, 4)),
        (instr & 0xFE80_0F10 == 0xF200_0410) <==> (one(instr, 31) && one(instr, 30)
            && one(instr, 29) && one(instr, 28)
            && !one(instr, 27) && !one(instr, 26) && one(instr, 25) && !one(instr, 23)
            && !one(instr, 11) && one(instr, 10) && !one(instr, 9) && !one(instr, 8)
            && one(instr, 4)),
        (instr & 0xFE80_0F10 == 0xF200_0500) <==> (one(instr, 31) && one(instr, 30)
            && one(instr, 29) && one(instr, 28)
            && !one(instr, 27) && !one(instr, 26) && one(instr, 25) && !one(instr, 23)
            && !one(instr, 11) && one(instr, 10) && !one(instr, 9) && one(instr, 8)
            && !one(instr, 4)),
        (instr & 0xFE80_0F00 == 0xF200_0600) <==> (one(instr, 31) && one(instr, 30)
            && one(instr, 29) && one(instr, 28)
            && !one(instr, 27) && !one(instr, 26) && one(instr, 25) && !one(instr, 23)
            && !one(instr, 11) && one(instr, 10) && one(instr, 9) && !one(instr, 8)),
        (instr & 0xFE80_0F10 == 0xF200_0700) <==> (one(instr, 31) && one(instr, 30)
            && one(instr, 29) && one(instr, 28)
            && !one(instr, 27) && !one(instr, 26) && one(instr, 25) && !one(instr, 23)
            && !one(instr, 11) && one(instr, 10) && one(instr, 9) && one(instr, 8)
            && !one(instr, 4)),
        (instr & 0xFE80_0F10 == 0xF200_0710) <==> (one(instr, 31) && one(instr, 30)
            && one(instr, 29) && one(instr, 28)
            && !one(instr, 27) && !one(instr, 26) && one(instr, 25) && !one(instr, 23)
            && !one(instr, 11) && one(instr, 10) && one(instr, 9) && one(instr, 8)
            && one(instr, 4)),
        (instr & 0xFF80_0F10 == 0xF200_0800) <==> (one(instr, 31) && one(instr, 30)
            && one(instr, 29) && one(instr, 28)
            && !one(instr, 27) && !one(instr, 26) && one(instr, 25) && !one(instr, 24)
            && !one(instr, 23) && one(instr, 11) && !one(instr, 10) && !one(instr, 9)
            && !one(instr, 8) && !one(instr, 4)),
        (instr & 0xFF80_0F10 == 0xF300_0800) <==> (one(instr, 31) && one(instr, 30)
            && one(instr, 29) && one(instr, 28)
            && !one(instr, 27) && !one(instr, 26) && one(instr, 25) && one(instr, 24)
            && !one(instr, 23) && one(instr, 11) && !one(instr, 10) && !one(instr, 9)
            && !one(instr, 8) && !one(instr, 4)),
        (instr & 0xFF80_0F10 == 0xF200_0810) <==> (one(instr, 31) && one(instr, 30)
            && one(instr, 29) && one(instr, 28)
            && !one(instr, 27) && !one(instr, 26) && one(instr, 25) && !one(instr, 24)
            && !one(instr, 23) && one(instr, 11) && !one(instr, 10) && !one(instr, 9)
            && !one(instr, 8) && one(instr, 4)),
        (instr & 0xFF80_0F10 == 0xF300_0810) <==> (one(instr, 31) && one(instr, 30)
            && one(instr, 29) && one(instr, 28)
            && !one(instr, 27) && !one(instr, 26) && one(instr, 25) && one(instr, 24)
            && !one(instr, 23) && one(instr, 11) && !one(instr, 10) && !one(instr, 9)
            && !one(instr, 8) && one(instr, 4)),
        (instr & 0xFE80_0F10 == 0xF200_0900) <==> (one(instr, 31) && one(instr, 30)
            && one(instr, 29) && one(instr, 28)
            && !one(instr, 27) && !one(instr, 26) && one(instr, 25) && !one(instr, 23)
            && one(instr, 11) && !one(instr, 10) && !one(instr, 9) && one(instr, 8)
            && !one(instr, 4)),
        (instr & 0xFE80_0F10 == 0xF200_0910) <==> (one(instr, 31) && one(instr, 30)
            && one(instr, 29) && one(instr, 28)
            && !one(instr, 27) && !one(instr, 26) && one(instr, 25) && !one(instr, 23)
            && one(instr, 11) && !one(instr, 10) && !one(instr, 9) && one(instr, 8)
            && one(instr, 4)),
        (instr & 0xFE80_0F00 == 0xF200_0A00) <==> (one(instr, 31) && one(instr, 30)
            && one(instr, 29) && one(instr, 28)
            && !one(instr, 27) && !one(instr, 26) && one(instr, 25) && !one(instr, 23)
            && one(instr, 11) && !one(instr, 10) && one(instr, 9) && !one(instr, 8)),
        (instr & 0xFF80_0F10 == 0xF200_0B00) <==> (one(instr, 31) && one(instr, 30)
            && one(instr, 29) && one(instr, 28)
            && !one(instr, 27) && !one(instr, 26) && one(instr, 25) && !one(instr, 24)
            && !one(instr, 23) && one(instr, 11) && !one(instr, 10) && one(instr, 9)
            && one(instr, 8) && !one(instr, 4)),
        (instr & 0xFF80_0F10 == 0xF300_0B00) <==> (one(instr, 31) && one(instr, 30)
            && one(instr, 29) && one(instr, 28)
            && !one(instr, 27) && !one(instr, 26) && one(instr, 25) && one(instr, 24)
            && !one(instr, 23) && one(instr, 11) && !one(instr, 10) && one(instr, 9)
            && one(instr, 8) && !one(instr, 4)),
        (instr & 0xFF80_0F10 == 0xF200_0B10) <==> (one(instr, 31) && one(instr, 30)
            && one(instr, 29) && one(instr, 28)
            && !one(instr, 27) && !one(instr, 26) && one(instr, 25) && !one(instr, 24)
            && !one(instr, 23) && one(instr, 11) && !one(instr, 10) && one(instr, 9)
            && one(instr, 8) && one(instr, 4)),
        (instr & 0xFE80_0F10 == 0xF200_0100) <==> (one(instr, 31) && one(instr, 30)
            && one(instr, 29) && one(instr, 28)
            && !one(instr, 27) && !one(instr, 26) && one(instr, 25) && !one(instr, 23)
            && !one(instr, 11) && !one(instr, 10) && !one(instr, 9) && one(instr, 8)
            && !one(instr, 4)),
        (instr & 0xFFA0_0F10 == 0xF200_0C10) <==> (one(instr, 31) && one(instr, 30)
            && one(instr, 29) && one(instr, 28)
            && !one(instr, 27) && !one(instr, 26) && one(instr, 25) && !one(instr, 24)
            && !one(instr, 23) && !one(instr, 21) && one(instr, 11) && one(instr, 10)
            && !one(instr, 9) && !one(instr, 8) && one(instr, 4)),
        (instr & 0xFFA0_0F10 == 0xF220_0C10) <==> (one(instr, 31) && one(instr, 30)
            && one(instr, 29) && one(instr, 28)
            && !one(instr, 27) && !one(instr, 26) && one(instr, 25) && !one(instr, 24)
            && !one(instr, 23) && one(instr, 21) && one(instr, 11) && one(instr, 10)
            && !one(instr, 9) && !one(instr, 8) && one(instr, 4)),
        (instr & 0xFFA0_0F10 == 0xF200_0D00) <==> (one(instr, 31) && one(instr, 30)
            && one(instr, 29) && one(instr, 28)
            && !one(instr, 27) && !one(instr, 26) && one(instr, 25) && !one(instr, 24)
            && !one(instr, 23) && !one(instr, 21) && one(instr, 11) && one(instr, 10)
            && !one(instr, 9) && one(instr, 8) && !one(instr, 4)),
        (instr & 0xFFA0_0F10 == 0xF220_0D00) <==> (one(instr, 31) && one(instr, 30)
            && one(instr, 29) && one(instr, 28)
            && !one(instr, 27) && !one(instr, 26) && one(instr, 25) && !one(instr, 24)
            && !one(instr, 23) && one(instr, 21) && one(instr, 11) && one(instr, 10)
            && !one(instr, 9) && one(instr, 8) && !one(instr, 4)),
        (instr & 0xFFA0_0F10 == 0xF200_0D10) <==> (one(instr, 31) && one(instr, 30)
            && one(instr, 29) && one(instr, 28)
            && !one(instr, 27) && !one(instr, 26) && one(instr, 25) && !one(instr, 24)
            && !one(instr, 23) && !one(instr, 21) && one(instr, 11) && one(instr, 10)
            && !one(instr, 9) && one(instr, 8) && one(instr, 4)),
        (instr & 0xFFA0_0F10 == 0xF220_0D10) <==> (one(instr, 31) && one(instr, 30)
            && one(instr, 29) && one(instr, 28)
            && !one(instr, 27) && !one(instr, 26) && one(instr, 25) && !one(instr, 24)
            && !one(instr, 23) && one(instr, 21) && one(instr, 11) && one(instr, 10)
            && !one(instr, 9) && one(instr, 8) && one(instr, 4)),
        (instr & 0xFFA0_0F10 == 0xF300_0D00) <==> (one(instr, 31) && one(instr, 30)
            && one(instr, 29) && one(instr, 28)
            && !one(instr, 27) && !one(instr, 26) && one(instr, 25) && one(instr, 24)
            && !one(instr, 23) && !one(instr, 21) && one(instr, 11) && one(instr, 10)
            && !one(instr, 9) && one(instr, 8) && !one(instr, 4)),
        (instr & 0xFFA0_0F10 == 0xF320_0D00) <==> (one(instr, 31) && one(instr, 30)
            && one(instr, 29) && one(instr, 28)
            && !one(instr, 27) && !one(instr, 26) && one(instr, 25) && one(instr, 24)
            && !one(instr, 23) && one(instr, 21) && one(instr, 11) && one(instr, 10)
            && !one(instr, 9) && one(instr, 8) && !one(instr, 4)),
        (instr & 0xFFB0_0F10 == 0xF300_0D10) <==> (one(instr, 31) && one(instr, 30)
            && one(instr, 29) && one(instr, 28)
            && !one(instr, 27) && !one(instr, 26) && one(instr, 25) && one(instr, 24)
            && !one(instr, 23) && !one(instr, 21) && !one(instr, 20) && one(instr, 11)
            && one(instr, 10) && !one(instr, 9) && one(instr, 8) && one(instr, 4)),
        (instr & 0xFFA0_0F10 == 0xF200_0E00) <==> (one(instr, 31) && one(instr, 30)
            && one(instr, 29) && one(instr, 28)
            && !one(instr, 27) && !one(instr, 26) && one(instr, 25) && !one(instr, 24)
            && !one(instr, 23) && !one(instr, 21) && one(instr, 11) && one(instr, 10)
            && one(instr, 9) && !one(instr, 8) && !one(instr, 4)),
        (instr & 0xFFA0_0F10 == 0xF300_0E00) <==> (one(instr, 31) && one(instr, 30)
            && one(instr, 29) && one(instr, 28)
            && !one(instr, 27) && !one(instr, 26) && one(instr, 25) && one(instr, 24)
            && !one(instr, 23) && !one(instr, 21) && one(instr, 11) && one(instr, 10)
            && one(instr, 9) && !one(instr, 8) && !one(instr, 4)),
        (instr & 0xFFA0_0F10 == 0xF320_0E00) <==> (one(instr, 31) && one(instr, 30)
            && one(instr, 29) && one(instr, 28)
            && !one(instr, 27) && !one(instr, 26) && one(instr, 25) && one(instr, 24)
            && !one(instr, 23) && one(instr, 21) && one(instr, 11) && one(instr, 10)
            && one(instr, 9) && !one(instr, 8) && !one(instr, 4)),
        (instr & 0xFF80_0F10 == 0xF300_0E10) <==> (one(instr, 31) && one(instr, 30)
            && one(instr, 29) && one(instr, 28)
            && !one(instr, 27) && !one(instr, 26) && one(instr, 25) && one(instr, 24)
            && !one(instr, 23) && one(instr, 11) && one(instr, 10) && one(instr, 9)
            && !one(instr, 8) && one(instr, 4)),
        (instr & 0xFFA0_0F10 == 0xF200_0F00) <==> (one(instr, 31) && one(instr, 30)
            && one(instr, 29) && one(instr, 28)
            && !one(instr, 27) && !one(instr, 26) && one(instr, 25) && !one(instr, 24)
            && !one(instr, 23) && !one(instr, 21) && one(instr, 11) && one(instr, 10)
            && one(instr, 9) && one(instr, 8) && !one(instr, 4)),
        (instr & 0xFFA0_0F10 == 0xF220_0F00) <==> (one(instr, 31) && one(instr, 30)
            && one(instr, 29) && one(instr, 28)
            && !one(instr, 27) && !one(instr, 26) && one(instr, 25) && !one(instr, 24)
            && !one(instr, 23) && one(instr, 21) && one(instr, 11) && one(instr, 10)
            && one(instr, 9) && one(instr, 8) && !one(instr, 4)),
        (instr & 0xFFA0_0F10 == 0xF300_0F00) <==> (one(instr, 31) && one(instr, 30)
            && one(instr, 29) && one(instr, 28)
            && !one(instr, 27) && !one(instr, 26) && one(instr, 25) && one(instr, 24)
            && !one(instr, 23) && !one(instr, 21) && one(instr, 11) && one(instr, 10)
            && one(instr, 9) && one(instr, 8) && !one(instr, 4)),
        (instr & 0xFFA0_0F10 == 0xF320_0F00) <==> (one(instr, 31) && one(instr, 30)
            && one(instr, 29) && one(instr, 28)
            && !one(instr, 27) && !one(instr, 26) && one(instr, 25) && one(instr, 24)
            && !one(instr, 23) && one(instr, 21) && one(instr, 11) && one(instr, 10)
            && one(instr, 9) && one(instr, 8) && !one(instr, 4)),
        (instr & 0xFFA0_0F10 == 0xF200_0F10) <==> (one(instr, 31) && one(instr, 30)
            && one(instr, 29) && one(instr, 28)
            && !one(instr, 27) && !one(instr, 26) && one(instr, 25) && !one(instr, 24)
            && !one(instr, 23) && !one(instr, 21) && one(instr, 11) && one(instr, 10)
            && one(instr, 9) && one(instr, 8) && one(instr, 4)),
        (instr & 0xFFA0_0F10 == 0xF220_0F10) <==> (one(instr, 31) && one(instr, 30)
            && one(instr, 29) && one(instr, 28)
            && !one(instr, 27) && !one(instr, 26) && one(instr, 25) && !one(instr, 24)
            && !one(instr, 23) && one(instr, 21) && one(instr, 11) && one(instr, 10)
            && one(instr, 9) && one(instr, 8) && one(instr, 4)),
        (instr & 0xFFB0_0F10 == 0xF220_0110) <==> (one(instr, 31) && one(instr, 30)
            && one(instr, 29) && one(instr, 28)
            && !one(instr, 27) && !one(instr, 26) && one(instr, 25) && !one(instr, 24)
            && !one(instr, 23) && one(instr, 21) && !one(instr, 20) && !one(instr, 11)
            && !one(instr, 10) && !one(instr, 9) && one(instr, 8) && one(instr, 4)),
        (instr & 0xFFB0_0F10 == 0xF310_0110) <==> (one(instr, 31) && one(instr, 30)
            && one(instr, 29) && one(instr, 28)
            && !one(instr, 27) && !one(instr, 26) && one(instr, 25) && one(instr, 24)
            && !one(instr, 23) && !one(instr, 21) && one(instr, 20) && !one(instr, 11)
            && !one(instr, 10) && !one(instr, 9) && one(instr, 8) && one(instr, 4)),
        (instr & 0xFE80_0F50 == 0xF280_0500) <==> (one(instr, 31) && one(instr, 30)
            && one(instr, 29) && one(instr, 28)
            && !one(instr, 27) && !one(instr, 26) && one(instr, 25) && one(instr, 23)
            && !one(instr, 11) && one(instr, 10) && !one(instr, 9) && one(instr, 8)
            && !one(instr, 6) && !one(instr, 4)),
        (instr & 0xFE80_0F50 == 0xF280_0700) <==> (one(instr, 31) && one(instr, 30)
            && one(instr, 29) && one(instr, 28)
            && !one(instr, 27) && !one(instr, 26) && one(instr, 25) && one(instr, 23)
            && !one(instr, 11) && one(instr, 10) && one(instr, 9) && one(instr, 8)
            && !one(instr, 6) && !one(instr, 4)),
        (instr & 0xFE80_0E50 == 0xF280_0000) <==> (one(instr, 31) && one(instr, 30)
            && one(instr, 29) && one(instr, 28)
            && !one(instr, 27) && !one(instr, 26) && one(instr, 25) && one(instr, 23)
            && !one(instr, 11) && !one(instr, 10) && !one(instr, 9) && !one(instr, 6)
            && !one(instr, 4)),
        (instr & 0xFE80_0E50 == 0xF280_0200) <==> (one(instr, 31) && one(instr, 30)
            && one(instr, 29) && one(instr, 28)
            && !one(instr, 27) && !one(instr, 26) && one(instr, 25) && one(instr, 23)
            && !one(instr, 11) && !one(instr, 10) && one(instr, 9) && !one(instr, 6)
            && !one(instr, 4)),
        (instr & 0xFE80_0D50 == 0xF280_0800) <==> (one(instr, 31) && one(instr, 30)
            && one(instr, 29) && one(instr, 28)
            && !one(instr, 27) && !one(instr, 26) && one(instr, 25) && one(instr, 23)
            && one(instr, 11) && !one(instr, 10) && !one(instr, 8) && !one(instr, 6)
            && !one(instr, 4)),
        (instr & 0xFE80_0D50 == 0xF280_0C00) <==> (one(instr, 31) && one(instr, 30)
            && one(instr, 29) && one(instr, 28)
            && !one(instr, 27) && !one(instr, 26) && one(instr, 25) && one(instr, 23)
            && one(instr, 11) && one(instr, 10) && !one(instr, 8) && !one(instr, 6)
            && !one(instr, 4)),
        (instr & 0xFFB3_0F90 == 0xF3B2_0080) <==> (one(instr, 31) && one(instr, 30)
            && one(instr, 29) && one(instr, 28)
            && !one(instr, 27) && !one(instr, 26) && one(instr, 25) && one(instr, 24)
            && one(instr, 23) && one(instr, 21) && one(instr, 20) && one(instr, 17)
            && !one(instr, 16) && !one(instr, 11) && !one(instr, 10) && !one(instr, 9)
            && !one(instr, 8) && one(instr, 7) && !one(instr, 4)),
        (instr & 0xFFB3_0F90 == 0xF3B2_0100) <==> (one(instr, 31) && one(instr, 30)
            && one(instr, 29) && one(instr, 28)
            && !one(instr, 27) && !one(instr, 26) && one(instr, 25) && one(instr, 24)
            && one(instr, 23) && one(instr, 21) && one(instr, 20) && one(instr, 17)
            && !one(instr, 16) && !one(instr, 11) && !one(instr, 10) && !one(instr, 9)
            && one(instr, 8) && !one(instr, 7) && !one(instr, 4)),
        (instr & 0xFFB3_0F90 == 0xF3B2_0180) <==> (one(instr, 31) && one(instr, 30)
            && one(instr, 29) && one(instr, 28)
            && !one(instr, 27) && !one(instr, 26) && one(instr, 25) && one(instr, 24)
            && one(instr, 23) && one(instr, 21) && one(instr, 20) && one(instr, 17)
            && !one(instr, 16) && !one(instr, 11) && !one(instr, 10) && !one(instr, 9)
            && one(instr, 8) && one(instr, 7) && !one(instr, 4)),
        (instr & 0xFFB3_0FD0 == 0xF3B2_0200) <==> (one(instr, 31) && one(instr, 30)
            && one(instr, 29) && one(instr, 28)
            && !one(instr, 27) && !one(instr, 26) && one(instr, 25) && one(instr, 24)
            && one(instr, 23) && one(instr, 21) && one(instr, 20) && one(instr, 17)
            && !one(instr, 16) && !one(instr, 11) && !one(instr, 10) && one(instr, 9)
            && !one(instr, 8) && !one(instr, 7) && !one(instr, 6) && !one(instr, 4)),
        (instr & 0xFFB3_0F90 == 0xF3B2_0280) <==> (one(instr, 31) && one(instr, 30)
            && one(instr, 29) && one(instr, 28)
            && !one(instr, 27) && !one(instr, 26) && one(instr, 25) && one(instr, 24)
            && one(instr, 23) && one(instr, 21) && one(instr, 20) && one(instr, 17)
            && !one(instr, 16) && !one(instr, 11) && !one(instr, 10) && one(instr, 9)
            && !one(instr, 8) && one(instr, 7) && !one(instr, 4)),
        (instr & 0xFFB3_0B90 == 0xF3B1_0000) <==> (one(instr, 31) && one(instr, 30)
            && one(instr, 29) && one(instr, 28)
            && !one(instr, 27) && !one(instr, 26) && one(instr, 25) && one(instr, 24)
            && one(instr, 23) && one(instr, 21) && one(instr, 20) && !one(instr, 17)
            && one(instr, 16) && !one(instr, 11) && !one(instr, 9) && !one(instr, 8)
            && !one(instr, 7) && !one(instr, 4)),
        (instr & 0xFFB3_0B90 == 0xF3B1_0080) <==> (one(instr, 31) && one(instr, 30)
            && one(instr, 29) && one(instr, 28)
            && !one(instr, 27) && !one(instr, 26) && one(instr, 25) && one(instr, 24)
            && one(instr, 23) && one(instr, 21) && one(instr, 20) && !one(instr, 17)
            && one(instr, 16) && !one(instr, 11) && !one(instr, 9) && !one(instr, 8)
            && one(instr, 7) && !one(instr, 4)),
        (instr & 0xFFB3_0B90 == 0xF3B1_0100) <==> (one(instr, 31) && one(instr, 30)
            && one(instr, 29) && one(instr, 28)
            && !one(instr, 27) && !one(instr, 26) && one(instr, 25) && one(instr, 24)
            && one(instr, 23) && one(instr, 21) && one(instr, 20) && !one(instr, 17)
            && one(instr, 16) && !one(instr, 11) && !one(instr, 9) && one(instr, 8)
            && !one(instr, 7) && !one(instr, 4)),
        (instr & 0xFFB3_0B90 == 0xF3B1_0180) <==> (one(instr, 31) && one(instr, 30)
            && one(instr, 29) && one(instr, 28)
            && !one(instr, 27) && !one(instr, 26) && one(instr, 25) && one(instr, 24)
            && one(instr, 23) && one(instr, 21) && one(instr, 20) && !one(instr, 17)
            && one(instr, 16) && !one(instr, 11) && !one(instr, 9) && one(instr, 8)
            && one(instr, 7) && !one(instr, 4)),
        (instr & 0xFFB3_0B90 == 0xF3B1_0200) <==> (one(instr, 31) && one(instr, 30)
            && one(instr, 29) && one(instr, 28)
            && !one(instr, 27) && !one(instr, 26) && one(instr, 25) && one(instr, 24)
            && one(instr, 23) && one(instr, 21) && one(instr, 20) && !one(instr, 17)
            && one(instr, 16) && !one(instr, 11) && one(instr, 9) && !one(instr, 8)
            && !one(instr, 7) && !one(instr, 4)),
        (instr & 0xFFB3_0E90 == 0xF3B3_0400) <==> (one(instr, 31) && one(instr, 30)
            && one(instr, 29) && one(instr, 28)
            && !one(instr, 27) && !one(instr, 26) && one(instr, 25) && one(instr, 24)
            && one(instr, 23) && one(instr, 21) && one(instr, 20) && one(instr, 17)
            && one(instr, 16) && !one(instr, 11) && one(instr, 10) && !one(instr, 9)
            && !one(instr, 7) && !one(instr, 4)),
        (instr & 0xFFB3_0E90 == 0xF3B3_0480) <==> (one(instr, 31) && one(instr, 30)
            && one(instr, 29) && one(instr, 28)
            && !one(instr, 27) && !one(instr, 26) && one(instr, 25) && one(instr, 24)
            && one(instr, 23) && one(instr, 21) && one(instr, 20) && one(instr, 17)
            && one(instr, 16) && !one(instr, 11) && one(instr, 10) && !one(instr, 9)
            && one(instr, 7) && !one(instr, 4)),
        (instr & 0xFE80_0A50 == 0xF280_0040) <==> (one(instr, 31) && one(instr, 30)
            && one(instr, 29) && one(instr, 28)
            && !one(instr, 27) && !one(instr, 26) && one(instr, 25) && one(instr, 23)
            && !one(instr, 11) && !one(instr, 9) && one(instr, 6) && !one(instr, 4)),
        (instr & 0xFE80_0E50 == 0xF280_0840) <==> (one(instr, 31) && one(instr, 30)
            && one(instr, 29) && one(instr, 28)
            && !one(instr, 27) && !one(instr, 26) && one(instr, 25) && one(instr, 23)
            && one(instr, 11) && !one(instr, 10) && !one(instr, 9) && one(instr, 6)
            && !one(instr, 4)),
        (instr & 0xFFB0_0F90 == 0xF3B0_0C00) <==> (one(instr, 31) && one(instr, 30)
            && one(instr, 29) && one(instr, 28)
            && !one(instr, 27) && !one(instr, 26) && one(instr, 25) && one(instr, 24)
            && one(instr, 23) && one(instr, 21) && one(instr, 20) && one(instr, 11)
            && one(instr, 10) && !one(instr, 9) && !one(instr, 8) && !one(instr, 7)
            && !one(instr, 4)),
        (instr & 0xFFB3_0F90 == 0xF3B1_0780) <==> (one(instr, 31) && one(instr, 30)
            && one(instr, 29) && one(instr, 28)
            && !one(instr, 27) && !one(instr, 26) && one(instr, 25) && one(instr, 24)
            && one(instr, 23) && one(instr, 21) && one(instr, 20) && !one(instr, 17)
            && one(instr, 16) && !one(instr, 11) && one(instr, 10) && one(instr, 9)
            && one(instr, 8) && one(instr, 7) && !one(instr, 4)),
        (instr & 0xFFB3_0F90 == 0xF3B1_0380) <==> (one(instr, 31) && one(instr, 30)
            && one(instr, 29) && one(instr, 28)
            && !one(instr, 27) && !one(instr, 26) && one(instr, 25) && one(instr, 24)
            && one(instr, 23) && one(instr, 21) && one(instr, 20) && !one(instr, 17)
            && one(instr, 16) && !one(instr, 11) && !one(instr, 10) && one(instr, 9)
            && one(instr, 8) && one(instr, 7) && !one(instr, 4)),
        (instr & 0xFFB3_0F90 == 0xF3B1_0700) <==> (one(instr, 31) && one(instr, 30)
            && one(instr, 29) && one(instr, 28)
            && !one(instr, 27) && !one(instr, 26) && one(instr, 25) && one(instr, 24)
            && one(instr, 23) && one(instr, 21) && one(instr, 20) && !one(instr, 17)
            && one(instr, 16) && !one(instr, 11) && one(instr, 10) && one(instr, 9)
            && one(instr, 8) && !one(instr, 7) && !one(instr, 4)),
        (instr & 0xFFB3_0F90 == 0xF3B1_0300) <==> (one(instr, 31) && one(instr, 30)
            && one(instr, 29) && one(instr, 28)
            && !one(instr, 27) && !one(instr, 26) && one(instr, 25) && one(instr, 24)
            && one(instr, 23) && one(instr, 21) && one(instr, 20) && !one(instr, 17)
            && one(instr, 16) && !one(instr, 11) && !one(instr, 10) && one(instr, 9)
            && one(instr, 8) && !one(instr, 7) && !one(instr, 4)),
        (instr & 0xFFB3_0E10 == 0xF3B3_0600) <==> (one(instr, 31) && one(instr, 30)
            && one(instr, 29) && one(instr, 28)
            && !one(instr, 27) && !one(instr, 26) && one(instr, 25) && one(instr, 24)
            && one(instr, 23) && one(instr, 21) && one(instr, 20) && one(instr, 17)
            && one(instr, 16) && !one(instr, 11) && one(instr, 10) && one(instr, 9)
            && !one(instr, 4)),
        (instr & 0x0FF0_0000 == 0x0C40_0000) <==> (one(instr, 27) && one(instr, 26)
            && !one(instr, 25) && !one(instr, 24)
            && !one(instr, 23) && one(instr, 22) && !one(instr, 21) && !one(instr, 20)),
        (instr & 0x0FF0_0000 == 0x0C50_0000) <==> (one(instr, 27) && one(instr, 26)
            && !one(instr, 25) && !one(instr, 24)
            && !one(instr, 23) && one(instr, 22) && !one(instr, 21) && one(instr, 20)),
        (instr & 0x0F10_0010 == 0x0E00_0010) <==> (one(instr, 27) && one(instr, 26)
            && one(instr, 25) && !one(instr, 24)
            && !one(instr, 20) && one(instr, 4)),
        (instr & 0x0F10_0010 == 0x0E10_0010) <==> (one(instr, 27) && one(instr, 26)
            && one(instr, 25) && !one(instr, 24)
            && one(instr, 20) && one(instr, 4)),
        (instr & 0x0F00_0010 == 0x0E00_0000) <==> (one(instr, 27) && one(instr, 26)
            && one(instr, 25) && !one(instr, 24)
            && !one(instr, 4)),
        (instr & 0x0E10_0000 == 0x0C10_0000) <==> (one(instr, 27) && one(instr, 26)
            && !one(instr, 25) && one(instr, 20)),
        (instr & 0x0E10_0000 == 0x0C00_0000) <==> (one(instr, 27) && one(instr, 26)
            && !one(instr, 25) && !one(instr, 20)),
        (instr & 0xFFFF_FFF0 == 0xF57F_F040) <==> (one(instr, 31) && one(instr, 30)
            && one(instr, 29) && one(instr, 28)
            && !one(instr, 27) && one(instr, 26) && !one(instr, 25) && one(instr, 24)
            && !one(instr, 23) && one(instr, 22) && one(instr, 21) && one(instr, 20)
            && one(instr, 19) && one(instr, 18) && one(instr, 17) && one(instr, 16)
            && one(instr, 15) && one(instr, 14) && one(instr, 13) && one(instr, 12)
            && !one(instr, 11) && !one(instr, 10) && !one(instr, 9) && !one(instr, 8)
            && !one(instr, 7) && one(instr, 6) && !one(instr, 5) && !one(instr, 4)),
        (instr & 0xFFFF_FFF0 == 0xF57F_F050) <==> (one(instr, 31) && one(instr, 30)
            && one(instr, 29) && one(instr, 28)
            && !one(instr, 27) && one(instr, 26) && !one(instr, 25) && one(instr, 24)
            && !one(instr, 23) && one(instr, 22) && one(instr, 21) && one(instr, 20)
            && one(instr, 19) && one(instr, 18) && one(instr, 17) && one(instr, 16)
            && one(instr, 15) && one(instr, 14) && one(instr, 13) && one(instr, 12)
            && !one(instr, 11) && !one(instr, 10) && !one(instr, 9) && !one(instr, 8)
            && !one(instr, 7) && one(instr, 6) && !one(instr, 5) && one(instr, 4)),
        (instr & 0xFFFF_FFF0 == 0xF57F_F060) <==> (one(instr, 31) && one(instr, 30)
            && one(instr, 29) && one(instr, 28)
            && !one(instr, 27) && one(instr, 26) && !one(instr, 25) && one(instr, 24)
            && !one(instr, 23) && one(instr, 22) && one(instr, 21) && one(instr, 20)
            && one(instr, 19) && one(instr, 18) && one(instr, 17) && one(instr, 16)
            && one(instr, 15) && one(instr, 14) && one(instr, 13) && one(instr, 12)
            && !one(instr, 11) && !one(instr, 10) && !one(instr, 9) && !one(instr, 8)
            && !one(instr, 7) && one(instr, 6) && one(instr, 5) && !one(instr, 4)),
        (instr & 0xFF30_F000 == 0xF510_F000) <==> (one(instr, 31) && one(instr, 30)
            && one(instr, 29) && one(instr, 28)
            && !one(instr, 27) && one(instr, 26) && !one(instr, 25) && one(instr, 24)
            && !one(instr, 21) && one(instr, 20) && one(instr, 15) && one(instr, 14)
            && one(instr, 13) && one(instr, 12)),
        (instr & 0xFF30_F010 == 0xF710_F000) <==> (one(instr, 31) && one(instr, 30)
            && one(instr, 29) && one(instr, 28)
            && !one(instr, 27) && one(instr, 26) && one(instr, 25) && one(instr, 24)
            && !one(instr, 21) && one(instr, 20) && one(instr, 15) && one(instr, 14)
            && one(instr, 13) && one(instr, 12) && !one(instr, 4)),
        (instr & 0xFE00_0000 == 0xFA00_0000) <==> (one(instr, 31) && one(instr, 30)
            && one(instr, 29) && one(instr, 28)
            && one(instr, 27) && !one(instr, 26) && one(instr, 25)),
        (instr & 0xFFFF_FFFF == 0xF57F_F01F) <==> (one(instr, 31) && one(instr, 30)
            && one(instr, 29) && one(instr, 28)
            && !one(instr, 27) && one(instr, 26) && !one(instr, 25) && one(instr, 24)
            && !one(instr, 23) && one(instr, 22) && one(instr, 21) && one(instr, 20)
            && one(instr, 19) && one(instr, 18) && one(instr, 17) && one(instr, 16)
            && one(instr, 15) && one(instr, 14) && one(instr, 13) && one(instr, 12)
            && !one(instr, 11) && !one(instr, 10) && !one(instr, 9) && !one(instr, 8)
            && !one(instr, 7) && !one(instr, 6) && !one(instr, 5) && one(instr, 4)
            && one(instr, 3) && one(instr, 2) && one(instr, 1) && one(instr, 0)),
        (instr & 0xFEB0_0F50 == 0xF280_0500) <==> (one(instr, 31) && one(instr, 30)
            && one(instr, 29) && one(instr, 28)
            && !one(instr, 27) && !one(instr, 26) && one(instr, 25) && one(instr, 23)
            && !one(instr, 21) && !one(instr, 20) && !one(instr, 11) && one(instr, 10)
            && !one(instr, 9) && one(instr, 8) && !one(instr, 6) && !one(instr, 4)),
        (instr & 0xFEB0_0F50 == 0xF290_0500) <==> (one(instr, 31) && one(instr, 30)
            && one(instr, 29) && one(instr, 28)
            && !one(instr, 27) && !one(instr, 26) && one(instr, 25) && one(instr, 23)
            && !one(instr, 21) && one(instr, 20) && !one(instr, 11) && one(instr, 10)
            && !one(instr, 9) && one(instr, 8) && !one(instr, 6) && !one(instr, 4)),
        (instr & 0xFEB0_0F50 == 0xF2A0_0500) <==> (one(instr, 31) && one(instr, 30)
            && one(instr, 29) && one(instr, 28)
            && !one(instr, 27) && !one(instr, 26) && one(instr, 25) && one(instr, 23)
            && one(instr, 21) && !one(instr, 20) && !one(instr, 11) && one(instr, 10)
            && !one(instr, 9) && one(instr, 8) && !one(instr, 6) && !one(instr, 4)),
        (instr & 0xFEB0_0F50 == 0xF280_0700) <==> (one(instr, 31) && one(instr, 30)
            && one(instr, 29) && one(instr, 28)
            && !one(instr, 27) && !one(instr, 26) && one(instr, 25) && one(instr, 23)
            && !one(instr, 21) && !one(instr, 20) && !one(instr, 11) && one(instr, 10)
            && one(instr, 9) && one(instr, 8) && !one(instr, 6) && !one(instr, 4)),
        (instr & 0xFEB0_0F50 == 0xF290_0700) <==> (one(instr, 31) && one(instr, 30)
            && one(instr, 29) && one(instr, 28)
            && !one(instr, 27) && !one(instr, 26) && one(instr, 25) && one(instr, 23)
            && !one(instr, 21) && one(instr, 20) && !one(instr, 11) && one(instr, 10)
            && one(instr, 9) && one(instr, 8) && !one(instr, 6) && !one(instr, 4)),
        (instr & 0xFEB0_0F50 == 0xF2A0_0700) <==> (one(instr, 31) && one(instr, 30)
            && one(instr, 29) && one(instr, 28)
            && !one(instr, 27) && !one(instr, 26) && one(instr, 25) && one(instr, 23)
            && one(instr, 21) && !one(instr, 20) && !one(instr, 11) && one(instr, 10)
            && one(instr, 9) && one(instr, 8) && !one(instr, 6) && !one(instr, 4)),
        (instr & 0xFEB0_0E50 == 0xF280_0000) <==> (one(instr, 31) && one(instr, 30)
            && one(instr, 29) && one(instr, 28)
            && !one(instr, 27) && !one(instr, 26) && one(instr, 25) && one(instr, 23)
            && !one(instr, 21) && !one(instr, 20) && !one(instr, 11) && !one(instr, 10)
            && !one(instr, 9) && !one(instr, 6) && !one(instr, 4)),
        (instr & 0xFEB0_0E50 == 0xF290_0000) <==> (one(instr, 31) && one(instr, 30)
            && one(instr, 29) && one(instr, 28)
            && !one(instr, 27) && !one(instr, 26) && one(instr, 25) && one(instr, 23)
            && !one(instr, 21) && one(instr, 20) && !one(instr, 11) && !one(instr, 10)
            && !one(instr, 9) && !one(instr, 6) && !one(instr, 4)),
        (instr & 0xFEB0_0E50 == 0xF2A0_0000) <==> (one(instr, 31) && one(instr, 30)
            && one(instr, 29) && one(instr, 28)
            && !one(instr, 27) && !one(instr, 26) && one(instr, 25) && one(instr, 23)
            && one(instr, 21) && !one(instr, 20) && !one(instr, 11) && !one(instr, 10)
            && !one(instr, 9) && !one(instr, 6) && !one(instr, 4)),
        (instr & 0xFEB0_0E50 == 0xF280_0200) <==> (one(instr, 31) && one(instr, 30)
            && one(instr, 29) && one(instr, 28)
            && !one(instr, 27) && !one(instr, 26) && one(instr, 25) && one(instr, 23)
            && !one(instr, 21) && !one(instr, 20) && !one(instr, 11) && !one(instr, 10)
            && one(instr, 9) && !one(instr, 6) && !one(instr, 4)),
        (instr & 0xFEB0_0E50 == 0xF290_0200) <==> (one(instr, 31) && one(instr, 30)
            && one(instr, 29) && one(instr, 28)
            && !one(instr, 27) && !one(instr, 26) && one(instr, 25) && one(instr, 23)
            && !one(instr, 21) && one(instr, 20) && !one(instr, 11) && !one(instr, 10)
            && one(instr, 9) && !one(instr, 6) && !one(instr, 4)),
        (instr & 0xFEB0_0E50 == 0xF2A0_0200) <==> (one(instr, 31) && one(instr, 30)
            && one(instr, 29) && one(instr, 28)
            && !one(instr, 27) && !one(instr, 26) && one(instr, 25) && one(instr, 23)
            && one(instr, 21) && !one(instr, 20) && !one(instr, 11) && !one(instr, 10)
            && one(instr, 9) && !one(instr, 6) && !one(instr, 4)),
        (instr & 0xFEB0_0D50 == 0xF280_0800) <==> (one(instr, 31) && one(instr, 30)
            && one(instr, 29) && one(instr, 28)
            && !one(instr, 27) && !one(instr, 26) && one(instr, 25) && one(instr, 23)
            && !one(instr, 21) && !one(instr, 20) && one(instr, 11) && !one(instr, 10)
            && !one(instr, 8) && !one(instr, 6) && !one(instr, 4)),
        (instr & 0xFEB0_0D50 == 0xF290_0800) <==> (one(instr, 31) && one(instr, 30)
            && one(instr, 29) && one(instr, 28)
            && !one(instr, 27) && !one(instr, 26) && one(instr, 25) && one(instr, 23)
            && !one(instr, 21) && one(instr, 20) && one(instr, 11) && !one(instr, 10)
            && !one(instr, 8) && !one(instr, 6) && !one(instr, 4)),
        (instr & 0xFEB0_0D50 == 0xF2A0_0800) <==> (one(instr, 31) && one(instr, 30)
            && one(instr, 29) && one(instr, 28)
            && !one(instr, 27) && !one(instr, 26) && one(instr, 25) && one(instr, 23)
            && one(instr, 21) && !one(instr, 20) && one(instr, 11) && !one(instr, 10)
            && !one(instr, 8) && !one(instr, 6) && !one(instr, 4)),
        (instr & 0xFEB0_0D50 == 0xF280_0C00) <==> (one(instr, 31) && one(instr, 30)
            && one(instr, 29) && one(instr, 28)
            && !one(instr, 27) && !one(instr, 26) && one(instr, 25) && one(instr, 23)
            && !one(instr, 21) && !one(instr, 20) && one(instr, 11) && one(instr, 10)
            && !one(instr, 8) && !one(instr, 6) && !one(instr, 4)),
        (instr & 0xFEB0_0D50 == 0xF290_0C00) <==> (one(instr, 31) && one(instr, 30)
            && one(instr, 29) && one(instr, 28)
            && !one(instr, 27) && !one(instr, 26) && one(instr, 25) && one(instr, 23)
            && !one(instr, 21) && one(instr, 20) && one(instr, 11) && one(instr, 10)
            && !one(instr, 8) && !one(instr, 6) && !one(instr, 4)),
        (instr & 0xFEB0_0D50 == 0xF2A0_0C00) <==> (one(instr, 31) && one(instr, 30)
            && one(instr, 29) && one(instr, 28)
            && !one(instr, 27) && !one(instr, 26) && one(instr, 25) && one(instr, 23)
            && one(instr, 21) && !one(instr, 20) && one(instr, 11) && one(instr, 10)
            && !one(instr, 8) && !one(instr, 6) && !one(instr, 4)),
        (instr & 0x0FFF_FFF0 == 0x0320_F000) <==> (!one(instr, 27) && !one(instr, 26)
            && one(instr, 25) && one(instr, 24)
            && !one(instr, 23) && !one(instr, 22) && one(instr, 21) && !one(instr, 20)
            && !one(instr, 19) && !one(instr, 18) && !one(instr, 17) && !one(instr, 16)
            && one(instr, 15) && one(instr, 14) && one(instr, 13) && one(instr, 12)
            && !one(instr, 11) && !one(instr, 10) && !one(instr, 9) && !one(instr, 8)
            && !one(instr, 7) && !one(instr, 6) && !one(instr, 5) && !one(instr, 4)),
        (instr & 0x0F90_0FF0 == 0x0100_0040) <==> (!one(instr, 27) && !one(instr, 26)
            && !one(instr, 25) && one(instr, 24)
            && !one(instr, 23) && !one(instr, 20) && !one(instr, 11) && !one(instr, 10)
            && !one(instr, 9) && !one(instr, 8) && !one(instr, 7) && one(instr, 6)
            && !one(instr, 5) && !one(instr, 4)),
        (instr & 0x0F90_0FF0 == 0x0100_0240) <==> (!one(instr, 27) && !one(instr, 26)
            && !one(instr, 25) && one(instr, 24)
            && !one(instr, 23) && !one(instr, 20) && !one(instr, 11) && !one(instr, 10)
            && one(instr, 9) && !one(instr, 8) && !one(instr, 7) && one(instr, 6)
            && !one(instr, 5) && !one(instr, 4)),
        (instr & 0xFFF0_0000 == 0xFC40_0000) <==> (one(instr, 31) && one(instr, 30)
            && one(instr, 29) && one(instr, 28)
            && one(instr, 27) && one(instr, 26) && !one(instr, 25) && !one(instr, 24)
            && !one(instr, 23) && one(instr, 22) && !one(instr, 21) && !one(instr, 20)),
        (instr & 0xFFF0_0000 == 0xFC50_0000) <==> (one(instr, 31) && one(instr, 30)
            && one(instr, 29) && one(instr, 28)
            && one(instr, 27) && one(instr, 26) && !one(instr, 25) && !one(instr, 24)
            && !one(instr, 23) && one(instr, 22) && !one(instr, 21) && one(instr, 20)),
        (instr & 0xFF10_0010 == 0xFE00_0010) <==> (one(instr, 31) && one(instr, 30)
            && one(instr, 29) && one(instr, 28)
            && one(instr, 27) && one(instr, 26) && one(instr, 25) && !one(instr, 24)
            && !one(instr, 20) && one(instr, 4)),
        (instr & 0xFF10_0010 == 0xFE10_0010) <==> (one(instr, 31) && one(instr, 30)
            && one(instr, 29) && one(instr, 28)
            && one(instr, 27) && one(instr, 26) && one(instr, 25) && !one(instr, 24)
            && one(instr, 20) && one(instr, 4)),
        (instr & 0xFF00_0010 == 0xFE00_0000) <==> (one(instr, 31) && one(instr, 30)
            && one(instr, 29) && one(instr, 28)
            && one(instr, 27) && one(instr, 26) && one(instr, 25) && !one(instr, 24)
            && !one(instr, 4)),
        (instr & 0xFE10_0000 == 0xFC10_0000) <==> (one(instr, 31) && one(instr, 30)
            && one(instr, 29) && one(instr, 28)
            && one(instr, 27) && one(instr, 26) && !one(instr, 25) && one(instr, 20)),
        (instr & 0xFE10_0000 == 0xFC00_0000) <==> (one(instr, 31) && one(instr, 30)
            && one(instr, 29) && one(instr, 28)
            && one(instr, 27) && one(instr, 26) && !one(instr, 25) && !one(instr, 20)),
        ((instr >> 20) & 3 == 3) <==> (one(instr, 21) && one(instr, 20)),
        ((instr >> 28) & 0xF == 0xF) <==> (one(instr, 31) && one(instr, 30) && one(instr, 29)
            && one(instr, 28)),
{
    assert({
        &&& (instr & 0xFF90_0F00 == 0xF400_0B00) <==> (one(instr, 31) && one(instr, 30)
            && one(instr, 29) && one(instr, 28)
            && !one(instr, 27) && one(instr, 26) && !one(instr, 25) && !one(instr, 24)
            && !one(instr, 23) && !one(instr, 20) && one(instr, 11) && !one(instr, 10)
            && one(instr, 9) && one(instr, 8))
        &&& (instr & 0xFF90_0C00 == 0xF400_0C00) <==> (one(instr, 31) && one(instr, 30)
            && one(instr, 29) && one(instr, 28)
            && !one(instr, 27) && one(instr, 26) && !one(instr, 25) && !one(instr, 24)
            && !one(instr, 23) && !one(instr, 20) && one(instr, 11) && one(instr, 10))
        &&& (instr & 0xFFB0_0C00 == 0xF480_0C00) <==> (one(instr, 31) && one(instr, 30)
            && one(instr, 29) && one(instr, 28)
            && !one(instr, 27) && one(instr, 26) && !one(instr, 25) && !one(instr, 24)
            && one(instr, 23) && !one(instr, 21) && !one(instr, 20) && one(instr, 11)
            && one(instr, 10))
        &&& (instr & 0xFFB0_0000 == 0xF400_0000) <==> (one(instr, 31) && one(instr, 30)
            && one(instr, 29) && one(instr, 28)
            && !one(instr, 27) && one(instr, 26) && !one(instr, 25) && !one(instr, 24)
            && !one(instr, 23) && !one(instr, 21) && !one(instr, 20))
        &&& (instr & 0xFFB0_0000 == 0xF420_0000) <==> (one(instr, 31) && one(instr, 30)
            && one(instr, 29) && one(instr, 28)
            && !one(instr, 27) && one(instr, 26) && !one(instr, 25) && !one(instr, 24)
            && !one(instr, 23) && one(instr, 21) && !one(instr, 20))
        &&& (instr & 0xFFB0_0000 == 0xF480_0000) <==> (one(instr, 31) && one(instr, 30)
            && one(instr, 29) && one(instr, 28)
            && !one(instr, 27) && one(instr, 26) && !one(instr, 25) && !one(instr, 24)
            && one(instr, 23) && !one(instr, 21) && !one(instr, 20))
        &&& (instr & 0xFFB0_0C00 == 0xF4A0_0C00) <==> (one(instr, 31) && one(instr, 30)
            && one(instr, 29) && one(instr, 28)
            && !one(instr, 27) && one(instr, 26) && !one(instr, 25) && !one(instr, 24)
            && one(instr, 23) && one(instr, 21) && !one(instr, 20) && one(instr, 11)
            && one(instr, 10))
        &&& (instr & 0xFFB0_0000 == 0xF4A0_0000) <==> (one(instr, 31) && one(instr, 30)
            && one(instr, 29) && one(instr, 28)
            && !one(instr, 27) && one(instr, 26) && !one(instr, 25) && !one(instr, 24)
            && one(instr, 23) && one(instr, 21) && !one(instr, 20))
        &&& (instr & 0xFF80_0E50 == 0xFE00_0A00) <==> (one(instr, 31) && one(instr, 30)
            && one(instr, 29) && one(instr, 28)
            && one(instr, 27) && one(instr, 26) && one(instr, 25) && !one(instr, 24)
            && !one(instr, 23) && one(instr, 11) && !one(instr, 10) && one(instr, 9)
            && !one(instr, 6) && !one(instr, 4))
        &&& (instr & 0xFFB0_0E50 == 0xFE80_0A00) <==> (one(instr, 31) && one(instr, 30)
            && one(instr, 29) && one(instr, 28)
            && one(instr, 27) && one(instr, 26) && one(instr, 25) && !one(instr, 24)
            && one(instr, 23) && !one(instr, 21) && !one(instr, 20) && one(instr, 11)
            && !one(instr, 10) && one(instr, 9) && !one(instr, 6) && !one(instr, 4))
        &&& (instr & 0xFFB0_0E50 == 0xFE80_0A40) <==> (one(instr, 31) && one(instr, 30)
            && one(instr, 29) && one(instr, 28)
            && one(instr, 27) && one(instr, 26) && one(instr, 25) && !one(instr, 24)
            && one(instr, 23) && !one(instr, 21) && !one(instr, 20) && one(instr, 11)
            && !one(instr, 10) && one(instr, 9) && one(instr, 6) && !one(instr, 4))
        &&& (instr & 0xFFBC_0E10 == 0xFEBC_0A00) <==> (one(instr, 31) && one(instr, 30)
            && one(instr, 29) && one(instr, 28)
            && one(instr, 27) && one(instr, 26) && one(instr, 25) && !one(instr, 24)
            && one(instr, 23) && one(instr, 21) && one(instr, 20) && one(instr, 19)
            && one(instr, 18) && one(instr, 11) && !one(instr, 10) && one(instr, 9)
            && !one(instr, 4))
        &&& (instr & 0xFFBC_0ED0 == 0xFEB8_0A40) <==> (one(instr, 31) && one(instr, 30)
            && one(instr, 29) && one(instr, 28)
            && one(instr, 27) && one(instr, 26) && one(instr, 25) && !one(instr, 24)
            && one(instr, 23) && one(instr, 21) && one(instr, 20) && one(instr, 19)
            && !one(instr, 18) && one(instr, 11) && !one(instr, 10) && one(instr, 9)
            && !one(instr, 7) && one(instr, 6) && !one(instr, 4))
        &&& (instr & 0xFFB0_0010 == 0xF2B0_0000) <==> (one(instr, 31) && one(instr, 30)
            && one(instr, 29) && one(instr, 28)
            && !one(instr, 27) && !one(instr, 26) && one(instr, 25) && !one(instr, 24)
            && one(instr, 23) && one(instr, 21) && one(instr, 20) && !one(instr, 4))
        &&& (instr & 0xFFB0_0C50 == 0xF3B0_0800) <==> (one(instr, 31) && one(instr, 30)
            && one(instr, 29) && one(instr, 28)
            && !one(instr, 27) && !one(instr, 26) && one(instr, 25) && one(instr, 24)
            && one(instr, 23) && one(instr, 21) && one(instr, 20) && one(instr, 11)
            && !one(instr, 10) && !one(instr, 6) && !one(instr, 4))
        &&& (instr & 0xFFB0_0C50 == 0xF3B0_0840) <==> (one(instr, 31) && one(instr, 30)
            && one(instr, 29) && one(instr, 28)
            && !one(instr, 27) && !one(instr, 26) && one(instr, 25) && one(instr, 24)
            && one(instr, 23) && one(instr, 21) && one(instr, 20) && one(instr, 11)
            && !one(instr, 10) && one(instr, 6) && !one(instr, 4))
        &&& (instr & 0xFEB8_0090 == 0xF280_0010) <==> (one(instr, 31) && one(instr, 30)
            && one(instr, 29) && one(instr, 28)
            && !one(instr, 27) && !one(instr, 26) && one(instr, 25) && one(instr, 23)
            && !one(instr, 21) && !one(instr, 20) && !one(instr, 19) && !one(instr, 7)
            && one(instr, 4))
        &&& (instr & 0xFF80_0FD0 == 0xF280_0810) <==> (one(instr, 31) && one(instr, 30)
            && one(instr, 29) && one(instr, 28)
            && !one(instr, 27) && !one(instr, 26) && one(instr, 25) && !one(instr, 24)
            && one(instr, 23) && one(instr, 11) && !one(instr, 10) && !one(instr, 9)
            && !one(instr, 8) && !one(instr, 7) && !one(instr, 6) && one(instr, 4))
        &&& (instr & 0xFE80_0F10 == 0xF280_0010) <==> (one(instr, 31) && one(instr, 30)
            && one(instr, 29) && one(instr, 28)
            && !one(instr, 27) && !one(instr, 26) && one(instr, 25) && one(instr, 23)
            && !one(instr, 11) && !one(instr, 10) && !one(instr, 9) && !one(instr, 8)
            && one(instr, 4))
        &&& (instr & 0xFE80_0F10 == 0xF280_0110) <==> (one(instr, 31) && one(instr, 30)
            && one(instr, 29) && one(instr, 28)
            && !one(instr, 27) && !one(instr, 26) && one(instr, 25) && one(instr, 23)
            && !one(instr, 11) && !one(instr, 10) && !one(instr, 9) && one(instr, 8)
            && one(instr, 4))
        &&& (instr & 0xFF80_0F10 == 0xF380_0410) <==> (one(instr, 31) && one(instr, 30)
            && one(instr, 29) && one(instr, 28)
            && !one(instr, 27) && !one(instr, 26) && one(instr, 25) && one(instr, 24)
            && one(instr, 23) && !one(instr, 11) && one(instr, 10) && !one(instr, 9)
            && !one(instr, 8) && one(instr, 4))
        &&& (instr & 0xFF80_0F10 == 0xF280_0510) <==> (one(instr, 31) && one(instr, 30)
            && one(instr, 29) && one(instr, 28)
            && !one(instr, 27) && !one(instr, 26) && one(instr, 25) && !one(instr, 24)
            && one(instr, 23) && !one(instr, 11) && one(instr, 10) && !one(instr, 9)
            && one(instr, 8) && one(instr, 4))
        &&& (instr & 0xFF80_0F10 == 0xF380_0510) <==> (one(instr, 31) && one(instr, 30)
            && one(instr, 29) && one(instr, 28)
            && !one(instr, 27) && !one(instr, 26) && one(instr, 25) && one(instr, 24)
            && one(instr, 23) && !one(instr, 11) && one(instr, 10) && !one(instr, 9)
            && one(instr, 8) && one(instr, 4))
        &&& (instr & 0xFE80_0E10 == 0xF280_0610) <==> (one(instr, 31) && one(instr, 30)
            && one(instr, 29) && one(instr, 28)
            && !one(instr, 27) && !one(instr, 26) && one(instr, 25) && one(instr, 23)
            && !one(instr, 11) && one(instr, 10) && one(instr, 9) && one(instr, 4))
        &&& (instr & 0xFE80_0F10 == 0xF200_0000) <==> (one(instr, 31) && one(instr, 30)
            && one(instr, 29) && one(instr, 28)
            && !one(instr, 27) && !one(instr, 26) && one(instr, 25) && !one(instr, 23)
            && !one(instr, 11) && !one(instr, 10) && !one(instr, 9) && !one(instr, 8)
            && !one(instr, 4))
        &&& (instr & 0xFE80_0F10 == 0xF200_0010) <==> (one(instr, 31) && one(instr, 30)
            && one(instr, 29) && one(instr, 28)
            && !one(instr, 27) && !one(instr, 26) && one(instr, 25) && !one(instr, 23)
            && !one(instr, 11) && !one(instr, 10) && !one(instr, 9) && !one(instr, 8)
            && one(instr, 4))
        &&& (instr & 0xFFB0_0F10 == 0xF200_0110) <==> (one(instr, 31) && one(instr, 30)
            && one(instr, 29) && one(instr, 28)
            && !one(instr, 27) && !one(instr, 26) && one(instr, 25) && !one(instr, 24)
            && !one(instr, 23) && !one(instr, 21) && !one(instr, 20) && !one(instr, 11)
            && !one(instr, 10) && !one(instr, 9) && one(instr, 8) && one(instr, 4))
        &&& (instr & 0xFFB0_0F10 == 0xF210_0110) <==> (one(instr, 31) && one(instr, 30)
            && one(instr, 29) && one(instr, 28)
            && !one(instr, 27) && !one(instr, 26) && one(instr, 25) && !one(instr, 24)
            && !one(instr, 23) && !one(instr, 21) && one(instr, 20) && !one(instr, 11)
            && !one(instr, 10) && !one(instr, 9) && one(instr, 8) && one(instr, 4))
        &&& (instr & 0xFFB0_0F10 == 0xF230_0110) <==> (one(instr, 31) && one(instr, 30)
            && one(instr, 29) && one(instr, 28)
            && !one(instr, 27) && !one(instr, 26) && one(instr, 25) && !one(instr, 24)
            && !one(instr, 23) && one(instr, 21) && one(instr, 20) && !one(instr, 11)
            && !one(instr, 10) && !one(instr, 9) && one(instr, 8) && one(instr, 4))
        &&& (instr & 0xFFB0_0F10 == 0xF300_0110) <==> (one(instr, 31) && one(instr, 30)
            && one(instr, 29) && one(instr, 28)
            && !one(instr, 27) && !one(instr, 26) && one(instr, 25) && one(instr, 24)
            && !one(instr, 23) && !one(instr, 21) && !one(instr, 20) && !one(instr, 11)
            && !one(instr, 10) && !one(instr, 9) && one(instr, 8) && one(instr, 4))
        &&& (instr & 0xFFB0_0F10 == 0xF320_0110) <==> (one(instr, 31) && one(instr, 30)
            && one(instr, 29) && one(instr, 28)
            && !one(instr, 27) && !one(instr, 26) && one(instr, 25) && one(instr, 24)
            && !one(instr, 23) && one(instr, 21) && !one(instr, 20) && !one(instr, 11)
            && !one(instr, 10) && !one(instr, 9) && one(instr, 8) && one(instr, 4))
        &&& (instr & 0xFFB0_0F10 == 0xF330_0110) <==> (one(instr, 31) && one(instr, 30)
            && one(instr, 29) && one(instr, 28)
            && !one(instr, 27) && !one(instr, 26) && one(instr, 25) && one(instr, 24)
            && !one(instr, 23) && one(instr, 21) && one(instr, 20) && !one(instr, 11)
            && !one(instr, 10) && !one(instr, 9) && one(instr, 8) && one(instr, 4))
        &&& (instr & 0xFE80_0F10 == 0xF200_0200) <==> (one(instr, 31) && one(instr, 30)
            && one(instr, 29) && one(instr, 28)
            && !one(instr, 27) && !one(instr, 26) && one(instr, 25) && !one(instr, 23)
            && !one(instr, 11) && !one(instr, 10) && one(instr, 9) && !one(instr, 8)
            && !one(instr, 4))
        &&& (instr & 0xFE80_0F10 == 0xF200_0210) <==> (one(instr, 31) && one(instr, 30)
            && one(instr, 29) && one(instr, 28)
            && !one(instr, 27) && !one(instr, 26) && one(instr, 25) && !one(instr, 23)
            && !one(instr, 11) && !one(instr, 10) && one(instr, 9) && !one(instr, 8)
            && one(instr, 4))
        &&& (instr & 0xFE80_0F10 == 0xF200_0300) <==> (one(instr, 31) && one(instr, 30)
            && one(instr, 29) && one(instr, 28)
            && !one(instr, 27) && !one(instr, 26) && one(instr, 25) && !one(instr, 23)
            && !one(instr, 11) && !one(instr, 10) && one(instr, 9) && one(instr, 8)
            && !one(instr, 4))
        &&& (instr & 0xFE80_0F10 == 0xF200_0310) <==> (one(instr, 31) && one(instr, 30)
            && one(instr, 29) && one(instr, 28)
            && !one(instr, 27) && !one(instr, 26) && one(instr, 25) && !one(instr, 23)
            && !one(instr, 11) && !one(instr, 10) && one(instr, 9) && one(instr, 8)
            && one(instr, 4))
        &&& (instr & 0xFE80_0F10 == 0xF200_0400) <==> (one(instr, 31) && one(instr, 30)
            && one(instr, 29) && one(instr, 28)
            && !one(instr, 27) && !one(instr, 26) && one(instr, 25) && !one(instr, 23)
            && !one(instr, 11) && one(instr, 10) && !one(instr, 9) && !one(instr, 8)
            && !one(instr, 4))
        &&& (instr & 0xFE80_0F10 == 0xF200_0410) <==> (one(instr, 31) && one(instr, 30)
            && one(instr, 29) && one(instr, 28)
            && !one(instr, 27) && !one(instr, 26) && one(instr, 25) && !one(instr, 23)
            && !one(instr, 11) && one(instr, 10) && !one(instr, 9) && !one(instr, 8)
            && one(instr, 4))
        &&& (instr & 0xFE80_0F10 == 0xF200_0500) <==> (one(instr, 31) && one(instr, 30)
            && one(instr, 29) && one(instr, 28)
            && !one(instr, 27) && !one(instr, 26) && one(instr, 25) && !one(instr, 23)
            && !one(instr, 11) && one(instr, 10) && !one(instr, 9) && one(instr, 8)
            && !one(instr, 4))
        &&& (instr & 0xFE80_0F00 == 0xF200_0600) <==> (one(instr, 31) && one(instr, 30)
            && one(instr, 29) && one(instr, 28)
            && !one(instr, 27) && !one(instr, 26) && one(instr, 25) && !one(instr, 23)
            && !one(instr, 11) && one(instr, 10) && one(instr, 9) && !one(instr, 8))
        &&& (instr & 0xFE80_0F10 == 0xF200_0700) <==> (one(instr, 31) && one(instr, 30)
            && one(instr, 29) && one(instr, 28)
            && !one(instr, 27) && !one(instr, 26) && one(instr, 25) && !one(instr, 23)
            && !one(instr, 11) && one(instr, 10) && one(instr, 9) && one(instr, 8)
            && !one(instr, 4))
        &&& (instr & 0xFE80_0F10 == 0xF200_0710) <==> (one(instr, 31) && one(instr, 30)
            && one(instr, 29) && one(instr, 28)
            && !one(instr, 27) && !one(instr, 26) && one(instr, 25) && !one(instr, 23)
            && !one(instr, 11) && one(instr, 10) && one(instr, 9) && one(instr, 8)
            && one(instr, 4))
        &&& (instr & 0xFF80_0F10 == 0xF200_0800) <==> (one(instr, 31) && one(instr, 30)
            && one(instr, 29) && one(instr, 28)
            && !one(instr, 27) && !one(instr, 26) && one(instr, 25) && !one(instr, 24)
            && !one(instr, 23) && one(instr, 11) && !one(instr, 10) && !one(instr, 9)
            && !one(instr, 8) && !one(instr, 4))
        &&& (instr & 0xFF80_0F10 == 0xF300_0800) <==> (one(instr, 31) && one(instr, 30)
            && one(instr, 29) && one(instr, 28)
            && !one(instr, 27) && !one(instr, 26) && one(instr, 25) && one(instr, 24)
            && !one(instr, 23) && one(instr, 11) && !one(instr, 10) && !one(instr, 9)
            && !one(instr, 8) && !one(instr, 4))
        &&& (instr & 0xFF80_0F10 == 0xF200_0810) <==> (one(instr, 31) && one(instr, 30)
            && one(instr, 29) && one(instr, 28)
            && !one(instr, 27) && !one(instr, 26) && one(instr, 25) && !one(instr, 24)
            && !one(instr, 23) && one(instr, 11) && !one(instr, 10) && !one(instr, 9)
            && !one(instr, 8) && one(instr, 4))
        &&& (instr & 0xFF80_0F10 == 0xF300_0810) <==> (one(instr, 31) && one(instr, 30)
            && one(instr, 29) && one(instr, 28)
            && !one(instr, 27) && !one(instr, 26) && one(instr, 25) && one(instr, 24)
            && !one(instr, 23) && one(instr, 11) && !one(instr, 10) && !one(instr, 9)
            && !one(instr, 8) && one(instr, 4))
        &&& (instr & 0xFE80_0F10 == 0xF200_0900) <==> (one(instr, 31) && one(instr, 30)
            && one(instr, 29) && one(instr, 28)
            && !one(instr, 27) && !one(instr, 26) && one(instr, 25) && !one(instr, 23)
            && one(instr, 11) && !one(instr, 10) && !one(instr, 9) && one(instr, 8)
            && !one(instr, 4))
        &&& (instr & 0xFE80_0F10 == 0xF200_0910) <==> (one(instr, 31) && one(instr, 30)
            && one(instr, 29) && one(instr, 28)
            && !one(instr, 27) && !one(instr, 26) && one(instr, 25) && !one(instr, 23)
            && one(instr, 11) && !one(instr, 10) && !one(instr, 9) && one(instr, 8)
            && one(instr, 4))
        &&& (instr & 0xFE80_0F00 == 0xF200_0A00) <==> (one(instr, 31) && one(instr, 30)
            && one(instr, 29) && one(instr, 28)
            && !one(instr, 27) && !one(instr, 26) && one(instr, 25) && !one(instr, 23)
            && one(instr, 11) && !one(instr, 10) && one(instr, 9) && !one(instr, 8))
        &&& (instr & 0xFF80_0F10 == 0xF200_0B00) <==> (one(instr, 31) && one(instr, 30)
            && one(instr, 29) && one(instr, 28)
            && !one(instr, 27) && !one(instr, 26) && one(instr, 25) && !one(instr, 24)
            && !one(instr, 23) && one(instr, 11) && !one(instr, 10) && one(instr, 9)
            && one(instr, 8) && !one(instr, 4))
        &&& (instr & 0xFF80_0F10 == 0xF300_0B00) <==> (one(instr, 31) && one(instr, 30)
            && one(instr, 29) && one(instr, 28)
            && !one(instr, 27) && !one(instr, 26) && one(instr, 25) && one(instr, 24)
            && !one(instr, 23) && one(instr, 11) && !one(instr, 10) && one(instr, 9)
            && one(instr, 8) && !one(instr, 4))
        &&& (instr & 0xFF80_0F10 == 0xF200_0B10) <==> (one(instr, 31) && one(instr, 30)
            && one(instr, 29) && one(instr, 28)
            && !one(instr, 27) && !one(instr, 26) && one(instr, 25) && !one(instr, 24)
            && !one(instr, 23) && one(instr, 11) && !one(instr, 10) && one(instr, 9)
            && one(instr, 8) && one(instr, 4))
        &&& (instr & 0xFE80_0F10 == 0xF200_0100) <==> (one(instr, 31) && one(instr, 30)
            && one(instr, 29) && one(instr, 28)
            && !one(instr, 27) && !one(instr, 26) && one(instr, 25) && !one(instr, 23)
            && !one(instr, 11) && !one(instr, 10) && !one(instr, 9) && one(instr, 8)
            && !one(instr, 4))
        &&& (instr & 0xFFA0_0F10 == 0xF200_0C10) <==> (one(instr, 31) && one(instr, 30)
            && one(instr, 29) && one(instr, 28)
            && !one(instr, 27) && !one(instr, 26) && one(instr, 25) && !one(instr, 24)
            && !one(instr, 23) && !one(instr, 21) && one(instr, 11) && one(instr, 10)
            && !one(instr, 9) && !one(instr, 8) && one(instr, 4))
        &&& (instr & 0xFFA0_0F10 == 0xF220_0C10) <==> (one(instr, 31) && one(instr, 30)
            && one(instr, 29) && one(instr, 28)
            && !one(instr, 27) && !one(instr, 26) && one(instr, 25) && !one(instr, 24)
            && !one(instr, 23) && one(instr, 21) && one(instr, 11) && one(instr, 10)
            && !one(instr, 9) && !one(instr, 8) && one(instr, 4))
        &&& (instr & 0xFFA0_0F10 == 0xF200_0D00) <==> (one(instr, 31) && one(instr, 30)
            && one(instr, 29) && one(instr, 28)
            && !one(instr, 27) && !one(instr, 26) && one(instr, 25) && !one(instr, 24)
            && !one(instr, 23) && !one(instr, 21) && one(instr, 11) && one(instr, 10)
            && !one(instr, 9) && one(instr, 8) && !one(instr, 4))
        &&& (instr & 0xFFA0_0F10 == 0xF220_0D00) <==> (one(instr, 31) && one(instr, 30)
            && one(instr, 29) && one(instr, 28)
            && !one(instr, 27) && !one(instr, 26) && one(instr, 25) && !one(instr, 24)
            && !one(instr, 23) && one(instr, 21) && one(instr, 11) && one(instr, 10)
            && !one(instr, 9) && one(instr, 8) && !one(instr, 4))
        &&& (instr & 0xFFA0_0F10 == 0xF200_0D10) <==> (one(instr, 31) && one(instr, 30)
            && one(instr, 29) && one(instr, 28)
            && !one(instr, 27) && !one(instr, 26) && one(instr, 25) && !one(instr, 24)
            && !one(instr, 23) && !one(instr, 21) && one(instr, 11) && one(instr, 10)
            && !one(instr, 9) && one(instr, 8) && one(instr, 4))
        &&& (instr & 0xFFA0_0F10 == 0xF220_0D10) <==> (one(instr, 31) && one(instr, 30)
            && one(instr, 29) && one(instr, 28)
            && !one(instr, 27) && !one(instr, 26) && one(instr, 25) && !one(instr, 24)
            && !one(instr, 23) && one(instr, 21) && one(instr, 11) && one(instr, 10)
            && !one(instr, 9) && one(instr, 8) && one(instr, 4))
        &&& (instr & 0xFFA0_0F10 == 0xF300_0D00) <==> (one(instr, 31) && one(instr, 30)
            && one(instr, 29) && one(instr, 28)
            && !one(instr, 27) && !one(instr, 26) && one(instr, 25) && one(instr, 24)
            && !one(instr, 23) && !one(instr, 21) && one(instr, 11) && one(instr, 10)
            && !one(instr, 9) && one(instr, 8) && !one(instr, 4))
        &&& (instr & 0xFFA0_0F10 == 0xF320_0D00) <==> (one(instr, 31) && one(instr, 30)
            && one(instr, 29) && one(instr, 28)
            && !one(instr, 27) && !one(instr, 26) && one(instr, 25) && one(instr, 24)
            && !one(instr, 23) && one(instr, 21) && one(instr, 11) && one(instr, 10)
            && !one(instr, 9) && one(instr, 8) && !one(instr, 4))
        &&& (instr & 0xFFB0_0F10 == 0xF300_0D10) <==> (one(instr, 31) && one(instr, 30)
            && one(instr, 29) && one(instr, 28)
            && !one(instr, 27) && !one(instr, 26) && one(instr, 25) && one(instr, 24)
            && !one(instr, 23) && !one(instr, 21) && !one(instr, 20) && one(instr, 11)
            && one(instr, 10) && !one(instr, 9) && one(instr, 8) && one(instr, 4))
        &&& (instr & 0xFFA0_0F10 == 0xF200_0E00) <==> (one(instr, 31) && one(instr, 30)
            && one(instr, 29) && one(instr, 28)
            && !one(instr, 27) && !one(instr, 26) && one(instr, 25) && !one(instr, 24)
            && !one(instr, 23) && !one(instr, 21) && one(instr, 11) && one(instr, 10)
            && one(instr, 9) && !one(instr, 8) && !one(instr, 4))
        &&& (instr & 0xFFA0_0F10 == 0xF300_0E00) <==> (one(instr, 31) && one(instr, 30)
            && one(instr, 29) && one(instr, 28)
            && !one(instr, 27) && !one(instr, 26) && one(instr, 25) && one(instr, 24)
            && !one(instr, 23) && !one(instr, 21) && one(instr, 11) && one(instr, 10)
            && one(instr, 9) && !one(instr, 8) && !one(instr, 4))
        &&& (instr & 0xFFA0_0F10 == 0xF320_0E00) <==> (one(instr, 31) && one(instr, 30)
            && one(instr, 29) && one(instr, 28)
            && !one(instr, 27) && !one(instr, 26) && one(instr, 25) && one(instr, 24)
            && !one(instr, 23) && one(instr, 21) && one(instr, 11) && one(instr, 10)
            && one(instr, 9) && !one(instr, 8) && !one(instr, 4))
        &&& (instr & 0xFF80_0F10 == 0xF300_0E10) <==> (one(instr, 31) && one(instr, 30)
            && one(instr, 29) && one(instr, 28)
            && !one(instr, 27) && !one(instr, 26) && one(instr, 25) && one(instr, 24)
            && !one(instr, 23) && one(instr, 11) && one(instr, 10) && one(instr, 9)
            && !one(instr, 8) && one(instr, 4))
        &&& (instr & 0xFFA0_0F10 == 0xF200_0F00) <==> (one(instr, 31) && one(instr, 30)
            && one(instr, 29) && one(instr, 28)
            && !one(instr, 27) && !one(instr, 26) && one(instr, 25) && !one(instr, 24)
            && !one(instr, 23) && !one(instr, 21) && one(instr, 11) && one(instr, 10)
            && one(instr, 9) && one(instr, 8) && !one(instr, 4))
        &&& (instr & 0xFFA0_0F10 == 0xF220_0F00) <==> (one(instr, 31) && one(instr, 30)
            && one(instr, 29) && one(instr, 28)
            && !one(instr, 27) && !one(instr, 26) && one(instr, 25) && !one(instr, 24)
            && !one(instr, 23) && one(instr, 21) && one(instr, 11) && one(instr, 10)
            && one(instr, 9) && one(instr, 8) && !one(instr, 4))
        &&& (instr & 0xFFA0_0F10 == 0xF300_0F00) <==> (one(instr, 31) && one(instr, 30)
            && one(instr, 29) && one(instr, 28)
            && !one(instr, 27) && !one(instr, 26) && one(instr, 25) && one(instr, 24)
            && !one(instr, 23) && !one(instr, 21) && one(instr, 11) && one(instr, 10)
            && one(instr, 9) && one(instr, 8) && !one(instr, 4))
        &&& (instr & 0xFFA0_0F10 == 0xF320_0F00) <==> (one(instr, 31) && one(instr, 30)
            && one(instr, 29) && one(instr, 28)
            && !one(instr, 27) && !one(instr, 26) && one(instr, 25) && one(instr, 24)
            && !one(instr, 23) && one(instr, 21) && one(instr, 11) && one(instr, 10)
            && one(instr, 9) && one(instr, 8) && !one(instr, 4))
        &&& (instr & 0xFFA0_0F10 == 0xF200_0F10) <==> (one(instr, 31) && one(instr, 30)
            && one(instr, 29) && one(instr, 28)
            && !one(instr, 27) && !one(instr, 26) && one(instr, 25) && !one(instr, 24)
            && !one(instr, 23) && !one(instr, 21) && one(instr, 11) && one(instr, 10)
            && one(instr, 9) && one(instr, 8) && one(instr, 4))
        &&& (instr & 0xFFA0_0F10 == 0xF220_0F10) <==> (one(instr, 31) && one(instr, 30)
            && one(instr, 29) && one(instr, 28)
            && !one(instr, 27) && !one(instr, 26) && one(instr, 25) && !one(instr, 24)
            && !one(instr, 23) && one(instr, 21) && one(instr, 11) && one(instr, 10)
            && one(instr, 9) && one(instr, 8) && one(instr, 4))
        &&& (instr & 0xFFB0_0F10 == 0xF220_0110) <==> (one(instr, 31) && one(instr, 30)
            && one(instr, 29) && one(instr, 28)
            && !one(instr, 27) && !one(instr, 26) && one(instr, 25) && !one(instr, 24)
            && !one(instr, 23) && one(instr, 21) && !one(instr, 20) && !one(instr, 11)
            && !one(instr, 10) && !one(instr, 9) && one(instr, 8) && one(instr, 4))
        &&& (instr & 0xFFB0_0F10 == 0xF310_0110) <==> (one(instr, 31) && one(instr, 30)
            && one(instr, 29) && one(instr, 28)
            && !one(instr, 27) && !one(instr, 26) && one(instr, 25) && one(instr, 24)
            && !one(instr, 23) && !one(instr, 21) && one(instr, 20) && !one(instr, 11)
            && !one(instr, 10) && !one(instr, 9) && one(instr, 8) && one(instr, 4))
        &&& (instr & 0xFE80_0F50 == 0xF280_0500) <==> (one(instr, 31) && one(instr, 30)
            && one(instr, 29) && one(instr, 28)
            && !one(instr, 27) && !one(instr, 26) && one(instr, 25) && one(instr, 23)
            && !one(instr, 11) && one(instr, 10) && !one(instr, 9) && one(instr, 8)
            && !one(instr, 6) && !one(instr, 4))
        &&& (instr & 0xFE80_0F50 == 0xF280_0700) <==> (one(instr, 31) && one(instr, 30)
            && one(instr, 29) && one(instr, 28)
            && !one(instr, 27) && !one(instr, 26) && one(instr, 25) && one(instr, 23)
            && !one(instr, 11) && one(instr, 10) && one(instr, 9) && one(instr, 8)
            && !one(instr, 6) && !one(instr, 4))
        &&& (instr & 0xFE80_0E50 == 0xF280_0000) <==> (one(instr, 31) && one(instr, 30)
            && one(instr, 29) && one(instr, 28)
            && !one(instr, 27) && !one(instr, 26) && one(instr, 25) && one(instr, 23)
            && !one(instr, 11) && !one(instr, 10) && !one(instr, 9) && !one(instr, 6)
            && !one(instr, 4))
        &&& (instr & 0xFE80_0E50 == 0xF280_0200) <==> (one(instr, 31) && one(instr, 30)
            && one(instr, 29) && one(instr, 28)
            && !one(instr, 27) && !one(instr, 26) && one(instr, 25) && one(instr, 23)
            && !one(instr, 11) && !one(instr, 10) && one(instr, 9) && !one(instr, 6)
            && !one(instr, 4))
        &&& (instr & 0xFE80_0D50 == 0xF280_0800) <==> (one(instr, 31) && one(instr, 30)
            && one(instr, 29) && one(instr, 28)
            && !one(instr, 27) && !one(instr, 26) && one(instr, 25) && one(instr, 23)
            && one(instr, 11) && !one(instr, 10) && !one(instr, 8) && !one(instr, 6)
            && !one(instr, 4))
        &&& (instr & 0xFE80_0D50 == 0xF280_0C00) <==> (one(instr, 31) && one(instr, 30)
            && one(instr, 29) && one(instr, 28)
            && !one(instr, 27) && !one(instr, 26) && one(instr, 25) && one(instr, 23)
            && one(instr, 11) && one(instr, 10) && !one(instr, 8) && !one(instr, 6)
            && !one(instr, 4))
        &&& (instr & 0xFFB3_0F90 == 0xF3B2_0080) <==> (one(instr, 31) && one(instr, 30)
            && one(instr, 29) && one(instr, 28)
            && !one(instr, 27) && !one(instr, 26) && one(instr, 25) && one(instr, 24)
            && one(instr, 23) && one(instr, 21) && one(instr, 20) && one(instr, 17)
            && !one(instr, 16) && !one(instr, 11) && !one(instr, 10) && !one(instr, 9)
            && !one(instr, 8) && one(instr, 7) && !one(instr, 4))
        &&& (instr & 0xFFB3_0F90 == 0xF3B2_0100) <==> (one(instr, 31) && one(instr, 30)
            && one(instr, 29) && one(instr, 28)
            && !one(instr, 27) && !one(instr, 26) && one(instr, 25) && one(instr, 24)
            && one(instr, 23) && one(instr, 21) && one(instr, 20) && one(instr, 17)
            && !one(instr, 16) && !one(instr, 11) && !one(instr, 10) && !one(instr, 9)
            && one(instr, 8) && !one(instr, 7) && !one(instr, 4))
        &&& (instr & 0xFFB3_0F90 == 0xF3B2_0180) <==> (one(instr, 31) && one(instr, 30)
            && one(instr, 29) && one(instr, 28)
            && !one(instr, 27) && !one(instr, 26) && one(instr, 25) && one(instr, 24)
            && one(instr, 23) && one(instr, 21) && one(instr, 20) && one(instr, 17)
            && !one(instr, 16) && !one(instr, 11) && !one(instr, 10) && !one(instr, 9)
            && one(instr, 8) && one(instr, 7) && !one(instr, 4))
        &&& (instr & 0xFFB3_0FD0 == 0xF3B2_0200) <==> (one(instr, 31) && one(instr, 30)
            && one(instr, 29) && one(instr, 28)
            && !one(instr, 27) && !one(instr, 26) && one(instr, 25) && one(instr, 24)
            && one(instr, 23) && one(instr, 21) && one(instr, 20) && one(instr, 17)
            && !one(instr, 16) && !one(instr, 11) && !one(instr, 10) && one(instr, 9)
            && !one(instr, 8) && !one(instr, 7) && !one(instr, 6) && !one(instr, 4))
        &&& (instr & 0xFFB3_0F90 == 0xF3B2_0280) <==> (one(instr, 31) && one(instr, 30)
            && one(instr, 29) && one(instr, 28)
            && !one(instr, 27) && !one(instr, 26) && one(instr, 25) && one(instr, 24)
            && one(instr, 23) && one(instr, 21) && one(instr, 20) && one(instr, 17)
            && !one(instr, 16) && !one(instr, 11) && !one(instr, 10) && one(instr, 9)
            && !one(instr, 8) && one(instr, 7) && !one(instr, 4))
        &&& (instr & 0xFFB3_0B90 == 0xF3B1_0000) <==> (one(instr, 31) && one(instr, 30)
            && one(instr, 29) && one(instr, 28)
            && !one(instr, 27) && !one(instr, 26) && one(instr, 25) && one(instr, 24)
            && one(instr, 23) && one(instr, 21) && one(instr, 20) && !one(instr, 17)
            && one(instr, 16) && !one(instr, 11) && !one(instr, 9) && !one(instr, 8)
            && !one(instr, 7) && !one(instr, 4))
        &&& (instr & 0xFFB3_0B90 == 0xF3B1_0080) <==> (one(instr, 31) && one(instr, 30)
            && one(instr, 29) && one(instr, 28)
            && !one(instr, 27) && !one(instr, 26) && one(instr, 25) && one(instr, 24)
            && one(instr, 23) && one(instr, 21) && one(instr, 20) && !one(instr, 17)
            && one(instr, 16) && !one(instr, 11) && !one(instr, 9) && !one(instr, 8)
            && one(instr, 7) && !one(instr, 4))
        &&& (instr & 0xFFB3_0B90 == 0xF3B1_0100) <==> (one(instr, 31) && one(instr, 30)
            && one(instr, 29) && one(instr, 28)
            && !one(instr, 27) && !one(instr, 26) && one(instr, 25) && one(instr, 24)
            && one(instr, 23) && one(instr, 21) && one(instr, 20) && !one(instr, 17)
            && one(instr, 16) && !one(instr, 11) && !one(instr, 9) && one(instr, 8)
            && !one(instr, 7) && !one(instr, 4))
        &&& (instr & 0xFFB3_0B90 == 0xF3B1_0180) <==> (one(instr, 31) && one(instr, 30)
            && one(instr, 29) && one(instr, 28)
            && !one(instr, 27) && !one(instr, 26) && one(instr, 25) && one(instr, 24)
            && one(instr, 23) && one(instr, 21) && one(instr, 20) && !one(instr, 17)
            && one(instr, 16) && !one(instr, 11) && !one(instr, 9) && one(instr, 8)
            && one(instr, 7) && !one(instr, 4))
        &&& (instr & 0xFFB3_0B90 == 0xF3B1_0200) <==> (one(instr, 31) && one(instr, 30)
            && one(instr, 29) && one(instr, 28)
            && !one(instr, 27) && !one(instr, 26) && one(instr, 25) && one(instr, 24)
            && one(instr, 23) && one(instr, 21) && one(instr, 20) && !one(instr, 17)
            && one(instr, 16) && !one(instr, 11) && one(instr, 9) && !one(instr, 8)
            && !one(instr, 7) && !one(instr, 4))
        &&& (instr & 0xFFB3_0E90 == 0xF3B3_0400) <==> (one(instr, 31) && one(instr, 30)
            && one(instr, 29) && one(instr, 28)
            && !one(instr, 27) && !one(instr, 26) && one(instr, 25) && one(instr, 24)
            && one(instr, 23) && one(instr, 21) && one(instr, 20) && one(instr, 17)
            && one(instr, 16) && !one(instr, 11) && one(instr, 10) && !one(instr, 9)
            && !one(instr, 7) && !one(instr, 4))
        &&& (instr & 0xFFB3_0E90 == 0xF3B3_0480) <==> (one(instr, 31) && one(instr, 30)
            && one(instr, 29) && one(instr, 28)
            && !one(instr, 27) && !one(instr, 26) && one(instr, 25) && one(instr, 24)
            && one(instr, 23) && one(instr, 21) && one(instr, 20) && one(instr, 17)
            && one(instr, 16) && !one(instr, 11) && one(instr, 10) && !one(instr, 9)
            && one(instr, 7) && !one(instr, 4))
        &&& (instr & 0xFE80_0A50 == 0xF280_0040) <==> (one(instr, 31) && one(instr, 30)
            && one(instr, 29) && one(instr, 28)
            && !one(instr, 27) && !one(instr, 26) && one(instr, 25) && one(instr, 23)
            && !one(instr, 11) && !one(instr, 9) && one(instr, 6) && !one(instr, 4))
        &&& (instr & 0xFE80_0E50 == 0xF280_0840) <==> (one(instr, 31) && one(instr, 30)
            && one(instr, 29) && one(instr, 28)
            && !one(instr, 27) && !one(instr, 26) && one(instr, 25) && one(instr, 23)
            && one(instr, 11) && !one(instr, 10) && !one(instr, 9) && one(instr, 6)
            && !one(instr, 4))
        &&& (instr & 0xFFB0_0F90 == 0xF3B0_0C00) <==> (one(instr, 31) && one(instr, 30)
            && one(instr, 29) && one(instr, 28)
            && !one(instr, 27) && !one(instr, 26) && one(instr, 25) && one(instr, 24)
            && one(instr, 23) && one(instr, 21) && one(instr, 20) && one(instr, 11)
            && one(instr, 10) && !one(instr, 9) && !one(instr, 8) && !one(instr, 7)
            && !one(instr, 4))
        &&& (instr & 0xFFB3_0F90 == 0xF3B1_0780) <==> (one(instr, 31) && one(instr, 30)
            && one(instr, 29) && one(instr, 28)
            && !one(instr, 27) && !one(instr, 26) && one(instr, 25) && one(instr, 24)
            && one(instr, 23) && one(instr, 21) && one(instr, 20) && !one(instr, 17)
            && one(instr, 16) && !one(instr, 11) && one(instr, 10) && one(instr, 9)
            && one(instr, 8) && one(instr, 7) && !one(instr, 4))
        &&& (instr & 0xFFB3_0F90 == 0xF3B1_0380) <==> (one(instr, 31) && one(instr, 30)
            && one(instr, 29) && one(instr, 28)
            && !one(instr, 27) && !one(instr, 26) && one(instr, 25) && one(instr, 24)
            && one(instr, 23) && one(instr, 21) && one(instr, 20) && !one(instr, 17)
            && one(instr, 16) && !one(instr, 11) && !one(instr, 10) && one(instr, 9)
            && one(instr, 8) && one(instr, 7) && !one(instr, 4))
        &&& (instr & 0xFFB3_0F90 == 0xF3B1_0700) <==> (one(instr, 31) && one(instr, 30)
            && one(instr, 29) && one(instr, 28)
            && !one(instr, 27) && !one(instr, 26) && one(instr, 25) && one(instr, 24)
            && one(instr, 23) && one(instr, 21) && one(instr, 20) && !one(instr, 17)
            && one(instr, 16) && !one(instr, 11) && one(instr, 10) && one(instr, 9)
            && one(instr, 8) && !one(instr, 7) && !one(instr, 4))
        &&& (instr & 0xFFB3_0F90 == 0xF3B1_0300) <==> (one(instr, 31) && one(instr, 30)
            && one(instr, 29) && one(instr, 28)
            && !one(instr, 27) && !one(instr, 26) && one(instr, 25) && one(instr, 24)
            && one(instr, 23) && one(instr, 21) && one(instr, 20) && !one(instr, 17)
            && one(instr, 16) && !one(instr, 11) && !one(instr, 10) && one(instr, 9)
            && one(instr, 8) && !one(instr, 7) && !one(instr, 4))
        &&& (instr & 0xFFB3_0E10 == 0xF3B3_0600) <==> (one(instr, 31) && one(instr, 30)
            && one(instr, 29) && one(instr, 28)
            && !one(instr, 27) && !one(instr, 26) && one(instr, 25) && one(instr, 24)
            && one(instr, 23) && one(instr, 21) && one(instr, 20) && one(instr, 17)
            && one(instr, 16) && !one(instr, 11) && one(instr, 10) && one(instr, 9)
            && !one(instr, 4))
        &&& (instr & 0x0FF0_0000 == 0x0C40_0000) <==> (one(instr, 27) && one(instr, 26)
            && !one(instr, 25) && !one(instr, 24)
            && !one(instr, 23) && one(instr, 22) && !one(instr, 21) && !one(instr, 20))
        &&& (instr & 0x0FF0_0000 == 0x0C50_0000) <==> (one(instr, 27) && one(instr, 26)
            && !one(instr, 25) && !one(instr, 24)
            && !one(instr, 23) && one(instr, 22) && !one(instr, 21) && one(instr, 20))
        &&& (instr & 0x0F10_0010 == 0x0E00_0010) <==> (one(instr, 27) && one(instr, 26)
            && one(instr, 25) && !one(instr, 24)
            && !one(instr, 20) && one(instr, 4))
        &&& (instr & 0x0F10_0010 == 0x0E10_0010) <==> (one(instr, 27) && one(instr, 26)
            && one(instr, 25) && !one(instr, 24)
            && one(instr, 20) && one(instr, 4))
        &&& (instr & 0x0F00_0010 == 0x0E00_0000) <==> (one(instr, 27) && one(instr, 26)
            && one(instr, 25) && !one(instr, 24)
            && !one(instr, 4))
        &&& (instr & 0x0E10_0000 == 0x0C10_0000) <==> (one(instr, 27) && one(instr, 26)
            && !one(instr, 25) && one(instr, 20))
        &&& (instr & 0x0E10_0000 == 0x0C00_0000) <==> (one(instr, 27) && one(instr, 26)
            && !one(instr, 25) && !one(instr, 20))
        &&& (instr & 0xFFFF_FFF0 == 0xF57F_F040) <==> (one(instr, 31) && one(instr, 30)
            && one(instr, 29) && one(instr, 28)
            && !one(instr, 27) && one(instr, 26) && !one(instr, 25) && one(instr, 24)
            && !one(instr, 23) && one(instr, 22) && one(instr, 21) && one(instr, 20)
            && one(instr, 19) && one(instr, 18) && one(instr, 17) && one(instr, 16)
            && one(instr, 15) && one(instr, 14) && one(instr, 13) && one(instr, 12)
            && !one(instr, 11) && !one(instr, 10) && !one(instr, 9) && !one(instr, 8)
            && !one(instr, 7) && one(instr, 6) && !one(instr, 5) && !one(instr, 4))
        &&& (instr & 0xFFFF_FFF0 == 0xF57F_F050) <==> (one(instr, 31) && one(instr, 30)
            && one(instr, 29) && one(instr, 28)
            && !one(instr, 27) && one(instr, 26) && !one(instr, 25) && one(instr, 24)
            && !one(instr, 23) && one(instr, 22) && one(instr, 21) && one(instr, 20)
            && one(instr, 19) && one(instr, 18) && one(instr, 17) && one(instr, 16)
            && one(instr, 15) && one(instr, 14) && one(instr, 13) && one(instr, 12)
            && !one(instr, 11) && !one(instr, 10) && !one(instr, 9) && !one(instr, 8)
            && !one(instr, 7) && one(instr, 6) && !one(instr, 5) && one(instr, 4))
        &&& (instr & 0xFFFF_FFF0 == 0xF57F_F060) <==> (one(instr, 31) && one(instr, 30)
            && one(instr, 29) && one(instr, 28)
            && !one(instr, 27) && one(instr, 26) && !one(instr, 25) && one(instr, 24)
            && !one(instr, 23) && one(instr, 22) && one(instr, 21) && one(instr, 20)
            && one(instr, 19) && one(instr, 18) && one(instr, 17) && one(instr, 16)
            && one(instr, 15) && one(instr, 14) && one(instr, 13) && one(instr, 12)
            && !one(instr, 11) && !one(instr, 10) && !one(instr, 9) && !one(instr, 8)
            && !one(instr, 7) && one(instr, 6) && one(instr, 5) && !one(instr, 4))
        &&& (instr & 0xFF30_F000 == 0xF510_F000) <==> (one(instr, 31) && one(instr, 30)
            && one(instr, 29) && one(instr, 28)
            && !one(instr, 27) && one(instr, 26) && !one(instr, 25) && one(instr, 24)
            && !one(instr, 21) && one(instr, 20) && one(instr, 15) && one(instr, 14)
            && one(instr, 13) && one(instr, 12))
        &&& (instr & 0xFF30_F010 == 0xF710_F000) <==> (one(instr, 31) && one(instr, 30)
            && one(instr, 29) && one(instr, 28)
            && !one(instr, 27) && one(instr, 26) && one(instr, 25) && one(instr, 24)
            && !one(instr, 21) && one(instr, 20) && one(instr, 15) && one(instr, 14)
            && one(instr, 13) && one(instr, 12) && !one(instr, 4))
        &&& (instr & 0xFE00_0000 == 0xFA00_0000) <==> (one(instr, 31) && one(instr, 30)
            && one(instr, 29) && one(instr, 28)
            && one(instr, 27) && !one(instr, 26) && one(instr, 25))
        &&& (instr & 0xFFFF_FFFF == 0xF57F_F01F) <==> (one(instr, 31) && one(instr, 30)
            && one(instr, 29) && one(instr, 28)
            && !one(instr, 27) && one(instr, 26) && !one(instr, 25) && one(instr, 24)
            && !one(instr, 23) && one(instr, 22) && one(instr, 21) && one(instr, 20)
            && one(instr, 19) && one(instr, 18) && one(instr, 17) && one(instr, 16)
            && one(instr, 15) && one(instr, 14) && one(instr, 13) && one(instr, 12)
            && !one(instr, 11) && !one(instr, 10) && !one(instr, 9) && !one(instr, 8)
            && !one(instr, 7) && !one(instr, 6) && !one(instr, 5) && one(instr, 4)
            && one(instr, 3) && one(instr, 2) && one(instr, 1) && one(instr, 0))
        &&& (instr & 0xFEB0_0F50 == 0xF280_0500) <==> (one(instr, 31) && one(instr, 30)
            && one(instr, 29) && one(instr, 28)
            && !one(instr, 27) && !one(instr, 26) && one(instr, 25) && one(instr, 23)
            && !one(instr, 21) && !one(instr, 20) && !one(instr, 11) && one(instr, 10)
            && !one(instr, 9) && one(instr, 8) && !one(instr, 6) && !one(instr, 4))
        &&& (instr & 0xFEB0_0F50 == 0xF290_0500) <==> (one(instr, 31) && one(instr, 30)
            && one(instr, 29) && one(instr, 28)
            && !one(instr, 27) && !one(instr, 26) && one(instr, 25) && one(instr, 23)
            && !one(instr, 21) && one(instr, 20) && !one(instr, 11) && one(instr, 10)
            && !one(instr, 9) && one(instr, 8) && !one(instr, 6) && !one(instr, 4))
        &&& (instr & 0xFEB0_0F50 == 0xF2A0_0500) <==> (one(instr, 31) && one(instr, 30)
            && one(instr, 29) && one(instr, 28)
            && !one(instr, 27) && !one(instr, 26) && one(instr, 25) && one(instr, 23)
            && one(instr, 21) && !one(instr, 20) && !one(instr, 11) && one(instr, 10)
            && !one(instr, 9) && one(instr, 8) && !one(instr, 6) && !one(instr, 4))
        &&& (instr & 0xFEB0_0F50 == 0xF280_0700) <==> (one(instr, 31) && one(instr, 30)
            && one(instr, 29) && one(instr, 28)
            && !one(instr, 27) && !one(instr, 26) && one(instr, 25) && one(instr, 23)
            && !one(instr, 21) && !one(instr, 20) && !one(instr, 11) && one(instr, 10)
            && one(instr, 9) && one(instr, 8) && !one(instr, 6) && !one(instr, 4))
        &&& (instr & 0xFEB0_0F50 == 0xF290_0700) <==> (one(instr, 31) && one(instr, 30)
            && one(instr, 29) && one(instr, 28)
            && !one(instr, 27) && !one(instr, 26) && one(instr, 25) && one(instr, 23)
            && !one(instr, 21) && one(instr, 20) && !one(instr, 11) && one(instr, 10)
            && one(instr, 9) && one(instr, 8) && !one(instr, 6) && !one(instr, 4))
        &&& (instr & 0xFEB0_0F50 == 0xF2A0_0700) <==> (one(instr, 31) && one(instr, 30)
            && one(instr, 29) && one(instr, 28)
            && !one(instr, 27) && !one(instr, 26) && one(instr, 25) && one(instr, 23)
            && one(instr, 21) && !one(instr, 20) && !one(instr, 11) && one(instr, 10)
            && one(instr, 9) && one(instr, 8) && !one(instr, 6) && !one(instr, 4))
        &&& (instr & 0xFEB0_0E50 == 0xF280_0000) <==> (one(instr, 31) && one(instr, 30)
            && one(instr, 29) && one(instr, 28)
            && !one(instr, 27) && !one(instr, 26) && one(instr, 25) && one(instr, 23)
            && !one(instr, 21) && !one(instr, 20) && !one(instr, 11) && !one(instr, 10)
            && !one(instr, 9) && !one(instr, 6) && !one(instr, 4))
        &&& (instr & 0xFEB0_0E50 == 0xF290_0000) <==> (one(instr, 31) && one(instr, 30)
            && one(instr, 29) && one(instr, 28)
            && !one(instr, 27) && !one(instr, 26) && one(instr, 25) && one(instr, 23)
            && !one(instr, 21) && one(instr, 20) && !one(instr, 11) && !one(instr, 10)
            && !one(instr, 9) && !one(instr, 6) && !one(instr, 4))
        &&& (instr & 0xFEB0_0E50 == 0xF2A0_0000) <==> (one(instr, 31) && one(instr, 30)
            && one(instr, 29) && one(instr, 28)
            && !one(instr, 27) && !one(instr, 26) && one(instr, 25) && one(instr, 23)
            && one(instr, 21) && !one(instr, 20) && !one(instr, 11) && !one(instr, 10)
            && !one(instr, 9) && !one(instr, 6) && !one(instr, 4))
        &&& (instr & 0xFEB0_0E50 == 0xF280_0200) <==> (one(instr, 31) && one(instr, 30)
            && one(instr, 29) && one(instr, 28)
            && !one(instr, 27) && !one(instr, 26) && one(instr, 25) && one(instr, 23)
            && !one(instr, 21) && !one(instr, 20) && !one(instr, 11) && !one(instr, 10)
            && one(instr, 9) && !one(instr, 6) && !one(instr, 4))
        &&& (instr & 0xFEB0_0E50 == 0xF290_0200) <==> (one(instr, 31) && one(instr, 30)
            && one(instr, 29) && one(instr, 28)
            && !one(instr, 27) && !one(instr, 26) && one(instr, 25) && one(instr, 23)
            && !one(instr, 21) && one(instr, 20) && !one(instr, 11) && !one(instr, 10)
            && one(instr, 9) && !one(instr, 6) && !one(instr, 4))
        &&& (instr & 0xFEB0_0E50 == 0xF2A0_0200) <==> (one(instr, 31) && one(instr, 30)
            && one(instr, 29) && one(instr, 28)
            && !one(instr, 27) && !one(instr, 26) && one(instr, 25) && one(instr, 23)
            && one(instr, 21) && !one(instr, 20) && !one(instr, 11) && !one(instr, 10)
            && one(instr, 9) && !one(instr, 6) && !one(instr, 4))
        &&& (instr & 0xFEB0_0D50 == 0xF280_0800) <==> (one(instr, 31) && one(instr, 30)
            && one(instr, 29) && one(instr, 28)
            && !one(instr, 27) && !one(instr, 26) && one(instr, 25) && one(instr, 23)
            && !one(instr, 21) && !one(instr, 20) && one(instr, 11) && !one(instr, 10)
            && !one(instr, 8) && !one(instr, 6) && !one(instr, 4))
        &&& (instr & 0xFEB0_0D50 == 0xF290_0800) <==> (one(instr, 31) && one(instr, 30)
            && one(instr, 29) && one(instr, 28)
            && !one(instr, 27) && !one(instr, 26) && one(instr, 25) && one(instr, 23)
            && !one(instr, 21) && one(instr, 20) && one(instr, 11) && !one(instr, 10)
            && !one(instr, 8) && !one(instr, 6) && !one(instr, 4))
        &&& (instr & 0xFEB0_0D50 == 0xF2A0_0800) <==> (one(instr, 31) && one(instr, 30)
            && one(instr, 29) && one(instr, 28)
            && !one(instr, 27) && !one(instr, 26) && one(instr, 25) && one(instr, 23)
            && one(instr, 21) && !one(instr, 20) && one(instr, 11) && !one(instr, 10)
            && !one(instr, 8) && !one(instr, 6) && !one(instr, 4))
        &&& (instr & 0xFEB0_0D50 == 0xF280_0C00) <==> (one(instr, 31) && one(instr, 30)
            && one(instr, 29) && one(instr, 28)
            && !one(instr, 27) && !one(instr, 26) && one(instr, 25) && one(instr, 23)
            && !one(instr, 21) && !one(instr, 20) && one(instr, 11) && one(instr, 10)
            && !one(instr, 8) && !one(instr, 6) && !one(instr, 4))
        &&& (instr & 0xFEB0_0D50 == 0xF290_0C00) <==> (one(instr, 31) && one(instr, 30)
            && one(instr, 29) && one(instr, 28)
            && !one(instr, 27) && !one(instr, 26) && one(instr, 25) && one(instr, 23)
            && !one(instr, 21) && one(instr, 20) && one(instr, 11) && one(instr, 10)
            && !one(instr, 8) && !one(instr, 6) && !one(instr, 4))
        &&& (instr & 0xFEB0_0D50 == 0xF2A0_0C00) <==> (one(instr, 31) && one(instr, 30)
            && one(instr, 29) && one(instr, 28)
            && !one(instr, 27) && !one(instr, 26) && one(instr, 25) && one(instr, 23)
            && one(instr, 21) && !one(instr, 20) && one(instr, 11) && one(instr, 10)
            && !one(instr, 8) && !one(instr, 6) && !one(instr, 4))
        &&& (instr & 0x0FFF_FFF0 == 0x0320_F000) <==> (!one(instr, 27) && !one(instr, 26)
            && one(instr, 25) && one(instr, 24)
            && !one(instr, 23) && !one(instr, 22) && one(instr, 21) && !one(instr, 20)
            && !one(instr, 19) && !one(instr, 18) && !one(instr, 17) && !one(instr, 16)
            && one(instr, 15) && one(instr, 14) && one(instr, 13) && one(instr, 12)
            && !one(instr, 11) && !one(instr, 10) && !one(instr, 9) && !one(instr, 8)
            && !one(instr, 7) && !one(instr, 6) && !one(instr, 5) && !one(instr, 4))
        &&& (instr & 0x0F90_0FF0 == 0x0100_0040) <==> (!one(instr, 27) && !one(instr, 26)
            && !one(instr, 25) && one(instr, 24)
            && !one(instr, 23) && !one(instr, 20) && !one(instr, 11) && !one(instr, 10)
            && !one(instr, 9) && !one(instr, 8) && !one(instr, 7) && one(instr, 6)
            && !one(instr, 5) && !one(instr, 4))
        &&& (instr & 0x0F90_0FF0 == 0x0100_0240) <==> (!one(instr, 27) && !one(instr, 26)
            && !one(instr, 25) && one(instr, 24)
            && !one(instr, 23) && !one(instr, 20) && !one(instr, 11) && !one(instr, 10)
            && one(instr, 9) && !one(instr, 8) && !one(instr, 7) && one(instr, 6)
            && !one(instr, 5) && !one(instr, 4))
        &&& (instr & 0xFFF0_0000 == 0xFC40_0000) <==> (one(instr, 31) && one(instr, 30)
            && one(instr, 29) && one(instr, 28)
            && one(instr, 27) && one(instr, 26) && !one(instr, 25) && !one(instr, 24)
            && !one(instr, 23) && one(instr, 22) && !one(instr, 21) && !one(instr, 20))
        &&& (instr & 0xFFF0_0000 == 0xFC50_0000) <==> (one(instr, 31) && one(instr, 30)
            && one(instr, 29) && one(instr, 28)
            && one(instr, 27) && one(instr, 26) && !one(instr, 25) && !one(instr, 24)
            && !one(instr, 23) && one(instr, 22) && !one(instr, 21) && one(instr, 20))
        &&& (instr & 0xFF10_0010 == 0xFE00_0010) <==> (one(instr, 31) && one(instr, 30)
            && one(instr, 29) && one(instr, 28)
            && one(instr, 27) && one(instr, 26) && one(instr, 25) && !one(instr, 24)
            && !one(instr, 20) && one(instr, 4))
        &&& (instr & 0xFF10_0010 == 0xFE10_0010) <==> (one(instr, 31) && one(instr, 30)
            && one(instr, 29) && one(instr, 28)
            && one(instr, 27) && one(instr, 26) && one(instr, 25) && !one(instr, 24)
            && one(instr, 20) && one(instr, 4))
        &&& (instr & 0xFF00_0010 == 0xFE00_0000) <==> (one(instr, 31) && one(instr, 30)
            && one(instr, 29) && one(instr, 28)
            && one(instr, 27) && one(instr, 26) && one(instr, 25) && !one(instr, 24)
            && !one(instr, 4))
        &&& (instr & 0xFE10_0000 == 0xFC10_0000) <==> (one(instr, 31) && one(instr, 30)
            && one(instr, 29) && one(instr, 28)
            && one(instr, 27) && one(instr, 26) && !one(instr, 25) && one(instr, 20))
        &&& (instr & 0xFE10_0000 == 0xFC00_0000) <==> (one(instr, 31) && one(instr, 30)
            && one(instr, 29) && one(instr, 28)
            && one(instr, 27) && one(instr, 26) && !one(instr, 25) && !one(instr, 20))
        &&& ((instr >> 20) & 3 == 3) <==> (one(instr, 21) && one(instr, 20))
        &&& ((instr >> 28) & 0xF == 0xF) <==> (one(instr, 31) && one(instr, 30) && one(instr, 29)
            && one(instr, 28))
    }) by (bit_vector);
}

/// The bits of instructions without a condition: vector instructions, preloads,
/// barriers and others.
#[verifier::rlimit(50)]
pub proof fn unconditional_bits_1(instr: u32)
    ensures
        instr & 0xFF90_0F00 == 0xF400_0B00 ==> arm_encoding(instr)
            == ArmInstId::UDF,
        instr & 0xFF90_0C00 == 0xF400_0C00 ==> arm_encoding(instr)
            == ArmInstId::UDF,
        instr & 0xFFB0_0C00 == 0xF480_0C00 ==> arm_encoding(instr)
            == ArmInstId::UDF,
        instr & 0xFFB0_0000 == 0xF400_0000 && instr & 0xFF90_0F00 != 0xF400_0B00
            && instr & 0xFF90_0C00 != 0xF400_0C00 ==> arm_encoding(instr)
            == ArmInstId::V8_VST_multiple,
        instr & 0xFFB0_0000 == 0xF420_0000 && instr & 0xFF90_0F00 != 0xF400_0B00
            && instr & 0xFF90_0C00 != 0xF400_0C00 ==> arm_encoding(instr)
            == ArmInstId::V8_VLD_multiple,
        instr & 0xFFB0_0000 == 0xF480_0000 && instr & 0xFFB0_0C00 != 0xF480_0C00
            ==> arm_encoding(instr)
            == ArmInstId::V8_VST_single,
        instr & 0xFFB0_0C00 == 0xF4A0_0C00 ==> arm_encoding(instr)
            == ArmInstId::V8_VLD_all_lanes,
        instr & 0xFFB0_0000 == 0xF4A0_0000 && instr & 0xFFB0_0C00 != 0xF4A0_0C00
            ==> arm_encoding(instr)
            == ArmInstId::V8_VLD_single,
        instr & 0xFF80_0E50 == 0xFE00_0A00 ==> arm_encoding(instr)
            == ArmInstId::VSEL_fp,
        instr & 0xFFB0_0E50 == 0xFE80_0A00 ==> arm_encoding(instr)
            == ArmInstId::VMAXNM_fp,
        instr & 0xFFB0_0E50 == 0xFE80_0A40 ==> arm_encoding(instr)
            == ArmInstId::VMINNM_fp,
        instr & 0xFFBC_0E10 == 0xFEBC_0A00 ==> arm_encoding(instr)
            == ArmInstId::VFP_VCVT_rm,
        instr & 0xFFBC_0ED0 == 0xFEB8_0A40 ==> arm_encoding(instr)
            == ArmInstId::VFP_VRINT_rm,
        instr & 0xFFB0_0010 == 0xF2B0_0000 ==> arm_encoding(instr)
            == ArmInstId::ASIMD_VEXT,
        instr & 0xFFB0_0C50 == 0xF3B0_0800 ==> arm_encoding(instr)
            == ArmInstId::ASIMD_VTBL,
        instr & 0xFFB0_0C50 == 0xF3B0_0840 ==> arm_encoding(instr)
            == ArmInstId::ASIMD_VTBX,
        instr & 0xFEB8_0090 == 0xF280_0010 ==> arm_encoding(instr)
            == ArmInstId::ASIMD_VMOV_imm,
        instr & 0xFF80_0FD0 == 0xF280_0810 && instr & 0xFEB8_0090 != 0xF280_0010
            ==> arm_encoding(instr)
            == ArmInstId::ASIMD_VSHRN,
        instr & 0xFE80_0F10 == 0xF280_0010 && instr & 0xFEB8_0090 != 0xF280_0010
            ==> arm_encoding(instr)
            == ArmInstId::ASIMD_SHR,
        instr & 0xFE80_0F10 == 0xF280_0110 && instr & 0xFEB8_0090 != 0xF280_0010
            ==> arm_encoding(instr)
            == ArmInstId::ASIMD_SRA,
        instr & 0xFF80_0F10 == 0xF380_0410 && instr & 0xFEB8_0090 != 0xF280_0010
            ==> arm_encoding(instr)
            == ArmInstId::ASIMD_VSRI,
        instr & 0xFF80_0F10 == 0xF280_0510 && instr & 0xFEB8_0090 != 0xF280_0010
            ==> arm_encoding(instr)
            == ArmInstId::ASIMD_VSHL_imm,
        instr & 0xFF80_0F10 == 0xF380_0510 && instr & 0xFEB8_0090 != 0xF280_0010
            ==> arm_encoding(instr)
            == ArmInstId::ASIMD_VSLI,
        instr & 0xFE80_0E10 == 0xF280_0610 && instr & 0xFEB8_0090 != 0xF280_0010
            ==> arm_encoding(instr)
            == ArmInstId::ASIMD_VQSHL_imm,
        instr & 0xFE80_0F10 == 0xF200_0000 && instr & 0x0FFF_FFF0 != 0x0320_F000
            ==> arm_encoding(instr)
            == ArmInstId::ASIMD_VHADD,
        instr & 0xFE80_0F10 == 0xF200_0010 ==> arm_encoding(instr)
            == ArmInstId::ASIMD_VQADD,
        instr & 0xFFB0_0F10 == 0xF200_0110 ==> arm_encoding(instr)
            == ArmInstId::ASIMD_VAND_reg,
        instr & 0xFFB0_0F10 == 0xF210_0110 ==> arm_encoding(instr)
            == ArmInstId::ASIMD_VBIC_reg,
        instr & 0xFFB0_0F10 == 0xF230_0110 ==> arm_encoding(instr)
            == ArmInstId::ASIMD_VORN_reg,
        instr & 0xFFB0_0F10 == 0xF300_0110 ==> arm_encoding(instr)
            == ArmInstId::ASIMD_VEOR_reg,
        instr & 0xFFB0_0F10 == 0xF320_0110 ==> arm_encoding(instr)
            == ArmInstId::ASIMD_VBIT,
        instr & 0xFFB0_0F10 == 0xF330_0110 ==> arm_encoding(instr)
            == ArmInstId::ASIMD_VBIF,
        instr & 0xFE80_0F10 == 0xF200_0200 ==> arm_encoding(instr)
            == ArmInstId::ASIMD_VHSUB,
        instr & 0xFE80_0F10 == 0xF200_0210 ==> arm_encoding(instr)
            == ArmInstId::ASIMD_VQSUB,
        instr & 0xFE80_0F10 == 0xF200_0300 ==> arm_encoding(instr)
            == ArmInstId::ASIMD_VCGT_reg_int,
        instr & 0xFE80_0F10 == 0xF200_0310 ==> arm_encoding(instr)
            == ArmInstId::ASIMD_VCGE_reg_int,
        instr & 0xFE80_0F10 == 0xF200_0400 ==> arm_encoding(instr)
            == ArmInstId::ASIMD_VSHL_reg,
        instr & 0xFE80_0F10 == 0xF200_0410 ==> arm_encoding(instr)
            == ArmInstId::ASIMD_VQSHL_reg,
        instr & 0xFE80_0F10 == 0xF200_0500 ==> arm_encoding(instr)
            == ArmInstId::ASIMD_VRSHL,
        instr & 0xFE80_0F00 == 0xF200_0600 ==> arm_encoding(instr)
            == ArmInstId::ASIMD_VMAX_int,
{
    unconditional_patterns(instr);
}

/// The bits of instructions without a condition: vector instructions, preloads,
/// barriers and others.
#[verifier::rlimit(50)]
pub proof fn unconditional_bits_2(instr: u32)
    ensures
        instr & 0xFE80_0F10 == 0xF200_0700 ==> arm_encoding(instr)
            == ArmInstId::ASIMD_VABD_int,
        instr & 0xFE80_0F10 == 0xF200_0710 ==> arm_encoding(instr)
            == ArmInstId::ASIMD_VABA,
        instr & 0xFF80_0F10 == 0xF200_0800 ==> arm_encoding(instr)
            == ArmInstId::ASIMD_VADD_int,
        instr & 0xFF80_0F10 == 0xF300_0800 ==> arm_encoding(instr)
            == ArmInstId::ASIMD_VSUB_int,
        instr & 0xFF80_0F10 == 0xF200_0810 ==> arm_encoding(instr)
            == ArmInstId::ASIMD_VTST,
        instr & 0xFF80_0F10 == 0xF300_0810 ==> arm_encoding(instr)
            == ArmInstId::ASIMD_VCEQ_reg_int,
        instr & 0xFE80_0F10 == 0xF200_0900 ==> arm_encoding(instr)
            == ArmInstId::ASIMD_VMLA_int,
        instr & 0xFE80_0F10 == 0xF200_0910 ==> arm_encoding(instr)
            == ArmInstId::ASIMD_VMUL_int,
        instr & 0xFE80_0F00 == 0xF200_0A00 ==> arm_encoding(instr)
            == ArmInstId::ASIMD_VPMAX_int,
        instr & 0xFF80_0F10 == 0xF200_0B00 ==> arm_encoding(instr)
            == ArmInstId::ASIMD_VQDMULH,
        instr & 0xFF80_0F10 == 0xF300_0B00 ==> arm_encoding(instr)
            == ArmInstId::ASIMD_VQRDMULH,
        instr & 0xFF80_0F10 == 0xF200_0B10 ==> arm_encoding(instr)
            == ArmInstId::ASIMD_VPADD_int,
        instr & 0xFE80_0F10 == 0xF200_0100 ==> arm_encoding(instr)
            == ArmInstId::ASIMD_VRHADD,
        instr & 0xFFA0_0F10 == 0xF200_0C10 ==> arm_encoding(instr)
            == ArmInstId::ASIMD_VFMA,
        instr & 0xFFA0_0F10 == 0xF220_0C10 ==> arm_encoding(instr)
            == ArmInstId::ASIMD_VFMS,
        instr & 0xFFA0_0F10 == 0xF200_0D00 ==> arm_encoding(instr)
            == ArmInstId::ASIMD_VADD_float,
        instr & 0xFFA0_0F10 == 0xF220_0D00 ==> arm_encoding(instr)
            == ArmInstId::ASIMD_VSUB_float,
        instr & 0xFFA0_0F10 == 0xF200_0D10 ==> arm_encoding(instr)
            == ArmInstId::ASIMD_VMLA_float,
        instr & 0xFFA0_0F10 == 0xF220_0D10 ==> arm_encoding(instr)
            == ArmInstId::ASIMD_VMLS_float,
        instr & 0xFFA0_0F10 == 0xF300_0D00 ==> arm_encoding(instr)
            == ArmInstId::ASIMD_VPADD_float,
        instr & 0xFFA0_0F10 == 0xF320_0D00 ==> arm_encoding(instr)
            == ArmInstId::ASIMD_VABD_float,
        instr & 0xFFB0_0F10 == 0xF300_0D10 ==> arm_encoding(instr)
            == ArmInstId::ASIMD_VMUL_float,
        instr & 0xFFA0_0F10 == 0xF200_0E00 ==> arm_encoding(instr)
            == ArmInstId::ASIMD_VCEQ_reg_float,
        instr & 0xFFA0_0F10 == 0xF300_0E00 ==> arm_encoding(instr)
            == ArmInstId::ASIMD_VCGE_reg_float,
        instr & 0xFFA0_0F10 == 0xF320_0E00 ==> arm_encoding(instr)
            == ArmInstId::ASIMD_VCGT_reg_float,
        instr & 0xFF80_0F10 == 0xF300_0E10 ==> arm_encoding(instr)
            == ArmInstId::ASIMD_VACGE,
        instr & 0xFFA0_0F10 == 0xF200_0F00 ==> arm_encoding(instr)
            == ArmInstId::ASIMD_VMAX_float,
        instr & 0xFFA0_0F10 == 0xF220_0F00 ==> arm_encoding(instr)
            == ArmInstId::ASIMD_VMIN_float,
        instr & 0xFFA0_0F10 == 0xF300_0F00 ==> arm_encoding(instr)
            == ArmInstId::ASIMD_VPMAX_float,
        instr & 0xFFA0_0F10 == 0xF320_0F00 ==> arm_encoding(instr)
            == ArmInstId::ASIMD_VPMIN_float,
        instr & 0xFFA0_0F10 == 0xF200_0F10 ==> arm_encoding(instr)
            == ArmInstId::ASIMD_VRECPS,
        instr & 0xFFA0_0F10 == 0xF220_0F10 ==> arm_encoding(instr)
            == ArmInstId::ASIMD_VRSQRTS,
        instr & 0xFFB0_0F10 == 0xF220_0110 ==> arm_encoding(instr)
            == ArmInstId::ASIMD_VORR_reg,
        instr & 0xFFB0_0F10 == 0xF310_0110 ==> arm_encoding(instr)
            == ArmInstId::ASIMD_VBSL,
        instr & 0xFEB0_0F50 == 0xF280_0500 ==> arm_encoding(instr)
            == ArmInstId::ASIMD_VABAL,
        instr & 0xFEB0_0F50 == 0xF290_0500 ==> arm_encoding(instr)
            == ArmInstId::ASIMD_VABAL,
        instr & 0xFEB0_0F50 == 0xF2A0_0500 ==> arm_encoding(instr)
            == ArmInstId::ASIMD_VABAL,
        instr & 0xFEB0_0F50 == 0xF280_0700 ==> arm_encoding(instr)
            == ArmInstId::ASIMD_VABDL,
        instr & 0xFEB0_0F50 == 0xF290_0700 ==> arm_encoding(instr)
            == ArmInstId::ASIMD_VABDL,
        instr & 0xFEB0_0F50 == 0xF2A0_0700 ==> arm_encoding(instr)
            == ArmInstId::ASIMD_VABDL,
{
    unconditional_patterns(instr);
}

/// The bits of instructions without a condition: vector instructions, preloads,
/// barriers and others.
#[verifier::rlimit(50)]
pub proof fn unconditional_bits_3(instr: u32)
    ensures
        instr & 0xFEB0_0E50 == 0xF280_0000 ==> arm_encoding(instr)
            == ArmInstId::ASIMD_VADDL,
        instr & 0xFEB0_0E50 == 0xF290_0000 ==> arm_encoding(instr)
            == ArmInstId::ASIMD_VADDL,
        instr & 0xFEB0_0E50 == 0xF2A0_0000 ==> arm_encoding(instr)
            == ArmInstId::ASIMD_VADDL,
        instr & 0xFEB0_0E50 == 0xF280_0200 ==> arm_encoding(instr)
            == ArmInstId::ASIMD_VSUBL,
        instr & 0xFEB0_0E50 == 0xF290_0200 ==> arm_encoding(instr)
            == ArmInstId::ASIMD_VSUBL,
        instr & 0xFEB0_0E50 == 0xF2A0_0200 ==> arm_encoding(instr)
            == ArmInstId::ASIMD_VSUBL,
        instr & 0xFEB0_0D50 == 0xF280_0800 ==> arm_encoding(instr)
            == ArmInstId::ASIMD_VMLAL,
        instr & 0xFEB0_0D50 == 0xF290_0800 ==> arm_encoding(instr)
            == ArmInstId::ASIMD_VMLAL,
        instr & 0xFEB0_0D50 == 0xF2A0_0800 ==> arm_encoding(instr)
            == ArmInstId::ASIMD_VMLAL,
        instr & 0xFEB0_0D50 == 0xF280_0C00 ==> arm_encoding(instr)
            == ArmInstId::ASIMD_VMULL,
        instr & 0xFEB0_0D50 == 0xF290_0C00 ==> arm_encoding(instr)
            == ArmInstId::ASIMD_VMULL,
        instr & 0xFEB0_0D50 == 0xF2A0_0C00 ==> arm_encoding(instr)
            == ArmInstId::ASIMD_VMULL,
        instr & 0xFFB3_0F90 == 0xF3B2_0080 ==> arm_encoding(instr)
            == ArmInstId::ASIMD_VTRN,
        instr & 0xFFB3_0F90 == 0xF3B2_0100 ==> arm_encoding(instr)
            == ArmInstId::ASIMD_VUZP,
        instr & 0xFFB3_0F90 == 0xF3B2_0180 ==> arm_encoding(instr)
            == ArmInstId::ASIMD_VZIP,
        instr & 0xFFB3_0FD0 == 0xF3B2_0200 ==> arm_encoding(instr)
            == ArmInstId::ASIMD_VMOVN,
        instr & 0xFFB3_0F90 == 0xF3B2_0280 ==> arm_encoding(instr)
            == ArmInstId::ASIMD_VQMOVN,
        instr & 0xFFB3_0B90 == 0xF3B1_0000 ==> arm_encoding(instr)
            == ArmInstId::ASIMD_VCGT_zero,
        instr & 0xFFB3_0B90 == 0xF3B1_0080 ==> arm_encoding(instr)
            == ArmInstId::ASIMD_VCGE_zero,
        instr & 0xFFB3_0B90 == 0xF3B1_0100 ==> arm_encoding(instr)
            == ArmInstId::ASIMD_VCEQ_zero,
        instr & 0xFFB3_0B90 == 0xF3B1_0180 ==> arm_encoding(instr)
            == ArmInstId::ASIMD_VCLE_zero,
        instr & 0xFFB3_0B90 == 0xF3B1_0200 ==> arm_encoding(instr)
            == ArmInstId::ASIMD_VCLT_zero,
        instr & 0xFFB3_0E90 == 0xF3B3_0400 ==> arm_encoding(instr)
            == ArmInstId::ASIMD_VRECPE,
        instr & 0xFFB3_0E90 == 0xF3B3_0480 ==> arm_encoding(instr)
            == ArmInstId::ASIMD_VRSQRTE,
        instr & 0xFE80_0A50 == 0xF280_0040 && instr & 0xFFB0_0010 != 0xF2B0_0000
            && instr & 0xFFB3_0F90 != 0xF3B2_0080 && instr & 0xFFB3_0F90 != 0xF3B2_0100
            && instr & 0xFFB3_0F90 != 0xF3B2_0180 && instr & 0xFFB3_0B90 != 0xF3B1_0000
            && instr & 0xFFB3_0B90 != 0xF3B1_0080 && instr & 0xFFB3_0B90 != 0xF3B1_0100
            && instr & 0xFFB3_0B90 != 0xF3B1_0180 && instr & 0xFFB3_0E90 != 0xF3B3_0400
            && instr & 0xFFB3_0E90 != 0xF3B3_0480 ==> arm_encoding(instr)
            == ArmInstId::ASIMD_VMLA_scalar,
        instr & 0xFE80_0E50 == 0xF280_0840 && instr & 0xFFB0_0010 != 0xF2B0_0000
            && instr & 0xFFB0_0C50 != 0xF3B0_0840 ==> arm_encoding(instr)
            == ArmInstId::ASIMD_VMUL_scalar,
        instr & 0xFFB0_0F90 == 0xF3B0_0C00 ==> arm_encoding(instr)
            == ArmInstId::ASIMD_VDUP_scalar,
        instr & 0xFFB3_0F90 == 0xF3B1_0780 ==> arm_encoding(instr)
            == ArmInstId::ASIMD_VNEG_int,
        instr & 0xFFB3_0F90 == 0xF3B1_0380 ==> arm_encoding(instr)
            == ArmInstId::ASIMD_VNEG_int,
        instr & 0xFFB3_0F90 == 0xF3B1_0700 ==> arm_encoding(instr)
            == ArmInstId::ASIMD_VABS_int,
        instr & 0xFFB3_0F90 == 0xF3B1_0300 ==> arm_encoding(instr)
            == ArmInstId::ASIMD_VABS_int,
        instr & 0xFFB3_0E10 == 0xF3B3_0600 ==> arm_encoding(instr)
            == ArmInstId::ASIMD_VCVT_integer,
        instr & 0xFFF0_0000 == 0xFC40_0000 ==> arm_encoding(instr)
            == ArmInstId::MCRR,
        instr & 0xFFF0_0000 == 0xFC50_0000 ==> arm_encoding(instr)
            == ArmInstId::MRRC,
        instr & 0xFF10_0010 == 0xFE00_0010 ==> arm_encoding(instr)
            == ArmInstId::MCR,
        instr & 0xFF10_0010 == 0xFE10_0010 ==> arm_encoding(instr)
            == ArmInstId::MRC,
        instr & 0xFF00_0010 == 0xFE00_0000 && instr & 0xFF80_0E50 != 0xFE00_0A00
            && instr & 0xFFB0_0E50 != 0xFE80_0A00 && instr & 0xFFB0_0E50 != 0xFE80_0A40
            && instr & 0xFFBC_0E10 != 0xFEBC_0A00 && instr & 0xFFBC_0ED0 != 0xFEB8_0A40
            ==> arm_encoding(instr)
            == ArmInstId::CDP,
        instr & 0xFE10_0000 == 0xFC10_0000 && instr & 0xFFF0_0000 != 0xFC50_0000
            ==> arm_encoding(instr)
            == ArmInstId::LDC,
        instr & 0xFE10_0000 == 0xFC00_0000 && instr & 0xFFF0_0000 != 0xFC40_0000
            ==> arm_encoding(instr)
            == ArmInstId::STC,
        instr & 0xFFFF_FFF0 == 0xF57F_F040 ==> arm_encoding(instr)
            == ArmInstId::DSB,
{
    unconditional_patterns(instr);
}

/// The bits of instructions without a condition: vector instructions, preloads,
/// barriers and others.
#[verifier::rlimit(50)]
pub proof fn unconditional_bits_4(instr: u32)
    ensures
        instr & 0xFFFF_FFF0 == 0xF57F_F050 ==> arm_encoding(instr)
            == ArmInstId::DMB,
        instr & 0xFFFF_FFF0 == 0xF57F_F060 ==> arm_encoding(instr)
            == ArmInstId::ISB,
        instr & 0xFF30_F000 == 0xF510_F000 ==> arm_encoding(instr)
            == ArmInstId::PLD_imm,
        instr & 0xFF30_F010 == 0xF710_F000 ==> arm_encoding(instr)
            == ArmInstId::PLD_reg,
        instr & 0xFE00_0000 == 0xFA00_0000 ==> arm_encoding(instr)
            == ArmInstId::BLX_imm,
        instr & 0xFFFF_FFFF == 0xF57F_F01F ==> arm_encoding(instr)
            == ArmInstId::CLREX,
{
    unconditional_patterns(instr);
}

/// The patterns of coprocessor and floating-point instructions, bit by bit.
#[verifier::rlimit(50)]
proof fn coprocessor_patterns(instr: u32)
    ensures
        (instr & 0x0FF0_0FD0 == 0x0C40_0A10) <==> (one(instr, 27) && one(instr, 26)
            && !one(instr, 25) && !one(instr, 24)
            && !one(instr, 23) && one(instr, 22) && !one(instr, 21) && !one(instr, 20)
            && one(instr, 11) && !one(instr, 10) && one(instr, 9) && !one(instr, 8)
            && !one(instr, 7) && !one(instr, 6) && one(instr, 4)),
        (instr & 0x0FF0_0FD0 == 0x0C50_0A10) <==> (one(instr, 27) && one(instr, 26)
            && !one(instr, 25) && !one(instr, 24)
            && !one(instr, 23) && one(instr, 22) && !one(instr, 21) && one(instr, 20)
            && one(instr, 11) && !one(instr, 10) && one(instr, 9) && !one(instr, 8)
            && !one(instr, 7) && !one(instr, 6) && one(instr, 4)),
        (instr & 0x0FF0_0FD0 == 0x0C40_0B10) <==> (one(instr, 27) && one(instr, 26)
            && !one(instr, 25) && !one(instr, 24)
            && !one(instr, 23) && one(instr, 22) && !one(instr, 21) && !one(instr, 20)
            && one(instr, 11) && !one(instr, 10) && one(instr, 9) && one(instr, 8)
            && !one(instr, 7) && !one(instr, 6) && one(instr, 4)),
        (instr & 0x0FF0_0FD0 == 0x0C50_0B10) <==> (one(instr, 27) && one(instr, 26)
            && !one(instr, 25) && !one(instr, 24)
            && !one(instr, 23) && one(instr, 22) && !one(instr, 21) && one(instr, 20)
            && one(instr, 11) && !one(instr, 10) && one(instr, 9) && one(instr, 8)
            && !one(instr, 7) && !one(instr, 6) && one(instr, 4)),
        (instr & 0x0FFF_0FFF == 0x0EE1_0A10) <==> (one(instr, 27) && one(instr, 26)
            && one(instr, 25) && !one(instr, 24)
            && one(instr, 23) && one(instr, 22) && one(instr, 21) && !one(instr, 20)
            && !one(instr, 19) && !one(instr, 18) && !one(instr, 17) && one(instr, 16)
            && one(instr, 11) && !one(instr, 10) && one(instr, 9) && !one(instr, 8)
            && !one(instr, 7) && !one(instr, 6) && !one(instr, 5) && one(instr, 4)
            && !one(instr, 3) && !one(instr, 2) && !one(instr, 1) && !one(instr, 0)),
        (instr & 0x0FFF_0FFF == 0x0EF1_0A10) <==> (one(instr, 27) && one(instr, 26)
            && one(instr, 25) && !one(instr, 24)
            && one(instr, 23) && one(instr, 22) && one(instr, 21) && one(instr, 20)
            && !one(instr, 19) && !one(instr, 18) && !one(instr, 17) && one(instr, 16)
            && one(instr, 11) && !one(instr, 10) && one(instr, 9) && !one(instr, 8)
            && !one(instr, 7) && !one(instr, 6) && !one(instr, 5) && one(instr, 4)
            && !one(instr, 3) && !one(instr, 2) && !one(instr, 1) && !one(instr, 0)),
        (instr & 0x0FB0_0E50 == 0x0E00_0A00) <==> (one(instr, 27) && one(instr, 26)
            && one(instr, 25) && !one(instr, 24)
            && !one(instr, 23) && !one(instr, 21) && !one(instr, 20) && one(instr, 11)
            && !one(instr, 10) && one(instr, 9) && !one(instr, 6) && !one(instr, 4)),
        (instr & 0x0FB0_0E50 == 0x0E00_0A40) <==> (one(instr, 27) && one(instr, 26)
            && one(instr, 25) && !one(instr, 24)
            && !one(instr, 23) && !one(instr, 21) && !one(instr, 20) && one(instr, 11)
            && !one(instr, 10) && one(instr, 9) && one(instr, 6) && !one(instr, 4)),
        (instr & 0x0FB0_0E50 == 0x0E10_0A00) <==> (one(instr, 27) && one(instr, 26)
            && one(instr, 25) && !one(instr, 24)
            && !one(instr, 23) && !one(instr, 21) && one(instr, 20) && one(instr, 11)
            && !one(instr, 10) && one(instr, 9) && !one(instr, 6) && !one(instr, 4)),
        (instr & 0x0FB0_0E50 == 0x0E10_0A40) <==> (one(instr, 27) && one(instr, 26)
            && one(instr, 25) && !one(instr, 24)
            && !one(instr, 23) && !one(instr, 21) && one(instr, 20) && one(instr, 11)
            && !one(instr, 10) && one(instr, 9) && one(instr, 6) && !one(instr, 4)),
        (instr & 0x0FB0_0E50 == 0x0E20_0A00) <==> (one(instr, 27) && one(instr, 26)
            && one(instr, 25) && !one(instr, 24)
            && !one(instr, 23) && one(instr, 21) && !one(instr, 20) && one(instr, 11)
            && !one(instr, 10) && one(instr, 9) && !one(instr, 6) && !one(instr, 4)),
        (instr & 0x0FB0_0E50 == 0x0E20_0A40) <==> (one(instr, 27) && one(instr, 26)
            && one(instr, 25) && !one(instr, 24)
            && !one(instr, 23) && one(instr, 21) && !one(instr, 20) && one(instr, 11)
            && !one(instr, 10) && one(instr, 9) && one(instr, 6) && !one(instr, 4)),
        (instr & 0x0FB0_0E50 == 0x0E30_0A00) <==> (one(instr, 27) && one(instr, 26)
            && one(instr, 25) && !one(instr, 24)
            && !one(instr, 23) && one(instr, 21) && one(instr, 20) && one(instr, 11)
            && !one(instr, 10) && one(instr, 9) && !one(instr, 6) && !one(instr, 4)),
        (instr & 0x0FB0_0E50 == 0x0E30_0A40) <==> (one(instr, 27) && one(instr, 26)
            && one(instr, 25) && !one(instr, 24)
            && !one(instr, 23) && one(instr, 21) && one(instr, 20) && one(instr, 11)
            && !one(instr, 10) && one(instr, 9) && one(instr, 6) && !one(instr, 4)),
        (instr & 0x0FB0_0E50 == 0x0E80_0A00) <==> (one(instr, 27) && one(instr, 26)
            && one(instr, 25) && !one(instr, 24)
            && one(instr, 23) && !one(instr, 21) && !one(instr, 20) && one(instr, 11)
            && !one(instr, 10) && one(instr, 9) && !one(instr, 6) && !one(instr, 4)),
        (instr & 0x0FB0_0E50 == 0x0E90_0A00) <==> (one(instr, 27) && one(instr, 26)
            && one(instr, 25) && !one(instr, 24)
            && one(instr, 23) && !one(instr, 21) && one(instr, 20) && one(instr, 11)
            && !one(instr, 10) && one(instr, 9) && !one(instr, 6) && !one(instr, 4)),
        (instr & 0x0FB0_0E50 == 0x0E90_0A40) <==> (one(instr, 27) && one(instr, 26)
            && one(instr, 25) && !one(instr, 24)
            && one(instr, 23) && !one(instr, 21) && one(instr, 20) && one(instr, 11)
            && !one(instr, 10) && one(instr, 9) && one(instr, 6) && !one(instr, 4)),
        (instr & 0x0FB0_0E50 == 0x0EA0_0A00) <==> (one(instr, 27) && one(instr, 26)
            && one(instr, 25) && !one(instr, 24)
            && one(instr, 23) && one(instr, 21) && !one(instr, 20) && one(instr, 11)
            && !one(instr, 10) && one(instr, 9) && !one(instr, 6) && !one(instr, 4)),
        (instr & 0x0FB0_0E50 == 0x0EA0_0A40) <==> (one(instr, 27) && one(instr, 26)
            && one(instr, 25) && !one(instr, 24)
            && one(instr, 23) && one(instr, 21) && !one(instr, 20) && one(instr, 11)
            && !one(instr, 10) && one(instr, 9) && one(instr, 6) && !one(instr, 4)),
        (instr & 0x0FBF_0ED0 == 0x0EB0_0A40) <==> (one(instr, 27) && one(instr, 26)
            && one(instr, 25) && !one(instr, 24)
            && one(instr, 23) && one(instr, 21) && one(instr, 20) && !one(instr, 19)
            && !one(instr, 18) && !one(instr, 17) && !one(instr, 16) && one(instr, 11)
            && !one(instr, 10) && one(instr, 9) && !one(instr, 7) && one(instr, 6)
            && !one(instr, 4)),
        (instr & 0x0FBF_0ED0 == 0x0EB0_0AC0) <==> (one(instr, 27) && one(instr, 26)
            && one(instr, 25) && !one(instr, 24)
            && one(instr, 23) && one(instr, 21) && one(instr, 20) && !one(instr, 19)
            && !one(instr, 18) && !one(instr, 17) && !one(instr, 16) && one(instr, 11)
            && !one(instr, 10) && one(instr, 9) && one(instr, 7) && one(instr, 6)
            && !one(instr, 4)),
        (instr & 0x0FBF_0ED0 == 0x0EB1_0A40) <==> (one(instr, 27) && one(instr, 26)
            && one(instr, 25) && !one(instr, 24)
            && one(instr, 23) && one(instr, 21) && one(instr, 20) && !one(instr, 19)
            && !one(instr, 18) && !one(instr, 17) && one(instr, 16) && one(instr, 11)
            && !one(instr, 10) && one(instr, 9) && !one(instr, 7) && one(instr, 6)
            && !one(instr, 4)),
        (instr & 0x0FBF_0ED0 == 0x0EB1_0AC0) <==> (one(instr, 27) && one(instr, 26)
            && one(instr, 25) && !one(instr, 24)
            && one(instr, 23) && one(instr, 21) && one(instr, 20) && !one(instr, 19)
            && !one(instr, 18) && !one(instr, 17) && one(instr, 16) && one(instr, 11)
            && !one(instr, 10) && one(instr, 9) && one(instr, 7) && one(instr, 6)
            && !one(instr, 4)),
        (instr & 0x0FBF_0E50 == 0x0EB4_0A40) <==> (one(instr, 27) && one(instr, 26)
            && one(instr, 25) && !one(instr, 24)
            && one(instr, 23) && one(instr, 21) && one(instr, 20) && !one(instr, 19)
            && one(instr, 18) && !one(instr, 17) && !one(instr, 16) && one(instr, 11)
            && !one(instr, 10) && one(instr, 9) && one(instr, 6) && !one(instr, 4)),
        (instr & 0x0FBF_0E7F == 0x0EB5_0A40) <==> (one(instr, 27) && one(instr, 26)
            && one(instr, 25) && !one(instr, 24)
            && one(instr, 23) && one(instr, 21) && one(instr, 20) && !one(instr, 19)
            && one(instr, 18) && !one(instr, 17) && one(instr, 16) && one(instr, 11)
            && !one(instr, 10) && one(instr, 9) && one(instr, 6) && !one(instr, 5)
            && !one(instr, 4) && !one(instr, 3) && !one(instr, 2) && !one(instr, 1)
            && !one(instr, 0)),
        (instr & 0x0FBF_0ED0 == 0x0EB7_0AC0) <==> (one(instr, 27) && one(instr, 26)
            && one(instr, 25) && !one(instr, 24)
            && one(instr, 23) && one(instr, 21) && one(instr, 20) && !one(instr, 19)
            && one(instr, 18) && one(instr, 17) && one(instr, 16) && one(instr, 11)
            && !one(instr, 10) && one(instr, 9) && one(instr, 7) && one(instr, 6)
            && !one(instr, 4)),
        (instr & 0x0FBF_0E50 == 0x0EB8_0A40) <==> (one(instr, 27) && one(instr, 26)
            && one(instr, 25) && !one(instr, 24)
            && one(instr, 23) && one(instr, 21) && one(instr, 20) && one(instr, 19)
            && !one(instr, 18) && !one(instr, 17) && !one(instr, 16) && one(instr, 11)
            && !one(instr, 10) && one(instr, 9) && one(instr, 6) && !one(instr, 4)),
        (instr & 0x0FBF_0E50 == 0x0EBC_0A40) <==> (one(instr, 27) && one(instr, 26)
            && one(instr, 25) && !one(instr, 24)
            && one(instr, 23) && one(instr, 21) && one(instr, 20) && one(instr, 19)
            && one(instr, 18) && !one(instr, 17) && !one(instr, 16) && one(instr, 11)
            && !one(instr, 10) && one(instr, 9) && one(instr, 6) && !one(instr, 4)),
        (instr & 0x0FBF_0E50 == 0x0EBD_0A40) <==> (one(instr, 27) && one(instr, 26)
            && one(instr, 25) && !one(instr, 24)
            && one(instr, 23) && one(instr, 21) && one(instr, 20) && one(instr, 19)
            && one(instr, 18) && !one(instr, 17) && one(instr, 16) && one(instr, 11)
            && !one(instr, 10) && one(instr, 9) && one(instr, 6) && !one(instr, 4)),
        (instr & 0x0FB0_0EF0 == 0x0EB0_0A00) <==> (one(instr, 27) && one(instr, 26)
            && one(instr, 25) && !one(instr, 24)
            && one(instr, 23) && one(instr, 21) && one(instr, 20) && one(instr, 11)
            && !one(instr, 10) && one(instr, 9) && !one(instr, 7) && !one(instr, 6)
            && !one(instr, 5) && !one(instr, 4)),
        (instr & 0x0FF0_0F7F == 0x0E00_0B10) <==> (one(instr, 27) && one(instr, 26)
            && one(instr, 25) && !one(instr, 24)
            && !one(instr, 23) && !one(instr, 22) && !one(instr, 21) && !one(instr, 20)
            && one(instr, 11) && !one(instr, 10) && one(instr, 9) && one(instr, 8)
            && !one(instr, 6) && !one(instr, 5) && one(instr, 4) && !one(instr, 3)
            && !one(instr, 2) && !one(instr, 1) && !one(instr, 0)),
        (instr & 0x0FF0_0F7F == 0x0E10_0B10) <==> (one(instr, 27) && one(instr, 26)
            && one(instr, 25) && !one(instr, 24)
            && !one(instr, 23) && !one(instr, 22) && !one(instr, 21) && one(instr, 20)
            && one(instr, 11) && !one(instr, 10) && one(instr, 9) && one(instr, 8)
            && !one(instr, 6) && !one(instr, 5) && one(instr, 4) && !one(instr, 3)
            && !one(instr, 2) && !one(instr, 1) && !one(instr, 0)),
        (instr & 0x0FF0_0F7F == 0x0E00_0A10) <==> (one(instr, 27) && one(instr, 26)
            && one(instr, 25) && !one(instr, 24)
            && !one(instr, 23) && !one(instr, 22) && !one(instr, 21) && !one(instr, 20)
            && one(instr, 11) && !one(instr, 10) && one(instr, 9) && !one(instr, 8)
            && !one(instr, 6) && !one(instr, 5) && one(instr, 4) && !one(instr, 3)
            && !one(instr, 2) && !one(instr, 1) && !one(instr, 0)),
        (instr & 0x0FF0_0F7F == 0x0E10_0A10) <==> (one(instr, 27) && one(instr, 26)
            && one(instr, 25) && !one(instr, 24)
            && !one(instr, 23) && !one(instr, 22) && !one(instr, 21) && one(instr, 20)
            && one(instr, 11) && !one(instr, 10) && one(instr, 9) && !one(instr, 8)
            && !one(instr, 6) && !one(instr, 5) && one(instr, 4) && !one(instr, 3)
            && !one(instr, 2) && !one(instr, 1) && !one(instr, 0)),
        (instr & 0x0FD0_0F7F == 0x0E00_0B10) <==> (one(instr, 27) && one(instr, 26)
            && one(instr, 25) && !one(instr, 24)
            && !one(instr, 23) && !one(instr, 22) && !one(instr, 20) && one(instr, 11)
            && !one(instr, 10) && one(instr, 9) && one(instr, 8) && !one(instr, 6)
            && !one(instr, 5) && one(instr, 4) && !one(instr, 3) && !one(instr, 2)
            && !one(instr, 1) && !one(instr, 0)),
        (instr & 0x0FD0_0F7F == 0x0E10_0B10) <==> (one(instr, 27) && one(instr, 26)
            && one(instr, 25) && !one(instr, 24)
            && !one(instr, 23) && !one(instr, 22) && one(instr, 20) && one(instr, 11)
            && !one(instr, 10) && one(instr, 9) && one(instr, 8) && !one(instr, 6)
            && !one(instr, 5) && one(instr, 4) && !one(instr, 3) && !one(instr, 2)
            && !one(instr, 1) && !one(instr, 0)),
        (instr & 0x0F90_0F5F == 0x0E80_0B10) <==> (one(instr, 27) && one(instr, 26)
            && one(instr, 25) && !one(instr, 24)
            && one(instr, 23) && !one(instr, 20) && one(instr, 11) && !one(instr, 10)
            && one(instr, 9) && one(instr, 8) && !one(instr, 6) && one(instr, 4)
            && !one(instr, 3) && !one(instr, 2) && !one(instr, 1) && !one(instr, 0)),
        (instr & 0x0FFF_FFF0 == 0x0320_F000) <==> (!one(instr, 27) && !one(instr, 26)
            && one(instr, 25) && one(instr, 24)
            && !one(instr, 23) && !one(instr, 22) && one(instr, 21) && !one(instr, 20)
            && !one(instr, 19) && !one(instr, 18) && !one(instr, 17) && !one(instr, 16)
            && one(instr, 15) && one(instr, 14) && one(instr, 13) && one(instr, 12)
            && !one(instr, 11) && !one(instr, 10) && !one(instr, 9) && !one(instr, 8)
            && !one(instr, 7) && !one(instr, 6) && !one(instr, 5) && !one(instr, 4)),
        (instr & 0x0F90_0FF0 == 0x0100_0040) <==> (!one(instr, 27) && !one(instr, 26)
            && !one(instr, 25) && one(instr, 24)
            && !one(instr, 23) && !one(instr, 20) && !one(instr, 11) && !one(instr, 10)
            && !one(instr, 9) && !one(instr, 8) && !one(instr, 7) && one(instr, 6)
            && !one(instr, 5) && !one(instr, 4)),
        (instr & 0x0F90_0FF0 == 0x0100_0240) <==> (!one(instr, 27) && !one(instr, 26)
            && !one(instr, 25) && one(instr, 24)
            && !one(instr, 23) && !one(instr, 20) && !one(instr, 11) && !one(instr, 10)
            && one(instr, 9) && !one(instr, 8) && !one(instr, 7) && one(instr, 6)
            && !one(instr, 5) && !one(instr, 4)),
        (instr & 0x0FE0_0000 == 0x0C40_0000) <==> (one(instr, 27) && one(instr, 26)
            && !one(instr, 25) && !one(instr, 24)
            && !one(instr, 23) && one(instr, 22) && !one(instr, 21)),
        (instr & 0x0FBF_0E00 == 0x0D2D_0A00) <==> (one(instr, 27) && one(instr, 26)
            && !one(instr, 25) && one(instr, 24)
            && !one(instr, 23) && one(instr, 21) && !one(instr, 20) && one(instr, 19)
            && one(instr, 18) && !one(instr, 17) && one(instr, 16) && one(instr, 11)
            && !one(instr, 10) && one(instr, 9)),
        (instr & 0x0FBF_0E00 == 0x0CBD_0A00) <==> (one(instr, 27) && one(instr, 26)
            && !one(instr, 25) && !one(instr, 24)
            && one(instr, 23) && one(instr, 21) && one(instr, 20) && one(instr, 19)
            && one(instr, 18) && !one(instr, 17) && one(instr, 16) && one(instr, 11)
            && !one(instr, 10) && one(instr, 9)),
        (instr & 0x0F30_0E00 == 0x0D10_0A00) <==> (one(instr, 27) && one(instr, 26)
            && !one(instr, 25) && one(instr, 24)
            && !one(instr, 21) && one(instr, 20) && one(instr, 11) && !one(instr, 10)
            && one(instr, 9)),
        (instr & 0x0F30_0E00 == 0x0D00_0A00) <==> (one(instr, 27) && one(instr, 26)
            && !one(instr, 25) && one(instr, 24)
            && !one(instr, 21) && !one(instr, 20) && one(instr, 11) && !one(instr, 10)
            && one(instr, 9)),
        (instr & 0x0F90_0E00 == 0x0C90_0A00) <==> (one(instr, 27) && one(instr, 26)
            && !one(instr, 25) && !one(instr, 24)
            && one(instr, 23) && one(instr, 20) && one(instr, 11) && !one(instr, 10)
            && one(instr, 9)),
        (instr & 0x0F90_0E00 == 0x0C80_0A00) <==> (one(instr, 27) && one(instr, 26)
            && !one(instr, 25) && !one(instr, 24)
            && one(instr, 23) && !one(instr, 20) && one(instr, 11) && !one(instr, 10)
            && one(instr, 9)),
        (instr & 0x0FB0_0E00 == 0x0D30_0A00) <==> (one(instr, 27) && one(instr, 26)
            && !one(instr, 25) && one(instr, 24)
            && !one(instr, 23) && one(instr, 21) && one(instr, 20) && one(instr, 11)
            && !one(instr, 10) && one(instr, 9)),
        (instr & 0x0FB0_0E00 == 0x0D20_0A00) <==> (one(instr, 27) && one(instr, 26)
            && !one(instr, 25) && one(instr, 24)
            && !one(instr, 23) && one(instr, 21) && !one(instr, 20) && one(instr, 11)
            && !one(instr, 10) && one(instr, 9)),
        (instr & 0x0F10_0010 == 0x0E00_0010) <==> (one(instr, 27) && one(instr, 26)
            && one(instr, 25) && !one(instr, 24)
            && !one(instr, 20) && one(instr, 4)),
        (instr & 0x0000_0E00 == 0x0000_0A00) <==> (one(instr, 11) && !one(instr, 10)
            && one(instr, 9)),
        (instr & 0x0F10_0010 == 0x0E10_0010) <==> (one(instr, 27) && one(instr, 26)
            && one(instr, 25) && !one(instr, 24)
            && one(instr, 20) && one(instr, 4)),
        (instr & 0x0F00_0010 == 0x0E00_0000) <==> (one(instr, 27) && one(instr, 26)
            && one(instr, 25) && !one(instr, 24)
            && !one(instr, 4)),
        (instr & 0x0FF0_0000 == 0x0C40_0000) <==> (one(instr, 27) && one(instr, 26)
            && !one(instr, 25) && !one(instr, 24)
            && !one(instr, 23) && one(instr, 22) && !one(instr, 21) && !one(instr, 20)),
        (instr & 0x0FF0_0000 == 0x0C50_0000) <==> (one(instr, 27) && one(instr, 26)
            && !one(instr, 25) && !one(instr, 24)
            && !one(instr, 23) && one(instr, 22) && !one(instr, 21) && one(instr, 20)),
        (instr & 0x0E10_0000 == 0x0C10_0000) <==> (one(instr, 27) && one(instr, 26)
            && !one(instr, 25) && one(instr, 20)),
        (instr & 0x0E10_0000 == 0x0C00_0000) <==> (one(instr, 27) && one(instr, 26)
            && !one(instr, 25) && !one(instr, 20)),
        ((instr >> 25) & 0x7 == 0) <==> (!one(instr, 27) && !one(instr, 26) && !one(instr, 25)),
        ((instr >> 25) & 0x7 == 1) <==> (!one(instr, 27) && !one(instr, 26) && one(instr, 25)),
        ((instr >> 25) & 0x7 == 2) <==> (!one(instr, 27) && one(instr, 26) && !one(instr, 25)),
        ((instr >> 25) & 0x7 == 3) <==> (!one(instr, 27) && one(instr, 26) && one(instr, 25)),
        ((instr >> 25) & 0x7 == 4) <==> (one(instr, 27) && !one(instr, 26) && !one(instr, 25)),
        ((instr >> 25) & 0x7 == 5) <==> (one(instr, 27) && !one(instr, 26) && one(instr, 25)),
        ((instr >> 25) & 0x7 == 6) <==> (one(instr, 27) && one(instr, 26) && !one(instr, 25)),
        ((instr >> 25) & 0x7 == 7) <==> (one(instr, 27) && one(instr, 26) && one(instr, 25)),
        ((instr >> 8) & 0xF == 10) <==> (one(instr, 11) && !one(instr, 10) && one(instr, 9)
            && !one(instr, 8)),
        ((instr >> 8) & 0xF == 11) <==> (one(instr, 11) && !one(instr, 10) && one(instr, 9)
            && one(instr, 8)),
        ((instr >> 16) & 0xF == 13) <==> (one(instr, 19) && one(instr, 18) && !one(instr, 17)
            && one(instr, 16)),
        ((instr >> 28) & 0xF == 0xF) <==> (one(instr, 31) && one(instr, 30) && one(instr, 29)
            && one(instr, 28)),
        (instr >> 28 != 0xF) <==> !(one(instr, 31) && one(instr, 30) && one(instr, 29)
            && one(instr, 28)),
        (instr & 0x100_0000 == 0) <==> !one(instr, 24),
        (instr & 0x10 == 0) <==> !one(instr, 4),
        (instr & 0x10_0000 == 0) <==> !one(instr, 20),
        ((instr >> 24) & 1 == 0) <==> !one(instr, 24),
        ((instr >> 23) & 1 == 0) <==> !one(instr, 23),
        ((instr >> 21) & 1 == 0) <==> !one(instr, 21),
        ((instr >> 20) & 1 == 0) <==> !one(instr, 20),
{
    assert({
        &&& (instr & 0x0FF0_0FD0 == 0x0C40_0A10) <==> (one(instr, 27) && one(instr, 26)
            && !one(instr, 25) && !one(instr, 24)
            && !one(instr, 23) && one(instr, 22) && !one(instr, 21) && !one(instr, 20)
            && one(instr, 11) && !one(instr, 10) && one(instr, 9) && !one(instr, 8)
            && !one(instr, 7) && !one(instr, 6) && one(instr, 4))
        &&& (instr & 0x0FF0_0FD0 == 0x0C50_0A10) <==> (one(instr, 27) && one(instr, 26)
            && !one(instr, 25) && !one(instr, 24)
            && !one(instr, 23) && one(instr, 22) && !one(instr, 21) && one(instr, 20)
            && one(instr, 11) && !one(instr, 10) && one(instr, 9) && !one(instr, 8)
            && !one(instr, 7) && !one(instr, 6) && one(instr, 4))
        &&& (instr & 0x0FF0_0FD0 == 0x0C40_0B10) <==> (one(instr, 27) && one(instr, 26)
            && !one(instr, 25) && !one(instr, 24)
            && !one(instr, 23) && one(instr, 22) && !one(instr, 21) && !one(instr, 20)
            && one(instr, 11) && !one(instr, 10) && one(instr, 9) && one(instr, 8)
            && !one(instr, 7) && !one(instr, 6) && one(instr, 4))
        &&& (instr & 0x0FF0_0FD0 == 0x0C50_0B10) <==> (one(instr, 27) && one(instr, 26)
            && !one(instr, 25) && !one(instr, 24)
            && !one(instr, 23) && one(instr, 22) && !one(instr, 21) && one(instr, 20)
            && one(instr, 11) && !one(instr, 10) && one(instr, 9) && one(instr, 8)
            && !one(instr, 7) && !one(instr, 6) && one(instr, 4))
        &&& (instr & 0x0FFF_0FFF == 0x0EE1_0A10) <==> (one(instr, 27) && one(instr, 26)
            && one(instr, 25) && !one(instr, 24)
            && one(instr, 23) && one(instr, 22) && one(instr, 21) && !one(instr, 20)
            && !one(instr, 19) && !one(instr, 18) && !one(instr, 17) && one(instr, 16)
            && one(instr, 11) && !one(instr, 10) && one(instr, 9) && !one(instr, 8)
            && !one(instr, 7) && !one(instr, 6) && !one(instr, 5) && one(instr, 4)
            && !one(instr, 3) && !one(instr, 2) && !one(instr, 1) && !one(instr, 0))
        &&& (instr & 0x0FFF_0FFF == 0x0EF1_0A10) <==> (one(instr, 27) && one(instr, 26)
            && one(instr, 25) && !one(instr, 24)
            && one(instr, 23) && one(instr, 22) && one(instr, 21) && one(instr, 20)
            && !one(instr, 19) && !one(instr, 18) && !one(instr, 17) && one(instr, 16)
            && one(instr, 11) && !one(instr, 10) && one(instr, 9) && !one(instr, 8)
            && !one(instr, 7) && !one(instr, 6) && !one(instr, 5) && one(instr, 4)
            && !one(instr, 3) && !one(instr, 2) && !one(instr, 1) && !one(instr, 0))
        &&& (instr & 0x0FB0_0E50 == 0x0E00_0A00) <==> (one(instr, 27) && one(instr, 26)
            && one(instr, 25) && !one(instr, 24)
            && !one(instr, 23) && !one(instr, 21) && !one(instr, 20) && one(instr, 11)
            && !one(instr, 10) && one(instr, 9) && !one(instr, 6) && !one(instr, 4))
        &&& (instr & 0x0FB0_0E50 == 0x0E00_0A40) <==> (one(instr, 27) && one(instr, 26)
            && one(instr, 25) && !one(instr, 24)
            && !one(instr, 23) && !one(instr, 21) && !one(instr, 20) && one(instr, 11)
            && !one(instr, 10) && one(instr, 9) && one(instr, 6) && !one(instr, 4))
        &&& (instr & 0x0FB0_0E50 == 0x0E10_0A00) <==> (one(instr, 27) && one(instr, 26)
            && one(instr, 25) && !one(instr, 24)
            && !one(instr, 23) && !one(instr, 21) && one(instr, 20) && one(instr, 11)
            && !one(instr, 10) && one(instr, 9) && !one(instr, 6) && !one(instr, 4))
        &&& (instr & 0x0FB0_0E50 == 0x0E10_0A40) <==> (one(instr, 27) && one(instr, 26)
            && one(instr, 25) && !one(instr, 24)
            && !one(instr, 23) && !one(instr, 21) && one(instr, 20) && one(instr, 11)
            && !one(instr, 10) && one(instr, 9) && one(instr, 6) && !one(instr, 4))
        &&& (instr & 0x0FB0_0E50 == 0x0E20_0A00) <==> (one(instr, 27) && one(instr, 26)
            && one(instr, 25) && !one(instr, 24)
            && !one(instr, 23) && one(instr, 21) && !one(instr, 20) && one(instr, 11)
            && !one(instr, 10) && one(instr, 9) && !one(instr, 6) && !one(instr, 4))
        &&& (instr & 0x0FB0_0E50 == 0x0E20_0A40) <==> (one(instr, 27) && one(instr, 26)
            && one(instr, 25) && !one(instr, 24)
            && !one(instr, 23) && one(instr, 21) && !one(instr, 20) && one(instr, 11)
            && !one(instr, 10) && one(instr, 9) && one(instr, 6) && !one(instr, 4))
        &&& (instr & 0x0FB0_0E50 == 0x0E30_0A00) <==> (one(instr, 27) && one(instr, 26)
            && one(instr, 25) && !one(instr, 24)
            && !one(instr, 23) && one(instr, 21) && one(instr, 20) && one(instr, 11)
            && !one(instr, 10) && one(instr, 9) && !one(instr, 6) && !one(instr, 4))
        &&& (instr & 0x0FB0_0E50 == 0x0E30_0A40) <==> (one(instr, 27) && one(instr, 26)
            && one(instr, 25) && !one(instr, 24)
            && !one(instr, 23) && one(instr, 21) && one(instr, 20) && one(instr, 11)
            && !one(instr, 10) && one(instr, 9) && one(instr, 6) && !one(instr, 4))
        &&& (instr & 0x0FB0_0E50 == 0x0E80_0A00) <==> (one(instr, 27) && one(instr, 26)
            && one(instr, 25) && !one(instr, 24)
            && one(instr, 23) && !one(instr, 21) && !one(instr, 20) && one(instr, 11)
            && !one(instr, 10) && one(instr, 9) && !one(instr, 6) && !one(instr, 4))
        &&& (instr & 0x0FB0_0E50 == 0x0E90_0A00) <==> (one(instr, 27) && one(instr, 26)
            && one(instr, 25) && !one(instr, 24)
            && one(instr, 23) && !one(instr, 21) && one(instr, 20) && one(instr, 11)
            && !one(instr, 10) && one(instr, 9) && !one(instr, 6) && !one(instr, 4))
        &&& (instr & 0x0FB0_0E50 == 0x0E90_0A40) <==> (one(instr, 27) && one(instr, 26)
            && one(instr, 25) && !one(instr, 24)
            && one(instr, 23) && !one(instr, 21) && one(instr, 20) && one(instr, 11)
            && !one(instr, 10) && one(instr, 9) && one(instr, 6) && !one(instr, 4))
        &&& (instr & 0x0FB0_0E50 == 0x0EA0_0A00) <==> (one(instr, 27) && one(instr, 26)
            && one(instr, 25) && !one(instr, 24)
            && one(instr, 23) && one(instr, 21) && !one(instr, 20) && one(instr, 11)
            && !one(instr, 10) && one(instr, 9) && !one(instr, 6) && !one(instr, 4))
        &&& (instr & 0x0FB0_0E50 == 0x0EA0_0A40) <==> (one(instr, 27) && one(instr, 26)
            && one(instr, 25) && !one(instr, 24)
            && one(instr, 23) && one(instr, 21) && !one(instr, 20) && one(instr, 11)
            && !one(instr, 10) && one(instr, 9) && one(instr, 6) && !one(instr, 4))
        &&& (instr & 0x0FBF_0ED0 == 0x0EB0_0A40) <==> (one(instr, 27) && one(instr, 26)
            && one(instr, 25) && !one(instr, 24)
            && one(instr, 23) && one(instr, 21) && one(instr, 20) && !one(instr, 19)
            && !one(instr, 18) && !one(instr, 17) && !one(instr, 16) && one(instr, 11)
            && !one(instr, 10) && one(instr, 9) && !one(instr, 7) && one(instr, 6)
            && !one(instr, 4))
        &&& (instr & 0x0FBF_0ED0 == 0x0EB0_0AC0) <==> (one(instr, 27) && one(instr, 26)
            && one(instr, 25) && !one(instr, 24)
            && one(instr, 23) && one(instr, 21) && one(instr, 20) && !one(instr, 19)
            && !one(instr, 18) && !one(instr, 17) && !one(instr, 16) && one(instr, 11)
            && !one(instr, 10) && one(instr, 9) && one(instr, 7) && one(instr, 6)
            && !one(instr, 4))
        &&& (instr & 0x0FBF_0ED0 == 0x0EB1_0A40) <==> (one(instr, 27) && one(instr, 26)
            && one(instr, 25) && !one(instr, 24)
            && one(instr, 23) && one(instr, 21) && one(instr, 20) && !one(instr, 19)
            && !one(instr, 18) && !one(instr, 17) && one(instr, 16) && one(instr, 11)
            && !one(instr, 10) && one(instr, 9) && !one(instr, 7) && one(instr, 6)
            && !one(instr, 4))
        &&& (instr & 0x0FBF_0ED0 == 0x0EB1_0AC0) <==> (one(instr, 27) && one(instr, 26)
            && one(instr, 25) && !one(instr, 24)
            && one(instr, 23) && one(instr, 21) && one(instr, 20) && !one(instr, 19)
            && !one(instr, 18) && !one(instr, 17) && one(instr, 16) && one(instr, 11)
            && !one(instr, 10) && one(instr, 9) && one(instr, 7) && one(instr, 6)
            && !one(instr, 4))
        &&& (instr & 0x0FBF_0E50 == 0x0EB4_0A40) <==> (one(instr, 27) && one(instr, 26)
            && one(instr, 25) && !one(instr, 24)
            && one(instr, 23) && one(instr, 21) && one(instr, 20) && !one(instr, 19)
            && one(instr, 18) && !one(instr, 17) && !one(instr, 16) && one(instr, 11)
            && !one(instr, 10) && one(instr, 9) && one(instr, 6) && !one(instr, 4))
        &&& (instr & 0x0FBF_0E7F == 0x0EB5_0A40) <==> (one(instr, 27) && one(instr, 26)
            && one(instr, 25) && !one(instr, 24)
            && one(instr, 23) && one(instr, 21) && one(instr, 20) && !one(instr, 19)
            && one(instr, 18) && !one(instr, 17) && one(instr, 16) && one(instr, 11)
            && !one(instr, 10) && one(instr, 9) && one(instr, 6) && !one(instr, 5)
            && !one(instr, 4) && !one(instr, 3) && !one(instr, 2) && !one(instr, 1)
            && !one(instr, 0))
        &&& (instr & 0x0FBF_0ED0 == 0x0EB7_0AC0) <==> (one(instr, 27) && one(instr, 26)
            && one(instr, 25) && !one(instr, 24)
            && one(instr, 23) && one(instr, 21) && one(instr, 20) && !one(instr, 19)
            && one(instr, 18) && one(instr, 17) && one(instr, 16) && one(instr, 11)
            && !one(instr, 10) && one(instr, 9) && one(instr, 7) && one(instr, 6)
            && !one(instr, 4))
        &&& (instr & 0x0FBF_0E50 == 0x0EB8_0A40) <==> (one(instr, 27) && one(instr, 26)
            && one(instr, 25) && !one(instr, 24)
            && one(instr, 23) && one(instr, 21) && one(instr, 20) && one(instr, 19)
            && !one(instr, 18) && !one(instr, 17) && !one(instr, 16) && one(instr, 11)
            && !one(instr, 10) && one(instr, 9) && one(instr, 6) && !one(instr, 4))
        &&& (instr & 0x0FBF_0E50 == 0x0EBC_0A40) <==> (one(instr, 27) && one(instr, 26)
            && one(instr, 25) && !one(instr, 24)
            && one(instr, 23) && one(instr, 21) && one(instr, 20) && one(instr, 19)
            && one(instr, 18) && !one(instr, 17) && !one(instr, 16) && one(instr, 11)
            && !one(instr, 10) && one(instr, 9) && one(instr, 6) && !one(instr, 4))
        &&& (instr & 0x0FBF_0E50 == 0x0EBD_0A40) <==> (one(instr, 27) && one(instr, 26)
            && one(instr, 25) && !one(instr, 24)
            && one(instr, 23) && one(instr, 21) && one(instr, 20) && one(instr, 19)
            && one(instr, 18) && !one(instr, 17) && one(instr, 16) && one(instr, 11)
            && !one(instr, 10) && one(instr, 9) && one(instr, 6) && !one(instr, 4))
        &&& (instr & 0x0FB0_0EF0 == 0x0EB0_0A00) <==> (one(instr, 27) && one(instr, 26)
            && one(instr, 25) && !one(instr, 24)
            && one(instr, 23) && one(instr, 21) && one(instr, 20) && one(instr, 11)
            && !one(instr, 10) && one(instr, 9) && !one(instr, 7) && !one(instr, 6)
            && !one(instr, 5) && !one(instr, 4))
        &&& (instr & 0x0FF0_0F7F == 0x0E00_0B10) <==> (one(instr, 27) && one(instr, 26)
            && one(instr, 25) && !one(instr, 24)
            && !one(instr, 23) && !one(instr, 22) && !one(instr, 21) && !one(instr, 20)
            && one(instr, 11) && !one(instr, 10) && one(instr, 9) && one(instr, 8)
            && !one(instr, 6) && !one(instr, 5) && one(instr, 4) && !one(instr, 3)
            && !one(instr, 2) && !one(instr, 1) && !one(instr, 0))
        &&& (instr & 0x0FF0_0F7F == 0x0E10_0B10) <==> (one(instr, 27) && one(instr, 26)
            && one(instr, 25) && !one(instr, 24)
            && !one(instr, 23) && !one(instr, 22) && !one(instr, 21) && one(instr, 20)
            && one(instr, 11) && !one(instr, 10) && one(instr, 9) && one(instr, 8)
            && !one(instr, 6) && !one(instr, 5) && one(instr, 4) && !one(instr, 3)
            && !one(instr, 2) && !one(instr, 1) && !one(instr, 0))
        &&& (instr & 0x0FF0_0F7F == 0x0E00_0A10) <==> (one(instr, 27) && one(instr, 26)
            && one(instr, 25) && !one(instr, 24)
            && !one(instr, 23) && !one(instr, 22) && !one(instr, 21) && !one(instr, 20)
            && one(instr, 11) && !one(instr, 10) && one(instr, 9) && !one(instr, 8)
            && !one(instr, 6) && !one(instr, 5) && one(instr, 4) && !one(instr, 3)
            && !one(instr, 2) && !one(instr, 1) && !one(instr, 0))
        &&& (instr & 0x0FF0_0F7F == 0x0E10_0A10) <==> (one(instr, 27) && one(instr, 26)
            && one(instr, 25) && !one(instr, 24)
            && !one(instr, 23) && !one(instr, 22) && !one(instr, 21) && one(instr, 20)
            && one(instr, 11) && !one(instr, 10) && one(instr, 9) && !one(instr, 8)
            && !one(instr, 6) && !one(instr, 5) && one(instr, 4) && !one(instr, 3)
            && !one(instr, 2) && !one(instr, 1) && !one(instr, 0))
        &&& (instr & 0x0FD0_0F7F == 0x0E00_0B10) <==> (one(instr, 27) && one(instr, 26)
            && one(instr, 25) && !one(instr, 24)
            && !one(instr, 23) && !one(instr, 22) && !one(instr, 20) && one(instr, 11)
            && !one(instr, 10) && one(instr, 9) && one(instr, 8) && !one(instr, 6)
            && !one(instr, 5) && one(instr, 4) && !one(instr, 3) && !one(instr, 2)
            && !one(instr, 1) && !one(instr, 0))
        &&& (instr & 0x0FD0_0F7F == 0x0E10_0B10) <==> (one(instr, 27) && one(instr, 26)
            && one(instr, 25) && !one(instr, 24)
            && !one(instr, 23) && !one(instr, 22) && one(instr, 20) && one(instr, 11)
            && !one(instr, 10) && one(instr, 9) && one(instr, 8) && !one(instr, 6)
            && !one(instr, 5) && one(instr, 4) && !one(instr, 3) && !one(instr, 2)
            && !one(instr, 1) && !one(instr, 0))
        &&& (instr & 0x0F90_0F5F == 0x0E80_0B10) <==> (one(instr, 27) && one(instr, 26)
            && one(instr, 25) && !one(instr, 24)
            && one(instr, 23) && !one(instr, 20) && one(instr, 11) && !one(instr, 10)
            && one(instr, 9) && one(instr, 8) && !one(instr, 6) && one(instr, 4)
            && !one(instr, 3) && !one(instr, 2) && !one(instr, 1) && !one(instr, 0))
        &&& (instr & 0x0FFF_FFF0 == 0x0320_F000) <==> (!one(instr, 27) && !one(instr, 26)
            && one(instr, 25) && one(instr, 24)
            && !one(instr, 23) && !one(instr, 22) && one(instr, 21) && !one(instr, 20)
            && !one(instr, 19) && !one(instr, 18) && !one(instr, 17) && !one(instr, 16)
            && one(instr, 15) && one(instr, 14) && one(instr, 13) && one(instr, 12)
            && !one(instr, 11) && !one(instr, 10) && !one(instr, 9) && !one(instr, 8)
            && !one(instr, 7) && !one(instr, 6) && !one(instr, 5) && !one(instr, 4))
        &&& (instr & 0x0F90_0FF0 == 0x0100_0040) <==> (!one(instr, 27) && !one(instr, 26)
            && !one(instr, 25) && one(instr, 24)
            && !one(instr, 23) && !one(instr, 20) && !one(instr, 11) && !one(instr, 10)
            && !one(instr, 9) && !one(instr, 8) && !one(instr, 7) && one(instr, 6)
            && !one(instr, 5) && !one(instr, 4))
        &&& (instr & 0x0F90_0FF0 == 0x0100_0240) <==> (!one(instr, 27) && !one(instr, 26)
            && !one(instr, 25) && one(instr, 24)
            && !one(instr, 23) && !one(instr, 20) && !one(instr, 11) && !one(instr, 10)
            && one(instr, 9) && !one(instr, 8) && !one(instr, 7) && one(instr, 6)
            && !one(instr, 5) && !one(instr, 4))
        &&& (instr & 0x0FE0_0000 == 0x0C40_0000) <==> (one(instr, 27) && one(instr, 26)
            && !one(instr, 25) && !one(instr, 24)
            && !one(instr, 23) && one(instr, 22) && !one(instr, 21))
        &&& (instr & 0x0FBF_0E00 == 0x0D2D_0A00) <==> (one(instr, 27) && one(instr, 26)
            && !one(instr, 25) && one(instr, 24)
            && !one(instr, 23) && one(instr, 21) && !one(instr, 20) && one(instr, 19)
            && one(instr, 18) && !one(instr, 17) && one(instr, 16) && one(instr, 11)
            && !one(instr, 10) && one(instr, 9))
        &&& (instr & 0x0FBF_0E00 == 0x0CBD_0A00) <==> (one(instr, 27) && one(instr, 26)
            && !one(instr, 25) && !one(instr, 24)
            && one(instr, 23) && one(instr, 21) && one(instr, 20) && one(instr, 19)
            && one(instr, 18) && !one(instr, 17) && one(instr, 16) && one(instr, 11)
            && !one(instr, 10) && one(instr, 9))
        &&& (instr & 0x0F30_0E00 == 0x0D10_0A00) <==> (one(instr, 27) && one(instr, 26)
            && !one(instr, 25) && one(instr, 24)
            && !one(instr, 21) && one(instr, 20) && one(instr, 11) && !one(instr, 10)
            && one(instr, 9))
        &&& (instr & 0x0F30_0E00 == 0x0D00_0A00) <==> (one(instr, 27) && one(instr, 26)
            && !one(instr, 25) && one(instr, 24)
            && !one(instr, 21) && !one(instr, 20) && one(instr, 11) && !one(instr, 10)
            && one(instr, 9))
        &&& (instr & 0x0F90_0E00 == 0x0C90_0A00) <==> (one(instr, 27) && one(instr, 26)
            && !one(instr, 25) && !one(instr, 24)
            && one(instr, 23) && one(instr, 20) && one(instr, 11) && !one(instr, 10)
            && one(instr, 9))
        &&& (instr & 0x0F90_0E00 == 0x0C80_0A00) <==> (one(instr, 27) && one(instr, 26)
            && !one(instr, 25) && !one(instr, 24)
            && one(instr, 23) && !one(instr, 20) && one(instr, 11) && !one(instr, 10)
            && one(instr, 9))
        &&& (instr & 0x0FB0_0E00 == 0x0D30_0A00) <==> (one(instr, 27) && one(instr, 26)
            && !one(instr, 25) && one(instr, 24)
            && !one(instr, 23) && one(instr, 21) && one(instr, 20) && one(instr, 11)
            && !one(instr, 10) && one(instr, 9))
        &&& (instr & 0x0FB0_0E00 == 0x0D20_0A00) <==> (one(instr, 27) && one(instr, 26)
            && !one(instr, 25) && one(instr, 24)
            && !one(instr, 23) && one(instr, 21) && !one(instr, 20) && one(instr, 11)
            && !one(instr, 10) && one(instr, 9))
        &&& (instr & 0x0F10_0010 == 0x0E00_0010) <==> (one(instr, 27) && one(instr, 26)
            && one(instr, 25) && !one(instr, 24)
            && !one(instr, 20) && one(instr, 4))
        &&& (instr & 0x0000_0E00 == 0x0000_0A00) <==> (one(instr, 11) && !one(instr, 10)
            && one(instr, 9))
        &&& (instr & 0x0F10_0010 == 0x0E10_0010) <==> (one(instr, 27) && one(instr, 26)
            && one(instr, 25) && !one(instr, 24)
            && one(instr, 20) && one(instr, 4))
        &&& (instr & 0x0F00_0010 == 0x0E00_0000) <==> (one(instr, 27) && one(instr, 26)
            && one(instr, 25) && !one(instr, 24)
            && !one(instr, 4))
        &&& (instr & 0x0FF0_0000 == 0x0C40_0000) <==> (one(instr, 27) && one(instr, 26)
            && !one(instr, 25) && !one(instr, 24)
            && !one(instr, 23) && one(instr, 22) && !one(instr, 21) && !one(instr, 20))
        &&& (instr & 0x0FF0_0000 == 0x0C50_0000) <==> (one(instr, 27) && one(instr, 26)
            && !one(instr, 25) && !one(instr, 24)
            && !one(instr, 23) && one(instr, 22) && !one(instr, 21) && one(instr, 20))
        &&& (instr & 0x0E10_0000 == 0x0C10_0000) <==> (one(instr, 27) && one(instr, 26)
            && !one(instr, 25) && one(instr, 20))
        &&& (instr & 0x0E10_0000 == 0x0C00_0000) <==> (one(instr, 27) && one(instr, 26)
            && !one(instr, 25) && !one(instr, 20))
        &&& ((instr >> 25) & 0x7 == 0) <==> (!one(instr, 27) && !one(instr, 26) && !one(instr, 25))
        &&& ((instr >> 25) & 0x7 == 1) <==> (!one(instr, 27) && !one(instr, 26) && one(instr, 25))
        &&& ((instr >> 25) & 0x7 == 2) <==> (!one(instr, 27) && one(instr, 26) && !one(instr, 25))
        &&& ((instr >> 25) & 0x7 == 3) <==> (!one(instr, 27) && one(instr, 26) && one(instr, 25))
        &&& ((instr >> 25) & 0x7 == 4) <==> (one(instr, 27) && !one(instr, 26) && !one(instr, 25))
        &&& ((instr >> 25) & 0x7 == 5) <==> (one(instr, 27) && !one(instr, 26) && one(instr, 25))
        &&& ((instr >> 25) & 0x7 == 6) <==> (one(instr, 27) && one(instr, 26) && !one(instr, 25))
        &&& ((instr >> 25) & 0x7 == 7) <==> (one(instr, 27) && one(instr, 26) && one(instr, 25))
        &&& ((instr >> 8) & 0xF == 10) <==> (one(instr, 11) && !one(instr, 10) && one(instr, 9)
            && !one(instr, 8))
        &&& ((instr >> 8) & 0xF == 11) <==> (one(instr, 11) && !one(instr, 10) && one(instr, 9)
            && one(instr, 8))
        &&& ((instr >> 16) & 0xF == 13) <==> (one(instr, 19) && one(instr, 18) && !one(instr, 17)
            && one(instr, 16))
        &&& ((instr >> 28) & 0xF == 0xF) <==> (one(instr, 31) && one(instr, 30) && one(instr, 29)
            && one(instr, 28))
        &&& (instr >> 28 != 0xF) <==> !(one(instr, 31) && one(instr, 30) && one(instr, 29)
            && one(instr, 28))
        &&& (instr & 0x100_0000 == 0) <==> !one(instr, 24)
        &&& (instr & 0x10 == 0) <==> !one(instr, 4)
        &&& (instr & 0x10_0000 == 0) <==> !one(instr, 20)
        &&& ((instr >> 24) & 1 == 0) <==> !one(instr, 24)
        &&& ((instr >> 23) & 1 == 0) <==> !one(instr, 23)
        &&& ((instr >> 21) & 1 == 0) <==> !one(instr, 21)
        &&& ((instr >> 20) & 1 == 0) <==> !one(instr, 20)
    }) by (bit_vector);
}

/// The bits of floating-point instructions.
#[verifier::rlimit(50)]
pub proof fn floating_point_bits(instr: u32)
    requires
        instr >> 28 != 0xF,
    ensures
        instr & 0x0FF0_0FD0 == 0x0C40_0A10 ==> arm_encoding(instr)
            == ArmInstId::VMOV_2u32_2f32,
        instr & 0x0FF0_0FD0 == 0x0C50_0A10 ==> arm_encoding(instr)
            == ArmInstId::VMOV_2f32_2u32,
        instr & 0x0FF0_0FD0 == 0x0C40_0B10 ==> arm_encoding(instr)
            == ArmInstId::VMOV_2u32_f64,
        instr & 0x0FF0_0FD0 == 0x0C50_0B10 ==> arm_encoding(instr)
            == ArmInstId::VMOV_f64_2u32,
        instr & 0x0FFF_0FFF == 0x0EE1_0A10 ==> arm_encoding(instr)
            == ArmInstId::VMSR,
        instr & 0x0FFF_0FFF == 0x0EF1_0A10 ==> arm_encoding(instr)
            == ArmInstId::VMRS,
        instr & 0x0FB0_0E50 == 0x0E00_0A00 ==> arm_encoding(instr)
            == ArmInstId::VMLA_fp,
        instr & 0x0FB0_0E50 == 0x0E00_0A40 ==> arm_encoding(instr)
            == ArmInstId::VMLS_fp,
        instr & 0x0FB0_0E50 == 0x0E10_0A00 ==> arm_encoding(instr)
            == ArmInstId::VNMLS_fp,
        instr & 0x0FB0_0E50 == 0x0E10_0A40 ==> arm_encoding(instr)
            == ArmInstId::VNMLA_fp,
        instr & 0x0FB0_0E50 == 0x0E20_0A00 ==> arm_encoding(instr)
            == ArmInstId::VMUL_fp,
        instr & 0x0FB0_0E50 == 0x0E20_0A40 ==> arm_encoding(instr)
            == ArmInstId::VNMUL_fp,
        instr & 0x0FB0_0E50 == 0x0E30_0A00 ==> arm_encoding(instr)
            == ArmInstId::VADD_fp,
        instr & 0x0FB0_0E50 == 0x0E30_0A40 ==> arm_encoding(instr)
            == ArmInstId::VSUB_fp,
        instr & 0x0FB0_0E50 == 0x0E80_0A00 ==> arm_encoding(instr)
            == ArmInstId::VDIV_fp,
        instr & 0x0FB0_0E50 == 0x0E90_0A00 ==> arm_encoding(instr)
            == ArmInstId::VFNMS_fp,
        instr & 0x0FB0_0E50 == 0x0E90_0A40 ==> arm_encoding(instr)
            == ArmInstId::VFNMA_fp,
        instr & 0x0FB0_0E50 == 0x0EA0_0A00 ==> arm_encoding(instr)
            == ArmInstId::VFMA_fp,
        instr & 0x0FB0_0E50 == 0x0EA0_0A40 ==> arm_encoding(instr)
            == ArmInstId::VFMS_fp,
        instr & 0x0FBF_0ED0 == 0x0EB0_0A40 ==> arm_encoding(instr)
            == ArmInstId::VMOV_fp_reg,
        instr & 0x0FBF_0ED0 == 0x0EB0_0AC0 ==> arm_encoding(instr)
            == ArmInstId::VABS_fp,
        instr & 0x0FBF_0ED0 == 0x0EB1_0A40 ==> arm_encoding(instr)
            == ArmInstId::VNEG_fp,
        instr & 0x0FBF_0ED0 == 0x0EB1_0AC0 ==> arm_encoding(instr)
            == ArmInstId::VSQRT_fp,
        instr & 0x0FBF_0E50 == 0x0EB4_0A40 ==> arm_encoding(instr)
            == ArmInstId::VCMP_fp,
        instr & 0x0FBF_0E7F == 0x0EB5_0A40 ==> arm_encoding(instr)
            == ArmInstId::VCMP_zero_fp,
        instr & 0x0FBF_0ED0 == 0x0EB7_0AC0 ==> arm_encoding(instr)
            == ArmInstId::VCVT_f_to_f,
        instr & 0x0FBF_0E50 == 0x0EB8_0A40 ==> arm_encoding(instr)
            == ArmInstId::VCVT_from_int,
        instr & 0x0FBF_0E50 == 0x0EBC_0A40 ==> arm_encoding(instr)
            == ArmInstId::VCVT_to_u32,
        instr & 0x0FBF_0E50 == 0x0EBD_0A40 ==> arm_encoding(instr)
            == ArmInstId::VCVT_to_s32,
        instr & 0x0FB0_0EF0 == 0x0EB0_0A00 ==> arm_encoding(instr)
            == ArmInstId::VMOV_fp_imm,
        instr & 0x0FF0_0F7F == 0x0E00_0B10 ==> arm_encoding(instr)
            == ArmInstId::VMOV_u32_f64,
        instr & 0x0FF0_0F7F == 0x0E10_0B10 ==> arm_encoding(instr)
            == ArmInstId::VMOV_f64_u32,
        instr & 0x0FF0_0F7F == 0x0E00_0A10 ==> arm_encoding(instr)
            == ArmInstId::VMOV_u32_f32,
        instr & 0x0FF0_0F7F == 0x0E10_0A10 ==> arm_encoding(instr)
            == ArmInstId::VMOV_f32_u32,
        instr & 0x0FD0_0F7F == 0x0E00_0B10 && instr & 0x0FF0_0F7F != 0x0E00_0B10
            ==> arm_encoding(instr)
            == ArmInstId::VMOV_from_i32,
        instr & 0x0FD0_0F7F == 0x0E10_0B10 && instr & 0x0FF0_0F7F != 0x0E10_0B10
            ==> arm_encoding(instr)
            == ArmInstId::VMOV_to_i32,
        instr & 0x0F90_0F5F == 0x0E80_0B10 ==> arm_encoding(instr)
            == ArmInstId::VFP_VDUP,
{
    coprocessor_patterns(instr);
}

/// The bits of floating-point loads and stores and of coprocessor instructions.
#[verifier::rlimit(50)]
pub proof fn coprocessor_bits(instr: u32)
    requires
        instr >> 28 != 0xF,
    ensures
        instr & 0x0FBF_0E00 == 0x0D2D_0A00 ==> arm_encoding(instr)
            == ArmInstId::VPUSH,
        instr & 0x0FBF_0E00 == 0x0CBD_0A00 ==> arm_encoding(instr)
            == ArmInstId::VPOP,
        instr & 0x0F30_0E00 == 0x0D10_0A00 ==> arm_encoding(instr)
            == ArmInstId::VLDR_fp,
        instr & 0x0F30_0E00 == 0x0D00_0A00 ==> arm_encoding(instr)
            == ArmInstId::VSTR_fp,
        instr & 0x0F90_0E00 == 0x0C90_0A00 && instr & 0x0FBF_0E00 != 0x0CBD_0A00
            ==> arm_encoding(instr)
            == ArmInstId::VLDM,
        instr & 0x0F90_0E00 == 0x0C80_0A00 ==> arm_encoding(instr)
            == ArmInstId::VSTM,
        instr & 0x0FB0_0E00 == 0x0D30_0A00 ==> arm_encoding(instr)
            == ArmInstId::VLDM,
        instr & 0x0FB0_0E00 == 0x0D20_0A00 && instr & 0x0FBF_0E00 != 0x0D2D_0A00
            ==> arm_encoding(instr)
            == ArmInstId::VSTM,
        instr & 0x0F10_0010 == 0x0E00_0010 && instr & 0x0000_0E00 != 0x0000_0A00
            ==> arm_encoding(instr)
            == ArmInstId::MCR,
        instr & 0x0F10_0010 == 0x0E10_0010 && instr & 0x0000_0E00 != 0x0000_0A00
            ==> arm_encoding(instr)
            == ArmInstId::MRC,
        instr & 0x0F00_0010 == 0x0E00_0000 && instr & 0x0000_0E00 != 0x0000_0A00
            ==> arm_encoding(instr)
            == ArmInstId::CDP,
        instr & 0x0FF0_0000 == 0x0C40_0000 && instr & 0x0000_0E00 != 0x0000_0A00
            ==> arm_encoding(instr)
            == ArmInstId::MCRR,
        instr & 0x0FF0_0000 == 0x0C50_0000 && instr & 0x0000_0E00 != 0x0000_0A00
            ==> arm_encoding(instr)
            == ArmInstId::MRRC,
        instr & 0x0E10_0000 == 0x0C10_0000 && instr & 0x0000_0E00 != 0x0000_0A00
            && instr & 0x0FE0_0000 != 0x0C40_0000 ==> arm_encoding(instr)
            == ArmInstId::LDC,
        instr & 0x0E10_0000 == 0x0C00_0000 && instr & 0x0000_0E00 != 0x0000_0A00
            && instr & 0x0FE0_0000 != 0x0C40_0000 ==> arm_encoding(instr)
            == ArmInstId::STC,
{
    coprocessor_patterns(instr);
}

} // verus!
