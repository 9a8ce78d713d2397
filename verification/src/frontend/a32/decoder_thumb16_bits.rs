//! The bits of each 16-bit Thumb instruction.

use vstd::prelude::*;
use crate::frontend::a32::decoder_thumb16::{thumb16_encoding, Thumb16InstId};

verus! {

/// The bits of 16-bit Thumb instructions: a halfword that fits the pattern of
/// an instruction is decoded as that instruction.
#[verifier::rlimit(50)]
pub proof fn thumb16_bits(instr: u16)
    ensures
        instr & 0xF800 == 0x0000 ==> thumb16_encoding(instr) == Thumb16InstId::LslImm,
        instr & 0xF800 == 0x0800 ==> thumb16_encoding(instr) == Thumb16InstId::LsrImm,
        instr & 0xF800 == 0x1000 ==> thumb16_encoding(instr) == Thumb16InstId::AsrImm,
        instr & 0xFE00 == 0x1800 ==> thumb16_encoding(instr) == Thumb16InstId::AddRegT1,
        instr & 0xFE00 == 0x1A00 ==> thumb16_encoding(instr) == Thumb16InstId::SubReg,
        instr & 0xFE00 == 0x1C00 ==> thumb16_encoding(instr) == Thumb16InstId::AddImmT1,
        instr & 0xFE00 == 0x1E00 ==> thumb16_encoding(instr) == Thumb16InstId::SubImmT1,
        instr & 0xF800 == 0x2000 ==> thumb16_encoding(instr) == Thumb16InstId::MovImm,
        instr & 0xF800 == 0x2800 ==> thumb16_encoding(instr) == Thumb16InstId::CmpImm,
        instr & 0xF800 == 0x3000 ==> thumb16_encoding(instr) == Thumb16InstId::AddImmT2,
        instr & 0xF800 == 0x3800 ==> thumb16_encoding(instr) == Thumb16InstId::SubImmT2,
        instr & 0xFFC0 == 0x4000 ==> thumb16_encoding(instr) == Thumb16InstId::AndReg,
        instr & 0xFFC0 == 0x4040 ==> thumb16_encoding(instr) == Thumb16InstId::EorReg,
        instr & 0xFFC0 == 0x4080 ==> thumb16_encoding(instr) == Thumb16InstId::LslReg,
        instr & 0xFFC0 == 0x40C0 ==> thumb16_encoding(instr) == Thumb16InstId::LsrReg,
        instr & 0xFFC0 == 0x4100 ==> thumb16_encoding(instr) == Thumb16InstId::AsrReg,
        instr & 0xFFC0 == 0x4140 ==> thumb16_encoding(instr) == Thumb16InstId::AdcReg,
        instr & 0xFFC0 == 0x4180 ==> thumb16_encoding(instr) == Thumb16InstId::SbcReg,
        instr & 0xFFC0 == 0x41C0 ==> thumb16_encoding(instr) == Thumb16InstId::RorReg,
        instr & 0xFFC0 == 0x4200 ==> thumb16_encoding(instr) == Thumb16InstId::TstReg,
        instr & 0xFFC0 == 0x4240 ==> thumb16_encoding(instr) == Thumb16InstId::RsbImm,
        instr & 0xFFC0 == 0x4280 ==> thumb16_encoding(instr) == Thumb16InstId::CmpRegT1,
        instr & 0xFFC0 == 0x42C0 ==> thumb16_encoding(instr) == Thumb16InstId::CmnReg,
        instr & 0xFFC0 == 0x4300 ==> thumb16_encoding(instr) == Thumb16InstId::OrrReg,
        instr & 0xFFC0 == 0x4340 ==> thumb16_encoding(instr) == Thumb16InstId::MulReg,
        instr & 0xFFC0 == 0x4380 ==> thumb16_encoding(instr) == Thumb16InstId::BicReg,
        instr & 0xFFC0 == 0x43C0 ==> thumb16_encoding(instr) == Thumb16InstId::MvnReg,
        instr & 0xFF00 == 0x4400 ==> thumb16_encoding(instr) == Thumb16InstId::AddRegT2,
        instr & 0xFF00 == 0x4500 ==> thumb16_encoding(instr) == Thumb16InstId::CmpRegT2,
        instr & 0xFF00 == 0x4600 ==> thumb16_encoding(instr) == Thumb16InstId::MovReg,
        instr & 0xFF80 == 0x4700 ==> thumb16_encoding(instr) == Thumb16InstId::BX,
        instr & 0xFF80 == 0x4780 ==> thumb16_encoding(instr) == Thumb16InstId::BlxReg,
        instr & 0xF800 == 0x4800 ==> thumb16_encoding(instr) == Thumb16InstId::LdrLiteral,
        instr & 0xFE00 == 0x5000 ==> thumb16_encoding(instr) == Thumb16InstId::StrReg,
        instr & 0xFE00 == 0x5200 ==> thumb16_encoding(instr) == Thumb16InstId::StrhReg,
        instr & 0xFE00 == 0x5400 ==> thumb16_encoding(instr) == Thumb16InstId::StrbReg,
        instr & 0xFE00 == 0x5600 ==> thumb16_encoding(instr) == Thumb16InstId::LdrsbReg,
        instr & 0xFE00 == 0x5800 ==> thumb16_encoding(instr) == Thumb16InstId::LdrReg,
        instr & 0xFE00 == 0x5A00 ==> thumb16_encoding(instr) == Thumb16InstId::LdrhReg,
        instr & 0xFE00 == 0x5C00 ==> thumb16_encoding(instr) == Thumb16InstId::LdrbReg,
        instr & 0xFE00 == 0x5E00 ==> thumb16_encoding(instr) == Thumb16InstId::LdrshReg,
        instr & 0xF800 == 0x6000 ==> thumb16_encoding(instr) == Thumb16InstId::StrImmT1,
        instr & 0xF800 == 0x6800 ==> thumb16_encoding(instr) == Thumb16InstId::LdrImmT1,
        instr & 0xF800 == 0x7000 ==> thumb16_encoding(instr) == Thumb16InstId::StrbImm,
        instr & 0xF800 == 0x7800 ==> thumb16_encoding(instr) == Thumb16InstId::LdrbImm,
        instr & 0xF800 == 0x8000 ==> thumb16_encoding(instr) == Thumb16InstId::StrhImm,
        instr & 0xF800 == 0x8800 ==> thumb16_encoding(instr) == Thumb16InstId::LdrhImm,
        instr & 0xF800 == 0x9000 ==> thumb16_encoding(instr) == Thumb16InstId::StrImmT2,
        instr & 0xF800 == 0x9800 ==> thumb16_encoding(instr) == Thumb16InstId::LdrImmT2,
        instr & 0xF800 == 0xA000 ==> thumb16_encoding(instr) == Thumb16InstId::ADR,
        instr & 0xF800 == 0xA800 ==> thumb16_encoding(instr) == Thumb16InstId::AddSpT1,
        instr & 0xFF80 == 0xB000 ==> thumb16_encoding(instr) == Thumb16InstId::AddSpT2,
        instr & 0xF500 == 0xB100 ==> thumb16_encoding(instr) == Thumb16InstId::CbzCbnz,
        instr & 0xFFC0 == 0xB200 ==> thumb16_encoding(instr) == Thumb16InstId::SXTH,
        instr & 0xFFC0 == 0xB240 ==> thumb16_encoding(instr) == Thumb16InstId::SXTB,
        instr & 0xFFC0 == 0xB280 ==> thumb16_encoding(instr) == Thumb16InstId::UXTH,
        instr & 0xFFC0 == 0xB2C0 ==> thumb16_encoding(instr) == Thumb16InstId::UXTB,
        instr & 0xFE00 == 0xB400 ==> thumb16_encoding(instr) == Thumb16InstId::PUSH,
        instr & 0xFE00 == 0xBC00 ==> thumb16_encoding(instr) == Thumb16InstId::POP,
        instr & 0xFFC0 == 0xBA00 ==> thumb16_encoding(instr) == Thumb16InstId::REV,
        instr & 0xFFC0 == 0xBA40 ==> thumb16_encoding(instr) == Thumb16InstId::REV16,
        instr & 0xFFC0 == 0xBAC0 ==> thumb16_encoding(instr) == Thumb16InstId::REVSH,
        instr & 0xFF00 == 0xBE00 ==> thumb16_encoding(instr) == Thumb16InstId::BKPT,
        instr & 0xFFFF == 0xBF00 ==> thumb16_encoding(instr) == Thumb16InstId::NOP,
        instr & 0xFFFF == 0xBF10 ==> thumb16_encoding(instr) == Thumb16InstId::YIELD,
        instr & 0xFFFF == 0xBF20 ==> thumb16_encoding(instr) == Thumb16InstId::WFE,
        instr & 0xFFFF == 0xBF30 ==> thumb16_encoding(instr) == Thumb16InstId::WFI,
        instr & 0xFFFF == 0xBF40 ==> thumb16_encoding(instr) == Thumb16InstId::SEV,
        instr & 0xFFFF == 0xBF50 ==> thumb16_encoding(instr) == Thumb16InstId::SEVL,
        instr & 0xFF00 == 0xBF00 && instr & 0x000F != 0x0000
            ==> thumb16_encoding(instr) == Thumb16InstId::IT,
        instr & 0xF800 == 0xC000 ==> thumb16_encoding(instr) == Thumb16InstId::STMIA,
        instr & 0xF800 == 0xC800 ==> thumb16_encoding(instr) == Thumb16InstId::LDMIA,
        instr & 0xF000 == 0xD000 && instr & 0x0F00 != 0x0E00 && instr & 0x0F00 != 0x0F00
            ==> thumb16_encoding(instr) == Thumb16InstId::BT1,
        instr & 0xFF00 == 0xDE00 ==> thumb16_encoding(instr) == Thumb16InstId::UDF,
        instr & 0xFF00 == 0xDF00 ==> thumb16_encoding(instr) == Thumb16InstId::SVC,
        instr & 0xF800 == 0xE000 ==> thumb16_encoding(instr) == Thumb16InstId::BT2,
{
    assert({
        &&& (instr & 0xF800 == 0x0000) ==> {
            &&& ((instr >> 10) & 0x3F == 0 || (instr >> 10) & 0x3F == 1)
            &&& ((instr >> 11) & 0x1F == 0)
            &&& ((instr >> 9) & 0x7F == 0 || (instr >> 9) & 0x7F == 1 || (instr >> 9) & 0x7F == 2
                || (instr >> 9) & 0x7F == 3)
            &&& ((instr >> 9) & 7 == 0 || (instr >> 9) & 7 == 1 || (instr >> 9) & 7 == 2
                || (instr >> 9) & 7 == 3)
            &&& ((instr >> 8) & 0xF == 0 || (instr >> 8) & 0xF == 1 || (instr >> 8) & 0xF == 2
                || (instr >> 8) & 0xF == 3 || (instr >> 8) & 0xF == 4 || (instr >> 8) & 0xF == 5
                || (instr >> 8) & 0xF == 6 || (instr >> 8) & 0xF == 7)
            &&& (0 <= (instr >> 6) & 0x3F && (instr >> 6) & 0x3F <= 31)
            &&& (0 <= (instr >> 5) & 0x7F && (instr >> 5) & 0x7F <= 63)
            &&& ((instr >> 8) & 0xFF == 0 || (instr >> 8) & 0xFF == 1 || (instr >> 8) & 0xFF == 2
                || (instr >> 8) & 0xFF == 3 || (instr >> 8) & 0xFF == 4 || (instr >> 8) & 0xFF == 5
                || (instr >> 8) & 0xFF == 6 || (instr >> 8) & 0xFF == 7)
            &&& (instr & 0x8 == 0 || instr & 0x8 == 8)
        }
        &&& (instr & 0xF800 == 0x0800) ==> {
            &&& ((instr >> 10) & 0x3F == 2 || (instr >> 10) & 0x3F == 3)
            &&& ((instr >> 11) & 0x1F == 1)
            &&& ((instr >> 9) & 0x7F == 4 || (instr >> 9) & 0x7F == 5 || (instr >> 9) & 0x7F == 6
                || (instr >> 9) & 0x7F == 7)
            &&& ((instr >> 9) & 7 == 4 || (instr >> 9) & 7 == 5 || (instr >> 9) & 7 == 6
                || (instr >> 9) & 7 == 7)
            &&& ((instr >> 8) & 0xF == 8 || (instr >> 8) & 0xF == 9 || (instr >> 8) & 0xF == 10
                || (instr >> 8) & 0xF == 11 || (instr >> 8) & 0xF == 12 || (instr >> 8) & 0xF == 13
                || (instr >> 8) & 0xF == 14 || (instr >> 8) & 0xF == 15)
            &&& (32 <= (instr >> 6) & 0x3F && (instr >> 6) & 0x3F <= 63)
            &&& (64 <= (instr >> 5) & 0x7F && (instr >> 5) & 0x7F <= 127)
            &&& ((instr >> 8) & 0xFF == 8 || (instr >> 8) & 0xFF == 9 || (instr >> 8) & 0xFF == 10
                || (instr >> 8) & 0xFF == 11 || (instr >> 8) & 0xFF == 12
                || (instr >> 8) & 0xFF == 13 || (instr >> 8) & 0xFF == 14
                || (instr >> 8) & 0xFF == 15)
            &&& (instr & 0x8 == 0 || instr & 0x8 == 8)
        }
        &&& (instr & 0xF800 == 0x1000) ==> {
            &&& ((instr >> 10) & 0x3F == 4 || (instr >> 10) & 0x3F == 5)
            &&& ((instr >> 11) & 0x1F == 2)
            &&& ((instr >> 9) & 0x7F == 8 || (instr >> 9) & 0x7F == 9 || (instr >> 9) & 0x7F == 10
                || (instr >> 9) & 0x7F == 11)
            &&& ((instr >> 9) & 7 == 0 || (instr >> 9) & 7 == 1 || (instr >> 9) & 7 == 2
                || (instr >> 9) & 7 == 3)
            &&& ((instr >> 8) & 0xF == 0 || (instr >> 8) & 0xF == 1 || (instr >> 8) & 0xF == 2
                || (instr >> 8) & 0xF == 3 || (instr >> 8) & 0xF == 4 || (instr >> 8) & 0xF == 5
                || (instr >> 8) & 0xF == 6 || (instr >> 8) & 0xF == 7)
            &&& (0 <= (instr >> 6) & 0x3F && (instr >> 6) & 0x3F <= 31)
            &&& (0 <= (instr >> 5) & 0x7F && (instr >> 5) & 0x7F <= 63)
            &&& ((instr >> 8) & 0xFF == 16 || (instr >> 8) & 0xFF == 17 || (instr >> 8) & 0xFF == 18
                || (instr >> 8) & 0xFF == 19 || (instr >> 8) & 0xFF == 20
                || (instr >> 8) & 0xFF == 21 || (instr >> 8) & 0xFF == 22
                || (instr >> 8) & 0xFF == 23)
            &&& (instr & 0x8 == 0 || instr & 0x8 == 8)
        }
        &&& (instr & 0xFE00 == 0x1800) ==> {
            &&& ((instr >> 10) & 0x3F == 6)
            &&& ((instr >> 11) & 0x1F == 3)
            &&& ((instr >> 9) & 3 == 0)
            &&& ((instr >> 6) & 0xF == 0 || (instr >> 6) & 0xF == 1 || (instr >> 6) & 0xF == 2
                || (instr >> 6) & 0xF == 3 || (instr >> 6) & 0xF == 4 || (instr >> 6) & 0xF == 5
                || (instr >> 6) & 0xF == 6 || (instr >> 6) & 0xF == 7)
            &&& ((instr >> 8) & 3 == 0 || (instr >> 8) & 3 == 1)
            &&& ((instr >> 9) & 0x7F == 12)
            &&& ((instr >> 9) & 7 == 4)
            &&& ((instr >> 8) & 0xF == 8 || (instr >> 8) & 0xF == 9)
            &&& ((instr >> 6) & 0x3F == 32 || (instr >> 6) & 0x3F == 33 || (instr >> 6) & 0x3F == 34
                || (instr >> 6) & 0x3F == 35 || (instr >> 6) & 0x3F == 36
                || (instr >> 6) & 0x3F == 37 || (instr >> 6) & 0x3F == 38
                || (instr >> 6) & 0x3F == 39)
            &&& (64 <= (instr >> 5) & 0x7F && (instr >> 5) & 0x7F <= 79)
            &&& ((instr >> 10) & 1 == 0)
            &&& ((instr >> 8) & 0xFF == 24 || (instr >> 8) & 0xFF == 25)
            &&& (instr & 0x8 == 0 || instr & 0x8 == 8)
        }
        &&& (instr & 0xFE00 == 0x1A00) ==> {
            &&& ((instr >> 10) & 0x3F == 6)
            &&& ((instr >> 11) & 0x1F == 3)
            &&& ((instr >> 9) & 3 == 1)
            &&& ((instr >> 6) & 0xF == 8 || (instr >> 6) & 0xF == 9 || (instr >> 6) & 0xF == 10
                || (instr >> 6) & 0xF == 11 || (instr >> 6) & 0xF == 12 || (instr >> 6) & 0xF == 13
                || (instr >> 6) & 0xF == 14 || (instr >> 6) & 0xF == 15)
            &&& ((instr >> 8) & 3 == 2 || (instr >> 8) & 3 == 3)
            &&& ((instr >> 9) & 0x7F == 13)
            &&& ((instr >> 9) & 7 == 5)
            &&& ((instr >> 8) & 0xF == 10 || (instr >> 8) & 0xF == 11)
            &&& ((instr >> 6) & 0x3F == 40 || (instr >> 6) & 0x3F == 41 || (instr >> 6) & 0x3F == 42
                || (instr >> 6) & 0x3F == 43 || (instr >> 6) & 0x3F == 44
                || (instr >> 6) & 0x3F == 45 || (instr >> 6) & 0x3F == 46
                || (instr >> 6) & 0x3F == 47)
            &&& (80 <= (instr >> 5) & 0x7F && (instr >> 5) & 0x7F <= 95)
            &&& ((instr >> 10) & 1 == 0)
            &&& ((instr >> 8) & 0xFF == 26 || (instr >> 8) & 0xFF == 27)
            &&& (instr & 0x8 == 0 || instr & 0x8 == 8)
        }
        &&& (instr & 0xFE00 == 0x1C00) ==> {
            &&& ((instr >> 10) & 0x3F == 7)
            &&& ((instr >> 11) & 0x1F == 3)
            &&& ((instr >> 9) & 3 == 2)
            &&& ((instr >> 6) & 0xF == 0 || (instr >> 6) & 0xF == 1 || (instr >> 6) & 0xF == 2
                || (instr >> 6) & 0xF == 3 || (instr >> 6) & 0xF == 4 || (instr >> 6) & 0xF == 5
                || (instr >> 6) & 0xF == 6 || (instr >> 6) & 0xF == 7)
            &&& ((instr >> 8) & 3 == 0 || (instr >> 8) & 3 == 1)
            &&& ((instr >> 9) & 0x7F == 14)
            &&& ((instr >> 9) & 7 == 6)
            &&& ((instr >> 8) & 0xF == 12 || (instr >> 8) & 0xF == 13)
            &&& ((instr >> 6) & 0x3F == 48 || (instr >> 6) & 0x3F == 49 || (instr >> 6) & 0x3F == 50
                || (instr >> 6) & 0x3F == 51 || (instr >> 6) & 0x3F == 52
                || (instr >> 6) & 0x3F == 53 || (instr >> 6) & 0x3F == 54
                || (instr >> 6) & 0x3F == 55)
            &&& (96 <= (instr >> 5) & 0x7F && (instr >> 5) & 0x7F <= 111)
            &&& ((instr >> 10) & 1 == 1)
            &&& ((instr >> 8) & 0xFF == 28 || (instr >> 8) & 0xFF == 29)
            &&& (instr & 0x8 == 0 || instr & 0x8 == 8)
        }
        &&& (instr & 0xFE00 == 0x1E00) ==> {
            &&& ((instr >> 10) & 0x3F == 7)
            &&& ((instr >> 11) & 0x1F == 3)
            &&& ((instr >> 9) & 3 == 3)
            &&& ((instr >> 6) & 0xF == 8 || (instr >> 6) & 0xF == 9 || (instr >> 6) & 0xF == 10
                || (instr >> 6) & 0xF == 11 || (instr >> 6) & 0xF == 12 || (instr >> 6) & 0xF == 13
                || (instr >> 6) & 0xF == 14 || (instr >> 6) & 0xF == 15)
            &&& ((instr >> 8) & 3 == 2 || (instr >> 8) & 3 == 3)
            &&& ((instr >> 9) & 0x7F == 15)
            &&& ((instr >> 9) & 7 == 7)
            &&& ((instr >> 8) & 0xF == 14 || (instr >> 8) & 0xF == 15)
            &&& ((instr >> 6) & 0x3F == 56 || (instr >> 6) & 0x3F == 57 || (instr >> 6) & 0x3F == 58
                || (instr >> 6) & 0x3F == 59 || (instr >> 6) & 0x3F == 60
                || (instr >> 6) & 0x3F == 61 || (instr >> 6) & 0x3F == 62
                || (instr >> 6) & 0x3F == 63)
            &&& (112 <= (instr >> 5) & 0x7F && (instr >> 5) & 0x7F <= 127)
            &&& ((instr >> 10) & 1 == 1)
            &&& ((instr >> 8) & 0xFF == 30 || (instr >> 8) & 0xFF == 31)
            &&& (instr & 0x8 == 0 || instr & 0x8 == 8)
        }
        &&& (instr & 0xF800 == 0x2000) ==> {
            &&& ((instr >> 10) & 0x3F == 8 || (instr >> 10) & 0x3F == 9)
            &&& ((instr >> 11) & 0x1F == 4)
            &&& ((instr >> 9) & 0x7F == 16 || (instr >> 9) & 0x7F == 17 || (instr >> 9) & 0x7F == 18
                || (instr >> 9) & 0x7F == 19)
            &&& ((instr >> 9) & 7 == 0 || (instr >> 9) & 7 == 1 || (instr >> 9) & 7 == 2
                || (instr >> 9) & 7 == 3)
            &&& ((instr >> 8) & 0xF == 0 || (instr >> 8) & 0xF == 1 || (instr >> 8) & 0xF == 2
                || (instr >> 8) & 0xF == 3 || (instr >> 8) & 0xF == 4 || (instr >> 8) & 0xF == 5
                || (instr >> 8) & 0xF == 6 || (instr >> 8) & 0xF == 7)
            &&& (0 <= (instr >> 6) & 0x3F && (instr >> 6) & 0x3F <= 31)
            &&& (0 <= (instr >> 5) & 0x7F && (instr >> 5) & 0x7F <= 63)
            &&& ((instr >> 8) & 0xFF == 32 || (instr >> 8) & 0xFF == 33 || (instr >> 8) & 0xFF == 34
                || (instr >> 8) & 0xFF == 35 || (instr >> 8) & 0xFF == 36
                || (instr >> 8) & 0xFF == 37 || (instr >> 8) & 0xFF == 38
                || (instr >> 8) & 0xFF == 39)
            &&& (instr & 0x8 == 0 || instr & 0x8 == 8)
        }
        &&& (instr & 0xF800 == 0x2800) ==> {
            &&& ((instr >> 10) & 0x3F == 10 || (instr >> 10) & 0x3F == 11)
            &&& ((instr >> 11) & 0x1F == 5)
            &&& ((instr >> 9) & 0x7F == 20 || (instr >> 9) & 0x7F == 21 || (instr >> 9) & 0x7F == 22
                || (instr >> 9) & 0x7F == 23)
            &&& ((instr >> 9) & 7 == 4 || (instr >> 9) & 7 == 5 || (instr >> 9) & 7 == 6
                || (instr >> 9) & 7 == 7)
            &&& ((instr >> 8) & 0xF == 8 || (instr >> 8) & 0xF == 9 || (instr >> 8) & 0xF == 10
                || (instr >> 8) & 0xF == 11 || (instr >> 8) & 0xF == 12 || (instr >> 8) & 0xF == 13
                || (instr >> 8) & 0xF == 14 || (instr >> 8) & 0xF == 15)
            &&& (32 <= (instr >> 6) & 0x3F && (instr >> 6) & 0x3F <= 63)
            &&& (64 <= (instr >> 5) & 0x7F && (instr >> 5) & 0x7F <= 127)
            &&& ((instr >> 8) & 0xFF == 40 || (instr >> 8) & 0xFF == 41 || (instr >> 8) & 0xFF == 42
                || (instr >> 8) & 0xFF == 43 || (instr >> 8) & 0xFF == 44
                || (instr >> 8) & 0xFF == 45 || (instr >> 8) & 0xFF == 46
                || (instr >> 8) & 0xFF == 47)
            &&& (instr & 0x8 == 0 || instr & 0x8 == 8)
        }
        &&& (instr & 0xF800 == 0x3000) ==> {
            &&& ((instr >> 10) & 0x3F == 12 || (instr >> 10) & 0x3F == 13)
            &&& ((instr >> 11) & 0x1F == 6)
            &&& ((instr >> 9) & 0x7F == 24 || (instr >> 9) & 0x7F == 25 || (instr >> 9) & 0x7F == 26
                || (instr >> 9) & 0x7F == 27)
            &&& ((instr >> 9) & 7 == 0 || (instr >> 9) & 7 == 1 || (instr >> 9) & 7 == 2
                || (instr >> 9) & 7 == 3)
            &&& ((instr >> 8) & 0xF == 0 || (instr >> 8) & 0xF == 1 || (instr >> 8) & 0xF == 2
                || (instr >> 8) & 0xF == 3 || (instr >> 8) & 0xF == 4 || (instr >> 8) & 0xF == 5
                || (instr >> 8) & 0xF == 6 || (instr >> 8) & 0xF == 7)
            &&& (0 <= (instr >> 6) & 0x3F && (instr >> 6) & 0x3F <= 31)
            &&& (0 <= (instr >> 5) & 0x7F && (instr >> 5) & 0x7F <= 63)
            &&& ((instr >> 8) & 0xFF == 48 || (instr >> 8) & 0xFF == 49 || (instr >> 8) & 0xFF == 50
                || (instr >> 8) & 0xFF == 51 || (instr >> 8) & 0xFF == 52
                || (instr >> 8) & 0xFF == 53 || (instr >> 8) & 0xFF == 54
                || (instr >> 8) & 0xFF == 55)
            &&& (instr & 0x8 == 0 || instr & 0x8 == 8)
        }
        &&& (instr & 0xF800 == 0x3800) ==> {
            &&& ((instr >> 10) & 0x3F == 14 || (instr >> 10) & 0x3F == 15)
            &&& ((instr >> 11) & 0x1F == 7)
            &&& ((instr >> 9) & 0x7F == 28 || (instr >> 9) & 0x7F == 29 || (instr >> 9) & 0x7F == 30
                || (instr >> 9) & 0x7F == 31)
            &&& ((instr >> 9) & 7 == 4 || (instr >> 9) & 7 == 5 || (instr >> 9) & 7 == 6
                || (instr >> 9) & 7 == 7)
            &&& ((instr >> 8) & 0xF == 8 || (instr >> 8) & 0xF == 9 || (instr >> 8) & 0xF == 10
                || (instr >> 8) & 0xF == 11 || (instr >> 8) & 0xF == 12 || (instr >> 8) & 0xF == 13
                || (instr >> 8) & 0xF == 14 || (instr >> 8) & 0xF == 15)
            &&& (32 <= (instr >> 6) & 0x3F && (instr >> 6) & 0x3F <= 63)
            &&& (64 <= (instr >> 5) & 0x7F && (instr >> 5) & 0x7F <= 127)
            &&& ((instr >> 8) & 0xFF == 56 || (instr >> 8) & 0xFF == 57 || (instr >> 8) & 0xFF == 58
                || (instr >> 8) & 0xFF == 59 || (instr >> 8) & 0xFF == 60
                || (instr >> 8) & 0xFF == 61 || (instr >> 8) & 0xFF == 62
                || (instr >> 8) & 0xFF == 63)
            &&& (instr & 0x8 == 0 || instr & 0x8 == 8)
        }
        &&& (instr & 0xFFC0 == 0x4000) ==> {
            &&& ((instr >> 10) & 0x3F == 16)
            &&& ((instr >> 11) & 0x1F == 8)
            &&& ((instr >> 9) & 3 == 0)
            &&& ((instr >> 6) & 0xF == 0)
            &&& ((instr >> 8) & 3 == 0)
            &&& ((instr >> 9) & 0x7F == 32)
            &&& ((instr >> 9) & 7 == 0)
            &&& ((instr >> 8) & 0xF == 0)
            &&& ((instr >> 6) & 0x3F == 0)
            &&& ((instr >> 5) & 0x7F == 0 || (instr >> 5) & 0x7F == 1)
            &&& ((instr >> 8) & 1 == 0)
            &&& ((instr >> 10) & 1 == 0)
            &&& ((instr >> 8) & 0xFF == 64)
            &&& (instr & 0x8 == 0 || instr & 0x8 == 8)
            &&& (0 <= instr & 0xFF && instr & 0xFF <= 63)
            &&& instr & 0x80 == 0
        }
        &&& (instr & 0xFFC0 == 0x4040) ==> {
            &&& ((instr >> 10) & 0x3F == 16)
            &&& ((instr >> 11) & 0x1F == 8)
            &&& ((instr >> 9) & 3 == 0)
            &&& ((instr >> 6) & 0xF == 1)
            &&& ((instr >> 8) & 3 == 0)
            &&& ((instr >> 9) & 0x7F == 32)
            &&& ((instr >> 9) & 7 == 0)
            &&& ((instr >> 8) & 0xF == 0)
            &&& ((instr >> 6) & 0x3F == 1)
            &&& ((instr >> 5) & 0x7F == 2 || (instr >> 5) & 0x7F == 3)
            &&& ((instr >> 8) & 1 == 0)
            &&& ((instr >> 10) & 1 == 0)
            &&& ((instr >> 8) & 0xFF == 64)
            &&& (instr & 0x8 == 0 || instr & 0x8 == 8)
            &&& (64 <= instr & 0xFF && instr & 0xFF <= 127)
            &&& instr & 0x80 == 0
        }
        &&& (instr & 0xFFC0 == 0x4080) ==> {
            &&& ((instr >> 10) & 0x3F == 16)
            &&& ((instr >> 11) & 0x1F == 8)
            &&& ((instr >> 9) & 3 == 0)
            &&& ((instr >> 6) & 0xF == 2)
            &&& ((instr >> 8) & 3 == 0)
            &&& ((instr >> 9) & 0x7F == 32)
            &&& ((instr >> 9) & 7 == 0)
            &&& ((instr >> 8) & 0xF == 0)
            &&& ((instr >> 6) & 0x3F == 2)
            &&& ((instr >> 5) & 0x7F == 4 || (instr >> 5) & 0x7F == 5)
            &&& ((instr >> 8) & 1 == 0)
            &&& ((instr >> 10) & 1 == 0)
            &&& ((instr >> 8) & 0xFF == 64)
            &&& (instr & 0x8 == 0 || instr & 0x8 == 8)
            &&& (128 <= instr & 0xFF && instr & 0xFF <= 191)
            &&& instr & 0x80 != 0
        }
        &&& (instr & 0xFFC0 == 0x40C0) ==> {
            &&& ((instr >> 10) & 0x3F == 16)
            &&& ((instr >> 11) & 0x1F == 8)
            &&& ((instr >> 9) & 3 == 0)
            &&& ((instr >> 6) & 0xF == 3)
            &&& ((instr >> 8) & 3 == 0)
            &&& ((instr >> 9) & 0x7F == 32)
            &&& ((instr >> 9) & 7 == 0)
            &&& ((instr >> 8) & 0xF == 0)
            &&& ((instr >> 6) & 0x3F == 3)
            &&& ((instr >> 5) & 0x7F == 6 || (instr >> 5) & 0x7F == 7)
            &&& ((instr >> 8) & 1 == 0)
            &&& ((instr >> 10) & 1 == 0)
            &&& ((instr >> 8) & 0xFF == 64)
            &&& (instr & 0x8 == 0 || instr & 0x8 == 8)
            &&& (192 <= instr & 0xFF && instr & 0xFF <= 255)
            &&& instr & 0x80 != 0
        }
        &&& (instr & 0xFFC0 == 0x4100) ==> {
            &&& ((instr >> 10) & 0x3F == 16)
            &&& ((instr >> 11) & 0x1F == 8)
            &&& ((instr >> 9) & 3 == 0)
            &&& ((instr >> 6) & 0xF == 4)
            &&& ((instr >> 8) & 3 == 1)
            &&& ((instr >> 9) & 0x7F == 32)
            &&& ((instr >> 9) & 7 == 0)
            &&& ((instr >> 8) & 0xF == 1)
            &&& ((instr >> 6) & 0x3F == 4)
            &&& ((instr >> 5) & 0x7F == 8 || (instr >> 5) & 0x7F == 9)
            &&& ((instr >> 8) & 1 == 1)
            &&& ((instr >> 10) & 1 == 0)
            &&& ((instr >> 8) & 0xFF == 65)
            &&& (instr & 0x8 == 0 || instr & 0x8 == 8)
            &&& (0 <= instr & 0xFF && instr & 0xFF <= 63)
            &&& instr & 0x80 == 0
        }
        &&& (instr & 0xFFC0 == 0x4140) ==> {
            &&& ((instr >> 10) & 0x3F == 16)
            &&& ((instr >> 11) & 0x1F == 8)
            &&& ((instr >> 9) & 3 == 0)
            &&& ((instr >> 6) & 0xF == 5)
            &&& ((instr >> 8) & 3 == 1)
            &&& ((instr >> 9) & 0x7F == 32)
            &&& ((instr >> 9) & 7 == 0)
            &&& ((instr >> 8) & 0xF == 1)
            &&& ((instr >> 6) & 0x3F == 5)
            &&& ((instr >> 5) & 0x7F == 10 || (instr >> 5) & 0x7F == 11)
            &&& ((instr >> 8) & 1 == 1)
            &&& ((instr >> 10) & 1 == 0)
            &&& ((instr >> 8) & 0xFF == 65)
            &&& (instr & 0x8 == 0 || instr & 0x8 == 8)
            &&& (64 <= instr & 0xFF && instr & 0xFF <= 127)
            &&& instr & 0x80 == 0
        }
        &&& (instr & 0xFFC0 == 0x4180) ==> {
            &&& ((instr >> 10) & 0x3F == 16)
            &&& ((instr >> 11) & 0x1F == 8)
            &&& ((instr >> 9) & 3 == 0)
            &&& ((instr >> 6) & 0xF == 6)
            &&& ((instr >> 8) & 3 == 1)
            &&& ((instr >> 9) & 0x7F == 32)
            &&& ((instr >> 9) & 7 == 0)
            &&& ((instr >> 8) & 0xF == 1)
            &&& ((instr >> 6) & 0x3F == 6)
            &&& ((instr >> 5) & 0x7F == 12 || (instr >> 5) & 0x7F == 13)
            &&& ((instr >> 8) & 1 == 1)
            &&& ((instr >> 10) & 1 == 0)
            &&& ((instr >> 8) & 0xFF == 65)
            &&& (instr & 0x8 == 0 || instr & 0x8 == 8)
            &&& (128 <= instr & 0xFF && instr & 0xFF <= 191)
            &&& instr & 0x80 != 0
        }
        &&& (instr & 0xFFC0 == 0x41C0) ==> {
            &&& ((instr >> 10) & 0x3F == 16)
            &&& ((instr >> 11) & 0x1F == 8)
            &&& ((instr >> 9) & 3 == 0)
            &&& ((instr >> 6) & 0xF == 7)
            &&& ((instr >> 8) & 3 == 1)
            &&& ((instr >> 9) & 0x7F == 32)
            &&& ((instr >> 9) & 7 == 0)
            &&& ((instr >> 8) & 0xF == 1)
            &&& ((instr >> 6) & 0x3F == 7)
            &&& ((instr >> 5) & 0x7F == 14 || (instr >> 5) & 0x7F == 15)
            &&& ((instr >> 8) & 1 == 1)
            &&& ((instr >> 10) & 1 == 0)
            &&& ((instr >> 8) & 0xFF == 65)
            &&& (instr & 0x8 == 0 || instr & 0x8 == 8)
            &&& (192 <= instr & 0xFF && instr & 0xFF <= 255)
            &&& instr & 0x80 != 0
        }
        &&& (instr & 0xFFC0 == 0x4200) ==> {
            &&& ((instr >> 10) & 0x3F == 16)
            &&& ((instr >> 11) & 0x1F == 8)
            &&& ((instr >> 9) & 3 == 1)
            &&& ((instr >> 6) & 0xF == 8)
            &&& ((instr >> 8) & 3 == 2)
            &&& ((instr >> 9) & 0x7F == 33)
            &&& ((instr >> 9) & 7 == 1)
            &&& ((instr >> 8) & 0xF == 2)
            &&& ((instr >> 6) & 0x3F == 8)
            &&& ((instr >> 5) & 0x7F == 16 || (instr >> 5) & 0x7F == 17)
            &&& ((instr >> 8) & 1 == 0)
            &&& ((instr >> 10) & 1 == 0)
            &&& ((instr >> 8) & 0xFF == 66)
            &&& (instr & 0x8 == 0 || instr & 0x8 == 8)
            &&& (0 <= instr & 0xFF && instr & 0xFF <= 63)
            &&& instr & 0x80 == 0
        }
        &&& (instr & 0xFFC0 == 0x4240) ==> {
            &&& ((instr >> 10) & 0x3F == 16)
            &&& ((instr >> 11) & 0x1F == 8)
            &&& ((instr >> 9) & 3 == 1)
            &&& ((instr >> 6) & 0xF == 9)
            &&& ((instr >> 8) & 3 == 2)
            &&& ((instr >> 9) & 0x7F == 33)
            &&& ((instr >> 9) & 7 == 1)
            &&& ((instr >> 8) & 0xF == 2)
            &&& ((instr >> 6) & 0x3F == 9)
            &&& ((instr >> 5) & 0x7F == 18 || (instr >> 5) & 0x7F == 19)
            &&& ((instr >> 8) & 1 == 0)
            &&& ((instr >> 10) & 1 == 0)
            &&& ((instr >> 8) & 0xFF == 66)
            &&& (instr & 0x8 == 0 || instr & 0x8 == 8)
            &&& (64 <= instr & 0xFF && instr & 0xFF <= 127)
            &&& instr & 0x80 == 0
        }
        &&& (instr & 0xFFC0 == 0x4280) ==> {
            &&& ((instr >> 10) & 0x3F == 16)
            &&& ((instr >> 11) & 0x1F == 8)
            &&& ((instr >> 9) & 3 == 1)
            &&& ((instr >> 6) & 0xF == 10)
            &&& ((instr >> 8) & 3 == 2)
            &&& ((instr >> 9) & 0x7F == 33)
            &&& ((instr >> 9) & 7 == 1)
            &&& ((instr >> 8) & 0xF == 2)
            &&& ((instr >> 6) & 0x3F == 10)
            &&& ((instr >> 5) & 0x7F == 20 || (instr >> 5) & 0x7F == 21)
            &&& ((instr >> 8) & 1 == 0)
            &&& ((instr >> 10) & 1 == 0)
            &&& ((instr >> 8) & 0xFF == 66)
            &&& (instr & 0x8 == 0 || instr & 0x8 == 8)
            &&& (128 <= instr & 0xFF && instr & 0xFF <= 191)
            &&& instr & 0x80 != 0
        }
        &&& (instr & 0xFFC0 == 0x42C0) ==> {
            &&& ((instr >> 10) & 0x3F == 16)
            &&& ((instr >> 11) & 0x1F == 8)
            &&& ((instr >> 9) & 3 == 1)
            &&& ((instr >> 6) & 0xF == 11)
            &&& ((instr >> 8) & 3 == 2)
            &&& ((instr >> 9) & 0x7F == 33)
            &&& ((instr >> 9) & 7 == 1)
            &&& ((instr >> 8) & 0xF == 2)
            &&& ((instr >> 6) & 0x3F == 11)
            &&& ((instr >> 5) & 0x7F == 22 || (instr >> 5) & 0x7F == 23)
            &&& ((instr >> 8) & 1 == 0)
            &&& ((instr >> 10) & 1 == 0)
            &&& ((instr >> 8) & 0xFF == 66)
            &&& (instr & 0x8 == 0 || instr & 0x8 == 8)
            &&& (192 <= instr & 0xFF && instr & 0xFF <= 255)
            &&& instr & 0x80 != 0
        }
        &&& (instr & 0xFFC0 == 0x4300) ==> {
            &&& ((instr >> 10) & 0x3F == 16)
            &&& ((instr >> 11) & 0x1F == 8)
            &&& ((instr >> 9) & 3 == 1)
            &&& ((instr >> 6) & 0xF == 12)
            &&& ((instr >> 8) & 3 == 3)
            &&& ((instr >> 9) & 0x7F == 33)
            &&& ((instr >> 9) & 7 == 1)
            &&& ((instr >> 8) & 0xF == 3)
            &&& ((instr >> 6) & 0x3F == 12)
            &&& ((instr >> 5) & 0x7F == 24 || (instr >> 5) & 0x7F == 25)
            &&& ((instr >> 8) & 1 == 1)
            &&& ((instr >> 10) & 1 == 0)
            &&& ((instr >> 8) & 0xFF == 67)
            &&& (instr & 0x8 == 0 || instr & 0x8 == 8)
            &&& (0 <= instr & 0xFF && instr & 0xFF <= 63)
            &&& instr & 0x80 == 0
        }
        &&& (instr & 0xFFC0 == 0x4340) ==> {
            &&& ((instr >> 10) & 0x3F == 16)
            &&& ((instr >> 11) & 0x1F == 8)
            &&& ((instr >> 9) & 3 == 1)
            &&& ((instr >> 6) & 0xF == 13)
            &&& ((instr >> 8) & 3 == 3)
            &&& ((instr >> 9) & 0x7F == 33)
            &&& ((instr >> 9) & 7 == 1)
            &&& ((instr >> 8) & 0xF == 3)
            &&& ((instr >> 6) & 0x3F == 13)
            &&& ((instr >> 5) & 0x7F == 26 || (instr >> 5) & 0x7F == 27)
            &&& ((instr >> 8) & 1 == 1)
            &&& ((instr >> 10) & 1 == 0)
            &&& ((instr >> 8) & 0xFF == 67)
            &&& (instr & 0x8 == 0 || instr & 0x8 == 8)
            &&& (64 <= instr & 0xFF && instr & 0xFF <= 127)
            &&& instr & 0x80 == 0
        }
        &&& (instr & 0xFFC0 == 0x4380) ==> {
            &&& ((instr >> 10) & 0x3F == 16)
            &&& ((instr >> 11) & 0x1F == 8)
            &&& ((instr >> 9) & 3 == 1)
            &&& ((instr >> 6) & 0xF == 14)
            &&& ((instr >> 8) & 3 == 3)
            &&& ((instr >> 9) & 0x7F == 33)
            &&& ((instr >> 9) & 7 == 1)
            &&& ((instr >> 8) & 0xF == 3)
            &&& ((instr >> 6) & 0x3F == 14)
            &&& ((instr >> 5) & 0x7F == 28 || (instr >> 5) & 0x7F == 29)
            &&& ((instr >> 8) & 1 == 1)
            &&& ((instr >> 10) & 1 == 0)
            &&& ((instr >> 8) & 0xFF == 67)
            &&& (instr & 0x8 == 0 || instr & 0x8 == 8)
            &&& (128 <= instr & 0xFF && instr & 0xFF <= 191)
            &&& instr & 0x80 != 0
        }
        &&& (instr & 0xFFC0 == 0x43C0) ==> {
            &&& ((instr >> 10) & 0x3F == 16)
            &&& ((instr >> 11) & 0x1F == 8)
            &&& ((instr >> 9) & 3 == 1)
            &&& ((instr >> 6) & 0xF == 15)
            &&& ((instr >> 8) & 3 == 3)
            &&& ((instr >> 9) & 0x7F == 33)
            &&& ((instr >> 9) & 7 == 1)
            &&& ((instr >> 8) & 0xF == 3)
            &&& ((instr >> 6) & 0x3F == 15)
            &&& ((instr >> 5) & 0x7F == 30 || (instr >> 5) & 0x7F == 31)
            &&& ((instr >> 8) & 1 == 1)
            &&& ((instr >> 10) & 1 == 0)
            &&& ((instr >> 8) & 0xFF == 67)
            &&& (instr & 0x8 == 0 || instr & 0x8 == 8)
            &&& (192 <= instr & 0xFF && instr & 0xFF <= 255)
            &&& instr & 0x80 != 0
        }
        &&& (instr & 0xFF00 == 0x4400) ==> {
            &&& ((instr >> 10) & 0x3F == 17)
            &&& ((instr >> 11) & 0x1F == 8)
            &&& ((instr >> 9) & 3 == 2)
            &&& ((instr >> 6) & 0xF == 0 || (instr >> 6) & 0xF == 1 || (instr >> 6) & 0xF == 2
                || (instr >> 6) & 0xF == 3)
            &&& ((instr >> 8) & 3 == 0)
            &&& ((instr >> 9) & 0x7F == 34)
            &&& ((instr >> 9) & 7 == 2)
            &&& ((instr >> 8) & 0xF == 4)
            &&& ((instr >> 6) & 0x3F == 16 || (instr >> 6) & 0x3F == 17 || (instr >> 6) & 0x3F == 18
                || (instr >> 6) & 0x3F == 19)
            &&& ((instr >> 5) & 0x7F == 32 || (instr >> 5) & 0x7F == 33 || (instr >> 5) & 0x7F == 34
                || (instr >> 5) & 0x7F == 35 || (instr >> 5) & 0x7F == 36
                || (instr >> 5) & 0x7F == 37 || (instr >> 5) & 0x7F == 38
                || (instr >> 5) & 0x7F == 39)
            &&& ((instr >> 8) & 1 == 0)
            &&& ((instr >> 10) & 1 == 1)
            &&& ((instr >> 8) & 0xFF == 68)
            &&& (instr & 0x8 == 0 || instr & 0x8 == 8)
        }
        &&& (instr & 0xFF00 == 0x4500) ==> {
            &&& ((instr >> 10) & 0x3F == 17)
            &&& ((instr >> 11) & 0x1F == 8)
            &&& ((instr >> 9) & 3 == 2)
            &&& ((instr >> 6) & 0xF == 4 || (instr >> 6) & 0xF == 5 || (instr >> 6) & 0xF == 6
                || (instr >> 6) & 0xF == 7)
            &&& ((instr >> 8) & 3 == 1)
            &&& ((instr >> 9) & 0x7F == 34)
            &&& ((instr >> 9) & 7 == 2)
            &&& ((instr >> 8) & 0xF == 5)
            &&& ((instr >> 6) & 0x3F == 20 || (instr >> 6) & 0x3F == 21 || (instr >> 6) & 0x3F == 22
                || (instr >> 6) & 0x3F == 23)
            &&& ((instr >> 5) & 0x7F == 40 || (instr >> 5) & 0x7F == 41 || (instr >> 5) & 0x7F == 42
                || (instr >> 5) & 0x7F == 43 || (instr >> 5) & 0x7F == 44
                || (instr >> 5) & 0x7F == 45 || (instr >> 5) & 0x7F == 46
                || (instr >> 5) & 0x7F == 47)
            &&& ((instr >> 8) & 1 == 1)
            &&& ((instr >> 10) & 1 == 1)
            &&& ((instr >> 8) & 0xFF == 69)
            &&& (instr & 0x8 == 0 || instr & 0x8 == 8)
        }
        &&& (instr & 0xFF00 == 0x4600) ==> {
            &&& ((instr >> 10) & 0x3F == 17)
            &&& ((instr >> 11) & 0x1F == 8)
            &&& ((instr >> 9) & 3 == 3)
            &&& ((instr >> 6) & 0xF == 8 || (instr >> 6) & 0xF == 9 || (instr >> 6) & 0xF == 10
                || (instr >> 6) & 0xF == 11)
            &&& ((instr >> 8) & 3 == 2)
            &&& ((instr >> 9) & 0x7F == 35)
            &&& ((instr >> 9) & 7 == 3)
            &&& ((instr >> 8) & 0xF == 6)
            &&& ((instr >> 6) & 0x3F == 24 || (instr >> 6) & 0x3F == 25 || (instr >> 6) & 0x3F == 26
                || (instr >> 6) & 0x3F == 27)
            &&& ((instr >> 5) & 0x7F == 48 || (instr >> 5) & 0x7F == 49 || (instr >> 5) & 0x7F == 50
                || (instr >> 5) & 0x7F == 51 || (instr >> 5) & 0x7F == 52
                || (instr >> 5) & 0x7F == 53 || (instr >> 5) & 0x7F == 54
                || (instr >> 5) & 0x7F == 55)
            &&& ((instr >> 8) & 1 == 0)
            &&& ((instr >> 10) & 1 == 1)
            &&& ((instr >> 8) & 0xFF == 70)
            &&& (instr & 0x8 == 0 || instr & 0x8 == 8)
        }
        &&& (instr & 0xFF80 == 0x4700) ==> {
            &&& ((instr >> 10) & 0x3F == 17)
            &&& ((instr >> 11) & 0x1F == 8)
            &&& ((instr >> 9) & 3 == 3)
            &&& ((instr >> 6) & 0xF == 12 || (instr >> 6) & 0xF == 13)
            &&& ((instr >> 8) & 3 == 3)
            &&& ((instr >> 9) & 0x7F == 35)
            &&& ((instr >> 9) & 7 == 3)
            &&& ((instr >> 8) & 0xF == 7)
            &&& ((instr >> 6) & 0x3F == 28 || (instr >> 6) & 0x3F == 29)
            &&& ((instr >> 5) & 0x7F == 56 || (instr >> 5) & 0x7F == 57 || (instr >> 5) & 0x7F == 58
                || (instr >> 5) & 0x7F == 59)
            &&& ((instr >> 8) & 1 == 1)
            &&& ((instr >> 10) & 1 == 1)
            &&& ((instr >> 8) & 0xFF == 71)
            &&& (instr & 0x8 == 0 || instr & 0x8 == 8)
            &&& (0 <= instr & 0xFF && instr & 0xFF <= 127)
            &&& instr & 0x80 == 0
        }
        &&& (instr & 0xFF80 == 0x4780) ==> {
            &&& ((instr >> 10) & 0x3F == 17)
            &&& ((instr >> 11) & 0x1F == 8)
            &&& ((instr >> 9) & 3 == 3)
            &&& ((instr >> 6) & 0xF == 14 || (instr >> 6) & 0xF == 15)
            &&& ((instr >> 8) & 3 == 3)
            &&& ((instr >> 9) & 0x7F == 35)
            &&& ((instr >> 9) & 7 == 3)
            &&& ((instr >> 8) & 0xF == 7)
            &&& ((instr >> 6) & 0x3F == 30 || (instr >> 6) & 0x3F == 31)
            &&& ((instr >> 5) & 0x7F == 60 || (instr >> 5) & 0x7F == 61 || (instr >> 5) & 0x7F == 62
                || (instr >> 5) & 0x7F == 63)
            &&& ((instr >> 8) & 1 == 1)
            &&& ((instr >> 10) & 1 == 1)
            &&& ((instr >> 8) & 0xFF == 71)
            &&& (instr & 0x8 == 0 || instr & 0x8 == 8)
            &&& (128 <= instr & 0xFF && instr & 0xFF <= 255)
            &&& instr & 0x80 != 0
        }
        &&& (instr & 0xF800 == 0x4800) ==> {
            &&& ((instr >> 10) & 0x3F == 18 || (instr >> 10) & 0x3F == 19)
            &&& ((instr >> 11) & 0x1F == 9)
            &&& ((instr >> 9) & 0x7F == 36 || (instr >> 9) & 0x7F == 37 || (instr >> 9) & 0x7F == 38
                || (instr >> 9) & 0x7F == 39)
            &&& ((instr >> 9) & 7 == 4 || (instr >> 9) & 7 == 5 || (instr >> 9) & 7 == 6
                || (instr >> 9) & 7 == 7)
            &&& ((instr >> 8) & 0xF == 8 || (instr >> 8) & 0xF == 9 || (instr >> 8) & 0xF == 10
                || (instr >> 8) & 0xF == 11 || (instr >> 8) & 0xF == 12 || (instr >> 8) & 0xF == 13
                || (instr >> 8) & 0xF == 14 || (instr >> 8) & 0xF == 15)
            &&& (32 <= (instr >> 6) & 0x3F && (instr >> 6) & 0x3F <= 63)
            &&& (64 <= (instr >> 5) & 0x7F && (instr >> 5) & 0x7F <= 127)
            &&& ((instr >> 8) & 0xFF == 72 || (instr >> 8) & 0xFF == 73 || (instr >> 8) & 0xFF == 74
                || (instr >> 8) & 0xFF == 75 || (instr >> 8) & 0xFF == 76
                || (instr >> 8) & 0xFF == 77 || (instr >> 8) & 0xFF == 78
                || (instr >> 8) & 0xFF == 79)
            &&& (instr & 0x8 == 0 || instr & 0x8 == 8)
        }
        &&& (instr & 0xFE00 == 0x5000) ==> {
            &&& ((instr >> 10) & 0x3F == 20)
            &&& ((instr >> 11) & 0x1F == 10)
            &&& ((instr >> 9) & 3 == 0)
            &&& ((instr >> 6) & 0xF == 0 || (instr >> 6) & 0xF == 1 || (instr >> 6) & 0xF == 2
                || (instr >> 6) & 0xF == 3 || (instr >> 6) & 0xF == 4 || (instr >> 6) & 0xF == 5
                || (instr >> 6) & 0xF == 6 || (instr >> 6) & 0xF == 7)
            &&& ((instr >> 8) & 3 == 0 || (instr >> 8) & 3 == 1)
            &&& ((instr >> 9) & 0x7F == 40)
            &&& ((instr >> 9) & 7 == 0)
            &&& ((instr >> 8) & 0xF == 0 || (instr >> 8) & 0xF == 1)
            &&& ((instr >> 6) & 0x3F == 0 || (instr >> 6) & 0x3F == 1 || (instr >> 6) & 0x3F == 2
                || (instr >> 6) & 0x3F == 3 || (instr >> 6) & 0x3F == 4 || (instr >> 6) & 0x3F == 5
                || (instr >> 6) & 0x3F == 6 || (instr >> 6) & 0x3F == 7)
            &&& (0 <= (instr >> 5) & 0x7F && (instr >> 5) & 0x7F <= 15)
            &&& ((instr >> 10) & 1 == 0)
            &&& ((instr >> 8) & 0xFF == 80 || (instr >> 8) & 0xFF == 81)
            &&& (instr & 0x8 == 0 || instr & 0x8 == 8)
        }
        &&& (instr & 0xFE00 == 0x5200) ==> {
            &&& ((instr >> 10) & 0x3F == 20)
            &&& ((instr >> 11) & 0x1F == 10)
            &&& ((instr >> 9) & 3 == 1)
            &&& ((instr >> 6) & 0xF == 8 || (instr >> 6) & 0xF == 9 || (instr >> 6) & 0xF == 10
                || (instr >> 6) & 0xF == 11 || (instr >> 6) & 0xF == 12 || (instr >> 6) & 0xF == 13
                || (instr >> 6) & 0xF == 14 || (instr >> 6) & 0xF == 15)
            &&& ((instr >> 8) & 3 == 2 || (instr >> 8) & 3 == 3)
            &&& ((instr >> 9) & 0x7F == 41)
            &&& ((instr >> 9) & 7 == 1)
            &&& ((instr >> 8) & 0xF == 2 || (instr >> 8) & 0xF == 3)
            &&& ((instr >> 6) & 0x3F == 8 || (instr >> 6) & 0x3F == 9 || (instr >> 6) & 0x3F == 10
                || (instr >> 6) & 0x3F == 11 || (instr >> 6) & 0x3F == 12
                || (instr >> 6) & 0x3F == 13 || (instr >> 6) & 0x3F == 14
                || (instr >> 6) & 0x3F == 15)
            &&& (16 <= (instr >> 5) & 0x7F && (instr >> 5) & 0x7F <= 31)
            &&& ((instr >> 10) & 1 == 0)
            &&& ((instr >> 8) & 0xFF == 82 || (instr >> 8) & 0xFF == 83)
            &&& (instr & 0x8 == 0 || instr & 0x8 == 8)
        }
        &&& (instr & 0xFE00 == 0x5400) ==> {
            &&& ((instr >> 10) & 0x3F == 21)
            &&& ((instr >> 11) & 0x1F == 10)
            &&& ((instr >> 9) & 3 == 2)
            &&& ((instr >> 6) & 0xF == 0 || (instr >> 6) & 0xF == 1 || (instr >> 6) & 0xF == 2
                || (instr >> 6) & 0xF == 3 || (instr >> 6) & 0xF == 4 || (instr >> 6) & 0xF == 5
                || (instr >> 6) & 0xF == 6 || (instr >> 6) & 0xF == 7)
            &&& ((instr >> 8) & 3 == 0 || (instr >> 8) & 3 == 1)
            &&& ((instr >> 9) & 0x7F == 42)
            &&& ((instr >> 9) & 7 == 2)
            &&& ((instr >> 8) & 0xF == 4 || (instr >> 8) & 0xF == 5)
            &&& ((instr >> 6) & 0x3F == 16 || (instr >> 6) & 0x3F == 17 || (instr >> 6) & 0x3F == 18
                || (instr >> 6) & 0x3F == 19 || (instr >> 6) & 0x3F == 20
                || (instr >> 6) & 0x3F == 21 || (instr >> 6) & 0x3F == 22
                || (instr >> 6) & 0x3F == 23)
            &&& (32 <= (instr >> 5) & 0x7F && (instr >> 5) & 0x7F <= 47)
            &&& ((instr >> 10) & 1 == 1)
            &&& ((instr >> 8) & 0xFF == 84 || (instr >> 8) & 0xFF == 85)
            &&& (instr & 0x8 == 0 || instr & 0x8 == 8)
        }
        &&& (instr & 0xFE00 == 0x5600) ==> {
            &&& ((instr >> 10) & 0x3F == 21)
            &&& ((instr >> 11) & 0x1F == 10)
            &&& ((instr >> 9) & 3 == 3)
            &&& ((instr >> 6) & 0xF == 8 || (instr >> 6) & 0xF == 9 || (instr >> 6) & 0xF == 10
                || (instr >> 6) & 0xF == 11 || (instr >> 6) & 0xF == 12 || (instr >> 6) & 0xF == 13
                || (instr >> 6) & 0xF == 14 || (instr >> 6) & 0xF == 15)
            &&& ((instr >> 8) & 3 == 2 || (instr >> 8) & 3 == 3)
            &&& ((instr >> 9) & 0x7F == 43)
            &&& ((instr >> 9) & 7 == 3)
            &&& ((instr >> 8) & 0xF == 6 || (instr >> 8) & 0xF == 7)
            &&& ((instr >> 6) & 0x3F == 24 || (instr >> 6) & 0x3F == 25 || (instr >> 6) & 0x3F == 26
                || (instr >> 6) & 0x3F == 27 || (instr >> 6) & 0x3F == 28
                || (instr >> 6) & 0x3F == 29 || (instr >> 6) & 0x3F == 30
                || (instr >> 6) & 0x3F == 31)
            &&& (48 <= (instr >> 5) & 0x7F && (instr >> 5) & 0x7F <= 63)
            &&& ((instr >> 10) & 1 == 1)
            &&& ((instr >> 8) & 0xFF == 86 || (instr >> 8) & 0xFF == 87)
            &&& (instr & 0x8 == 0 || instr & 0x8 == 8)
        }
        &&& (instr & 0xFE00 == 0x5800) ==> {
            &&& ((instr >> 10) & 0x3F == 22)
            &&& ((instr >> 11) & 0x1F == 11)
            &&& ((instr >> 9) & 3 == 0)
            &&& ((instr >> 6) & 0xF == 0 || (instr >> 6) & 0xF == 1 || (instr >> 6) & 0xF == 2
                || (instr >> 6) & 0xF == 3 || (instr >> 6) & 0xF == 4 || (instr >> 6) & 0xF == 5
                || (instr >> 6) & 0xF == 6 || (instr >> 6) & 0xF == 7)
            &&& ((instr >> 8) & 3 == 0 || (instr >> 8) & 3 == 1)
            &&& ((instr >> 9) & 0x7F == 44)
            &&& ((instr >> 9) & 7 == 4)
            &&& ((instr >> 8) & 0xF == 8 || (instr >> 8) & 0xF == 9)
            &&& ((instr >> 6) & 0x3F == 32 || (instr >> 6) & 0x3F == 33 || (instr >> 6) & 0x3F == 34
                || (instr >> 6) & 0x3F == 35 || (instr >> 6) & 0x3F == 36
                || (instr >> 6) & 0x3F == 37 || (instr >> 6) & 0x3F == 38
                || (instr >> 6) & 0x3F == 39)
            &&& (64 <= (instr >> 5) & 0x7F && (instr >> 5) & 0x7F <= 79)
            &&& ((instr >> 10) & 1 == 0)
            &&& ((instr >> 8) & 0xFF == 88 || (instr >> 8) & 0xFF == 89)
            &&& (instr & 0x8 == 0 || instr & 0x8 == 8)
        }
        &&& (instr & 0xFE00 == 0x5A00) ==> {
            &&& ((instr >> 10) & 0x3F == 22)
            &&& ((instr >> 11) & 0x1F == 11)
            &&& ((instr >> 9) & 3 == 1)
            &&& ((instr >> 6) & 0xF == 8 || (instr >> 6) & 0xF == 9 || (instr >> 6) & 0xF == 10
                || (instr >> 6) & 0xF == 11 || (instr >> 6) & 0xF == 12 || (instr >> 6) & 0xF == 13
                || (instr >> 6) & 0xF == 14 || (instr >> 6) & 0xF == 15)
            &&& ((instr >> 8) & 3 == 2 || (instr >> 8) & 3 == 3)
            &&& ((instr >> 9) & 0x7F == 45)
            &&& ((instr >> 9) & 7 == 5)
            &&& ((instr >> 8) & 0xF == 10 || (instr >> 8) & 0xF == 11)
            &&& ((instr >> 6) & 0x3F == 40 || (instr >> 6) & 0x3F == 41 || (instr >> 6) & 0x3F == 42
                || (instr >> 6) & 0x3F == 43 || (instr >> 6) & 0x3F == 44
                || (instr >> 6) & 0x3F == 45 || (instr >> 6) & 0x3F == 46
                || (instr >> 6) & 0x3F == 47)
            &&& (80 <= (instr >> 5) & 0x7F && (instr >> 5) & 0x7F <= 95)
            &&& ((instr >> 10) & 1 == 0)
            &&& ((instr >> 8) & 0xFF == 90 || (instr >> 8) & 0xFF == 91)
            &&& (instr & 0x8 == 0 || instr & 0x8 == 8)
        }
        &&& (instr & 0xFE00 == 0x5C00) ==> {
            &&& ((instr >> 10) & 0x3F == 23)
            &&& ((instr >> 11) & 0x1F == 11)
            &&& ((instr >> 9) & 3 == 2)
            &&& ((instr >> 6) & 0xF == 0 || (instr >> 6) & 0xF == 1 || (instr >> 6) & 0xF == 2
                || (instr >> 6) & 0xF == 3 || (instr >> 6) & 0xF == 4 || (instr >> 6) & 0xF == 5
                || (instr >> 6) & 0xF == 6 || (instr >> 6) & 0xF == 7)
            &&& ((instr >> 8) & 3 == 0 || (instr >> 8) & 3 == 1)
            &&& ((instr >> 9) & 0x7F == 46)
            &&& ((instr >> 9) & 7 == 6)
            &&& ((instr >> 8) & 0xF == 12 || (instr >> 8) & 0xF == 13)
            &&& ((instr >> 6) & 0x3F == 48 || (instr >> 6) & 0x3F == 49 || (instr >> 6) & 0x3F == 50
                || (instr >> 6) & 0x3F == 51 || (instr >> 6) & 0x3F == 52
                || (instr >> 6) & 0x3F == 53 || (instr >> 6) & 0x3F == 54
                || (instr >> 6) & 0x3F == 55)
            &&& (96 <= (instr >> 5) & 0x7F && (instr >> 5) & 0x7F <= 111)
            &&& ((instr >> 10) & 1 == 1)
            &&& ((instr >> 8) & 0xFF == 92 || (instr >> 8) & 0xFF == 93)
            &&& (instr & 0x8 == 0 || instr & 0x8 == 8)
        }
        &&& (instr & 0xFE00 == 0x5E00) ==> {
            &&& ((instr >> 10) & 0x3F == 23)
            &&& ((instr >> 11) & 0x1F == 11)
            &&& ((instr >> 9) & 3 == 3)
            &&& ((instr >> 6) & 0xF == 8 || (instr >> 6) & 0xF == 9 || (instr >> 6) & 0xF == 10
                || (instr >> 6) & 0xF == 11 || (instr >> 6) & 0xF == 12 || (instr >> 6) & 0xF == 13
                || (instr >> 6) & 0xF == 14 || (instr >> 6) & 0xF == 15)
            &&& ((instr >> 8) & 3 == 2 || (instr >> 8) & 3 == 3)
            &&& ((instr >> 9) & 0x7F == 47)
            &&& ((instr >> 9) & 7 == 7)
            &&& ((instr >> 8) & 0xF == 14 || (instr >> 8) & 0xF == 15)
            &&& ((instr >> 6) & 0x3F == 56 || (instr >> 6) & 0x3F == 57 || (instr >> 6) & 0x3F == 58
                || (instr >> 6) & 0x3F == 59 || (instr >> 6) & 0x3F == 60
                || (instr >> 6) & 0x3F == 61 || (instr >> 6) & 0x3F == 62
                || (instr >> 6) & 0x3F == 63)
            &&& (112 <= (instr >> 5) & 0x7F && (instr >> 5) & 0x7F <= 127)
            &&& ((instr >> 10) & 1 == 1)
            &&& ((instr >> 8) & 0xFF == 94 || (instr >> 8) & 0xFF == 95)
            &&& (instr & 0x8 == 0 || instr & 0x8 == 8)
        }
        &&& (instr & 0xF800 == 0x6000) ==> {
            &&& ((instr >> 10) & 0x3F == 24 || (instr >> 10) & 0x3F == 25)
            &&& ((instr >> 11) & 0x1F == 12)
            &&& ((instr >> 9) & 0x7F == 48 || (instr >> 9) & 0x7F == 49 || (instr >> 9) & 0x7F == 50
                || (instr >> 9) & 0x7F == 51)
            &&& ((instr >> 9) & 7 == 0 || (instr >> 9) & 7 == 1 || (instr >> 9) & 7 == 2
                || (instr >> 9) & 7 == 3)
            &&& ((instr >> 8) & 0xF == 0 || (instr >> 8) & 0xF == 1 || (instr >> 8) & 0xF == 2
                || (instr >> 8) & 0xF == 3 || (instr >> 8) & 0xF == 4 || (instr >> 8) & 0xF == 5
                || (instr >> 8) & 0xF == 6 || (instr >> 8) & 0xF == 7)
            &&& (0 <= (instr >> 6) & 0x3F && (instr >> 6) & 0x3F <= 31)
            &&& (0 <= (instr >> 5) & 0x7F && (instr >> 5) & 0x7F <= 63)
            &&& ((instr >> 8) & 0xFF == 96 || (instr >> 8) & 0xFF == 97 || (instr >> 8) & 0xFF == 98
                || (instr >> 8) & 0xFF == 99 || (instr >> 8) & 0xFF == 100
                || (instr >> 8) & 0xFF == 101 || (instr >> 8) & 0xFF == 102
                || (instr >> 8) & 0xFF == 103)
            &&& (instr & 0x8 == 0 || instr & 0x8 == 8)
        }
        &&& (instr & 0xF800 == 0x6800) ==> {
            &&& ((instr >> 10) & 0x3F == 26 || (instr >> 10) & 0x3F == 27)
            &&& ((instr >> 11) & 0x1F == 13)
            &&& ((instr >> 9) & 0x7F == 52 || (instr >> 9) & 0x7F == 53 || (instr >> 9) & 0x7F == 54
                || (instr >> 9) & 0x7F == 55)
            &&& ((instr >> 9) & 7 == 4 || (instr >> 9) & 7 == 5 || (instr >> 9) & 7 == 6
                || (instr >> 9) & 7 == 7)
            &&& ((instr >> 8) & 0xF == 8 || (instr >> 8) & 0xF == 9 || (instr >> 8) & 0xF == 10
                || (instr >> 8) & 0xF == 11 || (instr >> 8) & 0xF == 12 || (instr >> 8) & 0xF == 13
                || (instr >> 8) & 0xF == 14 || (instr >> 8) & 0xF == 15)
            &&& (32 <= (instr >> 6) & 0x3F && (instr >> 6) & 0x3F <= 63)
            &&& (64 <= (instr >> 5) & 0x7F && (instr >> 5) & 0x7F <= 127)
            &&& ((instr >> 8) & 0xFF == 104 || (instr >> 8) & 0xFF == 105
                || (instr >> 8) & 0xFF == 106 || (instr >> 8) & 0xFF == 107
                || (instr >> 8) & 0xFF == 108 || (instr >> 8) & 0xFF == 109
                || (instr >> 8) & 0xFF == 110 || (instr >> 8) & 0xFF == 111)
            &&& (instr & 0x8 == 0 || instr & 0x8 == 8)
        }
        &&& (instr & 0xF800 == 0x7000) ==> {
            &&& ((instr >> 10) & 0x3F == 28 || (instr >> 10) & 0x3F == 29)
            &&& ((instr >> 11) & 0x1F == 14)
            &&& ((instr >> 9) & 0x7F == 56 || (instr >> 9) & 0x7F == 57 || (instr >> 9) & 0x7F == 58
                || (instr >> 9) & 0x7F == 59)
            &&& ((instr >> 9) & 7 == 0 || (instr >> 9) & 7 == 1 || (instr >> 9) & 7 == 2
                || (instr >> 9) & 7 == 3)
            &&& ((instr >> 8) & 0xF == 0 || (instr >> 8) & 0xF == 1 || (instr >> 8) & 0xF == 2
                || (instr >> 8) & 0xF == 3 || (instr >> 8) & 0xF == 4 || (instr >> 8) & 0xF == 5
                || (instr >> 8) & 0xF == 6 || (instr >> 8) & 0xF == 7)
            &&& (0 <= (instr >> 6) & 0x3F && (instr >> 6) & 0x3F <= 31)
            &&& (0 <= (instr >> 5) & 0x7F && (instr >> 5) & 0x7F <= 63)
            &&& ((instr >> 8) & 0xFF == 112 || (instr >> 8) & 0xFF == 113
                || (instr >> 8) & 0xFF == 114 || (instr >> 8) & 0xFF == 115
                || (instr >> 8) & 0xFF == 116 || (instr >> 8) & 0xFF == 117
                || (instr >> 8) & 0xFF == 118 || (instr >> 8) & 0xFF == 119)
            &&& (instr & 0x8 == 0 || instr & 0x8 == 8)
        }
        &&& (instr & 0xF800 == 0x7800) ==> {
            &&& ((instr >> 10) & 0x3F == 30 || (instr >> 10) & 0x3F == 31)
            &&& ((instr >> 11) & 0x1F == 15)
            &&& ((instr >> 9) & 0x7F == 60 || (instr >> 9) & 0x7F == 61 || (instr >> 9) & 0x7F == 62
                || (instr >> 9) & 0x7F == 63)
            &&& ((instr >> 9) & 7 == 4 || (instr >> 9) & 7 == 5 || (instr >> 9) & 7 == 6
                || (instr >> 9) & 7 == 7)
            &&& ((instr >> 8) & 0xF == 8 || (instr >> 8) & 0xF == 9 || (instr >> 8) & 0xF == 10
                || (instr >> 8) & 0xF == 11 || (instr >> 8) & 0xF == 12 || (instr >> 8) & 0xF == 13
                || (instr >> 8) & 0xF == 14 || (instr >> 8) & 0xF == 15)
            &&& (32 <= (instr >> 6) & 0x3F && (instr >> 6) & 0x3F <= 63)
            &&& (64 <= (instr >> 5) & 0x7F && (instr >> 5) & 0x7F <= 127)
            &&& ((instr >> 8) & 0xFF == 120 || (instr >> 8) & 0xFF == 121
                || (instr >> 8) & 0xFF == 122 || (instr >> 8) & 0xFF == 123
                || (instr >> 8) & 0xFF == 124 || (instr >> 8) & 0xFF == 125
                || (instr >> 8) & 0xFF == 126 || (instr >> 8) & 0xFF == 127)
            &&& (instr & 0x8 == 0 || instr & 0x8 == 8)
        }
        &&& (instr & 0xF800 == 0x8000) ==> {
            &&& ((instr >> 10) & 0x3F == 32 || (instr >> 10) & 0x3F == 33)
            &&& ((instr >> 11) & 0x1F == 16)
            &&& ((instr >> 9) & 0x7F == 64 || (instr >> 9) & 0x7F == 65 || (instr >> 9) & 0x7F == 66
                || (instr >> 9) & 0x7F == 67)
            &&& ((instr >> 9) & 7 == 0 || (instr >> 9) & 7 == 1 || (instr >> 9) & 7 == 2
                || (instr >> 9) & 7 == 3)
            &&& ((instr >> 8) & 0xF == 0 || (instr >> 8) & 0xF == 1 || (instr >> 8) & 0xF == 2
                || (instr >> 8) & 0xF == 3 || (instr >> 8) & 0xF == 4 || (instr >> 8) & 0xF == 5
                || (instr >> 8) & 0xF == 6 || (instr >> 8) & 0xF == 7)
            &&& (0 <= (instr >> 6) & 0x3F && (instr >> 6) & 0x3F <= 31)
            &&& (0 <= (instr >> 5) & 0x7F && (instr >> 5) & 0x7F <= 63)
            &&& ((instr >> 8) & 0xFF == 128 || (instr >> 8) & 0xFF == 129
                || (instr >> 8) & 0xFF == 130 || (instr >> 8) & 0xFF == 131
                || (instr >> 8) & 0xFF == 132 || (instr >> 8) & 0xFF == 133
                || (instr >> 8) & 0xFF == 134 || (instr >> 8) & 0xFF == 135)
            &&& (instr & 0x8 == 0 || instr & 0x8 == 8)
        }
        &&& (instr & 0xF800 == 0x8800) ==> {
            &&& ((instr >> 10) & 0x3F == 34 || (instr >> 10) & 0x3F == 35)
            &&& ((instr >> 11) & 0x1F == 17)
            &&& ((instr >> 9) & 0x7F == 68 || (instr >> 9) & 0x7F == 69 || (instr >> 9) & 0x7F == 70
                || (instr >> 9) & 0x7F == 71)
            &&& ((instr >> 9) & 7 == 4 || (instr >> 9) & 7 == 5 || (instr >> 9) & 7 == 6
                || (instr >> 9) & 7 == 7)
            &&& ((instr >> 8) & 0xF == 8 || (instr >> 8) & 0xF == 9 || (instr >> 8) & 0xF == 10
                || (instr >> 8) & 0xF == 11 || (instr >> 8) & 0xF == 12 || (instr >> 8) & 0xF == 13
                || (instr >> 8) & 0xF == 14 || (instr >> 8) & 0xF == 15)
            &&& (32 <= (instr >> 6) & 0x3F && (instr >> 6) & 0x3F <= 63)
            &&& (64 <= (instr >> 5) & 0x7F && (instr >> 5) & 0x7F <= 127)
            &&& ((instr >> 8) & 0xFF == 136 || (instr >> 8) & 0xFF == 137
                || (instr >> 8) & 0xFF == 138 || (instr >> 8) & 0xFF == 139
                || (instr >> 8) & 0xFF == 140 || (instr >> 8) & 0xFF == 141
                || (instr >> 8) & 0xFF == 142 || (instr >> 8) & 0xFF == 143)
            &&& (instr & 0x8 == 0 || instr & 0x8 == 8)
        }
        &&& (instr & 0xF800 == 0x9000) ==> {
            &&& ((instr >> 10) & 0x3F == 36 || (instr >> 10) & 0x3F == 37)
            &&& ((instr >> 11) & 0x1F == 18)
            &&& ((instr >> 9) & 0x7F == 72 || (instr >> 9) & 0x7F == 73 || (instr >> 9) & 0x7F == 74
                || (instr >> 9) & 0x7F == 75)
            &&& ((instr >> 9) & 7 == 0 || (instr >> 9) & 7 == 1 || (instr >> 9) & 7 == 2
                || (instr >> 9) & 7 == 3)
            &&& ((instr >> 8) & 0xF == 0 || (instr >> 8) & 0xF == 1 || (instr >> 8) & 0xF == 2
                || (instr >> 8) & 0xF == 3 || (instr >> 8) & 0xF == 4 || (instr >> 8) & 0xF == 5
                || (instr >> 8) & 0xF == 6 || (instr >> 8) & 0xF == 7)
            &&& (0 <= (instr >> 6) & 0x3F && (instr >> 6) & 0x3F <= 31)
            &&& (0 <= (instr >> 5) & 0x7F && (instr >> 5) & 0x7F <= 63)
            &&& ((instr >> 8) & 0xFF == 144 || (instr >> 8) & 0xFF == 145
                || (instr >> 8) & 0xFF == 146 || (instr >> 8) & 0xFF == 147
                || (instr >> 8) & 0xFF == 148 || (instr >> 8) & 0xFF == 149
                || (instr >> 8) & 0xFF == 150 || (instr >> 8) & 0xFF == 151)
            &&& (instr & 0x8 == 0 || instr & 0x8 == 8)
        }
        &&& (instr & 0xF800 == 0x9800) ==> {
            &&& ((instr >> 10) & 0x3F == 38 || (instr >> 10) & 0x3F == 39)
            &&& ((instr >> 11) & 0x1F == 19)
            &&& ((instr >> 9) & 0x7F == 76 || (instr >> 9) & 0x7F == 77 || (instr >> 9) & 0x7F == 78
                || (instr >> 9) & 0x7F == 79)
            &&& ((instr >> 9) & 7 == 4 || (instr >> 9) & 7 == 5 || (instr >> 9) & 7 == 6
                || (instr >> 9) & 7 == 7)
            &&& ((instr >> 8) & 0xF == 8 || (instr >> 8) & 0xF == 9 || (instr >> 8) & 0xF == 10
                || (instr >> 8) & 0xF == 11 || (instr >> 8) & 0xF == 12 || (instr >> 8) & 0xF == 13
                || (instr >> 8) & 0xF == 14 || (instr >> 8) & 0xF == 15)
            &&& (32 <= (instr >> 6) & 0x3F && (instr >> 6) & 0x3F <= 63)
            &&& (64 <= (instr >> 5) & 0x7F && (instr >> 5) & 0x7F <= 127)
            &&& ((instr >> 8) & 0xFF == 152 || (instr >> 8) & 0xFF == 153
                || (instr >> 8) & 0xFF == 154 || (instr >> 8) & 0xFF == 155
                || (instr >> 8) & 0xFF == 156 || (instr >> 8) & 0xFF == 157
                || (instr >> 8) & 0xFF == 158 || (instr >> 8) & 0xFF == 159)
            &&& (instr & 0x8 == 0 || instr & 0x8 == 8)
        }
        &&& (instr & 0xF800 == 0xA000) ==> {
            &&& ((instr >> 10) & 0x3F == 40 || (instr >> 10) & 0x3F == 41)
            &&& ((instr >> 11) & 0x1F == 20)
            &&& ((instr >> 9) & 0x7F == 80 || (instr >> 9) & 0x7F == 81 || (instr >> 9) & 0x7F == 82
                || (instr >> 9) & 0x7F == 83)
            &&& ((instr >> 9) & 7 == 0 || (instr >> 9) & 7 == 1 || (instr >> 9) & 7 == 2
                || (instr >> 9) & 7 == 3)
            &&& ((instr >> 8) & 0xF == 0 || (instr >> 8) & 0xF == 1 || (instr >> 8) & 0xF == 2
                || (instr >> 8) & 0xF == 3 || (instr >> 8) & 0xF == 4 || (instr >> 8) & 0xF == 5
                || (instr >> 8) & 0xF == 6 || (instr >> 8) & 0xF == 7)
            &&& (0 <= (instr >> 6) & 0x3F && (instr >> 6) & 0x3F <= 31)
            &&& (0 <= (instr >> 5) & 0x7F && (instr >> 5) & 0x7F <= 63)
            &&& ((instr >> 8) & 0xFF == 160 || (instr >> 8) & 0xFF == 161
                || (instr >> 8) & 0xFF == 162 || (instr >> 8) & 0xFF == 163
                || (instr >> 8) & 0xFF == 164 || (instr >> 8) & 0xFF == 165
                || (instr >> 8) & 0xFF == 166 || (instr >> 8) & 0xFF == 167)
            &&& (instr & 0x8 == 0 || instr & 0x8 == 8)
        }
        &&& (instr & 0xF800 == 0xA800) ==> {
            &&& ((instr >> 10) & 0x3F == 42 || (instr >> 10) & 0x3F == 43)
            &&& ((instr >> 11) & 0x1F == 21)
            &&& ((instr >> 9) & 0x7F == 84 || (instr >> 9) & 0x7F == 85 || (instr >> 9) & 0x7F == 86
                || (instr >> 9) & 0x7F == 87)
            &&& ((instr >> 9) & 7 == 4 || (instr >> 9) & 7 == 5 || (instr >> 9) & 7 == 6
                || (instr >> 9) & 7 == 7)
            &&& ((instr >> 8) & 0xF == 8 || (instr >> 8) & 0xF == 9 || (instr >> 8) & 0xF == 10
                || (instr >> 8) & 0xF == 11 || (instr >> 8) & 0xF == 12 || (instr >> 8) & 0xF == 13
                || (instr >> 8) & 0xF == 14 || (instr >> 8) & 0xF == 15)
            &&& (32 <= (instr >> 6) & 0x3F && (instr >> 6) & 0x3F <= 63)
            &&& (64 <= (instr >> 5) & 0x7F && (instr >> 5) & 0x7F <= 127)
            &&& ((instr >> 8) & 0xFF == 168 || (instr >> 8) & 0xFF == 169
                || (instr >> 8) & 0xFF == 170 || (instr >> 8) & 0xFF == 171
                || (instr >> 8) & 0xFF == 172 || (instr >> 8) & 0xFF == 173
                || (instr >> 8) & 0xFF == 174 || (instr >> 8) & 0xFF == 175)
            &&& (instr & 0x8 == 0 || instr & 0x8 == 8)
        }
        &&& (instr & 0xFF80 == 0xB000) ==> {
            &&& ((instr >> 10) & 0x3F == 44)
            &&& ((instr >> 11) & 0x1F == 22)
            &&& ((instr >> 9) & 3 == 0)
            &&& ((instr >> 6) & 0xF == 0 || (instr >> 6) & 0xF == 1)
            &&& ((instr >> 8) & 3 == 0)
            &&& ((instr >> 9) & 0x7F == 88)
            &&& ((instr >> 9) & 7 == 0)
            &&& ((instr >> 8) & 0xF == 0)
            &&& ((instr >> 6) & 0x3F == 0 || (instr >> 6) & 0x3F == 1)
            &&& ((instr >> 5) & 0x7F == 0 || (instr >> 5) & 0x7F == 1 || (instr >> 5) & 0x7F == 2
                || (instr >> 5) & 0x7F == 3)
            &&& ((instr >> 8) & 1 == 0)
            &&& ((instr >> 10) & 1 == 0)
            &&& ((instr >> 8) & 0xFF == 176)
            &&& (instr & 0x8 == 0 || instr & 0x8 == 8)
            &&& (0 <= instr & 0xFF && instr & 0xFF <= 127)
            &&& instr & 0x80 == 0
        }
        &&& (instr & 0xF500 == 0xB100) ==> {
            &&& ((instr >> 10) & 0x3F == 44 || (instr >> 10) & 0x3F == 46)
            &&& ((instr >> 11) & 0x1F == 22 || (instr >> 11) & 0x1F == 23)
            &&& ((instr >> 9) & 3 == 0 || (instr >> 9) & 3 == 1)
            &&& ((instr >> 6) & 0xF == 4 || (instr >> 6) & 0xF == 5 || (instr >> 6) & 0xF == 6
                || (instr >> 6) & 0xF == 7 || (instr >> 6) & 0xF == 12 || (instr >> 6) & 0xF == 13
                || (instr >> 6) & 0xF == 14 || (instr >> 6) & 0xF == 15)
            &&& ((instr >> 8) & 3 == 1 || (instr >> 8) & 3 == 3)
            &&& ((instr >> 9) & 0x7F == 88 || (instr >> 9) & 0x7F == 89 || (instr >> 9) & 0x7F == 92
                || (instr >> 9) & 0x7F == 93)
            &&& ((instr >> 9) & 7 == 0 || (instr >> 9) & 7 == 1 || (instr >> 9) & 7 == 4
                || (instr >> 9) & 7 == 5)
            &&& ((instr >> 8) & 0xF == 1 || (instr >> 8) & 0xF == 3 || (instr >> 8) & 0xF == 9
                || (instr >> 8) & 0xF == 11)
            &&& (4 <= (instr >> 6) & 0x3F && (instr >> 6) & 0x3F <= 47)
            &&& (8 <= (instr >> 5) & 0x7F && (instr >> 5) & 0x7F <= 95)
            &&& ((instr >> 8) & 1 == 1)
            &&& ((instr >> 10) & 1 == 0)
            &&& ((instr >> 8) & 0xFF == 177 || (instr >> 8) & 0xFF == 179
                || (instr >> 8) & 0xFF == 185 || (instr >> 8) & 0xFF == 187)
            &&& (instr & 0x8 == 0 || instr & 0x8 == 8)
        }
        &&& (instr & 0xFFC0 == 0xB200) ==> {
            &&& ((instr >> 10) & 0x3F == 44)
            &&& ((instr >> 11) & 0x1F == 22)
            &&& ((instr >> 9) & 3 == 1)
            &&& ((instr >> 6) & 0xF == 8)
            &&& ((instr >> 8) & 3 == 2)
            &&& ((instr >> 9) & 0x7F == 89)
            &&& ((instr >> 9) & 7 == 1)
            &&& ((instr >> 8) & 0xF == 2)
            &&& ((instr >> 6) & 0x3F == 8)
            &&& ((instr >> 5) & 0x7F == 16 || (instr >> 5) & 0x7F == 17)
            &&& ((instr >> 8) & 1 == 0)
            &&& ((instr >> 10) & 1 == 0)
            &&& ((instr >> 8) & 0xFF == 178)
            &&& (instr & 0x8 == 0 || instr & 0x8 == 8)
            &&& (0 <= instr & 0xFF && instr & 0xFF <= 63)
            &&& instr & 0x80 == 0
        }
        &&& (instr & 0xFFC0 == 0xB240) ==> {
            &&& ((instr >> 10) & 0x3F == 44)
            &&& ((instr >> 11) & 0x1F == 22)
            &&& ((instr >> 9) & 3 == 1)
            &&& ((instr >> 6) & 0xF == 9)
            &&& ((instr >> 8) & 3 == 2)
            &&& ((instr >> 9) & 0x7F == 89)
            &&& ((instr >> 9) & 7 == 1)
            &&& ((instr >> 8) & 0xF == 2)
            &&& ((instr >> 6) & 0x3F == 9)
            &&& ((instr >> 5) & 0x7F == 18 || (instr >> 5) & 0x7F == 19)
            &&& ((instr >> 8) & 1 == 0)
            &&& ((instr >> 10) & 1 == 0)
            &&& ((instr >> 8) & 0xFF == 178)
            &&& (instr & 0x8 == 0 || instr & 0x8 == 8)
            &&& (64 <= instr & 0xFF && instr & 0xFF <= 127)
            &&& instr & 0x80 == 0
        }
        &&& (instr & 0xFFC0 == 0xB280) ==> {
            &&& ((instr >> 10) & 0x3F == 44)
            &&& ((instr >> 11) & 0x1F == 22)
            &&& ((instr >> 9) & 3 == 1)
            &&& ((instr >> 6) & 0xF == 10)
            &&& ((instr >> 8) & 3 == 2)
            &&& ((instr >> 9) & 0x7F == 89)
            &&& ((instr >> 9) & 7 == 1)
            &&& ((instr >> 8) & 0xF == 2)
            &&& ((instr >> 6) & 0x3F == 10)
            &&& ((instr >> 5) & 0x7F == 20 || (instr >> 5) & 0x7F == 21)
            &&& ((instr >> 8) & 1 == 0)
            &&& ((instr >> 10) & 1 == 0)
            &&& ((instr >> 8) & 0xFF == 178)
            &&& (instr & 0x8 == 0 || instr & 0x8 == 8)
            &&& (128 <= instr & 0xFF && instr & 0xFF <= 191)
            &&& instr & 0x80 != 0
        }
        &&& (instr & 0xFFC0 == 0xB2C0) ==> {
            &&& ((instr >> 10) & 0x3F == 44)
            &&& ((instr >> 11) & 0x1F == 22)
            &&& ((instr >> 9) & 3 == 1)
            &&& ((instr >> 6) & 0xF == 11)
            &&& ((instr >> 8) & 3 == 2)
            &&& ((instr >> 9) & 0x7F == 89)
            &&& ((instr >> 9) & 7 == 1)
            &&& ((instr >> 8) & 0xF == 2)
            &&& ((instr >> 6) & 0x3F == 11)
            &&& ((instr >> 5) & 0x7F == 22 || (instr >> 5) & 0x7F == 23)
            &&& ((instr >> 8) & 1 == 0)
            &&& ((instr >> 10) & 1 == 0)
            &&& ((instr >> 8) & 0xFF == 178)
            &&& (instr & 0x8 == 0 || instr & 0x8 == 8)
            &&& (192 <= instr & 0xFF && instr & 0xFF <= 255)
            &&& instr & 0x80 != 0
        }
        &&& (instr & 0xFE00 == 0xB400) ==> {
            &&& ((instr >> 10) & 0x3F == 45)
            &&& ((instr >> 11) & 0x1F == 22)
            &&& ((instr >> 9) & 3 == 2)
            &&& ((instr >> 6) & 0xF == 0 || (instr >> 6) & 0xF == 1 || (instr >> 6) & 0xF == 2
                || (instr >> 6) & 0xF == 3 || (instr >> 6) & 0xF == 4 || (instr >> 6) & 0xF == 5
                || (instr >> 6) & 0xF == 6 || (instr >> 6) & 0xF == 7)
            &&& ((instr >> 8) & 3 == 0 || (instr >> 8) & 3 == 1)
            &&& ((instr >> 9) & 0x7F == 90)
            &&& ((instr >> 9) & 7 == 2)
            &&& ((instr >> 8) & 0xF == 4 || (instr >> 8) & 0xF == 5)
            &&& ((instr >> 6) & 0x3F == 16 || (instr >> 6) & 0x3F == 17 || (instr >> 6) & 0x3F == 18
                || (instr >> 6) & 0x3F == 19 || (instr >> 6) & 0x3F == 20
                || (instr >> 6) & 0x3F == 21 || (instr >> 6) & 0x3F == 22
                || (instr >> 6) & 0x3F == 23)
            &&& (32 <= (instr >> 5) & 0x7F && (instr >> 5) & 0x7F <= 47)
            &&& ((instr >> 10) & 1 == 1)
            &&& ((instr >> 8) & 0xFF == 180 || (instr >> 8) & 0xFF == 181)
            &&& (instr & 0x8 == 0 || instr & 0x8 == 8)
        }
        &&& (instr & 0xFE00 == 0xBC00) ==> {
            &&& ((instr >> 10) & 0x3F == 47)
            &&& ((instr >> 11) & 0x1F == 23)
            &&& ((instr >> 9) & 3 == 2)
            &&& ((instr >> 6) & 0xF == 0 || (instr >> 6) & 0xF == 1 || (instr >> 6) & 0xF == 2
                || (instr >> 6) & 0xF == 3 || (instr >> 6) & 0xF == 4 || (instr >> 6) & 0xF == 5
                || (instr >> 6) & 0xF == 6 || (instr >> 6) & 0xF == 7)
            &&& ((instr >> 8) & 3 == 0 || (instr >> 8) & 3 == 1)
            &&& ((instr >> 9) & 0x7F == 94)
            &&& ((instr >> 9) & 7 == 6)
            &&& ((instr >> 8) & 0xF == 12 || (instr >> 8) & 0xF == 13)
            &&& ((instr >> 6) & 0x3F == 48 || (instr >> 6) & 0x3F == 49 || (instr >> 6) & 0x3F == 50
                || (instr >> 6) & 0x3F == 51 || (instr >> 6) & 0x3F == 52
                || (instr >> 6) & 0x3F == 53 || (instr >> 6) & 0x3F == 54
                || (instr >> 6) & 0x3F == 55)
            &&& (96 <= (instr >> 5) & 0x7F && (instr >> 5) & 0x7F <= 111)
            &&& ((instr >> 10) & 1 == 1)
            &&& ((instr >> 8) & 0xFF == 188 || (instr >> 8) & 0xFF == 189)
            &&& (instr & 0x8 == 0 || instr & 0x8 == 8)
        }
        &&& (instr & 0xFFC0 == 0xBA00) ==> {
            &&& ((instr >> 10) & 0x3F == 46)
            &&& ((instr >> 11) & 0x1F == 23)
            &&& ((instr >> 9) & 3 == 1)
            &&& ((instr >> 6) & 0xF == 8)
            &&& ((instr >> 8) & 3 == 2)
            &&& ((instr >> 9) & 0x7F == 93)
            &&& ((instr >> 9) & 7 == 5)
            &&& ((instr >> 8) & 0xF == 10)
            &&& ((instr >> 6) & 0x3F == 40)
            &&& ((instr >> 5) & 0x7F == 80 || (instr >> 5) & 0x7F == 81)
            &&& ((instr >> 8) & 1 == 0)
            &&& ((instr >> 10) & 1 == 0)
            &&& ((instr >> 8) & 0xFF == 186)
            &&& (instr & 0x8 == 0 || instr & 0x8 == 8)
            &&& (0 <= instr & 0xFF && instr & 0xFF <= 63)
            &&& instr & 0x80 == 0
        }
        &&& (instr & 0xFFC0 == 0xBA40) ==> {
            &&& ((instr >> 10) & 0x3F == 46)
            &&& ((instr >> 11) & 0x1F == 23)
            &&& ((instr >> 9) & 3 == 1)
            &&& ((instr >> 6) & 0xF == 9)
            &&& ((instr >> 8) & 3 == 2)
            &&& ((instr >> 9) & 0x7F == 93)
            &&& ((instr >> 9) & 7 == 5)
            &&& ((instr >> 8) & 0xF == 10)
            &&& ((instr >> 6) & 0x3F == 41)
            &&& ((instr >> 5) & 0x7F == 82 || (instr >> 5) & 0x7F == 83)
            &&& ((instr >> 8) & 1 == 0)
            &&& ((instr >> 10) & 1 == 0)
            &&& ((instr >> 8) & 0xFF == 186)
            &&& (instr & 0x8 == 0 || instr & 0x8 == 8)
            &&& (64 <= instr & 0xFF && instr & 0xFF <= 127)
            &&& instr & 0x80 == 0
        }
        &&& (instr & 0xFFC0 == 0xBAC0) ==> {
            &&& ((instr >> 10) & 0x3F == 46)
            &&& ((instr >> 11) & 0x1F == 23)
            &&& ((instr >> 9) & 3 == 1)
            &&& ((instr >> 6) & 0xF == 11)
            &&& ((instr >> 8) & 3 == 2)
            &&& ((instr >> 9) & 0x7F == 93)
            &&& ((instr >> 9) & 7 == 5)
            &&& ((instr >> 8) & 0xF == 10)
            &&& ((instr >> 6) & 0x3F == 43)
            &&& ((instr >> 5) & 0x7F == 86 || (instr >> 5) & 0x7F == 87)
            &&& ((instr >> 8) & 1 == 0)
            &&& ((instr >> 10) & 1 == 0)
            &&& ((instr >> 8) & 0xFF == 186)
            &&& (instr & 0x8 == 0 || instr & 0x8 == 8)
            &&& (192 <= instr & 0xFF && instr & 0xFF <= 255)
            &&& instr & 0x80 != 0
        }
        &&& (instr & 0xFF00 == 0xBE00) ==> {
            &&& ((instr >> 10) & 0x3F == 47)
            &&& ((instr >> 11) & 0x1F == 23)
            &&& ((instr >> 9) & 3 == 3)
            &&& ((instr >> 6) & 0xF == 8 || (instr >> 6) & 0xF == 9 || (instr >> 6) & 0xF == 10
                || (instr >> 6) & 0xF == 11)
            &&& ((instr >> 8) & 3 == 2)
            &&& ((instr >> 9) & 0x7F == 95)
            &&& ((instr >> 9) & 7 == 7)
            &&& ((instr >> 8) & 0xF == 14)
            &&& ((instr >> 6) & 0x3F == 56 || (instr >> 6) & 0x3F == 57 || (instr >> 6) & 0x3F == 58
                || (instr >> 6) & 0x3F == 59)
            &&& ((instr >> 5) & 0x7F == 112 || (instr >> 5) & 0x7F == 113
                || (instr >> 5) & 0x7F == 114 || (instr >> 5) & 0x7F == 115
                || (instr >> 5) & 0x7F == 116 || (instr >> 5) & 0x7F == 117
                || (instr >> 5) & 0x7F == 118 || (instr >> 5) & 0x7F == 119)
            &&& ((instr >> 8) & 1 == 0)
            &&& ((instr >> 10) & 1 == 1)
            &&& ((instr >> 8) & 0xFF == 190)
            &&& (instr & 0x8 == 0 || instr & 0x8 == 8)
        }
        &&& (instr & 0xFFFF == 0xBF00) ==> {
            &&& ((instr >> 10) & 0x3F == 47)
            &&& ((instr >> 11) & 0x1F == 23)
            &&& ((instr >> 9) & 3 == 3)
            &&& ((instr >> 6) & 0xF == 12)
            &&& ((instr >> 8) & 3 == 3)
            &&& ((instr >> 9) & 0x7F == 95)
            &&& ((instr >> 9) & 7 == 7)
            &&& ((instr >> 8) & 0xF == 15)
            &&& ((instr >> 6) & 0x3F == 60)
            &&& ((instr >> 5) & 0x7F == 120)
            &&& ((instr >> 8) & 1 == 1)
            &&& ((instr >> 10) & 1 == 1)
            &&& ((instr >> 8) & 0xFF == 191)
            &&& (instr & 0x8 == 0)
            &&& (instr & 0xFF == 0)
            &&& instr & 0x80 == 0
            &&& instr & 0xF == 0
        }
        &&& (instr & 0xFFFF == 0xBF10) ==> {
            &&& ((instr >> 10) & 0x3F == 47)
            &&& ((instr >> 11) & 0x1F == 23)
            &&& ((instr >> 9) & 3 == 3)
            &&& ((instr >> 6) & 0xF == 12)
            &&& ((instr >> 8) & 3 == 3)
            &&& ((instr >> 9) & 0x7F == 95)
            &&& ((instr >> 9) & 7 == 7)
            &&& ((instr >> 8) & 0xF == 15)
            &&& ((instr >> 6) & 0x3F == 60)
            &&& ((instr >> 5) & 0x7F == 120)
            &&& ((instr >> 8) & 1 == 1)
            &&& ((instr >> 10) & 1 == 1)
            &&& ((instr >> 8) & 0xFF == 191)
            &&& (instr & 0x8 == 0)
            &&& (instr & 0xFF == 16)
            &&& instr & 0x80 == 0
            &&& instr & 0xF == 0
        }
        &&& (instr & 0xFFFF == 0xBF20) ==> {
            &&& ((instr >> 10) & 0x3F == 47)
            &&& ((instr >> 11) & 0x1F == 23)
            &&& ((instr >> 9) & 3 == 3)
            &&& ((instr >> 6) & 0xF == 12)
            &&& ((instr >> 8) & 3 == 3)
            &&& ((instr >> 9) & 0x7F == 95)
            &&& ((instr >> 9) & 7 == 7)
            &&& ((instr >> 8) & 0xF == 15)
            &&& ((instr >> 6) & 0x3F == 60)
            &&& ((instr >> 5) & 0x7F == 121)
            &&& ((instr >> 8) & 1 == 1)
            &&& ((instr >> 10) & 1 == 1)
            &&& ((instr >> 8) & 0xFF == 191)
            &&& (instr & 0x8 == 0)
            &&& (instr & 0xFF == 32)
            &&& instr & 0x80 == 0
            &&& instr & 0xF == 0
        }
        &&& (instr & 0xFFFF == 0xBF30) ==> {
            &&& ((instr >> 10) & 0x3F == 47)
            &&& ((instr >> 11) & 0x1F == 23)
            &&& ((instr >> 9) & 3 == 3)
            &&& ((instr >> 6) & 0xF == 12)
            &&& ((instr >> 8) & 3 == 3)
            &&& ((instr >> 9) & 0x7F == 95)
            &&& ((instr >> 9) & 7 == 7)
            &&& ((instr >> 8) & 0xF == 15)
            &&& ((instr >> 6) & 0x3F == 60)
            &&& ((instr >> 5) & 0x7F == 121)
            &&& ((instr >> 8) & 1 == 1)
            &&& ((instr >> 10) & 1 == 1)
            &&& ((instr >> 8) & 0xFF == 191)
            &&& (instr & 0x8 == 0)
            &&& (instr & 0xFF == 48)
            &&& instr & 0x80 == 0
            &&& instr & 0xF == 0
        }
        &&& (instr & 0xFFFF == 0xBF40) ==> {
            &&& ((instr >> 10) & 0x3F == 47)
            &&& ((instr >> 11) & 0x1F == 23)
            &&& ((instr >> 9) & 3 == 3)
            &&& ((instr >> 6) & 0xF == 13)
            &&& ((instr >> 8) & 3 == 3)
            &&& ((instr >> 9) & 0x7F == 95)
            &&& ((instr >> 9) & 7 == 7)
            &&& ((instr >> 8) & 0xF == 15)
            &&& ((instr >> 6) & 0x3F == 61)
            &&& ((instr >> 5) & 0x7F == 122)
            &&& ((instr >> 8) & 1 == 1)
            &&& ((instr >> 10) & 1 == 1)
            &&& ((instr >> 8) & 0xFF == 191)
            &&& (instr & 0x8 == 0)
            &&& (instr & 0xFF == 64)
            &&& instr & 0x80 == 0
            &&& instr & 0xF == 0
        }
        &&& (instr & 0xFFFF == 0xBF50) ==> {
            &&& ((instr >> 10) & 0x3F == 47)
            &&& ((instr >> 11) & 0x1F == 23)
            &&& ((instr >> 9) & 3 == 3)
            &&& ((instr >> 6) & 0xF == 13)
            &&& ((instr >> 8) & 3 == 3)
            &&& ((instr >> 9) & 0x7F == 95)
            &&& ((instr >> 9) & 7 == 7)
            &&& ((instr >> 8) & 0xF == 15)
            &&& ((instr >> 6) & 0x3F == 61)
            &&& ((instr >> 5) & 0x7F == 122)
            &&& ((instr >> 8) & 1 == 1)
            &&& ((instr >> 10) & 1 == 1)
            &&& ((instr >> 8) & 0xFF == 191)
            &&& (instr & 0x8 == 0)
            &&& (instr & 0xFF == 80)
            &&& instr & 0x80 == 0
            &&& instr & 0xF == 0
        }
        &&& (instr & 0xFF00 == 0xBF00 && instr & 0x000F != 0x0000) ==> {
            &&& ((instr >> 10) & 0x3F == 47)
            &&& ((instr >> 11) & 0x1F == 23)
            &&& ((instr >> 9) & 3 == 3)
            &&& ((instr >> 6) & 0xF == 12 || (instr >> 6) & 0xF == 13 || (instr >> 6) & 0xF == 14
                || (instr >> 6) & 0xF == 15)
            &&& ((instr >> 8) & 3 == 3)
            &&& ((instr >> 9) & 0x7F == 95)
            &&& ((instr >> 9) & 7 == 7)
            &&& ((instr >> 8) & 0xF == 15)
            &&& ((instr >> 6) & 0x3F == 60 || (instr >> 6) & 0x3F == 61 || (instr >> 6) & 0x3F == 62
                || (instr >> 6) & 0x3F == 63)
            &&& ((instr >> 5) & 0x7F == 120 || (instr >> 5) & 0x7F == 121
                || (instr >> 5) & 0x7F == 122 || (instr >> 5) & 0x7F == 123
                || (instr >> 5) & 0x7F == 124 || (instr >> 5) & 0x7F == 125
                || (instr >> 5) & 0x7F == 126 || (instr >> 5) & 0x7F == 127)
            &&& ((instr >> 8) & 1 == 1)
            &&& ((instr >> 10) & 1 == 1)
            &&& ((instr >> 8) & 0xFF == 191)
            &&& (instr & 0x8 == 0 || instr & 0x8 == 8)
            &&& instr & 0xFF != 0
            &&& instr & 0xFF != 16
            &&& instr & 0xFF != 32
            &&& instr & 0xFF != 48
            &&& instr & 0xFF != 64
            &&& instr & 0xFF != 80
            &&& instr & 0xF != 0
        }
        &&& (instr & 0xF800 == 0xC000) ==> {
            &&& ((instr >> 10) & 0x3F == 48 || (instr >> 10) & 0x3F == 49)
            &&& ((instr >> 11) & 0x1F == 24)
            &&& ((instr >> 9) & 0x7F == 96 || (instr >> 9) & 0x7F == 97 || (instr >> 9) & 0x7F == 98
                || (instr >> 9) & 0x7F == 99)
            &&& ((instr >> 9) & 7 == 0 || (instr >> 9) & 7 == 1 || (instr >> 9) & 7 == 2
                || (instr >> 9) & 7 == 3)
            &&& ((instr >> 8) & 0xF == 0 || (instr >> 8) & 0xF == 1 || (instr >> 8) & 0xF == 2
                || (instr >> 8) & 0xF == 3 || (instr >> 8) & 0xF == 4 || (instr >> 8) & 0xF == 5
                || (instr >> 8) & 0xF == 6 || (instr >> 8) & 0xF == 7)
            &&& (0 <= (instr >> 6) & 0x3F && (instr >> 6) & 0x3F <= 31)
            &&& (0 <= (instr >> 5) & 0x7F && (instr >> 5) & 0x7F <= 63)
            &&& ((instr >> 8) & 0xFF == 192 || (instr >> 8) & 0xFF == 193
                || (instr >> 8) & 0xFF == 194 || (instr >> 8) & 0xFF == 195
                || (instr >> 8) & 0xFF == 196 || (instr >> 8) & 0xFF == 197
                || (instr >> 8) & 0xFF == 198 || (instr >> 8) & 0xFF == 199)
            &&& (instr & 0x8 == 0 || instr & 0x8 == 8)
        }
        &&& (instr & 0xF800 == 0xC800) ==> {
            &&& ((instr >> 10) & 0x3F == 50 || (instr >> 10) & 0x3F == 51)
            &&& ((instr >> 11) & 0x1F == 25)
            &&& ((instr >> 9) & 0x7F == 100 || (instr >> 9) & 0x7F == 101
                || (instr >> 9) & 0x7F == 102 || (instr >> 9) & 0x7F == 103)
            &&& ((instr >> 9) & 7 == 4 || (instr >> 9) & 7 == 5 || (instr >> 9) & 7 == 6
                || (instr >> 9) & 7 == 7)
            &&& ((instr >> 8) & 0xF == 8 || (instr >> 8) & 0xF == 9 || (instr >> 8) & 0xF == 10
                || (instr >> 8) & 0xF == 11 || (instr >> 8) & 0xF == 12 || (instr >> 8) & 0xF == 13
                || (instr >> 8) & 0xF == 14 || (instr >> 8) & 0xF == 15)
            &&& (32 <= (instr >> 6) & 0x3F && (instr >> 6) & 0x3F <= 63)
            &&& (64 <= (instr >> 5) & 0x7F && (instr >> 5) & 0x7F <= 127)
            &&& ((instr >> 8) & 0xFF == 200 || (instr >> 8) & 0xFF == 201
                || (instr >> 8) & 0xFF == 202 || (instr >> 8) & 0xFF == 203
                || (instr >> 8) & 0xFF == 204 || (instr >> 8) & 0xFF == 205
                || (instr >> 8) & 0xFF == 206 || (instr >> 8) & 0xFF == 207)
            &&& (instr & 0x8 == 0 || instr & 0x8 == 8)
        }
        &&& (instr & 0xF000 == 0xD000 && instr & 0x0F00 != 0x0E00 && instr & 0x0F00 != 0x0F00) ==> {
            &&& ((instr >> 10) & 0x3F == 52 || (instr >> 10) & 0x3F == 53
                || (instr >> 10) & 0x3F == 54 || (instr >> 10) & 0x3F == 55)
            &&& ((instr >> 11) & 0x1F == 26 || (instr >> 11) & 0x1F == 27)
            &&& ((instr >> 9) & 0x7F == 104 || (instr >> 9) & 0x7F == 105
                || (instr >> 9) & 0x7F == 106 || (instr >> 9) & 0x7F == 107
                || (instr >> 9) & 0x7F == 108 || (instr >> 9) & 0x7F == 109
                || (instr >> 9) & 0x7F == 110 || (instr >> 9) & 0x7F == 111)
            &&& (208 <= (instr >> 8) & 0xFF && (instr >> 8) & 0xFF <= 223)
            &&& (instr & 0x8 == 0 || instr & 0x8 == 8)
            &&& (instr >> 8) & 0xF != 14
            &&& (instr >> 8) & 0xF != 15
        }
        &&& (instr & 0xFF00 == 0xDE00) ==> {
            &&& ((instr >> 10) & 0x3F == 55)
            &&& ((instr >> 11) & 0x1F == 27)
            &&& ((instr >> 9) & 3 == 3)
            &&& ((instr >> 6) & 0xF == 8 || (instr >> 6) & 0xF == 9 || (instr >> 6) & 0xF == 10
                || (instr >> 6) & 0xF == 11)
            &&& ((instr >> 8) & 3 == 2)
            &&& ((instr >> 9) & 0x7F == 111)
            &&& ((instr >> 9) & 7 == 7)
            &&& ((instr >> 8) & 0xF == 14)
            &&& ((instr >> 6) & 0x3F == 56 || (instr >> 6) & 0x3F == 57 || (instr >> 6) & 0x3F == 58
                || (instr >> 6) & 0x3F == 59)
            &&& ((instr >> 5) & 0x7F == 112 || (instr >> 5) & 0x7F == 113
                || (instr >> 5) & 0x7F == 114 || (instr >> 5) & 0x7F == 115
                || (instr >> 5) & 0x7F == 116 || (instr >> 5) & 0x7F == 117
                || (instr >> 5) & 0x7F == 118 || (instr >> 5) & 0x7F == 119)
            &&& ((instr >> 8) & 1 == 0)
            &&& ((instr >> 10) & 1 == 1)
            &&& ((instr >> 8) & 0xFF == 222)
            &&& (instr & 0x8 == 0 || instr & 0x8 == 8)
        }
        &&& (instr & 0xFF00 == 0xDF00) ==> {
            &&& ((instr >> 10) & 0x3F == 55)
            &&& ((instr >> 11) & 0x1F == 27)
            &&& ((instr >> 9) & 3 == 3)
            &&& ((instr >> 6) & 0xF == 12 || (instr >> 6) & 0xF == 13 || (instr >> 6) & 0xF == 14
                || (instr >> 6) & 0xF == 15)
            &&& ((instr >> 8) & 3 == 3)
            &&& ((instr >> 9) & 0x7F == 111)
            &&& ((instr >> 9) & 7 == 7)
            &&& ((instr >> 8) & 0xF == 15)
            &&& ((instr >> 6) & 0x3F == 60 || (instr >> 6) & 0x3F == 61 || (instr >> 6) & 0x3F == 62
                || (instr >> 6) & 0x3F == 63)
            &&& ((instr >> 5) & 0x7F == 120 || (instr >> 5) & 0x7F == 121
                || (instr >> 5) & 0x7F == 122 || (instr >> 5) & 0x7F == 123
                || (instr >> 5) & 0x7F == 124 || (instr >> 5) & 0x7F == 125
                || (instr >> 5) & 0x7F == 126 || (instr >> 5) & 0x7F == 127)
            &&& ((instr >> 8) & 1 == 1)
            &&& ((instr >> 10) & 1 == 1)
            &&& ((instr >> 8) & 0xFF == 223)
            &&& (instr & 0x8 == 0 || instr & 0x8 == 8)
        }
        &&& (instr & 0xF800 == 0xE000) ==> {
            &&& ((instr >> 10) & 0x3F == 56 || (instr >> 10) & 0x3F == 57)
            &&& ((instr >> 11) & 0x1F == 28)
            &&& ((instr >> 9) & 0x7F == 112 || (instr >> 9) & 0x7F == 113
                || (instr >> 9) & 0x7F == 114 || (instr >> 9) & 0x7F == 115)
            &&& ((instr >> 9) & 7 == 0 || (instr >> 9) & 7 == 1 || (instr >> 9) & 7 == 2
                || (instr >> 9) & 7 == 3)
            &&& ((instr >> 8) & 0xF == 0 || (instr >> 8) & 0xF == 1 || (instr >> 8) & 0xF == 2
                || (instr >> 8) & 0xF == 3 || (instr >> 8) & 0xF == 4 || (instr >> 8) & 0xF == 5
                || (instr >> 8) & 0xF == 6 || (instr >> 8) & 0xF == 7)
            &&& (0 <= (instr >> 6) & 0x3F && (instr >> 6) & 0x3F <= 31)
            &&& (0 <= (instr >> 5) & 0x7F && (instr >> 5) & 0x7F <= 63)
            &&& ((instr >> 8) & 0xFF == 224 || (instr >> 8) & 0xFF == 225
                || (instr >> 8) & 0xFF == 226 || (instr >> 8) & 0xFF == 227
                || (instr >> 8) & 0xFF == 228 || (instr >> 8) & 0xFF == 229
                || (instr >> 8) & 0xFF == 230 || (instr >> 8) & 0xFF == 231)
            &&& (instr & 0x8 == 0 || instr & 0x8 == 8)
        }
    }) by (bit_vector);
}

} // verus!
