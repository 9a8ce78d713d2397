//! Decoding of 16-bit Thumb instructions.

use vstd::prelude::*;
use crate::frontend::a32::types::{reg, Reg};

verus! {

broadcast use crate::bits::and_le_mask_u16;

/// A decoded 16-bit Thumb instruction: its bits and the instruction that they
/// encode.
#[derive(Clone, Copy, Debug)]
pub struct DecodedThumb16 {
    pub raw: u16,
    pub id: Thumb16InstId,
}

/// A 16-bit Thumb instruction.
#[derive(Clone, Copy, Debug, PartialEq, Eq, Hash, Structural)]
pub enum Thumb16InstId {
    LslImm,
    LsrImm,
    AsrImm,
    AddRegT1,
    SubReg,
    AddImmT1,
    SubImmT1,
    MovImm,
    CmpImm,
    AddImmT2,
    SubImmT2,
    AndReg,
    EorReg,
    LslReg,
    LsrReg,
    AsrReg,
    AdcReg,
    SbcReg,
    RorReg,
    TstReg,
    RsbImm,
    CmpRegT1,
    CmnReg,
    OrrReg,
    MulReg,
    BicReg,
    MvnReg,
    AddRegT2,
    CmpRegT2,
    MovReg,
    LdrLiteral,
    StrReg,
    StrhReg,
    StrbReg,
    LdrsbReg,
    LdrReg,
    LdrhReg,
    LdrbReg,
    LdrshReg,
    StrImmT1,
    LdrImmT1,
    StrbImm,
    LdrbImm,
    StrhImm,
    LdrhImm,
    StrImmT2,
    LdrImmT2,
    ADR,
    AddSpT1,
    AddSpT2,
    SubSp,
    SXTH,
    SXTB,
    UXTH,
    UXTB,
    PUSH,
    POP,
    REV,
    REV16,
    REVSH,
    NOP,
    SEV,
    SEVL,
    WFE,
    WFI,
    YIELD,
    BKPT,
    IT,
    SETEND,
    CPS,
    CbzCbnz,
    STMIA,
    LDMIA,
    BX,
    BlxReg,
    BT1,
    BT2,
    SVC,
    UDF,
    Unknown,
}

impl DecodedThumb16 {
    /// Register `Rd`, bits 2 to 0.
    #[verifier::allow_in_spec]
    pub fn rd_lo(&self) -> Reg
        returns
            reg((self.raw & 7) as u32),
    {
        Reg::from_u32((self.raw & 7) as u32)
    }

    /// Register `Rn`, bits 5 to 3.
    #[verifier::allow_in_spec]
    pub fn rn_lo(&self) -> Reg
        returns
            reg(((self.raw >> 3) & 7) as u32),
    {
        Reg::from_u32(((self.raw >> 3) & 7) as u32)
    }

    /// Register `Rm`, bits 8 to 6.
    #[verifier::allow_in_spec]
    pub fn rm_lo(&self) -> Reg
        returns
            reg(((self.raw >> 6) & 7) as u32),
    {
        Reg::from_u32(((self.raw >> 6) & 7) as u32)
    }

    /// Register `Rt` of loads and stores near a base, bits 10 to 8.
    #[verifier::allow_in_spec]
    pub fn rt_hi(&self) -> Reg
        returns
            reg(((self.raw >> 8) & 7) as u32),
    {
        Reg::from_u32(((self.raw >> 8) & 7) as u32)
    }

    /// Register `Rm` among all registers, bits 6 to 3.
    #[verifier::allow_in_spec]
    pub fn rm_hi(&self) -> Reg
        returns
            reg(((self.raw >> 3) & 0xF) as u32),
    {
        Reg::from_u32(((self.raw >> 3) & 0xF) as u32)
    }

    /// Register `Rd` among all registers, bit 7 above bits 2 to 0.
    #[verifier::allow_in_spec]
    pub fn rd_dn(&self) -> Reg
        returns
            reg((((self.raw >> 7) & 1) * 8 + (self.raw & 7)) as u32),
    {
        Reg::from_u32((((self.raw >> 7) & 1) * 8 + (self.raw & 7)) as u32)
    }

    /// Register `Rn` among all registers, bit 7 above bits 2 to 0.
    #[verifier::allow_in_spec]
    pub fn rn_dn(&self) -> Reg
        returns
            reg((((self.raw >> 7) & 1) * 8 + (self.raw & 7)) as u32),
    {
        Reg::from_u32((((self.raw >> 7) & 1) * 8 + (self.raw & 7)) as u32)
    }

    /// The immediate in bits 10 to 6.
    #[verifier::allow_in_spec]
    pub fn imm5(&self) -> u32
        returns
            ((self.raw >> 6) & 0x1F) as u32,
    {
        ((self.raw >> 6) & 0x1F) as u32
    }

    /// The immediate in bits 8 to 6.
    #[verifier::allow_in_spec]
    pub fn imm3(&self) -> u32
        returns
            ((self.raw >> 6) & 7) as u32,
    {
        ((self.raw >> 6) & 7) as u32
    }

    /// The immediate in bits 7 to 0.
    #[verifier::allow_in_spec]
    pub fn imm8(&self) -> u32
        returns
            (self.raw & 0xFF) as u32,
    {
        (self.raw & 0xFF) as u32
    }

    /// The immediate in bits 6 to 0.
    #[verifier::allow_in_spec]
    pub fn imm7(&self) -> u32
        returns
            (self.raw & 0x7F) as u32,
    {
        (self.raw & 0x7F) as u32
    }

    /// The immediate in bits 10 to 0.
    #[verifier::allow_in_spec]
    pub fn imm11(&self) -> u32
        returns
            (self.raw & 0x7FF) as u32,
    {
        (self.raw & 0x7FF) as u32
    }

    /// The register list in bits 7 to 0.
    #[verifier::allow_in_spec]
    pub fn register_list(&self) -> u16
        returns
            self.raw & 0xFF,
    {
        self.raw & 0xFF
    }

    /// The condition of a branch, bits 11 to 8.
    #[verifier::allow_in_spec]
    pub fn cond(&self) -> u8
        returns
            ((self.raw >> 8) & 0xF) as u8,
    {
        ((self.raw >> 8) & 0xF) as u8
    }

}

/// The instruction that a halfword encodes, by its upper six bits.
pub open spec fn thumb16_encoding(instr: u16) -> Thumb16InstId {
    let opcode = (instr >> 10) & 0x3F;
    if opcode < 16 {
        shift_add_encoding(instr)
    } else if opcode == 16 {
        dp_encoding(instr)
    } else if opcode == 17 {
        special_encoding(instr)
    } else if opcode < 20 {
        Thumb16InstId::LdrLiteral
    } else if opcode < 40 {
        load_store_encoding(instr)
    } else if opcode < 42 {
        Thumb16InstId::ADR
    } else if opcode < 44 {
        Thumb16InstId::AddSpT1
    } else if opcode < 48 {
        misc_encoding(instr)
    } else if opcode < 50 {
        Thumb16InstId::STMIA
    } else if opcode < 52 {
        Thumb16InstId::LDMIA
    } else if opcode < 56 {
        cond_branch_encoding(instr)
    } else if opcode < 58 {
        Thumb16InstId::BT2
    } else {
        Thumb16InstId::Unknown
    }
}

/// Decodes a 16-bit Thumb instruction.
pub fn decode_thumb16(instr: u16) -> (r: DecodedThumb16)
    ensures
        r.raw == instr,
        r.id == thumb16_encoding(instr),
{
    let opcode: u16 = (instr >> 10) & 0x3F;
    let low: u16 = opcode % 4;
    let id = match opcode / 4 {
        0b0000..=0b0011 => decode_thumb16_shift_add(instr),
        0b0100 => if low == 0 {
            decode_thumb16_dp(instr)
        } else if low == 1 {
            decode_thumb16_special(instr)
        } else {
            Thumb16InstId::LdrLiteral
        },
        0b0101..=0b1001 => decode_thumb16_load_store(instr),
        0b1010 => if low < 2 { Thumb16InstId::ADR } else { Thumb16InstId::AddSpT1 },
        0b1011 => decode_thumb16_misc(instr),
        0b1100 => if low < 2 { Thumb16InstId::STMIA } else { Thumb16InstId::LDMIA },
        0b1101 => decode_thumb16_cond_branch(instr),
        0b1110 => if low < 2 { Thumb16InstId::BT2 } else { Thumb16InstId::Unknown },
        _ => Thumb16InstId::Unknown,
    };
    DecodedThumb16 { raw: instr, id }
}

/// Shifts, additions, subtractions, moves and comparisons with immediates.
pub open spec fn shift_add_encoding(instr: u16) -> Thumb16InstId {
    let op = (instr >> 11) & 0x1F;
    let op2 = (instr >> 9) & 3;
    if op == 0 {
        Thumb16InstId::LslImm
    } else if op == 1 {
        Thumb16InstId::LsrImm
    } else if op == 2 {
        Thumb16InstId::AsrImm
    } else if op == 3 {
        if op2 == 0 {
            Thumb16InstId::AddRegT1
        } else if op2 == 1 {
            Thumb16InstId::SubReg
        } else if op2 == 2 {
            Thumb16InstId::AddImmT1
        } else {
            Thumb16InstId::SubImmT1
        }
    } else if op == 4 {
        Thumb16InstId::MovImm
    } else if op == 5 {
        Thumb16InstId::CmpImm
    } else if op == 6 {
        Thumb16InstId::AddImmT2
    } else if op == 7 {
        Thumb16InstId::SubImmT2
    } else {
        Thumb16InstId::Unknown
    }
}

fn decode_thumb16_shift_add(instr: u16) -> (r: Thumb16InstId)
    ensures
        r == shift_add_encoding(instr),
{
    let op: u16 = (instr >> 11) & 0x1F;
    match op {
        0b00000 => Thumb16InstId::LslImm,
        0b00001 => Thumb16InstId::LsrImm,
        0b00010 => Thumb16InstId::AsrImm,
        0b00011 => {
            let op2: u16 = (instr >> 9) & 3;
            match op2 {
                0b00 => Thumb16InstId::AddRegT1,
                0b01 => Thumb16InstId::SubReg,
                0b10 => Thumb16InstId::AddImmT1,
                _ => Thumb16InstId::SubImmT1,
            }
        },
        0b00100 => Thumb16InstId::MovImm,
        0b00101 => Thumb16InstId::CmpImm,
        0b00110 => Thumb16InstId::AddImmT2,
        0b00111 => Thumb16InstId::SubImmT2,
        _ => Thumb16InstId::Unknown,
    }
}

/// Data processing between low registers, by bits 9 to 6.
pub open spec fn dp_encoding(instr: u16) -> Thumb16InstId {
    let op = (instr >> 6) & 0xF;
    if op == 0 {
        Thumb16InstId::AndReg
    } else if op == 1 {
        Thumb16InstId::EorReg
    } else if op == 2 {
        Thumb16InstId::LslReg
    } else if op == 3 {
        Thumb16InstId::LsrReg
    } else if op == 4 {
        Thumb16InstId::AsrReg
    } else if op == 5 {
        Thumb16InstId::AdcReg
    } else if op == 6 {
        Thumb16InstId::SbcReg
    } else if op == 7 {
        Thumb16InstId::RorReg
    } else if op == 8 {
        Thumb16InstId::TstReg
    } else if op == 9 {
        Thumb16InstId::RsbImm
    } else if op == 10 {
        Thumb16InstId::CmpRegT1
    } else if op == 11 {
        Thumb16InstId::CmnReg
    } else if op == 12 {
        Thumb16InstId::OrrReg
    } else if op == 13 {
        Thumb16InstId::MulReg
    } else if op == 14 {
        Thumb16InstId::BicReg
    } else {
        Thumb16InstId::MvnReg
    }
}

fn decode_thumb16_dp(instr: u16) -> (r: Thumb16InstId)
    ensures
        r == dp_encoding(instr),
{
    let op: u16 = (instr >> 6) & 0xF;
    match op {
        0b0000 => Thumb16InstId::AndReg,
        0b0001 => Thumb16InstId::EorReg,
        0b0010 => Thumb16InstId::LslReg,
        0b0011 => Thumb16InstId::LsrReg,
        0b0100 => Thumb16InstId::AsrReg,
        0b0101 => Thumb16InstId::AdcReg,
        0b0110 => Thumb16InstId::SbcReg,
        0b0111 => Thumb16InstId::RorReg,
        0b1000 => Thumb16InstId::TstReg,
        0b1001 => Thumb16InstId::RsbImm,
        0b1010 => Thumb16InstId::CmpRegT1,
        0b1011 => Thumb16InstId::CmnReg,
        0b1100 => Thumb16InstId::OrrReg,
        0b1101 => Thumb16InstId::MulReg,
        0b1110 => Thumb16InstId::BicReg,
        _ => Thumb16InstId::MvnReg,
    }
}

/// Operations on all registers, and branches to a register.
pub open spec fn special_encoding(instr: u16) -> Thumb16InstId {
    let op = (instr >> 8) & 3;
    if op == 0 {
        Thumb16InstId::AddRegT2
    } else if op == 1 {
        Thumb16InstId::CmpRegT2
    } else if op == 2 {
        Thumb16InstId::MovReg
    } else if instr & 0x80 != 0 {
        Thumb16InstId::BlxReg
    } else {
        Thumb16InstId::BX
    }
}

fn decode_thumb16_special(instr: u16) -> (r: Thumb16InstId)
    ensures
        r == special_encoding(instr),
{
    let op: u16 = (instr >> 8) & 3;
    match op {
        0b00 => Thumb16InstId::AddRegT2,
        0b01 => Thumb16InstId::CmpRegT2,
        0b10 => Thumb16InstId::MovReg,
        _ => if instr & 0x80 != 0 { Thumb16InstId::BlxReg } else { Thumb16InstId::BX },
    }
}

/// Loads and stores, by bits 15 to 9.
pub open spec fn load_store_encoding(instr: u16) -> Thumb16InstId {
    let op = (instr >> 9) & 0x7F;
    if 40 <= op < 48 {
        register_offset_encoding(op % 8)
    } else if 48 <= op < 52 {
        Thumb16InstId::StrImmT1
    } else if 52 <= op < 56 {
        Thumb16InstId::LdrImmT1
    } else if 56 <= op < 60 {
        Thumb16InstId::StrbImm
    } else if 60 <= op < 64 {
        Thumb16InstId::LdrbImm
    } else if 64 <= op < 68 {
        Thumb16InstId::StrhImm
    } else if 68 <= op < 72 {
        Thumb16InstId::LdrhImm
    } else if 72 <= op < 76 {
        Thumb16InstId::StrImmT2
    } else if 76 <= op < 80 {
        Thumb16InstId::LdrImmT2
    } else {
        Thumb16InstId::Unknown
    }
}

/// Loads and stores with a register offset, by bits 11 to 9.
pub open spec fn register_offset_encoding(op: u16) -> Thumb16InstId {
    if op == 0 {
        Thumb16InstId::StrReg
    } else if op == 1 {
        Thumb16InstId::StrhReg
    } else if op == 2 {
        Thumb16InstId::StrbReg
    } else if op == 3 {
        Thumb16InstId::LdrsbReg
    } else if op == 4 {
        Thumb16InstId::LdrReg
    } else if op == 5 {
        Thumb16InstId::LdrhReg
    } else if op == 6 {
        Thumb16InstId::LdrbReg
    } else {
        Thumb16InstId::LdrshReg
    }
}

fn decode_thumb16_load_store(instr: u16) -> (r: Thumb16InstId)
    ensures
        r == load_store_encoding(instr),
{
    let op: u16 = (instr >> 9) & 0x7F;
    let load: bool = (op / 4) % 2 == 1;
    match op / 8 {
        0b0101 => match op % 8 {
            0b000 => Thumb16InstId::StrReg,
            0b001 => Thumb16InstId::StrhReg,
            0b010 => Thumb16InstId::StrbReg,
            0b011 => Thumb16InstId::LdrsbReg,
            0b100 => Thumb16InstId::LdrReg,
            0b101 => Thumb16InstId::LdrhReg,
            0b110 => Thumb16InstId::LdrbReg,
            _ => Thumb16InstId::LdrshReg,
        },
        0b0110 => if load { Thumb16InstId::LdrImmT1 } else { Thumb16InstId::StrImmT1 },
        0b0111 => if load { Thumb16InstId::LdrbImm } else { Thumb16InstId::StrbImm },
        0b1000 => if load { Thumb16InstId::LdrhImm } else { Thumb16InstId::StrhImm },
        0b1001 => if load { Thumb16InstId::LdrImmT2 } else { Thumb16InstId::StrImmT2 },
        _ => Thumb16InstId::Unknown,
    }
}

/// Miscellaneous instructions. Pushing, popping and comparing branches come
/// first; the rest is told apart by bits 11 to 5.
pub open spec fn misc_encoding(instr: u16) -> Thumb16InstId {
    let op119 = (instr >> 9) & 7;
    let op118 = (instr >> 8) & 0xF;
    let op116 = (instr >> 6) & 0x3F;
    let op115 = (instr >> 5) & 0x7F;
    if op119 == 0b010 {
        Thumb16InstId::PUSH
    } else if op119 == 0b110 {
        Thumb16InstId::POP
    } else if (instr >> 8) & 1 == 1 && (instr >> 10) & 1 == 0 {
        Thumb16InstId::CbzCbnz
    } else if op118 == 0b0000 {
        Thumb16InstId::AddSpT2
    } else if op118 == 0b0001 {
        Thumb16InstId::SubSp
    } else if op116 == 0b001000 {
        Thumb16InstId::SXTH
    } else if op116 == 0b001001 {
        Thumb16InstId::SXTB
    } else if op116 == 0b001010 {
        Thumb16InstId::UXTH
    } else if op116 == 0b001011 {
        Thumb16InstId::UXTB
    } else if op116 == 0b101000 {
        Thumb16InstId::REV
    } else if op116 == 0b101001 {
        Thumb16InstId::REV16
    } else if op116 == 0b101011 {
        Thumb16InstId::REVSH
    } else if op118 == 0b1110 {
        Thumb16InstId::BKPT
    } else if op118 == 0b1111 {
        hint_encoding(instr)
    } else if op115 == 0b1100101 {
        Thumb16InstId::SETEND
    } else if op115 / 2 == 0b110011 {
        Thumb16InstId::CPS
    } else {
        Thumb16InstId::Unknown
    }
}

fn decode_thumb16_misc(instr: u16) -> (r: Thumb16InstId)
    ensures
        r == misc_encoding(instr),
{
    let op119: u16 = (instr >> 9) & 7;
    let op118: u16 = (instr >> 8) & 0xF;
    let op116: u16 = (instr >> 6) & 0x3F;
    let op115: u16 = (instr >> 5) & 0x7F;
    if op119 == 0b010 {
        return Thumb16InstId::PUSH;
    }
    if op119 == 0b110 {
        return Thumb16InstId::POP;
    }
    if (instr >> 8) & 1 == 1 && (instr >> 10) & 1 == 0 {
        return Thumb16InstId::CbzCbnz;
    }
    match op118 {
        0b0000 => Thumb16InstId::AddSpT2,
        0b0001 => Thumb16InstId::SubSp,
        _ => match op116 {
            0b001000 => Thumb16InstId::SXTH,
            0b001001 => Thumb16InstId::SXTB,
            0b001010 => Thumb16InstId::UXTH,
            0b001011 => Thumb16InstId::UXTB,
            0b101000 => Thumb16InstId::REV,
            0b101001 => Thumb16InstId::REV16,
            0b101011 => Thumb16InstId::REVSH,
            _ => if op118 == 0b1110 {
                Thumb16InstId::BKPT
            } else if op118 == 0b1111 {
                decode_thumb16_hint(instr)
            } else if op115 == 0b1100101 {
                Thumb16InstId::SETEND
            } else if op115 / 2 == 0b110011 {
                Thumb16InstId::CPS
            } else {
                Thumb16InstId::Unknown
            },
        },
    }
}

/// Hints and If-Then, by bits 7 to 0. Reserved hints do nothing.
pub open spec fn hint_encoding(instr: u16) -> Thumb16InstId {
    let op = instr & 0xFF;
    if op == 0x00 {
        Thumb16InstId::NOP
    } else if op == 0x10 {
        Thumb16InstId::YIELD
    } else if op == 0x20 {
        Thumb16InstId::WFE
    } else if op == 0x30 {
        Thumb16InstId::WFI
    } else if op == 0x40 {
        Thumb16InstId::SEV
    } else if op == 0x50 {
        Thumb16InstId::SEVL
    } else if (instr >> 8) & 0xFF == 0xBF && instr & 0xF != 0 {
        Thumb16InstId::IT
    } else {
        Thumb16InstId::NOP
    }
}

fn decode_thumb16_hint(instr: u16) -> (r: Thumb16InstId)
    ensures
        r == hint_encoding(instr),
{
    let op: u16 = instr & 0xFF;
    match op {
        0b0000_0000 => Thumb16InstId::NOP,
        0b0001_0000 => Thumb16InstId::YIELD,
        0b0010_0000 => Thumb16InstId::WFE,
        0b0011_0000 => Thumb16InstId::WFI,
        0b0100_0000 => Thumb16InstId::SEV,
        0b0101_0000 => Thumb16InstId::SEVL,
        _ => if (instr >> 8) & 0xFF == 0xBF && (instr & 0xF) != 0 {
            Thumb16InstId::IT
        } else {
            Thumb16InstId::NOP
        },
    }
}

/// Conditional branches; the last two conditions name other instructions.
pub open spec fn cond_branch_encoding(instr: u16) -> Thumb16InstId {
    let cond = (instr >> 8) & 0xF;
    if cond == 0b1110 {
        Thumb16InstId::UDF
    } else if cond == 0b1111 {
        Thumb16InstId::SVC
    } else {
        Thumb16InstId::BT1
    }
}

fn decode_thumb16_cond_branch(instr: u16) -> (r: Thumb16InstId)
    ensures
        r == cond_branch_encoding(instr),
{
    let cond: u16 = (instr >> 8) & 0xF;
    match cond {
        0b1110 => Thumb16InstId::UDF,
        0b1111 => Thumb16InstId::SVC,
        _ => Thumb16InstId::BT1,
    }
}

} // verus!
