//! Decoding of 32-bit Thumb instructions.

use vstd::prelude::*;
use crate::frontend::a32::types::{reg, shift_type, Reg, ShiftType};
use crate::ir::cond::{cond_code, Cond};

verus! {

broadcast use crate::bits::and_le_mask;

/// A decoded 32-bit Thumb instruction: its two halfwords, the first in the
/// upper half, and the instruction that they encode.
#[derive(Clone, Copy, Debug)]
pub struct DecodedThumb32 {
    pub raw: u32,
    pub id: Thumb32InstId,
}

/// A 32-bit Thumb instruction.
#[allow(non_camel_case_types)]
#[derive(Clone, Copy, Debug, PartialEq, Eq, Hash, Structural)]
pub enum Thumb32InstId {
    AND_imm,
    TST_imm,
    BIC_imm,
    ORR_imm,
    MOV_imm,
    ORN_imm,
    MVN_imm,
    EOR_imm,
    TEQ_imm,
    ADD_imm_1,
    CMN_imm,
    ADC_imm,
    SBC_imm,
    SUB_imm_1,
    CMP_imm,
    RSB_imm,
    ADR_t3,
    ADD_imm_2,
    MOVW_imm,
    ADR_t2,
    MOVT,
    SUB_imm_2,
    SSAT,
    SSAT16,
    SBFX,
    BFC,
    BFI,
    USAT,
    USAT16,
    UBFX,
    AND_reg,
    TST_reg,
    BIC_reg,
    ORR_reg,
    MOV_reg,
    ORN_reg,
    MVN_reg,
    EOR_reg,
    TEQ_reg,
    PKH,
    ADD_reg,
    CMN_reg,
    ADC_reg,
    SBC_reg,
    SUB_reg,
    CMP_reg,
    RSB_reg,
    B,
    B_cond,
    BL_imm,
    BLX_imm,
    LDR_imm_t3,
    LDR_imm_t4,
    LDR_lit,
    LDR_reg,
    LDRT,
    LDRB_imm_t2,
    LDRB_imm_t3,
    LDRB_lit,
    LDRB_reg,
    LDRBT,
    LDRH_imm_t2,
    LDRH_imm_t3,
    LDRH_lit,
    LDRH_reg,
    LDRHT,
    LDRSB_imm_t1,
    LDRSB_imm_t2,
    LDRSB_lit,
    LDRSB_reg,
    LDRSBT,
    LDRSH_imm_t1,
    LDRSH_imm_t2,
    LDRSH_lit,
    LDRSH_reg,
    LDRSHT,
    STR_imm_1,
    STR_imm_2,
    STR_imm_3,
    STRT,
    STR_reg,
    STRB_imm_1,
    STRB_imm_2,
    STRB_imm_3,
    STRBT,
    STRB_reg,
    STRH_imm_1,
    STRH_imm_2,
    STRH_imm_3,
    STRHT,
    STRH_reg,
    LDA,
    LDRD_imm_1,
    LDRD_imm_2,
    LDRD_lit_1,
    LDRD_lit_2,
    STRD_imm_1,
    STRD_imm_2,
    LDREX,
    LDREXB,
    LDREXH,
    LDREXD,
    STREX,
    STREXB,
    STREXH,
    STREXD,
    STL,
    TBB,
    TBH,
    LDMIA,
    LDMDB,
    STMIA,
    STMDB,
    PUSH,
    POP,
    MUL,
    MLA,
    MLS,
    SMLAD,
    SMLAXY,
    SMLAWY,
    SMLSD,
    SMMUL,
    SMMLA,
    SMMLS,
    SMUAD,
    SMUSD,
    SMULXY,
    SMULWY,
    USAD8,
    USADA8,
    SMULL,
    UMULL,
    SMLAL,
    SMLALD,
    SMLALXY,
    SMLSLD,
    UMLAL,
    UMAAL,
    SDIV,
    UDIV,
    MCRR,
    MRRC,
    STC,
    LDC,
    CDP,
    MCR,
    MRC,
    LSL_reg,
    LSR_reg,
    ASR_reg,
    ROR_reg,
    QADD,
    QDADD,
    QSUB,
    QDSUB,
    SEL,
    SADD8,
    SADD16,
    SASX,
    SSAX,
    SSUB8,
    SSUB16,
    UADD8,
    UADD16,
    UASX,
    USAX,
    USUB8,
    USUB16,
    QADD8,
    QADD16,
    QASX,
    QSAX,
    QSUB8,
    QSUB16,
    UQADD8,
    UQADD16,
    UQASX,
    UQSAX,
    UQSUB8,
    UQSUB16,
    SHADD8,
    SHADD16,
    SHASX,
    SHSAX,
    SHSUB8,
    SHSUB16,
    UHADD8,
    UHADD16,
    UHASX,
    UHSAX,
    UHSUB8,
    UHSUB16,
    CLZ,
    RBIT,
    REV,
    REV16,
    REVSH,
    SXTH,
    SXTB,
    UXTH,
    UXTB,
    SXTAH,
    SXTAB,
    SXTB16,
    SXTAB16,
    UXTAH,
    UXTAB,
    UXTB16,
    UXTAB16,
    DMB,
    DSB,
    ISB,
    CLREX,
    BXJ,
    MRS_reg,
    MSR_reg,
    UDF,
    BKPT,
    NOP,
    SEV,
    SEVL,
    WFE,
    WFI,
    YIELD,
    PLD_lit,
    PLD_reg,
    PLD_imm8,
    PLD_imm12,
    PLI_lit,
    PLI_reg,
    PLI_imm8,
    PLI_imm12,
    Unknown,
}

impl DecodedThumb32 {
    /// Register `Rd`, bits 11 to 8 of the second halfword.
    #[verifier::allow_in_spec]
    pub fn rd(&self) -> Reg
        returns
            reg((self.raw >> 8) & 0xF),
    {
        Reg::from_u32((self.raw >> 8) & 0xF)
    }

    /// Register `Rn`, bits 3 to 0 of the first halfword.
    #[verifier::allow_in_spec]
    pub fn rn(&self) -> Reg
        returns
            reg((self.raw >> 16) & 0xF),
    {
        Reg::from_u32((self.raw >> 16) & 0xF)
    }

    /// Register `Rm`, bits 3 to 0 of the second halfword.
    #[verifier::allow_in_spec]
    pub fn rm(&self) -> Reg
        returns
            reg(self.raw & 0xF),
    {
        Reg::from_u32(self.raw & 0xF)
    }

    /// Register `Rt`, bits 15 to 12 of the second halfword.
    #[verifier::allow_in_spec]
    pub fn rt(&self) -> Reg
        returns
            reg((self.raw >> 12) & 0xF),
    {
        Reg::from_u32((self.raw >> 12) & 0xF)
    }

    /// Register `Rt2`, bits 11 to 8 of the second halfword.
    #[verifier::allow_in_spec]
    pub fn rt2(&self) -> Reg
        returns
            reg((self.raw >> 8) & 0xF),
    {
        Reg::from_u32((self.raw >> 8) & 0xF)
    }

    /// Register `Ra`, bits 15 to 12 of the second halfword.
    #[verifier::allow_in_spec]
    pub fn ra(&self) -> Reg
        returns
            reg((self.raw >> 12) & 0xF),
    {
        Reg::from_u32((self.raw >> 12) & 0xF)
    }

    /// The register for the high word of a product.
    #[verifier::allow_in_spec]
    pub fn rd_hi(&self) -> Reg
        returns
            reg((self.raw >> 8) & 0xF),
    {
        Reg::from_u32((self.raw >> 8) & 0xF)
    }

    /// The register for the low word of a product.
    #[verifier::allow_in_spec]
    pub fn rd_lo(&self) -> Reg
        returns
            reg((self.raw >> 12) & 0xF),
    {
        Reg::from_u32((self.raw >> 12) & 0xF)
    }

    /// The flag-setting bit 4 of the first halfword.
    #[verifier::allow_in_spec]
    pub fn s_flag(&self) -> bool
        returns
            self.raw & 0x10_0000 != 0,
    {
        self.raw & 0x10_0000 != 0
    }

    /// The twelve bits of an immediate: the bit `i`, three bits and eight bits.
    pub open spec fn spec_thumb_expand_imm_bits(&self) -> u32 {
        (((self.raw >> 26) & 1) * 0x800 + ((self.raw >> 12) & 7) * 0x100 + (self.raw & 0xFF)) as u32
    }

    /// The twelve bits of an immediate: the bit `i`, three bits and eight bits.
    #[verifier::when_used_as_spec(spec_thumb_expand_imm_bits)]
    pub fn thumb_expand_imm_bits(&self) -> (r: u32)
        ensures
            r == self.spec_thumb_expand_imm_bits(),
    {
        ((self.raw >> 26) & 1) * 0x800 + ((self.raw >> 12) & 7) * 0x100 + (self.raw & 0xFF)
    }

    /// The twelve bits of an immediate.
    pub open spec fn spec_imm12(&self) -> u32 {
        self.thumb_expand_imm_bits()
    }

    /// The twelve bits of an immediate.
    #[verifier::when_used_as_spec(spec_imm12)]
    pub fn imm12(&self) -> (r: u32)
        ensures
            r == self.spec_imm12(),
    {
        self.thumb_expand_imm_bits()
    }

    /// The sixteen bits of an immediate: four bits above the twelve.
    pub open spec fn spec_imm16(&self) -> u32 {
        (((self.raw >> 16) & 0xF) * 0x1000 + (((self.raw >> 26) & 1) * 0x800 + ((self.raw >> 12)
            & 7) * 0x100 + (self.raw & 0xFF))) as u32
    }

    /// The sixteen bits of an immediate: four bits above the twelve.
    #[verifier::when_used_as_spec(spec_imm16)]
    pub fn imm16(&self) -> (r: u32)
        ensures
            r == self.spec_imm16(),
    {
        ((self.raw >> 16) & 0xF) * 0x1000 + (((self.raw >> 26) & 1) * 0x800 + ((self.raw >> 12) & 7)
            * 0x100 + (self.raw & 0xFF))
    }

    /// The shift of a register operand and its five-bit amount.
    pub open spec fn spec_shift_type_amount(&self) -> (ShiftType, u32) {
        (
            shift_type((self.raw >> 4) & 3),
            (((self.raw >> 12) & 7) * 4 + ((self.raw >> 6) & 3)) as u32,
        )
    }

    /// The shift of a register operand and its five-bit amount.
    #[verifier::when_used_as_spec(spec_shift_type_amount)]
    pub fn shift_type_amount(&self) -> (r: (ShiftType, u32))
        ensures
            r == self.spec_shift_type_amount(),
    {
        let amount: u32 = ((self.raw >> 12) & 7) * 4 + ((self.raw >> 6) & 3);
        (ShiftType::from_u8(((self.raw >> 4) & 3) as u8), amount)
    }

    /// The immediate in bits 7 to 0 of the second halfword.
    #[verifier::allow_in_spec]
    pub fn imm8(&self) -> u32
        returns
            self.raw & 0xFF,
    {
        self.raw & 0xFF
    }

    /// The pre-index bit 10 of the second halfword.
    #[verifier::allow_in_spec]
    pub fn p_flag(&self) -> bool
        returns
            self.raw & 0x400 != 0,
    {
        self.raw & 0x400 != 0
    }

    /// The add bit 9 of the second halfword.
    #[verifier::allow_in_spec]
    pub fn u_flag(&self) -> bool
        returns
            self.raw & 0x200 != 0,
    {
        self.raw & 0x200 != 0
    }

    /// The write-back bit 8 of the second halfword.
    #[verifier::allow_in_spec]
    pub fn w_flag(&self) -> bool
        returns
            self.raw & 0x100 != 0,
    {
        self.raw & 0x100 != 0
    }

    /// The register list: the second halfword.
    #[verifier::allow_in_spec]
    pub fn register_list(&self) -> u16
        returns
            (self.raw & 0xFFFF) as u16,
    {
        (self.raw & 0xFFFF) as u16
    }

    /// The offset of an unconditional branch: a signed number of 25 bits, with its
    /// second and third bits inverted where they differ from the sign.
    pub open spec fn spec_branch_offset_t4(&self) -> i32 {
        let s = (self.raw >> 26) & 1;
        let i1: int = if (self.raw >> 13) & 1 == s { 1 } else { 0 };
        let i2: int = if (self.raw >> 11) & 1 == s { 1 } else { 0 };
        let magnitude = i1 * 0x80_0000 + i2 * 0x40_0000 + ((self.raw >> 16) & 0x3FF) * 0x1000 + (
        self.raw & 0x7FF) * 2;
        (magnitude - s * 0x100_0000) as i32
    }

    /// The offset of an unconditional branch: a signed number of 25 bits, with its
    /// second and third bits inverted where they differ from the sign.
    #[verifier::when_used_as_spec(spec_branch_offset_t4)]
    pub fn branch_offset_t4(&self) -> (r: i32)
        ensures
            r == self.spec_branch_offset_t4(),
    {
        let s: u32 = (self.raw >> 26) & 1;
        let i1: u32 = if (self.raw >> 13) & 1 == s { 1 } else { 0 };
        let i2: u32 = if (self.raw >> 11) & 1 == s { 1 } else { 0 };
        let magnitude: u32 = i1 * 0x80_0000 + i2 * 0x40_0000 + ((self.raw >> 16) & 0x3FF) * 0x1000
            + (self.raw & 0x7FF) * 2;
        magnitude as i32 - s as i32 * 0x100_0000
    }

    /// The offset of a conditional branch: a signed number of 21 bits.
    pub open spec fn spec_branch_offset_t3(&self) -> i32 {
        let magnitude = ((self.raw >> 11) & 1) * 0x8_0000 + ((self.raw >> 13) & 1) * 0x4_0000 + ((
        self.raw >> 16) & 0x3F) * 0x1000 + (self.raw & 0x7FF) * 2;
        (magnitude - ((self.raw >> 26) & 1) * 0x10_0000) as i32
    }

    /// The offset of a conditional branch: a signed number of 21 bits.
    #[verifier::when_used_as_spec(spec_branch_offset_t3)]
    pub fn branch_offset_t3(&self) -> (r: i32)
        ensures
            r == self.spec_branch_offset_t3(),
    {
        let s: u32 = (self.raw >> 26) & 1;
        let magnitude: u32 = ((self.raw >> 11) & 1) * 0x8_0000 + ((self.raw >> 13) & 1) * 0x4_0000
            + ((self.raw >> 16) & 0x3F) * 0x1000 + (self.raw & 0x7FF) * 2;
        magnitude as i32 - s as i32 * 0x10_0000
    }

    /// The condition of a branch, bits 9 to 6 of the first halfword.
    #[verifier::allow_in_spec]
    pub fn cond(&self) -> Cond
        returns
            cond_code((self.raw >> 22) & 0xF),
    {
        Cond::from_u8(((self.raw >> 22) & 0xF) as u8)
    }

    /// The lowest and the highest bit of a bit field to clear or insert.
    pub open spec fn spec_bfc_lsb_msb(&self) -> (u32, u32) {
        ((((self.raw >> 12) & 7) * 4 + ((self.raw >> 6) & 3)) as u32, self.raw & 0x1F)
    }

    /// The lowest and the highest bit of a bit field to clear or insert.
    #[verifier::when_used_as_spec(spec_bfc_lsb_msb)]
    pub fn bfc_lsb_msb(&self) -> (r: (u32, u32))
        ensures
            r == self.spec_bfc_lsb_msb(),
    {
        (((self.raw >> 12) & 7) * 4 + ((self.raw >> 6) & 3), self.raw & 0x1F)
    }

    /// The lowest bit and the width of a bit field to extract.
    pub open spec fn spec_bfx_lsb_width(&self) -> (u32, u32) {
        (
            (((self.raw >> 12) & 7) * 4 + ((self.raw >> 6) & 3)) as u32,
            ((self.raw & 0x1F) + 1) as u32,
        )
    }

    /// The lowest bit and the width of a bit field to extract.
    #[verifier::when_used_as_spec(spec_bfx_lsb_width)]
    pub fn bfx_lsb_width(&self) -> (r: (u32, u32))
        ensures
            r == self.spec_bfx_lsb_width(),
    {
        (((self.raw >> 12) & 7) * 4 + ((self.raw >> 6) & 3), (self.raw & 0x1F) + 1)
    }

    /// Whether the second encoding of a coprocessor instruction is used.
    #[verifier::allow_in_spec]
    pub fn coproc_two(&self) -> bool
        returns
            self.raw & 0x1000_0000 != 0,
    {
        self.raw & 0x1000_0000 != 0
    }

    /// The coprocessor in bits 11 to 8.
    #[verifier::allow_in_spec]
    pub fn coproc_no(&self) -> u32
        returns
            (self.raw >> 8) & 0xF,
    {
        (self.raw >> 8) & 0xF
    }

    /// The first opcode of a register transfer, bits 23 to 21.
    #[verifier::allow_in_spec]
    pub fn coproc_opc1(&self) -> u32
        returns
            (self.raw >> 21) & 0x7,
    {
        (self.raw >> 21) & 0x7
    }

    /// The first opcode of a coprocessor operation, bits 23 to 20.
    #[verifier::allow_in_spec]
    pub fn coproc_dp_opc1(&self) -> u32
        returns
            (self.raw >> 20) & 0xF,
    {
        (self.raw >> 20) & 0xF
    }

    /// The second opcode, bits 7 to 5.
    #[verifier::allow_in_spec]
    pub fn coproc_opc2(&self) -> u32
        returns
            (self.raw >> 5) & 0x7,
    {
        (self.raw >> 5) & 0x7
    }

    /// Coprocessor register `CRn`, bits 19 to 16.
    #[verifier::allow_in_spec]
    pub fn coproc_crn(&self) -> u32
        returns
            (self.raw >> 16) & 0xF,
    {
        (self.raw >> 16) & 0xF
    }

    /// Coprocessor register `CRd`, bits 15 to 12.
    #[verifier::allow_in_spec]
    pub fn coproc_crd(&self) -> u32
        returns
            (self.raw >> 12) & 0xF,
    {
        (self.raw >> 12) & 0xF
    }

    /// Coprocessor register `CRm`, bits 3 to 0.
    #[verifier::allow_in_spec]
    pub fn coproc_crm(&self) -> u32
        returns
            self.raw & 0xF,
    {
        self.raw & 0xF
    }

    /// The opcode of a double-word transfer, bits 7 to 4.
    #[verifier::allow_in_spec]
    pub fn coproc_transfer_opc(&self) -> u32
        returns
            (self.raw >> 4) & 0xF,
    {
        (self.raw >> 4) & 0xF
    }

}

/// Whether the bits of `raw` under `mask` are those of `expected`.
#[verifier::allow_in_spec]
pub fn matches_thumb32(raw: u32, mask: u32, expected: u32) -> bool
    returns
        raw & mask == expected,
{
    raw & mask == expected
}

/// The instruction that two halfwords encode. Preloads, then coprocessor
/// instructions come before the groups that overlap them.
pub open spec fn thumb32_encoding(raw: u32) -> Thumb32InstId {
    if matches_thumb32(raw, 0xFF7F_F000, 0xF81F_F000) {
        // 11111000-00111111111------------
        Thumb32InstId::PLD_lit
    } else if matches_thumb32(raw, 0xFF7F_F000, 0xF83F_F000) {
        // 11111000-01111111111------------
        Thumb32InstId::PLD_lit
    } else if matches_thumb32(raw, 0xFFD0_FFC0, 0xF810_F000) {
        // 1111100000-1----1111000000------
        Thumb32InstId::PLD_reg
    } else if matches_thumb32(raw, 0xFFD0_FF00, 0xF810_FC00) {
        // 1111100000-1----11111100--------
        Thumb32InstId::PLD_imm8
    } else if matches_thumb32(raw, 0xFFD0_F000, 0xF890_F000) {
        // 1111100010-1----1111------------
        Thumb32InstId::PLD_imm12
    } else if matches_thumb32(raw, 0xFF7F_F000, 0xF91F_F000) {
        // 11111001-00111111111------------
        Thumb32InstId::PLI_lit
    } else if matches_thumb32(raw, 0xFFF0_FFC0, 0xF910_F000) {
        // 111110010001----1111000000------
        Thumb32InstId::PLI_reg
    } else if matches_thumb32(raw, 0xFFF0_FF00, 0xF910_FC00) {
        // 111110010001----11111100--------
        Thumb32InstId::PLI_imm8
    } else if matches_thumb32(raw, 0xFFF0_F000, 0xF990_F000) {
        // 111110011001----1111------------
        Thumb32InstId::PLI_imm12
    } else if matches_thumb32(raw, 0xFF7F_F000, 0xF93F_F000) {
        // 11111001-01111111111------------
        Thumb32InstId::NOP
    } else if matches_thumb32(raw, 0xFFF0_FFC0, 0xF930_F000) {
        // 111110010011----1111000000------
        Thumb32InstId::NOP
    } else if matches_thumb32(raw, 0xFFF0_FF00, 0xF930_FC00) {
        // 111110010011----11111100--------
        Thumb32InstId::NOP
    } else if matches_thumb32(raw, 0xFFF0_F000, 0xF9B0_F000) {
        // 111110011011----1111------------
        Thumb32InstId::NOP
    } else if matches_thumb32(raw, 0xEFF0_0000, 0xEC40_0000) {
        // 111-11000100--------------------
        Thumb32InstId::MCRR
    } else if matches_thumb32(raw, 0xEFF0_0000, 0xEC50_0000) {
        // 111-11000101--------------------
        Thumb32InstId::MRRC
    } else if matches_thumb32(raw, 0xEF10_0010, 0xEE00_0010) {
        // 111-1110---0---------------1----
        Thumb32InstId::MCR
    } else if matches_thumb32(raw, 0xEF10_0010, 0xEE10_0010) {
        // 111-1110---1---------------1----
        Thumb32InstId::MRC
    } else if matches_thumb32(raw, 0xEF00_0010, 0xEE00_0000) {
        // 111-1110-------------------0----
        Thumb32InstId::CDP
    } else if matches_thumb32(raw, 0xEE10_0000, 0xEC10_0000) {
        // 111-110----1--------------------
        Thumb32InstId::LDC
    } else if matches_thumb32(raw, 0xEE10_0000, 0xEC00_0000) {
        // 111-110----0--------------------
        Thumb32InstId::STC
    } else {
        group_encoding(raw)
    }
}

/// The remaining instructions by group.
pub open spec fn group_encoding(raw: u32) -> Thumb32InstId {
    let op1 = (raw >> 27) & 3;
    let op2 = (raw >> 20) & 0x7F;
    if raw >> 24 == 0xFA {
        fa_encoding(raw)
    } else if matches_thumb32(raw, 0xFF80_0000, 0xFB00_0000) {
        multiply_encoding(raw)
    } else if matches_thumb32(raw, 0xFF80_0000, 0xFB80_0000) {
        long_multiply_encoding(raw)
    } else if op1 == 0b01 {
        store_and_register_encoding(raw)
    } else if op1 == 0b10 {
        if (raw >> 15) & 1 == 1 {
            branch_encoding(raw)
        } else if (raw >> 25) & 1 == 0 {
            dp_mod_imm_encoding(raw)
        } else {
            dp_plain_imm_encoding(raw)
        }
    } else if op1 == 0b11 && op2 < 64 {
        ls_single_encoding(raw)
    } else {
        Thumb32InstId::Unknown
    }
}

/// Decodes a 32-bit Thumb instruction from its two halfwords.
pub fn decode_thumb32(hw1: u16, hw2: u16) -> (r: DecodedThumb32)
    ensures
        r.raw == ((hw1 as u32) << 16) | (hw2 as u32),
        r.id == thumb32_encoding(r.raw),
{
    let raw: u32 = ((hw1 as u32) << 16) | (hw2 as u32);
    DecodedThumb32 { raw, id: identify_thumb32(raw) }
}

fn identify_thumb32(raw: u32) -> (r: Thumb32InstId)
    ensures
        r == thumb32_encoding(raw),
{
    if matches_thumb32(raw, 0xFF7F_F000, 0xF81F_F000) {
        return Thumb32InstId::PLD_lit;
    }
    if matches_thumb32(raw, 0xFF7F_F000, 0xF83F_F000) {
        return Thumb32InstId::PLD_lit;
    }
    if matches_thumb32(raw, 0xFFD0_FFC0, 0xF810_F000) {
        return Thumb32InstId::PLD_reg;
    }
    if matches_thumb32(raw, 0xFFD0_FF00, 0xF810_FC00) {
        return Thumb32InstId::PLD_imm8;
    }
    if matches_thumb32(raw, 0xFFD0_F000, 0xF890_F000) {
        return Thumb32InstId::PLD_imm12;
    }
    if matches_thumb32(raw, 0xFF7F_F000, 0xF91F_F000) {
        return Thumb32InstId::PLI_lit;
    }
    if matches_thumb32(raw, 0xFFF0_FFC0, 0xF910_F000) {
        return Thumb32InstId::PLI_reg;
    }
    if matches_thumb32(raw, 0xFFF0_FF00, 0xF910_FC00) {
        return Thumb32InstId::PLI_imm8;
    }
    if matches_thumb32(raw, 0xFFF0_F000, 0xF990_F000) {
        return Thumb32InstId::PLI_imm12;
    }
    if matches_thumb32(raw, 0xFF7F_F000, 0xF93F_F000) {
        return Thumb32InstId::NOP;
    }
    if matches_thumb32(raw, 0xFFF0_FFC0, 0xF930_F000) {
        return Thumb32InstId::NOP;
    }
    if matches_thumb32(raw, 0xFFF0_FF00, 0xF930_FC00) {
        return Thumb32InstId::NOP;
    }
    if matches_thumb32(raw, 0xFFF0_F000, 0xF9B0_F000) {
        return Thumb32InstId::NOP;
    }
    if matches_thumb32(raw, 0xEFF0_0000, 0xEC40_0000) {
        return Thumb32InstId::MCRR;
    }
    if matches_thumb32(raw, 0xEFF0_0000, 0xEC50_0000) {
        return Thumb32InstId::MRRC;
    }
    if matches_thumb32(raw, 0xEF10_0010, 0xEE00_0010) {
        return Thumb32InstId::MCR;
    }
    if matches_thumb32(raw, 0xEF10_0010, 0xEE10_0010) {
        return Thumb32InstId::MRC;
    }
    if matches_thumb32(raw, 0xEF00_0010, 0xEE00_0000) {
        return Thumb32InstId::CDP;
    }
    if matches_thumb32(raw, 0xEE10_0000, 0xEC10_0000) {
        return Thumb32InstId::LDC;
    }
    if matches_thumb32(raw, 0xEE10_0000, 0xEC00_0000) {
        return Thumb32InstId::STC;
    }
    decode_thumb32_group(raw)
}

fn decode_thumb32_group(raw: u32) -> (r: Thumb32InstId)
    ensures
        r == group_encoding(raw),
{
    if raw >> 24 == 0xFA {
        return decode_thumb32_fa(raw);
    }
    if matches_thumb32(raw, 0xFF80_0000, 0xFB00_0000) {
        return decode_thumb32_multiply(raw);
    }
    if matches_thumb32(raw, 0xFF80_0000, 0xFB80_0000) {
        return decode_thumb32_long_multiply(raw);
    }
    let op1: u32 = (raw >> 27) & 3;
    match op1 {
        0b01 => decode_thumb32_01(raw),
        0b10 => decode_thumb32_10(raw),
        0b11 => decode_thumb32_11(raw),
        _ => Thumb32InstId::Unknown,
    }
}

/// Instructions whose first byte is `FA`: shifts and extensions, then
/// parallel arithmetic, then miscellaneous.
pub open spec fn fa_encoding(raw: u32) -> Thumb32InstId {
    if dp_register_encoding(raw) != Thumb32InstId::Unknown {
        dp_register_encoding(raw)
    } else if parallel_encoding(raw) != Thumb32InstId::Unknown {
        parallel_encoding(raw)
    } else {
        misc_encoding(raw)
    }
}

fn decode_thumb32_fa(raw: u32) -> (r: Thumb32InstId)
    ensures
        r == fa_encoding(raw),
{
    let register = decode_thumb32_dp_register(raw);
    if register != Thumb32InstId::Unknown {
        return register;
    }
    let parallel = decode_thumb32_parallel(raw);
    if parallel != Thumb32InstId::Unknown {
        return parallel;
    }
    decode_thumb32_misc(raw)
}

/// Parallel addition and subtraction.
pub open spec fn parallel_encoding(raw: u32) -> Thumb32InstId {
    if matches_thumb32(raw, 0xFFF0_F0F0, 0xFA90_F000) {
        // 111110101001----1111----0000----
        Thumb32InstId::SADD16
    } else if matches_thumb32(raw, 0xFFF0_F0F0, 0xFAA0_F000) {
        // 111110101010----1111----0000----
        Thumb32InstId::SASX
    } else if matches_thumb32(raw, 0xFFF0_F0F0, 0xFAE0_F000) {
        // 111110101110----1111----0000----
        Thumb32InstId::SSAX
    } else if matches_thumb32(raw, 0xFFF0_F0F0, 0xFAD0_F000) {
        // 111110101101----1111----0000----
        Thumb32InstId::SSUB16
    } else if matches_thumb32(raw, 0xFFF0_F0F0, 0xFA80_F000) {
        // 111110101000----1111----0000----
        Thumb32InstId::SADD8
    } else if matches_thumb32(raw, 0xFFF0_F0F0, 0xFAC0_F000) {
        // 111110101100----1111----0000----
        Thumb32InstId::SSUB8
    } else if matches_thumb32(raw, 0xFFF0_F0F0, 0xFA90_F010) {
        // 111110101001----1111----0001----
        Thumb32InstId::QADD16
    } else if matches_thumb32(raw, 0xFFF0_F0F0, 0xFAA0_F010) {
        // 111110101010----1111----0001----
        Thumb32InstId::QASX
    } else if matches_thumb32(raw, 0xFFF0_F0F0, 0xFAE0_F010) {
        // 111110101110----1111----0001----
        Thumb32InstId::QSAX
    } else if matches_thumb32(raw, 0xFFF0_F0F0, 0xFAD0_F010) {
        // 111110101101----1111----0001----
        Thumb32InstId::QSUB16
    } else if matches_thumb32(raw, 0xFFF0_F0F0, 0xFA80_F010) {
        // 111110101000----1111----0001----
        Thumb32InstId::QADD8
    } else if matches_thumb32(raw, 0xFFF0_F0F0, 0xFAC0_F010) {
        // 111110101100----1111----0001----
        Thumb32InstId::QSUB8
    } else if matches_thumb32(raw, 0xFFF0_F0F0, 0xFA90_F020) {
        // 111110101001----1111----0010----
        Thumb32InstId::SHADD16
    } else if matches_thumb32(raw, 0xFFF0_F0F0, 0xFAA0_F020) {
        // 111110101010----1111----0010----
        Thumb32InstId::SHASX
    } else if matches_thumb32(raw, 0xFFF0_F0F0, 0xFAE0_F020) {
        // 111110101110----1111----0010----
        Thumb32InstId::SHSAX
    } else if matches_thumb32(raw, 0xFFF0_F0F0, 0xFAD0_F020) {
        // 111110101101----1111----0010----
        Thumb32InstId::SHSUB16
    } else if matches_thumb32(raw, 0xFFF0_F0F0, 0xFA80_F020) {
        // 111110101000----1111----0010----
        Thumb32InstId::SHADD8
    } else if matches_thumb32(raw, 0xFFF0_F0F0, 0xFAC0_F020) {
        // 111110101100----1111----0010----
        Thumb32InstId::SHSUB8
    } else if matches_thumb32(raw, 0xFFF0_F0F0, 0xFA90_F040) {
        // 111110101001----1111----0100----
        Thumb32InstId::UADD16
    } else if matches_thumb32(raw, 0xFFF0_F0F0, 0xFAA0_F040) {
        // 111110101010----1111----0100----
        Thumb32InstId::UASX
    } else if matches_thumb32(raw, 0xFFF0_F0F0, 0xFAE0_F040) {
        // 111110101110----1111----0100----
        Thumb32InstId::USAX
    } else if matches_thumb32(raw, 0xFFF0_F0F0, 0xFAD0_F040) {
        // 111110101101----1111----0100----
        Thumb32InstId::USUB16
    } else if matches_thumb32(raw, 0xFFF0_F0F0, 0xFA80_F040) {
        // 111110101000----1111----0100----
        Thumb32InstId::UADD8
    } else if matches_thumb32(raw, 0xFFF0_F0F0, 0xFAC0_F040) {
        // 111110101100----1111----0100----
        Thumb32InstId::USUB8
    } else if matches_thumb32(raw, 0xFFF0_F0F0, 0xFA90_F050) {
        // 111110101001----1111----0101----
        Thumb32InstId::UQADD16
    } else if matches_thumb32(raw, 0xFFF0_F0F0, 0xFAA0_F050) {
        // 111110101010----1111----0101----
        Thumb32InstId::UQASX
    } else if matches_thumb32(raw, 0xFFF0_F0F0, 0xFAE0_F050) {
        // 111110101110----1111----0101----
        Thumb32InstId::UQSAX
    } else if matches_thumb32(raw, 0xFFF0_F0F0, 0xFAD0_F050) {
        // 111110101101----1111----0101----
        Thumb32InstId::UQSUB16
    } else if matches_thumb32(raw, 0xFFF0_F0F0, 0xFA80_F050) {
        // 111110101000----1111----0101----
        Thumb32InstId::UQADD8
    } else if matches_thumb32(raw, 0xFFF0_F0F0, 0xFAC0_F050) {
        // 111110101100----1111----0101----
        Thumb32InstId::UQSUB8
    } else if matches_thumb32(raw, 0xFFF0_F0F0, 0xFA90_F060) {
        // 111110101001----1111----0110----
        Thumb32InstId::UHADD16
    } else if matches_thumb32(raw, 0xFFF0_F0F0, 0xFAA0_F060) {
        // 111110101010----1111----0110----
        Thumb32InstId::UHASX
    } else if matches_thumb32(raw, 0xFFF0_F0F0, 0xFAE0_F060) {
        // 111110101110----1111----0110----
        Thumb32InstId::UHSAX
    } else if matches_thumb32(raw, 0xFFF0_F0F0, 0xFAD0_F060) {
        // 111110101101----1111----0110----
        Thumb32InstId::UHSUB16
    } else if matches_thumb32(raw, 0xFFF0_F0F0, 0xFA80_F060) {
        // 111110101000----1111----0110----
        Thumb32InstId::UHADD8
    } else if matches_thumb32(raw, 0xFFF0_F0F0, 0xFAC0_F060) {
        // 111110101100----1111----0110----
        Thumb32InstId::UHSUB8
    } else {
        Thumb32InstId::Unknown
    }
}

fn decode_thumb32_parallel(raw: u32) -> (r: Thumb32InstId)
    ensures
        r == parallel_encoding(raw),
{
    if matches_thumb32(raw, 0xFFF0_F0F0, 0xFA90_F000) {
        return Thumb32InstId::SADD16;
    }
    if matches_thumb32(raw, 0xFFF0_F0F0, 0xFAA0_F000) {
        return Thumb32InstId::SASX;
    }
    if matches_thumb32(raw, 0xFFF0_F0F0, 0xFAE0_F000) {
        return Thumb32InstId::SSAX;
    }
    if matches_thumb32(raw, 0xFFF0_F0F0, 0xFAD0_F000) {
        return Thumb32InstId::SSUB16;
    }
    if matches_thumb32(raw, 0xFFF0_F0F0, 0xFA80_F000) {
        return Thumb32InstId::SADD8;
    }
    if matches_thumb32(raw, 0xFFF0_F0F0, 0xFAC0_F000) {
        return Thumb32InstId::SSUB8;
    }
    if matches_thumb32(raw, 0xFFF0_F0F0, 0xFA90_F010) {
        return Thumb32InstId::QADD16;
    }
    if matches_thumb32(raw, 0xFFF0_F0F0, 0xFAA0_F010) {
        return Thumb32InstId::QASX;
    }
    if matches_thumb32(raw, 0xFFF0_F0F0, 0xFAE0_F010) {
        return Thumb32InstId::QSAX;
    }
    if matches_thumb32(raw, 0xFFF0_F0F0, 0xFAD0_F010) {
        return Thumb32InstId::QSUB16;
    }
    if matches_thumb32(raw, 0xFFF0_F0F0, 0xFA80_F010) {
        return Thumb32InstId::QADD8;
    }
    if matches_thumb32(raw, 0xFFF0_F0F0, 0xFAC0_F010) {
        return Thumb32InstId::QSUB8;
    }
    if matches_thumb32(raw, 0xFFF0_F0F0, 0xFA90_F020) {
        return Thumb32InstId::SHADD16;
    }
    if matches_thumb32(raw, 0xFFF0_F0F0, 0xFAA0_F020) {
        return Thumb32InstId::SHASX;
    }
    if matches_thumb32(raw, 0xFFF0_F0F0, 0xFAE0_F020) {
        return Thumb32InstId::SHSAX;
    }
    if matches_thumb32(raw, 0xFFF0_F0F0, 0xFAD0_F020) {
        return Thumb32InstId::SHSUB16;
    }
    if matches_thumb32(raw, 0xFFF0_F0F0, 0xFA80_F020) {
        return Thumb32InstId::SHADD8;
    }
    if matches_thumb32(raw, 0xFFF0_F0F0, 0xFAC0_F020) {
        return Thumb32InstId::SHSUB8;
    }
    if matches_thumb32(raw, 0xFFF0_F0F0, 0xFA90_F040) {
        return Thumb32InstId::UADD16;
    }
    if matches_thumb32(raw, 0xFFF0_F0F0, 0xFAA0_F040) {
        return Thumb32InstId::UASX;
    }
    if matches_thumb32(raw, 0xFFF0_F0F0, 0xFAE0_F040) {
        return Thumb32InstId::USAX;
    }
    if matches_thumb32(raw, 0xFFF0_F0F0, 0xFAD0_F040) {
        return Thumb32InstId::USUB16;
    }
    if matches_thumb32(raw, 0xFFF0_F0F0, 0xFA80_F040) {
        return Thumb32InstId::UADD8;
    }
    if matches_thumb32(raw, 0xFFF0_F0F0, 0xFAC0_F040) {
        return Thumb32InstId::USUB8;
    }
    if matches_thumb32(raw, 0xFFF0_F0F0, 0xFA90_F050) {
        return Thumb32InstId::UQADD16;
    }
    if matches_thumb32(raw, 0xFFF0_F0F0, 0xFAA0_F050) {
        return Thumb32InstId::UQASX;
    }
    if matches_thumb32(raw, 0xFFF0_F0F0, 0xFAE0_F050) {
        return Thumb32InstId::UQSAX;
    }
    if matches_thumb32(raw, 0xFFF0_F0F0, 0xFAD0_F050) {
        return Thumb32InstId::UQSUB16;
    }
    if matches_thumb32(raw, 0xFFF0_F0F0, 0xFA80_F050) {
        return Thumb32InstId::UQADD8;
    }
    if matches_thumb32(raw, 0xFFF0_F0F0, 0xFAC0_F050) {
        return Thumb32InstId::UQSUB8;
    }
    if matches_thumb32(raw, 0xFFF0_F0F0, 0xFA90_F060) {
        return Thumb32InstId::UHADD16;
    }
    if matches_thumb32(raw, 0xFFF0_F0F0, 0xFAA0_F060) {
        return Thumb32InstId::UHASX;
    }
    if matches_thumb32(raw, 0xFFF0_F0F0, 0xFAE0_F060) {
        return Thumb32InstId::UHSAX;
    }
    if matches_thumb32(raw, 0xFFF0_F0F0, 0xFAD0_F060) {
        return Thumb32InstId::UHSUB16;
    }
    if matches_thumb32(raw, 0xFFF0_F0F0, 0xFA80_F060) {
        return Thumb32InstId::UHADD8;
    }
    if matches_thumb32(raw, 0xFFF0_F0F0, 0xFAC0_F060) {
        return Thumb32InstId::UHSUB8;
    }
    Thumb32InstId::Unknown
}

/// Shifts by a register and extensions. An extension that adds to the program
/// counter is one without addition.
pub open spec fn dp_register_encoding(raw: u32) -> Thumb32InstId {
    if matches_thumb32(raw, 0xFFE0_F0F0, 0xFA00_F000) {
        // 11111010000-----1111----0000----
        Thumb32InstId::LSL_reg
    } else if matches_thumb32(raw, 0xFFE0_F0F0, 0xFA20_F000) {
        // 11111010001-----1111----0000----
        Thumb32InstId::LSR_reg
    } else if matches_thumb32(raw, 0xFFE0_F0F0, 0xFA40_F000) {
        // 11111010010-----1111----0000----
        Thumb32InstId::ASR_reg
    } else if matches_thumb32(raw, 0xFFE0_F0F0, 0xFA60_F000) {
        // 11111010011-----1111----0000----
        Thumb32InstId::ROR_reg
    } else if matches_thumb32(raw, 0xFFFF_F0C0, 0xFA0F_F080) {
        // 11111010000011111111----10------
        Thumb32InstId::SXTH
    } else if matches_thumb32(raw, 0xFFF0_F0C0, 0xFA00_F080) {
        // 111110100000----1111----10------
        Thumb32InstId::SXTAH
    } else if matches_thumb32(raw, 0xFFFF_F0C0, 0xFA1F_F080) {
        // 11111010000111111111----10------
        Thumb32InstId::UXTH
    } else if matches_thumb32(raw, 0xFFF0_F0C0, 0xFA10_F080) {
        // 111110100001----1111----10------
        Thumb32InstId::UXTAH
    } else if matches_thumb32(raw, 0xFFFF_F0C0, 0xFA2F_F080) {
        // 11111010001011111111----10------
        Thumb32InstId::SXTB16
    } else if matches_thumb32(raw, 0xFFF0_F0C0, 0xFA20_F080) {
        // 111110100010----1111----10------
        Thumb32InstId::SXTAB16
    } else if matches_thumb32(raw, 0xFFFF_F0C0, 0xFA3F_F080) {
        // 11111010001111111111----10------
        Thumb32InstId::UXTB16
    } else if matches_thumb32(raw, 0xFFF0_F0C0, 0xFA30_F080) {
        // 111110100011----1111----10------
        Thumb32InstId::UXTAB16
    } else if matches_thumb32(raw, 0xFFFF_F0C0, 0xFA4F_F080) {
        // 11111010010011111111----10------
        Thumb32InstId::SXTB
    } else if matches_thumb32(raw, 0xFFF0_F0C0, 0xFA40_F080) {
        // 111110100100----1111----10------
        Thumb32InstId::SXTAB
    } else if matches_thumb32(raw, 0xFFFF_F0C0, 0xFA5F_F080) {
        // 11111010010111111111----10------
        Thumb32InstId::UXTB
    } else if matches_thumb32(raw, 0xFFF0_F0C0, 0xFA50_F080) {
        // 111110100101----1111----10------
        Thumb32InstId::UXTAB
    } else {
        Thumb32InstId::Unknown
    }
}

fn decode_thumb32_dp_register(raw: u32) -> (r: Thumb32InstId)
    ensures
        r == dp_register_encoding(raw),
{
    if matches_thumb32(raw, 0xFFE0_F0F0, 0xFA00_F000) {
        return Thumb32InstId::LSL_reg;
    }
    if matches_thumb32(raw, 0xFFE0_F0F0, 0xFA20_F000) {
        return Thumb32InstId::LSR_reg;
    }
    if matches_thumb32(raw, 0xFFE0_F0F0, 0xFA40_F000) {
        return Thumb32InstId::ASR_reg;
    }
    if matches_thumb32(raw, 0xFFE0_F0F0, 0xFA60_F000) {
        return Thumb32InstId::ROR_reg;
    }
    if matches_thumb32(raw, 0xFFFF_F0C0, 0xFA0F_F080) {
        return Thumb32InstId::SXTH;
    }
    if matches_thumb32(raw, 0xFFF0_F0C0, 0xFA00_F080) {
        return Thumb32InstId::SXTAH;
    }
    if matches_thumb32(raw, 0xFFFF_F0C0, 0xFA1F_F080) {
        return Thumb32InstId::UXTH;
    }
    if matches_thumb32(raw, 0xFFF0_F0C0, 0xFA10_F080) {
        return Thumb32InstId::UXTAH;
    }
    if matches_thumb32(raw, 0xFFFF_F0C0, 0xFA2F_F080) {
        return Thumb32InstId::SXTB16;
    }
    if matches_thumb32(raw, 0xFFF0_F0C0, 0xFA20_F080) {
        return Thumb32InstId::SXTAB16;
    }
    if matches_thumb32(raw, 0xFFFF_F0C0, 0xFA3F_F080) {
        return Thumb32InstId::UXTB16;
    }
    if matches_thumb32(raw, 0xFFF0_F0C0, 0xFA30_F080) {
        return Thumb32InstId::UXTAB16;
    }
    if matches_thumb32(raw, 0xFFFF_F0C0, 0xFA4F_F080) {
        return Thumb32InstId::SXTB;
    }
    if matches_thumb32(raw, 0xFFF0_F0C0, 0xFA40_F080) {
        return Thumb32InstId::SXTAB;
    }
    if matches_thumb32(raw, 0xFFFF_F0C0, 0xFA5F_F080) {
        return Thumb32InstId::UXTB;
    }
    if matches_thumb32(raw, 0xFFF0_F0C0, 0xFA50_F080) {
        return Thumb32InstId::UXTAB;
    }
    Thumb32InstId::Unknown
}

/// Saturating arithmetic, reversals, selection and counting.
pub open spec fn misc_encoding(raw: u32) -> Thumb32InstId {
    if matches_thumb32(raw, 0xFFF0_F0F0, 0xFA80_F080) {
        // 111110101000----1111----1000----
        Thumb32InstId::QADD
    } else if matches_thumb32(raw, 0xFFF0_F0F0, 0xFA80_F090) {
        // 111110101000----1111----1001----
        Thumb32InstId::QDADD
    } else if matches_thumb32(raw, 0xFFF0_F0F0, 0xFA80_F0A0) {
        // 111110101000----1111----1010----
        Thumb32InstId::QSUB
    } else if matches_thumb32(raw, 0xFFF0_F0F0, 0xFA80_F0B0) {
        // 111110101000----1111----1011----
        Thumb32InstId::QDSUB
    } else if matches_thumb32(raw, 0xFFF0_F0F0, 0xFA90_F080) {
        // 111110101001----1111----1000----
        Thumb32InstId::REV
    } else if matches_thumb32(raw, 0xFFF0_F0F0, 0xFA90_F090) {
        // 111110101001----1111----1001----
        Thumb32InstId::REV16
    } else if matches_thumb32(raw, 0xFFF0_F0F0, 0xFA90_F0A0) {
        // 111110101001----1111----1010----
        Thumb32InstId::RBIT
    } else if matches_thumb32(raw, 0xFFF0_F0F0, 0xFA90_F0B0) {
        // 111110101001----1111----1011----
        Thumb32InstId::REVSH
    } else if matches_thumb32(raw, 0xFFF0_F0F0, 0xFAA0_F080) {
        // 111110101010----1111----1000----
        Thumb32InstId::SEL
    } else if matches_thumb32(raw, 0xFFF0_F0F0, 0xFAB0_F080) {
        // 111110101011----1111----1000----
        Thumb32InstId::CLZ
    } else {
        Thumb32InstId::Unknown
    }
}

fn decode_thumb32_misc(raw: u32) -> (r: Thumb32InstId)
    ensures
        r == misc_encoding(raw),
{
    if matches_thumb32(raw, 0xFFF0_F0F0, 0xFA80_F080) {
        return Thumb32InstId::QADD;
    }
    if matches_thumb32(raw, 0xFFF0_F0F0, 0xFA80_F090) {
        return Thumb32InstId::QDADD;
    }
    if matches_thumb32(raw, 0xFFF0_F0F0, 0xFA80_F0A0) {
        return Thumb32InstId::QSUB;
    }
    if matches_thumb32(raw, 0xFFF0_F0F0, 0xFA80_F0B0) {
        return Thumb32InstId::QDSUB;
    }
    if matches_thumb32(raw, 0xFFF0_F0F0, 0xFA90_F080) {
        return Thumb32InstId::REV;
    }
    if matches_thumb32(raw, 0xFFF0_F0F0, 0xFA90_F090) {
        return Thumb32InstId::REV16;
    }
    if matches_thumb32(raw, 0xFFF0_F0F0, 0xFA90_F0A0) {
        return Thumb32InstId::RBIT;
    }
    if matches_thumb32(raw, 0xFFF0_F0F0, 0xFA90_F0B0) {
        return Thumb32InstId::REVSH;
    }
    if matches_thumb32(raw, 0xFFF0_F0F0, 0xFAA0_F080) {
        return Thumb32InstId::SEL;
    }
    if matches_thumb32(raw, 0xFFF0_F0F0, 0xFAB0_F080) {
        return Thumb32InstId::CLZ;
    }
    Thumb32InstId::Unknown
}

/// Loads and stores of several registers or two, exclusive accesses, table
/// branches, and data processing with a shifted register: bits 27 to 20 tell
/// the groups apart.
pub open spec fn store_and_register_encoding(raw: u32) -> Thumb32InstId {
    let top = (raw >> 24) & 0xFF;
    let op = (raw >> 20) & 0xF;
    if top == 0xEA || top == 0xEB {
        dp_shifted_reg_encoding(raw)
    } else if (top == 0xE8 && 8 <= op <= 11) || (top == 0xE9 && op <= 3) {
        ls_multiple_encoding(raw)
    } else if top == 0xE8 || top == 0xE9 {
        ls_dual_excl_encoding(raw)
    } else {
        Thumb32InstId::Unknown
    }
}

fn decode_thumb32_01(raw: u32) -> (r: Thumb32InstId)
    ensures
        r == store_and_register_encoding(raw),
{
    let top_byte: u32 = (raw >> 24) & 0xFF;
    let op_nibble: u32 = (raw >> 20) & 0xF;
    match top_byte {
        0xEA | 0xEB => decode_thumb32_dp_shifted_reg(raw),
        0xE8 => match op_nibble {
            0x8..=0xB => decode_thumb32_ls_multiple(raw),
            _ => decode_thumb32_ls_dual_excl(raw),
        },
        0xE9 => match op_nibble {
            0x0..=0x3 => decode_thumb32_ls_multiple(raw),
            _ => decode_thumb32_ls_dual_excl(raw),
        },
        _ => Thumb32InstId::Unknown,
    }
}

fn decode_thumb32_10(raw: u32) -> (r: Thumb32InstId)
    ensures
        r == if (raw >> 15) & 1 == 1 {
            branch_encoding(raw)
        } else if (raw >> 25) & 1 == 0 {
            dp_mod_imm_encoding(raw)
        } else {
            dp_plain_imm_encoding(raw)
        },
{
    if (raw >> 15) & 1 == 0 {
        if (raw >> 25) & 1 == 0 {
            decode_thumb32_dp_mod_imm(raw)
        } else {
            decode_thumb32_dp_plain_imm(raw)
        }
    } else {
        decode_thumb32_branch(raw)
    }
}

fn decode_thumb32_11(raw: u32) -> (r: Thumb32InstId)
    ensures
        r == if (raw >> 20) & 0x7F < 64 {
            ls_single_encoding(raw)
        } else {
            Thumb32InstId::Unknown
        },
{
    let op2: u32 = (raw >> 20) & 0x7F;
    match op2 / 8 {
        0b0000..=0b0111 => decode_thumb32_ls_single(raw),
        _ => Thumb32InstId::Unknown,
    }
}

/// Loads and stores of several registers.
pub open spec fn ls_multiple_encoding(raw: u32) -> Thumb32InstId {
    if matches_thumb32(raw, 0xFFD0_8000, 0xE880_0000) {
        // 1110100010-0----0---------------
        Thumb32InstId::STMIA
    } else if matches_thumb32(raw, 0xFFFF_0000, 0xE8BD_0000) {
        // 1110100010111101----------------
        Thumb32InstId::POP
    } else if matches_thumb32(raw, 0xFFD0_0000, 0xE890_0000) {
        // 1110100010-1--------------------
        Thumb32InstId::LDMIA
    } else if matches_thumb32(raw, 0xFFFF_8000, 0xE92D_0000) {
        // 11101001001011010---------------
        Thumb32InstId::PUSH
    } else if matches_thumb32(raw, 0xFFD0_8000, 0xE900_0000) {
        // 1110100100-0----0---------------
        Thumb32InstId::STMDB
    } else if matches_thumb32(raw, 0xFFD0_0000, 0xE910_0000) {
        // 1110100100-1--------------------
        Thumb32InstId::LDMDB
    } else {
        Thumb32InstId::Unknown
    }
}

fn decode_thumb32_ls_multiple(raw: u32) -> (r: Thumb32InstId)
    ensures
        r == ls_multiple_encoding(raw),
{
    if matches_thumb32(raw, 0xFFD0_8000, 0xE880_0000) {
        return Thumb32InstId::STMIA;
    }
    if matches_thumb32(raw, 0xFFFF_0000, 0xE8BD_0000) {
        return Thumb32InstId::POP;
    }
    if matches_thumb32(raw, 0xFFD0_0000, 0xE890_0000) {
        return Thumb32InstId::LDMIA;
    }
    if matches_thumb32(raw, 0xFFFF_8000, 0xE92D_0000) {
        return Thumb32InstId::PUSH;
    }
    if matches_thumb32(raw, 0xFFD0_8000, 0xE900_0000) {
        return Thumb32InstId::STMDB;
    }
    if matches_thumb32(raw, 0xFFD0_0000, 0xE910_0000) {
        return Thumb32InstId::LDMDB;
    }
    Thumb32InstId::Unknown
}

/// Loads and stores of two registers, exclusive accesses and table branches.
pub open spec fn ls_dual_excl_encoding(raw: u32) -> Thumb32InstId {
    if matches_thumb32(raw, 0xFFF0_0000, 0xE840_0000) {
        // 111010000100--------------------
        Thumb32InstId::STREX
    } else if matches_thumb32(raw, 0xFFF0_0F00, 0xE850_0F00) {
        // 111010000101--------1111--------
        Thumb32InstId::LDREX
    } else if matches_thumb32(raw, 0xFF70_0000, 0xE860_0000) {
        // 11101000-110--------------------
        Thumb32InstId::STRD_imm_1
    } else if matches_thumb32(raw, 0xFF50_0000, 0xE940_0000) {
        // 11101001-1-0--------------------
        Thumb32InstId::STRD_imm_2
    } else if matches_thumb32(raw, 0xFF7F_0000, 0xE87F_0000) {
        // 11101000-1111111----------------
        Thumb32InstId::LDRD_lit_1
    } else if matches_thumb32(raw, 0xFF5F_0000, 0xE95F_0000) {
        // 11101001-1-11111----------------
        Thumb32InstId::LDRD_lit_2
    } else if matches_thumb32(raw, 0xFF70_0000, 0xE870_0000) {
        // 11101000-111--------------------
        Thumb32InstId::LDRD_imm_1
    } else if matches_thumb32(raw, 0xFF50_0000, 0xE950_0000) {
        // 11101001-1-1--------------------
        Thumb32InstId::LDRD_imm_2
    } else if matches_thumb32(raw, 0xFFF0_0FFF, 0xE8C0_0FAF) {
        // 111010001100--------111110101111
        Thumb32InstId::STL
    } else if matches_thumb32(raw, 0xFFF0_0FFF, 0xE8D0_0FAF) {
        // 111010001101--------111110101111
        Thumb32InstId::LDA
    } else if matches_thumb32(raw, 0xFFF0_0FF0, 0xE8C0_0F40) {
        // 111010001100--------11110100----
        Thumb32InstId::STREXB
    } else if matches_thumb32(raw, 0xFFF0_0FF0, 0xE8C0_0F50) {
        // 111010001100--------11110101----
        Thumb32InstId::STREXH
    } else if matches_thumb32(raw, 0xFFF0_00F0, 0xE8C0_0070) {
        // 111010001100------------0111----
        Thumb32InstId::STREXD
    } else if matches_thumb32(raw, 0xFFF0_FFF0, 0xE8D0_F000) {
        // 111010001101----111100000000----
        Thumb32InstId::TBB
    } else if matches_thumb32(raw, 0xFFF0_FFF0, 0xE8D0_F010) {
        // 111010001101----111100000001----
        Thumb32InstId::TBH
    } else if matches_thumb32(raw, 0xFFF0_0FFF, 0xE8D0_0F4F) {
        // 111010001101--------111101001111
        Thumb32InstId::LDREXB
    } else if matches_thumb32(raw, 0xFFF0_0FFF, 0xE8D0_0F5F) {
        // 111010001101--------111101011111
        Thumb32InstId::LDREXH
    } else if matches_thumb32(raw, 0xFFF0_00FF, 0xE8D0_007F) {
        // 111010001101------------01111111
        Thumb32InstId::LDREXD
    } else {
        Thumb32InstId::Unknown
    }
}

fn decode_thumb32_ls_dual_excl(raw: u32) -> (r: Thumb32InstId)
    ensures
        r == ls_dual_excl_encoding(raw),
{
    if matches_thumb32(raw, 0xFFF0_0000, 0xE840_0000) {
        return Thumb32InstId::STREX;
    }
    if matches_thumb32(raw, 0xFFF0_0F00, 0xE850_0F00) {
        return Thumb32InstId::LDREX;
    }
    if matches_thumb32(raw, 0xFF70_0000, 0xE860_0000) {
        return Thumb32InstId::STRD_imm_1;
    }
    if matches_thumb32(raw, 0xFF50_0000, 0xE940_0000) {
        return Thumb32InstId::STRD_imm_2;
    }
    if matches_thumb32(raw, 0xFF7F_0000, 0xE87F_0000) {
        return Thumb32InstId::LDRD_lit_1;
    }
    if matches_thumb32(raw, 0xFF5F_0000, 0xE95F_0000) {
        return Thumb32InstId::LDRD_lit_2;
    }
    if matches_thumb32(raw, 0xFF70_0000, 0xE870_0000) {
        return Thumb32InstId::LDRD_imm_1;
    }
    if matches_thumb32(raw, 0xFF50_0000, 0xE950_0000) {
        return Thumb32InstId::LDRD_imm_2;
    }
    if matches_thumb32(raw, 0xFFF0_0FFF, 0xE8C0_0FAF) {
        return Thumb32InstId::STL;
    }
    if matches_thumb32(raw, 0xFFF0_0FFF, 0xE8D0_0FAF) {
        return Thumb32InstId::LDA;
    }
    if matches_thumb32(raw, 0xFFF0_0FF0, 0xE8C0_0F40) {
        return Thumb32InstId::STREXB;
    }
    if matches_thumb32(raw, 0xFFF0_0FF0, 0xE8C0_0F50) {
        return Thumb32InstId::STREXH;
    }
    if matches_thumb32(raw, 0xFFF0_00F0, 0xE8C0_0070) {
        return Thumb32InstId::STREXD;
    }
    if matches_thumb32(raw, 0xFFF0_FFF0, 0xE8D0_F000) {
        return Thumb32InstId::TBB;
    }
    if matches_thumb32(raw, 0xFFF0_FFF0, 0xE8D0_F010) {
        return Thumb32InstId::TBH;
    }
    if matches_thumb32(raw, 0xFFF0_0FFF, 0xE8D0_0F4F) {
        return Thumb32InstId::LDREXB;
    }
    if matches_thumb32(raw, 0xFFF0_0FFF, 0xE8D0_0F5F) {
        return Thumb32InstId::LDREXH;
    }
    if matches_thumb32(raw, 0xFFF0_00FF, 0xE8D0_007F) {
        return Thumb32InstId::LDREXD;
    }
    Thumb32InstId::Unknown
}

/// Data processing with a shifted register.
pub open spec fn dp_shifted_reg_encoding(raw: u32) -> Thumb32InstId {
    if matches_thumb32(raw, 0xFFF0_8F00, 0xEA10_0F00) {
        // 111010100001----0---1111--------
        Thumb32InstId::TST_reg
    } else if matches_thumb32(raw, 0xFFE0_8000, 0xEA00_0000) {
        // 11101010000-----0---------------
        Thumb32InstId::AND_reg
    } else if matches_thumb32(raw, 0xFFE0_8000, 0xEA20_0000) {
        // 11101010001-----0---------------
        Thumb32InstId::BIC_reg
    } else if matches_thumb32(raw, 0xFFEF_8000, 0xEA4F_0000) {
        // 11101010010-11110---------------
        Thumb32InstId::MOV_reg
    } else if matches_thumb32(raw, 0xFFE0_8000, 0xEA40_0000) {
        // 11101010010-----0---------------
        Thumb32InstId::ORR_reg
    } else if matches_thumb32(raw, 0xFFEF_8000, 0xEA6F_0000) {
        // 11101010011-11110---------------
        Thumb32InstId::MVN_reg
    } else if matches_thumb32(raw, 0xFFE0_8000, 0xEA60_0000) {
        // 11101010011-----0---------------
        Thumb32InstId::ORN_reg
    } else if matches_thumb32(raw, 0xFFF0_8F00, 0xEA90_0F00) {
        // 111010101001----0---1111--------
        Thumb32InstId::TEQ_reg
    } else if matches_thumb32(raw, 0xFFE0_8000, 0xEA80_0000) {
        // 11101010100-----0---------------
        Thumb32InstId::EOR_reg
    } else if matches_thumb32(raw, 0xFFF0_8010, 0xEAC0_0000) {
        // 111010101100----0----------0----
        Thumb32InstId::PKH
    } else if matches_thumb32(raw, 0xFFF0_8F00, 0xEB10_0F00) {
        // 111010110001----0---1111--------
        Thumb32InstId::CMN_reg
    } else if matches_thumb32(raw, 0xFFE0_8000, 0xEB00_0000) {
        // 11101011000-----0---------------
        Thumb32InstId::ADD_reg
    } else if matches_thumb32(raw, 0xFFE0_8000, 0xEB40_0000) {
        // 11101011010-----0---------------
        Thumb32InstId::ADC_reg
    } else if matches_thumb32(raw, 0xFFE0_8000, 0xEB60_0000) {
        // 11101011011-----0---------------
        Thumb32InstId::SBC_reg
    } else if matches_thumb32(raw, 0xFFF0_8F00, 0xEBB0_0F00) {
        // 111010111011----0---1111--------
        Thumb32InstId::CMP_reg
    } else if matches_thumb32(raw, 0xFFE0_8000, 0xEBA0_0000) {
        // 11101011101-----0---------------
        Thumb32InstId::SUB_reg
    } else if matches_thumb32(raw, 0xFFE0_8000, 0xEBC0_0000) {
        // 11101011110-----0---------------
        Thumb32InstId::RSB_reg
    } else {
        Thumb32InstId::Unknown
    }
}

fn decode_thumb32_dp_shifted_reg(raw: u32) -> (r: Thumb32InstId)
    ensures
        r == dp_shifted_reg_encoding(raw),
{
    if matches_thumb32(raw, 0xFFF0_8F00, 0xEA10_0F00) {
        return Thumb32InstId::TST_reg;
    }
    if matches_thumb32(raw, 0xFFE0_8000, 0xEA00_0000) {
        return Thumb32InstId::AND_reg;
    }
    if matches_thumb32(raw, 0xFFE0_8000, 0xEA20_0000) {
        return Thumb32InstId::BIC_reg;
    }
    if matches_thumb32(raw, 0xFFEF_8000, 0xEA4F_0000) {
        return Thumb32InstId::MOV_reg;
    }
    if matches_thumb32(raw, 0xFFE0_8000, 0xEA40_0000) {
        return Thumb32InstId::ORR_reg;
    }
    if matches_thumb32(raw, 0xFFEF_8000, 0xEA6F_0000) {
        return Thumb32InstId::MVN_reg;
    }
    if matches_thumb32(raw, 0xFFE0_8000, 0xEA60_0000) {
        return Thumb32InstId::ORN_reg;
    }
    if matches_thumb32(raw, 0xFFF0_8F00, 0xEA90_0F00) {
        return Thumb32InstId::TEQ_reg;
    }
    if matches_thumb32(raw, 0xFFE0_8000, 0xEA80_0000) {
        return Thumb32InstId::EOR_reg;
    }
    if matches_thumb32(raw, 0xFFF0_8010, 0xEAC0_0000) {
        return Thumb32InstId::PKH;
    }
    if matches_thumb32(raw, 0xFFF0_8F00, 0xEB10_0F00) {
        return Thumb32InstId::CMN_reg;
    }
    if matches_thumb32(raw, 0xFFE0_8000, 0xEB00_0000) {
        return Thumb32InstId::ADD_reg;
    }
    if matches_thumb32(raw, 0xFFE0_8000, 0xEB40_0000) {
        return Thumb32InstId::ADC_reg;
    }
    if matches_thumb32(raw, 0xFFE0_8000, 0xEB60_0000) {
        return Thumb32InstId::SBC_reg;
    }
    if matches_thumb32(raw, 0xFFF0_8F00, 0xEBB0_0F00) {
        return Thumb32InstId::CMP_reg;
    }
    if matches_thumb32(raw, 0xFFE0_8000, 0xEBA0_0000) {
        return Thumb32InstId::SUB_reg;
    }
    if matches_thumb32(raw, 0xFFE0_8000, 0xEBC0_0000) {
        return Thumb32InstId::RSB_reg;
    }
    Thumb32InstId::Unknown
}

/// Data processing with a modified immediate.
pub open spec fn dp_mod_imm_encoding(raw: u32) -> Thumb32InstId {
    if matches_thumb32(raw, 0xFBF0_8F00, 0xF010_0F00) {
        // 11110-000001----0---1111--------
        Thumb32InstId::TST_imm
    } else if matches_thumb32(raw, 0xFBE0_8000, 0xF000_0000) {
        // 11110-00000-----0---------------
        Thumb32InstId::AND_imm
    } else if matches_thumb32(raw, 0xFBE0_8000, 0xF020_0000) {
        // 11110-00001-----0---------------
        Thumb32InstId::BIC_imm
    } else if matches_thumb32(raw, 0xFBEF_8000, 0xF04F_0000) {
        // 11110-00010-11110---------------
        Thumb32InstId::MOV_imm
    } else if matches_thumb32(raw, 0xFBE0_8000, 0xF040_0000) {
        // 11110-00010-----0---------------
        Thumb32InstId::ORR_imm
    } else if matches_thumb32(raw, 0xFBEF_8000, 0xF06F_0000) {
        // 11110-00011-11110---------------
        Thumb32InstId::MVN_imm
    } else if matches_thumb32(raw, 0xFBE0_8000, 0xF060_0000) {
        // 11110-00011-----0---------------
        Thumb32InstId::ORN_imm
    } else if matches_thumb32(raw, 0xFBF0_8F00, 0xF090_0F00) {
        // 11110-001001----0---1111--------
        Thumb32InstId::TEQ_imm
    } else if matches_thumb32(raw, 0xFBE0_8000, 0xF080_0000) {
        // 11110-00100-----0---------------
        Thumb32InstId::EOR_imm
    } else if matches_thumb32(raw, 0xFBF0_8F00, 0xF110_0F00) {
        // 11110-010001----0---1111--------
        Thumb32InstId::CMN_imm
    } else if matches_thumb32(raw, 0xFBE0_8000, 0xF100_0000) {
        // 11110-01000-----0---------------
        Thumb32InstId::ADD_imm_1
    } else if matches_thumb32(raw, 0xFBE0_8000, 0xF140_0000) {
        // 11110-01010-----0---------------
        Thumb32InstId::ADC_imm
    } else if matches_thumb32(raw, 0xFBE0_8000, 0xF160_0000) {
        // 11110-01011-----0---------------
        Thumb32InstId::SBC_imm
    } else if matches_thumb32(raw, 0xFBF0_8F00, 0xF1B0_0F00) {
        // 11110-011011----0---1111--------
        Thumb32InstId::CMP_imm
    } else if matches_thumb32(raw, 0xFBE0_8000, 0xF1A0_0000) {
        // 11110-01101-----0---------------
        Thumb32InstId::SUB_imm_1
    } else if matches_thumb32(raw, 0xFBE0_8000, 0xF1C0_0000) {
        // 11110-01110-----0---------------
        Thumb32InstId::RSB_imm
    } else {
        Thumb32InstId::Unknown
    }
}

fn decode_thumb32_dp_mod_imm(raw: u32) -> (r: Thumb32InstId)
    ensures
        r == dp_mod_imm_encoding(raw),
{
    if matches_thumb32(raw, 0xFBF0_8F00, 0xF010_0F00) {
        return Thumb32InstId::TST_imm;
    }
    if matches_thumb32(raw, 0xFBE0_8000, 0xF000_0000) {
        return Thumb32InstId::AND_imm;
    }
    if matches_thumb32(raw, 0xFBE0_8000, 0xF020_0000) {
        return Thumb32InstId::BIC_imm;
    }
    if matches_thumb32(raw, 0xFBEF_8000, 0xF04F_0000) {
        return Thumb32InstId::MOV_imm;
    }
    if matches_thumb32(raw, 0xFBE0_8000, 0xF040_0000) {
        return Thumb32InstId::ORR_imm;
    }
    if matches_thumb32(raw, 0xFBEF_8000, 0xF06F_0000) {
        return Thumb32InstId::MVN_imm;
    }
    if matches_thumb32(raw, 0xFBE0_8000, 0xF060_0000) {
        return Thumb32InstId::ORN_imm;
    }
    if matches_thumb32(raw, 0xFBF0_8F00, 0xF090_0F00) {
        return Thumb32InstId::TEQ_imm;
    }
    if matches_thumb32(raw, 0xFBE0_8000, 0xF080_0000) {
        return Thumb32InstId::EOR_imm;
    }
    if matches_thumb32(raw, 0xFBF0_8F00, 0xF110_0F00) {
        return Thumb32InstId::CMN_imm;
    }
    if matches_thumb32(raw, 0xFBE0_8000, 0xF100_0000) {
        return Thumb32InstId::ADD_imm_1;
    }
    if matches_thumb32(raw, 0xFBE0_8000, 0xF140_0000) {
        return Thumb32InstId::ADC_imm;
    }
    if matches_thumb32(raw, 0xFBE0_8000, 0xF160_0000) {
        return Thumb32InstId::SBC_imm;
    }
    if matches_thumb32(raw, 0xFBF0_8F00, 0xF1B0_0F00) {
        return Thumb32InstId::CMP_imm;
    }
    if matches_thumb32(raw, 0xFBE0_8000, 0xF1A0_0000) {
        return Thumb32InstId::SUB_imm_1;
    }
    if matches_thumb32(raw, 0xFBE0_8000, 0xF1C0_0000) {
        return Thumb32InstId::RSB_imm;
    }
    Thumb32InstId::Unknown
}

/// Data processing with a plain immediate, and bit fields.
pub open spec fn dp_plain_imm_encoding(raw: u32) -> Thumb32InstId {
    if matches_thumb32(raw, 0xFBFF_8000, 0xF20F_0000) {
        // 11110-10000011110---------------
        Thumb32InstId::ADR_t3
    } else if matches_thumb32(raw, 0xFBF0_8000, 0xF200_0000) {
        // 11110-100000----0---------------
        Thumb32InstId::ADD_imm_2
    } else if matches_thumb32(raw, 0xFBF0_8000, 0xF240_0000) {
        // 11110-100100----0---------------
        Thumb32InstId::MOVW_imm
    } else if matches_thumb32(raw, 0xFBFF_8000, 0xF2AF_0000) {
        // 11110-10101011110---------------
        Thumb32InstId::ADR_t2
    } else if matches_thumb32(raw, 0xFBF0_8000, 0xF2A0_0000) {
        // 11110-101010----0---------------
        Thumb32InstId::SUB_imm_2
    } else if matches_thumb32(raw, 0xFBF0_8000, 0xF2C0_0000) {
        // 11110-101100----0---------------
        Thumb32InstId::MOVT
    } else if matches_thumb32(raw, 0xFF70_F0F0, 0xF320_0010) {
        // 11110011-010----0000----0001----
        Thumb32InstId::UDF
    } else if matches_thumb32(raw, 0xFFF0_F0F0, 0xF320_0000) {
        // 111100110010----0000----0000----
        Thumb32InstId::SSAT16
    } else if matches_thumb32(raw, 0xFFF0_F0F0, 0xF3A0_0000) {
        // 111100111010----0000----0000----
        Thumb32InstId::USAT16
    } else if matches_thumb32(raw, 0xFFD0_8020, 0xF300_0000) {
        // 1111001100-0----0---------0-----
        Thumb32InstId::SSAT
    } else if matches_thumb32(raw, 0xFFD0_8020, 0xF380_0000) {
        // 1111001110-0----0---------0-----
        Thumb32InstId::USAT
    } else if matches_thumb32(raw, 0xFFF0_8020, 0xF340_0000) {
        // 111100110100----0---------0-----
        Thumb32InstId::SBFX
    } else if matches_thumb32(raw, 0xFFFF_8020, 0xF36F_0000) {
        // 11110011011011110---------0-----
        Thumb32InstId::BFC
    } else if matches_thumb32(raw, 0xFFF0_8020, 0xF360_0000) {
        // 111100110110----0---------0-----
        Thumb32InstId::BFI
    } else if matches_thumb32(raw, 0xFFF0_8020, 0xF3C0_0000) {
        // 111100111100----0---------0-----
        Thumb32InstId::UBFX
    } else {
        Thumb32InstId::Unknown
    }
}

fn decode_thumb32_dp_plain_imm(raw: u32) -> (r: Thumb32InstId)
    ensures
        r == dp_plain_imm_encoding(raw),
{
    if matches_thumb32(raw, 0xFBFF_8000, 0xF20F_0000) {
        return Thumb32InstId::ADR_t3;
    }
    if matches_thumb32(raw, 0xFBF0_8000, 0xF200_0000) {
        return Thumb32InstId::ADD_imm_2;
    }
    if matches_thumb32(raw, 0xFBF0_8000, 0xF240_0000) {
        return Thumb32InstId::MOVW_imm;
    }
    if matches_thumb32(raw, 0xFBFF_8000, 0xF2AF_0000) {
        return Thumb32InstId::ADR_t2;
    }
    if matches_thumb32(raw, 0xFBF0_8000, 0xF2A0_0000) {
        return Thumb32InstId::SUB_imm_2;
    }
    if matches_thumb32(raw, 0xFBF0_8000, 0xF2C0_0000) {
        return Thumb32InstId::MOVT;
    }
    if matches_thumb32(raw, 0xFF70_F0F0, 0xF320_0010) {
        return Thumb32InstId::UDF;
    }
    if matches_thumb32(raw, 0xFFF0_F0F0, 0xF320_0000) {
        return Thumb32InstId::SSAT16;
    }
    if matches_thumb32(raw, 0xFFF0_F0F0, 0xF3A0_0000) {
        return Thumb32InstId::USAT16;
    }
    if matches_thumb32(raw, 0xFFD0_8020, 0xF300_0000) {
        return Thumb32InstId::SSAT;
    }
    if matches_thumb32(raw, 0xFFD0_8020, 0xF380_0000) {
        return Thumb32InstId::USAT;
    }
    if matches_thumb32(raw, 0xFFF0_8020, 0xF340_0000) {
        return Thumb32InstId::SBFX;
    }
    if matches_thumb32(raw, 0xFFFF_8020, 0xF36F_0000) {
        return Thumb32InstId::BFC;
    }
    if matches_thumb32(raw, 0xFFF0_8020, 0xF360_0000) {
        return Thumb32InstId::BFI;
    }
    if matches_thumb32(raw, 0xFFF0_8020, 0xF3C0_0000) {
        return Thumb32InstId::UBFX;
    }
    Thumb32InstId::Unknown
}

/// Branches, hints, barriers and status registers.
pub open spec fn branch_encoding(raw: u32) -> Thumb32InstId {
    if matches_thumb32(raw, 0xFF70_F0F0, 0xF320_0010) {
        // 11110011-010----0000----0001----
        Thumb32InstId::UDF
    } else if matches_thumb32(raw, 0xFFE0_F0FF, 0xF380_8000) {
        // 11110011100-----1000----00000000
        Thumb32InstId::MSR_reg
    } else if matches_thumb32(raw, 0xFFFF_FFFF, 0xF3AF_8000) {
        // 11110011101011111000000000000000
        Thumb32InstId::NOP
    } else if matches_thumb32(raw, 0xFFFF_FFFF, 0xF3AF_8001) {
        // 11110011101011111000000000000001
        Thumb32InstId::YIELD
    } else if matches_thumb32(raw, 0xFFFF_FFFF, 0xF3AF_8002) {
        // 11110011101011111000000000000010
        Thumb32InstId::WFE
    } else if matches_thumb32(raw, 0xFFFF_FFFF, 0xF3AF_8003) {
        // 11110011101011111000000000000011
        Thumb32InstId::WFI
    } else if matches_thumb32(raw, 0xFFFF_FFFF, 0xF3AF_8004) {
        // 11110011101011111000000000000100
        Thumb32InstId::SEV
    } else if matches_thumb32(raw, 0xFFFF_FFFF, 0xF3AF_8005) {
        // 11110011101011111000000000000101
        Thumb32InstId::SEVL
    } else if matches_thumb32(raw, 0xFFFF_FFFF, 0xF3BF_8F2F) {
        // 11110011101111111000111100101111
        Thumb32InstId::CLREX
    } else if matches_thumb32(raw, 0xFFFF_FFF0, 0xF3BF_8F40) {
        // 1111001110111111100011110100----
        Thumb32InstId::DSB
    } else if matches_thumb32(raw, 0xFFFF_FFF0, 0xF3BF_8F50) {
        // 1111001110111111100011110101----
        Thumb32InstId::DMB
    } else if matches_thumb32(raw, 0xFFFF_FFF0, 0xF3BF_8F60) {
        // 1111001110111111100011110110----
        Thumb32InstId::ISB
    } else if matches_thumb32(raw, 0xFFF0_FFFF, 0xF3C0_8F00) {
        // 111100111100----1000111100000000
        Thumb32InstId::BXJ
    } else if matches_thumb32(raw, 0xFFEF_F0FF, 0xF3EF_8000) {
        // 11110011111-11111000----00000000
        Thumb32InstId::MRS_reg
    } else if matches_thumb32(raw, 0xFFF0_F000, 0xF7F0_A000) {
        // 111101111111----1010------------
        Thumb32InstId::UDF
    } else if matches_thumb32(raw, 0xF800_D000, 0xF000_D000) {
        // 11110-----------11-1------------
        Thumb32InstId::BL_imm
    } else if matches_thumb32(raw, 0xF800_D000, 0xF000_C000) {
        // 11110-----------11-0------------
        Thumb32InstId::BLX_imm
    } else if matches_thumb32(raw, 0xF800_D000, 0xF000_9000) {
        // 11110-----------10-1------------
        Thumb32InstId::B
    } else if matches_thumb32(raw, 0xFB80_D000, 0xF380_8000) {
        // 11110-111-------10-0------------
        Thumb32InstId::UDF
    } else if matches_thumb32(raw, 0xF800_D000, 0xF000_8000) {
        // 11110-----------10-0------------
        Thumb32InstId::B_cond
    } else {
        Thumb32InstId::Unknown
    }
}

fn decode_thumb32_branch(raw: u32) -> (r: Thumb32InstId)
    ensures
        r == branch_encoding(raw),
{
    if matches_thumb32(raw, 0xFF70_F0F0, 0xF320_0010) {
        return Thumb32InstId::UDF;
    }
    if matches_thumb32(raw, 0xFFE0_F0FF, 0xF380_8000) {
        return Thumb32InstId::MSR_reg;
    }
    if matches_thumb32(raw, 0xFFFF_FFFF, 0xF3AF_8000) {
        return Thumb32InstId::NOP;
    }
    if matches_thumb32(raw, 0xFFFF_FFFF, 0xF3AF_8001) {
        return Thumb32InstId::YIELD;
    }
    if matches_thumb32(raw, 0xFFFF_FFFF, 0xF3AF_8002) {
        return Thumb32InstId::WFE;
    }
    if matches_thumb32(raw, 0xFFFF_FFFF, 0xF3AF_8003) {
        return Thumb32InstId::WFI;
    }
    if matches_thumb32(raw, 0xFFFF_FFFF, 0xF3AF_8004) {
        return Thumb32InstId::SEV;
    }
    if matches_thumb32(raw, 0xFFFF_FFFF, 0xF3AF_8005) {
        return Thumb32InstId::SEVL;
    }
    if matches_thumb32(raw, 0xFFFF_FFFF, 0xF3BF_8F2F) {
        return Thumb32InstId::CLREX;
    }
    if matches_thumb32(raw, 0xFFFF_FFF0, 0xF3BF_8F40) {
        return Thumb32InstId::DSB;
    }
    if matches_thumb32(raw, 0xFFFF_FFF0, 0xF3BF_8F50) {
        return Thumb32InstId::DMB;
    }
    if matches_thumb32(raw, 0xFFFF_FFF0, 0xF3BF_8F60) {
        return Thumb32InstId::ISB;
    }
    if matches_thumb32(raw, 0xFFF0_FFFF, 0xF3C0_8F00) {
        return Thumb32InstId::BXJ;
    }
    if matches_thumb32(raw, 0xFFEF_F0FF, 0xF3EF_8000) {
        return Thumb32InstId::MRS_reg;
    }
    if matches_thumb32(raw, 0xFFF0_F000, 0xF7F0_A000) {
        return Thumb32InstId::UDF;
    }
    if matches_thumb32(raw, 0xF800_D000, 0xF000_D000) {
        return Thumb32InstId::BL_imm;
    }
    if matches_thumb32(raw, 0xF800_D000, 0xF000_C000) {
        return Thumb32InstId::BLX_imm;
    }
    if matches_thumb32(raw, 0xF800_D000, 0xF000_9000) {
        return Thumb32InstId::B;
    }
    if matches_thumb32(raw, 0xFB80_D000, 0xF380_8000) {
        return Thumb32InstId::UDF;
    }
    if matches_thumb32(raw, 0xF800_D000, 0xF000_8000) {
        return Thumb32InstId::B_cond;
    }
    Thumb32InstId::Unknown
}

/// Of three instructions, the one for words, halfwords or bytes, as bits 22
/// and 21 say.
pub open spec fn by_width(
    raw: u32,
    word: Thumb32InstId,
    half: Thumb32InstId,
    byte: Thumb32InstId,
) -> Thumb32InstId {
    if (raw >> 22) & 1 != 0 {
        word
    } else if (raw >> 21) & 1 != 0 {
        half
    } else {
        byte
    }
}

/// Of two sign-extending loads, the one for halfwords or bytes, as bit 21
/// says.
pub open spec fn by_signed_width(
    raw: u32,
    half: Thumb32InstId,
    byte: Thumb32InstId,
) -> Thumb32InstId {
    if (raw >> 21) & 1 != 0 {
        half
    } else {
        byte
    }
}

/// Loads and stores of single data items. Bit 20 marks loads, bit 24 sign
/// extension, bit 23 a twelve-bit offset. A load relative to the program
/// counter is a literal load; there are no sign-extending stores.
pub open spec fn ls_single_encoding(raw: u32) -> Thumb32InstId {
    let op1 = (raw >> 23) & 3;
    let load = (raw >> 20) & 1 != 0;
    let literal = (raw >> 16) & 0xF == 15;
    let indexed = raw & 0x800 != 0;
    let control = (raw >> 8) & 0xF;
    if load && op1 >= 2 {
        if literal {
            by_signed_width(raw, Thumb32InstId::LDRSH_lit, Thumb32InstId::LDRSB_lit)
        } else if op1 == 3 {
            by_signed_width(raw, Thumb32InstId::LDRSH_imm_t1, Thumb32InstId::LDRSB_imm_t1)
        } else if !indexed {
            by_signed_width(raw, Thumb32InstId::LDRSH_reg, Thumb32InstId::LDRSB_reg)
        } else if control == 0b1110 {
            by_signed_width(raw, Thumb32InstId::LDRSHT, Thumb32InstId::LDRSBT)
        } else {
            by_signed_width(raw, Thumb32InstId::LDRSH_imm_t2, Thumb32InstId::LDRSB_imm_t2)
        }
    } else if load {
        if literal {
            by_width(
                raw,
                Thumb32InstId::LDR_lit,
                Thumb32InstId::LDRH_lit,
                Thumb32InstId::LDRB_lit,
            )
        } else if op1 == 1 {
            by_width(
                raw,
                Thumb32InstId::LDR_imm_t3,
                Thumb32InstId::LDRH_imm_t2,
                Thumb32InstId::LDRB_imm_t2,
            )
        } else if !indexed {
            by_width(
                raw,
                Thumb32InstId::LDR_reg,
                Thumb32InstId::LDRH_reg,
                Thumb32InstId::LDRB_reg,
            )
        } else if control == 0b1110 {
            by_width(raw, Thumb32InstId::LDRT, Thumb32InstId::LDRHT, Thumb32InstId::LDRBT)
        } else {
            by_width(
                raw,
                Thumb32InstId::LDR_imm_t4,
                Thumb32InstId::LDRH_imm_t3,
                Thumb32InstId::LDRB_imm_t3,
            )
        }
    } else if op1 == 0 {
        if control == 0xC {
            by_width(
                raw,
                Thumb32InstId::STR_imm_2,
                Thumb32InstId::STRH_imm_2,
                Thumb32InstId::STRB_imm_2,
            )
        } else if control == 0xE {
            by_width(raw, Thumb32InstId::STRT, Thumb32InstId::STRHT, Thumb32InstId::STRBT)
        } else if control & 0x9 == 0x9 {
            by_width(
                raw,
                Thumb32InstId::STR_imm_1,
                Thumb32InstId::STRH_imm_1,
                Thumb32InstId::STRB_imm_1,
            )
        } else if raw & 0x0FC0 == 0 {
            by_width(
                raw,
                Thumb32InstId::STR_reg,
                Thumb32InstId::STRH_reg,
                Thumb32InstId::STRB_reg,
            )
        } else {
            Thumb32InstId::Unknown
        }
    } else if op1 == 1 {
        by_width(
            raw,
            Thumb32InstId::STR_imm_3,
            Thumb32InstId::STRH_imm_3,
            Thumb32InstId::STRB_imm_3,
        )
    } else {
        Thumb32InstId::Unknown
    }
}

fn decode_thumb32_ls_single(raw: u32) -> (r: Thumb32InstId)
    ensures
        r == ls_single_encoding(raw),
{
    let op1: u32 = (raw >> 23) & 3;
    let rn: u32 = (raw >> 16) & 0xF;
    let load: bool = (raw >> 20) & 1 != 0;
    let half: bool = (raw >> 21) & 1 != 0;
    let word: bool = (raw >> 22) & 1 != 0;
    let indexed_imm8: bool = raw & 0x800 != 0;
    let unprivileged: bool = (raw >> 8) & 0xF == 0b1110;
    match op1 {
        0b00 => if load {
            if word {
                if rn == 15 {
                    return Thumb32InstId::LDR_lit;
                }
                if indexed_imm8 {
                    if unprivileged { Thumb32InstId::LDRT } else { Thumb32InstId::LDR_imm_t4 }
                } else {
                    Thumb32InstId::LDR_reg
                }
            } else if half {
                if rn == 15 {
                    return Thumb32InstId::LDRH_lit;
                }
                if indexed_imm8 {
                    if unprivileged { Thumb32InstId::LDRHT } else { Thumb32InstId::LDRH_imm_t3 }
                } else {
                    Thumb32InstId::LDRH_reg
                }
            } else {
                if rn == 15 {
                    return Thumb32InstId::LDRB_lit;
                }
                if indexed_imm8 {
                    if unprivileged { Thumb32InstId::LDRBT } else { Thumb32InstId::LDRB_imm_t3 }
                } else {
                    Thumb32InstId::LDRB_reg
                }
            }
        } else {
            decode_thumb32_store_single(raw)
        },
        0b01 => if load {
            if word {
                if rn == 15 { Thumb32InstId::LDR_lit } else { Thumb32InstId::LDR_imm_t3 }
            } else if half {
                if rn == 15 { Thumb32InstId::LDRH_lit } else { Thumb32InstId::LDRH_imm_t2 }
            } else {
                if rn == 15 { Thumb32InstId::LDRB_lit } else { Thumb32InstId::LDRB_imm_t2 }
            }
        } else if word {
            Thumb32InstId::STR_imm_3
        } else if half {
            Thumb32InstId::STRH_imm_3
        } else {
            Thumb32InstId::STRB_imm_3
        },
        0b10 => if load {
            if rn == 15 {
                return if half { Thumb32InstId::LDRSH_lit } else { Thumb32InstId::LDRSB_lit };
            }
            if half {
                if indexed_imm8 {
                    if unprivileged { Thumb32InstId::LDRSHT } else { Thumb32InstId::LDRSH_imm_t2 }
                } else {
                    Thumb32InstId::LDRSH_reg
                }
            } else if indexed_imm8 {
                if unprivileged { Thumb32InstId::LDRSBT } else { Thumb32InstId::LDRSB_imm_t2 }
            } else {
                Thumb32InstId::LDRSB_reg
            }
        } else {
            Thumb32InstId::Unknown
        },
        _ => if load {
            if half {
                if rn == 15 { Thumb32InstId::LDRSH_lit } else { Thumb32InstId::LDRSH_imm_t1 }
            } else {
                if rn == 15 { Thumb32InstId::LDRSB_lit } else { Thumb32InstId::LDRSB_imm_t1 }
            }
        } else {
            Thumb32InstId::Unknown
        },
    }
}

fn decode_thumb32_store_single(raw: u32) -> (r: Thumb32InstId)
    requires
        (raw >> 23) & 3 == 0,
        (raw >> 20) & 1 == 0,
    ensures
        r == ls_single_encoding(raw),
{
    let half: bool = (raw >> 21) & 1 != 0;
    let word: bool = (raw >> 22) & 1 != 0;
    let control: u32 = (raw >> 8) & 0xF;
    let register: bool = raw & 0x0FC0 == 0;
    if word {
        if control == 0xC {
            Thumb32InstId::STR_imm_2
        } else if control == 0xE {
            Thumb32InstId::STRT
        } else if control & 0x9 == 0x9 {
            Thumb32InstId::STR_imm_1
        } else if register {
            Thumb32InstId::STR_reg
        } else {
            Thumb32InstId::Unknown
        }
    } else if half {
        if control == 0xC {
            Thumb32InstId::STRH_imm_2
        } else if control == 0xE {
            Thumb32InstId::STRHT
        } else if control & 0x9 == 0x9 {
            Thumb32InstId::STRH_imm_1
        } else if register {
            Thumb32InstId::STRH_reg
        } else {
            Thumb32InstId::Unknown
        }
    } else if control == 0xC {
        Thumb32InstId::STRB_imm_2
    } else if control == 0xE {
        Thumb32InstId::STRBT
    } else if control & 0x9 == 0x9 {
        Thumb32InstId::STRB_imm_1
    } else if register {
        Thumb32InstId::STRB_reg
    } else {
        Thumb32InstId::Unknown
    }
}

/// Multiplications with a word as result.
pub open spec fn multiply_encoding(raw: u32) -> Thumb32InstId {
    if matches_thumb32(raw, 0xFFF0_F0F0, 0xFB00_F000) {
        // 111110110000----1111----0000----
        Thumb32InstId::MUL
    } else if matches_thumb32(raw, 0xFFF0_00F0, 0xFB00_0000) {
        // 111110110000------------0000----
        Thumb32InstId::MLA
    } else if matches_thumb32(raw, 0xFFF0_00F0, 0xFB00_0010) {
        // 111110110000------------0001----
        Thumb32InstId::MLS
    } else if matches_thumb32(raw, 0xFFF0_F0C0, 0xFB10_F000) {
        // 111110110001----1111----00------
        Thumb32InstId::SMULXY
    } else if matches_thumb32(raw, 0xFFF0_00C0, 0xFB10_0000) {
        // 111110110001------------00------
        Thumb32InstId::SMLAXY
    } else if matches_thumb32(raw, 0xFFF0_F0E0, 0xFB20_F000) {
        // 111110110010----1111----000-----
        Thumb32InstId::SMUAD
    } else if matches_thumb32(raw, 0xFFF0_00E0, 0xFB20_0000) {
        // 111110110010------------000-----
        Thumb32InstId::SMLAD
    } else if matches_thumb32(raw, 0xFFF0_F0E0, 0xFB30_F000) {
        // 111110110011----1111----000-----
        Thumb32InstId::SMULWY
    } else if matches_thumb32(raw, 0xFFF0_00E0, 0xFB30_0000) {
        // 111110110011------------000-----
        Thumb32InstId::SMLAWY
    } else if matches_thumb32(raw, 0xFFF0_F0E0, 0xFB40_F000) {
        // 111110110100----1111----000-----
        Thumb32InstId::SMUSD
    } else if matches_thumb32(raw, 0xFFF0_00E0, 0xFB40_0000) {
        // 111110110100------------000-----
        Thumb32InstId::SMLSD
    } else if matches_thumb32(raw, 0xFFF0_F0E0, 0xFB50_F000) {
        // 111110110101----1111----000-----
        Thumb32InstId::SMMUL
    } else if matches_thumb32(raw, 0xFFF0_00E0, 0xFB50_0000) {
        // 111110110101------------000-----
        Thumb32InstId::SMMLA
    } else if matches_thumb32(raw, 0xFFF0_00E0, 0xFB60_0000) {
        // 111110110110------------000-----
        Thumb32InstId::SMMLS
    } else if matches_thumb32(raw, 0xFFF0_F0F0, 0xFB70_F000) {
        // 111110110111----1111----0000----
        Thumb32InstId::USAD8
    } else if matches_thumb32(raw, 0xFFF0_00F0, 0xFB70_0000) {
        // 111110110111------------0000----
        Thumb32InstId::USADA8
    } else {
        Thumb32InstId::Unknown
    }
}

fn decode_thumb32_multiply(raw: u32) -> (r: Thumb32InstId)
    ensures
        r == multiply_encoding(raw),
{
    if matches_thumb32(raw, 0xFFF0_F0F0, 0xFB00_F000) {
        return Thumb32InstId::MUL;
    }
    if matches_thumb32(raw, 0xFFF0_00F0, 0xFB00_0000) {
        return Thumb32InstId::MLA;
    }
    if matches_thumb32(raw, 0xFFF0_00F0, 0xFB00_0010) {
        return Thumb32InstId::MLS;
    }
    if matches_thumb32(raw, 0xFFF0_F0C0, 0xFB10_F000) {
        return Thumb32InstId::SMULXY;
    }
    if matches_thumb32(raw, 0xFFF0_00C0, 0xFB10_0000) {
        return Thumb32InstId::SMLAXY;
    }
    if matches_thumb32(raw, 0xFFF0_F0E0, 0xFB20_F000) {
        return Thumb32InstId::SMUAD;
    }
    if matches_thumb32(raw, 0xFFF0_00E0, 0xFB20_0000) {
        return Thumb32InstId::SMLAD;
    }
    if matches_thumb32(raw, 0xFFF0_F0E0, 0xFB30_F000) {
        return Thumb32InstId::SMULWY;
    }
    if matches_thumb32(raw, 0xFFF0_00E0, 0xFB30_0000) {
        return Thumb32InstId::SMLAWY;
    }
    if matches_thumb32(raw, 0xFFF0_F0E0, 0xFB40_F000) {
        return Thumb32InstId::SMUSD;
    }
    if matches_thumb32(raw, 0xFFF0_00E0, 0xFB40_0000) {
        return Thumb32InstId::SMLSD;
    }
    if matches_thumb32(raw, 0xFFF0_F0E0, 0xFB50_F000) {
        return Thumb32InstId::SMMUL;
    }
    if matches_thumb32(raw, 0xFFF0_00E0, 0xFB50_0000) {
        return Thumb32InstId::SMMLA;
    }
    if matches_thumb32(raw, 0xFFF0_00E0, 0xFB60_0000) {
        return Thumb32InstId::SMMLS;
    }
    if matches_thumb32(raw, 0xFFF0_F0F0, 0xFB70_F000) {
        return Thumb32InstId::USAD8;
    }
    if matches_thumb32(raw, 0xFFF0_00F0, 0xFB70_0000) {
        return Thumb32InstId::USADA8;
    }
    Thumb32InstId::Unknown
}

/// Multiplications with a double word as result, and divisions.
pub open spec fn long_multiply_encoding(raw: u32) -> Thumb32InstId {
    if matches_thumb32(raw, 0xFFF0_00F0, 0xFB80_0000) {
        // 111110111000------------0000----
        Thumb32InstId::SMULL
    } else if matches_thumb32(raw, 0xFFF0_F0F0, 0xFB90_F0F0) {
        // 111110111001----1111----1111----
        Thumb32InstId::SDIV
    } else if matches_thumb32(raw, 0xFFF0_00F0, 0xFBA0_0000) {
        // 111110111010------------0000----
        Thumb32InstId::UMULL
    } else if matches_thumb32(raw, 0xFFF0_F0F0, 0xFBB0_F0F0) {
        // 111110111011----1111----1111----
        Thumb32InstId::UDIV
    } else if matches_thumb32(raw, 0xFFF0_00F0, 0xFBC0_0000) {
        // 111110111100------------0000----
        Thumb32InstId::SMLAL
    } else if matches_thumb32(raw, 0xFFF0_00C0, 0xFBC0_0080) {
        // 111110111100------------10------
        Thumb32InstId::SMLALXY
    } else if matches_thumb32(raw, 0xFFF0_00E0, 0xFBC0_00C0) {
        // 111110111100------------110-----
        Thumb32InstId::SMLALD
    } else if matches_thumb32(raw, 0xFFF0_00E0, 0xFBD0_00C0) {
        // 111110111101------------110-----
        Thumb32InstId::SMLSLD
    } else if matches_thumb32(raw, 0xFFF0_00F0, 0xFBE0_0000) {
        // 111110111110------------0000----
        Thumb32InstId::UMLAL
    } else if matches_thumb32(raw, 0xFFF0_00F0, 0xFBE0_0060) {
        // 111110111110------------0110----
        Thumb32InstId::UMAAL
    } else {
        Thumb32InstId::Unknown
    }
}

fn decode_thumb32_long_multiply(raw: u32) -> (r: Thumb32InstId)
    ensures
        r == long_multiply_encoding(raw),
{
    if matches_thumb32(raw, 0xFFF0_00F0, 0xFB80_0000) {
        return Thumb32InstId::SMULL;
    }
    if matches_thumb32(raw, 0xFFF0_F0F0, 0xFB90_F0F0) {
        return Thumb32InstId::SDIV;
    }
    if matches_thumb32(raw, 0xFFF0_00F0, 0xFBA0_0000) {
        return Thumb32InstId::UMULL;
    }
    if matches_thumb32(raw, 0xFFF0_F0F0, 0xFBB0_F0F0) {
        return Thumb32InstId::UDIV;
    }
    if matches_thumb32(raw, 0xFFF0_00F0, 0xFBC0_0000) {
        return Thumb32InstId::SMLAL;
    }
    if matches_thumb32(raw, 0xFFF0_00C0, 0xFBC0_0080) {
        return Thumb32InstId::SMLALXY;
    }
    if matches_thumb32(raw, 0xFFF0_00E0, 0xFBC0_00C0) {
        return Thumb32InstId::SMLALD;
    }
    if matches_thumb32(raw, 0xFFF0_00E0, 0xFBD0_00C0) {
        return Thumb32InstId::SMLSLD;
    }
    if matches_thumb32(raw, 0xFFF0_00F0, 0xFBE0_0000) {
        return Thumb32InstId::UMLAL;
    }
    if matches_thumb32(raw, 0xFFF0_00F0, 0xFBE0_0060) {
        return Thumb32InstId::UMAAL;
    }
    Thumb32InstId::Unknown
}

} // verus!
