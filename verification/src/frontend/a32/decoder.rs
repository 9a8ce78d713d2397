//! Decoding of ARM instructions.

use vstd::prelude::*;
use crate::bits::{rotate_right, rotated_right, sign_extended};
use crate::frontend::a32::types::{reg, shift_type, Reg, ShiftType};
use crate::ir::cond::{cond_code, Cond};

verus! {

broadcast use crate::bits::and_le_mask;

/// A decoded ARM instruction: its bits and the instruction that they encode.
#[derive(Clone, Copy, Debug)]
pub struct DecodedArm {
    pub raw: u32,
    pub id: ArmInstId,
}

/// An ARM instruction. Names ending in `imm`, `reg`, `rsr` and `lit` take an
/// immediate, a register, a register shifted by a register, or a literal next
/// to the code.
#[allow(non_camel_case_types)]
#[derive(Clone, Copy, Debug, PartialEq, Eq, Hash, Structural)]
pub enum ArmInstId {
    AND_imm,
    EOR_imm,
    SUB_imm,
    RSB_imm,
    ADD_imm,
    ADC_imm,
    SBC_imm,
    RSC_imm,
    TST_imm,
    TEQ_imm,
    CMP_imm,
    CMN_imm,
    ORR_imm,
    MOV_imm,
    BIC_imm,
    MVN_imm,
    AND_reg,
    EOR_reg,
    SUB_reg,
    RSB_reg,
    ADD_reg,
    ADC_reg,
    SBC_reg,
    RSC_reg,
    TST_reg,
    TEQ_reg,
    CMP_reg,
    CMN_reg,
    ORR_reg,
    MOV_reg,
    BIC_reg,
    MVN_reg,
    AND_rsr,
    EOR_rsr,
    SUB_rsr,
    RSB_rsr,
    ADD_rsr,
    ADC_rsr,
    SBC_rsr,
    RSC_rsr,
    TST_rsr,
    TEQ_rsr,
    CMP_rsr,
    CMN_rsr,
    ORR_rsr,
    MOV_rsr,
    BIC_rsr,
    MVN_rsr,
    B,
    BL,
    BX,
    BLX_reg,
    BLX_imm,
    LDR_imm,
    LDR_reg,
    LDR_lit,
    LDRB_imm,
    LDRB_reg,
    LDRB_lit,
    LDRH_imm,
    LDRH_reg,
    LDRH_lit,
    LDRSB_imm,
    LDRSB_reg,
    LDRSB_lit,
    LDRSH_imm,
    LDRSH_reg,
    LDRSH_lit,
    LDRD_imm,
    LDRD_reg,
    LDRD_lit,
    STR_imm,
    STR_reg,
    STRB_imm,
    STRB_reg,
    STRH_imm,
    STRH_reg,
    STRD_imm,
    STRD_reg,
    LDM,
    LDMDA,
    LDMDB,
    LDMIB,
    STM,
    STMDA,
    STMDB,
    STMIB,
    MUL,
    MLA,
    MLS,
    UMULL,
    UMLAL,
    SMULL,
    SMLAL,
    UMAAL,
    SMLALxy,
    SMLAxy,
    SMULxy,
    SMLAWy,
    SMULWy,
    SMMUL,
    SMMLA,
    SMMLS,
    SDIV,
    UDIV,
    SXTB,
    SXTH,
    SXTB16,
    SXTAB,
    SXTAH,
    SXTAB16,
    UXTB,
    UXTH,
    UXTB16,
    UXTAB,
    UXTAH,
    UXTAB16,
    CLZ,
    RBIT,
    REV,
    REV16,
    REVSH,
    MOVW,
    MOVT,
    NOP,
    BFC,
    BFI,
    SBFX,
    UBFX,
    SEL,
    SSAT,
    USAT,
    SSAT16,
    USAT16,
    QADD,
    QSUB,
    QDADD,
    QDSUB,
    CRC32,
    CRC32C,
    SWP,
    SWPB,
    STL,
    STLEX,
    LDREX,
    LDA,
    LDAEX,
    LDREXB,
    LDAB,
    LDAEXB,
    LDREXH,
    LDAH,
    LDAEXH,
    LDREXD,
    LDAEXD,
    STREX,
    STLEXB,
    STREXB,
    STLEXH,
    STREXH,
    STLEXD,
    STREXD,
    STLB,
    STLH,
    CLREX,
    MRS,
    MSR_imm,
    MSR_reg,
    DMB,
    DSB,
    ISB,
    SVC,
    UDF,
    BKPT,
    PLD_imm,
    PLD_reg,
    SEV,
    SEVL,
    WFE,
    WFI,
    YIELD,
    PKHBT,
    PKHTB,
    MCR,
    MRC,
    CDP,
    MRRC,
    MCRR,
    LDC,
    STC,
    VPUSH,
    VPOP,
    VLDR_fp,
    VSTR_fp,
    VSTM,
    VLDM,
    VMLA_fp,
    VMLS_fp,
    VNMLS_fp,
    VNMLA_fp,
    VMUL_fp,
    VNMUL_fp,
    VADD_fp,
    VSUB_fp,
    VDIV_fp,
    VFNMS_fp,
    VFNMA_fp,
    VFMA_fp,
    VFMS_fp,
    VSEL_fp,
    VMAXNM_fp,
    VMINNM_fp,
    VMOV_fp_reg,
    VMOV_fp_imm,
    VABS_fp,
    VNEG_fp,
    VSQRT_fp,
    VCMP_fp,
    VCMP_zero_fp,
    VCVT_f_to_f,
    VCVT_from_int,
    VCVT_to_u32,
    VCVT_to_s32,
    VMOV_u32_f64,
    VMOV_f64_u32,
    VMOV_u32_f32,
    VMOV_f32_u32,
    VMOV_2u32_2f32,
    VMOV_2f32_2u32,
    VMOV_2u32_f64,
    VMOV_f64_2u32,
    VMOV_from_i32,
    VMOV_to_i32,
    VMSR,
    VMRS,
    VFP_VDUP,
    ASIMD_VMOV_imm,
    ASIMD_VMOVN,
    ASIMD_VQMOVN,
    ASIMD_VRHADD,
    ASIMD_VQRDMULH,
    ASIMD_VMUL_float,
    ASIMD_VADD_float,
    ASIMD_VSUB_float,
    ASIMD_VMLA_float,
    ASIMD_VMLS_float,
    ASIMD_VPADD_float,
    ASIMD_VORR_reg,
    ASIMD_VBSL,
    ASIMD_VRSQRTS,
    ASIMD_VCGT_reg_float,
    ASIMD_VMLA_scalar,
    ASIMD_VMUL_scalar,
    ASIMD_VDUP_scalar,
    ASIMD_VCGT_zero,
    ASIMD_VCGE_zero,
    ASIMD_VCEQ_zero,
    ASIMD_VCLE_zero,
    ASIMD_VCLT_zero,
    ASIMD_VRECPE,
    ASIMD_VRSQRTE,
    ASIMD_VCVT_integer,
    ASIMD_VMAX_float,
    ASIMD_VMIN_float,
    ASIMD_VTRN,
    ASIMD_VUZP,
    ASIMD_VZIP,
    ASIMD_VEXT,
    ASIMD_VTBL,
    ASIMD_VTBX,
    ASIMD_VNEG_int,
    ASIMD_VABS_int,
    VFP_VRINT_rm,
    VFP_VCVT_rm,
    ASIMD_VHADD,
    ASIMD_VQADD,
    ASIMD_VHSUB,
    ASIMD_VQSUB,
    ASIMD_VSHL_reg,
    ASIMD_VQSHL_reg,
    ASIMD_VRSHL,
    ASIMD_VADD_int,
    ASIMD_VSUB_int,
    ASIMD_VMUL_int,
    ASIMD_VMLA_int,
    ASIMD_VAND_reg,
    ASIMD_VBIC_reg,
    ASIMD_VORN_reg,
    ASIMD_VEOR_reg,
    ASIMD_VBIT,
    ASIMD_VBIF,
    ASIMD_VCGT_reg_int,
    ASIMD_VCGE_reg_int,
    ASIMD_VCEQ_reg_int,
    ASIMD_VTST,
    ASIMD_VABD_int,
    ASIMD_VABA,
    ASIMD_VMAX_int,
    ASIMD_VMIN_int,
    ASIMD_VPMAX_int,
    ASIMD_VPADD_int,
    ASIMD_VQDMULH,
    ASIMD_VABD_float,
    ASIMD_VCEQ_reg_float,
    ASIMD_VCGE_reg_float,
    ASIMD_VACGE,
    ASIMD_VFMA,
    ASIMD_VFMS,
    ASIMD_VPMAX_float,
    ASIMD_VPMIN_float,
    ASIMD_VRECPS,
    ASIMD_VADDL,
    ASIMD_VSUBL,
    ASIMD_VABAL,
    ASIMD_VABDL,
    ASIMD_VMLAL,
    ASIMD_VMULL,
    ASIMD_SHR,
    ASIMD_SRA,
    ASIMD_VSHRN,
    ASIMD_VSHL_imm,
    ASIMD_VSLI,
    ASIMD_VSRI,
    ASIMD_VQSHL_imm,
    V8_VST_multiple,
    V8_VLD_multiple,
    V8_VST_single,
    V8_VLD_single,
    V8_VLD_all_lanes,
    Unknown,
}

impl DecodedArm {
    /// The condition, bits 31 to 28.
    #[verifier::allow_in_spec]
    pub fn cond(&self) -> Cond
        returns
            cond_code((self.raw >> 28) & 0xF),
    {
        Cond::from_u8(((self.raw >> 28) & 0xF) as u8)
    }

    /// Register `Rd`, bits 15 to 12.
    #[verifier::allow_in_spec]
    pub fn rd(&self) -> Reg
        returns
            reg((self.raw >> 12) & 0xF),
    {
        Reg::from_u32((self.raw >> 12) & 0xF)
    }

    /// Register `Rn`, bits 19 to 16.
    #[verifier::allow_in_spec]
    pub fn rn(&self) -> Reg
        returns
            reg((self.raw >> 16) & 0xF),
    {
        Reg::from_u32((self.raw >> 16) & 0xF)
    }

    /// Register `Rm`, bits 3 to 0.
    #[verifier::allow_in_spec]
    pub fn rm(&self) -> Reg
        returns
            reg(self.raw & 0xF),
    {
        Reg::from_u32(self.raw & 0xF)
    }

    /// Register `Rs`, bits 11 to 8.
    #[verifier::allow_in_spec]
    pub fn rs(&self) -> Reg
        returns
            reg((self.raw >> 8) & 0xF),
    {
        Reg::from_u32((self.raw >> 8) & 0xF)
    }

    /// Register `Rt`, bits 15 to 12.
    #[verifier::allow_in_spec]
    pub fn rt(&self) -> Reg
        returns
            reg((self.raw >> 12) & 0xF),
    {
        self.rd()
    }

    /// The flag-setting bit 20.
    #[verifier::allow_in_spec]
    pub fn s_flag(&self) -> bool
        returns
            self.raw & 0x10_0000 != 0,
    {
        self.raw & 0x10_0000 != 0
    }

    /// The pre-index bit 24.
    #[verifier::allow_in_spec]
    pub fn p_flag(&self) -> bool
        returns
            self.raw & 0x100_0000 != 0,
    {
        self.raw & 0x100_0000 != 0
    }

    /// The add bit 23.
    #[verifier::allow_in_spec]
    pub fn u_flag(&self) -> bool
        returns
            self.raw & 0x80_0000 != 0,
    {
        self.raw & 0x80_0000 != 0
    }

    /// The write-back bit 21.
    #[verifier::allow_in_spec]
    pub fn w_flag(&self) -> bool
        returns
            self.raw & 0x20_0000 != 0,
    {
        self.raw & 0x20_0000 != 0
    }

    /// The immediate in bits 11 to 0.
    #[verifier::allow_in_spec]
    pub fn imm12(&self) -> u32
        returns
            self.raw & 0xFFF,
    {
        self.raw & 0xFFF
    }

    /// The immediate in bits 7 to 0.
    #[verifier::allow_in_spec]
    pub fn imm8(&self) -> u32
        returns
            self.raw & 0xFF,
    {
        self.raw & 0xFF
    }

    /// The rotation in bits 11 to 8.
    #[verifier::allow_in_spec]
    pub fn rotate(&self) -> u32
        returns
            (self.raw >> 8) & 0xF,
    {
        (self.raw >> 8) & 0xF
    }

    /// The immediate in bits 23 to 0.
    #[verifier::allow_in_spec]
    pub fn imm24(&self) -> u32
        returns
            self.raw & 0x00FF_FFFF,
    {
        self.raw & 0x00FF_FFFF
    }

    /// The shift amount in bits 11 to 7.
    #[verifier::allow_in_spec]
    pub fn imm5(&self) -> u32
        returns
            (self.raw >> 7) & 0x1F,
    {
        (self.raw >> 7) & 0x1F
    }

    /// The shift in bits 6 and 5.
    #[verifier::allow_in_spec]
    pub fn shift_type(&self) -> ShiftType
        returns
            shift_type((self.raw >> 5) & 3),
    {
        ShiftType::from_u8(((self.raw >> 5) & 3) as u8)
    }

    /// The register list in bits 15 to 0.
    #[verifier::allow_in_spec]
    pub fn register_list(&self) -> u16
        returns
            (self.raw & 0xFFFF) as u16,
    {
        (self.raw & 0xFFFF) as u16
    }

    /// The immediate in bits 3 to 0.
    #[verifier::allow_in_spec]
    pub fn imm4_lo(&self) -> u32
        returns
            self.raw & 0xF,
    {
        self.raw & 0xF
    }

    /// The immediate in bits 19 to 16.
    #[verifier::allow_in_spec]
    pub fn imm4_hi(&self) -> u32
        returns
            (self.raw >> 16) & 0xF,
    {
        (self.raw >> 16) & 0xF
    }

    /// The halfword bit 24 of a branch to Thumb code.
    #[verifier::allow_in_spec]
    pub fn h_flag(&self) -> bool
        returns
            self.raw & 0x100_0000 != 0,
    {
        self.raw & 0x100_0000 != 0
    }

    /// The coprocessor in bits 11 to 8.
    #[verifier::allow_in_spec]
    pub fn coproc_no(&self) -> u32
        returns
            (self.raw >> 8) & 0xF,
    {
        (self.raw >> 8) & 0xF
    }

    /// The first opcode of a register transfer, bits 23 to 21.
    #[verifier::allow_in_spec]
    pub fn coproc_opc1(&self) -> u32
        returns
            (self.raw >> 21) & 0x7,
    {
        (self.raw >> 21) & 0x7
    }

    /// The first opcode of a coprocessor operation, bits 23 to 20.
    #[verifier::allow_in_spec]
    pub fn coproc_dp_opc1(&self) -> u32
        returns
            (self.raw >> 20) & 0xF,
    {
        (self.raw >> 20) & 0xF
    }

    /// The second opcode, bits 7 to 5.
    #[verifier::allow_in_spec]
    pub fn coproc_opc2(&self) -> u32
        returns
            (self.raw >> 5) & 0x7,
    {
        (self.raw >> 5) & 0x7
    }

    /// Coprocessor register `CRn`, bits 19 to 16.
    #[verifier::allow_in_spec]
    pub fn crn(&self) -> u32
        returns
            (self.raw >> 16) & 0xF,
    {
        (self.raw >> 16) & 0xF
    }

    /// Coprocessor register `CRm`, bits 3 to 0.
    #[verifier::allow_in_spec]
    pub fn crm(&self) -> u32
        returns
            self.raw & 0xF,
    {
        self.raw & 0xF
    }

    /// Register `Rt2` of a double-word transfer, bits 19 to 16.
    #[verifier::allow_in_spec]
    pub fn rt2(&self) -> Reg
        returns
            reg((self.raw >> 16) & 0xF),
    {
        Reg::from_u32((self.raw >> 16) & 0xF)
    }

    /// The opcode of a double-word transfer, bits 7 to 4.
    #[verifier::allow_in_spec]
    pub fn mrrc_opc(&self) -> u32
        returns
            (self.raw >> 4) & 0xF,
    {
        (self.raw >> 4) & 0xF
    }

    /// Whether the second, unconditional encoding is used.
    #[verifier::allow_in_spec]
    pub fn coproc_two(&self) -> bool
        returns
            self.cond() == Cond::NV,
    {
        self.cond() == Cond::NV
    }

}

/// Whether the bits of `instr` under `mask` are those of `expected`.
#[verifier::allow_in_spec]
pub fn matches_arm(instr: u32, mask: u32, expected: u32) -> bool
    returns
        instr & mask == expected,
{
    instr & mask == expected
}

/// The hint that the low four bits of a hint instruction name. Reserved hints
/// do nothing.
pub open spec fn hint_encoding(n: u32) -> ArmInstId {
    if n == 1 {
        ArmInstId::YIELD
    } else if n == 2 {
        ArmInstId::WFE
    } else if n == 3 {
        ArmInstId::WFI
    } else if n == 4 {
        ArmInstId::SEV
    } else if n == 5 {
        ArmInstId::SEVL
    } else {
        ArmInstId::NOP
    }
}

/// The instruction that a word encodes. Hints and checksums come before all
/// other encodings; of the rest, condition `1111` selects the unconditional
/// encodings, and bits 27 to 25 (with bit 4) select among the others.
pub open spec fn arm_encoding(instr: u32) -> ArmInstId {
    let group = (instr >> 25) & 0x7;
    if matches_arm(instr, 0x0FFF_FFF0, 0x0320_F000) {
        hint_encoding(instr & 0xF)
    } else if matches_arm(instr, 0x0F90_0FF0, 0x0100_0040) {
        ArmInstId::CRC32
    } else if matches_arm(instr, 0x0F90_0FF0, 0x0100_0240) {
        ArmInstId::CRC32C
    } else if (instr >> 28) & 0xF == 0xF {
        unconditional_encoding(instr)
    } else if group == 0b000 {
        dp_misc_encoding(instr)
    } else if group == 0b001 {
        dp_imm_encoding((instr >> 20) & 0x1F)
    } else if group == 0b010 {
        ls_imm_encoding(instr)
    } else if group == 0b011 {
        if (instr >> 4) & 1 == 0 {
            ls_reg_encoding(instr)
        } else {
            media_encoding(instr)
        }
    } else if group == 0b100 {
        ls_multi_encoding(instr)
    } else if group == 0b101 {
        branch_encoding(instr)
    } else if group == 0b110 {
        coproc_ls_encoding(instr)
    } else {
        coproc_svc_encoding(instr)
    }
}

/// Decodes an ARM instruction.
pub fn decode_arm(instr: u32) -> (r: DecodedArm)
    ensures
        r.raw == instr,
        r.id == arm_encoding(instr),
{
    let group: u32 = (instr >> 25) & 0x7;
    let id = if matches_arm(instr, 0x0FFF_FFF0, 0x0320_F000) {
        match instr & 0xF {
            0 => ArmInstId::NOP,
            1 => ArmInstId::YIELD,
            2 => ArmInstId::WFE,
            3 => ArmInstId::WFI,
            4 => ArmInstId::SEV,
            5 => ArmInstId::SEVL,
            _ => ArmInstId::NOP,
        }
    } else if matches_arm(instr, 0x0F90_0FF0, 0x0100_0040) {
        ArmInstId::CRC32
    } else if matches_arm(instr, 0x0F90_0FF0, 0x0100_0240) {
        ArmInstId::CRC32C
    } else if (instr >> 28) & 0xF == 0xF {
        decode_arm_unconditional(instr)
    } else {
        match group {
            0b000 => decode_arm_dp_misc(instr),
            0b001 => decode_arm_dp_imm_misc(instr),
            0b010 => decode_arm_ls_imm(instr),
            0b011 => if (instr >> 4) & 1 == 0 {
                decode_arm_ls_reg(instr)
            } else {
                decode_arm_media(instr)
            },
            0b100 => decode_arm_ls_multi(instr),
            0b101 => decode_arm_branch(instr),
            0b110 => decode_arm_coproc_ls(instr),
            _ => decode_arm_coproc_svc(instr),
        }
    };
    DecodedArm { raw: instr, id }
}

/// The unconditional encodings, in order of precedence. The unallocated
/// structure loads and stores come first, so that they are undefined; the
/// vector and floating-point encodings come before the general coprocessor
/// encodings that overlap them.
pub open spec fn unconditional_encoding(instr: u32) -> ArmInstId {
    if matches_arm(instr, 0xFF90_0F00, 0xF400_0B00) {
        // 111101000--0--------1011--------
        ArmInstId::UDF
    } else if matches_arm(instr, 0xFF90_0C00, 0xF400_0C00) {
        // 111101000--0--------11----------
        ArmInstId::UDF
    } else if matches_arm(instr, 0xFFB0_0C00, 0xF480_0C00) {
        // 111101001-00--------11----------
        ArmInstId::UDF
    } else if matches_arm(instr, 0xFFB0_0000, 0xF400_0000) {
        // 111101000-00--------------------
        ArmInstId::V8_VST_multiple
    } else if matches_arm(instr, 0xFFB0_0000, 0xF420_0000) {
        // 111101000-10--------------------
        ArmInstId::V8_VLD_multiple
    } else if matches_arm(instr, 0xFFB0_0000, 0xF480_0000) {
        // 111101001-00--------------------
        ArmInstId::V8_VST_single
    } else if matches_arm(instr, 0xFFB0_0C00, 0xF4A0_0C00) {
        // 111101001-10--------11----------
        ArmInstId::V8_VLD_all_lanes
    } else if matches_arm(instr, 0xFFB0_0000, 0xF4A0_0000) {
        // 111101001-10--------------------
        ArmInstId::V8_VLD_single
    } else if matches_arm(instr, 0xFF80_0E50, 0xFE00_0A00) {
        // 111111100-----------101--0-0----
        ArmInstId::VSEL_fp
    } else if matches_arm(instr, 0xFFB0_0E50, 0xFE80_0A00) {
        // 111111101-00--------101--0-0----
        ArmInstId::VMAXNM_fp
    } else if matches_arm(instr, 0xFFB0_0E50, 0xFE80_0A40) {
        // 111111101-00--------101--1-0----
        ArmInstId::VMINNM_fp
    } else if matches_arm(instr, 0xFFBC_0E10, 0xFEBC_0A00) {
        // 111111101-1111------101----0----
        ArmInstId::VFP_VCVT_rm
    } else if matches_arm(instr, 0xFFBC_0ED0, 0xFEB8_0A40) {
        // 111111101-1110------101-01-0----
        ArmInstId::VFP_VRINT_rm
    } else if matches_arm(instr, 0xFFB0_0010, 0xF2B0_0000) {
        // 111100101-11---------------0----
        ArmInstId::ASIMD_VEXT
    } else if matches_arm(instr, 0xFFB0_0C50, 0xF3B0_0800) {
        // 111100111-11--------10---0-0----
        ArmInstId::ASIMD_VTBL
    } else if matches_arm(instr, 0xFFB0_0C50, 0xF3B0_0840) {
        // 111100111-11--------10---1-0----
        ArmInstId::ASIMD_VTBX
    } else if matches_arm(instr, 0xFEB8_0090, 0xF280_0010) {
        // 1111001-1-000-----------0--1----
        ArmInstId::ASIMD_VMOV_imm
    } else if matches_arm(instr, 0xFF80_0FD0, 0xF280_0810) {
        // 111100101-----------100000-1----
        ArmInstId::ASIMD_VSHRN
    } else if matches_arm(instr, 0xFE80_0F10, 0xF280_0010) {
        // 1111001-1-----------0000---1----
        ArmInstId::ASIMD_SHR
    } else if matches_arm(instr, 0xFE80_0F10, 0xF280_0110) {
        // 1111001-1-----------0001---1----
        ArmInstId::ASIMD_SRA
    } else if matches_arm(instr, 0xFF80_0F10, 0xF380_0410) {
        // 111100111-----------0100---1----
        ArmInstId::ASIMD_VSRI
    } else if matches_arm(instr, 0xFF80_0F10, 0xF280_0510) {
        // 111100101-----------0101---1----
        ArmInstId::ASIMD_VSHL_imm
    } else if matches_arm(instr, 0xFF80_0F10, 0xF380_0510) {
        // 111100111-----------0101---1----
        ArmInstId::ASIMD_VSLI
    } else if matches_arm(instr, 0xFE80_0E10, 0xF280_0610) {
        // 1111001-1-----------011----1----
        ArmInstId::ASIMD_VQSHL_imm
    } else if matches_arm(instr, 0xFE80_0F10, 0xF200_0000) {
        // 1111001-0-----------0000---0----
        ArmInstId::ASIMD_VHADD
    } else if matches_arm(instr, 0xFE80_0F10, 0xF200_0010) {
        // 1111001-0-----------0000---1----
        ArmInstId::ASIMD_VQADD
    } else if matches_arm(instr, 0xFFB0_0F10, 0xF200_0110) {
        // 111100100-00--------0001---1----
        ArmInstId::ASIMD_VAND_reg
    } else if matches_arm(instr, 0xFFB0_0F10, 0xF210_0110) {
        // 111100100-01--------0001---1----
        ArmInstId::ASIMD_VBIC_reg
    } else if matches_arm(instr, 0xFFB0_0F10, 0xF230_0110) {
        // 111100100-11--------0001---1----
        ArmInstId::ASIMD_VORN_reg
    } else if matches_arm(instr, 0xFFB0_0F10, 0xF300_0110) {
        // 111100110-00--------0001---1----
        ArmInstId::ASIMD_VEOR_reg
    } else if matches_arm(instr, 0xFFB0_0F10, 0xF320_0110) {
        // 111100110-10--------0001---1----
        ArmInstId::ASIMD_VBIT
    } else if matches_arm(instr, 0xFFB0_0F10, 0xF330_0110) {
        // 111100110-11--------0001---1----
        ArmInstId::ASIMD_VBIF
    } else if matches_arm(instr, 0xFE80_0F10, 0xF200_0200) {
        // 1111001-0-----------0010---0----
        ArmInstId::ASIMD_VHSUB
    } else if matches_arm(instr, 0xFE80_0F10, 0xF200_0210) {
        // 1111001-0-----------0010---1----
        ArmInstId::ASIMD_VQSUB
    } else if matches_arm(instr, 0xFE80_0F10, 0xF200_0300) {
        // 1111001-0-----------0011---0----
        ArmInstId::ASIMD_VCGT_reg_int
    } else if matches_arm(instr, 0xFE80_0F10, 0xF200_0310) {
        // 1111001-0-----------0011---1----
        ArmInstId::ASIMD_VCGE_reg_int
    } else if matches_arm(instr, 0xFE80_0F10, 0xF200_0400) {
        // 1111001-0-----------0100---0----
        ArmInstId::ASIMD_VSHL_reg
    } else if matches_arm(instr, 0xFE80_0F10, 0xF200_0410) {
        // 1111001-0-----------0100---1----
        ArmInstId::ASIMD_VQSHL_reg
    } else if matches_arm(instr, 0xFE80_0F10, 0xF200_0500) {
        // 1111001-0-----------0101---0----
        ArmInstId::ASIMD_VRSHL
    } else if matches_arm(instr, 0xFE80_0F00, 0xF200_0600) {
        // 1111001-0-----------0110--------
        ArmInstId::ASIMD_VMAX_int
    } else if matches_arm(instr, 0xFE80_0F10, 0xF200_0700) {
        // 1111001-0-----------0111---0----
        ArmInstId::ASIMD_VABD_int
    } else if matches_arm(instr, 0xFE80_0F10, 0xF200_0710) {
        // 1111001-0-----------0111---1----
        ArmInstId::ASIMD_VABA
    } else if matches_arm(instr, 0xFF80_0F10, 0xF200_0800) {
        // 111100100-----------1000---0----
        ArmInstId::ASIMD_VADD_int
    } else if matches_arm(instr, 0xFF80_0F10, 0xF300_0800) {
        // 111100110-----------1000---0----
        ArmInstId::ASIMD_VSUB_int
    } else if matches_arm(instr, 0xFF80_0F10, 0xF200_0810) {
        // 111100100-----------1000---1----
        ArmInstId::ASIMD_VTST
    } else if matches_arm(instr, 0xFF80_0F10, 0xF300_0810) {
        // 111100110-----------1000---1----
        ArmInstId::ASIMD_VCEQ_reg_int
    } else if matches_arm(instr, 0xFE80_0F10, 0xF200_0900) {
        // 1111001-0-----------1001---0----
        ArmInstId::ASIMD_VMLA_int
    } else if matches_arm(instr, 0xFE80_0F10, 0xF200_0910) {
        // 1111001-0-----------1001---1----
        ArmInstId::ASIMD_VMUL_int
    } else if matches_arm(instr, 0xFE80_0F00, 0xF200_0A00) {
        // 1111001-0-----------1010--------
        ArmInstId::ASIMD_VPMAX_int
    } else if matches_arm(instr, 0xFF80_0F10, 0xF200_0B00) {
        // 111100100-----------1011---0----
        ArmInstId::ASIMD_VQDMULH
    } else if matches_arm(instr, 0xFF80_0F10, 0xF300_0B00) {
        // 111100110-----------1011---0----
        ArmInstId::ASIMD_VQRDMULH
    } else if matches_arm(instr, 0xFF80_0F10, 0xF200_0B10) {
        // 111100100-----------1011---1----
        ArmInstId::ASIMD_VPADD_int
    } else if matches_arm(instr, 0xFE80_0F10, 0xF200_0100) {
        // 1111001-0-----------0001---0----
        ArmInstId::ASIMD_VRHADD
    } else if matches_arm(instr, 0xFFA0_0F10, 0xF200_0C10) {
        // 111100100-0---------1100---1----
        ArmInstId::ASIMD_VFMA
    } else if matches_arm(instr, 0xFFA0_0F10, 0xF220_0C10) {
        // 111100100-1---------1100---1----
        ArmInstId::ASIMD_VFMS
    } else if matches_arm(instr, 0xFFA0_0F10, 0xF200_0D00) {
        // 111100100-0---------1101---0----
        ArmInstId::ASIMD_VADD_float
    } else if matches_arm(instr, 0xFFA0_0F10, 0xF220_0D00) {
        // 111100100-1---------1101---0----
        ArmInstId::ASIMD_VSUB_float
    } else if matches_arm(instr, 0xFFA0_0F10, 0xF200_0D10) {
        // 111100100-0---------1101---1----
        ArmInstId::ASIMD_VMLA_float
    } else if matches_arm(instr, 0xFFA0_0F10, 0xF220_0D10) {
        // 111100100-1---------1101---1----
        ArmInstId::ASIMD_VMLS_float
    } else if matches_arm(instr, 0xFFA0_0F10, 0xF300_0D00) {
        // 111100110-0---------1101---0----
        ArmInstId::ASIMD_VPADD_float
    } else if matches_arm(instr, 0xFFA0_0F10, 0xF320_0D00) {
        // 111100110-1---------1101---0----
        ArmInstId::ASIMD_VABD_float
    } else if matches_arm(instr, 0xFFB0_0F10, 0xF300_0D10) {
        // 111100110-00--------1101---1----
        ArmInstId::ASIMD_VMUL_float
    } else if matches_arm(instr, 0xFFA0_0F10, 0xF200_0E00) {
        // 111100100-0---------1110---0----
        ArmInstId::ASIMD_VCEQ_reg_float
    } else if matches_arm(instr, 0xFFA0_0F10, 0xF300_0E00) {
        // 111100110-0---------1110---0----
        ArmInstId::ASIMD_VCGE_reg_float
    } else if matches_arm(instr, 0xFFA0_0F10, 0xF320_0E00) {
        // 111100110-1---------1110---0----
        ArmInstId::ASIMD_VCGT_reg_float
    } else if matches_arm(instr, 0xFF80_0F10, 0xF300_0E10) {
        // 111100110-----------1110---1----
        ArmInstId::ASIMD_VACGE
    } else if matches_arm(instr, 0xFFA0_0F10, 0xF200_0F00) {
        // 111100100-0---------1111---0----
        ArmInstId::ASIMD_VMAX_float
    } else if matches_arm(instr, 0xFFA0_0F10, 0xF220_0F00) {
        // 111100100-1---------1111---0----
        ArmInstId::ASIMD_VMIN_float
    } else if matches_arm(instr, 0xFFA0_0F10, 0xF300_0F00) {
        // 111100110-0---------1111---0----
        ArmInstId::ASIMD_VPMAX_float
    } else if matches_arm(instr, 0xFFA0_0F10, 0xF320_0F00) {
        // 111100110-1---------1111---0----
        ArmInstId::ASIMD_VPMIN_float
    } else if matches_arm(instr, 0xFFA0_0F10, 0xF200_0F10) {
        // 111100100-0---------1111---1----
        ArmInstId::ASIMD_VRECPS
    } else if matches_arm(instr, 0xFFA0_0F10, 0xF220_0F10) {
        // 111100100-1---------1111---1----
        ArmInstId::ASIMD_VRSQRTS
    } else if matches_arm(instr, 0xFFB0_0F10, 0xF220_0110) {
        // 111100100-10--------0001---1----
        ArmInstId::ASIMD_VORR_reg
    } else if matches_arm(instr, 0xFFB0_0F10, 0xF310_0110) {
        // 111100110-01--------0001---1----
        ArmInstId::ASIMD_VBSL
    } else if matches_arm(instr, 0xFE80_0F50, 0xF280_0500) && (instr >> 20) & 3 != 3 {
        // 1111001-1-----------0101-0-0----
        ArmInstId::ASIMD_VABAL
    } else if matches_arm(instr, 0xFE80_0F50, 0xF280_0700) && (instr >> 20) & 3 != 3 {
        // 1111001-1-----------0111-0-0----
        ArmInstId::ASIMD_VABDL
    } else if matches_arm(instr, 0xFE80_0E50, 0xF280_0000) && (instr >> 20) & 3 != 3 {
        // 1111001-1-----------000--0-0----
        ArmInstId::ASIMD_VADDL
    } else if matches_arm(instr, 0xFE80_0E50, 0xF280_0200) && (instr >> 20) & 3 != 3 {
        // 1111001-1-----------001--0-0----
        ArmInstId::ASIMD_VSUBL
    } else if matches_arm(instr, 0xFE80_0D50, 0xF280_0800) && (instr >> 20) & 3 != 3 {
        // 1111001-1-----------10-0-0-0----
        ArmInstId::ASIMD_VMLAL
    } else if matches_arm(instr, 0xFE80_0D50, 0xF280_0C00) && (instr >> 20) & 3 != 3 {
        // 1111001-1-----------11-0-0-0----
        ArmInstId::ASIMD_VMULL
    } else if matches_arm(instr, 0xFFB3_0F90, 0xF3B2_0080) {
        // 111100111-11--10----00001--0----
        ArmInstId::ASIMD_VTRN
    } else if matches_arm(instr, 0xFFB3_0F90, 0xF3B2_0100) {
        // 111100111-11--10----00010--0----
        ArmInstId::ASIMD_VUZP
    } else if matches_arm(instr, 0xFFB3_0F90, 0xF3B2_0180) {
        // 111100111-11--10----00011--0----
        ArmInstId::ASIMD_VZIP
    } else if matches_arm(instr, 0xFFB3_0FD0, 0xF3B2_0200) {
        // 111100111-11--10----001000-0----
        ArmInstId::ASIMD_VMOVN
    } else if matches_arm(instr, 0xFFB3_0F90, 0xF3B2_0280) {
        // 111100111-11--10----00101--0----
        ArmInstId::ASIMD_VQMOVN
    } else if matches_arm(instr, 0xFFB3_0B90, 0xF3B1_0000) {
        // 111100111-11--01----0-000--0----
        ArmInstId::ASIMD_VCGT_zero
    } else if matches_arm(instr, 0xFFB3_0B90, 0xF3B1_0080) {
        // 111100111-11--01----0-001--0----
        ArmInstId::ASIMD_VCGE_zero
    } else if matches_arm(instr, 0xFFB3_0B90, 0xF3B1_0100) {
        // 111100111-11--01----0-010--0----
        ArmInstId::ASIMD_VCEQ_zero
    } else if matches_arm(instr, 0xFFB3_0B90, 0xF3B1_0180) {
        // 111100111-11--01----0-011--0----
        ArmInstId::ASIMD_VCLE_zero
    } else if matches_arm(instr, 0xFFB3_0B90, 0xF3B1_0200) {
        // 111100111-11--01----0-100--0----
        ArmInstId::ASIMD_VCLT_zero
    } else if matches_arm(instr, 0xFFB3_0E90, 0xF3B3_0400) {
        // 111100111-11--11----010-0--0----
        ArmInstId::ASIMD_VRECPE
    } else if matches_arm(instr, 0xFFB3_0E90, 0xF3B3_0480) {
        // 111100111-11--11----010-1--0----
        ArmInstId::ASIMD_VRSQRTE
    } else if matches_arm(instr, 0xFE80_0A50, 0xF280_0040) {
        // 1111001-1-----------0-0--1-0----
        ArmInstId::ASIMD_VMLA_scalar
    } else if matches_arm(instr, 0xFE80_0E50, 0xF280_0840) {
        // 1111001-1-----------100--1-0----
        ArmInstId::ASIMD_VMUL_scalar
    } else if matches_arm(instr, 0xFFB0_0F90, 0xF3B0_0C00) {
        // 111100111-11--------11000--0----
        ArmInstId::ASIMD_VDUP_scalar
    } else if matches_arm(instr, 0xFFB3_0F90, 0xF3B1_0780) {
        // 111100111-11--01----01111--0----
        ArmInstId::ASIMD_VNEG_int
    } else if matches_arm(instr, 0xFFB3_0F90, 0xF3B1_0380) {
        // 111100111-11--01----00111--0----
        ArmInstId::ASIMD_VNEG_int
    } else if matches_arm(instr, 0xFFB3_0F90, 0xF3B1_0700) {
        // 111100111-11--01----01110--0----
        ArmInstId::ASIMD_VABS_int
    } else if matches_arm(instr, 0xFFB3_0F90, 0xF3B1_0300) {
        // 111100111-11--01----00110--0----
        ArmInstId::ASIMD_VABS_int
    } else if matches_arm(instr, 0xFFB3_0E10, 0xF3B3_0600) {
        // 111100111-11--11----011----0----
        ArmInstId::ASIMD_VCVT_integer
    } else if matches_arm(instr, 0x0FF0_0000, 0x0C40_0000) {
        // ----11000100--------------------
        ArmInstId::MCRR
    } else if matches_arm(instr, 0x0FF0_0000, 0x0C50_0000) {
        // ----11000101--------------------
        ArmInstId::MRRC
    } else if matches_arm(instr, 0x0F10_0010, 0x0E00_0010) {
        // ----1110---0---------------1----
        ArmInstId::MCR
    } else if matches_arm(instr, 0x0F10_0010, 0x0E10_0010) {
        // ----1110---1---------------1----
        ArmInstId::MRC
    } else if matches_arm(instr, 0x0F00_0010, 0x0E00_0000) {
        // ----1110-------------------0----
        ArmInstId::CDP
    } else if matches_arm(instr, 0x0E10_0000, 0x0C10_0000) {
        // ----110----1--------------------
        ArmInstId::LDC
    } else if matches_arm(instr, 0x0E10_0000, 0x0C00_0000) {
        // ----110----0--------------------
        ArmInstId::STC
    } else if matches_arm(instr, 0xFFFF_FFF0, 0xF57F_F040) {
        // 1111010101111111111100000100----
        ArmInstId::DSB
    } else if matches_arm(instr, 0xFFFF_FFF0, 0xF57F_F050) {
        // 1111010101111111111100000101----
        ArmInstId::DMB
    } else if matches_arm(instr, 0xFFFF_FFF0, 0xF57F_F060) {
        // 1111010101111111111100000110----
        ArmInstId::ISB
    } else if matches_arm(instr, 0xFF30_F000, 0xF510_F000) {
        // 11110101--01----1111------------
        ArmInstId::PLD_imm
    } else if matches_arm(instr, 0xFF30_F010, 0xF710_F000) {
        // 11110111--01----1111-------0----
        ArmInstId::PLD_reg
    } else if matches_arm(instr, 0xFE00_0000, 0xFA00_0000) {
        // 1111101-------------------------
        ArmInstId::BLX_imm
    } else if matches_arm(instr, 0xFFFF_FFFF, 0xF57F_F01F) {
        // 11110101011111111111000000011111
        ArmInstId::CLREX
    } else {
        ArmInstId::Unknown
    }
}

fn decode_arm_unconditional(instr: u32) -> (r: ArmInstId)
    ensures
        r == unconditional_encoding(instr),
{
    if matches_arm(instr, 0xFF90_0F00, 0xF400_0B00) {
        return ArmInstId::UDF;
    }
    if matches_arm(instr, 0xFF90_0C00, 0xF400_0C00) {
        return ArmInstId::UDF;
    }
    if matches_arm(instr, 0xFFB0_0C00, 0xF480_0C00) {
        return ArmInstId::UDF;
    }
    if matches_arm(instr, 0xFFB0_0000, 0xF400_0000) {
        return ArmInstId::V8_VST_multiple;
    }
    if matches_arm(instr, 0xFFB0_0000, 0xF420_0000) {
        return ArmInstId::V8_VLD_multiple;
    }
    if matches_arm(instr, 0xFFB0_0000, 0xF480_0000) {
        return ArmInstId::V8_VST_single;
    }
    if matches_arm(instr, 0xFFB0_0C00, 0xF4A0_0C00) {
        return ArmInstId::V8_VLD_all_lanes;
    }
    if matches_arm(instr, 0xFFB0_0000, 0xF4A0_0000) {
        return ArmInstId::V8_VLD_single;
    }
    if matches_arm(instr, 0xFF80_0E50, 0xFE00_0A00) {
        return ArmInstId::VSEL_fp;
    }
    if matches_arm(instr, 0xFFB0_0E50, 0xFE80_0A00) {
        return ArmInstId::VMAXNM_fp;
    }
    if matches_arm(instr, 0xFFB0_0E50, 0xFE80_0A40) {
        return ArmInstId::VMINNM_fp;
    }
    if matches_arm(instr, 0xFFBC_0E10, 0xFEBC_0A00) {
        return ArmInstId::VFP_VCVT_rm;
    }
    if matches_arm(instr, 0xFFBC_0ED0, 0xFEB8_0A40) {
        return ArmInstId::VFP_VRINT_rm;
    }
    if matches_arm(instr, 0xFFB0_0010, 0xF2B0_0000) {
        return ArmInstId::ASIMD_VEXT;
    }
    if matches_arm(instr, 0xFFB0_0C50, 0xF3B0_0800) {
        return ArmInstId::ASIMD_VTBL;
    }
    if matches_arm(instr, 0xFFB0_0C50, 0xF3B0_0840) {
        return ArmInstId::ASIMD_VTBX;
    }
    if matches_arm(instr, 0xFEB8_0090, 0xF280_0010) {
        return ArmInstId::ASIMD_VMOV_imm;
    }
    if matches_arm(instr, 0xFF80_0FD0, 0xF280_0810) {
        return ArmInstId::ASIMD_VSHRN;
    }
    if matches_arm(instr, 0xFE80_0F10, 0xF280_0010) {
        return ArmInstId::ASIMD_SHR;
    }
    if matches_arm(instr, 0xFE80_0F10, 0xF280_0110) {
        return ArmInstId::ASIMD_SRA;
    }
    if matches_arm(instr, 0xFF80_0F10, 0xF380_0410) {
        return ArmInstId::ASIMD_VSRI;
    }
    if matches_arm(instr, 0xFF80_0F10, 0xF280_0510) {
        return ArmInstId::ASIMD_VSHL_imm;
    }
    if matches_arm(instr, 0xFF80_0F10, 0xF380_0510) {
        return ArmInstId::ASIMD_VSLI;
    }
    if matches_arm(instr, 0xFE80_0E10, 0xF280_0610) {
        return ArmInstId::ASIMD_VQSHL_imm;
    }
    if matches_arm(instr, 0xFE80_0F10, 0xF200_0000) {
        return ArmInstId::ASIMD_VHADD;
    }
    if matches_arm(instr, 0xFE80_0F10, 0xF200_0010) {
        return ArmInstId::ASIMD_VQADD;
    }
    if matches_arm(instr, 0xFFB0_0F10, 0xF200_0110) {
        return ArmInstId::ASIMD_VAND_reg;
    }
    if matches_arm(instr, 0xFFB0_0F10, 0xF210_0110) {
        return ArmInstId::ASIMD_VBIC_reg;
    }
    if matches_arm(instr, 0xFFB0_0F10, 0xF230_0110) {
        return ArmInstId::ASIMD_VORN_reg;
    }
    if matches_arm(instr, 0xFFB0_0F10, 0xF300_0110) {
        return ArmInstId::ASIMD_VEOR_reg;
    }
    if matches_arm(instr, 0xFFB0_0F10, 0xF320_0110) {
        return ArmInstId::ASIMD_VBIT;
    }
    if matches_arm(instr, 0xFFB0_0F10, 0xF330_0110) {
        return ArmInstId::ASIMD_VBIF;
    }
    if matches_arm(instr, 0xFE80_0F10, 0xF200_0200) {
        return ArmInstId::ASIMD_VHSUB;
    }
    if matches_arm(instr, 0xFE80_0F10, 0xF200_0210) {
        return ArmInstId::ASIMD_VQSUB;
    }
    if matches_arm(instr, 0xFE80_0F10, 0xF200_0300) {
        return ArmInstId::ASIMD_VCGT_reg_int;
    }
    if matches_arm(instr, 0xFE80_0F10, 0xF200_0310) {
        return ArmInstId::ASIMD_VCGE_reg_int;
    }
    if matches_arm(instr, 0xFE80_0F10, 0xF200_0400) {
        return ArmInstId::ASIMD_VSHL_reg;
    }
    if matches_arm(instr, 0xFE80_0F10, 0xF200_0410) {
        return ArmInstId::ASIMD_VQSHL_reg;
    }
    if matches_arm(instr, 0xFE80_0F10, 0xF200_0500) {
        return ArmInstId::ASIMD_VRSHL;
    }
    if matches_arm(instr, 0xFE80_0F00, 0xF200_0600) {
        return ArmInstId::ASIMD_VMAX_int;
    }
    if matches_arm(instr, 0xFE80_0F10, 0xF200_0700) {
        return ArmInstId::ASIMD_VABD_int;
    }
    if matches_arm(instr, 0xFE80_0F10, 0xF200_0710) {
        return ArmInstId::ASIMD_VABA;
    }
    if matches_arm(instr, 0xFF80_0F10, 0xF200_0800) {
        return ArmInstId::ASIMD_VADD_int;
    }
    if matches_arm(instr, 0xFF80_0F10, 0xF300_0800) {
        return ArmInstId::ASIMD_VSUB_int;
    }
    if matches_arm(instr, 0xFF80_0F10, 0xF200_0810) {
        return ArmInstId::ASIMD_VTST;
    }
    if matches_arm(instr, 0xFF80_0F10, 0xF300_0810) {
        return ArmInstId::ASIMD_VCEQ_reg_int;
    }
    if matches_arm(instr, 0xFE80_0F10, 0xF200_0900) {
        return ArmInstId::ASIMD_VMLA_int;
    }
    if matches_arm(instr, 0xFE80_0F10, 0xF200_0910) {
        return ArmInstId::ASIMD_VMUL_int;
    }
    if matches_arm(instr, 0xFE80_0F00, 0xF200_0A00) {
        return ArmInstId::ASIMD_VPMAX_int;
    }
    if matches_arm(instr, 0xFF80_0F10, 0xF200_0B00) {
        return ArmInstId::ASIMD_VQDMULH;
    }
    if matches_arm(instr, 0xFF80_0F10, 0xF300_0B00) {
        return ArmInstId::ASIMD_VQRDMULH;
    }
    if matches_arm(instr, 0xFF80_0F10, 0xF200_0B10) {
        return ArmInstId::ASIMD_VPADD_int;
    }
    if matches_arm(instr, 0xFE80_0F10, 0xF200_0100) {
        return ArmInstId::ASIMD_VRHADD;
    }
    if matches_arm(instr, 0xFFA0_0F10, 0xF200_0C10) {
        return ArmInstId::ASIMD_VFMA;
    }
    if matches_arm(instr, 0xFFA0_0F10, 0xF220_0C10) {
        return ArmInstId::ASIMD_VFMS;
    }
    if matches_arm(instr, 0xFFA0_0F10, 0xF200_0D00) {
        return ArmInstId::ASIMD_VADD_float;
    }
    if matches_arm(instr, 0xFFA0_0F10, 0xF220_0D00) {
        return ArmInstId::ASIMD_VSUB_float;
    }
    if matches_arm(instr, 0xFFA0_0F10, 0xF200_0D10) {
        return ArmInstId::ASIMD_VMLA_float;
    }
    if matches_arm(instr, 0xFFA0_0F10, 0xF220_0D10) {
        return ArmInstId::ASIMD_VMLS_float;
    }
    if matches_arm(instr, 0xFFA0_0F10, 0xF300_0D00) {
        return ArmInstId::ASIMD_VPADD_float;
    }
    if matches_arm(instr, 0xFFA0_0F10, 0xF320_0D00) {
        return ArmInstId::ASIMD_VABD_float;
    }
    if matches_arm(instr, 0xFFB0_0F10, 0xF300_0D10) {
        return ArmInstId::ASIMD_VMUL_float;
    }
    if matches_arm(instr, 0xFFA0_0F10, 0xF200_0E00) {
        return ArmInstId::ASIMD_VCEQ_reg_float;
    }
    if matches_arm(instr, 0xFFA0_0F10, 0xF300_0E00) {
        return ArmInstId::ASIMD_VCGE_reg_float;
    }
    if matches_arm(instr, 0xFFA0_0F10, 0xF320_0E00) {
        return ArmInstId::ASIMD_VCGT_reg_float;
    }
    if matches_arm(instr, 0xFF80_0F10, 0xF300_0E10) {
        return ArmInstId::ASIMD_VACGE;
    }
    if matches_arm(instr, 0xFFA0_0F10, 0xF200_0F00) {
        return ArmInstId::ASIMD_VMAX_float;
    }
    if matches_arm(instr, 0xFFA0_0F10, 0xF220_0F00) {
        return ArmInstId::ASIMD_VMIN_float;
    }
    if matches_arm(instr, 0xFFA0_0F10, 0xF300_0F00) {
        return ArmInstId::ASIMD_VPMAX_float;
    }
    if matches_arm(instr, 0xFFA0_0F10, 0xF320_0F00) {
        return ArmInstId::ASIMD_VPMIN_float;
    }
    if matches_arm(instr, 0xFFA0_0F10, 0xF200_0F10) {
        return ArmInstId::ASIMD_VRECPS;
    }
    if matches_arm(instr, 0xFFA0_0F10, 0xF220_0F10) {
        return ArmInstId::ASIMD_VRSQRTS;
    }
    if matches_arm(instr, 0xFFB0_0F10, 0xF220_0110) {
        return ArmInstId::ASIMD_VORR_reg;
    }
    if matches_arm(instr, 0xFFB0_0F10, 0xF310_0110) {
        return ArmInstId::ASIMD_VBSL;
    }
    if matches_arm(instr, 0xFE80_0F50, 0xF280_0500) && (instr >> 20) & 3 != 3 {
        return ArmInstId::ASIMD_VABAL;
    }
    if matches_arm(instr, 0xFE80_0F50, 0xF280_0700) && (instr >> 20) & 3 != 3 {
        return ArmInstId::ASIMD_VABDL;
    }
    if matches_arm(instr, 0xFE80_0E50, 0xF280_0000) && (instr >> 20) & 3 != 3 {
        return ArmInstId::ASIMD_VADDL;
    }
    if matches_arm(instr, 0xFE80_0E50, 0xF280_0200) && (instr >> 20) & 3 != 3 {
        return ArmInstId::ASIMD_VSUBL;
    }
    if matches_arm(instr, 0xFE80_0D50, 0xF280_0800) && (instr >> 20) & 3 != 3 {
        return ArmInstId::ASIMD_VMLAL;
    }
    if matches_arm(instr, 0xFE80_0D50, 0xF280_0C00) && (instr >> 20) & 3 != 3 {
        return ArmInstId::ASIMD_VMULL;
    }
    if matches_arm(instr, 0xFFB3_0F90, 0xF3B2_0080) {
        return ArmInstId::ASIMD_VTRN;
    }
    if matches_arm(instr, 0xFFB3_0F90, 0xF3B2_0100) {
        return ArmInstId::ASIMD_VUZP;
    }
    if matches_arm(instr, 0xFFB3_0F90, 0xF3B2_0180) {
        return ArmInstId::ASIMD_VZIP;
    }
    if matches_arm(instr, 0xFFB3_0FD0, 0xF3B2_0200) {
        return ArmInstId::ASIMD_VMOVN;
    }
    if matches_arm(instr, 0xFFB3_0F90, 0xF3B2_0280) {
        return ArmInstId::ASIMD_VQMOVN;
    }
    if matches_arm(instr, 0xFFB3_0B90, 0xF3B1_0000) {
        return ArmInstId::ASIMD_VCGT_zero;
    }
    if matches_arm(instr, 0xFFB3_0B90, 0xF3B1_0080) {
        return ArmInstId::ASIMD_VCGE_zero;
    }
    if matches_arm(instr, 0xFFB3_0B90, 0xF3B1_0100) {
        return ArmInstId::ASIMD_VCEQ_zero;
    }
    if matches_arm(instr, 0xFFB3_0B90, 0xF3B1_0180) {
        return ArmInstId::ASIMD_VCLE_zero;
    }
    if matches_arm(instr, 0xFFB3_0B90, 0xF3B1_0200) {
        return ArmInstId::ASIMD_VCLT_zero;
    }
    if matches_arm(instr, 0xFFB3_0E90, 0xF3B3_0400) {
        return ArmInstId::ASIMD_VRECPE;
    }
    if matches_arm(instr, 0xFFB3_0E90, 0xF3B3_0480) {
        return ArmInstId::ASIMD_VRSQRTE;
    }
    if matches_arm(instr, 0xFE80_0A50, 0xF280_0040) {
        return ArmInstId::ASIMD_VMLA_scalar;
    }
    if matches_arm(instr, 0xFE80_0E50, 0xF280_0840) {
        return ArmInstId::ASIMD_VMUL_scalar;
    }
    if matches_arm(instr, 0xFFB0_0F90, 0xF3B0_0C00) {
        return ArmInstId::ASIMD_VDUP_scalar;
    }
    if matches_arm(instr, 0xFFB3_0F90, 0xF3B1_0780) {
        return ArmInstId::ASIMD_VNEG_int;
    }
    if matches_arm(instr, 0xFFB3_0F90, 0xF3B1_0380) {
        return ArmInstId::ASIMD_VNEG_int;
    }
    if matches_arm(instr, 0xFFB3_0F90, 0xF3B1_0700) {
        return ArmInstId::ASIMD_VABS_int;
    }
    if matches_arm(instr, 0xFFB3_0F90, 0xF3B1_0300) {
        return ArmInstId::ASIMD_VABS_int;
    }
    if matches_arm(instr, 0xFFB3_0E10, 0xF3B3_0600) {
        return ArmInstId::ASIMD_VCVT_integer;
    }
    if matches_arm(instr, 0x0FF0_0000, 0x0C40_0000) {
        return ArmInstId::MCRR;
    }
    if matches_arm(instr, 0x0FF0_0000, 0x0C50_0000) {
        return ArmInstId::MRRC;
    }
    if matches_arm(instr, 0x0F10_0010, 0x0E00_0010) {
        return ArmInstId::MCR;
    }
    if matches_arm(instr, 0x0F10_0010, 0x0E10_0010) {
        return ArmInstId::MRC;
    }
    if matches_arm(instr, 0x0F00_0010, 0x0E00_0000) {
        return ArmInstId::CDP;
    }
    if matches_arm(instr, 0x0E10_0000, 0x0C10_0000) {
        return ArmInstId::LDC;
    }
    if matches_arm(instr, 0x0E10_0000, 0x0C00_0000) {
        return ArmInstId::STC;
    }
    if matches_arm(instr, 0xFFFF_FFF0, 0xF57F_F040) {
        return ArmInstId::DSB;
    }
    if matches_arm(instr, 0xFFFF_FFF0, 0xF57F_F050) {
        return ArmInstId::DMB;
    }
    if matches_arm(instr, 0xFFFF_FFF0, 0xF57F_F060) {
        return ArmInstId::ISB;
    }
    if matches_arm(instr, 0xFF30_F000, 0xF510_F000) {
        return ArmInstId::PLD_imm;
    }
    if matches_arm(instr, 0xFF30_F010, 0xF710_F000) {
        return ArmInstId::PLD_reg;
    }
    if matches_arm(instr, 0xFE00_0000, 0xFA00_0000) {
        return ArmInstId::BLX_imm;
    }
    if matches_arm(instr, 0xFFFF_FFFF, 0xF57F_F01F) {
        return ArmInstId::CLREX;
    }
    ArmInstId::Unknown
}

/// Data processing with registers, multiplications, synchronization, extra
/// loads and stores, and miscellaneous instructions.
pub open spec fn dp_misc_encoding(instr: u32) -> ArmInstId {
    let op = (instr >> 20) & 0x1F;
    let bit7 = (instr >> 7) & 1;
    let bit4 = (instr >> 4) & 1;
    if matches_arm(instr, 0x0FF0_0090, 0x0140_0080) {
        ArmInstId::SMLALxy
    } else if matches_arm(instr, 0x0FF0_0090, 0x0100_0080) {
        ArmInstId::SMLAxy
    } else if matches_arm(instr, 0x0FF0_0090, 0x0160_0080) {
        ArmInstId::SMULxy
    } else if matches_arm(instr, 0x0FF0_00B0, 0x0120_0080) {
        ArmInstId::SMLAWy
    } else if matches_arm(instr, 0x0FF0_00B0, 0x0120_00A0) {
        ArmInstId::SMULWy
    } else if bit7 == 1 && bit4 == 1 {
        multiply_misc_encoding(instr)
    } else if op == 0b10000 || op == 0b10010 || op == 0b10100 || op == 0b10110 {
        misc_encoding(instr)
    } else if bit4 == 1 {
        dp_rsr_encoding(op)
    } else {
        dp_reg_encoding(op)
    }
}

fn decode_arm_dp_misc(instr: u32) -> (r: ArmInstId)
    ensures
        r == dp_misc_encoding(instr),
{
    let op: u32 = (instr >> 20) & 0x1F;
    let bit7: u32 = (instr >> 7) & 1;
    let bit4: u32 = (instr >> 4) & 1;

    if matches_arm(instr, 0x0FF0_0090, 0x0140_0080) {
        return ArmInstId::SMLALxy;
    }
    if matches_arm(instr, 0x0FF0_0090, 0x0100_0080) {
        return ArmInstId::SMLAxy;
    }
    if matches_arm(instr, 0x0FF0_0090, 0x0160_0080) {
        return ArmInstId::SMULxy;
    }
    if matches_arm(instr, 0x0FF0_00B0, 0x0120_0080) {
        return ArmInstId::SMLAWy;
    }
    if matches_arm(instr, 0x0FF0_00B0, 0x0120_00A0) {
        return ArmInstId::SMULWy;
    }
    if bit7 == 1 && bit4 == 1 {
        return decode_arm_multiply_misc(instr);
    }
    assert(op & 0b11001 == 0b10000 <==> op == 0b10000 || op == 0b10010 || op == 0b10100 || op
        == 0b10110) by (bit_vector)
        requires
            op <= 0x1F,
    ;
    if op & 0b11001 == 0b10000 {
        return decode_arm_misc(instr);
    }
    if bit4 == 1 {
        return decode_arm_dp_rsr(op);
    }
    match op {
        0b00000 | 0b00001 => ArmInstId::AND_reg,
        0b00010 | 0b00011 => ArmInstId::EOR_reg,
        0b00100 | 0b00101 => ArmInstId::SUB_reg,
        0b00110 | 0b00111 => ArmInstId::RSB_reg,
        0b01000 | 0b01001 => ArmInstId::ADD_reg,
        0b01010 | 0b01011 => ArmInstId::ADC_reg,
        0b01100 | 0b01101 => ArmInstId::SBC_reg,
        0b01110 | 0b01111 => ArmInstId::RSC_reg,
        0b10001 => ArmInstId::TST_reg,
        0b10011 => ArmInstId::TEQ_reg,
        0b10101 => ArmInstId::CMP_reg,
        0b10111 => ArmInstId::CMN_reg,
        0b11000 | 0b11001 => ArmInstId::ORR_reg,
        0b11010 | 0b11011 => ArmInstId::MOV_reg,
        0b11100 | 0b11101 => ArmInstId::BIC_reg,
        0b11110 | 0b11111 => ArmInstId::MVN_reg,
        _ => ArmInstId::Unknown,
    }
}

/// Data processing with a register operand: bits 24 to 21 give the operation. `op`
/// is that code with the flag-setting bit below; the comparisons exist with
/// that bit only.
pub open spec fn dp_reg_encoding(op: u32) -> ArmInstId {
    let code = op / 2;
    if 8 <= code < 12 && op % 2 == 0 {
        ArmInstId::Unknown
    } else if code == 0 {
        ArmInstId::AND_reg
    } else if code == 1 {
        ArmInstId::EOR_reg
    } else if code == 2 {
        ArmInstId::SUB_reg
    } else if code == 3 {
        ArmInstId::RSB_reg
    } else if code == 4 {
        ArmInstId::ADD_reg
    } else if code == 5 {
        ArmInstId::ADC_reg
    } else if code == 6 {
        ArmInstId::SBC_reg
    } else if code == 7 {
        ArmInstId::RSC_reg
    } else if code == 8 {
        ArmInstId::TST_reg
    } else if code == 9 {
        ArmInstId::TEQ_reg
    } else if code == 10 {
        ArmInstId::CMP_reg
    } else if code == 11 {
        ArmInstId::CMN_reg
    } else if code == 12 {
        ArmInstId::ORR_reg
    } else if code == 13 {
        ArmInstId::MOV_reg
    } else if code == 14 {
        ArmInstId::BIC_reg
    } else {
        ArmInstId::MVN_reg
    }
}

/// Data processing with a register shifted by a register: bits 24 to 21 give
/// the operation. `op` is that code with the flag-setting bit below; the
/// comparisons exist with that bit only.
pub open spec fn dp_rsr_encoding(op: u32) -> ArmInstId {
    let code = op / 2;
    if 8 <= code < 12 && op % 2 == 0 {
        ArmInstId::Unknown
    } else if code == 0 {
        ArmInstId::AND_rsr
    } else if code == 1 {
        ArmInstId::EOR_rsr
    } else if code == 2 {
        ArmInstId::SUB_rsr
    } else if code == 3 {
        ArmInstId::RSB_rsr
    } else if code == 4 {
        ArmInstId::ADD_rsr
    } else if code == 5 {
        ArmInstId::ADC_rsr
    } else if code == 6 {
        ArmInstId::SBC_rsr
    } else if code == 7 {
        ArmInstId::RSC_rsr
    } else if code == 8 {
        ArmInstId::TST_rsr
    } else if code == 9 {
        ArmInstId::TEQ_rsr
    } else if code == 10 {
        ArmInstId::CMP_rsr
    } else if code == 11 {
        ArmInstId::CMN_rsr
    } else if code == 12 {
        ArmInstId::ORR_rsr
    } else if code == 13 {
        ArmInstId::MOV_rsr
    } else if code == 14 {
        ArmInstId::BIC_rsr
    } else if code == 15 {
        ArmInstId::MVN_rsr
    } else {
        ArmInstId::Unknown
    }
}

fn decode_arm_dp_rsr(op: u32) -> (r: ArmInstId)
    ensures
        r == dp_rsr_encoding(op),
{
    match op {
        0b00000 | 0b00001 => ArmInstId::AND_rsr,
        0b00010 | 0b00011 => ArmInstId::EOR_rsr,
        0b00100 | 0b00101 => ArmInstId::SUB_rsr,
        0b00110 | 0b00111 => ArmInstId::RSB_rsr,
        0b01000 | 0b01001 => ArmInstId::ADD_rsr,
        0b01010 | 0b01011 => ArmInstId::ADC_rsr,
        0b01100 | 0b01101 => ArmInstId::SBC_rsr,
        0b01110 | 0b01111 => ArmInstId::RSC_rsr,
        0b10001 => ArmInstId::TST_rsr,
        0b10011 => ArmInstId::TEQ_rsr,
        0b10101 => ArmInstId::CMP_rsr,
        0b10111 => ArmInstId::CMN_rsr,
        0b11000 | 0b11001 => ArmInstId::ORR_rsr,
        0b11010 | 0b11011 => ArmInstId::MOV_rsr,
        0b11100 | 0b11101 => ArmInstId::BIC_rsr,
        0b11110 | 0b11111 => ArmInstId::MVN_rsr,
        _ => ArmInstId::Unknown,
    }
}

/// Miscellaneous instructions: bits 7 to 4 and 22 to 21 tell them apart.
pub open spec fn misc_encoding(instr: u32) -> ArmInstId {
    let op2 = (instr >> 4) & 0xF;
    let op = (instr >> 21) & 3;
    if op2 == 0b0001 {
        if op == 0b01 {
            ArmInstId::BX
        } else if op == 0b11 {
            ArmInstId::CLZ
        } else {
            ArmInstId::Unknown
        }
    } else if op2 == 0b0011 {
        ArmInstId::BLX_reg
    } else if op2 == 0b0101 {
        if op == 0b00 {
            ArmInstId::QADD
        } else if op == 0b01 {
            ArmInstId::QSUB
        } else if op == 0b10 {
            ArmInstId::QDADD
        } else {
            ArmInstId::QDSUB
        }
    } else if op2 == 0b0111 {
        ArmInstId::BKPT
    } else if op2 == 0b0000 && (instr >> 20) & 1 == 0 {
        if (instr >> 21) & 1 == 0 {
            ArmInstId::MRS
        } else {
            ArmInstId::MSR_reg
        }
    } else {
        ArmInstId::Unknown
    }
}

fn decode_arm_misc(instr: u32) -> (r: ArmInstId)
    ensures
        r == misc_encoding(instr),
{
    let op2: u32 = (instr >> 4) & 0xF;
    let op: u32 = (instr >> 21) & 3;
    match op2 {
        0b0001 => match op {
            0b01 => ArmInstId::BX,
            0b11 => ArmInstId::CLZ,
            _ => ArmInstId::Unknown,
        },
        0b0011 => ArmInstId::BLX_reg,
        0b0101 => match op {
            0b00 => ArmInstId::QADD,
            0b01 => ArmInstId::QSUB,
            0b10 => ArmInstId::QDADD,
            _ => ArmInstId::QDSUB,
        },
        0b0111 => ArmInstId::BKPT,
        _ => if op2 == 0 && (instr >> 20) & 1 == 0 {
            if (instr >> 21) & 1 == 0 {
                ArmInstId::MRS
            } else {
                ArmInstId::MSR_reg
            }
        } else {
            ArmInstId::Unknown
        },
    }
}

/// Multiplications, synchronization and extra loads and stores. With bits 7
/// to 4 at `1001`, bit 24 separates synchronization from multiplication.
pub open spec fn multiply_misc_encoding(instr: u32) -> ArmInstId {
    let op2 = (instr >> 4) & 0xF;
    if op2 == 0b1001 {
        if (instr >> 24) & 1 == 1 {
            sync_encoding(instr)
        } else {
            multiply_encoding((instr >> 20) & 0xF)
        }
    } else if op2 == 0b1011 || op2 == 0b1101 || op2 == 0b1111 {
        extra_ls_encoding(instr)
    } else {
        ArmInstId::Unknown
    }
}

/// Multiplications, by bits 23 to 20; the lowest of them sets the flags.
pub open spec fn multiply_encoding(op: u32) -> ArmInstId {
    if op == 0b0000 || op == 0b0001 {
        ArmInstId::MUL
    } else if op == 0b0010 || op == 0b0011 {
        ArmInstId::MLA
    } else if op == 0b0100 {
        ArmInstId::UMAAL
    } else if op == 0b0110 {
        ArmInstId::MLS
    } else if op == 0b1000 || op == 0b1001 {
        ArmInstId::UMULL
    } else if op == 0b1010 || op == 0b1011 {
        ArmInstId::UMLAL
    } else if op == 0b1100 || op == 0b1101 {
        ArmInstId::SMULL
    } else if op == 0b1110 || op == 0b1111 {
        ArmInstId::SMLAL
    } else {
        ArmInstId::Unknown
    }
}

fn decode_arm_multiply_misc(instr: u32) -> (r: ArmInstId)
    ensures
        r == multiply_misc_encoding(instr),
{
    let op: u32 = (instr >> 20) & 0xF;
    let op2: u32 = (instr >> 4) & 0xF;
    if op2 == 0b1001 {
        if (instr >> 24) & 1 == 1 {
            return decode_arm_sync(instr);
        }
        match op {
            0b0000 | 0b0001 => ArmInstId::MUL,
            0b0010 | 0b0011 => ArmInstId::MLA,
            0b0100 => ArmInstId::UMAAL,
            0b0110 => ArmInstId::MLS,
            0b1000 | 0b1001 => ArmInstId::UMULL,
            0b1010 | 0b1011 => ArmInstId::UMLAL,
            0b1100 | 0b1101 => ArmInstId::SMULL,
            0b1110 | 0b1111 => ArmInstId::SMLAL,
            _ => ArmInstId::Unknown,
        }
    } else if op2 == 0b1011 || op2 == 0b1101 || op2 == 0b1111 {
        decode_arm_extra_ls(instr)
    } else {
        ArmInstId::Unknown
    }
}

/// Swaps and exclusive accesses, by bits 23 to 20.
pub open spec fn sync_by_opcode(op: u32) -> ArmInstId {
    if op == 0b0000 {
        ArmInstId::SWP
    } else if op == 0b0100 {
        ArmInstId::SWPB
    } else if op == 0b1000 {
        ArmInstId::STREX
    } else if op == 0b1001 {
        ArmInstId::LDREX
    } else if op == 0b1010 {
        ArmInstId::STREXD
    } else if op == 0b1011 {
        ArmInstId::LDREXD
    } else if op == 0b1100 {
        ArmInstId::STREXB
    } else if op == 0b1101 {
        ArmInstId::LDREXB
    } else if op == 0b1110 {
        ArmInstId::STREXH
    } else if op == 0b1111 {
        ArmInstId::LDREXH
    } else {
        ArmInstId::Unknown
    }
}

/// Synchronization: the acquire and release forms, then the others.
pub open spec fn sync_encoding(instr: u32) -> ArmInstId {
    if matches_arm(instr, 0x0FF0_FFF0, 0x0180_FC90) {
        // ----00011000----111111001001----
        ArmInstId::STL
    } else if matches_arm(instr, 0x0FF0_0FF0, 0x0180_0E90) {
        // ----00011000--------11101001----
        ArmInstId::STLEX
    } else if matches_arm(instr, 0x0FF0_0FFF, 0x0190_0C9F) {
        // ----00011001--------110010011111
        ArmInstId::LDA
    } else if matches_arm(instr, 0x0FF0_0FFF, 0x0190_0E9F) {
        // ----00011001--------111010011111
        ArmInstId::LDAEX
    } else if matches_arm(instr, 0x0FF0_0FF0, 0x01A0_0E90) {
        // ----00011010--------11101001----
        ArmInstId::STLEXD
    } else if matches_arm(instr, 0x0FF0_0FFF, 0x01B0_0E9F) {
        // ----00011011--------111010011111
        ArmInstId::LDAEXD
    } else if matches_arm(instr, 0x0FF0_FFF0, 0x01C0_FC90) {
        // ----00011100----111111001001----
        ArmInstId::STLB
    } else if matches_arm(instr, 0x0FF0_0FF0, 0x01C0_0E90) {
        // ----00011100--------11101001----
        ArmInstId::STLEXB
    } else if matches_arm(instr, 0x0FF0_0FFF, 0x01D0_0C9F) {
        // ----00011101--------110010011111
        ArmInstId::LDAB
    } else if matches_arm(instr, 0x0FF0_0FFF, 0x01D0_0E9F) {
        // ----00011101--------111010011111
        ArmInstId::LDAEXB
    } else if matches_arm(instr, 0x0FF0_FFF0, 0x01E0_FC90) {
        // ----00011110----111111001001----
        ArmInstId::STLH
    } else if matches_arm(instr, 0x0FF0_0FF0, 0x01E0_0E90) {
        // ----00011110--------11101001----
        ArmInstId::STLEXH
    } else if matches_arm(instr, 0x0FF0_0FFF, 0x01F0_0C9F) {
        // ----00011111--------110010011111
        ArmInstId::LDAH
    } else if matches_arm(instr, 0x0FF0_0FFF, 0x01F0_0E9F) {
        // ----00011111--------111010011111
        ArmInstId::LDAEXH
    } else {
        sync_by_opcode((instr >> 20) & 0xF)
    }
}

fn decode_arm_sync(instr: u32) -> (r: ArmInstId)
    ensures
        r == sync_encoding(instr),
{
    if matches_arm(instr, 0x0FF0_FFF0, 0x0180_FC90) {
        return ArmInstId::STL;
    }
    if matches_arm(instr, 0x0FF0_0FF0, 0x0180_0E90) {
        return ArmInstId::STLEX;
    }
    if matches_arm(instr, 0x0FF0_0FFF, 0x0190_0C9F) {
        return ArmInstId::LDA;
    }
    if matches_arm(instr, 0x0FF0_0FFF, 0x0190_0E9F) {
        return ArmInstId::LDAEX;
    }
    if matches_arm(instr, 0x0FF0_0FF0, 0x01A0_0E90) {
        return ArmInstId::STLEXD;
    }
    if matches_arm(instr, 0x0FF0_0FFF, 0x01B0_0E9F) {
        return ArmInstId::LDAEXD;
    }
    if matches_arm(instr, 0x0FF0_FFF0, 0x01C0_FC90) {
        return ArmInstId::STLB;
    }
    if matches_arm(instr, 0x0FF0_0FF0, 0x01C0_0E90) {
        return ArmInstId::STLEXB;
    }
    if matches_arm(instr, 0x0FF0_0FFF, 0x01D0_0C9F) {
        return ArmInstId::LDAB;
    }
    if matches_arm(instr, 0x0FF0_0FFF, 0x01D0_0E9F) {
        return ArmInstId::LDAEXB;
    }
    if matches_arm(instr, 0x0FF0_FFF0, 0x01E0_FC90) {
        return ArmInstId::STLH;
    }
    if matches_arm(instr, 0x0FF0_0FF0, 0x01E0_0E90) {
        return ArmInstId::STLEXH;
    }
    if matches_arm(instr, 0x0FF0_0FFF, 0x01F0_0C9F) {
        return ArmInstId::LDAH;
    }
    if matches_arm(instr, 0x0FF0_0FFF, 0x01F0_0E9F) {
        return ArmInstId::LDAEXH;
    }
    match (instr >> 20) & 0xF {
        0b0000 => ArmInstId::SWP,
        0b0100 => ArmInstId::SWPB,
        0b1000 => ArmInstId::STREX,
        0b1001 => ArmInstId::LDREX,
        0b1010 => ArmInstId::STREXD,
        0b1011 => ArmInstId::LDREXD,
        0b1100 => ArmInstId::STREXB,
        0b1101 => ArmInstId::LDREXB,
        0b1110 => ArmInstId::STREXH,
        0b1111 => ArmInstId::LDREXH,
        _ => ArmInstId::Unknown,
    }
}

/// Loads and stores of halfwords, signed bytes and double words: bit 20 and
/// bits 6 and 5 give the access, bit 22 tells an immediate offset from a
/// register.
pub open spec fn extra_ls_encoding(instr: u32) -> ArmInstId {
    let load = (instr >> 20) & 1 == 1;
    let imm = (instr >> 22) & 1 == 1;
    let op2 = (instr >> 5) & 3;
    if op2 == 0 {
        ArmInstId::Unknown
    } else if imm {
        if load {
            if op2 == 1 {
                ArmInstId::LDRH_imm
            } else if op2 == 2 {
                ArmInstId::LDRSB_imm
            } else {
                ArmInstId::LDRSH_imm
            }
        } else if op2 == 1 {
            ArmInstId::STRH_imm
        } else if op2 == 2 {
            ArmInstId::LDRD_imm
        } else {
            ArmInstId::STRD_imm
        }
    } else if load {
        if op2 == 1 {
            ArmInstId::LDRH_reg
        } else if op2 == 2 {
            ArmInstId::LDRSB_reg
        } else {
            ArmInstId::LDRSH_reg
        }
    } else if op2 == 1 {
        ArmInstId::STRH_reg
    } else if op2 == 2 {
        ArmInstId::LDRD_reg
    } else {
        ArmInstId::STRD_reg
    }
}

fn decode_arm_extra_ls(instr: u32) -> (r: ArmInstId)
    ensures
        r == extra_ls_encoding(instr),
{
    let load: bool = (instr >> 20) & 1 == 1;
    let imm: bool = (instr >> 22) & 1 == 1;
    let op2: u32 = (instr >> 5) & 3;
    match (load, op2) {
        (false, 0b01) => if imm { ArmInstId::STRH_imm } else { ArmInstId::STRH_reg },
        (false, 0b10) => if imm { ArmInstId::LDRD_imm } else { ArmInstId::LDRD_reg },
        (false, 0b11) => if imm { ArmInstId::STRD_imm } else { ArmInstId::STRD_reg },
        (true, 0b01) => if imm { ArmInstId::LDRH_imm } else { ArmInstId::LDRH_reg },
        (true, 0b10) => if imm { ArmInstId::LDRSB_imm } else { ArmInstId::LDRSB_reg },
        (true, 0b11) => if imm { ArmInstId::LDRSH_imm } else { ArmInstId::LDRSH_reg },
        _ => ArmInstId::Unknown,
    }
}

/// Data processing with an immediate, and the instructions that use the
/// places of comparisons without flags. `op` is bits 24 to 20.
pub open spec fn dp_imm_encoding(op: u32) -> ArmInstId {
    let code = op / 2;
    if op == 0b10000 {
        ArmInstId::MOVW
    } else if op == 0b10100 {
        ArmInstId::MOVT
    } else if op == 0b10010 || op == 0b10110 {
        ArmInstId::MSR_imm
    } else if code == 0 {
        ArmInstId::AND_imm
    } else if code == 1 {
        ArmInstId::EOR_imm
    } else if code == 2 {
        ArmInstId::SUB_imm
    } else if code == 3 {
        ArmInstId::RSB_imm
    } else if code == 4 {
        ArmInstId::ADD_imm
    } else if code == 5 {
        ArmInstId::ADC_imm
    } else if code == 6 {
        ArmInstId::SBC_imm
    } else if code == 7 {
        ArmInstId::RSC_imm
    } else if code == 8 {
        ArmInstId::TST_imm
    } else if code == 9 {
        ArmInstId::TEQ_imm
    } else if code == 10 {
        ArmInstId::CMP_imm
    } else if code == 11 {
        ArmInstId::CMN_imm
    } else if code == 12 {
        ArmInstId::ORR_imm
    } else if code == 13 {
        ArmInstId::MOV_imm
    } else if code == 14 {
        ArmInstId::BIC_imm
    } else {
        ArmInstId::MVN_imm
    }
}

fn decode_arm_dp_imm_misc(instr: u32) -> (r: ArmInstId)
    ensures
        r == dp_imm_encoding((instr >> 20) & 0x1F),
{
    match (instr >> 20) & 0x1F {
        0b00000 | 0b00001 => ArmInstId::AND_imm,
        0b00010 | 0b00011 => ArmInstId::EOR_imm,
        0b00100 | 0b00101 => ArmInstId::SUB_imm,
        0b00110 | 0b00111 => ArmInstId::RSB_imm,
        0b01000 | 0b01001 => ArmInstId::ADD_imm,
        0b01010 | 0b01011 => ArmInstId::ADC_imm,
        0b01100 | 0b01101 => ArmInstId::SBC_imm,
        0b01110 | 0b01111 => ArmInstId::RSC_imm,
        0b10001 => ArmInstId::TST_imm,
        0b10011 => ArmInstId::TEQ_imm,
        0b10101 => ArmInstId::CMP_imm,
        0b10111 => ArmInstId::CMN_imm,
        0b11000 | 0b11001 => ArmInstId::ORR_imm,
        0b11010 | 0b11011 => ArmInstId::MOV_imm,
        0b11100 | 0b11101 => ArmInstId::BIC_imm,
        0b11110 | 0b11111 => ArmInstId::MVN_imm,
        0b10000 => ArmInstId::MOVW,
        0b10100 => ArmInstId::MOVT,
        0b10010 | 0b10110 => ArmInstId::MSR_imm,
        _ => ArmInstId::Unknown,
    }
}

/// Loads and stores of words and bytes with an immediate offset. A load
/// relative to the program counter is a literal load.
pub open spec fn ls_imm_encoding(instr: u32) -> ArmInstId {
    let byte = (instr >> 22) & 1 != 0;
    let load = (instr >> 20) & 1 != 0;
    let literal = (instr >> 16) & 0xF == 15;
    if load {
        if byte {
            if literal { ArmInstId::LDRB_lit } else { ArmInstId::LDRB_imm }
        } else {
            if literal { ArmInstId::LDR_lit } else { ArmInstId::LDR_imm }
        }
    } else if byte {
        ArmInstId::STRB_imm
    } else {
        ArmInstId::STR_imm
    }
}

fn decode_arm_ls_imm(instr: u32) -> (r: ArmInstId)
    ensures
        r == ls_imm_encoding(instr),
{
    let byte: bool = (instr >> 22) & 1 != 0;
    let load: bool = (instr >> 20) & 1 != 0;
    let rn: u32 = (instr >> 16) & 0xF;
    match (load, byte) {
        (true, false) => if rn == 15 { ArmInstId::LDR_lit } else { ArmInstId::LDR_imm },
        (true, true) => if rn == 15 { ArmInstId::LDRB_lit } else { ArmInstId::LDRB_imm },
        (false, false) => ArmInstId::STR_imm,
        (false, true) => ArmInstId::STRB_imm,
    }
}

/// Loads and stores of words and bytes with a register offset.
pub open spec fn ls_reg_encoding(instr: u32) -> ArmInstId {
    let byte = (instr >> 22) & 1 != 0;
    let load = (instr >> 20) & 1 != 0;
    if load {
        if byte { ArmInstId::LDRB_reg } else { ArmInstId::LDR_reg }
    } else {
        if byte { ArmInstId::STRB_reg } else { ArmInstId::STR_reg }
    }
}

fn decode_arm_ls_reg(instr: u32) -> (r: ArmInstId)
    ensures
        r == ls_reg_encoding(instr),
{
    let byte: bool = (instr >> 22) & 1 != 0;
    let load: bool = (instr >> 20) & 1 != 0;
    match (load, byte) {
        (true, false) => ArmInstId::LDR_reg,
        (true, true) => ArmInstId::LDRB_reg,
        (false, false) => ArmInstId::STR_reg,
        (false, true) => ArmInstId::STRB_reg,
    }
}

/// Media instructions, in order of precedence.
pub open spec fn media_encoding(instr: u32) -> ArmInstId {
    if matches_arm(instr, 0x0FF0_F0D0, 0x0750_F010) {
        // ----01110101----1111----00-1----
        ArmInstId::SMMUL
    } else if matches_arm(instr, 0x0FF0_00D0, 0x0750_0010) {
        // ----01110101------------00-1----
        ArmInstId::SMMLA
    } else if matches_arm(instr, 0x0FF0_00D0, 0x0750_00D0) {
        // ----01110101------------11-1----
        ArmInstId::SMMLS
    } else if matches_arm(instr, 0x0FE0_007F, 0x07C0_001F) {
        // ----0111110--------------0011111
        ArmInstId::BFC
    } else if matches_arm(instr, 0x0FE0_0070, 0x07C0_0010) {
        // ----0111110--------------001----
        ArmInstId::BFI
    } else if matches_arm(instr, 0x0FE0_0070, 0x07A0_0050) {
        // ----0111101--------------101----
        ArmInstId::SBFX
    } else if matches_arm(instr, 0x0FE0_0070, 0x07E0_0050) {
        // ----0111111--------------101----
        ArmInstId::UBFX
    } else if matches_arm(instr, 0x0FF0_0070, 0x0680_0010) {
        // ----01101000-------------001----
        ArmInstId::PKHBT
    } else if matches_arm(instr, 0x0FF0_0070, 0x0680_0050) {
        // ----01101000-------------101----
        ArmInstId::PKHTB
    } else if matches_arm(instr, 0x0FE0_0030, 0x06A0_0010) {
        // ----0110101---------------01----
        ArmInstId::SSAT
    } else if matches_arm(instr, 0x0FF0_0FF0, 0x06A0_0F30) {
        // ----01101010--------11110011----
        ArmInstId::SSAT16
    } else if matches_arm(instr, 0x0FE0_0030, 0x06E0_0010) {
        // ----0110111---------------01----
        ArmInstId::USAT
    } else if matches_arm(instr, 0x0FF0_0FF0, 0x06E0_0F30) {
        // ----01101110--------11110011----
        ArmInstId::USAT16
    } else if matches_arm(instr, 0x0FF0_0FF0, 0x0680_0FB0) {
        // ----01101000--------11111011----
        ArmInstId::SEL
    } else if matches_arm(instr, 0x0FFF_03F0, 0x068F_0070) {
        // ----011010001111------000111----
        ArmInstId::SXTB16
    } else if matches_arm(instr, 0x0FF0_03F0, 0x0680_0070) {
        // ----01101000----------000111----
        ArmInstId::SXTAB16
    } else if matches_arm(instr, 0x0FFF_03F0, 0x06AF_0070) {
        // ----011010101111------000111----
        ArmInstId::SXTB
    } else if matches_arm(instr, 0x0FF0_03F0, 0x06A0_0070) {
        // ----01101010----------000111----
        ArmInstId::SXTAB
    } else if matches_arm(instr, 0x0FFF_03F0, 0x06BF_0070) {
        // ----011010111111------000111----
        ArmInstId::SXTH
    } else if matches_arm(instr, 0x0FF0_03F0, 0x06B0_0070) {
        // ----01101011----------000111----
        ArmInstId::SXTAH
    } else if matches_arm(instr, 0x0FFF_03F0, 0x06CF_0070) {
        // ----011011001111------000111----
        ArmInstId::UXTB16
    } else if matches_arm(instr, 0x0FF0_03F0, 0x06C0_0070) {
        // ----01101100----------000111----
        ArmInstId::UXTAB16
    } else if matches_arm(instr, 0x0FFF_03F0, 0x06EF_0070) {
        // ----011011101111------000111----
        ArmInstId::UXTB
    } else if matches_arm(instr, 0x0FF0_03F0, 0x06E0_0070) {
        // ----01101110----------000111----
        ArmInstId::UXTAB
    } else if matches_arm(instr, 0x0FFF_03F0, 0x06FF_0070) {
        // ----011011111111------000111----
        ArmInstId::UXTH
    } else if matches_arm(instr, 0x0FF0_03F0, 0x06F0_0070) {
        // ----01101111----------000111----
        ArmInstId::UXTAH
    } else if matches_arm(instr, 0x0FFF_0FF0, 0x06BF_0F30) {
        // ----011010111111----11110011----
        ArmInstId::REV
    } else if matches_arm(instr, 0x0FFF_0FF0, 0x06BF_0FB0) {
        // ----011010111111----11111011----
        ArmInstId::REV16
    } else if matches_arm(instr, 0x0FFF_0FF0, 0x06FF_0FB0) {
        // ----011011111111----11111011----
        ArmInstId::REVSH
    } else if matches_arm(instr, 0x0FFF_0FF0, 0x06FF_0F30) {
        // ----011011111111----11110011----
        ArmInstId::RBIT
    } else if matches_arm(instr, 0x0FF0_F0F0, 0x0710_F010) {
        // ----01110001----1111----0001----
        ArmInstId::SDIV
    } else if matches_arm(instr, 0x0FF0_F0F0, 0x0730_F010) {
        // ----01110011----1111----0001----
        ArmInstId::UDIV
    } else {
        ArmInstId::Unknown
    }
}

fn decode_arm_media(instr: u32) -> (r: ArmInstId)
    ensures
        r == media_encoding(instr),
{
    if matches_arm(instr, 0x0FF0_F0D0, 0x0750_F010) {
        return ArmInstId::SMMUL;
    }
    if matches_arm(instr, 0x0FF0_00D0, 0x0750_0010) {
        return ArmInstId::SMMLA;
    }
    if matches_arm(instr, 0x0FF0_00D0, 0x0750_00D0) {
        return ArmInstId::SMMLS;
    }
    if matches_arm(instr, 0x0FE0_007F, 0x07C0_001F) {
        return ArmInstId::BFC;
    }
    if matches_arm(instr, 0x0FE0_0070, 0x07C0_0010) {
        return ArmInstId::BFI;
    }
    if matches_arm(instr, 0x0FE0_0070, 0x07A0_0050) {
        return ArmInstId::SBFX;
    }
    if matches_arm(instr, 0x0FE0_0070, 0x07E0_0050) {
        return ArmInstId::UBFX;
    }
    if matches_arm(instr, 0x0FF0_0070, 0x0680_0010) {
        return ArmInstId::PKHBT;
    }
    if matches_arm(instr, 0x0FF0_0070, 0x0680_0050) {
        return ArmInstId::PKHTB;
    }
    if matches_arm(instr, 0x0FE0_0030, 0x06A0_0010) {
        return ArmInstId::SSAT;
    }
    if matches_arm(instr, 0x0FF0_0FF0, 0x06A0_0F30) {
        return ArmInstId::SSAT16;
    }
    if matches_arm(instr, 0x0FE0_0030, 0x06E0_0010) {
        return ArmInstId::USAT;
    }
    if matches_arm(instr, 0x0FF0_0FF0, 0x06E0_0F30) {
        return ArmInstId::USAT16;
    }
    if matches_arm(instr, 0x0FF0_0FF0, 0x0680_0FB0) {
        return ArmInstId::SEL;
    }
    if matches_arm(instr, 0x0FFF_03F0, 0x068F_0070) {
        return ArmInstId::SXTB16;
    }
    if matches_arm(instr, 0x0FF0_03F0, 0x0680_0070) {
        return ArmInstId::SXTAB16;
    }
    if matches_arm(instr, 0x0FFF_03F0, 0x06AF_0070) {
        return ArmInstId::SXTB;
    }
    if matches_arm(instr, 0x0FF0_03F0, 0x06A0_0070) {
        return ArmInstId::SXTAB;
    }
    if matches_arm(instr, 0x0FFF_03F0, 0x06BF_0070) {
        return ArmInstId::SXTH;
    }
    if matches_arm(instr, 0x0FF0_03F0, 0x06B0_0070) {
        return ArmInstId::SXTAH;
    }
    if matches_arm(instr, 0x0FFF_03F0, 0x06CF_0070) {
        return ArmInstId::UXTB16;
    }
    if matches_arm(instr, 0x0FF0_03F0, 0x06C0_0070) {
        return ArmInstId::UXTAB16;
    }
    if matches_arm(instr, 0x0FFF_03F0, 0x06EF_0070) {
        return ArmInstId::UXTB;
    }
    if matches_arm(instr, 0x0FF0_03F0, 0x06E0_0070) {
        return ArmInstId::UXTAB;
    }
    if matches_arm(instr, 0x0FFF_03F0, 0x06FF_0070) {
        return ArmInstId::UXTH;
    }
    if matches_arm(instr, 0x0FF0_03F0, 0x06F0_0070) {
        return ArmInstId::UXTAH;
    }
    if matches_arm(instr, 0x0FFF_0FF0, 0x06BF_0F30) {
        return ArmInstId::REV;
    }
    if matches_arm(instr, 0x0FFF_0FF0, 0x06BF_0FB0) {
        return ArmInstId::REV16;
    }
    if matches_arm(instr, 0x0FFF_0FF0, 0x06FF_0FB0) {
        return ArmInstId::REVSH;
    }
    if matches_arm(instr, 0x0FFF_0FF0, 0x06FF_0F30) {
        return ArmInstId::RBIT;
    }
    if matches_arm(instr, 0x0FF0_F0F0, 0x0710_F010) {
        return ArmInstId::SDIV;
    }
    if matches_arm(instr, 0x0FF0_F0F0, 0x0730_F010) {
        return ArmInstId::UDIV;
    }
    ArmInstId::Unknown
}

/// Loads and stores of several registers: bits 24 and 23 give the direction.
pub open spec fn ls_multi_encoding(instr: u32) -> ArmInstId {
    let load = (instr >> 20) & 1 != 0;
    let pu = (instr >> 23) & 3;
    if pu == 0 {
        if load { ArmInstId::LDMDA } else { ArmInstId::STMDA }
    } else if pu == 1 {
        if load { ArmInstId::LDM } else { ArmInstId::STM }
    } else if pu == 2 {
        if load { ArmInstId::LDMDB } else { ArmInstId::STMDB }
    } else {
        if load { ArmInstId::LDMIB } else { ArmInstId::STMIB }
    }
}

fn decode_arm_ls_multi(instr: u32) -> (r: ArmInstId)
    ensures
        r == ls_multi_encoding(instr),
{
    let pu: u32 = (instr >> 23) & 3;
    let load: bool = (instr >> 20) & 1 != 0;
    match (load, pu) {
        (true, 0b00) => ArmInstId::LDMDA,
        (true, 0b01) => ArmInstId::LDM,
        (true, 0b10) => ArmInstId::LDMDB,
        (true, _) => ArmInstId::LDMIB,
        (false, 0b00) => ArmInstId::STMDA,
        (false, 0b01) => ArmInstId::STM,
        (false, 0b10) => ArmInstId::STMDB,
        (false, _) => ArmInstId::STMIB,
    }
}

/// Branches: bit 24 tells whether a return address is kept.
pub open spec fn branch_encoding(instr: u32) -> ArmInstId {
    if instr & 0x100_0000 != 0 {
        ArmInstId::BL
    } else {
        ArmInstId::B
    }
}

fn decode_arm_branch(instr: u32) -> (r: ArmInstId)
    ensures
        r == branch_encoding(instr),
{
    if instr & 0x100_0000 != 0 {
        ArmInstId::BL
    } else {
        ArmInstId::B
    }
}

/// Supervisor calls, floating-point instructions, and the coprocessor
/// operations and register transfers that are left.
pub open spec fn coproc_svc_encoding(instr: u32) -> ArmInstId {
    if instr & 0x100_0000 != 0 {
        ArmInstId::SVC
    } else if vfp_encoding(instr) is Some {
        vfp_encoding(instr)->0
    } else if instr & 0x10 == 0 {
        ArmInstId::CDP
    } else if instr & 0x10_0000 != 0 {
        ArmInstId::MRC
    } else {
        ArmInstId::MCR
    }
}

fn decode_arm_coproc_svc(instr: u32) -> (r: ArmInstId)
    ensures
        r == coproc_svc_encoding(instr),
{
    if instr & 0x100_0000 != 0 {
        return ArmInstId::SVC;
    }
    if let Some(vfp) = decode_arm_vfp_coproc(instr) {
        return vfp;
    }
    if instr & 0x10 != 0 {
        if instr & 0x10_0000 != 0 {
            ArmInstId::MRC
        } else {
            ArmInstId::MCR
        }
    } else {
        ArmInstId::CDP
    }
}

/// Floating-point instructions, in order of precedence. They belong to
/// coprocessors 10 and 11.
pub open spec fn vfp_encoding(instr: u32) -> Option<ArmInstId> {
    if (instr >> 8) & 0xF != 0b1010 && (instr >> 8) & 0xF != 0b1011 {
        None
    } else if matches_arm(instr, 0x0FF0_0FD0, 0x0C40_0A10) {
        // ----11000100--------101000-1----
        Some(ArmInstId::VMOV_2u32_2f32)
    } else if matches_arm(instr, 0x0FF0_0FD0, 0x0C50_0A10) {
        // ----11000101--------101000-1----
        Some(ArmInstId::VMOV_2f32_2u32)
    } else if matches_arm(instr, 0x0FF0_0FD0, 0x0C40_0B10) {
        // ----11000100--------101100-1----
        Some(ArmInstId::VMOV_2u32_f64)
    } else if matches_arm(instr, 0x0FF0_0FD0, 0x0C50_0B10) {
        // ----11000101--------101100-1----
        Some(ArmInstId::VMOV_f64_2u32)
    } else if matches_arm(instr, 0x0FFF_0FFF, 0x0EE1_0A10) {
        // ----111011100001----101000010000
        Some(ArmInstId::VMSR)
    } else if matches_arm(instr, 0x0FFF_0FFF, 0x0EF1_0A10) {
        // ----111011110001----101000010000
        Some(ArmInstId::VMRS)
    } else if matches_arm(instr, 0x0FB0_0E50, 0x0E00_0A00) {
        // ----11100-00--------101--0-0----
        Some(ArmInstId::VMLA_fp)
    } else if matches_arm(instr, 0x0FB0_0E50, 0x0E00_0A40) {
        // ----11100-00--------101--1-0----
        Some(ArmInstId::VMLS_fp)
    } else if matches_arm(instr, 0x0FB0_0E50, 0x0E10_0A00) {
        // ----11100-01--------101--0-0----
        Some(ArmInstId::VNMLS_fp)
    } else if matches_arm(instr, 0x0FB0_0E50, 0x0E10_0A40) {
        // ----11100-01--------101--1-0----
        Some(ArmInstId::VNMLA_fp)
    } else if matches_arm(instr, 0x0FB0_0E50, 0x0E20_0A00) {
        // ----11100-10--------101--0-0----
        Some(ArmInstId::VMUL_fp)
    } else if matches_arm(instr, 0x0FB0_0E50, 0x0E20_0A40) {
        // ----11100-10--------101--1-0----
        Some(ArmInstId::VNMUL_fp)
    } else if matches_arm(instr, 0x0FB0_0E50, 0x0E30_0A00) {
        // ----11100-11--------101--0-0----
        Some(ArmInstId::VADD_fp)
    } else if matches_arm(instr, 0x0FB0_0E50, 0x0E30_0A40) {
        // ----11100-11--------101--1-0----
        Some(ArmInstId::VSUB_fp)
    } else if matches_arm(instr, 0x0FB0_0E50, 0x0E80_0A00) {
        // ----11101-00--------101--0-0----
        Some(ArmInstId::VDIV_fp)
    } else if matches_arm(instr, 0x0FB0_0E50, 0x0E90_0A00) {
        // ----11101-01--------101--0-0----
        Some(ArmInstId::VFNMS_fp)
    } else if matches_arm(instr, 0x0FB0_0E50, 0x0E90_0A40) {
        // ----11101-01--------101--1-0----
        Some(ArmInstId::VFNMA_fp)
    } else if matches_arm(instr, 0x0FB0_0E50, 0x0EA0_0A00) {
        // ----11101-10--------101--0-0----
        Some(ArmInstId::VFMA_fp)
    } else if matches_arm(instr, 0x0FB0_0E50, 0x0EA0_0A40) {
        // ----11101-10--------101--1-0----
        Some(ArmInstId::VFMS_fp)
    } else if matches_arm(instr, 0x0FBF_0ED0, 0x0EB0_0A40) {
        // ----11101-110000----101-01-0----
        Some(ArmInstId::VMOV_fp_reg)
    } else if matches_arm(instr, 0x0FBF_0ED0, 0x0EB0_0AC0) {
        // ----11101-110000----101-11-0----
        Some(ArmInstId::VABS_fp)
    } else if matches_arm(instr, 0x0FBF_0ED0, 0x0EB1_0A40) {
        // ----11101-110001----101-01-0----
        Some(ArmInstId::VNEG_fp)
    } else if matches_arm(instr, 0x0FBF_0ED0, 0x0EB1_0AC0) {
        // ----11101-110001----101-11-0----
        Some(ArmInstId::VSQRT_fp)
    } else if matches_arm(instr, 0x0FBF_0E50, 0x0EB4_0A40) {
        // ----11101-110100----101--1-0----
        Some(ArmInstId::VCMP_fp)
    } else if matches_arm(instr, 0x0FBF_0E7F, 0x0EB5_0A40) {
        // ----11101-110101----101--1000000
        Some(ArmInstId::VCMP_zero_fp)
    } else if matches_arm(instr, 0x0FBF_0ED0, 0x0EB7_0AC0) {
        // ----11101-110111----101-11-0----
        Some(ArmInstId::VCVT_f_to_f)
    } else if matches_arm(instr, 0x0FBF_0E50, 0x0EB8_0A40) {
        // ----11101-111000----101--1-0----
        Some(ArmInstId::VCVT_from_int)
    } else if matches_arm(instr, 0x0FBF_0E50, 0x0EBC_0A40) {
        // ----11101-111100----101--1-0----
        Some(ArmInstId::VCVT_to_u32)
    } else if matches_arm(instr, 0x0FBF_0E50, 0x0EBD_0A40) {
        // ----11101-111101----101--1-0----
        Some(ArmInstId::VCVT_to_s32)
    } else if matches_arm(instr, 0x0FB0_0EF0, 0x0EB0_0A00) {
        // ----11101-11--------101-0000----
        Some(ArmInstId::VMOV_fp_imm)
    } else if matches_arm(instr, 0x0FF0_0F7F, 0x0E00_0B10) {
        // ----11100000--------1011-0010000
        Some(ArmInstId::VMOV_u32_f64)
    } else if matches_arm(instr, 0x0FF0_0F7F, 0x0E10_0B10) {
        // ----11100001--------1011-0010000
        Some(ArmInstId::VMOV_f64_u32)
    } else if matches_arm(instr, 0x0FF0_0F7F, 0x0E00_0A10) {
        // ----11100000--------1010-0010000
        Some(ArmInstId::VMOV_u32_f32)
    } else if matches_arm(instr, 0x0FF0_0F7F, 0x0E10_0A10) {
        // ----11100001--------1010-0010000
        Some(ArmInstId::VMOV_f32_u32)
    } else if matches_arm(instr, 0x0FD0_0F7F, 0x0E00_0B10) {
        // ----111000-0--------1011-0010000
        Some(ArmInstId::VMOV_from_i32)
    } else if matches_arm(instr, 0x0FD0_0F7F, 0x0E10_0B10) {
        // ----111000-1--------1011-0010000
        Some(ArmInstId::VMOV_to_i32)
    } else if matches_arm(instr, 0x0F90_0F5F, 0x0E80_0B10) {
        // ----11101--0--------1011-0-10000
        Some(ArmInstId::VFP_VDUP)
    } else {
        None
    }
}

/// The floating-point instruction that a word encodes, if any.
pub fn decode_arm_vfp_coproc(instr: u32) -> (r: Option<ArmInstId>)
    ensures
        r == vfp_encoding(instr),
{
    let coproc: u32 = (instr >> 8) & 0xF;
    if coproc != 0b1010 && coproc != 0b1011 {
        return None;
    }
    if matches_arm(instr, 0x0FF0_0FD0, 0x0C40_0A10) {
        return Some(ArmInstId::VMOV_2u32_2f32);
    }
    if matches_arm(instr, 0x0FF0_0FD0, 0x0C50_0A10) {
        return Some(ArmInstId::VMOV_2f32_2u32);
    }
    if matches_arm(instr, 0x0FF0_0FD0, 0x0C40_0B10) {
        return Some(ArmInstId::VMOV_2u32_f64);
    }
    if matches_arm(instr, 0x0FF0_0FD0, 0x0C50_0B10) {
        return Some(ArmInstId::VMOV_f64_2u32);
    }
    if matches_arm(instr, 0x0FFF_0FFF, 0x0EE1_0A10) {
        return Some(ArmInstId::VMSR);
    }
    if matches_arm(instr, 0x0FFF_0FFF, 0x0EF1_0A10) {
        return Some(ArmInstId::VMRS);
    }
    if matches_arm(instr, 0x0FB0_0E50, 0x0E00_0A00) {
        return Some(ArmInstId::VMLA_fp);
    }
    if matches_arm(instr, 0x0FB0_0E50, 0x0E00_0A40) {
        return Some(ArmInstId::VMLS_fp);
    }
    if matches_arm(instr, 0x0FB0_0E50, 0x0E10_0A00) {
        return Some(ArmInstId::VNMLS_fp);
    }
    if matches_arm(instr, 0x0FB0_0E50, 0x0E10_0A40) {
        return Some(ArmInstId::VNMLA_fp);
    }
    if matches_arm(instr, 0x0FB0_0E50, 0x0E20_0A00) {
        return Some(ArmInstId::VMUL_fp);
    }
    if matches_arm(instr, 0x0FB0_0E50, 0x0E20_0A40) {
        return Some(ArmInstId::VNMUL_fp);
    }
    if matches_arm(instr, 0x0FB0_0E50, 0x0E30_0A00) {
        return Some(ArmInstId::VADD_fp);
    }
    if matches_arm(instr, 0x0FB0_0E50, 0x0E30_0A40) {
        return Some(ArmInstId::VSUB_fp);
    }
    if matches_arm(instr, 0x0FB0_0E50, 0x0E80_0A00) {
        return Some(ArmInstId::VDIV_fp);
    }
    if matches_arm(instr, 0x0FB0_0E50, 0x0E90_0A00) {
        return Some(ArmInstId::VFNMS_fp);
    }
    if matches_arm(instr, 0x0FB0_0E50, 0x0E90_0A40) {
        return Some(ArmInstId::VFNMA_fp);
    }
    if matches_arm(instr, 0x0FB0_0E50, 0x0EA0_0A00) {
        return Some(ArmInstId::VFMA_fp);
    }
    if matches_arm(instr, 0x0FB0_0E50, 0x0EA0_0A40) {
        return Some(ArmInstId::VFMS_fp);
    }
    if matches_arm(instr, 0x0FBF_0ED0, 0x0EB0_0A40) {
        return Some(ArmInstId::VMOV_fp_reg);
    }
    if matches_arm(instr, 0x0FBF_0ED0, 0x0EB0_0AC0) {
        return Some(ArmInstId::VABS_fp);
    }
    if matches_arm(instr, 0x0FBF_0ED0, 0x0EB1_0A40) {
        return Some(ArmInstId::VNEG_fp);
    }
    if matches_arm(instr, 0x0FBF_0ED0, 0x0EB1_0AC0) {
        return Some(ArmInstId::VSQRT_fp);
    }
    if matches_arm(instr, 0x0FBF_0E50, 0x0EB4_0A40) {
        return Some(ArmInstId::VCMP_fp);
    }
    if matches_arm(instr, 0x0FBF_0E7F, 0x0EB5_0A40) {
        return Some(ArmInstId::VCMP_zero_fp);
    }
    if matches_arm(instr, 0x0FBF_0ED0, 0x0EB7_0AC0) {
        return Some(ArmInstId::VCVT_f_to_f);
    }
    if matches_arm(instr, 0x0FBF_0E50, 0x0EB8_0A40) {
        return Some(ArmInstId::VCVT_from_int);
    }
    if matches_arm(instr, 0x0FBF_0E50, 0x0EBC_0A40) {
        return Some(ArmInstId::VCVT_to_u32);
    }
    if matches_arm(instr, 0x0FBF_0E50, 0x0EBD_0A40) {
        return Some(ArmInstId::VCVT_to_s32);
    }
    if matches_arm(instr, 0x0FB0_0EF0, 0x0EB0_0A00) {
        return Some(ArmInstId::VMOV_fp_imm);
    }
    if matches_arm(instr, 0x0FF0_0F7F, 0x0E00_0B10) {
        return Some(ArmInstId::VMOV_u32_f64);
    }
    if matches_arm(instr, 0x0FF0_0F7F, 0x0E10_0B10) {
        return Some(ArmInstId::VMOV_f64_u32);
    }
    if matches_arm(instr, 0x0FF0_0F7F, 0x0E00_0A10) {
        return Some(ArmInstId::VMOV_u32_f32);
    }
    if matches_arm(instr, 0x0FF0_0F7F, 0x0E10_0A10) {
        return Some(ArmInstId::VMOV_f32_u32);
    }
    if matches_arm(instr, 0x0FD0_0F7F, 0x0E00_0B10) {
        return Some(ArmInstId::VMOV_from_i32);
    }
    if matches_arm(instr, 0x0FD0_0F7F, 0x0E10_0B10) {
        return Some(ArmInstId::VMOV_to_i32);
    }
    if matches_arm(instr, 0x0F90_0F5F, 0x0E80_0B10) {
        return Some(ArmInstId::VFP_VDUP);
    }
    None
}

/// Loads and stores of a coprocessor, and double-word register transfers.
/// Those of coprocessors 10 and 11 are floating-point instructions.
pub open spec fn coproc_ls_encoding(instr: u32) -> ArmInstId {
    let load = instr & 0x10_0000 != 0;
    let coproc = (instr >> 8) & 0xF;
    if vfp_encoding(instr) is Some {
        vfp_encoding(instr)->0
    } else if instr & 0x0FE0_0000 == 0x0C40_0000 {
        if load { ArmInstId::MRRC } else { ArmInstId::MCRR }
    } else if coproc == 0b1010 || coproc == 0b1011 {
        vfp_ls_encoding(instr)
    } else {
        if load { ArmInstId::LDC } else { ArmInstId::STC }
    }
}

/// Floating-point loads and stores. Pushing and popping on the stack comes
/// first, then single registers (`P` without `W`), then the reserved mode in
/// which `P`, `U` and `W` are all clear, then several registers.
pub open spec fn vfp_ls_encoding(instr: u32) -> ArmInstId {
    let p = (instr >> 24) & 1;
    let u = (instr >> 23) & 1;
    let w = (instr >> 21) & 1;
    let load = (instr >> 20) & 1;
    let rn = (instr >> 16) & 0xF;
    if p == 1 && u == 0 && w == 1 && load == 0 && rn == 13 {
        ArmInstId::VPUSH
    } else if p == 0 && u == 1 && w == 1 && load == 1 && rn == 13 {
        ArmInstId::VPOP
    } else if p == 1 && w == 0 {
        if load == 1 { ArmInstId::VLDR_fp } else { ArmInstId::VSTR_fp }
    } else if p == 0 && u == 0 && w == 0 {
        ArmInstId::UDF
    } else {
        if load == 1 { ArmInstId::VLDM } else { ArmInstId::VSTM }
    }
}

fn decode_arm_coproc_ls(instr: u32) -> (r: ArmInstId)
    ensures
        r == coproc_ls_encoding(instr),
{
    if let Some(vfp) = decode_arm_vfp_coproc(instr) {
        return vfp;
    }
    if instr & 0x0FE0_0000 == 0x0C40_0000 {
        return if instr & 0x10_0000 != 0 { ArmInstId::MRRC } else { ArmInstId::MCRR };
    }
    let coproc: u32 = (instr >> 8) & 0xF;
    if coproc == 0b1010 || coproc == 0b1011 {
        let p: u32 = (instr >> 24) & 1;
        let u: u32 = (instr >> 23) & 1;
        let w: u32 = (instr >> 21) & 1;
        let load: u32 = (instr >> 20) & 1;
        let rn: u32 = (instr >> 16) & 0xF;
        if p == 1 && u == 0 && w == 1 && load == 0 && rn == 13 {
            return ArmInstId::VPUSH;
        }
        if p == 0 && u == 1 && w == 1 && load == 1 && rn == 13 {
            return ArmInstId::VPOP;
        }
        if p == 1 && w == 0 {
            return if load == 1 { ArmInstId::VLDR_fp } else { ArmInstId::VSTR_fp };
        }
        if p == 0 && u == 0 && w == 0 {
            return ArmInstId::UDF;
        }
        return if load == 1 { ArmInstId::VLDM } else { ArmInstId::VSTM };
    }
    if instr & 0x10_0000 != 0 {
        ArmInstId::LDC
    } else {
        ArmInstId::STC
    }
}

/// The immediate that an eight-bit value and a rotation encode: the value
/// turned right by twice the rotation.
pub open spec fn expanded_imm(rotate: u32, imm8: u32) -> u32 {
    rotated_right(imm8 & 0xFF, ((rotate & 0xF) * 2) as u32)
}

/// Expands an immediate operand.
pub fn arm_expand_imm(rotate: u32, imm8: u32) -> (r: u32)
    ensures
        r == expanded_imm(rotate, imm8),
{
    let unrotated: u32 = imm8 & 0xFF;
    let shift: u32 = (rotate & 0xF) * 2;
    rotate_right(unrotated, shift)
}

/// Expands an immediate operand and gives the carry of the rotation: the top
/// bit of the result, or `carry_in` if nothing is turned.
pub fn arm_expand_imm_c(rotate: u32, imm8: u32, carry_in: bool) -> (r: (u32, bool))
    ensures
        r.0 == expanded_imm(rotate, imm8),
        r.1 == if rotate & 0xF == 0 {
            carry_in
        } else {
            r.0 & 0x8000_0000 != 0
        },
{
    let unrotated: u32 = imm8 & 0xFF;
    let shift: u32 = (rotate & 0xF) * 2;
    if shift == 0 {
        (unrotated, carry_in)
    } else {
        let result: u32 = rotate_right(unrotated, shift);
        let carry: bool = result & 0x8000_0000 != 0;
        (result, carry)
    }
}

/// The low `bits` bits of `value` as a signed number.
pub fn sign_extend(value: u32, bits: u32) -> (r: u32)
    requires
        1 <= bits <= 32,
    ensures
        r == sign_extended(value, bits),
{
    let low: u32 = 0xFFFF_FFFFu32 >> (32 - bits);
    if (value >> (bits - 1)) & 1 == 1 {
        value | !low
    } else {
        value & low
    }
}

/// A shift of a vector by an immediate always selects a lane size: encodings
/// without one belong to vector moves of an immediate, which come first.
pub proof fn decoded_shift_selects_a_lane(instr: u32)
    requires
        match arm_encoding(instr) {
            ArmInstId::ASIMD_SHR | ArmInstId::ASIMD_SRA | ArmInstId::ASIMD_VSHRN
            | ArmInstId::ASIMD_VSHL_imm | ArmInstId::ASIMD_VSLI | ArmInstId::ASIMD_VSRI
            | ArmInstId::ASIMD_VQSHL_imm => true,
            _ => false,
        },
    ensures
        (instr >> 7) & 1 != 0 || (instr >> 16) & 0x3F >= 8,
{
    assert(instr & 0xFE80_0010 == 0xF280_0010 && instr & 0xFEB8_0090 != 0xF280_0010 ==> (instr >> 7)
        & 1 != 0 || (instr >> 16) & 0x3F >= 8) by (bit_vector);
    assert(instr & 0xFE80_0F10 == 0xF280_0010 || instr & 0xFE80_0F10 == 0xF280_0110 || instr
        & 0xFF80_0FD0 == 0xF280_0810 || instr & 0xFF80_0F10 == 0xF280_0510 || instr & 0xFF80_0F10
        == 0xF380_0510 || instr & 0xFF80_0F10 == 0xF380_0410 || instr & 0xFE80_0E10 == 0xF280_0610
        ==> instr & 0xFE80_0010 == 0xF280_0010) by (bit_vector);
}

} // verus!
