use rdynarmic::frontend::a32::decoder::{ArmInstId, arm_expand_imm, decode_arm, sign_extend};
use rdynarmic::frontend::a32::types::Reg;
use rdynarmic::ir::cond::Cond;

#[test]
fn test_arm_expand_imm() {
    assert_eq!(arm_expand_imm(0, 0xFF), 0xFF);
    assert_eq!(arm_expand_imm(1, 0xFF), 0xFF << 30 | 0xFF >> 2);
    assert_eq!(arm_expand_imm(4, 0xFF), 0xFF00_0000);
}

#[test]
fn test_sign_extend() {
    assert_eq!(sign_extend(0x80, 8), 0xFFFF_FF80);
    assert_eq!(sign_extend(0x7F, 8), 0x7F);
    assert_eq!(sign_extend(0x800000, 24), 0xFF80_0000);
}

#[test]
fn test_decode_add_imm() {
    // ADD R1, R2, #5 (cond=AL, S=0)
    let instr = 0xE282_1005; // cccc 0010 100S nnnn dddd rrrr vvvvvvvv
    let dec = decode_arm(instr);
    assert_eq!(dec.id, ArmInstId::ADD_imm);
    assert_eq!(dec.rn(), Reg::R2);
    assert_eq!(dec.rd(), Reg::R1);
    assert_eq!(dec.imm8(), 5);
}

#[test]
fn test_decode_mov_reg() {
    // MOV R0, R1 (cond=AL)
    let instr = 0xE1A0_0001; // cccc 0001 101S 0000 dddd 00000 000 mmmm
    let dec = decode_arm(instr);
    assert_eq!(dec.id, ArmInstId::MOV_reg);
    assert_eq!(dec.rd(), Reg::R0);
    assert_eq!(dec.rm(), Reg::R1);
}

#[test]
fn test_decode_b() {
    // B +8 (AL)
    let instr = 0xEA00_0000;
    let dec = decode_arm(instr);
    assert_eq!(dec.id, ArmInstId::B);
}

#[test]
fn test_decode_bl() {
    // BL +0 (AL)
    let instr = 0xEB00_0000;
    let dec = decode_arm(instr);
    assert_eq!(dec.id, ArmInstId::BL);
}

#[test]
fn test_decode_ldr_imm() {
    // LDR R0, [R1, #4]
    let instr = 0xE591_0004;
    let dec = decode_arm(instr);
    assert_eq!(dec.id, ArmInstId::LDR_imm);
}

#[test]
fn test_decode_str_imm() {
    // STR R0, [R1, #4]
    let instr = 0xE581_0004;
    let dec = decode_arm(instr);
    assert_eq!(dec.id, ArmInstId::STR_imm);
}

#[test]
fn test_decode_ldm() {
    // LDMIA R13!, {R0-R3}
    let instr = 0xE8BD_000F;
    let dec = decode_arm(instr);
    assert_eq!(dec.id, ArmInstId::LDM);
}

#[test]
fn test_decode_svc() {
    // SVC #0x21
    let instr = 0xEF00_0021;
    let dec = decode_arm(instr);
    assert_eq!(dec.id, ArmInstId::SVC);
}

#[test]
fn test_decode_bx() {
    // BX LR
    let instr = 0xE12F_FF1E;
    let dec = decode_arm(instr);
    assert_eq!(dec.id, ArmInstId::BX);
}

#[test]
fn test_decode_pld_immediate_unconditional_space() {
    let dec = decode_arm(0xF595_F100);
    assert_eq!(dec.id, ArmInstId::PLD_imm);
}

#[test]
fn test_decode_pld_register_unconditional_space() {
    let dec = decode_arm(0xF795_F000);
    assert_eq!(dec.id, ArmInstId::PLD_reg);
}

#[test]
fn test_decode_arm_hints_match_upstream_priority() {
    for (raw, expected) in [
        (0xE320_F000, ArmInstId::NOP),
        (0x1320_F001, ArmInstId::YIELD),
        (0x2320_F002, ArmInstId::WFE),
        (0x3320_F003, ArmInstId::WFI),
        (0x4320_F004, ArmInstId::SEV),
        (0x5320_F005, ArmInstId::SEVL),
        (0xE320_F00F, ArmInstId::NOP),
    ] {
        assert_eq!(decode_arm(raw).id, expected);
    }
}

#[test]
fn test_decode_mcr() {
    // MCR p15, 0, R0, c13, c0, 2 (write TPIDR_UPRW)
    // cond=AL(0xE) 1110 opc1=000 L=0 CRn=1101 Rt=0000 cp=1111 opc2=010 1 CRm=0000
    let instr = 0xEE0D_0F50;
    let dec = decode_arm(instr);
    assert_eq!(dec.id, ArmInstId::MCR);
    assert_eq!(dec.coproc_no(), 15);
    assert_eq!(dec.coproc_opc1(), 0);
    assert_eq!(dec.crn(), 13);
    assert_eq!(dec.crm(), 0);
    assert_eq!(dec.coproc_opc2(), 2);
    assert_eq!(dec.rt(), Reg::R0);
}

#[test]
fn test_decode_mrc() {
    // MRC p15, 0, R0, c13, c0, 3 (read TPIDR_URO)
    // cond=AL(0xE) 1110 opc1=000 L=1 CRn=1101 Rt=0000 cp=1111 opc2=011 1 CRm=0000
    let instr = 0xEE1D_0F70;
    let dec = decode_arm(instr);
    assert_eq!(dec.id, ArmInstId::MRC);
    assert_eq!(dec.coproc_no(), 15);
    assert_eq!(dec.coproc_opc1(), 0);
    assert_eq!(dec.crn(), 13);
    assert_eq!(dec.crm(), 0);
    assert_eq!(dec.coproc_opc2(), 3);
    assert_eq!(dec.rt(), Reg::R0);
}

#[test]
fn test_decode_mrrc() {
    // MRRC p15, 0, R0, R1, c14 (read CNTPCT)
    // cond=AL(0xE) 1100 0101 Rt2=0001 Rt=0000 cp=1111 opc=0000 CRm=1110
    let instr = 0xEC51_0F0E;
    let dec = decode_arm(instr);
    assert_eq!(dec.id, ArmInstId::MRRC);
    assert_eq!(dec.coproc_no(), 15);
    assert_eq!(dec.rt(), Reg::R0);
    assert_eq!(dec.rt2(), Reg::R1);
    assert_eq!(dec.mrrc_opc(), 0);
    assert_eq!(dec.crm(), 14);
}

#[test]
fn test_decode_mcrr() {
    // MCRR p15, 0, R2, R3, c14
    // cond=AL(0xE) 1100 0100 Rt2=0011 Rt=0010 cp=1111 opc=0000 CRm=1110
    let instr = 0xEC43_2F0E;
    let dec = decode_arm(instr);
    assert_eq!(dec.id, ArmInstId::MCRR);
    assert_eq!(dec.coproc_no(), 15);
    assert_eq!(dec.rt(), Reg::R2);
    assert_eq!(dec.rt2(), Reg::R3);
    assert_eq!(dec.mrrc_opc(), 0);
    assert_eq!(dec.crm(), 14);
}

#[test]
fn test_decode_generic_coprocessor_load_store() {
    let ldc = decode_arm(0xEDB4_7F22);
    assert_eq!(ldc.id, ArmInstId::LDC);
    assert_eq!(ldc.rn(), Reg::R4);
    assert_eq!(ldc.coproc_no(), 15);
    assert_eq!(ldc.rd(), Reg::R7);
    assert_eq!(ldc.imm8(), 0x22);

    let stc = decode_arm(0xED24_7F22);
    assert_eq!(stc.id, ArmInstId::STC);
}

#[test]
fn test_decode_unconditional_coprocessor_two_forms() {
    assert_eq!(decode_arm(0xFE64_3F51).id, ArmInstId::MCR);
    assert_eq!(decode_arm(0xFE74_3F51).id, ArmInstId::MRC);
    assert_eq!(decode_arm(0xFEF4_3F41).id, ArmInstId::CDP);
    assert_eq!(decode_arm(0xFC42_3F1E).id, ArmInstId::MCRR);
    assert_eq!(decode_arm(0xFC52_3F1E).id, ArmInstId::MRRC);
    assert_eq!(decode_arm(0xFDB4_7F22).id, ArmInstId::LDC);
    assert_eq!(decode_arm(0xFD24_7F22).id, ArmInstId::STC);
    assert_eq!(decode_arm(0xFC42_3A1E).id, ArmInstId::MCRR);
    assert_eq!(decode_arm(0xFC52_3A1E).id, ArmInstId::MRRC);
}

#[test]
fn test_vfp_specific_patterns_precede_generic_coprocessor_patterns() {
    assert_eq!(decode_arm(0xEC42_3A1E).id, ArmInstId::VMOV_2u32_2f32);
    assert_eq!(decode_arm(0xEC52_3A1E).id, ArmInstId::VMOV_2f32_2u32);
    assert_eq!(decode_arm(0xEC42_3B1E).id, ArmInstId::VMOV_2u32_f64);
    assert_eq!(decode_arm(0xEC52_3B1E).id, ArmInstId::VMOV_f64_2u32);
    assert_eq!(decode_arm(0xEEE1_0A10).id, ArmInstId::VMSR);
    assert_eq!(decode_arm(0xEEF1_FA10).id, ArmInstId::VMRS);
}

#[test]
fn test_decode_media_bfc_crash_opcode() {
    let dec = decode_arm(0xE7DF_2F9F);
    assert_eq!(dec.id, ArmInstId::BFC);
    assert_eq!(dec.rd(), Reg::R2);
    assert_eq!(dec.rn(), Reg::R15);
}

#[test]
fn test_decode_media_ubfx() {
    let dec = decode_arm(0xE7E1_2053);
    assert_eq!(dec.id, ArmInstId::UBFX);
}

#[test]
fn test_decode_media_uxtb_crash_opcode() {
    let dec = decode_arm(0xE6EF_1071);
    assert_eq!(dec.id, ArmInstId::UXTB);
    assert_eq!(dec.rd(), Reg::R1);
    assert_eq!(dec.rm(), Reg::R1);
}

#[test]
fn test_decode_asimd_vmov_imm_crash_opcode() {
    let dec = decode_arm(0xF2C0_0050);
    assert_eq!(dec.id, ArmInstId::ASIMD_VMOV_imm);
}

#[test]
fn test_decode_vfp_vmov_imm_crash_opcode() {
    let dec = decode_arm(0xEEB7_1A00);
    assert_eq!(dec.id, ArmInstId::VMOV_fp_imm);
}

#[test]
fn test_decode_vfp_vmov_f32_u32_crash_opcode() {
    let dec = decode_arm(0xEE10_1A10);
    assert_eq!(dec.id, ArmInstId::VMOV_f32_u32);
}

#[test]
fn test_decode_vfp_vmov_u32_f32() {
    let dec = decode_arm(0xEE00_1A10);
    assert_eq!(dec.id, ArmInstId::VMOV_u32_f32);
}

#[test]
fn test_decode_vfp_vcvt_f64_f32_crash_opcode() {
    let dec = decode_arm(0xEEF7_0AC0);
    assert_eq!(dec.id, ArmInstId::VCVT_f_to_f);
}

#[test]
fn test_decode_vfp_vcvt_f32_f64_crash_opcode() {
    let dec = decode_arm(0xEEB7_0BE0);
    assert_eq!(dec.id, ArmInstId::VCVT_f_to_f);
}

#[test]
fn test_decode_vfp_vcvt_f64_s32_crash_opcode() {
    let dec = decode_arm(0xEEB8_1AC1);
    assert_eq!(dec.id, ArmInstId::VCVT_from_int);
}

#[test]
fn test_decode_vfp_vcvt_f64_s32_crash_opcode_pair() {
    let dec = decode_arm(0xEEB8_0AC0);
    assert_eq!(dec.id, ArmInstId::VCVT_from_int);
}

#[test]
fn test_decode_vfp_vcmpe_f32_crash_opcode() {
    let dec = decode_arm(0xEEB4_0AC0);
    assert_eq!(dec.id, ArmInstId::VCMP_fp);
}

#[test]
fn test_decode_vfp_vcmpe_zero_f32_crash_opcode() {
    let dec = decode_arm(0xEEB5_0AC0);
    assert_eq!(dec.id, ArmInstId::VCMP_zero_fp);
}

#[test]
fn test_decode_ldrex() {
    // LDREX R3, [R4]: cond=AL 0001 1001 Rn=0100 Rt=0011 1111 1001 1111
    let dec = decode_arm(0xE194_3F9F);
    assert_eq!(dec.id, ArmInstId::LDREX);
}

#[test]
fn test_decode_strex() {
    // STREX R0, R5, [R4]: cond=AL 0001 1000 Rn=0100 Rd=0000 1111 1001 Rm=0101
    let dec = decode_arm(0xE184_0F95);
    assert_eq!(dec.id, ArmInstId::STREX);
}

#[test]
fn test_decode_ldaex_regression_crash_opcode() {
    let dec = decode_arm(0xE194_1E9F);
    assert_eq!(dec.id, ArmInstId::LDAEX);
}

#[test]
fn test_decode_stlex_regression_crash_opcode() {
    let dec = decode_arm(0xE184_0E95);
    assert_eq!(dec.id, ArmInstId::STLEX);
}

#[test]
fn test_decode_asimd_vst_multiple_crash_opcode() {
    let dec = decode_arm(0xF443_0A8D);
    assert_eq!(dec.id, ArmInstId::V8_VST_multiple);
}

#[test]
fn test_decode_asimd_vld_all_lanes_regression_wedge_opcode() {
    let dec = decode_arm(0xF4E3_2CBF);
    assert_eq!(dec.id, ArmInstId::V8_VLD_all_lanes);
}

#[test]
fn test_decode_asimd_load_store_unallocated_maps_to_udf() {
    assert_eq!(decode_arm(0xF400_0B00).id, ArmInstId::UDF);
    assert_eq!(decode_arm(0xF420_0B00).id, ArmInstId::UDF);
    // multiple, type[3:2] == 0b11 (bits[11:10] == 0b11):
    assert_eq!(decode_arm(0xF400_0C00).id, ArmInstId::UDF);
    assert_eq!(decode_arm(0xF420_0F00).id, ArmInstId::UDF);
    // single store, sz == 0b11:
    assert_eq!(decode_arm(0xF480_0C00).id, ArmInstId::UDF);
    // Valid forms remain unaffected:
    assert_eq!(decode_arm(0xF420_0700).id, ArmInstId::V8_VLD_multiple); // type=0111 (VLD1)
    assert_eq!(decode_arm(0xF4A0_0C00).id, ArmInstId::V8_VLD_all_lanes); // bit21=1, [11:10]=11
}

#[test]
fn test_decode_vfp_undefined_vstm_vldm_maps_to_udf() {
    assert_eq!(decode_arm(0xEC00_0A02).id, ArmInstId::UDF); // AL, z=0
    assert_eq!(decode_arm(0x1C00_0A02).id, ArmInstId::UDF); // cond=NE, z=0
    assert_eq!(decode_arm(0xEC00_0B04).id, ArmInstId::UDF); // AL, z=1 (double)
    assert_eq!(decode_arm(0xEC80_0A02).id, ArmInstId::VSTM); // P=0,U=1,W=0
    assert_eq!(decode_arm(0xED00_0A02).id, ArmInstId::VSTR_fp); // P=1,W=0
}

#[test]
fn test_decode_asimd_load_store_single_structure_routing() {
    assert_eq!(decode_arm(0xF400_0000).id, ArmInstId::V8_VST_multiple); // bit23=0, L=0
    assert_eq!(decode_arm(0xF420_0000).id, ArmInstId::V8_VLD_multiple); // bit23=0, L=1
    assert_eq!(decode_arm(0xF480_0000).id, ArmInstId::V8_VST_single); // bit23=1, L=0
    assert_eq!(decode_arm(0xF4A0_0000).id, ArmInstId::V8_VLD_single); // bit23=1, L=1, [11:10]!=0b11
}

#[test]
fn test_decode_smlabb_crash_opcode() {
    let dec = decode_arm(0xE103_9A8E);
    assert_eq!(dec.id, ArmInstId::SMLAxy);
}

#[test]
fn test_decode_smmul_crash_opcode() {
    let dec = decode_arm(0xE750_F210);
    assert_eq!(dec.id, ArmInstId::SMMUL);
}

#[test]
fn test_decode_vfp_vneg_f32() {
    let dec = decode_arm(0xEEB1_0A40);
    assert_eq!(dec.cond(), Cond::AL);
    assert_eq!(dec.id, ArmInstId::VNEG_fp);
}

#[test]
fn test_decode_vfp_vdiv_f32() {
    let dec = decode_arm(0xEE81_0A00);
    assert_eq!(dec.cond(), Cond::AL);
    assert_eq!(dec.id, ArmInstId::VDIV_fp);
}

#[test]
fn test_decode_vfp_vadd_f32() {
    let dec = decode_arm(0xEE30_0A00);
    assert_eq!(dec.cond(), Cond::AL);
    assert_eq!(dec.id, ArmInstId::VADD_fp);
}

#[test]
fn test_decode_vfp_vadd_f64_n_bit_set_crash_opcode() {
    let dec = decode_arm(0xEE30_0BA1);
    assert_eq!(dec.cond(), Cond::AL);
    assert_eq!(dec.id, ArmInstId::VADD_fp);
}

#[test]
fn test_decode_vfp_vmla_f32() {
    let dec = decode_arm(0xEE00_0A00);
    assert_eq!(dec.cond(), Cond::AL);
    assert_eq!(dec.id, ArmInstId::VMLA_fp);
}

fn assert_decodes_to_specific_vfp(instr: u32, expected: ArmInstId) {
    let dec = decode_arm(instr);
    assert_eq!(dec.cond(), Cond::AL);
    assert_eq!(dec.id, expected);
    assert_ne!(dec.id, ArmInstId::CDP, "VFP opcode fell through to CDP");
    assert_ne!(dec.id, ArmInstId::MCR, "VFP opcode fell through to MCR");
    assert_ne!(dec.id, ArmInstId::MRC, "VFP opcode fell through to MRC");
}

#[test]
fn test_decode_vfp_v4_fused_mac_f32() {
    assert_decodes_to_specific_vfp(0xEEA0_0A00, ArmInstId::VFMA_fp);
    assert_decodes_to_specific_vfp(0xEEA0_0A40, ArmInstId::VFMS_fp);
    assert_decodes_to_specific_vfp(0xEE90_0A40, ArmInstId::VFNMA_fp);
    assert_decodes_to_specific_vfp(0xEE90_0A00, ArmInstId::VFNMS_fp);
}

#[test]
fn test_decode_vfp_v4_fused_mac_f64() {
    assert_decodes_to_specific_vfp(0xEEA0_0B00, ArmInstId::VFMA_fp);
    assert_decodes_to_specific_vfp(0xEEA0_0B40, ArmInstId::VFMS_fp);
    assert_decodes_to_specific_vfp(0xEE90_0B40, ArmInstId::VFNMA_fp);
    assert_decodes_to_specific_vfp(0xEE90_0B00, ArmInstId::VFNMS_fp);
}

#[test]
fn test_decode_vfp_vmaxnm_f32_crash_opcode() {
    let dec = decode_arm(0xFE82_2A01);
    assert_eq!(dec.id, ArmInstId::VMAXNM_fp);
}

#[test]
fn test_decode_vfp_vminnm_f32_crash_opcode() {
    let dec = decode_arm(0xFE82_2A40);
    assert_eq!(dec.id, ArmInstId::VMINNM_fp);
}

#[test]
fn test_decode_vfp_vsel_f32_crash_opcode() {
    let dec = decode_arm(0xFE32_1A01);
    assert_eq!(dec.id, ArmInstId::VSEL_fp);
}

#[test]
fn test_decode_asimd_vmin_f32_crash_opcode() {
    let dec = decode_arm(0xF260_0F01);
    assert_eq!(dec.id, ArmInstId::ASIMD_VMIN_float);
}

#[test]
fn test_decode_asimd_vmul_scalar_crash_opcode() {
    let dec = decode_arm(0xF3E0_29C0);
    assert_eq!(dec.id, ArmInstId::ASIMD_VMUL_scalar);
}

#[test]
fn test_decode_asimd_vcvt_integer_crash_opcode() {
    let dec = decode_arm(0xF3FB_5622);
    assert_eq!(dec.id, ArmInstId::ASIMD_VCVT_integer);
}

#[test]
fn test_decode_asimd_vmls_float_crash_opcode() {
    let dec = decode_arm(0xF262_0DF4);
    assert_eq!(dec.id, ArmInstId::ASIMD_VMLS_float);
}

#[test]
fn test_decode_asimd_vcgt_reg_float_crash_opcode() {
    let dec = decode_arm(0xF360_2EE2);
    assert_eq!(dec.id, ArmInstId::ASIMD_VCGT_reg_float);
}

#[test]
fn test_decode_asimd_vdup_scalar_crash_opcode() {
    let dec = decode_arm(0xF3F4_6C40);
    assert_eq!(dec.id, ArmInstId::ASIMD_VDUP_scalar);
}

#[test]
fn test_decode_asimd_vtbl_regression_opcode() {
    let dec = decode_arm(0xF3F8_19AC);
    assert_eq!(dec.id, ArmInstId::ASIMD_VTBL);
}

#[test]
fn test_decode_asimd_vtbx() {
    let dec = decode_arm(0xF3F8_19EC);
    assert_eq!(dec.id, ArmInstId::ASIMD_VTBX);
}

#[test]
fn test_decode_asimd_vzip_regression_opcodes() {
    assert_eq!(decode_arm(0xF3FA_21E0).id, ArmInstId::ASIMD_VZIP);
    assert_eq!(decode_arm(0xF3FA_41E6).id, ArmInstId::ASIMD_VZIP);
}

#[test]
fn test_decode_observed_narrowing_instructions() {
    assert_eq!(decode_arm(0xF2E0_3830).id, ArmInstId::ASIMD_VSHRN);
    assert_eq!(decode_arm(0xF3FA_2220).id, ArmInstId::ASIMD_VMOVN);
}

#[test]
fn test_decode_asimd_vrsqrte_regression_opcodes() {
    assert_eq!(decode_arm(0xF3FB_05E2).id, ArmInstId::ASIMD_VRSQRTE);
    assert_eq!(decode_arm(0xF3FB_85E4).id, ArmInstId::ASIMD_VRSQRTE);
    assert_eq!(decode_arm(0xF3FB_E5E6).id, ArmInstId::ASIMD_VRSQRTE);
}

#[test]
fn test_decode_asimd_vrecpe() {
    assert_eq!(decode_arm(0xF3FB_0562).id, ArmInstId::ASIMD_VRECPE);
}

#[test]
fn test_decode_asimd_vceq_zero_regression_opcodes() {
    assert_eq!(decode_arm(0xF3B9_6562).id, ArmInstId::ASIMD_VCEQ_zero);
    assert_eq!(decode_arm(0xF3B9_4564).id, ArmInstId::ASIMD_VCEQ_zero);
    assert_eq!(decode_arm(0xF3B9_2566).id, ArmInstId::ASIMD_VCEQ_zero);
}

#[test]
fn test_decode_vfp_vmov_from_i32_crash_opcode() {
    let dec = decode_arm(0xEE22_4B90);
    assert_eq!(dec.id, ArmInstId::VMOV_from_i32);
}

#[test]
fn test_decode_vfp_vmov_from_i32_second_crash_opcode() {
    let dec = decode_arm(0xEE23_0B90);
    assert_eq!(dec.id, ArmInstId::VMOV_from_i32);
}

#[test]
fn test_decode_vfp_vdup_crash_opcode() {
    let dec = decode_arm(0xEEA0_4B90);
    assert_eq!(dec.id, ArmInstId::VFP_VDUP);
}

#[test]
fn test_decode_vfp_vsel_f32_eq_variant() {
    let dec = decode_arm(0xFE01_1A00);
    assert_eq!(dec.id, ArmInstId::VSEL_fp);
}

#[test]
fn test_decode_dmb_ish() {
    let dec = decode_arm(0xF57F_F05B);
    assert_eq!(dec.id, ArmInstId::DMB);
}

#[test]
fn test_decode_ldrexb() {
    // LDREXB R0, [R1]
    let dec = decode_arm(0xE1D1_0F9F);
    assert_eq!(dec.id, ArmInstId::LDREXB);
}

#[test]
fn test_decode_strexb() {
    // STREXB R0, R2, [R1]
    let dec = decode_arm(0xE1C1_0F92);
    assert_eq!(dec.id, ArmInstId::STREXB);
}

#[test]
fn test_decode_stlb() {
    // STLB R1, [R7]
    let dec = decode_arm(0xE1C7_FC91);
    assert_eq!(dec.id, ArmInstId::STLB);
}

#[test]
fn test_decode_stlh() {
    // STLH R1, [R0]
    let dec = decode_arm(0xE1E0_FC91);
    assert_eq!(dec.id, ArmInstId::STLH);
}

#[test]
fn test_decode_swp() {
    // SWP R1, R2, [R3]: cond=AL 0001 0000 Rn=0011 Rt=0001 0000 1001 Rt2=0010
    let dec = decode_arm(0xE103_1092);
    assert_eq!(dec.id, ArmInstId::SWP);
}

#[test]
fn test_decode_swpb() {
    // SWPB R1, R2, [R3]: cond=AL 0001 0100 Rn=0011 Rt=0001 0000 1001 Rt2=0010
    let dec = decode_arm(0xE143_1092);
    assert_eq!(dec.id, ArmInstId::SWPB);
}

#[test]
fn test_umull_not_confused_with_ldrex() {
    // UMULL R4, R3, R2, R1: cond=AL 0000 1000 RdHi=0011 RdLo=0100 Rm=0010 1001 Rn=0001
    // bits[27:24] = 0000, not 0001 — should be UMULL, not LDREX
    let dec = decode_arm(0xE083_4291);
    assert_eq!(dec.id, ArmInstId::UMULL);
}
