use rdynarmic::frontend::a32::decoder_thumb32::{Thumb32InstId, decode_thumb32};
use rdynarmic::frontend::a32::types::Reg;

#[test]
fn test_decode_thumb32_ssat_reserved_maps_to_udf() {
    assert_eq!(decode_thumb32(0xF320, 0x0010).id, Thumb32InstId::UDF);
    // Variable fields (Rn, Rd, sat_imm, and bit23 = the SSAT/USAT selector)
    // do not change the classification:
    assert_eq!(decode_thumb32(0xF32F, 0x0F1F).id, Thumb32InstId::UDF);
    assert_eq!(decode_thumb32(0xF3A0, 0x0010).id, Thumb32InstId::UDF); // bit23=1 (USAT space)
                                                                       // A real SSAT (imm3/shift and bits[7:4] != 0b0001) still decodes as SSAT:
    assert_eq!(decode_thumb32(0xF301, 0x0207).id, Thumb32InstId::SSAT);
}

#[test]
fn test_decode_thumb32_bl() {
    // BL <offset> typical encoding
    // hw1: 1111 0 S imm10
    // hw2: 1 1 J1 1 J2 imm11
    let hw1: u16 = 0xF000; // S=0, imm10=0
    let hw2: u16 = 0xD000; // J1=0, J2=1, imm11=0
    let dec = decode_thumb32(hw1, hw2);
    assert_eq!(dec.id, Thumb32InstId::BL_imm);
}

#[test]
fn test_decode_thumb32_branch_matches_upstream_patterns_and_udf_priority() {
    for (raw, expected) in [
        (0xF000_D000u32, Thumb32InstId::BL_imm),
        (0xF000_C000, Thumb32InstId::BLX_imm),
        (0xF000_9000, Thumb32InstId::B),
        (0xF000_8000, Thumb32InstId::B_cond),
        (0xF7E0_A123, Thumb32InstId::UDF),
        (0xF7F0_A123, Thumb32InstId::UDF),
        (0xF320_0010, Thumb32InstId::UDF),
    ] {
        assert_eq!(
            decode_thumb32((raw >> 16) as u16, raw as u16).id,
            expected,
            "raw={raw:08X}"
        );
    }
}

#[test]
fn test_decode_thumb32_control_matches_upstream_patterns() {
    let variable_bits = 0x001f_0f0fu32;
    for (mask, expected, id) in [
        (0xffe0_f0ff, 0xf380_8000, Thumb32InstId::MSR_reg),
        (0xffff_ffff, 0xf3af_8000, Thumb32InstId::NOP),
        (0xffff_ffff, 0xf3af_8001, Thumb32InstId::YIELD),
        (0xffff_ffff, 0xf3af_8002, Thumb32InstId::WFE),
        (0xffff_ffff, 0xf3af_8003, Thumb32InstId::WFI),
        (0xffff_ffff, 0xf3af_8004, Thumb32InstId::SEV),
        (0xffff_ffff, 0xf3af_8005, Thumb32InstId::SEVL),
        (0xffff_ffff, 0xf3bf_8f2f, Thumb32InstId::CLREX),
        (0xffff_fff0, 0xf3bf_8f40, Thumb32InstId::DSB),
        (0xffff_fff0, 0xf3bf_8f50, Thumb32InstId::DMB),
        (0xffff_fff0, 0xf3bf_8f60, Thumb32InstId::ISB),
        (0xfff0_ffff, 0xf3c0_8f00, Thumb32InstId::BXJ),
        (0xffef_f0ff, 0xf3ef_8000, Thumb32InstId::MRS_reg),
    ] {
        let raw = expected | (variable_bits & !mask);
        assert_eq!(
            decode_thumb32((raw >> 16) as u16, raw as u16).id,
            id,
            "raw={raw:08X}"
        );
    }

    assert_ne!(decode_thumb32(0xF3AF, 0x8010).id, Thumb32InstId::NOP);
    assert_ne!(decode_thumb32(0xF3BF, 0x8F20).id, Thumb32InstId::CLREX);
}

#[test]
fn test_decode_thumb32_modified_immediate_matches_upstream_patterns() {
    let variable_bits = 0x0401_2255u32;
    for (mask, expected, id) in [
        (0xfbf0_8f00, 0xf010_0f00, Thumb32InstId::TST_imm),
        (0xfbe0_8000, 0xf000_0000, Thumb32InstId::AND_imm),
        (0xfbe0_8000, 0xf020_0000, Thumb32InstId::BIC_imm),
        (0xfbef_8000, 0xf04f_0000, Thumb32InstId::MOV_imm),
        (0xfbe0_8000, 0xf040_0000, Thumb32InstId::ORR_imm),
        (0xfbef_8000, 0xf06f_0000, Thumb32InstId::MVN_imm),
        (0xfbe0_8000, 0xf060_0000, Thumb32InstId::ORN_imm),
        (0xfbf0_8f00, 0xf090_0f00, Thumb32InstId::TEQ_imm),
        (0xfbe0_8000, 0xf080_0000, Thumb32InstId::EOR_imm),
        (0xfbf0_8f00, 0xf110_0f00, Thumb32InstId::CMN_imm),
        (0xfbe0_8000, 0xf100_0000, Thumb32InstId::ADD_imm_1),
        (0xfbe0_8000, 0xf140_0000, Thumb32InstId::ADC_imm),
        (0xfbe0_8000, 0xf160_0000, Thumb32InstId::SBC_imm),
        (0xfbf0_8f00, 0xf1b0_0f00, Thumb32InstId::CMP_imm),
        (0xfbe0_8000, 0xf1a0_0000, Thumb32InstId::SUB_imm_1),
        (0xfbe0_8000, 0xf1c0_0000, Thumb32InstId::RSB_imm),
    ] {
        let raw = expected | (variable_bits & !mask);
        assert_eq!(
            decode_thumb32((raw >> 16) as u16, raw as u16).id,
            id,
            "raw={raw:08X}"
        );
    }
}

#[test]
fn test_decode_thumb32_hint_and_preload_families() {
    for (raw, expected) in [
        (0xF3AF_8005u32, Thumb32InstId::SEVL),
        (0xF81F_F123, Thumb32InstId::PLD_lit),
        (0xF83F_F123, Thumb32InstId::PLD_lit),
        (0xF815_F012, Thumb32InstId::PLD_reg),
        (0xF835_FC12, Thumb32InstId::PLD_imm8),
        (0xF895_F123, Thumb32InstId::PLD_imm12),
        (0xF91F_F123, Thumb32InstId::PLI_lit),
        (0xF915_F012, Thumb32InstId::PLI_reg),
        (0xF915_FC12, Thumb32InstId::PLI_imm8),
        (0xF995_F123, Thumb32InstId::PLI_imm12),
    ] {
        assert_eq!(
            decode_thumb32((raw >> 16) as u16, raw as u16).id,
            expected,
            "raw={raw:08X}"
        );
    }
}

#[test]
fn test_decode_thumb32_movw() {
    // MOVW Rd, #imm16
    // hw1: 1111 0 i 10 0100 imm4
    // hw2: 0 imm3 Rd imm8
    let hw1: u16 = 0xF240; // MOV_imm_wide
    let hw2: u16 = 0x0042; // Rd=R0, imm8=0x42
    let dec = decode_thumb32(hw1, hw2);
    assert_eq!(dec.id, Thumb32InstId::MOVW_imm);
    assert_eq!(dec.rd(), Reg::R0);
    assert_eq!(dec.imm16(), 0x42);
}

#[test]
fn test_decode_thumb32_str_imm_3_zero_offset_not_reg() {
    let dec = decode_thumb32(0xF8C0, 0x1000);
    assert_eq!(dec.id, Thumb32InstId::STR_imm_3);
}

#[test]
fn test_decode_thumb32_str_reg_not_imm() {
    let dec = decode_thumb32(0xF840, 0x1002);
    assert_eq!(dec.id, Thumb32InstId::STR_reg);
}

#[test]
fn test_decode_thumb32_ldr_imm_t3_zero_offset_not_reg() {
    let dec = decode_thumb32(0xF8D0, 0x3000);
    assert_eq!(dec.id, Thumb32InstId::LDR_imm_t3);
}

#[test]
fn test_decode_thumb32_ldrb_imm_t2_zero_offset_not_reg() {
    let dec = decode_thumb32(0xF890, 0x3000);
    assert_eq!(dec.id, Thumb32InstId::LDRB_imm_t2);
}

#[test]
fn test_decode_thumb32_strb_imm_3_zero_offset_not_reg() {
    let dec = decode_thumb32(0xF880, 0x1000);
    assert_eq!(dec.id, Thumb32InstId::STRB_imm_3);
}

#[test]
fn test_decode_thumb32_ldrh_imm_t2_zero_offset_not_reg() {
    let dec = decode_thumb32(0xF8B0, 0x3000);
    assert_eq!(dec.id, Thumb32InstId::LDRH_imm_t2);
}

#[test]
fn test_decode_thumb32_strh_imm_3_zero_offset_not_reg() {
    let dec = decode_thumb32(0xF8A0, 0x1000);
    assert_eq!(dec.id, Thumb32InstId::STRH_imm_3);
}

#[test]
fn test_decode_thumb32_store_single_matches_upstream_patterns() {
    for (raw, expected) in [
        (0xF841_2B34u32, Thumb32InstId::STR_imm_1),
        (0xF841_2C34, Thumb32InstId::STR_imm_2),
        (0xF8C1_2234, Thumb32InstId::STR_imm_3),
        (0xF841_2E34, Thumb32InstId::STRT),
        (0xF841_2034, Thumb32InstId::STR_reg),
        (0xF801_2B34, Thumb32InstId::STRB_imm_1),
        (0xF801_2C34, Thumb32InstId::STRB_imm_2),
        (0xF881_2234, Thumb32InstId::STRB_imm_3),
        (0xF801_2E34, Thumb32InstId::STRBT),
        (0xF801_2034, Thumb32InstId::STRB_reg),
        (0xF821_2B34, Thumb32InstId::STRH_imm_1),
        (0xF821_2C34, Thumb32InstId::STRH_imm_2),
        (0xF8A1_2234, Thumb32InstId::STRH_imm_3),
        (0xF821_2E34, Thumb32InstId::STRHT),
        (0xF821_2034, Thumb32InstId::STRH_reg),
    ] {
        assert_eq!(
            decode_thumb32((raw >> 16) as u16, raw as u16).id,
            expected,
            "raw={raw:08X}"
        );
    }

    for raw in [0xF841_2844u32, 0xF801_2A44, 0xF821_2444] {
        assert_eq!(
            decode_thumb32((raw >> 16) as u16, raw as u16).id,
            Thumb32InstId::Unknown,
            "reserved raw={raw:08X}"
        );
    }
}

#[test]
fn test_decode_thumb32_ldrsb_imm_t1() {
    let dec = decode_thumb32(0xF990, 0x3000);
    assert_eq!(dec.id, Thumb32InstId::LDRSB_imm_t1);
}

#[test]
fn test_decode_thumb32_unprivileged_loads_precede_imm8_patterns() {
    for (raw, expected) in [
        (0xF851_2E34u32, Thumb32InstId::LDRT),
        (0xF811_2E34u32, Thumb32InstId::LDRBT),
        (0xF831_2E34, Thumb32InstId::LDRHT),
        (0xF911_2E34, Thumb32InstId::LDRSBT),
        (0xF931_2E34, Thumb32InstId::LDRSHT),
    ] {
        assert_eq!(
            decode_thumb32((raw >> 16) as u16, raw as u16).id,
            expected,
            "raw={raw:08X}"
        );
    }

    for (raw, expected) in [
        (0xF851_2C34u32, Thumb32InstId::LDR_imm_t4),
        (0xF811_2C34u32, Thumb32InstId::LDRB_imm_t3),
        (0xF831_2C34, Thumb32InstId::LDRH_imm_t3),
        (0xF911_2C34, Thumb32InstId::LDRSB_imm_t2),
        (0xF931_2C34, Thumb32InstId::LDRSH_imm_t2),
    ] {
        assert_eq!(
            decode_thumb32((raw >> 16) as u16, raw as u16).id,
            expected,
            "adjacent imm8 raw={raw:08X}"
        );
    }

    for (raw, expected) in [
        (0xF85F_2E34u32, Thumb32InstId::LDR_lit),
        (0xF83F_2E34, Thumb32InstId::LDRH_lit),
        (0xF91F_2E34, Thumb32InstId::LDRSB_lit),
        (0xF93F_2E34, Thumb32InstId::LDRSH_lit),
    ] {
        assert_eq!(
            decode_thumb32((raw >> 16) as u16, raw as u16).id,
            expected,
            "negative literal raw={raw:08X}"
        );
    }

    for raw in [0xF93F_F123u32, 0xF931_F000, 0xF931_FC00, 0xF9B1_F123] {
        assert_eq!(
            decode_thumb32((raw >> 16) as u16, raw as u16).id,
            Thumb32InstId::NOP,
            "reserved LDRSH raw={raw:08X}"
        );
    }
}

#[test]
fn test_decode_thumb32_ldrsh_imm_t1() {
    let dec = decode_thumb32(0xF9B0, 0x3000);
    assert_eq!(dec.id, Thumb32InstId::LDRSH_imm_t1);
}

#[test]
fn test_decode_thumb32_push() {
    // PUSH.W {regs} = STMDB SP!, {regs}
    // hw1: 1110 1001 0010 1101
    // hw2: register list
    let hw1: u16 = 0xE92D;
    let hw2: u16 = 0x4010; // R4, LR
    let dec = decode_thumb32(hw1, hw2);
    assert_eq!(dec.id, Thumb32InstId::PUSH);
}

#[test]
fn test_decode_thumb32_load_store_multiple_matches_upstream_patterns() {
    for (raw, expected) in [
        (0xE8A1_0003u32, Thumb32InstId::STMIA),
        (0xE8BD_8003, Thumb32InstId::POP),
        (0xE8B1_0003, Thumb32InstId::LDMIA),
        (0xE92D_4003, Thumb32InstId::PUSH),
        (0xE921_0003, Thumb32InstId::STMDB),
        (0xE931_0003, Thumb32InstId::LDMDB),
    ] {
        assert_eq!(
            decode_thumb32((raw >> 16) as u16, raw as u16).id,
            expected,
            "raw={raw:08X}"
        );
    }
}

#[test]
fn test_decode_thumb32_multiple_store_rejects_pc_list_bit() {
    for raw in [0xE8A1_8003u32, 0xE921_8003, 0xE92D_8003] {
        assert_eq!(
            decode_thumb32((raw >> 16) as u16, raw as u16).id,
            Thumb32InstId::Unknown,
            "raw={raw:08X}"
        );
    }
}

#[test]
fn test_decode_thumb32_eb00_is_data_processing_not_strd() {
    let hw1: u16 = 0xEB00;
    let hw2: u16 = 0x0000;
    let dec = decode_thumb32(hw1, hw2);
    assert_eq!(dec.id, Thumb32InstId::ADD_reg);
}

#[test]
fn test_decode_thumb32_e940_stays_load_store_dual() {
    let hw1: u16 = 0xE940;
    let hw2: u16 = 0x0000;
    let dec = decode_thumb32(hw1, hw2);
    assert_eq!(dec.id, Thumb32InstId::STRD_imm_2);
}

#[test]
fn test_decode_thumb32_load_store_dual_matches_upstream_patterns() {
    for (raw, expected) in [
        (0xE841_2304u32, Thumb32InstId::STREX),
        (0xE851_2F04, Thumb32InstId::LDREX),
        (0xE861_2304, Thumb32InstId::STRD_imm_1),
        (0xE941_2304, Thumb32InstId::STRD_imm_2),
        (0xE87F_2304, Thumb32InstId::LDRD_lit_1),
        (0xE95F_2304, Thumb32InstId::LDRD_lit_2),
        (0xE871_2304, Thumb32InstId::LDRD_imm_1),
        (0xE951_2304, Thumb32InstId::LDRD_imm_2),
        (0xE8C1_2FAF, Thumb32InstId::STL),
        (0xE8D1_2FAF, Thumb32InstId::LDA),
        (0xE8C1_2F43, Thumb32InstId::STREXB),
        (0xE8C1_2F53, Thumb32InstId::STREXH),
        (0xE8C1_2473, Thumb32InstId::STREXD),
        (0xE8D1_F003, Thumb32InstId::TBB),
        (0xE8D1_F013, Thumb32InstId::TBH),
        (0xE8D1_2F4F, Thumb32InstId::LDREXB),
        (0xE8D1_2F5F, Thumb32InstId::LDREXH),
        (0xE8D1_247F, Thumb32InstId::LDREXD),
    ] {
        assert_eq!(
            decode_thumb32((raw >> 16) as u16, raw as u16).id,
            expected,
            "raw={raw:08X}"
        );
    }
}

#[test]
fn test_decode_thumb32_e92d_with_pc_list_bit_is_reserved() {
    let hw1: u16 = 0xE92D;
    let hw2: u16 = 0xB018;
    let dec = decode_thumb32(hw1, hw2);
    assert_eq!(dec.id, Thumb32InstId::Unknown);
}

#[test]
fn test_decode_thumb32_ldr_imm() {
    // LDR.W Rt, [Rn, #imm12]
    // hw1: 1111 1000 1101 nnnn
    // hw2: tttt iiiiiiiiiiii
    let hw1: u16 = 0xF8D1; // Rn=R1
    let hw2: u16 = 0x0004; // Rt=R0, imm12=4
    let dec = decode_thumb32(hw1, hw2);
    // This should decode to an LDR variant
    assert!(matches!(
        dec.id,
        Thumb32InstId::LDR_imm_t3 | Thumb32InstId::LDR_reg
    ));
}

#[test]
fn test_decode_thumb32_smmul() {
    let hw1: u16 = 0xFB50;
    let hw2: u16 = 0xF000;
    let dec = decode_thumb32(hw1, hw2);
    assert_eq!(dec.id, Thumb32InstId::SMMUL);
}

#[test]
fn test_decode_thumb32_multiply_matches_upstream_patterns() {
    for (raw, expected) in [
        (0xFB01_F203u32, Thumb32InstId::MUL),
        (0xFB01_4203, Thumb32InstId::MLA),
        (0xFB01_4213, Thumb32InstId::MLS),
        (0xFB11_F233, Thumb32InstId::SMULXY),
        (0xFB11_4233, Thumb32InstId::SMLAXY),
        (0xFB21_F213, Thumb32InstId::SMUAD),
        (0xFB21_4213, Thumb32InstId::SMLAD),
        (0xFB31_F213, Thumb32InstId::SMULWY),
        (0xFB31_4213, Thumb32InstId::SMLAWY),
        (0xFB41_F213, Thumb32InstId::SMUSD),
        (0xFB41_4213, Thumb32InstId::SMLSD),
        (0xFB51_F213, Thumb32InstId::SMMUL),
        (0xFB51_4213, Thumb32InstId::SMMLA),
        (0xFB61_4213, Thumb32InstId::SMMLS),
        (0xFB71_F203, Thumb32InstId::USAD8),
        (0xFB71_4203, Thumb32InstId::USADA8),
    ] {
        assert_eq!(
            decode_thumb32((raw >> 16) as u16, raw as u16).id,
            expected,
            "raw={raw:08X}"
        );
    }
}

#[test]
fn test_decode_thumb32_multiply_family_prefix_boundaries() {
    assert_eq!(decode_thumb32(0xFB81, 0x2303).id, Thumb32InstId::SMULL);
    assert_eq!(decode_thumb32(0xFC01, 0xF203).id, Thumb32InstId::STC);
}

#[test]
fn test_decode_thumb32_long_multiply_matches_upstream_patterns() {
    for (raw, expected) in [
        (0xFB81_2303u32, Thumb32InstId::SMULL),
        (0xFB91_F2F3, Thumb32InstId::SDIV),
        (0xFBA1_2303, Thumb32InstId::UMULL),
        (0xFBB1_F2F3, Thumb32InstId::UDIV),
        (0xFBC1_2303, Thumb32InstId::SMLAL),
        (0xFBC1_23B3, Thumb32InstId::SMLALXY),
        (0xFBC1_23D3, Thumb32InstId::SMLALD),
        (0xFBD1_23D3, Thumb32InstId::SMLSLD),
        (0xFBE1_2303, Thumb32InstId::UMLAL),
        (0xFBE1_2363, Thumb32InstId::UMAAL),
    ] {
        assert_eq!(
            decode_thumb32((raw >> 16) as u16, raw as u16).id,
            expected,
            "raw={raw:08X}"
        );
    }
}

#[test]
fn test_decode_thumb32_f8b3_800a_as_ldrh_imm_t2() {
    let hw1: u16 = 0xF8B3;
    let hw2: u16 = 0x800A;
    let dec = decode_thumb32(hw1, hw2);
    assert_eq!(dec.id, Thumb32InstId::LDRH_imm_t2);
    assert_eq!(dec.rn(), Reg::R3);
    assert_eq!(dec.rt(), Reg::R8);
    assert_eq!(dec.imm12(), 0x000A);
}

#[test]
fn test_decode_thumb32_coprocessor_forms() {
    let cases: [(u32, Thumb32InstId); 7] = [
        (0xEC42_3F1E, Thumb32InstId::MCRR),
        (0xFC52_3F1E, Thumb32InstId::MRRC),
        (0xED24_7F22, Thumb32InstId::STC),
        (0xFDB4_7F22, Thumb32InstId::LDC),
        (0xEEF4_3F41, Thumb32InstId::CDP),
        (0xFE64_3F51, Thumb32InstId::MCR),
        (0xEE74_3F51, Thumb32InstId::MRC),
    ];

    for (raw, expected) in cases {
        assert_eq!(
            decode_thumb32((raw >> 16) as u16, raw as u16).id,
            expected,
            "raw={raw:#010x}"
        );
    }
}
