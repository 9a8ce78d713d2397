use rdynarmic::frontend::a32::translate::translate_callbacks::CodeWords;
use rdynarmic::frontend::a32::decoder::ArmInstId;
use rdynarmic::frontend::a32::fpscr::FPSCR;
use rdynarmic::frontend::a32::psr::PSR;
use rdynarmic::frontend::a32::translate::{TranslationOptions, thumb_expand_imm, thumb_expand_imm_c, translate};
use rdynarmic::frontend::a32::translate::translate_thumb::{ThumbInstSize, convert_asimd_instruction, decode_thumb_vfp_or_asimd, read_thumb_instruction};
use rdynarmic::frontend::a32::types::Exception;
use rdynarmic::ir::block::Block;
use rdynarmic::ir::location::A32LocationDescriptor;
use rdynarmic::ir::opcode::Opcode;
use rdynarmic::ir::terminal::Terminal;
use rdynarmic::ir::value::{InstRef, Value};

fn reference_thumb_expand_imm(imm12: u32) -> u32 {
    if imm12 & 0xc00 == 0 {
        let imm8 = imm12 & 0xff;
        return match imm12 & 0x300 {
            0x000 => imm8,
            0x100 => (imm8 << 16) | imm8,
            0x200 => (imm8 << 24) | (imm8 << 8),
            0x300 => (imm8 << 24) | (imm8 << 16) | (imm8 << 8) | imm8,
            _ => unreachable!(),
        };
    }
    (0x80 | (imm12 & 0x7f)).rotate_right((imm12 >> 7) & 31)
}

#[test]
fn thumb_expand_imm_matches_all_twelve_bit_inputs() {
    for imm12 in 0..=0xfff {
        assert_eq!(thumb_expand_imm(imm12), reference_thumb_expand_imm(imm12));
    }
}

#[test]
fn thumb_expand_imm_c_preserves_dynamic_carry_only_for_replication_forms() {
    let dynamic_carry = Value::Inst(InstRef(42));
    for imm12 in 0..=0x3ff {
        let expanded = thumb_expand_imm_c(imm12, dynamic_carry);
        assert_eq!(expanded.carry, dynamic_carry, "imm12={imm12:03X}");
    }

    for imm12 in 0x400..=0xfff {
        let expanded = thumb_expand_imm_c(imm12, dynamic_carry);
        assert_eq!(
            expanded.carry,
            Value::ImmU1(expanded.imm32 & (1 << 31) != 0),
            "imm12={imm12:03X}"
        );
    }
}

fn assert_no_execute_fault(
    block: &Block,
    expected_end: A32LocationDescriptor,
) {
    assert_eq!(block.end_location(), expected_end.to_location());
    assert!(matches!(
        &block.terminal,
        Terminal::CheckHalt { else_ }
            if matches!(else_.as_ref(), Terminal::ReturnToDispatch)
    ));
    let exception = block
        .instructions
        .iter()
        .find(|inst| inst.opcode == Opcode::A32ExceptionRaised)
        .expect("missing A32ExceptionRaised");
    assert_eq!(
        exception.args.1,
        Value::ImmU64(Exception::NoExecuteFault.as_u32() as u64)
    );
}

#[test]
fn convert_asimd_instruction_uses_upstream_second_mask() {
    let thumb_instruction = 0xF910_0000;
    assert_eq!(convert_asimd_instruction(thumb_instruction), 0xF410_0000);
}

#[test]
fn thumb_vfp_decode_precedes_generic_thumb32_coprocessor_decode() {
    assert_eq!(
        decode_thumb_vfp_or_asimd(0xEC42_3A1E).map(|decoded| decoded.id),
        Some(ArmInstId::VMOV_2u32_2f32)
    );
    assert_eq!(
        decode_thumb_vfp_or_asimd(0xEEF1_FA10).map(|decoded| decoded.id),
        Some(ArmInstId::VMRS)
    );
    assert!(decode_thumb_vfp_or_asimd(0xEC42_3F1E).is_none());
}

#[test]
fn read_thumb_instruction_uses_upper_half_when_pc_is_word_plus_two() {
    let read_code = CodeWords {
        base: 0x1000,
        words: vec![0xE12F_72F9, 0xD00C_E92D],
    };

    let (instruction, size) = read_thumb_instruction(0x1002, &read_code).unwrap();
    assert_eq!(size, ThumbInstSize::Thumb16);
    assert_eq!(instruction, 0xE12F);

    let (instruction, size) = read_thumb_instruction(0x1006, &read_code).unwrap();
    assert_eq!(size, ThumbInstSize::Thumb16);
    assert_eq!(instruction, 0xD00C);
}

#[test]
fn read_thumb32_instruction_crosses_word_boundary_correctly() {
    let read_code = CodeWords {
        base: 0x1004,
        words: vec![0xE92D_4FF0, 0xE24D_D00C],
    };

    let (instruction, size) = read_thumb_instruction(0x1006, &read_code).unwrap();
    assert_eq!(size, ThumbInstSize::Thumb32);
    assert_eq!(instruction, 0xE92D_D00C);
}

#[test]
fn translate_arm_sets_end_location_from_current_location() {
    let loc = A32LocationDescriptor::new(0x1000, PSR::default(), FPSCR::default(), true);
    let read_code = CodeWords {
        base: 0x1000,
        words: vec![0xE1A0_0000], // MOV r0, r0
    };

    let block = translate(loc, &read_code, TranslationOptions::default());
    assert_eq!(block.end_location(), loc.advance_pc(4).to_location());
}

#[test]
fn translate_thumb_sets_end_location_from_current_location() {
    let mut psr = PSR::default();
    psr.set_t(true);
    let loc = A32LocationDescriptor::new(0x1002, psr, FPSCR::default(), true);
    let read_code = CodeWords {
        base: 0x1000,
        words: vec![0x0000_0000], // upper halfword at 0x1002 is Thumb16 LSL r0, r0, #0
    };

    let block = translate(loc, &read_code, TranslationOptions::default());
    assert_eq!(block.end_location(), loc.advance_pc(2).to_location());
}

#[test]
fn translate_arm_missing_code_raises_no_execute_fault() {
    let loc = A32LocationDescriptor::new(0x4000, PSR::default(), FPSCR::default(), false);
    let block = translate(loc, &CodeWords { base: 0, words: vec![] }, TranslationOptions::default());

    assert_no_execute_fault(&block, loc.advance_pc(4));
}

#[test]
fn translate_thumb_missing_code_raises_no_execute_fault() {
    let mut psr = PSR::default();
    psr.set_t(true);
    let loc = A32LocationDescriptor::new(0x4000, psr, FPSCR::default(), false);
    let block = translate(loc, &CodeWords { base: 0, words: vec![] }, TranslationOptions::default());

    assert_no_execute_fault(&block, loc.advance_pc(2).advance_it());
}
