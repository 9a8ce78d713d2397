use rdynarmic::frontend::a32::decoder_thumb32::{Thumb32InstId, decode_thumb32};
use rdynarmic::frontend::a32::fpscr::FPSCR;
use rdynarmic::frontend::a32::psr::PSR;
use rdynarmic::frontend::a32::translate::TranslationOptions;
use rdynarmic::frontend::a32::translate::thumb32::translate_thumb32;
use rdynarmic::frontend::a32::types::{Exception, Reg};
use rdynarmic::ir::a32_emitter::A32IREmitter;
use rdynarmic::ir::block::Block;
use rdynarmic::ir::location::A32LocationDescriptor;
use rdynarmic::ir::opcode::Opcode;
use rdynarmic::ir::value::Value;

const PATTERNS: &[(u32, u32, Thumb32InstId)] = &[
    (0xfbff_8000, 0xf20f_0000, Thumb32InstId::ADR_t3),
    (0xfbf0_8000, 0xf200_0000, Thumb32InstId::ADD_imm_2),
    (0xfbf0_8000, 0xf240_0000, Thumb32InstId::MOVW_imm),
    (0xfbff_8000, 0xf2af_0000, Thumb32InstId::ADR_t2),
    (0xfbf0_8000, 0xf2a0_0000, Thumb32InstId::SUB_imm_2),
    (0xfbf0_8000, 0xf2c0_0000, Thumb32InstId::MOVT),
    (0xff70_f0f0, 0xf320_0010, Thumb32InstId::UDF),
    (0xfff0_f0f0, 0xf320_0000, Thumb32InstId::SSAT16),
    (0xfff0_f0f0, 0xf3a0_0000, Thumb32InstId::USAT16),
    (0xffd0_8020, 0xf300_0000, Thumb32InstId::SSAT),
    (0xffd0_8020, 0xf380_0000, Thumb32InstId::USAT),
    (0xfff0_8020, 0xf340_0000, Thumb32InstId::SBFX),
    (0xffff_8020, 0xf36f_0000, Thumb32InstId::BFC),
    (0xfff0_8020, 0xf360_0000, Thumb32InstId::BFI),
    (0xfff0_8020, 0xf3c0_0000, Thumb32InstId::UBFX),
];

fn location() -> A32LocationDescriptor {
    let mut psr = PSR::default();
    psr.set_t(true);
    A32LocationDescriptor::new(0x1002, psr, FPSCR::default(), false)
}

fn translate(raw: u32) -> (bool, Block) {
    let location = location();
    let inst = decode_thumb32((raw >> 16) as u16, raw as u16);
    let mut ir = A32IREmitter::with_location(Block::new(location.to_location()), location);
    let result = translate_thumb32(
        &mut ir,
        &inst,
        TranslationOptions::default(),
    );
    (result, ir.block)
}

#[test]
fn all_plain_binary_immediate_patterns_decode_and_translate() {
    let variable_bits = 0x0401_2255;
    for &(mask, expected, id) in PATTERNS {
        let raw = expected | (variable_bits & !mask);
        assert_eq!(
            decode_thumb32((raw >> 16) as u16, raw as u16).id,
            id,
            "raw={raw:08X}"
        );
        if id != Thumb32InstId::UDF {
            let _ = translate(raw);
        }
    }
}

#[test]
fn invalid_fields_raise_before_reading_registers() {
    for raw in [0xf36f_1203, 0xf341_72c1, 0xf3c1_72c1, 0xf240_0f00] {
        let (result, block) = translate(raw);
        assert!(!result, "raw={raw:08X}");
        assert!(!block
            .instructions
            .iter()
            .any(|inst| inst.opcode == Opcode::A32GetRegister));
        assert!(block.instructions.iter().any(|inst| {
            inst.opcode == Opcode::A32ExceptionRaised
                && inst.args.1
                    == Value::ImmU64(Exception::UnpredictableInstruction.as_u32() as u64)
        }));
    }
}

#[test]
fn bfi_reads_destination_then_source_and_keeps_zero_shift() {
    let (result, block) = translate(0xf361_0207);
    assert!(result);
    let reads = block
        .instructions
        .iter()
        .filter(|inst| inst.opcode == Opcode::A32GetRegister)
        .map(|inst| inst.args.0)
        .collect::<Vec<_>>();
    assert_eq!(
        reads,
        vec![Value::ImmA32Reg(Reg::R2), Value::ImmA32Reg(Reg::R1)]
    );
    assert!(block.instructions.iter().any(
        |inst| inst.opcode == Opcode::LogicalShiftLeft32 && inst.args.1 == Value::ImmU8(0)
    ));
}

#[test]
fn saturation16_reads_source_once_and_sets_both_q_results_after_destination() {
    let (result, block) = translate(0xf321_0207);
    assert!(result);
    assert_eq!(
        block
            .instructions
            .iter()
            .filter(|inst| inst.opcode == Opcode::A32GetRegister)
            .count(),
        1
    );
    assert_eq!(
        block
            .instructions
            .iter()
            .filter(|inst| inst.opcode == Opcode::SignedSaturation)
            .count(),
        2
    );
    let set_register = block
        .instructions
        .iter()
        .position(|inst| inst.opcode == Opcode::A32SetRegister)
        .expect("destination write");
    let q_positions = block
        .instructions
        .iter()
        .enumerate()
        .filter(|(_, inst)| inst.opcode == Opcode::A32OrQFlag)
        .map(|(position, _)| position)
        .collect::<Vec<_>>();
    assert_eq!(q_positions.len(), 2);
    assert!(q_positions.iter().all(|&position| position > set_register));
}

#[test]
fn bitfield_extracts_emit_upstream_shifts_even_for_zero_lsb() {
    let (_, sbfx) = translate(0xf341_0207);
    assert!(sbfx
        .instructions
        .iter()
        .any(|inst| inst.opcode == Opcode::LogicalShiftLeft32));
    assert!(sbfx
        .instructions
        .iter()
        .any(|inst| inst.opcode == Opcode::ArithmeticShiftRight32));

    let (_, ubfx) = translate(0xf3c1_0207);
    assert!(ubfx.instructions.iter().any(|inst| {
        inst.opcode == Opcode::LogicalShiftRight32 && inst.args.1 == Value::ImmU8(0)
    }));
}

#[test]
fn adr_uses_aligned_architectural_pc() {
    let (_, block) = translate(0xf20f_0201);
    let write = block
        .instructions
        .iter()
        .find(|inst| inst.opcode == Opcode::A32SetRegister)
        .expect("destination write");
    assert_eq!(write.args.1, Value::ImmU32(0x1005));
}
