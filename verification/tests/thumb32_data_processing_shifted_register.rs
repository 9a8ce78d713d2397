use rdynarmic::frontend::a32::decoder_thumb32::{Thumb32InstId, decode_thumb32};
use rdynarmic::frontend::a32::fpscr::FPSCR;
use rdynarmic::frontend::a32::psr::PSR;
use rdynarmic::frontend::a32::translate::TranslationOptions;
use rdynarmic::frontend::a32::translate::thumb32::translate_thumb32;
use rdynarmic::frontend::a32::types::{Exception, Reg};
use rdynarmic::ir::a32_emitter::A32IREmitter;
use rdynarmic::ir::block::Block;
use rdynarmic::ir::location::A32LocationDescriptor;
use rdynarmic::ir::opcode::Opcode;
use rdynarmic::ir::value::Value;

const PATTERNS: &[(u32, u32, Thumb32InstId)] = &[
    (0xfff0_8f00, 0xea10_0f00, Thumb32InstId::TST_reg),
    (0xffe0_8000, 0xea00_0000, Thumb32InstId::AND_reg),
    (0xffe0_8000, 0xea20_0000, Thumb32InstId::BIC_reg),
    (0xffef_8000, 0xea4f_0000, Thumb32InstId::MOV_reg),
    (0xffe0_8000, 0xea40_0000, Thumb32InstId::ORR_reg),
    (0xffef_8000, 0xea6f_0000, Thumb32InstId::MVN_reg),
    (0xffe0_8000, 0xea60_0000, Thumb32InstId::ORN_reg),
    (0xfff0_8f00, 0xea90_0f00, Thumb32InstId::TEQ_reg),
    (0xffe0_8000, 0xea80_0000, Thumb32InstId::EOR_reg),
    (0xfff0_8010, 0xeac0_0000, Thumb32InstId::PKH),
    (0xfff0_8f00, 0xeb10_0f00, Thumb32InstId::CMN_reg),
    (0xffe0_8000, 0xeb00_0000, Thumb32InstId::ADD_reg),
    (0xffe0_8000, 0xeb40_0000, Thumb32InstId::ADC_reg),
    (0xffe0_8000, 0xeb60_0000, Thumb32InstId::SBC_reg),
    (0xfff0_8f00, 0xebb0_0f00, Thumb32InstId::CMP_reg),
    (0xffe0_8000, 0xeba0_0000, Thumb32InstId::SUB_reg),
    (0xffe0_8000, 0xebc0_0000, Thumb32InstId::RSB_reg),
];

fn location() -> A32LocationDescriptor {
    let mut psr = PSR::default();
    psr.set_t(true);
    A32LocationDescriptor::new(0x1000, psr, FPSCR::default(), false)
}

fn translate(raw: u32) -> (bool, Block) {
    let location = location();
    let inst = decode_thumb32((raw >> 16) as u16, raw as u16);
    let mut ir = A32IREmitter::with_location(Block::new(location.to_location()), location);
    let result = translate_thumb32(
        &mut ir,
        &inst,
        TranslationOptions::default(),
    );
    (result, ir.block)
}

#[test]
fn all_shifted_register_patterns_decode_and_translate() {
    let variable_bits = 0x0011_2243;
    for &(mask, expected, id) in PATTERNS {
        let raw = expected | (variable_bits & !mask);
        assert_eq!(
            decode_thumb32((raw >> 16) as u16, raw as u16).id,
            id,
            "raw={raw:08X}"
        );
        assert!(translate(raw).0, "raw={raw:08X}");
    }
}

#[test]
fn invalid_registers_raise_before_shift_inputs() {
    for raw in [0xea1f_0f02, 0xea01_0f02, 0xea21_0f02] {
        let (result, block) = translate(raw);
        assert!(!result, "raw={raw:08X}");
        assert!(!block.instructions.iter().any(|inst| {
            matches!(inst.opcode, Opcode::A32GetRegister | Opcode::A32GetCFlag)
        }));
        assert!(block.instructions.iter().any(|inst| {
            inst.opcode == Opcode::A32ExceptionRaised
                && inst.args.1
                    == Value::ImmU64(Exception::UnpredictableInstruction.as_u32() as u64)
        }));
    }
}

#[test]
fn mov_reads_only_shift_source_and_writes_destination_before_flags() {
    let (_, block) = translate(0xea5f_0201);
    let opcodes = block
        .instructions
        .iter()
        .map(|inst| inst.opcode)
        .collect::<Vec<_>>();
    assert_eq!(
        opcodes,
        vec![
            Opcode::A32GetRegister,
            Opcode::A32GetCFlag,
            Opcode::A32SetRegister,
            Opcode::GetNZFromOp,
            Opcode::A32SetCpsrNZC,
        ]
    );
    assert_eq!(block.instructions[0].args.0, Value::ImmA32Reg(Reg::R1));
}

#[test]
fn bic_uses_and_not_and_destination_precedes_flags() {
    let (_, block) = translate(0xea31_0203);
    assert!(block
        .instructions
        .iter()
        .any(|inst| inst.opcode == Opcode::AndNot32));
    assert!(!block
        .instructions
        .iter()
        .any(|inst| inst.opcode == Opcode::Not32));
    let set_register = block
        .instructions
        .iter()
        .position(|inst| inst.opcode == Opcode::A32SetRegister)
        .unwrap();
    let set_flags = block
        .instructions
        .iter()
        .position(|inst| inst.opcode == Opcode::A32SetCpsrNZC)
        .unwrap();
    assert!(set_register < set_flags);
}

#[test]
fn adc_and_sbc_read_carry_for_shift_and_arithmetic() {
    for raw in [0xeb51_0203, 0xeb71_0203] {
        let (_, block) = translate(raw);
        assert_eq!(
            block
                .instructions
                .iter()
                .filter(|inst| inst.opcode == Opcode::A32GetCFlag)
                .count(),
            2
        );
    }
}

#[test]
fn pkh_preserves_tb_dependent_source_read_order() {
    let (_, bottom) = translate(0xeac1_0203);
    let bottom_n = bottom
        .instructions
        .iter()
        .position(|inst| {
            inst.opcode == Opcode::A32GetRegister && inst.args.0 == Value::ImmA32Reg(Reg::R1)
        })
        .unwrap();
    let bottom_first_and = bottom
        .instructions
        .iter()
        .position(|inst| inst.opcode == Opcode::And32)
        .unwrap();
    assert!(bottom_n < bottom_first_and);

    let (_, top) = translate(0xeac1_0223);
    let top_n = top
        .instructions
        .iter()
        .position(|inst| {
            inst.opcode == Opcode::A32GetRegister && inst.args.0 == Value::ImmA32Reg(Reg::R1)
        })
        .unwrap();
    let top_first_and = top
        .instructions
        .iter()
        .position(|inst| inst.opcode == Opcode::And32)
        .unwrap();
    assert!(top_n > top_first_and);
}
