use rdynarmic::frontend::a32::decoder_thumb32::{DecodedThumb32, Thumb32InstId, decode_thumb32};
use rdynarmic::frontend::a32::fpscr::FPSCR;
use rdynarmic::frontend::a32::psr::PSR;
use rdynarmic::frontend::a32::translate::TranslationOptions;
use rdynarmic::frontend::a32::translate::thumb32_load_byte::{thumb32_ldrb_imm8, thumb32_ldrb_lit, thumb32_ldrb_reg, thumb32_ldrbt, thumb32_ldrsb_lit, thumb32_pld_reg};
use rdynarmic::frontend::a32::types::{Exception, Reg};
use rdynarmic::ir::a32_emitter::A32IREmitter;
use rdynarmic::ir::acc_type::AccType;
use rdynarmic::ir::block::Block;
use rdynarmic::ir::location::A32LocationDescriptor;
use rdynarmic::ir::opcode::Opcode;
use rdynarmic::ir::value::Value;

fn thumb_location(pc: u32) -> A32LocationDescriptor {
    let mut psr = PSR::default();
    psr.set_t(true);
    A32LocationDescriptor::new(pc, psr, FPSCR::default(), false)
}

fn decoded(raw: u32, id: Thumb32InstId) -> DecodedThumb32 {
    DecodedThumb32 { raw, id }
}

#[test]
fn thumb32_load_byte_literal_load_uses_hw1_u_bit_and_matching_extension() {
    let location = thumb_location(0x1002);
    let mut ir = A32IREmitter::with_location(Block::new(location.to_location()), location);
    let positive = decode_thumb32(0xF89F, 0x1004);
    assert_eq!(positive.id, Thumb32InstId::LDRB_lit);
    assert!(thumb32_ldrb_lit(&mut ir, &positive));

    let read = ir.block
        .instructions
        .iter()
        .find(|inst| inst.opcode == Opcode::A32ReadMemory8)
        .expect("literal byte read");
    assert_eq!(read.args.1, Value::ImmU32(0x1008));
    assert!(ir.block
        .instructions
        .iter()
        .any(|inst| inst.opcode == Opcode::ZeroExtendByteToWord));

    let location = thumb_location(0x1002);
    let mut ir = A32IREmitter::with_location(Block::new(location.to_location()), location);
    let negative = decode_thumb32(0xF91F, 0x2204);
    assert_eq!(negative.id, Thumb32InstId::LDRSB_lit);
    assert!(thumb32_ldrsb_lit(&mut ir, &negative));
    let read = ir.block
        .instructions
        .iter()
        .find(|inst| inst.opcode == Opcode::A32ReadMemory8)
        .expect("signed literal byte read");
    assert_eq!(read.args.1, Value::ImmU32(0x0e00));
    assert!(ir.block
        .instructions
        .iter()
        .any(|inst| inst.opcode == Opcode::SignExtendByteToWord));
}

#[test]
fn immediate_writeback_occurs_after_destination_write() {
    let location = thumb_location(0x1000);
    let mut ir = A32IREmitter::with_location(Block::new(location.to_location()), location);
    let inst = decoded(0xF811_2B04, Thumb32InstId::LDRB_imm_t3);
    assert!(thumb32_ldrb_imm8(&mut ir, &inst));

    let opcodes = ir.block
        .instructions
        .iter()
        .map(|inst| inst.opcode)
        .collect::<Vec<_>>();
    assert_eq!(
        opcodes,
        vec![
            Opcode::A32GetRegister,
            Opcode::Add32,
            Opcode::A32ReadMemory8,
            Opcode::ZeroExtendByteToWord,
            Opcode::A32SetRegister,
            Opcode::A32SetRegister,
        ]
    );
    assert_eq!(ir.block.instructions[4].args.0, Value::ImmA32Reg(Reg::R2));
    assert_eq!(ir.block.instructions[5].args.0, Value::ImmA32Reg(Reg::R1));
}

#[test]
fn thumb32_load_byte_immediate_validation_precedes_ir_side_effects() {
    for (raw, expected) in [
        (0xF811_2A04u32, Exception::UndefinedInstruction),
        (0xF811_FB04, Exception::UnpredictableInstruction),
        (0xF812_2B04, Exception::UnpredictableInstruction),
    ] {
        let location = thumb_location(0x1000);
        let mut ir = A32IREmitter::with_location(Block::new(location.to_location()), location);
        let inst = decoded(raw, Thumb32InstId::LDRB_imm_t3);
        assert!(!thumb32_ldrb_imm8(&mut ir, &inst));

        assert!(!ir.block.instructions.iter().any(|inst| matches!(
            inst.opcode,
            Opcode::A32GetRegister | Opcode::A32ReadMemory8
        )));
        let exception = ir.block
            .instructions
            .iter()
            .find(|inst| inst.opcode == Opcode::A32ExceptionRaised)
            .expect("validation exception");
        assert_eq!(exception.args.1, Value::ImmU64(expected.as_u32() as u64));
    }
}

#[test]
fn register_and_preload_pc_checks_run_before_hook_or_load() {
    let location = thumb_location(0x1000);
    for (inst, preload) in [
        (decoded(0xF811_200F, Thumb32InstId::LDRB_reg), false),
        (decoded(0xF811_F00F, Thumb32InstId::PLD_reg), true),
    ] {
        let mut ir = A32IREmitter::with_location(Block::new(location.to_location()), location);
        let result = if preload {
            thumb32_pld_reg(
                &mut ir,
                &inst,
                TranslationOptions {
                    hook_hint_instructions: false,
                    ..TranslationOptions::default()
                },
            )
        } else {
            thumb32_ldrb_reg(&mut ir, &inst)
        };
        assert!(!result);
        assert!(!ir.block.instructions.iter().any(|inst| matches!(
            inst.opcode,
            Opcode::A32GetRegister | Opcode::A32ReadMemory8
        )));
        assert!(ir.block
            .instructions
            .iter()
            .any(|inst| inst.opcode == Opcode::A32ExceptionRaised));
    }
}

#[test]
fn unprivileged_load_uses_normal_positive_offset_without_writeback() {
    let location = thumb_location(0x1000);
    let mut ir = A32IREmitter::with_location(Block::new(location.to_location()), location);
    let inst = decoded(0xF811_2E04, Thumb32InstId::LDRBT);
    assert!(thumb32_ldrbt(&mut ir, &inst));

    let sets = ir.block
        .instructions
        .iter()
        .filter(|inst| inst.opcode == Opcode::A32SetRegister)
        .collect::<Vec<_>>();
    assert_eq!(sets.len(), 1);
    assert_eq!(sets[0].args.0, Value::ImmA32Reg(Reg::R2));
    let read = ir.block
        .instructions
        .iter()
        .find(|inst| inst.opcode == Opcode::A32ReadMemory8)
        .expect("unprivileged byte read");
    assert_eq!(read.args.2, Value::ImmAccType(AccType::Normal));
}
