use rdynarmic::frontend::a32::decoder_thumb32::{DecodedThumb32, Thumb32InstId, decode_thumb32};
use rdynarmic::frontend::a32::fpscr::FPSCR;
use rdynarmic::frontend::a32::psr::PSR;
use rdynarmic::frontend::a32::translate::thumb32_load_halfword::{thumb32_ldrh_imm8, thumb32_ldrh_lit, thumb32_ldrh_reg, thumb32_ldrht, thumb32_ldrsh_lit};
use rdynarmic::frontend::a32::types::{Exception, Reg};
use rdynarmic::ir::a32_emitter::A32IREmitter;
use rdynarmic::ir::block::Block;
use rdynarmic::ir::location::A32LocationDescriptor;
use rdynarmic::ir::opcode::Opcode;
use rdynarmic::ir::value::Value;

fn thumb_location(pc: u32) -> A32LocationDescriptor {
    let mut psr = PSR::default();
    psr.set_t(true);
    A32LocationDescriptor::new(pc, psr, FPSCR::default(), false)
}

fn decoded(raw: u32, id: Thumb32InstId) -> DecodedThumb32 {
    DecodedThumb32 { raw, id }
}

#[test]
fn thumb32_load_halfword_literal_load_uses_hw1_u_bit_and_matching_extension() {
    let location = thumb_location(0x1002);
    let mut ir = A32IREmitter::with_location(Block::new(location.to_location()), location);
    let positive = decode_thumb32(0xF8BF, 0x1004);
    assert_eq!(positive.id, Thumb32InstId::LDRH_lit);
    assert!(thumb32_ldrh_lit(&mut ir, &positive));
    let read = ir.block
        .instructions
        .iter()
        .find(|inst| inst.opcode == Opcode::A32ReadMemory16)
        .expect("literal halfword read");
    assert_eq!(read.args.1, Value::ImmU32(0x1008));
    assert!(ir.block
        .instructions
        .iter()
        .any(|inst| inst.opcode == Opcode::ZeroExtendHalfToWord));

    let location = thumb_location(0x1002);
    let mut ir = A32IREmitter::with_location(Block::new(location.to_location()), location);
    let negative = decode_thumb32(0xF93F, 0x2204);
    assert_eq!(negative.id, Thumb32InstId::LDRSH_lit);
    assert!(thumb32_ldrsh_lit(&mut ir, &negative));
    let read = ir.block
        .instructions
        .iter()
        .find(|inst| inst.opcode == Opcode::A32ReadMemory16)
        .expect("signed literal halfword read");
    assert_eq!(read.args.1, Value::ImmU32(0x0e00));
    assert!(ir.block
        .instructions
        .iter()
        .any(|inst| inst.opcode == Opcode::SignExtendHalfToWord));
}

#[test]
fn register_load_preserves_rm_then_rn_order_and_zero_shift() {
    let location = thumb_location(0x1000);
    let mut ir = A32IREmitter::with_location(Block::new(location.to_location()), location);
    let inst = decoded(0xF831_2003, Thumb32InstId::LDRH_reg);
    assert!(thumb32_ldrh_reg(&mut ir, &inst));

    let opcodes = ir.block
        .instructions
        .iter()
        .map(|inst| inst.opcode)
        .collect::<Vec<_>>();
    assert_eq!(
        opcodes,
        vec![
            Opcode::A32GetRegister,
            Opcode::A32GetRegister,
            Opcode::LogicalShiftLeft32,
            Opcode::Add32,
            Opcode::A32ReadMemory16,
            Opcode::ZeroExtendHalfToWord,
            Opcode::A32SetRegister,
        ]
    );
    assert_eq!(ir.block.instructions[0].args.0, Value::ImmA32Reg(Reg::R3));
    assert_eq!(ir.block.instructions[1].args.0, Value::ImmA32Reg(Reg::R1));
}

#[test]
fn immediate_writeback_precedes_destination_write() {
    let location = thumb_location(0x1000);
    let mut ir = A32IREmitter::with_location(Block::new(location.to_location()), location);
    let inst = decoded(0xF831_2B04, Thumb32InstId::LDRH_imm_t3);
    assert!(thumb32_ldrh_imm8(&mut ir, &inst));

    let sets = ir.block
        .instructions
        .iter()
        .filter(|inst| inst.opcode == Opcode::A32SetRegister)
        .collect::<Vec<_>>();
    assert_eq!(sets.len(), 2);
    assert_eq!(sets[0].args.0, Value::ImmA32Reg(Reg::R1));
    assert_eq!(sets[1].args.0, Value::ImmA32Reg(Reg::R2));
}

#[test]
fn thumb32_load_halfword_immediate_validation_precedes_ir_side_effects() {
    for (raw, expected) in [
        (0xF831_2A04u32, Exception::UndefinedInstruction),
        (0xF831_FB04, Exception::UnpredictableInstruction),
        (0xF832_2B04, Exception::UnpredictableInstruction),
    ] {
        let location = thumb_location(0x1000);
        let mut ir = A32IREmitter::with_location(Block::new(location.to_location()), location);
        let inst = decoded(raw, Thumb32InstId::LDRH_imm_t3);
        assert!(!thumb32_ldrh_imm8(&mut ir, &inst));
        assert!(!ir.block.instructions.iter().any(|inst| matches!(
            inst.opcode,
            Opcode::A32GetRegister | Opcode::A32ReadMemory16
        )));
        let exception = ir.block
            .instructions
            .iter()
            .find(|inst| inst.opcode == Opcode::A32ExceptionRaised)
            .expect("validation exception");
        assert_eq!(exception.args.1, Value::ImmU64(expected.as_u32() as u64));
    }
}

#[test]
fn unprivileged_load_has_no_writeback() {
    let location = thumb_location(0x1000);
    let mut ir = A32IREmitter::with_location(Block::new(location.to_location()), location);
    let inst = decoded(0xF831_2E04, Thumb32InstId::LDRHT);
    assert!(thumb32_ldrht(&mut ir, &inst));

    let sets = ir.block
        .instructions
        .iter()
        .filter(|inst| inst.opcode == Opcode::A32SetRegister)
        .collect::<Vec<_>>();
    assert_eq!(sets.len(), 1);
    assert_eq!(sets[0].args.0, Value::ImmA32Reg(Reg::R2));
}
