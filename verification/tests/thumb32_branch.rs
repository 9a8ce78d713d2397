use rdynarmic::frontend::a32::decoder_thumb32::{Thumb32InstId, decode_thumb32};
use rdynarmic::frontend::a32::fpscr::FPSCR;
use rdynarmic::frontend::a32::it_state::ITState;
use rdynarmic::frontend::a32::psr::PSR;
use rdynarmic::frontend::a32::translate::TranslationOptions;
use rdynarmic::frontend::a32::translate::thumb32::translate_thumb32;
use rdynarmic::frontend::a32::types::{Exception, Reg};
use rdynarmic::ir::a32_emitter::A32IREmitter;
use rdynarmic::ir::block::Block;
use rdynarmic::ir::location::A32LocationDescriptor;
use rdynarmic::ir::opcode::Opcode;
use rdynarmic::ir::terminal::Terminal;
use rdynarmic::ir::value::Value;

fn location(pc: u32, it: u8) -> A32LocationDescriptor {
    let mut psr = PSR::default();
    psr.set_t(true);
    A32LocationDescriptor::new(pc, psr, FPSCR::default(), false).set_it(ITState::new(it))
}

fn translate(raw: u32, location: A32LocationDescriptor) -> Block {
    let inst = decode_thumb32((raw >> 16) as u16, raw as u16);
    let mut ir = A32IREmitter::with_location(Block::new(location.to_location()), location);
    assert!(!translate_thumb32(
        &mut ir,
        &inst,
        TranslationOptions::default(),
    ));
    ir.block
}

fn exception(block: &Block) -> Option<u64> {
    block
        .instructions
        .iter()
        .find(|inst| inst.opcode == Opcode::A32ExceptionRaised)
        .and_then(|inst| match inst.args.1 {
            Value::ImmU64(value) => Some(value),
            _ => None,
        })
}

#[test]
fn all_four_upstream_branch_patterns_translate() {
    for (raw, expected) in [
        (0xF000_D000, Thumb32InstId::BL_imm),
        (0xF000_C000, Thumb32InstId::BLX_imm),
        (0xF000_9000, Thumb32InstId::B),
        (0xF000_8000, Thumb32InstId::B_cond),
    ] {
        let inst = decode_thumb32((raw >> 16) as u16, raw as u16);
        assert_eq!(inst.id, expected);
        let _ = translate(raw, location(0x1000, 0));
    }
}

#[test]
fn branch_it_validation_precedes_branch_side_effects() {
    for (raw, it) in [
        (0xF000_F800, 0x0c),
        (0xF000_E800, 0x0c),
        (0xF000_B800, 0x0c),
        (0xF000_8000, 0x08),
    ] {
        let block = translate(raw, location(0x1000, it));
        assert_eq!(
            exception(&block),
            Some(Exception::UnpredictableInstruction.as_u32() as u64)
        );
        assert!(!block
            .instructions
            .iter()
            .any(|inst| inst.opcode == Opcode::PushRSB));
        assert!(!block.instructions.iter().any(|inst| {
            inst.opcode == Opcode::A32SetRegister && inst.args.0 == Value::ImmA32Reg(Reg::R14)
        }));
    }
}

#[test]
fn blx_rejects_an_odd_low_field_before_link_side_effects() {
    let block = translate(0xF000_E801, location(0x1000, 0));
    assert_eq!(
        exception(&block),
        Some(Exception::UnpredictableInstruction.as_u32() as u64)
    );
    assert!(!block
        .instructions
        .iter()
        .any(|inst| inst.opcode == Opcode::PushRSB));
    assert!(!block.instructions.iter().any(|inst| {
        inst.opcode == Opcode::A32SetRegister && inst.args.0 == Value::ImmA32Reg(Reg::R14)
    }));
}

#[test]
fn bl_preserves_rsb_lr_and_target_order() {
    let block = translate(0xF000_F800, location(0x1000, 0));
    let opcodes = block
        .instructions
        .iter()
        .map(|inst| inst.opcode)
        .collect::<Vec<_>>();
    assert_eq!(opcodes, vec![Opcode::PushRSB, Opcode::A32SetRegister]);
    assert_eq!(block.instructions[1].args.0, Value::ImmA32Reg(Reg::R14));
    assert_eq!(block.instructions[1].args.1, Value::ImmU32(0x1005));
    let Terminal::LinkBlock { next } = block.terminal else {
        panic!("expected LinkBlock terminal");
    };
    assert_eq!(A32LocationDescriptor::from_location(next).pc(), 0x1004);
}

#[test]
fn blx_uses_aligned_thumb_pc_base_and_switches_to_arm() {
    let block = translate(0xF000_E800, location(0x1002, 0));
    let Terminal::LinkBlock { next } = block.terminal else {
        panic!("expected LinkBlock terminal");
    };
    let next = A32LocationDescriptor::from_location(next);
    assert_eq!(next.pc(), 0x1004);
    assert!(!next.t_flag());
}

#[test]
fn conditional_branch_preserves_then_and_else_locations() {
    let block = translate(0xF000_8000, location(0x1000, 0));
    let Terminal::If { then_, else_, .. } = block.terminal else {
        panic!("expected conditional terminal");
    };
    let Terminal::LinkBlock { next: then_next } = *then_ else {
        panic!("expected linked then path");
    };
    let Terminal::LinkBlock { next: else_next } = *else_ else {
        panic!("expected linked else path");
    };
    assert_eq!(A32LocationDescriptor::from_location(then_next).pc(), 0x1004);
    assert_eq!(A32LocationDescriptor::from_location(else_next).pc(), 0x1004);
}
