use rdynarmic::frontend::a32::decoder::{ArmInstId, DecodedArm};
use rdynarmic::frontend::a32::translate::TranslationOptions;
use rdynarmic::frontend::a32::translate::hint::{arm_pld, arm_sevl, arm_wfi};
use rdynarmic::frontend::a32::types::Exception;
use rdynarmic::ir::a32_emitter::A32IREmitter;
use rdynarmic::ir::block::Block;
use rdynarmic::ir::location::A32LocationDescriptor;
use rdynarmic::ir::opcode::Opcode;
use rdynarmic::ir::value::Value;

fn emitted_exception(block: &Block) -> Option<u64> {
    let value = block
        .instructions
        .iter()
        .find(|instruction| instruction.opcode == Opcode::A32ExceptionRaised)?
        .args.1;
    let Value::ImmU64(value) = value else {
        return None;
    };
    Some(value)
}

#[test]
fn hint_hook_option_selects_nop_or_exception() {
    let location = A32LocationDescriptor::at(0x1000);

    let mut disabled_ir = A32IREmitter::with_location(Block::new(location.to_location()), location);
    assert!(arm_wfi(
        &mut disabled_ir,
        TranslationOptions {
            hook_hint_instructions: false,
            ..TranslationOptions::default()
        },
    ));
    assert!(disabled_ir.block.instructions.is_empty());

    let mut enabled_ir = A32IREmitter::with_location(Block::new(location.to_location()), location);
    assert!(!arm_wfi(
        &mut enabled_ir,
        TranslationOptions::default(),
    ));
    assert_eq!(
        emitted_exception(&enabled_ir.block),
        Some(Exception::WaitForInterrupt.as_u32() as u64)
    );
}

#[test]
fn sevl_raises_send_event_local_when_hooked() {
    let location = A32LocationDescriptor::at(0x1800);
    let mut ir = A32IREmitter::with_location(Block::new(location.to_location()), location);
    assert!(!arm_sevl(
        &mut ir,
        TranslationOptions::default(),
    ));
    assert_eq!(
        emitted_exception(&ir.block),
        Some(Exception::SendEventLocal.as_u32() as u64)
    );
}

#[test]
fn pld_r_bit_selects_upstream_exception() {
    let location = A32LocationDescriptor::at(0x2000);
    for (raw, expected) in [
        (0xF550_F000, Exception::PreloadData),
        (0xF510_F000, Exception::PreloadDataWithIntentToWrite),
    ] {
        let mut ir = A32IREmitter::with_location(Block::new(location.to_location()), location);
        let decoded = DecodedArm {
            raw,
            id: ArmInstId::PLD_imm,
        };
        assert!(!arm_pld(
            &mut ir,
            &decoded,
            TranslationOptions::default(),
        ));
        assert_eq!(emitted_exception(&ir.block), Some(expected.as_u32() as u64));
    }
}
