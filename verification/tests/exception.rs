use rdynarmic::frontend::a32::decoder::{ArmInstId, DecodedArm};
use rdynarmic::frontend::a32::translate::TranslationOptions;
use rdynarmic::frontend::a32::translate::exception::arm_bkpt;
use rdynarmic::frontend::a32::types::Exception;
use rdynarmic::ir::a32_emitter::A32IREmitter;
use rdynarmic::ir::block::Block;
use rdynarmic::ir::location::A32LocationDescriptor;
use rdynarmic::ir::opcode::Opcode;
use rdynarmic::ir::value::Value;

fn exception_value(block: &Block) -> u64 {
    let instruction = block
        .instructions
        .iter()
        .find(|instruction| instruction.opcode == Opcode::A32ExceptionRaised)
        .expect("missing A32ExceptionRaised");
    let Value::ImmU64(value) = instruction.args.1 else {
        panic!("exception must be an immediate");
    };
    value
}

#[test]
fn conditional_bkpt_respects_define_unpredictable_option() {
    let location = A32LocationDescriptor::at(0x1000);
    let decoded = DecodedArm {
        raw: 0x1120_0070,
        id: ArmInstId::BKPT,
    };

    let mut strict_ir = A32IREmitter::with_location(Block::new(location.to_location()), location);
    assert!(!arm_bkpt(
        &mut strict_ir,
        &decoded,
        TranslationOptions::default(),
    ));
    assert_eq!(
        exception_value(&strict_ir.block),
        Exception::UnpredictableInstruction.as_u32() as u64
    );

    let mut defined_ir = A32IREmitter::with_location(Block::new(location.to_location()), location);
    assert!(!arm_bkpt(
        &mut defined_ir,
        &decoded,
        TranslationOptions {
            define_unpredictable_behaviour: true,
            ..TranslationOptions::default()
        },
    ));
    assert_eq!(
        exception_value(&defined_ir.block),
        Exception::Breakpoint.as_u32() as u64
    );
}
