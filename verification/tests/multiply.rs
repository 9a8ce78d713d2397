use rdynarmic::frontend::a32::decoder::{ArmInstId, DecodedArm};
use rdynarmic::frontend::a32::translate::multiply::arm_mul;
use rdynarmic::ir::a32_emitter::A32IREmitter;
use rdynarmic::ir::block::Block;
use rdynarmic::ir::location::A32LocationDescriptor;
use rdynarmic::ir::opcode::Opcode;

#[test]
fn flag_setting_multiply_uses_nz_extractor() {
    let loc = A32LocationDescriptor::at(0x4000);
    let mut ir = A32IREmitter::with_location(Block::new(loc.to_location()), loc);
    assert!(arm_mul(
        &mut ir,
        &DecodedArm {
            raw: (1 << 20) | (2 << 16) | (1 << 8),
            id: ArmInstId::MUL,
        },
    ));

    assert!(ir.block
        .instructions
        .iter()
        .any(|inst| inst.opcode == Opcode::GetNZFromOp));
    assert!(!ir.block
        .instructions
        .iter()
        .any(|inst| inst.opcode == Opcode::GetNZCVFromOp));
}
