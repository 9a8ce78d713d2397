use rdynarmic::frontend::a32::decoder::{ArmInstId, DecodedArm};
use rdynarmic::frontend::a32::translate::asimd_two_regs_shift::{arm_asimd_vqshl_imm, arm_asimd_vshrn, arm_asimd_vsli, arm_asimd_vsri};
use rdynarmic::ir::a32_emitter::A32IREmitter;
use rdynarmic::ir::block::Block;
use rdynarmic::ir::location::A32LocationDescriptor;
use rdynarmic::ir::opcode::Opcode;

fn translate_with(
    inst: DecodedArm,
    f: fn(&mut A32IREmitter, &DecodedArm) -> bool,
) -> Vec<Opcode> {
    let loc = A32LocationDescriptor::at(0x2000);
    let mut ir = A32IREmitter::with_location(Block::new(loc.to_location()), loc);
    let ok = f(&mut ir, &inst);
    assert!(ok);
    ir.block.instructions.iter().map(|inst| inst.opcode).collect()
}

#[test]
fn vsri_emits_shift_and_andnot() {
    let opcodes = translate_with(
        DecodedArm {
            raw: 0xF389_0410,
            id: ArmInstId::ASIMD_VSRI,
        },
        arm_asimd_vsri,
    );
    assert!(opcodes.contains(&Opcode::VectorLogicalShiftRight8));
    assert!(opcodes.contains(&Opcode::VectorAndNot));
    assert!(opcodes.contains(&Opcode::VectorOr));
}

#[test]
fn vsli_emits_shift_and_andnot() {
    let opcodes = translate_with(
        DecodedArm {
            raw: 0xF389_0510,
            id: ArmInstId::ASIMD_VSLI,
        },
        arm_asimd_vsli,
    );
    assert!(opcodes.contains(&Opcode::VectorLogicalShiftLeft8));
    assert!(opcodes.contains(&Opcode::VectorAndNot));
    assert!(opcodes.contains(&Opcode::VectorOr));
}

#[test]
fn vqshl_imm_emits_unsigned_saturated_shift_left() {
    let opcodes = translate_with(
        DecodedArm {
            raw: 0xF389_0710,
            id: ArmInstId::ASIMD_VQSHL_imm,
        },
        arm_asimd_vqshl_imm,
    );
    assert!(opcodes.contains(&Opcode::VectorUnsignedSaturatedShiftLeft8));
    assert_eq!(opcodes.last(), Some(&Opcode::A32SetVector));
}

#[test]
fn observed_vshrn_i64_emits_shift_then_narrow() {
    let opcodes = translate_with(
        DecodedArm {
            raw: 0xF2E0_3830,
            id: ArmInstId::ASIMD_VSHRN,
        },
        arm_asimd_vshrn,
    );
    assert!(opcodes.contains(&Opcode::VectorLogicalShiftRight64));
    assert!(opcodes.contains(&Opcode::VectorNarrow64));
    assert_eq!(opcodes.last(), Some(&Opcode::A32SetVector));
}
