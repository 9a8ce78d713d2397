use rdynarmic::frontend::a32::decoder::{ArmInstId, DecodedArm};
use rdynarmic::frontend::a32::translate::asimd_three_regs::{arm_asimd_vaba, arm_asimd_vabd_float, arm_asimd_vabd_int, arm_asimd_vbic_reg, arm_asimd_vbif, arm_asimd_vbit, arm_asimd_vbsl, arm_asimd_vcgt_reg_int};
use rdynarmic::ir::a32_emitter::A32IREmitter;
use rdynarmic::ir::block::Block;
use rdynarmic::ir::location::A32LocationDescriptor;
use rdynarmic::ir::opcode::Opcode;

fn translate_with(
    inst: DecodedArm,
    f: fn(&mut A32IREmitter, &DecodedArm) -> bool,
) -> Vec<Opcode> {
    let loc = A32LocationDescriptor::at(0x1000);
    let mut ir = A32IREmitter::with_location(Block::new(loc.to_location()), loc);
    let ok = f(&mut ir, &inst);
    assert!(ok);
    ir.block.instructions.iter().map(|inst| inst.opcode).collect()
}

#[test]
fn vbic_reg_emits_vector_and_not() {
    let opcodes = translate_with(
        DecodedArm {
            raw: 0xF210_0110,
            id: ArmInstId::ASIMD_VBIC_reg,
        },
        arm_asimd_vbic_reg,
    );
    assert!(opcodes.contains(&Opcode::VectorAndNot));
    assert_eq!(opcodes.last(), Some(&Opcode::A32SetVector));
}

#[test]
fn vbsl_emits_and_andnot_or_chain() {
    let opcodes = translate_with(
        DecodedArm {
            raw: 0xF310_0110,
            id: ArmInstId::ASIMD_VBSL,
        },
        arm_asimd_vbsl,
    );
    assert!(opcodes.contains(&Opcode::VectorAnd));
    assert!(opcodes.contains(&Opcode::VectorAndNot));
    assert!(opcodes.contains(&Opcode::VectorOr));
    assert_eq!(opcodes.last(), Some(&Opcode::A32SetVector));
}

#[test]
fn vbit_and_vbif_emit_vector_and_not() {
    let vbit = translate_with(
        DecodedArm {
            raw: 0xF320_0110,
            id: ArmInstId::ASIMD_VBIT,
        },
        arm_asimd_vbit,
    );
    let vbif = translate_with(
        DecodedArm {
            raw: 0xF330_0110,
            id: ArmInstId::ASIMD_VBIF,
        },
        arm_asimd_vbif,
    );
    assert!(vbit.contains(&Opcode::VectorAndNot));
    assert!(vbif.contains(&Opcode::VectorAndNot));
}

#[test]
fn vabd_and_vaba_emit_absolute_difference_ops() {
    let vabd = translate_with(
        DecodedArm {
            raw: 0xF200_0700,
            id: ArmInstId::ASIMD_VABD_int,
        },
        arm_asimd_vabd_int,
    );
    let vaba = translate_with(
        DecodedArm {
            raw: 0xF200_0710,
            id: ArmInstId::ASIMD_VABA,
        },
        arm_asimd_vaba,
    );
    assert!(vabd.contains(&Opcode::VectorSignedAbsoluteDifference8));
    assert!(vaba.contains(&Opcode::VectorSignedAbsoluteDifference8));
    assert!(vaba.contains(&Opcode::VectorAdd8));
}

#[test]
fn vabd_float_emits_sub_then_abs() {
    let opcodes = translate_with(
        DecodedArm {
            raw: 0xF320_0D00,
            id: ArmInstId::ASIMD_VABD_float,
        },
        arm_asimd_vabd_float,
    );
    assert!(opcodes.contains(&Opcode::FPVectorSub32));
    assert!(opcodes.contains(&Opcode::FPVectorAbs32));
}

#[test]
fn unsigned_vcgt_uses_edens_min_equal_not_helper_sequence() {
    let opcodes = translate_with(
        DecodedArm {
            raw: 0xF300_0300,
            id: ArmInstId::ASIMD_VCGT_reg_int,
        },
        arm_asimd_vcgt_reg_int,
    );
    for opcode in [Opcode::VectorMinU8, Opcode::VectorEqual8, Opcode::VectorNot] {
        assert!(opcodes.contains(&opcode));
    }
    assert_eq!(opcodes.last(), Some(&Opcode::A32SetVector));
}
