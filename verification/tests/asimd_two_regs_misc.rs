use rdynarmic::frontend::a32::decoder::{ArmInstId, DecodedArm, decode_arm};
use rdynarmic::frontend::a32::translate::asimd_two_regs_misc::{arm_asimd_vmovn, arm_asimd_vqmovn};
use rdynarmic::ir::a32_emitter::A32IREmitter;
use rdynarmic::ir::block::Block;
use rdynarmic::ir::location::A32LocationDescriptor;
use rdynarmic::ir::opcode::Opcode;

#[test]
fn saturated_narrow_rejects_reserved_size_and_odd_source() {
    for raw in [0xF3FE_02A0, 0xF3F6_02A1] {
        let loc = A32LocationDescriptor::at(0x2000);
        let mut ir = A32IREmitter::with_location(Block::new(loc.to_location()), loc);
        let decoded = decode_arm(raw);
        assert_eq!(decoded.id, ArmInstId::ASIMD_VQMOVN);
        assert!(!arm_asimd_vqmovn(&mut ir, &decoded));
    }
}

#[test]
fn observed_vmovn_i64_emits_narrow() {
    let loc = A32LocationDescriptor::at(0x2000);
    let mut ir = A32IREmitter::with_location(Block::new(loc.to_location()), loc);
    let decoded = DecodedArm {
        raw: 0xF3FA_2220,
        id: ArmInstId::ASIMD_VMOVN,
    };
    let ok = arm_asimd_vmovn(&mut ir, &decoded);
    assert!(ok);
    let opcodes: Vec<_> = ir.block.instructions.iter().map(|inst| inst.opcode).collect();
    assert!(opcodes.contains(&Opcode::VectorNarrow64));
    assert_eq!(opcodes.last(), Some(&Opcode::A32SetVector));
}
