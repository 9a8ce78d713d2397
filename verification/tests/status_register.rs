use rdynarmic::frontend::a32::decoder::{ArmInstId, DecodedArm};
use rdynarmic::frontend::a32::fpscr::FPSCR;
use rdynarmic::frontend::a32::psr::PSR;
use rdynarmic::frontend::a32::translate::status_register::arm_msr_reg;
use rdynarmic::ir::a32_emitter::A32IREmitter;
use rdynarmic::ir::block::Block;
use rdynarmic::ir::location::A32LocationDescriptor;
use rdynarmic::ir::opcode::Opcode;
use rdynarmic::ir::terminal::Terminal;

#[test]
fn arm_msr_reg_write_e_matches_upstream_control_flow() {
    let loc = A32LocationDescriptor::new(0x4000, PSR::default(), FPSCR::default(), false);
    let mut ir = A32IREmitter::with_location(Block::new(loc.to_location()), loc);
    let inst = DecodedArm {
        raw: (0xE << 28) | (0b0110 << 16),
        id: ArmInstId::MSR_reg,
    };

    assert!(!arm_msr_reg(&mut ir, &inst));
    assert!(ir.block
        .instructions
        .iter()
        .any(|inst| inst.opcode == Opcode::PushRSB));
    assert_eq!(
        ir.block.instructions.last().map(|inst| inst.opcode),
        Some(Opcode::A32SetRegister)
    );
    assert!(matches!(
        &ir.block.terminal,
        Terminal::CheckHalt { else_ } if matches!(else_.as_ref(), Terminal::PopRSBHint)
    ));
}
