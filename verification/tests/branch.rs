use rdynarmic::frontend::a32::decoder::{ArmInstId, DecodedArm};
use rdynarmic::frontend::a32::fpscr::FPSCR;
use rdynarmic::frontend::a32::psr::PSR;
use rdynarmic::frontend::a32::translate::branch::arm_blx_reg;
use rdynarmic::frontend::a32::types::Reg;
use rdynarmic::ir::a32_emitter::A32IREmitter;
use rdynarmic::ir::block::Block;
use rdynarmic::ir::location::A32LocationDescriptor;
use rdynarmic::ir::opcode::Opcode;
use rdynarmic::ir::terminal::Terminal;
use rdynarmic::ir::value::Value;

#[test]
fn arm_blx_reg_writes_pc_before_link_register() {
    let loc = A32LocationDescriptor::new(0x4000, PSR::default(), FPSCR::default(), false);
    let mut ir = A32IREmitter::with_location(Block::new(loc.to_location()), loc);
    let inst = DecodedArm {
        raw: (0xE << 28) | 0x012F_FF30 | 14,
        id: ArmInstId::BLX_reg,
    };

    assert!(!arm_blx_reg(&mut ir, &inst));
    assert_eq!(ir.block.instructions.len(), 4);
    let bx_pos = ir.block
        .instructions
        .iter()
        .position(|inst| inst.opcode == Opcode::A32BXWritePC)
        .expect("missing A32BXWritePC");
    let lr_pos = ir.block
        .instructions
        .iter()
        .position(|inst| inst.opcode == Opcode::A32SetRegister)
        .expect("missing A32SetRegister");
    assert!(ir.block
        .instructions
        .iter()
        .any(|inst| inst.opcode == Opcode::PushRSB));
    assert!(ir.block
        .instructions
        .iter()
        .any(|inst| inst.opcode == Opcode::A32GetRegister));
    assert!(bx_pos < lr_pos);
    assert_eq!(ir.block.instructions[lr_pos].args.0, Value::ImmA32Reg(Reg::R14));
    assert!(matches!(ir.block.terminal, Terminal::CheckHalt { .. }));
}
