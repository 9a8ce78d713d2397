use rdynarmic::frontend::a32::decoder::{ArmInstId, decode_arm};
use rdynarmic::frontend::a32::fpscr::FPSCR;
use rdynarmic::frontend::a32::psr::PSR;
use rdynarmic::frontend::a32::translate::synchronization::{arm_stlb, arm_stlh, arm_strexb, arm_strexd, arm_strexh};
use rdynarmic::ir::a32_emitter::A32IREmitter;
use rdynarmic::ir::block::Block;
use rdynarmic::ir::location::A32LocationDescriptor;
use rdynarmic::ir::opcode::Opcode;
use rdynarmic::ir::terminal::Terminal;

#[test]
fn arm_stlb_emits_ordered_byte_store_instead_of_exception() {
    let loc = A32LocationDescriptor::new(0x0151FB08, PSR::default(), FPSCR::default(), false);
    let mut ir = A32IREmitter::with_location(Block::new(loc.to_location()), loc);
    let inst = decode_arm(0xE1C7_FC91);
    assert_eq!(inst.id, ArmInstId::STLB);

    assert!(arm_stlb(&mut ir, &inst));
    assert!(ir.block
        .instructions
        .iter()
        .any(|inst| inst.opcode == Opcode::A32WriteMemory8));
    assert!(!ir.block
        .instructions
        .iter()
        .any(|inst| inst.opcode == Opcode::A32ExceptionRaised));
}

#[test]
fn arm_stlh_emits_ordered_half_store_instead_of_exception() {
    let loc = A32LocationDescriptor::new(0x0151FB00, PSR::default(), FPSCR::default(), false);
    let mut ir = A32IREmitter::with_location(Block::new(loc.to_location()), loc);
    let inst = decode_arm(0xE1E0_FC91);
    assert_eq!(inst.id, ArmInstId::STLH);

    assert!(arm_stlh(&mut ir, &inst));
    assert!(ir.block
        .instructions
        .iter()
        .any(|inst| inst.opcode == Opcode::A32WriteMemory16));
    assert!(!ir.block
        .instructions
        .iter()
        .any(|inst| inst.opcode == Opcode::A32ExceptionRaised));
}

#[test]
fn arm_strexh_with_rd_pc_raises_unpredictable_instead_of_writing_pc() {
    let loc = A32LocationDescriptor::new(0x01DF8048, PSR::default(), FPSCR::default(), false);
    let mut ir = A32IREmitter::with_location(Block::new(loc.to_location()), loc);
    let inst = decode_arm(0xE1E7_FF90);
    assert_eq!(inst.id, ArmInstId::STREXH);

    assert!(!arm_strexh(&mut ir, &inst));
    assert!(ir.block
        .instructions
        .iter()
        .any(|inst| inst.opcode == Opcode::A32ExceptionRaised));
    assert!(!ir.block
        .instructions
        .iter()
        .any(|inst| inst.opcode == Opcode::A32BXWritePC));
    assert!(matches!(ir.block.terminal, Terminal::CheckHalt { .. }));
}

#[test]
fn arm_strexb_with_rd_pc_raises_unpredictable_instead_of_writing_pc() {
    let loc = A32LocationDescriptor::new(0x01DF8050, PSR::default(), FPSCR::default(), false);
    let mut ir = A32IREmitter::with_location(Block::new(loc.to_location()), loc);
    let inst = decode_arm(0xE1C0_FF92);
    assert_eq!(inst.id, ArmInstId::STREXB);

    assert!(!arm_strexb(&mut ir, &inst));
    assert!(ir.block
        .instructions
        .iter()
        .any(|inst| inst.opcode == Opcode::A32ExceptionRaised));
    assert!(!ir.block
        .instructions
        .iter()
        .any(|inst| inst.opcode == Opcode::A32BXWritePC));
    assert!(matches!(ir.block.terminal, Terminal::CheckHalt { .. }));
}

#[test]
fn arm_strexd_emits_single_atomic_exclusive_write_memory_64() {
    let loc = A32LocationDescriptor::new(0x01DF8060, PSR::default(), FPSCR::default(), false);
    let mut ir = A32IREmitter::with_location(Block::new(loc.to_location()), loc);
    let inst = decode_arm(0xE1A1_2F94);
    assert_eq!(inst.id, ArmInstId::STREXD);

    assert!(arm_strexd(&mut ir, &inst));
    assert_eq!(
        ir.block
            .instructions
            .iter()
            .filter(|inst| inst.opcode == Opcode::A32ExclusiveWriteMemory64)
            .count(),
        1
    );
    assert_eq!(
        ir.block
            .instructions
            .iter()
            .filter(|inst| inst.opcode == Opcode::A32ExclusiveWriteMemory32)
            .count(),
        0
    );
}
