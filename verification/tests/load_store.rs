use rdynarmic::frontend::a32::decoder::{ArmInstId, DecodedArm};
use rdynarmic::frontend::a32::fpscr::FPSCR;
use rdynarmic::frontend::a32::psr::PSR;
use rdynarmic::frontend::a32::translate::load_store::{arm_ldr_imm, arm_ldr_lit, arm_ldr_reg, arm_ldrb_imm, arm_ldrb_lit, arm_ldrb_reg, arm_ldrd_imm, arm_ldrd_lit, arm_ldrd_reg, arm_ldrh_imm, arm_ldrh_lit, arm_ldrh_reg, arm_ldrsb_imm, arm_ldrsb_lit, arm_ldrsb_reg, arm_ldrsh_imm, arm_ldrsh_lit, arm_ldrsh_reg, arm_strd_imm};
use rdynarmic::ir::a32_emitter::A32IREmitter;
use rdynarmic::ir::block::Block;
use rdynarmic::ir::location::A32LocationDescriptor;
use rdynarmic::ir::opcode::Opcode;
use rdynarmic::ir::terminal::Terminal;
use rdynarmic::ir::value::Value;

fn translate_literal(
    raw: u32,
    id: ArmInstId,
    visitor: fn(&mut A32IREmitter, &DecodedArm) -> bool,
) -> (Block, bool) {
    let loc = A32LocationDescriptor::new(0x1002, PSR::default(), FPSCR::default(), false);
    let mut ir = A32IREmitter::with_location(Block::new(loc.to_location()), loc);
    let result = visitor(&mut ir, &DecodedArm { raw, id });
    (ir.block, result)
}

fn assert_literal_address(
    raw: u32,
    id: ArmInstId,
    visitor: fn(&mut A32IREmitter, &DecodedArm) -> bool,
    read_opcode: Opcode,
    expected_address: u32,
) {
    let (block, result) = translate_literal(raw, id, visitor);
    assert!(result);
    let read = block
        .instructions
        .iter()
        .find(|inst| inst.opcode == read_opcode)
        .expect("literal visitor must emit its memory read");
    assert_eq!(read.args.1, Value::ImmU32(expected_address));
    assert!(block
        .instructions
        .iter()
        .all(|inst| !matches!(inst.opcode, Opcode::Add32 | Opcode::Sub32)));
}

fn assert_unpredictable_load(
    raw: u32,
    id: ArmInstId,
    visitor: fn(&mut A32IREmitter, &DecodedArm) -> bool,
) {
    let (block, result) = translate_literal(raw, id, visitor);
    assert!(!result);
    assert!(block
        .instructions
        .iter()
        .any(|inst| inst.opcode == Opcode::A32ExceptionRaised));
    assert!(matches!(block.terminal, Terminal::CheckHalt { .. }));
}

#[test]
fn arm_literal_loads_use_aligned_immediate_addresses() {
    // At guest PC 0x1002, ARM's visible PC is 0x100A and AlignPC(4)
    // therefore yields 0x1008. The split immediate forms below encode
    // 0x24 as imm8a:imm8b.
    assert_literal_address(
        0xE59F_0014,
        ArmInstId::LDR_lit,
        arm_ldr_lit,
        Opcode::A32ReadMemory32,
        0x101C,
    );
    assert_literal_address(
        0xE51F_0014,
        ArmInstId::LDR_lit,
        arm_ldr_lit,
        Opcode::A32ReadMemory32,
        0x0FF4,
    );
    assert_literal_address(
        0xE5DF_0024,
        ArmInstId::LDRB_lit,
        arm_ldrb_lit,
        Opcode::A32ReadMemory8,
        0x102C,
    );
    assert_literal_address(
        0xE1DF_02B4,
        ArmInstId::LDRH_lit,
        arm_ldrh_lit,
        Opcode::A32ReadMemory16,
        0x102C,
    );
    assert_literal_address(
        0xE1DF_02D4,
        ArmInstId::LDRSB_lit,
        arm_ldrsb_lit,
        Opcode::A32ReadMemory8,
        0x102C,
    );
    assert_literal_address(
        0xE1DF_02F4,
        ArmInstId::LDRSH_lit,
        arm_ldrsh_lit,
        Opcode::A32ReadMemory16,
        0x102C,
    );
    assert_literal_address(
        0xE1CF_02D4,
        ArmInstId::LDRD_lit,
        arm_ldrd_lit,
        Opcode::A32ReadMemory64,
        0x102C,
    );
}

#[test]
fn arm_ldr_literal_to_pc_uses_fast_dispatch_hint() {
    let (block, result) = translate_literal(0xE59F_F000, ArmInstId::LDR_lit, arm_ldr_lit);
    assert!(!result);
    assert!(matches!(block.terminal, Terminal::FastDispatchHint));
    assert!(block
        .instructions
        .iter()
        .any(|inst| inst.opcode == Opcode::A32BXWritePC));
}

#[test]
fn arm_nonword_literal_to_pc_is_unpredictable() {
    let (block, result) = translate_literal(0xE5DF_F000, ArmInstId::LDRB_lit, arm_ldrb_lit);
    assert!(!result);
    assert!(block
        .instructions
        .iter()
        .any(|inst| inst.opcode == Opcode::A32ExceptionRaised));
    assert!(matches!(block.terminal, Terminal::CheckHalt { .. }));
}

#[test]
fn arm_immediate_and_register_loads_preserve_upstream_validation() {
    for (raw, id, visitor) in [
        (
            0xE59F_0000,
            ArmInstId::LDR_imm,
            arm_ldr_imm as fn(&mut A32IREmitter, &DecodedArm) -> bool,
        ),
        (0xE5DF_0000, ArmInstId::LDRB_imm, arm_ldrb_imm),
        (0xE1DF_00B0, ArmInstId::LDRH_imm, arm_ldrh_imm),
        (0xE1DF_00D0, ArmInstId::LDRSB_imm, arm_ldrsb_imm),
        (0xE1DF_00F0, ArmInstId::LDRSH_imm, arm_ldrsh_imm),
        (0xE1CF_00D0, ArmInstId::LDRD_imm, arm_ldrd_imm),
    ] {
        assert_unpredictable_load(raw, id, visitor);
    }

    let register_fields = (1 << 24) | (1 << 23) | (1 << 16) | 15;
    for (id, visitor) in [
        (
            ArmInstId::LDR_reg,
            arm_ldr_reg as fn(&mut A32IREmitter, &DecodedArm) -> bool,
        ),
        (ArmInstId::LDRB_reg, arm_ldrb_reg),
        (ArmInstId::LDRH_reg, arm_ldrh_reg),
        (ArmInstId::LDRSB_reg, arm_ldrsb_reg),
        (ArmInstId::LDRSH_reg, arm_ldrsh_reg),
        (ArmInstId::LDRD_reg, arm_ldrd_reg),
    ] {
        assert_unpredictable_load(register_fields, id, visitor);
    }
}

#[test]
fn arm_ldrd_literal_splits_words_in_guest_endian_order() {
    for (big_endian, expected) in [
        (
            false,
            [
                Opcode::LeastSignificantWord,
                Opcode::A32SetRegister,
                Opcode::MostSignificantWord,
                Opcode::A32SetRegister,
            ],
        ),
        (
            true,
            [
                Opcode::MostSignificantWord,
                Opcode::A32SetRegister,
                Opcode::LeastSignificantWord,
                Opcode::A32SetRegister,
            ],
        ),
    ] {
        let mut psr = PSR::default();
        psr.set_e(big_endian);
        let loc = A32LocationDescriptor::new(0x1000, psr, FPSCR::default(), false);
        let mut ir = A32IREmitter::with_location(Block::new(loc.to_location()), loc);
        assert!(arm_ldrd_lit(
            &mut ir,
            &DecodedArm {
                raw: 0xE1CF_00D0,
                id: ArmInstId::LDRD_lit,
            },
        ));
        let actual = ir.block
            .instructions
            .iter()
            .filter_map(|inst| {
                matches!(
                    inst.opcode,
                    Opcode::LeastSignificantWord
                        | Opcode::MostSignificantWord
                        | Opcode::A32SetRegister
                )
                .then_some(inst.opcode)
            })
            .collect::<Vec<_>>();
        assert_eq!(actual, expected);
    }
}

#[test]
fn arm_strd_imm_emits_single_atomic_write_memory_64() {
    let loc = A32LocationDescriptor::new(0x1000, PSR::default(), FPSCR::default(), false);
    let mut ir = A32IREmitter::with_location(Block::new(loc.to_location()), loc);
    let inst = DecodedArm {
        raw: 0xE1A1_20F4,
        id: ArmInstId::STRD_imm,
    };

    assert!(arm_strd_imm(&mut ir, &inst));
    assert_eq!(
        ir.block
            .instructions
            .iter()
            .filter(|inst| inst.opcode == Opcode::A32WriteMemory64)
            .count(),
        1
    );
    assert_eq!(
        ir.block
            .instructions
            .iter()
            .filter(|inst| inst.opcode == Opcode::A32WriteMemory32)
            .count(),
        0
    );
}

#[test]
fn arm_ldrd_imm_emits_single_atomic_read_memory_64() {
    let loc = A32LocationDescriptor::new(0x1000, PSR::default(), FPSCR::default(), false);
    let mut ir = A32IREmitter::with_location(Block::new(loc.to_location()), loc);
    let inst = DecodedArm {
        raw: 0xE1B1_20D4,
        id: ArmInstId::LDRD_imm,
    };

    assert!(arm_ldrd_imm(&mut ir, &inst));
    assert_eq!(
        ir.block
            .instructions
            .iter()
            .filter(|inst| inst.opcode == Opcode::A32ReadMemory64)
            .count(),
        1
    );
    assert_eq!(
        ir.block
            .instructions
            .iter()
            .filter(|inst| inst.opcode == Opcode::A32ReadMemory32)
            .count(),
        0
    );
}
