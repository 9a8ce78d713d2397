use rdynarmic::frontend::a32::decoder::{ArmInstId, DecodedArm};
use rdynarmic::frontend::a32::translate::data_processing::{arm_dp_imm, arm_dp_rsr};
use rdynarmic::ir::a32_emitter::A32IREmitter;
use rdynarmic::ir::block::Block;
use rdynarmic::ir::location::{A32LocationDescriptor, LocationDescriptor};
use rdynarmic::ir::opcode::Opcode;

fn immediate_opcodes(raw: u32, id: ArmInstId) -> Vec<Opcode> {
    let mut ir = A32IREmitter::with_location(Block::new(LocationDescriptor(0)), A32LocationDescriptor::at(0));
    assert!(arm_dp_imm(&mut ir, &DecodedArm { raw, id }));
    ir.block.instructions.iter().map(|inst| inst.opcode).collect()
}

#[test]
fn immediate_expansion_matches_upstream_carry_reads() {
    let add = immediate_opcodes(0xe280_1001, ArmInstId::ADD_imm);
    assert!(!add.contains(&Opcode::A32GetCFlag));

    let adc = immediate_opcodes(0xe2a0_1001, ArmInstId::ADC_imm);
    assert_eq!(
        adc.iter()
            .filter(|opcode| **opcode == Opcode::A32GetCFlag)
            .count(),
        1
    );
    let register_read = adc
        .iter()
        .position(|opcode| *opcode == Opcode::A32GetRegister)
        .expect("ADC register read");
    let carry_read = adc
        .iter()
        .position(|opcode| *opcode == Opcode::A32GetCFlag)
        .expect("ADC carry read");
    assert!(register_read < carry_read);

    let and = immediate_opcodes(0xe200_1001, ArmInstId::AND_imm);
    assert_eq!(and.first(), Some(&Opcode::A32GetCFlag));
    assert_eq!(
        and.iter()
            .filter(|opcode| **opcode == Opcode::A32GetCFlag)
            .count(),
        1
    );

    let bic = immediate_opcodes(0xe3c0_1001, ArmInstId::BIC_imm);
    assert!(bic.contains(&Opcode::AndNot32));
    assert!(!bic.contains(&Opcode::Not32));
}

#[test]
fn invalid_pc_destinations_preserve_upstream_unpredictable_ordering() {
    let location = A32LocationDescriptor::at(0x1000);
    let mut ir = A32IREmitter::with_location(Block::new(location.to_location()), location);
    assert!(!arm_dp_imm(
        &mut ir,
        &DecodedArm {
            raw: 0xe290_f001,
            id: ArmInstId::ADD_imm,
        },
    ));
    assert!(!ir.block
        .instructions
        .iter()
        .any(|inst| inst.opcode == Opcode::A32BXWritePC));
    assert!(!ir.block
        .instructions
        .iter()
        .any(|inst| { matches!(inst.opcode, Opcode::A32SetCpsrNZC | Opcode::A32SetCpsrNZCV) }));

    let mut ir = A32IREmitter::with_location(Block::new(location.to_location()), location);
    assert!(!arm_dp_rsr(
        &mut ir,
        &DecodedArm {
            raw: 0xe0a0_f211,
            id: ArmInstId::ADC_rsr,
        },
    ));
    assert!(!ir.block
        .instructions
        .iter()
        .any(|inst| inst.opcode == Opcode::A32GetRegister));
}

#[test]
fn register_shift_reads_match_upstream_ordering() {
    let mut ir = A32IREmitter::with_location(Block::new(LocationDescriptor(0)), A32LocationDescriptor::at(0));
    assert!(arm_dp_rsr(
        &mut ir,
        &DecodedArm {
            raw: 0xe0a0_1213,
            id: ArmInstId::ADC_rsr,
        },
    ));

    let opcodes: Vec<_> = ir.block.instructions.iter().map(|inst| inst.opcode).collect();
    assert_eq!(
        &opcodes[..4],
        &[
            Opcode::A32GetRegister,
            Opcode::LeastSignificantByte,
            Opcode::A32GetCFlag,
            Opcode::A32GetRegister,
        ]
    );

    let operand_read = opcodes
        .iter()
        .rposition(|opcode| *opcode == Opcode::A32GetRegister)
        .expect("ADC operand register read");
    let arithmetic_carry = opcodes
        .iter()
        .rposition(|opcode| *opcode == Opcode::A32GetCFlag)
        .expect("ADC arithmetic carry read");
    assert!(operand_read < arithmetic_carry);
}
