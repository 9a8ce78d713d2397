use rdynarmic::frontend::a32::fpscr::FPSCR;
use rdynarmic::frontend::a32::it_state::ITState;
use rdynarmic::frontend::a32::psr::PSR;
use rdynarmic::frontend::a32::translate::helpers::{it_block_check, most_significant_half, pack_2x16_to_1x32, rotate};
use rdynarmic::frontend::a32::types::Reg;
use rdynarmic::ir::a32_emitter::A32IREmitter;
use rdynarmic::ir::block::Block;
use rdynarmic::ir::location::{A32LocationDescriptor, LocationDescriptor};
use rdynarmic::ir::opcode::Opcode;
use rdynarmic::ir::value::{InstRef, Value};

fn inst_ref(value: Value) -> InstRef {
    match value {
        Value::Inst(inst) => inst,
        _ => panic!("not the result of an instruction"),
    }
}

#[test]
fn common_halfword_helpers_preserve_upstream_ir_order() {
    let mut ir = A32IREmitter::with_location(Block::new(LocationDescriptor(0)), A32LocationDescriptor::at(0));

    let packed = pack_2x16_to_1x32(
        &mut ir,
        Value::ImmU32(0xaaaa_5555),
        Value::ImmU32(0xbbbb_6666),
    );
    let upper = most_significant_half(&mut ir, Value::ImmU32(0x1234_5678));

    assert_eq!(ir.block.get(inst_ref(packed)).opcode, Opcode::Or32);
    assert_eq!(
        ir.block.get(inst_ref(upper)).opcode,
        Opcode::LeastSignificantHalf
    );
    assert_eq!(
        ir.block.get(InstRef(0)).opcode,
        Opcode::And32
    );
    assert_eq!(
        ir.block.get(InstRef(1)).opcode,
        Opcode::LogicalShiftLeft32
    );
    assert_eq!(
        ir.block.get(InstRef(3)).opcode,
        Opcode::LogicalShiftRight32
    );
}

#[test]
fn rotate_emits_ror_even_for_zero_rotation() {
    let mut ir = A32IREmitter::with_location(Block::new(LocationDescriptor(0)), A32LocationDescriptor::at(0));
    let _ = rotate(&mut ir, Reg::R3, 0);

    assert_eq!(ir.block.instructions[0].opcode, Opcode::A32GetRegister);
    assert_eq!(ir.block.instructions[0].args.0, Value::ImmA32Reg(Reg::R3));
    assert_eq!(ir.block.instructions[1].opcode, Opcode::BitRotateRight32);
    assert_eq!(ir.block.instructions[1].args.1, Value::ImmU8(0));
    assert_eq!(ir.block.instructions[1].args.2, Value::ImmU1(false));
}

#[test]
fn it_block_check_only_rejects_nonfinal_it_positions() {
    for (state, expected) in [(0x00, false), (0x08, false), (0x0c, true)] {
        let location =
            A32LocationDescriptor::new(0x1000, PSR::default(), FPSCR::default(), false)
                .set_it(ITState::new(state));
        let ir = A32IREmitter::with_location(Block::new(location.to_location()), location);
        assert_eq!(it_block_check(&ir), expected, "IT state {state:02x}");
    }
}
