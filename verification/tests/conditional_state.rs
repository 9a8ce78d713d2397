use rdynarmic::frontend::a32::translate::conditional_state::{ConditionalState, is_condition_passed};
use rdynarmic::frontend::a32::types::Exception;
use rdynarmic::ir::block::Block;
use rdynarmic::ir::cond::Cond;
use rdynarmic::ir::location::A32LocationDescriptor;
use rdynarmic::ir::opcode::Opcode;
use rdynarmic::ir::terminal::Terminal;
use rdynarmic::ir::value::Value;

#[test]
fn nv_condition_raises_unpredictable_instruction() {
    let loc = A32LocationDescriptor::at(0x1000);
    let mut block = Block::new(loc.to_location());
    let mut state = ConditionalState::Unconditional;

    assert!(!is_condition_passed(
        &mut state,
        &mut block,
        loc,
        4,
        Cond::NV
    ));
    assert_eq!(state, ConditionalState::Break);
    let exception = block
        .instructions
        .iter()
        .find(|inst| inst.opcode == Opcode::A32ExceptionRaised)
        .expect("missing A32ExceptionRaised");
    assert_eq!(
        exception.args.1,
        Value::ImmU64(Exception::UnpredictableInstruction.as_u32() as u64)
    );
    assert!(matches!(
        block.terminal,
        Terminal::CheckHalt { ref else_ }
            if matches!(else_.as_ref(), Terminal::ReturnToDispatch)
    ));
}
