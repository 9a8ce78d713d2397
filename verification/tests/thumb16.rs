use rdynarmic::frontend::a32::decoder_thumb16::{DecodedThumb16, Thumb16InstId};
use rdynarmic::frontend::a32::fpscr::FPSCR;
use rdynarmic::frontend::a32::it_state::ITState;
use rdynarmic::frontend::a32::psr::PSR;
use rdynarmic::frontend::a32::translate::TranslationOptions;
use rdynarmic::frontend::a32::translate::thumb16::{thumb16_blx_reg, thumb16_it, thumb16_pop, thumb16_push, translate_thumb16};
use rdynarmic::frontend::a32::types::{Exception, Reg};
use rdynarmic::ir::a32_emitter::A32IREmitter;
use rdynarmic::ir::acc_type::AccType;
use rdynarmic::ir::block::Block;
use rdynarmic::ir::location::A32LocationDescriptor;
use rdynarmic::ir::opcode::Opcode;
use rdynarmic::ir::terminal::Terminal;
use rdynarmic::ir::value::Value;

#[test]
fn thumb16_blx_reg_writes_pc_before_link_register() {
    let loc = A32LocationDescriptor::new(0x4000, PSR::new(0x20), FPSCR::default(), false);
    let mut ir = A32IREmitter::with_location(Block::new(loc.to_location()), loc);
    let inst = DecodedThumb16 {
        raw: 0x47F0,
        id: Thumb16InstId::BlxReg,
    };

    assert!(!thumb16_blx_reg(&mut ir, &inst));

    let bx_pos = ir.block
        .instructions
        .iter()
        .position(|inst| inst.opcode == Opcode::A32BXWritePC)
        .expect("missing A32BXWritePC");
    let lr_pos = ir.block
        .instructions
        .iter()
        .position(|inst| {
            inst.opcode == Opcode::A32SetRegister && inst.args.0 == Value::ImmA32Reg(Reg::R14)
        })
        .expect("missing LR write");

    assert!(bx_pos < lr_pos);
    assert!(matches!(ir.block.terminal, Terminal::FastDispatchHint));
}

#[test]
fn thumb16_it_links_to_descriptor_with_it_state() {
    let loc = A32LocationDescriptor::new(0x4000, PSR::new(0x20), FPSCR::default(), false);
    let mut ir = A32IREmitter::with_location(Block::new(loc.to_location()), loc);
    let inst = DecodedThumb16 {
        raw: 0xBF08, // IT EQ
        id: Thumb16InstId::IT,
    };

    assert!(!thumb16_it(&mut ir, &inst));
    let expected = loc
        .advance_pc(2)
        .set_it(ITState::new(0x08));
    assert!(matches!(
        ir.block.terminal,
        Terminal::LinkBlockFast { next } if next == expected.to_location()
    ));
}

#[test]
fn thumb16_it_reserved_condition_is_unpredictable() {
    let loc = A32LocationDescriptor::new(0x4000, PSR::new(0x20), FPSCR::default(), false);
    let mut ir = A32IREmitter::with_location(Block::new(loc.to_location()), loc);
    let inst = DecodedThumb16 {
        raw: 0xBFF8,
        id: Thumb16InstId::IT,
    };

    assert!(!thumb16_it(&mut ir, &inst));
    assert!(ir.block
        .instructions
        .iter()
        .any(|inst| inst.opcode == Opcode::A32ExceptionRaised));
    assert!(matches!(
        ir.block.terminal,
        Terminal::CheckHalt { ref else_ }
            if matches!(else_.as_ref(), Terminal::ReturnToDispatch)
    ));
}

#[test]
fn thumb16_udf_raises_undefined_with_two_byte_return_pc() {
    let loc = A32LocationDescriptor::new(0x4000, PSR::new(0x20), FPSCR::default(), false);
    let mut ir = A32IREmitter::with_location(Block::new(loc.to_location()), loc);
    let inst = DecodedThumb16 {
        raw: 0xDE00,
        id: Thumb16InstId::UDF,
    };

    assert!(!translate_thumb16(
        &mut ir,
        &inst,
        TranslationOptions::default(),
    ));
    let exception = ir.block
        .instructions
        .iter()
        .find(|inst| inst.opcode == Opcode::A32ExceptionRaised)
        .expect("missing A32ExceptionRaised");
    assert_eq!(
        exception.args.1,
        Value::ImmU64(
            Exception::UndefinedInstruction.as_u32() as u64
        )
    );
    assert!(ir.block.instructions.iter().any(|inst| {
        inst.opcode == Opcode::And32
            && inst.args.0 == Value::ImmU32(0x4002)
            && inst.args.1 == Value::ImmU32(0xFFFF_FFFE)
    }));
}

#[test]
fn thumb16_hint_option_selects_nop_or_exception() {
    let loc = A32LocationDescriptor::new(0x4000, PSR::new(0x20), FPSCR::default(), false);
    let inst = DecodedThumb16 {
        raw: 0xBF30,
        id: Thumb16InstId::WFI,
    };

    let mut disabled_ir = A32IREmitter::with_location(Block::new(loc.to_location()), loc);
    assert!(translate_thumb16(
        &mut disabled_ir,
        &inst,
        TranslationOptions {
            hook_hint_instructions: false,
            ..TranslationOptions::default()
        },
    ));
    assert!(disabled_ir.block.instructions.is_empty());

    let mut enabled_ir = A32IREmitter::with_location(Block::new(loc.to_location()), loc);
    assert!(!translate_thumb16(
        &mut enabled_ir,
        &inst,
        TranslationOptions::default(),
    ));
    let exception = enabled_ir.block
        .instructions
        .iter()
        .find(|instruction| instruction.opcode == Opcode::A32ExceptionRaised)
        .expect("missing A32ExceptionRaised");
    assert_eq!(
        exception.args.1,
        Value::ImmU64(Exception::WaitForInterrupt.as_u32() as u64)
    );
}

#[test]
fn thumb16_push_pop_use_atomic_stack_accesses() {
    let loc = A32LocationDescriptor::new(0x4000, PSR::new(0x20), FPSCR::default(), false);

    let mut push_block_ir = A32IREmitter::with_location(Block::new(loc.to_location()), loc);
    let inst = DecodedThumb16 {
        raw: 0xB501, // PUSH {r0, lr}
        id: Thumb16InstId::PUSH,
    };
    assert!(thumb16_push(&mut push_block_ir, &inst));
    let writes: Vec<_> = push_block_ir.block
        .instructions
        .iter()
        .filter(|inst| inst.opcode == Opcode::A32WriteMemory32)
        .collect();
    assert_eq!(writes.len(), 2);
    assert!(writes
        .iter()
        .all(|inst| inst.args.3 == Value::ImmAccType(AccType::Atomic)));

    let mut pop_block_ir = A32IREmitter::with_location(Block::new(loc.to_location()), loc);
    let inst = DecodedThumb16 {
        raw: 0xBD01, // POP {r0, pc}
        id: Thumb16InstId::POP,
    };
    assert!(!thumb16_pop(&mut pop_block_ir, &inst));
    let reads: Vec<_> = pop_block_ir.block
        .instructions
        .iter()
        .filter(|inst| inst.opcode == Opcode::A32ReadMemory32)
        .collect();
    assert_eq!(reads.len(), 2);
    assert!(reads
        .iter()
        .all(|inst| inst.args.2 == Value::ImmAccType(AccType::Atomic)));
    let last_increment = pop_block_ir.block
        .instructions
        .iter()
        .rposition(|inst| inst.opcode == Opcode::Add32)
        .expect("POP address increment");
    let sp_write = pop_block_ir.block
        .instructions
        .iter()
        .position(|inst| {
            inst.opcode == Opcode::A32SetRegister && inst.args.0 == Value::ImmA32Reg(Reg::R13)
        })
        .expect("POP stack-pointer write");
    assert!(last_increment < sp_write);
    assert!(matches!(pop_block_ir.block.terminal, Terminal::PopRSBHint));
}

#[test]
fn thumb16_empty_push_pop_are_unpredictable() {
    let loc = A32LocationDescriptor::new(0x4000, PSR::new(0x20), FPSCR::default(), false);
    for (raw, id) in [(0xB400, Thumb16InstId::PUSH), (0xBC00, Thumb16InstId::POP)] {
        let mut ir = A32IREmitter::with_location(Block::new(loc.to_location()), loc);
        let inst = DecodedThumb16 { raw, id };
        let result = match id {
            Thumb16InstId::PUSH => thumb16_push(&mut ir, &inst),
            Thumb16InstId::POP => thumb16_pop(&mut ir, &inst),
            _ => unreachable!(),
        };
        assert!(!result);
        assert!(ir.block
            .instructions
            .iter()
            .any(|inst| inst.opcode == Opcode::A32ExceptionRaised));
        assert!(!ir.block
            .instructions
            .iter()
            .any(|inst| inst.opcode == Opcode::A32GetRegister));
    }
}
