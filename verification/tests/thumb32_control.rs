use rdynarmic::frontend::a32::decoder_thumb32::{DecodedThumb32, Thumb32InstId};
use rdynarmic::frontend::a32::fpscr::FPSCR;
use rdynarmic::frontend::a32::psr::PSR;
use rdynarmic::frontend::a32::translate::thumb32_control::{thumb32_bxj, thumb32_isb, thumb32_mrs_reg, thumb32_msr_reg, thumb32_udf};
use rdynarmic::frontend::a32::types::{Exception, Reg};
use rdynarmic::ir::a32_emitter::A32IREmitter;
use rdynarmic::ir::block::Block;
use rdynarmic::ir::location::A32LocationDescriptor;
use rdynarmic::ir::opcode::Opcode;
use rdynarmic::ir::terminal::Terminal;
use rdynarmic::ir::value::Value;

fn thumb_loc(pc: u32) -> A32LocationDescriptor {
    let mut psr = PSR::default();
    psr.set_t(true);
    A32LocationDescriptor::new(pc, psr, FPSCR::default(), false)
}

#[test]
fn thumb32_bxj_matches_upstream_validation_and_thumb16_bx_lifecycle() {
    let loc = thumb_loc(0x1000);

    let mut invalid_ir = A32IREmitter::with_location(Block::new(loc.to_location()), loc);
    let inst = DecodedThumb32 {
        raw: 0xf3cf_8f00,
        id: Thumb32InstId::BXJ,
    };
    assert!(!thumb32_bxj(&mut invalid_ir, &inst));
    assert!(invalid_ir.block
        .instructions
        .iter()
        .any(|inst| inst.opcode == Opcode::A32ExceptionRaised));
    assert!(!invalid_ir.block
        .instructions
        .iter()
        .any(|inst| inst.opcode == Opcode::A32GetRegister));

    let mut valid_ir = A32IREmitter::with_location(Block::new(loc.to_location()), loc);
    let inst = DecodedThumb32 {
        raw: 0xf3ce_8f00,
        id: Thumb32InstId::BXJ,
    };
    assert!(!thumb32_bxj(&mut valid_ir, &inst));
    assert!(valid_ir.block
        .instructions
        .iter()
        .any(|inst| inst.opcode == Opcode::A32BXWritePC));
    assert!(matches!(valid_ir.block.terminal, Terminal::PopRSBHint));
}

/// Assert `f(raw)` stops translation raising exactly `expected` with the
/// full RaiseException lifecycle (descriptor update + PC write + terminal).
fn assert_thumb32_exception(
    raw: u32,
    f: fn(&mut A32IREmitter, &DecodedThumb32) -> bool,
    expected: Exception,
) {
    let loc = thumb_loc(0x1000);
    let mut ir = A32IREmitter::with_location(Block::new(loc.to_location()), loc);
    let cont = f(
        &mut ir,
        &DecodedThumb32 {
            raw,
            id: Thumb32InstId::Unknown,
        },
    );
    assert!(!cont);
    let ops: Vec<_> = ir.block.instructions.iter().map(|i| i.opcode).collect();
    assert!(ops.contains(&Opcode::A32UpdateUpperLocationDescriptor));
    assert!(ops.contains(&Opcode::A32SetRegister));
    assert_eq!(ops.last(), Some(&Opcode::A32ExceptionRaised));
    let exc = ir.block
        .instructions
        .iter()
        .rev()
        .find(|i| i.opcode == Opcode::A32ExceptionRaised)
        .expect("exception present");
    match exc.args.1 {
        Value::ImmU64(code) => assert_eq!(code, expected.as_u32() as u64),
        ref other => panic!("exception code not immediate: {other:?}"),
    }
    assert!(matches!(
        ir.block.terminal,
        Terminal::CheckHalt { ref else_ }
            if matches!(else_.as_ref(), Terminal::ReturnToDispatch)
    ));
}

#[test]
fn thumb32_msr_mrs_exception_kinds_match_upstream() {
    // MSR: mask==0 and n==PC → Unpredictable; write_spsr → Undefined.
    assert_thumb32_exception(0x0001_0000, thumb32_msr_reg, Exception::UnpredictableInstruction); // mask==0
    assert_thumb32_exception(0x000F_0800, thumb32_msr_reg, Exception::UnpredictableInstruction); // n==PC, mask!=0
    assert_thumb32_exception(0x0010_0800, thumb32_msr_reg, Exception::UndefinedInstruction); // write_spsr
                                                                                  // MRS: d==PC → Unpredictable; read_spsr → Undefined.
    assert_thumb32_exception(0x0000_0F00, thumb32_mrs_reg, Exception::UnpredictableInstruction); // d==PC
    assert_thumb32_exception(0x0010_0100, thumb32_mrs_reg, Exception::UndefinedInstruction);
    // read_spsr
}

#[test]
fn thumb32_udf_raises_undefined_with_full_lifecycle() {
    let loc = thumb_loc(0x1000);
    let mut ir = A32IREmitter::with_location(Block::new(loc.to_location()), loc);
    let should_continue = thumb32_udf(&mut ir);

    assert!(!should_continue);
    let ops: Vec<_> = ir.block.instructions.iter().map(|i| i.opcode).collect();
    // Full RaiseException lifecycle, not the bare opcode + terminal.
    assert!(ops.contains(&Opcode::A32UpdateUpperLocationDescriptor));
    assert!(ops.contains(&Opcode::A32SetRegister)); // BranchWritePC(PC+4)
    assert_eq!(ops.last(), Some(&Opcode::A32ExceptionRaised));
    let exc = ir.block
        .instructions
        .iter()
        .rev()
        .find(|i| i.opcode == Opcode::A32ExceptionRaised)
        .expect("exception present");
    match exc.args.1 {
        Value::ImmU64(code) => assert_eq!(
            code,
            Exception::UndefinedInstruction.as_u32() as u64
        ),
        ref other => panic!("exception code not immediate: {other:?}"),
    }
    assert!(matches!(
        ir.block.terminal,
        Terminal::CheckHalt { ref else_ }
            if matches!(else_.as_ref(), Terminal::ReturnToDispatch)
    ));
}

#[test]
fn thumb32_isb_uses_branch_write_pc() {
    let loc = thumb_loc(0x1000);
    let mut ir = A32IREmitter::with_location(Block::new(loc.to_location()), loc);

    assert!(!thumb32_isb(&mut ir));
    assert_eq!(
        ir.block.instructions.last().map(|inst| inst.opcode),
        Some(Opcode::A32SetRegister)
    );
    assert_eq!(
        ir.block.instructions.last().map(|inst| inst.args.0),
        Some(Value::ImmA32Reg(Reg::R15))
    );
}

#[test]
fn thumb32_msr_reg_write_e_uses_branch_write_pc() {
    let loc = thumb_loc(0x2000);
    let mut ir = A32IREmitter::with_location(Block::new(loc.to_location()), loc);
    let inst = DecodedThumb32 {
        raw: (1 << 9) | (1 << 8),
        id: Thumb32InstId::MSR_reg,
    };

    assert!(!thumb32_msr_reg(&mut ir, &inst));
    assert!(ir.block
        .instructions
        .iter()
        .any(|inst| inst.opcode == Opcode::PushRSB));
    assert_eq!(
        ir.block.instructions.last().map(|inst| inst.opcode),
        Some(Opcode::A32SetRegister)
    );
    assert!(matches!(
        &ir.block.terminal,
        Terminal::CheckHalt { else_ } if matches!(else_.as_ref(), Terminal::PopRSBHint)
    ));
}
