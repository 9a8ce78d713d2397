use rdynarmic::interface::a32::coprocessor_util::CoprocInfo;
use rdynarmic::frontend::a32::decoder_thumb32::{Thumb32InstId, decode_thumb32};
use rdynarmic::frontend::a32::translate::thumb32_coprocessor::{thumb32_ldc, thumb32_mcr};
use rdynarmic::frontend::a32::types::Reg;
use rdynarmic::ir::a32_emitter::A32IREmitter;
use rdynarmic::ir::block::Block;
use rdynarmic::ir::location::A32LocationDescriptor;
use rdynarmic::ir::opcode::Opcode;
use rdynarmic::ir::value::Value;

fn info(value: Value) -> CoprocInfo {
    match value {
        Value::ImmCoprocInfo(info) => info,
        _ => panic!("not the operands of a coprocessor instruction"),
    }
}

fn one_word_bytes(value: Value) -> [u8; 8] {
    let info = info(value);
    [
        info.coproc_no as u8,
        info.two as u8,
        info.opc1 as u8,
        info.crn.number,
        info.crm.number,
        info.opc2 as u8,
        0,
        0,
    ]
}

fn words_bytes(value: Value) -> [u8; 8] {
    let info = info(value);
    [
        info.coproc_no as u8,
        info.two as u8,
        info.long_transfer as u8,
        info.crd.number,
        info.option.is_some() as u8,
        info.option.unwrap_or(0),
        0,
        0,
    ]
}

#[test]
fn mcr_preserves_all_upstream_metadata_fields() {
    let raw: u32 = 0xFE00_0010 | (5 << 21) | (4 << 16) | (3 << 12) | (15 << 8) | (2 << 5) | 1;
    let decoded = decode_thumb32((raw >> 16) as u16, raw as u16);
    assert_eq!(decoded.id, Thumb32InstId::MCR);

    let location = A32LocationDescriptor::at(0x1000).set_t_flag(true);
    let mut ir = A32IREmitter::with_location(Block::new(location.to_location()), location);
    assert!(thumb32_mcr(&mut ir, &decoded));

    let coproc = ir.block
        .instructions
        .iter()
        .find(|inst| inst.opcode == Opcode::A32CoprocSendOneWord)
        .expect("MCR must emit A32CoprocSendOneWord");
    assert_eq!(
        one_word_bytes(coproc.args.0),
        [15, 1, 5, 4, 1, 2, 0, 0]
    );
}

#[test]
fn ldc_option_form_uses_base_address_without_writeback() {
    let raw: u32 =
        0xEC10_0000 | (1 << 23) | (1 << 22) | (4 << 16) | (7 << 12) | (15 << 8) | 0x22;
    let decoded = decode_thumb32((raw >> 16) as u16, raw as u16);
    assert_eq!(decoded.id, Thumb32InstId::LDC);

    let location = A32LocationDescriptor::at(0x2000).set_t_flag(true);
    let mut ir = A32IREmitter::with_location(Block::new(location.to_location()), location);
    assert!(thumb32_ldc(&mut ir, &decoded));

    let coproc = ir.block
        .instructions
        .iter()
        .find(|inst| inst.opcode == Opcode::A32CoprocLoadWords)
        .expect("LDC must emit A32CoprocLoadWords");
    assert_eq!(
        words_bytes(coproc.args.0),
        [15, 0, 1, 7, 1, 0x22, 0, 0]
    );
    assert!(!ir.block.instructions.iter().any(|inst| {
        inst.opcode == Opcode::A32SetRegister && inst.args.0 == Value::ImmA32Reg(Reg::R4)
    }));
}
