use rdynarmic::frontend::a32::decoder_thumb32::{Thumb32InstId, decode_thumb32};
use rdynarmic::frontend::a32::fpscr::FPSCR;
use rdynarmic::frontend::a32::psr::PSR;
use rdynarmic::frontend::a32::translate::TranslationOptions;
use rdynarmic::frontend::a32::translate::thumb32::translate_thumb32;
use rdynarmic::frontend::a32::types::{Exception, Reg};
use rdynarmic::ir::a32_emitter::A32IREmitter;
use rdynarmic::ir::block::Block;
use rdynarmic::ir::location::A32LocationDescriptor;
use rdynarmic::ir::opcode::Opcode;
use rdynarmic::ir::value::{InstRef, Value};

const PATTERNS: &[(u32, u32, Thumb32InstId)] = &[
    (0xffe0_f0f0, 0xfa00_f000, Thumb32InstId::LSL_reg),
    (0xffe0_f0f0, 0xfa20_f000, Thumb32InstId::LSR_reg),
    (0xffe0_f0f0, 0xfa40_f000, Thumb32InstId::ASR_reg),
    (0xffe0_f0f0, 0xfa60_f000, Thumb32InstId::ROR_reg),
    (0xffff_f0c0, 0xfa0f_f080, Thumb32InstId::SXTH),
    (0xfff0_f0c0, 0xfa00_f080, Thumb32InstId::SXTAH),
    (0xffff_f0c0, 0xfa1f_f080, Thumb32InstId::UXTH),
    (0xfff0_f0c0, 0xfa10_f080, Thumb32InstId::UXTAH),
    (0xffff_f0c0, 0xfa2f_f080, Thumb32InstId::SXTB16),
    (0xfff0_f0c0, 0xfa20_f080, Thumb32InstId::SXTAB16),
    (0xffff_f0c0, 0xfa3f_f080, Thumb32InstId::UXTB16),
    (0xfff0_f0c0, 0xfa30_f080, Thumb32InstId::UXTAB16),
    (0xffff_f0c0, 0xfa4f_f080, Thumb32InstId::SXTB),
    (0xfff0_f0c0, 0xfa40_f080, Thumb32InstId::SXTAB),
    (0xffff_f0c0, 0xfa5f_f080, Thumb32InstId::UXTB),
    (0xfff0_f0c0, 0xfa50_f080, Thumb32InstId::UXTAB),
];

fn location() -> A32LocationDescriptor {
    let mut psr = PSR::default();
    psr.set_t(true);
    A32LocationDescriptor::new(0x1000, psr, FPSCR::default(), false)
}

fn translate(raw: u32) -> (bool, Block) {
    let location = location();
    let inst = decode_thumb32((raw >> 16) as u16, raw as u16);
    let mut ir = A32IREmitter::with_location(Block::new(location.to_location()), location);
    let result = translate_thumb32(
        &mut ir,
        &inst,
        TranslationOptions::default(),
    );
    (result, ir.block)
}

#[test]
fn all_register_patterns_decode_and_translate() {
    let variable_bits = 0x0011_02a3;
    for &(mask, expected, id) in PATTERNS {
        let raw = expected | (variable_bits & !mask);
        assert_eq!(
            decode_thumb32((raw >> 16) as u16, raw as u16).id,
            id,
            "raw={raw:08X}"
        );
        assert!(translate(raw).0, "raw={raw:08X}");
    }
}

#[test]
fn invalid_registers_raise_before_input_reads() {
    for raw in [
        0xfa01_ff03,
        0xfa01_f20f,
        0xfa0f_f203,
        0xfa0f_ff83,
        0xfa0f_f08f,
    ] {
        let (result, block) = translate(raw);
        assert!(!result, "raw={raw:08X}");
        assert!(!block
            .instructions
            .iter()
            .any(|inst| inst.opcode == Opcode::A32GetRegister));
        assert!(block.instructions.iter().any(|inst| {
            inst.opcode == Opcode::A32ExceptionRaised
                && inst.args.1
                    == Value::ImmU64(Exception::UnpredictableInstruction.as_u32() as u64)
        }));
    }
}

#[test]
fn shift_instruction_preserves_source_carry_flags_and_destination_order() {
    let (_, block) = translate(0xfa11_f203);
    let opcodes = block
        .instructions
        .iter()
        .map(|inst| inst.opcode)
        .collect::<Vec<_>>();
    assert_eq!(
        opcodes,
        vec![
            Opcode::A32GetRegister,
            Opcode::LeastSignificantByte,
            Opcode::A32GetCFlag,
            Opcode::A32GetRegister,
            Opcode::LogicalShiftLeft32,
            Opcode::GetCarryFromOp,
            Opcode::GetNZFromOp,
            Opcode::A32SetCpsrNZC,
            Opcode::A32SetRegister,
        ]
    );
    assert_eq!(block.instructions[0].args.0, Value::ImmA32Reg(Reg::R3));
    assert_eq!(block.instructions[3].args.0, Value::ImmA32Reg(Reg::R1));
}

#[test]
fn extension_rotate_zero_is_not_optimized_away() {
    let (_, block) = translate(0xfa0f_f283);
    assert!(block.instructions.iter().any(|inst| {
        inst.opcode == Opcode::BitRotateRight32 && inst.args.1 == Value::ImmU8(0)
    }));
}

#[test]
fn signed_and_unsigned_accumulate_halfwords_preserve_operand_order_and_ge() {
    for (raw, first, second, reverse_args) in [
        (0xfa21_f283, Opcode::Or32, Opcode::A32GetRegister, false),
        (0xfa31_f283, Opcode::And32, Opcode::A32GetRegister, true),
    ] {
        let (_, block) = translate(raw);
        let packed = block
            .instructions
            .iter()
            .position(|inst| inst.opcode == Opcode::PackedAddU16)
            .expect("packed add");
        assert_eq!(block.instructions[packed - 2].opcode, first);
        assert_eq!(block.instructions[packed - 1].opcode, second);
        let expected_args = if reverse_args {
            [
                Value::Inst(InstRef(packed - 1)),
                Value::Inst(InstRef(packed - 2)),
            ]
        } else {
            [
                Value::Inst(InstRef(packed - 2)),
                Value::Inst(InstRef(packed - 1)),
            ]
        };
        let args = block.instructions[packed].args;
        assert_eq!([args.0, args.1], expected_args);
        assert_eq!(block.instructions[packed + 1].opcode, Opcode::GetGEFromOp);
        assert_eq!(
            block.instructions[packed + 2].opcode,
            Opcode::A32SetRegister
        );
    }
}
