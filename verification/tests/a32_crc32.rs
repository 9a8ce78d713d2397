use rdynarmic::frontend::a32::translate::translate_callbacks::CodeWords;
use rdynarmic::frontend::a32::translate::{TranslationOptions, translate};
use rdynarmic::frontend::a32::types::Exception;
use rdynarmic::ir::location::A32LocationDescriptor;
use rdynarmic::ir::opcode::Opcode;
use rdynarmic::ir::value::Value;

#[test]
fn a32_crc32_widths_and_polynomials() {
    for (polynomial, opcodes) in [
        (
            0,
            [Opcode::CRC32ISO8, Opcode::CRC32ISO16, Opcode::CRC32ISO32],
        ),
        (
            0x200,
            [
                Opcode::CRC32Castagnoli8,
                Opcode::CRC32Castagnoli16,
                Opcode::CRC32Castagnoli32,
            ],
        ),
    ] {
        for (size, opcode) in opcodes.into_iter().enumerate() {
            let word = 0xe100_3042 | polynomial | ((size as u32) << 21);
            let block = translate(
                A32LocationDescriptor::at(0x1000),
                &CodeWords { base: 0x1000, words: vec![word] },
                TranslationOptions::default(),
            );
            assert!(block.instructions.iter().any(|inst| inst.opcode == opcode));
        }
    }
}

#[test]
fn a32_crc32_invalid_encodings_are_unconditionally_unpredictable() {
    for polynomial in [0, 0x200] {
        let base = 0xe100_3042 | polynomial;
        let mut invalid = vec![
            base | (3 << 21),
            base | (15 << 16),
            (base & !0xf000) | 0xf000,
            (base & !15) | 15,
        ];
        invalid.extend(
            (0..16)
                .filter(|cond| *cond != 14)
                .map(|cond| (base & 0x0fff_ffff) | (cond << 28)),
        );
        for word in invalid {
            let block = translate(
                A32LocationDescriptor::at(0x1000),
                &CodeWords { base: 0x1000, words: vec![word] },
                TranslationOptions::default(),
            );
            assert_eq!(block.cond, None, "word={word:08x}");
            let fault = block
                .instructions
                .iter()
                .find(|inst| inst.opcode == Opcode::A32ExceptionRaised)
                .unwrap();
            assert_eq!(
                fault.args.1,
                Value::ImmU64(Exception::UnpredictableInstruction.as_u32() as u64)
            );
        }
    }
}
