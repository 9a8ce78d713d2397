use rdynarmic::frontend::a32::decoder_thumb32::{DecodedThumb32, Thumb32InstId, decode_thumb32};
use rdynarmic::frontend::a32::translate::TranslationOptions;
use rdynarmic::frontend::a32::translate::thumb32::translate_thumb32;
use rdynarmic::frontend::a32::types::Exception;
use rdynarmic::ir::a32_emitter::A32IREmitter;
use rdynarmic::ir::block::Block;
use rdynarmic::ir::location::{A32LocationDescriptor, LocationDescriptor};
use rdynarmic::ir::opcode::Opcode;
use rdynarmic::ir::terminal::Terminal;
use rdynarmic::ir::value::Value;

fn translated_exception(raw: u32, options: TranslationOptions) -> Option<u64> {
    let loc = A32LocationDescriptor::at(0x1000).set_t_flag(true);
    let decoded = decode_thumb32((raw >> 16) as u16, raw as u16);
    let mut ir = A32IREmitter::with_location(Block::new(loc.to_location()), loc);
    translate_thumb32(&mut ir, &decoded, options);
    ir.block
        .instructions
        .iter()
        .find(|instruction| instruction.opcode == Opcode::A32ExceptionRaised)
        .and_then(|instruction| match instruction.args.1 {
            Value::ImmU64(value) => Some(value),
            _ => None,
        })
}

#[test]
fn thumb32_unknown_raises_undefined_with_full_lifecycle() {
    let loc = A32LocationDescriptor::at(0x1000).set_t_flag(true);
    let mut ir = A32IREmitter::with_location(Block::new(LocationDescriptor(0)), loc);
    let cont = translate_thumb32(
        &mut ir,
        &DecodedThumb32 {
            raw: 0,
            id: Thumb32InstId::Unknown,
        },
        TranslationOptions::default(),
    );
    assert!(!cont);
    let ops: Vec<_> = ir.block.instructions.iter().map(|i| i.opcode).collect();
    assert!(ops.contains(&Opcode::A32UpdateUpperLocationDescriptor));
    assert!(ops.contains(&Opcode::A32SetRegister)); // BranchWritePC(PC+4)
    assert_eq!(ops.last(), Some(&Opcode::A32ExceptionRaised));
    let exc = ir.block
        .instructions
        .iter()
        .rev()
        .find(|i| i.opcode == Opcode::A32ExceptionRaised)
        .expect("exception present");
    match exc.args.1 {
        Value::ImmU64(code) => assert_eq!(
            code,
            Exception::UndefinedInstruction.as_u32() as u64
        ),
        ref other => panic!("exception code not immediate: {other:?}"),
    }
    assert!(matches!(
        ir.block.terminal,
        Terminal::CheckHalt { ref else_ }
            if matches!(else_.as_ref(), Terminal::ReturnToDispatch)
    ));
}

#[test]
fn thumb32_hint_families_raise_upstream_exceptions() {

    for (raw, expected) in [
        (0xF3AF_8005, Exception::SendEventLocal),
        (0xF81F_F123, Exception::PreloadData),
        (0xF835_FC12, Exception::PreloadDataWithIntentToWrite),
        (0xF895_F123, Exception::PreloadData),
        (0xF91F_F123, Exception::PreloadInstruction),
        (0xF915_FC12, Exception::PreloadInstruction),
    ] {
        assert_eq!(
            translated_exception(raw, TranslationOptions::default()),
            Some(expected.as_u32() as u64),
            "raw={raw:08X}"
        );
        assert_eq!(
            translated_exception(
                raw,
                TranslationOptions {
                    hook_hint_instructions: false,
                    ..TranslationOptions::default()
                }
            ),
            None,
            "disabled raw={raw:08X}"
        );
    }
}

#[test]
fn thumb32_preload_register_pc_is_unpredictable_before_hook_option() {

    for raw in [0xF815_F00F, 0xF915_F00F] {
        assert_eq!(
            translated_exception(
                raw,
                TranslationOptions {
                    hook_hint_instructions: false,
                    ..TranslationOptions::default()
                }
            ),
            Some(Exception::UnpredictableInstruction.as_u32() as u64),
            "raw={raw:08X}"
        );
    }
}
