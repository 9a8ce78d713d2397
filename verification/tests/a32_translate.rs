use rdynarmic::frontend::a32::translate::translate_callbacks::CodeWords;
use rdynarmic::frontend::a32::fpscr::FPSCR;
use rdynarmic::frontend::a32::psr::PSR;
use rdynarmic::frontend::a32::translate::{TranslationOptions, translate};
use rdynarmic::frontend::a32::translate::a32_translate::translate_single_instruction;
use rdynarmic::ir::block::Block;
use rdynarmic::ir::location::A32LocationDescriptor;
use rdynarmic::ir::opcode::Opcode;

#[test]
fn single_instruction_dispatches_from_t_flag() {
    let arm_location = A32LocationDescriptor::at(0x1000);
    let mut arm_block = Block::new(arm_location.to_location());
    assert!(translate_single_instruction(
        &mut arm_block,
        arm_location,
        0xE1A0_0000
    ));
    assert_eq!(arm_block.cycle_count, 1);
    assert_eq!(
        arm_block.end_location(),
        arm_location.advance_pc(4).to_location()
    );

    let mut cpsr = PSR::default();
    cpsr.set_t(true);
    let thumb_location = A32LocationDescriptor::new(0x2000, cpsr, FPSCR::default(), false);
    let mut thumb_block = Block::new(thumb_location.to_location());
    assert!(translate_single_instruction(
        &mut thumb_block,
        thumb_location,
        0x0000_BF00
    ));
    assert_eq!(thumb_block.cycle_count, 1);
    assert_eq!(
        thumb_block.end_location(),
        thumb_location.advance_pc(2).to_location()
    );
}

#[test]
fn block_translation_threads_hint_options_to_thumb_visitor() {
    let mut cpsr = PSR::default();
    cpsr.set_t(true);
    let location = A32LocationDescriptor::new(0x3000, cpsr, FPSCR::default(), true);
    let read_code = CodeWords {
        base: 0x3000,
        words: vec![0x0000_BF30],
    };

    let disabled = translate(
        location,
        &read_code,
        TranslationOptions {
            hook_hint_instructions: false,
            ..TranslationOptions::default()
        },
    );
    assert!(!disabled
        .instructions
        .iter()
        .any(|instruction| instruction.opcode == Opcode::A32ExceptionRaised));

    let enabled = translate(location, &read_code, TranslationOptions::default());
    assert!(enabled
        .instructions
        .iter()
        .any(|instruction| instruction.opcode == Opcode::A32ExceptionRaised));
}
