use rdynarmic::frontend::a32::fpscr::FPSCR;
use rdynarmic::frontend::a32::it_state::ITState;
use rdynarmic::frontend::a32::psr::PSR;
use rdynarmic::frontend::a32::translate::translate_callbacks::{CodeWords, TranslateCallbacks};
use rdynarmic::frontend::a32::translate::translate_thumb::{
    convert_asimd_instruction, decode_thumb_vfp_or_asimd, is_unconditional_instruction,
    read_thumb_instruction, supplied_size, ThumbInstSize,
};
use rdynarmic::frontend::a32::translate::{
    translate, translate_single_instruction, TranslationOptions,
};
use rdynarmic::frontend::a32::types::Exception;
use rdynarmic::ir::block::Block;
use rdynarmic::ir::cond::Cond;
use rdynarmic::ir::location::A32LocationDescriptor;
use rdynarmic::ir::opcode::Opcode;
use rdynarmic::ir::terminal::Terminal;
use rdynarmic::ir::value::Value;

const MOV_R0_R1: u32 = 0xE1A0_0001;
const MOVEQ_R0_R1: u32 = 0x01A0_0001;
const MOVNE_R0_R1: u32 = 0x11A0_0001;
const CMPEQ_R0_1: u32 = 0x0350_0001;
const B_SELF: u32 = 0xEAFF_FFFE;

fn arm(words: Vec<u32>) -> Block {
    translate(
        A32LocationDescriptor::at(0x1000),
        &CodeWords { base: 0x1000, words },
        TranslationOptions::default(),
    )
}

fn thumb_location(pc: u32, it: u8, single_step: bool) -> A32LocationDescriptor {
    let mut psr = PSR::default();
    psr.set_t(true);
    A32LocationDescriptor::new(pc, psr, FPSCR::default(), single_step).set_it(ITState::new(it))
}

fn at(pc: u32) -> A32LocationDescriptor {
    A32LocationDescriptor::at(pc)
}

#[test]
fn a_block_goes_on_until_a_branch() {
    let block = arm(vec![MOV_R0_R1, MOV_R0_R1, B_SELF]);
    assert_eq!(block.location, at(0x1000).to_location());
    assert_eq!(block.end_location(), at(0x100C).to_location());
    assert_eq!(block.cycle_count, 3);
    assert_eq!(block.cond, None);
    assert_eq!(block.terminal, Terminal::LinkBlock { next: at(0x1008).to_location() });
    let opcodes: Vec<_> = block.instructions.iter().map(|inst| inst.opcode).collect();
    assert_eq!(
        opcodes,
        vec![
            Opcode::A32GetCFlag,
            Opcode::A32GetRegister,
            Opcode::A32SetRegister,
            Opcode::A32GetCFlag,
            Opcode::A32GetRegister,
            Opcode::A32SetRegister,
        ]
    );
}

#[test]
fn a_block_ends_where_its_code_ends() {
    let block = arm(vec![MOV_R0_R1]);
    assert_eq!(block.cycle_count, 2);
    assert_eq!(block.end_location(), at(0x1008).to_location());
    let last = block.instructions.last().unwrap();
    assert_eq!(last.opcode, Opcode::A32ExceptionRaised);
    assert_eq!(last.args.0, Value::ImmU32(0x1004));
    assert_eq!(
        last.args.1,
        Value::ImmU64(Exception::NoExecuteFault.as_u32() as u64)
    );
}

#[test]
fn instructions_with_one_condition_share_a_block() {
    let block = arm(vec![MOVEQ_R0_R1, MOVEQ_R0_R1, B_SELF]);
    assert_eq!(block.cond, Some(Cond::EQ));
    assert_eq!(block.condition_failed_location, Some(at(0x1008).to_location()));
    assert_eq!(block.condition_failed_cycle_count, 2);
    assert_eq!(block.cycle_count, 3);
    assert_eq!(block.terminal, Terminal::LinkBlock { next: at(0x1008).to_location() });
}

#[test]
fn another_condition_ends_a_block() {
    let block = arm(vec![MOVEQ_R0_R1, MOVNE_R0_R1, B_SELF]);
    assert_eq!(block.cond, Some(Cond::EQ));
    assert_eq!(block.condition_failed_location, Some(at(0x1004).to_location()));
    assert_eq!(block.cycle_count, 1);
    assert_eq!(block.end_location(), at(0x1004).to_location());
    assert_eq!(block.terminal, Terminal::LinkBlockFast { next: at(0x1004).to_location() });
}

#[test]
fn a_condition_after_other_code_ends_a_block() {
    let block = arm(vec![MOV_R0_R1, MOVEQ_R0_R1]);
    assert_eq!(block.cond, None);
    assert_eq!(block.condition_failed_location, None);
    assert_eq!(block.condition_failed_cycle_count, 0);
    assert_eq!(block.cycle_count, 1);
    assert_eq!(block.terminal, Terminal::LinkBlockFast { next: at(0x1004).to_location() });
}

#[test]
fn conditional_code_stops_after_it_changed_the_flags() {
    let block = arm(vec![CMPEQ_R0_1, MOVEQ_R0_R1]);
    assert_eq!(block.cond, Some(Cond::EQ));
    assert_eq!(block.cycle_count, 1);
    assert_eq!(block.end_location(), at(0x1004).to_location());
    assert_eq!(block.terminal, Terminal::LinkBlockFast { next: at(0x1004).to_location() });
}

#[test]
fn a_single_step_is_one_instruction() {
    let location = A32LocationDescriptor::new(0x1000, PSR::default(), FPSCR::default(), true);
    let block = translate(
        location,
        &CodeWords { base: 0x1000, words: vec![MOV_R0_R1, MOV_R0_R1] },
        TranslationOptions::default(),
    );
    let mut single = Block::new(location.to_location());
    assert!(translate_single_instruction(&mut single, location, MOV_R0_R1));
    assert_eq!(block.cycle_count, 1);
    assert_eq!(block.instructions, single.instructions);
    assert_eq!(block.end_location(), single.end_location());
    assert_eq!(block.terminal, Terminal::LinkBlock { next: single.end_location() });
    assert_eq!(single.terminal, Terminal::Invalid);
}

#[test]
fn a_supplied_instruction_can_end_its_block() {
    let mut block = Block::new(at(0x1000).to_location());
    assert!(!translate_single_instruction(&mut block, at(0x1000), B_SELF));
    assert_eq!(block.terminal, Terminal::LinkBlock { next: at(0x1000).to_location() });
    assert_eq!(block.cycle_count, 1);
}

#[test]
fn supplied_thumb_instructions_have_their_first_halfword_below() {
    let location = thumb_location(0x2000, 0, false);
    let mut block = Block::new(location.to_location());
    // ADD.W r0, r1, r2
    assert_eq!(supplied_size(0x0002_EB01), ThumbInstSize::Thumb32);
    assert!(translate_single_instruction(&mut block, location, 0x0002_EB01));
    assert_eq!(block.end_location(), location.advance_pc(4).to_location());
    assert!(block.instructions.iter().any(|inst| inst.opcode == Opcode::Add32));
}

#[test]
fn thumb_code_under_if_then_is_conditional() {
    // MOV r0, r1 under EQ, then B .
    let location = thumb_location(0x1000, 0x08, false);
    let block = translate(
        location,
        &CodeWords { base: 0x1000, words: vec![0xE7FE_4608] },
        TranslationOptions::default(),
    );
    assert_eq!(block.cond, Some(Cond::EQ));
    assert_eq!(
        block.condition_failed_location,
        Some(thumb_location(0x1002, 0, false).to_location())
    );
    assert_eq!(block.condition_failed_cycle_count, 1);
    assert_eq!(block.cycle_count, 2);
}

#[test]
fn thumb_blocks_step_by_the_size_of_their_instructions() {
    // MOVS r0, #1; ADD.W r0, r1, r2; B .
    let location = thumb_location(0x1000, 0, false);
    let block = translate(
        location,
        &CodeWords { base: 0x1000, words: vec![0xEB01_2001, 0xE7FE_0002] },
        TranslationOptions::default(),
    );
    assert_eq!(block.cycle_count, 3);
    assert_eq!(block.end_location(), thumb_location(0x1008, 0, false).to_location());
    assert_eq!(
        block.terminal,
        Terminal::LinkBlock { next: thumb_location(0x1006, 0, false).to_location() }
    );
}

#[test]
fn a_thumb_instruction_without_its_second_half_cannot_be_executed() {
    let code = CodeWords { base: 0x1000, words: vec![0xEB01_0000] };
    assert_eq!(read_thumb_instruction(0x1002, &code), None);
    assert_eq!(
        read_thumb_instruction(0x1000, &code),
        Some((0, ThumbInstSize::Thumb16))
    );
}

#[test]
fn code_words_are_where_they_were_put() {
    let code = CodeWords { base: 0x1000, words: vec![1, 2] };
    assert_eq!(code.memory_read_code(0x0FFC), None);
    assert_eq!(code.memory_read_code(0x1000), Some(1));
    assert_eq!(code.memory_read_code(0x1002), None);
    assert_eq!(code.memory_read_code(0x1004), Some(2));
    assert_eq!(code.memory_read_code(0x1008), None);
}

#[test]
fn vector_instructions_are_converted() {
    assert_eq!(convert_asimd_instruction(0xEF12_3456), 0xF212_3456);
    assert_eq!(convert_asimd_instruction(0xFF12_3456), 0xF312_3456);
    assert_eq!(convert_asimd_instruction(0xF912_3456), 0xF412_3456);
    assert_eq!(convert_asimd_instruction(0xEE12_3456), 0xF7F0_A000);
    assert!(decode_thumb_vfp_or_asimd(0xEA00_0000).is_none());
    assert_eq!(decode_thumb_vfp_or_asimd(0xEF00_0840).map(|inst| inst.raw), Some(0xF200_0840));
}

#[test]
fn compare_and_branch_ignores_the_if_then_state() {
    assert!(is_unconditional_instruction(0xB100, ThumbInstSize::Thumb16));
    assert!(is_unconditional_instruction(0xBB00, ThumbInstSize::Thumb16));
    assert!(is_unconditional_instruction(0xBF08, ThumbInstSize::Thumb16));
    assert!(!is_unconditional_instruction(0xB000, ThumbInstSize::Thumb16));
    assert!(!is_unconditional_instruction(0xB100, ThumbInstSize::Thumb32));
}

#[test]
fn an_instruction_outside_the_translated_families_is_left_to_an_interpreter() {
    // SDIV r0, r1, r2
    let block = arm(vec![0xE710_F211]);
    assert_eq!(block.cycle_count, 1);
    assert_eq!(block.terminal, Terminal::Interpret { next: at(0x1000).to_location() });
    assert!(block.instructions.is_empty());
}

#[test]
fn an_unprivileged_load_is_left_to_an_interpreter() {
    // LDRT r0, [r1], #4
    let block = arm(vec![0xE4B1_0004]);
    assert_eq!(block.terminal, Terminal::Interpret { next: at(0x1000).to_location() });
}

#[test]
fn an_undefined_word_raises_an_exception() {
    let block = arm(vec![0xF400_0B00]);
    let last = block.instructions.last().unwrap();
    assert_eq!(
        last.args.1,
        Value::ImmU64(Exception::UndefinedInstruction.as_u32() as u64)
    );
    assert_eq!(
        block.terminal,
        Terminal::CheckHalt { else_: Box::new(Terminal::ReturnToDispatch) }
    );
}
