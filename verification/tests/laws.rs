use rdynarmic::bits::rotate_right;
use rdynarmic::frontend::a32::decoder::{
    arm_expand_imm, arm_expand_imm_c, decode_arm, sign_extend, ArmInstId, DecodedArm,
};
use rdynarmic::frontend::a32::decoder_thumb16::{decode_thumb16, DecodedThumb16, Thumb16InstId};
use rdynarmic::frontend::a32::decoder_thumb32::decode_thumb32;
use rdynarmic::frontend::a32::fpscr::FPSCR;
use rdynarmic::frontend::a32::it_state::ITState;
use rdynarmic::frontend::a32::psr::PSR;
use rdynarmic::frontend::a32::translate::asimd::{
    arm_v8_vld_multiple, arm_v8_vld_single, arm_v8_vst_multiple,
};
use rdynarmic::frontend::a32::translate::asimd_two_regs_shift::{arm_asimd_shr, arm_asimd_vshl_imm};
use rdynarmic::frontend::a32::translate::branch::arm_blx_reg;
use rdynarmic::frontend::a32::translate::conditional_state::{
    cond_can_continue, is_condition_passed, ConditionalState,
};
use rdynarmic::frontend::a32::translate::hint::arm_yield;
use rdynarmic::frontend::a32::translate::load_store::{arm_ldrd_reg, arm_strd_reg};
use rdynarmic::frontend::a32::translate::thumb16::{thumb16_blx_reg, thumb16_push};
use rdynarmic::frontend::a32::translate::thumb32::translate_thumb32;
use rdynarmic::frontend::a32::translate::{
    raise_exception_with_instruction_size, thumb_expand_imm, thumb_expand_imm_c,
    TranslationOptions,
};
use rdynarmic::frontend::a32::types::{Exception, Reg};
use rdynarmic::ir::a32_emitter::A32IREmitter;
use rdynarmic::ir::block::Block;
use rdynarmic::ir::cond::Cond;
use rdynarmic::ir::location::A32LocationDescriptor;
use rdynarmic::ir::opcode::Opcode;
use rdynarmic::ir::terminal::Terminal;
use rdynarmic::ir::value::{InstRef, Value};

fn emitter(location: A32LocationDescriptor) -> A32IREmitter {
    A32IREmitter::with_location(Block::new(location.to_location()), location)
}

fn opcodes(block: &Block) -> Vec<Opcode> {
    block.instructions.iter().map(|inst| inst.opcode).collect()
}

fn thumb() -> A32LocationDescriptor {
    A32LocationDescriptor::at(0x4000).set_t_flag(true)
}

#[test]
fn rotation_moves_bits_around_the_word() {
    assert_eq!(rotate_right(0x8000_0001, 0), 0x8000_0001);
    assert_eq!(rotate_right(0x8000_0001, 1), 0xC000_0000);
    assert_eq!(rotate_right(0x1234_5678, 8), 0x7812_3456);
    assert_eq!(rotate_right(1, 31), 2);
}

#[test]
fn sign_extension_of_extreme_widths() {
    assert_eq!(sign_extend(1, 1), 0xFFFF_FFFF);
    assert_eq!(sign_extend(0xFFFF_FFFE, 1), 0);
    assert_eq!(sign_extend(0x8000_0000, 32), 0x8000_0000);
}

#[test]
fn immediate_without_rotation_keeps_the_carry() {
    assert_eq!(arm_expand_imm_c(0, 0xFF, true), (0xFF, true));
    assert_eq!(arm_expand_imm_c(0, 0xFF, false), (0xFF, false));
    assert_eq!(arm_expand_imm_c(1, 3, false), (0xC000_0000, true));
    assert_eq!(arm_expand_imm_c(15, 3, true), (0x0000_000C, false));
    assert_eq!(arm_expand_imm(15, 3), 0x0000_000C);
}

#[test]
fn thumb_immediates_are_repeated_or_turned() {
    assert_eq!(thumb_expand_imm(0x0AB), 0x0000_00AB);
    assert_eq!(thumb_expand_imm(0x1AB), 0x00AB_00AB);
    assert_eq!(thumb_expand_imm(0x2AB), 0xAB00_AB00);
    assert_eq!(thumb_expand_imm(0x3AB), 0xABAB_ABAB);
    assert_eq!(thumb_expand_imm(0x400), 0x8000_0000);
    assert_eq!(thumb_expand_imm(0xFFF), 0x0000_01FE);
    let carry = Value::Inst(InstRef(3));
    assert_eq!(thumb_expand_imm_c(0x3AB, carry).carry, carry);
    assert_eq!(thumb_expand_imm_c(0x400, carry).carry, Value::ImmU1(true));
    assert_eq!(thumb_expand_imm_c(0xFFF, carry).carry, Value::ImmU1(false));
}

#[test]
fn registers_keep_their_numbers() {
    for n in 0..16 {
        assert_eq!(Reg::from_u32(n).number(), n);
    }
    assert_eq!(Reg::from_u32(15), Reg::R15);
}

#[test]
fn exceptions_have_distinct_numbers() {
    let all = [
        Exception::UndefinedInstruction,
        Exception::UnpredictableInstruction,
        Exception::DecodeError,
        Exception::SendEvent,
        Exception::SendEventLocal,
        Exception::WaitForInterrupt,
        Exception::WaitForEvent,
        Exception::Yield,
        Exception::Breakpoint,
        Exception::PreloadData,
        Exception::PreloadDataWithIntentToWrite,
        Exception::PreloadInstruction,
        Exception::NoExecuteFault,
    ];
    for (i, a) in all.iter().enumerate() {
        for (j, b) in all.iter().enumerate() {
            assert_eq!(a.as_u32() == b.as_u32(), i == j);
        }
    }
}

#[test]
fn an_if_then_block_runs_out() {
    // ITTE EQ
    let mut it = ITState::new(0x06);
    assert_eq!(it.cond(), Cond::EQ);
    it.advance();
    assert_eq!(it.value(), 0x0C);
    assert_eq!(it.cond(), Cond::EQ);
    it.advance();
    assert_eq!(it.value(), 0x18);
    assert_eq!(it.cond(), Cond::NE);
    assert!(it.is_last_in_it_block());
    it.advance();
    assert_eq!(it.value(), 0);
    assert!(!it.is_in_it_block());
}

#[test]
fn locations_pack_and_unpack() {
    let mut psr = PSR::default();
    psr.set_t(true);
    psr.set_e(true);
    psr.set_it(ITState::new(0xA5));
    let location = A32LocationDescriptor::new(0x1234_5678, psr, FPSCR::new(0xFFFF_FFFF), true);
    assert_eq!(location.fpscr.value, 0x07F7_0000);
    assert_eq!(location.to_location().0, 0x07F7_A507_1234_5678);
    assert_eq!(A32LocationDescriptor::from_location(location.to_location()), location);
    assert_ne!(location.to_location(), location.set_t_flag(false).to_location());
    assert_eq!(A32LocationDescriptor::at(2).advance_pc(-4).pc(), 0xFFFF_FFFE);
}

#[test]
fn status_register_bits_select_the_state() {
    let psr = PSR::new(0x0600_FE20);
    assert!(psr.t);
    assert!(psr.e);
    assert_eq!(psr.it.value(), 0xFF);
    assert_eq!(PSR::new(0).it.value(), 0);
}

#[test]
fn hints_are_hints_under_every_condition() {
    for cond in 0..16u32 {
        assert_eq!(decode_arm((cond << 28) | 0x0320_F002).id, ArmInstId::WFE);
        assert_eq!(decode_arm((cond << 28) | 0x0320_F00E).id, ArmInstId::NOP);
    }
}

#[test]
fn the_condition_does_not_select_the_instruction() {
    for low in [0x0282_1005u32, 0x0591_0004, 0x0E30_0A00, 0x08BD_000F, 0x0194_1E9F] {
        let id = decode_arm(low).id;
        for cond in 1..15u32 {
            assert_eq!(decode_arm((cond << 28) | low).id, id);
        }
    }
}

#[test]
fn shifts_without_a_lane_size_are_moves() {
    assert_eq!(decode_arm(0xF287_0010).id, ArmInstId::ASIMD_VMOV_imm);
    assert_eq!(decode_arm(0xF288_0010).id, ArmInstId::ASIMD_SHR);
    assert_eq!(decode_arm(0xF287_0090).id, ArmInstId::ASIMD_SHR);
}

#[test]
fn if_then_needs_a_mask() {
    assert_eq!(decode_thumb16(0xBF01).id, Thumb16InstId::IT);
    assert_eq!(decode_thumb16(0xBF60).id, Thumb16InstId::NOP);
}

#[test]
fn exceptions_are_reported_after_the_counter_moved() {
    let mut ir = emitter(A32LocationDescriptor::at(0x1000));
    assert!(!raise_exception_with_instruction_size(&mut ir, Exception::Breakpoint, 4));
    assert_eq!(
        opcodes(&ir.block),
        vec![
            Opcode::A32UpdateUpperLocationDescriptor,
            Opcode::And32,
            Opcode::A32SetRegister,
            Opcode::A32ExceptionRaised,
        ]
    );
    assert_eq!(ir.block.instructions[1].args.0, Value::ImmU32(0x1004));
    assert_eq!(ir.block.instructions[1].args.1, Value::ImmU32(0xFFFF_FFFC));
    assert_eq!(ir.block.instructions[2].args.0, Value::ImmA32Reg(Reg::R15));
    assert_eq!(
        ir.block.instructions[3].args.1,
        Value::ImmU64(Exception::Breakpoint.as_u32() as u64)
    );
}

#[test]
fn hints_without_a_hook_do_nothing() {
    let mut ir = emitter(A32LocationDescriptor::at(0x1000));
    let quiet = TranslationOptions {
        hook_hint_instructions: false,
        ..TranslationOptions::default()
    };
    assert!(arm_yield(&mut ir, quiet));
    assert!(ir.block.instructions.is_empty());
    assert!(!arm_yield(&mut ir, TranslationOptions::default()));
    assert_eq!(
        ir.block.instructions[3].args.1,
        Value::ImmU64(Exception::Yield.as_u32() as u64)
    );
}

#[test]
fn branch_to_the_link_register_uses_its_old_value() {
    let mut ir = emitter(A32LocationDescriptor::at(0x1000));
    assert!(!arm_blx_reg(&mut ir, &decode_arm(0xE12F_FF3E)));
    assert_eq!(
        opcodes(&ir.block),
        vec![
            Opcode::A32GetRegister,
            Opcode::PushRSB,
            Opcode::A32BXWritePC,
            Opcode::A32SetRegister,
        ]
    );
    assert_eq!(ir.block.instructions[2].args.0, Value::Inst(InstRef(0)));
    assert_eq!(ir.block.instructions[3].args.1, Value::ImmU32(0x1004));

    let mut ir = emitter(thumb());
    assert!(!thumb16_blx_reg(&mut ir, &decode_thumb16(0x47F0)));
    let last = ir.block.instructions.last().unwrap();
    assert_eq!(last.args.0, Value::ImmA32Reg(Reg::R14));
    assert_eq!(last.args.1, Value::ImmU32(0x4003));
}

#[test]
fn double_words_are_accessed_at_once() {
    let mut ir = emitter(A32LocationDescriptor::at(0x1000));
    // LDRD r2, r3, [r1, r4]
    assert!(arm_ldrd_reg(&mut ir, &decode_arm(0xE181_20D4)));
    let reads = opcodes(&ir.block);
    assert_eq!(reads.iter().filter(|op| **op == Opcode::A32ReadMemory64).count(), 1);
    assert!(!reads.contains(&Opcode::A32ReadMemory32));

    let mut ir = emitter(A32LocationDescriptor::at(0x1000));
    // STRD r2, r3, [r1, r4]
    assert!(arm_strd_reg(&mut ir, &decode_arm(0xE181_20F4)));
    let writes = opcodes(&ir.block);
    assert_eq!(writes.iter().filter(|op| **op == Opcode::A32WriteMemory64).count(), 1);
    assert!(!writes.contains(&Opcode::A32WriteMemory32));
}

#[test]
fn big_endian_data_is_reversed() {
    let mut psr = PSR::default();
    psr.set_e(true);
    let location = A32LocationDescriptor::new(0x1000, psr, FPSCR::default(), false);
    let mut ir = emitter(location);
    // STRD r2, r3, [r1, r4]
    assert!(arm_strd_reg(&mut ir, &decode_arm(0xE181_20F4)));
    assert!(opcodes(&ir.block).contains(&Opcode::ByteReverseDual));
}

#[test]
fn empty_lists_report_an_exception_first() {
    let mut ir = emitter(thumb());
    assert!(!thumb16_push(&mut ir, &DecodedThumb16 { raw: 0xB400, id: Thumb16InstId::PUSH }));
    assert_eq!(
        opcodes(&ir.block),
        vec![
            Opcode::A32UpdateUpperLocationDescriptor,
            Opcode::And32,
            Opcode::A32SetRegister,
            Opcode::A32ExceptionRaised,
        ]
    );
}

#[test]
fn comparisons_leave_the_registers_alone() {
    // CMP.W r1, r2
    let mut ir = emitter(thumb());
    assert!(translate_thumb32(
        &mut ir,
        &decode_thumb32(0xEBB1, 0x0F02),
        TranslationOptions::default(),
    ));
    let ops = opcodes(&ir.block);
    assert!(ops.contains(&Opcode::A32SetCpsrNZCV));
    assert!(!ops.contains(&Opcode::A32SetRegister));
}

#[test]
fn conditions_move_through_their_states() {
    let location = A32LocationDescriptor::at(0x1000);
    let mut block = Block::new(location.to_location());
    let mut state = ConditionalState::Unconditional;
    assert!(is_condition_passed(&mut state, &mut block, location, 4, Cond::AL));
    assert_eq!(state, ConditionalState::Unconditional);
    assert!(is_condition_passed(&mut state, &mut block, location, 4, Cond::EQ));
    assert_eq!(state, ConditionalState::Translating);
    assert_eq!(block.cond, Some(Cond::EQ));
    assert!(cond_can_continue(state, &block));
    let next = location.advance_pc(4);
    assert!(is_condition_passed(&mut state, &mut block, next, 4, Cond::AL));
    assert_eq!(state, ConditionalState::Trailing);
    assert_eq!(block.cond, Some(Cond::EQ));
    assert_eq!(block.terminal, Terminal::Invalid);
}

#[test]
fn an_unknown_word_is_undefined() {
    assert_eq!(decode_arm(0xF7F0_A000).id, ArmInstId::Unknown);
    let inst = DecodedArm { raw: 0xE1A0_F001, id: ArmInstId::MOV_reg };
    assert_eq!(inst.rd(), Reg::R15);
    assert_eq!(inst.cond(), Cond::AL);
}

fn displacement(block: &Block, address: Value) -> u32 {
    let Value::Inst(at) = address else {
        panic!("not a computed address");
    };
    let inst = block.get(at);
    match (inst.opcode, inst.args.1) {
        (Opcode::A32GetRegister, _) => 0,
        (Opcode::Add32, Value::ImmU32(step)) => displacement(block, inst.args.0) + step,
        _ => panic!("not a displaced address"),
    }
}

fn offsets(block: &Block, access: Opcode) -> Vec<u32> {
    block
        .instructions
        .iter()
        .filter(|inst| inst.opcode == access)
        .map(|inst| displacement(block, inst.args.1))
        .collect()
}

#[test]
fn structure_stores_and_loads_access_alike() {
    // VST2.16 {d0, d1}, [r1]! and VLD2.16 {d0, d1}, [r1]!
    let (store, load) = (0xF401_084Du32, 0xF421_084Du32);
    let mut stores = emitter(A32LocationDescriptor::at(0x1000));
    assert!(arm_v8_vst_multiple(&mut stores, &decode_arm(store)));
    let mut loads = emitter(A32LocationDescriptor::at(0x1000));
    assert!(arm_v8_vld_multiple(&mut loads, &decode_arm(load)));
    let expected = vec![0, 2, 4, 6, 8, 10, 12, 14];
    assert_eq!(offsets(&stores.block, Opcode::A32WriteMemory16), expected);
    assert_eq!(offsets(&loads.block, Opcode::A32ReadMemory16), expected);
    for block in [&stores.block, &loads.block] {
        let n = block.instructions.len();
        assert_eq!(block.instructions[n - 2].args.1, Value::ImmU32(16));
        assert_eq!(block.instructions[n - 1].opcode, Opcode::A32SetRegister);
        assert_eq!(block.instructions[n - 1].args.0, Value::ImmA32Reg(Reg::R1));
    }
}

#[test]
fn opposite_shifts_by_the_same_bits_fill_the_lane() {
    let amount = |block: &Block, shift: Opcode| {
        block
            .instructions
            .iter()
            .find(|inst| inst.opcode == shift)
            .map(|inst| inst.args.1)
    };
    // VSHR.U8 d0, d0, #7 and VSHL.I8 d0, d0, #1
    let mut right = emitter(A32LocationDescriptor::at(0x1000));
    assert!(arm_asimd_shr(&mut right, &decode_arm(0xF389_0010)));
    let mut left = emitter(A32LocationDescriptor::at(0x1000));
    assert!(arm_asimd_vshl_imm(&mut left, &decode_arm(0xF289_0510)));
    assert_eq!(
        amount(&right.block, Opcode::VectorLogicalShiftRight8),
        Some(Value::ImmU8(7))
    );
    assert_eq!(
        amount(&left.block, Opcode::VectorLogicalShiftLeft8),
        Some(Value::ImmU8(1))
    );
}

#[test]
fn single_elements_need_a_defined_alignment() {
    // VLD1.32 {d0[0]}, [r0] with each alignment
    for (alignment, defined) in [(0, true), (1, false), (2, false), (3, true)] {
        let raw = 0xF4A0_080F | (alignment << 4);
        let mut ir = emitter(A32LocationDescriptor::at(0x1000));
        assert_eq!(arm_v8_vld_single(&mut ir, &decode_arm(raw)), defined);
        assert_eq!(opcodes(&ir.block).contains(&Opcode::A32ReadMemory32), defined);
    }
}

#[test]
fn a_condition_is_turned_down_exactly_by_a_break() {
    let location = A32LocationDescriptor::at(0x1000);
    for (cond, passes) in [(Cond::AL, true), (Cond::EQ, true), (Cond::NV, false)] {
        let mut block = Block::new(location.to_location());
        let mut state = ConditionalState::Unconditional;
        assert_eq!(is_condition_passed(&mut state, &mut block, location, 4, cond), passes);
        assert_eq!(state == ConditionalState::Break, !passes);
    }
    let mut block = Block::new(location.to_location());
    block.cycle_count = usize::MAX;
    block.condition_failed_cycle_count = usize::MAX;
    let mut state = ConditionalState::Translating;
    assert!(is_condition_passed(&mut state, &mut block, location, 4, Cond::AL));
    assert_eq!(state, ConditionalState::Trailing);
}
