use rdynarmic::frontend::a32::decoder::{ArmInstId, DecodedArm};
use rdynarmic::frontend::a32::translate::asimd::{arm_asimd_vabs_int, arm_asimd_vceq_zero, arm_asimd_vmla_scalar, arm_asimd_vneg_int, arm_asimd_vrecpe, arm_asimd_vrhadd, arm_asimd_vrsqrte, arm_asimd_vtbl, arm_asimd_vtbx, arm_asimd_vtrn, arm_asimd_vzip, arm_v8_vld_all_lanes, arm_v8_vld_single, arm_v8_vst_single};
use rdynarmic::frontend::a32::translate::exception::arm_udf;
use rdynarmic::frontend::a32::types::Exception;
use rdynarmic::ir::a32_emitter::A32IREmitter;
use rdynarmic::ir::block::Block;
use rdynarmic::ir::location::A32LocationDescriptor;
use rdynarmic::ir::opcode::Opcode;
use rdynarmic::ir::terminal::Terminal;
use rdynarmic::ir::value::Value;

fn translate_with(
    raw: u32,
    id: ArmInstId,
    f: fn(&mut A32IREmitter, &DecodedArm) -> bool,
) -> Vec<Opcode> {
    let loc = A32LocationDescriptor::at(0x1000);
    let mut ir = A32IREmitter::with_location(Block::new(loc.to_location()), loc);
    let ok = f(&mut ir, &DecodedArm { raw, id });
    assert!(ok);
    ir.block.instructions.iter().map(|inst| inst.opcode).collect()
}

fn assert_exception_translation(
    raw: u32,
    id: ArmInstId,
    f: fn(&mut A32IREmitter, &DecodedArm) -> bool,
    expected: Exception,
) {
    let loc = A32LocationDescriptor::at(0x1000);
    let mut ir = A32IREmitter::with_location(Block::new(loc.to_location()), loc);
    let should_continue = f(&mut ir, &DecodedArm { raw, id });

    assert!(!should_continue);
    let opcodes: Vec<_> = ir.block.instructions.iter().map(|inst| inst.opcode).collect();
    assert!(opcodes.contains(&Opcode::A32UpdateUpperLocationDescriptor));
    assert!(opcodes.contains(&Opcode::A32SetRegister)); // BranchWritePC(PC+4)
    assert_eq!(opcodes.last(), Some(&Opcode::A32ExceptionRaised));

    // The exact exception kind must match — not merely "some exception".
    let exc = ir.block
        .instructions
        .iter()
        .rev()
        .find(|inst| inst.opcode == Opcode::A32ExceptionRaised)
        .expect("exception instruction present");
    match exc.args.1 {
        Value::ImmU64(code) => assert_eq!(code, expected.as_u32() as u64),
        ref other => panic!("exception code is not an immediate: {other:?}"),
    }

    assert!(matches!(
        ir.block.terminal,
        Terminal::CheckHalt { ref else_ }
            if matches!(else_.as_ref(), Terminal::ReturnToDispatch)
    ));
}

fn assert_undefined_translation(
    raw: u32,
    id: ArmInstId,
    f: fn(&mut A32IREmitter, &DecodedArm) -> bool,
) {
    assert_exception_translation(
        raw,
        id,
        f,
        Exception::UndefinedInstruction,
    );
}

#[test]
fn vtbl_emits_table_lookup64_for_regression_opcode() {
    let opcodes = translate_with(0xF3F8_19AC, ArmInstId::ASIMD_VTBL, arm_asimd_vtbl);
    assert_eq!(
        opcodes
            .iter()
            .filter(|&&op| op == Opcode::A32GetExtendedRegister64)
            .count(),
        3
    );
    assert!(opcodes.contains(&Opcode::VectorTable));
    assert!(opcodes.contains(&Opcode::VectorTableLookup64));
    assert_eq!(opcodes.last(), Some(&Opcode::A32SetExtendedRegister64));
}

#[test]
fn vtbx_uses_destination_as_lookup_default() {
    let opcodes = translate_with(0xF3F8_19EC, ArmInstId::ASIMD_VTBX, arm_asimd_vtbx);
    assert_eq!(
        opcodes
            .iter()
            .filter(|&&op| op == Opcode::A32GetExtendedRegister64)
            .count(),
        4
    );
    assert!(opcodes.contains(&Opcode::VectorTable));
    assert!(opcodes.contains(&Opcode::VectorTableLookup64));
    assert_eq!(opcodes.last(), Some(&Opcode::A32SetExtendedRegister64));
}

#[test]
fn vneg_float_emits_fp_vector_neg_for_regression_opcode() {
    let opcodes = translate_with(0xF3F9_67E6, ArmInstId::ASIMD_VNEG_int, arm_asimd_vneg_int);
    assert!(opcodes.contains(&Opcode::FPVectorNeg32));
    assert!(!opcodes.contains(&Opcode::A32ExceptionRaised));
    assert_eq!(opcodes.last(), Some(&Opcode::A32SetVector));
}

#[test]
fn vabs_float_emits_fp_vector_abs() {
    let opcodes = translate_with(0xF3F9_6766, ArmInstId::ASIMD_VABS_int, arm_asimd_vabs_int);
    assert!(opcodes.contains(&Opcode::FPVectorAbs32));
    assert!(!opcodes.contains(&Opcode::A32ExceptionRaised));
    assert_eq!(opcodes.last(), Some(&Opcode::A32SetVector));
}

#[test]
fn vzip_q_emits_both_interleaves_for_regression_opcodes() {
    for raw in [0xF3FA_21E0, 0xF3FA_41E6] {
        let opcodes = translate_with(raw, ArmInstId::ASIMD_VZIP, arm_asimd_vzip);
        assert!(opcodes.contains(&Opcode::VectorInterleaveLower32));
        assert!(opcodes.contains(&Opcode::VectorInterleaveUpper32));
        assert_eq!(
            opcodes
                .iter()
                .filter(|&&op| op == Opcode::A32SetVector)
                .count(),
            2
        );
    }
}

#[test]
fn vzip_d_splits_interleaved_result_into_two_registers() {
    let opcodes = translate_with(0xF3B6_0181, ArmInstId::ASIMD_VZIP, arm_asimd_vzip);
    assert!(opcodes.contains(&Opcode::VectorInterleaveLower16));
    assert_eq!(
        opcodes
            .iter()
            .filter(|&&op| op == Opcode::VectorGetElement64)
            .count(),
        2
    );
    assert_eq!(
        opcodes
            .iter()
            .filter(|&&op| op == Opcode::A32SetExtendedRegister64)
            .count(),
        2
    );
}

#[test]
fn vrsqrte_emits_fp_estimate_for_regression_opcodes() {
    for raw in [0xF3FB_05E2, 0xF3FB_85E4, 0xF3FB_E5E6] {
        let opcodes = translate_with(raw, ArmInstId::ASIMD_VRSQRTE, arm_asimd_vrsqrte);
        assert!(opcodes.contains(&Opcode::FPVectorRSqrtEstimate32));
        assert!(!opcodes.contains(&Opcode::A32ExceptionRaised));
        assert_eq!(opcodes.last(), Some(&Opcode::A32SetVector));
    }
}

#[test]
fn vrecpe_emits_fp_estimate() {
    let opcodes = translate_with(0xF3FB_0562, ArmInstId::ASIMD_VRECPE, arm_asimd_vrecpe);
    assert!(opcodes.contains(&Opcode::FPVectorRecipEstimate32));
    assert!(!opcodes.contains(&Opcode::A32ExceptionRaised));
    assert_eq!(opcodes.last(), Some(&Opcode::A32SetVector));
}

#[test]
fn vceq_zero_emits_fp_equal_for_regression_opcodes() {
    for raw in [0xF3B9_6562, 0xF3B9_4564, 0xF3B9_2566] {
        let opcodes = translate_with(raw, ArmInstId::ASIMD_VCEQ_zero, arm_asimd_vceq_zero);
        assert!(opcodes.contains(&Opcode::FPVectorEqual32));
        assert!(!opcodes.contains(&Opcode::A32ExceptionRaised));
        assert_eq!(opcodes.last(), Some(&Opcode::A32SetVector));
    }
}

#[test]
fn compare_and_estimate_undefined_encodings_stop_translation() {
    assert_undefined_translation(0xF3BD_6562, ArmInstId::ASIMD_VCEQ_zero, arm_asimd_vceq_zero);
    assert_undefined_translation(0xF3F3_0562, ArmInstId::ASIMD_VRECPE, arm_asimd_vrecpe);
    assert_undefined_translation(0xF3F3_05E2, ArmInstId::ASIMD_VRSQRTE, arm_asimd_vrsqrte);
}

#[test]
fn vtrn_undefined_size_stops_translation() {
    assert_undefined_translation(0xF3BE_0080, ArmInstId::ASIMD_VTRN, arm_asimd_vtrn);
}

#[test]
fn vrhadd_undefined_size_stops_translation() {
    assert_undefined_translation(0xF230_0100, ArmInstId::ASIMD_VRHADD, arm_asimd_vrhadd);
}

#[test]
fn vld_all_lanes_broadcasts_for_regression_wedge_opcode() {
    // 0xF4E32CBF: VLD1.32 {d[]} broadcast, T=1 → regs=2, nelem=1, m=R15
    // (no writeback). Must emit exactly one 32-bit read + one 32-bit
    // broadcast, written to both destination D regs, no exception, and no
    let opcodes = translate_with(0xF4E3_2CBF, ArmInstId::V8_VLD_all_lanes, arm_v8_vld_all_lanes);
    assert!(opcodes.contains(&Opcode::VectorBroadcast32));
    assert!(!opcodes.contains(&Opcode::A32ExceptionRaised));
    assert_eq!(
        opcodes
            .iter()
            .filter(|&&op| op == Opcode::A32ReadMemory32)
            .count(),
        1
    );
    assert_eq!(
        opcodes
            .iter()
            .filter(|&&op| op == Opcode::A32SetVector)
            .count(),
        2
    );
    // m == R15 → no writeback, so the base register is never rewritten.
    assert!(!opcodes.contains(&Opcode::A32SetRegister));
}

#[test]
fn vld_all_lanes_immediate_writeback_updates_base() {
    // Same as above but m=R13 (SP) → immediate writeback (nelem*ebytes).
    // Encoding: swap m from 0xF to 0xD.
    let opcodes = translate_with(0xF4E3_2CBD, ArmInstId::V8_VLD_all_lanes, arm_v8_vld_all_lanes);
    assert!(opcodes.contains(&Opcode::VectorBroadcast32));
    // Writeback rewrites the base register exactly once.
    assert_eq!(
        opcodes
            .iter()
            .filter(|&&op| op == Opcode::A32SetRegister)
            .count(),
        1
    );
}

#[test]
fn vld_single_sets_one_lane() {
    // VLD1.32 {d[0]}: 111101001 D 10 nnnn dddd 10 00 0000 mmmm
    // sz=0b10, nn=0 (nelem=1), index_align=0 → index 0, m=R15 (no writeback).
    let opcodes = translate_with(0xF4A0_080F, ArmInstId::V8_VLD_single, arm_v8_vld_single);
    assert!(opcodes.contains(&Opcode::A32ReadMemory32));
    assert!(opcodes.contains(&Opcode::VectorSetElement32));
    assert!(!opcodes.contains(&Opcode::A32ExceptionRaised));
    // Exactly one lane written back into the destination vector register.
    assert_eq!(
        opcodes
            .iter()
            .filter(|&&op| op == Opcode::A32SetVector)
            .count(),
        1
    );
}

#[test]
fn vst_single_stores_one_lane() {
    // VST1.32 {d[0]}: 111101001 D 00 nnnn dddd 10 00 0000 mmmm, m=R15.
    let opcodes = translate_with(0xF480_080F, ArmInstId::V8_VST_single, arm_v8_vst_single);
    assert!(opcodes.contains(&Opcode::VectorGetElement32));
    assert!(opcodes.contains(&Opcode::A32WriteMemory32));
    assert!(!opcodes.contains(&Opcode::A32ExceptionRaised));
}

#[test]
fn arm_udf_raises_undefined_with_full_lifecycle() {
    // The reserved ASIMD load/store and VFP encodings decode to ArmInstId::UDF,
    // which dispatches to arm_udf. Verify it raises exactly UndefinedInstruction
    // with UpdateUpperLocationDescriptor + BranchWritePC(PC+4) + terminal —
    // not merely "some exception".
    assert_exception_translation(
        0xF400_0B00,
        ArmInstId::UDF,
        arm_udf,
        Exception::UndefinedInstruction,
    );
}

#[test]
fn scalar_multiply_reserved_size_raises_decode_error() {
    assert_exception_translation(
        0xF2F0_0140,
        ArmInstId::ASIMD_VMLA_scalar,
        arm_asimd_vmla_scalar,
        Exception::DecodeError,
    );
}
