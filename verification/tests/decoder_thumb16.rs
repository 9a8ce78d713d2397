use rdynarmic::frontend::a32::decoder_thumb16::{Thumb16InstId, decode_thumb16};
use rdynarmic::frontend::a32::types::Reg;

#[test]
fn test_decode_thumb16_mov_imm() {
    // MOV R0, #42
    let instr = 0x202A; // 00100 000 00101010
    let dec = decode_thumb16(instr);
    assert_eq!(dec.id, Thumb16InstId::MovImm);
    assert_eq!(dec.rt_hi(), Reg::R0);
    assert_eq!(dec.imm8(), 42);
}

#[test]
fn test_decode_thumb16_sevl() {
    assert_eq!(decode_thumb16(0xBF50).id, Thumb16InstId::SEVL);
}

#[test]
fn test_decode_thumb16_add_reg() {
    // ADD R0, R1, R2
    let instr = 0x1888; // 0001100 010 001 000
    let dec = decode_thumb16(instr);
    assert_eq!(dec.id, Thumb16InstId::AddRegT1);
}

#[test]
fn test_decode_thumb16_bx_lr() {
    // BX LR
    let instr = 0x4770; // 010001110 1110 000
    let dec = decode_thumb16(instr);
    assert_eq!(dec.id, Thumb16InstId::BX);
}

#[test]
fn test_decode_thumb16_push() {
    // PUSH {R4, LR}
    let instr = 0xB510; // 1011 0101 00010000
    let dec = decode_thumb16(instr);
    assert_eq!(dec.id, Thumb16InstId::PUSH);
}

#[test]
fn test_decode_thumb16_ldr_literal() {
    // LDR R0, [PC, #0]
    let instr = 0x4800; // 01001 000 00000000
    let dec = decode_thumb16(instr);
    assert_eq!(dec.id, Thumb16InstId::LdrLiteral);
}
