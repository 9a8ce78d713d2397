use rdynarmic::frontend::a32::it_state::ITState;
use rdynarmic::ir::cond::Cond;

#[test]
fn test_it_state_empty() {
    let it = ITState::new(0);
    assert!(!it.is_in_it_block());
    assert_eq!(it.cond(), Cond::AL);
}

#[test]
fn test_it_state_single_instruction() {
    // IT EQ: cond=0000 (EQ), mask=1000
    let it = ITState::new(0x08);
    assert!(it.is_in_it_block());
    assert!(it.is_last_in_it_block());
    assert_eq!(it.cond(), Cond::EQ);
}

#[test]
fn test_it_state_advance() {
    // ITTE EQ: cond=0000, mask=1010 → 3 instructions
    let mut it = ITState::new(0x0A); // 0000_1010
    assert!(it.is_in_it_block());
    assert!(!it.is_last_in_it_block());

    it.advance(); // consumed 1st, mask → 0100
    assert!(it.is_in_it_block());
    assert!(!it.is_last_in_it_block());

    it.advance(); // consumed 2nd, mask → 1000 (last)
    assert!(it.is_in_it_block());
    assert!(it.is_last_in_it_block());

    it.advance(); // consumed 3rd, mask → 0000 (exit)
    assert!(!it.is_in_it_block());
}

#[test]
fn test_it_state_four_instructions() {
    // ITTT AL: cond=1110 (AL), mask=1111
    let mut it = ITState::new(0xEF);
    assert!(it.is_in_it_block());
    assert_eq!(it.cond(), Cond::AL);

    it.advance();
    assert!(it.is_in_it_block());
    it.advance();
    assert!(it.is_in_it_block());
    it.advance();
    assert!(it.is_in_it_block());
    assert!(it.is_last_in_it_block());
    it.advance();
    assert!(!it.is_in_it_block());
}
