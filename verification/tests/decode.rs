use alvin::opcode::Opcode;

#[test]
fn decodes_clear_and_return() {
    assert!(matches!(Opcode::from(0x00, 0xE0), Ok(Opcode::Clear)));
    assert!(matches!(Opcode::from(0x00, 0xEE), Ok(Opcode::Return)));
}

#[test]
fn decodes_machine_call() {
    assert!(matches!(Opcode::from(0x01, 0xE0), Ok(Opcode::Call(0x1E0))));
    assert!(matches!(Opcode::from(0x02, 0x34), Ok(Opcode::Call(0x234))));
}

#[test]
fn decodes_jumps_and_calls() {
    assert!(matches!(Opcode::from(0x12, 0x06), Ok(Opcode::Goto(0x206))));
    assert!(matches!(Opcode::from(0x22, 0x04), Ok(Opcode::CallFunction(0x204))));
    assert!(matches!(Opcode::from(0xA0, 0x00), Ok(Opcode::SetAddressReg(0x000))));
    assert!(matches!(Opcode::from(0xB1, 0x23), Ok(Opcode::JumpOffset(0x123))));
}

#[test]
fn decodes_skips() {
    assert!(matches!(Opcode::from(0x3A, 0x55), Ok(Opcode::SkipEq(0xA, 0x55))));
    assert!(matches!(Opcode::from(0x4A, 0x55), Ok(Opcode::SkipNEq(0xA, 0x55))));
    assert!(matches!(Opcode::from(0x5A, 0xB0), Ok(Opcode::SkipEqReg(0xA, 0xB))));
    assert!(matches!(Opcode::from(0x9A, 0xB0), Ok(Opcode::SkipNEqReg(0xA, 0xB))));
}

#[test]
fn decodes_register_ops() {
    assert!(matches!(Opcode::from(0x60, 0x0A), Ok(Opcode::SetConst(0x0, 0x0A))));
    assert!(matches!(Opcode::from(0x71, 0xFF), Ok(Opcode::AddAssign(0x1, 0xFF))));
    assert!(matches!(Opcode::from(0x81, 0x20), Ok(Opcode::Copy(0x1, 0x2))));
    assert!(matches!(Opcode::from(0x81, 0x21), Ok(Opcode::Or(0x1, 0x2))));
    assert!(matches!(Opcode::from(0x81, 0x22), Ok(Opcode::And(0x1, 0x2))));
    assert!(matches!(Opcode::from(0x81, 0x23), Ok(Opcode::Xor(0x1, 0x2))));
    assert!(matches!(Opcode::from(0x80, 0x14), Ok(Opcode::AddAssignReg(0x0, 0x1))));
    assert!(matches!(Opcode::from(0x81, 0x25), Ok(Opcode::SubAssignReg(0x1, 0x2))));
    assert!(matches!(Opcode::from(0x81, 0x26), Ok(Opcode::ShiftRight(0x1, 0x2))));
    assert!(matches!(Opcode::from(0x81, 0x27), Ok(Opcode::Subtract(0x1, 0x2))));
    assert!(matches!(Opcode::from(0x81, 0x2E), Ok(Opcode::ShiftLeft(0x1, 0x2))));
}

#[test]
fn decodes_misc() {
    assert!(matches!(Opcode::from(0xC3, 0x7F), Ok(Opcode::SetRand(0x3, 0x7F))));
    assert!(matches!(Opcode::from(0xD1, 0x25), Ok(Opcode::Draw(0x1, 0x2, 0x5))));
    assert!(matches!(Opcode::from(0xE1, 0x9E), Ok(Opcode::SkipKeyPress(0x1))));
    assert!(matches!(Opcode::from(0xE1, 0xA1), Ok(Opcode::SkipNoKeyPress(0x1))));
    assert!(matches!(Opcode::from(0xF1, 0x07), Ok(Opcode::StoreDelayTimer(0x1))));
    assert!(matches!(Opcode::from(0xF1, 0x0A), Ok(Opcode::StoreKeypress(0x1))));
    assert!(matches!(Opcode::from(0xF1, 0x15), Ok(Opcode::SetDelayTimer(0x1))));
    assert!(matches!(Opcode::from(0xF1, 0x18), Ok(Opcode::SetSoundTimer(0x1))));
    assert!(matches!(Opcode::from(0xF1, 0x1E), Ok(Opcode::IncrementAddressReg(0x1))));
    assert!(matches!(Opcode::from(0xF1, 0x29), Ok(Opcode::StoreSpriteAddress(0x1))));
    assert!(matches!(Opcode::from(0xF1, 0x33), Ok(Opcode::BinaryCodedDecimal(0x1))));
    assert!(matches!(Opcode::from(0xF1, 0x55), Ok(Opcode::Dump(0x1))));
    assert!(matches!(Opcode::from(0xF1, 0x65), Ok(Opcode::Load(0x1))));
}

#[test]
fn unmatched_words_come_back_as_their_bytes() {
    // 5xy1 matches no row.
    let err = Opcode::from(0x5A, 0xB1).unwrap_err();
    assert_eq!((err.0).0, 0x5A);
    assert_eq!((err.1).0, 0xB1);

    // 8xy8 matches no row.
    let err = Opcode::from(0x8A, 0xB8).unwrap_err();
    assert_eq!((err.0).0, 0x8A);
    assert_eq!((err.1).0, 0xB8);

    // FxFF matches no row.
    let err = Opcode::from(0xFF, 0xFF).unwrap_err();
    assert_eq!((err.0).0, 0xFF);
    assert_eq!((err.1).0, 0xFF);
}
