use alvin::emulator::{Effect, System, VmError};
use alvin::opcode::Opcode;

fn fresh() -> System {
    System::new(&[])
}

#[test]
fn add_assign_reg_carry() {
    let mut sys = fresh();
    sys.set_register(0, 0xFF);
    sys.set_register(1, 0x01);
    sys.process_opcode(Opcode::AddAssignReg(0, 1), None, 0).unwrap();
    assert_eq!(sys.get_register(0), 0x00);
    assert_eq!(sys.get_register(0xF), 1);
}

#[test]
fn add_assign_reg_no_carry() {
    let mut sys = fresh();
    sys.set_register(0, 10);
    sys.set_register(1, 5);
    sys.process_opcode(Opcode::AddAssignReg(0, 1), None, 0).unwrap();
    assert_eq!(sys.get_register(0), 15);
    assert_eq!(sys.get_register(0xF), 0);
}

#[test]
fn sub_assign_reg_no_borrow() {
    let mut sys = fresh();
    sys.set_register(2, 9);
    sys.set_register(3, 4);
    sys.process_opcode(Opcode::SubAssignReg(2, 3), None, 0).unwrap();
    assert_eq!(sys.get_register(2), 5);
    assert_eq!(sys.get_register(0xF), 1);
}

#[test]
fn sub_assign_reg_borrow() {
    let mut sys = fresh();
    sys.set_register(2, 4);
    sys.set_register(3, 9);
    sys.process_opcode(Opcode::SubAssignReg(2, 3), None, 0).unwrap();
    // 4 - 9 + 256 = 251
    assert_eq!(sys.get_register(2), 251);
    assert_eq!(sys.get_register(0xF), 0);
}

#[test]
fn subtract_reversed_operands() {
    let mut sys = fresh();
    sys.set_register(2, 4);
    sys.set_register(3, 9);
    sys.process_opcode(Opcode::Subtract(2, 3), None, 0).unwrap();
    // V2 = V3 - V2 = 5, no borrow.
    assert_eq!(sys.get_register(2), 5);
    assert_eq!(sys.get_register(0xF), 1);
}

#[test]
fn shift_right_keeps_low_bit() {
    let mut sys = fresh();
    sys.set_register(4, 0x03);
    sys.process_opcode(Opcode::ShiftRight(5, 4), None, 0).unwrap();
    assert_eq!(sys.get_register(5), 0x01);
    assert_eq!(sys.get_register(4), 0x03);
    assert_eq!(sys.get_register(0xF), 1);
}

#[test]
fn shift_left_keeps_top_bit() {
    let mut sys = fresh();
    sys.set_register(4, 0x81);
    sys.process_opcode(Opcode::ShiftLeft(5, 4), None, 0).unwrap();
    assert_eq!(sys.get_register(5), 0x02);
    assert_eq!(sys.get_register(0xF), 1);

    sys.set_register(4, 0x41);
    sys.process_opcode(Opcode::ShiftLeft(5, 4), None, 0).unwrap();
    assert_eq!(sys.get_register(5), 0x82);
    assert_eq!(sys.get_register(0xF), 0);
}

#[test]
fn add_assign_wraps_without_flag() {
    let mut sys = fresh();
    sys.set_register(6, 0xFF);
    sys.set_register(0xF, 7);
    sys.process_opcode(Opcode::AddAssign(6, 0x02), None, 0).unwrap();
    assert_eq!(sys.get_register(6), 0x01);
    // AddAssign leaves VF untouched.
    assert_eq!(sys.get_register(0xF), 7);
}

#[test]
fn bitwise_ops() {
    let mut sys = fresh();
    sys.set_register(0, 0b1100);
    sys.set_register(1, 0b1010);
    sys.process_opcode(Opcode::Or(0, 1), None, 0).unwrap();
    assert_eq!(sys.get_register(0), 0b1110);

    sys.set_register(0, 0b1100);
    sys.process_opcode(Opcode::And(0, 1), None, 0).unwrap();
    assert_eq!(sys.get_register(0), 0b1000);

    sys.set_register(0, 0b1100);
    sys.process_opcode(Opcode::Xor(0, 1), None, 0).unwrap();
    assert_eq!(sys.get_register(0), 0b0110);
}

#[test]
fn set_rand_masks_the_random_byte() {
    let mut sys = fresh();
    sys.process_opcode(Opcode::SetRand(3, 0x0F), None, 0b1010_1010).unwrap();
    assert_eq!(sys.get_register(3), 0x0A);
    sys.process_opcode(Opcode::SetRand(3, 0x00), None, 0xFF).unwrap();
    assert_eq!(sys.get_register(3), 0x00);
}

#[test]
fn jump_offset_adds_v0() {
    let mut sys = fresh();
    sys.set_register(0, 0x10);
    sys.process_opcode(Opcode::JumpOffset(0x300), None, 0).unwrap();
    assert_eq!(sys.program_counter(), 0x310);
}

#[test]
fn skips_advance_by_two_or_four() {
    let mut sys = fresh();
    sys.set_register(0, 7);
    sys.process_opcode(Opcode::SkipEq(0, 7), None, 0).unwrap();
    assert_eq!(sys.program_counter(), 0x204);
    sys.process_opcode(Opcode::SkipEq(0, 8), None, 0).unwrap();
    assert_eq!(sys.program_counter(), 0x206);
    sys.process_opcode(Opcode::SkipNEq(0, 8), None, 0).unwrap();
    assert_eq!(sys.program_counter(), 0x20A);
    sys.set_register(1, 7);
    sys.process_opcode(Opcode::SkipEqReg(0, 1), None, 0).unwrap();
    assert_eq!(sys.program_counter(), 0x20E);
    sys.process_opcode(Opcode::SkipNEqReg(0, 1), None, 0).unwrap();
    assert_eq!(sys.program_counter(), 0x210);
}

#[test]
fn key_skips_follow_the_polled_key() {
    let mut sys = fresh();
    sys.set_register(2, 0xB);
    sys.process_opcode(Opcode::SkipKeyPress(2), Some(0xB), 0).unwrap();
    assert_eq!(sys.program_counter(), 0x204);
    sys.process_opcode(Opcode::SkipKeyPress(2), Some(0xA), 0).unwrap();
    assert_eq!(sys.program_counter(), 0x206);
    sys.process_opcode(Opcode::SkipKeyPress(2), None, 0).unwrap();
    assert_eq!(sys.program_counter(), 0x208);
    // No key pressed counts as "key not pressed".
    sys.process_opcode(Opcode::SkipNoKeyPress(2), None, 0).unwrap();
    assert_eq!(sys.program_counter(), 0x20C);
    sys.process_opcode(Opcode::SkipNoKeyPress(2), Some(0xB), 0).unwrap();
    assert_eq!(sys.program_counter(), 0x20E);
}

#[test]
fn store_keypress_waits_until_a_key_arrives() {
    let mut sys = fresh();
    let effect = sys.process_opcode(Opcode::StoreKeypress(4), None, 0).unwrap();
    assert_eq!(effect, Effect::WaitKey);
    assert_eq!(sys.program_counter(), 0x200);
    let effect = sys.process_opcode(Opcode::StoreKeypress(4), Some(0xC), 0).unwrap();
    assert_eq!(effect, Effect::Proceed);
    assert_eq!(sys.get_register(4), 0xC);
    assert_eq!(sys.program_counter(), 0x202);
}

#[test]
fn timers_store_and_tick_toward_zero() {
    let mut sys = fresh();
    sys.set_register(1, 3);
    sys.process_opcode(Opcode::SetDelayTimer(1), None, 0).unwrap();
    sys.process_opcode(Opcode::SetSoundTimer(1), None, 0).unwrap();
    assert_eq!(sys.delay_timer(), 3);
    assert_eq!(sys.sound_timer(), 3);
    assert!(sys.tick());
    assert_eq!(sys.delay_timer(), 2);
    assert!(sys.tick());
    assert!(!sys.tick());
    assert_eq!(sys.delay_timer(), 0);
    assert_eq!(sys.sound_timer(), 0);
    // Ticking at zero stays at zero.
    assert!(!sys.tick());
    assert_eq!(sys.delay_timer(), 0);
    sys.process_opcode(Opcode::StoreDelayTimer(7), None, 0).unwrap();
    assert_eq!(sys.get_register(7), 0);
}

#[test]
fn bcd_writes_digits() {
    let mut sys = fresh();
    sys.set_register(2, 234);
    sys.process_opcode(Opcode::SetAddressReg(0x300), None, 0).unwrap();
    sys.process_opcode(Opcode::BinaryCodedDecimal(2), None, 0).unwrap();
    assert_eq!(sys.get_memory(0x300), 2);
    assert_eq!(sys.get_memory(0x301), 3);
    assert_eq!(sys.get_memory(0x302), 4);
}

#[test]
fn store_sprite_address_points_at_font_row() {
    let mut sys = fresh();
    sys.set_register(0, 5);
    sys.process_opcode(Opcode::StoreSpriteAddress(0), None, 0).unwrap();
    assert_eq!(sys.address_register(), 25);
    let row: Vec<u8> = (25u16..30).map(|a| sys.get_memory(a)).collect();
    assert_eq!(row, vec![0xF0, 0x80, 0xF0, 0x10, 0xF0]);
}

#[test]
fn dump_then_load_round_trips_registers() {
    let mut sys = fresh();
    for x in 0u8..8 {
        sys.set_register(x, 10 + x);
    }
    sys.process_opcode(Opcode::SetAddressReg(0x400), None, 0).unwrap();
    sys.process_opcode(Opcode::Dump(7), None, 0).unwrap();
    // Dump advances I past the dumped block.
    assert_eq!(sys.address_register(), 0x408);
    sys.reset();
    assert_eq!(sys.get_register(3), 0);
    sys.process_opcode(Opcode::SetAddressReg(0x400), None, 0).unwrap();
    sys.process_opcode(Opcode::Load(7), None, 0).unwrap();
    for x in 0u8..8 {
        assert_eq!(sys.get_register(x), 10 + x);
    }
    assert_eq!(sys.address_register(), 0x408);
}

#[test]
fn increment_address_register() {
    let mut sys = fresh();
    sys.set_register(3, 0x20);
    sys.process_opcode(Opcode::SetAddressReg(0x100), None, 0).unwrap();
    sys.process_opcode(Opcode::IncrementAddressReg(3), None, 0).unwrap();
    assert_eq!(sys.address_register(), 0x120);
}

#[test]
fn return_on_empty_stack_is_fatal() {
    let mut sys = fresh();
    let err = sys.process_opcode(Opcode::Return, None, 0);
    assert_eq!(err, Err(VmError::StackUnderflow));
    // The machine did not move.
    assert_eq!(sys.program_counter(), 0x200);
}

#[test]
fn machine_call_is_ignored() {
    let mut sys = fresh();
    sys.process_opcode(Opcode::Call(0x123), None, 0).unwrap();
    assert_eq!(sys.program_counter(), 0x202);
    assert_eq!(sys.stack_len(), 0);
}

#[test]
fn copy_and_set_registers() {
    let mut sys = fresh();
    sys.process_opcode(Opcode::SetConst(1, 0x42), None, 0).unwrap();
    sys.process_opcode(Opcode::Copy(0, 1), None, 0).unwrap();
    assert_eq!(sys.get_register(0), 0x42);
    assert_eq!(sys.get_register(1), 0x42);
}
