use alvin::emulator::{System, VmError};
use alvin::opcode::Opcode;

#[test]
fn add_then_spin() {
    // SET V0=10; SET V1=5; V0 += V1; jump to the jump.
    let rom = [0x60, 0x0A, 0x61, 0x05, 0x80, 0x14, 0x12, 0x06];
    let mut sys = System::new(&rom);
    for _ in 0..3 {
        sys.step(None).unwrap();
    }
    assert_eq!(sys.get_register(0), 15);
    assert_eq!(sys.get_register(0xF), 0);
    assert_eq!(sys.program_counter(), 0x206);
    for _ in 0..5 {
        sys.step(None).unwrap();
        assert_eq!(sys.program_counter(), 0x206);
    }
}

#[test]
fn add_with_carry() {
    let rom = [0x60, 0xFF, 0x61, 0x01, 0x80, 0x14];
    let mut sys = System::new(&rom);
    for _ in 0..3 {
        sys.step(None).unwrap();
    }
    assert_eq!(sys.get_register(0), 0x00);
    assert_eq!(sys.get_register(1), 0x01);
    assert_eq!(sys.get_register(0xF), 1);
}

#[test]
fn draws_the_digit_five_font_sprite() {
    let rom = [0xA0, 0x00, 0x60, 0x05, 0xF0, 0x29, 0xD1, 0x25];
    let mut sys = System::new(&rom);
    for _ in 0..4 {
        sys.step(None).unwrap();
    }
    assert_eq!(sys.address_register(), 25);
    assert_eq!(sys.get_register(0xF), 0);
    // The digit-5 rows: 0xF0, 0x80, 0xF0, 0x10, 0xF0 at (0, 0).
    let rows = [0xF0u8, 0x80, 0xF0, 0x10, 0xF0];
    for (y, row) in rows.iter().enumerate() {
        for x in 0..8 {
            let lit = (row >> (7 - x)) & 1 == 1;
            assert_eq!(sys.pixel(x, y), lit, "pixel ({}, {})", x, y);
        }
    }
    for y in 5..32 {
        for x in 0..64 {
            assert!(!sys.pixel(x, y));
        }
    }
}

#[test]
fn clear_loop_keeps_screen_dark() {
    let rom = [0x00, 0xE0, 0x12, 0x00];
    let mut sys = System::new(&rom);
    for _ in 0..10 {
        sys.step(None).unwrap();
        sys.step(None).unwrap();
        assert_eq!(sys.program_counter(), 0x200);
        for y in 0..32 {
            for x in 0..64 {
                assert!(!sys.pixel(x, y));
            }
        }
    }
}

#[test]
fn bcd_of_234_at_i_0x300() {
    let rom = [0x62, 0xEA, 0xF2, 0x33];
    let mut sys = System::new(&rom);
    sys.step(None).unwrap();
    assert_eq!(sys.get_register(2), 234);
    sys.process_opcode(Opcode::SetAddressReg(0x300), None, 0).unwrap();
    sys.process_opcode(Opcode::BinaryCodedDecimal(2), None, 0).unwrap();
    assert_eq!(
        (sys.get_memory(0x300), sys.get_memory(0x301), sys.get_memory(0x302)),
        (2, 3, 4)
    );
}

#[test]
fn call_pushes_and_return_pops() {
    // CALL 0x204; spin; RET.
    let rom = [0x22, 0x04, 0x12, 0x02, 0x00, 0xEE];
    let mut sys = System::new(&rom);
    sys.step(None).unwrap();
    assert_eq!(sys.stack_len(), 1);
    assert_eq!(sys.program_counter(), 0x204);
    sys.step(None).unwrap();
    // The return address is the caller's, advanced past the call word.
    assert_eq!(sys.program_counter(), 0x202);
    assert_eq!(sys.stack_len(), 0);
    // A second return underflows the now empty stack.
    assert_eq!(
        sys.process_opcode(Opcode::Return, None, 0),
        Err(VmError::StackUnderflow)
    );
}

#[test]
fn data_words_are_stepped_over() {
    // Two data words, then a SET.
    let rom = [0xFF, 0xFF, 0x5A, 0xB1, 0x63, 0x07];
    let mut sys = System::new(&rom);
    sys.step(None).unwrap();
    assert_eq!(sys.program_counter(), 0x202);
    sys.step(None).unwrap();
    assert_eq!(sys.program_counter(), 0x204);
    sys.step(None).unwrap();
    assert_eq!(sys.get_register(3), 7);
}

#[test]
fn set_rand_stays_within_the_mask() {
    let rom = [0xC0, 0x0F, 0x12, 0x00];
    let mut sys = System::new(&rom);
    sys.step(None).unwrap();
    assert_eq!(sys.get_register(0) & 0xF0, 0);
}

#[test]
fn program_loads_at_0x200_and_truncates_at_0xea0() {
    let rom = vec![0xAB; 4000];
    let sys = System::new(&rom);
    assert_eq!(sys.get_memory(0x200), 0xAB);
    assert_eq!(sys.get_memory(0xE9F), 0xAB);
    // Bytes past the program region were not written.
    assert_eq!(sys.get_memory(0xEA0), 0x00);
    assert_eq!(sys.get_memory(0xFFF), 0x00);
}

#[test]
fn fonts_sit_at_the_bottom_of_memory() {
    let sys = System::new(&[]);
    // Digit 0: 0xF0, 0x90, 0x90, 0x90, 0xF0.
    assert_eq!(sys.get_memory(0), 0xF0);
    assert_eq!(sys.get_memory(1), 0x90);
    assert_eq!(sys.get_memory(4), 0xF0);
    // Digit F starts at 75: 0xF0, 0x80, 0xF0, 0x80, 0x80.
    assert_eq!(sys.get_memory(75), 0xF0);
    assert_eq!(sys.get_memory(79), 0x80);
}

#[test]
fn reset_keeps_memory_but_clears_the_rest() {
    let rom = [0x60, 0x0A, 0xA3, 0x00, 0x22, 0x06];
    let mut sys = System::new(&rom);
    for _ in 0..3 {
        sys.step(None).unwrap();
    }
    assert_eq!(sys.get_register(0), 0x0A);
    assert_eq!(sys.address_register(), 0x300);
    assert_eq!(sys.stack_len(), 1);
    sys.reset();
    assert_eq!(sys.get_register(0), 0);
    assert_eq!(sys.address_register(), 0);
    assert_eq!(sys.stack_len(), 0);
    assert_eq!(sys.program_counter(), 0x200);
    // The program is still in memory and runs again.
    assert_eq!(sys.get_memory(0x200), 0x60);
    sys.step(None).unwrap();
    assert_eq!(sys.get_register(0), 0x0A);
}

#[test]
fn can_step_guards_out_of_range_accesses() {
    // Point I at the top of memory, then try a 5-row draw past the end.
    let rom = [0xAF, 0xFF, 0xD1, 0x25];
    let mut sys = System::new(&rom);
    assert!(sys.can_step());
    sys.step(None).unwrap();
    assert_eq!(sys.address_register(), 0xFFF);
    assert!(!sys.can_step());

    // A jump to the last byte leaves no room to fetch a whole word.
    let rom = [0x1F, 0xFF];
    let mut sys = System::new(&rom);
    sys.step(None).unwrap();
    assert_eq!(sys.program_counter(), 0xFFF);
    assert!(!sys.can_step());
}
