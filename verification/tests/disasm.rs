use alvin::disassembler::disassemble;
use alvin::emulator::System;
use alvin::opcode::Opcode;

const HEADER: &str = "HEX\tOP\tARG1\tARG2\tARG3\n---\t--\t----\t----\t----\n";

#[test]
fn empty_rom_lists_only_the_header() {
    assert_eq!(disassemble(&[]), HEADER);
}

#[test]
fn listing_renders_words_and_mnemonics() {
    let rom = [0x60, 0x0A, 0x00, 0xE0, 0x12, 0x06, 0xA1, 0x23];
    let expected = format!(
        "{}{}",
        HEADER,
        "0x600a\tSET\tV0\t10\n0x00e0\tCLS\n0x1206\tJMP\t0x206\n0xa123\tSET\tI\t0x123\n"
    );
    assert_eq!(disassemble(&rom), expected);
}

#[test]
fn data_words_are_listed_as_data() {
    let rom = [0xFF, 0xFF, 0x5A, 0xB1];
    let expected = format!("{}{}", HEADER, "0xffff\tDATA\tffff\n0x5ab1\tDATA\t5ab1\n");
    assert_eq!(disassemble(&rom), expected);
}

#[test]
fn mnemonics_spell_registers_and_arguments() {
    assert_eq!(Opcode::from(0x80, 0x14).unwrap().mnemonic(), "ADDA\tV0\tV1");
    assert_eq!(Opcode::from(0x8A, 0xB5).unwrap().mnemonic(), "SUBA\tVA\tVB");
    assert_eq!(Opcode::from(0xD1, 0x25).unwrap().mnemonic(), "DRW\tV1\tV2\t5");
    assert_eq!(Opcode::from(0x00, 0xEE).unwrap().mnemonic(), "RET");
    assert_eq!(Opcode::from(0x22, 0x04).unwrap().mnemonic(), "CALL\t0x204");
    assert_eq!(Opcode::from(0xC3, 0xFF).unwrap().mnemonic(), "RND\tV3\t255");
    assert_eq!(Opcode::from(0xF1, 0x07).unwrap().mnemonic(), "SET\tV1\tDELAY");
    assert_eq!(Opcode::from(0xF1, 0x0A).unwrap().mnemonic(), "SET\tV1\tKEY");
    assert_eq!(Opcode::from(0xF1, 0x15).unwrap().mnemonic(), "SET\tDELAY\tV1");
    assert_eq!(Opcode::from(0xF1, 0x18).unwrap().mnemonic(), "SET\tSOUND\tV1");
    assert_eq!(Opcode::from(0xF1, 0x1E).unwrap().mnemonic(), "ADD\tI\tV1");
    assert_eq!(Opcode::from(0xF1, 0x29).unwrap().mnemonic(), "SPRT\tV1");
    assert_eq!(Opcode::from(0xF1, 0x33).unwrap().mnemonic(), "BCD\tV1");
    assert_eq!(Opcode::from(0xF1, 0x55).unwrap().mnemonic(), "DUMP\tV1");
    assert_eq!(Opcode::from(0xF1, 0x65).unwrap().mnemonic(), "LOAD\tV1");
    assert_eq!(Opcode::from(0xE1, 0x9E).unwrap().mnemonic(), "SKP\tV1");
    assert_eq!(Opcode::from(0xE1, 0xA1).unwrap().mnemonic(), "SNKP\tV1");
    assert_eq!(Opcode::from(0xB1, 0x23).unwrap().mnemonic(), "OFF\t0x123");
}

#[test]
fn debug_line_dumps_the_machine_state() {
    let mut sys = System::new(&[0x00, 0xE0]);
    sys.set_register(0, 10);
    sys.set_register(0xA, 200);
    let expected = "PC[0x0200]\tDELAY[0]\tSOUND[0]\tI[0x000]\
        \tV0[10]\tV1[0]\tV2[0]\tV3[0]\tV4[0]\tV5[0]\tV6[0]\tV7[0]\
        \tV8[0]\tV9[0]\tVA[200]\tVB[0]\tVC[0]\tVD[0]\tVE[0]\tVF[0]\tCLS";
    assert_eq!(sys.debug_line(), expected);
}
