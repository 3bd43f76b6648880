use chip8core::emulator;
use chip8core::opcodes::execute_opcode;
use chip8core::Emulator;
use rand::random;

#[test]
fn test_cls() {
    let mut emu = Emulator::default();

    // Set random pixel values
    for i in 0..emu.display.len() {
        emu.display[i] = random();
    }

    // Ensure at least one pixel is on
    emu.display[0] = true;
    assert!(emu.display[0]);

    // Clear screen
    execute_opcode(&mut emu, 0x00E0).unwrap();

    // Ensure all pixels are off
    for pixel in emu.display {
        assert!(!pixel);
    }
}

#[test]
fn test_jp() {
    let mut emu = Emulator::new();
    assert_eq!(emu.program_counter, emulator::START_ADDRESS);

    // Jump to location 0x5FE
    execute_opcode(&mut emu, 0x15FE).unwrap();
    assert_eq!(emu.program_counter, 0x5FE);

    // Jump to location 0x89
    execute_opcode(&mut emu, 0x1089).unwrap();
    assert_eq!(emu.program_counter, 0x89);
}

#[test]
fn test_subroutines() {
    let mut emu = Emulator::default();
    assert_eq!(emu.program_counter, emulator::START_ADDRESS);
    assert_eq!(emu.stack_pointer, 0);

    // Add instruction: call subroutine at location 0xE06
    emu.write_instruction((emu.program_counter) as usize, 0x2E06_u16).unwrap();

    // Add instruction: return from subroutine
    emu.write_instruction(0x0E06_usize, 0x00EE_u16).unwrap();

    // Tick: should jump to location 0xE06
    emu.tick().unwrap();
    assert_eq!(emu.stack_pointer, 1);
    assert_eq!(emu.program_counter, 0xE06);

    // Tick: should return from subroutine
    emu.tick().unwrap();
    assert_eq!(emu.stack_pointer, 0);
    assert_eq!(emu.program_counter, emulator::START_ADDRESS + 0x2);
}

#[test]
fn test_se_sne() {
    let mut emu = Emulator::default();
    emu.set_v(0_usize, 5).unwrap();
    emu.set_v(1_usize, 5).unwrap();
    emu.set_v(2_usize, 6).unwrap();
    emu.set_v(0xD_usize, 0).unwrap();
    emu.set_v(0xE_usize, 0).unwrap();

    // Add instruction: skip next instruction iff V0 == 5.
    emu.write_instruction((emu.program_counter) as usize, 0x3005_u16).unwrap();
    // Add instruction: set VD = 1. should be skipped!
    emu.write_instruction((emu.program_counter + 2) as usize, 0x6D01_u16).unwrap();
    // Add instruction: set VE = 1. should be executed!
    emu.write_instruction((emu.program_counter + 4) as usize, 0x6E01_u16).unwrap();

    // Skip next instruction iff V0 == 6.
    emu.write_instruction((emu.program_counter + 6) as usize, 0x3006_u16).unwrap();
    // Set VD = 2. Should be executed!
    emu.write_instruction((emu.program_counter + 8) as usize, 0x6D02_u16).unwrap();

    // Skip next instruction iff V0 != 5.
    emu.write_instruction((emu.program_counter + 10) as usize, 0x4005_u16).unwrap();
    // Set VD = 3. Should be executed!
    emu.write_instruction((emu.program_counter + 12) as usize, 0x6D03_u16).unwrap();

    // Skip next instruction iff V1 != 6.
    emu.write_instruction((emu.program_counter + 14) as usize, 0x4106_u16).unwrap();
    // Set VE = 4. Should be skipped!
    emu.write_instruction((emu.program_counter + 16) as usize, 0x6E04_u16).unwrap();

    // Skip next instruction iff V0 == V1.
    emu.write_instruction((emu.program_counter + 18) as usize, 0x5010_u16).unwrap();
    // Set VE = 5. Should be skipped!
    emu.write_instruction((emu.program_counter + 20) as usize, 0x6E05_u16).unwrap();

    // Skip next instruction iff V1 == V2.
    emu.write_instruction((emu.program_counter + 22) as usize, 0x5120_u16).unwrap();
    // Set VD = 6. Should be executed!
    emu.write_instruction((emu.program_counter + 24) as usize, 0x6D06_u16).unwrap();

    // Skip next instruction iff V0 != V1.
    emu.write_instruction((emu.program_counter + 26) as usize, 0x9010_u16).unwrap();
    // Set VE = 7. Should be executed!
    emu.write_instruction((emu.program_counter + 28) as usize, 0x6E07_u16).unwrap();

    // Skip next instruction iff V1 != V2.
    emu.write_instruction((emu.program_counter + 30) as usize, 0x9120_u16).unwrap();
    // Set VD = 8. Should be skipped!
    emu.write_instruction((emu.program_counter + 32) as usize, 0x6D08_u16).unwrap();
    // Noop
    emu.write_instruction((emu.program_counter + 34) as usize, 0x0000_u16).unwrap();

    // Execute and test
    assert_eq!(emu.get_v(0xD_usize), Ok(0));
    assert_eq!(emu.get_v(0xE_usize), Ok(0));
    emu.tick().unwrap();
    emu.tick().unwrap();
    assert_eq!(emu.get_v(0xD_usize), Ok(0));
    assert_eq!(emu.get_v(0xE_usize), Ok(1));

    emu.tick().unwrap();
    emu.tick().unwrap();
    assert_eq!(emu.get_v(0xD_usize), Ok(2));
    assert_eq!(emu.get_v(0xE_usize), Ok(1));

    emu.tick().unwrap();
    emu.tick().unwrap();
    assert_eq!(emu.get_v(0xD_usize), Ok(3));
    assert_eq!(emu.get_v(0xE_usize), Ok(1));

    emu.tick().unwrap();

    emu.tick().unwrap();

    emu.tick().unwrap();
    emu.tick().unwrap();
    assert_eq!(emu.get_v(0xD_usize), Ok(6));
    assert_eq!(emu.get_v(0xE_usize), Ok(1));

    emu.tick().unwrap();
    emu.tick().unwrap();
    assert_eq!(emu.get_v(0xD_usize), Ok(6));
    assert_eq!(emu.get_v(0xE_usize), Ok(7));

    emu.tick().unwrap();
    emu.tick().unwrap();
    assert_eq!(emu.get_v(0xD_usize), Ok(6));
    assert_eq!(emu.get_v(0xE_usize), Ok(7));

    assert_eq!(emu.program_counter, emulator::START_ADDRESS + 36);
}

#[test]
fn test_add_vx_byte() {
    let mut emu = Emulator::new();

    emu.set_v(0_usize, 6).unwrap();
    execute_opcode(&mut emu, 0x7001).unwrap();
    assert_eq!(emu.get_v(0_usize), Ok(7));
    execute_opcode(&mut emu, 0x7008).unwrap();
    assert_eq!(emu.get_v(0_usize), Ok(0xF));
    execute_opcode(&mut emu, 0x70F0).unwrap();
    assert_eq!(emu.get_v(0_usize), Ok(0xFF));
    // Test wrapping
    execute_opcode(&mut emu, 0x7005).unwrap();
    assert_eq!(emu.get_v(0_usize), Ok(4));
}

#[test]
fn test_ld_vx_vy() {
    let mut emu = Emulator::default();

    emu.set_v(0_usize, 0xF).unwrap();
    emu.set_v(1_usize, 0x7E).unwrap();

    execute_opcode(&mut emu, 0x8010).unwrap();
    assert_eq!(emu.get_v(0_usize), Ok(0x7E));
    assert_eq!(emu.get_v(1_usize), Ok(0x7E));
}

#[test]
fn test_or() {
    let mut emu = Emulator::new();

    emu.set_v(0_usize, 0b_0101_1110).unwrap();
    emu.set_v(1_usize, 0b_0010_0010).unwrap();

    execute_opcode(&mut emu, 0x8011).unwrap();
    assert_eq!(emu.get_v(0_usize), Ok(0b_0111_1110));
    assert_eq!(emu.get_v(1_usize), Ok(0b_0010_0010));
}

#[test]
fn test_and() {
    let mut emu = Emulator::new();

    emu.set_v(0_usize, 0b_0101_1110).unwrap();
    emu.set_v(1_usize, 0b_0110_0011).unwrap();

    execute_opcode(&mut emu, 0x8012).unwrap();
    assert_eq!(emu.get_v(0_usize), Ok(0b_0100_0010));
    assert_eq!(emu.get_v(1_usize), Ok(0b_0110_0011));
}

#[test]
fn test_xor() {
    let mut emu = Emulator::new();

    emu.set_v(0_usize, 0b_0101_1110).unwrap();
    emu.set_v(1_usize, 0b_0110_0011).unwrap();

    execute_opcode(&mut emu, 0x8013).unwrap();
    assert_eq!(emu.get_v(0_usize), Ok(0b_0011_1101));
    assert_eq!(emu.get_v(1_usize), Ok(0b_0110_0011));
}

#[test]
fn test_add_vx_vy() {
    let mut emu = Emulator::new();

    emu.set_v(0_usize, 0xB7).unwrap();
    emu.set_v(1_usize, 0x1F).unwrap();

    execute_opcode(&mut emu, 0x8104).unwrap();
    assert_eq!(emu.get_v(0_usize), Ok(0xB7));
    assert_eq!(emu.get_v(1_usize), Ok(0xD6));
    assert_eq!(emu.get_v(0xF_usize), Ok(0x0));

    // Test overflow
    emu.set_v(2_usize, 0xF0).unwrap();
    emu.set_v(3_usize, 0x9D).unwrap();

    execute_opcode(&mut emu, 0x8234).unwrap();
    assert_eq!(emu.get_v(2_usize), Ok(0x8D));
    assert_eq!(emu.get_v(3_usize), Ok(0x9D));
    assert_eq!(emu.get_v(0xF_usize), Ok(0x1));
}

#[test]
fn test_sub_vx_vy() {
    let mut emu = Emulator::new();

    emu.set_v(0_usize, 0xB7).unwrap();
    emu.set_v(1_usize, 0x1F).unwrap();

    execute_opcode(&mut emu, 0x8015).unwrap();
    assert_eq!(emu.get_v(0_usize), Ok(0x98));
    assert_eq!(emu.get_v(1_usize), Ok(0x1F));
    assert_eq!(emu.get_v(0xF_usize), Ok(0x1));

    // Test borrow
    emu.set_v(2_usize, 0xA0).unwrap();
    emu.set_v(3_usize, 0xB5).unwrap();

    execute_opcode(&mut emu, 0x8235).unwrap();
    assert_eq!(emu.get_v(2_usize), Ok(0xEB));
    assert_eq!(emu.get_v(3_usize), Ok(0xB5));
    assert_eq!(emu.get_v(0xF_usize), Ok(0x0));
}

#[test]
fn test_shrl() {
    let mut emu = Emulator::new();

    emu.set_v(0_usize, 0b_1010_1010).unwrap();
    emu.set_v(1_usize, 0b_0101_0101).unwrap();
    emu.set_v(2_usize, 0b_1010_1010).unwrap();
    emu.set_v(3_usize, 0b_0101_0101).unwrap();

    // shr no remainder
    execute_opcode(&mut emu, 0x80A6).unwrap();
    assert_eq!(emu.get_v(0x0_usize), Ok(0b_0101_0101));
    assert_eq!(emu.get_v(0xF_usize), Ok(0x0));

    // shr remainder
    execute_opcode(&mut emu, 0x81B6).unwrap();
    assert_eq!(emu.get_v(0x1_usize), Ok(0b_0010_1010));
    assert_eq!(emu.get_v(0xF_usize), Ok(0x1));

    // shl not too big
    execute_opcode(&mut emu, 0x830E).unwrap();
    assert_eq!(emu.get_v(0x3_usize), Ok(0b_1010_1010));
    assert_eq!(emu.get_v(0xF_usize), Ok(0x0));

    // shl too big
    execute_opcode(&mut emu, 0x82FE).unwrap();
    assert_eq!(emu.get_v(0x2_usize), Ok(0b_0101_0100));
    assert_eq!(emu.get_v(0xF_usize), Ok(0x1));
}

#[test]
fn test_subn_vx_vy() {
    let mut emu = Emulator::new();

    emu.set_v(0_usize, 0xB7).unwrap();
    emu.set_v(1_usize, 0x1F).unwrap();

    execute_opcode(&mut emu, 0x8107).unwrap();
    assert_eq!(emu.get_v(0_usize), Ok(0xB7));
    assert_eq!(emu.get_v(1_usize), Ok(0x98));
    assert_eq!(emu.get_v(0xF_usize), Ok(0x1));

    // Test borrow
    emu.set_v(2_usize, 0xA0).unwrap();
    emu.set_v(3_usize, 0xB5).unwrap();

    execute_opcode(&mut emu, 0x8327).unwrap();
    assert_eq!(emu.get_v(2_usize), Ok(0xA0));
    assert_eq!(emu.get_v(3_usize), Ok(0xEB));
    assert_eq!(emu.get_v(0xF_usize), Ok(0x0));
}

#[test]
fn test_ld_i_addr() {
    let mut emu = Emulator::new();
    emu.i_register = 0x000;
    execute_opcode(&mut emu, 0xA123).unwrap();
    assert_eq!(emu.i_register, 0x123);
    execute_opcode(&mut emu, 0xAFFF).unwrap();
    assert_eq!(emu.i_register, 0xFFF);
}

#[test]
fn test_jp_v0() {
    let mut emu = Emulator::new();
    emu.set_v(0_usize, 0x12).unwrap();
    execute_opcode(&mut emu, 0xBF00).unwrap();
    assert_eq!(emu.program_counter, 0xF12);
}
