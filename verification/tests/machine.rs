use chip8core::emulator::{DISPLAY_HEIGHT, DISPLAY_SIZE, DISPLAY_WIDTH, START_ADDRESS};
use chip8core::fontset::{FONTSET, FONTSET_SIZE};
use chip8core::{Emulator, EmuError};

#[test]
fn new_machine_is_in_initial_state() {
    let emu = Emulator::new();
    assert_eq!(emu.program_counter, 0x200);
    assert_eq!(START_ADDRESS, 0x200);
    assert_eq!(emu.i_register, 0);
    assert_eq!(emu.stack_pointer, 0);
    assert_eq!(emu.delay_timer, 0);
    assert_eq!(emu.sound_timer, 0);
    assert!(emu.v_registers.iter().all(|v| *v == 0));
    assert!(emu.stack.iter().all(|s| *s == 0));
    assert!(emu.keys.iter().all(|k| !*k));
    assert!(emu.display.iter().all(|p| !*p));
    assert_eq!(&emu.ram[..FONTSET_SIZE], &FONTSET[..]);
    assert!(emu.ram[FONTSET_SIZE..].iter().all(|b| *b == 0));
    assert_eq!(emu, Emulator::default());
}

#[test]
fn font_table_holds_the_glyphs() {
    assert_eq!(FONTSET_SIZE, 80);
    assert_eq!(&FONTSET[0..5], &[0xF0, 0x90, 0x90, 0x90, 0xF0]);
    assert_eq!(&FONTSET[5..10], &[0x20, 0x60, 0x20, 0x20, 0x70]);
    assert_eq!(&FONTSET[75..80], &[0xF0, 0x80, 0xF0, 0x80, 0x80]);
}

#[test]
fn display_is_64_by_32() {
    assert_eq!(DISPLAY_WIDTH, 64);
    assert_eq!(DISPLAY_HEIGHT, 32);
    assert_eq!(DISPLAY_SIZE, 64 * 32);
    let emu = Emulator::new();
    assert_eq!(emu.framebuffer().len(), 2048);
}

#[test]
fn reset_restores_initial_state() {
    let mut emu = Emulator::new();
    emu.load(&[0x12, 0x34, 0x56]).unwrap();
    emu.set_v(3, 9).unwrap();
    emu.push(0x300).unwrap();
    emu.set_key(4, true).unwrap();
    emu.display[100] = true;
    emu.ram[0] = 0;
    emu.delay_timer = 7;
    emu.sound_timer = 8;
    emu.i_register = 0x400;
    emu.program_counter = 0x222;
    emu.reset();
    assert_eq!(emu, Emulator::new());
    emu.reset();
    assert_eq!(emu, Emulator::new());
}

#[test]
fn registers_are_read_and_written_by_index() {
    let mut emu = Emulator::new();
    for x in 0..16usize {
        assert_eq!(emu.set_v(x, (x as u8) * 3 + 1), Ok(()));
    }
    for x in 0..16usize {
        assert_eq!(emu.get_v(x), Ok((x as u8) * 3 + 1));
    }
}

#[test]
fn register_index_out_of_range() {
    let mut emu = Emulator::new();
    let before = emu.clone();
    assert_eq!(emu.get_v(16), Err(EmuError::IndexOutOfRange));
    assert_eq!(emu.set_v(16, 1), Err(EmuError::IndexOutOfRange));
    assert_eq!(emu.set_v(usize::MAX, 1), Err(EmuError::IndexOutOfRange));
    assert_eq!(emu, before);
}

#[test]
fn push_then_pop_returns_value() {
    let mut emu = Emulator::new();
    emu.push(0x123).unwrap();
    emu.push(0x456).unwrap();
    assert_eq!(emu.stack_pointer, 2);
    assert_eq!(emu.pop(), Ok(0x456));
    assert_eq!(emu.pop(), Ok(0x123));
    assert_eq!(emu.stack_pointer, 0);
}

#[test]
fn push_on_full_stack_overflows() {
    let mut emu = Emulator::new();
    for k in 0..16u16 {
        assert_eq!(emu.push(k), Ok(()));
    }
    let before = emu.clone();
    assert_eq!(emu.push(99), Err(EmuError::StackOverflow));
    assert_eq!(emu, before);
    assert_eq!(emu.pop(), Ok(15));
}

#[test]
fn pop_on_empty_stack_underflows() {
    let mut emu = Emulator::new();
    let before = emu.clone();
    assert_eq!(emu.pop(), Err(EmuError::StackUnderflow));
    assert_eq!(emu, before);
}

#[test]
fn timers_count_down_to_zero_and_stay() {
    let mut emu = Emulator::new();
    emu.delay_timer = 2;
    emu.sound_timer = 1;
    emu.tick_timers();
    assert_eq!((emu.delay_timer, emu.sound_timer), (1, 0));
    emu.tick_timers();
    assert_eq!((emu.delay_timer, emu.sound_timer), (0, 0));
    let at_rest = emu.clone();
    emu.tick_timers();
    assert_eq!(emu, at_rest);
}

#[test]
fn timers_leave_the_rest_alone() {
    let mut emu = Emulator::new();
    emu.delay_timer = 255;
    emu.sound_timer = 0;
    let mut want = emu.clone();
    want.delay_timer = 254;
    emu.tick_timers();
    assert_eq!(emu, want);
}

#[test]
fn set_key_updates_keypad() {
    let mut emu = Emulator::new();
    emu.set_key(0xA, true).unwrap();
    assert!(emu.keys[0xA]);
    assert_eq!(emu.keys.iter().filter(|k| **k).count(), 1);
    emu.set_key(0xA, false).unwrap();
    assert!(!emu.keys[0xA]);
    assert_eq!(emu.set_key(16, true), Err(EmuError::IndexOutOfRange));
    assert_eq!(emu, Emulator::new());
}

#[test]
fn load_copies_image_to_start_address() {
    let mut emu = Emulator::new();
    emu.load(&[0xAA, 0xBB, 0xCC]).unwrap();
    assert_eq!(&emu.ram[0x200..0x203], &[0xAA, 0xBB, 0xCC]);
    assert_eq!(emu.ram[0x1FF], 0);
    assert_eq!(emu.ram[0x203], 0);
    assert_eq!(&emu.ram[..80], &FONTSET[..]);
    assert_eq!(emu.program_counter, 0x200);
}

#[test]
fn load_accepts_largest_image() {
    let mut emu = Emulator::new();
    let image = vec![0x5A_u8; 4096 - 0x200];
    assert_eq!(emu.load(&image), Ok(()));
    assert_eq!(emu.ram[0x200], 0x5A);
    assert_eq!(emu.ram[4095], 0x5A);
    assert_eq!(emu.ram[0x1FF], 0);
}

#[test]
fn load_rejects_image_too_large() {
    let mut emu = Emulator::new();
    let image = vec![0x5A_u8; 4096 - 0x200 + 1];
    assert_eq!(emu.load(&image), Err(EmuError::RomTooLarge));
    assert_eq!(emu, Emulator::new());
}

#[test]
fn load_of_empty_image_changes_nothing() {
    let mut emu = Emulator::new();
    assert_eq!(emu.load(&[]), Ok(()));
    assert_eq!(emu, Emulator::new());
}

#[test]
fn write_instruction_is_big_endian() {
    let mut emu = Emulator::new();
    emu.write_instruction(0x300, 0xA1B2).unwrap();
    assert_eq!(emu.ram[0x300], 0xA1);
    assert_eq!(emu.ram[0x301], 0xB2);
    assert_eq!(emu.write_instruction(4094, 0x1234), Ok(()));
    assert_eq!(emu.ram[4095], 0x34);
    let before = emu.clone();
    assert_eq!(emu.write_instruction(4095, 0x1234), Err(EmuError::AddressOutOfRange));
    assert_eq!(emu.write_instruction(usize::MAX, 0x1234), Err(EmuError::AddressOutOfRange));
    assert_eq!(emu, before);
}

#[test]
fn fetch_reads_two_bytes_and_advances() {
    let mut emu = Emulator::new();
    emu.ram[0x200] = 0x12;
    emu.ram[0x201] = 0xEF;
    assert_eq!(emu.fetch(), Ok(0x12EF));
    assert_eq!(emu.program_counter, 0x202);
}

#[test]
fn fetch_past_end_of_memory_fails() {
    let mut emu = Emulator::new();
    emu.program_counter = 4094;
    let before = emu.clone();
    assert_eq!(emu.fetch(), Err(EmuError::AddressOutOfRange));
    assert_eq!(emu, before);
    emu.program_counter = 4092;
    emu.ram[4092] = 0xAB;
    emu.ram[4093] = 0xCD;
    assert_eq!(emu.fetch(), Ok(0xABCD));
    assert_eq!(emu.program_counter, 4094);
}

#[test]
fn tick_fails_past_end_of_memory() {
    let mut emu = Emulator::new();
    emu.program_counter = 4095;
    let before = emu.clone();
    assert_eq!(emu.tick(), Err(EmuError::AddressOutOfRange));
    assert_eq!(emu, before);
}

#[test]
fn tick_on_unsupported_opcode_leaves_machine_unchanged() {
    let mut emu = Emulator::new();
    emu.write_instruction(0x200, 0x0123).unwrap();
    let before = emu.clone();
    assert_eq!(emu.tick(), Err(EmuError::UnsupportedOpcode(0x0123)));
    assert_eq!(emu, before);
}

#[test]
fn tick_runs_a_small_program() {
    let mut emu = Emulator::new();
    // V1 = 0x0A; V2 = 0x14; V1 += V2; I = 0x300; store BCD of V1 at I.
    emu.load(&[0x61, 0x0A, 0x62, 0x14, 0x81, 0x24, 0xA3, 0x00, 0xF1, 0x33]).unwrap();
    for _ in 0..5 {
        emu.tick().unwrap();
    }
    assert_eq!(emu.get_v(1), Ok(30));
    assert_eq!(emu.get_v(0xF), Ok(0));
    assert_eq!(emu.i_register, 0x300);
    assert_eq!(&emu.ram[0x300..0x303], &[0, 3, 0]);
    assert_eq!(emu.program_counter, 0x20A);
}

#[test]
fn well_formedness_is_checked() {
    let mut emu = Emulator::new();
    assert!(emu.is_well_formed());
    emu.stack_pointer = 16;
    emu.program_counter = 4095;
    assert!(emu.is_well_formed());
    emu.stack_pointer = 17;
    assert!(!emu.is_well_formed());
    emu.stack_pointer = 0;
    emu.program_counter = 4096;
    assert!(!emu.is_well_formed());
}
