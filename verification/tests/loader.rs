use chip8::constants::{FONT, FONT_BASE, PROGRAM_START, RAM_SIZE};
use chip8::error::{FetchError, LoadError};
use chip8::memory::Memory;
use chip8::Sys;

#[test]
fn new_machine_is_zeroed() {
    let sys = Sys::new();
    assert!(sys.memory.bytes.iter().all(|&b| b == 0));
    assert_eq!(sys.registers.v, [0u8; 16]);
    assert_eq!(sys.registers.index, 0);
    assert_eq!(sys.registers.pc, 0);
    assert!(sys.registers.stack.is_empty());
    assert_eq!(sys.timers.delay, 0);
    assert_eq!(sys.timers.sound, 0);
    assert!(sys.display.pixels.iter().all(|&p| !p));
    assert!(!sys.display.dirty);
    assert_eq!(sys.stack_limit, None);
    assert!(sys.quirks.shift_copies_vy);
    assert!(!sys.quirks.jump_offset_uses_vx);
    assert!(sys.quirks.index_add_flags_overflow);
}

#[test]
fn initialize_writes_the_font_and_nothing_else() {
    let mut sys = Sys::new();
    sys.initialize();
    let base = FONT_BASE as usize;
    assert_eq!(&sys.memory.bytes[base..base + 80], &FONT[..]);
    assert!(sys.memory.bytes[..base].iter().all(|&b| b == 0));
    assert!(sys.memory.bytes[base + 80..].iter().all(|&b| b == 0));
    assert_eq!(sys.memory.bytes[0x50], 0xF0);
    assert_eq!(sys.memory.bytes[0x50 + 5 * 0xA + 4], 0x90);
}

#[test]
fn initialize_is_idempotent() {
    let mut once = Sys::new();
    once.initialize();
    let mut twice = once.clone();
    twice.initialize();
    assert_eq!(once, twice);
}

#[test]
fn load_program_copies_to_the_origin_and_resets_the_counter() {
    let mut sys = Sys::new();
    sys.initialize();
    sys.registers.pc = 0x345;
    assert_eq!(sys.load_program(&[0xA2, 0x2A, 0x60, 0x0C]), Ok(()));
    assert_eq!(sys.registers.pc, PROGRAM_START);
    assert_eq!(&sys.memory.bytes[0x200..0x204], &[0xA2, 0x2A, 0x60, 0x0C]);
    assert_eq!(sys.memory.bytes[0x204], 0);
    let base = FONT_BASE as usize;
    assert_eq!(&sys.memory.bytes[base..base + 80], &FONT[..]);
}

#[test]
fn load_program_accepts_a_program_that_fills_memory() {
    let mut sys = Sys::new();
    let program = vec![0xAB; RAM_SIZE - 0x200];
    assert_eq!(sys.load_program(&program), Ok(()));
    assert_eq!(sys.memory.bytes[0x200], 0xAB);
    assert_eq!(sys.memory.bytes[RAM_SIZE - 1], 0xAB);
    assert_eq!(sys.memory.bytes[0x1FF], 0);
}

#[test]
fn load_program_refuses_a_program_one_byte_too_long() {
    let mut sys = Sys::new();
    sys.initialize();
    let before = sys.clone();
    let program = vec![0xAB; RAM_SIZE - 0x200 + 1];
    assert_eq!(sys.load_program(&program), Err(LoadError::ProgramTooLarge));
    assert_eq!(sys, before);
}

#[test]
fn load_program_can_swap_in_another_program() {
    let mut sys = Sys::new();
    assert_eq!(sys.load_program(&[1, 2, 3, 4]), Ok(()));
    sys.registers.pc = 0x300;
    assert_eq!(sys.load_program(&[9, 8]), Ok(()));
    assert_eq!(&sys.memory.bytes[0x200..0x204], &[9, 8, 3, 4]);
    assert_eq!(sys.registers.pc, 0x200);
}

#[test]
fn empty_program_loads() {
    let mut sys = Sys::new();
    assert_eq!(sys.load_program(&[]), Ok(()));
    assert_eq!(sys.registers.pc, 0x200);
    assert!(sys.memory.bytes.iter().all(|&b| b == 0));
}

#[test]
fn fetch_combines_big_endian_and_advances_by_two() {
    let mut sys = Sys::new();
    assert_eq!(sys.load_program(&[0x12, 0x34, 0xAB, 0xCD]), Ok(()));
    assert_eq!(sys.fetch(), Ok(0x1234));
    assert_eq!(sys.registers.pc, 0x202);
    assert_eq!(sys.fetch(), Ok(0xABCD));
    assert_eq!(sys.registers.pc, 0x204);
}

#[test]
fn fetch_returns_whatever_bytes_are_there() {
    for &(hi, lo) in &[(0x00u8, 0x00u8), (0xFF, 0xFF), (0x00, 0xFF), (0xFF, 0x00), (0x80, 0x01)] {
        let mut sys = Sys::new();
        sys.memory.bytes[0x300] = hi;
        sys.memory.bytes[0x301] = lo;
        sys.registers.pc = 0x300;
        assert_eq!(sys.fetch(), Ok(((hi as u16) << 8) | lo as u16));
        assert_eq!(sys.registers.pc, 0x302);
    }
}

#[test]
fn fetch_reads_the_last_complete_word() {
    let mut sys = Sys::new();
    sys.memory.bytes[RAM_SIZE - 2] = 0xDE;
    sys.memory.bytes[RAM_SIZE - 1] = 0xAD;
    sys.registers.pc = (RAM_SIZE - 2) as u16;
    assert_eq!(sys.fetch(), Ok(0xDEAD));
    assert_eq!(sys.registers.pc, RAM_SIZE as u16);
}

#[test]
fn fetch_fails_within_one_byte_of_the_end() {
    let mut sys = Sys::new();
    sys.registers.pc = (RAM_SIZE - 1) as u16;
    let before = sys.clone();
    assert_eq!(sys.fetch(), Err(FetchError::OutOfBounds));
    assert_eq!(sys, before);
    sys.registers.pc = RAM_SIZE as u16;
    assert_eq!(sys.fetch(), Err(FetchError::OutOfBounds));
    sys.registers.pc = 0xFFFF;
    assert_eq!(sys.fetch(), Err(FetchError::OutOfBounds));
    assert_eq!(sys.registers.pc, 0xFFFF);
}

#[test]
fn combine_bytes_puts_the_first_byte_high() {
    assert_eq!(Sys::combine_bytes([0x12, 0x34]), 0x1234);
    assert_eq!(Sys::combine_bytes([0x00, 0xFF]), 0x00FF);
    assert_eq!(Sys::combine_bytes([0xFF, 0x00]), 0xFF00);
}

#[test]
fn memory_read_is_bounded() {
    let mut memory = Memory::new();
    memory.bytes[7] = 42;
    assert_eq!(memory.read(7), Some(42));
    assert_eq!(memory.read(RAM_SIZE - 1), Some(0));
    assert_eq!(memory.read(RAM_SIZE), None);
}

#[test]
fn load_into_ram_refuses_what_does_not_fit() {
    let mut memory = Memory::new();
    assert!(memory.load_into_ram(RAM_SIZE - 2, &[1, 2]));
    assert_eq!(memory.bytes[RAM_SIZE - 2], 1);
    assert_eq!(memory.bytes[RAM_SIZE - 1], 2);
    let before = memory.clone();
    assert!(!memory.load_into_ram(RAM_SIZE - 1, &[3, 4]));
    assert!(!memory.load_into_ram(usize::MAX, &[3]));
    assert_eq!(memory, before);
    assert!(memory.load_into_ram(RAM_SIZE, &[]));
}

#[test]
fn default_machine_is_a_new_machine() {
    assert_eq!(Sys::default(), Sys::new());
}

#[test]
fn new_machine_maps_the_keypad() {
    let sys = Sys::new();
    assert_eq!(sys.input.key_for(0x5), Some(chip8::keypad::HostKey::W));
    assert_eq!(sys.input.key_for(0x0), Some(chip8::keypad::HostKey::X));
    assert_eq!(sys.input.digit_for(chip8::keypad::HostKey::V), Some(0xF));
    assert_eq!(sys.input.key_for(0x10), None);
}
