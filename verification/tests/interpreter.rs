use chip8::error::{DecodeError, ExecError, StepError};
use chip8::instruction::Instruction;
use chip8::keypad::{HostKey, KeyPoll};
use chip8::quirks::Quirks;
use chip8::Sys;

fn idle() -> KeyPoll {
    KeyPoll::idle()
}

#[test]
fn unknown_opcode_is_reported_and_changes_nothing() {
    let mut sys = Sys::new();
    sys.initialize();
    sys.registers.pc = 0x202;
    let before = sys.clone();
    assert_eq!(
        sys.decode_execute(0xFFFF, &idle()),
        Err(StepError::Decode(DecodeError::UnknownOpcode { word: 0xFFFF, failing_field: 0xFF }))
    );
    assert_eq!(sys, before);
}

#[test]
fn load_then_jump_reaches_every_target() {
    for target in [0x000u16, 0x200, 0x234, 0x7FF, 0xFFE, 0xFFF] {
        let mut sys = Sys::new();
        let program = [0x10 | (target >> 8) as u8, (target & 0xFF) as u8];
        assert_eq!(sys.load_program(&program), Ok(()));
        let word = sys.fetch().unwrap();
        assert_eq!(sys.decode_execute(word, &idle()), Ok(()));
        assert_eq!(sys.registers.pc, target);
    }
}

#[test]
fn call_then_return_comes_back_after_the_call() {
    let mut sys = Sys::new();
    assert_eq!(sys.load_program(&[0x23, 0x00]), Ok(()));
    let word = sys.fetch().unwrap();
    assert_eq!(sys.decode_execute(word, &idle()), Ok(()));
    assert_eq!(sys.registers.pc, 0x300);
    assert_eq!(sys.registers.stack, vec![0x202]);
    assert_eq!(sys.decode_execute(0x00EE, &idle()), Ok(()));
    assert_eq!(sys.registers.pc, 0x202);
    assert!(sys.registers.stack.is_empty());
}

#[test]
fn nested_calls_return_innermost_first() {
    let mut sys = Sys::new();
    sys.registers.pc = 0x202;
    assert_eq!(sys.decode_execute(0x2300, &idle()), Ok(()));
    sys.registers.pc = 0x302;
    assert_eq!(sys.decode_execute(0x2400, &idle()), Ok(()));
    assert_eq!(sys.registers.stack, vec![0x202, 0x302]);
    assert_eq!(sys.decode_execute(0x00EE, &idle()), Ok(()));
    assert_eq!(sys.registers.pc, 0x302);
    assert_eq!(sys.decode_execute(0x00EE, &idle()), Ok(()));
    assert_eq!(sys.registers.pc, 0x202);
}

#[test]
fn return_with_an_empty_stack_is_an_underflow() {
    let mut sys = Sys::new();
    sys.registers.pc = 0x222;
    let before = sys.clone();
    assert_eq!(
        sys.decode_execute(0x00EE, &idle()),
        Err(StepError::Exec(ExecError::StackUnderflow))
    );
    assert_eq!(sys, before);
    assert_eq!(
        sys.execute(Instruction::Return, &idle(), 0),
        Err(ExecError::StackUnderflow)
    );
}

#[test]
fn call_beyond_the_configured_depth_is_an_overflow() {
    let mut sys = Sys::with_options(Quirks::default(), Some(2));
    assert_eq!(sys.decode_execute(0x2300, &idle()), Ok(()));
    assert_eq!(sys.decode_execute(0x2400, &idle()), Ok(()));
    let before = sys.clone();
    assert_eq!(
        sys.decode_execute(0x2500, &idle()),
        Err(StepError::Exec(ExecError::StackOverflow))
    );
    assert_eq!(sys, before);
    assert_eq!(sys.decode_execute(0x00EE, &idle()), Ok(()));
    assert_eq!(sys.decode_execute(0x2500, &idle()), Ok(()));
    assert_eq!(sys.registers.pc, 0x500);
}

#[test]
fn call_depth_is_unbounded_by_default() {
    let mut sys = Sys::new();
    for _ in 0..1000 {
        assert_eq!(sys.decode_execute(0x2300, &idle()), Ok(()));
    }
    assert_eq!(sys.registers.stack.len(), 1000);
}

#[test]
fn zero_depth_bound_refuses_every_call() {
    let mut sys = Sys::with_options(Quirks::default(), Some(0));
    assert_eq!(sys.push(0x200), Err(ExecError::StackOverflow));
    assert_eq!(
        sys.execute(Instruction::Call { addr: 0x300 }, &idle(), 0),
        Err(ExecError::StackOverflow)
    );
}

#[test]
fn push_and_pop_work_the_stack() {
    let mut sys = Sys::new();
    assert_eq!(sys.pop(), None);
    assert_eq!(sys.push(0x123), Ok(()));
    assert_eq!(sys.push(0x456), Ok(()));
    assert_eq!(sys.pop(), Some(0x456));
    assert_eq!(sys.pop(), Some(0x123));
    assert_eq!(sys.pop(), None);
}

#[test]
fn pushed_address_is_where_return_goes() {
    let mut sys = Sys::new();
    assert_eq!(sys.push(0xBEEF), Ok(()));
    assert_eq!(sys.decode_execute(0x00EE, &idle()), Ok(()));
    assert_eq!(sys.registers.pc, 0xBEEF);
}

#[test]
fn skip_if_equal_to_immediate() {
    let mut sys = Sys::new();
    sys.registers.pc = 0x202;
    sys.registers.v[1] = 0x42;
    assert_eq!(sys.decode_execute(0x3142, &idle()), Ok(()));
    assert_eq!(sys.registers.pc, 0x204);
    assert_eq!(sys.decode_execute(0x3143, &idle()), Ok(()));
    assert_eq!(sys.registers.pc, 0x204);
}

#[test]
fn skip_if_not_equal_to_immediate() {
    let mut sys = Sys::new();
    sys.registers.pc = 0x202;
    sys.registers.v[1] = 0x42;
    assert_eq!(sys.decode_execute(0x4142, &idle()), Ok(()));
    assert_eq!(sys.registers.pc, 0x202);
    assert_eq!(sys.decode_execute(0x4143, &idle()), Ok(()));
    assert_eq!(sys.registers.pc, 0x204);
}

#[test]
fn skip_on_register_comparison() {
    let mut sys = Sys::new();
    sys.registers.pc = 0x202;
    sys.registers.v[1] = 7;
    sys.registers.v[2] = 7;
    sys.registers.v[3] = 8;
    assert_eq!(sys.decode_execute(0x5120, &idle()), Ok(()));
    assert_eq!(sys.registers.pc, 0x204);
    assert_eq!(sys.decode_execute(0x5130, &idle()), Ok(()));
    assert_eq!(sys.registers.pc, 0x204);
    assert_eq!(sys.decode_execute(0x9120, &idle()), Ok(()));
    assert_eq!(sys.registers.pc, 0x204);
    assert_eq!(sys.decode_execute(0x9130, &idle()), Ok(()));
    assert_eq!(sys.registers.pc, 0x206);
}

#[test]
fn skip_wraps_the_sixteen_bit_program_counter() {
    let mut sys = Sys::new();
    sys.registers.pc = 0xFFFF;
    assert_eq!(sys.decode_execute(0x3000, &idle()), Ok(()));
    assert_eq!(sys.registers.pc, 0x0001);
}

#[test]
fn jump_with_offset_adds_v0() {
    let mut sys = Sys::new();
    sys.registers.v[0] = 0x10;
    sys.registers.v[3] = 0x05;
    assert_eq!(sys.decode_execute(0xB300, &idle()), Ok(()));
    assert_eq!(sys.registers.pc, 0x310);
    sys.registers.v[0] = 0xFF;
    assert_eq!(sys.decode_execute(0xBFFF, &idle()), Ok(()));
    assert_eq!(sys.registers.pc, 0x10FE);
}

#[test]
fn jump_with_offset_adds_vx_when_the_quirk_is_on() {
    let quirks = Quirks { jump_offset_uses_vx: true, ..Quirks::default() };
    let mut sys = Sys::with_options(quirks, None);
    sys.registers.v[0] = 0x10;
    sys.registers.v[3] = 0x05;
    assert_eq!(sys.decode_execute(0xB300, &idle()), Ok(()));
    assert_eq!(sys.registers.pc, 0x305);
}

#[test]
fn load_index_sets_the_index_register() {
    let mut sys = Sys::new();
    assert_eq!(sys.decode_execute(0xA123, &idle()), Ok(()));
    assert_eq!(sys.registers.index, 0x123);
}

#[test]
fn skip_if_key_down_consults_the_layout() {
    let keys = KeyPoll { down: vec![HostKey::W], pressed: vec![] };
    let mut sys = Sys::new();
    sys.registers.pc = 0x202;
    sys.registers.v[1] = 0x5;
    assert_eq!(sys.decode_execute(0xE19E, &keys), Ok(()));
    assert_eq!(sys.registers.pc, 0x204);
    sys.registers.v[1] = 0x6;
    assert_eq!(sys.decode_execute(0xE19E, &keys), Ok(()));
    assert_eq!(sys.registers.pc, 0x204);
}

#[test]
fn skip_if_key_up_consults_the_layout() {
    let keys = KeyPoll { down: vec![HostKey::W], pressed: vec![] };
    let mut sys = Sys::new();
    sys.registers.pc = 0x202;
    sys.registers.v[1] = 0x5;
    assert_eq!(sys.decode_execute(0xE1A1, &keys), Ok(()));
    assert_eq!(sys.registers.pc, 0x202);
    sys.registers.v[1] = 0x6;
    assert_eq!(sys.decode_execute(0xE1A1, &keys), Ok(()));
    assert_eq!(sys.registers.pc, 0x204);
}

#[test]
fn key_skip_ignores_keys_that_were_only_pressed() {
    let keys = KeyPoll { down: vec![], pressed: vec![HostKey::W] };
    let mut sys = Sys::new();
    sys.registers.pc = 0x202;
    sys.registers.v[1] = 0x5;
    assert_eq!(sys.decode_execute(0xE19E, &keys), Ok(()));
    assert_eq!(sys.registers.pc, 0x202);
}

#[test]
fn key_skip_on_a_value_that_is_no_digit_is_an_error() {
    let mut sys = Sys::new();
    sys.registers.v[1] = 0x10;
    let before = sys.clone();
    assert_eq!(
        sys.decode_execute(0xE19E, &idle()),
        Err(StepError::Exec(ExecError::InvalidKey { value: 0x10 }))
    );
    assert_eq!(
        sys.decode_execute(0xE1A1, &idle()),
        Err(StepError::Exec(ExecError::InvalidKey { value: 0x10 }))
    );
    assert_eq!(sys, before);
}

#[test]
fn wait_for_key_rewinds_while_nothing_is_pressed() {
    let mut sys = Sys::new();
    assert_eq!(sys.load_program(&[0xF3, 0x0A]), Ok(()));
    for _ in 0..3 {
        let word = sys.fetch().unwrap();
        assert_eq!(word, 0xF30A);
        assert_eq!(sys.registers.pc, 0x202);
        assert_eq!(sys.decode_execute(word, &idle()), Ok(()));
        assert_eq!(sys.registers.pc, 0x200);
        assert_eq!(sys.registers.v[3], 0);
    }
}

#[test]
fn wait_for_key_rewinds_while_only_other_keys_are_pressed() {
    let keys = KeyPoll { down: vec![HostKey::Other], pressed: vec![HostKey::Other] };
    let mut sys = Sys::new();
    sys.registers.pc = 0x202;
    assert_eq!(sys.decode_execute(0xF30A, &keys), Ok(()));
    assert_eq!(sys.registers.pc, 0x200);
}

#[test]
fn wait_for_key_stores_the_digit_and_goes_on() {
    let keys = KeyPoll { down: vec![], pressed: vec![HostKey::Other, HostKey::R, HostKey::Q] };
    let mut sys = Sys::new();
    sys.registers.pc = 0x202;
    assert_eq!(sys.decode_execute(0xF30A, &keys), Ok(()));
    assert_eq!(sys.registers.pc, 0x202);
    assert_eq!(sys.registers.v[3], 0xD);
}

#[test]
fn wait_for_key_keeps_timers_running() {
    let mut sys = Sys::new();
    sys.timers.delay = 2;
    sys.registers.pc = 0x202;
    assert_eq!(sys.decode_execute(0xF30A, &idle()), Ok(()));
    sys.tick_timers();
    assert_eq!(sys.timers.delay, 1);
}

#[test]
fn memory_instructions_past_the_end_are_errors() {
    let mut sys = Sys::new();
    sys.registers.index = 0xFFE;
    let before = sys.clone();
    assert_eq!(
        sys.execute(Instruction::StoreDecimal { x: 0 }, &idle(), 0),
        Err(ExecError::AddressOutOfBounds)
    );
    assert_eq!(
        sys.execute(Instruction::StoreRegisters { x: 2 }, &idle(), 0),
        Err(ExecError::AddressOutOfBounds)
    );
    assert_eq!(
        sys.execute(Instruction::LoadRegisters { x: 2 }, &idle(), 0),
        Err(ExecError::AddressOutOfBounds)
    );
    assert_eq!(
        sys.execute(Instruction::Draw { x: 0, y: 0, rows: 3 }, &idle(), 0),
        Err(ExecError::AddressOutOfBounds)
    );
    assert_eq!(sys, before);
}

#[test]
fn memory_instructions_reach_the_last_byte() {
    let mut sys = Sys::new();
    sys.registers.v[0] = 123;
    sys.registers.index = 0xFFD;
    assert_eq!(sys.execute(Instruction::StoreDecimal { x: 0 }, &idle(), 0), Ok(()));
    assert_eq!(&sys.memory.bytes[0xFFD..0x1000], &[1, 2, 3]);
    sys.registers.index = 0xFFE;
    assert_eq!(sys.execute(Instruction::LoadRegisters { x: 1 }, &idle(), 0), Ok(()));
    assert_eq!(&sys.registers.v[0..2], &[2, 3]);
    assert_eq!(sys.execute(Instruction::StoreRegisters { x: 1 }, &idle(), 0), Ok(()));
    assert_eq!(sys.execute(Instruction::Draw { x: 0, y: 0, rows: 2 }, &idle(), 0), Ok(()));
}

#[test]
fn a_short_program_runs_from_load_to_result() {
    let mut sys = Sys::new();
    sys.initialize();
    let program = [
        0x60, 0xC8, // V0 = 200
        0x61, 0x64, // V1 = 100
        0x80, 0x14, // V0 += V1, VF = carry
        0x3F, 0x01, // skip if VF == 1
        0x12, 0x00, // (skipped) jump to start
        0xA3, 0x00, // I = 0x300
        0xF0, 0x33, // BCD of V0 at I
    ];
    assert_eq!(sys.load_program(&program), Ok(()));
    for _ in 0..6 {
        let word = sys.fetch().unwrap();
        assert_eq!(sys.decode_execute(word, &idle()), Ok(()));
    }
    assert_eq!(sys.registers.v[0], 44);
    assert_eq!(sys.registers.v[0xF], 1);
    assert_eq!(sys.registers.pc, 0x20E);
    assert_eq!(&sys.memory.bytes[0x300..0x303], &[0, 4, 4]);
}
