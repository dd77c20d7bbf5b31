//! The interpreter: the machine's components under one owner, and the
//! operations that the host loop drives it with.

use vstd::prelude::*;
use vstd::slice::slice_subrange;
use crate::constants::{DISPLAY_PIXELS, FONT_BASE, GLYPH_SIZE, PROGRAM_START, RAM_SIZE};
use crate::display::{frame_of, translate, DisplayBuffer};
use crate::entropy::random_word;
use crate::error::{ExecError, FetchError, LoadError, StepError};
use crate::instruction::{decode, decode_spec, Instruction};
use crate::keypad::{is_keypad_layout, InputMapper, KeyPoll, Keys};
use crate::machine::{decimal_digits, word_of, wrap8, Machine};
use crate::memory::{overlay, Memory};
use crate::quirks::Quirks;
use crate::registers::RegisterFile;
use crate::timers::TimerPair;

verus! {

/// The virtual machine.
#[derive(Clone, Debug, PartialEq, Eq)]
pub struct Sys {
    pub memory: Memory,
    pub registers: RegisterFile,
    pub timers: TimerPair,
    pub display: DisplayBuffer,
    /// The keypad layout.
    pub input: InputMapper,
    /// The behaviour chosen for the ambiguous instructions.
    pub quirks: Quirks,
    /// The greatest call depth allowed; `None` sets no bound.
    pub stack_limit: Option<usize>,
}

impl View for Sys {
    type V = Machine;

    open spec fn view(&self) -> Machine {
        Machine {
            memory: self.memory@,
            v: self.registers.v@,
            index: self.registers.index,
            pc: self.registers.pc,
            stack: self.registers.stack@,
            delay: self.timers.delay,
            sound: self.timers.sound,
            pixels: self.display@,
            dirty: self.display.dirty,
            quirks: self.quirks,
            stack_limit: self.stack_limit,
        }
    }
}

impl Default for Sys {
    fn default() -> (sys: Sys)
        ensures
            sys@ == Machine::initial(Quirks::classic(), None),
    {
        Sys::new()
    }
}

/// What the presentation layer is to do with the window.
#[derive(Debug, PartialEq, Eq)]
pub enum DisplayAction {
    /// No program is loaded: let the window process its events.
    Refresh,
    /// The display changed: show this frame.
    Present { frame: [u32; DISPLAY_PIXELS] },
    /// The display is as it was last shown: nothing to transfer.
    Idle,
}

impl Sys {
    /// Whether `r` and `after` are the outcome that the model gives for a
    /// transition from `before`: on success the model's next state is the
    /// view of `after`, on failure the error is the model's and nothing has
    /// changed.
    pub open spec fn follows<E>(
        expected: Result<Machine, E>,
        r: Result<(), E>,
        before: Sys,
        after: Sys,
    ) -> bool {
        match r {
            Ok(()) => expected == Ok::<Machine, E>(after@),
            Err(e) => expected == Err::<Machine, E>(e) && after == before,
        }
    }

    /// A machine with the classic quirks and no bound on the call depth:
    /// memory and registers zero, display blank, stack empty, and the keypad
    /// mapped onto the host keys by the fixed layout.
    pub fn new() -> (sys: Sys)
        ensures
            sys@ == Machine::initial(Quirks::classic(), None),
            is_keypad_layout(sys.input@),
    {
        Sys::with_options(Quirks::default(), None)
    }

    /// A machine as `new` builds it, but with the given quirks and call
    /// depth bound.
    pub fn with_options(quirks: Quirks, stack_limit: Option<usize>) -> (sys: Sys)
        ensures
            sys@ == Machine::initial(quirks, stack_limit),
            is_keypad_layout(sys.input@),
    {
        Sys {
            memory: Memory::new(),
            registers: RegisterFile::new(),
            timers: TimerPair::new(),
            display: DisplayBuffer::new(),
            input: InputMapper::new(),
            quirks,
            stack_limit,
        }
    }

    /// One-time setup: writes the font glyphs into the font region. A second
    /// call changes nothing.
    pub fn initialize(&mut self)
        ensures
            final(self)@ == old(self)@.initialize(),
    {
        self.memory.install_font();
    }

    /// Takes the innermost return address off the call stack; `None` if the
    /// stack is empty.
    pub fn pop(&mut self) -> (addr: Option<u16>)
        ensures
            match addr {
                Some(a) => old(self)@.stack.len() > 0 && a == old(self)@.stack.last()
                    && final(self)@ == (Machine { stack: old(self)@.stack.drop_last(), ..old(self)@ }),
                None => old(self)@.stack.len() == 0 && final(self)@ == old(self)@,
            },
    {
        self.registers.pop()
    }

    /// Pushes `action` onto the call stack. Fails with `StackOverflow`, and
    /// pushes nothing, if the stack has reached the configured bound.
    pub fn push(&mut self, action: u16) -> (r: Result<(), ExecError>)
        ensures
            match r {
                Ok(()) => !old(self)@.stack_full() && final(self)@ == (Machine {
                    stack: old(self)@.stack.push(action),
                    ..old(self)@
                }),
                Err(e) => e == ExecError::StackOverflow && old(self)@.stack_full() && final(self)@
                    == old(self)@,
            },
    {
        self.registers.push(action, self.stack_limit)
    }

    /// Copies `program` into memory at the program origin and sets the
    /// program counter there. Fails with `ProgramTooLarge`, changing nothing,
    /// if `program` is longer than the region from the origin to the end of
    /// memory.
    pub fn load_program(&mut self, program: &[u8]) -> (r: Result<(), LoadError>)
        ensures
            Sys::follows(old(self)@.load_program(program@), r, *old(self), *final(self)),
    {
        if self.memory.load_into_ram(PROGRAM_START as usize, program) {
            self.registers.pc = PROGRAM_START;
            Ok(())
        } else {
            Err(LoadError::ProgramTooLarge)
        }
    }

    /// Combines two bytes big-endian into an instruction word.
    pub fn combine_bytes(data: [u8; 2]) -> (word: u16)
        ensures
            word == word_of(data@[0], data@[1]),
            word == (data@[0] as u16) << 8 | data@[1] as u16,
    {
        let hi: u8 = data[0];
        let lo: u8 = data[1];
        assert(((hi as u16) << 8 | lo as u16) == hi * 256 + lo) by (bit_vector);
        (hi as u16) << 8 | lo as u16
    }

    /// Reads the instruction word at the program counter and moves the
    /// program counter past it. Fails with `OutOfBounds`, changing nothing,
    /// if the program counter is within one byte of the end of memory.
    pub fn fetch(&mut self) -> (r: Result<u16, FetchError>)
        ensures
            match r {
                Ok(word) => old(self)@.fetch() == Ok::<(u16, Machine), FetchError>(
                    (word, final(self)@),
                ),
                Err(e) => old(self)@.fetch() == Err::<(u16, Machine), FetchError>(e) && *final(self)
                    == *old(self),
            },
    {
        let pc: usize = self.registers.pc as usize;
        if pc + 1 >= RAM_SIZE {
            return Err(FetchError::OutOfBounds);
        }
        let word = Sys::combine_bytes([self.memory.bytes[pc], self.memory.bytes[pc + 1]]);
        self.registers.pc += 2;
        Ok(word)
    }

    /// One tick of the 60 Hz clock: each timer above zero loses one.
    pub fn tick_timers(&mut self)
        ensures
            final(self)@ == old(self)@.tick_timers(),
    {
        self.timers.tick();
    }

    /// Whether the sound timer is running, which is when a beep is due.
    pub fn sound_active(&self) -> (active: bool)
        ensures
            active == (self@.sound > 0),
    {
        self.timers.sound_active()
    }

    /// Decides what the presentation layer does at a refresh. With no
    /// program loaded the window only processes its events. With one, a
    /// dirty display is handed out as a frame and marked clean, and a clean
    /// one is left alone.
    pub fn update_display(&mut self, rom_loaded: bool) -> (action: DisplayAction)
        ensures
            !rom_loaded ==> action == DisplayAction::Refresh && *final(self) == *old(self),
            rom_loaded && !old(self)@.dirty ==> action == DisplayAction::Idle && *final(self)
                == *old(self),
            rom_loaded && old(self)@.dirty ==> (action matches DisplayAction::Present { frame }
                && frame@ == frame_of(old(self)@.pixels)) && final(self)@ == (Machine {
                dirty: false,
                ..old(self)@
            }),
    {
        if !rom_loaded {
            DisplayAction::Refresh
        } else if self.display.dirty {
            let frame = self.display.to_frame();
            self.display.dirty = false;
            DisplayAction::Present { frame }
        } else {
            DisplayAction::Idle
        }
    }

    /// Translates a bitmap into a frame of `0RGB` colours: white for a lit
    /// pixel, black for a dark one. The machine is not touched.
    pub fn translate_buffer(&mut self, buffer: [bool; DISPLAY_PIXELS]) -> (screen: [u32;
        DISPLAY_PIXELS])
        ensures
            screen@ == frame_of(buffer@),
            *final(self) == *old(self),
    {
        translate(&buffer)
    }
}

// One method for each instruction that is more than an assignment, specified
// by the function of the same name in the model.
impl Sys {
    fn set_reg(&mut self, x: u8, value: u8)
        requires
            x < 16,
        ensures
            final(self)@ == old(self)@.with_reg(x, value),
    {
        self.registers.v[x as usize] = value;
    }

    fn set_flag(&mut self, flag: bool)
        ensures
            final(self)@ == old(self)@.with_flag(flag),
    {
        self.registers.v[0xF] = if flag {
            1
        } else {
            0
        };
    }

    fn skip_if(&mut self, taken: bool)
        ensures
            final(self)@ == old(self)@.skip_if(taken),
    {
        if taken {
            self.registers.pc = self.registers.pc.wrapping_add(2);
        }
    }

    fn subroutine_return(&mut self) -> (r: Result<(), ExecError>)
        ensures
            Sys::follows(old(self)@.subroutine_return(), r, *old(self), *final(self)),
    {
        match self.registers.pop() {
            Some(addr) => {
                self.registers.pc = addr;
                Ok(())
            },
            None => Err(ExecError::StackUnderflow),
        }
    }

    fn subroutine_call(&mut self, addr: u16) -> (r: Result<(), ExecError>)
        ensures
            Sys::follows(old(self)@.subroutine_call(addr), r, *old(self), *final(self)),
    {
        match self.registers.push(self.registers.pc, self.stack_limit) {
            Ok(()) => {
                self.registers.pc = addr;
                Ok(())
            },
            Err(e) => Err(e),
        }
    }

    fn add_immediate(&mut self, x: u8, value: u8)
        requires
            x < 16,
        ensures
            final(self)@ == old(self)@.with_reg(x, wrap8(old(self)@.reg(x) + value)),
    {
        let sum = self.registers.v[x as usize].wrapping_add(value);
        self.set_reg(x, sum);
    }

    fn add_with_carry(&mut self, x: u8, y: u8)
        requires
            x < 16,
            y < 16,
        ensures
            final(self)@ == old(self)@.add_with_carry(x, y),
    {
        let a: u8 = self.registers.v[x as usize];
        let b: u8 = self.registers.v[y as usize];
        self.set_reg(x, a.wrapping_add(b));
        self.set_flag(a as u16 + b as u16 > 255);
    }

    fn subtract_with_borrow(&mut self, x: u8, y: u8)
        requires
            x < 16,
            y < 16,
        ensures
            final(self)@ == old(self)@.subtract_with_borrow(x, y),
    {
        let a: u8 = self.registers.v[x as usize];
        let b: u8 = self.registers.v[y as usize];
        self.set_reg(x, a.wrapping_sub(b));
        self.set_flag(a >= b);
    }

    fn reverse_subtract(&mut self, x: u8, y: u8)
        requires
            x < 16,
            y < 16,
        ensures
            final(self)@ == old(self)@.reverse_subtract(x, y),
    {
        let a: u8 = self.registers.v[x as usize];
        let b: u8 = self.registers.v[y as usize];
        self.set_reg(x, b.wrapping_sub(a));
        self.set_flag(b >= a);
    }

    fn shift_source(&self, x: u8, y: u8) -> (source: u8)
        requires
            x < 16,
            y < 16,
        ensures
            source == self@.shift_source(x, y),
    {
        if self.quirks.shift_copies_vy {
            self.registers.v[y as usize]
        } else {
            self.registers.v[x as usize]
        }
    }

    fn shift_right(&mut self, x: u8, y: u8)
        requires
            x < 16,
            y < 16,
        ensures
            final(self)@ == old(self)@.shift_right(x, y),
    {
        let source: u8 = self.shift_source(x, y);
        assert(source >> 1 == source / 2 && ((source & 1) == 1) == (source % 2 == 1))
            by (bit_vector);
        self.set_reg(x, source >> 1);
        self.set_flag(source & 1 == 1);
    }

    fn shift_left(&mut self, x: u8, y: u8)
        requires
            x < 16,
            y < 16,
        ensures
            final(self)@ == old(self)@.shift_left(x, y),
    {
        let source: u8 = self.shift_source(x, y);
        assert((source << 1) == (source * 2) % 0x100 && ((source >> 7) == 1) == (source >= 128))
            by (bit_vector);
        self.set_reg(x, source << 1);
        self.set_flag(source >> 7 == 1);
    }

    fn jump_with_offset(&mut self, addr: u16)
        requires
            addr < 0x1000,
        ensures
            final(self)@ == old(self)@.jump_with_offset(addr),
    {
        let offset: u8 = if self.quirks.jump_offset_uses_vx {
            assert(addr >> 8 == addr / 0x100 % 0x10 && addr >> 8 < 16) by (bit_vector)
                requires
                    addr < 0x1000,
            ;
            self.registers.v[(addr >> 8) as usize]
        } else {
            self.registers.v[0]
        };
        self.registers.pc = addr + offset as u16;
    }

    fn random(&mut self, x: u8, mask: u8, entropy: u16)
        requires
            x < 16,
        ensures
            final(self)@ == old(self)@.random(x, mask, entropy),
    {
        assert(entropy & 0xFF == entropy % 0x100 && entropy & 0xFF < 0x100) by (bit_vector);
        self.set_reg(x, (entropy & 0xFF) as u8 & mask);
    }

    fn draw(&mut self, x: u8, y: u8, rows: u8) -> (r: Result<(), ExecError>)
        requires
            x < 16,
            y < 16,
        ensures
            Sys::follows(old(self)@.draw(x, y, rows), r, *old(self), *final(self)),
    {
        let start: usize = self.registers.index as usize;
        let end: usize = start + rows as usize;
        if end > RAM_SIZE {
            return Err(ExecError::AddressOutOfBounds);
        }
        let vx: u8 = self.registers.v[x as usize];
        let vy: u8 = self.registers.v[y as usize];
        let sprite = slice_subrange(self.memory.bytes.as_slice(), start, end);
        let collision = self.display.draw_sprite(sprite, vx, vy);
        self.set_flag(collision);
        Ok(())
    }

    fn skip_on_key(&mut self, x: u8, keys: &KeyPoll, when_down: bool) -> (r: Result<(), ExecError>)
        requires
            x < 16,
        ensures
            Sys::follows(old(self)@.skip_on_key(x, keys@, when_down), r, *old(self), *final(self)),
    {
        let value: u8 = self.registers.v[x as usize];
        match self.input.key_for(value) {
            Some(key) => {
                let down = keys.is_key_down(key);
                self.skip_if(down == when_down);
                Ok(())
            },
            None => Err(ExecError::InvalidKey { value }),
        }
    }

    fn wait_for_key(&mut self, x: u8, keys: &KeyPoll)
        requires
            x < 16,
        ensures
            final(self)@ == old(self)@.wait_for_key(x, keys@),
    {
        match self.input.first_pressed_digit(&keys.pressed) {
            Some(digit) => self.set_reg(x, digit),
            None => {
                self.registers.pc = self.registers.pc.wrapping_sub(2);
            },
        }
    }

    fn add_to_index(&mut self, x: u8)
        requires
            x < 16,
        ensures
            final(self)@ == old(self)@.add_to_index(x),
    {
        let value: u8 = self.registers.v[x as usize];
        if self.quirks.index_add_flags_overflow {
            let sum: u32 = self.registers.index as u32 + value as u32;
            if sum > 0xFFF {
                self.registers.index = (sum - 0xFFF) as u16;
                self.set_flag(true);
            } else {
                self.registers.index = sum as u16;
                self.set_flag(false);
            }
        } else {
            self.registers.index = self.registers.index.wrapping_add(value as u16);
        }
    }

    fn font_address(&mut self, x: u8)
        requires
            x < 16,
        ensures
            final(self)@ == old(self)@.font_address(x),
    {
        let digit: u8 = self.registers.v[x as usize];
        self.registers.index = FONT_BASE + GLYPH_SIZE * digit as u16;
    }

    fn store_decimal(&mut self, x: u8) -> (r: Result<(), ExecError>)
        requires
            x < 16,
        ensures
            Sys::follows(old(self)@.store_decimal(x), r, *old(self), *final(self)),
    {
        let value: u8 = self.registers.v[x as usize];
        let digits: [u8; 3] = [value / 100, value / 10 % 10, value % 10];
        assert(digits@ =~= decimal_digits(value));
        if self.memory.load_into_ram(self.registers.index as usize, digits.as_slice()) {
            Ok(())
        } else {
            Err(ExecError::AddressOutOfBounds)
        }
    }

    fn store_registers(&mut self, x: u8) -> (r: Result<(), ExecError>)
        requires
            x < 16,
        ensures
            Sys::follows(old(self)@.store_registers(x), r, *old(self), *final(self)),
    {
        let count: usize = x as usize + 1;
        let registers = slice_subrange(self.registers.v.as_slice(), 0, count);
        assert(registers@ =~= self.registers.v@.take(count as int));
        if self.memory.load_into_ram(self.registers.index as usize, registers) {
            Ok(())
        } else {
            Err(ExecError::AddressOutOfBounds)
        }
    }

    fn load_registers(&mut self, x: u8) -> (r: Result<(), ExecError>)
        requires
            x < 16,
        ensures
            Sys::follows(old(self)@.load_registers(x), r, *old(self), *final(self)),
    {
        let start: usize = self.registers.index as usize;
        let count: usize = x as usize + 1;
        if start + count > RAM_SIZE {
            return Err(ExecError::AddressOutOfBounds);
        }
        let mut i: usize = 0;
        while i < count
            invariant
                i <= count <= 16,
                start == old(self).registers.index,
                start + count <= RAM_SIZE,
                self.registers.v@ == overlay(
                    old(self).registers.v@,
                    0,
                    self.memory@.subrange(start as int, start + i),
                ),
                self.memory == old(self).memory,
                self.registers.index == old(self).registers.index,
                self.registers.pc == old(self).registers.pc,
                self.registers.stack == old(self).registers.stack,
                self.timers == old(self).timers,
                self.display == old(self).display,
                self.input == old(self).input,
                self.quirks == old(self).quirks,
                self.stack_limit == old(self).stack_limit,
            decreases count - i,
        {
            self.registers.v[i] = self.memory.bytes[start + i];
            i += 1;
        }
        Ok(())
    }

    /// Executes one decoded instruction as a single state transition. `keys`
    /// is what the keyboard reports now, and `entropy` the random number at
    /// this instruction's disposal, which only `Random` uses. On an error
    /// nothing has changed.
    pub fn execute(&mut self, instruction: Instruction, keys: &KeyPoll, entropy: u16) -> (r: Result<
        (),
        ExecError,
    >)
        requires
            instruction.wf(),
        ensures
            Sys::follows(
                old(self)@.step(instruction, keys@, entropy),
                r,
                *old(self),
                *final(self),
            ),
    {
        match instruction {
            Instruction::ClearScreen => {
                self.display.clear();
                Ok(())
            },
            Instruction::Return => self.subroutine_return(),
            Instruction::Jump { addr } => {
                self.registers.pc = addr;
                Ok(())
            },
            Instruction::Call { addr } => self.subroutine_call(addr),
            Instruction::SkipIfEqual { x, value } => {
                self.skip_if(self.registers.v[x as usize] == value);
                Ok(())
            },
            Instruction::SkipIfNotEqual { x, value } => {
                self.skip_if(self.registers.v[x as usize] != value);
                Ok(())
            },
            Instruction::SkipIfRegistersEqual { x, y } => {
                self.skip_if(self.registers.v[x as usize] == self.registers.v[y as usize]);
                Ok(())
            },
            Instruction::Load { x, value } => {
                self.set_reg(x, value);
                Ok(())
            },
            Instruction::AddImmediate { x, value } => {
                self.add_immediate(x, value);
                Ok(())
            },
            Instruction::Copy { x, y } => {
                self.set_reg(x, self.registers.v[y as usize]);
                Ok(())
            },
            Instruction::Or { x, y } => {
                self.set_reg(x, self.registers.v[x as usize] | self.registers.v[y as usize]);
                Ok(())
            },
            Instruction::And { x, y } => {
                self.set_reg(x, self.registers.v[x as usize] & self.registers.v[y as usize]);
                Ok(())
            },
            Instruction::Xor { x, y } => {
                self.set_reg(x, self.registers.v[x as usize] ^ self.registers.v[y as usize]);
                Ok(())
            },
            Instruction::AddWithCarry { x, y } => {
                self.add_with_carry(x, y);
                Ok(())
            },
            Instruction::SubtractWithBorrow { x, y } => {
                self.subtract_with_borrow(x, y);
                Ok(())
            },
            Instruction::ShiftRight { x, y } => {
                self.shift_right(x, y);
                Ok(())
            },
            Instruction::ReverseSubtract { x, y } => {
                self.reverse_subtract(x, y);
                Ok(())
            },
            Instruction::ShiftLeft { x, y } => {
                self.shift_left(x, y);
                Ok(())
            },
            Instruction::SkipIfRegistersNotEqual { x, y } => {
                self.skip_if(self.registers.v[x as usize] != self.registers.v[y as usize]);
                Ok(())
            },
            Instruction::LoadIndex { addr } => {
                self.registers.index = addr;
                Ok(())
            },
            Instruction::JumpWithOffset { addr } => {
                self.jump_with_offset(addr);
                Ok(())
            },
            Instruction::Random { x, mask } => {
                self.random(x, mask, entropy);
                Ok(())
            },
            Instruction::Draw { x, y, rows } => self.draw(x, y, rows),
            Instruction::SkipIfKeyDown { x } => self.skip_on_key(x, keys, true),
            Instruction::SkipIfKeyUp { x } => self.skip_on_key(x, keys, false),
            Instruction::ReadDelay { x } => {
                self.set_reg(x, self.timers.delay);
                Ok(())
            },
            Instruction::WaitForKey { x } => {
                self.wait_for_key(x, keys);
                Ok(())
            },
            Instruction::SetDelay { x } => {
                self.timers.delay = self.registers.v[x as usize];
                Ok(())
            },
            Instruction::SetSound { x } => {
                self.timers.sound = self.registers.v[x as usize];
                Ok(())
            },
            Instruction::AddToIndex { x } => {
                self.add_to_index(x);
                Ok(())
            },
            Instruction::FontAddress { x } => {
                self.font_address(x);
                Ok(())
            },
            Instruction::StoreDecimal { x } => self.store_decimal(x),
            Instruction::StoreRegisters { x } => self.store_registers(x),
            Instruction::LoadRegisters { x } => self.load_registers(x),
        }
    }

    /// Whether `r` and `after` are the outcome of decoding and executing
    /// `word` from `before`, with `entropy` as the random number drawn.
    pub open spec fn executed(
        before: Sys,
        word: u16,
        keys: Keys,
        entropy: u16,
        r: Result<(), StepError>,
        after: Sys,
    ) -> bool {
        Sys::follows(before@.decode_execute(word, keys, entropy), r, before, after)
    }

    /// Decodes the instruction word `instruction` and executes it as a single
    /// state transition, with `keys` as what the keyboard reports now. A word
    /// outside the opcode table gives `UnknownOpcode`; on any error nothing
    /// has changed. For `Random` a random number is drawn and the outcome is
    /// the model's for that number; every other instruction has the one
    /// outcome that the model gives it.
    pub fn decode_execute(&mut self, instruction: u16, keys: &KeyPoll) -> (r: Result<(), StepError>)
        ensures
            exists|entropy: u16|
                Sys::executed(*old(self), instruction, keys@, entropy, r, *final(self)),
            !(decode_spec(instruction) matches Ok(Instruction::Random { .. })) ==> forall|
                entropy: u16,
            |
                Sys::executed(*old(self), instruction, keys@, entropy, r, *final(self)),
    {
        match decode(instruction) {
            Err(e) => {
                let r = Err(StepError::Decode(e));
                assert(Sys::executed(*old(self), instruction, keys@, 0, r, *self));
                r
            },
            Ok(decoded) => {
                let entropy: u16 = match decoded {
                    Instruction::Random { .. } => random_word(),
                    _ => 0,
                };
                let r = match self.execute(decoded, keys, entropy) {
                    Ok(()) => Ok(()),
                    Err(e) => Err(StepError::Exec(e)),
                };
                assert(Sys::executed(*old(self), instruction, keys@, entropy, r, *self));
                r
            },
        }
    }
}

} // verus!
