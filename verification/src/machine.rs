//! The mathematical model of the machine: its state as sequences and
//! numbers, and each operation as a function from state to state.
//!
//! The executable interpreter is specified against this model: whatever it
//! does to its arrays and vectors, the view of the result is the model's
//! result on the view of what it started from.

use vstd::prelude::*;
use crate::constants::{
    DISPLAY_HEIGHT, DISPLAY_PIXELS, DISPLAY_WIDTH, FONT_BASE, GLYPH_SIZE, PROGRAM_START, RAM_SIZE,
};
use crate::display::{blank, blit, collides};
use crate::error::{ExecError, FetchError, LoadError, StepError};
use crate::instruction::{decode_spec, Instruction};
use crate::keypad::{first_digit, key_of_digit, Keys};
use crate::memory::{overlay, with_font};
use crate::quirks::Quirks;
use crate::timers::ticked;

verus! {

/// The state of the machine.
#[verifier::ext_equal]
pub struct Machine {
    /// The 4096 bytes of memory.
    pub memory: Seq<u8>,
    /// The registers V0 to VF.
    pub v: Seq<u8>,
    /// The index register.
    pub index: u16,
    /// The program counter.
    pub pc: u16,
    /// The return addresses of the subroutines being run, the innermost last.
    pub stack: Seq<u16>,
    /// The delay timer.
    pub delay: u8,
    /// The sound timer.
    pub sound: u8,
    /// The display bitmap, row by row.
    pub pixels: Seq<bool>,
    /// Whether the display changed since it was last presented.
    pub dirty: bool,
    /// The behaviour chosen for the ambiguous instructions.
    pub quirks: Quirks,
    /// The greatest call depth allowed, if any is set.
    pub stack_limit: Option<usize>,
}

/// The instruction word made of the bytes `hi` and `lo`, big-endian.
pub open spec fn word_of(hi: u8, lo: u8) -> u16 {
    (hi * 256 + lo) as u16
}

/// `n` reduced to a byte, modulo 256.
pub open spec fn wrap8(n: int) -> u8 {
    (n % 0x100) as u8
}

/// `n` reduced to sixteen bits, modulo 65536.
pub open spec fn wrap16(n: int) -> u16 {
    (n % 0x1_0000) as u16
}

/// The flag byte that stands for `flag`.
pub open spec fn flag_byte(flag: bool) -> u8 {
    if flag {
        1
    } else {
        0
    }
}

/// The hundreds, tens and ones of `value`.
pub open spec fn decimal_digits(value: u8) -> Seq<u8> {
    seq![value / 100, value / 10 % 10, value % 10]
}

impl Machine {
    /// The sequences have the sizes of the machine's memory, register file
    /// and display.
    pub open spec fn wf(self) -> bool {
        &&& self.memory.len() == RAM_SIZE
        &&& self.v.len() == 16
        &&& self.pixels.len() == DISPLAY_PIXELS
    }

    /// The value of register VX.
    pub open spec fn reg(self, x: u8) -> u8 {
        self.v[x as int]
    }

    /// The state with `value` in register VX.
    pub open spec fn with_reg(self, x: u8, value: u8) -> Machine {
        Machine { v: self.v.update(x as int, value), ..self }
    }

    /// The state with the flag register VF set to 1 for `flag`, to 0
    /// otherwise.
    pub open spec fn with_flag(self, flag: bool) -> Machine {
        self.with_reg(0xF, flag_byte(flag))
    }

    /// The state with the program counter moved past one more instruction if
    /// `taken`.
    pub open spec fn skip_if(self, taken: bool) -> Machine {
        if taken {
            Machine { pc: wrap16(self.pc + 2), ..self }
        } else {
            self
        }
    }

    /// Whether the call stack has reached the configured bound.
    pub open spec fn stack_full(self) -> bool {
        self.stack_limit matches Some(limit) && self.stack.len() >= limit
    }

    /// Whether `count` bytes from the index register on lie within memory.
    pub open spec fn index_in_bounds(self, count: int) -> bool {
        self.index + count <= RAM_SIZE
    }

    /// The `count` bytes of memory from the index register on.
    pub open spec fn at_index(self, count: int) -> Seq<u8> {
        self.memory.subrange(self.index as int, self.index + count)
    }

    /// The machine as it is built: everything zero, blank and empty.
    pub open spec fn initial(quirks: Quirks, stack_limit: Option<usize>) -> Machine {
        Machine {
            memory: Seq::new(RAM_SIZE as nat, |a: int| 0u8),
            v: Seq::new(16, |i: int| 0u8),
            index: 0,
            pc: 0,
            stack: Seq::empty(),
            delay: 0,
            sound: 0,
            pixels: blank(),
            dirty: false,
            quirks,
            stack_limit,
        }
    }

    /// One-time setup: the font glyphs are written into the font region.
    pub open spec fn initialize(self) -> Machine {
        Machine { memory: with_font(self.memory), ..self }
    }

    /// Loading `program`: its bytes are copied to the program origin and the
    /// program counter is set there. A program that does not fit between the
    /// origin and the end of memory is refused.
    pub open spec fn load_program(self, program: Seq<u8>) -> Result<Machine, LoadError> {
        if program.len() > RAM_SIZE - PROGRAM_START {
            Err(LoadError::ProgramTooLarge)
        } else {
            Ok(
                Machine {
                    memory: overlay(self.memory, PROGRAM_START as int, program),
                    pc: PROGRAM_START,
                    ..self
                },
            )
        }
    }

    /// Fetching: the word made of the two bytes at the program counter, and
    /// the state with the program counter two further. Fails where fewer than
    /// two bytes are left.
    pub open spec fn fetch(self) -> Result<(u16, Machine), FetchError> {
        if self.pc + 1 >= RAM_SIZE {
            Err(FetchError::OutOfBounds)
        } else {
            Ok(
                (
                    word_of(self.memory[self.pc as int], self.memory[self.pc + 1]),
                    Machine { pc: (self.pc + 2) as u16, ..self },
                ),
            )
        }
    }

    /// One tick of the 60 Hz clock.
    pub open spec fn tick_timers(self) -> Machine {
        Machine { delay: ticked(self.delay), sound: ticked(self.sound), ..self }
    }

    /// `00E0`.
    pub open spec fn clear_screen(self) -> Machine {
        Machine { pixels: blank(), dirty: true, ..self }
    }

    /// `00EE`: the innermost return address goes to the program counter.
    pub open spec fn subroutine_return(self) -> Result<Machine, ExecError> {
        if self.stack.len() == 0 {
            Err(ExecError::StackUnderflow)
        } else {
            Ok(Machine { pc: self.stack.last(), stack: self.stack.drop_last(), ..self })
        }
    }

    /// `2nnn`: the program counter is saved and set to `addr`.
    pub open spec fn subroutine_call(self, addr: u16) -> Result<Machine, ExecError> {
        if self.stack_full() {
            Err(ExecError::StackOverflow)
        } else {
            Ok(Machine { pc: addr, stack: self.stack.push(self.pc), ..self })
        }
    }

    /// `8xy4`: VX becomes the sum modulo 256, then VF the carry.
    pub open spec fn add_with_carry(self, x: u8, y: u8) -> Machine {
        let sum = self.reg(x) + self.reg(y);
        self.with_reg(x, wrap8(sum)).with_flag(sum > 255)
    }

    /// `8xy5`: VX becomes VX - VY modulo 256, then VF is 1 unless VY was the
    /// larger.
    pub open spec fn subtract_with_borrow(self, x: u8, y: u8) -> Machine {
        let (a, b) = (self.reg(x), self.reg(y));
        self.with_reg(x, wrap8(a - b)).with_flag(a >= b)
    }

    /// `8xy7`: VX becomes VY - VX modulo 256, then VF is 1 unless VX was the
    /// larger.
    pub open spec fn reverse_subtract(self, x: u8, y: u8) -> Machine {
        let (a, b) = (self.reg(x), self.reg(y));
        self.with_reg(x, wrap8(b - a)).with_flag(b >= a)
    }

    /// The register that a shift reads: VY, or VX where shifts work in place.
    pub open spec fn shift_source(self, x: u8, y: u8) -> u8 {
        if self.quirks.shift_copies_vy {
            self.reg(y)
        } else {
            self.reg(x)
        }
    }

    /// `8xy6`: VX becomes the source halved, then VF its lowest bit.
    pub open spec fn shift_right(self, x: u8, y: u8) -> Machine {
        let source = self.shift_source(x, y);
        self.with_reg(x, source / 2).with_flag(source % 2 == 1)
    }

    /// `8xyE`: VX becomes the source doubled modulo 256, then VF its highest
    /// bit.
    pub open spec fn shift_left(self, x: u8, y: u8) -> Machine {
        let source = self.shift_source(x, y);
        self.with_reg(x, wrap8(source * 2)).with_flag(source >= 128)
    }

    /// `Bnnn`: jump to `addr` plus V0, or plus VX with `x` the top nibble of
    /// `addr` where that variant is chosen.
    pub open spec fn jump_with_offset(self, addr: u16) -> Machine {
        let offset = if self.quirks.jump_offset_uses_vx {
            self.reg((addr / 0x100 % 0x10) as u8)
        } else {
            self.reg(0)
        };
        Machine { pc: wrap16(addr + offset), ..self }
    }

    /// `Cxnn`: VX becomes the low byte of `entropy`, masked.
    pub open spec fn random(self, x: u8, mask: u8, entropy: u16) -> Machine {
        self.with_reg(x, wrap8(entropy as int) & mask)
    }

    /// `Dxyn`: the `rows` bytes at the index register are XOR-ed onto the
    /// display at (VX mod 64, VY mod 32), VF becomes the collision flag and
    /// the display is dirty. Fails where the sprite runs past the end of
    /// memory.
    pub open spec fn draw(self, x: u8, y: u8, rows: u8) -> Result<Machine, ExecError> {
        if !self.index_in_bounds(rows as int) {
            Err(ExecError::AddressOutOfBounds)
        } else {
            let sprite = self.at_index(rows as int);
            let x0 = self.reg(x) as int % (DISPLAY_WIDTH as int);
            let y0 = self.reg(y) as int % (DISPLAY_HEIGHT as int);
            Ok(
                Machine {
                    pixels: blit(self.pixels, sprite, x0, y0),
                    dirty: true,
                    ..self
                }.with_flag(collides(self.pixels, sprite, x0, y0)),
            )
        }
    }

    /// `Ex9E` and `ExA1`: skip if the key whose digit is in VX is down
    /// (`when_down`) or is up (`!when_down`). Fails where VX holds no digit.
    pub open spec fn skip_on_key(self, x: u8, keys: Keys, when_down: bool) -> Result<
        Machine,
        ExecError,
    > {
        match key_of_digit(self.reg(x)) {
            Some(key) => Ok(self.skip_if(keys.down.contains(key) == when_down)),
            None => Err(ExecError::InvalidKey { value: self.reg(x) }),
        }
    }

    /// `Fx0A`: with a keypad key among those pressed, its digit goes to VX;
    /// with none, the program counter steps back onto this instruction.
    pub open spec fn wait_for_key(self, x: u8, keys: Keys) -> Machine {
        match first_digit(keys.pressed) {
            Some(digit) => self.with_reg(x, digit),
            None => Machine { pc: wrap16(self.pc - 2), ..self },
        }
    }

    /// `Fx1E`: VX is added to the index register. With the flagged variant a
    /// sum above `0xFFF` is reduced by `0xFFF` and VF tells whether that
    /// happened; with the plain variant the sum wraps at sixteen bits.
    pub open spec fn add_to_index(self, x: u8) -> Machine {
        let sum = self.index + self.reg(x);
        if self.quirks.index_add_flags_overflow {
            if sum > 0xFFF {
                Machine { index: (sum - 0xFFF) as u16, ..self }.with_flag(true)
            } else {
                Machine { index: sum as u16, ..self }.with_flag(false)
            }
        } else {
            Machine { index: wrap16(sum), ..self }
        }
    }

    /// `Fx29`: the index register points at the glyph of the digit in VX.
    pub open spec fn font_address(self, x: u8) -> Machine {
        Machine { index: (FONT_BASE + GLYPH_SIZE * self.reg(x)) as u16, ..self }
    }

    /// `Fx33`: the decimal digits of VX go to the three bytes at the index
    /// register.
    pub open spec fn store_decimal(self, x: u8) -> Result<Machine, ExecError> {
        if !self.index_in_bounds(3) {
            Err(ExecError::AddressOutOfBounds)
        } else {
            Ok(
                Machine {
                    memory: overlay(self.memory, self.index as int, decimal_digits(self.reg(x))),
                    ..self
                },
            )
        }
    }

    /// `Fx55`: V0 to VX go to memory at the index register, which stays.
    pub open spec fn store_registers(self, x: u8) -> Result<Machine, ExecError> {
        if !self.index_in_bounds(x + 1) {
            Err(ExecError::AddressOutOfBounds)
        } else {
            Ok(
                Machine {
                    memory: overlay(self.memory, self.index as int, self.v.take(x + 1)),
                    ..self
                },
            )
        }
    }

    /// `Fx65`: V0 to VX are read from memory at the index register, which
    /// stays.
    pub open spec fn load_registers(self, x: u8) -> Result<Machine, ExecError> {
        if !self.index_in_bounds(x + 1) {
            Err(ExecError::AddressOutOfBounds)
        } else {
            Ok(Machine { v: overlay(self.v, 0, self.at_index(x + 1)), ..self })
        }
    }

    /// The state after executing `instruction`, or the error that stops it.
    /// `keys` is what the keyboard reports and `entropy` the random number
    /// drawn for this instruction; only `Random` looks at `entropy`.
    pub open spec fn step(self, instruction: Instruction, keys: Keys, entropy: u16) -> Result<
        Machine,
        ExecError,
    > {
        match instruction {
            Instruction::ClearScreen => Ok(self.clear_screen()),
            Instruction::Return => self.subroutine_return(),
            Instruction::Jump { addr } => Ok(Machine { pc: addr, ..self }),
            Instruction::Call { addr } => self.subroutine_call(addr),
            Instruction::SkipIfEqual { x, value } => Ok(self.skip_if(self.reg(x) == value)),
            Instruction::SkipIfNotEqual { x, value } => Ok(self.skip_if(self.reg(x) != value)),
            Instruction::SkipIfRegistersEqual { x, y } => Ok(
                self.skip_if(self.reg(x) == self.reg(y)),
            ),
            Instruction::Load { x, value } => Ok(self.with_reg(x, value)),
            Instruction::AddImmediate { x, value } => Ok(
                self.with_reg(x, wrap8(self.reg(x) + value)),
            ),
            Instruction::Copy { x, y } => Ok(self.with_reg(x, self.reg(y))),
            Instruction::Or { x, y } => Ok(self.with_reg(x, self.reg(x) | self.reg(y))),
            Instruction::And { x, y } => Ok(self.with_reg(x, self.reg(x) & self.reg(y))),
            Instruction::Xor { x, y } => Ok(self.with_reg(x, self.reg(x) ^ self.reg(y))),
            Instruction::AddWithCarry { x, y } => Ok(self.add_with_carry(x, y)),
            Instruction::SubtractWithBorrow { x, y } => Ok(self.subtract_with_borrow(x, y)),
            Instruction::ShiftRight { x, y } => Ok(self.shift_right(x, y)),
            Instruction::ReverseSubtract { x, y } => Ok(self.reverse_subtract(x, y)),
            Instruction::ShiftLeft { x, y } => Ok(self.shift_left(x, y)),
            Instruction::SkipIfRegistersNotEqual { x, y } => Ok(
                self.skip_if(self.reg(x) != self.reg(y)),
            ),
            Instruction::LoadIndex { addr } => Ok(Machine { index: addr, ..self }),
            Instruction::JumpWithOffset { addr } => Ok(self.jump_with_offset(addr)),
            Instruction::Random { x, mask } => Ok(self.random(x, mask, entropy)),
            Instruction::Draw { x, y, rows } => self.draw(x, y, rows),
            Instruction::SkipIfKeyDown { x } => self.skip_on_key(x, keys, true),
            Instruction::SkipIfKeyUp { x } => self.skip_on_key(x, keys, false),
            Instruction::ReadDelay { x } => Ok(self.with_reg(x, self.delay)),
            Instruction::WaitForKey { x } => Ok(self.wait_for_key(x, keys)),
            Instruction::SetDelay { x } => Ok(Machine { delay: self.reg(x), ..self }),
            Instruction::SetSound { x } => Ok(Machine { sound: self.reg(x), ..self }),
            Instruction::AddToIndex { x } => Ok(self.add_to_index(x)),
            Instruction::FontAddress { x } => Ok(self.font_address(x)),
            Instruction::StoreDecimal { x } => self.store_decimal(x),
            Instruction::StoreRegisters { x } => self.store_registers(x),
            Instruction::LoadRegisters { x } => self.load_registers(x),
        }
    }

    /// The state after decoding and executing the instruction word `word`.
    pub open spec fn decode_execute(self, word: u16, keys: Keys, entropy: u16) -> Result<
        Machine,
        StepError,
    > {
        match decode_spec(word) {
            Err(e) => Err(StepError::Decode(e)),
            Ok(instruction) => match self.step(instruction, keys, entropy) {
                Err(e) => Err(StepError::Exec(e)),
                Ok(next) => Ok(next),
            },
        }
    }
}

} // verus!
