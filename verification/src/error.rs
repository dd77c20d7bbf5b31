//! The ways in which loading, fetching, decoding and executing can fail.
//!
//! Every failure is reported to the caller and leaves the machine exactly as
//! it was before the call.

use vstd::prelude::*;

verus! {

/// Failure of `load_program`.
#[derive(Clone, Copy, Debug, PartialEq, Eq, Structural)]
pub enum LoadError {
    /// The program has more bytes than fit between the program origin and the
    /// end of memory.
    ProgramTooLarge,
}

/// Failure of `fetch`.
#[derive(Clone, Copy, Debug, PartialEq, Eq, Structural)]
pub enum FetchError {
    /// The program counter is within one byte of the end of memory, so no
    /// complete instruction word is left to read.
    OutOfBounds,
}

/// Failure to decode an instruction word.
#[derive(Clone, Copy, Debug, PartialEq, Eq, Structural)]
pub enum DecodeError {
    /// The word matches no entry of the opcode table. `failing_field` is the
    /// value of the bit-field on which the secondary dispatch found no entry:
    /// `nnn` under the top nibble `0`, `n` under `8`, `nn` under `E` and `F`.
    UnknownOpcode { word: u16, failing_field: u16 },
}

/// Failure while executing a decoded instruction.
#[derive(Clone, Copy, Debug, PartialEq, Eq, Structural)]
pub enum ExecError {
    /// Return from a subroutine with an empty call stack.
    StackUnderflow,
    /// Subroutine call with the call stack already at its configured bound.
    StackOverflow,
    /// The instruction reads or writes memory past the last address.
    AddressOutOfBounds,
    /// A keypad instruction found a register value that is no hexadecimal
    /// digit.
    InvalidKey { value: u8 },
}

/// Failure of `decode_execute`: in the decoder or in the execution.
#[derive(Clone, Copy, Debug, PartialEq, Eq, Structural)]
pub enum StepError {
    Decode(DecodeError),
    Exec(ExecError),
}

} // verus!
