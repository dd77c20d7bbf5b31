//! A CHIP-8 virtual machine: memory, registers, timers, a monochrome display
//! and the instruction interpreter that drives them, with every state
//! transition stated as a contract over a mathematical model of the machine.

pub mod constants;
pub mod error;
pub mod quirks;
pub mod keypad;
pub mod instruction;
pub mod memory;
pub mod timers;
pub mod display;
pub mod machine;
pub mod registers;
pub mod chip8;
mod entropy;
pub mod laws;
pub mod pacing;

pub use crate::chip8::Sys;
