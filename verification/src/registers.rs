//! The register file: sixteen byte registers V0 to VF, the index register,
//! the program counter and the call stack.

use vstd::prelude::*;
use crate::error::ExecError;

verus! {

/// Whether a call stack of `depth` entries has reached `limit`.
pub open spec fn at_limit(depth: nat, limit: Option<usize>) -> bool {
    limit matches Some(bound) && depth >= bound
}

/// The register file.
#[derive(Clone, Debug, PartialEq, Eq)]
pub struct RegisterFile {
    /// V0 to VF. VF doubles as the carry, borrow and collision flag.
    pub v: [u8; 16],
    /// The index register.
    pub index: u16,
    /// The program counter.
    pub pc: u16,
    /// The return addresses of the subroutines being run, the innermost last.
    pub stack: Vec<u16>,
}

impl RegisterFile {
    /// All registers zero and the call stack empty.
    pub fn new() -> (registers: RegisterFile)
        ensures
            registers.v@ == Seq::new(16, |i: int| 0u8),
            registers.index == 0,
            registers.pc == 0,
            registers.stack@ == Seq::<u16>::empty(),
    {
        RegisterFile { v: [0u8; 16], index: 0, pc: 0, stack: Vec::new() }
    }

    /// Pushes `addr` onto the call stack, unless the stack has reached
    /// `limit`.
    pub fn push(&mut self, addr: u16, limit: Option<usize>) -> (r: Result<(), ExecError>)
        ensures
            match r {
                Ok(()) => !at_limit(old(self).stack@.len(), limit)
                    && final(self).stack@ == old(self).stack@.push(addr),
                Err(e) => e == ExecError::StackOverflow && at_limit(old(self).stack@.len(), limit)
                    && *final(self) == *old(self),
            },
            final(self).v == old(self).v,
            final(self).index == old(self).index,
            final(self).pc == old(self).pc,
    {
        match limit {
            Some(bound) => {
                if self.stack.len() >= bound {
                    return Err(ExecError::StackOverflow);
                }
            },
            None => {},
        }
        self.stack.push(addr);
        Ok(())
    }

    /// Takes the innermost return address off the call stack; `None` if the
    /// stack is empty.
    pub fn pop(&mut self) -> (addr: Option<u16>)
        ensures
            match addr {
                Some(a) => old(self).stack@.len() > 0 && a == old(self).stack@.last()
                    && final(self).stack@ == old(self).stack@.drop_last(),
                None => old(self).stack@.len() == 0 && *final(self) == *old(self),
            },
            final(self).v == old(self).v,
            final(self).index == old(self).index,
            final(self).pc == old(self).pc,
    {
        if self.stack.len() == 0 {
            None
        } else {
            self.stack.pop()
        }
    }
}

} // verus!
