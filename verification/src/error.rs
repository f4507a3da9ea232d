//! The error taxonomy of the interpreter core.
//!
//! Every fatal condition is surfaced as a distinct, inspectable value; the
//! core never retries or silently recovers.

use vstd::prelude::*;

verus! {

/// A fatal condition raised by the interpreter core.
#[derive(Debug, Clone, Copy, PartialEq, Eq, Structural)]
pub enum Chip8Error {
    /// Decoding found no matching instruction pattern for this 16-bit word.
    InvalidOpcode(u16),
    /// A memory access touched an address outside the legal range; the
    /// payload is the base address of the offending access.
    OutOfBounds(u16),
    /// A ROM image would run past the end of the 4096-byte address space.
    RomTooLarge,
    /// A `CALL` was issued with all 16 stack slots already in use.
    StackOverflow,
    /// A `RET` was issued with no return address on the stack.
    StackUnderflow,
    /// The program counter does not point at a fetchable instruction word.
    BadProgramCounter(u16),
}

} // verus!
