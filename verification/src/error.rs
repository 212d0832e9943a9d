use vstd::prelude::*;

verus! {

/// The faults that can stop the interpreter: every error that the memory
/// model, the register file, the call stack or the cycle engine can raise.
///
/// An opcode that matches no entry of the decode table executes as a no-op
/// that still advances the program counter, so an unrecognized opcode never
/// surfaces as an error.
#[derive(Clone, Copy, Debug, PartialEq, Eq, Structural)]
pub enum Chip8Error {
    /// A memory access reached past the 4096-byte address space.
    AddressRange,
    /// A general-purpose register index of 16 or more was used.
    RegisterIndex,
    /// A seventeenth nested call was attempted.
    StackOverflow,
    /// A return was executed with no call to return to.
    StackUnderflow,
}

} // verus!
