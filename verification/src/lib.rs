//! A verified interpreter for the CHIP-8 virtual instruction set.
//!
//! The interpreter is a fetch-decode-execute engine over a flat 4096-byte
//! memory, sixteen 8-bit general-purpose registers, a 16-bit index register,
//! a program counter, a 16-entry call stack and two 8-bit timers.  Every
//! instruction of the documented CHIP-8 opcode table is decoded by a total
//! decoder and executed against a mathematical model of the machine, and each
//! step of the engine is proved to follow that model.

pub mod chip8;
pub mod cpu;
pub mod display;
pub mod error;
pub mod instruction;
pub mod machine;
pub mod memory;
pub mod registers;
pub mod stack;

pub use chip8::Chip8;
pub use cpu::Cpu;
pub use display::Display;
pub use error::Chip8Error;
pub use instruction::decode;
pub use instruction::Instruction;
pub use machine::NextPc;
pub use memory::Memory;
pub use registers::Registers;
pub use stack::Stack;
