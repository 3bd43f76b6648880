//! Core of a CHIP-8 virtual machine: the machine state, the instruction
//! fetch, and the state transition of every opcode, each stated against a
//! mathematical model of the machine and proved.

pub mod emulator;
pub mod error;
pub mod fontset;
pub mod isa;
pub mod laws;
pub mod model;
pub mod opcodes;

pub use emulator::Emulator;
pub use error::EmuError;
