//! The conditions on which the machine refuses to go on.
use vstd::prelude::*;

verus! {

/// Why an operation on the machine failed.
#[derive(Debug, Clone, Copy, PartialEq, Eq, Structural)]
pub enum EmuError {
    /// A register or keypad index was not below 16.
    IndexOutOfRange,
    /// A push found all 16 stack entries occupied.
    StackOverflow,
    /// A pop found the stack empty.
    StackUnderflow,
    /// A memory access or a program counter would fall outside the 4096 bytes.
    AddressOutOfRange,
    /// The instruction word matches no implemented opcode.
    UnsupportedOpcode(u16),
    /// A program image does not fit in memory above the reserved area.
    RomTooLarge,
}

} // verus!
