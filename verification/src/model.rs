//! The mathematical model of the machine: its state as plain sequences and
//! integers, and the transition that each opcode makes on it.
use vstd::prelude::*;
use crate::error::EmuError;
use crate::fontset::FONTSET;

verus! {

/// The whole state of the machine.
pub struct Machine {
    /// Address of the next instruction to fetch.
    pub pc: u16,
    /// The 4096 bytes of memory.
    pub ram: Seq<u8>,
    /// The 64x32 pixels, row by row.
    pub display: Seq<bool>,
    /// The registers V0 to VF.
    pub v: Seq<u8>,
    /// The index register I.
    pub i: u16,
    /// Number of occupied stack entries.
    pub sp: u16,
    /// The 16 stack entries.
    pub stack: Seq<u16>,
    /// The 16 keys, `true` while pressed.
    pub keys: Seq<bool>,
    /// The delay timer.
    pub delay: u8,
    /// The sound timer.
    pub sound: u8,
}

impl Machine {
    /// The invariant of the state: every part has its fixed size, the stack
    /// pointer counts at most 16 entries and the program counter addresses
    /// memory.
    pub open spec fn wf(self) -> bool {
        &&& self.ram.len() == 4096
        &&& self.display.len() == 2048
        &&& self.v.len() == 16
        &&& self.stack.len() == 16
        &&& self.keys.len() == 16
        &&& self.sp <= 16
        &&& self.pc < 4096
    }

    /// The state after construction and after a reset: the font table at
    /// the bottom of memory, the program counter at 0x200, all else zero.
    pub open spec fn initial() -> Machine {
        Machine {
            pc: 0x200,
            ram: Seq::new(4096, |a: int| if 0 <= a < 80 { FONTSET@[a] } else { 0u8 }),
            display: Seq::new(2048, |p: int| false),
            v: Seq::new(16, |r: int| 0u8),
            i: 0,
            sp: 0,
            stack: Seq::new(16, |s: int| 0u16),
            keys: Seq::new(16, |k: int| false),
            delay: 0,
            sound: 0,
        }
    }
}


/// How a fallible operation leaves the machine: where the transition is
/// defined the call succeeds and the machine is in the new state; where it
/// names an error the call returns that error and the machine is as before.
pub open spec fn settles(
    pre: Machine,
    out: Result<Machine, EmuError>,
    r: Result<(), EmuError>,
    post: Machine,
) -> bool {
    match out {
        Ok(m) => r is Ok && post == m,
        Err(e) => r == Err::<(), EmuError>(e) && post == pre,
    }
}

impl Machine {
    /// The machine with register `x` holding `val`.
    pub open spec fn with_reg(self, x: int, val: u8) -> Machine {
        Machine { v: self.v.update(x, val), ..self }
    }

    /// The machine with the flag register VF holding 1 for `true`, 0 for
    /// `false`.
    pub open spec fn with_flag(self, flag: bool) -> Machine {
        self.with_reg(0xF, if flag { 1u8 } else { 0u8 })
    }

    /// The machine with the next instruction skipped where `cond` holds, and
    /// unchanged where it does not. A skip that would carry the program
    /// counter out of memory is an error.
    pub open spec fn skip_if(self, cond: bool) -> Result<Machine, EmuError> {
        if !cond {
            Ok(self)
        } else if self.pc + 2 < 4096 {
            Ok(Machine { pc: (self.pc + 2) as u16, ..self })
        } else {
            Err(EmuError::AddressOutOfRange)
        }
    }
}

/// Stack push: `val` goes on top; `StackOverflow` with 16 entries occupied.
pub open spec fn push(m: Machine, val: u16) -> Result<Machine, EmuError> {
    if m.sp < 16 {
        Ok(Machine { stack: m.stack.update(m.sp as int, val), sp: (m.sp + 1) as u16, ..m })
    } else {
        Err(EmuError::StackOverflow)
    }
}

/// Stack pop: the top entry leaves and is handed out; `StackUnderflow` on
/// an empty stack.
pub open spec fn pop(m: Machine) -> Result<(Machine, u16), EmuError> {
    if m.sp > 0 {
        Ok((Machine { sp: (m.sp - 1) as u16, ..m }, m.stack[m.sp - 1]))
    } else {
        Err(EmuError::StackUnderflow)
    }
}

/// One tick of the timers: each one that is above zero goes down by one.
pub open spec fn tick_timers(m: Machine) -> Machine {
    Machine {
        delay: if m.delay > 0 { (m.delay - 1) as u8 } else { 0u8 },
        sound: if m.sound > 0 { (m.sound - 1) as u8 } else { 0u8 },
        ..m
    }
}

/// Key `index` set to `pressed`; `IndexOutOfRange` where there is no such key.
pub open spec fn set_key(m: Machine, index: usize, pressed: bool) -> Result<Machine, EmuError> {
    if index < 16 {
        Ok(Machine { keys: m.keys.update(index as int, pressed), ..m })
    } else {
        Err(EmuError::IndexOutOfRange)
    }
}

/// Largest program image that fits between 0x200 and the end of memory.
pub open spec fn max_rom_len() -> int {
    4096 - 0x200
}

/// A program image copied into memory from 0x200 on; `RomTooLarge` where it
/// does not fit.
pub open spec fn load(m: Machine, bytes: Seq<u8>) -> Result<Machine, EmuError> {
    if bytes.len() <= max_rom_len() {
        Ok(
            Machine {
                ram: Seq::new(
                    4096,
                    |a: int|
                        if 0x200 <= a < 0x200 + bytes.len() {
                            bytes[a - 0x200]
                        } else {
                            m.ram[a]
                        },
                ),
                ..m
            },
        )
    } else {
        Err(EmuError::RomTooLarge)
    }
}

/// The instruction word `op` stored at `addr`, most significant byte first;
/// `AddressOutOfRange` where its two bytes do not both lie in memory.
pub open spec fn write_instruction(m: Machine, addr: usize, op: u16) -> Result<Machine, EmuError> {
    if addr + 1 < 4096 {
        Ok(
            Machine {
                ram: m.ram.update(addr as int, (op / 256) as u8).update(
                    addr + 1,
                    (op % 256) as u8,
                ),
                ..m
            },
        )
    } else {
        Err(EmuError::AddressOutOfRange)
    }
}

/// The instruction word at the program counter, most significant byte first.
pub open spec fn fetch_word(m: Machine) -> u16 {
    (m.ram[m.pc as int] * 256 + m.ram[m.pc + 1]) as u16
}

/// Fetch: the word at the program counter, and the machine with the
/// program counter moved past it. `AddressOutOfRange` where the program
/// counter would leave memory.
pub open spec fn fetch(m: Machine) -> Result<(Machine, u16), EmuError> {
    if m.pc + 2 < 4096 {
        Ok((Machine { pc: (m.pc + 2) as u16, ..m }, fetch_word(m)))
    } else {
        Err(EmuError::AddressOutOfRange)
    }
}

} // verus!
