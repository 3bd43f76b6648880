//! The machine state and the operations the host drives it with.
use vstd::prelude::*;
use crate::error::EmuError;
use crate::fontset::{FONTSET, FONTSET_SIZE};
use crate::isa;
use crate::model;
use crate::opcodes::execute_opcode;
use crate::model::Machine;

verus! {

/// Display width in pixels.
pub const DISPLAY_WIDTH: usize = 64;

/// Display height in pixels.
pub const DISPLAY_HEIGHT: usize = 32;

/// Number of pixels of the display.
pub const DISPLAY_SIZE: usize = 2048;

/// Bytes of memory.
pub const RAM_SIZE: usize = 4096;

/// Number of V registers, V0 to VF.
pub const NUM_REGISTERS: usize = 16;

/// Number of return addresses the stack holds.
pub const STACK_SIZE: usize = 16;

/// Number of keys of the hexadecimal keypad.
pub const NUM_KEYS: usize = 16;

/// Where a program image starts; the bytes below are reserved.
pub const START_ADDRESS: u16 = 0x200;

/// The virtual CPU with everything it owns.
#[derive(Clone, Debug, PartialEq, Eq)]
pub struct Emulator {
    /// Address of the next instruction to fetch.
    pub program_counter: u16,
    /// Random-access memory. A program is copied in at `START_ADDRESS`.
    pub ram: [u8; RAM_SIZE],
    /// Screen pixels, row by row; `true` is on.
    pub display: [bool; DISPLAY_SIZE],
    /// The registers V0 to VF. VF doubles as the flag register.
    pub v_registers: [u8; NUM_REGISTERS],
    /// The index register I, an address into memory.
    pub i_register: u16,
    /// Number of occupied stack entries.
    pub stack_pointer: u16,
    /// Return addresses of the subroutine calls in progress.
    pub stack: [u16; STACK_SIZE],
    /// The keypad; `true` while a key is held down.
    pub keys: [bool; NUM_KEYS],
    /// Delay timer, counted down by `tick_timers`.
    pub delay_timer: u8,
    /// Sound timer, counted down by `tick_timers`.
    pub sound_timer: u8,
}

impl View for Emulator {
    type V = Machine;

    open spec fn view(&self) -> Machine {
        Machine {
            pc: self.program_counter,
            ram: self.ram@,
            display: self.display@,
            v: self.v_registers@,
            i: self.i_register,
            sp: self.stack_pointer,
            stack: self.stack@,
            keys: self.keys@,
            delay: self.delay_timer,
            sound: self.sound_timer,
        }
    }
}

impl Emulator {
    /// The invariant that every operation keeps: at most 16 stack entries
    /// are occupied and the program counter lies inside memory.
    pub open spec fn wf(&self) -> bool {
        self@.wf()
    }

    /// Whether the machine meets its invariant, for callers that have
    /// written to its fields.
    pub fn is_well_formed(&self) -> (ok: bool)
        ensures
            ok == self.wf(),
    {
        self.stack_pointer <= 16 && self.program_counter < 4096
    }

    /// A machine in its initial state.
    pub fn new() -> (emu: Self)
        ensures
            emu@ == Machine::initial(),
            emu.wf(),
    {
        let mut emu = Emulator {
            program_counter: START_ADDRESS,
            ram: [0u8; RAM_SIZE],
            display: [false; DISPLAY_SIZE],
            v_registers: [0u8; NUM_REGISTERS],
            i_register: 0,
            stack_pointer: 0,
            stack: [0u16; STACK_SIZE],
            keys: [false; NUM_KEYS],
            delay_timer: 0,
            sound_timer: 0,
        };
        let mut a: usize = 0;
        while a < FONTSET_SIZE
            invariant
                a <= FONTSET_SIZE,
                forall|b: int| 0 <= b < a ==> emu.ram@[b] == FONTSET@[b],
                forall|b: int| a <= b < 4096 ==> emu.ram@[b] == 0,
                emu.program_counter == 0x200,
                emu.i_register == 0,
                emu.stack_pointer == 0,
                emu.delay_timer == 0,
                emu.sound_timer == 0,
                forall|p: int| 0 <= p < 2048 ==> emu.display@[p] == false,
                forall|r: int| 0 <= r < 16 ==> emu.v_registers@[r] == 0,
                forall|s: int| 0 <= s < 16 ==> emu.stack@[s] == 0,
                forall|k: int| 0 <= k < 16 ==> emu.keys@[k] == false,
            decreases FONTSET_SIZE - a,
        {
            emu.ram[a] = FONTSET[a];
            a += 1;
        }
        assert(emu@.ram =~= Machine::initial().ram);
        assert(emu@.display =~= Machine::initial().display);
        assert(emu@.v =~= Machine::initial().v);
        assert(emu@.stack =~= Machine::initial().stack);
        assert(emu@.keys =~= Machine::initial().keys);
        emu
    }

    /// Puts the machine back into its initial state, font table included.
    pub fn reset(&mut self)
        ensures
            final(self)@ == Machine::initial(),
            final(self).wf(),
    {
        *self = Emulator::new();
    }

    /// The value of register `index`, or `IndexOutOfRange` where `index` is
    /// not below 16.
    pub fn get_v(&self, index: usize) -> (r: Result<u8, EmuError>)
        ensures
            index < 16 ==> r == Ok::<u8, EmuError>(self@.v[index as int]),
            index >= 16 ==> r == Err::<u8, EmuError>(EmuError::IndexOutOfRange),
    {
        if index < NUM_REGISTERS {
            Ok(self.v_registers[index])
        } else {
            Err(EmuError::IndexOutOfRange)
        }
    }

    /// Stores `value` in register `index` and changes nothing else. Where
    /// `index` is not below 16 the machine is left as it was and
    /// `IndexOutOfRange` is returned.
    pub fn set_v(&mut self, index: usize, value: u8) -> (r: Result<(), EmuError>)
        ensures
            index < 16 ==> r is Ok && final(self)@ == (Machine {
                v: old(self)@.v.update(index as int, value),
                ..old(self)@
            }),
            index >= 16 ==> r == Err::<(), EmuError>(EmuError::IndexOutOfRange) && *final(self)
                == *old(self),
            old(self).wf() ==> final(self).wf(),
    {
        if index < NUM_REGISTERS {
            self.v_registers[index] = value;
            Ok(())
        } else {
            Err(EmuError::IndexOutOfRange)
        }
    }

    /// Pushes `val` on the stack. With all 16 entries occupied nothing
    /// changes and `StackOverflow` is returned.
    pub fn push(&mut self, val: u16) -> (r: Result<(), EmuError>)
        ensures
            model::settles(old(self)@, model::push(old(self)@, val), r, final(self)@),
            old(self).wf() ==> final(self).wf(),
    {
        if self.stack_pointer < 16 {
            self.stack[self.stack_pointer as usize] = val;
            self.stack_pointer += 1;
            Ok(())
        } else {
            Err(EmuError::StackOverflow)
        }
    }

    /// Pops the top of the stack. On an empty stack nothing changes and
    /// `StackUnderflow` is returned.
    pub fn pop(&mut self) -> (r: Result<u16, EmuError>)
        requires
            old(self).wf(),
        ensures
            match model::pop(old(self)@) {
                Ok((m, top)) => r == Ok::<u16, EmuError>(top) && final(self)@ == m,
                Err(e) => r == Err::<u16, EmuError>(e) && final(self)@ == old(self)@,
            },
            final(self).wf(),
    {
        if self.stack_pointer > 0 {
            self.stack_pointer -= 1;
            Ok(self.stack[self.stack_pointer as usize])
        } else {
            Err(EmuError::StackUnderflow)
        }
    }

    /// Reads the instruction word at the program counter and moves the
    /// program counter past it.
    pub fn fetch(&mut self) -> (r: Result<u16, EmuError>)
        ensures
            match model::fetch(old(self)@) {
                Ok((m, word)) => r == Ok::<u16, EmuError>(word) && final(self)@ == m,
                Err(e) => r == Err::<u16, EmuError>(e) && final(self)@ == old(self)@,
            },
            old(self).wf() ==> final(self).wf(),
    {
        if self.program_counter < 4094 {
            let higher_byte: u16 = self.ram[self.program_counter as usize] as u16;
            let lower_byte: u16 = self.ram[self.program_counter as usize + 1] as u16;
            self.program_counter += 2;
            Ok(higher_byte * 256 + lower_byte)
        } else {
            Err(EmuError::AddressOutOfRange)
        }
    }

    /// One step of the machine: fetches the instruction at the program
    /// counter and executes it. On an error the machine is left as it was,
    /// program counter included.
    pub fn tick(&mut self) -> (r: Result<(), EmuError>)
        requires
            old(self).wf(),
        ensures
            exists|sample: u8|
                model::settles(
                    old(self)@,
                    #[trigger] isa::step(old(self)@, sample),
                    r,
                    final(self)@,
                ),
            !isa::reads_sample(model::fetch_word(old(self)@)) ==> model::settles(
                old(self)@,
                isa::step(old(self)@, 0),
                r,
                final(self)@,
            ),
            final(self).wf(),
    {
        let pc: u16 = self.program_counter;
        // I. Fetch
        let op: u16 = match self.fetch() {
            Ok(op) => op,
            Err(e) => {
                assert(isa::step(old(self)@, 0) == Err::<Machine, EmuError>(e));
                return Err(e);
            },
        };
        // II. Decode & III. Execute
        let ghost fetched = self@;
        let outcome = execute_opcode(self, op);
        proof {
            let sample = choose|sample: u8|
                model::settles(fetched, #[trigger] isa::execute(fetched, op, sample), outcome, self@);
            assert(isa::step(old(self)@, sample) == isa::execute(fetched, op, sample));
            assert(isa::step(old(self)@, 0) == isa::execute(fetched, op, 0));
        }
        if outcome.is_err() {
            self.program_counter = pc;
        }
        outcome
    }

    /// Counts both timers down by one, each stopping at zero. With both at
    /// zero the machine is unchanged.
    pub fn tick_timers(&mut self)
        ensures
            final(self)@ == model::tick_timers(old(self)@),
            final(self)@.delay <= old(self)@.delay,
            final(self)@.sound <= old(self)@.sound,
            old(self)@.delay == 0 && old(self)@.sound == 0 ==> final(self)@ == old(self)@,
            old(self).wf() ==> final(self).wf(),
    {
        if self.delay_timer > 0 {
            self.delay_timer -= 1;
        }
        if self.sound_timer > 0 {
            self.sound_timer -= 1;
        }
    }

    /// Records that key `index` is pressed or released. Where `index` is
    /// not below 16 nothing changes and `IndexOutOfRange` is returned.
    pub fn set_key(&mut self, index: usize, pressed: bool) -> (r: Result<(), EmuError>)
        ensures
            model::settles(old(self)@, model::set_key(old(self)@, index, pressed), r, final(self)@),
            old(self).wf() ==> final(self).wf(),
    {
        if index < NUM_KEYS {
            self.keys[index] = pressed;
            Ok(())
        } else {
            Err(EmuError::IndexOutOfRange)
        }
    }

    /// The pixels of the display, row by row.
    pub fn framebuffer(&self) -> (pixels: &[bool; DISPLAY_SIZE])
        ensures
            pixels@ == self@.display,
    {
        &self.display
    }

    /// Copies a program image into memory from `START_ADDRESS` on. An image
    /// longer than the memory above that address changes nothing and gives
    /// `RomTooLarge`.
    pub fn load(&mut self, bytes: &[u8]) -> (r: Result<(), EmuError>)
        ensures
            model::settles(old(self)@, model::load(old(self)@, bytes@), r, final(self)@),
            old(self).wf() ==> final(self).wf(),
    {
        if bytes.len() > RAM_SIZE - 0x200 {
            return Err(EmuError::RomTooLarge);
        }
        let mut k: usize = 0;
        while k < bytes.len()
            invariant
                k <= bytes.len() <= 4096 - 0x200,
                forall|a: int| 0x200 <= a < 0x200 + k ==> self.ram@[a] == bytes@[a - 0x200],
                forall|a: int|
                    0 <= a < 4096 && !(0x200 <= a < 0x200 + k) ==> self.ram@[a] == old(self).ram@[a],
                self@ == (Machine { ram: self.ram@, ..old(self)@ }),
            decreases bytes.len() - k,
        {
            self.ram[0x200 + k] = bytes[k];
            k += 1;
        }
        assert(self@.ram =~= model::load(old(self)@, bytes@)->Ok_0.ram);
        Ok(())
    }

    /// Stores the instruction word `op` at `addr`, most significant byte
    /// first. Where the two bytes do not both lie in memory nothing changes
    /// and `AddressOutOfRange` is returned.
    pub fn write_instruction(&mut self, addr: usize, op: u16) -> (r: Result<(), EmuError>)
        ensures
            model::settles(
                old(self)@,
                model::write_instruction(old(self)@, addr, op),
                r,
                final(self)@,
            ),
            old(self).wf() ==> final(self).wf(),
    {
        if addr < RAM_SIZE - 1 {
            self.ram[addr] = (op / 256) as u8;
            self.ram[addr + 1] = (op % 256) as u8;
            Ok(())
        } else {
            Err(EmuError::AddressOutOfRange)
        }
    }
}

impl Default for Emulator {
    fn default() -> (emu: Self)
        ensures
            emu@ == Machine::initial(),
            emu.wf(),
    {
        Emulator::new()
    }
}

} // verus!
