//! The instruction engine: decoding an instruction word and carrying out
//! the opcode it names on the machine.
use vstd::prelude::*;
use crate::emulator::{Emulator, RAM_SIZE};
use crate::error::EmuError;
use crate::isa;
use crate::model::{settles, Machine};

verus! {

/// One byte from `rand::random`, which draws it from the thread's random
/// number generator. Nothing is claimed of the byte: any value may come.
#[verifier::external_body]
fn random_byte() -> (sample: u8) {
    rand::random::<u8>()
}

/// Executes the instruction word `op`. The random byte that Cxkk needs is
/// drawn here. On an error the machine is left as it was.
pub fn execute_opcode(emu: &mut Emulator, op: u16) -> (r: Result<(), EmuError>)
    requires
        old(emu).wf(),
    ensures
        exists|sample: u8|
            settles(old(emu)@, #[trigger] isa::execute(old(emu)@, op, sample), r, final(emu)@),
        !isa::reads_sample(op) ==> settles(
            old(emu)@,
            isa::execute(old(emu)@, op, 0),
            r,
            final(emu)@,
        ),
        final(emu).wf(),
{
    let sample: u8 = if op / 4096 == 0xC {
        random_byte()
    } else {
        0
    };
    execute_with_sample(emu, op, sample)
}

/// Executes the instruction word `op`, with `sample` as the random byte
/// that Cxkk reads. On an error the machine is left as it was.
pub fn execute_with_sample(emu: &mut Emulator, op: u16, sample: u8) -> (r: Result<(), EmuError>)
    requires
        old(emu).wf(),
    ensures
        settles(old(emu)@, isa::execute(old(emu)@, op, sample), r, final(emu)@),
        final(emu).wf(),
{
    let digit1: u16 = op / 4096;
    let x: usize = ((op / 256) % 16) as usize;
    let y: usize = ((op / 16) % 16) as usize;
    let digit4: u16 = op % 16;
    let byte: u8 = (op % 256) as u8;
    let addr: u16 = op % 4096;

    if op == 0x0000 {
        nop();
        Ok(())
    } else if op == 0x00E0 {
        cls(emu);
        Ok(())
    } else if op == 0x00EE {
        ret(emu)
    } else if digit1 == 0x1 {
        jp(emu, addr);
        Ok(())
    } else if digit1 == 0x2 {
        call(emu, addr)
    } else if digit1 == 0x3 {
        se_vx_byte(emu, x, byte)
    } else if digit1 == 0x4 {
        sne_vx_byte(emu, x, byte)
    } else if digit1 == 0x5 && digit4 == 0x0 {
        se_vx_vy(emu, x, y)
    } else if digit1 == 0x6 {
        ld_vx_byte(emu, x, byte);
        Ok(())
    } else if digit1 == 0x7 {
        add_vx_byte(emu, x, byte);
        Ok(())
    } else if digit1 == 0x8 && digit4 == 0x0 {
        ld_vx_vy(emu, x, y);
        Ok(())
    } else if digit1 == 0x8 && digit4 == 0x1 {
        or(emu, x, y);
        Ok(())
    } else if digit1 == 0x8 && digit4 == 0x2 {
        and(emu, x, y);
        Ok(())
    } else if digit1 == 0x8 && digit4 == 0x3 {
        xor(emu, x, y);
        Ok(())
    } else if digit1 == 0x8 && digit4 == 0x4 {
        add_vx_vy(emu, x, y);
        Ok(())
    } else if digit1 == 0x8 && digit4 == 0x5 {
        sub_vx_vy(emu, x, y);
        Ok(())
    } else if digit1 == 0x8 && digit4 == 0x6 {
        shr(emu, x);
        Ok(())
    } else if digit1 == 0x8 && digit4 == 0x7 {
        subn_vx_vy(emu, x, y);
        Ok(())
    } else if digit1 == 0x8 && digit4 == 0xE {
        shl(emu, x);
        Ok(())
    } else if digit1 == 0x9 && digit4 == 0x0 {
        sne_vx_vy(emu, x, y)
    } else if digit1 == 0xA {
        ld_i_addr(emu, addr);
        Ok(())
    } else if digit1 == 0xB {
        jp_v0(emu, addr)
    } else if digit1 == 0xC {
        rnd(emu, x, byte, sample);
        Ok(())
    } else if digit1 == 0xD {
        drw(emu, x, y, digit4 as usize)
    } else if digit1 == 0xE && byte == 0x9E {
        skp(emu, x)
    } else if digit1 == 0xE && byte == 0xA1 {
        sknp(emu, x)
    } else if digit1 == 0xF && byte == 0x07 {
        ld_vx_dt(emu, x);
        Ok(())
    } else if digit1 == 0xF && byte == 0x0A {
        ld_vx_k(emu, x)
    } else if digit1 == 0xF && byte == 0x15 {
        ld_dt_vx(emu, x);
        Ok(())
    } else if digit1 == 0xF && byte == 0x18 {
        ld_st_vx(emu, x);
        Ok(())
    } else if digit1 == 0xF && byte == 0x1E {
        add_i_vx(emu, x);
        Ok(())
    } else if digit1 == 0xF && byte == 0x29 {
        ld_f_vx(emu, x);
        Ok(())
    } else if digit1 == 0xF && byte == 0x33 {
        ld_b_vx(emu, x)
    } else if digit1 == 0xF && byte == 0x55 {
        ld_i_vx(emu, x)
    } else if digit1 == 0xF && byte == 0x65 {
        ld_vx_i(emu, x)
    } else {
        Err(EmuError::UnsupportedOpcode(op))
    }
}

/// Moves the program counter past the next instruction where `cond` holds.
fn skip_if(emu: &mut Emulator, cond: bool) -> (r: Result<(), EmuError>)
    requires
        old(emu).wf(),
    ensures
        settles(old(emu)@, old(emu)@.skip_if(cond), r, final(emu)@),
        final(emu).wf(),
{
    if !cond {
        Ok(())
    } else if emu.program_counter < 4094 {
        emu.program_counter += 2;
        Ok(())
    } else {
        Err(EmuError::AddressOutOfRange)
    }
}

/// Stores the flag in VF: 1 for `true`, 0 for `false`.
fn set_flag(emu: &mut Emulator, flag: bool)
    ensures
        final(emu)@ == old(emu)@.with_flag(flag),
{
    emu.v_registers[0xF] = if flag {
        1
    } else {
        0
    };
}

/// Do nothing.
fn nop() {
}

/// Clear the display.
fn cls(emu: &mut Emulator)
    ensures
        final(emu)@ == isa::cls(old(emu)@),
{
    emu.display = [false; 2048];
    assert(emu@.display =~= isa::cls(old(emu)@).display);
}

/// Return from a subroutine.
fn ret(emu: &mut Emulator) -> (r: Result<(), EmuError>)
    requires
        old(emu).wf(),
    ensures
        settles(old(emu)@, isa::ret(old(emu)@), r, final(emu)@),
        final(emu).wf(),
{
    if emu.stack_pointer == 0 {
        return Err(EmuError::StackUnderflow);
    }
    if emu.stack[(emu.stack_pointer - 1) as usize] >= 4096 {
        return Err(EmuError::AddressOutOfRange);
    }
    let return_addr: u16 = emu.pop()?;
    emu.program_counter = return_addr;
    Ok(())
}

/// Jump to location `addr`.
fn jp(emu: &mut Emulator, addr: u16)
    ensures
        final(emu)@ == isa::jp(old(emu)@, addr),
{
    emu.program_counter = addr;
}

/// Call subroutine at `addr`.
fn call(emu: &mut Emulator, addr: u16) -> (r: Result<(), EmuError>)
    ensures
        settles(old(emu)@, isa::call(old(emu)@, addr), r, final(emu)@),
{
    emu.push(emu.program_counter)?;
    emu.program_counter = addr;
    Ok(())
}

/// Skip next instruction iff Vx == `byte`.
fn se_vx_byte(emu: &mut Emulator, x: usize, byte: u8) -> (r: Result<(), EmuError>)
    requires
        old(emu).wf(),
        x < 16,
    ensures
        settles(old(emu)@, isa::se_vx_byte(old(emu)@, x, byte), r, final(emu)@),
        final(emu).wf(),
{
    skip_if(emu, emu.v_registers[x] == byte)
}

/// Skip next instruction iff Vx != `byte`.
fn sne_vx_byte(emu: &mut Emulator, x: usize, byte: u8) -> (r: Result<(), EmuError>)
    requires
        old(emu).wf(),
        x < 16,
    ensures
        settles(old(emu)@, isa::sne_vx_byte(old(emu)@, x, byte), r, final(emu)@),
        final(emu).wf(),
{
    skip_if(emu, emu.v_registers[x] != byte)
}

/// Skip next instruction iff Vx == Vy.
fn se_vx_vy(emu: &mut Emulator, x: usize, y: usize) -> (r: Result<(), EmuError>)
    requires
        old(emu).wf(),
        x < 16,
        y < 16,
    ensures
        settles(old(emu)@, isa::se_vx_vy(old(emu)@, x, y), r, final(emu)@),
        final(emu).wf(),
{
    skip_if(emu, emu.v_registers[x] == emu.v_registers[y])
}

/// Skip next instruction iff Vx != Vy.
fn sne_vx_vy(emu: &mut Emulator, x: usize, y: usize) -> (r: Result<(), EmuError>)
    requires
        old(emu).wf(),
        x < 16,
        y < 16,
    ensures
        settles(old(emu)@, isa::sne_vx_vy(old(emu)@, x, y), r, final(emu)@),
        final(emu).wf(),
{
    skip_if(emu, emu.v_registers[x] != emu.v_registers[y])
}

/// Set Vx = `byte`.
fn ld_vx_byte(emu: &mut Emulator, x: usize, byte: u8)
    requires
        x < 16,
    ensures
        final(emu)@ == isa::ld_vx_byte(old(emu)@, x, byte),
{
    emu.v_registers[x] = byte;
}

/// Set Vx = Vx + `byte`, wrapping.
fn add_vx_byte(emu: &mut Emulator, x: usize, byte: u8)
    requires
        x < 16,
    ensures
        final(emu)@ == isa::add_vx_byte(old(emu)@, x, byte),
{
    emu.v_registers[x] = emu.v_registers[x].wrapping_add(byte);
}

/// Set Vx = Vy.
fn ld_vx_vy(emu: &mut Emulator, x: usize, y: usize)
    requires
        x < 16,
        y < 16,
    ensures
        final(emu)@ == isa::ld_vx_vy(old(emu)@, x, y),
{
    emu.v_registers[x] = emu.v_registers[y];
}

/// Set Vx = bitwise Vx OR Vy.
fn or(emu: &mut Emulator, x: usize, y: usize)
    requires
        x < 16,
        y < 16,
    ensures
        final(emu)@ == isa::or(old(emu)@, x, y),
{
    emu.v_registers[x] = emu.v_registers[x] | emu.v_registers[y];
}

/// Set Vx = bitwise Vx AND Vy.
fn and(emu: &mut Emulator, x: usize, y: usize)
    requires
        x < 16,
        y < 16,
    ensures
        final(emu)@ == isa::and(old(emu)@, x, y),
{
    emu.v_registers[x] = emu.v_registers[x] & emu.v_registers[y];
}

/// Set Vx = bitwise Vx XOR Vy.
fn xor(emu: &mut Emulator, x: usize, y: usize)
    requires
        x < 16,
        y < 16,
    ensures
        final(emu)@ == isa::xor(old(emu)@, x, y),
{
    emu.v_registers[x] = emu.v_registers[x] ^ emu.v_registers[y];
}

/// Set Vx = Vx + Vy; set VF = carry.
fn add_vx_vy(emu: &mut Emulator, x: usize, y: usize)
    requires
        x < 16,
        y < 16,
    ensures
        final(emu)@ == isa::add_vx_vy(old(emu)@, x, y),
{
    let vx: u8 = emu.v_registers[x];
    let vy: u8 = emu.v_registers[y];
    emu.v_registers[x] = vx.wrapping_add(vy);
    set_flag(emu, vy > 255 - vx);
}

/// Set Vx = Vx - Vy; set VF = NOT borrow.
fn sub_vx_vy(emu: &mut Emulator, x: usize, y: usize)
    requires
        x < 16,
        y < 16,
    ensures
        final(emu)@ == isa::sub_vx_vy(old(emu)@, x, y),
{
    let vx: u8 = emu.v_registers[x];
    let vy: u8 = emu.v_registers[y];
    emu.v_registers[x] = vx.wrapping_sub(vy);
    set_flag(emu, vx >= vy);
}

/// Set Vx = Vx SHR 1; set VF = the bit shifted out.
fn shr(emu: &mut Emulator, x: usize)
    requires
        x < 16,
    ensures
        final(emu)@ == isa::shr(old(emu)@, x),
{
    let vx: u8 = emu.v_registers[x];
    emu.v_registers[x] = vx / 2;
    set_flag(emu, vx % 2 == 1);
}

/// Set Vx = Vy - Vx; set VF = NOT borrow.
fn subn_vx_vy(emu: &mut Emulator, x: usize, y: usize)
    requires
        x < 16,
        y < 16,
    ensures
        final(emu)@ == isa::subn_vx_vy(old(emu)@, x, y),
{
    let vx: u8 = emu.v_registers[x];
    let vy: u8 = emu.v_registers[y];
    emu.v_registers[x] = vy.wrapping_sub(vx);
    set_flag(emu, vy >= vx);
}

/// Set Vx = Vx SHL 1; set VF = the bit shifted out.
fn shl(emu: &mut Emulator, x: usize)
    requires
        x < 16,
    ensures
        final(emu)@ == isa::shl(old(emu)@, x),
{
    let vx: u8 = emu.v_registers[x];
    emu.v_registers[x] = vx.wrapping_add(vx);
    set_flag(emu, vx >= 128);
}

/// Set I register = `addr`.
fn ld_i_addr(emu: &mut Emulator, addr: u16)
    ensures
        final(emu)@ == isa::ld_i_addr(old(emu)@, addr),
{
    emu.i_register = addr;
}

/// Jump to location `addr` + V0.
fn jp_v0(emu: &mut Emulator, addr: u16) -> (r: Result<(), EmuError>)
    requires
        addr < 4096,
    ensures
        settles(old(emu)@, isa::jp_v0(old(emu)@, addr), r, final(emu)@),
{
    let target: u16 = addr + (emu.v_registers[0] as u16);
    if target < 4096 {
        emu.program_counter = target;
        Ok(())
    } else {
        Err(EmuError::AddressOutOfRange)
    }
}

/// Set Vx = `sample` AND `byte`, where `sample` is a random byte.
fn rnd(emu: &mut Emulator, x: usize, byte: u8, sample: u8)
    requires
        x < 16,
    ensures
        final(emu)@ == isa::rnd(old(emu)@, x, byte, sample),
{
    emu.v_registers[x] = sample & byte;
}

/// Skip next instruction if key with value of Vx is pressed.
fn skp(emu: &mut Emulator, x: usize) -> (r: Result<(), EmuError>)
    requires
        old(emu).wf(),
        x < 16,
    ensures
        settles(old(emu)@, isa::skp(old(emu)@, x), r, final(emu)@),
        final(emu).wf(),
{
    let key: usize = emu.v_registers[x] as usize;
    if key < 16 {
        skip_if(emu, emu.keys[key])
    } else {
        Err(EmuError::IndexOutOfRange)
    }
}

/// Skip next instruction if key with value of Vx is not pressed.
fn sknp(emu: &mut Emulator, x: usize) -> (r: Result<(), EmuError>)
    requires
        old(emu).wf(),
        x < 16,
    ensures
        settles(old(emu)@, isa::sknp(old(emu)@, x), r, final(emu)@),
        final(emu).wf(),
{
    let key: usize = emu.v_registers[x] as usize;
    if key < 16 {
        skip_if(emu, !emu.keys[key])
    } else {
        Err(EmuError::IndexOutOfRange)
    }
}

/// Set Vx = current value of delay timer.
fn ld_vx_dt(emu: &mut Emulator, x: usize)
    requires
        x < 16,
    ensures
        final(emu)@ == isa::ld_vx_dt(old(emu)@, x),
{
    emu.v_registers[x] = emu.delay_timer;
}

/// Store the lowest pressed key in Vx; with no key pressed, step the
/// program counter back so that this instruction runs again.
fn ld_vx_k(emu: &mut Emulator, x: usize) -> (r: Result<(), EmuError>)
    requires
        x < 16,
    ensures
        settles(old(emu)@, isa::ld_vx_k(old(emu)@, x), r, final(emu)@),
{
    let mut k: usize = 0;
    while k < 16
        invariant
            k <= 16,
            x < 16,
            *emu == *old(emu),
            isa::lowest_pressed(emu@.keys, 0) == isa::lowest_pressed(emu@.keys, k as int),
        decreases 16 - k,
    {
        if emu.keys[k] {
            emu.v_registers[x] = k as u8;
            return Ok(());
        }
        k += 1;
    }
    if emu.program_counter >= 2 {
        // Redo opcode
        emu.program_counter -= 2;
        Ok(())
    } else {
        Err(EmuError::AddressOutOfRange)
    }
}

/// Set delay timer = Vx.
fn ld_dt_vx(emu: &mut Emulator, x: usize)
    requires
        x < 16,
    ensures
        final(emu)@ == isa::ld_dt_vx(old(emu)@, x),
{
    emu.delay_timer = emu.v_registers[x];
}

/// Set sound timer = Vx.
fn ld_st_vx(emu: &mut Emulator, x: usize)
    requires
        x < 16,
    ensures
        final(emu)@ == isa::ld_st_vx(old(emu)@, x),
{
    emu.sound_timer = emu.v_registers[x];
}

/// Set I register = I register + Vx, wrapping.
fn add_i_vx(emu: &mut Emulator, x: usize)
    requires
        x < 16,
    ensures
        final(emu)@ == isa::add_i_vx(old(emu)@, x),
{
    emu.i_register = emu.i_register.wrapping_add(emu.v_registers[x] as u16);
}

/// Set I = location of sprite for digit Vx.
fn ld_f_vx(emu: &mut Emulator, x: usize)
    requires
        x < 16,
    ensures
        final(emu)@ == isa::ld_f_vx(old(emu)@, x),
{
    // The font sits at the start of memory, five bytes per glyph.
    emu.i_register = (emu.v_registers[x] as u16) * 5;
}

/// Store binary-coded decimal representation of Vx in memory locations I, I+1, I+2.
fn ld_b_vx(emu: &mut Emulator, x: usize) -> (r: Result<(), EmuError>)
    requires
        x < 16,
    ensures
        settles(old(emu)@, isa::ld_b_vx(old(emu)@, x), r, final(emu)@),
{
    let vx: u8 = emu.v_registers[x];
    let base: usize = emu.i_register as usize;
    if base >= RAM_SIZE - 2 {
        return Err(EmuError::AddressOutOfRange);
    }
    emu.ram[base] = vx / 100;
    emu.ram[base + 1] = (vx / 10) % 10;
    emu.ram[base + 2] = vx % 10;
    Ok(())
}

/// Store registers V0-`x` in memory starting at location I.
fn ld_i_vx(emu: &mut Emulator, x: usize) -> (r: Result<(), EmuError>)
    requires
        x < 16,
    ensures
        settles(old(emu)@, isa::ld_i_vx(old(emu)@, x), r, final(emu)@),
{
    let base: usize = emu.i_register as usize;
    if base + x >= RAM_SIZE {
        return Err(EmuError::AddressOutOfRange);
    }
    let mut k: usize = 0;
    while k <= x
        invariant
            k <= x + 1,
            x < 16,
            base == old(emu)@.i,
            base + x < 4096,
            emu@ == (Machine { ram: emu@.ram, ..old(emu)@ }),
            forall|a: int| base <= a < base + k ==> emu@.ram[a] == old(emu)@.v[a - base],
            forall|a: int|
                0 <= a < 4096 && !(base <= a < base + k) ==> emu@.ram[a] == old(emu)@.ram[a],
        decreases x + 1 - k,
    {
        emu.ram[base + k] = emu.v_registers[k];
        k += 1;
    }
    assert(emu@.ram =~= isa::ld_i_vx(old(emu)@, x)->Ok_0.ram);
    Ok(())
}

/// Read registers V0-`x` from memory starting at location I.
fn ld_vx_i(emu: &mut Emulator, x: usize) -> (r: Result<(), EmuError>)
    requires
        x < 16,
    ensures
        settles(old(emu)@, isa::ld_vx_i(old(emu)@, x), r, final(emu)@),
{
    let base: usize = emu.i_register as usize;
    if base + x >= RAM_SIZE {
        return Err(EmuError::AddressOutOfRange);
    }
    let mut k: usize = 0;
    while k <= x
        invariant
            k <= x + 1,
            x < 16,
            base == old(emu)@.i,
            base + x < 4096,
            emu@ == (Machine { v: emu@.v, ..old(emu)@ }),
            forall|j: int| 0 <= j < k ==> emu@.v[j] == old(emu)@.ram[base + j],
            forall|j: int| k <= j < 16 ==> emu@.v[j] == old(emu)@.v[j],
        decreases x + 1 - k,
    {
        emu.v_registers[k] = emu.ram[base + k];
        k += 1;
    }
    assert(emu@.v =~= isa::ld_vx_i(old(emu)@, x)->Ok_0.v);
    Ok(())
}

/// Whether the sprite pixel in column `col` of a row is set.
fn sprite_bit_set(row_pixels: u8, col: u8) -> (set: bool)
    requires
        col < 8,
    ensures
        set == isa::sprite_bit(row_pixels, col),
{
    (row_pixels & (0x80u8 >> col)) != 0
}

/// Whether the sprite covers pixel `p` with one of the pixels that a draw
/// has dealt with once it has finished `rows` sprite rows and `cols`
/// columns of the row after them.
spec fn covers_so_far(m: Machine, vx: u8, vy: u8, n: usize, p: int, rows: int, cols: int) -> bool {
    let row = isa::sprite_row(vy, p);
    let col = isa::sprite_col(vx, p);
    isa::sprite_covers(m, vx, vy, n, p) && (row < rows || (row == rows && col < cols))
}

/// The display pixel on which the sprite pixel in row `row` and column
/// `col` lands is the only one that this sprite pixel lands on.
proof fn lemma_landing_pixel(vx: u8, vy: u8, row: int, col: int)
    requires
        0 <= row < 32,
        0 <= col < 64,
    ensures
        ({
            let idx = (vx + col) % 64 + 64 * ((vy + row) % 32);
            &&& 0 <= idx < 2048
            &&& isa::sprite_row(vy, idx) == row
            &&& isa::sprite_col(vx, idx) == col
            &&& forall|p: int|
                0 <= p < 2048 && #[trigger] isa::sprite_row(vy, p) == row && isa::sprite_col(vx, p)
                    == col ==> p == idx
        }),
{
}

/// Display `num_rows`-byte sprite starting at memory location I at (Vx, Vy), set VF = collision.
/// (VF = 1 if XOR rendering of sprite causes pixels to be erased; else 0)
fn drw(emu: &mut Emulator, x: usize, y: usize, num_rows: usize) -> (r: Result<(), EmuError>)
    requires
        old(emu).wf(),
        x < 16,
        y < 16,
        num_rows < 16,
    ensures
        settles(old(emu)@, isa::drw(old(emu)@, x, y, num_rows), r, final(emu)@),
        final(emu).wf(),
{
    if num_rows > 0 && emu.i_register as usize + num_rows > RAM_SIZE {
        return Err(EmuError::AddressOutOfRange);
    }
    // Keep track of whether any pixels were turned off.
    let mut pixels_flipped = false;
    let ghost mut witness: int = 0;
    let ghost pre = emu@;

    // Starting coordinates
    let starting_col: u8 = emu.v_registers[x];
    let starting_row: u8 = emu.v_registers[y];

    // Iterate over sprite rows
    let mut row_offset: usize = 0;
    while row_offset < num_rows
        invariant
            row_offset <= num_rows < 16,
            pre.wf(),
            pre.i + num_rows <= 4096 || num_rows == 0,
            emu@ == (Machine { display: emu@.display, ..pre }),
            forall|p: int|
                0 <= p < 2048 ==> emu@.display[p] == (pre.display[p] ^ covers_so_far(
                    pre,
                    starting_col,
                    starting_row,
                    num_rows,
                    p,
                    row_offset as int,
                    0,
                )),
            pixels_flipped ==> 0 <= witness < 2048 && pre.display[witness] && covers_so_far(
                pre,
                starting_col,
                starting_row,
                num_rows,
                witness,
                row_offset as int,
                0,
            ),
            !pixels_flipped ==> forall|p: int|
                0 <= p < 2048 && #[trigger] covers_so_far(
                    pre,
                    starting_col,
                    starting_row,
                    num_rows,
                    p,
                    row_offset as int,
                    0,
                ) ==> !pre.display[p],
        decreases num_rows - row_offset,
    {
        // Get pixel data for this row
        let row_pixels: u8 = emu.ram[emu.i_register as usize + row_offset];

        // Iterate over sprite cols
        let mut col_offset: u8 = 0;
        while col_offset < 8
            invariant
                col_offset <= 8,
                row_offset < num_rows < 16,
                pre.wf(),
                pre.i + num_rows <= 4096,
                row_pixels == pre.ram[pre.i + row_offset],
                emu@ == (Machine { display: emu@.display, ..pre }),
                forall|p: int|
                    0 <= p < 2048 ==> emu@.display[p] == (pre.display[p] ^ covers_so_far(
                        pre,
                        starting_col,
                        starting_row,
                        num_rows,
                        p,
                        row_offset as int,
                        col_offset as int,
                    )),
                pixels_flipped ==> 0 <= witness < 2048 && pre.display[witness] && covers_so_far(
                    pre,
                    starting_col,
                    starting_row,
                    num_rows,
                    witness,
                    row_offset as int,
                    col_offset as int,
                ),
                !pixels_flipped ==> forall|p: int|
                    0 <= p < 2048 && #[trigger] covers_so_far(
                        pre,
                        starting_col,
                        starting_row,
                        num_rows,
                        p,
                        row_offset as int,
                        col_offset as int,
                    ) ==> !pre.display[p],
            decreases 8 - col_offset,
        {
            proof {
                lemma_landing_pixel(starting_col, starting_row, row_offset as int, col_offset as int);
            }
            // For each set sprite pixel, flip the display pixel it lands on.
            if sprite_bit_set(row_pixels, col_offset) {
                // Wrap sprite around screen.
                let px: usize = (starting_col as usize + col_offset as usize) % 64;
                let py: usize = (starting_row as usize + row_offset) % 32;

                // Get pixel index for screen array.
                let idx: usize = px + 64 * py;

                // Note whether a lit pixel is about to go out, then flip the pixel.
                if emu.display[idx] {
                    pixels_flipped = true;
                    proof {
                        witness = idx as int;
                    }
                }
                emu.display[idx] = !emu.display[idx];
            }
            col_offset += 1;
        }
        row_offset += 1;
    }

    // Set VF = collision.
    set_flag(emu, pixels_flipped);
    proof {
        let want = isa::drw(pre, x, y, num_rows)->Ok_0;
        assert(isa::sprite_collides(pre, starting_col, starting_row, num_rows) == pixels_flipped);
        assert(emu@.display =~= want.display);
    }
    Ok(())
}

} // verus!
