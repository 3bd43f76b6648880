//! The instruction set: how an instruction word splits into fields, and the
//! transition that each opcode makes on the model of the machine.
use vstd::prelude::*;
use crate::error::EmuError;
use crate::model::Machine;

verus! {

/// First hexadecimal digit of an instruction word: the opcode family.
pub open spec fn digit1(op: u16) -> int {
    op as int / 4096
}

/// Second digit: most often the register X.
pub open spec fn digit2(op: u16) -> int {
    (op as int / 256) % 16
}

/// Third digit: most often the register Y.
pub open spec fn digit3(op: u16) -> int {
    (op as int / 16) % 16
}

/// Fourth digit.
pub open spec fn digit4(op: u16) -> int {
    op as int % 16
}

/// The low byte of an instruction word, the immediate operand KK.
pub open spec fn low_byte(op: u16) -> u8 {
    (op % 256) as u8
}

/// The low twelve bits of an instruction word, the address NNN.
pub open spec fn low_addr(op: u16) -> u16 {
    (op % 4096) as u16
}

/// 00E0: every pixel off.
pub open spec fn cls(m: Machine) -> Machine {
    Machine { display: Seq::new(2048, |p: int| false), ..m }
}

/// 00EE: the program counter becomes the address on top of the stack, which
/// leaves the stack.
pub open spec fn ret(m: Machine) -> Result<Machine, EmuError> {
    if m.sp == 0 {
        Err(EmuError::StackUnderflow)
    } else if m.stack[m.sp - 1] >= 4096 {
        Err(EmuError::AddressOutOfRange)
    } else {
        Ok(Machine { sp: (m.sp - 1) as u16, pc: m.stack[m.sp - 1], ..m })
    }
}

/// 1nnn: the program counter becomes `addr`.
pub open spec fn jp(m: Machine, addr: u16) -> Machine {
    Machine { pc: addr, ..m }
}

/// 2nnn: the program counter goes on the stack and becomes `addr`.
pub open spec fn call(m: Machine, addr: u16) -> Result<Machine, EmuError> {
    if m.sp < 16 {
        Ok(
            Machine {
                stack: m.stack.update(m.sp as int, m.pc),
                sp: (m.sp + 1) as u16,
                pc: addr,
                ..m
            },
        )
    } else {
        Err(EmuError::StackOverflow)
    }
}

/// 3xkk: skip where Vx equals `byte`.
pub open spec fn se_vx_byte(m: Machine, x: usize, byte: u8) -> Result<Machine, EmuError> {
    m.skip_if(m.v[x as int] == byte)
}

/// 4xkk: skip where Vx differs from `byte`.
pub open spec fn sne_vx_byte(m: Machine, x: usize, byte: u8) -> Result<Machine, EmuError> {
    m.skip_if(m.v[x as int] != byte)
}

/// 5xy0: skip where Vx equals Vy.
pub open spec fn se_vx_vy(m: Machine, x: usize, y: usize) -> Result<Machine, EmuError> {
    m.skip_if(m.v[x as int] == m.v[y as int])
}

/// 9xy0: skip where Vx differs from Vy.
pub open spec fn sne_vx_vy(m: Machine, x: usize, y: usize) -> Result<Machine, EmuError> {
    m.skip_if(m.v[x as int] != m.v[y as int])
}

/// 6xkk: Vx becomes `byte`.
pub open spec fn ld_vx_byte(m: Machine, x: usize, byte: u8) -> Machine {
    m.with_reg(x as int, byte)
}

/// 7xkk: Vx becomes Vx + `byte` modulo 256; VF is not touched.
pub open spec fn add_vx_byte(m: Machine, x: usize, byte: u8) -> Machine {
    m.with_reg(x as int, ((m.v[x as int] + byte) % 256) as u8)
}

/// 8xy0: Vx becomes Vy.
pub open spec fn ld_vx_vy(m: Machine, x: usize, y: usize) -> Machine {
    m.with_reg(x as int, m.v[y as int])
}

/// 8xy1: Vx becomes Vx OR Vy, bit by bit.
pub open spec fn or(m: Machine, x: usize, y: usize) -> Machine {
    m.with_reg(x as int, m.v[x as int] | m.v[y as int])
}

/// 8xy2: Vx becomes Vx AND Vy, bit by bit.
pub open spec fn and(m: Machine, x: usize, y: usize) -> Machine {
    m.with_reg(x as int, m.v[x as int] & m.v[y as int])
}

/// 8xy3: Vx becomes Vx XOR Vy, bit by bit.
pub open spec fn xor(m: Machine, x: usize, y: usize) -> Machine {
    m.with_reg(x as int, m.v[x as int] ^ m.v[y as int])
}

/// 8xy4: Vx becomes Vx + Vy modulo 256, then VF says whether the sum
/// exceeded 255.
pub open spec fn add_vx_vy(m: Machine, x: usize, y: usize) -> Machine {
    let sum = m.v[x as int] + m.v[y as int];
    m.with_reg(x as int, (sum % 256) as u8).with_flag(sum > 255)
}

/// 8xy5: Vx becomes Vx - Vy modulo 256, then VF says whether Vx was at
/// least Vy.
pub open spec fn sub_vx_vy(m: Machine, x: usize, y: usize) -> Machine {
    let vx = m.v[x as int];
    let vy = m.v[y as int];
    m.with_reg(x as int, ((vx - vy) % 256) as u8).with_flag(vx >= vy)
}

/// 8xy7: Vx becomes Vy - Vx modulo 256, then VF says whether Vy was at
/// least Vx.
pub open spec fn subn_vx_vy(m: Machine, x: usize, y: usize) -> Machine {
    let vx = m.v[x as int];
    let vy = m.v[y as int];
    m.with_reg(x as int, ((vy - vx) % 256) as u8).with_flag(vy >= vx)
}

/// 8xy6: Vx is halved, then VF holds the bit that fell off.
pub open spec fn shr(m: Machine, x: usize) -> Machine {
    let vx = m.v[x as int];
    m.with_reg(x as int, (vx / 2) as u8).with_flag(vx % 2 == 1)
}

/// 8xyE: Vx is doubled modulo 256, then VF holds the bit that fell off.
pub open spec fn shl(m: Machine, x: usize) -> Machine {
    let vx = m.v[x as int];
    m.with_reg(x as int, ((vx * 2) % 256) as u8).with_flag(vx >= 128)
}

/// Annn: I becomes `addr`.
pub open spec fn ld_i_addr(m: Machine, addr: u16) -> Machine {
    Machine { i: addr, ..m }
}

/// Bnnn: the program counter becomes `addr` + V0, which must lie in memory.
pub open spec fn jp_v0(m: Machine, addr: u16) -> Result<Machine, EmuError> {
    if addr + m.v[0] < 4096 {
        Ok(Machine { pc: (addr + m.v[0]) as u16, ..m })
    } else {
        Err(EmuError::AddressOutOfRange)
    }
}

/// Cxkk: Vx becomes the byte `sample` AND `byte`.
pub open spec fn rnd(m: Machine, x: usize, byte: u8, sample: u8) -> Machine {
    m.with_reg(x as int, sample & byte)
}

/// Ex9E: skip where the key whose number Vx holds is pressed.
pub open spec fn skp(m: Machine, x: usize) -> Result<Machine, EmuError> {
    if m.v[x as int] < 16 {
        m.skip_if(m.keys[m.v[x as int] as int])
    } else {
        Err(EmuError::IndexOutOfRange)
    }
}

/// ExA1: skip where the key whose number Vx holds is not pressed.
pub open spec fn sknp(m: Machine, x: usize) -> Result<Machine, EmuError> {
    if m.v[x as int] < 16 {
        m.skip_if(!m.keys[m.v[x as int] as int])
    } else {
        Err(EmuError::IndexOutOfRange)
    }
}

/// Fx07: Vx becomes the delay timer.
pub open spec fn ld_vx_dt(m: Machine, x: usize) -> Machine {
    m.with_reg(x as int, m.delay)
}

/// The lowest pressed key among the keys from `from` on, if there is one.
pub open spec fn lowest_pressed(keys: Seq<bool>, from: int) -> Option<int>
    decreases 16 - from,
{
    if from < 0 || from >= 16 {
        None
    } else if keys[from] {
        Some(from)
    } else {
        lowest_pressed(keys, from + 1)
    }
}

/// Fx0A: with a key pressed, Vx becomes the lowest pressed key's number.
/// With none, the program counter steps back by one instruction, so that
/// this one is fetched again.
pub open spec fn ld_vx_k(m: Machine, x: usize) -> Result<Machine, EmuError> {
    match lowest_pressed(m.keys, 0) {
        Some(k) => Ok(m.with_reg(x as int, k as u8)),
        None => if m.pc >= 2 {
            Ok(Machine { pc: (m.pc - 2) as u16, ..m })
        } else {
            Err(EmuError::AddressOutOfRange)
        },
    }
}

/// Fx15: the delay timer becomes Vx.
pub open spec fn ld_dt_vx(m: Machine, x: usize) -> Machine {
    Machine { delay: m.v[x as int], ..m }
}

/// Fx18: the sound timer becomes Vx.
pub open spec fn ld_st_vx(m: Machine, x: usize) -> Machine {
    Machine { sound: m.v[x as int], ..m }
}

/// Fx1E: I becomes I + Vx modulo 65536.
pub open spec fn add_i_vx(m: Machine, x: usize) -> Machine {
    Machine { i: ((m.i + m.v[x as int]) % 65536) as u16, ..m }
}

/// Fx29: I becomes the address of the glyph for Vx, five bytes per glyph.
pub open spec fn ld_f_vx(m: Machine, x: usize) -> Machine {
    Machine { i: (m.v[x as int] * 5) as u16, ..m }
}

/// Fx33: the decimal digits of Vx go to memory at I, I+1 and I+2: hundreds,
/// tens, ones.
pub open spec fn ld_b_vx(m: Machine, x: usize) -> Result<Machine, EmuError> {
    let vx = m.v[x as int];
    if m.i + 2 < 4096 {
        Ok(
            Machine {
                ram: m.ram.update(m.i as int, (vx / 100) as u8).update(
                    m.i + 1,
                    ((vx / 10) % 10) as u8,
                ).update(m.i + 2, (vx % 10) as u8),
                ..m
            },
        )
    } else {
        Err(EmuError::AddressOutOfRange)
    }
}

/// Fx55: V0 to Vx go to memory from I on.
pub open spec fn ld_i_vx(m: Machine, x: usize) -> Result<Machine, EmuError> {
    if m.i + x < 4096 {
        Ok(
            Machine {
                ram: Seq::new(
                    4096,
                    |a: int|
                        if m.i <= a <= m.i + x {
                            m.v[a - m.i]
                        } else {
                            m.ram[a]
                        },
                ),
                ..m
            },
        )
    } else {
        Err(EmuError::AddressOutOfRange)
    }
}

/// Fx65: V0 to Vx are read from memory from I on.
pub open spec fn ld_vx_i(m: Machine, x: usize) -> Result<Machine, EmuError> {
    if m.i + x < 4096 {
        Ok(
            Machine {
                v: Seq::new(
                    16,
                    |r: int|
                        if r <= x {
                            m.ram[m.i + r]
                        } else {
                            m.v[r]
                        },
                ),
                ..m
            },
        )
    } else {
        Err(EmuError::AddressOutOfRange)
    }
}

/// Whether the pixel in column `col` of a sprite row is set; column 0 is
/// the most significant bit of the row's byte.
pub open spec fn sprite_bit(row_pixels: u8, col: u8) -> bool {
    row_pixels & (0x80u8 >> col) != 0
}

/// The sprite row that lands on the display pixel `p` when the sprite's top
/// row is drawn on display row `vy`: rows wrap round the 32 display rows.
pub open spec fn sprite_row(vy: u8, p: int) -> int {
    (p / 64 - vy) % 32
}

/// The sprite column that lands on the display pixel `p` when the sprite's
/// left column is drawn on display column `vx`: columns wrap round the 64
/// display columns.
pub open spec fn sprite_col(vx: u8, p: int) -> int {
    (p % 64 - vx) % 64
}

/// Whether the sprite of `n` rows at I, drawn with its top left corner at
/// column `vx` and row `vy`, has a set pixel on the display pixel `p`.
/// Coordinates wrap round the 64 columns and the 32 rows.
pub open spec fn sprite_covers(m: Machine, vx: u8, vy: u8, n: usize, p: int) -> bool {
    let row = sprite_row(vy, p);
    let col = sprite_col(vx, p);
    row < n && col < 8 && sprite_bit(m.ram[m.i + row], col as u8)
}

/// The display after the sprite has been drawn: each pixel that the sprite
/// covers is flipped, the others stay.
pub open spec fn drawn_display(m: Machine, vx: u8, vy: u8, n: usize) -> Seq<bool> {
    Seq::new(2048, |p: int| m.display[p] ^ sprite_covers(m, vx, vy, n, p))
}

/// Whether drawing the sprite turns a pixel off that was on.
pub open spec fn sprite_collides(m: Machine, vx: u8, vy: u8, n: usize) -> bool {
    exists|p: int| 0 <= p < 2048 && m.display[p] && #[trigger] sprite_covers(m, vx, vy, n, p)
}

/// Dxyn: the sprite of `n` rows at I is drawn at column Vx and row Vy by
/// exclusive or, and VF says whether a pixel was turned off.
pub open spec fn drw(m: Machine, x: usize, y: usize, n: usize) -> Result<Machine, EmuError> {
    let vx = m.v[x as int];
    let vy = m.v[y as int];
    if n == 0 || m.i + n <= 4096 {
        Ok(
            Machine { display: drawn_display(m, vx, vy, n), ..m }.with_flag(
                sprite_collides(m, vx, vy, n),
            ),
        )
    } else {
        Err(EmuError::AddressOutOfRange)
    }
}

/// The transition that the instruction word `op` makes. `sample` is the
/// random byte, read by Cxkk only. A word that matches no opcode gives
/// `UnsupportedOpcode`.
pub open spec fn execute(m: Machine, op: u16, sample: u8) -> Result<Machine, EmuError> {
    let d1 = digit1(op);
    let x = digit2(op) as usize;
    let y = digit3(op) as usize;
    let d4 = digit4(op);
    let kk = low_byte(op);
    let nnn = low_addr(op);
    if op == 0x0000 {
        Ok(m)
    } else if op == 0x00E0 {
        Ok(cls(m))
    } else if op == 0x00EE {
        ret(m)
    } else if d1 == 0x1 {
        Ok(jp(m, nnn))
    } else if d1 == 0x2 {
        call(m, nnn)
    } else if d1 == 0x3 {
        se_vx_byte(m, x, kk)
    } else if d1 == 0x4 {
        sne_vx_byte(m, x, kk)
    } else if d1 == 0x5 && d4 == 0x0 {
        se_vx_vy(m, x, y)
    } else if d1 == 0x6 {
        Ok(ld_vx_byte(m, x, kk))
    } else if d1 == 0x7 {
        Ok(add_vx_byte(m, x, kk))
    } else if d1 == 0x8 && d4 == 0x0 {
        Ok(ld_vx_vy(m, x, y))
    } else if d1 == 0x8 && d4 == 0x1 {
        Ok(or(m, x, y))
    } else if d1 == 0x8 && d4 == 0x2 {
        Ok(and(m, x, y))
    } else if d1 == 0x8 && d4 == 0x3 {
        Ok(xor(m, x, y))
    } else if d1 == 0x8 && d4 == 0x4 {
        Ok(add_vx_vy(m, x, y))
    } else if d1 == 0x8 && d4 == 0x5 {
        Ok(sub_vx_vy(m, x, y))
    } else if d1 == 0x8 && d4 == 0x6 {
        Ok(shr(m, x))
    } else if d1 == 0x8 && d4 == 0x7 {
        Ok(subn_vx_vy(m, x, y))
    } else if d1 == 0x8 && d4 == 0xE {
        Ok(shl(m, x))
    } else if d1 == 0x9 && d4 == 0x0 {
        sne_vx_vy(m, x, y)
    } else if d1 == 0xA {
        Ok(ld_i_addr(m, nnn))
    } else if d1 == 0xB {
        jp_v0(m, nnn)
    } else if d1 == 0xC {
        Ok(rnd(m, x, kk, sample))
    } else if d1 == 0xD {
        drw(m, x, y, d4 as usize)
    } else if d1 == 0xE && kk == 0x9E {
        skp(m, x)
    } else if d1 == 0xE && kk == 0xA1 {
        sknp(m, x)
    } else if d1 == 0xF && kk == 0x07 {
        Ok(ld_vx_dt(m, x))
    } else if d1 == 0xF && kk == 0x0A {
        ld_vx_k(m, x)
    } else if d1 == 0xF && kk == 0x15 {
        Ok(ld_dt_vx(m, x))
    } else if d1 == 0xF && kk == 0x18 {
        Ok(ld_st_vx(m, x))
    } else if d1 == 0xF && kk == 0x1E {
        Ok(add_i_vx(m, x))
    } else if d1 == 0xF && kk == 0x29 {
        Ok(ld_f_vx(m, x))
    } else if d1 == 0xF && kk == 0x33 {
        ld_b_vx(m, x)
    } else if d1 == 0xF && kk == 0x55 {
        ld_i_vx(m, x)
    } else if d1 == 0xF && kk == 0x65 {
        ld_vx_i(m, x)
    } else {
        Err(EmuError::UnsupportedOpcode(op))
    }
}

/// Whether the random byte enters into what `op` does.
pub open spec fn reads_sample(op: u16) -> bool {
    digit1(op) == 0xC
}

/// One step: fetch the word at the program counter, then execute it.
pub open spec fn step(m: Machine, sample: u8) -> Result<Machine, EmuError> {
    match crate::model::fetch(m) {
        Ok((fetched, op)) => execute(fetched, op, sample),
        Err(e) => Err(e),
    }
}

} // verus!
