//! What holds of the instruction set as a whole, proved over the model.
use vstd::prelude::*;
use crate::error::EmuError;
use crate::isa;
use crate::model;
use crate::model::Machine;

verus! {

/// A byte loaded into a register is the byte that the register then holds,
/// and no other register changes.
pub proof fn law_load_then_read(m: Machine, x: usize, byte: u8)
    requires
        m.wf(),
        x < 16,
    ensures
        isa::ld_vx_byte(m, x, byte).v[x as int] == byte,
        forall|other: int|
            0 <= other < 16 && other != x ==> isa::ld_vx_byte(m, x, byte).v[other] == m.v[other],
        isa::execute(m, (0x6000 + 256 * x + byte) as u16, 0) == Ok::<Machine, EmuError>(
            isa::ld_vx_byte(m, x, byte),
        ),
{
}

/// A call followed by a return brings the program counter back to where
/// it stood at the call, which is the instruction after the call, and the
/// stack pointer back to its value before. Only the stack entry that held
/// the return address differs.
pub proof fn law_call_then_return(m: Machine, addr: u16)
    requires
        m.wf(),
        m.sp < 16,
        addr < 4096,
    ensures
        isa::call(m, addr) is Ok,
        isa::call(m, addr)->Ok_0.pc == addr,
        isa::ret(isa::call(m, addr)->Ok_0) == Ok::<Machine, EmuError>(
            Machine { stack: m.stack.update(m.sp as int, m.pc), ..m },
        ),
        isa::ret(isa::call(m, addr)->Ok_0)->Ok_0.pc == m.pc,
        isa::ret(isa::call(m, addr)->Ok_0)->Ok_0.sp == m.sp,
{
}

/// Two steps, the first on a call instruction and the second on a return
/// instruction at the called address, leave the program counter on the
/// instruction after the call and the stack pointer where it was.
pub proof fn law_subroutine_round_trip(m: Machine, sample: u8)
    requires
        m.wf(),
        m.pc + 2 < 4096,
        m.sp < 16,
        isa::digit1(model::fetch_word(m)) == 0x2,
        isa::low_addr(model::fetch_word(m)) + 2 < 4096,
        m.ram[isa::low_addr(model::fetch_word(m)) as int] == 0x00,
        m.ram[isa::low_addr(model::fetch_word(m)) + 1] == 0xEE,
    ensures
        isa::step(m, sample) is Ok,
        isa::step(m, sample)->Ok_0.pc == isa::low_addr(model::fetch_word(m)),
        isa::step(m, sample)->Ok_0.sp == m.sp + 1,
        isa::step(isa::step(m, sample)->Ok_0, sample) is Ok,
        isa::step(isa::step(m, sample)->Ok_0, sample)->Ok_0.pc == m.pc + 2,
        isa::step(isa::step(m, sample)->Ok_0, sample)->Ok_0.sp == m.sp,
{
    let op = model::fetch_word(m);
    let fetched = Machine { pc: (m.pc + 2) as u16, ..m };
    assert(isa::step(m, sample) == isa::execute(fetched, op, sample));
    assert(isa::execute(fetched, op, sample) == isa::call(fetched, isa::low_addr(op)));
    let called = isa::call(fetched, isa::low_addr(op))->Ok_0;
    assert(model::fetch_word(called) == 0x00EE);
    let refetched = Machine { pc: (called.pc + 2) as u16, ..called };
    assert(isa::step(called, sample) == isa::execute(refetched, 0x00EE, sample));
}

/// A push followed by a pop hands the pushed value back and leaves the
/// stack pointer where it was.
pub proof fn law_push_then_pop(m: Machine, val: u16)
    requires
        m.wf(),
        m.sp < 16,
    ensures
        model::push(m, val) is Ok,
        model::pop(model::push(m, val)->Ok_0) is Ok,
        model::pop(model::push(m, val)->Ok_0)->Ok_0.1 == val,
        model::pop(model::push(m, val)->Ok_0)->Ok_0.0.sp == m.sp,
{
}

/// The sprite pixel in row `row` and column `col` lands on the display
/// column `(vx + col) mod 64` and the display row `(vy + row) mod 32`: a
/// sprite that reaches past an edge comes back in at the opposite edge,
/// and none of its pixels is dropped.
pub proof fn law_sprite_wraps(m: Machine, vx: u8, vy: u8, n: usize, row: int, col: int)
    requires
        m.wf(),
        0 <= row < n < 16,
        0 <= col < 8,
    ensures
        ({
            let p = (vx + col) % 64 + 64 * ((vy + row) % 32);
            &&& 0 <= p < 2048
            &&& isa::sprite_covers(m, vx, vy, n, p) == isa::sprite_bit(
                m.ram[m.i + row],
                col as u8,
            )
            &&& isa::drawn_display(m, vx, vy, n)[p] == (m.display[p] ^ isa::sprite_bit(
                m.ram[m.i + row],
                col as u8,
            ))
        }),
{
}

/// Drawing a sprite twice at the same coordinates gives the display back
/// as it was. Every pixel that the sprite covers and that was off is on
/// after the first draw and off again after the second, and where there
/// is such a pixel the second draw reports a collision: VF is 1.
pub proof fn law_draw_twice(m: Machine, x: usize, y: usize, n: usize)
    requires
        m.wf(),
        x < 16,
        y < 16,
        n < 16,
        isa::drw(m, x, y, n) is Ok,
        isa::drw(m, x, y, n)->Ok_0.v[x as int] == m.v[x as int],
        isa::drw(m, x, y, n)->Ok_0.v[y as int] == m.v[y as int],
    ensures
        isa::drw(isa::drw(m, x, y, n)->Ok_0, x, y, n) is Ok,
        isa::drw(isa::drw(m, x, y, n)->Ok_0, x, y, n)->Ok_0.display == m.display,
        forall|p: int|
            0 <= p < 2048 && #[trigger] isa::sprite_covers(
                m,
                m.v[x as int],
                m.v[y as int],
                n,
                p,
            ) && !m.display[p] ==> isa::drw(m, x, y, n)->Ok_0.display[p] && !isa::drw(
                isa::drw(m, x, y, n)->Ok_0,
                x,
                y,
                n,
            )->Ok_0.display[p],
        (exists|p: int|
            0 <= p < 2048 && #[trigger] isa::sprite_covers(
                m,
                m.v[x as int],
                m.v[y as int],
                n,
                p,
            ) && !m.display[p]) ==> isa::drw(isa::drw(m, x, y, n)->Ok_0, x, y, n)->Ok_0.v[0xF]
            == 1,
{
    let vx = m.v[x as int];
    let vy = m.v[y as int];
    let first = isa::drw(m, x, y, n)->Ok_0;
    let second = isa::drw(first, x, y, n)->Ok_0;
    assert forall|p: int| 0 <= p < 2048 implies isa::sprite_covers(first, vx, vy, n, p)
        == isa::sprite_covers(m, vx, vy, n, p) by {}
    assert(second.display =~= m.display);
    if exists|p: int|
        0 <= p < 2048 && #[trigger] isa::sprite_covers(m, vx, vy, n, p) && !m.display[p] {
        let p = choose|p: int|
            0 <= p < 2048 && #[trigger] isa::sprite_covers(m, vx, vy, n, p) && !m.display[p];
        assert(first.display[p] && isa::sprite_covers(first, vx, vy, n, p));
        assert(isa::sprite_collides(first, vx, vy, n));
    }
}

/// The timers never rise on a tick, and with both at zero a tick changes
/// nothing.
pub proof fn law_timers_run_down(m: Machine)
    ensures
        model::tick_timers(m).delay <= m.delay,
        model::tick_timers(m).sound <= m.sound,
        m.delay > 0 ==> model::tick_timers(m).delay == m.delay - 1,
        m.sound > 0 ==> model::tick_timers(m).sound == m.sound - 1,
        m.delay == 0 && m.sound == 0 ==> model::tick_timers(m) == m,
{
}

/// The key that Fx0A stores is pressed and no key below it is; it stores
/// none exactly where no key is pressed.
pub proof fn law_lowest_pressed(keys: Seq<bool>, from: int)
    requires
        keys.len() == 16,
        0 <= from <= 16,
    ensures
        match isa::lowest_pressed(keys, from) {
            Some(k) => from <= k < 16 && keys[k] && forall|j: int| from <= j < k ==> !keys[j],
            None => forall|j: int| from <= j < 16 ==> !keys[j],
        },
    decreases 16 - from,
{
    if from < 16 && !keys[from] {
        law_lowest_pressed(keys, from + 1);
    }
}

/// Every instruction that succeeds leaves the machine in a state that
/// meets the invariant.
pub proof fn law_execute_keeps_wf(m: Machine, op: u16, sample: u8)
    requires
        m.wf(),
        isa::execute(m, op, sample) is Ok,
    ensures
        isa::execute(m, op, sample)->Ok_0.wf(),
{
    if isa::digit1(op) == 0xF && isa::low_byte(op) == 0x0A {
        law_lowest_pressed(m.keys, 0);
    }
}

/// Only Cxkk reads the random byte: every other instruction word makes
/// the same transition whatever the byte.
pub proof fn law_sample_only_in_rnd(m: Machine, op: u16, s1: u8, s2: u8)
    requires
        !isa::reads_sample(op),
    ensures
        isa::execute(m, op, s1) == isa::execute(m, op, s2),
{
}

} // verus!
