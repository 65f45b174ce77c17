//! Facts about the instruction set that follow from the execution model.
use vstd::prelude::*;

use crate::cpu::{execute_spec, wrap16, CpuState, Instr, VF};
use crate::memory::{blit, cell, collides, hit, sprite_bit, toggle, IoState, MEM_SIZE, PIXEL_ON, PIXELS, WIDTH, HEIGHT};

verus! {

/// Loading an immediate into a register leaves exactly that value there.
pub proof fn lemma_load_immediate(c: CpuState, m: IoState, x: u8, n: u8, rnd: u8)
    requires
        c.v.len() == 16,
        x < 16,
    ensures
        execute_spec(c, m, Instr::LoadImm { x, n }, rnd).0.v[x as int] == n,
{
}

/// Adding registers wraps modulo 256 and sets the flags register to 1
/// exactly when the unsigned sum exceeds 255.
pub proof fn lemma_add_registers(c: CpuState, m: IoState, x: u8, y: u8, rnd: u8)
    requires
        c.v.len() == 16,
        x < 16,
        y < 16,
    ensures
        ({
            let r = execute_spec(c, m, Instr::AddReg { x, y }, rnd).0;
            let sum = c.v[x as int] + c.v[y as int];
            &&& x != VF ==> r.v[x as int] == sum % 256
            &&& r.v[VF as int] == (if sum > 255 { 1u8 } else { 0u8 })
        }),
{
}

/// Subtracting Vy from Vx wraps modulo 256 and clears the flags register
/// exactly when Vx < Vy, that is when the subtraction borrows.
pub proof fn lemma_sub_xy(c: CpuState, m: IoState, x: u8, y: u8, rnd: u8)
    requires
        c.v.len() == 16,
        x < 16,
        y < 16,
    ensures
        ({
            let r = execute_spec(c, m, Instr::SubXY { x, y }, rnd).0;
            &&& x != VF ==> r.v[x as int] == (c.v[x as int] - c.v[y as int]) % 256
            &&& (r.v[VF as int] == 0 <==> c.v[x as int] < c.v[y as int])
            &&& (r.v[VF as int] == 0 || r.v[VF as int] == 1)
        }),
{
}

/// Subtracting Vx from Vy wraps modulo 256 and clears the flags register
/// exactly when Vy < Vx.
pub proof fn lemma_sub_yx(c: CpuState, m: IoState, x: u8, y: u8, rnd: u8)
    requires
        c.v.len() == 16,
        x < 16,
        y < 16,
    ensures
        ({
            let r = execute_spec(c, m, Instr::SubYX { x, y }, rnd).0;
            &&& x != VF ==> r.v[x as int] == (c.v[y as int] - c.v[x as int]) % 256
            &&& (r.v[VF as int] == 0 <==> c.v[y as int] < c.v[x as int])
            &&& (r.v[VF as int] == 0 || r.v[VF as int] == 1)
        }),
{
}

/// A right shift puts the least significant bit that Vx had before the
/// shift into the flags register; a left shift puts the most significant
/// one there. The flags register itself, shifted, keeps no flag.
pub proof fn lemma_shift_flags(c: CpuState, m: IoState, x: u8, rnd: u8)
    requires
        c.v.len() == 16,
        x < 16,
        x != VF,
    ensures
        ({
            let r = execute_spec(c, m, Instr::ShiftRight { x }, rnd).0;
            &&& r.v[VF as int] == c.v[x as int] % 2
            &&& r.v[x as int] == c.v[x as int] / 2
        }),
        ({
            let l = execute_spec(c, m, Instr::ShiftLeft { x }, rnd).0;
            &&& l.v[VF as int] == c.v[x as int] / 128
            &&& l.v[x as int] == (c.v[x as int] * 2) % 256
        }),
{
}

/// Storing 255 as decimal digits writes 2, 5, 5 at I, I+1 and I+2.
pub proof fn lemma_store_bcd_255(c: CpuState, m: IoState, x: u8, rnd: u8)
    requires
        c.v.len() == 16,
        m.mem.len() == MEM_SIZE,
        x < 16,
        c.v[x as int] == 255,
    ensures
        ({
            let mem = execute_spec(c, m, Instr::StoreBcd { x }, rnd).1.mem;
            &&& mem[cell(c.idx as int)] == 2
            &&& mem[cell(c.idx + 1)] == 5
            &&& mem[cell(c.idx + 2)] == 5
        }),
{
}

/// A call followed by a return brings the program counter back to the
/// address after the call instruction (where the counter stood when the call
/// executed) and the stack pointer back where it was.
pub proof fn lemma_call_return(c: CpuState, m: IoState, addr: u16, r1: u8, r2: u8)
    requires
        m.mem.len() == MEM_SIZE,
        addr < 0x1000,
    ensures
        ({
            let (c1, m1) = execute_spec(c, m, Instr::Call { addr }, r1);
            let (c2, m2) = execute_spec(c1, m1, Instr::Return, r2);
            &&& c1.pc == addr
            &&& c2.pc == c.pc
            &&& c2.sp == c.sp
        }),
{
    let (c1, m1) = execute_spec(c, m, Instr::Call { addr }, r1);
    assert(wrap16(c1.sp + 2) == c.sp);
    assert(cell(c.sp - 1) != cell(c.sp as int));
}

/// Drawing a sprite twice over the same display restores it, and the second
/// draw collides exactly when the first one lit some pixel.
pub proof fn lemma_draw_twice(fb: Seq<u32>, mem: Seq<u8>, x: u8, y: u8, n: u8, idx: u16)
    requires
        forall|i: int| 0 <= i < fb.len() ==> #[trigger] fb[i] == 0 || fb[i] == PIXEL_ON,
    ensures
        blit(blit(fb, mem, x, y, n, idx), mem, x, y, n, idx) == fb,
        collides(blit(fb, mem, x, y, n, idx), mem, x, y, n, idx)
            <==> exists|i: int| 0 <= i < fb.len() && #[trigger] hit(mem, x, y, n, idx, i) && fb[i] == 0,
{
    let once = blit(fb, mem, x, y, n, idx);
    assert(blit(once, mem, x, y, n, idx) =~= fb) by {
        assert forall|i: int| 0 <= i < fb.len() implies #[trigger] blit(once, mem, x, y, n, idx)[i] == fb[i] by {
            assert(fb[i] == 0 || fb[i] == PIXEL_ON);
        }
    }
    if collides(once, mem, x, y, n, idx) {
        let i = choose|i: int| 0 <= i < once.len() && #[trigger] hit(mem, x, y, n, idx, i) && once[i] != 0;
        assert(fb[i] == 0 || fb[i] == PIXEL_ON);
    }
    if exists|i: int| 0 <= i < fb.len() && #[trigger] hit(mem, x, y, n, idx, i) && fb[i] == 0 {
        let i = choose|i: int| 0 <= i < fb.len() && #[trigger] hit(mem, x, y, n, idx, i) && fb[i] == 0;
        assert(once[i] != 0);
    }
}

/// In grid coordinates: a pixel (px, py) changes exactly when it lies under
/// a set bit of the sprite, with no wrapping at the edges, and only such
/// pixels can collide. Bits beyond the right or bottom edge touch nothing.
pub proof fn lemma_draw_clipped(fb: Seq<u32>, mem: Seq<u8>, x: u8, y: u8, n: u8, idx: u16)
    requires
        fb.len() == PIXELS,
    ensures
        blit(fb, mem, x, y, n, idx).len() == PIXELS,
        forall|px: int, py: int|
            0 <= px < WIDTH && 0 <= py < HEIGHT ==> {
                let under = x <= px < x + 8 && y <= py < y + n && sprite_bit(mem, idx, py - y, px - x);
                #[trigger] blit(fb, mem, x, y, n, idx)[py * 64 + px]
                    == if under { toggle(fb[py * 64 + px]) } else { fb[py * 64 + px] }
            },
        collides(fb, mem, x, y, n, idx) <==> exists|px: int, py: int|
            0 <= px < WIDTH && 0 <= py < HEIGHT && x <= px < x + 8 && y <= py < y + n
                && #[trigger] sprite_bit(mem, idx, py - y, px - x) && #[trigger] fb[py * 64 + px] != 0,
{
    assert forall|px: int, py: int| 0 <= px < WIDTH && 0 <= py < HEIGHT implies
        (py * 64 + px) % 64 == px && (py * 64 + px) / 64 == py && 0 <= #[trigger] (py * 64 + px) < PIXELS by {
        assert((py * 64 + px) % 64 == px && (py * 64 + px) / 64 == py) by (nonlinear_arith)
            requires 0 <= px < 64, 0 <= py < 32;
    }
    if collides(fb, mem, x, y, n, idx) {
        let i = choose|i: int| 0 <= i < fb.len() && #[trigger] hit(mem, x, y, n, idx, i) && fb[i] != 0;
        let (px, py) = (i % 64, i / 64);
        assert(i == py * 64 + px);
        assert(0 <= px < WIDTH && 0 <= py < HEIGHT && x <= px < x + 8 && y <= py < y + n
            && sprite_bit(mem, idx, py - y, px - x) && fb[py * 64 + px] != 0);
    }
    if exists|px: int, py: int|
        0 <= px < WIDTH && 0 <= py < HEIGHT && x <= px < x + 8 && y <= py < y + n
            && #[trigger] sprite_bit(mem, idx, py - y, px - x) && #[trigger] fb[py * 64 + px] != 0 {
        let (px, py) = choose|px: int, py: int|
            0 <= px < WIDTH && 0 <= py < HEIGHT && x <= px < x + 8 && y <= py < y + n
                && #[trigger] sprite_bit(mem, idx, py - y, px - x) && #[trigger] fb[py * 64 + px] != 0;
        let i = py * 64 + px;
        assert(0 <= i < PIXELS && i % 64 == px && i / 64 == py);
        assert(hit(mem, x, y, n, idx, i) && fb[i] != 0);
    }
}

} // verus!
