//! The processor: registers, timers, instruction decoding and execution.
use vstd::prelude::*;
use vstd::arithmetic::div_mod::lemma_mod_mod;

use crate::memory::{
    blank_display, blit, cell, collides, IO, IoState, CHAR_FONT_ADDR, MEM_SIZE, ROM_START_ADDR,
};

verus! {

/// Number of steps between two decrements of the timers.
pub const TICK_CYCLE: u8 = 60;

/// Initial value of the stack pointer; the stack grows downward from there.
pub const STACK_TOP: u16 = 0xEFF;

/// Index of the register that doubles as the flags register.
pub const VF: u8 = 15;

/// The value of `i` as a 16-bit word, wrapping around.
pub open spec fn wrap16(i: int) -> u16 {
    (i % 0x10000) as u16
}

/// The value of `i` as a byte, wrapping around.
pub open spec fn wrap8(i: int) -> u8 {
    (i % 0x100) as u8
}

/// A decoded instruction. Register operands `x` and `y` select V0 to VF.
#[derive(Clone, Copy, Debug, PartialEq, Eq, Structural)]
pub enum Instr {
    /// `00E0`: turn every pixel off.
    ClearDisplay,
    /// `00EE`: pop the return address off the stack.
    Return,
    /// `0nnn`: call native machine code (not supported).
    MachineCode { addr: u16 },
    /// `1nnn`: jump to `addr`.
    Jump { addr: u16 },
    /// `2nnn`: push the program counter and jump to `addr`.
    Call { addr: u16 },
    /// `3xnn`: skip the next instruction if Vx == n.
    SkipEqImm { x: u8, n: u8 },
    /// `4xnn`: skip the next instruction if Vx != n.
    SkipNeImm { x: u8, n: u8 },
    /// `5xy0`: skip the next instruction if Vx == Vy.
    SkipEqReg { x: u8, y: u8 },
    /// `6xnn`: Vx := n.
    LoadImm { x: u8, n: u8 },
    /// `7xnn`: Vx := Vx + n, wrapping; flags untouched.
    AddImm { x: u8, n: u8 },
    /// `8xy0`: Vx := Vy.
    Move { x: u8, y: u8 },
    /// `8xy1`: Vx := Vx | Vy.
    Or { x: u8, y: u8 },
    /// `8xy2`: Vx := Vx & Vy.
    And { x: u8, y: u8 },
    /// `8xy3`: Vx := Vx ^ Vy.
    Xor { x: u8, y: u8 },
    /// `8xy4`: Vx := Vx + Vy, wrapping; VF := carry.
    AddReg { x: u8, y: u8 },
    /// `8xy5`: Vx := Vx - Vy, wrapping; VF := 0 on borrow, else 1.
    SubXY { x: u8, y: u8 },
    /// `8xy6`: VF := low bit of Vx, then Vx := Vx >> 1.
    ShiftRight { x: u8 },
    /// `8xy7`: Vx := Vy - Vx, wrapping; VF := 0 on borrow, else 1.
    SubYX { x: u8, y: u8 },
    /// `8xyE`: VF := high bit of Vx, then Vx := Vx << 1.
    ShiftLeft { x: u8 },
    /// `9xy0`: skip the next instruction if Vx != Vy.
    SkipNeReg { x: u8, y: u8 },
    /// `Annn`: I := addr.
    SetIndex { addr: u16 },
    /// `Bnnn`: jump to V0 + addr.
    JumpOffset { addr: u16 },
    /// `Cxnn`: Vx := random byte & n.
    Random { x: u8, n: u8 },
    /// `Dxyn`: draw an n-row sprite from I at (Vx, Vy); VF := collision.
    Draw { x: u8, y: u8, n: u8 },
    /// `Ex9E`: skip the next instruction if the pressed key is Vx.
    SkipKey { x: u8 },
    /// `ExA1`: skip the next instruction unless the pressed key is Vx.
    SkipNotKey { x: u8 },
    /// `Fx07`: Vx := delay timer.
    ReadDelay { x: u8 },
    /// `Fx15`: delay timer := Vx.
    SetDelay { x: u8 },
    /// `Fx18`: sound timer := Vx.
    SetSound { x: u8 },
    /// `Fx1E`: I := I + Vx, wrapping at 16 bits.
    AddIndex { x: u8 },
    /// `Fx29`: I := address of the font glyph for digit Vx.
    SpriteAddress { x: u8 },
    /// `Fx33`: store the decimal digits of Vx at I, I+1, I+2.
    StoreBcd { x: u8 },
    /// `Fx55`: store V0..=Vx from I on.
    RegDump { x: u8 },
    /// `Fx65`: load V0..=Vx from I on.
    RegLoad { x: u8 },
}

impl Instr {
    /// Instructions that only read and write registers.
    pub open spec fn is_register_op(&self) -> bool {
        match *self {
            Instr::LoadImm { .. }
            | Instr::AddImm { .. }
            | Instr::Move { .. }
            | Instr::Or { .. }
            | Instr::And { .. }
            | Instr::Xor { .. }
            | Instr::AddReg { .. }
            | Instr::SubXY { .. }
            | Instr::SubYX { .. }
            | Instr::ShiftRight { .. }
            | Instr::ShiftLeft { .. }
            | Instr::Random { .. } => true,
            _ => false,
        }
    }

    /// Instructions that decide where control goes next.
    pub open spec fn is_control_op(&self) -> bool {
        match *self {
            Instr::ClearDisplay
            | Instr::Return
            | Instr::MachineCode { .. }
            | Instr::Jump { .. }
            | Instr::Call { .. }
            | Instr::SkipEqImm { .. }
            | Instr::SkipNeImm { .. }
            | Instr::SkipEqReg { .. }
            | Instr::SkipNeReg { .. }
            | Instr::JumpOffset { .. }
            | Instr::SkipKey { .. }
            | Instr::SkipNotKey { .. } => true,
            _ => false,
        }
    }

    fn register_op(&self) -> (r: bool)
        ensures
            r == self.is_register_op(),
    {
        match self {
            Instr::LoadImm { .. }
            | Instr::AddImm { .. }
            | Instr::Move { .. }
            | Instr::Or { .. }
            | Instr::And { .. }
            | Instr::Xor { .. }
            | Instr::AddReg { .. }
            | Instr::SubXY { .. }
            | Instr::SubYX { .. }
            | Instr::ShiftRight { .. }
            | Instr::ShiftLeft { .. }
            | Instr::Random { .. } => true,
            _ => false,
        }
    }

    fn control_op(&self) -> (r: bool)
        ensures
            r == self.is_control_op(),
    {
        match self {
            Instr::ClearDisplay
            | Instr::Return
            | Instr::MachineCode { .. }
            | Instr::Jump { .. }
            | Instr::Call { .. }
            | Instr::SkipEqImm { .. }
            | Instr::SkipNeImm { .. }
            | Instr::SkipEqReg { .. }
            | Instr::SkipNeReg { .. }
            | Instr::JumpOffset { .. }
            | Instr::SkipKey { .. }
            | Instr::SkipNotKey { .. } => true,
            _ => false,
        }
    }

    /// Register operands name one of the sixteen registers.
    pub open spec fn wf(&self) -> bool {
        match *self {
            Instr::SkipEqImm { x, .. } | Instr::SkipNeImm { x, .. } | Instr::LoadImm { x, .. }
            | Instr::AddImm { x, .. } | Instr::ShiftRight { x } | Instr::ShiftLeft { x }
            | Instr::Random { x, .. } | Instr::SkipKey { x } | Instr::SkipNotKey { x }
            | Instr::ReadDelay { x } | Instr::SetDelay { x } | Instr::SetSound { x }
            | Instr::AddIndex { x } | Instr::SpriteAddress { x } | Instr::StoreBcd { x }
            | Instr::RegDump { x } | Instr::RegLoad { x } => x < 16,
            Instr::SkipEqReg { x, y } | Instr::Move { x, y } | Instr::Or { x, y }
            | Instr::And { x, y } | Instr::Xor { x, y } | Instr::AddReg { x, y }
            | Instr::SubXY { x, y } | Instr::SubYX { x, y } | Instr::SkipNeReg { x, y }
            | Instr::Draw { x, y, .. } => x < 16 && y < 16,
            Instr::MachineCode { addr } | Instr::Jump { addr } | Instr::Call { addr }
            | Instr::SetIndex { addr } | Instr::JumpOffset { addr } => addr < 0x1000,
            _ => true,
        }
    }
}

/// The instruction that the word `op` encodes, if any. The four nibbles are
/// read from the most significant one down.
pub open spec fn decode_spec(op: u16) -> Option<Instr> {
    let a = op >> 12u16;
    let x = ((op >> 8u16) & 0xF) as u8;
    let y = ((op >> 4u16) & 0xF) as u8;
    let n = (op & 0xF) as u8;
    let nn = (op & 0xFF) as u8;
    let nnn = op & 0xFFF;
    if op == 0x00E0 {
        Some(Instr::ClearDisplay)
    } else if op == 0x00EE {
        Some(Instr::Return)
    } else if a == 0 {
        Some(Instr::MachineCode { addr: nnn })
    } else if a == 1 {
        Some(Instr::Jump { addr: nnn })
    } else if a == 2 {
        Some(Instr::Call { addr: nnn })
    } else if a == 3 {
        Some(Instr::SkipEqImm { x, n: nn })
    } else if a == 4 {
        Some(Instr::SkipNeImm { x, n: nn })
    } else if a == 5 && n == 0 {
        Some(Instr::SkipEqReg { x, y })
    } else if a == 6 {
        Some(Instr::LoadImm { x, n: nn })
    } else if a == 7 {
        Some(Instr::AddImm { x, n: nn })
    } else if a == 8 && n == 0 {
        Some(Instr::Move { x, y })
    } else if a == 8 && n == 1 {
        Some(Instr::Or { x, y })
    } else if a == 8 && n == 2 {
        Some(Instr::And { x, y })
    } else if a == 8 && n == 3 {
        Some(Instr::Xor { x, y })
    } else if a == 8 && n == 4 {
        Some(Instr::AddReg { x, y })
    } else if a == 8 && n == 5 {
        Some(Instr::SubXY { x, y })
    } else if a == 8 && n == 6 {
        Some(Instr::ShiftRight { x })
    } else if a == 8 && n == 7 {
        Some(Instr::SubYX { x, y })
    } else if a == 8 && n == 0xE {
        Some(Instr::ShiftLeft { x })
    } else if a == 9 && n == 0 {
        Some(Instr::SkipNeReg { x, y })
    } else if a == 0xA {
        Some(Instr::SetIndex { addr: nnn })
    } else if a == 0xB {
        Some(Instr::JumpOffset { addr: nnn })
    } else if a == 0xC {
        Some(Instr::Random { x, n: nn })
    } else if a == 0xD {
        Some(Instr::Draw { x, y, n })
    } else if a == 0xE && nn == 0x9E {
        Some(Instr::SkipKey { x })
    } else if a == 0xE && nn == 0xA1 {
        Some(Instr::SkipNotKey { x })
    } else if a == 0xF && nn == 0x07 {
        Some(Instr::ReadDelay { x })
    } else if a == 0xF && nn == 0x15 {
        Some(Instr::SetDelay { x })
    } else if a == 0xF && nn == 0x18 {
        Some(Instr::SetSound { x })
    } else if a == 0xF && nn == 0x1E {
        Some(Instr::AddIndex { x })
    } else if a == 0xF && nn == 0x29 {
        Some(Instr::SpriteAddress { x })
    } else if a == 0xF && nn == 0x33 {
        Some(Instr::StoreBcd { x })
    } else if a == 0xF && nn == 0x55 {
        Some(Instr::RegDump { x })
    } else if a == 0xF && nn == 0x65 {
        Some(Instr::RegLoad { x })
    } else {
        None
    }
}

/// Decodes the instruction word `op`.
pub fn decode(op: u16) -> (r: Option<Instr>)
    ensures
        r == decode_spec(op),
        r matches Some(ins) ==> ins.wf(),
{
    let a = op >> 12u16;
    let x = ((op >> 8u16) & 0xF) as u8;
    let y = ((op >> 4u16) & 0xF) as u8;
    let n = (op & 0xF) as u8;
    let nn = (op & 0xFF) as u8;
    let nnn = op & 0xFFF;
    assert(x < 16 && y < 16 && nnn < 0x1000) by (bit_vector)
        requires
            x == ((op >> 8u16) & 0xF) as u8,
            y == ((op >> 4u16) & 0xF) as u8,
            nnn == op & 0xFFF,
    ;
    if op == 0x00E0 {
        Some(Instr::ClearDisplay)
    } else if op == 0x00EE {
        Some(Instr::Return)
    } else if a == 0 {
        Some(Instr::MachineCode { addr: nnn })
    } else if a == 1 {
        Some(Instr::Jump { addr: nnn })
    } else if a == 2 {
        Some(Instr::Call { addr: nnn })
    } else if a == 3 {
        Some(Instr::SkipEqImm { x, n: nn })
    } else if a == 4 {
        Some(Instr::SkipNeImm { x, n: nn })
    } else if a == 5 && n == 0 {
        Some(Instr::SkipEqReg { x, y })
    } else if a == 6 {
        Some(Instr::LoadImm { x, n: nn })
    } else if a == 7 {
        Some(Instr::AddImm { x, n: nn })
    } else if a == 8 && n == 0 {
        Some(Instr::Move { x, y })
    } else if a == 8 && n == 1 {
        Some(Instr::Or { x, y })
    } else if a == 8 && n == 2 {
        Some(Instr::And { x, y })
    } else if a == 8 && n == 3 {
        Some(Instr::Xor { x, y })
    } else if a == 8 && n == 4 {
        Some(Instr::AddReg { x, y })
    } else if a == 8 && n == 5 {
        Some(Instr::SubXY { x, y })
    } else if a == 8 && n == 6 {
        Some(Instr::ShiftRight { x })
    } else if a == 8 && n == 7 {
        Some(Instr::SubYX { x, y })
    } else if a == 8 && n == 0xE {
        Some(Instr::ShiftLeft { x })
    } else if a == 9 && n == 0 {
        Some(Instr::SkipNeReg { x, y })
    } else if a == 0xA {
        Some(Instr::SetIndex { addr: nnn })
    } else if a == 0xB {
        Some(Instr::JumpOffset { addr: nnn })
    } else if a == 0xC {
        Some(Instr::Random { x, n: nn })
    } else if a == 0xD {
        Some(Instr::Draw { x, y, n })
    } else if a == 0xE && nn == 0x9E {
        Some(Instr::SkipKey { x })
    } else if a == 0xE && nn == 0xA1 {
        Some(Instr::SkipNotKey { x })
    } else if a == 0xF && nn == 0x07 {
        Some(Instr::ReadDelay { x })
    } else if a == 0xF && nn == 0x15 {
        Some(Instr::SetDelay { x })
    } else if a == 0xF && nn == 0x18 {
        Some(Instr::SetSound { x })
    } else if a == 0xF && nn == 0x1E {
        Some(Instr::AddIndex { x })
    } else if a == 0xF && nn == 0x29 {
        Some(Instr::SpriteAddress { x })
    } else if a == 0xF && nn == 0x33 {
        Some(Instr::StoreBcd { x })
    } else if a == 0xF && nn == 0x55 {
        Some(Instr::RegDump { x })
    } else if a == 0xF && nn == 0x65 {
        Some(Instr::RegLoad { x })
    } else {
        None
    }
}


/// The abstract state of a processor.
pub struct CpuState {
    pub v: Seq<u8>,
    pub idx: u16,
    pub sp: u16,
    pub pc: u16,
    pub delay: u8,
    pub sound: u8,
    pub cycle: u8,
}

/// Why a step could not execute the instruction it fetched. `addr` is the
/// address the instruction word was fetched from.
#[derive(Clone, Copy, Debug, PartialEq, Eq, Structural)]
pub enum Fault {
    /// A call into native machine code, which is not supported.
    MachineCode { op: u16, addr: u16 },
    /// A word that encodes no instruction.
    Unsupported { op: u16, addr: u16 },
}

/// The processor state after the timer cadence has advanced by one step:
/// every `TICK_CYCLE` steps both timers count down by one, stopping at zero.
pub open spec fn tick_spec(c: CpuState) -> CpuState {
    if c.cycle <= 1 {
        CpuState {
            delay: if c.delay == 0 { 0 } else { (c.delay - 1) as u8 },
            sound: if c.sound == 0 { 0 } else { (c.sound - 1) as u8 },
            cycle: TICK_CYCLE,
            ..c
        }
    } else {
        CpuState { cycle: (c.cycle - 1) as u8, ..c }
    }
}

/// The big-endian word stored at `addr` and the address after it.
pub open spec fn word_at(mem: Seq<u8>, addr: int) -> u16 {
    (mem[cell(addr)] as int * 256 + mem[cell(addr + 1)] as int) as u16
}

/// Memory after pushing the return address `ret` onto a stack whose pointer
/// is `sp`: its low byte at `sp`, its high byte just below.
pub open spec fn push_spec(mem: Seq<u8>, sp: u16, ret: u16) -> Seq<u8> {
    mem.update(cell(sp as int), (ret % 256) as u8).update(cell(sp - 1), (ret / 256) as u8)
}

/// The state after skipping the next instruction.
pub open spec fn skip(c: CpuState) -> CpuState {
    CpuState { pc: wrap16(c.pc + 2), ..c }
}

/// The state with register `x` set to `val`.
pub open spec fn set_reg(c: CpuState, x: u8, val: u8) -> CpuState {
    CpuState { v: c.v.update(x as int, val), ..c }
}

/// Register `x` set to `val`, then the flags register set to `flag`.
pub open spec fn set_reg_flag(c: CpuState, x: u8, val: u8, flag: u8) -> CpuState {
    CpuState { v: c.v.update(x as int, val).update(VF as int, flag), ..c }
}

/// Memory after writing the three decimal digits of `val`, hundreds first,
/// from address `idx` on.
pub open spec fn bcd_spec(mem: Seq<u8>, idx: u16, val: u8) -> Seq<u8> {
    mem.update(cell(idx as int), val / 100)
        .update(cell(idx + 1), (val / 10) % 10)
        .update(cell(idx + 2), val % 10)
}

/// Memory after storing registers V0..=Vx from address `idx` on.
pub open spec fn dump_spec(mem: Seq<u8>, v: Seq<u8>, idx: u16, x: u8) -> Seq<u8> {
    Seq::new(
        mem.len(),
        |a: int| {
            let k = (a - idx) % (MEM_SIZE as int);
            if k <= x { v[k] } else { mem[a] }
        },
    )
}

/// Registers after loading V0..=Vx from address `idx` on.
pub open spec fn load_spec(mem: Seq<u8>, v: Seq<u8>, idx: u16, x: u8) -> Seq<u8> {
    Seq::new(v.len(), |k: int| if k <= x { mem[cell(idx + k)] } else { v[k] })
}

/// The effect of an instruction that only reads and writes registers.
pub open spec fn register_effect(c: CpuState, ins: Instr, rnd: u8) -> CpuState {
    let v = c.v;
    match ins {
        Instr::LoadImm { x, n } => set_reg(c, x, n),
        Instr::AddImm { x, n } => set_reg(c, x, wrap8(v[x as int] + n)),
        Instr::Move { x, y } => set_reg(c, x, v[y as int]),
        Instr::Or { x, y } => set_reg(c, x, v[x as int] | v[y as int]),
        Instr::And { x, y } => set_reg(c, x, v[x as int] & v[y as int]),
        Instr::Xor { x, y } => set_reg(c, x, v[x as int] ^ v[y as int]),
        Instr::AddReg { x, y } => {
            let sum = v[x as int] + v[y as int];
            set_reg_flag(c, x, wrap8(sum), if sum > 255 { 1 } else { 0 })
        },
        Instr::SubXY { x, y } => {
            set_reg_flag(c, x, wrap8(v[x as int] - v[y as int]), if v[x as int] < v[y as int] { 0 } else { 1 })
        },
        Instr::SubYX { x, y } => {
            set_reg_flag(c, x, wrap8(v[y as int] - v[x as int]), if v[y as int] < v[x as int] { 0 } else { 1 })
        },
        Instr::ShiftRight { x } => {
            let f = set_reg(c, VF, v[x as int] % 2);
            set_reg(f, x, f.v[x as int] / 2)
        },
        Instr::ShiftLeft { x } => {
            let f = set_reg(c, VF, v[x as int] / 128);
            set_reg(f, x, wrap8(f.v[x as int] * 2))
        },
        Instr::Random { x, n } => set_reg(c, x, rnd & n),
        _ => c,
    }
}

/// The effect of an instruction that decides where control goes next.
pub open spec fn control_effect(c: CpuState, m: IoState, ins: Instr) -> (CpuState, IoState) {
    let v = c.v;
    match ins {
        Instr::ClearDisplay => (c, IoState { fb: blank_display(), ..m }),
        Instr::Return => {
            let sp = wrap16(c.sp + 2);
            (CpuState { sp, pc: word_at(m.mem, sp - 1), ..c }, m)
        },
        Instr::MachineCode { .. } => (c, m),
        Instr::Jump { addr } => (CpuState { pc: addr, ..c }, m),
        Instr::Call { addr } => (
            CpuState { sp: wrap16(c.sp - 2), pc: addr, ..c },
            IoState { mem: push_spec(m.mem, c.sp, c.pc), ..m },
        ),
        Instr::SkipEqImm { x, n } => (if v[x as int] == n { skip(c) } else { c }, m),
        Instr::SkipNeImm { x, n } => (if v[x as int] != n { skip(c) } else { c }, m),
        Instr::SkipEqReg { x, y } => (if v[x as int] == v[y as int] { skip(c) } else { c }, m),
        Instr::SkipNeReg { x, y } => (if v[x as int] != v[y as int] { skip(c) } else { c }, m),
        Instr::JumpOffset { addr } => (CpuState { pc: (v[0] + addr) as u16, ..c }, m),
        Instr::SkipKey { x } => (if m.key == Some(v[x as int]) { skip(c) } else { c }, m),
        Instr::SkipNotKey { x } => (if m.key != Some(v[x as int]) { skip(c) } else { c }, m),
        _ => (c, m),
    }
}

/// The effect of an instruction on the index register, the timers, memory
/// or the display.
pub open spec fn surface_effect(c: CpuState, m: IoState, ins: Instr) -> (CpuState, IoState) {
    let v = c.v;
    match ins {
        Instr::SetIndex { addr } => (CpuState { idx: addr, ..c }, m),
        Instr::Draw { x, y, n } => {
            let hit = collides(m.fb, m.mem, v[x as int], v[y as int], n, c.idx);
            (
                set_reg(c, VF, if hit { 1 } else { 0 }),
                IoState { fb: blit(m.fb, m.mem, v[x as int], v[y as int], n, c.idx), drawn: true, ..m },
            )
        },
        Instr::ReadDelay { x } => (set_reg(c, x, c.delay), m),
        Instr::SetDelay { x } => (CpuState { delay: v[x as int], ..c }, m),
        Instr::SetSound { x } => (CpuState { sound: v[x as int], ..c }, m),
        Instr::AddIndex { x } => (CpuState { idx: wrap16(c.idx + v[x as int]), ..c }, m),
        Instr::SpriteAddress { x } => (CpuState { idx: (CHAR_FONT_ADDR + v[x as int] * 5) as u16, ..c }, m),
        Instr::StoreBcd { x } => (c, IoState { mem: bcd_spec(m.mem, c.idx, v[x as int]), ..m }),
        Instr::RegDump { x } => (c, IoState { mem: dump_spec(m.mem, v, c.idx, x), ..m }),
        Instr::RegLoad { x } => (CpuState { v: load_spec(m.mem, v, c.idx, x), ..c }, m),
        _ => (c, m),
    }
}

/// The effect of executing `ins` on processor `c` and surface `m`, where the
/// program counter has already moved past the instruction and `rnd` is the
/// random byte that the random instruction uses.
pub open spec fn execute_spec(c: CpuState, m: IoState, ins: Instr, rnd: u8) -> (CpuState, IoState) {
    if ins.is_register_op() {
        (register_effect(c, ins, rnd), m)
    } else if ins.is_control_op() {
        control_effect(c, m, ins)
    } else {
        surface_effect(c, m, ins)
    }
}

/// The effect of one step: advance the timer cadence, fetch the word at the
/// program counter and move past it, then execute it, or fail if it is a
/// machine-code call or no instruction at all.
pub open spec fn step_spec(c: CpuState, m: IoState, rnd: u8) -> (CpuState, IoState, Result<(), Fault>) {
    let t = tick_spec(c);
    let op = word_at(m.mem, t.pc as int);
    let f = CpuState { pc: wrap16(t.pc + 2), ..t };
    match decode_spec(op) {
        None => (f, m, Err(Fault::Unsupported { op, addr: t.pc })),
        Some(Instr::MachineCode { .. }) => (f, m, Err(Fault::MachineCode { op, addr: t.pc })),
        Some(ins) => {
            let (c2, m2) = execute_spec(f, m, ins, rnd);
            (c2, m2, Ok(()))
        },
    }
}

/// Addresses wrap around the 16-bit range and the address space alike.
pub proof fn lemma_cell_wrap16(a: int)
    ensures
        cell(wrap16(a) as int) == cell(a),
{
    lemma_mod_mod(a, 4096, 16);
}

/// Relies on rand::random: a byte from the thread-local generator. Nothing is
/// known of its value.
#[verifier::external_body]
fn random_byte() -> (r: u8) {
    rand::random::<u8>()
}

/// Registers, index register, stack pointer, program counter and timers.
pub struct Cpu {
    v: [u8; 16],
    idx: u16,
    sp: u16,
    pc: u16,
    delay: u8,
    sound: u8,
    cycle: u8,
}

impl View for Cpu {
    type V = CpuState;

    closed spec fn view(&self) -> CpuState {
        CpuState {
            v: self.v@,
            idx: self.idx,
            sp: self.sp,
            pc: self.pc,
            delay: self.delay,
            sound: self.sound,
            cycle: self.cycle,
        }
    }
}

impl Cpu {
    /// Registers cleared, the program counter at the load address and the
    /// stack pointer at the top of the stack.
    pub fn new() -> (r: Self)
        ensures
            r@ == (CpuState {
                v: Seq::new(16, |i: int| 0u8),
                idx: 0,
                sp: STACK_TOP,
                pc: ROM_START_ADDR,
                delay: 0,
                sound: 0,
                cycle: TICK_CYCLE,
            }),
    {
        let r = Cpu {
            v: [0u8; 16],
            idx: 0,
            sp: STACK_TOP,
            pc: ROM_START_ADDR,
            delay: 0,
            sound: 0,
            cycle: TICK_CYCLE,
        };
        assert(r@.v =~= Seq::new(16, |i: int| 0u8));
        r
    }

    /// Value of register `x`.
    pub fn reg(&self, x: u8) -> (r: u8)
        requires
            x < 16,
        ensures
            r == self@.v[x as int],
    {
        self.v[x as usize]
    }

    /// The program counter.
    pub fn pc(&self) -> (r: u16)
        ensures
            r == self@.pc,
    {
        self.pc
    }

    /// The index register.
    pub fn index(&self) -> (r: u16)
        ensures
            r == self@.idx,
    {
        self.idx
    }

    /// The stack pointer.
    pub fn sp(&self) -> (r: u16)
        ensures
            r == self@.sp,
    {
        self.sp
    }

    /// The delay timer.
    pub fn delay(&self) -> (r: u8)
        ensures
            r == self@.delay,
    {
        self.delay
    }

    /// The sound timer.
    pub fn sound(&self) -> (r: u8)
        ensures
            r == self@.sound,
    {
        self.sound
    }

    fn set_reg(&mut self, x: u8, val: u8)
        requires
            x < 16,
        ensures
            final(self)@ == set_reg(old(self)@, x, val),
    {
        self.v[x as usize] = val;
    }

    /// Advances the timer cadence by one step.
    fn tick(&mut self)
        ensures
            final(self)@ == tick_spec(old(self)@),
    {
        if self.cycle <= 1 {
            self.delay = self.delay.saturating_sub(1);
            self.sound = self.sound.saturating_sub(1);
            self.cycle = TICK_CYCLE;
        } else {
            self.cycle = self.cycle - 1;
        }
    }

    /// Skips the next instruction.
    fn advance(&mut self)
        ensures
            final(self)@ == skip(old(self)@),
    {
        self.pc = self.pc.wrapping_add(2);
    }

    /// Reads the instruction word at the program counter and moves past it.
    fn fetch(&mut self, io: &IO) -> (op: u16)
        requires
            io.wf(),
        ensures
            op == word_at(io@.mem, old(self)@.pc as int),
            final(self)@ == skip(old(self)@),
    {
        let hi = io.read(self.pc);
        let lo = io.read(self.pc.wrapping_add(1));
        proof { lemma_cell_wrap16(self.pc + 1); }
        self.advance();
        (hi as u16) * 256 + (lo as u16)
    }

    /// Pushes `data` onto the stack in memory.
    fn push(&mut self, io: &mut IO, data: u16)
        requires
            old(io).wf(),
        ensures
            final(io).wf(),
            final(io)@ == (IoState { mem: push_spec(old(io)@.mem, old(self)@.sp, data), ..old(io)@ }),
            final(self)@ == (CpuState { sp: wrap16(old(self)@.sp - 2), ..old(self)@ }),
    {
        io.write(self.sp, (data % 256) as u8);
        io.write(self.sp.wrapping_sub(1), (data / 256) as u8);
        proof { lemma_cell_wrap16(self.sp - 1); }
        self.sp = self.sp.wrapping_sub(2);
    }

    /// Pops a word off the stack in memory.
    fn pop(&mut self, io: &IO) -> (r: u16)
        requires
            io.wf(),
        ensures
            final(self)@ == (CpuState { sp: wrap16(old(self)@.sp + 2), ..old(self)@ }),
            r == word_at(io@.mem, wrap16(old(self)@.sp + 2) - 1),
    {
        self.sp = self.sp.wrapping_add(2);
        let lo = io.read(self.sp);
        let hi = io.read(self.sp.wrapping_sub(1));
        proof {
            lemma_cell_wrap16(self.sp - 1);
            lemma_cell_wrap16(self.sp - 1 + 1);
            assert(wrap16(self.sp - 1 + 1) == self.sp);
        }
        (hi as u16) * 256 + (lo as u16)
    }

    /// Executes a decoded instruction; `rnd` is the byte that the random
    /// instruction masks.
    pub fn execute(&mut self, io: &mut IO, ins: Instr, rnd: u8)
        requires
            old(io).wf(),
            ins.wf(),
        ensures
            final(io).wf(),
            (final(self)@, final(io)@) == execute_spec(old(self)@, old(io)@, ins, rnd),
    {
        if ins.register_op() {
            self.execute_register_op(ins, rnd);
        } else if ins.control_op() {
            self.execute_control_op(io, ins);
        } else {
            self.execute_surface_op(io, ins);
        }
    }

    /// Executes an instruction that only reads and writes registers.
    fn execute_register_op(&mut self, ins: Instr, rnd: u8)
        requires
            ins.wf(),
            ins.is_register_op(),
        ensures
            final(self)@ == register_effect(old(self)@, ins, rnd),
    {
        match ins {
            Instr::LoadImm { x, n } => self.set_reg(x, n),
            Instr::AddImm { x, n } => {
                let val = self.v[x as usize].wrapping_add(n);
                self.set_reg(x, val);
            },
            Instr::Move { x, y } => {
                let val = self.v[y as usize];
                self.set_reg(x, val);
            },
            Instr::Or { x, y } => {
                let val = self.v[x as usize] | self.v[y as usize];
                self.set_reg(x, val);
            },
            Instr::And { x, y } => {
                let val = self.v[x as usize] & self.v[y as usize];
                self.set_reg(x, val);
            },
            Instr::Xor { x, y } => {
                let val = self.v[x as usize] ^ self.v[y as usize];
                self.set_reg(x, val);
            },
            Instr::AddReg { x, y } => {
                let (a, b) = (self.v[x as usize], self.v[y as usize]);
                let carry = (a as u16) + (b as u16) > 255;
                self.set_reg(x, a.wrapping_add(b));
                self.set_reg(VF, if carry { 1 } else { 0 });
            },
            Instr::SubXY { x, y } => {
                let (a, b) = (self.v[x as usize], self.v[y as usize]);
                let borrow = a < b;
                self.set_reg(x, a.wrapping_sub(b));
                self.set_reg(VF, if borrow { 0 } else { 1 });
            },
            Instr::SubYX { x, y } => {
                let (a, b) = (self.v[x as usize], self.v[y as usize]);
                let borrow = b < a;
                self.set_reg(x, b.wrapping_sub(a));
                self.set_reg(VF, if borrow { 0 } else { 1 });
            },
            Instr::ShiftRight { x } => {
                let flag = self.v[x as usize] % 2;
                self.set_reg(VF, flag);
                let val = self.v[x as usize] / 2;
                self.set_reg(x, val);
            },
            Instr::ShiftLeft { x } => {
                let flag = self.v[x as usize] / 128;
                self.set_reg(VF, flag);
                let val = self.v[x as usize].wrapping_mul(2);
                self.set_reg(x, val);
            },
            Instr::Random { x, n } => self.set_reg(x, rnd & n),
            _ => {},
        }
    }

    /// Executes an instruction that decides where control goes next.
    fn execute_control_op(&mut self, io: &mut IO, ins: Instr)
        requires
            old(io).wf(),
            ins.wf(),
            ins.is_control_op(),
        ensures
            final(io).wf(),
            (final(self)@, final(io)@) == control_effect(old(self)@, old(io)@, ins),
    {
        match ins {
            Instr::ClearDisplay => io.clear_display(),
            Instr::Return => {
                let pc = self.pop(io);
                self.pc = pc;
            },
            Instr::MachineCode { .. } => {},
            Instr::Jump { addr } => self.pc = addr,
            Instr::Call { addr } => {
                let ret = self.pc;
                self.push(io, ret);
                self.pc = addr;
            },
            Instr::SkipEqImm { x, n } => {
                if self.v[x as usize] == n {
                    self.advance();
                }
            },
            Instr::SkipNeImm { x, n } => {
                if self.v[x as usize] != n {
                    self.advance();
                }
            },
            Instr::SkipEqReg { x, y } => {
                if self.v[x as usize] == self.v[y as usize] {
                    self.advance();
                }
            },
            Instr::SkipNeReg { x, y } => {
                if self.v[x as usize] != self.v[y as usize] {
                    self.advance();
                }
            },
            Instr::JumpOffset { addr } => self.pc = (self.v[0] as u16) + addr,
            Instr::SkipKey { x } => {
                if io.get_key() == Some(self.v[x as usize]) {
                    self.advance();
                }
            },
            Instr::SkipNotKey { x } => {
                if io.get_key() != Some(self.v[x as usize]) {
                    self.advance();
                }
            },
            _ => {},
        }
    }

    /// Executes an instruction that works on the index register, the timers,
    /// memory or the display.
    fn execute_surface_op(&mut self, io: &mut IO, ins: Instr)
        requires
            old(io).wf(),
            ins.wf(),
            !ins.is_register_op(),
            !ins.is_control_op(),
        ensures
            final(io).wf(),
            (final(self)@, final(io)@) == surface_effect(old(self)@, old(io)@, ins),
    {
        match ins {
            Instr::SetIndex { addr } => self.idx = addr,
            Instr::Draw { x, y, n } => {
                let hit = io.draw(self.v[x as usize], self.v[y as usize], n, self.idx);
                self.set_reg(VF, if hit { 1 } else { 0 });
            },
            Instr::ReadDelay { x } => {
                let val = self.delay;
                self.set_reg(x, val);
            },
            Instr::SetDelay { x } => self.delay = self.v[x as usize],
            Instr::SetSound { x } => self.sound = self.v[x as usize],
            Instr::AddIndex { x } => self.idx = self.idx.wrapping_add(self.v[x as usize] as u16),
            Instr::SpriteAddress { x } => self.idx = CHAR_FONT_ADDR + (self.v[x as usize] as u16) * 5,
            Instr::StoreBcd { x } => {
                let val = self.v[x as usize];
                io.write(self.idx, val / 100);
                io.write(self.idx.wrapping_add(1), (val / 10) % 10);
                io.write(self.idx.wrapping_add(2), val % 10);
                proof {
                    lemma_cell_wrap16(self.idx + 1);
                    lemma_cell_wrap16(self.idx + 2);
                }
            },
            Instr::RegDump { x } => self.reg_dump(io, x),
            Instr::RegLoad { x } => self.reg_load(io, x),
            _ => {},
        }
    }

    /// Stores V0..=Vx from the index register's address on.
    fn reg_dump(&self, io: &mut IO, x: u8)
        requires
            old(io).wf(),
            x < 16,
        ensures
            final(io).wf(),
            final(io)@ == (IoState { mem: dump_spec(old(io)@.mem, self@.v, self@.idx, x), ..old(io)@ }),
    {
        let ghost mem0 = io@.mem;
        let mut i: u8 = 0;
        while i <= x
            invariant
                x < 16,
                i <= x + 1,
                io.wf(),
                io@ == (IoState { mem: io@.mem, ..old(io)@ }),
                forall|a: int| 0 <= a < MEM_SIZE ==> #[trigger] io@.mem[a] == {
                    let k = (a - self@.idx) % (MEM_SIZE as int);
                    if k < i { self@.v[k] } else { mem0[a] }
                },
            decreases x + 1 - i,
        {
            io.write(self.idx.wrapping_add(i as u16), self.v[i as usize]);
            proof {
                lemma_cell_wrap16(self.idx + i);
            }
            i = i + 1;
        }
        assert(io@.mem =~= dump_spec(mem0, self@.v, self@.idx, x));
    }

    /// Loads V0..=Vx from the index register's address on.
    fn reg_load(&mut self, io: &IO, x: u8)
        requires
            io.wf(),
            x < 16,
        ensures
            final(self)@ == (CpuState { v: load_spec(io@.mem, old(self)@.v, old(self)@.idx, x), ..old(self)@ }),
    {
        let mut i: u8 = 0;
        while i <= x
            invariant
                x < 16,
                i <= x + 1,
                io.wf(),
                self@ == (CpuState { v: self@.v, ..old(self)@ }),
                self@.v.len() == 16,
                forall|k: int| 0 <= k < 16 ==> #[trigger] self@.v[k] == if k < i {
                    io@.mem[cell(old(self)@.idx + k)]
                } else {
                    old(self)@.v[k]
                },
            decreases x + 1 - i,
        {
            let b = io.read(self.idx.wrapping_add(i as u16));
            proof { lemma_cell_wrap16(self.idx + i); }
            self.set_reg(i, b);
            i = i + 1;
        }
        assert(self@.v =~= load_spec(io@.mem, old(self)@.v, old(self)@.idx, x));
    }

    /// Runs one step, with `rnd` as the byte that a random instruction masks:
    /// advances the timer cadence, fetches the word at the program counter,
    /// moves past it and executes it. Fails on a machine-code call and on a
    /// word that encodes no instruction, leaving the surface untouched.
    pub fn step_with(&mut self, io: &mut IO, rnd: u8) -> (r: Result<(), Fault>)
        requires
            old(io).wf(),
        ensures
            final(io).wf(),
            (final(self)@, final(io)@, r) == step_spec(old(self)@, old(io)@, rnd),
    {
        self.tick();
        let addr = self.pc;
        let op = self.fetch(io);
        match decode(op) {
            None => Err(Fault::Unsupported { op, addr }),
            Some(Instr::MachineCode { .. }) => Err(Fault::MachineCode { op, addr }),
            Some(ins) => {
                self.execute(io, ins, rnd);
                Ok(())
            },
        }
    }

    /// Runs one step, drawing the byte for a random instruction from the
    /// thread-local generator.
    pub fn step(&mut self, io: &mut IO) -> (r: Result<(), Fault>)
        requires
            old(io).wf(),
        ensures
            final(io).wf(),
            exists|rnd: u8| (final(self)@, final(io)@, r) == #[trigger] step_spec(old(self)@, old(io)@, rnd),
    {
        let rnd = random_byte();
        self.step_with(io, rnd)
    }
}

} // verus!
