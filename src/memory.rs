//! The address space and display surface that the processor works on.
use vstd::prelude::*;

verus! {

/// Width of the display in pixels.
pub const WIDTH: usize = 64;

/// Height of the display in pixels.
pub const HEIGHT: usize = 32;

/// Number of pixels of the display.
pub const PIXELS: usize = 2048;

/// Size of the address space in bytes.
pub const MEM_SIZE: usize = 4096;

/// Address at which a program image is loaded.
pub const ROM_START_ADDR: u16 = 0x200;

/// Address of the built-in font table.
pub const CHAR_FONT_ADDR: u16 = 0;

/// Largest program image that fits above the load address.
pub const MAX_ROM_LEN: usize = 3584;

/// Colour of a lit pixel; an unlit pixel is 0.
pub const PIXEL_ON: u32 = 0x00FF_FFFF;

/// The abstract contents of an `IO` value.
pub struct IoState {
    pub mem: Seq<u8>,
    pub fb: Seq<u32>,
    pub key: Option<u8>,
    pub drawn: bool,
}

/// Memory cell that a 16-bit address refers to: addresses wrap around the
/// 4 KiB address space.
pub open spec fn cell(addr: int) -> int {
    addr % (MEM_SIZE as int)
}

/// The built-in font: sixteen glyphs, 0 to F, of five rows each; the high
/// nibble of each row holds the pixels.
pub open spec fn font() -> Seq<u8> {
    seq![
        0xF0u8, 0x90, 0x90, 0x90, 0xF0, 0x20, 0x60, 0x20, 0x20, 0x70,
        0xF0, 0x10, 0xF0, 0x80, 0xF0, 0xF0, 0x10, 0xF0, 0x10, 0xF0,
        0x90, 0x90, 0xF0, 0x10, 0x10, 0xF0, 0x80, 0xF0, 0x10, 0xF0,
        0xF0, 0x80, 0xF0, 0x90, 0xF0, 0xF0, 0x10, 0x20, 0x40, 0x40,
        0xF0, 0x90, 0xF0, 0x90, 0xF0, 0xF0, 0x90, 0xF0, 0x10, 0xF0,
        0xF0, 0x90, 0xF0, 0x90, 0x90, 0xE0, 0x90, 0xE0, 0x90, 0xE0,
        0xF0, 0x80, 0x80, 0x80, 0xF0, 0xE0, 0x90, 0x90, 0x90, 0xE0,
        0xF0, 0x80, 0xF0, 0x80, 0xF0, 0xF0, 0x80, 0xF0, 0x80, 0x80,
    ]
}

/// Memory right after loading `rom`: the font at its base address, the
/// program image at the load address, zero elsewhere.
pub open spec fn initial_memory(rom: Seq<u8>) -> Seq<u8> {
    Seq::new(
        MEM_SIZE as nat,
        |a: int|
            if a < font().len() {
                font()[a]
            } else if ROM_START_ADDR <= a < ROM_START_ADDR + rom.len() {
                rom[a - ROM_START_ADDR]
            } else {
                0u8
            },
    )
}

/// The display with every pixel unlit.
pub open spec fn blank_display() -> Seq<u32> {
    Seq::new(PIXELS as nat, |i: int| 0u32)
}

/// A pixel after it has been drawn over by a set sprite bit.
pub open spec fn toggle(p: u32) -> u32 {
    if p == 0 {
        PIXEL_ON
    } else {
        0
    }
}

/// Whether bit `col` (0 is the leftmost, most significant) of sprite row
/// `row` is set, the rows being the bytes from address `idx` on.
pub open spec fn sprite_bit(mem: Seq<u8>, idx: u16, row: int, col: int) -> bool {
    (mem[cell(idx + row)] >> ((7 - col) as u8)) & 1u8 == 1u8
}

/// Whether an `n`-row sprite drawn at (`x`, `y`) sets a bit on pixel `i`
/// (row-major, 64 per row). Positions do not wrap around the edges: a bit
/// that falls off the grid lands on no pixel.
pub open spec fn hit(mem: Seq<u8>, x: u8, y: u8, n: u8, idx: u16, i: int) -> bool {
    let col = i % (WIDTH as int) - x;
    let row = i / (WIDTH as int) - y;
    0 <= col < 8 && 0 <= row < n && sprite_bit(mem, idx, row, col)
}

/// The display after XOR-drawing a sprite over `fb`.
pub open spec fn blit(fb: Seq<u32>, mem: Seq<u8>, x: u8, y: u8, n: u8, idx: u16) -> Seq<u32> {
    Seq::new(fb.len(), |i: int| if hit(mem, x, y, n, idx, i) { toggle(fb[i]) } else { fb[i] })
}

/// Whether drawing the sprite over `fb` turns some lit pixel off.
pub open spec fn collides(fb: Seq<u32>, mem: Seq<u8>, x: u8, y: u8, n: u8, idx: u16) -> bool {
    exists|i: int| 0 <= i < fb.len() && #[trigger] hit(mem, x, y, n, idx, i) && fb[i] != 0
}

/// The key reported for a keypad on which key `k` is down iff `down[k]`:
/// the highest key that is down, if any.
pub open spec fn last_pressed(down: Seq<bool>) -> Option<u8>
    decreases down.len(),
{
    if down.len() == 0 {
        None
    } else if down.last() {
        Some((down.len() - 1) as u8)
    } else {
        last_pressed(down.drop_last())
    }
}

/// Memory, framebuffer and key state.
pub struct IO {
    frame_buffer: Vec<u32>,
    did_draw: bool,
    mem: Vec<u8>,
    key: Option<u8>,
}

impl View for IO {
    type V = IoState;

    closed spec fn view(&self) -> IoState {
        IoState { mem: self.mem@, fb: self.frame_buffer@, key: self.key, drawn: self.did_draw }
    }
}

impl IoState {
    /// Memory and framebuffer have their fixed sizes, and every pixel is
    /// either lit or unlit.
    pub open spec fn wf(&self) -> bool {
        &&& self.mem.len() == MEM_SIZE
        &&& self.fb.len() == PIXELS
        &&& forall|i: int| 0 <= i < self.fb.len() ==> #[trigger] self.fb[i] == 0 || self.fb[i] == PIXEL_ON
    }
}

impl IO {
    pub open spec fn wf(&self) -> bool {
        self@.wf()
    }


    /// Memory holding the font and `rom`, a blank display and no key pressed.
    pub fn new(rom: &[u8]) -> (r: Self)
        requires
            rom@.len() <= MAX_ROM_LEN,
        ensures
            r.wf(),
            r@ == (IoState { mem: initial_memory(rom@), fb: blank_display(), key: None, drawn: false }),
    {
        let mut mem: Vec<u8> = vec![0u8; MEM_SIZE];
        let char_font: [u8; 80] = [
            0xF0, 0x90, 0x90, 0x90, 0xF0, // 0
            0x20, 0x60, 0x20, 0x20, 0x70, // 1
            0xF0, 0x10, 0xF0, 0x80, 0xF0, // 2
            0xF0, 0x10, 0xF0, 0x10, 0xF0, // 3
            0x90, 0x90, 0xF0, 0x10, 0x10, // 4
            0xF0, 0x80, 0xF0, 0x10, 0xF0, // 5
            0xF0, 0x80, 0xF0, 0x90, 0xF0, // 6
            0xF0, 0x10, 0x20, 0x40, 0x40, // 7
            0xF0, 0x90, 0xF0, 0x90, 0xF0, // 8
            0xF0, 0x90, 0xF0, 0x10, 0xF0, // 9
            0xF0, 0x90, 0xF0, 0x90, 0x90, // A
            0xE0, 0x90, 0xE0, 0x90, 0xE0, // B
            0xF0, 0x80, 0x80, 0x80, 0xF0, // C
            0xE0, 0x90, 0x90, 0x90, 0xE0, // D
            0xF0, 0x80, 0xF0, 0x80, 0xF0, // E
            0xF0, 0x80, 0xF0, 0x80, 0x80, // F
        ];
        assert(char_font@ =~= font());
        let mut i: usize = 0;
        while i < 80
            invariant
                i <= 80,
                char_font@ == font(),
                mem@.len() == MEM_SIZE,
                forall|a: int| 0 <= a < i ==> mem@[a] == font()[a],
                forall|a: int| i <= a < MEM_SIZE ==> mem@[a] == 0,
            decreases 80 - i,
        {
            mem.set(CHAR_FONT_ADDR as usize + i, char_font[i]);
            i = i + 1;
        }
        let mut j: usize = 0;
        while j < rom.len()
            invariant
                j <= rom@.len() <= MAX_ROM_LEN,
                mem@.len() == MEM_SIZE,
                forall|a: int| 0 <= a < 80 ==> mem@[a] == font()[a],
                forall|a: int| 80 <= a < ROM_START_ADDR ==> mem@[a] == 0,
                forall|a: int| ROM_START_ADDR <= a < ROM_START_ADDR + j ==> mem@[a] == rom@[a - ROM_START_ADDR],
                forall|a: int| ROM_START_ADDR + j <= a < MEM_SIZE ==> mem@[a] == 0,
            decreases rom@.len() - j,
        {
            mem.set(ROM_START_ADDR as usize + j, rom[j]);
            j = j + 1;
        }
        assert(mem@ =~= initial_memory(rom@));
        let frame_buffer: Vec<u32> = vec![0u32; PIXELS];
        assert(frame_buffer@ =~= blank_display());
        IO { frame_buffer, did_draw: false, mem, key: None }
    }

    /// Turns every pixel off.
    pub fn clear_display(&mut self)
        requires
            old(self).wf(),
        ensures
            final(self).wf(),
            final(self)@ == (IoState { fb: blank_display(), ..old(self)@ }),
    {
        let mut i: usize = 0;
        while i < self.frame_buffer.len()
            invariant
                self.frame_buffer@.len() == PIXELS,
                self.mem@ == old(self).mem@,
                self.key == old(self).key,
                self.did_draw == old(self).did_draw,
                i <= PIXELS,
                forall|j: int| 0 <= j < i ==> self.frame_buffer@[j] == 0,
            decreases PIXELS - i,
        {
            self.frame_buffer.set(i, 0);
            i = i + 1;
        }
        assert(self.frame_buffer@ =~= blank_display());
    }

    /// XOR-draws the `n` rows of the sprite stored from address `idx` on at
    /// (`x`, `y`), and tells whether a lit pixel was turned off.
    pub fn draw(&mut self, x: u8, y: u8, n: u8, idx: u16) -> (collision: bool)
        requires
            old(self).wf(),
        ensures
            final(self).wf(),
            final(self)@ == (IoState {
                fb: blit(old(self)@.fb, old(self)@.mem, x, y, n, idx),
                drawn: true,
                ..old(self)@
            }),
            collision == collides(old(self)@.fb, old(self)@.mem, x, y, n, idx),
    {
        self.did_draw = true;
        let ghost fb0 = self.frame_buffer@;
        let ghost mem = self.mem@;
        let mut collision = false;
        let mut i: usize = 0;
        while i < PIXELS
            invariant
                i <= PIXELS,
                fb0.len() == PIXELS,
                self.frame_buffer@.len() == PIXELS,
                self.mem@ == mem,
                mem.len() == MEM_SIZE,
                self.key == old(self).key,
                self.did_draw,
                forall|j: int| 0 <= j < i ==> self.frame_buffer@[j] == blit(fb0, mem, x, y, n, idx)[j],
                forall|j: int| i <= j < PIXELS ==> self.frame_buffer@[j] == fb0[j],
                collision == exists|j: int| 0 <= j < i && #[trigger] hit(mem, x, y, n, idx, j) && fb0[j] != 0,
            decreases PIXELS - i,
        {
            let px = i % WIDTH;
            let py = i / WIDTH;
            let ghost was = collision;
            let mut on = false;
            if px >= x as usize && px - (x as usize) < 8 && py >= y as usize && py - (y as usize) < n as usize {
                let col = px - x as usize;
                let row = py - y as usize;
                let byte = self.mem[(idx as usize + row) % MEM_SIZE];
                on = (byte >> ((7 - col) as u8)) & 1 == 1;
            }
            assert(on == hit(mem, x, y, n, idx, i as int));
            if on {
                let p = self.frame_buffer[i];
                if p != 0 {
                    collision = true;
                    self.frame_buffer.set(i, 0);
                } else {
                    self.frame_buffer.set(i, PIXEL_ON);
                }
            }
            assert(collision == exists|j: int| 0 <= j < i + 1 && #[trigger] hit(mem, x, y, n, idx, j) && fb0[j] != 0) by {
                if was {
                    let w = choose|j: int| 0 <= j < i && #[trigger] hit(mem, x, y, n, idx, j) && fb0[j] != 0;
                    assert(0 <= w < i + 1 && hit(mem, x, y, n, idx, w) && fb0[w] != 0);
                }
                if on && fb0[i as int] != 0 {
                    assert(hit(mem, x, y, n, idx, i as int));
                }
            }
            i = i + 1;
        }
        assert(self.frame_buffer@ =~= blit(fb0, mem, x, y, n, idx));
        proof {
            assert forall|j: int| 0 <= j < PIXELS implies #[trigger] self.frame_buffer@[j] == 0 || self.frame_buffer@[j] == PIXEL_ON by {
                assert(fb0[j] == 0 || fb0[j] == PIXEL_ON);
            }
        }
        collision
    }

    /// The pixels of the display, row by row.
    pub fn get_framebuffer(&self) -> (r: &[u32])
        ensures
            r@ == self@.fb,
    {
        self.frame_buffer.as_slice()
    }

    /// The key currently pressed, if any.
    pub fn get_key(&self) -> (r: Option<u8>)
        ensures
            r == self@.key,
    {
        self.key
    }

    /// Whether anything has been drawn since construction.
    pub fn did_draw(&self) -> (r: bool)
        ensures
            r == self@.drawn,
    {
        self.did_draw
    }

    /// Records the keypad state, where `down[k]` tells whether key `k` is
    /// held: the reported key becomes the highest one held, or none.
    pub fn set_pressed_keys(&mut self, down: &[bool])
        requires
            down@.len() <= 16,
        ensures
            final(self)@ == (IoState { key: last_pressed(down@), ..old(self)@ }),
    {
        let mut key: Option<u8> = None;
        let mut k: usize = 0;
        while k < down.len()
            invariant
                k <= down@.len() <= 16,
                key == last_pressed(down@.subrange(0, k as int)),
            decreases down@.len() - k,
        {
            if down[k] {
                key = Some(k as u8);
            }
            assert(down@.subrange(0, k + 1).drop_last() =~= down@.subrange(0, k as int));
            k = k + 1;
        }
        assert(down@.subrange(0, down@.len() as int) =~= down@);
        self.key = key;
    }

    /// Byte at `addr`.
    pub fn read(&self, addr: u16) -> (r: u8)
        requires
            self.wf(),
        ensures
            r == self@.mem[cell(addr as int)],
    {
        self.mem[(addr as usize) % MEM_SIZE]
    }

    /// Stores `data` at `addr`.
    pub fn write(&mut self, addr: u16, data: u8)
        requires
            old(self).wf(),
        ensures
            final(self).wf(),
            final(self)@ == (IoState { mem: old(self)@.mem.update(cell(addr as int), data), ..old(self)@ }),
    {
        self.mem.set((addr as usize) % MEM_SIZE, data);
    }
}

} // verus!
