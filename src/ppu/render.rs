use vstd::prelude::*;
use super::{Ppu, PpuView, SCREEN_PIXELS, SCREEN_WIDTH};
use super::fetcher::bit_of;
use crate::memory::{byte_or_open, read_or_open};

verus! {

/// The most sprites drawn on one line.
pub const MAX_LINE_SPRITES: usize = 10;
/// The number of sprites in OAM.
pub const OAM_SPRITES: usize = 40;

/// The colour number (0-3) of pixel (`col`, `row`) of the tile whose 16 bytes
/// start at VRAM offset `tile`: bit planes interleaved by row, leftmost pixel
/// in bit 7.
pub open spec fn tile_pixel(vram: Seq<u8>, tile: int, row: int, col: int) -> u8 {
    let lo = byte_or_open(vram, tile + row * 2);
    let hi = byte_or_open(vram, tile + row * 2 + 1);
    (bit_of(hi, 7 - col) * 2 + bit_of(lo, 7 - col)) as u8
}

/// VRAM offset of background/window tile `id`: unsigned from 8000 with LCDC
/// bit 4 set, else signed from 9000.
pub open spec fn bg_tile_offset(lcdc: u8, id: u8) -> int {
    if lcdc & 0x10 != 0 || id >= 128 {
        id as int * 16
    } else {
        0x1000 + id as int * 16
    }
}

/// The shade that palette `pal` gives colour number `idx`.
pub open spec fn shade(pal: u8, idx: u8) -> u8 {
    (pal >> (idx * 2)) & 0x03
}

/// The background colour number at screen column `x` of line LY.
pub open spec fn bg_index(v: PpuView, x: int) -> u8 {
    let y = (v.ly as int + v.scy as int) % 256;
    let px = (x + v.scx as int) % 256;
    let map = if v.lcdc & 0x08 != 0 { 0x1C00int } else { 0x1800int };
    let id = byte_or_open(v.vram, map + (y / 8) * 32 + px / 8);
    tile_pixel(v.vram, bg_tile_offset(v.lcdc, id), y % 8, px % 8)
}

/// The window covers column `x` of line LY.
pub open spec fn window_covers(v: PpuView, x: int) -> bool {
    v.lcdc & 0x20 != 0 && v.wy <= v.ly && x + 7 >= v.wx
}

/// The window colour number at screen column `x`; the window's top left
/// corner is at (WX-7, WY).
pub open spec fn window_index(v: PpuView, x: int) -> u8 {
    let y = v.ly as int - v.wy as int;
    let px = x + 7 - v.wx as int;
    let map = if v.lcdc & 0x40 != 0 { 0x1C00int } else { 0x1800int };
    let id = byte_or_open(v.vram, map + (y / 8) * 32 + px / 8);
    tile_pixel(v.vram, bg_tile_offset(v.lcdc, id), y % 8, px % 8)
}

/// The colour number under the sprites at column `x`: 0 while LCDC bit 0 is clear.
pub open spec fn bg_window_index(v: PpuView, x: int) -> u8 {
    if v.lcdc & 0x01 == 0 {
        0
    } else if window_covers(v, x) {
        window_index(v, x)
    } else {
        bg_index(v, x)
    }
}

pub open spec fn sprite_height(lcdc: u8) -> int {
    if lcdc & 0x04 != 0 {
        16
    } else {
        8
    }
}

/// Byte `k` of OAM entry `s`: Y+16, X+8, tile, attributes.
pub open spec fn oam_byte(v: PpuView, s: int, k: int) -> u8 {
    byte_or_open(v.oam, 4 * s + k)
}

/// Sprite `s` covers line LY.
pub open spec fn on_line(v: PpuView, s: int) -> bool {
    let y = oam_byte(v, s, 0) as int;
    v.ly as int + 16 >= y && (v.ly as int + 16) < y + sprite_height(v.lcdc)
}

/// The sprites of line LY among the first `n` OAM entries, in OAM order, at
/// most ten.
pub open spec fn line_sprites(v: PpuView, n: int) -> Seq<usize>
    decreases n,
{
    if n <= 0 {
        Seq::empty()
    } else {
        let s = line_sprites(v, n - 1);
        if s.len() < MAX_LINE_SPRITES && on_line(v, n - 1) {
            s.push((n - 1) as usize)
        } else {
            s
        }
    }
}

/// Sprite `s` covers column `x`.
pub open spec fn covers(v: PpuView, s: int, x: int) -> bool {
    let sx = x + 8 - oam_byte(v, s, 1) as int;
    0 <= sx < 8
}

/// The colour number of sprite `s` at column `x` of line LY, with its flips.
pub open spec fn sprite_index(v: PpuView, s: int, x: int) -> u8 {
    let attr = oam_byte(v, s, 3);
    let h = sprite_height(v.lcdc);
    let row0 = v.ly as int + 16 - oam_byte(v, s, 0) as int;
    let row = if attr & 0x40 != 0 { h - 1 - row0 } else { row0 };
    let tile = if h == 16 { oam_byte(v, s, 2) & 0xFE } else { oam_byte(v, s, 2) };
    let col0 = x + 8 - oam_byte(v, s, 1) as int;
    let col = if attr & 0x20 != 0 { 7 - col0 } else { col0 };
    tile_pixel(v.vram, tile as int * 16, row, col)
}

/// Sprite `s` shows at column `x` over background colour number `bg`: its
/// pixel there is not transparent, and it is not behind a non-zero colour.
pub open spec fn sprite_shows(v: PpuView, s: int, x: int, bg: u8) -> bool {
    covers(v, s, x) && sprite_index(v, s, x) != 0 && (oam_byte(v, s, 3) & 0x80 == 0 || bg == 0)
}

/// Of the first `k` sprites of `sel`, the one that is drawn at column `x`:
/// the smallest X wins, and of equal X the first in OAM.
pub open spec fn top_sprite(v: PpuView, sel: Seq<usize>, x: int, bg: u8, k: int) -> Option<usize>
    decreases k,
{
    if k <= 0 {
        None
    } else {
        let best = top_sprite(v, sel, x, bg, k - 1);
        let s = sel[k - 1];
        if sprite_shows(v, s as int, x, bg) && (best is None || oam_byte(v, s as int, 1) < oam_byte(
            v,
            best->0 as int,
            1,
        )) {
            Some(s)
        } else {
            best
        }
    }
}

/// The shade of screen column `x` of line LY.
pub open spec fn pixel(v: PpuView, x: int) -> u8 {
    let bg = bg_window_index(v, x);
    let sel = line_sprites(v, OAM_SPRITES as int);
    let top = if v.lcdc & 0x02 != 0 { top_sprite(v, sel, x, bg, sel.len() as int) } else { None };
    match top {
        Some(s) => shade(
            if oam_byte(v, s as int, 3) & 0x10 != 0 { v.obp1 } else { v.obp0 },
            sprite_index(v, s as int, x),
        ),
        None => shade(v.bgp, bg),
    }
}

/// The frame buffer after line LY is drawn.
pub open spec fn with_line(v: PpuView) -> Seq<u8> {
    Seq::new(
        v.buffer.len(),
        |i: int|
            if v.ly as int * 160 <= i < v.ly as int * 160 + 160 {
                pixel(v, i - v.ly as int * 160)
            } else {
                v.buffer[i]
            },
    )
}

/// One sprite's OAM entry.
#[derive(Clone, Copy)]
pub struct Sprite {
    pub y: u8,
    pub x: u8,
    pub tile_id: u8,
    pub attr: u8,
}

impl Sprite {
    /// OAM entry `i`.
    pub fn new(oam: &Vec<u8>, i: usize) -> (r: Sprite)
        requires
            i < OAM_SPRITES,
        ensures
            r.y == byte_or_open(oam@, 4 * i as int),
            r.x == byte_or_open(oam@, 4 * i as int + 1),
            r.tile_id == byte_or_open(oam@, 4 * i as int + 2),
            r.attr == byte_or_open(oam@, 4 * i as int + 3),
    {
        Sprite {
            y: read_or_open(oam, 4 * i),
            x: read_or_open(oam, 4 * i + 1),
            tile_id: read_or_open(oam, 4 * i + 2),
            attr: read_or_open(oam, 4 * i + 3),
        }
    }

    pub fn priority(&self) -> (r: bool)
        ensures
            r == (self.attr & 0x80 != 0),
    {
        self.attr & 0x80 != 0
    }

    pub fn y_flip(&self) -> (r: bool)
        ensures
            r == (self.attr & 0x40 != 0),
    {
        self.attr & 0x40 != 0
    }

    pub fn x_flip(&self) -> (r: bool)
        ensures
            r == (self.attr & 0x20 != 0),
    {
        self.attr & 0x20 != 0
    }

    pub fn palette(&self) -> (r: bool)
        ensures
            r == (self.attr & 0x10 != 0),
    {
        self.attr & 0x10 != 0
    }
}

fn tile_pixel_at(vram: &Vec<u8>, tile: usize, row: usize, col: usize) -> (r: u8)
    requires
        tile <= 0x10000,
        row < 16,
        col < 8,
    ensures
        r == tile_pixel(vram@, tile as int, row as int, col as int),
        r <= 3,
{
    let lo = read_or_open(vram, tile + row * 2);
    let hi = read_or_open(vram, tile + row * 2 + 1);
    let k = (7 - col) as u8;
    let b_hi = (hi >> k) & 1;
    let b_lo = (lo >> k) & 1;
    proof {
        assert(b_hi <= 1 && b_lo <= 1) by (bit_vector)
            requires b_hi == (hi >> k) & 1, b_lo == (lo >> k) & 1;
    }
    b_hi * 2 + b_lo
}

fn shade_of(pal: u8, idx: u8) -> (r: u8)
    requires
        idx <= 3,
    ensures
        r == shade(pal, idx),
        r <= 3,
{
    let r = (pal >> (idx * 2)) & 0x03;
    assert(r <= 3) by (bit_vector)
        requires r == (pal >> (idx * 2)) & 0x03;
    r
}

impl Ppu {
    /// The background or window colour number at column `x` of line LY.
    #[verifier::rlimit(40)]
    fn bg_window_at(&self, x: usize) -> (r: u8)
        requires
            x < SCREEN_WIDTH,
        ensures
            r == bg_window_index(self@, x as int),
            r <= 3,
    {
        if !self.lcdc.bg_window_enable() {
            return 0;
        }
        if self.lcdc.window_display_enable() && self.wy <= self.ly && x + 7 >= self.wx as usize {
            let y = (self.ly - self.wy) as usize;
            let px = x + 7 - self.wx as usize;
            let map: usize = if self.lcdc.window_tile_map_select() { 0x1C00 } else { 0x1800 };
            let id = read_or_open(&self.vram, map + (y / 8) * 32 + px / 8);
            let tile: usize = if self.lcdc.tile_data_select() || id >= 128 {
                id as usize * 16
            } else {
                0x1000 + id as usize * 16
            };
            tile_pixel_at(&self.vram, tile, y % 8, px % 8)
        } else {
            let y = self.ly.wrapping_add(self.scy) as usize;
            let px = ((x + self.scx as usize) % 256) as usize;
            let map: usize = if self.lcdc.bg_tile_map_select() { 0x1C00 } else { 0x1800 };
            let id = read_or_open(&self.vram, map + (y / 8) * 32 + px / 8);
            let tile: usize = if self.lcdc.tile_data_select() || id >= 128 {
                id as usize * 16
            } else {
                0x1000 + id as usize * 16
            };
            tile_pixel_at(&self.vram, tile, y % 8, px % 8)
        }
    }

    /// The sprites of line LY, in OAM order, at most ten.
    fn select_sprites(&self) -> (r: Vec<usize>)
        ensures
            r@ == line_sprites(self@, OAM_SPRITES as int),
            forall|j: int| 0 <= j < r@.len() ==> r@[j] < OAM_SPRITES,
    {
        let tall = self.lcdc.sprite_size();
        let h: usize = if tall { 16 } else { 8 };
        let mut sel: Vec<usize> = Vec::new();
        let mut i: usize = 0;
        while i < OAM_SPRITES
            invariant
                i <= OAM_SPRITES,
                h as int == sprite_height(self@.lcdc),
                sel@ == line_sprites(self@, i as int),
                forall|j: int| 0 <= j < sel@.len() ==> sel@[j] < i,
            decreases OAM_SPRITES - i,
        {
            let sprite = Sprite::new(&self.oam, i);
            let line = self.ly as usize + 16;
            if sel.len() < MAX_LINE_SPRITES && line >= sprite.y as usize && line < sprite.y as usize + h {
                sel.push(i);
            }
            i = i + 1;
        }
        sel
    }

    /// The colour number of sprite `s` at column `x`, which it covers.
    fn sprite_index_at(&self, s: usize, x: usize) -> (r: u8)
        requires
            s < OAM_SPRITES,
            x < SCREEN_WIDTH,
            on_line(self@, s as int),
            covers(self@, s as int, x as int),
        ensures
            r == sprite_index(self@, s as int, x as int),
            r <= 3,
    {
        let sprite = Sprite::new(&self.oam, s);
        let tall = self.lcdc.sprite_size();
        let h: usize = if tall { 16 } else { 8 };
        let row0 = self.ly as usize + 16 - sprite.y as usize;
        let row = if sprite.y_flip() { h - 1 - row0 } else { row0 };
        let tile = if tall { sprite.tile_id & 0xFE } else { sprite.tile_id };
        let col0 = x + 8 - sprite.x as usize;
        let col = if sprite.x_flip() { 7 - col0 } else { col0 };
        tile_pixel_at(&self.vram, tile as usize * 16, row, col)
    }

    /// The shade of column `x` of line LY.
    fn pixel_at(&self, sel: &Vec<usize>, x: usize) -> (r: u8)
        requires
            x < SCREEN_WIDTH,
            sel@ == line_sprites(self@, OAM_SPRITES as int),
            forall|j: int| 0 <= j < sel@.len() ==> sel@[j] < OAM_SPRITES,
        ensures
            r == pixel(self@, x as int),
    {
        let bg = self.bg_window_at(x);
        let mut top: Option<usize> = None;
        let mut top_x: u8 = 0;
        if self.lcdc.sprite_enable() {
            let mut k: usize = 0;
            while k < sel.len()
                invariant
                    k <= sel@.len(),
                    x < SCREEN_WIDTH,
                    sel@ == line_sprites(self@, OAM_SPRITES as int),
                    forall|j: int| 0 <= j < sel@.len() ==> sel@[j] < OAM_SPRITES,
                    top == top_sprite(self@, sel@, x as int, bg, k as int),
                    top is Some ==> top_x == oam_byte(self@, top->0 as int, 1),
                    top is Some ==> top->0 < OAM_SPRITES,
                decreases sel@.len() - k,
            {
                let s = sel[k];
                let sprite = Sprite::new(&self.oam, s);
                if x + 8 >= sprite.x as usize && x + 8 < sprite.x as usize + 8 {
                    proof {
                        lemma_line_sprites_on_line(self@, OAM_SPRITES as int, k as int);
                    }
                    let idx = self.sprite_index_at(s, x);
                    if idx != 0 && (!sprite.priority() || bg == 0) && (top.is_none() || sprite.x < top_x) {
                        top = Some(s);
                        top_x = sprite.x;
                    }
                }
                k = k + 1;
            }
        }
        match top {
            Some(s) => {
                let sprite = Sprite::new(&self.oam, s);
                proof {
                    lemma_top_sprite_fits(self@, sel@, x as int, bg, sel@.len() as int);
                }
                let idx = self.sprite_index_at(s, x);
                let pal = if sprite.palette() { self.obp1 } else { self.obp0 };
                shade_of(pal, idx)
            },
            None => shade_of(self.bgp, bg),
        }
    }

    /// Draw line LY into the frame buffer.
    pub fn render_line(&mut self)
        requires
            old(self)@.vram.len() == super::VRAM_SIZE,
            old(self)@.oam.len() == super::OAM_SIZE,
            old(self)@.buffer.len() == SCREEN_PIXELS,
            old(self).ly < 144,
        ensures
            final(self)@ == (PpuView { buffer: with_line(old(self)@), ..old(self)@ }),
    {
        let sel = self.select_sprites();
        let mut line: Vec<u8> = Vec::new();
        let mut x: usize = 0;
        while x < SCREEN_WIDTH
            invariant
                x <= SCREEN_WIDTH,
                line@.len() == x,
                sel@ == line_sprites(self@, OAM_SPRITES as int),
                forall|j: int| 0 <= j < sel@.len() ==> sel@[j] < OAM_SPRITES,
                forall|i: int| 0 <= i < x ==> #[trigger] line@[i] == pixel(self@, i),
            decreases SCREEN_WIDTH - x,
        {
            let p = self.pixel_at(&sel, x);
            line.push(p);
            x = x + 1;
        }
        let base = self.ly as usize * SCREEN_WIDTH;
        let mut x: usize = 0;
        while x < SCREEN_WIDTH
            invariant
                x <= SCREEN_WIDTH,
                base == old(self).ly as int * 160,
                old(self).ly < 144,
                line@.len() == SCREEN_WIDTH,
                forall|i: int| 0 <= i < SCREEN_WIDTH ==> #[trigger] line@[i] == pixel(old(self)@, i),
                self@ == (PpuView { buffer: self@.buffer, ..old(self)@ }),
                self@.buffer.len() == SCREEN_PIXELS,
                forall|i: int| 0 <= i < SCREEN_PIXELS ==> #[trigger] self@.buffer[i] == if base <= i < base + x {
                    pixel(old(self)@, i - base)
                } else {
                    old(self)@.buffer[i]
                },
            decreases SCREEN_WIDTH - x,
        {
            self.buffer.set(base + x, line[x]);
            x = x + 1;
        }
        assert(self@.buffer =~= with_line(old(self)@));
    }
}

/// Every sprite listed for the line covers the line.
proof fn lemma_line_sprites_on_line(v: PpuView, n: int, k: int)
    requires
        0 <= k < line_sprites(v, n).len(),
        n <= OAM_SPRITES,
    ensures
        on_line(v, line_sprites(v, n)[k] as int),
    decreases n,
{
    if n > 0 {
        let s = line_sprites(v, n - 1);
        if k < s.len() {
            lemma_line_sprites_on_line(v, n - 1, k);
        } else {
            assert(line_sprites(v, n)[k] == (n - 1) as usize);
        }
    }
}

/// The sprite drawn at a column is one of the line's, covers the column, and
/// is within OAM.
proof fn lemma_top_sprite_fits(v: PpuView, sel: Seq<usize>, x: int, bg: u8, k: int)
    requires
        sel == line_sprites(v, OAM_SPRITES as int),
        0 <= k <= sel.len(),
        forall|j: int| 0 <= j < sel.len() ==> sel[j] < OAM_SPRITES,
    ensures
        top_sprite(v, sel, x, bg, k) is Some ==> {
            let s = top_sprite(v, sel, x, bg, k)->0;
            &&& s < OAM_SPRITES
            &&& on_line(v, s as int)
            &&& covers(v, s as int, x)
        },
    decreases k,
{
    if k > 0 {
        lemma_top_sprite_fits(v, sel, x, bg, k - 1);
        lemma_line_sprites_on_line(v, OAM_SPRITES as int, k - 1);
    }
}

} // verus!
