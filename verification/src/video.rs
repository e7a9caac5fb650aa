//! Decoding video memory into what the screen shows: tile pixels, the
//! background map, and sprites. Drawing itself is left to the caller.
use vstd::prelude::*;
use crate::state::sext8;

verus! {

/// Width and height, in pixels, of a sheet of 16 x 16 tiles.
pub const SHEET_SIDE: usize = 128;

/// Copy of an 8 x 8 square from a tile sheet to the screen.
#[derive(PartialEq, Eq, Structural, Clone, Copy, Debug)]
pub struct Blit {
    /// Top-left corner in the tile sheet.
    pub sx: i16,
    pub sy: i16,
    /// Top-left corner on the screen.
    pub dx: i16,
    pub dy: i16,
}

/// The 2-bit shade of pixel `px` (0 = leftmost) of a tile line whose low
/// and high bit planes are `lo` and `hi`.
pub open spec fn shade(lo: u8, hi: u8, px: u8) -> u8 {
    ((lo >> ((7 - px) as u8)) & 1) | (((hi >> ((7 - px) as u8)) & 1) << 1u8)
}

/// The screen colour of a shade: 0 white to 3 black.
pub open spec fn shade_color(c: u8) -> u32 {
    if c == 3 {
        0
    } else if c == 2 {
        0x555555
    } else if c == 1 {
        0xAAAAAA
    } else {
        0xFFFFFF
    }
}

/// The colour of pixel `i` (row-major, 128 per row) of the sheet of the
/// 256 tiles stored from `base` on: tile `t` sits at column `t % 16`, row
/// `t / 16`; each tile is 16 bytes, two per line.
pub open spec fn sheet_pixel(vram: Seq<u8>, base: int, i: int) -> u32 {
    let x = i % 128;
    let y = i / 128;
    let tile = (y / 8) * 16 + x / 8;
    let addr = base + tile * 16 + 2 * (y % 8);
    shade_color(shade(vram[addr], vram[addr + 1], (x % 8) as u8))
}

/// The tile number a background map byte selects: unsigned, or signed
/// and offset by 128 when the map uses the tiles from 0x8800 on.
pub open spec fn bg_tile(raw: u8, signed: bool) -> int {
    if signed {
        sext8(raw) + 128
    } else {
        raw as int
    }
}

/// Whether bit `k` of the LCD control register is set.
pub open spec fn lcdc_bit(lcdc: u8, k: u8) -> bool {
    (lcdc >> k) & 1 == 1
}

/// Where the background map starts in video memory.
pub open spec fn bg_map_base(lcdc: u8) -> int {
    if lcdc_bit(lcdc, 3) {
        0x1C00
    } else {
        0x1800
    }
}

/// The background is drawn from the tiles at 0x8800 (signed numbers) when
/// bit 4 of the LCD control is clear.
pub open spec fn bg_signed(lcdc: u8) -> bool {
    !lcdc_bit(lcdc, 4)
}

/// The copy that draws background cell `k` (row `k / 32`, column `k % 32`).
pub open spec fn bg_blit(vram: Seq<u8>, lcdc: u8, k: int) -> Blit {
    let tile = bg_tile(vram[bg_map_base(lcdc) + k], bg_signed(lcdc));
    Blit {
        sx: (tile % 16 * 8) as i16,
        sy: (tile / 16 * 8) as i16,
        dx: (k % 32 * 8) as i16,
        dy: (k / 32 * 8) as i16,
    }
}

/// Whether sprite entry `i` of the attribute table lies in the drawn area.
pub open spec fn sprite_visible(oam: Seq<u8>, i: int) -> bool {
    let y = oam[4 * i] - 16;
    let x = oam[4 * i + 1] - 8;
    !(0 > y || y > 144 + 16 || 0 > x || x > 160 + 8)
}

/// The copies that draw sprite entry `i`: one tile, or two stacked for
/// 8 x 16 sprites (the first tile number made even).
pub open spec fn sprite_blits_of(oam: Seq<u8>, tall: bool, i: int) -> Seq<Blit> {
    let y = oam[4 * i] - 16;
    let x = oam[4 * i + 1] - 8;
    let t0 = oam[4 * i + 2] as int;
    let t = if tall { (oam[4 * i + 2] & 0xFE) as int } else { t0 };
    let first = Blit { sx: (t % 16 * 8) as i16, sy: (t / 16 * 8) as i16, dx: x as i16, dy: y as i16 };
    if !sprite_visible(oam, i) {
        Seq::empty()
    } else if tall {
        let t2 = t + 1;
        seq![first, Blit { sx: (t2 % 16 * 8) as i16, sy: (t2 / 16 * 8) as i16, dx: x as i16, dy: (y + 8) as i16 }]
    } else {
        seq![first]
    }
}

/// The copies that draw the first `k` sprite entries, in order.
pub open spec fn sprite_blits_upto(oam: Seq<u8>, tall: bool, k: int) -> Seq<Blit>
    decreases k,
{
    if k <= 0 {
        Seq::empty()
    } else {
        sprite_blits_upto(oam, tall, k - 1) + sprite_blits_of(oam, tall, k - 1)
    }
}

fn shade_color_exec(c: u8) -> (r: u32)
    ensures
        r == shade_color(c),
{
    if c == 3 {
        0
    } else if c == 2 {
        0x555555
    } else if c == 1 {
        0xAAAAAA
    } else {
        0xFFFFFF
    }
}

/// The 128 x 128 sheet of the 256 tiles stored from `base` on, row-major.
pub fn tile_sheet(vram: &[u8], base: usize) -> (sheet: Vec<u32>)
    requires
        base == 0 || base == 0x800,
        vram@.len() >= base + 0x1000,
    ensures
        sheet@.len() == 128 * 128,
        forall|i: int| 0 <= i < 128 * 128 ==> sheet@[i] == #[trigger] sheet_pixel(vram@, base as int, i),
{
    let mut sheet: Vec<u32> = Vec::new();
    let mut i: usize = 0;
    while i < 128 * 128
        invariant
            i <= 128 * 128,
            sheet@.len() == i,
            base == 0 || base == 0x800,
            vram@.len() >= base + 0x1000,
            forall|j: int| 0 <= j < i ==> sheet@[j] == #[trigger] sheet_pixel(vram@, base as int, j),
        decreases 128 * 128 - i,
    {
        let x = i % 128;
        let y = i / 128;
        let tile = (y / 8) * 16 + x / 8;
        let addr = base + tile * 16 + 2 * (y % 8);
        let px = (x % 8) as u8;
        let c = (vram[addr] >> (7 - px)) & 1 | ((vram[addr + 1] >> (7 - px)) & 1) << 1;
        sheet.push(shade_color_exec(c));
        i = i + 1;
    }
    sheet
}

/// The tile number that background map byte `raw` selects.
pub fn bg_tile_number(raw: u8, signed: bool) -> (t: i16)
    ensures
        t == bg_tile(raw, signed),
        0 <= t < 256,
{
    if signed {
        if raw < 128 {
            raw as i16 + 128
        } else {
            raw as i16 - 128
        }
    } else {
        raw as i16
    }
}

/// The 32 x 32 copies that draw the background map, row by row.
pub fn background_blits(vram: &[u8], lcdc: u8) -> (out: Vec<Blit>)
    requires
        vram@.len() >= 0x2000,
    ensures
        out@.len() == 1024,
        forall|k: int| 0 <= k < 1024 ==> out@[k] == #[trigger] bg_blit(vram@, lcdc, k),
{
    let base: usize = if (lcdc >> 3) & 1 == 1 { 0x1C00 } else { 0x1800 };
    let signed = !((lcdc >> 4) & 1 == 1);
    let mut out: Vec<Blit> = Vec::new();
    let mut k: usize = 0;
    while k < 1024
        invariant
            k <= 1024,
            out@.len() == k,
            vram@.len() >= 0x2000,
            base == bg_map_base(lcdc),
            signed == bg_signed(lcdc),
            forall|j: int| 0 <= j < k ==> out@[j] == #[trigger] bg_blit(vram@, lcdc, j),
        decreases 1024 - k,
    {
        let row = k / 32;
        let cell = k % 32;
        let tile_n = bg_tile_number(vram[base + row * 32 + cell], signed);
        let sx = tile_n % 16 * 8;
        let sy = tile_n / 16 * 8;
        out.push(Blit { sx, sy, dx: (cell * 8) as i16, dy: (row * 8) as i16 });
        k = k + 1;
    }
    out
}

/// The copies that draw the 40 sprites of the attribute table `oam`.
pub fn sprite_blits(oam: &[u8], tall: bool) -> (out: Vec<Blit>)
    requires
        oam@.len() >= 160,
    ensures
        out@ == sprite_blits_upto(oam@, tall, 40),
{
    let mut out: Vec<Blit> = Vec::new();
    let mut i: usize = 0;
    while i < 40
        invariant
            i <= 40,
            oam@.len() >= 160,
            out@ == sprite_blits_upto(oam@, tall, i as int),
        decreases 40 - i,
    {
        let base = i * 4;
        let y = oam[base] as i16 - 16;
        let x = oam[base + 1] as i16 - 8;
        if 0 > y || y > 144 + 16 || 0 > x || x > 160 + 8 {
            assert(sprite_blits_of(oam@, tall, i as int) =~= Seq::<Blit>::empty());
            i = i + 1;
            continue;
        }
        let mut tile_n = oam[base + 2] as i16;
        if tall {
            tile_n = (oam[base + 2] & 0xFE) as i16;
        }
        let sx = tile_n % 16 * 8;
        let sy = tile_n / 16 * 8;
        let ghost before = out@;
        out.push(Blit { sx, sy, dx: x, dy: y });
        if tall {
            tile_n += 1;
            let sx = tile_n % 16 * 8;
            let sy = tile_n / 16 * 8;
            out.push(Blit { sx, sy, dx: x, dy: y + 8 });
        }
        assert(out@ =~= before + sprite_blits_of(oam@, tall, i as int));
        i = i + 1;
    }
    out
}

/// The tile sheet the background uses: the one from 0x8800 (`true`) or the
/// one from 0x8000.
pub fn bg_uses_signed_tiles(lcdc: u8) -> (r: bool)
    ensures
        r == bg_signed(lcdc),
{
    !((lcdc >> 4) & 1 == 1)
}

/// Whether sprites are shown (LCD control bit 1), and whether they are
/// 8 x 16 (bit 2).
pub fn sprite_mode(lcdc: u8) -> (r: (bool, bool))
    ensures
        r.0 == lcdc_bit(lcdc, 1),
        r.1 == lcdc_bit(lcdc, 2),
{
    ((lcdc >> 1) & 1 == 1, (lcdc >> 2) & 1 == 1)
}

} // verus!
