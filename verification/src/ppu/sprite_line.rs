use vstd::prelude::*;
use crate::mappers::{Mapper, MapperWrapper};
use crate::ppu::{PPU, spec_palette_entry};
use crate::ppu::mask::MaskRegister;
use crate::ppu::sprite::Sprite;
use crate::ppu::status::StatusRegister;
use crate::rendering::scanline::{ScanlinePixel, SpriteColor};

verus! {

/// Whether sprite `k` of `oam` covers scanline `next`: its y is below 239 and `next` lies in
/// the eight lines after it.
pub open spec fn sprite_in_range(oam: Seq<u8>, k: int, next: int) -> bool {
    oam[4 * k] < 239 && next > oam[4 * k] && next < oam[4 * k] + 9
}

/// The first eight sprites among the first `n` of `oam` that cover scanline `next`, in OAM order.
pub open spec fn selected_sprites(oam: Seq<u8>, next: int, n: nat) -> Seq<int>
    decreases n,
{
    if n == 0 {
        Seq::empty()
    } else {
        let prev = selected_sprites(oam, next, (n - 1) as nat);
        if prev.len() < 8 && sprite_in_range(oam, n - 1, next) {
            prev.push(n - 1)
        } else {
            prev
        }
    }
}

/// Sprite `k` of `oam`; sprite 0 is marked as sprite zero.
pub open spec fn oam_sprite(oam: Seq<u8>, k: int) -> Sprite {
    Sprite {
        y_pos: oam[4 * k],
        pattern_index: oam[4 * k + 1],
        attributes: oam[4 * k + 2],
        x_pos: oam[4 * k + 3],
        sprite_zero: k == 0,
        upper_half: false,
    }
}

pub open spec fn flips_horizontally(s: Sprite) -> bool {
    (s.attributes / 64) % 2 == 1
}

pub open spec fn flips_vertically(s: Sprite) -> bool {
    s.attributes >= 128
}

pub open spec fn in_front(s: Sprite) -> bool {
    (s.attributes / 32) % 2 == 0
}

/// The tile row of sprite `s` that scanline `next` shows.
pub open spec fn sprite_row(s: Sprite, next: int) -> int {
    if flips_vertically(s) { 7 - (next - s.y_pos) } else { next - s.y_pos }
}

/// The pattern address of sprite `s`'s tile.
pub open spec fn sprite_tile_addr(p: PPU, s: Sprite) -> u16 {
    ((if p.control_register.bits & crate::ppu::control::ControlRegister::SPRITE_PATTERN_ADDR != 0 { 0x1000int } else { 0int })
        + s.pattern_index * 16) as u16
}

/// The four colour indices of sprite palette `i`.
pub open spec fn sprite_palette(p: PPU, i: int) -> Seq<u8> {
    let grey = p.mask_register.bits & MaskRegister::GREYSCALE != 0;
    seq![
        0u8,
        spec_palette_entry(p.palette_table, grey, 0x11 + i * 4),
        spec_palette_entry(p.palette_table, grey, 0x12 + i * 4),
        spec_palette_entry(p.palette_table, grey, 0x13 + i * 4),
    ]
}

/// The system colours the emphasis bits select.
pub open spec fn current_colors(p: PPU) -> Seq<(u8, u8, u8)> {
    p.system_palette.palettes@[p.mask_register.bits as int / 32]@
}

/// The sprite line being drawn: the pixels, and the first column and width of sprite zero's
/// opaque pixels (`zero_start` at most 0 while none was seen).
pub struct SpriteLine {
    pub pixels: Seq<ScanlinePixel>,
    pub zero_start: int,
    pub zero_len: int,
}

/// The 2-bit colour index of column `x` of a sprite row with bit planes `lo` and `hi`.
pub open spec fn row_color_index(lo: u8, hi: u8, x: int) -> u8 {
    (((hi >> ((7 - x) as u8)) & 1u8) << 1u8) | ((lo >> ((7 - x) as u8)) & 1u8)
}

/// Column `x` of a tile row takes bit `7 - x` of each bit plane, so the leftmost column shows
/// the most significant bits: the high plane gives bit 1 of the colour index, the low plane
/// bit 0.
pub proof fn law_row_color_index(lo: u8, hi: u8, x: int)
    requires
        0 <= x < 8,
    ensures
        ({
            let weight = seq![128int, 64, 32, 16, 8, 4, 2, 1][x];
            row_color_index(lo, hi, x) == 2 * ((hi as int / weight) % 2) + (lo as int / weight) % 2
        }),
{
    crate::bits::lemma_plane_bits(lo, hi);
    assert(seq![128int, 64, 32, 16, 8, 4, 2, 1][x] == if x == 0 { 128int } else if x == 1 { 64 } else if x
        == 2 { 32 } else if x == 3 { 16 } else if x == 4 { 8 } else if x == 5 { 4 } else if x == 6 { 2 } else { 1 });
}

/// Column `x` (0 leftmost in the tile) of sprite `s` drawn into `st`: transparent pixels are
/// skipped; sprite zero's opaque pixels extend its span; pixels left of column 256 get the
/// sprite's colour and priority.
pub open spec fn draw_pixel(st: SpriteLine, s: Sprite, lo: u8, hi: u8, palette: Seq<u8>, colors: Seq<(u8, u8, u8)>, x: int) -> SpriteLine {
    let idx = row_color_index(lo, hi, x);
    if idx == 0 {
        st
    } else {
        let x_pos = if flips_horizontally(s) { s.x_pos + 7 - x } else { x + s.x_pos };
        let rgb = colors[palette[idx as int] as int];
        SpriteLine {
            pixels: if x_pos < 256 {
                st.pixels.update(
                    x_pos,
                    ScanlinePixel {
                        sprite_color: SpriteColor { color: rgb, behind_background: !in_front(s), transparent: false },
                        ..st.pixels[x_pos]
                    },
                )
            } else {
                st.pixels
            },
            zero_start: if s.sprite_zero && st.zero_start <= 0 { x_pos } else { st.zero_start },
            zero_len: if s.sprite_zero { if st.zero_start <= 0 { 1 } else { st.zero_len + 1 } } else { st.zero_len },
        }
    }
}

/// The first `n` columns drawn, from column 7 leftwards.
pub open spec fn draw_sprite_row(st: SpriteLine, s: Sprite, lo: u8, hi: u8, palette: Seq<u8>, colors: Seq<(u8, u8, u8)>, n: nat) -> SpriteLine
    decreases n,
{
    if n == 0 {
        st
    } else {
        draw_pixel(draw_sprite_row(st, s, lo, hi, palette, colors, (n - 1) as nat), s, lo, hi, palette, colors, 7 - (n - 1))
    }
}

/// The line after the last `m` of the first `count` sprite slots of `p` were drawn, the last
/// slot first, so that earlier sprites end up in front.
pub open spec fn draw_sprites(st: SpriteLine, p: PPU, mapper: MapperWrapper, next: int, count: int, m: nat) -> SpriteLine
    decreases m,
{
    if m == 0 {
        st
    } else {
        let prev = draw_sprites(st, p, mapper, next, count, (m - 1) as nat);
        let s = p.sprite_buffer@[count - m];
        let tile = mapper.tile_at(sprite_tile_addr(p, s));
        let row = sprite_row(s, next);
        draw_sprite_row(prev, s, tile[row], tile[row + 8], sprite_palette(p, (s.attributes % 4) as int), current_colors(p), 8)
    }
}

/// The sprite slots after the sprites `sel` of `oam` were copied into the first slots.
pub open spec fn selected_buffer(old_buffer: Seq<Sprite>, oam: Seq<u8>, sel: Seq<int>) -> Seq<Sprite> {
    Seq::new(8, |j: int| if j < sel.len() { oam_sprite(oam, sel[j]) } else { old_buffer[j] })
}

/// Whether the sprites that cover scanline `next` can be drawn without a read outside memory:
/// each is shown on one of its first seven lines (a row inside its tile), the mapper can read
/// its tile, and the sprite palettes hold system colour numbers.
pub open spec fn sprites_drawable(p: PPU, mapper: MapperWrapper, next: int) -> bool {
    let sel = selected_sprites(p.oam_data@, next, 64);
    &&& forall|j: int|
        0 <= j < sel.len() ==> next < (#[trigger] oam_sprite(p.oam_data@, sel[j])).y_pos + 8
            && mapper.tile_ok(sprite_tile_addr(p, oam_sprite(p.oam_data@, sel[j])))
    &&& forall|i: int| 0x11 <= i < 0x20 ==> #[trigger] p.palette_table@[i] < 64
}

/// What finding and drawing the sprites of the scanline after `start.scan_line` does: the
/// selected sprites fill the first slots of the sprite buffer, the overflow flag is set when
/// eight were found, the line `pixels` becomes `after_pixels` with the sprites drawn, and the
/// columns sprite zero covers are recorded (an empty span when it has no opaque pixel or starts
/// at column 0). Nothing else changes.
pub open spec fn sprites_computed(
    start: PPU,
    mapper: MapperWrapper,
    pixels: Seq<ScanlinePixel>,
    after: PPU,
    after_pixels: Seq<ScanlinePixel>,
) -> bool {
    let next = start.scan_line + 1;
    let oam = start.oam_data@;
    let sel = selected_sprites(oam, next, 64);
    let p = PPU {
        status_register: StatusRegister {
            bits: if sel.len() == 8 { start.status_register.bits | StatusRegister::SPRITE_OVERFLOW } else { start.status_register.bits },
        },
        ..start
    };
    let line = draw_sprites(
        SpriteLine { pixels: pixels, zero_start: -1, zero_len: 0 },
        PPU { sprite_buffer: after.sprite_buffer, ..p },
        mapper,
        next,
        sel.len() as int,
        sel.len(),
    );
    &&& after.sprite_buffer@ == selected_buffer(start.sprite_buffer@, oam, sel)
    &&& after_pixels == line.pixels
    &&& after.sprite_zero_start == (if line.zero_start <= 0 { 0 } else { line.zero_start as usize })
    &&& after.sprite_zero_end == (if line.zero_start <= 0 { 0 } else { (line.zero_start + line.zero_len) as usize })
    &&& after == PPU {
        sprite_buffer: after.sprite_buffer,
        sprite_zero_start: after.sprite_zero_start,
        sprite_zero_end: after.sprite_zero_end,
        ..p
    }
}

/// At most eight sprites are selected, all among the first `n` and all covering `next`.
pub proof fn lemma_selected_bounded(oam: Seq<u8>, next: int, n: nat)
    ensures
        selected_sprites(oam, next, n).len() <= 8,
        forall|j: int|
            0 <= j < selected_sprites(oam, next, n).len() ==> 0 <= #[trigger] selected_sprites(oam, next, n)[j] < n
                && sprite_in_range(oam, selected_sprites(oam, next, n)[j], next),
    decreases n,
{
    if n > 0 {
        lemma_selected_bounded(oam, next, (n - 1) as nat);
    }
}

/// Once eight sprites were found, later sprites change nothing.
pub proof fn lemma_selected_full(oam: Seq<u8>, next: int, m: nat, n: nat)
    requires
        m <= n,
        selected_sprites(oam, next, m).len() == 8,
    ensures
        selected_sprites(oam, next, n) == selected_sprites(oam, next, m),
    decreases n - m,
{
    if n > m {
        lemma_selected_full(oam, next, m, (n - 1) as nat);
    }
}

/// A tile a mapper can read is sixteen bytes long.
pub proof fn lemma_tile_len(mapper: MapperWrapper, addr: u16)
    requires
        mapper.tile_ok(addr),
    ensures
        mapper.tile_at(addr).len() == 16,
{
}

} // verus!

verus! {

/// All sprites among the first `n` of `oam` that cover scanline `next`, in OAM order.
pub open spec fn sprites_in_range(oam: Seq<u8>, next: int, n: nat) -> Seq<int>
    decreases n,
{
    if n == 0 {
        Seq::empty()
    } else {
        let prev = sprites_in_range(oam, next, (n - 1) as nat);
        if sprite_in_range(oam, n - 1, next) {
            prev.push(n - 1)
        } else {
            prev
        }
    }
}

/// The line after the last `m` of `sprites` were drawn with their tiles read from the pattern
/// memory `chr`, the last first, so that earlier sprites end up in front.
pub open spec fn draw_sprite_list(st: SpriteLine, sprites: Seq<Sprite>, p: PPU, chr: Seq<u8>, next: int, m: nat) -> SpriteLine
    decreases m,
{
    if m == 0 {
        st
    } else {
        let prev = draw_sprite_list(st, sprites, p, chr, next, (m - 1) as nat);
        let s = sprites[sprites.len() - m];
        let a = sprite_tile_addr(p, s) as int;
        let row = sprite_row(s, next);
        draw_sprite_row(prev, s, chr[a + row], chr[a + row + 8], sprite_palette(p, (s.attributes % 4) as int), current_colors(p), 8)
    }
}

/// The sprites drawn on scanline `next`: the first eight that cover it.
pub open spec fn drawn_sprites(oam: Seq<u8>, next: int) -> Seq<Sprite> {
    let all = sprites_in_range(oam, next, 64);
    let n = if all.len() > 8 { 8 } else { all.len() };
    Seq::new(n, |j: int| oam_sprite(oam, all[j]))
}

/// Whether the sprites drawn on scanline `next` can be drawn from the pattern memory `chr`:
/// each is shown on one of its first seven lines, its tile lies inside `chr`, and the sprite
/// palettes hold system colour numbers.
pub open spec fn sprites_renderable(p: PPU, chr: Seq<u8>, next: int) -> bool {
    let d = drawn_sprites(p.oam_data@, next);
    &&& forall|j: int|
        0 <= j < d.len() ==> next < (#[trigger] d[j]).y_pos + 8 && sprite_tile_addr(p, d[j]) + 16 <= chr.len()
    &&& forall|i: int| 0x11 <= i < 0x20 ==> #[trigger] p.palette_table@[i] < 64
}

/// All sprites in range cover `next`, in increasing OAM order below `n`.
pub proof fn lemma_in_range_bounded(oam: Seq<u8>, next: int, n: nat)
    ensures
        sprites_in_range(oam, next, n).len() <= n,
        forall|j: int|
            0 <= j < sprites_in_range(oam, next, n).len() ==> 0 <= #[trigger] sprites_in_range(oam, next, n)[j] < n
                && sprite_in_range(oam, sprites_in_range(oam, next, n)[j], next),
    decreases n,
{
    if n > 0 {
        lemma_in_range_bounded(oam, next, (n - 1) as nat);
    }
}

} // verus!
