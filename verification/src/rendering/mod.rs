use vstd::prelude::*;
use crate::ppu::palette::SystemPalette;
use crate::ppu::PPU;
use crate::ppu::mask::MaskRegister;
use crate::ppu::spec_palette_entry;
use crate::rendering::frame::{Frame, pixel_fits, with_pixel, SCREEN_WIDTH};
use crate::rendering::scanline::{Scanline, SpriteColor};
use crate::ppu::sprite::Sprite;
use crate::ppu::status::StatusRegister;
use crate::ppu::supported_mirroring;
use crate::rendering::background::{bg_address_advanced, bg_line, bg_renderable, render_bg};
use crate::ppu::sprite_line::{
    SpriteLine, sprite_in_range, sprites_in_range, draw_sprite_list, draw_sprite_row, drawn_sprites, oam_sprite,
    sprites_renderable, sprite_tile_addr, current_colors, lemma_in_range_bounded,
};

pub mod custom_tile_frame;
pub mod fps_frame;
pub mod frame;
pub mod icon_frame;
pub mod background;
pub mod scanline;

verus! {

/// The 2-bit colour index of column `x` (0 leftmost) of row `row` of an 8x8 tile: bit `7 - x`
/// of byte `row` is the low bit and bit `7 - x` of byte `row + 8` the high bit.
pub open spec fn tile_pixel_index(tile: Seq<u8>, row: int, x: int) -> u8 {
    (((tile[row + 8] >> ((7 - x) as u8)) & 1u8) << 1u8) | ((tile[row] >> ((7 - x) as u8)) & 1u8)
}

/// Whether a tile drawn with its top left corner at (`x_pos`, `y_pos`) stays within what
/// `Frame::set_pixel` accepts.
pub open spec fn tile_fits(width: usize, x_pos: usize, y_pos: usize) -> bool {
    x_pos + 8 <= usize::MAX && y_pos + 8 <= usize::MAX && pixel_fits(width, (x_pos + 7) as usize, (y_pos + 7) as usize)
}

/// The frame data after the first `n` pixels of a tile were drawn; pixels are drawn row by row,
/// each row from right to left, colour index `i` showing `colors[palette[i]]`.
pub open spec fn draw_tile(
    data: Seq<u8>,
    width: usize,
    x_pos: usize,
    y_pos: usize,
    tile: Seq<u8>,
    colors: Seq<(u8, u8, u8)>,
    palette: Seq<u8>,
    n: nat,
) -> Seq<u8>
    decreases n,
{
    if n == 0 {
        data
    } else {
        let prev = draw_tile(data, width, x_pos, y_pos, tile, colors, palette, (n - 1) as nat);
        let k = n - 1;
        let row = k / 8;
        let x = 7 - k % 8;
        with_pixel(
            prev,
            width,
            (x_pos + x) as usize,
            (y_pos + row) as usize,
            colors[palette[tile_pixel_index(tile, row, x) as int] as int],
        )
    }
}

/// A pixel left of or above one that fits fits as well.
pub proof fn lemma_pixel_fits_mono(width: usize, x: usize, y: usize, x2: usize, y2: usize)
    requires
        pixel_fits(width, x2, y2),
        x <= x2,
        y <= y2,
    ensures
        pixel_fits(width, x, y),
{
    assert(y * 3 * width <= y2 * 3 * width) by (nonlinear_arith)
        requires
            y <= y2,
    ;
}

/// The palette of the background tile at tile position (`x_pos`, `y_pos`): the universal
/// background colour and the three colours of the background palette that the attribute byte
/// for the tile's 4x4 tile block selects for the tile's 2x2 quadrant.
pub open spec fn spec_bg_palette(ppu: PPU, attribute_table: Seq<u8>, x_pos: int, y_pos: int) -> Seq<u8> {
    let attribute = attribute_table[y_pos / 4 * 8 + x_pos / 4];
    let shift = (if x_pos % 4 / 2 == 0 { 0u8 } else { 2u8 }) + (if y_pos % 4 / 2 == 0 { 0u8 } else { 4u8 });
    let palette_idx = (attribute >> (shift as u8)) & 3u8;
    let start = 1 + palette_idx * 4;
    let grey = ppu.mask_register.bits & MaskRegister::GREYSCALE != 0;
    seq![
        spec_palette_entry(ppu.palette_table, grey, 0),
        spec_palette_entry(ppu.palette_table, grey, start),
        spec_palette_entry(ppu.palette_table, grey, start + 1),
        spec_palette_entry(ppu.palette_table, grey, start + 2),
    ]
}

/// One attribute byte colours a 4x4 block of tiles, two bits per 2x2 quadrant: bits 0-1 the
/// top left, 2-3 the top right, 4-5 the bottom left and 6-7 the bottom right. Those two bits pick
/// one of the four background palettes (entries 1 + 4p to 3 + 4p of the palette table), and
/// entry 0 is the universal background colour.
pub proof fn law_attribute_quadrants(ppu: PPU, attribute_table: Seq<u8>, x_pos: int, y_pos: int)
    requires
        0 <= x_pos,
        0 <= y_pos,
    ensures
        ({
            let attribute = attribute_table[y_pos / 4 * 8 + x_pos / 4] as int;
            let quadrant = (if x_pos % 4 < 2 { 0int } else { 1 }) + (if y_pos % 4 < 2 { 0int } else { 2 });
            let p = (attribute / seq![1int, 4, 16, 64][quadrant]) % 4;
            let grey = ppu.mask_register.bits & MaskRegister::GREYSCALE != 0;
            let palette = spec_bg_palette(ppu, attribute_table, x_pos, y_pos);
            &&& palette.len() == 4
            &&& palette[0] == spec_palette_entry(ppu.palette_table, grey, 0)
            &&& palette[1] == spec_palette_entry(ppu.palette_table, grey, 1 + 4 * p)
            &&& palette[2] == spec_palette_entry(ppu.palette_table, grey, 2 + 4 * p)
            &&& palette[3] == spec_palette_entry(ppu.palette_table, grey, 3 + 4 * p)
        }),
{
    let attribute = attribute_table[y_pos / 4 * 8 + x_pos / 4];
    crate::bits::lemma_u8_arith_bits(attribute);
    let quadrant = (if x_pos % 4 < 2 { 0int } else { 1 }) + (if y_pos % 4 < 2 { 0int } else { 2 });
    let shift = (if x_pos % 4 / 2 == 0 { 0u8 } else { 2u8 }) + (if y_pos % 4 / 2 == 0 { 0u8 } else { 4u8 });
    let weight = seq![1int, 4, 16, 64][quadrant];
    if quadrant == 0 {
        assert(shift == 0 && weight == 1);
    } else if quadrant == 1 {
        assert(shift == 2 && weight == 4);
    } else if quadrant == 2 {
        assert(shift == 4 && weight == 16);
    } else {
        assert(shift == 6 && weight == 64);
    }
    assert(((attribute >> ((shift as int) as u8)) & 3u8) as int == (attribute as int / weight) % 4);
}

pub fn get_bg_palette(ppu: &PPU, attribute_table: &[u8], x_pos: usize, y_pos: usize) -> (r: [u8; 4])
    requires
        y_pos / 4 * 8 + x_pos / 4 < attribute_table@.len(),
    ensures
        r@ == spec_bg_palette(*ppu, attribute_table@, x_pos as int, y_pos as int),
{
    let _len = attribute_table.len();
    let attribute_table_idx = y_pos / 4 * 8 + x_pos / 4;
    let attribute = attribute_table[attribute_table_idx];
    let palette_idx = if x_pos % 4 / 2 == 0 {
        if y_pos % 4 / 2 == 0 { attribute & 0b11 } else { (attribute >> 4u8) & 0b11 }
    } else {
        if y_pos % 4 / 2 == 0 { (attribute >> 2u8) & 0b11 } else { (attribute >> 6u8) & 0b11 }
    };
    proof {
        crate::bits::lemma_u8_bits(attribute);
    }
    assert(attribute & 3 == (attribute >> 0u8) & 3u8) by {
        crate::bits::lemma_u8_bits(attribute);
    }
    let palette_start = (1 + palette_idx * 4) as usize;
    let r = [
        ppu.get_universal_background_color(),
        ppu.read_palette_table(palette_start),
        ppu.read_palette_table(palette_start + 1),
        ppu.read_palette_table(palette_start + 2),
    ];
    assert(r@ =~= seq![r[0], r[1], r[2], r[3]]);
    r
}

/// The palette of sprite palette `palette_idx` (0 to 3): a transparent entry and the three
/// colours that follow 0x3F10 plus four per palette.
pub fn get_sprite_palette(ppu: &PPU, palette_idx: usize) -> (r: [u8; 4])
    requires
        palette_idx < 4,
    ensures
        ({
            let start = 0x11 + palette_idx * 4;
            let grey = ppu.mask_register.bits & MaskRegister::GREYSCALE != 0;
            r@ == seq![
                0u8,
                spec_palette_entry(ppu.palette_table, grey, start),
                spec_palette_entry(ppu.palette_table, grey, start + 1),
                spec_palette_entry(ppu.palette_table, grey, start + 2),
            ]
        }),
{
    let start = 0x11 + palette_idx * 4; // + 0x11 is the offset for the sprite palette tables
    let r = [
        0,
        ppu.read_palette_table(start),
        ppu.read_palette_table(start + 1),
        ppu.read_palette_table(start + 2),
    ];
    assert(r@ =~= seq![r[0], r[1], r[2], r[3]]);
    r
}

/// Draws an 8x8 tile at (`x_pos`, `y_pos`): colour index `i` of a pixel shows colour
/// `palette[i]` of the first palette of `system_palette`.
pub fn write_tile(frame: &mut Frame, x_pos: usize, y_pos: usize, tile: &[u8], system_palette: &SystemPalette, palette: &[u8; 4])
    requires
        tile@.len() >= 16,
        forall|i: int| 0 <= i < 4 ==> #[trigger] palette@[i] < 64,
        tile_fits(old(frame).width, x_pos, y_pos),
    ensures
        final(frame).width == old(frame).width,
        final(frame).height == old(frame).height,
        final(frame).data@ == draw_tile(old(frame).data@, old(frame).width, x_pos, y_pos, tile@, system_palette.palettes@[0]@, palette@, 64),
{
    let colors = system_palette.get_palette(0);
    let ghost start = frame.data@;
    let mut y: usize = 0;
    while y < 8
        invariant
            y <= 8,
            tile@.len() >= 16,
            forall|i: int| 0 <= i < 4 ==> #[trigger] palette@[i] < 64,
            tile_fits(frame.width, x_pos, y_pos),
            frame.width == old(frame).width,
            frame.height == old(frame).height,
            start == old(frame).data@,
            colors@ == system_palette.palettes@[0]@,
            frame.data@ == draw_tile(start, frame.width, x_pos, y_pos, tile@, colors@, palette@, (y * 8) as nat),
        decreases 8 - y,
    {
        let mut upper = tile[y];
        let mut lower = tile[y + 8];
        assert(upper >> 0u8 == upper) by {
            crate::bits::lemma_u8_bits(upper);
        }
        assert(lower >> 0u8 == lower) by {
            crate::bits::lemma_u8_bits(lower);
        }
        let mut j: usize = 0;
        while j < 8
            invariant
                y < 8,
                j <= 8,
                tile@.len() >= 16,
                forall|i: int| 0 <= i < 4 ==> #[trigger] palette@[i] < 64,
                tile_fits(frame.width, x_pos, y_pos),
                frame.width == old(frame).width,
                frame.height == old(frame).height,
                start == old(frame).data@,
                colors@ == system_palette.palettes@[0]@,
                upper == tile@[y as int] >> (j as u8),
                lower == tile@[y + 8] >> (j as u8),
                frame.data@ == draw_tile(start, frame.width, x_pos, y_pos, tile@, colors@, palette@, (y * 8 + j) as nat),
            decreases 8 - j,
        {
            let x = 7 - j;
            let color_idx = ((lower & 1) << 1u8) | (upper & 1);
            let ghost t_lo = tile@[y as int];
            let ghost t_hi = tile@[y + 8];
            let ghost jj = j as u8;
            assert(color_idx < 4) by {
                crate::bits::lemma_u8_pair_bits(lower, upper);
            }
            assert((t_lo >> jj) >> 1u8 == t_lo >> ((jj + 1) as u8)) by {
                crate::bits::lemma_u8_shift_bits(t_lo, jj);
            }
            assert((t_hi >> jj) >> 1u8 == t_hi >> ((jj + 1) as u8)) by {
                crate::bits::lemma_u8_shift_bits(t_hi, jj);
            }
            upper = upper >> 1u8;
            lower = lower >> 1u8;
            let rgb = colors[palette[color_idx as usize] as usize];
            proof {
                let n = y * 8 + j;
                assert(n / 8 == y && n % 8 == j) by (nonlinear_arith)
                    requires
                        n == y * 8 + j,
                        j < 8,
                ;
                assert((7 - (7 - j)) as u8 == jj);
                lemma_pixel_fits_mono(frame.width, (x_pos + x) as usize, (y_pos + y) as usize, (x_pos + 7) as usize, (y_pos + 7) as usize);
            }
            frame.set_pixel(x_pos + x, y_pos + y, rgb);
            j = j + 1;
        }
        y = y + 1;
    }
}


/// What drawing the sprites of scanline `next` does to `p` and to the line `pixels`: every
/// sprite covering the line is found, and the overflow flag set when there are more than eight;
/// the first eight are drawn, the last first, so that earlier sprites end up in front; the
/// sprite-zero hit flag is set when sprite zero put an opaque pixel on the line.
pub open spec fn sprites_rendered(p: PPU, pixels: Seq<crate::rendering::scanline::ScanlinePixel>, chr: Seq<u8>, next: int) -> (PPU, Seq<crate::rendering::scanline::ScanlinePixel>) {
    let all = sprites_in_range(p.oam_data@, next, 64);
    let s1 = if all.len() > 8 { p.status_register.bits | StatusRegister::SPRITE_OVERFLOW } else { p.status_register.bits };
    let q = PPU { status_register: StatusRegister { bits: s1 }, ..p };
    let d = drawn_sprites(p.oam_data@, next);
    let line = draw_sprite_list(SpriteLine { pixels, zero_start: -1, zero_len: 0 }, d, q, chr, next, d.len());
    (
        PPU {
            status_register: StatusRegister {
                bits: if line.zero_len > 0 { s1 | StatusRegister::SPRITE_ZERO_HIT } else { s1 },
            },
            ..p
        },
        line.pixels,
    )
}

/// Draws the sprites of scanline `scanline_pos` (taken modulo 256) into `scanline`, reading
/// their tiles from the pattern memory `chr_rom`.
#[verifier::rlimit(40)]
pub fn render_sprites(ppu: &mut PPU, scanline: &mut Scanline, scanline_pos: usize, chr_rom: &[u8])
    requires
        sprites_renderable(*old(ppu), chr_rom@, (scanline_pos % 256) as int),
    ensures
        (*final(ppu), final(scanline).data@) == sprites_rendered(*old(ppu), old(scanline).data@, chr_rom@, (scanline_pos % 256) as int),
{
    let scanline_pos = (scanline_pos % 256) as u8;
    let ghost next = scanline_pos as int;
    let ghost oam = ppu.oam_data@;
    let ghost start = *ppu;
    let mut sprites: Vec<Sprite> = Vec::new();
    let mut k: usize = 0;
    while k < 64
        invariant
            k <= 64,
            *ppu == start,
            oam == ppu.oam_data@,
            next == scanline_pos as int,
            sprites@.len() == sprites_in_range(oam, next, k as nat).len(),
            forall|j: int| 0 <= j < sprites@.len() ==> #[trigger] sprites@[j] == oam_sprite(oam, sprites_in_range(oam, next, k as nat)[j]),
        decreases 64 - k,
    {
        let idx = k * 4;
        let y = ppu.oam_data[idx];
        if !(y >= 239 || scanline_pos < y + 1 || scanline_pos >= (y + 1 + 8)) {
            let raw = [ppu.oam_data[idx], ppu.oam_data[idx + 1], ppu.oam_data[idx + 2], ppu.oam_data[idx + 3]];
            match Sprite::new(&raw, idx == 0, false) {
                Some(sprite) => {
                    assert(sprite == oam_sprite(oam, k as int));
                    sprites.push(sprite);
                },
                None => {},
            }
        }
        k = k + 1;
    }
    proof { lemma_in_range_bounded(oam, next, 64); }
    let ghost all = sprites_in_range(oam, next, 64);
    if sprites.len() > 8 {
        ppu.set_sprite_overflow();
    }
    let ghost p = *ppu;
    let ghost s1 = p.status_register.bits;
    let ghost d = drawn_sprites(oam, next);
    let count = if sprites.len() > 8 { 8 } else { sprites.len() };
    assert(d.len() == count);
    assert(forall|j: int| 0 <= j < count ==> #[trigger] d[j] == sprites@[j]);
    let ghost pixels0 = scanline.data@;
    let mut i = count;
    while i > 0
        invariant
            i <= count,
            count == d.len(),
            count <= 8,
            count <= sprites@.len(),
            forall|j: int| 0 <= j < count ==> #[trigger] d[j] == sprites@[j],
            sprites_renderable(start, chr_rom@, next),
            d == drawn_sprites(start.oam_data@, next),
            oam == start.oam_data@,
            all == sprites_in_range(oam, next, 64),
            p == (PPU { status_register: p.status_register, ..start }),
            next == scanline_pos as int,
            ({
                let line = draw_sprite_list(SpriteLine { pixels: pixels0, zero_start: -1, zero_len: 0 }, d, p, chr_rom@, next, (count - i) as nat);
                &&& scanline.data@ == line.pixels
                &&& line.zero_len >= 0
                &&& *ppu == (PPU {
                    status_register: StatusRegister { bits: if line.zero_len > 0 { s1 | StatusRegister::SPRITE_ZERO_HIT } else { s1 } },
                    ..p
                })
            }),
        decreases i,
    {
        i = i - 1;
        let sprite = sprites[i];
        assert(sprite == d[i as int]);
        assert(next < d[i as int].y_pos + 8 && sprite_tile_addr(start, d[i as int]) + 16 <= chr_rom@.len());
        proof { lemma_in_range_bounded(oam, next, 64); }
        assert(d[i as int] == oam_sprite(oam, all[i as int]));
        assert(sprite_in_range(oam, all[i as int], next));
        let palette = get_sprite_palette(ppu, sprite.get_palette_index());
        let bank = ppu.control_register.get_sprite_pattern_table_address() as usize;
        let addr = bank + sprite.get_pattern_index() * 16;
        assert(addr == sprite_tile_addr(p, sprite) as int);
        let sprite_line = if sprite.is_vertical_flip() {
            7 - (scanline_pos as usize - sprite.get_y())
        } else {
            scanline_pos as usize - sprite.get_y()
        };
        let ghost lo = chr_rom@[addr + sprite_line];
        let ghost hi = chr_rom@[addr + sprite_line + 8];
        let mut upper = chr_rom[addr + sprite_line];
        let mut lowwer = chr_rom[addr + sprite_line + 8];
        proof {
            crate::bits::lemma_u8_bits(upper);
            crate::bits::lemma_u8_bits(lowwer);
            crate::bits::lemma_u8_bits(p.palette_table@[0x11 + (sprite.attributes % 4) * 4]);
            crate::bits::lemma_u8_bits(p.palette_table@[0x12 + (sprite.attributes % 4) * 4]);
            crate::bits::lemma_u8_bits(p.palette_table@[0x13 + (sprite.attributes % 4) * 4]);
        }
        assert(forall|c: int| 0 <= c < 4 ==> #[trigger] palette@[c] < 64);
        let ghost before_row = draw_sprite_list(
            SpriteLine { pixels: pixels0, zero_start: -1, zero_len: 0 },
            d,
            p,
            chr_rom@,
            next,
            (count - 1 - i) as nat,
        );
        let mut x: usize = 8;
        while x > 0
            invariant
                x <= 8,
                upper == lo >> ((8 - x) as u8),
                lowwer == hi >> ((8 - x) as u8),
                forall|c: int| 0 <= c < 4 ==> #[trigger] palette@[c] < 64,
                p == (PPU { status_register: p.status_register, ..start }),
                ({
                    let line = draw_sprite_row(before_row, sprite, lo, hi, palette@, current_colors(p), (8 - x) as nat);
                    &&& scanline.data@ == line.pixels
                    &&& line.zero_len >= 0
                    &&& *ppu == (PPU {
                        status_register: StatusRegister { bits: if line.zero_len > 0 { s1 | StatusRegister::SPRITE_ZERO_HIT } else { s1 } },
                        ..p
                    })
                }),
            decreases x,
        {
            x = x - 1;
            let color_idx = ((lowwer & 1) << 1u8) | (upper & 1);
            proof {
                crate::bits::lemma_u8_pair_bits(lowwer, upper);
                let n = (7 - x) as u8;
                crate::bits::lemma_u8_shift_bits(lo, n);
                crate::bits::lemma_u8_shift_bits(hi, n);
                assert((7 - x) as u8 == (8 - (x + 1)) as u8);
            }
            upper = upper >> 1u8;
            lowwer = lowwer >> 1u8;
            if color_idx != 0 {
                if sprite.is_sprite_zero() {
                    let ghost b = s1;
                    assert((b | 64u8) | 64u8 == b | 64u8) by (bit_vector);
                    ppu.set_sprite_zero_hit();
                }
                let rgb = ppu.get_color_from_current_system_palette(palette[color_idx as usize] as usize);
                let x_pos = if sprite.is_horizontal_flip() {
                    sprite.get_x() + 7 - x
                } else {
                    x + sprite.get_x()
                };
                if x_pos < SCREEN_WIDTH {
                    let mut pixel = scanline.data[x_pos];
                    pixel.sprite_color = SpriteColor {
                        color: rgb,
                        behind_background: !sprite.draw_over_background(),
                        transparent: false,
                    };
                    scanline.data[x_pos] = pixel;
                }
            }
        }
        assert(draw_sprite_list(
            SpriteLine { pixels: pixels0, zero_start: -1, zero_len: 0 },
            d,
            p,
            chr_rom@,
            next,
            (count - i) as nat,
        ) == draw_sprite_row(before_row, sprite, lo, hi, palette@, current_colors(p), 8));
    }
}

/// Draws the background of the current tile row into `scanline`, reading the tiles from the
/// pattern memory `chr_rom`, and moves the VRAM address to the next row.
pub fn render_background_current_scanline(ppu: &mut PPU, scanline: &mut Scanline, chr_rom: &[u8])
    requires
        supported_mirroring(old(ppu).mirroring),
        bg_renderable(*old(ppu), chr_rom@),
    ensures
        final(scanline).data@ == bg_line(*old(ppu), chr_rom@, old(scanline).data@),
        bg_address_advanced(old(ppu).address_register, final(ppu).address_register),
        *final(ppu) == (PPU { address_register: final(ppu).address_register, ..*old(ppu) }),
{
    render_bg(ppu, scanline, chr_rom);
}

/// Draws scanline `scanline_pos` into `scanline`: the background when PPUMASK shows it, then
/// the sprites when it shows them.
pub fn render(ppu: &mut PPU, scanline: &mut Scanline, scanline_pos: usize, chr_rom: &[u8])
    requires
        old(ppu).mask_register.bits & MaskRegister::BACKGROUND != 0 ==> supported_mirroring(old(ppu).mirroring)
            && bg_renderable(*old(ppu), chr_rom@),
        old(ppu).mask_register.bits & MaskRegister::SPRITES != 0 ==> sprites_renderable(*old(ppu), chr_rom@, (scanline_pos % 256) as int),
    ensures
        ({
            let show_bg = old(ppu).mask_register.bits & MaskRegister::BACKGROUND != 0;
            let show_sprites = old(ppu).mask_register.bits & MaskRegister::SPRITES != 0;
            let p1 = PPU { address_register: final(ppu).address_register, ..*old(ppu) };
            let pixels1 = if show_bg { bg_line(*old(ppu), chr_rom@, old(scanline).data@) } else { old(scanline).data@ };
            &&& show_bg ==> bg_address_advanced(old(ppu).address_register, final(ppu).address_register)
            &&& !show_bg ==> final(ppu).address_register == old(ppu).address_register
            &&& if show_sprites {
                (*final(ppu), final(scanline).data@) == sprites_rendered(p1, pixels1, chr_rom@, (scanline_pos % 256) as int)
            } else {
                *final(ppu) == p1 && final(scanline).data@ == pixels1
            }
        }),
{
    if ppu.show_background() {
        render_background_current_scanline(ppu, scanline, chr_rom);
    }
    if ppu.show_sprites() {
        render_sprites(ppu, scanline, scanline_pos, chr_rom);
    }
}

} // verus!
