use vstd::prelude::*;
use crate::ppu::{PPU, supported_mirroring};
use crate::ppu::addr::{AddressRegister, coarse_x, coarse_y, fine_y, name_table};
use crate::ppu::control::ControlRegister;
use crate::ppu::mask::MaskRegister;
use crate::ppu::sprite_line::{row_color_index, current_colors};
use crate::rendering::{get_bg_palette, spec_bg_palette};
use crate::rendering::scanline::{BackgroundColor, Scanline, ScanlinePixel};
use crate::rom::Mirroring;

verus! {

broadcast use vstd::array::group_array_axioms;

/// The offset in name table RAM of the name table the VRAM address selects: with vertical
/// mirroring tables 0 and 2 are the first kilobyte, with horizontal mirroring tables 0 and 1.
pub open spec fn main_table(p: PPU) -> int {
    let nt = name_table(p.address_register.data);
    if p.mirroring == Mirroring::VERTICAL {
        if nt == 0 || nt == 2 { 0 } else { 0x400 }
    } else {
        if nt == 0 || nt == 1 { 0 } else { 0x400 }
    }
}

/// The other kilobyte of name table RAM, whose tiles continue the row to the right.
pub open spec fn second_table(p: PPU) -> int {
    0x400 - main_table(p)
}

/// The pattern table PPUCTRL selects for the background.
pub open spec fn bg_bank(p: PPU) -> int {
    if p.control_register.bits & ControlRegister::BACKROUND_PATTERN_ADDR != 0 { 0x1000 } else { 0 }
}

/// The pattern address of tile (`tx`, `ty`) of the name table at `table`.
pub open spec fn bg_tile_addr(p: PPU, table: int, tx: int, ty: int) -> int {
    bg_bank(p) + p.vram@[table + 32 * ty + tx] * 16
}

/// The colour index of column `col` of tile (`tx`, `ty`) of the name table at `table`, on the
/// tile row fine y selects.
pub open spec fn bg_color_index(p: PPU, chr: Seq<u8>, table: int, tx: int, ty: int, col: int) -> u8 {
    let a = bg_tile_addr(p, table, tx, ty);
    let line = fine_y(p.address_register.data);
    row_color_index(chr[a + line], chr[a + line + 8], col)
}

/// The palette of tile (`tx`, `ty`) of the name table at `table`.
pub open spec fn bg_palette_at(p: PPU, table: int, tx: int, ty: int) -> Seq<u8> {
    spec_bg_palette(p, p.vram@.subrange(table + 0x3C0, table + 0x400), tx, ty)
}

/// The background colour of column `col` of tile (`tx`, `ty`) of the name table at `table`;
/// colour index 0 is transparent.
pub open spec fn bg_color(p: PPU, chr: Seq<u8>, table: int, tx: int, ty: int, col: int) -> BackgroundColor {
    let ci = bg_color_index(p, chr, table, tx, ty, col);
    BackgroundColor { color: current_colors(p)[bg_palette_at(p, table, tx, ty)[ci as int] as int], transparent: ci == 0 }
}

pub open spec fn left_shown(p: PPU) -> bool {
    p.mask_register.bits & MaskRegister::BACKGROUND_LEFT != 0
}

/// Whether pixel `i` of the line shows the current name table: column `i + scroll x` of the
/// table, from coarse x on, is drawn at `i` (never at 0), the leftmost tile only when the
/// background is shown in the left eight pixels.
pub open spec fn from_main(p: PPU, i: int) -> bool {
    let px = i + p.scroll_register.scroll_x;
    &&& 1 <= i
    &&& px < 256
    &&& px / 8 >= coarse_x(p.address_register.data)
    &&& (px / 8 == 0 ==> left_shown(p))
}

/// Whether pixel `i` of the line shows the other name table: its columns up to the end of tile
/// coarse x are drawn after the current table, shifted right by `256 - scroll x`.
pub open spec fn from_second(p: PPU, i: int) -> bool {
    let px = i + p.scroll_register.scroll_x - 256;
    &&& 0 <= px
    &&& i < 256
    &&& px / 8 <= coarse_x(p.address_register.data)
    &&& (px / 8 == 0 ==> left_shown(p))
}

/// Pixel `i` of `pixels` with the background it gets from the current name table.
pub open spec fn main_pixel(p: PPU, chr: Seq<u8>, pixels: Seq<ScanlinePixel>, i: int) -> ScanlinePixel {
    let px = i + p.scroll_register.scroll_x;
    ScanlinePixel {
        background_color: bg_color(p, chr, main_table(p), px / 8, coarse_y(p.address_register.data), px % 8),
        ..pixels[i]
    }
}

/// Pixel `i` of `pixels` with the background it gets from the other name table.
pub open spec fn second_pixel(p: PPU, chr: Seq<u8>, pixels: Seq<ScanlinePixel>, i: int) -> ScanlinePixel {
    let px = i + p.scroll_register.scroll_x - 256;
    ScanlinePixel {
        background_color: bg_color(p, chr, second_table(p), px / 8, coarse_y(p.address_register.data), px % 8),
        ..pixels[i]
    }
}

/// The line `pixels` with the background of the current tile row drawn in.
pub open spec fn bg_line(p: PPU, chr: Seq<u8>, pixels: Seq<ScanlinePixel>) -> Seq<ScanlinePixel> {
    Seq::new(
        256,
        |i: int|
            if from_main(p, i) {
                main_pixel(p, chr, pixels, i)
            } else if from_second(p, i) {
                second_pixel(p, chr, pixels, i)
            } else {
                pixels[i]
            },
    )
}

/// Whether the colour pixel `i` gets is a system colour number.
pub open spec fn bg_pixel_ok(p: PPU, chr: Seq<u8>, i: int) -> bool {
    let ty = coarse_y(p.address_register.data);
    let px = i + p.scroll_register.scroll_x;
    let px2 = px - 256;
    &&& from_main(p, i) ==> bg_palette_at(p, main_table(p), px / 8, ty)[bg_color_index(p, chr, main_table(p), px / 8, ty, px % 8) as int] < 64
    &&& from_second(p, i) ==> bg_palette_at(p, second_table(p), px2 / 8, ty)[bg_color_index(p, chr, second_table(p), px2 / 8, ty, px2 % 8) as int] < 64
}

/// Whether the background row can be drawn from the pattern memory `chr`: the tiles it reads
/// (from coarse x to the end of the current table, and up to coarse x in the other) lie inside
/// `chr`, and the colours it draws are system colour numbers.
pub open spec fn bg_renderable(p: PPU, chr: Seq<u8>) -> bool {
    let tx0 = coarse_x(p.address_register.data);
    let ty = coarse_y(p.address_register.data);
    &&& forall|tx: int| tx0 <= tx < 32 ==> #[trigger] bg_tile_addr(p, main_table(p), tx, ty) + 16 <= chr.len()
    &&& forall|tx: int| 0 <= tx <= tx0 ==> #[trigger] bg_tile_addr(p, second_table(p), tx, ty) + 16 <= chr.len()
    &&& forall|i: int| 0 <= i < 256 ==> #[trigger] bg_pixel_ok(p, chr, i)
}

/// The VRAM address after a background row: fine y moves to the next row; after the last row of
/// a tile, coarse y moves on (wrapping after 30 rows) and the horizontal name table bit flips.
pub open spec fn bg_address_advanced(a: AddressRegister, b: AddressRegister) -> bool {
    let line = fine_y(a.data);
    &&& b.data_alt == a.data_alt
    &&& fine_y(b.data) == (line + 1) % 8
    &&& line != 7 ==> b.data & 0x8FFF == a.data & 0x8FFF
    &&& line == 7 ==> coarse_y(b.data) == (coarse_y(a.data) + 1) % 30 && b.data & 0x8C1F == (a.data ^ 0x0400) & 0x8C1F
}

/// Draws the background of the current tile row into `scanline` and moves the VRAM address to
/// the next row.
#[verifier::rlimit(60)]
pub(crate) fn render_bg(ppu: &mut PPU, scanline: &mut Scanline, chr_rom: &[u8])
    requires
        supported_mirroring(old(ppu).mirroring),
        bg_renderable(*old(ppu), chr_rom@),
    ensures
        final(scanline).data@ == bg_line(*old(ppu), chr_rom@, old(scanline).data@),
        bg_address_advanced(old(ppu).address_register, final(ppu).address_register),
        *final(ppu) == (PPU { address_register: final(ppu).address_register, ..*old(ppu) }),
{
    let ghost start = *ppu;
    let ghost pixels0 = scanline.data@;
    let ghost chr = chr_rom@;
    let nt = ppu.address_register.get_name_table();
    let main_off: usize = match ppu.mirroring {
        Mirroring::VERTICAL => if nt == 0 || nt == 2 { 0 } else { 0x400 },
        _ => if nt == 0 || nt == 1 { 0 } else { 0x400 },
    };
    let second_off: usize = 0x400 - main_off;
    let bank = ppu.control_register.get_background_pattern_table_address() as usize;
    let line = ppu.address_register.get_inner_tile_y_offset();
    let tile_x = ppu.address_register.get_tile_x();
    let tile_y = ppu.address_register.get_tile_y();
    let shift_x = ppu.get_scroll_x() as usize;
    let show_left = ppu.show_background_left();
    assert(main_off == main_table(start) && second_off == second_table(start));

    let attribute_table = vstd::slice::slice_subrange(ppu.vram.as_slice(), main_off + 0x3C0, main_off + 0x400);
    let mut tx: usize = tile_x;
    while tx < 32
        invariant
            tile_x <= tx <= 32,
            *ppu == start,
            chr == chr_rom@,
            main_off == main_table(start),
            bank == bg_bank(start),
            line == fine_y(start.address_register.data),
            tile_x == coarse_x(start.address_register.data),
            tile_y == coarse_y(start.address_register.data),
            shift_x == start.scroll_register.scroll_x,
            show_left == left_shown(start),
            attribute_table@ == start.vram@.subrange(main_off + 0x3C0, main_off + 0x400),
            bg_renderable(start, chr),
            forall|i: int| 0 <= i < 256 ==> #[trigger] scanline.data@[i] == (if from_main(start, i) && (i + shift_x) / 8 < tx {
                main_pixel(start, chr, pixels0, i)
            } else {
                pixels0[i]
            }),
        decreases 32 - tx,
    {
        let tile_idx = ppu.vram[main_off + 32 * tile_y + tx] as usize;
        let addr = bank + tile_idx * 16;
        assert(addr == bg_tile_addr(start, main_off as int, tx as int, tile_y as int));
        if show_left || tx != 0 {
            let palette = get_bg_palette(ppu, attribute_table, tx, tile_y);
            let ghost lo = chr[addr + line];
            let ghost hi = chr[addr + line + 8];
            let mut upper = chr_rom[addr + line];
            let mut lower = chr_rom[addr + line + 8];
            proof {
                crate::bits::lemma_u8_bits(upper);
                crate::bits::lemma_u8_bits(lower);
            }
            let mut x: usize = 8;
            while x > 0
                invariant
                    x <= 8,
                    tile_x <= tx < 32,
                    show_left || tx != 0,
                    *ppu == start,
                    chr == chr_rom@,
                    main_off == main_table(start),
                    addr == bg_tile_addr(start, main_off as int, tx as int, tile_y as int),
                    lo == chr[addr + line],
                    hi == chr[addr + line + 8],
                    line == fine_y(start.address_register.data),
                    tile_x == coarse_x(start.address_register.data),
                    tile_y == coarse_y(start.address_register.data),
                    shift_x == start.scroll_register.scroll_x,
                    show_left == left_shown(start),
                    palette@ == bg_palette_at(start, main_off as int, tx as int, tile_y as int),
                    bg_renderable(start, chr),
                    upper == lo >> ((8 - x) as u8),
                    lower == hi >> ((8 - x) as u8),
                    forall|i: int| 0 <= i < 256 ==> #[trigger] scanline.data@[i] == (if from_main(start, i) && ((i + shift_x)
                        / 8 < tx || ((i + shift_x) / 8 == tx && (i + shift_x) % 8 >= x)) {
                        main_pixel(start, chr, pixels0, i)
                    } else {
                        pixels0[i]
                    }),
                decreases x,
            {
                x = x - 1;
                let color_idx = ((lower & 1) << 1u8) | (upper & 1);
                proof {
                    crate::bits::lemma_u8_pair_bits(lower, upper);
                    let n = (7 - x) as u8;
                    crate::bits::lemma_u8_shift_bits(lo, n);
                    crate::bits::lemma_u8_shift_bits(hi, n);
                    assert((7 - x) as u8 == (8 - (x + 1)) as u8);
                }
                upper = upper >> 1u8;
                lower = lower >> 1u8;
                let pixel_x = tx * 8 + x;
                assert(pixel_x / 8 == tx && pixel_x % 8 == x);
                if pixel_x > shift_x {
                    let i0 = pixel_x - shift_x;
                    assert(from_main(start, i0 as int));
                    assert(bg_pixel_ok(start, chr, i0 as int));
                    let rgb = ppu.get_color_from_current_system_palette(palette[color_idx as usize] as usize);
                    let mut pixel = scanline.data[i0];
                    pixel.background_color = BackgroundColor { color: rgb, transparent: color_idx == 0 };
                    scanline.data[i0] = pixel;
                }
            }
        }
        tx = tx + 1;
    }

    ppu.address_register.vertical_name_table_overflow();
    let ghost flipped = *ppu;
    let attribute_table = vstd::slice::slice_subrange(ppu.vram.as_slice(), second_off + 0x3C0, second_off + 0x400);
    let mut tx: usize = 0;
    while tx <= tile_x
        invariant
            tx <= tile_x + 1,
            tile_x < 32,
            *ppu == flipped,
            flipped == (PPU { address_register: flipped.address_register, ..start }),
            chr == chr_rom@,
            second_off == second_table(start),
            bank == bg_bank(start),
            line == fine_y(start.address_register.data),
            tile_x == coarse_x(start.address_register.data),
            tile_y == coarse_y(start.address_register.data),
            shift_x == start.scroll_register.scroll_x,
            show_left == left_shown(start),
            attribute_table@ == start.vram@.subrange(second_off + 0x3C0, second_off + 0x400),
            bg_renderable(start, chr),
            forall|i: int| 0 <= i < 256 ==> #[trigger] scanline.data@[i] == (if from_main(start, i) {
                main_pixel(start, chr, pixels0, i)
            } else if from_second(start, i) && (i + shift_x - 256) / 8 < tx {
                second_pixel(start, chr, pixels0, i)
            } else {
                pixels0[i]
            }),
        decreases tile_x + 1 - tx,
    {
        let tile_idx = ppu.vram[second_off + 32 * tile_y + tx] as usize;
        let addr = bank + tile_idx * 16;
        assert(addr == bg_tile_addr(start, second_off as int, tx as int, tile_y as int));
        if show_left || tx != 0 {
            let palette = get_bg_palette(ppu, attribute_table, tx, tile_y);
            assert(palette@ == bg_palette_at(start, second_off as int, tx as int, tile_y as int));
            let ghost lo = chr[addr + line];
            let ghost hi = chr[addr + line + 8];
            let mut upper = chr_rom[addr + line];
            let mut lower = chr_rom[addr + line + 8];
            proof {
                crate::bits::lemma_u8_bits(upper);
                crate::bits::lemma_u8_bits(lower);
            }
            let mut x: usize = 8;
            while x > 0
                invariant
                    x <= 8,
                    tx <= tile_x < 32,
                    show_left || tx != 0,
                    *ppu == flipped,
                    flipped == (PPU { address_register: flipped.address_register, ..start }),
                    chr == chr_rom@,
                    second_off == second_table(start),
                    addr == bg_tile_addr(start, second_off as int, tx as int, tile_y as int),
                    lo == chr[addr + line],
                    hi == chr[addr + line + 8],
                    line == fine_y(start.address_register.data),
                    tile_x == coarse_x(start.address_register.data),
                    tile_y == coarse_y(start.address_register.data),
                    shift_x == start.scroll_register.scroll_x,
                    show_left == left_shown(start),
                    palette@ == bg_palette_at(start, second_off as int, tx as int, tile_y as int),
                    bg_renderable(start, chr),
                    upper == lo >> ((8 - x) as u8),
                    lower == hi >> ((8 - x) as u8),
                    forall|i: int| 0 <= i < 256 ==> #[trigger] scanline.data@[i] == (if from_main(start, i) {
                        main_pixel(start, chr, pixels0, i)
                    } else if from_second(start, i) && ((i + shift_x - 256) / 8 < tx || ((i + shift_x - 256) / 8 == tx
                        && (i + shift_x - 256) % 8 >= x)) {
                        second_pixel(start, chr, pixels0, i)
                    } else {
                        pixels0[i]
                    }),
                decreases x,
            {
                x = x - 1;
                let color_idx = ((lower & 1) << 1u8) | (upper & 1);
                proof {
                    crate::bits::lemma_u8_pair_bits(lower, upper);
                    let n = (7 - x) as u8;
                    crate::bits::lemma_u8_shift_bits(lo, n);
                    crate::bits::lemma_u8_shift_bits(hi, n);
                    assert((7 - x) as u8 == (8 - (x + 1)) as u8);
                }
                upper = upper >> 1u8;
                lower = lower >> 1u8;
                let pixel_x = tx * 8 + x;
                assert(pixel_x / 8 == tx && pixel_x % 8 == x);
                if pixel_x <= shift_x && pixel_x + (256 - shift_x) < 256 {
                    let i0 = pixel_x + (256 - shift_x);
                    assert(from_second(start, i0 as int));
                    assert(!from_main(start, i0 as int));
                    assert(bg_pixel_ok(start, chr, i0 as int));
                    let rgb = ppu.get_color_from_current_system_palette(palette[color_idx as usize] as usize);
                    let mut pixel = scanline.data[i0];
                    pixel.background_color = BackgroundColor { color: rgb, transparent: color_idx == 0 };
                    scanline.data[i0] = pixel;
                }
            }
        }
        tx = tx + 1;
    }
    ppu.address_register.vertical_name_table_overflow();
    proof {
        crate::bits::lemma_double_flip_bits(start.address_register.data);
    }
    assert(*ppu == start);
    assert(scanline.data@ =~= bg_line(start, chr, pixels0));

    let ghost d = start.address_register.data;
    if line == 7 {
        ppu.address_register.set_tile_y((tile_y + 1) as u8);
        let ghost e = ppu.address_register.data;
        ppu.address_register.horizontal_name_table_overflow();
        proof {
            crate::bits::lemma_horizontal_flip_bits(d, e);
        }
    }
    let ghost f = ppu.address_register.data;
    ppu.address_register.set_inner_tile_y_offset((line + 1) as u8);
    proof {
        crate::bits::lemma_fine_y_frame_bits(ppu.address_register.data, f);
    }
}

} // verus!
