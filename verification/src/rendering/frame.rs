use vstd::prelude::*;
use crate::ppu::palette::{SystemPalette, black_palette};
use crate::rendering::{write_tile, draw_tile, tile_fits};

verus! {

pub const SCREEN_WIDTH: usize = 256;
pub const SCREEN_HEIGHT: usize = 240;
pub const TILE_WIDTH: usize = 8;
pub const TILE_HEIGHT: usize = 8;
pub const SCREEN_WIDTH_IN_TILES: usize = 32;
pub const SCREEN_HEIGHT_IN_TILES: usize = 30;

/// Whether the byte offset of pixel (`x`, `y`) in a frame `width` pixels wide, and the two
/// bytes after it, can be computed without overflow.
pub open spec fn pixel_fits(width: usize, x: usize, y: usize) -> bool {
    y * 3 <= usize::MAX && y * 3 * width + x * 3 + 2 <= usize::MAX
}

/// The offset of the red byte of pixel (`x`, `y`); green and blue follow it.
pub open spec fn pixel_base(width: usize, x: usize, y: usize) -> int {
    y * 3 * width + x * 3
}

/// `data` with pixel (`x`, `y`) set to `rgb`, when the pixel lies inside `data`.
pub open spec fn with_pixel(data: Seq<u8>, width: usize, x: usize, y: usize, rgb: (u8, u8, u8)) -> Seq<u8> {
    let base = pixel_base(width, x, y);
    if base + 2 < data.len() {
        data.update(base, rgb.0).update(base + 1, rgb.1).update(base + 2, rgb.2)
    } else {
        data
    }
}

/// Pixel (`x`, `y`) of `data`; black when it lies outside.
pub open spec fn pixel_at(data: Seq<u8>, width: usize, x: usize, y: usize) -> (u8, u8, u8) {
    let base = pixel_base(width, x, y);
    if base + 2 < data.len() {
        (data[base], data[base + 1], data[base + 2])
    } else {
        (0u8, 0u8, 0u8)
    }
}

/// Reading a pixel gives the colour last set there; setting a pixel leaves the other pixels.
pub proof fn law_set_then_get_pixel(data: Seq<u8>, width: usize, x: usize, y: usize, x2: usize, y2: usize, rgb: (u8, u8, u8))
    requires
        pixel_base(width, x, y) + 2 < data.len(),
        pixel_base(width, x, y) + 3 <= pixel_base(width, x2, y2) || pixel_base(width, x2, y2) + 3 <= pixel_base(width, x, y),
    ensures
        pixel_at(with_pixel(data, width, x, y, rgb), width, x, y) == rgb,
        pixel_at(with_pixel(data, width, x, y, rgb), width, x2, y2) == pixel_at(data, width, x2, y2),
{
}

/// An RGB image, three bytes per pixel, row after row.
#[derive(Debug, Clone)]
pub struct Frame {
    pub data: Vec<u8>,
    pub width: usize,
    pub height: usize,
}

impl Frame {
    /// A black frame of `width` by `height` pixels.
    pub fn new(width: usize, height: usize) -> (r: Self)
        requires
            width * height <= usize::MAX,
            width * height * 3 <= usize::MAX,
        ensures
            r.width == width,
            r.height == height,
            r.data@ == Seq::new((width * height * 3) as nat, |i: int| 0u8),
    {
        let data = vec![0u8; width * height * 3];
        assert(data@ =~= Seq::new((width * height * 3) as nat, |i: int| 0u8));
        Self { data, width, height }
    }

    /// Replaces the pixels by those of a black screen-sized frame; the dimensions stay.
    pub fn clear(&mut self)
        ensures
            final(self).data@ == Seq::new((SCREEN_WIDTH * SCREEN_HEIGHT * 3) as nat, |i: int| 0u8),
            final(self).width == old(self).width,
            final(self).height == old(self).height,
    {
        self.data = Self::default().data;
    }

    /// Sets every complete pixel to `rgb`; bytes past the last complete pixel stay.
    pub fn fill(&mut self, rgb: (u8, u8, u8))
        ensures
            final(self).width == old(self).width,
            final(self).height == old(self).height,
            final(self).data@.len() == old(self).data@.len(),
            forall|i: int|
                0 <= i < old(self).data@.len() ==> #[trigger] final(self).data@[i] == (if i < old(self).data@.len() / 3 * 3 {
                    if i % 3 == 0 { rgb.0 } else if i % 3 == 1 { rgb.1 } else { rgb.2 }
                } else {
                    old(self).data@[i]
                }),
    {
        let len = self.data.len();
        let n = len / 3;
        assert(n * 3 <= len) by (nonlinear_arith)
            requires
                n == len / 3,
        ;
        let mut c: usize = 0;
        while c < n
            invariant
                n == old(self).data@.len() / 3,
                len == old(self).data@.len(),
                n * 3 <= len,
                c <= n,
                self.width == old(self).width,
                self.height == old(self).height,
                self.data@.len() == old(self).data@.len(),
                forall|i: int|
                    0 <= i < old(self).data@.len() ==> #[trigger] self.data@[i] == (if i < c * 3 {
                        if i % 3 == 0 { rgb.0 } else if i % 3 == 1 { rgb.1 } else { rgb.2 }
                    } else {
                        old(self).data@[i]
                    }),
            decreases n - c,
        {
            self.data.set(c * 3, rgb.0);
            self.data.set(c * 3 + 1, rgb.1);
            self.data.set(c * 3 + 2, rgb.2);
            c = c + 1;
        }
    }

    /// Sets pixel (`x`, `y`) to `rgb`; a pixel outside the frame's data is ignored.
    pub fn set_pixel(&mut self, x: usize, y: usize, rgb: (u8, u8, u8))
        requires
            pixel_fits(old(self).width, x, y),
        ensures
            final(self).data@ == with_pixel(old(self).data@, old(self).width, x, y, rgb),
            final(self).width == old(self).width,
            final(self).height == old(self).height,
    {
        let base = y * 3 * self.width + x * 3;
        if base + 2 < self.data.len() {
            self.data.set(base, rgb.0);
            self.data.set(base + 1, rgb.1);
            self.data.set(base + 2, rgb.2);
        }
    }

    /// Pixel (`x`, `y`); black outside the frame's data.
    pub fn get_pixel(&self, x: usize, y: usize) -> (r: (u8, u8, u8))
        requires
            pixel_fits(self.width, x, y),
        ensures
            r == pixel_at(self.data@, self.width, x, y),
    {
        let base = y * 3 * self.width + x * 3;
        if base + 2 < self.data.len() {
            (self.data[base], self.data[base + 1], self.data[base + 2])
        } else {
            (0, 0, 0)
        }
    }

    /// Draws tile `tile_n` of pattern table `bank` of `chr_rom` at (`x_pos`, `y_pos`) with the
    /// colours of `pallet`, looked up in the first palette of the built-in system palette.
    pub fn render_tile(&mut self, x_pos: usize, y_pos: usize, chr_rom: &[u8], bank: usize, tile_n: usize, pallet: &[u8; 4])
        requires
            bank <= 1,
            tile_n * 16 + 16 + 0x1000 <= chr_rom@.len(),
            forall|i: int| 0 <= i < 4 ==> #[trigger] pallet@[i] < 64,
            tile_fits(old(self).width, x_pos, y_pos),
        ensures
            final(self).width == old(self).width,
            final(self).height == old(self).height,
            final(self).data@ == draw_tile(
                old(self).data@,
                old(self).width,
                x_pos,
                y_pos,
                chr_rom@.subrange(bank * 0x1000 + tile_n * 16, bank * 0x1000 + tile_n * 16 + 16),
                black_palette(),
                pallet@,
                64,
            ),
    {
        let bank_address = bank * 0x1000;
        let _chr_len = chr_rom.len();
        let tile = vstd::slice::slice_subrange(chr_rom, bank_address + tile_n * 16, bank_address + tile_n * 16 + 16);
        let system_palette = SystemPalette::new();
        assert(system_palette.palettes@[0]@ =~= black_palette());
        write_tile(self, x_pos, y_pos, tile, &system_palette, pallet);
    }

    /// Draws tile `tile_n` of `chr_rom` at (`x_pos`, `y_pos`) with the colours of `pallet`,
    /// looked up in the first palette of the built-in system palette.
    pub fn render_tile_from_chr_rom(&mut self, x_pos: usize, y_pos: usize, chr_rom: &[u8], tile_n: usize, pallet: &[u8; 4])
        requires
            tile_n * 16 + 16 <= chr_rom@.len(),
            forall|i: int| 0 <= i < 4 ==> #[trigger] pallet@[i] < 64,
            tile_fits(old(self).width, x_pos, y_pos),
        ensures
            final(self).width == old(self).width,
            final(self).height == old(self).height,
            final(self).data@ == draw_tile(
                old(self).data@,
                old(self).width,
                x_pos,
                y_pos,
                chr_rom@.subrange(tile_n * 16, tile_n * 16 + 16),
                black_palette(),
                pallet@,
                64,
            ),
    {
        let _chr_len = chr_rom.len();
        let tile = vstd::slice::slice_subrange(chr_rom, tile_n * 16, tile_n * 16 + 16);
        let system_palette = SystemPalette::new();
        assert(system_palette.palettes@[0]@ =~= black_palette());
        write_tile(self, x_pos, y_pos, tile, &system_palette, pallet);
    }
}

impl Default for Frame {
    /// A black screen-sized frame.
    fn default() -> (r: Self)
        ensures
            r.width == SCREEN_WIDTH,
            r.height == SCREEN_HEIGHT,
            r.data@ == Seq::new((SCREEN_WIDTH * SCREEN_HEIGHT * 3) as nat, |i: int| 0u8),
    {
        Self::new(SCREEN_WIDTH, SCREEN_HEIGHT)
    }
}

} // verus!
