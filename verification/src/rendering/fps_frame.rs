use vstd::prelude::*;
use crate::ppu::palette::black_palette;
use crate::rendering::frame::Frame;
use crate::rendering::{draw_tile, tile_fits, lemma_pixel_fits_mono};

verus! {

/// The six tiles of the counter for `fps`: three digits (a hundreds value of 10 or more shows
/// as a letter, counted from A), then the letters F, P and S.
pub open spec fn fps_tiles(numbers_offset: usize, letters_offset: usize, fps: usize) -> Seq<int> {
    let hundreds = fps / 100;
    let tenth = (fps % 100) / 10;
    let ones = fps % 10;
    seq![
        if hundreds < 10 { numbers_offset + hundreds } else { letters_offset + hundreds - 10 },
        numbers_offset + tenth,
        numbers_offset + ones,
        letters_offset + 5,
        letters_offset + 15,
        letters_offset + 18,
    ]
}

/// The frame data after the first `n` of `tiles` were drawn side by side along the top row.
pub open spec fn draw_tile_row(data: Seq<u8>, width: usize, chr_rom: Seq<u8>, tiles: Seq<int>, palette: Seq<u8>, n: nat) -> Seq<u8>
    decreases n,
{
    if n == 0 {
        data
    } else {
        let t = tiles[n - 1];
        draw_tile(
            draw_tile_row(data, width, chr_rom, tiles, palette, (n - 1) as nat),
            width,
            (8 * (n - 1)) as usize,
            0,
            chr_rom.subrange(t * 16, t * 16 + 16),
            black_palette(),
            palette,
            64,
        )
    }
}

/// The counter reads left to right: the hundreds at x = 0 (from 10 hundreds on, a letter counted
/// from A), the tens digit at x = 8, the ones digit at x = 16, then F, P and S (letters 5, 15
/// and 18 counted from A) at x = 24, 32 and 40.
pub proof fn law_fps_layout(
    data: Seq<u8>,
    width: usize,
    chr_rom: Seq<u8>,
    numbers_offset: usize,
    letters_offset: usize,
    fps: usize,
    palette: Seq<u8>,
)
    ensures
        ({
            let tiles = fps_tiles(numbers_offset, letters_offset, fps);
            let tens_tile = numbers_offset + (fps % 100) / 10;
            let ones_tile = numbers_offset + fps % 10;
            let row = |n: nat| draw_tile_row(data, width, chr_rom, tiles, palette, n);
            &&& tiles.len() == 6
            &&& tiles[0] == if fps < 1000 {
                numbers_offset + fps / 100
            } else {
                letters_offset + fps / 100 - 10
            }
            &&& tiles[1] == tens_tile
            &&& tiles[2] == ones_tile
            &&& tiles[3] == letters_offset + 5
            &&& tiles[4] == letters_offset + 15
            &&& tiles[5] == letters_offset + 18
            &&& row(2) == draw_tile(row(1), width, 8, 0, chr_rom.subrange(tens_tile * 16, tens_tile
                * 16 + 16), black_palette(), palette, 64)
            &&& row(3) == draw_tile(row(2), width, 16, 0, chr_rom.subrange(ones_tile * 16,
                ones_tile * 16 + 16), black_palette(), palette, 64)
        }),
{
    reveal_with_fuel(draw_tile_row, 3);
}

/// A small frame that shows a frames-per-second counter, drawn with digit and letter tiles.
pub struct FPSFrame {
    pub frame: Frame,
    numbers_offset: usize,
    letters_offset: usize,
    palette: [u8; 4],
}

/// What an FPS frame holds: the frame's pixels and size, the tile offsets and the palette.
pub struct FpsFrameState {
    pub data: Seq<u8>,
    pub width: usize,
    pub height: usize,
    pub numbers_offset: usize,
    pub letters_offset: usize,
    pub palette: Seq<u8>,
}

impl View for FPSFrame {
    type V = FpsFrameState;

    closed spec fn view(&self) -> FpsFrameState {
        FpsFrameState {
            data: self.frame.data@,
            width: self.frame.width,
            height: self.frame.height,
            numbers_offset: self.numbers_offset,
            letters_offset: self.letters_offset,
            palette: self.palette@,
        }
    }
}

impl FPSFrame {
    pub fn new(numbers_offset: usize, letters_offset: usize, palette: [u8; 4]) -> (r: Self)
        ensures
            r@ == (FpsFrameState {
                data: Seq::new(48 * 8 * 3, |i: int| 0u8),
                width: 48,
                height: 8,
                numbers_offset,
                letters_offset,
                palette: palette@,
            }),
    {
        Self { frame: Frame::new(48, 8), numbers_offset, letters_offset, palette }
    }

    /// Draws the counter for `fps` on a background of colour `background_color_idx`.
    pub fn update(&mut self, chr_rom: &[u8], fps: usize, background_color_idx: u8)
        requires
            background_color_idx < 64,
            forall|i: int| 1 <= i < 4 ==> #[trigger] old(self)@.palette[i] < 64,
            forall|k: int|
                0 <= k < 6 ==> #[trigger] fps_tiles(old(self)@.numbers_offset, old(self)@.letters_offset, fps)[k] * 16 + 16 <= chr_rom@.len(),
            tile_fits(old(self)@.width, 40, 0),
        ensures
            final(self)@ == (FpsFrameState {
                palette: old(self)@.palette.update(0, background_color_idx),
                data: draw_tile_row(
                    old(self)@.data,
                    old(self)@.width,
                    chr_rom@,
                    fps_tiles(old(self)@.numbers_offset, old(self)@.letters_offset, fps),
                    old(self)@.palette.update(0, background_color_idx),
                    6,
                ),
                ..old(self)@
            }),
    {
        let ghost tiles = fps_tiles(self.numbers_offset, self.letters_offset, fps);
        let ghost start = self.frame.data@;
        let _chr_len = chr_rom.len();
        let hundreds = fps / 100;
        let tenth = (fps % 100) / 10;
        let ones = fps % 10;
        self.palette[0] = background_color_idx;
        let ghost pal = self.palette@;
        assert(pal =~= old(self)@.palette.update(0, background_color_idx));
        assert forall|i: int| 0 <= i < 4 implies #[trigger] self.palette@[i] < 64 by {
            if i != 0 {
                assert(old(self)@.palette[i] < 64);
            }
        }
        let w = self.frame.width;
        proof {
            lemma_pixel_fits_mono(w, 7, 7, 47, 7);
            lemma_pixel_fits_mono(w, 15, 7, 47, 7);
            lemma_pixel_fits_mono(w, 23, 7, 47, 7);
            lemma_pixel_fits_mono(w, 31, 7, 47, 7);
            lemma_pixel_fits_mono(w, 39, 7, 47, 7);
            assert(tiles[0] * 16 + 16 <= chr_rom@.len());
            assert(tiles[1] * 16 + 16 <= chr_rom@.len());
            assert(tiles[2] * 16 + 16 <= chr_rom@.len());
            assert(tiles[3] * 16 + 16 <= chr_rom@.len());
            assert(tiles[4] * 16 + 16 <= chr_rom@.len());
            assert(tiles[5] * 16 + 16 <= chr_rom@.len());
            reveal_with_fuel(draw_tile_row, 7);
        }
        let first = if hundreds < 10 {
            self.numbers_offset + hundreds
        } else {
            self.letters_offset + hundreds - 10
        };
        self.frame.render_tile_from_chr_rom(0, 0, chr_rom, first, &self.palette);
        self.frame.render_tile_from_chr_rom(8, 0, chr_rom, self.numbers_offset + tenth, &self.palette);
        self.frame.render_tile_from_chr_rom(16, 0, chr_rom, self.numbers_offset + ones, &self.palette);
        self.frame.render_tile_from_chr_rom(24, 0, chr_rom, self.letters_offset + 5, &self.palette);
        self.frame.render_tile_from_chr_rom(32, 0, chr_rom, self.letters_offset + 15, &self.palette);
        self.frame.render_tile_from_chr_rom(40, 0, chr_rom, self.letters_offset + 18, &self.palette);
    }
}

} // verus!
