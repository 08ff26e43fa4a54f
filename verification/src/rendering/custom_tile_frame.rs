use vstd::prelude::*;
use crate::ppu::palette::black_palette;
use crate::rendering::frame::Frame;
use crate::rendering::{draw_tile, tile_fits};

verus! {

/// Column, in tiles, of entry `i` of a tile map for a frame `width` pixels wide.
pub open spec fn tile_column(width: usize, i: int) -> int {
    i % (width / 8) as int
}

/// Row, in tiles, of entry `i` of a tile map for a frame `width` pixels wide.
pub open spec fn tile_row(width: usize, i: int) -> int {
    i / (width / 8) as int
}

/// The attribute table entry (one palette per 2x2 tiles) of tile map entry `i`.
pub open spec fn attribute_index(width: usize, i: int) -> int {
    tile_column(width, i) / 2 + (width / 16) as int * (tile_row(width, i) / 2)
}

/// Whether tile map entry `i` can be drawn: its pixel position fits in `usize` and within what
/// `Frame::set_pixel` accepts.
pub open spec fn tile_position_fits(width: usize, i: int) -> bool {
    tile_row(width, i) * 8 + 8 <= usize::MAX
        && tile_fits(width, (tile_column(width, i) * 8) as usize, (tile_row(width, i) * 8) as usize)
}

/// The frame data after the first `n` tiles of `tile_map` were drawn from pattern table `bank`.
pub open spec fn draw_tile_map(
    data: Seq<u8>,
    width: usize,
    tile_map: Seq<u8>,
    attribute_table: Seq<[u8; 4]>,
    chr_rom: Seq<u8>,
    bank: usize,
    n: nat,
) -> Seq<u8>
    decreases n,
{
    if n == 0 {
        data
    } else {
        let i = n - 1;
        let start = bank * 0x1000 + tile_map[i] * 16;
        draw_tile(
            draw_tile_map(data, width, tile_map, attribute_table, chr_rom, bank, (n - 1) as nat),
            width,
            (tile_column(width, i) * 8) as usize,
            (tile_row(width, i) * 8) as usize,
            chr_rom.subrange(start, start + 16),
            black_palette(),
            attribute_table[attribute_index(width, i)]@,
            64,
        )
    }
}

/// A frame drawn from a map of tile indices and a table of palettes, one per 2x2 tiles.
pub struct CustomTileFrame {
    pub frame: Frame,
    pub tile_map: Vec<u8>,
    pub attribute_table: Vec<[u8; 4]>,
}

impl CustomTileFrame {
    pub fn new(width: usize, height: usize, tile_map: Vec<u8>, attribute_table: Vec<[u8; 4]>) -> (r: Self)
        requires
            width * height <= usize::MAX,
            width * height * 3 <= usize::MAX,
        ensures
            r.frame.width == width,
            r.frame.height == height,
            r.frame.data@ == Seq::new((width * height * 3) as nat, |i: int| 0u8),
            r.tile_map == tile_map,
            r.attribute_table == attribute_table,
    {
        Self { frame: Frame::new(width, height), tile_map, attribute_table }
    }

    /// Draws every tile of the tile map from pattern table `bank` of `chr_rom`, each with the
    /// palette of its 2x2 block.
    pub fn update(&mut self, chr_rom: &[u8], bank: usize)
        requires
            bank <= 1,
            old(self).frame.width >= 8,
            0x2000 <= chr_rom@.len(),
            forall|j: int, k: int|
                0 <= j < old(self).attribute_table@.len() && 0 <= k < 4 ==> #[trigger] old(self).attribute_table@[j]@[k] < 64,
            forall|i: int|
                0 <= i < old(self).tile_map@.len() ==> #[trigger] attribute_index(old(self).frame.width, i)
                    < old(self).attribute_table@.len(),
            forall|i: int|
                0 <= i < old(self).tile_map@.len() ==> #[trigger] tile_position_fits(old(self).frame.width, i),
        ensures
            final(self).frame.width == old(self).frame.width,
            final(self).frame.height == old(self).frame.height,
            final(self).tile_map == old(self).tile_map,
            final(self).attribute_table == old(self).attribute_table,
            final(self).frame.data@ == draw_tile_map(
                old(self).frame.data@,
                old(self).frame.width,
                old(self).tile_map@,
                old(self).attribute_table@,
                chr_rom@,
                bank,
                old(self).tile_map@.len(),
            ),
    {
        let ghost start = self.frame.data@;
        let n = self.tile_map.len();
        let mut i: usize = 0;
        while i < n
            invariant
                n == self.tile_map@.len(),
                i <= n,
                bank <= 1,
                self.frame.width >= 8,
                0x2000 <= chr_rom@.len(),
                self.frame.width == old(self).frame.width,
                self.frame.height == old(self).frame.height,
                self.tile_map == old(self).tile_map,
                self.attribute_table == old(self).attribute_table,
                forall|j: int, k: int|
                    0 <= j < self.attribute_table@.len() && 0 <= k < 4 ==> #[trigger] self.attribute_table@[j]@[k] < 64,
                forall|i: int|
                    0 <= i < self.tile_map@.len() ==> #[trigger] attribute_index(self.frame.width, i) < self.attribute_table@.len(),
                forall|i: int|
                    0 <= i < self.tile_map@.len() ==> #[trigger] tile_position_fits(self.frame.width, i),
                self.frame.data@ == draw_tile_map(start, self.frame.width, self.tile_map@, self.attribute_table@, chr_rom@, bank, i as nat),
            decreases n - i,
        {
            let tile_idx = self.tile_map[i];
            let x_in_tiles = i % (self.frame.width / 8);
            let y_in_tiles = i / (self.frame.width / 8);
            assert(attribute_index(self.frame.width, i as int) < self.attribute_table@.len());
            assert(tile_position_fits(self.frame.width, i as int));
            assert(x_in_tiles * 8 < self.frame.width) by (nonlinear_arith)
                requires
                    x_in_tiles < self.frame.width / 8,
            ;
            assert(y_in_tiles <= i) by (nonlinear_arith)
                requires
                    y_in_tiles == i / (self.frame.width / 8),
                    self.frame.width / 8 >= 1,
            ;
            let _attr_len = self.attribute_table.len();
            assert(x_in_tiles as int == tile_column(self.frame.width, i as int));
            assert(y_in_tiles as int == tile_row(self.frame.width, i as int));
            let blocks_per_row = self.frame.width / (8 * 2);
            assert(blocks_per_row * (y_in_tiles / 2) + x_in_tiles / 2 == attribute_index(self.frame.width, i as int));
            let palette = self.attribute_table[x_in_tiles / 2 + blocks_per_row * (y_in_tiles / 2)];
            assert forall|k: int| 0 <= k < 4 implies #[trigger] palette@[k] < 64 by {
                assert(self.attribute_table@[attribute_index(self.frame.width, i as int)]@[k] < 64);
            }
            let x = x_in_tiles * 8;
            let y = y_in_tiles * 8;
            self.frame.render_tile(x, y, chr_rom, bank, tile_idx as usize, &palette);
            i = i + 1;
        }
    }
}

} // verus!
