use vstd::prelude::*;
use crate::rendering::custom_tile_frame::{CustomTileFrame, draw_tile_map, attribute_index, tile_position_fits, tile_column, tile_row};
use crate::rendering::frame::{Frame, SCREEN_HEIGHT, SCREEN_HEIGHT_IN_TILES, SCREEN_WIDTH, SCREEN_WIDTH_IN_TILES, pixel_fits};
use crate::rendering::tile_fits;

verus! {

/// `m` with a 2x2 block of tiles 0xB4..0xB7 at tile (`x`, `y`).
pub open spec fn block(m: Seq<u8>, x: int, y: int) -> Seq<u8> {
    m.update(x + 32 * y, 0xB4).update(x + 1 + 32 * y, 0xB5).update(x + 32 * (y + 1), 0xB6).update(
        x + 1 + 32 * (y + 1),
        0xB7,
    )
}

/// `m` with a 4x4 block at tile (`x`, `y`).
pub open spec fn big_block(m: Seq<u8>, x: int, y: int) -> Seq<u8> {
    block(block(block(block(m, x, y), x + 2, y), x, y + 2), x + 2, y + 2)
}

/// `m` with the ground: two rows of blocks at the bottom of the screen, the first `n` of them.
pub open spec fn ground(m: Seq<u8>, n: nat) -> Seq<u8>
    decreases n,
{
    if n == 0 {
        m
    } else {
        let k = n - 1;
        block(ground(m, (n - 1) as nat), 2 * (k % 16), 26 + 2 * (k / 16))
    }
}

/// `a` with `palette` in the attribute entry of tile (`x`, `y`).
pub open spec fn with_palette(a: Seq<[u8; 4]>, x: int, y: int, palette: [u8; 4]) -> Seq<[u8; 4]> {
    a.update(x / 2 + 16 * (y / 2), palette)
}

pub open spec fn bush_palette() -> [u8; 4] {
    [0x22, 0x29, 0x1A, 0x0F]
}

pub open spec fn cloud_palette() -> [u8; 4] {
    [0x22, 0x30, 0x21, 0x0F]
}

pub open spec fn coin_palette() -> [u8; 4] {
    [0x22, 0x27, 0x17, 0x0F]
}

pub open spec fn sky_palette() -> [u8; 4] {
    [0x22, 0x36, 0x17, 0x0F]
}

/// A bush six tiles wide with its top left at tile (`x`, `y`).
pub open spec fn bush(m: Seq<u8>, a: Seq<[u8; 4]>, x: int, y: int) -> (Seq<u8>, Seq<[u8; 4]>) {
    let p = bush_palette();
    let a1 = with_palette(with_palette(with_palette(a, x, y, p), x + 2, y, p), x + 4, y, p);
    let r = y + 1;
    let m1 = m.update(x + 32 * r, 0x35).update(x + 1 + 32 * r, 0x25).update(x + 2 + 32 * r, 0x25).update(
        x + 3 + 32 * r,
        0x25,
    ).update(x + 4 + 32 * r, 0x25).update(x + 5 + 32 * r, 0x38);
    let m2 = m1.update(x + 1 + 32 * y, 0x36).update(x + 2 + 32 * y, 0x37).update(x + 3 + 32 * y, 0x36).update(
        x + 4 + 32 * y,
        0x37,
    );
    (m2, a1)
}

/// A cloud four tiles wide with its top left at tile (`x`, `y`).
pub open spec fn cloud(m: Seq<u8>, a: Seq<[u8; 4]>, x: int, y: int) -> (Seq<u8>, Seq<[u8; 4]>) {
    let p = cloud_palette();
    let a1 = with_palette(
        with_palette(with_palette(with_palette(a, x, y, p), x + 2, y, p), x, y + 2, p),
        x + 2,
        y + 2,
        p,
    );
    let r2 = y + 2;
    let r1 = y + 1;
    let m1 = m.update(x + 32 * r2, 0x39).update(x + 1 + 32 * r2, 0x3A).update(x + 2 + 32 * r2, 0x3B).update(
        x + 3 + 32 * r2,
        0x3C,
    );
    let m2 = m1.update(x + 32 * r1, 0x35).update(x + 1 + 32 * r1, 0x25).update(x + 2 + 32 * r1, 0x25).update(
        x + 3 + 32 * r1,
        0x38,
    );
    let m3 = m2.update(x + 1 + 32 * y, 0x36).update(x + 2 + 32 * y, 0x37);
    (m3, a1)
}

/// A coin at tile (`x`, `y`).
pub open spec fn coin(m: Seq<u8>, a: Seq<[u8; 4]>, x: int, y: int) -> (Seq<u8>, Seq<[u8; 4]>) {
    (m.update(x + 32 * y, 0x2E), with_palette(a, x, y, coin_palette()))
}

/// The tile map and attribute table of the icon picture.
pub open spec fn icon_maps() -> (Seq<u8>, Seq<[u8; 4]>) {
    let m0 = ground(Seq::new(960, |i: int| 0x24u8), 32);
    let m1 = big_block(big_block(big_block(m0, 10, 18), 14, 18), 18, 18);
    let m2 = big_block(big_block(big_block(big_block(m1, 6, 14), 10, 14), 18, 14), 22, 14);
    let m3 = big_block(big_block(big_block(big_block(big_block(m2, 6, 10), 10, 10), 14, 10), 18, 10), 22, 10);
    let m4 = big_block(m3, 14, 6);
    let m5 = big_block(big_block(big_block(m4, 10, 2), 14, 2), 18, 2);
    let b = bush(m5, Seq::new(240, |i: int| sky_palette()), 20, 8);
    let c1 = coin(b.0, b.1, 8, 9);
    let c2 = coin(c1.0, c1.1, 9, 9);
    let c3 = coin(c2.0, c2.1, 10, 9);
    let c4 = coin(c3.0, c3.1, 11, 9);
    cloud(c4.0, c4.1, 4, 5)
}

/// Whether every colour of every palette is one of the 64 system colours.
pub open spec fn palettes_valid(a: Seq<[u8; 4]>) -> bool {
    forall|j: int, k: int| 0 <= j < a.len() && 0 <= k < 4 ==> #[trigger] a[j]@[k] < 64
}

fn draw_block(tile_map: &mut [u8], x: usize, y: usize)
    requires
        x + 1 + 32 * (y + 1) < old(tile_map)@.len(),
    ensures
        final(tile_map)@ == block(old(tile_map)@, x as int, y as int),
{
    let _tiles_len = tile_map.len();
    tile_map[x + SCREEN_WIDTH_IN_TILES * y] = 0xB4;
    tile_map[x + 1 + SCREEN_WIDTH_IN_TILES * y] = 0xB5;
    tile_map[x + SCREEN_WIDTH_IN_TILES * (y + 1)] = 0xB6;
    tile_map[x + 1 + SCREEN_WIDTH_IN_TILES * (y + 1)] = 0xB7;
}

fn draw_big_block(tile_map: &mut [u8], x: usize, y: usize)
    requires
        x + 3 + 32 * (y + 3) < old(tile_map)@.len(),
    ensures
        final(tile_map)@ == big_block(old(tile_map)@, x as int, y as int),
{
    let _tiles_len = tile_map.len();
    draw_block(tile_map, x, y);
    draw_block(tile_map, x + 2, y);
    draw_block(tile_map, x, y + 2);
    draw_block(tile_map, x + 2, y + 2);
}

fn draw_bush(tile_map: &mut [u8], attribute_table: &mut [[u8; 4]], x: usize, y: usize)
    requires
        x + 5 + 32 * (y + 1) < old(tile_map)@.len(),
        (x + 4) / 2 + 16 * (y / 2) < old(attribute_table)@.len(),
    ensures
        final(tile_map)@ == bush(old(tile_map)@, old(attribute_table)@, x as int, y as int).0,
        final(attribute_table)@ == bush(old(tile_map)@, old(attribute_table)@, x as int, y as int).1,
{
    let _tiles_len = tile_map.len();
    let _attributes_len = attribute_table.len();
    let palette: [u8; 4] = [0x22, 0x29, 0x1A, 0x0F];
    assert(palette == bush_palette());
    attribute_table[(x / 2) + (SCREEN_WIDTH_IN_TILES / 2) * (y / 2)] = palette;
    attribute_table[((x + 2) / 2) + (SCREEN_WIDTH_IN_TILES / 2) * (y / 2)] = palette;
    attribute_table[((x + 4) / 2) + (SCREEN_WIDTH_IN_TILES / 2) * (y / 2)] = palette;

    tile_map[x + SCREEN_WIDTH_IN_TILES * (y + 1)] = 0x35;
    tile_map[x + 1 + SCREEN_WIDTH_IN_TILES * (y + 1)] = 0x25;
    tile_map[x + 2 + SCREEN_WIDTH_IN_TILES * (y + 1)] = 0x25;
    tile_map[x + 3 + SCREEN_WIDTH_IN_TILES * (y + 1)] = 0x25;
    tile_map[x + 4 + SCREEN_WIDTH_IN_TILES * (y + 1)] = 0x25;
    tile_map[x + 5 + SCREEN_WIDTH_IN_TILES * (y + 1)] = 0x38;

    tile_map[x + 1 + SCREEN_WIDTH_IN_TILES * y] = 0x36;
    tile_map[x + 2 + SCREEN_WIDTH_IN_TILES * y] = 0x37;
    tile_map[x + 3 + SCREEN_WIDTH_IN_TILES * y] = 0x36;
    tile_map[x + 4 + SCREEN_WIDTH_IN_TILES * y] = 0x37;
}

fn draw_cloud(tile_map: &mut [u8], attribute_table: &mut [[u8; 4]], x: usize, y: usize)
    requires
        x + 3 + 32 * (y + 2) < old(tile_map)@.len(),
        (x + 2) / 2 + 16 * ((y + 2) / 2) < old(attribute_table)@.len(),
    ensures
        final(tile_map)@ == cloud(old(tile_map)@, old(attribute_table)@, x as int, y as int).0,
        final(attribute_table)@ == cloud(old(tile_map)@, old(attribute_table)@, x as int, y as int).1,
{
    let _tiles_len = tile_map.len();
    let _attributes_len = attribute_table.len();
    let palette: [u8; 4] = [0x22, 0x30, 0x21, 0x0F];
    assert(palette == cloud_palette());
    attribute_table[(x / 2) + (SCREEN_WIDTH_IN_TILES / 2) * (y / 2)] = palette;
    attribute_table[((x + 2) / 2) + (SCREEN_WIDTH_IN_TILES / 2) * (y / 2)] = palette;
    attribute_table[(x / 2) + (SCREEN_WIDTH_IN_TILES / 2) * ((y + 2) / 2)] = palette;
    attribute_table[((x + 2) / 2) + (SCREEN_WIDTH_IN_TILES / 2) * ((y + 2) / 2)] = palette;

    tile_map[x + SCREEN_WIDTH_IN_TILES * (y + 2)] = 0x39;
    tile_map[x + 1 + SCREEN_WIDTH_IN_TILES * (y + 2)] = 0x3A;
    tile_map[x + 2 + SCREEN_WIDTH_IN_TILES * (y + 2)] = 0x3B;
    tile_map[x + 3 + SCREEN_WIDTH_IN_TILES * (y + 2)] = 0x3C;

    tile_map[x + SCREEN_WIDTH_IN_TILES * (y + 1)] = 0x35;
    tile_map[x + 1 + SCREEN_WIDTH_IN_TILES * (y + 1)] = 0x25;
    tile_map[x + 2 + SCREEN_WIDTH_IN_TILES * (y + 1)] = 0x25;
    tile_map[x + 3 + SCREEN_WIDTH_IN_TILES * (y + 1)] = 0x38;

    tile_map[x + 1 + SCREEN_WIDTH_IN_TILES * y] = 0x36;
    tile_map[x + 2 + SCREEN_WIDTH_IN_TILES * y] = 0x37;
}

fn draw_coin(tile_map: &mut [u8], attribute_table: &mut [[u8; 4]], x: usize, y: usize)
    requires
        x + 32 * y < old(tile_map)@.len(),
        x / 2 + 16 * (y / 2) < old(attribute_table)@.len(),
    ensures
        final(tile_map)@ == coin(old(tile_map)@, old(attribute_table)@, x as int, y as int).0,
        final(attribute_table)@ == coin(old(tile_map)@, old(attribute_table)@, x as int, y as int).1,
{
    let _tiles_len = tile_map.len();
    let _attributes_len = attribute_table.len();
    let palette: [u8; 4] = [0x22, 0x27, 0x17, 0x0F];
    assert(palette == coin_palette());
    attribute_table[x / 2 + (SCREEN_WIDTH_IN_TILES / 2) * (y / 2)] = palette;
    tile_map[x + SCREEN_WIDTH_IN_TILES * y] = 0x2E;
}

/// generates a frame containing my GitHub icon
/// The picture is drawn with pattern table 1 of `chr_rom`.
pub fn generate_frame(chr_rom: &[u8]) -> (r: Frame)
    requires
        0x2000 <= chr_rom@.len(),
    ensures
        r.width == SCREEN_WIDTH,
        r.height == SCREEN_HEIGHT,
        r.data@ == draw_tile_map(
            Seq::new((SCREEN_WIDTH * SCREEN_HEIGHT * 3) as nat, |i: int| 0u8),
            SCREEN_WIDTH,
            icon_maps().0,
            icon_maps().1,
            chr_rom@,
            1,
            960,
        ),
{
    let mut tile_map = vec![0x24u8; 960];
    assert(tile_map@ =~= Seq::new(960, |i: int| 0x24u8));
    let mut attribute_table: Vec<[u8; 4]> = Vec::new();
    let sky: [u8; 4] = [0x22, 0x36, 0x17, 0x0F];
    while attribute_table.len() < SCREEN_WIDTH_IN_TILES / 2 * SCREEN_HEIGHT_IN_TILES / 2
        invariant
            attribute_table@.len() <= 240,
            sky == sky_palette(),
            forall|j: int| 0 <= j < attribute_table@.len() ==> #[trigger] attribute_table@[j] == sky_palette(),
        decreases 240 - attribute_table@.len(),
    {
        attribute_table.push(sky);
    }
    assert(attribute_table@ =~= Seq::new(240, |i: int| sky_palette()));
    assert(tile_map@.len() == 960);

    let mut k: usize = 0;
    while k < 32
        invariant
            k <= 32,
            tile_map@.len() == 960,
            tile_map@ == ground(Seq::new(960, |i: int| 0x24u8), k as nat),
        decreases 32 - k,
    {
        let y = (SCREEN_HEIGHT_IN_TILES - 4) + 2 * (k / 16);
        let x = 2 * (k % 16);
        assert(x + 1 + 32 * (y + 1) < 960) by (nonlinear_arith)
            requires
                x == 2 * (k % 16),
                y == 26 + 2 * (k / 16),
                k < 32,
        ;
        draw_block(tile_map.as_mut_slice(), x, y);
        k = k + 1;
    }
    draw_big_block(tile_map.as_mut_slice(), 10, 18);
    draw_big_block(tile_map.as_mut_slice(), 14, 18);
    draw_big_block(tile_map.as_mut_slice(), 18, 18);

    draw_big_block(tile_map.as_mut_slice(), 6, 14);
    draw_big_block(tile_map.as_mut_slice(), 10, 14);
    draw_big_block(tile_map.as_mut_slice(), 18, 14);
    draw_big_block(tile_map.as_mut_slice(), 22, 14);

    draw_big_block(tile_map.as_mut_slice(), 6, 10);
    draw_big_block(tile_map.as_mut_slice(), 10, 10);
    draw_big_block(tile_map.as_mut_slice(), 14, 10);
    draw_big_block(tile_map.as_mut_slice(), 18, 10);
    draw_big_block(tile_map.as_mut_slice(), 22, 10);

    draw_big_block(tile_map.as_mut_slice(), 14, 6);

    draw_big_block(tile_map.as_mut_slice(), 10, 2);
    draw_big_block(tile_map.as_mut_slice(), 14, 2);
    draw_big_block(tile_map.as_mut_slice(), 18, 2);

    draw_bush(tile_map.as_mut_slice(), attribute_table.as_mut_slice(), 20, 8);

    draw_coin(tile_map.as_mut_slice(), attribute_table.as_mut_slice(), 8, 9);
    draw_coin(tile_map.as_mut_slice(), attribute_table.as_mut_slice(), 9, 9);
    draw_coin(tile_map.as_mut_slice(), attribute_table.as_mut_slice(), 10, 9);
    draw_coin(tile_map.as_mut_slice(), attribute_table.as_mut_slice(), 11, 9);

    draw_cloud(tile_map.as_mut_slice(), attribute_table.as_mut_slice(), 4, 5);

    assert(tile_map@ == icon_maps().0);
    assert(attribute_table@ == icon_maps().1);
    proof {
        lemma_icon_palettes_valid();
        lemma_icon_positions();
    }
    let mut cf = CustomTileFrame::new(SCREEN_WIDTH, SCREEN_HEIGHT, tile_map, attribute_table);
    cf.update(chr_rom, 1);
    cf.frame
}

/// Every palette of the icon picture uses system colours only.
proof fn lemma_icon_palettes_valid()
    ensures
        icon_maps().1.len() == 240,
        palettes_valid(icon_maps().1),
{
    let a0 = Seq::new(240, |i: int| sky_palette());
    assert(palettes_valid(a0));
    assert(bush_palette()@ == seq![0x22u8, 0x29, 0x1A, 0x0F]);
    assert(cloud_palette()@ == seq![0x22u8, 0x30, 0x21, 0x0F]);
    assert(coin_palette()@ == seq![0x22u8, 0x27, 0x17, 0x0F]);
    assert(sky_palette()@ == seq![0x22u8, 0x36, 0x17, 0x0F]);
    assert forall|j: int, k: int| 0 <= j < icon_maps().1.len() && 0 <= k < 4 implies #[trigger] icon_maps().1[j]@[k] < 64 by {
        let p = icon_maps().1[j];
        assert(p == sky_palette() || p == bush_palette() || p == cloud_palette() || p == coin_palette());
    }
}

/// Every tile of a screen-sized tile map has its attribute entry and fits in the frame.
proof fn lemma_icon_positions()
    ensures
        forall|i: int| 0 <= i < 960 ==> #[trigger] attribute_index(SCREEN_WIDTH, i) < 240,
        forall|i: int| 0 <= i < 960 ==> #[trigger] tile_position_fits(SCREEN_WIDTH, i),
{
    assert forall|i: int| 0 <= i < 960 implies #[trigger] attribute_index(SCREEN_WIDTH, i) < 240 && tile_position_fits(SCREEN_WIDTH, i) by {
        let c = tile_column(SCREEN_WIDTH, i);
        let r = tile_row(SCREEN_WIDTH, i);
        assert(0 <= c < 32 && 0 <= r < 30) by (nonlinear_arith)
            requires
                c == i % 32,
                r == i / 32,
                0 <= i < 960,
        ;
        assert(pixel_fits(SCREEN_WIDTH, (c * 8 + 7) as usize, (r * 8 + 7) as usize)) by (nonlinear_arith)
            requires
                0 <= c < 32,
                0 <= r < 30,
        ;
    }
}

} // verus!
