use nes_rs::ppu::palette::SystemPalette;
use nes_rs::ppu::PPU;
use nes_rs::rendering::custom_tile_frame::CustomTileFrame;
use nes_rs::rendering::fps_frame::FPSFrame;
use nes_rs::rendering::frame::Frame;
use nes_rs::rendering::icon_frame::generate_frame;
use nes_rs::rendering::scanline::{BackgroundColor, Scanline, ScanlinePixel, SpriteColor};
use nes_rs::rendering::{
    get_bg_palette, get_sprite_palette, render, render_background_current_scanline, render_sprites, write_tile,
};
use nes_rs::rom::Mirroring;

fn coloured_palette() -> SystemPalette {
    let mut colours = [(0u8, 0u8, 0u8); 64];
    for (i, c) in colours.iter_mut().enumerate() {
        *c = (i as u8, i as u8 + 1, i as u8 + 2);
    }
    SystemPalette::from_single_palette(colours)
}

#[test]
fn frame_set_and_get_pixel() {
    let mut f = Frame::new(4, 2);
    assert_eq!(f.data.len(), 24);
    f.set_pixel(1, 1, (1, 2, 3));
    assert_eq!(f.get_pixel(1, 1), (1, 2, 3));
    assert_eq!(&f.data[15..18], &[1, 2, 3]);
    // outside the frame: ignored, reads black
    f.set_pixel(0, 2, (9, 9, 9));
    assert_eq!(f.get_pixel(0, 2), (0, 0, 0));
}

#[test]
fn frame_fill_and_clear() {
    let mut f = Frame::new(2, 1);
    f.fill((5, 6, 7));
    assert_eq!(f.data, vec![5, 6, 7, 5, 6, 7]);
    f.clear();
    assert_eq!(f.data.len(), 256 * 240 * 3);
    assert_eq!(f.width, 2);
}

#[test]
fn write_tile_draws_colour_indices() {
    let mut f = Frame::new(8, 8);
    let mut tile = [0u8; 16];
    tile[0] = 0b1000_0000; // low bit of pixel (0, 0)
    tile[8] = 0b1100_0000; // high bits of pixels (0, 0) and (1, 0)
    write_tile(&mut f, 0, 0, &tile, &coloured_palette(), &[0, 10, 20, 30]);
    assert_eq!(f.get_pixel(0, 0), (30, 31, 32));
    assert_eq!(f.get_pixel(1, 0), (20, 21, 22));
    assert_eq!(f.get_pixel(2, 0), (0, 1, 2));
}

#[test]
fn combined_colour_priorities() {
    let mut p = ScanlinePixel::new();
    p.background_color = BackgroundColor { color: (1, 1, 1), transparent: false };
    assert_eq!(p.get_combined_color(), (1, 1, 1));
    p.sprite_color = SpriteColor { color: (2, 2, 2), behind_background: false, transparent: false };
    assert_eq!(p.get_combined_color(), (2, 2, 2));
    p.sprite_color.behind_background = true;
    assert_eq!(p.get_combined_color(), (1, 1, 1));
    p.background_color.transparent = true;
    assert_eq!(p.get_combined_color(), (2, 2, 2));
}

#[test]
fn scanline_writes_row_and_clears_sprites() {
    let mut s = Scanline::new();
    s.data[3].sprite_color = SpriteColor { color: (4, 5, 6), behind_background: false, transparent: false };
    s.data[3].background_color = BackgroundColor { color: (7, 7, 7), transparent: false };
    let mut f = Frame::new(256, 2);
    s.write_scanline(&mut f, 1);
    assert_eq!(f.get_pixel(3, 1), (4, 5, 6));
    s.clear();
    assert!(s.data[3].sprite_color.transparent);
    assert_eq!(s.data[3].background_color.color, (7, 7, 7));
}

#[test]
fn palettes_from_palette_table() {
    let mut ppu = PPU::new(Mirroring::HORIZONTAL, SystemPalette::new());
    for i in 0..32 {
        ppu.palette_table[i] = i as u8;
    }
    // attribute 0b11_10_01_00: quadrant (1, 1) of the block selects palette 3
    let attributes = [0b1110_0100u8; 64];
    assert_eq!(get_bg_palette(&ppu, &attributes, 3, 3), [0, 13, 14, 15]);
    assert_eq!(get_bg_palette(&ppu, &attributes, 2, 0), [0, 5, 6, 7]);
    assert_eq!(get_sprite_palette(&ppu, 1), [0, 0x15, 0x16, 0x17]);
}

#[test]
fn fps_counter_draws_six_tiles() {
    let mut chr = vec![0u8; 64 * 16];
    chr[16 * 2] = 0xFF; // tile 2: first row colour 1
    let mut fps = FPSFrame::new(0, 30, [0, 1, 2, 3]);
    fps.update(&chr, 222, 0);
    // every digit of 222 is tile 2: the top row of the three digits is drawn
    assert_eq!(fps.frame.width, 48);
    assert_eq!(fps.frame.get_pixel(0, 0), (0, 0, 0));
}

#[test]
fn custom_tile_frame_and_icon() {
    let chr = vec![0u8; 0x2000];
    let mut cf = CustomTileFrame::new(16, 8, vec![1, 2], vec![[0, 1, 2, 3]]);
    cf.update(&chr, 1);
    assert_eq!(cf.frame.data.len(), 16 * 8 * 3);
    let frame = generate_frame(&chr);
    assert_eq!(frame.width, 256);
    assert_eq!(frame.height, 240);
    assert_eq!(frame.data.len(), 256 * 240 * 3);
}

fn background_ppu() -> (PPU, Vec<u8>) {
    let mut ppu = PPU::new(Mirroring::HORIZONTAL, coloured_palette());
    // tile (1, 0) of name table 0 is tile 1; tile (0, 0) is tile 0
    ppu.vram[1] = 1;
    // name table 1 (the other kilobyte): tile (0, 0) is tile 1
    ppu.vram[0x400] = 1;
    ppu.write_to_addr(0x3F);
    ppu.write_to_addr(0x00);
    ppu.write_to_data(0x0F, None);
    ppu.write_to_data(0x16, None);
    ppu.write_to_mask(0b0000_1010);
    ppu.address_register.data = 0;
    let mut chr = vec![0u8; 0x2000];
    // tile 1: rows 0 and 7 fully set in the low plane
    chr[16] = 0xFF;
    chr[16 + 7] = 0xFF;
    (ppu, chr)
}

#[test]
fn background_row_is_drawn_from_the_name_table() {
    let (mut ppu, chr) = background_ppu();
    let mut line = Scanline::new();
    render_background_current_scanline(&mut ppu, &mut line, &chr);
    for i in 8..16 {
        assert_eq!(line.data[i].background_color.color, (0x16, 0x17, 0x18));
        assert!(!line.data[i].background_color.transparent);
    }
    // tile 0 is blank: the universal background colour, transparent
    assert_eq!(line.data[3].background_color.color, (0x0F, 0x10, 0x11));
    assert!(line.data[3].background_color.transparent);
    // pixel 0 is never drawn
    assert!(line.data[0].background_color.transparent);
    assert_eq!(line.data[0].background_color.color, (0, 0, 0));
    // the next row of the tile comes next
    assert_eq!(ppu.address_register.data, 0x1000);
}

#[test]
fn background_scroll_wraps_into_the_other_name_table() {
    let (mut ppu, chr) = background_ppu();
    ppu.write_to_scroll(8);
    let mut line = Scanline::new();
    render_background_current_scanline(&mut ppu, &mut line, &chr);
    // tile 1 of the current table now starts at pixel 0 (pixel 0 itself is skipped)
    assert!(!line.data[1].background_color.transparent);
    assert!(!line.data[7].background_color.transparent);
    assert!(line.data[8].background_color.transparent);
    // the other table's first tile shows in the last eight pixels
    for i in 248..256 {
        assert!(!line.data[i].background_color.transparent);
    }
}

#[test]
fn last_tile_row_moves_to_the_next_tile_row() {
    let (mut ppu, chr) = background_ppu();
    ppu.address_register.data = 0x7000;
    let mut line = Scanline::new();
    render_background_current_scanline(&mut ppu, &mut line, &chr);
    assert!(!line.data[8].background_color.transparent);
    // fine y wraps to 0, coarse y moves to 1 and the horizontal name table bit flips
    assert_eq!(ppu.address_register.data, 0x0420);
}

fn sprite_ppu(count: usize) -> PPU {
    let mut ppu = PPU::new(Mirroring::HORIZONTAL, coloured_palette());
    let mut oam = [0xFFu8; 256];
    for i in 0..count {
        oam[i * 4] = 10;
        oam[i * 4 + 1] = 1;
        oam[i * 4 + 2] = 0;
        oam[i * 4 + 3] = (20 + i * 8) as u8;
    }
    ppu.write_to_oam_data_dma(&oam);
    ppu.write_to_addr(0x3F);
    ppu.write_to_addr(0x11);
    ppu.write_to_data(0x21, None);
    ppu
}

#[test]
fn sprites_of_a_scanline_are_drawn_and_sprite_zero_hits() {
    let mut ppu = sprite_ppu(1);
    let mut chr = vec![0u8; 0x2000];
    chr[16 + 2] = 0xFF;
    let mut line = Scanline::new();
    render_sprites(&mut ppu, &mut line, 12, &chr);
    for x in 20..28 {
        assert_eq!(line.data[x].sprite_color.color, (0x21, 0x22, 0x23));
        assert!(!line.data[x].sprite_color.behind_background);
        assert!(!line.data[x].sprite_color.transparent);
    }
    assert!(line.data[28].sprite_color.transparent);
    assert_eq!(ppu.read_status() & 0x60, 0x40);
}

#[test]
fn more_than_eight_sprites_set_overflow() {
    let mut ppu = sprite_ppu(9);
    let mut chr = vec![0u8; 0x2000];
    chr[16 + 2] = 0xFF;
    let mut line = Scanline::new();
    // scanline 256 + 12 is taken modulo 256
    render_sprites(&mut ppu, &mut line, 268, &chr);
    assert_eq!(ppu.read_status() & 0x20, 0x20);
    assert!(!line.data[20 + 8 * 8 - 1].sprite_color.transparent);
    assert!(line.data[20 + 8 * 8].sprite_color.transparent);

    let mut ppu = sprite_ppu(8);
    let mut line = Scanline::new();
    render_sprites(&mut ppu, &mut line, 12, &chr);
    assert_eq!(ppu.read_status() & 0x20, 0);
}

#[test]
fn render_draws_only_what_the_mask_shows() {
    let (mut ppu, chr) = background_ppu();
    ppu.write_to_mask(0);
    let mut line = Scanline::new();
    render(&mut ppu, &mut line, 0, &chr);
    assert!(line.data[8].background_color.transparent);
    assert_eq!(ppu.address_register.data, 0);
    ppu.write_to_mask(0b0000_1010);
    render(&mut ppu, &mut line, 0, &chr);
    assert!(!line.data[8].background_color.transparent);
}
