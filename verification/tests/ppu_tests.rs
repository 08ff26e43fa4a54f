use nes_rs::bus::PollNMI;
use nes_rs::ppu::palette::SystemPalette;
use nes_rs::ppu::PPU;
use nes_rs::rom::Mirroring;
use nes_rs::rendering::scanline::Scanline;

fn new_ppu() -> PPU {
    PPU::new(Mirroring::HORIZONTAL, SystemPalette::new())
}

#[test]
fn test_ppu_vram_writes() {
    let mut ppu = new_ppu();
    ppu.write_to_addr(0x23);
    ppu.write_to_addr(0x05);
    ppu.write_to_data(0x66, None);

    assert_eq!(ppu.vram[0x0305], 0x66);
}

#[test]
fn test_ppu_vram_reads() {
    let mut ppu = new_ppu();
    ppu.write_to_ctrl(0);
    ppu.vram[0x0305] = 0x66;

    ppu.write_to_addr(0x23);
    ppu.write_to_addr(0x05);

    ppu.read_data(&vec![0; 2048]); //load_into_buffer
    assert_eq!(ppu.address_register.data_alt, 0x2306);
    assert_eq!(ppu.read_data(&vec![0; 2048]), 0x66);
}

#[test]
fn test_ppu_vram_reads_cross_page() {
    let mut ppu = new_ppu();
    ppu.write_to_ctrl(0);
    ppu.vram[0x01ff] = 0x66;
    ppu.vram[0x0200] = 0x77;

    ppu.write_to_addr(0x21);
    ppu.write_to_addr(0xff);

    ppu.read_data(&vec![0; 2048]); //load_into_buffer
    assert_eq!(ppu.read_data(&vec![0; 2048]), 0x66);
    assert_eq!(ppu.read_data(&vec![0; 2048]), 0x77);
}

#[test]
fn test_ppu_vram_reads_step_32() {
    let mut ppu = new_ppu();
    ppu.write_to_ctrl(0b100);
    ppu.vram[0x01ff] = 0x66;
    ppu.vram[0x01ff + 32] = 0x77;
    ppu.vram[0x01ff + 64] = 0x88;

    ppu.write_to_addr(0x21);
    ppu.write_to_addr(0xff);

    ppu.read_data(&vec![0; 2048]); //load_into_buffer
    assert_eq!(ppu.read_data(&vec![0; 2048]), 0x66);
    assert_eq!(ppu.read_data(&vec![0; 2048]), 0x77);
    assert_eq!(ppu.read_data(&vec![0; 2048]), 0x88);
}

// Horizontal:
//   [0x2000 A ] [0x2400 a ]
//   [0x2800 B ] [0x2C00 b ]
#[test]
fn test_vram_horizontal_mirror() {
    let mut ppu = new_ppu();
    ppu.write_to_addr(0x24);
    ppu.write_to_addr(0x05);

    ppu.write_to_data(0x66, None); //write to, a

    ppu.write_to_addr(0x28);
    ppu.write_to_addr(0x05);

    ppu.write_to_data(0x77, None); //write to, B

    ppu.write_to_addr(0x20);
    ppu.write_to_addr(0x05);

    ppu.read_data(&vec![0; 2048]); //load into buffer
    assert_eq!(ppu.read_data(&vec![0; 2048]), 0x66); //read from A

    ppu.write_to_addr(0x2C);
    ppu.write_to_addr(0x05);

    ppu.read_data(&vec![0; 2048]); //load into buffer
    assert_eq!(ppu.read_data(&vec![0; 2048]), 0x77); //read from b
}

// Vertical:
//   [0x2000 A ] [0x2400 B ]
//   [0x2800 a ] [0x2C00 b ]
#[test]
fn test_vram_vertical_mirror() {
    let mut ppu = PPU::new(Mirroring::VERTICAL, SystemPalette::new());

    ppu.write_to_addr(0x20);
    ppu.write_to_addr(0x05);

    ppu.write_to_data(0x66, None); //write to, A

    ppu.write_to_addr(0x2C);
    ppu.write_to_addr(0x05);

    ppu.write_to_data(0x77, None); //write to, b

    ppu.write_to_addr(0x28);
    ppu.write_to_addr(0x05);

    ppu.read_data(&vec![0; 2048]); //load into buffer
    assert_eq!(ppu.read_data(&vec![0; 2048]), 0x66); //read from a

    ppu.write_to_addr(0x24);
    ppu.write_to_addr(0x05);

    ppu.read_data(&vec![0; 2048]); //load into buffer
    assert_eq!(ppu.read_data(&vec![0; 2048]), 0x77); //read from B
}

#[test]
fn test_read_status_resets_latch() {
    let mut ppu = new_ppu();
    ppu.vram[0x0305] = 0x66;

    ppu.write_to_addr(0x21);
    ppu.write_to_addr(0x23);
    ppu.write_to_addr(0x05);

    ppu.read_data(&vec![0; 2048]); //load_into_buffer
    assert_ne!(ppu.read_data(&vec![0; 2048]), 0x66);

    ppu.read_status();

    ppu.write_to_addr(0x23);
    ppu.write_to_addr(0x05);

    ppu.read_data(&vec![0; 2048]); //load_into_buffer
    assert_eq!(ppu.read_data(&vec![0; 2048]), 0x66);
}

#[test]
fn test_ppu_vram_mirroring() {
    let mut ppu = new_ppu();
    ppu.write_to_ctrl(0);
    ppu.vram[0x0305] = 0x66;

    ppu.write_to_addr(0x63); //0x6305 -> 0x2305
    ppu.write_to_addr(0x05);

    ppu.read_data(&vec![0; 2048]); //load into_buffer
    assert_eq!(ppu.read_data(&vec![0; 2048]), 0x66);
}

#[test]
fn test_read_status_resets_vblank() {
    let mut ppu = new_ppu();
    ppu.status_register.set_vertical_blank(true);

    let status = ppu.read_status();

    assert_eq!(status >> 7, 1);
    assert_eq!(ppu.status_register.bits() >> 7, 0);
}

#[test]
fn test_oam_read_write() {
    let mut ppu = new_ppu();
    ppu.write_to_oam_addr(0x10);
    ppu.write_to_oam_data(0x66);
    ppu.write_to_oam_data(0x77);

    ppu.write_to_oam_addr(0x10);
    assert_eq!(ppu.read_oam_data(), 0x66);

    ppu.write_to_oam_addr(0x11);
    assert_eq!(ppu.read_oam_data(), 0x77);
}

#[test]
fn test_oam_dma() {
    let mut ppu = new_ppu();

    let mut data = [0x66; 256];
    data[0] = 0x77;
    data[255] = 0x88;

    ppu.write_to_oam_addr(0x10);
    ppu.write_to_oam_data_dma(&data);

    ppu.write_to_oam_addr(0xf); //wrap around
    assert_eq!(ppu.read_oam_data(), 0x88);

    ppu.write_to_oam_addr(0x10);
    ppu.write_to_oam_addr(0x77);
    ppu.write_to_oam_addr(0x11);
    ppu.write_to_oam_addr(0x66);
}

#[test]
fn palette_mirrors_background_entry() {
    let mut ppu = new_ppu();
    ppu.write_to_addr(0x3F);
    ppu.write_to_addr(0x10);
    ppu.write_to_data(0x2A, None);
    assert_eq!(ppu.read_palette_table(0), 0x2A);
}

#[test]
fn nmi_is_reported_once() {
    let mut ppu = new_ppu();
    ppu.outstanding_interrupt = true;
    assert!(ppu.poll_nmi_status());
    assert!(!ppu.poll_nmi_status());
}

fn sprite_test_mapper() -> nes_rs::mappers::MapperWrapper {
    let mut chr = vec![0u8; 0x2000];
    // tile 1, row 2: low plane all set, high plane clear -> colour index 1
    chr[16 + 2] = 0xFF;
    // tile 1, row 3: high plane set on the leftmost pixel only -> colour index 2 there
    chr[16 + 3 + 8] = 0x80;
    nes_rs::mappers::create_mapper(0, vec![0u8; 0x4000], chr, 0, false, Mirroring::HORIZONTAL, None)
}

fn ppu_with_one_sprite(y: u8, x: u8, attributes: u8) -> PPU {
    let mut ppu = new_ppu();
    let mut oam = [0xFFu8; 256];
    oam[0] = y;
    oam[1] = 1;
    oam[2] = attributes;
    oam[3] = x;
    ppu.write_to_oam_data_dma(&oam);
    ppu.write_to_addr(0x3F);
    ppu.write_to_addr(0x11);
    ppu.write_to_data(0x16, None);
    ppu.write_to_data(0x2A, None);
    ppu
}

#[test]
fn tick_counts_cycles_within_a_scanline() {
    let mapper = sprite_test_mapper();
    let mut ppu = new_ppu();
    let mut line = Scanline::new();
    assert_eq!(ppu.tick(100, &mapper, &mut line), 0);
    assert_eq!(ppu.tick(100, &mapper, &mut line), 0);
    assert_eq!(ppu.cycles, 200);
    assert_eq!(ppu.scan_line, 0);
}

#[test]
fn tick_ends_a_scanline_after_341_cycles() {
    let mapper = sprite_test_mapper();
    let mut ppu = ppu_with_one_sprite(0xFF, 0, 0);
    let mut line = Scanline::new();
    ppu.cycles = 300;
    assert_eq!(ppu.tick(50, &mapper, &mut line), 1);
    assert_eq!(ppu.cycles, 9);
}

#[test]
fn scanline_241_starts_vblank_and_raises_nmi() {
    let mapper = sprite_test_mapper();
    let mut ppu = ppu_with_one_sprite(0xFF, 0, 0);
    let mut line = Scanline::new();
    ppu.write_to_ctrl(0x80);
    ppu.poll_nmi_status();
    ppu.scan_line = 240;
    ppu.cycles = 340;
    assert_eq!(ppu.tick(1, &mapper, &mut line), 241);
    assert!(ppu.is_in_vertical_blank());
    assert!(ppu.poll_nmi_status());
}

#[test]
fn vblank_clears_late_in_scanline_260_and_frame_wraps() {
    let mapper = sprite_test_mapper();
    let mut ppu = ppu_with_one_sprite(0xFF, 0, 0);
    let mut line = Scanline::new();
    ppu.scan_line = 240;
    ppu.cycles = 340;
    ppu.tick(1, &mapper, &mut line);
    assert!(ppu.is_in_vertical_blank());
    ppu.scan_line = 260;
    ppu.cycles = 300;
    ppu.tick(10, &mapper, &mut line);
    assert!(!ppu.is_in_vertical_blank());
    ppu.scan_line = 261;
    ppu.cycles = 340;
    assert_eq!(ppu.tick(1, &mapper, &mut line), 0);
}

#[test]
fn sprite_row_is_drawn_for_the_next_scanline() {
    let mapper = sprite_test_mapper();
    let mut ppu = ppu_with_one_sprite(10, 20, 0);
    let mut line = Scanline::new();
    ppu.scan_line = 10;
    ppu.cycles = 340;
    // the new scanline is 11, so the sprites of scanline 12 (row 2 of the tile) are drawn
    assert_eq!(ppu.tick(1, &mapper, &mut line), 11);
    let colour = ppu.get_color_from_current_system_palette(0x16);
    for x in 20..28 {
        assert!(!line.data[x].sprite_color.transparent);
        assert_eq!(line.data[x].sprite_color.color, colour);
        assert!(!line.data[x].sprite_color.behind_background);
    }
    assert!(line.data[19].sprite_color.transparent);
    assert!(line.data[28].sprite_color.transparent);
    // the span starts at the first opaque pixel met, scanning the row from its right end
    assert_eq!(ppu.sprite_zero_start, 27);
    assert_eq!(ppu.sprite_zero_end, 35);
}

#[test]
fn flipped_sprite_row_mirrors_the_tile() {
    let mapper = sprite_test_mapper();
    // vertical flip: scanline 14 shows row 7 - (14 - 10) = 3 of the tile
    let mut ppu = ppu_with_one_sprite(10, 20, 0b1110_0000);
    let mut line = Scanline::new();
    ppu.scan_line = 12;
    ppu.cycles = 340;
    ppu.tick(1, &mapper, &mut line);
    let colour = ppu.get_color_from_current_system_palette(0x2A);
    // horizontal flip puts the tile's leftmost pixel at the rightmost column
    assert_eq!(line.data[27].sprite_color.color, colour);
    assert!(line.data[27].sprite_color.behind_background);
    assert!(line.data[20].sprite_color.transparent);
}

#[test]
fn sprite_zero_hit_is_set_when_cycles_cross_sprite_zero() {
    let mapper = sprite_test_mapper();
    let mut ppu = ppu_with_one_sprite(10, 20, 0);
    let mut line = Scanline::new();
    ppu.write_to_mask(0x10);
    ppu.scan_line = 10;
    ppu.cycles = 340;
    ppu.tick(1, &mapper, &mut line);
    assert_eq!(ppu.read_status() & 0x40, 0);
    ppu.tick(15, &mapper, &mut line);
    assert_eq!(ppu.read_status() & 0x40, 0);
    ppu.tick(10, &mapper, &mut line);
    assert_eq!(ppu.read_status() & 0x40, 0);
    ppu.tick(10, &mapper, &mut line);
    assert_eq!(ppu.read_status() & 0x40, 0x40);
}

#[test]
fn ninth_sprite_on_a_line_sets_overflow() {
    let mapper = sprite_test_mapper();
    let mut ppu = new_ppu();
    let mut oam = [0xFFu8; 256];
    for i in 0..9 {
        oam[i * 4] = 10;
        oam[i * 4 + 1] = 1;
        oam[i * 4 + 2] = 0;
        oam[i * 4 + 3] = (i * 8) as u8;
    }
    ppu.write_to_oam_data_dma(&oam);
    let mut line = Scanline::new();
    ppu.scan_line = 10;
    ppu.cycles = 340;
    ppu.tick(1, &mapper, &mut line);
    assert_eq!(ppu.read_status() & 0x20, 0x20);
    // only the first eight are drawn
    assert!(!line.data[63].sprite_color.transparent);
    assert!(line.data[64].sprite_color.transparent);
}

#[test]
fn name_table_write_reads_back_through_mirrors() {
    let mut ppu = new_ppu();
    ppu.write_to_addr(0x20);
    ppu.write_to_addr(0x05);
    ppu.write_to_data(0x66, None);
    // 0x3005 mirrors 0x2005; horizontal mirroring shows 0x2005 at 0x2405 too
    for (hi, lo) in [(0x30u8, 0x05u8), (0x24, 0x05)] {
        ppu.write_to_addr(hi);
        ppu.write_to_addr(lo);
        ppu.read_data(&[]);
        assert_eq!(ppu.read_data(&[]), 0x66);
    }
}

#[test]
fn palette_write_reads_back_at_once() {
    let mut ppu = new_ppu();
    ppu.write_to_addr(0x3F);
    ppu.write_to_addr(0x05);
    ppu.write_to_data(0x21, None);
    ppu.write_to_addr(0x3F);
    ppu.write_to_addr(0x05);
    assert_eq!(ppu.read_data(&[]), 0x21);
}

#[test]
fn palette_writes_need_no_name_table_mirroring() {
    let mut ppu = PPU::new(Mirroring::ONE_SCREEN_LOWER_BANK, SystemPalette::new());
    ppu.write_to_addr(0x3F);
    ppu.write_to_addr(0x01);
    ppu.write_to_data(0x2C, None);
    assert_eq!(ppu.read_palette_table(1), 0x2C);
    // name table 0 lies inside the first kilobyte whatever the mirroring
    ppu.write_to_addr(0x20);
    ppu.write_to_addr(0x10);
    ppu.write_to_data(0x33, None);
    assert_eq!(ppu.vram[0x10], 0x33);
}
