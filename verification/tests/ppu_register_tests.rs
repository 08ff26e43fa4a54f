use nes_rs::ppu::addr::AddressRegister;
use nes_rs::ppu::mask::MaskRegister;
use nes_rs::ppu::t_register::TRegister;

#[test]
fn test_setter_test() {
    let mut a = AddressRegister::new();
    a.data = 0b111010011100000;
    let mut b = AddressRegister::new();
    b.set_tile_y(7);
    b.set_inner_tile_y_offset(7);
    b.horizontal_name_table_overflow();

    assert_eq!(a.data, b.data);
}

#[test]
fn test_tile_y_test() {
    let mut a = AddressRegister::new();
    a.data = 0b111010011100000;
    println!(
        "1 x: {} y: {} yi: {} nt: {}",
        a.get_tile_x(),
        a.get_tile_y(),
        a.get_inner_tile_y_offset(),
        a.get_name_table()
    );
    a.set_tile_y((7 + 1) as u8);
    println!(
        "2 x: {} y: {} yi: {} nt: {}",
        a.get_tile_x(),
        a.get_tile_y(),
        a.get_inner_tile_y_offset(),
        a.get_name_table()
    );
    a.horizontal_name_table_overflow();
    println!(
        "3 x: {} y: {} yi: {} nt: {}",
        a.get_tile_x(),
        a.get_tile_y(),
        a.get_inner_tile_y_offset(),
        a.get_name_table()
    );
    a.set_inner_tile_y_offset((7 + 1) as u8);
    println!(
        "4 x: {} y: {} yi: {} nt: {}",
        a.get_tile_x(),
        a.get_tile_y(),
        a.get_inner_tile_y_offset(),
        a.get_name_table()
    );
}

#[test]
fn test_load_x_from() {
    let mut a = AddressRegister::new();
    a.data = 0xFFFF;
    let mut t = TRegister::new();
    t.data = 0b10100010_01011001;
    a.load_x_from(&t);
    assert_eq!(a.data, 0b11111011_11111001)
}

#[test]
fn test_load_y_from() {
    let mut a = AddressRegister::new();
    a.data = 0xFFFF;
    let mut t = TRegister::new();
    t.data = 0b10100010_01011001;
    a.load_y_from(&t);
    assert_eq!(a.data, 0b10101110_01011111)
}

#[test]
fn emphasis() {
    let mut r = MaskRegister::new();
    assert_eq!(r.get_emphasis_index(), 0);
    r.insert(MaskRegister::RED);
    assert_eq!(r.get_emphasis_index(), 1);
    r.remove(MaskRegister::RED);
    r.insert(MaskRegister::GREEN);
    assert_eq!(r.get_emphasis_index(), 2);
    r.remove(MaskRegister::GREEN);
    r.insert(MaskRegister::BLUE);
    assert_eq!(r.get_emphasis_index(), 4);
    r.insert(MaskRegister::RED);
    assert_eq!(r.get_emphasis_index(), 5);
}

#[test]
#[allow(clippy::zero_prefixed_literal)]
fn test_update_ctrl_write() {
    let mut t = TRegister::new();
    t.update_ctrl_write(10);
    let mut tt = TRegister::new();
    tt.update_ctrl_write(01);
    let mut ttt = TRegister::new();
    ttt.update_ctrl_write(11);
    let mut tttt = TRegister::new();
    tttt.update_ctrl_write(11);
    tttt.update_ctrl_write(00);
    assert_eq!(t.data, 0b1000_00000000);
    assert_eq!(tt.data, 0b100_00000000);
    assert_eq!(ttt.data, 0b1100_00000000);
    assert_eq!(tttt.data, 0);
}

#[test]
fn test_update_scroll_write() {
    let mut t = TRegister::new();
    t.update_scroll_write(0b010110101, false);
    assert_eq!(t.data, 0b010110);

    let mut tt = TRegister::new();
    tt.update_scroll_write(0b10110101, true);
    println!("{:8b}", tt.data & 0b00000000_11100000);
    assert_eq!(tt.data & 0b00000000_11100000, 0b00000000_11000000);
    assert_eq!(tt.data & 0b00000011_00000000, 0b00000010_00000000);
    assert_eq!(tt.data & 0b01110000_00000000, 0b01010000_00000000);
}

#[test]
fn test_update_addr_write() {
    let mut t = TRegister::new();
    t.data = 0b01000000_00000000;
    t.update_addr_write(0b10110101, false);
    assert_eq!(t.data, 0b110101_00000000);

    let mut tt = TRegister::new();
    tt.data = 0xFFFF;
    tt.update_addr_write(0b10110101, true);
    assert_eq!(tt.data, 0b11111111_10110101);
}

#[test]
fn address_increment_wraps_at_0x4000() {
    let mut a = AddressRegister::new();
    a.data = 0x3FFF;
    a.increment(1);
    assert_eq!(a.data, 0);
}

#[test]
fn load_y_from_keeps_bit_15_of_the_address() {
    let mut a = AddressRegister::new();
    a.data = 0;
    let mut t = TRegister::new();
    t.data = 0xFFFF;
    a.load_y_from(&t);
    assert_eq!(a.data, 0x7BE0);
}
