use nes_rs::mappers::cnrom::{CNROMMapper, CNROMMapperState};
use nes_rs::mappers::mmc1::{ControlRegister, MMC1Mapper, PRGBankMode};
use nes_rs::mappers::nrom::{NROMMapper, NROMMapperState};
use nes_rs::mappers::{create_mapper, from_state, Mapper, MapperStateWrapper, MapperWrapper};
use nes_rs::rom::Mirroring;

fn prg(banks_16k: usize) -> Vec<u8> {
    (0..banks_16k * 0x4000).map(|i| (i / 0x4000) as u8).collect()
}

#[test]
fn nrom_mirrors_16k_prg() {
    let m = NROMMapper::new(prg(1), vec![7; 0x2000], 0, false, Mirroring::VERTICAL);
    assert_eq!(m.read_prg_rom(0x0000), 0);
    assert_eq!(m.read_prg_rom(0x4000), 0);
    assert_eq!(m.prg_rom_len(), 0x4000);
    assert_eq!(m.read_chr_rom(5), 7);
    assert_eq!(m.get_mirroring(), Mirroring::VERTICAL);
    assert_eq!(m.read_cartridge_ram(0x1FFF), 0);
}

#[test]
fn nrom_chr_ram_writes_only_with_chr_ram() {
    let mut rom = NROMMapper::new(prg(1), vec![0; 0x2000], 0, false, Mirroring::HORIZONTAL);
    rom.write_chr_ram(3, 9);
    assert_eq!(rom.read_chr_rom(3), 0);
    let mut ram = NROMMapper::new(prg(1), vec![0; 0x2000], 0, true, Mirroring::HORIZONTAL);
    ram.write_chr_ram(3, 9);
    assert_eq!(ram.read_chr_rom(3), 9);
    assert_eq!(ram.read_tile_chr_rom(0)[3], 9);
}

#[test]
fn nrom_state_round_trip() {
    let mut m = NROMMapper::new(prg(1), vec![0; 0x2000], 16, false, Mirroring::HORIZONTAL);
    m.write_cartridge_ram(2, 5);
    let state = m.get_state();
    let fresh = NROMMapper::new(prg(1), vec![0; 0x2000], 16, false, Mirroring::HORIZONTAL);
    let restored = NROMMapper::from_state(state, MapperWrapper::NROMMapper(fresh)).unwrap();
    assert_eq!(restored.read_cartridge_ram(2), 5);
    let other = CNROMMapper::new(prg(2), vec![0; 0x8000], false, Mirroring::VERTICAL);
    assert!(NROMMapper::from_state(NROMMapperState { cartridge_ram: vec![] }, MapperWrapper::CNROMMapper(other)).is_none());
}

#[test]
fn cnrom_switches_chr_bank() {
    let chr: Vec<u8> = (0..0x8000).map(|i| (i / 0x2000) as u8).collect();
    let mut m = CNROMMapper::new(prg(2), chr, false, Mirroring::VERTICAL);
    assert_eq!(m.read_chr_rom(0), 0);
    m.register_write(0, 2);
    assert_eq!(m.read_chr_rom(0), 2);
    assert_eq!(m.read_tile_chr_rom(0x10)[0], 2);
    assert_eq!(m.get_state().current_bank_offset, 0x4000);
    let restored = from_state(
        MapperStateWrapper::CNROMMapperState(CNROMMapperState { current_bank_offset: 0x6000 }),
        MapperWrapper::CNROMMapper(m),
    )
    .unwrap();
    assert_eq!(restored.read_chr_rom(0), 3);
}

#[test]
fn mmc1_control_register_decodes() {
    let mut c = ControlRegister::new();
    assert_eq!(c.get_prg_mode(), PRGBankMode::LastBankFix);
    c.set(0b10010);
    assert_eq!(c.get_mirroring(), Mirroring::VERTICAL);
    assert_eq!(c.get_prg_mode(), PRGBankMode::Mode32k);
    assert!(!c.chr_8k_mode());
    c.reset();
    assert_eq!(c.value, 0b11110);
}

fn write_register(m: &mut MMC1Mapper, address: u16, value: u8) {
    for i in 0..5 {
        m.register_write(address, (value >> i) & 1);
    }
}

#[test]
fn mmc1_last_bank_fixed_and_first_switchable() {
    let mut m = MMC1Mapper::new(prg(8), vec![0; 0x2000], None);
    // power on: PRG mode 3, bank 0 at 0x8000, last bank at 0xC000
    assert_eq!(m.read_prg_rom(0x0000), 0);
    assert_eq!(m.read_prg_rom(0x4000), 7);
    // the shift register starts empty: feed the sentinel first
    m.register_write(0x6000, 0x80);
    write_register(&mut m, 0x6000, 3);
    assert_eq!(m.read_prg_rom(0x0000), 3);
    assert_eq!(m.read_prg_rom(0x4000), 7);
}

#[test]
fn mmc1_32k_mode_ignores_low_bank_bit() {
    let mut m = MMC1Mapper::new(prg(16), vec![0; 0x2000], None);
    m.register_write(0, 0x80);
    write_register(&mut m, 0x0000, 0b00000);
    write_register(&mut m, 0x6000, 5);
    // bank 5 & !1 = 4 selects 32 KiB bank 4: 16 KiB banks 8 and 9
    assert_eq!(m.read_prg_rom(0x0000), 8);
    assert_eq!(m.read_prg_rom(0x4000), 9);
    assert_eq!(m.get_mirroring(), Mirroring::ONE_SCREEN_LOWER_BANK);
}

#[test]
fn mmc1_cartridge_ram_respects_disable_bit() {
    let mut m = MMC1Mapper::new(prg(2), vec![0; 0x2000], Some(vec![0; 0x2000]));
    m.write_cartridge_ram(4, 9);
    assert_eq!(m.read_cartridge_ram(4), 9);
    m.register_write(0, 0x80);
    write_register(&mut m, 0x6000, 0x10);
    m.write_cartridge_ram(4, 1);
    assert_eq!(m.read_cartridge_ram(4), 9);
    assert_eq!(m.get_battery_backed_ram().unwrap()[4], 9);
}

#[test]
fn create_mapper_picks_kind() {
    let m = create_mapper(3, prg(2), vec![0; 0x8000], 0, false, Mirroring::HORIZONTAL, None);
    assert!(matches!(m, MapperWrapper::CNROMMapper(_)));
    let n = create_mapper(0, prg(1), vec![0; 0x2000], 0, false, Mirroring::HORIZONTAL, None);
    assert!(matches!(n, MapperWrapper::NROMMapper(_)));
    assert_eq!(n.get_mirroring(), Mirroring::HORIZONTAL);
    let o = create_mapper(1, prg(2), vec![0; 0x2000], 0, false, Mirroring::HORIZONTAL, None);
    assert!(matches!(o, MapperWrapper::MMC1Mapper(_)));
    assert_eq!(o.prg_rom_len(), 0x8000);
    assert!(o.get_battery_backed_ram().is_none());
}

#[test]
fn cnrom_current_chr_rom_starts_at_the_selected_bank() {
    let mut chr = vec![0u8; 0x4000];
    chr[0x2000] = 7;
    let mut m = CNROMMapper::new(vec![0u8; 0x4000], chr, false, Mirroring::VERTICAL);
    assert_eq!(m.get_current_chr_rom().len(), 0x4000);
    m.register_write(0x8000, 1);
    assert_eq!(m.get_current_chr_rom().len(), 0x2000);
    assert_eq!(m.get_current_chr_rom()[0], 7);
}
