use vstd::prelude::*;
use crate::mappers::{Mapper, MapperWrapper};
use crate::rom::Mirroring;

verus! {

/// Cartridge RAM size used when the header gives none.
pub const RAM_SIZE: usize = 0x2000;

/// Mapper 0: no bank switching.
#[derive(Debug)]
pub struct NROMMapper {
    prg_rom: Vec<u8>,
    chr_space: Vec<u8>,
    has_chr_ram: bool,
    cartridge_ram: Vec<u8>,
    mirroring: Mirroring,
}

/// What an NROM mapper saves: its cartridge RAM.
#[derive(Debug)]
pub struct NROMMapperState {
    pub cartridge_ram: Vec<u8>,
}

/// The memories and settings of an NROM cartridge.
pub struct NROMState {
    pub prg_rom: Seq<u8>,
    pub chr_space: Seq<u8>,
    pub has_chr_ram: bool,
    pub cartridge_ram: Seq<u8>,
    pub mirroring: Mirroring,
}

/// Restoring what `get_state` saved gives back the mapper it was saved from: the state
/// `from_state` builds from the saved RAM is the saved mapper's state.
pub proof fn law_state_round_trip(m: NROMState, saved: NROMMapperState)
    requires
        saved.cartridge_ram@ == m.cartridge_ram,
    ensures
        (NROMState { cartridge_ram: saved.cartridge_ram@, ..m }) == m,
{
}

impl View for NROMMapper {
    type V = NROMState;

    closed spec fn view(&self) -> NROMState {
        NROMState {
            prg_rom: self.prg_rom@,
            chr_space: self.chr_space@,
            has_chr_ram: self.has_chr_ram,
            cartridge_ram: self.cartridge_ram@,
            mirroring: self.mirroring,
        }
    }
}

impl NROMMapper {
    /// A mapper over the given memories, with `prg_ram_size` bytes of zeroed cartridge RAM
    /// (`RAM_SIZE` when `prg_ram_size` is 0).
    pub fn new(prg_rom: Vec<u8>, chr_rom: Vec<u8>, prg_ram_size: usize, has_chr_ram: bool, mirroring: Mirroring) -> (r: Self)
        ensures
            r@ == (NROMState {
                prg_rom: prg_rom@,
                chr_space: chr_rom@,
                has_chr_ram,
                cartridge_ram: Seq::new((if prg_ram_size == 0 { RAM_SIZE } else { prg_ram_size }) as nat, |i: int| 0u8),
                mirroring,
            }),
    {
        let prg_ram_size = if prg_ram_size == 0 { RAM_SIZE } else { prg_ram_size };
        let cartridge_ram = vec![0u8; prg_ram_size];
        assert(cartridge_ram@ =~= Seq::new(prg_ram_size as nat, |i: int| 0u8));
        Self { prg_rom, chr_space: chr_rom, has_chr_ram, cartridge_ram, mirroring }
    }

    /// The NROM mapper of `mapper` with the saved cartridge RAM of `state`; `None` when
    /// `mapper` is another kind of mapper.
    pub fn from_state(state: NROMMapperState, mapper: MapperWrapper) -> (r: Option<NROMMapper>)
        ensures
            match mapper {
                MapperWrapper::NROMMapper(m) => r matches Some(n) && n@ == (NROMState { cartridge_ram: state.cartridge_ram@, ..m@ }),
                _ => r is None,
            },
    {
        if let MapperWrapper::NROMMapper(mut this) = mapper {
            this.cartridge_ram = state.cartridge_ram;
            Some(this)
        } else {
            None
        }
    }

    /// What the mapper saves: a copy of its cartridge RAM.
    pub fn get_state(&self) -> (r: NROMMapperState)
        ensures
            r.cartridge_ram@ == self@.cartridge_ram,
    {
        NROMMapperState { cartridge_ram: self.cartridge_ram.clone() }
    }

    /// Writes `value` to CHR RAM at `address`; ignored when the cartridge has CHR ROM.
    pub fn write_chr(&mut self, address: u16, value: u8)
        requires
            old(self)@.has_chr_ram ==> (address as int) < old(self)@.chr_space.len(),
        ensures
            final(self)@ == (NROMState {
                chr_space: if old(self)@.has_chr_ram { old(self)@.chr_space.update(address as int, value) } else { old(self)@.chr_space },
                ..old(self)@
            }),
    {
        if self.has_chr_ram {
            self.chr_space.set(address as usize, value);
        }
    }

    /// Writes `value` to cartridge RAM at `address`.
    pub fn write_ram(&mut self, address: u16, value: u8)
        requires
            (address as int) < old(self)@.cartridge_ram.len(),
        ensures
            final(self)@ == (NROMState { cartridge_ram: old(self)@.cartridge_ram.update(address as int, value), ..old(self)@ }),
    {
        self.cartridge_ram.set(address as usize, value);
    }
}

impl Mapper for NROMMapper {
    open spec fn prg_ok(&self, address: u16) -> bool {
        self@.prg_rom.len() > 0
    }

    /// PRG ROM repeats across the address space.
    open spec fn prg_at(&self, address: u16) -> u8 {
        self@.prg_rom[address as int % self@.prg_rom.len() as int]
    }

    open spec fn chr_ok(&self, address: u16) -> bool {
        (address as int) < self@.chr_space.len()
    }

    open spec fn chr_at(&self, address: u16) -> u8 {
        self@.chr_space[address as int]
    }

    open spec fn chr_bank_ok(&self, bank: u16, address: u16) -> bool {
        bank * 0x1000 + address < self@.chr_space.len()
    }

    open spec fn chr_bank_at(&self, bank: u16, address: u16) -> u8 {
        self@.chr_space[bank * 0x1000 + address]
    }

    open spec fn tile_ok(&self, address: u16) -> bool {
        address + 16 <= self@.chr_space.len()
    }

    open spec fn tile_at(&self, address: u16) -> Seq<u8> {
        self@.chr_space.subrange(address as int, address + 16)
    }

    open spec fn tile_bank_ok(&self, bank: u16, address: u16) -> bool {
        bank * 0x1000 + address + 16 <= self@.chr_space.len()
    }

    open spec fn tile_bank_at(&self, bank: u16, address: u16) -> Seq<u8> {
        self@.chr_space.subrange(bank * 0x1000 + address, bank * 0x1000 + address + 16)
    }

    open spec fn ram_ok(&self, address: u16) -> bool {
        (address as int) < self@.cartridge_ram.len()
    }

    open spec fn ram_at(&self, address: u16) -> u8 {
        self@.cartridge_ram[address as int]
    }

    open spec fn chr_ram_ok(&self, address: u16) -> bool {
        self@.has_chr_ram ==> (address as int) < self@.chr_space.len()
    }

    open spec fn register_ok(&self, address: u16) -> bool {
        true
    }

    open spec fn prg_len(&self) -> usize {
        self@.prg_rom.len() as usize
    }

    open spec fn chr_len(&self) -> usize {
        self@.chr_space.len() as usize
    }

    open spec fn mirroring(&self) -> Mirroring {
        self@.mirroring
    }

    fn prg_rom_len(&self) -> (r: usize) {
        self.prg_rom.len()
    }

    fn chr_rom_len(&self) -> (r: usize) {
        self.chr_space.len()
    }

    fn read_prg_rom(&self, address: u16) -> (r: u8) {
        self.prg_rom[address as usize % self.prg_rom.len()]
    }

    fn read_chr_rom(&self, address: u16) -> (r: u8) {
        self.chr_space[address as usize]
    }

    fn read_chr_rom_bank(&self, bank: u16, address: u16) -> (r: u8) {
        self.chr_space[bank as usize * 0x1000 + address as usize]
    }

    fn read_tile_chr_rom(&self, address: u16) -> (r: &[u8]) {
        let address = address as usize;
        vstd::slice::slice_subrange(self.chr_space.as_slice(), address, address + 16)
    }

    fn read_tile_chr_rom_bank(&self, bank: u16, address: u16) -> (r: &[u8]) {
        let address = bank as usize * 0x1000 + address as usize;
        vstd::slice::slice_subrange(self.chr_space.as_slice(), address, address + 16)
    }

    /// NROM has no registers: writes change nothing.
    fn register_write(&mut self, _address: u16, _value: u8)
        ensures
            final(self)@ == old(self)@,
    {
    }

    fn read_cartridge_ram(&self, address: u16) -> (r: u8) {
        self.cartridge_ram[address as usize]
    }

    fn write_cartridge_ram(&mut self, address: u16, value: u8)
        ensures
            final(self)@ == (NROMState { cartridge_ram: old(self)@.cartridge_ram.update(address as int, value), ..old(self)@ }),
    {
        self.write_ram(address, value);
    }

    fn write_chr_ram(&mut self, address: u16, value: u8)
        ensures
            final(self)@ == (NROMState {
                chr_space: if old(self)@.has_chr_ram { old(self)@.chr_space.update(address as int, value) } else { old(self)@.chr_space },
                ..old(self)@
            }),
    {
        self.write_chr(address, value);
    }

    /// NROM has no battery-backed RAM.
    fn get_battery_backed_ram(&self) -> (r: Option<&[u8]>)
        ensures
            r is None,
    {
        None
    }

    fn get_mirroring(&self) -> (r: Mirroring) {
        self.mirroring
    }
}

} // verus!
