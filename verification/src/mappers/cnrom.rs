use vstd::prelude::*;
use crate::mappers::{Mapper, MapperWrapper};
use crate::rom::Mirroring;

verus! {

/// Mapper 3: fixed PRG ROM and 8 KiB CHR banks chosen by register writes.
#[derive(Debug)]
pub struct CNROMMapper {
    prg_rom: Vec<u8>,
    chr_space: Vec<u8>,
    has_chr_ram: bool,
    current_bank_offset: usize,
    mirroring: Mirroring,
}

/// What a CNROM mapper saves: the selected CHR bank.
#[derive(Debug)]
pub struct CNROMMapperState {
    pub current_bank_offset: usize,
}

/// The memories and settings of a CNROM cartridge.
pub struct CNROMState {
    pub prg_rom: Seq<u8>,
    pub chr_space: Seq<u8>,
    pub has_chr_ram: bool,
    pub current_bank_offset: usize,
    pub mirroring: Mirroring,
}

/// Restoring what `get_state` saved gives back the mapper it was saved from: the state
/// `from_state` builds from the saved bank is the saved mapper's state.
pub proof fn law_state_round_trip(m: CNROMState, saved: CNROMMapperState)
    requires
        saved.current_bank_offset == m.current_bank_offset,
    ensures
        (CNROMState { current_bank_offset: saved.current_bank_offset, ..m }) == m,
{
}

impl View for CNROMMapper {
    type V = CNROMState;

    closed spec fn view(&self) -> CNROMState {
        CNROMState {
            prg_rom: self.prg_rom@,
            chr_space: self.chr_space@,
            has_chr_ram: self.has_chr_ram,
            current_bank_offset: self.current_bank_offset,
            mirroring: self.mirroring,
        }
    }
}

impl CNROMMapper {
    /// A mapper over the given memories with CHR bank 0 selected.
    pub fn new(prg_rom: Vec<u8>, chr_rom: Vec<u8>, has_chr_ram: bool, mirroring: Mirroring) -> (r: Self)
        ensures
            r@ == (CNROMState { prg_rom: prg_rom@, chr_space: chr_rom@, has_chr_ram, current_bank_offset: 0, mirroring }),
    {
        Self { prg_rom, chr_space: chr_rom, has_chr_ram, current_bank_offset: 0, mirroring }
    }

    /// The CNROM mapper of `mapper` with the saved bank of `state`; `None` when `mapper` is
    /// another kind of mapper.
    pub fn from_state(state: CNROMMapperState, mapper: MapperWrapper) -> (r: Option<CNROMMapper>)
        ensures
            match mapper {
                MapperWrapper::CNROMMapper(m) => r matches Some(c) && c@ == (CNROMState { current_bank_offset: state.current_bank_offset, ..m@ }),
                _ => r is None,
            },
    {
        if let MapperWrapper::CNROMMapper(mut this) = mapper {
            this.current_bank_offset = state.current_bank_offset;
            Some(this)
        } else {
            None
        }
    }

    /// The CHR memory from the start of the selected bank on.
    pub fn get_current_chr_rom(&self) -> (r: &[u8])
        requires
            self@.current_bank_offset <= self@.chr_space.len(),
        ensures
            r@ == self@.chr_space.subrange(self@.current_bank_offset as int, self@.chr_space.len() as int),
    {
        vstd::slice::slice_subrange(self.chr_space.as_slice(), self.current_bank_offset, self.chr_space.len())
    }

    /// What the mapper saves: the selected bank.
    pub fn get_state(&self) -> (r: CNROMMapperState)
        ensures
            r.current_bank_offset == self@.current_bank_offset,
    {
        CNROMMapperState { current_bank_offset: self.current_bank_offset }
    }
}

impl Mapper for CNROMMapper {
    open spec fn prg_ok(&self, address: u16) -> bool {
        (address as int) < self@.prg_rom.len()
    }

    open spec fn prg_at(&self, address: u16) -> u8 {
        self@.prg_rom[address as int]
    }

    open spec fn chr_ok(&self, address: u16) -> bool {
        self@.current_bank_offset + address < self@.chr_space.len()
    }

    /// CHR reads go to the selected bank.
    open spec fn chr_at(&self, address: u16) -> u8 {
        self@.chr_space[self@.current_bank_offset + address]
    }

    open spec fn chr_bank_ok(&self, bank: u16, address: u16) -> bool {
        bank * 0x1000 + address < self@.chr_space.len()
    }

    open spec fn chr_bank_at(&self, bank: u16, address: u16) -> u8 {
        self@.chr_space[bank * 0x1000 + address]
    }

    open spec fn tile_ok(&self, address: u16) -> bool {
        self@.current_bank_offset + address + 16 <= self@.chr_space.len()
    }

    open spec fn tile_at(&self, address: u16) -> Seq<u8> {
        self@.chr_space.subrange(self@.current_bank_offset + address, self@.current_bank_offset + address + 16)
    }

    open spec fn tile_bank_ok(&self, bank: u16, address: u16) -> bool {
        bank * 0x1000 + address + 16 <= self@.chr_space.len()
    }

    open spec fn tile_bank_at(&self, bank: u16, address: u16) -> Seq<u8> {
        self@.chr_space.subrange(bank * 0x1000 + address, bank * 0x1000 + address + 16)
    }

    open spec fn ram_ok(&self, address: u16) -> bool {
        true
    }

    /// CNROM has no cartridge RAM: reads give 0.
    open spec fn ram_at(&self, address: u16) -> u8 {
        0
    }

    open spec fn chr_ram_ok(&self, address: u16) -> bool {
        self@.has_chr_ram ==> (address as int) < self@.chr_space.len()
    }

    open spec fn register_ok(&self, address: u16) -> bool {
        true
    }

    open spec fn prg_len(&self) -> usize {
        self@.prg_rom.len() as usize
    }

    open spec fn chr_len(&self) -> usize {
        self@.chr_space.len() as usize
    }

    open spec fn mirroring(&self) -> Mirroring {
        self@.mirroring
    }

    fn prg_rom_len(&self) -> (r: usize) {
        self.prg_rom.len()
    }

    fn chr_rom_len(&self) -> (r: usize) {
        self.chr_space.len()
    }

    fn read_prg_rom(&self, address: u16) -> (r: u8) {
        self.prg_rom[address as usize]
    }

    fn read_chr_rom(&self, address: u16) -> (r: u8) {
        let _len = self.chr_space.len();
        self.chr_space[self.current_bank_offset + address as usize]
    }

    fn read_chr_rom_bank(&self, bank: u16, address: u16) -> (r: u8) {
        self.chr_space[bank as usize * 0x1000 + address as usize]
    }

    fn read_tile_chr_rom(&self, address: u16) -> (r: &[u8]) {
        let _len = self.chr_space.len();
        let address = self.current_bank_offset + address as usize;
        vstd::slice::slice_subrange(self.chr_space.as_slice(), address, address + 16)
    }

    fn read_tile_chr_rom_bank(&self, bank: u16, address: u16) -> (r: &[u8]) {
        let address = bank as usize * 0x1000 + address as usize;
        vstd::slice::slice_subrange(self.chr_space.as_slice(), address, address + 16)
    }

    /// Selects CHR bank `value & 3`.
    fn register_write(&mut self, _address: u16, value: u8)
        ensures
            final(self)@ == (CNROMState { current_bank_offset: ((value & 3) * 0x2000) as usize, ..old(self)@ }),
    {
        self.current_bank_offset = (value & 0x3) as usize * 0x2000;
    }

    fn read_cartridge_ram(&self, _address: u16) -> (r: u8) {
        0
    }

    /// CNROM has no cartridge RAM: writes change nothing.
    fn write_cartridge_ram(&mut self, _address: u16, _value: u8)
        ensures
            final(self)@ == old(self)@,
    {
    }

    fn write_chr_ram(&mut self, address: u16, value: u8)
        ensures
            final(self)@ == (CNROMState {
                chr_space: if old(self)@.has_chr_ram { old(self)@.chr_space.update(address as int, value) } else { old(self)@.chr_space },
                ..old(self)@
            }),
    {
        if self.has_chr_ram {
            self.chr_space.set(address as usize, value);
        }
    }

    /// CNROM has no battery-backed RAM.
    fn get_battery_backed_ram(&self) -> (r: Option<&[u8]>)
        ensures
            r is None,
    {
        None
    }

    fn get_mirroring(&self) -> (r: Mirroring) {
        self.mirroring
    }
}

} // verus!
