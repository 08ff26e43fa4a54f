use vstd::prelude::*;
use crate::rom::Mirroring;
use crate::mappers::cnrom::{CNROMMapper, CNROMMapperState, CNROMState};
use crate::mappers::mmc1::{MMC1Mapper, MMC1State};
use crate::mappers::nrom::{NROMMapper, NROMMapperState, NROMState};

pub mod cnrom;
pub mod mmc1;
pub mod nrom;

verus! {

/// Sixteen zero bytes: the tile a read outside the pattern memory yields.
pub const EMPTY_TILE: [u8; 16] = [0, 0, 0, 0, 0, 0, 0, 0, 0, 0, 0, 0, 0, 0, 0, 0];

pub(crate) fn empty_tile() -> (r: &'static [u8])
    ensures
        r@ == Seq::new(16, |i: int| 0u8),
{
    let r: &'static [u8] = &EMPTY_TILE;
    assert(r@ =~= Seq::new(16, |i: int| 0u8));
    r
}

/// A cartridge's mapper: how the CPU and PPU address spaces reach its PRG and CHR memory.
/// Each reading method has a spec function saying on which arguments it can read (`*_ok`)
/// and one saying what it reads (`*_at`).
pub trait Mapper {
    spec fn prg_ok(&self, address: u16) -> bool;

    spec fn prg_at(&self, address: u16) -> u8;

    spec fn chr_ok(&self, address: u16) -> bool;

    spec fn chr_at(&self, address: u16) -> u8;

    spec fn chr_bank_ok(&self, bank: u16, address: u16) -> bool;

    spec fn chr_bank_at(&self, bank: u16, address: u16) -> u8;

    spec fn tile_ok(&self, address: u16) -> bool;

    spec fn tile_at(&self, address: u16) -> Seq<u8>;

    spec fn tile_bank_ok(&self, bank: u16, address: u16) -> bool;

    spec fn tile_bank_at(&self, bank: u16, address: u16) -> Seq<u8>;

    spec fn ram_ok(&self, address: u16) -> bool;

    spec fn ram_at(&self, address: u16) -> u8;

    spec fn chr_ram_ok(&self, address: u16) -> bool;

    spec fn register_ok(&self, address: u16) -> bool;

    spec fn prg_len(&self) -> usize;

    spec fn chr_len(&self) -> usize;

    spec fn mirroring(&self) -> Mirroring;

    fn prg_rom_len(&self) -> (r: usize)
        ensures
            r == self.prg_len(),
    ;

    fn chr_rom_len(&self) -> (r: usize)
        ensures
            r == self.chr_len(),
    ;

    fn read_prg_rom(&self, address: u16) -> (r: u8)
        requires
            self.prg_ok(address),
        ensures
            r == self.prg_at(address),
    ;

    fn read_chr_rom(&self, address: u16) -> (r: u8)
        requires
            self.chr_ok(address),
        ensures
            r == self.chr_at(address),
    ;

    fn read_chr_rom_bank(&self, bank: u16, address: u16) -> (r: u8)
        requires
            self.chr_bank_ok(bank, address),
        ensures
            r == self.chr_bank_at(bank, address),
    ;

    fn read_tile_chr_rom(&self, address: u16) -> (r: &[u8])
        requires
            self.tile_ok(address),
        ensures
            r@ == self.tile_at(address),
    ;

    fn read_tile_chr_rom_bank(&self, bank: u16, address: u16) -> (r: &[u8])
        requires
            self.tile_bank_ok(bank, address),
        ensures
            r@ == self.tile_bank_at(bank, address),
    ;

    fn register_write(&mut self, address: u16, value: u8)
        requires
            old(self).register_ok(address),
    ;

    fn read_cartridge_ram(&self, address: u16) -> (r: u8)
        requires
            self.ram_ok(address),
        ensures
            r == self.ram_at(address),
    ;

    fn write_cartridge_ram(&mut self, address: u16, value: u8)
        requires
            old(self).ram_ok(address),
    ;

    fn write_chr_ram(&mut self, address: u16, value: u8)
        requires
            old(self).chr_ram_ok(address),
    ;

    fn get_battery_backed_ram(&self) -> Option<&[u8]>;

    fn get_mirroring(&self) -> (r: Mirroring)
        ensures
            r == self.mirroring(),
    ;
}

/// The mapper of a cartridge, one of the implemented kinds.
#[derive(Debug)]
pub enum MapperWrapper {
    CNROMMapper(CNROMMapper),
    MMC1Mapper(MMC1Mapper),
    NROMMapper(NROMMapper),
}

/// What a mapper saves, by kind.
#[derive(Debug)]
pub enum MapperStateWrapper {
    CNROMMapperState(CNROMMapperState),
    NROMMapperState(NROMMapperState),
}

/// The mapper `mapper` with the saved state `mapper_state` restored; `None` when the state
/// belongs to another kind of mapper.
pub fn from_state(mapper_state: MapperStateWrapper, mapper: MapperWrapper) -> (r: Option<MapperWrapper>)
    ensures
        match (mapper_state, mapper) {
            (MapperStateWrapper::CNROMMapperState(st), MapperWrapper::CNROMMapper(m)) =>
                r matches Some(MapperWrapper::CNROMMapper(c)) && c@ == (CNROMState { current_bank_offset: st.current_bank_offset, ..m@ }),
            (MapperStateWrapper::NROMMapperState(st), MapperWrapper::NROMMapper(m)) =>
                r matches Some(MapperWrapper::NROMMapper(n)) && n@ == (NROMState { cartridge_ram: st.cartridge_ram@, ..m@ }),
            _ => r is None,
        },
{
    match mapper_state {
        MapperStateWrapper::CNROMMapperState(state) => match CNROMMapper::from_state(state, mapper) {
            Some(m) => Some(MapperWrapper::CNROMMapper(m)),
            None => None,
        },
        MapperStateWrapper::NROMMapperState(state) => match NROMMapper::from_state(state, mapper) {
            Some(m) => Some(MapperWrapper::NROMMapper(m)),
            None => None,
        },
    }
}

/// The mapper with iNES number `mapper_number` (0: NROM, 1: MMC1, 3: CNROM) over the
/// cartridge's PRG ROM and CHR memory.
pub fn create_mapper(
    mapper_number: u8,
    prg_rom: Vec<u8>,
    chr_space: Vec<u8>,
    prg_ram_size: usize,
    has_chr_ram: bool,
    mirroring: Mirroring,
    battery_backed_ram: Option<Vec<u8>>,
) -> (r: MapperWrapper)
    requires
        mapper_number == 0 || mapper_number == 1 || mapper_number == 3,
        mapper_number == 1 ==> prg_rom@.len() >= 0x8000,
    ensures
        mapper_number == 0 ==> (r matches MapperWrapper::NROMMapper(m) && m@ == (NROMState {
            prg_rom: prg_rom@,
            chr_space: chr_space@,
            has_chr_ram,
            cartridge_ram: Seq::new((if prg_ram_size == 0 { nrom::RAM_SIZE } else { prg_ram_size }) as nat, |i: int| 0u8),
            mirroring,
        })),
        mapper_number == 1 ==> (r matches MapperWrapper::MMC1Mapper(m) && m@.prg_rom == prg_rom@ && m@.chr_rom == chr_space@
            && m@.wf() && m@.prg_ram == (match battery_backed_ram {
                Some(v) => Some(v@),
                None => None,
            })),
        mapper_number == 3 ==> (r matches MapperWrapper::CNROMMapper(m) && m@ == (CNROMState {
            prg_rom: prg_rom@,
            chr_space: chr_space@,
            has_chr_ram,
            current_bank_offset: 0,
            mirroring,
        })),
{
    if mapper_number == 0 {
        MapperWrapper::NROMMapper(NROMMapper::new(prg_rom, chr_space, prg_ram_size, has_chr_ram, mirroring))
    } else if mapper_number == 1 {
        MapperWrapper::MMC1Mapper(MMC1Mapper::new(prg_rom, chr_space, battery_backed_ram))
    } else {
        MapperWrapper::CNROMMapper(CNROMMapper::new(prg_rom, chr_space, has_chr_ram, mirroring))
    }
}

impl Mapper for MapperWrapper {
    open spec fn prg_ok(&self, address: u16) -> bool {
        match self {
            MapperWrapper::CNROMMapper(m) => m.prg_ok(address),
            MapperWrapper::MMC1Mapper(m) => m.prg_ok(address),
            MapperWrapper::NROMMapper(m) => m.prg_ok(address),
        }
    }

    open spec fn prg_at(&self, address: u16) -> u8 {
        match self {
            MapperWrapper::CNROMMapper(m) => m.prg_at(address),
            MapperWrapper::MMC1Mapper(m) => m.prg_at(address),
            MapperWrapper::NROMMapper(m) => m.prg_at(address),
        }
    }

    open spec fn chr_ok(&self, address: u16) -> bool {
        match self {
            MapperWrapper::CNROMMapper(m) => m.chr_ok(address),
            MapperWrapper::MMC1Mapper(m) => m.chr_ok(address),
            MapperWrapper::NROMMapper(m) => m.chr_ok(address),
        }
    }

    open spec fn chr_at(&self, address: u16) -> u8 {
        match self {
            MapperWrapper::CNROMMapper(m) => m.chr_at(address),
            MapperWrapper::MMC1Mapper(m) => m.chr_at(address),
            MapperWrapper::NROMMapper(m) => m.chr_at(address),
        }
    }

    open spec fn chr_bank_ok(&self, bank: u16, address: u16) -> bool {
        match self {
            MapperWrapper::CNROMMapper(m) => m.chr_bank_ok(bank, address),
            MapperWrapper::MMC1Mapper(m) => m.chr_bank_ok(bank, address),
            MapperWrapper::NROMMapper(m) => m.chr_bank_ok(bank, address),
        }
    }

    open spec fn chr_bank_at(&self, bank: u16, address: u16) -> u8 {
        match self {
            MapperWrapper::CNROMMapper(m) => m.chr_bank_at(bank, address),
            MapperWrapper::MMC1Mapper(m) => m.chr_bank_at(bank, address),
            MapperWrapper::NROMMapper(m) => m.chr_bank_at(bank, address),
        }
    }

    open spec fn tile_ok(&self, address: u16) -> bool {
        match self {
            MapperWrapper::CNROMMapper(m) => m.tile_ok(address),
            MapperWrapper::MMC1Mapper(m) => m.tile_ok(address),
            MapperWrapper::NROMMapper(m) => m.tile_ok(address),
        }
    }

    open spec fn tile_at(&self, address: u16) -> Seq<u8> {
        match self {
            MapperWrapper::CNROMMapper(m) => m.tile_at(address),
            MapperWrapper::MMC1Mapper(m) => m.tile_at(address),
            MapperWrapper::NROMMapper(m) => m.tile_at(address),
        }
    }

    open spec fn tile_bank_ok(&self, bank: u16, address: u16) -> bool {
        match self {
            MapperWrapper::CNROMMapper(m) => m.tile_bank_ok(bank, address),
            MapperWrapper::MMC1Mapper(m) => m.tile_bank_ok(bank, address),
            MapperWrapper::NROMMapper(m) => m.tile_bank_ok(bank, address),
        }
    }

    open spec fn tile_bank_at(&self, bank: u16, address: u16) -> Seq<u8> {
        match self {
            MapperWrapper::CNROMMapper(m) => m.tile_bank_at(bank, address),
            MapperWrapper::MMC1Mapper(m) => m.tile_bank_at(bank, address),
            MapperWrapper::NROMMapper(m) => m.tile_bank_at(bank, address),
        }
    }

    open spec fn ram_ok(&self, address: u16) -> bool {
        match self {
            MapperWrapper::CNROMMapper(m) => m.ram_ok(address),
            MapperWrapper::MMC1Mapper(m) => m.ram_ok(address),
            MapperWrapper::NROMMapper(m) => m.ram_ok(address),
        }
    }

    open spec fn ram_at(&self, address: u16) -> u8 {
        match self {
            MapperWrapper::CNROMMapper(m) => m.ram_at(address),
            MapperWrapper::MMC1Mapper(m) => m.ram_at(address),
            MapperWrapper::NROMMapper(m) => m.ram_at(address),
        }
    }

    open spec fn chr_ram_ok(&self, address: u16) -> bool {
        match self {
            MapperWrapper::CNROMMapper(m) => m.chr_ram_ok(address),
            MapperWrapper::MMC1Mapper(m) => m.chr_ram_ok(address),
            MapperWrapper::NROMMapper(m) => m.chr_ram_ok(address),
        }
    }

    open spec fn register_ok(&self, address: u16) -> bool {
        match self {
            MapperWrapper::CNROMMapper(m) => m.register_ok(address),
            MapperWrapper::MMC1Mapper(m) => m.register_ok(address),
            MapperWrapper::NROMMapper(m) => m.register_ok(address),
        }
    }

    open spec fn prg_len(&self) -> usize {
        match self {
            MapperWrapper::CNROMMapper(m) => m.prg_len(),
            MapperWrapper::MMC1Mapper(m) => m.prg_len(),
            MapperWrapper::NROMMapper(m) => m.prg_len(),
        }
    }

    open spec fn chr_len(&self) -> usize {
        match self {
            MapperWrapper::CNROMMapper(m) => m.chr_len(),
            MapperWrapper::MMC1Mapper(m) => m.chr_len(),
            MapperWrapper::NROMMapper(m) => m.chr_len(),
        }
    }

    open spec fn mirroring(&self) -> Mirroring {
        match self {
            MapperWrapper::CNROMMapper(m) => m.mirroring(),
            MapperWrapper::MMC1Mapper(m) => m.mirroring(),
            MapperWrapper::NROMMapper(m) => m.mirroring(),
        }
    }

    fn prg_rom_len(&self) -> (r: usize) {
        match self {
            MapperWrapper::CNROMMapper(m) => m.prg_rom_len(),
            MapperWrapper::MMC1Mapper(m) => m.prg_rom_len(),
            MapperWrapper::NROMMapper(m) => m.prg_rom_len(),
        }
    }

    fn chr_rom_len(&self) -> (r: usize) {
        match self {
            MapperWrapper::CNROMMapper(m) => m.chr_rom_len(),
            MapperWrapper::MMC1Mapper(m) => m.chr_rom_len(),
            MapperWrapper::NROMMapper(m) => m.chr_rom_len(),
        }
    }

    fn read_prg_rom(&self, address: u16) -> (r: u8) {
        match self {
            MapperWrapper::CNROMMapper(m) => m.read_prg_rom(address),
            MapperWrapper::MMC1Mapper(m) => m.read_prg_rom(address),
            MapperWrapper::NROMMapper(m) => m.read_prg_rom(address),
        }
    }

    fn read_chr_rom(&self, address: u16) -> (r: u8) {
        match self {
            MapperWrapper::CNROMMapper(m) => m.read_chr_rom(address),
            MapperWrapper::MMC1Mapper(m) => m.read_chr_rom(address),
            MapperWrapper::NROMMapper(m) => m.read_chr_rom(address),
        }
    }

    fn read_chr_rom_bank(&self, bank: u16, address: u16) -> (r: u8) {
        match self {
            MapperWrapper::CNROMMapper(m) => m.read_chr_rom_bank(bank, address),
            MapperWrapper::MMC1Mapper(m) => m.read_chr_rom_bank(bank, address),
            MapperWrapper::NROMMapper(m) => m.read_chr_rom_bank(bank, address),
        }
    }

    fn read_tile_chr_rom(&self, address: u16) -> (r: &[u8]) {
        match self {
            MapperWrapper::CNROMMapper(m) => m.read_tile_chr_rom(address),
            MapperWrapper::MMC1Mapper(m) => m.read_tile_chr_rom(address),
            MapperWrapper::NROMMapper(m) => m.read_tile_chr_rom(address),
        }
    }

    fn read_tile_chr_rom_bank(&self, bank: u16, address: u16) -> (r: &[u8]) {
        match self {
            MapperWrapper::CNROMMapper(m) => m.read_tile_chr_rom_bank(bank, address),
            MapperWrapper::MMC1Mapper(m) => m.read_tile_chr_rom_bank(bank, address),
            MapperWrapper::NROMMapper(m) => m.read_tile_chr_rom_bank(bank, address),
        }
    }

    fn register_write(&mut self, address: u16, value: u8)
        ensures
            match (*old(self), *final(self)) {
                (MapperWrapper::CNROMMapper(a), MapperWrapper::CNROMMapper(b)) =>
                    b@ == (CNROMState { current_bank_offset: ((value & 3) * 0x2000) as usize, ..a@ }),
                (MapperWrapper::MMC1Mapper(a), MapperWrapper::MMC1Mapper(b)) => b@ == a@.register_write(address, value),
                (MapperWrapper::NROMMapper(a), MapperWrapper::NROMMapper(b)) => b@ == a@,
                _ => false,
            },
    {
        match self {
            MapperWrapper::CNROMMapper(m) => m.register_write(address, value),
            MapperWrapper::MMC1Mapper(m) => m.register_write(address, value),
            MapperWrapper::NROMMapper(m) => m.register_write(address, value),
        }
    }

    fn read_cartridge_ram(&self, address: u16) -> (r: u8) {
        match self {
            MapperWrapper::CNROMMapper(m) => m.read_cartridge_ram(address),
            MapperWrapper::MMC1Mapper(m) => m.read_cartridge_ram(address),
            MapperWrapper::NROMMapper(m) => m.read_cartridge_ram(address),
        }
    }

    fn write_cartridge_ram(&mut self, address: u16, value: u8)
        ensures
            match (*old(self), *final(self)) {
                (MapperWrapper::CNROMMapper(a), MapperWrapper::CNROMMapper(b)) => b@ == a@,
                (MapperWrapper::MMC1Mapper(a), MapperWrapper::MMC1Mapper(b)) => b@ == (MMC1State {
                    prg_ram: match a@.prg_ram {
                        Some(r) => if a@.prg_bank_register & 0x10 != 0 { Some(r) } else { Some(r.update(address as int, value)) },
                        None => None,
                    },
                    ..a@
                }),
                (MapperWrapper::NROMMapper(a), MapperWrapper::NROMMapper(b)) =>
                    b@ == (NROMState { cartridge_ram: a@.cartridge_ram.update(address as int, value), ..a@ }),
                _ => false,
            },
    {
        match self {
            MapperWrapper::CNROMMapper(m) => m.write_cartridge_ram(address, value),
            MapperWrapper::MMC1Mapper(m) => m.write_cartridge_ram(address, value),
            MapperWrapper::NROMMapper(m) => m.write_cartridge_ram(address, value),
        }
    }

    fn write_chr_ram(&mut self, address: u16, value: u8)
        ensures
            match (*old(self), *final(self)) {
                (MapperWrapper::CNROMMapper(a), MapperWrapper::CNROMMapper(b)) => b@ == (CNROMState {
                    chr_space: if a@.has_chr_ram { a@.chr_space.update(address as int, value) } else { a@.chr_space },
                    ..a@
                }),
                (MapperWrapper::MMC1Mapper(a), MapperWrapper::MMC1Mapper(b)) =>
                    b@ == (MMC1State { chr_rom: a@.chr_rom.update(a@.chr_index(address), value), ..a@ }),
                (MapperWrapper::NROMMapper(a), MapperWrapper::NROMMapper(b)) => b@ == (NROMState {
                    chr_space: if a@.has_chr_ram { a@.chr_space.update(address as int, value) } else { a@.chr_space },
                    ..a@
                }),
                _ => false,
            },
    {
        match self {
            MapperWrapper::CNROMMapper(m) => m.write_chr_ram(address, value),
            MapperWrapper::MMC1Mapper(m) => m.write_chr_ram(address, value),
            MapperWrapper::NROMMapper(m) => m.write_chr_ram(address, value),
        }
    }

    fn get_battery_backed_ram(&self) -> (r: Option<&[u8]>)
        ensures
            match self {
                MapperWrapper::MMC1Mapper(m) => match m@.prg_ram {
                    Some(v) => r matches Some(s) && s@ == v,
                    None => r is None,
                },
                _ => r is None,
            },
    {
        match self {
            MapperWrapper::CNROMMapper(m) => m.get_battery_backed_ram(),
            MapperWrapper::MMC1Mapper(m) => m.get_battery_backed_ram(),
            MapperWrapper::NROMMapper(m) => m.get_battery_backed_ram(),
        }
    }

    fn get_mirroring(&self) -> (r: Mirroring) {
        match self {
            MapperWrapper::CNROMMapper(m) => m.get_mirroring(),
            MapperWrapper::MMC1Mapper(m) => m.get_mirroring(),
            MapperWrapper::NROMMapper(m) => m.get_mirroring(),
        }
    }
}

} // verus!
