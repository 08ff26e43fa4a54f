use vstd::prelude::*;
use crate::bus::PollNMI;
use crate::ppu::addr::{AddressRegister, coarse_y};
use crate::ppu::control::ControlRegister;
use crate::ppu::mask::MaskRegister;
use crate::ppu::palette::SystemPalette;
use crate::ppu::scroll::ScrollRegister;
use crate::ppu::sprite::Sprite;
use crate::ppu::status::StatusRegister;
use crate::ppu::t_register::TRegister;
use crate::rom::Mirroring;
use crate::mappers::{Mapper, MapperWrapper};
use crate::ppu::sprite_line::{
    sprite_in_range, sprites_computed, SpriteLine, draw_sprites, draw_sprite_row, selected_sprites, selected_buffer, oam_sprite, sprites_drawable,
    sprite_tile_addr, current_colors, lemma_selected_bounded, lemma_selected_full, lemma_tile_len,
};
use crate::rendering::get_sprite_palette;
use crate::rendering::frame::SCREEN_WIDTH;
use crate::rendering::scanline::{Scanline, SpriteColor};

pub mod addr;
pub mod control;
pub mod mask;
pub mod palette;
pub mod scroll;
pub mod sprite;
pub mod sprite_line;
pub mod status;
pub mod t_register;

verus! {

broadcast use vstd::array::group_array_axioms;

/// The picture processing unit: its memories and registers.
pub struct PPU {
    pub palette_table: [u8; 32],
    pub system_palette: SystemPalette,
    pub vram: [u8; 2048],
    pub oam_addr: u8,
    pub oam_data: [u8; 256],
    pub control_register: ControlRegister,
    pub mask_register: MaskRegister,
    pub status_register: StatusRegister,
    pub scroll_register: ScrollRegister,
    pub address_register: AddressRegister,
    pub temporary_address_register: TRegister,
    pub mirroring: Mirroring,
    pub internal_data_buffer: u8,
    pub write_toggle: bool,
    pub sprite_buffer: [Sprite; 8],
    /// first and one-past-last cycle of the current scanline covered by sprite zero
    pub sprite_zero_start: usize,
    pub sprite_zero_end: usize,
    pub scan_line: u16,
    pub cycles: usize,
    pub outstanding_interrupt: bool,
}

/// The index into the name table RAM that a name table address maps to. Addresses
/// 0x3000..0x3EFF mirror 0x2000..0x2EFF. Horizontal mirroring shows the first kilobyte in
/// slots 0 and 1 and the second in slots 2 and 3; vertical mirroring shows the first in slots 0
/// and 2 and the second in slots 1 and 3.
pub open spec fn spec_mirror_vram_addr(mirroring: Mirroring, addr: u16) -> u16 {
    let vram_index = (((addr & 0x2FFFu16) as int - 0x2000 + 0x10000) % 0x10000) as u16;
    let name_table = vram_index as int / 0x400;
    if mirroring == Mirroring::VERTICAL && (name_table == 2 || name_table == 3) {
        (vram_index - 0x800) as u16
    } else if mirroring == Mirroring::HORIZONTAL && (name_table == 1 || name_table == 2) {
        (vram_index - 0x400) as u16
    } else if mirroring == Mirroring::HORIZONTAL && name_table == 3 {
        (vram_index - 0x800) as u16
    } else {
        vram_index
    }
}

/// The index into the palette table of a palette address; 0x3F10, 0x3F14, 0x3F18 and 0x3F1C
/// mirror 0x3F00, 0x3F04, 0x3F08 and 0x3F0C.
pub open spec fn palette_index(addr: u16) -> int {
    if addr == 0x3F10 || addr == 0x3F14 || addr == 0x3F18 || addr == 0x3F1C {
        addr - 0x3F10
    } else {
        (addr - 0x3F00) % 32
    }
}

/// The name table RAM index that `addr` (in 0x2000..0x3EFF) maps to.
pub open spec fn name_table_index(mirroring: Mirroring, addr: u16) -> int {
    if addr <= 0x2FFF {
        spec_mirror_vram_addr(mirroring, addr) as int
    } else {
        spec_mirror_vram_addr(mirroring, (addr - 0x1000) as u16) as int
    }
}

/// Whether the PPU maps name tables by one of the two mirrorings it implements.
pub open spec fn supported_mirroring(m: Mirroring) -> bool {
    m == Mirroring::VERTICAL || m == Mirroring::HORIZONTAL
}

/// The increment PPUCTRL selects for PPUDATA accesses.
pub open spec fn vram_increment(c: ControlRegister) -> int {
    if c.bits & ControlRegister::VRAM_ADD_INCREMENT != 0 { 32 } else { 1 }
}

/// Each PPUDATA access moves the address on by one (across a row of the name table) while bit 2
/// of PPUCTRL is clear, and by 32 (down a column) while it is set.
pub proof fn law_data_increment(c: ControlRegister)
    ensures
        vram_increment(c) == (if (c.bits / 4) % 2 == 1 { 32int } else { 1int }),
{
    crate::bits::lemma_u8_arith_bits(c.bits);
}

/// Reading entry `idx` of `table` with the greyscale bit `grayscale`.
pub open spec fn spec_palette_entry(table: [u8; 32], grayscale: bool, idx: int) -> u8 {
    if grayscale { table@[idx] & 0x30 } else { table@[idx] }
}

proof fn lemma_mirror_in_range(mirroring: Mirroring, addr: u16)
    requires
        supported_mirroring(mirroring),
        0x2000 <= addr <= 0x2FFF,
    ensures
        spec_mirror_vram_addr(mirroring, addr) < 0x800,
{
    assert(0x2000u16 <= addr <= 0x2FFFu16 ==> (addr & 0x2FFFu16) == addr) by {
        crate::bits::lemma_ppu_addr_bits(addr);
    }
}

/// Horizontal mirroring shows one kilobyte of name table RAM in slots 0 and 1 and the other in
/// slots 2 and 3; vertical mirroring shows one in slots 0 and 2 and the other in slots 1 and 3.
/// Every name table address lands inside the two kilobytes.
pub proof fn law_name_table_mirroring(addr: u16)
    requires
        0x2000 <= addr < 0x2400,
    ensures
        spec_mirror_vram_addr(Mirroring::HORIZONTAL, addr) == spec_mirror_vram_addr(Mirroring::HORIZONTAL, (addr + 0x400) as u16),
        spec_mirror_vram_addr(Mirroring::HORIZONTAL, (addr + 0x800) as u16) == spec_mirror_vram_addr(Mirroring::HORIZONTAL, (addr + 0xC00) as u16),
        spec_mirror_vram_addr(Mirroring::HORIZONTAL, addr) != spec_mirror_vram_addr(Mirroring::HORIZONTAL, (addr + 0x800) as u16),
        spec_mirror_vram_addr(Mirroring::VERTICAL, addr) == spec_mirror_vram_addr(Mirroring::VERTICAL, (addr + 0x800) as u16),
        spec_mirror_vram_addr(Mirroring::VERTICAL, (addr + 0x400) as u16) == spec_mirror_vram_addr(Mirroring::VERTICAL, (addr + 0xC00) as u16),
        spec_mirror_vram_addr(Mirroring::VERTICAL, addr) != spec_mirror_vram_addr(Mirroring::VERTICAL, (addr + 0x400) as u16),
        spec_mirror_vram_addr(Mirroring::HORIZONTAL, addr) < 0x800,
        spec_mirror_vram_addr(Mirroring::HORIZONTAL, (addr + 0x800) as u16) < 0x800,
        spec_mirror_vram_addr(Mirroring::VERTICAL, addr) < 0x800,
        spec_mirror_vram_addr(Mirroring::VERTICAL, (addr + 0x400) as u16) < 0x800,
{
    crate::bits::lemma_ppu_addr_bits(addr);
    crate::bits::lemma_ppu_addr_bits((addr + 0x400) as u16);
    crate::bits::lemma_ppu_addr_bits((addr + 0x800) as u16);
    crate::bits::lemma_ppu_addr_bits((addr + 0xC00) as u16);
}

/// A name table byte written through PPUDATA is what a later PPUDATA read of any address that
/// shows the same byte (the address itself, its mirror 0x1000 higher, or the slot the mirroring
/// maps onto it) fetches into the read buffer, and so returns on the read after.
pub proof fn law_vram_write_then_read(before: PPU, after: PPU, chr: Seq<u8>, addr: u16, read_addr: u16, value: u8)
    requires
        supported_mirroring(before.mirroring),
        0x2000 <= addr <= 0x3EFF,
        0x2000 <= read_addr < 0x3F00,
        name_table_index(before.mirroring, read_addr) == name_table_index(before.mirroring, addr),
        after.mirroring == before.mirroring,
        after.vram@ == before.vram@.update(name_table_index(before.mirroring, addr), value),
    ensures
        spec_read_data_buffer(after, chr, read_addr) == value,
{
    if addr <= 0x2FFF {
        lemma_mirror_in_range(before.mirroring, addr);
    } else {
        lemma_mirror_in_range(before.mirroring, (addr - 0x1000) as u16);
    }
}

/// A palette entry written through PPUDATA is what a PPUDATA read of the same address returns
/// at once, when greyscale is off.
pub proof fn law_palette_write_then_read(before: PPU, after: PPU, chr: Seq<u8>, addr: u16, value: u8)
    requires
        0x3F00 <= addr < 0x3F20,
        after.palette_table@ == before.palette_table@.update(palette_index(addr), value),
        after.mask_register.bits & MaskRegister::GREYSCALE == 0,
    ensures
        spec_read_data_result(after, chr, addr) == value,
{
}

impl PollNMI for PPU {
    /// Reports a pending NMI once: returns whether one was outstanding and clears it.
    fn poll_nmi_status(&mut self) -> (r: bool)
        ensures
            r == old(self).outstanding_interrupt,
            *final(self) == (PPU { outstanding_interrupt: false, ..*old(self) }),
    {
        if self.outstanding_interrupt {
            self.outstanding_interrupt = false;
            true
        } else {
            false
        }
    }
}

impl PPU {
    pub fn new(mirroring: Mirroring, system_palette: SystemPalette) -> (r: Self)
        ensures
            r.palette_table@ == Seq::new(32, |i: int| 0u8),
            r.vram@ == Seq::new(2048, |i: int| 0u8),
            r.oam_data@ == Seq::new(256, |i: int| 0u8),
            r.oam_addr == 0,
            r.system_palette == system_palette,
            r.mirroring == mirroring,
            r.control_register.bits == 0,
            r.mask_register.bits == 0,
            r.status_register.bits == 0,
            r.scroll_register.scroll_x == 0 && r.scroll_register.scroll_y == 0,
            r.address_register.data == 0 && r.address_register.data_alt == 0,
            r.temporary_address_register.data == 0,
            r.internal_data_buffer == 0,
            !r.write_toggle,
            r.sprite_zero_start == 0 && r.sprite_zero_end == 0,
            r.scan_line == 0,
            r.cycles == 0,
            !r.outstanding_interrupt,
    {
        let p = PPU {
            palette_table: [0u8; 32],
            system_palette,
            vram: [0u8; 2048],
            oam_addr: 0,
            oam_data: [0u8; 256],
            control_register: ControlRegister::new(),
            mask_register: MaskRegister::new(),
            status_register: StatusRegister::new(),
            scroll_register: ScrollRegister::new(),
            mirroring,
            address_register: AddressRegister::new(),
            temporary_address_register: TRegister::new(),
            internal_data_buffer: 0,
            write_toggle: false,
            sprite_buffer: [Sprite::default(); 8],
            sprite_zero_start: 0,
            sprite_zero_end: 0,
            scan_line: 0,
            cycles: 0,
            outstanding_interrupt: false,
        };
        assert(p.palette_table@ =~= Seq::new(32, |i: int| 0u8));
        assert(p.vram@ =~= Seq::new(2048, |i: int| 0u8));
        assert(p.oam_data@ =~= Seq::new(256, |i: int| 0u8));
        p
    }

    fn increment_vram_addr(&mut self)
        ensures
            final(self).address_register.data == (old(self).address_register.data as int
                + vram_increment(old(self).control_register)) % 0x4000,
            *final(self) == (PPU { address_register: final(self).address_register, ..*old(self) }),
            final(self).address_register.data_alt == old(self).address_register.data_alt,
    {
        self.address_register.increment(self.control_register.get_vram_increment());
    }

    // Horizontal:
    //   [ A ] [ a ]
    //   [ B ] [ b ]
    // Vertical:
    //   [ A ] [ B ]
    //   [ a ] [ b ]
    /// The name table RAM index that `addr` maps to.
    pub fn mirror_vram_addr(&self, addr: u16) -> (r: u16)
        ensures
            r == spec_mirror_vram_addr(self.mirroring, addr),
            supported_mirroring(self.mirroring) && 0x2000 <= addr <= 0x2FFF ==> r < 0x800,
    {
        proof {
            if supported_mirroring(self.mirroring) && 0x2000 <= addr <= 0x2FFF {
                lemma_mirror_in_range(self.mirroring, addr);
            }
        }
        let mirrored_vram = addr & 0b10_1111_1111_1111u16;  // mirror down 0x3000-0x3eff to 0x2000 - 0x2eff
        let vram_index = mirrored_vram.wrapping_sub(0x2000);  // to vram vector
        let name_table = vram_index / 0x400;  // to name table index
        match (self.mirroring, name_table) {
            (Mirroring::VERTICAL, 2) | (Mirroring::VERTICAL, 3) => vram_index - 0x800,
            (Mirroring::HORIZONTAL, 1) | (Mirroring::HORIZONTAL, 2) => vram_index - 0x400,
            (Mirroring::HORIZONTAL, 3) => vram_index - 0x800,
            _ => vram_index,
        }
    }

    /// Entry `idx` of the palette table; in greyscale mode only the brightness bits remain.
    pub fn read_palette_table(&self, idx: usize) -> (r: u8)
        requires
            idx < 32,
        ensures
            r == spec_palette_entry(self.palette_table, self.mask_register.bits & MaskRegister::GREYSCALE != 0, idx as int),
    {
        let mut palette = self.palette_table[idx];
        if self.mask_register.is_grayscale() {
            palette = palette & 0x30;
        }
        palette
    }
}


/// The PPU memory address PPUDATA accesses next.
pub open spec fn data_addr(p: PPU) -> u16 {
    p.address_register.data_alt
}

impl PPU {
    /// A write through PPUDATA at the current address: pattern memory (only when the cartridge
    /// has CHR RAM, `chr_ram`), name tables, or the palette table. The address then moves on by
    /// the increment PPUCTRL selects.
    pub fn write_to_data(&mut self, data: u8, chr_ram: Option<&mut [u8]>)
        requires
            0x2000 <= data_addr(*old(self)) <= 0x3EFF ==> name_table_index(old(self).mirroring, data_addr(*old(self))) < 0x800,
            data_addr(*old(self)) < 0x2000 ==> (chr_ram matches Some(c) ==> data_addr(*old(self)) < c@.len()),
        ensures
            ({
                let addr = data_addr(*old(self));
                &&& final(self).address_register.data_alt == (addr as int + vram_increment(old(self).control_register)) % 0x4000
                &&& final(self).address_register.data == old(self).address_register.data
                &&& final(self).vram@ == (if 0x2000 <= addr <= 0x3EFF {
                    old(self).vram@.update(name_table_index(old(self).mirroring, addr), data)
                } else {
                    old(self).vram@
                })
                &&& final(self).palette_table@ == (if 0x3F00 <= addr <= 0x3FFF {
                    old(self).palette_table@.update(palette_index(addr), data)
                } else {
                    old(self).palette_table@
                })
                &&& *final(self) == (PPU {
                    vram: final(self).vram,
                    palette_table: final(self).palette_table,
                    address_register: final(self).address_register,
                    ..*old(self)
                })
            }),
            chr_ram matches Some(c) ==> final(c)@ == (if data_addr(*old(self)) < 0x2000 {
                c@.update(data_addr(*old(self)) as int, data)
            } else {
                c@
            }),
    {
        let addr = self.address_register.data_alt;
        if addr <= 0x1FFF {
            match chr_ram {
                Some(chr) => {
                    chr[addr as usize] = data;
                },
                None => {},
            }
        } else if addr <= 0x2FFF {
            let i = self.mirror_vram_addr(addr);
            self.vram[i as usize] = data;
        } else if addr <= 0x3EFF {
            let i = self.mirror_vram_addr(addr - 0x1000);
            self.vram[i as usize] = data;
        } else if addr == 0x3F10 || addr == 0x3F14 || addr == 0x3F18 || addr == 0x3F1C {
            self.palette_table[(addr - 0x10 - 0x3F00) as usize] = data;
        } else if addr <= 0x3FFF {
            self.palette_table[self.address_to_pattern_table_index(addr) as usize] = data;
        }
        self.address_register.increment_alt(self.control_register.get_vram_increment());
    }
}


impl PPU {
    /// The palette table entry of a palette address.
    fn address_to_pattern_table_index(&self, addr: u16) -> (r: u16)
        requires
            addr >= 0x3F00,
        ensures
            r == (addr - 0x3F00) % 32,
    {
        (addr - 0x3F00) % 32
    }
}

/// The name table RAM index a PPUDATA read at `addr` (0x2000 or above) fills the read buffer
/// from: palette reads fill it from the name table byte underneath.
pub open spec fn vram_read_index(mirroring: Mirroring, addr: u16) -> int {
    if addr < 0x3F00 {
        name_table_index(mirroring, addr)
    } else {
        spec_mirror_vram_addr(mirroring, (addr - 0x1000) as u16) as int
    }
}

/// With one of the two mirrorings the PPU implements, every PPUDATA name table or palette
/// address maps inside the two kilobytes of name table RAM.
pub proof fn lemma_vram_index_in_range(mirroring: Mirroring, addr: u16)
    requires
        supported_mirroring(mirroring),
        0x2000 <= addr <= 0x3FFF,
    ensures
        addr <= 0x3EFF ==> 0 <= name_table_index(mirroring, addr) < 0x800,
        0 <= vram_read_index(mirroring, addr) < 0x800,
{
    if addr <= 0x2FFF {
        lemma_mirror_in_range(mirroring, addr);
    } else {
        lemma_mirror_in_range(mirroring, (addr - 0x1000) as u16);
    }
}

/// What a PPUDATA read at `addr` returns: reads below the palette are buffered (the byte
/// returned is the one fetched by the previous read), palette reads are immediate.
pub open spec fn spec_read_data_result(p: PPU, chr: Seq<u8>, addr: u16) -> u8 {
    if addr < 0x3F00 {
        p.internal_data_buffer
    } else {
        spec_palette_entry(p.palette_table, p.mask_register.bits & MaskRegister::GREYSCALE != 0, palette_index(addr))
    }
}

/// The byte a PPUDATA read at `addr` leaves in the read buffer; a palette read fills the buffer
/// with the name table byte underneath.
pub open spec fn spec_read_data_buffer(p: PPU, chr: Seq<u8>, addr: u16) -> u8 {
    if addr < 0x2000 {
        chr[addr as int]
    } else if addr < 0x3F00 {
        p.vram@[name_table_index(p.mirroring, addr)]
    } else {
        p.vram@[spec_mirror_vram_addr(p.mirroring, (addr - 0x1000) as u16) as int]
    }
}

impl PPU {
    /// A read through PPUDATA at the current address; the address then moves on by the
    /// increment PPUCTRL selects. Addresses from 0x3F20 on are not read (the palette table has
    /// 32 entries).
    pub fn read_data(&mut self, chr_rom: &[u8]) -> (r: u8)
        requires
            0x2000 <= data_addr(*old(self)) ==> vram_read_index(old(self).mirroring, data_addr(*old(self))) < 0x800,
            data_addr(*old(self)) < 0x3F20,
            data_addr(*old(self)) < 0x2000 ==> data_addr(*old(self)) < chr_rom@.len(),
        ensures
            r == spec_read_data_result(*old(self), chr_rom@, data_addr(*old(self))),
            *final(self) == (PPU {
                internal_data_buffer: spec_read_data_buffer(*old(self), chr_rom@, data_addr(*old(self))),
                address_register: final(self).address_register,
                ..*old(self)
            }),
            final(self).address_register.data_alt == (data_addr(*old(self)) as int + vram_increment(old(self).control_register)) % 0x4000,
            final(self).address_register.data == old(self).address_register.data,
    {
        let addr = self.address_register.data_alt;
        self.address_register.increment_alt(self.control_register.get_vram_increment());
        if addr <= 0x1FFF {
            let result = self.internal_data_buffer;
            self.internal_data_buffer = chr_rom[addr as usize];
            result
        } else if addr <= 0x2FFF {
            let result = self.internal_data_buffer;
            let i = self.mirror_vram_addr(addr);
            self.internal_data_buffer = self.vram[i as usize];
            result
        } else if addr <= 0x3EFF {
            let result = self.internal_data_buffer;
            let i = self.mirror_vram_addr(addr - 0x1000);
            self.internal_data_buffer = self.vram[i as usize];
            result
        } else if addr == 0x3F10 || addr == 0x3F14 || addr == 0x3F18 || addr == 0x3F1C {
            let i = self.mirror_vram_addr(addr - 0x1000);
            self.internal_data_buffer = self.vram[i as usize];
            self.read_palette_table((addr - 0x10 - 0x3F00) as usize)
        } else {
            let i = self.mirror_vram_addr(addr - 0x1000);
            self.internal_data_buffer = self.vram[i as usize];
            self.read_palette_table((addr - 0x3F00) as usize)
        }
    }

    /// A write to PPUADDR: the first write gives the high byte, the second the low byte; the
    /// address is mirrored down below 0x4000 and the write toggle flips.
    pub fn write_to_addr(&mut self, value: u8)
        ensures
            final(self).write_toggle == !old(self).write_toggle,
            final(self).address_register.data_alt == (if old(self).write_toggle {
                (old(self).address_register.data_alt & 0xFF00) | (value as u16)
            } else {
                (old(self).address_register.data_alt & 0x00FF) | ((value as u16) << 8u16)
            }) % 0x4000,
            !old(self).write_toggle ==> final(self).temporary_address_register.data
                == (old(self).temporary_address_register.data & 0x80FF) | (((value & 0b0011_1111) as u16) << 8u16),
            old(self).write_toggle ==> final(self).temporary_address_register.data
                == (old(self).temporary_address_register.data & 0xFF00) | (value as u16),
            final(self).address_register.data == (if old(self).write_toggle {
                final(self).temporary_address_register.data % 0x4000
            } else {
                old(self).address_register.data
            }),
            *final(self) == (PPU {
                write_toggle: final(self).write_toggle,
                address_register: final(self).address_register,
                temporary_address_register: final(self).temporary_address_register,
                ..*old(self)
            }),
    {
        self.temporary_address_register.update_addr_write(value, self.write_toggle);
        if self.write_toggle {
            self.address_register.update_from(&self.temporary_address_register);
        }
        let before = self.address_register.data_alt;
        self.address_register.data_alt = if self.write_toggle {
            (self.address_register.data_alt & 0xFF00) | value as u16
        } else {
            (self.address_register.data_alt & 0x00FF) | ((value as u16) << 8u16)
        };
        // mirror down address above 0x3FFF
        if self.address_register.data_alt > 0x3FFF {
            self.address_register.data_alt = self.address_register.data_alt & 0b11_1111_1111_1111u16;
        }
        proof {
            let x = if old(self).write_toggle {
                (before & 0xFF00u16) | (value as u16)
            } else {
                (before & 0x00FFu16) | ((value as u16) << 8u16)
            };
            assert((x > 0x3FFFu16 ==> x & 0b11_1111_1111_1111u16 == x % 0x4000) && (x <= 0x3FFFu16
                ==> x == x % 0x4000)) by {
                crate::bits::lemma_ppu_addr_bits(x);
            }
        }
        self.write_toggle = !self.write_toggle;
    }

    /// A write to PPUCTRL; enabling NMI generation during vertical blank raises an NMI at once.
    pub fn write_to_ctrl(&mut self, value: u8)
        ensures
            final(self).control_register.bits == value,
            final(self).temporary_address_register.data == (old(self).temporary_address_register.data
                & 0xF3FF) | (((value & 0b11) as u16) << 10u16),
            final(self).outstanding_interrupt == (old(self).outstanding_interrupt || (
            old(self).control_register.bits & ControlRegister::GENERATE_NMI == 0 && value
                & ControlRegister::GENERATE_NMI != 0 && old(self).status_register.bits
                & StatusRegister::VERTICAL_BLANK != 0)),
            *final(self) == (PPU {
                control_register: final(self).control_register,
                temporary_address_register: final(self).temporary_address_register,
                outstanding_interrupt: final(self).outstanding_interrupt,
                ..*old(self)
            }),
    {
        self.temporary_address_register.update_ctrl_write(value);
        let before_nmi_status = self.control_register.generate_nmi();
        self.control_register.update(value);
        if !before_nmi_status && self.control_register.generate_nmi()
            && self.status_register.vertical_blank() {
            self.outstanding_interrupt = true;
        }
    }

    pub fn write_to_mask(&mut self, value: u8)
        ensures
            *final(self) == (PPU { mask_register: MaskRegister { bits: value }, ..*old(self) }),
    {
        self.mask_register.update(value);
    }

    /// A read of PPUSTATUS: returns the status, clears the vertical blank flag and the write
    /// toggle.
    pub fn read_status(&mut self) -> (r: u8)
        ensures
            r == old(self).status_register.bits,
            *final(self) == (PPU {
                write_toggle: false,
                status_register: StatusRegister { bits: old(self).status_register.bits & !StatusRegister::VERTICAL_BLANK },
                ..*old(self)
            }),
    {
        let status = self.status_register.bits();
        self.write_toggle = false;
        self.status_register.set_vertical_blank(false);
        status
    }

    /// A write to PPUSCROLL: x first, then y; the write toggle flips.
    pub fn write_to_scroll(&mut self, value: u8)
        ensures
            final(self).write_toggle == !old(self).write_toggle,
            !old(self).write_toggle ==> final(self).scroll_register == (ScrollRegister { scroll_x: value, ..old(self).scroll_register }),
            old(self).write_toggle ==> final(self).scroll_register == (ScrollRegister { scroll_y: value, ..old(self).scroll_register }),
            !old(self).write_toggle ==> final(self).temporary_address_register.data
                == (old(self).temporary_address_register.data & 0xFFE0) | ((value >> 3u8) as u16),
            old(self).write_toggle ==> final(self).temporary_address_register.data
                == (old(self).temporary_address_register.data & 0x0C1F) | (((value & 0b111) as u16) << 12u16)
                | (((value >> 3u8) as u16) << 5u16),
            *final(self) == (PPU {
                write_toggle: final(self).write_toggle,
                scroll_register: final(self).scroll_register,
                temporary_address_register: final(self).temporary_address_register,
                ..*old(self)
            }),
    {
        self.temporary_address_register.update_scroll_write(value, self.write_toggle);
        let mut toggle = self.write_toggle;
        self.scroll_register.update(&mut toggle, value);
        self.write_toggle = toggle;
    }

    pub fn write_to_oam_addr(&mut self, value: u8)
        ensures
            *final(self) == (PPU { oam_addr: value, ..*old(self) }),
    {
        self.oam_addr = value;
    }

    pub fn read_oam_addr(&mut self) -> (r: u8)
        ensures
            r == old(self).oam_addr,
            *final(self) == *old(self),
    {
        self.oam_addr
    }

    /// Writes `value` at the OAM address, which then moves on (wrapping around).
    pub fn write_to_oam_data(&mut self, value: u8)
        ensures
            final(self).oam_data@ == old(self).oam_data@.update(old(self).oam_addr as int, value),
            *final(self) == (PPU {
                oam_data: final(self).oam_data,
                oam_addr: ((old(self).oam_addr as int + 1) % 256) as u8,
                ..*old(self)
            }),
    {
        self.oam_data[self.oam_addr as usize] = value;
        self.oam_addr = self.oam_addr.wrapping_add(1);
    }

    /// Writes 256 bytes to OAM from the OAM address on, wrapping around; the address comes back
    /// where it started.
    pub fn write_to_oam_data_dma(&mut self, data: &[u8; 256])
        ensures
            forall|i: int| 0 <= i < 256 ==> #[trigger] final(self).oam_data@[(old(self).oam_addr as int + i) % 256] == data@[i],
            *final(self) == (PPU { oam_data: final(self).oam_data, ..*old(self) }),
    {
        let ghost start = *self;
        let mut k: usize = 0;
        while k < 256
            invariant
                k <= 256,
                self.oam_addr as int == (start.oam_addr as int + k) % 256,
                forall|i: int| 0 <= i < k ==> #[trigger] self.oam_data@[(start.oam_addr as int + i) % 256] == data@[i],
                *self == (PPU { oam_data: self.oam_data, oam_addr: self.oam_addr, ..start }),
            decreases 256 - k,
        {
            self.oam_data[self.oam_addr as usize] = data[k];
            self.oam_addr = self.oam_addr.wrapping_add(1);
            k = k + 1;
        }
    }

    pub fn read_oam_data(&mut self) -> (r: u8)
        ensures
            r == old(self).oam_data@[old(self).oam_addr as int],
            *final(self) == *old(self),
    {
        self.oam_data[self.oam_addr as usize]
    }

    pub fn get_scroll_x(&self) -> (r: u8)
        ensures
            r == self.scroll_register.scroll_x,
    {
        self.scroll_register.get_scroll_x()
    }

    /// Coarse y of the current VRAM address.
    pub fn get_scroll_y(&self) -> (r: u8)
        ensures
            r == coarse_y(self.address_register.data),
    {
        self.address_register.get_tile_y() as u8
    }

    pub fn get_universal_background_color(&self) -> (r: u8)
        ensures
            r == spec_palette_entry(self.palette_table, self.mask_register.bits & MaskRegister::GREYSCALE != 0, 0),
    {
        self.read_palette_table(0)
    }

    pub fn show_sprites(&self) -> (r: bool)
        ensures
            r == (self.mask_register.bits & MaskRegister::SPRITES != 0),
    {
        self.mask_register.show_sprites()
    }

    pub fn show_background(&self) -> (r: bool)
        ensures
            r == (self.mask_register.bits & MaskRegister::BACKGROUND != 0),
    {
        self.mask_register.show_background()
    }

    pub fn show_sprites_left(&self) -> (r: bool)
        ensures
            r == (self.mask_register.bits & MaskRegister::SPRITES_LEFT != 0),
    {
        self.mask_register.show_sprites_left()
    }

    pub fn show_background_left(&self) -> (r: bool)
        ensures
            r == (self.mask_register.bits & MaskRegister::BACKGROUND_LEFT != 0),
    {
        self.mask_register.show_background_left()
    }

    pub fn is_in_vertical_blank(&self) -> (r: bool)
        ensures
            r == (self.status_register.bits & StatusRegister::VERTICAL_BLANK != 0),
    {
        self.status_register.vertical_blank()
    }

    /// Colour `idx` of the system palette the emphasis bits of PPUMASK select.
    pub fn get_color_from_current_system_palette(&self, idx: usize) -> (r: (u8, u8, u8))
        requires
            idx < 64,
        ensures
            r == self.system_palette.palettes@[self.mask_register.bits as int / 32]@[idx as int],
    {
        self.system_palette.get_palette(self.mask_register.get_emphasis_index() as usize)[idx]
    }

    pub fn set_sprite_zero_hit(&mut self)
        ensures
            *final(self) == (PPU {
                status_register: StatusRegister { bits: old(self).status_register.bits | StatusRegister::SPRITE_ZERO_HIT },
                ..*old(self)
            }),
    {
        self.status_register.set_sprite_zero_hit(true);
    }

    pub fn set_sprite_overflow(&mut self)
        ensures
            *final(self) == (PPU {
                status_register: StatusRegister { bits: old(self).status_register.bits | StatusRegister::SPRITE_OVERFLOW },
                ..*old(self)
            }),
    {
        self.status_register.set_sprite_overflow(true);
    }
}


impl PPU {
    /// Finds the (up to eight) sprites that cover the next scanline, setting the overflow flag
    /// when eight were found, and draws their pixels into `sprite_pixel_buffer`, the last found
    /// first so that earlier sprites end up in front. Also records the columns that sprite zero
    /// covers with opaque pixels.
    fn compute_sprites_next_scanline(&mut self, mapper: &MapperWrapper, sprite_pixel_buffer: &mut Scanline)
        requires
            old(self).scan_line < 0xFFFF,
            sprites_drawable(*old(self), *mapper, old(self).scan_line + 1),
        ensures
            sprites_computed(*old(self), *mapper, old(sprite_pixel_buffer).data@, *final(self), final(sprite_pixel_buffer).data@),
    {
        let next_scanline = self.scan_line + 1;
        let ghost next = next_scanline as int;
        let ghost oam = self.oam_data@;
        let ghost old_buffer = self.sprite_buffer@;
        let ghost start = *self;
        let mut current_sprite_slot: usize = 0;
        let mut k: usize = 0;
        proof { lemma_selected_bounded(oam, next, 64); }
        while k < 64
            invariant_except_break
                k <= 64,
                current_sprite_slot < 8,
                current_sprite_slot == selected_sprites(oam, next, k as nat).len(),
                forall|j: int| 0 <= j < 8 ==> #[trigger] self.sprite_buffer@[j] == (if j < current_sprite_slot {
                    oam_sprite(oam, selected_sprites(oam, next, k as nat)[j])
                } else {
                    old_buffer[j]
                }),
                *self == (PPU { sprite_buffer: self.sprite_buffer, ..start }),
            invariant
                self.oam_data@ == oam,
                next == next_scanline as int,
            ensures
                current_sprite_slot == selected_sprites(oam, next, 64).len(),
                forall|j: int| 0 <= j < 8 ==> #[trigger] self.sprite_buffer@[j] == (if j < current_sprite_slot {
                    oam_sprite(oam, selected_sprites(oam, next, 64)[j])
                } else {
                    old_buffer[j]
                }),
                current_sprite_slot == 8 ==> *self == (PPU {
                    sprite_buffer: self.sprite_buffer,
                    status_register: StatusRegister { bits: start.status_register.bits | StatusRegister::SPRITE_OVERFLOW },
                    ..start
                }),
                current_sprite_slot < 8 ==> *self == (PPU { sprite_buffer: self.sprite_buffer, ..start }),
            decreases 64 - k,
        {
            let idx = k * 4;
            let y = self.oam_data[idx];
            if y < 239 && next_scanline > y as u16 && next_scanline < (y + 1 + 8) as u16 {
                let raw = [self.oam_data[idx], self.oam_data[idx + 1], self.oam_data[idx + 2], self.oam_data[idx + 3]];
                let sprite = match Sprite::new(&raw, idx == 0, false) {
                    Some(s) => s,
                    None => Sprite::default(),
                };
                assert(sprite == oam_sprite(oam, k as int));
                self.sprite_buffer[current_sprite_slot] = sprite;
                current_sprite_slot = current_sprite_slot + 1;
                if current_sprite_slot >= 8 {
                    self.set_sprite_overflow();
                    proof { lemma_selected_full(oam, next, (k + 1) as nat, 64); }
                    break;
                }
            }
            k = k + 1;
        }
        proof { lemma_selected_bounded(oam, next, 64); }
        let ghost sel = selected_sprites(oam, next, 64);
        let ghost p = *self;
        assert(self.sprite_buffer@ =~= selected_buffer(old_buffer, oam, sel));
        let ghost pixels0 = sprite_pixel_buffer.data@;
        let mut sprite_zero_start: i32 = -1;
        let mut sprite_zero_len: i32 = 0;
        let count = current_sprite_slot;
        let mut i = count;
        while i > 0
            invariant
                i <= count,
                count == sel.len(),
                count <= 8,
                *self == p,
                p.sprite_buffer@ == selected_buffer(old_buffer, oam, sel),
                sprites_drawable(start, *mapper, next),
                p.palette_table == start.palette_table,
                p.control_register == start.control_register,
                p.oam_data@ == oam,
                start.oam_data@ == oam,
                sel == selected_sprites(start.oam_data@, next, 64),
                next == next_scanline as int,
                -1 <= sprite_zero_start <= 263,
                0 <= sprite_zero_len <= 8 * (count - i),
                ({
                    let line = draw_sprites(
                        SpriteLine { pixels: pixels0, zero_start: -1, zero_len: 0 },
                        p,
                        *mapper,
                        next,
                        count as int,
                        (count - i) as nat,
                    );
                    &&& sprite_pixel_buffer.data@ == line.pixels
                    &&& sprite_zero_start as int == line.zero_start
                    &&& sprite_zero_len as int == line.zero_len
                }),
            decreases i,
        {
            i = i - 1;
            let sprite = self.sprite_buffer[i];
            assert(sprite == oam_sprite(oam, sel[i as int]));
            assert(next < oam_sprite(start.oam_data@, sel[i as int]).y_pos + 8
                && mapper.tile_ok(sprite_tile_addr(start, oam_sprite(start.oam_data@, sel[i as int]))));
            let palette = get_sprite_palette(self, sprite.get_palette_index());
            let bank = self.control_register.get_sprite_pattern_table_address() as usize;
            let tile_addr = (bank + sprite.get_pattern_index() * 16) as u16;
            assert(tile_addr == sprite_tile_addr(p, sprite));
            assert(sprite_tile_addr(p, sprite) == sprite_tile_addr(start, sprite));
            assert(mapper.tile_ok(tile_addr));
            proof { lemma_selected_bounded(oam, next, 64); }
            assert(sprite_in_range(oam, sel[i as int], next));
            proof { lemma_tile_len(*mapper, tile_addr); }
            let tile = mapper.read_tile_chr_rom(tile_addr);
            let sprite_line = if sprite.is_vertical_flip() {
                7 - (next_scanline as usize - sprite.get_y())
            } else {
                next_scanline as usize - sprite.get_y()
            };
            let ghost lo = tile@[sprite_line as int];
            let ghost hi = tile@[sprite_line + 8];
            let mut upper = tile[sprite_line];
            let mut lowwer = tile[sprite_line + 8];
            proof {
                crate::bits::lemma_u8_bits(upper);
                crate::bits::lemma_u8_bits(lowwer);
                crate::bits::lemma_u8_bits(p.palette_table@[0x11 + (sprite.attributes % 4) * 4]);
                crate::bits::lemma_u8_bits(p.palette_table@[0x12 + (sprite.attributes % 4) * 4]);
                crate::bits::lemma_u8_bits(p.palette_table@[0x13 + (sprite.attributes % 4) * 4]);
            }
            assert(forall|c: int| 0 <= c < 4 ==> #[trigger] palette@[c] < 64);
            let ghost before_row = draw_sprites(
                SpriteLine { pixels: pixels0, zero_start: -1, zero_len: 0 },
                p,
                *mapper,
                next,
                count as int,
                (count - 1 - i) as nat,
            );
            let mut x: usize = 8;
            while x > 0
                invariant
                    x <= 8,
                    -1 <= sprite_zero_start <= 263,
                    0 <= sprite_zero_len <= 8 * (count - 1 - i) + (8 - x),
                    i < count,
                    count <= 8,
                    upper == lo >> ((8 - x) as u8),
                    lowwer == hi >> ((8 - x) as u8),
                    forall|c: int| 0 <= c < 4 ==> #[trigger] palette@[c] < 64,
                    *self == p,
                    ({
                        let line = draw_sprite_row(before_row, sprite, lo, hi, palette@, current_colors(p), (8 - x) as nat);
                        &&& sprite_pixel_buffer.data@ == line.pixels
                        &&& sprite_zero_start as int == line.zero_start
                        &&& sprite_zero_len as int == line.zero_len
                    }),
                decreases x,
            {
                x = x - 1;
                let color_idx = ((lowwer & 1) << 1u8) | (upper & 1);
                proof {
                    crate::bits::lemma_u8_pair_bits(lowwer, upper);
                    let n = (7 - x) as u8;
                    crate::bits::lemma_u8_shift_bits(lo, n);
                    crate::bits::lemma_u8_shift_bits(hi, n);
                    assert((7 - x) as u8 == (8 - (x + 1)) as u8);
                }
                upper = upper >> 1u8;
                lowwer = lowwer >> 1u8;
                if color_idx != 0 {
                    let x_pos = if sprite.is_horizontal_flip() {
                        sprite.get_x() + 7 - x
                    } else {
                        x + sprite.get_x()
                    };
                    if sprite.is_sprite_zero() {
                        if sprite_zero_start <= 0 {
                            sprite_zero_start = x_pos as i32;
                            sprite_zero_len = 1;
                        } else {
                            sprite_zero_len = sprite_zero_len + 1;
                        }
                    }
                    let rgb = self.get_color_from_current_system_palette(palette[color_idx as usize] as usize);
                    if x_pos < SCREEN_WIDTH {
                        let mut pixel = sprite_pixel_buffer.data[x_pos];
                        pixel.sprite_color = SpriteColor {
                            color: rgb,
                            behind_background: !sprite.draw_over_background(),
                            transparent: false,
                        };
                        sprite_pixel_buffer.data[x_pos] = pixel;
                    }
                }
            }
            assert(draw_sprites(
                SpriteLine { pixels: pixels0, zero_start: -1, zero_len: 0 },
                p,
                *mapper,
                next,
                count as int,
                (count - i) as nat,
            ) == draw_sprite_row(before_row, sprite, lo, hi, palette@, current_colors(p), 8));
        }
        self.sprite_zero_start = if sprite_zero_start <= 0 { 0 } else { sprite_zero_start as usize };
        self.sprite_zero_end = if sprite_zero_start <= 0 { 0 } else { (sprite_zero_start + sprite_zero_len) as usize };
    }
}


/// The PPU after the sprite-zero check of a tick of `cycles` cycles: the hit flag is set when
/// sprites are shown, the scanline is at most 240 and the cycles overlap the columns sprite zero
/// covers.
pub open spec fn zero_hit_checked(p: PPU, cycles: int) -> PPU {
    if p.mask_register.bits & MaskRegister::SPRITES != 0 && p.scan_line <= 240 && p.cycles
        < p.sprite_zero_end && p.sprite_zero_start < p.cycles + cycles {
        PPU { status_register: StatusRegister { bits: p.status_register.bits | StatusRegister::SPRITE_ZERO_HIT }, ..p }
    } else {
        p
    }
}

/// The PPU after `cycles` cycles were counted, before an ended scanline is handled: the vertical
/// blank flag is cleared from cycle 308 of scanline 260 on.
pub open spec fn tick_counted(p: PPU, cycles: int) -> PPU {
    let h = zero_hit_checked(p, cycles);
    let c = p.cycles + cycles;
    PPU {
        cycles: c as usize,
        status_register: StatusRegister {
            bits: if h.scan_line == 260 && c >= 308 {
                h.status_register.bits & !StatusRegister::VERTICAL_BLANK
            } else {
                h.status_register.bits
            },
        },
        ..h
    }
}

/// The PPU when a scanline has ended (`q.cycles` is at least 341): with the background shown the
/// horizontal scroll is reloaded from `t`; the cycle count drops by 341 and the next scanline
/// starts. Scanline 241 starts the vertical blank (and clears the sprite-zero hit); with NMI
/// generation on it also clears the overflow flag and raises the interrupt. After scanline 261
/// the frame wraps to scanline 0, the interrupt is dropped and, with the background shown, the
/// vertical scroll is reloaded from `t`.
pub open spec fn line_ended(q: PPU) -> PPU {
    let show_bg = q.mask_register.bits & MaskRegister::BACKGROUND != 0;
    let t = q.temporary_address_register.data;
    let ax = if show_bg {
        AddressRegister { data: (q.address_register.data & !0x041Fu16) | (t & 0x041F), ..q.address_register }
    } else {
        q.address_register
    };
    let line = q.scan_line + 1;
    let c = (q.cycles - 341) as usize;
    if line == 241 {
        let s = (q.status_register.bits | StatusRegister::VERTICAL_BLANK) & !StatusRegister::SPRITE_ZERO_HIT;
        let nmi = q.control_register.bits & ControlRegister::GENERATE_NMI != 0;
        PPU {
            address_register: ax,
            cycles: c,
            scan_line: 241,
            status_register: StatusRegister {
                bits: if nmi { (s & !StatusRegister::SPRITE_ZERO_HIT) & !StatusRegister::SPRITE_OVERFLOW } else { s },
            },
            outstanding_interrupt: nmi || q.outstanding_interrupt,
            ..q
        }
    } else if line >= 262 {
        PPU {
            address_register: if show_bg {
                AddressRegister { data: (ax.data & !0x73E0u16) | (t & 0x7BE0), ..ax }
            } else {
                ax
            },
            cycles: c,
            scan_line: 0,
            outstanding_interrupt: false,
            ..q
        }
    } else {
        PPU { address_register: ax, cycles: c, scan_line: line as u16, ..q }
    }
}

impl PPU {
    fn check_sprite_zero_hit(&mut self, start: usize, end: usize)
        requires
            start == old(self).cycles,
            start <= end,
        ensures
            *final(self) == zero_hit_checked(*old(self), end - start),
    {
        if self.show_sprites() && self.scan_line <= 240 && start < self.sprite_zero_end
            && self.sprite_zero_start < end {
            self.set_sprite_zero_hit()
        }
    }

    /// Advances the PPU by `cycles` cycles and returns the scanline it is on. When the cycles
    /// end a scanline, the sprites of the scanline after the new one are found and drawn into
    /// `sprite_pixel_buffer`.
    pub fn tick(&mut self, cycles: u8, mapper: &MapperWrapper, sprite_pixel_buffer: &mut Scanline) -> (r: u16)
        requires
            old(self).cycles + cycles <= usize::MAX,
            tick_counted(*old(self), cycles as int).cycles >= 341 ==> {
                &&& old(self).scan_line < 0xFFFF
                &&& sprites_drawable(
                    line_ended(tick_counted(*old(self), cycles as int)),
                    *mapper,
                    line_ended(tick_counted(*old(self), cycles as int)).scan_line + 1,
                )
            },
        ensures
            ({
                let q = tick_counted(*old(self), cycles as int);
                if q.cycles < 341 {
                    &&& *final(self) == q
                    &&& final(sprite_pixel_buffer).data@ == old(sprite_pixel_buffer).data@
                } else {
                    sprites_computed(
                        line_ended(q),
                        *mapper,
                        old(sprite_pixel_buffer).data@,
                        *final(self),
                        final(sprite_pixel_buffer).data@,
                    )
                }
            }),
            r == final(self).scan_line,
    {
        let ghost q = tick_counted(*old(self), cycles as int);
        self.check_sprite_zero_hit(self.cycles, self.cycles + cycles as usize);
        self.cycles += cycles as usize;

        // The VBL flag ($2002.7) is cleared by the PPU around 2270 CPU clocks after NMI occurs.
        if self.scan_line == 260 && self.cycles >= 308 {
            self.status_register.set_vertical_blank(false);
        }
        assert(*self == q);

        if self.cycles >= 341 {
            if self.show_background() {
                self.address_register.load_x_from(&self.temporary_address_register);
            }

            self.cycles -= 341;
            self.scan_line += 1;

            if self.scan_line == 241 {
                self.status_register.set_vertical_blank(true);
                self.status_register.set_sprite_zero_hit(false);
                if self.control_register.generate_nmi() {
                    self.status_register.set_sprite_zero_hit(false);
                    self.status_register.set_sprite_overflow(false);
                    self.outstanding_interrupt = true;
                }
            } else if self.scan_line >= 262 {
                self.scan_line = 0;
                self.outstanding_interrupt = false;
                if self.show_background() {
                    self.address_register.load_y_from(&self.temporary_address_register);
                }
            }
            assert(*self == line_ended(q));
            self.compute_sprites_next_scanline(mapper, sprite_pixel_buffer);
        }
        self.scan_line
    }
}

} // verus!
