use vstd::prelude::*;
use crate::ppu::t_register::TRegister;

verus! {

/// Fine y scroll (bits 12..14) of a VRAM address.
pub open spec fn fine_y(v: u16) -> int {
    (v as int / 4096) % 8
}

/// Coarse x (bits 0..4) of a VRAM address.
pub open spec fn coarse_x(v: u16) -> int {
    v as int % 32
}

/// Coarse y (bits 5..9) of a VRAM address.
pub open spec fn coarse_y(v: u16) -> int {
    (v as int / 32) % 32
}

/// Name table select (bits 10..11) of a VRAM address.
pub open spec fn name_table(v: u16) -> int {
    (v as int / 1024) % 4
}

/// The PPU's current VRAM address ("v"), and the plain address PPUDATA uses.
#[derive(Debug, Clone, Copy)]
pub struct AddressRegister {
    pub data: u16,
    /// Used for pattern table accesses.
    /// Does not use t register.
    pub data_alt: u16,
}

impl AddressRegister {
    pub fn new() -> (r: Self)
        ensures
            r.data == 0,
            r.data_alt == 0,
    {
        AddressRegister { data: 0, data_alt: 0 }
    }

    /// Copies `t`; an address above 0x3FFF is mirrored down.
    pub fn update_from(&mut self, t: &TRegister)
        ensures
            final(self).data == t.data % 0x4000,
            final(self).data_alt == old(self).data_alt,
    {
        self.data = t.data;
        // mirror down address above 0x3FFF
        if self.data > 0x3FFF {
            self.data = self.data & 0b11_1111_1111_1111u16;
        }
        proof {
            let d = t.data;
            assert((d > 0x3FFFu16 ==> d & 0b11_1111_1111_1111u16 == d % 0x4000) && (d <= 0x3FFFu16
                ==> d == d % 0x4000)) by {
                crate::bits::lemma_ppu_addr_bits(d);
            }
        }
    }

    /// Adds `inc` to `data`; the address wraps within 0x0000..0x3FFF.
    pub fn increment(&mut self, inc: u8)
        ensures
            final(self).data == (old(self).data as int + inc as int) % 0x4000,
            final(self).data_alt == old(self).data_alt,
    {
        let ghost d = self.data;
        self.data = self.data.wrapping_add(inc as u16);
        // mirror down address above 0x3FFF
        if self.data > 0x3FFF {
            self.data = self.data & 0b11_1111_1111_1111u16;
        }
        proof {
            let w = self.data;
            let x = d.wrapping_add(inc as u16);
            assert(x == (d as int + inc as int) % 0x10000);
            assert((x > 0x3FFFu16 ==> x & 0b11_1111_1111_1111u16 == x % 0x4000) && (x <= 0x3FFFu16
                ==> x == x % 0x4000)) by {
                crate::bits::lemma_ppu_addr_bits(x);
            }
            assert((d as int + inc as int) % 0x10000 % 0x4000 == (d as int + inc as int) % 0x4000);
        }
    }

    /// Adds `inc` to `data_alt`; the address wraps within 0x0000..0x3FFF.
    pub fn increment_alt(&mut self, inc: u8)
        ensures
            final(self).data_alt == (old(self).data_alt as int + inc as int) % 0x4000,
            final(self).data == old(self).data,
    {
        let ghost d = self.data_alt;
        self.data_alt = self.data_alt.wrapping_add(inc as u16);
        // mirror down address above 0x3FFF
        if self.data_alt > 0x3FFF {
            self.data_alt = self.data_alt & 0b11_1111_1111_1111u16;
        }
        proof {
            let x = d.wrapping_add(inc as u16);
            assert(x == (d as int + inc as int) % 0x10000);
            assert((x > 0x3FFFu16 ==> x & 0b11_1111_1111_1111u16 == x % 0x4000) && (x <= 0x3FFFu16
                ==> x == x % 0x4000)) by {
                crate::bits::lemma_ppu_addr_bits(x);
            }
            assert((d as int + inc as int) % 0x10000 % 0x4000 == (d as int + inc as int) % 0x4000);
        }
    }

    pub fn get_inner_tile_y_offset(&self) -> (r: usize)
        ensures
            r == fine_y(self.data),
    {
        let d = self.data;
        assert(((d & 0b111_0000_0000_0000u16) >> 12u16) as int == (d as int / 4096) % 8) by {
            crate::bits::lemma_ppu_addr_bits(d);
        }
        ((self.data & 0b111_0000_0000_0000u16) >> 12u16) as usize
    }

    /// Sets fine y to `data` modulo 8; the other bits stay.
    pub fn set_inner_tile_y_offset(&mut self, data: u8)
        ensures
            fine_y(final(self).data) == data as int % 8,
            final(self).data & 0x8FFF == old(self).data & 0x8FFF,
            final(self).data_alt == old(self).data_alt,
    {
        let ghost d = self.data;
        let l = ((data % 8) as u16) << 12u16;
        self.data = (self.data & !0b111_0000_0000_0000u16) | l;
        proof {
            let m = (data % 8) as u16;
            assert(m < 8 ==> ((((d & !0b111_0000_0000_0000u16) | (m << 12u16)) as int / 4096) % 8
                == m as int && ((d & !0b111_0000_0000_0000u16) | (m << 12u16)) & 0x8FFFu16 == d
                & 0x8FFFu16)) by (bit_vector);
        }
    }

    pub fn get_tile_x(&self) -> (r: usize)
        ensures
            r == coarse_x(self.data),
    {
        let d = self.data;
        assert((d & 0b000_0000_0001_1111u16) as int == d as int % 32) by {
            crate::bits::lemma_ppu_addr_bits(d);
        }
        (self.data & 0b000_0000_0001_1111u16) as usize
    }

    pub fn get_tile_y(&self) -> (r: usize)
        ensures
            r == coarse_y(self.data),
    {
        let d = self.data;
        assert(((d & 0b000_0011_1110_0000u16) >> 5u16) as int == (d as int / 32) % 32) by {
            crate::bits::lemma_ppu_addr_bits(d);
        }
        ((self.data & 0b000_0011_1110_0000u16) >> 5u16) as usize
    }

    /// Sets coarse y to `data` modulo 30; the other bits stay.
    pub fn set_tile_y(&mut self, data: u8)
        ensures
            coarse_y(final(self).data) == data as int % 30,
            final(self).data & 0xFC1F == old(self).data & 0xFC1F,
            final(self).data_alt == old(self).data_alt,
    {
        let ghost d = self.data;
        let l = ((data % 30) as u16) << 5u16;
        self.data = (self.data & !0b000_0011_1110_0000u16) | l;
        proof {
            let m = (data % 30) as u16;
            assert(m < 30 ==> ((((d & !0b000_0011_1110_0000u16) | (m << 5u16)) as int / 32) % 32
                == m as int && ((d & !0b000_0011_1110_0000u16) | (m << 5u16)) & 0xFC1Fu16 == d
                & 0xFC1Fu16)) by (bit_vector);
        }
    }

    pub fn get_name_table(&self) -> (r: usize)
        ensures
            r == name_table(self.data),
    {
        let d = self.data;
        assert(((d & 0b1100_0000_0000u16) >> 10u16) as int == (d as int / 1024) % 4) by {
            crate::bits::lemma_ppu_addr_bits(d);
        }
        ((self.data & 0b1100_0000_0000u16) >> 10u16) as usize
    }

    /// Switches to the vertically adjacent name table (flips bit 11).
    pub fn vertical_name_table_overflow(&mut self)
        ensures
            final(self).data == old(self).data ^ 0x0800,
            final(self).data_alt == old(self).data_alt,
    {
        self.data = self.data ^ 0b10_00000_00000u16;
    }

    /// Switches to the horizontally adjacent name table (flips bit 10).
    pub fn horizontal_name_table_overflow(&mut self)
        ensures
            final(self).data == old(self).data ^ 0x0400,
            final(self).data_alt == old(self).data_alt,
    {
        self.data = self.data ^ 0b01_00000_00000u16;
    }

    /// Copies coarse x and the horizontal name table bit from `t`.
    pub fn load_x_from(&mut self, t: &TRegister)
        ensures
            final(self).data == (old(self).data & !0x041Fu16) | (t.data & 0x041F),
            final(self).data_alt == old(self).data_alt,
    {
        let tmp = (self.data & !0b100_0001_1111u16) | (t.data & 0b100_0001_1111u16);
        self.data = tmp;
    }

    /// Copies fine y and coarse y from `t`; the vertical name table bit of `t` is or-ed in.
    pub fn load_y_from(&mut self, t: &TRegister)
        ensures
            final(self).data == (old(self).data & !0x73E0u16) | (t.data & 0x7BE0),
            final(self).data_alt == old(self).data_alt,
    {
        let tmp = (self.data & !0b0111_0011_1110_0000u16) | (t.data & 0b0111_1011_1110_0000u16);
        self.data = tmp;
    }
}

impl Default for AddressRegister {
    fn default() -> (r: Self)
        ensures
            r.data == 0,
            r.data_alt == 0,
    {
        Self::new()
    }
}

} // verus!
