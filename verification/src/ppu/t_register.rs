use vstd::prelude::*;

verus! {

/// The PPU's temporary VRAM address ("t"): yyy NN YYYYY XXXXX, fine y, name table, coarse y,
/// coarse x.
#[derive(Debug, Clone, Copy)]
pub struct TRegister {
    pub data: u16,
}

impl TRegister {
    pub fn new() -> (r: Self)
        ensures
            r.data == 0,
    {
        TRegister { data: 0 }
    }

    /// A write to PPUADDR: the first write (toggle off) puts the low six bits of `data` in
    /// bits 8..13 and clears bit 14; the second write sets the low byte.
    pub fn update_addr_write(&mut self, data: u8, write_toggle: bool)
        ensures
            !write_toggle ==> final(self).data == (old(self).data & 0x80FF) | (((data & 0b0011_1111) as u16) << 8u16),
            write_toggle ==> final(self).data == (old(self).data & 0xFF00) | (data as u16),
    {
        let ghost d = self.data;
        if !write_toggle {
            self.data = (self.data & !0b00111111_00000000u16) | (((data & 0b00111111) as u16) << 8u16);
            self.data = self.data & 0b10111111_11111111u16;
            assert((((d & !0b00111111_00000000u16) | (((data & 0b00111111u8) as u16) << 8u16))
                & 0b10111111_11111111u16) == (d & 0x80FFu16) | (((data & 0b0011_1111u8) as u16)
                << 8u16)) by (bit_vector);
        } else {
            self.data = (self.data & !0b11111111u16) | data as u16;
            assert((d & !0b11111111u16) | (data as u16) == (d & 0xFF00u16) | (data as u16))
                by (bit_vector);
        }
    }

    /// A write to PPUCTRL: the two name table bits of `data` go to bits 10 and 11.
    pub fn update_ctrl_write(&mut self, data: u8)
        ensures
            final(self).data == (old(self).data & 0xF3FF) | (((data & 0b11) as u16) << 10u16),
    {
        let ghost d = self.data;
        self.data = (self.data & !(0b11u16 << 10u16)) | (((data & 0b11) as u16) << 10u16);
        assert((d & !(0b11u16 << 10u16)) == (d & 0xF3FFu16)) by (bit_vector);
    }

    /// A write to PPUSCROLL: the first write sets coarse x from the top five bits of `data`;
    /// the second sets fine y from the low three bits and coarse y from the top five.
    pub fn update_scroll_write(&mut self, data: u8, write_toggle: bool)
        ensures
            !write_toggle ==> final(self).data == (old(self).data & 0xFFE0) | ((data >> 3u8) as u16),
            write_toggle ==> final(self).data == (old(self).data & 0x0C1F) | (((data & 0b111) as u16) << 12u16)
                | (((data >> 3u8) as u16) << 5u16),
    {
        let ghost d = self.data;
        if !write_toggle {
            self.data = (self.data & !0b11111u16) | ((data & 0b11111000) as u16 >> 3u16);
            assert((d & !0b11111u16) | (((data & 0b11111000u8) as u16) >> 3u16) == (d & 0xFFE0u16)
                | ((data >> 3u8) as u16)) by (bit_vector);
        } else {
            let d1 = (data as u16 & 0b00000111) << 12u16;
            let d2 = (data as u16 & 0b11000000) << 2u16;
            let d3 = (data as u16 & 0b00111000) << 2u16;
            let dd = d1 | d2 | d3;
            self.data = (self.data & !0b11110011_11100000u16) | dd;
            assert((d & !0b11110011_11100000u16) | (((data as u16 & 0b00000111u16) << 12u16) | ((
            data as u16 & 0b11000000u16) << 2u16) | ((data as u16 & 0b00111000u16) << 2u16)) == (d
                & 0x0C1Fu16) | (((data & 0b111u8) as u16) << 12u16) | (((data >> 3u8) as u16)
                << 5u16)) by (bit_vector);
        }
    }
}

impl Default for TRegister {
    fn default() -> (r: Self)
        ensures
            r.data == 0,
    {
        Self::new()
    }
}

} // verus!
