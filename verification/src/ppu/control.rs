use vstd::prelude::*;

verus! {

// 7  bit  0
// ---- ----
// VPHB SINN
// |||| ||||
// |||| ||++- Base nametable address
// |||| ||    (0 = $2000; 1 = $2400; 2 = $2800; 3 = $2C00)
// |||| |+--- VRAM address increment per CPU read/write of PPUDATA
// |||| |     (0: add 1, going across; 1: add 32, going down)
// |||| +---- Sprite pattern table address for 8x8 sprites
// ||||       (0: $0000; 1: $1000; ignored in 8x16 mode)
// |||+------ Background pattern table address (0: $0000; 1: $1000)
// ||+------- Sprite size (0: 8x8 pixels; 1: 8x16 pixels)
// |+-------- PPU master/slave select
// |          (0: read backdrop from EXT pins; 1: output color on EXT pins)
// +--------- Generate an NMI at the start of the
//            vertical blanking interval (0: off; 1: on)
/// PPUCTRL.
#[derive(Debug, Clone, Copy)]
pub struct ControlRegister {
    pub bits: u8,
}

impl ControlRegister {
    pub const NAMETABLE1: u8 = 0b00000001;
    pub const NAMETABLE2: u8 = 0b00000010;
    pub const VRAM_ADD_INCREMENT: u8 = 0b00000100;
    pub const SPRITE_PATTERN_ADDR: u8 = 0b00001000;
    pub const BACKROUND_PATTERN_ADDR: u8 = 0b00010000;
    pub const SPRITE_SIZE: u8 = 0b00100000;
    pub const MASTER_SLAVE_SELECT: u8 = 0b01000000;
    pub const GENERATE_NMI: u8 = 0b10000000;

    pub fn new() -> (r: Self)
        ensures
            r.bits == 0,
    {
        ControlRegister { bits: 0 }
    }

    pub fn bits(&self) -> (r: u8)
        ensures
            r == self.bits,
    {
        self.bits
    }

    /// Whether every bit of `flags` is set.
    pub fn contains(&self, flags: u8) -> (r: bool)
        ensures
            r == (self.bits & flags == flags),
    {
        self.bits & flags == flags
    }

    /// Every bit has a meaning, so any byte is a valid value.
    pub fn update(&mut self, data: u8)
        ensures
            final(self).bits == data,
    {
        self.bits = data;
    }

    pub fn get_nametable_base(&self) -> (r: u16)
        ensures
            r == 0x2000 + 0x400 * (self.bits as int % 4),
    {
        let nt_1 = self.contains(Self::NAMETABLE1);
        let nt_2 = self.contains(Self::NAMETABLE2);
        let b = self.bits;
        assert((b & 1u8 == 1u8) == (b % 2 == 1) && (b & 2u8 == 2u8) == (b % 4 >= 2)) by {
            crate::bits::lemma_u8_bits(b);
        }
        match (nt_2, nt_1) {
            (false, false) => 0x2000,
            (false, true) => 0x2400,
            (true, false) => 0x2800,
            (true, true) => 0x2C00,
        }
    }

    pub fn get_vram_increment(&self) -> (r: u8)
        ensures
            r == (if self.bits & Self::VRAM_ADD_INCREMENT != 0 { 32int } else { 1int }),
    {
        let b = self.bits;
        assert((b & 4u8 == 4u8) == (b & 4u8 != 0)) by {
            crate::bits::lemma_u8_bits(b);
        }
        if self.contains(ControlRegister::VRAM_ADD_INCREMENT) {
            32
        } else {
            1
        }
    }

    pub fn get_sprite_pattern_table_address(&self) -> (r: u16)
        ensures
            r == (if self.bits & Self::SPRITE_PATTERN_ADDR != 0 { 0x1000int } else { 0int }),
    {
        let b = self.bits;
        assert((b & 8u8 == 8u8) == (b & 8u8 != 0)) by {
            crate::bits::lemma_u8_bits(b);
        }
        if self.contains(Self::SPRITE_PATTERN_ADDR) {
            0x1000
        } else {
            0
        }
    }

    pub fn get_background_pattern_table_address(&self) -> (r: u16)
        ensures
            r == (if self.bits & Self::BACKROUND_PATTERN_ADDR != 0 { 0x1000int } else { 0int }),
    {
        let b = self.bits;
        assert((b & 16u8 == 16u8) == (b & 16u8 != 0)) by {
            crate::bits::lemma_u8_bits(b);
        }
        if self.contains(Self::BACKROUND_PATTERN_ADDR) {
            0x1000
        } else {
            0
        }
    }

    pub fn get_sprite_size(&self) -> (r: u8)
        ensures
            r == (if self.bits & Self::SPRITE_SIZE != 0 { 16int } else { 8int }),
    {
        let b = self.bits;
        assert((b & 32u8 == 32u8) == (b & 32u8 != 0)) by {
            crate::bits::lemma_u8_bits(b);
        }
        if self.contains(Self::SPRITE_SIZE) {
            16
        } else {
            8
        }
    }

    pub fn is_slave(&self) -> (r: bool)
        ensures
            r == (self.bits & Self::MASTER_SLAVE_SELECT != 0),
    {
        let b = self.bits;
        assert((b & 64u8 == 64u8) == (b & 64u8 != 0)) by {
            crate::bits::lemma_u8_bits(b);
        }
        self.contains(Self::MASTER_SLAVE_SELECT)
    }

    pub fn generate_nmi(&self) -> (r: bool)
        ensures
            r == (self.bits & Self::GENERATE_NMI != 0),
    {
        let b = self.bits;
        assert((b & 128u8 == 128u8) == (b & 128u8 != 0)) by {
            crate::bits::lemma_u8_bits(b);
        }
        self.contains(Self::GENERATE_NMI)
    }
}

impl Default for ControlRegister {
    fn default() -> (r: Self)
        ensures
            r.bits == 0,
    {
        Self::new()
    }
}

} // verus!
