use vstd::prelude::*;

verus! {

// 7  bit  0
// ---- ----
// VSO. ....
// |||| ||||
// |||+-++++- PPU open bus. Returns stale PPU bus contents.
// ||+------- Sprite overflow.
// |+-------- Sprite 0 Hit.
// +--------- Vertical blank has started (0: not in vblank; 1: in vblank).
/// PPUSTATUS.
#[derive(Debug, Clone, Copy)]
pub struct StatusRegister {
    pub bits: u8,
}

impl StatusRegister {
    pub const UNUSED_0: u8 = 0b0000_0001;
    pub const UNUSED_1: u8 = 0b0000_0010;
    pub const UNUSED_2: u8 = 0b0000_0100;
    pub const UNUSED_3: u8 = 0b0000_1000;
    pub const UNUSED_4: u8 = 0b0001_0000;
    pub const SPRITE_OVERFLOW: u8 = 0b0010_0000;
    pub const SPRITE_ZERO_HIT: u8 = 0b0100_0000;
    pub const VERTICAL_BLANK: u8 = 0b1000_0000;

    pub fn new() -> (r: Self)
        ensures
            r.bits == 0,
    {
        StatusRegister { bits: 0 }
    }

    pub fn bits(&self) -> (r: u8)
        ensures
            r == self.bits,
    {
        self.bits
    }

    /// Sets (`value`) or clears the bits of `flags`.
    pub fn set(&mut self, flags: u8, value: bool)
        ensures
            final(self).bits == (if value { old(self).bits | flags } else { old(self).bits & !flags }),
    {
        if value {
            self.bits = self.bits | flags;
        } else {
            self.bits = self.bits & !flags;
        }
    }

    pub fn sprite_overflow(&self) -> (r: bool)
        ensures
            r == (self.bits & Self::SPRITE_OVERFLOW != 0),
    {
        self.bits & Self::SPRITE_OVERFLOW != 0
    }

    pub fn set_sprite_overflow(&mut self, overflow: bool)
        ensures
            final(self).bits == (if overflow { old(self).bits | Self::SPRITE_OVERFLOW } else { old(self).bits & !Self::SPRITE_OVERFLOW }),
    {
        self.set(Self::SPRITE_OVERFLOW, overflow);
    }

    pub fn sprite_zero_hit(&self) -> (r: bool)
        ensures
            r == (self.bits & Self::SPRITE_ZERO_HIT != 0),
    {
        self.bits & Self::SPRITE_ZERO_HIT != 0
    }

    pub fn set_sprite_zero_hit(&mut self, hit: bool)
        ensures
            final(self).bits == (if hit { old(self).bits | Self::SPRITE_ZERO_HIT } else { old(self).bits & !Self::SPRITE_ZERO_HIT }),
    {
        self.set(Self::SPRITE_ZERO_HIT, hit);
    }

    pub fn vertical_blank(&self) -> (r: bool)
        ensures
            r == (self.bits & Self::VERTICAL_BLANK != 0),
    {
        self.bits & Self::VERTICAL_BLANK != 0
    }

    pub fn set_vertical_blank(&mut self, v_blank: bool)
        ensures
            final(self).bits == (if v_blank { old(self).bits | Self::VERTICAL_BLANK } else { old(self).bits & !Self::VERTICAL_BLANK }),
    {
        self.set(Self::VERTICAL_BLANK, v_blank);
    }

    /// Every bit has a meaning, so any byte is a valid value.
    pub fn update(&mut self, data: u8)
        ensures
            final(self).bits == data,
    {
        self.bits = data;
    }
}

impl Default for StatusRegister {
    fn default() -> (r: Self)
        ensures
            r.bits == 0,
    {
        Self::new()
    }
}

} // verus!
