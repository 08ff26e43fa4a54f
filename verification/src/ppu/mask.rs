use vstd::prelude::*;

verus! {

// 7  bit  0
// ---- ----
// BGRs bMmG
// |||| ||||
// |||| |||+- Greyscale (0: normal color, 1: produce a greyscale display)
// |||| ||+-- 1: Show background in leftmost 8 pixels of screen, 0: Hide
// |||| |+--- 1: Show sprites in leftmost 8 pixels of screen, 0: Hide
// |||| +---- 1: Show background
// |||+------ 1: Show sprites
// ||+------- Emphasize red (green on PAL/Dendy)
// |+-------- Emphasize green (red on PAL/Dendy)
// +--------- Emphasize blue
/// PPUMASK.
#[derive(Debug, Clone, Copy)]
pub struct MaskRegister {
    pub bits: u8,
}

impl MaskRegister {
    pub const GREYSCALE: u8 = 0b0000_0001;
    pub const BACKGROUND_LEFT: u8 = 0b0000_0010;
    pub const SPRITES_LEFT: u8 = 0b0000_0100;
    pub const BACKGROUND: u8 = 0b0000_1000;
    pub const SPRITES: u8 = 0b0001_0000;
    pub const RED: u8 = 0b0010_0000;
    pub const GREEN: u8 = 0b0100_0000;
    pub const BLUE: u8 = 0b1000_0000;

    pub fn new() -> (r: Self)
        ensures
            r.bits == 0,
    {
        MaskRegister { bits: 0 }
    }

    pub fn bits(&self) -> (r: u8)
        ensures
            r == self.bits,
    {
        self.bits
    }

    /// Whether every bit of `flags` is set.
    pub fn contains(&self, flags: u8) -> (r: bool)
        ensures
            r == (self.bits & flags == flags),
    {
        self.bits & flags == flags
    }

    /// Sets the bits of `flags`.
    pub fn insert(&mut self, flags: u8)
        ensures
            final(self).bits == old(self).bits | flags,
    {
        self.bits = self.bits | flags;
    }

    /// Clears the bits of `flags`.
    pub fn remove(&mut self, flags: u8)
        ensures
            final(self).bits == old(self).bits & !flags,
    {
        self.bits = self.bits & !flags;
    }

    /// Every bit has a meaning, so any byte is a valid value.
    pub fn update(&mut self, data: u8)
        ensures
            final(self).bits == data,
    {
        self.bits = data;
    }

    pub fn is_grayscale(&self) -> (r: bool)
        ensures
            r == (self.bits & Self::GREYSCALE != 0),
    {
        let b = self.bits;
        assert((b & 1u8 == 1u8) == (b & 1u8 != 0)) by {
            crate::bits::lemma_u8_bits(b);
        }
        self.contains(Self::GREYSCALE)
    }

    pub fn show_sprites_left(&self) -> (r: bool)
        ensures
            r == (self.bits & Self::SPRITES_LEFT != 0),
    {
        let b = self.bits;
        assert((b & 4u8 == 4u8) == (b & 4u8 != 0)) by {
            crate::bits::lemma_u8_bits(b);
        }
        self.contains(Self::SPRITES_LEFT)
    }

    pub fn show_background(&self) -> (r: bool)
        ensures
            r == (self.bits & Self::BACKGROUND != 0),
    {
        let b = self.bits;
        assert((b & 8u8 == 8u8) == (b & 8u8 != 0)) by {
            crate::bits::lemma_u8_bits(b);
        }
        self.contains(Self::BACKGROUND)
    }

    pub fn show_background_left(&self) -> (r: bool)
        ensures
            r == (self.bits & Self::BACKGROUND_LEFT != 0),
    {
        let b = self.bits;
        assert((b & 2u8 == 2u8) == (b & 2u8 != 0)) by {
            crate::bits::lemma_u8_bits(b);
        }
        self.contains(Self::BACKGROUND_LEFT)
    }

    pub fn show_sprites(&self) -> (r: bool)
        ensures
            r == (self.bits & Self::SPRITES != 0),
    {
        let b = self.bits;
        assert((b & 16u8 == 16u8) == (b & 16u8 != 0)) by {
            crate::bits::lemma_u8_bits(b);
        }
        self.contains(Self::SPRITES)
    }

    /// The three emphasis bits (blue, green, red) as a number in 0..8.
    pub fn get_emphasis_index(&self) -> (r: u8)
        ensures
            r == self.bits / 32,
            r < 8,
    {
        let b = self.bits;
        assert(b >> 5u8 == b / 32) by {
            crate::bits::lemma_u8_bits(b);
        }
        self.bits >> 5u8
    }
}

impl Default for MaskRegister {
    fn default() -> (r: Self)
        ensures
            r.bits == 0,
    {
        Self::new()
    }
}

} // verus!
