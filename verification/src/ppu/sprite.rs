use vstd::prelude::*;

verus! {

/// One sprite of object attribute memory: y, tile index, attributes, x.
#[derive(Debug, Copy, Clone)]
pub struct Sprite {
    pub y_pos: u8,
    pub pattern_index: u8,
    pub attributes: u8,
    pub x_pos: u8,
    pub sprite_zero: bool,
    /// whether this sprite is the upper half in 8x16 mode
    pub upper_half: bool,
}

impl Sprite {
    /// The sprite whose four OAM bytes start `raw`; `None` when `raw` is shorter than four bytes.
    pub fn new(raw: &[u8], sprite_zero: bool, upper_half: bool) -> (r: Option<Self>)
        ensures
            raw@.len() < 4 ==> r is None,
            raw@.len() >= 4 ==> r == Some(Sprite {
                y_pos: raw@[0],
                pattern_index: raw@[1],
                attributes: raw@[2],
                x_pos: raw@[3],
                sprite_zero,
                upper_half,
            }),
    {
        if raw.len() < 4 {
            None
        } else {
            Some(
                Sprite {
                    y_pos: raw[0],
                    pattern_index: raw[1],
                    attributes: raw[2],
                    x_pos: raw[3],
                    sprite_zero,
                    upper_half,
                },
            )
        }
    }

    pub fn get_x(&self) -> (r: usize)
        ensures
            r == self.x_pos,
    {
        self.x_pos as usize
    }

    pub fn get_y(&self) -> (r: usize)
        ensures
            r == self.y_pos,
    {
        self.y_pos as usize
    }

    pub fn get_pattern_index(&self) -> (r: usize)
        ensures
            r == self.pattern_index,
    {
        self.pattern_index as usize
    }

    /// Attribute bit 6.
    pub fn is_horizontal_flip(&self) -> (r: bool)
        ensures
            r == ((self.attributes / 64) % 2 == 1),
    {
        let a = self.attributes;
        assert(((a >> 6u8) & 1u8 == 1u8) == ((a / 64) % 2 == 1)) by {
            crate::bits::lemma_u8_bits(a);
        }
        (self.attributes >> 6u8) & 1 == 1
    }

    /// Attribute bit 7.
    pub fn is_vertical_flip(&self) -> (r: bool)
        ensures
            r == (self.attributes >= 128),
    {
        let a = self.attributes;
        assert((a >> 7u8 == 1u8) == (a >= 128)) by {
            crate::bits::lemma_u8_bits(a);
        }
        self.attributes >> 7u8 == 1
    }

    /// Attribute bit 5 clear: the sprite is in front of the background.
    pub fn draw_over_background(&self) -> (r: bool)
        ensures
            r == ((self.attributes / 32) % 2 == 0),
    {
        let a = self.attributes;
        assert(((a >> 5u8) & 1u8 != 1u8) == ((a / 32) % 2 == 0)) by {
            crate::bits::lemma_u8_bits(a);
        }
        (self.attributes >> 5u8) & 1 != 1
    }

    /// Attribute bits 0..1.
    pub fn get_palette_index(&self) -> (r: usize)
        ensures
            r == self.attributes % 4,
    {
        let a = self.attributes;
        assert(a & 0b11u8 == a % 4) by {
            crate::bits::lemma_u8_bits(a);
        }
        (self.attributes & 0b11) as usize
    }

    pub fn is_sprite_zero(&self) -> (r: bool)
        ensures
            r == self.sprite_zero,
    {
        self.sprite_zero
    }

    pub fn is_upper_half(&self) -> (r: bool)
        ensures
            r == self.upper_half,
    {
        self.upper_half
    }

    /// The four OAM bytes of the sprite.
    pub fn get_raw_data(&self) -> (r: [u8; 4])
        ensures
            r@ == seq![self.y_pos, self.pattern_index, self.attributes, self.x_pos],
    {
        [self.y_pos, self.pattern_index, self.attributes, self.x_pos]
    }

    pub fn set_y(&mut self, y_pos: u8)
        ensures
            *final(self) == (Sprite { y_pos, ..*old(self) }),
    {
        self.y_pos = y_pos;
    }
}

impl Default for Sprite {
    fn default() -> (r: Self)
        ensures
            r == (Sprite { y_pos: 0, pattern_index: 0, attributes: 0, x_pos: 0, sprite_zero: false, upper_half: false }),
    {
        Sprite { y_pos: 0, pattern_index: 0, attributes: 0, x_pos: 0, sprite_zero: false, upper_half: false }
    }
}

} // verus!
