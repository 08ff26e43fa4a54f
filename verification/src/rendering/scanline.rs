use vstd::prelude::*;
use crate::rendering::frame::{Frame, SCREEN_WIDTH, pixel_fits, with_pixel};

verus! {

/// The colour a sprite contributes to a pixel.
#[derive(Debug, Copy, Clone)]
pub struct SpriteColor {
    pub color: (u8, u8, u8),
    pub behind_background: bool,
    pub transparent: bool,
}

/// The colour the background contributes to a pixel.
#[derive(Debug, Copy, Clone)]
pub struct BackgroundColor {
    pub color: (u8, u8, u8),
    pub transparent: bool,
}

/// One pixel of a scanline, before background and sprite are combined.
#[derive(Debug, Copy, Clone)]
pub struct ScanlinePixel {
    pub background_color: BackgroundColor,
    pub sprite_color: SpriteColor,
    pub sprite_zero_opaque: bool,
}

/// A transparent black sprite colour in front of the background.
pub open spec fn no_sprite() -> SpriteColor {
    SpriteColor { color: (0u8, 0u8, 0u8), behind_background: false, transparent: true }
}

/// A pixel that shows nothing yet: transparent black background and sprite.
pub open spec fn empty_pixel() -> ScanlinePixel {
    ScanlinePixel {
        background_color: BackgroundColor { color: (0u8, 0u8, 0u8), transparent: true },
        sprite_color: no_sprite(),
        sprite_zero_opaque: false,
    }
}

impl ScanlinePixel {
    /// The colour the pixel shows: an opaque sprite in front wins; an opaque sprite behind the
    /// background shows only where the background is transparent; otherwise the background.
    pub open spec fn combined(self) -> (u8, u8, u8) {
        if self.sprite_color.transparent {
            self.background_color.color
        } else if !self.sprite_color.behind_background {
            self.sprite_color.color
        } else if self.background_color.transparent {
            self.sprite_color.color
        } else {
            self.background_color.color
        }
    }

    pub fn new() -> (r: ScanlinePixel)
        ensures
            r == empty_pixel(),
    {
        ScanlinePixel {
            background_color: BackgroundColor { color: (0, 0, 0), transparent: true },
            sprite_color: SpriteColor { color: (0, 0, 0), behind_background: false, transparent: true },
            sprite_zero_opaque: false,
        }
    }

    pub fn get_combined_color(&self) -> (r: (u8, u8, u8))
        ensures
            r == self.combined(),
    {
        match (
            self.background_color.transparent,
            self.sprite_color.behind_background,
            self.sprite_color.transparent,
        ) {
            (_, false, false) => self.sprite_color.color,
            (false, true, false) => self.background_color.color,
            (true, true, false) => self.sprite_color.color,
            (_, _, true) => self.background_color.color,
        }
    }
}

impl Default for ScanlinePixel {
    fn default() -> (r: Self)
        ensures
            r == empty_pixel(),
    {
        Self::new()
    }
}

/// The frame data after the first `n` pixels of row `y` were set to `colors`.
pub open spec fn draw_row(data: Seq<u8>, width: usize, y: usize, colors: Seq<(u8, u8, u8)>, n: nat) -> Seq<u8>
    decreases n,
{
    if n == 0 {
        data
    } else {
        with_pixel(draw_row(data, width, y, colors, (n - 1) as nat), width, (n - 1) as usize, y, colors[n - 1])
    }
}

/// One line of the screen: what background and sprites put in each of its 256 pixels.
#[derive(Debug, Clone, Copy)]
pub struct Scanline {
    pub data: [ScanlinePixel; 256],
}

impl Scanline {
    /// The colours the scanline's pixels show.
    pub open spec fn colors(self) -> Seq<(u8, u8, u8)> {
        Seq::new(256, |x: int| self.data@[x].combined())
    }

    pub fn new() -> (r: Scanline)
        ensures
            forall|x: int| 0 <= x < 256 ==> #[trigger] r.data@[x] == empty_pixel(),
    {
        Scanline { data: [ScanlinePixel::new(); 256] }
    }

    /// Writes the combined colours of the 256 pixels into row `y` of `frame`.
    pub fn write_scanline(&self, frame: &mut Frame, y: usize)
        requires
            pixel_fits(old(frame).width, 255, y),
        ensures
            final(frame).width == old(frame).width,
            final(frame).height == old(frame).height,
            final(frame).data@ == draw_row(old(frame).data@, old(frame).width, y, self.colors(), 256),
    {
        let ghost start = frame.data@;
        let mut x: usize = 0;
        while x < SCREEN_WIDTH
            invariant
                x <= 256,
                pixel_fits(frame.width, 255, y),
                frame.width == old(frame).width,
                frame.height == old(frame).height,
                frame.data@ == draw_row(start, frame.width, y, self.colors(), x as nat),
            decreases 256 - x,
        {
            assert(y * 3 * frame.width + x * 3 + 2 <= y * 3 * frame.width + 255 * 3 + 2);
            frame.set_pixel(x, y, self.data[x].get_combined_color());
            x = x + 1;
        }
    }

    /// Removes the sprites: every pixel gets a transparent sprite colour and loses its
    /// sprite-zero mark; the background stays.
    pub fn clear(&mut self)
        ensures
            forall|x: int|
                0 <= x < 256 ==> #[trigger] final(self).data@[x] == (ScanlinePixel {
                    sprite_color: no_sprite(),
                    sprite_zero_opaque: false,
                    ..old(self).data@[x]
                }),
    {
        let mut x: usize = 0;
        while x < SCREEN_WIDTH
            invariant
                x <= 256,
                forall|i: int|
                    0 <= i < 256 ==> #[trigger] self.data@[i] == (if i < x {
                        ScanlinePixel { sprite_color: no_sprite(), sprite_zero_opaque: false, ..old(self).data@[i] }
                    } else {
                        old(self).data@[i]
                    }),
            decreases 256 - x,
        {
            let mut pixel = self.data[x];
            pixel.sprite_color = SpriteColor { color: (0, 0, 0), behind_background: false, transparent: true };
            pixel.sprite_zero_opaque = false;
            self.data[x] = pixel;
            x = x + 1;
        }
    }
}

impl Default for Scanline {
    fn default() -> (r: Self)
        ensures
            forall|x: int| 0 <= x < 256 ==> #[trigger] r.data@[x] == empty_pixel(),
    {
        Self::new()
    }
}

} // verus!
