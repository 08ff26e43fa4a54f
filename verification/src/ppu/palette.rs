use vstd::prelude::*;

verus! {

broadcast use vstd::array::group_array_axioms;

pub const PALETTE_SIZE_E: usize = 64;

/// A palette of 64 black colours.
pub open spec fn black_palette() -> Seq<(u8, u8, u8)> {
    Seq::new(64, |i: int| (0u8, 0u8, 0u8))
}

pub const PALETTE_SIZE_B: usize = 192;

pub const NUMBER_PALETTES: usize = 8;

/// The colour at `color_idx` of palette `palette_idx` in a raw palette file: three bytes r, g, b.
pub open spec fn raw_color(buffer: Seq<u8>, palette_idx: int, color_idx: int) -> (u8, u8, u8) {
    let base = palette_idx * 192 + color_idx * 3;
    (buffer[base], buffer[base + 1], buffer[base + 2])
}

// bgr
// 000 -> normal
// 001 -> red   = 1
// 010 -> green = 2
// 100 -> blue  = 4
// 011 -> green & blue = 3
// 101 -> blue & red   = 5
// 110 -> blue & green = 6
// 111 -> all          = 7
/// The eight 64-colour palettes of the NES, one per combination of the emphasis bits.
#[derive(Clone, Copy)]
pub struct SystemPalette {
    pub palettes: [[(u8, u8, u8); 64]; 8],
}

impl SystemPalette {
    /// Every colour black.
    pub fn zero() -> (r: Self)
        ensures
            forall|p: int, i: int| 0 <= p < 8 && 0 <= i < 64 ==> r.palettes@[p]@[i] == (0u8, 0u8, 0u8),
    {
        SystemPalette { palettes: [[(0u8, 0u8, 0u8); 64]; 8] }
    }

    /// The built-in palette: every colour black until one is loaded with `from_raw`.
    pub fn new() -> (r: Self)
        ensures
            forall|p: int, i: int| 0 <= p < 8 && 0 <= i < 64 ==> r.palettes@[p]@[i] == (0u8, 0u8, 0u8),
    {
        Self::zero()
    }

    /// The same palette for every emphasis combination.
    pub fn from_single_palette(palette: [(u8, u8, u8); 64]) -> (r: Self)
        ensures
            forall|p: int| 0 <= p < 8 ==> r.palettes@[p] == palette,
    {
        SystemPalette { palettes: [palette; 8] }
    }

    /// Reads palettes from a raw file of three bytes per colour, 64 colours per palette. A length
    /// that is not a multiple of a palette's 192 bytes gives `None`; the palettes the buffer does
    /// not cover stay black.
    pub fn from_raw(buffer: &[u8]) -> (r: Option<Self>)
        requires
            buffer@.len() <= PALETTE_SIZE_B * NUMBER_PALETTES,
        ensures
            r is None <==> buffer@.len() % 192 != 0,
            r matches Some(sp) ==> forall|p: int, i: int|
                #![trigger sp.palettes@[p]@[i]]
                0 <= p < 8 && 0 <= i < 64 ==> sp.palettes@[p]@[i] == (if p < buffer@.len() / 192 {
                    raw_color(buffer@, p, i)
                } else {
                    (0u8, 0u8, 0u8)
                }),
    {
        if buffer.len() % PALETTE_SIZE_B != 0 {
            return None;
        }
        let mut system_palette = SystemPalette::zero();
        let count = buffer.len() / PALETTE_SIZE_B;
        assert(count <= 8 && count * 192 <= buffer@.len()) by (nonlinear_arith)
            requires
                count == buffer@.len() / 192,
                buffer@.len() <= 1536,
        ;
        let mut palette_index: usize = 0;
        while palette_index < count
            invariant
                count == buffer@.len() / 192,
                count <= 8,
                count * 192 <= buffer@.len(),
                buffer@.len() <= 1536,
                palette_index <= count,
                forall|p: int, i: int|
                    #![trigger system_palette.palettes@[p]@[i]]
                    0 <= p < 8 && 0 <= i < 64 ==> system_palette.palettes@[p]@[i] == (if p
                        < palette_index {
                        raw_color(buffer@, p, i)
                    } else {
                        (0u8, 0u8, 0u8)
                    }),
            decreases count - palette_index,
        {
            let mut palette = system_palette.palettes[palette_index];
            assert forall|j: int| 0 <= j < 64 implies palette@[j] == (0u8, 0u8, 0u8) by {
                assert(system_palette.palettes@[palette_index as int]@[j] == (0u8, 0u8, 0u8));
            }
            let ghost before = system_palette.palettes@;
            let mut i: usize = 0;
            while i < PALETTE_SIZE_E
                invariant
                    count == buffer@.len() / 192,
                    count <= 8,
                    count * 192 <= buffer@.len(),
                    buffer@.len() <= 1536,
                    palette_index < count,
                    i <= 64,
                    forall|j: int|
                        #![trigger palette@[j]]
                        0 <= j < 64 ==> palette@[j] == (if j < i {
                            raw_color(buffer@, palette_index as int, j)
                        } else {
                            (0u8, 0u8, 0u8)
                        }),
                decreases 64 - i,
            {
                assert(palette_index * 192 + i * 3 + 2 < buffer@.len()) by (nonlinear_arith)
                    requires
                        palette_index < count,
                        count * 192 <= buffer@.len(),
                        i < 64,
                ;
                let base = palette_index * PALETTE_SIZE_B + i * 3;
                palette[i] = (buffer[base], buffer[base + 1], buffer[base + 2]);
                i = i + 1;
            }
            system_palette.palettes[palette_index] = palette;
            assert forall|p: int, j: int| 0 <= p < 8 && 0 <= j < 64 implies system_palette.palettes@[p]@[j]
                == (if p < palette_index + 1 {
                raw_color(buffer@, p, j)
            } else {
                (0u8, 0u8, 0u8)
            }) by {
                if p != palette_index {
                    assert(system_palette.palettes@[p] == before[p]);
                }
            }
            palette_index = palette_index + 1;
        }
        Some(system_palette)
    }

    /// Palette `idx`.
    pub fn get_palette(&self, idx: usize) -> (r: [(u8, u8, u8); 64])
        requires
            idx < 8,
        ensures
            r == self.palettes@[idx as int],
    {
        self.palettes[idx]
    }

    /// Colour `color_idx` of palette `palette_idx`.
    pub fn get_color(&self, palette_idx: usize, color_idx: usize) -> (r: (u8, u8, u8))
        requires
            palette_idx < 8,
            color_idx < 64,
        ensures
            r == self.palettes@[palette_idx as int]@[color_idx as int],
    {
        self.palettes[palette_idx][color_idx]
    }
}

impl Default for SystemPalette {
    fn default() -> (r: Self)
        ensures
            forall|p: int, i: int| 0 <= p < 8 && 0 <= i < 64 ==> r.palettes@[p]@[i] == (0u8, 0u8, 0u8),
    {
        SystemPalette::new()
    }
}

} // verus!
