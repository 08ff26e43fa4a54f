use vstd::prelude::*;

verus! {

/// Facts about the bits of a byte that the register and instruction code relies on.
pub proof fn lemma_u8_bits(b: u8)
    by (bit_vector)
    ensures
        (b & 1u8 == 1u8) == (b & 1u8 != 0),
        (b & 2u8 == 2u8) == (b & 2u8 != 0),
        (b & 4u8 == 4u8) == (b & 4u8 != 0),
        (b & 8u8 == 8u8) == (b & 8u8 != 0),
        (b & 16u8 == 16u8) == (b & 16u8 != 0),
        (b & 32u8 == 32u8) == (b & 32u8 != 0),
        (b & 64u8 == 64u8) == (b & 64u8 != 0),
        (b & 128u8 == 128u8) == (b & 128u8 != 0),
        (b & 1u8 == 1u8) == (b % 2 == 1),
        (b & 2u8 == 2u8) == (b % 4 >= 2),
        ((b >> 6u8) & 1u8 == 1u8) == ((b / 64) % 2 == 1),
        (b >> 7u8 == 1u8) == (b >= 128),
        ((b >> 5u8) & 1u8 != 1u8) == ((b / 32) % 2 == 0),
        b & 0b11u8 == b % 4,
        b >> 5u8 == b / 32,
        (b & 0b1000_0000u8 != 0) == (b >= 128),
        (0b1000_0000u8 & b != 0) == (b & 0b1000_0000u8 != 0),
        (b & 0xC0u8) >> 6u8 < 4,
        b & 7u8 < 16,
        (b & 0x70u8) >> 4u8 < 255,
        b >> 3u8 < 32,
        b & 0xFu8 < 16,
        b & 1u8 <= 1,
        b >> 1u8 <= 127,
        (b & 0xFu8) <= 0xF,
        ((b & 0xFu8) & 0xEu8) <= 0xF,
        b >> 0u8 == b,
        b & 3u8 == (b >> 0u8) & 3u8,
        b & 3u8 < 4,
        (b >> 2u8) & 3u8 < 4,
        (b >> 4u8) & 3u8 < 4,
        (b >> 6u8) & 3u8 < 4,
        b & 0x30u8 < 64,
{
}

/// The bits of a byte read as arithmetic: register fields, complement, shifts and rotations.
pub proof fn lemma_u8_arith_bits(b: u8)
    by (bit_vector)
    ensures
        (b & 0xCu8) >> 2u8 == (b / 4) % 4,
        b & 0xFu8 == b % 16,
        (b >> 1u8) | 0u8 == b / 2,
        b >> 1u8 == b / 2,
        !b == (255 - b) as u8,
        (b >> 1u8) | 0b1000_0000u8 == (b / 2 + 128) as u8,
        (b & 0xFu8) & 0xEu8 == ((b % 16) / 2 + (b % 16) / 2) as u8,
        b < 128 ==> b << 1u8 == (b + b) as u8,
        b >= 128 ==> b << 1u8 == (b + b - 256) as u8,
        b < 128 ==> (b << 1u8) | 1u8 == (b + b + 1) as u8,
        b >= 128 ==> (b << 1u8) | 1u8 == (b + b - 255) as u8,
        (b << 1u8) | 0u8 == b << 1u8,
        (b & 1u8 != 0) == (b % 2 == 1),
        (b & 0b1000_0000u8 != 0) == (b >= 128),
        (b & 0b100u8 != 0) == ((b / 4) % 2 == 1),
        (b & 0b10u8 != 0) == ((b / 2) % 2 == 1),
        (b & 0b100_0000u8 != 0) == ((b / 64) % 2 == 1),
        (b >> 0u8) & 3u8 == b % 4,
        (b >> 2u8) & 3u8 == (b / 4) % 4,
        (b >> 4u8) & 3u8 == (b / 16) % 4,
        (b >> 6u8) & 3u8 == (b / 64) % 4,
{
}

/// Bit `k` of the high plane and bit `k` of the low plane, combined into a 2-bit colour index.
pub proof fn lemma_plane_bits(lo: u8, hi: u8)
    by (bit_vector)
    ensures
        (((hi >> 0u8) & 1u8) << 1u8) | ((lo >> 0u8) & 1u8) == ((hi / 1) % 2 + (hi / 1) % 2 + (lo / 1) % 2) as u8,
        (((hi >> 1u8) & 1u8) << 1u8) | ((lo >> 1u8) & 1u8) == ((hi / 2) % 2 + (hi / 2) % 2 + (lo / 2) % 2) as u8,
        (((hi >> 2u8) & 1u8) << 1u8) | ((lo >> 2u8) & 1u8) == ((hi / 4) % 2 + (hi / 4) % 2 + (lo / 4) % 2) as u8,
        (((hi >> 3u8) & 1u8) << 1u8) | ((lo >> 3u8) & 1u8) == ((hi / 8) % 2 + (hi / 8) % 2 + (lo / 8) % 2) as u8,
        (((hi >> 4u8) & 1u8) << 1u8) | ((lo >> 4u8) & 1u8) == ((hi / 16) % 2 + (hi / 16) % 2 + (lo / 16) % 2) as u8,
        (((hi >> 5u8) & 1u8) << 1u8) | ((lo >> 5u8) & 1u8) == ((hi / 32) % 2 + (hi / 32) % 2 + (lo / 32) % 2) as u8,
        (((hi >> 6u8) & 1u8) << 1u8) | ((lo >> 6u8) & 1u8) == ((hi / 64) % 2 + (hi / 64) % 2 + (lo / 64) % 2) as u8,
        (((hi >> 7u8) & 1u8) << 1u8) | ((lo >> 7u8) & 1u8) == ((hi / 128) % 2 + (hi / 128) % 2 + (lo / 128) % 2) as u8,
{
}

/// Setting or clearing a one-bit mask `m` in `b`, read through the mask `m` or through another
/// one-bit mask `g`.
pub proof fn lemma_single_bit_masks(b: u8, m: u8, g: u8)
    by (bit_vector)
    requires
        m == 1 || m == 2 || m == 4 || m == 8 || m == 16 || m == 32 || m == 64 || m == 128,
        g == 1 || g == 2 || g == 4 || g == 8 || g == 16 || g == 32 || g == 64 || g == 128,
    ensures
        (b | m) & m != 0,
        (b & !m) & m == 0,
        m != g ==> (((b | m) & g != 0) == (b & g != 0) && ((b & !m) & g != 0) == (b & g != 0)),
{
}

/// Five serial writes of the bits of `v` into a shift register that starts at 0x10: the marker
/// bit reaches bit 0 only before the fifth write, which completes `v & 0x1F`.
pub proof fn lemma_serial_shift(v: u8)
    by (bit_vector)
    ensures
        (v & 1) & 0x80 == 0,
        ((v >> 1u8) & 1) & 0x80 == 0,
        ((v >> 2u8) & 1) & 0x80 == 0,
        ((v >> 3u8) & 1) & 0x80 == 0,
        ((v >> 4u8) & 1) & 0x80 == 0,
        ({
            let s1 = (0x10u8 >> 1u8) | (((v & 1) & 1) << 4u8);
            let s2 = (s1 >> 1u8) | ((((v >> 1u8) & 1) & 1) << 4u8);
            let s3 = (s2 >> 1u8) | ((((v >> 2u8) & 1) & 1) << 4u8);
            let s4 = (s3 >> 1u8) | ((((v >> 3u8) & 1) & 1) << 4u8);
            &&& 0x10u8 & 1 != 1
            &&& s1 & 1 != 1
            &&& s2 & 1 != 1
            &&& s3 & 1 != 1
            &&& s4 & 1 == 1
            &&& (s4 >> 1u8) | ((((v >> 4u8) & 1) & 1) << 4u8) == v & 0x1F
        }),
{
}

/// Facts about two bytes combined.
pub proof fn lemma_u8_pair_bits(a: u8, c: u8)
    by (bit_vector)
    ensures
        (a | c) & 0x10u8 <= 0x10,
        ((a & 1u8) << 1u8) | (c & 1u8) < 4,
{
}

/// Shifting a byte right one bit at a time, and reading single bits of it.
pub proof fn lemma_u8_shift_bits(t: u8, j: u8)
    by (bit_vector)
    requires
        j < 8,
    ensures
        (t >> j) >> 1u8 == t >> ((j + 1) as u8),
        (t & (1u8 << j)) >> j == (t >> j) & 1,
{
}

/// Facts about the fields of a 15-bit PPU address.
pub proof fn lemma_ppu_addr_bits(d: u16)
    by (bit_vector)
    ensures
        (d > 0x3FFFu16 ==> d & 0b11_1111_1111_1111u16 == d % 0x4000) && (d <= 0x3FFFu16 ==> d == d % 0x4000),
        ((d & 0b111_0000_0000_0000u16) >> 12u16) as int == (d as int / 4096) % 8,
        (d & 0b000_0000_0001_1111u16) as int == d as int % 32,
        ((d & 0b000_0011_1110_0000u16) >> 5u16) as int == (d as int / 32) % 32,
        ((d & 0b1100_0000_0000u16) >> 10u16) as int == (d as int / 1024) % 4,
        0x2000u16 <= d <= 0x2FFFu16 ==> (d & 0x2FFFu16) == d,
{
}

/// The byte after a page's last byte wraps to the page's start; the high byte of an address.
pub proof fn lemma_page_end_bits(d: u16)
    by (bit_vector)
    ensures
        d & 0xFFu16 == 0xFFu16 ==> d & 0xFF00u16 == (d as int / 256 * 256 + (d as int + 1) % 256) as u16,
        ((d >> 8u16) as u8) as int == d as int / 256,
{
}

/// Inside a page, the next address stays on the page.
pub proof fn lemma_page_inner_bits(d: u16)
    by (bit_vector)
    ensures
        d & 0xFFu16 != 0xFFu16 ==> ((d as int + 1) % 0x10000) as u16 == (d as int / 256 * 256 + (d as int + 1) % 256) as u16,
{
}

/// The high and low bytes of an address.
pub proof fn lemma_addr_bytes_bits(d: u16)
    by (bit_vector)
    ensures
        (d >> 8u16) as u8 == (d as int / 256) as u8,
        (d & 0xffu16) as u8 == (d as int % 256) as u8,
{
}

/// Whether two addresses lie on different pages.
pub proof fn lemma_u16_pair_bits(a: u16, b: u16)
    by (bit_vector)
    ensures
        ((a & 0xFF00u16) != (b & 0xFF00u16)) == (a as int / 256 != b as int / 256),
{
}

/// Flipping the vertical name table bit twice restores an address.
pub proof fn lemma_double_flip_bits(d: u16)
    by (bit_vector)
    ensures
        (d ^ 0x0800u16) ^ 0x0800u16 == d,
{
}

/// Flipping the horizontal name table bit of addresses that agree outside coarse y and fine y.
pub proof fn lemma_horizontal_flip_bits(d: u16, e: u16)
    by (bit_vector)
    requires
        e & 0xFC1Fu16 == d & 0xFC1Fu16,
    ensures
        (e ^ 0x0400u16) & 0x8C1Fu16 == (d ^ 0x0400u16) & 0x8C1Fu16,
        (((e ^ 0x0400u16) as int) / 32) % 32 == ((e as int) / 32) % 32,
{
}

/// Addresses that agree outside fine y agree on coarse y and on the other fields.
pub proof fn lemma_fine_y_frame_bits(a: u16, b: u16)
    by (bit_vector)
    requires
        a & 0x8FFFu16 == b & 0x8FFFu16,
    ensures
        a & 0x8C1Fu16 == b & 0x8C1Fu16,
        ((a as int) / 32) % 32 == ((b as int) / 32) % 32,
{
}

} // verus!
