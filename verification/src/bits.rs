//! Small bit-level facts about masking and shifting that the rest of the
//! crate needs for bounds reasoning on addresses and register bytes.

use vstd::prelude::*;

verus! {

/// Masking with `m` never exceeds `m`.
pub proof fn lemma_u16_and_le(x: u16, m: u16)
    ensures
        (x & m) <= m,
{
    assert((x & m) <= m) by (bit_vector);
}

/// Masking with `m` never exceeds `m`.
pub proof fn lemma_u8_and_le(x: u8, m: u8)
    ensures
        (x & m) <= m,
{
    assert((x & m) <= m) by (bit_vector);
}

/// Masking with `m` never exceeds `m`.
pub proof fn lemma_u32_and_le(x: u32, m: u32)
    ensures
        (x & m) <= m,
{
    assert((x & m) <= m) by (bit_vector);
}

/// Masking with `m` never exceeds `m`.
pub proof fn lemma_u64_and_le(x: u64, m: u64)
    ensures
        (x & m) <= m,
{
    assert((x & m) <= m) by (bit_vector);
}

/// Masking twice with the same mask changes nothing.
pub proof fn lemma_u16_and_mask_idem(x: u16, m: u16)
    ensures
        (x & m) & m == x & m,
{
    assert((x & m) & m == x & m) by (bit_vector);
}

/// A value below 256 written into the low byte survives truncation to `u8`.
pub proof fn lemma_u16_low_byte(x: u16)
    ensures
        ((x & 0xff) as u8) as u16 == x & 0xff,
{
    assert(((x & 0xff) as u8) as u16 == x & 0xff) by (bit_vector);
}

/// The four low-RAM mirrors of an address share one canonical slot.
pub proof fn lemma_u16_ram_mirror(x: u16)
    requires
        x < 0x2000,
    ensures
        (x & 0x7ff) & 0x7ff == x & 0x7ff,
        ((x & 0x7ff) as u16) & 0xe000 == 0,
{
    assert((x & 0x7ff) & 0x7ff == x & 0x7ff) by (bit_vector);
    assert(x < 0x2000 ==> ((x & 0x7ff) as u16) & 0xe000 == 0) by (bit_vector);
}

/// A bitwise or never exceeds the sum of its operands.
pub proof fn lemma_u32_or_le_sum(x: u32, y: u32)
    requires
        x + y <= u32::MAX,
    ensures
        (x | y) <= x + y,
{
    assert(x + y <= u32::MAX ==> (x | y) <= x + y) by (bit_vector);
}

/// A bitwise or never exceeds the sum of its operands.
pub proof fn lemma_u8_or_le_sum(x: u8, y: u8)
    requires
        x + y <= u8::MAX,
    ensures
        (x | y) <= x + y,
{
    assert(x + y <= 255 ==> (x | y) <= x + y) by (bit_vector);
}

/// Setting or clearing the sprite-overflow bit leaves the vblank and
/// sprite-zero-hit bits of the status byte alone.
pub proof fn lemma_u8_bit5_keeps_high(x: u8)
    ensures
        (x | 0x20) & 0x80 == x & 0x80,
        (x & 0xdf) & 0x80 == x & 0x80,
        (x | 0x20) & 0x40 == x & 0x40,
        (x & 0xdf) & 0x40 == x & 0x40,
{
    assert(((x | 0x20) & 0x80 == x & 0x80) && ((x & 0xdf) & 0x80 == x & 0x80) && ((x | 0x20)
        & 0x40 == x & 0x40) && ((x & 0xdf) & 0x40 == x & 0x40)) by (bit_vector);
}

/// Entering vertical blank forces the vblank bit on; completing a frame
/// forces it off.
pub proof fn lemma_u8_status_bits(x: u8)
    ensures
        ((x & 0x1f) | 0x80) & 0x80 == 0x80,
        (x & 0x7f) & 0x80 == 0,
{
    assert(((x & 0x1f) | 0x80) & 0x80 == 0x80 && (x & 0x7f) & 0x80 == 0) by (bit_vector);
}

/// Setting the sprite-zero-hit bit leaves the vblank bit alone.
pub proof fn lemma_u8_bit6_keeps_high(x: u8)
    ensures
        (x | 0x40) & 0x80 == x & 0x80,
{
    assert((x | 0x40) & 0x80 == x & 0x80) by (bit_vector);
}

/// Both show bits are clear exactly when neither the background nor the
/// sprite layer is enabled.
pub proof fn lemma_u8_render_disabled(x: u8)
    ensures
        x & 0x18 == 0 <==> (x & 0x08 != 0x08 && x & 0x10 != 0x10),
{
    assert(x & 0x18 == 0 <==> (x & 0x08 != 0x08 && x & 0x10 != 0x10)) by (bit_vector);
}

/// Which byte of an RGB triple each of three consecutive offsets selects.
pub proof fn lemma_rgb_offsets(x: int)
    requires
        x >= 0,
    ensures
        (3 * x) % 3 == 0,
        (3 * x + 1) % 3 == 1,
        (3 * x + 2) % 3 == 2,
{
    assert((3 * x) % 3 == 0 && (3 * x + 1) % 3 == 1 && (3 * x + 2) % 3 == 2) by (nonlinear_arith)
        requires
            x >= 0,
    ;
}

/// Shifting right never grows a value.
pub proof fn lemma_u32_shr_le(x: u32, s: u32)
    requires
        s < 32,
    ensures
        (x >> s) <= x,
{
    assert(s < 32 ==> (x >> s) <= x) by (bit_vector);
}

/// Bounds for the small left shifts used when packing scroll and address
/// buffer bits.
pub proof fn lemma_u32_shl_bounds(x: u32)
    ensures
        x <= 0xff ==> (x << 2) <= 0x3fc,
        x <= 0xf8 ==> (x << 2) <= 0x3e0,
        x <= 0x3f ==> (x << 8) <= 0x3f00,
        x <= 0x03 ==> (x << 10) <= 0xc00,
        x <= 0x07 ==> (x << 12) <= 0x7000,
        x <= 0xff ==> (x << 4) <= 0xff0,
        x <= 0xff ==> (x << 8) <= 0xff00,
        x <= 0xff ==> (x >> 3) <= 0x1f,
        x <= 0x10 ==> (x << 8) <= 0x1000,
        x <= 0x08 ==> (x << 9) <= 0x1000,
        x <= 0x08 ==> (x << 1) <= 0x10,
        x <= 0x01 ==> (x << 12) <= 0x1000,
    {
    assert((x <= 0xff ==> (x << 2) <= 0x3fc) && (x <= 0xf8 ==> (x << 2) <= 0x3e0) && (x <= 0x3f
        ==> (x << 8) <= 0x3f00) && (x <= 0x03 ==> (x << 10) <= 0xc00) && (x <= 0x07 ==> (x << 12)
        <= 0x7000) && (x <= 0xff ==> (x << 4) <= 0xff0) && (x <= 0xff ==> (x << 8) <= 0xff00) && (
    x <= 0xff ==> (x >> 3) <= 0x1f) && (x <= 0x10 ==> (x << 8) <= 0x1000) && (x <= 0x08 ==> (x
        << 9) <= 0x1000) && (x <= 0x08 ==> (x << 1) <= 0x10) && (x <= 0x01 ==> (x << 12)
        <= 0x1000)) by (bit_vector);
}

/// Stepping the fine-Y bits of a render address by one row keeps it a
/// 16-bit value.
pub proof fn lemma_u32_fine_y_step(x: u32)
    requires
        x <= 0xffff,
        x & 0x7000 != 0x7000,
    ensures
        x + 0x1000 <= 0xffff,
{
    assert(x <= 0xffff && x & 0x7000 != 0x7000 ==> x + 0x1000 <= 0xffff) by (bit_vector);
}

/// A masked picture-unit address selects one of the sixteen 1 KB pages.
pub proof fn lemma_u32_vram_page(x: u32)
    ensures
        ((x & 0x3fff) >> 10) < 16,
        ((x & 0x3fff) & 0x3ff) < 0x400,
{
    assert(((x & 0x3fff) >> 10) < 16 && ((x & 0x3fff) & 0x3ff) < 0x400) by (bit_vector);
}

} // verus!
