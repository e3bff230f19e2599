//! Bit-field view over a 32-bit register word.
//!
//! A hardware register is a fixed-width unsigned integer whose meaning is
//! carried by named bit ranges. A field is the inclusive range `[lo, hi]` of
//! bit positions; reading extracts exactly those bits, shifted down, and
//! writing replaces exactly those bits, leaving the rest of the word intact.
//! Values wider than the field are truncated by the mask, as the hardware
//! itself would truncate them.

use vstd::prelude::*;

verus! {

/// The mask with exactly the low `width` bits set, for widths up to a whole
/// 32-bit word.
pub open spec fn low_mask_spec(width: u32) -> u32
    recommends
        1 <= width <= 32,
{
    0xffff_ffffu32 >> ((32 - width) as u32)
}

/// The value of the field occupying bits `lo..=hi` of `raw`: those bits,
/// shifted down to position zero.
pub open spec fn read_field_spec(raw: u32, lo: u32, hi: u32) -> u32
    recommends
        lo <= hi < 32,
{
    (raw >> lo) & low_mask_spec((hi - lo + 1) as u32)
}

/// The word `raw` with bits `lo..=hi` replaced by the low bits of `value`:
/// the field's bits are cleared, then the value, truncated to the field's
/// width, is shifted into place. All other bits keep their old contents.
pub open spec fn write_field_spec(raw: u32, lo: u32, hi: u32, value: u32) -> u32
    recommends
        lo <= hi < 32,
{
    let m = low_mask_spec((hi - lo + 1) as u32);
    (raw & !(m << lo)) | ((value & m) << lo)
}

/// Computes the mask with the low `width` bits set.
pub fn low_mask(width: u32) -> (r: u32)
    requires
        1 <= width <= 32,
    ensures
        r == low_mask_spec(width),
{
    0xffff_ffffu32 >> (32 - width)
}

/// Extracts the field occupying bits `lo..=hi` of `raw`.
pub fn read_field(raw: u32, lo: u32, hi: u32) -> (r: u32)
    requires
        lo <= hi < 32,
    ensures
        r == read_field_spec(raw, lo, hi),
{
    (raw >> lo) & low_mask(hi - lo + 1)
}

/// Returns `raw` with bits `lo..=hi` replaced by the low bits of `value`.
pub fn write_field(raw: u32, lo: u32, hi: u32, value: u32) -> (r: u32)
    requires
        lo <= hi < 32,
    ensures
        r == write_field_spec(raw, lo, hi, value),
{
    let m = low_mask(hi - lo + 1);
    (raw & !(m << lo)) | ((value & m) << lo)
}

/// A field read never exceeds the field's mask.
pub proof fn lemma_read_field_bounded(raw: u32, lo: u32, hi: u32)
    requires
        lo <= hi < 32,
    ensures
        read_field_spec(raw, lo, hi) <= low_mask_spec((hi - lo + 1) as u32),
{
    let m: u32 = low_mask_spec((hi - lo + 1) as u32);
    assert((raw >> lo) & m <= m) by (bit_vector);
}

/// Every field of the all-zero word reads as zero.
pub proof fn lemma_read_zero(lo: u32, hi: u32)
    requires
        lo <= hi < 32,
    ensures
        read_field_spec(0u32, lo, hi) == 0u32,
{
    let m: u32 = low_mask_spec((hi - lo + 1) as u32);
    assert((0u32 >> lo) & m == 0u32) by (bit_vector);
}

/// Round trip: writing `value` to the field `lo..=hi` and reading the same
/// field back yields `value` truncated to the field's width. In particular a
/// value that fits the field comes back unchanged.
pub proof fn lemma_field_round_trip(raw: u32, lo: u32, hi: u32, value: u32)
    requires
        lo <= hi < 32,
    ensures
        read_field_spec(write_field_spec(raw, lo, hi, value), lo, hi) == value & low_mask_spec(
            (hi - lo + 1) as u32,
        ),
{
    let w: u32 = (hi - lo + 1) as u32;
    let s: u32 = (32 - w) as u32;
    let m: u32 = low_mask_spec(w);
    assert((((raw & !(m << lo)) | ((value & m) << lo)) >> lo) & m == value & m) by (bit_vector)
        requires
            lo <= hi,
            hi < 32u32,
            s + hi == lo + 31,
            m == 0xffff_ffffu32 >> s,
    ;
}

/// Isolation: writing one field never alters what any disjoint field holds.
pub proof fn lemma_write_preserves_disjoint(
    raw: u32,
    lo_a: u32,
    hi_a: u32,
    lo_b: u32,
    hi_b: u32,
    value: u32,
)
    requires
        lo_a <= hi_a < 32,
        lo_b <= hi_b < 32,
        hi_a < lo_b || hi_b < lo_a,
    ensures
        read_field_spec(write_field_spec(raw, lo_a, hi_a, value), lo_b, hi_b) == read_field_spec(
            raw,
            lo_b,
            hi_b,
        ),
{
    let sa: u32 = (31 - hi_a + lo_a) as u32;
    let ma: u32 = low_mask_spec((hi_a - lo_a + 1) as u32);
    let sb: u32 = (31 - hi_b + lo_b) as u32;
    let mb: u32 = low_mask_spec((hi_b - lo_b + 1) as u32);
    assert((((raw & !(ma << lo_a)) | ((value & ma) << lo_a)) >> lo_b) & mb == (raw >> lo_b)
        & mb) by (bit_vector)
        requires
            lo_a <= hi_a,
            hi_a < 32u32,
            lo_b <= hi_b,
            hi_b < 32u32,
            hi_a < lo_b || hi_b < lo_a,
            sa + hi_a == lo_a + 31,
            ma == 0xffff_ffffu32 >> sa,
            sb + hi_b == lo_b + 31,
            mb == 0xffff_ffffu32 >> sb,
    ;
}

} // verus!
