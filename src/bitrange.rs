//! Extraction of an inclusive range of bits from a 32-bit word.
use vstd::prelude::*;

verus! {

/// The mask of the `width` lowest bits of a 32-bit word, for `1 <= width <= 32`.
pub open spec fn low_mask(width: u32) -> u32 {
    0xffff_ffffu32 >> ((32 - width) as u32)
}

/// The bits `low..=high` of `value` (bit 0 is the least significant one),
/// moved down so that bit `low` becomes bit 0 of the result.
pub open spec fn field(value: u32, low: u32, high: u32) -> u32 {
    (value >> low) & low_mask((high - low + 1) as u32)
}

/// A range of bit indices that lies within a 32-bit word.
pub open spec fn valid_range(low: u32, high: u32) -> bool {
    low <= high < 32
}

proof fn lemma_field_fits(value: u32, low: u32, high: u32)
    requires
        valid_range(low, high),
    ensures
        high - low < 8 ==> field(value, low, high) < 0x100,
        high - low < 16 ==> field(value, low, high) < 0x1_0000,
{
    let d: u32 = (high - low) as u32;
    let v: u32 = value >> low;
    assert(d < 32 ==> (d < 8 ==> (v & (0xffff_ffffu32 >> ((31 - d) as u32))) < 0x100)) by (bit_vector);
    assert(d < 32 ==> (d < 16 ==> (v & (0xffff_ffffu32 >> ((31 - d) as u32))) < 0x1_0000)) by (bit_vector);
}

/// Bits `low..=high` of `value`, for a range of at most 8 bits.
pub fn range_u8(value: u32, low: u32, high: u32) -> (r: u8)
    requires
        valid_range(low, high),
        high - low < 8,
    ensures
        r as u32 == field(value, low, high),
{
    proof {
        lemma_field_fits(value, low, high);
    }
    (range_u32(value, low, high)) as u8
}

/// Bits `low..=high` of `value`, for a range of at most 16 bits.
pub fn range_u16(value: u32, low: u32, high: u32) -> (r: u16)
    requires
        valid_range(low, high),
        high - low < 16,
    ensures
        r as u32 == field(value, low, high),
{
    proof {
        lemma_field_fits(value, low, high);
    }
    (range_u32(value, low, high)) as u16
}

/// Bits `low..=high` of `value`, for any range within the word.
pub fn range_u32(value: u32, low: u32, high: u32) -> (r: u32)
    requires
        valid_range(low, high),
    ensures
        r == field(value, low, high),
{
    let mask: u32 = 0xffff_ffffu32 >> (31 - (high - low));
    (value >> low) & mask
}

/// The range `0..=31` extracts the whole word.
pub proof fn lemma_full_range(value: u32)
    ensures
        field(value, 0, 31) == value,
{
    assert((value >> 0u32) & (0xffff_ffffu32 >> 0u32) == value) by (bit_vector);
}

/// A range of one bit (`low == high`) extracts 0 or 1.
pub proof fn lemma_single_bit(value: u32, bit: u32)
    requires
        bit < 32,
    ensures
        field(value, bit, bit) <= 1,
{
    let v: u32 = value >> bit;
    assert(v & (0xffff_ffffu32 >> 31u32) <= 1) by (bit_vector);
}

/// Putting an extracted field back at its place, with every other bit of
/// the word kept as it was, gives the word back.
pub proof fn lemma_field_round_trip(value: u32, low: u32, high: u32)
    requires
        valid_range(low, high),
    ensures
        (value & !(low_mask((high - low + 1) as u32) << low)) | (field(value, low, high) << low)
            == value,
{
    let d: u32 = (high - low) as u32;
    assert(low <= 31 && d <= 31 - low ==> (value & !((0xffff_ffffu32 >> ((31 - d) as u32)) << low))
        | (((value >> low) & (0xffff_ffffu32 >> ((31 - d) as u32))) << low) == value) by (bit_vector);
}

} // verus!
