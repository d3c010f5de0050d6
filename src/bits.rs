use vstd::prelude::*;

verus! {

/// Bit `b` of the word `w`.
pub open spec fn bit(w: u32, b: u32) -> bool {
    (w >> b) & 1u32 == 1u32
}

/// The word `w` with bit `b` forced to `v`, every other bit kept.
pub open spec fn with_bit_spec(w: u32, b: u32, v: bool) -> u32 {
    if v {
        w | (1u32 << b)
    } else {
        w & !(1u32 << b)
    }
}

/// The word `w` with the field selected by `mask` replaced by the same bits of `v`.
pub open spec fn with_field_spec(w: u32, mask: u32, v: u32) -> u32 {
    (w & !mask) | (v & mask)
}

/// The word `w` with every bit of `mask` forced to `v`, every other bit kept.
pub open spec fn with_mask_spec(w: u32, mask: u32, v: bool) -> u32 {
    if v {
        w | mask
    } else {
        w & !mask
    }
}

/// `w` with the bits of `mask` forced to `v`.
pub fn with_mask(w: u32, mask: u32, v: bool) -> (r: u32)
    ensures
        r == with_mask_spec(w, mask, v),
{
    if v {
        w | mask
    } else {
        w & !mask
    }
}

/// `w` with bit `b` forced to `v`.
pub fn with_bit(w: u32, b: u32, v: bool) -> (r: u32)
    requires
        b < 32,
    ensures
        r == with_bit_spec(w, b, v),
{
    if v {
        w | (1u32 << b)
    } else {
        w & !(1u32 << b)
    }
}

/// `w` with the field under `mask` replaced by `v`.
pub fn with_field(w: u32, mask: u32, v: u32) -> (r: u32)
    ensures
        r == with_field_spec(w, mask, v),
{
    (w & !mask) | (v & mask)
}

/// Forcing one bit changes that bit alone.
pub proof fn lemma_with_bit(w: u32, b: u32, v: bool, c: u32)
    requires
        b < 32,
        c < 32,
    ensures
        bit(with_bit_spec(w, b, v), c) == if c == b { v } else { bit(w, c) },
{
    if v {
        assert((((w | (1u32 << b)) >> c) & 1u32 == 1u32) == (c == b || (w >> c) & 1u32 == 1u32))
            by (bit_vector)
            requires
                b < 32,
                c < 32,
        ;
    } else {
        assert((((w & !(1u32 << b)) >> c) & 1u32 == 1u32) == (c != b && (w >> c) & 1u32 == 1u32))
            by (bit_vector)
            requires
                b < 32,
                c < 32,
        ;
    }
}

/// Forcing the bits of a mask to the value they were just forced to changes
/// nothing.
pub proof fn lemma_with_mask_idempotent(w: u32, m: u32, v: bool)
    ensures
        with_mask_spec(with_mask_spec(w, m, v), m, v) == with_mask_spec(w, m, v),
{
    assert((w | m) | m == w | m) by (bit_vector);
    assert((w & !m) & !m == w & !m) by (bit_vector);
}

/// Clearing the bits of a mask clears those bits alone.
pub proof fn lemma_clear_mask(w: u32, m: u32, c: u32)
    requires
        c < 32,
    ensures
        bit(w & !m, c) == (!bit(m, c) && bit(w, c)),
{
    assert((((w & !m) >> c) & 1u32 == 1u32) == (!((m >> c) & 1u32 == 1u32) && (w >> c) & 1u32
        == 1u32)) by (bit_vector)
        requires
            c < 32,
    ;
}

/// No bit of zero is set.
pub proof fn lemma_zero_has_no_bits(c: u32)
    requires
        c < 32,
    ensures
        !bit(0, c),
{
    assert(!((0u32 >> c) & 1u32 == 1u32)) by (bit_vector);
}

/// A field written with `v` reads back the bits of `v` under its mask.
pub proof fn lemma_field_read(w: u32, mask: u32, v: u32)
    ensures
        with_field_spec(w, mask, v) & mask == v & mask,
{
    assert(((w & !mask) | (v & mask)) & mask == v & mask) by (bit_vector);
}

/// A value of at most four bits is its own priority field.
pub proof fn lemma_priority_fits(v: u32)
    requires
        v <= 0xf,
    ensures
        v & 0xf == v,
{
    assert(v <= 0xf ==> v & 0xf == v) by (bit_vector);
}

/// A value that fits a field's mask is kept whole by it.
pub proof fn lemma_fits_mask(v: u32, mask: u32)
    requires
        v <= mask,
        mask == 0xfffff || mask == 0x3f,
    ensures
        v & mask == v,
{
    assert(v <= mask && (mask == 0xfffff || mask == 0x3f) ==> v & mask == v) by (bit_vector);
}

} // verus!
