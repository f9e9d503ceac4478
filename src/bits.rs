//! Bit-level vocabulary shared by the register and GPIO models.

use vstd::prelude::*;

verus! {

/// Whether bit `b` of `x` is set.
pub open spec fn bit_of(x: u16, b: u16) -> bool {
    (x >> b) & 1u16 == 1u16
}

/// The mask with only bit `b` set.
pub open spec fn bit_mask(b: u16) -> u16 {
    1u16 << b
}

/// `x` with every bit of `m` set (`v`) or cleared (`!v`).
pub open spec fn with_bits(x: u16, m: u16, v: bool) -> u16 {
    if v {
        x | m
    } else {
        x & !m
    }
}

/// `x` with the bits of `m` taken from `v` and the others kept.
pub open spec fn merge_bits(x: u16, m: u16, v: u16) -> u16 {
    (x & !m) | (v & m)
}

/// Setting or clearing one bit decides that bit and keeps every other one.
pub proof fn lemma_with_bit(x: u16, b: u16, v: bool)
    requires
        b < 16,
    ensures
        bit_of(with_bits(x, bit_mask(b), v), b) == v,
        forall|c: u16| c < 16 && c != b ==> #[trigger] bit_of(with_bits(x, bit_mask(b), v), c) == bit_of(x, c),
{
    if v {
        assert(((x | (1u16 << b)) >> b) & 1u16 == 1u16) by (bit_vector)
            requires b < 16;
        assert(forall|c: u16| c < 16 && c != b ==> (((x | (1u16 << b)) >> c) & 1u16 == 1u16) == ((x >> c) & 1u16 == 1u16)) by (bit_vector)
            requires b < 16;
    } else {
        assert(((x & !(1u16 << b)) >> b) & 1u16 == 0u16) by (bit_vector)
            requires b < 16;
        assert(forall|c: u16| c < 16 && c != b ==> (((x & !(1u16 << b)) >> c) & 1u16 == 1u16) == ((x >> c) & 1u16 == 1u16)) by (bit_vector)
            requires b < 16;
    }
}

/// Flipping one bit inverts that bit and keeps every other one.
pub proof fn lemma_flip_bit(x: u16, b: u16)
    requires
        b < 16,
    ensures
        bit_of(x ^ bit_mask(b), b) == !bit_of(x, b),
        forall|c: u16| c < 16 && c != b ==> #[trigger] bit_of(x ^ bit_mask(b), c) == bit_of(x, c),
{
    assert((((x ^ (1u16 << b)) >> b) & 1u16 == 1u16) == !((x >> b) & 1u16 == 1u16)) by (bit_vector)
        requires b < 16;
    assert(forall|c: u16| c < 16 && c != b ==> (((x ^ (1u16 << b)) >> c) & 1u16 == 1u16) == ((x >> c) & 1u16 == 1u16)) by (bit_vector)
        requires b < 16;
}

/// A bit is set exactly when its mask is wholly contained, and clear exactly
/// when its mask is wholly absent.
pub proof fn lemma_mask_bit(x: u16, b: u16)
    requires
        b < 16,
    ensures
        bit_of(x, b) <==> x & bit_mask(b) == bit_mask(b),
        !bit_of(x, b) <==> x & bit_mask(b) == 0,
{
    assert(((x >> b) & 1u16 == 1u16) <==> (x & (1u16 << b) == (1u16 << b))) by (bit_vector)
        requires b < 16;
    assert(!((x >> b) & 1u16 == 1u16) <==> (x & (1u16 << b) == 0u16)) by (bit_vector)
        requires b < 16;
}

} // verus!
