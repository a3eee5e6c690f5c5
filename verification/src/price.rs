use vstd::prelude::*;

verus! {

// A price is held as the bit pattern of an IEEE 754 binary64 number (what
// `to_bits` gives of the number that Rust's float parsing reads from a price
// text). The sign is the top bit; the other 63 bits, read as an integer, grow
// with the number's magnitude, from zero up to infinity, and every pattern
// above infinity's is a NaN.

/// The sign bit of a binary64 pattern.
pub const SIGN_BIT: u64 = 0x8000_0000_0000_0000;

/// The pattern of positive infinity; larger magnitudes are NaNs.
pub const INFINITY_BITS: u64 = 0x7FF0_0000_0000_0000;

/// The pattern of `0.0`.
pub const ZERO_PRICE: u64 = 0;

/// The pattern of `0.5`.
pub const HALF_PRICE: u64 = 0x3FE0_0000_0000_0000;

pub open spec fn is_negative_bits(b: u64) -> bool {
    b >= SIGN_BIT
}

/// The magnitude bits of a pattern (all but the sign).
pub open spec fn magnitude(b: u64) -> int {
    if is_negative_bits(b) {
        b - SIGN_BIT
    } else {
        b as int
    }
}

pub open spec fn is_nan(b: u64) -> bool {
    magnitude(b) > INFINITY_BITS
}

/// A key that orders the numbers as IEEE 754 does: `-0.0` and `0.0` share it.
pub open spec fn order_key(b: u64) -> int {
    if is_negative_bits(b) {
        -magnitude(b)
    } else {
        magnitude(b)
    }
}

/// `a < b` on the numbers that the patterns stand for: false where either is NaN.
pub open spec fn price_lt(a: u64, b: u64) -> bool {
    !is_nan(a) && !is_nan(b) && order_key(a) < order_key(b)
}

/// `a <= b` on the numbers that the patterns stand for: false where either is NaN.
pub open spec fn price_le(a: u64, b: u64) -> bool {
    !is_nan(a) && !is_nan(b) && order_key(a) <= order_key(b)
}

fn key_parts(b: u64) -> (res: (bool, u64))
    ensures
        res.0 == is_negative_bits(b),
        res.1 == magnitude(b),
{
    if b >= SIGN_BIT {
        (true, b - SIGN_BIT)
    } else {
        (false, b)
    }
}

/// Whether the number of pattern `a` is below that of pattern `b`, as `<` on
/// `f64` decides.
pub fn less_than(a: u64, b: u64) -> (res: bool)
    ensures
        res == price_lt(a, b),
{
    let (na, ma) = key_parts(a);
    let (nb, mb) = key_parts(b);
    if ma > INFINITY_BITS || mb > INFINITY_BITS {
        return false;
    }
    if na && nb {
        mb < ma
    } else if na {
        !(ma == 0 && mb == 0)
    } else if nb {
        false
    } else {
        ma < mb
    }
}

/// `<` on numbers is a strict order: never both ways, and it chains.
pub proof fn lemma_lt_order(a: u64, b: u64, c: u64)
    ensures
        !(price_lt(a, b) && price_lt(b, a)),
        !price_lt(a, a),
        price_lt(a, b) && price_lt(b, c) ==> price_lt(a, c),
        price_lt(a, b) && price_le(b, c) ==> price_lt(a, c),
        price_le(a, b) && price_le(b, c) ==> price_le(a, c),
        price_lt(a, b) ==> price_le(a, b),
        !is_nan(a) && !is_nan(b) ==> (price_le(a, b) <==> !price_lt(b, a)),
{
}

} // verus!
