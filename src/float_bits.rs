use vstd::prelude::*;

verus! {

/// Sign bit of an IEEE-754 single-precision value.
pub const SIGN_BIT: u32 = 0x8000_0000;

/// Bit pattern of positive infinity: every exponent bit set, no mantissa bit.
pub const INFINITY_BITS: u32 = 0x7F80_0000;

/// Bit pattern of `1.0`.
pub const ONE_BITS: u32 = 0x3F80_0000;

/// The value with bit pattern `b` is a NaN: all exponent bits set and a non-zero mantissa.
pub open spec fn is_nan_bits(b: u32) -> bool {
    b & 0x7FFF_FFFF > INFINITY_BITS
}

/// The value with bit pattern `b` compares equal to `0.0`: it is `+0.0` or `-0.0`.
pub open spec fn is_zero_bits(b: u32) -> bool {
    b == 0 || b == SIGN_BIT
}

/// The value with bit pattern `b` compares less than `1.0`.
/// A NaN compares less than nothing; every other negative value, `-0.0` included,
/// lies below `1.0`; non-negative values are ordered as their bit patterns.
pub open spec fn is_below_one_bits(b: u32) -> bool {
    !is_nan_bits(b) && (b & SIGN_BIT != 0 || b < ONE_BITS)
}

/// Tests `x == 0.0` on the bit pattern of `x`.
pub fn bits_equal_zero(b: u32) -> (r: bool)
    ensures
        r == is_zero_bits(b),
{
    b == 0 || b == SIGN_BIT
}

/// Tests `x < 1.0` on the bit pattern of `x`.
pub fn bits_below_one(b: u32) -> (r: bool)
    ensures
        r == is_below_one_bits(b),
{
    let nan = (b & 0x7FFF_FFFF) > INFINITY_BITS;
    !nan && ((b & SIGN_BIT) != 0 || b < ONE_BITS)
}

} // verus!
