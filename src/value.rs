use vstd::prelude::*;

verus! {

/// The bit pattern of `+0.0`.
pub const ZERO: u32 = 0;

/// The sign bit of a binary32 bit pattern.
pub const SIGN_BIT: u32 = 0x8000_0000;

/// The bit pattern of `+inf`; a magnitude above it is a NaN.
pub const INFINITY_BITS: u32 = 0x7f80_0000;

/// A NaN: all exponent bits set and a nonzero fraction.
pub open spec fn is_nan(b: u32) -> bool {
    b % 0x8000_0000 > 0x7f80_0000
}

/// The position of a non-NaN value on the number line: its magnitude bits,
/// negated when the sign bit is set. Both zeros sit at 0.
pub open spec fn order_key(b: u32) -> int {
    if b >= 0x8000_0000 {
        -((b - 0x8000_0000) as int)
    } else {
        b as int
    }
}

/// IEEE-754 `a < b`: false whenever either side is a NaN.
pub open spec fn float_lt(a: u32, b: u32) -> bool {
    !is_nan(a) && !is_nan(b) && order_key(a) < order_key(b)
}

/// IEEE-754 `a <= b`: false whenever either side is a NaN.
pub open spec fn float_le(a: u32, b: u32) -> bool {
    !is_nan(a) && !is_nan(b) && order_key(a) <= order_key(b)
}

/// The magnitude bits of `b` (the sign bit cleared).
fn magnitude(b: u32) -> (r: u32)
    ensures
        r as int == b as int % 0x8000_0000,
        r <= 0x7fff_ffff,
{
    if b >= SIGN_BIT {
        b - SIGN_BIT
    } else {
        b
    }
}

/// `a < b` on binary32 values given by their bit patterns.
pub fn less_than(a: u32, b: u32) -> (r: bool)
    ensures
        r == float_lt(a, b),
{
    let ma = magnitude(a);
    let mb = magnitude(b);
    if ma > INFINITY_BITS || mb > INFINITY_BITS {
        return false;
    }
    let a_neg = a >= SIGN_BIT;
    let b_neg = b >= SIGN_BIT;
    if a_neg && b_neg {
        mb < ma
    } else if a_neg {
        ma != 0 || mb != 0
    } else if b_neg {
        false
    } else {
        ma < mb
    }
}

} // verus!
