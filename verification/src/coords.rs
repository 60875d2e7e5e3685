//! Coordinates and distances as bit patterns of double-precision numbers.
use vstd::prelude::*;

verus! {

/// The sign bit of a double-precision number.
pub const SIGN_BIT: u64 = 0x8000_0000_0000_0000;

/// Positive infinity: every larger magnitude is not a number.
pub const INFINITY: u64 = 0x7ff0_0000_0000_0000;

/// The quiet not-a-number pattern that marks a coordinate as unresolved.
pub const UNRESOLVED: u64 = 0x7ff8_0000_0000_0000;

/// Positive zero, the distance of an exact match.
pub const ZERO: u64 = 0;

/// The pattern without its sign bit.
pub open spec fn magnitude(bits: u64) -> int {
    if bits >= SIGN_BIT {
        bits - SIGN_BIT
    } else {
        bits as int
    }
}

/// Whether the pattern is one of the not-a-number patterns.
pub open spec fn is_nan(bits: u64) -> bool {
    magnitude(bits) > INFINITY
}

/// Position of a number on the real line, up to a monotone rescaling: two
/// numbers compare as their ranks do, and both zeros have rank 0.
pub open spec fn rank(bits: u64) -> int {
    if bits >= SIGN_BIT {
        -magnitude(bits)
    } else {
        magnitude(bits)
    }
}

/// `a > b` as IEEE 754 defines it: false whenever either side is not a number.
pub open spec fn exceeds(a: u64, b: u64) -> bool {
    !is_nan(a) && !is_nan(b) && rank(a) > rank(b)
}

/// Whether the pattern is a number greater than zero (infinity included).
pub open spec fn is_positive(bits: u64) -> bool {
    0 < bits && bits <= INFINITY
}

/// Tells whether a coordinate is unresolved.
pub fn unresolved(bits: u64) -> (r: bool)
    ensures
        r == is_nan(bits),
{
    let m: u64 = if bits >= SIGN_BIT {
        bits - SIGN_BIT
    } else {
        bits
    };
    m > INFINITY
}

/// Tells whether both coordinates of a point are resolved.
pub fn resolved_pair(lat: u64, lng: u64) -> (r: bool)
    ensures
        r == (!is_nan(lat) && !is_nan(lng)),
{
    !unresolved(lat) && !unresolved(lng)
}

/// Compares two numbers by their bit patterns.
pub fn greater(a: u64, b: u64) -> (r: bool)
    ensures
        r == exceeds(a, b),
{
    if unresolved(a) || unresolved(b) {
        return false;
    }
    if a >= SIGN_BIT {
        if b >= SIGN_BIT {
            a < b
        } else {
            false
        }
    } else {
        if b >= SIGN_BIT {
            !(a == 0 && b == SIGN_BIT)
        } else {
            a > b
        }
    }
}

/// Tells whether a radius is usable: a number greater than zero.
pub fn positive(bits: u64) -> (r: bool)
    ensures
        r == is_positive(bits),
{
    0 < bits && bits <= INFINITY
}

} // verus!
