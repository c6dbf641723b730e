use vstd::prelude::*;

verus! {

/// Ticks per second of the host's time values.
pub const TICKS_PER_SECOND: i64 = 254016000000;

/// Marker for "no timestamp" in decoder timestamps.
pub const NO_PTS: i64 = -9223372036854775808;

/// A rational number `num / den` as used for time bases and frame rates.
#[derive(Clone, Copy, Debug, PartialEq, Eq)]
pub struct Rational {
    pub num: i32,
    pub den: i32,
}

/// The absolute value of `x`.
pub open spec fn abs_int(x: int) -> int {
    if x >= 0 {
        x
    } else {
        -x
    }
}

/// `n / d` rounded toward zero, for `d != 0`.
pub open spec fn trunc_div(n: int, d: int) -> int {
    let q = abs_int(n) / abs_int(d);
    if (n >= 0) == (d > 0) || n == 0 {
        q
    } else {
        -q
    }
}

/// Truncates `n / d` toward zero.
pub(crate) fn trunc_div_i128(n: i128, d: i128) -> (r: i128)
    requires
        d != 0,
        -0x4000_0000_0000_0000_0000_0000_0000_0000 < n < 0x4000_0000_0000_0000_0000_0000_0000_0000,
        -0x4000_0000_0000_0000_0000_0000_0000_0000 < d < 0x4000_0000_0000_0000_0000_0000_0000_0000,
    ensures
        r == trunc_div(n as int, d as int),
{
    let a: i128 = if n >= 0 {
        n
    } else {
        -n
    };
    let b: i128 = if d > 0 {
        d
    } else {
        -d
    };
    let q: i128 = a / b;
    assert(0 <= q <= a) by (nonlinear_arith)
        requires
            a >= 0,
            b > 0,
            q == a / b,
    ;
    if (n >= 0) == (d > 0) || n == 0 {
        q
    } else {
        -q
    }
}

/// Whether the decoder has to seek before decoding `requested`: it does unless
/// the request lies at most ten frames ahead of the last decoded frame.
pub fn needs_seek(requested: i32, last_decoded: i32) -> (r: bool)
    ensures
        r == (requested < last_decoded || requested > last_decoded + 10),
{
    requested < last_decoded || requested as i64 > last_decoded as i64 + 10
}

} // verus!
