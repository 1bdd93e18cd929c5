use vstd::prelude::*;

verus! {

/// A tooth count snapped to a multiple of five, rounding half up: a remainder of
/// three or four (at least 2.5) goes up, a remainder of zero to two goes down.
pub open spec fn rounded_to_five(t: int) -> int {
    if t % 5 >= 3 {
        t + (5 - t % 5)
    } else {
        t - t % 5
    }
}

/// Rounds a tooth count to the nearest multiple of five, the sizes in which belts are made.
pub fn round_to_multiple_of_five(t: u64) -> (r: u64)
    requires
        t <= u64::MAX - 5,
    ensures
        r == rounded_to_five(t as int),
        r % 5 == 0,
        t - 2 <= r <= t + 2,
        forall|m: int| m % 5 == 0 ==> #[trigger] abs_diff(m, t as int) >= abs_diff(r as int, t as int),
{
    let rem: u64 = t % 5;
    if rem >= 3 {
        t + (5 - rem)
    } else {
        t - rem
    }
}

/// Distance between two integers.
pub open spec fn abs_diff(a: int, b: int) -> int {
    if a >= b {
        a - b
    } else {
        b - a
    }
}

/// Tooth count of the longest belt no longer than `length`: `floor(length / pitch)`.
pub fn teeth_lower(length: u64, pitch: u64) -> (r: u64)
    requires
        pitch > 0,
    ensures
        r == length / pitch,
        r * pitch <= length < (r + 1) * pitch,
{
    let r: u64 = length / pitch;
    assert(r * pitch <= length < (r + 1) * pitch) by (nonlinear_arith)
        requires
            r == length / pitch,
            pitch > 0,
    ;
    r
}

/// Tooth count of the shortest belt no shorter than `length`: `ceil(length / pitch)`.
pub fn teeth_upper(length: u64, pitch: u64) -> (r: u64)
    requires
        pitch > 0,
    ensures
        r == (length + pitch - 1) / pitch as int,
        length <= r * pitch < length + pitch,
{
    let q: u64 = length / pitch;
    assert(q * pitch <= length < (q + 1) * pitch) by (nonlinear_arith)
        requires
            q == length / pitch,
            pitch > 0,
    ;
    let r: u64 = if length % pitch == 0 {
        q
    } else {
        assert(q < u64::MAX) by (nonlinear_arith)
            requires
                q * pitch <= length <= u64::MAX,
                length % pitch != 0,
                q == length / pitch,
                pitch > 0,
        ;
        q + 1
    };
    assert(length % pitch == length - q * pitch) by (nonlinear_arith)
        requires
            q == length / pitch,
            pitch > 0,
    ;
    assert((length + pitch - 1) / pitch as int == r) by (nonlinear_arith)
        requires
            q * pitch <= length < (q + 1) * pitch,
            length % pitch == 0 ==> length == q * pitch && r == q,
            length % pitch != 0 ==> length > q * pitch && r == q + 1,
            pitch > 0,
    ;
    assert(length <= r * pitch < length + pitch) by (nonlinear_arith)
        requires
            q * pitch <= length < (q + 1) * pitch,
            length % pitch == 0 ==> length == q * pitch && r == q,
            length % pitch != 0 ==> length > q * pitch && r == q + 1,
            pitch > 0,
    ;
    assert(length <= r * pitch < length + pitch) by (nonlinear_arith)
        requires
            q * pitch <= length < (q + 1) * pitch,
            length % pitch == 0 ==> length == q * pitch && r == q,
            length % pitch != 0 ==> length > q * pitch && r == q + 1,
            pitch > 0,
    ;
    r
}

} // verus!
