use vstd::prelude::*;

verus! {

/// `r` is the integer square root of `d`: the largest natural whose square is at most `d`.
pub open spec fn is_floor_sqrt(d: int, r: int) -> bool {
    0 <= r && r * r <= d && d < (r + 1) * (r + 1)
}

/// The integer square root of a non-negative integer.
pub open spec fn floor_sqrt(d: int) -> int {
    choose|r: int| is_floor_sqrt(d, r)
}

/// The integer square root is unique.
pub proof fn lemma_floor_sqrt_unique(d: int, a: int, b: int)
    requires
        is_floor_sqrt(d, a),
        is_floor_sqrt(d, b),
    ensures
        a == b,
{
    if a < b {
        assert((a + 1) * (a + 1) <= b * b) by (nonlinear_arith)
            requires
                0 <= a < b,
        ;
    } else if b < a {
        assert((b + 1) * (b + 1) <= a * a) by (nonlinear_arith)
            requires
                0 <= b < a,
        ;
    }
}

/// Any witness of the integer square root is the one `floor_sqrt` names.
pub proof fn lemma_floor_sqrt_is(d: int, r: int)
    requires
        is_floor_sqrt(d, r),
    ensures
        floor_sqrt(d) == r,
{
    let s = floor_sqrt(d);
    assert(is_floor_sqrt(d, s));
    lemma_floor_sqrt_unique(d, r, s);
}

/// Integer square root by bisection.
pub fn isqrt(d: u128) -> (r: u64)
    ensures
        r as int == floor_sqrt(d as int),
        is_floor_sqrt(d as int, r as int),
{
    let mut lo: u128 = 0;
    let mut hi: u128 = 0x1_0000_0000_0000_0000;
    assert(d < hi * hi) by (nonlinear_arith)
        requires
            hi == 0x1_0000_0000_0000_0000u128,
            d <= 0xffff_ffff_ffff_ffff_ffff_ffff_ffff_ffffu128,
    ;
    while lo + 1 < hi
        invariant
            lo < hi <= 0x1_0000_0000_0000_0000u128,
            lo * lo <= d,
            d < hi * hi,
        decreases hi - lo,
    {
        let mid: u128 = lo + (hi - lo) / 2;
        assert(mid * mid <= 0xffff_ffff_ffff_ffff_ffff_ffff_ffff_ffffu128) by (nonlinear_arith)
            requires
                mid < 0x1_0000_0000_0000_0000u128,
        ;
        if mid * mid <= d {
            lo = mid;
        } else {
            hi = mid;
        }
    }
    assert(hi == lo + 1);
    proof {
        lemma_floor_sqrt_is(d as int, lo as int);
    }
    lo as u64
}

} // verus!
