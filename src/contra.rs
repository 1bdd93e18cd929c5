//! Crossed (twisted) belts: the pulleys turn opposite ways.
use vstd::prelude::*;

use crate::arith::{floor_sqrt, isqrt};
use crate::teeth::{rounded_to_five, round_to_multiple_of_five, teeth_lower, teeth_upper};
use crate::units::{diameter_from_teeth, mul_pi, pi_times, pitch_diameter, MAX_LENGTH};
use crate::{BeltError, BeltReport};

verus! {

/// The term `g = 2 * pi * (d1 + d2) - 4 * n * p`.
pub open spec fn generic(d1: int, d2: int, teeth: int, pitch: int) -> int {
    pi_times(2 * (d1 + d2)) - 4 * teeth * pitch
}

/// The discriminant `g^2 - 32 * (d1 + d2)^2`.
pub open spec fn discriminant(d1: int, d2: int, teeth: int, pitch: int) -> int {
    let g = generic(d1, d2, teeth, pitch);
    g * g - 32 * ((d1 + d2) * (d1 + d2))
}

/// Centre-to-centre distance for diameters `d1`, `d2` and a belt of `teeth` teeth of the
/// given pitch: `(-g + sqrt(g^2 - 32 * (d1 + d2)^2)) / 16`, rounded down, or a domain
/// error where the discriminant is negative.
pub open spec fn spacing(d1: int, d2: int, teeth: int, pitch: int) -> Result<i64, BeltError> {
    let disc = discriminant(d1, d2, teeth, pitch);
    if disc < 0 {
        Err(BeltError::Domain)
    } else {
        Ok(((floor_sqrt(disc) - generic(d1, d2, teeth, pitch)) / 16) as i64)
    }
}

/// The belt's tooth count paired with the distance it gives.
pub open spec fn pair(d1: int, d2: int, teeth: int, pitch: int) -> Result<(u64, i64), BeltError> {
    match spacing(d1, d2, teeth, pitch) {
        Ok(c) => Ok((teeth as u64, c)),
        Err(e) => Err(e),
    }
}

/// Finds the centre-to-centre distance of two pulleys from their diameters, the tooth
/// count of the belt and its pitch.
pub fn center_to_center(d1: u64, d2: u64, teeth: u64, pitch: u64) -> (r: Result<i64, BeltError>)
    requires
        d1 <= MAX_LENGTH,
        d2 <= MAX_LENGTH,
        teeth as int * pitch <= 4 * MAX_LENGTH,
    ensures
        r == spacing(d1 as int, d2 as int, teeth as int, pitch as int),
        r is Err <==> discriminant(d1 as int, d2 as int, teeth as int, pitch as int) < 0,
{
    let s: u64 = d1 + d2;
    let a: u128 = mul_pi(2 * s);
    let b: u128 = 4 * (teeth as u128 * pitch as u128);
    let ghost g: int = generic(d1 as int, d2 as int, teeth as int, pitch as int);
    assert(b == 4 * teeth * pitch) by (nonlinear_arith)
        requires
            b == 4 * (teeth * pitch),
    ;
    assert(g == a - b);
    let h: u128 = if a >= b { a - b } else { b - a };
    assert(h <= 0x1000_0000_0000_0000);
    assert(h * h <= 0x100_0000_0000_0000_0000_0000_0000_0000 && h * h == g * g) by (nonlinear_arith)
        requires
            h <= 0x1000_0000_0000_0000,
            h == g || h == -g,
    ;
    assert(s * s <= 0x1_0000_0000_0000_0000_0000_0000_0000) by (nonlinear_arith)
        requires
            s <= 0x100_0000_0000_0000,
    ;
    let ss: u128 = s as u128 * s as u128;
    let hh: u128 = h * h;
    let k: u128 = 32 * ss;
    assert(hh - k == discriminant(d1 as int, d2 as int, teeth as int, pitch as int));
    if hh < k {
        return Err(BeltError::Domain);
    }
    let root: u64 = isqrt(hh - k);
    let root_wide: u128 = root as u128;
    assert(root_wide <= h) by (nonlinear_arith)
        requires
            root_wide * root_wide <= hh - k,
            hh == h * h,
            k >= 0,
            root_wide >= 0,
            h >= 0,
    ;
    let ghost t: int = root as int - g;
    let c: i64 = if a <= b {
        let q: u128 = (root_wide + (b - a)) / 16;
        assert(q * 16 <= t < q * 16 + 16) by (nonlinear_arith)
            requires
                q == (root_wide + (b - a)) / 16,
                t == root_wide + (b - a),
        ;
        q as i64
    } else if root_wide >= a - b {
        let q: u128 = (root_wide - (a - b)) / 16;
        assert(q * 16 <= t < q * 16 + 16) by (nonlinear_arith)
            requires
                q == (root_wide - (a - b)) / 16,
                t == root_wide - (a - b),
        ;
        q as i64
    } else {
        let m: u128 = (a - b) - root_wide;
        let q: u128 = (m + 15) / 16;
        assert(-q * 16 <= t < -q * 16 + 16) by (nonlinear_arith)
            requires
                q == (m + 15) / 16,
                t == -m,
                m > 0,
        ;
        -(q as i64)
    };
    proof {
        vstd::arithmetic::div_mod::lemma_fundamental_div_mod_converse(t, 16, c as int, t - c * 16);
    }
    Ok(c)
}

/// Centre-to-centre distance with the tooth count rounded to the nearest multiple of
/// five (half up), paired with that tooth count.
pub fn belt_length_actual(d1: u64, d2: u64, teeth: u64, pitch: u64) -> (r: Result<(u64, i64), BeltError>)
    requires
        d1 <= MAX_LENGTH,
        d2 <= MAX_LENGTH,
        0 < pitch <= MAX_LENGTH,
        teeth as int * pitch <= 2 * MAX_LENGTH,
    ensures
        r == pair(d1 as int, d2 as int, rounded_to_five(teeth as int), pitch as int),
{
    assert(teeth <= 2 * MAX_LENGTH) by (nonlinear_arith)
        requires
            teeth * pitch <= 2 * MAX_LENGTH,
            pitch >= 1,
    ;
    let t: u64 = round_to_multiple_of_five(teeth);
    assert(t * pitch <= 4 * MAX_LENGTH) by (nonlinear_arith)
        requires
            t <= teeth + 2,
            teeth * pitch <= 2 * MAX_LENGTH,
            pitch <= MAX_LENGTH,
    ;
    match center_to_center(d1, d2, t, pitch) {
        Ok(c) => Ok((t, c)),
        Err(e) => Err(e),
    }
}

/// Centre-to-centre distance for exactly `teeth` teeth, paired with that tooth count.
pub fn belt_length_no_round(d1: u64, d2: u64, teeth: u64, pitch: u64) -> (r: Result<(u64, i64), BeltError>)
    requires
        d1 <= MAX_LENGTH,
        d2 <= MAX_LENGTH,
        teeth as int * pitch <= 4 * MAX_LENGTH,
    ensures
        r == pair(d1 as int, d2 as int, teeth as int, pitch as int),
{
    match center_to_center(d1, d2, teeth, pitch) {
        Ok(c) => Ok((teeth, c)),
        Err(e) => Err(e),
    }
}

/// Belt length that sets the pulleys `spacing` apart:
/// `2 * spacing + (pi / 2) * (d1 + d2) + (d1 + d2)^2 / (4 * spacing)`.
pub open spec fn belt_length(d1: int, d2: int, spacing: int) -> int {
    2 * spacing + pi_times(d1 + d2) / 2 + (d1 + d2) * (d1 + d2) / (4 * spacing)
}

/// Converts a desired centre-to-centre spacing into the length of belt that gives it.
/// A spacing of zero has no such length.
pub fn desired_length(d1: u64, d2: u64, desired: u64) -> (r: Result<u64, BeltError>)
    requires
        d1 <= MAX_LENGTH,
        d2 <= MAX_LENGTH,
        desired <= MAX_LENGTH,
    ensures
        r matches Err(BeltError::InvalidInput) <==> desired == 0,
        r matches Err(BeltError::OutOfRange) <==> desired > 0 && belt_length(d1 as int, d2 as int, desired as int) > MAX_LENGTH,
        r matches Ok(l) ==> l == belt_length(d1 as int, d2 as int, desired as int),
        r is Err ==> !(r matches Err(BeltError::Domain)),
{
    if desired == 0 {
        return Err(BeltError::InvalidInput);
    }
    let s: u64 = d1 + d2;
    assert(s * s <= 0x1_0000_0000_0000_0000_0000_0000_0000) by (nonlinear_arith)
        requires
            s <= 0x100_0000_0000_0000,
    ;
    let ss: u128 = s as u128 * s as u128;
    let arc: u128 = mul_pi(s) / 2;
    let l: u128 = 2 * desired as u128 + arc + ss / (4 * desired as u128);
    if l <= MAX_LENGTH as u128 {
        Ok(l as u64)
    } else {
        Err(BeltError::OutOfRange)
    }
}

/// The three candidate belts for a desired belt length: the tooth count
/// `floor(length / pitch)` rounded to a multiple of five, that count itself, and
/// `ceil(length / pitch)`, each paired with the distance it gives.
pub open spec fn report(d1: int, d2: int, length: int, pitch: int) -> BeltReport<i64> {
    BeltReport {
        rounded: pair(d1, d2, rounded_to_five(length / pitch), pitch),
        lower: pair(d1, d2, length / pitch, pitch),
        upper: pair(d1, d2, (length + pitch - 1) / pitch, pitch),
    }
}

/// Computes the three candidate belts for a desired belt length.
pub fn belt_report(d1: u64, d2: u64, length: u64, pitch: u64) -> (r: BeltReport<i64>)
    requires
        d1 <= MAX_LENGTH,
        d2 <= MAX_LENGTH,
        length <= MAX_LENGTH,
        0 < pitch <= MAX_LENGTH,
    ensures
        r == report(d1 as int, d2 as int, length as int, pitch as int),
{
    let lo: u64 = teeth_lower(length, pitch);
    let hi: u64 = teeth_upper(length, pitch);
    BeltReport {
        rounded: belt_length_actual(d1, d2, lo, pitch),
        lower: belt_length_no_round(d1, d2, lo, pitch),
        upper: belt_length_no_round(d1, d2, hi, pitch),
    }
}

/// The candidate belts for pulleys of `teeth1` and `teeth2` teeth set `desired` apart,
/// or why the desired spacing has no belt length.
pub open spec fn outcome(teeth1: int, teeth2: int, desired: int, pitch: int) -> Result<BeltReport<i64>, BeltError> {
    let d1 = pitch_diameter(teeth1, pitch);
    let d2 = pitch_diameter(teeth2, pitch);
    let l = belt_length(d1, d2, desired);
    if desired == 0 {
        Err(BeltError::InvalidInput)
    } else if l > MAX_LENGTH {
        Err(BeltError::OutOfRange)
    } else {
        Ok(report(d1, d2, l, pitch))
    }
}

/// Computes the candidate belts for two pulleys given by their tooth counts and a
/// desired centre-to-centre spacing.
pub fn report_for_spacing(teeth1: u32, teeth2: u32, desired: u64, pitch: u64) -> (r: Result<BeltReport<i64>, BeltError>)
    requires
        teeth1 as int * pitch <= MAX_LENGTH,
        teeth2 as int * pitch <= MAX_LENGTH,
        desired <= MAX_LENGTH,
        0 < pitch <= MAX_LENGTH,
    ensures
        r == outcome(teeth1 as int, teeth2 as int, desired as int, pitch as int),
{
    let d1: u64 = diameter_from_teeth(teeth1, pitch);
    let d2: u64 = diameter_from_teeth(teeth2, pitch);
    match desired_length(d1, d2, desired) {
        Ok(l) => Ok(belt_report(d1, d2, l, pitch)),
        Err(e) => Err(e),
    }
}

/// Swapping the two pulleys leaves the distance (or the domain error) unchanged.
pub proof fn lemma_swap_pulleys(d1: int, d2: int, teeth: int, pitch: int)
    ensures
        spacing(d1, d2, teeth, pitch) == spacing(d2, d1, teeth, pitch),
        pair(d1, d2, teeth, pitch) == pair(d2, d1, teeth, pitch),
{
    assert(d1 + d2 == d2 + d1);
}

} // verus!
