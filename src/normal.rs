//! Untwisted belts: both pulleys turn the same way.
use vstd::prelude::*;

use crate::arith::{floor_sqrt, isqrt};
use crate::teeth::{rounded_to_five, round_to_multiple_of_five, teeth_lower, teeth_upper};
use crate::units::{diameter_from_teeth, mul_pi, pi_times, pitch_diameter, MAX_LENGTH};
use crate::{BeltError, BeltReport};

verus! {

/// Four times the radicand `((n * p - pi * (r1 + r2)) / 2)^2 - (r2 - r1)^2`.
pub open spec fn radicand(r1: int, r2: int, teeth: int, pitch: int) -> int {
    let h = teeth * pitch - pi_times(r1 + r2);
    h * h - 4 * (r2 - r1) * (r2 - r1)
}

/// Centre-to-centre distance for radii `r1`, `r2` and a belt of `teeth` teeth of the given
/// pitch: `sqrt(((n * p - pi * (r1 + r2)) / 2)^2 - (r2 - r1)^2)`, or a domain error where
/// the radicand is negative.
pub open spec fn spacing(r1: int, r2: int, teeth: int, pitch: int) -> Result<u64, BeltError> {
    let d = radicand(r1, r2, teeth, pitch);
    if d < 0 {
        Err(BeltError::Domain)
    } else {
        Ok((floor_sqrt(d) / 2) as u64)
    }
}

/// The belt's tooth count paired with the distance it gives.
pub open spec fn pair(r1: int, r2: int, teeth: int, pitch: int) -> Result<(u64, u64), BeltError> {
    match spacing(r1, r2, teeth, pitch) {
        Ok(c) => Ok((teeth as u64, c)),
        Err(e) => Err(e),
    }
}

/// Calculates the centre-to-centre distance of two pulleys from their radii, the tooth
/// count of the belt and its pitch.
pub fn center_to_center(r1: u64, r2: u64, teeth: u64, pitch: u64) -> (r: Result<u64, BeltError>)
    requires
        r1 <= MAX_LENGTH,
        r2 <= MAX_LENGTH,
        teeth as int * pitch <= 4 * MAX_LENGTH,
    ensures
        r == spacing(r1 as int, r2 as int, teeth as int, pitch as int),
        r is Err <==> radicand(r1 as int, r2 as int, teeth as int, pitch as int) < 0,
{
    let w: u128 = teeth as u128 * pitch as u128;
    let a: u128 = mul_pi(r1 + r2);
    let h: u128 = if w >= a { w - a } else { a - w };
    let d: u128 = if r2 >= r1 { (r2 - r1) as u128 } else { (r1 - r2) as u128 };
    assert(h <= 0x1000_0000_0000_0000 && d <= 0x1000_0000_0000_0000);
    assert(h * h <= 0x100_0000_0000_0000_0000_0000_0000_0000) by (nonlinear_arith)
        requires
            h <= 0x1000_0000_0000_0000,
    ;
    assert(d * d <= 0x100_0000_0000_0000_0000_0000_0000_0000) by (nonlinear_arith)
        requires
            d <= 0x1000_0000_0000_0000,
    ;
    assert(h * h == (w - a) * (w - a)) by (nonlinear_arith)
        requires
            h == w - a || h == a - w,
    ;
    assert(d * d == (r2 - r1) * (r2 - r1)) by (nonlinear_arith)
        requires
            d == r2 - r1 || d == r1 - r2,
    ;
    let hh: u128 = h * h;
    let dd: u128 = 4 * (d * d);
    assert(hh - dd == radicand(r1 as int, r2 as int, teeth as int, pitch as int)) by {
        assert(w == teeth * pitch && a == pi_times(r1 + r2));
        assert(4 * (r2 - r1) * (r2 - r1) == 4 * (d * d)) by (nonlinear_arith)
            requires
                d * d == (r2 - r1) * (r2 - r1),
        ;
    }
    if hh < dd {
        Err(BeltError::Domain)
    } else {
        let s: u64 = isqrt(hh - dd);
        Ok(s / 2)
    }
}

/// Centre-to-centre distance with the tooth count rounded to the nearest multiple of
/// five (half up), paired with that tooth count.
pub fn belt_length_actual(r1: u64, r2: u64, teeth: u64, pitch: u64) -> (r: Result<(u64, u64), BeltError>)
    requires
        r1 <= MAX_LENGTH,
        r2 <= MAX_LENGTH,
        0 < pitch <= MAX_LENGTH,
        teeth as int * pitch <= 2 * MAX_LENGTH,
    ensures
        r == pair(r1 as int, r2 as int, rounded_to_five(teeth as int), pitch as int),
{
    assert(teeth <= 2 * MAX_LENGTH) by (nonlinear_arith)
        requires
            teeth * pitch <= 2 * MAX_LENGTH,
            pitch >= 1,
    ;
    let t: u64 = round_to_multiple_of_five(teeth);
    assert(t * pitch <= 4 * MAX_LENGTH) by (nonlinear_arith)
        requires
            t <= teeth + 2,
            teeth * pitch <= 2 * MAX_LENGTH,
            pitch <= MAX_LENGTH,
    ;
    match center_to_center(r1, r2, t, pitch) {
        Ok(c) => Ok((t, c)),
        Err(e) => Err(e),
    }
}

/// Centre-to-centre distance for exactly `teeth` teeth, paired with that tooth count.
pub fn belt_length_no_round(r1: u64, r2: u64, teeth: u64, pitch: u64) -> (r: Result<(u64, u64), BeltError>)
    requires
        r1 <= MAX_LENGTH,
        r2 <= MAX_LENGTH,
        teeth as int * pitch <= 4 * MAX_LENGTH,
    ensures
        r == pair(r1 as int, r2 as int, teeth as int, pitch as int),
{
    match center_to_center(r1, r2, teeth, pitch) {
        Ok(c) => Ok((teeth, c)),
        Err(e) => Err(e),
    }
}

/// Belt length that sets the pulleys `spacing` apart: the inverse of the solver,
/// `pi * (r1 + r2) + 2 * sqrt(spacing^2 + (r2 - r1)^2)`.
pub open spec fn belt_length(r1: int, r2: int, spacing: int) -> int {
    pi_times(r1 + r2) + floor_sqrt(4 * (spacing * spacing + (r2 - r1) * (r2 - r1)))
}

/// Converts a desired centre-to-centre spacing into the length of belt that gives it.
pub fn desired_length(r1: u64, r2: u64, desired: u64) -> (r: Result<u64, BeltError>)
    requires
        r1 <= MAX_LENGTH,
        r2 <= MAX_LENGTH,
        desired <= MAX_LENGTH,
    ensures
        r is Ok <==> belt_length(r1 as int, r2 as int, desired as int) <= MAX_LENGTH,
        r matches Ok(l) ==> l == belt_length(r1 as int, r2 as int, desired as int),
        r matches Err(e) ==> e == BeltError::OutOfRange,
{
    let a: u128 = mul_pi(r1 + r2);
    let d: u128 = if r2 >= r1 { (r2 - r1) as u128 } else { (r1 - r2) as u128 };
    let x: u128 = desired as u128;
    assert(d * d <= 0x100_0000_0000_0000_0000_0000_0000_0000) by (nonlinear_arith)
        requires
            d <= 0x1000_0000_0000_0000,
    ;
    assert(x * x <= 0x100_0000_0000_0000_0000_0000_0000_0000) by (nonlinear_arith)
        requires
            x <= 0x1000_0000_0000_0000,
    ;
    assert(d * d == (r2 - r1) * (r2 - r1)) by (nonlinear_arith)
        requires
            d == r2 - r1 || d == r1 - r2,
    ;
    let root: u64 = isqrt(4 * (x * x + d * d));
    let l: u128 = a + root as u128;
    if l <= MAX_LENGTH as u128 {
        Ok(l as u64)
    } else {
        Err(BeltError::OutOfRange)
    }
}

/// The three candidate belts for a desired belt length: the tooth count
/// `floor(length / pitch)` rounded to a multiple of five, that count itself, and
/// `ceil(length / pitch)`, each paired with the distance it gives.
pub open spec fn report(r1: int, r2: int, length: int, pitch: int) -> BeltReport<u64> {
    BeltReport {
        rounded: pair(r1, r2, rounded_to_five(length / pitch), pitch),
        lower: pair(r1, r2, length / pitch, pitch),
        upper: pair(r1, r2, (length + pitch - 1) / pitch, pitch),
    }
}

/// Computes the three candidate belts for a desired belt length.
pub fn belt_report(r1: u64, r2: u64, length: u64, pitch: u64) -> (r: BeltReport<u64>)
    requires
        r1 <= MAX_LENGTH,
        r2 <= MAX_LENGTH,
        length <= MAX_LENGTH,
        0 < pitch <= MAX_LENGTH,
    ensures
        r == report(r1 as int, r2 as int, length as int, pitch as int),
{
    let lo: u64 = teeth_lower(length, pitch);
    let hi: u64 = teeth_upper(length, pitch);
    BeltReport {
        rounded: belt_length_actual(r1, r2, lo, pitch),
        lower: belt_length_no_round(r1, r2, lo, pitch),
        upper: belt_length_no_round(r1, r2, hi, pitch),
    }
}

/// The candidate belts for pulleys of `teeth1` and `teeth2` teeth set `desired` apart,
/// or why the desired spacing has no belt length.
pub open spec fn outcome(teeth1: int, teeth2: int, desired: int, pitch: int) -> Result<BeltReport<u64>, BeltError> {
    let r1 = pitch_diameter(teeth1, pitch) / 2;
    let r2 = pitch_diameter(teeth2, pitch) / 2;
    let l = belt_length(r1, r2, desired);
    if l > MAX_LENGTH {
        Err(BeltError::OutOfRange)
    } else {
        Ok(report(r1, r2, l, pitch))
    }
}

/// Computes the candidate belts for two pulleys given by their tooth counts and a
/// desired centre-to-centre spacing.
pub fn report_for_spacing(teeth1: u32, teeth2: u32, desired: u64, pitch: u64) -> (r: Result<BeltReport<u64>, BeltError>)
    requires
        teeth1 as int * pitch <= MAX_LENGTH,
        teeth2 as int * pitch <= MAX_LENGTH,
        desired <= MAX_LENGTH,
        0 < pitch <= MAX_LENGTH,
    ensures
        r == outcome(teeth1 as int, teeth2 as int, desired as int, pitch as int),
{
    let r1: u64 = diameter_from_teeth(teeth1, pitch) / 2;
    let r2: u64 = diameter_from_teeth(teeth2, pitch) / 2;
    match desired_length(r1, r2, desired) {
        Ok(l) => Ok(belt_report(r1, r2, l, pitch)),
        Err(e) => Err(e),
    }
}

/// Swapping the two pulleys leaves the distance (or the domain error) unchanged.
pub proof fn lemma_swap_pulleys(r1: int, r2: int, teeth: int, pitch: int)
    ensures
        spacing(r1, r2, teeth, pitch) == spacing(r2, r1, teeth, pitch),
        pair(r1, r2, teeth, pitch) == pair(r2, r1, teeth, pitch),
{
    assert(r1 + r2 == r2 + r1);
    assert(4 * (r2 - r1) * (r2 - r1) == 4 * (r1 - r2) * (r1 - r2)) by (nonlinear_arith);
    assert(radicand(r1, r2, teeth, pitch) == radicand(r2, r1, teeth, pitch));
}

} // verus!
