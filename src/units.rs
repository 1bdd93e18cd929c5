use vstd::prelude::*;

verus! {

/// Nanometres in one millimetre. Every distance of this library is a whole number of nanometres.
pub const NM_PER_MM: u64 = 1_000_000;

/// Nanometres in one inch (exactly 25.4 mm).
pub const NM_PER_INCH: u64 = 25_400_000;

/// Pitch of a 5 mm belt, in nanometres.
pub const PITCH_5MM_BELT: u64 = 5_000_000;

/// Pitch of a 3 mm belt, in nanometres.
pub const PITCH_3MM_BELT: u64 = 3_000_000;

/// The largest distance the calculations accept (ten thousand kilometres): it keeps
/// every intermediate square within 128 bits.
pub const MAX_LENGTH: u64 = 10_000_000_000_000_000;

/// Numerator of the rational value of pi used throughout.
pub const PI_NUM: u128 = 3_141_592_653_589_793;

/// Denominator of the rational value of pi used throughout.
pub const PI_DEN: u128 = 1_000_000_000_000_000;

/// `pi * x`, rounded down to a whole nanometre.
pub open spec fn pi_times(x: int) -> int {
    x * PI_NUM / (PI_DEN as int)
}

/// `x / pi`, rounded down to a whole nanometre.
pub open spec fn over_pi(x: int) -> int {
    x * PI_DEN / (PI_NUM as int)
}

/// Diameter of the pitch circle of a pulley: `pitch * teeth / pi`.
pub open spec fn pitch_diameter(teeth: int, pitch: int) -> int {
    over_pi(teeth * pitch)
}

/// Converts whole millimetres to nanometres.
pub fn mm_to_nanometres(mm: u32) -> (r: u64)
    ensures
        r == mm as int * NM_PER_MM,
{
    mm as u64 * NM_PER_MM
}

/// Computes `pi * x` for a distance `x`, rounded down.
pub fn mul_pi(x: u64) -> (r: u128)
    requires
        x <= 8 * MAX_LENGTH,
    ensures
        r == pi_times(x as int),
        r <= 4 * x,
{
    let p: u128 = x as u128 * PI_NUM;
    assert(p <= 4 * x * PI_DEN) by (nonlinear_arith)
        requires
            p == x * PI_NUM,
            PI_NUM <= 4 * PI_DEN,
            x >= 0,
    ;
    assert((p as int) / (PI_DEN as int) <= 4 * x) by (nonlinear_arith)
        requires
            p <= 4 * x * PI_DEN,
            PI_DEN > 0,
    ;
    p / PI_DEN
}

/// Diameter of the pitch circle of a pulley with `teeth` teeth on a belt of the given
/// pitch: the circumference `pitch * teeth` divided by pi.
pub fn diameter_from_teeth(teeth: u32, pitch: u64) -> (r: u64)
    requires
        teeth as int * pitch <= MAX_LENGTH,
    ensures
        r == pitch_diameter(teeth as int, pitch as int),
        r <= teeth as int * pitch,
{
    let c: u128 = teeth as u128 * pitch as u128;
    let p: u128 = c * PI_DEN;
    assert((p as int) / (PI_NUM as int) <= c) by (nonlinear_arith)
        requires
            p == c * PI_DEN,
            PI_DEN <= PI_NUM,
            c >= 0,
    ;
    (p / PI_NUM) as u64
}

/// Diameter of the pitch circle of a pulley with `teeth` teeth on a 5 mm belt.
pub fn get_diam_5mm(teeth: u32) -> (r: u64)
    requires
        teeth as int * PITCH_5MM_BELT <= MAX_LENGTH,
    ensures
        r == pitch_diameter(teeth as int, PITCH_5MM_BELT as int),
{
    diameter_from_teeth(teeth, PITCH_5MM_BELT)
}

/// The pitch diameter grows with the tooth count; from a pitch of four nanometres on,
/// each extra tooth makes it strictly larger.
pub proof fn lemma_diameter_monotone(n1: int, n2: int, pitch: int)
    requires
        0 <= n1 <= n2,
        pitch > 0,
    ensures
        pitch_diameter(n1, pitch) <= pitch_diameter(n2, pitch),
        n1 < n2 && pitch >= 4 ==> pitch_diameter(n1, pitch) < pitch_diameter(n2, pitch),
{
    let a = n1 * pitch * PI_DEN;
    let b = n2 * pitch * PI_DEN;
    let m = PI_NUM as int;
    assert(a <= b) by (nonlinear_arith)
        requires
            0 <= n1 <= n2,
            pitch > 0,
            a == n1 * pitch * PI_DEN,
            b == n2 * pitch * PI_DEN,
    ;
    vstd::arithmetic::div_mod::lemma_div_is_ordered(a, b, m);
    if n1 < n2 && pitch >= 4 {
        assert(b >= a + m) by (nonlinear_arith)
            requires
                n1 < n2,
                pitch >= 4,
                a == n1 * pitch * PI_DEN,
                b == n2 * pitch * PI_DEN,
                4 * PI_DEN >= m,
        ;
        vstd::arithmetic::div_mod::lemma_div_is_ordered(a + m, b, m);
        vstd::arithmetic::div_mod::lemma_div_plus_one(a, m);
    }
    assert(pitch_diameter(n1, pitch) == a / m);
    assert(pitch_diameter(n2, pitch) == b / m);
}

} // verus!
