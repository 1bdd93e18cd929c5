use contracalc::arith::isqrt;
use contracalc::teeth::{round_to_multiple_of_five, teeth_lower, teeth_upper};
use contracalc::units::{
    diameter_from_teeth, get_diam_5mm, mm_to_nanometres, MAX_LENGTH, NM_PER_INCH, PITCH_3MM_BELT,
    PITCH_5MM_BELT, PI_DEN, PI_NUM,
};
use contracalc::{contra, normal, BeltError};

fn radii_20_40() -> (u64, u64) {
    (
        diameter_from_teeth(20, PITCH_5MM_BELT) / 2,
        diameter_from_teeth(40, PITCH_5MM_BELT) / 2,
    )
}

#[test]
fn pitch_constants_are_exact() {
    assert_eq!(mm_to_nanometres(5), PITCH_5MM_BELT);
    assert_eq!(mm_to_nanometres(3), PITCH_3MM_BELT);
    assert_eq!(mm_to_nanometres(254), 10 * NM_PER_INCH);
    assert_eq!(mm_to_nanometres(0), 0);
}

#[test]
fn diameter_is_pitch_times_teeth_over_pi() {
    assert_eq!(diameter_from_teeth(0, PITCH_5MM_BELT), 0);
    assert_eq!(diameter_from_teeth(1, PITCH_5MM_BELT), 1_591_549);
    assert_eq!(diameter_from_teeth(20, PITCH_5MM_BELT), 31_830_988);
    assert_eq!(get_diam_5mm(20), 31_830_988);
    assert_eq!(diameter_from_teeth(10, PITCH_3MM_BELT), 9_549_296);
}

#[test]
fn diameter_grows_with_teeth() {
    let mut last = diameter_from_teeth(1, PITCH_5MM_BELT);
    for n in 2..200u32 {
        let d = diameter_from_teeth(n, PITCH_5MM_BELT);
        assert!(d > last);
        last = d;
    }
}

#[test]
fn rounding_goes_to_nearest_five_half_up() {
    let got: Vec<u64> = [45u64, 46, 47, 48, 49, 50, 0, 2, 3]
        .iter()
        .map(|t| round_to_multiple_of_five(*t))
        .collect();
    assert_eq!(got, vec![45, 45, 45, 50, 50, 50, 0, 0, 5]);
    for t in 0..1000u64 {
        let r = round_to_multiple_of_five(t);
        assert_eq!(r % 5, 0);
        assert!(r.abs_diff(t) <= 2);
    }
}

#[test]
fn lower_and_upper_tooth_counts() {
    assert_eq!(teeth_lower(47 * PITCH_5MM_BELT + 1, PITCH_5MM_BELT), 47);
    assert_eq!(teeth_upper(47 * PITCH_5MM_BELT + 1, PITCH_5MM_BELT), 48);
    assert_eq!(teeth_lower(47 * PITCH_5MM_BELT, PITCH_5MM_BELT), 47);
    assert_eq!(teeth_upper(47 * PITCH_5MM_BELT, PITCH_5MM_BELT), 47);
    assert_eq!(teeth_upper(0, PITCH_5MM_BELT), 0);
}

#[test]
fn integer_square_root() {
    assert_eq!(isqrt(0), 0);
    assert_eq!(isqrt(15), 3);
    assert_eq!(isqrt(16), 4);
    assert_eq!(isqrt(u128::MAX), u64::MAX);
}

#[test]
fn two_equal_twenty_tooth_pulleys_sixty_tooth_belt() {
    let r = diameter_from_teeth(20, PITCH_5MM_BELT) / 2;
    let c = normal::center_to_center(r, r, 60, PITCH_5MM_BELT).unwrap();
    assert!(c > 0);
    // (60 - 20) teeth of 5 mm split over two straight runs: 100 mm.
    assert_eq!(c, 100_000_001);
}

#[test]
fn normal_solver_values() {
    let (r1, r2) = radii_20_40();
    assert_eq!(normal::center_to_center(r1, r2, 100, PITCH_5MM_BELT), Ok(174_274_776));
    assert_eq!(normal::center_to_center(r1, r2, 23, PITCH_5MM_BELT), Ok(7_276_468));
    assert_eq!(normal::center_to_center(r1, r2, 24, PITCH_5MM_BELT), Err(BeltError::Domain));
    assert_eq!(normal::center_to_center(r1, r2, 36, PITCH_5MM_BELT), Err(BeltError::Domain));
    assert_eq!(normal::center_to_center(r1, r2, 37, PITCH_5MM_BELT), Ok(7_276_476));
}

#[test]
fn normal_domain_error_exactly_when_radicand_negative() {
    let pairs = [(0u32, 0u32), (20, 40), (13, 90), (60, 15), (1, 200)];
    for (t1, t2) in pairs {
        let r1 = diameter_from_teeth(t1, PITCH_5MM_BELT) / 2;
        let r2 = diameter_from_teeth(t2, PITCH_5MM_BELT) / 2;
        for n in 0..300u64 {
            let arc = (r1 as u128 + r2 as u128) * PI_NUM / PI_DEN;
            let h = (n * PITCH_5MM_BELT) as i128 - arc as i128;
            let d = r2 as i128 - r1 as i128;
            let negative = h * h < 4 * d * d;
            let got = normal::center_to_center(r1, r2, n, PITCH_5MM_BELT);
            assert_eq!(got.is_err(), negative);
            if negative {
                assert_eq!(got, Err(BeltError::Domain));
            }
        }
    }
}

#[test]
fn contra_solver_values() {
    let d1 = diameter_from_teeth(20, PITCH_5MM_BELT);
    let d2 = diameter_from_teeth(40, PITCH_5MM_BELT);
    assert_eq!(contra::center_to_center(d1, d2, 100, PITCH_5MM_BELT), Ok(168_224_140));
    assert_eq!(contra::center_to_center(d1, d2, 3, PITCH_5MM_BELT), Err(BeltError::Domain));
    assert_eq!(contra::center_to_center(d1, d2, 0, PITCH_5MM_BELT), Ok(-21_178_644));
}

#[test]
fn solvers_ignore_pulley_order() {
    let (r1, r2) = radii_20_40();
    let d1 = diameter_from_teeth(20, PITCH_5MM_BELT);
    let d2 = diameter_from_teeth(40, PITCH_5MM_BELT);
    for n in 0..200u64 {
        assert_eq!(
            normal::center_to_center(r1, r2, n, PITCH_5MM_BELT),
            normal::center_to_center(r2, r1, n, PITCH_5MM_BELT)
        );
        assert_eq!(
            contra::center_to_center(d1, d2, n, PITCH_5MM_BELT),
            contra::center_to_center(d2, d1, n, PITCH_5MM_BELT)
        );
    }
}

#[test]
fn rounded_belt_forty_seven_and_forty_eight() {
    let r = diameter_from_teeth(20, PITCH_5MM_BELT) / 2;
    let rep = normal::belt_report(r, r, 47 * PITCH_5MM_BELT + 1_000, PITCH_5MM_BELT);
    assert_eq!(rep.rounded, Ok((45, 62_500_001)));
    assert_eq!(rep.lower, Ok((47, 67_500_001)));
    let rep = normal::belt_report(r, r, 48 * PITCH_5MM_BELT + 1_000, PITCH_5MM_BELT);
    assert_eq!(rep.rounded.unwrap().0, 50);
    assert_eq!(rep.rounded, Ok((50, 75_000_001)));
    assert_eq!(normal::belt_length_actual(r, r, 47, PITCH_5MM_BELT).unwrap().0, 45);
    assert_eq!(contra::belt_length_actual(2 * r, 2 * r, 48, PITCH_5MM_BELT).unwrap().0, 50);
}

#[test]
fn unrounded_belts_keep_their_tooth_count() {
    let (r1, r2) = radii_20_40();
    assert_eq!(normal::belt_length_no_round(r1, r2, 81, PITCH_5MM_BELT), Ok((81, 126_502_756)));
    assert_eq!(normal::belt_length_no_round(r1, r2, 30, PITCH_5MM_BELT), Err(BeltError::Domain));
    let d1 = diameter_from_teeth(20, PITCH_5MM_BELT);
    let d2 = diameter_from_teeth(40, PITCH_5MM_BELT);
    assert_eq!(contra::belt_length_no_round(d1, d2, 84, PITCH_5MM_BELT), Ok((84, 125_949_865)));
}

#[test]
fn contra_zero_spacing_is_invalid_input() {
    let d1 = diameter_from_teeth(20, PITCH_5MM_BELT);
    let d2 = diameter_from_teeth(40, PITCH_5MM_BELT);
    assert_eq!(contra::desired_length(d1, d2, 0), Err(BeltError::InvalidInput));
    assert_eq!(
        contra::report_for_spacing(20, 40, 0, PITCH_5MM_BELT),
        Err(BeltError::InvalidInput)
    );
}

#[test]
fn desired_spacing_to_belt_length() {
    let (r1, r2) = radii_20_40();
    let five_inches = 5 * NM_PER_INCH;
    assert_eq!(normal::desired_length(r1, r2, five_inches), Ok(405_986_738));
    assert_eq!(normal::desired_length(r1, r2, 0), Ok(181_830_985));
    let d1 = diameter_from_teeth(20, PITCH_5MM_BELT);
    let d2 = diameter_from_teeth(40, PITCH_5MM_BELT);
    assert_eq!(contra::desired_length(d1, d2, five_inches), Ok(421_950_601));
}

#[test]
fn lengths_past_the_limit_are_out_of_range() {
    assert_eq!(
        normal::desired_length(MAX_LENGTH, MAX_LENGTH, MAX_LENGTH),
        Err(BeltError::OutOfRange)
    );
    assert_eq!(
        contra::desired_length(MAX_LENGTH, MAX_LENGTH, 1),
        Err(BeltError::OutOfRange)
    );
}

#[test]
fn full_normal_report() {
    let rep = normal::report_for_spacing(20, 40, 5 * NM_PER_INCH, PITCH_5MM_BELT).unwrap();
    assert_eq!(rep.rounded, Ok((80, 123_982_649)));
    assert_eq!(rep.lower, Ok((81, 126_502_756)));
    assert_eq!(rep.upper, Ok((82, 129_022_081)));
}

#[test]
fn full_contra_report() {
    let rep = contra::report_for_spacing(20, 40, 5 * NM_PER_INCH, PITCH_5MM_BELT).unwrap();
    assert_eq!(rep.rounded, Ok((85, 128_639_058)));
    assert_eq!(rep.lower, Ok((84, 125_949_865)));
    assert_eq!(rep.upper, Ok((85, 128_639_058)));
}
