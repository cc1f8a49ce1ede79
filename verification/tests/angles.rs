//! The angle helpers, on the fixed-point radian grid: every case is
//! exact, so the float-era epsilon comparisons become equalities.

use craft_mind::math::{
    delta_angle_radians, smallest_equivalent_angle_radians, smallest_positve_equivalent_angle_rad,
    PI_FX, TAU_FX,
};

#[test]
fn smallest_positve_equivalent_angle_rad_test() {
    let d90: i64 = PI_FX / 2;
    assert_eq!(smallest_positve_equivalent_angle_rad(0), 0);
    assert_eq!(smallest_positve_equivalent_angle_rad(TAU_FX), 0);
    assert_eq!(smallest_positve_equivalent_angle_rad(PI_FX), PI_FX);
    assert_eq!(smallest_positve_equivalent_angle_rad(PI_FX), PI_FX);
    assert_eq!(smallest_positve_equivalent_angle_rad(TAU_FX - d90), PI_FX + d90);
    assert_eq!(smallest_positve_equivalent_angle_rad(TAU_FX + d90), d90);
    assert_eq!(smallest_positve_equivalent_angle_rad(-200), TAU_FX - 200);
}

#[test]
fn delta_angle_radians_test() {
    let d90: i64 = PI_FX / 2;
    let d45: i64 = d90 / 2;
    let d30: i64 = PI_FX / 3;
    assert_eq!(delta_angle_radians(PI_FX, TAU_FX), PI_FX);
    assert_eq!(delta_angle_radians(-d90, 0), d90);
    assert_eq!(delta_angle_radians(-TAU_FX - d90, d90), PI_FX);
    assert_eq!(delta_angle_radians(0, 2 * TAU_FX), 0);
    assert_eq!(delta_angle_radians(PI_FX, d90), d90);
    assert_eq!(delta_angle_radians(TAU_FX - d45, d45), d90);
    assert_eq!(delta_angle_radians(TAU_FX - d45, 0), d45);
    assert_eq!(delta_angle_radians(TAU_FX + PI_FX, 0), PI_FX);
    assert_eq!(delta_angle_radians(TAU_FX + d45, 0), d45);
    assert_eq!(delta_angle_radians(-d45, 0), d45);
    assert_eq!(delta_angle_radians(-d30, 0), d30);
    assert_eq!(delta_angle_radians(-200, 0), 200);
}

#[test]
fn delta_angle_stays_within_half_turn() {
    let awkward: [i64; 7] = [0, 1, -1, TAU_FX, -TAU_FX, 123_456_789, -987_654_321];
    for &a in awkward.iter() {
        for &b in awkward.iter() {
            let d = delta_angle_radians(a, b);
            assert!(0 <= d && d <= PI_FX);
        }
        assert_eq!(delta_angle_radians(a, a), 0);
    }
}

#[test]
fn smallest_equivalent_angle_radians_test() {
    let d90: i64 = PI_FX / 2;
    assert_eq!(smallest_equivalent_angle_radians(0), 0);
    assert_eq!(smallest_equivalent_angle_radians(TAU_FX), 0);
    assert_eq!(smallest_equivalent_angle_radians(TAU_FX - d90), -d90);
    assert_eq!(smallest_equivalent_angle_radians(-TAU_FX + d90), d90);
    assert_eq!(smallest_equivalent_angle_radians(PI_FX), PI_FX);
}
