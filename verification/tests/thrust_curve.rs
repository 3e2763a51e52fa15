//! Behaviour of the piecewise-linear thrust curve.

use merlin_core::aircraft::{AircraftType, ThrustCurve};

/// Fixed-point representation of the 4.9090909 catalog thrust multiplier.
const MULT: i64 = 49_090_909;

#[test]
fn empty_curve_gives_zero_thrust() {
    let curve = ThrustCurve::new();
    assert_eq!(curve.get_thrust(0, 0), 0);
    assert_eq!(curve.get_thrust(50, MULT), 0);
    assert_eq!(curve.get_thrust(110, 10_000_000), 0);
}

#[test]
fn exact_match_at_inserted_point() {
    let mut curve = ThrustCurve::new();
    curve.add_point(25, 500);
    curve.add_point(50, 1500);
    // 1500 * 4.9090909 == 7363.6363500, exactly in fixed point.
    assert_eq!(curve.get_thrust(50, MULT), 73_636_363_500);
    assert_eq!(curve.get_thrust(25, MULT), 500 * MULT);
}

#[test]
fn extrapolation_is_flat_outside_key_range() {
    let mut curve = ThrustCurve::new();
    curve.add_point(25, 500);
    curve.add_point(110, 5500);
    assert_eq!(curve.get_thrust(10, MULT), curve.get_thrust(25, MULT));
    assert_eq!(curve.get_thrust(0, MULT), curve.get_thrust(25, MULT));
    assert_eq!(curve.get_thrust(200, MULT), curve.get_thrust(110, MULT));
    assert_eq!(curve.get_thrust(u32::MAX, MULT), curve.get_thrust(110, MULT));
}

#[test]
fn monotonic_over_catalog_curve() {
    let aircraft = AircraftType::GripenE.get_aircraft().unwrap();
    let mut previous = -1;
    let mut throttle: u32 = 0;
    while throttle <= 130 {
        let thrust = aircraft.thrust_curve.get_thrust(throttle, aircraft.thrust_multiplier);
        assert!(thrust >= previous, "thrust dropped at throttle {}", throttle);
        previous = thrust;
        throttle += 1;
    }
}

#[test]
fn interpolation_between_catalog_points() {
    let aircraft = AircraftType::GripenE.get_aircraft().unwrap();
    // Between 50% -> 1500 and 75% -> 3000: at 60%, raw 2100, times 4.9090909.
    assert_eq!(aircraft.thrust_curve.get_thrust(60, MULT), 103_090_908_900);
    // 30% sits between 25% -> 500 and 50% -> 1500: raw 700.
    assert_eq!(aircraft.thrust_curve.get_thrust(30, MULT), 700 * MULT);
}

#[test]
fn add_point_overwrites_existing_key() {
    let mut curve = ThrustCurve::new();
    curve.add_point(50, 1500);
    curve.add_point(50, 2000);
    assert_eq!(curve.get_thrust(50, 10_000_000), 2000 * 10_000_000);
}

#[test]
fn insertion_order_is_irrelevant() {
    let mut unsorted = ThrustCurve::new();
    unsorted.add_point(100, 5000);
    unsorted.add_point(0, 0);
    unsorted.add_point(50, 1500);
    unsorted.add_point(25, 500);
    let mut sorted = ThrustCurve::new();
    sorted.add_point(0, 0);
    sorted.add_point(25, 500);
    sorted.add_point(50, 1500);
    sorted.add_point(100, 5000);
    let mut throttle: u32 = 0;
    while throttle <= 120 {
        assert_eq!(
            unsorted.get_thrust(throttle, MULT),
            sorted.get_thrust(throttle, MULT),
        );
        throttle += 5;
    }
}
