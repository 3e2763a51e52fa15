//! The aircraft catalog and the flight-model math on concrete profiles.

use merlin_core::aircraft::{Aircraft, AircraftType, CatalogError};
use merlin_core::fixed::SCALE;
use merlin_core::player::{Player, PlayerState};

#[test]
fn catalog_resolves_populated_variants() {
    let f16 = AircraftType::F16.get_aircraft().unwrap();
    assert_eq!(f16.name, "F-16");
    assert_eq!(f16.max_health, 100);
    assert_eq!(f16.stall_speed, 50 * SCALE);
    assert_eq!(f16.thrust_multiplier, 49_090_909);
    assert_eq!(f16.thrust_curve.get_thrust(110, SCALE), 6000 * SCALE);

    let gripen = AircraftType::GripenE.get_aircraft().unwrap();
    assert_eq!(gripen.name, "Gripen");
    assert_eq!(gripen.thrust_curve.get_thrust(110, SCALE), 5500 * SCALE);
}

#[test]
fn catalog_rejects_unpopulated_variant() {
    assert_eq!(
        AircraftType::X47B.get_aircraft().unwrap_err(),
        CatalogError::UnsupportedVariant,
    );
}

#[test]
fn gripen_end_to_end_scenario() {
    // Gripen, throttle 100%, speed 120 m/s, airbrake off, not turning.
    let mut player = Player::new(AircraftType::GripenE).unwrap();
    player.set_throttle(100 * SCALE);
    assert_eq!(player.speed, 120 * SCALE);
    assert_eq!(player.state, PlayerState::Normal);
    assert!(!player.airbrake);
    // Drag coefficient 0.02.
    assert_eq!(player.get_drag_coefficient(), 200_000);
    // Thrust 5000 * 4.9090909 == 24545.4545 exactly.
    assert_eq!(player.get_thrust(), 245_454_545_000);
    // Drag 0.5*0.02*30*120*120 == 4320; acceleration (24545.4545-4320)/8000,
    // about 2.5282 m/s^2 (2.5281818 exactly in fixed point).
    assert_eq!(player.get_acceleration(), 25_281_818);
}

#[test]
fn turn_rate_is_clamped_at_all_speeds() {
    let aircraft = AircraftType::GripenE.get_aircraft().unwrap();
    let speeds: [i64; 8] = [
        0,
        10 * SCALE,
        50 * SCALE,
        100 * SCALE,
        120 * SCALE,
        1000 * SCALE,
        50_000 * SCALE,
        100_000 * SCALE,
    ];
    let mut i = 0;
    while i < speeds.len() {
        let rate = aircraft.calc_turn_rate(speeds[i]);
        assert!(aircraft.min_turn_rate <= rate && rate <= aircraft.max_turn_rate);
        i += 1;
    }
    // Far below the flip point the tent exceeds the ceiling: clamped to max.
    assert_eq!(aircraft.calc_turn_rate(0), aircraft.max_turn_rate);
    // Far above it the tent falls below the floor: clamped to min.
    assert_eq!(aircraft.calc_turn_rate(100_000 * SCALE), aircraft.min_turn_rate);
}

#[test]
fn turn_rate_is_symmetric_around_flip_point() {
    let aircraft = AircraftType::GripenE.get_aircraft().unwrap();
    let base = aircraft.base_turn_rate;
    // 30 m/s on either side of the 100 m/s flip point: both deviations are
    // 0.008 rad per frame, inside the unclamped region.
    let below = aircraft.calc_turn_rate(70 * SCALE);
    let above = aircraft.calc_turn_rate(130 * SCALE);
    assert_eq!(below, 480_000);
    assert_eq!(above, 320_000);
    assert_eq!(below - base, base - above);
    // Smaller offset, same symmetry.
    let below = aircraft.calc_turn_rate(95 * SCALE);
    let above = aircraft.calc_turn_rate(105 * SCALE);
    assert_eq!(below - base, base - above);
}

#[test]
fn turn_rate_formula_exact_value() {
    let aircraft = AircraftType::GripenE.get_aircraft().unwrap();
    // At 120 m/s: 0.04 - 20 * 0.04/150 == 0.0346667 (truncated fixed point).
    assert_eq!(aircraft.calc_turn_rate(120 * SCALE), 346_667);
    // At the flip point the full base rate applies.
    assert_eq!(aircraft.calc_turn_rate(100 * SCALE), 400_000);
}

#[test]
fn drag_coefficient_combines_airbrake_and_turning() {
    let mut player = Player::new(AircraftType::GripenE).unwrap();
    assert_eq!(player.get_drag_coefficient(), 200_000);  // 0.02
    player.airbrake = true;
    assert_eq!(player.get_drag_coefficient(), 800_000);  // 0.02 + 0.06
    player.apply_action(PlayerState::TurningLeft);
    assert_eq!(player.get_drag_coefficient(), 960_000);  // (0.02 + 0.06) * 1.2
    player.airbrake = false;
    assert_eq!(player.get_drag_coefficient(), 240_000);  // 0.02 * 1.2
    player.apply_action(PlayerState::TurningRight);
    assert_eq!(player.get_drag_coefficient(), 240_000);
}

#[test]
fn deceleration_divides_out_thrust_multiplier() {
    // Throttle 0: thrust 0, drag 4320, raw deceleration 0.54 m/s^2; the
    // multiplier's amplification is removed on the way down: 0.11 m/s^2.
    let mut player = Player::new(AircraftType::GripenE).unwrap();
    player.set_throttle(0);
    assert_eq!(player.get_acceleration(), -1_100_000);
}

#[test]
fn acceleration_is_pure_function_of_inputs() {
    let aircraft = AircraftType::GripenE.get_aircraft().unwrap();
    let a1 = Aircraft::calculate_acceleration(
        &aircraft.thrust_curve,
        100,
        aircraft.thrust_multiplier,
        120 * SCALE,
        200_000,
        aircraft.reference_area,
        aircraft.mass,
    );
    let a2 = Aircraft::calculate_acceleration(
        &aircraft.thrust_curve,
        100,
        aircraft.thrust_multiplier,
        120 * SCALE,
        200_000,
        aircraft.reference_area,
        aircraft.mass,
    );
    assert_eq!(a1, 25_281_818);
    assert_eq!(a1, a2);
}
