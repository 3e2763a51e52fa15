//! The per-tick player state machine.

use merlin_core::aircraft::AircraftType;
use merlin_core::fixed::{EDGE_BOUNDS, SCALE};
use merlin_core::player::{Player, PlayerState};

const SCREEN_W: i64 = 1200 * SCALE;
const SCREEN_H: i64 = 800 * SCALE;

/// Heading straight up: rotation 0, direction (sin 0, cos 0) == (0, 1).
const DIR_UP: (i64, i64) = (0, SCALE);

#[test]
fn stall_floor_holds_after_any_update_sequence() {
    let mut player = Player::new(AircraftType::GripenE).unwrap();
    player.set_throttle(0);
    let stall = player.aircraft.stall_speed;
    let mut i = 0;
    while i < 3000 {
        player.update(16, DIR_UP.0, DIR_UP.1, SCREEN_W, SCREEN_H);
        assert!(player.speed >= stall);
        i += 1;
    }
    // With the throttle closed the speed has settled exactly on the floor.
    assert_eq!(player.speed, 50 * SCALE);
}

#[test]
fn update_advances_speed_turn_rate_and_position() {
    let mut player = Player::new(AircraftType::GripenE).unwrap();
    // Fresh spawn: throttle 60%, speed 120 m/s, heading up, not turning.
    player.update(16, DIR_UP.0, DIR_UP.1, SCREEN_W, SCREEN_H);
    assert_eq!(player.speed, 1_207_486_363);
    assert_eq!(player.turn_rate, 344_671);
    assert_eq!(player.pos_x, 0);
    // Screen y grows downward: heading up moves the sprite up.
    assert_eq!(player.pos_y, -38_639_563);
    assert_eq!(player.rotation, 0);
}

#[test]
fn throttle_is_clamped_into_overboost_band() {
    let mut player = Player::new(AircraftType::GripenE).unwrap();
    player.set_throttle(-5 * SCALE);
    assert_eq!(player.throttle_percent, 0);
    player.set_throttle(115 * SCALE);
    assert_eq!(player.throttle_percent, 110 * SCALE);
    player.set_throttle(i64::MAX);
    assert_eq!(player.throttle_percent, 110 * SCALE);
    player.set_throttle(60 * SCALE);
    assert_eq!(player.throttle_percent, 60 * SCALE);
}

#[test]
fn position_wraps_past_the_viewport_edges() {
    let mut player = Player::new(AircraftType::GripenE).unwrap();
    // Zero frame duration: no displacement, wrap alone applies.
    player.pos_x = SCREEN_W + EDGE_BOUNDS + 1;
    player.update(0, DIR_UP.0, DIR_UP.1, SCREEN_W, SCREEN_H);
    assert_eq!(player.pos_x, -EDGE_BOUNDS);

    player.pos_x = -EDGE_BOUNDS - 1;
    player.update(0, DIR_UP.0, DIR_UP.1, SCREEN_W, SCREEN_H);
    assert_eq!(player.pos_x, SCREEN_W + EDGE_BOUNDS);

    player.pos_y = SCREEN_H + EDGE_BOUNDS + 1;
    player.update(0, 0, 0, SCREEN_W, SCREEN_H);
    assert_eq!(player.pos_y, -EDGE_BOUNDS);

    player.pos_y = -EDGE_BOUNDS - 1;
    player.update(0, 0, 0, SCREEN_W, SCREEN_H);
    assert_eq!(player.pos_y, SCREEN_H + EDGE_BOUNDS);
}

#[test]
fn zero_delta_time_is_tolerated() {
    let mut player = Player::new(AircraftType::GripenE).unwrap();
    player.update(0, DIR_UP.0, DIR_UP.1, SCREEN_W, SCREEN_H);
    // Position holds still; the frame-coupled speed integration still runs.
    assert_eq!(player.pos_x, 0);
    assert_eq!(player.pos_y, 0);
    assert_eq!(player.speed, 1_207_486_363);
}

#[test]
fn rotation_integrates_turn_rate_while_turning() {
    let mut player = Player::new(AircraftType::GripenE).unwrap();
    player.apply_action(PlayerState::TurningRight);
    player.update(16, DIR_UP.0, DIR_UP.1, SCREEN_W, SCREEN_H);
    // Turning drag lowers the acceleration; the rate comes from the new speed.
    assert_eq!(player.speed, 1_206_406_363);
    assert_eq!(player.turn_rate, 344_959);
    assert_eq!(player.rotation, 344_959);

    let mut player = Player::new(AircraftType::GripenE).unwrap();
    player.apply_action(PlayerState::TurningLeft);
    player.update(16, DIR_UP.0, DIR_UP.1, SCREEN_W, SCREEN_H);
    assert_eq!(player.rotation, -344_959);
}

#[test]
fn neutral_state_leaves_rotation_unchanged() {
    let mut player = Player::new(AircraftType::GripenE).unwrap();
    player.rotation = 123_456;
    player.update(16, DIR_UP.0, DIR_UP.1, SCREEN_W, SCREEN_H);
    assert_eq!(player.rotation, 123_456);
}

#[test]
fn spawn_state_matches_profile() {
    let player = Player::new(AircraftType::GripenE).unwrap();
    assert_eq!(player.pos_x, 0);
    assert_eq!(player.pos_y, 0);
    assert_eq!(player.rotation, 0);
    assert_eq!(player.speed, 120 * SCALE);
    assert_eq!(player.throttle_percent, 60 * SCALE);
    assert_eq!(player.health, 100);
    assert!(!player.airbrake);
    assert_eq!(player.state, PlayerState::Normal);
    assert_eq!(player.aircraft.name, "Gripen");
}
