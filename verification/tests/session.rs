//! The frame-level control state machine of the playing session.

use merlin_core::aircraft::AircraftType;
use merlin_core::fixed::SCALE;
use merlin_core::gamestate::{Action, GameStateAction, GameStateError, PlayingGS};
use merlin_core::player::PlayerState;

const SCREEN_W: i64 = 1200 * SCALE;
const SCREEN_H: i64 = 800 * SCALE;

fn frame(
    session: &mut PlayingGS,
    downs: Vec<Action>,
    ups: Vec<Action>,
) -> Result<GameStateAction, GameStateError> {
    session.update(&downs, &ups, 16, 0, SCALE, SCREEN_W, SCREEN_H)
}

#[test]
fn simultaneous_roll_inputs_cancel_to_neutral() {
    let mut session = PlayingGS::new(AircraftType::GripenE, false).unwrap();
    let r = frame(&mut session, vec![Action::RollLeft, Action::RollRight], vec![]);
    assert_eq!(r.unwrap(), GameStateAction::NoOp);
    assert_eq!(session.player.state, PlayerState::Normal);
}

#[test]
fn roll_input_engages_and_opposite_cancels() {
    let mut session = PlayingGS::new(AircraftType::GripenE, false).unwrap();
    frame(&mut session, vec![Action::RollLeft], vec![]).unwrap();
    assert_eq!(session.player.state, PlayerState::TurningLeft);
    // The opposite input while turning cancels back to neutral.
    frame(&mut session, vec![Action::RollRight], vec![]).unwrap();
    assert_eq!(session.player.state, PlayerState::Normal);
    frame(&mut session, vec![Action::RollRight], vec![]).unwrap();
    assert_eq!(session.player.state, PlayerState::TurningRight);
    // Releasing the opposite key does not drop an engaged turn.
    frame(&mut session, vec![], vec![Action::RollLeft]).unwrap();
    assert_eq!(session.player.state, PlayerState::TurningRight);
    frame(&mut session, vec![], vec![Action::RollRight]).unwrap();
    assert_eq!(session.player.state, PlayerState::Normal);
}

#[test]
fn pause_release_requests_state_change() {
    let mut session = PlayingGS::new(AircraftType::GripenE, false).unwrap();
    let r = frame(&mut session, vec![], vec![Action::Pause]);
    assert_eq!(r.unwrap(), GameStateAction::ChangeState);
    let r = frame(&mut session, vec![], vec![]);
    assert_eq!(r.unwrap(), GameStateAction::NoOp);
}

#[test]
fn holding_throttle_up_overboosts_and_release_snaps_back() {
    let mut session = PlayingGS::new(AircraftType::GripenE, false).unwrap();
    session.player.set_throttle(100 * SCALE);
    // Pushing past 100% engages the full 110% overboost band.
    frame(&mut session, vec![Action::ThrottleUp], vec![]).unwrap();
    assert_eq!(session.player.throttle_percent, 110 * SCALE);
    frame(&mut session, vec![Action::ThrottleUp], vec![]).unwrap();
    assert_eq!(session.player.throttle_percent, 110 * SCALE);
    // Releasing throttle-up snaps any overboost back to exactly 100%.
    frame(&mut session, vec![], vec![Action::ThrottleUp]).unwrap();
    assert_eq!(session.player.throttle_percent, 100 * SCALE);
    // A release at or below 100% changes nothing.
    frame(&mut session, vec![], vec![Action::ThrottleUp]).unwrap();
    assert_eq!(session.player.throttle_percent, 100 * SCALE);
}

#[test]
fn throttle_steps_stay_inside_bounds() {
    let mut session = PlayingGS::new(AircraftType::GripenE, false).unwrap();
    session.player.set_throttle(0);
    frame(&mut session, vec![Action::ThrottleDown], vec![]).unwrap();
    assert_eq!(session.player.throttle_percent, 0);
    frame(&mut session, vec![Action::ThrottleUp], vec![]).unwrap();
    assert_eq!(session.player.throttle_percent, SCALE);
    frame(&mut session, vec![Action::ThrottleDown], vec![]).unwrap();
    assert_eq!(session.player.throttle_percent, 0);
}

#[test]
fn airbrake_hold_mode_follows_key_state() {
    let mut session = PlayingGS::new(AircraftType::GripenE, false).unwrap();
    frame(&mut session, vec![Action::Airbrake], vec![]).unwrap();
    assert!(session.player.airbrake);
    frame(&mut session, vec![], vec![Action::Airbrake]).unwrap();
    assert!(!session.player.airbrake);
}

#[test]
fn airbrake_toggle_mode_flips_on_release() {
    let mut session = PlayingGS::new(AircraftType::GripenE, true).unwrap();
    // In toggle mode the press itself does nothing.
    frame(&mut session, vec![Action::Airbrake], vec![]).unwrap();
    assert!(!session.player.airbrake);
    frame(&mut session, vec![], vec![Action::Airbrake]).unwrap();
    assert!(session.player.airbrake);
    frame(&mut session, vec![], vec![Action::Airbrake]).unwrap();
    assert!(!session.player.airbrake);
}

#[test]
fn session_rejects_unpopulated_variant() {
    let err = PlayingGS::new(AircraftType::X47B, false).unwrap_err();
    let GameStateError::InitializationError(message) = err;
    assert_eq!(message, "Failed to initialize player: Aircraft not implemented");
}

#[test]
fn pause_stops_processing_later_releases() {
    let mut session = PlayingGS::new(AircraftType::GripenE, false).unwrap();
    session.player.set_throttle(105 * SCALE);
    let r = frame(
        &mut session,
        vec![],
        vec![Action::Pause, Action::ThrottleUp],
    );
    assert_eq!(r.unwrap(), GameStateAction::ChangeState);
    // The release after the pause request was never applied.
    assert_eq!(session.player.throttle_percent, 105 * SCALE);
}
