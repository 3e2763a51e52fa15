//! Frame-level control state machine of the playing session: applies the
//! discrete actions the input collaborator reports as pressed and released
//! each frame, advances the player by one tick in between, and tells the
//! caller's tick loop what to do next.

use vstd::prelude::*;

use crate::aircraft::AircraftType;
use crate::fixed::{
    spec_clamp, BOUND_LIMIT, DT_LIMIT, SCALE, THROTTLE_FULL, THROTTLE_MAX,
};
use crate::player::{spec_initial_player, spec_update, Player, PlayerState};

verus! {

/// Throttle change per frame while a throttle action is held: one percent.
pub const THROTTLE_INCREMENTATION: i64 = SCALE;

/// Default airbrake policy: hold-while-pressed rather than press-to-toggle.
pub const AIRBRAKE_TOGGLE: bool = false;

/// Discrete control action, as the input collaborator reports it.  The core
/// consumes the per-frame "pressed" and "released" streams only, never raw
/// device state.
#[derive(Debug, Clone, Copy, PartialEq, Eq, Structural)]
pub enum Action {
    ThrottleUp,
    ThrottleDown,
    RollLeft,
    RollRight,
    Airbrake,
    Pause,
}

/// Construction-time failure of a game state; fatal to session setup.
#[derive(Debug, PartialEq, Eq)]
pub enum GameStateError {
    InitializationError(String),
}

/// What the caller's tick loop should do after a frame: hand control to the
/// next game state (a pause was requested), keep ticking, or exit.
#[derive(Debug, Clone, Copy, PartialEq, Eq, Structural)]
pub enum GameStateAction {
    ChangeState,
    NoOp,
    Exit,
}

/// Effect of one action pressed this frame on the player's control state.
/// Throttle moves one step inside `[0, 110]`, pushing past 100 engages the
/// full overboost band; opposite roll inputs cancel to neutral (mutual
/// exclusion); in hold mode a pressed airbrake engages.
pub open spec fn spec_apply_down(p: Player, airbrake_toggle: bool, a: Action) -> Player {
    match a {
        Action::ThrottleUp => {
            let t = spec_clamp(
                p.throttle_percent + THROTTLE_INCREMENTATION,
                0,
                THROTTLE_MAX as int,
            );
            Player {
                throttle_percent: if t > THROTTLE_FULL {
                    THROTTLE_MAX
                } else {
                    t as i64
                },
                ..p
            }
        },
        Action::ThrottleDown => Player {
            throttle_percent: spec_clamp(
                p.throttle_percent - THROTTLE_INCREMENTATION,
                0,
                THROTTLE_MAX as int,
            ) as i64,
            ..p
        },
        Action::RollLeft => Player {
            state: if p.state == PlayerState::TurningRight {
                PlayerState::Normal
            } else {
                PlayerState::TurningLeft
            },
            ..p
        },
        Action::RollRight => Player {
            state: if p.state == PlayerState::TurningLeft {
                PlayerState::Normal
            } else {
                PlayerState::TurningRight
            },
            ..p
        },
        Action::Airbrake => Player {
            airbrake: if !airbrake_toggle {
                true
            } else {
                p.airbrake
            },
            ..p
        },
        Action::Pause => p,
    }
}

/// The player's control state after all actions pressed this frame, in
/// order.
pub open spec fn spec_apply_downs(p: Player, airbrake_toggle: bool, acts: Seq<Action>) -> Player
    decreases acts.len(),
{
    if acts.len() == 0 {
        p
    } else {
        spec_apply_downs(spec_apply_down(p, airbrake_toggle, acts[0]), airbrake_toggle, acts.skip(1))
    }
}

/// Effect of one action released this frame (pause requests are handled by
/// the frame loop itself, not here).  Releasing throttle-up snaps an
/// overboost value back to exactly 100; releasing a roll returns to neutral
/// unless the opposite turn is engaged; the airbrake disengages in hold
/// mode and flips in toggle mode.
pub open spec fn spec_apply_up(p: Player, airbrake_toggle: bool, a: Action) -> Player {
    match a {
        Action::ThrottleUp => Player {
            throttle_percent: if p.throttle_percent > THROTTLE_FULL {
                THROTTLE_FULL
            } else {
                p.throttle_percent
            },
            ..p
        },
        Action::RollLeft => Player {
            state: if p.state != PlayerState::TurningRight {
                PlayerState::Normal
            } else {
                p.state
            },
            ..p
        },
        Action::RollRight => Player {
            state: if p.state != PlayerState::TurningLeft {
                PlayerState::Normal
            } else {
                p.state
            },
            ..p
        },
        Action::Airbrake => Player {
            airbrake: if airbrake_toggle {
                !p.airbrake
            } else {
                false
            },
            ..p
        },
        Action::ThrottleDown => p,
        Action::Pause => p,
    }
}

/// The player's control state after the actions released this frame,
/// processed in order up to a pause request, and whether a pause was
/// requested (processing stops there: the frame hands control to the pause
/// state).
pub open spec fn spec_apply_ups(p: Player, airbrake_toggle: bool, acts: Seq<Action>) -> (
    Player,
    bool,
)
    decreases acts.len(),
{
    if acts.len() == 0 {
        (p, false)
    } else if acts[0] == Action::Pause {
        (p, true)
    } else {
        spec_apply_ups(spec_apply_up(p, airbrake_toggle, acts[0]), airbrake_toggle, acts.skip(1))
    }
}

/// Every action pressed this frame keeps the player well-formed.
pub proof fn lemma_apply_downs_wf(p: Player, airbrake_toggle: bool, acts: Seq<Action>)
    requires
        p.wf(),
    ensures
        spec_apply_downs(p, airbrake_toggle, acts).wf(),
    decreases acts.len(),
{
    if acts.len() > 0 {
        lemma_apply_downs_wf(spec_apply_down(p, airbrake_toggle, acts[0]), airbrake_toggle, acts.skip(1));
    }
}

/// Every action released this frame keeps the player well-formed.
pub proof fn lemma_apply_ups_wf(p: Player, airbrake_toggle: bool, acts: Seq<Action>)
    requires
        p.wf(),
    ensures
        spec_apply_ups(p, airbrake_toggle, acts).0.wf(),
    decreases acts.len(),
{
    if acts.len() > 0 && acts[0] != Action::Pause {
        lemma_apply_ups_wf(spec_apply_up(p, airbrake_toggle, acts[0]), airbrake_toggle, acts.skip(1));
    }
}

/// Throttle bounds law: no sequence of frame actions drives the stored
/// throttle below 0 or above 110 percent, and a throttle-up release snaps
/// any overboost value down to exactly 100 percent.
pub proof fn lemma_throttle_bounds(
    p: Player,
    airbrake_toggle: bool,
    downs: Seq<Action>,
    ups: Seq<Action>,
)
    requires
        p.wf(),
    ensures
        0 <= spec_apply_downs(p, airbrake_toggle, downs).throttle_percent <= THROTTLE_MAX,
        0 <= spec_apply_ups(p, airbrake_toggle, ups).0.throttle_percent <= THROTTLE_MAX,
        p.throttle_percent > THROTTLE_FULL ==> spec_apply_up(
            p,
            airbrake_toggle,
            Action::ThrottleUp,
        ).throttle_percent == THROTTLE_FULL,
        p.throttle_percent <= THROTTLE_FULL ==> spec_apply_up(
            p,
            airbrake_toggle,
            Action::ThrottleUp,
        ).throttle_percent == p.throttle_percent,
{
    lemma_apply_downs_wf(p, airbrake_toggle, downs);
    lemma_apply_ups_wf(p, airbrake_toggle, ups);
}

/// Applies one action pressed this frame to the player.
pub fn apply_action_down(player: &mut Player, airbrake_toggle: bool, action: Action)
    requires
        old(player).wf(),
    ensures
        *final(player) == spec_apply_down(*old(player), airbrake_toggle, action),
        final(player).wf(),
{
    match action {
        Action::ThrottleUp => {
            let t = player.throttle_percent;
            player.set_throttle(t + THROTTLE_INCREMENTATION);
            if player.throttle_percent > THROTTLE_FULL {
                player.set_throttle(THROTTLE_MAX);
            }
        },
        Action::ThrottleDown => {
            let t = player.throttle_percent;
            player.set_throttle(t - THROTTLE_INCREMENTATION);
        },
        Action::RollLeft => {
            if player.state == PlayerState::TurningRight {
                player.apply_action(PlayerState::Normal);
            } else {
                player.apply_action(PlayerState::TurningLeft);
            }
        },
        Action::RollRight => {
            if player.state == PlayerState::TurningLeft {
                player.apply_action(PlayerState::Normal);
            } else {
                player.apply_action(PlayerState::TurningRight);
            }
        },
        Action::Airbrake => {
            if !airbrake_toggle {
                player.airbrake = true;
            }
        },
        Action::Pause => {},
    }
}

/// Applies one action released this frame to the player (pause requests are
/// handled by the frame loop itself).
pub fn apply_action_up(player: &mut Player, airbrake_toggle: bool, action: Action)
    requires
        old(player).wf(),
    ensures
        *final(player) == spec_apply_up(*old(player), airbrake_toggle, action),
        final(player).wf(),
{
    match action {
        Action::ThrottleUp => {
            if player.throttle_percent > THROTTLE_FULL {
                player.set_throttle(THROTTLE_FULL);
            }
        },
        Action::RollLeft => {
            if player.state != PlayerState::TurningRight {
                player.apply_action(PlayerState::Normal);
            }
        },
        Action::RollRight => {
            if player.state != PlayerState::TurningLeft {
                player.apply_action(PlayerState::Normal);
            }
        },
        Action::Airbrake => {
            if airbrake_toggle {
                player.airbrake = !player.airbrake;
            } else {
                player.airbrake = false;
            }
        },
        Action::ThrottleDown => {},
        Action::Pause => {},
    }
}

/// The playing session: the player plus the frame-level control policy.
#[derive(Debug)]
pub struct PlayingGS {
    pub player: Player,
    /// Airbrake policy: press-to-toggle when set, hold-while-pressed
    /// otherwise (runtime-selectable configuration).
    pub airbrake_toggle: bool,
}

impl PlayingGS {
    /// Well-formedness of the session.
    pub open spec fn wf(&self) -> bool {
        self.player.wf()
    }

    /// Starts a playing session flying the given variant, with the given
    /// airbrake policy.  Fails, fatally for session setup, when the catalog
    /// cannot resolve the variant.
    pub fn new(aircraft_type: AircraftType, airbrake_toggle: bool) -> (r: Result<
        PlayingGS,
        GameStateError,
    >)
        ensures
            match r {
                Ok(g) => g.wf() && g.airbrake_toggle == airbrake_toggle && spec_initial_player(
                    aircraft_type,
                    g.player,
                ),
                Err(e) => aircraft_type == AircraftType::X47B && (e matches
                    GameStateError::InitializationError(m) && m@
                    == "Failed to initialize player: Aircraft not implemented"@),
            },
    {
        let player = match Player::new(aircraft_type) {
            Ok(p) => p,
            Err(_) => {
                return Err(
                    GameStateError::InitializationError(
                        "Failed to initialize player: Aircraft not implemented".to_owned(),
                    ),
                );
            },
        };
        Ok(PlayingGS { player, airbrake_toggle })
    }

    /// Processes one frame: applies the actions pressed this frame, advances
    /// the player by one tick, then applies the actions released this frame,
    /// stopping at a pause request — the caller's loop then changes to the
    /// pause state.  `delta_ms`, the heading components and the viewport
    /// extents are handed through to [`Player::update`].
    pub fn update(
        &mut self,
        actions_down: &Vec<Action>,
        actions_up: &Vec<Action>,
        delta_ms: u64,
        dir_x: i64,
        dir_y: i64,
        screen_w: i64,
        screen_h: i64,
    ) -> (r: Result<GameStateAction, GameStateError>)
        requires
            old(self).wf(),
            delta_ms <= DT_LIMIT,
            -SCALE <= dir_x <= SCALE,
            -SCALE <= dir_y <= SCALE,
            0 <= screen_w <= BOUND_LIMIT,
            0 <= screen_h <= BOUND_LIMIT,
        ensures
            final(self).wf(),
            final(self).airbrake_toggle == old(self).airbrake_toggle,
            ({
                let p1 = spec_apply_downs(
                    old(self).player,
                    old(self).airbrake_toggle,
                    actions_down@,
                );
                let p2 = spec_update(
                    p1,
                    delta_ms as int,
                    dir_x as int,
                    dir_y as int,
                    screen_w as int,
                    screen_h as int,
                );
                let folded = spec_apply_ups(p2, old(self).airbrake_toggle, actions_up@);
                final(self).player == folded.0 && r == Ok::<GameStateAction, GameStateError>(
                    if folded.1 {
                        GameStateAction::ChangeState
                    } else {
                        GameStateAction::NoOp
                    },
                )
            }),
    {
        let ghost p0 = self.player;
        let toggle = self.airbrake_toggle;
        let n = actions_down.len();
        let mut i: usize = 0;
        proof {
            assert(actions_down@.skip(0) =~= actions_down@);
        }
        while i < n
            invariant
                n == actions_down@.len(),
                0 <= i <= n,
                self.player.wf(),
                toggle == old(self).airbrake_toggle,
                self.airbrake_toggle == toggle,
                spec_apply_downs(self.player, toggle, actions_down@.skip(i as int))
                    == spec_apply_downs(p0, toggle, actions_down@),
            decreases n - i,
        {
            proof {
                assert(actions_down@.skip(i as int).skip(1) =~= actions_down@.skip(i + 1));
                assert(actions_down@.skip(i as int)[0] == actions_down@[i as int]);
            }
            apply_action_down(&mut self.player, toggle, actions_down[i]);
            i = i + 1;
        }
        proof {
            assert(actions_down@.skip(n as int) =~= Seq::<Action>::empty());
        }
        self.player.update(delta_ms, dir_x, dir_y, screen_w, screen_h);
        let ghost p2 = self.player;
        let m = actions_up.len();
        let mut j: usize = 0;
        proof {
            assert(actions_up@.skip(0) =~= actions_up@);
        }
        while j < m
            invariant
                m == actions_up@.len(),
                0 <= j <= m,
                self.player.wf(),
                toggle == old(self).airbrake_toggle,
                self.airbrake_toggle == toggle,
                p2 == spec_update(
                    spec_apply_downs(old(self).player, toggle, actions_down@),
                    delta_ms as int,
                    dir_x as int,
                    dir_y as int,
                    screen_w as int,
                    screen_h as int,
                ),
                spec_apply_ups(self.player, toggle, actions_up@.skip(j as int)) == spec_apply_ups(
                    p2,
                    toggle,
                    actions_up@,
                ),
            decreases m - j,
        {
            proof {
                assert(actions_up@.skip(j as int).skip(1) =~= actions_up@.skip(j + 1));
                assert(actions_up@.skip(j as int)[0] == actions_up@[j as int]);
            }
            let action = actions_up[j];
            if action == Action::Pause {
                return Ok(GameStateAction::ChangeState);
            }
            apply_action_up(&mut self.player, toggle, action);
            j = j + 1;
        }
        proof {
            assert(actions_up@.skip(m as int) =~= Seq::<Action>::empty());
        }
        Ok(GameStateAction::NoOp)
    }
}

} // verus!
