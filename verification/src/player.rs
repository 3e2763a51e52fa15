//! Player state machine: owns the dynamic flight state (position, rotation,
//! speed, throttle, health, airbrake, turning mode) and advances it each
//! tick from the flight-model outputs.

use vstd::prelude::*;
use vstd::arithmetic::div_mod::{lemma_div_is_ordered, lemma_div_multiples_vanish};

use crate::aircraft::{
    curve_thrust, spec_acceleration, spec_profile, spec_turn_rate, Aircraft, AircraftType,
    CatalogError,
};
use crate::fixed::{
    clamp_i64, spec_clamp, tdiv, BOUND_LIMIT, COEFF_LIMIT, DECEL_LIMIT, DT_LIMIT, EDGE_BOUNDS,
    POS_LIMIT, RATE_LIMIT, ROT_LIMIT, SCALE, SPEED_LIMIT, THROTTLE_MAX,
};

verus! {

/// Turning mode of the player.  A three-valued enum makes the mutual
/// exclusion of left and right turning structural.
#[derive(Debug, Clone, Copy, PartialEq, Eq, Structural)]
pub enum PlayerState {
    Normal,
    TurningRight,
    TurningLeft,
}

/// The player's dynamic flight state, mutated once per frame by
/// [`Player::update`] and between frames by the discrete control actions.
#[derive(Debug, Clone)]
pub struct Player {
    /// Position, world units (fixed point), wrapped at the viewport edges.
    pub pos_x: i64,
    pub pos_y: i64,
    /// Heading, radians (fixed point), accumulated without wrap-around.
    pub rotation: i64,
    /// Turn rate of the current frame, radians per frame.
    pub turn_rate: i64,
    /// Speed, m/s; never below the profile's stall speed after an update.
    pub speed: i64,
    /// Throttle percentage, held inside `[0, 110]` percent.
    pub throttle_percent: i64,
    /// Hit points; decremented externally on damage, never by this core.
    pub health: u32,
    pub airbrake: bool,
    pub aircraft: Aircraft,
    pub state: PlayerState,
}

/// Whether a turning mode counts as turning for the drag model.
pub open spec fn spec_is_turning(s: PlayerState) -> bool {
    s == PlayerState::TurningLeft || s == PlayerState::TurningRight
}

/// Drag coefficient: base drag, plus the airbrake drag while engaged, the
/// sum multiplied by the turn-drag factor while turning (the turn penalty
/// deliberately applies to the airbrake drag too).
pub open spec fn spec_drag_coefficient(a: Aircraft, airbrake: bool, state: PlayerState) -> int {
    let base = a.drag_base + if airbrake {
        a.airbrake_drag as int
    } else {
        0
    };
    if spec_is_turning(state) {
        base * a.turn_drag / (SCALE as int)
    } else {
        base
    }
}

/// Whole throttle percentage handed to the thrust curve.
pub open spec fn spec_throttle_units(t: int) -> u32 {
    (t / (SCALE as int)) as u32
}

/// Net acceleration of the player for one tick.  When the net force is a
/// deceleration, the thrust multiplier's amplifying effect is removed by
/// dividing the magnitude by it (deliberate game-feel asymmetry); the
/// magnitude saturates at [`DECEL_LIMIT`].
pub open spec fn spec_player_acceleration(p: Player) -> int {
    let raw = spec_acceleration(
        p.aircraft.thrust_curve@,
        spec_throttle_units(p.throttle_percent as int),
        p.aircraft.thrust_multiplier as int,
        p.speed as int,
        spec_drag_coefficient(p.aircraft, p.airbrake, p.state),
        p.aircraft.reference_area as int,
        p.aircraft.mass as int,
    );
    if raw >= 0 {
        raw
    } else {
        let dec = (-raw) * SCALE / (p.aircraft.thrust_multiplier as int);
        if dec > DECEL_LIMIT {
            -DECEL_LIMIT as int
        } else {
            -dec
        }
    }
}

/// Speed after one tick: the acceleration added as a per-tick delta
/// (frame-coupled integration, preserved deliberately), floor-clamped at
/// the stall speed and saturating at the machine range ceiling.
pub open spec fn spec_next_speed(p: Player) -> int {
    spec_clamp(
        p.speed + spec_player_acceleration(p),
        p.aircraft.stall_speed as int,
        SPEED_LIMIT as int,
    )
}

/// One frame's displacement along one axis: heading component times speed,
/// scaled by the `0.002` world factor and the frame duration.
pub open spec fn spec_pos_step(dir: int, speed: int, delta_ms: int) -> int {
    tdiv(dir * speed * 2 * delta_ms, 1000 * SCALE)
}

/// Screen wrap-around: past the viewport extent plus the edge margin, a
/// coordinate teleports to the margin outside the opposite edge.
pub open spec fn spec_wrap(x: int, extent: int) -> int {
    if x > extent + EDGE_BOUNDS {
        -EDGE_BOUNDS as int
    } else if x < -EDGE_BOUNDS {
        extent + EDGE_BOUNDS
    } else {
        x
    }
}

/// Rotation after one tick: unchanged when not turning, otherwise moved by
/// the turn rate (left negative, right positive), saturating at the machine
/// range bound.
pub open spec fn spec_next_rotation(rotation: int, state: PlayerState, turn_rate: int) -> int {
    match state {
        PlayerState::TurningLeft => spec_clamp(
            rotation - turn_rate,
            -ROT_LIMIT as int,
            ROT_LIMIT as int,
        ),
        PlayerState::TurningRight => spec_clamp(
            rotation + turn_rate,
            -ROT_LIMIT as int,
            ROT_LIMIT as int,
        ),
        PlayerState::Normal => rotation,
    }
}

/// The whole per-tick update, in order: speed from the net acceleration,
/// turn rate from the new speed, position from the old heading at the new
/// speed with wrap-around, rotation from the turning mode at the new turn
/// rate.
pub open spec fn spec_update(
    p: Player,
    delta_ms: int,
    dir_x: int,
    dir_y: int,
    screen_w: int,
    screen_h: int,
) -> Player {
    let sp = spec_next_speed(p);
    let tr = spec_turn_rate(p.aircraft, sp);
    Player {
        speed: sp as i64,
        turn_rate: tr as i64,
        pos_x: spec_wrap(p.pos_x + spec_pos_step(dir_x, sp, delta_ms), screen_w) as i64,
        pos_y: spec_wrap(p.pos_y - spec_pos_step(dir_y, sp, delta_ms), screen_h) as i64,
        rotation: spec_next_rotation(p.rotation as int, p.state, tr) as i64,
        ..p
    }
}

/// The state a freshly spawned player owes its caller: at the origin,
/// heading up, at 120 m/s and 60% throttle, full health, airbrake off, not
/// turning, flying the requested variant's profile.
pub open spec fn spec_initial_player(t: AircraftType, p: Player) -> bool {
    &&& p.wf()
    &&& spec_profile(t, p.aircraft)
    &&& p.pos_x == 0
    &&& p.pos_y == 0
    &&& p.rotation == 0
    &&& p.turn_rate == 4_000
    &&& p.speed == 1_200_000_000
    &&& p.throttle_percent == 600_000_000
    &&& p.health == p.aircraft.max_health
    &&& !p.airbrake
    &&& p.state == PlayerState::Normal
}

/// Stall-floor law: one tick from any well-formed state leaves the speed
/// at or above the profile's stall speed, whatever the frame duration,
/// heading and viewport; with [`Player::update`] preserving
/// well-formedness, the floor therefore holds after any sequence of
/// updates.
pub proof fn lemma_stall_floor(
    p: Player,
    delta_ms: int,
    dir_x: int,
    dir_y: int,
    screen_w: int,
    screen_h: int,
)
    requires
        p.wf(),
    ensures
        spec_update(p, delta_ms, dir_x, dir_y, screen_w, screen_h).speed
            >= p.aircraft.stall_speed,
{
}

impl Player {
    /// Well-formedness: the profile's invariant plus machine-range bounds
    /// on the dynamic state.
    pub open spec fn wf(&self) -> bool {
        &&& self.aircraft.wf()
        &&& 0 <= self.throttle_percent <= THROTTLE_MAX
        &&& 0 <= self.speed <= SPEED_LIMIT
        &&& 0 <= self.turn_rate <= RATE_LIMIT
        &&& -POS_LIMIT <= self.pos_x <= POS_LIMIT
        &&& -POS_LIMIT <= self.pos_y <= POS_LIMIT
        &&& -ROT_LIMIT <= self.rotation <= ROT_LIMIT
    }

    /// Spawns a player flying the given variant, at the origin, heading up,
    /// at 120 m/s and 60% throttle, with full health, airbrake off and not
    /// turning.  Fails for variants the catalog does not populate; the
    /// visual sprite is resolved by the external asset collaborator.
    pub fn new(aircraft_type: AircraftType) -> (r: Result<Player, CatalogError>)
        ensures
            match r {
                Ok(p) => spec_initial_player(aircraft_type, p),
                Err(e) => e == CatalogError::UnsupportedVariant && aircraft_type
                    == AircraftType::X47B,
            },
    {
        let aircraft = match aircraft_type.get_aircraft() {
            Ok(a) => a,
            Err(e) => {
                return Err(e);
            },
        };
        let health = aircraft.max_health;
        Ok(
            Player {
                pos_x: 0,
                pos_y: 0,
                rotation: 0,
                turn_rate: 4_000,  // 0.0004 rad per frame
                speed: 1_200_000_000,  // 120 m/s
                throttle_percent: 600_000_000,  // 60 percent
                health,
                airbrake: false,
                aircraft,
                state: PlayerState::Normal,
            },
        )
    }

    /// Sets the throttle, clamped into the `[0, 110]` percent band: never
    /// below zero, never above the overboost ceiling.
    pub fn set_throttle(&mut self, throttle_percent: i64)
        ensures
            *final(self) == (Player {
                throttle_percent: spec_clamp(throttle_percent as int, 0, THROTTLE_MAX as int)
                    as i64,
                ..*old(self)
            }),
    {
        self.throttle_percent = clamp_i64(throttle_percent, 0, THROTTLE_MAX);
    }

    /// Drag coefficient of the current state: base drag, airbrake drag
    /// added while engaged, the sum multiplied by the turn-drag factor
    /// while turning.
    pub fn get_drag_coefficient(&self) -> (r: i64)
        requires
            self.aircraft.wf(),
        ensures
            r == spec_drag_coefficient(self.aircraft, self.airbrake, self.state),
            0 <= r <= COEFF_LIMIT,
    {
        let mut drag_coefficient = self.aircraft.drag_base;
        if self.airbrake {
            drag_coefficient = drag_coefficient + self.aircraft.airbrake_drag;
        }
        if self.state == PlayerState::TurningLeft || self.state == PlayerState::TurningRight {
            proof {
                assert(drag_coefficient * self.aircraft.turn_drag <= 2_000_000_000_000_000_000
                    && 0 <= drag_coefficient * self.aircraft.turn_drag) by (nonlinear_arith)
                    requires
                        0 <= drag_coefficient <= 2_000_000_000,
                        0 <= self.aircraft.turn_drag <= 1_000_000_000,
                ;
                lemma_div_is_ordered(
                    drag_coefficient * self.aircraft.turn_drag,
                    2_000_000_000_000_000_000,
                    SCALE as int,
                );
                assert(2_000_000_000_000_000_000int == 10_000_000 * 200_000_000_000)
                    by (nonlinear_arith);
                lemma_div_multiples_vanish(200_000_000_000, 10_000_000);
            }
            let prod: u128 = (drag_coefficient as u128) * (self.aircraft.turn_drag as u128);
            drag_coefficient = (prod / (SCALE as u128)) as i64;
        }
        drag_coefficient
    }

    /// Net acceleration for one tick, with the deceleration-path division
    /// by the thrust multiplier (deliberate game-feel asymmetry: throttling
    /// down feels less multiplier-sensitive than throttling up).
    pub fn get_acceleration(&self) -> (r: i64)
        requires
            self.wf(),
        ensures
            r == spec_player_acceleration(*self),
            -DECEL_LIMIT <= r <= u32::MAX * self.aircraft.thrust_multiplier,
    {
        let drag_coefficient = self.get_drag_coefficient();
        let throttle_units: u32 = ((self.throttle_percent as u64) / (SCALE as u64)) as u32;
        let acc = Aircraft::calculate_acceleration(
            &self.aircraft.thrust_curve,
            throttle_units,
            self.aircraft.thrust_multiplier,
            self.speed,
            drag_coefficient,
            self.aircraft.reference_area,
            self.aircraft.mass,
        );
        if acc < 0 {
            proof {
                assert((-acc) * SCALE <= 10_000_000_000_000_000_000_000_000 && 0 <= (-acc)
                    * SCALE) by (nonlinear_arith)
                    requires
                        0 <= -acc <= 1_000_000_000_000_000_000,
                        SCALE == 10_000_000,
                ;
            }
            let mag: u128 = ((-acc) as u128) * (SCALE as u128)
                / (self.aircraft.thrust_multiplier as u128);
            if mag > (DECEL_LIMIT as u128) {
                -DECEL_LIMIT
            } else {
                -(mag as i64)
            }
        } else {
            acc
        }
    }

    /// Raw thrust at the current throttle, scaled by the profile's thrust
    /// multiplier.
    pub fn get_thrust(&self) -> (r: i64)
        requires
            self.wf(),
        ensures
            r == curve_thrust(
                self.aircraft.thrust_curve@,
                spec_throttle_units(self.throttle_percent as int),
                self.aircraft.thrust_multiplier as int,
            ),
            0 <= r,
    {
        let throttle_units: u32 = ((self.throttle_percent as u64) / (SCALE as u64)) as u32;
        self.aircraft.thrust_curve.get_thrust(throttle_units, self.aircraft.thrust_multiplier)
    }

    /// Integrates the acceleration into the speed and applies the stall
    /// floor: the speed never reads below `stall_speed` afterwards.
    fn update_speed(&mut self)
        requires
            old(self).wf(),
        ensures
            *final(self) == (Player { speed: spec_next_speed(*old(self)) as i64, ..*old(self) }),
            final(self).aircraft.stall_speed <= final(self).speed <= SPEED_LIMIT,
    {
        let acc = self.get_acceleration();
        let s = self.speed + acc;
        self.speed = clamp_i64(s, self.aircraft.stall_speed, SPEED_LIMIT);
    }

    /// Recomputes the turn rate from the current speed.
    fn update_turn_rate(&mut self)
        requires
            old(self).wf(),
        ensures
            *final(self) == (Player {
                turn_rate: spec_turn_rate(old(self).aircraft, old(self).speed as int) as i64,
                ..*old(self)
            }),
            0 <= final(self).turn_rate <= RATE_LIMIT,
    {
        self.turn_rate = self.aircraft.calc_turn_rate(self.speed);
    }

    /// Integrates the heading direction into the position and wraps at the
    /// viewport edges.
    fn apply_velocity(&mut self, delta_ms: u64, dir_x: i64, dir_y: i64, screen_w: i64, screen_h: i64)
        requires
            old(self).wf(),
            delta_ms <= DT_LIMIT,
            -SCALE <= dir_x <= SCALE,
            -SCALE <= dir_y <= SCALE,
            0 <= screen_w <= BOUND_LIMIT,
            0 <= screen_h <= BOUND_LIMIT,
        ensures
            *final(self) == (Player {
                pos_x: spec_wrap(
                    old(self).pos_x + spec_pos_step(
                        dir_x as int,
                        old(self).speed as int,
                        delta_ms as int,
                    ),
                    screen_w as int,
                ) as i64,
                pos_y: spec_wrap(
                    old(self).pos_y - spec_pos_step(
                        dir_y as int,
                        old(self).speed as int,
                        delta_ms as int,
                    ),
                    screen_h as int,
                ) as i64,
                ..*old(self)
            }),
            -EDGE_BOUNDS <= final(self).pos_x <= screen_w + EDGE_BOUNDS,
            -EDGE_BOUNDS <= final(self).pos_y <= screen_h + EDGE_BOUNDS,
    {
        let step_x = pos_step(dir_x, self.speed, delta_ms);
        let step_y = pos_step(dir_y, self.speed, delta_ms);
        self.pos_x = wrap_coord(self.pos_x + step_x, screen_w);
        self.pos_y = wrap_coord(self.pos_y - step_y, screen_h);
    }

    /// Applies an externally decided turning-mode transition.
    pub fn apply_action(&mut self, new_state: PlayerState)
        ensures
            *final(self) == (Player { state: new_state, ..*old(self) }),
    {
        self.state = new_state;
    }

    /// Advances the state by one tick: speed from the net acceleration
    /// (stall floor applied), turn rate from the new speed, position from
    /// the heading at the new speed with screen wrap-around, rotation from
    /// the turning mode.  `dir_x`/`dir_y` are the heading components
    /// `(sin rotation, cos rotation)` supplied by the caller; `screen_w`/
    /// `screen_h` are the extents of the external viewport collaborator.
    /// The acceleration is a per-tick delta by design (frame-coupled
    /// integration, preserved deliberately): `delta_ms` scales only the
    /// position integration.  After any sequence of updates the speed holds
    /// `speed >= stall_speed`.
    pub fn update(&mut self, delta_ms: u64, dir_x: i64, dir_y: i64, screen_w: i64, screen_h: i64)
        requires
            old(self).wf(),
            delta_ms <= DT_LIMIT,
            -SCALE <= dir_x <= SCALE,
            -SCALE <= dir_y <= SCALE,
            0 <= screen_w <= BOUND_LIMIT,
            0 <= screen_h <= BOUND_LIMIT,
        ensures
            *final(self) == spec_update(
                *old(self),
                delta_ms as int,
                dir_x as int,
                dir_y as int,
                screen_w as int,
                screen_h as int,
            ),
            final(self).wf(),
            final(self).speed >= final(self).aircraft.stall_speed,
    {
        self.update_speed();
        self.update_turn_rate();
        self.apply_velocity(delta_ms, dir_x, dir_y, screen_w, screen_h);
        match self.state {
            PlayerState::TurningLeft => {
                self.rotation = clamp_i64(self.rotation - self.turn_rate, -ROT_LIMIT, ROT_LIMIT);
            },
            PlayerState::TurningRight => {
                self.rotation = clamp_i64(self.rotation + self.turn_rate, -ROT_LIMIT, ROT_LIMIT);
            },
            PlayerState::Normal => {},
        }
    }
}

/// One frame's displacement along one axis, truncating toward zero.
fn pos_step(dir: i64, speed: i64, delta_ms: u64) -> (r: i64)
    requires
        -SCALE <= dir <= SCALE,
        0 <= speed <= SPEED_LIMIT,
        delta_ms <= DT_LIMIT,
    ensures
        r == spec_pos_step(dir as int, speed as int, delta_ms as int),
        -2_000_000_000_000_000_000 <= r <= 2_000_000_000_000_000_000,
{
    let mag: u64 = if dir >= 0 {
        dir as u64
    } else {
        (-dir) as u64
    };
    proof {
        assert((mag * speed) * (2 * delta_ms) <= 20_000_000_000_000_000_000_000_000_000
            && 0 <= (mag * speed) * (2 * delta_ms) && mag * speed <= 10_000_000_000_000_000_000)
            by (nonlinear_arith)
            requires
                0 <= mag <= 10_000_000,
                0 <= speed <= 1_000_000_000_000,
                0 <= delta_ms <= 1_000_000_000,
        ;
        lemma_div_is_ordered(
            (mag * speed) * (2 * delta_ms),
            20_000_000_000_000_000_000_000_000_000,
            10_000_000_000,
        );
        assert(20_000_000_000_000_000_000_000_000_000int == 10_000_000_000
            * 2_000_000_000_000_000_000) by (nonlinear_arith);
        lemma_div_multiples_vanish(2_000_000_000_000_000_000, 10_000_000_000);
        assert(1000 * SCALE == 10_000_000_000int);
        assert((mag * speed) * (2 * delta_ms) == mag * speed * 2 * delta_ms) by (nonlinear_arith);
        if dir < 0 {
            assert(mag * speed * 2 * delta_ms == -(dir * speed * 2 * delta_ms))
                by (nonlinear_arith)
                requires
                    mag == -dir,
            ;
        }
    }
    let num: u128 = ((mag as u128) * (speed as u128)) * (2 * (delta_ms as u128));
    let q: u128 = num / 10_000_000_000;
    if dir >= 0 {
        q as i64
    } else {
        -(q as i64)
    }
}

/// Wraps one coordinate at the viewport edges.
fn wrap_coord(x: i64, extent: i64) -> (r: i64)
    requires
        -4_000_000_000_000_000_000 <= x <= 4_000_000_000_000_000_000,
        0 <= extent <= BOUND_LIMIT,
    ensures
        r == spec_wrap(x as int, extent as int),
        -EDGE_BOUNDS <= r <= extent + EDGE_BOUNDS,
{
    if x > extent + EDGE_BOUNDS {
        -EDGE_BOUNDS
    } else if x < -EDGE_BOUNDS {
        extent + EDGE_BOUNDS
    } else {
        x
    }
}

} // verus!
