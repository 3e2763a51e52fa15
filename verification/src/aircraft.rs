//! Aircraft performance model: the piecewise-linear thrust curve, the
//! per-variant performance catalog and the flight-model math (turn rate and
//! acceleration derivation).

use vstd::prelude::*;
use vstd::arithmetic::div_mod::{
    lemma_div_is_ordered, lemma_div_is_ordered_by_denominator, lemma_div_multiples_vanish,
    lemma_div_pos_is_pos,
};

use crate::fixed::{
    spec_clamp, AREA_LIMIT, COEFF_LIMIT, DECEL_LIMIT, DRAG_FACTOR_LIMIT, FLIP_LIMIT, FORCE_LIMIT,
    MASS_LIMIT, MASS_MIN, MULT_LIMIT, RATE_LIMIT, SCALE, SPEED_LIMIT,
};

verus! {

/// Requested aircraft variant, resolved to a full performance profile by
/// [`AircraftType::get_aircraft`].
#[derive(Debug, Clone, Copy, PartialEq, Eq, Structural)]
pub enum AircraftType {
    F16,
    GripenE,
    X47B,
}

/// Construction-time failure of the catalog or of the (external) asset
/// collaborator.  No error exists inside the per-tick update path.
#[derive(Debug, Clone, Copy, PartialEq, Eq, Structural)]
pub enum CatalogError {
    /// The requested variant has no populated profile.
    UnsupportedVariant,
    /// The variant's visual asset failed to load (raised by the asset
    /// collaborator, never by the core itself).
    AssetUnavailable,
}

/// Control points sorted strictly by throttle key: the representation
/// invariant of [`ThrustCurve`].
pub open spec fn curve_sorted(s: Seq<(u32, u32)>) -> bool {
    forall|i: int, j: int| 0 <= i < j < s.len() ==> s[i].0 < s[j].0
}

/// The mapping from throttle keys to raw thrust that a control-point
/// sequence holds (later points override earlier ones on equal keys).
pub open spec fn curve_map(s: Seq<(u32, u32)>) -> Map<u32, u32>
    decreases s.len(),
{
    if s.len() == 0 {
        Map::empty()
    } else {
        curve_map(s.drop_last()).insert(s.last().0, s.last().1)
    }
}

/// Linear interpolation between the control points `lo` and `hi` at
/// throttle `t` strictly inside the segment, scaled by the fixed-point
/// multiplier `m`: the interpolated raw thrust times `m`, truncated once.
pub open spec fn seg_interp(lo: (u32, u32), hi: (u32, u32), t: u32, m: int) -> int {
    ((lo.1 * (hi.0 - lo.0) + (t - lo.0) * (hi.1 - lo.1)) * m) / (hi.0 - lo.0)
}

/// Thrust over one bracketing segment: exact at the endpoints (no
/// interpolation error), linear in between.
pub open spec fn seg_thrust(lo: (u32, u32), hi: (u32, u32), t: u32, m: int) -> int {
    if t <= lo.0 {
        lo.1 * m
    } else if t >= hi.0 {
        hi.1 * m
    } else {
        seg_interp(lo, hi, t, m)
    }
}

/// Thrust that a sorted control-point sequence yields at throttle `t` with
/// fixed-point multiplier `m`: zero on an empty curve, flat extrapolation
/// outside the key range, exact at keys, linear interpolation between the
/// tightest bracketing pair.
pub open spec fn curve_thrust(s: Seq<(u32, u32)>, t: u32, m: int) -> int
    decreases s.len(),
{
    if s.len() == 0 {
        0
    } else if s.len() == 1 {
        s[0].1 * m
    } else if t <= s[1].0 {
        seg_thrust(s[0], s[1], t, m)
    } else {
        curve_thrust(s.subrange(1, s.len() as int), t, m)
    }
}

/// Sparse control-point table mapping throttle percentage to raw engine
/// thrust, interpolated piecewise-linearly by [`ThrustCurve::get_thrust`].
#[derive(Debug, Clone)]
pub struct ThrustCurve {
    /// Control points `(throttle key, raw thrust)`, sorted strictly
    /// ascending by key.
    pub points: Vec<(u32, u32)>,
}

impl View for ThrustCurve {
    type V = Seq<(u32, u32)>;

    open spec fn view(&self) -> Seq<(u32, u32)> {
        self.points@
    }
}

impl ThrustCurve {
    /// The representation invariant: keys strictly ascending.
    pub open spec fn wf(&self) -> bool {
        curve_sorted(self@)
    }

    /// An empty curve: the degenerate case on which `get_thrust` is zero.
    pub fn new() -> (r: Self)
        ensures
            r@ == Seq::<(u32, u32)>::empty(),
            r.wf(),
    {
        Self { points: Vec::new() }
    }

    /// Inserts a control point, overwriting the raw thrust if the throttle
    /// key is already present.  Call order carries no constraint.
    pub fn add_point(&mut self, throttle: u32, thrust: u32)
        requires
            old(self).wf(),
        ensures
            final(self).wf(),
            curve_map(final(self)@) == curve_map(old(self)@).insert(throttle, thrust),
            (forall|i: int| 0 <= i < old(self)@.len() ==> #[trigger] old(self)@[i].0 < throttle)
                ==> final(self)@ == old(self)@.push((throttle, thrust)),
    {
        let ghost s0 = self@;
        let n = self.points.len();
        let mut i: usize = 0;
        while i < n && self.points[i].0 < throttle
            invariant
                n == self@.len(),
                self@ == s0,
                0 <= i <= n,
                forall|j: int| 0 <= j < i ==> #[trigger] self@[j].0 < throttle,
            decreases n - i,
        {
            i = i + 1;
        }
        if i < n && self.points[i].0 == throttle {
            self.points.remove(i);
            self.points.insert(i, (throttle, thrust));
            proof {
                assert(self@ =~= s0.update(i as int, (throttle, thrust)));
                lemma_curve_map_update(s0, i as int, thrust);
                assert(curve_sorted(self@));
            }
        } else {
            proof {
                assert(forall|j: int| i <= j < n ==> throttle < #[trigger] s0[j].0) by {
                    assert(forall|j: int| i < j < n ==> #[trigger] s0[j].0 > s0[i as int].0);
                }
            }
            self.points.insert(i, (throttle, thrust));
            proof {
                lemma_curve_map_insert(s0, i as int, throttle, thrust);
                assert(curve_sorted(self@));
                if forall|k: int| 0 <= k < s0.len() ==> #[trigger] s0[k].0 < throttle {
                    assert(i == n);
                    assert(self@ =~= s0.push((throttle, thrust)));
                }
            }
        }
    }

    /// Raw thrust at the given throttle percentage, scaled by the
    /// fixed-point thrust multiplier.  Pure and total: zero on an empty
    /// curve, flat extrapolation outside the key range, exact (no
    /// interpolation error) at an exact key match, linear interpolation
    /// over the tightest bracketing pair of keys otherwise.
    pub fn get_thrust(&self, throttle_percent: u32, thrust_multiplier: i64) -> (r: i64)
        requires
            self.wf(),
            0 <= thrust_multiplier <= MULT_LIMIT,
        ensures
            r == curve_thrust(self@, throttle_percent, thrust_multiplier as int),
            0 <= r <= u32::MAX * thrust_multiplier,
    {
        let ghost m = thrust_multiplier as int;
        proof {
            lemma_curve_thrust_bounds(self@, throttle_percent, m);
        }
        let n = self.points.len();
        if n == 0 {
            return 0;
        }
        if throttle_percent <= self.points[0].0 {
            proof {
                lemma_curve_thrust_low(self@, throttle_percent, m);
            }
            return mul_raw_mult(self.points[0].1, thrust_multiplier);
        }
        let mut i: usize = 0;
        while i + 1 < n && self.points[i + 1].0 < throttle_percent
            invariant
                self.wf(),
                n == self@.len(),
                0 <= i < n,
                self@[i as int].0 < throttle_percent,
            decreases n - i,
        {
            i = i + 1;
        }
        if i + 1 == n {
            proof {
                lemma_curve_thrust_high(self@, throttle_percent, m);
            }
            return mul_raw_mult(self.points[n - 1].1, thrust_multiplier);
        }
        let lo = self.points[i];
        let hi = self.points[i + 1];
        proof {
            lemma_curve_thrust_segment(self@, i as int, throttle_percent, m);
        }
        if throttle_percent >= hi.0 {
            return mul_raw_mult(hi.1, thrust_multiplier);
        }
        let d: u32 = hi.0 - lo.0;
        let ghost num_spec = lo.1 * d + (throttle_percent - lo.0) * (hi.1 - lo.1);
        proof {
            assert(lo.1 as int * (d as int) <= u32::MAX * u32::MAX) by (nonlinear_arith)
                requires
                    0 <= lo.1 <= u32::MAX,
                    0 <= d <= u32::MAX,
            ;
            assert((throttle_percent - lo.0) * (hi.1 - lo.1) <= u32::MAX * u32::MAX
                && (throttle_percent - lo.0) * (hi.1 - lo.1) >= -(u32::MAX * u32::MAX))
                by (nonlinear_arith)
                requires
                    0 <= throttle_percent - lo.0 <= u32::MAX,
                    -u32::MAX <= hi.1 - lo.1 <= u32::MAX,
            ;
            assert(0 <= num_spec <= u32::MAX * d) by (nonlinear_arith)
                requires
                    d == hi.0 - lo.0,
                    num_spec == lo.1 * d + (throttle_percent - lo.0) * (hi.1 - lo.1),
                    0 < throttle_percent - lo.0 < d,
                    0 <= lo.1 <= u32::MAX,
                    0 <= hi.1 <= u32::MAX,
            ;
        }
        let num: i128 = (lo.1 as i128) * (d as i128)
            + ((throttle_percent - lo.0) as i128) * ((hi.1 as i128) - (lo.1 as i128));
        proof {
            assert(num * m <= (u32::MAX * d) * m && 0 <= num * m) by (nonlinear_arith)
                requires
                    0 <= num <= u32::MAX * d,
                    0 <= m,
            ;
            assert((u32::MAX * d) * m <= u32::MAX * u32::MAX * MULT_LIMIT) by (nonlinear_arith)
                requires
                    0 <= d <= u32::MAX,
                    0 <= m <= MULT_LIMIT,
            ;
        }
        let prod: i128 = num * (thrust_multiplier as i128);
        let q: u128 = (prod as u128) / (d as u128);
        proof {
            assert(q == seg_interp(lo, hi, throttle_percent, m));
        }
        q as i64
    }
}

/// Immutable per-variant performance constants plus the variant's thrust
/// curve.  All fractional quantities are fixed-point (see [`crate::fixed`]).
#[derive(Debug, Clone)]
pub struct Aircraft {
    pub name: String,
    pub max_health: u32,
    /// Turn rate at the flip-point speed, radians per frame.
    pub base_turn_rate: i64,
    /// Speed of maximal turn authority, m/s.
    pub turn_flip_point: i64,
    pub max_turn_rate: i64,
    pub min_turn_rate: i64,
    /// Floor below which the speed is clamped every tick, m/s.
    pub stall_speed: i64,
    pub drag_base: i64,
    /// Multiplier applied to the drag coefficient while turning.
    pub turn_drag: i64,
    /// Added to the drag coefficient while the airbrake is engaged.
    pub airbrake_drag: i64,
    /// Wing reference area, square metres.
    pub reference_area: i64,
    /// Mass, kilograms.
    pub mass: i64,
    /// Scales the raw thrust read off the curve.
    pub thrust_multiplier: i64,
    /// Milliseconds between bullets (read by an external collaborator).
    pub bullet_fire_rate: u32,
    pub thrust_curve: ThrustCurve,
}

/// The unclamped tent-shaped turn rate: maximal at the flip point, degraded
/// linearly on both sides by `base_turn_rate / 150` per m/s of distance.
pub open spec fn spec_turn_rate_raw(a: Aircraft, speed: int) -> int {
    if speed <= a.turn_flip_point {
        a.base_turn_rate + (a.turn_flip_point - speed) * a.base_turn_rate / (150 * SCALE)
    } else {
        a.base_turn_rate - (speed - a.turn_flip_point) * a.base_turn_rate / (150 * SCALE)
    }
}

/// Turn rate at a given speed: the tent function clamped into the
/// aircraft's `[min_turn_rate, max_turn_rate]` ability range.
pub open spec fn spec_turn_rate(a: Aircraft, speed: int) -> int {
    spec_clamp(spec_turn_rate_raw(a, speed), a.min_turn_rate as int, a.max_turn_rate as int)
}

/// Drag force at a given speed: `0.5 * coefficient * area * speed^2` in
/// fixed point, truncated in two stages and saturating at the machine
/// range bound [`FORCE_LIMIT`].
pub open spec fn spec_drag_force(coeff: int, area: int, speed: int) -> int {
    let d = (coeff * area * speed / (SCALE * SCALE)) * speed / (2 * SCALE);
    if d > FORCE_LIMIT {
        FORCE_LIMIT as int
    } else {
        d
    }
}

/// Net acceleration `(thrust - drag) / mass` in fixed point, the division
/// truncating toward zero.
pub open spec fn spec_acceleration(
    s: Seq<(u32, u32)>,
    throttle_percent: u32,
    mult: int,
    speed: int,
    coeff: int,
    area: int,
    mass: int,
) -> int {
    let thrust = curve_thrust(s, throttle_percent, mult);
    let drag = spec_drag_force(coeff, area, speed);
    if thrust >= drag {
        (thrust - drag) * SCALE / mass
    } else {
        -((drag - thrust) * SCALE / mass)
    }
}

impl Aircraft {
    /// Well-formedness: the curve invariant plus machine-range bounds on
    /// every constant, so that the flight-model arithmetic cannot overflow.
    pub open spec fn wf(&self) -> bool {
        &&& curve_sorted(self.thrust_curve@)
        &&& 0 <= self.base_turn_rate <= RATE_LIMIT
        &&& 0 <= self.min_turn_rate <= self.max_turn_rate <= RATE_LIMIT
        &&& 0 <= self.turn_flip_point <= FLIP_LIMIT
        &&& 0 <= self.stall_speed <= SPEED_LIMIT
        &&& 0 <= self.drag_base <= DRAG_FACTOR_LIMIT
        &&& 0 <= self.airbrake_drag <= DRAG_FACTOR_LIMIT
        &&& 0 <= self.turn_drag <= DRAG_FACTOR_LIMIT
        &&& 0 < self.reference_area <= AREA_LIMIT
        &&& MASS_MIN <= self.mass <= MASS_LIMIT
        &&& 0 < self.thrust_multiplier <= MULT_LIMIT
    }

    /// Turn rate available at the given speed: the tent function around the
    /// flip point, clamped to the aircraft's abilities.
    pub fn calc_turn_rate(&self, speed: i64) -> (r: i64)
        requires
            self.wf(),
            0 <= speed <= SPEED_LIMIT,
        ensures
            r == spec_turn_rate(*self, speed as int),
            self.min_turn_rate <= r <= self.max_turn_rate,
    {
        let base = self.base_turn_rate;
        let midpoint = self.turn_flip_point;
        let denom: u128 = 150 * (SCALE as u128);
        let raw: i64;
        if speed <= midpoint {
            let diff: u128 = (midpoint - speed) as u128;
            proof {
                assert(diff * base <= (FLIP_LIMIT + SPEED_LIMIT) as u128 * RATE_LIMIT as u128)
                    by (nonlinear_arith)
                    requires
                        0 <= diff <= (FLIP_LIMIT + SPEED_LIMIT) as u128,
                        0 <= base <= RATE_LIMIT,
                ;
                lemma_div_is_ordered(
                    diff as int * base as int,
                    (FLIP_LIMIT + SPEED_LIMIT) * RATE_LIMIT,
                    denom as int,
                );
            }
            let dev: u128 = diff * (base as u128) / denom;
            raw = base + (dev as i64);
        } else {
            let diff: u128 = (speed - midpoint) as u128;
            proof {
                assert(diff * base <= SPEED_LIMIT as u128 * RATE_LIMIT as u128)
                    by (nonlinear_arith)
                    requires
                        0 <= diff <= SPEED_LIMIT as u128,
                        0 <= base <= RATE_LIMIT,
                ;
                lemma_div_is_ordered(diff as int * base as int, SPEED_LIMIT * RATE_LIMIT, denom as int);
            }
            let dev: u128 = diff * (base as u128) / denom;
            raw = base - (dev as i64);
        }
        crate::fixed::clamp_i64(raw, self.min_turn_rate, self.max_turn_rate)
    }

    /// Acceleration from throttle, speed, drag and mass: thrust read off the
    /// curve, quadratic drag subtracted, net force divided by mass.
    pub fn calculate_acceleration(
        thrust_curve: &ThrustCurve,
        throttle_percent: u32,
        thrust_multiplier: i64,
        speed: i64,
        drag_coefficient: i64,
        reference_area: i64,
        mass: i64,
    ) -> (r: i64)
        requires
            thrust_curve.wf(),
            0 <= thrust_multiplier <= MULT_LIMIT,
            0 <= speed <= SPEED_LIMIT,
            0 <= drag_coefficient <= COEFF_LIMIT,
            0 < reference_area <= AREA_LIMIT,
            MASS_MIN <= mass <= MASS_LIMIT,
        ensures
            r == spec_acceleration(
                thrust_curve@,
                throttle_percent,
                thrust_multiplier as int,
                speed as int,
                drag_coefficient as int,
                reference_area as int,
                mass as int,
            ),
            -DECEL_LIMIT <= r <= u32::MAX * thrust_multiplier,
    {
        let thrust: i64 = thrust_curve.get_thrust(throttle_percent, thrust_multiplier);
        let s2: u128 = 100_000_000_000_000;
        proof {
            assert(s2 == SCALE * SCALE) by (nonlinear_arith)
                requires
                    s2 == 100_000_000_000_000u128,
                    SCALE == 10_000_000,
            ;
            assert(drag_coefficient * reference_area <= 20_000_000_000_000_000_000_000
                && 0 <= drag_coefficient * reference_area) by (nonlinear_arith)
                requires
                    0 <= drag_coefficient <= 200_000_000_000,
                    0 <= reference_area <= 100_000_000_000,
            ;
            assert((drag_coefficient * reference_area) * speed
                <= 20_000_000_000_000_000_000_000_000_000_000_000
                && 0 <= (drag_coefficient * reference_area) * speed) by (nonlinear_arith)
                requires
                    0 <= drag_coefficient * reference_area <= 20_000_000_000_000_000_000_000,
                    0 <= speed <= 1_000_000_000_000,
            ;
            lemma_div_is_ordered(
                (drag_coefficient * reference_area) * speed,
                20_000_000_000_000_000_000_000_000_000_000_000,
                s2 as int,
            );
            assert(20_000_000_000_000_000_000_000_000_000_000_000int == 100_000_000_000_000
                * 200_000_000_000_000_000_000) by (nonlinear_arith);
            lemma_div_multiples_vanish(200_000_000_000_000_000_000, 100_000_000_000_000);
        }
        let step1: u128 = (drag_coefficient as u128) * (reference_area as u128) * (speed as u128)
            / s2;
        proof {
            assert(step1 * speed <= 200_000_000_000_000_000_000_000_000_000_000
                && 0 <= step1 * speed) by (nonlinear_arith)
                requires
                    0 <= step1 <= 200_000_000_000_000_000_000u128,
                    0 <= speed <= 1_000_000_000_000,
            ;
        }
        let drag128: u128 = step1 * (speed as u128) / (2 * (SCALE as u128));
        let drag: i64 = if drag128 > (FORCE_LIMIT as u128) {
            FORCE_LIMIT
        } else {
            drag128 as i64
        };
        proof {
            assert(thrust <= 4_294_967_295_000_000_000) by {
                assert(u32::MAX * thrust_multiplier <= 4_294_967_295_000_000_000)
                    by (nonlinear_arith)
                    requires
                        0 <= thrust_multiplier <= 1_000_000_000,
                ;
            }
        }
        if thrust >= drag {
            let net: i64 = thrust - drag;
            proof {
                assert(net * SCALE <= 43_000_000_000_000_000_000_000_000_000
                    && 0 <= net * SCALE) by (nonlinear_arith)
                    requires
                        0 <= net <= 4_294_967_295_000_000_000,
                        SCALE == 10_000_000,
                ;
                lemma_div_is_ordered_by_denominator(net * SCALE, SCALE as int, mass as int);
                lemma_div_multiples_vanish(net as int, SCALE as int);
                assert(net * SCALE == SCALE * net) by (nonlinear_arith);
            }
            let acc: u128 = ((net as u128) * (SCALE as u128)) / (mass as u128);
            acc as i64
        } else {
            let gap: i64 = drag - thrust;
            proof {
                assert(gap * SCALE <= 10_000_000_000_000_000_000_000_000
                    && 0 <= gap * SCALE) by (nonlinear_arith)
                    requires
                        0 <= gap <= 1_000_000_000_000_000_000,
                        SCALE == 10_000_000,
                ;
                lemma_div_is_ordered_by_denominator(gap * SCALE, SCALE as int, mass as int);
                lemma_div_multiples_vanish(gap as int, SCALE as int);
                assert(gap * SCALE == SCALE * gap) by (nonlinear_arith);
            }
            let dec: u128 = ((gap as u128) * (SCALE as u128)) / (mass as u128);
            -(dec as i64)
        }
    }
}

/// The control points shared by the populated catalog entries; the two
/// variants differ only in the raw thrust at the top of the overboost band.
pub open spec fn spec_standard_curve(top: u32) -> Seq<(u32, u32)> {
    seq![
        (0u32, 0u32),
        (25u32, 500u32),
        (50u32, 1500u32),
        (75u32, 3000u32),
        (85u32, 4000u32),
        (90u32, 4800u32),
        (100u32, 5000u32),
        (110u32, top),
    ]
}

/// Performance constants shared by the populated catalog entries.
pub open spec fn spec_standard_constants(a: Aircraft) -> bool {
    &&& a.max_health == 100
    &&& a.base_turn_rate == 400_000  // 0.04 rad per frame
    &&& a.turn_flip_point == 1_000_000_000  // 100 m/s
    &&& a.max_turn_rate == 600_000  // 0.06 rad per frame
    &&& a.min_turn_rate == 250_000  // 0.025 rad per frame
    &&& a.stall_speed == 500_000_000  // 50 m/s
    &&& a.drag_base == 200_000  // 0.02
    &&& a.turn_drag == 12_000_000  // 1.2
    &&& a.airbrake_drag == 600_000  // 0.06
    &&& a.reference_area == 300_000_000  // 30 m^2
    &&& a.mass == 80_000_000_000  // 8000 kg
    &&& a.thrust_multiplier == 49_090_909  // 4.9090909
    &&& a.bullet_fire_rate == 10  // ms
}

/// The exact profile the catalog owes each variant: design data, not
/// derived values.
pub open spec fn spec_profile(t: AircraftType, a: Aircraft) -> bool {
    match t {
        AircraftType::F16 => a.name@ == "F-16"@ && a.thrust_curve@ == spec_standard_curve(6000)
            && spec_standard_constants(a),
        AircraftType::GripenE => a.name@ == "Gripen"@ && a.thrust_curve@ == spec_standard_curve(
            5500,
        ) && spec_standard_constants(a),
        AircraftType::X47B => false,
    }
}

/// Builds the shared thrust-curve table with the given overboost top value.
fn standard_curve(top: u32) -> (c: ThrustCurve)
    ensures
        c@ == spec_standard_curve(top),
        c.wf(),
{
    let mut thrust_curve = ThrustCurve::new();
    thrust_curve.add_point(0, 0);  // At 0% throttle, no thrust
    thrust_curve.add_point(25, 500);  // At 25% throttle, 500 units of thrust
    thrust_curve.add_point(50, 1500);  // At 50% throttle, 1500 units of thrust
    thrust_curve.add_point(75, 3000);  // At 75% throttle, 3000 units of thrust
    thrust_curve.add_point(85, 4000);  // At 85% throttle, 4000 units of thrust
    thrust_curve.add_point(90, 4800);  // At 90% throttle, 4800 units of thrust
    thrust_curve.add_point(100, 5000);  // At 100% throttle, 5000 units of thrust
    thrust_curve.add_point(110, top);
    proof {
        assert(thrust_curve@ =~= spec_standard_curve(top));
    }
    thrust_curve
}

impl AircraftType {
    /// Resolves the variant tag to its fully populated performance profile,
    /// or `UnsupportedVariant` for catalog entries without one.  Loading the
    /// variant's visual sprite belongs to the external asset collaborator.
    pub fn get_aircraft(&self) -> (r: Result<Aircraft, CatalogError>)
        ensures
            match r {
                Ok(a) => spec_profile(*self, a) && a.wf(),
                Err(e) => e == CatalogError::UnsupportedVariant && *self == AircraftType::X47B,
            },
    {
        match self {
            AircraftType::F16 => Ok(
                Aircraft {
                    name: "F-16".to_owned(),
                    max_health: 100,
                    base_turn_rate: 400_000,
                    turn_flip_point: 1_000_000_000,
                    max_turn_rate: 600_000,
                    min_turn_rate: 250_000,
                    stall_speed: 500_000_000,
                    drag_base: 200_000,
                    turn_drag: 12_000_000,
                    airbrake_drag: 600_000,
                    reference_area: 300_000_000,
                    mass: 80_000_000_000,
                    thrust_multiplier: 49_090_909,
                    bullet_fire_rate: 10,
                    thrust_curve: standard_curve(6000),
                },
            ),
            AircraftType::GripenE => Ok(
                Aircraft {
                    name: "Gripen".to_owned(),
                    max_health: 100,
                    base_turn_rate: 400_000,
                    turn_flip_point: 1_000_000_000,
                    max_turn_rate: 600_000,
                    min_turn_rate: 250_000,
                    stall_speed: 500_000_000,
                    drag_base: 200_000,
                    turn_drag: 12_000_000,
                    airbrake_drag: 600_000,
                    reference_area: 300_000_000,
                    mass: 80_000_000_000,
                    thrust_multiplier: 49_090_909,
                    bullet_fire_rate: 10,
                    thrust_curve: standard_curve(5500),
                },
            ),
            AircraftType::X47B => Err(CatalogError::UnsupportedVariant),
        }
    }
}

/// Turn-rate clamping law: at every speed, the turn rate stays inside the
/// aircraft's `[min_turn_rate, max_turn_rate]` ability range.
pub proof fn lemma_turn_rate_clamped(a: Aircraft, speed: int)
    requires
        a.min_turn_rate <= a.max_turn_rate,
    ensures
        a.min_turn_rate <= spec_turn_rate(a, speed) <= a.max_turn_rate,
{
}

/// Turn-rate symmetry law: at equal distances below and above the flip
/// point, and inside the unclamped region of the tent, the turn rate
/// deviates from the base rate by exactly the same amount in opposite
/// directions.
pub proof fn lemma_turn_rate_symmetric(a: Aircraft, d: int)
    requires
        a.wf(),
        0 <= d <= a.turn_flip_point,
        a.min_turn_rate <= a.base_turn_rate - d * a.base_turn_rate / (150 * SCALE),
        a.base_turn_rate + d * a.base_turn_rate / (150 * SCALE) <= a.max_turn_rate,
    ensures
        spec_turn_rate(a, a.turn_flip_point - d) - a.base_turn_rate == a.base_turn_rate
            - spec_turn_rate(a, a.turn_flip_point + d),
{
    lemma_div_pos_is_pos(d * a.base_turn_rate, 150 * SCALE);
    assert(d * a.base_turn_rate >= 0) by (nonlinear_arith)
        requires
            d >= 0,
            a.base_turn_rate >= 0,
    ;
    if d == 0 {
    } else {
        assert(a.turn_flip_point - (a.turn_flip_point - d) == d);
        assert((a.turn_flip_point + d) - a.turn_flip_point == d);
    }
}

/// A raw thrust value times a fixed-point multiplier, exactly.
fn mul_raw_mult(v: u32, m: i64) -> (r: i64)
    requires
        0 <= m <= MULT_LIMIT,
    ensures
        r == v * m,
{
    proof {
        assert(0 <= v * m <= u32::MAX * MULT_LIMIT) by (nonlinear_arith)
            requires
                0 <= v <= u32::MAX,
                0 <= m <= MULT_LIMIT,
        ;
    }
    let p: u128 = (v as u128) * (m as u128);
    p as i64
}

/// On a curve with at least one point, a throttle at or below the smallest
/// key collapses the bracket to that key: flat extrapolation downward.
proof fn lemma_curve_thrust_low(s: Seq<(u32, u32)>, t: u32, m: int)
    requires
        curve_sorted(s),
        s.len() > 0,
        t <= s[0].0,
    ensures
        curve_thrust(s, t, m) == s[0].1 * m,
{
    if s.len() > 1 {
        assert(s[0].0 < s[1].0);
    }
}

/// A throttle at or above the largest key collapses the bracket to that
/// key: flat extrapolation upward.
proof fn lemma_curve_thrust_high(s: Seq<(u32, u32)>, t: u32, m: int)
    requires
        curve_sorted(s),
        s.len() > 0,
        t >= s.last().0,
    ensures
        curve_thrust(s, t, m) == s.last().1 * m,
    decreases s.len(),
{
    if s.len() > 1 {
        if t <= s[1].0 {
            assert(s[1].0 <= s.last().0);
            assert(t == s[1].0 && s.len() == 2);
        } else {
            let rest = s.subrange(1, s.len() as int);
            lemma_curve_thrust_high(rest, t, m);
            assert(rest.last() == s.last());
        }
    }
}

/// A throttle strictly bracketed by the adjacent keys at positions `k` and
/// `k + 1` is interpolated over exactly that segment.
proof fn lemma_curve_thrust_segment(s: Seq<(u32, u32)>, k: int, t: u32, m: int)
    requires
        curve_sorted(s),
        0 <= k,
        k + 1 < s.len(),
        s[k].0 < t,
        t <= s[k + 1].0,
    ensures
        curve_thrust(s, t, m) == seg_thrust(s[k], s[k + 1], t, m),
    decreases k,
{
    if k == 0 {
        assert(t <= s[1].0);
    } else {
        assert(s[1].0 <= s[k].0);
        let rest = s.subrange(1, s.len() as int);
        lemma_curve_thrust_segment(rest, k - 1, t, m);
        assert(rest[k - 1] == s[k] && rest[k] == s[k + 1]);
    }
}

/// Thrust over one segment lies between zero and the largest raw thrust
/// value times the multiplier.
proof fn lemma_seg_thrust_bounds(lo: (u32, u32), hi: (u32, u32), t: u32, m: int)
    requires
        lo.0 < hi.0,
        0 <= m,
    ensures
        0 <= seg_thrust(lo, hi, t, m) <= u32::MAX * m,
{
    if t <= lo.0 || t >= hi.0 {
        let v = if t <= lo.0 { lo.1 } else { hi.1 };
        assert(0 <= v * m <= u32::MAX * m) by (nonlinear_arith)
            requires
                0 <= v <= u32::MAX,
                0 <= m,
        ;
    } else {
        let d = hi.0 - lo.0;
        let num = lo.1 * d + (t - lo.0) * (hi.1 - lo.1);
        assert(0 <= num <= u32::MAX * d) by (nonlinear_arith)
            requires
                d == hi.0 - lo.0,
                num == lo.1 * d + (t - lo.0) * (hi.1 - lo.1),
                0 < t - lo.0 < d,
                0 <= lo.1 <= u32::MAX,
                0 <= hi.1 <= u32::MAX,
        ;
        assert(0 <= num * m <= (u32::MAX * d) * m) by (nonlinear_arith)
            requires
                0 <= num <= u32::MAX * d,
                0 <= m,
        ;
        assert((u32::MAX * d) * m == d * (u32::MAX * m)) by (nonlinear_arith);
        lemma_div_pos_is_pos(num * m, d as int);
        lemma_div_is_ordered(num * m, d * (u32::MAX * m), d as int);
        lemma_div_multiples_vanish(u32::MAX * m, d as int);
    }
}

/// The thrust of a sorted curve lies between zero and the largest raw
/// thrust value times the multiplier.
pub proof fn lemma_curve_thrust_bounds(s: Seq<(u32, u32)>, t: u32, m: int)
    requires
        curve_sorted(s),
        0 <= m,
    ensures
        0 <= curve_thrust(s, t, m) <= u32::MAX * m,
    decreases s.len(),
{
    if s.len() == 0 {
        assert(u32::MAX * m >= 0) by (nonlinear_arith)
            requires
                0 <= m,
        ;
    } else if s.len() == 1 {
        assert(0 <= s[0].1 * m <= u32::MAX * m) by (nonlinear_arith)
            requires
                0 <= s[0].1 <= u32::MAX,
                0 <= m,
        ;
    } else if t <= s[1].0 {
        assert(s[0].0 < s[1].0);
        lemma_seg_thrust_bounds(s[0], s[1], t, m);
    } else {
        lemma_curve_thrust_bounds(s.subrange(1, s.len() as int), t, m);
    }
}

/// Raw thrust values non-decreasing along the (sorted) control points.
pub open spec fn curve_monotone(s: Seq<(u32, u32)>) -> bool {
    forall|i: int, j: int| 0 <= i < j < s.len() ==> s[i].1 <= s[j].1
}

/// Thrust over one non-decreasing segment lies between the raw thrust of
/// its two endpoints, times the multiplier.
proof fn lemma_seg_thrust_range(lo: (u32, u32), hi: (u32, u32), t: u32, m: int)
    requires
        lo.0 < hi.0,
        lo.1 <= hi.1,
        0 <= m,
    ensures
        lo.1 * m <= seg_thrust(lo, hi, t, m) <= hi.1 * m,
{
    if t <= lo.0 || t >= hi.0 {
        assert(lo.1 * m <= hi.1 * m) by (nonlinear_arith)
            requires
                lo.1 <= hi.1,
                0 <= m,
        ;
    } else {
        let d = hi.0 - lo.0;
        let num = lo.1 * d + (t - lo.0) * (hi.1 - lo.1);
        assert(lo.1 * d <= num <= hi.1 * d) by (nonlinear_arith)
            requires
                d == hi.0 - lo.0,
                num == lo.1 * d + (t - lo.0) * (hi.1 - lo.1),
                0 < t - lo.0 < d,
                lo.1 <= hi.1,
        ;
        assert(d * (lo.1 * m) <= num * m <= d * (hi.1 * m)) by (nonlinear_arith)
            requires
                lo.1 * d <= num <= hi.1 * d,
                0 <= m,
        ;
        lemma_div_is_ordered(d * (lo.1 * m), num * m, d as int);
        lemma_div_is_ordered(num * m, d * (hi.1 * m), d as int);
        lemma_div_multiples_vanish(lo.1 * m, d as int);
        lemma_div_multiples_vanish(hi.1 * m, d as int);
    }
}

/// Thrust over one non-decreasing segment is monotone in the throttle.
proof fn lemma_seg_thrust_monotone(lo: (u32, u32), hi: (u32, u32), t1: u32, t2: u32, m: int)
    requires
        lo.0 < hi.0,
        lo.1 <= hi.1,
        0 <= m,
        t1 <= t2,
    ensures
        seg_thrust(lo, hi, t1, m) <= seg_thrust(lo, hi, t2, m),
{
    lemma_seg_thrust_range(lo, hi, t1, m);
    lemma_seg_thrust_range(lo, hi, t2, m);
    if lo.0 < t1 && t2 < hi.0 {
        let d = hi.0 - lo.0;
        let num1 = lo.1 * d + (t1 - lo.0) * (hi.1 - lo.1);
        let num2 = lo.1 * d + (t2 - lo.0) * (hi.1 - lo.1);
        assert(num1 * m <= num2 * m) by (nonlinear_arith)
            requires
                num1 == lo.1 * d + (t1 - lo.0) * (hi.1 - lo.1),
                num2 == lo.1 * d + (t2 - lo.0) * (hi.1 - lo.1),
                t1 <= t2,
                lo.1 <= hi.1,
                0 <= t1 - lo.0,
                0 <= m,
        ;
        lemma_div_is_ordered(num1 * m, num2 * m, d as int);
    }
}

/// On a monotone curve the thrust never drops below the first point's raw
/// thrust times the multiplier.
proof fn lemma_curve_thrust_lower(s: Seq<(u32, u32)>, t: u32, m: int)
    requires
        curve_sorted(s),
        curve_monotone(s),
        s.len() > 0,
        0 <= m,
    ensures
        curve_thrust(s, t, m) >= s[0].1 * m,
    decreases s.len(),
{
    if s.len() == 1 {
    } else if t <= s[1].0 {
        lemma_seg_thrust_range(s[0], s[1], t, m);
    } else {
        let rest = s.subrange(1, s.len() as int);
        lemma_curve_thrust_lower(rest, t, m);
        assert(s[0].1 * m <= s[1].1 * m) by (nonlinear_arith)
            requires
                s[0].1 <= s[1].1,
                0 <= m,
        ;
    }
}

/// Monotonicity law: on a curve whose control points are non-decreasing,
/// the thrust is monotonically non-decreasing in the throttle (inside the
/// key range and, by flat extrapolation, outside it too).
pub proof fn lemma_curve_thrust_monotone(s: Seq<(u32, u32)>, t1: u32, t2: u32, m: int)
    requires
        curve_sorted(s),
        curve_monotone(s),
        0 <= m,
        t1 <= t2,
    ensures
        curve_thrust(s, t1, m) <= curve_thrust(s, t2, m),
    decreases s.len(),
{
    if s.len() <= 1 {
    } else if t2 <= s[1].0 {
        lemma_seg_thrust_monotone(s[0], s[1], t1, t2, m);
    } else if t1 <= s[1].0 {
        lemma_seg_thrust_range(s[0], s[1], t1, m);
        let rest = s.subrange(1, s.len() as int);
        lemma_curve_thrust_lower(rest, t2, m);
    } else {
        lemma_curve_thrust_monotone(s.subrange(1, s.len() as int), t1, t2, m);
    }
}

/// The catalog's shared curve is sorted and monotone for any overboost top
/// value at or above the nominal-full-throttle thrust — as both populated
/// variants' values are — so the monotonicity law applies to them.
pub proof fn lemma_standard_curve_monotone(top: u32)
    requires
        top >= 5000,
    ensures
        curve_sorted(spec_standard_curve(top)),
        curve_monotone(spec_standard_curve(top)),
{
}

/// A pair held by the curve's mapping stands at some position of the
/// control-point sequence.
proof fn lemma_curve_map_to_index(s: Seq<(u32, u32)>, k: u32, v: u32)
    requires
        curve_map(s).contains_pair(k, v),
    ensures
        exists|i: int| 0 <= i < s.len() && s[i] == (k, v),
    decreases s.len(),
{
    if s.len() == 0 {
        assert(false);
    } else if s.last().0 == k {
        assert(s[s.len() - 1] == (k, v));
    } else {
        lemma_curve_map_to_index(s.drop_last(), k, v);
        let i = choose|i: int| 0 <= i < s.drop_last().len() && s.drop_last()[i] == (k, v);
        assert(s[i] == (k, v));
    }
}

/// Exact-match law: at a throttle key held by the curve, the thrust is the
/// stored raw thrust times the multiplier exactly, with no interpolation
/// error.
pub proof fn lemma_curve_thrust_exact(s: Seq<(u32, u32)>, k: u32, v: u32, m: int)
    requires
        curve_sorted(s),
        curve_map(s).contains_pair(k, v),
    ensures
        curve_thrust(s, k, m) == v * m,
{
    lemma_curve_map_to_index(s, k, v);
    let i = choose|i: int| 0 <= i < s.len() && s[i] == (k, v);
    if i == 0 {
        lemma_curve_thrust_low(s, k, m);
    } else {
        assert(s[i - 1].0 < k);
        lemma_curve_thrust_segment(s, i - 1, k, m);
    }
}

/// Extrapolation law: outside the key range the thrust is flat, equal to
/// the thrust at the nearest key.
pub proof fn lemma_curve_thrust_extrapolation(s: Seq<(u32, u32)>, t: u32, m: int)
    requires
        curve_sorted(s),
        s.len() > 0,
    ensures
        t <= s[0].0 ==> curve_thrust(s, t, m) == curve_thrust(s, s[0].0, m),
        t >= s.last().0 ==> curve_thrust(s, t, m) == curve_thrust(s, s.last().0, m),
{
    if t <= s[0].0 {
        lemma_curve_thrust_low(s, t, m);
        lemma_curve_thrust_low(s, s[0].0, m);
    }
    if t >= s.last().0 {
        lemma_curve_thrust_high(s, t, m);
        lemma_curve_thrust_high(s, s.last().0, m);
    }
}

/// Replacing the value at position `i` of a key-unique control-point
/// sequence updates the curve's mapping at that key alone.
proof fn lemma_curve_map_update(s: Seq<(u32, u32)>, i: int, v: u32)
    requires
        0 <= i < s.len(),
        curve_sorted(s),
    ensures
        curve_map(s.update(i, (s[i].0, v))) == curve_map(s).insert(s[i].0, v),
    decreases s.len(),
{
    let t = s.update(i, (s[i].0, v));
    if i == s.len() - 1 {
        assert(t.drop_last() =~= s.drop_last());
        assert(curve_map(t) =~= curve_map(s).insert(s[i].0, v));
    } else {
        assert(t.drop_last() =~= s.drop_last().update(i, (s[i].0, v)));
        assert(curve_sorted(s.drop_last()));
        lemma_curve_map_update(s.drop_last(), i, v);
        assert(s[i].0 != s.last().0);
        assert(t.last() == s.last());
        assert(curve_map(t) =~= curve_map(s).insert(s[i].0, v));
    }
}

/// Inserting a point between the keys below and above it adds exactly that
/// key to the curve's mapping.
proof fn lemma_curve_map_insert(s: Seq<(u32, u32)>, i: int, t: u32, v: u32)
    requires
        0 <= i <= s.len(),
        forall|j: int| 0 <= j < i ==> #[trigger] s[j].0 < t,
        forall|j: int| i <= j < s.len() ==> t < #[trigger] s[j].0,
    ensures
        curve_map(s.insert(i, (t, v))) == curve_map(s).insert(t, v),
    decreases s.len(),
{
    let u = s.insert(i, (t, v));
    if i == s.len() {
        assert(u.drop_last() =~= s);
        assert(curve_map(u) =~= curve_map(s).insert(t, v));
    } else {
        assert(u.last() == s.last());
        assert(u.drop_last() =~= s.drop_last().insert(i, (t, v)));
        lemma_curve_map_insert(s.drop_last(), i, t, v);
        assert(t != s.last().0);
        assert(curve_map(u) =~= curve_map(s).insert(t, v));
    }
}

} // verus!
