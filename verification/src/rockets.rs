//! The rocket probe: a single light body layered on the same force law.
//!
//! Per tick, in order: an out-of-bounds probe is reset to its initial state
//! (and that is its whole tick); otherwise the position integrates from the
//! current velocity (simple Euler), then a reference-body pull from the
//! designated planet's surface-gravity parameter, then the launch impulse
//! while the launching flag is held (power ramps by a fixed increment up to
//! its maximum, pushing along the 45-degree diagonal), then the full softened
//! inverse-square summation over all massive bodies — read from the same
//! pre-tick snapshot the planets use. The heading is derived from the
//! velocity by the renderer and is not stored. Any stage whose scaled values
//! would not fit the machine words leaves its contribution out, the integer
//! analogue of discarding a non-finite result.

use vstd::prelude::*;

verus! {

use crate::force::BodyView;
use crate::force::accel_sum_x;
use crate::force::accel_sum_y;
use crate::num::sqrt_floor;
use crate::num::isqrt;
use crate::planet::Planet;
use crate::planet::body_view;
use crate::planet::bodies_view;
use crate::planet::pos_after;
use crate::planet::pos_update_defined;
use crate::planet::vel_delta;
use crate::planet::vel_sums_defined;
use crate::planet::total_accel;
use crate::planet::apply_pos_delta;
use crate::planet::apply_vel_delta;
use crate::NANO_PER_MICRO;
use crate::AU_M;

/// Launch power gained per tick while the launching flag is held.
pub const LAUNCH_POWER_INCREASE: u64 = 1_000_000;

/// Largest launch power the probe accumulates.
pub const MAX_LAUNCH_POWER: u64 = 100_000_000;

/// Cosine (and sine) of the 45-degree launch angle, in millionths.
pub const DIAG_NUM: u128 = 707_107;
/// Denominator of `DIAG_NUM`.
pub const DIAG_DEN: u128 = 1_000_000;

/// Initial probe x position, in meters (well inside the first orbit).
pub const ROCKET_START_X: i64 = -149_600_000;
/// Initial probe y position, in meters (about one Earth radius).
pub const ROCKET_START_Y: i64 = 6_371_000;

/// Distance from the origin beyond which the probe is reset, in meters:
/// twenty times the Earth-Sun distance.
pub const RESET_DISTANCE_M: i64 = 20 * AU_M;

/// The probe. Positions are meters, velocities micrometers per second, the
/// mass grams; the catalog fields are display and game data.
pub struct Rocket {
    /// Model name.
    pub name: String,
    /// Manufacturer name.
    pub manufacturer: String,
    /// Height in centimeters.
    pub height_cm: u64,
    /// Diameter in millimeters.
    pub diameter_mm: u64,
    /// Mass in grams; positive.
    pub mass_g: u64,
    /// Thrust in newtons.
    pub thrust: u64,
    /// Fuel capacity in kilograms.
    pub fuel_capacity: u64,
    /// Top speed in meters per second.
    pub max_speed: u64,
    /// Service ceiling in meters.
    pub max_altitude: u64,
    /// Number of stages.
    pub stages: u8,
    /// Payload capacity in kilograms.
    pub payload_capacity: u64,
    /// Reliability in parts per million.
    pub reliability_ppm: u32,
    /// Cost.
    pub cost: u64,
    /// Cooldown time in seconds.
    pub cooldown_time: u32,
    /// Price.
    pub price: u64,
    /// Sprite image name, display-only.
    pub image: String,
    /// Construction speed.
    pub construction_speed: u32,
    /// Whether the launch impulse is being accumulated; set by the caller,
    /// cleared by the caller or by an out-of-bounds reset.
    pub is_launching: bool,
    /// x-coordinate of the probe's position, in meters.
    pub x: i64,
    /// y-coordinate of the probe's position, in meters.
    pub y: i64,
    /// Velocity along x, in micrometers per second.
    pub velocity_x: i64,
    /// Velocity along y, in micrometers per second.
    pub velocity_y: i64,
    /// Accumulated launch power, at most `MAX_LAUNCH_POWER`.
    pub launch_power: u64,
}

/// The probe's mass is positive and its power within bounds.
pub open spec fn rocket_wf(r: Rocket) -> bool {
    &&& r.mass_g > 0
    &&& r.launch_power <= MAX_LAUNCH_POWER
}

/// The dynamic state of the probe, as mathematical integers.
pub struct ProbeState {
    /// Position x, meters.
    pub x: int,
    /// Position y, meters.
    pub y: int,
    /// Velocity x, micrometers per second.
    pub vx: int,
    /// Velocity y, micrometers per second.
    pub vy: int,
    /// Accumulated launch power.
    pub power: int,
    /// Whether the launch impulse is being accumulated.
    pub launching: bool,
}

/// The dynamic state a rocket holds.
pub open spec fn probe_state(r: Rocket) -> ProbeState {
    ProbeState {
        x: r.x as int,
        y: r.y as int,
        vx: r.velocity_x as int,
        vy: r.velocity_y as int,
        power: r.launch_power as int,
        launching: r.is_launching,
    }
}

/// The documented initial state of the probe.
pub open spec fn initial_probe() -> ProbeState {
    ProbeState {
        x: ROCKET_START_X as int,
        y: ROCKET_START_Y as int,
        vx: 0,
        vy: 0,
        power: 0,
        launching: false,
    }
}

/// The probe has wandered beyond the reset distance from the origin.
pub open spec fn probe_out_of_bounds(p: ProbeState) -> bool {
    p.x * p.x + p.y * p.y > (RESET_DISTANCE_M as int) * (RESET_DISTANCE_M as int)
}

/// Position integration from the current velocity, keeping the position when
/// the new coordinates would not fit.
pub open spec fn probe_integrate(p: ProbeState, dt: int) -> ProbeState {
    if pos_update_defined(p.x, p.y, p.vx, p.vy, dt) {
        ProbeState {
            x: pos_after(p.x, p.vx, dt),
            y: pos_after(p.y, p.vy, dt),
            vx: p.vx,
            vy: p.vy,
            power: p.power,
            launching: p.launching,
        }
    } else {
        p
    }
}

/// The probe's x-velocity gain toward a reference body: an unsoftened
/// inverse-square pull from the body's surface-gravity parameter, along the
/// unit direction, in micrometers per second. Zero for a coincident body
/// (division by zero is guarded) and when the squared distance would not fit.
pub open spec fn ref_pull_dvx(px: int, py: int, b: BodyView) -> int {
    let dx = b.0 - px;
    let dy = b.1 - py;
    let dsq = dx * dx + dy * dy;
    if dsq == 0 || dsq > u128::MAX as int {
        0
    } else {
        let dist = sqrt_floor(dsq);
        let t = (if dx >= 0 { dx } else { -dx }) * b.3 * (NANO_PER_MICRO as int);
        let q = t / dsq / dist;
        if dx >= 0 { q } else { -q }
    }
}

/// The y component; see `ref_pull_dvx`.
pub open spec fn ref_pull_dvy(px: int, py: int, b: BodyView) -> int {
    let dx = b.0 - px;
    let dy = b.1 - py;
    let dsq = dx * dx + dy * dy;
    if dsq == 0 || dsq > u128::MAX as int {
        0
    } else {
        let dist = sqrt_floor(dsq);
        let t = (if dy >= 0 { dy } else { -dy }) * b.3 * (NANO_PER_MICRO as int);
        let q = t / dsq / dist;
        if dy >= 0 { q } else { -q }
    }
}

/// The reference pull applied to the probe's velocity, skipped when the new
/// velocity would not fit.
pub open spec fn ref_pull_apply(p: ProbeState, b: BodyView) -> ProbeState {
    let nvx = p.vx + ref_pull_dvx(p.x, p.y, b);
    let nvy = p.vy + ref_pull_dvy(p.x, p.y, b);
    if i64::MIN as int <= nvx <= i64::MAX as int && i64::MIN as int <= nvy <= i64::MAX as int {
        ProbeState { x: p.x, y: p.y, vx: nvx, vy: nvy, power: p.power, launching: p.launching }
    } else {
        p
    }
}

/// The designated reference body is the second listed body; with fewer than
/// two bodies the pull is skipped.
pub open spec fn probe_ref_pull(p: ProbeState, bodies: Seq<BodyView>) -> ProbeState {
    if bodies.len() < 2 {
        p
    } else {
        ref_pull_apply(p, bodies[1])
    }
}

/// The launch power after one tick of accumulation, clamped at the maximum.
pub open spec fn ramped_power(power: int) -> int {
    if power + LAUNCH_POWER_INCREASE <= MAX_LAUNCH_POWER {
        power + LAUNCH_POWER_INCREASE
    } else {
        MAX_LAUNCH_POWER as int
    }
}

/// The diagonal velocity contribution of the accumulated launch power over
/// one tick, in micrometers per second: the acceleration `power / mass`
/// scaled by a thousand, by the time step, and by the 45-degree cosine.
pub open spec fn launch_dv(power: int, mass_g: int, dt: int) -> int {
    let acc = power * 1_000_000_000_000_000 / mass_g;
    acc * dt / (NANO_PER_MICRO as int) * (DIAG_NUM as int) / (DIAG_DEN as int)
}

/// The launch contribution's intermediates fit the machine words.
pub open spec fn launch_dv_defined(power: int, mass_g: int, dt: int) -> bool {
    let acc = power * 1_000_000_000_000_000 / mass_g;
    &&& acc * dt <= u128::MAX as int
    &&& acc * dt / (NANO_PER_MICRO as int) * (DIAG_NUM as int) <= u128::MAX as int
}

/// The launch impulse while the flag is held: the power ramps (even when the
/// velocity contribution is left out), and the diagonal contribution is
/// added to the velocity when everything fits.
pub open spec fn probe_launch(p: ProbeState, mass_g: int, dt: int) -> ProbeState {
    if !p.launching {
        p
    } else {
        let pw = ramped_power(p.power);
        if launch_dv_defined(pw, mass_g, dt) {
            let dv = launch_dv(pw, mass_g, dt);
            let nvx = p.vx + dv;
            let nvy = p.vy + dv;
            if i64::MIN as int <= nvx <= i64::MAX as int && i64::MIN as int <= nvy
                <= i64::MAX as int {
                ProbeState { x: p.x, y: p.y, vx: nvx, vy: nvy, power: pw, launching: true }
            } else {
                ProbeState { x: p.x, y: p.y, vx: p.vx, vy: p.vy, power: pw, launching: true }
            }
        } else {
            ProbeState { x: p.x, y: p.y, vx: p.vx, vy: p.vy, power: pw, launching: true }
        }
    }
}

/// The full softened summation over all massive bodies, applied to the
/// probe's velocity; skipped when the scaled values would not fit.
pub open spec fn probe_gravity(p: ProbeState, bodies: Seq<BodyView>, dt: int) -> ProbeState {
    let tx = accel_sum_x(p.x, p.y, bodies);
    let ty = accel_sum_y(p.x, p.y, bodies);
    if vel_sums_defined(p.vx, p.vy, tx, ty, dt) {
        ProbeState {
            x: p.x,
            y: p.y,
            vx: p.vx + vel_delta(tx, dt),
            vy: p.vy + vel_delta(ty, dt),
            power: p.power,
            launching: p.launching,
        }
    } else {
        p
    }
}

/// One probe tick: reset when out of bounds (and that is the whole tick),
/// else integrate the position, apply the reference pull, the launch impulse
/// and the full gravity summation, in that order.
pub open spec fn probe_step(p: ProbeState, bodies: Seq<BodyView>, dt: int, mass_g: int)
    -> ProbeState {
    if probe_out_of_bounds(p) {
        initial_probe()
    } else {
        probe_gravity(
            probe_launch(probe_ref_pull(probe_integrate(p, dt), bodies), mass_g, dt),
            bodies,
            dt,
        )
    }
}

/// A probe farther from the origin than the reset distance is restored to
/// exactly its documented initial state by one tick — position, velocity,
/// launch power and launching flag — whatever bodies attract it.
pub proof fn lemma_reset_trigger(p: ProbeState, bodies: Seq<BodyView>, dt: int, mass_g: int)
    requires
        probe_out_of_bounds(p),
    ensures
        probe_step(p, bodies, dt, mass_g) == initial_probe(),
{
}

impl Rocket {
    /// The catalog probe, at its documented initial state.
    pub fn new() -> (r: Rocket)
        ensures
            probe_state(r) == initial_probe(),
            r.name@ == "Falcon 9"@,
            r.manufacturer@ == "SpaceX"@,
            r.height_cm == 7_000,
            r.diameter_mm == 3_700,
            r.mass_g == 5_490_540,
            r.thrust == 7_607_000,
            r.fuel_capacity == 287_400,
            r.max_speed == 7_500,
            r.max_altitude == 250_000,
            r.stages == 2,
            r.payload_capacity == 22_800,
            r.reliability_ppm == 980_000,
            r.cost == 62_000_000,
            r.cooldown_time == 1_209_600,
            r.price == 67_000_000,
            r.image@ == "falcon9.png"@,
            r.construction_speed == 180,
            rocket_wf(r),
    {
        Rocket {
            name: "Falcon 9".to_string(),
            manufacturer: "SpaceX".to_string(),
            height_cm: 7_000,
            diameter_mm: 3_700,
            mass_g: 5_490_540,
            thrust: 7_607_000,
            fuel_capacity: 287_400,
            max_speed: 7_500,
            max_altitude: 250_000,
            stages: 2,
            payload_capacity: 22_800,
            reliability_ppm: 980_000,
            cost: 62_000_000,
            cooldown_time: 1_209_600,
            price: 67_000_000,
            image: "falcon9.png".to_string(),
            construction_speed: 180,
            is_launching: false,
            x: ROCKET_START_X,
            y: ROCKET_START_Y,
            velocity_x: 0,
            velocity_y: 0,
            launch_power: 0,
        }
    }

    /// Thrust to weight ratio in thousandths: the thrust in newtons over the
    /// weight under standard gravity (9.81 m/s^2).
    pub fn thrust_to_weight_ratio(&self) -> (r: u64)
        requires
            self.mass_g > 0,
            self.thrust * 100_000_000 / (self.mass_g * 981) <= u64::MAX,
        ensures
            r as int == self.thrust * 100_000_000 / (self.mass_g * 981),
    {
        proof {
            assert((self.thrust as int) * 100_000_000 <= u128::MAX as int) by (nonlinear_arith)
                requires
                    self.thrust <= 0xffff_ffff_ffff_ffffu64;
            assert((self.mass_g as int) * 981 <= u128::MAX as int) by (nonlinear_arith)
                requires
                    self.mass_g <= 0xffff_ffff_ffff_ffffu64;
        }
        let num = (self.thrust as u128) * 100_000_000;
        let den = (self.mass_g as u128) * 981;
        (num / den) as u64
    }

    /// Move the probe to the given position.
    pub fn set_position(&mut self, x: i64, y: i64)
        ensures
            *final(self) == (Rocket { x, y, ..*old(self) }),
    {
        self.x = x;
        self.y = y;
    }

    /// Set the probe's velocity.
    pub fn set_velocity(&mut self, x: i64, y: i64)
        ensures
            *final(self) == (Rocket { velocity_x: x, velocity_y: y, ..*old(self) }),
    {
        self.velocity_x = x;
        self.velocity_y = y;
    }

    /// Integrate the position one tick from the current velocity (simple
    /// Euler), keeping the position when the new coordinates would not fit.
    pub fn update_position(&mut self, delta_time: u64)
        ensures
            probe_state(*final(self)) == probe_integrate(
                probe_state(*old(self)),
                delta_time as int,
            ),
            *final(self) == (Rocket {
                x: final(self).x,
                y: final(self).y,
                ..*old(self)
            }),
    {
        match apply_pos_delta(self.x, self.y, self.velocity_x, self.velocity_y, delta_time) {
            Some(p) => {
                self.x = p.0;
                self.y = p.1;
            },
            None => {
            },
        }
    }

    /// Whether the probe's distance from the origin exceeds the reset
    /// distance.
    fn check_out_of_bounds(&self) -> (r: bool)
        ensures
            r == probe_out_of_bounds(probe_state(*self)),
    {
        let ax = (if self.x >= 0 { self.x as i128 } else { -(self.x as i128) }) as u128;
        let ay = (if self.y >= 0 { self.y as i128 } else { -(self.y as i128) }) as u128;
        proof {
            assert((ax as int) * (ax as int) + (ay as int) * (ay as int) <= u128::MAX as int)
                by (nonlinear_arith)
                requires
                    ax <= 0x8000_0000_0000_0000u128,
                    ay <= 0x8000_0000_0000_0000u128;
            assert((ax as int) * (ax as int) == (self.x as int) * (self.x as int))
                by (nonlinear_arith)
                requires
                    ax as int == if self.x as int >= 0 { self.x as int } else { -(self.x as int) };
            assert((ay as int) * (ay as int) == (self.y as int) * (self.y as int))
                by (nonlinear_arith)
                requires
                    ay as int == if self.y as int >= 0 { self.y as int } else { -(self.y as int) };
        }
        let d2 = ax * ax + ay * ay;
        proof {
            assert(RESET_DISTANCE_M == 2_992_000_000_000i64);
            assert(2_992_000_000_000int * 2_992_000_000_000int
                == 8_952_064_000_000_000_000_000_000int) by (nonlinear_arith);
        }
        let lim = (RESET_DISTANCE_M as u128) * (RESET_DISTANCE_M as u128);
        d2 > lim
    }

    /// Restore the probe's dynamic state to the documented initial state.
    fn reset(&mut self)
        ensures
            probe_state(*final(self)) == initial_probe(),
            *final(self) == (Rocket {
                x: ROCKET_START_X,
                y: ROCKET_START_Y,
                velocity_x: 0,
                velocity_y: 0,
                launch_power: 0,
                is_launching: false,
                ..*old(self)
            }),
    {
        self.x = ROCKET_START_X;
        self.y = ROCKET_START_Y;
        self.velocity_x = 0;
        self.velocity_y = 0;
        self.launch_power = 0;
        self.is_launching = false;
    }

    /// Pull the probe toward one body using the body's surface-gravity
    /// parameter: an unsoftened inverse-square contribution along the unit
    /// direction, guarded against coincident positions, skipped when the new
    /// velocity would not fit.
    pub fn apply_gravity(&mut self, planet: &Planet)
        ensures
            probe_state(*final(self)) == ref_pull_apply(
                probe_state(*old(self)),
                body_view(*planet),
            ),
            *final(self) == (Rocket {
                velocity_x: final(self).velocity_x,
                velocity_y: final(self).velocity_y,
                ..*old(self)
            }),
    {
        let dx = (planet.x as i128) - (self.x as i128);
        let dy = (planet.y as i128) - (self.y as i128);
        let adx = (if dx >= 0 { dx } else { -dx }) as u128;
        let ady = (if dy >= 0 { dy } else { -dy }) as u128;
        proof {
            assert((adx as int) * (adx as int) <= u128::MAX as int) by (nonlinear_arith)
                requires
                    adx <= 0xffff_ffff_ffff_ffffu128;
            assert((ady as int) * (ady as int) <= u128::MAX as int) by (nonlinear_arith)
                requires
                    ady <= 0xffff_ffff_ffff_ffffu128;
            assert((adx as int) * (adx as int) == (dx as int) * (dx as int)) by (nonlinear_arith)
                requires
                    adx as int == if dx as int >= 0 { dx as int } else { -(dx as int) };
            assert((ady as int) * (ady as int) == (dy as int) * (dy as int)) by (nonlinear_arith)
                requires
                    ady as int == if dy as int >= 0 { dy as int } else { -(dy as int) };
        }
        let dx2 = adx * adx;
        let dy2 = ady * ady;
        let dsq = match dx2.checked_add(dy2) {
            Some(v) => v,
            None => {
                return ;
            },
        };
        if dsq == 0 {
            return ;
        }
        let dist = isqrt(dsq);
        proof {
            crate::num::lemma_sqrt_floor_at_least(dsq as int, dist as int, 1);
            assert((adx as int) * (planet.gravity as int) * 1000 <= 0x1_0000_0000_0000_0000_0000_0000_0000int)
                by (nonlinear_arith)
                requires
                    adx <= 0xffff_ffff_ffff_ffffu128,
                    planet.gravity <= 0xffff_ffffu32;
            assert((ady as int) * (planet.gravity as int) * 1000 <= 0x1_0000_0000_0000_0000_0000_0000_0000int)
                by (nonlinear_arith)
                requires
                    ady <= 0xffff_ffff_ffff_ffffu128,
                    planet.gravity <= 0xffff_ffffu32;
        }
        let tx = adx * (planet.gravity as u128) * 1000;
        let ty = ady * (planet.gravity as u128) * 1000;
        let qx = tx / dsq / (dist as u128);
        let qy = ty / dsq / (dist as u128);
        proof {
            vstd::arithmetic::div_mod::lemma_div_pos_is_pos(tx as int, dsq as int);
            vstd::arithmetic::div_mod::lemma_div_nonincreasing(tx as int, dsq as int);
            vstd::arithmetic::div_mod::lemma_div_pos_is_pos((tx / dsq) as int, dist as int);
            vstd::arithmetic::div_mod::lemma_div_nonincreasing((tx / dsq) as int, dist as int);
            vstd::arithmetic::div_mod::lemma_div_pos_is_pos(ty as int, dsq as int);
            vstd::arithmetic::div_mod::lemma_div_nonincreasing(ty as int, dsq as int);
            vstd::arithmetic::div_mod::lemma_div_pos_is_pos((ty / dsq) as int, dist as int);
            vstd::arithmetic::div_mod::lemma_div_nonincreasing((ty / dsq) as int, dist as int);
            crate::num::lemma_sqrt_floor_unique(dsq as int, dist as int);
            assert(tx / dsq / (dist as u128) <= tx);
            assert(ty / dsq / (dist as u128) <= ty);
        }
        let dvx: i128 = if dx >= 0 {
            qx as i128
        } else {
            -(qx as i128)
        };
        let dvy: i128 = if dy >= 0 {
            qy as i128
        } else {
            -(qy as i128)
        };
        let nvx = (self.velocity_x as i128) + dvx;
        let nvy = (self.velocity_y as i128) + dvy;
        if nvx < i64::MIN as i128 || nvx > i64::MAX as i128 {
            return ;
        }
        if nvy < i64::MIN as i128 || nvy > i64::MAX as i128 {
            return ;
        }
        self.velocity_x = nvx as i64;
        self.velocity_y = nvy as i64;
    }

    /// The launch impulse of one tick, while the launching flag is held.
    fn apply_launch(&mut self, delta_time: u64)
        requires
            rocket_wf(*old(self)),
        ensures
            probe_state(*final(self)) == probe_launch(
                probe_state(*old(self)),
                old(self).mass_g as int,
                delta_time as int,
            ),
            *final(self) == (Rocket {
                velocity_x: final(self).velocity_x,
                velocity_y: final(self).velocity_y,
                launch_power: final(self).launch_power,
                ..*old(self)
            }),
            rocket_wf(*final(self)),
    {
        if !self.is_launching {
            return ;
        }
        let pw = if self.launch_power + LAUNCH_POWER_INCREASE <= MAX_LAUNCH_POWER {
            self.launch_power + LAUNCH_POWER_INCREASE
        } else {
            MAX_LAUNCH_POWER
        };
        self.launch_power = pw;
        let acc = (pw as u128) * 1_000_000_000_000_000 / (self.mass_g as u128);
        let s1 = match acc.checked_mul(delta_time as u128) {
            Some(v) => v,
            None => {
                return ;
            },
        };
        let s2 = s1 / 1000;
        let s3 = match s2.checked_mul(DIAG_NUM) {
            Some(v) => v,
            None => {
                return ;
            },
        };
        let dv = s3 / DIAG_DEN;
        proof {
            vstd::arithmetic::div_mod::lemma_div_is_ordered_by_denominator(
                s3 as int,
                1,
                DIAG_DEN as int,
            );
            vstd::arithmetic::div_mod::lemma_div_basics(s3 as int);
        }
        let nvx = (self.velocity_x as i128) + (dv as i128);
        let nvy = (self.velocity_y as i128) + (dv as i128);
        if nvx < i64::MIN as i128 || nvx > i64::MAX as i128 {
            return ;
        }
        if nvy < i64::MIN as i128 || nvy > i64::MAX as i128 {
            return ;
        }
        self.velocity_x = nvx as i64;
        self.velocity_y = nvy as i64;
    }

    /// One probe tick against the given massive bodies (the pre-tick
    /// snapshot): out-of-bounds reset, position integration, reference pull
    /// from the second body, launch impulse, full gravity summation.
    pub fn update(&mut self, planets: &[Planet], delta_time: u64)
        requires
            rocket_wf(*old(self)),
        ensures
            probe_state(*final(self)) == probe_step(
                probe_state(*old(self)),
                bodies_view(planets@),
                delta_time as int,
                old(self).mass_g as int,
            ),
            *final(self) == (Rocket {
                x: final(self).x,
                y: final(self).y,
                velocity_x: final(self).velocity_x,
                velocity_y: final(self).velocity_y,
                launch_power: final(self).launch_power,
                is_launching: final(self).is_launching,
                ..*old(self)
            }),
            rocket_wf(*final(self)),
    {
        let ghost p0 = probe_state(*self);
        let ghost bv = bodies_view(planets@);
        if self.check_out_of_bounds() {
            self.reset();
            return ;
        }
        self.update_position(delta_time);
        let ghost p1 = probe_state(*self);
        if planets.len() >= 2 {
            let refp = &planets[1];
            self.apply_gravity(refp);
            proof {
                assert(body_view(planets@[1]) == bv[1]);
            }
        }
        let ghost p2 = probe_state(*self);
        proof {
            assert(p2 == probe_ref_pull(p1, bv));
        }
        self.apply_launch(delta_time);
        let ghost p3 = probe_state(*self);
        let (tx, ty) = total_accel(self.x, self.y, planets);
        match apply_vel_delta(self.velocity_x, self.velocity_y, tx, ty, delta_time) {
            Some(v) => {
                self.velocity_x = v.0;
                self.velocity_y = v.1;
            },
            None => {
            },
        }
        proof {
            assert(probe_state(*self) == probe_gravity(p3, bv, delta_time as int));
        }
    }
}

} // verus!
