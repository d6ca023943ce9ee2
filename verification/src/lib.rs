//! A small real-time n-body gravity simulation: a star, a set of planets and a
//! single rocket probe, advanced tick by tick under softened inverse-square
//! attraction, with per-tick rejection of out-of-range results and an orbit
//! trail kept for display.
//!
//! All physics runs on scaled integers so that a run is exactly deterministic:
//! positions are in meters (`i64`), velocities in micrometers per second
//! (`i64`), accelerations in nanometers per second squared, and masses in
//! kilograms (`u128`). The gravitational constant is the rational
//! `G_NUM / G_DEN`. Where the mathematical value of an update would not fit
//! its machine type the update is rejected wholesale and the previous value
//! kept, mirroring how a floating-point implementation discards non-finite
//! results.

use vstd::prelude::*;

pub mod num;
pub mod force;
pub mod planet;
pub mod rockets;
pub mod scenemanager;

verus! {

/// Astronomical unit in meters (average distance from Earth to the Sun).
pub const AU_M: i64 = 149_600_000_000;

/// Gravitational constant, as the rational `G_NUM / G_DEN` m^3 kg^-1 s^-2.
pub const G_NUM: u128 = 667_428;
/// Denominator of the gravitational constant.
pub const G_DEN: u128 = 10_000_000_000_000_000;

/// Softening length in meters, added (squared) to squared distances so the
/// inverse-square law stays bounded as two bodies approach each other.
pub const SOFTENING_M: u128 = 1_000_000_000;

/// Time step of one simulation tick, in seconds (one day).
pub const TIMESTEP: u64 = 86_400;

/// Scale of stored velocities: micrometers per second per unit.
pub const VEL_SCALE: u128 = 1_000_000;

/// Scale of computed accelerations: nanometers per second squared per unit.
pub const ACCEL_SCALE: u128 = 1_000_000_000;

/// Nanometer units per micrometer unit.
pub const NANO_PER_MICRO: u128 = 1_000;

/// Largest number of orbit-trail samples a body keeps.
pub const MAX_ORBIT_POINTS: usize = 100_000;

/// Mass of the star, in kilograms.
pub const SUN_MASS_KG: u128 = 1_988_920_000_000_000_000_000_000_000_000;
/// Mass of the second body (the Earth analogue), in kilograms.
pub const EARTH_MASS_KG: u128 = 5_974_200_000_000_000_000_000_000;
/// Mass of the third body (the Mars analogue), in kilograms.
pub const MARS_MASS_KG: u128 = 639_000_000_000_000_000_000_000;
/// Mass of the fourth body (the Mercury analogue), in kilograms.
pub const MERCURY_MASS_KG: u128 = 330_000_000_000_000_000_000_000;
/// Mass of the fifth body (the Venus analogue), in kilograms.
pub const VENUS_MASS_KG: u128 = 4_868_500_000_000_000_000_000_000;

use crate::planet::Planet;
use crate::planet::planet_wf;
use crate::planet::planet_kin;
use crate::planet::kin_step;
use crate::planet::tick_appends;
use crate::planet::trail_push;
use crate::planet::others_view;
use crate::planet::is_first_sun;
use crate::planet::dist_to_primary;
use crate::planet::bodies_view;
use crate::planet::others_of;
use crate::planet::duplicate_planet;
use crate::planet::find_primary;
use crate::planet::distance_between;
use crate::rockets::Rocket;
use crate::rockets::rocket_wf;
use crate::rockets::probe_state;
use crate::rockets::probe_step;
use crate::scenemanager::Screen;

/// The whole simulation session: the massive bodies, the probe, the screen
/// shown, and the tick counter.
pub struct GameState {
    /// Whether the session has finished loading, caller-managed.
    pub is_ready: bool,
    /// The screen currently shown.
    pub screen: Screen,
    /// The rocket probe.
    pub rocket: Rocket,
    /// Ticks advanced so far.
    pub tick: u32,
    /// Caller-managed input latch, kept for the renderer.
    pub is_launching: bool,
    /// The massive bodies; the first flagged one is the primary.
    pub planets: Vec<Planet>,
}

/// Every body has positive mass and the probe is well formed.
pub open spec fn state_wf(s: GameState) -> bool {
    &&& rocket_wf(s.rocket)
    &&& forall|i: int| 0 <= i < s.planets@.len() ==> planet_wf(#[trigger] s.planets@[i])
}

/// Body `i` of `s1` is body `i` of `s0` advanced one integration tick
/// against the pre-tick snapshot of the other bodies, its trail extended
/// exactly when the tick was accepted, every other field kept (the distance
/// to the primary is stated separately).
pub open spec fn planet_stepped(olds: Seq<Planet>, news: Seq<Planet>, i: int, dt: int) -> bool {
    let p0 = olds[i];
    let p1 = news[i];
    let k1 = kin_step(planet_kin(p0), others_view(olds, i), dt);
    &&& p1.x as int == k1.x
    &&& p1.y as int == k1.y
    &&& p1.x_vel as int == k1.vx
    &&& p1.y_vel as int == k1.vy
    &&& p1.orbit@ == if tick_appends(planet_kin(p0), others_view(olds, i), dt) {
        trail_push(p0.orbit@, (p1.x, p1.y))
    } else {
        p0.orbit@
    }
    &&& p1.mass == p0.mass
    &&& p1.radius == p0.radius
    &&& p1.color == p0.color
    &&& p1.sprite == p0.sprite
    &&& p1.sun == p0.sun
    &&& p1.gravity == p0.gravity
}

/// The distance to the primary that body `i` records after a tick: the
/// distance between final positions when there is a primary and `i` is not
/// it, the previous value otherwise.
pub open spec fn stepped_distance(olds: Seq<Planet>, news: Seq<Planet>, i: int) -> int {
    if exists|pi: int| is_first_sun(olds, pi) {
        let pi = choose|pi: int| is_first_sun(olds, pi);
        if i == pi {
            olds[i].distance_to_sun as int
        } else {
            dist_to_primary(
                news[i].x as int,
                news[i].y as int,
                news[pi].x as int,
                news[pi].y as int,
                olds[i].distance_to_sun as int,
            )
        }
    } else {
        olds[i].distance_to_sun as int
    }
}

/// One simulation tick: every body advanced against the pre-tick snapshot,
/// the probe advanced against the same snapshot, distances to the primary
/// recomputed from final positions, the tick counter advanced (wrapping),
/// and everything else kept.
pub open spec fn step_relation(s0: GameState, s1: GameState, dt: int) -> bool {
    &&& s1.planets@.len() == s0.planets@.len()
    &&& forall|i: int|
        0 <= i < s0.planets@.len() ==> #[trigger] planet_stepped(s0.planets@, s1.planets@, i, dt)
    &&& forall|i: int|
        0 <= i < s0.planets@.len() ==> (#[trigger] s1.planets@[i]).distance_to_sun as int
            == stepped_distance(s0.planets@, s1.planets@, i)
    &&& probe_state(s1.rocket) == probe_step(
        probe_state(s0.rocket),
        bodies_view(s0.planets@),
        dt,
        s0.rocket.mass_g as int,
    )
    &&& s1.rocket == (Rocket {
        x: s1.rocket.x,
        y: s1.rocket.y,
        velocity_x: s1.rocket.velocity_x,
        velocity_y: s1.rocket.velocity_y,
        launch_power: s1.rocket.launch_power,
        is_launching: s1.rocket.is_launching,
        ..s0.rocket
    })
    &&& s1.tick as int == if s0.tick == u32::MAX {
        0int
    } else {
        s0.tick as int + 1
    }
    &&& s1.screen == s0.screen
    &&& s1.is_ready == s0.is_ready
    &&& s1.is_launching == s0.is_launching
}

/// The state with the probe's launching flag raised, when the launch input
/// is pressed.
pub open spec fn with_launch_triggered(s: GameState, pressed: bool) -> GameState {
    if pressed {
        GameState { rocket: Rocket { is_launching: true, ..s.rocket }, ..s }
    } else {
        s
    }
}

impl GameState {
    /// A fresh session: the star at the origin and four planets on the x
    /// axis with their catalog masses and tangential speeds, the catalog
    /// probe, the title screen, tick zero.
    pub fn new() -> (r: GameState)
        ensures
            r.is_ready == false,
            r.is_launching == false,
            r.screen == Screen::Title,
            r.tick == 0,
            probe_state(r.rocket) == crate::rockets::initial_probe(),
            r.planets@.len() == 5,
            r.planets@[0].x == 0 && r.planets@[0].y == 0,
            r.planets@[0].mass == SUN_MASS_KG,
            r.planets@[0].sun == true,
            r.planets@[0].x_vel == 0 && r.planets@[0].y_vel == 0,
            r.planets@[0].radius == 100 && r.planets@[0].color == 0x00FF_FF00,
            r.planets@[1].x == -AU_M && r.planets@[1].y == 0,
            r.planets@[1].mass == EARTH_MASS_KG,
            r.planets@[1].sun == false,
            r.planets@[1].x_vel == 0 && r.planets@[1].y_vel == 29_783_000_000,
            r.planets@[1].radius == 160 && r.planets@[1].color == 0x0064_95ED,
            r.planets@[2].x == -227_990_400_000i64 && r.planets@[2].y == 0,
            r.planets@[2].mass == MARS_MASS_KG,
            r.planets@[2].sun == false,
            r.planets@[2].x_vel == 0 && r.planets@[2].y_vel == 24_077_000_000,
            r.planets@[2].radius == 120 && r.planets@[2].color == 0x00BC_2732,
            r.planets@[3].x == 57_895_200_000i64 && r.planets@[3].y == 0,
            r.planets@[3].mass == MERCURY_MASS_KG,
            r.planets@[3].sun == false,
            r.planets@[3].x_vel == 0 && r.planets@[3].y_vel == -47_400_000_000,
            r.planets@[3].radius == 80 && r.planets@[3].color == 0x0050_4E51,
            r.planets@[4].x == 108_160_800_000i64 && r.planets@[4].y == 0,
            r.planets@[4].mass == VENUS_MASS_KG,
            r.planets@[4].sun == false,
            r.planets@[4].x_vel == 0 && r.planets@[4].y_vel == -35_020_000_000,
            r.planets@[4].radius == 140 && r.planets@[4].color == 0x00FF_FFFF,
            forall|i: int| 0 <= i < 5 ==> (#[trigger] r.planets@[i]).orbit@.len() == 0,
            forall|i: int| 0 <= i < 5 ==> (#[trigger] r.planets@[i]).distance_to_sun == 0,
            state_wf(r),
    {
        let mut sun = Planet::new(0, 0, 100, 0x00FF_FF00, SUN_MASS_KG);
        sun.sun = true;
        let mut earth = Planet::new(-AU_M, 0, 160, 0x0064_95ED, EARTH_MASS_KG);
        earth.y_vel = 29_783_000_000;
        let mut mars = Planet::new(-227_990_400_000, 0, 120, 0x00BC_2732, MARS_MASS_KG);
        mars.y_vel = 24_077_000_000;
        let mut mercury = Planet::new(57_895_200_000, 0, 80, 0x0050_4E51, MERCURY_MASS_KG);
        mercury.y_vel = -47_400_000_000;
        let mut venus = Planet::new(108_160_800_000, 0, 140, 0x00FF_FFFF, VENUS_MASS_KG);
        venus.y_vel = -35_020_000_000;
        let mut planets: Vec<Planet> = Vec::new();
        planets.push(sun);
        planets.push(earth);
        planets.push(mars);
        planets.push(mercury);
        planets.push(venus);
        let rocket = Rocket::new();
        GameState {
            tick: 0,
            is_ready: false,
            is_launching: false,
            planets,
            screen: Screen::Title,
            rocket,
        }
    }

    /// Raise the probe's launching flag; physics consumes it over the
    /// following ticks while it stays held.
    pub fn trigger_launch(&mut self)
        ensures
            *final(self) == (GameState {
                rocket: (Rocket { is_launching: true, ..old(self).rocket }),
                ..*old(self)
            }),
    {
        self.rocket.is_launching = true;
    }

    /// Advance the whole session one tick of `delta_time` seconds: the
    /// probe and every massive body integrate against the same pre-tick
    /// snapshot, distances to the primary are recomputed from the final
    /// positions, and the tick counter advances.
    pub fn step(&mut self, delta_time: u64)
        requires
            state_wf(*old(self)),
        ensures
            step_relation(*old(self), *final(self), delta_time as int),
            state_wf(*final(self)),
    {
        let ghost s0 = *self;
        let ghost dt = delta_time as int;
        self.rocket.update(self.planets.as_slice(), delta_time);
        let ghost s1 = *self;
        let n = self.planets.len();
        let mut updated: Vec<Planet> = Vec::new();
        let mut i: usize = 0;
        while i < n
            invariant
                i <= n,
                *self == s1,
                s1.planets@ == s0.planets@,
                n == s0.planets@.len(),
                dt == delta_time as int,
                updated@.len() == i as int,
                forall|j: int|
                    0 <= j < i ==> #[trigger] planet_stepped(s0.planets@, updated@, j, dt),
                forall|j: int|
                    0 <= j < i ==> (#[trigger] updated@[j]).distance_to_sun
                        == s0.planets@[j].distance_to_sun,
            decreases n - i,
        {
            let others = others_of(&self.planets, i);
            let mut p = duplicate_planet(&self.planets[i]);
            let ghost pre = p;
            p.update_position(others.as_slice(), delta_time);
            proof {
                assert(planet_kin(pre) == planet_kin(s0.planets@[i as int]));
                assert(bodies_view(others@) == others_view(s0.planets@, i as int));
            }
            let ghost pre_updated = updated@;
            updated.push(p);
            proof {
                assert(updated@[i as int] == p);
                assert(planet_stepped(s0.planets@, updated@, i as int, dt));
                assert forall|j: int|
                    0 <= j < i implies #[trigger] planet_stepped(
                    s0.planets@,
                    updated@,
                    j,
                    dt,
                ) by {
                    assert(planet_stepped(s0.planets@, pre_updated, j, dt));
                    assert(updated@[j] == pre_updated[j]);
                }
            }
            i = i + 1;
        }
        self.planets = updated;
        let ghost s2 = *self;
        proof {
            assert(forall|j: int|
                0 <= j < n ==> #[trigger] planet_stepped(s0.planets@, s2.planets@, j, dt));
            assert(forall|j: int|
                0 <= j < n ==> (#[trigger] s2.planets@[j]).distance_to_sun
                    == s0.planets@[j].distance_to_sun);
        }
        match find_primary(&self.planets) {
            Some(pi) => {
                proof {
                    assert(planet_stepped(s0.planets@, s2.planets@, pi as int, dt));
                    assert forall|j: int| 0 <= j < pi implies !(#[trigger] s0.planets@[j]).sun by {
                        assert(planet_stepped(s0.planets@, s2.planets@, j, dt));
                        assert(!s2.planets@[j].sun);
                    }
                    assert(is_first_sun(s0.planets@, pi as int));
                }
                let px = self.planets[pi].x;
                let py = self.planets[pi].y;
                let mut t: usize = 0;
                while t < n
                    invariant
                        t <= n,
                        pi < n,
                        n == s2.planets@.len(),
                        self.planets@.len() == n,
                        self.rocket == s2.rocket,
                        self.tick == s2.tick,
                        self.screen == s2.screen,
                        self.is_ready == s2.is_ready,
                        self.is_launching == s2.is_launching,
                        self.planets@[pi as int] == s2.planets@[pi as int],
                        px == s2.planets@[pi as int].x,
                        py == s2.planets@[pi as int].y,
                        forall|j: int| t <= j < n ==> #[trigger] self.planets@[j]
                            == s2.planets@[j],
                        forall|j: int|
                            0 <= j < t && j == pi ==> #[trigger] self.planets@[j]
                                == s2.planets@[j],
                        forall|j: int|
                            0 <= j < t && j != pi ==> distance_refreshed(
                                s2.planets@[j],
                                #[trigger] self.planets@[j],
                                px as int,
                                py as int,
                            ),
                    decreases n - t,
                {
                    if t != pi {
                        let cur_x = self.planets[t].x;
                        let cur_y = self.planets[t].y;
                        let cur_d = self.planets[t].distance_to_sun;
                        let d = distance_between(cur_x, cur_y, px, py, cur_d);
                        let mut np = duplicate_planet(&self.planets[t]);
                        np.distance_to_sun = d;
                        self.planets[t] = np;
                    }
                    t = t + 1;
                }
                proof {
                    let sfp = self.planets@;
                    assert(is_first_sun(s0.planets@, pi as int));
                    let pc = choose|q: int| is_first_sun(s0.planets@, q);
                    assert(is_first_sun(s0.planets@, pc));
                    assert(pc == pi as int) by {
                        if pc < pi as int {
                            assert(!s0.planets@[pc].sun);
                        } else if (pi as int) < pc {
                            assert(!s0.planets@[pi as int].sun);
                        }
                    }
                    assert forall|i2: int| 0 <= i2 < n implies #[trigger] planet_stepped(
                        s0.planets@,
                        sfp,
                        i2,
                        dt,
                    ) by {
                        assert(planet_stepped(s0.planets@, s2.planets@, i2, dt));
                        if i2 != pi as int {
                            assert(distance_refreshed(
                                s2.planets@[i2],
                                sfp[i2],
                                px as int,
                                py as int,
                            ));
                        }
                    }
                    assert forall|i2: int| 0 <= i2 < n implies (#[trigger] sfp[i2]).distance_to_sun
                        as int == stepped_distance(s0.planets@, sfp, i2) by {
                        assert(planet_stepped(s0.planets@, s2.planets@, i2, dt));
                        if i2 == pi as int {
                            assert(sfp[i2] == s2.planets@[i2]);
                        } else {
                            assert(distance_refreshed(
                                s2.planets@[i2],
                                sfp[i2],
                                px as int,
                                py as int,
                            ));
                            assert(sfp[pi as int].x == px && sfp[pi as int].y == py);
                        }
                    }
                }
            },
            None => {
                proof {
                    assert(!exists|q: int| is_first_sun(s0.planets@, q)) by {
                        if exists|q: int| is_first_sun(s0.planets@, q) {
                            let q = choose|q: int| is_first_sun(s0.planets@, q);
                            assert(planet_stepped(s0.planets@, s2.planets@, q, dt));
                            assert(!s2.planets@[q].sun);
                        }
                    }
                    assert(forall|i2: int|
                        0 <= i2 < n ==> (#[trigger] self.planets@[i2]).distance_to_sun as int
                            == stepped_distance(s0.planets@, self.planets@, i2));
                }
            },
        }
        if self.tick == u32::MAX {
            self.tick = 0;
        } else {
            self.tick = self.tick + 1;
        }
        proof {
            assert(forall|i2: int|
                0 <= i2 < n ==> #[trigger] planet_stepped(s0.planets@, self.planets@, i2, dt));
            assert forall|i2: int| 0 <= i2 < n implies planet_wf(
                #[trigger] self.planets@[i2],
            ) by {
                assert(planet_stepped(s0.planets@, self.planets@, i2, dt));
                assert(planet_wf(s0.planets@[i2]));
            }
        }
    }
}

/// Body `p1` is `p0` with only the distance to the primary replaced by the
/// recomputed distance to `(px, py)`.
pub open spec fn distance_refreshed(p0: Planet, p1: Planet, px: int, py: int) -> bool {
    &&& p1.x == p0.x
    &&& p1.y == p0.y
    &&& p1.x_vel == p0.x_vel
    &&& p1.y_vel == p0.y_vel
    &&& p1.orbit@ == p0.orbit@
    &&& p1.mass == p0.mass
    &&& p1.radius == p0.radius
    &&& p1.color == p0.color
    &&& p1.sprite == p0.sprite
    &&& p1.sun == p0.sun
    &&& p1.gravity == p0.gravity
    &&& p1.distance_to_sun as int == dist_to_primary(
        p0.x as int,
        p0.y as int,
        px,
        py,
        p0.distance_to_sun as int,
    )
}

/// Handle one frame of the game screen: a pressed launch input raises the
/// probe's launching flag, then the session advances one fixed tick.
pub fn update_game_screen(state: &mut GameState, start_pressed: bool)
    requires
        state_wf(*old(state)),
    ensures
        step_relation(
            with_launch_triggered(*old(state), start_pressed),
            *final(state),
            TIMESTEP as int,
        ),
        state_wf(*final(state)),
{
    if start_pressed {
        state.trigger_launch();
    }
    state.step(TIMESTEP);
}

/// Handle one frame of the title screen: a pressed start input switches to
/// the game screen and restarts the tick counter.
pub fn update_title_screen(state: &mut GameState, start_pressed: bool)
    ensures
        start_pressed ==> *final(state) == (GameState {
            screen: Screen::Game,
            tick: 0,
            ..*old(state)
        }),
        !start_pressed ==> *final(state) == *old(state),
{
    if start_pressed {
        state.screen = Screen::Game;
        state.tick = 0;
    }
}

} // verus!
