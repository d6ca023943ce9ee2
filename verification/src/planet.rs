//! Massive bodies (the star and the planets) and their per-tick integration.
//!
//! Each tick a body sums the softened inverse-square accelerations from all
//! the other massive bodies, then advances with semi-implicit Euler: the
//! velocity is updated from the total acceleration at the old positions, and
//! the position from the *new* velocity. An update whose mathematical value
//! would not fit its machine word is rejected wholesale — the previous
//! velocity and position are kept, and no orbit sample is recorded — the
//! integer analogue of discarding a non-finite result. The orbit trail keeps
//! the most recent `MAX_ORBIT_POINTS` accepted positions for display.

use vstd::prelude::*;

verus! {

use crate::force::BodyView;
use crate::force::ACCEL_TERM_BOUND;
use crate::force::accel_x;
use crate::force::accel_y;
use crate::force::accel_sum_x;
use crate::force::accel_sum_y;
use crate::force::pair_accel;
use crate::force::pair_defined;
use crate::force::soft_dsq;
use crate::force::lemma_accel_term_bounds;
use crate::num::sqrt_floor;
use crate::num::tdiv;
use crate::num::tdiv_i128;
use crate::num::lemma_tdiv_bounds;
use crate::MAX_ORBIT_POINTS;
use crate::NANO_PER_MICRO;
use crate::VEL_SCALE;

/// Sprite id planets are drawn with (pass-through for the renderer).
pub const PLANET_SPRITE: u32 = 0;

/// Default surface-gravity parameter of a new planet, in millimeters per
/// second squared (9.8 m/s^2), used only by the probe's reference pull.
pub const GRAVITY_MILLI: u32 = 9_800;

/// A massive body. Positions are meters, velocities micrometers per second,
/// the mass kilograms.
pub struct Planet {
    /// x-coordinate of the body's position, in meters.
    pub x: i64,
    /// y-coordinate of the body's position, in meters.
    pub y: i64,
    /// Radius, display-only.
    pub radius: u32,
    /// Color code, display-only.
    pub color: u32,
    /// Sprite id, display-only.
    pub sprite: u32,
    /// Mass in kilograms; positive.
    pub mass: u128,
    /// Historical positions accepted so far, newest last, display-only.
    pub orbit: Vec<(i64, i64)>,
    /// Whether this body is the gravitational primary (the star).
    pub sun: bool,
    /// Distance to the primary recomputed each tick, in meters.
    pub distance_to_sun: u64,
    /// Velocity along x, in micrometers per second.
    pub x_vel: i64,
    /// Velocity along y, in micrometers per second.
    pub y_vel: i64,
    /// Surface-gravity parameter in millimeters per second squared, used by
    /// the probe's reference pull.
    pub gravity: u32,
}

/// A body's mass is positive.
pub open spec fn planet_wf(p: Planet) -> bool {
    p.mass > 0
}

/// The fields of a body that the force pass reads.
pub open spec fn body_view(p: Planet) -> BodyView {
    (p.x as int, p.y as int, p.mass as int, p.gravity as int)
}

/// The force pass's view of a list of bodies.
pub open spec fn bodies_view(s: Seq<Planet>) -> Seq<BodyView> {
    Seq::new(s.len(), |i: int| body_view(s[i]))
}

/// Position and velocity of one body, as mathematical integers.
pub struct KinState {
    /// Position x, meters.
    pub x: int,
    /// Position y, meters.
    pub y: int,
    /// Velocity x, micrometers per second.
    pub vx: int,
    /// Velocity y, micrometers per second.
    pub vy: int,
}

/// The kinematic state a planet holds.
pub open spec fn planet_kin(p: Planet) -> KinState {
    KinState { x: p.x as int, y: p.y as int, vx: p.x_vel as int, vy: p.y_vel as int }
}

/// The velocity gained over a tick from a total acceleration (nanometers per
/// second squared), in micrometers per second, truncating toward zero.
pub open spec fn vel_delta(total: int, dt: int) -> int {
    tdiv(total * dt, NANO_PER_MICRO as int)
}

/// The velocity update fits the machine words; otherwise the whole tick is
/// rejected and the body keeps its previous state.
pub open spec fn vel_sums_defined(vx: int, vy: int, tx: int, ty: int, dt: int) -> bool {
    &&& -(i128::MAX as int) <= tx * dt <= i128::MAX as int
    &&& -(i128::MAX as int) <= ty * dt <= i128::MAX as int
    &&& i64::MIN as int <= vx + vel_delta(tx, dt) <= i64::MAX as int
    &&& i64::MIN as int <= vy + vel_delta(ty, dt) <= i64::MAX as int
}

/// `vel_sums_defined` for the totals a body gathers from the given bodies.
pub open spec fn vel_update_defined(k: KinState, bodies: Seq<BodyView>, dt: int) -> bool {
    vel_sums_defined(
        k.vx,
        k.vy,
        accel_sum_x(k.x, k.y, bodies),
        accel_sum_y(k.x, k.y, bodies),
        dt,
    )
}

/// The new x velocity of a body after one tick.
pub open spec fn vel_after_x(k: KinState, bodies: Seq<BodyView>, dt: int) -> int {
    k.vx + vel_delta(accel_sum_x(k.x, k.y, bodies), dt)
}

/// The new y velocity of a body after one tick.
pub open spec fn vel_after_y(k: KinState, bodies: Seq<BodyView>, dt: int) -> int {
    k.vy + vel_delta(accel_sum_y(k.x, k.y, bodies), dt)
}

/// The position a coordinate takes after one tick at velocity `v`
/// (micrometers per second, scaled back to meters, truncating toward zero).
pub open spec fn pos_after(pos: int, v: int, dt: int) -> int {
    pos + tdiv(v * dt, VEL_SCALE as int)
}

/// The position update fits the machine words; otherwise only the position
/// is kept (the already-updated velocity stands) and no sample is recorded.
pub open spec fn pos_update_defined(x: int, y: int, vx: int, vy: int, dt: int) -> bool {
    &&& i64::MIN as int <= pos_after(x, vx, dt) <= i64::MAX as int
    &&& i64::MIN as int <= pos_after(y, vy, dt) <= i64::MAX as int
}

/// One integration tick of a body under the given attracting bodies.
pub open spec fn kin_step(k: KinState, bodies: Seq<BodyView>, dt: int) -> KinState {
    if !vel_update_defined(k, bodies, dt) {
        k
    } else {
        let vx2 = vel_after_x(k, bodies, dt);
        let vy2 = vel_after_y(k, bodies, dt);
        if pos_update_defined(k.x, k.y, vx2, vy2, dt) {
            KinState { x: pos_after(k.x, vx2, dt), y: pos_after(k.y, vy2, dt), vx: vx2, vy: vy2 }
        } else {
            KinState { x: k.x, y: k.y, vx: vx2, vy: vy2 }
        }
    }
}

/// The tick was accepted in full, so exactly one orbit sample is recorded.
pub open spec fn tick_appends(k: KinState, bodies: Seq<BodyView>, dt: int) -> bool {
    &&& vel_update_defined(k, bodies, dt)
    &&& pos_update_defined(
        k.x,
        k.y,
        vel_after_x(k, bodies, dt),
        vel_after_y(k, bodies, dt),
        dt,
    )
}

/// The orbit trail after recording one sample: the sample is appended and,
/// when the trail is full, the oldest sample leaves.
pub open spec fn trail_push(t: Seq<(i64, i64)>, p: (i64, i64)) -> Seq<(i64, i64)> {
    if t.len() < MAX_ORBIT_POINTS {
        t.push(p)
    } else {
        t.subrange(1, t.len() as int).push(p)
    }
}

/// One recorded sample extends the trail by exactly one while it is below
/// capacity, keeps the length at capacity afterwards, and is always the
/// newest entry.
pub proof fn lemma_trail_growth(t: Seq<(i64, i64)>, p: (i64, i64))
    ensures
        t.len() < MAX_ORBIT_POINTS ==> trail_push(t, p).len() == t.len() + 1,
        t.len() >= MAX_ORBIT_POINTS ==> trail_push(t, p).len() == t.len(),
        trail_push(t, p).last() == p,
{
}

/// `n` integration ticks of a body.
pub open spec fn kin_iter(k: KinState, bodies: Seq<BodyView>, dt: int, n: nat) -> KinState
    decreases n,
{
    if n == 0 {
        k
    } else {
        kin_step(kin_iter(k, bodies, dt, (n - 1) as nat), bodies, dt)
    }
}

/// A body at rest that no other body attracts stays exactly in place, for
/// any number of ticks: its position and velocity never change.
pub proof fn lemma_noop_tick_forever(k: KinState, dt: int, n: nat)
    requires
        k.vx == 0,
        k.vy == 0,
        i64::MIN as int <= k.x <= i64::MAX as int,
        i64::MIN as int <= k.y <= i64::MAX as int,
    ensures
        kin_iter(k, Seq::empty(), dt, n) == k,
    decreases n,
{
    if n > 0 {
        lemma_noop_tick_forever(k, dt, (n - 1) as nat);
        assert(accel_sum_x(k.x, k.y, Seq::empty()) == 0);
        assert(accel_sum_y(k.x, k.y, Seq::empty()) == 0);
        assert(kin_step(k, Seq::empty(), dt) == k);
    }
}

/// Softening keeps a coincident pair harmless: the softened squared distance
/// is positive (no division by zero), the pair's direction components vanish,
/// and a body at rest on top of the other keeps exactly its pre-tick position
/// and velocity after the tick.
pub proof fn lemma_coincident_pair_keeps_state(k: KinState, m: int, g: int, dt: int)
    requires
        k.vx == 0,
        k.vy == 0,
        i64::MIN as int <= k.x <= i64::MAX as int,
        i64::MIN as int <= k.y <= i64::MAX as int,
        0 <= m,
    ensures
        soft_dsq(k.x, k.y, k.x, k.y) > 0,
        accel_x(k.x, k.y, k.x, k.y, m) == 0,
        accel_y(k.x, k.y, k.x, k.y, m) == 0,
        kin_step(k, seq![(k.x, k.y, m, g)], dt) == k,
{
    let dsq = soft_dsq(k.x, k.y, k.x, k.y);
    assert(dsq == (crate::SOFTENING_M as int) * (crate::SOFTENING_M as int));
    if pair_defined(k.x, k.y, k.x, k.y, m) {
        crate::num::lemma_sqrt_floor_is_sqrt(dsq);
        let dist = sqrt_floor(dsq);
        crate::num::lemma_sqrt_floor_at_least(dsq, dist, crate::SOFTENING_M as int);
        assert(dist > 0);
        let mag = crate::force::accel_mag_of(m, dsq);
        assert(mag * 0 == 0);
        vstd::arithmetic::div_mod::lemma_div_of0(dist);
        assert(mag * 0 / dist == 0);
        assert(crate::force::scaled_component(mag, 0, dist) == 0);
        assert(accel_x(k.x, k.y, k.x, k.y, m) == 0);
        assert(accel_y(k.x, k.y, k.x, k.y, m) == 0);
    } else {
        assert(accel_x(k.x, k.y, k.x, k.y, m) == 0);
        assert(accel_y(k.x, k.y, k.x, k.y, m) == 0);
    }
    let bodies = seq![(k.x, k.y, m, g)];
    assert(bodies.drop_last() =~= Seq::<BodyView>::empty());
    assert(bodies.last() == (k.x, k.y, m, g));
    assert(accel_sum_x(k.x, k.y, Seq::<BodyView>::empty()) == 0);
    assert(accel_sum_y(k.x, k.y, Seq::<BodyView>::empty()) == 0);
    assert(accel_sum_x(k.x, k.y, bodies) == accel_x(k.x, k.y, k.x, k.y, m));
    assert(accel_sum_y(k.x, k.y, bodies) == accel_y(k.x, k.y, k.x, k.y, m));
    assert(accel_sum_x(k.x, k.y, bodies) == 0);
    assert(accel_sum_y(k.x, k.y, bodies) == 0);
    assert(kin_step(k, bodies, dt) == k);
}

/// Total softened inverse-square acceleration on a body at `(sx, sy)` from
/// all the given bodies, skipping any pair whose computation would not fit.
pub(crate) fn total_accel(sx: i64, sy: i64, others: &[Planet]) -> (t: (i128, i128))
    ensures
        t.0 as int == accel_sum_x(sx as int, sy as int, bodies_view(others@)),
        t.1 as int == accel_sum_y(sx as int, sy as int, bodies_view(others@)),
{
    let ghost bv = bodies_view(others@);
    let n = others.len();
    let mut tx: i128 = 0;
    let mut ty: i128 = 0;
    let mut j: usize = 0;
    while j < n
        invariant
            j <= n,
            n == others@.len(),
            bv == bodies_view(others@),
            tx as int == accel_sum_x(sx as int, sy as int, bv.subrange(0, j as int)),
            ty as int == accel_sum_y(sx as int, sy as int, bv.subrange(0, j as int)),
            -(j as int * ACCEL_TERM_BOUND as int) <= tx as int <= j as int
                * ACCEL_TERM_BOUND as int,
            -(j as int * ACCEL_TERM_BOUND as int) <= ty as int <= j as int
                * ACCEL_TERM_BOUND as int,
        decreases n - j,
    {
        let o = &others[j];
        proof {
            lemma_accel_term_bounds(sx as int, sy as int, o.x as int, o.y as int, o.mass as int);
            assert((j + 1) as int * ACCEL_TERM_BOUND as int <= 0xffff_ffff_ffff_ffffint
                * ACCEL_TERM_BOUND as int) by {
                vstd::arithmetic::mul::lemma_mul_inequality(
                    (j + 1) as int,
                    0xffff_ffff_ffff_ffffint,
                    ACCEL_TERM_BOUND as int,
                );
            }
        }
        match pair_accel(sx, sy, o.x, o.y, o.mass) {
            Some(term) => {
                tx = tx + (term.0 as i128);
                ty = ty + (term.1 as i128);
            },
            None => {
            },
        }
        proof {
            assert(bv.subrange(0, (j + 1) as int).drop_last() =~= bv.subrange(0, j as int));
            assert(bv.subrange(0, (j + 1) as int).last() == body_view(others@[j as int]));
        }
        j = j + 1;
    }
    proof {
        assert(bv.subrange(0, n as int) =~= bv);
    }
    (tx, ty)
}

/// The velocity update of one tick: `Some` of the new velocity components
/// when every scaled value fits the machine words, `None` otherwise.
pub(crate) fn apply_vel_delta(vx: i64, vy: i64, tx: i128, ty: i128, delta_time: u64) -> (r: Option<
    (i64, i64),
>)
    ensures
        r is Some <==> vel_sums_defined(
            vx as int,
            vy as int,
            tx as int,
            ty as int,
            delta_time as int,
        ),
        r is Some ==> r->Some_0.0 as int == vx + vel_delta(tx as int, delta_time as int),
        r is Some ==> r->Some_0.1 as int == vy + vel_delta(ty as int, delta_time as int),
{
    let txdt = match tx.checked_mul(delta_time as i128) {
        Some(v) => {
            if v == i128::MIN {
                return None;
            }
            v
        },
        None => {
            return None;
        },
    };
    let tydt = match ty.checked_mul(delta_time as i128) {
        Some(v) => {
            if v == i128::MIN {
                return None;
            }
            v
        },
        None => {
            return None;
        },
    };
    let dvx = tdiv_i128(txdt, NANO_PER_MICRO);
    let dvy = tdiv_i128(tydt, NANO_PER_MICRO);
    proof {
        lemma_tdiv_bounds(txdt as int, NANO_PER_MICRO as int);
        lemma_tdiv_bounds(tydt as int, NANO_PER_MICRO as int);
    }
    let nvx = (vx as i128) + dvx;
    let nvy = (vy as i128) + dvy;
    if nvx < i64::MIN as i128 || nvx > i64::MAX as i128 {
        return None;
    }
    if nvy < i64::MIN as i128 || nvy > i64::MAX as i128 {
        return None;
    }
    Some((nvx as i64, nvy as i64))
}

/// The position update of one tick from the given velocity: `Some` of the
/// new coordinates when they fit the machine words, `None` otherwise.
pub(crate) fn apply_pos_delta(x: i64, y: i64, vx: i64, vy: i64, delta_time: u64) -> (r: Option<
    (i64, i64),
>)
    ensures
        r is Some <==> pos_update_defined(
            x as int,
            y as int,
            vx as int,
            vy as int,
            delta_time as int,
        ),
        r is Some ==> r->Some_0.0 as int == pos_after(x as int, vx as int, delta_time as int),
        r is Some ==> r->Some_0.1 as int == pos_after(y as int, vy as int, delta_time as int),
{
    proof {
        assert((vx as int) * (delta_time as int) < 0x8000_0000_0000_0000_0000_0000_0000_0000int
            && (vx as int) * (delta_time as int)
            > -0x8000_0000_0000_0000_0000_0000_0000_0000int) by (nonlinear_arith)
            requires
                -0x8000_0000_0000_0000i64 <= vx <= 0x7fff_ffff_ffff_ffffi64,
                0 <= delta_time <= 0xffff_ffff_ffff_ffffu64;
        assert((vy as int) * (delta_time as int) < 0x8000_0000_0000_0000_0000_0000_0000_0000int
            && (vy as int) * (delta_time as int)
            > -0x8000_0000_0000_0000_0000_0000_0000_0000int) by (nonlinear_arith)
            requires
                -0x8000_0000_0000_0000i64 <= vy <= 0x7fff_ffff_ffff_ffffi64,
                0 <= delta_time <= 0xffff_ffff_ffff_ffffu64;
    }
    let vdtx = (vx as i128) * (delta_time as i128);
    let vdty = (vy as i128) * (delta_time as i128);
    let dpx = tdiv_i128(vdtx, VEL_SCALE);
    let dpy = tdiv_i128(vdty, VEL_SCALE);
    proof {
        lemma_tdiv_bounds(vdtx as int, VEL_SCALE as int);
        lemma_tdiv_bounds(vdty as int, VEL_SCALE as int);
    }
    let nx = (x as i128) + dpx;
    let ny = (y as i128) + dpy;
    if nx < i64::MIN as i128 || nx > i64::MAX as i128 {
        return None;
    }
    if ny < i64::MIN as i128 || ny > i64::MAX as i128 {
        return None;
    }
    Some((nx as i64, ny as i64))
}

/// The force-pass view of all bodies but the one at index `i`: the pre-tick
/// snapshot a body integrates against.
pub open spec fn others_view(s: Seq<Planet>, i: int) -> Seq<BodyView> {
    bodies_view(s).subrange(0, i) + bodies_view(s).subrange(i + 1, s.len() as int)
}

/// `i` is the first body flagged as the sun.
pub open spec fn is_first_sun(s: Seq<Planet>, i: int) -> bool {
    &&& 0 <= i < s.len()
    &&& s[i].sun
    &&& forall|j: int| 0 <= j < i ==> !(#[trigger] s[j]).sun
}

/// The distance to the primary recorded after a tick: the distance between
/// the final positions rounded down, when its square fits the machine words;
/// otherwise the previous value is kept.
pub open spec fn dist_to_primary(x: int, y: int, px: int, py: int, prior: int) -> int {
    let dsq = (x - px) * (x - px) + (y - py) * (y - py);
    if dsq <= u128::MAX as int {
        sqrt_floor(dsq)
    } else {
        prior
    }
}

/// An exact copy of a trail.
fn copy_points(src: &Vec<(i64, i64)>) -> (r: Vec<(i64, i64)>)
    ensures
        r@ == src@,
{
    let mut r: Vec<(i64, i64)> = Vec::new();
    let mut i: usize = 0;
    while i < src.len()
        invariant
            i <= src@.len(),
            r@ == src@.subrange(0, i as int),
        decreases src@.len() - i,
    {
        let q = src[i];
        r.push(q);
        proof {
            assert(r@ =~= src@.subrange(0, (i + 1) as int));
        }
        i = i + 1;
    }
    proof {
        assert(r@ =~= src@);
    }
    r
}

/// An exact copy of a body, trail included.
pub(crate) fn duplicate_planet(p: &Planet) -> (r: Planet)
    ensures
        r.x == p.x,
        r.y == p.y,
        r.radius == p.radius,
        r.color == p.color,
        r.sprite == p.sprite,
        r.mass == p.mass,
        r.orbit@ == p.orbit@,
        r.sun == p.sun,
        r.distance_to_sun == p.distance_to_sun,
        r.x_vel == p.x_vel,
        r.y_vel == p.y_vel,
        r.gravity == p.gravity,
{
    Planet {
        x: p.x,
        y: p.y,
        radius: p.radius,
        color: p.color,
        sprite: p.sprite,
        mass: p.mass,
        orbit: copy_points(&p.orbit),
        sun: p.sun,
        distance_to_sun: p.distance_to_sun,
        x_vel: p.x_vel,
        y_vel: p.y_vel,
        gravity: p.gravity,
    }
}

/// Copies of all the bodies but the one at `skip`: the pre-tick snapshot the
/// body at `skip` integrates against.
pub(crate) fn others_of(planets: &Vec<Planet>, skip: usize) -> (r: Vec<Planet>)
    requires
        skip < planets@.len(),
    ensures
        bodies_view(r@) == others_view(planets@, skip as int),
{
    let mut r: Vec<Planet> = Vec::new();
    let mut j: usize = 0;
    while j < planets.len()
        invariant
            j <= planets@.len(),
            skip < planets@.len(),
            r@.len() == if j <= skip {
                j as int
            } else {
                j - 1
            },
            forall|t: int|
                0 <= t < r@.len() && t < skip ==> body_view(#[trigger] r@[t]) == body_view(
                    planets@[t],
                ),
            forall|t: int|
                0 <= t < r@.len() && t >= skip ==> body_view(#[trigger] r@[t]) == body_view(
                    planets@[t + 1],
                ),
        decreases planets@.len() - j,
    {
        if j != skip {
            let d = duplicate_planet(&planets[j]);
            r.push(d);
        }
        j = j + 1;
    }
    proof {
        assert(bodies_view(r@) =~= others_view(planets@, skip as int));
    }
    r
}

/// The first body flagged as the sun, if any.
pub(crate) fn find_primary(planets: &Vec<Planet>) -> (r: Option<usize>)
    ensures
        r is Some ==> is_first_sun(planets@, r->Some_0 as int),
        r is None ==> forall|i: int|
            0 <= i < planets@.len() ==> !(#[trigger] planets@[i]).sun,
{
    let mut j: usize = 0;
    while j < planets.len()
        invariant
            j <= planets@.len(),
            forall|t: int| 0 <= t < j ==> !(#[trigger] planets@[t]).sun,
        decreases planets@.len() - j,
    {
        if planets[j].sun {
            return Some(j);
        }
        j = j + 1;
    }
    None
}

/// The distance between two positions rounded down, or `prior` when its
/// square would not fit the machine words.
pub(crate) fn distance_between(x: i64, y: i64, px: i64, py: i64, prior: u64) -> (r: u64)
    ensures
        r as int == dist_to_primary(x as int, y as int, px as int, py as int, prior as int),
{
    let dx = (x as i128) - (px as i128);
    let dy = (y as i128) - (py as i128);
    let adx = (if dx >= 0 { dx } else { -dx }) as u128;
    let ady = (if dy >= 0 { dy } else { -dy }) as u128;
    proof {
        assert((adx as int) * (adx as int) <= u128::MAX as int) by (nonlinear_arith)
            requires
                adx <= 0xffff_ffff_ffff_ffffu128;
        assert((ady as int) * (ady as int) <= u128::MAX as int) by (nonlinear_arith)
            requires
                ady <= 0xffff_ffff_ffff_ffffu128;
        assert((adx as int) * (adx as int) == (dx as int) * (dx as int)) by (nonlinear_arith)
            requires
                adx as int == if dx as int >= 0 { dx as int } else { -(dx as int) };
        assert((ady as int) * (ady as int) == (dy as int) * (dy as int)) by (nonlinear_arith)
            requires
                ady as int == if dy as int >= 0 { dy as int } else { -(dy as int) };
    }
    let dx2 = adx * adx;
    let dy2 = ady * ady;
    match dx2.checked_add(dy2) {
        Some(dsq) => {
            let d = crate::num::isqrt(dsq);
            proof {
                crate::num::lemma_sqrt_floor_unique(dsq as int, d as int);
            }
            d
        },
        None => prior,
    }
}

impl Planet {
    /// A new body at the given position, at rest, with an empty trail.
    pub fn new(x: i64, y: i64, radius: u32, color: u32, mass: u128) -> (r: Planet)
        requires
            mass > 0,
        ensures
            r.x == x,
            r.y == y,
            r.radius == radius,
            r.color == color,
            r.sprite == PLANET_SPRITE,
            r.mass == mass,
            r.orbit@ == Seq::<(i64, i64)>::empty(),
            r.sun == false,
            r.distance_to_sun == 0,
            r.x_vel == 0,
            r.y_vel == 0,
            r.gravity == GRAVITY_MILLI,
            planet_wf(r),
    {
        Planet {
            x,
            y,
            radius,
            color,
            sprite: PLANET_SPRITE,
            mass,
            orbit: Vec::new(),
            sun: false,
            distance_to_sun: 0,
            x_vel: 0,
            y_vel: 0,
            gravity: GRAVITY_MILLI,
        }
    }

    /// Whether a probe at the given position is within the body's close
    /// gravity range of 100 meters.
    pub fn is_within_gravity_range(&self, rocket_position: (i64, i64)) -> (r: bool)
        ensures
            r <==> (rocket_position.0 - self.x) * (rocket_position.0 - self.x) + (
            rocket_position.1 - self.y) * (rocket_position.1 - self.y) < 10_000,
    {
        let dx = (rocket_position.0 as i128) - (self.x as i128);
        let dy = (rocket_position.1 as i128) - (self.y as i128);
        let adx = (if dx >= 0 { dx } else { -dx }) as u128;
        let ady = (if dy >= 0 { dy } else { -dy }) as u128;
        proof {
            assert((adx as int) * (adx as int) <= u128::MAX as int) by (nonlinear_arith)
                requires
                    adx <= 0xffff_ffff_ffff_ffffu128;
            assert((ady as int) * (ady as int) <= u128::MAX as int) by (nonlinear_arith)
                requires
                    ady <= 0xffff_ffff_ffff_ffffu128;
            assert((adx as int) * (adx as int) == (dx as int) * (dx as int)) by (nonlinear_arith)
                requires
                    adx as int == if dx as int >= 0 { dx as int } else { -(dx as int) };
            assert((ady as int) * (ady as int) == (dy as int) * (dy as int)) by (nonlinear_arith)
                requires
                    ady as int == if dy as int >= 0 { dy as int } else { -(dy as int) };
        }
        let dx2 = adx * adx;
        let dy2 = ady * ady;
        match dx2.checked_add(dy2) {
            Some(d2) => d2 < 10_000,
            None => false,
        }
    }

    /// The acceleration `self` gains from `other` — the gravitational force
    /// per unit of own mass, softened — together with the softened distance;
    /// `None` when the pair's computation would not fit the machine words,
    /// in which case the caller skips the pair.
    pub fn calculate_force(&self, other: &Planet) -> (r: Option<(i64, i64, u64)>)
        ensures
            r is Some <==> pair_defined(
                self.x as int,
                self.y as int,
                other.x as int,
                other.y as int,
                other.mass as int,
            ),
            r is Some ==> r->Some_0.0 as int == accel_x(
                self.x as int,
                self.y as int,
                other.x as int,
                other.y as int,
                other.mass as int,
            ),
            r is Some ==> r->Some_0.1 as int == accel_y(
                self.x as int,
                self.y as int,
                other.x as int,
                other.y as int,
                other.mass as int,
            ),
            r is Some ==> r->Some_0.2 as int == sqrt_floor(
                soft_dsq(self.x as int, self.y as int, other.x as int, other.y as int),
            ),
    {
        pair_accel(self.x, self.y, other.x, other.y, other.mass)
    }

    /// Record an accepted position in the orbit trail, evicting the oldest
    /// sample once the trail is full.
    fn push_orbit_point(&mut self, px: i64, py: i64)
        ensures
            final(self).orbit@ == trail_push(old(self).orbit@, (px, py)),
            final(self).x == old(self).x,
            final(self).y == old(self).y,
            final(self).x_vel == old(self).x_vel,
            final(self).y_vel == old(self).y_vel,
            final(self).radius == old(self).radius,
            final(self).color == old(self).color,
            final(self).sprite == old(self).sprite,
            final(self).mass == old(self).mass,
            final(self).sun == old(self).sun,
            final(self).distance_to_sun == old(self).distance_to_sun,
            final(self).gravity == old(self).gravity,
    {
        if self.orbit.len() >= MAX_ORBIT_POINTS {
            self.orbit.remove(0);
            proof {
                assert(self.orbit@ =~= old(self).orbit@.subrange(1, old(self).orbit@.len() as int));
            }
        }
        self.orbit.push((px, py));
    }

    /// One integration tick: sum the accelerations from all the given bodies
    /// (skipping any pair whose computation would not fit), update the
    /// velocity from the total, then the position from the new velocity, and
    /// record the accepted position in the orbit trail. A velocity update
    /// that would not fit leaves the whole state untouched; a position update
    /// that would not fit keeps the position (the new velocity stands). No
    /// sample is recorded on a rejected tick. The distance to the primary is
    /// derived state: the session tick recomputes it after all bodies have
    /// moved, so it is left untouched here.
    pub fn update_position(&mut self, others: &[Planet], delta_time: u64)
        ensures
            ({
                let k1 = kin_step(
                    planet_kin(*old(self)),
                    bodies_view(others@),
                    delta_time as int,
                );
                &&& final(self).x as int == k1.x
                &&& final(self).y as int == k1.y
                &&& final(self).x_vel as int == k1.vx
                &&& final(self).y_vel as int == k1.vy
            }),
            final(self).orbit@ == if tick_appends(
                planet_kin(*old(self)),
                bodies_view(others@),
                delta_time as int,
            ) {
                trail_push(old(self).orbit@, (final(self).x, final(self).y))
            } else {
                old(self).orbit@
            },
            final(self).radius == old(self).radius,
            final(self).color == old(self).color,
            final(self).sprite == old(self).sprite,
            final(self).mass == old(self).mass,
            final(self).sun == old(self).sun,
            final(self).distance_to_sun == old(self).distance_to_sun,
            final(self).gravity == old(self).gravity,
    {
        let (tx, ty) = total_accel(self.x, self.y, others);
        let (nvx, nvy) = match apply_vel_delta(self.x_vel, self.y_vel, tx, ty, delta_time) {
            Some(v) => v,
            None => {
                return ;
            },
        };
        self.x_vel = nvx;
        self.y_vel = nvy;
        let (nx, ny) = match apply_pos_delta(self.x, self.y, nvx, nvy, delta_time) {
            Some(v) => v,
            None => {
                return ;
            },
        };
        self.x = nx;
        self.y = ny;
        let px = self.x;
        let py = self.y;
        self.push_orbit_point(px, py);
    }
}

} // verus!
