//! The force model: softened inverse-square gravitational attraction.
//!
//! A pair of bodies at squared separation `d2` attracts with magnitude
//! `G * m / (d2 + SOFTENING_M^2)` per unit of attracted mass, directed along
//! the separation vector. Working per unit mass (an acceleration, in
//! nanometers per second squared) keeps every intermediate product inside
//! `u128` for all masses the model admits; the integrator then never needs to
//! divide by the attracted body's own mass.
//!
//! A pair whose intermediates would not fit the machine words is reported as
//! undefined (`None`) and contributes nothing, the integer analogue of
//! skipping a non-finite force.

use vstd::prelude::*;

verus! {

use vstd::arithmetic::div_mod::lemma_div_is_ordered;
use vstd::arithmetic::div_mod::lemma_div_is_ordered_by_denominator;
use vstd::arithmetic::div_mod::lemma_div_pos_is_pos;
use vstd::arithmetic::div_mod::lemma_div_multiples_vanish;
use vstd::arithmetic::mul::lemma_mul_inequality;
use vstd::arithmetic::mul::lemma_mul_is_commutative;
use crate::num::is_sqrt_floor;
use crate::num::sqrt_floor;
use crate::num::lemma_sqrt_floor_is_sqrt;
use crate::num::lemma_sqrt_floor_unique;
use crate::num::lemma_sqrt_floor_at_least;
use crate::G_NUM;
use crate::G_DEN;
use crate::SOFTENING_M;
use crate::ACCEL_SCALE;

/// A bound on the absolute value of any defined acceleration component,
/// in nanometers per second squared (comfortably above
/// `(u128::MAX / G_DEN) * ACCEL_SCALE / SOFTENING_M^2`).
pub const ACCEL_TERM_BOUND: u128 = 40_000_000_000_000;

/// `G * m` in scaled units: the acceleration magnitude at unit softened
/// squared distance, in nanometers per second squared.
pub open spec fn grav_nano(m: int) -> int {
    ((G_NUM as int * m) / (G_DEN as int)) * (ACCEL_SCALE as int)
}

/// Squared separation plus the squared softening length.
pub open spec fn soft_dsq(sx: int, sy: int, ox: int, oy: int) -> int {
    (ox - sx) * (ox - sx) + (oy - sy) * (oy - sy) + (SOFTENING_M as int) * (SOFTENING_M as int)
}

/// The pair's computation stays inside `u128`; otherwise it is skipped.
pub open spec fn pair_defined(sx: int, sy: int, ox: int, oy: int, m: int) -> bool {
    &&& G_NUM as int * m <= u128::MAX as int
    &&& soft_dsq(sx, sy, ox, oy) <= u128::MAX as int
}

/// Acceleration magnitude for an attracting mass `m` at softened squared
/// distance `dsq`.
pub open spec fn accel_mag_of(m: int, dsq: int) -> int {
    grav_nano(m) / dsq
}

/// One signed component of the acceleration: the magnitude scaled by
/// `delta / dist`, the cosine (or sine) of the direction angle, with the
/// division truncating toward zero.
pub open spec fn scaled_component(mag: int, delta: int, dist: int) -> int {
    if delta >= 0 {
        mag * delta / dist
    } else {
        -(mag * (-delta) / dist)
    }
}

/// The x component of the acceleration imparted on a body at `(sx, sy)` by a
/// mass `m` at `(ox, oy)`; zero when the pair is undefined (skipped).
pub open spec fn accel_x(sx: int, sy: int, ox: int, oy: int, m: int) -> int {
    if pair_defined(sx, sy, ox, oy, m) {
        let dsq = soft_dsq(sx, sy, ox, oy);
        scaled_component(accel_mag_of(m, dsq), ox - sx, sqrt_floor(dsq))
    } else {
        0
    }
}

/// The y component; see `accel_x`.
pub open spec fn accel_y(sx: int, sy: int, ox: int, oy: int, m: int) -> int {
    if pair_defined(sx, sy, ox, oy, m) {
        let dsq = soft_dsq(sx, sy, ox, oy);
        scaled_component(accel_mag_of(m, dsq), oy - sy, sqrt_floor(dsq))
    } else {
        0
    }
}

/// A massive body as the force pass sees it: position, mass, and the
/// surface-gravity parameter used by the probe's reference pull.
pub type BodyView = (int, int, int, int);

/// Total acceleration (x component) on a body at `(sx, sy)` from a sequence
/// of massive bodies; undefined pairs contribute zero.
pub open spec fn accel_sum_x(sx: int, sy: int, bodies: Seq<BodyView>) -> int
    decreases bodies.len(),
{
    if bodies.len() == 0 {
        0
    } else {
        accel_sum_x(sx, sy, bodies.drop_last())
            + accel_x(sx, sy, bodies.last().0, bodies.last().1, bodies.last().2)
    }
}

/// Total acceleration (y component); see `accel_sum_x`.
pub open spec fn accel_sum_y(sx: int, sy: int, bodies: Seq<BodyView>) -> int
    decreases bodies.len(),
{
    if bodies.len() == 0 {
        0
    } else {
        accel_sum_y(sx, sy, bodies.drop_last())
            + accel_y(sx, sy, bodies.last().0, bodies.last().1, bodies.last().2)
    }
}

/// The softened squared distance is at least the squared softening length,
/// and at least either squared coordinate difference.
proof fn lemma_soft_dsq_lower(sx: int, sy: int, ox: int, oy: int)
    ensures
        soft_dsq(sx, sy, ox, oy) >= (SOFTENING_M as int) * (SOFTENING_M as int),
        soft_dsq(sx, sy, ox, oy) >= (ox - sx) * (ox - sx),
        soft_dsq(sx, sy, ox, oy) >= (oy - sy) * (oy - sy),
{
    assert((ox - sx) * (ox - sx) >= 0) by (nonlinear_arith);
    assert((oy - sy) * (oy - sy) >= 0) by (nonlinear_arith);
}

/// `grav_nano` of an admissible mass is nonnegative and, when the pair is
/// defined, bounded by the largest value `u128` admits.
proof fn lemma_grav_nano_bounds(m: int)
    requires
        0 <= m,
        G_NUM as int * m <= u128::MAX as int,
    ensures
        0 <= grav_nano(m),
        grav_nano(m) <= (u128::MAX as int / G_DEN as int) * (ACCEL_SCALE as int),
{
    lemma_div_pos_is_pos(G_NUM as int * m, G_DEN as int);
    lemma_div_is_ordered(G_NUM as int * m, u128::MAX as int, G_DEN as int);
}

/// A defined component magnitude is bounded by the magnitude itself:
/// `mag * |delta| / dist <= mag` whenever `|delta| <= dist`.
proof fn lemma_component_le_mag(mag: int, adelta: int, dist: int)
    requires
        0 <= mag,
        0 <= adelta <= dist,
        0 < dist,
    ensures
        0 <= mag * adelta / dist <= mag,
{
    lemma_mul_inequality(adelta, dist, mag);
    lemma_mul_is_commutative(adelta, mag);
    lemma_mul_is_commutative(dist, mag);
    lemma_div_is_ordered(mag * adelta, mag * dist, dist);
    lemma_div_multiples_vanish(mag, dist);
    lemma_mul_is_commutative(dist, mag);
    lemma_div_pos_is_pos(mag * adelta, dist);
}

/// Every acceleration component lies within `ACCEL_TERM_BOUND`.
pub proof fn lemma_accel_term_bounds(sx: int, sy: int, ox: int, oy: int, m: int)
    requires
        0 <= m,
    ensures
        -(ACCEL_TERM_BOUND as int) <= accel_x(sx, sy, ox, oy, m) <= ACCEL_TERM_BOUND as int,
        -(ACCEL_TERM_BOUND as int) <= accel_y(sx, sy, ox, oy, m) <= ACCEL_TERM_BOUND as int,
{
    if pair_defined(sx, sy, ox, oy, m) {
        let dsq = soft_dsq(sx, sy, ox, oy);
        let dist = sqrt_floor(dsq);
        let mag = accel_mag_of(m, dsq);
        let dx = ox - sx;
        let dy = oy - sy;
        lemma_soft_dsq_lower(sx, sy, ox, oy);
        lemma_grav_nano_bounds(m);
        lemma_div_is_ordered_by_denominator(
            grav_nano(m),
            (SOFTENING_M as int) * (SOFTENING_M as int),
            dsq,
        );
        lemma_div_is_ordered(
            grav_nano(m),
            (u128::MAX as int / G_DEN as int) * (ACCEL_SCALE as int),
            (SOFTENING_M as int) * (SOFTENING_M as int),
        );
        assert(mag <= ACCEL_TERM_BOUND as int);
        lemma_sqrt_floor_is_sqrt(dsq);
        assert((if dx >= 0 { dx } else { -dx }) * (if dx >= 0 { dx } else { -dx }) == dx * dx)
            by (nonlinear_arith);
        assert((if dy >= 0 { dy } else { -dy }) * (if dy >= 0 { dy } else { -dy }) == dy * dy)
            by (nonlinear_arith);
        lemma_sqrt_floor_at_least(dsq, dist, if dx >= 0 { dx } else { -dx });
        lemma_sqrt_floor_at_least(dsq, dist, if dy >= 0 { dy } else { -dy });
        lemma_sqrt_floor_at_least(dsq, dist, SOFTENING_M as int);
        lemma_component_le_mag(mag, if dx >= 0 { dx } else { -dx }, dist);
        lemma_component_le_mag(mag, if dy >= 0 { dy } else { -dy }, dist);
    }
}

/// Inverse-square law up to softening: for a fixed attracting mass, the
/// acceleration magnitude never increases as the squared separation grows.
pub proof fn lemma_force_monotonic(sx: int, sy: int, x1: int, y1: int, x2: int, y2: int, m: int)
    requires
        0 <= m,
        (x1 - sx) * (x1 - sx) + (y1 - sy) * (y1 - sy)
            <= (x2 - sx) * (x2 - sx) + (y2 - sy) * (y2 - sy),
    ensures
        accel_mag_of(m, soft_dsq(sx, sy, x2, y2)) <= accel_mag_of(m, soft_dsq(sx, sy, x1, y1)),
{
    lemma_soft_dsq_lower(sx, sy, x1, y1);
    lemma_soft_dsq_lower(sx, sy, x2, y2);
    assert(0 <= G_NUM as int * m) by (nonlinear_arith)
        requires
            0 <= m;
    lemma_div_pos_is_pos(G_NUM as int * m, G_DEN as int);
    assert(0 <= grav_nano(m));
    lemma_div_is_ordered_by_denominator(
        grav_nano(m),
        soft_dsq(sx, sy, x1, y1),
        soft_dsq(sx, sy, x2, y2),
    );
}

/// Softened inverse-square attraction of one pair of bodies.
///
/// Returns the acceleration imparted on the body at `(sx, sy)` by a mass `m`
/// at `(ox, oy)` — components in nanometers per second squared — together
/// with the softened distance in meters. Returns `None` exactly when an
/// intermediate value would not fit `u128`; the caller then skips the pair.
pub fn pair_accel(sx: i64, sy: i64, ox: i64, oy: i64, m: u128) -> (r: Option<(i64, i64, u64)>)
    ensures
        r is Some <==> pair_defined(sx as int, sy as int, ox as int, oy as int, m as int),
        r is Some ==> r->Some_0.0 as int == accel_x(
            sx as int,
            sy as int,
            ox as int,
            oy as int,
            m as int,
        ),
        r is Some ==> r->Some_0.1 as int == accel_y(
            sx as int,
            sy as int,
            ox as int,
            oy as int,
            m as int,
        ),
        r is Some ==> r->Some_0.2 as int == sqrt_floor(
            soft_dsq(sx as int, sy as int, ox as int, oy as int),
        ),
{
    let gm = match m.checked_mul(G_NUM) {
        Some(v) => v,
        None => {
            return None;
        },
    };
    let t = gm / G_DEN;
    proof {
        lemma_div_is_ordered(gm as int, u128::MAX as int, G_DEN as int);
    }
    let grav = t * ACCEL_SCALE;
    let dx = (ox as i128) - (sx as i128);
    let dy = (oy as i128) - (sy as i128);
    let adx = (if dx >= 0 { dx } else { -dx }) as u128;
    let ady = (if dy >= 0 { dy } else { -dy }) as u128;
    proof {
        assert((adx as int) * (adx as int) <= u128::MAX as int) by (nonlinear_arith)
            requires
                adx <= 0xffff_ffff_ffff_ffffu128;
        assert((ady as int) * (ady as int) <= u128::MAX as int) by (nonlinear_arith)
            requires
                ady <= 0xffff_ffff_ffff_ffffu128;
        assert((adx as int) * (adx as int) == ((ox - sx) as int) * ((ox - sx) as int))
            by (nonlinear_arith)
            requires
                adx as int == if ox - sx >= 0 { ox - sx } else { -(ox - sx) };
        assert((ady as int) * (ady as int) == ((oy - sy) as int) * ((oy - sy) as int))
            by (nonlinear_arith)
            requires
                ady as int == if oy - sy >= 0 { oy - sy } else { -(oy - sy) };
    }
    let dx2 = adx * adx;
    let dy2 = ady * ady;
    let s1 = match dx2.checked_add(dy2) {
        Some(v) => v,
        None => {
            return None;
        },
    };
    let dsq = match s1.checked_add(1_000_000_000_000_000_000u128) {
        Some(v) => v,
        None => {
            return None;
        },
    };
    let dist = crate::num::isqrt(dsq);
    let mag = grav / dsq;
    proof {
        lemma_div_is_ordered_by_denominator(grav as int, 1_000_000_000_000_000_000int, dsq as int);
        assert(mag <= ACCEL_TERM_BOUND);
        assert((mag as int) * (adx as int) <= u128::MAX as int) by (nonlinear_arith)
            requires
                mag <= ACCEL_TERM_BOUND,
                adx <= 0xffff_ffff_ffff_ffffu128;
        assert((mag as int) * (ady as int) <= u128::MAX as int) by (nonlinear_arith)
            requires
                mag <= ACCEL_TERM_BOUND,
                ady <= 0xffff_ffff_ffff_ffffu128;
        lemma_sqrt_floor_unique(dsq as int, dist as int);
        lemma_sqrt_floor_at_least(dsq as int, dist as int, SOFTENING_M as int);
        lemma_sqrt_floor_at_least(dsq as int, dist as int, adx as int);
        lemma_sqrt_floor_at_least(dsq as int, dist as int, ady as int);
    }
    let axn = mag * adx;
    let ayn = mag * ady;
    let ax_mag = axn / (dist as u128);
    let ay_mag = ayn / (dist as u128);
    proof {
        lemma_component_le_mag(mag as int, adx as int, dist as int);
        lemma_component_le_mag(mag as int, ady as int, dist as int);
    }
    let ax: i64 = if dx >= 0 {
        ax_mag as i64
    } else {
        -(ax_mag as i64)
    };
    let ay: i64 = if dy >= 0 {
        ay_mag as i64
    } else {
        -(ay_mag as i64)
    };
    Some((ax, ay, dist))
}

} // verus!
