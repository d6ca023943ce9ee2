use day_in_mars::planet::Planet;
use day_in_mars::rockets::Rocket;
use day_in_mars::rockets::MAX_LAUNCH_POWER;
use day_in_mars::SUN_MASS_KG;
use day_in_mars::AU_M;
use day_in_mars::TIMESTEP;

fn isqrt_u128(n: u128) -> u64 {
    let mut lo: u128 = 0;
    let mut hi: u128 = 1u128 << 64;
    while lo + 1 < hi {
        let mid = lo + (hi - lo) / 2;
        if mid * mid <= n {
            lo = mid;
        } else {
            hi = mid;
        }
    }
    lo as u64
}

#[test]
fn force_magnitude_decreases_with_distance() {
    let probe = Planet::new(0, 0, 10, 0, 1);
    let near = Planet::new(2_000_000_000, 0, 10, 0, SUN_MASS_KG);
    let mid = Planet::new(3_000_000_000, 0, 10, 0, SUN_MASS_KG);
    let far = Planet::new(4_000_000_000, 0, 10, 0, SUN_MASS_KG);
    let (ax_near, ay_near, _) = probe.calculate_force(&near).unwrap();
    let (ax_mid, ay_mid, _) = probe.calculate_force(&mid).unwrap();
    let (ax_far, ay_far, _) = probe.calculate_force(&far).unwrap();
    assert_eq!(ay_near, 0);
    assert_eq!(ay_mid, 0);
    assert_eq!(ay_far, 0);
    assert!(ax_near > ax_mid);
    assert!(ax_mid > ax_far);
    assert!(ax_far > 0);
}

#[test]
fn noop_tick_keeps_single_body_in_place() {
    let mut p = Planet::new(123_456_789, -987_654_321, 10, 0, 1_000);
    for _ in 0..10 {
        p.update_position(&[], TIMESTEP);
        assert_eq!(p.x, 123_456_789);
        assert_eq!(p.y, -987_654_321);
        assert_eq!(p.x_vel, 0);
        assert_eq!(p.y_vel, 0);
    }
    assert_eq!(p.orbit.len(), 10);
}

#[test]
fn coincident_bodies_keep_exact_state() {
    let a0 = Planet::new(5_000, 5_000, 10, 0, SUN_MASS_KG);
    let mut a = Planet::new(5_000, 5_000, 10, 0, SUN_MASS_KG);
    let b = Planet::new(5_000, 5_000, 10, 0, SUN_MASS_KG);
    a.update_position(&[b], TIMESTEP);
    assert_eq!(a.x, a0.x);
    assert_eq!(a.y, a0.y);
    assert_eq!(a.x_vel, 0);
    assert_eq!(a.y_vel, 0);
    assert_eq!(a.orbit.len(), 1);
    assert_eq!(a.orbit[0], (5_000, 5_000));
}

#[test]
fn worked_two_body_scenario() {
    let star = Planet::new(0, 0, 100, 0, SUN_MASS_KG);
    let mut planet = Planet::new(-AU_M, 0, 160, 0, 5_974_200_000_000_000_000_000_000);
    planet.y_vel = 29_783_000_000;
    planet.update_position(&[star], 86_400);
    // The position moves by velocity times the time step along y (the pull
    // is purely along x on the first tick) ...
    assert_eq!(planet.y, 2_573_251_200);
    assert_eq!(planet.y_vel, 29_783_000_000);
    // ... plus a small gravity-induced correction toward the star along x.
    assert!(planet.x_vel > 0);
    assert!(planet.x > -AU_M);
    assert!(planet.x < -AU_M + 60_000_000);
}

#[test]
fn trail_grows_once_per_accepted_tick() {
    let star = Planet::new(0, 0, 100, 0, SUN_MASS_KG);
    let mut planet = Planet::new(-AU_M, 0, 160, 0, 5_974_200_000_000_000_000_000_000);
    planet.y_vel = 29_783_000_000;
    assert_eq!(planet.orbit.len(), 0);
    planet.update_position(std::slice::from_ref(&star), 86_400);
    assert_eq!(planet.orbit.len(), 1);
    assert_eq!(planet.orbit[0], (planet.x, planet.y));
    planet.update_position(std::slice::from_ref(&star), 86_400);
    assert_eq!(planet.orbit.len(), 2);
    assert_eq!(planet.orbit[1], (planet.x, planet.y));
}

#[test]
fn trail_untouched_when_position_update_is_discarded() {
    let mut p = Planet::new(i64::MAX - 1_000, 0, 10, 0, 1_000);
    p.x_vel = 1_000_000_000_000;
    p.update_position(&[], TIMESTEP);
    // The new x would overflow, so the position is kept and no sample is
    // recorded; the velocity (unchanged by an empty force sum) stands.
    assert_eq!(p.x, i64::MAX - 1_000);
    assert_eq!(p.x_vel, 1_000_000_000_000);
    assert_eq!(p.orbit.len(), 0);
}

#[test]
fn whole_tick_discarded_when_velocity_overflows() {
    let before_x = 0;
    let mut p = Planet::new(before_x, 0, 10, 0, 1_000);
    p.x_vel = i64::MAX;
    let other = Planet::new(1_000_000_000, 0, 100, 0, SUN_MASS_KG);
    p.update_position(&[other], TIMESTEP);
    assert_eq!(p.x, before_x);
    assert_eq!(p.x_vel, i64::MAX);
    assert_eq!(p.orbit.len(), 0);
}

#[test]
fn rocket_resets_when_too_far_from_origin() {
    let mut r = Rocket::new();
    r.set_position(21 * AU_M, 0);
    r.set_velocity(5_000_000, -5_000_000);
    r.is_launching = true;
    r.launch_power = 42;
    r.update(&[], TIMESTEP);
    assert_eq!(r.x, -149_600_000);
    assert_eq!(r.y, 6_371_000);
    assert_eq!(r.velocity_x, 0);
    assert_eq!(r.velocity_y, 0);
    assert_eq!(r.launch_power, 0);
    assert!(!r.is_launching);
}

#[test]
fn rocket_just_inside_reset_distance_is_not_reset() {
    let mut r = Rocket::new();
    r.set_position(20 * AU_M, 0);
    r.update(&[], TIMESTEP);
    assert_eq!(r.x, 20 * AU_M);
}

#[test]
fn launch_power_accumulates_while_flag_is_held() {
    let mut r = Rocket::new();
    r.is_launching = true;
    r.update(&[], TIMESTEP);
    assert_eq!(r.launch_power, 1_000_000);
    assert!(r.is_launching);
    assert!(r.velocity_x > 0);
    assert_eq!(r.velocity_x, r.velocity_y);
    let v1 = r.velocity_x;
    r.update(&[], TIMESTEP);
    assert_eq!(r.launch_power, 2_000_000);
    assert!(r.velocity_x > v1 || r.velocity_x == v1);
}

#[test]
fn launch_power_is_clamped_at_the_maximum() {
    let mut r = Rocket::new();
    r.is_launching = true;
    for _ in 0..120 {
        // Keep the probe in place so the out-of-bounds reset never fires;
        // only the power ramp is under test.
        r.set_position(-149_600_000, 6_371_000);
        r.set_velocity(0, 0);
        r.update(&[], TIMESTEP);
    }
    assert_eq!(r.launch_power, MAX_LAUNCH_POWER);
    assert!(r.is_launching);
}

#[test]
fn launch_flag_cleared_by_caller_stops_accumulation() {
    let mut r = Rocket::new();
    r.is_launching = true;
    r.set_velocity(0, 0);
    r.update(&[], TIMESTEP);
    let p1 = r.launch_power;
    r.is_launching = false;
    r.set_position(-149_600_000, 6_371_000);
    r.update(&[], TIMESTEP);
    assert_eq!(r.launch_power, p1);
}

#[test]
fn gravity_range_boundary_is_exact() {
    let p = Planet::new(0, 0, 10, 0, 1_000);
    assert!(p.is_within_gravity_range((99, 0)));
    assert!(!p.is_within_gravity_range((100, 0)));
    assert!(p.is_within_gravity_range((70, 70)));
    assert!(!p.is_within_gravity_range((71, 71)));
}

#[test]
fn thrust_to_weight_ratio_of_catalog_probe() {
    let r = Rocket::new();
    assert_eq!(r.thrust_to_weight_ratio(), 141_230);
}

#[test]
fn catalog_probe_initial_state() {
    let r = Rocket::new();
    assert_eq!(r.name, "Falcon 9");
    assert_eq!(r.manufacturer, "SpaceX");
    assert_eq!(r.mass_g, 5_490_540);
    assert_eq!(r.thrust, 7_607_000);
    assert_eq!(r.stages, 2);
    assert_eq!(r.image, "falcon9.png");
    assert_eq!(r.x, -149_600_000);
    assert_eq!(r.y, 6_371_000);
    assert_eq!(r.velocity_x, 0);
    assert_eq!(r.velocity_y, 0);
    assert_eq!(r.launch_power, 0);
    assert!(!r.is_launching);
}

#[test]
fn probe_distance_helper_matches_reference_square_root() {
    let dx = (AU_M as i128).unsigned_abs();
    let d = isqrt_u128(dx * dx + 1_000_000_000_000_000_000u128);
    assert_eq!(u128::from(d) * u128::from(d) <= dx * dx + 1_000_000_000_000_000_000u128, true);
    let probe = Planet::new(0, 0, 10, 0, 1);
    let sun = Planet::new(-AU_M, 0, 100, 0, SUN_MASS_KG);
    let (_, _, dist) = probe.calculate_force(&sun).unwrap();
    assert_eq!(dist, d);
}

#[test]
fn pairwise_acceleration_has_exact_scaled_values() {
    let probe = Planet::new(0, 0, 10, 0, 1);
    let other = Planet::new(1_000_000_000, 0, 10, 0, 10_000_000_000_000_000_000_000);
    let (ax, ay, dist) = probe.calculate_force(&other).unwrap();
    assert_eq!(ax, 235);
    assert_eq!(ay, 0);
    assert_eq!(dist, 1_414_213_562);
}

#[test]
fn oversized_mass_pair_is_skipped() {
    let probe = Planet::new(0, 0, 10, 0, 1);
    let heavy = Planet::new(1_000_000_000, 0, 10, 0, u128::MAX);
    assert!(probe.calculate_force(&heavy).is_none());
}

#[test]
fn reference_pull_is_exact_at_close_range() {
    let mut r = Rocket::new();
    r.set_position(0, 0);
    r.set_velocity(0, 0);
    let planet = Planet::new(3, 4, 10, 0, 1_000);
    r.apply_gravity(&planet);
    assert_eq!(r.velocity_x, 235_200);
    assert_eq!(r.velocity_y, 313_600);
}

#[test]
fn reference_pull_from_coincident_body_is_a_no_op() {
    let mut r = Rocket::new();
    r.set_position(0, 0);
    r.set_velocity(7, -7);
    let planet = Planet::new(0, 0, 10, 0, 1_000);
    r.apply_gravity(&planet);
    assert_eq!(r.velocity_x, 7);
    assert_eq!(r.velocity_y, -7);
}

#[test]
fn trail_is_capped_and_evicts_the_oldest() {
    let mut p = Planet::new(0, 0, 10, 0, 1_000);
    p.x_vel = 1_000_000;
    for _ in 0..100_001u32 {
        p.update_position(&[], 86_400);
    }
    assert_eq!(p.orbit.len(), 100_000);
    assert_eq!(p.orbit[0], (2 * 86_400, 0));
    assert_eq!(p.orbit[99_999], (100_001i64 * 86_400, 0));
}
