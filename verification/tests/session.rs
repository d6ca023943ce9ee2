use day_in_mars::update_game_screen;
use day_in_mars::update_title_screen;
use day_in_mars::GameState;
use day_in_mars::planet::Planet;
use day_in_mars::rockets::Rocket;
use day_in_mars::scenemanager::Screen;
use day_in_mars::AU_M;
use day_in_mars::EARTH_MASS_KG;
use day_in_mars::SUN_MASS_KG;
use day_in_mars::TIMESTEP;

fn isqrt_u128(n: u128) -> u64 {
    let mut lo: u128 = 0;
    let mut hi: u128 = 1u128 << 64;
    while lo + 1 < hi {
        let mid = lo + (hi - lo) / 2;
        if mid * mid <= n {
            lo = mid;
        } else {
            hi = mid;
        }
    }
    lo as u64
}

fn two_body_state(vy_micro: i64) -> GameState {
    let mut sun = Planet::new(0, 0, 100, 0x00FF_FF00, SUN_MASS_KG);
    sun.sun = true;
    let mut earth = Planet::new(-AU_M, 0, 160, 0x0064_95ED, EARTH_MASS_KG);
    earth.y_vel = vy_micro;
    GameState {
        is_ready: false,
        screen: Screen::Game,
        rocket: Rocket::new(),
        tick: 0,
        is_launching: false,
        planets: vec![sun, earth],
    }
}

fn total_energy(planets: &[Planet]) -> f64 {
    let g = 6.67428e-11;
    let mut e = 0.0f64;
    for p in planets {
        let vx = p.x_vel as f64 * 1e-6;
        let vy = p.y_vel as f64 * 1e-6;
        e += 0.5 * (p.mass as f64) * (vx * vx + vy * vy);
    }
    for i in 0..planets.len() {
        for j in (i + 1)..planets.len() {
            let dx = (planets[i].x - planets[j].x) as f64;
            let dy = (planets[i].y - planets[j].y) as f64;
            let r = (dx * dx + dy * dy).sqrt();
            e -= g * (planets[i].mass as f64) * (planets[j].mass as f64) / r;
        }
    }
    e
}

#[test]
fn new_session_matches_documented_initial_conditions() {
    let s = GameState::new();
    assert_eq!(s.tick, 0);
    assert!(matches!(s.screen, Screen::Title));
    assert!(!s.is_ready);
    assert!(!s.is_launching);
    assert_eq!(s.planets.len(), 5);
    assert!(s.planets[0].sun);
    assert_eq!(s.planets[0].mass, SUN_MASS_KG);
    assert_eq!(s.planets[1].x, -AU_M);
    assert_eq!(s.planets[1].y_vel, 29_783_000_000);
    assert_eq!(s.planets[2].x, -227_990_400_000);
    assert_eq!(s.planets[3].y_vel, -47_400_000_000);
    assert_eq!(s.planets[4].mass, 4_868_500_000_000_000_000_000_000);
    assert_eq!(s.rocket.x, -149_600_000);
}

#[test]
fn title_screen_start_switches_to_game() {
    let mut s = GameState::new();
    s.tick = 77;
    update_title_screen(&mut s, false);
    assert!(matches!(s.screen, Screen::Title));
    assert_eq!(s.tick, 77);
    update_title_screen(&mut s, true);
    assert!(matches!(s.screen, Screen::Game));
    assert_eq!(s.tick, 0);
}

#[test]
fn game_screen_tick_advances_counter_and_bodies() {
    let mut s = two_body_state(29_783_000_000);
    update_game_screen(&mut s, false);
    assert_eq!(s.tick, 1);
    assert_eq!(s.planets[1].y, 2_573_251_200);
    assert_eq!(s.planets[1].orbit.len(), 1);
    update_game_screen(&mut s, false);
    assert_eq!(s.tick, 2);
    assert_eq!(s.planets[1].orbit.len(), 2);
}

#[test]
fn distance_to_primary_recomputed_from_final_positions() {
    let mut s = two_body_state(29_783_000_000);
    s.step(TIMESTEP);
    let sun = &s.planets[0];
    let earth = &s.planets[1];
    let dx = (earth.x as i128 - sun.x as i128).unsigned_abs();
    let dy = (earth.y as i128 - sun.y as i128).unsigned_abs();
    let expected = isqrt_u128(dx * dx + dy * dy);
    assert_eq!(earth.distance_to_sun, expected);
    // The primary keeps its own previous value.
    assert_eq!(sun.distance_to_sun, 0);
}

#[test]
fn pressing_start_on_game_screen_triggers_launch() {
    let mut s = two_body_state(29_783_000_000);
    update_game_screen(&mut s, true);
    assert!(s.rocket.is_launching);
    assert_eq!(s.rocket.launch_power, 1_000_000);
}

#[test]
fn out_of_bounds_probe_is_reset_by_the_next_tick() {
    let mut s = two_body_state(29_783_000_000);
    s.rocket.set_position(25 * AU_M, 25 * AU_M);
    s.rocket.set_velocity(9_000, 9_000);
    update_game_screen(&mut s, false);
    assert_eq!(s.rocket.x, -149_600_000);
    assert_eq!(s.rocket.y, 6_371_000);
    assert_eq!(s.rocket.velocity_x, 0);
    assert_eq!(s.rocket.velocity_y, 0);
    assert_eq!(s.rocket.launch_power, 0);
    assert!(!s.rocket.is_launching);
}

#[test]
fn energy_drift_stays_small_and_grows_with_the_time_step() {
    let mut small = two_body_state(29_783_000_000);
    let e0 = total_energy(&small.planets);
    for _ in 0..50 {
        small.step(TIMESTEP);
    }
    let drift_small = ((total_energy(&small.planets) - e0) / e0).abs();

    let mut large = two_body_state(29_783_000_000);
    let e1 = total_energy(&large.planets);
    for _ in 0..50 {
        large.step(10 * TIMESTEP);
    }
    let drift_large = ((total_energy(&large.planets) - e1) / e1).abs();

    assert!(drift_small < 0.05, "drift {drift_small}");
    assert!(drift_large > drift_small);
}

#[test]
fn runs_are_deterministic() {
    let mut a = two_body_state(29_783_000_000);
    let mut b = two_body_state(29_783_000_000);
    for _ in 0..25 {
        a.step(TIMESTEP);
        b.step(TIMESTEP);
    }
    assert_eq!(a.planets[1].x, b.planets[1].x);
    assert_eq!(a.planets[1].y, b.planets[1].y);
    assert_eq!(a.planets[1].x_vel, b.planets[1].x_vel);
    assert_eq!(a.planets[1].y_vel, b.planets[1].y_vel);
    assert_eq!(a.planets[0].x, b.planets[0].x);
    assert_eq!(a.rocket.x, b.rocket.x);
}
