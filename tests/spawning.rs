use balls::body::{Bounds, Vector2, SUBPIXELS_PER_PIXEL};
use balls::simulation::Simulation;
use balls::spawn::{check_spawn, random_body, SpawnError, MAX_CHANNEL, MAX_SPEED, MIN_CHANNEL, MIN_SPEED};
use rand::rngs::StdRng;
use rand::SeedableRng;

const PX: i64 = SUBPIXELS_PER_PIXEL;

fn east() -> Vector2 {
    Vector2 { x: 1000, y: 0 }
}

#[test]
fn spawned_bodies_lie_within_bounds() {
    let mut rng = StdRng::seed_from_u64(7);
    let bounds = Bounds { width: 64, height: 61 };
    for _ in 0..10_000 {
        let b = random_body(&mut rng, 5, 30, bounds, Vector2 { x: 600, y: -800 }).unwrap();
        let r = b.radius as i64;
        assert!(5 <= b.radius && b.radius < 30);
        assert!(r * PX <= b.position.x && b.position.x <= (64 - r) * PX);
        assert!(r * PX <= b.position.y && b.position.y <= (61 - r) * PX);
        assert_eq!(b.position.x % PX, 0);
        let speed = b.velocity.x / 600;
        assert_eq!(b.velocity.x, speed * 600);
        assert_eq!(b.velocity.y, speed * -800);
        assert!(MIN_SPEED as i64 <= speed && speed < MAX_SPEED as i64);
        for c in [b.color.r, b.color.g, b.color.b] {
            assert!(MIN_CHANNEL <= c as u32 && (c as u32) < MAX_CHANNEL);
        }
    }
}

#[test]
fn spawned_radii_and_positions_vary() {
    let mut rng = StdRng::seed_from_u64(11);
    let bounds = Bounds { width: 800, height: 600 };
    let first = random_body(&mut rng, 5, 30, bounds, east()).unwrap();
    let mut varied_radius = false;
    let mut varied_x = false;
    for _ in 0..200 {
        let b = random_body(&mut rng, 5, 30, bounds, east()).unwrap();
        varied_radius |= b.radius != first.radius;
        varied_x |= b.position.x != first.position.x;
    }
    assert!(varied_radius);
    assert!(varied_x);
    assert!(first.radius != 5 || varied_radius);
}

#[test]
fn tightest_screen_is_accepted() {
    let mut rng = StdRng::seed_from_u64(3);
    let b = random_body(&mut rng, 5, 6, Bounds { width: 12, height: 12 }, east()).unwrap();
    assert_eq!(b.radius, 5);
    assert!(b.position.x == 5 * PX || b.position.x == 6 * PX);
}

#[test]
fn too_small_screen_is_rejected() {
    let mut rng = StdRng::seed_from_u64(3);
    assert_eq!(
        random_body(&mut rng, 5, 30, Bounds { width: 59, height: 600 }, east()),
        Err(SpawnError::ScreenTooSmall)
    );
    assert_eq!(
        random_body(&mut rng, 5, 30, Bounds { width: 600, height: 0 }, east()),
        Err(SpawnError::ScreenTooSmall)
    );
}

#[test]
fn invalid_radius_range_is_rejected() {
    let mut rng = StdRng::seed_from_u64(3);
    let bounds = Bounds { width: 800, height: 600 };
    assert_eq!(random_body(&mut rng, 30, 30, bounds, east()), Err(SpawnError::InvalidRadiusRange));
    assert_eq!(random_body(&mut rng, 0, 30, bounds, east()), Err(SpawnError::InvalidRadiusRange));
}

#[test]
fn body_count_grows_by_each_spawn() {
    let mut rng = StdRng::seed_from_u64(5);
    let mut sim = Simulation::new(5, 30, 0);
    let headings = vec![east(); 3];
    let bounds = Bounds { width: 800, height: 600 };
    for k in 1..=4 {
        let before: Vec<_> = sim.bodies.clone();
        sim.spawn(&mut rng, bounds, &headings).unwrap();
        assert_eq!(sim.count(), k * 3);
        assert_eq!(&sim.bodies[..before.len()], &before[..]);
    }
}

#[test]
fn failed_spawn_adds_nothing() {
    let mut rng = StdRng::seed_from_u64(5);
    let mut sim = Simulation::new(5, 30, 0);
    sim.spawn(&mut rng, Bounds { width: 800, height: 600 }, &vec![east(); 2]).unwrap();
    assert_eq!(
        sim.spawn(&mut rng, Bounds { width: 40, height: 600 }, &vec![east(); 2]),
        Err(SpawnError::ScreenTooSmall)
    );
    assert_eq!(sim.count(), 2);
    let mut bad = Simulation::new(30, 5, 0);
    assert_eq!(
        bad.spawn(&mut rng, Bounds { width: 800, height: 600 }, &vec![]),
        Err(SpawnError::InvalidRadiusRange)
    );
    assert_eq!(bad.count(), 0);
}

#[test]
fn spawn_check_names_each_error() {
    assert_eq!(check_spawn(5, 30, Bounds { width: 60, height: 60 }), None);
    assert_eq!(check_spawn(5, 30, Bounds { width: 60, height: 59 }), Some(SpawnError::ScreenTooSmall));
    assert_eq!(check_spawn(6, 5, Bounds { width: 600, height: 600 }), Some(SpawnError::InvalidRadiusRange));
}
