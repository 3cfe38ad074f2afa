use balls::body::{Body, Bounds, Rgb, Vector2, SUBPIXELS_PER_PIXEL};
use balls::frame::{read_events, FrameInput, InputEvent};
use balls::simulation::Simulation;

const PX: i64 = SUBPIXELS_PER_PIXEL;

fn disc(px: i64, vx: i64) -> Body {
    Body::new(
        Vector2 { x: px * PX, y: 50 * PX },
        Vector2 { x: vx * 1000, y: 0 },
        5,
        Rgb { r: 0x90, g: 0x90, b: 0x90 },
    )
}

#[test]
fn tick_steps_every_body_by_elapsed_time() {
    let mut sim = Simulation::new(5, 30, 1000);
    sim.bodies.push(disc(10, 50));
    sim.bodies.push(disc(50, -100));
    assert!(sim.can_tick(1100));
    sim.tick(1100, Bounds { width: 100, height: 100 });
    assert_eq!(sim.last_tick, 1100);
    assert_eq!(sim.bodies[0].position.x, 15 * PX);
    assert_eq!(sim.bodies[1].position.x, 40 * PX);
}

#[test]
fn tick_uses_the_given_bounds_for_reflection() {
    let mut sim = Simulation::new(5, 30, 0);
    sim.bodies.push(disc(10, 50));
    sim.tick(1000, Bounds { width: 20, height: 100 });
    assert_eq!(sim.bodies[0].position.x, -40 * PX);
    assert_eq!(sim.bodies[0].velocity.x, -50 * 1000);
    sim.tick(1000, Bounds { width: 20, height: 100 });
    assert_eq!(sim.bodies[0].position.x, -40 * PX);
}

#[test]
fn clock_going_back_cannot_tick() {
    let sim = Simulation::new(5, 30, 500);
    assert!(!sim.can_tick(499));
    assert!(sim.can_tick(500));
}

#[test]
fn events_fold_into_spawns_and_quit() {
    assert_eq!(read_events(&vec![]), FrameInput { quit: false, spawn_events: 0 });
    assert_eq!(
        read_events(&vec![InputEvent::SpaceKey, InputEvent::Other, InputEvent::MouseButtonDown, InputEvent::SpaceKey]),
        FrameInput { quit: false, spawn_events: 3 }
    );
    assert_eq!(
        read_events(&vec![InputEvent::SpaceKey, InputEvent::EscapeKey, InputEvent::SpaceKey]),
        FrameInput { quit: true, spawn_events: 1 }
    );
    assert_eq!(read_events(&vec![InputEvent::Quit, InputEvent::SpaceKey]), FrameInput { quit: true, spawn_events: 0 });
}
