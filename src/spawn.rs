//! Creating discs at random within the screen.
use vstd::prelude::*;

use rand::rngs::StdRng;
use rand::Rng;

use crate::body::{Body, Bounds, Rgb, Vector2, SUBPIXELS_PER_PIXEL};

verus! {

/// Lowest speed of a new disc, in pixels per second.
pub const MIN_SPEED: u32 = 100;

/// Bound above the speed of a new disc (excluded), in pixels per second.
pub const MAX_SPEED: u32 = 1000;

/// Lowest value of a colour channel of a new disc: light colours only.
pub const MIN_CHANNEL: u32 = 0x80;

/// Bound above a colour channel of a new disc (excluded).
pub const MAX_CHANNEL: u32 = 0xff;

/// The scale of a heading: a unit direction has components in thousandths.
pub const HEADING_SCALE: i64 = 1000;

/// Why no disc could be created.
#[derive(Clone, Copy, Debug, PartialEq, Eq, Structural)]
pub enum SpawnError {
    /// The radius range is empty or admits a radius of zero.
    InvalidRadiusRange,
    /// An axis of the screen is shorter than two of the largest radii.
    ScreenTooSmall,
}

#[verifier::external_type_specification]
#[verifier::external_body]
pub struct ExStdRng(StdRng);

/// Relies on `rand::Rng::gen_range` (rand 0.7) on `u32`: a value drawn from
/// `[low, high)`; it panics when `low >= high`.
#[verifier::external_body]
fn draw_in(rng: &mut StdRng, low: u32, high: u32) -> (r: u32)
    requires
        low < high,
    ensures
        low <= r < high,
{
    rng.gen_range(low, high)
}

/// A direction in thousandths: each component within `[-1000, 1000]`.
pub open spec fn heading_ok(h: Vector2) -> bool {
    &&& -HEADING_SCALE <= h.x <= HEADING_SCALE
    &&& -HEADING_SCALE <= h.y <= HEADING_SCALE
}

/// The error, if any, that creating a disc with radii in
/// `[min_radius, max_radius)` on a screen of `bounds` meets.
pub open spec fn spawn_error(min_radius: u32, max_radius: u32, bounds: Bounds) -> Option<SpawnError> {
    if min_radius == 0 || min_radius >= max_radius {
        Some(SpawnError::InvalidRadiusRange)
    } else if bounds.width < 2 * max_radius || bounds.height < 2 * max_radius {
        Some(SpawnError::ScreenTooSmall)
    } else {
        None
    }
}

/// The velocity, in micropixels per millisecond, of a disc moving at `speed`
/// pixels per second along `heading`.
pub open spec fn velocity_along(speed: int, heading: Vector2) -> Vector2 {
    Vector2 { x: (speed * heading.x) as i64, y: (speed * heading.y) as i64 }
}

/// The error, if any, that creating a disc with radii in
/// `[min_radius, max_radius)` on a screen of `bounds` meets.
pub fn check_spawn(min_radius: u32, max_radius: u32, bounds: Bounds) -> (r: Option<SpawnError>)
    ensures
        r == spawn_error(min_radius, max_radius, bounds),
{
    if min_radius == 0 || min_radius >= max_radius {
        Some(SpawnError::InvalidRadiusRange)
    } else if (bounds.width as u64) < 2 * (max_radius as u64) || (bounds.height as u64) < 2 * (
    max_radius as u64) {
        Some(SpawnError::ScreenTooSmall)
    } else {
        None
    }
}

/// A coordinate of a new disc: a whole pixel from `[radius, extent - radius)`.
pub open spec fn spawn_coordinate(p: int, radius: int, extent: int) -> bool {
    &&& p % (SUBPIXELS_PER_PIXEL as int) == 0
    &&& radius * SUBPIXELS_PER_PIXEL <= p < (extent - radius) * SUBPIXELS_PER_PIXEL
}

/// A colour channel of a new disc.
pub open spec fn light_channel(c: u8) -> bool {
    MIN_CHANNEL <= c < MAX_CHANNEL
}

/// What holds of every disc created with radii in `[min_radius, max_radius)`
/// on a screen of `bounds`, heading along `heading`: its radius is in range,
/// it lies wholly on the screen at a whole pixel, it moves along `heading` at
/// a speed from `[MIN_SPEED, MAX_SPEED)` pixels per second, and its colour is light.
pub open spec fn spawned(b: Body, min_radius: u32, max_radius: u32, bounds: Bounds, heading: Vector2) -> bool {
    &&& min_radius <= b.radius < max_radius
    &&& spawn_coordinate(b.position.x as int, b.radius as int, bounds.width as int)
    &&& spawn_coordinate(b.position.y as int, b.radius as int, bounds.height as int)
    &&& b.within(bounds)
    &&& exists|speed: int|
        MIN_SPEED <= speed < MAX_SPEED && b.velocity == #[trigger] velocity_along(speed, heading)
    &&& light_channel(b.color.r)
    &&& light_channel(b.color.g)
    &&& light_channel(b.color.b)
}

/// A whole-pixel coordinate from `[radius, extent - radius)`, in micropixels.
fn random_coordinate(rng: &mut StdRng, radius: u32, extent: u32) -> (r: i64)
    requires
        2 * radius < extent,
    ensures
        spawn_coordinate(r as int, radius as int, extent as int),
{
    let px = draw_in(rng, radius, extent - radius);
    let r = px as i64 * SUBPIXELS_PER_PIXEL;
    assert(r % SUBPIXELS_PER_PIXEL == 0) by (nonlinear_arith)
        requires
            r == px * SUBPIXELS_PER_PIXEL,
            SUBPIXELS_PER_PIXEL == 1000000,
    ;
    assert(radius * SUBPIXELS_PER_PIXEL <= r < (extent - radius) * SUBPIXELS_PER_PIXEL) by (nonlinear_arith)
        requires
            r == px * SUBPIXELS_PER_PIXEL,
            SUBPIXELS_PER_PIXEL == 1000000,
            radius <= px < extent - radius,
    ;
    r
}

/// A light colour channel.
fn random_channel(rng: &mut StdRng) -> (r: u8)
    ensures
        light_channel(r),
{
    draw_in(rng, MIN_CHANNEL, MAX_CHANNEL) as u8
}

/// Creates one disc with a radius from `[min_radius, max_radius)`, placed
/// wholly within `bounds`, moving along `heading` at a random speed, with a
/// random light colour.
///
/// Fails, drawing nothing, when the radius range is empty or holds zero, or
/// when an axis of `bounds` is shorter than `2 * max_radius`.
pub fn random_body(rng: &mut StdRng, min_radius: u32, max_radius: u32, bounds: Bounds, heading: Vector2) -> (r: Result<Body, SpawnError>)
    requires
        heading_ok(heading),
    ensures
        match r {
            Ok(b) => spawn_error(min_radius, max_radius, bounds).is_none() && spawned(b, min_radius, max_radius, bounds, heading),
            Err(e) => spawn_error(min_radius, max_radius, bounds) == Some(e),
        },
{
    if let Some(e) = check_spawn(min_radius, max_radius, bounds) {
        return Err(e);
    }
    let speed = draw_in(rng, MIN_SPEED, MAX_SPEED);
    assert(-1000000 <= speed * heading.x <= 1000000 && -1000000 <= speed * heading.y <= 1000000)
        by (nonlinear_arith)
        requires
            0 <= speed < 1000,
            -1000 <= heading.x <= 1000,
            -1000 <= heading.y <= 1000,
    ;
    let vx = speed as i64 * heading.x;
    let vy = speed as i64 * heading.y;
    let color = Rgb { r: random_channel(rng), g: random_channel(rng), b: random_channel(rng) };
    let radius = draw_in(rng, min_radius, max_radius);
    let x = random_coordinate(rng, radius, bounds.width);
    let y = random_coordinate(rng, radius, bounds.height);
    let b = Body { position: Vector2 { x, y }, velocity: Vector2 { x: vx, y: vy }, radius, color };
    assert(b.velocity == velocity_along(speed as int, heading));
    Ok(b)
}

} // verus!
