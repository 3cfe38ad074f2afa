use vstd::prelude::*;

verus! {

/// Micropixels in one pixel: the unit of positions.
pub const SUBPIXELS_PER_PIXEL: i64 = 1000000;

/// One value per screen axis.
#[derive(Clone, Copy, Debug, PartialEq, Eq, Structural)]
pub struct Vector2 {
    pub x: i64,
    pub y: i64,
}

/// The size of the drawable surface, in pixels.
#[derive(Clone, Copy, Debug, PartialEq, Eq, Structural)]
pub struct Bounds {
    pub width: u32,
    pub height: u32,
}

/// A colour as three 8-bit channels.
#[derive(Clone, Copy, Debug, PartialEq, Eq, Structural)]
pub struct Rgb {
    pub r: u8,
    pub g: u8,
    pub b: u8,
}

/// One simulated disc.
///
/// `position` is the centre in micropixels, `velocity` is in micropixels per
/// millisecond, `radius` is in pixels.
#[derive(Clone, Copy, Debug, PartialEq, Eq, Structural)]
pub struct Body {
    pub position: Vector2,
    pub velocity: Vector2,
    pub radius: u32,
    pub color: Rgb,
}

/// A coordinate after moving at velocity `v` for `dt` milliseconds.
pub open spec fn moved(p: int, v: int, dt: int) -> int {
    p + v * dt
}

/// Whether a disc of `radius` pixels centred at `p` micropixels has crossed
/// the near edge (0) or the far edge (`extent` pixels) of an axis.
///
/// With whole-pixel radii this is the same test as comparing the centre's
/// pixel coordinate, truncated towards zero and floored at zero, with the radius.
pub open spec fn beyond_edge(p: int, radius: int, extent: int) -> bool {
    p > (extent - radius) * SUBPIXELS_PER_PIXEL || p < radius * SUBPIXELS_PER_PIXEL
}

/// Whether a disc lies within the axis, edges included.
pub open spec fn within_axis(p: int, radius: int, extent: int) -> bool {
    radius * SUBPIXELS_PER_PIXEL <= p <= (extent - radius) * SUBPIXELS_PER_PIXEL
}

/// One axis after a bounded step, as (position, velocity): the plain step
/// where it stays within the edges, else the velocity reflected and the step
/// taken from the same start with the reflected velocity.
pub open spec fn bounded_axis(p: int, v: int, radius: int, extent: int, dt: int) -> (int, int) {
    if beyond_edge(moved(p, v, dt), radius, extent) {
        (moved(p, -v, dt), -v)
    } else {
        (moved(p, v, dt), v)
    }
}

/// Whether every value that a bounded step on this axis may compute fits in `i64`.
pub open spec fn axis_fits(p: int, v: int, dt: int) -> bool {
    &&& i64::MIN < v
    &&& i64::MIN <= moved(p, v, dt) <= i64::MAX
    &&& i64::MIN <= moved(p, -v, dt) <= i64::MAX
}

/// `p + v * dt`, computed without overflow.
pub fn step(p: i64, v: i64, dt: u32) -> (r: i64)
    requires
        i64::MIN <= moved(p as int, v as int, dt as int) <= i64::MAX,
    ensures
        r == moved(p as int, v as int, dt as int),
{
    proof {
        let vi = v as int;
        let di = dt as int;
        let bound: int = 0x8000_0000_0000_0000int * 0x1_0000_0000int;
        assert(-bound <= vi * di <= bound)
            by (nonlinear_arith)
            requires
                -0x8000_0000_0000_0000int <= vi <= 0x8000_0000_0000_0000int,
                0 <= di <= 0x1_0000_0000int,
                bound == 0x8000_0000_0000_0000int * 0x1_0000_0000int,
        {
            assert(vi * di <= 0x8000_0000_0000_0000int * di);
            assert(vi * di >= -0x8000_0000_0000_0000int * di);
        }
    }
    let d: i128 = (v as i128) * (dt as i128);
    let r: i128 = (p as i128) + d;
    r as i64
}

/// Whether both the step and the reflected step of one axis stay within `i64`.
pub fn axis_step_fits(p: i64, v: i64, dt: u32) -> (r: bool)
    ensures
        r == axis_fits(p as int, v as int, dt as int),
{
    if v == i64::MIN {
        return false;
    }
    proof {
        let vi = v as int;
        let di = dt as int;
        let bound: int = 0x8000_0000_0000_0000int * 0x1_0000_0000int;
        assert(-bound <= vi * di <= bound && -bound <= (-vi) * di <= bound)
            by (nonlinear_arith)
            requires
                -0x8000_0000_0000_0000int <= vi <= 0x8000_0000_0000_0000int,
                0 <= di <= 0x1_0000_0000int,
                bound == 0x8000_0000_0000_0000int * 0x1_0000_0000int,
        {
            assert(vi * di <= 0x8000_0000_0000_0000int * di);
            assert(vi * di >= -0x8000_0000_0000_0000int * di);
        }
    }
    let forward: i128 = (p as i128) + (v as i128) * (dt as i128);
    let back: i128 = (p as i128) + (-(v as i128)) * (dt as i128);
    i64::MIN as i128 <= forward && forward <= i64::MAX as i128 && i64::MIN as i128 <= back && back
        <= i64::MAX as i128
}

/// Whether the disc has crossed an edge of an axis `extent` pixels long.
pub fn is_beyond_edge(p: i64, radius: u32, extent: u32) -> (r: bool)
    ensures
        r == beyond_edge(p as int, radius as int, extent as int),
{
    let far: i64 = (extent as i64 - radius as i64) * SUBPIXELS_PER_PIXEL;
    let near: i64 = radius as i64 * SUBPIXELS_PER_PIXEL;
    p > far || p < near
}

impl Body {
    /// Whether the disc lies within `bounds` on both axes, edges included.
    pub open spec fn within(self, bounds: Bounds) -> bool {
        &&& within_axis(self.position.x as int, self.radius as int, bounds.width as int)
        &&& within_axis(self.position.y as int, self.radius as int, bounds.height as int)
    }

    /// Whether a bounded step of `dt` milliseconds stays within `i64` on both axes.
    pub open spec fn fits(self, dt: int) -> bool {
        &&& axis_fits(self.position.x as int, self.velocity.x as int, dt)
        &&& axis_fits(self.position.y as int, self.velocity.y as int, dt)
    }

    /// The disc after moving freely for `dt` milliseconds.
    pub open spec fn moved_by(self, dt: int) -> Body {
        Body {
            position: Vector2 {
                x: moved(self.position.x as int, self.velocity.x as int, dt) as i64,
                y: moved(self.position.y as int, self.velocity.y as int, dt) as i64,
            },
            ..self
        }
    }

    /// The disc after one bounded step of `dt` milliseconds within `bounds`;
    /// each axis is reflected on its own.
    pub open spec fn bounded_by(self, dt: int, bounds: Bounds) -> Body {
        let (px, vx) = bounded_axis(
            self.position.x as int,
            self.velocity.x as int,
            self.radius as int,
            bounds.width as int,
            dt,
        );
        let (py, vy) = bounded_axis(
            self.position.y as int,
            self.velocity.y as int,
            self.radius as int,
            bounds.height as int,
            dt,
        );
        Body {
            position: Vector2 { x: px as i64, y: py as i64 },
            velocity: Vector2 { x: vx as i64, y: vy as i64 },
            ..self
        }
    }

    pub fn new(position: Vector2, velocity: Vector2, radius: u32, color: Rgb) -> (r: Body)
        ensures
            r == (Body { position, velocity, radius, color }),
    {
        Body { position, velocity, radius, color }
    }

    /// Whether a bounded step of `dt` milliseconds stays within `i64`.
    pub fn can_advance(&self, dt: u32) -> (r: bool)
        ensures
            r == self.fits(dt as int),
    {
        axis_step_fits(self.position.x, self.velocity.x, dt) && axis_step_fits(self.position.y, self.velocity.y, dt)
    }

    /// Moves the disc along one axis (`x` when `on_x`, else `y`) for `dt` milliseconds.
    pub fn advance_axis(&mut self, on_x: bool, dt: u32)
        requires
            on_x ==> i64::MIN <= moved(old(self).position.x as int, old(self).velocity.x as int, dt as int) <= i64::MAX,
            !on_x ==> i64::MIN <= moved(old(self).position.y as int, old(self).velocity.y as int, dt as int) <= i64::MAX,
        ensures
            on_x ==> *final(self) == (Body {
                position: Vector2 {
                    x: moved(old(self).position.x as int, old(self).velocity.x as int, dt as int) as i64,
                    ..old(self).position
                },
                ..*old(self)
            }),
            !on_x ==> *final(self) == (Body {
                position: Vector2 {
                    y: moved(old(self).position.y as int, old(self).velocity.y as int, dt as int) as i64,
                    ..old(self).position
                },
                ..*old(self)
            }),
    {
        if on_x {
            self.position.x = step(self.position.x, self.velocity.x, dt);
        } else {
            self.position.y = step(self.position.y, self.velocity.y, dt);
        }
    }

    /// Moves the disc freely for `dt` milliseconds, each axis by its velocity.
    pub fn advance(&mut self, dt: u32)
        requires
            i64::MIN <= moved(old(self).position.x as int, old(self).velocity.x as int, dt as int) <= i64::MAX,
            i64::MIN <= moved(old(self).position.y as int, old(self).velocity.y as int, dt as int) <= i64::MAX,
        ensures
            *final(self) == old(self).moved_by(dt as int),
    {
        self.advance_axis(true, dt);
        self.advance_axis(false, dt);
    }

    /// Moves the disc for `dt` milliseconds and reflects it at the edges of
    /// `bounds`: on an axis where the free step ends beyond an edge the
    /// velocity is negated and the step is taken again, from the start, with
    /// the negated velocity. The result is not clamped to the edge.
    pub fn advance_bounded(&mut self, dt: u32, bounds: Bounds)
        requires
            old(self).fits(dt as int),
        ensures
            *final(self) == old(self).bounded_by(dt as int, bounds),
    {
        let start = *self;
        self.advance(dt);
        if is_beyond_edge(self.position.x, self.radius, bounds.width) {
            self.velocity.x = -self.velocity.x;
            self.position.x = start.position.x;
            self.advance_axis(true, dt);
        }
        if is_beyond_edge(self.position.y, self.radius, bounds.height) {
            self.velocity.y = -self.velocity.y;
            self.position.y = start.position.y;
            self.advance_axis(false, dt);
        }
    }
}

} // verus!
