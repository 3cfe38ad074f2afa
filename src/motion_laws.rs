//! Laws of the bounded step, proved from its specification.
use vstd::prelude::*;

use crate::body::{beyond_edge, moved, within_axis, Body, Bounds, SUBPIXELS_PER_PIXEL};

verus! {

/// With no time elapsed, a bounded step leaves a disc that lies within the
/// bounds exactly as it was: position and velocity unchanged.
pub proof fn lemma_zero_elapsed_is_identity(b: Body, bounds: Bounds)
    requires
        b.within(bounds),
    ensures
        b.bounded_by(0, bounds) == b,
{
}

/// A disc within the bounds whose free step also ends within them moves in a
/// straight line: its new position is the old one plus velocity times elapsed
/// time, and its velocity is unchanged.
pub proof fn lemma_linear_motion(b: Body, dt: int, bounds: Bounds)
    requires
        0 <= dt,
        b.fits(dt),
        b.within(bounds),
        within_axis(moved(b.position.x as int, b.velocity.x as int, dt), b.radius as int, bounds.width as int),
        within_axis(moved(b.position.y as int, b.velocity.y as int, dt), b.radius as int, bounds.height as int),
    ensures
        b.bounded_by(dt, bounds).position.x == b.position.x + b.velocity.x * dt,
        b.bounded_by(dt, bounds).position.y == b.position.y + b.velocity.y * dt,
        b.bounded_by(dt, bounds).velocity == b.velocity,
        b.bounded_by(dt, bounds) == b.moved_by(dt),
{
}

/// A disc already past the far `x` edge and moving towards it is reflected on
/// that axis: its `x` velocity is negated and its `x` position is the start
/// plus the reflected velocity times elapsed time, not a point on the edge.
pub proof fn lemma_far_edge_reflects(b: Body, dt: int, bounds: Bounds)
    requires
        0 <= dt,
        b.fits(dt),
        b.position.x > (bounds.width - b.radius) * SUBPIXELS_PER_PIXEL,
        b.velocity.x > 0,
    ensures
        b.bounded_by(dt, bounds).velocity.x == -b.velocity.x,
        b.bounded_by(dt, bounds).position.x == b.position.x + (-b.velocity.x) * dt,
        b.bounded_by(dt, bounds).velocity.y == b.velocity.y || b.bounded_by(dt, bounds).velocity.y
            == -b.velocity.y,
{
    assert(b.velocity.x * dt >= 0) by (nonlinear_arith)
        requires
            b.velocity.x > 0,
            dt >= 0,
    ;
}

/// Where the free step crosses an edge on both axes at once, both velocity
/// components are negated, each on its own.
pub proof fn lemma_corner_reflects_both(b: Body, dt: int, bounds: Bounds)
    requires
        0 <= dt,
        b.fits(dt),
        beyond_edge(moved(b.position.x as int, b.velocity.x as int, dt), b.radius as int, bounds.width as int),
        beyond_edge(moved(b.position.y as int, b.velocity.y as int, dt), b.radius as int, bounds.height as int),
    ensures
        b.bounded_by(dt, bounds).velocity.x == -b.velocity.x,
        b.bounded_by(dt, bounds).velocity.y == -b.velocity.y,
        b.bounded_by(dt, bounds).position.x == b.position.x + (-b.velocity.x) * dt,
        b.bounded_by(dt, bounds).position.y == b.position.y + (-b.velocity.y) * dt,
{
}

} // verus!
