//! Bouncing discs on a resizable screen: the per-frame physics, the spawn
//! rules and the decisions of the frame loop, with their contracts.
//!
//! All quantities are integers in fixed units:
//! - positions are in micropixels (`SUBPIXELS_PER_PIXEL` to a pixel);
//! - velocities are in micropixels per millisecond (that is, millipixels per second);
//! - elapsed time is in milliseconds;
//! - radii and screen extents are in whole pixels.
use vstd::prelude::*;

pub mod body;
pub mod frame;
pub mod motion_laws;
pub mod simulation;
pub mod spawn;

verus! {

} // verus!
