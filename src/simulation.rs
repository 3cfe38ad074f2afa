//! The state that the frame loop owns, and what each frame does to it.
use vstd::prelude::*;

use rand::rngs::StdRng;

use crate::body::{Body, Bounds, Vector2};
use crate::spawn::{check_spawn, heading_ok, random_body, spawn_error, spawned, SpawnError};

verus! {

/// The discs on screen, the time of the last frame, and the radius range of
/// new discs. Discs are only ever appended.
pub struct Simulation {
    /// The discs, in drawing order.
    pub bodies: Vec<Body>,
    /// The time of the last frame, in milliseconds.
    pub last_tick: u32,
    /// The smallest radius of a new disc, in pixels.
    pub min_radius: u32,
    /// The bound above the radius of a new disc (excluded), in pixels.
    pub max_radius: u32,
}

impl Simulation {
    /// Whether `next` holds this state's discs, unchanged and in order,
    /// followed by `added` more, with the same clock and radius range.
    pub open spec fn grew_by(self, next: Simulation, added: int) -> bool {
        &&& next.bodies@.len() == self.bodies@.len() + added
        &&& forall|i: int| 0 <= i < self.bodies@.len() ==> next.bodies@[i] == self.bodies@[i]
        &&& next.last_tick == self.last_tick
        &&& next.min_radius == self.min_radius
        &&& next.max_radius == self.max_radius
    }

    /// Whether every disc can take a bounded step of `dt` milliseconds
    /// within the range of `i64`.
    pub open spec fn all_fit(self, dt: int) -> bool {
        forall|i: int| 0 <= i < self.bodies@.len() ==> (#[trigger] self.bodies@[i]).fits(dt)
    }

    /// An empty simulation whose clock starts at `now` milliseconds.
    pub fn new(min_radius: u32, max_radius: u32, now: u32) -> (r: Simulation)
        ensures
            r.bodies@.len() == 0,
            r.last_tick == now,
            r.min_radius == min_radius,
            r.max_radius == max_radius,
    {
        Simulation { bodies: Vec::new(), last_tick: now, min_radius, max_radius }
    }

    /// The number of discs.
    pub fn count(&self) -> (r: usize)
        ensures
            r == self.bodies@.len(),
    {
        self.bodies.len()
    }

    /// Adds one disc for each heading, each placed wholly within `bounds`.
    ///
    /// Either all are added or, on an error, none: the error comes exactly
    /// when the radius range is invalid or the screen is too small for it.
    pub fn spawn(&mut self, rng: &mut StdRng, bounds: Bounds, headings: &Vec<Vector2>) -> (r: Result<(), SpawnError>)
        requires
            forall|i: int| 0 <= i < headings@.len() ==> heading_ok(#[trigger] headings@[i]),
        ensures
            match r {
                Ok(()) => {
                    &&& spawn_error(old(self).min_radius, old(self).max_radius, bounds).is_none()
                    &&& old(self).grew_by(*final(self), headings@.len() as int)
                    &&& forall|i: int|
                        0 <= i < headings@.len() ==> spawned(
                            #[trigger] final(self).bodies@[old(self).bodies@.len() + i],
                            old(self).min_radius,
                            old(self).max_radius,
                            bounds,
                            headings@[i],
                        )
                },
                Err(e) => {
                    &&& spawn_error(old(self).min_radius, old(self).max_radius, bounds) == Some(e)
                    &&& *final(self) == *old(self)
                },
            },
    {
        if let Some(e) = check_spawn(self.min_radius, self.max_radius, bounds) {
            return Err(e);
        }
        let start = self.bodies.len();
        let mut i: usize = 0;
        while i < headings.len()
            invariant
                i <= headings@.len(),
                forall|j: int| 0 <= j < headings@.len() ==> heading_ok(#[trigger] headings@[j]),
                start == old(self).bodies@.len(),
                spawn_error(self.min_radius, self.max_radius, bounds).is_none(),
                old(self).grew_by(*self, i as int),
                forall|j: int|
                    0 <= j < i ==> spawned(
                        #[trigger] self.bodies@[start + j],
                        self.min_radius,
                        self.max_radius,
                        bounds,
                        headings@[j],
                    ),
            decreases headings@.len() - i,
        {
            match random_body(rng, self.min_radius, self.max_radius, bounds, headings[i]) {
                Ok(b) => {
                    self.bodies.push(b);
                },
                Err(e) => {
                    return Err(e);
                },
            }
            i = i + 1;
        }
        Ok(())
    }

    /// Whether `tick` may run at `now`: the clock does not go back and every
    /// disc's step stays within the range of `i64`.
    pub fn can_tick(&self, now: u32) -> (r: bool)
        ensures
            r == (self.last_tick <= now && self.all_fit(now - self.last_tick)),
    {
        if now < self.last_tick {
            return false;
        }
        let dt = now - self.last_tick;
        let mut i: usize = 0;
        while i < self.bodies.len()
            invariant
                i <= self.bodies@.len(),
                dt == now - self.last_tick,
                forall|j: int| 0 <= j < i ==> (#[trigger] self.bodies@[j]).fits(dt as int),
            decreases self.bodies@.len() - i,
        {
            if !self.bodies[i].can_advance(dt) {
                return false;
            }
            i = i + 1;
        }
        true
    }

    /// Runs one frame at `now` milliseconds: every disc takes a bounded step
    /// of the time elapsed since the last frame, all against the same `bounds`.
    pub fn tick(&mut self, now: u32, bounds: Bounds)
        requires
            old(self).last_tick <= now,
            old(self).all_fit(now - old(self).last_tick),
        ensures
            final(self).last_tick == now,
            final(self).min_radius == old(self).min_radius,
            final(self).max_radius == old(self).max_radius,
            final(self).bodies@.len() == old(self).bodies@.len(),
            forall|i: int|
                0 <= i < old(self).bodies@.len() ==> #[trigger] final(self).bodies@[i]
                    == old(self).bodies@[i].bounded_by(now - old(self).last_tick, bounds),
    {
        let dt = now - self.last_tick;
        let mut i: usize = 0;
        while i < self.bodies.len()
            invariant
                i <= self.bodies@.len(),
                self.bodies@.len() == old(self).bodies@.len(),
                self.last_tick == old(self).last_tick,
                self.min_radius == old(self).min_radius,
                self.max_radius == old(self).max_radius,
                dt == now - old(self).last_tick,
                forall|j: int| 0 <= j < i ==> #[trigger] self.bodies@[j] == old(self).bodies@[j].bounded_by(dt as int, bounds),
                forall|j: int| i <= j < self.bodies@.len() ==> #[trigger] self.bodies@[j] == old(self).bodies@[j],
                old(self).all_fit(dt as int),
            decreases self.bodies@.len() - i,
        {
            let mut b = self.bodies[i];
            assert(b.fits(dt as int));
            b.advance_bounded(dt, bounds);
            self.bodies.set(i, b);
            i = i + 1;
        }
        self.last_tick = now;
    }
}

/// Spawning only adds: along a run of states that starts with no discs, in
/// which each state follows the one before it by a spawn of `m` discs, state
/// `j` holds `j * m` discs, and the last state still holds every disc of every
/// earlier state at the same place.
pub proof fn lemma_spawn_only_adds(states: Seq<Simulation>, m: int)
    requires
        states.len() >= 1,
        0 <= m,
        states[0].bodies@.len() == 0,
        forall|i: int| 0 <= i < states.len() - 1 ==> (#[trigger] states[i]).grew_by(states[i + 1], m),
    ensures
        forall|j: int| 0 <= j < states.len() ==> (#[trigger] states[j]).bodies@.len() == j * m,
        states.last().bodies@.len() == (states.len() - 1) * m,
        forall|j: int, k: int|
            0 <= j < states.len() && 0 <= k < states[j].bodies@.len() ==> states.last().bodies@[k]
                == (#[trigger] states[j].bodies@[k]),
    decreases states.len(),
{
    if states.len() > 1 {
        let prefix = states.drop_last();
        assert forall|i: int| 0 <= i < prefix.len() - 1 implies (#[trigger] prefix[i]).grew_by(prefix[i + 1], m) by {
            assert(prefix[i] == states[i] && prefix[i + 1] == states[i + 1]);
        }
        lemma_spawn_only_adds(prefix, m);
        let n = states.len() - 1;
        assert(states[n - 1].grew_by(states[n], m));
        assert forall|j: int| 0 <= j < states.len() implies (#[trigger] states[j]).bodies@.len() == j * m by {
            if j < n {
                assert(prefix[j] == states[j]);
            } else {
                assert(prefix[n - 1] == states[n - 1]);
                assert((n - 1) * m + m == n * m) by (nonlinear_arith);
            }
        }
        assert forall|j: int, k: int|
            0 <= j < states.len() && 0 <= k < states[j].bodies@.len() implies states.last().bodies@[k]
                == (#[trigger] states[j].bodies@[k]) by {
            if j < n {
                assert(prefix[j] == states[j]);
                assert(prefix.last() == states[n - 1]);
                assert(j * m <= (n - 1) * m) by (nonlinear_arith)
                    requires
                        0 <= j <= n - 1,
                        0 <= m,
                ;
                assert(states[j].bodies@.len() == j * m);
                assert(states[n - 1].bodies@.len() == (n - 1) * m);
                assert(prefix.last().bodies@[k] == states[j].bodies@[k]);
            }
        }
    }
}

} // verus!
