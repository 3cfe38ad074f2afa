//! What the input events gathered during one frame ask of the loop.
use vstd::prelude::*;

verus! {

/// An input event, as far as the loop cares.
#[derive(Clone, Copy, Debug, PartialEq, Eq, Structural)]
pub enum InputEvent {
    /// The window was closed.
    Quit,
    /// The escape key was pressed.
    EscapeKey,
    /// The space key was pressed.
    SpaceKey,
    /// A mouse button was pressed.
    MouseButtonDown,
    /// Anything else.
    Other,
}

/// What one frame's events ask for.
#[derive(Clone, Copy, Debug, PartialEq, Eq, Structural)]
pub struct FrameInput {
    /// Whether the loop is to stop.
    pub quit: bool,
    /// How many spawns to run before that.
    pub spawn_events: usize,
}

/// Whether the event ends the loop.
pub open spec fn ends_loop(e: InputEvent) -> bool {
    e == InputEvent::Quit || e == InputEvent::EscapeKey
}

/// Whether the event asks for new discs.
pub open spec fn asks_spawn(e: InputEvent) -> bool {
    e == InputEvent::SpaceKey || e == InputEvent::MouseButtonDown
}

/// The number of events in `s` that ask for new discs.
pub open spec fn spawn_count(s: Seq<InputEvent>) -> nat
    decreases s.len(),
{
    if s.len() == 0 {
        0
    } else {
        spawn_count(s.drop_last()) + if asks_spawn(s.last()) {
            1nat
        } else {
            0nat
        }
    }
}

/// Folds the events of one frame, in order, into what the loop is to do: the
/// spawns asked for before the first event that ends the loop, and whether
/// one does. Events after the one that ends the loop are not looked at.
pub fn read_events(events: &Vec<InputEvent>) -> (r: FrameInput)
    ensures
        !r.quit ==> (forall|i: int| 0 <= i < events@.len() ==> !ends_loop(#[trigger] events@[i]))
            && r.spawn_events == spawn_count(events@),
        r.quit ==> exists|q: int|
            0 <= q < events@.len() && ends_loop(#[trigger] events@[q]) && (forall|i: int|
                0 <= i < q ==> !ends_loop(#[trigger] events@[i])) && r.spawn_events == spawn_count(
                events@.take(q),
            ),
{
    let mut count: usize = 0;
    let mut i: usize = 0;
    while i < events.len()
        invariant
            i <= events@.len(),
            count <= i,
            count == spawn_count(events@.take(i as int)),
            forall|j: int| 0 <= j < i ==> !ends_loop(#[trigger] events@[j]),
        decreases events@.len() - i,
    {
        let e = events[i];
        if e == InputEvent::Quit || e == InputEvent::EscapeKey {
            assert(ends_loop(events@[i as int]));
            return FrameInput { quit: true, spawn_events: count };
        }
        assert(events@.take(i + 1).drop_last() == events@.take(i as int));
        if e == InputEvent::SpaceKey || e == InputEvent::MouseButtonDown {
            count = count + 1;
        }
        i = i + 1;
    }
    assert(events@.take(i as int) == events@);
    FrameInput { quit: false, spawn_events: count }
}

} // verus!
