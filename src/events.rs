use vstd::prelude::*;
use crate::geometry::{in_bounds, Entity, Position, WorldSize};

verus! {

/// `entity` was placed at `pos`.
#[derive(Clone, Copy, Debug, PartialEq, Eq, Structural)]
pub struct AsciiAddEvent {
    pub entity: Entity,
    pub pos: Position,
}

/// `entity` left the grid; it stood at `pos`.
#[derive(Clone, Copy, Debug, PartialEq, Eq, Structural)]
pub struct AsciiRemoveEvent {
    pub entity: Entity,
    pub pos: Position,
}

/// `entity` went from `old_pos` to `new_pos`.
#[derive(Clone, Copy, Debug, PartialEq, Eq, Structural)]
pub struct AsciiMoveEvent {
    pub entity: Entity,
    pub old_pos: Position,
    pub new_pos: Position,
}

/// A change to where an entity stands on the grid.
#[derive(Clone, Copy, Debug, PartialEq, Eq, Structural)]
pub enum PlacementEvent {
    Add(AsciiAddEvent),
    Move(AsciiMoveEvent),
    Remove(AsciiRemoveEvent),
}

/// Every position that `e` names lies inside `size`.
pub open spec fn event_in_bounds(e: PlacementEvent, size: WorldSize) -> bool {
    match e {
        PlacementEvent::Add(a) => in_bounds(a.pos, size),
        PlacementEvent::Move(m) => in_bounds(m.old_pos, size) && in_bounds(m.new_pos, size),
        PlacementEvent::Remove(r) => in_bounds(r.pos, size),
    }
}

pub open spec fn events_in_bounds(events: Seq<PlacementEvent>, size: WorldSize) -> bool {
    forall|i: int| 0 <= i < events.len() ==> event_in_bounds(#[trigger] events[i], size)
}

impl PlacementEvent {
    /// Whether every position the event names lies inside `size`.
    pub fn in_bounds(&self, size: WorldSize) -> (r: bool)
        ensures
            r == event_in_bounds(*self, size),
    {
        match self {
            PlacementEvent::Add(a) => size.contains(a.pos),
            PlacementEvent::Move(m) => size.contains(m.old_pos) && size.contains(m.new_pos),
            PlacementEvent::Remove(r) => size.contains(r.pos),
        }
    }
}

/// A first-in, first-out queue of placement events.
pub struct EventBus {
    queue: Vec<PlacementEvent>,
}

impl View for EventBus {
    type V = Seq<PlacementEvent>;

    closed spec fn view(&self) -> Seq<PlacementEvent> {
        self.queue@
    }
}

impl EventBus {
    pub fn new() -> (r: EventBus)
        ensures
            r@ == Seq::<PlacementEvent>::empty(),
    {
        EventBus { queue: Vec::new() }
    }

    /// Appends `event` behind those already queued.
    pub fn publish(&mut self, event: PlacementEvent)
        ensures
            final(self)@ == old(self)@.push(event),
    {
        self.queue.push(event);
    }

    /// Hands out every queued event in the order of publication and empties the queue.
    pub fn drain(&mut self) -> (r: Vec<PlacementEvent>)
        ensures
            r@ == old(self)@,
            final(self)@ == Seq::<PlacementEvent>::empty(),
    {
        let mut out: Vec<PlacementEvent> = Vec::new();
        std::mem::swap(&mut out, &mut self.queue);
        out
    }

    pub fn len(&self) -> (r: usize)
        ensures
            r == self@.len(),
    {
        self.queue.len()
    }

    pub fn is_empty(&self) -> (r: bool)
        ensures
            r == (self@.len() == 0),
    {
        self.queue.len() == 0
    }
}

} // verus!
