use vstd::prelude::*;
use std::collections::HashMap;
use crate::events::{
    events_in_bounds, AsciiAddEvent, AsciiMoveEvent, AsciiRemoveEvent, EventBus, PlacementEvent,
};
use crate::geometry::{in_bounds, Entity, Position, WorldSettings, WorldSize};
use crate::layers::LayerStore;
use crate::render_sync::{apply, sync_events};

verus! {

broadcast use vstd::std_specs::hash::group_hash_axioms;

/// Why a placement request was turned down.
#[derive(Clone, Copy, Debug, PartialEq, Eq, Structural)]
pub enum PlacementError {
    /// The requested position lies outside the world.
    OutOfBounds,
    /// The entity has no position to move or remove.
    NotPlaced,
    /// The entity already has a position; move it instead.
    AlreadyPlaced,
}

/// Where one entity stands.
#[derive(Clone, Copy, Debug, PartialEq, Eq, Structural)]
pub struct AsciiTile {
    pub pos: Position,
}

/// The abstract state of a world: its extent, where each entity stands (keyed by
/// entity id), and the events not yet drained.
pub struct GridWorldView {
    pub size: WorldSize,
    pub positions: Map<u64, Position>,
    pub pending: Seq<PlacementEvent>,
}

/// Every recorded position and every pending event lies inside the world.
pub open spec fn world_wf(w: GridWorldView) -> bool {
    &&& forall|id: u64| #[trigger] w.positions.contains_key(id) ==> in_bounds(w.positions[id], w.size)
    &&& events_in_bounds(w.pending, w.size)
}

/// What `place(e, p)` makes of the world `w`.
pub open spec fn place_outcome(w: GridWorldView, e: Entity, p: Position) -> Result<
    GridWorldView,
    PlacementError,
> {
    if w.positions.contains_key(e.0) {
        Err(PlacementError::AlreadyPlaced)
    } else if !in_bounds(p, w.size) {
        Err(PlacementError::OutOfBounds)
    } else {
        Ok(
            GridWorldView {
                size: w.size,
                positions: w.positions.insert(e.0, p),
                pending: w.pending.push(PlacementEvent::Add(AsciiAddEvent { entity: e, pos: p })),
            },
        )
    }
}

/// What `move_to(e, p)` makes of the world `w`. A move onto the cell the entity
/// already holds succeeds and changes nothing.
pub open spec fn move_outcome(w: GridWorldView, e: Entity, p: Position) -> Result<
    GridWorldView,
    PlacementError,
> {
    if !w.positions.contains_key(e.0) {
        Err(PlacementError::NotPlaced)
    } else if !in_bounds(p, w.size) {
        Err(PlacementError::OutOfBounds)
    } else if w.positions[e.0] == p {
        Ok(w)
    } else {
        Ok(
            GridWorldView {
                size: w.size,
                positions: w.positions.insert(e.0, p),
                pending: w.pending.push(
                    PlacementEvent::Move(
                        AsciiMoveEvent { entity: e, old_pos: w.positions[e.0], new_pos: p },
                    ),
                ),
            },
        )
    }
}

/// What `remove(e)` makes of the world `w`.
pub open spec fn remove_outcome(w: GridWorldView, e: Entity) -> Result<GridWorldView, PlacementError> {
    if !w.positions.contains_key(e.0) {
        Err(PlacementError::NotPlaced)
    } else {
        Ok(
            GridWorldView {
                size: w.size,
                positions: w.positions.remove(e.0),
                pending: w.pending.push(
                    PlacementEvent::Remove(AsciiRemoveEvent { entity: e, pos: w.positions[e.0] }),
                ),
            },
        )
    }
}

/// The result a call returns and the state it leaves, for a given outcome.
pub open spec fn follows(
    outcome: Result<GridWorldView, PlacementError>,
    before: GridWorldView,
    r: Result<(), PlacementError>,
    after: GridWorldView,
) -> bool {
    match outcome {
        Ok(w) => r == Ok::<(), PlacementError>(()) && after == w,
        Err(e) => r == Err::<(), PlacementError>(e) && after == before,
    }
}

/// The authoritative record of where entities stand, and the only source of
/// placement events.
pub struct GridWorld {
    settings: WorldSettings,
    positions: HashMap<u64, Position>,
    events: EventBus,
}

impl View for GridWorld {
    type V = GridWorldView;

    closed spec fn view(&self) -> GridWorldView {
        GridWorldView { size: self.settings.size, positions: self.positions@, pending: self.events@ }
    }
}

impl GridWorld {
    pub open spec fn wf(&self) -> bool {
        world_wf(self@)
    }

    /// An empty world of the given extent.
    pub fn new(settings: WorldSettings) -> (r: GridWorld)
        ensures
            r.wf(),
            r@.size == settings.size,
            r@.positions == Map::<u64, Position>::empty(),
            r@.pending == Seq::<PlacementEvent>::empty(),
    {
        GridWorld { settings, positions: HashMap::new(), events: EventBus::new() }
    }

    pub fn settings(&self) -> (r: WorldSettings)
        ensures
            r.size == self@.size,
    {
        self.settings
    }

    /// Where `entity` stands, if it is placed.
    pub fn position(&self, entity: Entity) -> (r: Option<Position>)
        ensures
            r == (if self@.positions.contains_key(entity.0) {
                Some(self@.positions[entity.0])
            } else {
                None
            }),
    {
        match self.positions.get(&entity.0) {
            Some(p) => Some(*p),
            None => None,
        }
    }

    /// The tile record of `entity`, if it is placed.
    pub fn tile(&self, entity: Entity) -> (r: Option<AsciiTile>)
        ensures
            r == (if self@.positions.contains_key(entity.0) {
                Some(AsciiTile { pos: self@.positions[entity.0] })
            } else {
                None
            }),
    {
        match self.position(entity) {
            Some(pos) => Some(AsciiTile { pos }),
            None => None,
        }
    }

    /// Puts an unplaced entity at `pos` and queues its `Add` event.
    pub fn place(&mut self, entity: Entity, pos: Position) -> (r: Result<(), PlacementError>)
        requires
            old(self).wf(),
        ensures
            final(self).wf(),
            follows(place_outcome(old(self)@, entity, pos), old(self)@, r, final(self)@),
    {
        if self.positions.contains_key(&entity.0) {
            return Err(PlacementError::AlreadyPlaced);
        }
        if !self.settings.size.contains(pos) {
            return Err(PlacementError::OutOfBounds);
        }
        self.positions.insert(entity.0, pos);
        self.events.publish(PlacementEvent::Add(AsciiAddEvent { entity, pos }));
        Ok(())
    }

    /// Moves a placed entity to `new_pos` and queues its `Move` event; a move onto
    /// its own cell changes nothing and queues nothing.
    pub fn move_to(&mut self, entity: Entity, new_pos: Position) -> (r: Result<(), PlacementError>)
        requires
            old(self).wf(),
        ensures
            final(self).wf(),
            follows(move_outcome(old(self)@, entity, new_pos), old(self)@, r, final(self)@),
    {
        let old_pos = match self.positions.get(&entity.0) {
            Some(p) => *p,
            None => {
                return Err(PlacementError::NotPlaced);
            },
        };
        if !self.settings.size.contains(new_pos) {
            return Err(PlacementError::OutOfBounds);
        }
        if old_pos == new_pos {
            return Ok(());
        }
        self.positions.insert(entity.0, new_pos);
        self.events.publish(PlacementEvent::Move(AsciiMoveEvent { entity, old_pos, new_pos }));
        Ok(())
    }

    /// Takes a placed entity off the grid and queues its `Remove` event.
    pub fn remove(&mut self, entity: Entity) -> (r: Result<(), PlacementError>)
        requires
            old(self).wf(),
        ensures
            final(self).wf(),
            follows(remove_outcome(old(self)@, entity), old(self)@, r, final(self)@),
    {
        let pos = match self.positions.remove(&entity.0) {
            Some(p) => p,
            None => {
                assert(self.positions@ =~= old(self).positions@);
                return Err(PlacementError::NotPlaced);
            },
        };
        self.events.publish(PlacementEvent::Remove(AsciiRemoveEvent { entity, pos }));
        Ok(())
    }

    /// Number of events queued since the last drain.
    pub fn pending_len(&self) -> (r: usize)
        ensures
            r == self@.pending.len(),
    {
        self.events.len()
    }

    /// Hands out the queued events in the order they were made and empties the queue.
    pub fn drain_events(&mut self) -> (r: Vec<PlacementEvent>)
        requires
            old(self).wf(),
        ensures
            final(self).wf(),
            r@ == old(self)@.pending,
            events_in_bounds(r@, old(self)@.size),
            final(self)@ == (GridWorldView {
                pending: Seq::<PlacementEvent>::empty(),
                ..old(self)@
            }),
    {
        self.events.drain()
    }

    /// Drains the queued events onto the layers of a store of the same extent.
    pub fn sync(&mut self, store: &mut LayerStore)
        requires
            old(self).wf(),
            old(store).wf(),
            old(store).spec_size() == old(self)@.size,
        ensures
            final(self).wf(),
            final(self)@ == (GridWorldView {
                pending: Seq::<PlacementEvent>::empty(),
                ..old(self)@
            }),
            final(store).wf(),
            final(store).spec_size() == old(store).spec_size(),
            final(store)@ == sync_events(old(store)@, old(self)@.size, old(self)@.pending),
    {
        let events = self.drain_events();
        // The world's events never leave it, so the batch is never refused.
        let _ = apply(store, &events);
    }
}

} // verus!
