use vstd::prelude::*;
use crate::compositor::{weight_of, FADE_OFFSET};
use crate::events::{events_in_bounds, PlacementEvent};
use crate::geometry::{cell_index, in_bounds, lemma_cell_index_in_layer, Entity, Position, WorldSize};
use crate::grid_world::{move_outcome, place_outcome, remove_outcome, world_wf, GridWorldView, PlacementError};
use crate::layers::{empty_cell, layers_fit, occupied_cell, put_tile, tile_at, LayersView, TileCell};
use crate::render_sync::{sync_event, sync_events};

verus! {

/// Two different cells of one layer have different indices.
proof fn lemma_cell_index_injective(width: u32, x1: u32, y1: u32, x2: u32, y2: u32)
    requires
        x1 < width,
        x2 < width,
        x1 != x2 || y1 != y2,
    ensures
        cell_index(width, x1, y1) != cell_index(width, x2, y2),
{
    if y1 == y2 {
    } else if y1 < y2 {
        assert((y1 as int) * (width as int) + (width as int) <= (y2 as int) * (width as int)) by (nonlinear_arith)
            requires
                y1 < y2,
        ;
    } else {
        assert((y2 as int) * (width as int) + (width as int) <= (y1 as int) * (width as int)) by (nonlinear_arith)
            requires
                y2 < y1,
        ;
    }
}

/// Writing one cell keeps the shape of the layers, sets that cell, and leaves every other cell.
pub proof fn lemma_put_tile(layers: LayersView, size: WorldSize, p: Position, cell: TileCell)
    requires
        layers_fit(layers, size),
        in_bounds(p, size),
    ensures
        layers_fit(put_tile(layers, size, p, cell), size),
        tile_at(put_tile(layers, size, p, cell), size, p) == cell,
        forall|q: Position|
            in_bounds(q, size) && q != p ==> #[trigger] tile_at(put_tile(layers, size, p, cell), size, q)
                == tile_at(layers, size, q),
{
    lemma_cell_index_in_layer(size.sx, size.sy, p.x, p.y);
    let after = put_tile(layers, size, p, cell);
    assert(layers[p.z as int].len() == size.layer_len());
    assert forall|z: int| 0 <= z < after.len() implies #[trigger] after[z].len() == size.layer_len() by {
        assert(layers[z].len() == size.layer_len());
    }
    assert forall|q: Position| in_bounds(q, size) && q != p implies #[trigger] tile_at(after, size, q)
        == tile_at(layers, size, q) by {
        lemma_cell_index_in_layer(size.sx, size.sy, q.x, q.y);
        if q.z == p.z {
            lemma_cell_index_injective(size.sx, p.x, p.y, q.x, q.y);
        }
    }
}

/// Drawing events that stay inside the world keeps the shape of the layers.
pub proof fn lemma_sync_events_fit(layers: LayersView, size: WorldSize, events: Seq<PlacementEvent>)
    requires
        layers_fit(layers, size),
        events_in_bounds(events, size),
    ensures
        layers_fit(sync_events(layers, size, events), size),
    decreases events.len(),
{
    if events.len() > 0 {
        let rest = events.drop_last();
        assert forall|i: int| 0 <= i < rest.len() implies crate::events::event_in_bounds(
            #[trigger] rest[i],
            size,
        ) by {
            assert(rest[i] == events[i]);
        }
        lemma_sync_events_fit(layers, size, rest);
        let before = sync_events(layers, size, rest);
        let e = events[events.len() - 1];
        match e {
            PlacementEvent::Add(a) => {
                lemma_put_tile(before, size, a.pos, occupied_cell());
            },
            PlacementEvent::Move(m) => {
                lemma_put_tile(before, size, m.old_pos, empty_cell());
                lemma_put_tile(
                    put_tile(before, size, m.old_pos, empty_cell()),
                    size,
                    m.new_pos,
                    occupied_cell(),
                );
            },
            PlacementEvent::Remove(r) => {
                lemma_put_tile(before, size, r.pos, empty_cell());
            },
        }
    }
}

/// Drawing `events` and then one more event is drawing the longer sequence.
proof fn lemma_sync_push(layers: LayersView, size: WorldSize, events: Seq<PlacementEvent>, e: PlacementEvent)
    ensures
        sync_events(layers, size, events.push(e)) == sync_event(sync_events(layers, size, events), size, e),
{
    assert(events.push(e).drop_last() =~= events);
}

/// Placing an entity at a position inside the world and then drawing the world's
/// pending events leaves that cell showing the occupied glyph.
pub proof fn lemma_place_then_sync_occupies(w: GridWorldView, layers: LayersView, e: Entity, p: Position)
    requires
        world_wf(w),
        layers_fit(layers, w.size),
        !w.positions.contains_key(e.0),
        in_bounds(p, w.size),
    ensures
        place_outcome(w, e, p) is Ok,
        tile_at(sync_events(layers, w.size, place_outcome(w, e, p)->Ok_0.pending), w.size, p)
            == occupied_cell(),
{
    let w1 = place_outcome(w, e, p)->Ok_0;
    let last = w1.pending.last();
    lemma_sync_push(layers, w.size, w.pending, last);
    assert(w1.pending == w.pending.push(last));
    lemma_sync_events_fit(layers, w.size, w.pending);
    lemma_put_tile(sync_events(layers, w.size, w.pending), w.size, p, occupied_cell());
}

/// Placing an entity at `start`, moving it to another cell `target`, and then drawing the
/// pending events leaves `start` empty and `target` occupied.
pub proof fn lemma_move_then_sync(w: GridWorldView, layers: LayersView, e: Entity, start: Position, target: Position)
    requires
        world_wf(w),
        layers_fit(layers, w.size),
        !w.positions.contains_key(e.0),
        in_bounds(start, w.size),
        in_bounds(target, w.size),
        start != target,
    ensures
        place_outcome(w, e, start) is Ok,
        move_outcome(place_outcome(w, e, start)->Ok_0, e, target) is Ok,
        ({
            let w2 = move_outcome(place_outcome(w, e, start)->Ok_0, e, target)->Ok_0;
            let after = sync_events(layers, w.size, w2.pending);
            &&& tile_at(after, w.size, start) == empty_cell()
            &&& tile_at(after, w.size, target) == occupied_cell()
        }),
{
    let size = w.size;
    let w1 = place_outcome(w, e, start)->Ok_0;
    let w2 = move_outcome(w1, e, target)->Ok_0;
    assert(w1.positions[e.0] == start);
    let add = w1.pending.last();
    let mv = w2.pending.last();
    assert(w1.pending == w.pending.push(add));
    assert(w2.pending == w1.pending.push(mv));
    lemma_sync_push(layers, size, w.pending, add);
    lemma_sync_push(layers, size, w1.pending, mv);
    let l0 = sync_events(layers, size, w.pending);
    lemma_sync_events_fit(layers, size, w.pending);
    lemma_put_tile(l0, size, start, occupied_cell());
    let l1 = put_tile(l0, size, start, occupied_cell());
    lemma_put_tile(l1, size, start, empty_cell());
    let l2 = put_tile(l1, size, start, empty_cell());
    lemma_put_tile(l2, size, target, occupied_cell());
}

/// Placing an entity at `p` and removing it again, then drawing the pending events,
/// leaves `p` empty.
pub proof fn lemma_place_remove_then_sync_empties(w: GridWorldView, layers: LayersView, e: Entity, p: Position)
    requires
        world_wf(w),
        layers_fit(layers, w.size),
        !w.positions.contains_key(e.0),
        in_bounds(p, w.size),
    ensures
        place_outcome(w, e, p) is Ok,
        remove_outcome(place_outcome(w, e, p)->Ok_0, e) is Ok,
        tile_at(
            sync_events(layers, w.size, remove_outcome(place_outcome(w, e, p)->Ok_0, e)->Ok_0.pending),
            w.size,
            p,
        ) == empty_cell(),
{
    let size = w.size;
    let w1 = place_outcome(w, e, p)->Ok_0;
    let w2 = remove_outcome(w1, e)->Ok_0;
    let add = w1.pending.last();
    let rm = w2.pending.last();
    assert(w1.pending == w.pending.push(add));
    assert(w2.pending == w1.pending.push(rm));
    lemma_sync_push(layers, size, w.pending, add);
    lemma_sync_push(layers, size, w1.pending, rm);
    let l0 = sync_events(layers, size, w.pending);
    lemma_sync_events_fit(layers, size, w.pending);
    lemma_put_tile(l0, size, p, occupied_cell());
    lemma_put_tile(put_tile(l0, size, p, occupied_cell()), size, p, empty_cell());
}

/// Placing an entity that already has a position fails with `AlreadyPlaced` and
/// queues no event.
pub proof fn lemma_place_placed_refused(w: GridWorldView, e: Entity, p: Position)
    requires
        w.positions.contains_key(e.0),
    ensures
        place_outcome(w, e, p) == Err::<GridWorldView, PlacementError>(PlacementError::AlreadyPlaced),
{
}

/// Moving or removing an entity that has no position fails with `NotPlaced` and
/// queues no event.
pub proof fn lemma_unplaced_refused(w: GridWorldView, e: Entity, p: Position)
    requires
        !w.positions.contains_key(e.0),
    ensures
        move_outcome(w, e, p) == Err::<GridWorldView, PlacementError>(PlacementError::NotPlaced),
        remove_outcome(w, e) == Err::<GridWorldView, PlacementError>(PlacementError::NotPlaced),
{
}

/// Draining an empty queue, and then draining the queue it leaves, changes no cell
/// either time.
pub proof fn lemma_drain_empty_twice(layers: LayersView, size: WorldSize, queue: Seq<PlacementEvent>)
    requires
        queue.len() == 0,
    ensures
        sync_events(layers, size, queue) == layers,
        sync_events(sync_events(layers, size, queue), size, Seq::<PlacementEvent>::empty()) == layers,
{
}

/// Layers above the current one weigh nothing, the current layer weighs exactly one,
/// and layers below weigh more than nothing and less than one.
pub proof fn lemma_weight_profile(z: u32, current: u32)
    ensures
        weight_of(z, current).denominator > 0,
        weight_of(z, current).numerator <= weight_of(z, current).denominator,
        z > current ==> weight_of(z, current).numerator == 0,
        (weight_of(z, current).numerator == weight_of(z, current).denominator) <==> z == current,
        z < current ==> 0 < weight_of(z, current).numerator < weight_of(z, current).denominator,
{
}

/// Up to the current layer, the weight does not decrease as `z` grows; all weights
/// from one view share a denominator.
pub proof fn lemma_weight_monotone(z1: u32, z2: u32, current: u32)
    requires
        z1 <= z2 <= current,
    ensures
        weight_of(z1, current).denominator == weight_of(z2, current).denominator,
        weight_of(z1, current).numerator <= weight_of(z2, current).numerator,
{
}

/// For a placed entity, a move succeeds exactly on positions inside the world: the far
/// corner `(sx - 1, sy - 1, 0)` is reached, one step past it on either axis is `OutOfBounds`.
pub proof fn lemma_move_boundary(w: GridWorldView, e: Entity)
    requires
        w.positions.contains_key(e.0),
        w.size.sx >= 1,
        w.size.sy >= 1,
        w.size.sz >= 1,
    ensures
        forall|p: Position| #[trigger] move_outcome(w, e, p) is Ok <==> in_bounds(p, w.size),
        forall|p: Position|
            !in_bounds(p, w.size) ==> #[trigger] move_outcome(w, e, p) == Err::<
                GridWorldView,
                PlacementError,
            >(PlacementError::OutOfBounds),
        move_outcome(w, e, Position { x: (w.size.sx - 1) as u32, y: (w.size.sy - 1) as u32, z: 0 }) is Ok,
        move_outcome(w, e, Position { x: w.size.sx, y: (w.size.sy - 1) as u32, z: 0 }) == Err::<
            GridWorldView,
            PlacementError,
        >(PlacementError::OutOfBounds),
        move_outcome(w, e, Position { x: (w.size.sx - 1) as u32, y: w.size.sy, z: 0 }) == Err::<
            GridWorldView,
            PlacementError,
        >(PlacementError::OutOfBounds),
{
}

/// Some entity of `positions` stands at `q`.
pub open spec fn is_occupied(positions: Map<u64, Position>, q: Position) -> bool {
    exists|id: u64| #[trigger] positions.contains_key(id) && positions[id] == q
}

/// Every cell of the world shows the occupied glyph exactly when an entity stands there.
pub open spec fn faithful(positions: Map<u64, Position>, size: WorldSize, layers: LayersView) -> bool {
    forall|q: Position|
        in_bounds(q, size) ==> #[trigger] tile_at(layers, size, q) == (if is_occupied(positions, q) {
            occupied_cell()
        } else {
            empty_cell()
        })
}

/// No entity but `e` stands on the cell of `e`.
pub open spec fn alone_on_cell(positions: Map<u64, Position>, e: Entity) -> bool {
    forall|id: u64|
        #[trigger] positions.contains_key(id) && id != e.0 ==> positions[id] != positions[e.0]
}

/// Layers that are empty everywhere are faithful to a world with no entity in it.
pub proof fn lemma_empty_faithful(size: WorldSize, layers: LayersView)
    requires
        forall|q: Position| in_bounds(q, size) ==> #[trigger] tile_at(layers, size, q) == empty_cell(),
    ensures
        faithful(Map::<u64, Position>::empty(), size, layers),
{
}

/// With the layers faithful to the world and nothing pending, a successful `place`
/// followed by drawing its event leaves the layers faithful.
pub proof fn lemma_place_keeps_faithful(w: GridWorldView, layers: LayersView, e: Entity, p: Position)
    requires
        world_wf(w),
        layers_fit(layers, w.size),
        w.pending.len() == 0,
        faithful(w.positions, w.size, layers),
        place_outcome(w, e, p) is Ok,
    ensures
        faithful(
            place_outcome(w, e, p)->Ok_0.positions,
            w.size,
            sync_events(layers, w.size, place_outcome(w, e, p)->Ok_0.pending),
        ),
{
    let w1 = place_outcome(w, e, p)->Ok_0;
    let size = w.size;
    lemma_sync_push(layers, size, w.pending, w1.pending.last());
    assert(w1.pending == w.pending.push(w1.pending.last()));
    let after = put_tile(layers, size, p, occupied_cell());
    lemma_put_tile(layers, size, p, occupied_cell());
    assert forall|q: Position| in_bounds(q, size) implies #[trigger] tile_at(after, size, q) == (if is_occupied(
        w1.positions,
        q,
    ) {
        occupied_cell()
    } else {
        empty_cell()
    }) by {
        if q == p {
            assert(w1.positions.contains_key(e.0) && w1.positions[e.0] == q);
        } else {
            if is_occupied(w.positions, q) {
                let id = choose|id: u64| #[trigger] w.positions.contains_key(id) && w.positions[id] == q;
                assert(w1.positions.contains_key(id) && w1.positions[id] == q);
            }
            if is_occupied(w1.positions, q) {
                let id = choose|id: u64| #[trigger] w1.positions.contains_key(id) && w1.positions[id] == q;
                assert(w.positions.contains_key(id) && w.positions[id] == q);
            }
        }
    }
}

/// With the layers faithful to the world and nothing pending, a successful `move_to` of an
/// entity that is alone on its cell, followed by drawing its event, leaves the layers faithful.
pub proof fn lemma_move_keeps_faithful(w: GridWorldView, layers: LayersView, e: Entity, p: Position)
    requires
        world_wf(w),
        layers_fit(layers, w.size),
        w.pending.len() == 0,
        faithful(w.positions, w.size, layers),
        alone_on_cell(w.positions, e),
        move_outcome(w, e, p) is Ok,
    ensures
        faithful(
            move_outcome(w, e, p)->Ok_0.positions,
            w.size,
            sync_events(layers, w.size, move_outcome(w, e, p)->Ok_0.pending),
        ),
{
    let w1 = move_outcome(w, e, p)->Ok_0;
    let size = w.size;
    let a = w.positions[e.0];
    if a != p {
        lemma_sync_push(layers, size, w.pending, w1.pending.last());
        assert(w1.pending == w.pending.push(w1.pending.last()));
        let mid = put_tile(layers, size, a, empty_cell());
        let after = put_tile(mid, size, p, occupied_cell());
        lemma_put_tile(layers, size, a, empty_cell());
        lemma_put_tile(mid, size, p, occupied_cell());
        assert forall|q: Position| in_bounds(q, size) implies #[trigger] tile_at(after, size, q) == (if is_occupied(
            w1.positions,
            q,
        ) {
            occupied_cell()
        } else {
            empty_cell()
        }) by {
            if q == p {
                assert(w1.positions.contains_key(e.0) && w1.positions[e.0] == q);
            } else if q == a {
                if is_occupied(w1.positions, q) {
                    let id = choose|id: u64| #[trigger] w1.positions.contains_key(id) && w1.positions[id] == q;
                    assert(id != e.0);
                    assert(w.positions.contains_key(id) && w.positions[id] == q);
                }
            } else {
                if is_occupied(w.positions, q) {
                    let id = choose|id: u64| #[trigger] w.positions.contains_key(id) && w.positions[id] == q;
                    assert(id != e.0);
                    assert(w1.positions.contains_key(id) && w1.positions[id] == q);
                }
                if is_occupied(w1.positions, q) {
                    let id = choose|id: u64| #[trigger] w1.positions.contains_key(id) && w1.positions[id] == q;
                    assert(w.positions.contains_key(id) && w.positions[id] == q);
                }
            }
        }
    }
}

/// With the layers faithful to the world and nothing pending, a successful `remove` of an
/// entity that is alone on its cell, followed by drawing its event, leaves the layers faithful.
pub proof fn lemma_remove_keeps_faithful(w: GridWorldView, layers: LayersView, e: Entity)
    requires
        world_wf(w),
        layers_fit(layers, w.size),
        w.pending.len() == 0,
        faithful(w.positions, w.size, layers),
        alone_on_cell(w.positions, e),
        remove_outcome(w, e) is Ok,
    ensures
        faithful(
            remove_outcome(w, e)->Ok_0.positions,
            w.size,
            sync_events(layers, w.size, remove_outcome(w, e)->Ok_0.pending),
        ),
{
    let w1 = remove_outcome(w, e)->Ok_0;
    let size = w.size;
    let a = w.positions[e.0];
    lemma_sync_push(layers, size, w.pending, w1.pending.last());
    assert(w1.pending == w.pending.push(w1.pending.last()));
    let after = put_tile(layers, size, a, empty_cell());
    lemma_put_tile(layers, size, a, empty_cell());
    assert forall|q: Position| in_bounds(q, size) implies #[trigger] tile_at(after, size, q) == (if is_occupied(
        w1.positions,
        q,
    ) {
        occupied_cell()
    } else {
        empty_cell()
    }) by {
        if q == a {
            if is_occupied(w1.positions, q) {
                let id = choose|id: u64| #[trigger] w1.positions.contains_key(id) && w1.positions[id] == q;
                assert(w.positions.contains_key(id) && w.positions[id] == q);
            }
        } else {
            if is_occupied(w.positions, q) {
                let id = choose|id: u64| #[trigger] w.positions.contains_key(id) && w.positions[id] == q;
                assert(w1.positions.contains_key(id) && w1.positions[id] == q);
            }
            if is_occupied(w1.positions, q) {
                let id = choose|id: u64| #[trigger] w1.positions.contains_key(id) && w1.positions[id] == q;
                assert(w.positions.contains_key(id) && w.positions[id] == q);
            }
        }
    }
}

} // verus!
