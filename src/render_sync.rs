use vstd::prelude::*;
use crate::events::{event_in_bounds, events_in_bounds, PlacementEvent};
use crate::geometry::WorldSize;
use crate::layers::{empty_cell, occupied_cell, put_tile, LayerStore, LayersView, TileCell};

verus! {

/// The layers after drawing one event: an arrival marks its cell, a departure clears it.
pub open spec fn sync_event(layers: LayersView, size: WorldSize, e: PlacementEvent) -> LayersView {
    match e {
        PlacementEvent::Add(a) => put_tile(layers, size, a.pos, occupied_cell()),
        PlacementEvent::Move(m) => put_tile(
            put_tile(layers, size, m.old_pos, empty_cell()),
            size,
            m.new_pos,
            occupied_cell(),
        ),
        PlacementEvent::Remove(r) => put_tile(layers, size, r.pos, empty_cell()),
    }
}

/// The layers after drawing `events` in order, the first one first.
pub open spec fn sync_events(layers: LayersView, size: WorldSize, events: Seq<PlacementEvent>) -> LayersView
    decreases events.len(),
{
    if events.len() == 0 {
        layers
    } else {
        sync_event(sync_events(layers, size, events.drop_last()), size, events.last())
    }
}

/// An event named a position outside the world: the event stream is broken.
#[derive(Clone, Copy, Debug, PartialEq, Eq, Structural)]
pub struct InvariantViolation {
    /// Index of the first offending event in the batch.
    pub index: usize,
}

/// Index of the first event of `events` that leaves `size`, if there is one.
pub open spec fn first_out_of_bounds(events: Seq<PlacementEvent>, size: WorldSize) -> Option<int> {
    if events_in_bounds(events, size) {
        None
    } else {
        Some(choose|i: int| {
            &&& 0 <= i < events.len()
            &&& !event_in_bounds(events[i], size)
            &&& events_in_bounds(events.take(i), size)
        })
    }
}

/// Draws one event on the layers: exactly the cells it names change.
pub fn apply_event(store: &mut LayerStore, event: &PlacementEvent)
    requires
        old(store).wf(),
        event_in_bounds(*event, old(store).spec_size()),
    ensures
        final(store).wf(),
        final(store).spec_size() == old(store).spec_size(),
        final(store)@ == sync_event(old(store)@, old(store).spec_size(), *event),
{
    match event {
        PlacementEvent::Add(a) => {
            store.set_cell(a.pos.z, a.pos.x, a.pos.y, TileCell::occupied());
        },
        PlacementEvent::Move(m) => {
            store.set_cell(m.old_pos.z, m.old_pos.x, m.old_pos.y, TileCell::empty());
            store.set_cell(m.new_pos.z, m.new_pos.x, m.new_pos.y, TileCell::occupied());
        },
        PlacementEvent::Remove(r) => {
            store.set_cell(r.pos.z, r.pos.x, r.pos.y, TileCell::empty());
        },
    }
}

/// Draws a frame's events on the layers in order. A batch that names a position outside
/// the world is refused whole, with the index of its first such event, and nothing is drawn.
pub fn apply(store: &mut LayerStore, events: &Vec<PlacementEvent>) -> (r: Result<(), InvariantViolation>)
    requires
        old(store).wf(),
    ensures
        final(store).wf(),
        final(store).spec_size() == old(store).spec_size(),
        match first_out_of_bounds(events@, old(store).spec_size()) {
            None => r == Ok::<(), InvariantViolation>(())
                && final(store)@ == sync_events(old(store)@, old(store).spec_size(), events@),
            Some(i) => r == Err::<(), InvariantViolation>(InvariantViolation { index: i as usize })
                && final(store)@ == old(store)@,
        },
{
    let size = store.size();
    let n = events.len();
    let mut i: usize = 0;
    while i < n
        invariant
            i <= n,
            n == events@.len(),
            store.wf(),
            store@ == old(store)@,
            size == store.spec_size(),
            events_in_bounds(events@.take(i as int), size),
        decreases n - i,
    {
        if !events[i].in_bounds(size) {
            proof {
                let j = i as int;
                assert(!events_in_bounds(events@, size));
                let k = first_out_of_bounds(events@, size)->Some_0;
                assert(0 <= k < events@.len() && !event_in_bounds(events@[k], size)
                    && events_in_bounds(events@.take(k), size));
                if k < j {
                    assert(events@.take(j)[k] == events@[k]);
                } else if k > j {
                    assert(events@.take(k)[j] == events@[j]);
                }
            }
            return Err(InvariantViolation { index: i });
        }
        proof {
            assert forall|k: int| 0 <= k < i + 1 implies event_in_bounds(
                #[trigger] events@.take(i as int + 1)[k],
                size,
            ) by {
                if k < i {
                    assert(events@.take(i as int + 1)[k] == events@.take(i as int)[k]);
                }
            }
        }
        i = i + 1;
    }
    assert(events@.take(n as int) =~= events@);
    let ghost start = store@;
    let mut j: usize = 0;
    while j < n
        invariant
            j <= n,
            n == events@.len(),
            store.wf(),
            size == store.spec_size(),
            events_in_bounds(events@, size),
            store@ == sync_events(start, size, events@.take(j as int)),
        decreases n - j,
    {
        apply_event(store, &events[j]);
        assert(events@.take(j as int + 1).drop_last() =~= events@.take(j as int));
        j = j + 1;
    }
    assert(events@.take(n as int) =~= events@);
    Ok(())
}

} // verus!
