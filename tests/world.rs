use layered_grid::events::PlacementEvent;
use layered_grid::geometry::{Entity, Position, WorldSettings, WorldSize};
use layered_grid::grid_world::{GridWorld, PlacementError};
use layered_grid::layers::{LayerStore, TileCell, EMPTY_GLYPH, OCCUPIED_GLYPH};

fn settings(sx: u32, sy: u32, sz: u32) -> WorldSettings {
    WorldSettings::new(WorldSize { sx, sy, sz }).unwrap()
}

fn setup(sx: u32, sy: u32, sz: u32) -> (GridWorld, LayerStore) {
    let s = settings(sx, sy, sz);
    (GridWorld::new(s), LayerStore::new(s))
}

fn pos(x: u32, y: u32, z: u32) -> Position {
    Position::new(x, y, z)
}

#[test]
fn place_marks_cell_on_every_position() {
    let (mut world, mut store) = setup(3, 2, 2);
    let mut id = 0u64;
    for z in 0..2 {
        for y in 0..2 {
            for x in 0..3 {
                id += 1;
                assert_eq!(world.place(Entity(id), pos(x, y, z)), Ok(()));
                world.sync(&mut store);
                assert_eq!(store.get(pos(x, y, z)), TileCell::occupied());
                assert_eq!(store.get(pos(x, y, z)).glyph, OCCUPIED_GLYPH);
            }
        }
    }
}

#[test]
fn move_clears_old_cell_and_marks_new() {
    let (mut world, mut store) = setup(5, 5, 3);
    let e = Entity(7);
    world.place(e, pos(1, 2, 0)).unwrap();
    world.move_to(e, pos(4, 3, 2)).unwrap();
    world.sync(&mut store);
    assert_eq!(store.get(pos(1, 2, 0)), TileCell::empty());
    assert_eq!(store.get(pos(4, 3, 2)), TileCell::occupied());
    assert_eq!(world.position(e), Some(pos(4, 3, 2)));
}

#[test]
fn move_within_one_frame_on_same_layer() {
    let (mut world, mut store) = setup(4, 4, 1);
    let e = Entity(1);
    world.place(e, pos(0, 1, 0)).unwrap();
    world.sync(&mut store);
    world.move_to(e, pos(1, 0, 0)).unwrap();
    world.sync(&mut store);
    assert_eq!(store.get(pos(0, 1, 0)).glyph, EMPTY_GLYPH);
    assert_eq!(store.get(pos(1, 0, 0)).glyph, OCCUPIED_GLYPH);
}

#[test]
fn remove_after_place_restores_empty() {
    let (mut world, mut store) = setup(4, 4, 2);
    let e = Entity(3);
    world.place(e, pos(2, 3, 1)).unwrap();
    world.sync(&mut store);
    assert_eq!(store.get(pos(2, 3, 1)), TileCell::occupied());
    world.remove(e).unwrap();
    world.sync(&mut store);
    assert_eq!(store.get(pos(2, 3, 1)), TileCell::empty());
    assert_eq!(world.position(e), None);
}

#[test]
fn remove_in_same_frame_as_place() {
    let (mut world, mut store) = setup(4, 4, 2);
    let e = Entity(3);
    world.place(e, pos(2, 3, 1)).unwrap();
    world.remove(e).unwrap();
    assert_eq!(world.pending_len(), 2);
    world.sync(&mut store);
    assert_eq!(store.get(pos(2, 3, 1)), TileCell::empty());
}

#[test]
fn place_twice_is_already_placed_without_event() {
    let (mut world, _) = setup(4, 4, 2);
    let e = Entity(1);
    world.place(e, pos(0, 0, 0)).unwrap();
    assert_eq!(world.drain_events().len(), 1);
    assert_eq!(world.place(e, pos(1, 1, 1)), Err(PlacementError::AlreadyPlaced));
    assert_eq!(world.place(e, pos(9, 9, 9)), Err(PlacementError::AlreadyPlaced));
    assert_eq!(world.pending_len(), 0);
    assert_eq!(world.position(e), Some(pos(0, 0, 0)));
}

#[test]
fn move_unplaced_is_not_placed_without_event() {
    let (mut world, _) = setup(4, 4, 2);
    assert_eq!(world.move_to(Entity(5), pos(1, 1, 0)), Err(PlacementError::NotPlaced));
    assert_eq!(world.move_to(Entity(5), pos(40, 1, 0)), Err(PlacementError::NotPlaced));
    assert_eq!(world.pending_len(), 0);
}

#[test]
fn remove_unplaced_is_not_placed_without_event() {
    let (mut world, _) = setup(4, 4, 2);
    assert_eq!(world.remove(Entity(5)), Err(PlacementError::NotPlaced));
    world.place(Entity(6), pos(0, 0, 0)).unwrap();
    world.remove(Entity(6)).unwrap();
    world.drain_events();
    assert_eq!(world.remove(Entity(6)), Err(PlacementError::NotPlaced));
    assert_eq!(world.pending_len(), 0);
}

#[test]
fn place_out_of_bounds_is_refused() {
    let (mut world, _) = setup(4, 3, 2);
    assert_eq!(world.place(Entity(1), pos(4, 0, 0)), Err(PlacementError::OutOfBounds));
    assert_eq!(world.place(Entity(1), pos(0, 3, 0)), Err(PlacementError::OutOfBounds));
    assert_eq!(world.place(Entity(1), pos(0, 0, 2)), Err(PlacementError::OutOfBounds));
    assert_eq!(world.pending_len(), 0);
    assert_eq!(world.position(Entity(1)), None);
}

#[test]
fn move_to_own_cell_queues_nothing() {
    let (mut world, _) = setup(4, 4, 2);
    world.place(Entity(1), pos(2, 2, 1)).unwrap();
    world.drain_events();
    assert_eq!(world.move_to(Entity(1), pos(2, 2, 1)), Ok(()));
    assert_eq!(world.pending_len(), 0);
}

#[test]
fn move_to_boundary_succeeds_and_beyond_fails() {
    let (mut world, _) = setup(4, 5, 3);
    let e = Entity(2);
    world.place(e, pos(1, 1, 1)).unwrap();
    assert_eq!(world.move_to(e, pos(3, 4, 0)), Ok(()));
    assert_eq!(world.move_to(e, pos(4, 4, 0)), Err(PlacementError::OutOfBounds));
    assert_eq!(world.move_to(e, pos(3, 5, 0)), Err(PlacementError::OutOfBounds));
    assert_eq!(world.move_to(e, pos(3, 4, 3)), Err(PlacementError::OutOfBounds));
    assert_eq!(world.move_to(e, pos(3, 4, 2)), Ok(()));
    assert_eq!(world.position(e), Some(pos(3, 4, 2)));
}

#[test]
fn events_come_out_in_order_made() {
    let (mut world, _) = setup(4, 4, 2);
    let a = Entity(1);
    let b = Entity(2);
    world.place(a, pos(0, 0, 0)).unwrap();
    world.place(b, pos(1, 0, 0)).unwrap();
    world.move_to(a, pos(0, 1, 0)).unwrap();
    world.remove(b).unwrap();
    let events = world.drain_events();
    assert_eq!(events.len(), 4);
    assert!(matches!(events[0], PlacementEvent::Add(e) if e.entity == a && e.pos == pos(0, 0, 0)));
    assert!(matches!(events[1], PlacementEvent::Add(e) if e.entity == b && e.pos == pos(1, 0, 0)));
    assert!(matches!(events[2], PlacementEvent::Move(e)
        if e.entity == a && e.old_pos == pos(0, 0, 0) && e.new_pos == pos(0, 1, 0)));
    assert!(matches!(events[3], PlacementEvent::Remove(e) if e.entity == b && e.pos == pos(1, 0, 0)));
    assert_eq!(world.pending_len(), 0);
}

#[test]
fn later_event_wins_on_shared_cell() {
    let (mut world, mut store) = setup(4, 4, 1);
    world.place(Entity(1), pos(1, 1, 0)).unwrap();
    world.place(Entity(2), pos(1, 1, 0)).unwrap();
    world.move_to(Entity(1), pos(2, 1, 0)).unwrap();
    world.sync(&mut store);
    assert_eq!(store.get(pos(1, 1, 0)), TileCell::empty());
    assert_eq!(store.get(pos(2, 1, 0)), TileCell::occupied());
}

#[test]
fn tile_reports_position() {
    let (mut world, _) = setup(4, 4, 2);
    assert_eq!(world.tile(Entity(9)), None);
    world.place(Entity(9), pos(3, 2, 1)).unwrap();
    assert_eq!(world.tile(Entity(9)).unwrap().pos, pos(3, 2, 1));
}
