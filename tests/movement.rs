use layered_grid::geometry::{Entity, Position, WorldSettings, WorldSize};
use layered_grid::grid_world::{GridWorld, PlacementError};
use layered_grid::movement::{apply_movement_input, MoveKeys, Movement, SUBSTEPS_PER_CELL};

const NONE: MoveKeys = MoveKeys { up: false, left: false, down: false, right: false };
const RIGHT: MoveKeys = MoveKeys { up: false, left: false, down: false, right: true };
const UP: MoveKeys = MoveKeys { up: true, left: false, down: false, right: false };
const UP_LEFT: MoveKeys = MoveKeys { up: true, left: true, down: false, right: false };

fn world_with(e: Entity, p: Position) -> GridWorld {
    let s = WorldSettings::new(WorldSize { sx: 8, sy: 8, sz: 2 }).unwrap();
    let mut w = GridWorld::new(s);
    w.place(e, p).unwrap();
    w.drain_events();
    w
}

#[test]
fn fraction_is_kept_until_a_whole_cell() {
    let e = Entity(1);
    let mut w = world_with(e, Position::new(3, 3, 1));
    let mut m = Movement::new(20);
    assert_eq!(apply_movement_input(&mut w, e, &mut m, RIGHT, 600), Ok(()));
    assert_eq!(w.position(e), Some(Position::new(3, 3, 1)));
    assert_eq!(m.delta(), (600, 0));
    assert_eq!(w.pending_len(), 0);
    assert_eq!(apply_movement_input(&mut w, e, &mut m, RIGHT, 600), Ok(()));
    assert_eq!(w.position(e), Some(Position::new(4, 3, 1)));
    assert_eq!(m.delta(), (0, 0));
    assert_eq!(w.pending_len(), 1);
    assert_eq!(m.speed(), 20);
}

#[test]
fn whole_cells_step_at_once() {
    let e = Entity(1);
    let mut w = world_with(e, Position::new(1, 5, 0));
    let mut m = Movement::new(20);
    apply_movement_input(&mut w, e, &mut m, RIGHT, 2 * SUBSTEPS_PER_CELL as u32 + 500).unwrap();
    assert_eq!(w.position(e), Some(Position::new(3, 5, 0)));
    apply_movement_input(&mut w, e, &mut m, UP, 3 * SUBSTEPS_PER_CELL as u32).unwrap();
    assert_eq!(w.position(e), Some(Position::new(3, 2, 0)));
}

#[test]
fn steps_are_clamped_to_the_world() {
    let e = Entity(1);
    let mut w = world_with(e, Position::new(6, 1, 0));
    let mut m = Movement::new(20);
    apply_movement_input(&mut w, e, &mut m, RIGHT, 5 * SUBSTEPS_PER_CELL as u32).unwrap();
    assert_eq!(w.position(e), Some(Position::new(7, 1, 0)));
    apply_movement_input(&mut w, e, &mut m, UP_LEFT, 9 * SUBSTEPS_PER_CELL as u32).unwrap();
    assert_eq!(w.position(e), Some(Position::new(0, 0, 0)));
    assert_eq!(m.delta(), (0, 0));
    apply_movement_input(&mut w, e, &mut m, UP, SUBSTEPS_PER_CELL as u32).unwrap();
    assert_eq!(w.position(e), Some(Position::new(0, 0, 0)));
    assert_eq!(m.delta(), (0, 0));
}

#[test]
fn opposite_keys_cancel() {
    let e = Entity(1);
    let mut w = world_with(e, Position::new(2, 2, 0));
    let mut m = Movement::new(20);
    let all = MoveKeys { up: true, left: true, down: true, right: true };
    apply_movement_input(&mut w, e, &mut m, all, 5000).unwrap();
    assert_eq!(w.position(e), Some(Position::new(2, 2, 0)));
    assert_eq!(m.delta(), (0, 0));
    apply_movement_input(&mut w, e, &mut m, NONE, 5000).unwrap();
    assert_eq!(m.delta(), (0, 0));
}

#[test]
fn unplaced_entity_is_refused_and_keeps_its_movement() {
    let mut w = world_with(Entity(1), Position::new(2, 2, 0));
    let mut m = Movement::new(20);
    assert_eq!(apply_movement_input(&mut w, Entity(2), &mut m, RIGHT, 5000), Err(PlacementError::NotPlaced));
    assert_eq!(m.delta(), (0, 0));
    assert_eq!(w.pending_len(), 0);
}

#[test]
fn advance_leaves_layer() {
    let mut m = Movement::new(1);
    let size = WorldSize { sx: 4, sy: 4, sz: 3 };
    let p = m.advance(Position::new(0, 3, 2), size, MoveKeys { up: false, left: false, down: true, right: true }, 1500);
    assert_eq!(p, Position::new(1, 3, 2));
    assert_eq!(m.delta(), (0, 0));
}
