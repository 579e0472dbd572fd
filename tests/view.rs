use layered_grid::compositor::{layer_weight, update_visibility, LayerWeight, FADE_OFFSET};
use layered_grid::geometry::{Entity, Position, WorldSettings, WorldSize};
use layered_grid::grid_world::GridWorld;
use layered_grid::layers::{LayerStore, TileCell};
use layered_grid::view::{UpdateViewLayerEvent, ViewController, ViewLayer, ViewMode, MAX_ZOOM, MIN_ZOOM};

#[test]
fn weight_is_zero_above_and_one_at_current() {
    for current in 0..6u32 {
        for z in 0..8u32 {
            let w = layer_weight(z, current);
            assert_eq!(w.denominator, (current + FADE_OFFSET) as u64);
            if z > current {
                assert!(w.is_hidden());
                assert_eq!(w.numerator, 0);
            }
            assert_eq!(w.is_full(), z == current);
        }
    }
}

#[test]
fn weight_grows_towards_current_layer() {
    let ws = update_visibility(6, 4);
    assert_eq!(ws.len(), 6);
    for z in 1..=4 {
        assert!(ws[z - 1].numerator <= ws[z].numerator);
    }
    assert_eq!(ws[0], LayerWeight { numerator: 5, denominator: 9 });
    assert_eq!(ws[3], LayerWeight { numerator: 8, denominator: 9 });
    assert_eq!(ws[4], LayerWeight { numerator: 9, denominator: 9 });
    assert_eq!(ws[5], LayerWeight { numerator: 0, denominator: 9 });
}

#[test]
fn scenario_four_by_four_by_two() {
    let settings = WorldSettings::new(WorldSize { sx: 4, sy: 4, sz: 2 }).unwrap();
    let mut world = GridWorld::new(settings);
    let mut store = LayerStore::new(settings);
    let e1 = Entity(1);
    let e2 = Entity(2);

    world.place(e1, Position::new(0, 0, 0)).unwrap();
    world.sync(&mut store);
    assert_eq!(store.get(Position::new(0, 0, 0)), TileCell::occupied());

    world.move_to(e1, Position::new(1, 0, 0)).unwrap();
    world.sync(&mut store);
    assert_eq!(store.get(Position::new(0, 0, 0)), TileCell::empty());
    assert_eq!(store.get(Position::new(1, 0, 0)), TileCell::occupied());

    world.place(e2, Position::new(0, 0, 1)).unwrap();
    world.sync(&mut store);
    let mut view = ViewController::new(2, ViewLayer(0));
    let ws = update_visibility(2, view.view_layer().0);
    assert_eq!(ws[1].numerator, 0);

    let changed = view.camera_control(1, false);
    assert_eq!(changed, Some(UpdateViewLayerEvent(1)));
    let ws = update_visibility(2, changed.unwrap().0);
    let k = FADE_OFFSET as u64;
    assert_eq!(ws[0], LayerWeight { numerator: k, denominator: 1 + k });
    assert!(ws[1].is_full());
}

#[test]
fn layer_scroll_clamps_and_reports_only_changes() {
    let mut view = ViewController::new(3, ViewLayer(1));
    assert_eq!(view.camera_control(1, false), Some(UpdateViewLayerEvent(2)));
    assert_eq!(view.camera_control(1, false), None);
    assert_eq!(view.view_layer(), ViewLayer(2));
    assert_eq!(view.camera_control(-5, false), Some(UpdateViewLayerEvent(0)));
    assert_eq!(view.camera_control(-1, false), None);
    assert_eq!(view.camera_control(0, false), None);
    assert_eq!(view.camera_control(2, false), Some(UpdateViewLayerEvent(2)));
    assert_eq!(view.state().mode, ViewMode::LayerScroll);
}

#[test]
fn modifier_turns_wheel_into_zoom() {
    let mut view = ViewController::new(3, ViewLayer(1));
    assert_eq!(view.camera_control(3, true), None);
    let s = view.state();
    assert_eq!(s.mode, ViewMode::Pan);
    assert_eq!(s.current_layer, 1);
    assert_eq!(s.zoom, -3);
    view.camera_control(-100, true);
    assert_eq!(view.state().zoom, MAX_ZOOM);
    view.camera_control(i32::MAX, true);
    assert_eq!(view.state().zoom, MIN_ZOOM);
    assert_eq!(view.camera_control(1, false), Some(UpdateViewLayerEvent(2)));
    assert_eq!(view.state().mode, ViewMode::LayerScroll);
    assert_eq!(view.state().zoom, MIN_ZOOM);
}

#[test]
fn zoom_bounds_are_one_over_128_and_128() {
    assert_eq!(2f64.powf(MIN_ZOOM as f64 / 2.0), 1.0 / 128.0);
    assert_eq!(2f64.powf(MAX_ZOOM as f64 / 2.0), 128.0);
}

#[test]
fn single_layer_view_never_moves() {
    let mut view = ViewController::new(1, ViewLayer(0));
    assert_eq!(view.camera_control(i32::MIN, false), None);
    assert_eq!(view.camera_control(i32::MAX, false), None);
    assert_eq!(view.view_layer(), ViewLayer(0));
}
