use vstd::prelude::*;

verus! {

/// The layer a camera looks at.
#[derive(Clone, Copy, Debug, PartialEq, Eq, Structural)]
pub struct ViewLayer(pub u32);

/// The view moved to the given layer.
#[derive(Clone, Copy, Debug, PartialEq, Eq, Structural)]
pub struct UpdateViewLayerEvent(pub u32);

/// How wheel input is read.
#[derive(Clone, Copy, Debug, PartialEq, Eq, Structural)]
pub enum ViewMode {
    /// The wheel zooms the camera; the layer stays.
    Pan,
    /// The wheel steps through the layers.
    LayerScroll,
}

/// Zoom is kept in half powers of two: the camera scale is `2^(zoom / 2)`.
/// These bound the scale to `[1/128, 128]`.
pub const MIN_ZOOM: i32 = -14;

pub const MAX_ZOOM: i32 = 14;

/// The observer's state as the compositor and overlays read it.
#[derive(Clone, Copy, Debug, PartialEq, Eq, Structural)]
pub struct ViewState {
    pub current_layer: u32,
    pub mode: ViewMode,
    pub zoom: i32,
}

pub open spec fn clamp(v: int, lo: int, hi: int) -> int {
    if v < lo {
        lo
    } else if v > hi {
        hi
    } else {
        v
    }
}

/// The layer reached from `current` by `ticks` whole wheel ticks, held to `[0, depth - 1]`.
pub open spec fn scrolled_layer(current: u32, ticks: i32, depth: u32) -> u32 {
    clamp(current + ticks, 0, depth - 1) as u32
}

/// The zoom after `ticks` wheel ticks: each tick halves the scale's square root.
pub open spec fn zoomed(zoom: i32, ticks: i32) -> i32 {
    clamp(zoom - ticks, MIN_ZOOM as int, MAX_ZOOM as int) as i32
}

/// The state after one frame of input, with the event it raises.
pub open spec fn view_step(s: ViewState, depth: u32, ticks: i32, modifier_held: bool) -> (
    ViewState,
    Option<UpdateViewLayerEvent>,
) {
    if modifier_held {
        (ViewState { mode: ViewMode::Pan, zoom: zoomed(s.zoom, ticks), ..s }, None)
    } else {
        let layer = scrolled_layer(s.current_layer, ticks, depth);
        (
            ViewState { current_layer: layer, mode: ViewMode::LayerScroll, ..s },
            if layer != s.current_layer {
                Some(UpdateViewLayerEvent(layer))
            } else {
                None
            },
        )
    }
}

/// Tracks which layer the observer is on and how the wheel is read.
pub struct ViewController {
    state: ViewState,
    depth: u32,
}

impl ViewController {
    pub closed spec fn spec_state(&self) -> ViewState {
        self.state
    }

    /// Number of layers the view can reach.
    pub closed spec fn spec_depth(&self) -> u32 {
        self.depth
    }

    pub open spec fn wf(&self) -> bool {
        &&& self.spec_depth() >= 1
        &&& self.spec_state().current_layer < self.spec_depth()
        &&& MIN_ZOOM <= self.spec_state().zoom <= MAX_ZOOM
    }

    /// A view of a world `depth` layers deep, on layer `start`, at scale 1, scrolling layers.
    pub fn new(depth: u32, start: ViewLayer) -> (r: ViewController)
        requires
            start.0 < depth,
        ensures
            r.wf(),
            r.spec_depth() == depth,
            r.spec_state() == (ViewState { current_layer: start.0, mode: ViewMode::LayerScroll, zoom: 0 }),
    {
        ViewController {
            state: ViewState { current_layer: start.0, mode: ViewMode::LayerScroll, zoom: 0 },
            depth,
        }
    }

    pub fn state(&self) -> (r: ViewState)
        ensures
            r == self.spec_state(),
    {
        self.state
    }

    /// The layer being looked at.
    pub fn view_layer(&self) -> (r: ViewLayer)
        ensures
            r == ViewLayer(self.spec_state().current_layer),
    {
        ViewLayer(self.state.current_layer)
    }

    /// Reads one frame of wheel input. With the modifier held the wheel zooms;
    /// otherwise each tick steps one layer, and a change of layer is announced.
    pub fn camera_control(&mut self, ticks: i32, modifier_held: bool) -> (r: Option<UpdateViewLayerEvent>)
        requires
            old(self).wf(),
        ensures
            final(self).wf(),
            final(self).spec_depth() == old(self).spec_depth(),
            (final(self).spec_state(), r) == view_step(
                old(self).spec_state(),
                old(self).spec_depth(),
                ticks,
                modifier_held,
            ),
    {
        if modifier_held {
            let z = self.state.zoom as i64 - ticks as i64;
            let z = if z < MIN_ZOOM as i64 {
                MIN_ZOOM as i64
            } else if z > MAX_ZOOM as i64 {
                MAX_ZOOM as i64
            } else {
                z
            };
            self.state.mode = ViewMode::Pan;
            self.state.zoom = z as i32;
            None
        } else {
            let old_layer = self.state.current_layer;
            let top = self.depth as i64 - 1;
            let l = old_layer as i64 + ticks as i64;
            let l = if l < 0 {
                0
            } else if l > top {
                top
            } else {
                l
            };
            self.state.mode = ViewMode::LayerScroll;
            self.state.current_layer = l as u32;
            if l as u32 != old_layer {
                Some(UpdateViewLayerEvent(l as u32))
            } else {
                None
            }
        }
    }
}

} // verus!
