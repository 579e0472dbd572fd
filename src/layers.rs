use vstd::prelude::*;
use crate::geometry::{cell_index, in_bounds, index_of, Position, WorldSettings, WorldSize};

verus! {

/// An RGBA colour, one byte per channel.
#[derive(Clone, Copy, Debug, PartialEq, Eq, Structural, Hash)]
pub struct Color {
    pub r: u8,
    pub g: u8,
    pub b: u8,
    pub a: u8,
}

pub open spec fn transparent() -> Color {
    Color { r: 0, g: 0, b: 0, a: 0 }
}

pub open spec fn pink() -> Color {
    Color { r: 255, g: 20, b: 147, a: 255 }
}

impl Color {
    /// Fully transparent.
    pub fn none() -> (c: Color)
        ensures
            c == transparent(),
    {
        Color { r: 0, g: 0, b: 0, a: 0 }
    }

    /// The colour an occupied cell is drawn in.
    pub fn pink() -> (c: Color)
        ensures
            c == pink(),
    {
        Color { r: 255, g: 20, b: 147, a: 255 }
    }
}

/// Glyph of a cell with nothing in it (a space).
pub const EMPTY_GLYPH: u32 = 32;

/// Glyph of a cell that holds an entity (`@`).
pub const OCCUPIED_GLYPH: u32 = 64;

/// The smallest unit drawn: a glyph code point on a background.
#[derive(Clone, Copy, Debug, PartialEq, Eq, Structural, Hash)]
pub struct TileCell {
    pub glyph: u32,
    pub foreground: Color,
    pub background: Color,
}

pub open spec fn empty_cell() -> TileCell {
    TileCell { glyph: EMPTY_GLYPH, foreground: transparent(), background: transparent() }
}

pub open spec fn occupied_cell() -> TileCell {
    TileCell { glyph: OCCUPIED_GLYPH, foreground: pink(), background: transparent() }
}

impl TileCell {
    pub fn empty() -> (c: TileCell)
        ensures
            c == empty_cell(),
    {
        TileCell { glyph: EMPTY_GLYPH, foreground: Color::none(), background: Color::none() }
    }

    pub fn occupied() -> (c: TileCell)
        ensures
            c == occupied_cell(),
    {
        TileCell { glyph: OCCUPIED_GLYPH, foreground: Color::pink(), background: Color::none() }
    }
}

/// One layer of the world as a row-major grid of cells.
pub struct LayerBuffer {
    width: u32,
    height: u32,
    cells: Vec<TileCell>,
}

impl View for LayerBuffer {
    type V = Seq<TileCell>;

    closed spec fn view(&self) -> Seq<TileCell> {
        self.cells@
    }
}

impl LayerBuffer {
    pub closed spec fn spec_width(&self) -> u32 {
        self.width
    }

    pub closed spec fn spec_height(&self) -> u32 {
        self.height
    }

    pub open spec fn wf(&self) -> bool {
        &&& self@.len() == self.spec_width() as int * self.spec_height() as int
        &&& self@.len() <= usize::MAX
    }

    /// A `width` by `height` layer with every cell empty.
    pub fn new(width: u32, height: u32) -> (r: LayerBuffer)
        requires
            width as int * height as int <= usize::MAX,
        ensures
            r.wf(),
            r.spec_width() == width,
            r.spec_height() == height,
            r@ == Seq::new(r@.len(), |i: int| empty_cell()),
    {
        let n: usize = width as usize * height as usize;
        let mut cells: Vec<TileCell> = Vec::with_capacity(n);
        let mut i: usize = 0;
        while i < n
            invariant
                i <= n,
                cells@.len() == i,
                forall|j: int| 0 <= j < i ==> cells@[j] == empty_cell(),
            decreases n - i,
        {
            cells.push(TileCell::empty());
            i = i + 1;
        }
        let r = LayerBuffer { width, height, cells };
        assert(r@ =~= Seq::new(r@.len(), |i: int| empty_cell()));
        r
    }

    pub fn width(&self) -> (r: u32)
        ensures
            r == self.spec_width(),
    {
        self.width
    }

    pub fn height(&self) -> (r: u32)
        ensures
            r == self.spec_height(),
    {
        self.height
    }

    /// The cell at column `x`, row `y`.
    pub fn get(&self, x: u32, y: u32) -> (c: TileCell)
        requires
            self.wf(),
            x < self.spec_width(),
            y < self.spec_height(),
        ensures
            c == self@[cell_index(self.spec_width(), x, y)],
    {
        let i = index_of(self.width, self.height, x, y);
        self.cells[i]
    }

    /// Overwrites the cell at column `x`, row `y`, and no other.
    pub fn set(&mut self, x: u32, y: u32, cell: TileCell)
        requires
            old(self).wf(),
            x < old(self).spec_width(),
            y < old(self).spec_height(),
        ensures
            final(self).wf(),
            final(self).spec_width() == old(self).spec_width(),
            final(self).spec_height() == old(self).spec_height(),
            final(self)@ == old(self)@.update(cell_index(old(self).spec_width(), x, y), cell),
    {
        let i = index_of(self.width, self.height, x, y);
        self.cells.set(i, cell);
    }
}

/// The layers as sequences of cells, indexed by z.
pub type LayersView = Seq<Seq<TileCell>>;

/// The cell of `layers` at position `p` of a world of extent `size`.
pub open spec fn tile_at(layers: LayersView, size: WorldSize, p: Position) -> TileCell {
    layers[p.z as int][cell_index(size.sx, p.x, p.y)]
}

/// `layers` with the cell at `p` replaced by `cell`.
pub open spec fn put_tile(layers: LayersView, size: WorldSize, p: Position, cell: TileCell) -> LayersView {
    layers.update(p.z as int, layers[p.z as int].update(cell_index(size.sx, p.x, p.y), cell))
}

/// `layers` has the shape of a world of extent `size`.
pub open spec fn layers_fit(layers: LayersView, size: WorldSize) -> bool {
    &&& layers.len() == size.sz
    &&& forall|z: int| 0 <= z < layers.len() ==> #[trigger] layers[z].len() == size.layer_len()
}

/// One tile buffer for each layer of the world.
pub struct LayerStore {
    size: WorldSize,
    layers: Vec<LayerBuffer>,
}

impl View for LayerStore {
    type V = LayersView;

    closed spec fn view(&self) -> LayersView {
        Seq::new(self.layers@.len(), |z: int| self.layers@[z]@)
    }
}

impl LayerStore {
    pub closed spec fn spec_size(&self) -> WorldSize {
        self.size
    }

    pub closed spec fn wf(&self) -> bool {
        &&& self.layers@.len() == self.size.sz
        &&& self.size.layer_len() <= usize::MAX
        &&& forall|z: int|
            0 <= z < self.layers@.len() ==> {
                &&& (#[trigger] self.layers@[z]).wf()
                &&& self.layers@[z].spec_width() == self.size.sx
                &&& self.layers@[z].spec_height() == self.size.sy
            }
    }

    pub proof fn lemma_wf_fits(&self)
        requires
            self.wf(),
        ensures
            layers_fit(self@, self.spec_size()),
            self.spec_size().layer_len() <= usize::MAX,
    {
        assert forall|z: int| 0 <= z < self@.len() implies #[trigger] self@[z].len()
            == self.spec_size().layer_len() by {
            assert(self.layers@[z].wf());
        }
    }

    /// One empty layer for every z of the world.
    pub fn new(settings: WorldSettings) -> (r: LayerStore)
        requires
            settings.size.layer_len() <= usize::MAX,
        ensures
            r.wf(),
            r.spec_size() == settings.size,
            layers_fit(r@, settings.size),
            forall|p: Position|
                in_bounds(p, settings.size) ==> #[trigger] tile_at(r@, settings.size, p) == empty_cell(),
    {
        let size = settings.size;
        let mut layers: Vec<LayerBuffer> = Vec::new();
        let mut z: u32 = 0;
        while z < size.sz
            invariant
                z <= size.sz,
                layers@.len() == z,
                size.layer_len() <= usize::MAX,
                forall|k: int|
                    0 <= k < z ==> {
                        &&& (#[trigger] layers@[k]).wf()
                        &&& layers@[k].spec_width() == size.sx
                        &&& layers@[k].spec_height() == size.sy
                        &&& layers@[k]@ == Seq::new(size.layer_len(), |i: int| empty_cell())
                    },
            decreases size.sz - z,
        {
            layers.push(LayerBuffer::new(size.sx, size.sy));
            z = z + 1;
        }
        let r = LayerStore { size, layers };
        proof {
            r.lemma_wf_fits();
            assert forall|p: Position| in_bounds(p, size) implies #[trigger] tile_at(r@, size, p)
                == empty_cell() by {
                crate::geometry::lemma_cell_index_in_layer(size.sx, size.sy, p.x, p.y);
                assert(r.layers@[p.z as int]@ == Seq::new(size.layer_len(), |i: int| empty_cell()));
            }
        }
        r
    }

    pub fn size(&self) -> (r: WorldSize)
        ensures
            r == self.spec_size(),
    {
        self.size
    }

    /// The buffer of layer `z`.
    pub fn layer(&self, z: u32) -> (r: &LayerBuffer)
        requires
            self.wf(),
            z < self.spec_size().sz,
        ensures
            r.wf(),
            r.spec_width() == self.spec_size().sx,
            r.spec_height() == self.spec_size().sy,
            r@ == self@[z as int],
    {
        &self.layers[z as usize]
    }

    /// The cell at `p`.
    pub fn get(&self, p: Position) -> (c: TileCell)
        requires
            self.wf(),
            in_bounds(p, self.spec_size()),
        ensures
            c == tile_at(self@, self.spec_size(), p),
    {
        self.layers[p.z as usize].get(p.x, p.y)
    }

    /// Overwrites the one cell of layer `z` at column `x`, row `y`.
    pub fn set_cell(&mut self, z: u32, x: u32, y: u32, cell: TileCell)
        requires
            old(self).wf(),
            in_bounds(Position { x, y, z }, old(self).spec_size()),
        ensures
            final(self).wf(),
            final(self).spec_size() == old(self).spec_size(),
            final(self)@ == put_tile(old(self)@, old(self).spec_size(), Position { x, y, z }, cell),
    {
        self.layers[z as usize].set(x, y, cell);
        proof {
            let p = Position { x, y, z };
            assert(self@ =~= put_tile(old(self)@, old(self).spec_size(), p, cell));
        }
    }
}

} // verus!
