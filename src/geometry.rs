use vstd::prelude::*;

verus! {

/// An opaque entity identifier.
#[derive(Clone, Copy, Debug, PartialEq, Eq, Structural, Hash)]
pub struct Entity(pub u64);

/// A cell of the world grid: column `x`, row `y`, layer `z`.
#[derive(Clone, Copy, Debug, PartialEq, Eq, Structural, Hash)]
pub struct Position {
    pub x: u32,
    pub y: u32,
    pub z: u32,
}

impl Position {
    pub fn new(x: u32, y: u32, z: u32) -> (r: Position)
        ensures
            r == (Position { x, y, z }),
    {
        Position { x, y, z }
    }
}

/// The extent of the world along each axis.
#[derive(Clone, Copy, Debug, PartialEq, Eq, Structural, Hash)]
pub struct WorldSize {
    pub sx: u32,
    pub sy: u32,
    pub sz: u32,
}

/// `p` lies inside the box `[0, sx) x [0, sy) x [0, sz)`.
pub open spec fn in_bounds(p: Position, size: WorldSize) -> bool {
    p.x < size.sx && p.y < size.sy && p.z < size.sz
}

impl WorldSize {
    pub fn contains(&self, p: Position) -> (r: bool)
        ensures
            r == in_bounds(p, *self),
    {
        p.x < self.sx && p.y < self.sy && p.z < self.sz
    }

    /// Number of cells in one layer.
    pub open spec fn layer_len(self) -> nat {
        self.sx as nat * self.sy as nat
    }
}

/// The world's configuration, fixed once the world is made.
#[derive(Clone, Copy, Debug, PartialEq, Eq, Structural)]
pub struct WorldSettings {
    pub size: WorldSize,
}

/// Every axis has at least one cell.
pub open spec fn nonempty_size(size: WorldSize) -> bool {
    size.sx >= 1 && size.sy >= 1 && size.sz >= 1
}

impl WorldSettings {
    pub open spec fn wf(self) -> bool {
        nonempty_size(self.size)
    }

    /// Settings for a world of the given extent; `None` when an axis is empty.
    pub fn new(size: WorldSize) -> (r: Option<WorldSettings>)
        ensures
            r == (if nonempty_size(size) {
                Some(WorldSettings { size })
            } else {
                None
            }),
    {
        if size.sx >= 1 && size.sy >= 1 && size.sz >= 1 {
            Some(WorldSettings { size })
        } else {
            None
        }
    }
}

/// Extent of the default world along each axis.
pub const DEFAULT_EXTENT: u32 = 64;

impl Default for WorldSettings {
    fn default() -> (r: WorldSettings)
        ensures
            r.size == (WorldSize { sx: DEFAULT_EXTENT, sy: DEFAULT_EXTENT, sz: DEFAULT_EXTENT }),
            r.wf(),
    {
        WorldSettings { size: WorldSize { sx: DEFAULT_EXTENT, sy: DEFAULT_EXTENT, sz: DEFAULT_EXTENT } }
    }
}

/// Index of column `x`, row `y` in a row-major layer of width `width`.
pub open spec fn cell_index(width: u32, x: u32, y: u32) -> int {
    y as int * width as int + x as int
}

pub proof fn lemma_cell_index_in_layer(width: u32, height: u32, x: u32, y: u32)
    requires
        x < width,
        y < height,
    ensures
        0 <= cell_index(width, x, y) < width as int * height as int,
{
    assert((y as int) * (width as int) + (x as int) < (width as int) * (height as int)) by (nonlinear_arith)
        requires
            x < width,
            y < height,
    ;
    assert(0 <= (y as int) * (width as int)) by (nonlinear_arith);
}

/// Executable form of `cell_index` for a cell inside a `width` by `height` layer.
pub fn index_of(width: u32, height: u32, x: u32, y: u32) -> (r: usize)
    requires
        x < width,
        y < height,
        width as int * height as int <= usize::MAX,
    ensures
        r as int == cell_index(width, x, y),
        (r as int) < width as int * height as int,
{
    proof {
        lemma_cell_index_in_layer(width, height, x, y);
        assert((y as int) * (width as int) <= cell_index(width, x, y));
    }
    y as usize * width as usize + x as usize
}

} // verus!
