use vstd::prelude::*;
use crate::geometry::{in_bounds, Entity, Position, WorldSize};
use crate::grid_world::{follows, move_outcome, GridWorld, PlacementError};

verus! {

/// Movement is accumulated in thousandths of a cell.
pub const SUBSTEPS_PER_CELL: i64 = 1000;

/// Direction keys held during a frame.
#[derive(Clone, Copy, Debug, PartialEq, Eq, Structural)]
pub struct MoveKeys {
    /// Towards smaller `y`.
    pub up: bool,
    /// Towards smaller `x`.
    pub left: bool,
    /// Towards larger `y`.
    pub down: bool,
    /// Towards larger `x`.
    pub right: bool,
}

/// `amount` in the direction that the two keys give: `plus` adds, `minus` takes away.
pub open spec fn key_delta(minus: bool, plus: bool, amount: u32) -> int {
    (if plus { amount as int } else { 0 }) - (if minus { amount as int } else { 0 })
}

/// One axis of a step: a delta of at least one whole cell moves the coordinate by its
/// whole cells, held to `[0, extent - 1]`, and is used up; a smaller one is kept.
/// Yields the new coordinate and the delta left over.
pub open spec fn axis_step(coord: u32, delta: int, extent: u32) -> (u32, int) {
    if delta >= SUBSTEPS_PER_CELL {
        let c = coord + delta / (SUBSTEPS_PER_CELL as int);
        (if c > extent - 1 { (extent - 1) as u32 } else { c as u32 }, 0)
    } else if delta <= -SUBSTEPS_PER_CELL {
        let c = coord - (-delta) / (SUBSTEPS_PER_CELL as int);
        (if c < 0 { 0 } else { c as u32 }, 0)
    } else {
        (coord, delta)
    }
}

/// Accumulated movement of one entity, in sub-cell units.
pub struct Movement {
    /// Sub-cell units gained per second while a key is held.
    speed: u32,
    dx: i64,
    dy: i64,
}

impl Movement {
    pub closed spec fn spec_speed(&self) -> u32 {
        self.speed
    }

    pub closed spec fn spec_dx(&self) -> int {
        self.dx as int
    }

    pub closed spec fn spec_dy(&self) -> int {
        self.dy as int
    }

    /// Less than one cell is held on each axis.
    pub open spec fn wf(&self) -> bool {
        &&& -SUBSTEPS_PER_CELL < self.spec_dx() < SUBSTEPS_PER_CELL
        &&& -SUBSTEPS_PER_CELL < self.spec_dy() < SUBSTEPS_PER_CELL
    }

    pub fn new(speed: u32) -> (r: Movement)
        ensures
            r.wf(),
            r.spec_speed() == speed,
            r.spec_dx() == 0,
            r.spec_dy() == 0,
    {
        Movement { speed, dx: 0, dy: 0 }
    }

    pub fn speed(&self) -> (r: u32)
        ensures
            r == self.spec_speed(),
    {
        self.speed
    }

    pub fn delta(&self) -> (r: (i64, i64))
        ensures
            r.0 == self.spec_dx(),
            r.1 == self.spec_dy(),
    {
        (self.dx, self.dy)
    }

    /// Adds `amount` for each held key, then turns whole cells into a step from `pos`
    /// that stays inside `size`. Returns the position reached.
    pub fn advance(&mut self, pos: Position, size: WorldSize, keys: MoveKeys, amount: u32) -> (r: Position)
        requires
            old(self).wf(),
            in_bounds(pos, size),
        ensures
            final(self).wf(),
            final(self).spec_speed() == old(self).spec_speed(),
            in_bounds(r, size),
            r.z == pos.z,
            (r.x, final(self).spec_dx()) == axis_step(
                pos.x,
                old(self).spec_dx() + key_delta(keys.left, keys.right, amount),
                size.sx,
            ),
            (r.y, final(self).spec_dy()) == axis_step(
                pos.y,
                old(self).spec_dy() + key_delta(keys.up, keys.down, amount),
                size.sy,
            ),
    {
        let a = amount as i64;
        let mut dx = self.dx;
        let mut dy = self.dy;
        if keys.up {
            dy = dy - a;
        }
        if keys.left {
            dx = dx - a;
        }
        if keys.down {
            dy = dy + a;
        }
        if keys.right {
            dx = dx + a;
        }
        let (x, rest_x) = step_axis(pos.x, dx, size.sx);
        let (y, rest_y) = step_axis(pos.y, dy, size.sy);
        self.dx = rest_x;
        self.dy = rest_y;
        Position { x, y, z: pos.z }
    }
}

/// Executable form of `axis_step`.
fn step_axis(coord: u32, delta: i64, extent: u32) -> (r: (u32, i64))
    requires
        coord < extent,
        delta > i64::MIN,
    ensures
        (r.0, r.1 as int) == axis_step(coord, delta as int, extent),
        r.0 < extent,
        -SUBSTEPS_PER_CELL < r.1 < SUBSTEPS_PER_CELL,
{
    if delta >= SUBSTEPS_PER_CELL {
        let cells = (delta / SUBSTEPS_PER_CELL) as u64;
        let room = (extent - 1 - coord) as u64;
        let c = if cells > room {
            extent - 1
        } else {
            coord + cells as u32
        };
        (c, 0)
    } else if delta <= -SUBSTEPS_PER_CELL {
        let cells = ((-delta) / SUBSTEPS_PER_CELL) as u64;
        let c = if cells > coord as u64 {
            0
        } else {
            coord - cells as u32
        };
        (c, 0)
    } else {
        (coord, delta)
    }
}

/// One frame of steering for a placed entity: `amount` sub-cell units for each held key
/// are added to its movement, whole cells become a step held inside the world, and the
/// entity is moved there. An unplaced entity is refused and nothing changes.
pub fn apply_movement_input(
    world: &mut GridWorld,
    entity: Entity,
    movement: &mut Movement,
    keys: MoveKeys,
    amount: u32,
) -> (r: Result<(), PlacementError>)
    requires
        old(world).wf(),
        old(movement).wf(),
    ensures
        final(world).wf(),
        final(movement).wf(),
        final(movement).spec_speed() == old(movement).spec_speed(),
        !old(world)@.positions.contains_key(entity.0) ==> {
            &&& r == Err::<(), PlacementError>(PlacementError::NotPlaced)
            &&& final(world)@ == old(world)@
            &&& *final(movement) == *old(movement)
        },
        old(world)@.positions.contains_key(entity.0) ==> {
            let pos = old(world)@.positions[entity.0];
            let size = old(world)@.size;
            let (x, dx) = axis_step(
                pos.x,
                old(movement).spec_dx() + key_delta(keys.left, keys.right, amount),
                size.sx,
            );
            let (y, dy) = axis_step(
                pos.y,
                old(movement).spec_dy() + key_delta(keys.up, keys.down, amount),
                size.sy,
            );
            &&& final(movement).spec_dx() == dx
            &&& final(movement).spec_dy() == dy
            &&& follows(
                move_outcome(old(world)@, entity, Position { x, y, z: pos.z }),
                old(world)@,
                r,
                final(world)@,
            )
            &&& r is Ok
        },
{
    let pos = match world.position(entity) {
        Some(p) => p,
        None => {
            return Err(PlacementError::NotPlaced);
        },
    };
    let size = world.settings().size;
    let target = movement.advance(pos, size, keys, amount);
    world.move_to(entity, target)
}

} // verus!
