use vstd::prelude::*;
use crate::fixed::{Fixed, SCALE};
use crate::vec2::{FVec2, IVec2};

verus! {

/// The placement of the grid in the world: the world coordinates are first scaled by
/// `cell_size` and then moved by `offset` to give grid coordinates.
#[derive(Debug, Clone, Copy, PartialEq, Eq, Structural)]
pub struct Grid {
    pub cell_size: FVec2,
    pub offset: FVec2,
}

impl Grid {
    /// The grid coordinates, not yet rounded, of a point of the world.
    pub open spec fn spec_transform(&self, world_pos: FVec2) -> FVec2 {
        self.cell_size.spec_mul(world_pos).spec_add(self.offset)
    }

    /// The point of the world that lies at the given grid coordinates.
    pub open spec fn spec_grid_to_world(&self, grid_pos: IVec2) -> FVec2 {
        grid_pos.spec_to_fixed().spec_sub(self.offset).spec_div(self.cell_size)
    }

    /// The cell that a point of the world lies in, and where in the cell: cells are
    /// centred on whole grid coordinates.
    pub open spec fn spec_world_to_grid(&self, world_pos: FVec2) -> (IVec2, FVec2) {
        let half = Fixed { raw: 500_000 };
        let shifted = self.spec_transform(world_pos).spec_add(FVec2 { x: half, y: half });
        (
            IVec2 { x: shifted.x.spec_floor_int() as i64, y: shifted.y.spec_floor_int() as i64 },
            FVec2 { x: shifted.x.spec_fract(), y: shifted.y.spec_fract() },
        )
    }

    /// The grid coordinates, not yet rounded, of a point of the world.
    pub fn transform(&self, world_pos: FVec2) -> (r: FVec2)
        ensures
            r == self.spec_transform(world_pos),
    {
        self.cell_size.mul(world_pos).add(self.offset)
    }

    pub fn grid_to_world(&self, grid_pos: IVec2) -> (r: FVec2)
        ensures
            r == self.spec_grid_to_world(grid_pos),
    {
        grid_pos.to_fixed().sub(self.offset).div(self.cell_size)
    }

    /// Returns the grid position and an in-cell offset from the cell pos to `world_pos`.
    pub fn world_to_grid(&self, world_pos: FVec2) -> (r: (IVec2, FVec2))
        ensures
            r == self.spec_world_to_grid(world_pos),
    {
        let half = Fixed::from_raw(SCALE / 2);
        let shifted = self.transform(world_pos).add(FVec2::new(half, half));
        (
            IVec2::new(shifted.x.floor_int(), shifted.y.floor_int()),
            FVec2::new(shifted.x.fract(), shifted.y.fract()),
        )
    }
}

impl Default for Grid {
    /// Cells of size one, with no offset.
    fn default() -> (r: Self)
        ensures
            r == (Grid {
                cell_size: FVec2 { x: Fixed { raw: SCALE }, y: Fixed { raw: SCALE } },
                offset: FVec2::spec_zero(),
            }),
    {
        Self { cell_size: FVec2::new(Fixed::one(), Fixed::one()), offset: FVec2::zero() }
    }
}

} // verus!
