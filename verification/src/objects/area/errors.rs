use vstd::prelude::*;
use crate::geometry::position::Position;
use crate::objects::area::Area;

verus! {

/// A position of which at least one coordinate reaches the grid's extent on its axis.
#[derive(Copy, Clone, Debug)]
pub struct PositionOutOfRange {
    pub pos: Position,
    pub sizes: (usize, usize, usize),
}

impl PositionOutOfRange {
    /// Records `pos` together with the extents of `area`.
    pub fn new(pos: Position, area: &Area) -> (e: Self)
        ensures
            e.pos == pos,
            e.sizes.0 == area@.sx,
            e.sizes.1 == area@.sy,
            e.sizes.2 == area@.sz,
    {
        PositionOutOfRange { pos, sizes: (area.get_size_x(), area.get_size_y(), area.get_size_z()) }
    }
}

/// The cell at the position already holds an object.
#[derive(Copy, Clone, Debug)]
pub struct FoundObjectWhileInserting(pub Position);

/// Why a checked write to a cell was refused.
#[derive(Copy, Clone, Debug)]
pub enum AreaError {
    /// A coordinate is outside the grid.
    OutOfRange(PositionOutOfRange),
    /// The cell is not empty.
    Occupied(FoundObjectWhileInserting),
}

} // verus!
