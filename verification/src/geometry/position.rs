use vstd::prelude::*;

verus! {

/// The integer type of one grid coordinate.
pub type CoordsType = usize;

/// A cell's coordinates in the grid: grid indices, not pixels.
#[derive(Copy, Clone, Debug, Hash, PartialEq, Eq, Structural)]
pub struct Position {
    pub x: CoordsType,
    pub y: CoordsType,
    pub z: CoordsType,
}

impl Position {
    /// The position `(x, y, z)`.
    pub fn new(x: CoordsType, y: CoordsType, z: CoordsType) -> (p: Position)
        ensures
            p == (Position { x, y, z }),
    {
        Position { x, y, z }
    }

    /// Overwrites all three coordinates.
    pub fn set(&mut self, x: CoordsType, y: CoordsType, z: CoordsType)
        ensures
            *final(self) == (Position { x, y, z }),
    {
        self.x = x;
        self.y = y;
        self.z = z
    }

    /// Moves the position by `(dx, dy, dz)`.
    pub fn change_cords(&mut self, dx: CoordsType, dy: CoordsType, dz: CoordsType)
        requires
            old(self).x + dx <= CoordsType::MAX,
            old(self).y + dy <= CoordsType::MAX,
            old(self).z + dz <= CoordsType::MAX,
        ensures
            final(self).x == old(self).x + dx,
            final(self).y == old(self).y + dy,
            final(self).z == old(self).z + dz,
    {
        self.x += dx;
        self.y += dy;
        self.z += dz;
    }

    pub fn get_x(&self) -> (x: CoordsType)
        ensures
            x == self.x,
    {
        self.x
    }

    pub fn get_y(&self) -> (y: CoordsType)
        ensures
            y == self.y,
    {
        self.y
    }

    pub fn get_z(&self) -> (z: CoordsType)
        ensures
            z == self.z,
    {
        self.z
    }
}

} // verus!
