use vstd::prelude::*;
use crate::geometry::position::Position;
use crate::objects::game_object::GameObjectID;
use crate::objects::area::errors::{AreaError, FoundObjectWhileInserting, PositionOutOfRange};

pub mod errors;

verus! {

/// What a grid is, mathematically: its three extents and the cells that hold an
/// object. A position that is no key of `cells` is an empty cell.
pub struct AreaView {
    pub sx: usize,
    pub sy: usize,
    pub sz: usize,
    pub cells: Map<Position, GameObjectID>,
}

impl AreaView {
    /// The grid of the given extents with every cell empty.
    pub open spec fn empty(sx: usize, sy: usize, sz: usize) -> AreaView {
        AreaView { sx, sy, sz, cells: Map::empty() }
    }

    /// Every coordinate of `pos` is below the extent on its axis.
    pub open spec fn in_bounds(self, pos: Position) -> bool {
        pos.x < self.sx && pos.y < self.sy && pos.z < self.sz
    }

    /// No cell outside the extents holds anything.
    pub open spec fn wf(self) -> bool {
        forall|pos: Position| #[trigger] self.cells.contains_key(pos) ==> self.in_bounds(pos)
    }

    /// What the cell at `pos` holds.
    pub open spec fn cell(self, pos: Position) -> Option<GameObjectID> {
        if self.cells.contains_key(pos) {
            Some(self.cells[pos])
        } else {
            None
        }
    }

    /// The grid after the cell at `pos` was overwritten with `id`.
    pub open spec fn with_cell(self, pos: Position, id: Option<GameObjectID>) -> AreaView {
        AreaView {
            cells: match id {
                Some(i) => self.cells.insert(pos, i),
                None => self.cells.remove(pos),
            },
            ..self
        }
    }

    /// The grid after the contents of the cells at `p1` and `p2` were exchanged.
    pub open spec fn swapped(self, p1: Position, p2: Position) -> AreaView {
        self.with_cell(p1, self.cell(p2)).with_cell(p2, self.cell(p1))
    }

    /// The grid with new extents: a cell inside both the old and the new extents
    /// keeps what it held, every other cell is empty.
    pub open spec fn resized(self, sx: usize, sy: usize, sz: usize) -> AreaView {
        AreaView {
            sx,
            sy,
            sz,
            cells: self.cells.restrict(
                Set::new(|pos: Position| pos.x < sx && pos.y < sy && pos.z < sz),
            ),
        }
    }
}

/// A finite three-dimensional grid of cells, each empty or holding one object
/// identifier, addressed as `[z][y][x]`.
pub struct Area {
    sx: usize,
    sy: usize,
    sz: usize,
    area: Vec<Vec<Vec<Option<GameObjectID>>>>,
}

impl View for Area {
    type V = AreaView;

    closed spec fn view(&self) -> AreaView {
        AreaView {
            sx: self.sx,
            sy: self.sy,
            sz: self.sz,
            cells: Map::new(
                |pos: Position| self.holds(pos),
                |pos: Position| self.area[pos.z as int][pos.y as int][pos.x as int].unwrap(),
            ),
        }
    }
}

fn empty_row(sx: usize) -> (row: Vec<Option<GameObjectID>>)
    ensures
        row.len() == sx,
        forall|x: int| 0 <= x < sx ==> #[trigger] row[x] is None,
{
    let mut row: Vec<Option<GameObjectID>> = Vec::new();
    let mut x: usize = 0;
    while x < sx
        invariant
            x <= sx,
            row.len() == x,
            forall|i: int| 0 <= i < x ==> #[trigger] row[i] is None,
        decreases sx - x,
    {
        row.push(None);
        x += 1;
    }
    row
}

impl Area {
    /// The nested vectors have the lengths that the extents say.
    pub closed spec fn wf(&self) -> bool {
        &&& self.area.len() == self.sz
        &&& forall|z: int| 0 <= z < self.sz ==> (#[trigger] self.area[z]).len() == self.sy
        &&& forall|z: int, y: int|
            0 <= z < self.sz && 0 <= y < self.sy ==> (#[trigger] self.area[z][y]).len() == self.sx
    }

    spec fn holds(&self, pos: Position) -> bool {
        &&& pos.x < self.sx
        &&& pos.y < self.sy
        &&& pos.z < self.sz
        &&& self.area[pos.z as int][pos.y as int][pos.x as int] is Some
    }

    /// The cells that hold an object all lie inside the extents.
    pub proof fn lemma_cells_in_bounds(&self)
        ensures
            self@.wf(),
    {
    }

    /// A grid of `sx * sy * sz` empty cells.
    pub fn new(sx: usize, sy: usize, sz: usize) -> (a: Area)
        ensures
            a.wf(),
            a@ == AreaView::empty(sx, sy, sz),
    {
        let mut area: Vec<Vec<Vec<Option<GameObjectID>>>> = Vec::new();
        let mut z: usize = 0;
        while z < sz
            invariant
                z <= sz,
                area.len() == z,
                forall|k: int| 0 <= k < z ==> (#[trigger] area[k]).len() == sy,
                forall|k: int, j: int|
                    0 <= k < z && 0 <= j < sy ==> (#[trigger] area[k][j]).len() == sx,
                forall|k: int, j: int, i: int|
                    0 <= k < z && 0 <= j < sy && 0 <= i < sx ==> (#[trigger] area[k][j][i]) is None,
            decreases sz - z,
        {
            let mut layer: Vec<Vec<Option<GameObjectID>>> = Vec::new();
            let mut y: usize = 0;
            while y < sy
                invariant
                    y <= sy,
                    layer.len() == y,
                    forall|j: int| 0 <= j < y ==> (#[trigger] layer[j]).len() == sx,
                    forall|j: int, i: int|
                        0 <= j < y && 0 <= i < sx ==> (#[trigger] layer[j][i]) is None,
                decreases sy - y,
            {
                layer.push(empty_row(sx));
                y += 1;
            }
            area.push(layer);
            z += 1;
        }
        let a = Area { sx, sy, sz, area };
        assert(a@.cells =~= Map::<Position, GameObjectID>::empty());
        a
    }

    pub fn get_size_x(&self) -> (sx: usize)
        ensures
            sx == self@.sx,
    {
        self.sx
    }

    pub fn get_size_y(&self) -> (sy: usize)
        ensures
            sy == self@.sy,
    {
        self.sy
    }

    pub fn get_size_z(&self) -> (sz: usize)
        ensures
            sz == self@.sz,
    {
        self.sz
    }

    /// Empties the cell at `(x, y, z)` and returns what it held.
    pub fn remove(&mut self, x: usize, y: usize, z: usize) -> (id: Option<GameObjectID>)
        requires
            old(self).wf(),
            old(self)@.in_bounds(Position { x, y, z }),
        ensures
            final(self).wf(),
            id == old(self)@.cell(Position { x, y, z }),
            final(self)@ == old(self)@.with_cell(Position { x, y, z }, None),
    {
        let id = self.area[z][y][x];
        self.set_pos(Position { x, y, z }, None);
        id
    }

    /// Whether `pos` addresses a cell of the grid.
    pub fn check_pos_boundaries(&self, pos: &Position) -> (inside: bool)
        ensures
            inside == self@.in_bounds(*pos),
    {
        pos.x < self.sx && pos.y < self.sy && pos.z < self.sz
    }

    /// What the cell at `pos` holds.
    pub fn get_pos(&self, pos: &Position) -> (id: &Option<GameObjectID>)
        requires
            self.wf(),
            self@.in_bounds(*pos),
        ensures
            *id == self@.cell(*pos),
    {
        &self.area[pos.z][pos.y][pos.x]
    }

    /// What the cell at `(x, y, z)` holds.
    pub fn get(&self, x: usize, y: usize, z: usize) -> (id: &Option<GameObjectID>)
        requires
            self.wf(),
            self@.in_bounds(Position { x, y, z }),
        ensures
            *id == self@.cell(Position { x, y, z }),
    {
        &self.area[z][y][x]
    }

    /// Exchanges the contents of the two cells.
    pub fn swap_objects(&mut self, old_pos: Position, new_pos: Position)
        requires
            old(self).wf(),
            old(self)@.in_bounds(old_pos),
            old(self)@.in_bounds(new_pos),
        ensures
            final(self).wf(),
            final(self)@ == old(self)@.swapped(old_pos, new_pos),
    {
        let first = self.area[old_pos.z][old_pos.y][old_pos.x];
        let second = self.area[new_pos.z][new_pos.y][new_pos.x];
        self.set_pos(old_pos, second);
        self.set_pos(new_pos, first);
    }

    /// Overwrites the cell at `pos`, whatever it held.
    pub fn set_pos(&mut self, pos: Position, id: Option<GameObjectID>)
        requires
            old(self).wf(),
            old(self)@.in_bounds(pos),
        ensures
            final(self).wf(),
            final(self)@ == old(self)@.with_cell(pos, id),
    {
        self.area[pos.z][pos.y][pos.x] = id;
        assert(final(self)@.cells =~= old(self)@.with_cell(pos, id).cells);
    }

    /// Writes `id` into the cell at `pos` if the grid has that cell and, where
    /// `id` is an object, the cell is empty. A refused write changes nothing.
    pub fn try_set_pos(&mut self, pos: Position, id: Option<GameObjectID>) -> (r: Result<
        (),
        AreaError,
    >)
        requires
            old(self).wf(),
        ensures
            final(self).wf(),
            match r {
                Ok(()) => {
                    &&& old(self)@.in_bounds(pos)
                    &&& id is Some ==> old(self)@.cell(pos) is None
                    &&& final(self)@ == old(self)@.with_cell(pos, id)
                },
                Err(AreaError::OutOfRange(e)) => {
                    &&& !old(self)@.in_bounds(pos)
                    &&& e.pos == pos
                    &&& e.sizes.0 == old(self)@.sx
                    &&& e.sizes.1 == old(self)@.sy
                    &&& e.sizes.2 == old(self)@.sz
                    &&& *final(self) == *old(self)
                },
                Err(AreaError::Occupied(e)) => {
                    &&& old(self)@.in_bounds(pos)
                    &&& id is Some
                    &&& old(self)@.cell(pos) is Some
                    &&& e.0 == pos
                    &&& *final(self) == *old(self)
                },
            },
    {
        if self.check_pos_boundaries(&pos) {
            match id {
                None => {
                    self.set_pos(pos, id);
                    Ok(())
                },
                Some(_) => {
                    if self.get_pos(&pos).is_some() {
                        Err(AreaError::Occupied(FoundObjectWhileInserting(pos)))
                    } else {
                        self.set_pos(pos, id);
                        Ok(())
                    }
                },
            }
        } else {
            Err(AreaError::OutOfRange(PositionOutOfRange::new(pos, self)))
        }
    }

    /// Gives the grid new extents. A cell inside both the old and the new extents
    /// keeps what it held; what the other cells held is dropped.
    pub fn resize(&mut self, sx: usize, sy: usize, sz: usize)
        requires
            old(self).wf(),
        ensures
            final(self).wf(),
            final(self)@ == old(self)@.resized(sx, sy, sz),
    {
        let mut new_area: Vec<Vec<Vec<Option<GameObjectID>>>> = Vec::new();
        let mut z: usize = 0;
        while z < sz
            invariant
                self.wf(),
                z <= sz,
                new_area.len() == z,
                forall|k: int| 0 <= k < z ==> (#[trigger] new_area[k]).len() == sy,
                forall|k: int, j: int|
                    0 <= k < z && 0 <= j < sy ==> (#[trigger] new_area[k][j]).len() == sx,
                forall|k: int, j: int, i: int|
                    0 <= k < z && 0 <= j < sy && 0 <= i < sx ==> (#[trigger] new_area[k][j][i])
                        == self.carried(k, j, i),
            decreases sz - z,
        {
            let mut layer: Vec<Vec<Option<GameObjectID>>> = Vec::new();
            let mut y: usize = 0;
            while y < sy
                invariant
                    self.wf(),
                    z < sz,
                    y <= sy,
                    layer.len() == y,
                    forall|j: int| 0 <= j < y ==> (#[trigger] layer[j]).len() == sx,
                    forall|j: int, i: int|
                        0 <= j < y && 0 <= i < sx ==> (#[trigger] layer[j][i]) == self.carried(
                            z as int,
                            j,
                            i,
                        ),
                decreases sy - y,
            {
                let mut row: Vec<Option<GameObjectID>> = Vec::new();
                let mut x: usize = 0;
                while x < sx
                    invariant
                        self.wf(),
                        z < sz,
                        y < sy,
                        x <= sx,
                        row.len() == x,
                        forall|i: int|
                            0 <= i < x ==> (#[trigger] row[i]) == self.carried(
                                z as int,
                                y as int,
                                i,
                            ),
                    decreases sx - x,
                {
                    if z < self.sz && y < self.sy && x < self.sx {
                        row.push(self.area[z][y][x]);
                    } else {
                        row.push(None);
                    }
                    x += 1;
                }
                layer.push(row);
                y += 1;
            }
            new_area.push(layer);
            z += 1;
        }
        self.area = new_area;
        self.sx = sx;
        self.sy = sy;
        self.sz = sz;
        assert(final(self)@.cells =~= old(self)@.resized(sx, sy, sz).cells);
    }

    /// What the cell at `[z][y][x]` passes on to a grid of other extents: what it
    /// holds, if this grid has that cell, else nothing.
    spec fn carried(&self, z: int, y: int, x: int) -> Option<GameObjectID> {
        if 0 <= z < self.sz && 0 <= y < self.sy && 0 <= x < self.sx {
            self.area[z][y][x]
        } else {
            None
        }
    }
}

} // verus!
