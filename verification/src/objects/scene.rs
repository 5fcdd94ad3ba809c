use vstd::prelude::*;
use rustc_hash::FxHashMap;
use crate::geometry::position::Position;
use crate::objects::area::{Area, AreaView};
use crate::objects::area::errors::{FoundObjectWhileInserting, PositionOutOfRange};
use crate::objects::game_object::{GameObject, GameObjectID};
use crate::table::{table_get, table_get_mut, table_insert, table_keys, table_new, table_remove};

verus! {

broadcast use vstd::std_specs::hash::group_hash_axioms;

/// Why a scene refused an operation.
#[derive(Copy, Clone, Debug)]
pub enum SceneError {
    /// A coordinate of the target position is outside the grid.
    OutOfRange(PositionOutOfRange),
    /// The target cell already holds an object.
    Occupied(FoundObjectWhileInserting),
    /// No object has the identifier.
    NotFound(GameObjectID),
}

/// What a scene is, mathematically: the grid, the objects by identifier, and the
/// identifier that the next new object gets.
pub struct SceneView {
    pub area: AreaView,
    pub objects: Map<GameObjectID, GameObject>,
    pub next_id: nat,
}

impl SceneView {
    /// The scene of the given extents that holds no object and has issued no identifier.
    pub open spec fn empty(sx: usize, sy: usize, sz: usize) -> SceneView {
        SceneView { area: AreaView::empty(sx, sy, sz), objects: Map::empty(), next_id: 0 }
    }

    /// Every cell that holds an identifier names an object of the scene, and that
    /// object's position is the cell.
    pub open spec fn cells_name_objects(self) -> bool {
        forall|pos: Position| #[trigger]
            self.area.cells.contains_key(pos) ==> {
                &&& self.objects.contains_key(self.area.cells[pos])
                &&& self.objects[self.area.cells[pos]].pos == pos
            }
    }

    /// Every identifier in use was issued: it is below the counter.
    pub open spec fn ids_below_counter(self) -> bool {
        forall|id: GameObjectID| #[trigger] self.objects.contains_key(id) ==> id < self.next_id
    }

    /// What holds of a scene at all times, also while objects dangle after a
    /// plain `resize`.
    pub open spec fn wf(self) -> bool {
        &&& self.area.wf()
        &&& self.cells_name_objects()
        &&& self.ids_below_counter()
        &&& self.next_id <= GameObjectID::MAX
    }

    /// The object `id` has lost its cell: the cell at its position does not hold it.
    pub open spec fn dangling(self, id: GameObjectID) -> bool {
        self.objects.contains_key(id) && self.area.cell(self.objects[id].pos) != Some(id)
    }

    /// The scene at rest: no object dangles, the cell at each object's position
    /// holds exactly that object.
    pub open spec fn settled(self) -> bool {
        forall|id: GameObjectID| !self.dangling(id)
    }

    /// The object in the cell at `pos`, if the grid has that cell and it holds one.
    pub open spec fn object_at(self, pos: Position) -> Option<GameObject> {
        match self.area.cell(pos) {
            Some(id) => if self.objects.contains_key(id) {
                Some(self.objects[id])
            } else {
                None
            },
            None => None,
        }
    }

    /// `obj` can be added: the grid has the cell at its position and the cell is empty.
    pub open spec fn can_add(self, obj: GameObject) -> bool {
        self.area.in_bounds(obj.pos) && self.area.cell(obj.pos) is None
    }

    /// The scene after `obj` was added under the next identifier.
    pub open spec fn added(self, obj: GameObject) -> SceneView {
        SceneView {
            area: self.area.with_cell(obj.pos, Some(self.next_id as GameObjectID)),
            objects: self.objects.insert(self.next_id as GameObjectID, obj),
            next_id: self.next_id + 1,
        }
    }

    /// The grid without `id` in the cell at `pos`: emptied if the cell holds
    /// `id`, untouched if it holds nothing or another object.
    pub open spec fn vacated(self, id: GameObjectID, pos: Position) -> AreaView {
        if self.area.cell(pos) == Some(id) {
            self.area.with_cell(pos, None)
        } else {
            self.area
        }
    }

    /// The scene after the object `id` was removed; the same scene if there is
    /// no such object.
    pub open spec fn removed(self, id: GameObjectID) -> SceneView {
        if self.objects.contains_key(id) {
            SceneView {
                area: self.vacated(id, self.objects[id].pos),
                objects: self.objects.remove(id),
                ..self
            }
        } else {
            self
        }
    }

    /// The object `id` can move to `pos`: it exists, the grid has the cell, and
    /// the cell is empty or is the object's own.
    pub open spec fn can_move(self, id: GameObjectID, pos: Position) -> bool {
        &&& self.objects.contains_key(id)
        &&& self.area.in_bounds(pos)
        &&& (self.area.cell(pos) is None || self.area.cell(pos) == Some(id))
    }

    /// The scene after the object `id` moved to `pos`.
    pub open spec fn moved(self, id: GameObjectID, pos: Position) -> SceneView {
        SceneView {
            area: (AreaView { cells: self.vacated(id, self.objects[id].pos).cells, ..self.area })
                .with_cell(pos, Some(id)),
            objects: self.objects.insert(id, GameObject { pos, ..self.objects[id] }),
            ..self
        }
    }

    /// The scene after a plain resize: the grid has the new extents, the objects
    /// are untouched, so that those outside the new extents dangle.
    pub open spec fn resized(self, sx: usize, sy: usize, sz: usize) -> SceneView {
        SceneView { area: self.area.resized(sx, sy, sz), ..self }
    }

    /// The scene after a retaining resize: the grid has the new extents and the
    /// objects whose position is outside them are gone.
    pub open spec fn resized_retaining(self, sx: usize, sy: usize, sz: usize) -> SceneView {
        SceneView {
            area: self.area.resized(sx, sy, sz),
            objects: self.objects.restrict(
                Set::new(
                    |id: GameObjectID|
                        self.objects.contains_key(id) && self.objects[id].pos.x < sx
                            && self.objects[id].pos.y < sy && self.objects[id].pos.z < sz,
                ),
            ),
            ..self
        }
    }
}

impl SceneView {
    /// Adding an object keeps a valid scene valid, and a scene at rest at rest.
    pub proof fn lemma_added(self, obj: GameObject)
        requires
            self.wf(),
            self.can_add(obj),
            self.next_id < GameObjectID::MAX,
        ensures
            self.added(obj).wf(),
            self.settled() ==> self.added(obj).settled(),
    {
        let after = self.added(obj);
        let id = self.next_id as GameObjectID;
        assert forall|pos: Position| #[trigger] after.area.cells.contains_key(pos) implies {
            &&& after.objects.contains_key(after.area.cells[pos])
            &&& after.objects[after.area.cells[pos]].pos == pos
        } by {
            if pos != obj.pos {
                assert(self.area.cells.contains_key(pos));
            }
        }
        assert forall|i: GameObjectID| #[trigger] after.objects.contains_key(i) implies i
            < after.next_id by {
            if i != id {
                assert(self.objects.contains_key(i));
            }
        }
        assert forall|pos: Position| #[trigger] after.area.cells.contains_key(pos) implies after.area.in_bounds(pos) by {
            if pos != obj.pos {
                assert(self.area.cells.contains_key(pos));
            }
        }
        if self.settled() {
            assert forall|i: GameObjectID| !after.dangling(i) by {
                if i != id && after.objects.contains_key(i) {
                    assert(self.objects.contains_key(i));
                    assert(!self.dangling(i));
                }
            }
        }
    }

    /// Removing an object keeps a valid scene valid, and a scene at rest at rest.
    pub proof fn lemma_removed(self, id: GameObjectID)
        requires
            self.wf(),
        ensures
            self.removed(id).wf(),
            self.settled() ==> self.removed(id).settled(),
    {
        let after = self.removed(id);
        if self.objects.contains_key(id) {
            let at = self.objects[id].pos;
            assert forall|pos: Position| #[trigger] after.area.cells.contains_key(pos) implies {
                &&& after.objects.contains_key(after.area.cells[pos])
                &&& after.objects[after.area.cells[pos]].pos == pos
                &&& after.area.in_bounds(pos)
            } by {
                assert(self.area.cells.contains_key(pos));
            }
            assert forall|i: GameObjectID| #[trigger] after.objects.contains_key(i) implies i
                < after.next_id by {
                assert(self.objects.contains_key(i));
            }
            if self.settled() {
                assert forall|i: GameObjectID| !after.dangling(i) by {
                    if after.objects.contains_key(i) {
                        assert(self.objects.contains_key(i));
                        assert(!self.dangling(i));
                        assert(!self.dangling(id));
                    }
                }
            }
        }
    }

    /// Moving an object keeps a valid scene valid, and a scene at rest at rest.
    pub proof fn lemma_moved(self, id: GameObjectID, to: Position)
        requires
            self.wf(),
            self.can_move(id, to),
        ensures
            self.moved(id, to).wf(),
            self.settled() ==> self.moved(id, to).settled(),
    {
        let after = self.moved(id, to);
        let from = self.objects[id].pos;
        assert forall|pos: Position| #[trigger] after.area.cells.contains_key(pos) implies {
            &&& after.objects.contains_key(after.area.cells[pos])
            &&& after.objects[after.area.cells[pos]].pos == pos
            &&& after.area.in_bounds(pos)
        } by {
            if pos != to {
                assert(self.area.cells.contains_key(pos));
            }
        }
        assert forall|i: GameObjectID| #[trigger] after.objects.contains_key(i) implies i
            < after.next_id by {
            assert(self.objects.contains_key(i));
        }
        if self.settled() {
            assert forall|i: GameObjectID| !after.dangling(i) by {
                if i != id && after.objects.contains_key(i) {
                    assert(self.objects.contains_key(i));
                    assert(!self.dangling(i));
                    assert(!self.dangling(id));
                }
            }
        }
    }

    /// A plain resize keeps a valid scene valid. It keeps a scene at rest at rest
    /// exactly if no object lies outside the new extents.
    pub proof fn lemma_resized(self, sx: usize, sy: usize, sz: usize)
        requires
            self.wf(),
        ensures
            self.resized(sx, sy, sz).wf(),
            self.settled() ==> (self.resized(sx, sy, sz).settled() <==> forall|id: GameObjectID| #[trigger]
                self.objects.contains_key(id) ==> self.objects[id].pos.x < sx
                    && self.objects[id].pos.y < sy && self.objects[id].pos.z < sz),
    {
        let after = self.resized(sx, sy, sz);
        assert forall|pos: Position| #[trigger] after.area.cells.contains_key(pos) implies {
            &&& after.objects.contains_key(after.area.cells[pos])
            &&& after.objects[after.area.cells[pos]].pos == pos
            &&& after.area.in_bounds(pos)
        } by {
            assert(self.area.cells.contains_key(pos));
        }
        if self.settled() {
            if after.settled() {
                assert forall|id: GameObjectID| #[trigger]
                    self.objects.contains_key(id) implies self.objects[id].pos.x < sx
                    && self.objects[id].pos.y < sy && self.objects[id].pos.z < sz by {
                    assert(!after.dangling(id));
                    assert(after.area.cells.contains_key(self.objects[id].pos));
                }
            }
            if forall|id: GameObjectID| #[trigger]
                self.objects.contains_key(id) ==> self.objects[id].pos.x < sx
                    && self.objects[id].pos.y < sy && self.objects[id].pos.z < sz {
                assert forall|id: GameObjectID| !after.dangling(id) by {
                    if after.objects.contains_key(id) {
                        assert(!self.dangling(id));
                    }
                }
            }
        }
    }

    /// A retaining resize keeps a valid scene valid, and a scene at rest at rest.
    pub proof fn lemma_resized_retaining(self, sx: usize, sy: usize, sz: usize)
        requires
            self.wf(),
        ensures
            self.resized_retaining(sx, sy, sz).wf(),
            self.settled() ==> self.resized_retaining(sx, sy, sz).settled(),
    {
        let after = self.resized_retaining(sx, sy, sz);
        assert forall|pos: Position| #[trigger] after.area.cells.contains_key(pos) implies {
            &&& after.objects.contains_key(after.area.cells[pos])
            &&& after.objects[after.area.cells[pos]].pos == pos
            &&& after.area.in_bounds(pos)
        } by {
            assert(self.area.cells.contains_key(pos));
        }
        assert forall|i: GameObjectID| #[trigger] after.objects.contains_key(i) implies i
            < after.next_id by {
            assert(self.objects.contains_key(i));
        }
        if self.settled() {
            assert forall|id: GameObjectID| !after.dangling(id) by {
                if after.objects.contains_key(id) {
                    assert(self.objects.contains_key(id));
                    assert(!self.dangling(id));
                }
            }
        }
    }
}

/// The grid, the objects by identifier, and the textures by type tag. The scene
/// is the only one to change the grid and the objects, and keeps them consistent.
/// `T` is the texture type of the renderer in use.
pub struct Scene<T> {
    textures: Vec<T>,
    area: Area,
    objects: FxHashMap<GameObjectID, GameObject>,
    next_id: GameObjectID,
}

impl<T> View for Scene<T> {
    type V = SceneView;

    closed spec fn view(&self) -> SceneView {
        SceneView { area: self.area@, objects: self.objects@, next_id: self.next_id as nat }
    }
}

impl<T> Scene<T> {
    /// The object lies inside the extents `(x, y, z)`.
    spec fn kept(obj: GameObject, x: usize, y: usize, z: usize) -> bool {
        obj.pos.x < x && obj.pos.y < y && obj.pos.z < z
    }

    /// The textures in the order in which they were loaded.
    pub closed spec fn textures(&self) -> Seq<T> {
        self.textures@
    }

    /// The grid is stored as its extents say.
    pub closed spec fn inv(&self) -> bool {
        self.area.wf()
    }

    /// The scene is valid: every constructor and operation keeps it so.
    pub open spec fn wf(&self) -> bool {
        self.inv() && self@.wf()
    }

    /// A scene over the empty grid `area`, with no object and no texture.
    pub fn new(area: Area) -> (scene: Scene<T>)
        requires
            area.wf(),
            area@ == AreaView::empty(area@.sx, area@.sy, area@.sz),
        ensures
            scene.wf(),
            scene@ == SceneView::empty(area@.sx, area@.sy, area@.sz),
            scene.textures() == Seq::<T>::empty(),
    {
        Scene { area, textures: Vec::new(), objects: table_new(), next_id: 0 }
    }

    /// Whether an identifier is left for a new object.
    pub fn has_free_id(&self) -> (free: bool)
        ensures
            free == (self@.next_id < GameObjectID::MAX),
    {
        self.next_id < GameObjectID::MAX
    }

    /// Puts `obj` into the cell at its position and returns its new identifier,
    /// the next of the counter. Refused if the grid has no such cell or the cell
    /// is taken; a refused object changes nothing and uses up no identifier.
    pub fn add_object(&mut self, obj: GameObject) -> (r: Result<GameObjectID, SceneError>)
        requires
            old(self).wf(),
            old(self)@.next_id < GameObjectID::MAX,
        ensures
            final(self).wf(),
            final(self).textures() == old(self).textures(),
            match r {
                Ok(id) => {
                    &&& old(self)@.can_add(obj)
                    &&& id == old(self)@.next_id
                    &&& final(self)@ == old(self)@.added(obj)
                },
                Err(SceneError::OutOfRange(e)) => {
                    &&& !old(self)@.area.in_bounds(obj.pos)
                    &&& e.pos == obj.pos
                    &&& final(self)@ == old(self)@
                },
                Err(SceneError::Occupied(e)) => {
                    &&& old(self)@.area.in_bounds(obj.pos)
                    &&& old(self)@.area.cell(obj.pos) is Some
                    &&& e.0 == obj.pos
                    &&& final(self)@ == old(self)@
                },
                Err(SceneError::NotFound(_)) => false,
            },
    {
        let id = self.next_id;
        let pos = obj.get_pos();
        if !self.area.check_pos_boundaries(&pos) {
            return Err(SceneError::OutOfRange(PositionOutOfRange::new(pos, &self.area)));
        }
        if self.area.get_pos(&pos).is_some() {
            return Err(SceneError::Occupied(FoundObjectWhileInserting(pos)));
        }
        self.area.set_pos(pos, Some(id));
        table_insert(&mut self.objects, id, obj);
        self.next_id += 1;
        proof {
            old(self)@.lemma_added(obj);
        }
        Ok(id)
    }

    /// The texture of the type tag `obj_type`, if one was loaded under it.
    pub fn get_texture(&self, obj_type: usize) -> (texture: Option<&T>)
        ensures
            texture == (if obj_type < self.textures().len() {
                Some(&self.textures()[obj_type as int])
            } else {
                None
            }),
    {
        if obj_type < self.textures.len() {
            Some(&self.textures[obj_type])
        } else {
            None
        }
    }

    /// How many textures were loaded: the type tag that the next one gets.
    pub fn texture_count(&self) -> (count: usize)
        ensures
            count == self.textures().len(),
    {
        self.textures.len()
    }

    /// Appends the decoded textures in their order.
    pub fn load_textures(&mut self, tl: Vec<T>)
        ensures
            final(self)@ == old(self)@,
            final(self).wf() == old(self).wf(),
            final(self).textures() == old(self).textures() + tl@,
    {
        let mut tl = tl;
        self.textures.append(&mut tl);
    }

    /// Appends the decoded texture. Its index, the type tag by which objects
    /// refer to it, is the number of textures loaded before.
    pub fn load_texture(&mut self, texture: T)
        ensures
            final(self)@ == old(self)@,
            final(self).wf() == old(self).wf(),
            final(self).textures() == old(self).textures().push(texture),
    {
        self.textures.push(texture);
    }

    /// The object in the cell at `(x, y, z)`, if the grid has that cell and it holds one.
    pub fn get(&self, x: usize, y: usize, z: usize) -> (obj: Option<&GameObject>)
        requires
            self.wf(),
        ensures
            obj == match self@.object_at(Position { x, y, z }) {
                Some(o) => Some(&o),
                None => None,
            },
    {
        self.get_by_pos(Position::new(x, y, z))
    }

    /// The object in the cell at `pos`, if the grid has that cell and it holds one.
    pub fn get_by_pos(&self, pos: Position) -> (obj: Option<&GameObject>)
        requires
            self.wf(),
        ensures
            obj == match self@.object_at(pos) {
                Some(o) => Some(&o),
                None => None,
            },
    {
        proof {
            self.area.lemma_cells_in_bounds();
        }
        if !self.area.check_pos_boundaries(&pos) {
            return None;
        }
        match self.area.get_pos(&pos) {
            None => None,
            Some(id) => table_get(&self.objects, id),
        }
    }

    /// The object `id`, to read or to give another type tag. Its position is the
    /// scene's to change, through `update_object`: the scene stays valid if the
    /// borrow leaves the position as it was.
    pub fn get_by_id(&mut self, id: GameObjectID) -> (obj: Option<&mut GameObject>)
        requires
            old(self).wf(),
        ensures
            final(self).inv(),
            final(self).textures() == old(self).textures(),
            match obj {
                Some(o) => {
                    &&& old(self)@.objects.contains_key(id)
                    &&& *o == old(self)@.objects[id]
                    &&& final(self)@ == (SceneView {
                        objects: old(self)@.objects.insert(id, *final(o)),
                        ..old(self)@
                    })
                    &&& final(o).pos == o.pos ==> final(self).wf()
                },
                None => !old(self)@.objects.contains_key(id) && final(self)@ == old(self)@,
            },
    {
        table_get_mut(&mut self.objects, &id)
    }

    /// The position of the object `id`.
    pub fn get_object_pos(&self, id: GameObjectID) -> (r: Result<Position, SceneError>)
        ensures
            match r {
                Ok(pos) => self@.objects.contains_key(id) && pos == self@.objects[id].pos,
                Err(SceneError::NotFound(missing)) => {
                    !self@.objects.contains_key(id) && missing == id
                },
                Err(_) => false,
            },
    {
        match table_get(&self.objects, &id) {
            Some(obj) => Ok(obj.get_pos()),
            None => Err(SceneError::NotFound(id)),
        }
    }

    /// Removes the object `id` and empties its cell. With no such object nothing changes.
    pub fn remove_object(&mut self, id: GameObjectID)
        requires
            old(self).wf(),
        ensures
            final(self).wf(),
            final(self).textures() == old(self).textures(),
            final(self)@ == old(self)@.removed(id),
    {
        proof {
            self.area.lemma_cells_in_bounds();
        }
        let obj = table_remove(&mut self.objects, &id);
        if let Some(o) = obj {
            let pos = o.get_pos();
            if self.area.check_pos_boundaries(&pos) {
                let held = *self.area.get_pos(&pos);
                if held == Some(id) {
                    self.area.set_pos(pos, None);
                }
            }
        }
        proof {
            assert(self@.objects =~= old(self)@.removed(id).objects);
            old(self)@.lemma_removed(id);
        }
    }

    /// Moves the object `id` to the cell at `new_pos`. Refused if there is no
    /// such object, if the grid has no such cell, or if another object holds the
    /// cell; a refused move changes nothing.
    pub fn update_object(&mut self, id: GameObjectID, new_pos: Position) -> (r: Result<
        (),
        SceneError,
    >)
        requires
            old(self).wf(),
        ensures
            final(self).wf(),
            final(self).textures() == old(self).textures(),
            match r {
                Ok(()) => old(self)@.can_move(id, new_pos) && final(self)@ == old(self)@.moved(
                    id,
                    new_pos,
                ),
                Err(SceneError::NotFound(missing)) => {
                    &&& !old(self)@.objects.contains_key(id)
                    &&& missing == id
                    &&& final(self)@ == old(self)@
                },
                Err(SceneError::OutOfRange(e)) => {
                    &&& old(self)@.objects.contains_key(id)
                    &&& !old(self)@.area.in_bounds(new_pos)
                    &&& e.pos == new_pos
                    &&& final(self)@ == old(self)@
                },
                Err(SceneError::Occupied(e)) => {
                    &&& old(self)@.objects.contains_key(id)
                    &&& old(self)@.area.in_bounds(new_pos)
                    &&& old(self)@.area.cell(new_pos) is Some
                    &&& old(self)@.area.cell(new_pos) != Some(id)
                    &&& e.0 == new_pos
                    &&& final(self)@ == old(self)@
                },
            },
    {
        proof {
            self.area.lemma_cells_in_bounds();
        }
        let obj = match table_get(&self.objects, &id) {
            None => {
                return Err(SceneError::NotFound(id));
            },
            Some(o) => *o,
        };
        if !self.area.check_pos_boundaries(&new_pos) {
            return Err(SceneError::OutOfRange(PositionOutOfRange::new(new_pos, &self.area)));
        }
        let target = *self.area.get_pos(&new_pos);
        if target.is_some() && target != Some(id) {
            return Err(SceneError::Occupied(FoundObjectWhileInserting(new_pos)));
        }
        let old_pos = obj.get_pos();
        if self.area.check_pos_boundaries(&old_pos) {
            let held = *self.area.get_pos(&old_pos);
            if held == Some(id) {
                self.area.set_pos(old_pos, None);
            }
        }
        self.area.set_pos(new_pos, Some(id));
        table_insert(&mut self.objects, id, GameObject::new(obj.get_type(), new_pos));
        proof {
            assert(self@.area.cells =~= old(self)@.moved(id, new_pos).area.cells);
            old(self)@.lemma_moved(id, new_pos);
        }
        Ok(())
    }

    pub fn get_size_y(&self) -> (sy: usize)
        ensures
            sy == self@.area.sy,
    {
        self.area.get_size_y()
    }

    pub fn get_size_z(&self) -> (sz: usize)
        ensures
            sz == self@.area.sz,
    {
        self.area.get_size_z()
    }

    pub fn get_size_x(&self) -> (sx: usize)
        ensures
            sx == self@.area.sx,
    {
        self.area.get_size_x()
    }

    /// Gives the grid new extents and leaves the objects alone: one whose position
    /// is outside the new extents stays in the scene without a cell.
    pub fn resize(&mut self, x: usize, y: usize, z: usize)
        requires
            old(self).wf(),
        ensures
            final(self).wf(),
            final(self).textures() == old(self).textures(),
            final(self)@ == old(self)@.resized(x, y, z),
    {
        self.area.resize(x, y, z);
        proof {
            old(self)@.lemma_resized(x, y, z);
        }
    }

    /// Gives the grid new extents and removes every object whose position is
    /// outside them.
    pub fn resize_with_objects(&mut self, x: usize, y: usize, z: usize)
        requires
            old(self).wf(),
        ensures
            final(self).wf(),
            final(self).textures() == old(self).textures(),
            final(self)@ == old(self)@.resized_retaining(x, y, z),
    {
        self.area.resize(x, y, z);
        let ids = table_keys(&self.objects);
        let ghost before = self.objects@;
        proof {
            assert forall|id: GameObjectID| before.contains_key(id) implies exists|j: int|
                0 <= j < ids.len() && ids[j] == id by {
                assert(ids@.contains(id));
            }
        }
        let mut i: usize = 0;
        while i < ids.len()
            invariant
                i <= ids.len(),
                ids@.no_duplicates(),
                forall|id: GameObjectID| #[trigger]
                    self.objects@.contains_key(id) <==> before.contains_key(id) && (Self::kept(
                        before[id],
                        x,
                        y,
                        z,
                    ) || exists|j: int| i <= j < ids.len() && ids[j] == id),
                forall|id: GameObjectID| #[trigger]
                    self.objects@.contains_key(id) ==> self.objects@[id] == before[id],
                self.area.wf(),
                self.area@ == old(self).area@.resized(x, y, z),
                self.textures == old(self).textures,
                self.next_id == old(self).next_id,
                before == old(self).objects@,
            decreases ids.len() - i,
        {
            let id = ids[i];
            let outside = match table_get(&self.objects, &id) {
                Some(obj) => obj.pos.x >= x || obj.pos.y >= y || obj.pos.z >= z,
                None => false,
            };
            if outside {
                table_remove(&mut self.objects, &id);
            }
            i += 1;
        }
        proof {
            assert(self@.objects =~= old(self)@.resized_retaining(x, y, z).objects);
            old(self)@.lemma_resized_retaining(x, y, z);
        }
    }
}

} // verus!
