//! What holds of every scene, whatever was done to it.

use vstd::prelude::*;
use crate::geometry::position::Position;
use crate::objects::game_object::{GameObject, GameObjectID};
use crate::objects::scene::SceneView;

verus! {

/// One operation on a scene.
pub enum SceneOp {
    /// `add_object` with the object.
    Add(GameObject),
    /// `remove_object` of the identifier.
    Remove(GameObjectID),
    /// `update_object` of the identifier to the position.
    Move(GameObjectID, Position),
    /// `resize` to the extents.
    Resize(usize, usize, usize),
    /// `resize_with_objects` to the extents.
    ResizeRetaining(usize, usize, usize),
}

impl SceneView {
    /// The scene after `op`. A refused operation leaves the scene as it is.
    pub open spec fn apply(self, op: SceneOp) -> SceneView {
        match op {
            SceneOp::Add(obj) => if self.can_add(obj) {
                self.added(obj)
            } else {
                self
            },
            SceneOp::Remove(id) => self.removed(id),
            SceneOp::Move(id, pos) => if self.can_move(id, pos) {
                self.moved(id, pos)
            } else {
                self
            },
            SceneOp::Resize(sx, sy, sz) => self.resized(sx, sy, sz),
            SceneOp::ResizeRetaining(sx, sy, sz) => self.resized_retaining(sx, sy, sz),
        }
    }

    /// The identifier that `op` returns: that of the new object, if `op` adds
    /// one and is not refused.
    pub open spec fn issued(self, op: SceneOp) -> Option<GameObjectID> {
        match op {
            SceneOp::Add(obj) => if self.can_add(obj) {
                Some(self.next_id as GameObjectID)
            } else {
                None
            },
            _ => None,
        }
    }

    /// The scene after the first `n` of the operations `ops`, in their order.
    pub open spec fn after(self, ops: Seq<SceneOp>, n: nat) -> SceneView
        decreases n,
    {
        if n == 0 || n > ops.len() {
            self
        } else {
            self.after(ops, (n - 1) as nat).apply(ops[n - 1])
        }
    }

    /// An operation never lowers the counter, raises it by at most one, and
    /// raises it exactly when it issues an identifier, which is the counter's
    /// value before.
    pub proof fn lemma_counter_step(self, op: SceneOp)
        ensures
            self.apply(op).next_id == self.next_id + (if self.issued(op) is Some {
                1nat
            } else {
                0nat
            }),
            self.next_id <= GameObjectID::MAX && self.issued(op) is Some ==> self.issued(op)
                == Some(self.next_id as GameObjectID),
    {
    }

    /// The counter never goes down over any operations.
    pub proof fn lemma_counter_monotone(self, ops: Seq<SceneOp>, m: nat, n: nat)
        requires
            m <= n <= ops.len(),
        ensures
            self.after(ops, m).next_id <= self.after(ops, n).next_id,
        decreases n,
    {
        if m < n {
            self.lemma_counter_monotone(ops, m, (n - 1) as nat);
            self.after(ops, (n - 1) as nat).lemma_counter_step(ops[n - 1]);
        }
    }

    /// A refused operation changes nothing: an object that cannot be added uses
    /// up no identifier, and an object that cannot move stays where it is and
    /// keeps its cell.
    pub proof fn lemma_refused_changes_nothing(self, op: SceneOp)
        ensures
            op matches SceneOp::Add(obj) && !self.can_add(obj) ==> self.apply(op) == self,
            op matches SceneOp::Move(id, pos) && !self.can_move(id, pos) ==> self.apply(op)
                == self,
    {
    }

    /// The identifiers that successful additions return rise strictly: of two
    /// operations that each return one, the later returns the greater.
    pub proof fn lemma_ids_rise(self, ops: Seq<SceneOp>, i: nat, j: nat)
        requires
            i < j < ops.len(),
            self.after(ops, ops.len()).next_id <= GameObjectID::MAX,
            self.after(ops, i).issued(ops[i as int]) is Some,
            self.after(ops, j).issued(ops[j as int]) is Some,
        ensures
            self.after(ops, i).issued(ops[i as int])->0 < self.after(ops, j).issued(
                ops[j as int],
            )->0,
    {
        self.lemma_counter_monotone(ops, i + 1, j);
        self.lemma_counter_monotone(ops, j + 1, ops.len());
        self.after(ops, i).lemma_counter_step(ops[i as int]);
        self.after(ops, j).lemma_counter_step(ops[j as int]);
        assert(self.after(ops, i + 1) == self.after(ops, i).apply(ops[i as int]));
        assert(self.after(ops, j + 1) == self.after(ops, j).apply(ops[j as int]));
    }

    /// Every operation keeps a valid scene valid, as long as identifiers are left.
    pub proof fn lemma_apply_keeps_wf(self, op: SceneOp)
        requires
            self.wf(),
            self.next_id < GameObjectID::MAX,
        ensures
            self.apply(op).wf(),
    {
        match op {
            SceneOp::Add(obj) => {
                if self.can_add(obj) {
                    self.lemma_added(obj);
                }
            },
            SceneOp::Remove(id) => {
                self.lemma_removed(id);
            },
            SceneOp::Move(id, pos) => {
                if self.can_move(id, pos) {
                    self.lemma_moved(id, pos);
                }
            },
            SceneOp::Resize(sx, sy, sz) => {
                self.lemma_resized(sx, sy, sz);
            },
            SceneOp::ResizeRetaining(sx, sy, sz) => {
                self.lemma_resized_retaining(sx, sy, sz);
            },
        }
    }

    /// Every operation but the plain resize keeps a scene at rest at rest.
    pub proof fn lemma_apply_keeps_settled(self, op: SceneOp)
        requires
            self.wf(),
            self.settled(),
            self.next_id < GameObjectID::MAX,
            !(op is Resize),
        ensures
            self.apply(op).settled(),
    {
        match op {
            SceneOp::Add(obj) => {
                if self.can_add(obj) {
                    self.lemma_added(obj);
                }
            },
            SceneOp::Remove(id) => {
                self.lemma_removed(id);
            },
            SceneOp::Move(id, pos) => {
                if self.can_move(id, pos) {
                    self.lemma_moved(id, pos);
                }
            },
            SceneOp::Resize(sx, sy, sz) => {},
            SceneOp::ResizeRetaining(sx, sy, sz) => {
                self.lemma_resized_retaining(sx, sy, sz);
            },
        }
    }

    /// Whatever is done to a valid scene, it stays valid: each cell that holds an
    /// identifier names an object of the scene whose position is that cell.
    pub proof fn lemma_always_wf(self, ops: Seq<SceneOp>, n: nat)
        requires
            self.wf(),
            n <= ops.len(),
            self.after(ops, n).next_id < GameObjectID::MAX,
        ensures
            self.after(ops, n).wf(),
        decreases n,
    {
        if n > 0 {
            self.lemma_counter_monotone(ops, (n - 1) as nat, n);
            self.lemma_always_wf(ops, (n - 1) as nat);
            self.after(ops, (n - 1) as nat).lemma_apply_keeps_wf(ops[n - 1]);
        }
    }

    /// In a valid scene a cell holds the identifier of one object, and that
    /// object is at the cell: looking up its position gives the cell back.
    pub proof fn lemma_cell_names_its_object(self, pos: Position)
        requires
            self.wf(),
            self.area.cell(pos) is Some,
        ensures
            self.area.in_bounds(pos),
            self.objects.contains_key(self.area.cell(pos)->0),
            self.objects[self.area.cell(pos)->0].pos == pos,
            self.object_at(pos) == Some(self.objects[self.area.cell(pos)->0]),
    {
    }

    /// No two objects share a cell: two cells that hold the same identifier are
    /// the same cell, and in a scene at rest two different objects are at
    /// different positions.
    pub proof fn lemma_one_object_per_cell(self, a: GameObjectID, b: GameObjectID)
        requires
            self.wf(),
            a != b,
            self.objects.contains_key(a),
            self.objects.contains_key(b),
            !self.dangling(a),
            !self.dangling(b),
        ensures
            self.objects[a].pos != self.objects[b].pos,
    {
    }

    /// A cell holds at most one identifier, and an identifier is in at most one cell.
    pub proof fn lemma_one_cell_per_object(self, p: Position, q: Position)
        requires
            self.wf(),
            self.area.cell(p) is Some,
            self.area.cell(p) == self.area.cell(q),
        ensures
            p == q,
    {
    }
}

} // verus!
