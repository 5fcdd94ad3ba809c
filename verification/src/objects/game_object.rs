use vstd::prelude::*;
use crate::geometry::position::Position;

verus! {

/// The identifier of an object. Zero is a legal identifier.
pub type GameObjectID = u32;

pub type GameObjectRef = u32;

/// A sprite-like object: a free-form type tag, which selects its texture, and
/// the cell it occupies.
#[derive(Copy, Clone, Debug, PartialEq, Eq, Structural)]
pub struct GameObject {
    pub type_tag: i32,
    pub pos: Position,
}

impl GameObject {
    pub fn new(type_tag: i32, position: Position) -> (obj: GameObject)
        ensures
            obj == (GameObject { type_tag, pos: position }),
    {
        GameObject { type_tag, pos: position }
    }

    pub fn get_pos(&self) -> (pos: Position)
        ensures
            pos == self.pos,
    {
        self.pos
    }

    pub fn set_pos(&mut self, pos: Position)
        ensures
            *final(self) == (GameObject { pos, ..*old(self) }),
    {
        self.pos = pos;
    }

    pub fn get_type(&self) -> (type_tag: i32)
        ensures
            type_tag == self.type_tag,
    {
        self.type_tag
    }

    pub fn set_type(&mut self, type_tag: i32)
        ensures
            *final(self) == (GameObject { type_tag, ..*old(self) }),
    {
        self.type_tag = type_tag;
    }
}

} // verus!
